//! The boundary data that seeds a query: the SQL text and the optional
//! session overrides that came in with it.

use vstd::prelude::*;
use vstd::string::StringExecFns;

verus! {

/// Session settings of an inbound query request: an optional database to
/// bind and an optional user to act as.
pub struct HttpSessionConf {
    pub database: Option<String>,
    pub user: Option<String>,
}

impl Default for HttpSessionConf {
    /// No overrides: no database binding, no user named.
    fn default() -> (r: HttpSessionConf)
        ensures
            r.database is None,
            r.user is None,
    {
        HttpSessionConf { database: None, user: None }
    }
}

/// An inbound query request: the SQL text to execute and its session
/// settings.
pub struct HttpQueryRequest {
    pub session: HttpSessionConf,
    pub sql: String,
}

/// The name of the acting user for a request: the one the session settings
/// name, or the fixed superuser identity when none is named.
///
/// Looking the name up in the user directory, and any check of the user's
/// grants, happens outside; grants are deliberately not checked anywhere on
/// this path (see [`crate::create`]).
pub fn resolve_user_name(conf: &HttpSessionConf) -> (r: String)
    ensures
        conf.user matches Some(u) ==> r@ == u@,
        conf.user is None ==> r@ == "root"@,
{
    match &conf.user {
        Some(u) => u.clone(),
        None => String::from_str("root"),
    }
}

} // verus!
