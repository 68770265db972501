//! Progress counters of a running query, as observers see them.

use vstd::prelude::*;

verus! {

/// A snapshot of the scan-progress counters of one query: how many rows and
/// bytes its execution has read so far.
#[derive(Clone, Copy, PartialEq, Eq, Structural, Debug)]
pub struct ProgressValues {
    pub read_rows: usize,
    pub read_bytes: usize,
}

} // verus!
