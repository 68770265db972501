//! Decision logic of the pump: the single background task that drains the
//! interpreter's block sequence into the outbound channel while racing
//! cancellation.
//!
//! Each round the pump awaits the next [`StreamItem`]. For a produced block
//! it races handing the block to the outbound channel against receiving on
//! the abort channel; `abort_first` reports which branch of that race was
//! ready first. [`pump_round`] resolves one such round: it either delivers
//! the block, parks on a full channel with the same block still in hand, or
//! halts with the directive the terminal transition is to be called with.
//! Cancellation is observed only inside this race, so a pending abort waits
//! for the next produced item — cancellation is cooperative, bounded by
//! upstream production latency, never immediate.

use vstd::prelude::*;

use crate::channel::AbortChannel;
use crate::channel::BlockChannel;
use crate::channel::DataBlock;
use crate::errors::is_aborted_error;
use crate::errors::ErrorCode;
use crate::progress::ProgressValues;
use crate::state::ExecuteState;
use crate::state::Executor;
use crate::state::StopOutcome;

verus! {

/// One item of the (abortable) block sequence, as the pump awaits it: a
/// produced block, a production error for this item, or exhaustion.
pub enum StreamItem {
    Block(DataBlock),
    Failure(ErrorCode),
    End,
}

/// The arguments of the one terminal transition a halting pump performs:
/// the outcome to record, and whether the owning session is to be forcibly
/// terminated.
pub struct StopDirective {
    pub reason: Result<(), ErrorCode>,
    pub kill: bool,
}

/// How one pump round ended: the block was delivered and the pump pulls the
/// next item; the outbound channel was full and the pump stays parked on
/// the very same block; or the pump halts with a stop directive.
pub enum PumpRound {
    Delivered,
    Parked(DataBlock),
    Halt(StopDirective),
}

/// The exact step relation of one pump round, from the outbound channel and
/// item before the round to the channel after it and the round's result.
pub open spec fn pump_round_rel(
    c0: BlockChannel,
    abort_first: bool,
    item: StreamItem,
    c1: BlockChannel,
    r: PumpRound,
) -> bool {
    match item {
        StreamItem::End => {
            &&& c1 == c0
            &&& r matches PumpRound::Halt(d) && d.reason is Ok && !d.kill
        },
        StreamItem::Failure(e) => {
            &&& c1 == c0
            &&& r == PumpRound::Halt(StopDirective { reason: Err(e), kill: false })
        },
        StreamItem::Block(b) => {
            if abort_first {
                &&& c1 == c0
                &&& r matches PumpRound::Halt(d) && d.kill && (d.reason matches Err(e)
                    && is_aborted_error(e))
            } else if c0.queue@.len() < c0.capacity {
                &&& c1.capacity == c0.capacity
                &&& c1.queue@ == c0.queue@.push(b)
                &&& r is Delivered
            } else {
                &&& c1 == c0
                &&& r == PumpRound::Parked(b)
            }
        },
    }
}

/// Resolves one round of the pump loop.
///
/// An exhausted sequence halts with success and no kill; a production error
/// halts carrying that error, with no kill; a produced block is dropped and
/// the round halts with the distinguished aborted-query error and a forced
/// kill when the abort branch of the race was ready first, is delivered
/// when the outbound channel has room, and is otherwise handed back
/// unchanged — a full channel makes the pump park on the same block, it
/// never drops or skips one.
pub fn pump_round(chan: &mut BlockChannel, abort_first: bool, item: StreamItem) -> (r: PumpRound)
    requires
        old(chan).wf(),
    ensures
        pump_round_rel(*old(chan), abort_first, item, *final(chan), r),
        final(chan).wf(),
{
    match item {
        StreamItem::End => PumpRound::Halt(StopDirective { reason: Ok(()), kill: false }),
        StreamItem::Failure(e) => PumpRound::Halt(
            StopDirective { reason: Err(e), kill: false },
        ),
        StreamItem::Block(b) => {
            if abort_first {
                PumpRound::Halt(
                    StopDirective { reason: Err(ErrorCode::aborted_query()), kill: true },
                )
            } else if chan.queue.len() < chan.capacity {
                chan.queue.push(b);
                PumpRound::Delivered
            } else {
                PumpRound::Parked(b)
            }
        },
    }
}

/// The blocks held in the first `hi` items of a stream script, in order.
pub open spec fn blocks_of_prefix(items: Seq<StreamItem>, hi: int) -> Seq<DataBlock> {
    items.subrange(0, hi).map_values(|it: StreamItem| it->Block_0)
}

/// How an uncancelled pump run over the script `items` ends: `hi` is where
/// the run halts — the index of the first item that is not a block, or the
/// script's length when every item is one and the sequence is exhausted.
/// Every block before `hi` was delivered in order and nothing else was, and
/// the executor performed exactly the transition that the halting item (or
/// exhaustion) dictates.
pub open spec fn drained_up_to(
    items: Seq<StreamItem>,
    c0: BlockChannel,
    c1: BlockChannel,
    e0: Executor,
    e1: Executor,
    live: ProgressValues,
    now: u64,
    hi: int,
) -> bool {
    &&& 0 <= hi <= items.len()
    &&& forall|k: int| 0 <= k < hi ==> items[k] is Block
    &&& hi < items.len() ==> !(items[hi] is Block)
    &&& c1.capacity == c0.capacity
    &&& c1.queue@ == c0.queue@ + blocks_of_prefix(items, hi)
    &&& (hi == items.len() || items[hi] is End) ==> e1 == e0.stop_transition(Ok(()), live, now)
    &&& hi < items.len() ==> (items[hi] matches StreamItem::Failure(err) ==> e1
        == e0.stop_transition(Err(err), live, now))
}

/// The whole pump loop of one query, run to its terminal transition over a
/// finite stream script.
///
/// `items` is the abortable block sequence as the pump will see it, in
/// order; the sequence is exhausted after its last element. Each produced
/// block opens the race against the abort channel; a signal pending there
/// wins the first such race. The caller hands a channel with room for the
/// whole script, standing for a consumer that keeps up; the per-round
/// behaviour on a contended channel is [`pump_round`]'s.
///
/// The run always ends in the executor's single terminal transition: with
/// no pending signal the script alone decides the outcome (success on
/// exhaustion or an explicit end, the production error on a failure, every
/// block before the halt delivered in order); a pending signal is consumed
/// by the first produced block, which is dropped while the run halts with
/// the aborted-query error and the forced session kill.
pub fn run_pump(
    executor: &mut Executor,
    chan: &mut BlockChannel,
    abort: &mut AbortChannel,
    items: Vec<StreamItem>,
    live: ProgressValues,
    now: u64,
) -> (r: StopOutcome)
    requires
        old(executor).wf(),
        old(executor).is_running(),
        now >= old(executor).start_time,
        old(chan).wf(),
        old(abort).wf(),
        old(chan).queue@.len() + items@.len() <= old(chan).capacity,
    ensures
        r.transitioned,
        final(executor).is_stopped(),
        final(executor).wf(),
        final(chan).capacity == old(chan).capacity,
        final(abort).capacity == old(abort).capacity,
        r.kill_session <==> (old(abort).queued > 0 && items@.len() > 0 && items@[0] is Block),
        final(abort).queued == (if r.kill_session {
            old(abort).queued - 1
        } else {
            old(abort).queued as int
        }),
        !r.kill_session ==> (exists|hi: int|
            drained_up_to(
                items@,
                *old(chan),
                *final(chan),
                *old(executor),
                *final(executor),
                live,
                now,
                hi,
            )),
        r.kill_session ==> {
            &&& final(chan).queue@ == old(chan).queue@
            &&& final(executor).state matches ExecuteState::Stopped(s) && s.progress == Some(live)
                && s.stop_time == now && (s.reason matches Err(e) && is_aborted_error(e))
        },
{
    let ghost items0 = items@;
    let mut rest = items;
    let mut i: usize = 0;
    let mut directive: Option<StopDirective> = None;
    let ghost mut aborted: bool = false;
    proof {
        assert(blocks_of_prefix(items0, 0) =~= Seq::<DataBlock>::empty());
        assert(old(chan).queue@ + blocks_of_prefix(items0, 0) =~= chan.queue@);
    }
    while directive.is_none()
        invariant
            i <= items0.len(),
            directive is None ==> rest@ == items0.subrange(i as int, items0.len() as int),
            forall|k: int| 0 <= k < i ==> items0[k] is Block,
            chan.capacity == old(chan).capacity,
            chan.wf(),
            chan.queue@ == old(chan).queue@ + blocks_of_prefix(items0, i as int),
            old(chan).queue@.len() + items0.len() <= old(chan).capacity,
            abort.capacity == old(abort).capacity,
            abort.wf(),
            directive is None ==> *abort == *old(abort) && !aborted,
            i > 0 ==> old(abort).queued == 0,
            directive matches Some(d) ==> {
                &&& d.kill == aborted
                &&& aborted ==> {
                    &&& old(abort).queued > 0
                    &&& abort.queued == old(abort).queued - 1
                    &&& i == 0
                    &&& items0.len() > 0 && items0[0] is Block
                    &&& d.reason matches Err(e) && is_aborted_error(e)
                }
                &&& !aborted ==> {
                    &&& *abort == *old(abort)
                    &&& (i as int == items0.len() || items0[i as int] is End) ==> d.reason is Ok
                    &&& (i as int) < items0.len() ==> (items0[i as int] matches
                        StreamItem::Failure(err) ==> d.reason == Err::<(), ErrorCode>(err))
                    &&& (i as int) < items0.len() ==> !(items0[i as int] is Block)
                }
            },
        decreases rest@.len() * 2 + (if directive is Some { 0int } else { 1int }),
    {
        if rest.len() == 0 {
            match pump_round(chan, false, StreamItem::End) {
                PumpRound::Halt(d) => {
                    directive = Some(d);
                },
                _ => {
                    proof {
                        assert(false);
                    }
                },
            }
            proof {
                assert(chan.queue@ =~= old(chan).queue@ + blocks_of_prefix(items0, i as int));
            }
        } else {
            let item = rest.remove(0);
            proof {
                assert(rest@ =~= items0.subrange(i + 1, items0.len() as int));
            }
            match item {
                StreamItem::Block(b) => {
                    let abort_first = abort.observe();
                    match pump_round(chan, abort_first, StreamItem::Block(b)) {
                        PumpRound::Delivered => {
                            proof {
                                assert(items0.subrange(0, i + 1).drop_last() =~= items0.subrange(
                                    0,
                                    i as int,
                                ));
                                assert(blocks_of_prefix(items0, i + 1) =~= blocks_of_prefix(
                                    items0,
                                    i as int,
                                ).push(items0[i as int]->Block_0));
                                assert(chan.queue@ =~= old(chan).queue@ + blocks_of_prefix(
                                    items0,
                                    i + 1,
                                ));
                            }
                            i = i + 1;
                        },
                        PumpRound::Halt(d) => {
                            proof {
                                aborted = true;
                            }
                            directive = Some(d);
                        },
                        PumpRound::Parked(_) => {
                            proof {
                                assert(blocks_of_prefix(items0, i as int).len() == i);
                                assert(false);
                            }
                        },
                    }
                },
                StreamItem::Failure(e) => {
                    match pump_round(chan, false, StreamItem::Failure(e)) {
                        PumpRound::Halt(d) => {
                            directive = Some(d);
                        },
                        _ => {
                            proof {
                                assert(false);
                            }
                        },
                    }
                },
                StreamItem::End => {
                    match pump_round(chan, false, StreamItem::End) {
                        PumpRound::Halt(d) => {
                            directive = Some(d);
                        },
                        _ => {
                            proof {
                                assert(false);
                            }
                        },
                    }
                },
            }
        }
    }
    let d = match directive {
        Some(d) => d,
        None => vstd::pervasive::unreached(),
    };
    let ghost hi = i as int;
    let ghost dreason = d.reason;
    let r = executor.stop(d.reason, d.kill, live, now);
    proof {
        if !aborted {
            if dreason is Ok {
                assert(dreason->Ok_0 == ());
            }
            assert(drained_up_to(
                items0,
                *old(chan),
                *chan,
                *old(executor),
                *executor,
                live,
                now,
                hi,
            ));
        } else {
            assert(blocks_of_prefix(items0, 0) =~= Seq::empty());
            assert(chan.queue@ =~= old(chan).queue@);
        }
    }
    r
}

/// Cancellation and the forced kill are coupled: a halting pump demands the
/// forced session kill exactly when its recorded outcome is the
/// distinguished aborted-query error. The one stream of events this does
/// not speak of is an upstream production failure that itself carries the
/// aborted-query code — there the pump records that error without killing.
pub proof fn lemma_cancellation_kill_coupling(
    c0: BlockChannel,
    abort_first: bool,
    item: StreamItem,
    c1: BlockChannel,
    d: StopDirective,
)
    requires
        pump_round_rel(c0, abort_first, item, c1, PumpRound::Halt(d)),
        !(item matches StreamItem::Failure(f) && f.code == crate::errors::ABORTED_QUERY),
    ensures
        d.kill <==> (d.reason matches Err(e) && e.code == crate::errors::ABORTED_QUERY),
{
}

/// Backpressure: when the outbound channel is at capacity and the abort
/// branch was not ready, the pump delivers nothing, drops nothing, and does
/// not advance — the channel is unchanged and the round hands back exactly
/// the block it was offered.
pub proof fn lemma_backpressure(
    c0: BlockChannel,
    item: StreamItem,
    c1: BlockChannel,
    r: PumpRound,
    b: DataBlock,
)
    requires
        pump_round_rel(c0, false, item, c1, r),
        item == StreamItem::Block(b),
        c0.is_full(),
    ensures
        c1 == c0,
        r == PumpRound::Parked(b),
{
}

} // verus!
