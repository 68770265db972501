//! End-to-end scenarios of one query's lifecycle, driven over the verified
//! controller: creation, block delivery, cancellation, failure and status
//! polling.

use query_executor::channel::{AbortChannel, BlockChannel, DataBlock};
use query_executor::create::{create_advance, CreatePhase};
use query_executor::errors::{ErrorCode, ABORTED_QUERY};
use query_executor::progress::ProgressValues;
use query_executor::pump::{pump_round, run_pump, PumpRound, StopDirective, StreamItem};
use query_executor::request::{HttpQueryRequest, HttpSessionConf};
use query_executor::state::{ExecuteStateName, Executor, StopOutcome};

/// Drives the creation routine to its terminal phase, every step succeeding.
fn create_all_ok(request: &HttpQueryRequest) -> CreatePhase {
    let mut phase = CreatePhase::CreateSession;
    let mut steps = 0;
    loop {
        match phase {
            CreatePhase::Ready | CreatePhase::Refused(_) => return phase,
            _ => {}
        }
        phase = create_advance(phase, request, Ok(()));
        steps += 1;
        assert!(steps < 32, "creation routine must terminate");
    }
}

/// Applies a halting pump round to the executor, the way the pump task does.
fn apply_halt(
    executor: &mut Executor,
    directive: StopDirective,
    live: ProgressValues,
    now: u64,
) -> StopOutcome {
    executor.stop(directive.reason, directive.kill, live, now)
}

#[test]
fn select_one_delivers_then_succeeds() {
    // Creation succeeds for a plain request with no session overrides.
    let request = HttpQueryRequest {
        session: HttpSessionConf::default(),
        sql: "SELECT 1".to_string(),
    };
    let phase = create_all_ok(&request);
    assert!(matches!(phase, CreatePhase::Ready));

    let mut executor = Executor::create(0);
    let mut chan = BlockChannel::bounded(4);
    let live = ProgressValues { read_rows: 1, read_bytes: 8 };

    // The pump delivers the single result block, then sees the end of the
    // sequence and halts with success and no forced kill.
    let r1 = pump_round(&mut chan, false, StreamItem::Block(DataBlock { values: vec![1] }));
    assert!(matches!(r1, PumpRound::Delivered));
    let r2 = pump_round(&mut chan, false, StreamItem::End);
    let directive = match r2 {
        PumpRound::Halt(d) => d,
        _ => panic!("an exhausted sequence must halt the pump"),
    };
    assert!(directive.reason.is_ok());
    assert!(!directive.kill);

    let outcome = apply_halt(&mut executor, directive, live, 7);
    assert!(outcome.transitioned);
    assert!(!outcome.kill_session);

    // Exactly one block came out downstream, holding the single value 1.
    let block = chan.recv().expect("one block was delivered");
    assert_eq!(block.values, vec![1]);
    assert!(chan.recv().is_none());

    // Status polls report Succeeded with no residual error and the frozen
    // snapshot.
    let (name, err) = executor.state.extract();
    assert_eq!(name, ExecuteStateName::Succeeded);
    assert!(err.is_none());
    assert_eq!(
        executor.get_progress(ProgressValues { read_rows: 999, read_bytes: 999 }),
        Some(live)
    );
}

#[test]
fn abort_before_first_block_kills_and_fails() {
    let mut executor = Executor::create(100);
    let mut chan = BlockChannel::bounded(4);
    let mut abort = AbortChannel::bounded(2);

    // The cancellation request arrives while the pump still awaits the
    // first item: the signal is queued without blocking the caller.
    assert!(abort.signal());

    // Cancellation is cooperative: until the upstream sequence produces an
    // item there is no race to observe the signal in, so the query still
    // polls as Running.
    let (name, err) = executor.state.extract();
    assert_eq!(name, ExecuteStateName::Running);
    assert!(err.is_none());

    // The next produced block opens the race; the queued abort wins it, the
    // block is dropped, and the pump halts demanding the forced kill.
    let abort_first = abort.observe();
    assert!(abort_first);
    let round = pump_round(
        &mut chan,
        abort_first,
        StreamItem::Block(DataBlock { values: vec![42] }),
    );
    let directive = match round {
        PumpRound::Halt(d) => d,
        _ => panic!("an observed abort must halt the pump"),
    };
    assert!(directive.kill);
    let live = ProgressValues { read_rows: 0, read_bytes: 0 };
    let outcome = apply_halt(&mut executor, directive, live, 130);
    assert!(outcome.transitioned);
    assert!(outcome.kill_session, "cancellation forcibly terminates the session");

    // Nothing was delivered downstream, and status polls report Failed with
    // the distinguished aborted-query error.
    assert!(chan.recv().is_none());
    let (name, err) = executor.state.extract();
    assert_eq!(name, ExecuteStateName::Failed);
    let err = err.expect("a failed query carries its error");
    assert_eq!(err.code, ABORTED_QUERY);
    assert_eq!(err.message, "query aborted");
}

#[test]
fn error_on_third_block_delivers_two_then_fails() {
    let mut executor = Executor::create(0);
    let mut chan = BlockChannel::bounded(4);

    let items = vec![
        StreamItem::Block(DataBlock { values: vec![10] }),
        StreamItem::Block(DataBlock { values: vec![20] }),
        StreamItem::Failure(ErrorCode::create(9, "disk torn apart".to_string())),
    ];
    let mut halted = None;
    for item in items {
        match pump_round(&mut chan, false, item) {
            PumpRound::Delivered => {}
            PumpRound::Halt(d) => {
                halted = Some(d);
                break;
            }
            PumpRound::Parked(_) => panic!("the channel has room for every block here"),
        }
    }
    let directive = halted.expect("the failing third item halts the pump");
    assert!(!directive.kill, "an upstream failure does not force-kill the session");

    let live = ProgressValues { read_rows: 2, read_bytes: 16 };
    let outcome = apply_halt(&mut executor, directive, live, 5);
    assert!(outcome.transitioned);
    assert!(!outcome.kill_session);

    // Exactly the two blocks before the failure came out downstream.
    assert_eq!(chan.recv().expect("first block").values, vec![10]);
    assert_eq!(chan.recv().expect("second block").values, vec![20]);
    assert!(chan.recv().is_none());

    let (name, err) = executor.state.extract();
    assert_eq!(name, ExecuteStateName::Failed);
    let err = err.expect("a failed query carries its error");
    assert_eq!(err.code, 9);
    assert_eq!(err.message, "disk torn apart");
}

#[test]
fn status_polls_across_completion_are_ordered() {
    let mut executor = Executor::create(1000);

    // First poll, mid-execution: live progress and elapsed time so far.
    let live_then = ProgressValues { read_rows: 2, read_bytes: 64 };
    let elapsed_running = executor.elapsed(1005);
    let progress_running = executor.get_progress(live_then).expect("running progress");

    // The query then completes naturally.
    let live_at_stop = ProgressValues { read_rows: 5, read_bytes: 160 };
    executor.stop(Ok(()), false, live_at_stop, 1010);

    // Second poll, after completion: strictly more elapsed time, and
    // progress that has not gone backwards.
    let elapsed_stopped = executor.elapsed(2000);
    let progress_stopped = executor
        .get_progress(ProgressValues { read_rows: 0, read_bytes: 0 })
        .expect("frozen progress");
    assert!(elapsed_running < elapsed_stopped);
    assert!(progress_running.read_rows <= progress_stopped.read_rows);
    assert!(progress_running.read_bytes <= progress_stopped.read_bytes);
    let (name, err) = executor.state.extract();
    assert_eq!(name, ExecuteStateName::Succeeded);
    assert!(err.is_none());
}

#[test]
fn full_channel_parks_pump_until_consumer_or_abort() {
    let mut chan = BlockChannel::bounded(1);
    let r1 = pump_round(&mut chan, false, StreamItem::Block(DataBlock { values: vec![1] }));
    assert!(matches!(r1, PumpRound::Delivered));
    assert_eq!(chan.len(), 1);

    // The channel is at capacity: the next block is neither delivered nor
    // dropped; the pump parks holding exactly that block.
    let r2 = pump_round(&mut chan, false, StreamItem::Block(DataBlock { values: vec![2] }));
    let parked = match r2 {
        PumpRound::Parked(b) => b,
        _ => panic!("a full channel must park the pump"),
    };
    assert_eq!(parked.values, vec![2]);
    assert_eq!(chan.len(), 1);

    // Once the consumer drains a block, re-offering the same parked block
    // succeeds; the pump advanced past it only after delivery.
    assert_eq!(chan.recv().expect("drained block").values, vec![1]);
    let r3 = pump_round(&mut chan, false, StreamItem::Block(parked));
    assert!(matches!(r3, PumpRound::Delivered));
    assert_eq!(chan.recv().expect("parked block delivered").values, vec![2]);

    // Had an abort been pending instead, the parked block would have been
    // dropped and the pump halted.
    let r4 = pump_round(&mut chan, true, StreamItem::Block(DataBlock { values: vec![3] }));
    match r4 {
        PumpRound::Halt(d) => assert!(d.kill),
        _ => panic!("a pending abort wins the race"),
    }
}

#[test]
fn whole_pump_run_delivers_script_then_succeeds() {
    let mut executor = Executor::create(0);
    let mut chan = BlockChannel::bounded(4);
    let mut abort = AbortChannel::bounded(2);
    let items = vec![
        StreamItem::Block(DataBlock { values: vec![1] }),
        StreamItem::Block(DataBlock { values: vec![2] }),
    ];
    let live = ProgressValues { read_rows: 2, read_bytes: 16 };
    let outcome = run_pump(&mut executor, &mut chan, &mut abort, items, live, 3);
    assert!(outcome.transitioned);
    assert!(!outcome.kill_session);
    assert_eq!(chan.recv().unwrap().values, vec![1]);
    assert_eq!(chan.recv().unwrap().values, vec![2]);
    assert!(chan.recv().is_none());
    let (name, err) = executor.state.extract();
    assert_eq!(name, ExecuteStateName::Succeeded);
    assert!(err.is_none());
    assert_eq!(executor.elapsed(99), 3);
}

#[test]
fn whole_pump_run_halts_at_failure_with_later_blocks_undelivered() {
    let mut executor = Executor::create(0);
    let mut chan = BlockChannel::bounded(8);
    let mut abort = AbortChannel::bounded(2);
    let items = vec![
        StreamItem::Block(DataBlock { values: vec![7] }),
        StreamItem::Failure(ErrorCode::create(21, "torn page".to_string())),
        StreamItem::Block(DataBlock { values: vec![8] }),
    ];
    let live = ProgressValues { read_rows: 1, read_bytes: 8 };
    let outcome = run_pump(&mut executor, &mut chan, &mut abort, items, live, 2);
    assert!(outcome.transitioned);
    assert!(!outcome.kill_session, "an upstream failure never force-kills");
    assert_eq!(chan.recv().unwrap().values, vec![7]);
    assert!(chan.recv().is_none(), "nothing after the failing item is delivered");
    let (name, err) = executor.state.extract();
    assert_eq!(name, ExecuteStateName::Failed);
    assert_eq!(err.unwrap().code, 21);
}

#[test]
fn whole_pump_run_observes_pending_signal_on_first_block() {
    let mut executor = Executor::create(0);
    let mut chan = BlockChannel::bounded(4);
    let mut abort = AbortChannel::bounded(2);
    assert!(abort.signal());
    let items = vec![
        StreamItem::Block(DataBlock { values: vec![5] }),
        StreamItem::Block(DataBlock { values: vec![6] }),
    ];
    let live = ProgressValues { read_rows: 0, read_bytes: 0 };
    let outcome = run_pump(&mut executor, &mut chan, &mut abort, items, live, 1);
    assert!(outcome.transitioned);
    assert!(outcome.kill_session);
    assert!(chan.recv().is_none(), "the racing block is dropped, not delivered");
    assert_eq!(abort.queued, 0, "the winning race consumed the signal");
    let (name, err) = executor.state.extract();
    assert_eq!(name, ExecuteStateName::Failed);
    let err = err.unwrap();
    assert_eq!(err.code, ABORTED_QUERY);
    assert_eq!(err.message, "query aborted");
}
