use shardpack::chunk::Chunk;
use shardpack::errors::OpError;
use shardpack::offload::{
    after_fill, offload_pair, teardown_poll, AfterFill, RoundPlan, TeardownStep, WorkerExit,
};

#[test]
fn delivered_bytes_come_back_in_order() {
    let (worker, mut reader) = offload_pair(4, 8, 200);
    let plan = worker.begin_round(false);
    let mut chunk = match plan {
        RoundPlan::Fill(c) => c,
        RoundPlan::Stop(_) => panic!("an uncancelled round with live queues must fill"),
    };
    let src = vec![10u8, 11, 12, 13, 14];
    chunk.absorb(&src, 0, 5);
    match after_fill(chunk) {
        AfterFill::Deliver(c) => {
            worker.deliver(c).expect("queue has room and the reader is alive");
        }
        AfterFill::Finished => panic!("a non-empty chunk must be delivered"),
    }
    let first = reader.read_bytes(2).expect("a delivered chunk is ready");
    assert_eq!(first, vec![10u8, 11]);
    let rest = reader.read_bytes(100).expect("the held chunk is drained next");
    assert_eq!(rest, vec![12u8, 13, 14]);
}

#[test]
fn fifo_order_across_chunks() {
    let (worker, mut reader) = offload_pair(4, 4, 200);
    for base in [0u8, 100] {
        let mut c = match worker.begin_round(false) {
            RoundPlan::Fill(c) => c,
            RoundPlan::Stop(_) => panic!("an uncancelled round with live queues must fill"),
        };
        let src = vec![base, base + 1];
        c.absorb(&src, 0, 2);
        worker.deliver(c).expect("queue has room");
    }
    let mut all = Vec::new();
    for _ in 0..4 {
        let got = reader.read_bytes(1).expect("two chunks are queued");
        assert_eq!(got.len(), 1);
        all.push(got[0]);
    }
    assert_eq!(all, vec![0u8, 1, 100, 101]);
}

#[test]
fn disconnected_worker_reads_as_end_of_stream() {
    let (worker, mut reader) = offload_pair(2, 4, 200);
    drop(worker);
    let got = reader.read_bytes(8).expect("a gone worker is a clean end of stream");
    assert_eq!(got.len(), 0);
}

#[test]
fn stalled_worker_reads_as_timeout() {
    let (worker, mut reader) = offload_pair(2, 4, 50);
    let got = reader.read_bytes(8);
    assert_eq!(got, Err(OpError::Timeout));
    drop(worker);
}

#[test]
fn cancelled_round_stops_with_shutdown_signal() {
    let (worker, reader) = offload_pair(2, 4, 50);
    match worker.begin_round(true) {
        RoundPlan::Stop(e) => assert_eq!(e, WorkerExit::ShutdownSignal),
        RoundPlan::Fill(_) => panic!("a cancelled worker must not start another fill"),
    }
    drop(reader);
}

#[test]
fn torn_down_reader_stops_worker_round() {
    let (worker, reader) = offload_pair(2, 4, 50);
    drop(reader);
    match worker.begin_round(false) {
        RoundPlan::Stop(e) => assert_eq!(e, WorkerExit::ShutdownSignal),
        RoundPlan::Fill(_) => panic!("with the reuse queue gone the worker must stop"),
    }
}

#[test]
fn empty_fill_finishes_cleanly() {
    let c = Chunk::with_capacity(4);
    assert!(matches!(after_fill(c), AfterFill::Finished));
}

#[test]
fn teardown_joins_finished_worker() {
    assert_eq!(teardown_poll(0, 5000, true), TeardownStep::JoinNow);
    assert_eq!(teardown_poll(9999, 5000, true), TeardownStep::JoinNow);
}

#[test]
fn teardown_keeps_waiting_inside_timeout() {
    assert_eq!(teardown_poll(4999, 5000, false), TeardownStep::KeepWaiting);
}

#[test]
fn teardown_never_waits_past_timeout() {
    assert_eq!(teardown_poll(5000, 5000, false), TeardownStep::GiveUp);
    assert_eq!(teardown_poll(u64::MAX, 5000, false), TeardownStep::GiveUp);
}

#[test]
fn recycled_chunk_round() {
    let (worker, mut reader) = offload_pair(2, 4, 200);
    let mut c = match worker.begin_round(false) {
        RoundPlan::Fill(c) => c,
        RoundPlan::Stop(_) => panic!("an uncancelled round with live queues must fill"),
    };
    let src = vec![1u8, 2, 3, 4];
    c.absorb(&src, 0, 4);
    worker.deliver(c).expect("queue has room");
    let got = reader.read_bytes(4).expect("chunk is ready");
    assert_eq!(got, vec![1u8, 2, 3, 4]);
    // The drained chunk went back over the reuse queue; the next round hands
    // out an empty chunk again, recycled or fresh.
    let mut c2 = match worker.begin_round(false) {
        RoundPlan::Fill(c) => c,
        RoundPlan::Stop(_) => panic!("an uncancelled round with live queues must fill"),
    };
    assert_eq!(c2.len(), 0);
    assert_eq!(c2.capacity(), 4);
    c2.absorb(&src, 1, 2);
    worker.deliver(c2).expect("queue has room");
    let again = reader.read_bytes(8).expect("second chunk is ready");
    assert_eq!(again, vec![2u8, 3]);
}
