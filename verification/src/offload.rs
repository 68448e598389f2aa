use vstd::prelude::*;

use std::collections::VecDeque;

use crate::chunk::Chunk;
use crate::errors::OpError;

verus! {

// Offloaded reading: a background worker performs blocking reads from an
// inner stream into pooled chunks and pushes them onto a bounded ready
// queue; the consumer-facing reader drains those chunks at its own pace
// and returns emptied chunks over a bounded reuse queue.
//
// The two queues are crossbeam channels. Their endpoints live in the two
// cores below; every call into the channel crate goes through a trusted
// wrapper, and all decisions taken on the outcomes are verified.

/// How many filled chunks may wait between the worker and the reader; a
/// full ready queue pauses the worker rather than buffering without bound.
pub const OFFLOAD_QUEUE_DEPTH: usize = 10;

/// Fixed capacity of one pooled chunk.
pub const OFFLOAD_CHUNK_CAPACITY: usize = 128 * 1024;

/// How long one read may wait for the next chunk before reporting a stall.
pub const OFFLOAD_READ_TIMEOUT_MS: u64 = 5000;

/// Declares crossbeam_channel::Sender, the sending endpoint of a queue, so
/// that it can stand in fields and signatures; opaque to the verifier.
#[verifier::external_type_specification]
#[verifier::external_body]
#[verifier::reject_recursive_types(T)]
pub struct ExSender<T>(crossbeam_channel::Sender<T>);

/// Declares crossbeam_channel::Receiver, the receiving endpoint of a queue,
/// so that it can stand in fields and signatures; opaque to the verifier.
#[verifier::external_type_specification]
#[verifier::external_body]
#[verifier::reject_recursive_types(T)]
pub struct ExReceiver<T>(crossbeam_channel::Receiver<T>);

/// Why the offload worker stopped.
#[derive(Clone, Copy, Debug, PartialEq, Eq, Structural)]
pub enum WorkerExit {
    /// The inner stream reported end of stream: a clean finish.
    SourceExhausted,
    /// The consumer side went away or asked us to stop: a clean shutdown,
    /// never an error.
    ShutdownSignal,
    /// The inner stream failed; the worker terminates without crashing the
    /// process.
    ReadFailed,
}

/// Outcome of waiting on the ready queue.
pub enum RecvOutcome {
    Got(Chunk),
    TimedOut,
    Disconnected,
}

/// Outcome of polling the reuse queue.
pub enum TryRecvOutcome {
    Got(Chunk),
    Empty,
    Disconnected,
}

/// Outcome of a blocking push onto the ready queue.
pub enum SendOutcome {
    Sent,
    Disconnected(Chunk),
}

/// Outcome of a non-blocking push onto the reuse queue.
pub enum TrySendOutcome {
    Sent,
    Full(Chunk),
    Disconnected(Chunk),
}

/// Relies on crossbeam_channel::bounded: a FIFO channel that holds at most
/// `cap` messages; small capacities always initialize.
#[verifier::external_body]
fn chunk_channel(cap: usize) -> (r: (
    crossbeam_channel::Sender<Chunk>,
    crossbeam_channel::Receiver<Chunk>,
))
    requires
        1 <= cap <= 64,
{
    crossbeam_channel::bounded(cap)
}

/// Relies on Receiver::recv_timeout: the next queued message in FIFO
/// order, or Timeout when the queue stays empty past the timeout, or
/// Disconnected when it is empty and the sender is gone.
#[verifier::external_body]
fn recv_ready(rx: &crossbeam_channel::Receiver<Chunk>, timeout_ms: u64) -> (r: RecvOutcome) {
    match rx.recv_timeout(std::time::Duration::from_millis(timeout_ms)) {
        Ok(c) => RecvOutcome::Got(c),
        Err(crossbeam_channel::RecvTimeoutError::Timeout) => RecvOutcome::TimedOut,
        Err(crossbeam_channel::RecvTimeoutError::Disconnected) => RecvOutcome::Disconnected,
    }
}

/// Relies on Receiver::try_recv: the next queued message if one is ready,
/// without blocking.
#[verifier::external_body]
fn try_recv_reuse(rx: &crossbeam_channel::Receiver<Chunk>) -> (r: TryRecvOutcome) {
    match rx.try_recv() {
        Ok(c) => TryRecvOutcome::Got(c),
        Err(crossbeam_channel::TryRecvError::Empty) => TryRecvOutcome::Empty,
        Err(crossbeam_channel::TryRecvError::Disconnected) => TryRecvOutcome::Disconnected,
    }
}

/// Relies on Sender::send: blocks while the queue is full (that pause is
/// the backpressure bound) and hands the message back on disconnection.
#[verifier::external_body]
fn send_ready(tx: &crossbeam_channel::Sender<Chunk>, c: Chunk) -> (r: SendOutcome) {
    match tx.send(c) {
        Ok(()) => SendOutcome::Sent,
        Err(crossbeam_channel::SendError(c)) => SendOutcome::Disconnected(c),
    }
}

/// Relies on Sender::try_send: never blocks; hands the message back when
/// the queue is full or disconnected.
#[verifier::external_body]
fn try_send_reuse(tx: &crossbeam_channel::Sender<Chunk>, c: Chunk) -> (r: TrySendOutcome) {
    match tx.try_send(c) {
        Ok(()) => TrySendOutcome::Sent,
        Err(crossbeam_channel::TrySendError::Full(c)) => TrySendOutcome::Full(c),
        Err(crossbeam_channel::TrySendError::Disconnected(c)) => TrySendOutcome::Disconnected(c),
    }
}

/// What the worker does next at the top of one round.
pub enum RoundPlan {
    /// Terminate for the given reason.
    Stop(WorkerExit),
    /// Fill this empty chunk from the inner stream.
    Fill(Chunk),
}

/// What the worker does with a chunk once filling stopped.
pub enum AfterFill {
    /// The round obtained no bytes: the source is exhausted, stop cleanly.
    Finished,
    /// Deliver the (possibly short) chunk to the ready queue.
    Deliver(Chunk),
}

/// The producer side: fills pooled chunks from an inner stream and pushes
/// them onto the ready queue; recycled chunks come back over the reuse
/// queue.
pub struct OffloadWorker {
    ready_tx: crossbeam_channel::Sender<Chunk>,
    reuse_rx: crossbeam_channel::Receiver<Chunk>,
    chunk_capacity: usize,
}

impl OffloadWorker {
    /// The capacity every chunk of this worker is filled to.
    pub closed spec fn spec_capacity(&self) -> usize {
        self.chunk_capacity
    }

    pub open spec fn wf(&self) -> bool {
        self.spec_capacity() >= 1
    }

    /// The chunk capacity, readable by the fill loop.
    pub fn capacity(&self) -> (n: usize)
        ensures
            n == self.spec_capacity(),
    {
        self.chunk_capacity
    }

    /// Start one round: stop at once when cancellation is observed, else
    /// obtain an empty chunk, preferring a recycled one from the reuse
    /// queue over a fresh allocation; a torn-down reuse queue means the
    /// consumer is gone, which is a clean shutdown.
    pub fn begin_round(&self, cancelled: bool) -> (r: RoundPlan)
        requires
            self.wf(),
        ensures
            cancelled ==> r == RoundPlan::Stop(WorkerExit::ShutdownSignal),
            r matches RoundPlan::Stop(e) ==> e is ShutdownSignal,
            r matches RoundPlan::Fill(c) ==> c.bytes().len() == 0 && c.cap()
                == self.spec_capacity() && c.wf(),
    {
        if cancelled {
            return RoundPlan::Stop(WorkerExit::ShutdownSignal);
        }
        match try_recv_reuse(&self.reuse_rx) {
            TryRecvOutcome::Got(c) => {
                let mut c = c;
                if c.capacity() == self.chunk_capacity {
                    c.clear();
                    RoundPlan::Fill(c)
                } else {
                    RoundPlan::Fill(Chunk::with_capacity(self.chunk_capacity))
                }
            },
            TryRecvOutcome::Empty => RoundPlan::Fill(Chunk::with_capacity(self.chunk_capacity)),
            TryRecvOutcome::Disconnected => RoundPlan::Stop(WorkerExit::ShutdownSignal),
        }
    }

    /// Push a filled chunk onto the ready queue; a torn-down ready queue is
    /// a clean shutdown signal, not an error.
    pub fn deliver(&self, c: Chunk) -> (r: Result<(), WorkerExit>)
        ensures
            r matches Err(e) ==> e is ShutdownSignal,
    {
        match send_ready(&self.ready_tx, c) {
            SendOutcome::Sent => Ok(()),
            SendOutcome::Disconnected(_) => Err(WorkerExit::ShutdownSignal),
        }
    }
}

/// Decide what to do after a fill round: a round that obtained nothing
/// means clean end of stream; anything else is delivered as-is, so only
/// non-empty chunks ever reach the ready queue.
pub fn after_fill(chunk: Chunk) -> (r: AfterFill)
    ensures
        chunk.bytes().len() == 0 ==> r is Finished,
        chunk.bytes().len() > 0 ==> r == AfterFill::Deliver(chunk),
{
    if chunk.is_empty() {
        AfterFill::Finished
    } else {
        AfterFill::Deliver(chunk)
    }
}

/// The consumer side: drains ready-queue chunks into caller-requested
/// buffers and recycles drained chunks, dropping them instead of blocking
/// when the reuse queue is full.
pub struct OffloadReader {
    ready_rx: crossbeam_channel::Receiver<Chunk>,
    reuse_tx: crossbeam_channel::Sender<Chunk>,
    curr: Option<Chunk>,
    timeout_ms: u64,
}

impl OffloadReader {
    /// The bytes of the currently held chunk, next to be handed out.
    pub closed spec fn pending(&self) -> Seq<u8> {
        match self.curr {
            Some(c) => c.bytes(),
            None => Seq::<u8>::empty(),
        }
    }

    /// Whether a chunk is currently held.
    pub closed spec fn holds_chunk(&self) -> bool {
        self.curr is Some
    }

    /// A held chunk is never empty: an emptied chunk is released at once.
    pub open spec fn wf(&self) -> bool {
        self.holds_chunk() ==> self.pending().len() > 0
    }

    /// Read up to `max` bytes.
    ///
    /// A held chunk is drained first, in order, yielding at least one byte.
    /// With no chunk held, the reader waits on the ready queue: a
    /// disconnected queue means the worker finished, reported as a clean
    /// zero-byte end of stream; a timeout with the worker still alive is a
    /// stall, reported as `OpError::Timeout`. Since the worker only ever
    /// delivers non-empty chunks, an empty chunk also signals end of
    /// stream. A drained chunk is recycled onto the reuse queue, or simply
    /// dropped when that queue is full or gone.
    pub fn read_bytes(&mut self, max: usize) -> (r: Result<Vec<u8>, OpError>)
        requires
            max >= 1,
            old(self).wf(),
        ensures
            final(self).wf(),
            r matches Err(e) ==> e == OpError::Timeout && old(self).pending().len() == 0
                && final(self).pending().len() == 0,
            r matches Ok(v) ==> v@.len() <= max,
            old(self).pending().len() > 0 ==> (r matches Ok(v) && v@.len() == (
            if max <= old(self).pending().len() {
                max as int
            } else {
                old(self).pending().len() as int
            }) && v@ == old(self).pending().take(v@.len() as int) && final(self).pending()
                == old(self).pending().skip(v@.len() as int)),
    {
        let held = self.curr.take();
        match held {
            Some(c) => self.drain_held(c, max),
            None => {
                match recv_ready(&self.ready_rx, self.timeout_ms) {
                    RecvOutcome::Disconnected => Ok(Vec::new()),
                    RecvOutcome::TimedOut => Err(OpError::Timeout),
                    RecvOutcome::Got(c) => {
                        if c.is_empty() {
                            Ok(Vec::new())
                        } else {
                            self.drain_held(c, max)
                        }
                    },
                }
            },
        }
    }

    /// Drain the front of a non-empty chunk into a fresh buffer and either
    /// keep the remainder or recycle the emptied chunk.
    fn drain_held(&mut self, c: Chunk, max: usize) -> (r: Result<Vec<u8>, OpError>)
        requires
            max >= 1,
            c.bytes().len() > 0,
            !old(self).holds_chunk(),
        ensures
            final(self).wf(),
            (r matches Ok(v) && v@.len() == (if max <= c.bytes().len() {
                max as int
            } else {
                c.bytes().len() as int
            }) && v@ == c.bytes().take(v@.len() as int) && final(self).pending()
                == c.bytes().skip(v@.len() as int)),
    {
        let mut ch = c;
        let out = ch.take_front(max);
        if ch.is_empty() {
            match try_send_reuse(&self.reuse_tx, ch) {
                TrySendOutcome::Sent => (),
                TrySendOutcome::Full(_) => (),
                TrySendOutcome::Disconnected(_) => (),
            }
            proof {
                assert(c.bytes().skip(out@.len() as int) =~= Seq::<u8>::empty());
            }
        } else {
            self.curr = Some(ch);
        }
        Ok(out)
    }
}

/// Build one connected worker/reader pair with its two bounded queues.
pub fn offload_pair(queue_depth: usize, chunk_capacity: usize, timeout_ms: u64) -> (r: (
    OffloadWorker,
    OffloadReader,
))
    requires
        1 <= queue_depth <= 64,
        chunk_capacity >= 1,
    ensures
        r.0.wf(),
        r.0.spec_capacity() == chunk_capacity,
        r.1.wf(),
        !r.1.holds_chunk(),
        r.1.pending().len() == 0,
{
    let (ready_tx, ready_rx) = chunk_channel(queue_depth);
    let (reuse_tx, reuse_rx) = chunk_channel(queue_depth);
    let worker = OffloadWorker { ready_tx, reuse_rx, chunk_capacity };
    let reader = OffloadReader { ready_rx, reuse_tx, curr: None, timeout_ms };
    (worker, reader)
}

/// The bytes held by a queue of chunks, in delivery order.
pub open spec fn chunks_bytes(q: Seq<Chunk>) -> Seq<u8>
    decreases q.len(),
{
    if q.len() == 0 {
        Seq::<u8>::empty()
    } else {
        q.first().bytes() + chunks_bytes(q.drop_first())
    }
}

/// The bytes of an optionally held chunk.
pub open spec fn opt_bytes(c: Option<Chunk>) -> Seq<u8> {
    match c {
        Some(ch) => ch.bytes(),
        None => Seq::<u8>::empty(),
    }
}

/// Queueing one more chunk appends its bytes at the back.
proof fn lemma_chunks_bytes_push(q: Seq<Chunk>, c: Chunk)
    ensures
        chunks_bytes(q.push(c)) == chunks_bytes(q) + c.bytes(),
    decreases q.len(),
{
    if q.len() == 0 {
        assert(q.push(c).first() == c);
        assert(q.push(c).drop_first() =~= Seq::<Chunk>::empty());
        assert(chunks_bytes(Seq::<Chunk>::empty()) == Seq::<u8>::empty());
        assert(chunks_bytes(q.push(c)) =~= chunks_bytes(q) + c.bytes());
    } else {
        assert(q.push(c).first() == q.first());
        assert(q.push(c).drop_first() =~= q.drop_first().push(c));
        lemma_chunks_bytes_push(q.drop_first(), c);
        assert(chunks_bytes(q.push(c)) =~= chunks_bytes(q) + c.bytes());
    }
}

/// Offloaded-reader correctness, in model form: cutting a source stream
/// into capacity-bounded chunks, queueing them in FIFO order, and draining
/// them front-first through caller-sized reads reproduces the source byte
/// for byte — for every source length, chunk capacity and read size, and
/// independently of whether any chunk is ever recycled.
pub fn pump_through(source: &Vec<u8>, chunk_capacity: usize, read_size: usize) -> (out: Vec<u8>)
    requires
        chunk_capacity >= 1,
        read_size >= 1,
    ensures
        out@ == source@,
{
    let mut queue: VecDeque<Chunk> = VecDeque::new();
    let mut i: usize = 0;
    while i < source.len()
        invariant
            i <= source@.len(),
            chunk_capacity >= 1,
            chunks_bytes(queue@) == source@.take(i as int),
            forall|k: int| 0 <= k < queue@.len() ==> #[trigger] queue@[k].bytes().len() > 0,
        decreases source@.len() - i,
    {
        let n = if source.len() - i < chunk_capacity {
            source.len() - i
        } else {
            chunk_capacity
        };
        let mut c = Chunk::with_capacity(chunk_capacity);
        c.absorb(source, i, n);
        proof {
            lemma_chunks_bytes_push(queue@, c);
            assert(source@.take(i as int) + source@.subrange(i as int, i as int + n as int)
                =~= source@.take(i as int + n as int));
        }
        queue.push_back(c);
        i = i + n;
    }
    proof {
        assert(source@.take(source@.len() as int) =~= source@);
    }
    let mut out: Vec<u8> = Vec::new();
    let mut curr: Option<Chunk> = None;
    while queue.len() > 0 || curr.is_some()
        invariant
            read_size >= 1,
            out@ + opt_bytes(curr) + chunks_bytes(queue@) == source@,
            curr matches Some(c) ==> c.bytes().len() > 0,
            forall|k: int| 0 <= k < queue@.len() ==> #[trigger] queue@[k].bytes().len() > 0,
        decreases queue@.len(), opt_bytes(curr).len(),
    {
        match curr {
            None => {
                let ghost q0 = queue@;
                let popped = queue.pop_front();
                match popped {
                    Some(ch) => {
                        proof {
                            assert(queue@ =~= q0.drop_first());
                            assert(q0[0].bytes().len() > 0);
                            assert(out@ + ch.bytes() + chunks_bytes(queue@) =~= source@);
                        }
                        curr = Some(ch);
                    },
                    None => {
                        proof {
                            assert(false);
                        }
                    },
                }
            },
            Some(ch) => {
                let mut ch = ch;
                let ghost ch0 = ch;
                let mut got = ch.take_front(read_size);
                out.append(&mut got);
                proof {
                    assert(ch0.bytes().take(got@.len() as int) + ch0.bytes().skip(
                        got@.len() as int,
                    ) =~= ch0.bytes());
                }
                if ch.is_empty() {
                    curr = None;
                } else {
                    curr = Some(ch);
                }
                proof {
                    assert(out@ + opt_bytes(curr) + chunks_bytes(queue@) =~= source@);
                }
            },
        }
    }
    proof {
        assert(out@ =~= source@);
    }
    out
}

/// What a teardown poll does next.
#[derive(Clone, Copy, Debug, PartialEq, Eq, Structural)]
pub enum TeardownStep {
    /// The worker has terminated: join it now.
    JoinNow,
    /// Still within the timeout: keep polling.
    KeepWaiting,
    /// Timeout elapsed with the worker still running: stop waiting and
    /// surface a warning instead of blocking indefinitely.
    GiveUp,
}

/// One step of the bounded teardown wait: join a finished worker, keep
/// polling inside the timeout window, and never wait past the timeout —
/// teardown latency is bounded even if the worker is stalled.
pub fn teardown_poll(elapsed_ms: u64, timeout_ms: u64, finished: bool) -> (r: TeardownStep)
    ensures
        finished ==> r is JoinNow,
        !finished && elapsed_ms < timeout_ms ==> r is KeepWaiting,
        !finished && elapsed_ms >= timeout_ms ==> r is GiveUp,
{
    if finished {
        TeardownStep::JoinNow
    } else if elapsed_ms < timeout_ms {
        TeardownStep::KeepWaiting
    } else {
        TeardownStep::GiveUp
    }
}

} // verus!
