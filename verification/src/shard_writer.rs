use vstd::prelude::*;

use crate::error_count::ErrorCount;
use crate::shard_name::{spec_shard_name, shard_file_name, SHARD_INDEX_LIMIT};

verus! {

/// Lifecycle state of one shard writer.
///
/// A shard starts `Uninitialized`; its output chain (file, compression
/// encoder, container encoder) is created lazily on the first appended
/// entry. A successful first append makes it `Active`; a failed chain
/// setup makes it `Failed`, after which every further entry is discarded
/// silently. `Finalized` is terminal.
#[derive(Clone, Copy, Debug, PartialEq, Eq, Structural)]
pub enum ShardState {
    Uninitialized,
    Active,
    Failed,
    Finalized,
}

/// The events that drive a shard writer's state.
#[derive(Clone, Copy, Debug, PartialEq, Eq, Structural)]
pub enum ShardEvent {
    InitOk,
    InitFail,
    AppendOk,
    AppendFail,
    Finalize,
}

/// What the traversal delivered to a shard's visit handler.
#[derive(Clone, Copy, Debug, PartialEq, Eq, Structural)]
pub enum EntryEvent {
    /// The traversal handed an error instead of an entry.
    WalkError,
    /// The entry has no file type or is not a regular file.
    NotAFile,
    /// A regular file, ready to be appended.
    FileEntry,
}

/// What the caller must do with the current entry.
#[derive(Clone, Copy, Debug, PartialEq, Eq, Structural)]
pub enum EntryOutcome {
    /// Move on to the next entry.
    Continue,
    /// Stop this worker's traversal; sibling shards are unaffected.
    Quit,
    /// Create the output chain, then report the result.
    MustInit,
    /// Append to the already-active chain, then report the result.
    AppendNow,
}

/// What finalization must do.
#[derive(Clone, Copy, Debug, PartialEq, Eq, Structural)]
pub enum FinalizeAction {
    /// Nothing was ever written: create no output file at all.
    Nothing,
    /// Close the container encoder, finish the compression encoder, flush
    /// and sync the file.
    CloseChain,
}

/// The transition function of the shard state machine.
pub open spec fn shard_step(s: ShardState, e: ShardEvent) -> ShardState {
    match e {
        ShardEvent::InitOk => ShardState::Active,
        ShardEvent::InitFail => ShardState::Failed,
        ShardEvent::AppendOk => s,
        ShardEvent::AppendFail => s,
        ShardEvent::Finalize => ShardState::Finalized,
    }
}

/// Which events can occur in which state: the chain is set up only once,
/// appends only reach an active chain, and finalization is always allowed.
pub open spec fn event_allowed(s: ShardState, e: ShardEvent) -> bool {
    match e {
        ShardEvent::InitOk => s is Uninitialized,
        ShardEvent::InitFail => s is Uninitialized,
        ShardEvent::AppendOk => s is Active,
        ShardEvent::AppendFail => s is Active,
        ShardEvent::Finalize => true,
    }
}

/// Progress order on states: transitions never go backward.
pub open spec fn shard_rank(s: ShardState) -> int {
    match s {
        ShardState::Uninitialized => 0,
        ShardState::Active => 1,
        ShardState::Failed => 2,
        ShardState::Finalized => 3,
    }
}

/// The state after a whole sequence of events.
pub open spec fn shard_run(s: ShardState, es: Seq<ShardEvent>) -> ShardState
    decreases es.len(),
{
    if es.len() == 0 {
        s
    } else {
        shard_run(shard_step(s, es.first()), es.drop_first())
    }
}

/// Whether a whole sequence of events is allowed step by step.
pub open spec fn trace_allowed(s: ShardState, es: Seq<ShardEvent>) -> bool
    decreases es.len(),
{
    es.len() == 0 || (event_allowed(s, es.first()) && trace_allowed(
        shard_step(s, es.first()),
        es.drop_first(),
    ))
}

/// How many chain-setup failures a sequence of events contains.
pub open spec fn count_init_failures(es: Seq<ShardEvent>) -> nat
    decreases es.len(),
{
    if es.len() == 0 {
        0
    } else {
        (if es.first() is InitFail {
            1nat
        } else {
            0nat
        }) + count_init_failures(es.drop_first())
    }
}

/// One allowed step never moves the state backward, and never returns to
/// `Uninitialized`.
proof fn lemma_shard_step_monotone(s: ShardState, e: ShardEvent)
    requires
        event_allowed(s, e),
    ensures
        shard_rank(shard_step(s, e)) >= shard_rank(s),
        !(shard_step(s, e) is Uninitialized),
{
}

/// State transitions only move forward: along any allowed event sequence
/// the state's rank never decreases, so `Uninitialized` → `Active` →
/// `Finalized` is never reversed.
pub proof fn lemma_states_never_regress(s: ShardState, es: Seq<ShardEvent>)
    requires
        trace_allowed(s, es),
    ensures
        shard_rank(shard_run(s, es)) >= shard_rank(s),
        es.len() > 0 ==> !(shard_run(s, es) is Uninitialized),
    decreases es.len(),
{
    if es.len() > 0 {
        lemma_shard_step_monotone(s, es.first());
        lemma_states_never_regress(shard_step(s, es.first()), es.drop_first());
    }
}

/// Once a shard has left `Uninitialized`, no chain-setup failure can occur
/// any more: setup is attempted at most once.
pub proof fn lemma_no_setup_failure_after_start(s: ShardState, es: Seq<ShardEvent>)
    requires
        trace_allowed(s, es),
        !(s is Uninitialized),
    ensures
        count_init_failures(es) == 0,
    decreases es.len(),
{
    if es.len() > 0 {
        lemma_shard_step_monotone(s, es.first());
        lemma_no_setup_failure_after_start(shard_step(s, es.first()), es.drop_first());
    }
}

/// A shard's setup failure is recorded at most once: in any allowed event
/// sequence from a fresh shard there is at most one `InitFail`, and each
/// `InitFail` adds exactly one error, so the aggregator is bumped exactly
/// once for a failed shard and the later silent discards add nothing.
pub proof fn lemma_setup_failure_recorded_once(es: Seq<ShardEvent>)
    requires
        trace_allowed(ShardState::Uninitialized, es),
    ensures
        count_init_failures(es) <= 1,
    decreases es.len(),
{
    if es.len() > 0 {
        if es.first() is InitFail {
            lemma_no_setup_failure_after_start(ShardState::Failed, es.drop_first());
        } else {
            lemma_shard_step_monotone(ShardState::Uninitialized, es.first());
            if shard_step(ShardState::Uninitialized, es.first()) is Uninitialized {
            } else {
                lemma_no_setup_failure_after_start(
                    shard_step(ShardState::Uninitialized, es.first()),
                    es.drop_first(),
                );
            }
        }
    }
}

/// One shard writer: owns one output archive shard and walks the
/// `Uninitialized` → `Active` → `Finalized` lifecycle, with `Failed` as the
/// error-shard branch when the chain cannot be set up.
pub struct ShardWriter {
    index: u64,
    state: ShardState,
}

impl ShardWriter {
    /// The shard's index, assigned once by the factory.
    pub closed spec fn spec_index(&self) -> u64 {
        self.index
    }

    /// The shard's current lifecycle state.
    pub closed spec fn spec_state(&self) -> ShardState {
        self.state
    }

    /// Indices stay within the fixed-width naming range.
    pub open spec fn wf(&self) -> bool {
        self.spec_index() < SHARD_INDEX_LIMIT
    }

    /// The lifecycle state, readable by the caller that drives the I/O.
    pub fn state(&self) -> (s: ShardState)
        ensures
            s == self.spec_state(),
    {
        self.state
    }

    /// The shard index.
    pub fn index(&self) -> (i: u64)
        ensures
            i == self.spec_index(),
    {
        self.index
    }

    /// The name of this shard's output file.
    pub fn output_name(&self) -> (r: String)
        requires
            self.wf(),
        ensures
            r@ == spec_shard_name(self.spec_index() as int),
    {
        shard_file_name(self.index)
    }

    /// Decide what to do with one delivered entry.
    ///
    /// A traversal error is counted and skipped; a non-file is skipped
    /// silently; a file is appended — which first requires the chain to be
    /// set up — unless this is a failed shard, which discards every entry
    /// without counting again and stops its worker's traversal.
    pub fn on_entry(&self, ev: EntryEvent, errors: &mut ErrorCount) -> (r: EntryOutcome)
        requires
            !(self.spec_state() is Finalized),
            old(errors).total() < u64::MAX,
        ensures
            ev is WalkError ==> r is Continue && final(errors).total() == old(errors).total()
                + 1,
            ev is NotAFile ==> r is Continue && final(errors).total() == old(errors).total(),
            ev is FileEntry ==> final(errors).total() == old(errors).total(),
            ev is FileEntry && self.spec_state() is Uninitialized ==> r is MustInit,
            ev is FileEntry && self.spec_state() is Active ==> r is AppendNow,
            ev is FileEntry && self.spec_state() is Failed ==> r is Quit,
    {
        match ev {
            EntryEvent::WalkError => {
                errors.record();
                EntryOutcome::Continue
            },
            EntryEvent::NotAFile => EntryOutcome::Continue,
            EntryEvent::FileEntry => {
                match self.state {
                    ShardState::Uninitialized => EntryOutcome::MustInit,
                    ShardState::Active => EntryOutcome::AppendNow,
                    ShardState::Failed => EntryOutcome::Quit,
                    ShardState::Finalized => EntryOutcome::Quit,
                }
            },
        }
    }

    /// A discovered path could not be expressed relative to the input
    /// prefix: count the failure and stop this worker's traversal.
    pub fn on_path_error(&self, errors: &mut ErrorCount) -> (r: EntryOutcome)
        requires
            old(errors).total() < u64::MAX,
        ensures
            r is Quit,
            final(errors).total() == old(errors).total() + 1,
    {
        errors.record();
        EntryOutcome::Quit
    }

    /// The output chain was created: the shard becomes active.
    pub fn on_init_success(&mut self)
        requires
            old(self).spec_state() is Uninitialized,
        ensures
            final(self).spec_state() == shard_step(old(self).spec_state(), ShardEvent::InitOk),
            final(self).spec_state() is Active,
            final(self).spec_index() == old(self).spec_index(),
    {
        self.state = ShardState::Active;
    }

    /// Creating the output chain failed (for example because the output
    /// path already exists under exclusive-create): record the failure
    /// exactly once, mark the shard failed, and stop this worker.
    pub fn on_init_failure(&mut self, errors: &mut ErrorCount) -> (r: EntryOutcome)
        requires
            old(self).spec_state() is Uninitialized,
            old(errors).total() < u64::MAX,
        ensures
            final(self).spec_state() == shard_step(old(self).spec_state(), ShardEvent::InitFail),
            final(self).spec_state() is Failed,
            final(self).spec_index() == old(self).spec_index(),
            final(errors).total() == old(errors).total() + 1,
            r is Quit,
    {
        self.state = ShardState::Failed;
        errors.record();
        EntryOutcome::Quit
    }

    /// An append went through; the shard stays active.
    pub fn on_append_success(&self)
        requires
            self.spec_state() is Active,
        ensures
            shard_step(self.spec_state(), ShardEvent::AppendOk) == self.spec_state(),
    {
    }

    /// An append failed: count it and stop this worker's traversal. The
    /// shard stays active so that finalization still closes and syncs the
    /// chain.
    pub fn on_append_failure(&mut self, errors: &mut ErrorCount) -> (r: EntryOutcome)
        requires
            old(self).spec_state() is Active,
            old(errors).total() < u64::MAX,
        ensures
            final(self).spec_state() == shard_step(
                old(self).spec_state(),
                ShardEvent::AppendFail,
            ),
            final(self).spec_state() is Active,
            final(self).spec_index() == old(self).spec_index(),
            final(errors).total() == old(errors).total() + 1,
            r is Quit,
    {
        errors.record();
        EntryOutcome::Quit
    }

    /// Decide what finalization must do, and move to the terminal state.
    ///
    /// A shard that never left `Uninitialized` (or failed to start) creates
    /// no output file at all — no empty shard archives. Only an active
    /// shard has a chain to close. Finalizing twice is a no-op the second
    /// time.
    pub fn finalize_plan(&mut self) -> (a: FinalizeAction)
        ensures
            final(self).spec_state() == shard_step(old(self).spec_state(), ShardEvent::Finalize),
            final(self).spec_state() is Finalized,
            final(self).spec_index() == old(self).spec_index(),
            a is CloseChain <==> old(self).spec_state() is Active,
    {
        let was_active = match self.state {
            ShardState::Active => true,
            _ => false,
        };
        self.state = ShardState::Finalized;
        if was_active {
            FinalizeAction::CloseChain
        } else {
            FinalizeAction::Nothing
        }
    }

    /// Fold the outcome of the close-chain work into the aggregator:
    /// cleanup failures are counted, never propagated, so finalization is
    /// observably infallible.
    pub fn finalize_result(&self, ok: bool, errors: &mut ErrorCount)
        requires
            self.spec_state() is Finalized,
            old(errors).total() < u64::MAX,
        ensures
            ok ==> final(errors).total() == old(errors).total(),
            !ok ==> final(errors).total() == old(errors).total() + 1,
    {
        if !ok {
            errors.record();
        }
    }
}

/// Produces one shard writer per traversal worker thread, assigning
/// monotonically increasing shard indices starting at zero.
pub struct ShardWriterFactory {
    next_index: u64,
}

impl ShardWriterFactory {
    /// The index the next built shard will get; all smaller indices have
    /// already been handed out, so issued indices are contiguous from zero.
    pub closed spec fn spec_next(&self) -> u64 {
        self.next_index
    }

    /// A fresh factory starts at index zero.
    pub fn new() -> (r: ShardWriterFactory)
        ensures
            r.spec_next() == 0,
    {
        ShardWriterFactory { next_index: 0 }
    }

    /// The index the next shard will get.
    pub fn next_index(&self) -> (i: u64)
        ensures
            i == self.spec_next(),
    {
        self.next_index
    }

    /// Build the next shard writer: it gets the next contiguous index and
    /// its zero-padded output file name, and starts uninitialized — its
    /// output file is not created until the first entry is appended.
    pub fn build(&mut self) -> (r: (ShardWriter, String))
        requires
            old(self).spec_next() < SHARD_INDEX_LIMIT,
        ensures
            final(self).spec_next() == old(self).spec_next() + 1,
            r.0.spec_index() == old(self).spec_next(),
            r.0.spec_state() is Uninitialized,
            r.0.wf(),
            r.1@ == spec_shard_name(old(self).spec_next() as int),
    {
        let index = self.next_index;
        self.next_index = self.next_index + 1;
        let name = shard_file_name(index);
        (ShardWriter { index, state: ShardState::Uninitialized }, name)
    }
}

} // verus!
