//! The startup sequence: validate the source, prepare the destination, make
//! the initial copy, subscribe to changes; or stop with an exit status.
//!
//! Each phase names the one operation the program performs next; the outcome
//! of that operation moves the sequence on.
use vstd::prelude::*;
use crate::status::{exit_status, status_of, StartupFailure};
use crate::store::{copied, Contents};
use crate::target::WatchTarget;

verus! {

/// How an operation on the file system went.
#[derive(Clone, Copy, Debug, PartialEq, Eq, Structural)]
pub enum IoOutcome {
    Done,
    NotFound,
    OtherError,
}

/// Where the startup sequence stands.
#[derive(Clone, Copy, Debug, PartialEq, Eq, Structural)]
pub enum StartupPhase {
    /// The source must be shown to exist and be readable.
    Validating,
    /// The destination directory must be created.
    PreparingDestination,
    /// The initial copy must be made.
    Syncing,
    /// The change notifications must be subscribed to.
    Subscribing,
    /// Startup is over; the watch loop runs.
    Ready,
    /// Startup stopped; the process exits.
    Failed(StartupFailure),
}

/// What the program does next.
#[derive(Debug)]
pub enum StartupAction {
    /// Read the file at this path.
    ReadSource(String),
    /// Create this directory and its missing ancestors.
    CreateDirectory(String),
    /// Copy the first file over the second.
    CopyFile(String, String),
    /// Subscribe to change notifications for this path.
    Subscribe(String),
    /// Enter the watch loop.
    BeginWatching,
    /// Exit the process with this status.
    Exit(i32),
}

/// The phase that follows `phase` on `outcome`. The outcome of the initial
/// copy does not matter: a failed first copy is not fatal.
pub open spec fn next_phase(phase: StartupPhase, outcome: IoOutcome) -> StartupPhase {
    match phase {
        StartupPhase::Validating => match outcome {
            IoOutcome::Done => StartupPhase::PreparingDestination,
            IoOutcome::NotFound => StartupPhase::Failed(StartupFailure::MissingSource),
            IoOutcome::OtherError => StartupPhase::Failed(StartupFailure::UnreadableSource),
        },
        StartupPhase::PreparingDestination => match outcome {
            IoOutcome::Done => StartupPhase::Syncing,
            _ => StartupPhase::Failed(StartupFailure::DestinationSetup),
        },
        StartupPhase::Syncing => StartupPhase::Subscribing,
        StartupPhase::Subscribing => match outcome {
            IoOutcome::Done => StartupPhase::Ready,
            _ => StartupPhase::Failed(StartupFailure::Subscription),
        },
        _ => phase,
    }
}

/// The phases in which startup is over.
pub open spec fn is_final(phase: StartupPhase) -> bool {
    phase is Ready || phase is Failed
}

/// The phase reached from `phase` through `outcomes`, one per operation;
/// a final phase stays.
pub open spec fn phase_after(phase: StartupPhase, outcomes: Seq<IoOutcome>) -> StartupPhase
    decreases outcomes.len(),
{
    if outcomes.len() == 0 {
        phase
    } else {
        next_phase(phase_after(phase, outcomes.drop_last()), outcomes.last())
    }
}

/// The operation that `phase` asks for, on `target`.
pub open spec fn action_of(phase: StartupPhase, target: WatchTarget) -> StartupAction {
    match phase {
        StartupPhase::Validating => StartupAction::ReadSource(target.source_path),
        StartupPhase::PreparingDestination => StartupAction::CreateDirectory(
            target.destination_dir,
        ),
        StartupPhase::Syncing => StartupAction::CopyFile(
            target.source_path,
            target.destination_file_path,
        ),
        StartupPhase::Subscribing => StartupAction::Subscribe(target.source_path),
        StartupPhase::Ready => StartupAction::BeginWatching,
        StartupPhase::Failed(f) => StartupAction::Exit(status_of(f) as i32),
    }
}

/// The failure for a source path that has no file name, by the outcome of
/// reading it: such a path is never a regular file, so it is missing when
/// nothing is found there and unreadable as a file otherwise.
pub fn unnamed_source_failure(outcome: IoOutcome) -> (r: StartupFailure)
    ensures
        r == (if outcome == IoOutcome::NotFound {
            StartupFailure::MissingSource
        } else {
            StartupFailure::UnreadableSource
        }),
{
    match outcome {
        IoOutcome::NotFound => StartupFailure::MissingSource,
        _ => StartupFailure::UnreadableSource,
    }
}

/// The startup sequence for one target.
pub struct Startup {
    pub target: WatchTarget,
    pub phase: StartupPhase,
}

impl Startup {
    /// A sequence at its first phase, validation.
    pub fn new(target: WatchTarget) -> (r: Startup)
        requires
            target.wf(),
        ensures
            r.target == target,
            r.phase == StartupPhase::Validating,
    {
        Startup { target, phase: StartupPhase::Validating }
    }

    /// The operation that the current phase asks for.
    pub fn action(&self) -> (r: StartupAction)
        ensures
            r == action_of(self.phase, self.target),
    {
        match self.phase {
            StartupPhase::Validating => StartupAction::ReadSource(self.target.source_path.clone()),
            StartupPhase::PreparingDestination => StartupAction::CreateDirectory(
                self.target.destination_dir.clone(),
            ),
            StartupPhase::Syncing => StartupAction::CopyFile(
                self.target.source_path.clone(),
                self.target.destination_file_path.clone(),
            ),
            StartupPhase::Subscribing => StartupAction::Subscribe(
                self.target.source_path.clone(),
            ),
            StartupPhase::Ready => StartupAction::BeginWatching,
            StartupPhase::Failed(f) => StartupAction::Exit(exit_status(f)),
        }
    }

    /// Whether startup is over.
    pub fn is_finished(&self) -> (r: bool)
        ensures
            r == is_final(self.phase),
    {
        match self.phase {
            StartupPhase::Ready | StartupPhase::Failed(_) => true,
            _ => false,
        }
    }

    /// Moves on by the outcome of the operation that the current phase asked
    /// for.
    pub fn advance(&mut self, outcome: IoOutcome)
        requires
            !is_final(old(self).phase),
        ensures
            final(self).target == old(self).target,
            final(self).phase == next_phase(old(self).phase, outcome),
    {
        let next = match self.phase {
            StartupPhase::Validating => match outcome {
                IoOutcome::Done => StartupPhase::PreparingDestination,
                IoOutcome::NotFound => StartupPhase::Failed(StartupFailure::MissingSource),
                IoOutcome::OtherError => StartupPhase::Failed(StartupFailure::UnreadableSource),
            },
            StartupPhase::PreparingDestination => match outcome {
                IoOutcome::Done => StartupPhase::Syncing,
                _ => StartupPhase::Failed(StartupFailure::DestinationSetup),
            },
            StartupPhase::Syncing => StartupPhase::Subscribing,
            StartupPhase::Subscribing => match outcome {
                IoOutcome::Done => StartupPhase::Ready,
                _ => StartupPhase::Failed(StartupFailure::Subscription),
            },
            _ => self.phase,
        };
        self.phase = next;
    }
}

} // verus!

verus! {

proof fn lemma_phase_after_push(phase: StartupPhase, outcomes: Seq<IoOutcome>, o: IoOutcome)
    ensures
        phase_after(phase, outcomes.push(o)) == next_phase(phase_after(phase, outcomes), o),
{
    assert(outcomes.push(o).drop_last() =~= outcomes);
}

/// With a readable source and a destination directory that could be made,
/// startup asks to copy the source over the backup path, after which the
/// backup holds the source's bytes; whatever that copy's outcome, the
/// sequence goes on to subscribe.
pub proof fn lemma_initial_sync(target: WatchTarget, store: Contents, copy_outcome: IoOutcome)
    requires
        target.wf(),
        store.contains_key(target.source_path@),
    ensures
        phase_after(StartupPhase::Validating, seq![IoOutcome::Done, IoOutcome::Done])
            == StartupPhase::Syncing,
        action_of(StartupPhase::Syncing, target) == StartupAction::CopyFile(
            target.source_path,
            target.destination_file_path,
        ),
        copied(store, target.source_path@, target.destination_file_path@)[target.destination_file_path@]
            == store[target.source_path@],
        phase_after(
            StartupPhase::Validating,
            seq![IoOutcome::Done, IoOutcome::Done, copy_outcome],
        ) == StartupPhase::Subscribing,
{
    let s0 = Seq::<IoOutcome>::empty();
    lemma_phase_after_push(StartupPhase::Validating, s0, IoOutcome::Done);
    assert(s0.push(IoOutcome::Done) =~= seq![IoOutcome::Done]);
    lemma_phase_after_push(StartupPhase::Validating, seq![IoOutcome::Done], IoOutcome::Done);
    assert(seq![IoOutcome::Done].push(IoOutcome::Done) =~= seq![IoOutcome::Done, IoOutcome::Done]);
    lemma_phase_after_push(
        StartupPhase::Validating,
        seq![IoOutcome::Done, IoOutcome::Done],
        copy_outcome,
    );
    assert(seq![IoOutcome::Done, IoOutcome::Done].push(copy_outcome) =~= seq![
        IoOutcome::Done,
        IoOutcome::Done,
        copy_outcome,
    ]);
}

proof fn lemma_missing_source_final(outcomes: Seq<IoOutcome>)
    requires
        outcomes.len() >= 1,
        outcomes[0] == IoOutcome::NotFound,
    ensures
        phase_after(StartupPhase::Validating, outcomes) == StartupPhase::Failed(
            StartupFailure::MissingSource,
        ),
    decreases outcomes.len(),
{
    if outcomes.len() == 1 {
        assert(outcomes.drop_last() =~= Seq::<IoOutcome>::empty());
    } else {
        lemma_missing_source_final(outcomes.drop_last());
    }
}

/// A missing source stops startup at once with the missing-input status:
/// whatever outcomes follow, no later phase creates the destination or
/// copies anything.
pub proof fn lemma_missing_source_stops(outcomes: Seq<IoOutcome>)
    requires
        outcomes.len() >= 1,
        outcomes[0] == IoOutcome::NotFound,
    ensures
        forall|k: int|
            1 <= k <= outcomes.len() ==> #[trigger] phase_after(
                StartupPhase::Validating,
                outcomes.take(k),
            ) == StartupPhase::Failed(StartupFailure::MissingSource),
        status_of(StartupFailure::MissingSource) == 66,
{
    assert forall|k: int| 1 <= k <= outcomes.len() implies #[trigger] phase_after(
        StartupPhase::Validating,
        outcomes.take(k),
    ) == StartupPhase::Failed(StartupFailure::MissingSource) by {
        lemma_missing_source_final(outcomes.take(k));
    }
}

} // verus!
