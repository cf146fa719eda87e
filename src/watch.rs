//! The watch loop: each delivered write signal for the source triggers one
//! copy over the backup path; every other event, and every copy outcome,
//! leaves the loop waiting for the next signal.
use vstd::prelude::*;
use crate::debounce::{debounced, is_sorted, lemma_burst_single_signal, lemma_spaced_writes_each_signal};
use crate::target::WatchTarget;

verus! {

/// The kind of a change notification.
#[derive(Clone, Copy, Debug, PartialEq, Eq, Structural)]
pub enum ChangeKind {
    /// A write has started; its signal is still pending.
    NoticeWrite,
    /// A removal has been seen; its signal is still pending.
    NoticeRemove,
    Create,
    /// The file was written and then left alone for a full window.
    Write,
    Chmod,
    Remove,
    Rename,
    /// The notifications were interrupted and the path must be looked at anew.
    Rescan,
    /// The notification service reported an error.
    Error,
}

/// A logical change notification, with the path it concerns when it has one.
#[derive(Debug)]
pub struct ChangeEvent {
    pub kind: ChangeKind,
    pub path: Option<String>,
}

/// What the notification channel hands the loop.
#[derive(Debug)]
pub enum Delivery {
    Event(ChangeEvent),
    /// Receiving from the channel failed.
    ChannelError,
}

/// Where the loop stands.
#[derive(Clone, Copy, Debug, PartialEq, Eq, Structural)]
pub enum LoopPhase {
    /// Waiting for the next delivery.
    Idle,
    /// A copy is under way.
    Copying,
}

/// What the program does for a delivery.
#[derive(Debug)]
pub enum LoopAction {
    /// Copy the first file over the second.
    Copy(String, String),
    /// Note an event that triggers no copy.
    Pass(ChangeKind),
    /// Note a failed receive and keep waiting.
    ReportChannelError,
}

/// How a copy went: the bytes copied, or why it failed.
#[derive(Debug)]
pub enum CopyOutcome {
    Copied(u64),
    Failed(String),
}

/// The action for `d`: a write copies the path it names (the source when it
/// names none) over the backup path.
pub open spec fn action_for(d: Delivery, target: WatchTarget) -> LoopAction {
    match d {
        Delivery::Event(e) => if e.kind == ChangeKind::Write {
            match e.path {
                Some(p) => LoopAction::Copy(p, target.destination_file_path),
                None => LoopAction::Copy(target.source_path, target.destination_file_path),
            }
        } else {
            LoopAction::Pass(e.kind)
        },
        Delivery::ChannelError => LoopAction::ReportChannelError,
    }
}

/// The phase after `d` is handled in `Idle`: `Copying` exactly when `d`
/// triggers a copy.
pub open spec fn phase_on_delivery(d: Delivery, target: WatchTarget) -> LoopPhase {
    if action_for(d, target) is Copy {
        LoopPhase::Copying
    } else {
        LoopPhase::Idle
    }
}

/// The phase after a copy ends with `outcome`: waiting again, whatever the
/// outcome.
pub open spec fn phase_on_copy_finished(outcome: CopyOutcome) -> LoopPhase {
    LoopPhase::Idle
}

/// The number of deliveries in `ds` that trigger a copy.
pub open spec fn copy_count(ds: Seq<Delivery>, target: WatchTarget) -> nat
    decreases ds.len(),
{
    if ds.len() == 0 {
        0
    } else {
        copy_count(ds.drop_last(), target) + if action_for(ds.last(), target) is Copy {
            1nat
        } else {
            0nat
        }
    }
}

/// The write signal for the watched file.
pub open spec fn write_signal(target: WatchTarget) -> Delivery {
    Delivery::Event(ChangeEvent { kind: ChangeKind::Write, path: Some(target.source_path) })
}

/// The loop for one target.
pub struct WatchLoop {
    pub target: WatchTarget,
    pub phase: LoopPhase,
}

impl WatchLoop {
    /// A loop waiting for its first delivery.
    pub fn new(target: WatchTarget) -> (r: WatchLoop)
        requires
            target.wf(),
        ensures
            r.target == target,
            r.phase == LoopPhase::Idle,
    {
        WatchLoop { target, phase: LoopPhase::Idle }
    }

    /// Decides what to do for `d`; a copy moves the loop to `Copying`.
    pub fn on_delivery(&mut self, d: Delivery) -> (r: LoopAction)
        requires
            old(self).phase == LoopPhase::Idle,
        ensures
            r == action_for(d, old(self).target),
            final(self).target == old(self).target,
            final(self).phase == phase_on_delivery(d, old(self).target),
    {
        match d {
            Delivery::Event(e) => {
                if e.kind == ChangeKind::Write {
                    self.phase = LoopPhase::Copying;
                    match e.path {
                        Some(p) => LoopAction::Copy(p, self.target.destination_file_path.clone()),
                        None => LoopAction::Copy(
                            self.target.source_path.clone(),
                            self.target.destination_file_path.clone(),
                        ),
                    }
                } else {
                    LoopAction::Pass(e.kind)
                }
            },
            Delivery::ChannelError => LoopAction::ReportChannelError,
        }
    }

    /// Takes the outcome of the copy under way; whatever it is, the loop
    /// waits for the next delivery.
    pub fn on_copy_finished(&mut self, outcome: &CopyOutcome)
        requires
            old(self).phase == LoopPhase::Copying,
        ensures
            final(self).target == old(self).target,
            final(self).phase == phase_on_copy_finished(*outcome),
    {
        self.phase = LoopPhase::Idle;
    }
}

/// A failed copy does not end the loop: it waits again, and the next write
/// signal triggers a copy of the source over the same backup path.
pub proof fn lemma_failure_keeps_watching(target: WatchTarget, message: String)
    ensures
        phase_on_copy_finished(CopyOutcome::Failed(message)) == LoopPhase::Idle,
        action_for(write_signal(target), target) == LoopAction::Copy(
            target.source_path,
            target.destination_file_path,
        ),
        phase_on_delivery(write_signal(target), target) == LoopPhase::Copying,
{
}

proof fn lemma_signals_copied(ts: Seq<u64>, target: WatchTarget)
    ensures
        copy_count(ts.map_values(|t: u64| write_signal(target)), target) == ts.len(),
    decreases ts.len(),
{
    if ts.len() > 0 {
        lemma_signals_copied(ts.drop_last(), target);
        assert(ts.map_values(|t: u64| write_signal(target)).drop_last() =~= ts.drop_last().map_values(
            |t: u64| write_signal(target),
        ));
    }
}

/// Writes spaced more than one window apart, once coalesced and delivered,
/// trigger one copy each.
pub proof fn lemma_spaced_writes_each_copied(ts: Seq<u64>, window: u64, target: WatchTarget)
    requires
        is_sorted(ts),
        forall|i: int| 0 < i < ts.len() ==> #[trigger] ts[i] - ts[i - 1] > window,
    ensures
        copy_count(debounced(ts, window).map_values(|t: u64| write_signal(target)), target)
            == ts.len(),
{
    lemma_spaced_writes_each_signal(ts, window);
    lemma_signals_copied(debounced(ts, window), target);
}

/// A burst of two or more writes within one window, once coalesced and
/// delivered, triggers exactly one copy.
pub proof fn lemma_burst_copied_once(ts: Seq<u64>, window: u64, target: WatchTarget)
    requires
        is_sorted(ts),
        ts.len() >= 2,
        ts.last() - ts[0] < window,
    ensures
        copy_count(debounced(ts, window).map_values(|t: u64| write_signal(target)), target) == 1,
{
    lemma_burst_single_signal(ts, window);
    lemma_signals_copied(debounced(ts, window), target);
}

} // verus!
