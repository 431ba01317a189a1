//! Classification of raw filesystem events.
//!
//! The change detector blocks on the OS notification source; each raw event
//! is classified here, and only content writes, removals, renames and forced
//! rescans become change signals. Informational events are dropped.

use vstd::prelude::*;

use crate::bus::ChangeBus;
use crate::bus::publish_all;

verus! {

/// The kind of one raw, already-debounced filesystem event.
#[derive(Clone, Copy, PartialEq, Eq, Structural, Debug)]
pub enum FsEventKind {
    /// A file's content was written.
    Write,
    /// A file or directory was removed.
    Remove,
    /// A file or directory was renamed.
    Rename,
    /// The watcher asked for a full rescan of the tree.
    Rescan,
    /// Any other kind (creation notices, metadata changes, and the like).
    Other,
}

/// One step of input to the watcher loop.
#[derive(Clone, Copy, PartialEq, Eq, Structural, Debug)]
pub enum WatchStep {
    /// A raw event arrived and was classified.
    Event(FsEventKind),
    /// Reading the next raw event failed; the loop logs and goes on.
    ReadError,
    /// The event source is closed; the loop must exit.
    SourceClosed,
}

/// What the watcher loop does in reaction to one step.
#[derive(Clone, Copy, PartialEq, Eq, Structural, Debug)]
pub enum WatchAction {
    /// Publish one change signal on the bus.
    Publish,
    /// Do nothing and wait for the next raw event.
    Continue,
    /// Leave the loop; the watch handle is being torn down.
    Stop,
}

/// Whether an event of kind `k` turns into a change signal.
pub open spec fn emits_signal(k: FsEventKind) -> bool {
    match k {
        FsEventKind::Write => true,
        FsEventKind::Remove => true,
        FsEventKind::Rename => true,
        FsEventKind::Rescan => true,
        FsEventKind::Other => false,
    }
}

/// True exactly for the event kinds that produce a change signal.
pub fn should_emit(k: FsEventKind) -> (r: bool)
    ensures
        r == emits_signal(k),
{
    match k {
        FsEventKind::Write => true,
        FsEventKind::Remove => true,
        FsEventKind::Rename => true,
        FsEventKind::Rescan => true,
        FsEventKind::Other => false,
    }
}

/// The action the watcher loop takes on one step: publish a signal for a
/// signal-worthy event, keep waiting on an informational event or a read
/// error, and stop only when the event source itself is closed.
pub fn detector_step(s: WatchStep) -> (a: WatchAction)
    ensures
        a == detector_step_spec(s),
{
    match s {
        WatchStep::Event(k) => {
            if should_emit(k) {
                WatchAction::Publish
            } else {
                WatchAction::Continue
            }
        },
        WatchStep::ReadError => WatchAction::Continue,
        WatchStep::SourceClosed => WatchAction::Stop,
    }
}

/// One round of the watcher loop against the bus: publish a signal for
/// a signal-worthy event, swallow everything else, and report whether
/// the loop must exit. Only a closed event source stops the loop; a
/// read error never does.
pub fn detector_handle(bus: &mut ChangeBus, s: WatchStep) -> (stop: bool)
    requires
        old(bus).wf(),
        !old(bus).closed,
    ensures
        stop == (detector_step_spec(s) is Stop),
        detector_step_spec(s) is Publish ==> final(bus).subs@ == publish_all(
            old(bus).subs@,
            old(bus).capacity,
        ),
        !(detector_step_spec(s) is Publish) ==> final(bus).subs@ == old(bus).subs@,
        final(bus).capacity == old(bus).capacity,
        final(bus).closed == old(bus).closed,
        final(bus).wf(),
{
    match detector_step(s) {
        WatchAction::Publish => {
            bus.publish();
            false
        },
        WatchAction::Continue => false,
        WatchAction::Stop => true,
    }
}

/// The watcher loop's reaction, as a function.
pub open spec fn detector_step_spec(s: WatchStep) -> WatchAction {
    match s {
        WatchStep::Event(k) => if emits_signal(k) {
            WatchAction::Publish
        } else {
            WatchAction::Continue
        },
        WatchStep::ReadError => WatchAction::Continue,
        WatchStep::SourceClosed => WatchAction::Stop,
    }
}

} // verus!
