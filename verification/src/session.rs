//! The notification session: one per connected streaming client.
//!
//! A session owns one bus subscription and two duties share its outbound
//! connection: a keep-alive duty that emits a comment frame on every timer
//! tick, and a forwarding duty that turns every bus delivery into a reload
//! frame. The session ends as soon as either duty sees a terminal
//! condition — a failed write to the client or the closed indication from
//! the bus — and an ended session emits nothing ever again. The driver
//! runs the timer and the writes; this module decides, for each event,
//! what to send and whether the session is over.

use vstd::prelude::*;
use vstd::string::*;

use crate::bus::ChangeBus;
use crate::bus::RecvOutcome;
use crate::bus::SubState;
use crate::bus::is_delivery;
use crate::bus::live_count;
use crate::bus::sub_recv_next;
use crate::bus::sub_recv_outcome;

verus! {

/// Seconds between two keep-alive frames when nothing else is sent.
pub const KEEP_ALIVE_INTERVAL_SECS: u64 = 15;

/// One event handed to a live session by its driver.
#[derive(Clone, Copy, PartialEq, Eq, Structural, Debug)]
pub enum SessionEvent {
    /// The keep-alive timer fired.
    Tick,
    /// The subscription's receive operation came back with this outcome.
    FromBus(RecvOutcome),
    /// A write to the client failed: the client is gone.
    WriteFailed,
}

/// A frame of the event-stream protocol sent to the client.
#[derive(Clone, Copy, PartialEq, Eq, Structural, Debug)]
pub enum Frame {
    /// The no-op comment frame, `:` followed by a blank line.
    KeepAlive,
    /// The reload instruction, `data: reload` followed by a blank line.
    Reload,
}

/// Whether the session is still live after reacting to `ev`.
pub open spec fn session_live_after(ev: SessionEvent, live: bool) -> bool {
    live && match ev {
        SessionEvent::Tick => true,
        SessionEvent::FromBus(o) => !(o is Closed),
        SessionEvent::WriteFailed => false,
    }
}

/// The frame a live session sends in reaction to `ev`; an ended session
/// sends nothing.
pub open spec fn session_frame(ev: SessionEvent, live: bool) -> Option<Frame> {
    if !live {
        None
    } else {
        match ev {
            SessionEvent::Tick => Some(Frame::KeepAlive),
            SessionEvent::FromBus(o) => if is_delivery(o) {
                Some(Frame::Reload)
            } else {
                None
            },
            SessionEvent::WriteFailed => None,
        }
    }
}

/// All frames a session starting live (or not) sends over a run of events.
pub open spec fn session_frames(evs: Seq<SessionEvent>, live: bool) -> Seq<Frame>
    decreases evs.len(),
{
    if evs.len() == 0 {
        Seq::empty()
    } else {
        let here = match session_frame(evs[0], live) {
            Some(f) => seq![f],
            None => Seq::<Frame>::empty(),
        };
        here + session_frames(evs.drop_first(), session_live_after(evs[0], live))
    }
}

/// One streaming client's session: its bus subscription and whether a
/// terminal condition was seen yet.
pub struct NotificationSession {
    /// Slot of this session's subscription on the bus.
    pub sub_id: usize,
    /// False once a terminal condition ended the session.
    pub live: bool,
}

impl NotificationSession {
    /// Connect a client: open a fresh subscription on the bus and start
    /// the session. The subscription starts empty, so the client only
    /// hears of changes published from now on.
    pub fn connect(bus: &mut ChangeBus) -> (s: NotificationSession)
        requires
            old(bus).subs@.len() < usize::MAX,
        ensures
            s.live,
            s.sub_id == old(bus).subs@.len(),
            final(bus).subs@ == old(bus).subs@.push(Some(SubState { buffered: 0, missed: 0 })),
            final(bus).capacity == old(bus).capacity,
            final(bus).closed == old(bus).closed,
            final(bus).live(s.sub_id as int),
            live_count(final(bus).subs@) == live_count(old(bus).subs@) + 1,
            old(bus).wf() ==> final(bus).wf(),
    {
        let id = bus.subscribe();
        NotificationSession { sub_id: id, live: true }
    }

    /// React to one event: decide which frame, if any, goes to the client
    /// and whether the session is over. A failed write or the closed
    /// indication ends the session; an ended session reacts to nothing.
    pub fn step(&mut self, ev: SessionEvent) -> (frame: Option<Frame>)
        ensures
            frame == session_frame(ev, old(self).live),
            final(self).live == session_live_after(ev, old(self).live),
            final(self).sub_id == old(self).sub_id,
    {
        if !self.live {
            return None;
        }
        match ev {
            SessionEvent::Tick => Some(Frame::KeepAlive),
            SessionEvent::FromBus(o) => match o {
                RecvOutcome::Signal => Some(Frame::Reload),
                RecvOutcome::Missed(_) => Some(Frame::Reload),
                RecvOutcome::Closed => {
                    self.live = false;
                    None
                },
                RecvOutcome::Pending => None,
            },
            SessionEvent::WriteFailed => {
                self.live = false;
                None
            },
        }
    }

    /// Pull the next outcome from this session's subscription and react
    /// to it in one move.
    pub fn poll_bus(&mut self, bus: &mut ChangeBus) -> (frame: Option<Frame>)
        requires
            old(bus).live(old(self).sub_id as int),
        ensures
            frame == session_frame(
                SessionEvent::FromBus(
                    sub_recv_outcome(old(bus).sub(old(self).sub_id as int), old(bus).closed),
                ),
                old(self).live,
            ),
            final(self).live == session_live_after(
                SessionEvent::FromBus(
                    sub_recv_outcome(old(bus).sub(old(self).sub_id as int), old(bus).closed),
                ),
                old(self).live,
            ),
            final(self).sub_id == old(self).sub_id,
            final(bus).subs@ == old(bus).subs@.update(
                old(self).sub_id as int,
                Some(sub_recv_next(old(bus).sub(old(self).sub_id as int))),
            ),
            final(bus).capacity == old(bus).capacity,
            final(bus).closed == old(bus).closed,
            old(bus).wf() ==> final(bus).wf(),
    {
        let outcome = bus.receive(self.sub_id);
        self.step(SessionEvent::FromBus(outcome))
    }

    /// Tear the session down: drop its subscription so the bus stops
    /// tracking it. The bus's live-subscriber count falls by exactly one.
    pub fn release(&mut self, bus: &mut ChangeBus)
        requires
            old(bus).live(old(self).sub_id as int),
        ensures
            !final(self).live,
            final(self).sub_id == old(self).sub_id,
            final(bus).subs@ == old(bus).subs@.update(old(self).sub_id as int, None),
            live_count(final(bus).subs@) + 1 == live_count(old(bus).subs@),
            final(bus).capacity == old(bus).capacity,
            final(bus).closed == old(bus).closed,
            old(bus).wf() ==> final(bus).wf(),
    {
        bus.unsubscribe(self.sub_id);
        self.live = false;
    }
}

/// The wire text of a frame: the keep-alive comment or the reload datum,
/// each closed by the blank line the protocol asks for.
pub fn frame_text(f: Frame) -> (s: String)
    ensures
        f is KeepAlive ==> s@ == keep_alive_text(),
        f is Reload ==> s@ == reload_text(),
{
    match f {
        Frame::KeepAlive => String::from_str(":\n\n"),
        Frame::Reload => String::from_str("data: reload\n\n"),
    }
}

/// The keep-alive frame on the wire.
pub open spec fn keep_alive_text() -> Seq<char> {
    ":\n\n"@
}

/// The reload frame on the wire.
pub open spec fn reload_text() -> Seq<char> {
    "data: reload\n\n"@
}

/// The response headers that open the reload stream: an event stream,
/// uncached, over a kept-alive connection.
pub fn stream_headers() -> (h: Vec<(String, String)>)
    ensures
        h@.len() == 3,
        h@[0].0@ == "content-type"@ && h@[0].1@ == "text/event-stream"@,
        h@[1].0@ == "cache-control"@ && h@[1].1@ == "no-cache"@,
        h@[2].0@ == "connection"@ && h@[2].1@ == "keep-alive"@,
{
    let mut h: Vec<(String, String)> = Vec::new();
    h.push((String::from_str("content-type"), String::from_str("text/event-stream")));
    h.push((String::from_str("cache-control"), String::from_str("no-cache")));
    h.push((String::from_str("connection"), String::from_str("keep-alive")));
    h
}

/// Keep-alive cadence: over any run in which the bus delivers nothing —
/// no signal and no missed count — a session sends no reload frame at
/// all; and on a run of timer ticks alone it answers every single tick
/// with exactly one keep-alive frame.
pub proof fn lemma_keep_alive_cadence(evs: Seq<SessionEvent>, live: bool)
    requires
        forall|k: int|
            0 <= k < evs.len() ==> match #[trigger] evs[k] {
                SessionEvent::FromBus(o) => !is_delivery(o),
                _ => true,
            },
    ensures
        forall|k: int|
            0 <= k < session_frames(evs, live).len() ==> #[trigger] session_frames(evs, live)[k]
                is KeepAlive,
        (live && forall|k: int| 0 <= k < evs.len() ==> #[trigger] evs[k] is Tick)
            ==> session_frames(evs, live) =~= Seq::new(evs.len(), |k: int| Frame::KeepAlive),
    decreases evs.len(),
{
    if evs.len() > 0 {
        lemma_keep_alive_cadence(evs.drop_first(), session_live_after(evs[0], live));
    }
}

/// A terminal condition is final: a failed write or the closed
/// indication ends the session whatever its state, and an ended session
/// never sends another frame.
pub proof fn lemma_session_end_is_final(evs: Seq<SessionEvent>, live: bool)
    ensures
        !session_live_after(SessionEvent::WriteFailed, live),
        !session_live_after(SessionEvent::FromBus(RecvOutcome::Closed), live),
        session_frames(evs, false) =~= Seq::<Frame>::empty(),
    decreases evs.len(),
{
    if evs.len() > 0 {
        lemma_session_end_is_final(evs.drop_first(), false);
    }
}

} // verus!
