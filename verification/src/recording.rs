//! The event model and the state of a recording session.

use vstd::prelude::*;

verus! {

/// A mouse button that the engine records and replays.
#[derive(Clone, Copy, Debug, PartialEq, Eq, Structural)]
pub enum MouseButton {
    Left,
    Right,
    Middle,
}

/// What happened: one variant for each kind of input that is captured.
#[derive(Clone, Copy, Debug, PartialEq, Eq, Structural)]
pub enum EventType {
    MouseMove,
    MouseDown { button: MouseButton },
    MouseUp { button: MouseButton },
    MouseWheel { delta: i16 },
    KeyDown { vk_code: u32 },
    KeyUp { vk_code: u32 },
}

/// One captured input event. `time_offset_ms` counts the milliseconds of the
/// monotonic clock since the session started.
#[derive(Clone, Copy, Debug, PartialEq, Eq, Structural)]
pub struct RecordedEvent {
    pub event_type: EventType,
    pub x: Option<i32>,
    pub y: Option<i32>,
    pub time_offset_ms: u64,
}

/// The offsets of `events` never go down from one event to the next.
pub open spec fn chronological(events: Seq<RecordedEvent>) -> bool {
    forall|i: int, j: int|
        0 <= i <= j < events.len() ==> events[i].time_offset_ms <= events[j].time_offset_ms
}

/// The offset that the next appended event must reach: that of the last event,
/// or zero where there is none yet.
pub open spec fn latest_offset(events: Seq<RecordedEvent>) -> int {
    if events.len() == 0 {
        0
    } else {
        events.last().time_offset_ms as int
    }
}

/// What a recording state holds, as mathematics: the model that the contracts
/// of [`RecordingState`] are stated over.
pub struct Session {
    pub is_recording: bool,
    pub start_instant: Option<u64>,
    pub events: Seq<RecordedEvent>,
}

impl Session {
    /// The events are in order of time, and a running session knows when it started.
    pub open spec fn wf(self) -> bool {
        &&& chronological(self.events)
        &&& self.is_recording ==> self.start_instant is Some
    }

    /// The idle state that holds nothing.
    pub open spec fn idle() -> Session {
        Session { is_recording: false, start_instant: None, events: Seq::empty() }
    }

    /// A session begins at `now_ms`, unless one is running already.
    pub open spec fn start(self, now_ms: u64) -> Session {
        if self.is_recording {
            self
        } else {
            Session { is_recording: true, start_instant: Some(now_ms), events: Seq::empty() }
        }
    }

    /// The session ends; the events stay.
    pub open spec fn stop(self) -> Session {
        Session { is_recording: false, ..self }
    }

    /// `event` is appended while a session is running.
    pub open spec fn add_event(self, event: RecordedEvent) -> Session {
        if self.is_recording {
            Session { events: self.events.push(event), ..self }
        } else {
            self
        }
    }

    /// Milliseconds from the start of the session to the clock reading `now_ms`,
    /// never less than the offset of the last event: the clock is monotonic, and
    /// a reading that lags behind is taken as no time having passed.
    pub open spec fn offset_at(self, now_ms: u64) -> u64 {
        let start = if self.start_instant is Some { self.start_instant->0 } else { now_ms };
        let elapsed = if now_ms >= start { (now_ms - start) as u64 } else { 0u64 };
        if elapsed >= latest_offset(self.events) { elapsed } else { latest_offset(self.events) as u64 }
    }
}

/// The recording in progress, or the one that has just ended.
///
/// `start_instant` is a reading of the monotonic clock in milliseconds, taken
/// by the caller when the session started.
pub struct RecordingState {
    pub is_recording: bool,
    pub start_instant: Option<u64>,
    pub events: Vec<RecordedEvent>,
}

impl View for RecordingState {
    type V = Session;

    open spec fn view(&self) -> Session {
        Session {
            is_recording: self.is_recording,
            start_instant: self.start_instant,
            events: self.events@,
        }
    }
}

impl RecordingState {
    /// The events are in order of time, and a running session knows when it started.
    pub open spec fn wf(&self) -> bool {
        self@.wf()
    }

    /// An idle state with no events.
    pub fn new() -> (s: Self)
        ensures
            s.wf(),
            s@ == Session::idle(),
    {
        RecordingState { is_recording: false, start_instant: None, events: Vec::new() }
    }

    /// Begins a session at clock reading `now_ms` and drops the events of an
    /// earlier one. While a session is running the call changes nothing, so
    /// that a second start loses no event.
    pub fn start(&mut self, now_ms: u64)
        ensures
            final(self)@ == old(self)@.start(now_ms),
            old(self).wf() ==> final(self).wf(),
    {
        if !self.is_recording {
            self.is_recording = true;
            self.start_instant = Some(now_ms);
            self.events = Vec::new();
        }
    }

    /// Ends the session and hands out what was captured, in order of arrival.
    /// The state keeps its copy until the next `start`.
    pub fn stop(&mut self) -> (captured: Vec<RecordedEvent>)
        ensures
            final(self)@ == old(self)@.stop(),
            captured@ == old(self)@.events,
            old(self).wf() ==> final(self).wf() && chronological(captured@),
    {
        self.is_recording = false;
        self.events.clone()
    }

    /// Appends `event` while a session is running; does nothing otherwise.
    /// It is one append at most, so it takes a bounded time. The events stay
    /// in order of time as long as no event is earlier than the one before it.
    pub fn add_event(&mut self, event: RecordedEvent)
        ensures
            final(self)@ == old(self)@.add_event(event),
            old(self).wf() && latest_offset(old(self).events@) <= event.time_offset_ms
                ==> final(self).wf(),
    {
        if self.is_recording {
            self.events.push(event);
        }
    }

    /// The offset of the last captured event, or zero.
    pub fn last_offset(&self) -> (t: u64)
        ensures
            t == latest_offset(self.events@),
    {
        let n = self.events.len();
        if n == 0 {
            0
        } else {
            self.events[n - 1].time_offset_ms
        }
    }

    /// The offset to stamp on an event that arrives at clock reading `now_ms`.
    pub fn offset_at(&self, now_ms: u64) -> (t: u64)
        ensures
            t == self@.offset_at(now_ms),
            latest_offset(self.events@) <= t,
    {
        let start = match self.start_instant {
            Some(s) => s,
            None => now_ms,
        };
        let elapsed = if now_ms >= start { now_ms - start } else { 0 };
        let last = self.last_offset();
        if elapsed >= last { elapsed } else { last }
    }
}

/// Whatever is appended in order of time leaves the events in order of time.
pub proof fn lemma_append_keeps_order(s: Session, event: RecordedEvent)
    requires
        s.wf(),
        latest_offset(s.events) <= event.time_offset_ms,
    ensures
        s.add_event(event).wf(),
{
}

/// Every state reached from the idle one has its events in order of time, so
/// every recording that `stop` returns has: starting, stopping and appending an
/// event stamped by `offset_at` all keep the order.
pub proof fn lemma_recordings_are_chronological(s: Session, now_ms: u64, event_type: EventType, x: Option<i32>, y: Option<i32>)
    requires
        s.wf(),
    ensures
        Session::idle().wf(),
        s.start(now_ms).wf(),
        s.stop().wf(),
        chronological(s.stop().events),
        s.add_event(RecordedEvent { event_type, x, y, time_offset_ms: s.offset_at(now_ms) }).wf(),
{
}

/// Starting a session from rest and stopping it at once yields no events.
pub proof fn lemma_start_then_stop_is_empty(s: Session, now_ms: u64)
    requires
        !s.is_recording,
    ensures
        s.start(now_ms).stop().events == Seq::<RecordedEvent>::empty(),
        !s.start(now_ms).stop().is_recording,
{
}

} // verus!
