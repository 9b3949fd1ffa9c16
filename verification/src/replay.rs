//! The replay side: a loaded recording with a cursor that an outside driver
//! pulls events from, and the checks that every event passes before it is
//! handed to the operating system.

use vstd::prelude::*;
use crate::json::{find_member, json_document, member_of, parse_json, JsonNumber, JsonValue};
use crate::text::same_text;
use crate::recording::{EventType, MouseButton, RecordedEvent};

verus! {

pub const MOUSEEVENTF_LEFTDOWN: u32 = 0x0002;

pub const MOUSEEVENTF_LEFTUP: u32 = 0x0004;

pub const MOUSEEVENTF_RIGHTDOWN: u32 = 0x0008;

pub const MOUSEEVENTF_RIGHTUP: u32 = 0x0010;

pub const MOUSEEVENTF_MIDDLEDOWN: u32 = 0x0020;

pub const MOUSEEVENTF_MIDDLEUP: u32 = 0x0040;

pub const MOUSEEVENTF_WHEEL: u32 = 0x0800;

pub const KEYEVENTF_KEYUP: u32 = 0x0002;

/// The lowest coordinate that a cursor position may have.
pub const COORDINATE_MIN: i32 = -32768;

/// The highest coordinate that a cursor position may have.
pub const COORDINATE_MAX: i32 = 32767;

/// The highest virtual key code.
pub const VK_CODE_MAX: u32 = 255;

/// The speed of a replay in thousandths: 1000 plays at the recorded pace,
/// 2000 twice as fast.
pub const NORMAL_SPEED: u32 = 1000;

/// What can go wrong while loading or replaying a recording.
#[derive(Clone, Copy, Debug, PartialEq, Eq, Structural)]
pub enum ReplayError {
    /// The document is no JSON, has no list of events, or holds an event that
    /// cannot be decoded.
    MalformedDocument,
    /// A mouse move without a position, or with one outside the 16-bit range.
    InvalidCoordinates,
    /// A key code above 255.
    InvalidKeyCode,
    /// The operating system did not accept the input.
    SynthesisFailed,
}

/// One unit of input, checked and ready for the operating system.
#[derive(Clone, Copy, Debug, PartialEq, Eq, Structural)]
pub enum SyntheticInput {
    /// Put the cursor at an absolute position.
    CursorPosition { x: i32, y: i32 },
    /// One mouse input unit with these flags and this payload.
    Mouse { flags: u32, mouse_data: u32 },
    /// One keyboard input unit for this key with these flags.
    Keyboard { vk: u16, flags: u32 },
}

/// The native flag for pressing `button`.
pub open spec fn button_down_flag(button: MouseButton) -> u32 {
    match button {
        MouseButton::Left => MOUSEEVENTF_LEFTDOWN,
        MouseButton::Right => MOUSEEVENTF_RIGHTDOWN,
        MouseButton::Middle => MOUSEEVENTF_MIDDLEDOWN,
    }
}

/// The native flag for releasing `button`.
pub open spec fn button_up_flag(button: MouseButton) -> u32 {
    match button {
        MouseButton::Left => MOUSEEVENTF_LEFTUP,
        MouseButton::Right => MOUSEEVENTF_RIGHTUP,
        MouseButton::Middle => MOUSEEVENTF_MIDDLEUP,
    }
}

/// The native payload of a wheel turn: `delta` as 16 bits in the high word.
pub open spec fn wheel_payload_of(delta: i16) -> int {
    (if delta >= 0 { delta as int } else { delta + 0x1_0000 }) * 0x1_0000
}

/// Whether a coordinate fits the signed 16-bit range.
pub open spec fn coordinate_in_range(v: i32) -> bool {
    COORDINATE_MIN <= v <= COORDINATE_MAX
}

/// What `event` becomes on its way to the operating system: the input unit to
/// inject, or the reason why it is turned away.
pub open spec fn synthesize(event: RecordedEvent) -> Result<SyntheticInput, ReplayError> {
    match event.event_type {
        EventType::MouseMove => {
            if event.x is Some && event.y is Some && coordinate_in_range(event.x->0)
                && coordinate_in_range(event.y->0) {
                Ok(SyntheticInput::CursorPosition { x: event.x->0, y: event.y->0 })
            } else {
                Err(ReplayError::InvalidCoordinates)
            }
        },
        EventType::MouseDown { button } => Ok(
            SyntheticInput::Mouse { flags: button_down_flag(button), mouse_data: 0 },
        ),
        EventType::MouseUp { button } => Ok(
            SyntheticInput::Mouse { flags: button_up_flag(button), mouse_data: 0 },
        ),
        EventType::MouseWheel { delta } => Ok(
            SyntheticInput::Mouse {
                flags: MOUSEEVENTF_WHEEL,
                mouse_data: wheel_payload_of(delta) as u32,
            },
        ),
        EventType::KeyDown { vk_code } => {
            if vk_code <= VK_CODE_MAX {
                Ok(SyntheticInput::Keyboard { vk: vk_code as u16, flags: 0 })
            } else {
                Err(ReplayError::InvalidKeyCode)
            }
        },
        EventType::KeyUp { vk_code } => {
            if vk_code <= VK_CODE_MAX {
                Ok(SyntheticInput::Keyboard { vk: vk_code as u16, flags: KEYEVENTF_KEYUP })
            } else {
                Err(ReplayError::InvalidKeyCode)
            }
        },
    }
}

/// The native payload of a wheel turn.
pub fn wheel_payload(delta: i16) -> (payload: u32)
    ensures
        payload == wheel_payload_of(delta),
{
    let low: u32 = if delta >= 0 {
        delta as u32
    } else {
        (delta as i32 + 0x1_0000) as u32
    };
    low * 0x1_0000
}

/// The native flag for pressing or releasing `button`.
pub fn button_flag(button: MouseButton, down: bool) -> (flag: u32)
    ensures
        flag == if down { button_down_flag(button) } else { button_up_flag(button) },
{
    match button {
        MouseButton::Left => if down { MOUSEEVENTF_LEFTDOWN } else { MOUSEEVENTF_LEFTUP },
        MouseButton::Right => if down { MOUSEEVENTF_RIGHTDOWN } else { MOUSEEVENTF_RIGHTUP },
        MouseButton::Middle => if down { MOUSEEVENTF_MIDDLEDOWN } else { MOUSEEVENTF_MIDDLEUP },
    }
}

/// What the operating system answered to an injection: zero means that it
/// did not take the input.
pub fn confirm_injection(accepted: u32) -> (outcome: Result<(), ReplayError>)
    ensures
        accepted != 0 ==> outcome == Ok::<(), ReplayError>(()),
        accepted == 0 ==> outcome == Err::<(), ReplayError>(ReplayError::SynthesisFailed),
{
    if accepted == 0 {
        Err(ReplayError::SynthesisFailed)
    } else {
        Ok(())
    }
}

/// When an event recorded at `time_offset_ms` is due in a replay at
/// `speed_permille`: the offset divided by the speed, in whole milliseconds,
/// and no more than `u64::MAX`.
pub open spec fn scheduled_time_of(time_offset_ms: u64, speed_permille: u32) -> int {
    let due = time_offset_ms as int * 1000 / speed_permille as int;
    if due <= u64::MAX { due } else { u64::MAX as int }
}

/// When an event recorded at `time_offset_ms` is due, counted from the start
/// of the replay.
pub fn scheduled_time_ms(time_offset_ms: u64, speed_permille: u32) -> (due: u64)
    requires
        speed_permille > 0,
    ensures
        due == scheduled_time_of(time_offset_ms, speed_permille),
{
    let due: u128 = (time_offset_ms as u128) * 1000 / (speed_permille as u128);
    if due <= u64::MAX as u128 {
        due as u64
    } else {
        u64::MAX
    }
}

/// A position read from a document: a missing member and `null` both stand for
/// no position, a whole number of 32 bits for itself. The outer `None` means
/// that the member holds anything else.
pub open spec fn coordinate_of(member: Option<JsonValue>) -> Option<Option<i32>> {
    match member {
        None => Some(None),
        Some(JsonValue::Null) => Some(None),
        Some(JsonValue::Number(JsonNumber::Unsigned(u))) => if u <= i32::MAX {
            Some(Some(u as i32))
        } else {
            None
        },
        Some(JsonValue::Number(JsonNumber::Negative(i))) => if i >= i32::MIN {
            Some(Some(i as i32))
        } else {
            None
        },
        _ => None,
    }
}

/// A button is written by its name.
pub open spec fn button_of(value: JsonValue) -> Option<MouseButton> {
    match value {
        JsonValue::Text(name) => if name@ == "Left"@ {
            Some(MouseButton::Left)
        } else if name@ == "Right"@ {
            Some(MouseButton::Right)
        } else if name@ == "Middle"@ {
            Some(MouseButton::Middle)
        } else {
            None
        },
        _ => None,
    }
}

/// The member `key` of an object; `None` for a value that is no object.
pub open spec fn field_of(value: JsonValue, key: Seq<char>) -> Option<JsonValue> {
    match value {
        JsonValue::Object(members) => member_of(members@, key),
        _ => None,
    }
}

/// The button in the body of a `MouseDown` or `MouseUp`.
pub open spec fn button_field_of(body: JsonValue) -> Option<MouseButton> {
    match field_of(body, "button"@) {
        Some(v) => button_of(v),
        None => None,
    }
}

/// The delta in the body of a `MouseWheel`: a whole number of 16 bits.
pub open spec fn delta_field_of(body: JsonValue) -> Option<i16> {
    match field_of(body, "delta"@) {
        Some(JsonValue::Number(JsonNumber::Unsigned(u))) => if u <= i16::MAX {
            Some(u as i16)
        } else {
            None
        },
        Some(JsonValue::Number(JsonNumber::Negative(i))) => if i >= i16::MIN {
            Some(i as i16)
        } else {
            None
        },
        _ => None,
    }
}

/// The key code in the body of a `KeyDown` or `KeyUp`: a whole number of 32
/// bits from zero up.
pub open spec fn vk_code_field_of(body: JsonValue) -> Option<u32> {
    match field_of(body, "vk_code"@) {
        Some(JsonValue::Number(JsonNumber::Unsigned(u))) => if u <= u32::MAX {
            Some(u as u32)
        } else {
            None
        },
        _ => None,
    }
}

/// The variant with the name `tag` and the fields in `body`.
pub open spec fn tagged_event_of(tag: Seq<char>, body: JsonValue) -> Option<EventType> {
    if tag == "MouseDown"@ {
        match button_field_of(body) {
            Some(button) => Some(EventType::MouseDown { button }),
            None => None,
        }
    } else if tag == "MouseUp"@ {
        match button_field_of(body) {
            Some(button) => Some(EventType::MouseUp { button }),
            None => None,
        }
    } else if tag == "MouseWheel"@ {
        match delta_field_of(body) {
            Some(delta) => Some(EventType::MouseWheel { delta }),
            None => None,
        }
    } else if tag == "KeyDown"@ {
        match vk_code_field_of(body) {
            Some(vk_code) => Some(EventType::KeyDown { vk_code }),
            None => None,
        }
    } else if tag == "KeyUp"@ {
        match vk_code_field_of(body) {
            Some(vk_code) => Some(EventType::KeyUp { vk_code }),
            None => None,
        }
    } else {
        None
    }
}

/// The kind of an event as a document writes it: the text `"MouseMove"`, or an
/// object with one member, whose key names the variant and whose value is an
/// object with the variant's fields, as in `{"KeyDown": {"vk_code": 65}}`.
pub open spec fn event_type_of(value: JsonValue) -> Option<EventType> {
    match value {
        JsonValue::Text(name) => if name@ == "MouseMove"@ {
            Some(EventType::MouseMove)
        } else {
            None
        },
        JsonValue::Object(members) => if members@.len() == 1 {
            tagged_event_of(members@[0].key@, members@[0].value)
        } else {
            None
        },
        _ => None,
    }
}

/// The offset of an event: a whole number of 64 bits from zero up.
pub open spec fn offset_of(member: Option<JsonValue>) -> Option<u64> {
    match member {
        Some(JsonValue::Number(JsonNumber::Unsigned(u))) => Some(u),
        _ => None,
    }
}

/// One event of a document: an object with `event_type` and `time_offset_ms`,
/// and with `x` and `y` where there is a position. `None` where the value is
/// no such object.
pub open spec fn event_of(value: JsonValue) -> Option<RecordedEvent> {
    match value {
        JsonValue::Object(members) => {
            let kind = match member_of(members@, "event_type"@) {
                Some(v) => event_type_of(v),
                None => None,
            };
            let x = coordinate_of(member_of(members@, "x"@));
            let y = coordinate_of(member_of(members@, "y"@));
            let offset = offset_of(member_of(members@, "time_offset_ms"@));
            if kind is Some && x is Some && y is Some && offset is Some {
                Some(
                    RecordedEvent {
                        event_type: kind->0,
                        x: x->0,
                        y: y->0,
                        time_offset_ms: offset->0,
                    },
                )
            } else {
                None
            }
        },
        _ => None,
    }
}

/// Whether each of `items` is an event.
pub open spec fn all_events(items: Seq<JsonValue>) -> bool {
    forall|i: int| 0 <= i < items.len() ==> (#[trigger] event_of(items[i])) is Some
}

/// The events that a persisted recording holds, in its order: the document is
/// an object whose member `events` is an array of events. Other members, such
/// as `duration_ms` and `created_at`, are not read. `None` where the document
/// is malformed.
pub open spec fn recording_of(doc: JsonValue) -> Option<Seq<RecordedEvent>> {
    match field_of(doc, "events"@) {
        Some(JsonValue::Array(items)) => if all_events(items@) {
            Some(Seq::new(items@.len(), |i: int| event_of(items@[i])->0))
        } else {
            None
        },
        _ => None,
    }
}

/// Reads a position.
pub fn decode_coordinate(member: Option<&JsonValue>) -> (position: Option<Option<i32>>)
    ensures
        position == coordinate_of(
            match member {
                Some(v) => Some(*v),
                None => None,
            },
        ),
{
    match member {
        None => Some(None),
        Some(JsonValue::Null) => Some(None),
        Some(JsonValue::Number(JsonNumber::Unsigned(u))) => {
            if *u <= i32::MAX as u64 {
                Some(Some(*u as i32))
            } else {
                None
            }
        },
        Some(JsonValue::Number(JsonNumber::Negative(i))) => {
            if *i >= i32::MIN as i64 {
                Some(Some(*i as i32))
            } else {
                None
            }
        },
        _ => None,
    }
}

/// Reads the member `key` of an object.
pub fn decode_field<'a>(value: &'a JsonValue, key: &str) -> (found: Option<&'a JsonValue>)
    ensures
        found is Some == field_of(*value, key@) is Some,
        found is Some ==> *found->0 == field_of(*value, key@)->0,
{
    match value {
        JsonValue::Object(members) => find_member(members, key),
        _ => None,
    }
}

/// Reads a button.
pub fn decode_button(body: &JsonValue) -> (button: Option<MouseButton>)
    ensures
        button == button_field_of(*body),
{
    match decode_field(body, "button") {
        Some(JsonValue::Text(name)) => {
            if same_text(name.as_str(), "Left") {
                Some(MouseButton::Left)
            } else if same_text(name.as_str(), "Right") {
                Some(MouseButton::Right)
            } else if same_text(name.as_str(), "Middle") {
                Some(MouseButton::Middle)
            } else {
                None
            }
        },
        _ => None,
    }
}

/// Reads a wheel delta.
pub fn decode_delta(body: &JsonValue) -> (delta: Option<i16>)
    ensures
        delta == delta_field_of(*body),
{
    match decode_field(body, "delta") {
        Some(JsonValue::Number(JsonNumber::Unsigned(u))) => {
            if *u <= i16::MAX as u64 {
                Some(*u as i16)
            } else {
                None
            }
        },
        Some(JsonValue::Number(JsonNumber::Negative(i))) => {
            if *i >= i16::MIN as i64 {
                Some(*i as i16)
            } else {
                None
            }
        },
        _ => None,
    }
}

/// Reads a key code.
pub fn decode_vk_code(body: &JsonValue) -> (vk_code: Option<u32>)
    ensures
        vk_code == vk_code_field_of(*body),
{
    match decode_field(body, "vk_code") {
        Some(JsonValue::Number(JsonNumber::Unsigned(u))) => {
            if *u <= u32::MAX as u64 {
                Some(*u as u32)
            } else {
                None
            }
        },
        _ => None,
    }
}

/// Reads the kind of an event.
pub fn decode_event_type(value: &JsonValue) -> (kind: Option<EventType>)
    ensures
        kind == event_type_of(*value),
{
    match value {
        JsonValue::Text(name) => {
            if same_text(name.as_str(), "MouseMove") {
                Some(EventType::MouseMove)
            } else {
                None
            }
        },
        JsonValue::Object(members) => {
            if members.len() != 1 {
                return None;
            }
            let tag = members[0].key.as_str();
            let body = &members[0].value;
            if same_text(tag, "MouseDown") {
                match decode_button(body) {
                    Some(button) => Some(EventType::MouseDown { button }),
                    None => None,
                }
            } else if same_text(tag, "MouseUp") {
                match decode_button(body) {
                    Some(button) => Some(EventType::MouseUp { button }),
                    None => None,
                }
            } else if same_text(tag, "MouseWheel") {
                match decode_delta(body) {
                    Some(delta) => Some(EventType::MouseWheel { delta }),
                    None => None,
                }
            } else if same_text(tag, "KeyDown") {
                match decode_vk_code(body) {
                    Some(vk_code) => Some(EventType::KeyDown { vk_code }),
                    None => None,
                }
            } else if same_text(tag, "KeyUp") {
                match decode_vk_code(body) {
                    Some(vk_code) => Some(EventType::KeyUp { vk_code }),
                    None => None,
                }
            } else {
                None
            }
        },
        _ => None,
    }
}

/// Reads one event.
pub fn decode_event(value: &JsonValue) -> (event: Option<RecordedEvent>)
    ensures
        event == event_of(*value),
{
    match value {
        JsonValue::Object(members) => {
            let event_type = match find_member(members, "event_type") {
                Some(v) => match decode_event_type(v) {
                    Some(kind) => kind,
                    None => { return None; },
                },
                None => { return None; },
            };
            let x = match decode_coordinate(find_member(members, "x")) {
                Some(x) => x,
                None => { return None; },
            };
            let y = match decode_coordinate(find_member(members, "y")) {
                Some(y) => y,
                None => { return None; },
            };
            let time_offset_ms = match find_member(members, "time_offset_ms") {
                Some(JsonValue::Number(JsonNumber::Unsigned(u))) => *u,
                _ => { return None; },
            };
            Some(RecordedEvent { event_type, x, y, time_offset_ms })
        },
        _ => None,
    }
}

/// Reads the events of a persisted recording. It gives `None` for a document
/// that is malformed, and the events in document order for any other.
#[verifier::loop_isolation(false)]
pub fn decode_recording(doc: &JsonValue) -> (events: Option<Vec<RecordedEvent>>)
    ensures
        events is Some == recording_of(*doc) is Some,
        events is Some ==> events->0@ == recording_of(*doc)->0,
{
    match decode_field(doc, "events") {
        Some(JsonValue::Array(items)) => {
            let mut events: Vec<RecordedEvent> = Vec::new();
            let mut i: usize = 0;
            while i < items.len()
                invariant
                    i <= items.len(),
                    events@.len() == i,
                    forall|k: int| 0 <= k < i ==> (#[trigger] event_of(items@[k])) == Some(events@[k]),
                decreases items.len() - i,
            {
                match decode_event(&items[i]) {
                    Some(event) => {
                        events.push(event);
                    },
                    None => {
                        assert(!all_events(items@));
                        return None;
                    },
                }
                i += 1;
            }
            assert(events@ =~= recording_of(*doc)->0);
            Some(events)
        },
        _ => None,
    }
}

/// What a replay state holds, as mathematics.
pub struct Playback {
    pub is_playing: bool,
    pub events: Seq<RecordedEvent>,
    pub index: nat,
    pub speed_permille: u32,
}

impl Playback {
    /// The cursor is within the events and the speed is positive.
    pub open spec fn wf(self) -> bool {
        self.index <= self.events.len() && self.speed_permille > 0
    }

    /// The state of a fresh replay: nothing loaded, normal speed.
    pub open spec fn fresh() -> Playback {
        Playback { is_playing: false, events: Seq::empty(), index: 0, speed_permille: NORMAL_SPEED }
    }

    /// `events` replaces what was loaded, and the cursor goes back to the start.
    pub open spec fn load(self, events: Seq<RecordedEvent>) -> Playback {
        Playback { events, index: 0, ..self }
    }

    /// Playing begins at the first event. A speed of zero is turned away and
    /// changes nothing.
    pub open spec fn start(self, speed_permille: u32) -> Playback {
        if speed_permille == 0 {
            self
        } else {
            Playback { is_playing: true, index: 0, speed_permille, ..self }
        }
    }

    /// Playing ends, and the cursor goes back to the start.
    pub open spec fn stop(self) -> Playback {
        Playback { is_playing: false, index: 0, ..self }
    }

    /// The event under the cursor, if the cursor has not passed the last one.
    pub open spec fn current(self) -> Option<RecordedEvent> {
        if self.index < self.events.len() {
            Some(self.events[self.index as int])
        } else {
            None
        }
    }

    /// The state after the event under the cursor was handed out.
    pub open spec fn advance(self) -> Playback {
        if self.index < self.events.len() {
            Playback { index: self.index + 1, ..self }
        } else {
            self
        }
    }

    /// The state after `calls` events were asked for.
    pub open spec fn advance_by(self, calls: nat) -> Playback
        decreases calls,
    {
        if calls == 0 {
            self
        } else {
            self.advance_by((calls - 1) as nat).advance()
        }
    }

    /// How much of the recording was handed out, in whole percent; zero where
    /// nothing is loaded.
    pub open spec fn progress(self) -> int {
        if self.events.len() == 0 {
            0
        } else {
            100 * self.index as int / self.events.len() as int
        }
    }
}

/// The events in the text of a persisted recording; `None` where the text is
/// no JSON or the document is malformed.
pub open spec fn loaded_events(content: Seq<char>) -> Option<Seq<RecordedEvent>> {
    match json_document(content) {
        Some(doc) => recording_of(doc),
        None => None,
    }
}

/// A loaded recording and the cursor of its replay.
pub struct ReplayState {
    pub is_playing: bool,
    pub current_events: Vec<RecordedEvent>,
    pub current_index: usize,
    /// The speed in thousandths of the recorded pace.
    pub speed_multiplier: u32,
}

impl View for ReplayState {
    type V = Playback;

    open spec fn view(&self) -> Playback {
        Playback {
            is_playing: self.is_playing,
            events: self.current_events@,
            index: self.current_index as nat,
            speed_permille: self.speed_multiplier,
        }
    }
}

impl ReplayState {
    /// The cursor is within the events and the speed is positive.
    pub open spec fn wf(&self) -> bool {
        self@.wf()
    }

    /// A replay with nothing loaded, at normal speed.
    pub fn new() -> (state: Self)
        ensures
            state@ == Playback::fresh(),
            state.wf(),
    {
        ReplayState {
            is_playing: false,
            current_events: Vec::new(),
            current_index: 0,
            speed_multiplier: NORMAL_SPEED,
        }
    }

    /// Loads the events of an already parsed document. A malformed document
    /// is turned away and the state stays as it is; otherwise its events
    /// replace what was loaded and the cursor goes back to the start.
    pub fn load_document(&mut self, doc: &JsonValue) -> (outcome: Result<(), ReplayError>)
        ensures
            recording_of(*doc) is None ==> outcome == Err::<(), ReplayError>(
                ReplayError::MalformedDocument,
            ) && *final(self) == *old(self),
            recording_of(*doc) is Some ==> outcome == Ok::<(), ReplayError>(()) && final(self)@
                == old(self)@.load(recording_of(*doc)->0),
            old(self).wf() ==> final(self).wf(),
    {
        match decode_recording(doc) {
            Some(events) => {
                self.current_events = events;
                self.current_index = 0;
                Ok(())
            },
            None => Err(ReplayError::MalformedDocument),
        }
    }

    /// Loads a persisted recording from the text of its document. Text that
    /// is no JSON, and a document that is malformed, are turned away with
    /// `MalformedDocument` and leave the state as it is.
    pub fn load_recording(&mut self, content: &str) -> (outcome: Result<(), ReplayError>)
        ensures
            loaded_events(content@) is None ==> outcome == Err::<(), ReplayError>(
                ReplayError::MalformedDocument,
            ) && *final(self) == *old(self),
            loaded_events(content@) is Some ==> outcome == Ok::<(), ReplayError>(())
                && final(self)@ == old(self)@.load(loaded_events(content@)->0),
            old(self).wf() ==> final(self).wf(),
    {
        match parse_json(content) {
            Some(doc) => self.load_document(&doc),
            None => Err(ReplayError::MalformedDocument),
        }
    }

    /// Whether the cursor is within the events and the speed is positive.
    pub fn is_well_formed(&self) -> (ok: bool)
        ensures
            ok == self.wf(),
    {
        self.current_index <= self.current_events.len() && self.speed_multiplier > 0
    }

    /// Begins to play from the first event at `speed` thousandths of the
    /// recorded pace. The speed must be positive: zero is turned away, the
    /// state stays as it is and the answer is `false`.
    pub fn start(&mut self, speed: u32) -> (started: bool)
        ensures
            started == (speed > 0),
            final(self)@ == old(self)@.start(speed),
            old(self).wf() ==> final(self).wf(),
    {
        if speed == 0 {
            false
        } else {
            self.is_playing = true;
            self.current_index = 0;
            self.speed_multiplier = speed;
            true
        }
    }

    /// Ends playing and puts the cursor back to the start.
    pub fn stop(&mut self)
        ensures
            final(self)@ == old(self)@.stop(),
            old(self).wf() ==> final(self).wf(),
    {
        self.is_playing = false;
        self.current_index = 0;
    }

    /// How much of the recording was handed out, in whole percent.
    pub fn get_progress(&self) -> (percent: u64)
        requires
            self.wf(),
        ensures
            percent == self@.progress(),
            percent <= 100,
    {
        let total = self.current_events.len();
        if total == 0 {
            0
        } else {
            let done: u128 = 100 * (self.current_index as u128) / (total as u128);
            assert(done <= 100) by (nonlinear_arith)
                requires
                    done == 100 * (self.current_index as int) / (total as int),
                    0 <= self.current_index <= total,
                    total > 0,
            ;
            done as u64
        }
    }

    /// Hands out the event under the cursor and moves the cursor on; `None`
    /// once all events were handed out. It neither waits nor schedules.
    pub fn get_next_event(&mut self) -> (event: Option<RecordedEvent>)
        ensures
            event == old(self)@.current(),
            final(self)@ == old(self)@.advance(),
            old(self).wf() ==> final(self).wf(),
    {
        if self.current_index < self.current_events.len() {
            let event = self.current_events[self.current_index];
            self.current_index += 1;
            Some(event)
        } else {
            None
        }
    }

    /// Checks `event` and turns it into the input unit to inject. Nothing is
    /// handed out for an event that fails a check, so such an event never
    /// reaches the operating system.
    pub fn execute_event(event: &RecordedEvent) -> (unit: Result<SyntheticInput, ReplayError>)
        ensures
            unit == synthesize(*event),
    {
        match event.event_type {
            EventType::MouseMove => {
                match (event.x, event.y) {
                    (Some(x), Some(y)) => {
                        if x < COORDINATE_MIN || x > COORDINATE_MAX || y < COORDINATE_MIN || y
                            > COORDINATE_MAX {
                            Err(ReplayError::InvalidCoordinates)
                        } else {
                            Ok(SyntheticInput::CursorPosition { x, y })
                        }
                    },
                    _ => Err(ReplayError::InvalidCoordinates),
                }
            },
            EventType::MouseDown { button } => Ok(
                SyntheticInput::Mouse { flags: button_flag(button, true), mouse_data: 0 },
            ),
            EventType::MouseUp { button } => Ok(
                SyntheticInput::Mouse { flags: button_flag(button, false), mouse_data: 0 },
            ),
            EventType::MouseWheel { delta } => Ok(
                SyntheticInput::Mouse { flags: MOUSEEVENTF_WHEEL, mouse_data: wheel_payload(delta) },
            ),
            EventType::KeyDown { vk_code } => {
                if vk_code > VK_CODE_MAX {
                    Err(ReplayError::InvalidKeyCode)
                } else {
                    Ok(SyntheticInput::Keyboard { vk: vk_code as u16, flags: 0 })
                }
            },
            EventType::KeyUp { vk_code } => {
                if vk_code > VK_CODE_MAX {
                    Err(ReplayError::InvalidKeyCode)
                } else {
                    Ok(SyntheticInput::Keyboard { vk: vk_code as u16, flags: KEYEVENTF_KEYUP })
                }
            },
        }
    }
}

impl SyntheticInput {
    /// A cursor position fits 16 bits and a key code is at most 255.
    pub open spec fn valid(self) -> bool {
        match self {
            SyntheticInput::CursorPosition { x, y } => coordinate_in_range(x)
                && coordinate_in_range(y),
            SyntheticInput::Mouse { .. } => true,
            SyntheticInput::Keyboard { vk, .. } => vk <= VK_CODE_MAX,
        }
    }
}

/// A document without a member `events`, or with one that is no array, holds
/// no recording, so loading it changes nothing.
pub proof fn lemma_missing_events_is_malformed(doc: JsonValue)
    requires
        !(field_of(doc, "events"@) matches Some(JsonValue::Array(_))),
    ensures
        recording_of(doc) is None,
{
}

/// What a recording holds is as long as its list of events and has each of
/// them at its place.
pub proof fn lemma_recording_keeps_order(doc: JsonValue, items: Vec<JsonValue>, i: int)
    requires
        field_of(doc, "events"@) == Some(JsonValue::Array(items)),
        all_events(items@),
        0 <= i < items@.len(),
    ensures
        recording_of(doc) is Some,
        recording_of(doc)->0.len() == items@.len(),
        Some(recording_of(doc)->0[i]) == event_of(items@[i]),
{
}

/// Asked again and again from the start, a replay of N events hands them out
/// in order: after `k` calls, `k` no more than N, the cursor is at `k`, the
/// progress is `100 * k / N`, and the next call gives event `k`, or `None`
/// once `k` is N.
pub proof fn lemma_replay_hands_out_in_order(p: Playback, k: nat)
    requires
        p.index == 0,
        k <= p.events.len(),
    ensures
        p.advance_by(k) == (Playback { index: k, ..p }),
        k < p.events.len() ==> p.advance_by(k).current() == Some(p.events[k as int]),
        k == p.events.len() ==> p.advance_by(k).current() is None,
        p.events.len() > 0 ==> p.advance_by(k).progress() == 100 * (k as int) / (p.events.len() as int),
        p.events.len() > 0 ==> p.advance_by(p.events.len()).progress() == 100,
        p.progress() == 0,
    decreases k,
{
    if k > 0 {
        lemma_replay_hands_out_in_order(p, (k - 1) as nat);
    }
    if p.events.len() > 0 {
        let n = p.events.len() as int;
        lemma_replay_hands_out_all(p);
        assert(100 * n / n == 100) by (nonlinear_arith)
            requires
                n > 0,
        ;
    }
}

/// After as many calls as there are events the cursor stands behind the last
/// one, and every further call gives `None` and changes nothing.
pub proof fn lemma_replay_hands_out_all(p: Playback)
    requires
        p.index == 0,
    ensures
        p.advance_by(p.events.len()) == (Playback { index: p.events.len(), ..p }),
        p.advance_by(p.events.len()).current() is None,
        p.advance_by(p.events.len()).advance() == p.advance_by(p.events.len()),
{
    lemma_advance_by_moves_cursor(p, p.events.len());
}

/// `k` calls from the start move the cursor to `k`.
pub proof fn lemma_advance_by_moves_cursor(p: Playback, k: nat)
    requires
        p.index == 0,
        k <= p.events.len(),
    ensures
        p.advance_by(k) == (Playback { index: k, ..p }),
    decreases k,
{
    if k > 0 {
        lemma_advance_by_moves_cursor(p, (k - 1) as nat);
    }
}

/// No event with a key code above 255, and no mouse move without a position or
/// with one outside the 16-bit range, gets through; whatever gets through is
/// valid.
pub proof fn lemma_only_valid_input_is_synthesized(event: RecordedEvent)
    ensures
        synthesize(event) is Ok ==> synthesize(event)->Ok_0.valid(),
        (event.event_type matches EventType::KeyDown { vk_code } && vk_code > 255) ==> synthesize(
            event,
        ) == Err::<SyntheticInput, ReplayError>(ReplayError::InvalidKeyCode),
        (event.event_type matches EventType::KeyUp { vk_code } && vk_code > 255) ==> synthesize(
            event,
        ) == Err::<SyntheticInput, ReplayError>(ReplayError::InvalidKeyCode),
        (event.event_type is MouseMove && !(event.x is Some && event.y is Some
            && coordinate_in_range(event.x->0) && coordinate_in_range(event.y->0))) ==> synthesize(
            event,
        ) == Err::<SyntheticInput, ReplayError>(ReplayError::InvalidCoordinates),
        !(synthesize(event) matches Err(ReplayError::SynthesisFailed)),
        !(synthesize(event) matches Err(ReplayError::MalformedDocument)),
{
}

/// The wheel delta that is injected is read back unchanged by the capture side.
pub proof fn lemma_wheel_round_trip(delta: i16)
    ensures
        0 <= wheel_payload_of(delta) <= u32::MAX,
        crate::hooks::wheel_delta_of(wheel_payload_of(delta) as u32) == delta,
{
}

/// Events in order of time are due in order of time, at any speed.
pub proof fn lemma_schedule_keeps_order(earlier: u64, later: u64, speed_permille: u32)
    requires
        earlier <= later,
        speed_permille > 0,
    ensures
        scheduled_time_of(earlier, speed_permille) <= scheduled_time_of(later, speed_permille),
{
    let a = earlier as int * 1000;
    let b = later as int * 1000;
    let d = speed_permille as int;
    assert(a / d <= b / d) by (nonlinear_arith)
        requires
            0 <= a <= b,
            d > 0,
    ;
}

} // verus!
