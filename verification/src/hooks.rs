//! The capture side: turning raw notifications of the operating system into
//! events, and keeping the pair of global hooks installed all or nothing.
//!
//! Nothing here talks to the operating system. The caller owns the native
//! callbacks; it reads the notification, the clock and the cursor, and hands
//! the plain values in.

use vstd::prelude::*;
use crate::recording::{EventType, MouseButton, RecordedEvent, RecordingState, Session};

verus! {

pub const WM_KEYDOWN: u32 = 0x0100;

pub const WM_KEYUP: u32 = 0x0101;

pub const WM_MOUSEMOVE: u32 = 0x0200;

pub const WM_LBUTTONDOWN: u32 = 0x0201;

pub const WM_LBUTTONUP: u32 = 0x0202;

pub const WM_RBUTTONDOWN: u32 = 0x0204;

pub const WM_RBUTTONUP: u32 = 0x0205;

pub const WM_MBUTTONDOWN: u32 = 0x0207;

pub const WM_MBUTTONUP: u32 = 0x0208;

pub const WM_MOUSEWHEEL: u32 = 0x020A;

/// What a low-level mouse notification carries besides its message code.
#[derive(Clone, Copy, Debug, PartialEq, Eq, Structural)]
pub struct MousePayload {
    pub x: i32,
    pub y: i32,
    /// For a wheel message the high word holds the signed wheel delta.
    pub mouse_data: u32,
}

/// Where the cursor is, as a query of the operating system answers.
#[derive(Clone, Copy, Debug, PartialEq, Eq, Structural)]
pub struct CursorPosition {
    pub x: i32,
    pub y: i32,
}

/// The high word of `mouse_data`, read as a signed 16-bit number.
pub open spec fn wheel_delta_of(mouse_data: u32) -> int {
    let high = mouse_data as int / 0x1_0000;
    if high < 0x8000 {
        high
    } else {
        high - 0x1_0000
    }
}

/// The event that a mouse message stands for, if it stands for one.
pub open spec fn mouse_event_of(message: u32, mouse_data: u32) -> Option<EventType> {
    if message == WM_MOUSEMOVE {
        Some(EventType::MouseMove)
    } else if message == WM_LBUTTONDOWN {
        Some(EventType::MouseDown { button: MouseButton::Left })
    } else if message == WM_LBUTTONUP {
        Some(EventType::MouseUp { button: MouseButton::Left })
    } else if message == WM_RBUTTONDOWN {
        Some(EventType::MouseDown { button: MouseButton::Right })
    } else if message == WM_RBUTTONUP {
        Some(EventType::MouseUp { button: MouseButton::Right })
    } else if message == WM_MBUTTONDOWN {
        Some(EventType::MouseDown { button: MouseButton::Middle })
    } else if message == WM_MBUTTONUP {
        Some(EventType::MouseUp { button: MouseButton::Middle })
    } else if message == WM_MOUSEWHEEL {
        Some(EventType::MouseWheel { delta: wheel_delta_of(mouse_data) as i16 })
    } else {
        None
    }
}

/// The event that a keyboard message stands for, if it stands for one.
pub open spec fn key_event_of(message: u32, vk_code: u32) -> Option<EventType> {
    if message == WM_KEYDOWN {
        Some(EventType::KeyDown { vk_code })
    } else if message == WM_KEYUP {
        Some(EventType::KeyUp { vk_code })
    } else {
        None
    }
}

/// Reads the wheel delta out of the payload of a wheel message.
pub fn wheel_delta(mouse_data: u32) -> (delta: i16)
    ensures
        delta == wheel_delta_of(mouse_data),
{
    let high: u32 = mouse_data / 0x1_0000;
    if high < 0x8000 {
        high as i16
    } else {
        (high as i32 - 0x1_0000) as i16
    }
}

/// Classifies a mouse message. A code that stands for no recorded event gives `None`.
pub fn classify_mouse_message(message: u32, mouse_data: u32) -> (kind: Option<EventType>)
    ensures
        kind == mouse_event_of(message, mouse_data),
{
    if message == WM_MOUSEMOVE {
        Some(EventType::MouseMove)
    } else if message == WM_LBUTTONDOWN {
        Some(EventType::MouseDown { button: MouseButton::Left })
    } else if message == WM_LBUTTONUP {
        Some(EventType::MouseUp { button: MouseButton::Left })
    } else if message == WM_RBUTTONDOWN {
        Some(EventType::MouseDown { button: MouseButton::Right })
    } else if message == WM_RBUTTONUP {
        Some(EventType::MouseUp { button: MouseButton::Right })
    } else if message == WM_MBUTTONDOWN {
        Some(EventType::MouseDown { button: MouseButton::Middle })
    } else if message == WM_MBUTTONUP {
        Some(EventType::MouseUp { button: MouseButton::Middle })
    } else if message == WM_MOUSEWHEEL {
        Some(EventType::MouseWheel { delta: wheel_delta(mouse_data) })
    } else {
        None
    }
}

/// Classifies a keyboard message. A code that stands for no recorded event gives `None`.
pub fn classify_key_message(message: u32, vk_code: u32) -> (kind: Option<EventType>)
    ensures
        kind == key_event_of(message, vk_code),
{
    if message == WM_KEYDOWN {
        Some(EventType::KeyDown { vk_code })
    } else if message == WM_KEYUP {
        Some(EventType::KeyUp { vk_code })
    } else {
        None
    }
}

/// The event that a mouse notification adds to a running session, if any.
///
/// The position is the payload's; without a payload it is `cursor`, the answer
/// of a cursor query, which may be missing too. A negative `n_code` and an
/// unknown message add nothing.
pub open spec fn mouse_capture(
    s: Session,
    n_code: i32,
    message: u32,
    payload: Option<MousePayload>,
    cursor: Option<CursorPosition>,
    now_ms: u64,
) -> Option<RecordedEvent> {
    let mouse_data = if payload is Some { payload->0.mouse_data } else { 0u32 };
    let kind = mouse_event_of(message, mouse_data);
    if n_code < 0 || !s.is_recording || kind is None {
        None
    } else {
        let x = if payload is Some {
            Some(payload->0.x)
        } else if cursor is Some {
            Some(cursor->0.x)
        } else {
            None
        };
        let y = if payload is Some {
            Some(payload->0.y)
        } else if cursor is Some {
            Some(cursor->0.y)
        } else {
            None
        };
        Some(RecordedEvent { event_type: kind->0, x, y, time_offset_ms: s.offset_at(now_ms) })
    }
}

/// The event that a keyboard notification adds to a running session, if any.
/// Without a payload there is no key code, and nothing is added.
pub open spec fn keyboard_capture(
    s: Session,
    n_code: i32,
    message: u32,
    vk_code: Option<u32>,
    now_ms: u64,
) -> Option<RecordedEvent> {
    if n_code < 0 || !s.is_recording || vk_code is None || key_event_of(message, vk_code->0) is None {
        None
    } else {
        Some(
            RecordedEvent {
                event_type: key_event_of(message, vk_code->0)->0,
                x: None,
                y: None,
                time_offset_ms: s.offset_at(now_ms),
            },
        )
    }
}

/// `s` with `event` appended, or `s` itself for `None`.
pub open spec fn with_captured(s: Session, event: Option<RecordedEvent>) -> Session {
    if event is Some {
        s.add_event(event->0)
    } else {
        s
    }
}

/// The body of the mouse callback: records what the notification stands for.
/// It never fails and does a bounded amount of work: one append at most.
pub fn mouse_hook_proc(
    state: &mut RecordingState,
    n_code: i32,
    message: u32,
    payload: Option<MousePayload>,
    cursor: Option<CursorPosition>,
    now_ms: u64,
)
    ensures
        final(state)@ == with_captured(
            old(state)@,
            mouse_capture(old(state)@, n_code, message, payload, cursor, now_ms),
        ),
        old(state).wf() ==> final(state).wf(),
{
    if n_code >= 0 && state.is_recording {
        let time_offset_ms = state.offset_at(now_ms);
        let (x, y, mouse_data) = match payload {
            Some(p) => (Some(p.x), Some(p.y), p.mouse_data),
            None => match cursor {
                Some(c) => (Some(c.x), Some(c.y), 0u32),
                None => (None, None, 0u32),
            },
        };
        if let Some(event_type) = classify_mouse_message(message, mouse_data) {
            state.add_event(RecordedEvent { event_type, x, y, time_offset_ms });
        }
    }
}

/// The body of the keyboard callback: records what the notification stands for.
pub fn keyboard_hook_proc(
    state: &mut RecordingState,
    n_code: i32,
    message: u32,
    vk_code: Option<u32>,
    now_ms: u64,
)
    ensures
        final(state)@ == with_captured(
            old(state)@,
            keyboard_capture(old(state)@, n_code, message, vk_code, now_ms),
        ),
        old(state).wf() ==> final(state).wf(),
{
    if n_code >= 0 && state.is_recording {
        let time_offset_ms = state.offset_at(now_ms);
        if let Some(vk) = vk_code {
            if let Some(event_type) = classify_key_message(message, vk) {
                state.add_event(RecordedEvent { event_type, x: None, y: None, time_offset_ms });
            }
        }
    }
}

/// Whatever the callbacks are handed, the events stay in order of time.
pub proof fn lemma_capture_keeps_order(
    s: Session,
    n_code: i32,
    message: u32,
    payload: Option<MousePayload>,
    cursor: Option<CursorPosition>,
    vk_code: Option<u32>,
    now_ms: u64,
)
    requires
        s.wf(),
    ensures
        with_captured(s, mouse_capture(s, n_code, message, payload, cursor, now_ms)).wf(),
        with_captured(s, keyboard_capture(s, n_code, message, vk_code, now_ms)).wf(),
{
}

/// While no session runs the callbacks leave the state as it is.
pub proof fn lemma_idle_capture_is_noop(
    s: Session,
    n_code: i32,
    message: u32,
    payload: Option<MousePayload>,
    cursor: Option<CursorPosition>,
    vk_code: Option<u32>,
    now_ms: u64,
)
    requires
        !s.is_recording,
    ensures
        with_captured(s, mouse_capture(s, n_code, message, payload, cursor, now_ms)) == s,
        with_captured(s, keyboard_capture(s, n_code, message, vk_code, now_ms)) == s,
{
}

/// Why an attempt to install the hooks came to nothing.
#[derive(Clone, Copy, Debug, PartialEq, Eq, Structural)]
pub enum HookError {
    /// The hooks are installed, or an installation is under way.
    AlreadyInstalled,
    /// The operating system refused one of the two hooks.
    InstallFailed,
}

/// How far an installation has come.
#[derive(Clone, Copy, Debug, PartialEq, Eq, Structural)]
pub enum InstallPhase {
    /// No installation is under way.
    Idle,
    /// The mouse hook was asked for.
    AwaitingMouse,
    /// The mouse hook is held and the keyboard hook was asked for.
    AwaitingKeyboard,
}

/// What the operating system answered, as the caller reports it. A handle of
/// zero means that the hook was refused.
#[derive(Clone, Copy, Debug, PartialEq, Eq, Structural)]
pub enum InstallEvent {
    Requested,
    MouseHook(isize),
    KeyboardHook(isize),
}

/// What the caller has to do next.
#[derive(Clone, Copy, Debug, PartialEq, Eq, Structural)]
pub enum InstallAction {
    /// Ask for the mouse hook and report the handle as `MouseHook`.
    SetMouseHook,
    /// Ask for the keyboard hook and report the handle as `KeyboardHook`.
    SetKeyboardHook,
    /// Both hooks are held: the installation is done.
    Succeed,
    /// Nothing more to do: the attempt has failed.
    Fail(HookError),
    /// Remove the mouse hook with this handle; the attempt has then failed
    /// with `InstallFailed`.
    RollBack(isize),
}

impl InstallAction {
    /// How the installation has ended, for an action that ends it: with both
    /// hooks held, with the error of a failure, or, after a rollback, with
    /// `InstallFailed`. An action that asks for a hook ends nothing.
    pub open spec fn outcome(self) -> Option<Result<(), HookError>> {
        match self {
            InstallAction::SetMouseHook => None,
            InstallAction::SetKeyboardHook => None,
            InstallAction::Succeed => Some(Ok(())),
            InstallAction::Fail(error) => Some(Err(error)),
            InstallAction::RollBack(_) => Some(Err(HookError::InstallFailed)),
        }
    }
}

/// The native hooks that the process holds: the capability that `install_hooks`
/// builds up and `uninstall_hooks` gives back.
#[derive(Clone, Copy, Debug, PartialEq, Eq, Structural)]
pub struct HookSet {
    pub mouse: Option<isize>,
    pub keyboard: Option<isize>,
    pub phase: InstallPhase,
}

/// The handles that `uninstall_hooks` gave up, for the caller to release.
#[derive(Clone, Copy, Debug, PartialEq, Eq, Structural)]
pub struct Released {
    pub mouse: Option<isize>,
    pub keyboard: Option<isize>,
}

impl HookSet {
    /// Held handles are real ones, and outside an installation the hooks are
    /// held both or neither.
    pub open spec fn wf(self) -> bool {
        &&& self.mouse is Some ==> self.mouse->0 != 0
        &&& self.keyboard is Some ==> self.keyboard->0 != 0
        &&& self.phase is Idle ==> (self.mouse is Some <==> self.keyboard is Some)
        &&& self.phase is AwaitingMouse ==> self.mouse is None && self.keyboard is None
        &&& self.phase is AwaitingKeyboard ==> self.mouse is Some && self.keyboard is None
    }

    /// No hook held, no installation under way.
    pub open spec fn empty() -> HookSet {
        HookSet { mouse: None, keyboard: None, phase: InstallPhase::Idle }
    }

    /// Both hooks are held.
    pub open spec fn installed(self) -> bool {
        self.phase is Idle && self.mouse is Some && self.keyboard is Some
    }

    /// One step of an installation: the hooks after `event`, and what to do next.
    ///
    /// The mouse hook comes first. When the keyboard hook is refused the mouse
    /// hook is given up again. An answer that was not asked for fails the
    /// attempt and changes nothing.
    pub open spec fn install_step(self, event: InstallEvent) -> (HookSet, InstallAction) {
        match event {
            InstallEvent::Requested => {
                if self.phase is Idle && self.mouse is None && self.keyboard is None {
                    (
                        HookSet { phase: InstallPhase::AwaitingMouse, ..self },
                        InstallAction::SetMouseHook,
                    )
                } else {
                    (self, InstallAction::Fail(HookError::AlreadyInstalled))
                }
            },
            InstallEvent::MouseHook(handle) => {
                if !(self.phase is AwaitingMouse) {
                    (self, InstallAction::Fail(HookError::InstallFailed))
                } else if handle == 0 {
                    (HookSet::empty(), InstallAction::Fail(HookError::InstallFailed))
                } else {
                    (
                        HookSet {
                            mouse: Some(handle),
                            keyboard: None,
                            phase: InstallPhase::AwaitingKeyboard,
                        },
                        InstallAction::SetKeyboardHook,
                    )
                }
            },
            InstallEvent::KeyboardHook(handle) => {
                if !(self.phase is AwaitingKeyboard) || self.mouse is None {
                    (self, InstallAction::Fail(HookError::InstallFailed))
                } else if handle == 0 {
                    (HookSet::empty(), InstallAction::RollBack(self.mouse->0))
                } else {
                    (
                        HookSet {
                            mouse: self.mouse,
                            keyboard: Some(handle),
                            phase: InstallPhase::Idle,
                        },
                        InstallAction::Succeed,
                    )
                }
            },
        }
    }

    /// The handles that are given up when the hooks are uninstalled.
    pub open spec fn held(self) -> Released {
        Released { mouse: self.mouse, keyboard: self.keyboard }
    }

    /// A set that holds nothing.
    pub fn new() -> (hooks: HookSet)
        ensures
            hooks == HookSet::empty(),
            hooks.wf(),
    {
        HookSet { mouse: None, keyboard: None, phase: InstallPhase::Idle }
    }
}

/// Takes an installation one step further. The caller starts with
/// `Requested`, does what the returned action says and reports the answer of
/// the operating system, until the action is `Succeed`, `Fail` or `RollBack`.
pub fn install_hooks(hooks: &mut HookSet, event: InstallEvent) -> (action: InstallAction)
    ensures
        *final(hooks) == old(hooks).install_step(event).0,
        action == old(hooks).install_step(event).1,
        old(hooks).wf() ==> final(hooks).wf(),
{
    match event {
        InstallEvent::Requested => {
            let idle = match hooks.phase {
                InstallPhase::Idle => true,
                _ => false,
            };
            if idle && hooks.mouse.is_none() && hooks.keyboard.is_none() {
                hooks.phase = InstallPhase::AwaitingMouse;
                InstallAction::SetMouseHook
            } else {
                InstallAction::Fail(HookError::AlreadyInstalled)
            }
        },
        InstallEvent::MouseHook(handle) => {
            match hooks.phase {
                InstallPhase::AwaitingMouse => {
                    if handle == 0 {
                        *hooks = HookSet::new();
                        InstallAction::Fail(HookError::InstallFailed)
                    } else {
                        hooks.mouse = Some(handle);
                        hooks.keyboard = None;
                        hooks.phase = InstallPhase::AwaitingKeyboard;
                        InstallAction::SetKeyboardHook
                    }
                },
                _ => InstallAction::Fail(HookError::InstallFailed),
            }
        },
        InstallEvent::KeyboardHook(handle) => {
            match (hooks.phase, hooks.mouse) {
                (InstallPhase::AwaitingKeyboard, Some(mouse)) => {
                    if handle == 0 {
                        *hooks = HookSet::new();
                        InstallAction::RollBack(mouse)
                    } else {
                        hooks.keyboard = Some(handle);
                        hooks.phase = InstallPhase::Idle;
                        InstallAction::Succeed
                    }
                },
                _ => InstallAction::Fail(HookError::InstallFailed),
            }
        },
    }
}

/// Says how the installation has ended, once the caller has done what
/// `action` asks; `None` while it is still under way.
pub fn install_outcome(action: InstallAction) -> (outcome: Option<Result<(), HookError>>)
    ensures
        outcome == action.outcome(),
{
    match action {
        InstallAction::SetMouseHook => None,
        InstallAction::SetKeyboardHook => None,
        InstallAction::Succeed => Some(Ok(())),
        InstallAction::Fail(error) => Some(Err(error)),
        InstallAction::RollBack(_) => Some(Err(HookError::InstallFailed)),
    }
}

/// Gives up whichever hooks are held and hands their handles to the caller,
/// who releases them. With nothing held it gives nothing: calling it again is
/// harmless.
pub fn uninstall_hooks(hooks: &mut HookSet) -> (released: Released)
    ensures
        *final(hooks) == HookSet::empty(),
        released == old(hooks).held(),
{
    let released = Released { mouse: hooks.mouse, keyboard: hooks.keyboard };
    *hooks = HookSet::new();
    released
}

/// Uninstalling is idempotent: what is left after it holds nothing, so that
/// uninstalling again gives up nothing; and it leaves the way free for a new
/// installation.
pub proof fn lemma_uninstall_is_idempotent()
    ensures
        HookSet::empty().held() == (Released { mouse: None, keyboard: None }),
        HookSet::empty().wf(),
        HookSet::empty().install_step(InstallEvent::Requested).1 == InstallAction::SetMouseHook,
{
}

/// Installation is all or nothing: after any step, unless an installation is
/// still under way, both hooks are held or neither is.
pub proof fn lemma_install_all_or_nothing(hooks: HookSet, event: InstallEvent)
    requires
        hooks.wf(),
    ensures
        hooks.install_step(event).0.wf(),
        hooks.install_step(event).1 is Succeed ==> hooks.install_step(event).0.installed(),
        hooks.install_step(event).1 is RollBack ==> hooks.install_step(event).0 == HookSet::empty(),
        hooks.install_step(event).1 is Fail ==> hooks.install_step(event).0 == hooks
            || hooks.install_step(event).0 == HookSet::empty(),
        hooks.install_step(event).1.outcome() == Some(Ok::<(), HookError>(()))
            <==> hooks.install_step(event).1 is Succeed,
        hooks.install_step(event).1.outcome() == Some(Ok::<(), HookError>(()))
            ==> hooks.install_step(event).0.installed(),
{
}

/// From nothing, two accepted hooks give an installed set; a refused mouse hook
/// fails at once, and a refused keyboard hook rolls the mouse hook back. Either
/// refusal ends the installation with `InstallFailed` and nothing held.
pub proof fn lemma_install_runs(mouse: isize, keyboard: isize)
    ensures
        ({
            let s1 = HookSet::empty().install_step(InstallEvent::Requested);
            let s2 = s1.0.install_step(InstallEvent::MouseHook(mouse));
            let s3 = s2.0.install_step(InstallEvent::KeyboardHook(keyboard));
            &&& s1.1 == InstallAction::SetMouseHook
            &&& mouse == 0 ==> s2.1 == InstallAction::Fail(HookError::InstallFailed) && s2.0
                == HookSet::empty()
            &&& mouse != 0 ==> s2.1 == InstallAction::SetKeyboardHook
            &&& mouse != 0 && keyboard == 0 ==> s3.1 == InstallAction::RollBack(mouse) && s3.0
                == HookSet::empty()
            &&& mouse != 0 && keyboard != 0 ==> s3.1 == InstallAction::Succeed && s3.0.installed()
                && s3.0.mouse == Some(mouse) && s3.0.keyboard == Some(keyboard)
            &&& s1.1.outcome() is None
            &&& mouse == 0 ==> s2.1.outcome() == Some(Err::<(), HookError>(HookError::InstallFailed))
            &&& mouse != 0 ==> s2.1.outcome() is None
            &&& mouse != 0 && keyboard == 0 ==> s3.1.outcome() == Some(
                Err::<(), HookError>(HookError::InstallFailed),
            )
            &&& mouse != 0 && keyboard != 0 ==> s3.1.outcome() == Some(Ok::<(), HookError>(()))
        }),
{
}

/// Asking again while the hooks are held, or while they are being installed,
/// fails with `AlreadyInstalled` and changes nothing.
pub proof fn lemma_second_install_is_refused(hooks: HookSet)
    requires
        hooks.wf(),
        hooks != HookSet::empty(),
    ensures
        hooks.install_step(InstallEvent::Requested) == (
            hooks,
            InstallAction::Fail(HookError::AlreadyInstalled),
        ),
        hooks.install_step(InstallEvent::Requested).1.outcome() == Some(
            Err::<(), HookError>(HookError::AlreadyInstalled),
        ),
{
}

} // verus!
