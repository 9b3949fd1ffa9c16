//! The global Alt+Space hotkey: recognising its message, and keeping track of
//! whether it is registered.
//!
//! Registering is done by the caller; this module decides when a request goes
//! out and what its answer means.

use vstd::prelude::*;

verus! {

/// The message that the operating system posts when a hotkey is pressed.
pub const WM_HOTKEY: u32 = 0x0312;

/// The modifier flag of the Alt key.
pub const MOD_ALT: u32 = 0x0001;

/// The identifier under which Alt+Space is registered.
pub const HOTKEY_ID_ALT_SPACE: i32 = 1;

/// The virtual key code of the space bar.
pub const VK_SPACE: u32 = 0x20;

/// Whether a window message reports that Alt+Space was pressed.
pub fn is_hotkey_message(msg: u32, wparam: isize) -> (hit: bool)
    ensures
        hit == (msg == WM_HOTKEY && wparam == HOTKEY_ID_ALT_SPACE),
{
    msg == WM_HOTKEY && wparam == 1
}

/// Why a change of the registration failed.
#[derive(Clone, Copy, Debug, PartialEq, Eq, Structural)]
pub enum HotkeyError {
    RegisterFailed,
    UnregisterFailed,
}

/// What the caller reports: that a change is wanted, or what the operating
/// system answered to the request that went out. Zero is a refusal.
#[derive(Clone, Copy, Debug, PartialEq, Eq, Structural)]
pub enum HotkeyEvent {
    Requested,
    Answered(i32),
}

/// What the caller has to do next.
#[derive(Clone, Copy, Debug, PartialEq, Eq, Structural)]
pub enum HotkeyAction {
    /// Nothing more: the hotkey is in the state that was asked for.
    Done,
    /// Register the hotkey `id` for `vk` with `modifiers`, and report the answer.
    Register { id: i32, modifiers: u32, vk: u32 },
    /// Give up the hotkey `id`, and report the answer.
    Unregister { id: i32 },
    /// Nothing more: the change has failed.
    Fail(HotkeyError),
}

/// Whether the hotkey is registered.
#[derive(Clone, Copy, Debug, PartialEq, Eq, Structural)]
pub struct HotkeyState {
    pub registered: bool,
}

impl HotkeyState {
    /// One step of registering: a request goes out only while the hotkey is
    /// not registered, and only an answer other than zero registers it.
    pub open spec fn register_step(self, event: HotkeyEvent) -> (HotkeyState, HotkeyAction) {
        match event {
            HotkeyEvent::Requested => if self.registered {
                (self, HotkeyAction::Done)
            } else {
                (
                    self,
                    HotkeyAction::Register {
                        id: HOTKEY_ID_ALT_SPACE,
                        modifiers: MOD_ALT,
                        vk: VK_SPACE,
                    },
                )
            },
            HotkeyEvent::Answered(answer) => if answer == 0 {
                (self, HotkeyAction::Fail(HotkeyError::RegisterFailed))
            } else {
                (HotkeyState { registered: true }, HotkeyAction::Done)
            },
        }
    }

    /// One step of giving the hotkey up: a request goes out only while the
    /// hotkey is registered, and only an answer other than zero ends that.
    pub open spec fn unregister_step(self, event: HotkeyEvent) -> (HotkeyState, HotkeyAction) {
        match event {
            HotkeyEvent::Requested => if !self.registered {
                (self, HotkeyAction::Done)
            } else {
                (self, HotkeyAction::Unregister { id: HOTKEY_ID_ALT_SPACE })
            },
            HotkeyEvent::Answered(answer) => if answer == 0 {
                (self, HotkeyAction::Fail(HotkeyError::UnregisterFailed))
            } else {
                (HotkeyState { registered: false }, HotkeyAction::Done)
            },
        }
    }

    /// No hotkey is registered.
    pub fn new() -> (state: HotkeyState)
        ensures
            !state.registered,
    {
        HotkeyState { registered: false }
    }
}

/// Takes the registration of Alt+Space one step further.
pub fn register_hotkeys(state: &mut HotkeyState, event: HotkeyEvent) -> (action: HotkeyAction)
    ensures
        (*final(state), action) == old(state).register_step(event),
{
    match event {
        HotkeyEvent::Requested => {
            if state.registered {
                HotkeyAction::Done
            } else {
                HotkeyAction::Register {
                    id: HOTKEY_ID_ALT_SPACE,
                    modifiers: MOD_ALT,
                    vk: VK_SPACE,
                }
            }
        },
        HotkeyEvent::Answered(answer) => {
            if answer == 0 {
                HotkeyAction::Fail(HotkeyError::RegisterFailed)
            } else {
                state.registered = true;
                HotkeyAction::Done
            }
        },
    }
}

/// Takes the giving up of Alt+Space one step further.
pub fn unregister_hotkeys(state: &mut HotkeyState, event: HotkeyEvent) -> (action: HotkeyAction)
    ensures
        (*final(state), action) == old(state).unregister_step(event),
{
    match event {
        HotkeyEvent::Requested => {
            if !state.registered {
                HotkeyAction::Done
            } else {
                HotkeyAction::Unregister { id: HOTKEY_ID_ALT_SPACE }
            }
        },
        HotkeyEvent::Answered(answer) => {
            if answer == 0 {
                HotkeyAction::Fail(HotkeyError::UnregisterFailed)
            } else {
                state.registered = false;
                HotkeyAction::Done
            }
        },
    }
}

impl HotkeyError {
    /// The error in words.
    pub fn message(&self) -> (text: &'static str)
        ensures
            *self is RegisterFailed ==> text@ == "Failed to register Alt+Space hotkey"@,
            *self is UnregisterFailed ==> text@ == "Failed to unregister hotkey"@,
    {
        match self {
            HotkeyError::RegisterFailed => "Failed to register Alt+Space hotkey",
            HotkeyError::UnregisterFailed => "Failed to unregister hotkey",
        }
    }
}

/// A request goes out only when it would change something: registering what
/// is registered, and giving up what is not, are done at once.
pub proof fn lemma_hotkey_requests_are_idempotent(state: HotkeyState)
    ensures
        state.registered ==> state.register_step(HotkeyEvent::Requested) == (
            state,
            HotkeyAction::Done,
        ),
        !state.registered ==> state.unregister_step(HotkeyEvent::Requested) == (
            state,
            HotkeyAction::Done,
        ),
{
}

} // verus!
