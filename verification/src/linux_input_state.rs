//! Which modifier keys are held. Keyboards and mice are separate devices, so
//! the keyboard listener notes the modifiers for the mouse listener here.

use crate::keys::{VK_CONTROL, VK_MENU, VK_SHIFT};
use vstd::prelude::*;

verus! {

/// The modifiers, each with the state of the key event seen last for it.
#[derive(Clone, Copy, Debug, PartialEq, Eq, Structural)]
pub struct ModifierState {
    pub shift: bool,
    pub ctrl: bool,
    pub alt: bool,
}

impl ModifierState {
    /// The modifier with virtual key `vk` is held; no other key ever is.
    pub open spec fn held(self, vk: u16) -> bool {
        if vk == VK_SHIFT {
            self.shift
        } else if vk == VK_CONTROL {
            self.ctrl
        } else if vk == VK_MENU {
            self.alt
        } else {
            false
        }
    }

    /// The state after a key event.
    pub open spec fn after_key(self, code: u16, pressed: bool) -> ModifierState {
        match modifier_of(code) {
            Some(vk) => if vk == VK_SHIFT {
                ModifierState { shift: pressed, ..self }
            } else if vk == VK_CONTROL {
                ModifierState { ctrl: pressed, ..self }
            } else {
                ModifierState { alt: pressed, ..self }
            },
            None => self,
        }
    }

    /// No modifier is held.
    pub fn new() -> (state: ModifierState)
        ensures
            state == (ModifierState { shift: false, ctrl: false, alt: false }),
    {
        ModifierState { shift: false, ctrl: false, alt: false }
    }
}

/// The virtual key of the modifier behind a kernel key code: left and right
/// shift, control and alt.
pub open spec fn modifier_of(code: u16) -> Option<u16> {
    if code == 42 || code == 54 {
        Some(VK_SHIFT)
    } else if code == 29 || code == 97 {
        Some(VK_CONTROL)
    } else if code == 56 || code == 100 {
        Some(VK_MENU)
    } else {
        None
    }
}

/// Whether the modifier with virtual key `vk` is held.
pub fn modifier_held(state: &ModifierState, vk: u16) -> (held: bool)
    ensures
        held == state.held(vk),
{
    match vk {
        VK_SHIFT => state.shift,
        VK_CONTROL => state.ctrl,
        VK_MENU => state.alt,
        _ => false,
    }
}

pub fn modifier_vk_for_evdev(code: u16) -> (vk: Option<u16>)
    ensures
        vk == modifier_of(code),
{
    match code {
        42 | 54 => Some(VK_SHIFT),
        29 | 97 => Some(VK_CONTROL),
        56 | 100 => Some(VK_MENU),
        _ => None,
    }
}

/// Notes a key event. Keys that are no modifier change nothing.
pub fn set_modifier_state(state: &mut ModifierState, code: u16, pressed: bool)
    ensures
        *final(state) == old(state).after_key(code, pressed),
{
    match modifier_vk_for_evdev(code) {
        Some(VK_SHIFT) => {
            state.shift = pressed;
        },
        Some(VK_CONTROL) => {
            state.ctrl = pressed;
        },
        Some(VK_MENU) => {
            state.alt = pressed;
        },
        _ => {},
    }
}

/// A key event sets the state of its own modifier, on whichever side of the
/// keyboard the key lies, and of no other.
pub proof fn law_key_event_sets_its_modifier(
    state: ModifierState,
    code: u16,
    pressed: bool,
    vk: u16,
)
    ensures
        state.after_key(code, pressed).held(vk) == if modifier_of(code) == Some(vk) {
            pressed
        } else {
            state.held(vk)
        },
{
}

/// The keys behind the modifiers: left and right shift are keys 42 and 54, left
/// and right control 29 and 97, left and right alt 56 and 100. No other key is
/// a modifier.
pub proof fn law_keys_of_the_modifiers(code: u16)
    ensures
        modifier_of(code) == Some(0x10u16) <==> code == 42 || code == 54,
        modifier_of(code) == Some(0x11u16) <==> code == 29 || code == 97,
        modifier_of(code) == Some(0x12u16) <==> code == 56 || code == 100,
        modifier_of(code) is None <==> code != 42 && code != 54 && code != 29 && code != 97 && code != 56
            && code != 100,
{
}

/// Shift, control and alt are held as noted for them; nothing else is held.
pub proof fn law_held_modifiers(state: ModifierState, vk: u16)
    ensures
        state.held(vk) <==> (vk == 0x10 && state.shift) || (vk == 0x11 && state.ctrl) || (vk == 0x12
            && state.alt),
{
}

} // verus!
