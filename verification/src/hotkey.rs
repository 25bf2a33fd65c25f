//! Global hotkeys: which keys are registered, how a message from the
//! system's queue is handled, and what each hotkey asks of the app.
//!
//! Registering the keys and pumping the message queue on a dedicated thread
//! is the application's part.

use vstd::prelude::*;

verus! {

/// Hotkey ID: Ctrl+Shift+Space, toggle window visibility.
pub const HOTKEY_SHOW_HIDE: i32 = 1;

/// Hotkey ID: Ctrl+Shift+V, paste the first phrase.
pub const HOTKEY_PASTE_RECENT: i32 = 2;

/// Virtual-key code for Space.
pub const VK_SPACE: u32 = 0x20;

/// Virtual-key code for V.
pub const VK_V: u32 = 0x56;

/// Modifier flag: Control.
pub const MOD_CONTROL: u32 = 0x0002;

/// Modifier flag: Shift.
pub const MOD_SHIFT: u32 = 0x0004;

/// The message that the system posts when a registered hotkey is pressed.
pub const WM_HOTKEY: u32 = 0x0312;

/// One global hotkey to register.
#[derive(Debug, Clone, Copy, PartialEq, Eq, Structural)]
pub struct HotkeyBinding {
    /// The ID that the system reports when the hotkey is pressed.
    pub id: i32,
    /// Modifier flags.
    pub modifiers: u32,
    /// Virtual-key code.
    pub vk: u32,
}

/// The modifiers of both hotkeys: Control and Shift.
pub fn hotkey_modifiers() -> (m: u32)
    ensures
        m == MOD_CONTROL | MOD_SHIFT,
{
    MOD_CONTROL | MOD_SHIFT
}

/// The two hotkeys, in the order in which they are registered:
/// Ctrl+Shift+Space to show or hide, Ctrl+Shift+V to paste.
pub fn hotkey_bindings() -> (b: Vec<HotkeyBinding>)
    ensures
        b@ == seq![
            HotkeyBinding { id: HOTKEY_SHOW_HIDE, modifiers: MOD_CONTROL | MOD_SHIFT, vk: VK_SPACE },
            HotkeyBinding { id: HOTKEY_PASTE_RECENT, modifiers: MOD_CONTROL | MOD_SHIFT, vk: VK_V },
        ],
{
    let mods = hotkey_modifiers();
    let mut b: Vec<HotkeyBinding> = Vec::new();
    b.push(HotkeyBinding { id: HOTKEY_SHOW_HIDE, modifiers: mods, vk: VK_SPACE });
    b.push(HotkeyBinding { id: HOTKEY_PASTE_RECENT, modifiers: mods, vk: VK_V });
    assert(b@ =~= seq![
        HotkeyBinding { id: HOTKEY_SHOW_HIDE, modifiers: MOD_CONTROL | MOD_SHIFT, vk: VK_SPACE },
        HotkeyBinding { id: HOTKEY_PASTE_RECENT, modifiers: MOD_CONTROL | MOD_SHIFT, vk: VK_V },
    ]);
    b
}

/// What a hotkey asks of the app.
#[derive(Debug, Clone, Copy, PartialEq, Eq, Structural)]
pub enum HotkeyAction {
    /// Show or hide the window.
    ToggleWindow,
    /// Paste the first phrase.
    PasteMostRecent,
}

/// The action of a hotkey ID; unknown IDs ask for nothing.
pub fn hotkey_action(id: i32) -> (a: Option<HotkeyAction>)
    ensures
        id == HOTKEY_SHOW_HIDE ==> a == Some(HotkeyAction::ToggleWindow),
        id == HOTKEY_PASTE_RECENT ==> a == Some(HotkeyAction::PasteMostRecent),
        id != HOTKEY_SHOW_HIDE && id != HOTKEY_PASTE_RECENT ==> a == None::<HotkeyAction>,
{
    if id == HOTKEY_SHOW_HIDE {
        Some(HotkeyAction::ToggleWindow)
    } else if id == HOTKEY_PASTE_RECENT {
        Some(HotkeyAction::PasteMostRecent)
    } else {
        None
    }
}

/// What the listener does with one answer of the message queue.
#[derive(Debug, Clone, Copy, PartialEq, Eq, Structural)]
pub enum PumpStep {
    /// The queue was closed (quit message) or failed: stop listening.
    Stop,
    /// A hotkey was pressed: forward its ID.
    Forward(i32),
    /// Some other message: keep listening.
    Skip,
}

/// Handles one answer of the message queue: a return value `ret` of zero
/// (quit) or below (error) stops the listener, a hotkey message forwards its
/// ID (the low 32 bits of `wparam`), anything else is skipped.
pub fn pump_step(ret: i32, message: u32, wparam: usize) -> (s: PumpStep)
    ensures
        ret <= 0 ==> s == PumpStep::Stop,
        ret > 0 && message == WM_HOTKEY ==> s == PumpStep::Forward(wparam as i32),
        ret > 0 && message != WM_HOTKEY ==> s == PumpStep::Skip,
{
    if ret <= 0 {
        PumpStep::Stop
    } else if message == WM_HOTKEY {
        PumpStep::Forward(wparam as i32)
    } else {
        PumpStep::Skip
    }
}

} // verus!
