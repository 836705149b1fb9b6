//! Translation of raw windowing-system input into the events the UI runtime
//! consumes.
//!
//! The windowing system reports pointer frames, key presses and modifier
//! updates in its own vocabulary (kernel button codes, X keysyms, a struct of
//! modifier flags). This module decides, for each raw event, which UI event
//! it becomes — or that it is dropped, so unknown hardware event kinds never
//! crash the loop. Screen positions and scroll amounts ride along outside
//! these decisions and stay with the caller.

use vstd::prelude::*;
use vstd::string::StrSliceExecFns;

use crate::keymap::{key_of, Key};

verus! {

/// The modifier state the UI runtime is given with each pointer or key
/// event.
#[derive(Clone, Copy, Debug, PartialEq, Eq, Structural)]
pub struct Modifiers {
    pub alt: bool,
    pub ctrl: bool,
    pub shift: bool,
    pub mac_cmd: bool,
    pub command: bool,
}

/// Builds the UI runtime's modifier state from the flags the windowing
/// system reports. This is a Linux display protocol: there is no separate
/// macOS command key, so `mac_cmd` is always false and `command` follows the
/// control key.
pub fn modifiers_from_wayland(alt: bool, ctrl: bool, shift: bool) -> (r: Modifiers)
    ensures
        r == (Modifiers { alt, ctrl, shift, mac_cmd: false, command: ctrl }),
{
    Modifiers { alt, ctrl, shift, mac_cmd: false, command: ctrl }
}

/// A pointer button the UI runtime knows.
#[derive(Clone, Copy, Debug, PartialEq, Eq, Structural)]
pub enum PointerButton {
    Primary,
    Secondary,
    Middle,
    Extra1,
    Extra2,
}

/// Which UI button, if any, a kernel input button code stands for.
pub open spec fn button_of(code: u32) -> Option<PointerButton> {
    match code {
        0x110u32 => Some(PointerButton::Primary),
        0x111u32 => Some(PointerButton::Secondary),
        0x112u32 => Some(PointerButton::Middle),
        0x113u32 => Some(PointerButton::Extra1),
        0x114u32 => Some(PointerButton::Extra2),
        _ => None,
    }
}

/// Translates a kernel input button code; `None` for a button the UI runtime
/// has no name for (such events are dropped).
pub fn translate_button(code: u32) -> (r: Option<PointerButton>)
    ensures
        r == button_of(code),
{
    match code {
        0x110 => Some(PointerButton::Primary),
        0x111 => Some(PointerButton::Secondary),
        0x112 => Some(PointerButton::Middle),
        0x113 => Some(PointerButton::Extra1),
        0x114 => Some(PointerButton::Extra2),
        _ => None,
    }
}

/// The kind of one entry of a pointer frame, as the windowing system reports
/// it. Press and release carry the kernel button code; positions and scroll
/// amounts stay with the caller.
#[derive(Clone, Copy, Debug, PartialEq, Eq, Structural)]
pub enum PointerKind {
    Enter,
    Leave,
    Motion,
    Press { button: u32 },
    Release { button: u32 },
    Axis,
}

/// What the UI runtime is told about one pointer event.
#[derive(Clone, Copy, Debug, PartialEq, Eq, Structural)]
pub enum PointerAction {
    /// The pointer moved to the event's position (also used when it enters).
    Moved,
    /// The pointer left the surface.
    Gone,
    /// A named button went down or up at the event's position.
    Button { button: PointerButton, pressed: bool },
    /// The wheel scrolled by the event's axis amounts.
    Scroll,
}

/// The pointer translation as a mathematical function: which UI event one
/// pointer event kind becomes, or `None` where it is dropped (a press or
/// release of a button the UI runtime has no name for).
pub open spec fn pointer_action_of(kind: PointerKind) -> Option<PointerAction> {
    match kind {
        PointerKind::Enter => Some(PointerAction::Moved),
        PointerKind::Motion => Some(PointerAction::Moved),
        PointerKind::Leave => Some(PointerAction::Gone),
        PointerKind::Press { button } => match button_of(button) {
            Some(b) => Some(PointerAction::Button { button: b, pressed: true }),
            None => None,
        },
        PointerKind::Release { button } => match button_of(button) {
            Some(b) => Some(PointerAction::Button { button: b, pressed: false }),
            None => None,
        },
        PointerKind::Axis => Some(PointerAction::Scroll),
    }
}

/// Translates one entry of a pointer frame; `None` means the entry is
/// dropped.
pub fn translate_pointer(kind: PointerKind) -> (r: Option<PointerAction>)
    ensures
        r == pointer_action_of(kind),
{
    match kind {
        PointerKind::Enter => Some(PointerAction::Moved),
        PointerKind::Motion => Some(PointerAction::Moved),
        PointerKind::Leave => Some(PointerAction::Gone),
        PointerKind::Press { button } => match translate_button(button) {
            Some(b) => Some(PointerAction::Button { button: b, pressed: true }),
            None => None,
        },
        PointerKind::Release { button } => match translate_button(button) {
            Some(b) => Some(PointerAction::Button { button: b, pressed: false }),
            None => None,
        },
        PointerKind::Axis => Some(PointerAction::Scroll),
    }
}

/// Whether a character is forwarded as text input: anything outside the
/// Unicode private use areas that is not an ASCII control character.
pub open spec fn is_printable(c: char) -> bool {
    let u = c as u32;
    &&& !(0xe000 <= u <= 0xf8ff)
    &&& !(0xf0000 <= u <= 0xffffd)
    &&& !(0x100000 <= u <= 0x10fffd)
    &&& !(u < 0x20 || u == 0x7f)
}

/// Decides whether a character is forwarded as text input.
pub fn is_printable_char(chr: char) -> (r: bool)
    ensures
        r == is_printable(chr),
{
    let u = chr as u32;
    let in_private_use_area = (0xe000 <= u && u <= 0xf8ff) || (0xf0000 <= u && u <= 0xffffd)
        || (0x100000 <= u && u <= 0x10fffd);
    let is_control = u < 0x20 || u == 0x7f;
    !in_private_use_area && !is_control
}

/// Whether every character of a string is forwarded as text input.
pub open spec fn all_printable(s: Seq<char>) -> bool {
    forall|i: int| 0 <= i < s.len() ==> is_printable(s[i])
}

/// Decides whether a whole string is forwarded as text input: a string with
/// any unprintable character is dropped as a unit.
pub fn all_chars_printable(s: &str) -> (r: bool)
    ensures
        r == all_printable(s@),
{
    let len = s.unicode_len();
    let mut i: usize = 0;
    while i < len
        invariant
            0 <= i <= len,
            len == s@.len(),
            forall|j: int| 0 <= j < i ==> is_printable(s@[j]),
        decreases len - i,
    {
        let c = s.get_char(i);
        if !is_printable_char(c) {
            return false;
        }
        i = i + 1;
    }
    true
}

/// What the UI runtime is told about one key event, in the order the actions
/// must be delivered.
#[derive(Clone, Debug, PartialEq, Eq)]
pub enum KeyboardAction {
    /// A copy-to-clipboard command (control-C).
    Copy,
    /// A cut-to-clipboard command (control-X).
    Cut,
    /// A logical key went down or up.
    Key { key: Key, pressed: bool, modifiers: Modifiers },
    /// Committed text input.
    Text(String),
}

/// Which clipboard command, if any, a pressed key with the given control
/// state stands for. Pasting is not supported, so control-V maps to nothing
/// and falls through to an ordinary key event.
pub open spec fn clipboard_action(key: Key, ctrl: bool) -> Option<KeyboardAction> {
    if key == Key::C && ctrl {
        Some(KeyboardAction::Copy)
    } else if key == Key::X && ctrl {
        Some(KeyboardAction::Cut)
    } else {
        None
    }
}

/// Recognises the clipboard shortcuts among pressed keys.
pub fn clipboard_shortcut(key: Key, modifiers: Modifiers) -> (r: Option<KeyboardAction>)
    ensures
        r == clipboard_action(key, modifiers.ctrl),
{
    match (key, modifiers.ctrl) {
        (Key::C, true) => Some(KeyboardAction::Copy),
        (Key::X, true) => Some(KeyboardAction::Cut),
        _ => None,
    }
}

/// The key-press translation as a mathematical function: the actions, in
/// order, that one key event becomes.
///
/// A pressed key that is a clipboard shortcut becomes that command alone —
/// its committed text, if any, is swallowed. Any other recognised keysym
/// becomes a key action; a keysym outside the table contributes nothing.
/// Committed text follows when each of its characters is printable.
pub open spec fn key_press_actions_of(
    keysym: u32,
    pressed: bool,
    modifiers: Modifiers,
    utf8: Option<String>,
) -> Seq<KeyboardAction> {
    let text = match utf8 {
        Some(s) => if all_printable(s@) {
            seq![KeyboardAction::Text(s)]
        } else {
            Seq::empty()
        },
        None => Seq::empty(),
    };
    match key_of(keysym) {
        Some(key) => {
            if pressed && clipboard_action(key, modifiers.ctrl) is Some {
                seq![clipboard_action(key, modifiers.ctrl)->0]
            } else {
                seq![KeyboardAction::Key { key, pressed, modifiers }] + text
            }
        },
        None => text,
    }
}

/// Translates one key event into the actions handed to the UI runtime, in
/// delivery order.
pub fn handle_key_press(
    keysym: u32,
    pressed: bool,
    modifiers: Modifiers,
    utf8: Option<String>,
) -> (r: Vec<KeyboardAction>)
    ensures
        r@ == key_press_actions_of(keysym, pressed, modifiers, utf8),
{
    let mut actions: Vec<KeyboardAction> = Vec::new();
    if let Some(key) = crate::keymap::keysym_to_key(keysym) {
        if pressed {
            if let Some(command) = clipboard_shortcut(key, modifiers) {
                actions.push(command);
                return actions;
            }
        }
        actions.push(KeyboardAction::Key { key, pressed, modifiers });
    }
    if let Some(text) = utf8 {
        if all_chars_printable(text.as_str()) {
            actions.push(KeyboardAction::Text(text));
        }
    }
    actions
}

} // verus!
