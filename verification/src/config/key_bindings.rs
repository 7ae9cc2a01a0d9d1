//! The actions that key bindings name, and the keys that they name.

use crate::shell::element::stack::{Direction, FocusDirection};
use crate::shell::element::window::ResizeEdge;
use crate::text;
use crate::text::{is_word, str_eq, to_chars};
use vstd::prelude::*;

verus! {

/// Whether a key is held.
#[derive(Clone, Copy, Debug, PartialEq, Eq, Structural)]
pub enum KeyState {
    Released,
    Pressed,
}

/// Whether a window is made larger or smaller.
#[derive(Clone, Copy, Debug, PartialEq, Eq, Structural)]
pub enum ResizeDirection {
    Inwards,
    Outwards,
}

/// An action that a key binding can ask for.
#[derive(Clone, Copy, Debug, PartialEq, Eq, Structural)]
pub enum Action {
    /// Behaviour of the compositor alone.
    Private(PrivateAction),
    /// Behaviour that shortcuts of the desktop share.
    Shortcut(Shortcut),
}

/// Behaviour of the compositor alone.
#[derive(Clone, Copy, Debug, PartialEq, Eq, Structural)]
pub enum PrivateAction {
    Escape,
    Resizing(ResizeDirection, ResizeEdge, KeyState),
    /// Show, hide or cycle the scratchpad.
    ScratchpadToggle,
    /// Move the focused window to the scratchpad.
    ScratchpadMove,
    /// Show one window of the workspace alone.
    ToggleMonocle,
}

/// The shortcuts of the desktop that can be named.
#[derive(Clone, Copy, Debug, PartialEq, Eq, Structural)]
pub enum Shortcut {
    ToggleTiling,
    ToggleWindowFloating,
    Focus(FocusDirection),
    Move(Direction),
    Fullscreen,
    SwapWindow,
    NextWorkspace,
    PreviousWorkspace,
    Close,
    Maximize,
    Minimize,
}

/// The action with the given name.
pub open spec fn action_named(s: Seq<char>) -> Option<Action> {
    if s == "toggle_tiling"@ {
        Some(Action::Shortcut(Shortcut::ToggleTiling))
    } else if s == "toggle_window_floating"@ {
        Some(Action::Shortcut(Shortcut::ToggleWindowFloating))
    } else if s == "focus_left"@ {
        Some(Action::Shortcut(Shortcut::Focus(FocusDirection::Left)))
    } else if s == "focus_right"@ {
        Some(Action::Shortcut(Shortcut::Focus(FocusDirection::Right)))
    } else if s == "focus_up"@ {
        Some(Action::Shortcut(Shortcut::Focus(FocusDirection::Up)))
    } else if s == "focus_down"@ {
        Some(Action::Shortcut(Shortcut::Focus(FocusDirection::Down)))
    } else if s == "move_left"@ {
        Some(Action::Shortcut(Shortcut::Move(Direction::Left)))
    } else if s == "move_right"@ {
        Some(Action::Shortcut(Shortcut::Move(Direction::Right)))
    } else if s == "move_up"@ {
        Some(Action::Shortcut(Shortcut::Move(Direction::Up)))
    } else if s == "move_down"@ {
        Some(Action::Shortcut(Shortcut::Move(Direction::Down)))
    } else if s == "resize_shrink_width"@ {
        Some(Action::Private(PrivateAction::Resizing(ResizeDirection::Inwards, ResizeEdge::Right, KeyState::Pressed)))
    } else if s == "resize_grow_width"@ {
        Some(Action::Private(PrivateAction::Resizing(ResizeDirection::Outwards, ResizeEdge::Right, KeyState::Pressed)))
    } else if s == "resize_shrink_height"@ {
        Some(Action::Private(PrivateAction::Resizing(ResizeDirection::Inwards, ResizeEdge::Bottom, KeyState::Pressed)))
    } else if s == "resize_grow_height"@ {
        Some(Action::Private(PrivateAction::Resizing(ResizeDirection::Outwards, ResizeEdge::Bottom, KeyState::Pressed)))
    } else if s == "fullscreen"@ || s == "toggle_fullscreen"@ {
        Some(Action::Shortcut(Shortcut::Fullscreen))
    } else if s == "swap_window"@ {
        Some(Action::Shortcut(Shortcut::SwapWindow))
    } else if s == "workspace_next"@ {
        Some(Action::Shortcut(Shortcut::NextWorkspace))
    } else if s == "workspace_prev"@ {
        Some(Action::Shortcut(Shortcut::PreviousWorkspace))
    } else if s == "close_window"@ {
        Some(Action::Shortcut(Shortcut::Close))
    } else if s == "maximize"@ || s == "toggle_maximize"@ {
        Some(Action::Shortcut(Shortcut::Maximize))
    } else if s == "minimize"@ {
        Some(Action::Shortcut(Shortcut::Minimize))
    } else if s == "scratchpad_toggle"@ {
        Some(Action::Private(PrivateAction::ScratchpadToggle))
    } else if s == "scratchpad_move"@ {
        Some(Action::Private(PrivateAction::ScratchpadMove))
    } else if s == "toggle_monocle"@ {
        Some(Action::Private(PrivateAction::ToggleMonocle))
    } else {
        None
    }
}

/// The action with the given name; `None` where there is no such action.
pub fn action_from_str(s: &str) -> (r: Option<Action>)
    ensures
        r == action_named(s@),
{
    if str_eq(s, "toggle_tiling") {
        Some(Action::Shortcut(Shortcut::ToggleTiling))
    } else if str_eq(s, "toggle_window_floating") {
        Some(Action::Shortcut(Shortcut::ToggleWindowFloating))
    } else if str_eq(s, "focus_left") {
        Some(Action::Shortcut(Shortcut::Focus(FocusDirection::Left)))
    } else if str_eq(s, "focus_right") {
        Some(Action::Shortcut(Shortcut::Focus(FocusDirection::Right)))
    } else if str_eq(s, "focus_up") {
        Some(Action::Shortcut(Shortcut::Focus(FocusDirection::Up)))
    } else if str_eq(s, "focus_down") {
        Some(Action::Shortcut(Shortcut::Focus(FocusDirection::Down)))
    } else if str_eq(s, "move_left") {
        Some(Action::Shortcut(Shortcut::Move(Direction::Left)))
    } else if str_eq(s, "move_right") {
        Some(Action::Shortcut(Shortcut::Move(Direction::Right)))
    } else if str_eq(s, "move_up") {
        Some(Action::Shortcut(Shortcut::Move(Direction::Up)))
    } else if str_eq(s, "move_down") {
        Some(Action::Shortcut(Shortcut::Move(Direction::Down)))
    } else if str_eq(s, "resize_shrink_width") {
        Some(Action::Private(PrivateAction::Resizing(ResizeDirection::Inwards, ResizeEdge::Right, KeyState::Pressed)))
    } else if str_eq(s, "resize_grow_width") {
        Some(Action::Private(PrivateAction::Resizing(ResizeDirection::Outwards, ResizeEdge::Right, KeyState::Pressed)))
    } else if str_eq(s, "resize_shrink_height") {
        Some(Action::Private(PrivateAction::Resizing(ResizeDirection::Inwards, ResizeEdge::Bottom, KeyState::Pressed)))
    } else if str_eq(s, "resize_grow_height") {
        Some(Action::Private(PrivateAction::Resizing(ResizeDirection::Outwards, ResizeEdge::Bottom, KeyState::Pressed)))
    } else if str_eq(s, "fullscreen") || str_eq(s, "toggle_fullscreen") {
        Some(Action::Shortcut(Shortcut::Fullscreen))
    } else if str_eq(s, "swap_window") {
        Some(Action::Shortcut(Shortcut::SwapWindow))
    } else if str_eq(s, "workspace_next") {
        Some(Action::Shortcut(Shortcut::NextWorkspace))
    } else if str_eq(s, "workspace_prev") {
        Some(Action::Shortcut(Shortcut::PreviousWorkspace))
    } else if str_eq(s, "close_window") {
        Some(Action::Shortcut(Shortcut::Close))
    } else if str_eq(s, "maximize") || str_eq(s, "toggle_maximize") {
        Some(Action::Shortcut(Shortcut::Maximize))
    } else if str_eq(s, "minimize") {
        Some(Action::Shortcut(Shortcut::Minimize))
    } else if str_eq(s, "scratchpad_toggle") {
        Some(Action::Private(PrivateAction::ScratchpadToggle))
    } else if str_eq(s, "scratchpad_move") {
        Some(Action::Private(PrivateAction::ScratchpadMove))
    } else if str_eq(s, "toggle_monocle") {
        Some(Action::Private(PrivateAction::ToggleMonocle))
    } else {
        None
    }
}

/// A key symbol.
#[derive(Clone, Copy, Debug, PartialEq, Eq, Structural)]
pub struct Keysym {
    /// Its number in the keyboard protocol.
    pub raw: u32,
}

/// Whether `c` is a letter of ASCII.
pub open spec fn is_letter(c: char) -> bool {
    'a' <= c <= 'z' || 'A' <= c <= 'Z'
}

/// The key symbol of a key that is known by a name, in lowercase.
pub open spec fn named_key(key: Seq<char>) -> Option<Keysym> {
    if text::lowercases_to(key, "space"@) {
        Some(Keysym { raw: 0x20 })
    } else if text::lowercases_to(key, "return"@) || text::lowercases_to(key, "enter"@) {
        Some(Keysym { raw: 0xff0d })
    } else if text::lowercases_to(key, "tab"@) {
        Some(Keysym { raw: 0xff09 })
    } else if text::lowercases_to(key, "escape"@) || text::lowercases_to(key, "esc"@) {
        Some(Keysym { raw: 0xff1b })
    } else if text::lowercases_to(key, "backspace"@) {
        Some(Keysym { raw: 0xff08 })
    } else if text::lowercases_to(key, "delete"@) || text::lowercases_to(key, "del"@) {
        Some(Keysym { raw: 0xffff })
    } else if text::lowercases_to(key, "minus"@) {
        Some(Keysym { raw: 0x2d })
    } else if text::lowercases_to(key, "plus"@) || text::lowercases_to(key, "equal"@) {
        Some(Keysym { raw: 0x3d })
    } else if text::lowercases_to(key, "bracketleft"@) {
        Some(Keysym { raw: 0x5b })
    } else if text::lowercases_to(key, "bracketright"@) {
        Some(Keysym { raw: 0x5d })
    } else if text::lowercases_to(key, "semicolon"@) {
        Some(Keysym { raw: 0x3b })
    } else if text::lowercases_to(key, "comma"@) {
        Some(Keysym { raw: 0x2c })
    } else if text::lowercases_to(key, "period"@) {
        Some(Keysym { raw: 0x2e })
    } else if text::lowercases_to(key, "slash"@) {
        Some(Keysym { raw: 0x2f })
    } else if text::lowercases_to(key, "backslash"@) {
        Some(Keysym { raw: 0x5c })
    } else if text::lowercases_to(key, "left"@) {
        Some(Keysym { raw: 0xff51 })
    } else if text::lowercases_to(key, "right"@) {
        Some(Keysym { raw: 0xff53 })
    } else if text::lowercases_to(key, "up"@) {
        Some(Keysym { raw: 0xff52 })
    } else if text::lowercases_to(key, "down"@) {
        Some(Keysym { raw: 0xff54 })
    } else if text::lowercases_to(key, "home"@) {
        Some(Keysym { raw: 0xff50 })
    } else if text::lowercases_to(key, "end"@) {
        Some(Keysym { raw: 0xff57 })
    } else if text::lowercases_to(key, "pageup"@) || text::lowercases_to(key, "page_up"@) {
        Some(Keysym { raw: 0xff55 })
    } else if text::lowercases_to(key, "pagedown"@) || text::lowercases_to(key, "page_down"@) {
        Some(Keysym { raw: 0xff56 })
    } else if text::lowercases_to(key, "f1"@) {
        Some(Keysym { raw: 0xffbe })
    } else if text::lowercases_to(key, "f2"@) {
        Some(Keysym { raw: 0xffbf })
    } else if text::lowercases_to(key, "f3"@) {
        Some(Keysym { raw: 0xffc0 })
    } else if text::lowercases_to(key, "f4"@) {
        Some(Keysym { raw: 0xffc1 })
    } else if text::lowercases_to(key, "f5"@) {
        Some(Keysym { raw: 0xffc2 })
    } else if text::lowercases_to(key, "f6"@) {
        Some(Keysym { raw: 0xffc3 })
    } else if text::lowercases_to(key, "f7"@) {
        Some(Keysym { raw: 0xffc4 })
    } else if text::lowercases_to(key, "f8"@) {
        Some(Keysym { raw: 0xffc5 })
    } else if text::lowercases_to(key, "f9"@) {
        Some(Keysym { raw: 0xffc6 })
    } else if text::lowercases_to(key, "f10"@) {
        Some(Keysym { raw: 0xffc7 })
    } else if text::lowercases_to(key, "f11"@) {
        Some(Keysym { raw: 0xffc8 })
    } else if text::lowercases_to(key, "f12"@) {
        Some(Keysym { raw: 0xffc9 })
    } else {
        None
    }
}

/// The key symbol of the given key: a letter stands for itself in lowercase, a digit for itself,
/// and other keys have names, which may be written in upper or lower case.
pub open spec fn keysym_named(key: Seq<char>) -> Option<Keysym> {
    if key.len() == 1 && is_letter(key[0]) {
        Some(Keysym { raw: text::ascii_lower(key[0]) as u32 })
    } else if key.len() == 1 && '0' <= key[0] <= '9' {
        Some(Keysym { raw: key[0] as u32 })
    } else {
        named_key(key)
    }
}

/// The key symbol of a key that is known by a name.
fn named_keysym(key: &str) -> (r: Option<Keysym>)
    ensures
        r == named_key(key@),
{
    if is_word(key, "space") {
        Some(Keysym { raw: 0x20 })
    } else if is_word(key, "return") || is_word(key, "enter") {
        Some(Keysym { raw: 0xff0d })
    } else if is_word(key, "tab") {
        Some(Keysym { raw: 0xff09 })
    } else if is_word(key, "escape") || is_word(key, "esc") {
        Some(Keysym { raw: 0xff1b })
    } else if is_word(key, "backspace") {
        Some(Keysym { raw: 0xff08 })
    } else if is_word(key, "delete") || is_word(key, "del") {
        Some(Keysym { raw: 0xffff })
    } else if is_word(key, "minus") {
        Some(Keysym { raw: 0x2d })
    } else if is_word(key, "plus") || is_word(key, "equal") {
        Some(Keysym { raw: 0x3d })
    } else if is_word(key, "bracketleft") {
        Some(Keysym { raw: 0x5b })
    } else if is_word(key, "bracketright") {
        Some(Keysym { raw: 0x5d })
    } else if is_word(key, "semicolon") {
        Some(Keysym { raw: 0x3b })
    } else if is_word(key, "comma") {
        Some(Keysym { raw: 0x2c })
    } else if is_word(key, "period") {
        Some(Keysym { raw: 0x2e })
    } else if is_word(key, "slash") {
        Some(Keysym { raw: 0x2f })
    } else if is_word(key, "backslash") {
        Some(Keysym { raw: 0x5c })
    } else if is_word(key, "left") {
        Some(Keysym { raw: 0xff51 })
    } else if is_word(key, "right") {
        Some(Keysym { raw: 0xff53 })
    } else if is_word(key, "up") {
        Some(Keysym { raw: 0xff52 })
    } else if is_word(key, "down") {
        Some(Keysym { raw: 0xff54 })
    } else if is_word(key, "home") {
        Some(Keysym { raw: 0xff50 })
    } else if is_word(key, "end") {
        Some(Keysym { raw: 0xff57 })
    } else if is_word(key, "pageup") || is_word(key, "page_up") {
        Some(Keysym { raw: 0xff55 })
    } else if is_word(key, "pagedown") || is_word(key, "page_down") {
        Some(Keysym { raw: 0xff56 })
    } else if is_word(key, "f1") {
        Some(Keysym { raw: 0xffbe })
    } else if is_word(key, "f2") {
        Some(Keysym { raw: 0xffbf })
    } else if is_word(key, "f3") {
        Some(Keysym { raw: 0xffc0 })
    } else if is_word(key, "f4") {
        Some(Keysym { raw: 0xffc1 })
    } else if is_word(key, "f5") {
        Some(Keysym { raw: 0xffc2 })
    } else if is_word(key, "f6") {
        Some(Keysym { raw: 0xffc3 })
    } else if is_word(key, "f7") {
        Some(Keysym { raw: 0xffc4 })
    } else if is_word(key, "f8") {
        Some(Keysym { raw: 0xffc5 })
    } else if is_word(key, "f9") {
        Some(Keysym { raw: 0xffc6 })
    } else if is_word(key, "f10") {
        Some(Keysym { raw: 0xffc7 })
    } else if is_word(key, "f11") {
        Some(Keysym { raw: 0xffc8 })
    } else if is_word(key, "f12") {
        Some(Keysym { raw: 0xffc9 })
    } else {
        None
    }
}

/// The key symbol of the given key; `None` where there is no such key.
pub fn keysym_from_str(key: &str) -> (r: Option<Keysym>)
    ensures
        r == keysym_named(key@),
{
    let chars: Vec<char> = to_chars(key);
    if chars.len() == 1 {
        let c: char = chars[0];
        if ('a' <= c && c <= 'z') || ('0' <= c && c <= '9') {
            return Some(Keysym { raw: c as u32 });
        }
        if 'A' <= c && c <= 'Z' {
            let lower: char = text::to_ascii_lower(c);
            return Some(Keysym { raw: lower as u32 });
        }
    }
    named_keysym(key)
}

/// The modifiers that the keyboard reports as held.
#[derive(Clone, Copy, Debug, PartialEq, Eq, Structural)]
pub struct ModifiersState {
    pub ctrl: bool,
    pub alt: bool,
    pub shift: bool,
    pub caps_lock: bool,
    pub logo: bool,
    pub num_lock: bool,
    pub iso_level3_shift: bool,
    pub iso_level5_shift: bool,
}

/// The modifiers of a shortcut.
#[derive(Clone, Copy, Debug, PartialEq, Eq, Structural)]
pub struct Modifiers {
    pub ctrl: bool,
    pub alt: bool,
    pub shift: bool,
    pub logo: bool,
}

/// The modifiers of a shortcut that are held.
pub open spec fn shortcut_modifiers(value: ModifiersState) -> Modifiers {
    Modifiers { ctrl: value.ctrl, alt: value.alt, shift: value.shift, logo: value.logo }
}

/// Whether just the modifiers of a shortcut are held; locks and level shifts do not matter.
pub fn cosmic_modifiers_eq_smithay(this: &Modifiers, other: &ModifiersState) -> (r: bool)
    ensures
        r == (*this == shortcut_modifiers(*other)),
{
    this.ctrl == other.ctrl && this.alt == other.alt && this.shift == other.shift && this.logo
        == other.logo
}

/// The modifiers of a shortcut that are held.
pub fn cosmic_modifiers_from_smithay(value: ModifiersState) -> (r: Modifiers)
    ensures
        r == shortcut_modifiers(value),
{
    Modifiers { ctrl: value.ctrl, alt: value.alt, shift: value.shift, logo: value.logo }
}

/// Whether a key is held, as input devices report it.
#[derive(Clone, Copy, Debug, PartialEq, Eq, Structural)]
pub enum InputKeyState {
    Released,
    Pressed,
}

/// The state of a key as input devices report it.
pub open spec fn reported_state(value: KeyState) -> InputKeyState {
    match value {
        KeyState::Pressed => InputKeyState::Pressed,
        KeyState::Released => InputKeyState::Released,
    }
}

/// The state of a key as shortcuts use it, turned into that of input devices.
pub fn cosmic_keystate_to_smithay(value: KeyState) -> (r: InputKeyState)
    ensures
        r == reported_state(value),
{
    match value {
        KeyState::Pressed => InputKeyState::Pressed,
        KeyState::Released => InputKeyState::Released,
    }
}

/// The state of a key as input devices report it, turned into that of shortcuts.
pub fn cosmic_keystate_from_smithay(value: InputKeyState) -> (r: KeyState)
    ensures
        reported_state(r) == value,
{
    match value {
        InputKeyState::Pressed => KeyState::Pressed,
        InputKeyState::Released => KeyState::Released,
    }
}

/// The distance from the code that the kernel gives a key to the one that the keyboard protocol
/// gives it.
pub const KEYCODE_OFFSET: u32 = 8;

/// A key that is pressed or released.
#[derive(Clone, Copy, Debug, PartialEq, Eq, Structural)]
pub struct KeyEvent {
    /// The code of the key in the keyboard protocol.
    pub keycode: u32,
    pub state: InputKeyState,
}

/// The events that change the state of a lock, such as Num Lock: its key, given by the code that
/// the kernel gives it, is pressed and then released.
pub fn change_modifier_state(scan_code: u32) -> (r: (KeyEvent, KeyEvent))
    requires
        scan_code + KEYCODE_OFFSET <= u32::MAX,
    ensures
        r.0 == (KeyEvent {
            keycode: (scan_code + KEYCODE_OFFSET) as u32,
            state: InputKeyState::Pressed,
        }),
        r.1 == (KeyEvent {
            keycode: (scan_code + KEYCODE_OFFSET) as u32,
            state: InputKeyState::Released,
        }),
{
    let keycode: u32 = scan_code + KEYCODE_OFFSET;
    (
        KeyEvent { keycode, state: InputKeyState::Pressed },
        KeyEvent { keycode, state: InputKeyState::Released },
    )
}

/// A key may be written in upper or lower case: both name the same key symbol.
pub proof fn keys_are_named_in_any_case(key: Seq<char>)
    ensures
        keysym_named(key.map_values(|c: char| text::ascii_lower(c))) == keysym_named(key),
{
    let lower = key.map_values(|c: char| text::ascii_lower(c));
    assert forall|word: Seq<char>| #[trigger]
        text::lowercases_to(lower, word) == text::lowercases_to(key, word) by {
        assert forall|i: int| 0 <= i < key.len() implies text::fold_char(#[trigger] lower[i])
            == text::fold_char(key[i]) by {}
        if text::lowercases_to(lower, word) {
            assert forall|i: int| 0 <= i < key.len() implies text::fold_char(#[trigger] key[i])
                == word[i] by {
                assert(text::fold_char(lower[i]) == word[i]);
            }
        }
    }
    if key.len() == 1 {
        assert(lower[0] == text::ascii_lower(key[0]));
    }
}

} // verus!
