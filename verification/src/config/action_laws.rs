//! Which actions and keys have which names.

use crate::config::key_bindings;
use crate::config::key_bindings::{
    Action, InputKeyState, KeyState, Keysym, ModifiersState, PrivateAction, ResizeDirection, Shortcut,
};
use crate::shell::element::stack::{Direction, FocusDirection};
use crate::shell::element::window::ResizeEdge;
use crate::text;
use vstd::prelude::*;

verus! {

/// The names of actions differ.
proof fn lemma_action_names_differ()
    ensures
        "focus_left"@ != "focus_down"@,
        "focus_left"@ != "move_right"@,
        "focus_down"@ != "move_right"@,
        "move_left"@ != "move_down"@,
        "focus_left"@ != "fullscreen"@,
        "focus_down"@ != "fullscreen"@,
        "move_right"@ != "fullscreen"@,
        "resize_grow_width"@ != "toggle_fullscreen"@,
        "focus_right"@ != "swap_window"@,
        "workspace_next"@ != "workspace_prev"@,
        "focus_up"@ != "maximize"@,
        "focus_up"@ != "minimize"@,
        "maximize"@ != "minimize"@,
        "resize_grow_width"@ != "scratchpad_toggle"@,
        "toggle_fullscreen"@ != "scratchpad_toggle"@,
        "toggle_maximize"@ != "scratchpad_move"@,
        "workspace_next"@ != "toggle_monocle"@,
        "workspace_prev"@ != "toggle_monocle"@,
        "focus_left"@.len() == 10,
        "focus_right"@.len() == 11,
        "focus_up"@.len() == 8,
        "focus_down"@.len() == 10,
        "move_left"@.len() == 9,
        "move_right"@.len() == 10,
        "move_up"@.len() == 7,
        "move_down"@.len() == 9,
        "toggle_tiling"@.len() == 13,
        "toggle_window_floating"@.len() == 22,
        "resize_shrink_width"@.len() == 19,
        "resize_grow_width"@.len() == 17,
        "resize_shrink_height"@.len() == 20,
        "resize_grow_height"@.len() == 18,
        "fullscreen"@.len() == 10,
        "toggle_fullscreen"@.len() == 17,
        "swap_window"@.len() == 11,
        "workspace_next"@.len() == 14,
        "workspace_prev"@.len() == 14,
        "close_window"@.len() == 12,
        "maximize"@.len() == 8,
        "toggle_maximize"@.len() == 15,
        "minimize"@.len() == 8,
        "scratchpad_toggle"@.len() == 17,
        "scratchpad_move"@.len() == 15,
        "toggle_monocle"@.len() == 14,
{
    reveal_strlit("focus_left");
    reveal_strlit("focus_right");
    reveal_strlit("focus_up");
    reveal_strlit("focus_down");
    reveal_strlit("move_left");
    reveal_strlit("move_right");
    reveal_strlit("move_up");
    reveal_strlit("move_down");
    reveal_strlit("toggle_tiling");
    reveal_strlit("toggle_window_floating");
    reveal_strlit("resize_shrink_width");
    reveal_strlit("resize_grow_width");
    reveal_strlit("resize_shrink_height");
    reveal_strlit("resize_grow_height");
    reveal_strlit("fullscreen");
    reveal_strlit("toggle_fullscreen");
    reveal_strlit("swap_window");
    reveal_strlit("workspace_next");
    reveal_strlit("workspace_prev");
    reveal_strlit("close_window");
    reveal_strlit("maximize");
    reveal_strlit("toggle_maximize");
    reveal_strlit("minimize");
    reveal_strlit("scratchpad_toggle");
    reveal_strlit("scratchpad_move");
    reveal_strlit("toggle_monocle");
    assert("focus_left"@[6] != "focus_down"@[6]);
    assert("focus_left"@[0] != "move_right"@[0]);
    assert("focus_down"@[0] != "move_right"@[0]);
    assert("move_left"@[5] != "move_down"@[5]);
    assert("focus_left"@[1] != "fullscreen"@[1]);
    assert("focus_down"@[1] != "fullscreen"@[1]);
    assert("move_right"@[0] != "fullscreen"@[0]);
    assert("resize_grow_width"@[0] != "toggle_fullscreen"@[0]);
    assert("focus_right"@[0] != "swap_window"@[0]);
    assert("workspace_next"@[10] != "workspace_prev"@[10]);
    assert("focus_up"@[0] != "maximize"@[0]);
    assert("focus_up"@[0] != "minimize"@[0]);
    assert("maximize"@[1] != "minimize"@[1]);
    assert("resize_grow_width"@[0] != "scratchpad_toggle"@[0]);
    assert("toggle_fullscreen"@[0] != "scratchpad_toggle"@[0]);
    assert("toggle_maximize"@[0] != "scratchpad_move"@[0]);
    assert("workspace_next"@[0] != "toggle_monocle"@[0]);
    assert("workspace_prev"@[0] != "toggle_monocle"@[0]);
}

/// The name of a direction.
pub open spec fn direction_name(direction: Direction) -> Seq<char> {
    match direction {
        Direction::Left => "left"@,
        Direction::Right => "right"@,
        Direction::Up => "up"@,
        Direction::Down => "down"@,
    }
}

/// The focus moves, and windows are moved, in the direction that the action names.
pub proof fn directions_are_named(direction: Direction)
    ensures
        key_bindings::action_named("focus_"@ + direction_name(direction)) == Some(
            Action::Shortcut(
                Shortcut::Focus(
                    match direction {
                        Direction::Left => FocusDirection::Left,
                        Direction::Right => FocusDirection::Right,
                        Direction::Up => FocusDirection::Up,
                        Direction::Down => FocusDirection::Down,
                    },
                ),
            ),
        ),
        key_bindings::action_named("move_"@ + direction_name(direction)) == Some(
            Action::Shortcut(Shortcut::Move(direction)),
        ),
{
    reveal_strlit("focus_");
    reveal_strlit("move_");
    reveal_strlit("left");
    reveal_strlit("right");
    reveal_strlit("up");
    reveal_strlit("down");
    reveal_strlit("focus_left");
    reveal_strlit("focus_right");
    reveal_strlit("focus_up");
    reveal_strlit("focus_down");
    reveal_strlit("move_left");
    reveal_strlit("move_right");
    reveal_strlit("move_up");
    reveal_strlit("move_down");
    lemma_action_names_differ();
    match direction {
        Direction::Left => {
            assert("focus_"@ + "left"@ =~= "focus_left"@);
            assert("move_"@ + "left"@ =~= "move_left"@);
        },
        Direction::Right => {
            assert("focus_"@ + "right"@ =~= "focus_right"@);
            assert("move_"@ + "right"@ =~= "move_right"@);
        },
        Direction::Up => {
            assert("focus_"@ + "up"@ =~= "focus_up"@);
            assert("move_"@ + "up"@ =~= "move_up"@);
        },
        Direction::Down => {
            assert("focus_"@ + "down"@ =~= "focus_down"@);
            assert("move_"@ + "down"@ =~= "move_down"@);
        },
    }
}

/// Windows are resized at the right for their width and at the bottom for their height, inwards
/// to shrink and outwards to grow.
pub proof fn resizing_is_named(inwards: bool, width: bool)
    ensures
        key_bindings::action_named(
            "resize_"@ + (if inwards {
                "shrink_"@
            } else {
                "grow_"@
            }) + (if width {
                "width"@
            } else {
                "height"@
            }),
        ) == Some(
            Action::Private(
                PrivateAction::Resizing(
                    if inwards {
                        ResizeDirection::Inwards
                    } else {
                        ResizeDirection::Outwards
                    },
                    if width {
                        ResizeEdge::Right
                    } else {
                        ResizeEdge::Bottom
                    },
                    KeyState::Pressed,
                ),
            ),
        ),
{
    reveal_strlit("resize_");
    reveal_strlit("shrink_");
    reveal_strlit("grow_");
    reveal_strlit("width");
    reveal_strlit("height");
    reveal_strlit("resize_shrink_width");
    reveal_strlit("resize_grow_width");
    reveal_strlit("resize_shrink_height");
    reveal_strlit("resize_grow_height");
    lemma_action_names_differ();
    assert("resize_"@ + "shrink_"@ + "width"@ =~= "resize_shrink_width"@);
    assert("resize_"@ + "grow_"@ + "width"@ =~= "resize_grow_width"@);
    assert("resize_"@ + "shrink_"@ + "height"@ =~= "resize_shrink_height"@);
    assert("resize_"@ + "grow_"@ + "height"@ =~= "resize_grow_height"@);
}

/// The other actions are known by their names, two of them by two.
pub proof fn actions_are_known_by_their_names(name: Seq<char>, action: Action)
    requires
        !(action matches Action::Shortcut(Shortcut::Focus(_))),
        !(action matches Action::Shortcut(Shortcut::Move(_))),
        !(action matches Action::Private(PrivateAction::Resizing(_, _, _))),
    ensures
        key_bindings::action_named(name) == Some(action) <==> match action {
            Action::Shortcut(Shortcut::ToggleTiling) => name == "toggle_tiling"@,
            Action::Shortcut(Shortcut::ToggleWindowFloating) => name == "toggle_window_floating"@,
            Action::Shortcut(Shortcut::Fullscreen) => name == "fullscreen"@ || name == "toggle_fullscreen"@,
            Action::Shortcut(Shortcut::SwapWindow) => name == "swap_window"@,
            Action::Shortcut(Shortcut::NextWorkspace) => name == "workspace_next"@,
            Action::Shortcut(Shortcut::PreviousWorkspace) => name == "workspace_prev"@,
            Action::Shortcut(Shortcut::Close) => name == "close_window"@,
            Action::Shortcut(Shortcut::Maximize) => name == "maximize"@ || name == "toggle_maximize"@,
            Action::Shortcut(Shortcut::Minimize) => name == "minimize"@,
            Action::Private(PrivateAction::ScratchpadToggle) => name == "scratchpad_toggle"@,
            Action::Private(PrivateAction::ScratchpadMove) => name == "scratchpad_move"@,
            Action::Private(PrivateAction::ToggleMonocle) => name == "toggle_monocle"@,
            _ => false,
        },
{
    lemma_action_names_differ();
}

/// A letter stands for its small letter and a digit for itself.
pub proof fn letters_and_digits_stand_for_themselves(key: Seq<char>)
    requires
        key.len() == 1,
    ensures
        'a' <= key[0] <= 'z' ==> key_bindings::keysym_named(key) == Some(
            Keysym { raw: key[0] as u32 },
        ),
        'A' <= key[0] <= 'Z' ==> key_bindings::keysym_named(key) == Some(
            Keysym { raw: ((key[0] as u32) + 32) as u32 },
        ),
        '0' <= key[0] <= '9' ==> key_bindings::keysym_named(key) == Some(
            Keysym { raw: key[0] as u32 },
        ),
        !('a' <= key[0] <= 'z') && !('A' <= key[0] <= 'Z') && !('0' <= key[0] <= '9')
            ==> key_bindings::keysym_named(key) is None,
{
    lemma_named_keys();
}

/// The characters of the names of keys.
proof fn lemma_named_keys()
    ensures
        "space"@.len() == 5,
        "return"@.len() == 6,
        "enter"@.len() == 5,
        "tab"@.len() == 3,
        "escape"@.len() == 6,
        "esc"@.len() == 3,
        "backspace"@.len() == 9,
        "delete"@.len() == 6,
        "del"@.len() == 3,
        "minus"@.len() == 5,
        "plus"@.len() == 4,
        "equal"@.len() == 5,
        "bracketleft"@.len() == 11,
        "bracketright"@.len() == 12,
        "semicolon"@.len() == 9,
        "comma"@.len() == 5,
        "period"@.len() == 6,
        "slash"@.len() == 5,
        "backslash"@.len() == 9,
        "left"@.len() == 4,
        "right"@.len() == 5,
        "up"@.len() == 2,
        "down"@.len() == 4,
        "home"@.len() == 4,
        "end"@.len() == 3,
        "pageup"@.len() == 6,
        "page_up"@.len() == 7,
        "pagedown"@.len() == 8,
        "page_down"@.len() == 9,
        "f1"@.len() == 2,
        "f2"@.len() == 2,
        "f3"@.len() == 2,
        "f4"@.len() == 2,
        "f5"@.len() == 2,
        "f6"@.len() == 2,
        "f7"@.len() == 2,
        "f8"@.len() == 2,
        "f9"@.len() == 2,
        "f10"@.len() == 3,
        "f11"@.len() == 3,
        "f12"@.len() == 3,
{
    reveal_strlit("space");
    reveal_strlit("return");
    reveal_strlit("enter");
    reveal_strlit("tab");
    reveal_strlit("escape");
    reveal_strlit("esc");
    reveal_strlit("backspace");
    reveal_strlit("delete");
    reveal_strlit("del");
    reveal_strlit("minus");
    reveal_strlit("plus");
    reveal_strlit("equal");
    reveal_strlit("bracketleft");
    reveal_strlit("bracketright");
    reveal_strlit("semicolon");
    reveal_strlit("comma");
    reveal_strlit("period");
    reveal_strlit("slash");
    reveal_strlit("backslash");
    reveal_strlit("left");
    reveal_strlit("right");
    reveal_strlit("up");
    reveal_strlit("down");
    reveal_strlit("home");
    reveal_strlit("end");
    reveal_strlit("pageup");
    reveal_strlit("page_up");
    reveal_strlit("pagedown");
    reveal_strlit("page_down");
    reveal_strlit("f1");
    reveal_strlit("f2");
    reveal_strlit("f3");
    reveal_strlit("f4");
    reveal_strlit("f5");
    reveal_strlit("f6");
    reveal_strlit("f7");
    reveal_strlit("f8");
    reveal_strlit("f9");
    reveal_strlit("f10");
    reveal_strlit("f11");
    reveal_strlit("f12");
}

/// The function keys from F1 to F12 have numbers in a row.
pub proof fn function_keys_are_in_a_row(key: Seq<char>, n: int)
    requires
        1 <= n <= 12,
        key.len() == if n < 10 {
            2int
        } else {
            3int
        },
        key[0] == 'f' || key[0] == 'F',
        n < 10 ==> key[1] as u32 == 48 + n,
        n >= 10 ==> key[1] == '1' && key[2] as u32 == 38 + n,
    ensures
        key_bindings::keysym_named(key) == Some(Keysym { raw: (0xffbd + n) as u32 }),
{
    lemma_named_keys();
    reveal_strlit("up");
    reveal_strlit("esc");
    reveal_strlit("tab");
    reveal_strlit("del");
    reveal_strlit("end");
    reveal_strlit("f1");
    text::words_are_known_in_any_case(key, "f1"@);
    reveal_strlit("f2");
    text::words_are_known_in_any_case(key, "f2"@);
    reveal_strlit("f3");
    text::words_are_known_in_any_case(key, "f3"@);
    reveal_strlit("f4");
    text::words_are_known_in_any_case(key, "f4"@);
    reveal_strlit("f5");
    text::words_are_known_in_any_case(key, "f5"@);
    reveal_strlit("f6");
    text::words_are_known_in_any_case(key, "f6"@);
    reveal_strlit("f7");
    text::words_are_known_in_any_case(key, "f7"@);
    reveal_strlit("f8");
    text::words_are_known_in_any_case(key, "f8"@);
    reveal_strlit("f9");
    text::words_are_known_in_any_case(key, "f9"@);
    reveal_strlit("f10");
    text::words_are_known_in_any_case(key, "f10"@);
    reveal_strlit("f11");
    text::words_are_known_in_any_case(key, "f11"@);
    reveal_strlit("f12");
    text::words_are_known_in_any_case(key, "f12"@);
    text::words_are_known_in_any_case(key, "up"@);
    text::words_are_known_in_any_case(key, "esc"@);
    text::words_are_known_in_any_case(key, "tab"@);
    text::words_are_known_in_any_case(key, "del"@);
    text::words_are_known_in_any_case(key, "end"@);
    assert(text::lowercases_to(key, "f1"@) <==> n == 1);
    assert(text::lowercases_to(key, "f2"@) <==> n == 2);
    assert(text::lowercases_to(key, "f3"@) <==> n == 3);
    assert(text::lowercases_to(key, "f4"@) <==> n == 4);
    assert(text::lowercases_to(key, "f5"@) <==> n == 5);
    assert(text::lowercases_to(key, "f6"@) <==> n == 6);
    assert(text::lowercases_to(key, "f7"@) <==> n == 7);
    assert(text::lowercases_to(key, "f8"@) <==> n == 8);
    assert(text::lowercases_to(key, "f9"@) <==> n == 9);
    assert(text::lowercases_to(key, "f10"@) <==> n == 10);
    assert(text::lowercases_to(key, "f11"@) <==> n == 11);
    assert(text::lowercases_to(key, "f12"@) <==> n == 12);
}

/// The arrow keys have numbers in a row, from the left one clockwise.
pub proof fn arrow_keys_are_in_a_row(key: Seq<char>, direction: Direction)
    requires
        text::lowercases_to(key, direction_name(direction)),
    ensures
        key_bindings::keysym_named(key) == Some(
            Keysym {
                raw: match direction {
                    Direction::Left => 0xff51,
                    Direction::Up => 0xff52,
                    Direction::Right => 0xff53,
                    Direction::Down => 0xff54,
                },
            },
        ),
{
    lemma_key_names_differ(key);
}

/// A text is not two words that differ in a character.
proof fn lemma_not_both(key: Seq<char>, a: Seq<char>, b: Seq<char>, i: int)
    requires
        a.len() == b.len(),
        0 <= i < a.len(),
        a[i] != b[i],
    ensures
        !(text::lowercases_to(key, a) && text::lowercases_to(key, b)),
{
    if text::lowercases_to(key, a) && text::lowercases_to(key, b) {
        assert(text::fold_char(key[i]) == a[i]);
    }
}

/// No text is the name of two keys.
proof fn lemma_key_names_differ(key: Seq<char>)
    ensures
        text::lowercases_to(key, "space"@) ==> key_bindings::keysym_named(key) == Some(
            Keysym { raw: 0x20 },
        ),
        text::lowercases_to(key, "return"@) ==> key_bindings::keysym_named(key) == Some(
            Keysym { raw: 0xff0d },
        ),
        text::lowercases_to(key, "enter"@) ==> key_bindings::keysym_named(key) == Some(
            Keysym { raw: 0xff0d },
        ),
        text::lowercases_to(key, "tab"@) ==> key_bindings::keysym_named(key) == Some(
            Keysym { raw: 0xff09 },
        ),
        text::lowercases_to(key, "escape"@) ==> key_bindings::keysym_named(key) == Some(
            Keysym { raw: 0xff1b },
        ),
        text::lowercases_to(key, "esc"@) ==> key_bindings::keysym_named(key) == Some(
            Keysym { raw: 0xff1b },
        ),
        text::lowercases_to(key, "backspace"@) ==> key_bindings::keysym_named(key) == Some(
            Keysym { raw: 0xff08 },
        ),
        text::lowercases_to(key, "delete"@) ==> key_bindings::keysym_named(key) == Some(
            Keysym { raw: 0xffff },
        ),
        text::lowercases_to(key, "del"@) ==> key_bindings::keysym_named(key) == Some(
            Keysym { raw: 0xffff },
        ),
        text::lowercases_to(key, "minus"@) ==> key_bindings::keysym_named(key) == Some(
            Keysym { raw: 0x2d },
        ),
        text::lowercases_to(key, "plus"@) ==> key_bindings::keysym_named(key) == Some(
            Keysym { raw: 0x3d },
        ),
        text::lowercases_to(key, "equal"@) ==> key_bindings::keysym_named(key) == Some(
            Keysym { raw: 0x3d },
        ),
        text::lowercases_to(key, "bracketleft"@) ==> key_bindings::keysym_named(key) == Some(
            Keysym { raw: 0x5b },
        ),
        text::lowercases_to(key, "bracketright"@) ==> key_bindings::keysym_named(key) == Some(
            Keysym { raw: 0x5d },
        ),
        text::lowercases_to(key, "semicolon"@) ==> key_bindings::keysym_named(key) == Some(
            Keysym { raw: 0x3b },
        ),
        text::lowercases_to(key, "comma"@) ==> key_bindings::keysym_named(key) == Some(
            Keysym { raw: 0x2c },
        ),
        text::lowercases_to(key, "period"@) ==> key_bindings::keysym_named(key) == Some(
            Keysym { raw: 0x2e },
        ),
        text::lowercases_to(key, "slash"@) ==> key_bindings::keysym_named(key) == Some(
            Keysym { raw: 0x2f },
        ),
        text::lowercases_to(key, "backslash"@) ==> key_bindings::keysym_named(key) == Some(
            Keysym { raw: 0x5c },
        ),
        text::lowercases_to(key, "left"@) ==> key_bindings::keysym_named(key) == Some(
            Keysym { raw: 0xff51 },
        ),
        text::lowercases_to(key, "right"@) ==> key_bindings::keysym_named(key) == Some(
            Keysym { raw: 0xff53 },
        ),
        text::lowercases_to(key, "up"@) ==> key_bindings::keysym_named(key) == Some(
            Keysym { raw: 0xff52 },
        ),
        text::lowercases_to(key, "down"@) ==> key_bindings::keysym_named(key) == Some(
            Keysym { raw: 0xff54 },
        ),
        text::lowercases_to(key, "home"@) ==> key_bindings::keysym_named(key) == Some(
            Keysym { raw: 0xff50 },
        ),
        text::lowercases_to(key, "end"@) ==> key_bindings::keysym_named(key) == Some(
            Keysym { raw: 0xff57 },
        ),
        text::lowercases_to(key, "pageup"@) ==> key_bindings::keysym_named(key) == Some(
            Keysym { raw: 0xff55 },
        ),
        text::lowercases_to(key, "page_up"@) ==> key_bindings::keysym_named(key) == Some(
            Keysym { raw: 0xff55 },
        ),
        text::lowercases_to(key, "pagedown"@) ==> key_bindings::keysym_named(key) == Some(
            Keysym { raw: 0xff56 },
        ),
        text::lowercases_to(key, "page_down"@) ==> key_bindings::keysym_named(key) == Some(
            Keysym { raw: 0xff56 },
        ),
{
    lemma_named_keys();
    reveal_strlit("space");
    reveal_strlit("return");
    reveal_strlit("enter");
    reveal_strlit("tab");
    reveal_strlit("escape");
    reveal_strlit("esc");
    reveal_strlit("backspace");
    reveal_strlit("delete");
    reveal_strlit("del");
    reveal_strlit("minus");
    reveal_strlit("plus");
    reveal_strlit("equal");
    reveal_strlit("bracketleft");
    reveal_strlit("bracketright");
    reveal_strlit("semicolon");
    reveal_strlit("comma");
    reveal_strlit("period");
    reveal_strlit("slash");
    reveal_strlit("backslash");
    reveal_strlit("left");
    reveal_strlit("right");
    reveal_strlit("up");
    reveal_strlit("down");
    reveal_strlit("home");
    reveal_strlit("end");
    reveal_strlit("pageup");
    reveal_strlit("page_up");
    reveal_strlit("pagedown");
    reveal_strlit("page_down");
    lemma_not_both(key, "space"@, "enter"@, 0);
    lemma_not_both(key, "space"@, "minus"@, 0);
    lemma_not_both(key, "enter"@, "minus"@, 0);
    lemma_not_both(key, "space"@, "equal"@, 0);
    lemma_not_both(key, "enter"@, "equal"@, 1);
    lemma_not_both(key, "minus"@, "equal"@, 0);
    lemma_not_both(key, "space"@, "comma"@, 0);
    lemma_not_both(key, "enter"@, "comma"@, 0);
    lemma_not_both(key, "minus"@, "comma"@, 0);
    lemma_not_both(key, "equal"@, "comma"@, 0);
    lemma_not_both(key, "space"@, "slash"@, 1);
    lemma_not_both(key, "enter"@, "slash"@, 0);
    lemma_not_both(key, "minus"@, "slash"@, 0);
    lemma_not_both(key, "equal"@, "slash"@, 0);
    lemma_not_both(key, "comma"@, "slash"@, 0);
    lemma_not_both(key, "space"@, "right"@, 0);
    lemma_not_both(key, "enter"@, "right"@, 0);
    lemma_not_both(key, "minus"@, "right"@, 0);
    lemma_not_both(key, "equal"@, "right"@, 0);
    lemma_not_both(key, "comma"@, "right"@, 0);
    lemma_not_both(key, "slash"@, "right"@, 0);
    lemma_not_both(key, "return"@, "escape"@, 0);
    lemma_not_both(key, "return"@, "delete"@, 0);
    lemma_not_both(key, "escape"@, "delete"@, 0);
    lemma_not_both(key, "return"@, "period"@, 0);
    lemma_not_both(key, "escape"@, "period"@, 0);
    lemma_not_both(key, "delete"@, "period"@, 0);
    lemma_not_both(key, "return"@, "pageup"@, 0);
    lemma_not_both(key, "escape"@, "pageup"@, 0);
    lemma_not_both(key, "delete"@, "pageup"@, 0);
    lemma_not_both(key, "period"@, "pageup"@, 1);
    lemma_not_both(key, "tab"@, "esc"@, 0);
    lemma_not_both(key, "tab"@, "del"@, 0);
    lemma_not_both(key, "esc"@, "del"@, 0);
    lemma_not_both(key, "tab"@, "end"@, 0);
    lemma_not_both(key, "esc"@, "end"@, 1);
    lemma_not_both(key, "del"@, "end"@, 0);
    lemma_not_both(key, "backspace"@, "semicolon"@, 0);
    lemma_not_both(key, "backspace"@, "backslash"@, 5);
    lemma_not_both(key, "semicolon"@, "backslash"@, 0);
    lemma_not_both(key, "backspace"@, "page_down"@, 0);
    lemma_not_both(key, "semicolon"@, "page_down"@, 0);
    lemma_not_both(key, "backslash"@, "page_down"@, 0);
    lemma_not_both(key, "plus"@, "left"@, 0);
    lemma_not_both(key, "plus"@, "down"@, 0);
    lemma_not_both(key, "left"@, "down"@, 0);
    lemma_not_both(key, "plus"@, "home"@, 0);
    lemma_not_both(key, "left"@, "home"@, 0);
    lemma_not_both(key, "down"@, "home"@, 0);
}

/// The other keys have the names that they are known by, in upper or lower case.
pub proof fn keys_are_known_by_their_names(key: Seq<char>)
    ensures
        text::lowercases_to(key, "space"@) ==> key_bindings::keysym_named(key) == Some(
            Keysym { raw: 0x20 },
        ),
        text::lowercases_to(key, "return"@) ==> key_bindings::keysym_named(key) == Some(
            Keysym { raw: 0xff0d },
        ),
        text::lowercases_to(key, "enter"@) ==> key_bindings::keysym_named(key) == Some(
            Keysym { raw: 0xff0d },
        ),
        text::lowercases_to(key, "tab"@) ==> key_bindings::keysym_named(key) == Some(
            Keysym { raw: 0xff09 },
        ),
        text::lowercases_to(key, "escape"@) ==> key_bindings::keysym_named(key) == Some(
            Keysym { raw: 0xff1b },
        ),
        text::lowercases_to(key, "esc"@) ==> key_bindings::keysym_named(key) == Some(
            Keysym { raw: 0xff1b },
        ),
        text::lowercases_to(key, "backspace"@) ==> key_bindings::keysym_named(key) == Some(
            Keysym { raw: 0xff08 },
        ),
        text::lowercases_to(key, "delete"@) ==> key_bindings::keysym_named(key) == Some(
            Keysym { raw: 0xffff },
        ),
        text::lowercases_to(key, "del"@) ==> key_bindings::keysym_named(key) == Some(
            Keysym { raw: 0xffff },
        ),
        text::lowercases_to(key, "minus"@) ==> key_bindings::keysym_named(key) == Some(
            Keysym { raw: 0x2d },
        ),
        text::lowercases_to(key, "plus"@) ==> key_bindings::keysym_named(key) == Some(
            Keysym { raw: 0x3d },
        ),
        text::lowercases_to(key, "equal"@) ==> key_bindings::keysym_named(key) == Some(
            Keysym { raw: 0x3d },
        ),
        text::lowercases_to(key, "bracketleft"@) ==> key_bindings::keysym_named(key) == Some(
            Keysym { raw: 0x5b },
        ),
        text::lowercases_to(key, "bracketright"@) ==> key_bindings::keysym_named(key) == Some(
            Keysym { raw: 0x5d },
        ),
        text::lowercases_to(key, "semicolon"@) ==> key_bindings::keysym_named(key) == Some(
            Keysym { raw: 0x3b },
        ),
        text::lowercases_to(key, "comma"@) ==> key_bindings::keysym_named(key) == Some(
            Keysym { raw: 0x2c },
        ),
        text::lowercases_to(key, "period"@) ==> key_bindings::keysym_named(key) == Some(
            Keysym { raw: 0x2e },
        ),
        text::lowercases_to(key, "slash"@) ==> key_bindings::keysym_named(key) == Some(
            Keysym { raw: 0x2f },
        ),
        text::lowercases_to(key, "backslash"@) ==> key_bindings::keysym_named(key) == Some(
            Keysym { raw: 0x5c },
        ),
        text::lowercases_to(key, "home"@) ==> key_bindings::keysym_named(key) == Some(
            Keysym { raw: 0xff50 },
        ),
        text::lowercases_to(key, "end"@) ==> key_bindings::keysym_named(key) == Some(
            Keysym { raw: 0xff57 },
        ),
        text::lowercases_to(key, "pageup"@) ==> key_bindings::keysym_named(key) == Some(
            Keysym { raw: 0xff55 },
        ),
        text::lowercases_to(key, "page_up"@) ==> key_bindings::keysym_named(key) == Some(
            Keysym { raw: 0xff55 },
        ),
        text::lowercases_to(key, "pagedown"@) ==> key_bindings::keysym_named(key) == Some(
            Keysym { raw: 0xff56 },
        ),
        text::lowercases_to(key, "page_down"@) ==> key_bindings::keysym_named(key) == Some(
            Keysym { raw: 0xff56 },
        ),
{
    lemma_key_names_differ(key);
}

/// Of what the keyboard reports only the four modifiers of a shortcut matter.
pub proof fn locks_do_not_matter(a: ModifiersState, b: ModifiersState)
    ensures
        key_bindings::shortcut_modifiers(a).ctrl == a.ctrl,
        key_bindings::shortcut_modifiers(a).alt == a.alt,
        key_bindings::shortcut_modifiers(a).shift == a.shift,
        key_bindings::shortcut_modifiers(a).logo == a.logo,
        a.ctrl == b.ctrl && a.alt == b.alt && a.shift == b.shift && a.logo == b.logo
            <==> key_bindings::shortcut_modifiers(a) == key_bindings::shortcut_modifiers(b),
{
}

/// A key that is held is reported as held, and no other.
pub proof fn held_keys_are_reported_as_held(state: KeyState)
    ensures
        key_bindings::reported_state(state) == InputKeyState::Pressed <==> state
            == KeyState::Pressed,
{
}

} // verus!
