//! What accelerators say, and which bindings documents and modules give.

use crate::config::keybinding;
use crate::config::keybinding::{FragmentFile, FragmentModel, KeyBindingModel, KeyBindingModifiers};
use crate::config::value;
use crate::config::value::TomlModel;
use crate::text;
use vstd::prelude::*;

verus! {

/// What stands before the first `+` of an accelerator is a modifier, where it has the name of one
/// in upper or lower case, and the rest is an accelerator of its own.
pub proof fn modifiers_stand_before_the_key(part: Seq<char>, rest: Seq<char>)
    requires
        !part.contains('+'),
    ensures
        ({
            let (all, key) = keybinding::accelerator(part.push('+') + rest);
            let (other, same) = keybinding::accelerator(rest);
            &&& key == same
            &&& all.super_key == (other.super_key || text::lowercases_to(part, "super"@)
                || text::lowercases_to(part, "logo"@) || text::lowercases_to(part, "mod4"@))
            &&& all.shift == (other.shift || text::lowercases_to(part, "shift"@))
            &&& all.ctrl == (other.ctrl || text::lowercases_to(part, "ctrl"@)
                || text::lowercases_to(part, "control"@))
            &&& all.alt == (other.alt || text::lowercases_to(part, "alt"@)
                || text::lowercases_to(part, "mod1"@))
        }),
{
    let s = part.push('+') + rest;
    let n = part.len() as int;
    assert forall|i: int| 0 <= i < n implies s[i] != '+' by {
        assert(s[i] == part[i]);
        assert(part.contains(part[i]));
    }
    assert(s[n] == '+');
    text::lemma_first_of_unique(s, '+', n);
    assert(s.take(n) =~= part);
    assert(s.skip(n + 1) =~= rest);
    let tail = text::split_on(rest, '+');
    let parts = text::split_on(s, '+');
    assert(parts == seq![part] + tail);
    text::split_texts_are_joined_again(rest, '+');
    assert(parts[0] == part);
    assert forall|i: int| 0 <= i < tail.len() implies #[trigger] parts[i + 1] == tail[i] by {}
    assert(parts.last() == tail.last());
    let m = keybinding::modifiers_of(tail, tail.len() - 1);
    let all = keybinding::modifiers_of(parts, parts.len() - 1);
    assert(parts.len() == tail.len() + 1);
    if m.super_key {
        let i = choose|i: int|
            0 <= i < tail.len() - 1 && keybinding::names_super(#[trigger] tail[i]);
        assert(parts[i + 1] == tail[i]);
        assert(all.super_key);
    }
    if all.super_key {
        let i = choose|i: int|
            0 <= i < parts.len() - 1 && keybinding::names_super(#[trigger] parts[i]);
        if i > 0 {
            assert(parts[(i - 1) + 1] == tail[i - 1]);
            assert(m.super_key);
        }
    }
    if m.shift {
        let i = choose|i: int|
            0 <= i < tail.len() - 1 && keybinding::names_shift(#[trigger] tail[i]);
        assert(parts[i + 1] == tail[i]);
        assert(all.shift);
    }
    if all.shift {
        let i = choose|i: int|
            0 <= i < parts.len() - 1 && keybinding::names_shift(#[trigger] parts[i]);
        if i > 0 {
            assert(parts[(i - 1) + 1] == tail[i - 1]);
            assert(m.shift);
        }
    }
    if m.ctrl {
        let i = choose|i: int|
            0 <= i < tail.len() - 1 && keybinding::names_ctrl(#[trigger] tail[i]);
        assert(parts[i + 1] == tail[i]);
        assert(all.ctrl);
    }
    if all.ctrl {
        let i = choose|i: int|
            0 <= i < parts.len() - 1 && keybinding::names_ctrl(#[trigger] parts[i]);
        if i > 0 {
            assert(parts[(i - 1) + 1] == tail[i - 1]);
            assert(m.ctrl);
        }
    }
    if m.alt {
        let i = choose|i: int|
            0 <= i < tail.len() - 1 && keybinding::names_alt(#[trigger] tail[i]);
        assert(parts[i + 1] == tail[i]);
        assert(all.alt);
    }
    if all.alt {
        let i = choose|i: int|
            0 <= i < parts.len() - 1 && keybinding::names_alt(#[trigger] parts[i]);
        if i > 0 {
            assert(parts[(i - 1) + 1] == tail[i - 1]);
            assert(m.alt);
        }
    }
}

/// A text without a `+` is a key without modifiers.
pub proof fn a_single_key_has_no_modifiers(key: Seq<char>)
    requires
        !key.contains('+'),
    ensures
        keybinding::accelerator(key).1 == key,
        keybinding::accelerator(key).0 == (KeyBindingModifiers {
            super_key: false,
            shift: false,
            ctrl: false,
            alt: false,
        }),
{
    assert forall|i: int| 0 <= i < key.len() implies key[i] != '+' by {
        assert(key.contains(key[i]));
    }
    text::lemma_first_of_unique(key, '+', key.len() as int);
    assert(text::split_on(key, '+') == seq![key]);
}

/// An action is bound to the modifiers and the key of its accelerator.
pub proof fn actions_are_bound_to_accelerators(
    part: Seq<char>,
    rest: Seq<char>,
    action: Seq<char>,
    other: Seq<char>,
)
    requires
        !part.contains('+'),
    ensures
        keybinding::bound(rest, action).action == action,
        keybinding::bound(part.push('+') + rest, action).key == keybinding::bound(rest, other).key,
        !rest.contains('+') ==> keybinding::bound(rest, action).key == rest,
        text::lowercases_to(part, "super"@) ==> keybinding::bound(
            part.push('+') + rest,
            action,
        ).modifiers.super_key,
        text::lowercases_to(part, "shift"@) ==> keybinding::bound(
            part.push('+') + rest,
            action,
        ).modifiers.shift,
        text::lowercases_to(part, "ctrl"@) ==> keybinding::bound(
            part.push('+') + rest,
            action,
        ).modifiers.ctrl,
        text::lowercases_to(part, "alt"@) ==> keybinding::bound(
            part.push('+') + rest,
            action,
        ).modifiers.alt,
{
    modifiers_stand_before_the_key(part, rest);
    if !rest.contains('+') {
        a_single_key_has_no_modifiers(rest);
    }
}

/// A key with the Super key and maybe the Shift key.
spec fn with_super(shift: bool, key: Seq<char>, action: Seq<char>) -> KeyBindingModel {
    KeyBindingModel {
        modifiers: KeyBindingModifiers { super_key: true, shift, ctrl: false, alt: false },
        key,
        action,
    }
}

/// What an accelerator with the Super key alone binds.
proof fn lemma_super(key: Seq<char>, action: Seq<char>)
    requires
        !key.contains('+'),
    ensures
        keybinding::bound("Super"@.push('+') + key, action) == with_super(false, key, action),
{
    lemma_super_is_super();
    modifiers_stand_before_the_key("Super"@, key);
    a_single_key_has_no_modifiers(key);
}

/// What an accelerator with the Super and the Shift key binds.
proof fn lemma_super_shift(key: Seq<char>, action: Seq<char>)
    requires
        !key.contains('+'),
    ensures
        keybinding::bound("Super"@.push('+') + ("Shift"@.push('+') + key), action) == with_super(
            true,
            key,
            action,
        ),
{
    lemma_super_is_super();
    lemma_shift_is_shift();
    modifiers_stand_before_the_key("Super"@, "Shift"@.push('+') + key);
    modifiers_stand_before_the_key("Shift"@, key);
    a_single_key_has_no_modifiers(key);
}

/// `Super` names the Super key alone.
proof fn lemma_super_is_super()
    ensures
        !"Super"@.contains('+'),
        text::lowercases_to("Super"@, "super"@),
        !text::lowercases_to("Super"@, "shift"@),
        !text::lowercases_to("Super"@, "ctrl"@),
        !text::lowercases_to("Super"@, "control"@),
        !text::lowercases_to("Super"@, "alt"@),
        !text::lowercases_to("Super"@, "mod1"@),
{
    reveal_strlit("Super");
    reveal_strlit("super");
    reveal_strlit("shift");
    reveal_strlit("ctrl");
    reveal_strlit("control");
    reveal_strlit("alt");
    reveal_strlit("mod1");
    text::words_are_known_in_any_case("Super"@, "super"@);
    text::words_are_known_in_any_case("Super"@, "shift"@);
    assert("Super"@[1] == 'u' && "shift"@[1] == 'h');
}

/// `Shift` names the Shift key alone.
proof fn lemma_shift_is_shift()
    ensures
        !"Shift"@.contains('+'),
        text::lowercases_to("Shift"@, "shift"@),
        !text::lowercases_to("Shift"@, "super"@),
        !text::lowercases_to("Shift"@, "logo"@),
        !text::lowercases_to("Shift"@, "mod4"@),
        !text::lowercases_to("Shift"@, "ctrl"@),
        !text::lowercases_to("Shift"@, "control"@),
        !text::lowercases_to("Shift"@, "alt"@),
        !text::lowercases_to("Shift"@, "mod1"@),
{
    reveal_strlit("Shift");
    reveal_strlit("super");
    reveal_strlit("shift");
    reveal_strlit("logo");
    reveal_strlit("mod4");
    reveal_strlit("ctrl");
    reveal_strlit("control");
    reveal_strlit("alt");
    reveal_strlit("mod1");
    text::words_are_known_in_any_case("Shift"@, "super"@);
    text::words_are_known_in_any_case("Shift"@, "shift"@);
    assert("super"@[1] == 'u' && "Shift"@[1] == 'h');
}

/// The digit of a number below ten.
pub open spec fn digit(n: int) -> char {
    (48 + n) as u32 as char
}

/// Where no bindings are configured, the Super key and a number from 1 to 9 switch to that
/// workspace, and with the Shift key they move the focused window there.
pub proof fn number_keys_stand_for_workspaces(n: int)
    requires
        1 <= n <= 9,
    ensures
        keybinding::default_bindings().contains(
            (KeyBindingModel {
                modifiers: KeyBindingModifiers {
                    super_key: true,
                    shift: false,
                    ctrl: false,
                    alt: false,
                },
                key: seq![digit(n)],
                action: "workspace_switch:"@.push(digit(n)),
            }),
        ),
        keybinding::default_bindings().contains(
            (KeyBindingModel {
                modifiers: KeyBindingModifiers {
                    super_key: true,
                    shift: true,
                    ctrl: false,
                    alt: false,
                },
                key: seq![digit(n)],
                action: "workspace_move:"@.push(digit(n)),
            }),
        ),
{
    let all = keybinding::default_bindings();
    let key = seq![digit(n)];
    let switch = "workspace_switch:"@.push(digit(n));
    let send = "workspace_move:"@.push(digit(n));
    lemma_super(key, switch);
    lemma_super_shift(key, send);
    reveal_strlit("Super");
    reveal_strlit("Shift");
    reveal_strlit("workspace_switch:");
    reveal_strlit("workspace_move:");
    if n == 1 {
        reveal_strlit("Super+1");
        reveal_strlit("Super+Shift+1");
        reveal_strlit("workspace_switch:1");
        reveal_strlit("workspace_move:1");
        assert("Super"@.push('+') + key =~= "Super+1"@);
        assert("Super"@.push('+') + ("Shift"@.push('+') + key) =~= "Super+Shift+1"@);
        assert(switch =~= "workspace_switch:1"@);
        assert(send =~= "workspace_move:1"@);
        assert(all[15] == with_super(false, key, switch));
        assert(all[24] == with_super(true, key, send));
    }
    if n == 2 {
        reveal_strlit("Super+2");
        reveal_strlit("Super+Shift+2");
        reveal_strlit("workspace_switch:2");
        reveal_strlit("workspace_move:2");
        assert("Super"@.push('+') + key =~= "Super+2"@);
        assert("Super"@.push('+') + ("Shift"@.push('+') + key) =~= "Super+Shift+2"@);
        assert(switch =~= "workspace_switch:2"@);
        assert(send =~= "workspace_move:2"@);
        assert(all[16] == with_super(false, key, switch));
        assert(all[25] == with_super(true, key, send));
    }
    if n == 3 {
        reveal_strlit("Super+3");
        reveal_strlit("Super+Shift+3");
        reveal_strlit("workspace_switch:3");
        reveal_strlit("workspace_move:3");
        assert("Super"@.push('+') + key =~= "Super+3"@);
        assert("Super"@.push('+') + ("Shift"@.push('+') + key) =~= "Super+Shift+3"@);
        assert(switch =~= "workspace_switch:3"@);
        assert(send =~= "workspace_move:3"@);
        assert(all[17] == with_super(false, key, switch));
        assert(all[26] == with_super(true, key, send));
    }
    if n == 4 {
        reveal_strlit("Super+4");
        reveal_strlit("Super+Shift+4");
        reveal_strlit("workspace_switch:4");
        reveal_strlit("workspace_move:4");
        assert("Super"@.push('+') + key =~= "Super+4"@);
        assert("Super"@.push('+') + ("Shift"@.push('+') + key) =~= "Super+Shift+4"@);
        assert(switch =~= "workspace_switch:4"@);
        assert(send =~= "workspace_move:4"@);
        assert(all[18] == with_super(false, key, switch));
        assert(all[27] == with_super(true, key, send));
    }
    if n == 5 {
        reveal_strlit("Super+5");
        reveal_strlit("Super+Shift+5");
        reveal_strlit("workspace_switch:5");
        reveal_strlit("workspace_move:5");
        assert("Super"@.push('+') + key =~= "Super+5"@);
        assert("Super"@.push('+') + ("Shift"@.push('+') + key) =~= "Super+Shift+5"@);
        assert(switch =~= "workspace_switch:5"@);
        assert(send =~= "workspace_move:5"@);
        assert(all[19] == with_super(false, key, switch));
        assert(all[28] == with_super(true, key, send));
    }
    if n == 6 {
        reveal_strlit("Super+6");
        reveal_strlit("Super+Shift+6");
        reveal_strlit("workspace_switch:6");
        reveal_strlit("workspace_move:6");
        assert("Super"@.push('+') + key =~= "Super+6"@);
        assert("Super"@.push('+') + ("Shift"@.push('+') + key) =~= "Super+Shift+6"@);
        assert(switch =~= "workspace_switch:6"@);
        assert(send =~= "workspace_move:6"@);
        assert(all[20] == with_super(false, key, switch));
        assert(all[29] == with_super(true, key, send));
    }
    if n == 7 {
        reveal_strlit("Super+7");
        reveal_strlit("Super+Shift+7");
        reveal_strlit("workspace_switch:7");
        reveal_strlit("workspace_move:7");
        assert("Super"@.push('+') + key =~= "Super+7"@);
        assert("Super"@.push('+') + ("Shift"@.push('+') + key) =~= "Super+Shift+7"@);
        assert(switch =~= "workspace_switch:7"@);
        assert(send =~= "workspace_move:7"@);
        assert(all[21] == with_super(false, key, switch));
        assert(all[30] == with_super(true, key, send));
    }
    if n == 8 {
        reveal_strlit("Super+8");
        reveal_strlit("Super+Shift+8");
        reveal_strlit("workspace_switch:8");
        reveal_strlit("workspace_move:8");
        assert("Super"@.push('+') + key =~= "Super+8"@);
        assert("Super"@.push('+') + ("Shift"@.push('+') + key) =~= "Super+Shift+8"@);
        assert(switch =~= "workspace_switch:8"@);
        assert(send =~= "workspace_move:8"@);
        assert(all[22] == with_super(false, key, switch));
        assert(all[31] == with_super(true, key, send));
    }
    if n == 9 {
        reveal_strlit("Super+9");
        reveal_strlit("Super+Shift+9");
        reveal_strlit("workspace_switch:9");
        reveal_strlit("workspace_move:9");
        assert("Super"@.push('+') + key =~= "Super+9"@);
        assert("Super"@.push('+') + ("Shift"@.push('+') + key) =~= "Super+Shift+9"@);
        assert(switch =~= "workspace_switch:9"@);
        assert(send =~= "workspace_move:9"@);
        assert(all[23] == with_super(false, key, switch));
        assert(all[32] == with_super(true, key, send));
    }
}

/// Where no bindings are configured, the Super key and one of `H`, `J`, `K` and `L` move the
/// focus to the left, down, up and to the right, and with the Shift key they move the window.
pub proof fn letter_keys_stand_for_directions(letter: char, name: Seq<char>)
    requires
        (letter == 'H' && name == "left"@) || (letter == 'J' && name == "down"@) || (letter == 'K'
            && name == "up"@) || (letter == 'L' && name == "right"@),
    ensures
        keybinding::default_bindings().contains(
            (KeyBindingModel {
                modifiers: KeyBindingModifiers {
                    super_key: true,
                    shift: false,
                    ctrl: false,
                    alt: false,
                },
                key: seq![letter],
                action: "focus_"@ + name,
            }),
        ),
        keybinding::default_bindings().contains(
            (KeyBindingModel {
                modifiers: KeyBindingModifiers {
                    super_key: true,
                    shift: true,
                    ctrl: false,
                    alt: false,
                },
                key: seq![letter],
                action: "move_"@ + name,
            }),
        ),
{
    let all = keybinding::default_bindings();
    let key = seq![letter];
    let focus = "focus_"@ + name;
    let send = "move_"@ + name;
    lemma_super(key, focus);
    lemma_super_shift(key, send);
    reveal_strlit("Super");
    reveal_strlit("Shift");
    reveal_strlit("focus_");
    reveal_strlit("move_");
    if letter == 'H' {
        reveal_strlit("left");
        reveal_strlit("Super+H");
        reveal_strlit("Super+Shift+H");
        reveal_strlit("focus_left");
        reveal_strlit("move_left");
        assert("Super"@.push('+') + key =~= "Super+H"@);
        assert("Super"@.push('+') + ("Shift"@.push('+') + key) =~= "Super+Shift+H"@);
        assert(focus =~= "focus_left"@);
        assert(send =~= "move_left"@);
        assert(all[2] == with_super(false, key, focus));
        assert(all[6] == with_super(true, key, send));
    }
    if letter == 'J' {
        reveal_strlit("down");
        reveal_strlit("Super+J");
        reveal_strlit("Super+Shift+J");
        reveal_strlit("focus_down");
        reveal_strlit("move_down");
        assert("Super"@.push('+') + key =~= "Super+J"@);
        assert("Super"@.push('+') + ("Shift"@.push('+') + key) =~= "Super+Shift+J"@);
        assert(focus =~= "focus_down"@);
        assert(send =~= "move_down"@);
        assert(all[3] == with_super(false, key, focus));
        assert(all[7] == with_super(true, key, send));
    }
    if letter == 'K' {
        reveal_strlit("up");
        reveal_strlit("Super+K");
        reveal_strlit("Super+Shift+K");
        reveal_strlit("focus_up");
        reveal_strlit("move_up");
        assert("Super"@.push('+') + key =~= "Super+K"@);
        assert("Super"@.push('+') + ("Shift"@.push('+') + key) =~= "Super+Shift+K"@);
        assert(focus =~= "focus_up"@);
        assert(send =~= "move_up"@);
        assert(all[4] == with_super(false, key, focus));
        assert(all[8] == with_super(true, key, send));
    }
    if letter == 'L' {
        reveal_strlit("right");
        reveal_strlit("Super+L");
        reveal_strlit("Super+Shift+L");
        reveal_strlit("focus_right");
        reveal_strlit("move_right");
        assert("Super"@.push('+') + key =~= "Super+L"@);
        assert("Super"@.push('+') + ("Shift"@.push('+') + key) =~= "Super+Shift+L"@);
        assert(focus =~= "focus_right"@);
        assert(send =~= "move_right"@);
        assert(all[5] == with_super(false, key, focus));
        assert(all[9] == with_super(true, key, send));
    }
}

/// The bindings of a table are those of its entries in their order: a text is an action that is
/// bound to its key, and other values bind nothing.
pub proof fn tables_bind_their_entries(
    section: Seq<(Seq<char>, TomlModel)>,
    key: Seq<char>,
    v: TomlModel,
)
    ensures
        keybinding::configured(seq![]) == Seq::<KeyBindingModel>::empty(),
        v matches TomlModel::Text(action) ==> keybinding::configured(section.push((key, v)))
            == keybinding::configured(section).push(keybinding::bound(key, action)),
        !(v is Text) ==> keybinding::configured(section.push((key, v)))
            == keybinding::configured(section),
{
    assert(section.push((key, v)).drop_last() =~= section);
}

/// The table of a document binds its keys, even where it is empty; where there is none, the
/// default bindings hold.
pub proof fn documents_bind_their_keys(
    document: Seq<(Seq<char>, TomlModel)>,
    section: Seq<(Seq<char>, TomlModel)>,
)
    ensures
        value::lookup(document, "keybindings"@) == Some(TomlModel::Table(section))
            ==> keybinding::keybindings_of(document) == keybinding::configured(section),
        value::lookup(document, "keybindings"@) is None ==> keybinding::keybindings_of(document)
            == keybinding::default_bindings(),
{
}

/// What a module binds are the texts of its table, in their order, under the name of the module.
pub proof fn modules_bind_their_entries(
    module_id: Seq<char>,
    section: Seq<(Seq<char>, TomlModel)>,
    key: Seq<char>,
    v: TomlModel,
)
    ensures
        keybinding::module_bindings(module_id, seq![]) == Seq::<FragmentModel>::empty(),
        v matches TomlModel::Text(action) ==> ({
            let before = keybinding::module_bindings(module_id, section);
            let after = keybinding::module_bindings(module_id, section.push((key, v)));
            &&& after.len() == before.len() + 1
            &&& after.drop_last() == before
            &&& after.last().module_id == module_id
            &&& after.last().binding == key
            &&& after.last().action == action
        }),
        !(v is Text) ==> keybinding::module_bindings(module_id, section.push((key, v)))
            == keybinding::module_bindings(module_id, section),
{
    assert(section.push((key, v)).drop_last() =~= section);
    if v is Text {
        let before = keybinding::module_bindings(module_id, section);
        let after = keybinding::module_bindings(module_id, section.push((key, v)));
        assert(after.drop_last() =~= before);
    }
}

/// A file `<module>.toml` binds what its table `keybindings` says under the name of the module;
/// other files, and those that could not be read, bind nothing.
pub proof fn files_bind_under_the_name_of_their_module(
    module_id: Seq<char>,
    content: Seq<char>,
    document: Seq<(Seq<char>, TomlModel)>,
    section: Seq<(Seq<char>, TomlModel)>,
    name: Seq<char>,
)
    requires
        module_id.len() > 0,
    ensures
        value::toml_document(content) == Some(document) && value::lookup(document, "keybindings"@)
            == Some(TomlModel::Table(section)) ==> keybinding::file_bindings(
            module_id + ".toml"@,
            Some(content),
        ) == keybinding::module_bindings(module_id, section),
        value::toml_document(content) is None ==> keybinding::file_bindings(
            name,
            Some(content),
        ).len() == 0,
        keybinding::file_bindings(name, None).len() == 0,
        name.len() <= 5 ==> keybinding::file_bindings(name, Some(content)).len() == 0,
        name.len() > 5 && name.skip(name.len() - 5) != ".toml"@ ==> keybinding::file_bindings(
            name,
            Some(content),
        ).len() == 0,
{
    reveal_strlit(".toml");
    reveal_strlit("toml");
    let own = module_id + ".toml"@;
    let n = module_id.len() as int;
    lemma_last_dot(own, n);
    assert(own[n] == '.' && own[n + 1] == 't' && own[n + 2] == 'o' && own[n + 3] == 'm' && own[n
        + 4] == 'l');
    lemma_last_dot_unique(own, n);
    assert(own.take(n) =~= module_id);
    assert(own.skip(n + 1) =~= "toml"@);
    let dot = keybinding::last_dot(name);
    lemma_last_dot(name, 0);
    if dot > 0 && name.skip(dot + 1) == "toml"@ {
        assert(name.skip(dot + 1).len() == 4);
        assert(dot == name.len() - 5);
        let tail = name.skip(name.len() - 5);
        assert(tail[0] == '.');
        assert forall|i: int| 1 <= i < 5 implies tail[i] == #[trigger] ".toml"@[i] by {
            assert(tail[i] == name.skip(dot + 1)[i - 1]);
            assert(".toml"@[i] == "toml"@[i - 1]);
        }
        assert(tail =~= ".toml"@);
    }
}

/// The last dot is a dot, and none is behind it.
proof fn lemma_last_dot(name: Seq<char>, k: int)
    ensures
        -1 <= keybinding::last_dot(name) < name.len() || (name.len() == 0 && keybinding::last_dot(
            name,
        ) == -1),
        keybinding::last_dot(name) >= 0 ==> name[keybinding::last_dot(name)] == '.',
        forall|i: int| keybinding::last_dot(name) < i < name.len() ==> name[i] != '.',
    decreases name.len(),
{
    if name.len() > 0 && name.last() != '.' {
        lemma_last_dot(name.drop_last(), k);
        let d = keybinding::last_dot(name);
        assert forall|i: int| d < i < name.len() implies name[i] != '.' by {
            if i < name.len() - 1 {
                assert(name.drop_last()[i] == name[i]);
            }
        }
    }
}

/// There is one last dot only.
proof fn lemma_last_dot_unique(name: Seq<char>, k: int)
    requires
        0 <= k < name.len(),
        name[k] == '.',
        forall|i: int| k < i < name.len() ==> name[i] != '.',
    ensures
        keybinding::last_dot(name) == k,
{
    lemma_last_dot(name, k);
}

/// Files bind one after the other.
pub proof fn files_bind_in_their_order(files: Seq<FragmentFile>, file: FragmentFile)
    ensures
        keybinding::fragments_of(seq![]) == Seq::<FragmentModel>::empty(),
        keybinding::fragments_of(files.push(file)) == keybinding::fragments_of(files)
            + keybinding::file_bindings(file.name@, text::optional_view(file.content)),
{
    assert(files.push(file).drop_last() =~= files);
}

} // verus!
