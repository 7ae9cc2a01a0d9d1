//! Key bindings: accelerators such as `Super+Shift+H` and the actions bound to them.

use crate::config::value;
use crate::config::value::{get_table, parse_document, TomlEntry, TomlModel};
use crate::path;
use crate::path::{join_paths, parent_of};
use crate::text;
use crate::text::{from_chars, is_word, split_str, str_eq, to_chars};
use vstd::prelude::*;

verus! {

/// The modifiers of a key binding.
#[derive(Clone, Copy, Debug, PartialEq, Eq, Structural)]
pub struct KeyBindingModifiers {
    pub super_key: bool,
    pub shift: bool,
    pub ctrl: bool,
    pub alt: bool,
}

impl Default for KeyBindingModifiers {
    fn default() -> (r: KeyBindingModifiers)
        ensures
            r == (KeyBindingModifiers { super_key: false, shift: false, ctrl: false, alt: false }),
    {
        KeyBindingModifiers { super_key: false, shift: false, ctrl: false, alt: false }
    }
}

/// A key with its modifiers and the action bound to it.
#[derive(Debug, PartialEq, Eq)]
pub struct KeyBinding {
    pub modifiers: KeyBindingModifiers,
    pub key: String,
    pub action: String,
}

/// The model of a key binding.
#[verifier::ext_equal]
pub struct KeyBindingModel {
    pub modifiers: KeyBindingModifiers,
    pub key: Seq<char>,
    pub action: Seq<char>,
}

impl View for KeyBinding {
    type V = KeyBindingModel;

    open spec fn view(&self) -> KeyBindingModel {
        KeyBindingModel { modifiers: self.modifiers, key: self.key@, action: self.action@ }
    }
}

impl Clone for KeyBinding {
    fn clone(&self) -> (r: KeyBinding)
        ensures
            r == *self,
    {
        KeyBinding {
            modifiers: self.modifiers,
            key: self.key.clone(),
            action: self.action.clone(),
        }
    }
}

/// Whether a part of an accelerator names the Super key.
pub open spec fn names_super(part: Seq<char>) -> bool {
    text::lowercases_to(part, "super"@) || text::lowercases_to(part, "logo"@)
        || text::lowercases_to(part, "mod4"@)
}

/// Whether a part of an accelerator names the Shift key.
pub open spec fn names_shift(part: Seq<char>) -> bool {
    text::lowercases_to(part, "shift"@)
}

/// Whether a part of an accelerator names the Ctrl key.
pub open spec fn names_ctrl(part: Seq<char>) -> bool {
    text::lowercases_to(part, "ctrl"@) || text::lowercases_to(part, "control"@)
}

/// Whether a part of an accelerator names the Alt key.
pub open spec fn names_alt(part: Seq<char>) -> bool {
    text::lowercases_to(part, "alt"@) || text::lowercases_to(part, "mod1"@)
}

/// The modifiers that the first `n` parts of an accelerator name. Other names are ignored.
pub open spec fn modifiers_of(parts: Seq<Seq<char>>, n: int) -> KeyBindingModifiers {
    KeyBindingModifiers {
        super_key: exists|i: int| 0 <= i < n && names_super(#[trigger] parts[i]),
        shift: exists|i: int| 0 <= i < n && names_shift(#[trigger] parts[i]),
        ctrl: exists|i: int| 0 <= i < n && names_ctrl(#[trigger] parts[i]),
        alt: exists|i: int| 0 <= i < n && names_alt(#[trigger] parts[i]),
    }
}

/// The modifiers and the key of an accelerator: its parts are separated by `+`, the last one is
/// the key and those before it are the modifiers.
pub open spec fn accelerator(binding: Seq<char>) -> (KeyBindingModifiers, Seq<char>) {
    let parts = text::split_on(binding, '+');
    (modifiers_of(parts, parts.len() - 1), parts.last())
}

/// The binding of an action to an accelerator.
pub open spec fn bound(binding: Seq<char>, action: Seq<char>) -> KeyBindingModel {
    KeyBindingModel { modifiers: accelerator(binding).0, key: accelerator(binding).1, action }
}

/// Reads an accelerator such as `Super+Shift+H`. Every text is one.
pub fn parse_keybinding(binding: &str) -> (r: Option<(KeyBindingModifiers, String)>)
    ensures
        match r {
            Some((modifiers, key)) => (modifiers, key@) == accelerator(binding@),
            None => false,
        },
{
    let mut parts: Vec<String> = split_str(binding, '+');
    let ghost all = text::list_view(parts@);
    let mut mods: KeyBindingModifiers = KeyBindingModifiers::default();
    let mut i: usize = 0;
    while i < parts.len() - 1
        invariant
            all == text::list_view(parts@),
            i <= parts@.len() - 1,
            mods == modifiers_of(all, i as int),
        decreases parts@.len() - i,
    {
        let part: &str = parts[i].as_str();
        assert(part@ == all[i as int]);
        if is_word(part, "super") || is_word(part, "logo") || is_word(part, "mod4") {
            mods.super_key = true;
        } else if is_word(part, "shift") {
            mods.shift = true;
        } else if is_word(part, "ctrl") || is_word(part, "control") {
            mods.ctrl = true;
        } else if is_word(part, "alt") || is_word(part, "mod1") {
            mods.alt = true;
        }
        proof {
            modifier_names_are_distinct(part@);
            assert(mods == modifiers_of(all, i + 1)) by {
                let before = modifiers_of(all, i as int);
                let after = modifiers_of(all, i + 1);
                assert(after.super_key == (before.super_key || names_super(all[i as int])));
                assert(after.shift == (before.shift || names_shift(all[i as int])));
                assert(after.ctrl == (before.ctrl || names_ctrl(all[i as int])));
                assert(after.alt == (before.alt || names_alt(all[i as int])));
            }
        }
        i += 1;
    }
    match parts.pop() {
        Some(key) => {
            assert(key@ == all.last());
            Some((mods, key))
        },
        None => None,
    }
}

/// No text names two modifiers.
pub proof fn modifier_names_are_distinct(part: Seq<char>)
    ensures
        names_super(part) ==> !names_shift(part) && !names_ctrl(part) && !names_alt(part),
        names_shift(part) ==> !names_ctrl(part) && !names_alt(part),
        names_ctrl(part) ==> !names_alt(part),
{
    reveal_strlit("super");
    reveal_strlit("logo");
    reveal_strlit("mod4");
    reveal_strlit("shift");
    reveal_strlit("ctrl");
    reveal_strlit("control");
    reveal_strlit("alt");
    reveal_strlit("mod1");
    assert("super"@[1] != "shift"@[1]);
    assert("mod4"@[3] != "mod1"@[3]);
    assert("logo"@[0] == 'l' && "mod4"@[0] == 'm' && "ctrl"@[0] == 'c' && "mod1"@[0] == 'm');
    if names_super(part) && names_shift(part) {
        assert(text::fold_char(part[1]) == "shift"@[1]);
    }
    if names_alt(part) && part.len() == 4 {
        assert(text::fold_char(part[0]) == "mod1"@[0]);
        assert(text::fold_char(part[3]) == "mod1"@[3]);
    }
    if names_ctrl(part) && part.len() == 4 {
        assert(text::fold_char(part[0]) == "ctrl"@[0]);
    }
}

/// The binding of an action to an accelerator.
pub fn bind(binding: &str, action: &str) -> (r: KeyBinding)
    ensures
        r@ == bound(binding@, action@),
{
    let (modifiers, key) = match parse_keybinding(binding) {
        Some(parsed) => parsed,
        None => (KeyBindingModifiers::default(), String::new()),
    };
    KeyBinding { modifiers, key, action: action.to_owned() }
}

/// The models of a list of bindings.
pub open spec fn models(bindings: Seq<KeyBinding>) -> Seq<KeyBindingModel> {
    bindings.map_values(|b: KeyBinding| b@)
}

/// The bindings that hold where none are configured.
pub open spec fn default_bindings() -> Seq<KeyBindingModel> {
    seq![
        bound("Super+T"@, "toggle_tiling"@),
        bound("Super+Shift+Space"@, "toggle_window_floating"@),
        bound("Super+H"@, "focus_left"@),
        bound("Super+J"@, "focus_down"@),
        bound("Super+K"@, "focus_up"@),
        bound("Super+L"@, "focus_right"@),
        bound("Super+Shift+H"@, "move_left"@),
        bound("Super+Shift+J"@, "move_down"@),
        bound("Super+Shift+K"@, "move_up"@),
        bound("Super+Shift+L"@, "move_right"@),
        bound("Super+F"@, "fullscreen"@),
        bound("Super+Q"@, "close_window"@),
        bound("Super+M"@, "toggle_monocle"@),
        bound("Super+Minus"@, "scratchpad_toggle"@),
        bound("Super+Shift+Minus"@, "scratchpad_move"@),
        bound("Super+1"@, "workspace_switch:1"@),
        bound("Super+2"@, "workspace_switch:2"@),
        bound("Super+3"@, "workspace_switch:3"@),
        bound("Super+4"@, "workspace_switch:4"@),
        bound("Super+5"@, "workspace_switch:5"@),
        bound("Super+6"@, "workspace_switch:6"@),
        bound("Super+7"@, "workspace_switch:7"@),
        bound("Super+8"@, "workspace_switch:8"@),
        bound("Super+9"@, "workspace_switch:9"@),
        bound("Super+Shift+1"@, "workspace_move:1"@),
        bound("Super+Shift+2"@, "workspace_move:2"@),
        bound("Super+Shift+3"@, "workspace_move:3"@),
        bound("Super+Shift+4"@, "workspace_move:4"@),
        bound("Super+Shift+5"@, "workspace_move:5"@),
        bound("Super+Shift+6"@, "workspace_move:6"@),
        bound("Super+Shift+7"@, "workspace_move:7"@),
        bound("Super+Shift+8"@, "workspace_move:8"@),
        bound("Super+Shift+9"@, "workspace_move:9"@),
        bound("Super+Return"@, "spawn:foot"@),
        bound("Super+Space"@, "shell:waypointer_open"@),
    ]
}

/// The bindings that hold where none are configured.
pub fn default_keybindings() -> (r: Vec<KeyBinding>)
    ensures
        models(r@) == default_bindings(),
{
    let mut bindings: Vec<KeyBinding> = Vec::new();
    bindings.push(bind("Super+T", "toggle_tiling"));
    bindings.push(bind("Super+Shift+Space", "toggle_window_floating"));
    bindings.push(bind("Super+H", "focus_left"));
    bindings.push(bind("Super+J", "focus_down"));
    bindings.push(bind("Super+K", "focus_up"));
    bindings.push(bind("Super+L", "focus_right"));
    bindings.push(bind("Super+Shift+H", "move_left"));
    bindings.push(bind("Super+Shift+J", "move_down"));
    bindings.push(bind("Super+Shift+K", "move_up"));
    bindings.push(bind("Super+Shift+L", "move_right"));
    bindings.push(bind("Super+F", "fullscreen"));
    bindings.push(bind("Super+Q", "close_window"));
    bindings.push(bind("Super+M", "toggle_monocle"));
    bindings.push(bind("Super+Minus", "scratchpad_toggle"));
    bindings.push(bind("Super+Shift+Minus", "scratchpad_move"));
    bindings.push(bind("Super+1", "workspace_switch:1"));
    bindings.push(bind("Super+2", "workspace_switch:2"));
    bindings.push(bind("Super+3", "workspace_switch:3"));
    bindings.push(bind("Super+4", "workspace_switch:4"));
    bindings.push(bind("Super+5", "workspace_switch:5"));
    bindings.push(bind("Super+6", "workspace_switch:6"));
    bindings.push(bind("Super+7", "workspace_switch:7"));
    bindings.push(bind("Super+8", "workspace_switch:8"));
    bindings.push(bind("Super+9", "workspace_switch:9"));
    bindings.push(bind("Super+Shift+1", "workspace_move:1"));
    bindings.push(bind("Super+Shift+2", "workspace_move:2"));
    bindings.push(bind("Super+Shift+3", "workspace_move:3"));
    bindings.push(bind("Super+Shift+4", "workspace_move:4"));
    bindings.push(bind("Super+Shift+5", "workspace_move:5"));
    bindings.push(bind("Super+Shift+6", "workspace_move:6"));
    bindings.push(bind("Super+Shift+7", "workspace_move:7"));
    bindings.push(bind("Super+Shift+8", "workspace_move:8"));
    bindings.push(bind("Super+Shift+9", "workspace_move:9"));
    bindings.push(bind("Super+Return", "spawn:foot"));
    bindings.push(bind("Super+Space", "shell:waypointer_open"));
    assert(models(bindings@) =~= default_bindings());
    bindings
}

/// The bindings of a table from accelerators to actions. Values that are no texts are ignored.
pub open spec fn configured(section: Seq<(Seq<char>, TomlModel)>) -> Seq<KeyBindingModel>
    decreases section.len(),
{
    if section.len() == 0 {
        seq![]
    } else {
        let before = configured(section.drop_last());
        match section.last().1 {
            TomlModel::Text(action) => before.push(bound(section.last().0, action)),
            _ => before,
        }
    }
}

/// The bindings of a document: those of its table `keybindings`, even if it is empty, or the
/// default ones where there is no such table.
pub open spec fn keybindings_of(document: Seq<(Seq<char>, TomlModel)>) -> Seq<KeyBindingModel> {
    match value::table_at(document, "keybindings"@) {
        Some(section) => configured(section),
        None => default_bindings(),
    }
}

/// The bindings of a document.
pub fn parse_keybindings_config(table: &Vec<TomlEntry>) -> (r: Vec<KeyBinding>)
    ensures
        models(r@) == keybindings_of(value::entries_model(table@)),
{
    let section: &Vec<TomlEntry> = match get_table(table, "keybindings") {
        Some(section) => section,
        None => return default_keybindings(),
    };
    let ghost all = value::entries_model(section@);
    let mut bindings: Vec<KeyBinding> = Vec::new();
    let mut i: usize = 0;
    proof {
        assert(models(bindings@) =~= configured(all.take(0)));
    }
    while i < section.len()
        invariant
            i <= section@.len(),
            all == value::entries_model(section@),
            models(bindings@) == configured(all.take(i as int)),
        decreases section@.len() - i,
    {
        proof {
            assert(all.take(i + 1).drop_last() =~= all.take(i as int));
            assert(all.take(i + 1).last() == (
                section@[i as int].key@,
                section@[i as int].value.model(),
            ));
        }
        let ghost before = bindings@;
        if let Some(action) = section[i].value.as_str() {
            bindings.push(bind(section[i].key.as_str(), action));
            assert(models(bindings@) =~= models(before).push(bindings@.last()@));
        }
        i += 1;
    }
    proof {
        assert(all.take(i as int) =~= all);
    }
    bindings
}

/// A directory below the parent of a file.
pub fn directory_beside(parent: Option<String>, directory: &str) -> (r: String)
    ensures
        r@ == match parent {
            Some(p) => path::joined(p@, directory@),
            None => path::joined("."@, directory@),
        },
{
    match parent {
        Some(p) => join_paths(p.as_str(), directory),
        None => join_paths(".", directory),
    }
}

/// The directory of the key bindings that modules have installed: below that of the main
/// configuration file.
pub fn keybinding_fragment_dir(toml_path: &str) -> (r: String)
    ensures
        r@ == match path::path_parent(toml_path@) {
            Some(parent) => path::joined(parent, "compositor.d/keybindings.d"@),
            None => path::joined("."@, "compositor.d/keybindings.d"@),
        },
{
    directory_beside(parent_of(toml_path), "compositor.d/keybindings.d")
}

/// The file of the main configuration: the one that is named, or else the default one in the
/// home directory, which is `/tmp` where it is not known.
pub fn config_path(named: Option<String>, home: Option<String>) -> (r: String)
    ensures
        r@ == match (named, home) {
            (Some(path), _) => path@,
            (None, Some(home)) => path::joined(home@, ".config/lunaris/compositor.toml"@),
            (None, None) => path::joined("/tmp"@, ".config/lunaris/compositor.toml"@),
        },
{
    match named {
        Some(path) => path,
        None => match home {
            Some(home) => join_paths(home.as_str(), ".config/lunaris/compositor.toml"),
            None => join_paths("/tmp", ".config/lunaris/compositor.toml"),
        },
    }
}

/// A key binding that a module has installed.
#[derive(Debug, PartialEq, Eq)]
pub struct FragmentEntry {
    /// The name of the module.
    pub module_id: String,
    pub binding: String,
    pub action: String,
}

/// The model of a binding that a module has installed.
#[verifier::ext_equal]
pub struct FragmentModel {
    pub module_id: Seq<char>,
    pub binding: Seq<char>,
    pub action: Seq<char>,
}

impl View for FragmentEntry {
    type V = FragmentModel;

    open spec fn view(&self) -> FragmentModel {
        FragmentModel {
            module_id: self.module_id@,
            binding: self.binding@,
            action: self.action@,
        }
    }
}

/// A file of the directory of key bindings: its name, and its content where it could be read.
#[derive(Debug, PartialEq, Eq)]
pub struct FragmentFile {
    pub name: String,
    pub content: Option<String>,
}

/// The position of the last dot of a file name, or -1.
pub open spec fn last_dot(name: Seq<char>) -> int
    decreases name.len(),
{
    if name.len() == 0 {
        -1
    } else if name.last() == '.' {
        name.len() - 1
    } else {
        last_dot(name.drop_last())
    }
}

/// A file name without its extension, and the extension: what follows the last dot, unless the
/// name starts with it.
pub open spec fn stem_and_extension(name: Seq<char>) -> (Seq<char>, Option<Seq<char>>) {
    let dot = last_dot(name);
    if dot <= 0 {
        (name, None)
    } else {
        (name.take(dot), Some(name.skip(dot + 1)))
    }
}

/// A file name without its extension, and the extension.
fn split_extension(name: &str) -> (r: (String, Option<String>))
    ensures
        (r.0@, text::optional_view(r.1)) == stem_and_extension(name@),
{
    let x: Vec<char> = to_chars(name);
    let mut dot: usize = x.len();
    proof {
        assert(x@.take(x@.len() as int) =~= x@);
    }
    while dot > 0 && x[dot - 1] != '.'
        invariant
            dot <= x@.len(),
            last_dot(x@) == last_dot(x@.take(dot as int)),
        decreases dot,
    {
        proof {
            assert(x@.take(dot as int).drop_last() =~= x@.take(dot - 1));
            assert(x@.take(dot as int).last() == x@[dot - 1]);
        }
        dot -= 1;
    }
    proof {
        if dot > 0 {
            assert(x@.take(dot as int).last() == x@[dot - 1]);
        }
        assert(last_dot(name@) == dot - 1);
    }
    if dot <= 1 {
        (name.to_owned(), None)
    } else {
        let stem: String = from_chars(&x, 0, dot - 1);
        let extension: String = from_chars(&x, dot, x.len());
        proof {
            assert(stem@ =~= name@.take(dot - 1));
            assert(extension@ =~= name@.skip(dot as int));
        }
        (stem, Some(extension))
    }
}

/// The bindings of a module's table. Values that are no texts are ignored.
pub open spec fn module_bindings(
    module_id: Seq<char>,
    section: Seq<(Seq<char>, TomlModel)>,
) -> Seq<FragmentModel>
    decreases section.len(),
{
    if section.len() == 0 {
        seq![]
    } else {
        let before = module_bindings(module_id, section.drop_last());
        match section.last().1 {
            TomlModel::Text(action) => before.push(
                FragmentModel { module_id, binding: section.last().0, action },
            ),
            _ => before,
        }
    }
}

/// The bindings of a file: those of the table `keybindings` of a TOML document whose name ends
/// in `.toml`. Any other file has none.
pub open spec fn file_bindings(name: Seq<char>, content: Option<Seq<char>>) -> Seq<FragmentModel> {
    let (stem, extension) = stem_and_extension(name);
    match (extension, content) {
        (Some(e), Some(c)) if e == "toml"@ => match value::toml_document(c) {
            Some(document) => match value::table_at(document, "keybindings"@) {
                Some(section) => module_bindings(stem, section),
                None => seq![],
            },
            None => seq![],
        },
        _ => seq![],
    }
}

/// The bindings of all files of the directory in their order.
pub open spec fn fragments_of(files: Seq<FragmentFile>) -> Seq<FragmentModel>
    decreases files.len(),
{
    if files.len() == 0 {
        seq![]
    } else {
        fragments_of(files.drop_last()) + file_bindings(
            files.last().name@,
            text::optional_view(files.last().content),
        )
    }
}

/// The models of a list of bindings.
pub open spec fn fragment_models(entries: Seq<FragmentEntry>) -> Seq<FragmentModel> {
    entries.map_values(|e: FragmentEntry| e@)
}

/// Adds the bindings of a module's table.
pub fn add_module_bindings(
    module_id: &str,
    section: &Vec<TomlEntry>,
    out: &mut Vec<FragmentEntry>,
)
    ensures
        fragment_models(final(out)@) == fragment_models(old(out)@) + module_bindings(
            module_id@,
            value::entries_model(section@),
        ),
{
    let ghost all = value::entries_model(section@);
    let ghost start = fragment_models(out@);
    let mut i: usize = 0;
    proof {
        assert(start + module_bindings(module_id@, all.take(0)) =~= start);
    }
    while i < section.len()
        invariant
            i <= section@.len(),
            all == value::entries_model(section@),
            fragment_models(out@) == start + module_bindings(module_id@, all.take(i as int)),
        decreases section@.len() - i,
    {
        proof {
            assert(all.take(i + 1).drop_last() =~= all.take(i as int));
            assert(all.take(i + 1).last() == (
                section@[i as int].key@,
                section@[i as int].value.model(),
            ));
        }
        let ghost before = out@;
        if let Some(action) = section[i].value.as_str() {
            out.push(
                FragmentEntry {
                    module_id: module_id.to_owned(),
                    binding: section[i].key.clone(),
                    action: action.to_owned(),
                },
            );
            proof {
                assert(fragment_models(out@) =~= fragment_models(before).push(out@.last()@));
                assert(fragment_models(out@) =~= start + module_bindings(
                    module_id@,
                    all.take(i + 1),
                ));
            }
        }
        i += 1;
    }
    proof {
        assert(all.take(i as int) =~= all);
    }
}

/// Adds the bindings of a file.
fn add_file_bindings(name: &str, content: &Option<String>, out: &mut Vec<FragmentEntry>)
    ensures
        fragment_models(final(out)@) == fragment_models(old(out)@) + file_bindings(
            name@,
            text::optional_view(*content),
        ),
{
    proof {
        assert(fragment_models(out@) + seq![] =~= fragment_models(out@));
    }
    let (stem, extension) = split_extension(name);
    let is_toml: bool = match extension {
        Some(e) => str_eq(e.as_str(), "toml"),
        None => false,
    };
    if !is_toml {
        return ;
    }
    if let Some(c) = content {
        if let Some(document) = parse_document(c.as_str()) {
            if let Some(section) = get_table(&document, "keybindings") {
                add_module_bindings(stem.as_str(), section, out);
            }
        }
    }
}

/// The key bindings that modules have installed. Files that are not TOML documents, or could not
/// be read, are passed over.
pub fn load_keybinding_fragments(files: &Vec<FragmentFile>) -> (r: Vec<FragmentEntry>)
    ensures
        fragment_models(r@) == fragments_of(files@),
{
    let mut out: Vec<FragmentEntry> = Vec::new();
    let mut i: usize = 0;
    proof {
        assert(fragment_models(out@) =~= fragments_of(files@.take(0)));
    }
    while i < files.len()
        invariant
            i <= files@.len(),
            fragment_models(out@) == fragments_of(files@.take(i as int)),
        decreases files@.len() - i,
    {
        proof {
            assert(files@.take(i + 1).drop_last() =~= files@.take(i as int));
        }
        add_file_bindings(files[i].name.as_str(), &files[i].content, &mut out);
        i += 1;
    }
    proof {
        assert(files@.take(i as int) =~= files@);
    }
    out
}

} // verus!
