//! The keyboard layout and where it comes from.

use crate::config::value;
use crate::config::value::{get_array, get_integer, get_str, TomlEntry, TomlModel, TomlValue};
use crate::text;
use crate::text::{join, optional_eq, split_str, str_eq, strip_char, strip_prefix, trim_str};
use vstd::prelude::*;

verus! {

/// The configuration of the keyboard.
#[derive(Debug, PartialEq, Eq)]
pub struct XkbConfig {
    pub rules: String,
    pub model: String,
    /// Layouts, separated by commas.
    pub layout: String,
    /// Variants, separated by commas and in the order of the layouts.
    pub variant: String,
    pub options: Option<String>,
    pub repeat_delay: u32,
    pub repeat_rate: u32,
}

/// The model of the configuration of the keyboard.
#[verifier::ext_equal]
pub struct XkbModel {
    pub rules: Seq<char>,
    pub model: Seq<char>,
    pub layout: Seq<char>,
    pub variant: Seq<char>,
    pub options: Option<Seq<char>>,
    pub repeat_delay: u32,
    pub repeat_rate: u32,
}

impl View for XkbConfig {
    type V = XkbModel;

    open spec fn view(&self) -> XkbModel {
        XkbModel {
            rules: self.rules@,
            model: self.model@,
            layout: self.layout@,
            variant: self.variant@,
            options: text::optional_view(self.options),
            repeat_delay: self.repeat_delay,
            repeat_rate: self.repeat_rate,
        }
    }
}

impl Clone for XkbConfig {
    fn clone(&self) -> (r: XkbConfig)
        ensures
            r == *self,
    {
        let options: Option<String> = match &self.options {
            Some(o) => Some(o.clone()),
            None => None,
        };
        XkbConfig {
            rules: self.rules.clone(),
            model: self.model.clone(),
            layout: self.layout.clone(),
            variant: self.variant.clone(),
            options,
            repeat_delay: self.repeat_delay,
            repeat_rate: self.repeat_rate,
        }
    }
}

impl XkbConfig {
    /// Whether two configurations are the same.
    pub fn equals(&self, other: &XkbConfig) -> (r: bool)
        ensures
            r == (self@ == other@),
    {
        str_eq(self.rules.as_str(), other.rules.as_str()) && str_eq(
            self.model.as_str(),
            other.model.as_str(),
        ) && str_eq(self.layout.as_str(), other.layout.as_str()) && str_eq(
            self.variant.as_str(),
            other.variant.as_str(),
        ) && optional_eq(&self.options, &other.options) && self.repeat_delay == other.repeat_delay
            && self.repeat_rate == other.repeat_rate
    }
}

/// The texts among the values of an array.
pub open spec fn texts_of(items: Seq<TomlModel>) -> Seq<Seq<char>>
    decreases items.len(),
{
    if items.len() == 0 {
        seq![]
    } else {
        match items.last() {
            TomlModel::Text(s) => texts_of(items.drop_last()).push(s),
            _ => texts_of(items.drop_last()),
        }
    }
}

/// The values of an array as texts, empty for those that are none.
pub open spec fn texts_or_empty(items: Seq<TomlModel>) -> Seq<Seq<char>> {
    items.map_values(
        |v: TomlModel|
            match v {
                TomlModel::Text(s) => s,
                _ => seq![],
            },
    )
}

/// The texts among the values of an array.
fn collect_texts(items: &Vec<TomlValue>) -> (r: Vec<String>)
    ensures
        text::list_view(r@) == texts_of(value::items_model(items@)),
{
    let ghost all = value::items_model(items@);
    let mut out: Vec<String> = Vec::new();
    let mut i: usize = 0;
    proof {
        assert(text::list_view(out@) =~= texts_of(all.take(0)));
    }
    while i < items.len()
        invariant
            i <= items@.len(),
            all == value::items_model(items@),
            text::list_view(out@) == texts_of(all.take(i as int)),
        decreases items@.len() - i,
    {
        proof {
            assert(all.take(i + 1).drop_last() =~= all.take(i as int));
            assert(all.take(i + 1).last() == items@[i as int].model());
        }
        let ghost before = out@;
        if let Some(s) = items[i].as_str() {
            out.push(s.to_owned());
            assert(text::list_view(out@) =~= text::list_view(before).push(s@));
        }
        i += 1;
    }
    proof {
        assert(all.take(i as int) =~= all);
    }
    out
}

/// The values of an array as texts, empty for those that are none.
fn collect_or_empty(items: &Vec<TomlValue>) -> (r: Vec<String>)
    ensures
        text::list_view(r@) == texts_or_empty(value::items_model(items@)),
{
    let ghost all = value::items_model(items@);
    let mut out: Vec<String> = Vec::new();
    let mut i: usize = 0;
    while i < items.len()
        invariant
            i <= items@.len(),
            all == value::items_model(items@),
            text::list_view(out@) =~= texts_or_empty(all).take(i as int),
        decreases items@.len() - i,
    {
        proof {
            assert(all[i as int] == items@[i as int].model());
        }
        let item: String = match items[i].as_str() {
            Some(s) => s.to_owned(),
            None => String::new(),
        };
        let ghost before = out@;
        out.push(item);
        proof {
            assert(texts_or_empty(all)[i as int] =~= item@);
            assert(text::list_view(out@) =~= text::list_view(before).push(item@));
        }
        i += 1;
    }
    proof {
        assert(texts_or_empty(all).take(i as int) =~= texts_or_empty(all));
    }
    out
}

/// The keyboard with what a table of a document gives. A list of layouts counts instead of a
/// single one, unless it holds no text, and a list of variants instead of a single one, with an
/// empty variant for what is no text. Empty options are ignored.
pub open spec fn with_xkb(section: Seq<(Seq<char>, TomlModel)>, m: XkbModel) -> XkbModel {
    XkbModel {
        layout: match value::array_at(section, "layouts"@) {
            Some(items) => {
                let list = text::joined(texts_of(items), ","@);
                if list.len() > 0 {
                    list
                } else {
                    m.layout
                }
            },
            None => match value::text_at(section, "layout"@) {
                Some(s) => s,
                None => m.layout,
            },
        },
        model: match value::text_at(section, "model"@) {
            Some(s) => s,
            None => m.model,
        },
        variant: match value::array_at(section, "variants"@) {
            Some(items) => text::joined(texts_or_empty(items), ","@),
            None => match value::text_at(section, "variant"@) {
                Some(s) => s,
                None => m.variant,
            },
        },
        options: match value::text_at(section, "options"@) {
            Some(s) if s.len() > 0 => Some(s),
            _ => m.options,
        },
        repeat_rate: match value::integer_at(section, "repeat_rate"@) {
            Some(n) => n as u32,
            None => m.repeat_rate,
        },
        repeat_delay: match value::integer_at(section, "repeat_delay"@) {
            Some(n) => n as u32,
            None => m.repeat_delay,
        },
        ..m
    }
}

/// The layouts that a table of a document gives.
fn section_layout(section: &Vec<TomlEntry>) -> (r: Option<String>)
    ensures
        ({
            let entries = value::entries_model(section@);
            text::optional_view(r) == match value::array_at(entries, "layouts"@) {
                Some(items) => {
                    let list = text::joined(texts_of(items), ","@);
                    if list.len() > 0 {
                        Some(list)
                    } else {
                        None
                    }
                },
                None => value::text_at(entries, "layout"@),
            }
        }),
{
    if let Some(items) = get_array(section, "layouts") {
        let list: String = join(&collect_texts(items), ",");
        if list.as_str().is_empty() {
            None
        } else {
            Some(list)
        }
    } else {
        match get_str(section, "layout") {
            Some(s) => Some(s.to_owned()),
            None => None,
        }
    }
}

/// The variants that a table of a document gives.
fn section_variant(section: &Vec<TomlEntry>) -> (r: Option<String>)
    ensures
        ({
            let entries = value::entries_model(section@);
            text::optional_view(r) == match value::array_at(entries, "variants"@) {
                Some(items) => Some(text::joined(texts_or_empty(items), ","@)),
                None => value::text_at(entries, "variant"@),
            }
        }),
{
    if let Some(items) = get_array(section, "variants") {
        Some(join(&collect_or_empty(items), ","))
    } else {
        match get_str(section, "variant") {
            Some(s) => Some(s.to_owned()),
            None => None,
        }
    }
}

/// Applies a table of a document to the configuration of the keyboard.
pub fn parse_xkb_config(section: &Vec<TomlEntry>, config: &mut XkbConfig)
    ensures
        final(config)@ == with_xkb(value::entries_model(section@), old(config)@),
{
    if let Some(layout) = section_layout(section) {
        config.layout = layout;
    }
    if let Some(s) = get_str(section, "model") {
        config.model = s.to_owned();
    }
    if let Some(variant) = section_variant(section) {
        config.variant = variant;
    }
    if let Some(s) = get_str(section, "options") {
        if !s.is_empty() {
            config.options = Some(s.to_owned());
        }
    }
    if let Some(n) = get_integer(section, "repeat_rate") {
        config.repeat_rate = n as u32;
    }
    if let Some(n) = get_integer(section, "repeat_delay") {
        config.repeat_delay = n as u32;
    }
}

/// The keyboard as the environment gives it.
#[derive(Debug, PartialEq, Eq)]
pub struct XkbEnvironment {
    pub layout: Option<String>,
    pub variant: Option<String>,
    pub model: Option<String>,
    pub rules: Option<String>,
    pub options: Option<String>,
}

/// The keyboard as the system gives it. An empty text stands for nothing.
#[derive(Debug, PartialEq, Eq)]
pub struct SystemXkb {
    pub layout: String,
    pub variant: String,
    pub model: String,
    pub options: String,
}

/// A text, or where it is empty the one to fall back to, if there is one.
pub open spec fn or_fallback(s: Seq<char>, fallback: Option<Seq<char>>) -> Seq<char> {
    match fallback {
        Some(f) if s.len() == 0 => f,
        _ => s,
    }
}

/// An optional text, or else the one to fall back to, unless that is empty.
pub open spec fn or_nonempty(s: Option<Seq<char>>, fallback: Option<Seq<char>>) -> Option<
    Seq<char>,
> {
    match fallback {
        Some(f) if s is None && f.len() > 0 => Some(f),
        _ => s,
    }
}

/// The keyboard with what is not configured taken from the environment.
pub open spec fn with_environment(m: XkbModel, env: XkbEnvironment) -> XkbModel {
    XkbModel {
        layout: or_fallback(m.layout, text::optional_view(env.layout)),
        variant: or_fallback(m.variant, text::optional_view(env.variant)),
        model: or_fallback(m.model, text::optional_view(env.model)),
        rules: or_fallback(m.rules, text::optional_view(env.rules)),
        options: or_nonempty(m.options, text::optional_view(env.options)),
        ..m
    }
}

/// The keyboard with what is not configured taken from the system, where no layout is.
pub open spec fn with_system(m: XkbModel, system: SystemXkb) -> XkbModel {
    if m.layout.len() > 0 {
        m
    } else {
        XkbModel {
            layout: system.layout@,
            variant: or_fallback(m.variant, Some(system.variant@)),
            model: or_fallback(m.model, Some(system.model@)),
            options: or_nonempty(m.options, Some(system.options@)),
            ..m
        }
    }
}

/// The keyboard with the layout of the console, where no layout is configured.
pub open spec fn with_console(m: XkbModel, keymap: Option<Seq<char>>) -> XkbModel {
    XkbModel { layout: or_fallback(m.layout, keymap), ..m }
}

/// Takes what is not configured from the environment.
pub fn apply_environment(config: &mut XkbConfig, env: XkbEnvironment)
    ensures
        final(config)@ == with_environment(old(config)@, env),
{
    if config.layout.as_str().is_empty() {
        if let Some(layout) = env.layout {
            config.layout = layout;
        }
    }
    if config.variant.as_str().is_empty() {
        if let Some(variant) = env.variant {
            config.variant = variant;
        }
    }
    if config.model.as_str().is_empty() {
        if let Some(model) = env.model {
            config.model = model;
        }
    }
    if config.rules.as_str().is_empty() {
        if let Some(rules) = env.rules {
            config.rules = rules;
        }
    }
    if config.options.is_none() {
        if let Some(options) = env.options {
            if !options.as_str().is_empty() {
                config.options = Some(options);
            }
        }
    }
}

/// Takes what is not configured from the system, where no layout is.
pub fn apply_system(config: &mut XkbConfig, system: SystemXkb)
    ensures
        final(config)@ == with_system(old(config)@, system),
{
    if config.layout.as_str().is_empty() {
        if !system.layout.as_str().is_empty() {
            config.layout = system.layout;
        } else {
            assert(config.layout@ =~= system.layout@);
        }
        if config.variant.as_str().is_empty() && !system.variant.as_str().is_empty() {
            config.variant = system.variant;
        } else if config.variant.as_str().is_empty() {
            assert(config.variant@ =~= system.variant@);
        }
        if config.model.as_str().is_empty() && !system.model.as_str().is_empty() {
            config.model = system.model;
        } else if config.model.as_str().is_empty() {
            assert(config.model@ =~= system.model@);
        }
        if config.options.is_none() && !system.options.as_str().is_empty() {
            config.options = Some(system.options);
        }
    }
}

/// Takes the layout of the console, where no layout is configured.
pub fn apply_console(config: &mut XkbConfig, keymap: Option<String>)
    ensures
        final(config)@ == with_console(old(config)@, text::optional_view(keymap)),
{
    if config.layout.as_str().is_empty() {
        if let Some(layout) = keymap {
            config.layout = layout;
        }
    }
}

/// The keyboard to use: what is configured, and for the rest what the environment gives; where
/// that leaves no layout, what the system gives, and at last the layout of the console.
pub fn xkb_config(
    config: &XkbConfig,
    env: XkbEnvironment,
    system: SystemXkb,
    keymap: Option<String>,
) -> (r: XkbConfig)
    ensures
        r@ == with_console(
            with_system(with_environment(config@, env), system),
            text::optional_view(keymap),
        ),
{
    let mut r: XkbConfig = config.clone();
    apply_environment(&mut r, env);
    apply_system(&mut r, system);
    apply_console(&mut r, keymap);
    r
}

/// What follows a prefix on the last line that begins with it, without the white space around;
/// empty where there is no such line.
pub open spec fn last_field(lines: Seq<Seq<char>>, prefix: Seq<char>) -> Seq<char>
    decreases lines.len(),
{
    if lines.len() == 0 {
        seq![]
    } else {
        let line = text::trimmed(lines.last());
        if text::has_prefix(line, prefix) {
            text::trimmed(line.skip(prefix.len() as int))
        } else {
            last_field(lines.drop_last(), prefix)
        }
    }
}

/// A line has at most one of the four prefixes.
proof fn field_prefixes_differ(line: Seq<char>)
    ensures
        text::has_prefix(line, "X11 Layout:"@) ==> !text::has_prefix(line, "X11 Variant:"@)
            && !text::has_prefix(line, "X11 Model:"@) && !text::has_prefix(line, "X11 Options:"@),
        text::has_prefix(line, "X11 Variant:"@) ==> !text::has_prefix(line, "X11 Model:"@)
            && !text::has_prefix(line, "X11 Options:"@),
        text::has_prefix(line, "X11 Model:"@) ==> !text::has_prefix(line, "X11 Options:"@),
{
    reveal_strlit("X11 Layout:");
    reveal_strlit("X11 Variant:");
    reveal_strlit("X11 Model:");
    reveal_strlit("X11 Options:");
    if text::has_prefix(line, "X11 Layout:"@) {
        text::lemma_prefix_char(line, "X11 Layout:"@, 4);
    }
    if text::has_prefix(line, "X11 Variant:"@) {
        text::lemma_prefix_char(line, "X11 Variant:"@, 4);
    }
    if text::has_prefix(line, "X11 Model:"@) {
        text::lemma_prefix_char(line, "X11 Model:"@, 4);
    }
    if text::has_prefix(line, "X11 Options:"@) {
        text::lemma_prefix_char(line, "X11 Options:"@, 4);
    }
}

/// Reads the keyboard from the output of `localectl status`: lines such as `X11 Layout: de`.
pub fn parse_system_xkb(output: &str) -> (r: SystemXkb)
    ensures
        ({
            let lines = text::split_on(output@, '\n');
            &&& r.layout@ == last_field(lines, "X11 Layout:"@)
            &&& r.variant@ == last_field(lines, "X11 Variant:"@)
            &&& r.model@ == last_field(lines, "X11 Model:"@)
            &&& r.options@ == last_field(lines, "X11 Options:"@)
        }),
{
    let lines: Vec<String> = split_str(output, '\n');
    let ghost all = text::list_view(lines@);
    let mut r = SystemXkb {
        layout: String::new(),
        variant: String::new(),
        model: String::new(),
        options: String::new(),
    };
    let mut i: usize = 0;
    while i < lines.len()
        invariant
            i <= lines@.len(),
            all == text::list_view(lines@),
            r.layout@ == last_field(all.take(i as int), "X11 Layout:"@),
            r.variant@ == last_field(all.take(i as int), "X11 Variant:"@),
            r.model@ == last_field(all.take(i as int), "X11 Model:"@),
            r.options@ == last_field(all.take(i as int), "X11 Options:"@),
        decreases lines@.len() - i,
    {
        let line: String = trim_str(lines[i].as_str());
        proof {
            assert(all.take(i + 1).drop_last() =~= all.take(i as int));
            assert(all.take(i + 1).last() == lines@[i as int]@);
            field_prefixes_differ(line@);
        }
        if let Some(v) = strip_prefix(line.as_str(), "X11 Layout:") {
            r.layout = trim_str(v.as_str());
        } else if let Some(v) = strip_prefix(line.as_str(), "X11 Variant:") {
            r.variant = trim_str(v.as_str());
        } else if let Some(v) = strip_prefix(line.as_str(), "X11 Model:") {
            r.model = trim_str(v.as_str());
        } else if let Some(v) = strip_prefix(line.as_str(), "X11 Options:") {
            r.options = trim_str(v.as_str());
        }
        i += 1;
    }
    proof {
        assert(all.take(i as int) =~= all);
    }
    r
}

/// The key map that a line gives, without quotes; none where it gives none.
pub open spec fn keymap_on(line: Seq<char>) -> Option<Seq<char>> {
    let trimmed = text::trimmed(line);
    if text::has_prefix(trimmed, "KEYMAP="@) {
        let value = text::stripped(
            text::stripped(text::trimmed(trimmed.skip("KEYMAP="@.len() as int)), '"'),
            '\'',
        );
        if value.len() > 0 {
            Some(value)
        } else {
            None
        }
    } else {
        None
    }
}

/// The key map of the first line that gives one.
pub open spec fn first_keymap(lines: Seq<Seq<char>>) -> Option<Seq<char>>
    decreases lines.len(),
{
    if lines.len() == 0 {
        None
    } else if keymap_on(lines[0]) is Some {
        keymap_on(lines[0])
    } else {
        first_keymap(lines.skip(1))
    }
}

/// The key map of the console, from the content of `/etc/vconsole.conf`.
pub fn parse_vconsole_keymap(content: &str) -> (r: Option<String>)
    ensures
        text::optional_view(r) == first_keymap(text::split_on(content@, '\n')),
{
    let lines: Vec<String> = split_str(content, '\n');
    let ghost all = text::list_view(lines@);
    let mut i: usize = 0;
    proof {
        assert(all.skip(0) =~= all);
    }
    while i < lines.len()
        invariant
            i <= lines@.len(),
            all == text::list_view(lines@),
            all == text::split_on(content@, '\n'),
            first_keymap(all) == first_keymap(all.skip(i as int)),
        decreases lines@.len() - i,
    {
        proof {
            assert(all.skip(i as int)[0] == lines@[i as int]@);
            assert(all.skip(i as int).skip(1) =~= all.skip(i + 1));
        }
        let line: String = trim_str(lines[i].as_str());
        if let Some(value) = strip_prefix(line.as_str(), "KEYMAP=") {
            let trimmed: String = trim_str(value.as_str());
            let keymap: String = strip_char(strip_char(trimmed.as_str(), '"').as_str(), '\'');
            if !keymap.as_str().is_empty() {
                return Some(keymap);
            }
        }
        i += 1;
    }
    None
}

/// The texts of the keyboard's configuration as the keymap compiler takes them.
pub struct WlXkbConfig<'a> {
    pub rules: &'a str,
    pub model: &'a str,
    pub layout: &'a str,
    pub variant: &'a str,
    pub options: Option<String>,
}

/// The texts of the keyboard's configuration as the keymap compiler takes them.
pub fn xkb_config_to_wl(config: &XkbConfig) -> (r: WlXkbConfig<'_>)
    ensures
        r.rules@ == config@.rules,
        r.model@ == config@.model,
        r.layout@ == config@.layout,
        r.variant@ == config@.variant,
        text::optional_view(r.options) == config@.options,
{
    let options: Option<String> = match &config.options {
        Some(o) => Some(o.clone()),
        None => None,
    };
    WlXkbConfig {
        rules: config.rules.as_str(),
        model: config.model.as_str(),
        layout: config.layout.as_str(),
        variant: config.variant.as_str(),
        options,
    }
}

/// What is configured wins over every source to fall back to.
pub proof fn configured_keyboard_is_kept(
    m: XkbModel,
    env: XkbEnvironment,
    system: SystemXkb,
    keymap: Option<Seq<char>>,
)
    ensures
        ({
            let r = with_console(with_system(with_environment(m, env), system), keymap);
            &&& m.layout.len() > 0 ==> r.layout == m.layout
            &&& m.variant.len() > 0 ==> r.variant == m.variant
            &&& m.model.len() > 0 ==> r.model == m.model
            &&& m.rules.len() > 0 ==> r.rules == m.rules
            &&& m.options is Some ==> r.options == m.options
            &&& r.repeat_rate == m.repeat_rate && r.repeat_delay == m.repeat_delay
        }),
{
}

/// The layout is the first one that is not empty among the configured one and those of the
/// environment, the system and the console, in this order.
pub proof fn layout_comes_from_the_first_source(
    m: XkbModel,
    env: XkbEnvironment,
    system: SystemXkb,
    keymap: Option<Seq<char>>,
)
    ensures
        ({
            let r = with_console(with_system(with_environment(m, env), system), keymap);
            let from_env = text::optional_view(env.layout);
            r.layout == if m.layout.len() > 0 {
                m.layout
            } else if from_env is Some && from_env->0.len() > 0 {
                from_env->0
            } else if system.layout@.len() > 0 {
                system.layout@
            } else if keymap is Some {
                keymap->0
            } else {
                seq![]
            }
        }),
{
    let e = with_environment(m, env);
    let s = with_system(e, system);
    let r = with_console(s, keymap);
    if s.layout.len() == 0 && keymap is None {
        assert(r.layout =~= seq![]);
    }
}

} // verus!
