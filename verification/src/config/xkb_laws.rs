//! Where each part of the keyboard's configuration comes from.

use crate::config::value;
use crate::config::value::TomlModel;
use crate::config::xkb;
use crate::config::xkb::{SystemXkb, XkbEnvironment, XkbModel};
use crate::text;
use vstd::prelude::*;

verus! {

/// Each key of a table sets what it names.
pub proof fn each_key_of_the_keyboard_is_read(
    section: Seq<(Seq<char>, TomlModel)>,
    m: XkbModel,
    word: Seq<char>,
    n: i64,
)
    ensures
        ({
            let r = xkb::with_xkb(section, m);
            let fits = 0 <= n <= u32::MAX;
            &&& value::lookup(section, "layouts"@) is None && value::lookup(section, "layout"@)
                == Some(TomlModel::Text(word)) ==> r.layout == word
            &&& value::lookup(section, "model"@) == Some(TomlModel::Text(word)) ==> r.model == word
            &&& value::lookup(section, "variants"@) is None && value::lookup(section, "variant"@)
                == Some(TomlModel::Text(word)) ==> r.variant == word
            &&& value::lookup(section, "options"@) == Some(TomlModel::Text(word)) && word.len() > 0
                ==> r.options == Some(word)
            &&& value::lookup(section, "options"@) == Some(TomlModel::Text(word)) && word.len()
                == 0 ==> r.options == m.options
            &&& value::lookup(section, "repeat_rate"@) == Some(TomlModel::Integer(n)) && fits
                ==> r.repeat_rate == n
            &&& value::lookup(section, "repeat_delay"@) == Some(TomlModel::Integer(n)) && fits
                ==> r.repeat_delay == n
        }),
{
}

/// What a table does not give stays as it was, and the rules in any case.
pub proof fn the_keyboard_keeps_what_is_not_given(
    section: Seq<(Seq<char>, TomlModel)>,
    m: XkbModel,
)
    ensures
        ({
            let r = xkb::with_xkb(section, m);
            &&& r.rules == m.rules
            &&& value::lookup(section, "layouts"@) is None && value::lookup(section, "layout"@)
                is None ==> r.layout == m.layout
            &&& value::lookup(section, "model"@) is None ==> r.model == m.model
            &&& value::lookup(section, "variants"@) is None && value::lookup(section, "variant"@)
                is None ==> r.variant == m.variant
            &&& value::lookup(section, "options"@) is None ==> r.options == m.options
            &&& value::lookup(section, "repeat_rate"@) is None ==> r.repeat_rate == m.repeat_rate
            &&& value::lookup(section, "repeat_delay"@) is None ==> r.repeat_delay
                == m.repeat_delay
        }),
{
}

/// A list of layouts is the texts in it with commas between them; a value that is no text is left
/// out of it. In a list of variants such a value counts as an empty text.
pub proof fn lists_are_joined_by_commas(
    section: Seq<(Seq<char>, TomlModel)>,
    m: XkbModel,
    a: Seq<char>,
    b: Seq<char>,
    n: i64,
)
    requires
        a.len() > 0,
    ensures
        value::lookup(section, "layouts"@) == Some(
            TomlModel::Array(seq![TomlModel::Text(a), TomlModel::Integer(n), TomlModel::Text(b)]),
        ) ==> xkb::with_xkb(section, m).layout == a.push(',') + b,
        value::lookup(section, "layouts"@) == Some(TomlModel::Array(seq![])) ==> xkb::with_xkb(
            section,
            m,
        ).layout == m.layout,
        value::lookup(section, "variants"@) == Some(
            TomlModel::Array(seq![TomlModel::Text(a), TomlModel::Integer(n), TomlModel::Text(b)]),
        ) ==> xkb::with_xkb(section, m).variant == a.push(',').push(',') + b,
{
    reveal_strlit(",");
    let items = seq![TomlModel::Text(a), TomlModel::Integer(n), TomlModel::Text(b)];
    reveal_with_fuel(xkb::texts_of, 4);
    reveal_with_fuel(text::joined, 4);
    assert(items.drop_last() =~= seq![TomlModel::Text(a), TomlModel::Integer(n)]);
    assert(items.drop_last().drop_last() =~= seq![TomlModel::Text(a)]);
    assert(items.drop_last().drop_last().drop_last() =~= seq![]);
    assert(xkb::texts_of(items) =~= seq![a, b]);
    assert(seq![a, b].drop_last() =~= seq![a]);
    assert(text::joined(seq![a, b], ","@) =~= a.push(',') + b);
    let e = Seq::<char>::empty();
    assert(xkb::texts_or_empty(items) =~= seq![a, e, b]);
    assert(seq![a, e, b].drop_last() =~= seq![a, e]);
    assert(seq![a, e].drop_last() =~= seq![a]);
    assert(text::joined(seq![a, e, b], ","@) =~= a.push(',').push(',') + b);
    assert(text::joined(xkb::texts_of(seq![]), ","@).len() == 0);
}

/// What is not configured comes from the environment: an empty text stands for nothing, and so do
/// empty options.
pub proof fn the_environment_fills_in(
    m: XkbModel,
    env: XkbEnvironment,
    system: SystemXkb,
    keymap: Option<Seq<char>>,
)
    ensures
        ({
            let r = xkb::with_console(
                xkb::with_system(xkb::with_environment(m, env), system),
                keymap,
            );
            &&& m.layout.len() == 0 && env.layout is Some && env.layout->0@.len() > 0 ==> r.layout
                == env.layout->0@
            &&& m.variant.len() == 0 && env.variant is Some && env.variant->0@.len() > 0
                ==> r.variant == env.variant->0@
            &&& m.model.len() == 0 && env.model is Some && env.model->0@.len() > 0 ==> r.model
                == env.model->0@
            &&& m.rules.len() == 0 && env.rules is Some ==> r.rules == env.rules->0@
            &&& m.rules.len() == 0 && env.rules is None ==> r.rules.len() == 0
            &&& m.options is None && env.options is Some && env.options->0@.len() > 0 ==> r.options
                == Some(env.options->0@)
        }),
{
}

/// Where neither the configuration nor the environment gives a layout, the system gives it, and
/// with it the variant, the model and the options that are still missing; where they do, the
/// system gives nothing.
pub proof fn the_system_fills_in_with_the_layout(
    m: XkbModel,
    env: XkbEnvironment,
    system: SystemXkb,
    keymap: Option<Seq<char>>,
)
    requires
        env.layout is None && env.variant is None && env.model is None && env.options is None,
    ensures
        ({
            let r = xkb::with_console(
                xkb::with_system(xkb::with_environment(m, env), system),
                keymap,
            );
            &&& m.layout.len() == 0 && system.layout@.len() > 0 ==> r.layout == system.layout@
            &&& m.layout.len() == 0 && m.variant.len() == 0 ==> r.variant == system.variant@
            &&& m.layout.len() == 0 && m.model.len() == 0 ==> r.model == system.model@
            &&& m.layout.len() == 0 && m.options is None && system.options@.len() > 0 ==> r.options
                == Some(system.options@)
            &&& m.layout.len() == 0 && m.options is None && system.options@.len() == 0
                ==> r.options is None
            &&& m.layout.len() > 0 ==> r.variant == m.variant && r.model == m.model && r.options
                == m.options
            &&& m.layout.len() == 0 && system.layout@.len() == 0 ==> (keymap matches Some(k)
                ==> r.layout == k)
        }),
{
}

/// A field of the system's report is what follows its name on the last line that has it, without
/// the white space around; it is empty where no line has it.
pub proof fn the_last_line_of_a_field_counts(
    lines: Seq<Seq<char>>,
    prefix: Seq<char>,
    k: int,
)
    ensures
        0 <= k < lines.len() && text::has_prefix(text::trimmed(lines[k]), prefix) && (forall|i: int|
            k < i < lines.len() ==> !text::has_prefix(text::trimmed(#[trigger] lines[i]), prefix))
            ==> xkb::last_field(lines, prefix) == text::trimmed(
            text::trimmed(lines[k]).skip(prefix.len() as int),
        ),
        (forall|i: int|
            0 <= i < lines.len() ==> !text::has_prefix(text::trimmed(#[trigger] lines[i]), prefix))
            ==> xkb::last_field(lines, prefix).len() == 0,
    decreases lines.len(),
{
    if lines.len() > 0 && !text::has_prefix(text::trimmed(lines.last()), prefix) {
        let init = lines.drop_last();
        assert forall|i: int| 0 <= i < init.len() implies #[trigger] init[i] == lines[i] by {}
        the_last_line_of_a_field_counts(init, prefix, k);
    }
}

/// The key map of the console is the one of the first line that gives one.
pub proof fn the_first_key_map_counts(lines: Seq<Seq<char>>, k: int)
    ensures
        0 <= k < lines.len() && xkb::keymap_on(lines[k]) is Some && (forall|i: int|
            0 <= i < k ==> xkb::keymap_on(#[trigger] lines[i]) is None) ==> xkb::first_keymap(lines)
            == xkb::keymap_on(lines[k]),
        (forall|i: int| 0 <= i < lines.len() ==> xkb::keymap_on(#[trigger] lines[i]) is None)
            ==> xkb::first_keymap(lines) is None,
    decreases lines.len(),
{
    if lines.len() > 0 && xkb::keymap_on(lines[0]) is None {
        let rest = lines.skip(1);
        assert forall|i: int| 0 <= i < rest.len() implies #[trigger] rest[i] == lines[i + 1] by {}
        the_first_key_map_counts(rest, k - 1);
    }
}

/// Whether a text has neither white space nor quotes at its ends.
pub open spec fn bare(s: Seq<char>) -> bool {
    &&& s.len() > 0
    &&& !text::is_space(s[0]) && !text::is_space(s.last())
    &&& s[0] != '"' && s.last() != '"' && s[0] != '\'' && s.last() != '\''
}

/// A line `KEYMAP=<name>` gives a key map, with or without quotes of either kind around the name.
pub proof fn key_maps_may_be_quoted(name: Seq<char>, quote: char)
    requires
        bare(name),
        quote == '"' || quote == '\'',
    ensures
        xkb::keymap_on("KEYMAP="@ + name) == Some(name),
        xkb::keymap_on("KEYMAP="@ + name.push(quote)) == Some(name),
        xkb::keymap_on("KEYMAP="@ + (seq![quote] + name).push(quote)) == Some(name),
{
    let quoted = (seq![quote] + name).push(quote);
    let half = name.push(quote);
    lemma_line(name);
    lemma_line(half);
    lemma_line(quoted);
    lemma_unquoted(name, name, '"', 0);
    lemma_unquoted(name, name, '\'', 0);
    lemma_unquoted(half, name, quote, 0);
    lemma_unquoted(quoted, name, quote, 1);
    if quote == '\'' {
        lemma_kept(half, '"');
        lemma_kept(quoted, '"');
    }
}

/// A line of another kind gives no key map, and neither does one without a name.
pub proof fn other_lines_give_no_key_map(line: Seq<char>)
    ensures
        xkb::keymap_on(line) matches Some(name) ==> name.len() > 0,
        !text::has_prefix(text::trimmed(line), "KEYMAP="@) ==> xkb::keymap_on(line) is None,
{
}

/// What a line of the console's configuration says of a value without white space at its ends.
proof fn lemma_line(v: Seq<char>)
    requires
        v.len() > 0,
        !text::is_space(v[0]) && !text::is_space(v.last()),
    ensures
        ({
            let line = "KEYMAP="@ + v;
            &&& text::trimmed(line) == line
            &&& text::has_prefix(line, "KEYMAP="@)
            &&& text::trimmed(line.skip("KEYMAP="@.len() as int)) == v
        }),
{
    reveal_strlit("KEYMAP=");
    let line = "KEYMAP="@ + v;
    lemma_untrimmed(line);
    lemma_untrimmed(v);
    text::a_prefix_is_followed_by_the_rest(v, "KEYMAP="@);
}

/// A text without white space at its ends is trimmed.
proof fn lemma_untrimmed(s: Seq<char>)
    requires
        s.len() > 0,
        !text::is_space(s[0]) && !text::is_space(s.last()),
    ensures
        text::trimmed(s) == s,
{
    text::trimming_takes_off_white_space(s);
    let (a, b) = choose|a: int, b: int|
        0 <= a <= b <= s.len() && text::trimmed(s) == #[trigger] s.subrange(a, b) && (forall|i: int|
            0 <= i < a ==> text::is_space(#[trigger] s[i])) && (forall|i: int|
            b <= i < s.len() ==> text::is_space(#[trigger] s[i]));
    assert(a == 0) by {
        if a > 0 {
            assert(text::is_space(s[0]));
        }
    }
    assert(b == s.len()) by {
        if b < s.len() {
            assert(text::is_space(s[s.len() - 1]));
        }
    }
    assert(s.subrange(a, b) =~= s);
}

/// A text without the character at its ends keeps it.
proof fn lemma_kept(s: Seq<char>, c: char)
    requires
        s.len() > 0,
        s[0] != c,
        s.last() != c,
    ensures
        text::stripped(s, c) == s,
{
    text::stripping_takes_off_a_character(s, c);
    let (a, b) = choose|a: int, b: int|
        0 <= a <= b <= s.len() && text::stripped(s, c) == #[trigger] s.subrange(a, b) && (forall|
            i: int,
        |
            0 <= i < a ==> #[trigger] s[i] == c) && (forall|i: int|
            b <= i < s.len() ==> #[trigger] s[i] == c);
    assert(a == 0) by {
        if a > 0 {
            assert(s[0] == c);
        }
    }
    assert(b == s.len()) by {
        if b < s.len() {
            assert(s[s.len() - 1] == c);
        }
    }
    assert(s.subrange(a, b) =~= s);
}

/// The quotes around a name are taken off.
proof fn lemma_unquoted(s: Seq<char>, name: Seq<char>, c: char, from: int)
    requires
        name.len() > 0,
        name[0] != c,
        name.last() != c,
        0 <= from,
        from + name.len() <= s.len(),
        forall|i: int| 0 <= i < name.len() ==> s[from + i] == #[trigger] name[i],
        forall|i: int| 0 <= i < from ==> #[trigger] s[i] == c,
        forall|i: int| from + name.len() <= i < s.len() ==> #[trigger] s[i] == c,
    ensures
        text::stripped(s, c) == name,
{
    text::stripping_takes_off_a_character(s, c);
    let t = text::stripped(s, c);
    let (a, b) = choose|a: int, b: int|
        0 <= a <= b <= s.len() && t == #[trigger] s.subrange(a, b) && (forall|i: int|
            0 <= i < a ==> #[trigger] s[i] == c) && (forall|i: int|
            b <= i < s.len() ==> #[trigger] s[i] == c);
    let n = name.len() as int;
    let to = from + n;
    assert(s[from + 0] == name[0]);
    assert(s[from + (n - 1)] == name[n - 1]);
    assert(a <= from);
    assert(b >= to);
    assert(t.len() == b - a);
    assert(t[0] == s[a]);
    assert(t[b - a - 1] == s[b - 1]);
    assert(a == from);
    assert(b == to);
    assert forall|i: int| 0 <= i < n implies t[i] == name[i] by {
        assert(t[i] == s[from + i]);
    }
    assert(t =~= name);
}

} // verus!
