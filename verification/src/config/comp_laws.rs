//! What a document makes of the main configuration, and what a change of it asks for.

use crate::config::comp;
use crate::config::comp::{
    Config, ConfigEffect, CosmicCompConfig, TomlConfig, WorkspaceLayout,
};
use crate::config::input;
use crate::config::input_laws;
use crate::config::keybinding;
use crate::config::layout;
use crate::config::value;
use crate::config::value::TomlModel;
use crate::config::xkb;
use crate::number::Float64;
use vstd::prelude::*;

verus! {

/// What a document gives for the mouse reaches the pointers, and nothing else changes them.
pub proof fn the_mouse_of_a_document_is_configured(
    document: Seq<(Seq<char>, TomlModel)>,
    section: Seq<(Seq<char>, TomlModel)>,
    defaults: CosmicCompConfig,
    r: TomlConfig,
    b: bool,
    f: Float64,
)
    requires
        comp::configures(document, defaults, r),
        value::lookup(document, "mouse"@) == Some(TomlModel::Table(section)),
    ensures
        value::lookup(section, "left_handed"@) == Some(TomlModel::Boolean(b))
            ==> r.cosmic.input_default.left_handed == Some(b),
        value::lookup(section, "natural_scroll"@) == Some(TomlModel::Boolean(b)) ==> (
        r.cosmic.input_default.scroll_config matches Some(s) && s.natural_scroll == Some(b)),
        value::lookup(section, "acceleration"@) == Some(TomlModel::Float(f)) ==> (
        r.cosmic.input_default.acceleration matches Some(a) && input_laws::within(
            a.speed,
            f,
            0xBFF0_0000_0000_0000,
            0x3FF0_0000_0000_0000,
        )),
        value::lookup(section, "scroll_speed"@) == Some(TomlModel::Float(f)) ==> (
        r.cosmic.input_default.scroll_config matches Some(s) && s.scroll_factor matches Some(x)
            && input_laws::within(x, f, 0x3FB9_9999_9999_999A, 0x4008_0000_0000_0000)),
{
    input_laws::each_key_of_the_mouse_is_read(document, section, defaults.input_default, b, f);
}

/// What a document gives for touchpads reaches the touchpads.
pub proof fn the_touchpad_of_a_document_is_configured(
    document: Seq<(Seq<char>, TomlModel)>,
    section: Seq<(Seq<char>, TomlModel)>,
    defaults: CosmicCompConfig,
    r: TomlConfig,
    b: bool,
)
    requires
        comp::configures(document, defaults, r),
        value::lookup(document, "touchpad"@) == Some(TomlModel::Table(section)),
    ensures
        value::lookup(section, "tap_to_click"@) == Some(TomlModel::Boolean(b)) ==> (
        r.cosmic.input_touchpad.tap_config matches Some(t) && t.enabled == b),
        value::lookup(section, "tap_drag"@) == Some(TomlModel::Boolean(b)) ==> (
        r.cosmic.input_touchpad.tap_config matches Some(t) && t.drag == b),
        value::lookup(section, "natural_scroll"@) == Some(TomlModel::Boolean(b)) ==> (
        r.cosmic.input_touchpad.scroll_config matches Some(s) && s.natural_scroll == Some(b)),
        value::lookup(section, "disable_while_typing"@) == Some(TomlModel::Boolean(b))
            ==> r.cosmic.input_touchpad.disable_while_typing == Some(b),
{
    input_laws::each_key_of_the_touchpad_is_read(
        document,
        section,
        defaults.input_touchpad,
        b,
        Float64 { bits: 0 },
        seq![],
    );
}

/// The layout of workspaces is vertical where the document says so, in one of two spellings,
/// horizontal where it says anything else, and the default one where it says nothing. How
/// workspaces and outputs belong together is no matter of a document.
pub proof fn workspaces_are_laid_out_as_written(
    document: Seq<(Seq<char>, TomlModel)>,
    section: Seq<(Seq<char>, TomlModel)>,
    defaults: CosmicCompConfig,
    r: TomlConfig,
    s: Seq<char>,
)
    requires
        comp::configures(document, defaults, r),
        value::lookup(document, "workspaces"@) == Some(TomlModel::Table(section)),
    ensures
        r.cosmic.workspaces.workspace_mode == defaults.workspaces.workspace_mode,
        value::lookup(section, "workspace_layout"@) == Some(TomlModel::Text(s)) ==> (
        r.cosmic.workspaces.workspace_layout is Vertical <==> s == "Vertical"@ || s
            == "vertical"@),
        !(value::lookup(section, "workspace_layout"@) matches Some(TomlModel::Text(_)))
            ==> r.cosmic.workspaces.workspace_layout == defaults.workspaces.workspace_layout,
{
}

/// What is no matter of a document stays at its default.
pub proof fn documents_leave_the_rest_alone(
    document: Seq<(Seq<char>, TomlModel)>,
    defaults: CosmicCompConfig,
    r: TomlConfig,
)
    requires
        comp::configures(document, defaults, r),
    ensures
        r.cosmic.input_touchpad_override == defaults.input_touchpad_override,
        r.cosmic.input_devices == defaults.input_devices,
        r.cosmic.keyboard_config == defaults.keyboard_config,
        r.cosmic.autotile == defaults.autotile,
        r.cosmic.autotile_behavior == defaults.autotile_behavior,
        r.cosmic.active_hint == defaults.active_hint,
        r.cosmic.descale_xwayland == defaults.descale_xwayland,
        r.cosmic.xwayland_eavesdropping == defaults.xwayland_eavesdropping,
        r.cosmic.accessibility_zoom == defaults.accessibility_zoom,
        r.cosmic.appearance_settings == defaults.appearance_settings,
        r.cosmic.xkb_config.rules@ == defaults.xkb_config.rules@,
        !(value::lookup(document, "xkb_config"@) matches Some(TomlModel::Table(_)))
            ==> r.cosmic.xkb_config@ == defaults.xkb_config@,
        !(value::lookup(document, "mouse"@) matches Some(TomlModel::Table(_)))
            ==> r.cosmic.input_default == defaults.input_default,
        !(value::lookup(document, "touchpad"@) matches Some(TomlModel::Table(_)))
            ==> r.cosmic.input_touchpad == defaults.input_touchpad,
        !(value::lookup(document, "workspaces"@) matches Some(TomlModel::Table(_)))
            ==> r.cosmic.workspaces == defaults.workspaces,
{
}

/// The keyboard of a document: each text, list and number that it gives is the keyboard's, and
/// what it does not give stays.
pub proof fn the_keyboard_of_a_document_is_configured(
    document: Seq<(Seq<char>, TomlModel)>,
    section: Seq<(Seq<char>, TomlModel)>,
    defaults: CosmicCompConfig,
    r: TomlConfig,
    s: Seq<char>,
    n: i64,
)
    requires
        comp::configures(document, defaults, r),
        value::lookup(document, "xkb_config"@) == Some(TomlModel::Table(section)),
    ensures
        ({
            let k = r.cosmic.xkb_config;
            let d = defaults.xkb_config;
            &&& value::lookup(section, "model"@) == Some(TomlModel::Text(s)) ==> k.model@ == s
            &&& !(value::lookup(section, "model"@) matches Some(TomlModel::Text(_))) ==> k.model@
                == d.model@
            &&& value::lookup(section, "layout"@) == Some(TomlModel::Text(s)) && value::lookup(
                section,
                "layouts"@,
            ) is None ==> k.layout@ == s
            &&& value::lookup(section, "layout"@) is None && value::lookup(section, "layouts"@)
                is None ==> k.layout@ == d.layout@
            &&& value::lookup(section, "variant"@) == Some(TomlModel::Text(s)) && value::lookup(
                section,
                "variants"@,
            ) is None ==> k.variant@ == s
            &&& value::lookup(section, "variant"@) is None && value::lookup(section, "variants"@)
                is None ==> k.variant@ == d.variant@
            &&& value::lookup(section, "options"@) == Some(TomlModel::Text(s)) && s.len() > 0 ==> (
            k.options matches Some(o) && o@ == s)
            &&& value::lookup(section, "repeat_rate"@) == Some(TomlModel::Integer(n)) && 0 <= n
                <= u32::MAX ==> k.repeat_rate == n
            &&& value::lookup(section, "repeat_delay"@) == Some(TomlModel::Integer(n)) && 0 <= n
                <= u32::MAX ==> k.repeat_delay == n
            &&& value::lookup(section, "repeat_rate"@) is None ==> k.repeat_rate == d.repeat_rate
            &&& value::lookup(section, "repeat_delay"@) is None ==> k.repeat_delay == d.repeat_delay
        }),
{
    assert(r.cosmic.xkb_config@ == xkb::with_xkb(section, defaults.xkb_config@));
}

/// A list of layouts counts instead of a single one: two of them stand with a comma between, and
/// so do variants, of which an empty one keeps its place.
pub proof fn lists_of_layouts_are_joined(
    section: Seq<(Seq<char>, TomlModel)>,
    m: xkb::XkbModel,
    a: Seq<char>,
    b: Seq<char>,
    c: TomlModel,
)
    requires
        !(c is Text),
    ensures
        value::lookup(section, "layouts"@) == Some(
            TomlModel::Array(seq![TomlModel::Text(a), TomlModel::Text(b)]),
        ) ==> xkb::with_xkb(section, m).layout == a + ","@ + b,
        value::lookup(section, "layouts"@) == Some(
            TomlModel::Array(seq![TomlModel::Text(a), c, TomlModel::Text(b)]),
        ) ==> xkb::with_xkb(section, m).layout == a + ","@ + b,
        value::lookup(section, "variants"@) == Some(
            TomlModel::Array(seq![TomlModel::Text(a), TomlModel::Text(b)]),
        ) ==> xkb::with_xkb(section, m).variant == a + ","@ + b,
        value::lookup(section, "variants"@) == Some(
            TomlModel::Array(seq![TomlModel::Text(a), c, TomlModel::Text(b)]),
        ) ==> xkb::with_xkb(section, m).variant == a + ","@ + (","@ + b),
{
    reveal_strlit(",");
    let two = seq![TomlModel::Text(a), TomlModel::Text(b)];
    let three = seq![TomlModel::Text(a), c, TomlModel::Text(b)];
    assert(two.drop_last() =~= seq![TomlModel::Text(a)]);
    assert(three.drop_last() =~= seq![TomlModel::Text(a), c]);
    assert(three.drop_last().drop_last() =~= seq![TomlModel::Text(a)]);
    assert(seq![TomlModel::Text(a)].drop_last() =~= seq![]);
    assert(xkb::texts_of(seq![]) =~= seq![]);
    assert(xkb::texts_of(seq![TomlModel::Text(a)]) =~= seq![a]);
    assert(xkb::texts_of(two) =~= seq![a, b]);
    assert(seq![TomlModel::Text(a), c].last() == c);
    assert(seq![TomlModel::Text(a), c].drop_last() =~= seq![TomlModel::Text(a)]);
    assert(xkb::texts_of(seq![TomlModel::Text(a), c]) =~= seq![a]);
    assert(three.last() == TomlModel::Text(b));
    assert(xkb::texts_of(three) =~= seq![a, b]);
    assert(xkb::texts_or_empty(two) =~= seq![a, b]);
    assert(xkb::texts_or_empty(three) =~= seq![a, seq![], b]);
    lemma_joined_two(a, b);
    lemma_joined_three(a, seq![], b);
    assert(a + ","@ + (","@ + b) =~= a + ","@ + seq![] + ","@ + b);
    assert((a + ","@ + b).len() > 0);
}

/// Two texts with a comma between.
proof fn lemma_joined_two(a: Seq<char>, b: Seq<char>)
    ensures
        crate::text::joined(seq![a, b], ","@) == a + ","@ + b,
{
    assert(seq![a, b].drop_last() =~= seq![a]);
    assert(crate::text::joined(seq![a], ","@) == a);
}

/// Three texts with commas between.
proof fn lemma_joined_three(a: Seq<char>, b: Seq<char>, c: Seq<char>)
    ensures
        crate::text::joined(seq![a, b, c], ","@) == a + ","@ + b + ","@ + c,
{
    lemma_joined_two(a, b);
    assert(seq![a, b, c].drop_last() =~= seq![a, b]);
}

/// Each effect is asked for just where what it is for has changed.
pub proof fn effects_are_asked_for_where_something_changed(
    old: CosmicCompConfig,
    new: CosmicCompConfig,
)
    ensures
        ({
            let e = comp::effects(old, new);
            &&& e.contains(ConfigEffect::UpdateKeyboard) <==> !(new.xkb_config.rules@
                == old.xkb_config.rules@ && new.xkb_config.model@ == old.xkb_config.model@
                && new.xkb_config.layout@ == old.xkb_config.layout@ && new.xkb_config.variant@
                == old.xkb_config.variant@ && crate::text::optional_view(new.xkb_config.options)
                == crate::text::optional_view(old.xkb_config.options)
                && new.xkb_config.repeat_delay == old.xkb_config.repeat_delay
                && new.xkb_config.repeat_rate == old.xkb_config.repeat_rate)
            &&& e.contains(ConfigEffect::RecordNumlock) <==> new.keyboard_config
                != old.keyboard_config
            &&& e.contains(ConfigEffect::UpdateInput) <==> {
                ||| !new.input_default.same(old.input_default)
                ||| !new.input_touchpad.same(old.input_touchpad)
                ||| new.input_touchpad_override != old.input_touchpad_override
                ||| !comp::same_devices(new.input_devices@, old.input_devices@)
            }
            &&& e.contains(ConfigEffect::UpdateConfig) <==> {
                ||| new.workspaces != old.workspaces
                ||| new.active_hint != old.active_hint
                ||| new.accessibility_zoom != old.accessibility_zoom
                ||| new.appearance_settings != old.appearance_settings
            }
            &&& forall|on: bool| #[trigger]
                e.contains(ConfigEffect::UpdateAutotile(on)) <==> on == new.autotile
                    && new.autotile != old.autotile
            &&& forall|b: comp::TileBehavior| #[trigger]
                e.contains(ConfigEffect::UpdateAutotileBehavior(b)) <==> b == new.autotile_behavior
                    && new.autotile_behavior != old.autotile_behavior
            &&& e.contains(ConfigEffect::UpdateXwayland) <==> new.descale_xwayland
                != old.descale_xwayland
            &&& e.contains(ConfigEffect::ResetEavesdropping) <==> new.xwayland_eavesdropping
                != old.xwayland_eavesdropping
            &&& e.contains(ConfigEffect::ScheduleRender) <==> new.appearance_settings
                != old.appearance_settings
            &&& !e.contains(ConfigEffect::UpdateLayout)
        }),
{
    assert forall|x: ConfigEffect| #[trigger] comp::effects(old, new).contains(x) <==> {
        ||| new.xkb_config@ != old.xkb_config@ && x == ConfigEffect::UpdateKeyboard
        ||| new.keyboard_config != old.keyboard_config && x == ConfigEffect::RecordNumlock
        ||| comp::input_differs(old, new) && x == ConfigEffect::UpdateInput
        ||| new.workspaces != old.workspaces && x == ConfigEffect::UpdateConfig
        ||| new.autotile != old.autotile && x == ConfigEffect::UpdateAutotile(new.autotile)
        ||| new.autotile_behavior != old.autotile_behavior && x == ConfigEffect::UpdateAutotileBehavior(new.autotile_behavior)
        ||| new.active_hint != old.active_hint && x == ConfigEffect::UpdateConfig
        ||| new.descale_xwayland != old.descale_xwayland && x == ConfigEffect::UpdateXwayland
        ||| new.xwayland_eavesdropping != old.xwayland_eavesdropping && x == ConfigEffect::ResetEavesdropping
        ||| new.accessibility_zoom != old.accessibility_zoom && x == ConfigEffect::UpdateConfig
        ||| new.appearance_settings != old.appearance_settings && x == ConfigEffect::UpdateConfig
        ||| new.appearance_settings != old.appearance_settings && x == ConfigEffect::ScheduleRender
    } by {
        lemma_effects(old, new, x);
        reveal(has);
    }
    let (a, b) = (new.xkb_config, old.xkb_config);
    assert(a@ == b@ <==> a.rules@ == b.rules@ && a.model@ == b.model@ && a.layout@ == b.layout@
        && a.variant@ == b.variant@ && crate::text::optional_view(a.options)
        == crate::text::optional_view(b.options) && a.repeat_delay == b.repeat_delay
        && a.repeat_rate == b.repeat_rate);
}

/// An effect is asked for where one of the conditions for it holds.
proof fn lemma_effects(old: CosmicCompConfig, new: CosmicCompConfig, x: ConfigEffect)
    ensures
        has(comp::effects(old, new), x) <==> {
            ||| new.xkb_config@ != old.xkb_config@ && x == ConfigEffect::UpdateKeyboard
            ||| new.keyboard_config != old.keyboard_config && x == ConfigEffect::RecordNumlock
            ||| comp::input_differs(old, new) && x == ConfigEffect::UpdateInput
            ||| new.workspaces != old.workspaces && x == ConfigEffect::UpdateConfig
            ||| new.autotile != old.autotile && x == ConfigEffect::UpdateAutotile(new.autotile)
            ||| new.autotile_behavior != old.autotile_behavior && x == ConfigEffect::UpdateAutotileBehavior(new.autotile_behavior)
            ||| new.active_hint != old.active_hint && x == ConfigEffect::UpdateConfig
            ||| new.descale_xwayland != old.descale_xwayland && x == ConfigEffect::UpdateXwayland
            ||| new.xwayland_eavesdropping != old.xwayland_eavesdropping && x == ConfigEffect::ResetEavesdropping
            ||| new.accessibility_zoom != old.accessibility_zoom && x == ConfigEffect::UpdateConfig
            ||| new.appearance_settings != old.appearance_settings && x == ConfigEffect::UpdateConfig
            ||| new.appearance_settings != old.appearance_settings && x == ConfigEffect::ScheduleRender
        },
{
    let a0 = comp::effect_if(new.xkb_config@ != old.xkb_config@, ConfigEffect::UpdateKeyboard);
    lemma_effect(new.xkb_config@ != old.xkb_config@, ConfigEffect::UpdateKeyboard, x);
    let a1 = comp::effect_if(new.keyboard_config != old.keyboard_config, ConfigEffect::RecordNumlock);
    lemma_effect(new.keyboard_config != old.keyboard_config, ConfigEffect::RecordNumlock, x);
    let a2 = comp::effect_if(comp::input_differs(old, new), ConfigEffect::UpdateInput);
    lemma_effect(comp::input_differs(old, new), ConfigEffect::UpdateInput, x);
    let a3 = comp::effect_if(new.workspaces != old.workspaces, ConfigEffect::UpdateConfig);
    lemma_effect(new.workspaces != old.workspaces, ConfigEffect::UpdateConfig, x);
    let a4 = comp::effect_if(new.autotile != old.autotile, ConfigEffect::UpdateAutotile(new.autotile));
    lemma_effect(new.autotile != old.autotile, ConfigEffect::UpdateAutotile(new.autotile), x);
    let a5 = comp::effect_if(new.autotile_behavior != old.autotile_behavior, ConfigEffect::UpdateAutotileBehavior(new.autotile_behavior));
    lemma_effect(new.autotile_behavior != old.autotile_behavior, ConfigEffect::UpdateAutotileBehavior(new.autotile_behavior), x);
    let a6 = comp::effect_if(new.active_hint != old.active_hint, ConfigEffect::UpdateConfig);
    lemma_effect(new.active_hint != old.active_hint, ConfigEffect::UpdateConfig, x);
    let a7 = comp::effect_if(new.descale_xwayland != old.descale_xwayland, ConfigEffect::UpdateXwayland);
    lemma_effect(new.descale_xwayland != old.descale_xwayland, ConfigEffect::UpdateXwayland, x);
    let a8 = comp::effect_if(new.xwayland_eavesdropping != old.xwayland_eavesdropping, ConfigEffect::ResetEavesdropping);
    lemma_effect(new.xwayland_eavesdropping != old.xwayland_eavesdropping, ConfigEffect::ResetEavesdropping, x);
    let a9 = comp::effect_if(new.accessibility_zoom != old.accessibility_zoom, ConfigEffect::UpdateConfig);
    lemma_effect(new.accessibility_zoom != old.accessibility_zoom, ConfigEffect::UpdateConfig, x);
    let a10 = comp::effect_if(new.appearance_settings != old.appearance_settings, ConfigEffect::UpdateConfig);
    lemma_effect(new.appearance_settings != old.appearance_settings, ConfigEffect::UpdateConfig, x);
    let a11 = comp::effect_if(new.appearance_settings != old.appearance_settings, ConfigEffect::ScheduleRender);
    lemma_effect(new.appearance_settings != old.appearance_settings, ConfigEffect::ScheduleRender, x);
    let s1 = a0 + a1;
    lemma_add_has(a0, a1, x);
    let s2 = s1 + a2;
    lemma_add_has(s1, a2, x);
    let s3 = s2 + a3;
    lemma_add_has(s2, a3, x);
    let s4 = s3 + a4;
    lemma_add_has(s3, a4, x);
    let s5 = s4 + a5;
    lemma_add_has(s4, a5, x);
    let s6 = s5 + a6;
    lemma_add_has(s5, a6, x);
    let s7 = s6 + a7;
    lemma_add_has(s6, a7, x);
    let s8 = s7 + a8;
    lemma_add_has(s7, a8, x);
    let s9 = s8 + a9;
    lemma_add_has(s8, a9, x);
    let s10 = s9 + a10;
    lemma_add_has(s9, a10, x);
    let s11 = s10 + a11;
    lemma_add_has(s10, a11, x);
    assert(has(comp::effects(old, new), x) == has(s11, x));
}

/// Whether an effect is asked for.
#[verifier::opaque]
spec fn has(s: Seq<ConfigEffect>, x: ConfigEffect) -> bool {
    s.contains(x)
}

/// An effect with a condition is that effect, where the condition holds.
proof fn lemma_effect(condition: bool, effect: ConfigEffect, x: ConfigEffect)
    ensures
        has(comp::effect_if(condition, effect), x) <==> condition && x == effect,
{
    reveal(has);
    if condition {
        assert(comp::effect_if(condition, effect)[0] == effect);
    }
}

/// What is in two sequences, one behind the other, is in one of them.
proof fn lemma_add_has(a: Seq<ConfigEffect>, b: Seq<ConfigEffect>, x: ConfigEffect)
    ensures
        has(a + b, x) <==> has(a, x) || has(b, x),
{
    reveal(has);
    if a.contains(x) {
        let i = choose|i: int| 0 <= i < a.len() && a[i] == x;
        assert((a + b)[i] == x);
    }
    if b.contains(x) {
        let i = choose|i: int| 0 <= i < b.len() && b[i] == x;
        assert((a + b)[a.len() + i] == x);
    }
}

/// The configurations of devices are the same where each of the ones has the same as the device
/// of its name among the others, and there are as many.
pub proof fn same_devices_have_the_same_configurations(
    a: Seq<(String, input::InputConfig)>,
    b: Seq<(String, input::InputConfig)>,
    i: int,
)
    requires
        comp::same_devices(a, b),
        0 <= i < a.len(),
    ensures
        a.len() == b.len(),
        exists|k: int|
            0 <= k < b.len() && (#[trigger] b[k]).0@ == a[i].0@ && a[i].1.same(b[k].1),
{
    input_laws::devices_are_found_by_name(b, a[i].0@);
    assert(a[i].1.same(input::device_named(b, a[i].0@)->0));
}

/// Touchpads fall back to the configuration of touchpads, and other devices to that of pointers.
pub proof fn touchpads_have_their_own_default(c: CosmicCompConfig)
    ensures
        comp::device_default(c, true) == c.input_touchpad,
        comp::device_default(c, false) == c.input_default,
{
}

/// How a held key repeats is not changed, unless the number would be negative as a signed one; no
/// number and its negative repeat differently.
pub proof fn repeat_values_are_distances(n: u32, m: u32)
    ensures
        n <= 0x7fff_ffff ==> comp::repeat_value(n) == n,
        n + m == 0x1_0000_0000 ==> comp::repeat_value(n) == comp::repeat_value(m),
{
}

/// The layout and the key bindings that are read are those of the document.
pub proof fn the_rest_of_a_document_is_read(
    document: Seq<(Seq<char>, TomlModel)>,
    defaults: CosmicCompConfig,
    config: Config,
)
    requires
        comp::configures(document, defaults, config.read()),
    ensures
        config.layout@ == layout::layout_of(document),
        keybinding::models(config.toml_keybindings@) == keybinding::keybindings_of(document),
        config.cosmic_conf.workspaces.workspace_layout is Vertical
            || config.cosmic_conf.workspaces.workspace_layout == WorkspaceLayout::Horizontal,
{
}

/// Without a file, or where it is no document, the defaults hold and nothing is bound; else what
/// holds is what the document configures.
pub proof fn files_that_cannot_be_read_change_nothing(
    content: Option<&str>,
    defaults: CosmicCompConfig,
    read: comp::TomlConfig,
)
    requires
        comp::read_from(content, defaults, read),
    ensures
        content is None ==> read.cosmic == defaults && read.keybindings@.len() == 0
            && read.layout.inner_gap == 8 && read.layout.outer_gap == 8 && read.layout.smart_gaps
            && read.layout.window_rules@.len() == 0,
        content matches Some(c) ==> value::toml_document(c@) is None ==> read.cosmic == defaults
            && read.keybindings@.len() == 0,
        content matches Some(c) ==> (value::toml_document(c@) matches Some(document)
            ==> comp::configures(document, defaults, read)),
{
    if comp::document_in(content) is None {
        assert(crate::config::layout::rule_models(read.layout.window_rules@).len() == 0);
    }
}

/// A configuration of its own applies to touchpads, and another to all other devices.
pub proof fn touchpads_are_told_apart(config: CosmicCompConfig)
    ensures
        comp::device_default(config, true) == config.input_touchpad,
        comp::device_default(config, false) == config.input_default,
{
}

} // verus!
