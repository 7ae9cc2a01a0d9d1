//! What the models of values keep of them.

use crate::config::keybinding;
use crate::config::keybinding::{FragmentEntry, KeyBinding};
use crate::config::layout;
use crate::config::layout::{LayoutConfig, WindowMatch, WindowRule};
use crate::config::output::comp;
use crate::config::output::comp::{OutputConfig, OutputInfo, OutputProfile, OutputState, StateModel};
use crate::config::output::displays_toml;
use crate::config::output::displays_toml::{EnabledModel, EnabledToml, OutputToml, ProfileToml};
use crate::config::output::heads;
use crate::config::output::heads::{Head, HeadModel};
use crate::config::value;
use crate::config::value::{TomlEntry, TomlModel, TomlValue};
use crate::config::xkb::XkbConfig;
use crate::dbus::app_interface;
use crate::dbus::app_interface::AppInfo;
use crate::dbus::input_manager;
use crate::dbus::input_manager::ConflictInfo;
use crate::event_bus::Event;
use crate::input::binding_resolver::BindingResolver;
use crate::json;
use crate::json::{Json, JsonEntry, JsonModel};
use crate::order;
use crate::order::Key;
use crate::shell::element::stack::CosmicStack;
use crate::shell::seats;
use crate::shell::seats::{Seat, SeatDevice};
use crate::text;
use crate::wayland::protocols::shell_overlay;
use crate::wayland::protocols::shell_overlay::OverlayEvent;
use crate::wayland::protocols::titlebar;
use crate::wayland::protocols::titlebar::{ButtonInfo, TabInfo, TitlebarState};
use vstd::prelude::*;

verus! {

/// The model of key bindings has each part of them.
pub proof fn key_binding_are_modelled_by_their_parts(x: KeyBinding)
    ensures
        x@.modifiers == x.modifiers,
        x@.key == x.key@,
        x@.action == x.action@,
{
}

/// The model of bindings of modules has each part of them.
pub proof fn fragment_entry_are_modelled_by_their_parts(x: FragmentEntry)
    ensures
        x@.module_id == x.module_id@,
        x@.binding == x.binding@,
        x@.action == x.action@,
{
}

/// The model of what a rule matches has each part of them.
pub proof fn window_match_are_modelled_by_their_parts(x: WindowMatch)
    ensures
        x@.app_id == layout::pattern_view(x.app_id),
        x@.title == layout::pattern_view(x.title),
        x@.window_type == text::optional_view(x.window_type),
{
}

/// The model of rules has each part of them.
pub proof fn window_rule_are_modelled_by_their_parts(x: WindowRule)
    ensures
        x@.matcher == x.matcher@,
        x@.action == x.action,
{
}

/// The model of layouts has each part of them.
pub proof fn layout_config_are_modelled_by_their_parts(x: LayoutConfig)
    ensures
        x@.inner_gap == x.inner_gap,
        x@.outer_gap == x.outer_gap,
        x@.smart_gaps == x.smart_gaps,
        x@.window_rules == layout::rule_models(x.window_rules@),
{
}

/// The model of identities of outputs has each part of them.
pub proof fn output_info_are_modelled_by_their_parts(x: OutputInfo)
    ensures
        x@.first == x.connector@,
        x@.second == x.make@,
        x@.third == x.model@,
{
}

/// The model of configurations of outputs has each part of them.
pub proof fn output_config_are_modelled_by_their_parts(x: OutputConfig)
    ensures
        x@.mode == x.mode,
        x@.vrr == x.vrr,
        x@.scale == x.scale,
        x@.transform == x.transform,
        x@.position == x.position,
        x@.enabled == x.enabled@,
        x@.max_bpc == x.max_bpc,
        x@.xwayland_primary == x.xwayland_primary,
{
}

/// The model of profiles has each part of them.
pub proof fn output_profile_are_modelled_by_their_parts(x: OutputProfile)
    ensures
        x@.infos == comp::info_models(x.infos@),
        x@.outputs == comp::config_models(x.outputs@),
{
}

/// The model of stored configurations has each part of them.
pub proof fn output_toml_are_modelled_by_their_parts(x: OutputToml)
    ensures
        x@.connector == x.connector@,
        x@.mode == x.mode,
        x@.scale == x.scale,
        x@.position == x.position,
        x@.transform == x.transform,
        x@.enabled == x.enabled@,
        x@.vrr == x.vrr,
        x@.max_bpc == x.max_bpc,
        x@.xwayland_primary == x.xwayland_primary,
{
}

/// The model of stored profiles has each part of them.
pub proof fn profile_toml_are_modelled_by_their_parts(x: ProfileToml)
    ensures
        x@.name == x.name@,
        x@.output_set == comp::info_models(x.output_set@),
        x@.output == displays_toml::entry_models(x.output@),
{
}

/// The model of outputs that are present has each part of them.
pub proof fn head_are_modelled_by_their_parts(x: Head)
    ensures
        x@.info == x.info@,
        x@.config == x.config@,
        x@.mirroring == x.mirroring,
        x@.width == x.width,
{
}

/// The model of keyboards has each part of them.
pub proof fn xkb_config_are_modelled_by_their_parts(x: XkbConfig)
    ensures
        x@.rules == x.rules@,
        x@.model == x.model@,
        x@.layout == x.layout@,
        x@.variant == x.variant@,
        x@.options == text::optional_view(x.options),
        x@.repeat_delay == x.repeat_delay,
        x@.repeat_rate == x.repeat_rate,
{
}

/// The model of applications has each part of them.
pub proof fn app_info_are_modelled_by_their_parts(x: AppInfo)
    ensures
        x@.app_id == x.app_id@,
        x@.name == x.name@,
        x@.owner == x.owner@,
        x@.declared_actions == x.declared_actions@,
        x@.permissions == text::list_view(x.permissions@),
{
}

/// The model of conflicts has each part of them.
pub proof fn conflict_info_are_modelled_by_their_parts(x: ConflictInfo)
    ensures
        x@.binding == x.binding@,
        x@.existing_action == x.existing_action@,
        x@.existing_scope == x.existing_scope@,
        x@.existing_owner == x.existing_owner@,
{
}

/// The model of events has each part of them.
pub proof fn event_are_modelled_by_their_parts(x: Event)
    ensures
        x@.id == x.id@,
        x@.kind == x.kind@,
        x@.timestamp == x.timestamp,
        x@.source == x.source@,
        x@.pid == x.pid,
        x@.session_id == x.session_id@,
        x@.payload == x.payload@,
{
}

/// The model of resolvers has each part of them.
pub proof fn binding_resolver_are_modelled_by_their_parts(x: BindingResolver)
    ensures
        x@.statics == x.static_bindings@,
        x@.dynamic == x.dynamic@,
        x@.focused == text::optional_view(x.focused_app),
{
}

/// The model of keys has each part of them.
pub proof fn key_are_modelled_by_their_parts(x: Key)
    ensures
        x@.first == x.first@,
        x@.second == x.second@,
        x@.third == x.third@,
{
}

/// The model of stacks has each part of them.
pub proof fn cosmic_stack_are_modelled_by_their_parts(x: CosmicStack)
    ensures
        x@.stack_id == x.stack_id,
        x@.windows == x.windows@,
        x@.active == x.active as int,
        x@.activated == x.activated,
        x@.group_focused == x.group_focused,
        x@.previous_index == x.previous_index,
        x@.scroll_to_focus == x.scroll_to_focus,
        x@.previous_keyboard == x.previous_keyboard as int,
        x@.pointer_entered == x.pointer_entered,
        x@.reenter == x.reenter,
        x@.potential_drag == x.potential_drag,
        x@.override_alive == x.override_alive,
        x@.geometry == x.geometry,
        x@.tiled == x.tiled,
        x@.appearance_conf == x.appearance_conf,
{
}

/// The model of devices has each part of them.
pub proof fn seat_device_are_modelled_by_their_parts(x: SeatDevice)
    ensures
        x@.id == x.id@,
        x@.capabilities == x.capabilities,
{
}

/// The model of tabs has each part of them.
pub proof fn tab_info_are_modelled_by_their_parts(x: TabInfo)
    ensures
        x@.id == x.id@,
        x@.title == x.title@,
        x@.icon == text::optional_view(x.icon),
        x@.status == x.status,
{
}

/// The model of buttons has each part of them.
pub proof fn button_info_are_modelled_by_their_parts(x: ButtonInfo)
    ensures
        x@.id == x.id@,
        x@.icon == x.icon@,
        x@.tooltip == x.tooltip@,
        x@.position == x.position,
        x@.enabled == x.enabled,
{
}

/// The model of title bars has each part of them.
pub proof fn titlebar_state_are_modelled_by_their_parts(x: TitlebarState)
    ensures
        x@.title == x.title@,
        x@.tabs == titlebar::tab_models(x.tabs@),
        x@.active_tab == text::optional_view(x.active_tab),
        x@.buttons == titlebar::button_models(x.buttons@),
        x@.breadcrumb_json == x.breadcrumb_json@,
        x@.center_content == x.center_content,
        x@.search_mode == x.search_mode,
        x@.mode == x.mode,
{
}

/// Each element has its model at its place.
pub proof fn keybinding_models_keep_their_places(s: Seq<KeyBinding>, i: int)
    requires
        0 <= i < s.len(),
    ensures
        keybinding::models(s).len() == s.len(),
        keybinding::models(s)[i] == s[i]@,
{
}

/// Each element has its model at its place.
pub proof fn keybinding_fragment_models_keep_their_places(s: Seq<FragmentEntry>, i: int)
    requires
        0 <= i < s.len(),
    ensures
        keybinding::fragment_models(s).len() == s.len(),
        keybinding::fragment_models(s)[i] == s[i]@,
{
}

/// Each element has its model at its place.
pub proof fn layout_rule_models_keep_their_places(s: Seq<WindowRule>, i: int)
    requires
        0 <= i < s.len(),
    ensures
        layout::rule_models(s).len() == s.len(),
        layout::rule_models(s)[i] == s[i]@,
{
}

/// Each element has its model at its place.
pub proof fn comp_info_models_keep_their_places(s: Seq<OutputInfo>, i: int)
    requires
        0 <= i < s.len(),
    ensures
        comp::info_models(s).len() == s.len(),
        comp::info_models(s)[i] == s[i]@,
{
}

/// Each element has its model at its place.
pub proof fn comp_config_models_keep_their_places(s: Seq<OutputConfig>, i: int)
    requires
        0 <= i < s.len(),
    ensures
        comp::config_models(s).len() == s.len(),
        comp::config_models(s)[i] == s[i]@,
{
}

/// Each element has its model at its place.
pub proof fn comp_set_models_keep_their_places(s: Seq<OutputProfile>, i: int)
    requires
        0 <= i < s.len(),
    ensures
        comp::set_models(s).len() == s.len(),
        comp::set_models(s)[i] == s[i]@,
{
}

/// Each element has its model at its place.
pub proof fn displays_toml_entry_models_keep_their_places(s: Seq<OutputToml>, i: int)
    requires
        0 <= i < s.len(),
    ensures
        displays_toml::entry_models(s).len() == s.len(),
        displays_toml::entry_models(s)[i] == s[i]@,
{
}

/// Each element has its model at its place.
pub proof fn displays_toml_profile_models_keep_their_places(s: Seq<ProfileToml>, i: int)
    requires
        0 <= i < s.len(),
    ensures
        displays_toml::profile_models(s).len() == s.len(),
        displays_toml::profile_models(s)[i] == s[i]@,
{
}

/// Each element has its model at its place.
pub proof fn heads_head_models_keep_their_places(s: Seq<Head>, i: int)
    requires
        0 <= i < s.len(),
    ensures
        heads::head_models(s).len() == s.len(),
        heads::head_models(s)[i] == s[i]@,
{
}

/// Each element has its model at its place.
pub proof fn heads_head_infos_keep_their_places(s: Seq<HeadModel>, i: int)
    requires
        0 <= i < s.len(),
    ensures
        heads::head_infos(s).len() == s.len(),
        heads::head_infos(s)[i] == s[i].info,
{
}

/// Each element has its model at its place.
pub proof fn value_entries_model_keep_their_places(s: Seq<TomlEntry>, i: int)
    requires
        0 <= i < s.len(),
    ensures
        value::entries_model(s).len() == s.len(),
        value::entries_model(s)[i] == (s[i].key@, s[i].value.model()),
{
}

/// Each element has its model at its place.
pub proof fn value_items_model_keep_their_places(s: Seq<TomlValue>, i: int)
    requires
        0 <= i < s.len(),
    ensures
        value::items_model(s).len() == s.len(),
        value::items_model(s)[i] == s[i].model(),
{
}

/// Each element has its model at its place.
pub proof fn app_interface_app_models_keep_their_places(s: Seq<AppInfo>, i: int)
    requires
        0 <= i < s.len(),
    ensures
        app_interface::app_models(s).len() == s.len(),
        app_interface::app_models(s)[i] == s[i]@,
{
}

/// Each element has its model at its place.
pub proof fn input_manager_conflict_models_keep_their_places(s: Seq<ConflictInfo>, i: int)
    requires
        0 <= i < s.len(),
    ensures
        input_manager::conflict_models(s).len() == s.len(),
        input_manager::conflict_models(s)[i] == s[i]@,
{
}

/// Each element has its model at its place.
pub proof fn json_members_keep_their_places(s: Seq<JsonEntry>, i: int)
    requires
        0 <= i < s.len(),
    ensures
        json::members(s).len() == s.len(),
        json::members(s)[i] == (s[i].key@, s[i].value.model()),
{
}

/// Each element has its model at its place.
pub proof fn json_items_keep_their_places(s: Seq<Json>, i: int)
    requires
        0 <= i < s.len(),
    ensures
        json::items(s).len() == s.len(),
        json::items(s)[i] == s[i].model(),
{
}

/// Each element has its model at its place.
pub proof fn order_key_models_keep_their_places(s: Seq<Key>, i: int)
    requires
        0 <= i < s.len(),
    ensures
        order::key_models(s).len() == s.len(),
        order::key_models(s)[i] == s[i]@,
{
}

/// Each element has its model at its place.
pub proof fn order_as_ints_keep_their_places(s: Seq<usize>, i: int)
    requires
        0 <= i < s.len(),
    ensures
        order::as_ints(s).len() == s.len(),
        order::as_ints(s)[i] == s[i] as int,
{
}

/// Each element has its model at its place.
pub proof fn seats_device_models_keep_their_places(s: Seq<SeatDevice>, i: int)
    requires
        0 <= i < s.len(),
    ensures
        seats::device_models(s).len() == s.len(),
        seats::device_models(s)[i] == s[i]@,
{
}

/// Each element has its model at its place.
pub proof fn seats_seat_ids_keep_their_places(s: Seq<Seat>, i: int)
    requires
        0 <= i < s.len(),
    ensures
        seats::seat_ids(s).len() == s.len(),
        seats::seat_ids(s)[i] == s[i].id,
{
}

/// Each element has its model at its place.
pub proof fn text_list_view_keep_their_places(s: Seq<String>, i: int)
    requires
        0 <= i < s.len(),
    ensures
        text::list_view(s).len() == s.len(),
        text::list_view(s)[i] == s[i]@,
{
}

/// Each element has its model at its place.
pub proof fn shell_overlay_event_models_keep_their_places(s: Seq<OverlayEvent>, i: int)
    requires
        0 <= i < s.len(),
    ensures
        shell_overlay::event_models(s).len() == s.len(),
        shell_overlay::event_models(s)[i] == s[i]@,
{
}

/// Each element has its model at its place.
pub proof fn titlebar_tab_models_keep_their_places(s: Seq<TabInfo>, i: int)
    requires
        0 <= i < s.len(),
    ensures
        titlebar::tab_models(s).len() == s.len(),
        titlebar::tab_models(s)[i] == s[i]@,
{
}

/// Each element has its model at its place.
pub proof fn titlebar_button_models_keep_their_places(s: Seq<ButtonInfo>, i: int)
    requires
        0 <= i < s.len(),
    ensures
        titlebar::button_models(s).len() == s.len(),
        titlebar::button_models(s)[i] == s[i]@,
{
}

/// Values of a document keep what they hold: numbers and truth as they are, texts as theirs, and
/// arrays and tables item by item.
pub proof fn values_are_modelled_by_what_they_hold(x: TomlValue, i: int)
    ensures
        x matches TomlValue::Text(s) ==> x.model() == TomlModel::Text(s@),
        x matches TomlValue::Integer(n) ==> x.model() == TomlModel::Integer(n),
        x matches TomlValue::Float(f) ==> x.model() == TomlModel::Float(f),
        x matches TomlValue::Boolean(b) ==> x.model() == TomlModel::Boolean(b),
        x matches TomlValue::Datetime(d) ==> x.model() == TomlModel::Datetime(d@),
        x matches TomlValue::Array(items) ==> (x.model() matches TomlModel::Array(m) && m.len()
            == items@.len() && (0 <= i < m.len() ==> m[i] == items@[i].model())),
        x matches TomlValue::Table(entries) ==> (x.model() matches TomlModel::Table(m) && m.len()
            == entries@.len() && (0 <= i < m.len() ==> m[i].0 == entries@[i].key@ && m[i].1
            == entries@[i].value.model())),
{
}

/// Values to print keep what they hold.
pub proof fn printed_values_are_modelled_by_what_they_hold(x: Json, i: int)
    ensures
        x is Null ==> x.model() == JsonModel::Null,
        x matches Json::Bool(b) ==> x.model() == JsonModel::Bool(b),
        x matches Json::Number(n) ==> x.model() == JsonModel::Number(n),
        x matches Json::Text(s) ==> x.model() == JsonModel::Text(s@),
        x matches Json::Array(items) ==> (x.model() matches JsonModel::Array(m) && m.len()
            == items@.len() && (0 <= i < m.len() ==> m[i] == items@[i].model())),
        x matches Json::Object(entries) ==> (x.model() matches JsonModel::Object(m) && m.len()
            == entries@.len() && (0 <= i < m.len() ==> m[i].0 == entries@[i].key@ && m[i].1
            == entries@[i].value.model())),
{
}

/// Whether an output is used is kept, with what it mirrors.
pub proof fn states_are_modelled_by_their_kind(x: OutputState, y: EnabledToml)
    ensures
        x is Enabled <==> x@ is Enabled,
        x is Disabled <==> x@ is Disabled,
        x matches OutputState::Mirroring(c) ==> x@ == StateModel::Mirroring(c@),
        y is Enabled <==> y@ is Enabled,
        y is Disabled <==> y@ is Disabled,
        y matches EnabledToml::Mirror(c) ==> y@ == EnabledModel::Mirror(c@),
{
}

/// An optional text is there with its characters or not at all.
pub proof fn optional_texts_are_modelled_by_their_text(x: Option<String>, y: Option<String>)
    ensures
        x matches Some(s) ==> text::optional_view(x) == Some(s@),
        x is None ==> text::optional_view(x) is None,
        text::same_optional(x, y) <==> text::optional_view(x) == text::optional_view(y),
{
}

} // verus!
