//! The main configuration: reading it from a document, and what follows from a change.

use crate::config::dynamic::DynamicConfig;
use crate::config::input;
use crate::config::input::{
    parse_mouse_config, parse_touchpad_config, InputConfig, TouchpadOverride,
};
use crate::config::keybinding;
use crate::config::keybinding::{
    load_keybinding_fragments, parse_keybindings_config, FragmentEntry, FragmentFile, KeyBinding,
};
use crate::config::layout;
use crate::config::layout::{parse_layout_config, LayoutConfig};
use crate::config::output::comp as output_comp;
use crate::config::output::heads;
use crate::config::output::heads::{Head, OutputPlan};
use crate::config::value;
use crate::config::value::{get_str, get_table, parse_document, TomlEntry, TomlModel};
use crate::config::xkb;
use crate::config::xkb::{parse_xkb_config, SystemXkb, XkbConfig, XkbEnvironment};
use crate::geometry;
use crate::input::binding_resolver;
use crate::input::binding_resolver::{static_bindings, BindingResolver, StaticBinding};
use crate::number::Float64;
use crate::order;
use crate::shell::element::window::AppearanceConfig;
use crate::shell::layout::ApplicationException;
use crate::shell::zoom::ZoomMovement;
use crate::text;
use crate::text::str_eq;
use vstd::prelude::*;

verus! {

/// The state of the number lock at the start.
#[derive(Clone, Copy, Debug, PartialEq, Eq, Structural)]
pub enum NumlockState {
    BootOff,
    BootOn,
    LastBoot,
}

/// The locks of the keyboard.
#[derive(Clone, Copy, Debug, PartialEq, Eq, Structural)]
pub struct KeyboardConfig {
    pub numlock_state: NumlockState,
}

/// Whether workspaces span all outputs.
#[derive(Clone, Copy, Debug, PartialEq, Eq, Structural)]
pub enum WorkspaceMode {
    OutputBound,
    Global,
}

/// The direction in which workspaces are laid out.
#[derive(Clone, Copy, Debug, PartialEq, Eq, Structural)]
pub enum WorkspaceLayout {
    Vertical,
    Horizontal,
}

/// The workspaces.
#[derive(Clone, Copy, Debug, PartialEq, Eq, Structural)]
pub struct WorkspaceConfig {
    pub workspace_mode: WorkspaceMode,
    pub workspace_layout: WorkspaceLayout,
}

/// Which workspaces are tiled by themselves.
#[derive(Clone, Copy, Debug, PartialEq, Eq, Structural)]
pub enum TileBehavior {
    Global,
    PerWorkspace,
}

/// How X11 windows are scaled.
#[derive(Clone, Copy, Debug, PartialEq, Eq, Structural)]
pub enum XwaylandDescaling {
    Disabled,
    Enabled,
    Fractional,
}

/// Which keys X11 clients may listen to without the focus.
#[derive(Clone, Copy, Debug, PartialEq, Eq, Structural)]
pub enum EavesdroppingKeyboardMode {
    NoKeys,
    Modifiers,
    Combinations,
    AllKeys,
}

/// What X11 clients may listen to without the focus.
#[derive(Clone, Copy, Debug, PartialEq, Eq, Structural)]
pub struct XwaylandEavesdropping {
    pub keyboard: EavesdroppingKeyboardMode,
    pub pointer: bool,
}

/// The magnifier.
#[derive(Clone, Copy, Debug, PartialEq, Eq, Structural)]
pub struct ZoomConfig {
    pub start_on_login: bool,
    pub show_overlay: bool,
    pub increment: u32,
    pub view_moves: ZoomMovement,
    pub enable_mouse_zoom_shortcuts: bool,
}

/// The main configuration.
#[derive(Debug, PartialEq, Eq)]
pub struct CosmicCompConfig {
    pub workspaces: WorkspaceConfig,
    pub input_default: InputConfig,
    pub input_touchpad: InputConfig,
    pub input_touchpad_override: TouchpadOverride,
    /// Configurations of devices by their names, each of which occurs once.
    pub input_devices: Vec<(String, InputConfig)>,
    pub xkb_config: XkbConfig,
    pub keyboard_config: KeyboardConfig,
    pub autotile: bool,
    pub autotile_behavior: TileBehavior,
    pub active_hint: bool,
    pub descale_xwayland: XwaylandDescaling,
    pub xwayland_eavesdropping: XwaylandEavesdropping,
    pub accessibility_zoom: ZoomConfig,
    pub appearance_settings: AppearanceConfig,
}

/// What a document configures.
#[derive(Debug)]
pub struct TomlConfig {
    pub cosmic: CosmicCompConfig,
    pub layout: LayoutConfig,
    pub keybindings: Vec<KeyBinding>,
}

/// The workspaces with what the table `workspaces` of a document gives: every layout but the
/// vertical one is horizontal.
pub open spec fn with_workspaces(
    document: Seq<(Seq<char>, TomlModel)>,
    workspaces: WorkspaceConfig,
) -> WorkspaceConfig {
    match value::table_at(document, "workspaces"@) {
        Some(section) => match value::text_at(section, "workspace_layout"@) {
            Some(s) => WorkspaceConfig {
                workspace_layout: if s == "Vertical"@ || s == "vertical"@ {
                    WorkspaceLayout::Vertical
                } else {
                    WorkspaceLayout::Horizontal
                },
                ..workspaces
            },
            None => workspaces,
        },
        None => workspaces,
    }
}

/// Whether `r` is what a document configures over the defaults.
pub open spec fn configures(
    document: Seq<(Seq<char>, TomlModel)>,
    defaults: CosmicCompConfig,
    r: TomlConfig,
) -> bool {
    &&& r.cosmic.xkb_config@ == match value::table_at(document, "xkb_config"@) {
        Some(section) => xkb::with_xkb(section, defaults.xkb_config@),
        None => defaults.xkb_config@,
    }
    &&& r.cosmic == (CosmicCompConfig {
        xkb_config: r.cosmic.xkb_config,
        workspaces: with_workspaces(document, defaults.workspaces),
        input_default: input::with_mouse(document, defaults.input_default),
        input_touchpad: input::with_touchpad(document, defaults.input_touchpad),
        ..defaults
    })
    &&& r.layout@ == layout::layout_of(document)
    &&& keybinding::models(r.keybindings@) == keybinding::keybindings_of(document)
}

/// Applies a document to the defaults.
pub fn apply_document(table: &Vec<TomlEntry>, defaults: CosmicCompConfig) -> (r: TomlConfig)
    ensures
        configures(value::entries_model(table@), defaults, r),
{
    let mut xkb_config: XkbConfig = defaults.xkb_config;
    let mut input_default: InputConfig = defaults.input_default;
    let mut input_touchpad: InputConfig = defaults.input_touchpad;
    apply_xkb(table, &mut xkb_config);
    parse_mouse_config(table, &mut input_default);
    parse_touchpad_config(table, &mut input_touchpad);
    let workspaces: WorkspaceConfig = parse_workspaces(table, defaults.workspaces);
    let cosmic = CosmicCompConfig {
        xkb_config,
        workspaces,
        input_default,
        input_touchpad,
        ..defaults
    };
    TomlConfig {
        cosmic,
        layout: parse_layout_config(table),
        keybindings: parse_keybindings_config(table),
    }
}

/// Applies the table `xkb_config` of a document to the keyboard.
fn apply_xkb(table: &Vec<TomlEntry>, config: &mut XkbConfig)
    ensures
        final(config)@ == match value::table_at(value::entries_model(table@), "xkb_config"@) {
            Some(section) => xkb::with_xkb(section, old(config)@),
            None => old(config)@,
        },
{
    if let Some(section) = get_table(table, "xkb_config") {
        parse_xkb_config(section, config);
    }
}

/// The workspaces with what the table `workspaces` of a document gives.
fn parse_workspaces(table: &Vec<TomlEntry>, workspaces: WorkspaceConfig) -> (r: WorkspaceConfig)
    ensures
        r == with_workspaces(value::entries_model(table@), workspaces),
{
    let mut workspaces: WorkspaceConfig = workspaces;
    if let Some(section) = get_table(table, "workspaces") {
        if let Some(s) = get_str(section, "workspace_layout") {
            workspaces.workspace_layout = if str_eq(s, "Vertical") || str_eq(s, "vertical") {
                WorkspaceLayout::Vertical
            } else {
                WorkspaceLayout::Horizontal
            };
        }
    }
    workspaces
}

/// Reads the main configuration from the content of its file, over the defaults. Where there is
/// no file, or it is not a TOML document, the defaults hold, and there are no key bindings.
pub fn load_toml_config(content: Option<&str>, defaults: CosmicCompConfig) -> (r: TomlConfig)
    ensures
        read_from(content, defaults, r),
{
    if let Some(text) = content {
        if let Some(table) = parse_document(text) {
            return apply_document(&table, defaults);
        }
    }
    TomlConfig { cosmic: defaults, layout: LayoutConfig::default(), keybindings: Vec::new() }
}

/// The document in a file, where there is one.
pub open spec fn document_in(content: Option<&str>) -> Option<Seq<(Seq<char>, TomlModel)>> {
    match content {
        Some(s) => value::toml_document(s@),
        None => None,
    }
}

/// What a change of the configuration asks for.
#[derive(Clone, Copy, Debug, PartialEq, Eq, Structural)]
pub enum ConfigEffect {
    /// Give the workspaces the gaps of the layout, arrange their windows anew, and let the shell
    /// take over the rules for windows.
    UpdateLayout,
    /// Give the keyboards the new layout.
    UpdateKeyboard,
    /// Remember the state of the number lock.
    RecordNumlock,
    /// Configure the input devices anew.
    UpdateInput,
    /// Let the shell take over the configuration.
    UpdateConfig,
    /// Tile workspaces by themselves, or no longer.
    UpdateAutotile(bool),
    /// Change which workspaces are tiled by themselves.
    UpdateAutotileBehavior(TileBehavior),
    /// Tell X11 clients of the new scale.
    UpdateXwayland,
    /// Forget what X11 clients listen to.
    ResetEavesdropping,
    /// Draw all outputs anew.
    ScheduleRender,
}

/// Whether the same devices are configured in the same way.
pub open spec fn same_devices(
    a: Seq<(String, InputConfig)>,
    b: Seq<(String, InputConfig)>,
) -> bool {
    &&& a.len() == b.len()
    &&& forall|i: int|
        0 <= i < a.len() ==> match input::device_named(b, (#[trigger] a[i]).0@) {
            Some(config) => a[i].1.same(config),
            None => false,
        }
}

/// The configuration of the device with the given name.
fn find_device<'a>(devices: &'a Vec<(String, InputConfig)>, name: &str) -> (r: Option<
    &'a InputConfig,
>)
    ensures
        match r {
            Some(config) => input::device_named(devices@, name@) == Some(*config),
            None => input::device_named(devices@, name@) is None,
        },
{
    let mut i: usize = 0;
    proof {
        assert(devices@.skip(0) =~= devices@);
    }
    while i < devices.len()
        invariant
            i <= devices@.len(),
            input::device_named(devices@, name@) == input::device_named(
                devices@.skip(i as int),
                name@,
            ),
        decreases devices@.len() - i,
    {
        proof {
            assert(devices@.skip(i as int).skip(1) =~= devices@.skip(i + 1));
        }
        if str_eq(devices[i].0.as_str(), name) {
            return Some(&devices[i].1);
        }
        i += 1;
    }
    None
}

/// Whether the same devices are configured in the same way.
fn devices_equal(a: &Vec<(String, InputConfig)>, b: &Vec<(String, InputConfig)>) -> (r: bool)
    ensures
        r == same_devices(a@, b@),
{
    if a.len() != b.len() {
        return false;
    }
    let mut i: usize = 0;
    while i < a.len()
        invariant
            i <= a@.len(),
            a@.len() == b@.len(),
            forall|j: int|
                0 <= j < i ==> match input::device_named(b@, (#[trigger] a@[j]).0@) {
                    Some(config) => a@[j].1.same(config),
                    None => false,
                },
        decreases a@.len() - i,
    {
        let same: bool = match find_device(b, a[i].0.as_str()) {
            Some(config) => a[i].1.equals(config),
            None => false,
        };
        if !same {
            assert(!same_devices(a@, b@)) by {
                let entry = a@[i as int];
            }
            return false;
        }
        i += 1;
    }
    true
}

/// Whether the configuration of input devices differs.
pub open spec fn input_differs(old: CosmicCompConfig, new: CosmicCompConfig) -> bool {
    ||| !new.input_default.same(old.input_default)
    ||| !new.input_touchpad.same(old.input_touchpad)
    ||| new.input_touchpad_override != old.input_touchpad_override
    ||| !same_devices(new.input_devices@, old.input_devices@)
}

/// An effect that is asked for if a condition holds.
pub open spec fn effect_if(condition: bool, effect: ConfigEffect) -> Seq<ConfigEffect> {
    if condition {
        seq![effect]
    } else {
        seq![]
    }
}

/// What a change of the configuration asks for, in this order.
pub open spec fn effects(old: CosmicCompConfig, new: CosmicCompConfig) -> Seq<ConfigEffect> {
    effect_if(new.xkb_config@ != old.xkb_config@, ConfigEffect::UpdateKeyboard) + effect_if(
        new.keyboard_config != old.keyboard_config,
        ConfigEffect::RecordNumlock,
    ) + effect_if(input_differs(old, new), ConfigEffect::UpdateInput) + effect_if(
        new.workspaces != old.workspaces,
        ConfigEffect::UpdateConfig,
    ) + effect_if(new.autotile != old.autotile, ConfigEffect::UpdateAutotile(new.autotile))
        + effect_if(
        new.autotile_behavior != old.autotile_behavior,
        ConfigEffect::UpdateAutotileBehavior(new.autotile_behavior),
    ) + effect_if(new.active_hint != old.active_hint, ConfigEffect::UpdateConfig) + effect_if(
        new.descale_xwayland != old.descale_xwayland,
        ConfigEffect::UpdateXwayland,
    ) + effect_if(
        new.xwayland_eavesdropping != old.xwayland_eavesdropping,
        ConfigEffect::ResetEavesdropping,
    ) + effect_if(
        new.accessibility_zoom != old.accessibility_zoom,
        ConfigEffect::UpdateConfig,
    ) + effect_if(
        new.appearance_settings != old.appearance_settings,
        ConfigEffect::UpdateConfig,
    ) + effect_if(
        new.appearance_settings != old.appearance_settings,
        ConfigEffect::ScheduleRender,
    )
}

/// Adds an effect if a condition holds.
fn add_effect(out: &mut Vec<ConfigEffect>, condition: bool, effect: ConfigEffect)
    ensures
        final(out)@ == old(out)@ + effect_if(condition, effect),
{
    if condition {
        out.push(effect);
    }
    assert(out@ =~= old(out)@ + effect_if(condition, effect));
}

/// What a change of the configuration asks for.
pub fn config_effects(old: &CosmicCompConfig, new: &CosmicCompConfig) -> (r: Vec<ConfigEffect>)
    ensures
        r@ == effects(*old, *new),
{
    let mut out: Vec<ConfigEffect> = Vec::new();
    add_effect(
        &mut out,
        !new.xkb_config.equals(&old.xkb_config),
        ConfigEffect::UpdateKeyboard,
    );
    add_effect(
        &mut out,
        new.keyboard_config != old.keyboard_config,
        ConfigEffect::RecordNumlock,
    );
    let input: bool = !new.input_default.equals(&old.input_default) || !new.input_touchpad.equals(
        &old.input_touchpad,
    ) || new.input_touchpad_override != old.input_touchpad_override || !devices_equal(
        &new.input_devices,
        &old.input_devices,
    );
    add_effect(&mut out, input, ConfigEffect::UpdateInput);
    add_effect(&mut out, new.workspaces != old.workspaces, ConfigEffect::UpdateConfig);
    add_effect(
        &mut out,
        new.autotile != old.autotile,
        ConfigEffect::UpdateAutotile(new.autotile),
    );
    add_effect(
        &mut out,
        new.autotile_behavior != old.autotile_behavior,
        ConfigEffect::UpdateAutotileBehavior(new.autotile_behavior),
    );
    add_effect(&mut out, new.active_hint != old.active_hint, ConfigEffect::UpdateConfig);
    add_effect(
        &mut out,
        new.descale_xwayland != old.descale_xwayland,
        ConfigEffect::UpdateXwayland,
    );
    add_effect(
        &mut out,
        new.xwayland_eavesdropping != old.xwayland_eavesdropping,
        ConfigEffect::ResetEavesdropping,
    );
    add_effect(
        &mut out,
        new.accessibility_zoom != old.accessibility_zoom,
        ConfigEffect::UpdateConfig,
    );
    let appearance: bool = new.appearance_settings != old.appearance_settings;
    add_effect(&mut out, appearance, ConfigEffect::UpdateConfig);
    add_effect(&mut out, appearance, ConfigEffect::ScheduleRender);
    assert(out@ =~= effects(*old, *new));
    out
}

/// The configuration in force.
#[derive(Debug)]
pub struct Config {
    /// What is stored between sessions.
    pub dynamic_conf: DynamicConfig,
    /// The file of the main configuration.
    pub toml_path: String,
    pub cosmic_conf: CosmicCompConfig,
    /// The windows that are never tiled.
    pub tiling_exceptions: Vec<ApplicationException>,
    pub layout: LayoutConfig,
    pub toml_keybindings: Vec<KeyBinding>,
    /// Whether the compositor runs in a window of another one.
    pub nested: bool,
}

/// Whether a configuration holds what the content of a file gives over the defaults. Where there
/// is no file, or it is not a TOML document, the defaults hold, and there are no key bindings.
pub open spec fn read_from(
    content: Option<&str>,
    defaults: CosmicCompConfig,
    read: TomlConfig,
) -> bool {
    match document_in(content) {
        Some(document) => configures(document, defaults, read),
        None => {
            &&& read.cosmic == defaults
            &&& read.layout@ == layout::default_layout()
            &&& read.keybindings@.len() == 0
        },
    }
}

/// The configuration that applies to a device where its own gives nothing: one for touchpads,
/// which are the devices that take taps of fingers, and one for the others.
pub open spec fn device_default(config: CosmicCompConfig, touchpad: bool) -> InputConfig {
    if touchpad {
        config.input_touchpad
    } else {
        config.input_default
    }
}

impl Config {
    /// What the file of the main configuration has given.
    pub open spec fn read(self) -> TomlConfig {
        TomlConfig {
            cosmic: self.cosmic_conf,
            layout: self.layout,
            keybindings: self.toml_keybindings,
        }
    }

    /// The configuration at the start, from the content of its file, what is stored between
    /// sessions and the windows that the desktop has excepted from tiling.
    pub fn load(
        toml_path: String,
        content: Option<&str>,
        dynamic_conf: DynamicConfig,
        tiling_exceptions: Vec<ApplicationException>,
        defaults: CosmicCompConfig,
    ) -> (r: Config)
        ensures
            read_from(content, defaults, r.read()),
            r.toml_path == toml_path,
            r.dynamic_conf == dynamic_conf,
            r.tiling_exceptions == tiling_exceptions,
            !r.nested,
    {
        let toml_config: TomlConfig = load_toml_config(content, defaults);
        Config {
            dynamic_conf,
            toml_path,
            cosmic_conf: toml_config.cosmic,
            tiling_exceptions,
            layout: toml_config.layout,
            toml_keybindings: toml_config.keybindings,
            nested: false,
        }
    }

    /// The keyboard to use: what is configured, and for the rest what the environment gives;
    /// where that leaves no layout, what the system gives, and at last the layout of the console.
    pub fn xkb_config(
        &self,
        env: XkbEnvironment,
        system: SystemXkb,
        keymap: Option<String>,
    ) -> (r: XkbConfig)
        ensures
            r@ == xkb::with_console(
                xkb::with_system(xkb::with_environment(self.cosmic_conf.xkb_config@, env), system),
                text::optional_view(keymap),
            ),
    {
        xkb::xkb_config(&self.cosmic_conf.xkb_config, env, system, keymap)
    }

    /// The own configuration of a device, and the one that applies where that gives nothing.
    pub fn get_device_config(&self, name: &str, tap_fingers: u32) -> (r: (
        Option<InputConfig>,
        &InputConfig,
    ))
        ensures
            r.0 == input::device_config(
                self.cosmic_conf.input_devices@,
                name@,
                tap_fingers > 0,
                self.cosmic_conf.input_touchpad_override,
            ),
            *r.1 == device_default(self.cosmic_conf, tap_fingers > 0),
    {
        let own: Option<InputConfig> = input::get_device_config(
            &self.cosmic_conf.input_devices,
            name,
            tap_fingers,
            self.cosmic_conf.input_touchpad_override,
        );
        let default: &InputConfig = if tap_fingers > 0 {
            &self.cosmic_conf.input_touchpad
        } else {
            &self.cosmic_conf.input_default
        };
        (own, default)
    }

    /// The factor by which a device scrolls: its own, or the default one, or 1.
    pub fn scroll_factor(&self, name: &str, tap_fingers: u32) -> (r: Float64)
        ensures
            r == input::factor_of(
                input::device_config(
                    self.cosmic_conf.input_devices@,
                    name@,
                    tap_fingers > 0,
                    self.cosmic_conf.input_touchpad_override,
                ),
                device_default(self.cosmic_conf, tap_fingers > 0),
            ),
    {
        let (own, default) = self.get_device_config(name, tap_fingers);
        input::scroll_factor(&own, default)
    }

    /// The output that a device is mapped to: its own, or the default one.
    pub fn map_to_output(&self, name: &str, tap_fingers: u32) -> (r: Option<String>)
        ensures
            text::optional_view(r) == input::output_of(
                input::device_config(
                    self.cosmic_conf.input_devices@,
                    name@,
                    tap_fingers > 0,
                    self.cosmic_conf.input_touchpad_override,
                ),
                device_default(self.cosmic_conf, tap_fingers > 0),
            ),
    {
        let (own, default) = self.get_device_config(name, tap_fingers);
        input::map_to_output(&own, default)
    }

    /// Gives the outputs that are present their configurations: those stored for just these
    /// outputs, unless they disable all of them; else generated ones.
    pub fn read_outputs(&self, heads: &mut Vec<Head>) -> (r: OutputPlan)
        requires
            heads::usable(
                self.dynamic_conf.outputs.1@,
                order::sorted(heads::head_infos(heads::head_models(old(heads)@))),
            ) is None ==> heads::width_before(
                heads::head_models(old(heads)@),
                old(heads)@.len() as int,
            ) <= u32::MAX,
        ensures
            ({
                let before = heads::head_models(old(heads)@);
                let set = order::sorted(heads::head_infos(before));
                match (heads::usable(self.dynamic_conf.outputs.1@, set), r) {
                    (Some(configs), OutputPlan::Stored { assigned: indices }) => {
                        let n = geometry::smaller(set.len() as int, configs.len() as int);
                        &&& heads::head_models(final(heads)@) == heads::assigned(
                            before,
                            set,
                            configs,
                            n,
                        )
                        &&& order::as_ints(indices@) == heads::assigned_heads(before, set, n)
                    },
                    (None, OutputPlan::Generated) => heads::head_models(final(heads)@)
                        == heads::generated(before),
                    _ => false,
                }
            }),
    {
        heads::read_outputs(heads, self.dynamic_conf.outputs())
    }

    /// Stores the configurations of the outputs that are present.
    pub fn write_outputs(&mut self, heads: &Vec<Head>)
        ensures
            final(self).dynamic_conf.outputs.1@ == output_comp::with_set(
                old(self).dynamic_conf.outputs.1@,
                heads::present_set(heads::head_models(heads@)),
            ),
            *final(self) == (Config {
                dynamic_conf: DynamicConfig {
                    outputs: (
                        old(self).dynamic_conf.outputs.0,
                        final(self).dynamic_conf.outputs.1,
                    ),
                    ..old(self).dynamic_conf
                },
                ..*old(self)
            }),
    {
        heads::write_outputs(self.dynamic_conf.outputs_mut(), heads);
    }
}

/// Takes over a configuration that has been read anew, and returns what that asks for: the layout
/// is always taken over, the rest where it has changed. The resolver gets the new key bindings,
/// those of modules behind those of the user.
pub fn config_changed(
    config: &mut Config,
    resolver: &mut BindingResolver,
    read: TomlConfig,
    modules: &Vec<FragmentEntry>,
) -> (r: Vec<ConfigEffect>)
    ensures
        *final(config) == (Config {
            cosmic_conf: read.cosmic,
            layout: read.layout,
            toml_keybindings: read.keybindings,
            ..*old(config)
        }),
        exists|statics: Seq<StaticBinding>|
            binding_resolver::configured_statics(read.keybindings@, modules@, statics)
                && final(resolver)@.statics == #[trigger] binding_resolver::by_scope(statics),
        final(resolver)@.dynamic == old(resolver)@.dynamic,
        final(resolver)@.focused == old(resolver)@.focused,
        r@ == seq![ConfigEffect::UpdateLayout] + effects(old(config).cosmic_conf, read.cosmic),
{
    let mut out: Vec<ConfigEffect> = Vec::new();
    out.push(ConfigEffect::UpdateLayout);
    let mut changes: Vec<ConfigEffect> = config_effects(&config.cosmic_conf, &read.cosmic);
    out.append(&mut changes);
    let statics: Vec<StaticBinding> = static_bindings(&read.keybindings, modules);
    resolver.set_static_bindings(statics);
    config.layout = read.layout;
    config.toml_keybindings = read.keybindings;
    config.cosmic_conf = read.cosmic;
    out
}

/// The file of the main configuration, or one of those of modules, has changed: takes over what
/// they hold now, and returns what that asks for.
pub fn toml_config_changed(
    config: &mut Config,
    resolver: &mut BindingResolver,
    content: Option<&str>,
    files: &Vec<FragmentFile>,
    defaults: CosmicCompConfig,
) -> (r: Vec<ConfigEffect>)
    ensures
        read_from(content, defaults, final(config).read()),
        *final(config) == (Config {
            cosmic_conf: final(config).cosmic_conf,
            layout: final(config).layout,
            toml_keybindings: final(config).toml_keybindings,
            ..*old(config)
        }),
        exists|modules: Seq<FragmentEntry>, statics: Seq<StaticBinding>|
            #![trigger binding_resolver::configured_statics(
                final(config).toml_keybindings@,
                modules,
                statics,
            )]
            {
                &&& keybinding::fragment_models(modules) == keybinding::fragments_of(files@)
                &&& binding_resolver::configured_statics(
                    final(config).toml_keybindings@,
                    modules,
                    statics,
                )
                &&& final(resolver)@.statics == binding_resolver::by_scope(statics)
            },
        final(resolver)@.dynamic == old(resolver)@.dynamic,
        final(resolver)@.focused == old(resolver)@.focused,
        r@ == seq![ConfigEffect::UpdateLayout] + effects(
            old(config).cosmic_conf,
            final(config).cosmic_conf,
        ),
{
    let read: TomlConfig = load_toml_config(content, defaults);
    let modules: Vec<FragmentEntry> = load_keybinding_fragments(files);
    config_changed(config, resolver, read, &modules)
}

/// The rate and the delay at which keys repeat, as the keyboard takes them.
pub fn repeat_info(repeat_rate: u32, repeat_delay: u32) -> (r: (i32, i32))
    requires
        repeat_rate != 0x8000_0000,
        repeat_delay != 0x8000_0000,
    ensures
        r.0 == repeat_value(repeat_rate),
        r.1 == repeat_value(repeat_delay),
{
    (repeat_number(repeat_rate), repeat_number(repeat_delay))
}

/// The distance of a number from zero when it is taken as signed.
pub open spec fn repeat_value(n: u32) -> int {
    if n < 0x8000_0000 {
        n as int
    } else {
        0x1_0000_0000 - n
    }
}

/// The distance of a number from zero when it is taken as signed.
fn repeat_number(n: u32) -> (r: i32)
    requires
        n != 0x8000_0000,
    ensures
        r == repeat_value(n),
{
    if n < 0x8000_0000 {
        n as i32
    } else {
        (0x1_0000_0000u64 - n as u64) as i32
    }
}

/// The key of the number lock.
pub const NUMLOCK_SCANCODE: u32 = 69;

/// The key of the capitals lock.
pub const CAPSLOCK_SCANCODE: u32 = 58;

/// What is added to a key of the kernel for its code in X11.
pub const X11_KEYCODE_OFFSET: u32 = 8;

/// The keys to press and release, by their codes in X11, so that the locks are again as they
/// were before a change of the layout.
pub fn locks_to_toggle(
    num_before: bool,
    num_now: bool,
    caps_before: bool,
    caps_now: bool,
) -> (r: Vec<u32>)
    ensures
        r@ == (if num_before != num_now {
            seq![(NUMLOCK_SCANCODE + X11_KEYCODE_OFFSET) as u32]
        } else {
            seq![]
        }) + (if caps_before != caps_now {
            seq![(CAPSLOCK_SCANCODE + X11_KEYCODE_OFFSET) as u32]
        } else {
            seq![]
        }),
{
    let mut out: Vec<u32> = Vec::new();
    if num_before != num_now {
        out.push(NUMLOCK_SCANCODE + X11_KEYCODE_OFFSET);
    }
    if caps_before != caps_now {
        out.push(CAPSLOCK_SCANCODE + X11_KEYCODE_OFFSET);
    }
    assert(out@ =~= (if num_before != num_now {
        seq![(NUMLOCK_SCANCODE + X11_KEYCODE_OFFSET) as u32]
    } else {
        seq![]
    }) + (if caps_before != caps_now {
        seq![(CAPSLOCK_SCANCODE + X11_KEYCODE_OFFSET) as u32]
    } else {
        seq![]
    }));
    out
}

/// A configuration that is read again unchanged asks for nothing, unless it holds a value that
/// is not a number.
pub proof fn an_unchanged_configuration_asks_for_nothing(c: CosmicCompConfig)
    requires
        c.input_default.same(c.input_default),
        c.input_touchpad.same(c.input_touchpad),
        same_devices(c.input_devices@, c.input_devices@),
    ensures
        effects(c, c) == Seq::<ConfigEffect>::empty(),
{
    assert(effects(c, c) =~= Seq::<ConfigEffect>::empty());
}

/// A document that says nothing leaves the defaults in force, with the default key bindings.
pub proof fn an_empty_document_changes_nothing(defaults: CosmicCompConfig, r: TomlConfig)
    requires
        configures(seq![], defaults, r),
    ensures
        r.cosmic.xkb_config@ == defaults.xkb_config@,
        r.cosmic.input_default == defaults.input_default,
        r.cosmic.input_touchpad == defaults.input_touchpad,
        r.cosmic.workspaces == defaults.workspaces,
        r.layout@ == layout::default_layout(),
        keybinding::models(r.keybindings@) == keybinding::default_bindings(),
{
}

/// What is read again after a setting of the desktop has changed.
#[derive(Clone, Copy, Debug, PartialEq, Eq, Structural)]
pub enum SettingsReload {
    Nothing,
    Shortcuts,
    SystemActions,
    TilingExceptions,
}

/// What is read again after a setting of the shortcuts has changed.
pub fn shortcut_setting_changed(key: &str) -> (r: SettingsReload)
    ensures
        r == if key@ == "custom"@ || key@ == "defaults"@ {
            SettingsReload::Shortcuts
        } else if key@ == "system_actions"@ {
            SettingsReload::SystemActions
        } else {
            SettingsReload::Nothing
        },
{
    if str_eq(key, "custom") || str_eq(key, "defaults") {
        SettingsReload::Shortcuts
    } else if str_eq(key, "system_actions") {
        SettingsReload::SystemActions
    } else {
        SettingsReload::Nothing
    }
}

/// What is read again after a setting of the window rules has changed.
pub fn window_rule_setting_changed(key: &str) -> (r: SettingsReload)
    ensures
        r == if key@ == "tiling_exception_defaults"@ || key@ == "tiling_exception_custom"@ {
            SettingsReload::TilingExceptions
        } else {
            SettingsReload::Nothing
        },
{
    if str_eq(key, "tiling_exception_defaults") || str_eq(key, "tiling_exception_custom") {
        SettingsReload::TilingExceptions
    } else {
        SettingsReload::Nothing
    }
}

} // verus!
