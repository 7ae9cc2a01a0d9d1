//! The stored form of output profiles: a list of profiles, each with a set of outputs and the
//! configuration of each of them.

use crate::config::output::comp;
use crate::config::output::comp::{
    sort_infos, AdaptiveSync, OutputConfig, OutputInfo, OutputMode, OutputPosition, OutputState,
    OutputsConfig, TransformDef,
};
use crate::geometry;
use crate::number::Float64;
use crate::order;
use crate::order::Key;
use crate::text;
use crate::text::{debug_text, decimal_text, str_eq, strip_prefix, to_chars};
use vstd::prelude::*;

verus! {

/// The stored names of transforms.
#[derive(Clone, Copy, Debug, PartialEq, Eq, Structural)]
pub enum TransformToml {
    Normal,
    Rotate90,
    Rotate180,
    Rotate270,
    Flipped,
    Flipped90,
    Flipped180,
    Flipped270,
}

/// The stored names of adaptive sync.
#[derive(Clone, Copy, Debug, PartialEq, Eq, Structural)]
pub enum VrrToml {
    Enabled,
    Disabled,
    Force,
}

/// The stored form of whether an output is used.
#[derive(Debug, PartialEq, Eq)]
pub enum EnabledToml {
    Enabled,
    Disabled,
    Mirror(String),
}

/// The model of whether an output is used.
#[verifier::ext_equal]
pub enum EnabledModel {
    Enabled,
    Disabled,
    Mirror(Seq<char>),
}

impl View for EnabledToml {
    type V = EnabledModel;

    open spec fn view(&self) -> EnabledModel {
        match self {
            EnabledToml::Enabled => EnabledModel::Enabled,
            EnabledToml::Disabled => EnabledModel::Disabled,
            EnabledToml::Mirror(c) => EnabledModel::Mirror(c@),
        }
    }
}

/// The stored configuration of an output.
#[derive(Debug, PartialEq, Eq)]
pub struct OutputToml {
    pub connector: String,
    pub mode: OutputMode,
    pub scale: Float64,
    pub position: OutputPosition,
    pub transform: TransformToml,
    pub enabled: EnabledToml,
    pub vrr: VrrToml,
    pub max_bpc: Option<u32>,
    pub xwayland_primary: bool,
}

/// The model of the stored configuration of an output.
#[verifier::ext_equal]
pub struct EntryModel {
    pub connector: Seq<char>,
    pub mode: OutputMode,
    pub scale: Float64,
    pub position: OutputPosition,
    pub transform: TransformToml,
    pub enabled: EnabledModel,
    pub vrr: VrrToml,
    pub max_bpc: Option<u32>,
    pub xwayland_primary: bool,
}

impl View for OutputToml {
    type V = EntryModel;

    open spec fn view(&self) -> EntryModel {
        EntryModel {
            connector: self.connector@,
            mode: self.mode,
            scale: self.scale,
            position: self.position,
            transform: self.transform,
            enabled: self.enabled@,
            vrr: self.vrr,
            max_bpc: self.max_bpc,
            xwayland_primary: self.xwayland_primary,
        }
    }
}

/// A stored profile. Its name is for people only.
#[derive(Debug, PartialEq, Eq)]
pub struct ProfileToml {
    pub name: String,
    pub output_set: Vec<OutputInfo>,
    pub output: Vec<OutputToml>,
}

/// The model of a stored profile.
#[verifier::ext_equal]
pub struct ProfileModel {
    pub name: Seq<char>,
    pub output_set: Seq<order::KeyModel>,
    pub output: Seq<EntryModel>,
}

impl View for ProfileToml {
    type V = ProfileModel;

    open spec fn view(&self) -> ProfileModel {
        ProfileModel {
            name: self.name@,
            output_set: comp::info_models(self.output_set@),
            output: entry_models(self.output@),
        }
    }
}

/// The stored profiles.
#[derive(Debug, PartialEq, Eq)]
pub struct DisplaysToml {
    pub profiles: Vec<ProfileToml>,
}

/// The models of a list of stored configurations.
pub open spec fn entry_models(entries: Seq<OutputToml>) -> Seq<EntryModel> {
    entries.map_values(|e: OutputToml| e@)
}

/// The models of a list of stored profiles.
pub open spec fn profile_models(profiles: Seq<ProfileToml>) -> Seq<ProfileModel> {
    profiles.map_values(|p: ProfileToml| p@)
}

/// The text of whether an output is used: `enabled`, `disabled` or `mirror:` and a connector.
pub open spec fn enabled_text(e: EnabledModel) -> Seq<char> {
    match e {
        EnabledModel::Enabled => "enabled"@,
        EnabledModel::Disabled => "disabled"@,
        EnabledModel::Mirror(c) => "mirror:"@ + c,
    }
}

/// What a text says of whether an output is used; none where it says nothing.
pub open spec fn enabled_in(s: Seq<char>) -> Option<EnabledModel> {
    if s == "enabled"@ {
        Some(EnabledModel::Enabled)
    } else if s == "disabled"@ {
        Some(EnabledModel::Disabled)
    } else if text::has_prefix(s, "mirror:"@) {
        Some(EnabledModel::Mirror(s.skip("mirror:"@.len() as int)))
    } else {
        None
    }
}

impl EnabledToml {
    /// The text of whether an output is used.
    pub fn to_text(&self) -> (r: String)
        ensures
            r@ == enabled_text(self@),
    {
        match self {
            EnabledToml::Enabled => "enabled".to_owned(),
            EnabledToml::Disabled => "disabled".to_owned(),
            EnabledToml::Mirror(c) => {
                let start: String = "mirror:".to_owned();
                start.concat(c.as_str())
            },
        }
    }

    /// What a text says of whether an output is used, or why it says nothing.
    pub fn from_text(s: &str) -> (r: Result<EnabledToml, String>)
        ensures
            match r {
                Ok(e) => enabled_in(s@) == Some(e@),
                Err(message) => enabled_in(s@) is None && message@ == "invalid `enabled` value: "@
                    + text::debug_form(s@)
                    + " (want \"enabled\", \"disabled\", or \"mirror:<connector>\")"@,
            },
    {
        if str_eq(s, "enabled") {
            return Ok(EnabledToml::Enabled);
        }
        if str_eq(s, "disabled") {
            return Ok(EnabledToml::Disabled);
        }
        match strip_prefix(s, "mirror:") {
            Some(c) => Ok(EnabledToml::Mirror(c)),
            None => {
                let start: String = "invalid `enabled` value: ".to_owned();
                Err(
                    start.concat(debug_text(s).as_str()).concat(
                        " (want \"enabled\", \"disabled\", or \"mirror:<connector>\")",
                    ),
                )
            },
        }
    }
}

/// The stored name of a transform.
pub open spec fn stored_transform(t: TransformDef) -> TransformToml {
    match t {
        TransformDef::Normal => TransformToml::Normal,
        TransformDef::_90 => TransformToml::Rotate90,
        TransformDef::_180 => TransformToml::Rotate180,
        TransformDef::_270 => TransformToml::Rotate270,
        TransformDef::Flipped => TransformToml::Flipped,
        TransformDef::Flipped90 => TransformToml::Flipped90,
        TransformDef::Flipped180 => TransformToml::Flipped180,
        TransformDef::Flipped270 => TransformToml::Flipped270,
    }
}

/// The transform of a stored name.
pub open spec fn read_transform(t: TransformToml) -> TransformDef {
    match t {
        TransformToml::Normal => TransformDef::Normal,
        TransformToml::Rotate90 => TransformDef::_90,
        TransformToml::Rotate180 => TransformDef::_180,
        TransformToml::Rotate270 => TransformDef::_270,
        TransformToml::Flipped => TransformDef::Flipped,
        TransformToml::Flipped90 => TransformDef::Flipped90,
        TransformToml::Flipped180 => TransformDef::Flipped180,
        TransformToml::Flipped270 => TransformDef::Flipped270,
    }
}

impl TransformToml {
    /// The stored name of a transform.
    pub fn from_def(t: TransformDef) -> (r: TransformToml)
        ensures
            r == stored_transform(t),
    {
        match t {
            TransformDef::Normal => TransformToml::Normal,
            TransformDef::_90 => TransformToml::Rotate90,
            TransformDef::_180 => TransformToml::Rotate180,
            TransformDef::_270 => TransformToml::Rotate270,
            TransformDef::Flipped => TransformToml::Flipped,
            TransformDef::Flipped90 => TransformToml::Flipped90,
            TransformDef::Flipped180 => TransformToml::Flipped180,
            TransformDef::Flipped270 => TransformToml::Flipped270,
        }
    }

    /// The transform of a stored name.
    pub fn to_def(self) -> (r: TransformDef)
        ensures
            r == read_transform(self),
    {
        match self {
            TransformToml::Normal => TransformDef::Normal,
            TransformToml::Rotate90 => TransformDef::_90,
            TransformToml::Rotate180 => TransformDef::_180,
            TransformToml::Rotate270 => TransformDef::_270,
            TransformToml::Flipped => TransformDef::Flipped,
            TransformToml::Flipped90 => TransformDef::Flipped90,
            TransformToml::Flipped180 => TransformDef::Flipped180,
            TransformToml::Flipped270 => TransformDef::Flipped270,
        }
    }
}

/// The stored name of adaptive sync.
pub open spec fn stored_vrr(v: AdaptiveSync) -> VrrToml {
    match v {
        AdaptiveSync::Enabled => VrrToml::Enabled,
        AdaptiveSync::Disabled => VrrToml::Disabled,
        AdaptiveSync::Force => VrrToml::Force,
    }
}

/// The adaptive sync of a stored name.
pub open spec fn read_vrr(v: VrrToml) -> AdaptiveSync {
    match v {
        VrrToml::Enabled => AdaptiveSync::Enabled,
        VrrToml::Disabled => AdaptiveSync::Disabled,
        VrrToml::Force => AdaptiveSync::Force,
    }
}

impl VrrToml {
    /// The stored name of adaptive sync.
    pub fn from_sync(v: AdaptiveSync) -> (r: VrrToml)
        ensures
            r == stored_vrr(v),
    {
        match v {
            AdaptiveSync::Enabled => VrrToml::Enabled,
            AdaptiveSync::Disabled => VrrToml::Disabled,
            AdaptiveSync::Force => VrrToml::Force,
        }
    }

    /// The adaptive sync of a stored name.
    pub fn to_sync(self) -> (r: AdaptiveSync)
        ensures
            r == read_vrr(self),
    {
        match self {
            VrrToml::Enabled => AdaptiveSync::Enabled,
            VrrToml::Disabled => AdaptiveSync::Disabled,
            VrrToml::Force => AdaptiveSync::Force,
        }
    }
}

/// The stored form of a state.
pub open spec fn stored_state(s: comp::StateModel) -> EnabledModel {
    match s {
        comp::StateModel::Enabled => EnabledModel::Enabled,
        comp::StateModel::Disabled => EnabledModel::Disabled,
        comp::StateModel::Mirroring(c) => EnabledModel::Mirror(c),
    }
}

/// The state of a stored form.
pub open spec fn read_state(e: EnabledModel) -> comp::StateModel {
    match e {
        EnabledModel::Enabled => comp::StateModel::Enabled,
        EnabledModel::Disabled => comp::StateModel::Disabled,
        EnabledModel::Mirror(c) => comp::StateModel::Mirroring(c),
    }
}

/// The stored form of the configuration of the output with the given connector.
pub open spec fn stored(connector: Seq<char>, c: comp::OutputModel) -> EntryModel {
    EntryModel {
        connector,
        mode: c.mode,
        scale: c.scale,
        position: c.position,
        transform: stored_transform(c.transform),
        enabled: stored_state(c.enabled),
        vrr: stored_vrr(c.vrr),
        max_bpc: c.max_bpc,
        xwayland_primary: c.xwayland_primary,
    }
}

/// The configuration of a stored form.
pub open spec fn read(e: EntryModel) -> comp::OutputModel {
    comp::OutputModel {
        mode: e.mode,
        vrr: read_vrr(e.vrr),
        scale: e.scale,
        transform: read_transform(e.transform),
        position: e.position,
        enabled: read_state(e.enabled),
        max_bpc: e.max_bpc,
        xwayland_primary: e.xwayland_primary,
    }
}

/// The stored form of the configuration of the output with the given connector.
pub fn output_to_toml(connector: &str, c: &OutputConfig) -> (r: OutputToml)
    ensures
        r@ == stored(connector@, c@),
{
    let enabled: EnabledToml = match &c.enabled {
        OutputState::Enabled => EnabledToml::Enabled,
        OutputState::Disabled => EnabledToml::Disabled,
        OutputState::Mirroring(target) => EnabledToml::Mirror(target.clone()),
    };
    OutputToml {
        connector: connector.to_owned(),
        mode: c.mode,
        scale: c.scale,
        position: c.position,
        transform: TransformToml::from_def(c.transform),
        enabled,
        vrr: VrrToml::from_sync(c.vrr),
        max_bpc: c.max_bpc,
        xwayland_primary: c.xwayland_primary,
    }
}

/// The configuration of a stored form.
pub fn output_from_toml(t: &OutputToml) -> (r: OutputConfig)
    ensures
        r@ == read(t@),
{
    let enabled: OutputState = match &t.enabled {
        EnabledToml::Enabled => OutputState::Enabled,
        EnabledToml::Disabled => OutputState::Disabled,
        EnabledToml::Mirror(target) => OutputState::Mirroring(target.clone()),
    };
    OutputConfig {
        mode: t.mode,
        vrr: t.vrr.to_sync(),
        scale: t.scale,
        transform: t.transform.to_def(),
        position: t.position,
        enabled,
        max_bpc: t.max_bpc,
        xwayland_primary: t.xwayland_primary,
    }
}

/// A configuration that is stored and read again is the same.
pub proof fn stored_output_is_read_back(connector: Seq<char>, c: comp::OutputModel)
    ensures
        read(stored(connector, c)) == c,
        stored(connector, c).connector == connector,
{
}

/// The text of whether an output is used says just that.
pub proof fn enabled_text_is_read_back(e: EnabledModel)
    ensures
        enabled_in(enabled_text(e)) == Some(e),
{
    reveal_strlit("enabled");
    reveal_strlit("disabled");
    reveal_strlit("mirror:");
    assert("enabled"@.len() != "disabled"@.len());
    if let EnabledModel::Mirror(c) = e {
        let s = "mirror:"@ + c;
        assert(s[0] == 'm');
        assert(s != "enabled"@ && s != "disabled"@);
        assert(s.take("mirror:"@.len() as int) =~= "mirror:"@);
        assert(s.skip("mirror:"@.len() as int) =~= c);
    }
}

/// The last position of a stored configuration for a connector, which is the one that counts.
pub open spec fn last_named(entries: Seq<EntryModel>, connector: Seq<char>) -> Option<int>
    decreases entries.len(),
{
    if entries.len() == 0 {
        None
    } else if entries.last().connector == connector {
        Some(entries.len() - 1)
    } else {
        last_named(entries.drop_last(), connector)
    }
}

/// The defining property of `last_named`.
pub proof fn lemma_last_named(entries: Seq<EntryModel>, connector: Seq<char>)
    ensures
        match last_named(entries, connector) {
            Some(i) => {
                &&& 0 <= i < entries.len()
                &&& entries[i].connector == connector
                &&& forall|j: int|
                    i < j < entries.len() ==> (#[trigger] entries[j]).connector != connector
            },
            None => forall|j: int|
                0 <= j < entries.len() ==> (#[trigger] entries[j]).connector != connector,
        },
    decreases entries.len(),
{
    if entries.len() > 0 && entries.last().connector != connector {
        lemma_last_named(entries.drop_last(), connector);
        assert forall|j: int|
            0 <= j < entries.len() && (last_named(entries, connector) is None || j > last_named(
                entries,
                connector,
            )->0) implies (#[trigger] entries[j]).connector != connector by {
            if j < entries.len() - 1 {
                assert(entries.drop_last()[j] == entries[j]);
            }
        }
    }
}

/// Whether no configuration is left for the output at `i` of a set: none is stored for its
/// connector, or an earlier output of the set has the same one.
pub open spec fn missing(
    set: Seq<order::KeyModel>,
    entries: Seq<EntryModel>,
    i: int,
) -> bool {
    ||| last_named(entries, set[i].first) is None
    ||| exists|j: int| 0 <= j < i && (#[trigger] set[j]).first == set[i].first
}

/// The first output of a set from `from` on that no configuration is left for.
pub open spec fn first_missing(
    set: Seq<order::KeyModel>,
    entries: Seq<EntryModel>,
    from: int,
) -> Option<int>
    decreases set.len() - from,
{
    if from >= set.len() {
        None
    } else if missing(set, entries, from) {
        Some(from)
    } else {
        first_missing(set, entries, from + 1)
    }
}

/// The first position of an output with the given connector.
pub open spec fn connector_position(set: Seq<order::KeyModel>, connector: Seq<char>) -> Option<int>
    decreases set.len(),
{
    if set.len() == 0 {
        None
    } else if set[0].first == connector {
        Some(0)
    } else {
        match connector_position(set.skip(1), connector) {
            Some(i) => Some(i + 1),
            None => None,
        }
    }
}

/// Whether the output at `i` may mirror the one with the given connector: that is another output
/// of the set, and it is used on its own.
pub open spec fn valid_mirror(
    set: Seq<order::KeyModel>,
    outputs: Seq<comp::OutputModel>,
    i: int,
    target: Seq<char>,
) -> bool {
    match connector_position(set, target) {
        Some(j) => j != i && outputs[j].enabled is Enabled,
        None => false,
    }
}

/// The state of the output at `i`, but used on its own where it mirrors one that it may not.
pub open spec fn repaired_state(
    set: Seq<order::KeyModel>,
    outputs: Seq<comp::OutputModel>,
    i: int,
) -> comp::StateModel {
    match outputs[i].enabled {
        comp::StateModel::Mirroring(target) => if valid_mirror(set, outputs, i, target) {
            outputs[i].enabled
        } else {
            comp::StateModel::Enabled
        },
        state => state,
    }
}

/// The configurations of a set of outputs, with the mirrors repaired.
pub open spec fn repaired(
    set: Seq<order::KeyModel>,
    outputs: Seq<comp::OutputModel>,
) -> Seq<comp::OutputModel> {
    Seq::new(
        outputs.len(),
        |i: int|
            comp::OutputModel { enabled: repaired_state(set, outputs, i), ..outputs[i] },
    )
}

/// The configurations stored for a set of outputs, in the order of the set.
pub open spec fn collected(
    set: Seq<order::KeyModel>,
    entries: Seq<EntryModel>,
) -> Seq<comp::OutputModel> {
    Seq::new(set.len(), |i: int| read(entries[last_named(entries, set[i].first)->0]))
}

/// The set of outputs and the configurations that a stored profile holds, or the connector that
/// it has no configuration left for.
pub open spec fn profile_set(p: ProfileModel) -> Result<comp::SetModel, Seq<char>> {
    let set = order::sorted(p.output_set);
    match first_missing(set, p.output, 0) {
        Some(i) => Err(set[i].first),
        None => Ok(
            comp::SetModel { infos: set, outputs: repaired(set, collected(set, p.output)) },
        ),
    }
}

/// Why stored profiles cannot be read: a profile has no configuration left for a connector.
#[derive(Debug, PartialEq, Eq)]
pub struct ProfileError {
    pub profile: String,
    pub connector: String,
}

/// The configurations that stored profiles hold: later profiles for the same outputs count
/// instead of earlier ones. Where a profile cannot be read, its name and the connector.
pub open spec fn config_in(profiles: Seq<ProfileModel>) -> Result<
    Seq<comp::SetModel>,
    (Seq<char>, Seq<char>),
>
    decreases profiles.len(),
{
    if profiles.len() == 0 {
        Ok(seq![])
    } else {
        match config_in(profiles.drop_last()) {
            Err(e) => Err(e),
            Ok(config) => match profile_set(profiles.last()) {
                Err(connector) => Err((profiles.last().name, connector)),
                Ok(set) => Ok(comp::with_set(config, set)),
            },
        }
    }
}

/// The last position of a stored configuration for a connector.
fn find_last(entries: &Vec<OutputToml>, connector: &str) -> (r: Option<usize>)
    ensures
        match r {
            Some(i) => last_named(entry_models(entries@), connector@) == Some(i as int) && i
                < entries@.len(),
            None => last_named(entry_models(entries@), connector@) is None,
        },
{
    let ghost models = entry_models(entries@);
    let mut i: usize = entries.len();
    proof {
        assert(models.take(models.len() as int) =~= models);
    }
    while i > 0
        invariant
            i <= entries@.len(),
            models == entry_models(entries@),
            last_named(models, connector@) == last_named(models.take(i as int), connector@),
        decreases i,
    {
        proof {
            assert(models.take(i as int).last() == entries@[i - 1]@);
            assert(models.take(i as int).drop_last() =~= models.take(i - 1));
        }
        if str_eq(entries[i - 1].connector.as_str(), connector) {
            return Some(i - 1);
        }
        i -= 1;
    }
    None
}

/// Whether an output before `i` has the same connector as the one at `i`.
fn repeats(set: &Vec<OutputInfo>, i: usize) -> (r: bool)
    requires
        i < set@.len(),
    ensures
        r == exists|j: int|
            0 <= j < i && (#[trigger] comp::info_models(set@)[j]).first == comp::info_models(
                set@,
            )[i as int].first,
{
    let mut j: usize = 0;
    while j < i
        invariant
            j <= i < set@.len(),
            forall|k: int|
                0 <= k < j ==> (#[trigger] comp::info_models(set@)[k]).first != comp::info_models(
                    set@,
                )[i as int].first,
        decreases i - j,
    {
        proof {
            assert(comp::info_models(set@)[j as int] == set@[j as int]@);
            assert(comp::info_models(set@)[i as int] == set@[i as int]@);
        }
        if str_eq(set[j].connector.as_str(), set[i].connector.as_str()) {
            return true;
        }
        j += 1;
    }
    false
}

/// The configurations stored for a set of outputs, or the first connector that none is left for.
fn collect_outputs(set: &Vec<OutputInfo>, entries: &Vec<OutputToml>) -> (r: Result<
    Vec<OutputConfig>,
    String,
>)
    ensures
        ({
            let infos = comp::info_models(set@);
            let stored = entry_models(entries@);
            match r {
                Ok(outputs) => first_missing(infos, stored, 0) is None && comp::config_models(
                    outputs@,
                ) == collected(infos, stored),
                Err(connector) => {
                    &&& first_missing(infos, stored, 0) is Some
                    &&& connector@ == infos[first_missing(infos, stored, 0)->0].first
                },
            }
        }),
{
    let ghost infos = comp::info_models(set@);
    let ghost stored = entry_models(entries@);
    let mut outputs: Vec<OutputConfig> = Vec::new();
    let mut i: usize = 0;
    while i < set.len()
        invariant
            i <= set@.len(),
            infos == comp::info_models(set@),
            stored == entry_models(entries@),
            first_missing(infos, stored, 0) == first_missing(infos, stored, i as int),
            comp::config_models(outputs@) =~= collected(infos, stored).take(i as int),
        decreases set@.len() - i,
    {
        proof {
            assert(infos[i as int] == set@[i as int]@);
        }
        if repeats(set, i) {
            return Err(set[i].connector.clone());
        }
        match find_last(entries, set[i].connector.as_str()) {
            Some(k) => {
                let config: OutputConfig = output_from_toml(&entries[k]);
                let ghost before = outputs@;
                outputs.push(config);
                proof {
                    assert(comp::config_models(outputs@) =~= comp::config_models(before).push(
                        config@,
                    ));
                    assert(stored[k as int] == entries@[k as int]@);
                    assert(collected(infos, stored)[i as int] == config@);
                }
            },
            None => {
                return Err(set[i].connector.clone());
            },
        }
        i += 1;
    }
    proof {
        assert(collected(infos, stored).take(i as int) =~= collected(infos, stored));
    }
    Ok(outputs)
}

/// The first position of an output with the given connector.
fn find_connector(set: &Vec<OutputInfo>, connector: &str) -> (r: Option<usize>)
    ensures
        match r {
            Some(i) => connector_position(comp::info_models(set@), connector@) == Some(i as int)
                && i < set@.len(),
            None => connector_position(comp::info_models(set@), connector@) is None,
        },
{
    let ghost infos = comp::info_models(set@);
    let mut i: usize = 0;
    proof {
        assert(infos.skip(0) =~= infos);
    }
    while i < set.len()
        invariant
            i <= set@.len(),
            infos == comp::info_models(set@),
            match connector_position(infos.skip(i as int), connector@) {
                Some(j) => connector_position(infos, connector@) == Some(i + j),
                None => connector_position(infos, connector@) is None,
            },
        decreases set@.len() - i,
    {
        proof {
            assert(infos.skip(i as int)[0] == set@[i as int]@);
            assert(infos.skip(i as int).skip(1) =~= infos.skip(i + 1));
        }
        if str_eq(set[i].connector.as_str(), connector) {
            return Some(i);
        }
        i += 1;
    }
    None
}

/// Whether the output at `i` mirrors one that it may not.
fn broken_mirror(set: &Vec<OutputInfo>, outputs: &Vec<OutputConfig>, i: usize) -> (r: bool)
    requires
        set@.len() == outputs@.len(),
        i < outputs@.len(),
    ensures
        r == match outputs@[i as int]@.enabled {
            comp::StateModel::Mirroring(target) => !valid_mirror(
                comp::info_models(set@),
                comp::config_models(outputs@),
                i as int,
                target,
            ),
            _ => false,
        },
{
    match &outputs[i].enabled {
        OutputState::Mirroring(target) => match find_connector(set, target.as_str()) {
            Some(j) => {
                assert(comp::config_models(outputs@)[j as int] == outputs@[j as int]@);
                j == i || !outputs[j].enabled.is_enabled()
            },
            None => true,
        },
        _ => false,
    }
}

/// Lets outputs that mirror one that they may not be used on their own.
pub fn repair_mirrors(set: &Vec<OutputInfo>, outputs: Vec<OutputConfig>) -> (r: Vec<OutputConfig>)
    requires
        set@.len() == outputs@.len(),
    ensures
        comp::config_models(r@) == repaired(
            comp::info_models(set@),
            comp::config_models(outputs@),
        ),
{
    let ghost infos = comp::info_models(set@);
    let ghost given = comp::config_models(outputs@);
    let mut out: Vec<OutputConfig> = Vec::new();
    let mut i: usize = 0;
    while i < outputs.len()
        invariant
            i <= outputs@.len(),
            set@.len() == outputs@.len(),
            infos == comp::info_models(set@),
            given == comp::config_models(outputs@),
            comp::config_models(out@) =~= repaired(infos, given).take(i as int),
        decreases outputs@.len() - i,
    {
        proof {
            assert(given[i as int] == outputs@[i as int]@);
        }
        let mut config: OutputConfig = outputs[i].clone();
        if broken_mirror(set, &outputs, i) {
            config.enabled = OutputState::Enabled;
        }
        let ghost before = out@;
        out.push(config);
        proof {
            assert(comp::config_models(out@) =~= comp::config_models(before).push(config@));
            assert(repaired(infos, given)[i as int] == config@);
        }
        i += 1;
    }
    proof {
        assert(repaired(infos, given).take(i as int) =~= repaired(infos, given));
    }
    out
}

/// The configurations that stored profiles hold.
pub fn from_displays(displays: &DisplaysToml) -> (r: Result<OutputsConfig, ProfileError>)
    ensures
        match (r, config_in(profile_models(displays.profiles@))) {
            (Ok(config), Ok(model)) => config@ == model && comp::distinct_sets(config@),
            (Err(e), Err(model)) => (e.profile@, e.connector@) == model,
            _ => false,
        },
{
    let ghost all = profile_models(displays.profiles@);
    let mut config = OutputsConfig { profiles: Vec::new() };
    let mut i: usize = 0;
    proof {
        assert(all.take(0) =~= seq![]);
        assert(config@ =~= seq![]);
    }
    while i < displays.profiles.len()
        invariant
            i <= displays.profiles@.len(),
            all == profile_models(displays.profiles@),
            config_in(all.take(i as int)) == Ok::<
                Seq<comp::SetModel>,
                (Seq<char>, Seq<char>),
            >(config@),
        decreases displays.profiles@.len() - i,
    {
        let p: &ProfileToml = &displays.profiles[i];
        proof {
            assert(all.take(i + 1).drop_last() =~= all.take(i as int));
            assert(all.take(i + 1).last() == p@);
        }
        let set: Vec<OutputInfo> = sort_infos(&p.output_set);
        match collect_outputs(&set, &p.output) {
            Ok(outputs) => {
                assert(comp::config_models(outputs@).len() == outputs@.len());
                assert(comp::info_models(set@).len() == set@.len());
                let outputs: Vec<OutputConfig> = repair_mirrors(&set, outputs);
                config.insert(set, outputs);
            },
            Err(connector) => {
                proof {
                    assert(config_in(all.take(i + 1)) is Err);
                    lemma_error_stays(all, i + 1);
                }
                return Err(ProfileError { profile: p.name.clone(), connector });
            },
        }
        i += 1;
    }
    proof {
        assert(all.take(i as int) =~= all);
        lemma_sets_are_distinct(all);
    }
    Ok(config)
}

/// Stored profiles hold every set of outputs once.
proof fn lemma_sets_are_distinct(profiles: Seq<ProfileModel>)
    ensures
        config_in(profiles) matches Ok(config) ==> comp::distinct_sets(config),
    decreases profiles.len(),
{
    if profiles.len() > 0 {
        lemma_sets_are_distinct(profiles.drop_last());
        match (config_in(profiles.drop_last()), profile_set(profiles.last())) {
            (Ok(config), Ok(set)) => {
                let other = set.infos.push(
                    order::KeyModel { first: seq![], second: seq![], third: seq![] },
                );
                assert(other.len() != set.infos.len());
                comp::stored_set_is_found(config, set, other);
            },
            _ => {},
        }
    }
}

/// A profile that cannot be read is what is reported, whatever follows it.
proof fn lemma_error_stays(profiles: Seq<ProfileModel>, n: int)
    requires
        0 <= n <= profiles.len(),
        config_in(profiles.take(n)) is Err,
    ensures
        config_in(profiles) == config_in(profiles.take(n)),
    decreases profiles.len() - n,
{
    if n < profiles.len() {
        assert(profiles.take(n + 1).drop_last() =~= profiles.take(n));
        lemma_error_stays(profiles, n + 1);
    } else {
        assert(profiles.take(n) =~= profiles);
    }
}

impl ProfileError {
    /// The text of the error.
    pub fn message(&self) -> (r: String)
        ensures
            r@ == "profile "@ + text::debug_form(self.profile@)
                + ": output_set lists connector "@ + text::debug_form(self.connector@)
                + " but no [[profile.output]] for it"@,
    {
        let start: String = "profile ".to_owned();
        start.concat(debug_text(self.profile.as_str()).as_str()).concat(
            ": output_set lists connector ",
        ).concat(debug_text(self.connector.as_str()).as_str()).concat(
            " but no [[profile.output]] for it",
        )
    }
}

/// A text of which it can be told where it ends: a sign before each character, and another one at
/// the end.
pub open spec fn delimited(s: Seq<char>) -> Seq<char>
    decreases s.len(),
{
    if s.len() == 0 {
        seq!['-']
    } else {
        seq!['+', s[0]] + delimited(s.skip(1))
    }
}

/// The texts of an output, one after another.
pub open spec fn spelled_info(info: order::KeyModel) -> Seq<char> {
    delimited(info.first) + delimited(info.second) + delimited(info.third)
}

/// The texts of a set of outputs, one after another.
pub open spec fn spelled(infos: Seq<order::KeyModel>) -> Seq<char>
    decreases infos.len(),
{
    if infos.len() == 0 {
        seq![]
    } else {
        spelled(infos.drop_last()) + spelled_info(infos.last())
    }
}

/// The key by which profiles are stored in order: the connector of their first output, and then
/// all that identifies their outputs.
pub open spec fn set_key(set: comp::SetModel) -> order::KeyModel {
    order::KeyModel {
        first: if set.infos.len() > 0 {
            set.infos[0].first
        } else {
            seq![]
        },
        second: spelled(set.infos),
        third: seq![],
    }
}

/// The keys by which profiles are stored in order.
pub open spec fn set_keys(config: Seq<comp::SetModel>) -> Seq<order::KeyModel> {
    config.map_values(|s: comp::SetModel| set_key(s))
}

/// The profiles in the order of their first connectors, and for the same connector in an order
/// that goes by their outputs alone.
pub open spec fn in_order(config: Seq<comp::SetModel>) -> Seq<comp::SetModel> {
    order::order_of(set_keys(config), config.len() as int).map_values(|i: int| config[i])
}

/// The stored form of a profile; its name is `profile-` and its number.
pub open spec fn stored_profile(set: comp::SetModel, number: nat) -> ProfileModel {
    ProfileModel {
        name: "profile-"@ + text::decimal(number),
        output_set: set.infos,
        output: Seq::new(
            geometry::smaller(set.infos.len() as int, set.outputs.len() as int) as nat,
            |j: int| stored(set.infos[j].first, set.outputs[j]),
        ),
    }
}

/// The stored form of all profiles.
pub open spec fn stored_config(config: Seq<comp::SetModel>) -> Seq<ProfileModel> {
    Seq::new(config.len(), |i: int| stored_profile(in_order(config)[i], (i + 1) as nat))
}

/// Appends a text of which it can be told where it ends.
fn push_delimited(out: &mut String, s: &str)
    ensures
        final(out)@ == old(out)@ + delimited(s@),
{
    let chars: Vec<char> = to_chars(s);
    let ghost before = out@;
    let mut i: usize = 0;
    proof {
        assert(chars@.skip(0) =~= chars@);
    }
    while i < chars.len()
        invariant
            i <= chars@.len(),
            before + delimited(chars@) == out@ + delimited(chars@.skip(i as int)),
        decreases chars@.len() - i,
    {
        let ghost so_far = out@;
        out.push('+');
        out.push(chars[i]);
        proof {
            let rest = chars@.skip(i as int);
            assert(rest.skip(1) =~= chars@.skip(i + 1));
            assert(so_far + delimited(rest) =~= out@ + delimited(chars@.skip(i + 1)));
        }
        i += 1;
    }
    out.push('-');
    assert(out@ =~= before + delimited(s@));
}

/// The texts of a set of outputs, one after another.
fn spell(infos: &Vec<OutputInfo>) -> (r: String)
    ensures
        r@ == spelled(comp::info_models(infos@)),
{
    let ghost models = comp::info_models(infos@);
    let mut out: String = String::new();
    let mut i: usize = 0;
    proof {
        assert(out@ =~= spelled(models.take(0)));
    }
    while i < infos.len()
        invariant
            i <= infos@.len(),
            models == comp::info_models(infos@),
            out@ == spelled(models.take(i as int)),
        decreases infos@.len() - i,
    {
        let ghost so_far = out@;
        push_delimited(&mut out, infos[i].connector.as_str());
        push_delimited(&mut out, infos[i].make.as_str());
        push_delimited(&mut out, infos[i].model.as_str());
        proof {
            assert(models.take(i + 1).drop_last() =~= models.take(i as int));
            assert(models.take(i + 1).last() == infos@[i as int]@);
            assert(out@ =~= so_far + spelled_info(infos@[i as int]@));
        }
        i += 1;
    }
    assert(models.take(i as int) =~= models);
    out
}

/// The keys by which profiles are stored in order.
fn connector_keys(config: &OutputsConfig) -> (r: Vec<Key>)
    ensures
        order::key_models(r@) == set_keys(config@),
{
    let mut keys: Vec<Key> = Vec::new();
    let mut i: usize = 0;
    while i < config.profiles.len()
        invariant
            i <= config.profiles@.len(),
            order::key_models(keys@) =~= set_keys(config@).take(i as int),
        decreases config.profiles@.len() - i,
    {
        let infos: &Vec<OutputInfo> = &config.profiles[i].infos;
        let first: String = if infos.len() > 0 {
            assert(comp::info_models(infos@)[0] == infos@[0]@);
            infos[0].connector.clone()
        } else {
            String::new()
        };
        let key = Key { first, second: spell(infos), third: String::new() };
        let ghost before = keys@;
        keys.push(key);
        proof {
            assert(config@[i as int] == config.profiles@[i as int]@);
            assert(key@ =~= set_key(config@[i as int]));
            assert(order::key_models(keys@) =~= order::key_models(before).push(key@));
        }
        i += 1;
    }
    proof {
        assert(set_keys(config@).take(i as int) =~= set_keys(config@));
    }
    keys
}

/// The stored form of the configurations of a set of outputs.
fn store_outputs(infos: &Vec<OutputInfo>, outputs: &Vec<OutputConfig>) -> (r: Vec<OutputToml>)
    ensures
        entry_models(r@) == Seq::new(
            geometry::smaller(infos@.len() as int, outputs@.len() as int) as nat,
            |j: int| stored(comp::info_models(infos@)[j].first, comp::config_models(outputs@)[j]),
        ),
{
    let ghost want = Seq::new(
        geometry::smaller(infos@.len() as int, outputs@.len() as int) as nat,
        |j: int| stored(comp::info_models(infos@)[j].first, comp::config_models(outputs@)[j]),
    );
    let mut out: Vec<OutputToml> = Vec::new();
    let mut j: usize = 0;
    while j < infos.len() && j < outputs.len()
        invariant
            j <= infos@.len(),
            j <= outputs@.len(),
            want == Seq::new(
                geometry::smaller(infos@.len() as int, outputs@.len() as int) as nat,
                |j: int|
                    stored(comp::info_models(infos@)[j].first, comp::config_models(outputs@)[j]),
            ),
            entry_models(out@) =~= want.take(j as int),
        decreases infos@.len() - j,
    {
        let entry: OutputToml = output_to_toml(infos[j].connector.as_str(), &outputs[j]);
        let ghost before = out@;
        out.push(entry);
        proof {
            assert(entry_models(out@) =~= entry_models(before).push(entry@));
            assert(comp::info_models(infos@)[j as int] == infos@[j as int]@);
            assert(comp::config_models(outputs@)[j as int] == outputs@[j as int]@);
        }
        j += 1;
    }
    proof {
        assert(want.take(j as int) =~= want);
    }
    out
}

/// A copy of a list of outputs.
fn copy_infos(infos: &Vec<OutputInfo>) -> (r: Vec<OutputInfo>)
    ensures
        comp::info_models(r@) == comp::info_models(infos@),
{
    let mut out: Vec<OutputInfo> = Vec::new();
    let mut i: usize = 0;
    while i < infos.len()
        invariant
            i <= infos@.len(),
            out@ == infos@.take(i as int),
        decreases infos@.len() - i,
    {
        out.push(infos[i].clone());
        i += 1;
    }
    assert(infos@.take(i as int) =~= infos@);
    out
}

/// The stored form of all profiles, in the order of their first connectors.
pub fn to_displays(config: &OutputsConfig) -> (r: DisplaysToml)
    ensures
        profile_models(r.profiles@) == stored_config(config@),
{
    let keys: Vec<Key> = connector_keys(config);
    let order: Vec<usize> = order::order_by(&keys);
    let ghost model = config@;
    let ghost sorted = in_order(model);
    proof {
        order::lemma_order_of(set_keys(model), model.len() as int);
        assert(order::as_ints(order@).len() == order@.len());
        assert(keys@.len() == order::key_models(keys@).len());
    }
    let mut profiles: Vec<ProfileToml> = Vec::new();
    let mut i: usize = 0;
    while i < order.len()
        invariant
            i <= order@.len(),
            order@.len() == model.len(),
            model == config@,
            sorted == in_order(model),
            order::as_ints(order@) == order::order_of(
                set_keys(model),
                model.len() as int,
            ),
            forall|j: int|
                0 <= j < order@.len() ==> 0 <= #[trigger] order::as_ints(order@)[j] < model.len(),
            profile_models(profiles@) =~= stored_config(model).take(i as int),
        decreases order@.len() - i,
    {
        proof {
            assert(order::as_ints(order@)[i as int] == order@[i as int] as int);
            assert(sorted[i as int] == model[order@[i as int] as int]);
            assert(model[order@[i as int] as int] == config.profiles@[order@[i as int] as int]@);
        }
        let start: String = "profile-".to_owned();
        let p: &comp::OutputProfile = &config.profiles[order[i]];
        let profile = ProfileToml {
            name: start.concat(decimal_text(i as u128 + 1).as_str()),
            output_set: copy_infos(&p.infos),
            output: store_outputs(&p.infos, &p.outputs),
        };
        let ghost before = profiles@;
        profiles.push(profile);
        proof {
            assert(profile_models(profiles@) =~= profile_models(before).push(profile@));
            assert(profile@ =~= stored_profile(sorted[i as int], (i + 1) as nat));
        }
        i += 1;
    }
    proof {
        assert(stored_config(model).take(i as int) =~= stored_config(model));
    }
    DisplaysToml { profiles }
}

/// Whether a profile is one that can be stored and read again: its outputs are in their order,
/// each connector occurs once, each output has a configuration, and the mirrors are valid.
pub open spec fn storable(set: comp::SetModel) -> bool {
    &&& order::sorted(set.infos) == set.infos
    &&& forall|i: int, j: int|
        0 <= i < set.infos.len() && 0 <= j < set.infos.len() && i != j ==> (
        #[trigger] set.infos[i]).first != (#[trigger] set.infos[j]).first
    &&& set.outputs.len() == set.infos.len()
    &&& repaired(set.infos, set.outputs) == set.outputs
}

/// A profile that is stored and read again is the same.
pub proof fn stored_profile_is_read_back(set: comp::SetModel, number: nat)
    requires
        storable(set),
    ensures
        profile_set(stored_profile(set, number)) == Ok::<comp::SetModel, Seq<char>>(set),
{
    let p = stored_profile(set, number);
    let infos = set.infos;
    assert forall|i: int| 0 <= i < infos.len() implies #[trigger] last_named(
        p.output,
        infos[i].first,
    ) == Some(i) by {
        lemma_last_named(p.output, infos[i].first);
        assert(p.output[i].connector == infos[i].first);
        let k = last_named(p.output, infos[i].first)->0;
        assert(p.output[k].connector == infos[k].first);
    }
    lemma_nothing_missing(infos, p.output, 0);
    assert(collected(infos, p.output) =~= set.outputs) by {
        assert forall|i: int| 0 <= i < infos.len() implies collected(infos, p.output)[i]
            == set.outputs[i] by {
            assert(last_named(p.output, infos[i].first) == Some(i));
            stored_output_is_read_back(infos[i].first, set.outputs[i]);
        }
    }
}

/// Nothing is missing where each connector occurs once and has a configuration.
proof fn lemma_nothing_missing(
    set: Seq<order::KeyModel>,
    entries: Seq<EntryModel>,
    from: int,
)
    requires
        0 <= from <= set.len(),
        forall|i: int|
            0 <= i < set.len() ==> #[trigger] last_named(entries, set[i].first) is Some,
        forall|i: int, j: int|
            0 <= i < set.len() && 0 <= j < set.len() && i != j ==> (#[trigger] set[i]).first != (
            #[trigger] set[j]).first,
    ensures
        first_missing(set, entries, from) is None,
    decreases set.len() - from,
{
    if from < set.len() {
        assert(last_named(entries, set[from].first) is Some);
        lemma_nothing_missing(set, entries, from + 1);
    }
}

/// Whether all profiles can be stored and read again, and every set of outputs occurs once.
pub open spec fn all_storable(config: Seq<comp::SetModel>) -> bool {
    &&& forall|i: int| 0 <= i < config.len() ==> storable(#[trigger] config[i])
    &&& comp::distinct_sets(config)
}

/// Profiles that are stored and read again are the same, in the order of their first connectors.
pub proof fn stored_config_is_read_back(config: Seq<comp::SetModel>)
    requires
        all_storable(config),
    ensures
        config_in(stored_config(config)) == Ok::<Seq<comp::SetModel>, (Seq<char>, Seq<char>)>(
            in_order(config),
        ),
        in_order(config).len() == config.len(),
        forall|i: int| 0 <= i < config.len() ==> in_order(config).contains(#[trigger] config[i]),
        forall|i: int| 0 <= i < config.len() ==> config.contains(#[trigger] in_order(config)[i]),
{
    let keys = set_keys(config);
    let n = config.len() as int;
    order::lemma_order_of(keys, n);
    let perm = order::order_of(keys, n);
    let sorted = in_order(config);
    assert forall|i: int| 0 <= i < n implies config.contains(#[trigger] sorted[i]) by {
        assert(0 <= perm[i] < n);
        assert(sorted[i] == config[perm[i]]);
    }
    assert forall|i: int| 0 <= i < n implies sorted.contains(#[trigger] config[i]) by {
        assert(perm.contains(i));
        let k = choose|k: int| 0 <= k < perm.len() && perm[k] == i;
        assert(sorted[k] == config[i]);
    }
    assert(comp::distinct_sets(sorted)) by {
        assert forall|i: int, j: int|
            0 <= i < sorted.len() && 0 <= j < sorted.len() && i != j implies (
        #[trigger] sorted[i]).infos != (#[trigger] sorted[j]).infos by {
            assert(perm[i] != perm[j]);
            assert(0 <= perm[i] < n && 0 <= perm[j] < n);
            assert(config[perm[i]].infos != config[perm[j]].infos);
        }
    }
    assert forall|i: int| 0 <= i < sorted.len() implies storable(#[trigger] sorted[i]) by {
        assert(0 <= perm[i] < n);
    }
    lemma_read_prefix(config, n);
    assert(stored_config(config).take(n) =~= stored_config(config));
    assert(sorted.take(n) =~= sorted);
}

/// The first stored profiles are read one after the other.
proof fn lemma_read_prefix(config: Seq<comp::SetModel>, n: int)
    requires
        0 <= n <= config.len(),
        in_order(config).len() == config.len(),
        comp::distinct_sets(in_order(config)),
        forall|i: int|
            0 <= i < in_order(config).len() ==> storable(#[trigger] in_order(config)[i]),
    ensures
        config_in(stored_config(config).take(n)) == Ok::<
            Seq<comp::SetModel>,
            (Seq<char>, Seq<char>),
        >(in_order(config).take(n)),
    decreases n,
{
    let all = stored_config(config);
    let sorted = in_order(config);
    if n > 0 {
        lemma_read_prefix(config, n - 1);
        assert(all.take(n).drop_last() =~= all.take(n - 1));
        assert(all.take(n).last() == stored_profile(sorted[n - 1], n as nat));
        stored_profile_is_read_back(sorted[n - 1], n as nat);
        let before = sorted.take(n - 1);
        comp::lemma_set_position(before, sorted[n - 1].infos);
        if comp::set_position(before, sorted[n - 1].infos) is Some {
            let k = comp::set_position(before, sorted[n - 1].infos)->0;
            assert(before[k] == sorted[k]);
        }
        assert(before.push(sorted[n - 1]) =~= sorted.take(n));
    } else {
        assert(all.take(0) =~= seq![]);
        assert(sorted.take(0) =~= seq![]);
    }
}

/// The order in which a profile lists its outputs does not matter.
pub proof fn the_order_of_a_set_does_not_matter(a: ProfileModel, b: ProfileModel)
    requires
        a.output_set.to_multiset() == b.output_set.to_multiset(),
        a.output == b.output,
    ensures
        profile_set(a) == profile_set(b),
{
    order::sorting_forgets_the_order(a.output_set, b.output_set);
}

/// Whether no two stored configurations are for the same connector.
pub open spec fn distinct_connectors(entries: Seq<EntryModel>) -> bool {
    forall|i: int, j: int|
        0 <= i < entries.len() && 0 <= j < entries.len() && i != j ==> (
        #[trigger] entries[i]).connector != (#[trigger] entries[j]).connector
}

/// The order in which a profile lists its outputs and their configurations does not matter, where
/// there is one configuration for each connector.
pub proof fn the_order_of_a_profile_does_not_matter(a: ProfileModel, b: ProfileModel)
    requires
        a.output_set.to_multiset() == b.output_set.to_multiset(),
        forall|e: EntryModel| a.output.contains(e) <==> b.output.contains(e),
        distinct_connectors(a.output),
        distinct_connectors(b.output),
    ensures
        profile_set(a) == profile_set(b),
{
    order::sorting_forgets_the_order(a.output_set, b.output_set);
    let set = order::sorted(a.output_set);
    assert forall|c: Seq<char>|
        match (#[trigger] last_named(a.output, c), last_named(b.output, c)) {
            (Some(i), Some(j)) => a.output[i] == b.output[j],
            (None, None) => true,
            _ => false,
        } by {
        lemma_last_named(a.output, c);
        lemma_last_named(b.output, c);
        if let Some(i) = last_named(a.output, c) {
            assert(a.output.contains(a.output[i]));
            let k = choose|k: int| 0 <= k < b.output.len() && b.output[k] == a.output[i];
            assert(b.output[k].connector == c);
        }
        if let Some(j) = last_named(b.output, c) {
            assert(b.output.contains(b.output[j]));
            let k = choose|k: int| 0 <= k < a.output.len() && a.output[k] == b.output[j];
            assert(a.output[k].connector == c);
        }
    }
    lemma_same_missing(set, a.output, b.output, 0);
    if first_missing(set, a.output, 0) is None {
        lemma_all_named(set, a.output, 0);
        assert(collected(set, a.output) =~= collected(set, b.output)) by {
            assert forall|i: int| 0 <= i < set.len() implies collected(set, a.output)[i]
                == collected(set, b.output)[i] by {
                assert(!missing(set, a.output, i));
                assert(last_named(a.output, set[i].first) is Some);
            }
        }
    }
}

/// The same is missing where the same connectors have a configuration.
proof fn lemma_same_missing(
    set: Seq<order::KeyModel>,
    a: Seq<EntryModel>,
    b: Seq<EntryModel>,
    from: int,
)
    requires
        0 <= from,
        forall|c: Seq<char>|
            (#[trigger] last_named(a, c) is None) == (last_named(b, c) is None),
    ensures
        first_missing(set, a, from) == first_missing(set, b, from),
    decreases set.len() - from,
{
    if from < set.len() {
        assert((last_named(a, set[from].first) is None) == (last_named(b, set[from].first)
            is None));
        lemma_same_missing(set, a, b, from + 1);
    }
}

/// Where nothing is missing, every output has a configuration.
proof fn lemma_all_named(set: Seq<order::KeyModel>, entries: Seq<EntryModel>, from: int)
    requires
        0 <= from,
        first_missing(set, entries, from) is None,
    ensures
        forall|i: int| from <= i < set.len() ==> !#[trigger] missing(set, entries, i),
    decreases set.len() - from,
{
    if from < set.len() {
        lemma_all_named(set, entries, from + 1);
    }
}

/// A delimited text tells where it ends, and so what it is.
proof fn lemma_delimited(a: Seq<char>, b: Seq<char>, x: Seq<char>, y: Seq<char>)
    requires
        delimited(a) + x == delimited(b) + y,
    ensures
        a == b,
        x == y,
    decreases a.len(),
{
    let s = delimited(a) + x;
    let t = delimited(b) + y;
    if a.len() == 0 {
        assert(s[0] == '-');
        assert(t[0] == '-');
        assert(a =~= b);
        assert(s.skip(1) =~= x);
        assert(t.skip(1) =~= y);
    } else {
        assert(s[0] == '+' && s[1] == a[0]);
        assert(t[0] == '+');
        assert(b.len() > 0);
        assert(t[1] == b[0]);
        assert(s.skip(2) =~= delimited(a.skip(1)) + x);
        assert(t.skip(2) =~= delimited(b.skip(1)) + y);
        lemma_delimited(a.skip(1), b.skip(1), x, y);
        assert(a =~= seq![a[0]] + a.skip(1));
        assert(b =~= seq![b[0]] + b.skip(1));
    }
}

/// The texts of a set of outputs, from the first one on.
proof fn lemma_spelled_front(infos: Seq<order::KeyModel>)
    requires
        infos.len() > 0,
    ensures
        spelled(infos) == spelled_info(infos[0]) + spelled(infos.skip(1)),
    decreases infos.len(),
{
    let init = infos.drop_last();
    if infos.len() == 1 {
        assert(init =~= seq![]);
        assert(infos.skip(1) =~= seq![]);
        assert(spelled(infos) =~= spelled_info(infos[0]) + spelled(infos.skip(1)));
    } else {
        lemma_spelled_front(init);
        assert(init.skip(1) =~= infos.skip(1).drop_last());
        assert(infos.skip(1).last() == infos.last());
        assert(spelled(infos) =~= spelled_info(infos[0]) + spelled(infos.skip(1)));
    }
}

/// The texts of a set of outputs tell which it is.
proof fn lemma_spelled(a: Seq<order::KeyModel>, b: Seq<order::KeyModel>)
    requires
        spelled(a) == spelled(b),
    ensures
        a == b,
    decreases a.len(),
{
    if a.len() > 0 {
        lemma_spelled_front(a);
        assert(spelled_info(a[0]).len() > 0);
    }
    if b.len() > 0 {
        lemma_spelled_front(b);
        assert(spelled_info(b[0]).len() > 0);
    }
    if a.len() == 0 || b.len() == 0 {
        assert(spelled(seq![]).len() == 0);
        assert(a =~= b);
    } else {
        let x = spelled(a.skip(1));
        let y = spelled(b.skip(1));
        let a2 = delimited(a[0].second) + (delimited(a[0].third) + x);
        let b2 = delimited(b[0].second) + (delimited(b[0].third) + y);
        assert(spelled(a) =~= delimited(a[0].first) + a2);
        assert(spelled(b) =~= delimited(b[0].first) + b2);
        lemma_delimited(a[0].first, b[0].first, a2, b2);
        lemma_delimited(
            a[0].second,
            b[0].second,
            delimited(a[0].third) + x,
            delimited(b[0].third) + y,
        );
        lemma_delimited(a[0].third, b[0].third, x, y);
        lemma_spelled(a.skip(1), b.skip(1));
        assert(a =~= seq![a[0]] + a.skip(1));
        assert(b =~= seq![b[0]] + b.skip(1));
    }
}

/// What is stored depends on the configurations alone, and not on the order in which they came to
/// be there.
pub proof fn what_is_stored_depends_on_the_contents(
    a: Seq<comp::SetModel>,
    b: Seq<comp::SetModel>,
)
    requires
        comp::distinct_sets(a),
        comp::distinct_sets(b),
        forall|s: comp::SetModel| a.contains(s) <==> b.contains(s),
    ensures
        in_order(a) == in_order(b),
        stored_config(a) == stored_config(b),
{
    lemma_same_keys(a, b);
    lemma_same_keys(b, a);
    lemma_distinct_keys(a);
    lemma_distinct_keys(b);
    assert(set_keys(a).to_multiset() =~= set_keys(b).to_multiset()) by {
        set_keys(a).to_multiset_ensures();
        set_keys(b).to_multiset_ensures();
        set_keys(a).lemma_multiset_has_no_duplicates();
        set_keys(b).lemma_multiset_has_no_duplicates();
        assert forall|k: order::KeyModel|
            set_keys(a).to_multiset().count(k) == set_keys(b).to_multiset().count(k) by {
            assert(set_keys(a).contains(k) <==> set_keys(b).contains(k));
            assert(set_keys(a).contains(k) <==> set_keys(a).to_multiset().count(k) > 0);
            assert(set_keys(b).contains(k) <==> set_keys(b).to_multiset().count(k) > 0);
            if set_keys(a).contains(k) {
                assert(set_keys(a).to_multiset().contains(k));
                assert(set_keys(b).to_multiset().contains(k));
            }
        }
    }
    order::sorting_forgets_the_order(set_keys(a), set_keys(b));
    order::lemma_sorted(set_keys(a));
    order::lemma_sorted(set_keys(b));
    let m = a.len() as int;
    let n = b.len() as int;
    order::lemma_order_of(set_keys(a), m);
    order::lemma_order_of(set_keys(b), n);
    assert(set_keys(a).take(m) =~= set_keys(a));
    assert(set_keys(b).take(n) =~= set_keys(b));
    assert(m == n);
    let p = order::order_of(set_keys(a), m);
    let q = order::order_of(set_keys(b), n);
    assert forall|i: int| 0 <= i < m implies in_order(a)[i] == in_order(b)[i] by {
        assert(0 <= p[i] < m && 0 <= q[i] < n);
        assert(p.map_values(|i: int| set_keys(a)[i])[i] == set_key(a[p[i]]));
        assert(q.map_values(|i: int| set_keys(b)[i])[i] == set_key(b[q[i]]));
        lemma_spelled(a[p[i]].infos, b[q[i]].infos);
        assert(b.contains(b[q[i]]));
        let k = choose|k: int| 0 <= k < a.len() && a[k] == b[q[i]];
        assert(a[k].infos == a[p[i]].infos);
    }
    assert(in_order(a) =~= in_order(b));
    assert(stored_config(a) =~= stored_config(b));
}

/// The keys of profiles that are all among others are among the keys of those.
proof fn lemma_same_keys(a: Seq<comp::SetModel>, b: Seq<comp::SetModel>)
    requires
        forall|s: comp::SetModel| a.contains(s) ==> b.contains(s),
    ensures
        forall|k: order::KeyModel| set_keys(a).contains(k) ==> set_keys(b).contains(k),
{
    assert forall|k: order::KeyModel| set_keys(a).contains(k) implies set_keys(b).contains(k) by {
        let i = choose|i: int| 0 <= i < a.len() && set_keys(a)[i] == k;
        assert(a.contains(a[i]));
        let j = choose|j: int| 0 <= j < b.len() && b[j] == a[i];
        assert(set_keys(b)[j] == k);
    }
}

/// Different sets of outputs have different keys.
proof fn lemma_distinct_keys(config: Seq<comp::SetModel>)
    requires
        comp::distinct_sets(config),
    ensures
        set_keys(config).no_duplicates(),
{
    assert forall|i: int, j: int|
        0 <= i < config.len() && 0 <= j < config.len() && i != j implies set_keys(config)[i]
        != set_keys(config)[j] by {
        if set_keys(config)[i] == set_keys(config)[j] {
            lemma_spelled(config[i].infos, config[j].infos);
        }
    }
}

/// After a repair every mirror is valid: its target is another output of the set that is used on
/// its own.
pub proof fn repaired_mirrors_are_valid(
    set: Seq<order::KeyModel>,
    outputs: Seq<comp::OutputModel>,
    i: int,
)
    requires
        set.len() == outputs.len(),
        0 <= i < outputs.len(),
    ensures
        repaired(set, outputs)[i].enabled matches comp::StateModel::Mirroring(target)
            ==> valid_mirror(set, repaired(set, outputs), i, target),
{
    if let comp::StateModel::Mirroring(target) = repaired(set, outputs)[i].enabled {
        lemma_connector_position(set, target);
        let j = connector_position(set, target)->0;
        assert(outputs[j].enabled is Enabled);
        assert(repaired(set, outputs)[j].enabled is Enabled);
    }
}

/// The defining property of `connector_position`.
pub proof fn lemma_connector_position(set: Seq<order::KeyModel>, connector: Seq<char>)
    ensures
        connector_position(set, connector) matches Some(i) ==> 0 <= i < set.len() && set[i].first
            == connector,
    decreases set.len(),
{
    if set.len() > 0 && set[0].first != connector {
        lemma_connector_position(set.skip(1), connector);
    }
}

/// Repairing mirrors twice is repairing them once.
pub proof fn repairing_twice_is_repairing_once(
    set: Seq<order::KeyModel>,
    outputs: Seq<comp::OutputModel>,
)
    requires
        set.len() == outputs.len(),
    ensures
        repaired(set, repaired(set, outputs)) == repaired(set, outputs),
{
    let once = repaired(set, outputs);
    assert forall|i: int| 0 <= i < once.len() implies repaired(set, once)[i] == once[i] by {
        repaired_mirrors_are_valid(set, outputs, i);
    }
    assert(repaired(set, once) =~= once);
}

/// What remains to be done with the file that displays were stored in before, when the new file
/// may or may not exist.
#[derive(Clone, Copy, Debug, PartialEq, Eq, Structural)]
pub enum Migration {
    /// Nothing: there is no old file, or the new one counts already.
    Nothing,
    /// Read the old file and write the new one.
    Convert,
}

/// What remains to be done: the old file is converted only where it exists and the new one does
/// not.
pub open spec fn step_for(old_exists: bool, new_exists: bool) -> Migration {
    if old_exists && !new_exists {
        Migration::Convert
    } else {
        Migration::Nothing
    }
}

/// Whether the old file is to be removed: only after a conversion that wrote the new one.
pub open spec fn outdated(step: Migration, written: bool) -> bool {
    step == Migration::Convert && written
}

/// Whether the old file has to be converted: only where it exists and the new one does not.
pub fn migration(old_exists: bool, new_exists: bool) -> (r: Migration)
    ensures
        r == step_for(old_exists, new_exists),
{
    if old_exists && !new_exists {
        Migration::Convert
    } else {
        Migration::Nothing
    }
}

/// Whether the old file is removed after a conversion: only where the new one has been written.
pub fn removes_old_file(step: Migration, written: bool) -> (r: bool)
    ensures
        r == outdated(step, written),
{
    step == Migration::Convert && written
}

/// What the two files hold: the old one configurations, the new one stored profiles.
#[verifier::ext_equal]
pub struct FilesModel {
    pub old: Option<Seq<comp::SetModel>>,
    pub new: Option<Seq<ProfileModel>>,
}

/// The two files after a migration, by whether the new one could be written, as a whole or not at
/// all, and whether the old one could be removed where it was to be.
pub open spec fn migrated(files: FilesModel, written: bool, removed: bool) -> FilesModel {
    let step = step_for(files.old is Some, files.new is Some);
    FilesModel {
        old: if outdated(step, written) && removed {
            None
        } else {
            files.old
        },
        new: match (files.old, step) {
            (Some(config), Migration::Convert) if written => Some(stored_config(config)),
            _ => files.new,
        },
    }
}

/// A migration loses nothing. Without an old file, or with a new one, it changes nothing; nor
/// does it where the new file cannot be written, so that the next one starts from the same files.
/// Else the new file holds what the old one held, and only then does the old one go.
pub proof fn a_migration_loses_nothing(files: FilesModel, written: bool, removed: bool)
    ensures
        files.old is None || files.new is Some ==> migrated(files, written, removed) == files,
        !written ==> migrated(files, written, removed) == files,
        files.old matches Some(config) ==> files.new is None && written ==> migrated(
            files,
            written,
            removed,
        ) == (FilesModel {
            old: if removed {
                None
            } else {
                files.old
            },
            new: Some(stored_config(config)),
        }),
        files.old matches Some(config) ==> migrated(files, written, removed).old is None ==> written
            && migrated(files, written, removed).new == Some(stored_config(config)),
{
}

/// Once the new file exists, a migration changes nothing any more, whatever became of the old
/// one.
pub proof fn migrating_twice_is_migrating_once(
    files: FilesModel,
    written: bool,
    removed: bool,
    written_again: bool,
    removed_again: bool,
)
    requires
        migrated(files, written, removed).new is Some,
    ensures
        migrated(migrated(files, written, removed), written_again, removed_again) == migrated(
            files,
            written,
            removed,
        ),
{
}

/// Configurations that can be stored are read back from the new file after a migration that wrote
/// it, in the order of their first connectors.
pub proof fn migrated_configurations_are_read_back(
    config: Seq<comp::SetModel>,
    removed: bool,
)
    requires
        all_storable(config),
    ensures
        migrated(FilesModel { old: Some(config), new: None }, true, removed).new matches Some(
            profiles,
        ) && config_in(profiles) == Ok::<Seq<comp::SetModel>, (Seq<char>, Seq<char>)>(
            in_order(config),
        ),
{
    stored_config_is_read_back(config);
}

} // verus!
