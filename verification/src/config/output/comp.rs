//! The configuration of an output.

use crate::geometry::Size;
use crate::number::Float64;
use crate::order;
use crate::order::Key;
use crate::text::str_eq;
use vstd::prelude::*;

verus! {

/// What identifies an output.
#[derive(Debug, PartialEq, Eq)]
pub struct OutputInfo {
    /// The connector, such as `DP-1`.
    pub connector: String,
    pub make: String,
    pub model: String,
}

impl View for OutputInfo {
    type V = order::KeyModel;

    /// Outputs are ordered by connector, make and model.
    open spec fn view(&self) -> order::KeyModel {
        order::KeyModel { first: self.connector@, second: self.make@, third: self.model@ }
    }
}

impl Clone for OutputInfo {
    fn clone(&self) -> (r: OutputInfo)
        ensures
            r == *self,
    {
        OutputInfo {
            connector: self.connector.clone(),
            make: self.make.clone(),
            model: self.model.clone(),
        }
    }
}

impl OutputInfo {
    /// Whether two outputs are the same.
    pub fn equals(&self, other: &OutputInfo) -> (r: bool)
        ensures
            r == (self@ == other@),
    {
        str_eq(self.connector.as_str(), other.connector.as_str()) && str_eq(
            self.make.as_str(),
            other.make.as_str(),
        ) && str_eq(self.model.as_str(), other.model.as_str())
    }
}

/// The models of a list of outputs.
pub open spec fn info_models(infos: Seq<OutputInfo>) -> Seq<order::KeyModel> {
    infos.map_values(|i: OutputInfo| i@)
}

/// How an image is turned and mirrored, as the configuration names it.
#[derive(Clone, Copy, Debug, PartialEq, Eq, Structural)]
pub enum TransformDef {
    Normal,
    _90,
    _180,
    _270,
    Flipped,
    Flipped90,
    Flipped180,
    Flipped270,
}

/// How an image is turned and mirrored, as the renderer names it.
#[derive(Clone, Copy, Debug, PartialEq, Eq, Structural)]
pub enum Transform {
    Normal,
    _90,
    _180,
    _270,
    Flipped,
    Flipped90,
    Flipped180,
    Flipped270,
}

/// Whether the refresh rate follows the content.
#[derive(Clone, Copy, Debug, PartialEq, Eq, Structural)]
pub enum AdaptiveSync {
    Enabled,
    Disabled,
    Force,
}

/// Whether an output is used.
#[derive(Debug, PartialEq, Eq)]
pub enum OutputState {
    Enabled,
    Disabled,
    /// The output shows what another shows, given by its connector.
    Mirroring(String),
}

/// The model of whether an output is used.
#[verifier::ext_equal]
pub enum StateModel {
    Enabled,
    Disabled,
    Mirroring(Seq<char>),
}

impl View for OutputState {
    type V = StateModel;

    open spec fn view(&self) -> StateModel {
        match self {
            OutputState::Enabled => StateModel::Enabled,
            OutputState::Disabled => StateModel::Disabled,
            OutputState::Mirroring(c) => StateModel::Mirroring(c@),
        }
    }
}

impl Clone for OutputState {
    fn clone(&self) -> (r: OutputState)
        ensures
            r == *self,
    {
        match self {
            OutputState::Enabled => OutputState::Enabled,
            OutputState::Disabled => OutputState::Disabled,
            OutputState::Mirroring(c) => OutputState::Mirroring(c.clone()),
        }
    }
}

impl OutputState {
    /// Whether the output is used on its own.
    pub fn is_enabled(&self) -> (r: bool)
        ensures
            r == (self@ is Enabled),
    {
        match self {
            OutputState::Enabled => true,
            _ => false,
        }
    }

    /// Whether the output is not used.
    pub fn is_disabled(&self) -> (r: bool)
        ensures
            r == (self@ is Disabled),
    {
        match self {
            OutputState::Disabled => true,
            _ => false,
        }
    }
}

/// A mode of an output: its size in pixels and its refresh rate in thousandths of a hertz.
#[derive(Clone, Copy, Debug, PartialEq, Eq, Structural)]
pub struct OutputMode {
    pub width: i32,
    pub height: i32,
    pub refresh: Option<u32>,
}

/// The position of an output.
#[derive(Clone, Copy, Debug, PartialEq, Eq, Structural)]
pub struct OutputPosition {
    pub x: u32,
    pub y: u32,
}

/// The configuration of an output.
#[derive(Debug, PartialEq, Eq)]
pub struct OutputConfig {
    pub mode: OutputMode,
    pub vrr: AdaptiveSync,
    pub scale: Float64,
    pub transform: TransformDef,
    pub position: OutputPosition,
    pub enabled: OutputState,
    pub max_bpc: Option<u32>,
    pub xwayland_primary: bool,
}

/// The model of the configuration of an output.
#[verifier::ext_equal]
pub struct OutputModel {
    pub mode: OutputMode,
    pub vrr: AdaptiveSync,
    pub scale: Float64,
    pub transform: TransformDef,
    pub position: OutputPosition,
    pub enabled: StateModel,
    pub max_bpc: Option<u32>,
    pub xwayland_primary: bool,
}

impl View for OutputConfig {
    type V = OutputModel;

    open spec fn view(&self) -> OutputModel {
        OutputModel {
            mode: self.mode,
            vrr: self.vrr,
            scale: self.scale,
            transform: self.transform,
            position: self.position,
            enabled: self.enabled@,
            max_bpc: self.max_bpc,
            xwayland_primary: self.xwayland_primary,
        }
    }
}

impl Clone for OutputConfig {
    fn clone(&self) -> (r: OutputConfig)
        ensures
            r == *self,
    {
        OutputConfig {
            mode: self.mode,
            vrr: self.vrr,
            scale: self.scale,
            transform: self.transform,
            position: self.position,
            enabled: self.enabled.clone(),
            max_bpc: self.max_bpc,
            xwayland_primary: self.xwayland_primary,
        }
    }
}

/// The models of a list of configurations.
pub open spec fn config_models(configs: Seq<OutputConfig>) -> Seq<OutputModel> {
    configs.map_values(|c: OutputConfig| c@)
}

/// The refresh rate of a mode that gives none, in thousandths of a hertz.
pub const DEFAULT_REFRESH: u32 = 60_000;

/// The configuration of an output as the renderer reads it.
pub struct CompOutputConfig<'a>(pub &'a OutputConfig);

/// A size as it appears on a turned output.
pub open spec fn turned(size: Size, transform: TransformDef) -> Size {
    match transform {
        TransformDef::_90
        | TransformDef::_270
        | TransformDef::Flipped90
        | TransformDef::Flipped270 => Size { w: size.h, h: size.w },
        _ => size,
    }
}

impl CompOutputConfig<'_> {
    /// The size of the mode.
    pub fn mode_size(&self) -> (r: Size)
        ensures
            r == (Size { w: self.0.mode.width, h: self.0.mode.height }),
    {
        Size { w: self.0.mode.width, h: self.0.mode.height }
    }

    /// The refresh rate of the mode.
    pub fn mode_refresh(&self) -> (r: u32)
        ensures
            r == match self.0.mode.refresh {
                Some(refresh) => refresh,
                None => DEFAULT_REFRESH,
            },
    {
        match self.0.mode.refresh {
            Some(refresh) => refresh,
            None => DEFAULT_REFRESH,
        }
    }

    /// The size of the mode as it appears on the turned output.
    pub fn transformed_size(&self) -> (r: Size)
        ensures
            r == turned(
                Size { w: self.0.mode.width, h: self.0.mode.height },
                self.0.transform,
            ),
    {
        let size: Size = self.mode_size();
        match self.0.transform {
            TransformDef::_90
            | TransformDef::_270
            | TransformDef::Flipped90
            | TransformDef::Flipped270 => Size { w: size.h, h: size.w },
            _ => size,
        }
    }

    /// The mode: its size and its refresh rate.
    pub fn output_mode(&self) -> (r: (Size, i32))
        ensures
            r.0 == (Size { w: self.0.mode.width, h: self.0.mode.height }),
            r.1 == (match self.0.mode.refresh {
                Some(refresh) => refresh,
                None => DEFAULT_REFRESH,
            }) as i32,
    {
        (self.mode_size(), self.mode_refresh() as i32)
    }

    /// How the image is turned and mirrored.
    pub fn transform(&self) -> (r: Transform)
        ensures
            r == renderer_name(self.0.transform),
    {
        CompTransformDef(self.0.transform).to_transform()
    }
}

/// How an image is turned and mirrored, between the two ways to name it.
#[derive(Clone, Copy, Debug, PartialEq, Eq, Structural)]
pub struct CompTransformDef(pub TransformDef);

/// The name of the renderer for a transform of the configuration.
pub open spec fn renderer_name(t: TransformDef) -> Transform {
    match t {
        TransformDef::Normal => Transform::Normal,
        TransformDef::_90 => Transform::_90,
        TransformDef::_180 => Transform::_180,
        TransformDef::_270 => Transform::_270,
        TransformDef::Flipped => Transform::Flipped,
        TransformDef::Flipped90 => Transform::Flipped90,
        TransformDef::Flipped180 => Transform::Flipped180,
        TransformDef::Flipped270 => Transform::Flipped270,
    }
}

impl CompTransformDef {
    /// The transform that the renderer names `transform`.
    pub fn from_transform(transform: Transform) -> (r: CompTransformDef)
        ensures
            renderer_name(r.0) == transform,
    {
        match transform {
            Transform::Normal => CompTransformDef(TransformDef::Normal),
            Transform::_90 => CompTransformDef(TransformDef::_90),
            Transform::_180 => CompTransformDef(TransformDef::_180),
            Transform::_270 => CompTransformDef(TransformDef::_270),
            Transform::Flipped => CompTransformDef(TransformDef::Flipped),
            Transform::Flipped90 => CompTransformDef(TransformDef::Flipped90),
            Transform::Flipped180 => CompTransformDef(TransformDef::Flipped180),
            Transform::Flipped270 => CompTransformDef(TransformDef::Flipped270),
        }
    }

    /// The name of the renderer for this transform.
    pub fn to_transform(&self) -> (r: Transform)
        ensures
            r == renderer_name(self.0),
    {
        match self.0 {
            TransformDef::Normal => Transform::Normal,
            TransformDef::_90 => Transform::_90,
            TransformDef::_180 => Transform::_180,
            TransformDef::_270 => Transform::_270,
            TransformDef::Flipped => Transform::Flipped,
            TransformDef::Flipped90 => Transform::Flipped90,
            TransformDef::Flipped180 => Transform::Flipped180,
            TransformDef::Flipped270 => Transform::Flipped270,
        }
    }
}

/// Every transform of the configuration has a name of its own with the renderer.
pub proof fn transform_names_are_distinct(a: TransformDef, b: TransformDef)
    ensures
        renderer_name(a) == renderer_name(b) ==> a == b,
{
}

/// Turning a size twice by the same quarter restores it.
pub proof fn turning_twice_restores_a_size(size: Size, transform: TransformDef)
    ensures
        turned(turned(size, transform), transform) == size,
{
}

/// A stored set of outputs with their configurations.
#[derive(Debug, PartialEq, Eq)]
pub struct OutputProfile {
    /// The outputs in their order.
    pub infos: Vec<OutputInfo>,
    /// Their configurations, in the same order.
    pub outputs: Vec<OutputConfig>,
}

/// The configurations of all sets of outputs that have been seen, one for each set.
#[derive(Debug, PartialEq, Eq)]
pub struct OutputsConfig {
    pub profiles: Vec<OutputProfile>,
}

/// The model of a profile.
#[verifier::ext_equal]
pub struct SetModel {
    pub infos: Seq<order::KeyModel>,
    pub outputs: Seq<OutputModel>,
}

impl View for OutputProfile {
    type V = SetModel;

    open spec fn view(&self) -> SetModel {
        SetModel { infos: info_models(self.infos@), outputs: config_models(self.outputs@) }
    }
}

impl View for OutputsConfig {
    type V = Seq<SetModel>;

    open spec fn view(&self) -> Seq<SetModel> {
        set_models(self.profiles@)
    }
}

/// The models of a list of profiles.
pub open spec fn set_models(profiles: Seq<OutputProfile>) -> Seq<SetModel> {
    profiles.map_values(|p: OutputProfile| p@)
}

/// The first position of the given set of outputs.
pub open spec fn set_position(config: Seq<SetModel>, infos: Seq<order::KeyModel>) -> Option<int>
    decreases config.len(),
{
    if config.len() == 0 {
        None
    } else if config[0].infos == infos {
        Some(0)
    } else {
        match set_position(config.skip(1), infos) {
            Some(i) => Some(i + 1),
            None => None,
        }
    }
}

/// The defining property of `set_position`.
pub proof fn lemma_set_position(config: Seq<SetModel>, infos: Seq<order::KeyModel>)
    ensures
        match set_position(config, infos) {
            Some(i) => 0 <= i < config.len() && config[i].infos == infos,
            None => forall|i: int| 0 <= i < config.len() ==> (#[trigger] config[i]).infos != infos,
        },
    decreases config.len(),
{
    if config.len() > 0 && config[0].infos != infos {
        lemma_set_position(config.skip(1), infos);
        if set_position(config.skip(1), infos) is None {
            assert forall|i: int| 0 <= i < config.len() implies (#[trigger] config[i]).infos
                != infos by {
                if i > 0 {
                    assert(config.skip(1)[i - 1] == config[i]);
                }
            }
        }
    }
}

/// The configurations with those of a set of outputs, in place of earlier ones.
pub open spec fn with_set(config: Seq<SetModel>, set: SetModel) -> Seq<SetModel> {
    match set_position(config, set.infos) {
        Some(i) => config.update(i, set),
        None => config.push(set),
    }
}

/// Whether two lists of outputs are the same.
fn infos_equal(a: &Vec<OutputInfo>, b: &Vec<OutputInfo>) -> (r: bool)
    ensures
        r == (info_models(a@) == info_models(b@)),
{
    if a.len() != b.len() {
        assert(info_models(a@).len() != info_models(b@).len());
        return false;
    }
    let mut i: usize = 0;
    while i < a.len()
        invariant
            i <= a@.len(),
            a@.len() == b@.len(),
            forall|j: int| 0 <= j < i ==> (#[trigger] a@[j])@ == b@[j]@,
        decreases a@.len() - i,
    {
        if !a[i].equals(&b[i]) {
            assert(info_models(a@)[i as int] != info_models(b@)[i as int]);
            return false;
        }
        i += 1;
    }
    assert(info_models(a@) =~= info_models(b@));
    true
}

impl OutputsConfig {
    /// The position of a set of outputs.
    fn position(&self, infos: &Vec<OutputInfo>) -> (r: Option<usize>)
        ensures
            match r {
                Some(i) => set_position(self@, info_models(infos@)) == Some(i as int) && i
                    < self@.len(),
                None => set_position(self@, info_models(infos@)) is None,
            },
    {
        let ghost key = info_models(infos@);
        let mut i: usize = 0;
        proof {
            assert(self@.skip(0) =~= self@);
        }
        while i < self.profiles.len()
            invariant
                i <= self.profiles@.len(),
                key == info_models(infos@),
                match set_position(self@.skip(i as int), key) {
                    Some(j) => set_position(self@, key) == Some(i + j),
                    None => set_position(self@, key) is None,
                },
            decreases self.profiles@.len() - i,
        {
            proof {
                assert(self@.skip(i as int)[0] == self.profiles@[i as int]@);
                assert(self@.skip(i as int).skip(1) =~= self@.skip(i + 1));
            }
            if infos_equal(&self.profiles[i].infos, infos) {
                return Some(i);
            }
            i += 1;
        }
        None
    }

    /// The configurations of a set of outputs.
    pub fn get(&self, infos: &Vec<OutputInfo>) -> (r: Option<&Vec<OutputConfig>>)
        ensures
            match (r, set_position(self@, info_models(infos@))) {
                (Some(outputs), Some(i)) => config_models(outputs@) == self@[i].outputs,
                (None, None) => true,
                _ => false,
            },
    {
        match self.position(infos) {
            Some(i) => {
                assert(self@[i as int] == self.profiles@[i as int]@);
                Some(&self.profiles[i].outputs)
            },
            None => None,
        }
    }

    /// Stores the configurations of a set of outputs, in place of earlier ones.
    pub fn insert(&mut self, infos: Vec<OutputInfo>, outputs: Vec<OutputConfig>)
        ensures
            final(self)@ == with_set(
                old(self)@,
                SetModel { infos: info_models(infos@), outputs: config_models(outputs@) },
            ),
    {
        let position: Option<usize> = self.position(&infos);
        let ghost before = self@;
        let profile = OutputProfile { infos, outputs };
        match position {
            Some(i) => {
                self.profiles.set(i, profile);
                assert(self@ =~= before.update(i as int, profile@));
            },
            None => {
                self.profiles.push(profile);
                assert(self@ =~= before.push(profile@));
            },
        }
    }
}

/// Whether every set of outputs is stored once.
pub open spec fn distinct_sets(config: Seq<SetModel>) -> bool {
    forall|i: int, j: int|
        0 <= i < config.len() && 0 <= j < config.len() && i != j ==> (#[trigger] config[i]).infos
            != (#[trigger] config[j]).infos
}

/// What is stored for a set of outputs is found, nothing else changes, and every set stays
/// stored once.
pub proof fn stored_set_is_found(
    config: Seq<SetModel>,
    set: SetModel,
    other: Seq<order::KeyModel>,
)
    requires
        distinct_sets(config),
        other != set.infos,
    ensures
        ({
            let after = with_set(config, set);
            &&& set_position(after, set.infos) is Some
            &&& after[set_position(after, set.infos)->0] == set
            &&& set_position(after, other) == set_position(config, other)
            &&& set_position(config, other) matches Some(i) ==> after[i] == config[i]
            &&& distinct_sets(after)
        }),
{
    let after = with_set(config, set);
    lemma_set_position(config, set.infos);
    lemma_set_position(config, other);
    lemma_set_position(after, set.infos);
    lemma_set_position(after, other);
    let k = match set_position(config, set.infos) {
        Some(i) => i,
        None => config.len() as int,
    };
    assert(after[k] == set);
    let f = set_position(after, set.infos)->0;
    if f != k {
        assert(after[f] == config[f]);
    }
    if set_position(config, other) is Some {
        let i = set_position(config, other)->0;
        assert(after[i] == config[i]);
        let g = set_position(after, other)->0;
        assert(after[g] == config[g]);
    }
    if set_position(after, other) is Some {
        let g = set_position(after, other)->0;
        assert(after[g] == config[g]);
    }
}

/// Sorts outputs by connector, make and model.
pub fn sort_infos(infos: &Vec<OutputInfo>) -> (r: Vec<OutputInfo>)
    ensures
        info_models(r@) == order::sorted(info_models(infos@)),
{
    let keys: Vec<Key> = info_keys(infos);
    let order: Vec<usize> = order::order_by(&keys);
    let ghost models = info_models(infos@);
    proof {
        assert(order::key_models(keys@) =~= models);
        order::lemma_order_of(models, models.len() as int);
        assert(models.take(models.len() as int) =~= models);
        assert(order::as_ints(order@).len() == order@.len());
    }
    let mut out: Vec<OutputInfo> = Vec::new();
    let mut i: usize = 0;
    while i < order.len()
        invariant
            i <= order@.len(),
            order@.len() == infos@.len(),
            models == info_models(infos@),
            forall|j: int|
                0 <= j < order@.len() ==> 0 <= #[trigger] order::as_ints(order@)[j] < models.len(),
            info_models(out@) =~= order::as_ints(order@).take(i as int).map_values(
                |k: int| models[k],
            ),
        decreases order@.len() - i,
    {
        proof {
            assert(order::as_ints(order@)[i as int] == order@[i as int] as int);
        }
        let info: OutputInfo = infos[order[i]].clone();
        let ghost before = out@;
        out.push(info);
        proof {
            assert(info_models(out@) =~= info_models(before).push(info@));
            assert(models[order@[i as int] as int] == info@);
        }
        i += 1;
    }
    proof {
        assert(order::as_ints(order@).take(i as int) =~= order::as_ints(order@));
    }
    out
}

/// The keys by which outputs are sorted.
pub fn info_keys(infos: &Vec<OutputInfo>) -> (r: Vec<Key>)
    ensures
        order::key_models(r@) == info_models(infos@),
{
    let mut keys: Vec<Key> = Vec::new();
    let mut i: usize = 0;
    while i < infos.len()
        invariant
            i <= infos@.len(),
            order::key_models(keys@) =~= info_models(infos@).take(i as int),
        decreases infos@.len() - i,
    {
        let key = Key {
            first: infos[i].connector.clone(),
            second: infos[i].make.clone(),
            third: infos[i].model.clone(),
        };
        let ghost before = keys@;
        keys.push(key);
        proof {
            assert(order::key_models(keys@) =~= order::key_models(before).push(key@));
            assert(info_models(infos@)[i as int] == infos@[i as int]@);
        }
        i += 1;
    }
    proof {
        assert(info_models(infos@).take(i as int) =~= info_models(infos@));
    }
    keys
}

} // verus!
