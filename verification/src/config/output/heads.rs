//! How stored configurations are applied to the outputs that are present, and stored again.

use crate::config::output::comp;
use crate::config::output::comp::{
    sort_infos, OutputConfig, OutputInfo, OutputPosition, OutputState, OutputsConfig,
};
use crate::geometry;
use crate::order;
use crate::order::Key;
use crate::text::str_eq;
use vstd::prelude::*;

verus! {

/// An output that is present.
#[derive(Debug, PartialEq, Eq)]
pub struct Head {
    pub info: OutputInfo,
    pub config: OutputConfig,
    /// Whether the output shows what another shows.
    pub mirroring: bool,
    /// The width of the output in the layout.
    pub width: i32,
}

/// The model of an output that is present.
#[verifier::ext_equal]
pub struct HeadModel {
    pub info: order::KeyModel,
    pub config: comp::OutputModel,
    pub mirroring: bool,
    pub width: i32,
}

impl View for Head {
    type V = HeadModel;

    open spec fn view(&self) -> HeadModel {
        HeadModel {
            info: self.info@,
            config: self.config@,
            mirroring: self.mirroring,
            width: self.width,
        }
    }
}

/// The models of the outputs that are present.
pub open spec fn head_models(heads: Seq<Head>) -> Seq<HeadModel> {
    heads.map_values(|h: Head| h@)
}

/// What identifies the outputs that are present.
pub open spec fn head_infos(heads: Seq<HeadModel>) -> Seq<order::KeyModel> {
    heads.map_values(|h: HeadModel| h.info)
}

/// Where the configurations of the outputs come from.
#[derive(Debug, PartialEq, Eq)]
pub enum OutputPlan {
    /// They were stored; `assigned` are the outputs that got one, in the order of the set.
    Stored { assigned: Vec<usize> },
    /// They were generated.
    Generated,
}

/// What follows an attempt to apply the configurations of the outputs.
#[derive(Clone, Copy, Debug, PartialEq, Eq, Structural)]
pub enum AfterApply {
    /// Enable and disable the outputs, and store their configurations.
    Finish,
    /// Restore the configurations from before and apply those.
    RollBack,
    /// Give up.
    Fail,
}

/// What follows an attempt to apply the configurations: stored ones that fail are rolled back
/// once; generated ones, or a rollback, that fail are given up.
pub fn after_apply(stored: bool, rolled_back: bool, applied: bool) -> (r: AfterApply)
    ensures
        r == if applied {
            AfterApply::Finish
        } else if stored && !rolled_back {
            AfterApply::RollBack
        } else {
            AfterApply::Fail
        },
{
    if applied {
        AfterApply::Finish
    } else if stored && !rolled_back {
        AfterApply::RollBack
    } else {
        AfterApply::Fail
    }
}

/// Whether all outputs of a profile are disabled.
pub open spec fn all_disabled(outputs: Seq<comp::OutputModel>) -> bool {
    forall|i: int| 0 <= i < outputs.len() ==> (#[trigger] outputs[i]).enabled is Disabled
}

/// The configurations stored for a set of outputs, unless they disable all of them.
pub open spec fn usable(
    stored: Seq<comp::SetModel>,
    set: Seq<order::KeyModel>,
) -> Option<Seq<comp::OutputModel>> {
    match comp::set_position(stored, set) {
        Some(i) if !all_disabled(stored[i].outputs) => Some(stored[i].outputs),
        _ => None,
    }
}

/// The configurations stored for a set of outputs, unless they disable all of them.
pub fn usable_config<'a>(stored: &'a OutputsConfig, set: &Vec<OutputInfo>) -> (r: Option<
    &'a Vec<OutputConfig>,
>)
    ensures
        match r {
            Some(outputs) => usable(stored@, comp::info_models(set@)) == Some(
                comp::config_models(outputs@),
            ),
            None => usable(stored@, comp::info_models(set@)) is None,
        },
{
    match stored.get(set) {
        Some(outputs) => {
            let mut i: usize = 0;
            while i < outputs.len()
                invariant
                    i <= outputs@.len(),
                    match comp::set_position(stored@, comp::info_models(set@)) {
                        Some(k) => comp::config_models(outputs@) == stored@[k].outputs,
                        None => false,
                    },
                    forall|j: int|
                        0 <= j < i ==> (#[trigger] outputs@[j])@.enabled is Disabled,
                decreases outputs@.len() - i,
            {
                if !outputs[i].enabled.is_disabled() {
                    proof {
                        assert(comp::config_models(outputs@)[i as int] == outputs@[i as int]@);
                        assert(!(comp::config_models(outputs@)[i as int].enabled is Disabled));
                    }
                    return Some(outputs);
                }
                i += 1;
            }
            proof {
                assert forall|j: int| 0 <= j < outputs@.len() implies (
                #[trigger] comp::config_models(outputs@)[j]).enabled is Disabled by {
                    assert(comp::config_models(outputs@)[j] == outputs@[j]@);
                }
            }
            None
        },
        None => None,
    }
}

/// The first output that is present with the given connector.
pub open spec fn head_position(heads: Seq<HeadModel>, connector: Seq<char>) -> Option<int>
    decreases heads.len(),
{
    if heads.len() == 0 {
        None
    } else if heads[0].info.first == connector {
        Some(0)
    } else {
        match head_position(heads.skip(1), connector) {
            Some(i) => Some(i + 1),
            None => None,
        }
    }
}

/// The defining property of `head_position`.
pub proof fn lemma_head_position(heads: Seq<HeadModel>, connector: Seq<char>)
    ensures
        match head_position(heads, connector) {
            Some(i) => 0 <= i < heads.len() && heads[i].info.first == connector,
            None => forall|i: int|
                0 <= i < heads.len() ==> (#[trigger] heads[i]).info.first != connector,
        },
    decreases heads.len(),
{
    if heads.len() > 0 && heads[0].info.first != connector {
        lemma_head_position(heads.skip(1), connector);
        if head_position(heads.skip(1), connector) is None {
            assert forall|i: int| 0 <= i < heads.len() implies (#[trigger] heads[i]).info.first
                != connector by {
                if i > 0 {
                    assert(heads.skip(1)[i - 1] == heads[i]);
                }
            }
        }
    }
}

/// The first output that is present with the given connector.
fn find_head(heads: &Vec<Head>, connector: &str) -> (r: Option<usize>)
    ensures
        match r {
            Some(i) => head_position(head_models(heads@), connector@) == Some(i as int) && i
                < heads@.len(),
            None => head_position(head_models(heads@), connector@) is None,
        },
{
    let ghost models = head_models(heads@);
    let mut i: usize = 0;
    proof {
        assert(models.skip(0) =~= models);
    }
    while i < heads.len()
        invariant
            i <= heads@.len(),
            models == head_models(heads@),
            match head_position(models.skip(i as int), connector@) {
                Some(j) => head_position(models, connector@) == Some(i + j),
                None => head_position(models, connector@) is None,
            },
        decreases heads@.len() - i,
    {
        proof {
            assert(models.skip(i as int)[0] == heads@[i as int]@);
            assert(models.skip(i as int).skip(1) =~= models.skip(i + 1));
        }
        if str_eq(heads[i].info.connector.as_str(), connector) {
            return Some(i);
        }
        i += 1;
    }
    None
}

/// The outputs after the first `n` of a set have got the configurations stored for them.
pub open spec fn assigned(
    heads: Seq<HeadModel>,
    set: Seq<order::KeyModel>,
    configs: Seq<comp::OutputModel>,
    n: int,
) -> Seq<HeadModel>
    decreases n,
{
    if n <= 0 {
        heads
    } else {
        let before = assigned(heads, set, configs, n - 1);
        match head_position(before, set[n - 1].first) {
            Some(k) => before.update(k, HeadModel { config: configs[n - 1], ..before[k] }),
            None => before,
        }
    }
}

/// Getting configurations changes nothing else of the outputs.
proof fn lemma_assigned(
    heads: Seq<HeadModel>,
    set: Seq<order::KeyModel>,
    configs: Seq<comp::OutputModel>,
    n: int,
)
    ensures
        assigned(heads, set, configs, n).len() == heads.len(),
        forall|i: int|
            0 <= i < heads.len() ==> (#[trigger] assigned(heads, set, configs, n)[i]).info
                == heads[i].info,
    decreases n,
{
    if n > 0 {
        lemma_assigned(heads, set, configs, n - 1);
        lemma_head_position(assigned(heads, set, configs, n - 1), set[n - 1].first);
    }
}

/// What identifies the outputs that are present.
fn infos_of(heads: &Vec<Head>) -> (r: Vec<OutputInfo>)
    ensures
        comp::info_models(r@) == head_infos(head_models(heads@)),
        r@.len() == heads@.len(),
        forall|i: int| 0 <= i < r@.len() ==> (#[trigger] r@[i])@ == heads@[i].info@,
{
    let mut out: Vec<OutputInfo> = Vec::new();
    let mut i: usize = 0;
    while i < heads.len()
        invariant
            i <= heads@.len(),
            out@.len() == i,
            forall|j: int| 0 <= j < i ==> (#[trigger] out@[j])@ == heads@[j].info@,
        decreases heads@.len() - i,
    {
        out.push(heads[i].info.clone());
        i += 1;
    }
    assert(comp::info_models(out@) =~= head_infos(head_models(heads@)));
    out
}

/// Gives the outputs the configurations stored for the set; returns the outputs that got one.
fn assign_configs(heads: &mut Vec<Head>, set: &Vec<OutputInfo>, configs: &Vec<OutputConfig>) -> (r:
    Vec<usize>)
    ensures
        ({
            let n = geometry::smaller(set@.len() as int, configs@.len() as int);
            let infos = comp::info_models(set@);
            let before = head_models(old(heads)@);
            &&& head_models(final(heads)@) == assigned(
                before,
                infos,
                comp::config_models(configs@),
                n,
            )
            &&& order::as_ints(r@) == assigned_heads(before, infos, n)
        }),
{
    let ghost before = head_models(heads@);
    let ghost infos = comp::info_models(set@);
    let ghost given = comp::config_models(configs@);
    let mut out: Vec<usize> = Vec::new();
    let mut i: usize = 0;
    proof {
        assert(order::as_ints(out@) =~= assigned_heads(before, infos, 0));
    }
    while i < set.len() && i < configs.len()
        invariant
            i <= set@.len(),
            i <= configs@.len(),
            infos == comp::info_models(set@),
            given == comp::config_models(configs@),
            head_models(heads@) == assigned(before, infos, given, i as int),
            order::as_ints(out@) == assigned_heads(before, infos, i as int),
        decreases set@.len() - i,
    {
        proof {
            assert(infos[i as int] == set@[i as int]@);
            assert(given[i as int] == configs@[i as int]@);
            lemma_assigned(before, infos, given, i as int);
            lemma_same_position(before, head_models(heads@), infos[i as int].first);
        }
        match find_head(heads, set[i].connector.as_str()) {
            Some(k) => {
                let ghost so_far = heads@;
                let ghost listed = out@;
                let config: OutputConfig = configs[i].clone();
                let head = Head {
                    info: heads[k].info.clone(),
                    config,
                    mirroring: heads[k].mirroring,
                    width: heads[k].width,
                };
                heads.set(k, head);
                out.push(k);
                proof {
                    assert(head_models(heads@) =~= head_models(so_far).update(k as int, head@));
                    assert(order::as_ints(out@) =~= order::as_ints(listed).push(k as int));
                }
            },
            None => {},
        }
        i += 1;
    }
    out
}

/// Outputs that differ in nothing that identifies them are found at the same positions.
proof fn lemma_same_position(a: Seq<HeadModel>, b: Seq<HeadModel>, connector: Seq<char>)
    requires
        a.len() == b.len(),
        forall|i: int| 0 <= i < a.len() ==> (#[trigger] b[i]).info == a[i].info,
    ensures
        head_position(a, connector) == head_position(b, connector),
    decreases a.len(),
{
    if a.len() > 0 {
        assert(b[0].info == a[0].info);
        assert forall|i: int| 0 <= i < a.skip(1).len() implies (#[trigger] b.skip(1)[i]).info
            == a.skip(1)[i].info by {
            assert(b[i + 1].info == a[i + 1].info);
        }
        lemma_same_position(a.skip(1), b.skip(1), connector);
    }
}

/// The outputs that the first `n` of a set are.
pub open spec fn assigned_heads(
    heads: Seq<HeadModel>,
    set: Seq<order::KeyModel>,
    n: int,
) -> Seq<int>
    decreases n,
{
    if n <= 0 {
        seq![]
    } else {
        match head_position(heads, set[n - 1].first) {
            Some(k) => assigned_heads(heads, set, n - 1).push(k),
            None => assigned_heads(heads, set, n - 1),
        }
    }
}

/// The outputs, all enabled where all were disabled.
pub open spec fn some_enabled(heads: Seq<HeadModel>) -> Seq<HeadModel> {
    if forall|i: int| 0 <= i < heads.len() ==> (#[trigger] heads[i]).config.enabled is Disabled {
        heads.map_values(
            |h: HeadModel|
                HeadModel {
                    config: comp::OutputModel { enabled: comp::StateModel::Enabled, ..h.config },
                    ..h
                },
        )
    } else {
        heads
    }
}

/// The first output that does not mirror another.
pub open spec fn first_own(heads: Seq<HeadModel>) -> Option<int>
    decreases heads.len(),
{
    if heads.len() == 0 {
        None
    } else if !heads[0].mirroring {
        Some(0)
    } else {
        match first_own(heads.skip(1)) {
            Some(i) => Some(i + 1),
            None => None,
        }
    }
}

/// The outputs, one of them the primary one of X11 clients: the first that does not mirror
/// another, where none was before.
pub open spec fn with_primary(heads: Seq<HeadModel>) -> Seq<HeadModel> {
    if exists|i: int| 0 <= i < heads.len() && (#[trigger] heads[i]).config.xwayland_primary {
        heads
    } else {
        match first_own(heads) {
            Some(k) => heads.update(
                k,
                HeadModel {
                    config: comp::OutputModel { xwayland_primary: true, ..heads[k].config },
                    ..heads[k]
                },
            ),
            None => heads,
        }
    }
}

/// The width of the first `n` outputs that do not mirror another.
pub open spec fn width_before(heads: Seq<HeadModel>, n: int) -> int
    decreases n,
{
    if n <= 0 {
        0
    } else if heads[n - 1].mirroring {
        width_before(heads, n - 1)
    } else {
        width_before(heads, n - 1) + (heads[n - 1].width as u32)
    }
}

/// The outputs that do not mirror another side by side, from left to right.
pub open spec fn side_by_side(heads: Seq<HeadModel>) -> Seq<HeadModel> {
    Seq::new(
        heads.len(),
        |i: int|
            if heads[i].mirroring {
                heads[i]
            } else {
                HeadModel {
                    config: comp::OutputModel {
                        position: OutputPosition { x: width_before(heads, i) as u32, y: 0 },
                        ..heads[i].config
                    },
                    ..heads[i]
                }
            },
    )
}

/// The outputs with generated configurations.
pub open spec fn generated(heads: Seq<HeadModel>) -> Seq<HeadModel> {
    side_by_side(with_primary(some_enabled(heads)))
}

/// Enables all outputs where all are disabled.
fn enable_some(heads: &mut Vec<Head>)
    ensures
        head_models(final(heads)@) == some_enabled(head_models(old(heads)@)),
{
    let ghost before = head_models(heads@);
    let mut i: usize = 0;
    while i < heads.len()
        invariant
            i <= heads@.len(),
            before == head_models(heads@),
            forall|j: int| 0 <= j < i ==> (#[trigger] before[j]).config.enabled is Disabled,
        decreases heads@.len() - i,
    {
        assert(before[i as int] == heads@[i as int]@);
        if !heads[i].config.enabled.is_disabled() {
            assert(!(before[i as int].config.enabled is Disabled));
            return ;
        }
        i += 1;
    }
    let ghost want = some_enabled(before);
    let mut k: usize = 0;
    while k < heads.len()
        invariant
            k <= heads@.len(),
            heads@.len() == before.len(),
            want.len() == before.len(),
            forall|j: int|
                0 <= j < before.len() ==> #[trigger] want[j] == (HeadModel {
                    config: comp::OutputModel {
                        enabled: comp::StateModel::Enabled,
                        ..before[j].config
                    },
                    ..before[j]
                }),
            forall|j: int| 0 <= j < k ==> (#[trigger] heads@[j])@ == want[j],
            forall|j: int| k <= j < heads@.len() ==> (#[trigger] heads@[j])@ == before[j],
        decreases heads@.len() - k,
    {
        let mut config: OutputConfig = heads[k].config.clone();
        config.enabled = OutputState::Enabled;
        let head = Head {
            info: heads[k].info.clone(),
            config,
            mirroring: heads[k].mirroring,
            width: heads[k].width,
        };
        assert(head@ == want[k as int]);
        heads.set(k, head);
        k += 1;
    }
    assert(head_models(heads@) =~= want);
}

/// Picks a primary output where there is none.
fn pick_primary(heads: &mut Vec<Head>)
    ensures
        head_models(final(heads)@) == with_primary(head_models(old(heads)@)),
{
    let ghost before = head_models(heads@);
    let mut i: usize = 0;
    while i < heads.len()
        invariant
            i <= heads@.len(),
            *heads == *old(heads),
            before == head_models(heads@),
            forall|j: int| 0 <= j < i ==> !(#[trigger] before[j]).config.xwayland_primary,
        decreases heads@.len() - i,
    {
        assert(before[i as int] == heads@[i as int]@);
        if heads[i].config.xwayland_primary {
            assert(before[i as int].config.xwayland_primary);
            return ;
        }
        i += 1;
    }
    let mut k: usize = 0;
    proof {
        assert(before.skip(0) =~= before);
    }
    while k < heads.len()
        invariant
            k <= heads@.len(),
            *heads == *old(heads),
            before == head_models(heads@),
            forall|j: int|
                0 <= j < before.len() ==> !(#[trigger] before[j]).config.xwayland_primary,
            match first_own(before.skip(k as int)) {
                Some(j) => first_own(before) == Some(k + j),
                None => first_own(before) is None,
            },
        decreases heads@.len() - k,
    {
        proof {
            assert(before.skip(k as int)[0] == heads@[k as int]@);
            assert(before.skip(k as int).skip(1) =~= before.skip(k + 1));
        }
        if !heads[k].mirroring {
            let mut config: OutputConfig = heads[k].config.clone();
            config.xwayland_primary = true;
            let head = Head {
                info: heads[k].info.clone(),
                config,
                mirroring: heads[k].mirroring,
                width: heads[k].width,
            };
            heads.set(k, head);
            assert(head_models(heads@) =~= with_primary(before));
            return ;
        }
        k += 1;
    }
}

/// Puts the outputs that do not mirror another side by side.
fn place_side_by_side(heads: &mut Vec<Head>)
    requires
        width_before(head_models(old(heads)@), old(heads)@.len() as int) <= u32::MAX,
    ensures
        head_models(final(heads)@) == side_by_side(head_models(old(heads)@)),
{
    let ghost before = head_models(heads@);
    let ghost n = before.len() as int;
    let ghost want = side_by_side(before);
    let mut w: u32 = 0;
    let mut i: usize = 0;
    while i < heads.len()
        invariant
            i <= heads@.len(),
            heads@.len() == n,
            n == before.len(),
            want == side_by_side(before),
            w == width_before(before, i as int),
            width_before(before, n) <= u32::MAX,
            forall|j: int| 0 <= j < i ==> (#[trigger] heads@[j])@ == want[j],
            forall|j: int| i <= j < heads@.len() ==> (#[trigger] heads@[j])@ == before[j],
        decreases heads@.len() - i,
    {
        proof {
            assert(heads@[i as int]@ == before[i as int]);
            lemma_width_grows(before, i + 1, n);
        }
        if !heads[i].mirroring {
            let mut config: OutputConfig = heads[i].config.clone();
            config.position = OutputPosition { x: w, y: 0 };
            let width: i32 = heads[i].width;
            let head = Head { info: heads[i].info.clone(), config, mirroring: false, width };
            assert(head@ == want[i as int]);
            heads.set(i, head);
            w = w + width as u32;
        }
        i += 1;
    }
    assert(head_models(heads@) =~= want);
}

/// More outputs are not less wide.
proof fn lemma_width_grows(heads: Seq<HeadModel>, a: int, b: int)
    requires
        0 <= a <= b,
    ensures
        width_before(heads, a) <= width_before(heads, b),
    decreases b - a,
{
    if a < b {
        lemma_width_grows(heads, a, b - 1);
    }
}

/// Enabling outputs and picking a primary one changes no width.
proof fn lemma_same_width(a: Seq<HeadModel>, b: Seq<HeadModel>, n: int)
    requires
        a.len() == b.len(),
        n <= a.len(),
        forall|i: int|
            0 <= i < a.len() ==> (#[trigger] b[i]).width == a[i].width && b[i].mirroring
                == a[i].mirroring,
    ensures
        width_before(a, n) == width_before(b, n),
    decreases n,
{
    if n > 0 {
        assert(b[n - 1].width == a[n - 1].width);
        lemma_same_width(a, b, n - 1);
    }
}

/// Gives the outputs that are present their configurations: those stored for just these
/// outputs, unless they disable all of them; else generated ones, with all outputs side by side,
/// at least one enabled and one the primary one of X11 clients.
pub fn read_outputs(heads: &mut Vec<Head>, stored: &OutputsConfig) -> (r: OutputPlan)
    requires
        usable(stored@, order::sorted(head_infos(head_models(old(heads)@)))) is None
            ==> width_before(head_models(old(heads)@), old(heads)@.len() as int) <= u32::MAX,
    ensures
        ({
            let before = head_models(old(heads)@);
            let set = order::sorted(head_infos(before));
            match (usable(stored@, set), r) {
                (Some(configs), OutputPlan::Stored { assigned: indices }) => {
                    let n = geometry::smaller(set.len() as int, configs.len() as int);
                    &&& head_models(final(heads)@) == assigned(before, set, configs, n)
                    &&& order::as_ints(indices@) == assigned_heads(before, set, n)
                },
                (None, OutputPlan::Generated) => head_models(final(heads)@) == generated(before),
                _ => false,
            }
        }),
{
    let infos: Vec<OutputInfo> = infos_of(heads);
    let set: Vec<OutputInfo> = sort_infos(&infos);
    assert(comp::info_models(set@).len() == set@.len());
    match usable_config(stored, &set) {
        Some(configs) => {
            assert(comp::config_models(configs@).len() == configs@.len());
            let indices: Vec<usize> = assign_configs(heads, &set, configs);
            OutputPlan::Stored { assigned: indices }
        },
        None => {
            let ghost before = head_models(heads@);
            enable_some(heads);
            let ghost enabled = head_models(heads@);
            pick_primary(heads);
            proof {
                lemma_same_width(before, enabled, before.len() as int);
                lemma_first_own(enabled);
                lemma_same_width(enabled, head_models(heads@), before.len() as int);
                assert(heads@.len() == head_models(heads@).len());
            }
            place_side_by_side(heads);
            OutputPlan::Generated
        },
    }
}

/// The defining property of `first_own`.
proof fn lemma_first_own(heads: Seq<HeadModel>)
    ensures
        first_own(heads) matches Some(i) ==> 0 <= i < heads.len() && !heads[i].mirroring,
    decreases heads.len(),
{
    if heads.len() > 0 && heads[0].mirroring {
        lemma_first_own(heads.skip(1));
    }
}

/// The configurations of the outputs, to restore them later.
pub fn known_configs(heads: &Vec<Head>) -> (r: Vec<OutputConfig>)
    ensures
        r@.len() == heads@.len(),
        forall|i: int| 0 <= i < r@.len() ==> (#[trigger] r@[i])@ == heads@[i].config@,
{
    let mut out: Vec<OutputConfig> = Vec::new();
    let mut i: usize = 0;
    while i < heads.len()
        invariant
            i <= heads@.len(),
            out@.len() == i,
            forall|j: int| 0 <= j < i ==> (#[trigger] out@[j])@ == heads@[j].config@,
        decreases heads@.len() - i,
    {
        out.push(heads[i].config.clone());
        i += 1;
    }
    out
}

/// Restores the configurations of the outputs.
pub fn roll_back(heads: &mut Vec<Head>, known: &Vec<OutputConfig>)
    ensures
        final(heads)@.len() == old(heads)@.len(),
        forall|i: int|
            0 <= i < final(heads)@.len() ==> (#[trigger] final(heads)@[i])@ == if i < known@.len() {
                (HeadModel { config: known@[i]@, ..old(heads)@[i]@ })
            } else {
                old(heads)@[i]@
            },
{
    let ghost before = heads@;
    let mut i: usize = 0;
    while i < heads.len() && i < known.len()
        invariant
            i <= heads@.len(),
            i <= known@.len(),
            heads@.len() == before.len(),
            forall|j: int|
                0 <= j < i ==> (#[trigger] heads@[j])@ == (HeadModel {
                    config: known@[j]@,
                    ..before[j]@
                }),
            forall|j: int| i <= j < heads@.len() ==> (#[trigger] heads@[j])@ == before[j]@,
        decreases heads@.len() - i,
    {
        let head = Head {
            info: heads[i].info.clone(),
            config: known[i].clone(),
            mirroring: heads[i].mirroring,
            width: heads[i].width,
        };
        heads.set(i, head);
        i += 1;
    }
}

/// Which of the outputs are used on their own, and so enabled; the others are disabled.
pub fn enabled_heads(heads: &Vec<Head>) -> (r: Vec<bool>)
    ensures
        r@.len() == heads@.len(),
        forall|i: int|
            0 <= i < r@.len() ==> #[trigger] r@[i] == (heads@[i]@.config.enabled is Enabled),
{
    let mut out: Vec<bool> = Vec::new();
    let mut i: usize = 0;
    while i < heads.len()
        invariant
            i <= heads@.len(),
            out@.len() == i,
            forall|j: int|
                0 <= j < i ==> #[trigger] out@[j] == (heads@[j]@.config.enabled is Enabled),
        decreases heads@.len() - i,
    {
        out.push(heads[i].config.enabled.is_enabled());
        i += 1;
    }
    out
}

/// The set of the outputs that are present, in their order, with their configurations.
pub open spec fn present_set(heads: Seq<HeadModel>) -> comp::SetModel {
    let order = order::order_of(head_infos(heads), heads.len() as int);
    comp::SetModel {
        infos: order.map_values(|i: int| heads[i].info),
        outputs: order.map_values(|i: int| heads[i].config),
    }
}

/// Stores the configurations of the outputs that are present.
pub fn write_outputs(stored: &mut OutputsConfig, heads: &Vec<Head>)
    ensures
        final(stored)@ == comp::with_set(old(stored)@, present_set(head_models(heads@))),
{
    let ghost models = head_models(heads@);
    let infos: Vec<OutputInfo> = infos_of(heads);
    let keys: Vec<Key> = comp::info_keys(&infos);
    let order: Vec<usize> = order::order_by(&keys);
    let ghost perm = order::order_of(head_infos(models), models.len() as int);
    proof {
        assert(order::key_models(keys@).len() == keys@.len());
        assert(comp::info_models(infos@).len() == infos@.len());
        order::lemma_order_of(head_infos(models), models.len() as int);
        assert(order::as_ints(order@).len() == order@.len());
    }
    let mut set: Vec<OutputInfo> = Vec::new();
    let mut outputs: Vec<OutputConfig> = Vec::new();
    let mut i: usize = 0;
    while i < order.len()
        invariant
            i <= order@.len(),
            order@.len() == heads@.len(),
            models == head_models(heads@),
            order::as_ints(order@) == perm,
            forall|j: int| 0 <= j < perm.len() ==> 0 <= #[trigger] perm[j] < models.len(),
            comp::info_models(set@) =~= perm.take(i as int).map_values(|k: int| models[k].info),
            comp::config_models(outputs@) =~= perm.take(i as int).map_values(
                |k: int| models[k].config,
            ),
        decreases order@.len() - i,
    {
        proof {
            assert(order::as_ints(order@)[i as int] == order@[i as int] as int);
            assert(0 <= perm[i as int] < models.len());
            assert(models[order@[i as int] as int] == heads@[order@[i as int] as int]@);
        }
        let info: OutputInfo = heads[order[i]].info.clone();
        let config: OutputConfig = heads[order[i]].config.clone();
        let ghost infos_before = set@;
        let ghost outputs_before = outputs@;
        set.push(info);
        outputs.push(config);
        proof {
            assert(comp::info_models(set@) =~= comp::info_models(infos_before).push(info@));
            assert(comp::config_models(outputs@) =~= comp::config_models(outputs_before).push(
                config@,
            ));
        }
        i += 1;
    }
    proof {
        assert(perm.take(i as int) =~= perm);
        let want = present_set(models);
        assert(comp::info_models(set@) =~= want.infos);
        assert(comp::config_models(outputs@) =~= want.outputs);
    }
    stored.insert(set, outputs);
}

/// Generated configurations enable at least one output.
pub proof fn generated_outputs_are_not_all_disabled(heads: Seq<HeadModel>)
    requires
        heads.len() > 0,
    ensures
        exists|i: int|
            0 <= i < generated(heads).len() && !((
            #[trigger] generated(heads)[i]).config.enabled is Disabled),
{
    let enabled = some_enabled(heads);
    let primary = with_primary(enabled);
    let k = if forall|i: int|
        0 <= i < heads.len() ==> (#[trigger] heads[i]).config.enabled is Disabled {
        0
    } else {
        choose|i: int|
            0 <= i < heads.len() && !((#[trigger] heads[i]).config.enabled is Disabled)
    };
    lemma_first_own(enabled);
    assert(!(enabled[k].config.enabled is Disabled));
    assert(!(primary[k].config.enabled is Disabled));
    assert(!(generated(heads)[k].config.enabled is Disabled));
}

/// Generated configurations do not overlap: of two outputs that do not mirror another, the one
/// further to the right starts where those before it end, or later.
pub proof fn generated_outputs_do_not_overlap(heads: Seq<HeadModel>, i: int, j: int)
    requires
        width_before(heads, heads.len() as int) <= u32::MAX,
        0 <= i < j < heads.len(),
        !heads[i].mirroring,
        !heads[j].mirroring,
    ensures
        generated(heads)[i].config.position.x + (heads[i].width as u32) <= generated(
            heads,
        )[j].config.position.x,
        generated(heads)[i].config.position.y == 0,
{
    let enabled = some_enabled(heads);
    let primary = with_primary(enabled);
    lemma_first_own(enabled);
    lemma_same_width(heads, primary, heads.len() as int);
    lemma_same_width(heads, primary, i);
    lemma_same_width(heads, primary, j);
    lemma_width_grows(primary, i + 1, j);
    lemma_width_grows(primary, j, heads.len() as int);
    lemma_width_grows(primary, i, heads.len() as int);
    lemma_width_grows(primary, 0, i);
}

/// What is stored for the outputs that are present is what is found for them again.
pub proof fn written_outputs_are_found(stored: Seq<comp::SetModel>, heads: Seq<HeadModel>)
    requires
        comp::distinct_sets(stored),
        exists|i: int|
            0 <= i < heads.len() && !((#[trigger] heads[i]).config.enabled is Disabled),
    ensures
        usable(
            comp::with_set(stored, present_set(heads)),
            order::sorted(head_infos(heads)),
        ) == Some(present_set(heads).outputs),
{
    let infos = head_infos(heads);
    let n = heads.len() as int;
    let perm = order::order_of(infos, n);
    order::lemma_order_of(infos, n);
    let set = present_set(heads);
    assert(infos.take(n) =~= infos);
    assert(perm.map_values(|i: int| infos[i]) =~= set.infos) by {
        assert forall|i: int| 0 <= i < perm.len() implies infos[perm[i]] == heads[perm[i]].info by {
            assert(0 <= perm[i] < n);
        }
    }
    let other = if set.infos == Seq::<order::KeyModel>::empty() {
        seq![order::KeyModel { first: seq![], second: seq![], third: seq![] }]
    } else {
        seq![]
    };
    comp::stored_set_is_found(stored, set, other);
    let k = choose|i: int|
        0 <= i < heads.len() && !((#[trigger] heads[i]).config.enabled is Disabled);
    assert(perm.contains(k));
    let m = choose|m: int| 0 <= m < perm.len() && perm[m] == k;
    assert(set.outputs[m] == heads[k].config);
}

} // verus!
