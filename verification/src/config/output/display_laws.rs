//! How the configurations of outputs are stored, and what stored profiles mean.

use crate::config::output::comp;
use crate::config::output::comp::{AdaptiveSync, Transform, TransformDef};
use crate::config::output::displays_toml;
use crate::config::output::displays_toml::{
    EnabledModel, EntryModel, ProfileModel, TransformToml, VrrToml,
};
use crate::geometry::Size;
use crate::order;
use crate::text;
use vstd::prelude::*;

verus! {

/// A stored configuration has each part of the configuration under its own name.
pub proof fn every_part_is_stored(connector: Seq<char>, c: comp::OutputModel)
    ensures
        ({
            let e = displays_toml::stored(connector, c);
            &&& e.connector == connector
            &&& e.mode == c.mode
            &&& e.scale == c.scale
            &&& e.position == c.position
            &&& e.max_bpc == c.max_bpc
            &&& e.xwayland_primary == c.xwayland_primary
            &&& e.vrr == VrrToml::Enabled <==> c.vrr == AdaptiveSync::Enabled
            &&& e.vrr == VrrToml::Force <==> c.vrr == AdaptiveSync::Force
            &&& e.enabled is Enabled <==> c.enabled is Enabled
            &&& e.enabled is Disabled <==> c.enabled is Disabled
            &&& c.enabled matches comp::StateModel::Mirroring(target) ==> e.enabled
                == EnabledModel::Mirror(target)
        }),
{
}

/// The parts of a stored configuration are read as what they stand for.
pub proof fn every_part_is_read(e: EntryModel)
    ensures
        ({
            let c = displays_toml::read(e);
            &&& c.mode == e.mode
            &&& c.scale == e.scale
            &&& c.position == e.position
            &&& c.max_bpc == e.max_bpc
            &&& c.xwayland_primary == e.xwayland_primary
            &&& c.vrr == AdaptiveSync::Enabled <==> e.vrr == VrrToml::Enabled
            &&& c.vrr == AdaptiveSync::Force <==> e.vrr == VrrToml::Force
            &&& c.enabled is Enabled <==> e.enabled is Enabled
            &&& c.enabled is Disabled <==> e.enabled is Disabled
            &&& e.enabled matches EnabledModel::Mirror(target) ==> c.enabled
                == comp::StateModel::Mirroring(target)
        }),
{
}

/// A turn is stored by its angle, as the renderer names it too, and so is a mirrored one.
pub proof fn turns_are_stored_by_their_angle(t: TransformDef)
    ensures
        ({
            let s = displays_toml::stored_transform(t);
            let r = comp::renderer_name(t);
            &&& t == TransformDef::Normal <==> s == TransformToml::Normal
            &&& t == TransformDef::_90 <==> s == TransformToml::Rotate90
            &&& t == TransformDef::_180 <==> s == TransformToml::Rotate180
            &&& t == TransformDef::_270 <==> s == TransformToml::Rotate270
            &&& t == TransformDef::Flipped <==> s == TransformToml::Flipped
            &&& t == TransformDef::Flipped90 <==> s == TransformToml::Flipped90
            &&& t == TransformDef::Flipped180 <==> s == TransformToml::Flipped180
            &&& t == TransformDef::Flipped270 <==> s == TransformToml::Flipped270
            &&& t == TransformDef::Normal <==> r == Transform::Normal
            &&& t == TransformDef::_90 <==> r == Transform::_90
            &&& t == TransformDef::_180 <==> r == Transform::_180
            &&& t == TransformDef::_270 <==> r == Transform::_270
            &&& t == TransformDef::Flipped <==> r == Transform::Flipped
            &&& t == TransformDef::Flipped90 <==> r == Transform::Flipped90
            &&& t == TransformDef::Flipped180 <==> r == Transform::Flipped180
            &&& t == TransformDef::Flipped270 <==> r == Transform::Flipped270
        }),
{
}

/// A quarter of a turn, to either side and mirrored or not, exchanges width and height, and no
/// other turn does.
pub proof fn quarter_turns_exchange_the_sides(size: Size, t: TransformDef)
    ensures
        t == TransformDef::_90 || t == TransformDef::_270 || t == TransformDef::Flipped90 || t
            == TransformDef::Flipped270 ==> comp::turned(size, t).w == size.h && comp::turned(
            size,
            t,
        ).h == size.w,
        t == TransformDef::Normal || t == TransformDef::_180 || t == TransformDef::Flipped || t
            == TransformDef::Flipped180 ==> comp::turned(size, t) == size,
{
}

/// Whether an output is used is one of three texts, the last with a connector behind it; no other
/// text says so.
pub proof fn the_texts_of_a_state(connector: Seq<char>, s: Seq<char>)
    ensures
        displays_toml::enabled_text(EnabledModel::Enabled) == "enabled"@,
        displays_toml::enabled_text(EnabledModel::Disabled) == "disabled"@,
        displays_toml::enabled_text(EnabledModel::Mirror(connector)) == "mirror:"@ + connector,
        displays_toml::enabled_in("enabled"@) == Some(EnabledModel::Enabled),
        displays_toml::enabled_in("disabled"@) == Some(EnabledModel::Disabled),
        displays_toml::enabled_in("mirror:"@ + connector) == Some(EnabledModel::Mirror(connector)),
        displays_toml::enabled_in(s) matches Some(e) ==> displays_toml::enabled_text(e) == s,
{
    displays_toml::enabled_text_is_read_back(EnabledModel::Enabled);
    displays_toml::enabled_text_is_read_back(EnabledModel::Disabled);
    displays_toml::enabled_text_is_read_back(EnabledModel::Mirror(connector));
    text::a_prefix_is_followed_by_the_rest(s, "mirror:"@);
}

/// A profile can be read where each of its outputs has a stored configuration and no two of them
/// have the same connector, and only there; else a connector is named for which that fails.
pub proof fn complete_profiles_can_be_read(p: ProfileModel)
    ensures
        ({
            let set = order::sorted(p.output_set);
            let complete = (forall|i: int|
                0 <= i < set.len() ==> exists|k: int|
                    0 <= k < p.output.len() && (#[trigger] p.output[k]).connector == (
                    #[trigger] set[i]).first) && (forall|i: int, j: int|
                0 <= j < i < set.len() ==> (#[trigger] set[i]).first != (#[trigger] set[j]).first);
            &&& displays_toml::profile_set(p) is Ok <==> complete
            &&& displays_toml::profile_set(p) matches Err(connector) ==> exists|i: int|
                0 <= i < set.len() && (#[trigger] set[i]).first == connector
        }),
{
    let set = order::sorted(p.output_set);
    lemma_first_missing(set, p.output, 0);
    assert forall|i: int| 0 <= i < set.len() implies (#[trigger] displays_toml::missing(
        set,
        p.output,
        i,
    ) <==> !(exists|k: int|
        0 <= k < p.output.len() && (#[trigger] p.output[k]).connector == set[i].first) || exists|
        j: int,
    |
        0 <= j < i && (#[trigger] set[j]).first == set[i].first) by {
        displays_toml::lemma_last_named(p.output, set[i].first);
    }
    match displays_toml::first_missing(set, p.output, 0) {
        Some(i) => {
            assert(displays_toml::missing(set, p.output, i));
            assert(set[i].first == set[i].first);
        },
        None => {
            assert forall|i: int| 0 <= i < set.len() implies exists|k: int|
                0 <= k < p.output.len() && (#[trigger] p.output[k]).connector == (
                #[trigger] set[i]).first by {
                assert(!displays_toml::missing(set, p.output, i));
            }
            assert forall|i: int, j: int| 0 <= j < i < set.len() implies (
            #[trigger] set[i]).first != (#[trigger] set[j]).first by {
                assert(!displays_toml::missing(set, p.output, i));
            }
        },
    }
}

/// The first output without a configuration.
proof fn lemma_first_missing(set: Seq<order::KeyModel>, entries: Seq<EntryModel>, from: int)
    requires
        0 <= from,
    ensures
        match displays_toml::first_missing(set, entries, from) {
            Some(i) => from <= i < set.len() && displays_toml::missing(set, entries, i),
            None => forall|i: int|
                from <= i < set.len() ==> !#[trigger] displays_toml::missing(set, entries, i),
        },
    decreases set.len() - from,
{
    if from < set.len() && !displays_toml::missing(set, entries, from) {
        lemma_first_missing(set, entries, from + 1);
    }
}

/// A profile gives each of its outputs the configuration that is stored last under its connector,
/// apart from a mirror that may not be.
pub proof fn profiles_give_their_outputs_what_is_stored(p: ProfileModel, i: int, k: int)
    requires
        displays_toml::profile_set(p) is Ok,
        0 <= i < order::sorted(p.output_set).len(),
        0 <= k < p.output.len(),
        p.output[k].connector == order::sorted(p.output_set)[i].first,
        forall|j: int|
            k < j < p.output.len() ==> (#[trigger] p.output[j]).connector
                != p.output[k].connector,
    ensures
        ({
            let set = displays_toml::profile_set(p)->Ok_0;
            let e = p.output[k];
            let c = set.outputs[i];
            &&& set.infos == order::sorted(p.output_set)
            &&& set.outputs.len() == set.infos.len()
            &&& c.mode == e.mode
            &&& c.scale == e.scale
            &&& c.position == e.position
            &&& c.max_bpc == e.max_bpc
            &&& c.xwayland_primary == e.xwayland_primary
            &&& c.transform == displays_toml::read_transform(e.transform)
            &&& c.vrr == displays_toml::read_vrr(e.vrr)
            &&& e.enabled is Enabled ==> c.enabled is Enabled
            &&& e.enabled is Disabled ==> c.enabled is Disabled
            &&& e.enabled matches EnabledModel::Mirror(target) ==> c.enabled is Enabled
                || c.enabled == comp::StateModel::Mirroring(target)
        }),
{
    displays_toml::lemma_last_named(p.output, p.output[k].connector);
}

/// A mirror stays where its target is the connector of another output of the set that is used on
/// its own; else the output is used on its own. Nothing else of an output changes by a repair.
pub proof fn mirrors_stay_where_they_may(
    set: Seq<order::KeyModel>,
    outputs: Seq<comp::OutputModel>,
    i: int,
    j: int,
    target: Seq<char>,
)
    requires
        set.len() == outputs.len(),
        0 <= i < outputs.len(),
        outputs[i].enabled == comp::StateModel::Mirroring(target),
    ensures
        ({
            let r = displays_toml::repaired(set, outputs)[i];
            &&& 0 <= j < set.len() && set[j].first == target && (forall|k: int|
                0 <= k < j ==> (#[trigger] set[k]).first != target) && j != i && outputs[j].enabled
                is Enabled ==> r.enabled == comp::StateModel::Mirroring(target)
            &&& 0 <= j < set.len() && set[j].first == target && (forall|k: int|
                0 <= k < j ==> (#[trigger] set[k]).first != target) && (j == i || !(
            outputs[j].enabled is Enabled)) ==> r.enabled is Enabled
            &&& (forall|k: int| 0 <= k < set.len() ==> (#[trigger] set[k]).first != target)
                ==> r.enabled is Enabled
            &&& r.mode == outputs[i].mode && r.vrr == outputs[i].vrr && r.scale == outputs[i].scale
                && r.transform == outputs[i].transform && r.position == outputs[i].position
                && r.max_bpc == outputs[i].max_bpc && r.xwayland_primary
                == outputs[i].xwayland_primary
        }),
{
    lemma_connector(set, target, j);
}

/// The first output with a connector.
proof fn lemma_connector(set: Seq<order::KeyModel>, connector: Seq<char>, j: int)
    ensures
        0 <= j < set.len() && set[j].first == connector && (forall|k: int|
            0 <= k < j ==> (#[trigger] set[k]).first != connector)
            ==> displays_toml::connector_position(set, connector) == Some(j),
        (forall|k: int| 0 <= k < set.len() ==> (#[trigger] set[k]).first != connector)
            ==> displays_toml::connector_position(set, connector) is None,
    decreases set.len(),
{
    if set.len() > 0 && set[0].first != connector {
        let rest = set.skip(1);
        assert forall|k: int| 0 <= k < rest.len() implies #[trigger] rest[k] == set[k + 1] by {}
        lemma_connector(rest, connector, j - 1);
    }
}

/// An output that mirrors none stays as it is by a repair.
pub proof fn other_outputs_stay_as_they_are(
    set: Seq<order::KeyModel>,
    outputs: Seq<comp::OutputModel>,
    i: int,
)
    requires
        0 <= i < outputs.len(),
        !(outputs[i].enabled is Mirroring),
    ensures
        displays_toml::repaired(set, outputs)[i] == outputs[i],
        displays_toml::repaired(set, outputs).len() == outputs.len(),
{
}

/// Profiles are read one after the other: the first that cannot be is reported by its name and
/// the connector, and later ones for the same outputs count instead of earlier ones.
pub proof fn profiles_are_read_in_turn(
    profiles: Seq<ProfileModel>,
    p: ProfileModel,
    set: comp::SetModel,
    before: Seq<comp::SetModel>,
)
    ensures
        displays_toml::config_in(seq![]) == Ok::<Seq<comp::SetModel>, (Seq<char>, Seq<char>)>(
            seq![],
        ),
        displays_toml::config_in(profiles) is Err ==> displays_toml::config_in(profiles.push(p))
            == displays_toml::config_in(profiles),
        displays_toml::config_in(profiles) is Ok ==> (displays_toml::profile_set(p) matches Err(
            connector,
        ) ==> displays_toml::config_in(profiles.push(p)) == Err::<
            Seq<comp::SetModel>,
            (Seq<char>, Seq<char>),
        >((p.name, connector))),
        displays_toml::config_in(profiles) == Ok::<Seq<comp::SetModel>, (Seq<char>, Seq<char>)>(
            before,
        ) && displays_toml::profile_set(p) == Ok::<comp::SetModel, Seq<char>>(set) ==> (
        displays_toml::config_in(profiles.push(p)) matches Ok(after) && after.contains(set) && (
        forall|i: int|
            0 <= i < before.len() && (#[trigger] before[i]).infos != set.infos ==> after[i]
                == before[i]) && before.len() <= after.len() <= before.len() + 1),
{
    assert(profiles.push(p).drop_last() =~= profiles);
    let after = comp::with_set(before, set);
    comp::lemma_set_position(before, set.infos);
    match comp::set_position(before, set.infos) {
        Some(i) => {
            assert(after[i] == set);
        },
        None => {
            assert(after[before.len() as int] == set);
        },
    }
}

/// A stored profile is named by its number and lists its outputs, each with its configuration.
pub proof fn profiles_list_their_outputs(set: comp::SetModel, number: nat, j: int)
    requires
        set.infos.len() == set.outputs.len(),
        0 <= j < set.infos.len(),
    ensures
        ({
            let p = displays_toml::stored_profile(set, number);
            &&& p.name == "profile-"@ + text::decimal(number)
            &&& p.output_set == set.infos
            &&& p.output.len() == set.outputs.len()
            &&& p.output[j].connector == set.infos[j].first
            &&& p.output[j].mode == set.outputs[j].mode
            &&& p.output[j].scale == set.outputs[j].scale
            &&& p.output[j].position == set.outputs[j].position
        }),
{
}

/// Profiles are stored in the order of the connectors of their first outputs, and numbered from
/// one on.
pub proof fn profiles_are_stored_by_their_first_connector(
    config: Seq<comp::SetModel>,
    i: int,
    j: int,
)
    requires
        0 <= i < j < config.len(),
    ensures
        ({
            let a = displays_toml::in_order(config)[i];
            let b = displays_toml::in_order(config)[j];
            &&& a.infos.len() > 0 && b.infos.len() > 0 ==> !order::before(
                b.infos[0].first,
                a.infos[0].first,
            )
            &&& displays_toml::stored_config(config)[i].output_set == a.infos
            &&& displays_toml::stored_config(config)[i].name == "profile-"@ + text::decimal(
                (i + 1) as nat,
            )
            &&& config.contains(a) && config.contains(b)
        }),
{
    let keys = displays_toml::set_keys(config);
    let n = config.len() as int;
    order::lemma_order_of(keys, n);
    order::lemma_sorted(keys);
    assert(keys.take(n) =~= keys);
    let at = order::order_of(keys, n);
    let by = at.map_values(|x: int| keys[x]);
    assert(by == order::sorted(keys));
    assert(by[i] == keys[at[i]] && by[j] == keys[at[j]]);
    assert(order::key_order()(by[i], by[j]));
    assert(!by[j].less(by[i]));
    assert(displays_toml::in_order(config)[i] == config[at[i]]);
    assert(displays_toml::in_order(config)[j] == config[at[j]]);
}

/// A text comes before another where the first character in which they differ does, and a part of
/// a text from its start comes before the text.
pub proof fn texts_are_ordered_by_their_characters(common: Seq<char>, a: Seq<char>, b: Seq<char>)
    ensures
        a.len() > 0 && b.len() > 0 && a[0] < b[0] ==> order::before(common + a, common + b),
        b.len() > 0 ==> order::before(common, common + b),
        !order::before(common + b, common),
    decreases common.len(),
{
    if common.len() > 0 {
        let rest = common.skip(1);
        texts_are_ordered_by_their_characters(rest, a, b);
        assert((common + a).skip(1) =~= rest + a);
        assert((common + b).skip(1) =~= rest + b);
        assert((common + a)[0] == (common + b)[0]);
    } else {
        assert(common + a =~= a);
        assert(common + b =~= b);
    }
}

/// Outputs are ordered by their connectors first, then by their makes, and then by their models.
pub proof fn outputs_are_ordered_by_connector_make_and_model(
    a: order::KeyModel,
    b: order::KeyModel,
)
    ensures
        order::before(a.first, b.first) ==> a.less(b) && !b.less(a),
        a.first == b.first && order::before(a.second, b.second) ==> a.less(b) && !b.less(a),
        a.first == b.first && a.second == b.second ==> a.less(b) == order::before(
            a.third,
            b.third,
        ),
{
    order::lemma_before_total(a.first, b.first);
    order::lemma_before_total(a.second, b.second);
    order::lemma_before_total(a.third, b.third);
    order::lemma_before_total(a.first, a.first);
    order::lemma_before_total(a.second, a.second);
}

/// Keys that are equal stay in the order in which they came.
pub proof fn equal_keys_keep_their_order(keys: Seq<order::KeyModel>, n: int, i: int, j: int)
    requires
        0 <= n <= keys.len(),
        0 <= i < j < n,
        keys[order::order_of(keys, n)[i]] == keys[order::order_of(keys, n)[j]],
    ensures
        order::order_of(keys, n)[i] < order::order_of(keys, n)[j],
    decreases n,
{
    let before = order::order_of(keys, n - 1);
    let after = order::order_of(keys, n);
    order::lemma_order_of(keys, n - 1);
    order::lemma_order_of(keys, n);
    let p = lemma_insertion(before, keys, n - 1);
    if i < p && j < p {
        equal_keys_keep_their_order(keys, n - 1, i, j);
    } else if i < p && j > p {
        equal_keys_keep_their_order(keys, n - 1, i, j - 1);
    } else if i > p && j > p {
        equal_keys_keep_their_order(keys, n - 1, i - 1, j - 1);
    } else if i == p {
        assert(after[j] == before[j - 1]);
        assert(keys[n - 1].less(keys[before[j - 1]]));
        order::lemma_key_order();
        assert(order::key_order()(keys[n - 1], keys[n - 1]));
    }
}

/// A position is inserted somewhere, before positions whose keys its own comes before.
proof fn lemma_insertion(at: Seq<int>, keys: Seq<order::KeyModel>, x: int) -> (p: int)
    ensures
        0 <= p <= at.len(),
        order::index_inserted(at, keys, x).len() == at.len() + 1,
        order::index_inserted(at, keys, x)[p] == x,
        forall|k: int| 0 <= k < p ==> #[trigger] order::index_inserted(at, keys, x)[k] == at[k],
        forall|k: int|
            p < k <= at.len() ==> #[trigger] order::index_inserted(at, keys, x)[k] == at[k - 1],
        forall|k: int| p <= k < at.len() ==> keys[x].less(keys[#[trigger] at[k]]),
    decreases at.len(),
{
    if at.len() == 0 || !keys[x].less(keys[at.last()]) {
        at.len() as int
    } else {
        let init = at.drop_last();
        let p = lemma_insertion(init, keys, x);
        assert forall|k: int| p <= k < at.len() implies keys[x].less(keys[#[trigger] at[k]]) by {
            if k < init.len() {
                assert(init[k] == at[k]);
            }
        }
        p
    }
}

/// Where a conversion is due, and when the old file goes.
pub proof fn only_a_lone_old_file_is_converted(old_exists: bool, new_exists: bool, written: bool)
    ensures
        displays_toml::step_for(old_exists, new_exists) == displays_toml::Migration::Convert
            <==> old_exists && !new_exists,
        displays_toml::outdated(displays_toml::Migration::Convert, written) == written,
        !displays_toml::outdated(displays_toml::Migration::Nothing, written),
{
}

} // verus!
