//! What becomes of the configurations of outputs when they are restored, generated and stored.

use crate::config::output::comp;
use crate::config::output::heads;
use crate::config::output::heads::HeadModel;
use crate::order;
use vstd::prelude::*;

verus! {

/// Where a stored configuration stands for a connector, the output with that connector has all of
/// it, and nothing else of any output changes. The connectors of a set and of the outputs that are
/// present differ.
pub proof fn stored_configurations_are_restored(
    present: Seq<HeadModel>,
    set: Seq<order::KeyModel>,
    configs: Seq<comp::OutputModel>,
    n: int,
)
    requires
        0 <= n <= set.len(),
        n <= configs.len(),
        forall|i: int, j: int|
            0 <= i < set.len() && 0 <= j < set.len() && i != j ==> (#[trigger] set[i]).first != (
            #[trigger] set[j]).first,
        forall|i: int, j: int|
            0 <= i < present.len() && 0 <= j < present.len() && i != j ==> (
            #[trigger] present[i]).info.first != (#[trigger] present[j]).info.first,
    ensures
        ({
            let after = heads::assigned(present, set, configs, n);
            &&& after.len() == present.len()
            &&& forall|k: int|
                0 <= k < present.len() ==> {
                    &&& (#[trigger] after[k]).info == present[k].info
                    &&& after[k].mirroring == present[k].mirroring
                    &&& after[k].width == present[k].width
                }
            &&& forall|i: int, k: int|
                0 <= i < n && 0 <= k < present.len() && (#[trigger] set[i]).first == (
                #[trigger] present[k]).info.first ==> {
                    &&& after[k].config.mode == configs[i].mode
                    &&& after[k].config.vrr == configs[i].vrr
                    &&& after[k].config.scale == configs[i].scale
                    &&& after[k].config.transform == configs[i].transform
                    &&& after[k].config.position == configs[i].position
                    &&& after[k].config.enabled == configs[i].enabled
                    &&& after[k].config.max_bpc == configs[i].max_bpc
                    &&& after[k].config.xwayland_primary == configs[i].xwayland_primary
                    &&& after[k].config == configs[i]
                }
            &&& forall|k: int|
                0 <= k < present.len() && (forall|i: int|
                    0 <= i < n ==> (#[trigger] set[i]).first != present[k].info.first)
                    ==> #[trigger] after[k] == present[k]
        }),
    decreases n,
{
    if n > 0 {
        stored_configurations_are_restored(present, set, configs, n - 1);
        let before = heads::assigned(present, set, configs, n - 1);
        let after = heads::assigned(present, set, configs, n);
        let connector = set[n - 1].first;
        heads::lemma_head_position(before, connector);
        assert forall|i: int, k: int|
            0 <= i < n && 0 <= k < present.len() && (#[trigger] set[i]).first == (
            #[trigger] present[k]).info.first implies after[k].config == configs[i] by {
            assert(before[k].info == present[k].info);
            match heads::head_position(before, connector) {
                Some(p) => {
                    assert(before[p].info == present[p].info);
                    if i < n - 1 {
                        assert(set[i].first != set[n - 1].first);
                    }
                },
                None => {
                    assert(before[k].info.first != connector);
                },
            }
        }
        assert forall|k: int|
            0 <= k < present.len() && (forall|i: int|
                0 <= i < n ==> (#[trigger] set[i]).first != present[k].info.first) implies
            #[trigger] after[k] == present[k] by {
            assert(set[n - 1].first != present[k].info.first);
            assert(before[k] == present[k]);
            match heads::head_position(before, connector) {
                Some(p) => {
                    assert(before[p].info == present[p].info);
                },
                None => {},
            }
        }
    }
}

/// What is written of the outputs that are present is what they get when it is read again: each
/// of them its own whole configuration, whatever configurations they had come to have.
pub proof fn written_configurations_are_read_again(
    stored: Seq<comp::SetModel>,
    written: Seq<HeadModel>,
    present: Seq<HeadModel>,
)
    requires
        comp::distinct_sets(stored),
        exists|i: int|
            0 <= i < written.len() && !((#[trigger] written[i]).config.enabled is Disabled),
        present.len() == written.len(),
        forall|k: int| 0 <= k < present.len() ==> (#[trigger] present[k]).info == written[k].info,
        forall|i: int, j: int|
            0 <= i < written.len() && 0 <= j < written.len() && i != j ==> (
            #[trigger] written[i]).info.first != (#[trigger] written[j]).info.first,
    ensures
        ({
            let set = order::sorted(heads::head_infos(present));
            let kept = comp::with_set(stored, heads::present_set(written));
            heads::usable(kept, set) matches Some(configs) && configs.len() == set.len()
                && set.len() == present.len() && forall|k: int|
                0 <= k < present.len() ==> (#[trigger] heads::assigned(
                    present,
                    set,
                    configs,
                    set.len() as int,
                )[k]).config == written[k].config
        }),
{
    let infos = heads::head_infos(written);
    let n = written.len() as int;
    assert(heads::head_infos(present) =~= infos);
    heads::written_outputs_are_found(stored, written);
    let perm = order::order_of(infos, n);
    order::lemma_order_of(infos, n);
    assert(infos.take(n) =~= infos);
    let set = order::sorted(infos);
    let configs = heads::present_set(written).outputs;
    order::lemma_sorted(infos);
    assert(set =~= perm.map_values(|i: int| infos[i]));
    assert forall|m: int| 0 <= m < n implies (#[trigger] set[m]) == written[perm[m]].info
        && configs[m] == written[perm[m]].config by {
        assert(0 <= perm[m] < n);
    }
    assert forall|i: int, j: int| 0 <= i < set.len() && 0 <= j < set.len() && i != j implies (
    #[trigger] set[i]).first != (#[trigger] set[j]).first by {
        assert(0 <= perm[i] < n && 0 <= perm[j] < n);
        assert(perm[i] != perm[j]);
        assert(written[perm[i]].info.first != written[perm[j]].info.first);
    }
    assert forall|i: int, j: int| 0 <= i < present.len() && 0 <= j < present.len() && i != j implies
        (#[trigger] present[i]).info.first != (#[trigger] present[j]).info.first by {
        assert(written[i].info.first != written[j].info.first);
    }
    stored_configurations_are_restored(present, set, configs, n);
    let after = heads::assigned(present, set, configs, n);
    assert forall|k: int| 0 <= k < present.len() implies (#[trigger] after[k]).config
        == written[k].config by {
        assert(perm.contains(k));
        let m = choose|m: int| 0 <= m < perm.len() && perm[m] == k;
        assert(set[m].first == present[k].info.first);
    }
}

/// Stored configurations are used where one is stored for just the outputs that are present, in
/// their order, and enables one of them.
pub proof fn stored_configurations_are_those_of_the_set(
    stored: Seq<comp::SetModel>,
    set: Seq<order::KeyModel>,
    i: int,
)
    requires
        comp::distinct_sets(stored),
        0 <= i < stored.len(),
        stored[i].infos == set,
    ensures
        (exists|k: int|
            0 <= k < stored[i].outputs.len() && !((
            #[trigger] stored[i].outputs[k]).enabled is Disabled)) ==> heads::usable(stored, set)
            == Some(stored[i].outputs),
        (forall|k: int|
            0 <= k < stored[i].outputs.len() ==> (
            #[trigger] stored[i].outputs[k]).enabled is Disabled) ==> heads::usable(stored, set)
            is None,
{
    comp::lemma_set_position(stored, set);
    match comp::set_position(stored, set) {
        Some(k) => {
            if k != i {
                assert(stored[k].infos != stored[i].infos);
            }
        },
        None => {
            assert(stored[i].infos != set);
        },
    }
}

/// Nothing stored is used for outputs of which none is stored.
pub proof fn other_sets_are_not_used(stored: Seq<comp::SetModel>, set: Seq<order::KeyModel>)
    requires
        forall|i: int| 0 <= i < stored.len() ==> (#[trigger] stored[i]).infos != set,
    ensures
        heads::usable(stored, set) is None,
{
    comp::lemma_set_position(stored, set);
}

/// Generated configurations keep all of an output but its place, whether it is used and whether
/// it is the primary one; an output that mirrors another keeps its place too.
pub proof fn generating_keeps_the_rest(present: Seq<HeadModel>, k: int)
    requires
        0 <= k < present.len(),
    ensures
        ({
            let after = heads::generated(present);
            &&& after.len() == present.len()
            &&& after[k].info == present[k].info
            &&& after[k].mirroring == present[k].mirroring
            &&& after[k].width == present[k].width
            &&& after[k].config.mode == present[k].config.mode
            &&& after[k].config.vrr == present[k].config.vrr
            &&& after[k].config.scale == present[k].config.scale
            &&& after[k].config.transform == present[k].config.transform
            &&& after[k].config.max_bpc == present[k].config.max_bpc
            &&& present[k].mirroring ==> after[k].config.position == present[k].config.position
            &&& !present[k].mirroring ==> after[k].config.position.y == 0
        }),
{
    lemma_first_own(heads::some_enabled(present));
}

/// Outputs are enabled where all were disabled, all of them; else each stays as it was.
pub proof fn generating_enables_where_all_were_disabled(present: Seq<HeadModel>, k: int)
    requires
        0 <= k < present.len(),
    ensures
        (forall|i: int|
            0 <= i < present.len() ==> (#[trigger] present[i]).config.enabled is Disabled)
            ==> heads::generated(present)[k].config.enabled is Enabled,
        !(forall|i: int|
            0 <= i < present.len() ==> (#[trigger] present[i]).config.enabled is Disabled)
            ==> heads::generated(present)[k].config.enabled == present[k].config.enabled,
{
    lemma_first_own(heads::some_enabled(present));
}

/// Where no output was the primary one, the first that mirrors no other is, and only it; else
/// each stays as it was.
pub proof fn generating_picks_one_primary_output(present: Seq<HeadModel>, k: int)
    requires
        0 <= k < present.len(),
    ensures
        ({
            let after = heads::generated(present);
            &&& (exists|i: int|
                0 <= i < present.len() && (#[trigger] present[i]).config.xwayland_primary)
                ==> after[k].config.xwayland_primary == present[k].config.xwayland_primary
            &&& !(exists|i: int|
                0 <= i < present.len() && (#[trigger] present[i]).config.xwayland_primary)
                ==> after[k].config.xwayland_primary == (!present[k].mirroring && forall|i: int|
                0 <= i < k ==> (#[trigger] present[i]).mirroring)
        }),
{
    let enabled = heads::some_enabled(present);
    lemma_first_own(enabled);
    assert forall|i: int| 0 <= i < present.len() implies (#[trigger] enabled[i]).mirroring
        == present[i].mirroring && enabled[i].config.xwayland_primary
        == present[i].config.xwayland_primary by {}
    if exists|i: int| 0 <= i < present.len() && (#[trigger] present[i]).config.xwayland_primary {
        let i = choose|i: int|
            0 <= i < present.len() && (#[trigger] present[i]).config.xwayland_primary;
        assert(enabled[i].config.xwayland_primary);
    } else {
        assert forall|i: int| 0 <= i < enabled.len() implies !(
        #[trigger] enabled[i]).config.xwayland_primary by {
            assert(!present[i].config.xwayland_primary);
        }
        match heads::first_own(enabled) {
            Some(f) => {
                assert(!present[f].mirroring) by {
                    assert(enabled[f].mirroring == present[f].mirroring);
                }
                assert forall|i: int| 0 <= i < f implies (#[trigger] present[i]).mirroring by {
                    assert(enabled[i].mirroring);
                }
            },
            None => {
                assert(enabled[k].mirroring);
            },
        }
    }
}

/// The first output that mirrors no other: those before it do.
proof fn lemma_first_own(present: Seq<HeadModel>)
    ensures
        match heads::first_own(present) {
            Some(f) => 0 <= f < present.len() && !present[f].mirroring && forall|i: int|
                0 <= i < f ==> (#[trigger] present[i]).mirroring,
            None => forall|i: int| 0 <= i < present.len() ==> (#[trigger] present[i]).mirroring,
        },
    decreases present.len(),
{
    if present.len() > 0 && present[0].mirroring {
        let rest = present.skip(1);
        lemma_first_own(rest);
        match heads::first_own(rest) {
            Some(f) => {
                assert(rest[f] == present[f + 1]);
                assert forall|i: int| 0 <= i < f + 1 implies (#[trigger] present[i]).mirroring by {
                    if i > 0 {
                        assert(rest[i - 1] == present[i]);
                    }
                }
            },
            None => {
                assert forall|i: int| 0 <= i < present.len() implies (
                #[trigger] present[i]).mirroring by {
                    if i > 0 {
                        assert(rest[i - 1] == present[i]);
                    }
                }
            },
        }
    }
}

/// Outputs stand side by side without gaps: the first that mirrors no other at the left, and the
/// next one where the one before it ends.
pub proof fn generated_outputs_touch(present: Seq<HeadModel>, i: int, j: int)
    requires
        heads::width_before(present, present.len() as int) <= u32::MAX,
        0 <= i < j < present.len(),
        !present[i].mirroring,
        !present[j].mirroring,
        forall|k: int| i < k < j ==> (#[trigger] present[k]).mirroring,
        present[i].width >= 0,
    ensures
        heads::generated(present)[j].config.position.x == heads::generated(
            present,
        )[i].config.position.x + present[i].width,
        (forall|k: int| 0 <= k < i ==> (#[trigger] present[k]).mirroring) ==> heads::generated(
            present,
        )[i].config.position.x == 0,
{
    let enabled = heads::some_enabled(present);
    let primary = heads::with_primary(enabled);
    lemma_first_own(enabled);
    assert forall|k: int| 0 <= k < present.len() implies (#[trigger] primary[k]).mirroring
        == present[k].mirroring && primary[k].width == present[k].width by {}
    lemma_widths(present, primary, j);
    lemma_widths(present, primary, i);
    lemma_only_mirrors(present, i + 1, j);
    lemma_grows(present, j, present.len() as int);
    lemma_grows(present, i, present.len() as int);
    lemma_grows(present, 0, i);
    lemma_grows(present, 0, j);
    if forall|k: int| 0 <= k < i ==> (#[trigger] present[k]).mirroring {
        lemma_only_mirrors(present, 0, i);
    }
}

/// Outputs that mirror others take no room.
proof fn lemma_only_mirrors(present: Seq<HeadModel>, a: int, b: int)
    requires
        0 <= a <= b <= present.len(),
        forall|k: int| a <= k < b ==> (#[trigger] present[k]).mirroring,
    ensures
        heads::width_before(present, a) == heads::width_before(present, b),
    decreases b - a,
{
    if a < b {
        assert(present[b - 1].mirroring);
        lemma_only_mirrors(present, a, b - 1);
    }
}

/// More outputs take no less room.
proof fn lemma_grows(present: Seq<HeadModel>, a: int, b: int)
    requires
        0 <= a <= b,
    ensures
        heads::width_before(present, a) <= heads::width_before(present, b),
    decreases b - a,
{
    if a < b {
        lemma_grows(present, a, b - 1);
    }
}

/// Outputs of the same widths take the same room.
proof fn lemma_widths(a: Seq<HeadModel>, b: Seq<HeadModel>, n: int)
    requires
        a.len() == b.len(),
        n <= a.len(),
        forall|k: int|
            0 <= k < a.len() ==> (#[trigger] b[k]).mirroring == a[k].mirroring && b[k].width
                == a[k].width,
    ensures
        heads::width_before(a, n) == heads::width_before(b, n),
    decreases n,
{
    if n > 0 {
        assert(b[n - 1].width == a[n - 1].width);
        lemma_widths(a, b, n - 1);
    }
}

/// The outputs of a set are found by their connectors, in the order of the set, where all of them
/// are present.
pub proof fn outputs_of_a_set_are_found_in_its_order(
    present: Seq<HeadModel>,
    set: Seq<order::KeyModel>,
    n: int,
    i: int,
)
    requires
        0 <= i < n <= set.len(),
        forall|j: int|
            0 <= j < n ==> exists|k: int|
                0 <= k < present.len() && (#[trigger] present[k]).info.first == (
                #[trigger] set[j]).first,
    ensures
        ({
            let found = heads::assigned_heads(present, set, n);
            &&& found.len() == n
            &&& 0 <= found[i] < present.len()
            &&& present[found[i]].info.first == set[i].first
        }),
    decreases n,
{
    assert(exists|k: int|
        0 <= k < present.len() && (#[trigger] present[k]).info.first == set[n - 1].first);
    heads::lemma_head_position(present, set[n - 1].first);
    if n > 1 {
        outputs_of_a_set_are_found_in_its_order(
            present,
            set,
            n - 1,
            if i < n - 1 {
                i
            } else {
                0
            },
        );
    } else {
        assert(heads::assigned_heads(present, set, 0).len() == 0);
    }
}

/// An output that is not present is left out.
pub proof fn outputs_that_are_not_present_are_left_out(
    present: Seq<HeadModel>,
    set: Seq<order::KeyModel>,
    n: int,
)
    requires
        0 < n <= set.len(),
        forall|k: int|
            0 <= k < present.len() ==> (#[trigger] present[k]).info.first != set[n - 1].first,
    ensures
        heads::assigned_heads(present, set, n) == heads::assigned_heads(present, set, n - 1),
        heads::assigned_heads(present, set, 0).len() == 0,
{
    heads::lemma_head_position(present, set[n - 1].first);
}

} // verus!
