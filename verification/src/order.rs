//! The order of texts, and a stable sort by it.

use crate::text::{str_eq, to_chars};
use vstd::prelude::*;
use vstd::relations::*;

verus! {

/// Whether a text comes before another: by the first character in which they differ, or because
/// it is a proper start of the other.
pub open spec fn before(a: Seq<char>, b: Seq<char>) -> bool
    decreases a.len(),
{
    if b.len() == 0 {
        false
    } else if a.len() == 0 {
        true
    } else if a[0] == b[0] {
        before(a.skip(1), b.skip(1))
    } else {
        a[0] < b[0]
    }
}

/// Texts are ordered: of two different ones exactly one comes before the other.
pub proof fn lemma_before_total(a: Seq<char>, b: Seq<char>)
    ensures
        before(a, b) ==> !before(b, a),
        !before(a, b) && !before(b, a) ==> a == b,
        !before(a, a),
    decreases a.len(),
{
    if a.len() > 0 {
        lemma_before_total(a.skip(1), a.skip(1));
        if b.len() > 0 && a[0] == b[0] {
            lemma_before_total(a.skip(1), b.skip(1));
            if !before(a, b) && !before(b, a) {
                assert(a =~= seq![a[0]] + a.skip(1));
                assert(b =~= seq![b[0]] + b.skip(1));
            }
        }
    } else if b.len() == 0 {
        assert(a =~= b);
    }
}

/// The order of texts is transitive.
pub proof fn lemma_before_transitive(a: Seq<char>, b: Seq<char>, c: Seq<char>)
    requires
        before(a, b),
        before(b, c),
    ensures
        before(a, c),
    decreases a.len(),
{
    if a.len() > 0 && a[0] == b[0] && b[0] == c[0] {
        lemma_before_transitive(a.skip(1), b.skip(1), c.skip(1));
    }
}

/// Whether a text comes before another.
pub fn comes_before(a: &str, b: &str) -> (r: bool)
    ensures
        r == before(a@, b@),
{
    let x: Vec<char> = to_chars(a);
    let y: Vec<char> = to_chars(b);
    let mut i: usize = 0;
    proof {
        assert(x@.skip(0) =~= x@);
        assert(y@.skip(0) =~= y@);
    }
    while i < x.len() && i < y.len()
        invariant
            i <= x@.len(),
            i <= y@.len(),
            x@ == a@,
            y@ == b@,
            before(a@, b@) == before(x@.skip(i as int), y@.skip(i as int)),
        decreases x@.len() - i,
    {
        if x[i] != y[i] {
            return x[i] < y[i];
        }
        proof {
            assert(x@.skip(i as int).skip(1) =~= x@.skip(i + 1));
            assert(y@.skip(i as int).skip(1) =~= y@.skip(i + 1));
        }
        i += 1;
    }
    i < y.len()
}

/// A key of three texts that is ordered by the first one in which two keys differ.
#[verifier::ext_equal]
pub struct KeyModel {
    pub first: Seq<char>,
    pub second: Seq<char>,
    pub third: Seq<char>,
}

impl KeyModel {
    /// Whether a key comes before another.
    pub open spec fn less(self, other: KeyModel) -> bool {
        ||| before(self.first, other.first)
        ||| self.first == other.first && before(self.second, other.second)
        ||| self.first == other.first && self.second == other.second && before(
            self.third,
            other.third,
        )
    }
}

/// Whether a key does not come after another.
pub open spec fn key_order() -> spec_fn(KeyModel, KeyModel) -> bool {
    |a: KeyModel, b: KeyModel| !b.less(a)
}

/// Of two different keys exactly one comes before the other, and the order is transitive.
pub proof fn lemma_key_order()
    ensures
        total_ordering(key_order()),
{
    let le = key_order();
    assert forall|a: KeyModel| #[trigger] le(a, a) by {
        lemma_before_total(a.first, a.first);
        lemma_before_total(a.second, a.second);
        lemma_before_total(a.third, a.third);
    }
    assert forall|a: KeyModel, b: KeyModel| #[trigger] le(a, b) && #[trigger] le(b, a) implies a
        == b by {
        lemma_before_total(a.first, b.first);
        lemma_before_total(a.second, b.second);
        lemma_before_total(a.third, b.third);
        assert(a =~= b);
    }
    assert forall|a: KeyModel, b: KeyModel| #[trigger] le(a, b) || #[trigger] le(b, a) by {
        lemma_before_total(a.first, b.first);
        lemma_before_total(a.second, b.second);
        lemma_before_total(a.third, b.third);
    }
    assert forall|a: KeyModel, b: KeyModel, c: KeyModel| #[trigger] le(a, b) && #[trigger] le(
        b,
        c,
    ) implies le(a, c) by {
        lemma_le_transitive(a, b, c);
    }
}

/// The order of keys is transitive.
proof fn lemma_le_transitive(a: KeyModel, b: KeyModel, c: KeyModel)
    requires
        !b.less(a),
        !c.less(b),
    ensures
        !c.less(a),
{
    lemma_before_total(a.first, b.first);
    lemma_before_total(b.first, c.first);
    lemma_before_total(a.first, c.first);
    lemma_before_total(a.second, b.second);
    lemma_before_total(b.second, c.second);
    lemma_before_total(a.second, c.second);
    lemma_before_total(a.third, b.third);
    lemma_before_total(b.third, c.third);
    lemma_before_total(a.third, c.third);
    if before(a.first, b.first) && before(b.first, c.first) {
        lemma_before_transitive(a.first, b.first, c.first);
    }
    if before(a.second, b.second) && before(b.second, c.second) {
        lemma_before_transitive(a.second, b.second, c.second);
    }
    if before(a.third, b.third) && before(b.third, c.third) {
        lemma_before_transitive(a.third, b.third, c.third);
    }
}

/// A sorted sequence with one more key, behind those that it does not come before.
pub open spec fn inserted(s: Seq<KeyModel>, key: KeyModel) -> Seq<KeyModel>
    decreases s.len(),
{
    if s.len() == 0 || !key.less(s.last()) {
        s.push(key)
    } else {
        inserted(s.drop_last(), key).push(s.last())
    }
}

/// The keys in their order.
pub open spec fn sorted(s: Seq<KeyModel>) -> Seq<KeyModel>
    decreases s.len(),
{
    if s.len() == 0 {
        s
    } else {
        inserted(sorted(s.drop_last()), s.last())
    }
}

/// Positions in the order of the keys there, with one more position behind those whose keys its
/// own does not come before.
pub open spec fn index_inserted(order: Seq<int>, keys: Seq<KeyModel>, x: int) -> Seq<int>
    decreases order.len(),
{
    if order.len() == 0 || !keys[x].less(keys[order.last()]) {
        order.push(x)
    } else {
        index_inserted(order.drop_last(), keys, x).push(order.last())
    }
}

/// The first `n` positions in the order of the keys there; positions with the same key stay in
/// their order.
pub open spec fn order_of(keys: Seq<KeyModel>, n: int) -> Seq<int>
    decreases n,
{
    if n <= 0 {
        seq![]
    } else {
        index_inserted(order_of(keys, n - 1), keys, n - 1)
    }
}

/// Inserting a position keeps the others, adds it once, and commutes with reading the keys.
proof fn lemma_index_inserted(order: Seq<int>, keys: Seq<KeyModel>, x: int)
    requires
        0 <= x < keys.len(),
        forall|i: int| 0 <= i < order.len() ==> 0 <= #[trigger] order[i] < x,
        order.no_duplicates(),
    ensures
        ({
            let r = index_inserted(order, keys, x);
            &&& r.len() == order.len() + 1
            &&& forall|i: int| 0 <= i < r.len() ==> 0 <= #[trigger] r[i] <= x
            &&& r.no_duplicates()
            &&& r.contains(x)
            &&& forall|i: int| 0 <= i < order.len() ==> r.contains(#[trigger] order[i])
            &&& r.map_values(|i: int| keys[i]) == inserted(
                order.map_values(|i: int| keys[i]),
                keys[x],
            )
        }),
    decreases order.len(),
{
    let f = |i: int| keys[i];
    let r = index_inserted(order, keys, x);
    if order.len() == 0 || !keys[x].less(keys[order.last()]) {
        assert(r[order.len() as int] == x);
        assert forall|i: int| 0 <= i < order.len() implies r.contains(#[trigger] order[i]) by {
            assert(r[i] == order[i]);
        }
        assert(r.map_values(f) =~= order.map_values(f).push(keys[x]));
        if order.len() > 0 {
            assert(order.map_values(f).last() == keys[order.last()]);
        }
    } else {
        let init = order.drop_last();
        assert forall|i: int| 0 <= i < init.len() implies 0 <= #[trigger] init[i] < x by {
            assert(init[i] == order[i]);
        }
        lemma_index_inserted(init, keys, x);
        let ri = index_inserted(init, keys, x);
        assert(r == ri.push(order.last()));
        assert forall|i: int| 0 <= i < r.len() implies 0 <= #[trigger] r[i] <= x by {
            if i < ri.len() {
                assert(r[i] == ri[i]);
            }
        }
        lemma_index_members(init, keys, x);
        assert(r.no_duplicates()) by {
            assert forall|i: int, j: int| 0 <= i < j < r.len() implies r[i] != r[j] by {
                if j == ri.len() {
                    if ri[i] == order.last() {
                        assert(ri.contains(ri[i]));
                        assert(init.contains(order.last()) || order.last() == x);
                        let k = choose|k: int| 0 <= k < init.len() && init[k] == order.last();
                        assert(order[k] == order[order.len() - 1]);
                    }
                }
            }
        }
        assert(r.contains(x)) by {
            let k = choose|k: int| 0 <= k < ri.len() && ri[k] == x;
            assert(r[k] == x);
        }
        assert forall|i: int| 0 <= i < order.len() implies r.contains(#[trigger] order[i]) by {
            if i < init.len() {
                assert(init[i] == order[i]);
                let k = choose|k: int| 0 <= k < ri.len() && ri[k] == init[i];
                assert(r[k] == order[i]);
            } else {
                assert(r[ri.len() as int] == order[i]);
            }
        }
        let mapped = order.map_values(f);
        assert(mapped.drop_last() =~= init.map_values(f));
        assert(mapped.last() == keys[order.last()]);
        assert(r.map_values(f) =~= ri.map_values(f).push(keys[order.last()]));
    }
}

/// What is in a sequence of positions after one has been inserted was there before or is it.
proof fn lemma_index_members(order: Seq<int>, keys: Seq<KeyModel>, x: int)
    ensures
        forall|y: int|
            #[trigger] index_inserted(order, keys, x).contains(y) ==> order.contains(y) || y == x,
    decreases order.len(),
{
    let r = index_inserted(order, keys, x);
    if order.len() == 0 || !keys[x].less(keys[order.last()]) {
        assert forall|y: int| #[trigger] r.contains(y) implies order.contains(y) || y == x by {
            let k = choose|k: int| 0 <= k < r.len() && r[k] == y;
            if k < order.len() {
                assert(order[k] == y);
            }
        }
    } else {
        let init = order.drop_last();
        lemma_index_members(init, keys, x);
        let ri = index_inserted(init, keys, x);
        assert forall|y: int| #[trigger] r.contains(y) implies order.contains(y) || y == x by {
            let k = choose|k: int| 0 <= k < r.len() && r[k] == y;
            if k < ri.len() {
                assert(ri[k] == y);
                assert(ri.contains(y));
                if init.contains(y) {
                    let m = choose|m: int| 0 <= m < init.len() && init[m] == y;
                    assert(order[m] == y);
                }
            } else {
                assert(order[order.len() - 1] == y);
            }
        }
    }
}

/// The order of positions is a permutation of them, and reading the keys in it sorts them.
pub proof fn lemma_order_of(keys: Seq<KeyModel>, n: int)
    requires
        0 <= n <= keys.len(),
    ensures
        ({
            let r = order_of(keys, n);
            &&& r.len() == n
            &&& r.no_duplicates()
            &&& forall|i: int| 0 <= i < r.len() ==> 0 <= #[trigger] r[i] < n
            &&& forall|i: int| 0 <= i < n ==> r.contains(i)
            &&& r.map_values(|i: int| keys[i]) == sorted(keys.take(n))
        }),
    decreases n,
{
    let f = |i: int| keys[i];
    if n > 0 {
        let p = order_of(keys, n - 1);
        lemma_order_of(keys, n - 1);
        lemma_index_inserted(p, keys, n - 1);
        let r = order_of(keys, n);
        assert forall|i: int| 0 <= i < n implies r.contains(i) by {
            if i < n - 1 {
                assert(p.contains(i));
                let k = choose|k: int| 0 <= k < p.len() && p[k] == i;
                assert(r.contains(p[k]));
            }
        }
        assert(keys.take(n).drop_last() =~= keys.take(n - 1));
        assert(keys.take(n).last() == keys[n - 1]);
    } else {
        assert(order_of(keys, n).map_values(f) =~= sorted(keys.take(n)));
    }
}

/// Sorting keys keeps them all, as often as they occur, and puts them in their order.
pub proof fn lemma_sorted(s: Seq<KeyModel>)
    ensures
        sorted(s).to_multiset() == s.to_multiset(),
        vstd::relations::sorted_by(sorted(s), key_order()),
        sorted(s).len() == s.len(),
    decreases s.len(),
{
    broadcast use vstd::seq_lib::group_to_multiset_ensures;

    if s.len() > 0 {
        let init = sorted(s.drop_last());
        lemma_sorted(s.drop_last());
        lemma_inserted(init, s.last());
        assert(s =~= s.drop_last().push(s.last()));
    }
}

/// Inserting a key into a sorted sequence keeps it sorted and adds the key.
proof fn lemma_inserted(s: Seq<KeyModel>, key: KeyModel)
    requires
        sorted_by(s, key_order()),
    ensures
        inserted(s, key).to_multiset() == s.to_multiset().insert(key),
        sorted_by(inserted(s, key), key_order()),
        inserted(s, key).len() == s.len() + 1,
        forall|i: int|
            0 <= i < inserted(s, key).len() ==> #[trigger] inserted(s, key)[i] == key
                || s.contains(inserted(s, key)[i]),
    decreases s.len(),
{
    broadcast use vstd::seq_lib::group_to_multiset_ensures;

    lemma_key_order();
    let le = key_order();
    let r = inserted(s, key);
    if s.len() == 0 || !key.less(s.last()) {
        assert forall|i: int, j: int| 0 <= i < j < r.len() implies #[trigger] le(r[i], r[j]) by {
            if j == s.len() {
                if i < s.len() - 1 {
                    assert(le(s[i], s[s.len() - 1]));
                }
                assert(le(s[s.len() - 1], key));
                assert(le(s[i], s[s.len() - 1]));
            } else {
                assert(le(s[i], s[j]));
            }
        }
        assert forall|i: int| 0 <= i < r.len() implies #[trigger] r[i] == key || s.contains(
            r[i],
        ) by {
            if i < s.len() {
                assert(s[i] == r[i]);
            }
        }
    } else {
        let init = s.drop_last();
        assert(sorted_by(init, le)) by {
            assert forall|i: int, j: int| 0 <= i < j < init.len() implies #[trigger] le(
                init[i],
                init[j],
            ) by {
                assert(le(s[i], s[j]));
            }
        }
        lemma_inserted(init, key);
        let ri = inserted(init, key);
        assert(s =~= init.push(s.last()));
        assert(r.to_multiset() =~= s.to_multiset().insert(key)) by {
            assert(r.to_multiset() =~= ri.to_multiset().insert(s.last()));
            assert(s.to_multiset() =~= init.to_multiset().insert(s.last()));
        }
        assert forall|i: int, j: int| 0 <= i < j < r.len() implies #[trigger] le(r[i], r[j]) by {
            if j == ri.len() {
                assert(r[i] == ri[i]);
                if ri[i] != key {
                    assert(init.contains(ri[i]));
                    let k = choose|k: int| 0 <= k < init.len() && init[k] == ri[i];
                    assert(le(s[k], s[s.len() - 1]));
                } else {
                    assert(le(key, s.last()) || le(s.last(), key));
                }
            } else {
                assert(le(ri[i], ri[j]));
            }
        }
        assert forall|i: int| 0 <= i < r.len() implies #[trigger] r[i] == key || s.contains(
            r[i],
        ) by {
            if i < ri.len() {
                assert(r[i] == ri[i]);
                if ri[i] != key {
                    assert(init.contains(ri[i]));
                    let k = choose|k: int| 0 <= k < init.len() && init[k] == ri[i];
                    assert(s[k] == r[i]);
                }
            } else {
                assert(s[s.len() - 1] == r[i]);
            }
        }
    }
}

/// The same keys in any order are sorted to the same sequence.
pub proof fn sorting_forgets_the_order(a: Seq<KeyModel>, b: Seq<KeyModel>)
    requires
        a.to_multiset() == b.to_multiset(),
    ensures
        sorted(a) == sorted(b),
{
    lemma_key_order();
    lemma_sorted(a);
    lemma_sorted(b);
    vstd::seq_lib::lemma_sorted_unique(sorted(a), sorted(b), key_order());
}

/// A key of three texts.
#[derive(Debug, PartialEq, Eq)]
pub struct Key {
    pub first: String,
    pub second: String,
    pub third: String,
}

impl View for Key {
    type V = KeyModel;

    open spec fn view(&self) -> KeyModel {
        KeyModel { first: self.first@, second: self.second@, third: self.third@ }
    }
}

impl Key {
    /// Whether a key comes before another.
    pub fn is_less(&self, other: &Key) -> (r: bool)
        ensures
            r == self@.less(other@),
    {
        if comes_before(self.first.as_str(), other.first.as_str()) {
            return true;
        }
        if !str_eq(self.first.as_str(), other.first.as_str()) {
            return false;
        }
        if comes_before(self.second.as_str(), other.second.as_str()) {
            return true;
        }
        if !str_eq(self.second.as_str(), other.second.as_str()) {
            return false;
        }
        comes_before(self.third.as_str(), other.third.as_str())
    }
}

/// The models of a list of keys.
pub open spec fn key_models(keys: Seq<Key>) -> Seq<KeyModel> {
    keys.map_values(|k: Key| k@)
}

/// Positions as integers.
pub open spec fn as_ints(order: Seq<usize>) -> Seq<int> {
    order.map_values(|i: usize| i as int)
}

/// A position is inserted before those whose keys its own comes before.
proof fn lemma_insert_at(order: Seq<int>, keys: Seq<KeyModel>, x: int, at: int)
    requires
        0 <= at <= order.len(),
        forall|k: int| at <= k < order.len() ==> keys[x].less(keys[#[trigger] order[k]]),
        at > 0 ==> !keys[x].less(keys[order[at - 1]]),
    ensures
        index_inserted(order, keys, x) == order.insert(at, x),
    decreases order.len(),
{
    if at == order.len() {
        assert(order.insert(at, x) =~= order.push(x));
    } else {
        assert(keys[x].less(keys[order[order.len() - 1]]));
        let init = order.drop_last();
        assert forall|k: int| at <= k < init.len() implies keys[x].less(
            keys[#[trigger] init[k]],
        ) by {
            assert(init[k] == order[k]);
        }
        if at > 0 {
            assert(init[at - 1] == order[at - 1]);
        }
        lemma_insert_at(init, keys, x, at);
        assert(order.insert(at, x) =~= init.insert(at, x).push(order.last()));
    }
}

/// The positions of the keys in their order; positions with the same key stay in their order.
pub fn order_by(keys: &Vec<Key>) -> (r: Vec<usize>)
    ensures
        as_ints(r@) == order_of(key_models(keys@), keys@.len() as int),
{
    let ghost models = key_models(keys@);
    let mut order: Vec<usize> = Vec::new();
    let mut x: usize = 0;
    proof {
        assert(as_ints(order@) =~= order_of(models, 0));
    }
    while x < keys.len()
        invariant
            x <= keys@.len(),
            models == key_models(keys@),
            as_ints(order@) == order_of(models, x as int),
        decreases keys@.len() - x,
    {
        proof {
            lemma_order_of(models, x as int);
            assert(as_ints(order@).len() == order@.len());
            assert forall|i: int| 0 <= i < order@.len() implies (#[trigger] order@[i]) < x by {
                assert(as_ints(order@)[i] == order@[i] as int);
            }
        }
        let mut at: usize = order.len();
        while at > 0 && keys[x].is_less(&keys[order[at - 1]])
            invariant
                at <= order@.len(),
                order@.len() == x,
                x < keys@.len(),
                models == key_models(keys@),
                as_ints(order@) == order_of(models, x as int),
                forall|i: int| 0 <= i < order@.len() ==> (#[trigger] order@[i]) < x,
                forall|k: int|
                    at <= k < order@.len() ==> models[x as int].less(
                        models[#[trigger] as_ints(order@)[k]],
                    ),
            decreases at,
        {
            proof {
                assert(as_ints(order@)[at - 1] == order@[at - 1] as int);
                assert(models[x as int] == keys@[x as int]@);
                assert(models[order@[at - 1] as int] == keys@[order@[at - 1] as int]@);
            }
            at -= 1;
        }
        proof {
            if at > 0 {
                assert(as_ints(order@)[at - 1] == order@[at - 1] as int);
                assert(models[x as int] == keys@[x as int]@);
                assert(models[order@[at - 1] as int] == keys@[order@[at - 1] as int]@);
            }
            lemma_insert_at(as_ints(order@), models, x as int, at as int);
        }
        let ghost before_insert = order@;
        order.insert(at, x);
        proof {
            assert(as_ints(order@) =~= as_ints(before_insert).insert(at as int, x as int));
        }
        x += 1;
    }
    order
}

} // verus!
