//! Searching and filtering sequences.

use vstd::prelude::*;

verus! {

/// The first element with a property.
pub open spec fn first_where<T>(s: Seq<T>, p: spec_fn(T) -> bool) -> Option<T>
    decreases s.len(),
{
    if s.len() == 0 {
        None
    } else if p(s[0]) {
        Some(s[0])
    } else {
        first_where(s.skip(1), p)
    }
}

/// Where a sequence has an element with a property, the first one is in it and has it.
pub proof fn lemma_first_where<T>(s: Seq<T>, p: spec_fn(T) -> bool)
    ensures
        first_where(s, p) matches Some(x) ==> s.contains(x) && p(x),
        first_where(s, p) is None ==> forall|i: int| 0 <= i < s.len() ==> !p(#[trigger] s[i]),
    decreases s.len(),
{
    if s.len() > 0 {
        if p(s[0]) {
            assert(s.contains(s[0]));
        } else {
            lemma_first_where(s.skip(1), p);
            match first_where(s, p) {
                Some(x) => {
                    let j = choose|j: int| 0 <= j < s.skip(1).len() && s.skip(1)[j] == x;
                    assert(s[j + 1] == x);
                },
                None => {
                    assert forall|i: int| 0 <= i < s.len() implies !p(#[trigger] s[i]) by {
                        if i > 0 {
                            assert(s.skip(1)[i - 1] == s[i]);
                        }
                    }
                },
            }
        }
    }
}

/// Elements without the property in front do not change what is found.
pub proof fn lemma_first_where_skip<T>(s: Seq<T>, p: spec_fn(T) -> bool, n: int)
    requires
        0 <= n <= s.len(),
        forall|i: int| 0 <= i < n ==> !p(#[trigger] s[i]),
    ensures
        first_where(s, p) == first_where(s.skip(n), p),
    decreases n,
{
    if n > 0 {
        assert forall|i: int| 0 <= i < n - 1 implies !p(#[trigger] s.skip(1)[i]) by {
            assert(s.skip(1)[i] == s[i + 1]);
        }
        assert(!p(s[0]));
        lemma_first_where_skip(s.skip(1), p, n - 1);
        assert(s.skip(1).skip(n - 1) =~= s.skip(n));
    } else {
        assert(s.skip(0) =~= s);
    }
}

/// What is found in a sequence is found in it with more elements behind.
pub proof fn lemma_first_where_push<T>(s: Seq<T>, p: spec_fn(T) -> bool, x: T)
    ensures
        first_where(s.push(x), p) == if first_where(s, p) is Some {
            first_where(s, p)
        } else if p(x) {
            Some(x)
        } else {
            None
        },
    decreases s.len(),
{
    if s.len() == 0 {
        assert(s.push(x)[0] == x);
        assert(first_where(s.push(x).skip(1), p) is None);
    } else {
        assert(s.push(x)[0] == s[0]);
        assert(s.push(x).skip(1) =~= s.skip(1).push(x));
        lemma_first_where_push(s.skip(1), p, x);
    }
}

/// The filter of a sequence with one more element.
pub proof fn lemma_filter_push<T>(s: Seq<T>, p: spec_fn(T) -> bool, x: T)
    ensures
        s.push(x).filter(p) == if p(x) {
            s.filter(p).push(x)
        } else {
            s.filter(p)
        },
{
    reveal(Seq::filter);
    assert(s.push(x).drop_last() =~= s);
}

/// The filter of the first elements of a sequence, one more of them.
pub proof fn lemma_filter_take<T>(s: Seq<T>, p: spec_fn(T) -> bool, i: int)
    requires
        0 <= i < s.len(),
    ensures
        s.take(i + 1).filter(p) == if p(s[i]) {
            s.take(i).filter(p).push(s[i])
        } else {
            s.take(i).filter(p)
        },
{
    assert(s.take(i + 1) =~= s.take(i).push(s[i]));
    lemma_filter_push(s.take(i), p, s[i]);
}

/// What a filter keeps is in the sequence and has the property, and all such elements are kept.
pub proof fn lemma_filter_contains<T>(s: Seq<T>, p: spec_fn(T) -> bool)
    ensures
        forall|i: int|
            0 <= i < s.filter(p).len() ==> p(#[trigger] s.filter(p)[i]) && s.contains(
                s.filter(p)[i],
            ),
        forall|i: int|
            0 <= i < s.len() && p(#[trigger] s[i]) ==> s.filter(p).contains(s[i]),
        s.filter(p).len() <= s.len(),
    decreases s.len(),
{
    reveal(Seq::filter);
    if s.len() > 0 {
        let init = s.drop_last();
        lemma_filter_contains(init, p);
        assert forall|i: int| 0 <= i < s.filter(p).len() implies p(#[trigger] s.filter(p)[i])
            && s.contains(s.filter(p)[i]) by {
            if i < init.filter(p).len() {
                assert(s.filter(p)[i] == init.filter(p)[i]);
                let j = choose|j: int| 0 <= j < init.len() && init[j] == init.filter(p)[i];
                assert(s[j] == init[j]);
            } else {
                assert(s.filter(p)[i] == s.last());
            }
        }
        assert forall|i: int| 0 <= i < s.len() && p(#[trigger] s[i]) implies s.filter(p).contains(
            s[i],
        ) by {
            if i < init.len() {
                assert(init[i] == s[i]);
                let j = choose|j: int|
                    0 <= j < init.filter(p).len() && init.filter(p)[j] == init[i];
                assert(s.filter(p)[j] == s[i]);
            } else {
                assert(s.filter(p)[s.filter(p).len() - 1] == s[i]);
            }
        }
    } else {
        assert(s.filter(p).len() == 0);
    }
}

/// A list without a number.
pub fn without(list: &Vec<u64>, number: u64) -> (r: Vec<u64>)
    ensures
        r@ == list@.filter(|n: u64| n != number),
{
    let ghost keep = |n: u64| n != number;
    let mut left: Vec<u64> = Vec::new();
    let mut i: usize = 0;
    proof {
        reveal(Seq::filter);
        assert(left@ =~= list@.take(0).filter(keep));
    }
    while i < list.len()
        invariant
            i <= list@.len(),
            keep == (|n: u64| n != number),
            left@ == list@.take(i as int).filter(keep),
        decreases list@.len() - i,
    {
        proof {
            lemma_filter_take(list@, keep, i as int);
        }
        if list[i] != number {
            left.push(list[i]);
        }
        i += 1;
    }
    assert(list@.take(i as int) =~= list@);
    left
}

/// A copy of a list.
pub fn copied(list: &Vec<u64>) -> (r: Vec<u64>)
    ensures
        r@ == list@,
{
    let mut copy: Vec<u64> = Vec::new();
    let mut i: usize = 0;
    while i < list.len()
        invariant
            i <= list@.len(),
            copy@ =~= list@.take(i as int),
        decreases list@.len() - i,
    {
        copy.push(list[i]);
        i += 1;
    }
    copy
}

/// The first element with a property has it, and none before it does.
pub proof fn the_first_is_before_all_others<T>(s: Seq<T>, p: spec_fn(T) -> bool)
    ensures
        match first_where(s, p) {
            Some(x) => exists|i: int|
                0 <= i < s.len() && #[trigger] s[i] == x && p(s[i]) && forall|j: int|
                    0 <= j < i ==> !p(#[trigger] s[j]),
            None => forall|i: int| 0 <= i < s.len() ==> !p(#[trigger] s[i]),
        },
    decreases s.len(),
{
    if s.len() > 0 && !p(s[0]) {
        let rest = s.skip(1);
        the_first_is_before_all_others(rest, p);
        match first_where(s, p) {
            Some(x) => {
                let k = choose|k: int|
                    0 <= k < rest.len() && #[trigger] rest[k] == x && p(rest[k]) && forall|j: int|
                        0 <= j < k ==> !p(#[trigger] rest[j]);
                assert(s[k + 1] == x);
                assert forall|j: int| 0 <= j < k + 1 implies !p(#[trigger] s[j]) by {
                    if j > 0 {
                        assert(rest[j - 1] == s[j]);
                    }
                }
            },
            None => {
                assert forall|i: int| 0 <= i < s.len() implies !p(#[trigger] s[i]) by {
                    if i > 0 {
                        assert(rest[i - 1] == s[i]);
                    }
                }
            },
        }
    }
}

} // verus!
