//! Percentile selection over a window of ordered keys: the ascending
//! arrangement of a snapshot, the number of elements that must lie at or
//! above the selected one, and the selection itself.

use vstd::prelude::*;
use vstd::relations::{sorted_by, total_ordering};
use vstd::seq_lib::{
    lemma_sorted_unique,
    to_multiset_build,
    to_multiset_insert,
    to_multiset_len,
    to_multiset_remove,
};

verus! {

/// The order in which keys are arranged: the usual one on unsigned integers.
pub open spec fn at_most() -> spec_fn(u32, u32) -> bool {
    |a: u32, b: u32| a <= b
}

/// Whether no element of `s` is followed by a smaller one.
pub open spec fn is_ascending(s: Seq<u32>) -> bool {
    forall|i: int, j: int| 0 <= i < j < s.len() ==> s[i] <= s[j]
}

/// The elements of `s`, each as often as it occurs there, smallest first.
pub open spec fn ascending(s: Seq<u32>) -> Seq<u32> {
    s.sort_by(at_most())
}

/// `ascending(s)` is in ascending order and holds exactly the elements of `s`.
pub proof fn lemma_ascending(s: Seq<u32>)
    ensures
        is_ascending(ascending(s)),
        ascending(s).to_multiset() == s.to_multiset(),
        ascending(s).len() == s.len(),
{
    assert(total_ordering(at_most()));
    s.lemma_sort_by_ensures(at_most());
    let a = ascending(s);
    assert(sorted_by(a, at_most()));
    assert forall|i: int, j: int| 0 <= i < j < a.len() implies a[i] <= a[j] by {
        assert(at_most()(a[i], a[j]));
    }
    a.to_multiset_ensures();
    s.to_multiset_ensures();
}

/// An ascending sequence with the elements of `s` is `ascending(s)`: there is no other.
pub proof fn lemma_ascending_unique(s: Seq<u32>, t: Seq<u32>)
    requires
        is_ascending(t),
        t.to_multiset() == s.to_multiset(),
    ensures
        t == ascending(s),
{
    assert(total_ordering(at_most()));
    s.lemma_sort_by_ensures(at_most());
    assert(sorted_by(t, at_most()));
    lemma_sorted_unique(t, ascending(s), at_most());
}

/// The first position of the ascending `sorted` at which a key greater than `key` stands
/// (its length where there is none).
fn insertion_point(sorted: &Vec<u32>, key: u32) -> (at: usize)
    requires
        is_ascending(sorted@),
    ensures
        at <= sorted@.len(),
        forall|i: int| 0 <= i < at ==> sorted@[i] <= key,
        forall|i: int| at <= i < sorted@.len() ==> key < sorted@[i],
{
    let mut low: usize = 0;
    let mut high: usize = sorted.len();
    while low < high
        invariant
            low <= high <= sorted@.len(),
            is_ascending(sorted@),
            forall|i: int| 0 <= i < low ==> sorted@[i] <= key,
            forall|i: int| high <= i < sorted@.len() ==> key < sorted@[i],
        decreases high - low,
    {
        let middle: usize = low + (high - low) / 2;
        if sorted[middle] <= key {
            low = middle + 1;
        } else {
            high = middle;
        }
    }
    low
}

/// The keys of `values` in ascending order; `values` itself is left as it is.
pub fn sorted_copy(values: &Vec<u32>) -> (sorted: Vec<u32>)
    ensures
        sorted@ == ascending(values@),
{
    let n: usize = values.len();
    let mut sorted: Vec<u32> = Vec::with_capacity(n);
    let mut taken: usize = 0;
    assert(values@.take(0) =~= sorted@);
    while taken < n
        invariant
            n == values@.len(),
            taken <= n,
            is_ascending(sorted@),
            sorted@.len() == taken,
            sorted@.to_multiset() == values@.take(taken as int).to_multiset(),
        decreases n - taken,
    {
        let key: u32 = values[taken];
        let at: usize = insertion_point(&sorted, key);
        proof {
            to_multiset_insert(sorted@, at as int, key);
            to_multiset_build(values@.take(taken as int), key);
            assert(values@.take(taken + 1) =~= values@.take(taken as int).push(key));
        }
        sorted.insert(at, key);
        taken = taken + 1;
    }
    proof {
        assert(values@.take(n as int) =~= values@);
        lemma_ascending_unique(values@, sorted@);
    }
    sorted
}

/// The number of elements that must lie at or above the selected one: the
/// given fraction of the capacity, rounded down.
pub open spec fn target_count_of(capacity: nat, numerator: nat, denominator: nat) -> nat {
    (capacity * numerator) / denominator
}

/// Computes `target_count_of` for a fraction of at most one.
pub fn target_count(capacity: usize, numerator: u32, denominator: u32) -> (count: usize)
    requires
        0 < denominator,
        numerator <= denominator,
    ensures
        count == target_count_of(capacity as nat, numerator as nat, denominator as nat),
        count <= capacity,
{
    assert(capacity * numerator <= 0xffff_ffff_ffff_ffff * 0xffff_ffff) by (nonlinear_arith)
        requires
            0 <= capacity <= 0xffff_ffff_ffff_ffff,
            0 <= numerator <= 0xffff_ffff,
    ;
    let product: u128 = (capacity as u128) * (numerator as u128);
    let quotient: u128 = product / (denominator as u128);
    assert(quotient <= capacity) by (nonlinear_arith)
        requires
            quotient == (capacity * numerator) / (denominator as int),
            0 < denominator,
            0 <= numerator <= denominator,
            0 <= capacity,
    ;
    quotient as usize
}

/// The element selected from a snapshot: the one that stands `target`
/// places before the end of the ascending arrangement, where the
/// snapshot holds more than `target` elements; none where it does not,
/// and none for a target of zero, which no element can meet.
pub open spec fn pivot_of(s: Seq<u32>, target: nat) -> Option<u32> {
    if 0 < target < s.len() {
        Some(ascending(s)[s.len() - target])
    } else {
        None
    }
}

/// The selected element where it exceeds `threshold`; none where nothing is
/// selected or the selected element is at or below `threshold`.
pub open spec fn active_pivot_of(s: Seq<u32>, target: nat, threshold: u32) -> Option<u32> {
    match pivot_of(s, target) {
        Some(p) => if p > threshold {
            Some(p)
        } else {
            None
        },
        None => None,
    }
}

/// Selects the pivot of `values` for the given target count.
pub fn select_pivot(values: &Vec<u32>, target: usize) -> (pivot: Option<u32>)
    ensures
        pivot == pivot_of(values@, target as nat),
{
    let n: usize = values.len();
    if 0 < target && target < n {
        let sorted = sorted_copy(values);
        proof {
            lemma_ascending(values@);
        }
        Some(sorted[n - target])
    } else {
        None
    }
}

/// Selects the pivot of `values` and suppresses it at or below `threshold`.
pub fn select_active_pivot(values: &Vec<u32>, target: usize, threshold: u32) -> (pivot: Option<u32>)
    ensures
        pivot == active_pivot_of(values@, target as nat, threshold),
{
    match select_pivot(values, target) {
        Some(p) => if p > threshold {
            Some(p)
        } else {
            None
        },
        None => None,
    }
}

/// A selected element is one of the snapshot's elements.
pub proof fn lemma_pivot_is_element(s: Seq<u32>, target: nat)
    requires
        0 < target < s.len(),
    ensures
        pivot_of(s, target) matches Some(p) && s.contains(p),
{
    lemma_ascending(s);
    let a = ascending(s);
    let p = a[s.len() - target];
    assert(a.contains(p));
    a.to_multiset_ensures();
    s.to_multiset_ensures();
    assert(a.to_multiset().count(p) > 0);
    assert(s.to_multiset().count(p) > 0);
}

/// The keys above `key`.
pub open spec fn above(key: u32) -> spec_fn(u32) -> bool {
    |v: u32| v > key
}

/// The keys at or above `key`.
pub open spec fn at_or_above(key: u32) -> spec_fn(u32) -> bool {
    |v: u32| v >= key
}

/// The number of elements of `s`, each counted as often as it occurs, of which `wanted` holds.
pub open spec fn count_where(s: Seq<u32>, wanted: spec_fn(u32) -> bool) -> nat
    decreases s.len(),
{
    if s.len() == 0 {
        0
    } else {
        count_where(s.drop_last(), wanted) + if wanted(s.last()) {
            1nat
        } else {
            0nat
        }
    }
}

/// Taking one element out lowers the count by one where `wanted` holds of it, and not otherwise.
proof fn lemma_count_remove(s: Seq<u32>, wanted: spec_fn(u32) -> bool, at: int)
    requires
        0 <= at < s.len(),
    ensures
        count_where(s, wanted) == count_where(s.remove(at), wanted) + if wanted(s[at]) {
            1nat
        } else {
            0nat
        },
    decreases s.len(),
{
    if at == s.len() - 1 {
        assert(s.remove(at) =~= s.drop_last());
    } else {
        lemma_count_remove(s.drop_last(), wanted, at);
        assert(s.remove(at).drop_last() =~= s.drop_last().remove(at));
        assert(s.remove(at).last() == s.last());
    }
}

/// The count does not depend on the order of the elements.
proof fn lemma_count_rearranged(s: Seq<u32>, t: Seq<u32>, wanted: spec_fn(u32) -> bool)
    requires
        s.to_multiset() == t.to_multiset(),
    ensures
        count_where(s, wanted) == count_where(t, wanted),
    decreases s.len(),
{
    to_multiset_len(s);
    to_multiset_len(t);
    if s.len() > 0 {
        let x = s.last();
        s.to_multiset_ensures();
        t.to_multiset_ensures();
        assert(s.contains(x));
        assert(t.to_multiset().count(x) > 0);
        assert(t.contains(x));
        let at = choose|at: int| 0 <= at < t.len() && t[at] == x;
        to_multiset_remove(s, s.len() - 1);
        to_multiset_remove(t, at);
        assert(s.remove(s.len() - 1) =~= s.drop_last());
        lemma_count_rearranged(s.drop_last(), t.remove(at), wanted);
        lemma_count_remove(t, wanted, at);
    }
}

/// Where `wanted` holds of every element from position `from` on, it holds
/// of at least as many elements as stand there.
proof fn lemma_count_at_least(s: Seq<u32>, wanted: spec_fn(u32) -> bool, from: int)
    requires
        0 <= from <= s.len(),
        forall|i: int| from <= i < s.len() ==> wanted(#[trigger] s[i]),
    ensures
        count_where(s, wanted) >= s.len() - from,
    decreases s.len(),
{
    if from < s.len() {
        lemma_count_at_least(s.drop_last(), wanted, from);
    }
}

/// Where `wanted` holds of no element before position `from`, it holds of
/// at most as many elements as stand from there on.
proof fn lemma_count_at_most(s: Seq<u32>, wanted: spec_fn(u32) -> bool, from: int)
    requires
        0 <= from <= s.len(),
        forall|i: int| 0 <= i < from ==> !wanted(#[trigger] s[i]),
    ensures
        count_where(s, wanted) <= s.len() - from,
    decreases s.len(),
{
    if s.len() > 0 {
        if from == s.len() {
            lemma_count_at_most(s.drop_last(), wanted, from - 1);
        } else {
            lemma_count_at_most(s.drop_last(), wanted, from);
        }
    }
}

/// The selected element is the one that the target count asks for: at
/// least `target` elements of the snapshot lie at or above it, and fewer
/// than `target` lie above it. Where no two elements are equal, this says
/// that exactly `target` elements lie at or above it.
pub proof fn lemma_pivot_rank(s: Seq<u32>, target: nat)
    requires
        0 < target < s.len(),
    ensures
        pivot_of(s, target) matches Some(p) && s.contains(p) && count_where(s, at_or_above(p))
            >= target && count_where(s, above(p)) < target,
{
    lemma_pivot_is_element(s, target);
    lemma_ascending(s);
    let a = ascending(s);
    let at = s.len() - target;
    let p = a[at];
    assert forall|i: int| at <= i < a.len() implies at_or_above(p)(#[trigger] a[i]) by {
        if at < i {
            assert(a[at] <= a[i]);
        }
    }
    lemma_count_at_least(a, at_or_above(p), at);
    assert forall|i: int| 0 <= i < at + 1 implies !above(p)(#[trigger] a[i]) by {
        if i < at {
            assert(a[i] <= a[at]);
        }
    }
    lemma_count_at_most(a, above(p), at + 1);
    lemma_count_rearranged(s, a, at_or_above(p));
    lemma_count_rearranged(s, a, above(p));
}

/// A window in which no magnitude exceeds the threshold yields no pivot,
/// however full it is.
pub proof fn lemma_quiet_window_has_no_pivot(s: Seq<u32>, target: nat, threshold: u32)
    requires
        forall|i: int| 0 <= i < s.len() ==> s[i] <= threshold,
    ensures
        active_pivot_of(s, target, threshold) is None,
{
    if 0 < target < s.len() {
        lemma_pivot_is_element(s, target);
    }
}

} // verus!
