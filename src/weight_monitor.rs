use vstd::prelude::*;
use vstd::relations::{sorted_by, total_ordering};
use crate::rounding::{round_div, round_div_i128, lemma_round_div_bounds};

verus! {

/// Ascending order of raw samples.
pub open spec fn ascending() -> spec_fn(i32, i32) -> bool {
    |a: i32, b: i32| a <= b
}

/// The samples in ascending order.
pub open spec fn sorted_samples(s: Seq<i32>) -> Seq<i32> {
    s.sort_by(ascending())
}

/// Sum of a sequence of raw samples.
pub open spec fn seq_sum(s: Seq<i32>) -> int
    decreases s.len(),
{
    if s.len() == 0 {
        0
    } else {
        seq_sum(s.drop_last()) + s.last()
    }
}

/// Number of samples dropped at the low end: `round(0.2 * n)`.
pub open spec fn trim_count(n: int) -> int {
    round_div(n, 5)
}

/// End (exclusive) of the kept part: `max(n - k, k + 1)`, so at least one sample is kept.
pub open spec fn trim_end(n: int) -> int {
    let k = trim_count(n);
    if n - k > k + 1 {
        n - k
    } else {
        k + 1
    }
}

/// Rounded mean of the kept part of an already sorted sequence.
pub open spec fn trimmed_mean_of_sorted(s: Seq<i32>) -> int {
    let k = trim_count(s.len() as int);
    let e = trim_end(s.len() as int);
    round_div(seq_sum(s.subrange(k, e)), e - k)
}

/// The 20%-trimmed mean of the samples, rounded to the nearest integer.
pub open spec fn trimmed_mean(s: Seq<i32>) -> int {
    trimmed_mean_of_sorted(sorted_samples(s))
}

proof fn lemma_ascending_total()
    ensures
        total_ordering(ascending()),
{
}

/// Sorting keeps the multiset of samples.
pub proof fn lemma_sorted_same_multiset(s: Seq<i32>)
    ensures
        sorted_samples(s).to_multiset() == s.to_multiset(),
        sorted_samples(s).len() == s.len(),
{
    broadcast use vstd::seq_lib::group_to_multiset_ensures;
    lemma_ascending_total();
    s.lemma_sort_by_ensures(ascending());
    assert(sorted_samples(s).to_multiset().len() == s.to_multiset().len());
}

proof fn lemma_trim_bounds(n: int)
    requires
        n >= 1,
    ensures
        0 <= trim_count(n) < trim_end(n) <= n,
{
}

proof fn lemma_seq_sum_bounds(s: Seq<i32>)
    ensures
        s.len() * (i32::MIN as int) <= seq_sum(s) <= s.len() * (i32::MAX as int),
    decreases s.len(),
{
    if s.len() > 0 {
        lemma_seq_sum_bounds(s.drop_last());
    }
}

/// Swapping two entries keeps the multiset of values.
proof fn lemma_swap_multiset(s: Seq<i32>, i: int, j: int)
    requires
        0 <= i < s.len(),
        0 <= j < s.len(),
    ensures
        s.update(i, s[j]).update(j, s[i]).to_multiset() =~= s.to_multiset(),
{
    broadcast use vstd::seq_lib::group_to_multiset_ensures;
    vstd::seq_lib::to_multiset_update(s, i, s[j]);
    let t = s.update(i, s[j]);
    vstd::seq_lib::to_multiset_update(t, j, s[i]);
    if i == j {
        assert(t.update(j, s[i]) =~= s);
    } else {
        assert(t[j] == s[j]);
    }
}

proof fn lemma_seq_sum_constant(s: Seq<i32>, c: i32)
    requires
        forall|i: int| 0 <= i < s.len() ==> s[i] == c,
    ensures
        seq_sum(s) == s.len() * c,
    decreases s.len(),
{
    if s.len() > 0 {
        let t = s.drop_last();
        assert forall|i: int| 0 <= i < t.len() implies t[i] == c by {
            assert(t[i] == s[i]);
        }
        lemma_seq_sum_constant(t, c);
        assert(s.len() * c == t.len() * c + c) by (nonlinear_arith)
            requires s.len() == t.len() + 1;
    }
}

/// Samples that all read `c` have trimmed mean `c`.
pub proof fn lemma_trimmed_mean_of_constant(s: Seq<i32>, c: i32)
    requires
        s.len() > 0,
        forall|i: int| 0 <= i < s.len() ==> s[i] == c,
    ensures
        trimmed_mean(s) == c,
{
    broadcast use vstd::seq_lib::group_to_multiset_ensures;
    lemma_sorted_same_multiset(s);
    let t = sorted_samples(s);
    assert forall|i: int| 0 <= i < t.len() implies t[i] == c by {
        assert(t.contains(t[i]));
        assert(t.to_multiset().count(t[i]) > 0);
        assert(s.contains(t[i]));
    }
    let n = s.len() as int;
    lemma_trim_bounds(n);
    let k = trim_count(n);
    let e = trim_end(n);
    let part = t.subrange(k, e);
    assert forall|i: int| 0 <= i < part.len() implies part[i] == c by {
        assert(part[i] == t[k + i]);
    }
    lemma_seq_sum_constant(part, c);
    let len = e - k;
    assert(part.len() == len);
    lemma_round_div_bounds(len * c, len, c as int, c as int);
}

/// The trimmed mean of samples lies in the range of `i32`.
pub proof fn lemma_trimmed_mean_in_range(s: Seq<i32>)
    requires
        s.len() > 0,
    ensures
        i32::MIN <= trimmed_mean(s) <= i32::MAX,
{
    lemma_sorted_same_multiset(s);
    let t = sorted_samples(s);
    let n = s.len() as int;
    lemma_trim_bounds(n);
    let part = t.subrange(trim_count(n), trim_end(n));
    lemma_seq_sum_bounds(part);
    lemma_round_div_bounds(seq_sum(part), trim_end(n) - trim_count(n), i32::MIN as int, i32::MAX as int);
}

/// Sorts the samples in ascending order (insertion sort).
fn sort_ascending(v: &mut Vec<i32>)
    ensures
        final(v)@ == sorted_samples(old(v)@),
{
    let n = v.len();
    let mut i: usize = 1;
    if n == 0 {
        proof {
            lemma_ascending_total();
            old(v)@.lemma_sort_by_ensures(ascending());
            vstd::seq_lib::lemma_sorted_unique(v@, sorted_samples(old(v)@), ascending());
        }
        return;
    }
    while i < n
        invariant
            1 <= i <= n,
            n == v.len(),
            v@.to_multiset() == old(v)@.to_multiset(),
            forall|a: int, b: int| 0 <= a < b < i ==> v[a] <= v[b],
        decreases n - i,
    {
        let mut j: usize = i;
        while j > 0 && v[j - 1] > v[j]
            invariant
                0 <= j <= i < n,
                n == v.len(),
                v@.to_multiset() == old(v)@.to_multiset(),
                forall|a: int, b: int|
                    0 <= a < b <= i && a != j && b != j ==> v[a] <= v[b],
                forall|b: int| j < b <= i ==> v[j as int] <= v[b],
            decreases j,
        {
            let lo = v[j - 1];
            let hi = v[j];
            proof {
                lemma_swap_multiset(v@, j - 1, j as int);
            }
            v.set(j - 1, hi);
            v.set(j, lo);
            j = j - 1;
        }
        i = i + 1;
    }
    proof {
        lemma_ascending_total();
        old(v)@.lemma_sort_by_ensures(ascending());
        assert(sorted_by(v@, ascending()));
        vstd::seq_lib::lemma_sorted_unique(v@, sorted_samples(old(v)@), ascending());
    }
}

/// Computes the 20%-trimmed mean of the samples: sorts them ascending, drops the lowest
/// `k = round(0.2 * n)` and keeps the slice `[k, max(n - k, k + 1))`, whose mean is
/// rounded to the nearest integer. The samples are left sorted.
pub fn calculate_trimmed_mean(samples: &mut Vec<i32>) -> (r: i32)
    requires
        old(samples).len() > 0,
    ensures
        r == trimmed_mean(old(samples)@),
        final(samples)@ == sorted_samples(old(samples)@),
{
    sort_ascending(samples);
    proof {
        broadcast use vstd::seq_lib::group_to_multiset_ensures;
        lemma_ascending_total();
        old(samples)@.lemma_sort_by_ensures(ascending());
        assert(samples@.to_multiset().len() == old(samples)@.to_multiset().len());
    }
    let n = samples.len();
    let k128 = round_div_i128(n as i128, 5);
    proof {
        lemma_trim_bounds(n as int);
    }
    let k = k128 as usize;
    let e: usize = if n - k > k + 1 { n - k } else { k + 1 };
    let mut sum: i128 = 0;
    let mut i: usize = k;
    while i < e
        invariant
            k <= i <= e <= n,
            n == samples.len(),
            sum == seq_sum(samples@.subrange(k as int, i as int)),
            (i - k) * (i32::MIN as int) <= sum <= (i - k) * (i32::MAX as int),
        decreases e - i,
    {
        proof {
            assert(samples@.subrange(k as int, i + 1).drop_last()
                =~= samples@.subrange(k as int, i as int));
        }
        sum = sum + samples[i] as i128;
        i = i + 1;
    }
    let cnt = (e - k) as i128;
    let m = round_div_i128(sum, cnt);
    proof {
        lemma_seq_sum_bounds(samples@.subrange(k as int, e as int));
        lemma_round_div_bounds(sum as int, cnt as int, i32::MIN as int, i32::MAX as int);
    }
    m as i32
}

} // verus!
