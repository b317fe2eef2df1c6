//! Sums and resizing of hit-count sequences.

use vstd::prelude::*;

verus! {

/// The sum of a sequence of counts.
pub open spec fn sum_of(s: Seq<i64>) -> int
    decreases s.len(),
{
    if s.len() == 0 {
        0
    } else {
        sum_of(s.drop_last()) + s.last()
    }
}

/// Every count is at least zero.
pub open spec fn all_nonneg(s: Seq<i64>) -> bool {
    forall|k: int| 0 <= k < s.len() ==> s[k] >= 0
}

/// `s` cut or extended to `n` entries, new entries holding `v`.
pub open spec fn resized(s: Seq<i64>, n: int, v: i64) -> Seq<i64> {
    Seq::new(n as nat, |k: int| if k < s.len() { s[k] } else { v })
}

/// The entry at `i`, or zero where `s` has none.
pub open spec fn entry_or_zero(s: Seq<i64>, i: int) -> i64 {
    if 0 <= i < s.len() {
        s[i]
    } else {
        0
    }
}

pub proof fn lemma_sum_concat(a: Seq<i64>, b: Seq<i64>)
    ensures
        sum_of(a + b) == sum_of(a) + sum_of(b),
    decreases b.len(),
{
    if b.len() == 0 {
        assert(a + b =~= a);
    } else {
        lemma_sum_concat(a, b.drop_last());
        assert((a + b).drop_last() =~= a + b.drop_last());
    }
}

pub proof fn lemma_sum_single(x: i64)
    ensures
        sum_of(seq![x]) == x,
{
    assert(seq![x].drop_last() =~= Seq::<i64>::empty());
    assert(sum_of(Seq::<i64>::empty()) == 0);
}

pub proof fn lemma_sum_nonneg(s: Seq<i64>)
    requires
        all_nonneg(s),
    ensures
        sum_of(s) >= 0,
    decreases s.len(),
{
    if s.len() > 0 {
        lemma_sum_nonneg(s.drop_last());
    }
}

/// A count of a sequence of non-negative counts is at most their sum.
pub proof fn lemma_entry_le_sum(s: Seq<i64>, k: int)
    requires
        all_nonneg(s),
        0 <= k < s.len(),
    ensures
        0 <= s[k] <= sum_of(s),
{
    let a = s.subrange(0, k);
    let b = s.subrange(k + 1, s.len() as int);
    assert(s =~= a + seq![s[k]] + b);
    lemma_sum_concat(a + seq![s[k]], b);
    lemma_sum_concat(a, seq![s[k]]);
    lemma_sum_single(s[k]);
    lemma_sum_nonneg(a);
    lemma_sum_nonneg(b);
}

pub proof fn lemma_sum_zeros(n: nat)
    ensures
        sum_of(Seq::new(n, |k: int| 0i64)) == 0,
    decreases n,
{
    if n > 0 {
        assert(Seq::new(n, |k: int| 0i64).drop_last() =~= Seq::new((n - 1) as nat, |k: int| 0i64));
        lemma_sum_zeros((n - 1) as nat);
    }
}

/// Cutting a sequence of non-negative counts, or extending it with zeros,
/// keeps them non-negative and does not raise their sum.
pub proof fn lemma_resized_zero_sum(s: Seq<i64>, n: nat)
    requires
        all_nonneg(s),
    ensures
        all_nonneg(resized(s, n as int, 0)),
        sum_of(resized(s, n as int, 0)) <= sum_of(s),
        n >= s.len() ==> sum_of(resized(s, n as int, 0)) == sum_of(s),
{
    let r = resized(s, n as int, 0);
    if n <= s.len() {
        assert(s =~= r + s.subrange(n as int, s.len() as int));
        lemma_sum_concat(r, s.subrange(n as int, s.len() as int));
        lemma_sum_nonneg(s.subrange(n as int, s.len() as int));
    } else {
        let z = Seq::new((n - s.len()) as nat, |k: int| 0i64);
        assert(r =~= s + z);
        lemma_sum_concat(s, z);
        lemma_sum_zeros((n - s.len()) as nat);
    }
}

/// Inserting a zero keeps the sum.
pub proof fn lemma_insert_zero_sum(s: Seq<i64>, i: int)
    requires
        0 <= i <= s.len(),
    ensures
        sum_of(s.insert(i, 0)) == sum_of(s),
{
    let a = s.subrange(0, i);
    let b = s.subrange(i, s.len() as int);
    assert(s =~= a + b);
    assert(s.insert(i, 0) =~= a + seq![0i64] + b);
    lemma_sum_concat(a, b);
    lemma_sum_concat(a + seq![0i64], b);
    lemma_sum_concat(a, seq![0i64]);
    lemma_sum_single(0);
}

/// Changing one entry changes the sum by the difference.
pub proof fn lemma_update_sum(s: Seq<i64>, i: int, v: i64)
    requires
        0 <= i < s.len(),
    ensures
        sum_of(s.update(i, v)) == sum_of(s) - s[i] + v,
{
    let a = s.subrange(0, i);
    let b = s.subrange(i + 1, s.len() as int);
    assert(s =~= a + seq![s[i]] + b);
    assert(s.update(i, v) =~= a + seq![v] + b);
    lemma_sum_concat(a + seq![s[i]], b);
    lemma_sum_concat(a, seq![s[i]]);
    lemma_sum_concat(a + seq![v], b);
    lemma_sum_concat(a, seq![v]);
    lemma_sum_single(s[i]);
    lemma_sum_single(v);
}

/// Cuts or extends `v` to `n` entries, new entries holding `value`.
pub fn resize_counts(v: &mut Vec<i64>, n: usize, value: i64)
    ensures
        final(v)@ == resized(old(v)@, n as int, value),
{
    v.truncate(n);
    while v.len() < n
        invariant
            n <= old(v)@.len() ==> v@ == old(v)@.subrange(0, n as int),
            n > old(v)@.len() ==> old(v)@.len() <= v@.len() <= n && v@ == resized(
                old(v)@,
                v@.len() as int,
                value,
            ),
        decreases n - v@.len(),
    {
        v.push(value);
        assert(v@ =~= resized(old(v)@, v@.len() as int, value));
    }
    assert(v@ =~= resized(old(v)@, n as int, value));
}

} // verus!
