//! The runner's settings and the comparison record.

use vstd::prelude::*;
use crate::splits::Split;

verus! {

/// The runner's choices: whether hits are counted, and the selected splits.
/// Position 0 is the split that starts the run; position `k` the one that
/// ends segment `k - 1`.
pub struct Settings {
    pub hit_counter: bool,
    pub splits: Vec<Split>,
}

/// Every comparison entry lowered to the attempt's cumulative count where
/// that is smaller, and extended by the attempt's counts past its end.
pub open spec fn fold_comparison(cmp: Seq<i64>, cum: Seq<i64>) -> Seq<i64> {
    Seq::new(
        if cmp.len() >= cum.len() { cmp.len() } else { cum.len() },
        |k: int|
            if k < cmp.len() {
                if k < cum.len() && cum[k] < cmp[k] {
                    cum[k]
                } else {
                    cmp[k]
                }
            } else {
                cum[k]
            },
    )
}

impl Settings {
    pub fn new(hit_counter: bool, splits: Vec<Split>) -> (r: Settings)
        ensures
            r.hit_counter == hit_counter,
            r.splits@ == splits@,
    {
        Settings { hit_counter, splits }
    }

    pub fn get_hit_counter(&self) -> (r: bool)
        ensures
            r == self.hit_counter,
    {
        self.hit_counter
    }

    pub fn get_splits_len(&self) -> (r: usize)
        ensures
            r == self.splits@.len(),
    {
        self.splits.len()
    }

    pub fn get_splits(&self) -> (r: Vec<Split>)
        ensures
            r@ == self.splits@,
    {
        let mut r: Vec<Split> = Vec::new();
        let mut i: usize = 0;
        while i < self.splits.len()
            invariant
                i <= self.splits@.len(),
                r@ == self.splits@.subrange(0, i as int),
            decreases self.splits@.len() - i,
        {
            r.push(self.splits[i]);
            i = i + 1;
            assert(r@ =~= self.splits@.subrange(0, i as int));
        }
        assert(r@ =~= self.splits@);
        r
    }

    pub fn get_split(&self, i: u64) -> (r: Option<Split>)
        ensures
            r == (if i < self.splits@.len() {
                Some(self.splits@[i as int])
            } else {
                None::<Split>
            }),
    {
        if i < self.splits.len() as u64 {
            Some(self.splits[i as usize])
        } else {
            None
        }
    }

    /// Folds an attempt's cumulative counts into the comparison record.
    pub fn update_comparison_hits(comparison_hits: &mut Vec<i64>, cumulative_hits: &[i64])
        ensures
            final(comparison_hits)@ == fold_comparison(old(comparison_hits)@, cumulative_hits@),
    {
        let mut i: usize = 0;
        while i < cumulative_hits.len()
            invariant
                i <= cumulative_hits@.len(),
                comparison_hits@ == fold_comparison(
                    old(comparison_hits)@,
                    cumulative_hits@.subrange(0, i as int),
                ),
            decreases cumulative_hits@.len() - i,
        {
            let ghost before = comparison_hits@;
            if i < comparison_hits.len() {
                if cumulative_hits[i] < comparison_hits[i] {
                    comparison_hits.set(i, cumulative_hits[i]);
                }
            } else {
                comparison_hits.push(cumulative_hits[i]);
            }
            i = i + 1;
            assert(comparison_hits@ =~= fold_comparison(
                old(comparison_hits)@,
                cumulative_hits@.subrange(0, i as int),
            ));
        }
        assert(cumulative_hits@.subrange(0, i as int) =~= cumulative_hits@);
    }
}

/// The splits a runner starts with: the run starts on a new save file and
/// ends when the credits roll.
pub fn default_splits() -> (r: Vec<Split>)
    ensures
        r@ == seq![Split::StartNewGame, Split::EndingSplit],
{
    let mut r: Vec<Split> = Vec::new();
    r.push(Split::StartNewGame);
    r.push(Split::EndingSplit);
    assert(r@ =~= seq![Split::StartNewGame, Split::EndingSplit]);
    r
}

} // verus!
