//! A discrete distribution over indices `{0..n-1}` with mass proportional to
//! a supplied vector of non-negative integer weights, sampled by one uniform
//! draw in `[0, total)` and a binary search over cumulative sums.

use vstd::prelude::*;
use crate::GeoError;

verus! {

/// Sum of a weight vector.
pub open spec fn total_weight(w: Seq<u64>) -> int
    decreases w.len(),
{
    if w.len() == 0 {
        0
    } else {
        total_weight(w.drop_last()) + w.last()
    }
}

/// An immutable table mapping each index to sampling mass equal to its
/// weight: index `i` owns exactly the draw values in
/// `[cum[i], cum[i + 1])`, an interval of width `weight i`.
pub struct WeightedTable {
    cum: Vec<u128>,
}

impl WeightedTable {
    /// The cumulative sums: `cum[0] == 0` and `cum[i + 1] - cum[i]` is the
    /// weight of index `i`.
    pub closed spec fn spec_cum(self) -> Seq<u128> {
        self.cum@
    }

    /// How many indices the table distributes over.
    pub open spec fn spec_len(self) -> int {
        self.spec_cum().len() - 1
    }

    /// The total mass: every draw value below it selects some index.
    pub open spec fn spec_total(self) -> u128 {
        self.spec_cum()[self.spec_cum().len() - 1]
    }

    /// The mass owned by index `i`.
    pub open spec fn spec_weight(self, i: int) -> int {
        self.spec_cum()[i + 1] - self.spec_cum()[i]
    }

    #[verifier::type_invariant]
    spec fn wf(self) -> bool {
        &&& self.spec_cum().len() >= 1
        &&& self.spec_cum()[0] == 0
        &&& forall|i: int|
            0 <= i < self.spec_len() ==> self.spec_cum()[i] <= #[trigger] self.spec_cum()[i + 1]
        &&& self.spec_total() > 0
    }

    /// Builds the table from raw weights, which need not be normalized.
    /// Fails exactly when the total weight is zero, since a zero-sum weight
    /// vector carries no probability mass.
    pub fn build(weights: &Vec<u64>) -> (r: Result<WeightedTable, GeoError>)
        ensures
            r matches Err(e) ==> e == GeoError::DegenerateWeights && total_weight(weights@)
                == 0,
            r matches Ok(t) ==> {
                &&& total_weight(weights@) > 0
                &&& t.spec_len() == weights@.len()
                &&& forall|i: int| 0 <= i < weights@.len() ==> t.spec_weight(i) == weights@[i]
                &&& t.spec_total() == total_weight(weights@)
            },
    {
        let mut cum: Vec<u128> = Vec::new();
        cum.push(0);
        let mut t: u128 = 0;
        let mut k: usize = 0;
        while k < weights.len()
            invariant
                k <= weights@.len(),
                cum@.len() == k + 1,
                cum@[0] == 0,
                cum@[k as int] == t,
                t as int == total_weight(weights@.take(k as int)),
                t <= k * 0xFFFF_FFFF_FFFF_FFFFu64,
                forall|i: int| 0 <= i < k ==> #[trigger] cum@[i + 1] == cum@[i] + weights@[i],
            decreases weights@.len() - k,
        {
            proof {
                assert(weights@.take(k + 1).drop_last() =~= weights@.take(k as int));
            }
            t = t + weights[k] as u128;
            cum.push(t);
            k = k + 1;
        }
        proof {
            assert(weights@.take(k as int) =~= weights@);
        }
        if t == 0 {
            return Err(GeoError::DegenerateWeights);
        }
        Ok(WeightedTable { cum })
    }

    pub fn len(&self) -> (n: usize)
        ensures
            n == self.spec_len(),
    {
        proof {
            use_type_invariant(self);
        }
        self.cum.len() - 1
    }

    pub fn total(&self) -> (t: u128)
        ensures
            t == self.spec_total(),
            t > 0,
    {
        proof {
            use_type_invariant(self);
        }
        self.cum[self.cum.len() - 1]
    }

    /// The mass owned by index `i`: its weight as supplied to the build.
    pub fn weight(&self, i: usize) -> (w: u128)
        requires
            i < self.spec_len(),
        ensures
            w == self.spec_weight(i as int),
    {
        proof {
            use_type_invariant(self);
            assert(self.cum.len() <= usize::MAX);
            assert(self.spec_cum()[i as int] <= self.spec_cum()[i as int + 1]);
        }
        self.cum[i + 1] - self.cum[i]
    }

    /// The index owning the draw value `r`: the one whose cumulative
    /// interval contains `r`.
    pub fn classify(&self, r: u128) -> (i: usize)
        requires
            r < self.spec_total(),
        ensures
            0 <= i < self.spec_len(),
            self.spec_cum()[i as int] <= r < self.spec_cum()[i as int + 1],
    {
        proof {
            use_type_invariant(self);
        }
        let ghost c = self.spec_cum();
        let mut lo: usize = 0;
        let mut hi: usize = self.cum.len() - 1;
        while lo + 1 < hi
            invariant
                self.spec_cum() == c,
                self.spec_cum().len() == self.cum@.len(),
                0 <= lo < hi < c.len(),
                c[lo as int] <= r,
                r < c[hi as int],
            decreases hi - lo,
        {
            let mid = lo + (hi - lo) / 2;
            if self.cum[mid] <= r {
                lo = mid;
            } else {
                hi = mid;
            }
        }
        lo
    }

    /// Draws an index with mass proportional to its weight; an index of
    /// zero weight owns an empty interval and is never returned.
    pub fn sample(&self, rng: &mut rand::rngs::StdRng) -> (i: usize)
        ensures
            0 <= i < self.spec_len(),
            self.spec_weight(i as int) > 0,
    {
        proof {
            use_type_invariant(self);
        }
        let total = self.total();
        let r = crate::rng::draw_range(rng, total);
        self.classify(r)
    }
}

/// In a nondecreasing cumulative vector the half-open intervals
/// `[c[k], c[k + 1])` are pairwise disjoint: one draw value selects exactly
/// one index, so the mass of each index is exactly its interval's width.
pub proof fn lemma_interval_unique(c: Seq<u128>, r: u128, i: int, j: int)
    requires
        forall|k: int| 0 <= k && k + 1 < c.len() ==> c[k] <= #[trigger] c[k + 1],
        0 <= i && i + 1 < c.len(),
        0 <= j && j + 1 < c.len(),
        c[i] <= r < c[i + 1],
        c[j] <= r < c[j + 1],
    ensures
        i == j,
{
    if i + 1 <= j {
        lemma_cum_monotone(c, i + 1, j);
        assert(false);
    }
    if j + 1 <= i {
        lemma_cum_monotone(c, j + 1, i);
        assert(false);
    }
}

/// Nondecreasing adjacent steps give a nondecreasing chain.
pub proof fn lemma_cum_monotone(c: Seq<u128>, a: int, b: int)
    requires
        forall|k: int| 0 <= k && k + 1 < c.len() ==> c[k] <= #[trigger] c[k + 1],
        0 <= a <= b < c.len(),
    ensures
        c[a] <= c[b],
    decreases b - a,
{
    if a < b {
        lemma_cum_monotone(c, a, b - 1);
        assert(c[b - 1] <= c[(b - 1) + 1]);
    }
}

} // verus!
