use vstd::prelude::*;

verus! {

/// The money earned so far in the current game.
#[derive(Debug, Clone, Copy, PartialEq, Eq, Structural)]
pub struct Score(pub u32);

/// Total of a run of fares.
pub open spec fn sum_fares(fares: Seq<u32>) -> int
    decreases fares.len(),
{
    if fares.len() == 0 {
        0
    } else {
        sum_fares(fares.drop_last()) + fares.last()
    }
}

impl Default for Score {
    fn default() -> (r: Self)
        ensures
            r.0 == 0,
    {
        Score(0)
    }
}

/// A new game starts from zero.
pub fn reset_score(score: &mut Score)
    ensures
        final(score).0 == 0,
{
    score.0 = 0;
}

/// Every delivered passenger adds its fare to the score, in order.
/// The score is a `u32`: the deliveries may not push it past `u32::MAX`.
pub fn score_deliveries(score: &mut Score, fares: &Vec<u32>)
    requires
        old(score).0 + sum_fares(fares@) <= u32::MAX,
    ensures
        final(score).0 == old(score).0 + sum_fares(fares@),
        fares@.len() == 0 ==> final(score).0 == old(score).0,
        fares@.len() == 1 ==> final(score).0 == old(score).0 + fares@[0],
{
    let ghost start = score.0;
    let mut i: usize = 0;
    while i < fares.len()
        invariant
            i <= fares.len(),
            start + sum_fares(fares@) <= u32::MAX,
            score.0 == start + sum_fares(fares@.take(i as int)),
        decreases fares.len() - i,
    {
        proof {
            assert(fares@.take(i + 1).drop_last() == fares@.take(i as int));
            lemma_sum_prefix_le(fares@, i + 1);
        }
        score.0 = score.0 + fares[i];
        i = i + 1;
    }
    assert(fares@.take(fares.len() as int) == fares@);
    proof {
        if fares@.len() == 1 {
            lemma_sum_push(Seq::empty(), fares@[0]);
            assert(Seq::<u32>::empty().push(fares@[0]) == fares@);
        }
    }
}

/// No delivery earns nothing, and one more delivery adds exactly its fare:
/// the total is the plain sum of the fares.
pub proof fn lemma_sum_push(fares: Seq<u32>, fare: u32)
    ensures
        sum_fares(Seq::<u32>::empty()) == 0,
        sum_fares(fares.push(fare)) == sum_fares(fares) + fare,
        sum_fares(seq![fare]) == fare,
{
    assert(fares.push(fare).drop_last() == fares);
    assert(seq![fare].drop_last() == Seq::<u32>::empty());
}

/// Every fare counts: the total is at least each single fare.
pub proof fn lemma_sum_covers_each(fares: Seq<u32>, i: int)
    requires
        0 <= i < fares.len(),
    ensures
        fares[i] <= sum_fares(fares),
    decreases fares.len(),
{
    lemma_sum_nonneg(fares.drop_last());
    if i < fares.len() - 1 {
        lemma_sum_covers_each(fares.drop_last(), i);
    }
}

/// A total of fares is never negative.
pub proof fn lemma_sum_nonneg(fares: Seq<u32>)
    ensures
        sum_fares(fares) >= 0,
    decreases fares.len(),
{
    if fares.len() > 0 {
        lemma_sum_nonneg(fares.drop_last());
    }
}

/// A prefix of the fares never sums to more than all of them.
pub proof fn lemma_sum_prefix_le(fares: Seq<u32>, n: int)
    requires
        0 <= n <= fares.len(),
    ensures
        sum_fares(fares.take(n)) <= sum_fares(fares),
    decreases fares.len() - n,
{
    if n < fares.len() {
        lemma_sum_prefix_le(fares, n + 1);
        assert(fares.take(n + 1).drop_last() == fares.take(n));
    } else {
        assert(fares.take(n) == fares);
    }
}

/// Scoring two batches of deliveries one after the other gives the same
/// score as scoring them together.
pub proof fn lemma_sum_concat(a: Seq<u32>, b: Seq<u32>)
    ensures
        sum_fares(a + b) == sum_fares(a) + sum_fares(b),
    decreases b.len(),
{
    if b.len() == 0 {
        assert(a + b == a);
    } else {
        lemma_sum_concat(a, b.drop_last());
        assert((a + b).drop_last() == a + b.drop_last());
    }
}

} // verus!
