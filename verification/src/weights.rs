use vstd::prelude::*;

verus! {

/// Why a weight computation was refused.
#[derive(Clone, Copy, Debug, PartialEq, Eq, Structural)]
pub enum WeightError {
    /// The sum does not fit in a weight.
    ArithmeticOverflow,
    /// Two totals that must agree differ.
    WeightMismatch,
}

/// The exact sum of a sequence of weights, as a natural number.
pub open spec fn weight_sum(weights: Seq<u32>) -> nat
    decreases weights.len(),
{
    if weights.len() == 0 {
        0
    } else {
        weight_sum(weights.drop_last()) + weights.last() as nat
    }
}

/// Adding one weight at the end adds it to the sum.
pub proof fn lemma_weight_sum_push(weights: Seq<u32>, w: u32)
    ensures
        weight_sum(weights.push(w)) == weight_sum(weights) + w,
{
    assert(weights.push(w).drop_last() =~= weights);
}

/// The sum of a prefix never exceeds the sum of the whole.
pub proof fn lemma_weight_sum_prefix(weights: Seq<u32>, n: int)
    requires
        0 <= n <= weights.len(),
    ensures
        weight_sum(weights.take(n)) <= weight_sum(weights),
    decreases weights.len(),
{
    if n < weights.len() {
        lemma_weight_sum_prefix(weights.drop_last(), n);
        assert(weights.drop_last().take(n) =~= weights.take(n));
    } else {
        assert(weights.take(n) =~= weights);
    }
}

/// Adds up `values`. The result is the exact sum when it fits in a weight,
/// and `ArithmeticOverflow` when it does not.
pub fn sum_with_overflow_check(values: &Vec<u32>) -> (total: Result<u32, WeightError>)
    ensures
        weight_sum(values@) <= u32::MAX ==> total == Ok::<u32, WeightError>(
            weight_sum(values@) as u32,
        ),
        weight_sum(values@) > u32::MAX ==> total == Err::<u32, WeightError>(
            WeightError::ArithmeticOverflow,
        ),
{
    let mut running: u32 = 0;
    let mut i: usize = 0;
    while i < values.len()
        invariant
            i <= values.len(),
            running == weight_sum(values@.take(i as int)),
        decreases values.len() - i,
    {
        proof {
            lemma_weight_sum_push(values@.take(i as int), values@[i as int]);
            assert(values@.take(i as int).push(values@[i as int]) =~= values@.take(i + 1));
            lemma_weight_sum_prefix(values@, i + 1);
        }
        match running.checked_add(values[i]) {
            Some(next) => {
                running = next;
            },
            None => {
                return Err(WeightError::ArithmeticOverflow);
            },
        }
        i += 1;
    }
    proof {
        assert(values@.take(i as int) =~= values@);
    }
    Ok(running)
}

/// Accepts two totals exactly when they are equal: no tolerance, no unit
/// conversion.
pub fn validate_conservation(parent_total: u32, child_total: u32) -> (verdict: Result<
    (),
    WeightError,
>)
    ensures
        parent_total == child_total ==> verdict == Ok::<(), WeightError>(()),
        parent_total != child_total ==> verdict == Err::<(), WeightError>(
            WeightError::WeightMismatch,
        ),
{
    if parent_total == child_total {
        Ok(())
    } else {
        Err(WeightError::WeightMismatch)
    }
}

} // verus!
