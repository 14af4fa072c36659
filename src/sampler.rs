//! The checks made on a closed interval before a uniform draw from it.
use crate::float_bits::{
    is_finite, is_finite_bits, lemma_order_key_matches_value, order_key_of, value,
};
use vstd::prelude::*;

verus! {

/// Why no value can be drawn from the given bounds.
#[derive(Clone, Copy, Debug, PartialEq, Eq, Structural)]
pub enum SampleError {
    /// A bound is an infinity or not a number.
    NonFinite,
    /// The lower bound is greater than the upper bound.
    InvertedRange,
}

/// What a draw from valid bounds comes down to. Each value is a single
/// precision bit pattern.
#[derive(Clone, Copy, Debug, PartialEq, Eq, Structural)]
pub enum SamplePlan {
    /// Both bounds have the same value: the result is this bound, exactly.
    Exact(u32),
    /// A uniform draw from the closed interval `[lower, upper]`, whose bounds
    /// are finite with `lower < upper`.
    Uniform { lower: u32, upper: u32 },
}

/// Whether a plan only ever yields values in `[value(lower), value(upper)]`
/// and hands a draw only finite, strictly ordered bounds.
pub open spec fn plan_within(plan: SamplePlan, lower: u32, upper: u32) -> bool {
    match plan {
        SamplePlan::Exact(v) => is_finite(v) && value(lower) <= value(v) <= value(upper),
        SamplePlan::Uniform { lower: lo, upper: hi } => {
            &&& is_finite(lo)
            &&& is_finite(hi)
            &&& value(lo) < value(hi)
            &&& value(lo) == value(lower)
            &&& value(hi) == value(upper)
        },
    }
}

/// The outcome that `plan_sample` owes for a pair of bounds.
pub open spec fn planned(lower: u32, upper: u32) -> Result<SamplePlan, SampleError> {
    if !is_finite(lower) || !is_finite(upper) {
        Err(SampleError::NonFinite)
    } else if value(lower) > value(upper) {
        Err(SampleError::InvertedRange)
    } else if value(lower) == value(upper) {
        Ok(SamplePlan::Exact(lower))
    } else {
        Ok(SamplePlan::Uniform { lower, upper })
    }
}

/// Finite bounds with `value(lower) <= value(upper)` always give a plan, and
/// whatever it yields lies in `[value(lower), value(upper)]`, both ends included.
pub proof fn lemma_valid_bounds_give_plan(lower: u32, upper: u32)
    requires
        is_finite(lower),
        is_finite(upper),
        value(lower) <= value(upper),
    ensures
        planned(lower, upper) matches Ok(plan) && plan_within(plan, lower, upper),
{
}

/// Checks the bounds of a draw from the closed interval `[lower, upper]`,
/// both given as single precision bit patterns. Bounds that are not finite,
/// or out of order, are refused; equal bounds yield the lower one exactly;
/// otherwise a uniform draw between them is due.
pub fn plan_sample(lower: u32, upper: u32) -> (r: Result<SamplePlan, SampleError>)
    ensures
        r == planned(lower, upper),
        r is Err <==> !is_finite(lower) || !is_finite(upper) || value(lower) > value(upper),
        r matches Ok(plan) ==> plan_within(plan, lower, upper),
        is_finite(lower) && lower == upper ==> r == Ok::<SamplePlan, SampleError>(SamplePlan::Exact(lower)),
        is_finite(lower) && is_finite(upper) && value(lower) > value(upper) ==> r == Err::<SamplePlan, SampleError>(
            SampleError::InvertedRange,
        ),
{
    if !is_finite_bits(lower) || !is_finite_bits(upper) {
        return Err(SampleError::NonFinite);
    }
    let lo = order_key_of(lower);
    let hi = order_key_of(upper);
    proof {
        lemma_order_key_matches_value(lower, upper);
    }
    if lo > hi {
        Err(SampleError::InvertedRange)
    } else if lo == hi {
        Ok(SamplePlan::Exact(lower))
    } else {
        Ok(SamplePlan::Uniform { lower, upper })
    }
}

} // verus!
