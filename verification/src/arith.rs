//! Small arithmetic lemmas shared by the bounds and selection proofs.
//!
//! The selector multiplies bounded integers many times over; these lemmas
//! turn bounds on factors into bounds on products so that the main proofs
//! stay linear.

use vstd::prelude::*;

verus! {

/// A product of two integers is bounded by the product of their bounds.
pub proof fn lemma_mul_bound(a: int, b: int, ca: int, cb: int)
    by (nonlinear_arith)
    requires
        -ca <= a <= ca,
        -cb <= b <= cb,
        0 <= ca,
        0 <= cb,
    ensures
        -(ca * cb) <= a * b <= ca * cb,
{
}

/// A square is nonnegative and bounded by the square of the bound.
pub proof fn lemma_square_bound(a: int, ca: int)
    by (nonlinear_arith)
    requires
        -ca <= a <= ca,
        0 <= ca,
    ensures
        0 <= a * a <= ca * ca,
{
}

/// A product of nonnegative integers is nonnegative.
pub proof fn lemma_mul_nonneg(a: int, b: int)
    by (nonlinear_arith)
    requires
        0 <= a,
        0 <= b,
    ensures
        0 <= a * b,
{
}

} // verus!
