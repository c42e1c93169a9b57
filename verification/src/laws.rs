//! The laws of the evaluator, each proved from the contracts in
//! [`crate::interp`].

use vstd::prelude::*;
use crate::interp::{digit_val, is_ascii_digit, spec_evaluate, EvalError};

verus! {

/// For every pair of decimal digit characters `a` and `b`, evaluating the
/// three-character line `a`, `+`, `b` yields the sum of the two digits.
pub proof fn lemma_single_digit_sum(a: char, b: char)
    requires
        is_ascii_digit(a),
        is_ascii_digit(b),
    ensures
        spec_evaluate(seq![a, '+', b]) == Ok::<i64, EvalError>(
            (digit_val(a) + digit_val(b)) as i64,
        ),
{
}

/// Evaluation is idempotent: two evaluations of the same line agree, since
/// the result is a function of the line's characters alone and no state
/// survives an evaluation.
pub proof fn lemma_evaluate_idempotent(
    s: Seq<char>,
    r1: Result<i64, EvalError>,
    r2: Result<i64, EvalError>,
)
    requires
        r1 == spec_evaluate(s),
        r2 == spec_evaluate(s),
    ensures
        r1 == r2,
{
}

/// Trailing content is tolerated: when a line evaluates successfully, any
/// characters appended after it leave the result unchanged, because the
/// grammar is three tokens long and the evaluator never inspects what
/// follows them.
pub proof fn lemma_trailing_content_ignored(s: Seq<char>, t: Seq<char>)
    requires
        spec_evaluate(s) is Ok,
    ensures
        spec_evaluate(s + t) == spec_evaluate(s),
{
}

} // verus!
