//! Two stateless primitives meant to sit behind a host-runtime binding:
//! an overflow-checked addition of signed 32-bit integers, and a fixed
//! greeting string. Both are pure and synchronous; the addition reports
//! overflow as an explicit error value rather than wrapping or panicking.

use vstd::prelude::*;
use vstd::string::StringExecFns;

verus! {

/// The one failure the library knows: the exact sum of the two operands
/// does not fit in a signed 32-bit integer.
#[derive(Clone, Copy, Debug, PartialEq, Eq, Structural)]
pub enum SumError {
    Overflow,
}

impl SumError {
    /// The fixed human-readable description of the error.
    pub fn message(&self) -> (r: String)
        ensures
            r@ == "Integer overflow in sum operation"@,
    {
        String::from_str("Integer overflow in sum operation")
    }
}

/// What `sum` returns: the exact mathematical sum whenever it is
/// representable as an `i32`, and the overflow error otherwise.
pub open spec fn spec_sum(a: i32, b: i32) -> Result<i32, SumError> {
    if i32::MIN <= a + b <= i32::MAX {
        Ok((a + b) as i32)
    } else {
        Err(SumError::Overflow)
    }
}

/// Adds two 32-bit integers with overflow checking.
///
/// Succeeds exactly when the mathematical sum of `a` and `b` lies in
/// `[i32::MIN, i32::MAX]`, and then returns that sum; otherwise it
/// fails with `SumError::Overflow` and returns no partial result.
pub fn sum(a: i32, b: i32) -> (r: Result<i32, SumError>)
    ensures
        r == spec_sum(a, b),
{
    match a.checked_add(b) {
        Some(s) => Ok(s),
        None => Err(SumError::Overflow),
    }
}

/// Addition is commutative: swapping the operands changes neither
/// whether `sum` succeeds nor the value it returns on success.
pub proof fn lemma_sum_commutative(a: i32, b: i32)
    ensures
        spec_sum(a, b) == spec_sum(b, a),
{
}

/// Returns the fixed greeting message, always the same eleven
/// characters.
pub fn hello() -> (r: String)
    ensures
        r@ == "Hello there"@,
        r@.len() == 11,
{
    proof {
        reveal_strlit("Hello there");
    }
    String::from_str("Hello there")
}

} // verus!
