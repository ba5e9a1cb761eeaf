//! The arithmetic host namespace: one function, `add`, on 32-bit integers.

use crate::engine::new_fault;
use crate::text::same_text;
use vstd::prelude::*;

verus! {

/// Why a call into the arithmetic namespace failed.
#[derive(Clone, Copy, Debug, PartialEq, Eq, Structural)]
pub enum Errno {
    /// The exact result does not fit in 32 bits.
    Overflow,
}

impl Errno {
    /// What went wrong, in words.
    pub fn message(&self) -> (text: &'static str)
        ensures
            text@ == match self {
                Errno::Overflow => "the sum does not fit in 32 bits"@,
            },
    {
        match self {
            Errno::Overflow => "the sum does not fit in 32 bits",
        }
    }
}

/// The context of the arithmetic host namespace. It holds no state.
pub struct CalculatorCtx {}

/// Whether `n` can be held by a signed 32-bit integer.
pub open spec fn fits_i32(n: int) -> bool {
    i32::MIN <= n <= i32::MAX
}

impl CalculatorCtx {
    /// Whether the namespace has a function called `symbol`: it has `add` and no other.
    pub fn provides(&self, symbol: &str) -> (r: bool)
        ensures
            r == (symbol@ == "add"@),
    {
        same_text(symbol, "add")
    }

    /// The sum of `lh` and `rh`, or `Errno::Overflow` where the sum leaves the 32-bit range.
    pub fn add(&self, lh: i32, rh: i32) -> (r: Result<i32, Errno>)
        ensures
            fits_i32(lh + rh) ==> r == Ok::<i32, Errno>((lh + rh) as i32),
            !fits_i32(lh + rh) ==> r == Err::<i32, Errno>(Errno::Overflow),
    {
        let wide: i64 = lh as i64 + rh as i64;
        if wide < i32::MIN as i64 || wide > i32::MAX as i64 {
            Err(Errno::Overflow)
        } else {
            Ok(wide as i32)
        }
    }
}

/// `add` as a guest calls it: the sum, or a fault where `add` fails.
pub fn guest_add(lh: i32, rh: i32) -> (r: Result<i32, wasmtime::Error>)
    ensures
        r is Ok <==> fits_i32(lh + rh),
        r is Ok ==> r->Ok_0 == lh + rh,
{
    let ctx = CalculatorCtx {  };
    match ctx.add(lh, rh) {
        Ok(sum) => Ok(sum),
        Err(errno) => Err(new_fault(errno.message())),
    }
}

} // verus!
