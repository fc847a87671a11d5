//! The one rule for changing an amount: checked addition and subtraction that
//! fail at the 64-bit boundary instead of wrapping or saturating.
use vstd::prelude::*;

verus! {

/// The largest representable amount; as an allowance it means "unlimited".
pub const MAX_AMOUNT: u64 = 0xffff_ffff_ffff_ffff;

/// `a + b`, or `None` where the sum does not fit in 64 bits.
pub fn safe_add(a: u64, b: u64) -> (r: Option<u64>)
    ensures
        r == (if a + b <= MAX_AMOUNT { Some((a + b) as u64) } else { None::<u64> }),
{
    a.checked_add(b)
}

/// `a - b`, or `None` where `b` exceeds `a`.
pub fn safe_sub(a: u64, b: u64) -> (r: Option<u64>)
    ensures
        r == (if b <= a { Some((a - b) as u64) } else { None::<u64> }),
{
    a.checked_sub(b)
}

} // verus!
