//! The decision behind the `mod` template helper.
use vstd::prelude::*;

verus! {

/// The absolute value of an integer.
pub open spec fn abs(n: int) -> nat {
    if n < 0 {
        (-n) as nat
    } else {
        n as nat
    }
}

/// Is `n` a multiple of `d` (for `d != 0`)?
pub open spec fn is_multiple(n: int, d: int) -> bool {
    abs(n) % abs(d) == 0
}

fn magnitude(n: i64) -> (r: u64)
    ensures
        r == abs(n as int),
{
    if n < 0 {
        let w: i128 = n as i128;
        (-w) as u64
    } else {
        n as u64
    }
}

/// The `mod` helper shows its block when `index % modu == 0`, and its
/// `else` block otherwise. Rust's `%` panics for a zero divisor and for
/// `i64::MIN % -1`.
pub fn modulo_shows_block(index: i64, modu: i64) -> (r: bool)
    requires
        modu != 0,
        !(index == i64::MIN && modu == -1),
    ensures
        r == is_multiple(index as int, modu as int),
{
    magnitude(index) % magnitude(modu) == 0
}

} // verus!
