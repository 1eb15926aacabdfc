//! Integer absolute values.

use vstd::prelude::*;

verus! {

/// The absolute value of a 32-bit integer.  The most negative value has no
/// 32-bit absolute value and is excluded.
pub fn abs(x: i32) -> (r: i32)
    requires
        x != i32::MIN,
    ensures
        r == if x >= 0 {
            x as int
        } else {
            -(x as int)
        },
{
    if x >= 0 {
        x
    } else {
        -x
    }
}

/// The absolute value of a 64-bit integer.  The most negative value has no
/// 64-bit absolute value and is excluded.
pub fn labs(x: i64) -> (r: i64)
    requires
        x != i64::MIN,
    ensures
        r == if x >= 0 {
            x as int
        } else {
            -(x as int)
        },
{
    if x >= 0 {
        x
    } else {
        -x
    }
}

} // verus!
