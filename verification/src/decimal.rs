//! Arbitrary-precision decimal numbers for the wire format.
//!
//! Monetary and measured quantities travel as decimal text on the wire, so
//! that no floating-point rounding is introduced. A `Decimal` is a scaled
//! integer: the represented quantity is `mantissa / 10^scale`.

use vstd::prelude::*;

verus! {

/// A decimal number `mantissa / 10^scale`, e.g. `Decimal { mantissa: 1250, scale: 2 }`
/// is 12.50. Two values are equal only when mantissa and scale both agree, so a
/// round trip through the wire preserves the written precision.
#[derive(Clone, Copy, Debug, PartialEq, Eq, Structural)]
pub struct Decimal {
    pub mantissa: i64,
    pub scale: u32,
}

impl Decimal {
    /// A decimal is well formed when its scale stays within the range that a
    /// 64-bit mantissa can meaningfully carry.
    pub open spec fn wf(self) -> bool {
        self.scale <= 18
    }

    /// Construct a decimal from a scaled integer.
    pub fn new(mantissa: i64, scale: u32) -> (r: Decimal)
        requires
            scale <= 18,
        ensures
            r == (Decimal { mantissa, scale }),
            r.wf(),
    {
        Decimal { mantissa, scale }
    }

    /// Construct a whole-number decimal.
    pub fn from_int(n: i64) -> (r: Decimal)
        ensures
            r == (Decimal { mantissa: n, scale: 0 }),
            r.wf(),
    {
        Decimal { mantissa: n, scale: 0 }
    }
}

} // verus!
