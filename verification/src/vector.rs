//! Fixed-point 2D input vectors and their normalization.
//!
//! Axis values are carried in millionths of a unit, so one unit of stick
//! deflection is 1,000,000. Normalization clamps magnitudes above one unit
//! to unit length, treats magnitudes below a small epsilon as absent (no
//! input, avoiding analog-stick drift false positives), and passes
//! partial-magnitude input through unchanged.

use vstd::prelude::*;

verus! {

/// One unit of axis deflection, in millionths.
pub const AXIS_UNIT: i64 = 1_000_000;

/// Magnitudes strictly below this count as no input: 1e-5 of a unit, in
/// millionths.
pub const AXIS_EPSILON: i64 = 10;

/// Largest coordinate the vector functions accept; keeps every intermediate
/// product inside the machine integers.
pub const AXIS_LIMIT: i64 = 2_000_000_000;

/// A 2D input reading, such as a stick deflection, in millionths of a unit
/// per axis.
#[derive(Clone, Copy, Debug, PartialEq, Eq, Structural)]
pub struct DualAxisData {
    pub x: i64,
    pub y: i64,
}

/// The squared magnitude of a reading, in squared millionths.
pub open spec fn spec_mag_sq(v: DualAxisData) -> int {
    v.x * v.x + v.y * v.y
}

/// Whether `r` is the integer square root of `n`, rounded down.
pub open spec fn is_isqrt(n: int, r: int) -> bool {
    &&& 0 <= r
    &&& r * r <= n
    &&& n < (r + 1) * (r + 1)
}

/// The integer square root of `n`, rounded down.
pub open spec fn sqrt_floor(n: int) -> int {
    choose|r: int| is_isqrt(n, r)
}

/// Division truncating toward zero, as the machine divides signed integers
/// by a positive divisor.
pub open spec fn div_trunc(a: int, b: int) -> int
    recommends
        b > 0,
{
    if a >= 0 {
        a / b
    } else {
        -((-a) / b)
    }
}

/// The integer square root of `n` is unique.
proof fn lemma_isqrt_unique(n: int, r1: int, r2: int)
    by (nonlinear_arith)
    requires
        0 <= r1,
        r1 * r1 <= n,
        n < (r1 + 1) * (r1 + 1),
        0 <= r2,
        r2 * r2 <= n,
        n < (r2 + 1) * (r2 + 1),
    ensures
        r1 == r2,
{
}

/// Integer square root, rounded down, by bisection.
pub fn isqrt(n: u64) -> (r: u64)
    ensures
        is_isqrt(n as int, r as int),
        r as int == sqrt_floor(n as int),
{
    let mut lo: u64 = 0;
    let mut hi: u64 = 4_294_967_296;
    assert((hi as int) * (hi as int) > n as int);
    while lo + 1 < hi
        invariant
            lo < hi,
            hi <= 4_294_967_296,
            (lo as int) * (lo as int) <= n as int,
            (n as int) < (hi as int) * (hi as int),
        decreases hi - lo,
    {
        let mid: u64 = lo + (hi - lo) / 2;
        assert((mid as int) * (mid as int) <= 0xFFFF_FFFE_0000_0001) by (nonlinear_arith)
            requires
                0 <= mid as int <= 4_294_967_295,
        ;
        let sq: u64 = mid * mid;
        if sq <= n {
            lo = mid;
        } else {
            hi = mid;
        }
    }
    proof {
        assert(is_isqrt(n as int, lo as int));
        assert(exists|q: int| is_isqrt(n as int, q)) by {
            assert(is_isqrt(n as int, lo as int));
        }
        assert(is_isqrt(n as int, sqrt_floor(n as int)));
        lemma_isqrt_unique(n as int, lo as int, sqrt_floor(n as int));
    }
    lo
}

/// One scaled component of a normalized vector: `c` times one unit, divided
/// by the magnitude, truncating toward zero.
fn scale_component(c: i64, m: u64) -> (r: i64)
    requires
        -AXIS_LIMIT <= c <= AXIS_LIMIT,
        AXIS_UNIT <= m <= 3_000_000_000,
    ensures
        r as int == div_trunc(c * AXIS_UNIT, m as int),
{
    if c >= 0 {
        let scaled: u64 = (c as u64) * 1_000_000;
        (scaled / m) as i64
    } else {
        let scaled: u64 = ((-c) as u64) * 1_000_000;
        -((scaled / m) as i64)
    }
}

impl DualAxisData {
    /// A reading with both axes centered.
    pub fn zero() -> (r: Self)
        ensures
            r == (DualAxisData { x: 0, y: 0 }),
    {
        DualAxisData { x: 0, y: 0 }
    }

    /// Normalize a reading for the character controller: magnitudes below
    /// the epsilon are no input at all, magnitudes up to one unit pass
    /// through unchanged, and larger magnitudes are clamped to unit length
    /// by scaling each component down by the magnitude.
    pub fn max_normalized(self) -> (r: Option<DualAxisData>)
        requires
            -AXIS_LIMIT <= self.x <= AXIS_LIMIT,
            -AXIS_LIMIT <= self.y <= AXIS_LIMIT,
        ensures
            spec_mag_sq(self) < AXIS_EPSILON * AXIS_EPSILON ==> r is None,
            AXIS_EPSILON * AXIS_EPSILON <= spec_mag_sq(self) <= AXIS_UNIT * AXIS_UNIT ==> r
                == Some(self),
            spec_mag_sq(self) > AXIS_UNIT * AXIS_UNIT ==> (r matches Some(u)
                && u.x as int == div_trunc(self.x * AXIS_UNIT, sqrt_floor(spec_mag_sq(self)))
                && u.y as int == div_trunc(self.y * AXIS_UNIT, sqrt_floor(spec_mag_sq(self)))),
    {
        proof {
            assert(0 <= self.x * self.x <= 4_000_000_000_000_000_000) by (nonlinear_arith)
                requires
                    -2_000_000_000 <= self.x <= 2_000_000_000,
            ;
            assert(0 <= self.y * self.y <= 4_000_000_000_000_000_000) by (nonlinear_arith)
                requires
                    -2_000_000_000 <= self.y <= 2_000_000_000,
            ;
        }
        let len_squared: i64 = self.x * self.x + self.y * self.y;
        if len_squared < AXIS_EPSILON * AXIS_EPSILON {
            Option::None
        } else if len_squared <= AXIS_UNIT * AXIS_UNIT {
            Option::Some(self)
        } else {
            let m: u64 = isqrt(len_squared as u64);
            proof {
                assert(m as int >= 1_000_000) by (nonlinear_arith)
                    requires
                        0 <= m as int,
                        (m as int + 1) * (m as int + 1) > 1_000_000_000_000,
                ;
                assert(m as int <= 3_000_000_000) by (nonlinear_arith)
                    requires
                        0 <= m as int,
                        (m as int) * (m as int) <= 8_000_000_000_000_000_000,
                ;
            }
            Option::Some(DualAxisData { x: scale_component(self.x, m), y: scale_component(self.y, m) })
        }
    }
}

} // verus!
