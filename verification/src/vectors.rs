use vstd::prelude::*;
use vstd::arithmetic::div_mod::lemma_div_is_ordered;
use vstd::arithmetic::div_mod::lemma_div_multiples_vanish;

verus! {

/// A world-space vector in milliunits: one thousandth of a world unit per
/// step, so that geometry stays exact integer arithmetic. The vertical `y`
/// component is ignored by all planar steering geometry.
#[derive(Clone, Copy, Debug, PartialEq, Eq, Structural)]
pub struct Vector3D {
    pub x: i64,
    pub y: i64,
    pub z: i64,
}

/// Coordinates the controller works on stay within half the signed 64-bit
/// range, so that the difference of any two of them fits in an `i64`.
pub open spec fn coord_ok(c: int) -> bool {
    -4611686018427387903 <= c <= 4611686018427387903
}

/// All three components are within the controller's coordinate range.
pub open spec fn vec_ok(v: Vector3D) -> bool {
    coord_ok(v.x as int) && coord_ok(v.y as int) && coord_ok(v.z as int)
}

/// The squared Euclidean norm.
pub open spec fn norm_sq(v: Vector3D) -> int {
    (v.x as int) * (v.x as int) + (v.y as int) * (v.y as int) + (v.z as int) * (v.z as int)
}

/// The squared planar norm: the vertical component dropped.
pub open spec fn planar_sq(v: Vector3D) -> int {
    (v.x as int) * (v.x as int) + (v.z as int) * (v.z as int)
}

/// `r` is the integer square root of `s`, rounded down.
pub open spec fn is_sqrt_floor(s: int, r: int) -> bool {
    0 <= r && r * r <= s && s < (r + 1) * (r + 1)
}

/// Quotient of `a` by positive `b`, rounded toward zero, as a signed
/// machine division computes it.
pub open spec fn trunc_div(a: int, b: int) -> int {
    if a >= 0 {
        a / b
    } else {
        -((-a) / b)
    }
}

/// Comparing a squared length against a squared threshold decides exactly
/// the comparison of the length itself against the threshold: the integer
/// square root of `s` is below `t` if and only if `s` is below `t * t`.
/// The controller gates on squared distances by this equivalence.
pub proof fn lemma_sq_threshold(s: int, m: int, t: int)
    requires
        is_sqrt_floor(s, m),
        t >= 0,
    ensures
        (m < t) <==> (s < t * t),
{
    if m < t {
        assert((m + 1) * (m + 1) <= t * t) by (nonlinear_arith)
            requires 0 <= m, m + 1 <= t;
    }
    if s < t * t {
        assert(m * m < t * t ==> m < t) by (nonlinear_arith)
            requires 0 <= m, 0 <= t;
    }
}

/// A number has at most one integer square root rounded down.
pub proof fn lemma_sqrt_floor_unique(s: int, r1: int, r2: int)
    requires
        is_sqrt_floor(s, r1),
        is_sqrt_floor(s, r2),
    ensures
        r1 == r2,
{
    assert(r1 < r2 ==> (r1 + 1) * (r1 + 1) <= r2 * r2) by (nonlinear_arith)
        requires 0 <= r1, 0 <= r2;
    assert(r2 < r1 ==> (r2 + 1) * (r2 + 1) <= r1 * r1) by (nonlinear_arith)
        requires 0 <= r1, 0 <= r2;
}

/// Integer square root by bisection over the 64-bit range.
fn isqrt_u128(s: u128) -> (r: u64)
    ensures
        is_sqrt_floor(s as int, r as int),
{
    let mut lo: u128 = 0;
    let mut hi: u128 = 18446744073709551616;
    proof {
        assert(18446744073709551616int * 18446744073709551616int > s as int);
    }
    while lo + 1 < hi
        invariant
            lo < hi <= 18446744073709551616,
            (lo as int) * (lo as int) <= s as int,
            (s as int) < (hi as int) * (hi as int),
        decreases hi - lo,
    {
        let mid: u128 = lo + (hi - lo) / 2;
        proof {
            assert((mid as int) * (mid as int) <= 18446744073709551615int
                * 18446744073709551615int) by (nonlinear_arith)
                requires 0 <= mid as int <= 18446744073709551615int;
        }
        if mid * mid <= s {
            lo = mid;
        } else {
            hi = mid;
        }
    }
    lo as u64
}

impl Vector3D {
    /// Componentwise difference.
    pub fn sub(&self, rhs: &Vector3D) -> (r: Vector3D)
        requires
            i64::MIN <= self.x - rhs.x <= i64::MAX,
            i64::MIN <= self.y - rhs.y <= i64::MAX,
            i64::MIN <= self.z - rhs.z <= i64::MAX,
        ensures
            r.x == self.x - rhs.x,
            r.y == self.y - rhs.y,
            r.z == self.z - rhs.z,
    {
        Vector3D { x: self.x - rhs.x, y: self.y - rhs.y, z: self.z - rhs.z }
    }

    /// The same vector projected onto the steering plane: the vertical
    /// component dropped.
    pub fn planar(&self) -> (r: Vector3D)
        ensures
            r.x == self.x,
            r.y == 0,
            r.z == self.z,
    {
        Vector3D { x: self.x, y: 0, z: self.z }
    }

    /// The Euclidean norm in milliunits, rounded down to an integer.
    pub fn get_magnitude(&self) -> (m: u64)
        ensures
            is_sqrt_floor(norm_sq(*self), m as int),
    {
        let xx: u128 = square_to_u128(self.x);
        let yy: u128 = square_to_u128(self.y);
        let zz: u128 = square_to_u128(self.z);
        proof {
            assert(xx as int + yy as int + zz as int <= u128::MAX as int);
        }
        isqrt_u128(xx + yy + zz)
    }

    /// The squared planar norm, exact.
    pub fn planar_magnitude_sq(&self) -> (s: u128)
        ensures
            s as int == planar_sq(*self),
    {
        let xx: u128 = square_to_u128(self.x);
        let zz: u128 = square_to_u128(self.z);
        proof {
            assert(xx as int + zz as int <= u128::MAX as int);
        }
        xx + zz
    }

    /// The vector scaled by 1000 and divided, component by component and
    /// rounded toward zero, by its own magnitude: a unit vector carried in
    /// milliunits. The zero vector has no direction and is excluded.
    pub fn get_normalized(&self) -> (r: Vector3D)
        requires
            norm_sq(*self) > 0,
        ensures
            forall|m: int|
                is_sqrt_floor(norm_sq(*self), m) ==> {
                    &&& r.x == trunc_div(1000 * self.x, m)
                    &&& r.y == trunc_div(1000 * self.y, m)
                    &&& r.z == trunc_div(1000 * self.z, m)
                },
    {
        let m = self.get_magnitude();
        proof {
            if m == 0 {
                assert(norm_sq(*self) < 1int * 1int);
            }
            assert((self.x as int) * (self.x as int) >= 0 && (self.y as int) * (self.y as int)
                >= 0 && (self.z as int) * (self.z as int) >= 0) by (nonlinear_arith);
        }
        let r = Vector3D {
            x: scale_component(self.x, m),
            y: scale_component(self.y, m),
            z: scale_component(self.z, m),
        };
        proof {
            assert forall|mm: int| is_sqrt_floor(norm_sq(*self), mm) implies mm == m as int by {
                lemma_sqrt_floor_unique(norm_sq(*self), mm, m as int);
            };
        }
        r
    }
}

impl From<(i64, i64, i64)> for Vector3D {
    /// The vector with the tuple's components, in milliunits.
    fn from(value: (i64, i64, i64)) -> (r: Vector3D)
        ensures
            r == (Vector3D { x: value.0, y: value.1, z: value.2 }),
    {
        Vector3D { x: value.0, y: value.1, z: value.2 }
    }
}

impl vstd::std_specs::convert::FromSpecImpl<(i64, i64, i64)> for Vector3D {
    open spec fn obeys_from_spec() -> bool {
        true
    }

    open spec fn from_spec(value: (i64, i64, i64)) -> Vector3D {
        Vector3D { x: value.0, y: value.1, z: value.2 }
    }
}

/// The square of a signed 64-bit component, exact in 128 bits.
fn square_to_u128(c: i64) -> (s: u128)
    ensures
        s as int == (c as int) * (c as int),
        s as int <= 85070591730234615865843651857942052864,
{
    let wide: i128 = c as i128;
    proof {
        assert(0 <= wide as int * (wide as int)
            <= 85070591730234615865843651857942052864int) by (nonlinear_arith)
            requires -9223372036854775808int <= wide as int <= 9223372036854775807int;
    }
    (wide * wide) as u128
}

/// One component scaled by 1000 and divided by the magnitude, rounded
/// toward zero. The magnitude bounds the component's absolute value from
/// above, so the quotient stays within [-1000, 1000].
fn scale_component(c: i64, m: u64) -> (r: i64)
    requires
        m >= 1,
        (c as int) * (c as int) <= ((m as int) + 1) * ((m as int) + 1) - 1,
    ensures
        r == trunc_div(1000 * c, m as int),
        -1000 <= r <= 1000,
{
    proof {
        assert(c as int <= m as int && -(m as int) <= c as int) by (nonlinear_arith)
            requires
                (c as int) * (c as int) < ((m as int) + 1) * ((m as int) + 1),
                m >= 1;
    }
    let mag: u128 = m as u128;
    if c >= 0 {
        let scaled: u128 = (c as u128) * 1000;
        proof {
            assert(scaled as int == 1000 * (c as int));
            lemma_div_is_ordered(scaled as int, 1000 * (m as int), mag as int);
            lemma_div_multiples_vanish(1000, mag as int);
            assert((m as int) * 1000 == 1000 * (m as int));
        }
        let q: u128 = scaled / mag;
        q as i64
    } else {
        let neg: i128 = -(c as i128);
        let scaled: u128 = (neg as u128) * 1000;
        proof {
            assert(scaled as int == -(1000 * (c as int)));
            lemma_div_is_ordered(scaled as int, 1000 * (m as int), mag as int);
            lemma_div_multiples_vanish(1000, mag as int);
            assert((m as int) * 1000 == 1000 * (m as int));
        }
        let q: u128 = scaled / mag;
        -(q as i64)
    }
}

} // verus!
