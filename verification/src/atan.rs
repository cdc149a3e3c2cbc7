use vstd::prelude::*;

use crate::angles::fold_centi;
use crate::angles::lemma_fold_in_range;
use crate::angles::lemma_fold_shift;
use crate::vectors::Vector3D;

verus! {

/// The tangent of `d` whole degrees, scaled by one million and rounded to
/// the nearest integer, for `d` in 0..=89. Values outside that range are
/// clamped to the ends; the table is strictly increasing on 0..=89.
pub open spec fn tan_mega(d: int) -> int {
    if d <= 0 {
        0
    } else if d == 1 {
        17455
    } else if d == 2 {
        34921
    } else if d == 3 {
        52408
    } else if d == 4 {
        69927
    } else if d == 5 {
        87489
    } else if d == 6 {
        105104
    } else if d == 7 {
        122785
    } else if d == 8 {
        140541
    } else if d == 9 {
        158384
    } else if d == 10 {
        176327
    } else if d == 11 {
        194380
    } else if d == 12 {
        212557
    } else if d == 13 {
        230868
    } else if d == 14 {
        249328
    } else if d == 15 {
        267949
    } else if d == 16 {
        286745
    } else if d == 17 {
        305731
    } else if d == 18 {
        324920
    } else if d == 19 {
        344328
    } else if d == 20 {
        363970
    } else if d == 21 {
        383864
    } else if d == 22 {
        404026
    } else if d == 23 {
        424475
    } else if d == 24 {
        445229
    } else if d == 25 {
        466308
    } else if d == 26 {
        487733
    } else if d == 27 {
        509525
    } else if d == 28 {
        531709
    } else if d == 29 {
        554309
    } else if d == 30 {
        577350
    } else if d == 31 {
        600861
    } else if d == 32 {
        624869
    } else if d == 33 {
        649408
    } else if d == 34 {
        674509
    } else if d == 35 {
        700208
    } else if d == 36 {
        726543
    } else if d == 37 {
        753554
    } else if d == 38 {
        781286
    } else if d == 39 {
        809784
    } else if d == 40 {
        839100
    } else if d == 41 {
        869287
    } else if d == 42 {
        900404
    } else if d == 43 {
        932515
    } else if d == 44 {
        965689
    } else if d == 45 {
        1000000
    } else if d == 46 {
        1035530
    } else if d == 47 {
        1072369
    } else if d == 48 {
        1110613
    } else if d == 49 {
        1150368
    } else if d == 50 {
        1191754
    } else if d == 51 {
        1234897
    } else if d == 52 {
        1279942
    } else if d == 53 {
        1327045
    } else if d == 54 {
        1376382
    } else if d == 55 {
        1428148
    } else if d == 56 {
        1482561
    } else if d == 57 {
        1539865
    } else if d == 58 {
        1600335
    } else if d == 59 {
        1664279
    } else if d == 60 {
        1732051
    } else if d == 61 {
        1804048
    } else if d == 62 {
        1880726
    } else if d == 63 {
        1962611
    } else if d == 64 {
        2050304
    } else if d == 65 {
        2144507
    } else if d == 66 {
        2246037
    } else if d == 67 {
        2355852
    } else if d == 68 {
        2475087
    } else if d == 69 {
        2605089
    } else if d == 70 {
        2747477
    } else if d == 71 {
        2904211
    } else if d == 72 {
        3077684
    } else if d == 73 {
        3270853
    } else if d == 74 {
        3487414
    } else if d == 75 {
        3732051
    } else if d == 76 {
        4010781
    } else if d == 77 {
        4331476
    } else if d == 78 {
        4704630
    } else if d == 79 {
        5144554
    } else if d == 80 {
        5671282
    } else if d == 81 {
        6313752
    } else if d == 82 {
        7115370
    } else if d == 83 {
        8144346
    } else if d == 84 {
        9514364
    } else if d == 85 {
        11430052
    } else if d == 86 {
        14300666
    } else if d == 87 {
        19081137
    } else if d == 88 {
        28636253
    } else {
        57289962
    }
}

/// Table lookup for the scaled tangent of `d` whole degrees.
fn tan_mega_x(d: u32) -> (t: i64)
    requires
        d <= 89,
    ensures
        t == tan_mega(d as int),
        0 <= t <= 57289962,
{
    if d == 0 {
        0
    } else if d == 1 {
        17455
    } else if d == 2 {
        34921
    } else if d == 3 {
        52408
    } else if d == 4 {
        69927
    } else if d == 5 {
        87489
    } else if d == 6 {
        105104
    } else if d == 7 {
        122785
    } else if d == 8 {
        140541
    } else if d == 9 {
        158384
    } else if d == 10 {
        176327
    } else if d == 11 {
        194380
    } else if d == 12 {
        212557
    } else if d == 13 {
        230868
    } else if d == 14 {
        249328
    } else if d == 15 {
        267949
    } else if d == 16 {
        286745
    } else if d == 17 {
        305731
    } else if d == 18 {
        324920
    } else if d == 19 {
        344328
    } else if d == 20 {
        363970
    } else if d == 21 {
        383864
    } else if d == 22 {
        404026
    } else if d == 23 {
        424475
    } else if d == 24 {
        445229
    } else if d == 25 {
        466308
    } else if d == 26 {
        487733
    } else if d == 27 {
        509525
    } else if d == 28 {
        531709
    } else if d == 29 {
        554309
    } else if d == 30 {
        577350
    } else if d == 31 {
        600861
    } else if d == 32 {
        624869
    } else if d == 33 {
        649408
    } else if d == 34 {
        674509
    } else if d == 35 {
        700208
    } else if d == 36 {
        726543
    } else if d == 37 {
        753554
    } else if d == 38 {
        781286
    } else if d == 39 {
        809784
    } else if d == 40 {
        839100
    } else if d == 41 {
        869287
    } else if d == 42 {
        900404
    } else if d == 43 {
        932515
    } else if d == 44 {
        965689
    } else if d == 45 {
        1000000
    } else if d == 46 {
        1035530
    } else if d == 47 {
        1072369
    } else if d == 48 {
        1110613
    } else if d == 49 {
        1150368
    } else if d == 50 {
        1191754
    } else if d == 51 {
        1234897
    } else if d == 52 {
        1279942
    } else if d == 53 {
        1327045
    } else if d == 54 {
        1376382
    } else if d == 55 {
        1428148
    } else if d == 56 {
        1482561
    } else if d == 57 {
        1539865
    } else if d == 58 {
        1600335
    } else if d == 59 {
        1664279
    } else if d == 60 {
        1732051
    } else if d == 61 {
        1804048
    } else if d == 62 {
        1880726
    } else if d == 63 {
        1962611
    } else if d == 64 {
        2050304
    } else if d == 65 {
        2144507
    } else if d == 66 {
        2246037
    } else if d == 67 {
        2355852
    } else if d == 68 {
        2475087
    } else if d == 69 {
        2605089
    } else if d == 70 {
        2747477
    } else if d == 71 {
        2904211
    } else if d == 72 {
        3077684
    } else if d == 73 {
        3270853
    } else if d == 74 {
        3487414
    } else if d == 75 {
        3732051
    } else if d == 76 {
        4010781
    } else if d == 77 {
        4331476
    } else if d == 78 {
        4704630
    } else if d == 79 {
        5144554
    } else if d == 80 {
        5671282
    } else if d == 81 {
        6313752
    } else if d == 82 {
        7115370
    } else if d == 83 {
        8144346
    } else if d == 84 {
        9514364
    } else if d == 85 {
        11430052
    } else if d == 86 {
        14300666
    } else if d == 87 {
        19081137
    } else if d == 88 {
        28636253
    } else {
        57289962
    }
}

/// The scan that quantizes an arctangent: the first whole degree `i` whose
/// successor's tangent exceeds the ratio `a / b`, or 89 if none does below
/// the top of the table. For `a >= 0` and `b >= 1` this is the arctangent
/// of `a / b` in whole degrees, rounded down.
pub open spec fn atan_scan(a: int, b: int, i: int) -> int
    decreases 89 - i,
{
    if i >= 89 {
        89
    } else if 1000000 * a < tan_mega(i + 1) * b {
        i
    } else {
        atan_scan(a, b, i + 1)
    }
}

/// The arctangent of `a / b` in whole degrees, rounded down, for `a >= 0`
/// and `b >= 1`.
pub open spec fn atan_deg(a: int, b: int) -> int {
    atan_scan(a, b, 0)
}

/// The scan depends on `a` and `b` only through the ratio `a / b`: scaling
/// both by the same positive factor changes nothing.
pub proof fn lemma_atan_scan_scale(a: int, b: int, k: int, i: int)
    requires
        k > 0,
    ensures
        atan_scan(k * a, k * b, i) == atan_scan(a, b, i),
    decreases (if i < 89 { 89 - i } else { 0int }),
{
    if i < 89 {
        let t = tan_mega(i + 1);
        assert((1000000 * (k * a) < t * (k * b)) == (1000000 * a < t * b)) by (nonlinear_arith)
            requires
                k > 0,
        ;
        if !(1000000 * a < t * b) {
            lemma_atan_scan_scale(a, b, k, i + 1);
        }
    }
}

/// The quantized planar atan2 of `(x, z)` in centidegrees, at whole-degree
/// granularity, measured from the positive `z` axis toward positive `x`,
/// in [-18000, 18000]. The zero vector is excluded.
pub open spec fn atan2_centi(x: int, z: int) -> int
    recommends
        !(x == 0 && z == 0),
{
    if z > 0 {
        if x >= 0 {
            100 * atan_deg(x, z)
        } else {
            -100 * atan_deg(-x, z)
        }
    } else if z == 0 {
        if x >= 0 {
            9000
        } else {
            -9000
        }
    } else {
        if x >= 0 {
            18000 - 100 * atan_deg(x, -z)
        } else {
            -18000 + 100 * atan_deg(-x, -z)
        }
    }
}

/// The steering bearing of a planar direction `(x, z)`: the quantized
/// atan2 negated, to match the telemetry heading's sign convention, and
/// folded into (-18000, 18000].
pub open spec fn bearing_spec(x: int, z: int) -> int {
    fold_centi(-atan2_centi(x, z))
}

/// The arctangent scan, executed as a table walk.
fn atan_deg_x(a: i128, b: i128) -> (d: u32)
    requires
        0 <= a <= 9223372036854775808,
        1 <= b <= 9223372036854775808,
    ensures
        d == atan_deg(a as int, b as int),
        d <= 89,
{
    let mut i: u32 = 0;
    while i < 89
        invariant
            i <= 89,
            0 <= a <= 9223372036854775808,
            1 <= b <= 9223372036854775808,
            atan_deg(a as int, b as int) == atan_scan(a as int, b as int, i as int),
        decreases 89 - i,
    {
        let t = tan_mega_x(i + 1);
        proof {
            assert(0 <= (t as int) * (b as int) <= 57289962int * 9223372036854775808int)
                by (nonlinear_arith)
                requires
                    0 <= t as int <= 57289962,
                    1 <= b as int <= 9223372036854775808int,
            ;
        }
        if 1000000 * a < (t as i128) * b {
            return i;
        }
        i = i + 1;
    }
    89
}

impl Vector3D {
    /// The signed bearing of this vector's planar direction `(x, z)`, in
    /// centidegrees at whole-degree granularity, in (-18000, 18000]. The
    /// vertical component plays no part. The zero planar direction has no
    /// bearing and is excluded; the caller short-circuits on it.
    pub fn to_angle(&self) -> (bearing: i64)
        requires
            !(self.x == 0 && self.z == 0),
        ensures
            bearing == bearing_spec(self.x as int, self.z as int),
            -18000 < bearing <= 18000,
    {
        let x: i128 = self.x as i128;
        let z: i128 = self.z as i128;
        let t: i64 = if z > 0 {
            if x >= 0 {
                let d = atan_deg_x(x, z);
                100 * (d as i64)
            } else {
                let d = atan_deg_x(-x, z);
                -(100 * (d as i64))
            }
        } else if z == 0 {
            if x >= 0 {
                9000
            } else {
                -9000
            }
        } else {
            if x >= 0 {
                let d = atan_deg_x(x, -z);
                18000 - 100 * (d as i64)
            } else {
                let d = atan_deg_x(-x, -z);
                -18000 + 100 * (d as i64)
            }
        };
        proof {
            assert(t == atan2_centi(self.x as int, self.z as int));
            assert(-18000 <= t <= 18000);
        }
        if t == 18000 {
            proof {
                lemma_fold_shift(-18000);
                lemma_fold_in_range(18000);
            }
            18000
        } else {
            proof {
                lemma_fold_in_range(-t as int);
            }
            -t
        }
    }
}

/// The bearing of a planar direction is invariant under scaling the
/// direction by any positive factor.
pub proof fn lemma_bearing_scale(x: int, z: int, k: int)
    requires
        k > 0,
        !(x == 0 && z == 0),
    ensures
        bearing_spec(k * x, k * z) == bearing_spec(x, z),
{
    assert((k * z > 0) == (z > 0) && (k * z == 0) == (z == 0) && (k * z < 0) == (z < 0) && (k
        * x >= 0) == (x >= 0)) by (nonlinear_arith)
        requires
            k > 0,
    ;
    assert(-(k * x) == k * (-x) && -(k * z) == k * (-z)) by (nonlinear_arith);
    if z > 0 {
        if x >= 0 {
            lemma_atan_scan_scale(x, z, k, 0);
        } else {
            lemma_atan_scan_scale(-x, z, k, 0);
        }
    } else if z < 0 {
        if x >= 0 {
            lemma_atan_scan_scale(x, -z, k, 0);
        } else {
            lemma_atan_scan_scale(-x, -z, k, 0);
        }
    }
}

} // verus!
