use vstd::prelude::*;
use vstd::arithmetic::div_mod::lemma_fundamental_div_mod;
use vstd::arithmetic::div_mod::lemma_mod_add_multiples_vanish;
use vstd::arithmetic::div_mod::lemma_mod_bound;
use vstd::arithmetic::div_mod::lemma_mod_multiples_vanish;
use vstd::arithmetic::div_mod::lemma_small_mod;

verus! {

/// Angles are carried as signed centidegrees: 18000 stands for a half turn
/// (180 degrees) and 36000 for a full turn.
///
/// `fold_centi(d)` folds an arbitrary centidegree value into the half-open
/// interval (-18000, 18000], the canonical range used throughout the
/// controller. The fold keeps the value congruent to `d` modulo a full turn.
pub open spec fn fold_centi(d: int) -> int {
    18000 - (18000 - d) % 36000
}

/// The canonical fold lands in (-18000, 18000].
pub proof fn lemma_fold_range(d: int)
    ensures
        -18000 < fold_centi(d) <= 18000,
{
    lemma_mod_bound(18000 - d, 36000);
}

/// A value already in the canonical range is left unchanged by the fold.
pub proof fn lemma_fold_in_range(d: int)
    requires
        -18000 < d <= 18000,
    ensures
        fold_centi(d) == d,
{
    lemma_small_mod((18000 - d) as nat, 36000 as nat);
}

/// Shifting by one full turn does not change the folded angle.
pub proof fn lemma_fold_shift(d: int)
    ensures
        fold_centi(d + 36000) == fold_centi(d),
        fold_centi(d - 36000) == fold_centi(d),
{
    assert((18000 - (d + 36000)) % 36000 == (18000 - d) % 36000) by {
        lemma_mod_multiples_vanish(-1, 18000 - d, 36000);
    };
    assert((18000 - (d - 36000)) % 36000 == (18000 - d) % 36000) by {
        lemma_mod_multiples_vanish(1, 18000 - d, 36000);
    };
}

/// Shifting by any whole number of full turns does not change the folded
/// angle.
pub proof fn lemma_fold_period(d: int, k: int)
    ensures
        fold_centi(d + 36000 * k) == fold_centi(d),
{
    assert(18000 - (d + 36000 * k) == 36000 * (-k) + (18000 - d)) by {
        assert(36000 * (-k) == -(36000 * k)) by (nonlinear_arith);
    };
    lemma_mod_multiples_vanish(-k, 18000 - d, 36000);
}

/// The signed difference between two angles, folded into the canonical
/// range (-18000, 18000].
pub open spec fn angle_diff_spec(a: int, b: int) -> int {
    fold_centi(a - b)
}

/// The folded difference of two centidegree angles.
///
/// Returns `a - b` brought into (-18000, 18000] by whole turns, as the
/// original heading error computation does by repeatedly adding or
/// subtracting a full turn.
pub fn angle_diff(a: i64, b: i64) -> (r: i64)
    ensures
        r == angle_diff_spec(a as int, b as int),
        -18000 < r <= 18000,
{
    let mut r: i128 = a as i128 - b as i128;
    proof {
        lemma_fold_range(a - b);
    }
    while r <= -18000
        invariant
            fold_centi(r as int) == fold_centi(a - b),
            r <= 18000 || r == a as i128 - b as i128,
        decreases 18000 - r,
    {
        proof {
            lemma_fold_shift(r as int);
        }
        r = r + 36000;
    }
    while r > 18000
        invariant
            fold_centi(r as int) == fold_centi(a - b),
            r > -18000,
        decreases r + 18000,
    {
        proof {
            lemma_fold_shift(r as int - 36000);
        }
        r = r - 36000;
    }
    proof {
        lemma_fold_in_range(r as int);
    }
    r as i64
}

/// The folded angle difference always lands in (-18000, 18000].
pub proof fn lemma_angle_diff_range(a: int, b: int)
    ensures
        -18000 < angle_diff_spec(a, b) <= 18000,
{
    lemma_fold_range(a - b);
}

/// The angle difference is invariant under adding whole turns to either
/// argument.
pub proof fn lemma_angle_diff_period(a: int, b: int, k: int)
    ensures
        angle_diff_spec(a + 36000 * k, b) == angle_diff_spec(a, b),
        angle_diff_spec(a, b + 36000 * k) == angle_diff_spec(a, b),
{
    lemma_fold_period(a - b, k);
    assert((a + 36000 * k) - b == (a - b) + 36000 * k);
    assert(a - (b + 36000 * k) == (a - b) + 36000 * (-k)) by {
        assert(36000 * (-k) == -(36000 * k)) by (nonlinear_arith);
    };
    lemma_fold_period(a - b, -k);
}

/// Swapping the arguments negates the difference, except on the half-turn
/// boundary, which is its own opposite: both orders give exactly 18000.
pub proof fn lemma_angle_diff_antisym(a: int, b: int)
    ensures
        angle_diff_spec(a, b) == 18000 ==> angle_diff_spec(b, a) == 18000,
        angle_diff_spec(a, b) != 18000 ==> angle_diff_spec(b, a) == -angle_diff_spec(a, b),
{
    let m = 36000;
    let x = 18000 - (a - b);
    lemma_fundamental_div_mod(x, m);
    lemma_mod_bound(x, m);
    let q = x / m;
    let r = x % m;
    assert(18000 - (b - a) == m + (-x));
    lemma_mod_add_multiples_vanish(-x, m);
    if r == 0 {
        assert(-x == m * (-q));
        assert((m * (-q) + 0int) % m == 0int % m) by {
            lemma_mod_multiples_vanish(-q, 0, m);
        };
        lemma_small_mod(0 as nat, m as nat);
    } else {
        assert(-x == m * (-q - 1) + (m - r));
        assert((m * (-q - 1) + (m - r)) % m == (m - r) % m) by {
            lemma_mod_multiples_vanish(-q - 1, m - r, m);
        };
        lemma_small_mod((m - r) as nat, m as nat);
    }
}

} // verus!
