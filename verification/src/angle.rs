use vstd::prelude::*;

verus! {

/// Angle units per full turn. A rotation angle of 400 units corresponds to
/// one full revolution, so a quarter turn is 100 units.
pub const TURN: i64 = 400;

/// A quarter turn in angle units; also the amplitude of the triangular
/// sine, so direction components range over [-QUARTER, QUARTER].
pub const QUARTER: i64 = 100;

/// Rust's truncating remainder of `x` by `m` (`m > 0`): the result has the
/// sign of `x` and magnitude `|x| % m`. This is the semantics of the `%`
/// operator on machine integers, stated over unbounded integers.
pub open spec fn trunc_rem(x: int, m: int) -> int {
    if x >= 0 {
        x % m
    } else {
        -((-x) % m)
    }
}

/// Remainder of `x` by `TURN` with the sign of `x`, exactly as the `%`
/// operator computes it.
pub fn wrap_angle(x: i64) -> (r: i64)
    requires
        x > i64::MIN,
    ensures
        r == trunc_rem(x as int, TURN as int),
        -TURN < r < TURN,
{
    let r: i64 = x % TURN;
    proof {
        vstd::arithmetic::div_mod::lemma_mod_bound(x as int, TURN as int);
        if x < 0 {
            vstd::arithmetic::div_mod::lemma_mod_bound(-x as int, TURN as int);
        }
    }
    r
}

/// A triangular stand-in for the sine, over angle units: it rises linearly
/// from 0 at angle 0 to `QUARTER` at a quarter turn, falls to `-QUARTER` at
/// three quarters, and returns to 0 at a full turn. Direction components of
/// headings are taken from it, so they are exact integers.
pub open spec fn tri_sin(a: int) -> int {
    let q = a % (TURN as int);
    if q < QUARTER {
        q
    } else if q < 3 * QUARTER {
        2 * QUARTER - q
    } else {
        q - TURN
    }
}

/// The cosine companion of `tri_sin`: the same wave a quarter turn ahead.
pub open spec fn tri_cos(a: int) -> int {
    tri_sin(a + QUARTER)
}

/// `a` reduced to the canonical range [0, TURN): the Euclidean remainder,
/// recovered from the machine's truncating `%`.
fn norm_angle(a: i64) -> (q: i64)
    ensures
        q == a as int % (TURN as int),
        0 <= q < TURN,
{
    let t: i64 = a % TURN;
    proof {
        vstd::arithmetic::div_mod::lemma_mod_bound(a as int, TURN as int);
        if a < 0 {
            vstd::arithmetic::div_mod::lemma_mod_bound(-(a as int), TURN as int);
        }
    }
    if a >= 0 {
        t
    } else if t == 0 {
        proof {
            lemma_neg_mod_zero(a as int, TURN as int);
        }
        0
    } else {
        proof {
            let m = TURN as int;
            let u = (-(a as int)) % m;
            let d = (-(a as int)) / m;
            vstd::arithmetic::div_mod::lemma_fundamental_div_mod(-(a as int), m);
            assert(a as int == (-d - 1) * m + (m - u)) by (nonlinear_arith)
                requires
                    -(a as int) == m * d + u,
            ;
            vstd::arithmetic::div_mod::lemma_fundamental_div_mod_converse(
                a as int,
                m,
                -d - 1,
                m - u,
            );
        }
        t + TURN
    }
}

/// If `-a` is a multiple of `m`, so is `a`.
proof fn lemma_neg_mod_zero(a: int, m: int)
    requires
        m > 0,
        (-a) % m == 0,
    ensures
        a % m == 0,
{
    let d = (-a) / m;
    vstd::arithmetic::div_mod::lemma_fundamental_div_mod(-a, m);
    assert(-a == m * d);
    assert(a == m * (-d)) by (nonlinear_arith)
        requires
            -a == m * d,
    ;
    vstd::arithmetic::div_mod::lemma_mod_multiples_basic(-d, m);
}

/// `tri_sin`, computed on a machine angle.
pub fn tri_sin_i(a: i64) -> (r: i64)
    ensures
        r == tri_sin(a as int),
        -QUARTER <= r <= QUARTER,
{
    let q = norm_angle(a);
    if q < QUARTER {
        q
    } else if q < 3 * QUARTER {
        2 * QUARTER - q
    } else {
        q - TURN
    }
}

/// `tri_cos`, computed on a machine angle.
pub fn tri_cos_i(a: i64) -> (r: i64)
    ensures
        r == tri_cos(a as int),
        -QUARTER <= r <= QUARTER,
{
    let q = norm_angle(a);
    proof {
        vstd::arithmetic::div_mod::lemma_add_mod_noop_right(QUARTER as int, a as int, TURN as int);
    }
    let s: i64 = if q + QUARTER >= TURN {
        proof {
            vstd::arithmetic::div_mod::lemma_mod_sub_multiples_vanish(
                q as int + QUARTER,
                TURN as int,
            );
            vstd::arithmetic::div_mod::lemma_small_mod((q + QUARTER - TURN) as nat, TURN as nat);
        }
        q + QUARTER - TURN
    } else {
        proof {
            vstd::arithmetic::div_mod::lemma_small_mod((q + QUARTER) as nat, TURN as nat);
        }
        q + QUARTER
    };
    if s < QUARTER {
        s
    } else if s < 3 * QUARTER {
        2 * QUARTER - s
    } else {
        s - TURN
    }
}

} // verus!
