//! Fixed-point sine and cosine: range reduction modulo a full turn followed
//! by a truncated Taylor polynomial on the reduced quadrant argument.
//!
//! The executable functions compute exactly the value of their spec mirrors
//! (`fx_sin_raw`, `fx_cos_raw`); accuracy against the real functions is a
//! matter of the chosen polynomial degree and is exercised by tests.

use crate::fixed::{fx_mul_raw, lemma_fx_mul_bound, lemma_trunc_div_range, trunc_div, Fx, SCALE};
use vstd::arithmetic::div_mod::{
    lemma_fundamental_div_mod, lemma_fundamental_div_mod_converse_mod, lemma_mod_bound,
};
use vstd::prelude::*;

verus! {

/// One half turn, in raw ticks (pi scaled by one million).
pub const PI_RAW: i64 = 3_141_593;

/// One full turn, in raw ticks.
pub const TWO_PI_RAW: i64 = 6_283_185;

/// One quarter turn, in raw ticks.
pub const HALF_PI_RAW: i64 = 1_570_796;

/// Coarse magnitude bound on every sine or cosine raw this module returns.
pub const SIN_COS_BOUND: i64 = 4_000_000;

/// The angle reduced to (-half turn, half turn], in raw ticks.
pub open spec fn angle_fold(x: int) -> int {
    let m = x % (TWO_PI_RAW as int);
    if m > PI_RAW as int {
        m - TWO_PI_RAW as int
    } else {
        m
    }
}

/// Taylor polynomial for sine on a quarter-turn argument, in raw ticks.
pub open spec fn fx_sin_poly(x: int) -> int {
    let s = SCALE as int;
    let x2 = fx_mul_raw(x, x);
    let t5 = s - trunc_div(x2, 110);
    let t4 = s - trunc_div(fx_mul_raw(x2, t5), 72);
    let t3 = s - trunc_div(fx_mul_raw(x2, t4), 42);
    let t2 = s - trunc_div(fx_mul_raw(x2, t3), 20);
    let t1 = s - trunc_div(fx_mul_raw(x2, t2), 6);
    fx_mul_raw(x, t1)
}

/// Taylor polynomial for cosine on a quarter-turn argument, in raw ticks.
pub open spec fn fx_cos_poly(x: int) -> int {
    let s = SCALE as int;
    let x2 = fx_mul_raw(x, x);
    let c4 = s - trunc_div(x2, 90);
    let c3 = s - trunc_div(fx_mul_raw(x2, c4), 56);
    let c2 = s - trunc_div(fx_mul_raw(x2, c3), 30);
    let c1 = s - trunc_div(fx_mul_raw(x2, c2), 12);
    s - trunc_div(fx_mul_raw(x2, c1), 2)
}

/// Sine of an angle given in raw ticks of radians.
pub open spec fn fx_sin_raw(x: int) -> int {
    let r = angle_fold(x);
    let a = if r > HALF_PI_RAW as int {
        PI_RAW as int - r
    } else if r < -(HALF_PI_RAW as int) {
        -(PI_RAW as int) - r
    } else {
        r
    };
    fx_sin_poly(a)
}

/// Cosine of an angle given in raw ticks of radians.
pub open spec fn fx_cos_raw(x: int) -> int {
    let r = angle_fold(x);
    let a = if r < 0 {
        -r
    } else {
        r
    };
    if a > HALF_PI_RAW as int {
        -fx_cos_poly(PI_RAW as int - a)
    } else {
        fx_cos_poly(a)
    }
}

/// At angle zero the sine is exactly zero and the cosine exactly one.
pub proof fn lemma_trig_at_zero()
    ensures
        fx_sin_raw(0) == 0,
        fx_cos_raw(0) == SCALE as int,
{
    let t = TWO_PI_RAW as int;
    assert(0int % t == 0) by {
        vstd::arithmetic::div_mod::lemma_small_mod(0nat, t as nat);
    };
    assert(angle_fold(0) == 0);
    crate::fixed::lemma_fx_mul_unit(0);
    crate::fixed::lemma_fx_mul_unit(SCALE as int);
    vstd::arithmetic::div_mod::lemma_div_of0(110);
    vstd::arithmetic::div_mod::lemma_div_of0(72);
    vstd::arithmetic::div_mod::lemma_div_of0(42);
    vstd::arithmetic::div_mod::lemma_div_of0(20);
    vstd::arithmetic::div_mod::lemma_div_of0(6);
    vstd::arithmetic::div_mod::lemma_div_of0(90);
    vstd::arithmetic::div_mod::lemma_div_of0(56);
    vstd::arithmetic::div_mod::lemma_div_of0(30);
    vstd::arithmetic::div_mod::lemma_div_of0(12);
    vstd::arithmetic::div_mod::lemma_div_of0(2);
    assert(fx_sin_poly(0) == 0);
    assert(fx_cos_poly(0) == SCALE as int);
}

/// Euclidean remainder of a raw angle by one full turn.
fn angle_mod(x: i64) -> (r: i64)
    requires
        x > i64::MIN,
    ensures
        r as int == (x as int) % (TWO_PI_RAW as int),
        0 <= r < TWO_PI_RAW,
{
    let t_u: u64 = TWO_PI_RAW as u64;
    if x >= 0 {
        let m: u64 = (x as u64) % t_u;
        m as i64
    } else {
        let t: u64 = ((-x) as u64) % t_u;
        proof {
            let xi = x as int;
            let tt = TWO_PI_RAW as int;
            lemma_fundamental_div_mod(-xi, tt);
            lemma_mod_bound(-xi, tt);
            let q = (-xi) / tt;
            let tm = (-xi) % tt;
            if tm == 0 {
                assert(xi == (-q) * tt + 0);
                lemma_fundamental_div_mod_converse_mod(xi, tt, -q, 0);
            } else {
                assert(xi == (-q - 1) * tt + (tt - tm));
                lemma_fundamental_div_mod_converse_mod(xi, tt, -q - 1, tt - tm);
            }
        }
        if t == 0 {
            0
        } else {
            (t_u - t) as i64
        }
    }
}

/// Evaluates the sine polynomial on a quarter-turn raw argument.
fn sin_poly(xr: i64) -> (r: Fx)
    requires
        -1_570_797 <= xr <= 1_570_797,
    ensures
        r.raw == fx_sin_poly(xr as int),
        -SIN_COS_BOUND <= r.raw <= SIN_COS_BOUND,
{
    let x = Fx { raw: xr };
    let x2 = x.mul(x);
    proof {
        lemma_fx_mul_bound(xr as int, xr as int, 1_570_797, 1_570_797);
    }
    let m5 = x2.divn(110);
    proof {
        lemma_trunc_div_range(x2.raw as int, 110, 2_467_403);
    }
    let t5 = Fx { raw: SCALE }.sub(m5);
    let m4 = x2.mul(t5);
    proof {
        lemma_fx_mul_bound(x2.raw as int, t5.raw as int, 2_467_403, 2_000_000);
        lemma_trunc_div_range(m4.raw as int, 72, 4_934_806);
    }
    let t4 = Fx { raw: SCALE }.sub(m4.divn(72));
    let m3 = x2.mul(t4);
    proof {
        lemma_fx_mul_bound(x2.raw as int, t4.raw as int, 2_467_403, 2_000_000);
        lemma_trunc_div_range(m3.raw as int, 42, 4_934_806);
    }
    let t3 = Fx { raw: SCALE }.sub(m3.divn(42));
    let m2 = x2.mul(t3);
    proof {
        lemma_fx_mul_bound(x2.raw as int, t3.raw as int, 2_467_403, 2_000_000);
        lemma_trunc_div_range(m2.raw as int, 20, 4_934_806);
    }
    let t2 = Fx { raw: SCALE }.sub(m2.divn(20));
    let m1 = x2.mul(t2);
    proof {
        lemma_fx_mul_bound(x2.raw as int, t2.raw as int, 2_467_403, 2_000_000);
        lemma_trunc_div_range(m1.raw as int, 6, 4_934_806);
    }
    let t1 = Fx { raw: SCALE }.sub(m1.divn(6));
    proof {
        lemma_fx_mul_bound(xr as int, t1.raw as int, 1_570_797, 2_000_000);
    }
    x.mul(t1)
}

/// Evaluates the cosine polynomial on a quarter-turn raw argument.
fn cos_poly(xr: i64) -> (r: Fx)
    requires
        -1_570_797 <= xr <= 1_570_797,
    ensures
        r.raw == fx_cos_poly(xr as int),
        -SIN_COS_BOUND <= r.raw <= SIN_COS_BOUND,
{
    let x = Fx { raw: xr };
    let x2 = x.mul(x);
    proof {
        lemma_fx_mul_bound(xr as int, xr as int, 1_570_797, 1_570_797);
    }
    let m4 = x2.divn(90);
    proof {
        lemma_trunc_div_range(x2.raw as int, 90, 2_467_403);
    }
    let c4 = Fx { raw: SCALE }.sub(m4);
    let m3 = x2.mul(c4);
    proof {
        lemma_fx_mul_bound(x2.raw as int, c4.raw as int, 2_467_403, 2_000_000);
        lemma_trunc_div_range(m3.raw as int, 56, 4_934_806);
    }
    let c3 = Fx { raw: SCALE }.sub(m3.divn(56));
    let m2 = x2.mul(c3);
    proof {
        lemma_fx_mul_bound(x2.raw as int, c3.raw as int, 2_467_403, 2_000_000);
        lemma_trunc_div_range(m2.raw as int, 30, 4_934_806);
    }
    let c2 = Fx { raw: SCALE }.sub(m2.divn(30));
    let m1 = x2.mul(c2);
    proof {
        lemma_fx_mul_bound(x2.raw as int, c2.raw as int, 2_467_403, 2_000_000);
        lemma_trunc_div_range(m1.raw as int, 12, 4_934_806);
    }
    let c1 = Fx { raw: SCALE }.sub(m1.divn(12));
    let m0 = x2.mul(c1);
    proof {
        lemma_fx_mul_bound(x2.raw as int, c1.raw as int, 2_467_403, 2_000_000);
        lemma_trunc_div_range(m0.raw as int, 2, 4_934_806);
    }
    Fx { raw: SCALE }.sub(m0.divn(2))
}

/// Sine of a fixed-point angle in radians.
pub fn fx_sin(x: Fx) -> (r: Fx)
    requires
        x.raw > i64::MIN,
    ensures
        r.raw == fx_sin_raw(x.raw as int),
        -SIN_COS_BOUND <= r.raw <= SIN_COS_BOUND,
{
    let m: i64 = angle_mod(x.raw);
    let red: i64 = if m > PI_RAW {
        m - TWO_PI_RAW
    } else {
        m
    };
    let a: i64 = if red > HALF_PI_RAW {
        PI_RAW - red
    } else if red < -HALF_PI_RAW {
        -PI_RAW - red
    } else {
        red
    };
    sin_poly(a)
}

/// Cosine of a fixed-point angle in radians.
pub fn fx_cos(x: Fx) -> (r: Fx)
    requires
        x.raw > i64::MIN,
    ensures
        r.raw == fx_cos_raw(x.raw as int),
        -SIN_COS_BOUND <= r.raw <= SIN_COS_BOUND,
{
    let m: i64 = angle_mod(x.raw);
    let red: i64 = if m > PI_RAW {
        m - TWO_PI_RAW
    } else {
        m
    };
    let a: i64 = if red < 0 {
        -red
    } else {
        red
    };
    if a > HALF_PI_RAW {
        let c = cos_poly(PI_RAW - a);
        c.neg()
    } else {
        cos_poly(a)
    }
}

} // verus!
