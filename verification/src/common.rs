//! Shared spatial primitives: rectangles, directions, colors, fade state and
//! the fixed-point coordinate convention used by every subsystem.
//!
//! A position is a signed integer counter whose low 9 bits are the
//! sub-pixel fraction: 512 fixed-point units are one logical pixel.

use vstd::prelude::*;

verus! {

/// Fixed-point units per logical pixel.
pub const FIX_SCALE: i32 = 512;

#[derive(Clone, Copy, PartialEq, Eq, Structural, Debug)]
pub enum Direction {
    Left,
    Up,
    Right,
    Bottom,
    FacingPlayer,
}

#[derive(Clone, Copy, PartialEq, Eq, Structural, Debug)]
pub struct Rect<T> {
    pub left: T,
    pub top: T,
    pub right: T,
    pub bottom: T,
}

/// An RGBA color with 8-bit channels; any scaling to floating display
/// colors happens at the render boundary.
#[derive(Clone, Copy, PartialEq, Eq, Structural, Debug)]
pub struct Color {
    pub r: u8,
    pub g: u8,
    pub b: u8,
    pub a: u8,
}

#[derive(Clone, Copy, PartialEq, Eq, Structural, Debug)]
pub enum FadeDirection {
    Left,
    Up,
    Right,
    Down,
    Center,
}

/// Screen fade progress. The counter of `FadeOut` climbs from 0 to 15 and
/// then the screen is hidden; the counter of `FadeIn` falls from 0 to -15
/// and then the screen is visible.
#[derive(Clone, Copy, PartialEq, Eq, Structural, Debug)]
pub enum FadeState {
    Visible,
    Hidden,
    FadeIn(i8, FadeDirection),
    FadeOut(i8, FadeDirection),
}

/// One step of the fade state machine.
pub open spec fn fade_step(f: FadeState) -> FadeState {
    match f {
        FadeState::FadeOut(tick, direction) => {
            if tick < 15 {
                FadeState::FadeOut((tick + 1) as i8, direction)
            } else if tick == 15 {
                FadeState::Hidden
            } else {
                f
            }
        },
        FadeState::FadeIn(tick, direction) => {
            if tick > -15 {
                FadeState::FadeIn((tick - 1) as i8, direction)
            } else if tick == -15 {
                FadeState::Visible
            } else {
                f
            }
        },
        _ => f,
    }
}

/// Advances a fade by one tick.
pub fn fade_tick(f: FadeState) -> (r: FadeState)
    ensures
        r == fade_step(f),
{
    match f {
        FadeState::FadeOut(tick, direction) => {
            if tick < 15 {
                FadeState::FadeOut(tick + 1, direction)
            } else if tick == 15 {
                FadeState::Hidden
            } else {
                f
            }
        },
        FadeState::FadeIn(tick, direction) => {
            if tick > -15 {
                FadeState::FadeIn(tick - 1, direction)
            } else if tick == -15 {
                FadeState::Visible
            } else {
                f
            }
        },
        _ => f,
    }
}

/// Truncating (round-toward-zero) division of `a` by a positive divisor,
/// the semantics shared by all fixed-point scaling in the simulation.
pub open spec fn tdiv(a: int, b: int) -> int
    recommends
        b > 0,
{
    if a >= 0 {
        a / b
    } else {
        -((-a) / b)
    }
}

/// `v` forced into the closed interval `[lo, hi]`.
pub open spec fn sclamp(v: int, lo: int, hi: int) -> int
    recommends
        lo <= hi,
{
    if v < lo {
        lo
    } else if v > hi {
        hi
    } else {
        v
    }
}

/// Truncating division for `i64` values, with the quotient pinned to `tdiv`.
pub fn tdiv_i64(a: i64, b: i64) -> (q: i64)
    requires
        b > 0,
        a > i64::MIN,
    ensures
        q == tdiv(a as int, b as int),
{
    if a >= 0 {
        a / b
    } else {
        -((-a) / b)
    }
}

/// Clamping for `i64` values, pinned to `sclamp`.
pub fn clamp_i64(v: i64, lo: i64, hi: i64) -> (r: i64)
    requires
        lo <= hi,
    ensures
        r == sclamp(v as int, lo as int, hi as int),
{
    if v < lo {
        lo
    } else if v > hi {
        hi
    } else {
        v
    }
}

/// The magnitude of a truncated scaled delta never exceeds the magnitude of
/// the delta itself: for `0 <= t <= den`, `tdiv(d * t, den)` lies between
/// `0` and `d`.
pub proof fn lemma_tdiv_scale_bounded(d: int, t: int, den: int)
    requires
        0 <= t <= den,
        0 < den,
    ensures
        d >= 0 ==> 0 <= tdiv(d * t, den) <= d,
        d <= 0 ==> d <= tdiv(d * t, den) <= 0,
{
    if d >= 0 {
        assert(0 <= d * t && d * t <= den * d) by (nonlinear_arith)
            requires
                d >= 0,
                0 <= t <= den,
        ;
        assert(d * t / den <= den * d / den) by {
            vstd::arithmetic::div_mod::lemma_div_is_ordered(d * t, den * d, den);
        }
        assert(den * d / den == d) by {
            vstd::arithmetic::div_mod::lemma_div_multiples_vanish(d, den);
        }
        assert(d * t / den >= 0) by {
            vstd::arithmetic::div_mod::lemma_div_pos_is_pos(d * t, den);
        }
    } else {
        let nd = -d;
        assert(nd * t == -(d * t) && 0 <= nd * t && nd * t <= den * nd) by (nonlinear_arith)
            requires
                nd == -d,
                d < 0,
                0 <= t <= den,
        ;
        assert(nd * t / den <= den * nd / den) by {
            vstd::arithmetic::div_mod::lemma_div_is_ordered(nd * t, den * nd, den);
        }
        assert(den * nd / den == nd) by {
            vstd::arithmetic::div_mod::lemma_div_multiples_vanish(nd, den);
        }
        assert(nd * t / den >= 0) by {
            vstd::arithmetic::div_mod::lemma_div_pos_is_pos(nd * t, den);
        }
        assert(tdiv(d * t, den) == -(nd * t / den));
    }
}

/// Interpolated render position between the previous and the current tick.
///
/// `prev` and `cur` are fixed-point coordinates; `t_num / 512` is the
/// interpolation fraction in `[0, 1]`. Interpolation happens in the shared
/// fixed-point space; the conversion to floating display pixels (a division
/// by the fixed-point scale and a multiplication by the screen scale) is
/// the render boundary's concern. The result always lies between `prev`
/// and `cur`, so motion is continuous even when the simulation ticks more
/// slowly than the display refreshes.
pub fn interpolate_fix9(prev: i32, cur: i32, t_num: u16) -> (r: i32)
    requires
        t_num <= 512,
    ensures
        r == prev + tdiv((cur - prev) * t_num, 512),
        prev <= cur ==> prev <= r <= cur,
        cur <= prev ==> cur <= r <= prev,
{
    let delta: i64 = cur as i64 - prev as i64;
    proof {
        assert(-0x200_0000_0000 <= delta * t_num && delta * t_num <= 0x200_0000_0000) by (nonlinear_arith)
            requires
                -0x1_0000_0000 <= delta <= 0x1_0000_0000,
                0 <= t_num <= 512,
        ;
    }
    let scaled: i64 = tdiv_i64(delta * t_num as i64, 512);
    proof {
        lemma_tdiv_scale_bounded(delta as int, t_num as int, 512);
    }
    (prev as i64 + scaled) as i32
}

/// Liveness/condition flags shared by players, NPCs, boss parts and
/// bullets.
#[derive(Clone, Copy, PartialEq, Eq, Structural, Debug, Default)]
pub struct Cond {
    pub alive: bool,
    pub hidden: bool,
    pub interacted: bool,
    pub explode_die: bool,
    pub damage_boss: bool,
    pub drs_novanish: bool,
}

} // verus!
