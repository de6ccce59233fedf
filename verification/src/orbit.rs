//! Orbital motion: each body's angular position is a pure function of elapsed
//! time, its angular speed, and its phase offset. Angles are measured in
//! micro-turns (1_000_000 micro-turns to a revolution), speeds in milli-turns
//! per second, and times in milliseconds, so the angle of a body is the exact
//! integer `speed * (phase - t)`.

use crate::geom::Vec3;
use vstd::arithmetic::div_mod::lemma_fundamental_div_mod;
use vstd::arithmetic::div_mod::lemma_fundamental_div_mod_converse_mod;
use vstd::arithmetic::div_mod::lemma_mod_multiples_vanish;
use vstd::prelude::*;

verus! {

/// Micro-turns in one full revolution.
pub const FULL_TURN: i128 = 1_000_000;

/// The angle, in micro-turns, of a body with angular speed `speed`
/// (milli-turns per second) and phase offset `phase` (milliseconds),
/// at elapsed time `t` (milliseconds).
pub open spec fn angle_micro_turns(speed: int, phase: int, t: int) -> int {
    speed * (phase - t)
}

/// Computes the angle of a body at elapsed time `t_milli`.
pub fn body_angle(speed_milli: u32, phase_milli: u32, t_milli: i64) -> (a: i128)
    ensures
        a == angle_micro_turns(speed_milli as int, phase_milli as int, t_milli as int),
{
    proof {
        let s = speed_milli as int;
        let d = phase_milli as int - t_milli as int;
        assert(-0x1000000000000000000000000 < s * d < 0x1000000000000000000000000)
            by (nonlinear_arith)
            requires
                0 <= s < 0x100000000,
                -0x10000000000000000 < d < 0x10000000000000000,
        ;
    }
    (speed_milli as i128) * ((phase_milli as i128) - (t_milli as i128))
}

/// The angle reduced to a single revolution: the unique representative in
/// `[0, FULL_TURN)` of `a` modulo a full turn. Two angles with the same
/// normalized value place the body at the same point of its orbit.
pub open spec fn norm_angle(a: int) -> int {
    a % (FULL_TURN as int)
}

/// Reduces an angle in micro-turns to `[0, FULL_TURN)`.
pub fn normalized_angle(a: i128) -> (n: u32)
    requires
        a != i128::MIN,
    ensures
        n == norm_angle(a as int),
{
    let m: i128 = FULL_TURN;
    if a >= 0 {
        let r = ((a as u128) % (m as u128)) as u32;
        proof {
            lemma_fundamental_div_mod(a as int, m as int);
        }
        r
    } else {
        let b = -a;
        let rb = (b as u128) % (m as u128);
        proof {
            lemma_fundamental_div_mod(b as int, m as int);
            let qb = b as int / m as int;
            if rb == 0 {
                lemma_fundamental_div_mod_converse_mod(a as int, m as int, -qb, 0);
            } else {
                lemma_fundamental_div_mod_converse_mod(
                    a as int,
                    m as int,
                    -qb - 1,
                    m as int - rb as int,
                );
            }
        }
        if rb == 0 {
            0
        } else {
            ((m as u128) - rb) as u32
        }
    }
}

/// Angular position is periodic: advancing elapsed time by any interval `dt`
/// that the speed carries through a whole number of revolutions
/// (`speed * dt == k * FULL_TURN`; one orbital period when `k == 1`) leaves
/// the normalized angle unchanged.
pub proof fn lemma_angle_periodic(speed: int, phase: int, t: int, dt: int, k: int)
    requires
        speed * dt == k * FULL_TURN,
    ensures
        norm_angle(angle_micro_turns(speed, phase, t + dt)) == norm_angle(
            angle_micro_turns(speed, phase, t),
        ),
{
    assert(speed * (phase - (t + dt)) == speed * (phase - t) - speed * dt) by (nonlinear_arith);
    lemma_mod_multiples_vanish(-k, angle_micro_turns(speed, phase, t), FULL_TURN as int);
}

/// Scale of the supplied trigonometric values: a cosine or sine of magnitude
/// one is handed to the position computation as exactly `TRIG_ONE`.
pub const TRIG_ONE: i64 = 1000;

/// Largest orbit radius, in scene units, that the position computation
/// accepts; far above any radius the scene builder assigns, and small enough
/// that a scaled position coordinate always fits in an `i64`.
pub const RADIUS_BOUND: u64 = 0x100_0000_0000;

/// The position of a body on its orbit, relative to its parent: the orbit
/// radius times the unit vector `(cos, 0, sin)` of its angle, with the trig
/// values scaled by `TRIG_ONE`. Coordinates of the result are therefore in
/// units of (scene unit / TRIG_ONE).
pub open spec fn orbit_position_spec(radius: int, cos_scaled: int, sin_scaled: int) -> (
    int,
    int,
    int,
) {
    (radius * cos_scaled, 0, radius * sin_scaled)
}

/// Computes a body's position from its orbit radius and the scaled cosine and
/// sine of its current angle.
pub fn orbit_position(radius_units: u64, cos_scaled: i64, sin_scaled: i64) -> (v: Vec3)
    requires
        radius_units < RADIUS_BOUND,
        -TRIG_ONE <= cos_scaled <= TRIG_ONE,
        -TRIG_ONE <= sin_scaled <= TRIG_ONE,
    ensures
        (v.x as int, v.y as int, v.z as int) == orbit_position_spec(
            radius_units as int,
            cos_scaled as int,
            sin_scaled as int,
        ),
{
    proof {
        lemma_radius_product_bounded(radius_units as int, cos_scaled as int);
        lemma_radius_product_bounded(radius_units as int, sin_scaled as int);
    }
    Vec3 { x: (radius_units as i64) * cos_scaled, y: 0, z: (radius_units as i64) * sin_scaled }
}

/// The product of an orbit radius and a scaled trig value fits in an `i64`.
proof fn lemma_radius_product_bounded(r: int, c: int)
    requires
        0 <= r < RADIUS_BOUND,
        -TRIG_ONE <= c <= TRIG_ONE,
    ensures
        -0x4000_0000_0000_0000 <= r * c <= 0x4000_0000_0000_0000,
{
    assert(-0x4000_0000_0000_0000 <= r * c <= 0x4000_0000_0000_0000) by (nonlinear_arith)
        requires
            0 <= r < 0x100_0000_0000,
            -1000 <= c <= 1000,
    ;
}

/// At elapsed time equal to the body's phase the angle is exactly zero, and
/// at angle zero (scaled cosine `TRIG_ONE`, scaled sine `0`) the position is
/// exactly `(orbit_radius, 0, 0)` in scaled units.
pub proof fn lemma_position_at_phase(speed: int, phase: int, radius: int)
    ensures
        angle_micro_turns(speed, phase, phase) == 0,
        norm_angle(angle_micro_turns(speed, phase, phase)) == 0,
        orbit_position_spec(radius, TRIG_ONE as int, 0) == (radius * (TRIG_ONE as int), 0int, 0int),
{
    assert(angle_micro_turns(speed, phase, phase) == 0) by (nonlinear_arith);
}

} // verus!

