//! The scene builder: from a planet count and a seed, the full initial scene
//! — one ground plane, one sun, one camera carrying one pick-ray source, and
//! the requested planets, each with one to three moons. Orbit radii follow
//! the index formulas exactly; speeds and phases are drawn from fixed ranges.

use crate::rng::gen_range_u32;
use crate::rng::rng_from_seed;
use vstd::prelude::*;

verus! {

/// Smallest planet angular speed, in milli-turns per second (inclusive).
pub const PLANET_SPEED_MIN: u32 = 100;

/// Largest planet angular speed, in milli-turns per second (exclusive).
pub const PLANET_SPEED_MAX: u32 = 500;

/// Smallest moon angular speed, in milli-turns per second (inclusive).
pub const MOON_SPEED_MIN: u32 = 1000;

/// Largest moon angular speed, in milli-turns per second (exclusive).
pub const MOON_SPEED_MAX: u32 = 2000;

/// Phase offsets are drawn from `[0, PHASE_BOUND)` milliseconds.
pub const PHASE_BOUND: u32 = 10000;

/// Orbit radius of the planet at index 0, in scene units (0.15 lengths).
pub const PLANET_RADIUS_BASE: u64 = 63;

/// Increase in orbit radius from one planet index to the next, in scene
/// units (one sixth of a length).
pub const PLANET_RADIUS_STEP: u64 = 70;

/// Orbit radius of the moon at index 0, in scene units (0.05 lengths).
pub const MOON_RADIUS_BASE: u64 = 21;

/// Increase in orbit radius from one moon index to the next, in scene units
/// (one thirty-fifth of a length).
pub const MOON_RADIUS_STEP: u64 = 12;

/// Fewest moons a planet owns (inclusive).
pub const MOONS_MIN: u32 = 1;

/// Most moons a planet owns (inclusive).
pub const MOONS_MAX: u32 = 3;

/// The orbital parameters of one body. A body's angular position at elapsed
/// time `t` milliseconds is `speed_milli * (phase_milli - t)` micro-turns,
/// and its distance from its parent is `radius_units` scene units.
#[derive(Clone, Copy, PartialEq, Eq, Structural, Debug)]
pub struct OrbitParams {
    pub speed_milli: u32,
    pub radius_units: u64,
    pub phase_milli: u32,
}

/// A top-level body: its own orbital parameters and the moons it owns, each
/// orbiting relative to it.
pub struct Planet {
    pub params: OrbitParams,
    pub moons: Vec<OrbitParams>,
}

/// The whole initial scene. The singleton entities are held as counts so
/// that the scene invariant — exactly one of each — is stated directly.
pub struct Scene {
    pub ground_planes: u64,
    pub suns: u64,
    pub cameras: u64,
    pub pick_sources: u64,
    pub planets: Vec<Planet>,
}

/// The parameters a planet built at index `i` may carry: speed in the planet
/// range, phase in range, and orbit radius exactly `0.15 + i/6` lengths —
/// `PLANET_RADIUS_BASE + PLANET_RADIUS_STEP * i` scene units.
pub open spec fn planet_params_wf(p: OrbitParams, i: int) -> bool {
    &&& PLANET_SPEED_MIN <= p.speed_milli < PLANET_SPEED_MAX
    &&& p.radius_units == PLANET_RADIUS_BASE + PLANET_RADIUS_STEP * i
    &&& p.phase_milli < PHASE_BOUND
}

/// The parameters a moon built at index `j` may carry: speed in the moon
/// range, phase in range, and orbit radius exactly `0.05 + j/35` lengths —
/// `MOON_RADIUS_BASE + MOON_RADIUS_STEP * j` scene units.
pub open spec fn moon_params_wf(m: OrbitParams, j: int) -> bool {
    &&& MOON_SPEED_MIN <= m.speed_milli < MOON_SPEED_MAX
    &&& m.radius_units == MOON_RADIUS_BASE + MOON_RADIUS_STEP * j
    &&& m.phase_milli < PHASE_BOUND
}

/// A well-formed planet at index `i`: well-formed parameters and between one
/// and three moons, each well formed at its own index.
pub open spec fn planet_wf(pl: Planet, i: int) -> bool {
    &&& planet_params_wf(pl.params, i)
    &&& MOONS_MIN <= pl.moons@.len() <= MOONS_MAX
    &&& forall|j: int| 0 <= j < pl.moons@.len() ==> moon_params_wf(pl.moons@[j], j)
}

/// The scene invariant: exactly one ground plane, one sun, one camera and
/// one pick-ray source, and every planet well formed at its index.
pub open spec fn scene_wf(s: Scene) -> bool {
    &&& s.ground_planes == 1
    &&& s.suns == 1
    &&& s.cameras == 1
    &&& s.pick_sources == 1
    &&& forall|i: int| 0 <= i < s.planets@.len() ==> planet_wf(s.planets@[i], i)
}

/// Draws the parameters of the planet at index `i`.
fn build_planet_params(rng: &mut rand::rngs::StdRng, i: u32) -> (p: OrbitParams)
    ensures
        planet_params_wf(p, i as int),
{
    let speed = gen_range_u32(rng, PLANET_SPEED_MIN, PLANET_SPEED_MAX);
    let phase = gen_range_u32(rng, 0, PHASE_BOUND);
    OrbitParams {
        speed_milli: speed,
        radius_units: PLANET_RADIUS_BASE + PLANET_RADIUS_STEP * (i as u64),
        phase_milli: phase,
    }
}

/// Draws the parameters of the moon at index `j`.
fn build_moon_params(rng: &mut rand::rngs::StdRng, j: u32) -> (m: OrbitParams)
    ensures
        moon_params_wf(m, j as int),
{
    let speed = gen_range_u32(rng, MOON_SPEED_MIN, MOON_SPEED_MAX);
    let phase = gen_range_u32(rng, 0, PHASE_BOUND);
    OrbitParams {
        speed_milli: speed,
        radius_units: MOON_RADIUS_BASE + MOON_RADIUS_STEP * (j as u64),
        phase_milli: phase,
    }
}

/// Builds the planet at index `i` with a random number (one to three) of
/// moons.
fn build_planet(rng: &mut rand::rngs::StdRng, i: u32) -> (pl: Planet)
    ensures
        planet_wf(pl, i as int),
{
    let params = build_planet_params(rng, i);
    let moon_count = gen_range_u32(rng, MOONS_MIN, MOONS_MAX + 1);
    let mut moons: Vec<OrbitParams> = Vec::new();
    let mut j: u32 = 0;
    while j < moon_count
        invariant
            j <= moon_count,
            MOONS_MIN <= moon_count <= MOONS_MAX,
            moons@.len() == j,
            forall|k: int| 0 <= k < j ==> moon_params_wf(moons@[k], k),
        decreases moon_count - j,
    {
        let m = build_moon_params(rng, j);
        moons.push(m);
        j = j + 1;
    }
    Planet { params, moons }
}

/// Builds the initial scene: exactly one ground plane, sun, camera and
/// pick-ray source, and `planet_count` planets whose orbit radii follow the
/// index formula, each owning one to three moons. The same seed always
/// yields the same layout.
pub fn build_scene(planet_count: u32, seed: u64) -> (s: Scene)
    ensures
        scene_wf(s),
        s.planets@.len() == planet_count,
{
    let mut rng = rng_from_seed(seed);
    let mut planets: Vec<Planet> = Vec::new();
    let mut i: u32 = 0;
    while i < planet_count
        invariant
            i <= planet_count,
            planets@.len() == i,
            forall|k: int| 0 <= k < i ==> planet_wf(planets@[k], k),
        decreases planet_count - i,
    {
        let pl = build_planet(&mut rng, i);
        planets.push(pl);
        i = i + 1;
    }
    Scene { ground_planes: 1, suns: 1, cameras: 1, pick_sources: 1, planets }
}

} // verus!
