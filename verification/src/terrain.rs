use vstd::prelude::*;
use crate::config::SearchConfig;

verus! {

/// The scaled elevation that the height field yields one travel step away
/// from `(px, py)`: the terrain is sampled at the real-valued point
/// `(px + leg * cos(angle_deg), py + leg * sin(angle_deg))`, divided by
/// `noise_scale`, and the resulting height times `amplitude` is stored as an
/// integer scaled by `height_scale`. With `leg == 0` this is the height
/// field at `(px, py)` itself. The value is a pure function of the
/// arguments; it is named rather than written out because it goes through a
/// smooth seeded noise function.
pub uninterp spec fn terrain_height(
    px: int,
    py: int,
    leg: int,
    angle_deg: int,
    noise_scale: int,
    amplitude: int,
    seed: int,
    height_scale: int,
) -> int;

/// Relies on `noisy_bevy::simplex_noise_2d_seeded`: a pure, deterministic
/// function of its `Vec2` argument and seed (plain floating-point
/// arithmetic, no global state), and on the trigonometric step offset. A
/// zero amplitude forces a zero result: zero times any noise sample is
/// zero, a negative zero or not-a-number, and every one of those converts
/// to the integer 0. The integer arguments reach the vector math through
/// `bevy_math`'s integer-vector casts.
#[verifier::external_body]
fn sample_terrain(
    px: i32,
    py: i32,
    leg: u32,
    angle_deg: i32,
    noise_scale: u32,
    amplitude: i32,
    seed: i32,
    height_scale: u32,
) -> (r: i32)
    ensures
        r == terrain_height(
            px as int,
            py as int,
            leg as int,
            angle_deg as int,
            noise_scale as int,
            amplitude as int,
            seed as int,
            height_scale as int,
        ),
        amplitude == 0 ==> r == 0,
{
    let angle_seed = bevy_math::IVec2::new(angle_deg, seed).as_vec2();
    let leg_scale = bevy_math::UVec2::new(leg, noise_scale).as_vec2();
    let amp = bevy_math::IVec2::new(amplitude, 0).as_vec2().x;
    let hs = bevy_math::UVec2::new(height_scale, 0).as_vec2().x;
    let rad = angle_seed.x.to_radians();
    let origin = bevy_math::IVec2::new(px, py).as_vec2();
    let point = (origin + bevy_math::Vec2::new(rad.cos(), rad.sin()) * leg_scale.x) / leg_scale.y;
    let height = amp * noisy_bevy::simplex_noise_2d_seeded(point, angle_seed.y);
    (height * hs) as i32
}

/// The height field at an integer world coordinate, as a scaled integer.
/// Pure and deterministic: the result is a function of the configuration
/// and the coordinate alone, so two queries at the same point always agree.
pub fn elevation_scaled(cfg: &SearchConfig, x: i32, y: i32) -> (r: i32)
    ensures
        r == spec_elevation(*cfg, x as int, y as int),
        cfg.noise_amplitude == 0 ==> r == 0,
{
    sample_terrain(x, y, 0, 0, cfg.noise_scale, cfg.noise_amplitude, cfg.seed, cfg.height_scale)
}

/// The height field at an integer world coordinate, seen from contracts.
pub open spec fn spec_elevation(cfg: SearchConfig, x: int, y: int) -> int {
    terrain_height(
        x,
        y,
        0,
        0,
        cfg.noise_scale as int,
        cfg.noise_amplitude as int,
        cfg.seed as int,
        cfg.height_scale as int,
    )
}

/// The scaled elevation one step away from a state, seen from contracts.
pub open spec fn spec_step_elevation(cfg: SearchConfig, px: int, py: int, angle_deg: int) -> int {
    terrain_height(
        px,
        py,
        cfg.leg_distance as int,
        angle_deg,
        cfg.noise_scale as int,
        cfg.noise_amplitude as int,
        cfg.seed as int,
        cfg.height_scale as int,
    )
}

/// The scaled elevation one travel step away from `(px, py)` at heading
/// `angle_deg`, used by the expansion policy.
pub fn step_elevation(cfg: &SearchConfig, px: i32, py: i32, angle_deg: i32) -> (r: i32)
    ensures
        r == spec_step_elevation(*cfg, px as int, py as int, angle_deg as int),
        cfg.noise_amplitude == 0 ==> r == 0,
{
    sample_terrain(
        px,
        py,
        cfg.leg_distance,
        angle_deg,
        cfg.noise_scale,
        cfg.noise_amplitude,
        cfg.seed,
        cfg.height_scale,
    )
}

} // verus!
