use vstd::prelude::*;

verus! {

/// The eastward component of one travel step of length `leg` at heading
/// `angle_deg`, truncated toward zero: `(leg * cos(radians(angle_deg)))` as
/// an integer. A pure function of its arguments, named because it goes
/// through trigonometry.
pub uninterp spec fn step_dx(leg: int, angle_deg: int) -> int;

/// The northward component of the same step: `(leg * sin(radians(angle_deg)))`
/// truncated toward zero.
pub uninterp spec fn step_dy(leg: int, angle_deg: int) -> int;

/// The heading re-derived from the step vector on arrival: the angle, in
/// whole degrees, between the step vector and the reference direction
/// `(1, 0)`, computed through the inverse cosine of the normalized dot
/// product. The inverse cosine keeps no sign, so this is always the folded,
/// non-negative angle magnitude.
pub uninterp spec fn rederived_heading(leg: int, angle_deg: int) -> int;

/// How the re-derived heading `h` relates numerically to the heading
/// `angle_deg` that generated the step: the inverse cosine folds the angle
/// to its magnitude within `[0, 180]` degrees, and rounding plus truncation
/// can shift the whole-degree result by at most one.
pub open spec fn folded_within_one(angle_deg: int, h: int) -> bool {
    &&& (0 <= angle_deg <= 180 ==> angle_deg - 1 <= h <= angle_deg + 1)
    &&& (-180 <= angle_deg < 0 ==> -angle_deg - 1 <= h <= -angle_deg + 1)
    &&& (180 < angle_deg <= 360 ==> 360 - angle_deg - 1 <= h <= 360 - angle_deg + 1)
}

/// Relies on `f32::cos` (with `f32::to_radians`): `|cos| <= 1`, so the
/// product with `leg` stays within `[-leg, leg]`, and truncation toward
/// zero keeps it there. `leg <= 1_000_000` keeps `leg` exactly
/// representable as an `f32`.
#[verifier::external_body]
fn step_east(leg: u32, angle_deg: i32) -> (r: i32)
    requires
        1 <= leg <= 1_000_000,
    ensures
        r == step_dx(leg as int, angle_deg as int),
        -(leg as int) <= r <= leg as int,
{
    let angle = bevy_math::IVec2::new(angle_deg, 0).as_vec2().x;
    let leg_len = bevy_math::UVec2::new(leg, 0).as_vec2().x;
    (leg_len * angle.to_radians().cos()) as i32
}

/// Relies on `f32::sin` (with `f32::to_radians`): `|sin| <= 1`, so the
/// product with `leg` stays within `[-leg, leg]`, and truncation toward
/// zero keeps it there.
#[verifier::external_body]
fn step_north(leg: u32, angle_deg: i32) -> (r: i32)
    requires
        1 <= leg <= 1_000_000,
    ensures
        r == step_dy(leg as int, angle_deg as int),
        -(leg as int) <= r <= leg as int,
{
    let angle = bevy_math::IVec2::new(angle_deg, 0).as_vec2().x;
    let leg_len = bevy_math::UVec2::new(leg, 0).as_vec2().x;
    (leg_len * angle.to_radians().sin()) as i32
}

/// Relies on `bevy_math::Vec2::dot` / `Vec2::length` and `f32::acos`: the
/// inverse cosine lands in `[0, pi]` (or `NaN`, which the final conversion
/// turns into 0), so in degrees the truncated result lies in `[0, 180]`.
/// For a step at heading `a`, the true angle to `(1, 0)` is the fold of `a`
/// into `[0, 180]`; the inverse cosine is accurate to far below one degree
/// here, so after truncation the result sits within one whole degree of
/// that fold.
#[verifier::external_body]
fn heading_of_step(leg: u32, angle_deg: i32) -> (r: i32)
    requires
        1 <= leg <= 1_000_000,
    ensures
        r == rederived_heading(leg as int, angle_deg as int),
        0 <= r <= 180,
        folded_within_one(angle_deg as int, r as int),
{
    let rad = bevy_math::IVec2::new(angle_deg, 0).as_vec2().x.to_radians();
    let leg_len = bevy_math::UVec2::new(leg, 0).as_vec2().x;
    let direction = bevy_math::Vec2::new(rad.cos(), rad.sin()) * leg_len;
    let reference = bevy_math::Vec2::X;
    (reference.dot(direction) / (reference.length() * direction.length())).acos().to_degrees()
        as i32
}

/// The truncated integer step vector at heading `angle_deg`, together with
/// the heading that arrival at the stepped-to state will carry.
pub fn step_components(leg: u32, angle_deg: i32) -> (r: (i32, i32, i32))
    requires
        1 <= leg <= 1_000_000,
    ensures
        r.0 == step_dx(leg as int, angle_deg as int),
        r.1 == step_dy(leg as int, angle_deg as int),
        r.2 == rederived_heading(leg as int, angle_deg as int),
        -(leg as int) <= r.0 <= leg as int,
        -(leg as int) <= r.1 <= leg as int,
        0 <= r.2 <= 180,
        folded_within_one(angle_deg as int, r.2 as int),
{
    (step_east(leg, angle_deg), step_north(leg, angle_deg), heading_of_step(leg, angle_deg))
}

} // verus!
