use vstd::prelude::*;

verus! {

/// Immutable configuration for terrain generation and route planning.
///
/// All heights are handled as scaled integers: a real elevation `h` is stored
/// as `h * height_scale`, truncated toward zero, so that travel states stay
/// hashable and comparable.
#[derive(Clone, Copy, Debug, PartialEq, Eq, Structural)]
pub struct SearchConfig {
    /// Half-width of the turning window, in whole degrees. A state with
    /// arrival heading `h` may step out at any heading in
    /// `[h - max_turn_deg, h + max_turn_deg)`.
    pub max_turn_deg: i32,
    /// Length of one travel step, in world units.
    pub leg_distance: u32,
    /// Domain scale of the noise: world coordinates are divided by this
    /// before sampling.
    pub noise_scale: u32,
    /// Amplitude of the terrain: the noise sample in roughly [-1, 1] is
    /// multiplied by this. Zero yields a perfectly flat terrain.
    pub noise_amplitude: i32,
    /// Seed of the noise function.
    pub seed: i32,
    /// Scale used to store real elevations as integers.
    pub height_scale: u32,
    /// Width of the rendered canvas; a state whose x-coordinate reaches it
    /// satisfies the goal.
    pub canvas_width: u32,
    /// Height of the rendered canvas; not consulted by the search itself.
    pub canvas_height: u32,
    /// Defensive cap on coordinates: a state beyond it expands to nothing,
    /// so that every search explores a finite graph and always terminates.
    pub expansion_bound: i32,
}

impl SearchConfig {
    /// Bounds that keep every position, heading and cost computation within
    /// machine integer ranges.
    pub open spec fn wf(self) -> bool {
        &&& 0 <= self.max_turn_deg <= 180
        &&& 1 <= self.leg_distance <= 1_000_000
        &&& 1 <= self.noise_scale
        &&& 1 <= self.height_scale <= 1_000_000
        &&& self.canvas_width <= 1_000_000_000
        &&& self.canvas_height <= 1_000_000_000
        &&& 1 <= self.expansion_bound <= 1_000_000_000
    }

    /// Runtime check of `wf`, for callers outside verified code.
    pub fn is_well_formed(&self) -> (b: bool)
        ensures
            b == self.wf(),
    {
        self.max_turn_deg >= 0 && self.max_turn_deg <= 180
            && self.leg_distance >= 1 && self.leg_distance <= 1_000_000
            && self.noise_scale >= 1
            && self.height_scale >= 1 && self.height_scale <= 1_000_000
            && self.canvas_width <= 1_000_000_000
            && self.canvas_height <= 1_000_000_000
            && self.expansion_bound >= 1 && self.expansion_bound <= 1_000_000_000
    }

    /// The default constants: a 512 x 512 canvas, 20-unit legs, a 5-degree
    /// turning window, and gently rolling terrain.
    pub fn standard() -> (c: SearchConfig)
        ensures
            c.wf(),
            c == (SearchConfig {
                max_turn_deg: 5,
                leg_distance: 20,
                noise_scale: 100,
                noise_amplitude: 10,
                seed: 0,
                height_scale: 1000,
                canvas_width: 512,
                canvas_height: 512,
                expansion_bound: 1_000_000_000,
            }),
    {
        SearchConfig {
            max_turn_deg: 5,
            leg_distance: 20,
            noise_scale: 100,
            noise_amplitude: 10,
            seed: 0,
            height_scale: 1000,
            canvas_width: 512,
            canvas_height: 512,
            expansion_bound: 1_000_000_000,
        }
    }
}

} // verus!
