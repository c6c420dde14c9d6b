use vstd::prelude::*;
use crate::config::SearchConfig;
use crate::step::{folded_within_one, rederived_heading, step_components, step_dx, step_dy};
use crate::terrain::{spec_step_elevation, step_elevation};

verus! {

/// One travel state: standing at `(x, y)`, at scaled elevation `height`,
/// having just arrived while facing `current_world_angle_deg`. Equality and
/// hashing are structural over all fields, so two states at the same
/// position reached under different headings, or with differently rounded
/// elevations, are distinct search nodes.
#[derive(Clone, Copy, Debug, Hash, PartialEq, Eq, Structural)]
pub struct PathNode {
    pub x: i32,
    pub y: i32,
    pub height: i32,
    pub current_world_angle_deg: i32,
}

/// The fixed scale that turns an absolute slope into an integer edge
/// weight.
pub const SLOPE_COST_SCALE: u64 = 1000;

/// The cost of one step between scaled elevations `e1` and `e2`:
/// the absolute elevation difference over the step length, scaled to an
/// integer, i.e. `|e2 - e1| * 1000 / (height_scale * leg)` truncated, and
/// capped at `u32::MAX`. Zero elevation change gives zero cost, and no cost
/// is ever negative. The cost is carried as a `u64` so that the search can
/// accumulate edge weights along a path without ever overflowing.
pub open spec fn spec_edge_cost(e1: int, e2: int, height_scale: int, leg: int) -> u64 {
    let diff = if e2 >= e1 {
        e2 - e1
    } else {
        e1 - e2
    };
    let q = diff * (SLOPE_COST_SCALE as int) / (height_scale * leg);
    if 0 <= q <= u32::MAX as int {
        q as u64
    } else {
        u32::MAX as u64
    }
}

/// The slope-derived weight of an edge between two scaled elevations.
pub fn slope_cost(cfg: &SearchConfig, e1: i32, e2: i32) -> (c: u64)
    requires
        cfg.wf(),
    ensures
        c == spec_edge_cost(e1 as int, e2 as int, cfg.height_scale as int, cfg.leg_distance as int),
        c <= u32::MAX,
{
    let d: i64 = e2 as i64 - e1 as i64;
    let mag: u64 = if d < 0 {
        (-d) as u64
    } else {
        d as u64
    };
    proof {
        assert(1 <= cfg.height_scale as int * cfg.leg_distance as int <= 1_000_000_000_000)
            by (nonlinear_arith)
            requires
                1 <= cfg.height_scale <= 1_000_000,
                1 <= cfg.leg_distance <= 1_000_000,
        ;
    }
    let den: u64 = cfg.height_scale as u64 * cfg.leg_distance as u64;
    let q: u64 = (mag * SLOPE_COST_SCALE) / den;
    if q > 0xffff_ffff {
        0xffff_ffff
    } else {
        q
    }
}

/// Whether a state satisfies the route's termination condition: its
/// x-coordinate has reached the canvas width.
pub open spec fn spec_is_goal(cfg: SearchConfig, n: PathNode) -> bool {
    n.x as int >= cfg.canvas_width as int
}

/// The estimate of the remaining cost that guides the search: the straight
/// eastward distance still missing to the canvas width, and zero once the
/// goal is reached. It never goes negative; whether it ever overestimates
/// the true remaining slope cost depends on the terrain.
pub open spec fn spec_heuristic(cfg: SearchConfig, n: PathNode) -> int {
    if cfg.canvas_width as int - n.x as int >= 0 {
        cfg.canvas_width as int - n.x as int
    } else {
        0
    }
}

/// The defensive cap on the search space: a state whose coordinates or
/// heading have left this window expands to nothing, so every search walks
/// a finite graph and terminates even when no route exists.
pub open spec fn within_search_bounds(cfg: SearchConfig, n: PathNode) -> bool {
    &&& -(cfg.expansion_bound as int) <= n.x as int <= cfg.expansion_bound as int
    &&& -(cfg.expansion_bound as int) <= n.y as int <= cfg.expansion_bound as int
    &&& -360 <= n.current_world_angle_deg as int <= 360
}

/// The successor reached from `n` by stepping out at absolute heading
/// `angle_deg`, paired with the edge cost of that step. The new position
/// adds the truncated step vector; the new elevation is sampled at the
/// real-valued stepped point; the new heading is re-derived from the step
/// vector, not taken from `angle_deg` itself.
pub open spec fn spec_successor_at(cfg: SearchConfig, n: PathNode, angle_deg: int) -> (
    PathNode,
    u64,
) {
    let e2 = spec_step_elevation(cfg, n.x as int, n.y as int, angle_deg);
    (
        PathNode {
            x: (n.x as int + step_dx(cfg.leg_distance as int, angle_deg)) as i32,
            y: (n.y as int + step_dy(cfg.leg_distance as int, angle_deg)) as i32,
            height: e2 as i32,
            current_world_angle_deg: rederived_heading(cfg.leg_distance as int, angle_deg) as i32,
        },
        spec_edge_cost(n.height as int, e2, cfg.height_scale as int, cfg.leg_distance as int),
    )
}

/// Everything the expansion policy yields from `n`: one successor for each
/// whole-degree heading in the half-open turning window
/// `[h - max_turn_deg, h + max_turn_deg)` around the arrival heading `h`,
/// and nothing at all outside the search bounds.
pub open spec fn spec_successors(cfg: SearchConfig, n: PathNode) -> Seq<(PathNode, u64)> {
    if cfg.max_turn_deg <= 0 || !within_search_bounds(cfg, n) {
        Seq::empty()
    } else {
        Seq::new(
            (2 * cfg.max_turn_deg) as nat,
            |i: int|
                spec_successor_at(
                    cfg,
                    n,
                    n.current_world_angle_deg as int - cfg.max_turn_deg as int + i,
                ),
        )
    }
}

impl PathNode {
    /// Whether this state satisfies the route's termination condition.
    pub fn success(&self, cfg: &SearchConfig) -> (r: bool)
        ensures
            r == spec_is_goal(*cfg, *self),
    {
        self.x as i64 >= cfg.canvas_width as i64
    }

    /// The estimated remaining cost to the goal boundary: the eastward
    /// distance still missing, never negative.
    pub fn heuristic(&self, cfg: &SearchConfig) -> (r: u64)
        requires
            cfg.wf(),
        ensures
            r as int == spec_heuristic(*cfg, *self),
    {
        let dist: i64 = cfg.canvas_width as i64 - self.x as i64;
        if dist < 0 {
            0
        } else {
            dist as u64
        }
    }

    /// The expansion policy: every state reachable in one step within the
    /// turning window, each with its slope-derived edge cost. Beyond the
    /// exact value of each successor, the contract records what the
    /// trusted trigonometry yields for each emitted heading: it stays in
    /// `[0, 180]` and within one degree of the folded generating angle.
    pub fn successors(&self, cfg: &SearchConfig) -> (r: Vec<(PathNode, u64)>)
        requires
            cfg.wf(),
        ensures
            r@ == spec_successors(*cfg, *self),
            forall|k: int|
                0 <= k < r@.len() ==> 0 <= (#[trigger] r@[k]).0.current_world_angle_deg <= 180,
            forall|k: int|
                0 <= k < r@.len() ==> folded_within_one(
                    self.current_world_angle_deg as int - cfg.max_turn_deg as int + k,
                    (#[trigger] r@[k]).0.current_world_angle_deg as int,
                ),
    {
        let mut result: Vec<(PathNode, u64)> = Vec::new();
        let in_bounds = self.x >= -cfg.expansion_bound && self.x <= cfg.expansion_bound
            && self.y >= -cfg.expansion_bound && self.y <= cfg.expansion_bound
            && self.current_world_angle_deg >= -360 && self.current_world_angle_deg <= 360;
        if cfg.max_turn_deg <= 0 || !in_bounds {
            assert(result@ =~= spec_successors(*cfg, *self));
            return result;
        }
        let count: u32 = (2 * cfg.max_turn_deg) as u32;
        let base: i32 = self.current_world_angle_deg - cfg.max_turn_deg;
        let mut k: u32 = 0;
        while k < count
            invariant
                cfg.wf(),
                cfg.max_turn_deg > 0,
                within_search_bounds(*cfg, *self),
                count == 2 * cfg.max_turn_deg,
                base == self.current_world_angle_deg as int - cfg.max_turn_deg as int,
                0 <= k <= count,
                result@.len() == k as nat,
                forall|i: int|
                    0 <= i < k as int ==> result@[i] == spec_successor_at(
                        *cfg,
                        *self,
                        base as int + i,
                    ),
                forall|i: int|
                    0 <= i < k as int ==> 0 <= (#[trigger] result@[i]).0.current_world_angle_deg
                        <= 180,
                forall|i: int|
                    0 <= i < k as int ==> folded_within_one(
                        base as int + i,
                        (#[trigger] result@[i]).0.current_world_angle_deg as int,
                    ),
            decreases count - k,
        {
            let angle: i32 = base + k as i32;
            let (dx, dy, new_heading) = step_components(cfg.leg_distance, angle);
            let e2 = step_elevation(cfg, self.x, self.y, angle);
            let cost = slope_cost(cfg, self.height, e2);
            let node = PathNode {
                x: self.x + dx,
                y: self.y + dy,
                height: e2,
                current_world_angle_deg: new_heading,
            };
            result.push((node, cost));
            assert((node, cost) == spec_successor_at(*cfg, *self, angle as int));
            k = k + 1;
        }
        assert(result@ =~= spec_successors(*cfg, *self));
        result
    }
}

} // verus!
