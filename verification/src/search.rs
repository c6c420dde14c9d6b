use vstd::prelude::*;
use crate::config::SearchConfig;
use crate::node::{
    PathNode, slope_cost, spec_edge_cost, spec_heuristic, spec_is_goal, spec_successor_at,
    spec_successors,
};
use crate::step::{folded_within_one, rederived_heading};

verus! {

/// The one failure of the path search: the frontier was exhausted without
/// ever reaching a goal-satisfying state, so no route exists. The caller
/// must surface this; retrying cannot help, the search is deterministic.
#[derive(Clone, Copy, Debug, PartialEq, Eq, Structural)]
pub enum SearchError {
    SearchExhausted,
}

/// Whether `b` is one of the states that the expansion policy yields from
/// `a`, at whatever edge cost.
pub open spec fn is_expansion_edge(cfg: SearchConfig, a: PathNode, b: PathNode) -> bool {
    exists|k: int|
        0 <= k < spec_successors(cfg, a).len() && (#[trigger] spec_successors(cfg, a)[k]).0 == b
}

/// What it means for a state sequence to be a route that the search may
/// hand back: it begins at the start state, every consecutive pair is one
/// step of the expansion policy, the final state satisfies the goal, and no
/// earlier state does.
pub open spec fn valid_route(cfg: SearchConfig, start: PathNode, route: Seq<PathNode>) -> bool {
    &&& route.len() >= 1
    &&& route[0] == start
    &&& spec_is_goal(cfg, route[route.len() - 1])
    &&& forall|i: int| 0 <= i < route.len() - 1 ==> !spec_is_goal(cfg, #[trigger] route[i])
    &&& forall|i: int|
        0 <= i < route.len() - 1 ==> is_expansion_edge(cfg, #[trigger] route[i], route[i + 1])
}

/// The numeric reading of the heading bound: whenever the predecessor's
/// arrival heading lies in `[0, 180]` — as every re-derived heading does —
/// the successor's arrival heading lies within the turning window around
/// it, widened by the one degree that folding and rounding may cost, and
/// is itself a folded heading in `[0, 180]`.
pub open spec fn heading_within_turn_window(
    cfg: SearchConfig,
    prev: PathNode,
    next: PathNode,
) -> bool {
    0 <= prev.current_world_angle_deg <= 180 ==> {
        &&& prev.current_world_angle_deg as int - cfg.max_turn_deg as int - 1
            <= next.current_world_angle_deg as int
        &&& next.current_world_angle_deg as int <= prev.current_world_angle_deg as int
            + cfg.max_turn_deg as int + 1
        &&& 0 <= next.current_world_angle_deg <= 180
    }
}

/// What the heuristic-guided best-first search finds for a configuration
/// and start state: the route, or nothing when the frontier empties first.
/// A pure function of its arguments: the search keeps no hidden state and
/// breaks ties deterministically, so two runs agree.
pub uninterp spec fn planned_route(cfg: SearchConfig, start: PathNode) -> Option<Seq<PathNode>>;

/// Relies on `pathfinding::prelude::astar`, handed the verified expansion,
/// heuristic and goal functions. Its source shows: the returned path starts
/// at `start`; each following node was produced, with its cost, by the
/// successors closure applied to its predecessor; the final node is the
/// first dequeued node that satisfied the goal closure, and every earlier
/// node of the path was dequeued and expanded only after failing it; a
/// start that satisfies the goal comes straight back as a one-node path;
/// when the start fails the goal and has no successors the frontier
/// empties and `None` is returned. The search is deterministic: it uses a
/// binary heap and an insertion-ordered map with a fixed, unseeded hasher.
/// Its unchecked cost additions cannot overflow: every edge weight is
/// capped at `u32::MAX` and carried as a `u64`, so an overflowing
/// accumulation would need a path of more than four billion states, beyond
/// what the map could hold.
#[verifier::external_body]
fn run_astar(cfg: &SearchConfig, start: &PathNode) -> (r: Option<Vec<PathNode>>)
    requires
        cfg.wf(),
    ensures
        (r is Some) == (planned_route(*cfg, *start) is Some),
        r is Some ==> r->Some_0@ == planned_route(*cfg, *start)->Some_0,
        r is Some ==> valid_route(*cfg, *start, r->Some_0@),
        spec_is_goal(*cfg, *start) ==> r is Some && r->Some_0@ == seq![*start],
        !spec_is_goal(*cfg, *start) && spec_successors(*cfg, *start).len() == 0 ==> r is None,
{
    let found = pathfinding::prelude::astar(
        start,
        |n: &PathNode| n.successors(cfg),
        |n: &PathNode| n.heuristic(cfg),
        |n: &PathNode| n.success(cfg),
    );
    found.map(|pair| pair.0)
}

/// Plan a route from `start` to the canvas's right edge, guided by the
/// accumulated slope cost plus the remaining-distance estimate under the
/// turning constraint. The estimate may overestimate the cheapest
/// remaining slope cost, so the returned route is not promised to be
/// globally minimal.
///
/// The outcome is pinned to `planned_route`, a function of the
/// configuration and the start state alone: two searches over the same
/// inputs return the same answer. A returned route is complete — it begins
/// at `start`, walks only expansion edges, satisfies the goal exactly at
/// its final state — and a start already past the goal boundary comes back
/// alone. When the start is not at the goal and expands to nothing (in
/// particular, whenever the turning window is zero wide), the exhaustion
/// error is reported instead of any truncated route. Along a returned
/// route, every arrival heading stays within one degree of the turning
/// window around its predecessor's heading.
pub fn plan_route(cfg: &SearchConfig, start: &PathNode) -> (r: Result<Vec<PathNode>, SearchError>)
    requires
        cfg.wf(),
    ensures
        (r is Ok) == (planned_route(*cfg, *start) is Some),
        r is Ok ==> r->Ok_0@ == planned_route(*cfg, *start)->Some_0,
        r is Ok ==> valid_route(*cfg, *start, r->Ok_0@),
        r is Err ==> r->Err_0 == SearchError::SearchExhausted,
        spec_is_goal(*cfg, *start) ==> r is Ok && r->Ok_0@ == seq![*start],
        !spec_is_goal(*cfg, *start) && spec_successors(*cfg, *start).len() == 0 ==> r is Err,
        cfg.max_turn_deg == 0 && !spec_is_goal(*cfg, *start) ==> r is Err,
        r is Ok ==> forall|i: int|
            0 <= i < r->Ok_0@.len() - 1 ==> heading_within_turn_window(
                *cfg,
                #[trigger] r->Ok_0@[i],
                r->Ok_0@[i + 1],
            ),
{
    match run_astar(cfg, start) {
        Some(route) => {
            let n = route.len();
            let mut i: usize = 0;
            while i + 1 < n
                invariant
                    cfg.wf(),
                    n == route@.len(),
                    1 <= n,
                    0 <= i <= n - 1,
                    valid_route(*cfg, *start, route@),
                    forall|j: int|
                        0 <= j < i as int ==> heading_within_turn_window(
                            *cfg,
                            #[trigger] route@[j],
                            route@[j + 1],
                        ),
                decreases n - i,
            {
                // Expanding the on-route state once more attaches what the
                // trusted trigonometry promises of each emitted heading to
                // the successor recorded in the route.
                let expanded = route[i].successors(cfg);
                proof {
                    assert(is_expansion_edge(*cfg, route@[i as int], route@[i as int + 1]));
                    let succs = spec_successors(*cfg, route@[i as int]);
                    let k = choose|k: int|
                        0 <= k < succs.len() && (#[trigger] succs[k]).0 == route@[i as int + 1];
                    assert(expanded@[k].0 == route@[i as int + 1]);
                    assert(succs.len() == 2 * cfg.max_turn_deg);
                    assert(folded_within_one(
                        route@[i as int].current_world_angle_deg as int
                            - cfg.max_turn_deg as int + k,
                        route@[i as int + 1].current_world_angle_deg as int,
                    ));
                    assert(heading_within_turn_window(
                        *cfg,
                        route@[i as int],
                        route@[i as int + 1],
                    ));
                }
                i = i + 1;
            }
            Ok(route)
        },
        None => Err(SearchError::SearchExhausted),
    }
}

/// The accumulated slope cost along a route: the sum of the edge costs
/// between consecutive states' stored elevations.
pub open spec fn spec_route_cost(cfg: SearchConfig, route: Seq<PathNode>) -> int
    decreases route.len(),
{
    if route.len() <= 1 {
        0
    } else {
        spec_edge_cost(
            route[0].height as int,
            route[1].height as int,
            cfg.height_scale as int,
            cfg.leg_distance as int,
        ) as int + spec_route_cost(cfg, route.drop_first())
    }
}

/// Accumulated cost is never negative, and grows by at most one full edge
/// weight per state.
pub proof fn lemma_route_cost_bounds(cfg: SearchConfig, route: Seq<PathNode>)
    ensures
        0 <= spec_route_cost(cfg, route) <= route.len() * (u32::MAX as int),
    decreases route.len(),
{
    if route.len() > 1 {
        lemma_route_cost_bounds(cfg, route.drop_first());
    }
}

/// Monotonic accumulation: because every edge cost is non-negative, the
/// cost of any prefix of a route never exceeds the cost of the whole.
pub proof fn lemma_route_cost_monotone(cfg: SearchConfig, route: Seq<PathNode>, i: int)
    requires
        0 <= i <= route.len(),
    ensures
        spec_route_cost(cfg, route.take(i)) <= spec_route_cost(cfg, route),
    decreases route.len(),
{
    if i <= 1 {
        lemma_route_cost_bounds(cfg, route);
        lemma_route_cost_bounds(cfg, route.take(i));
        assert(route.take(i).len() <= 1);
    } else {
        assert(route.take(i).drop_first() =~= route.drop_first().take(i - 1));
        lemma_route_cost_monotone(cfg, route.drop_first(), i - 1);
    }
}

/// A route over level ground is free: when every state stores the same
/// elevation, the accumulated slope cost is exactly zero.
pub proof fn lemma_level_route_cost_zero(cfg: SearchConfig, route: Seq<PathNode>)
    requires
        cfg.wf(),
        forall|i: int| 0 <= i < route.len() ==> #[trigger] route[i].height == route[0].height,
    ensures
        spec_route_cost(cfg, route) == 0,
    decreases route.len(),
{
    if route.len() > 1 {
        assert(1 <= cfg.height_scale as int * cfg.leg_distance as int) by (nonlinear_arith)
            requires
                1 <= cfg.height_scale,
                1 <= cfg.leg_distance,
        ;
        assert(route[1].height == route[0].height);
        assert(spec_edge_cost(
            route[0].height as int,
            route[1].height as int,
            cfg.height_scale as int,
            cfg.leg_distance as int,
        ) == 0);
        assert(forall|i: int|
            0 <= i < route.drop_first().len() ==> #[trigger] route.drop_first()[i].height
                == route.drop_first()[0].height);
        lemma_level_route_cost_zero(cfg, route.drop_first());
    }
}

/// A goal-satisfying state estimates no remaining cost: at the boundary
/// the heuristic is exactly the cost still to pay, zero.
pub proof fn lemma_goal_heuristic_zero(cfg: SearchConfig, n: PathNode)
    requires
        spec_is_goal(cfg, n),
    ensures
        spec_heuristic(cfg, n) == 0,
{
}

/// Heading bound along a route: every consecutive pair of states is joined
/// by a step whose absolute heading was drawn from the half-open turning
/// window around the predecessor's arrival heading, and the successor
/// carries exactly the heading re-derived from that step.
pub proof fn lemma_route_heading_window(
    cfg: SearchConfig,
    start: PathNode,
    route: Seq<PathNode>,
    i: int,
)
    requires
        valid_route(cfg, start, route),
        0 <= i < route.len() - 1,
    ensures
        exists|a: int|
            route[i].current_world_angle_deg - cfg.max_turn_deg <= a < route[
                i
            ].current_world_angle_deg + cfg.max_turn_deg && route[i + 1].current_world_angle_deg
                == (#[trigger] rederived_heading(cfg.leg_distance as int, a)) as i32,
{
    assert(is_expansion_edge(cfg, route[i], route[i + 1]));
    let k = choose|k: int|
        0 <= k < spec_successors(cfg, route[i]).len() && (#[trigger] spec_successors(
            cfg,
            route[i],
        )[k]).0 == route[i + 1];
    let base = route[i].current_world_angle_deg as int - cfg.max_turn_deg as int;
    assert(spec_successors(cfg, route[i])[k] == spec_successor_at(cfg, route[i], base + k));
    assert(route[i + 1].current_world_angle_deg == rederived_heading(
        cfg.leg_distance as int,
        base + k,
    ) as i32);
}

/// The accumulated slope cost of a route, computed from the stored
/// elevations of its states.
pub fn route_cost(cfg: &SearchConfig, route: &Vec<PathNode>) -> (total: u64)
    requires
        cfg.wf(),
        route@.len() <= 0x1_0000_0000,
    ensures
        total as int == spec_route_cost(*cfg, route@),
{
    let n = route.len();
    if n <= 1 {
        return 0;
    }
    let mut total: u64 = 0;
    let mut i: usize = 0;
    proof {
        assert(route@.skip(0) =~= route@);
    }
    while i + 1 < n
        invariant
            cfg.wf(),
            n == route@.len(),
            2 <= n <= 0x1_0000_0000,
            0 <= i <= n - 1,
            total as int <= i as int * (u32::MAX as int),
            total as int + spec_route_cost(*cfg, route@.skip(i as int)) == spec_route_cost(
                *cfg,
                route@,
            ),
        decreases n - i,
    {
        let c = slope_cost(cfg, route[i].height, route[i + 1].height);
        proof {
            let s = route@.skip(i as int);
            assert(s.len() >= 2);
            assert(s[0] == route@[i as int]);
            assert(s[1] == route@[i as int + 1]);
            assert(s.drop_first() =~= route@.skip(i as int + 1));
            lemma_route_cost_bounds(*cfg, route@.skip(i as int + 1));
        }
        total = total + c;
        i = i + 1;
    }
    proof {
        assert(route@.skip(i as int).len() == 1);
    }
    total
}

} // verus!
