use terrain_route::config::SearchConfig;
use terrain_route::node::PathNode;
use terrain_route::search::{plan_route, route_cost, SearchError};
use terrain_route::terrain::elevation_scaled;

fn standard() -> SearchConfig {
    SearchConfig::standard()
}

fn flat(canvas_width: u32) -> SearchConfig {
    SearchConfig {
        max_turn_deg: 5,
        leg_distance: 20,
        noise_scale: 100,
        noise_amplitude: 0,
        seed: 0,
        height_scale: 1000,
        canvas_width,
        canvas_height: 512,
        expansion_bound: 1_000_000_000,
    }
}

fn start_at(x: i32, y: i32, height: i32, heading: i32) -> PathNode {
    PathNode {
        x,
        y,
        height,
        current_world_angle_deg: heading,
    }
}

#[test]
fn standard_config_is_well_formed() {
    assert!(standard().is_well_formed());
    let mut bad = standard();
    bad.leg_distance = 0;
    assert!(!bad.is_well_formed());
}

#[test]
fn height_field_is_deterministic() {
    let cfg = standard();
    for &(x, y) in &[(0, 0), (17, -45), (256, 256), (-300, 12)] {
        assert_eq!(elevation_scaled(&cfg, x, y), elevation_scaled(&cfg, x, y));
    }
}

#[test]
fn flat_terrain_has_zero_elevation() {
    let cfg = flat(512);
    for &(x, y) in &[(0, 0), (17, -45), (256, 256), (-300, 12)] {
        assert_eq!(elevation_scaled(&cfg, x, y), 0);
    }
}

#[test]
fn flat_terrain_straight_route() {
    let cfg = flat(100);
    let start = start_at(0, 256, 0, 0);
    let route = plan_route(&cfg, &start).expect("flat terrain route");
    let expected: Vec<PathNode> = (0..6).map(|k: i32| start_at(20 * k, 256, 0, 0)).collect();
    assert_eq!(route, expected);
    assert_eq!(route_cost(&cfg, &route), 0);
}

#[test]
fn search_is_deterministic() {
    let mut cfg = standard();
    cfg.canvas_width = 100;
    cfg.expansion_bound = 400;
    let start = start_at(0, 256, elevation_scaled(&cfg, 0, 256), 0);
    let first = plan_route(&cfg, &start);
    let second = plan_route(&cfg, &start);
    assert_eq!(first, second);
}

#[test]
fn route_reaches_goal_exactly_once() {
    let mut cfg = standard();
    cfg.canvas_width = 100;
    cfg.expansion_bound = 400;
    let start = start_at(0, 256, elevation_scaled(&cfg, 0, 256), 0);
    let route = plan_route(&cfg, &start).expect("goal should be reachable");
    let last = route.last().unwrap();
    assert!(last.x >= 100);
    for node in &route[..route.len() - 1] {
        assert!(node.x < 100);
    }
}

#[test]
fn route_steps_stay_within_leg_and_window() {
    let mut cfg = standard();
    cfg.canvas_width = 100;
    cfg.expansion_bound = 400;
    let start = start_at(0, 256, elevation_scaled(&cfg, 0, 256), 0);
    let route = plan_route(&cfg, &start).expect("goal should be reachable");
    for pair in route.windows(2) {
        let dx = pair[1].x - pair[0].x;
        let dy = pair[1].y - pair[0].y;
        assert!(dx.abs() <= 20 && dy.abs() <= 20);
        // Arrival headings are re-derived through the inverse cosine, so
        // they are folded into [0, 180] degrees.
        assert!((0..=180).contains(&pair[1].current_world_angle_deg));
        // Each heading was drawn from the 5-degree window around the
        // predecessor's heading; folding and rounding can shift it by at
        // most one more degree.
        let delta = pair[1].current_world_angle_deg - pair[0].current_world_angle_deg;
        assert!(delta.abs() <= 6);
    }
}

#[test]
fn zero_turn_window_reports_exhaustion() {
    let mut cfg = flat(512);
    cfg.max_turn_deg = 0;
    let start = start_at(0, 256, 0, 0);
    assert_eq!(plan_route(&cfg, &start), Err(SearchError::SearchExhausted));
}

#[test]
fn start_already_at_goal_comes_back_alone() {
    let cfg = flat(0);
    let start = start_at(5, 7, 0, 42);
    assert_eq!(plan_route(&cfg, &start), Ok(vec![start]));
}

#[test]
fn successors_cover_the_turn_window() {
    let cfg = flat(512);
    let node = start_at(0, 256, 0, 0);
    let successors = node.successors(&cfg);
    assert_eq!(successors.len(), 10);
    for (next, cost) in &successors {
        assert_eq!(*cost, 0);
        assert_eq!(next.height, 0);
        assert!((next.x - node.x).abs() <= 20);
        assert!((next.y - node.y).abs() <= 20);
        assert!((0..=180).contains(&next.current_world_angle_deg));
    }
    // The middle of the window is the straight-ahead step of one full leg.
    let straight = &successors[5].0;
    assert_eq!((straight.x, straight.y, straight.current_world_angle_deg), (20, 256, 0));
    // Three degrees to the side: the truncated step vector loses a unit.
    let side = &successors[2].0;
    assert_eq!((side.x, side.y), (19, 255));
    assert!(side.current_world_angle_deg == 2 || side.current_world_angle_deg == 3);
}

#[test]
fn successors_fold_negative_headings() {
    let mut cfg = flat(512);
    cfg.max_turn_deg = 1;
    let node = start_at(0, 0, 0, -90);
    let successors = node.successors(&cfg);
    assert_eq!(successors.len(), 2);
    let south = &successors[1].0;
    assert_eq!((south.x, south.y), (0, -20));
    assert_eq!(south.current_world_angle_deg, 90);
}

#[test]
fn successors_end_beyond_the_expansion_bound() {
    let mut cfg = flat(512);
    cfg.expansion_bound = 1000;
    let node = start_at(2000, 0, 0, 0);
    assert!(node.successors(&cfg).is_empty());
}

#[test]
fn successors_are_deterministic() {
    let cfg = standard();
    let node = start_at(40, 250, elevation_scaled(&cfg, 40, 250), 3);
    assert_eq!(node.successors(&cfg), node.successors(&cfg));
}

#[test]
fn goal_and_heuristic_values() {
    let cfg = standard();
    assert!(!start_at(511, 0, 0, 0).success(&cfg));
    assert!(start_at(512, 0, 0, 0).success(&cfg));
    assert!(start_at(600, 0, 0, 0).success(&cfg));
    assert_eq!(start_at(0, 0, 0, 0).heuristic(&cfg), 512);
    assert_eq!(start_at(500, 0, 0, 0).heuristic(&cfg), 12);
    assert_eq!(start_at(512, 0, 0, 0).heuristic(&cfg), 0);
    assert_eq!(start_at(600, 0, 0, 0).heuristic(&cfg), 0);
}

#[test]
fn slope_cost_is_scaled_absolute_slope() {
    let cfg = standard();
    // |20000 - 0| * 1000 / (1000 * 20) = 1000, uphill or downhill alike.
    assert_eq!(terrain_route::node::slope_cost(&cfg, 0, 20000), 1000);
    assert_eq!(terrain_route::node::slope_cost(&cfg, 20000, 0), 1000);
    assert_eq!(terrain_route::node::slope_cost(&cfg, 5, 5), 0);
    // A difference below one cost unit truncates to zero.
    assert_eq!(terrain_route::node::slope_cost(&cfg, 0, 19), 0);
}

/// Every goal-reaching path of at most `depth` further hops from `node`,
/// with `acc` already spent, reported as its total cost.
fn enumerate_goal_costs(
    cfg: &SearchConfig,
    node: &PathNode,
    acc: u64,
    depth: u32,
    found: &mut Vec<u64>,
) {
    if node.success(cfg) {
        found.push(acc);
        return;
    }
    if depth == 0 {
        return;
    }
    for (next, cost) in node.successors(cfg) {
        enumerate_goal_costs(cfg, &next, acc + cost, depth - 1, found);
    }
}

#[test]
fn returned_route_is_no_costlier_than_any_enumerated_path() {
    let cfg = flat(100);
    let start = start_at(0, 256, 0, 0);
    let route = plan_route(&cfg, &start).expect("flat terrain route");
    let mut all_costs: Vec<u64> = Vec::new();
    enumerate_goal_costs(&cfg, &start, 0, 5, &mut all_costs);
    assert!(!all_costs.is_empty());
    let best = *all_costs.iter().min().unwrap();
    assert!(route_cost(&cfg, &route) <= best);
}

#[test]
fn capped_edge_costs_accumulate_without_overflow() {
    // A deep start on a flat terrain with unit scales makes every first
    // edge cost the full u32::MAX cap; the search must accumulate such
    // weights without overflowing.
    let cfg = SearchConfig {
        max_turn_deg: 5,
        leg_distance: 1,
        noise_scale: 100,
        noise_amplitude: 0,
        seed: 0,
        height_scale: 1,
        canvas_width: 10,
        canvas_height: 512,
        expansion_bound: 1_000_000_000,
    };
    let start = start_at(0, 0, -10_000_000, 0);
    let route = plan_route(&cfg, &start).expect("goal is straight ahead");
    assert_eq!(route_cost(&cfg, &route), u32::MAX as u64);
}

#[test]
fn route_cost_accumulates_edge_costs() {
    let cfg = standard();
    let route = vec![
        start_at(0, 0, 0, 0),
        start_at(20, 0, 20000, 0),
        start_at(40, 0, 20000, 0),
        start_at(60, 0, 40000, 0),
    ];
    assert_eq!(route_cost(&cfg, &route), 2000);
    assert_eq!(route_cost(&cfg, &route[..1].to_vec()), 0);
}
