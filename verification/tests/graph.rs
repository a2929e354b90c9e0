use ut61eplus_lib::graph::MAX_POINTS;

type Graph = ut61eplus_lib::graph::Graph<f64>;

#[test]
fn new_graph_is_empty() {
    let g = Graph::new();
    assert!(g.is_empty());
    assert_eq!(g.len(), 0);
}

#[test]
fn push_adds_point() {
    let mut g = Graph::new();
    g.push(0.0, 5.0, "DC V");
    assert_eq!(g.len(), 1);
    assert!(!g.is_empty());
}

#[test]
fn mode_change_clears_history() {
    let mut g = Graph::new();
    g.push(0.0, 5.0, "DC V");
    g.push(1.0, 5.1, "DC V");
    assert_eq!(g.len(), 2);

    g.push(2.0, 100.0, "Ohm");
    assert_eq!(g.len(), 1); // cleared + new point
}

#[test]
fn max_points_evicts_oldest() {
    let mut g = Graph::new();
    for i in 0..MAX_POINTS + 100 {
        g.push(i as f64, i as f64, "DC V");
    }
    assert_eq!(g.len(), MAX_POINTS);
}

#[test]
fn clear_resets_everything() {
    let mut g = Graph::new();
    g.push(0.0, 5.0, "DC V");
    g.clear();
    assert!(g.is_empty());
    assert_eq!(g.current_mode, None);
}

#[test]
fn eviction_keeps_the_newest_points_in_order() {
    let mut g = Graph::new();
    for i in 0..MAX_POINTS + 3 {
        g.push(i as f64, 2.0 * i as f64, "AC V");
    }
    let h = g.history();
    assert_eq!(h.len(), MAX_POINTS);
    assert_eq!(h.front(), Some(&(3.0, 6.0)));
    let last = (MAX_POINTS + 2) as f64;
    assert_eq!(h.back(), Some(&(last, 2.0 * last)));
    assert_eq!(g.current_mode.as_deref(), Some("AC V"));
}

#[test]
fn same_mode_keeps_points_and_mode() {
    let mut g = Graph::default();
    g.push(0.5, 1.0, "Hz");
    g.push(1.5, 2.0, "Hz");
    let points: Vec<(f64, f64)> = g.history().iter().copied().collect();
    assert_eq!(points, vec![(0.5, 1.0), (1.5, 2.0)]);
    g.push(2.5, 3.0, "hz");
    let points: Vec<(f64, f64)> = g.history().iter().copied().collect();
    assert_eq!(points, vec![(2.5, 3.0)]);
    assert_eq!(g.current_mode.as_deref(), Some("hz"));
}
