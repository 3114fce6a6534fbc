use heat_eq::history::sanitized_range;
use heat_eq::history::History;

use exmex::Express;

#[test]
fn seed_holds_exactly_the_initial_step() {
    let h = History::seed(vec![1.0_f64, 2.0, 3.0]);
    assert_eq!(h.current_time(), 0);
    assert_eq!(h.max_time(), 0);
    assert_eq!(h.all_representations().len(), 1);
    assert_eq!(h.all_representations()[0], vec![1.0, 2.0, 3.0]);
    assert_eq!(h.current_representation(), &vec![1.0, 2.0, 3.0]);
}

#[test]
fn advance_at_frontier_appends_and_moves_both_indices() {
    let mut h = History::seed(vec![0.5_f64, 1.5]);
    assert!(h.needs_compute());
    h.advance_computed(vec![0.25, 0.75]);
    assert_eq!(h.max_time(), 1);
    assert_eq!(h.current_time(), 1);
    assert_eq!(h.all_representations().len(), 2);
    assert_eq!(h.current_representation(), &vec![0.25, 0.75]);
}

#[test]
fn advance_below_frontier_only_moves_the_viewed_index() {
    let mut h = History::seed(vec![0.5_f64, 1.5]);
    h.advance_computed(vec![0.25, 0.75]);
    h.seek(0).unwrap();
    assert!(!h.needs_compute());
    h.advance_scrub();
    assert_eq!(h.current_time(), 1);
    assert_eq!(h.max_time(), 1);
    assert_eq!(h.all_representations().len(), 2);
}

#[test]
fn seeking_twice_equals_seeking_once() {
    let mut once = History::seed(vec![1.0_f64, 2.0]);
    once.advance_computed(vec![3.0, 4.0]);
    once.advance_computed(vec![5.0, 6.0]);
    once.seek(1).unwrap();

    let mut twice = History::seed(vec![1.0_f64, 2.0]);
    twice.advance_computed(vec![3.0, 4.0]);
    twice.advance_computed(vec![5.0, 6.0]);
    twice.seek(1).unwrap();
    twice.seek(1).unwrap();

    assert_eq!(once.current_time(), twice.current_time());
    assert_eq!(once.max_time(), twice.max_time());
    assert_eq!(once.all_representations(), twice.all_representations());
}

#[test]
fn seek_beyond_the_frontier_is_rejected_and_changes_nothing() {
    let mut h = History::seed(vec![1.0_f64]);
    h.advance_computed(vec![2.0]);
    let e = h.seek(9).unwrap_err();
    assert_eq!(e.requested, 9);
    assert_eq!(e.max_time, 1);
    assert_eq!(h.current_time(), 1);
    assert_eq!(h.max_time(), 1);
    assert_eq!(h.all_representations().len(), 2);
}

#[test]
fn restart_discards_history_and_reseeds() {
    let mut h = History::seed(vec![1.0_f64, 2.0]);
    h.advance_computed(vec![3.0, 4.0]);
    h.restart(vec![7.0, 8.0, 9.0]);
    assert_eq!(h.current_time(), 0);
    assert_eq!(h.max_time(), 0);
    assert_eq!(h.all_representations().len(), 1);
    assert_eq!(h.all_representations()[0], vec![7.0, 8.0, 9.0]);
}

#[test]
fn seeded_scenario_advances_to_the_demanded_depth() {
    // Settings: domain (-1, 1), quality 5, initial "sin({x})", time step 1.
    let expr = exmex::parse::<f64>("sin({x})").unwrap();
    let xs: Vec<f64> = itertools_num::linspace(-1.0, 1.0, 5).collect();
    assert_eq!(xs, vec![-1.0, -0.5, 0.0, 0.5, 1.0]);
    let initial: Vec<f64> = xs.iter().map(|&x| expr.eval(&[x]).unwrap()).collect();
    assert_eq!(initial.len(), 5);

    let mut h = History::seed(initial.clone());
    // The seeded history holds exactly the independently rendered
    // initial condition as its first step.
    assert_eq!(h.all_representations()[0], initial);

    for _ in 0..3 {
        assert!(h.needs_compute());
        let next = h.current_representation().clone();
        h.advance_computed(next);
    }
    assert_eq!(h.max_time(), 3);
    assert_eq!(h.all_representations().len(), 4);
}

#[test]
fn non_finite_range_ends_are_replaced_by_the_fallback() {
    let fallback = (-1.0_f64, 1.0_f64);
    let bad_min = (f64::NAN, 5.0);
    let r = sanitized_range(bad_min, bad_min.0.is_finite(), bad_min.1.is_finite(), fallback);
    assert_eq!(r, (-1.0, 5.0));

    let bad_both = (f64::NEG_INFINITY, f64::INFINITY);
    let r = sanitized_range(bad_both, bad_both.0.is_finite(), bad_both.1.is_finite(), fallback);
    assert_eq!(r, (-1.0, 1.0));

    let good = (0.25_f64, 0.75_f64);
    let r = sanitized_range(good, good.0.is_finite(), good.1.is_finite(), fallback);
    assert_eq!(r, (0.25, 0.75));
}
