use heat_eq::points::parse_points;

use splines::Interpolation;
use splines::Key;
use splines::Spline;

fn owned(pairs: &[(&str, &str)]) -> Vec<(String, String)> {
    pairs.iter().map(|(x, y)| (x.to_string(), y.to_string())).collect()
}

#[test]
fn a_plain_list_is_cut_into_its_tokens() {
    let pairs = parse_points("[(0,2),(1,3.5)]").unwrap();
    assert_eq!(pairs, owned(&[("0", "2"), ("1", "3.5")]));
}

#[test]
fn whitespace_is_ignored() {
    let pairs = parse_points("  [ (0 , 2) ,\n\t(1 , 3.5) ]  ").unwrap();
    assert_eq!(pairs, owned(&[("0", "2"), ("1", "3.5")]));
}

#[test]
fn a_trailing_comma_is_accepted() {
    let pairs = parse_points("[(0,2),(1,3.5),]").unwrap();
    assert_eq!(pairs, owned(&[("0", "2"), ("1", "3.5")]));
}

#[test]
fn the_empty_list_has_no_pairs() {
    assert_eq!(parse_points("[]").unwrap(), owned(&[]));
    assert_eq!(parse_points(" [ ] ").unwrap(), owned(&[]));
}

#[test]
fn signs_dots_and_exponents_stay_in_the_tokens() {
    let pairs = parse_points("[(-1,2.5e-3),(0,+4),(1e2,.5)]").unwrap();
    assert_eq!(pairs, owned(&[("-1", "2.5e-3"), ("0", "+4"), ("1e2", ".5")]));
}

#[test]
fn texts_outside_the_grammar_are_rejected_by_name() {
    for bad in [
        "",
        "sin({x})",
        "[",
        "[(0,2)",
        "[(0,2)]]",
        "[(,2)]",
        "[(0,)]",
        "[(0;2)]",
        "[0,2]",
        "[(0,2)(1,3)]",
        "(0,2)",
        "[,]",
        "[(0,2),,]",
        "[()]",
        "[ ( , ) ]",
        "[(0,2)],",
    ] {
        let e = parse_points(bad).unwrap_err();
        assert_eq!(e.0, bad);
        assert_eq!(
            e.message(),
            "The input was not an analytical function nor a collection of points."
        );
    }
}

#[test]
fn point_list_text_round_trips_through_a_spline() {
    let pairs = parse_points("[(0,2),(1,3.5)]").unwrap();
    let keys: Vec<Key<f64, f64>> = pairs
        .iter()
        .map(|(x, y)| Key::new(x.parse().unwrap(), y.parse().unwrap(), Interpolation::Cosine))
        .collect();
    let spline = Spline::from_vec(keys);
    assert_eq!(spline.clamped_sample(0.0), Some(2.0));
    assert_eq!(spline.clamped_sample(1.0), Some(3.5));
}
