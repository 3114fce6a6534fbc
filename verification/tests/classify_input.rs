use heat_eq::kind::FnInput;
use heat_eq::kind::FnInputKind;
use heat_eq::points::parse_points;

use exmex::Express;
use exmex::FlatEx;
use splines::Interpolation;
use splines::Key;
use splines::Spline;

/// Reads an initial-condition text the way the application does: offer
/// it to the expression evaluator first, then to the point-list
/// grammar, and let the library decide which reading stands.
fn read(
    text: &str,
) -> Result<FnInputKind<FlatEx<f64>, Spline<f64, f64>>, heat_eq::errors::FormatError> {
    let analytical = exmex::parse::<f64>(text).ok();
    let points = match parse_points(text) {
        Ok(pairs) => {
            let mut keys: Vec<Key<f64, f64>> = Vec::new();
            for (x, y) in &pairs {
                match (x.parse::<f64>(), y.parse::<f64>()) {
                    (Ok(x), Ok(y)) => keys.push(Key::new(x, y, Interpolation::Cosine)),
                    _ => return Err(heat_eq::errors::FormatError(text.to_string())),
                }
            }
            Some(Spline::from_vec(keys))
        }
        Err(_) => None,
    };
    FnInputKind::classify(text, analytical, points)
}

#[test]
fn formula_text_classifies_as_analytical_and_round_trips() {
    match read("sin({x})").unwrap() {
        FnInputKind::Analytical { expression } => {
            assert!(expression.eval(&[0.0]).unwrap().abs() < 1e-9);
            let at_half_pi = expression.eval(&[std::f64::consts::FRAC_PI_2]).unwrap();
            assert!((at_half_pi - 1.0).abs() < 1e-9);
        }
        FnInputKind::Points { .. } => panic!("expected the analytical kind"),
    }
}

#[test]
fn point_text_classifies_as_points_and_samples_its_values() {
    match read("[(0,2),(1,3.5)]").unwrap() {
        FnInputKind::Points { spline } => {
            assert_eq!(spline.clamped_sample(0.0), Some(2.0));
            assert_eq!(spline.clamped_sample(1.0), Some(3.5));
        }
        FnInputKind::Analytical { .. } => panic!("expected the points kind"),
    }
}

#[test]
fn the_expression_reading_wins_over_the_point_reading() {
    let kind = FnInputKind::<&str, &str>::classify("anything", Some("expression"), Some("points"))
        .unwrap();
    assert!(matches!(kind, FnInputKind::Analytical { expression: "expression" }));
}

#[test]
fn a_text_with_no_reading_is_rejected_by_name() {
    let text = "definitely not a function";
    let e = FnInputKind::<&str, &str>::classify(text, None, None).unwrap_err();
    assert_eq!(e.0, text);
    let e = read(text).unwrap_err();
    assert_eq!(e.0, text);
}

#[test]
fn a_classified_input_keeps_the_raw_text() {
    let f = FnInput::<&str, &str>::from_classified("sin({x})", Some("expression"), None).unwrap();
    assert_eq!(f.string, "sin({x})");
    assert!(matches!(f.kind, FnInputKind::Analytical { expression: "expression" }));

    let e = FnInput::<&str, &str>::from_classified("nope", None, None).unwrap_err();
    assert_eq!(e.0, "nope");
}
