use blprs::error::BlpError;
use blprs::shapes::{
    check_build_shapes, check_components, check_draw_shapes, check_predict_dimensions,
    check_problem_dimensions,
};

fn expect_mismatch(r: Result<(), BlpError>, context: &str, expected: usize, found: usize) {
    match r {
        Err(BlpError::DimensionMismatch { context: c, expected: e, found: f }) => {
            assert_eq!(c, context);
            assert_eq!(e, expected);
            assert_eq!(f, found);
        }
        other => panic!("expected a dimension mismatch in {}, got {:?}", context, other),
    }
}

#[test]
fn build_shapes_accept_matching_rows() {
    assert!(check_build_shapes(3, 3, true, 3, 3, 3).is_ok());
}

#[test]
fn build_shapes_reject_share_length() {
    expect_mismatch(check_build_shapes(3, 2, true, 3, 3, 3), "shares length", 3, 2);
}

#[test]
fn build_shapes_reject_missing_linear_characteristics() {
    expect_mismatch(check_build_shapes(3, 3, false, 0, 3, 3), "X1", 3, 0);
}

#[test]
fn build_shapes_reject_wrong_matrix_rows() {
    expect_mismatch(check_build_shapes(3, 3, true, 2, 3, 3), "X1 rows", 3, 2);
    expect_mismatch(check_build_shapes(3, 3, true, 3, 4, 3), "X2 rows", 3, 4);
    expect_mismatch(check_build_shapes(3, 3, true, 3, 3, 5), "Z rows", 3, 5);
}

#[test]
fn predict_dimensions_accept_matching_inputs() {
    assert!(check_predict_dimensions(3, 3, 2, 2, 2, 2).is_ok());
}

#[test]
fn predict_dimensions_skip_sigma_checks_without_heterogeneity() {
    // With no nonlinear characteristics the degenerate logit path runs and
    // sigma and the draws are never consulted.
    assert!(check_predict_dimensions(3, 3, 0, 7, 1, 9).is_ok());
}

#[test]
fn predict_dimensions_reject_delta_length() {
    expect_mismatch(check_predict_dimensions(2, 3, 0, 0, 0, 0), "delta length", 3, 2);
}

#[test]
fn predict_dimensions_reject_non_square_sigma() {
    expect_mismatch(check_predict_dimensions(3, 3, 2, 2, 1, 2), "sigma dimension", 2, 2);
    expect_mismatch(check_predict_dimensions(3, 3, 2, 3, 3, 2), "sigma dimension", 2, 3);
}

#[test]
fn predict_dimensions_reject_wrong_draw_dimension() {
    expect_mismatch(check_predict_dimensions(3, 3, 2, 2, 2, 1), "draw dimension", 2, 1);
}

#[test]
fn draw_shapes_require_a_row_and_matching_weights() {
    assert!(check_draw_shapes(4, 4).is_ok());
    expect_mismatch(check_draw_shapes(0, 0), "simulation draws", 1, 0);
    expect_mismatch(check_draw_shapes(4, 3), "draw weight length", 4, 3);
}

#[test]
fn problem_dimensions_require_zero_dim_draws_for_plain_logit() {
    assert!(check_problem_dimensions(0, 0).is_ok());
    assert!(check_problem_dimensions(2, 2).is_ok());
    expect_mismatch(check_problem_dimensions(0, 2), "draw dimension", 0, 2);
}

#[test]
fn components_check_names_the_missing_input() {
    assert!(check_components(true, true).is_ok());
    match check_components(true, false) {
        Err(BlpError::MissingComponent { component }) => {
            assert_eq!(component, "simulation draws");
        }
        other => panic!("expected a missing component error, got {:?}", other),
    }
    match check_components(false, true) {
        Err(BlpError::MissingComponent { component }) => {
            assert_eq!(component, "product data");
        }
        other => panic!("expected a missing component error, got {:?}", other),
    }
    match check_components(false, false) {
        Err(BlpError::MissingComponent { component }) => {
            assert_eq!(component, "product data");
        }
        other => panic!("expected a missing component error, got {:?}", other),
    }
}

#[test]
fn error_helpers_carry_their_payloads() {
    match BlpError::dimension_mismatch("weighting rows", 4, 2) {
        BlpError::DimensionMismatch { context, expected, found } => {
            assert_eq!(context, "weighting rows");
            assert_eq!(expected, 4);
            assert_eq!(found, 2);
        }
        other => panic!("expected a dimension mismatch, got {:?}", other),
    }
    match BlpError::singular("X'ZWZX") {
        BlpError::SingularMatrix { context } => assert_eq!(context, "X'ZWZX"),
        other => panic!("expected a singular matrix error, got {:?}", other),
    }
    match BlpError::missing_component("product data") {
        BlpError::MissingComponent { component } => assert_eq!(component, "product data"),
        other => panic!("expected a missing component error, got {:?}", other),
    }
}
