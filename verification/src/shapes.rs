//! Shape validation for the estimator's inputs.
//!
//! Every shape error the estimator can raise is decided here, before any
//! numerical work begins: the product table builder's row-count checks, the
//! share predictor's delta/sigma/draw dimension checks, the draw container's
//! row/weight-length checks, the problem-level consistency check between the
//! table's nonlinear dimension and the draws, and the assembly-time check
//! that every required component was provided. Each function reports the
//! first violated check, in the same order a caller observes it.

use vstd::prelude::*;

use crate::error::BlpError;

verus! {

/// Validates the row counts a product table is built from: `n` market ids,
/// `shares_len` observed shares, an optional linear characteristics matrix
/// with `x1_rows` rows (present iff `has_x1`), and nonlinear characteristic
/// and instrument matrices with `x2_rows` and `z_rows` rows. Every matrix
/// must carry one row per product, and the linear characteristics are the
/// one matrix that cannot be defaulted.
pub fn check_build_shapes(
    n: usize,
    shares_len: usize,
    has_x1: bool,
    x1_rows: usize,
    x2_rows: usize,
    z_rows: usize,
) -> (r: Result<(), BlpError>)
    ensures
        r is Ok <==> (shares_len == n && has_x1 && x1_rows == n && x2_rows == n && z_rows == n),
        shares_len != n ==> (r matches Err(e)
            && e matches BlpError::DimensionMismatch { context, expected, found }
            && context@ == "shares length"@ && expected == n && found == shares_len),
        shares_len == n && !has_x1 ==> (r matches Err(e)
            && e matches BlpError::DimensionMismatch { context, expected, found }
            && context@ == "X1"@ && expected == n && found == 0),
        shares_len == n && has_x1 && x1_rows != n ==> (r matches Err(e)
            && e matches BlpError::DimensionMismatch { context, expected, found }
            && context@ == "X1 rows"@ && expected == n && found == x1_rows),
        shares_len == n && has_x1 && x1_rows == n && x2_rows != n ==> (r matches Err(e)
            && e matches BlpError::DimensionMismatch { context, expected, found }
            && context@ == "X2 rows"@ && expected == n && found == x2_rows),
        shares_len == n && has_x1 && x1_rows == n && x2_rows == n && z_rows != n ==> (r matches Err(e)
            && e matches BlpError::DimensionMismatch { context, expected, found }
            && context@ == "Z rows"@ && expected == n && found == z_rows),
{
    if shares_len != n {
        return Err(BlpError::dimension_mismatch("shares length", n, shares_len));
    }
    if !has_x1 {
        return Err(BlpError::dimension_mismatch("X1", n, 0));
    }
    if x1_rows != n {
        return Err(BlpError::dimension_mismatch("X1 rows", n, x1_rows));
    }
    if x2_rows != n {
        return Err(BlpError::dimension_mismatch("X2 rows", n, x2_rows));
    }
    if z_rows != n {
        return Err(BlpError::dimension_mismatch("Z rows", n, z_rows));
    }
    Ok(())
}

/// Validates the dimensions a share prediction is called with: the mean
/// utility vector must carry one entry per product, and — unless the table
/// has no nonlinear characteristics, where the degenerate logit path skips
/// heterogeneity entirely — `sigma` must be square of the nonlinear
/// dimension and the draws must match it.
pub fn check_predict_dimensions(
    delta_len: usize,
    product_count: usize,
    nonlinear_dim: usize,
    sigma_rows: usize,
    sigma_cols: usize,
    draw_dim: usize,
) -> (r: Result<(), BlpError>)
    ensures
        r is Ok <==> (delta_len == product_count && (nonlinear_dim == 0 || (
            sigma_rows == nonlinear_dim && sigma_cols == nonlinear_dim
                && draw_dim == nonlinear_dim))),
        delta_len != product_count ==> (r matches Err(e)
            && e matches BlpError::DimensionMismatch { context, expected, found }
            && context@ == "delta length"@ && expected == product_count && found == delta_len),
        delta_len == product_count && nonlinear_dim != 0
            && !(sigma_rows == nonlinear_dim && sigma_cols == nonlinear_dim) ==> (r matches Err(e)
            && e matches BlpError::DimensionMismatch { context, expected, found }
            && context@ == "sigma dimension"@ && expected == nonlinear_dim && found == sigma_rows),
        delta_len == product_count && nonlinear_dim != 0
            && sigma_rows == nonlinear_dim && sigma_cols == nonlinear_dim
            && draw_dim != nonlinear_dim ==> (r matches Err(e)
            && e matches BlpError::DimensionMismatch { context, expected, found }
            && context@ == "draw dimension"@ && expected == nonlinear_dim && found == draw_dim),
{
    if delta_len != product_count {
        return Err(BlpError::dimension_mismatch("delta length", product_count, delta_len));
    }
    if nonlinear_dim == 0 {
        return Ok(());
    }
    if sigma_rows != nonlinear_dim || sigma_cols != nonlinear_dim {
        return Err(BlpError::dimension_mismatch("sigma dimension", nonlinear_dim, sigma_rows));
    }
    if draw_dim != nonlinear_dim {
        return Err(BlpError::dimension_mismatch("draw dimension", nonlinear_dim, draw_dim));
    }
    Ok(())
}

/// Validates the shape of a simulation-draw container: at least one draw
/// row, and exactly one integration weight per row.
pub fn check_draw_shapes(draw_rows: usize, weights_len: usize) -> (r: Result<(), BlpError>)
    ensures
        r is Ok <==> (draw_rows != 0 && weights_len == draw_rows),
        draw_rows == 0 ==> (r matches Err(e)
            && e matches BlpError::DimensionMismatch { context, expected, found }
            && context@ == "simulation draws"@ && expected == 1 && found == 0),
        draw_rows != 0 && weights_len != draw_rows ==> (r matches Err(e)
            && e matches BlpError::DimensionMismatch { context, expected, found }
            && context@ == "draw weight length"@ && expected == draw_rows && found == weights_len),
{
    if draw_rows == 0 {
        return Err(BlpError::dimension_mismatch("simulation draws", 1, 0));
    }
    if weights_len != draw_rows {
        return Err(BlpError::dimension_mismatch("draw weight length", draw_rows, weights_len));
    }
    Ok(())
}

/// Validates that a problem's draws are consistent with its product table: a
/// table without nonlinear characteristics admits only zero-dimensional
/// draws, since the degenerate logit path never consumes them.
pub fn check_problem_dimensions(nonlinear_dim: usize, draw_dim: usize) -> (r: Result<(), BlpError>)
    ensures
        r is Ok <==> !(nonlinear_dim == 0 && draw_dim != 0),
        nonlinear_dim == 0 && draw_dim != 0 ==> (r matches Err(e)
            && e matches BlpError::DimensionMismatch { context, expected, found }
            && context@ == "draw dimension"@ && expected == 0 && found == draw_dim),
{
    if nonlinear_dim == 0 && draw_dim != 0 {
        return Err(BlpError::dimension_mismatch("draw dimension", 0, draw_dim));
    }
    Ok(())
}

/// Validates at assembly time that a problem builder received both of its
/// required components, reporting the product table first when both are
/// absent.
pub fn check_components(has_products: bool, has_draws: bool) -> (r: Result<(), BlpError>)
    ensures
        r is Ok <==> (has_products && has_draws),
        !has_products ==> (r matches Err(e)
            && e matches BlpError::MissingComponent { component }
            && component@ == "product data"@),
        has_products && !has_draws ==> (r matches Err(e)
            && e matches BlpError::MissingComponent { component }
            && component@ == "simulation draws"@),
{
    if !has_products {
        return Err(BlpError::missing_component("product data"));
    }
    if !has_draws {
        return Err(BlpError::missing_component("simulation draws"));
    }
    Ok(())
}

} // verus!
