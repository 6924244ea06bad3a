//! Requests to the LED matrix driver. The game decides what to light; the
//! driver turns each request into pin levels.
use vstd::prelude::*;

verus! {

/// Number of rows and of columns of the matrix.
pub const MATRIX_SIZE: u8 = 5;

/// One change of the matrix.
#[derive(PartialEq, Eq, Structural, Clone, Copy, Debug)]
pub enum DisplayOp {
    /// Light the pixel at row `0`, column `1`.
    ShowPx(u8, u8),
    /// Turn off the pixel at row `0`, column `1`.
    HidePx(u8, u8),
    /// Drive column `0` with the row bits of `1` (bit `r` lights row `r`).
    ShowCol(u8, u8),
    /// Turn off column `0` and release every row.
    HideCol(u8),
}

/// The request that lights pixel `p`.
pub open spec fn lit(p: (u8, u8)) -> DisplayOp {
    DisplayOp::ShowPx(p.0, p.1)
}

/// The request that turns off pixel `p`.
pub open spec fn unlit(p: (u8, u8)) -> DisplayOp {
    DisplayOp::HidePx(p.0, p.1)
}

/// Lights pixel `px`.
pub fn display_px(px: (u8, u8), ops: &mut Vec<DisplayOp>)
    requires
        px.0 < MATRIX_SIZE,
        px.1 < MATRIX_SIZE,
    ensures
        final(ops)@ == old(ops)@.push(lit(px)),
{
    ops.push(DisplayOp::ShowPx(px.0, px.1));
}

/// Turns off pixel `px`.
pub fn undisplay_px(px: (u8, u8), ops: &mut Vec<DisplayOp>)
    requires
        px.0 < MATRIX_SIZE,
        px.1 < MATRIX_SIZE,
    ensures
        final(ops)@ == old(ops)@.push(unlit(px)),
{
    ops.push(DisplayOp::HidePx(px.0, px.1));
}

/// Lights column `col` with the row bits of `col_code`.
pub fn display_col(col: u8, col_code: u8, ops: &mut Vec<DisplayOp>)
    requires
        col < MATRIX_SIZE,
    ensures
        final(ops)@ == old(ops)@.push(DisplayOp::ShowCol(col, col_code)),
{
    ops.push(DisplayOp::ShowCol(col, col_code));
}

/// Turns off column `col`.
pub fn undisplay_col(col: u8, ops: &mut Vec<DisplayOp>)
    requires
        col < MATRIX_SIZE,
    ensures
        final(ops)@ == old(ops)@.push(DisplayOp::HideCol(col)),
{
    ops.push(DisplayOp::HideCol(col));
}

} // verus!
