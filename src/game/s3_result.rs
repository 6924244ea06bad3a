//! Result animation: the winner's letter, until both buttons are pressed
//! again.
use crate::buttons::{cleared, ButtonState, ButtonsView};
use crate::display::{display_col, undisplay_col, DisplayOp};
use crate::game::s2_game::Players;
use vstd::prelude::*;

verus! {

const ROW_MASK: u8 = 0b11;

/// Last column of the letter of A.
pub const LAST_COL: u8 = 3;

/// Column shift of the winner's letter: A uses columns 0 to 3, B 1 to 4.
pub open spec fn shift(winner: Players) -> int {
    if winner == Players::B {
        1
    } else {
        0
    }
}

/// Row bits of column `col` (0 to 3) of the winner's letter.
pub open spec fn glyph_col(winner: Players, col: int) -> u8 {
    let a = seq![0b11110u8, 0b00101u8, 0b00101u8, 0b11110u8];
    let b = seq![0b11111u8, 0b10101u8, 0b10101u8, 0b01010u8];
    if winner == Players::A {
        a[col]
    } else {
        b[col]
    }
}

/// The letter column shown before column `col`, cyclically over 0 to 3.
pub open spec fn prev_glyph_col(col: int) -> int {
    if col == 0 {
        3
    } else {
        col - 1
    }
}

/// Matrix changes of the letter at counter `cnt`: in each 256-tick cycle the
/// letter is drawn a column per tick for 128 ticks, then blanked.
pub open spec fn glyph_ops(cnt: int, winner: Players) -> Seq<DisplayOp> {
    let cycle = cnt % 256;
    let col = cycle % 4;
    let b = shift(winner);
    if cycle <= 127 {
        seq![
            DisplayOp::HideCol((prev_glyph_col(col) + b) as u8),
            DisplayOp::ShowCol((col + b) as u8, glyph_col(winner, col)),
        ]
    } else if cycle == 128 {
        seq![DisplayOp::HideCol((LAST_COL + b) as u8)]
    } else {
        seq![]
    }
}

/// Counter after a result tick; it wraps.
pub open spec fn result_next(cnt: int) -> int {
    (cnt + 1) % 0x10000
}

/// Whether a result tick at `cnt` ends the phase: the letter was shown for a
/// second and both buttons were pressed since then.
pub open spec fn result_over(cnt: int, buttons: ButtonsView) -> bool {
    result_next(cnt) > 255 && buttons.both
}

/// Matrix changes of a result tick; the column still lit goes off when the
/// phase ends.
pub open spec fn result_ops(cnt: int, winner: Players, buttons: ButtonsView) -> Seq<DisplayOp> {
    let cycle = cnt % 256;
    if result_over(cnt, buttons) && cycle <= 127 {
        glyph_ops(cnt, winner).push(DisplayOp::HideCol((cycle % 4 + shift(winner)) as u8))
    } else {
        glyph_ops(cnt, winner)
    }
}

/// Buttons after a result tick: cleared once the letter was up for a second,
/// so that only presses from then on count.
pub open spec fn result_buttons(cnt: int, buttons: ButtonsView) -> ButtonsView {
    if result_next(cnt) == 255 {
        cleared()
    } else {
        buttons
    }
}

fn player_b_wins(winner: Players) -> (r: u8)
    ensures
        r == shift(winner),
{
    match winner {
        Players::A => 0,
        Players::B => 1,
    }
}

/// One tick of the result animation; returns whether both buttons were
/// pressed after the letter had been up for a second.
pub fn result_animation(
    cnt: &mut u16,
    winner: Players,
    buttons: &mut ButtonState,
    ops: &mut Vec<DisplayOp>,
) -> (over: bool)
    ensures
        over == result_over(*old(cnt) as int, old(buttons)@),
        *final(cnt) == result_next(*old(cnt) as int),
        final(buttons)@ == result_buttons(*old(cnt) as int, old(buttons)@),
        final(ops)@ == old(ops)@ + result_ops(*old(cnt) as int, winner, old(buttons)@),
{
    let display_cycle: u8 = (*cnt % 256) as u8;
    let b = player_b_wins(winner);
    if display_cycle <= 127 {
        display_result_col(display_cycle, winner, ops);
    } else if display_cycle == 128 {
        undisplay_col(LAST_COL + b, ops);
    }
    *cnt = cnt.wrapping_add(1);
    if *cnt == 255 {
        buttons.reset();
    } else if *cnt > 255 && buttons.both_pressed() {
        clear_result_col(display_cycle, b, ops);
        return true;
    }
    false
}

fn glyph_code(winner: Players, col: u8) -> (r: u8)
    requires
        col < 4,
    ensures
        r == glyph_col(winner, col as int),
{
    let a: [u8; 4] = [0b11110, 0b00101, 0b00101, 0b11110];
    let b: [u8; 4] = [0b11111, 0b10101, 0b10101, 0b01010];
    assert(a@ == seq![0b11110u8, 0b00101u8, 0b00101u8, 0b11110u8]);
    assert(b@ == seq![0b11111u8, 0b10101u8, 0b10101u8, 0b01010u8]);
    match winner {
        Players::A => a[col as usize],
        Players::B => b[col as usize],
    }
}

fn display_result_col(display_cycle: u8, winner: Players, ops: &mut Vec<DisplayOp>)
    requires
        display_cycle <= 127,
    ensures
        final(ops)@ == old(ops)@ + glyph_ops(display_cycle as int, winner),
{
    let c = display_cycle;
    assert(c & 3u8 == c % 4) by (bit_vector);
    let col = display_cycle & ROW_MASK;
    let b = player_b_wins(winner);
    undisplay_col(prev_col(col) + b, ops);
    display_col(col + b, glyph_code(winner, col), ops);
}

/// Turns off the column still lit, if the letter is being drawn.
fn clear_result_col(display_cycle: u8, player_b_wins: u8, ops: &mut Vec<DisplayOp>)
    requires
        player_b_wins <= 1,
    ensures
        display_cycle <= 127 ==> final(ops)@ == old(ops)@.push(
            DisplayOp::HideCol((display_cycle % 4 + player_b_wins) as u8),
        ),
        display_cycle > 127 ==> final(ops)@ == old(ops)@,
{
    if display_cycle <= 127 {
        let c = display_cycle;
        assert(c & 3u8 == c % 4) by (bit_vector);
        let col = display_cycle & ROW_MASK;
        undisplay_col(col + player_b_wins, ops);
    }
}

/// The letter column shown before column `col`.
pub fn prev_col(col: u8) -> (r: u8)
    requires
        col < 4,
    ensures
        r == prev_glyph_col(col as int),
{
    match col {
        0 => 3,
        1 => 0,
        2 => 1,
        _ => 2,
    }
}

} // verus!
