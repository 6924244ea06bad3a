//! Countdown animation (3, 2, 1) before a game.
use crate::display::{display_col, undisplay_col, DisplayOp};
use crate::game::play;
use crate::notes::{di_lo, di_lo_notes};
use crate::sound::{play_track_cmds, play_track_next, AudioCmd, Sound};
use vstd::prelude::*;

verus! {

/// Number shown first by the countdown.
pub const COUNTDOWN: u8 = 3;

const ROW_MASK: u8 = 0b11;

/// Row bits of column `col` (0 to 3) of digit `digit` (1 to 3).
pub open spec fn digit_col(digit: int, col: int) -> u8 {
    let one = seq![0b10010u8, 0b11111u8, 0b10000u8, 0b00000u8];
    let two = seq![0b11001u8, 0b10101u8, 0b10101u8, 0b10010u8];
    let three = seq![0b01001u8, 0b10001u8, 0b10101u8, 0b01011u8];
    if digit == 1 {
        one[col]
    } else if digit == 2 {
        two[col]
    } else {
        three[col]
    }
}

/// The digit columns are 1 to 4; the one before column 1 is column 4.
pub open spec fn prev_digit_col(col: int) -> int {
    if col == 1 {
        4
    } else {
        col - 1
    }
}

/// Whether the countdown ends on this tick: the last tick of digit 1.
pub open spec fn countdown_over(cnt: int, count_down: int) -> bool {
    cnt == 255 && count_down == 1
}

/// Matrix changes of a countdown tick: one column of the digit replaces the
/// column before it; the last column goes off when the countdown ends.
pub open spec fn ready_ops(cnt: int, count_down: int) -> Seq<DisplayOp> {
    let col = cnt % 4 + 1;
    let shown = seq![
        DisplayOp::HideCol(prev_digit_col(col) as u8),
        DisplayOp::ShowCol(col as u8, digit_col(count_down, cnt % 4)),
    ];
    if countdown_over(cnt, count_down) {
        shown.push(DisplayOp::HideCol(4))
    } else {
        shown
    }
}

/// Counters after a countdown tick: each digit lasts 256 ticks.
pub open spec fn ready_next(cnt: int, count_down: int) -> (int, int) {
    if cnt == 255 {
        (0, count_down - 1)
    } else {
        (cnt + 1, count_down)
    }
}

fn countdown_code(count_down: u8, col: u8) -> (r: u8)
    requires
        1 <= count_down <= 3,
        col < 4,
    ensures
        r == digit_col(count_down as int, col as int),
{
    let table: [[u8; 4]; 3] = [
        [0b10010, 0b11111, 0b10000, 0b00000],
        [0b11001, 0b10101, 0b10101, 0b10010],
        [0b01001, 0b10001, 0b10101, 0b01011],
    ];
    let row: [u8; 4] = table[(count_down - 1) as usize];
    assert(table[0]@ == seq![0b10010u8, 0b11111u8, 0b10000u8, 0b00000u8]);
    assert(table[1]@ == seq![0b11001u8, 0b10101u8, 0b10101u8, 0b10010u8]);
    assert(table[2]@ == seq![0b01001u8, 0b10001u8, 0b10101u8, 0b01011u8]);
    row[col as usize]
}

/// One tick of the countdown; returns whether it is over. The beep of each
/// digit starts on its first tick.
pub fn ready_animation(
    cnt: &mut u8,
    count_down: &mut u8,
    ops: &mut Vec<DisplayOp>,
    sound: &mut Sound,
    audio: &mut Vec<AudioCmd>,
) -> (over: bool)
    requires
        1 <= *old(count_down) <= 3,
    ensures
        over == countdown_over(*old(cnt) as int, *old(count_down) as int),
        (*final(cnt) as int, *final(count_down) as int) == ready_next(
            *old(cnt) as int,
            *old(count_down) as int,
        ),
        final(ops)@ == old(ops)@ + ready_ops(*old(cnt) as int, *old(count_down) as int),
        *old(cnt) == 0 ==> final(sound)@ == play_track_next(old(sound)@, di_lo_notes())
            && final(audio)@ == old(audio)@ + play_track_cmds(old(sound)@, di_lo_notes()),
        *old(cnt) != 0 ==> final(sound)@ == old(sound)@ && final(audio)@ == old(audio)@,
{
    let c = *cnt;
    assert(c & 3u8 == c % 4) by (bit_vector);
    let col = *cnt & ROW_MASK;
    display_countdown_col(col + 1, countdown_code(*count_down, col), ops);
    if *cnt == 0 {
        play(sound, di_lo(), audio);
    }
    if *cnt == u8::MAX {
        *count_down = *count_down - 1;
        *cnt = 0;
    } else {
        *cnt = *cnt + 1;
    }
    if *count_down == 0 {
        clear_countdown_display(ops);
        true
    } else {
        false
    }
}

fn clear_countdown_display(ops: &mut Vec<DisplayOp>)
    ensures
        final(ops)@ == old(ops)@.push(DisplayOp::HideCol(4)),
{
    undisplay_col(4, ops);
}

fn display_countdown_col(col: u8, col_code: u8, ops: &mut Vec<DisplayOp>)
    requires
        1 <= col <= 4,
    ensures
        final(ops)@ == old(ops)@ + seq![
            DisplayOp::HideCol(prev_digit_col(col as int) as u8),
            DisplayOp::ShowCol(col, col_code),
        ],
{
    undisplay_col(col_to_undisplay(col), ops);
    display_col(col, col_code, ops);
}

/// The digit column shown before column `col`.
pub fn col_to_undisplay(col: u8) -> (r: u8)
    requires
        1 <= col <= 4,
    ensures
        r == prev_digit_col(col as int),
{
    match col {
        1 => 4,
        2 => 1,
        3 => 2,
        _ => 3,
    }
}

} // verus!
