//! Idle animation, before a game starts.
use crate::buttons::ButtonState;
use crate::display::{display_px, undisplay_px, lit, unlit, DisplayOp};
use crate::spiral::{DotState, DotView, CENTER};
use vstd::prelude::*;

verus! {

/// Counter value on entry to a dot animation: shows the dot first.
pub const INIT_CN: i8 = -1;

const COUNTER_MASK: i8 = 0b1111;

/// Counter of a dot animation after one tick from `cnt`, in a 16-tick cycle.
pub open spec fn next_cnt(cnt: int) -> int {
    if cnt == 15 {
        0
    } else {
        cnt + 1
    }
}

/// Blinking between the dot and the centre, at the ticks where the dot does
/// not move: show the dot on entry, the centre at 6 and 14, the dot at 7.
pub open spec fn blink_ops(cnt: int, dot: DotView) -> Seq<DisplayOp> {
    if cnt == -1 {
        seq![lit(dot.coord())]
    } else if cnt == 6 || cnt == 14 {
        seq![unlit(dot.coord()), lit(CENTER)]
    } else if cnt == 7 {
        seq![unlit(CENTER), lit(dot.coord())]
    } else {
        seq![]
    }
}

/// The dot after an idle tick at counter `cnt`: it moves at 15.
pub open spec fn idle_dot(cnt: int, dot: DotView) -> DotView {
    if cnt == 15 {
        dot.spiraled()
    } else {
        dot
    }
}

/// Matrix changes of an idle tick at counter `cnt`; `started` when both
/// buttons were seen down, which clears the animation.
pub open spec fn idle_ops(cnt: int, dot: DotView, started: bool) -> Seq<DisplayOp> {
    let shown = if cnt == 15 {
        seq![unlit(CENTER), lit(dot.spiraled().coord())]
    } else {
        blink_ops(cnt, dot)
    };
    if started {
        shown + seq![unlit(idle_dot(cnt, dot).coord()), unlit(CENTER)]
    } else {
        shown
    }
}

/// Counter after one tick of a 16-tick cycle.
pub fn advance_cnt(cnt: i8) -> (r: i8)
    requires
        -1 <= cnt <= 15,
    ensures
        r == next_cnt(cnt as int),
{
    let x: i8 = cnt + 1;
    assert(0 <= x <= 16 ==> x & 15i8 == if x == 16 { 0i8 } else { x }) by (bit_vector);
    x & COUNTER_MASK
}

/// Shows the dot on entry, the centre at 6 and 14, the dot at 7.
pub fn blink(cnt: i8, dot: &DotState, ops: &mut Vec<DisplayOp>)
    ensures
        dot@.wf(),
        final(ops)@ == old(ops)@ + blink_ops(cnt as int, dot@),
{
    let px = dot.px();
    if cnt == INIT_CN {
        display_px(px, ops);
    } else if cnt == 6 || cnt == 14 {
        undisplay_px(px, ops);
        display_px(CENTER, ops);
    } else if cnt == 7 {
        undisplay_px(CENTER, ops);
        display_px(px, ops);
    }
}

/// One tick of the idle animation; returns whether a game was started.
pub fn idle_animation(
    cnt: &mut i8,
    dot: &mut DotState,
    buttons: &ButtonState,
    ops: &mut Vec<DisplayOp>,
) -> (started: bool)
    requires
        -1 <= *old(cnt) <= 15,
    ensures
        started == buttons@.both,
        *final(cnt) == next_cnt(*old(cnt) as int),
        final(dot)@ == idle_dot(*old(cnt) as int, old(dot)@),
        final(ops)@ == old(ops)@ + idle_ops(*old(cnt) as int, old(dot)@, started),
{
    if *cnt == 15 {
        undisplay_px(CENTER, ops);
        dot_idle_spiral(dot);
        display_px(dot.px(), ops);
    } else {
        blink(*cnt, dot, ops);
    }
    *cnt = advance_cnt(*cnt);
    if game_started(buttons) {
        clear_idle_animation(dot, ops);
        true
    } else {
        false
    }
}

/// Movement of the dot while idle.
fn dot_idle_spiral(dot: &mut DotState)
    ensures
        final(dot)@ == old(dot)@.spiraled(),
{
    dot.spiral();
}

fn game_started(buttons: &ButtonState) -> (r: bool)
    ensures
        r == buttons@.both,
{
    buttons.both_pressed()
}

fn clear_idle_animation(dot: &DotState, ops: &mut Vec<DisplayOp>)
    ensures
        final(ops)@ == old(ops)@ + seq![unlit(dot@.coord()), unlit(CENTER)],
{
    undisplay_px(dot.px(), ops);
    undisplay_px(CENTER, ops);
}

} // verus!
