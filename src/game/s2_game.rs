//! A game in progress: the dot runs along the path, steered by the buttons,
//! until it reaches an end.
use crate::buttons::{Button, ButtonState, ButtonsView};
use crate::display::{display_px, undisplay_px, lit, unlit, DisplayOp};
use crate::game::s0_idle::{advance_cnt, blink, blink_ops, next_cnt};
use crate::spiral::{DotState, DotView, CENTER};
use vstd::prelude::*;

verus! {

/// Counter value on entry to a game.
pub const INIT_CNT: i8 = -1;

/// The two players: A owns the left end of the path, B the right end.
#[derive(PartialEq, Eq, Structural, Clone, Copy, Debug)]
pub enum Players {
    A,
    B,
}

/// The dot after steering by the buttons. It heads for the end of the player
/// who gave the last edge: counter-clockwise, toward A's left end, after an
/// edge of A (or none since the last reset); clockwise, toward B's right end,
/// after an edge of B.
pub open spec fn steered(dot: DotView, buttons: ButtonsView) -> DotView {
    if (dot.clockwise && buttons.last == Button::A) || (!dot.clockwise && buttons.last
        != Button::A) {
        dot.toggled()
    } else {
        dot
    }
}

/// The dot is on an end of the path.
pub open spec fn at_end(dot: DotView) -> bool {
    dot.is_left() || dot.is_right()
}

/// The player whose end the dot stands on.
pub open spec fn winner_at(dot: DotView) -> Players {
    if dot.is_left() {
        Players::A
    } else {
        Players::B
    }
}

/// The dot after the moving tick (counter 15): steered, then one step on
/// unless it already stands on an end.
pub open spec fn moved(dot: DotView, buttons: ButtonsView) -> DotView {
    let d = steered(dot, buttons);
    if at_end(d) {
        d
    } else {
        d.stepped()
    }
}

/// Winner decided by a tick at counter `cnt`: on the moving tick, the dot
/// standing on an end, or reaching one.
pub open spec fn game_winner(cnt: int, dot: DotView, buttons: ButtonsView) -> Option<Players> {
    if cnt == 15 && at_end(moved(dot, buttons)) {
        Some(winner_at(moved(dot, buttons)))
    } else {
        None
    }
}

/// Matrix changes of a game tick.
pub open spec fn game_ops(cnt: int, dot: DotView, buttons: ButtonsView) -> Seq<DisplayOp> {
    if cnt == 15 {
        if at_end(moved(dot, buttons)) {
            seq![unlit(CENTER)]
        } else {
            seq![unlit(CENTER), lit(moved(dot, buttons).coord())]
        }
    } else {
        blink_ops(cnt, dot)
    }
}

/// One tick of a game; returns the winner once the dot reaches an end.
pub fn game(
    cnt: &mut i8,
    dot: &mut DotState,
    buttons: &ButtonState,
    ops: &mut Vec<DisplayOp>,
) -> (winner: Option<Players>)
    requires
        -1 <= *old(cnt) <= 15,
    ensures
        winner == game_winner(*old(cnt) as int, old(dot)@, buttons@),
        winner is None ==> *final(cnt) == next_cnt(*old(cnt) as int),
        winner is None ==> final(dot)@ == if *old(cnt) == 15 {
            moved(old(dot)@, buttons@)
        } else {
            old(dot)@
        },
        final(dot)@.wf(),
        final(ops)@ == old(ops)@ + game_ops(*old(cnt) as int, old(dot)@, buttons@),
{
    if *cnt == 15 {
        undisplay_px(CENTER, ops);
        if let Some(winner) = dot_game_spiral(dot, buttons) {
            return Some(winner);
        }
        display_px(dot.px(), ops);
    } else {
        blink(*cnt, dot, ops);
    }
    *cnt = advance_cnt(*cnt);
    None
}

/// Steers and moves the dot; returns the winner when the dot stands on or
/// reaches an end.
fn dot_game_spiral(dot: &mut DotState, buttons: &ButtonState) -> (winner: Option<Players>)
    ensures
        final(dot)@ == moved(old(dot)@, buttons@),
        final(dot)@.wf(),
        winner == if at_end(moved(old(dot)@, buttons@)) {
            Some(winner_at(moved(old(dot)@, buttons@)))
        } else {
            None
        },
{
    update_dot_motion(dot, buttons);
    if dot.is_left() || dot.is_right() {
        return Some(end_winner(dot));
    }
    dot.next();
    if dot.is_left() || dot.is_right() {
        Some(end_winner(dot))
    } else {
        None
    }
}

fn end_winner(dot: &DotState) -> (r: Players)
    ensures
        r == winner_at(dot@),
{
    if dot.is_left() {
        Players::A
    } else {
        Players::B
    }
}

/// Points the dot toward the end of the player who gave the last edge.
fn update_dot_motion(dot: &mut DotState, buttons: &ButtonState)
    ensures
        final(dot)@ == steered(old(dot)@, buttons@),
        final(dot)@.wf(),
{
    let clockwise = dot.is_clockwise();
    let last_a = buttons.last_a();
    if (clockwise && last_a) || (!clockwise && !last_a) {
        dot.toggle_clockwise();
    }
}

} // verus!
