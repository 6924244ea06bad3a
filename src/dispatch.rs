//! What the three interrupt entry points decide: each takes the cells it
//! needs, runs one step of its state machine, and gives the cells back. A
//! cell that cannot be had means the event is skipped, never waited for.
use crate::buttons::ButtonState;
use crate::display::DisplayOp;
use crate::game::{step, Game, Step};
use crate::mutex::{CellView, Mutex};
use crate::sound::{loop_done_cmds, loop_done_next, AudioCmd, Sound};
use critical_section::CriticalSection;
use vstd::prelude::*;

verus! {

/// The device state shared by the handlers.
pub struct Device {
    pub buttons: ButtonState,
    pub sound: Sound,
}

/// What a tick does to cells holding `game` and `device`, given a fresh
/// random byte; None when a cell cannot be had or the game is out of range.
pub open spec fn tick_outcome(game: CellView<Game>, device: CellView<Device>, random: u8) -> Option<
    Step,
> {
    match (game, device) {
        (CellView::Unlocked(g), CellView::Unlocked(d)) => if g@.wf() {
            Some(step(g@, d.buttons@, d.sound@, random))
        } else {
            None
        },
        _ => None,
    }
}

/// Cells `g1` and `d1` and the requests `out` are what a tick from `g0` and
/// `d0` leaves and emits.
pub open spec fn ticked(
    g0: CellView<Game>,
    d0: CellView<Device>,
    random: u8,
    g1: CellView<Game>,
    d1: CellView<Device>,
    out: (Seq<DisplayOp>, Seq<AudioCmd>),
) -> bool {
    match (tick_outcome(g0, d0, random), g1, d1) {
        (Some(st), CellView::Unlocked(g), CellView::Unlocked(d)) => {
            &&& g@ == st.game
            &&& d.buttons@ == st.buttons
            &&& d.sound@ == st.sound
            &&& out.0 == st.display
            &&& out.1 == st.audio
        },
        _ => false,
    }
}

/// Cell `d1` holds the same buttons and sequencer as `d0`.
pub open spec fn same_device(d0: CellView<Device>, d1: CellView<Device>) -> bool {
    match (d0, d1) {
        (CellView::Unlocked(a), CellView::Unlocked(b)) => a.buttons@ == b.buttons@ && a.sound@
            == b.sound@,
        _ => d0 == d1,
    }
}

/// Periodic tick: one step of the game. Returns the matrix changes and the
/// speaker commands, or None when the step was skipped.
pub fn on_tick<'a>(
    cs: CriticalSection<'a>,
    game: &'a mut Mutex<Game>,
    device: &'a mut Mutex<Device>,
    random: u8,
) -> (r: Option<(Vec<DisplayOp>, Vec<AudioCmd>)>)
    ensures
        r is Some <==> tick_outcome(old(game)@, old(device)@, random) is Some,
        r is None ==> final(game)@ == old(game)@ && same_device(old(device)@, final(device)@),
        r matches Some(out) ==> ticked(
            old(game)@,
            old(device)@,
            random,
            final(game)@,
            final(device)@,
            (out.0@, out.1@),
        ),
{
    match device.try_borrow_mut(cs) {
        Some(d) => match game.try_borrow_mut(cs) {
            Some(g) => {
                if g.is_valid() {
                    Some(g.poll(&mut d.buttons, &mut d.sound, random))
                } else {
                    None
                }
            },
            None => None,
        },
        None => None,
    }
}

/// Loop-done event of the waveform generator: one step of the sequencer.
/// Returns the speaker commands, or None when the device cell cannot be had.
pub fn on_loop_done<'a>(cs: CriticalSection<'a>, device: &'a mut Mutex<Device>) -> (r: Option<
    Vec<AudioCmd>,
>)
    ensures
        r is Some <==> old(device)@ is Unlocked,
        r is None ==> final(device)@ == old(device)@,
        r matches Some(cmds) ==> match (old(device)@, final(device)@) {
            (CellView::Unlocked(a), CellView::Unlocked(b)) => {
                &&& b.buttons@ == a.buttons@
                &&& b.sound@ == loop_done_next(a.sound@)
                &&& cmds@ == loop_done_cmds(a.sound@)
            },
            _ => false,
        },
{
    match device.try_borrow_mut(cs) {
        Some(d) => Some(d.sound.handle_interrupt()),
        None => None,
    }
}

/// Button edge event: records it. Returns whether the device cell could be
/// had.
pub fn on_edge<'a>(
    cs: CriticalSection<'a>,
    device: &'a mut Mutex<Device>,
    edge_a: bool,
    edge_b: bool,
    a_low: bool,
    b_low: bool,
) -> (handled: bool)
    ensures
        handled <==> old(device)@ is Unlocked,
        !handled ==> final(device)@ == old(device)@,
        handled ==> match (old(device)@, final(device)@) {
            (CellView::Unlocked(a), CellView::Unlocked(b)) => {
                &&& b.buttons@ == a.buttons@.interrupt(edge_a, edge_b, a_low, b_low)
                &&& b.sound@ == a.sound@
            },
            _ => false,
        },
{
    match device.try_borrow_mut(cs) {
        Some(d) => {
            d.buttons.handle_interrupt(edge_a, edge_b, a_low, b_low);
            true
        },
        None => false,
    }
}

} // verus!
