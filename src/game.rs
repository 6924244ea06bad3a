//! The phase machine of the game, stepped once per tick:
//! idle animation, countdown, game, result, then countdown again.
use crate::buttons::{cleared, ButtonState, ButtonsView};
use crate::display::DisplayOp;
use crate::notes::{di_hi, di_hi_notes, di_lo_notes, peppa, peppa_notes};
use crate::sound::{play_track_cmds, play_track_next, AudioCmd, Note, Sound, SoundView};
use crate::spiral::{start_view, DotState, DotView};
use vstd::prelude::*;

pub mod s0_idle;
pub mod s1_ready;
pub mod s2_game;
pub mod s3_result;

use s0_idle::{idle_animation, idle_dot, idle_ops, next_cnt, INIT_CN};
use s1_ready::{countdown_over, ready_animation, ready_next, ready_ops, COUNTDOWN};
use s2_game::{game, game_ops, game_winner, moved, Players, INIT_CNT};
use s3_result::{result_animation, result_buttons, result_next, result_ops, result_over};

verus! {

/// The state machine of the game.
pub enum Game {
    /// Idle animation after the device is started.
    IdleAnimation { dot: DotState, cnt: i8 },
    /// Countdown after both players are ready.
    ReadyAnimation { count_down: u8, cnt: u8 },
    /// A game in progress.
    Playing { dot: DotState, cnt: i8 },
    /// Result animation.
    Result { winner: Players, cnt: u16 },
}

/// A phase as seen by contracts.
pub enum GameView {
    IdleAnimation { dot: DotView, cnt: int },
    ReadyAnimation { count_down: int, cnt: int },
    Playing { dot: DotView, cnt: int },
    Result { winner: Players, cnt: int },
}

impl GameView {
    /// Counters within their cycles, countdown digit between 1 and 3.
    pub open spec fn wf(self) -> bool {
        match self {
            GameView::IdleAnimation { cnt, .. } => -1 <= cnt <= 15,
            GameView::ReadyAnimation { count_down, cnt } => 1 <= count_down <= 3 && 0 <= cnt
                <= 255,
            GameView::Playing { cnt, .. } => -1 <= cnt <= 15,
            GameView::Result { cnt, .. } => 0 <= cnt <= 0xffff,
        }
    }
}

impl View for Game {
    type V = GameView;

    open spec fn view(&self) -> GameView {
        match self {
            Game::IdleAnimation { dot, cnt } => GameView::IdleAnimation {
                dot: dot@,
                cnt: *cnt as int,
            },
            Game::ReadyAnimation { count_down, cnt } => GameView::ReadyAnimation {
                count_down: *count_down as int,
                cnt: *cnt as int,
            },
            Game::Playing { dot, cnt } => GameView::Playing { dot: dot@, cnt: *cnt as int },
            Game::Result { winner, cnt } => GameView::Result { winner: *winner, cnt: *cnt as int },
        }
    }
}

/// Everything one tick changes or emits.
pub struct Step {
    pub game: GameView,
    pub buttons: ButtonsView,
    pub sound: SoundView,
    pub display: Seq<DisplayOp>,
    pub audio: Seq<AudioCmd>,
}

/// The phase in which the game starts.
pub open spec fn initial() -> GameView {
    GameView::IdleAnimation { dot: start_view(), cnt: INIT_CN as int }
}

/// Entry to the countdown.
pub open spec fn ready_entry() -> GameView {
    GameView::ReadyAnimation { count_down: COUNTDOWN as int, cnt: 0 }
}

/// The dot of a new game: a random byte below 128 turns it counter-clockwise.
pub open spec fn start_dot(random: u8) -> DotView {
    if random <= 127 {
        start_view().toggled()
    } else {
        start_view()
    }
}

/// One tick from phase `g`, with buttons `b`, sequencer `s`, and `random`
/// standing for a fresh random byte.
pub open spec fn step(g: GameView, b: ButtonsView, s: SoundView, random: u8) -> Step {
    match g {
        GameView::IdleAnimation { dot, cnt } => Step {
            game: if b.both {
                ready_entry()
            } else {
                GameView::IdleAnimation { dot: idle_dot(cnt, dot), cnt: next_cnt(cnt) }
            },
            buttons: b,
            sound: s,
            display: idle_ops(cnt, dot, b.both),
            audio: seq![],
        },
        GameView::ReadyAnimation { count_down, cnt } => {
            let s1 = if cnt == 0 {
                play_track_next(s, di_lo_notes())
            } else {
                s
            };
            let a1 = if cnt == 0 {
                play_track_cmds(s, di_lo_notes())
            } else {
                seq![]
            };
            if countdown_over(cnt, count_down) {
                Step {
                    game: GameView::Playing { dot: start_dot(random), cnt: INIT_CNT as int },
                    buttons: cleared(),
                    sound: play_track_next(s1, di_hi_notes()),
                    display: ready_ops(cnt, count_down),
                    audio: a1 + play_track_cmds(s1, di_hi_notes()),
                }
            } else {
                Step {
                    game: GameView::ReadyAnimation {
                        count_down: ready_next(cnt, count_down).1,
                        cnt: ready_next(cnt, count_down).0,
                    },
                    buttons: b,
                    sound: s1,
                    display: ready_ops(cnt, count_down),
                    audio: a1,
                }
            }
        },
        GameView::Playing { dot, cnt } => match game_winner(cnt, dot, b) {
            Some(w) => Step {
                game: GameView::Result { winner: w, cnt: 0 },
                buttons: b,
                sound: play_track_next(s, peppa_notes()),
                display: game_ops(cnt, dot, b),
                audio: play_track_cmds(s, peppa_notes()),
            },
            None => Step {
                game: GameView::Playing {
                    dot: if cnt == 15 {
                        moved(dot, b)
                    } else {
                        dot
                    },
                    cnt: next_cnt(cnt),
                },
                buttons: b,
                sound: s,
                display: game_ops(cnt, dot, b),
                audio: seq![],
            },
        },
        GameView::Result { winner, cnt } => Step {
            game: if result_over(cnt, b) {
                ready_entry()
            } else {
                GameView::Result { winner, cnt: result_next(cnt) }
            },
            buttons: result_buttons(cnt, b),
            sound: s,
            display: result_ops(cnt, winner, b),
            audio: seq![],
        },
    }
}

/// On the moving tick of a game (counter 15), a dot standing on the left end
/// ends the game with A as winner, and one on the right end with B, whatever
/// its direction and the buttons; the victory tune starts.
pub proof fn lemma_winner_at_end(dot: DotView, b: ButtonsView, s: SoundView, random: u8)
    requires
        dot.wf(),
        dot.is_left() || dot.is_right(),
    ensures
        step(GameView::Playing { dot, cnt: 15 }, b, s, random).game == (GameView::Result {
            winner: if dot.is_left() {
                Players::A
            } else {
                Players::B
            },
            cnt: 0,
        }),
        step(GameView::Playing { dot, cnt: 15 }, b, s, random).sound == play_track_next(
            s,
            peppa_notes(),
        ),
{
}

/// The idle animation goes on while the both-pressed flag is clear, and
/// gives way to the countdown from 3 on the first tick that sees it set.
/// The countdown's last tick starts a game with a new dot, cleared buttons
/// and the start beep.
pub proof fn lemma_phase_entries(g: GameView, b: ButtonsView, s: SoundView, random: u8)
    requires
        g.wf(),
    ensures
        g is IdleAnimation && !b.both ==> step(g, b, s, random).game is IdleAnimation,
        g is IdleAnimation && b.both ==> step(g, b, s, random).game == (
        GameView::ReadyAnimation { count_down: 3, cnt: 0 }),
        g == (GameView::ReadyAnimation { count_down: 1, cnt: 255 }) ==> {
            &&& step(g, b, s, random).game == (GameView::Playing {
                dot: start_dot(random),
                cnt: -1,
            })
            &&& step(g, b, s, random).buttons == cleared()
            &&& step(g, b, s, random).sound == play_track_next(s, di_hi_notes())
            &&& step(g, b, s, random).audio == play_track_cmds(s, di_hi_notes())
        },
{
}

/// The phase that follows `g` when it ends: idle animation and result lead
/// to the countdown, the countdown to a game, a game to its result.
pub open spec fn successor_phase(g: GameView, next: GameView) -> bool {
    match g {
        GameView::IdleAnimation { .. } => next is ReadyAnimation,
        GameView::ReadyAnimation { .. } => next is Playing,
        GameView::Playing { .. } => next is Result,
        GameView::Result { .. } => next is ReadyAnimation,
    }
}

/// No phase is ever skipped: a tick keeps the phase or moves to its
/// successor, and keeps the counters in range.
pub proof fn lemma_phase_order(g: GameView, b: ButtonsView, s: SoundView, random: u8)
    requires
        g.wf(),
    ensures
        step(g, b, s, random).game.wf(),
        successor_phase(g, step(g, b, s, random).game) || (match g {
            GameView::IdleAnimation { .. } => step(g, b, s, random).game is IdleAnimation,
            GameView::ReadyAnimation { .. } => step(g, b, s, random).game is ReadyAnimation,
            GameView::Playing { .. } => step(g, b, s, random).game is Playing,
            GameView::Result { .. } => step(g, b, s, random).game is Result,
        }),
{
}

/// Starts `notes` on `sound`, adding the commands this takes to `audio`.
pub fn play(sound: &mut Sound, notes: Vec<Note>, audio: &mut Vec<AudioCmd>)
    ensures
        final(sound)@ == play_track_next(old(sound)@, notes@),
        final(audio)@ == old(audio)@ + play_track_cmds(old(sound)@, notes@),
{
    let mut cmds = sound.play_track(notes);
    audio.append(&mut cmds);
}

impl Game {
    /// The game as the device starts it.
    pub fn new() -> (r: Self)
        ensures
            r@ == initial(),
            r@.wf(),
    {
        Game::IdleAnimation { cnt: INIT_CN, dot: DotState::new() }
    }

    /// Whether the counters are within their cycles and the countdown digit
    /// between 1 and 3, which `poll` needs.
    pub fn is_valid(&self) -> (r: bool)
        ensures
            r == self@.wf(),
    {
        match self {
            Game::IdleAnimation { cnt, .. } => -1 <= *cnt && *cnt <= 15,
            Game::ReadyAnimation { count_down, .. } => 1 <= *count_down && *count_down <= 3,
            Game::Playing { cnt, .. } => -1 <= *cnt && *cnt <= 15,
            Game::Result { .. } => true,
        }
    }

    /// One tick. Returns the matrix changes and the speaker commands the tick
    /// produced, in order; `random` is a fresh random byte, used when a game
    /// starts.
    pub fn poll(&mut self, buttons: &mut ButtonState, sound: &mut Sound, random: u8) -> (r: (
        Vec<DisplayOp>,
        Vec<AudioCmd>,
    ))
        requires
            old(self)@.wf(),
        ensures
            final(self)@ == step(old(self)@, old(buttons)@, old(sound)@, random).game,
            final(self)@.wf(),
            final(buttons)@ == step(old(self)@, old(buttons)@, old(sound)@, random).buttons,
            final(sound)@ == step(old(self)@, old(buttons)@, old(sound)@, random).sound,
            r.0@ == step(old(self)@, old(buttons)@, old(sound)@, random).display,
            r.1@ == step(old(self)@, old(buttons)@, old(sound)@, random).audio,
    {
        let mut ops: Vec<DisplayOp> = Vec::new();
        let mut audio: Vec<AudioCmd> = Vec::new();
        match self {
            Game::IdleAnimation { cnt, dot } => {
                if idle_animation(cnt, dot, buttons, &mut ops) {
                    *self = Self::ready_animation();
                }
            },
            Game::ReadyAnimation { cnt, count_down } => {
                if ready_animation(cnt, count_down, &mut ops, sound, &mut audio) {
                    *self = Self::playing(random, buttons, sound, &mut audio);
                }
            },
            Game::Playing { dot, cnt } => {
                if let Some(winner) = game(cnt, dot, buttons, &mut ops) {
                    *self = Self::result(winner, sound, &mut audio);
                }
            },
            Game::Result { cnt, winner } => {
                if result_animation(cnt, *winner, buttons, &mut ops) {
                    *self = Self::ready_animation();
                }
            },
        }
        (ops, audio)
    }

    fn ready_animation() -> (r: Self)
        ensures
            r@ == ready_entry(),
    {
        Game::ReadyAnimation { cnt: 0, count_down: COUNTDOWN }
    }

    /// Starts a game: clears the buttons, points the new dot by `random`, and
    /// plays the start beep.
    fn playing(random: u8, buttons: &mut ButtonState, sound: &mut Sound, audio: &mut Vec<
        AudioCmd,
    >) -> (r: Self)
        ensures
            r@ == (GameView::Playing { dot: start_dot(random), cnt: INIT_CNT as int }),
            final(buttons)@ == cleared(),
            final(sound)@ == play_track_next(old(sound)@, di_hi_notes()),
            final(audio)@ == old(audio)@ + play_track_cmds(old(sound)@, di_hi_notes()),
    {
        let mut dot = DotState::new();
        buttons.reset();
        if random <= 127 {
            dot.toggle_clockwise();
        }
        play(sound, di_hi(), audio);
        Game::Playing { dot, cnt: INIT_CNT }
    }

    /// Ends a game won by `winner` and plays the victory tune.
    fn result(winner: Players, sound: &mut Sound, audio: &mut Vec<AudioCmd>) -> (r: Self)
        ensures
            r@ == (GameView::Result { winner, cnt: 0 }),
            final(sound)@ == play_track_next(old(sound)@, peppa_notes()),
            final(audio)@ == old(audio)@ + play_track_cmds(old(sound)@, peppa_notes()),
    {
        play(sound, peppa(), audio);
        Game::Result { cnt: 0, winner }
    }
}

} // verus!
