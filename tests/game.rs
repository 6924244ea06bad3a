use tug_of_war::buttons::{Button, ButtonState};
use tug_of_war::display::DisplayOp;
use tug_of_war::game::s2_game::Players;
use tug_of_war::game::Game;
use tug_of_war::sound::{AudioCmd, Sound, Wave};
use tug_of_war::spiral::DotState;

fn dot_at(index: i8, clockwise: bool) -> DotState {
    let mut d = DotState::new();
    if index < 24 {
        d.toggle_clockwise();
    }
    while d.pos() != index {
        d.next();
    }
    if d.is_clockwise() != clockwise {
        d.toggle_clockwise();
    }
    d
}

#[test]
fn game_phase_scenario() {
    let mut g = Game::new();
    let mut b = ButtonState::new();
    let mut s = Sound::init();
    let (ops, audio) = g.poll(&mut b, &mut s, 0);
    assert_eq!(ops, vec![DisplayOp::ShowPx(0, 2)]);
    assert!(audio.is_empty());
    for _ in 0..15 {
        g.poll(&mut b, &mut s, 0);
    }
    assert!(matches!(g, Game::IdleAnimation { .. }));
    b.on_edge(Button::A, false);
    b.on_edge(Button::B, true);
    let (ops, _) = g.poll(&mut b, &mut s, 0);
    assert!(matches!(g, Game::ReadyAnimation { count_down: 3, cnt: 0 }));
    assert_eq!(ops[ops.len() - 1], DisplayOp::HidePx(2, 2));
    let mut last_audio = vec![];
    for i in 0..768 {
        assert!(matches!(g, Game::ReadyAnimation { .. }), "tick {}", i);
        let (_, audio) = g.poll(&mut b, &mut s, 200);
        if i % 256 == 0 {
            assert_eq!(audio[audio.len() - 1], AudioCmd::Load { wave: Wave::C1, loops: 262 });
        }
        last_audio = audio;
    }
    match &g {
        Game::Playing { dot, cnt } => {
            assert_eq!(*cnt, -1);
            assert_eq!(dot.pos(), 24);
            assert!(dot.is_clockwise());
        },
        _ => panic!("expected a game in progress"),
    }
    assert_eq!(last_audio, vec![AudioCmd::Stop, AudioCmd::Load { wave: Wave::C2, loops: 833 }]);
    assert!(!b.both_pressed());
    assert_eq!(b.last_edge(), Button::A);
}

#[test]
fn low_random_byte_turns_new_dot() {
    let mut g = Game::ReadyAnimation { count_down: 1, cnt: 255 };
    let mut b = ButtonState::new();
    let mut s = Sound::init();
    let (ops, audio) = g.poll(&mut b, &mut s, 127);
    assert_eq!(ops, vec![
        DisplayOp::HideCol(3),
        DisplayOp::ShowCol(4, 0b00000),
        DisplayOp::HideCol(4),
    ]);
    assert_eq!(audio, vec![AudioCmd::Connect, AudioCmd::Load { wave: Wave::C2, loops: 833 }]);
    match &g {
        Game::Playing { dot, .. } => assert!(!dot.is_clockwise()),
        _ => panic!("expected a game in progress"),
    }
}

#[test]
fn winner_left_end_is_a() {
    let mut g = Game::Playing { dot: dot_at(0, false), cnt: 15 };
    let mut b = ButtonState::new();
    b.on_edge(Button::B, false);
    let mut s = Sound::init();
    let (ops, audio) = g.poll(&mut b, &mut s, 0);
    assert!(matches!(g, Game::Result { winner: Players::A, cnt: 0 }));
    assert_eq!(ops, vec![DisplayOp::HidePx(2, 2)]);
    assert_eq!(audio, vec![AudioCmd::Connect, AudioCmd::Load { wave: Wave::G1, loops: 390 }]);
}

#[test]
fn winner_right_end_is_b() {
    let mut g = Game::Playing { dot: dot_at(48, true), cnt: 15 };
    let mut b = ButtonState::new();
    let mut s = Sound::init();
    g.poll(&mut b, &mut s, 0);
    assert!(matches!(g, Game::Result { winner: Players::B, cnt: 0 }));
}

#[test]
fn dot_reaching_an_end_wins() {
    let mut g = Game::Playing { dot: dot_at(1, true), cnt: 15 };
    let mut b = ButtonState::new();
    let mut s = Sound::init();
    g.poll(&mut b, &mut s, 0);
    assert!(matches!(g, Game::Result { winner: Players::A, cnt: 0 }));
}

#[test]
fn last_press_steers_toward_presser() {
    let mut g = Game::Playing { dot: DotState::new(), cnt: -1 };
    let mut b = ButtonState::new();
    let mut s = Sound::init();
    b.on_edge(Button::B, false);
    let mut ticks = 0;
    while matches!(g, Game::Playing { .. }) {
        g.poll(&mut b, &mut s, 0);
        ticks += 1;
    }
    assert!(matches!(g, Game::Result { winner: Players::B, .. }));
    assert_eq!(ticks, 1 + 16 * 24);

    let mut g = Game::Playing { dot: DotState::new(), cnt: -1 };
    b.on_edge(Button::A, false);
    while matches!(g, Game::Playing { .. }) {
        g.poll(&mut b, &mut s, 0);
    }
    assert!(matches!(g, Game::Result { winner: Players::A, .. }));
}

#[test]
fn game_tick_blinks_and_moves() {
    let mut g = Game::Playing { dot: DotState::new(), cnt: 5 };
    let mut b = ButtonState::new();
    b.on_edge(Button::B, false);
    let mut s = Sound::init();
    let (ops, _) = g.poll(&mut b, &mut s, 0);
    assert!(ops.is_empty());
    let (ops, _) = g.poll(&mut b, &mut s, 0);
    assert_eq!(ops, vec![DisplayOp::HidePx(0, 2), DisplayOp::ShowPx(2, 2)]);
    let (ops, _) = g.poll(&mut b, &mut s, 0);
    assert_eq!(ops, vec![DisplayOp::HidePx(2, 2), DisplayOp::ShowPx(0, 2)]);
    for _ in 8..15 {
        g.poll(&mut b, &mut s, 0);
    }
    let (ops, _) = g.poll(&mut b, &mut s, 0);
    assert_eq!(ops, vec![DisplayOp::HidePx(2, 2), DisplayOp::ShowPx(0, 3)]);
    match &g {
        Game::Playing { dot, cnt } => {
            assert_eq!(dot.pos(), 25);
            assert_eq!(*cnt, 0);
        },
        _ => panic!("expected a game in progress"),
    }
}

#[test]
fn countdown_draws_digit_columns() {
    let mut g = Game::ReadyAnimation { count_down: 3, cnt: 0 };
    let mut b = ButtonState::new();
    let mut s = Sound::init();
    let (ops, audio) = g.poll(&mut b, &mut s, 0);
    assert_eq!(ops, vec![DisplayOp::HideCol(4), DisplayOp::ShowCol(1, 0b01001)]);
    assert_eq!(audio, vec![AudioCmd::Connect, AudioCmd::Load { wave: Wave::C1, loops: 262 }]);
    let (ops, audio) = g.poll(&mut b, &mut s, 0);
    assert_eq!(ops, vec![DisplayOp::HideCol(1), DisplayOp::ShowCol(2, 0b10001)]);
    assert!(audio.is_empty());
    assert!(matches!(g, Game::ReadyAnimation { count_down: 3, cnt: 2 }));
}

#[test]
fn result_waits_a_second_then_restarts() {
    let mut g = Game::Result { winner: Players::B, cnt: 0 };
    let mut b = ButtonState::new();
    b.on_edge(Button::A, true);
    let mut s = Sound::init();
    let (ops, _) = g.poll(&mut b, &mut s, 0);
    assert_eq!(ops, vec![DisplayOp::HideCol(4), DisplayOp::ShowCol(1, 0b11111)]);
    for _ in 1..254 {
        g.poll(&mut b, &mut s, 0);
    }
    assert!(b.both_pressed());
    g.poll(&mut b, &mut s, 0);
    assert!(!b.both_pressed());
    assert!(matches!(g, Game::Result { cnt: 255, .. }));
    g.poll(&mut b, &mut s, 0);
    assert!(matches!(g, Game::Result { cnt: 256, .. }));
    b.on_edge(Button::B, true);
    let (ops, _) = g.poll(&mut b, &mut s, 0);
    assert_eq!(ops, vec![
        DisplayOp::HideCol(4),
        DisplayOp::ShowCol(1, 0b11111),
        DisplayOp::HideCol(1),
    ]);
    assert!(matches!(g, Game::ReadyAnimation { count_down: 3, cnt: 0 }));
}

#[test]
fn result_blanks_letter_after_half_a_second() {
    let mut g = Game::Result { winner: Players::A, cnt: 128 };
    let mut b = ButtonState::new();
    let mut s = Sound::init();
    let (ops, _) = g.poll(&mut b, &mut s, 0);
    assert_eq!(ops, vec![DisplayOp::HideCol(3)]);
    let (ops, _) = g.poll(&mut b, &mut s, 0);
    assert!(ops.is_empty());
}
