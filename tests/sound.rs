use tug_of_war::notes::{di_hi, di_lo, peppa};
use tug_of_war::sound::{AudioCmd, Note, Sound, Wave};

fn two_notes() -> Vec<Note> {
    vec![Note { wave: Wave::C1, t_ms: 500 }, Note { wave: Wave::C2, t_ms: 800 }]
}

#[test]
fn track_round_trip() {
    let mut s = Sound::init();
    let cmds = s.play_track(two_notes());
    assert_eq!(cmds, vec![AudioCmd::Connect, AudioCmd::Load { wave: Wave::C1, loops: 262 }]);
    assert_eq!(s.handle_interrupt(), vec![AudioCmd::Load { wave: Wave::C2, loops: 833 }]);
    assert_eq!(s.handle_interrupt(), vec![AudioCmd::Stop, AudioCmd::Disconnect]);
    assert_eq!(s.handle_interrupt(), vec![]);
    assert_eq!(s.handle_interrupt(), vec![]);
}

#[test]
fn new_track_cuts_off_the_playing_one() {
    let mut s = Sound::init();
    s.play_track(two_notes());
    let cmds = s.play_track(di_hi());
    assert_eq!(cmds, vec![AudioCmd::Stop, AudioCmd::Load { wave: Wave::C2, loops: 833 }]);
    assert_eq!(s.handle_interrupt(), vec![AudioCmd::Stop, AudioCmd::Disconnect]);
    let cmds = s.play_track(di_lo());
    assert_eq!(cmds, vec![AudioCmd::Connect, AudioCmd::Load { wave: Wave::C1, loops: 262 }]);
}

#[test]
fn empty_track_ends_on_first_event() {
    let mut s = Sound::init();
    assert_eq!(s.play_track(vec![]), vec![AudioCmd::Connect]);
    assert_eq!(s.handle_interrupt(), vec![AudioCmd::Stop, AudioCmd::Disconnect]);
    assert_eq!(s.handle_interrupt(), vec![]);
}

#[test]
fn loops_formula() {
    assert_eq!(Sound::loops(500, 119), 262);
    assert_eq!(Sound::loops(800, 60), 833);
    assert_eq!(Sound::loops(500, 2), 15625);
    assert_eq!(Sound::loops(250, 127), 123);
    assert_eq!(Sound::loops(0, 2), 1);
    assert_eq!(Sound::loops(1, 159), 1);
    assert_eq!(Sound::loops(65535, 2), u16::MAX);
}

#[test]
fn victory_tune_plays_twelve_notes() {
    let mut s = Sound::init();
    let tune = peppa();
    assert_eq!(tune.len(), 12);
    let first = s.play_track(tune);
    assert_eq!(first, vec![AudioCmd::Connect, AudioCmd::Load { wave: Wave::G1, loops: 390 }]);
    let mut events = 1;
    loop {
        let cmds = s.handle_interrupt();
        if cmds == vec![AudioCmd::Stop, AudioCmd::Disconnect] {
            break;
        }
        assert_eq!(cmds.len(), 1);
        events += 1;
    }
    assert_eq!(events, 12);
    assert_eq!(s.handle_interrupt(), vec![]);
}

#[test]
fn wave_lengths() {
    assert_eq!(Wave::B1.len(), 127);
    assert_eq!(Wave::C2.len(), 60);
    assert_eq!(Wave::G0.len(), 159);
    assert_eq!(Wave::Si.len(), 2);
}
