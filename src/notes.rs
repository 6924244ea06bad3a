//! The game's tunes.
use crate::sound::{Note, Wave};
use vstd::prelude::*;

verus! {

/// The note playing `wave` for `t_ms` milliseconds.
pub open spec fn note(wave: Wave, t_ms: u16) -> Note {
    Note { wave, t_ms }
}

/// Low beep of each countdown digit.
pub open spec fn di_lo_notes() -> Seq<Note> {
    seq![note(Wave::C1, 500)]
}

/// High beep at the start of a game.
pub open spec fn di_hi_notes() -> Seq<Note> {
    seq![note(Wave::C2, 800)]
}

/// Victory tune.
pub open spec fn peppa_notes() -> Seq<Note> {
    seq![
        note(Wave::G1, 500), note(Wave::E1, 250), note(Wave::C1, 250), note(Wave::D1, 500),
        note(Wave::G0, 500), note(Wave::Si, 500), note(Wave::G0, 250), note(Wave::B1, 250),
        note(Wave::D1, 250), note(Wave::F1, 250), note(Wave::E1, 500), note(Wave::C1, 500),
    ]
}

/// The countdown beep.
pub fn di_lo() -> (r: Vec<Note>)
    ensures
        r@ == di_lo_notes(),
{
    let r = vec![Note { wave: Wave::C1, t_ms: 500 }];
    r
}

/// The start beep.
pub fn di_hi() -> (r: Vec<Note>)
    ensures
        r@ == di_hi_notes(),
{
    let r = vec![Note { wave: Wave::C2, t_ms: 800 }];
    r
}

/// The victory tune.
pub fn peppa() -> (r: Vec<Note>)
    ensures
        r@ == peppa_notes(),
{
    let r = vec![
        Note { wave: Wave::G1, t_ms: 500 },
        Note { wave: Wave::E1, t_ms: 250 },
        Note { wave: Wave::C1, t_ms: 250 },
        Note { wave: Wave::D1, t_ms: 500 },
        Note { wave: Wave::G0, t_ms: 500 },
        Note { wave: Wave::Si, t_ms: 500 },
        Note { wave: Wave::G0, t_ms: 250 },
        Note { wave: Wave::B1, t_ms: 250 },
        Note { wave: Wave::D1, t_ms: 250 },
        Note { wave: Wave::F1, t_ms: 250 },
        Note { wave: Wave::E1, t_ms: 500 },
        Note { wave: Wave::C1, t_ms: 500 },
    ];
    r
}

} // verus!
