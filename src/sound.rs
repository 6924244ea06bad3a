//! Sequencer for the speaker: walks a track of notes, one note per
//! loop-done event of the waveform generator, and releases the speaker line
//! when the track is over.
use vstd::prelude::*;

verus! {

/// Sample rate of the waveform generator, in samples per second.
pub const SAMPLE_FREQ: u64 = 62500;

/// The waveform tables a note can play; `Si` is silence.
#[derive(PartialEq, Eq, Structural, Clone, Copy, Debug)]
pub enum Wave {
    B1,
    C1,
    C2,
    D1,
    E1,
    F1,
    G0,
    G1,
    Si,
}

impl Wave {
    /// Number of samples in one period of the waveform's table.
    pub open spec fn sample_len(self) -> nat {
        match self {
            Wave::B1 => 127,
            Wave::C1 => 119,
            Wave::C2 => 60,
            Wave::D1 => 106,
            Wave::E1 => 95,
            Wave::F1 => 89,
            Wave::G0 => 159,
            Wave::G1 => 80,
            Wave::Si => 2,
        }
    }

    /// Number of samples in one period of the waveform's table.
    pub fn len(&self) -> (r: usize)
        ensures
            r == self.sample_len(),
    {
        match self {
            Wave::B1 => 127,
            Wave::C1 => 119,
            Wave::C2 => 60,
            Wave::D1 => 106,
            Wave::E1 => 95,
            Wave::F1 => 89,
            Wave::G0 => 159,
            Wave::G1 => 80,
            Wave::Si => 2,
        }
    }
}

/// A waveform played for `t_ms` milliseconds.
#[derive(PartialEq, Eq, Structural, Clone, Copy, Debug)]
pub struct Note {
    pub wave: Wave,
    pub t_ms: u16,
}

/// What the sequencer asks of the waveform generator and the speaker line.
#[derive(PartialEq, Eq, Structural, Clone, Copy, Debug)]
pub enum AudioCmd {
    /// Hand the speaker line to the generator and enable it.
    Connect,
    /// Halt the generator at once (stop, disable, enable), dropping what it
    /// was playing.
    Stop,
    /// Play `wave` repeated `loops` times, then raise a loop-done event.
    Load { wave: Wave, loops: u16 },
    /// Disable the generator and take the speaker line back from it.
    Disconnect,
}

/// Repetitions of a table of `sample_len` samples that last `t_ms`
/// milliseconds at the generator's rate: at least one, so that a loop-done
/// event always follows, and at most what the generator's counter holds.
pub open spec fn loops_of(t_ms: u16, sample_len: nat) -> u16 {
    let n = t_ms * SAMPLE_FREQ / 1000 / sample_len as int;
    if n < 1 {
        1
    } else if n > u16::MAX {
        u16::MAX
    } else {
        n as u16
    }
}

/// The command that starts note `n`.
pub open spec fn load_cmd(n: Note) -> AudioCmd {
    AudioCmd::Load { wave: n.wave, loops: loops_of(n.t_ms, n.wave.sample_len()) }
}

/// The sequencer as seen by contracts. While playing, `position` notes of
/// `notes` have been started.
pub enum SoundView {
    Disconnected,
    Playing { notes: Seq<Note>, position: int },
}

/// State after `play_track(notes)` from `s`.
pub open spec fn play_track_next(s: SoundView, notes: Seq<Note>) -> SoundView {
    SoundView::Playing { notes, position: if notes.len() > 0 { 1 } else { 0 } }
}

/// Commands issued by `play_track(notes)` from `s`: halt a track that is
/// playing or connect the speaker, then start the first note.
pub open spec fn play_track_cmds(s: SoundView, notes: Seq<Note>) -> Seq<AudioCmd> {
    let first = if s is Playing {
        seq![AudioCmd::Stop]
    } else {
        seq![AudioCmd::Connect]
    };
    if notes.len() > 0 {
        first.push(load_cmd(notes[0]))
    } else {
        first
    }
}

/// State after a loop-done event in `s`.
pub open spec fn loop_done_next(s: SoundView) -> SoundView {
    match s {
        SoundView::Playing { notes, position } => if position < notes.len() {
            SoundView::Playing { notes, position: position + 1 }
        } else {
            SoundView::Disconnected
        },
        SoundView::Disconnected => SoundView::Disconnected,
    }
}

/// Commands issued on a loop-done event in `s`: start the next note, or halt
/// and release the speaker when the track is over.
pub open spec fn loop_done_cmds(s: SoundView) -> Seq<AudioCmd> {
    match s {
        SoundView::Playing { notes, position } => if position < notes.len() {
            seq![load_cmd(notes[position])]
        } else {
            seq![AudioCmd::Stop, AudioCmd::Disconnect]
        },
        SoundView::Disconnected => seq![],
    }
}

/// State after `k` loop-done events from `s`.
pub open spec fn loop_done_n(s: SoundView, k: nat) -> SoundView
    decreases k,
{
    if k == 0 {
        s
    } else {
        loop_done_next(loop_done_n(s, (k - 1) as nat))
    }
}

proof fn lemma_runs_out(notes: Seq<Note>, p: int)
    requires
        0 <= p <= notes.len(),
    ensures
        loop_done_n(SoundView::Playing { notes, position: p }, (notes.len() - p + 1) as nat)
            == SoundView::Disconnected,
    decreases notes.len() - p,
{
    let s = SoundView::Playing { notes, position: p };
    if p == notes.len() {
        assert(loop_done_n(s, 0) == s);
    } else {
        lemma_runs_out(notes, p + 1);
        lemma_loop_done_n_first(s, (notes.len() - p) as nat);
    }
}

proof fn lemma_loop_done_n_first(s: SoundView, k: nat)
    ensures
        loop_done_n(s, k + 1) == loop_done_n(loop_done_next(s), k),
    decreases k,
{
    if k > 0 {
        lemma_loop_done_n_first(s, (k - 1) as nat);
    } else {
        assert(loop_done_n(s, 0) == s);
    }
}

/// A track of `n` notes, started from any state, ends in Disconnected after
/// `n` loop-done events (one for an empty track), and a loop-done event while
/// disconnected changes nothing and issues no command.
pub proof fn lemma_track_runs_out(s: SoundView, notes: Seq<Note>)
    ensures
        loop_done_n(
            play_track_next(s, notes),
            if notes.len() > 0 { notes.len() } else { 1 },
        ) == SoundView::Disconnected,
        loop_done_next(SoundView::Disconnected) == SoundView::Disconnected,
        loop_done_cmds(SoundView::Disconnected) == Seq::<AudioCmd>::empty(),
{
    if notes.len() > 0 {
        lemma_runs_out(notes, 1);
    } else {
        lemma_runs_out(notes, 0);
    }
}

/// A track and how many of its notes have been started.
pub struct Track {
    notes: Vec<Note>,
    position: usize,
}

impl Track {
    #[verifier::type_invariant]
    spec fn inv(self) -> bool {
        self.position <= self.notes.len()
    }

    /// The notes of the track.
    pub closed spec fn notes(&self) -> Seq<Note> {
        self.notes@
    }

    /// How many notes have been started.
    pub closed spec fn position(&self) -> int {
        self.position as int
    }

    /// A track of `notes` with none started.
    pub fn new(notes: Vec<Note>) -> (r: Self)
        ensures
            r.notes() == notes@,
            r.position() == 0,
    {
        Self { notes, position: 0 }
    }

    /// The next note not yet started, which counts as started from now on.
    pub fn next_note(&mut self) -> (r: Option<Note>)
        ensures
            old(self).position() <= old(self).notes().len(),
            final(self).notes() == old(self).notes(),
            old(self).position() < old(self).notes().len() ==> r == Some(
                old(self).notes()[old(self).position()],
            ) && final(self).position() == old(self).position() + 1,
            old(self).position() >= old(self).notes().len() ==> r is None && final(self).position()
                == old(self).position(),
    {
        proof {
            use_type_invariant(&*self);
        }
        if self.position < self.notes.len() {
            let note = self.notes[self.position];
            self.position = self.position + 1;
            Some(note)
        } else {
            None
        }
    }
}

enum AudioState {
    Disconnected,
    Playing { track: Track },
}

/// The speaker sequencer.
pub struct Sound {
    state: AudioState,
}

impl View for Sound {
    type V = SoundView;

    closed spec fn view(&self) -> SoundView {
        match self.state {
            AudioState::Disconnected => SoundView::Disconnected,
            AudioState::Playing { track } => SoundView::Playing {
                notes: track.notes(),
                position: track.position(),
            },
        }
    }
}

impl Sound {
    /// A silent sequencer that holds the speaker line.
    pub fn init() -> (r: Self)
        ensures
            r@ == SoundView::Disconnected,
    {
        Sound { state: AudioState::Disconnected }
    }

    /// Plays `notes` from the start, cutting off whatever was playing.
    pub fn play_track(&mut self, notes: Vec<Note>) -> (cmds: Vec<AudioCmd>)
        ensures
            final(self)@ == play_track_next(old(self)@, notes@),
            cmds@ == play_track_cmds(old(self)@, notes@),
    {
        let mut cmds: Vec<AudioCmd> = Vec::new();
        match self.state {
            AudioState::Playing { .. } => cmds.push(AudioCmd::Stop),
            AudioState::Disconnected => cmds.push(AudioCmd::Connect),
        }
        let mut track = Track::new(notes);
        let first = track.next_note();
        if let Some(note) = first {
            cmds.push(Self::play_note(note));
        }
        self.state = AudioState::Playing { track };
        cmds
    }

    /// Handles one loop-done event: starts the next note, or, when the track
    /// is over, halts the generator and releases the speaker line. Does
    /// nothing while disconnected.
    pub fn handle_interrupt(&mut self) -> (cmds: Vec<AudioCmd>)
        ensures
            final(self)@ == loop_done_next(old(self)@),
            cmds@ == loop_done_cmds(old(self)@),
    {
        let mut cmds: Vec<AudioCmd> = Vec::new();
        let done = match &mut self.state {
            AudioState::Playing { track } => match track.next_note() {
                Some(note) => {
                    cmds.push(Self::play_note(note));
                    false
                },
                None => true,
            },
            AudioState::Disconnected => false,
        };
        if done {
            cmds.push(AudioCmd::Stop);
            cmds.push(AudioCmd::Disconnect);
            self.state = AudioState::Disconnected;
        }
        cmds
    }

    /// The command that starts `note`.
    fn play_note(note: Note) -> (r: AudioCmd)
        ensures
            r == load_cmd(note),
    {
        AudioCmd::Load { wave: note.wave, loops: Self::loops(note.t_ms, note.wave.len()) }
    }

    /// Repetitions of a table of `sample_len` samples lasting `t_ms`
    /// milliseconds.
    pub fn loops(t_ms: u16, sample_len: usize) -> (r: u16)
        requires
            sample_len > 0,
        ensures
            r == loops_of(t_ms, sample_len as nat),
    {
        let n: u64 = t_ms as u64 * SAMPLE_FREQ / 1000 / sample_len as u64;
        if n < 1 {
            1
        } else if n > u16::MAX as u64 {
            u16::MAX
        } else {
            n as u16
        }
    }
}

} // verus!
