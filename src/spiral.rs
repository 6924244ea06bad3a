//! Position of the game dot on a fixed spiral path of the 5x5 matrix.
use vstd::prelude::*;

verus! {

/// Centre pixel of the matrix.
pub const CENTER: (u8, u8) = (2, 2);

/// Number of positions on the path.
pub const SPIRAL_LEN: usize = 49;

/// Path position of a new dot.
pub const START: i8 = 24;

const COORD_MASK: i8 = 0b0011_1111;

const CLOCKWISE_MASK: i8 = -128;

/// Path position of the left end.
pub const LEFT: i8 = 0;

/// Path position of the right end.
pub const RIGHT: i8 = 48;

/// The path: from the centre outward, then back inward to the centre.
pub open spec fn spiral_table() -> Seq<(u8, u8)> {
    seq![
        (2, 2), (1, 3), (2, 3), (3, 3), (3, 2), (3, 1), (2, 1), (1, 1), (1, 2), (0, 3),
        (0, 4), (1, 4), (2, 4), (3, 4), (4, 4), (4, 3), (4, 2), (4, 1), (4, 0), (3, 0),
        (2, 0), (1, 0), (0, 0), (0, 1), (0, 2), (0, 3), (0, 4), (1, 4), (2, 4), (3, 4),
        (4, 4), (4, 3), (4, 2), (4, 1), (4, 0), (3, 0), (2, 0), (1, 0), (0, 0), (0, 1),
        (1, 2), (1, 3), (2, 3), (3, 3), (3, 2), (3, 1), (2, 1), (1, 1), (2, 2),
    ]
}

/// Coordinate of path position `i`.
fn table_at(i: usize) -> (r: (u8, u8))
    requires
        i < SPIRAL_LEN,
    ensures
        r == spiral_table()[i as int],
{
    let table: [(u8, u8); SPIRAL_LEN] = [
        (2, 2), (1, 3), (2, 3), (3, 3), (3, 2), (3, 1), (2, 1), (1, 1), (1, 2), (0, 3),
        (0, 4), (1, 4), (2, 4), (3, 4), (4, 4), (4, 3), (4, 2), (4, 1), (4, 0), (3, 0),
        (2, 0), (1, 0), (0, 0), (0, 1), (0, 2), (0, 3), (0, 4), (1, 4), (2, 4), (3, 4),
        (4, 4), (4, 3), (4, 2), (4, 1), (4, 0), (3, 0), (2, 0), (1, 0), (0, 0), (0, 1),
        (1, 2), (1, 3), (2, 3), (3, 3), (3, 2), (3, 1), (2, 1), (1, 1), (2, 2),
    ];
    assert(table@ == spiral_table());
    table[i]
}

/// Every position of the path is a pixel of the matrix.
pub proof fn lemma_table_in_matrix()
    ensures
        forall|i: int| 0 <= i < SPIRAL_LEN ==> #[trigger] spiral_table()[i].0 < 5 && spiral_table()[i].1 < 5,
{
    let t = spiral_table();
    assert forall|i: int| 0 <= i < SPIRAL_LEN implies #[trigger] t[i].0 < 5 && t[i].1 < 5 by {}
}

/// A dot as seen by contracts: its path position and its direction.
pub struct DotView {
    pub index: int,
    pub clockwise: bool,
}

impl DotView {
    /// The dot stands on the path.
    pub open spec fn wf(self) -> bool {
        0 <= self.index < SPIRAL_LEN
    }

    /// The pixel under the dot.
    pub open spec fn coord(self) -> (u8, u8) {
        spiral_table()[self.index]
    }

    /// The dot is on the left end, A's end.
    pub open spec fn is_left(self) -> bool {
        self.index == LEFT
    }

    /// The dot is on the right end, B's end.
    pub open spec fn is_right(self) -> bool {
        self.index == RIGHT
    }

    /// The dot with its direction reversed.
    pub open spec fn toggled(self) -> DotView {
        DotView { index: self.index, clockwise: !self.clockwise }
    }

    /// One step along the path in the dot's direction.
    pub open spec fn stepped(self) -> DotView {
        DotView {
            index: if self.clockwise { self.index + 1 } else { self.index - 1 },
            clockwise: self.clockwise,
        }
    }

    /// Whether the dot stands on an end of the path facing off it.
    pub open spec fn facing_out(self) -> bool {
        (self.is_left() && !self.clockwise) || (self.is_right() && self.clockwise)
    }

    /// One step of the idle movement: reverse at an end of the path, then step.
    pub open spec fn spiraled(self) -> DotView {
        if self.facing_out() {
            self.toggled().stepped()
        } else {
            self.stepped()
        }
    }
}

/// Where every dot starts: the middle of the path, heading clockwise.
pub open spec fn start_view() -> DotView {
    DotView { index: START as int, clockwise: true }
}

/// State of the dot: bits 0 to 5 hold the path position, bit 7 is set while
/// the dot runs counter-clockwise.
pub struct DotState(i8);

impl View for DotState {
    type V = DotView;

    closed spec fn view(&self) -> DotView {
        DotView {
            index: if self.0 >= 0 { self.0 as int } else { self.0 + 128 },
            clockwise: self.0 >= 0,
        }
    }
}

impl DotState {
    #[verifier::type_invariant]
    spec fn inv(self) -> bool {
        (0 <= self.0 <= RIGHT) || (-128 <= self.0 <= -128 + RIGHT)
    }

    /// Creates a dot at the starting point.
    pub fn new() -> (r: Self)
        ensures
            r@ == start_view(),
    {
        DotState(START)
    }

    /// The coordinate of the dot.
    pub fn px(&self) -> (r: (u8, u8))
        ensures
            self@.wf(),
            r == self@.coord(),
            r.0 < 5 && r.1 < 5,
    {
        proof {
            use_type_invariant(self);
            lemma_table_in_matrix();
        }
        let p = self.pos();
        table_at(p as usize)
    }

    /// Moves the dot one step; at an end of the path facing off it, the dot
    /// first turns around.
    pub fn spiral(&mut self)
        ensures
            final(self)@ == old(self)@.spiraled(),
            final(self)@.wf(),
    {
        proof {
            use_type_invariant(&*self);
        }
        let pos = self.pos();
        let clockwise = self.is_clockwise();
        if (pos == LEFT && !clockwise) || (pos == RIGHT && clockwise) {
            self.toggle_clockwise();
        }
        self.next();
        proof {
            use_type_invariant(&*self);
        }
    }

    /// Whether the dot is on the left end of the path.
    pub fn is_left(&self) -> (r: bool)
        ensures
            r == self@.is_left(),
    {
        self.pos() == LEFT
    }

    /// Whether the dot is on the right end of the path.
    pub fn is_right(&self) -> (r: bool)
        ensures
            r == self@.is_right(),
    {
        self.pos() == RIGHT
    }

    /// Whether the dot runs clockwise (toward the right end).
    pub fn is_clockwise(&self) -> (r: bool)
        ensures
            r == self@.clockwise,
            self@.wf(),
    {
        proof {
            use_type_invariant(self);
        }
        let v = self.0;
        assert((v & -128i8) == 0 <==> v >= 0) by (bit_vector);
        (self.0 & CLOCKWISE_MASK) == 0
    }

    /// Reverses the direction of the dot.
    pub fn toggle_clockwise(&mut self)
        ensures
            old(self)@.wf(),
            final(self)@ == old(self)@.toggled(),
            final(self)@.wf(),
    {
        proof {
            use_type_invariant(&*self);
        }
        let v = self.0;
        assert(v >= 0 ==> v ^ -128i8 == v - 128) by (bit_vector);
        assert(v < 0 ==> v ^ -128i8 == v + 128) by (bit_vector);
        self.0 = self.0 ^ CLOCKWISE_MASK;
        proof {
            use_type_invariant(&*self);
        }
    }

    /// One step along the path; the dot must not face off an end.
    pub fn next(&mut self)
        requires
            !old(self)@.facing_out(),
        ensures
            final(self)@ == old(self)@.stepped(),
            final(self)@.wf(),
    {
        proof {
            use_type_invariant(&*self);
        }
        if self.is_clockwise() {
            self.0 = self.0 + 1;
        } else {
            self.0 = self.0 - 1;
        }
        proof {
            use_type_invariant(&*self);
        }
    }

    /// Path position of the dot.
    pub fn pos(&self) -> (r: i8)
        ensures
            r == self@.index,
            self@.wf(),
    {
        proof {
            use_type_invariant(self);
        }
        let v = self.0;
        assert(0 <= v <= 48 ==> v & 63i8 == v) by (bit_vector);
        assert(-128 <= v <= -80 ==> v & 63i8 == v + 128) by (bit_vector);
        self.0 & COORD_MASK
    }
}

/// The dot after `n` calls of `spiral` from `d`.
pub open spec fn spiral_n(d: DotView, n: nat) -> DotView
    decreases n,
{
    if n == 0 {
        d
    } else {
        spiral_n(d, (n - 1) as nat).spiraled()
    }
}

proof fn lemma_spiral_n_split(d: DotView, a: nat, b: nat)
    ensures
        spiral_n(d, a + b) == spiral_n(spiral_n(d, a), b),
    decreases b,
{
    if b > 0 {
        lemma_spiral_n_split(d, a, (b - 1) as nat);
        assert(spiral_n(d, a + b) == spiral_n(d, (a + b - 1) as nat).spiraled());
    }
}

/// Away from the ends, `k` calls of `spiral` move the dot `k` positions on.
proof fn lemma_run(d: DotView, k: nat)
    requires
        d.wf(),
        d.clockwise ==> d.index + k <= RIGHT,
        !d.clockwise ==> d.index - k >= LEFT,
    ensures
        spiral_n(d, k) == (DotView {
            index: if d.clockwise { d.index + k } else { d.index - k },
            clockwise: d.clockwise,
        }),
    decreases k,
{
    if k > 0 {
        lemma_run(d, (k - 1) as nat);
    }
}

/// A new dot sits on the path position `START`, at coordinate (0, 2). It
/// runs back and forth over the path, turning at each end: after 48 calls of
/// `spiral` it is back on `START` heading the other way, and after 96 it is
/// back where it started in both position and direction.
pub proof fn lemma_spiral_period()
    ensures
        start_view().wf(),
        start_view().coord() == (0u8, 2u8),
        spiral_n(start_view(), 48) == (DotView { index: START as int, clockwise: false }),
        spiral_n(start_view(), 96) == start_view(),
{
    let s = start_view();
    let right = DotView { index: RIGHT as int, clockwise: true };
    let back = DotView { index: RIGHT - 1, clockwise: false };
    let mid = DotView { index: START as int, clockwise: false };
    let left = DotView { index: LEFT as int, clockwise: false };
    let fwd = DotView { index: LEFT + 1, clockwise: true };
    lemma_run(s, 24);
    assert(spiral_n(right, 0) == right);
    assert(spiral_n(right, 1) == back);
    lemma_spiral_n_split(s, 24, 1);
    lemma_run(back, 23);
    lemma_spiral_n_split(s, 25, 23);
    lemma_run(mid, 24);
    lemma_spiral_n_split(s, 48, 24);
    assert(spiral_n(left, 0) == left);
    assert(spiral_n(left, 1) == fwd);
    lemma_spiral_n_split(s, 72, 1);
    lemma_run(fwd, 23);
    lemma_spiral_n_split(s, 73, 23);
}

} // verus!
