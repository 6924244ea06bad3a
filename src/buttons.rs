//! Edge tracking for the two buttons: the button whose edge came last, and a
//! flag that stays set once both were down together.
use vstd::prelude::*;

verus! {

const LAST_BUTTON_MASK: u8 = 0b0000_0001;

const BOTH_AB_MASK: u8 = 0b0000_0010;

/// One of the two buttons.
#[derive(PartialEq, Eq, Structural, Clone, Copy, Debug)]
pub enum Button {
    A,
    B,
}

/// The tracker as seen by contracts.
pub struct ButtonsView {
    pub last: Button,
    pub both: bool,
}

/// The tracker after a reset: last edge A, flag clear.
pub open spec fn cleared() -> ButtonsView {
    ButtonsView { last: Button::A, both: false }
}

impl ButtonsView {
    /// The tracker after an edge of `button` while the other button reads
    /// `other_low` (pressed).
    pub open spec fn edge(self, button: Button, other_low: bool) -> ButtonsView {
        ButtonsView { last: button, both: self.both || other_low }
    }

    /// The tracker after one edge interrupt, which reports an edge of A, of B,
    /// or of both, and the level of each line.
    pub open spec fn interrupt(
        self,
        edge_a: bool,
        edge_b: bool,
        a_low: bool,
        b_low: bool,
    ) -> ButtonsView {
        let s = if edge_a {
            self.edge(Button::A, b_low)
        } else {
            self
        };
        if edge_b {
            s.edge(Button::B, a_low)
        } else {
            s
        }
    }
}

/// Button tracker: bit 0 is set when B gave the last edge, bit 1 once both
/// buttons were seen down together.
pub struct ButtonState {
    state: u8,
}

impl View for ButtonState {
    type V = ButtonsView;

    closed spec fn view(&self) -> ButtonsView {
        ButtonsView {
            last: if self.state & LAST_BUTTON_MASK == 0 {
                Button::A
            } else {
                Button::B
            },
            both: self.state & BOTH_AB_MASK != 0,
        }
    }
}

impl ButtonState {
    #[verifier::type_invariant]
    spec fn inv(self) -> bool {
        self.state < 4
    }

    /// A tracker that has seen no edge.
    pub fn new() -> (r: Self)
        ensures
            r@ == cleared(),
    {
        assert(0u8 & 1u8 == 0 && 0u8 & 2u8 == 0) by (bit_vector);
        Self { state: 0 }
    }

    /// Whether both buttons were seen down together since the last reset.
    pub fn both_pressed(&self) -> (r: bool)
        ensures
            r == self@.both,
    {
        self.state & BOTH_AB_MASK != 0
    }

    /// Whether A gave the last edge (also true when no edge came since the
    /// last reset).
    pub fn last_a(&self) -> (r: bool)
        ensures
            r == (self@.last == Button::A),
    {
        self.state & LAST_BUTTON_MASK == 0
    }

    /// The button that gave the last edge; A when none came since the last
    /// reset.
    pub fn last_edge(&self) -> (r: Button)
        ensures
            r == self@.last,
    {
        if self.last_a() {
            Button::A
        } else {
            Button::B
        }
    }

    /// Clears both the last edge and the flag.
    pub fn reset(&mut self)
        ensures
            final(self)@ == cleared(),
    {
        assert(0u8 & 1u8 == 0 && 0u8 & 2u8 == 0) by (bit_vector);
        self.state = 0;
    }

    fn set_last_a(&mut self)
        ensures
            final(self)@ == (ButtonsView { last: Button::A, both: old(self)@.both }),
    {
        proof {
            use_type_invariant(&*self);
        }
        let s = self.state;
        assert((s & !1u8) & 1u8 == 0 && ((s & !1u8) & 2u8 == s & 2u8) && s & !1u8 < 4)
            by (bit_vector)
            requires
                s < 4,
        ;
        self.state = self.state & !LAST_BUTTON_MASK;
    }

    fn set_last_b(&mut self)
        ensures
            final(self)@ == (ButtonsView { last: Button::B, both: old(self)@.both }),
    {
        proof {
            use_type_invariant(&*self);
        }
        let s = self.state;
        assert((s | 1u8) & 1u8 != 0 && ((s | 1u8) & 2u8 == s & 2u8) && s | 1u8 < 4)
            by (bit_vector)
            requires
                s < 4,
        ;
        self.state = self.state | LAST_BUTTON_MASK;
    }

    fn set_both_pressed(&mut self)
        ensures
            final(self)@ == (ButtonsView { last: old(self)@.last, both: true }),
    {
        proof {
            use_type_invariant(&*self);
        }
        let s = self.state;
        assert((s | 2u8) & 2u8 != 0 && ((s | 2u8) & 1u8 == s & 1u8) && s | 2u8 < 4)
            by (bit_vector)
            requires
                s < 4,
        ;
        self.state = self.state | BOTH_AB_MASK;
    }

    /// Records an edge of `button`; `other_low` tells whether the other
    /// button is held down at that moment.
    pub fn on_edge(&mut self, button: Button, other_low: bool)
        ensures
            final(self)@ == old(self)@.edge(button, other_low),
    {
        match button {
            Button::A => self.set_last_a(),
            Button::B => self.set_last_b(),
        }
        if other_low {
            self.set_both_pressed();
        }
    }

    /// Handles one edge interrupt: `edge_a` and `edge_b` tell which lines
    /// reported an edge, `a_low` and `b_low` whether each button is held down.
    pub fn handle_interrupt(&mut self, edge_a: bool, edge_b: bool, a_low: bool, b_low: bool)
        ensures
            final(self)@ == old(self)@.interrupt(edge_a, edge_b, a_low, b_low),
    {
        if edge_a {
            self.on_edge(Button::A, b_low);
        }
        if edge_b {
            self.on_edge(Button::B, a_low);
        }
    }
}

} // verus!
