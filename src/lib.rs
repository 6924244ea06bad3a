//! Interrupt-driven two-player reaction game: an exclusive-access cell for
//! state shared between interrupt handlers, and the state machines it guards.
pub mod buttons;
pub mod dispatch;
pub mod display;
pub mod game;
pub mod mutex;
pub mod notes;
pub mod sound;
pub mod spiral;
