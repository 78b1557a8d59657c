//! Interaction logic of a parameter slider widget: its display styles, and the
//! state machine that turns pointer, keyboard and text-entry events into
//! parameter gestures.

pub mod interaction;
pub mod laws;
pub mod style;
