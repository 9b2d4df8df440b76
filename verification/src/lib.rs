//! Verified core of a terminal mouse-event inspector: the bounded histories
//! and event log that the inspector keeps, the rules by which mouse events
//! and key presses change that state, and the figures the screen shows.

mod clock;
pub mod display;
pub mod effects;
pub mod laws;
pub mod state;
pub mod text;
pub mod window;
