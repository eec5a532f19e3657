//! A terminal-emulation core: a state machine that turns tokenized terminal
//! control sequences (printable characters, control characters, CSI, ESC and
//! OSC sequences) into abstract screen-mutation events.
//!
//! Every handler takes the interpreter [`State`] and a log of [`Event`]s, to
//! which it appends what it emits, in order. Each handler's contract states
//! the next state and the events exactly, as spec functions of the state
//! before and of the sequence handled.
pub mod block;
pub mod color;
pub mod csi;
pub mod esc;
pub mod event;
pub mod laws;
pub mod osc;
pub mod report;
pub mod sgr;
pub mod state;

pub use block::Block;
pub use color::Color;
pub use event::Event;
pub use state::State;
