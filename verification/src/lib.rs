//! An interactive terminal stopwatch's core: a session timer that survives
//! pause/resume cycles, a bounded, append-only tree of named, timed
//! subgoals ("splits"), a keyboard dispatch table, a drawable snapshot of
//! the screen, and an exporter to an append-only outline log. Everything
//! here is a pure state machine over plain millisecond readings; the
//! surrounding program does the painting, prompting and file appending.

pub mod dispatch;
pub mod dur;
pub mod export;
pub mod render;
pub mod session;
pub mod splits;
pub mod timefmt;
pub mod wall;

pub use timefmt::format_time;
