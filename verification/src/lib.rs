//! Lifecycle core of the crunch process: which operating mode a run takes,
//! and how a supervised run is cancelled and shut down in an orderly way.
//!
//! Everything here is synchronous and free of I/O. The async driver feeds the
//! state machines with the events it observes and carries out the actions
//! they answer with.

pub mod config;
pub mod mode;
pub mod race;
pub mod signal;
pub mod supervisor;
