//! A process-lifecycle supervisor for named tunnels.
//!
//! Each tunnel is an external program that is started to establish a
//! connection and a second program that is run to tear it down. The
//! supervisor keeps the set of tunnels that are wanted active, decides what a
//! background worker does next under a bounded retry budget, and says which
//! stop commands have to run when a tunnel is switched off or the whole
//! application shuts down.
//!
//! The library never spawns a process itself. Every operation is a step from
//! a state and an event to the next state and an action; the caller performs
//! the action and reports what happened. A caller that shares a supervisor
//! between threads keeps it behind a single lock, so that each step is atomic.

pub mod command;
pub mod desired;
pub mod error;
pub mod registry;
pub mod runner;
pub mod supervisor;
pub mod worker;
