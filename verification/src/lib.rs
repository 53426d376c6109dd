//! A best-effort startup hint that asks the operating system to prefer the
//! high-performance graphics adapter for the current process.
//!
//! The library holds every decision of the hint and performs none of its
//! foreign work. A host program asks the state machine in [`hint`] what to
//! do next, does it, and reports what came back; the machine answers with
//! the next state and, where something went wrong, the advisory diagnostic
//! to print. No outcome of the hint is an error of the program: the startup
//! sequence in [`startup`] launches the application whatever happened.

pub mod preference;
pub mod capability;
pub mod diagnostic;
pub mod hint;
pub mod startup;
pub mod simulation;
