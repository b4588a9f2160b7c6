//! Coordination core of a small desktop utility that rewrites an encrypted
//! PDF without its permission restrictions.
//!
//! The library holds everything the application decides: the naming rule for
//! the output file, the application state, and the controller state machine
//! that turns user events and job outcomes into state changes, display
//! instructions and job dispatches. The surrounding binary only performs the
//! I/O these decisions call for: the file picker, the worker thread, and the
//! PDF rewrite itself.

pub mod controller;
pub mod naming;
pub mod state;
