//! Decision logic of an abort guard: a sentinel around a unit of work that ends
//! the process when the guarded region is left, unless the work itself already
//! ended the process.

pub mod guard;

pub use guard::{
    run_guarded, step, teardown, GuardAction, GuardEvent, GuardPhase, GuardStack, Termination,
    WorkExit,
};
