//! A single-workload reconciliation controller.
//!
//! The crate supervises one managed container instance: it compares the
//! observed lifecycle state against an operator-declared target state and
//! computes the minimal sequence of runtime operations that converges the
//! two.  The decision logic is verified; the asynchronous runtime client
//! that carries the operations out lives outside this library.

pub mod config;
pub mod ctl;
pub mod errors;
pub mod observe;
pub mod runner;
pub mod state;
pub mod text;
pub mod transition;
