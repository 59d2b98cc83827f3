//! The execution dispatcher of a chain.
//!
//! A chain carries a fixed system application and any number of pluggable
//! user applications. This crate decides how an operation, an effect or a
//! query is routed, in which order the collaborators of the dispatcher are
//! called, what the applications may ask of the runtime while they run, and
//! what the call finally yields.
//!
//! The dispatcher performs no I/O. It is a state machine: it hands its driver
//! a request for each outside call (the system application, the registry, the
//! loader, the code of a user application) and is resumed with the outcome.
//!
//! * [`base`] and [`data`] hold the values that pass through the dispatcher.
//! * [`session`], [`users`] and [`runtime`] hold what a call tree shares.
//! * [`protocol`] holds what the dispatcher and its driver say to each other.
//! * [`model`] is the dispatcher as a mathematical state machine, and
//!   [`laws`] is what is proved of every run of it.
//! * [`execution`] is the executable dispatcher, proved to follow the model.
//! * [`system`] holds the state of the system application.

pub mod assoc;
pub mod base;
pub mod data;
pub mod execution;
pub mod laws;
pub mod model;
pub mod protocol;
pub mod runtime;
pub mod session;
pub mod system;
pub mod users;
