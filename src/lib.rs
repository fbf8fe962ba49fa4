//! A small hierarchical state machine: events are routed to the active state,
//! deferred up the superstate chain until some handler answers, and a requested
//! transition is committed to the machine. Every dispatch cycle is a verified
//! step function over the machine's abstract view.
//!
//! An event that every rung of the chain defers is dropped without any change;
//! the returned trace shows which rungs were offered it.

pub mod event;
pub mod graph;
pub mod laws;
pub mod machine;
pub mod program;

pub use event::Event;
pub use graph::{State, StateOrSuperstate, Superstate};
pub use machine::{Observation, Outcome, StateMachine};
pub use program::{square, MyProgram, Response};
