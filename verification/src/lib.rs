//! A time-gated HTTP load generator, split into a resolver that turns a raw
//! configuration document into an immutable schedule descriptor, and an
//! engine that drives the request lifecycle as a pure state machine: a driver
//! performs each action the engine asks for (sleeping, fanning out requests,
//! reporting) and feeds back what happened.

pub mod descriptor;
pub mod engine;
pub mod laws;
pub mod resolver;
