//! A verified core for a long-polling queue consumer.
//!
//! The library models the consumer as a state machine: given the current
//! state and the outcome of the last service call, `consumer::step` decides
//! the next state and the actions the surrounding runtime must perform
//! (print a line, sleep, issue a receive, issue a delete, or stop with an
//! error). The runtime that performs the calls lives outside the library.

pub mod consumer;
pub mod message;
pub mod resolver;
