//! Futures written by hand as the state machines they are.

pub mod basic_future;
