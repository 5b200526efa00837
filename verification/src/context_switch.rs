//! Switching between tasks: the saved registers of a task that is not
//! running, and the decisions of a scheduler of green threads.

pub mod green_threads;
pub mod stack_coroutine;
