//! A counting semaphore that bounds how many threads hold a permit at once.
//!
//! `permits` states the permit protocol as a state machine over traces of
//! acquire and release steps and proves its laws; `semaphore` is the blocking
//! primitive built on a mutex and a condition variable, whose every update of
//! the shared count is a step of that machine.
pub mod permits;
pub mod semaphore;
