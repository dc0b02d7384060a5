//! Core of a lightweight task runtime with an actor-style supervision tree:
//! the packed task state word and its transitions, the observer handle,
//! the supervision broadcast bus, and the run-queue load sampler.

pub mod state;
pub mod stack;
pub mod run;
pub mod proc_handle;
pub mod header;
pub mod broadcast;
pub mod load_balancer;
