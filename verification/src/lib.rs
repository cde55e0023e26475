//! A single-host process-supervision core: ownership-typed wrappers over raw
//! OS file descriptors, splittable control channels and data pipes, and a
//! framed message protocol that can hand a live descriptor from one process
//! to another over a control channel.

pub mod control;
pub mod error;
pub mod fork;
pub mod msg;
pub mod pipe;
pub mod procs;
mod sys;
