//! A process runner: aggregates the output of one child-process invocation.
//!
//! A caller launches a child, feeds it an input payload, and drains an ordered
//! stream of output events until the stream closes.  This crate holds the
//! verified part of that job: folding the event stream into a result that
//! carries the exit code and the newline-joined stdout and stderr lines.
//! Spawning the child and pumping its pipes is I/O and stays with the caller.

pub mod event;
pub mod lines;
pub mod runner;
