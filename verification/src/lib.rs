//! Decision core of a watch-and-restart process supervisor.
//!
//! A host watches a directory tree and runs one child process. This library
//! holds everything the host has to decide: whether a filesystem change
//! warrants a restart, which child has to be terminated before the next one
//! is spawned, what command line to spawn, and when to stop. The host performs
//! the I/O and reports back what happened; time is handed in as a count of
//! milliseconds on a monotonic clock.

pub mod engine;
pub mod error;
pub mod event;
pub mod extension;
pub mod options;
pub mod policy;
pub mod supervisor;
pub mod system;
