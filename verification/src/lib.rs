//! Supervision of a sidecar backend process.
//!
//! A desktop launcher has to bring up a separately packaged backend before it
//! shows any window, and has to take the backend down again when it exits.
//! This crate holds the rules of that supervision as verified, side-effect
//! free functions: which files are candidates for the backend executable and
//! in which order, how the backend is started, when it counts as ready, which
//! failure is reported, and who owns the running process.
//!
//! Nothing here touches the file system, the network, the clock or a process.
//! The caller performs those effects and reports what it observed.

pub mod error;
pub mod launcher;
pub mod lifecycle;
pub mod locator;
pub mod platform;
pub mod prober;
pub mod supervisor;

