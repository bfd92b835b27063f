//! A minimal Linux container runtime.
//!
//! The library holds the decisions of the runtime: how mount specifications
//! are validated, which operations re-root the filesystem and in what order,
//! which capabilities and system calls are taken away, and the two step
//! machines (the cloned child and the supervising parent) that exchange the
//! user-namespace handshake. A driver performs each action that a machine
//! hands out and reports the outcome back.
pub mod childproc;
pub mod cli;
pub mod container;
pub mod errors;
pub mod ipc;
pub mod mount;
pub mod policy;
pub mod utils;
