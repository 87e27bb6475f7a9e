//! A local object broker's IPC and object substrate.
//!
//! Clients reach the broker over a stream connection and speak a closed,
//! fixed-shape request/reply protocol.  The broker owns process and thread
//! identity, reference-counted kernel objects, per-process handle tables,
//! a hierarchical object namespace, and the routing of file descriptors
//! handed across the connection.  This crate verifies that substrate: the
//! wire codec, the object and handle bookkeeping, the namespace, the id
//! pools, the descriptor routing, and the request dispatch.  The process
//! that listens, reads and writes around it is ordinary unverified code.

#![verifier::loop_isolation(false)]

pub mod codec;
pub mod fd;
pub mod ipc;
pub mod namespace;
pub mod object;
pub mod thread;
