//! Keeps an environment tag on the tip of a repository's default branch.
//!
//! The crate decides; it performs no I/O. A caller holds the client that talks
//! to the hosting provider, performs each request that the crate hands out and
//! gives the answer back.

pub mod convergence;
pub mod decision;
pub mod passes;
pub mod reconcile;
pub mod registry;
pub mod remote;
pub mod sync;
pub mod system;
pub mod views;
