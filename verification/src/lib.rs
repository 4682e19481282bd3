//! Verified core of a ripped-video renaming pipeline.
//!
//! The library discovers candidate ripped files by a directory convention,
//! pairs them positionally against an ordered metadata list, computes
//! destination paths by a fixed naming convention, gates execution on a
//! confirmation answer, and drives the filesystem mutations through an
//! explicit workflow state machine.  Everything here is pure computation on
//! plain values; the surrounding binary performs the actual I/O and feeds
//! the results back as events.

pub mod cli;
pub mod dirs;
pub mod discovery;
pub mod models;
pub mod naming;
pub mod plan;
pub mod sort;
pub mod strutil;
pub mod workflow;
