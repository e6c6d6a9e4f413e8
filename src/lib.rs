//! Backup, restore and relocation of a live database file.
//!
//! Every operation that touches the disk is expressed here as a decision
//! procedure: a state machine that names the next file operation, takes the
//! outcome back, and decides. The caller performs the operations. The
//! machines are proved against a model of the files they act on.
pub mod checkpoint;
pub mod checksum;
pub mod cleanup;
pub mod compat;
pub mod error;
pub mod naming;
pub mod replace;
pub mod resolver;
pub mod restart;
pub mod snapshot;
