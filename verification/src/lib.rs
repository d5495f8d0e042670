//! Verified decision core of `rmx`, a safety-conscious replacement for the
//! recursive file-removal utility.
//!
//! The library holds everything that can be decided without touching the
//! filesystem: entity classification, the safety guards, the interactive
//! confirmation policy, flag election, unlink planning with its error
//! mapping, the depth-ordered bulk-removal planner, and the secure-shred
//! engine. A thin unverified binary performs the actual system calls and
//! feeds their outcomes back into these functions.

pub mod decision;
pub mod dir;
pub mod engine;
pub mod entity;
mod entropy;
pub mod error;
pub mod file;
pub mod guard;
pub mod link;
pub mod options;
pub mod rip;
pub mod shred;
pub mod text;
pub mod unlink;
