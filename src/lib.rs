//! Command logic of a test collator node: rendering of genesis artifacts,
//! the plan for where an export goes, extraction of the genesis runtime code,
//! and the choices (consensus, block announcements) handed to node start-up.

pub mod hex;
pub mod genesis;
pub mod export;
pub mod node;
