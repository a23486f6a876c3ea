//! Verified core of the Citadel system library.
use vstd::prelude::*;

pub mod text;
pub mod sort;
pub mod strmap;
pub mod system;
pub mod verity;
pub mod cmdline;
pub mod config;
pub mod disks;
pub mod error;
pub mod exec;
pub mod header;
pub mod mount;
pub mod path;
pub mod path_ext;
pub mod keys;
pub mod keyring;
pub mod partition;
pub mod resource;
pub mod util;
pub mod realm;
pub mod realmfs;
pub mod terminal;

verus! {

/// Size in bytes of a filesystem block.
pub const BLOCK_SIZE: usize = 4096;

} // verus!
