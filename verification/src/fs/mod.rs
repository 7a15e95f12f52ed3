//! File systems that live inside a partition.
use vstd::prelude::*;

pub mod mflaw;

verus! {

/// The size of a block of the file system in bytes.
pub const BLOCK_SIZE: usize = 1024;

} // verus!
