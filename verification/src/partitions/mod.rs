//! Byte ranges of a block device.
pub mod sgpt;

use vstd::prelude::*;

verus! {

/// The number of slots in a partition table.
pub const MAX_PARTITIONS: usize = 32;

/// Anything that occupies a byte range of a device: a whole disk, a partition,
/// an entry of a partition table.
pub trait Partitionable {
    /// The first byte of the range.
    spec fn spec_start(&self) -> usize;

    /// The byte after the last one of the range.
    spec fn spec_end(&self) -> usize;

    fn start(&self) -> (start: usize)
        ensures
            start == self.spec_start(),
    ;

    fn end(&self) -> (end: usize)
        ensures
            end == self.spec_end(),
    ;

    fn as_partition(&self) -> (partition: Partition)
        ensures
            partition.start == self.spec_start(),
            partition.end == self.spec_end(),
    ;
}

/// A half-open byte range `start..end` of a device. Nothing here checks that
/// `start <= end`: whoever builds a partition sees to it.
#[derive(Debug, Clone, Copy)]
pub struct Partition {
    pub start: usize,
    pub end: usize,
}

impl Partition {
    pub fn new(start: usize, end: usize) -> (partition: Self)
        ensures
            partition.start == start,
            partition.end == end,
    {
        Self { start, end }
    }
}

impl Partitionable for Partition {
    open spec fn spec_start(&self) -> usize {
        self.start
    }

    open spec fn spec_end(&self) -> usize {
        self.end
    }

    fn start(&self) -> (start: usize) {
        self.start
    }

    fn end(&self) -> (end: usize) {
        self.end
    }

    fn as_partition(&self) -> (partition: Partition) {
        Partition { start: self.start(), end: self.end() }
    }
}

} // verus!
