//! Block devices: the contract that every disk meets.
pub mod backend;
pub mod chunked;
pub mod floppy_disk;
pub mod hdd_disk;

pub use floppy_disk::FloppyDisk;
pub use hdd_disk::HddDisk;

use crate::partitions::{Partition, Partitionable};
use vstd::prelude::*;

verus! {

/// Why a transfer failed.
#[derive(Debug, Clone, Copy, PartialEq, Eq, PartialOrd, Ord)]
pub enum DiskError {
    /// The address lies outside the device.
    InvalidAddress,
    /// The transfer is longer than the device allows.
    InvalidSize,
    /// The drive holds no medium.
    DiskIsMissing,
    /// The device answered with a status that has no meaning here.
    Unknown,
}

/// `base` with `data` laid over it from position `at` on.
pub open spec fn overwrite(base: Seq<u8>, at: int, data: Seq<u8>) -> Seq<u8> {
    Seq::new(
        base.len(),
        |i: int|
            if at <= i < at + data.len() {
                data[i - at]
            } else {
                base[i]
            },
    )
}

/// `after` differs from `before` at most inside `at..at + len`.
pub open spec fn same_outside(before: Seq<u8>, after: Seq<u8>, at: int, len: int) -> bool {
    &&& after.len() == before.len()
    &&& forall|i: int| 0 <= i < before.len() && !(at <= i < at + len) ==> after[i] == before[i]
}

/// How many transfers of at most `max` bytes it takes to move `len` bytes.
pub open spec fn chunk_count(len: nat, max: nat) -> nat {
    if len % max == 0 {
        len / max
    } else {
        len / max + 1
    }
}

/// The number of transfers is the length divided by the limit, rounded up: that
/// many transfers hold the length, and one fewer would not.
pub proof fn lemma_chunk_count_is_ceiling(len: nat, max: nat)
    requires
        max > 0,
    ensures
        chunk_count(len, max) * max >= len,
        len > 0 ==> (chunk_count(len, max) - 1) * max < len,
        len == 0 ==> chunk_count(len, max) == 0,
{
    vstd::arithmetic::div_mod::lemma_fundamental_div_mod(len as int, max as int);
    vstd::arithmetic::div_mod::lemma_mod_bound(len as int, max as int);
    let q = len as int / max as int;
    assert(len == max * q + len % max);
    assert(max * q == q * max) by (nonlinear_arith);
    assert((q + 1) * max == q * max + max) by (nonlinear_arith);
    assert((q - 1) * max == q * max - max) by (nonlinear_arith);
    if len == 0 {
        assert(q * max == 0);
        assert(q == 0) by (nonlinear_arith)
            requires
                q * max == 0,
                max > 0,
        ;
    }
}

/// Where the next field starts, given where this one started and what moving
/// it gave: behind the bytes that were moved, or the disk's error as it is.
pub fn next_offset(offset: usize, moved: Result<usize, DiskError>) -> (next: Result<
    usize,
    DiskError,
>)
    requires
        moved matches Ok(count) ==> offset + count <= usize::MAX,
    ensures
        next == match moved {
            Ok(count) => Ok::<usize, DiskError>((offset + count) as usize),
            Err(error) => Err::<usize, DiskError>(error),
        },
{
    match moved {
        Ok(count) => Ok(offset + count),
        Err(error) => Err(error),
    }
}

/// What a write comes to for a caller that has no use for the count: the
/// disk's error as it is, or nothing.
pub fn write_outcome(written: Result<usize, DiskError>) -> (outcome: Result<(), DiskError>)
    ensures
        outcome == match written {
            Ok(_) => Ok::<(), DiskError>(()),
            Err(error) => Err::<(), DiskError>(error),
        },
{
    match written {
        Ok(_) => Ok(()),
        Err(error) => Err(error),
    }
}

/// A byte-addressed block device. Addresses count from the start of the
/// device, whatever partition a caller has in mind.
pub trait Disk {
    /// The bytes that the device holds. A disk that says nothing of its
    /// medium leaves them unknown.
    open spec fn contents(&self) -> Seq<u8> {
        arbitrary()
    }

    /// Stores all of `src` from `address` on, or fails. After a failure the
    /// bytes of the target range are in no known state.
    fn write(&mut self, address: usize, src: &[u8]) -> (result: Result<usize, DiskError>)
        ensures
            match result {
                Ok(count) => {
                    &&& count == src@.len()
                    &&& src@.len() > 0 ==> address + src@.len() <= old(self).contents().len()
                    &&& final(self).contents() == overwrite(
                        old(self).contents(),
                        address as int,
                        src@,
                    )
                },
                Err(_) => same_outside(
                    old(self).contents(),
                    final(self).contents(),
                    address as int,
                    src@.len() as int,
                ),
            },
    ;

    /// Fills all of `dst` with the bytes from `address` on, or fails.
    fn read(&mut self, address: usize, dst: &mut [u8]) -> (result: Result<usize, DiskError>)
        ensures
            final(self).contents() == old(self).contents(),
            final(dst)@.len() == old(dst)@.len(),
            match result {
                Ok(count) => {
                    &&& count == old(dst)@.len()
                    &&& count > 0 ==> address + count <= old(self).contents().len()
                    &&& forall|i: int|
                        0 <= i < count ==> final(dst)@[i] == old(self).contents()[address + i]
                },
                Err(_) => true,
            },
    ;

    /// The capacity of the device in bytes.
    fn size(&self) -> (size: usize)
        ensures
            size == self.contents().len(),
    ;
}

/// A whole disk is one partition that starts at 0 and ends at its capacity.
impl<T: Disk> Partitionable for T {
    open spec fn spec_start(&self) -> usize {
        0
    }

    open spec fn spec_end(&self) -> usize {
        self.contents().len() as usize
    }

    fn start(&self) -> (start: usize) {
        0
    }

    fn end(&self) -> (end: usize) {
        self.size()
    }

    fn as_partition(&self) -> (partition: Partition) {
        Partition::new(self.start(), self.end())
    }
}

} // verus!
