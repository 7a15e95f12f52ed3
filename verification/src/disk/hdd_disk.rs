//! A disk in a hard disk drive.
use super::backend::BlockBackend;
use super::chunked::{chunks, read_chunked, write_chunked, Chunked};
use super::{chunk_count, Disk, DiskError};
use crate::hdd::{HddError, MAX_READ_WRITE_SIZE};
use vstd::prelude::*;
use vstd::std_specs::convert::FromSpecImpl;

verus! {

/// A hard disk drive's error in the vocabulary that all disks share.
pub open spec fn hdd_disk_error(error: HddError) -> DiskError {
    match error {
        HddError::InvalidAddress => DiskError::InvalidAddress,
        HddError::InvalidSize => DiskError::InvalidSize,
        HddError::Unknown => DiskError::Unknown,
    }
}

impl From<HddError> for DiskError {
    fn from(error: HddError) -> (shared: Self) {
        match error {
            HddError::InvalidAddress => DiskError::InvalidAddress,
            HddError::InvalidSize => DiskError::InvalidSize,
            HddError::Unknown => DiskError::Unknown,
        }
    }
}

impl FromSpecImpl<HddError> for DiskError {
    open spec fn obeys_from_spec() -> bool {
        true
    }

    open spec fn from_spec(error: HddError) -> Self {
        hdd_disk_error(error)
    }
}

/// The disk error that a hard disk drive's raw status code comes to.
pub open spec fn hdd_status_error(code: i64) -> DiskError {
    hdd_disk_error(HddError::decode(code))
}

/// A status code without a meaning of its own is the error `Unknown`, whatever
/// its value.
pub proof fn lemma_hdd_unrecognized_status_is_unknown(code: i64)
    requires
        code != -1 && code != -2,
    ensures
        hdd_status_error(code) == DiskError::Unknown,
{
}

/// Whatever the status code, a hard disk drive's error is never that of a
/// missing disk.
pub proof fn lemma_hdd_status_is_never_missing(code: i64)
    ensures
        hdd_status_error(code) != DiskError::DiskIsMissing,
{
}

/// The fixed-media disk: a hard disk drive seen as a `Disk`. A transfer
/// longer than the drive takes at once goes over in pieces, one after the
/// other, each at the place of the device where its bytes belong. Its medium
/// cannot be taken out, so it never reports a missing disk.
pub struct HddDisk<B: BlockBackend> {
    hdd: B,
}

impl<B: BlockBackend> HddDisk<B> {
    /// The drive below.
    pub closed spec fn drive(&self) -> B {
        self.hdd
    }

    pub fn new(hdd: B) -> (disk: Self)
        ensures
            disk.drive() == hdd,
    {
        Self { hdd }
    }

    /// Gives the drive back.
    pub fn into_inner(self) -> (hdd: B)
        ensures
            hdd == self.drive(),
    {
        self.hdd
    }

    /// What a transfer of `len` bytes comes to, given the drive's answer:
    /// the whole length where the drive succeeded, else the error that its
    /// status code stands for.
    pub fn transfer_result(len: usize, answer: Result<usize, i64>) -> (result: Result<
        usize,
        DiskError,
    >)
        ensures
            result == match answer {
                Ok(_) => Ok::<usize, DiskError>(len),
                Err(code) => Err::<usize, DiskError>(hdd_status_error(code)),
            },
    {
        match answer {
            Ok(_) => Ok(len),
            Err(code) => Err(DiskError::from(HddError::from(code))),
        }
    }
}

impl<B: BlockBackend> Chunked for HddDisk<B> {
    open spec fn medium(&self) -> Seq<u8> {
        self.drive().contents()
    }

    open spec fn asked(&self) -> Seq<(usize, nat)> {
        self.drive().log()
    }

    /// The medium cannot be taken out: no transfer fails for want of a disk.
    open spec fn may_report(error: DiskError) -> bool {
        error != DiskError::DiskIsMissing
    }

    fn write_inner(&mut self, address: usize, src: &[u8]) -> (result: Result<usize, DiskError>) {
        let answer = self.hdd.bulk_write(address, src);
        Self::transfer_result(src.len(), answer)
    }

    fn read_inner(&mut self, address: usize, dst: &mut [u8]) -> (result: Result<usize, DiskError>) {
        let answer = self.hdd.bulk_read(address, dst);
        Self::transfer_result(dst.len(), answer)
    }
}

impl<B: BlockBackend> Disk for HddDisk<B> {
    open spec fn contents(&self) -> Seq<u8> {
        self.drive().contents()
    }

    /// Writes `src` in chunks of `MAX_READ_WRITE_SIZE` bytes: chunk `i` takes
    /// the bytes from `i * MAX_READ_WRITE_SIZE` on to the place that lies as
    /// far behind `address`.
    fn write(&mut self, address: usize, src: &[u8]) -> (result: Result<usize, DiskError>)
        ensures
            address + src@.len() > usize::MAX ==> {
                &&& result == Err::<usize, DiskError>(DiskError::InvalidAddress)
                &&& final(self).drive().log() == old(self).drive().log()
                &&& final(self).contents() == old(self).contents()
            },
            result is Ok ==> final(self).drive().log() == old(self).drive().log() + chunks(
                address,
                src@.len(),
                MAX_READ_WRITE_SIZE as nat,
            ),
            result != Err::<usize, DiskError>(DiskError::DiskIsMissing),
            address + src@.len() <= usize::MAX && result is Err ==> {
                let stored = final(self).drive().log().len() - old(self).drive().log().len() - 1;
                &&& 0 <= stored < chunk_count(src@.len(), MAX_READ_WRITE_SIZE as nat)
                &&& final(self).drive().log() == old(self).drive().log() + chunks(
                    address,
                    src@.len(),
                    MAX_READ_WRITE_SIZE as nat,
                ).subrange(0, stored + 1)
                &&& forall|i: int|
                    0 <= i < stored * MAX_READ_WRITE_SIZE ==> final(self).contents()[address + i]
                        == src@[i]
            },
    {
        write_chunked(self, address, src, MAX_READ_WRITE_SIZE)
    }

    /// Reads into `dst` in chunks of `MAX_READ_WRITE_SIZE` bytes, laid out as
    /// those of `write`.
    fn read(&mut self, address: usize, dst: &mut [u8]) -> (result: Result<usize, DiskError>)
        ensures
            address + old(dst)@.len() > usize::MAX ==> {
                &&& result == Err::<usize, DiskError>(DiskError::InvalidAddress)
                &&& final(self).drive().log() == old(self).drive().log()
                &&& final(dst)@ == old(dst)@
            },
            result is Ok ==> final(self).drive().log() == old(self).drive().log() + chunks(
                address,
                old(dst)@.len(),
                MAX_READ_WRITE_SIZE as nat,
            ),
            result != Err::<usize, DiskError>(DiskError::DiskIsMissing),
            address + old(dst)@.len() <= usize::MAX && result is Err ==> {
                let fetched = final(self).drive().log().len() - old(self).drive().log().len() - 1;
                &&& 0 <= fetched < chunk_count(old(dst)@.len(), MAX_READ_WRITE_SIZE as nat)
                &&& final(self).drive().log() == old(self).drive().log() + chunks(
                    address,
                    old(dst)@.len(),
                    MAX_READ_WRITE_SIZE as nat,
                ).subrange(0, fetched + 1)
                &&& forall|i: int|
                    0 <= i < fetched * MAX_READ_WRITE_SIZE ==> final(dst)@[i] == old(
                        self,
                    ).contents()[address + i]
            },
    {
        read_chunked(self, address, dst, MAX_READ_WRITE_SIZE)
    }

    /// The capacity that the drive reports now.
    fn size(&self) -> (size: usize) {
        self.hdd.capacity() as usize
    }
}

} // verus!
