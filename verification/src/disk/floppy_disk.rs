//! A disk in a floppy drive.
use super::backend::BlockBackend;
use super::chunked::{chunks, read_chunked, write_chunked, Chunked};
use super::{chunk_count, Disk, DiskError};
use crate::floppy_drive::{FloppyDriveError, MAX_READ_WRITE_SIZE};
use vstd::prelude::*;
use vstd::std_specs::convert::FromSpecImpl;

verus! {

/// A floppy drive's error in the vocabulary that all disks share.
pub open spec fn floppy_disk_error(error: FloppyDriveError) -> DiskError {
    match error {
        FloppyDriveError::InvalidAddress => DiskError::InvalidAddress,
        FloppyDriveError::InvalidSize => DiskError::InvalidSize,
        FloppyDriveError::FloppyDriveIsEmpty => DiskError::DiskIsMissing,
        FloppyDriveError::Unknown => DiskError::Unknown,
    }
}

impl From<FloppyDriveError> for DiskError {
    fn from(error: FloppyDriveError) -> (shared: Self) {
        match error {
            FloppyDriveError::InvalidAddress => DiskError::InvalidAddress,
            FloppyDriveError::InvalidSize => DiskError::InvalidSize,
            FloppyDriveError::FloppyDriveIsEmpty => DiskError::DiskIsMissing,
            FloppyDriveError::Unknown => DiskError::Unknown,
        }
    }
}

impl FromSpecImpl<FloppyDriveError> for DiskError {
    open spec fn obeys_from_spec() -> bool {
        true
    }

    open spec fn from_spec(error: FloppyDriveError) -> Self {
        floppy_disk_error(error)
    }
}

/// The disk error that a floppy drive's raw status code comes to.
pub open spec fn floppy_status_error(code: i64) -> DiskError {
    floppy_disk_error(FloppyDriveError::decode(code))
}

/// A status code without a meaning of its own is the error `Unknown`, whatever
/// its value.
pub proof fn lemma_floppy_unrecognized_status_is_unknown(code: i64)
    requires
        code != -1 && code != -2 && code != -3,
    ensures
        floppy_status_error(code) == DiskError::Unknown,
{
}

/// The removable-media disk: a floppy drive seen as a `Disk`. A transfer
/// longer than the drive takes at once goes over in pieces, one after the
/// other, each at the place of the device where its bytes belong.
pub struct FloppyDisk<B: BlockBackend> {
    floppy: B,
}

impl<B: BlockBackend> FloppyDisk<B> {
    /// The drive below.
    pub closed spec fn drive(&self) -> B {
        self.floppy
    }

    pub fn new(floppy: B) -> (disk: Self)
        ensures
            disk.drive() == floppy,
    {
        Self { floppy }
    }

    /// Gives the drive back.
    pub fn into_inner(self) -> (floppy: B)
        ensures
            floppy == self.drive(),
    {
        self.floppy
    }

    /// What a transfer of `len` bytes comes to, given the drive's answer:
    /// the whole length where the drive succeeded, else the error that its
    /// status code stands for.
    pub fn transfer_result(len: usize, answer: Result<usize, i64>) -> (result: Result<
        usize,
        DiskError,
    >)
        ensures
            result == match answer {
                Ok(_) => Ok::<usize, DiskError>(len),
                Err(code) => Err::<usize, DiskError>(floppy_status_error(code)),
            },
    {
        match answer {
            Ok(_) => Ok(len),
            Err(code) => Err(DiskError::from(FloppyDriveError::from(code))),
        }
    }
}

impl<B: BlockBackend> Chunked for FloppyDisk<B> {
    open spec fn medium(&self) -> Seq<u8> {
        self.drive().contents()
    }

    open spec fn asked(&self) -> Seq<(usize, nat)> {
        self.drive().log()
    }

    /// A floppy drive may be empty: every error can come.
    open spec fn may_report(error: DiskError) -> bool {
        true
    }

    fn write_inner(&mut self, address: usize, src: &[u8]) -> (result: Result<usize, DiskError>) {
        let answer = self.floppy.bulk_write(address, src);
        Self::transfer_result(src.len(), answer)
    }

    fn read_inner(&mut self, address: usize, dst: &mut [u8]) -> (result: Result<usize, DiskError>) {
        let answer = self.floppy.bulk_read(address, dst);
        Self::transfer_result(dst.len(), answer)
    }
}

impl<B: BlockBackend> Disk for FloppyDisk<B> {
    open spec fn contents(&self) -> Seq<u8> {
        self.drive().contents()
    }

    /// Writes `src` in chunks of `MAX_READ_WRITE_SIZE` bytes: chunk `i` takes
    /// the bytes from `i * MAX_READ_WRITE_SIZE` on to the place that lies as
    /// far behind `address`.
    fn write(&mut self, address: usize, src: &[u8]) -> (result: Result<usize, DiskError>)
        ensures
            address + src@.len() > usize::MAX ==> {
                &&& result == Err::<usize, DiskError>(DiskError::InvalidAddress)
                &&& final(self).drive().log() == old(self).drive().log()
                &&& final(self).contents() == old(self).contents()
            },
            result is Ok ==> final(self).drive().log() == old(self).drive().log() + chunks(
                address,
                src@.len(),
                MAX_READ_WRITE_SIZE as nat,
            ),
            address + src@.len() <= usize::MAX && result is Err ==> {
                let stored = final(self).drive().log().len() - old(self).drive().log().len() - 1;
                &&& 0 <= stored < chunk_count(src@.len(), MAX_READ_WRITE_SIZE as nat)
                &&& final(self).drive().log() == old(self).drive().log() + chunks(
                    address,
                    src@.len(),
                    MAX_READ_WRITE_SIZE as nat,
                ).subrange(0, stored + 1)
                &&& forall|i: int|
                    0 <= i < stored * MAX_READ_WRITE_SIZE ==> final(self).contents()[address + i]
                        == src@[i]
            },
    {
        write_chunked(self, address, src, MAX_READ_WRITE_SIZE)
    }

    /// Reads into `dst` in chunks of `MAX_READ_WRITE_SIZE` bytes, laid out as
    /// those of `write`.
    fn read(&mut self, address: usize, dst: &mut [u8]) -> (result: Result<usize, DiskError>)
        ensures
            address + old(dst)@.len() > usize::MAX ==> {
                &&& result == Err::<usize, DiskError>(DiskError::InvalidAddress)
                &&& final(self).drive().log() == old(self).drive().log()
                &&& final(dst)@ == old(dst)@
            },
            result is Ok ==> final(self).drive().log() == old(self).drive().log() + chunks(
                address,
                old(dst)@.len(),
                MAX_READ_WRITE_SIZE as nat,
            ),
            address + old(dst)@.len() <= usize::MAX && result is Err ==> {
                let fetched = final(self).drive().log().len() - old(self).drive().log().len() - 1;
                &&& 0 <= fetched < chunk_count(old(dst)@.len(), MAX_READ_WRITE_SIZE as nat)
                &&& final(self).drive().log() == old(self).drive().log() + chunks(
                    address,
                    old(dst)@.len(),
                    MAX_READ_WRITE_SIZE as nat,
                ).subrange(0, fetched + 1)
                &&& forall|i: int|
                    0 <= i < fetched * MAX_READ_WRITE_SIZE ==> final(dst)@[i] == old(
                        self,
                    ).contents()[address + i]
            },
    {
        read_chunked(self, address, dst, MAX_READ_WRITE_SIZE)
    }

    /// The capacity that the drive reports now.
    fn size(&self) -> (size: usize) {
        self.floppy.capacity() as usize
    }
}

} // verus!
