//! The simplified partition table: a header at the start of the disk and a
//! row of records behind it.
//!
//! On the disk every number stands least significant byte first. The header
//! takes 36 bytes: the signature (8), the size of the header (4), the
//! identifier (16), the number of records (4), the declared size of a record
//! (4). The records start behind the header, `HEADER_SIZE` bytes from the
//! start of the disk, and lie `HEADER_SIZE` bytes apart. A record takes 164
//! bytes: the type code (4), the identifier (16), the start (8), the end
//! (8), the name (128). The records are longer than the distance between
//! them: writing one reaches into the places of those that follow it.
use super::{Partition, Partitionable, MAX_PARTITIONS};
use crate::codec::{
    lemma_u32_bytes_round_trip, lemma_u32_round_trip, lemma_u64_bytes_round_trip,
    lemma_u64_round_trip, u32_from_le, u32_from_le_bytes, u32_le, u32_to_le_bytes, u64_from_le,
    u64_from_le_bytes, u64_le, u64_to_le_bytes,
};
use crate::disk::{next_offset, overwrite, same_outside, write_outcome, Disk, DiskError};
use vstd::prelude::*;
use vstd::std_specs::convert::FromSpecImpl;

verus! {

/// The signature of a table: the letters `EFI PART`, read as a number with
/// the first letter least significant.
pub const SIGNATURE: u64 = 0x5452_4150_2049_4645;

/// The size that a header declares, and the distance between two records.
pub const HEADER_SIZE: u32 = 40;

/// The number of bytes that a header takes on the disk.
pub const HEADER_BYTES: usize = 36;

/// The size of a record that a fresh header declares.
pub const PARTITION_SIZE: u32 = 128;

/// The number of bytes that a record takes on the disk.
pub const RECORD_BYTES: usize = 164;

/// The length of an identifier.
pub const UUID_LENGTH: usize = 16;

/// The length of a partition's name.
pub const NAME_LENGTH: usize = 128;

/// What a partition is for.
#[derive(Debug, Clone, Copy, PartialEq, Eq, PartialOrd, Ord, Structural)]
pub enum SGptPartitionType {
    Boot,
    Unknown,
}

impl SGptPartitionType {
    /// The code that stands for the type on the disk.
    pub open spec fn spec_code(self) -> u32 {
        match self {
            SGptPartitionType::Boot => 1,
            SGptPartitionType::Unknown => 0xFFFF_FFFF,
        }
    }

    /// The type that a code stands for; every code but that of `Boot` is
    /// `Unknown`.
    pub open spec fn decode(code: u32) -> Self {
        if code == 1 {
            SGptPartitionType::Boot
        } else {
            SGptPartitionType::Unknown
        }
    }

    pub fn code(&self) -> (code: u32)
        ensures
            code == self.spec_code(),
    {
        match self {
            SGptPartitionType::Boot => 1,
            SGptPartitionType::Unknown => 0xFFFF_FFFF,
        }
    }
}

impl From<u32> for SGptPartitionType {
    fn from(value: u32) -> (ty: Self) {
        if value == 1 {
            SGptPartitionType::Boot
        } else {
            SGptPartitionType::Unknown
        }
    }
}

impl FromSpecImpl<u32> for SGptPartitionType {
    open spec fn obeys_from_spec() -> bool {
        true
    }

    open spec fn from_spec(value: u32) -> Self {
        SGptPartitionType::decode(value)
    }
}

/// Decoding the code of a type gives the type back.
pub proof fn lemma_partition_type_round_trip(ty: SGptPartitionType)
    ensures
        SGptPartitionType::decode(ty.spec_code()) == ty,
{
}

/// The header of a table.
#[derive(Debug, Clone)]
pub struct SGptHeader {
    pub signature: u64,
    pub header_size: u32,
    pub uuid: [u8; 16],
    pub partitions: u32,
    pub partition_size: u32,
}

/// A header as plain values.
#[verifier::ext_equal]
pub struct SGptHeaderView {
    pub signature: u64,
    pub header_size: u32,
    pub uuid: Seq<u8>,
    pub partitions: u32,
    pub partition_size: u32,
}

impl View for SGptHeader {
    type V = SGptHeaderView;

    open spec fn view(&self) -> SGptHeaderView {
        SGptHeaderView {
            signature: self.signature,
            header_size: self.header_size,
            uuid: self.uuid@,
            partitions: self.partitions,
            partition_size: self.partition_size,
        }
    }
}

impl SGptHeaderView {
    /// The 36 bytes that stand for the header on the disk.
    pub open spec fn bytes(self) -> Seq<u8> {
        u64_le(self.signature) + u32_le(self.header_size) + self.uuid + u32_le(self.partitions)
            + u32_le(self.partition_size)
    }

    /// The header that the first 36 bytes of `bytes` stand for.
    pub open spec fn from_bytes(bytes: Seq<u8>) -> Self {
        SGptHeaderView {
            signature: u64_from_le(bytes.subrange(0, 8)),
            header_size: u32_from_le(bytes.subrange(8, 12)),
            uuid: bytes.subrange(12, 28),
            partitions: u32_from_le(bytes.subrange(28, 32)),
            partition_size: u32_from_le(bytes.subrange(32, 36)),
        }
    }

    /// Whether the header is that of a table: it carries the signature and
    /// declares the size that a header has.
    pub open spec fn is_valid(self) -> bool {
        self.signature == SIGNATURE && self.header_size == HEADER_SIZE
    }
}

/// Decoding the bytes of a header gives the header back, field for field.
pub proof fn lemma_header_round_trip(header: SGptHeaderView)
    requires
        header.uuid.len() == 16,
    ensures
        header.bytes().len() == 36,
        SGptHeaderView::from_bytes(header.bytes()) == header,
{
    lemma_u64_round_trip(header.signature);
    lemma_u32_round_trip(header.header_size);
    lemma_u32_round_trip(header.partitions);
    lemma_u32_round_trip(header.partition_size);
    let bytes = header.bytes();
    assert(bytes.subrange(0, 8) =~= u64_le(header.signature));
    assert(bytes.subrange(8, 12) =~= u32_le(header.header_size));
    assert(bytes.subrange(12, 28) =~= header.uuid);
    assert(bytes.subrange(28, 32) =~= u32_le(header.partitions));
    assert(bytes.subrange(32, 36) =~= u32_le(header.partition_size));
    assert(SGptHeaderView::from_bytes(bytes) =~= header);
}

/// Bytes that do not start with the signature are not the header of a table.
pub proof fn lemma_foreign_signature_is_no_table(bytes: Seq<u8>)
    requires
        bytes.len() >= 36,
        bytes.subrange(0, 8) != u64_le(SIGNATURE),
    ensures
        !SGptHeaderView::from_bytes(bytes).is_valid(),
{
    lemma_u64_bytes_round_trip(bytes.subrange(0, 8));
}

/// Bytes that declare another size than that of a header are not the header
/// of a table.
pub proof fn lemma_foreign_size_is_no_table(bytes: Seq<u8>)
    requires
        bytes.len() >= 36,
        bytes.subrange(8, 12) != u32_le(HEADER_SIZE),
    ensures
        !SGptHeaderView::from_bytes(bytes).is_valid(),
{
    lemma_u32_bytes_round_trip(bytes.subrange(8, 12));
}

/// A header that was written over the start of a disk is the header that the
/// disk then holds.
pub proof fn lemma_header_written_reads_back(before: Seq<u8>, header: SGptHeaderView)
    requires
        header.uuid.len() == 16,
        before.len() >= 36,
    ensures
        SGptHeaderView::from_bytes(overwrite(before, 0, header.bytes())) == header,
{
    lemma_header_round_trip(header);
    let bytes = header.bytes();
    let after = overwrite(before, 0, bytes);
    assert(after.subrange(0, 8) =~= bytes.subrange(0, 8));
    assert(after.subrange(8, 12) =~= bytes.subrange(8, 12));
    assert(after.subrange(12, 28) =~= bytes.subrange(12, 28));
    assert(after.subrange(28, 32) =~= bytes.subrange(28, 32));
    assert(after.subrange(32, 36) =~= bytes.subrange(32, 36));
}

impl SGptHeader {
    /// Whether the header is that of a table.
    pub fn is_valid(&self) -> (valid: bool)
        ensures
            valid == self@.is_valid(),
    {
        self.signature == SIGNATURE && self.header_size == HEADER_SIZE
    }

    /// Writes the header over the start of the disk, field after field.
    pub fn write<D: Disk>(&self, disk: &mut D) -> (result: Result<(), DiskError>)
        ensures
            match result {
                Ok(()) => {
                    &&& 36 <= old(disk).contents().len()
                    &&& final(disk).contents() == overwrite(
                        old(disk).contents(),
                        0,
                        self@.bytes(),
                    )
                },
                Err(_) => same_outside(old(disk).contents(), final(disk).contents(), 0, 36),
            },
    {
        let ghost before = disk.contents();
        let mut offset: usize = 0;

        let moved = disk.write(offset, &u64_to_le_bytes(self.signature));
        offset = next_offset(offset, moved)?;
        let moved = disk.write(offset, &u32_to_le_bytes(self.header_size));
        offset = next_offset(offset, moved)?;
        let moved = disk.write(offset, &self.uuid);
        offset = next_offset(offset, moved)?;
        let moved = disk.write(offset, &u32_to_le_bytes(self.partitions));
        offset = next_offset(offset, moved)?;
        let written = disk.write(offset, &u32_to_le_bytes(self.partition_size));

        assert(written is Ok ==> disk.contents() =~= overwrite(before, 0, self@.bytes()));
        write_outcome(written)
    }

    /// Reads the header that the start of the disk holds, whatever it says.
    pub fn read<D: Disk>(disk: &mut D) -> (result: Result<Self, DiskError>)
        ensures
            final(disk).contents() == old(disk).contents(),
            match result {
                Ok(header) => {
                    &&& 36 <= old(disk).contents().len()
                    &&& header@ == SGptHeaderView::from_bytes(old(disk).contents())
                },
                Err(_) => true,
            },
    {
        let ghost contents = disk.contents();
        let mut offset: usize = 0;

        let mut signature_bytes = [0u8; 8];
        let moved = disk.read(offset, &mut signature_bytes);
        offset = next_offset(offset, moved)?;

        let mut header_size_bytes = [0u8; 4];
        let moved = disk.read(offset, &mut header_size_bytes);
        offset = next_offset(offset, moved)?;

        let mut uuid = [0u8; 16];
        let moved = disk.read(offset, &mut uuid);
        offset = next_offset(offset, moved)?;

        let mut partitions_bytes = [0u8; 4];
        let moved = disk.read(offset, &mut partitions_bytes);
        offset = next_offset(offset, moved)?;

        let mut partition_size_bytes = [0u8; 4];
        let moved = disk.read(offset, &mut partition_size_bytes);
        next_offset(offset, moved)?;

        let header = Self {
            signature: u64_from_le_bytes(&signature_bytes),
            header_size: u32_from_le_bytes(&header_size_bytes),
            uuid,
            partitions: u32_from_le_bytes(&partitions_bytes),
            partition_size: u32_from_le_bytes(&partition_size_bytes),
        };
        proof {
            assert(signature_bytes@ =~= contents.subrange(0, 8));
            assert(header_size_bytes@ =~= contents.subrange(8, 12));
            assert(uuid@ =~= contents.subrange(12, 28));
            assert(partitions_bytes@ =~= contents.subrange(28, 32));
            assert(partition_size_bytes@ =~= contents.subrange(32, 36));
            assert(header@ =~= SGptHeaderView::from_bytes(contents));
        }
        Ok(header)
    }
}

/// An entry of the table.
#[derive(Debug, Clone)]
pub struct SGptPartition {
    pub ty: SGptPartitionType,
    pub uuid: [u8; 16],
    pub start: u64,
    pub end: u64,
    pub name: [u8; 128],
}

/// A record as plain values.
#[verifier::ext_equal]
pub struct SGptPartitionView {
    pub ty: SGptPartitionType,
    pub uuid: Seq<u8>,
    pub start: u64,
    pub end: u64,
    pub name: Seq<u8>,
}

impl View for SGptPartition {
    type V = SGptPartitionView;

    open spec fn view(&self) -> SGptPartitionView {
        SGptPartitionView {
            ty: self.ty,
            uuid: self.uuid@,
            start: self.start,
            end: self.end,
            name: self.name@,
        }
    }
}

impl SGptPartitionView {
    /// The 164 bytes that stand for the record on the disk.
    pub open spec fn bytes(self) -> Seq<u8> {
        u32_le(self.ty.spec_code()) + self.uuid + u64_le(self.start) + u64_le(self.end) + self.name
    }

    /// The record that the first 164 bytes of `bytes` stand for.
    pub open spec fn from_bytes(bytes: Seq<u8>) -> Self {
        SGptPartitionView {
            ty: SGptPartitionType::decode(u32_from_le(bytes.subrange(0, 4))),
            uuid: bytes.subrange(4, 20),
            start: u64_from_le(bytes.subrange(20, 28)),
            end: u64_from_le(bytes.subrange(28, 36)),
            name: bytes.subrange(36, 164),
        }
    }
}

/// Where on the disk the record with the given index starts.
pub open spec fn record_offset(index: u32) -> int {
    HEADER_SIZE * (index + 1)
}

/// Decoding the bytes of a record gives the record back, field for field.
pub proof fn lemma_record_round_trip(record: SGptPartitionView)
    requires
        record.uuid.len() == 16,
        record.name.len() == 128,
    ensures
        record.bytes().len() == 164,
        SGptPartitionView::from_bytes(record.bytes()) == record,
{
    lemma_u32_round_trip(record.ty.spec_code());
    lemma_u64_round_trip(record.start);
    lemma_u64_round_trip(record.end);
    let bytes = record.bytes();
    assert(bytes.subrange(0, 4) =~= u32_le(record.ty.spec_code()));
    assert(bytes.subrange(4, 20) =~= record.uuid);
    assert(bytes.subrange(20, 28) =~= u64_le(record.start));
    assert(bytes.subrange(28, 36) =~= u64_le(record.end));
    assert(bytes.subrange(36, 164) =~= record.name);
    assert(SGptPartitionView::from_bytes(bytes) =~= record);
}

/// A record that was written into its slot is the record that the slot then
/// holds.
pub proof fn lemma_record_written_reads_back(
    before: Seq<u8>,
    index: u32,
    record: SGptPartitionView,
)
    requires
        record.uuid.len() == 16,
        record.name.len() == 128,
        record_offset(index) + 164 <= before.len(),
    ensures
        SGptPartitionView::from_bytes(
            overwrite(before, record_offset(index), record.bytes()).subrange(
                record_offset(index),
                record_offset(index) + 164,
            ),
        ) == record,
{
    lemma_record_round_trip(record);
    let at = record_offset(index);
    assert(overwrite(before, at, record.bytes()).subrange(at, at + 164) =~= record.bytes());
}

impl SGptPartition {
    /// The place of the record with the given index, where the machine can
    /// address all of it.
    fn offset_of(index: u32) -> (offset: Option<usize>)
        ensures
            match offset {
                Some(offset) => offset == record_offset(index) && offset + 164 <= usize::MAX,
                None => record_offset(index) + 164 > usize::MAX,
            },
    {
        let offset: u64 = HEADER_SIZE as u64 * (index as u64 + 1);
        if offset > (usize::MAX - RECORD_BYTES) as u64 {
            None
        } else {
            Some(offset as usize)
        }
    }

    /// Reads the record with the given index, whatever it holds.
    pub fn read<D: Disk>(index: u32, disk: &mut D) -> (result: Result<Self, DiskError>)
        ensures
            final(disk).contents() == old(disk).contents(),
            record_offset(index) + 164 > usize::MAX ==> result is Err && result->Err_0
                == DiskError::InvalidAddress,
            match result {
                Ok(record) => {
                    &&& record_offset(index) + 164 <= old(disk).contents().len()
                    &&& record@ == SGptPartitionView::from_bytes(
                        old(disk).contents().subrange(
                            record_offset(index),
                            record_offset(index) + 164,
                        ),
                    )
                },
                Err(_) => true,
            },
    {
        let ghost contents = disk.contents();
        let ghost base = record_offset(index);
        let mut offset = match Self::offset_of(index) {
            Some(offset) => offset,
            None => {
                return Err(DiskError::InvalidAddress);
            },
        };

        let mut type_bytes = [0u8; 4];
        let moved = disk.read(offset, &mut type_bytes);
        offset = next_offset(offset, moved)?;

        let mut uuid = [0u8; 16];
        let moved = disk.read(offset, &mut uuid);
        offset = next_offset(offset, moved)?;

        let mut start_bytes = [0u8; 8];
        let moved = disk.read(offset, &mut start_bytes);
        offset = next_offset(offset, moved)?;

        let mut end_bytes = [0u8; 8];
        let moved = disk.read(offset, &mut end_bytes);
        offset = next_offset(offset, moved)?;

        let mut name = [0u8; 128];
        let moved = disk.read(offset, &mut name);
        next_offset(offset, moved)?;

        let record = Self {
            ty: SGptPartitionType::from(u32_from_le_bytes(&type_bytes)),
            uuid,
            start: u64_from_le_bytes(&start_bytes),
            end: u64_from_le_bytes(&end_bytes),
            name,
        };
        proof {
            let slot = contents.subrange(base, base + 164);
            assert(type_bytes@ =~= slot.subrange(0, 4));
            assert(uuid@ =~= slot.subrange(4, 20));
            assert(start_bytes@ =~= slot.subrange(20, 28));
            assert(end_bytes@ =~= slot.subrange(28, 36));
            assert(name@ =~= slot.subrange(36, 164));
            assert(record@ =~= SGptPartitionView::from_bytes(slot));
        }
        Ok(record)
    }

    /// Whether the slot is unused: an unused record ends at 0.
    pub fn is_empty(&self) -> (empty: bool)
        ensures
            empty == (self.end == 0),
    {
        self.end == 0
    }

    /// Writes the record into the slot with the given index, field after
    /// field.
    pub fn write<D: Disk>(&self, index: u32, disk: &mut D) -> (result: Result<(), DiskError>)
        ensures
            record_offset(index) + 164 > usize::MAX ==> {
                &&& result == Err::<(), DiskError>(DiskError::InvalidAddress)
                &&& final(disk).contents() == old(disk).contents()
            },
            match result {
                Ok(()) => {
                    &&& record_offset(index) + 164 <= old(disk).contents().len()
                    &&& final(disk).contents() == overwrite(
                        old(disk).contents(),
                        record_offset(index),
                        self@.bytes(),
                    )
                },
                Err(_) => same_outside(
                    old(disk).contents(),
                    final(disk).contents(),
                    record_offset(index),
                    164,
                ),
            },
    {
        let ghost before = disk.contents();
        let mut offset = match Self::offset_of(index) {
            Some(offset) => offset,
            None => {
                return Err(DiskError::InvalidAddress);
            },
        };

        let moved = disk.write(offset, &u32_to_le_bytes(self.ty.code()));
        offset = next_offset(offset, moved)?;
        let moved = disk.write(offset, &self.uuid);
        offset = next_offset(offset, moved)?;
        let moved = disk.write(offset, &u64_to_le_bytes(self.start));
        offset = next_offset(offset, moved)?;
        let moved = disk.write(offset, &u64_to_le_bytes(self.end));
        offset = next_offset(offset, moved)?;
        let written = disk.write(offset, &self.name);

        assert(written is Ok ==> disk.contents() =~= overwrite(
            before,
            record_offset(index),
            self@.bytes(),
        ));
        write_outcome(written)
    }
}

impl Partitionable for SGptPartition {
    open spec fn spec_start(&self) -> usize {
        self.start as usize
    }

    open spec fn spec_end(&self) -> usize {
        self.end as usize
    }

    fn start(&self) -> (start: usize) {
        self.start as usize
    }

    fn end(&self) -> (end: usize) {
        self.end as usize
    }

    fn as_partition(&self) -> (partition: Partition) {
        Partition::new(self.start(), self.end())
    }
}

/// Walks the slots of a table in their order, reading one record at each
/// step. Unused slots are handed out like the others.
pub struct SgptPartitionIterator<'d, D: Disk> {
    disk: &'d mut D,
    next: u32,
    max: u32,
}

impl<'d, D: Disk> SgptPartitionIterator<'d, D> {
    /// The index of the slot that the next step reads.
    pub closed spec fn position(&self) -> u32 {
        self.next
    }

    /// The number of slots.
    pub closed spec fn limit(&self) -> u32 {
        self.max
    }

    /// The bytes of the disk that is walked.
    pub closed spec fn contents(&self) -> Seq<u8> {
        self.disk.contents()
    }

    /// Reads the next slot, or gives `None` once every slot was read.
    pub fn next(&mut self) -> (item: Option<Result<SGptPartition, DiskError>>)
        ensures
            final(self).limit() == old(self).limit(),
            final(self).contents() == old(self).contents(),
            old(self).position() >= old(self).limit() ==> item is None && final(self).position()
                == old(self).position(),
            old(self).position() < old(self).limit() ==> {
                &&& final(self).position() == old(self).position() + 1
                &&& item is Some
                &&& record_offset(old(self).position()) + 164 > usize::MAX ==> item->Some_0
                    == Err::<SGptPartition, DiskError>(DiskError::InvalidAddress)
                &&& item->Some_0 matches Ok(record) ==> {
                    &&& record_offset(old(self).position()) + 164 <= old(self).contents().len()
                    &&& record@ == SGptPartitionView::from_bytes(
                        old(self).contents().subrange(
                            record_offset(old(self).position()),
                            record_offset(old(self).position()) + 164,
                        ),
                    )
                }
            },
    {
        if self.next >= self.max {
            return None;
        }
        let index = self.next;
        self.next = index + 1;
        Some(SGptPartition::read(index, self.disk))
    }
}

/// A fresh random identifier.
///
/// Calls `uuid::Uuid::new_v4` and hands out the sixteen bytes of what it
/// made. Nothing is said of the random bits; the claim is only what the
/// function stamps on every identifier it makes: the version 4 in the upper
/// half of byte 6 and the variant `10` in the two upper bits of byte 8.
#[verifier::external_body]
fn random_uuid() -> (bytes: [u8; 16])
    ensures
        bytes@[6] / 16 == 4,
        bytes@[8] / 64 == 2,
{
    uuid::Uuid::new_v4().into_bytes()
}

impl SGptHeader {
    /// The header of a new table with the given identifier: the signature,
    /// the size of a header, all the slots and the declared record size.
    pub fn with_uuid(uuid: [u8; 16]) -> (header: Self)
        ensures
            header.signature == SIGNATURE,
            header.header_size == HEADER_SIZE,
            header.uuid == uuid,
            header.partitions == MAX_PARTITIONS,
            header.partition_size == PARTITION_SIZE,
            header@.is_valid(),
    {
        Self {
            signature: SIGNATURE,
            header_size: HEADER_SIZE,
            uuid,
            partitions: MAX_PARTITIONS as u32,
            partition_size: PARTITION_SIZE,
        }
    }
}

impl Default for SGptHeader {
    /// The header of a new table: that of `with_uuid`, with a fresh random
    /// identifier.
    fn default() -> (header: Self)
        ensures
            header.signature == SIGNATURE,
            header.header_size == HEADER_SIZE,
            header.partitions == MAX_PARTITIONS,
            header.partition_size == PARTITION_SIZE,
            header.uuid@[6] / 16 == 4,
            header.uuid@[8] / 64 == 2,
            header@.is_valid(),
    {
        Self::with_uuid(random_uuid())
    }
}

/// The simplified partition table of a disk.
#[derive(Debug, Clone)]
pub struct SGpt {
    pub header: SGptHeader,
}

impl SGpt {
    /// Writes the table's header over the start of the disk.
    pub fn write<D: Disk>(&self, disk: &mut D) -> (result: Result<(), DiskError>)
        ensures
            match result {
                Ok(()) => {
                    &&& 36 <= old(disk).contents().len()
                    &&& final(disk).contents() == overwrite(
                        old(disk).contents(),
                        0,
                        self.header@.bytes(),
                    )
                },
                Err(_) => same_outside(old(disk).contents(), final(disk).contents(), 0, 36),
            },
    {
        self.header.write(disk)
    }

    /// The table that a header stands for, if it is the header of one.
    pub fn from_header(header: SGptHeader) -> (table: Option<Self>)
        ensures
            match table {
                Some(table) => header@.is_valid() && table.header == header,
                None => !header@.is_valid(),
            },
    {
        if header.signature != SIGNATURE {
            return None;
        }
        if header.header_size != HEADER_SIZE {
            return None;
        }
        Some(Self { header })
    }

    /// What the search for a table comes to, given what reading the header
    /// gave: a failed read is that error, a header is the table it stands
    /// for, or no table.
    pub fn parse_outcome(read: Result<SGptHeader, DiskError>) -> (outcome: Option<
        Result<Self, DiskError>,
    >)
        ensures
            match read {
                Err(error) => outcome == Some(Err::<Self, DiskError>(error)),
                Ok(header) => match outcome {
                    Some(Ok(table)) => header@.is_valid() && table.header == header,
                    Some(Err(_)) => false,
                    None => !header@.is_valid(),
                },
            },
    {
        match read {
            Err(error) => Some(Err(error)),
            Ok(header) => match Self::from_header(header) {
                Some(table) => Some(Ok(table)),
                None => None,
            },
        }
    }

    /// Looks for a table on the disk. There are three answers: the disk
    /// holds no table (`None`), the disk could not be read (`Some(Err(..))`),
    /// the table (`Some(Ok(..))`).
    pub fn try_parse<D: Disk>(disk: &mut D) -> (result: Option<Result<Self, DiskError>>)
        ensures
            final(disk).contents() == old(disk).contents(),
            match result {
                None => {
                    &&& 36 <= old(disk).contents().len()
                    &&& !SGptHeaderView::from_bytes(old(disk).contents()).is_valid()
                },
                Some(Ok(table)) => {
                    &&& 36 <= old(disk).contents().len()
                    &&& table.header@ == SGptHeaderView::from_bytes(old(disk).contents())
                    &&& table.header@.is_valid()
                },
                Some(Err(_)) => true,
            },
    {
        let read = SGptHeader::read(disk);
        Self::parse_outcome(read)
    }

    /// Starts a walk over the slots that the header counts.
    pub fn iter_partitions<'d, D: Disk>(&self, disk: &'d mut D) -> (iter: SgptPartitionIterator<
        'd,
        D,
    >)
        ensures
            iter.position() == 0,
            iter.limit() == self.header.partitions,
            iter.contents() == old(disk).contents(),
    {
        SgptPartitionIterator { disk, next: 0, max: self.header.partitions }
    }
}

impl Default for SGpt {
    /// A new table, with a fresh header.
    fn default() -> (table: Self)
        ensures
            table.header@.is_valid(),
            table.header.partitions == MAX_PARTITIONS,
            table.header.partition_size == PARTITION_SIZE,
    {
        Self { header: SGptHeader::default() }
    }
}

} // verus!
