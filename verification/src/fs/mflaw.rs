//! The MFLAW file system: how a partition is divided, and the superblock that
//! records it.
//!
//! The superblock takes the first 80 bytes of its partition: the magic byte,
//! seven bytes that are written as 0 and not read, then nine numbers of
//! eight bytes each, least significant byte first.
use super::BLOCK_SIZE;
use crate::codec::{lemma_u64_round_trip, load_u64_le, store_u64_le, u64_from_le, u64_le};
use crate::disk::{overwrite, same_outside, write_outcome, Disk, DiskError};
use crate::partitions::Partitionable;
use vstd::prelude::*;

verus! {

/// The byte that a superblock starts with.
pub const MAGIC: u8 = 0xF1;

/// The number of bytes that a superblock takes on the disk.
pub const SUPERBLOCK_SIZE: usize = 80;

/// The smallest partition that can be divided: the superblock, one block for
/// each of the two bitmaps.
pub const MIN_PARTITION_SIZE: usize = 2128;

/// How a partition is divided.
pub struct Layout {
    pub inodes: int,
    pub zones: int,
    pub inode_bitmap_blocks: int,
    pub zone_bitmap_blocks: int,
    pub data_blocks: int,
    pub inodes_size: int,
    pub zones_size: int,
    pub data_size: int,
    pub total_size: int,
}

/// The number of whole blocks behind the superblock.
pub open spec fn blocks_behind_superblock(total_size: int, block_size: int) -> int {
    (total_size - SUPERBLOCK_SIZE) / block_size
}

/// The number of blocks that a bitmap of `bits` bits takes: one bit for each
/// item, whole blocks only, and never none.
pub open spec fn bitmap_blocks(bits: int, block_size: int) -> int {
    if bits / 8 / block_size >= 1 {
        bits / 8 / block_size
    } else {
        1
    }
}

/// The division of a partition of `total_size` bytes into blocks of
/// `block_size` bytes.
pub open spec fn layout(total_size: int, block_size: int) -> Layout {
    let blocks = blocks_behind_superblock(total_size, block_size);
    let inodes = blocks - 1;
    let inode_bitmap_blocks = bitmap_blocks(inodes, block_size);
    let zones = blocks - inode_bitmap_blocks + 1;
    let zone_bitmap_blocks = bitmap_blocks(zones, block_size);
    Layout {
        inodes,
        zones,
        inode_bitmap_blocks,
        zone_bitmap_blocks,
        data_blocks: blocks - (inode_bitmap_blocks + zone_bitmap_blocks),
        inodes_size: inodes / 8,
        zones_size: zones / 8,
        data_size: total_size - SUPERBLOCK_SIZE - (inode_bitmap_blocks + zone_bitmap_blocks)
            * block_size,
        total_size,
    }
}

/// In every division both bitmaps take at least one block, and the bitmaps
/// and the data together take exactly the blocks behind the superblock: no
/// block is counted twice and none is lost. Where the partition holds at
/// least two blocks behind the superblock, no count is negative.
pub proof fn lemma_layout_accounts_for_every_block(total_size: int, block_size: int)
    requires
        block_size >= 1,
    ensures
        layout(total_size, block_size).inode_bitmap_blocks >= 1,
        layout(total_size, block_size).zone_bitmap_blocks >= 1,
        layout(total_size, block_size).data_blocks + layout(
            total_size,
            block_size,
        ).inode_bitmap_blocks + layout(total_size, block_size).zone_bitmap_blocks
            == blocks_behind_superblock(total_size, block_size),
        blocks_behind_superblock(total_size, block_size) >= 2 ==> {
            &&& layout(total_size, block_size).inodes >= 1
            &&& layout(total_size, block_size).zones >= 2
            &&& layout(total_size, block_size).data_blocks >= 0
            &&& layout(total_size, block_size).data_size >= 0
        },
{
    let blocks = blocks_behind_superblock(total_size, block_size);
    let l = layout(total_size, block_size);
    if blocks >= 2 {
        lemma_bitmap_is_small(blocks - 1, block_size);
        lemma_bitmap_is_small(l.zones, block_size);
        assert(blocks * block_size <= total_size - SUPERBLOCK_SIZE) by (nonlinear_arith)
            requires
                blocks == (total_size - SUPERBLOCK_SIZE) / block_size,
                block_size >= 1,
        ;
        assert((l.inode_bitmap_blocks + l.zone_bitmap_blocks) * block_size <= blocks * block_size)
            by (nonlinear_arith)
            requires
                l.inode_bitmap_blocks + l.zone_bitmap_blocks <= blocks,
                block_size >= 1,
        ;
    }
}

/// A bitmap of at most `bits` bits takes at most `bits / 8` blocks, or one.
proof fn lemma_bitmap_is_small(bits: int, block_size: int)
    requires
        bits >= 1,
        block_size >= 1,
    ensures
        1 <= bitmap_blocks(bits, block_size),
        bitmap_blocks(bits, block_size) <= 1 || 8 * bitmap_blocks(bits, block_size) <= bits,
{
    let bytes = bits / 8;
    assert(bytes / block_size <= bytes) by (nonlinear_arith)
        requires
            bytes >= 0,
            block_size >= 1,
    ;
}

/// The superblock: the magic byte and the division of the partition.
#[derive(Debug, Clone)]
pub struct MFlawSuperblock {
    pub magic: u8,
    pub inodes: usize,
    pub zones: usize,
    pub inode_bitmap_blocks: usize,
    pub zone_bitmap_blocks: usize,
    pub data_blocks: usize,
    pub inodes_size: usize,
    pub zones_size: usize,
    pub data_size: usize,
    pub total_size: usize,
}

impl MFlawSuperblock {
    /// The division that the superblock records.
    pub open spec fn layout(&self) -> Layout {
        Layout {
            inodes: self.inodes as int,
            zones: self.zones as int,
            inode_bitmap_blocks: self.inode_bitmap_blocks as int,
            zone_bitmap_blocks: self.zone_bitmap_blocks as int,
            data_blocks: self.data_blocks as int,
            inodes_size: self.inodes_size as int,
            zones_size: self.zones_size as int,
            data_size: self.data_size as int,
            total_size: self.total_size as int,
        }
    }

    /// The 80 bytes that stand for the superblock on the disk.
    pub open spec fn bytes(&self) -> Seq<u8> {
        seq![self.magic, 0u8, 0u8, 0u8, 0u8, 0u8, 0u8, 0u8] + u64_le(self.inodes as u64) + u64_le(
            self.zones as u64,
        ) + u64_le(self.inode_bitmap_blocks as u64) + u64_le(self.zone_bitmap_blocks as u64)
            + u64_le(self.data_blocks as u64) + u64_le(self.inodes_size as u64) + u64_le(
            self.zones_size as u64,
        ) + u64_le(self.data_size as u64) + u64_le(self.total_size as u64)
    }

    /// The superblock that the first 80 bytes of `bytes` stand for, whatever
    /// its magic byte.
    pub open spec fn from_bytes(bytes: Seq<u8>) -> Self {
        MFlawSuperblock {
            magic: bytes[0],
            inodes: u64_from_le(bytes.subrange(8, 16)) as usize,
            zones: u64_from_le(bytes.subrange(16, 24)) as usize,
            inode_bitmap_blocks: u64_from_le(bytes.subrange(24, 32)) as usize,
            zone_bitmap_blocks: u64_from_le(bytes.subrange(32, 40)) as usize,
            data_blocks: u64_from_le(bytes.subrange(40, 48)) as usize,
            inodes_size: u64_from_le(bytes.subrange(48, 56)) as usize,
            zones_size: u64_from_le(bytes.subrange(56, 64)) as usize,
            data_size: u64_from_le(bytes.subrange(64, 72)) as usize,
            total_size: u64_from_le(bytes.subrange(72, 80)) as usize,
        }
    }

    /// The superblock of a partition: the magic byte and the division of the
    /// partition's size into blocks of `BLOCK_SIZE` bytes.
    pub fn new<P: Partitionable>(partition: &P) -> (superblock: Self)
        requires
            partition.spec_end() - partition.spec_start() >= MIN_PARTITION_SIZE,
        ensures
            superblock.magic == MAGIC,
            superblock.layout() == layout(
                partition.spec_end() - partition.spec_start(),
                BLOCK_SIZE as int,
            ),
    {
        let total_size = partition.end() - partition.start();
        proof {
            lemma_layout_accounts_for_every_block(total_size as int, BLOCK_SIZE as int);
        }
        let data_size = total_size - SUPERBLOCK_SIZE;
        let data_blocks_count = data_size / BLOCK_SIZE;

        let inodes = data_blocks_count - 1;
        let inodes_size = inodes / 8;
        let inode_bitmap_blocks = if inodes / 8 / BLOCK_SIZE >= 1 {
            inodes / 8 / BLOCK_SIZE
        } else {
            1
        };

        let zones = data_blocks_count - inode_bitmap_blocks + 1;
        let zones_size = zones / 8;
        let zone_bitmap_blocks = if zones / 8 / BLOCK_SIZE >= 1 {
            zones / 8 / BLOCK_SIZE
        } else {
            1
        };

        let data_blocks = data_blocks_count - (inode_bitmap_blocks + zone_bitmap_blocks);
        let data_size = data_size - ((inode_bitmap_blocks + zone_bitmap_blocks) * BLOCK_SIZE);

        Self {
            magic: MAGIC,
            inodes,
            zones,
            inode_bitmap_blocks,
            zone_bitmap_blocks,
            data_blocks,
            inodes_size,
            zones_size,
            data_size,
            total_size,
        }
    }
}

/// Two superblocks of partitions of one size are the same, field for field.
pub proof fn lemma_same_size_same_superblock(
    first: MFlawSuperblock,
    second: MFlawSuperblock,
    total_size: int,
    block_size: int,
)
    requires
        first.magic == MAGIC,
        second.magic == MAGIC,
        first.layout() == layout(total_size, block_size),
        second.layout() == layout(total_size, block_size),
    ensures
        first == second,
{
}

/// Ten fields of eight bytes each, laid end to end, are found again at
/// their places.
proof fn lemma_ten_fields(head: Seq<u8>, fields: Seq<Seq<u8>>)
    requires
        head.len() == 8,
        fields.len() == 9,
        forall|k: int| 0 <= k < 9 ==> (#[trigger] fields[k]).len() == 8,
    ensures
        ({
            let all = head + fields[0] + fields[1] + fields[2] + fields[3] + fields[4] + fields[5]
                + fields[6] + fields[7] + fields[8];
            &&& all.len() == 80
            &&& all[0] == head[0]
            &&& all.subrange(8, 16) == fields[0]
            &&& all.subrange(16, 24) == fields[1]
            &&& all.subrange(24, 32) == fields[2]
            &&& all.subrange(32, 40) == fields[3]
            &&& all.subrange(40, 48) == fields[4]
            &&& all.subrange(48, 56) == fields[5]
            &&& all.subrange(56, 64) == fields[6]
            &&& all.subrange(64, 72) == fields[7]
            &&& all.subrange(72, 80) == fields[8]
        }),
{
    let all = head + fields[0] + fields[1] + fields[2] + fields[3] + fields[4] + fields[5]
        + fields[6] + fields[7] + fields[8];
    assert(fields[0].len() == 8 && fields[1].len() == 8 && fields[2].len() == 8);
    assert(fields[3].len() == 8 && fields[4].len() == 8 && fields[5].len() == 8);
    assert(fields[6].len() == 8 && fields[7].len() == 8 && fields[8].len() == 8);
    assert(all.subrange(8, 16) =~= fields[0]);
    assert(all.subrange(16, 24) =~= fields[1]);
    assert(all.subrange(24, 32) =~= fields[2]);
    assert(all.subrange(32, 40) =~= fields[3]);
    assert(all.subrange(40, 48) =~= fields[4]);
    assert(all.subrange(48, 56) =~= fields[5]);
    assert(all.subrange(56, 64) =~= fields[6]);
    assert(all.subrange(64, 72) =~= fields[7]);
    assert(all.subrange(72, 80) =~= fields[8]);
}

/// Decoding the bytes of a superblock gives the superblock back, field for
/// field.
pub proof fn lemma_superblock_round_trip(superblock: MFlawSuperblock)
    ensures
        superblock.bytes().len() == 80,
        MFlawSuperblock::from_bytes(superblock.bytes()) == superblock,
{
    lemma_u64_round_trip(superblock.inodes as u64);
    lemma_u64_round_trip(superblock.zones as u64);
    lemma_u64_round_trip(superblock.inode_bitmap_blocks as u64);
    lemma_u64_round_trip(superblock.zone_bitmap_blocks as u64);
    lemma_u64_round_trip(superblock.data_blocks as u64);
    lemma_u64_round_trip(superblock.inodes_size as u64);
    lemma_u64_round_trip(superblock.zones_size as u64);
    lemma_u64_round_trip(superblock.data_size as u64);
    lemma_u64_round_trip(superblock.total_size as u64);
    lemma_ten_fields(
        seq![superblock.magic, 0u8, 0u8, 0u8, 0u8, 0u8, 0u8, 0u8],
        seq![
            u64_le(superblock.inodes as u64),
            u64_le(superblock.zones as u64),
            u64_le(superblock.inode_bitmap_blocks as u64),
            u64_le(superblock.zone_bitmap_blocks as u64),
            u64_le(superblock.data_blocks as u64),
            u64_le(superblock.inodes_size as u64),
            u64_le(superblock.zones_size as u64),
            u64_le(superblock.data_size as u64),
            u64_le(superblock.total_size as u64),
        ],
    );
}

/// A superblock that was written at the start of a partition is the
/// superblock that the partition then holds.
pub proof fn lemma_superblock_written_reads_back(
    before: Seq<u8>,
    start: int,
    superblock: MFlawSuperblock,
)
    requires
        0 <= start,
        start + 80 <= before.len(),
    ensures
        MFlawSuperblock::from_bytes(
            overwrite(before, start, superblock.bytes()).subrange(start, start + 80),
        ) == superblock,
{
    lemma_superblock_round_trip(superblock);
    assert(overwrite(before, start, superblock.bytes()).subrange(start, start + 80)
        =~= superblock.bytes());
}

/// Bytes that do not start with the magic byte stand for no superblock.
pub proof fn lemma_foreign_bytes_are_no_superblock(bytes: Seq<u8>)
    requires
        bytes.len() >= 80,
        bytes[0] != MAGIC,
    ensures
        MFlawSuperblock::from_bytes(bytes).magic != MAGIC,
{
}

impl MFlawSuperblock {
    /// The bytes that stand for the superblock on the disk.
    pub fn to_bytes(&self) -> (bytes: [u8; 80])
        ensures
            bytes@ == self.bytes(),
    {
        let mut bytes = [0u8; 80];
        bytes[0] = self.magic;
        store_u64_le(&mut bytes, 8, self.inodes as u64);
        store_u64_le(&mut bytes, 16, self.zones as u64);
        store_u64_le(&mut bytes, 24, self.inode_bitmap_blocks as u64);
        store_u64_le(&mut bytes, 32, self.zone_bitmap_blocks as u64);
        store_u64_le(&mut bytes, 40, self.data_blocks as u64);
        store_u64_le(&mut bytes, 48, self.inodes_size as u64);
        store_u64_le(&mut bytes, 56, self.zones_size as u64);
        store_u64_le(&mut bytes, 64, self.data_size as u64);
        store_u64_le(&mut bytes, 72, self.total_size as u64);
        proof {
            let model = self.bytes();
            assert(model.len() == 80);
            assert forall|i: int| 0 <= i < 80 implies bytes@[i] == model[i] by {
                if 8 <= i < 16 {
                    assert(bytes@.subrange(8, 16)[i - 8] == bytes@[i]);
                } else if 16 <= i < 24 {
                    assert(bytes@.subrange(16, 24)[i - 16] == bytes@[i]);
                } else if 24 <= i < 32 {
                    assert(bytes@.subrange(24, 32)[i - 24] == bytes@[i]);
                } else if 32 <= i < 40 {
                    assert(bytes@.subrange(32, 40)[i - 32] == bytes@[i]);
                } else if 40 <= i < 48 {
                    assert(bytes@.subrange(40, 48)[i - 40] == bytes@[i]);
                } else if 48 <= i < 56 {
                    assert(bytes@.subrange(48, 56)[i - 48] == bytes@[i]);
                } else if 56 <= i < 64 {
                    assert(bytes@.subrange(56, 64)[i - 56] == bytes@[i]);
                } else if 64 <= i < 72 {
                    assert(bytes@.subrange(64, 72)[i - 64] == bytes@[i]);
                } else if 72 <= i < 80 {
                    assert(bytes@.subrange(72, 80)[i - 72] == bytes@[i]);
                }
            }
            assert(bytes@ =~= model);
        }
        bytes
    }

    /// The superblock that 80 bytes stand for, or `None` where they do not
    /// start with the magic byte.
    pub fn from_block(bytes: &[u8; 80]) -> (superblock: Option<Self>)
        ensures
            match superblock {
                Some(superblock) => bytes@[0] == MAGIC && superblock == Self::from_bytes(bytes@),
                None => bytes@[0] != MAGIC,
            },
    {
        if bytes[0] != MAGIC {
            return None;
        }
        Some(
            Self {
                magic: bytes[0],
                inodes: load_u64_le(bytes, 8) as usize,
                zones: load_u64_le(bytes, 16) as usize,
                inode_bitmap_blocks: load_u64_le(bytes, 24) as usize,
                zone_bitmap_blocks: load_u64_le(bytes, 32) as usize,
                data_blocks: load_u64_le(bytes, 40) as usize,
                inodes_size: load_u64_le(bytes, 48) as usize,
                zones_size: load_u64_le(bytes, 56) as usize,
                data_size: load_u64_le(bytes, 64) as usize,
                total_size: load_u64_le(bytes, 72) as usize,
            },
        )
    }
}

impl MFlawSuperblock {
    /// What the search for a superblock comes to, given what the read gave
    /// and the block it filled: a failed read is that error, a block is the
    /// superblock it stands for, or none.
    pub fn parse_outcome(read: Result<usize, DiskError>, block: &[u8; 80]) -> (outcome: Option<
        Result<Self, DiskError>,
    >)
        ensures
            match read {
                Err(error) => outcome == Some(Err::<Self, DiskError>(error)),
                Ok(_) => match outcome {
                    Some(Ok(superblock)) => block@[0] == MAGIC && superblock == Self::from_bytes(
                        block@,
                    ),
                    Some(Err(_)) => false,
                    None => block@[0] != MAGIC,
                },
            },
    {
        match read {
            Err(error) => Some(Err(error)),
            Ok(_) => match Self::from_block(block) {
                Some(superblock) => Some(Ok(superblock)),
                None => None,
            },
        }
    }

    /// Looks for a superblock at the start of the partition. There are three
    /// answers: the partition holds no file system (`None`), the disk could
    /// not be read (`Some(Err(..))`), the superblock (`Some(Ok(..))`).
    pub fn try_parse<D: Disk, P: Partitionable>(disk: &mut D, partition: &P) -> (result: Option<
        Result<Self, DiskError>,
    >)
        ensures
            final(disk).contents() == old(disk).contents(),
            match result {
                None => {
                    &&& partition.spec_start() + 80 <= old(disk).contents().len()
                    &&& old(disk).contents()[partition.spec_start() as int] != MAGIC
                },
                Some(Ok(superblock)) => {
                    &&& partition.spec_start() + 80 <= old(disk).contents().len()
                    &&& old(disk).contents()[partition.spec_start() as int] == MAGIC
                    &&& superblock == Self::from_bytes(
                        old(disk).contents().subrange(
                            partition.spec_start() as int,
                            partition.spec_start() + 80,
                        ),
                    )
                },
                Some(Err(_)) => true,
            },
    {
        let mut bytes = [0u8; 80];
        let read = disk.read(partition.start(), &mut bytes);
        assert(read is Ok ==> bytes@ =~= old(disk).contents().subrange(
            partition.spec_start() as int,
            partition.spec_start() + 80,
        ));
        Self::parse_outcome(read, &bytes)
    }

    /// Writes the superblock at the start of the partition.
    pub fn write<D: Disk, P: Partitionable>(&self, disk: &mut D, partition: &P) -> (result: Result<
        (),
        DiskError,
    >)
        ensures
            match result {
                Ok(()) => {
                    &&& partition.spec_start() + 80 <= old(disk).contents().len()
                    &&& final(disk).contents() == overwrite(
                        old(disk).contents(),
                        partition.spec_start() as int,
                        self.bytes(),
                    )
                },
                Err(_) => same_outside(
                    old(disk).contents(),
                    final(disk).contents(),
                    partition.spec_start() as int,
                    80,
                ),
            },
    {
        let bytes = self.to_bytes();
        let written = disk.write(partition.start(), &bytes);
        write_outcome(written)
    }
}

/// The MFLAW file system of a partition.
#[derive(Debug)]
pub struct MFlaw {
    superblock: MFlawSuperblock,
}

impl MFlaw {
    /// The superblock of the file system.
    pub closed spec fn spec_superblock(&self) -> MFlawSuperblock {
        self.superblock
    }

    /// A new file system that fills the partition.
    pub fn new<P: Partitionable>(partition: &P) -> (fs: Self)
        requires
            partition.spec_end() - partition.spec_start() >= MIN_PARTITION_SIZE,
        ensures
            fs.spec_superblock().magic == MAGIC,
            fs.spec_superblock().layout() == layout(
                partition.spec_end() - partition.spec_start(),
                BLOCK_SIZE as int,
            ),
    {
        let superblock = MFlawSuperblock::new(partition);

        Self { superblock }
    }

    /// The file system that the search for a superblock comes to: the three
    /// answers stay what they are.
    pub fn from_outcome(found: Option<Result<MFlawSuperblock, DiskError>>) -> (outcome: Option<
        Result<Self, DiskError>,
    >)
        ensures
            match found {
                None => outcome is None,
                Some(Err(error)) => outcome == Some(Err::<Self, DiskError>(error)),
                Some(Ok(superblock)) => outcome matches Some(Ok(fs)) && fs.spec_superblock()
                    == superblock,
            },
    {
        match found {
            None => None,
            Some(Err(error)) => Some(Err(error)),
            Some(Ok(superblock)) => Some(Ok(Self { superblock })),
        }
    }

    /// Looks for a file system in the partition, with the three answers of
    /// `MFlawSuperblock::try_parse`.
    pub fn try_parse<D: Disk, P: Partitionable>(disk: &mut D, partition: &P) -> (result: Option<
        Result<Self, DiskError>,
    >)
        ensures
            final(disk).contents() == old(disk).contents(),
            match result {
                None => {
                    &&& partition.spec_start() + 80 <= old(disk).contents().len()
                    &&& old(disk).contents()[partition.spec_start() as int] != MAGIC
                },
                Some(Ok(fs)) => {
                    &&& partition.spec_start() + 80 <= old(disk).contents().len()
                    &&& old(disk).contents()[partition.spec_start() as int] == MAGIC
                    &&& fs.spec_superblock() == MFlawSuperblock::from_bytes(
                        old(disk).contents().subrange(
                            partition.spec_start() as int,
                            partition.spec_start() + 80,
                        ),
                    )
                },
                Some(Err(_)) => true,
            },
    {
        let found = MFlawSuperblock::try_parse(disk, partition);
        Self::from_outcome(found)
    }

    /// Writes the file system's superblock at the start of the partition.
    pub fn write<D: Disk, P: Partitionable>(&self, disk: &mut D, partition: &P) -> (result: Result<
        (),
        DiskError,
    >)
        ensures
            match result {
                Ok(()) => {
                    &&& partition.spec_start() + 80 <= old(disk).contents().len()
                    &&& final(disk).contents() == overwrite(
                        old(disk).contents(),
                        partition.spec_start() as int,
                        self.spec_superblock().bytes(),
                    )
                },
                Err(_) => same_outside(
                    old(disk).contents(),
                    final(disk).contents(),
                    partition.spec_start() as int,
                    80,
                ),
            },
    {
        self.superblock.write(disk, partition)
    }

    pub fn superblock(&self) -> (superblock: &MFlawSuperblock)
        ensures
            *superblock == self.spec_superblock(),
    {
        &self.superblock
    }
}

/// A block of the bitmap or data region, known by its index and its address
/// on the disk.
#[derive(Debug, Clone, Copy)]
pub struct MFlawBlock {
    index: usize,
    address: usize,
}

impl MFlawBlock {
    pub closed spec fn spec_index(&self) -> usize {
        self.index
    }

    pub closed spec fn spec_address(&self) -> usize {
        self.address
    }

    pub fn new(index: usize, address: usize) -> (block: Self)
        ensures
            block.spec_index() == index,
            block.spec_address() == address,
    {
        Self { index, address }
    }

    pub fn index(&self) -> (index: usize)
        ensures
            index == self.spec_index(),
    {
        self.index
    }

    pub fn address(&self) -> (address: usize)
        ensures
            address == self.spec_address(),
    {
        self.address
    }
}

} // verus!
