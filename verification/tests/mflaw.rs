use devkit::disk::backend::RamBackend;
use devkit::disk::{next_offset, write_outcome, Disk, DiskError, FloppyDisk, HddDisk};
use devkit::fs::mflaw::{MFlaw, MFlawBlock, MFlawSuperblock, MAGIC, SUPERBLOCK_SIZE};
use devkit::fs::BLOCK_SIZE;
use devkit::partitions::Partition;

#[test]
fn one_mebibyte_partition_layout() {
    assert_eq!(BLOCK_SIZE, 1024);
    let superblock = MFlawSuperblock::new(&Partition::new(0, 1_048_576));
    assert_eq!(superblock.magic, 0xF1);
    assert_eq!(superblock.inodes, 1022);
    assert_eq!(superblock.zones, 1023);
    assert_eq!(superblock.inode_bitmap_blocks, 1);
    assert_eq!(superblock.zone_bitmap_blocks, 1);
    assert_eq!(superblock.data_blocks, 1021);
    assert_eq!(superblock.inodes_size, 127);
    assert_eq!(superblock.zones_size, 127);
    assert_eq!(superblock.data_size, 1_046_448);
    assert_eq!(superblock.total_size, 1_048_576);
}

#[test]
fn layout_depends_on_the_size_alone() {
    let first = MFlawSuperblock::new(&Partition::new(0, 5_000_000));
    let second = MFlawSuperblock::new(&Partition::new(777, 5_000_777));
    assert_eq!(first.to_bytes(), second.to_bytes());
}

#[test]
fn smallest_partition_has_no_data_block() {
    let superblock = MFlawSuperblock::new(&Partition::new(100, 100 + 2128));
    assert_eq!(superblock.inodes, 1);
    assert_eq!(superblock.zones, 2);
    assert_eq!(superblock.inode_bitmap_blocks, 1);
    assert_eq!(superblock.zone_bitmap_blocks, 1);
    assert_eq!(superblock.data_blocks, 0);
    assert_eq!(superblock.data_size, 0);
}

#[test]
fn large_partition_needs_more_bitmap_blocks() {
    // 80 + 20_000 blocks: 19_999 inodes, 2 blocks of inode bitmap.
    let total = 80 + 20_000 * 1024;
    let superblock = MFlawSuperblock::new(&Partition::new(0, total));
    assert_eq!(superblock.inodes, 19_999);
    assert_eq!(superblock.inode_bitmap_blocks, 2);
    assert_eq!(superblock.zones, 19_999);
    assert_eq!(superblock.zone_bitmap_blocks, 2);
    assert_eq!(superblock.data_blocks, 19_996);
    assert_eq!(
        superblock.data_blocks + superblock.inode_bitmap_blocks + superblock.zone_bitmap_blocks,
        20_000
    );
    assert_eq!(superblock.data_size, total - 80 - 4 * 1024);
}

#[test]
fn superblock_bytes_are_little_endian_fields() {
    let superblock = MFlawSuperblock::new(&Partition::new(0, 1_048_576));
    let bytes = superblock.to_bytes();
    assert_eq!(bytes.len(), SUPERBLOCK_SIZE);
    assert_eq!(bytes[0], MAGIC);
    assert_eq!(&bytes[1..8], &[0u8; 7]);
    assert_eq!(&bytes[8..16], &1022u64.to_le_bytes());
    assert_eq!(&bytes[16..24], &1023u64.to_le_bytes());
    assert_eq!(&bytes[24..32], &1u64.to_le_bytes());
    assert_eq!(&bytes[32..40], &1u64.to_le_bytes());
    assert_eq!(&bytes[40..48], &1021u64.to_le_bytes());
    assert_eq!(&bytes[48..56], &127u64.to_le_bytes());
    assert_eq!(&bytes[56..64], &127u64.to_le_bytes());
    assert_eq!(&bytes[64..72], &1_046_448u64.to_le_bytes());
    assert_eq!(&bytes[72..80], &1_048_576u64.to_le_bytes());
}

#[test]
fn superblock_block_round_trip() {
    let superblock = MFlawSuperblock {
        magic: MAGIC,
        inodes: 1,
        zones: 0x0102_0304,
        inode_bitmap_blocks: 3,
        zone_bitmap_blocks: 4,
        data_blocks: 5,
        inodes_size: 6,
        zones_size: 7,
        data_size: usize::MAX,
        total_size: 9,
    };
    let back = MFlawSuperblock::from_block(&superblock.to_bytes()).unwrap();
    assert_eq!(back.to_bytes(), superblock.to_bytes());
    assert_eq!(back.zones, 0x0102_0304);
    assert_eq!(back.data_size, usize::MAX);
}

#[test]
fn block_without_magic_is_no_superblock() {
    let mut bytes = MFlawSuperblock::new(&Partition::new(0, 4096)).to_bytes();
    bytes[0] = 0xF0;
    assert!(MFlawSuperblock::from_block(&bytes).is_none());
    assert!(MFlawSuperblock::from_block(&[0u8; 80]).is_none());
}

#[test]
fn superblock_round_trip_on_a_disk() {
    let mut disk = HddDisk::new(RamBackend::new(100_000, 65_536));
    let partition = Partition::new(4_000, 90_000);
    let superblock = MFlawSuperblock::new(&partition);
    assert_eq!(superblock.write(&mut disk, &partition), Ok(()));
    let back = MFlawSuperblock::try_parse(&mut disk, &partition).unwrap().unwrap();
    assert_eq!(back.magic, superblock.magic);
    assert_eq!(back.inodes, superblock.inodes);
    assert_eq!(back.zones, superblock.zones);
    assert_eq!(back.inode_bitmap_blocks, superblock.inode_bitmap_blocks);
    assert_eq!(back.zone_bitmap_blocks, superblock.zone_bitmap_blocks);
    assert_eq!(back.data_blocks, superblock.data_blocks);
    assert_eq!(back.inodes_size, superblock.inodes_size);
    assert_eq!(back.zones_size, superblock.zones_size);
    assert_eq!(back.data_size, superblock.data_size);
    assert_eq!(back.total_size, 86_000);
    let mut first = [0u8; 1];
    assert_eq!(disk.read(4_000, &mut first), Ok(1));
    assert_eq!(first[0], 0xF1);
}

#[test]
fn file_system_round_trip_on_a_whole_disk() {
    let mut disk = HddDisk::new(RamBackend::new(50_000, 65_536));
    let whole = Partition::new(0, 50_000);
    let fs = MFlaw::new(&whole);
    assert_eq!(fs.superblock().total_size, 50_000);
    assert_eq!(fs.write(&mut disk, &whole), Ok(()));
    let back = MFlaw::try_parse(&mut disk, &whole).unwrap().unwrap();
    assert_eq!(back.superblock().to_bytes(), fs.superblock().to_bytes());
}

#[test]
fn partition_without_magic_holds_no_file_system() {
    let mut disk = HddDisk::new(RamBackend::new(10_000, 65_536));
    let partition = Partition::new(0, 10_000);
    assert!(MFlawSuperblock::try_parse(&mut disk, &partition).is_none());
    assert!(MFlaw::try_parse(&mut disk, &partition).is_none());
    assert_eq!(disk.write(0, &[0xF2]), Ok(1));
    assert!(MFlaw::try_parse(&mut disk, &partition).is_none());
}

#[test]
fn unreadable_partition_is_an_error_not_an_absence() {
    let mut disk = HddDisk::new(RamBackend::new(10_000, 65_536));
    let beyond = Partition::new(9_990, 20_000);
    match MFlawSuperblock::try_parse(&mut disk, &beyond) {
        Some(Err(error)) => assert_eq!(error, DiskError::InvalidAddress),
        _ => panic!("expected a read error"),
    }
    assert_eq!(
        MFlawSuperblock::new(&Partition::new(0, 4096)).write(&mut disk, &beyond),
        Err(DiskError::InvalidAddress)
    );
    let mut drive = RamBackend::new(10_000, 65_536);
    drive.set_fault(Some(-9));
    let mut broken = HddDisk::new(drive);
    match MFlaw::try_parse(&mut broken, &Partition::new(0, 10_000)) {
        Some(Err(error)) => assert_eq!(error, DiskError::Unknown),
        _ => panic!("expected a read error"),
    }
}

#[test]
fn block_keeps_index_and_address() {
    let block = MFlawBlock::new(3, 0x1234);
    assert_eq!(block.index(), 3);
    assert_eq!(block.address(), 0x1234);
}

#[test]
fn write_outcome_hands_the_error_on() {
    assert_eq!(write_outcome(Ok(80)), Ok(()));
    assert_eq!(write_outcome(Ok(0)), Ok(()));
    for error in [
        DiskError::InvalidAddress,
        DiskError::InvalidSize,
        DiskError::DiskIsMissing,
        DiskError::Unknown,
    ] {
        assert_eq!(write_outcome(Err(error)), Err(error));
    }
}

#[test]
fn superblock_parse_outcome_keeps_the_three_answers_apart() {
    let block = MFlawSuperblock::new(&Partition::new(0, 1_048_576)).to_bytes();
    for error in [
        DiskError::InvalidAddress,
        DiskError::InvalidSize,
        DiskError::DiskIsMissing,
        DiskError::Unknown,
    ] {
        match MFlawSuperblock::parse_outcome(Err(error), &block) {
            Some(Err(found)) => assert_eq!(found, error),
            _ => panic!("expected the read's error"),
        }
        match MFlaw::from_outcome(Some(Err(error))) {
            Some(Err(found)) => assert_eq!(found, error),
            _ => panic!("expected the read's error"),
        }
    }
    let found = MFlawSuperblock::parse_outcome(Ok(80), &block).unwrap().unwrap();
    assert_eq!(found.inodes, 1022);
    assert!(MFlawSuperblock::parse_outcome(Ok(80), &[0u8; 80]).is_none());
    assert!(MFlaw::from_outcome(None).is_none());
    let fs = MFlaw::from_outcome(Some(Ok(found))).unwrap().unwrap();
    assert_eq!(fs.superblock().zones, 1023);
}

#[test]
fn failed_superblock_transfers_hand_the_disk_error_on() {
    let partition = Partition::new(0, 10_000);
    for (code, error) in [
        (-1, DiskError::InvalidAddress),
        (-2, DiskError::InvalidSize),
        (-3, DiskError::DiskIsMissing),
        (-4, DiskError::Unknown),
    ] {
        let mut drive = RamBackend::new(10_000, 65_536);
        drive.set_fault(Some(code));
        let mut disk = FloppyDisk::new(drive);
        assert_eq!(MFlawSuperblock::new(&partition).write(&mut disk, &partition), Err(error));
        assert_eq!(MFlaw::new(&partition).write(&mut disk, &partition), Err(error));
        match MFlawSuperblock::try_parse(&mut disk, &partition) {
            Some(Err(found)) => assert_eq!(found, error),
            _ => panic!("expected the read's error"),
        }
        match MFlaw::try_parse(&mut disk, &partition) {
            Some(Err(found)) => assert_eq!(found, error),
            _ => panic!("expected the read's error"),
        }
    }
}

#[test]
fn next_offset_lies_behind_what_was_moved() {
    assert_eq!(next_offset(0, Ok(8)), Ok(8));
    assert_eq!(next_offset(12, Ok(16)), Ok(28));
    assert_eq!(next_offset(40, Ok(0)), Ok(40));
    for error in [
        DiskError::InvalidAddress,
        DiskError::InvalidSize,
        DiskError::DiskIsMissing,
        DiskError::Unknown,
    ] {
        assert_eq!(next_offset(12, Err(error)), Err(error));
    }
}
