use devkit::disk::backend::RamBackend;
use devkit::disk::{Disk, DiskError, FloppyDisk, HddDisk};
use devkit::partitions::sgpt::{
    SGpt, SGptHeader, SGptPartition, SGptPartitionType, HEADER_BYTES, HEADER_SIZE, PARTITION_SIZE,
    RECORD_BYTES, SIGNATURE,
};
use devkit::partitions::{Partitionable, MAX_PARTITIONS};

fn disk(size: u32) -> HddDisk<RamBackend> {
    HddDisk::new(RamBackend::new(size, 65_536))
}

fn sample_uuid() -> [u8; 16] {
    [
        0xa1, 0xa2, 0xa3, 0xa4, 0xb1, 0xb2, 0xc1, 0xc2, 0xd1, 0xd2, 0xd3, 0xd4, 0xd5, 0xd6, 0xd7,
        0xd8,
    ]
}

fn sample_record() -> SGptPartition {
    let mut name = [0u8; 128];
    name[..4].copy_from_slice(b"boot");
    name[127] = 0x7f;
    SGptPartition {
        ty: SGptPartitionType::Boot,
        uuid: sample_uuid(),
        start: 0x0102_0304_0506_0708,
        end: 0x1112_1314_1516_1718,
        name,
    }
}

#[test]
fn signature_is_efi_part_in_little_endian() {
    assert_eq!(SIGNATURE, u64::from_le_bytes(*b"EFI PART"));
    assert_eq!(HEADER_SIZE, 40);
    assert_eq!(HEADER_BYTES, 36);
    assert_eq!(RECORD_BYTES, 164);
    assert_eq!(MAX_PARTITIONS, 32);
}

#[test]
fn header_lands_on_the_disk_field_by_field() {
    let mut disk = disk(4096);
    let header = SGptHeader {
        signature: SIGNATURE,
        header_size: 40,
        uuid: sample_uuid(),
        partitions: 0x0a0b_0c0d,
        partition_size: 128,
    };
    assert_eq!(header.write(&mut disk), Ok(()));
    let mut raw = [0u8; 37];
    assert_eq!(disk.read(0, &mut raw), Ok(37));
    assert_eq!(&raw[0..8], b"EFI PART");
    assert_eq!(&raw[8..12], &[40, 0, 0, 0]);
    assert_eq!(&raw[12..28], &sample_uuid());
    assert_eq!(&raw[28..32], &[0x0d, 0x0c, 0x0b, 0x0a]);
    assert_eq!(&raw[32..36], &[128, 0, 0, 0]);
    assert_eq!(raw[36], 0);
    assert_eq!(disk.into_inner().served(), 6);
}

#[test]
fn header_round_trip() {
    let mut disk = disk(4096);
    let header = SGptHeader {
        signature: 0xdead_beef_0bad_f00d,
        header_size: 7,
        uuid: sample_uuid(),
        partitions: u32::MAX,
        partition_size: 0,
    };
    assert_eq!(header.write(&mut disk), Ok(()));
    let back = SGptHeader::read(&mut disk).unwrap();
    assert_eq!(back.signature, header.signature);
    assert_eq!(back.header_size, header.header_size);
    assert_eq!(back.uuid, header.uuid);
    assert_eq!(back.partitions, header.partitions);
    assert_eq!(back.partition_size, header.partition_size);
    assert!(!back.is_valid());
}

#[test]
fn default_header_is_a_valid_fresh_header() {
    let header = SGptHeader::default();
    assert_eq!(header.signature, SIGNATURE);
    assert_eq!(header.header_size, HEADER_SIZE);
    assert_eq!(header.partitions, 32);
    assert_eq!(header.partition_size, PARTITION_SIZE);
    assert_eq!(header.partition_size, 128);
    assert!(header.is_valid());
    assert_eq!(header.uuid[6] >> 4, 4);
    assert_eq!(header.uuid[8] >> 6, 2);
    assert_ne!(header.uuid, [0u8; 16]);
    assert_ne!(SGptHeader::default().uuid, header.uuid);
}

#[test]
fn default_table_round_trip() {
    let mut disk = disk(4096);
    let table = SGpt::default();
    assert_eq!(table.write(&mut disk), Ok(()));
    let back = SGpt::try_parse(&mut disk).unwrap().unwrap();
    assert_eq!(back.header.signature, table.header.signature);
    assert_eq!(back.header.header_size, table.header.header_size);
    assert_eq!(back.header.uuid, table.header.uuid);
    assert_eq!(back.header.partitions, table.header.partitions);
    assert_eq!(back.header.partition_size, table.header.partition_size);
}

#[test]
fn blank_disk_holds_no_table() {
    let mut disk = disk(4096);
    assert!(SGpt::try_parse(&mut disk).is_none());
}

#[test]
fn wrong_signature_or_size_is_absent() {
    let mut disk = disk(4096);
    let mut header = SGptHeader::default();
    header.signature = u64::from_be_bytes(*b"EFI PART");
    assert_eq!(header.write(&mut disk), Ok(()));
    assert!(SGpt::try_parse(&mut disk).is_none());

    let mut header = SGptHeader::default();
    header.header_size = 36;
    assert_eq!(header.write(&mut disk), Ok(()));
    assert!(SGpt::try_parse(&mut disk).is_none());
    assert!(SGpt::from_header(header).is_none());
    assert!(SGpt::from_header(SGptHeader::default()).is_some());
}

#[test]
fn unreadable_disk_is_an_error_not_an_absence() {
    let mut small = disk(20);
    match SGpt::try_parse(&mut small) {
        Some(Err(error)) => assert_eq!(error, DiskError::InvalidAddress),
        _ => panic!("expected a read error"),
    }
    assert_eq!(SGpt::default().write(&mut small), Err(DiskError::InvalidAddress));
    let mut drive = RamBackend::new(4096, 65_536);
    drive.set_fault(Some(-3));
    let mut empty = FloppyDisk::new(drive);
    match SGpt::try_parse(&mut empty) {
        Some(Err(error)) => assert_eq!(error, DiskError::DiskIsMissing),
        _ => panic!("expected a read error"),
    }
    assert_eq!(SGptHeader::read(&mut empty).err(), Some(DiskError::DiskIsMissing));
}

#[test]
fn record_lands_behind_the_header() {
    let mut disk = disk(8192);
    let record = sample_record();
    assert_eq!(record.write(0, &mut disk), Ok(()));
    let mut raw = [0u8; 164];
    assert_eq!(disk.read(40, &mut raw), Ok(164));
    assert_eq!(&raw[0..4], &[1, 0, 0, 0]);
    assert_eq!(&raw[4..20], &sample_uuid());
    assert_eq!(&raw[20..28], &[8, 7, 6, 5, 4, 3, 2, 1]);
    assert_eq!(&raw[28..36], &[0x18, 0x17, 0x16, 0x15, 0x14, 0x13, 0x12, 0x11]);
    assert_eq!(&raw[36..164], &record.name[..]);
    let mut before = [0xffu8; 40];
    assert_eq!(disk.read(0, &mut before), Ok(40));
    assert_eq!(before, [0u8; 40]);
}

#[test]
fn record_round_trip_in_a_later_slot() {
    let mut disk = disk(8192);
    let record = sample_record();
    assert_eq!(record.write(5, &mut disk), Ok(()));
    let mut raw = [0u8; 4];
    assert_eq!(disk.read(240, &mut raw), Ok(4));
    assert_eq!(raw, [1, 0, 0, 0]);
    let back = SGptPartition::read(5, &mut disk).unwrap();
    assert_eq!(back.ty, SGptPartitionType::Boot);
    assert_eq!(back.uuid, record.uuid);
    assert_eq!(back.start, record.start);
    assert_eq!(back.end, record.end);
    assert_eq!(back.name, record.name);
    assert!(!back.is_empty());
}

#[test]
fn unknown_type_round_trip() {
    let mut disk = disk(8192);
    let mut record = sample_record();
    record.ty = SGptPartitionType::Unknown;
    assert_eq!(record.write(1, &mut disk), Ok(()));
    let mut raw = [0u8; 4];
    assert_eq!(disk.read(80, &mut raw), Ok(4));
    assert_eq!(raw, [0xff; 4]);
    assert_eq!(SGptPartition::read(1, &mut disk).unwrap().ty, SGptPartitionType::Unknown);
}

#[test]
fn type_codes_decode_defensively() {
    assert_eq!(SGptPartitionType::from(1), SGptPartitionType::Boot);
    assert_eq!(SGptPartitionType::from(0), SGptPartitionType::Unknown);
    assert_eq!(SGptPartitionType::from(2), SGptPartitionType::Unknown);
    assert_eq!(SGptPartitionType::from(0x0100_0000), SGptPartitionType::Unknown);
    assert_eq!(SGptPartitionType::from(u32::MAX), SGptPartitionType::Unknown);
    assert_eq!(SGptPartitionType::Boot.code(), 1);
    assert_eq!(SGptPartitionType::Unknown.code(), 0xFFFF_FFFF);
    assert!(SGptPartitionType::Boot < SGptPartitionType::Unknown);
}

#[test]
fn blank_slot_is_empty() {
    let mut disk = disk(8192);
    let record = SGptPartition::read(3, &mut disk).unwrap();
    assert!(record.is_empty());
    assert_eq!(record.ty, SGptPartitionType::Unknown);
    assert_eq!(record.start, 0);
}

#[test]
fn record_is_a_partition() {
    let mut record = sample_record();
    record.start = 4096;
    record.end = 8192;
    assert_eq!(record.start(), 4096);
    assert_eq!(record.end(), 8192);
    let partition = record.as_partition();
    assert_eq!((partition.start, partition.end), (4096, 8192));
    assert_eq!(partition.start(), 4096);
    assert_eq!(partition.as_partition().end(), 8192);
}

#[test]
fn slot_beyond_the_disk_is_an_error() {
    let mut disk = disk(204);
    assert_eq!(SGptPartition::read(0, &mut disk).err(), None);
    assert_eq!(SGptPartition::read(1, &mut disk).err(), Some(DiskError::InvalidAddress));
    assert_eq!(sample_record().write(1, &mut disk), Err(DiskError::InvalidAddress));
    assert_eq!(
        SGptPartition::read(u32::MAX, &mut disk).err(),
        Some(DiskError::InvalidAddress)
    );
}

#[test]
fn iterator_reads_every_slot_once() {
    let mut disk = disk(4096);
    let mut table = SGpt::default();
    table.header.partitions = 4;
    let mut record = sample_record();
    record.end = 77;
    assert_eq!(record.write(3, &mut disk), Ok(()));
    let mut iter = table.iter_partitions(&mut disk);
    let mut ends = Vec::new();
    while let Some(item) = iter.next() {
        ends.push(item.unwrap().end);
    }
    assert!(iter.next().is_none());
    assert_eq!(ends, vec![0, 0, 0, 77]);
    // 5 reads for each of the 4 slots, 5 writes for the one record.
    assert_eq!(disk.into_inner().served(), 25);
}

#[test]
fn iterator_hands_out_errors_and_goes_on() {
    let mut disk = disk(250);
    let mut table = SGpt::default();
    table.header.partitions = 3;
    let mut iter = table.iter_partitions(&mut disk);
    assert!(iter.next().unwrap().is_ok());
    assert!(iter.next().unwrap().is_ok());
    assert_eq!(iter.next().unwrap().err(), Some(DiskError::InvalidAddress));
    assert!(iter.next().is_none());
}

#[test]
fn iterator_over_no_slots_is_empty() {
    let mut disk = disk(4096);
    let mut table = SGpt::default();
    table.header.partitions = 0;
    assert!(table.iter_partitions(&mut disk).next().is_none());
}

#[test]
fn header_with_a_given_identifier() {
    let header = SGptHeader::with_uuid(sample_uuid());
    assert_eq!(header.signature, SIGNATURE);
    assert_eq!(header.header_size, 40);
    assert_eq!(header.uuid, sample_uuid());
    assert_eq!(header.partitions, 32);
    assert_eq!(header.partition_size, 128);
    assert!(header.is_valid());
    assert_eq!(SGptHeader::with_uuid([0; 16]).uuid, [0; 16]);
}

#[test]
fn parse_outcome_keeps_the_three_answers_apart() {
    for error in [
        DiskError::InvalidAddress,
        DiskError::InvalidSize,
        DiskError::DiskIsMissing,
        DiskError::Unknown,
    ] {
        match SGpt::parse_outcome(Err(error)) {
            Some(Err(found)) => assert_eq!(found, error),
            _ => panic!("expected the read's error"),
        }
    }
    let table = SGpt::parse_outcome(Ok(SGptHeader::with_uuid(sample_uuid()))).unwrap().unwrap();
    assert_eq!(table.header.uuid, sample_uuid());
    let mut foreign = SGptHeader::with_uuid(sample_uuid());
    foreign.signature += 1;
    assert!(SGpt::parse_outcome(Ok(foreign)).is_none());
}

#[test]
fn failed_writes_hand_the_disk_error_on() {
    for (code, error) in [(-1, DiskError::InvalidAddress), (-2, DiskError::InvalidSize)] {
        let mut drive = RamBackend::new(4096, 65_536);
        drive.set_fault(Some(code));
        let mut disk = HddDisk::new(drive);
        assert_eq!(SGptHeader::with_uuid(sample_uuid()).write(&mut disk), Err(error));
        assert_eq!(SGpt::default().write(&mut disk), Err(error));
        assert_eq!(sample_record().write(0, &mut disk), Err(error));
        match SGpt::try_parse(&mut disk) {
            Some(Err(found)) => assert_eq!(found, error),
            _ => panic!("expected the read's error"),
        }
    }
}
