use devkit::disk::backend::BlockBackend;
use devkit::disk::{Disk, DiskError, FloppyDisk, HddDisk};
use devkit::fs::mflaw::MFlawSuperblock;
use devkit::partitions::sgpt::SGpt;
use devkit::partitions::Partition;

/// A drive that records every transfer asked of it and fails from a given
/// transfer on.
struct Recorder {
    data: Vec<u8>,
    transfers: Vec<(usize, usize)>,
    fail_from: usize,
    code: i64,
}

impl Recorder {
    fn new(size: usize) -> Self {
        Recorder { data: vec![0; size], transfers: Vec::new(), fail_from: usize::MAX, code: 0 }
    }

    fn failing(size: usize, fail_from: usize, code: i64) -> Self {
        Recorder { data: vec![0; size], transfers: Vec::new(), fail_from, code }
    }
}

impl BlockBackend for Recorder {
    fn bulk_write(&mut self, address: usize, src: &[u8]) -> Result<usize, i64> {
        self.transfers.push((address, src.len()));
        if self.transfers.len() > self.fail_from {
            return Err(self.code);
        }
        self.data[address..address + src.len()].copy_from_slice(src);
        Ok(src.len())
    }

    fn bulk_read(&mut self, address: usize, dst: &mut [u8]) -> Result<usize, i64> {
        self.transfers.push((address, dst.len()));
        if self.transfers.len() > self.fail_from {
            return Err(self.code);
        }
        dst.copy_from_slice(&self.data[address..address + dst.len()]);
        Ok(dst.len())
    }

    fn capacity(&self) -> u32 {
        self.data.len() as u32
    }
}

#[test]
fn payload_of_200000_bytes_goes_over_in_three_full_chunks_and_one_partial() {
    let mut disk = FloppyDisk::new(Recorder::new(250_000));
    let data: Vec<u8> = (0..200_000).map(|i| (i % 253) as u8).collect();
    assert_eq!(disk.write(1_000, &data), Ok(200_000));
    let drive = disk.into_inner();
    assert_eq!(
        drive.transfers,
        vec![(1_000, 65_536), (66_536, 65_536), (132_072, 65_536), (197_608, 3_392)]
    );
    assert_eq!(&drive.data[1_000..201_000], &data[..]);
}

#[test]
fn read_of_200000_bytes_takes_the_same_four_transfers() {
    let mut drive = Recorder::new(250_000);
    for (i, byte) in drive.data.iter_mut().enumerate() {
        *byte = (i % 241) as u8;
    }
    let expected = drive.data[7..200_007].to_vec();
    let mut disk = HddDisk::new(drive);
    let mut back = vec![0u8; 200_000];
    assert_eq!(disk.read(7, &mut back), Ok(200_000));
    assert_eq!(back, expected);
    assert_eq!(
        disk.into_inner().transfers,
        vec![(7, 65_536), (65_543, 65_536), (131_079, 65_536), (196_615, 3_392)]
    );
}

#[test]
fn transfer_counts_round_up() {
    for (len, count) in [(0, 0), (1, 1), (65_535, 1), (65_536, 1), (65_537, 2), (131_072, 2)] {
        let mut disk = HddDisk::new(Recorder::new(200_000));
        assert_eq!(disk.write(0, &vec![1u8; len]), Ok(len));
        assert_eq!(disk.into_inner().transfers.len(), count);
    }
}

#[test]
fn only_the_failing_chunk_is_reported_and_nothing_is_undone() {
    let mut disk = FloppyDisk::new(Recorder::failing(250_000, 2, -3));
    let data = vec![9u8; 200_000];
    assert_eq!(disk.write(0, &data), Err(DiskError::DiskIsMissing));
    let drive = disk.into_inner();
    assert_eq!(drive.transfers.len(), 3);
    assert!(drive.data[..131_072].iter().all(|b| *b == 9));
    assert!(drive.data[131_072..].iter().all(|b| *b == 0));
}

#[test]
fn unrecognized_statuses_are_unknown_on_both_adapters() {
    for code in [-4, -100, i64::MIN, 0, 17, 0xFF_FFFF] {
        let mut floppy = FloppyDisk::new(Recorder::failing(64, 0, code));
        assert_eq!(floppy.write(0, &[1]), Err(DiskError::Unknown));
        let mut hdd = HddDisk::new(Recorder::failing(64, 0, code));
        let mut back = [0u8; 1];
        assert_eq!(hdd.read(0, &mut back), Err(DiskError::Unknown));
    }
    let mut hdd = HddDisk::new(Recorder::failing(64, 0, -3));
    assert_eq!(hdd.write(0, &[1]), Err(DiskError::Unknown));
}

#[test]
fn transfer_results_decode_the_status() {
    assert_eq!(FloppyDisk::<Recorder>::transfer_result(5, Ok(0)), Ok(5));
    assert_eq!(
        FloppyDisk::<Recorder>::transfer_result(5, Err(-1)),
        Err(DiskError::InvalidAddress)
    );
    assert_eq!(FloppyDisk::<Recorder>::transfer_result(5, Err(-2)), Err(DiskError::InvalidSize));
    assert_eq!(
        FloppyDisk::<Recorder>::transfer_result(5, Err(-3)),
        Err(DiskError::DiskIsMissing)
    );
    assert_eq!(FloppyDisk::<Recorder>::transfer_result(5, Err(-4)), Err(DiskError::Unknown));
    assert_eq!(HddDisk::<Recorder>::transfer_result(7, Ok(7)), Ok(7));
    assert_eq!(HddDisk::<Recorder>::transfer_result(7, Err(-1)), Err(DiskError::InvalidAddress));
    assert_eq!(HddDisk::<Recorder>::transfer_result(7, Err(-2)), Err(DiskError::InvalidSize));
    assert_eq!(HddDisk::<Recorder>::transfer_result(7, Err(-3)), Err(DiskError::Unknown));
}

#[test]
fn table_and_file_system_share_a_disk() {
    let mut disk = HddDisk::new(Recorder::new(100_000));
    let table = SGpt::default();
    assert_eq!(table.write(&mut disk), Ok(()));
    let partition = Partition::new(8_192, 100_000);
    let superblock = MFlawSuperblock::new(&partition);
    assert_eq!(superblock.write(&mut disk, &partition), Ok(()));
    assert!(SGpt::try_parse(&mut disk).unwrap().is_ok());
    let back = MFlawSuperblock::try_parse(&mut disk, &partition).unwrap().unwrap();
    assert_eq!(back.total_size, 91_808);
    assert!(MFlawSuperblock::try_parse(&mut disk, &Partition::new(0, 100_000)).is_none());
}
