//! What a disk adapter needs from the drive below it, and a drive that lives
//! in memory.
use super::{overwrite, same_outside};
use vstd::prelude::*;

verus! {

/// The status with which a drive refuses an address outside its medium.
pub const STATUS_INVALID_ADDRESS: i64 = -1;

/// The status with which a drive refuses a transfer that is too long.
pub const STATUS_INVALID_SIZE: i64 = -2;

/// A drive that moves bytes in bulk. A transfer either moves every byte or
/// fails with the drive's raw status code, which the adapter above decodes.
pub trait BlockBackend {
    /// The bytes that the medium holds. A drive that says nothing of its
    /// medium leaves them unknown.
    open spec fn contents(&self) -> Seq<u8> {
        arbitrary()
    }

    /// The bulk transfers that the drive has been asked for so far, the
    /// oldest first: where on the medium each one started and how many bytes
    /// it was to move. A drive that keeps no record leaves them unknown.
    open spec fn log(&self) -> Seq<(usize, nat)> {
        arbitrary()
    }

    fn bulk_write(&mut self, address: usize, src: &[u8]) -> (result: Result<usize, i64>)
        ensures
            final(self).log() == old(self).log().push((address, src@.len())),
            match result {
                Ok(count) => {
                    &&& count == src@.len()
                    &&& address + src@.len() <= old(self).contents().len()
                    &&& final(self).contents() == overwrite(
                        old(self).contents(),
                        address as int,
                        src@,
                    )
                },
                Err(_) => same_outside(
                    old(self).contents(),
                    final(self).contents(),
                    address as int,
                    src@.len() as int,
                ),
            },
    ;

    fn bulk_read(&mut self, address: usize, dst: &mut [u8]) -> (result: Result<usize, i64>)
        ensures
            final(self).log() == old(self).log().push((address, old(dst)@.len())),
            final(self).contents() == old(self).contents(),
            final(dst)@.len() == old(dst)@.len(),
            match result {
                Ok(count) => {
                    &&& count == old(dst)@.len()
                    &&& address + count <= old(self).contents().len()
                    &&& final(dst)@ == old(self).contents().subrange(
                        address as int,
                        address + count,
                    )
                },
                Err(_) => true,
            },
    ;

    /// The capacity of the medium in bytes.
    fn capacity(&self) -> (capacity: u32)
        ensures
            capacity == self.contents().len(),
    ;
}

/// A drive whose medium is a block of memory. It refuses what a real drive
/// refuses: a transfer beyond its end, one longer than its limit, and, while
/// a fault is set, every transfer.
pub struct RamBackend {
    data: Vec<u8>,
    max_transfer: usize,
    fault: Option<i64>,
    /// The transfers asked for: their number as far as a `u64` counts, and
    /// the record of them.
    tally: (u64, Ghost<Seq<(usize, nat)>>),
}

impl RamBackend {
    #[verifier::type_invariant]
    spec fn well_formed(self) -> bool {
        &&& self.data@.len() <= u32::MAX
        &&& self.tally.0 == if self.tally.1@.len() <= u64::MAX {
            self.tally.1@.len()
        } else {
            u64::MAX as nat
        }
    }

    /// The longest transfer that the drive accepts.
    pub closed spec fn limit(&self) -> usize {
        self.max_transfer
    }

    /// The status with which every transfer currently fails, if any.
    pub closed spec fn fault(&self) -> Option<i64> {
        self.fault
    }

    /// What a transfer of `len` bytes at `address` comes to.
    pub open spec fn outcome(&self, address: usize, len: usize) -> Result<usize, i64> {
        if let Some(code) = self.fault() {
            Err(code)
        } else if len > self.limit() {
            Err(STATUS_INVALID_SIZE)
        } else if address + len > self.contents().len() {
            Err(STATUS_INVALID_ADDRESS)
        } else {
            Ok(len)
        }
    }

    /// A zero-filled medium of `capacity` bytes behind a drive that moves at
    /// most `max_transfer` bytes at once.
    pub fn new(capacity: u32, max_transfer: usize) -> (drive: Self)
        ensures
            drive.contents() == Seq::new(capacity as nat, |i: int| 0u8),
            drive.log() == Seq::<(usize, nat)>::empty(),
            drive.limit() == max_transfer,
            drive.fault() is None,
    {
        let mut data: Vec<u8> = Vec::new();
        let mut filled: u32 = 0;
        while filled < capacity
            invariant
                filled <= capacity,
                data@ == Seq::new(filled as nat, |i: int| 0u8),
            decreases capacity - filled,
        {
            data.push(0);
            filled = filled + 1;
            assert(data@ =~= Seq::new(filled as nat, |i: int| 0u8));
        }
        Self { data, max_transfer, fault: None, tally: (0, Ghost(Seq::empty())) }
    }

    /// Makes every transfer fail with `code` from now on, or, with `None`,
    /// lets the drive work again.
    pub fn set_fault(&mut self, code: Option<i64>)
        ensures
            final(self).fault() == code,
            final(self).contents() == old(self).contents(),
            final(self).log() == old(self).log(),
            final(self).limit() == old(self).limit(),
    {
        proof {
            use_type_invariant(&*self);
        }
        self.fault = code;
    }

    /// How many transfers the drive has been asked for, as far as a `u64`
    /// counts.
    pub fn served(&self) -> (count: u64)
        ensures
            count == if self.log().len() <= u64::MAX {
                self.log().len()
            } else {
                u64::MAX as nat
            },
    {
        proof {
            use_type_invariant(self);
        }
        self.tally.0
    }

    fn count_transfer(&mut self, address: usize, len: usize)
        ensures
            final(self).log() == old(self).log().push((address, len as nat)),
            final(self).contents() == old(self).contents(),
            final(self).limit() == old(self).limit(),
            final(self).fault() == old(self).fault(),
    {
        proof {
            use_type_invariant(&*self);
        }
        let served = if self.tally.0 < u64::MAX {
            self.tally.0 + 1
        } else {
            self.tally.0
        };
        let ghost asked = self.tally.1@.push((address, len as nat));
        self.tally = (served, Ghost(asked));
    }
}

impl BlockBackend for RamBackend {
    closed spec fn contents(&self) -> Seq<u8> {
        self.data@
    }

    closed spec fn log(&self) -> Seq<(usize, nat)> {
        self.tally.1@
    }

    fn bulk_write(&mut self, address: usize, src: &[u8]) -> (result: Result<usize, i64>)
        ensures
            result == old(self).outcome(address, src.len()),
            result is Err ==> final(self).contents() == old(self).contents(),
            final(self).limit() == old(self).limit(),
            final(self).fault() == old(self).fault(),
    {
        self.count_transfer(address, src.len());
        proof {
            use_type_invariant(&*self);
        }
        if let Some(code) = self.fault {
            return Err(code);
        }
        let len = src.len();
        if len > self.max_transfer {
            return Err(STATUS_INVALID_SIZE);
        }
        if address > self.data.len() || len > self.data.len() - address {
            return Err(STATUS_INVALID_ADDRESS);
        }
        let ghost before = self.data@;
        let ghost entry = *self;
        let mut i: usize = 0;
        while i < len
            invariant
                i <= len,
                self.well_formed(),
                self.tally == entry.tally,
                self.max_transfer == entry.max_transfer,
                self.fault == entry.fault,
                len == src@.len(),
                address + len <= self.data@.len(),
                self.data@.len() == before.len(),
                forall|k: int|
                    0 <= k < before.len() ==> self.data@[k] == if address <= k < address + i {
                        src@[k - address]
                    } else {
                        before[k]
                    },
            decreases len - i,
        {
            self.data[address + i] = src[i];
            i = i + 1;
        }
        assert(self.data@ =~= overwrite(before, address as int, src@));
        Ok(len)
    }

    fn bulk_read(&mut self, address: usize, dst: &mut [u8]) -> (result: Result<usize, i64>)
        ensures
            result == old(self).outcome(address, old(dst).len()),
            result is Err ==> final(dst)@ == old(dst)@,
            final(self).limit() == old(self).limit(),
            final(self).fault() == old(self).fault(),
    {
        self.count_transfer(address, dst.len());
        proof {
            use_type_invariant(&*self);
        }
        if let Some(code) = self.fault {
            return Err(code);
        }
        let len = dst.len();
        if len > self.max_transfer {
            return Err(STATUS_INVALID_SIZE);
        }
        if address > self.data.len() || len > self.data.len() - address {
            return Err(STATUS_INVALID_ADDRESS);
        }
        let mut i: usize = 0;
        while i < len
            invariant
                i <= len,
                len == dst@.len(),
                address + len <= self.data@.len() <= usize::MAX,
                forall|k: int| 0 <= k < i ==> dst@[k] == self.data@[address + k],
            decreases len - i,
        {
            dst[i] = self.data[address + i];
            i = i + 1;
        }
        assert(dst@ =~= self.data@.subrange(address as int, address + len));
        Ok(len)
    }

    fn capacity(&self) -> (capacity: u32) {
        proof {
            use_type_invariant(self);
        }
        self.data.len() as u32
    }
}

} // verus!
