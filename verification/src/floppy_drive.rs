//! The floppy drive: its registers, its operations and its status codes.
use crate::pci::PciDevice;
use vstd::prelude::*;
use vstd::std_specs::convert::FromSpecImpl;

verus! {

/// The device number under which the bus lists a floppy drive.
pub const DEVICE_ID: u16 = 0x6D;

/// The longest transfer that the drive takes in one operation.
pub const MAX_READ_WRITE_SIZE: usize = 65536;

/// The register from which the capacity of the inserted disk is read.
pub const GET_SIZE: usize = 0x1;

/// The register into which an operation's number is written.
pub const CALL_OP: usize = 0x0;

/// The register that ejects the disk when it is written.
pub const EJECT_DISK: usize = 0x1;

/// The register from which an operation's result is read.
pub const OP_RESULT: usize = 0x0;

/// Where the argument registers start.
pub const ARGUMENTS_OFFSET: usize = 0x100;

/// A floppy drive on the bus.
#[derive(Clone, Copy, Debug)]
pub struct FloppyDrive {
    pub device: PciDevice,
}

impl From<PciDevice> for FloppyDrive {
    fn from(device: PciDevice) -> (drive: Self) {
        Self { device }
    }
}

impl FromSpecImpl<PciDevice> for FloppyDrive {
    open spec fn obeys_from_spec() -> bool {
        true
    }

    open spec fn from_spec(device: PciDevice) -> Self {
        Self { device }
    }
}

/// How the drive reports a failed operation. The variants stand in the order
/// of their status codes.
#[derive(Debug, Clone, Copy, PartialEq, Eq, PartialOrd, Ord, Structural)]
pub enum FloppyDriveError {
    FloppyDriveIsEmpty,
    InvalidSize,
    InvalidAddress,
    Unknown,
}

impl FloppyDriveError {
    /// The status code that stands for this error.
    pub open spec fn spec_code(self) -> int {
        match self {
            FloppyDriveError::InvalidAddress => -1,
            FloppyDriveError::InvalidSize => -2,
            FloppyDriveError::FloppyDriveIsEmpty => -3,
            FloppyDriveError::Unknown => 0xFF_FFFF,
        }
    }

    /// The error that a status code stands for; a code without a meaning is
    /// `Unknown`.
    pub open spec fn decode(code: i64) -> Self {
        if code == -1 {
            FloppyDriveError::InvalidAddress
        } else if code == -2 {
            FloppyDriveError::InvalidSize
        } else if code == -3 {
            FloppyDriveError::FloppyDriveIsEmpty
        } else {
            FloppyDriveError::Unknown
        }
    }

    pub fn code(&self) -> (code: i64)
        ensures
            code == self.spec_code(),
    {
        match self {
            FloppyDriveError::InvalidAddress => -1,
            FloppyDriveError::InvalidSize => -2,
            FloppyDriveError::FloppyDriveIsEmpty => -3,
            FloppyDriveError::Unknown => 0xFF_FFFF,
        }
    }
}

impl From<i64> for FloppyDriveError {
    fn from(value: i64) -> (error: Self) {
        if value == -1 {
            FloppyDriveError::InvalidAddress
        } else if value == -2 {
            FloppyDriveError::InvalidSize
        } else if value == -3 {
            FloppyDriveError::FloppyDriveIsEmpty
        } else {
            FloppyDriveError::Unknown
        }
    }
}

impl FromSpecImpl<i64> for FloppyDriveError {
    open spec fn obeys_from_spec() -> bool {
        true
    }

    open spec fn from_spec(value: i64) -> Self {
        FloppyDriveError::decode(value)
    }
}

/// The ten argument registers of the drive.
#[derive(Debug, Clone, Copy, PartialEq, Eq, PartialOrd, Ord, Structural)]
pub enum FloppyDriveArgument {
    Arg0,
    Arg1,
    Arg2,
    Arg3,
    Arg4,
    Arg5,
    Arg6,
    Arg7,
    Arg8,
    Arg9,
}

impl FloppyDriveArgument {
    /// The number of the register among the argument registers.
    pub open spec fn index(self) -> nat {
        match self {
            FloppyDriveArgument::Arg0 => 0,
            FloppyDriveArgument::Arg1 => 1,
            FloppyDriveArgument::Arg2 => 2,
            FloppyDriveArgument::Arg3 => 3,
            FloppyDriveArgument::Arg4 => 4,
            FloppyDriveArgument::Arg5 => 5,
            FloppyDriveArgument::Arg6 => 6,
            FloppyDriveArgument::Arg7 => 7,
            FloppyDriveArgument::Arg8 => 8,
            FloppyDriveArgument::Arg9 => 9,
        }
    }

    /// The offset of the register in the drive's window.
    pub fn offset(&self) -> (offset: usize)
        ensures
            offset == ARGUMENTS_OFFSET + self.index(),
    {
        let index: usize = match self {
            FloppyDriveArgument::Arg0 => 0,
            FloppyDriveArgument::Arg1 => 1,
            FloppyDriveArgument::Arg2 => 2,
            FloppyDriveArgument::Arg3 => 3,
            FloppyDriveArgument::Arg4 => 4,
            FloppyDriveArgument::Arg5 => 5,
            FloppyDriveArgument::Arg6 => 6,
            FloppyDriveArgument::Arg7 => 7,
            FloppyDriveArgument::Arg8 => 8,
            FloppyDriveArgument::Arg9 => 9,
        };
        index + ARGUMENTS_OFFSET
    }
}

/// What the drive can be asked to do. The buffer is named by its address in
/// memory.
#[derive(Debug, Clone)]
pub enum FloppyDriveOp {
    BulkRead { address: usize, size: usize, dst_address: usize },
    BulkWrite { address: usize, size: usize, src_address: usize },
}

impl FloppyDriveOp {
    /// The number that selects the operation.
    pub open spec fn spec_id(&self) -> u32 {
        match self {
            FloppyDriveOp::BulkRead { .. } => 0x0,
            FloppyDriveOp::BulkWrite { .. } => 0x1,
        }
    }

    /// What goes into the first three argument registers, in their order: the
    /// address on the disk, the length, the address of the buffer.
    pub open spec fn spec_arguments(&self) -> Seq<usize> {
        match self {
            FloppyDriveOp::BulkRead { address, size, dst_address } => seq![
                *address,
                *size,
                *dst_address,
            ],
            FloppyDriveOp::BulkWrite { address, size, src_address } => seq![
                *address,
                *size,
                *src_address,
            ],
        }
    }

    pub fn id(&self) -> (id: u32)
        ensures
            id == self.spec_id(),
    {
        match self {
            FloppyDriveOp::BulkRead { .. } => 0x0,
            FloppyDriveOp::BulkWrite { .. } => 0x1,
        }
    }

    pub fn arguments(&self) -> (arguments: [usize; 3])
        ensures
            arguments@ == self.spec_arguments(),
    {
        let arguments = match self {
            FloppyDriveOp::BulkRead { address, size, dst_address } => [
                *address,
                *size,
                *dst_address,
            ],
            FloppyDriveOp::BulkWrite { address, size, src_address } => [
                *address,
                *size,
                *src_address,
            ],
        };
        assert(arguments@ =~= self.spec_arguments());
        arguments
    }
}

impl FloppyDrive {
    /// Reads the result register's value: a negative one is an error's code,
    /// any other is the operation's answer.
    pub fn decode_result(status: i64) -> (result: Result<i64, FloppyDriveError>)
        ensures
            result == if status < 0 {
                Err::<i64, FloppyDriveError>(FloppyDriveError::decode(status))
            } else {
                Ok::<i64, FloppyDriveError>(status)
            },
    {
        if status < 0 {
            Err(FloppyDriveError::from(status))
        } else {
            Ok(status)
        }
    }
}

} // verus!
