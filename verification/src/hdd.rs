//! The hard disk drive: its registers, its operations and its status codes.
use crate::pci::PciDevice;
use vstd::prelude::*;
use vstd::std_specs::convert::FromSpecImpl;

verus! {

/// The device number under which the bus lists a hard disk drive.
pub const DEVICE_ID: u16 = 0x6C;

/// The longest transfer that the drive takes in one operation.
pub const MAX_READ_WRITE_SIZE: usize = 65536;

/// The register from which the capacity of the disk is read.
pub const GET_SIZE: usize = 0x1;

/// The register into which an operation's number is written.
pub const CALL_OP: usize = 0x0;

/// The register from which an operation's result is read.
pub const OP_RESULT: usize = 0x0;

/// Where the argument registers start.
pub const ARGUMENTS_OFFSET: usize = 0x100;

/// A hard disk drive on the bus.
#[derive(Clone, Copy, Debug)]
pub struct Hdd {
    pub device: PciDevice,
}

impl From<PciDevice> for Hdd {
    fn from(device: PciDevice) -> (drive: Self) {
        Self { device }
    }
}

impl FromSpecImpl<PciDevice> for Hdd {
    open spec fn obeys_from_spec() -> bool {
        true
    }

    open spec fn from_spec(device: PciDevice) -> Self {
        Self { device }
    }
}

/// How the drive reports a failed operation. The variants stand in the order
/// of their status codes.
#[derive(Debug, Clone, Copy, PartialEq, Eq, PartialOrd, Ord, Structural)]
pub enum HddError {
    InvalidSize,
    InvalidAddress,
    Unknown,
}

impl HddError {
    /// The status code that stands for this error.
    pub open spec fn spec_code(self) -> int {
        match self {
            HddError::InvalidAddress => -1,
            HddError::InvalidSize => -2,
            HddError::Unknown => 0xFF_FFFF,
        }
    }

    /// The error that a status code stands for; a code without a meaning is
    /// `Unknown`.
    pub open spec fn decode(code: i64) -> Self {
        if code == -1 {
            HddError::InvalidAddress
        } else if code == -2 {
            HddError::InvalidSize
        } else {
            HddError::Unknown
        }
    }

    pub fn code(&self) -> (code: i64)
        ensures
            code == self.spec_code(),
    {
        match self {
            HddError::InvalidAddress => -1,
            HddError::InvalidSize => -2,
            HddError::Unknown => 0xFF_FFFF,
        }
    }
}

impl From<i64> for HddError {
    fn from(value: i64) -> (error: Self) {
        if value == -1 {
            HddError::InvalidAddress
        } else if value == -2 {
            HddError::InvalidSize
        } else {
            HddError::Unknown
        }
    }
}

impl FromSpecImpl<i64> for HddError {
    open spec fn obeys_from_spec() -> bool {
        true
    }

    open spec fn from_spec(value: i64) -> Self {
        HddError::decode(value)
    }
}

/// The ten argument registers of the drive.
#[derive(Debug, Clone, Copy, PartialEq, Eq, PartialOrd, Ord, Structural)]
pub enum HddArgument {
    Arg0,
    Arg1,
    Arg2,
    Arg3,
    Arg4,
    Arg5,
    Arg6,
    Arg7,
    Arg8,
    Arg9,
}

impl HddArgument {
    /// The number of the register among the argument registers.
    pub open spec fn index(self) -> nat {
        match self {
            HddArgument::Arg0 => 0,
            HddArgument::Arg1 => 1,
            HddArgument::Arg2 => 2,
            HddArgument::Arg3 => 3,
            HddArgument::Arg4 => 4,
            HddArgument::Arg5 => 5,
            HddArgument::Arg6 => 6,
            HddArgument::Arg7 => 7,
            HddArgument::Arg8 => 8,
            HddArgument::Arg9 => 9,
        }
    }

    /// The offset of the register in the drive's window.
    pub fn offset(&self) -> (offset: usize)
        ensures
            offset == ARGUMENTS_OFFSET + self.index(),
    {
        let index: usize = match self {
            HddArgument::Arg0 => 0,
            HddArgument::Arg1 => 1,
            HddArgument::Arg2 => 2,
            HddArgument::Arg3 => 3,
            HddArgument::Arg4 => 4,
            HddArgument::Arg5 => 5,
            HddArgument::Arg6 => 6,
            HddArgument::Arg7 => 7,
            HddArgument::Arg8 => 8,
            HddArgument::Arg9 => 9,
        };
        index + ARGUMENTS_OFFSET
    }
}

/// What the drive can be asked to do. The buffer is named by its address in
/// memory.
#[derive(Debug, Clone)]
pub enum HddOp {
    BulkRead { address: usize, size: usize, dst_address: usize },
    BulkWrite { address: usize, size: usize, src_address: usize },
}

impl HddOp {
    /// The number that selects the operation.
    pub open spec fn spec_id(&self) -> u32 {
        match self {
            HddOp::BulkRead { .. } => 0x0,
            HddOp::BulkWrite { .. } => 0x1,
        }
    }

    /// What goes into the first three argument registers, in their order: the
    /// address on the disk, the length, the address of the buffer.
    pub open spec fn spec_arguments(&self) -> Seq<usize> {
        match self {
            HddOp::BulkRead { address, size, dst_address } => seq![
                *address,
                *size,
                *dst_address,
            ],
            HddOp::BulkWrite { address, size, src_address } => seq![
                *address,
                *size,
                *src_address,
            ],
        }
    }

    pub fn id(&self) -> (id: u32)
        ensures
            id == self.spec_id(),
    {
        match self {
            HddOp::BulkRead { .. } => 0x0,
            HddOp::BulkWrite { .. } => 0x1,
        }
    }

    pub fn arguments(&self) -> (arguments: [usize; 3])
        ensures
            arguments@ == self.spec_arguments(),
    {
        let arguments = match self {
            HddOp::BulkRead { address, size, dst_address } => [
                *address,
                *size,
                *dst_address,
            ],
            HddOp::BulkWrite { address, size, src_address } => [
                *address,
                *size,
                *src_address,
            ],
        };
        assert(arguments@ =~= self.spec_arguments());
        arguments
    }
}

impl Hdd {
    /// Reads the result register's value: a negative one is an error's code,
    /// any other is the operation's answer.
    pub fn decode_result(status: i64) -> (result: Result<i64, HddError>)
        ensures
            result == if status < 0 {
                Err::<i64, HddError>(HddError::decode(status))
            } else {
                Ok::<i64, HddError>(status)
            },
    {
        if status < 0 {
            Err(HddError::from(status))
        } else {
            Ok(status)
        }
    }
}

impl HddArgument {
    /// The register with the given number; a number beyond the last register
    /// stands for the first.
    pub open spec fn decode(value: u8) -> Self {
        match value {
            1 => HddArgument::Arg1,
            2 => HddArgument::Arg2,
            3 => HddArgument::Arg3,
            4 => HddArgument::Arg4,
            5 => HddArgument::Arg5,
            6 => HddArgument::Arg6,
            7 => HddArgument::Arg7,
            8 => HddArgument::Arg8,
            9 => HddArgument::Arg9,
            _ => HddArgument::Arg0,
        }
    }
}

impl From<u8> for HddArgument {
    fn from(value: u8) -> (argument: Self) {
        match value {
            1 => HddArgument::Arg1,
            2 => HddArgument::Arg2,
            3 => HddArgument::Arg3,
            4 => HddArgument::Arg4,
            5 => HddArgument::Arg5,
            6 => HddArgument::Arg6,
            7 => HddArgument::Arg7,
            8 => HddArgument::Arg8,
            9 => HddArgument::Arg9,
            _ => HddArgument::Arg0,
        }
    }
}

impl FromSpecImpl<u8> for HddArgument {
    open spec fn obeys_from_spec() -> bool {
        true
    }

    open spec fn from_spec(value: u8) -> Self {
        HddArgument::decode(value)
    }
}

} // verus!
