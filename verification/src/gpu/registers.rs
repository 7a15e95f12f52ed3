//! The argument registers of the graphics device and its status codes.
use vstd::prelude::*;
use vstd::std_specs::convert::FromSpecImpl;

verus! {

/// Where the argument registers start.
pub const ARGUMENTS_OFFSET: usize = 0x100;

/// The ten argument registers of the graphics device.
#[derive(Debug, Clone, Copy, PartialEq, Eq, PartialOrd, Ord, Structural)]
pub enum GpuArgument {
    Arg0,
    Arg1,
    Arg2,
    Arg3,
    Arg4,
    Arg5,
    Arg6,
    Arg7,
    Arg8,
    Arg9,
}

impl GpuArgument {
    /// The number of the register among the argument registers.
    pub open spec fn index(self) -> nat {
        match self {
            GpuArgument::Arg0 => 0,
            GpuArgument::Arg1 => 1,
            GpuArgument::Arg2 => 2,
            GpuArgument::Arg3 => 3,
            GpuArgument::Arg4 => 4,
            GpuArgument::Arg5 => 5,
            GpuArgument::Arg6 => 6,
            GpuArgument::Arg7 => 7,
            GpuArgument::Arg8 => 8,
            GpuArgument::Arg9 => 9,
        }
    }

    /// The offset of the register in the device's window.
    pub fn offset(&self) -> (offset: usize)
        ensures
            offset == ARGUMENTS_OFFSET + self.index(),
    {
        let index: usize = match self {
            GpuArgument::Arg0 => 0,
            GpuArgument::Arg1 => 1,
            GpuArgument::Arg2 => 2,
            GpuArgument::Arg3 => 3,
            GpuArgument::Arg4 => 4,
            GpuArgument::Arg5 => 5,
            GpuArgument::Arg6 => 6,
            GpuArgument::Arg7 => 7,
            GpuArgument::Arg8 => 8,
            GpuArgument::Arg9 => 9,
        };
        index + ARGUMENTS_OFFSET
    }
}


/// How the graphics device reports a failed operation. The variants stand in
/// the order of their status codes.
#[derive(Debug, Clone, Copy, PartialEq, Eq, PartialOrd, Ord, Structural)]
pub enum GpuError {
    NotEnoughMemory,
    InvalidBuffer,
    UnknownBuffer,
    InvalidSize,
    NotInitialized,
    Unknown,
}

impl GpuError {
    /// The number that stands for the value in a register.
    pub open spec fn spec_code(self) -> int {
        match self {
            GpuError::NotEnoughMemory => -5,
            GpuError::InvalidBuffer => -4,
            GpuError::UnknownBuffer => -3,
            GpuError::InvalidSize => -2,
            GpuError::NotInitialized => -1,
            GpuError::Unknown => 0xFF_FFFF,
        }
    }

    /// The value that a number stands for; a number that stands for none is
    /// `Unknown`.
    pub open spec fn decode(value: i64) -> Self {
        if value == -5 {
            GpuError::NotEnoughMemory
        } else if value == -4 {
            GpuError::InvalidBuffer
        } else if value == -3 {
            GpuError::UnknownBuffer
        } else if value == -2 {
            GpuError::InvalidSize
        } else if value == -1 {
            GpuError::NotInitialized
        } else {
            GpuError::Unknown
        }
    }

    pub fn code(&self) -> (code: i64)
        ensures
            code == self.spec_code(),
    {
        match self {
            GpuError::NotEnoughMemory => -5,
            GpuError::InvalidBuffer => -4,
            GpuError::UnknownBuffer => -3,
            GpuError::InvalidSize => -2,
            GpuError::NotInitialized => -1,
            GpuError::Unknown => 0xFF_FFFF,
        }
    }
}

impl From<i64> for GpuError {
    fn from(value: i64) -> (decoded: Self) {
        if value == -5 {
            GpuError::NotEnoughMemory
        } else if value == -4 {
            GpuError::InvalidBuffer
        } else if value == -3 {
            GpuError::UnknownBuffer
        } else if value == -2 {
            GpuError::InvalidSize
        } else if value == -1 {
            GpuError::NotInitialized
        } else {
            GpuError::Unknown
        }
    }
}

impl FromSpecImpl<i64> for GpuError {
    open spec fn obeys_from_spec() -> bool {
        true
    }

    open spec fn from_spec(value: i64) -> Self {
        GpuError::decode(value)
    }
}


} // verus!
