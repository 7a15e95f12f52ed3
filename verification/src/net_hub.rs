//! The network switch: its ports, its operations and its status codes.
use crate::pci::PciDevice;
use vstd::prelude::*;
use vstd::std_specs::convert::FromSpecImpl;

verus! {

/// The device number under which the bus lists the network switch.
pub const DEVICE_ID: u16 = 0x6B;

/// The register into which an operation's number is written.
pub const CALL_OP: usize = 0x0;

/// The register from which an operation's result is read.
pub const OP_RESULT: usize = 0x0;

/// Where the argument registers start.
pub const ARGUMENTS_OFFSET: usize = 0x100;

/// The network switch on the bus.
#[derive(Debug, Clone, Copy)]
pub struct NetworkSwitch {
    pub device: PciDevice,
}

impl From<PciDevice> for NetworkSwitch {
    fn from(device: PciDevice) -> (found: Self) {
        Self { device }
    }
}

impl FromSpecImpl<PciDevice> for NetworkSwitch {
    open spec fn obeys_from_spec() -> bool {
        true
    }

    open spec fn from_spec(device: PciDevice) -> Self {
        Self { device }
    }
}

/// The ten argument registers of the switch.
#[derive(Debug, Clone, Copy, PartialEq, Eq, PartialOrd, Ord, Structural)]
pub enum NetHubArgument {
    Arg0,
    Arg1,
    Arg2,
    Arg3,
    Arg4,
    Arg5,
    Arg6,
    Arg7,
    Arg8,
    Arg9,
}

impl NetHubArgument {
    /// The number of the register among the argument registers.
    pub open spec fn index(self) -> nat {
        match self {
            NetHubArgument::Arg0 => 0,
            NetHubArgument::Arg1 => 1,
            NetHubArgument::Arg2 => 2,
            NetHubArgument::Arg3 => 3,
            NetHubArgument::Arg4 => 4,
            NetHubArgument::Arg5 => 5,
            NetHubArgument::Arg6 => 6,
            NetHubArgument::Arg7 => 7,
            NetHubArgument::Arg8 => 8,
            NetHubArgument::Arg9 => 9,
        }
    }

    /// The offset of the register in the device's window.
    pub fn offset(&self) -> (offset: usize)
        ensures
            offset == ARGUMENTS_OFFSET + self.index(),
    {
        let index: usize = match self {
            NetHubArgument::Arg0 => 0,
            NetHubArgument::Arg1 => 1,
            NetHubArgument::Arg2 => 2,
            NetHubArgument::Arg3 => 3,
            NetHubArgument::Arg4 => 4,
            NetHubArgument::Arg5 => 5,
            NetHubArgument::Arg6 => 6,
            NetHubArgument::Arg7 => 7,
            NetHubArgument::Arg8 => 8,
            NetHubArgument::Arg9 => 9,
        };
        index + ARGUMENTS_OFFSET
    }
}


/// How the switch reports a failed operation. The variants stand in the order
/// of their status codes.
#[derive(Debug, Clone, Copy, PartialEq, Eq, PartialOrd, Ord, Structural)]
pub enum NetHubError {
    InvalidSize,
    InvalidPortMode,
    InvalidPort,
    Unknown,
}

impl NetHubError {
    /// The number that stands for the value in a register.
    pub open spec fn spec_code(self) -> int {
        match self {
            NetHubError::InvalidSize => -3,
            NetHubError::InvalidPortMode => -2,
            NetHubError::InvalidPort => -1,
            NetHubError::Unknown => 0xFF_FFFF,
        }
    }

    /// The value that a number stands for; a number that stands for none is
    /// `Unknown`.
    pub open spec fn decode(value: i64) -> Self {
        if value == -3 {
            NetHubError::InvalidSize
        } else if value == -2 {
            NetHubError::InvalidPortMode
        } else if value == -1 {
            NetHubError::InvalidPort
        } else {
            NetHubError::Unknown
        }
    }

    pub fn code(&self) -> (code: i64)
        ensures
            code == self.spec_code(),
    {
        match self {
            NetHubError::InvalidSize => -3,
            NetHubError::InvalidPortMode => -2,
            NetHubError::InvalidPort => -1,
            NetHubError::Unknown => 0xFF_FFFF,
        }
    }
}

impl From<i64> for NetHubError {
    fn from(value: i64) -> (decoded: Self) {
        if value == -3 {
            NetHubError::InvalidSize
        } else if value == -2 {
            NetHubError::InvalidPortMode
        } else if value == -1 {
            NetHubError::InvalidPort
        } else {
            NetHubError::Unknown
        }
    }
}

impl FromSpecImpl<i64> for NetHubError {
    open spec fn obeys_from_spec() -> bool {
        true
    }

    open spec fn from_spec(value: i64) -> Self {
        NetHubError::decode(value)
    }
}


/// Whether a port carries single signals or whole messages.
#[derive(Debug, Clone, Copy, PartialEq, Eq, PartialOrd, Ord, Structural)]
pub enum PortMode {
    Simple,
    Complex,
}

impl PortMode {
    /// The number that stands for the value in a register.
    pub open spec fn spec_code(self) -> u8 {
        match self {
            PortMode::Simple => 0,
            PortMode::Complex => 1,
        }
    }

    /// The value that a number stands for; a number that stands for none is
    /// `Simple`.
    pub open spec fn decode(value: u8) -> Self {
        if value == 1 {
            PortMode::Complex
        } else {
            PortMode::Simple
        }
    }

    pub fn code(&self) -> (code: u8)
        ensures
            code == self.spec_code(),
    {
        match self {
            PortMode::Simple => 0,
            PortMode::Complex => 1,
        }
    }
}

impl From<u8> for PortMode {
    fn from(value: u8) -> (decoded: Self) {
        if value == 1 {
            PortMode::Complex
        } else {
            PortMode::Simple
        }
    }
}

impl FromSpecImpl<u8> for PortMode {
    open spec fn obeys_from_spec() -> bool {
        true
    }

    open spec fn from_spec(value: u8) -> Self {
        PortMode::decode(value)
    }
}


/// What the switch can be asked to do.
#[derive(Debug, Clone, Copy)]
pub enum NetHubOp {
    SetInputPortEnabled { port: u8, state: bool },
    IsInputPortConnected { port: u8 },
    IsOutputPortConnected { port: u8 },
    InvokeSimpleOutputPort { port: u8 },
    IsInputPortPending { port: u8 },
    ClaimSimpleInputPort { port: u8 },
    GetInputPortMode { port: u8 },
    GetOutputPortMode { port: u8 },
    SetInputPortMode { port: u8, mode: PortMode },
    SetOutputPortMode { port: u8, mode: PortMode },
    InvokeComplexOutputPort { port: u8, address: usize, size: usize },
    GetPendingInputPort,
    ClaimComplexInputPort { port: u8, address: usize },
}

impl NetHubOp {
    /// The number that selects the operation.
    pub open spec fn spec_id(&self) -> u32 {
        match self {
            NetHubOp::SetInputPortEnabled { .. } => 0x0,
            NetHubOp::IsInputPortConnected { .. } => 0x1,
            NetHubOp::IsOutputPortConnected { .. } => 0x2,
            NetHubOp::InvokeSimpleOutputPort { .. } => 0x3,
            NetHubOp::IsInputPortPending { .. } => 0x4,
            NetHubOp::ClaimSimpleInputPort { .. } => 0x5,
            NetHubOp::GetInputPortMode { .. } => 0x6,
            NetHubOp::GetOutputPortMode { .. } => 0x7,
            NetHubOp::SetInputPortMode { .. } => 0x8,
            NetHubOp::SetOutputPortMode { .. } => 0x9,
            NetHubOp::InvokeComplexOutputPort { .. } => 0xa,
            NetHubOp::GetPendingInputPort => 0xb,
            NetHubOp::ClaimComplexInputPort { .. } => 0xc,
        }
    }

    /// What goes into the argument registers, from the first one on: the
    /// port, then what else the operation takes. A switch that is on stands
    /// as 1, one that is off as 0, a mode as its code.
    pub open spec fn spec_arguments(&self) -> Seq<usize> {
        match self {
            NetHubOp::SetInputPortEnabled { port, state } => seq![*port as usize, if *state { 1usize } else { 0usize }],
            NetHubOp::IsInputPortConnected { port } => seq![*port as usize],
            NetHubOp::IsOutputPortConnected { port } => seq![*port as usize],
            NetHubOp::InvokeSimpleOutputPort { port } => seq![*port as usize],
            NetHubOp::IsInputPortPending { port } => seq![*port as usize],
            NetHubOp::ClaimSimpleInputPort { port } => seq![*port as usize],
            NetHubOp::GetInputPortMode { port } => seq![*port as usize],
            NetHubOp::GetOutputPortMode { port } => seq![*port as usize],
            NetHubOp::SetInputPortMode { port, mode } => seq![*port as usize, mode.spec_code() as usize],
            NetHubOp::SetOutputPortMode { port, mode } => seq![*port as usize, mode.spec_code() as usize],
            NetHubOp::InvokeComplexOutputPort { port, address, size } => seq![*port as usize, *address, *size],
            NetHubOp::GetPendingInputPort => Seq::empty(),
            NetHubOp::ClaimComplexInputPort { port, address } => seq![*port as usize, *address],
        }
    }

    pub fn id(&self) -> (id: u32)
        ensures
            id == self.spec_id(),
    {
        match self {
            NetHubOp::SetInputPortEnabled { .. } => 0x0,
            NetHubOp::IsInputPortConnected { .. } => 0x1,
            NetHubOp::IsOutputPortConnected { .. } => 0x2,
            NetHubOp::InvokeSimpleOutputPort { .. } => 0x3,
            NetHubOp::IsInputPortPending { .. } => 0x4,
            NetHubOp::ClaimSimpleInputPort { .. } => 0x5,
            NetHubOp::GetInputPortMode { .. } => 0x6,
            NetHubOp::GetOutputPortMode { .. } => 0x7,
            NetHubOp::SetInputPortMode { .. } => 0x8,
            NetHubOp::SetOutputPortMode { .. } => 0x9,
            NetHubOp::InvokeComplexOutputPort { .. } => 0xa,
            NetHubOp::GetPendingInputPort => 0xb,
            NetHubOp::ClaimComplexInputPort { .. } => 0xc,
        }
    }

    pub fn arguments(&self) -> (arguments: Vec<usize>)
        ensures
            arguments@ == self.spec_arguments(),
    {
        let mut arguments: Vec<usize> = Vec::new();
        match self {
            NetHubOp::SetInputPortEnabled { port, state } => {
                arguments.push(*port as usize);
                arguments.push(if *state { 1usize } else { 0usize });
            },
            NetHubOp::IsInputPortConnected { port } => {
                arguments.push(*port as usize);
            },
            NetHubOp::IsOutputPortConnected { port } => {
                arguments.push(*port as usize);
            },
            NetHubOp::InvokeSimpleOutputPort { port } => {
                arguments.push(*port as usize);
            },
            NetHubOp::IsInputPortPending { port } => {
                arguments.push(*port as usize);
            },
            NetHubOp::ClaimSimpleInputPort { port } => {
                arguments.push(*port as usize);
            },
            NetHubOp::GetInputPortMode { port } => {
                arguments.push(*port as usize);
            },
            NetHubOp::GetOutputPortMode { port } => {
                arguments.push(*port as usize);
            },
            NetHubOp::SetInputPortMode { port, mode } => {
                arguments.push(*port as usize);
                arguments.push(mode.code() as usize);
            },
            NetHubOp::SetOutputPortMode { port, mode } => {
                arguments.push(*port as usize);
                arguments.push(mode.code() as usize);
            },
            NetHubOp::InvokeComplexOutputPort { port, address, size } => {
                arguments.push(*port as usize);
                arguments.push(*address);
                arguments.push(*size);
            },
            NetHubOp::GetPendingInputPort => {
            },
            NetHubOp::ClaimComplexInputPort { port, address } => {
                arguments.push(*port as usize);
                arguments.push(*address);
            },
        }
        assert(arguments@ =~= self.spec_arguments());
        arguments
    }
}

impl NetworkSwitch {
    /// Reads the result register's value: a negative one is an error's code,
    /// any other is the operation's answer.
    pub fn decode_result(status: i64) -> (result: Result<i64, NetHubError>)
        ensures
            result == if status < 0 {
                Err::<i64, NetHubError>(NetHubError::decode(status))
            } else {
                Ok::<i64, NetHubError>(status)
            },
    {
        if status < 0 {
            Err(NetHubError::from(status))
        } else {
            Ok(status)
        }
    }
}

} // verus!
