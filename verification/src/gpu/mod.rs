//! The graphics device: what it is, apart from the drawing itself.
use crate::pci::PciDevice;
use vstd::prelude::*;
use vstd::std_specs::convert::FromSpecImpl;

pub mod color;
pub mod ops;
pub mod painter;
pub mod registers;

pub use color::{Color, Pixel};
pub use ops::GpuOpKind;
pub use painter::{
    BlendMode, FilterQuality, HintingLevel, ObjectType, PainterStyle, PointMode, TextAlign,
};
pub use registers::{GpuArgument, GpuError};

verus! {

/// The device number under which the bus lists the graphics device.
pub const DEVICE_ID: u16 = 0x66;

/// The graphics device on the bus.
#[derive(Debug, Clone, Copy)]
pub struct Gpu {
    pub device: PciDevice,
}

impl From<PciDevice> for Gpu {
    fn from(device: PciDevice) -> (found: Self) {
        Self { device }
    }
}

impl FromSpecImpl<PciDevice> for Gpu {
    open spec fn obeys_from_spec() -> bool {
        true
    }

    open spec fn from_spec(device: PciDevice) -> Self {
        Self { device }
    }
}

impl Gpu {
    /// Reads the result register's value: a negative one is an error's code,
    /// any other is the operation's answer.
    pub fn decode_result(status: i64) -> (result: Result<i64, GpuError>)
        ensures
            result == if status < 0 {
                Err::<i64, GpuError>(GpuError::decode(status))
            } else {
                Ok::<i64, GpuError>(status)
            },
    {
        if status < 0 {
            Err(GpuError::from(status))
        } else {
            Ok(status)
        }
    }
}

} // verus!
