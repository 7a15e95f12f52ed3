//! The serial terminal.
use crate::pci::PciDevice;
use vstd::prelude::*;
use vstd::std_specs::convert::FromSpecImpl;

verus! {

/// The device number under which the bus lists the serial terminal.
pub const DEVICE_ID: u16 = 0x65;

/// The most bytes that one read of the terminal takes in.
pub const BUFFER_SIZE: usize = 1024;

/// The serial terminal on the bus.
#[derive(Debug, Clone, Copy)]
pub struct SerialTerminal {
    pub device: PciDevice,
}

impl From<PciDevice> for SerialTerminal {
    fn from(device: PciDevice) -> (found: Self) {
        Self { device }
    }
}

impl FromSpecImpl<PciDevice> for SerialTerminal {
    open spec fn obeys_from_spec() -> bool {
        true
    }

    open spec fn from_spec(device: PciDevice) -> Self {
        Self { device }
    }
}

/// What a read of the terminal has taken in so far. The terminal hands over
/// one byte at a time; a zero byte ends what it has to say.
pub struct ReadBuffer {
    buffer: [u8; 1024],
    length: usize,
}

/// What follows from one more byte.
pub enum ReadStep {
    /// The read goes on with the next byte.
    More,
    /// The read is over. It gives the buffer with the bytes that came before
    /// the zero byte, or nothing: where no byte came before it, and where
    /// the buffer was full before it came.
    Done(Option<[u8; 1024]>),
}

impl ReadBuffer {
    #[verifier::type_invariant]
    spec fn well_formed(self) -> bool {
        self.length < 1024 && forall|i: int| self.length <= i < 1024 ==> self.buffer@[i] == 0
    }

    /// The bytes taken in so far.
    pub closed spec fn taken(&self) -> Seq<u8> {
        self.buffer@.subrange(0, self.length as int)
    }

    /// The buffer as it is handed out: the bytes taken in, then zeroes.
    pub closed spec fn padded(&self) -> Seq<u8> {
        self.buffer@
    }

    /// An empty buffer.
    pub fn new() -> (buffer: Self)
        ensures
            buffer.taken().len() == 0,
    {
        Self { buffer: [0u8; 1024], length: 0 }
    }

    /// Takes the next byte that the terminal handed over.
    pub fn feed(&mut self, byte: u8) -> (step: ReadStep)
        ensures
            match step {
                ReadStep::More => {
                    &&& byte != 0
                    &&& final(self).taken() == old(self).taken().push(byte)
                    &&& final(self).taken().len() < 1024
                },
                ReadStep::Done(None) => {
                    ||| byte == 0 && old(self).taken().len() == 0
                    ||| byte != 0 && old(self).taken().len() == 1023
                },
                ReadStep::Done(Some(bytes)) => {
                    &&& byte == 0
                    &&& old(self).taken().len() > 0
                    &&& bytes@ == old(self).padded()
                    &&& bytes@.subrange(0, old(self).taken().len() as int) == old(self).taken()
                },
            },
    {
        proof {
            use_type_invariant(&*self);
        }
        if byte == 0 {
            if self.length == 0 {
                return ReadStep::Done(None);
            }
            return ReadStep::Done(Some(self.buffer));
        }
        if self.length == 1023 {
            return ReadStep::Done(None);
        }
        let ghost before = self.taken();
        let at = self.length;
        let mut buffer = self.buffer;
        buffer[at] = byte;
        *self = ReadBuffer { buffer, length: at + 1 };
        assert(self.taken() =~= before.push(byte));
        ReadStep::More
    }
}

} // verus!
