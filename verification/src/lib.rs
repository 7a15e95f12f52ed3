//! The devices of a small machine and the storage stack on top of its drives.
//!
//! The storage stack is the heart of the crate: `disk` defines what a block
//! device is and adapts the two drives to it, `partitions` holds the
//! simplified partition table, `fs` the superblock of the MFLAW file system,
//! `codec` the byte order that both use on the disk. The other modules
//! describe the devices of the machine: where their registers lie, what the
//! numbers in them mean, and how operations and their results are encoded.
//! Nothing here touches a register; every function works on plain values.
pub mod apm;
pub mod clint;
pub mod codec;
pub mod disk;
pub mod flash;
pub mod floppy_drive;
pub mod fs;
pub mod gpu;
pub mod hdd;
pub mod health_analyzer;
pub mod hid;
pub mod mmio;
pub mod net_hub;
pub mod partitions;
pub mod pci;
pub mod plic;
pub mod rtc;
pub mod screen;
pub mod serial_terminal;
pub mod sgl;
pub mod tpm;
pub mod tts;
