//! Dual-bank firmware update and automatic-rollback subsystem of a
//! satellite onboard computer.
//!
//! The microcontroller carries two independent flash banks; a persistent
//! hardware bit selects which one is mapped at the boot address.  This
//! library holds the verified logic of that subsystem: encoding and
//! decoding of the persisted next-boot-bank slot, bit-exact classification
//! of the hardware reset-cause register, the first-stage bootloader's
//! bank decision, the option-byte state machine, the runtime boot manager,
//! and the flash programmers used by the external flashing tool.
//!
//! Hardware register access, interrupt masking and the final jump into
//! application code cannot be verified; they live outside this crate and
//! hand plain values in and out.

pub mod bootbank;
pub mod bootloader;
pub mod bootmeta;
pub mod btmgr;
pub mod flasher;
pub mod iflash;
pub mod once_cell;
pub mod option_bytes;
pub mod perf;
pub mod reset;
pub mod ringbuf;
