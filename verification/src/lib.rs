//! An instruction-level MOS 6502 processor core.
//!
//! The crate models the fetch-decode-execute cycle of the 6502: a flat
//! 64 KiB memory bus, a total decode table from opcode bytes to
//! instruction descriptors, the thirteen addressing modes with their
//! page-crossing cycle penalties, and the opcode semantics that mutate
//! registers, flags and memory.  Every public operation carries a
//! contract that pins its result to a pure specification of the
//! processor's transition function.

pub mod addressing_mode;
pub mod bus;
pub mod cpu_6502;
pub mod instruction;
pub mod opcode;
pub mod read;
pub mod state;
pub mod write;
