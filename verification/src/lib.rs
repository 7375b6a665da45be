//! Instruction-level core of a MIPS-style game-console emulator: a CPU that
//! fetches, decodes, and executes 32-bit instruction words against a memory
//! bus made of a boot ROM and a handful of memory-mapped configuration
//! registers.
//!
//! The crate is organised leaves-first:
//! - [`errors`] — the fault taxonomy shared by decode and bus dispatch;
//! - [`decode`] — pure bit-field extraction over an instruction word;
//! - [`render`] — verified hexadecimal/decimal text for trace entries;
//! - [`bus`] — the interconnect that routes aligned loads and stores to the
//!   device whose address range claims them;
//! - [`cpu`] — the execution engine with its register file, branch-delay-slot
//!   timing, and append-only instruction trace.
use vstd::prelude::*;

pub mod bus;
pub mod cpu;
pub mod decode;
pub mod errors;
pub mod render;

verus! {

pub use bus::Bios;
pub use bus::Interconnect;
pub use bus::AddressRange;
pub use cpu::Cpu;
pub use cpu::RegisterIndex;
pub use cpu::HumanReadableInstruction;
pub use cpu::HumanReadableEvalInstruction;
pub use cpu::InstructionForDebugger;
pub use decode::Instruction;
pub use decode::Opcode;
pub use decode::SecondaryOpcode;
pub use errors::PsemuCoreError;

} // verus!
