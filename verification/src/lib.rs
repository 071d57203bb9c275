//! A verified 68000-style processor core for a 16-bit console emulator: the
//! fetch-decode-execute cycle, the register and flag model, the addressing
//! mode resolver, the memory bus mapping the 24-bit address space onto
//! cartridge ROM and work RAM, and the interrupt/exception controller that
//! routes faults and hardware interrupts through one vectoring mechanism.
//!
//! Every bus access, decoded opcode, arithmetic result, flag update and
//! exception transfer carries a contract; the host around the core only
//! loads cartridges, paces wall-clock time and forwards input.

pub mod alu;
pub mod bus;
pub mod console;
pub mod cpu;
pub mod cycles;
pub mod instr;
pub mod model;
pub mod regs;
pub mod status;
pub mod types;
