use vstd::prelude::*;

use crate::bus::Bus;
use crate::cpu::CPU;
use crate::status::Status;

verus! {

/// The console: the processor core wired to its memory map. The display and
/// input loop around it is host glue and lives outside the core; the host
/// drives emulation by calling `step` on the processor and pacing real time
/// from the returned cycle counts.
pub struct Console {
    pub cpu: CPU,
}

impl Console {
    /// A console with the default power-up memory map and a cleared core:
    /// every register, the program counter and the status word are zero, the
    /// vector-table ROM occupies the bottom 1 KiB and work RAM the top 64 KiB.
    pub fn new_mega_drive() -> (r: Console)
        ensures
            r.cpu.wf(),
            r.cpu.pc == 0,
            r.cpu.pending == 0,
            r.cpu.sr == Status::spec_power_up(),
            forall|i: int| 0 <= i < 8 ==> r.cpu.regs.d@[i] == 0,
            forall|i: int, sup: bool| 0 <= i < 8 ==> r.cpu.regs.spec_a(i, sup) == 0,
            r.cpu.bus.rom_start == 0 && r.cpu.bus.rom_end == 0x3FF,
            r.cpu.bus.ram_start == 0xFF_0000 && r.cpu.bus.ram_end == 0xFF_FFFF,
            forall|i: int| 0 <= i < r.cpu.bus.rom@.len() ==> r.cpu.bus.rom@[i] == 0,
            forall|i: int| 0 <= i < r.cpu.bus.ram@.len() ==> r.cpu.bus.ram@[i] == 0,
    {
        let cpu = CPU::new_68k();
        Console { cpu }
    }

    /// A console whose memory map was built from a cartridge configuration
    /// (the loader hands over the ROM image and the declared ROM/RAM address
    /// ranges; a misconfigured or overlapping range is rejected).
    pub fn with_cartridge(rom: Vec<u8>, rom_start: u32, rom_end: u32, ram_start: u32, ram_end: u32)
        -> (r: Option<Console>)
        ensures
            r matches Some(c) ==> {
                &&& c.cpu.wf()
                &&& c.cpu.pc == 0
                &&& c.cpu.pending == 0
                &&& c.cpu.sr == Status::spec_power_up()
                &&& forall|i: int| 0 <= i < 8 ==> c.cpu.regs.d@[i] == 0
                &&& forall|i: int, sup: bool| 0 <= i < 8 ==> c.cpu.regs.spec_a(i, sup) == 0
                &&& c.cpu.bus.rom@ == rom@
                &&& c.cpu.bus.rom_start == rom_start
                &&& c.cpu.bus.rom_end == rom_end
                &&& c.cpu.bus.ram_start == ram_start
                &&& c.cpu.bus.ram_end == ram_end
                &&& forall|i: int| 0 <= i < c.cpu.bus.ram@.len() ==> c.cpu.bus.ram@[i] == 0
            },
            r is Some <==> {
                &&& rom_start <= rom_end < 0x1000000
                &&& ram_start <= ram_end < 0x1000000
                &&& rom@.len() == rom_end - rom_start + 1
                &&& (rom_end < ram_start || ram_end < rom_start)
            },
    {
        match Bus::new(rom, rom_start, rom_end, ram_start, ram_end) {
            Some(bus) => Some(Console { cpu: CPU::with_bus(bus) }),
            None => None,
        }
    }
}

} // verus!
