use vstd::prelude::*;

use crate::bus::Bus;
use crate::instr::EA;
use crate::regs::Regs;
use crate::status::FlagSet;
use crate::status::Status;
use crate::types::CoreError;
use crate::types::Fault;
use crate::types::Size;
use crate::types::masked;

verus! {

/// The 24-bit portion of an address that reaches the bus.
pub open spec fn addr24(a: u32) -> u32 {
    a % 0x100_0000
}

/// 32-bit wrap-around addition, as address arithmetic performs it.
pub open spec fn wrap_add32(a: u32, b: u32) -> u32 {
    ((a + b) % 0x1_0000_0000) as u32
}

/// Sign extension of a 16-bit word to 32 bits.
pub open spec fn spec_sext16(w: u16) -> u32 {
    if w >= 0x8000 {
        (w + 0xFFFF_0000) as u32
    } else {
        w as u32
    }
}

/// Sign extension of an 8-bit byte to 32 bits.
pub open spec fn spec_sext8(b: u8) -> u32 {
    if b >= 0x80 {
        (b + 0xFFFF_FF00) as u32
    } else {
        b as u32
    }
}

pub fn mask24(a: u32) -> (r: u32)
    ensures
        r == addr24(a),
{
    a % 0x100_0000
}

pub fn wadd32(a: u32, b: u32) -> (r: u32)
    ensures
        r == wrap_add32(a, b),
{
    ((a as u64 + b as u64) % 0x1_0000_0000) as u32
}

/// 32-bit wrap-around subtraction (executable form of `wrap_sub32`).
pub fn wsub32(a: u32, b: u32) -> (r: u32)
    ensures
        r == wrap_sub32(a, b),
{
    ((a as u64 + (0x1_0000_0000 - b as u64)) % 0x1_0000_0000) as u32
}

pub fn sext16(w: u16) -> (r: u32)
    ensures
        r == spec_sext16(w),
{
    if w >= 0x8000 {
        w as u32 + 0xFFFF_0000
    } else {
        w as u32
    }
}

pub fn sext8(b: u8) -> (r: u32)
    ensures
        r == spec_sext8(b),
{
    if b >= 0x80 {
        b as u32 + 0xFFFF_FF00
    } else {
        b as u32
    }
}


/// 32-bit wrap-around subtraction as a spec value.
pub open spec fn wrap_sub32(a: u32, n: u32) -> u32 {
    ((a + 0x1_0000_0000 - n) % 0x1_0000_0000) as u32
}

/// The truth of a branch condition field against the condition codes:
/// high, low-or-same, carry clear/set, not-equal/equal, overflow clear/set,
/// plus/minus, and the four signed comparisons.
pub open spec fn spec_cond(c: u8, sr: Status) -> bool {
    if c == 2 {
        !sr.carry && !sr.zero
    } else if c == 3 {
        sr.carry || sr.zero
    } else if c == 4 {
        !sr.carry
    } else if c == 5 {
        sr.carry
    } else if c == 6 {
        !sr.zero
    } else if c == 7 {
        sr.zero
    } else if c == 8 {
        !sr.overflow
    } else if c == 9 {
        sr.overflow
    } else if c == 10 {
        !sr.negative
    } else if c == 11 {
        sr.negative
    } else if c == 12 {
        sr.negative == sr.overflow
    } else if c == 13 {
        sr.negative != sr.overflow
    } else if c == 14 {
        !sr.zero && sr.negative == sr.overflow
    } else {
        sr.zero || sr.negative != sr.overflow
    }
}

pub fn cond_true(c: u8, sr: &Status) -> (r: bool)
    requires
        2 <= c <= 15,
    ensures
        r == spec_cond(c, *sr),
{
    if c == 2 {
        !sr.carry && !sr.zero
    } else if c == 3 {
        sr.carry || sr.zero
    } else if c == 4 {
        !sr.carry
    } else if c == 5 {
        sr.carry
    } else if c == 6 {
        !sr.zero
    } else if c == 7 {
        sr.zero
    } else if c == 8 {
        !sr.overflow
    } else if c == 9 {
        sr.overflow
    } else if c == 10 {
        !sr.negative
    } else if c == 11 {
        sr.negative
    } else if c == 12 {
        sr.negative == sr.overflow
    } else if c == 13 {
        sr.negative != sr.overflow
    } else if c == 14 {
        !sr.zero && sr.negative == sr.overflow
    } else {
        sr.zero || sr.negative != sr.overflow
    }
}

/// The memory map is never reshaped by execution: ROM contents and both
/// region bounds survive every operation; only RAM contents, registers and
/// the status word may change.
pub open spec fn keeps_map(pre: CPU, post: CPU) -> bool {
    &&& post.bus.rom@ == pre.bus.rom@
    &&& post.bus.rom_start == pre.bus.rom_start
    &&& post.bus.rom_end == pre.bus.rom_end
    &&& post.bus.ram_start == pre.bus.ram_start
    &&& post.bus.ram_end == pre.bus.ram_end
}

/// A resolved operand location: a data or address register, a memory address
/// (already reduced to the 24-bit bus space), or an immediate value fetched
/// from the instruction stream.
#[derive(Clone, Copy, Debug, PartialEq, Eq, Structural)]
pub enum Operand {
    InD(u8),
    InA(u8),
    Mem(u32),
    ImmVal(u32),
}

impl Operand {
    pub open spec fn wf(self) -> bool {
        match self {
            Operand::InD(r) => r < 8,
            Operand::InA(r) => r < 8,
            Operand::Mem(a) => a < 0x100_0000,
            Operand::ImmVal(_) => true,
        }
    }
}

/// The processor core: bus, register file, status word, program counter and
/// the highest pending interrupt request. One `step` call runs one full
/// fetch-decode-resolve-execute-commit-interrupt-check round and reports its
/// cycle cost.
pub struct CPU {
    pub bus: Bus,
    pub regs: Regs,
    pub sr: Status,
    /// Program counter; only its low 24 bits ever reach the bus.
    pub pc: u32,
    /// Highest pending interrupt priority, 0 when none is pending.
    pub pending: u8,
}

impl CPU {
    /// The machine state this core embodies, for the step interpreter in the
    /// model module.
    pub open spec fn m(self) -> crate::model::Machine {
        crate::model::Machine {
            rom: self.bus.rom@,
            rom_start: self.bus.rom_start,
            rom_end: self.bus.rom_end,
            ram: self.bus.ram@,
            ram_start: self.bus.ram_start,
            ram_end: self.bus.ram_end,
            d: self.regs.d@,
            a: self.regs.a@,
            usp: self.regs.usp,
            ssp: self.regs.ssp,
            sr: self.sr,
            pc: self.pc,
            pending: self.pending,
        }
    }

    pub open spec fn wf(self) -> bool {
        &&& self.bus.wf()
        &&& self.regs.wf()
        &&& self.sr.wf()
        &&& self.pending <= 7
    }

    /// A processor wired to the default power-up memory map: a 1 KiB
    /// zero-filled ROM at the bottom of the address space holding the vector
    /// table, and work RAM in the top 64 KiB. Every register, the program
    /// counter and the whole status word start cleared.
    pub fn new_68k() -> (r: CPU)
        ensures
            r.wf(),
            r.pc == 0,
            r.pending == 0,
            r.sr == Status::spec_power_up(),
            forall|i: int| 0 <= i < 8 ==> r.regs.d@[i] == 0,
            forall|i: int, sup: bool| 0 <= i < 8 ==> r.regs.spec_a(i, sup) == 0,
            r.bus.rom_start == 0 && r.bus.rom_end == 0x3FF,
            r.bus.ram_start == 0xFF_0000 && r.bus.ram_end == 0xFF_FFFF,
            forall|i: int| 0 <= i < r.bus.rom@.len() ==> r.bus.rom@[i] == 0,
            forall|i: int| 0 <= i < r.bus.ram@.len() ==> r.bus.ram@[i] == 0,
    {
        let mut rom: Vec<u8> = Vec::new();
        let mut k: usize = 0;
        while k < 0x400
            invariant
                k <= 0x400,
                rom@.len() == k,
                forall|i: int| 0 <= i < k ==> rom@[i] == 0,
            decreases 0x400 - k,
        {
            rom.push(0);
            k = k + 1;
        }
        let bus = match Bus::new(rom, 0, 0x3FF, 0xFF_0000, 0xFF_FFFF) {
            Some(b) => b,
            None => {
                // The fixed power-up map always satisfies the constructor's
                // stated acceptance condition.
                proof {
                    assert(false);
                }
                unreached()
            },
        };
        CPU { bus, regs: Regs::new(), sr: Status::power_up(), pc: 0, pending: 0 }
    }

    /// A processor wired to a caller-supplied memory map, typically built
    /// from a cartridge configuration. Registers, program counter and status
    /// word start cleared.
    pub fn with_bus(bus: Bus) -> (r: CPU)
        requires
            bus.wf(),
        ensures
            r.wf(),
            r.bus == bus,
            r.pc == 0,
            r.pending == 0,
            r.sr == Status::spec_power_up(),
            forall|i: int| 0 <= i < 8 ==> r.regs.d@[i] == 0,
            forall|i: int, sup: bool| 0 <= i < 8 ==> r.regs.spec_a(i, sup) == 0,
    {
        CPU { bus, regs: Regs::new(), sr: Status::power_up(), pc: 0, pending: 0 }
    }

    /// The explicit privilege-mode switch: it changes which physical slot
    /// backs address register 7 and nothing else - no register value moves.
    pub fn set_supervisor_state(&mut self, v: bool)
        requires
            old(self).wf(),
        ensures
            final(self).wf(),
            final(self).sr == (Status { supervisor: v, ..old(self).sr }),
            final(self).regs == old(self).regs,
            final(self).bus == old(self).bus,
            final(self).pc == old(self).pc,
            final(self).pending == old(self).pending,
    {
        self.sr.supervisor = v;
    }

    pub fn set_supervisor_trace(&mut self, v: bool)
        requires
            old(self).wf(),
        ensures
            final(self).wf(),
            *final(self) == (CPU { sr: Status { trace: v, ..old(self).sr }, ..*old(self) }),
    {
        self.sr.trace = v;
    }

    pub fn set_extend(&mut self, v: bool)
        requires
            old(self).wf(),
        ensures
            final(self).wf(),
            *final(self) == (CPU { sr: Status { extend: v, ..old(self).sr }, ..*old(self) }),
    {
        self.sr.extend = v;
    }

    /// Set the negative (sign) flag.
    pub fn set_sign(&mut self, v: bool)
        requires
            old(self).wf(),
        ensures
            final(self).wf(),
            *final(self) == (CPU { sr: Status { negative: v, ..old(self).sr }, ..*old(self) }),
    {
        self.sr.negative = v;
    }

    pub fn set_zero(&mut self, v: bool)
        requires
            old(self).wf(),
        ensures
            final(self).wf(),
            *final(self) == (CPU { sr: Status { zero: v, ..old(self).sr }, ..*old(self) }),
    {
        self.sr.zero = v;
    }

    pub fn set_overflow(&mut self, v: bool)
        requires
            old(self).wf(),
        ensures
            final(self).wf(),
            *final(self) == (CPU { sr: Status { overflow: v, ..old(self).sr }, ..*old(self) }),
    {
        self.sr.overflow = v;
    }

    pub fn set_carry(&mut self, v: bool)
        requires
            old(self).wf(),
        ensures
            final(self).wf(),
            *final(self) == (CPU { sr: Status { carry: v, ..old(self).sr }, ..*old(self) }),
    {
        self.sr.carry = v;
    }

    /// Replace the five condition codes from the low bits of a byte, keeping
    /// the privileged upper byte untouched.
    pub fn set_flags(&mut self, v: u8)
        requires
            old(self).wf(),
        ensures
            final(self).wf(),
            final(self).sr == (Status {
                extend: v / 0x10 % 2 == 1,
                negative: v / 0x8 % 2 == 1,
                zero: v / 0x4 % 2 == 1,
                overflow: v / 0x2 % 2 == 1,
                carry: v / 0x1 % 2 == 1,
                ..old(self).sr
            }),
            final(self).regs == old(self).regs,
            final(self).bus == old(self).bus,
            final(self).pc == old(self).pc,
            final(self).pending == old(self).pending,
    {
        self.sr.write_ccr(v);
    }

    /// Record an external interrupt request of priority 1-7; only the highest
    /// pending priority is remembered, as the controller arbitrates by
    /// priority alone.
    pub fn request_interrupt(&mut self, level: u8)
        requires
            old(self).wf(),
            1 <= level <= 7,
        ensures
            final(self).wf(),
            final(self).pending == if level > old(self).pending {
                level
            } else {
                old(self).pending
            },
            final(self).regs == old(self).regs,
            final(self).bus == old(self).bus,
            final(self).sr == old(self).sr,
            final(self).pc == old(self).pc,
    {
        if level > self.pending {
            self.pending = level;
        }
    }

    /// Fetch the word at the program counter and advance past it.
    fn fetch_word(&mut self) -> (r: Result<u16, Fault>)
        requires
            old(self).wf(),
        ensures
            final(self).wf(),
            final(self).bus == old(self).bus,
            final(self).regs == old(self).regs,
            final(self).sr == old(self).sr,
            final(self).pending == old(self).pending,
            r == match old(self).bus.spec_read(addr24(old(self).pc), Size::Word) {
                Ok(v) => Ok::<u16, Fault>((v % 0x10000) as u16),
                Err(f) => Err::<u16, Fault>(f),
            },
            r is Ok ==> final(self).pc == wrap_add32(old(self).pc, 2),
            r is Err ==> final(self).pc == old(self).pc,
            ({
                let (s1, w) = crate::model::m_fetch(old(self).m());
                final(self).m() == s1 && r == w
            }),
    {
        match self.bus.read(mask24(self.pc), Size::Word) {
            Ok(v) => {
                self.pc = wadd32(self.pc, 2);
                Ok((v % 0x10000) as u16)
            },
            Err(f) => Err(f),
        }
    }

    /// Compute an operand's location, fetching any extension words (the only
    /// processor state this touches is the program counter and, for the
    /// post-increment and pre-decrement modes, the named address register).
    #[verifier::rlimit(100)]
    #[verifier::spinoff_prover]
    fn resolve_ea(&mut self, ea: EA, sz: Size) -> (r: Result<Operand, Fault>)
        requires
            old(self).wf(),
            ea.wf(),
        ensures
            final(self).wf(),
            final(self).bus == old(self).bus,
            final(self).regs.d == old(self).regs.d,
            final(self).sr == old(self).sr,
            final(self).pending == old(self).pending,
            r matches Ok(op) ==> op.wf(),
            r matches Ok(op) ==> ((op is ImmVal) <==> (ea is Imm)),
            r matches Ok(op) ==> ((op is Mem) <==> (ea.is_mem_alterable() || ea is PcDisp)),
            !(ea is PostInc || ea is PreDec) ==> final(self).regs == old(self).regs,
            ({
                let (s1, o) = crate::model::m_resolve(old(self).m(), ea, sz);
                final(self).m() == s1 && r == o
            }),
    {
        let sup = self.sr.supervisor;
        match ea {
            EA::DataReg(n) => Ok(Operand::InD(n)),
            EA::AddrReg(n) => Ok(Operand::InA(n)),
            EA::Ind(n) => Ok(Operand::Mem(mask24(self.regs.read_a(n as usize, sup)))),
            EA::PostInc(n) => {
                let a = self.regs.read_a(n as usize, sup);
                self.regs.write_a(n as usize, sup, wadd32(a, sz.bytes()));
                Ok(Operand::Mem(mask24(a)))
            },
            EA::PreDec(n) => {
                let a = wsub32(self.regs.read_a(n as usize, sup), sz.bytes());
                self.regs.write_a(n as usize, sup, a);
                Ok(Operand::Mem(mask24(a)))
            },
            EA::Disp(n) => {
                let d = match self.fetch_word() {
                    Ok(d) => d,
                    Err(f) => {
                        return Err(f);
                    },
                };
                let a = self.regs.read_a(n as usize, sup);
                Ok(Operand::Mem(mask24(wadd32(a, sext16(d)))))
            },
            EA::Index(n) => {
                let ext = match self.fetch_word() {
                    Ok(d) => d,
                    Err(f) => {
                        return Err(f);
                    },
                };
                let xreg = ((ext / 0x1000) % 8) as usize;
                let xraw = if ext / 0x8000 == 1 {
                    self.regs.read_a(xreg, sup)
                } else {
                    self.regs.read_d(xreg)
                };
                let xval = if ext / 0x800 % 2 == 1 {
                    xraw
                } else {
                    sext16((xraw % 0x10000) as u16)
                };
                let a = self.regs.read_a(n as usize, sup);
                let d8 = sext8((ext % 0x100) as u8);
                Ok(Operand::Mem(mask24(wadd32(wadd32(a, xval), d8))))
            },
            EA::AbsShort => {
                match self.fetch_word() {
                    Ok(d) => Ok(Operand::Mem(mask24(sext16(d)))),
                    Err(f) => Err(f),
                }
            },
            EA::AbsLong => {
                let hi = match self.fetch_word() {
                    Ok(d) => d,
                    Err(f) => {
                        return Err(f);
                    },
                };
                let lo = match self.fetch_word() {
                    Ok(d) => d,
                    Err(f) => {
                        return Err(f);
                    },
                };
                Ok(Operand::Mem(mask24((hi as u32) * 0x10000 + lo as u32)))
            },
            EA::PcDisp => {
                let base = self.pc;
                match self.fetch_word() {
                    Ok(d) => Ok(Operand::Mem(mask24(wadd32(base, sext16(d))))),
                    Err(f) => Err(f),
                }
            },
            EA::Imm => {
                match sz {
                    Size::Byte => match self.fetch_word() {
                        Ok(d) => Ok(Operand::ImmVal((d % 0x100) as u32)),
                        Err(f) => Err(f),
                    },
                    Size::Word => match self.fetch_word() {
                        Ok(d) => Ok(Operand::ImmVal(d as u32)),
                        Err(f) => Err(f),
                    },
                    Size::Long => {
                        let hi = match self.fetch_word() {
                            Ok(d) => d,
                            Err(f) => {
                                return Err(f);
                            },
                        };
                        let lo = match self.fetch_word() {
                            Ok(d) => d,
                            Err(f) => {
                                return Err(f);
                            },
                        };
                        Ok(Operand::ImmVal((hi as u32) * 0x10000 + lo as u32))
                    },
                }
            },
        }
    }

    /// Read an operand's value, truncated to the operand size.
    fn read_operand(&self, op: Operand, sz: Size) -> (r: Result<u32, Fault>)
        requires
            self.wf(),
            op.wf(),
        ensures
            op matches Operand::InD(n) ==> r == Ok::<u32, Fault>(
                masked(self.regs.d@[n as int], sz),
            ),
            op matches Operand::InA(n) ==> r == Ok::<u32, Fault>(
                masked(self.regs.spec_a(n as int, self.sr.supervisor), sz),
            ),
            op matches Operand::ImmVal(v) ==> r == Ok::<u32, Fault>(masked(v, sz)),
            op matches Operand::Mem(a) ==> r == self.bus.spec_read(a, sz),
            r matches Ok(v) ==> v == masked(v, sz),
            r == crate::model::m_read_operand(self.m(), op, sz),
    {
        match op {
            Operand::InD(n) => Ok(crate::types::mask_to(self.regs.read_d(n as usize), sz)),
            Operand::InA(n) => Ok(
                crate::types::mask_to(self.regs.read_a(n as usize, self.sr.supervisor), sz),
            ),
            Operand::ImmVal(v) => Ok(crate::types::mask_to(v, sz)),
            Operand::Mem(a) => {
                let r = self.bus.read(a, sz);
                proof {
                    crate::bus::lemma_read_masked(self.bus, a, sz);
                }
                r
            },
        }
    }

    /// Write a value into an operand location at a size. A data register
    /// keeps its untouched upper bytes; an address register always takes the
    /// full value; memory takes the value big-endian.
    fn write_operand(&mut self, op: Operand, sz: Size, v: u32) -> (r: Result<(), Fault>)
        requires
            old(self).wf(),
            op.wf(),
            !(op is ImmVal),
        ensures
            final(self).wf(),
            final(self).sr == old(self).sr,
            final(self).pc == old(self).pc,
            final(self).pending == old(self).pending,
            final(self).bus.rom@ == old(self).bus.rom@,
            final(self).bus.rom_start == old(self).bus.rom_start,
            final(self).bus.rom_end == old(self).bus.rom_end,
            final(self).bus.ram_start == old(self).bus.ram_start,
            final(self).bus.ram_end == old(self).bus.ram_end,
            op is InD || op is InA ==> final(self).bus == old(self).bus && r == Ok::<(), Fault>(
                (),
            ),
            op matches Operand::InD(n) ==> final(self).regs.d@ == old(self).regs.d@.update(
                n as int,
                (old(self).regs.d@[n as int] - masked(old(self).regs.d@[n as int], sz) + masked(
                    v,
                    sz,
                )) as u32,
            ) && final(self).regs.a == old(self).regs.a && final(self).regs.usp == old(
                self,
            ).regs.usp && final(self).regs.ssp == old(self).regs.ssp,
            op is Mem ==> final(self).regs == old(self).regs,
            op matches Operand::Mem(a) ==> r == old(self).bus.spec_write_result(a, sz) && (
            r is Ok ==> final(self).bus.ram@ == crate::bus::store_be(
                old(self).bus.ram@,
                a - old(self).bus.ram_start,
                sz,
                v,
            )) && (r is Err ==> final(self).bus.ram@ == old(self).bus.ram@),
            ({
                let (s1, w) = crate::model::m_write_operand(old(self).m(), op, sz, v);
                final(self).m() == s1 && r == w
            }),
    {
        match op {
            Operand::InD(n) => {
                let oldv = self.regs.read_d(n as usize);
                let nv = match sz {
                    Size::Byte => (oldv / 0x100) * 0x100 + v % 0x100,
                    Size::Word => (oldv / 0x10000) * 0x10000 + v % 0x10000,
                    Size::Long => v,
                };
                self.regs.write_d(n as usize, nv);
                Ok(())
            },
            Operand::InA(n) => {
                let sup = self.sr.supervisor;
                self.regs.write_a(n as usize, sup, v);
                Ok(())
            },
            Operand::Mem(a) => self.bus.write(a, sz, v),
            Operand::ImmVal(_) => Err(Fault::IllegalInstruction),
        }
    }
}

impl CPU {
    /// The one vectoring routine, invoked uniformly from every fault site and
    /// from the post-instruction interrupt check. It reads the vector-table
    /// entry for slot `vec`, refuses an unreadable or zero entry as fatal,
    /// pushes the status word and then the program counter onto the
    /// supervisor stack (forcing supervisor mode first), clears trace, raises
    /// the interrupt mask when an interrupt (not a fault) is being accepted,
    /// and resumes at the vectored address. A push that would itself fault is
    /// a double fault; nothing is changed on either fatal outcome.
    fn process_exception(&mut self, vec: u8, raise_mask: Option<u8>) -> (r: Result<(), CoreError>)
        requires
            old(self).wf(),
            vec <= 31,
            raise_mask matches Some(l) ==> l <= 7,
        ensures
            final(self).wf(),
            keeps_map(*old(self), *final(self)),
            final(self).pending == old(self).pending,
            final(self).regs.d == old(self).regs.d,
            final(self).regs.a == old(self).regs.a,
            final(self).regs.usp == old(self).regs.usp,
            ({
                let entry = old(self).bus.spec_read(((vec as u32) * 4) as u32, Size::Long);
                let sp = wrap_sub32(old(self).regs.ssp, 6);
                let sr_spot = addr24(sp);
                let pc_spot = addr24(wrap_add32(sp, 2));
                &&& (r == Err::<(), CoreError>(CoreError::InvalidVector) <==> (entry is Err
                    || (entry matches Ok(e) && e == 0)))
                &&& (r == Err::<(), CoreError>(CoreError::DoubleFault) <==> ((entry matches Ok(e)
                    && e != 0) && !(old(self).bus.spec_write_result(sr_spot, Size::Word) is Ok
                    && old(self).bus.spec_write_result(pc_spot, Size::Long) is Ok)))
                &&& (r is Err ==> *final(self) == *old(self))
                &&& (r is Ok ==> {
                    &&& (entry matches Ok(e) && e != 0 && final(self).pc == e)
                    &&& final(self).regs.ssp == sp
                    &&& final(self).sr == (Status {
                        trace: false,
                        supervisor: true,
                        int_mask: match raise_mask {
                            Some(l) => l,
                            None => old(self).sr.int_mask,
                        },
                        ..old(self).sr
                    })
                    &&& final(self).bus.ram@ == crate::bus::store_be(
                        crate::bus::store_be(
                            old(self).bus.ram@,
                            sr_spot - old(self).bus.ram_start,
                            Size::Word,
                            old(self).sr.spec_word() as u32,
                        ),
                        pc_spot - old(self).bus.ram_start,
                        Size::Long,
                        old(self).pc,
                    )
                })
            }),
            ({
                let (s1, rr) = crate::model::m_exception(old(self).m(), vec, raise_mask);
                final(self).m() == s1 && r == rr
            }),
    {
        let entry = match self.bus.read((vec as u32) * 4, Size::Long) {
            Ok(e) => e,
            Err(_) => {
                return Err(CoreError::InvalidVector);
            },
        };
        if entry == 0 {
            return Err(CoreError::InvalidVector);
        }
        let sp = wsub32(self.regs.ssp, 6);
        let sr_spot = mask24(sp);
        let pc_spot = mask24(wadd32(sp, 2));
        if !(self.bus.writable(sr_spot, Size::Word) && self.bus.writable(pc_spot, Size::Long)) {
            return Err(CoreError::DoubleFault);
        }
        let srw = self.sr.to_word();
        let pc0 = self.pc;
        let w1 = self.bus.write(sr_spot, Size::Word, srw as u32);
        let w2 = self.bus.write(pc_spot, Size::Long, pc0);
        self.regs.write_a(7, true, sp);
        self.sr.supervisor = true;
        self.sr.trace = false;
        match raise_mask {
            Some(l) => {
                self.sr.int_mask = l;
            },
            None => {},
        }
        self.pc = entry;
        Ok(())
    }

    /// Whether the highest pending interrupt beats the current mask; this is
    /// the whole acceptance rule the post-instruction check applies.
    pub fn interrupt_pending(&self) -> (r: bool)
        ensures
            r == (self.pending > self.sr.int_mask),
    {
        self.pending > self.sr.int_mask
    }

    /// Push a long word onto the currently-live stack.
    fn push_long(&mut self, v: u32) -> (r: Result<(), Fault>)
        requires
            old(self).wf(),
        ensures
            final(self).wf(),
            keeps_map(*old(self), *final(self)),
            final(self).sr == old(self).sr,
            final(self).pc == old(self).pc,
            final(self).pending == old(self).pending,
            final(self).regs.d == old(self).regs.d,
            ({
                let (s1, w) = crate::model::m_push_long(old(self).m(), v);
                final(self).m() == s1 && r == w
            }),
    {
        let sup = self.sr.supervisor;
        let sp = wsub32(self.regs.read_a(7, sup), 4);
        match self.bus.write(mask24(sp), Size::Long, v) {
            Ok(_) => {
                self.regs.write_a(7, sup, sp);
                Ok(())
            },
            Err(f) => Err(f),
        }
    }

    /// Fetch, decode and execute the instruction at the program counter,
    /// reporting its cycle cost; any fault is handed back for vectoring.
    fn run_instruction(&mut self) -> (r: Result<u64, Fault>)
        requires
            old(self).wf(),
        ensures
            final(self).wf(),
            keeps_map(*old(self), *final(self)),
            final(self).pending == old(self).pending,
            r matches Ok(c) ==> 4 <= c <= 100,
            ({
                let (s1, rr) = crate::model::m_run(old(self).m());
                final(self).m() == s1 && r == rr
            }),
    {
        let w = match self.fetch_word() {
            Ok(w) => w,
            Err(f) => {
                return Err(f);
            },
        };
        let i = match crate::instr::decode_word(w) {
            Some(i) => i,
            None => {
                return Err(Fault::IllegalInstruction);
            },
        };
        self.execute(i)
    }

    /// Perform one decoded instruction: operand resolution, the operation
    /// itself, the flag updates the instruction declares, and the program
    /// counter change (the default advance past the opcode happened at fetch;
    /// control transfers overwrite it). Returns the instruction's cost from
    /// the timing table.
    #[verifier::rlimit(100)]
    #[verifier::spinoff_prover]
    fn execute(&mut self, i: crate::instr::Instr) -> (r: Result<u64, Fault>)
        requires
            old(self).wf(),
            crate::instr::wf_instr(i),
        ensures
            final(self).wf(),
            keeps_map(*old(self), *final(self)),
            final(self).pending == old(self).pending,
            r matches Ok(c) ==> c == crate::cycles::spec_cycles(i) && 4 <= c <= 100,
            ({
                let (s1, rr) = crate::model::m_execute(old(self).m(), i);
                final(self).m() == s1 && r == rr
            }),
    {
        let cyc = crate::cycles::cycles_of(i);
        match i {
            crate::instr::Instr::Move { sz, src, dst } => self.exec_move(cyc, sz, src, dst),
            crate::instr::Instr::Add { sz, reg, ea, to_ea } => self.exec_addsub(
                cyc,
                sz,
                reg,
                ea,
                to_ea,
                true,
            ),
            crate::instr::Instr::Sub { sz, reg, ea, to_ea } => self.exec_addsub(
                cyc,
                sz,
                reg,
                ea,
                to_ea,
                false,
            ),
            crate::instr::Instr::AddX { sz, rx, ry } => self.exec_addsubx(cyc, sz, rx, ry, true),
            crate::instr::Instr::SubX { sz, rx, ry } => self.exec_addsubx(cyc, sz, rx, ry, false),
            crate::instr::Instr::Cmp { sz, reg, ea } => self.exec_cmp(cyc, sz, reg, ea),
            crate::instr::Instr::And { sz, reg, ea, to_ea } => self.exec_logic(
                cyc,
                sz,
                reg,
                ea,
                to_ea,
                0,
            ),
            crate::instr::Instr::Or { sz, reg, ea, to_ea } => self.exec_logic(
                cyc,
                sz,
                reg,
                ea,
                to_ea,
                1,
            ),
            crate::instr::Instr::Eor { sz, reg, ea } => self.exec_logic(cyc, sz, reg, ea, true, 2),
            crate::instr::Instr::Not { sz, ea } => self.exec_not(cyc, sz, ea),
            crate::instr::Instr::Shift { kind, left, sz, count_from_reg, count, reg } => self
                .exec_shift(cyc, kind, left, sz, count_from_reg, count, reg),
            crate::instr::Instr::Bra { disp } => self.exec_branch(cyc, 0, disp, true),
            crate::instr::Instr::Bsr { disp } => self.exec_bsr(cyc, disp),
            crate::instr::Instr::Bcc { cond, disp } => {
                let taken = cond_true(cond, &self.sr);
                self.exec_branch(cyc, cond, disp, taken)
            },
            crate::instr::Instr::Jmp { ea } => self.exec_jump(cyc, ea, false),
            crate::instr::Instr::Jsr { ea } => self.exec_jump(cyc, ea, true),
            crate::instr::Instr::Rts => self.exec_rts(cyc),
            crate::instr::Instr::Rte => self.exec_rte(cyc),
            crate::instr::Instr::Nop => Ok(cyc),
            crate::instr::Instr::MoveToSr { ea } => self.exec_move_to_sr(cyc, ea),
            crate::instr::Instr::MoveFromSr { ea } => self.exec_move_from_sr(cyc, ea),
            crate::instr::Instr::MoveToCcr { ea } => self.exec_move_to_ccr(cyc, ea),
        }
    }


    /// Take or skip a branch: the program counter moves by the sign-extended
    /// displacement exactly when the condition holds (`cond` 0 is the
    /// unconditional form).
    fn exec_branch(&mut self, cyc: u64, cond: u8, disp: u8, taken: bool) -> (r: Result<u64, Fault>)
        requires
            old(self).wf(),
            cond == 0 ==> taken && cyc == crate::cycles::spec_cycles(
                crate::instr::Instr::Bra { disp },
            ),
            cond != 0 ==> 2 <= cond <= 15 && taken == spec_cond(cond, old(self).sr) && cyc
                == crate::cycles::spec_cycles(crate::instr::Instr::Bcc { cond, disp }),
        ensures
            final(self).wf(),
            keeps_map(*old(self), *final(self)),
            final(self).pending == old(self).pending,
            r matches Ok(c) ==> c == cyc,
            ({
                let i = if cond == 0 {
                    crate::instr::Instr::Bra { disp }
                } else {
                    crate::instr::Instr::Bcc { cond, disp }
                };
                let (s1, rr) = crate::model::m_execute(old(self).m(), i);
                final(self).m() == s1 && r == rr
            }),
    {
        if taken {
            self.pc = wadd32(self.pc, sext8(disp));
        }
        Ok(cyc)
    }

    /// Branch to subroutine: push the return address (the word after the
    /// opcode) onto the live stack, then move by the displacement.
    fn exec_bsr(&mut self, cyc: u64, disp: u8) -> (r: Result<u64, Fault>)
        requires
            old(self).wf(),
            cyc == crate::cycles::spec_cycles(crate::instr::Instr::Bsr { disp }),
        ensures
            final(self).wf(),
            keeps_map(*old(self), *final(self)),
            final(self).pending == old(self).pending,
            r matches Ok(c) ==> c == cyc,
            ({
                let (s1, rr) = crate::model::m_execute(
                    old(self).m(),
                    crate::instr::Instr::Bsr { disp },
                );
                final(self).m() == s1 && r == rr
            }),
    {
        let ret = self.pc;
        match self.push_long(ret) {
            Ok(_) => {},
            Err(f) => {
                return Err(f);
            },
        }
        self.pc = wadd32(ret, sext8(disp));
        Ok(cyc)
    }

    /// Jump, or call with the return address pushed, to a control-mode
    /// target.
    #[verifier::rlimit(100)]
    #[verifier::spinoff_prover]
    fn exec_jump(&mut self, cyc: u64, ea: EA, call: bool) -> (r: Result<u64, Fault>)
        requires
            old(self).wf(),
            ea.wf(),
            !call ==> cyc == crate::cycles::spec_cycles(crate::instr::Instr::Jmp { ea }),
            call ==> cyc == crate::cycles::spec_cycles(crate::instr::Instr::Jsr { ea }),
        ensures
            final(self).wf(),
            keeps_map(*old(self), *final(self)),
            final(self).pending == old(self).pending,
            r matches Ok(c) ==> c == cyc,
            ({
                let i = if call {
                    crate::instr::Instr::Jsr { ea }
                } else {
                    crate::instr::Instr::Jmp { ea }
                };
                let (s1, rr) = crate::model::m_execute(old(self).m(), i);
                final(self).m() == s1 && r == rr
            }),
    {
        let op = match self.resolve_ea(ea, Size::Long) {
            Ok(o) => o,
            Err(f) => {
                return Err(f);
            },
        };
        match op {
            Operand::Mem(a) => {
                if call {
                    let ret = self.pc;
                    match self.push_long(ret) {
                        Ok(_) => {},
                        Err(f) => {
                            return Err(f);
                        },
                    }
                }
                self.pc = a;
                Ok(cyc)
            },
            _ => Err(Fault::IllegalInstruction),
        }
    }

    /// Return from subroutine: pop the program counter off the live stack.
    fn exec_rts(&mut self, cyc: u64) -> (r: Result<u64, Fault>)
        requires
            old(self).wf(),
            cyc == crate::cycles::spec_cycles(crate::instr::Instr::Rts),
        ensures
            final(self).wf(),
            keeps_map(*old(self), *final(self)),
            final(self).pending == old(self).pending,
            r matches Ok(c) ==> c == cyc,
            ({
                let (s1, rr) = crate::model::m_execute(old(self).m(), crate::instr::Instr::Rts);
                final(self).m() == s1 && r == rr
            }),
    {
        let sup = self.sr.supervisor;
        let sp = self.regs.read_a(7, sup);
        let v = match self.bus.read(mask24(sp), Size::Long) {
            Ok(v) => v,
            Err(f) => {
                return Err(f);
            },
        };
        self.regs.write_a(7, sup, wadd32(sp, 4));
        self.pc = v;
        Ok(cyc)
    }

    /// Data movement: read the source, store it at the destination, set
    /// negative and zero from the moved value and clear overflow and carry.
    fn exec_move(&mut self, cyc: u64, sz: Size, src: EA, dst: EA) -> (r: Result<u64, Fault>)
        requires
            old(self).wf(),
            src.wf(),
            dst.wf(),
            dst.is_data_alterable(),
            cyc == crate::cycles::spec_cycles(crate::instr::Instr::Move { sz, src, dst }),
        ensures
            final(self).wf(),
            keeps_map(*old(self), *final(self)),
            final(self).pending == old(self).pending,
            r matches Ok(c) ==> c == cyc,
            ({
                let (s1, rr) = crate::model::m_execute(old(self).m(), crate::instr::Instr::Move { sz, src, dst });
                final(self).m() == s1 && r == rr
            }),
    {
        let sop = match self.resolve_ea(src, sz) {
            Ok(o) => o,
            Err(f) => {
                return Err(f);
            },
        };
        let val = match self.read_operand(sop, sz) {
            Ok(v) => v,
            Err(f) => {
                return Err(f);
            },
        };
        let dop = match self.resolve_ea(dst, sz) {
            Ok(o) => o,
            Err(f) => {
                return Err(f);
            },
        };
        match self.write_operand(dop, sz, val) {
            Ok(_) => {},
            Err(f) => {
                return Err(f);
            },
        }
        self.sr.apply_result_flags(
            val,
            sz,
            false,
            false,
            FlagSet { extend: false, negative: true, zero: true, overflow: true, carry: true },
        );
        Ok(cyc)
    }

    /// Bitwise complement in place; negative and zero from the result,
    /// overflow and carry cleared.
    fn exec_not(&mut self, cyc: u64, sz: Size, ea: EA) -> (r: Result<u64, Fault>)
        requires
            old(self).wf(),
            ea.wf(),
            ea.is_data_alterable(),
            cyc == crate::cycles::spec_cycles(crate::instr::Instr::Not { sz, ea }),
        ensures
            final(self).wf(),
            keeps_map(*old(self), *final(self)),
            final(self).pending == old(self).pending,
            r matches Ok(c) ==> c == cyc,
            ({
                let (s1, rr) = crate::model::m_execute(old(self).m(), crate::instr::Instr::Not { sz, ea });
                final(self).m() == s1 && r == rr
            }),
    {
        let op = match self.resolve_ea(ea, sz) {
            Ok(o) => o,
            Err(f) => {
                return Err(f);
            },
        };
        let v = match self.read_operand(op, sz) {
            Ok(v) => v,
            Err(f) => {
                return Err(f);
            },
        };
        let val = crate::alu::alu_not(v, sz);
        match self.write_operand(op, sz, val) {
            Ok(_) => {},
            Err(f) => {
                return Err(f);
            },
        }
        self.sr.apply_result_flags(
            val,
            sz,
            false,
            false,
            FlagSet { extend: false, negative: true, zero: true, overflow: true, carry: true },
        );
        Ok(cyc)
    }

    /// Compare: subtract without storing, setting negative, zero, overflow
    /// and carry; extend is untouched.
    fn exec_cmp(&mut self, cyc: u64, sz: Size, reg: u8, ea: EA) -> (r: Result<u64, Fault>)
        requires
            old(self).wf(),
            reg < 8,
            ea.wf(),
            cyc == crate::cycles::spec_cycles(crate::instr::Instr::Cmp { sz, reg, ea }),
        ensures
            final(self).wf(),
            keeps_map(*old(self), *final(self)),
            final(self).pending == old(self).pending,
            r matches Ok(c) ==> c == cyc,
            ({
                let (s1, rr) = crate::model::m_execute(
                    old(self).m(),
                    crate::instr::Instr::Cmp { sz, reg, ea },
                );
                final(self).m() == s1 && r == rr
            }),
    {
        let op = match self.resolve_ea(ea, sz) {
            Ok(o) => o,
            Err(f) => {
                return Err(f);
            },
        };
        let eav = match self.read_operand(op, sz) {
            Ok(v) => v,
            Err(f) => {
                return Err(f);
            },
        };
        let regv = self.regs.read_d(reg as usize);
        let out = crate::alu::alu_sub(regv, eav, false, sz);
        self.sr.apply_result_flags(
            out.value,
            sz,
            out.carry,
            out.overflow,
            FlagSet { extend: false, negative: true, zero: true, overflow: true, carry: true },
        );
        Ok(cyc)
    }

    /// Shift or rotate a data register: the count comes from the opcode or,
    /// modulo 64, from a register; carry takes the last bit shifted out,
    /// extend follows the flavour's rule, overflow reports a sign change for
    /// arithmetic left shifts and clears otherwise.
    fn exec_shift(
        &mut self,
        cyc: u64,
        kind: crate::instr::ShiftKind,
        left: bool,
        sz: Size,
        count_from_reg: bool,
        count: u8,
        reg: u8,
    ) -> (r: Result<u64, Fault>)
        requires
            old(self).wf(),
            reg < 8,
            count_from_reg ==> count < 8,
            !count_from_reg ==> 1 <= count <= 8,
            cyc == crate::cycles::spec_cycles(
                crate::instr::Instr::Shift { kind, left, sz, count_from_reg, count, reg },
            ),
        ensures
            final(self).wf(),
            keeps_map(*old(self), *final(self)),
            final(self).pending == old(self).pending,
            r matches Ok(c) ==> c == cyc,
            ({
                let (s1, rr) = crate::model::m_execute(
                    old(self).m(),
                    crate::instr::Instr::Shift { kind, left, sz, count_from_reg, count, reg },
                );
                final(self).m() == s1 && r == rr
            }),
    {
        let cnt: u32 = if count_from_reg {
            self.regs.read_d(count as usize) % 64
        } else {
            count as u32
        };
        let st = crate::alu::alu_shift(
            kind,
            left,
            sz,
            self.regs.read_d(reg as usize),
            self.sr.extend,
            cnt,
        );
        match self.write_operand(Operand::InD(reg), sz, st.value) {
            Ok(_) => {},
            Err(f) => {
                return Err(f);
            },
        }
        self.sr.extend = st.x;
        self.sr.carry = st.carry;
        self.sr.overflow = if matches!(kind, crate::instr::ShiftKind::Arith) && left {
            st.overflow
        } else {
            false
        };
        self.sr.negative = crate::types::sign_bit(st.value, sz);
        self.sr.zero = crate::types::mask_to(st.value, sz) == 0;
        Ok(cyc)
    }

    /// Return from exception: pop the status word and the program counter off
    /// the supervisor stack, restoring the prior privilege and mask. A
    /// user-mode attempt is a privilege violation.
    fn exec_rte(&mut self, cyc: u64) -> (r: Result<u64, Fault>)
        requires
            old(self).wf(),
            cyc == crate::cycles::spec_cycles(crate::instr::Instr::Rte),
        ensures
            ({
                let (s1, rr) = crate::model::m_execute(old(self).m(), crate::instr::Instr::Rte);
                final(self).m() == s1 && r == rr
            }),
            final(self).wf(),
            keeps_map(*old(self), *final(self)),
            final(self).pending == old(self).pending,
            r matches Ok(c) ==> c == cyc,
            !old(self).sr.supervisor ==> r == Err::<u64, Fault>(Fault::PrivilegeViolation)
                && *final(self) == *old(self),
    {
        if !self.sr.supervisor {
            return Err(Fault::PrivilegeViolation);
        }
        let sp = self.regs.read_a(7, true);
        let srw = match self.bus.read(mask24(sp), Size::Word) {
            Ok(v) => v,
            Err(f) => {
                return Err(f);
            },
        };
        let pcv = match self.bus.read(mask24(wadd32(sp, 2)), Size::Long) {
            Ok(v) => v,
            Err(f) => {
                return Err(f);
            },
        };
        self.regs.write_a(7, true, wadd32(sp, 6));
        match self.sr.write_word((srw % 0x10000) as u16, true) {
            Ok(_) => {},
            Err(_) => {},
        }
        self.pc = pcv;
        Ok(cyc)
    }

    /// Privileged load of the full status word; in user mode a privilege
    /// violation and no change.
    fn exec_move_to_sr(&mut self, cyc: u64, ea: EA) -> (r: Result<u64, Fault>)
        requires
            old(self).wf(),
            ea.wf(),
            cyc == crate::cycles::spec_cycles(crate::instr::Instr::MoveToSr { ea }),
        ensures
            ({
                let (s1, rr) = crate::model::m_execute(
                    old(self).m(),
                    crate::instr::Instr::MoveToSr { ea },
                );
                final(self).m() == s1 && r == rr
            }),
            final(self).wf(),
            keeps_map(*old(self), *final(self)),
            final(self).pending == old(self).pending,
            r matches Ok(c) ==> c == cyc,
            !old(self).sr.supervisor ==> r == Err::<u64, Fault>(Fault::PrivilegeViolation)
                && *final(self) == *old(self),
    {
        if !self.sr.supervisor {
            return Err(Fault::PrivilegeViolation);
        }
        let op = match self.resolve_ea(ea, Size::Word) {
            Ok(o) => o,
            Err(f) => {
                return Err(f);
            },
        };
        let v = match self.read_operand(op, Size::Word) {
            Ok(v) => v,
            Err(f) => {
                return Err(f);
            },
        };
        match self.sr.write_word((v % 0x10000) as u16, true) {
            Ok(_) => {},
            Err(_) => {},
        }
        Ok(cyc)
    }

    /// Store the full status word at the operand; readable in any mode.
    fn exec_move_from_sr(&mut self, cyc: u64, ea: EA) -> (r: Result<u64, Fault>)
        requires
            old(self).wf(),
            ea.wf(),
            ea.is_data_alterable(),
            cyc == crate::cycles::spec_cycles(crate::instr::Instr::MoveFromSr { ea }),
        ensures
            final(self).wf(),
            keeps_map(*old(self), *final(self)),
            final(self).pending == old(self).pending,
            r matches Ok(c) ==> c == cyc,
            ({
                let (s1, rr) = crate::model::m_execute(
                    old(self).m(),
                    crate::instr::Instr::MoveFromSr { ea },
                );
                final(self).m() == s1 && r == rr
            }),
    {
        let w = self.sr.to_word();
        let op = match self.resolve_ea(ea, Size::Word) {
            Ok(o) => o,
            Err(f) => {
                return Err(f);
            },
        };
        match self.write_operand(op, Size::Word, w as u32) {
            Ok(_) => Ok(cyc),
            Err(f) => Err(f),
        }
    }

    /// Load the condition-code byte from the operand's low byte; legal in any
    /// mode, privileged byte untouched.
    fn exec_move_to_ccr(&mut self, cyc: u64, ea: EA) -> (r: Result<u64, Fault>)
        requires
            old(self).wf(),
            ea.wf(),
            cyc == crate::cycles::spec_cycles(crate::instr::Instr::MoveToCcr { ea }),
        ensures
            ({
                let (s1, rr) = crate::model::m_execute(
                    old(self).m(),
                    crate::instr::Instr::MoveToCcr { ea },
                );
                final(self).m() == s1 && r == rr
            }),
            final(self).wf(),
            keeps_map(*old(self), *final(self)),
            final(self).pending == old(self).pending,
            r matches Ok(c) ==> c == cyc,
    {
        let op = match self.resolve_ea(ea, Size::Word) {
            Ok(o) => o,
            Err(f) => {
                return Err(f);
            },
        };
        let v = match self.read_operand(op, Size::Word) {
            Ok(v) => v,
            Err(f) => {
                return Err(f);
            },
        };
        self.sr.write_ccr((v % 0x100) as u8);
        Ok(cyc)
    }

    /// Add or subtract between a data register and an operand, committing the
    /// result to whichever side the opcode names and setting all five codes.
    #[verifier::rlimit(100)]
    #[verifier::spinoff_prover]
    fn exec_addsub(&mut self, cyc: u64, sz: Size, reg: u8, ea: EA, to_ea: bool, is_add: bool) -> (r:
        Result<u64, Fault>)
        requires
            old(self).wf(),
            reg < 8,
            ea.wf(),
            to_ea ==> !(ea is Imm),
        ensures
            final(self).wf(),
            keeps_map(*old(self), *final(self)),
            final(self).pending == old(self).pending,
            r matches Ok(c) ==> c == cyc,
            ({
                let (s1, rr) = crate::model::m_addsub(
                    old(self).m(),
                    cyc,
                    sz,
                    reg,
                    ea,
                    to_ea,
                    is_add,
                );
                final(self).m() == s1 && r == rr
            }),
    {
        let op = match self.resolve_ea(ea, sz) {
            Ok(o) => o,
            Err(f) => {
                return Err(f);
            },
        };
        let eav = match self.read_operand(op, sz) {
            Ok(v) => v,
            Err(f) => {
                return Err(f);
            },
        };
        let regv = self.regs.read_d(reg as usize);
        let out = if is_add {
            crate::alu::alu_add(regv, eav, false, sz)
        } else if to_ea {
            crate::alu::alu_sub(eav, regv, false, sz)
        } else {
            crate::alu::alu_sub(regv, eav, false, sz)
        };
        if to_ea {
            match self.write_operand(op, sz, out.value) {
                Ok(_) => {},
                Err(f) => {
                    return Err(f);
                },
            }
        } else {
            match self.write_operand(Operand::InD(reg), sz, out.value) {
                Ok(_) => {},
                Err(f) => {
                    return Err(f);
                },
            }
        }
        self.sr.apply_result_flags(
            out.value,
            sz,
            out.carry,
            out.overflow,
            FlagSet { extend: true, negative: true, zero: true, overflow: true, carry: true },
        );
        Ok(cyc)
    }

    /// The extend-aware register forms: destination plus/minus source
    /// plus/minus the extend flag; the zero flag is only ever cleared by a
    /// nonzero result, never set.
    fn exec_addsubx(&mut self, cyc: u64, sz: Size, rx: u8, ry: u8, is_add: bool) -> (r: Result<
        u64,
        Fault,
    >)
        requires
            old(self).wf(),
            rx < 8,
            ry < 8,
        ensures
            final(self).wf(),
            keeps_map(*old(self), *final(self)),
            final(self).pending == old(self).pending,
            r matches Ok(c) ==> c == cyc,
            ({
                let (s1, rr) = crate::model::m_addsubx(old(self).m(), cyc, sz, rx, ry, is_add);
                final(self).m() == s1 && r == rr
            }),
    {
        let dx = self.regs.read_d(rx as usize);
        let dy = self.regs.read_d(ry as usize);
        let out = if is_add {
            crate::alu::alu_add(dx, dy, self.sr.extend, sz)
        } else {
            crate::alu::alu_sub(dx, dy, self.sr.extend, sz)
        };
        match self.write_operand(Operand::InD(rx), sz, out.value) {
            Ok(_) => {},
            Err(f) => {
                return Err(f);
            },
        }
        let nonzero = crate::types::mask_to(out.value, sz) != 0;
        self.sr.apply_result_flags(
            out.value,
            sz,
            out.carry,
            out.overflow,
            FlagSet { extend: true, negative: true, zero: nonzero, overflow: true, carry: true },
        );
        Ok(cyc)
    }

    /// And, or and exclusive-or (`which` 0, 1 and 2): bitwise combination of
    /// the register and the operand, negative and zero from the result,
    /// overflow and carry cleared, extend untouched.
    fn exec_logic(&mut self, cyc: u64, sz: Size, reg: u8, ea: EA, to_ea: bool, which: u8) -> (r:
        Result<u64, Fault>)
        requires
            old(self).wf(),
            reg < 8,
            ea.wf(),
            which <= 2,
            to_ea ==> !(ea is Imm),
        ensures
            final(self).wf(),
            keeps_map(*old(self), *final(self)),
            final(self).pending == old(self).pending,
            r matches Ok(c) ==> c == cyc,
            ({
                let (s1, rr) = crate::model::m_logic(old(self).m(), cyc, sz, reg, ea, to_ea, which);
                final(self).m() == s1 && r == rr
            }),
    {
        let op = match self.resolve_ea(ea, sz) {
            Ok(o) => o,
            Err(f) => {
                return Err(f);
            },
        };
        let eav = match self.read_operand(op, sz) {
            Ok(v) => v,
            Err(f) => {
                return Err(f);
            },
        };
        let regv = crate::types::mask_to(self.regs.read_d(reg as usize), sz);
        let val = if which == 0 {
            regv & eav
        } else if which == 1 {
            regv | eav
        } else {
            regv ^ eav
        };
        if to_ea {
            match self.write_operand(op, sz, val) {
                Ok(_) => {},
                Err(f) => {
                    return Err(f);
                },
            }
        } else {
            match self.write_operand(Operand::InD(reg), sz, val) {
                Ok(_) => {},
                Err(f) => {
                    return Err(f);
                },
            }
        }
        self.sr.apply_result_flags(
            val,
            sz,
            false,
            false,
            FlagSet { extend: false, negative: true, zero: true, overflow: true, carry: true },
        );
        Ok(cyc)
    }

    /// One atomic step: fetch, decode, resolve, execute and commit one
    /// instruction (or vector one fault raised along the way), then compare
    /// the highest pending interrupt against the mask and accept it when
    /// strictly higher. Returns the elapsed cycles so the host can pace real
    /// time; the only errors are the fatal ones - a double fault or a bad
    /// vector entry - which end emulation.
    pub fn step(&mut self) -> (r: Result<u64, CoreError>)
        requires
            old(self).wf(),
        ensures
            final(self).wf(),
            keeps_map(*old(self), *final(self)),
            final(self).pending == old(self).pending || final(self).pending == 0,
            r matches Ok(c) ==> 4 <= c <= 188,
            ({
                let (s1, rr) = crate::model::m_step(old(self).m());
                final(self).m() == s1 && r == rr
            }),
    {
        let mut cycles: u64;
        match self.run_instruction() {
            Ok(c) => {
                cycles = c;
            },
            Err(f) => {
                match self.process_exception(crate::types::fault_vector(f), None) {
                    Ok(_) => {},
                    Err(e) => {
                        return Err(e);
                    },
                }
                cycles = crate::cycles::exception_cycles();
            },
        }
        match self.service_pending() {
            Ok(true) => {
                cycles = cycles + crate::cycles::exception_cycles();
            },
            Ok(false) => {},
            Err(e) => {
                return Err(e);
            },
        }
        Ok(cycles)
    }

    /// The post-instruction interrupt check: the highest pending request is
    /// accepted exactly when it is strictly above the interrupt mask. On
    /// acceptance the status word and return address are pushed onto the
    /// supervisor stack, the mask rises to the accepted level, trace clears,
    /// and control vectors through the request's autovector slot; otherwise
    /// nothing at all changes and the core stays idle.
    pub fn service_pending(&mut self) -> (r: Result<bool, CoreError>)
        requires
            old(self).wf(),
        ensures
            final(self).wf(),
            keeps_map(*old(self), *final(self)),
            !(old(self).pending > old(self).sr.int_mask) ==> r == Ok::<bool, CoreError>(false)
                && *final(self) == *old(self),
            old(self).pending > old(self).sr.int_mask ==> ({
                let entry = old(self).bus.spec_read(
                    (((24 + old(self).pending) as u32) * 4) as u32,
                    Size::Long,
                );
                let sp = wrap_sub32(old(self).regs.ssp, 6);
                let sr_spot = addr24(sp);
                let pc_spot = addr24(wrap_add32(sp, 2));
                &&& (r == Err::<bool, CoreError>(CoreError::InvalidVector) <==> (entry is Err || (
                entry matches Ok(e) && e == 0)))
                &&& (r == Err::<bool, CoreError>(CoreError::DoubleFault) <==> ((entry matches Ok(e)
                    && e != 0) && !(old(self).bus.spec_write_result(sr_spot, Size::Word) is Ok
                    && old(self).bus.spec_write_result(pc_spot, Size::Long) is Ok)))
                &&& (r is Err ==> *final(self) == *old(self))
                &&& (r is Ok ==> {
                    &&& r == Ok::<bool, CoreError>(true)
                    &&& final(self).pending == 0
                    &&& (entry matches Ok(e) && e != 0 && final(self).pc == e)
                    &&& final(self).regs.ssp == sp
                    &&& final(self).regs.d == old(self).regs.d
                    &&& final(self).regs.a == old(self).regs.a
                    &&& final(self).regs.usp == old(self).regs.usp
                    &&& final(self).sr == (Status {
                        trace: false,
                        supervisor: true,
                        int_mask: old(self).pending,
                        ..old(self).sr
                    })
                    &&& final(self).bus.ram@ == crate::bus::store_be(
                        crate::bus::store_be(
                            old(self).bus.ram@,
                            sr_spot - old(self).bus.ram_start,
                            Size::Word,
                            old(self).sr.spec_word() as u32,
                        ),
                        pc_spot - old(self).bus.ram_start,
                        Size::Long,
                        old(self).pc,
                    )
                })
            }),
            ({
                let (s1, rr) = crate::model::m_service(old(self).m());
                final(self).m() == s1 && r == rr
            }),
    {
        if !self.interrupt_pending() {
            return Ok(false);
        }
        let level = self.pending;
        match self.process_exception(crate::types::interrupt_vector(level), Some(level)) {
            Ok(_) => {
                self.pending = 0;
                Ok(true)
            },
            Err(e) => Err(e),
        }
    }
}

/// Switching privilege mode changes only which slot backs address register 7:
/// a value written there in one mode is invisible when read in the other mode
/// without an explicit switch, and the other mode reads exactly what it would
/// have read before.
pub proof fn lemma_privilege_slot_isolation(pre: CPU, post: CPU, v: u32)
    requires
        pre.wf(),
        post.wf(),
        post.regs.d == pre.regs.d,
        post.regs.a == pre.regs.a,
        post.regs.spec_a(7, pre.sr.supervisor) == v,
        pre.sr.supervisor ==> post.regs.usp == pre.regs.usp,
        !pre.sr.supervisor ==> post.regs.ssp == pre.regs.ssp,
    ensures
        post.regs.spec_a(7, !pre.sr.supervisor) == pre.regs.spec_a(7, !pre.sr.supervisor),
{
}

} // verus!
