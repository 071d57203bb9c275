use vstd::prelude::*;

use crate::bus::be_val;
use crate::bus::spec_aligned;
use crate::bus::store_be;
use crate::cpu::Operand;
use crate::cpu::addr24;
use crate::cpu::spec_cond;
use crate::cpu::spec_sext16;
use crate::cpu::spec_sext8;
use crate::cpu::wrap_add32;
use crate::cpu::wrap_sub32;
use crate::cycles::spec_cycles;
use crate::cycles::spec_exception_cycles;
use crate::instr::EA;
use crate::instr::Instr;
use crate::instr::ShiftKind;
use crate::instr::spec_decode;
use crate::status::FlagSet;
use crate::status::Status;
use crate::types::CoreError;
use crate::types::Fault;
use crate::types::Size;
use crate::types::masked;
use crate::types::sign_of;
use crate::types::spec_fault_vector;
use crate::types::spec_interrupt_vector;

verus! {

/// The mathematical state of the core: the memory map and its contents, the
/// register file with both stack-pointer slots, the status word, the program
/// counter and the pending interrupt request. The functions in this module
/// form a step interpreter over this state; the executable core's contracts
/// say that it computes exactly what the interpreter says.
pub struct Machine {
    pub rom: Seq<u8>,
    pub rom_start: u32,
    pub rom_end: u32,
    pub ram: Seq<u8>,
    pub ram_start: u32,
    pub ram_end: u32,
    pub d: Seq<u32>,
    pub a: Seq<u32>,
    pub usp: u32,
    pub ssp: u32,
    pub sr: Status,
    pub pc: u32,
    pub pending: u8,
}

impl Machine {
    /// What a read of the bus yields in this state.
    pub open spec fn read(self, addr: u32, sz: Size) -> Result<u32, Fault> {
        let n = sz.spec_bytes();
        if !spec_aligned(addr, sz) {
            Err(Fault::AddressError)
        } else if self.rom_start <= addr && addr + n <= self.rom_end + 1 {
            Ok(be_val(self.rom, addr - self.rom_start, sz) as u32)
        } else if self.ram_start <= addr && addr + n <= self.ram_end + 1 {
            Ok(be_val(self.ram, addr - self.ram_start, sz) as u32)
        } else {
            Err(Fault::UnmappedAddress)
        }
    }

    /// Whether a write succeeds, and with which fault it fails.
    pub open spec fn write_result(self, addr: u32, sz: Size) -> Result<(), Fault> {
        let n = sz.spec_bytes();
        if !spec_aligned(addr, sz) {
            Err(Fault::AddressError)
        } else if self.rom_start <= addr && addr + n <= self.rom_end + 1 {
            Err(Fault::WriteProtect)
        } else if self.ram_start <= addr && addr + n <= self.ram_end + 1 {
            Ok(())
        } else {
            Err(Fault::UnmappedAddress)
        }
    }

    /// The state after a write: RAM updated on success, untouched on a fault.
    pub open spec fn write(self, addr: u32, sz: Size, v: u32) -> Machine {
        if self.write_result(addr, sz) is Ok {
            Machine { ram: store_be(self.ram, addr - self.ram_start, sz, v), ..self }
        } else {
            self
        }
    }

    /// Address register `i` under privilege `sup`.
    pub open spec fn a_reg(self, i: int, sup: bool) -> u32 {
        if i < 7 {
            self.a[i]
        } else if sup {
            self.ssp
        } else {
            self.usp
        }
    }

    /// The state with address register `i` (under privilege `sup`) set.
    pub open spec fn set_a(self, i: int, sup: bool, v: u32) -> Machine {
        if i < 7 {
            Machine { a: self.a.update(i, v), ..self }
        } else if sup {
            Machine { ssp: v, ..self }
        } else {
            Machine { usp: v, ..self }
        }
    }

    /// The state with the low `sz` bytes of data register `r` replaced and
    /// its upper bytes kept.
    pub open spec fn set_d_sized(self, r: int, sz: Size, v: u32) -> Machine {
        Machine {
            d: self.d.update(r, (self.d[r] - masked(self.d[r], sz) + masked(v, sz)) as u32),
            ..self
        }
    }
}

/// Fetch the word at the program counter and advance past it; on a fault the
/// state is unchanged.
pub open spec fn m_fetch(s: Machine) -> (Machine, Result<u16, Fault>) {
    match s.read(addr24(s.pc), Size::Word) {
        Ok(v) => (Machine { pc: wrap_add32(s.pc, 2), ..s }, Ok((v % 0x10000) as u16)),
        Err(f) => (s, Err(f)),
    }
}

/// Resolve an addressing mode to an operand location, fetching extension
/// words and performing the post-increment or pre-decrement update.
pub open spec fn m_resolve(s: Machine, ea: EA, sz: Size) -> (Machine, Result<Operand, Fault>) {
    let sup = s.sr.supervisor;
    match ea {
        EA::DataReg(n) => (s, Ok(Operand::InD(n))),
        EA::AddrReg(n) => (s, Ok(Operand::InA(n))),
        EA::Ind(n) => (s, Ok(Operand::Mem(addr24(s.a_reg(n as int, sup))))),
        EA::PostInc(n) => {
            let a0 = s.a_reg(n as int, sup);
            (
                s.set_a(n as int, sup, wrap_add32(a0, sz.spec_bytes() as u32)),
                Ok(Operand::Mem(addr24(a0))),
            )
        },
        EA::PreDec(n) => {
            let a1 = wrap_sub32(s.a_reg(n as int, sup), sz.spec_bytes() as u32);
            (s.set_a(n as int, sup, a1), Ok(Operand::Mem(addr24(a1))))
        },
        EA::Disp(n) => {
            let (s1, w) = m_fetch(s);
            match w {
                Ok(d) => (
                    s1,
                    Ok(Operand::Mem(addr24(wrap_add32(s1.a_reg(n as int, sup), spec_sext16(d))))),
                ),
                Err(f) => (s1, Err(f)),
            }
        },
        EA::Index(n) => {
            let (s1, w) = m_fetch(s);
            match w {
                Ok(ext) => {
                    let xreg = ((ext / 0x1000) % 8) as int;
                    let xraw = if ext / 0x8000 == 1 {
                        s1.a_reg(xreg, sup)
                    } else {
                        s1.d[xreg]
                    };
                    let xval = if ext / 0x800 % 2 == 1 {
                        xraw
                    } else {
                        spec_sext16((xraw % 0x10000) as u16)
                    };
                    let d8 = spec_sext8((ext % 0x100) as u8);
                    (
                        s1,
                        Ok(
                            Operand::Mem(
                                addr24(
                                    wrap_add32(wrap_add32(s1.a_reg(n as int, sup), xval), d8),
                                ),
                            ),
                        ),
                    )
                },
                Err(f) => (s1, Err(f)),
            }
        },
        EA::AbsShort => {
            let (s1, w) = m_fetch(s);
            match w {
                Ok(d) => (s1, Ok(Operand::Mem(addr24(spec_sext16(d))))),
                Err(f) => (s1, Err(f)),
            }
        },
        EA::AbsLong => {
            let (s1, w1) = m_fetch(s);
            match w1 {
                Ok(hi) => {
                    let (s2, w2) = m_fetch(s1);
                    match w2 {
                        Ok(lo) => (s2, Ok(Operand::Mem(addr24((hi * 0x10000 + lo) as u32)))),
                        Err(f) => (s2, Err(f)),
                    }
                },
                Err(f) => (s1, Err(f)),
            }
        },
        EA::PcDisp => {
            let base = s.pc;
            let (s1, w) = m_fetch(s);
            match w {
                Ok(d) => (s1, Ok(Operand::Mem(addr24(wrap_add32(base, spec_sext16(d)))))),
                Err(f) => (s1, Err(f)),
            }
        },
        EA::Imm => {
            match sz {
                Size::Byte => {
                    let (s1, w) = m_fetch(s);
                    match w {
                        Ok(d) => (s1, Ok(Operand::ImmVal((d % 0x100) as u32))),
                        Err(f) => (s1, Err(f)),
                    }
                },
                Size::Word => {
                    let (s1, w) = m_fetch(s);
                    match w {
                        Ok(d) => (s1, Ok(Operand::ImmVal(d as u32))),
                        Err(f) => (s1, Err(f)),
                    }
                },
                Size::Long => {
                    let (s1, w1) = m_fetch(s);
                    match w1 {
                        Ok(hi) => {
                            let (s2, w2) = m_fetch(s1);
                            match w2 {
                                Ok(lo) => (s2, Ok(Operand::ImmVal((hi * 0x10000 + lo) as u32))),
                                Err(f) => (s2, Err(f)),
                            }
                        },
                        Err(f) => (s1, Err(f)),
                    }
                },
            }
        },
    }
}

/// Read an operand's value, truncated to the operand size.
pub open spec fn m_read_operand(s: Machine, op: Operand, sz: Size) -> Result<u32, Fault> {
    match op {
        Operand::InD(n) => Ok(masked(s.d[n as int], sz)),
        Operand::InA(n) => Ok(masked(s.a_reg(n as int, s.sr.supervisor), sz)),
        Operand::ImmVal(v) => Ok(masked(v, sz)),
        Operand::Mem(a) => s.read(a, sz),
    }
}

/// Write a value into an operand location: sized into a data register,
/// whole into an address register, big-endian into memory.
pub open spec fn m_write_operand(s: Machine, op: Operand, sz: Size, v: u32) -> (
    Machine,
    Result<(), Fault>,
) {
    match op {
        Operand::InD(n) => (s.set_d_sized(n as int, sz, v), Ok(())),
        Operand::InA(n) => (s.set_a(n as int, s.sr.supervisor, v), Ok(())),
        Operand::Mem(a) => (s.write(a, sz, v), s.write_result(a, sz)),
        Operand::ImmVal(_) => (s, Err(Fault::IllegalInstruction)),
    }
}

/// The combined result-flag update (the spec form of the status component's
/// operation): exactly the affected flags change, the privileged byte never.
pub open spec fn m_apply_flags(
    sr: Status,
    value: u32,
    s: Size,
    carry: bool,
    overflow: bool,
    affect: FlagSet,
) -> Status {
    Status {
        extend: if affect.extend {
            carry
        } else {
            sr.extend
        },
        negative: if affect.negative {
            sign_of(value, s)
        } else {
            sr.negative
        },
        zero: if affect.zero {
            masked(value, s) == 0
        } else {
            sr.zero
        },
        overflow: if affect.overflow {
            overflow
        } else {
            sr.overflow
        },
        carry: if affect.carry {
            carry
        } else {
            sr.carry
        },
        ..sr
    }
}

/// All five codes affected.
pub open spec fn all_flags() -> FlagSet {
    FlagSet { extend: true, negative: true, zero: true, overflow: true, carry: true }
}

/// The four codes of a move or logic result: negative and zero from the
/// value, overflow and carry cleared, extend untouched.
pub open spec fn nzvc_flags() -> FlagSet {
    FlagSet { extend: false, negative: true, zero: true, overflow: true, carry: true }
}

/// Push a long word onto the currently-live stack.
pub open spec fn m_push_long(s: Machine, v: u32) -> (Machine, Result<(), Fault>) {
    let sup = s.sr.supervisor;
    let sp = wrap_sub32(s.a_reg(7, sup), 4);
    match s.write_result(addr24(sp), Size::Long) {
        Ok(_) => (s.write(addr24(sp), Size::Long, v).set_a(7, sup, sp), Ok(())),
        Err(f) => (s, Err(f)),
    }
}


/// The condition-code byte loaded by a move to the codes: the five defined
/// bits of the low byte, privileged byte kept.
pub open spec fn m_write_ccr(sr: Status, b: u8) -> Status {
    Status {
        extend: b / 0x10 % 2 == 1,
        negative: b / 0x8 % 2 == 1,
        zero: b / 0x4 % 2 == 1,
        overflow: b / 0x2 % 2 == 1,
        carry: b / 0x1 % 2 == 1,
        ..sr
    }
}

/// Perform one decoded instruction on the machine state: the operation's
/// data movement, register/flag/memory effects and program-counter change,
/// or the fault it raises. A successful instruction costs its timing-table
/// entry.
pub open spec fn m_execute(s: Machine, i: Instr) -> (Machine, Result<u64, Fault>) {
    let cyc = spec_cycles(i);
    match i {
        Instr::Move { sz, src, dst } => {
            let (s1, rs) = m_resolve(s, src, sz);
            match rs {
                Err(f) => (s1, Err(f)),
                Ok(sop) => match m_read_operand(s1, sop, sz) {
                    Err(f) => (s1, Err(f)),
                    Ok(val) => {
                        let (s2, rd) = m_resolve(s1, dst, sz);
                        match rd {
                            Err(f) => (s2, Err(f)),
                            Ok(dop) => {
                                let (s3, w) = m_write_operand(s2, dop, sz, val);
                                match w {
                                    Err(f) => (s3, Err(f)),
                                    Ok(_) => (
                                        Machine {
                                            sr: m_apply_flags(
                                                s3.sr,
                                                val,
                                                sz,
                                                false,
                                                false,
                                                nzvc_flags(),
                                            ),
                                            ..s3
                                        },
                                        Ok(cyc),
                                    ),
                                }
                            },
                        }
                    },
                },
            }
        },
        Instr::Add { sz, reg, ea, to_ea } => m_addsub(s, cyc, sz, reg, ea, to_ea, true),
        Instr::Sub { sz, reg, ea, to_ea } => m_addsub(s, cyc, sz, reg, ea, to_ea, false),
        Instr::AddX { sz, rx, ry } => m_addsubx(s, cyc, sz, rx, ry, true),
        Instr::SubX { sz, rx, ry } => m_addsubx(s, cyc, sz, rx, ry, false),
        Instr::Cmp { sz, reg, ea } => {
            let (s1, ro) = m_resolve(s, ea, sz);
            match ro {
                Err(f) => (s1, Err(f)),
                Ok(op) => match m_read_operand(s1, op, sz) {
                    Err(f) => (s1, Err(f)),
                    Ok(eav) => {
                        let out = crate::alu::spec_alu_sub(s1.d[reg as int], eav, false, sz);
                        (
                            Machine {
                                sr: m_apply_flags(
                                    s1.sr,
                                    out.value,
                                    sz,
                                    out.carry,
                                    out.overflow,
                                    FlagSet {
                                        extend: false,
                                        negative: true,
                                        zero: true,
                                        overflow: true,
                                        carry: true,
                                    },
                                ),
                                ..s1
                            },
                            Ok(cyc),
                        )
                    },
                },
            }
        },
        Instr::And { sz, reg, ea, to_ea } => m_logic(s, cyc, sz, reg, ea, to_ea, 0),
        Instr::Or { sz, reg, ea, to_ea } => m_logic(s, cyc, sz, reg, ea, to_ea, 1),
        Instr::Eor { sz, reg, ea } => m_logic(s, cyc, sz, reg, ea, true, 2),
        Instr::Not { sz, ea } => {
            let (s1, ro) = m_resolve(s, ea, sz);
            match ro {
                Err(f) => (s1, Err(f)),
                Ok(op) => match m_read_operand(s1, op, sz) {
                    Err(f) => (s1, Err(f)),
                    Ok(v) => {
                        let val = (sz.modulus() - 1 - masked(v, sz)) as u32;
                        let (s2, w) = m_write_operand(s1, op, sz, val);
                        match w {
                            Err(f) => (s2, Err(f)),
                            Ok(_) => (
                                Machine {
                                    sr: m_apply_flags(s2.sr, val, sz, false, false, nzvc_flags()),
                                    ..s2
                                },
                                Ok(cyc),
                            ),
                        }
                    },
                },
            }
        },
        Instr::Shift { kind, left, sz, count_from_reg, count, reg } => {
            let cnt: u32 = if count_from_reg {
                (s.d[count as int] % 64) as u32
            } else {
                count as u32
            };
            let st = crate::alu::shift_iter(
                kind,
                left,
                sz,
                crate::alu::shift_start(kind, s.d[reg as int], sz, s.sr.extend),
                cnt as nat,
            );
            let s1 = s.set_d_sized(reg as int, sz, st.value);
            (
                Machine {
                    sr: Status {
                        extend: st.x,
                        carry: st.carry,
                        overflow: if kind is Arith && left {
                            st.overflow
                        } else {
                            false
                        },
                        negative: sign_of(st.value, sz),
                        zero: masked(st.value, sz) == 0,
                        ..s1.sr
                    },
                    ..s1
                },
                Ok(cyc),
            )
        },
        Instr::Bra { disp } => (Machine { pc: wrap_add32(s.pc, spec_sext8(disp)), ..s }, Ok(cyc)),
        Instr::Bsr { disp } => {
            let ret = s.pc;
            let (s1, w) = m_push_long(s, ret);
            match w {
                Err(f) => (s1, Err(f)),
                Ok(_) => (Machine { pc: wrap_add32(ret, spec_sext8(disp)), ..s1 }, Ok(cyc)),
            }
        },
        Instr::Bcc { cond, disp } => {
            if spec_cond(cond, s.sr) {
                (Machine { pc: wrap_add32(s.pc, spec_sext8(disp)), ..s }, Ok(cyc))
            } else {
                (s, Ok(cyc))
            }
        },
        Instr::Jmp { ea } => {
            let (s1, ro) = m_resolve(s, ea, Size::Long);
            match ro {
                Err(f) => (s1, Err(f)),
                Ok(op) => match op {
                    Operand::Mem(a) => (Machine { pc: a, ..s1 }, Ok(cyc)),
                    _ => (s1, Err(Fault::IllegalInstruction)),
                },
            }
        },
        Instr::Jsr { ea } => {
            let (s1, ro) = m_resolve(s, ea, Size::Long);
            match ro {
                Err(f) => (s1, Err(f)),
                Ok(op) => match op {
                    Operand::Mem(a) => {
                        let ret = s1.pc;
                        let (s2, w) = m_push_long(s1, ret);
                        match w {
                            Err(f) => (s2, Err(f)),
                            Ok(_) => (Machine { pc: a, ..s2 }, Ok(cyc)),
                        }
                    },
                    _ => (s1, Err(Fault::IllegalInstruction)),
                },
            }
        },
        Instr::Rts => {
            let sup = s.sr.supervisor;
            let sp = s.a_reg(7, sup);
            match s.read(addr24(sp), Size::Long) {
                Err(f) => (s, Err(f)),
                Ok(v) => (
                    Machine { pc: v, ..s.set_a(7, sup, wrap_add32(sp, 4)) },
                    Ok(cyc),
                ),
            }
        },
        Instr::Rte => {
            if !s.sr.supervisor {
                (s, Err(Fault::PrivilegeViolation))
            } else {
                let sp = s.a_reg(7, true);
                match s.read(addr24(sp), Size::Word) {
                    Err(f) => (s, Err(f)),
                    Ok(srw) => match s.read(addr24(wrap_add32(sp, 2)), Size::Long) {
                        Err(f) => (s, Err(f)),
                        Ok(pcv) => (
                            Machine {
                                sr: Status::spec_from_word((srw % 0x10000) as u16),
                                pc: pcv,
                                ..s.set_a(7, true, wrap_add32(sp, 6))
                            },
                            Ok(cyc),
                        ),
                    },
                }
            }
        },
        Instr::Nop => (s, Ok(cyc)),
        Instr::MoveToSr { ea } => {
            if !s.sr.supervisor {
                (s, Err(Fault::PrivilegeViolation))
            } else {
                let (s1, ro) = m_resolve(s, ea, Size::Word);
                match ro {
                    Err(f) => (s1, Err(f)),
                    Ok(op) => match m_read_operand(s1, op, Size::Word) {
                        Err(f) => (s1, Err(f)),
                        Ok(v) => (
                            Machine {
                                sr: Status::spec_from_word((v % 0x10000) as u16),
                                ..s1
                            },
                            Ok(cyc),
                        ),
                    },
                }
            }
        },
        Instr::MoveFromSr { ea } => {
            let w = s.sr.spec_word();
            let (s1, ro) = m_resolve(s, ea, Size::Word);
            match ro {
                Err(f) => (s1, Err(f)),
                Ok(op) => {
                    let (s2, wr) = m_write_operand(s1, op, Size::Word, w as u32);
                    match wr {
                        Err(f) => (s2, Err(f)),
                        Ok(_) => (s2, Ok(cyc)),
                    }
                },
            }
        },
        Instr::MoveToCcr { ea } => {
            let (s1, ro) = m_resolve(s, ea, Size::Word);
            match ro {
                Err(f) => (s1, Err(f)),
                Ok(op) => match m_read_operand(s1, op, Size::Word) {
                    Err(f) => (s1, Err(f)),
                    Ok(v) => (
                        Machine { sr: m_write_ccr(s1.sr, (v % 0x100) as u8), ..s1 },
                        Ok(cyc),
                    ),
                },
            }
        },
    }
}

/// Add or subtract between data register `reg` and the operand.
pub open spec fn m_addsub(
    s: Machine,
    cyc: u64,
    sz: Size,
    reg: u8,
    ea: EA,
    to_ea: bool,
    is_add: bool,
) -> (Machine, Result<u64, Fault>) {
    let (s1, ro) = m_resolve(s, ea, sz);
    match ro {
        Err(f) => (s1, Err(f)),
        Ok(op) => match m_read_operand(s1, op, sz) {
            Err(f) => (s1, Err(f)),
            Ok(eav) => {
                let regv = s1.d[reg as int];
                let out = if is_add {
                    crate::alu::spec_alu_add(regv, eav, false, sz)
                } else if to_ea {
                    crate::alu::spec_alu_sub(eav, regv, false, sz)
                } else {
                    crate::alu::spec_alu_sub(regv, eav, false, sz)
                };
                let (s2, w) = if to_ea {
                    m_write_operand(s1, op, sz, out.value)
                } else {
                    m_write_operand(s1, Operand::InD(reg), sz, out.value)
                };
                match w {
                    Err(f) => (s2, Err(f)),
                    Ok(_) => (
                        Machine {
                            sr: m_apply_flags(
                                s2.sr,
                                out.value,
                                sz,
                                out.carry,
                                out.overflow,
                                all_flags(),
                            ),
                            ..s2
                        },
                        Ok(cyc),
                    ),
                }
            },
        },
    }
}

/// The extend-aware register forms; the zero flag is only cleared, never set.
pub open spec fn m_addsubx(s: Machine, cyc: u64, sz: Size, rx: u8, ry: u8, is_add: bool) -> (
    Machine,
    Result<u64, Fault>,
) {
    let out = if is_add {
        crate::alu::spec_alu_add(s.d[rx as int], s.d[ry as int], s.sr.extend, sz)
    } else {
        crate::alu::spec_alu_sub(s.d[rx as int], s.d[ry as int], s.sr.extend, sz)
    };
    let s1 = s.set_d_sized(rx as int, sz, out.value);
    (
        Machine {
            sr: m_apply_flags(
                s1.sr,
                out.value,
                sz,
                out.carry,
                out.overflow,
                FlagSet {
                    extend: true,
                    negative: true,
                    zero: masked(out.value, sz) != 0,
                    overflow: true,
                    carry: true,
                },
            ),
            ..s1
        },
        Ok(cyc),
    )
}

/// And, or and exclusive-or (`which` 0, 1 and 2).
pub open spec fn m_logic(
    s: Machine,
    cyc: u64,
    sz: Size,
    reg: u8,
    ea: EA,
    to_ea: bool,
    which: u8,
) -> (Machine, Result<u64, Fault>) {
    let (s1, ro) = m_resolve(s, ea, sz);
    match ro {
        Err(f) => (s1, Err(f)),
        Ok(op) => match m_read_operand(s1, op, sz) {
            Err(f) => (s1, Err(f)),
            Ok(eav) => {
                let regv = masked(s1.d[reg as int], sz);
                let val = if which == 0 {
                    regv & eav
                } else if which == 1 {
                    regv | eav
                } else {
                    regv ^ eav
                };
                let (s2, w) = if to_ea {
                    m_write_operand(s1, op, sz, val)
                } else {
                    m_write_operand(s1, Operand::InD(reg), sz, val)
                };
                match w {
                    Err(f) => (s2, Err(f)),
                    Ok(_) => (
                        Machine {
                            sr: m_apply_flags(s2.sr, val, sz, false, false, nzvc_flags()),
                            ..s2
                        },
                        Ok(cyc),
                    ),
                }
            },
        },
    }
}

/// The vectoring routine: read the vector entry (an unreadable or zero entry
/// is fatal), push the status word and the program counter onto the
/// supervisor stack (a push that cannot land is a double fault), force
/// supervisor, clear trace, raise the mask for an interrupt, and resume at
/// the entry. Nothing changes on a fatal outcome.
pub open spec fn m_exception(s: Machine, vec: u8, raise_mask: Option<u8>) -> (
    Machine,
    Result<(), CoreError>,
) {
    match s.read(((vec as u32) * 4) as u32, Size::Long) {
        Err(_) => (s, Err(CoreError::InvalidVector)),
        Ok(entry) => {
            if entry == 0 {
                (s, Err(CoreError::InvalidVector))
            } else {
                let sp = wrap_sub32(s.ssp, 6);
                let sr_spot = addr24(sp);
                let pc_spot = addr24(wrap_add32(sp, 2));
                if !(s.write_result(sr_spot, Size::Word) is Ok && s.write_result(
                    pc_spot,
                    Size::Long,
                ) is Ok) {
                    (s, Err(CoreError::DoubleFault))
                } else {
                    let s1 = s.write(sr_spot, Size::Word, s.sr.spec_word() as u32).write(
                        pc_spot,
                        Size::Long,
                        s.pc,
                    ).set_a(7, true, sp);
                    (
                        Machine {
                            sr: Status {
                                trace: false,
                                supervisor: true,
                                int_mask: match raise_mask {
                                    Some(l) => l,
                                    None => s.sr.int_mask,
                                },
                                ..s.sr
                            },
                            pc: entry,
                            ..s1
                        },
                        Ok(()),
                    )
                }
            }
        },
    }
}

/// Fetch and decode the word at the program counter, then execute it; an
/// undecodable pattern is an illegal-instruction fault.
pub open spec fn m_run(s: Machine) -> (Machine, Result<u64, Fault>) {
    let (s1, w) = m_fetch(s);
    match w {
        Err(f) => (s1, Err(f)),
        Ok(w) => match spec_decode(w) {
            None => (s1, Err(Fault::IllegalInstruction)),
            Some(i) => m_execute(s1, i),
        },
    }
}

/// The post-instruction interrupt check: accept the highest pending request
/// exactly when it beats the mask, clearing it on acceptance.
pub open spec fn m_service(s: Machine) -> (Machine, Result<bool, CoreError>) {
    if s.pending > s.sr.int_mask {
        let (s1, r) = m_exception(s, spec_interrupt_vector(s.pending), Some(s.pending));
        match r {
            Err(e) => (s1, Err(e)),
            Ok(_) => (Machine { pending: 0, ..s1 }, Ok(true)),
        }
    } else {
        (s, Ok(false))
    }
}

/// The interrupt check with its cycle accounting: an accepted interrupt
/// charges the vectoring cost on top of `c`.
pub open spec fn m_interrupt_check(s: Machine, c: u64) -> (Machine, Result<u64, CoreError>) {
    let (s1, r) = m_service(s);
    match r {
        Err(e) => (s1, Err(e)),
        Ok(true) => (s1, Ok((c + spec_exception_cycles()) as u64)),
        Ok(false) => (s1, Ok(c)),
    }
}

/// One full step: run the instruction at the program counter, vector any
/// fault it raises (fatal outcomes end emulation with the state untouched by
/// the failed vectoring), then check for an acceptable interrupt. The result
/// is the cycles of what committed.
pub open spec fn m_step(s: Machine) -> (Machine, Result<u64, CoreError>) {
    let (s1, r1) = m_run(s);
    match r1 {
        Ok(c) => m_interrupt_check(s1, c),
        Err(f) => {
            let (s2, r2) = m_exception(s1, spec_fault_vector(f), None);
            match r2 {
                Err(e) => (s2, Err(e)),
                Ok(_) => m_interrupt_check(s2, spec_exception_cycles()),
            }
        },
    }
}

} // verus!
