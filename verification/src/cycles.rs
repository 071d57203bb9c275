use vstd::prelude::*;

use crate::instr::EA;
use crate::instr::Instr;
use crate::types::Size;

verus! {

/// Cycles spent computing and fetching an operand, by addressing mode.
/// Registers and immediates are cheap; memory modes pay their address
/// calculation plus one bus access for byte or word operands and two for
/// long ones.
pub open spec fn spec_ea_cycles(ea: EA, sz: Size) -> u64 {
    let long_extra: u64 = if sz is Long {
        4
    } else {
        0
    };
    match ea {
        EA::DataReg(_) => 0,
        EA::AddrReg(_) => 0,
        EA::Ind(_) => (4 + long_extra) as u64,
        EA::PostInc(_) => (4 + long_extra) as u64,
        EA::PreDec(_) => (6 + long_extra) as u64,
        EA::Disp(_) => (8 + long_extra) as u64,
        EA::Index(_) => (10 + long_extra) as u64,
        EA::AbsShort => (8 + long_extra) as u64,
        EA::AbsLong => (12 + long_extra) as u64,
        EA::PcDisp => (8 + long_extra) as u64,
        EA::Imm => (4 + long_extra) as u64,
    }
}

/// Cycles of a jump or call target calculation, by control mode.
pub open spec fn spec_control_cycles(ea: EA) -> u64 {
    match ea {
        EA::Ind(_) => 8,
        EA::Disp(_) => 10,
        EA::Index(_) => 14,
        EA::AbsShort => 10,
        EA::AbsLong => 12,
        EA::PcDisp => 10,
        _ => 8,
    }
}

/// The timing table: the defined cycle cost of each decoded instruction,
/// keyed by instruction class, operand size and addressing mode. The cost is
/// fixed per decoded instruction - never computed from runtime values - so
/// the host can pace real time from the returned counts.
///
/// Base costs, before the operand's addressing-mode cycles are added:
/// - move: 4 plus both operands' mode cycles;
/// - add/sub/and/or into a register, and cmp: 4 for byte or word, 6 for long;
/// - add/sub/and/or/eor into memory, and not: 8 for byte or word, 12 for long
///   (eor and not into a register: 4, or 8 for long);
/// - add/sub with extend, register form: 4 for byte or word, 8 for long;
/// - shifts and rotates: 6 for byte or word, 8 for long, plus 2 per bit of an
///   immediate count (a register count is charged the base alone);
/// - branches: 10 taken or not, 18 for branch-to-subroutine;
/// - jmp: the control-mode cost; jsr: the same plus 8 for the push;
/// - rts 16, rte 20, nop 4;
/// - status moves: 12 into the status word or the codes, 6 out of it, plus
///   the operand's mode cycles at word size.
pub open spec fn spec_cycles(i: Instr) -> u64 {
    match i {
        Instr::Move { sz, src, dst } => (4 + spec_ea_cycles(src, sz) + spec_ea_cycles(
            dst,
            sz,
        )) as u64,
        Instr::Add { sz, reg, ea, to_ea } => spec_dyadic_cycles(sz, ea, to_ea),
        Instr::Sub { sz, reg, ea, to_ea } => spec_dyadic_cycles(sz, ea, to_ea),
        Instr::And { sz, reg, ea, to_ea } => spec_dyadic_cycles(sz, ea, to_ea),
        Instr::Or { sz, reg, ea, to_ea } => spec_dyadic_cycles(sz, ea, to_ea),
        Instr::AddX { sz, rx, ry } => if sz is Long {
            8
        } else {
            4
        },
        Instr::SubX { sz, rx, ry } => if sz is Long {
            8
        } else {
            4
        },
        Instr::Cmp { sz, reg, ea } => spec_dyadic_cycles(sz, ea, false),
        Instr::Eor { sz, reg, ea } => (if ea is DataReg {
            if sz is Long {
                8int
            } else {
                4int
            }
        } else {
            (if sz is Long {
                12int
            } else {
                8int
            }) + spec_ea_cycles(ea, sz)
        }) as u64,
        Instr::Not { sz, ea } => (if ea is DataReg {
            if sz is Long {
                8int
            } else {
                4int
            }
        } else {
            (if sz is Long {
                12int
            } else {
                8int
            }) + spec_ea_cycles(ea, sz)
        }) as u64,
        Instr::Shift { kind, left, sz, count_from_reg, count, reg } => (if sz is Long {
            8int
        } else {
            6int
        } + if count_from_reg {
            0int
        } else {
            2 * count
        }) as u64,
        Instr::Bra { disp } => 10,
        Instr::Bsr { disp } => 18,
        Instr::Bcc { cond, disp } => 10,
        Instr::Jmp { ea } => spec_control_cycles(ea),
        Instr::Jsr { ea } => (spec_control_cycles(ea) + 8) as u64,
        Instr::Rts => 16,
        Instr::Rte => 20,
        Instr::Nop => 4,
        Instr::MoveToSr { ea } => (12 + spec_ea_cycles(ea, Size::Word)) as u64,
        Instr::MoveFromSr { ea } => (6 + spec_ea_cycles(ea, Size::Word)) as u64,
        Instr::MoveToCcr { ea } => (12 + spec_ea_cycles(ea, Size::Word)) as u64,
    }
}

/// Register-destination forms pay 4 (byte/word) or 6 (long) plus the source
/// mode; memory-destination forms pay 8 or 12 plus the destination mode.
pub open spec fn spec_dyadic_cycles(sz: Size, ea: EA, to_ea: bool) -> u64 {
    (if to_ea {
        (if sz is Long {
            12int
        } else {
            8int
        }) + spec_ea_cycles(ea, sz)
    } else {
        (if sz is Long {
            6int
        } else {
            4int
        }) + spec_ea_cycles(ea, sz)
    }) as u64
}

/// Cycles spent vectoring any exception or accepted interrupt: the two stack
/// pushes, the vector fetch and the refill of the pipeline.
pub open spec fn spec_exception_cycles() -> u64 {
    44
}

fn ea_cycles(ea: EA, sz: Size) -> (r: u64)
    ensures
        r == spec_ea_cycles(ea, sz),
        r <= 16,
{
    let long_extra: u64 = if matches!(sz, Size::Long) {
        4
    } else {
        0
    };
    match ea {
        EA::DataReg(_) => 0,
        EA::AddrReg(_) => 0,
        EA::Ind(_) => 4 + long_extra,
        EA::PostInc(_) => 4 + long_extra,
        EA::PreDec(_) => 6 + long_extra,
        EA::Disp(_) => 8 + long_extra,
        EA::Index(_) => 10 + long_extra,
        EA::AbsShort => 8 + long_extra,
        EA::AbsLong => 12 + long_extra,
        EA::PcDisp => 8 + long_extra,
        EA::Imm => 4 + long_extra,
    }
}

fn control_cycles(ea: EA) -> (r: u64)
    ensures
        r == spec_control_cycles(ea),
        8 <= r <= 14,
{
    match ea {
        EA::Ind(_) => 8,
        EA::Disp(_) => 10,
        EA::Index(_) => 14,
        EA::AbsShort => 10,
        EA::AbsLong => 12,
        EA::PcDisp => 10,
        _ => 8,
    }
}

fn dyadic_cycles(sz: Size, ea: EA, to_ea: bool) -> (r: u64)
    ensures
        r == spec_dyadic_cycles(sz, ea, to_ea),
        4 <= r <= 28,
{
    let base: u64 = if to_ea {
        if matches!(sz, Size::Long) {
            12
        } else {
            8
        }
    } else {
        if matches!(sz, Size::Long) {
            6
        } else {
            4
        }
    };
    base + ea_cycles(ea, sz)
}

/// Look an instruction's defined cost up in the timing table. Every entry
/// lies between 4 and 100 cycles.
pub fn cycles_of(i: Instr) -> (r: u64)
    requires
        crate::instr::wf_instr(i),
    ensures
        r == spec_cycles(i),
        4 <= r <= 100,
{
    match i {
        Instr::Move { sz, src, dst } => 4 + ea_cycles(src, sz) + ea_cycles(dst, sz),
        Instr::Add { sz, reg: _, ea, to_ea } => dyadic_cycles(sz, ea, to_ea),
        Instr::Sub { sz, reg: _, ea, to_ea } => dyadic_cycles(sz, ea, to_ea),
        Instr::And { sz, reg: _, ea, to_ea } => dyadic_cycles(sz, ea, to_ea),
        Instr::Or { sz, reg: _, ea, to_ea } => dyadic_cycles(sz, ea, to_ea),
        Instr::AddX { sz, .. } => if matches!(sz, Size::Long) {
            8
        } else {
            4
        },
        Instr::SubX { sz, .. } => if matches!(sz, Size::Long) {
            8
        } else {
            4
        },
        Instr::Cmp { sz, reg: _, ea } => dyadic_cycles(sz, ea, false),
        Instr::Eor { sz, reg: _, ea } => {
            if matches!(ea, EA::DataReg(_)) {
                if matches!(sz, Size::Long) {
                    8
                } else {
                    4
                }
            } else {
                let base: u64 = if matches!(sz, Size::Long) {
                    12
                } else {
                    8
                };
                base + ea_cycles(ea, sz)
            }
        },
        Instr::Not { sz, ea } => {
            if matches!(ea, EA::DataReg(_)) {
                if matches!(sz, Size::Long) {
                    8
                } else {
                    4
                }
            } else {
                let base: u64 = if matches!(sz, Size::Long) {
                    12
                } else {
                    8
                };
                base + ea_cycles(ea, sz)
            }
        },
        Instr::Shift { sz, count_from_reg, count, .. } => {
            let base: u64 = if matches!(sz, Size::Long) {
                8
            } else {
                6
            };
            if count_from_reg {
                base
            } else {
                base + 2 * (count as u64)
            }
        },
        Instr::Bra { .. } => 10,
        Instr::Bsr { .. } => 18,
        Instr::Bcc { .. } => 10,
        Instr::Jmp { ea } => control_cycles(ea),
        Instr::Jsr { ea } => control_cycles(ea) + 8,
        Instr::Rts => 16,
        Instr::Rte => 20,
        Instr::Nop => 4,
        Instr::MoveToSr { ea } => 12 + ea_cycles(ea, Size::Word),
        Instr::MoveFromSr { ea } => 6 + ea_cycles(ea, Size::Word),
        Instr::MoveToCcr { ea } => 12 + ea_cycles(ea, Size::Word),
    }
}

/// Cycles charged when an exception or interrupt is vectored.
pub fn exception_cycles() -> (r: u64)
    ensures
        r == spec_exception_cycles(),
{
    44
}

} // verus!
