use vstd::prelude::*;

use crate::types::Size;

verus! {

/// An addressing mode together with its register sub-field, as decoded from
/// the six low bits of an opcode word (three mode bits, three register bits).
#[derive(Clone, Copy, Debug, PartialEq, Eq, Structural)]
pub enum EA {
    /// Dn.
    DataReg(u8),
    /// An.
    AddrReg(u8),
    /// (An).
    Ind(u8),
    /// (An)+ with post-increment.
    PostInc(u8),
    /// -(An) with pre-decrement.
    PreDec(u8),
    /// (d16,An).
    Disp(u8),
    /// (d8,An,Xn) with brief extension word.
    Index(u8),
    /// (xxx).W - sign-extended 16-bit absolute address.
    AbsShort,
    /// (xxx).L - 32-bit absolute address.
    AbsLong,
    /// (d16,PC).
    PcDisp,
    /// #imm.
    Imm,
}

impl EA {
    pub open spec fn wf(self) -> bool {
        match self {
            EA::DataReg(r) => r < 8,
            EA::AddrReg(r) => r < 8,
            EA::Ind(r) => r < 8,
            EA::PostInc(r) => r < 8,
            EA::PreDec(r) => r < 8,
            EA::Disp(r) => r < 8,
            EA::Index(r) => r < 8,
            _ => true,
        }
    }

    /// The three mode bits this addressing mode encodes to.
    pub open spec fn spec_mode(self) -> u16 {
        match self {
            EA::DataReg(_) => 0,
            EA::AddrReg(_) => 1,
            EA::Ind(_) => 2,
            EA::PostInc(_) => 3,
            EA::PreDec(_) => 4,
            EA::Disp(_) => 5,
            EA::Index(_) => 6,
            EA::AbsShort => 7,
            EA::AbsLong => 7,
            EA::PcDisp => 7,
            EA::Imm => 7,
        }
    }

    /// The three register bits: the register number, or the sub-mode selector
    /// under mode 7.
    pub open spec fn spec_reg_field(self) -> u16 {
        match self {
            EA::DataReg(r) => r as u16,
            EA::AddrReg(r) => r as u16,
            EA::Ind(r) => r as u16,
            EA::PostInc(r) => r as u16,
            EA::PreDec(r) => r as u16,
            EA::Disp(r) => r as u16,
            EA::Index(r) => r as u16,
            EA::AbsShort => 0,
            EA::AbsLong => 1,
            EA::PcDisp => 2,
            EA::Imm => 4,
        }
    }

    /// The data category: every mode but address register direct.
    pub open spec fn is_data(self) -> bool {
        !(self is AddrReg)
    }

    /// A writable memory location.
    pub open spec fn is_mem_alterable(self) -> bool {
        match self {
            EA::Ind(_) => true,
            EA::PostInc(_) => true,
            EA::PreDec(_) => true,
            EA::Disp(_) => true,
            EA::Index(_) => true,
            EA::AbsShort => true,
            EA::AbsLong => true,
            _ => false,
        }
    }

    /// A writable operand: a data register or a writable memory location.
    pub open spec fn is_data_alterable(self) -> bool {
        self is DataReg || self.is_mem_alterable()
    }

    /// The control category, legal as a jump or call target.
    pub open spec fn is_control(self) -> bool {
        match self {
            EA::Ind(_) => true,
            EA::Disp(_) => true,
            EA::Index(_) => true,
            EA::AbsShort => true,
            EA::AbsLong => true,
            EA::PcDisp => true,
            _ => false,
        }
    }
}

/// Shift and rotate flavours: arithmetic and logical shifts, rotate through
/// the extend flag, and plain rotate.
#[derive(Clone, Copy, Debug, PartialEq, Eq, Structural)]
pub enum ShiftKind {
    Arith,
    Logical,
    RotateX,
    Rotate,
}

/// A decoded instruction: the opcode class with its operand descriptors and
/// operand size. Produced afresh by each decode; never retained across steps.
#[derive(Clone, Copy, Debug, PartialEq, Eq, Structural)]
pub enum Instr {
    Move { sz: Size, src: EA, dst: EA },
    /// `to_ea == false`: ea + Dreg -> Dreg; `to_ea == true`: Dreg + ea -> ea.
    Add { sz: Size, reg: u8, ea: EA, to_ea: bool },
    /// ADDX Dy,Dx - add with the extend flag, register form.
    AddX { sz: Size, rx: u8, ry: u8 },
    Sub { sz: Size, reg: u8, ea: EA, to_ea: bool },
    /// SUBX Dy,Dx - subtract with the extend flag, register form.
    SubX { sz: Size, rx: u8, ry: u8 },
    /// CMP ea,Dreg - subtract without storing, setting codes only.
    Cmp { sz: Size, reg: u8, ea: EA },
    And { sz: Size, reg: u8, ea: EA, to_ea: bool },
    Or { sz: Size, reg: u8, ea: EA, to_ea: bool },
    /// EOR Dreg,ea - exclusive or, register to data-alterable destination.
    Eor { sz: Size, reg: u8, ea: EA },
    Not { sz: Size, ea: EA },
    /// Shift or rotate a data register. With `count_from_reg` the count is
    /// taken from D`count` modulo 64; otherwise `count` is an immediate 1-8.
    Shift { kind: ShiftKind, left: bool, sz: Size, count_from_reg: bool, count: u8, reg: u8 },
    /// Unconditional branch, signed 8-bit displacement from the word after
    /// the opcode.
    Bra { disp: u8 },
    /// Branch to subroutine, pushing the return address.
    Bsr { disp: u8 },
    /// Conditional branch; `cond` is the condition field, 2-15.
    Bcc { cond: u8, disp: u8 },
    Jmp { ea: EA },
    Jsr { ea: EA },
    Rts,
    /// Return from exception: pops status word and program counter.
    Rte,
    Nop,
    /// Privileged load of the full status word.
    MoveToSr { ea: EA },
    /// Store of the full status word.
    MoveFromSr { ea: EA },
    /// Load of the condition-code byte alone; legal in any mode.
    MoveToCcr { ea: EA },
}

/// Field split of an opcode word: the top four bits, then four three-bit
/// groups. Every supported encoding is described over these five fields.
pub open spec fn field_top(w: u16) -> u16 {
    w >> 12
}

pub open spec fn field_1(w: u16) -> u16 {
    (w >> 9) & 7
}

pub open spec fn field_2(w: u16) -> u16 {
    (w >> 6) & 7
}

pub open spec fn field_3(w: u16) -> u16 {
    (w >> 3) & 7
}

pub open spec fn field_4(w: u16) -> u16 {
    w & 7
}

/// The opcode word holding the given five fields.
pub open spec fn assemble(f0: u16, f1: u16, f2: u16, f3: u16, f4: u16) -> u16 {
    (f0 * 0x1000 + f1 * 0x200 + f2 * 0x40 + f3 * 8 + f4) as u16
}

/// The five fields are bounded and reassemble to the word they came from.
pub proof fn lemma_fields(w: u16)
    ensures
        field_top(w) < 16,
        field_1(w) < 8,
        field_2(w) < 8,
        field_3(w) < 8,
        field_4(w) < 8,
        assemble(field_top(w), field_1(w), field_2(w), field_3(w), field_4(w)) == w,
{
    assert(field_top(w) < 16 && field_1(w) < 8 && field_2(w) < 8 && field_3(w) < 8 && field_4(w)
        < 8 && assemble(field_top(w), field_1(w), field_2(w), field_3(w), field_4(w)) == w)
        by (bit_vector);
}

/// Two-bit size field as used by most families: 0 byte, 1 word, 2 long.
pub open spec fn spec_size2(b: u16) -> Option<Size> {
    if b == 0 {
        Some(Size::Byte)
    } else if b == 1 {
        Some(Size::Word)
    } else if b == 2 {
        Some(Size::Long)
    } else {
        None
    }
}

pub open spec fn spec_size2_bits(sz: Size) -> u16 {
    match sz {
        Size::Byte => 0,
        Size::Word => 1,
        Size::Long => 2,
    }
}

/// The move family keeps its own size code in the top field: 1 byte, 3 word,
/// 2 long.
pub open spec fn spec_move_size(f0: u16) -> Option<Size> {
    if f0 == 1 {
        Some(Size::Byte)
    } else if f0 == 3 {
        Some(Size::Word)
    } else if f0 == 2 {
        Some(Size::Long)
    } else {
        None
    }
}

pub open spec fn spec_move_size_bits(sz: Size) -> u16 {
    match sz {
        Size::Byte => 1,
        Size::Word => 3,
        Size::Long => 2,
    }
}

pub open spec fn spec_decode_ea(m: u16, r: u16) -> Option<EA> {
    if m == 0 {
        Some(EA::DataReg(r as u8))
    } else if m == 1 {
        Some(EA::AddrReg(r as u8))
    } else if m == 2 {
        Some(EA::Ind(r as u8))
    } else if m == 3 {
        Some(EA::PostInc(r as u8))
    } else if m == 4 {
        Some(EA::PreDec(r as u8))
    } else if m == 5 {
        Some(EA::Disp(r as u8))
    } else if m == 6 {
        Some(EA::Index(r as u8))
    } else if m == 7 {
        if r == 0 {
            Some(EA::AbsShort)
        } else if r == 1 {
            Some(EA::AbsLong)
        } else if r == 2 {
            Some(EA::PcDisp)
        } else if r == 4 {
            Some(EA::Imm)
        } else {
            None
        }
    } else {
        None
    }
}

/// Source operand categories accepted by add, sub and cmp: any data mode, and
/// an address register when the size is word or long.
pub open spec fn arith_src_ok(ea: EA, sz: Size) -> bool {
    ea.is_data() || !(sz is Byte)
}

/// Shared layout of the four dyadic families (or, sub, and, add): opmodes 0-2
/// compute into the data register, opmodes 4-6 into the operand. Under
/// opmodes 4-6, mode fields 0 and 1 select the register exchange / extend
/// forms, of which only the data-register extend form of add and sub is
/// supported.
pub open spec fn spec_decode_dyadic(f0: u16, f1: u16, f2: u16, f3: u16, f4: u16) -> Option<Instr> {
    if f2 <= 2 {
        match (spec_size2(f2), spec_decode_ea(f3, f4)) {
            (Some(sz), Some(ea)) => {
                if f0 == 8 || f0 == 12 {
                    if ea.is_data() {
                        Some(
                            if f0 == 8 {
                                Instr::Or { sz, reg: f1 as u8, ea, to_ea: false }
                            } else {
                                Instr::And { sz, reg: f1 as u8, ea, to_ea: false }
                            },
                        )
                    } else {
                        None
                    }
                } else {
                    if arith_src_ok(ea, sz) {
                        Some(
                            if f0 == 9 {
                                Instr::Sub { sz, reg: f1 as u8, ea, to_ea: false }
                            } else {
                                Instr::Add { sz, reg: f1 as u8, ea, to_ea: false }
                            },
                        )
                    } else {
                        None
                    }
                }
            },
            _ => None,
        }
    } else if 4 <= f2 <= 6 {
        match spec_size2((f2 - 4) as u16) {
            Some(sz) => {
                if f3 == 0 {
                    if f0 == 9 {
                        Some(Instr::SubX { sz, rx: f1 as u8, ry: f4 as u8 })
                    } else if f0 == 13 {
                        Some(Instr::AddX { sz, rx: f1 as u8, ry: f4 as u8 })
                    } else {
                        None
                    }
                } else if f3 == 1 {
                    None
                } else {
                    match spec_decode_ea(f3, f4) {
                        Some(ea) => if ea.is_mem_alterable() {
                            Some(
                                if f0 == 8 {
                                    Instr::Or { sz, reg: f1 as u8, ea, to_ea: true }
                                } else if f0 == 9 {
                                    Instr::Sub { sz, reg: f1 as u8, ea, to_ea: true }
                                } else if f0 == 12 {
                                    Instr::And { sz, reg: f1 as u8, ea, to_ea: true }
                                } else {
                                    Instr::Add { sz, reg: f1 as u8, ea, to_ea: true }
                                },
                            )
                        } else {
                            None
                        },
                        None => None,
                    }
                }
            },
            None => None,
        }
    } else {
        None
    }
}

/// The compare family: opmodes 0-2 are cmp into the codes, opmodes 4-6 are
/// exclusive-or into the operand (the memory-to-memory compare under mode
/// field 1 is not supported).
pub open spec fn spec_decode_cmp_eor(f1: u16, f2: u16, f3: u16, f4: u16) -> Option<Instr> {
    if f2 <= 2 {
        match (spec_size2(f2), spec_decode_ea(f3, f4)) {
            (Some(sz), Some(ea)) => if arith_src_ok(ea, sz) {
                Some(Instr::Cmp { sz, reg: f1 as u8, ea })
            } else {
                None
            },
            _ => None,
        }
    } else if 4 <= f2 <= 6 && f3 != 1 {
        match (spec_size2((f2 - 4) as u16), spec_decode_ea(f3, f4)) {
            (Some(sz), Some(ea)) => if ea.is_data_alterable() {
                Some(Instr::Eor { sz, reg: f1 as u8, ea })
            } else {
                None
            },
            _ => None,
        }
    } else {
        None
    }
}

/// The status-word, negation and control-transfer family under top field 4.
pub open spec fn spec_decode_misc(f1: u16, f2: u16, f3: u16, f4: u16) -> Option<Instr> {
    if f1 == 0 && f2 == 3 {
        match spec_decode_ea(f3, f4) {
            Some(ea) => if ea.is_data_alterable() {
                Some(Instr::MoveFromSr { ea })
            } else {
                None
            },
            None => None,
        }
    } else if f1 == 2 && f2 == 3 {
        match spec_decode_ea(f3, f4) {
            Some(ea) => if ea.is_data() {
                Some(Instr::MoveToCcr { ea })
            } else {
                None
            },
            None => None,
        }
    } else if f1 == 3 && f2 == 3 {
        match spec_decode_ea(f3, f4) {
            Some(ea) => if ea.is_data() {
                Some(Instr::MoveToSr { ea })
            } else {
                None
            },
            None => None,
        }
    } else if f1 == 3 && f2 <= 2 {
        match (spec_size2(f2), spec_decode_ea(f3, f4)) {
            (Some(sz), Some(ea)) => if ea.is_data_alterable() {
                Some(Instr::Not { sz, ea })
            } else {
                None
            },
            _ => None,
        }
    } else if f1 == 7 && f2 == 3 {
        match spec_decode_ea(f3, f4) {
            Some(ea) => if ea.is_control() {
                Some(Instr::Jmp { ea })
            } else {
                None
            },
            None => None,
        }
    } else if f1 == 7 && f2 == 2 {
        match spec_decode_ea(f3, f4) {
            Some(ea) => if ea.is_control() {
                Some(Instr::Jsr { ea })
            } else {
                None
            },
            None => None,
        }
    } else if f1 == 7 && f2 == 1 && f3 == 6 {
        if f4 == 5 {
            Some(Instr::Rts)
        } else if f4 == 3 {
            Some(Instr::Rte)
        } else if f4 == 1 {
            Some(Instr::Nop)
        } else {
            None
        }
    } else {
        None
    }
}

/// The branch family: the condition sits in bits 11-8, the signed
/// displacement in the low byte. A zero displacement selects the
/// word-displacement form, which is not supported.
pub open spec fn spec_decode_branch(f1: u16, f2: u16, f3: u16, f4: u16) -> Option<Instr> {
    let cond = (f1 * 2 + f2 / 4) as u8;
    let disp = ((f2 % 4) * 64 + f3 * 8 + f4) as u8;
    if disp == 0 {
        None
    } else if cond == 0 {
        Some(Instr::Bra { disp })
    } else if cond == 1 {
        Some(Instr::Bsr { disp })
    } else {
        Some(Instr::Bcc { cond, disp })
    }
}

/// The shift and rotate family, register targets only: bit 8 is the
/// direction, bits 7-6 the size (3 would be the unsupported memory form),
/// bit 5 selects a register count, bits 4-3 the flavour.
pub open spec fn spec_decode_shift(f1: u16, f2: u16, f3: u16, f4: u16) -> Option<Instr> {
    if f2 % 4 == 3 {
        None
    } else {
        match spec_size2(f2 % 4) {
            Some(sz) => {
                let left = f2 / 4 == 1;
                let from_reg = f3 / 4 == 1;
                let kind = if f3 % 4 == 0 {
                    ShiftKind::Arith
                } else if f3 % 4 == 1 {
                    ShiftKind::Logical
                } else if f3 % 4 == 2 {
                    ShiftKind::RotateX
                } else {
                    ShiftKind::Rotate
                };
                let count = if from_reg {
                    f1 as u8
                } else if f1 == 0 {
                    8u8
                } else {
                    f1 as u8
                };
                Some(
                    Instr::Shift {
                        kind,
                        left,
                        sz,
                        count_from_reg: from_reg,
                        count,
                        reg: f4 as u8,
                    },
                )
            },
            None => None,
        }
    }
}

/// Classification of an opcode word into a decoded instruction, or nothing
/// for every unrecognized bit pattern.
pub open spec fn spec_decode(w: u16) -> Option<Instr> {
    let f0 = field_top(w);
    let f1 = field_1(w);
    let f2 = field_2(w);
    let f3 = field_3(w);
    let f4 = field_4(w);
    if f0 == 1 || f0 == 2 || f0 == 3 {
        match (spec_move_size(f0), spec_decode_ea(f3, f4), spec_decode_ea(f2, f1)) {
            (Some(sz), Some(src), Some(dst)) => {
                if dst.is_data_alterable() && (src.is_data() || !(sz is Byte)) {
                    Some(Instr::Move { sz, src, dst })
                } else {
                    None
                }
            },
            _ => None,
        }
    } else if f0 == 4 {
        spec_decode_misc(f1, f2, f3, f4)
    } else if f0 == 6 {
        spec_decode_branch(f1, f2, f3, f4)
    } else if f0 == 8 || f0 == 9 || f0 == 12 || f0 == 13 {
        spec_decode_dyadic(f0, f1, f2, f3, f4)
    } else if f0 == 11 {
        spec_decode_cmp_eor(f1, f2, f3, f4)
    } else if f0 == 14 {
        spec_decode_shift(f1, f2, f3, f4)
    } else {
        None
    }
}

/// The canonical opcode word of a decoded instruction.
pub open spec fn spec_encode(i: Instr) -> u16 {
    match i {
        Instr::Move { sz, src, dst } => assemble(
            spec_move_size_bits(sz),
            dst.spec_reg_field(),
            dst.spec_mode(),
            src.spec_mode(),
            src.spec_reg_field(),
        ),
        Instr::Or { sz, reg, ea, to_ea } => assemble(
            8,
            reg as u16,
            (spec_size2_bits(sz) + if to_ea {
                4int
            } else {
                0int
            }) as u16,
            ea.spec_mode(),
            ea.spec_reg_field(),
        ),
        Instr::Sub { sz, reg, ea, to_ea } => assemble(
            9,
            reg as u16,
            (spec_size2_bits(sz) + if to_ea {
                4int
            } else {
                0int
            }) as u16,
            ea.spec_mode(),
            ea.spec_reg_field(),
        ),
        Instr::And { sz, reg, ea, to_ea } => assemble(
            12,
            reg as u16,
            (spec_size2_bits(sz) + if to_ea {
                4int
            } else {
                0int
            }) as u16,
            ea.spec_mode(),
            ea.spec_reg_field(),
        ),
        Instr::Add { sz, reg, ea, to_ea } => assemble(
            13,
            reg as u16,
            (spec_size2_bits(sz) + if to_ea {
                4int
            } else {
                0int
            }) as u16,
            ea.spec_mode(),
            ea.spec_reg_field(),
        ),
        Instr::SubX { sz, rx, ry } => assemble(
            9,
            rx as u16,
            (spec_size2_bits(sz) + 4) as u16,
            0,
            ry as u16,
        ),
        Instr::AddX { sz, rx, ry } => assemble(
            13,
            rx as u16,
            (spec_size2_bits(sz) + 4) as u16,
            0,
            ry as u16,
        ),
        Instr::Cmp { sz, reg, ea } => assemble(
            11,
            reg as u16,
            spec_size2_bits(sz),
            ea.spec_mode(),
            ea.spec_reg_field(),
        ),
        Instr::Eor { sz, reg, ea } => assemble(
            11,
            reg as u16,
            (spec_size2_bits(sz) + 4) as u16,
            ea.spec_mode(),
            ea.spec_reg_field(),
        ),
        Instr::Not { sz, ea } => assemble(
            4,
            3,
            spec_size2_bits(sz),
            ea.spec_mode(),
            ea.spec_reg_field(),
        ),
        Instr::MoveFromSr { ea } => assemble(4, 0, 3, ea.spec_mode(), ea.spec_reg_field()),
        Instr::MoveToCcr { ea } => assemble(4, 2, 3, ea.spec_mode(), ea.spec_reg_field()),
        Instr::MoveToSr { ea } => assemble(4, 3, 3, ea.spec_mode(), ea.spec_reg_field()),
        Instr::Jmp { ea } => assemble(4, 7, 3, ea.spec_mode(), ea.spec_reg_field()),
        Instr::Jsr { ea } => assemble(4, 7, 2, ea.spec_mode(), ea.spec_reg_field()),
        Instr::Rts => assemble(4, 7, 1, 6, 5),
        Instr::Rte => assemble(4, 7, 1, 6, 3),
        Instr::Nop => assemble(4, 7, 1, 6, 1),
        Instr::Bra { disp } => spec_encode_branch(0, disp),
        Instr::Bsr { disp } => spec_encode_branch(1, disp),
        Instr::Bcc { cond, disp } => spec_encode_branch(cond, disp),
        Instr::Shift { kind, left, sz, count_from_reg, count, reg } => assemble(
            14,
            if count_from_reg {
                count as u16
            } else {
                (count % 8) as u16
            },
            (if left {
                4u16
            } else {
                0u16
            } + spec_size2_bits(sz)) as u16,
            (if count_from_reg {
                4u16
            } else {
                0u16
            } + match kind {
                ShiftKind::Arith => 0u16,
                ShiftKind::Logical => 1u16,
                ShiftKind::RotateX => 2u16,
                ShiftKind::Rotate => 3u16,
            }) as u16,
            reg as u16,
        ),
    }
}

/// Branch encoding: condition in the second field and the top bit of the
/// third, displacement spread over the rest.
pub open spec fn spec_encode_branch(cond: u8, disp: u8) -> u16 {
    assemble(
        6,
        (cond / 2) as u16,
        ((cond % 2) * 4 + disp / 64) as u16,
        (disp / 8 % 8) as u16,
        (disp % 8) as u16,
    )
}

/// Structural constraints every decoded instruction satisfies: register
/// numbers below eight, addressing modes in the category the instruction
/// accepts, branch conditions and shift counts in range.
pub open spec fn wf_instr(i: Instr) -> bool {
    match i {
        Instr::Move { sz, src, dst } => src.wf() && dst.wf() && dst.is_data_alterable() && (
        src.is_data() || !(sz is Byte)),
        Instr::Add { sz, reg, ea, to_ea } => reg < 8 && ea.wf() && if to_ea {
            ea.is_mem_alterable()
        } else {
            arith_src_ok(ea, sz)
        },
        Instr::Sub { sz, reg, ea, to_ea } => reg < 8 && ea.wf() && if to_ea {
            ea.is_mem_alterable()
        } else {
            arith_src_ok(ea, sz)
        },
        Instr::And { sz, reg, ea, to_ea } => reg < 8 && ea.wf() && if to_ea {
            ea.is_mem_alterable()
        } else {
            ea.is_data()
        },
        Instr::Or { sz, reg, ea, to_ea } => reg < 8 && ea.wf() && if to_ea {
            ea.is_mem_alterable()
        } else {
            ea.is_data()
        },
        Instr::AddX { sz, rx, ry } => rx < 8 && ry < 8,
        Instr::SubX { sz, rx, ry } => rx < 8 && ry < 8,
        Instr::Cmp { sz, reg, ea } => reg < 8 && ea.wf() && arith_src_ok(ea, sz),
        Instr::Eor { sz, reg, ea } => reg < 8 && ea.wf() && ea.is_data_alterable(),
        Instr::Not { sz, ea } => ea.wf() && ea.is_data_alterable(),
        Instr::Shift { kind, left, sz, count_from_reg, count, reg } => reg < 8
            && if count_from_reg {
            count < 8
        } else {
            1 <= count <= 8
        },
        Instr::Bra { disp } => disp != 0,
        Instr::Bsr { disp } => disp != 0,
        Instr::Bcc { cond, disp } => 2 <= cond <= 15 && disp != 0,
        Instr::Jmp { ea } => ea.wf() && ea.is_control(),
        Instr::Jsr { ea } => ea.wf() && ea.is_control(),
        Instr::Rts => true,
        Instr::Rte => true,
        Instr::Nop => true,
        Instr::MoveToSr { ea } => ea.wf() && ea.is_data(),
        Instr::MoveFromSr { ea } => ea.wf() && ea.is_data_alterable(),
        Instr::MoveToCcr { ea } => ea.wf() && ea.is_data(),
    }
}

fn decode_ea(m: u16, r: u16) -> (res: Option<EA>)
    requires
        r < 8,
    ensures
        res == spec_decode_ea(m, r),
{
    if m == 0 {
        Some(EA::DataReg(r as u8))
    } else if m == 1 {
        Some(EA::AddrReg(r as u8))
    } else if m == 2 {
        Some(EA::Ind(r as u8))
    } else if m == 3 {
        Some(EA::PostInc(r as u8))
    } else if m == 4 {
        Some(EA::PreDec(r as u8))
    } else if m == 5 {
        Some(EA::Disp(r as u8))
    } else if m == 6 {
        Some(EA::Index(r as u8))
    } else if m == 7 {
        if r == 0 {
            Some(EA::AbsShort)
        } else if r == 1 {
            Some(EA::AbsLong)
        } else if r == 2 {
            Some(EA::PcDisp)
        } else if r == 4 {
            Some(EA::Imm)
        } else {
            None
        }
    } else {
        None
    }
}

fn size2(b: u16) -> (res: Option<Size>)
    ensures
        res == spec_size2(b),
{
    if b == 0 {
        Some(Size::Byte)
    } else if b == 1 {
        Some(Size::Word)
    } else if b == 2 {
        Some(Size::Long)
    } else {
        None
    }
}

fn ea_is_data(ea: EA) -> (r: bool)
    ensures
        r == ea.is_data(),
{
    !matches!(ea, EA::AddrReg(_))
}

fn ea_is_mem_alterable(ea: EA) -> (r: bool)
    ensures
        r == ea.is_mem_alterable(),
{
    matches!(
        ea,
        EA::Ind(_) | EA::PostInc(_) | EA::PreDec(_) | EA::Disp(_) | EA::Index(_) | EA::AbsShort
            | EA::AbsLong
    )
}

fn ea_is_data_alterable(ea: EA) -> (r: bool)
    ensures
        r == ea.is_data_alterable(),
{
    matches!(ea, EA::DataReg(_)) || ea_is_mem_alterable(ea)
}

fn ea_is_control(ea: EA) -> (r: bool)
    ensures
        r == ea.is_control(),
{
    matches!(
        ea,
        EA::Ind(_) | EA::Disp(_) | EA::Index(_) | EA::AbsShort | EA::AbsLong | EA::PcDisp
    )
}

/// Classify an opcode word. Decoding is pure: no processor state is touched,
/// and unrecognized bit patterns yield `None`, which the step loop turns into
/// an illegal-instruction fault.
#[verifier::rlimit(60)]
pub fn decode_word(w: u16) -> (r: Option<Instr>)
    ensures
        r == spec_decode(w),
        r matches Some(i) ==> wf_instr(i),
{
    proof {
        lemma_fields(w);
    }
    let f0 = w >> 12;
    let f1 = (w >> 9) & 7;
    let f2 = (w >> 6) & 7;
    let f3 = (w >> 3) & 7;
    let f4 = w & 7;
    if f0 == 1 || f0 == 2 || f0 == 3 {
        let sz = if f0 == 1 {
            Size::Byte
        } else if f0 == 3 {
            Size::Word
        } else {
            Size::Long
        };
        match (decode_ea(f3, f4), decode_ea(f2, f1)) {
            (Some(src), Some(dst)) => {
                if ea_is_data_alterable(dst) && (ea_is_data(src) || !matches!(sz, Size::Byte)) {
                    Some(Instr::Move { sz, src, dst })
                } else {
                    None
                }
            },
            _ => None,
        }
    } else if f0 == 4 {
        decode_misc(f1, f2, f3, f4)
    } else if f0 == 6 {
        let cond = (f1 * 2 + f2 / 4) as u8;
        let disp = ((f2 % 4) * 64 + f3 * 8 + f4) as u8;
        if disp == 0 {
            None
        } else if cond == 0 {
            Some(Instr::Bra { disp })
        } else if cond == 1 {
            Some(Instr::Bsr { disp })
        } else {
            Some(Instr::Bcc { cond, disp })
        }
    } else if f0 == 8 || f0 == 9 || f0 == 12 || f0 == 13 {
        decode_dyadic(f0, f1, f2, f3, f4)
    } else if f0 == 11 {
        decode_cmp_eor(f1, f2, f3, f4)
    } else if f0 == 14 {
        decode_shift(f1, f2, f3, f4)
    } else {
        None
    }
}

#[verifier::rlimit(60)]
fn decode_dyadic(f0: u16, f1: u16, f2: u16, f3: u16, f4: u16) -> (r: Option<Instr>)
    requires
        f0 == 8 || f0 == 9 || f0 == 12 || f0 == 13,
        f1 < 8,
        f2 < 8,
        f3 < 8,
        f4 < 8,
    ensures
        r == spec_decode_dyadic(f0, f1, f2, f3, f4),
        r matches Some(i) ==> wf_instr(i),
{
    if f2 <= 2 {
        let sz = match size2(f2) {
            Some(sz) => sz,
            None => {
                return None;
            },
        };
        let ea = match decode_ea(f3, f4) {
            Some(ea) => ea,
            None => {
                return None;
            },
        };
        if f0 == 8 || f0 == 12 {
            if ea_is_data(ea) {
                Some(
                    if f0 == 8 {
                        Instr::Or { sz, reg: f1 as u8, ea, to_ea: false }
                    } else {
                        Instr::And { sz, reg: f1 as u8, ea, to_ea: false }
                    },
                )
            } else {
                None
            }
        } else {
            if ea_is_data(ea) || !matches!(sz, Size::Byte) {
                Some(
                    if f0 == 9 {
                        Instr::Sub { sz, reg: f1 as u8, ea, to_ea: false }
                    } else {
                        Instr::Add { sz, reg: f1 as u8, ea, to_ea: false }
                    },
                )
            } else {
                None
            }
        }
    } else if 4 <= f2 && f2 <= 6 {
        let sz = match size2(f2 - 4) {
            Some(sz) => sz,
            None => {
                return None;
            },
        };
        if f3 == 0 {
            if f0 == 9 {
                Some(Instr::SubX { sz, rx: f1 as u8, ry: f4 as u8 })
            } else if f0 == 13 {
                Some(Instr::AddX { sz, rx: f1 as u8, ry: f4 as u8 })
            } else {
                None
            }
        } else if f3 == 1 {
            None
        } else {
            let ea = match decode_ea(f3, f4) {
                Some(ea) => ea,
                None => {
                    return None;
                },
            };
            if ea_is_mem_alterable(ea) {
                Some(
                    if f0 == 8 {
                        Instr::Or { sz, reg: f1 as u8, ea, to_ea: true }
                    } else if f0 == 9 {
                        Instr::Sub { sz, reg: f1 as u8, ea, to_ea: true }
                    } else if f0 == 12 {
                        Instr::And { sz, reg: f1 as u8, ea, to_ea: true }
                    } else {
                        Instr::Add { sz, reg: f1 as u8, ea, to_ea: true }
                    },
                )
            } else {
                None
            }
        }
    } else {
        None
    }
}

fn decode_cmp_eor(f1: u16, f2: u16, f3: u16, f4: u16) -> (r: Option<Instr>)
    requires
        f1 < 8,
        f2 < 8,
        f3 < 8,
        f4 < 8,
    ensures
        r == spec_decode_cmp_eor(f1, f2, f3, f4),
        r matches Some(i) ==> wf_instr(i),
{
    if f2 <= 2 {
        match (size2(f2), decode_ea(f3, f4)) {
            (Some(sz), Some(ea)) => if ea_is_data(ea) || !matches!(sz, Size::Byte) {
                Some(Instr::Cmp { sz, reg: f1 as u8, ea })
            } else {
                None
            },
            _ => None,
        }
    } else if 4 <= f2 && f2 <= 6 && f3 != 1 {
        match (size2(f2 - 4), decode_ea(f3, f4)) {
            (Some(sz), Some(ea)) => if ea_is_data_alterable(ea) {
                Some(Instr::Eor { sz, reg: f1 as u8, ea })
            } else {
                None
            },
            _ => None,
        }
    } else {
        None
    }
}

fn decode_misc(f1: u16, f2: u16, f3: u16, f4: u16) -> (r: Option<Instr>)
    requires
        f1 < 8,
        f2 < 8,
        f3 < 8,
        f4 < 8,
    ensures
        r == spec_decode_misc(f1, f2, f3, f4),
        r matches Some(i) ==> wf_instr(i),
{
    if f1 == 0 && f2 == 3 {
        match decode_ea(f3, f4) {
            Some(ea) => if ea_is_data_alterable(ea) {
                Some(Instr::MoveFromSr { ea })
            } else {
                None
            },
            None => None,
        }
    } else if f1 == 2 && f2 == 3 {
        match decode_ea(f3, f4) {
            Some(ea) => if ea_is_data(ea) {
                Some(Instr::MoveToCcr { ea })
            } else {
                None
            },
            None => None,
        }
    } else if f1 == 3 && f2 == 3 {
        match decode_ea(f3, f4) {
            Some(ea) => if ea_is_data(ea) {
                Some(Instr::MoveToSr { ea })
            } else {
                None
            },
            None => None,
        }
    } else if f1 == 3 && f2 <= 2 {
        match (size2(f2), decode_ea(f3, f4)) {
            (Some(sz), Some(ea)) => if ea_is_data_alterable(ea) {
                Some(Instr::Not { sz, ea })
            } else {
                None
            },
            _ => None,
        }
    } else if f1 == 7 && f2 == 3 {
        match decode_ea(f3, f4) {
            Some(ea) => if ea_is_control(ea) {
                Some(Instr::Jmp { ea })
            } else {
                None
            },
            None => None,
        }
    } else if f1 == 7 && f2 == 2 {
        match decode_ea(f3, f4) {
            Some(ea) => if ea_is_control(ea) {
                Some(Instr::Jsr { ea })
            } else {
                None
            },
            None => None,
        }
    } else if f1 == 7 && f2 == 1 && f3 == 6 {
        if f4 == 5 {
            Some(Instr::Rts)
        } else if f4 == 3 {
            Some(Instr::Rte)
        } else if f4 == 1 {
            Some(Instr::Nop)
        } else {
            None
        }
    } else {
        None
    }
}

fn decode_shift(f1: u16, f2: u16, f3: u16, f4: u16) -> (r: Option<Instr>)
    requires
        f1 < 8,
        f2 < 8,
        f3 < 8,
        f4 < 8,
    ensures
        r == spec_decode_shift(f1, f2, f3, f4),
        r matches Some(i) ==> wf_instr(i),
{
    if f2 % 4 == 3 {
        None
    } else {
        let sz = match size2(f2 % 4) {
            Some(sz) => sz,
            None => {
                return None;
            },
        };
        let left = f2 / 4 == 1;
        let from_reg = f3 / 4 == 1;
        let kind = if f3 % 4 == 0 {
            ShiftKind::Arith
        } else if f3 % 4 == 1 {
            ShiftKind::Logical
        } else if f3 % 4 == 2 {
            ShiftKind::RotateX
        } else {
            ShiftKind::Rotate
        };
        let count = if from_reg {
            f1 as u8
        } else if f1 == 0 {
            8u8
        } else {
            f1 as u8
        };
        Some(Instr::Shift { kind, left, sz, count_from_reg: from_reg, count, reg: f4 as u8 })
    }
}

fn assemble_word(f0: u16, f1: u16, f2: u16, f3: u16, f4: u16) -> (r: u16)
    requires
        f0 < 16,
        f1 < 8,
        f2 < 8,
        f3 < 8,
        f4 < 8,
    ensures
        r == assemble(f0, f1, f2, f3, f4),
{
    f0 * 0x1000 + f1 * 0x200 + f2 * 0x40 + f3 * 8 + f4
}

fn encode_ea(ea: EA) -> (r: (u16, u16))
    requires
        ea.wf(),
    ensures
        r.0 == ea.spec_mode(),
        r.1 == ea.spec_reg_field(),
{
    match ea {
        EA::DataReg(r) => (0, r as u16),
        EA::AddrReg(r) => (1, r as u16),
        EA::Ind(r) => (2, r as u16),
        EA::PostInc(r) => (3, r as u16),
        EA::PreDec(r) => (4, r as u16),
        EA::Disp(r) => (5, r as u16),
        EA::Index(r) => (6, r as u16),
        EA::AbsShort => (7, 0),
        EA::AbsLong => (7, 1),
        EA::PcDisp => (7, 2),
        EA::Imm => (7, 4),
    }
}

fn size2_bits(sz: Size) -> (r: u16)
    ensures
        r == spec_size2_bits(sz),
{
    match sz {
        Size::Byte => 0,
        Size::Word => 1,
        Size::Long => 2,
    }
}

/// Re-encode a decoded instruction into its canonical opcode word.
#[verifier::rlimit(100)]
pub fn encode_word(i: Instr) -> (r: u16)
    requires
        wf_instr(i),
    ensures
        r == spec_encode(i),
{
    match i {
        Instr::Move { sz, src, dst } => encode_move(sz, src, dst),
        Instr::Or { sz, reg, ea, to_ea } => encode_dyadic(8, reg, sz, ea, to_ea),
        Instr::Sub { sz, reg, ea, to_ea } => encode_dyadic(9, reg, sz, ea, to_ea),
        Instr::And { sz, reg, ea, to_ea } => encode_dyadic(12, reg, sz, ea, to_ea),
        Instr::Add { sz, reg, ea, to_ea } => encode_dyadic(13, reg, sz, ea, to_ea),
        Instr::SubX { sz, rx, ry } => assemble_word(
            9,
            rx as u16,
            size2_bits(sz) + 4,
            0,
            ry as u16,
        ),
        Instr::AddX { sz, rx, ry } => assemble_word(
            13,
            rx as u16,
            size2_bits(sz) + 4,
            0,
            ry as u16,
        ),
        Instr::Cmp { sz, reg, ea } => {
            let e = encode_ea(ea);
            assemble_word(11, reg as u16, size2_bits(sz), e.0, e.1)
        },
        Instr::Eor { sz, reg, ea } => {
            let e = encode_ea(ea);
            assemble_word(11, reg as u16, size2_bits(sz) + 4, e.0, e.1)
        },
        Instr::Not { sz, ea } => {
            let e = encode_ea(ea);
            assemble_word(4, 3, size2_bits(sz), e.0, e.1)
        },
        Instr::MoveFromSr { ea } => {
            let e = encode_ea(ea);
            assemble_word(4, 0, 3, e.0, e.1)
        },
        Instr::MoveToCcr { ea } => {
            let e = encode_ea(ea);
            assemble_word(4, 2, 3, e.0, e.1)
        },
        Instr::MoveToSr { ea } => {
            let e = encode_ea(ea);
            assemble_word(4, 3, 3, e.0, e.1)
        },
        Instr::Jmp { ea } => {
            let e = encode_ea(ea);
            assemble_word(4, 7, 3, e.0, e.1)
        },
        Instr::Jsr { ea } => {
            let e = encode_ea(ea);
            assemble_word(4, 7, 2, e.0, e.1)
        },
        Instr::Rts => assemble_word(4, 7, 1, 6, 5),
        Instr::Rte => assemble_word(4, 7, 1, 6, 3),
        Instr::Nop => assemble_word(4, 7, 1, 6, 1),
        Instr::Bra { disp } => encode_branch(0, disp),
        Instr::Bsr { disp } => encode_branch(1, disp),
        Instr::Bcc { cond, disp } => encode_branch(cond, disp),
        Instr::Shift { kind, left, sz, count_from_reg, count, reg } => encode_shift(
            kind,
            left,
            sz,
            count_from_reg,
            count,
            reg,
        ),
    }
}

fn encode_move(sz: Size, src: EA, dst: EA) -> (r: u16)
    requires
        src.wf(),
        dst.wf(),
    ensures
        r == spec_encode(Instr::Move { sz, src, dst }),
{
    let s = encode_ea(src);
    let d = encode_ea(dst);
    let f0 = match sz {
        Size::Byte => 1,
        Size::Word => 3,
        Size::Long => 2,
    };
    assemble_word(f0, d.1, d.0, s.0, s.1)
}

fn encode_shift(kind: ShiftKind, left: bool, sz: Size, count_from_reg: bool, count: u8, reg: u8) -> (r: u16)
    requires
        reg < 8,
        count_from_reg ==> count < 8,
        !count_from_reg ==> 1 <= count <= 8,
    ensures
        r == spec_encode(Instr::Shift { kind, left, sz, count_from_reg, count, reg }),
{
    let f1 = if count_from_reg {
        count as u16
    } else {
        (count % 8) as u16
    };
    let f2 = if left {
        4 + size2_bits(sz)
    } else {
        size2_bits(sz)
    };
    let k: u16 = match kind {
        ShiftKind::Arith => 0,
        ShiftKind::Logical => 1,
        ShiftKind::RotateX => 2,
        ShiftKind::Rotate => 3,
    };
    let f3 = if count_from_reg {
        4 + k
    } else {
        k
    };
    assemble_word(14, f1, f2, f3, reg as u16)
}

fn encode_dyadic(f0: u16, reg: u8, sz: Size, ea: EA, to_ea: bool) -> (r: u16)
    requires
        f0 == 8 || f0 == 9 || f0 == 12 || f0 == 13,
        reg < 8,
        ea.wf(),
    ensures
        r == assemble(
            f0,
            reg as u16,
            (spec_size2_bits(sz) + if to_ea {
                4int
            } else {
                0int
            }) as u16,
            ea.spec_mode(),
            ea.spec_reg_field(),
        ),
{
    let e = encode_ea(ea);
    let f2 = if to_ea {
        size2_bits(sz) + 4
    } else {
        size2_bits(sz)
    };
    assemble_word(f0, reg as u16, f2, e.0, e.1)
}

fn encode_branch(cond: u8, disp: u8) -> (r: u16)
    requires
        cond <= 15,
    ensures
        r == spec_encode_branch(cond, disp),
{
    assemble_word(
        6,
        (cond / 2) as u16,
        ((cond % 2) * 4 + disp / 64) as u16,
        (disp / 8 % 8) as u16,
        (disp % 8) as u16,
    )
}

/// The decoder loses nothing: re-encoding any decoded instruction yields the
/// opcode word it was decoded from, so decode and re-encode preserve the
/// (instruction, operands, size) triple for every supported opcode.
#[verifier::rlimit(100)]
pub proof fn lemma_decode_encode(w: u16)
    ensures
        spec_decode(w) matches Some(i) ==> spec_encode(i) == w,
{
    lemma_fields(w);
    let f0 = field_top(w);
    let f1 = field_1(w);
    let f2 = field_2(w);
    let f3 = field_3(w);
    let f4 = field_4(w);
    if spec_decode(w) is Some {
        if f0 == 6 {
            let cond = (f1 * 2 + f2 / 4) as u8;
            let disp = ((f2 % 4) * 64 + f3 * 8 + f4) as u8;
            assert(cond / 2 == f1 && (cond % 2) * 4 + disp / 64 == f2 && disp / 8 % 8 == f3 && disp
                % 8 == f4) by (nonlinear_arith)
                requires
                    f1 < 8 && f2 < 8 && f3 < 8 && f4 < 8,
                    cond == f1 * 2 + f2 / 4,
                    disp == (f2 % 4) * 64 + f3 * 8 + f4,
            ;
        }
        if f0 == 14 {
            assert((f2 / 4) * 4 + f2 % 4 == f2 && (f3 / 4) * 4 + f3 % 4 == f3) by (nonlinear_arith)
                requires
                    f2 < 8 && f3 < 8,
            ;
        }
    }
}

} // verus!

