use m68k_core::instr::{decode_word, encode_word, EA, Instr, ShiftKind};
use m68k_core::types::Size;

fn roundtrip(w: u16) -> Instr {
    let i = decode_word(w).expect("supported opcode");
    assert_eq!(encode_word(i), w, "re-encode of {w:#06x}");
    i
}

#[test]
fn decode_add_immediate_byte() {
    let i = roundtrip(0xD03C);
    assert_eq!(i, Instr::Add { sz: Size::Byte, reg: 0, ea: EA::Imm, to_ea: false });
}

#[test]
fn decode_move_word_between_data_registers() {
    let i = roundtrip(0x3401);
    assert_eq!(
        i,
        Instr::Move { sz: Size::Word, src: EA::DataReg(1), dst: EA::DataReg(2) }
    );
}

#[test]
fn decode_move_word_to_indirect() {
    let i = roundtrip(0x3081);
    assert_eq!(i, Instr::Move { sz: Size::Word, src: EA::DataReg(1), dst: EA::Ind(0) });
}

#[test]
fn decode_control_and_system_opcodes() {
    assert_eq!(roundtrip(0x4E71), Instr::Nop);
    assert_eq!(roundtrip(0x4E75), Instr::Rts);
    assert_eq!(roundtrip(0x4E73), Instr::Rte);
    assert_eq!(roundtrip(0x4ED0), Instr::Jmp { ea: EA::Ind(0) });
    assert_eq!(roundtrip(0x4E90), Instr::Jsr { ea: EA::Ind(0) });
    assert_eq!(roundtrip(0x46C0), Instr::MoveToSr { ea: EA::DataReg(0) });
    assert_eq!(roundtrip(0x40C0), Instr::MoveFromSr { ea: EA::DataReg(0) });
    assert_eq!(roundtrip(0x44C0), Instr::MoveToCcr { ea: EA::DataReg(0) });
}

#[test]
fn decode_branches() {
    assert_eq!(roundtrip(0x6004), Instr::Bra { disp: 4 });
    assert_eq!(roundtrip(0x6106), Instr::Bsr { disp: 6 });
    assert_eq!(roundtrip(0x6702), Instr::Bcc { cond: 7, disp: 2 });
    // A zero displacement selects the unsupported word form.
    assert_eq!(decode_word(0x6000), None);
}

#[test]
fn decode_shift_roundtrip() {
    let i = roundtrip(0xE308);
    assert_eq!(
        i,
        Instr::Shift {
            kind: ShiftKind::Logical,
            left: true,
            sz: Size::Byte,
            count_from_reg: false,
            count: 1,
            reg: 0
        }
    );
    // An immediate count field of zero means eight bits.
    let i = roundtrip(0xE108);
    assert_eq!(
        i,
        Instr::Shift {
            kind: ShiftKind::Logical,
            left: true,
            sz: Size::Byte,
            count_from_reg: false,
            count: 8,
            reg: 0
        }
    );
}

#[test]
fn decode_arithmetic_and_logic_roundtrip() {
    assert_eq!(
        roundtrip(0xB001),
        Instr::Cmp { sz: Size::Byte, reg: 0, ea: EA::DataReg(1) }
    );
    assert_eq!(
        roundtrip(0x903C),
        Instr::Sub { sz: Size::Byte, reg: 0, ea: EA::Imm, to_ea: false }
    );
    assert_eq!(
        roundtrip(0xC041),
        Instr::And { sz: Size::Word, reg: 0, ea: EA::DataReg(1), to_ea: false }
    );
    assert_eq!(
        roundtrip(0x8041),
        Instr::Or { sz: Size::Word, reg: 0, ea: EA::DataReg(1), to_ea: false }
    );
    assert_eq!(
        roundtrip(0xB141),
        Instr::Eor { sz: Size::Word, reg: 0, ea: EA::DataReg(1) }
    );
    assert_eq!(roundtrip(0x4600), Instr::Not { sz: Size::Byte, ea: EA::DataReg(0) });
    assert_eq!(
        roundtrip(0xD101),
        Instr::AddX { sz: Size::Byte, rx: 0, ry: 1 }
    );
    assert_eq!(
        roundtrip(0x9101),
        Instr::SubX { sz: Size::Byte, rx: 0, ry: 1 }
    );
}

#[test]
fn unrecognized_patterns_decode_to_none() {
    assert_eq!(decode_word(0xFFFF), None);
    assert_eq!(decode_word(0x4AFC), None);
    assert_eq!(decode_word(0x0000), None);
    // Byte-sized move out of an address register is rejected.
    assert_eq!(decode_word(0x1009), None);
    // Move into an address register is not data-alterable here.
    assert_eq!(decode_word(0x3040), None);
}

#[test]
fn roundtrip_holds_across_a_full_opcode_sweep() {
    let mut supported = 0u32;
    for w in 0..=0xFFFFu16 {
        if let Some(i) = decode_word(w) {
            assert_eq!(encode_word(i), w, "opcode {w:#06x}");
            supported += 1;
        }
    }
    assert!(supported > 1000, "decoder covers a real opcode set");
}
