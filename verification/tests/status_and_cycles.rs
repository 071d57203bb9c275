use m68k_core::cycles::cycles_of;
use m68k_core::instr::{EA, Instr, ShiftKind};
use m68k_core::status::Status;
use m68k_core::types::{Fault, Size};

#[test]
fn status_word_packs_and_unpacks() {
    let st = Status {
        trace: true,
        supervisor: true,
        int_mask: 5,
        extend: false,
        negative: true,
        zero: false,
        overflow: true,
        carry: true,
    };
    let w = st.to_word();
    assert_eq!(w, 0x8000 + 0x2000 + 0x0500 + 0x8 + 0x2 + 0x1);
    assert_eq!(Status::from_word(w), st);
    // Undefined bit positions are ignored on the way back in.
    assert_eq!(Status::from_word(w | 0x4020), st);
}

#[test]
fn power_up_status_is_the_zero_word() {
    let st = Status::power_up();
    assert_eq!(st.to_word(), 0);
    assert!(!st.supervisor && !st.trace);
    assert_eq!(st.int_mask, 0);
}

#[test]
fn status_word_write_is_privileged() {
    let mut st = Status::from_word(0x2700);
    let before = st;
    assert_eq!(st.write_word(0x0000, false), Err(Fault::PrivilegeViolation));
    assert_eq!(st, before);
    assert_eq!(st.write_word(0x0715, true), Ok(()));
    assert!(!st.supervisor);
    assert_eq!(st.int_mask, 7);
    assert!(st.extend && st.zero && st.carry && !st.negative && !st.overflow);
}

#[test]
fn condition_code_write_keeps_the_privileged_byte() {
    let mut st = Status::from_word(0x2700);
    st.write_ccr(0xFF);
    assert!(st.supervisor);
    assert_eq!(st.int_mask, 7);
    assert!(st.extend && st.negative && st.zero && st.overflow && st.carry);
}

#[test]
fn timing_table_move_family() {
    let dn = EA::DataReg(0);
    assert_eq!(
        cycles_of(Instr::Move { sz: Size::Word, src: EA::DataReg(1), dst: dn }),
        4
    );
    assert_eq!(
        cycles_of(Instr::Move { sz: Size::Long, src: EA::DataReg(1), dst: EA::Ind(0) }),
        12
    );
    assert_eq!(
        cycles_of(Instr::Move { sz: Size::Word, src: EA::AbsLong, dst: dn }),
        16
    );
}

#[test]
fn timing_table_arithmetic_family() {
    let dn = EA::DataReg(1);
    assert_eq!(
        cycles_of(Instr::Add { sz: Size::Byte, reg: 0, ea: dn, to_ea: false }),
        4
    );
    assert_eq!(
        cycles_of(Instr::Add { sz: Size::Long, reg: 0, ea: dn, to_ea: false }),
        6
    );
    assert_eq!(
        cycles_of(Instr::Add { sz: Size::Word, reg: 0, ea: EA::Ind(2), to_ea: true }),
        12
    );
    assert_eq!(
        cycles_of(Instr::Add { sz: Size::Byte, reg: 0, ea: EA::Imm, to_ea: false }),
        8
    );
    assert_eq!(cycles_of(Instr::AddX { sz: Size::Long, rx: 0, ry: 1 }), 8);
    assert_eq!(
        cycles_of(Instr::Shift {
            kind: ShiftKind::Logical,
            left: true,
            sz: Size::Byte,
            count_from_reg: false,
            count: 3,
            reg: 0
        }),
        12
    );
}

#[test]
fn timing_table_branch_family() {
    assert_eq!(cycles_of(Instr::Bra { disp: 4 }), 10);
    assert_eq!(cycles_of(Instr::Bsr { disp: 4 }), 18);
    assert_eq!(cycles_of(Instr::Bcc { cond: 7, disp: 4 }), 10);
    assert_eq!(cycles_of(Instr::Jmp { ea: EA::Ind(0) }), 8);
    assert_eq!(cycles_of(Instr::Jsr { ea: EA::Ind(0) }), 16);
    assert_eq!(cycles_of(Instr::Rts), 16);
}

#[test]
fn timing_table_system_family() {
    assert_eq!(cycles_of(Instr::Nop), 4);
    assert_eq!(cycles_of(Instr::Rte), 20);
    assert_eq!(cycles_of(Instr::MoveToSr { ea: EA::DataReg(0) }), 12);
    assert_eq!(cycles_of(Instr::MoveFromSr { ea: EA::DataReg(0) }), 6);
    assert_eq!(cycles_of(Instr::MoveToCcr { ea: EA::DataReg(0) }), 12);
}

#[test]
fn console_powers_up_with_a_clean_core() {
    let c = m68k_core::console::Console::new_mega_drive();
    assert_eq!(c.cpu.pc, 0);
    // The status word starts fully cleared, like everything else.
    assert!(!c.cpu.sr.supervisor);
    assert_eq!(c.cpu.sr.int_mask, 0);
    assert_eq!(c.cpu.sr.to_word(), 0);
    assert_eq!(c.cpu.regs.read_d(0), 0);
    assert_eq!(c.cpu.regs.read_a(7, false), 0);
    let loaded = m68k_core::console::Console::with_cartridge(
        vec![0u8; 0x200],
        0,
        0x1FF,
        0xFF_0000,
        0xFF_FFFF,
    );
    assert!(loaded.is_some());
    // An overlapping map is refused.
    let bad = m68k_core::console::Console::with_cartridge(vec![0u8; 0x200], 0, 0x1FF, 0x100, 0x2FF);
    assert!(bad.is_none());
}
