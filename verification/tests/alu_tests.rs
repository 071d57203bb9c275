use m68k_core::alu::{alu_add, alu_not, alu_shift, alu_sub};
use m68k_core::instr::ShiftKind;
use m68k_core::types::Size;

#[test]
fn addition_reports_carry_and_overflow() {
    let r = alu_add(0x7F, 0x01, false, Size::Byte);
    assert_eq!(r.value, 0x80);
    assert!(!r.carry);
    assert!(r.overflow);
    let r = alu_add(0xFFFF, 0x0001, false, Size::Word);
    assert_eq!(r.value, 0);
    assert!(r.carry);
    assert!(!r.overflow);
    let r = alu_add(0xFFFF_FFFF, 2, true, Size::Long);
    assert_eq!(r.value, 2);
    assert!(r.carry);
}

#[test]
fn subtraction_reports_borrow() {
    let r = alu_sub(0x00, 0x01, false, Size::Byte);
    assert_eq!(r.value, 0xFF);
    assert!(r.carry);
    let r = alu_sub(0x80, 0x01, false, Size::Byte);
    assert_eq!(r.value, 0x7F);
    assert!(!r.carry);
    assert!(r.overflow);
    let r = alu_sub(5, 5, false, Size::Long);
    assert_eq!(r.value, 0);
    assert!(!r.carry);
}

#[test]
fn complement_flips_only_the_sized_bits() {
    assert_eq!(alu_not(0x0F, Size::Byte), 0xF0);
    assert_eq!(alu_not(0x1234_000F, Size::Byte), 0xF0);
    assert_eq!(alu_not(0, Size::Long), 0xFFFF_FFFF);
}

#[test]
fn rotate_through_extend_uses_the_flag() {
    // ROXL.B by one with X set: bit comes in from X, sign goes out to carry.
    let st = alu_shift(ShiftKind::RotateX, true, Size::Byte, 0x80, true, 1);
    assert_eq!(st.value, 0x01);
    assert!(st.carry);
    assert!(st.x);
    // With a zero count the carry shows the extend flag unchanged.
    let st = alu_shift(ShiftKind::RotateX, true, Size::Byte, 0x80, true, 0);
    assert_eq!(st.value, 0x80);
    assert!(st.carry);
    assert!(st.x);
}

#[test]
fn plain_rotate_wraps_and_leaves_extend_alone() {
    let st = alu_shift(ShiftKind::Rotate, true, Size::Byte, 0x81, false, 1);
    assert_eq!(st.value, 0x03);
    assert!(st.carry);
    assert!(!st.x);
    let st = alu_shift(ShiftKind::Rotate, false, Size::Byte, 0x81, false, 1);
    assert_eq!(st.value, 0xC0);
    assert!(st.carry);
}

#[test]
fn arithmetic_right_shift_keeps_the_sign() {
    let st = alu_shift(ShiftKind::Arith, false, Size::Byte, 0x81, false, 1);
    assert_eq!(st.value, 0xC0);
    assert!(st.carry);
    assert!(st.x);
    let st = alu_shift(ShiftKind::Arith, false, Size::Byte, 0x40, false, 2);
    assert_eq!(st.value, 0x10);
    assert!(!st.carry);
}

#[test]
fn arithmetic_left_shift_tracks_sign_changes() {
    let st = alu_shift(ShiftKind::Arith, true, Size::Byte, 0x40, false, 1);
    assert_eq!(st.value, 0x80);
    assert!(st.overflow);
    let st = alu_shift(ShiftKind::Arith, true, Size::Byte, 0x01, false, 1);
    assert_eq!(st.value, 0x02);
    assert!(!st.overflow);
}
