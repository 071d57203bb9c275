use m68k_core::bus::Bus;
use m68k_core::cpu::CPU;
use m68k_core::types::{CoreError, Size};

/// A processor with a 1 KiB ROM holding the given program words at 0x200
/// (where execution starts) and RAM in the top 64 KiB; the supervisor stack
/// starts in RAM.
fn cpu_with_program(words: &[u16]) -> CPU {
    cpu_with_rom(words, &[])
}

/// Like `cpu_with_program`, with extra (offset, long) vector-table entries
/// patched into the ROM image.
fn cpu_with_rom(words: &[u16], vectors: &[(usize, u32)]) -> CPU {
    let mut rom = vec![0u8; 0x400];
    let mut at = 0x200;
    for w in words {
        rom[at] = (w >> 8) as u8;
        rom[at + 1] = (w & 0xFF) as u8;
        at += 2;
    }
    for &(off, v) in vectors {
        rom[off] = (v >> 24) as u8;
        rom[off + 1] = (v >> 16) as u8;
        rom[off + 2] = (v >> 8) as u8;
        rom[off + 3] = v as u8;
    }
    let bus = Bus::new(rom, 0, 0x3FF, 0xFF_0000, 0xFF_FFFF).expect("valid map");
    let mut cpu = CPU::with_bus(bus);
    // The core powers up with a zeroed status word; these tests drive it in
    // supervisor mode with the stacks placed in RAM.
    cpu.set_supervisor_state(true);
    cpu.pc = 0x200;
    cpu.regs.ssp = 0xFF_0100;
    cpu.regs.usp = 0xFF_0200;
    cpu
}

#[test]
fn add_byte_ff_plus_one_wraps_with_carry_and_zero() {
    // ADD.B #1,D0 with D0 = 0xFF.
    let mut cpu = cpu_with_program(&[0xD03C, 0x0001]);
    cpu.regs.d[0] = 0xFF;
    let cycles = cpu.step().expect("no fatal error");
    assert_eq!(cpu.regs.d[0] & 0xFF, 0x00);
    assert!(cpu.sr.zero);
    assert!(cpu.sr.carry);
    assert!(cpu.sr.extend);
    assert!(!cpu.sr.overflow);
    assert!(!cpu.sr.negative);
    // Immediate byte source costs 4 on top of the base 4.
    assert_eq!(cycles, 8);
    assert_eq!(cpu.pc, 0x204);
}

#[test]
fn add_byte_upper_register_bits_survive() {
    let mut cpu = cpu_with_program(&[0xD03C, 0x0001]);
    cpu.regs.d[0] = 0x1234_56FF;
    cpu.step().expect("no fatal error");
    assert_eq!(cpu.regs.d[0], 0x1234_5600);
}

#[test]
fn privilege_switch_changes_only_the_live_stack_slot() {
    let mut cpu = cpu_with_program(&[]);
    assert!(cpu.sr.supervisor);
    cpu.regs.write_a(7, true, 0x1111_1111);
    // Drop to user mode and write the stack pointer there.
    cpu.set_supervisor_state(false);
    cpu.regs.write_a(7, false, 0x2222_2222);
    // The user-mode write is invisible from supervisor mode.
    cpu.set_supervisor_state(true);
    assert_eq!(cpu.regs.read_a(7, true), 0x1111_1111);
    // And the supervisor value was never copied into the user slot.
    cpu.set_supervisor_state(false);
    assert_eq!(cpu.regs.read_a(7, false), 0x2222_2222);
    // Other registers are untouched by the switch.
    assert_eq!(cpu.regs.read_a(3, false), 0);
    assert_eq!(cpu.regs.read_d(3), 0);
}

#[test]
fn interrupt_above_mask_is_accepted_and_vectored() {
    // Vector slot for priority 4 sits at (24 + 4) * 4 = 0x70.
    let mut cpu = cpu_with_rom(&[0x4E71], &[(0x70, 0x0000_0300)]);
    cpu.sr.int_mask = 3;
    let old_sr_word = cpu.sr.to_word();
    cpu.request_interrupt(4);
    let cycles = cpu.step().expect("no fatal error");
    // The instruction committed, then the interrupt vectored.
    assert_eq!(cycles, 4 + 44);
    assert_eq!(cpu.pc, 0x300);
    assert!(cpu.sr.supervisor);
    assert_eq!(cpu.sr.int_mask, 4);
    assert_eq!(cpu.regs.ssp, 0xFF_0100 - 6);
    // Status word and return address were pushed onto the supervisor stack.
    assert_eq!(cpu.bus.read(0xFF_00FA, Size::Word), Ok(old_sr_word as u32));
    assert_eq!(cpu.bus.read(0xFF_00FC, Size::Long), Ok(0x202));
    assert_eq!(cpu.pending, 0);
}

#[test]
fn interrupt_at_or_below_mask_is_ignored() {
    let mut cpu = cpu_with_rom(&[0x4E71], &[(0x68, 0x0000_0300)]);
    cpu.sr.int_mask = 3;
    cpu.request_interrupt(2);
    let cycles = cpu.step().expect("no fatal error");
    assert_eq!(cycles, 4);
    assert_eq!(cpu.pc, 0x202);
    assert_eq!(cpu.sr.int_mask, 3);
    assert_eq!(cpu.pending, 2);
    assert_eq!(cpu.regs.ssp, 0xFF_0100);
}

#[test]
fn rte_returns_from_an_interrupt() {
    // NOP at 0x200; the handler at 0x300 is a single RTE.
    let mut rom = vec![0u8; 0x400];
    rom[0x200] = 0x4E;
    rom[0x201] = 0x71;
    rom[0x300] = 0x4E;
    rom[0x301] = 0x73;
    rom[0x70] = 0x00;
    rom[0x71] = 0x00;
    rom[0x72] = 0x03;
    rom[0x73] = 0x00;
    let bus = Bus::new(rom, 0, 0x3FF, 0xFF_0000, 0xFF_FFFF).expect("valid map");
    let mut cpu = CPU::with_bus(bus);
    cpu.set_supervisor_state(true);
    cpu.pc = 0x200;
    cpu.regs.ssp = 0xFF_0100;
    cpu.sr.int_mask = 3;
    cpu.request_interrupt(4);
    cpu.step().expect("no fatal error");
    assert_eq!(cpu.pc, 0x300);
    let cycles = cpu.step().expect("no fatal error");
    assert_eq!(cycles, 20);
    // Back after the NOP, with the old mask restored.
    assert_eq!(cpu.pc, 0x202);
    assert_eq!(cpu.sr.int_mask, 3);
    assert_eq!(cpu.regs.ssp, 0xFF_0100);
}

#[test]
fn illegal_opcode_vectors_through_slot_four() {
    let mut cpu = cpu_with_rom(&[0xFFFF], &[(0x10, 0x0000_0300)]);
    let cycles = cpu.step().expect("no fatal error");
    assert_eq!(cycles, 44);
    assert_eq!(cpu.pc, 0x300);
    assert!(cpu.sr.supervisor);
}

#[test]
fn privilege_violation_vectors_through_slot_eight() {
    // MOVE D0,SR attempted in user mode.
    let mut cpu = cpu_with_rom(&[0x46C0], &[(0x20, 0x0000_0300)]);
    cpu.set_supervisor_state(false);
    let cycles = cpu.step().expect("no fatal error");
    assert_eq!(cycles, 44);
    assert_eq!(cpu.pc, 0x300);
    assert!(cpu.sr.supervisor);
}

#[test]
fn write_protect_vectors_through_its_own_slot() {
    // MOVE.W D1,(A0) with A0 pointing into ROM.
    let mut cpu = cpu_with_rom(&[0x3081], &[(0x30, 0x0000_0300)]);
    cpu.regs.write_a(0, true, 0x0000_0040);
    let cycles = cpu.step().expect("no fatal error");
    assert_eq!(cycles, 44);
    assert_eq!(cpu.pc, 0x300);
}

#[test]
fn unset_vector_entry_is_fatal() {
    let mut cpu = cpu_with_program(&[0xFFFF]);
    assert_eq!(cpu.step(), Err(CoreError::InvalidVector));
}

#[test]
fn fault_during_vectoring_is_a_double_fault() {
    // Illegal opcode with a valid vector but the supervisor stack in ROM.
    let mut cpu = cpu_with_rom(&[0xFFFF], &[(0x10, 0x0000_0300)]);
    cpu.regs.ssp = 0x0000_0100;
    assert_eq!(cpu.step(), Err(CoreError::DoubleFault));
}

#[test]
fn move_word_to_memory_and_flags() {
    let mut cpu = cpu_with_program(&[0x3081]);
    cpu.regs.d[1] = 0xBEEF;
    cpu.regs.write_a(0, true, 0xFF_0020);
    let cycles = cpu.step().expect("no fatal error");
    assert_eq!(cpu.bus.read(0xFF_0020, Size::Word), Ok(0xBEEF));
    assert!(cpu.sr.negative);
    assert!(!cpu.sr.zero);
    assert!(!cpu.sr.overflow);
    assert!(!cpu.sr.carry);
    assert_eq!(cycles, 4 + 4);
}

#[test]
fn bsr_pushes_return_address_and_rts_pops_it() {
    // BSR +6 at 0x200 (target 0x208), RTS at 0x208.
    let mut rom = vec![0u8; 0x400];
    rom[0x200] = 0x61;
    rom[0x201] = 0x06;
    rom[0x208] = 0x4E;
    rom[0x209] = 0x75;
    let bus = Bus::new(rom, 0, 0x3FF, 0xFF_0000, 0xFF_FFFF).expect("valid map");
    let mut cpu = CPU::with_bus(bus);
    cpu.set_supervisor_state(true);
    cpu.pc = 0x200;
    cpu.regs.ssp = 0xFF_0100;
    let c1 = cpu.step().expect("no fatal error");
    assert_eq!(c1, 18);
    assert_eq!(cpu.pc, 0x208);
    assert_eq!(cpu.regs.ssp, 0xFF_00FC);
    assert_eq!(cpu.bus.read(0xFF_00FC, Size::Long), Ok(0x202));
    let c2 = cpu.step().expect("no fatal error");
    assert_eq!(c2, 16);
    assert_eq!(cpu.pc, 0x202);
    assert_eq!(cpu.regs.ssp, 0xFF_0100);
}

#[test]
fn conditional_branch_follows_the_zero_flag() {
    // BEQ +2: taken only when the zero flag is set.
    let mut cpu = cpu_with_program(&[0x6702]);
    cpu.set_zero(true);
    cpu.step().expect("no fatal error");
    assert_eq!(cpu.pc, 0x204);
    let mut cpu = cpu_with_program(&[0x6702]);
    cpu.set_zero(false);
    cpu.step().expect("no fatal error");
    assert_eq!(cpu.pc, 0x202);
}

#[test]
fn logical_shift_left_out_of_the_top_bit() {
    // LSL.B #1,D0 with D0 = 0x80: result 0, carry and extend set.
    let mut cpu = cpu_with_program(&[0xE308]);
    cpu.regs.d[0] = 0x80;
    cpu.step().expect("no fatal error");
    assert_eq!(cpu.regs.d[0] & 0xFF, 0);
    assert!(cpu.sr.carry);
    assert!(cpu.sr.extend);
    assert!(cpu.sr.zero);
}

#[test]
fn flag_setters_touch_only_their_flag() {
    let mut cpu = cpu_with_program(&[]);
    cpu.set_carry(true);
    assert!(cpu.sr.carry && !cpu.sr.zero && !cpu.sr.negative);
    cpu.set_zero(true);
    cpu.set_sign(true);
    cpu.set_overflow(true);
    cpu.set_extend(true);
    assert!(cpu.sr.carry && cpu.sr.zero && cpu.sr.negative && cpu.sr.overflow && cpu.sr.extend);
    cpu.set_supervisor_trace(true);
    assert!(cpu.sr.trace);
    // set_flags loads the whole condition-code byte at once.
    cpu.set_flags(0b0_0101);
    assert!(cpu.sr.carry && cpu.sr.zero && !cpu.sr.negative && !cpu.sr.overflow && !cpu.sr.extend);
    assert!(cpu.sr.trace && cpu.sr.supervisor);
}

#[test]
fn addressing_modes_resolve_and_update_registers() {
    // MOVE.B (A0)+,D0
    let mut cpu = cpu_with_program(&[0x1018]);
    cpu.regs.write_a(0, true, 0xFF_0040);
    cpu.bus.write(0xFF_0040, Size::Byte, 0x5A).unwrap();
    cpu.step().expect("no fatal error");
    assert_eq!(cpu.regs.d[0] & 0xFF, 0x5A);
    assert_eq!(cpu.regs.read_a(0, true), 0xFF_0041);

    // MOVE.W -(A0),D0
    let mut cpu = cpu_with_program(&[0x3020]);
    cpu.regs.write_a(0, true, 0xFF_0042);
    cpu.bus.write(0xFF_0040, Size::Word, 0x7777).unwrap();
    cpu.step().expect("no fatal error");
    assert_eq!(cpu.regs.d[0] & 0xFFFF, 0x7777);
    assert_eq!(cpu.regs.read_a(0, true), 0xFF_0040);

    // MOVE.W 4(A0),D1
    let mut cpu = cpu_with_program(&[0x3228, 0x0004]);
    cpu.regs.write_a(0, true, 0xFF_0040);
    cpu.bus.write(0xFF_0044, Size::Word, 0x1234).unwrap();
    cpu.step().expect("no fatal error");
    assert_eq!(cpu.regs.d[1] & 0xFFFF, 0x1234);
    assert_eq!(cpu.pc, 0x204);

    // MOVE.W D0,(0xFF0020).L
    let mut cpu = cpu_with_program(&[0x33C0, 0x00FF, 0x0020]);
    cpu.regs.d[0] = 0x4321;
    cpu.step().expect("no fatal error");
    assert_eq!(cpu.bus.read(0xFF_0020, Size::Word), Ok(0x4321));
    assert_eq!(cpu.pc, 0x206);

    // MOVE.W 0x100(PC),D0 reads ROM relative to the extension word.
    let mut cpu = cpu_with_rom(&[0x303A, 0x0100], &[(0x302, 0xABCD_0000)]);
    cpu.step().expect("no fatal error");
    assert_eq!(cpu.regs.d[0] & 0xFFFF, 0xABCD);
}

#[test]
fn addx_adds_extend_and_only_clears_zero() {
    // ADDX.B D1,D0 with both registers zero and X set: result 1, zero cleared.
    let mut cpu = cpu_with_program(&[0xD101]);
    cpu.set_extend(true);
    cpu.set_zero(true);
    cpu.step().expect("no fatal error");
    assert_eq!(cpu.regs.d[0] & 0xFF, 1);
    assert!(!cpu.sr.zero);
    assert!(!cpu.sr.extend);
    // With X clear and a zero result, the zero flag is left as it was.
    let mut cpu = cpu_with_program(&[0xD101]);
    cpu.set_zero(true);
    cpu.step().expect("no fatal error");
    assert_eq!(cpu.regs.d[0] & 0xFF, 0);
    assert!(cpu.sr.zero);
    let mut cpu = cpu_with_program(&[0xD101]);
    cpu.set_zero(false);
    cpu.step().expect("no fatal error");
    assert!(!cpu.sr.zero);
}

#[test]
fn a_countdown_loop_runs_to_completion() {
    // SUB.B #1,D0 at 0x200, BNE back to 0x200 at 0x204.
    let mut cpu = cpu_with_program(&[0x903C, 0x0001, 0x66FA]);
    cpu.regs.d[0] = 5;
    let mut total: u64 = 0;
    let mut steps = 0;
    while !(cpu.pc == 0x206 && cpu.sr.zero) {
        total += cpu.step().expect("no fatal error");
        steps += 1;
        assert!(steps < 100, "loop must terminate");
    }
    assert_eq!(cpu.regs.d[0], 0);
    assert_eq!(steps, 10);
    // Five subtracts at 8 cycles each, five branches at 10.
    assert_eq!(total, 5 * 8 + 5 * 10);
}
