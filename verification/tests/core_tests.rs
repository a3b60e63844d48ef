use microcycle::cpu::{StackPointer, CPU};
use microcycle::emulator::Emulator;
use microcycle::operations::{nop_instruction, reset_instruction, Instruction, MicroOp};
use microcycle::shared::{
    BREAK_FLAG_POS, CARRY_FLAG_POS, DECIMAL_FLAG_POS, IRQ_DISABLE_FLAG_POS, UNUSED_BIT_POS,
};
use microcycle::status::StatusRegister;

#[test]
fn status_round_trip_all_bytes() {
    // Packing the decomposition of any byte reproduces it exactly; bit 5
    // passes through this conversion pair unchanged.
    for b in 0..=255u8 {
        let f = StatusRegister::from_byte(b);
        assert_eq!(f.to_byte(), b);
    }
}

#[test]
fn status_from_byte_fields() {
    let f = StatusRegister::from_byte(0b1010_0101);
    assert!(f.carry);
    assert!(!f.zero);
    assert!(f.irq_disable);
    assert!(!f.decimal);
    assert!(!f.brk);
    assert!(f.unused);
    assert!(!f.overflow);
    assert!(f.negative);
}

#[test]
fn status_to_byte_packs() {
    let f = StatusRegister {
        carry: true,
        zero: false,
        irq_disable: true,
        decimal: false,
        brk: false,
        unused: true,
        overflow: false,
        negative: true,
    };
    assert_eq!(f.to_byte(), 0b1010_0101);
}

#[test]
fn status_view_agrees_with_byte() {
    let mut cpu = CPU::new();
    cpu.flags = 0b0110_0001;
    let f = cpu.status();
    assert!(f.carry);
    assert!(f.unused);
    assert!(f.overflow);
    assert!(!f.negative);
    assert_eq!(f.to_byte(), 0b0110_0001);
}

#[test]
fn stack_to_word_all_values() {
    // For every pointer value the stack address is 0x0100 + sp.
    for sp in 0..=255u8 {
        let p = StackPointer(sp);
        assert_eq!(p.to_word(), 0x0100 + sp as u16);
    }
}

#[test]
fn stack_decrement_wraps_at_zero() {
    let mut p = StackPointer(0);
    p.decrement();
    assert_eq!(p.0, 255);
    // The address wraps within the stack page: 0x01FF, never 0x0200.
    assert_eq!(p.to_word(), 0x01FF);
}

#[test]
fn stack_increment_wraps_at_ff() {
    let mut p = StackPointer(0xFF);
    p.increment();
    assert_eq!(p.0, 0);
    assert_eq!(p.to_word(), 0x0100);
}

#[test]
fn stack_decrement_and_increment_are_inverse() {
    let mut p = StackPointer(0x80);
    p.decrement();
    assert_eq!(p.0, 0x7F);
    p.increment();
    assert_eq!(p.0, 0x80);
}

#[test]
fn cpu_new_defaults() {
    let cpu = CPU::new();
    assert_eq!(cpu.pc, 0);
    assert_eq!(cpu.sp.0, 0);
    assert_eq!(cpu.a, 0);
    assert_eq!(cpu.x, 0);
    assert_eq!(cpu.y, 0);
    assert_eq!(
        cpu.flags,
        (1 << IRQ_DISABLE_FLAG_POS) | (1 << UNUSED_BIT_POS)
    );
    assert_eq!(cpu.ir, 0);
    assert_eq!(cpu.tmp8, 0);
    assert_eq!(cpu.tmp16, 0);
    assert_eq!(cpu.eff, 0);
    assert!(!cpu.crossed);
    assert_eq!(cpu.instr.micro, vec![MicroOp::Done]);
    assert_eq!(cpu.step, 0);
    assert!(cpu.ready);
}

#[test]
fn set_flag_bit_sets_only_target() {
    let mut cpu = CPU::new();
    cpu.flags = 0b0010_0100;
    cpu.set_flag_bit(CARRY_FLAG_POS);
    assert_eq!(cpu.flags, 0b0010_0101);
    cpu.set_flag_bit(BREAK_FLAG_POS);
    assert_eq!(cpu.flags, 0b0011_0101);
}

#[test]
fn clear_flag_bit_clears_only_target() {
    let mut cpu = CPU::new();
    cpu.flags = 0xFF;
    cpu.clear_flag_bit(DECIMAL_FLAG_POS);
    assert_eq!(cpu.flags, 0xF7);
    cpu.clear_flag_bit(CARRY_FLAG_POS);
    assert_eq!(cpu.flags, 0xF6);
}

#[test]
fn bus_write_then_read() {
    let mut emul = Emulator::new();
    assert_eq!(emul.bus.read(0x1234), 0);
    emul.bus.write(0x1234, 0xAB);
    assert_eq!(emul.bus.read(0x1234), 0xAB);
    // Neighbouring bytes keep their value.
    assert_eq!(emul.bus.read(0x1233), 0);
    assert_eq!(emul.bus.read(0x1235), 0);
    emul.bus.write(0xFFFF, 0x01);
    assert_eq!(emul.bus.read(0xFFFF), 0x01);
}

#[test]
fn pc_wraps_on_fetch_at_ffff() {
    // Incrementing the program counter at 0xFFFF yields 0x0000.
    let mut emul = Emulator::new();
    emul.cpu.pc = 0xFFFF;
    emul.bus.write(0xFFFF, 0x07);
    emul.tick();
    assert_eq!(emul.cpu.pc, 0x0000);
    assert_eq!(emul.cpu.ir, 0x07);
    assert!(!emul.cpu.ready);
}

#[test]
fn reset_loads_vector_and_settles_registers() {
    let mut emul = Emulator::new();
    emul.bus.write(0xFFFC, 0x00);
    emul.bus.write(0xFFFD, 0x80);
    emul.reset_cpu();
    assert!(emul.cpu.ready);
    // Three decrements from the forced zero baseline.
    assert_eq!(emul.cpu.sp.0, 0xFD);
    // The final RESET cycle prefetches the opcode at the vector target and
    // steps the program counter past it.
    assert_eq!(emul.cpu.pc, 0x8001);
    assert_eq!(emul.cpu.ir, 0x00);
    assert_eq!(emul.cpu.tmp8, 0x00);
    let f = emul.cpu.status();
    assert!(f.irq_disable);
    assert!(f.unused);
    assert!(!f.decimal);
}

#[test]
fn reset_scrubs_decimal_and_keeps_other_flags() {
    let mut emul = Emulator::new();
    emul.cpu.flags = 0b0000_1001; // decimal and carry, nothing else
    emul.bus.write(0xFFFC, 0x34);
    emul.bus.write(0xFFFD, 0x12);
    emul.reset_cpu();
    // irq_disable and bit 5 forced on, decimal forced off, carry kept.
    assert_eq!(emul.cpu.flags, 0b0010_0101);
    assert_eq!(emul.cpu.pc, 0x1235);
}

#[test]
fn reset_is_deterministic() {
    let run = || {
        let mut emul = Emulator::new();
        emul.bus.write(0xFFFC, 0xCD);
        emul.bus.write(0xFFFD, 0xAB);
        emul.reset_cpu();
        (emul.cpu.pc, emul.cpu.sp.0, emul.cpu.ir, emul.cpu.flags)
    };
    assert_eq!(run(), run());
}

#[test]
fn single_step_instruction_returns_to_fetch() {
    let mut emul = Emulator::new();
    emul.install(
        0x42,
        Instruction { name: "TST", micro: vec![MicroOp::Done] },
    );
    emul.cpu.pc = 0x0300;
    emul.bus.write(0x0300, 0x42);
    emul.tick(); // fetch
    assert!(!emul.cpu.ready);
    assert_eq!(emul.cpu.step, 0);
    emul.tick(); // the one micro-operation completes the instruction
    assert!(emul.cpu.ready);
    emul.tick(); // next fetch resets the step index
    assert_eq!(emul.cpu.step, 0);
    assert!(!emul.cpu.ready);
}

#[test]
fn jump_directive_reenters_earlier_step() {
    let mut emul = Emulator::new();
    emul.install(
        0x43,
        Instruction {
            name: "SPIN",
            micro: vec![MicroOp::DummyRead, MicroOp::DummyRead, MicroOp::JumpTo(0)],
        },
    );
    emul.cpu.pc = 0x0400;
    emul.bus.write(0x0400, 0x43);
    emul.tick(); // fetch
    assert_eq!(emul.cpu.step, 0);
    emul.tick();
    assert_eq!(emul.cpu.step, 1);
    emul.tick();
    assert_eq!(emul.cpu.step, 2);
    emul.tick(); // step 2 reports Jump(0): back to step 0, still executing
    assert_eq!(emul.cpu.step, 0);
    assert!(!emul.cpu.ready);
    emul.tick(); // step 0 runs again and advances
    assert_eq!(emul.cpu.step, 1);
    assert!(!emul.cpu.ready);
}

#[test]
fn end_to_end_nop_scenario() {
    let mut emul = Emulator::new();
    emul.install(
        0xEA,
        Instruction { name: "NOP", micro: vec![MicroOp::Done] },
    );
    emul.cpu.pc = 0x0200;
    emul.bus.write(0x0200, 0xEA);
    emul.tick();
    assert_eq!(emul.cpu.ir, 0xEA);
    assert!(!emul.cpu.ready);
    assert_eq!(emul.cpu.step, 0);
    emul.tick();
    assert!(emul.cpu.ready);
}

#[test]
fn install_replaces_only_its_slot() {
    let mut emul = Emulator::new();
    emul.install(
        0x05,
        Instruction { name: "JAM", micro: vec![MicroOp::JumpTo(0)] },
    );
    assert_eq!(emul.instr_table[0x05].name, "JAM");
    assert_eq!(emul.instr_table[0x05].micro, vec![MicroOp::JumpTo(0)]);
    assert_eq!(emul.instr_table[0x04].name, "NOP");
    assert_eq!(emul.instr_table[0x04].micro, vec![MicroOp::Done]);
    assert_eq!(emul.instr_table[0x06].micro, vec![MicroOp::Done]);
}

#[test]
fn microcode_sequences_have_documented_shape() {
    let nop = nop_instruction();
    assert_eq!(nop.name, "NOP");
    assert_eq!(nop.micro, vec![MicroOp::Done]);
    let reset = reset_instruction();
    assert_eq!(reset.name, "RESET");
    assert_eq!(
        reset.micro,
        vec![
            MicroOp::ResetBegin,
            MicroOp::DummyRead,
            MicroOp::DummyRead,
            MicroOp::StackProbe,
            MicroOp::StackProbe,
            MicroOp::StackProbe,
            MicroOp::VectorLow,
            MicroOp::VectorHigh,
            MicroOp::OpcodeFetch,
        ]
    );
}

#[test]
fn empty_instruction_leaves_machine_unchanged() {
    // An empty micro-operation sequence exercises the out-of-range guard:
    // the execute state has nothing to run and the tick does nothing.
    let mut emul = Emulator::new();
    emul.install(0x10, Instruction { name: "VOID", micro: vec![] });
    emul.cpu.pc = 0x0500;
    emul.bus.write(0x0500, 0x10);
    emul.tick(); // fetch selects the empty instruction
    assert!(!emul.cpu.ready);
    assert_eq!(emul.cpu.step, 0);
    let pc = emul.cpu.pc;
    emul.tick();
    assert!(!emul.cpu.ready);
    assert_eq!(emul.cpu.step, 0);
    assert_eq!(emul.cpu.pc, pc);
}

#[test]
fn fetch_advances_pc_and_loads_row() {
    let mut emul = Emulator::new();
    emul.cpu.pc = 0x0700;
    emul.bus.write(0x0700, 0x21);
    emul.install(
        0x21,
        Instruction {
            name: "TWO",
            micro: vec![MicroOp::DummyRead, MicroOp::Done],
        },
    );
    emul.tick();
    assert_eq!(emul.cpu.pc, 0x0701);
    assert_eq!(emul.cpu.ir, 0x21);
    assert_eq!(emul.cpu.instr.name, "TWO");
    assert_eq!(
        emul.cpu.instr.micro,
        vec![MicroOp::DummyRead, MicroOp::Done]
    );
    assert_eq!(emul.cpu.step, 0);
    emul.tick();
    assert_eq!(emul.cpu.step, 1);
    assert!(!emul.cpu.ready);
    emul.tick();
    assert!(emul.cpu.ready);
}
