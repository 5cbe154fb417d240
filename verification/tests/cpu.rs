use mos6502::cpu::AddressingMode;
use mos6502::Cpu;
use mos6502::Memory;

fn setup() -> Cpu {
    Cpu::new(Memory::new())
}

const STEP_BUDGET: usize = 10_000;

#[test]
fn test_stack() {
    let mut cpu = setup();
    cpu.stack_push(0x01);
    assert_eq!(cpu.registers.sp, 0xFF);
    assert_eq!(cpu.stack_pop(), 0x01);
    assert_eq!(cpu.registers.sp, 0x00);

    cpu.stack_push_addr(0x0203);
    assert_eq!(cpu.registers.sp, 0xFE);
    assert_eq!(cpu.stack_pop_addr(), 0x0203);
    assert_eq!(cpu.registers.sp, 0x00);
}

#[test]
fn stack_lifo_order() {
    let mut cpu = setup();
    cpu.stack_push(1);
    cpu.stack_push(2);
    cpu.stack_push(3);
    assert_eq!(cpu.stack_pop(), 3);
    assert_eq!(cpu.stack_pop(), 2);
    assert_eq!(cpu.stack_pop(), 1);
    assert_eq!(cpu.registers.sp, 0x00);
}

#[test]
fn addressing_mode_immidiate() {
    let mut cpu = setup();
    cpu.reset();
    cpu.memory.write(0x8000, 0x01);

    assert_eq!(cpu.get_address_from_mode(AddressingMode::Immediate), 0x8000);
    assert_eq!(cpu.registers.pc, 0x8001);
}

#[test]
fn addressing_mode_absolute() {
    let mut cpu = setup();
    cpu.reset();
    cpu.memory.write(0x8000, 0x01);
    cpu.memory.write(0x8001, 0x02);

    assert_eq!(cpu.get_address_from_mode(AddressingMode::Absolute), 0x0201);
    assert_eq!(cpu.registers.pc, 0x8002);
}

#[test]
fn addressing_mode_absolute_x() {
    let mut cpu = setup();
    cpu.reset();
    cpu.memory.write(0x8000, 0x01);
    cpu.memory.write(0x8001, 0x02);
    cpu.registers.x = 0x03;

    assert_eq!(cpu.get_address_from_mode(AddressingMode::AbsoluteX), 0x0204);
    assert_eq!(cpu.registers.pc, 0x8002);
}

#[test]
fn addressing_mode_absolute_y() {
    let mut cpu = setup();
    cpu.reset();
    cpu.memory.write(0x8000, 0x01);
    cpu.memory.write(0x8001, 0x02);
    cpu.registers.y = 0x03;

    assert_eq!(cpu.get_address_from_mode(AddressingMode::AbsoluteY), 0x0204);
    assert_eq!(cpu.registers.pc, 0x8002);
}

#[test]
fn addressing_mode_indirect() {
    let mut cpu = setup();
    cpu.reset();
    cpu.memory.write(0x8000, 0x01);
    cpu.memory.write(0x8001, 0x02);
    cpu.memory.write(0x0201, 0x03);
    cpu.memory.write(0x0202, 0x04);

    assert_eq!(cpu.get_address_from_mode(AddressingMode::Indirect), 0x0403);
    assert_eq!(cpu.registers.pc, 0x8002);
}

#[test]
fn addressing_mode_indirect_x() {
    let mut cpu = setup();
    cpu.reset();
    cpu.memory.write(0x8000, 0x01); // 0x01 + X (0x03) = 0x04
    cpu.memory.write(0x8001, 0x02);
    cpu.memory.write(0x0004, 0x03);
    cpu.memory.write(0x0005, 0x04);
    cpu.registers.x = 0x03;

    assert_eq!(cpu.get_address_from_mode(AddressingMode::IndirectX), 0x0403);
    assert_eq!(cpu.registers.pc, 0x8001);
}

#[test]
fn addressing_mode_indirect_y() {
    let mut cpu = setup();
    cpu.reset();
    cpu.memory.write(0x8000, 0x04);
    cpu.memory.write(0x8001, 0x02);
    cpu.memory.write(0x0004, 0x03);
    cpu.memory.write(0x0005, 0x04);
    cpu.registers.y = 0x02;

    assert_eq!(cpu.get_address_from_mode(AddressingMode::IndirectY), 0x0405);
    assert_eq!(cpu.registers.pc, 0x8001);
}

#[test]
fn addressing_mode_zero_page() {
    let mut cpu = setup();
    cpu.reset();
    cpu.memory.write(0x8000, 0x01);

    assert_eq!(cpu.get_address_from_mode(AddressingMode::ZeroPage), 0x01);
    assert_eq!(cpu.registers.pc, 0x8001);
}

#[test]
fn addressing_mode_zero_page_x() {
    let mut cpu = setup();
    cpu.reset();
    cpu.memory.write(0x8000, 0x01);
    cpu.registers.x = 0x03;

    assert_eq!(cpu.get_address_from_mode(AddressingMode::ZeroPageX), 0x04);
    assert_eq!(cpu.registers.pc, 0x8001);
}

#[test]
fn addressing_mode_zero_page_y() {
    let mut cpu = setup();
    cpu.reset();
    cpu.memory.write(0x8000, 0x01);
    cpu.registers.y = 0x03;

    assert_eq!(cpu.get_address_from_mode(AddressingMode::ZeroPageY), 0x04);
    assert_eq!(cpu.registers.pc, 0x8001);
}

#[test]
fn adc() {
    let mut cpu = setup();
    cpu.reset();
    cpu.registers.a = 0x78;
    cpu.registers.set_flag_carry(true);
    cpu.load(&[0x69, 0x07, 0x00]);

    cpu.execute(STEP_BUDGET);

    assert_eq!(cpu.registers.a, 0x80);
    assert_eq!(cpu.registers.pc, 0x8003);
    assert_eq!(cpu.registers.get_flag_carry(), false);
    assert_eq!(cpu.registers.get_flag_zero(), false);
    assert_eq!(cpu.registers.get_flag_overflow(), true);
    assert_eq!(cpu.registers.get_flag_negative(), true);
}

#[test]
fn and() {
    let mut cpu = setup();
    cpu.reset();
    cpu.registers.a = 0x78;
    cpu.load(&[0x29, 0x07, 0x00]);

    cpu.execute(STEP_BUDGET);

    assert_eq!(cpu.registers.a, 0x00);
    assert_eq!(cpu.registers.pc, 0x8003);
    assert_eq!(cpu.registers.get_flag_zero(), true);
    assert_eq!(cpu.registers.get_flag_negative(), false);
}

#[test]
fn asl() {
    let mut cpu = setup();
    cpu.reset();
    cpu.registers.a = 0x78;
    cpu.load(&[0x0A, 0x00]);

    cpu.execute(STEP_BUDGET);

    assert_eq!(cpu.registers.a, 0xF0);
    assert_eq!(cpu.registers.pc, 0x8002);
    assert_eq!(cpu.registers.get_flag_carry(), false);
    assert_eq!(cpu.registers.get_flag_zero(), false);
    assert_eq!(cpu.registers.get_flag_negative(), true);
}

#[test]
fn bcc() {
    let mut cpu = setup();
    cpu.reset();
    cpu.registers.set_flag_carry(false);
    cpu.load(&[0x90, 0x02, 0x00]);

    cpu.execute(STEP_BUDGET);

    assert_eq!(cpu.registers.pc, 0x8005);
}

#[test]
fn bcs() {
    let mut cpu = setup();
    cpu.reset();
    cpu.registers.set_flag_carry(true);
    cpu.load(&[0xB0, 0x02, 0x00]);

    cpu.execute(STEP_BUDGET);

    assert_eq!(cpu.registers.pc, 0x8005);
}

#[test]
fn beq() {
    let mut cpu = setup();
    cpu.reset();
    cpu.registers.set_flag_zero(true);
    cpu.load(&[0xF0, 0x02, 0x00]);

    cpu.execute(STEP_BUDGET);

    assert_eq!(cpu.registers.pc, 0x8005);
}

#[test]
fn bit() {}

#[test]
fn bmi() {
    let mut cpu = setup();
    cpu.reset();
    cpu.registers.set_flag_negative(true);
    cpu.load(&[0x30, 0x02, 0x00]);

    cpu.execute(STEP_BUDGET);

    assert_eq!(cpu.registers.pc, 0x8005);
}

#[test]
fn bne() {
    let mut cpu = setup();
    cpu.reset();
    cpu.registers.set_flag_zero(false);
    cpu.load(&[0xD0, 0x02, 0x00]);

    cpu.execute(STEP_BUDGET);

    assert_eq!(cpu.registers.pc, 0x8005);
}

#[test]
fn bpl() {
    let mut cpu = setup();
    cpu.reset();
    cpu.registers.set_flag_negative(false);
    cpu.load(&[0x10, 0x02, 0x00]);

    cpu.execute(STEP_BUDGET);

    assert_eq!(cpu.registers.pc, 0x8005);
}

#[test]
fn brk() {}

#[test]
fn bvc() {
    let mut cpu = setup();
    cpu.reset();
    cpu.registers.set_flag_overflow(false);
    cpu.load(&[0x50, 0x02, 0x00]);

    cpu.execute(STEP_BUDGET);

    assert_eq!(cpu.registers.pc, 0x8005);
}

#[test]
fn bvs() {
    let mut cpu = setup();
    cpu.reset();
    cpu.registers.set_flag_overflow(true);
    cpu.load(&[0x70, 0x02, 0x00]);

    cpu.execute(STEP_BUDGET);

    assert_eq!(cpu.registers.pc, 0x8005);
}

#[test]
fn clc() {
    let mut cpu = setup();
    cpu.reset();
    cpu.registers.set_flag_carry(true);
    cpu.load(&[0x18, 0x00]);

    cpu.execute(STEP_BUDGET);

    assert_eq!(cpu.registers.get_flag_carry(), false);
    assert_eq!(cpu.registers.pc, 0x8002);
}

#[test]
fn cld() {
    let mut cpu = setup();
    cpu.reset();
    cpu.registers.set_flag_decimal(true);
    cpu.load(&[0xD8, 0x00]);

    cpu.execute(STEP_BUDGET);

    assert_eq!(cpu.registers.get_flag_decimal(), false);
    assert_eq!(cpu.registers.pc, 0x8002);
}

#[test]
fn cli() {
    let mut cpu = setup();
    cpu.reset();
    cpu.registers.set_flag_interrupt_disable(true);
    cpu.load(&[0x58, 0x00]);

    cpu.execute(STEP_BUDGET);

    assert_eq!(cpu.registers.get_flag_interrupt_disable(), false);
    assert_eq!(cpu.registers.pc, 0x8002);
}

#[test]
fn clv() {
    let mut cpu = setup();
    cpu.reset();
    cpu.registers.set_flag_overflow(true);
    cpu.load(&[0xB8, 0x00]);

    cpu.execute(STEP_BUDGET);

    assert_eq!(cpu.registers.get_flag_overflow(), false);
    assert_eq!(cpu.registers.pc, 0x8002);
}

#[test]
fn cmp() {
    let mut cpu = setup();
    cpu.reset();
    cpu.registers.a = 0x40;
    cpu.load(&[0xC9, 0x80, 0x00]);

    cpu.execute(STEP_BUDGET);

    assert_eq!(cpu.registers.get_flag_carry(), false);
    assert_eq!(cpu.registers.get_flag_zero(), false);
    assert_eq!(cpu.registers.get_flag_negative(), true);
    assert_eq!(cpu.registers.pc, 0x8003);
}

#[test]
fn cpx() {
    let mut cpu = setup();
    cpu.reset();
    cpu.registers.x = 0x40;
    cpu.load(&[0xE0, 0x80, 0x00]);

    cpu.execute(STEP_BUDGET);

    assert_eq!(cpu.registers.get_flag_carry(), false);
    assert_eq!(cpu.registers.get_flag_zero(), false);
    assert_eq!(cpu.registers.get_flag_negative(), true);
    assert_eq!(cpu.registers.pc, 0x8003);
}

#[test]
fn cpy() {
    let mut cpu = setup();
    cpu.reset();
    cpu.registers.y = 0x40;
    cpu.load(&[0xC0, 0x80, 0x00]);

    cpu.execute(STEP_BUDGET);

    assert_eq!(cpu.registers.get_flag_carry(), false);
    assert_eq!(cpu.registers.get_flag_zero(), false);
    assert_eq!(cpu.registers.get_flag_negative(), true);
    assert_eq!(cpu.registers.pc, 0x8003);
}

#[test]
fn dec() {
    let mut cpu = setup();
    cpu.reset();
    cpu.memory.write(0x00, 0x01);
    cpu.load(&[0xC6, 0x00, 0x00]);

    cpu.execute(STEP_BUDGET);

    assert_eq!(cpu.memory.read(0x00), 0x00);
    assert_eq!(cpu.registers.get_flag_zero(), true);
    assert_eq!(cpu.registers.get_flag_negative(), false);
    assert_eq!(cpu.registers.pc, 0x8003);
}

#[test]
fn dex() {
    let mut cpu = setup();
    cpu.reset();
    cpu.registers.x = 0x01;
    cpu.load(&[0xCA, 0x00]);

    cpu.execute(STEP_BUDGET);

    assert_eq!(cpu.registers.x, 0x00);
    assert_eq!(cpu.registers.get_flag_zero(), true);
    assert_eq!(cpu.registers.get_flag_negative(), false);
    assert_eq!(cpu.registers.pc, 0x8002);
}

#[test]
fn dey() {
    let mut cpu = setup();
    cpu.reset();
    cpu.registers.y = 0x01;
    cpu.load(&[0x88, 0x00]);

    cpu.execute(STEP_BUDGET);

    assert_eq!(cpu.registers.y, 0x00);
    assert_eq!(cpu.registers.get_flag_zero(), true);
    assert_eq!(cpu.registers.get_flag_negative(), false);
    assert_eq!(cpu.registers.pc, 0x8002);
}

#[test]
fn eor() {
    let mut cpu = setup();
    cpu.reset();
    cpu.registers.a = 0x78;
    cpu.load(&[0x49, 0x07, 0x00]);

    cpu.execute(STEP_BUDGET);

    assert_eq!(cpu.registers.a, 0x7F);
    assert_eq!(cpu.registers.pc, 0x8003);
    assert_eq!(cpu.registers.get_flag_zero(), false);
    assert_eq!(cpu.registers.get_flag_negative(), false);
}

#[test]
fn inc() {
    let mut cpu = setup();
    cpu.reset();
    cpu.memory.write(0x00, 0x01);
    cpu.load(&[0xE6, 0x00, 0x00]);

    cpu.execute(STEP_BUDGET);

    assert_eq!(cpu.memory.read(0x00), 0x02);
    assert_eq!(cpu.registers.get_flag_zero(), false);
    assert_eq!(cpu.registers.get_flag_negative(), false);
    assert_eq!(cpu.registers.pc, 0x8003);
}

#[test]
fn inx() {
    let mut cpu = setup();
    cpu.reset();
    cpu.registers.x = 0x01;
    cpu.load(&[0xE8, 0x00]);

    cpu.execute(STEP_BUDGET);

    assert_eq!(cpu.registers.x, 0x02);
    assert_eq!(cpu.registers.get_flag_zero(), false);
    assert_eq!(cpu.registers.get_flag_negative(), false);
    assert_eq!(cpu.registers.pc, 0x8002);
}

#[test]
fn iny() {
    let mut cpu = setup();
    cpu.reset();
    cpu.registers.y = 0x01;
    cpu.load(&[0xC8, 0x00]);

    cpu.execute(STEP_BUDGET);

    assert_eq!(cpu.registers.y, 0x02);
    assert_eq!(cpu.registers.get_flag_zero(), false);
    assert_eq!(cpu.registers.get_flag_negative(), false);
    assert_eq!(cpu.registers.pc, 0x8002);
}

#[test]
fn jmp() {
    let mut cpu = setup();
    cpu.reset();
    cpu.registers.x = 0x01;
    cpu.load(&[
        0x4C, 0x04, 0x80, // JMP $8004
        0xE8, // INX (skipped)
        0xCA, // DEX
        0x00,
    ]);

    cpu.execute(STEP_BUDGET);

    assert_eq!(cpu.registers.pc, 0x8006);
    assert_eq!(cpu.registers.x, 0x00);
}

#[test]
fn jsr() {}

#[test]
fn lda() {
    let mut cpu = setup();
    cpu.reset();
    cpu.memory.write(0x00, 0x01);
    cpu.load(&[0xA5, 0x00, 0x00]);

    cpu.execute(STEP_BUDGET);

    assert_eq!(cpu.registers.a, 0x01);
    assert_eq!(cpu.registers.get_flag_zero(), false);
    assert_eq!(cpu.registers.get_flag_negative(), false);
    assert_eq!(cpu.registers.pc, 0x8003);
}

#[test]
fn ldx() {
    let mut cpu = setup();
    cpu.reset();
    cpu.memory.write(0x00, 0x01);
    cpu.load(&[0xA6, 0x00, 0x00]);

    cpu.execute(STEP_BUDGET);

    assert_eq!(cpu.registers.x, 0x01);
    assert_eq!(cpu.registers.get_flag_zero(), false);
    assert_eq!(cpu.registers.get_flag_negative(), false);
    assert_eq!(cpu.registers.pc, 0x8003);
}

#[test]
fn ldy() {
    let mut cpu = setup();
    cpu.reset();
    cpu.memory.write(0x00, 0x01);
    cpu.load(&[0xA4, 0x00, 0x00]);

    cpu.execute(STEP_BUDGET);

    assert_eq!(cpu.registers.y, 0x01);
    assert_eq!(cpu.registers.get_flag_zero(), false);
    assert_eq!(cpu.registers.get_flag_negative(), false);
    assert_eq!(cpu.registers.pc, 0x8003);
}
