use mos6502::Memory;
use mos6502::Registers;

#[test]
fn memory_test_read_write() {
    let mut memory = Memory::new();

    memory.write(0x0000, 0x12);
    memory.write(0x0001, 0x34);

    assert_eq!(memory.read(0x0000), 0x12);
    assert_eq!(memory.read(0x0001), 0x34);
}

#[test]
fn memory_test_read_write_addr() {
    let mut memory = Memory::new();

    memory.write_addr(0x0000, 0x1234);

    assert_eq!(memory.read(0x0000), 0x34);
    assert_eq!(memory.read(0x0001), 0x12);
    assert_eq!(memory.read_addr(0x0000), 0x1234);
}

#[test]
fn test_read_write() {
    let mut memory = Memory::new();

    memory.write(0x0000, 0x12);
    memory.write(0x0001, 0x34);

    assert_eq!(memory.read(0x0000), 0x12);
    assert_eq!(memory.read(0x0001), 0x34);
}

#[test]
fn test_read_write_addr() {
    let mut memory = Memory::new();

    memory.write_addr(0x0000, 0x1234);

    assert_eq!(memory.read(0x0000), 0x34);
    assert_eq!(memory.read(0x0001), 0x12);
    assert_eq!(memory.read_addr(0x0000), 0x1234);
}

#[test]
fn memory_endianness_at_top() {
    let mut memory = Memory::new();
    memory.write_addr(0xFFFD, 0xBEEF);
    assert_eq!(memory.read_addr(0xFFFD), 0xBEEF);
}

#[test]
fn memory_rom_loads_at_base() {
    let mut memory = Memory::new();
    memory.rom(&[0xAA, 0xBB, 0xCC]);
    assert_eq!(memory.read(0x8000), 0xAA);
    assert_eq!(memory.read(0x8001), 0xBB);
    assert_eq!(memory.read(0x8002), 0xCC);
    assert_eq!(memory.read(0x8003), 0x00);
}

#[test]
fn test_set_flag() {
    let mut registers = Registers::default();

    registers.set_flag_negative(true);
    assert_eq!(registers.p, 0b1000_0000);

    registers.set_flag_overflow(true);
    assert_eq!(registers.p, 0b1100_0000);

    registers.set_flag_break(true);
    assert_eq!(registers.p, 0b1101_0000);

    registers.set_flag_decimal(true);
    assert_eq!(registers.p, 0b1101_1000);

    registers.set_flag_interrupt_disable(true);
    assert_eq!(registers.p, 0b1101_1100);

    registers.set_flag_zero(true);
    assert_eq!(registers.p, 0b1101_1110);

    registers.set_flag_carry(true);
    assert_eq!(registers.p, 0b1101_1111);
}

#[test]
fn registers_status_text() {
    let mut registers = Registers::default();
    registers.a = 0xAB;
    registers.pc = 0x8000;
    registers.set_flag_carry(true);
    let text = registers.status_text();
    assert_eq!(
        text,
        "Registers: A=AB X=00 Y=00 SP=00 PC=8000\nFlag Registers (NV-B DIZC): 0 0 - 0  0 0 0 1"
    );
}
