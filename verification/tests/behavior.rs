//! Boundary behaviors and end-to-end scenarios: register wrap,
//! zero-page indexing wrap, branch displacement, subtract-with-carry
//! edges, whole-program runs, and the encode/decode round trip.

use mos6502::byte_to_opcode;
use mos6502::cpu;
use mos6502::disassemble;
use mos6502::instruction_to_byte;
use mos6502::Assembler;
use mos6502::Cpu;
use mos6502::Instruction;
use mos6502::Memory;
use mos6502::Operand;
use mos6502::Position;

fn setup() -> Cpu {
    Cpu::new(Memory::new())
}

#[test]
fn inx_wraps_to_zero() {
    let mut cpu = setup();
    cpu.reset();
    cpu.registers.x = 0xFF;
    cpu.load(&[0xE8, 0x00]);

    cpu.execute(10_000);

    assert_eq!(cpu.registers.x, 0x00);
    assert_eq!(cpu.registers.get_flag_zero(), true);
    assert_eq!(cpu.registers.get_flag_negative(), false);
}

#[test]
fn zero_page_indexing_wraps() {
    // LDA $F0,X with X = 0x20 reads 0x10, not 0x110.
    let mut cpu = setup();
    cpu.reset();
    cpu.registers.x = 0x20;
    cpu.memory.write(0x0010, 0x42);
    cpu.memory.write(0x0110, 0x99);
    cpu.load(&[0xB5, 0xF0, 0x00]);

    cpu.execute(10_000);

    assert_eq!(cpu.registers.a, 0x42);
}

#[test]
fn branch_over_itself_loops() {
    // a taken branch with displacement 0xFE lands back on itself
    let mut cpu = setup();
    cpu.reset();
    cpu.registers.set_flag_zero(false);
    cpu.load(&[0xD0, 0xFE]);

    let opcode = cpu.step();

    assert_eq!(opcode, 0xD0);
    assert_eq!(cpu.registers.pc, 0x8000);
}

#[test]
fn sbc_with_carry_clear_subtracts_extra_one() {
    let mut cpu = setup();
    cpu.reset();
    cpu.registers.a = 0x05;
    cpu.registers.set_flag_carry(false);
    cpu.load(&[0xE9, 0x02, 0x00]);

    cpu.execute(10_000);

    assert_eq!(cpu.registers.a, 0x02);
}

#[test]
fn sbc_zero_from_zero_with_carry_set() {
    let mut cpu = setup();
    cpu.reset();
    cpu.registers.a = 0x00;
    cpu.registers.set_flag_carry(true);
    cpu.load(&[0xE9, 0x00, 0x00]);

    cpu.execute(10_000);

    assert_eq!(cpu.registers.a, 0x00);
    assert_eq!(cpu.registers.get_flag_zero(), true);
    assert_eq!(cpu.registers.get_flag_carry(), true);
}

#[test]
fn label_program_runs_to_completion() {
    let s = "LDA #$02\nCMP #$01\nBNE FOO\nLDA #$01\nSTA $00\nBRK\nFOO:\nLDA #$01\nSTA $01\nBRK\n";
    let bytes = Assembler::new(s).assemble().unwrap();
    let mut cpu = setup();
    cpu.reset();
    cpu.load(&bytes);
    cpu.execute(10_000);

    assert_eq!(cpu.memory.read(0x0001), 0x01);
    assert_eq!(cpu.memory.read(0x0000), 0x00);
}

#[test]
fn jsr_and_rts_round_trip() {
    let mut cpu = setup();
    cpu.reset();
    cpu.load(&[
        0x20, 0x04, 0x80, // JSR $8004
        0x00, // BRK
        0x60, // RTS
    ]);

    let opcode = cpu.step();
    assert_eq!(opcode, 0x20);
    assert_eq!(cpu.registers.pc, 0x8004);
    assert_eq!(cpu.registers.sp, 0xFE);
    // the pushed return address is the byte before the next instruction
    assert_eq!(cpu.memory.read(0x0100), 0x80);
    assert_eq!(cpu.memory.read(0x01FF), 0x02);

    let opcode = cpu.step();
    assert_eq!(opcode, 0x60);
    assert_eq!(cpu.registers.pc, 0x8003);
    assert_eq!(cpu.registers.sp, 0x00);
}

#[test]
fn bit_sets_flags_from_memory() {
    let mut cpu = setup();
    cpu.reset();
    cpu.registers.a = 0x0F;
    cpu.memory.write(0x0010, 0xC0);
    cpu.load(&[0x24, 0x10, 0x00]);

    cpu.execute(10_000);

    assert_eq!(cpu.registers.get_flag_zero(), true);
    assert_eq!(cpu.registers.get_flag_negative(), true);
    assert_eq!(cpu.registers.get_flag_overflow(), true);
}

#[test]
fn php_plp_round_trip_status() {
    let mut cpu = setup();
    cpu.reset();
    cpu.registers.set_flag_carry(true);
    cpu.registers.set_flag_negative(true);
    let saved = cpu.registers.p;
    cpu.load(&[
        0x08, // PHP
        0x18, // CLC
        0x28, // PLP
        0x00,
    ]);
    cpu.execute(10_000);

    assert_eq!(cpu.registers.p, saved);
}

#[test]
fn decode_encode_round_trip_over_all_bytes() {
    // every byte the decoder accepts encodes back to itself
    let mut legal = 0;
    for byte in 0..=255u8 {
        if let Ok((mnemonic, mode)) = byte_to_opcode(byte) {
            legal += 1;
            let again = instruction_to_byte(Instruction::new(
                mnemonic,
                Operand::new(mode, None),
                Position(0, 0),
            ))
            .unwrap();
            assert_eq!(again, byte);
        }
    }
    assert_eq!(legal, 151);
}

#[test]
fn disassemble_jmp_absolute() {
    let lines = disassemble(&[0x4C, 0x34, 0x12]).unwrap();
    assert_eq!(lines.len(), 1);
    assert_eq!(lines[0].0, 0);
    assert_eq!(lines[0].1, "JMP $1234");
}

#[test]
fn disassemble_listing_offsets() {
    let lines = disassemble(&[0xA9, 0x01, 0xB5, 0xF0, 0x00]).unwrap();
    assert_eq!(lines.len(), 3);
    assert_eq!(lines[0], (0, "LDA #$01".to_string()));
    assert_eq!(lines[1], (2, "LDA $F0,X".to_string()));
    assert_eq!(lines[2], (4, "BRK".to_string()));
}

#[test]
fn disassemble_bad_byte_reports_offset() {
    let e = disassemble(&[0xEA, 0xFF]).unwrap_err();
    assert!(matches!(e.kind, mos6502::AssemblerErrorKind::InvalidOpcode(0xFF)));
    assert_eq!(e.position.0, 1);
}

#[test]
fn assemble_disassemble_round_trip() {
    let source = "LDA #$10\nSTA $0200\nJMP ($1234)\n";
    let bytes = Assembler::new(source).assemble().unwrap();
    let lines = disassemble(&bytes).unwrap();
    assert_eq!(lines[0].1, "LDA #$10");
    assert_eq!(lines[1].1, "STA $0200");
    assert_eq!(lines[2].1, "JMP ($1234)");
}

#[test]
fn step_budget_halts_infinite_loop() {
    let mut cpu = setup();
    cpu.reset();
    cpu.load(&[0x4C, 0x00, 0x80]); // JMP $8000
    cpu.execute(100);
    // the run stops after the budget; the loop never reaches a break
    assert_eq!(cpu.registers.pc, 0x8000);
}

#[test]
fn cpu_addressing_modes_are_distinct() {
    assert_ne!(cpu::AddressingMode::ZeroPageX, cpu::AddressingMode::ZeroPageY);
}
