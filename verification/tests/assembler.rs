use mos6502::Assembler;
use mos6502::AssemblerErrorKind;

#[test]
fn lib_test_assemble_instruction() {
    let s = "\nLDX #$01\nSTX $0000\n";

    let src = Assembler::new(s).assemble().unwrap();
    assert_eq!(src, vec![0xA2, 0x01, 0x8E, 0x00, 0x00]);
}

#[test]
fn lib_test_assemble_label() {
    let s = "\nLDA #$02\nCMP #$01\nBNE FOO\nLDA #$01\nSTA $00\nBRK\n\nFOO:\n    LDA #$01\n    STA $01\n    BRK\n        ";

    let src = Assembler::new(s).assemble().unwrap();
    assert_eq!(
        src,
        vec![
            0xA9, 0x02, // LDA #$02
            0xC9, 0x01, // CMP #$01
            0xD0, 0x05, // BNE FOO
            0xA9, 0x01, // LDA #$01
            0x85, 0x00, // STA $00
            0x00, // BRK
            0xA9, 0x01, // LDA #$01
            0x85, 0x01, // STA $01
            0x00, // BRK
        ]
    );
}

#[test]
fn mod_test_assemble_instruction() {
    let s = "\nLDX #$01\nSTX $0000\n";

    let src = Assembler::new(s).assemble().unwrap();
    assert_eq!(src, vec![0xA2, 0x01, 0x8E, 0x00, 0x00]);
}

#[test]
fn mod_test_assemble_label() {
    let s = "\nLDA #$02\nCMP #$01\nBNE FOO\nLDA #$01\nSTA $00\nBRK\n\nFOO:\n    LDA #$01\n    STA $01\n    BRK\n        ";

    let src = Assembler::new(s).assemble().unwrap();
    assert_eq!(
        src,
        vec![
            0xA9, 0x02, // LDA #$02
            0xC9, 0x01, // CMP #$01
            0xD0, 0x05, // BNE FOO
            0xA9, 0x01, // LDA #$01
            0x85, 0x00, // STA $00
            0x00, // BRK
            0xA9, 0x01, // LDA #$01
            0x85, 0x01, // STA $01
            0x00, // BRK
        ]
    );
}

#[test]
fn assemble_backward_branch_offset() {
    // A branch back over four bytes gets displacement 0xFC:
    // target + 2 + (0xFC as signed) lands on the label again.
    let s = "FOO:\nLDA #$01\nBNE FOO\n";
    let src = Assembler::new(s).assemble().unwrap();
    assert_eq!(src, vec![0xA9, 0x01, 0xD0, 0xFC]);
}

#[test]
fn assemble_define_substitution() {
    let s = "define addr $05\nLDA addr\n";
    let src = Assembler::new(s).assemble().unwrap();
    assert_eq!(src, vec![0xA5, 0x05]);
}

#[test]
fn assemble_define_indexed() {
    let s = "define addr $05\nLDA addr,X\n";
    let src = Assembler::new(s).assemble().unwrap();
    assert_eq!(src, vec![0xB5, 0x05]);
}

#[test]
fn assemble_forward_define_reference() {
    // A name used before its define is resolved in pass two.
    let s = "JMP FOO\ndefine FOO $1234\n";
    let src = Assembler::new(s).assemble().unwrap();
    assert_eq!(src, vec![0x4C, 0x34, 0x12]);
}

#[test]
fn assemble_jmp_label_uses_rom_base() {
    let s = "NOP\nFOO:\nJMP FOO\n";
    let src = Assembler::new(s).assemble().unwrap();
    // the label offset 1 becomes the absolute address 0x8001
    assert_eq!(src, vec![0xEA, 0x4C, 0x01, 0x80]);
}

#[test]
fn assemble_unknown_label_is_invalid_label() {
    let e = Assembler::new("JMP NOWHERE\n").assemble().unwrap_err();
    assert!(matches!(e.kind, AssemblerErrorKind::InvalidLabel(ref n) if n == "NOWHERE"));
}

#[test]
fn assemble_unknown_mnemonic() {
    let e = Assembler::new("FROB #$01\n").assemble().unwrap_err();
    assert!(matches!(e.kind, AssemblerErrorKind::InvalidMnemonic(ref n) if n == "FROB"));
}

#[test]
fn assemble_sixteen_bit_immediate_is_invalid_operand() {
    let e = Assembler::new("LDX #$0102\n").assemble().unwrap_err();
    assert!(matches!(e.kind, AssemblerErrorKind::InvalidOperand(_)));
}

#[test]
fn assemble_illegal_pair_is_invalid_instruction() {
    let e = Assembler::new("TXS $01,X\n").assemble().unwrap_err();
    assert!(matches!(e.kind, AssemblerErrorKind::InvalidInstruction(_, _)));
}

#[test]
fn assemble_illegal_character() {
    let e = Assembler::new("@\n").assemble().unwrap_err();
    assert!(matches!(e.kind, AssemblerErrorKind::IllegalCharacter('@')));
}

#[test]
fn assemble_huge_decimal_is_invalid_number() {
    let e = Assembler::new("LDA 99999999999999999999999999\n").assemble().unwrap_err();
    assert!(matches!(e.kind, AssemblerErrorKind::InvalidNumber));
}

#[test]
fn assemble_missing_closing_paren_is_unexpected_token() {
    let e = Assembler::new("LDA ($01,Y)\n").assemble().unwrap_err();
    assert!(matches!(e.kind, AssemblerErrorKind::UnexpectedToken { .. }));
}

#[test]
fn error_text_carries_position() {
    let e = Assembler::new("LDA !\n").assemble().unwrap_err();
    let text = e.text();
    assert!(text.starts_with("Illegal character: !"));
    assert!(text.contains("at line 1"));
}
