use mos6502::AddressingMode::{self, ABS, ABX, ABY, IDX, IDY, IMM, IMPACC, IND, RELZPG, ZPX, ZPY};
use mos6502::Instruction;
use mos6502::Lexer;
use mos6502::Mnemonics::{self, CLC, JMP, LDA, LDX, LDY};
use mos6502::NumberType;
use mos6502::Operand;
use mos6502::OperandData;
use mos6502::Parser;
use mos6502::Position;
use mos6502::Statement;

fn test_parse_instruction(input: &str, expected: Instruction) {
    let lexer = Lexer::new(input);
    let mut parser = Parser::new(lexer).unwrap();
    let instruction = parser.parse().unwrap().0;

    assert_eq!(instruction[0], Statement::Instruction(expected));
}

fn instruction(mnemonic: Mnemonics, mode: AddressingMode, data: Option<NumberType>) -> Instruction {
    Instruction::new(
        mnemonic,
        Operand::new(
            mode,
            match data {
                Some(data) => Some(OperandData::Number(data)),
                None => None,
            },
        ),
        Position(0, 0),
    )
}

#[test]
fn parser_test_parse_lda_immediate() {
    test_parse_instruction("LDA #$FF", instruction(LDA, IMM, Some(NumberType::Hexadecimal8(255))));
}

#[test]
fn parser_test_parse_lda_absolute() {
    test_parse_instruction(
        "LDA $FFFF",
        instruction(LDA, ABS, Some(NumberType::Hexadecimal16(65535))),
    );
}

#[test]
fn parser_test_parse_lda_absolute_x() {
    test_parse_instruction(
        "LDA $FFFF,X",
        instruction(LDA, ABX, Some(NumberType::Hexadecimal16(65535))),
    );
}

#[test]
fn parser_test_parse_lda_absolute_y() {
    test_parse_instruction(
        "LDA $FFFF,Y",
        instruction(LDA, ABY, Some(NumberType::Hexadecimal16(65535))),
    );
}

#[test]
fn parser_test_parse_lda_indirect() {
    test_parse_instruction(
        "JMP ($FFFF)",
        instruction(JMP, IND, Some(NumberType::Hexadecimal16(65535))),
    );
}

#[test]
fn parser_test_parse_lda_indirect_x() {
    test_parse_instruction(
        "LDA ($FF, X)",
        instruction(LDA, IDX, Some(NumberType::Hexadecimal8(255))),
    );
}

#[test]
fn parser_test_parse_lda_indirect_y() {
    test_parse_instruction(
        "LDA ($FF), Y",
        instruction(LDA, IDY, Some(NumberType::Hexadecimal8(255))),
    );
}

#[test]
fn parser_test_parse_lda_zeropage() {
    test_parse_instruction(
        "LDA $FF",
        instruction(LDA, RELZPG, Some(NumberType::Hexadecimal8(255))),
    );
}

#[test]
fn parser_test_parse_ldx_zeropage_x() {
    test_parse_instruction("LDX $FF,Y", instruction(LDX, ZPY, Some(NumberType::Hexadecimal8(255))));
}

#[test]
fn parser_test_parse_ldy_zeropage_y() {
    test_parse_instruction("LDY $FF,X", instruction(LDY, ZPX, Some(NumberType::Hexadecimal8(255))));
}

#[test]
fn parser_test_parse_clc_implied_accumulator() {
    test_parse_instruction("CLC", instruction(CLC, IMPACC, None));
}

#[test]
fn parser_label_statement() {
    let lexer = Lexer::new("loop:\n");
    let mut parser = Parser::new(lexer).unwrap();
    let statements = parser.parse().unwrap().0;
    assert_eq!(statements[0], Statement::Label("loop".to_string()));
}

#[test]
fn parser_label_reference_statement() {
    let lexer = Lexer::new("BNE loop\n");
    let mut parser = Parser::new(lexer).unwrap();
    let statements = parser.parse().unwrap().0;
    assert_eq!(
        statements[0],
        Statement::Instruction(Instruction::new(
            Mnemonics::BNE,
            Operand::new(RELZPG, Some(OperandData::Label("loop".to_string()))),
            Position(0, 0),
        ))
    );
}

#[test]
fn parser_case_insensitive_mnemonics() {
    test_parse_instruction("lda #$10", instruction(LDA, IMM, Some(NumberType::Hexadecimal8(0x10))));
}

#[test]
fn parser_decimal_widths() {
    test_parse_instruction("LDA 200", instruction(LDA, RELZPG, Some(NumberType::Decimal8(200))));
    test_parse_instruction("LDA 300", instruction(LDA, ABS, Some(NumberType::Decimal16(300))));
}
