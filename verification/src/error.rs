//! The assembler's error taxonomy. Every error carries the (line, column)
//! position it arose at; errors from decoding raw bytes carry the byte
//! offset in the line field.

use vstd::prelude::*;
use crate::ast::Position;
use crate::instruction::AddressingMode;
use crate::text::push_char;
use crate::text::push_decimal;
use crate::text::push_hex8;
use crate::text::push_str_chars;
use crate::text::spec_decimal_text;
use crate::text::spec_hex8;

verus! {

#[derive(Debug, Clone, PartialEq)]
pub enum AssemblerErrorKind {
    /// The lexer met a character no token can start with.
    IllegalCharacter(char),
    /// A numeric literal did not fit the machine's integer range.
    InvalidNumber,
    /// The parser met a token other than the one the grammar demands.
    UnexpectedToken { expected: String, found: String },
    /// The parser met a token no rule accepts.
    UnexpectedToken2,
    /// An operand whose shape or width no addressing mode accepts.
    InvalidOperand(String),
    /// A label reference that neither the label nor the define table
    /// resolves.
    InvalidLabel(String),
    /// A (mnemonic, addressing mode) pair with no opcode.
    InvalidInstruction(String, AddressingMode),
    /// An identifier in mnemonic position that names no mnemonic.
    InvalidMnemonic(String),
    /// A byte that decodes to no instruction.
    InvalidOpcode(u8),
}

#[derive(Debug, Clone, PartialEq)]
pub struct AssemblerError {
    pub kind: AssemblerErrorKind,
    pub position: Position,
}

impl AssemblerError {
    pub fn new(kind: AssemblerErrorKind, position: Position) -> (r: AssemblerError)
        ensures
            r == (AssemblerError { kind, position }),
    {
        AssemblerError { kind, position }
    }

    /// The message a front-end shows: the kind's description followed by
    /// `" at line L, column C"`.
    pub fn text(&self) -> (r: String)
        ensures
            r@ == self.kind.describe() + " at line "@ + spec_decimal_text(self.position.0 as int)
                + ", column "@ + spec_decimal_text(self.position.1 as int),
    {
        let mut out = self.kind.text();
        push_str_chars(&mut out, " at line ");
        push_decimal(&mut out, self.position.0);
        push_str_chars(&mut out, ", column ");
        push_decimal(&mut out, self.position.1);
        out
    }
}

impl AssemblerErrorKind {
    /// The description each error kind renders to.
    pub open spec fn describe(&self) -> Seq<char> {
        match self {
            AssemblerErrorKind::IllegalCharacter(c) => "Illegal character: "@.push(*c),
            AssemblerErrorKind::InvalidNumber => "Invalid number"@,
            AssemblerErrorKind::UnexpectedToken { expected, found } => "Unexpected token: expected "@
                + expected@ + ", found "@ + found@,
            AssemblerErrorKind::UnexpectedToken2 => "Unexpected token"@,
            AssemblerErrorKind::InvalidOperand(operand) => "Invalid operand: "@ + operand@,
            AssemblerErrorKind::InvalidLabel(label) => "Invalid label: "@ + label@,
            AssemblerErrorKind::InvalidInstruction(mnemonic, mode) => "Invalid instruction: mnemonic "@
                + mnemonic@ + " does not support "@ + mode.describe() + " addressing mode"@,
            AssemblerErrorKind::InvalidMnemonic(mnemonic) => "Invalid mnemonic: "@ + mnemonic@,
            AssemblerErrorKind::InvalidOpcode(byte) => "Invalid opcode: $"@ + spec_hex8(*byte),
        }
    }

    /// Render the kind's description.
    pub fn text(&self) -> (r: String)
        ensures
            r@ == self.describe(),
    {
        let mut out = String::new();
        match self {
            AssemblerErrorKind::IllegalCharacter(c) => {
                push_str_chars(&mut out, "Illegal character: ");
                push_char(&mut out, *c);
            },
            AssemblerErrorKind::InvalidNumber => {
                push_str_chars(&mut out, "Invalid number");
            },
            AssemblerErrorKind::UnexpectedToken { expected, found } => {
                push_str_chars(&mut out, "Unexpected token: expected ");
                push_str_chars(&mut out, expected.as_str());
                push_str_chars(&mut out, ", found ");
                push_str_chars(&mut out, found.as_str());
            },
            AssemblerErrorKind::UnexpectedToken2 => {
                push_str_chars(&mut out, "Unexpected token");
            },
            AssemblerErrorKind::InvalidOperand(operand) => {
                push_str_chars(&mut out, "Invalid operand: ");
                push_str_chars(&mut out, operand.as_str());
            },
            AssemblerErrorKind::InvalidLabel(label) => {
                push_str_chars(&mut out, "Invalid label: ");
                push_str_chars(&mut out, label.as_str());
            },
            AssemblerErrorKind::InvalidInstruction(mnemonic, mode) => {
                push_str_chars(&mut out, "Invalid instruction: mnemonic ");
                push_str_chars(&mut out, mnemonic.as_str());
                push_str_chars(&mut out, " does not support ");
                let mode_text = mode.text();
                push_str_chars(&mut out, mode_text.as_str());
                push_str_chars(&mut out, " addressing mode");
            },
            AssemblerErrorKind::InvalidMnemonic(mnemonic) => {
                push_str_chars(&mut out, "Invalid mnemonic: ");
                push_str_chars(&mut out, mnemonic.as_str());
            },
            AssemblerErrorKind::InvalidOpcode(byte) => {
                push_str_chars(&mut out, "Invalid opcode: $");
                push_hex8(&mut out, *byte);
            },
        }
        out
    }
}

pub type AssemblerResult<T> = Result<T, AssemblerError>;

} // verus!
