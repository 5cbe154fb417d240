//! The assembler's syntax tree: source positions, statements and
//! instructions as the parser produces them.

use vstd::prelude::*;
use crate::instruction::Mnemonics;
use crate::instruction::Operand;
use crate::instruction::OperandV;

verus! {

/// A (line, column) pair carried by every token and instruction for error
/// reporting. Two positions always compare equal, so syntax trees compare
/// structurally.
#[derive(Debug, Clone, Copy, Default)]
pub struct Position(pub usize, pub usize);

impl PartialEq for Position {
    /// Positions never distinguish values.
    fn eq(&self, _other: &Position) -> (r: bool)
        ensures
            r,
    {
        true
    }
}

impl vstd::std_specs::cmp::PartialEqSpecImpl for Position {
    open spec fn obeys_eq_spec() -> bool {
        true
    }

    open spec fn eq_spec(&self, _other: &Position) -> bool {
        true
    }
}

/// A parsed source file: its statements in source order.
#[derive(Debug, Clone, PartialEq, Default)]
pub struct Program(pub Vec<Statement>);

#[derive(Debug, Clone, PartialEq)]
pub enum Statement {
    Instruction(Instruction),
    Label(String),
    Define(String, Operand),
}

/// The mathematical image of a statement; positions carry no meaning and
/// are dropped.
pub enum StatementV {
    Instruction(InstructionV),
    Label(Seq<char>),
    Define(Seq<char>, OperandV),
}

/// The mathematical image of an instruction.
pub struct InstructionV {
    pub opcode: Mnemonics,
    pub operand: OperandV,
}

impl View for Statement {
    type V = StatementV;

    open spec fn view(&self) -> StatementV {
        match self {
            Statement::Instruction(i) => StatementV::Instruction(i@),
            Statement::Label(s) => StatementV::Label(s@),
            Statement::Define(s, op) => StatementV::Define(s@, op@),
        }
    }
}

impl View for Instruction {
    type V = InstructionV;

    open spec fn view(&self) -> InstructionV {
        InstructionV { opcode: self.opcode, operand: self.operand@ }
    }
}

/// The statement views of a statement list.
pub open spec fn stmt_views(v: Seq<Statement>) -> Seq<StatementV> {
    Seq::new(v.len(), |i: int| v[i]@)
}

impl View for Program {
    type V = Seq<StatementV>;

    open spec fn view(&self) -> Seq<StatementV> {
        stmt_views(self.0@)
    }
}

/// A mnemonic with its operand and the source position it came from.
#[derive(Debug, Clone, PartialEq)]
pub struct Instruction {
    pub opcode: Mnemonics,
    pub operand: Operand,
    pub position: Position,
}

impl Instruction {
    pub fn new(opcode: Mnemonics, operand: Operand, position: Position) -> (r: Instruction)
        ensures
            r == (Instruction { opcode, operand, position }),
    {
        Instruction { opcode, operand, position }
    }
}

} // verus!
