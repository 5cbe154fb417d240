//! A MOS 6502 microprocessor emulator with a matching assembler.
//!
//! Source text is tokenized, parsed into a statement list, laid out by a
//! two-pass assembler that resolves labels and `define` directives, and
//! encoded into opcode bytes. The emulator executes those bytes with a
//! bit-exact model of the register file, the status flags, the stack, and
//! every addressing mode. A disassembler inverts the encoder.

pub mod assembler;
pub mod ast;
pub mod cpu;
pub mod debugger;
pub mod disasm;
pub mod error;
pub mod hexdump;
pub mod instruction;
pub mod lexer;
pub mod memory;
pub mod parser;
pub mod registers;
pub mod text;
pub mod token;

pub use assembler::Assembler;
pub use ast::Instruction;
pub use ast::Position;
pub use ast::Program;
pub use ast::Statement;
pub use cpu::Cpu;
pub use cpu::CpuView;
pub use debugger::CpuDebugger;
pub use debugger::DebugKind;
pub use debugger::Debugger;
pub use debugger::NoneDebugger;
pub use disasm::disassemble;
pub use error::AssemblerError;
pub use error::AssemblerErrorKind;
pub use error::AssemblerResult;
pub use hexdump::memory_hexdump;
pub use hexdump::memory_hexdump_string;
pub use hexdump::MemoryDumpResult;
pub use instruction::byte_to_opcode;
pub use instruction::instruction_to_byte;
pub use instruction::AddressingMode;
pub use instruction::Mnemonics;
pub use instruction::NumberType;
pub use instruction::Operand;
pub use instruction::OperandData;
pub use lexer::Lexer;
pub use memory::Memory;
pub use memory::MemoryBus;
pub use parser::Parser;
pub use registers::Registers;
pub use token::Token;
pub use token::TokenKind;
