//! The disassembler: linear decoding of a byte slice back into source
//! lines, one `(byte offset, text)` pair per instruction, in the same
//! surface syntax the assembler reads.

use vstd::prelude::*;
use crate::ast::Position;
use crate::error::AssemblerError;
use crate::error::AssemblerErrorKind;
use crate::error::AssemblerResult;
use crate::instruction::byte_to_opcode;
use crate::instruction::spec_decode;
use crate::instruction::spec_mnemonic_name;
use crate::instruction::AddressingMode;
use crate::instruction::Mnemonics;
use crate::text::push_char;
use crate::text::push_hex16;
use crate::text::push_hex8;
use crate::text::push_str_chars;
use crate::text::spec_hex16;
use crate::text::spec_hex8;

verus! {

/// How many operand bytes follow an opcode of this addressing mode.
pub open spec fn spec_mode_width(mode: AddressingMode) -> int {
    match mode {
        AddressingMode::IMPACC => 0,
        AddressingMode::IMM => 1,
        AddressingMode::RELZPG => 1,
        AddressingMode::ZPX => 1,
        AddressingMode::ZPY => 1,
        AddressingMode::IDX => 1,
        AddressingMode::IDY => 1,
        AddressingMode::ABS => 2,
        AddressingMode::ABX => 2,
        AddressingMode::ABY => 2,
        AddressingMode::IND => 2,
    }
}

/// The byte at an offset; offsets past the end read as zero, as memory
/// beyond a loaded program does.
pub open spec fn spec_byte_at(bytes: Seq<u8>, i: int) -> u8 {
    if 0 <= i < bytes.len() {
        bytes[i]
    } else {
        0
    }
}

/// The operand's rendering: one-byte operands as `$HH`, two-byte ones as
/// `$HHHH`, with the mode's indexing and indirection marks around them.
pub open spec fn spec_operand_text(mode: AddressingMode, lo: u8, hi: u8) -> Seq<char> {
    let h8 = seq!['$'] + spec_hex8(lo);
    let h16 = seq!['$'] + spec_hex16((lo + 256 * hi) as u16);
    match mode {
        AddressingMode::IMPACC => Seq::<char>::empty(),
        AddressingMode::IMM => seq!['#'] + h8,
        AddressingMode::RELZPG => h8,
        AddressingMode::ZPX => h8 + seq![',', 'X'],
        AddressingMode::ZPY => h8 + seq![',', 'Y'],
        AddressingMode::IDX => seq!['('] + h8 + seq![',', 'X', ')'],
        AddressingMode::IDY => seq!['('] + h8 + seq![')', ',', 'Y'],
        AddressingMode::ABS => h16,
        AddressingMode::ABX => h16 + seq![',', 'X'],
        AddressingMode::ABY => h16 + seq![',', 'Y'],
        AddressingMode::IND => seq!['('] + h16 + seq![')'],
    }
}

/// One disassembled line: the mnemonic, then the operand where the mode
/// takes one.
pub open spec fn spec_line_text(m: Mnemonics, mode: AddressingMode, lo: u8, hi: u8) -> Seq<char> {
    if mode is IMPACC {
        spec_mnemonic_name(m)
    } else {
        spec_mnemonic_name(m) + seq![' '] + spec_operand_text(mode, lo, hi)
    }
}

/// A disassembly: the lines with their byte offsets, or the undecodable
/// byte and its offset.
pub enum DOut {
    DLines(Seq<(int, Seq<char>)>),
    DFail(u8, int),
}

/// Disassemble from offset `i`: decode the opcode, consume its operand
/// bytes, and continue behind them.
pub open spec fn spec_disassemble(bytes: Seq<u8>, i: int) -> DOut
    decreases bytes.len() - i,
    when 0 <= i <= bytes.len()
{
    if i >= bytes.len() {
        DOut::DLines(Seq::empty())
    } else {
        match spec_decode(bytes[i]) {
            None => DOut::DFail(bytes[i], i),
            Some((m, mode)) => {
                let w = spec_mode_width(mode);
                let line = spec_line_text(
                    m,
                    mode,
                    spec_byte_at(bytes, i + 1),
                    spec_byte_at(bytes, i + 2),
                );
                let j = if i + 1 + w > bytes.len() {
                    bytes.len() as int
                } else {
                    i + 1 + w
                };
                match spec_disassemble(bytes, j) {
                    DOut::DFail(b, o) => DOut::DFail(b, o),
                    DOut::DLines(rest) => DOut::DLines(seq![(i, line)] + rest),
                }
            },
        }
    }
}

/// The mathematical image of a listing.
pub open spec fn spec_listing_view(v: Seq<(usize, String)>) -> Seq<(int, Seq<char>)> {
    Seq::new(v.len(), |k: int| (v[k].0 as int, v[k].1@))
}

/// Render one operand.
fn operand_text(mode: AddressingMode, lo: u8, hi: u8) -> (r: String)
    ensures
        r@ == spec_operand_text(mode, lo, hi),
{
    let mut out = String::new();
    let value16: u16 = lo as u16 + 256 * (hi as u16);
    match mode {
        AddressingMode::IMPACC => {},
        AddressingMode::IMM => {
            push_char(&mut out, '#');
            push_char(&mut out, '$');
            push_hex8(&mut out, lo);
        },
        AddressingMode::RELZPG => {
            push_char(&mut out, '$');
            push_hex8(&mut out, lo);
        },
        AddressingMode::ZPX => {
            push_char(&mut out, '$');
            push_hex8(&mut out, lo);
            push_char(&mut out, ',');
            push_char(&mut out, 'X');
        },
        AddressingMode::ZPY => {
            push_char(&mut out, '$');
            push_hex8(&mut out, lo);
            push_char(&mut out, ',');
            push_char(&mut out, 'Y');
        },
        AddressingMode::IDX => {
            push_char(&mut out, '(');
            push_char(&mut out, '$');
            push_hex8(&mut out, lo);
            push_char(&mut out, ',');
            push_char(&mut out, 'X');
            push_char(&mut out, ')');
        },
        AddressingMode::IDY => {
            push_char(&mut out, '(');
            push_char(&mut out, '$');
            push_hex8(&mut out, lo);
            push_char(&mut out, ')');
            push_char(&mut out, ',');
            push_char(&mut out, 'Y');
        },
        AddressingMode::ABS => {
            push_char(&mut out, '$');
            push_hex16(&mut out, value16);
        },
        AddressingMode::ABX => {
            push_char(&mut out, '$');
            push_hex16(&mut out, value16);
            push_char(&mut out, ',');
            push_char(&mut out, 'X');
        },
        AddressingMode::ABY => {
            push_char(&mut out, '$');
            push_hex16(&mut out, value16);
            push_char(&mut out, ',');
            push_char(&mut out, 'Y');
        },
        AddressingMode::IND => {
            push_char(&mut out, '(');
            push_char(&mut out, '$');
            push_hex16(&mut out, value16);
            push_char(&mut out, ')');
        },
    }
    assert(out@ =~= spec_operand_text(mode, lo, hi));
    out
}

/// Disassemble a byte slice into `(byte offset, text)` lines; an
/// undecodable byte stops the listing with `InvalidOpcode`, its offset
/// in the error's line field.
pub fn disassemble(bytes: &[u8]) -> (r: AssemblerResult<Vec<(usize, String)>>)
    ensures
        match r {
            Ok(lines) => spec_disassemble(bytes@, 0) == DOut::DLines(spec_listing_view(lines@)),
            Err(e) => spec_disassemble(bytes@, 0) matches DOut::DFail(b, o) && e.kind
                == AssemblerErrorKind::InvalidOpcode(b) && e.position == (Position { 0: o as usize, 1: 0 }),
        },
{
    let n = bytes.len();
    let mut lines: Vec<(usize, String)> = Vec::new();
    let mut i: usize = 0;
    proof {
        assert(spec_listing_view(lines@) =~= Seq::<(int, Seq<char>)>::empty());
    }
    while i < n
        invariant
            n == bytes@.len(),
            i <= n,
            match spec_disassemble(bytes@, i as int) {
                DOut::DLines(rest) => spec_disassemble(bytes@, 0) == DOut::DLines(
                    spec_listing_view(lines@) + rest,
                ),
                DOut::DFail(b, o) => spec_disassemble(bytes@, 0) == DOut::DFail(b, o),
            },
        decreases n - i,
    {
        let opcode = bytes[i];
        let (m, mode) = match byte_to_opcode(opcode) {
            Ok(p) => p,
            Err(_) => {
                return Err(
                    AssemblerError::new(
                        AssemblerErrorKind::InvalidOpcode(opcode),
                        Position(i, 0),
                    ),
                );
            },
        };
        let lo: u8 = if n - i > 1 {
            bytes[i + 1]
        } else {
            0
        };
        let hi: u8 = if n - i > 2 {
            bytes[i + 2]
        } else {
            0
        };
        let width: usize = match mode {
            AddressingMode::IMPACC => 0,
            AddressingMode::IMM | AddressingMode::RELZPG | AddressingMode::ZPX
                | AddressingMode::ZPY | AddressingMode::IDX | AddressingMode::IDY => 1,
            _ => 2,
        };
        let mut line = m.text();
        if width > 0 {
            push_char(&mut line, ' ');
            let op_text = operand_text(mode, lo, hi);
            push_str_chars(&mut line, op_text.as_str());
        }
        proof {
            assert(line@ =~= spec_line_text(m, mode, lo, hi));
        }
        let ghost pre_lines = lines@;
        lines.push((i, line));
        proof {
            assert(spec_listing_view(lines@) =~= spec_listing_view(pre_lines) + seq![
                (i as int, spec_line_text(m, mode, lo, hi)),
            ]);
        }
        let new_i = if n - i > width {
            i + 1 + width
        } else {
            n
        };
        proof {
            match spec_disassemble(bytes@, new_i as int) {
                DOut::DLines(rest) => {
                    assert((spec_listing_view(pre_lines) + (seq![
                        (i as int, spec_line_text(m, mode, lo, hi)),
                    ] + rest)) =~= spec_listing_view(lines@) + rest);
                },
                DOut::DFail(_, _) => {},
            }
        }
        i = new_i;
    }
    proof {
        assert(spec_listing_view(lines@) + Seq::<(int, Seq<char>)>::empty() =~= spec_listing_view(
            lines@,
        ));
    }
    Ok(lines)
}

} // verus!
