//! The instruction set model: the 56 mnemonics, the addressing-mode
//! taxonomy, operands, and the bidirectional mapping between (mnemonic,
//! addressing mode) pairs and the 151 legal opcode bytes.

use vstd::prelude::*;
use crate::ast::Instruction;
use crate::ast::Position;
use crate::error::AssemblerError;
use crate::error::AssemblerErrorKind;
use crate::error::AssemblerResult;
use crate::text::chars_eq_str;
use crate::text::push_char;
use crate::text::push_decimal;
use crate::text::push_hex16;
use crate::text::push_hex8;
use crate::text::push_str_chars;
use crate::text::spec_decimal_text;
use crate::text::spec_hex16;
use crate::text::spec_hex8;
use crate::text::spec_upper_char;
use crate::text::spec_upper_seq;
use crate::text::upper_char;

verus! {

/// The 56 legal mnemonics, in their conventional order.
#[derive(Debug, Copy, Clone, PartialEq, Eq, Structural)]
pub enum Mnemonics {
    ADC, AND, ASL, BCC, BCS, BEQ, BIT, BMI,
    BNE, BPL, BRK, BVC, BVS, CLC, CLD, CLI,
    CLV, CMP, CPX, CPY, DEC, DEX, DEY, EOR,
    INC, INX, INY, JMP, JSR, LDA, LDX, LDY,
    LSR, NOP, ORA, PHA, PHP, PLA, PLP, ROL,
    ROR, RTI, RTS, SBC, SEC, SED, SEI, STA,
    STX, STY, TAX, TAY, TSX, TXA, TXS, TYA,
}

/// The name each mnemonic is written as.
pub open spec fn spec_mnemonic_name(m: Mnemonics) -> Seq<char> {
    match m {
        Mnemonics::ADC => "ADC"@,
        Mnemonics::AND => "AND"@,
        Mnemonics::ASL => "ASL"@,
        Mnemonics::BCC => "BCC"@,
        Mnemonics::BCS => "BCS"@,
        Mnemonics::BEQ => "BEQ"@,
        Mnemonics::BIT => "BIT"@,
        Mnemonics::BMI => "BMI"@,
        Mnemonics::BNE => "BNE"@,
        Mnemonics::BPL => "BPL"@,
        Mnemonics::BRK => "BRK"@,
        Mnemonics::BVC => "BVC"@,
        Mnemonics::BVS => "BVS"@,
        Mnemonics::CLC => "CLC"@,
        Mnemonics::CLD => "CLD"@,
        Mnemonics::CLI => "CLI"@,
        Mnemonics::CLV => "CLV"@,
        Mnemonics::CMP => "CMP"@,
        Mnemonics::CPX => "CPX"@,
        Mnemonics::CPY => "CPY"@,
        Mnemonics::DEC => "DEC"@,
        Mnemonics::DEX => "DEX"@,
        Mnemonics::DEY => "DEY"@,
        Mnemonics::EOR => "EOR"@,
        Mnemonics::INC => "INC"@,
        Mnemonics::INX => "INX"@,
        Mnemonics::INY => "INY"@,
        Mnemonics::JMP => "JMP"@,
        Mnemonics::JSR => "JSR"@,
        Mnemonics::LDA => "LDA"@,
        Mnemonics::LDX => "LDX"@,
        Mnemonics::LDY => "LDY"@,
        Mnemonics::LSR => "LSR"@,
        Mnemonics::NOP => "NOP"@,
        Mnemonics::ORA => "ORA"@,
        Mnemonics::PHA => "PHA"@,
        Mnemonics::PHP => "PHP"@,
        Mnemonics::PLA => "PLA"@,
        Mnemonics::PLP => "PLP"@,
        Mnemonics::ROL => "ROL"@,
        Mnemonics::ROR => "ROR"@,
        Mnemonics::RTI => "RTI"@,
        Mnemonics::RTS => "RTS"@,
        Mnemonics::SBC => "SBC"@,
        Mnemonics::SEC => "SEC"@,
        Mnemonics::SED => "SED"@,
        Mnemonics::SEI => "SEI"@,
        Mnemonics::STA => "STA"@,
        Mnemonics::STX => "STX"@,
        Mnemonics::STY => "STY"@,
        Mnemonics::TAX => "TAX"@,
        Mnemonics::TAY => "TAY"@,
        Mnemonics::TSX => "TSX"@,
        Mnemonics::TXA => "TXA"@,
        Mnemonics::TXS => "TXS"@,
        Mnemonics::TYA => "TYA"@,
    }
}

/// The mnemonic a (already uppercased) name denotes, if any.
pub open spec fn spec_mnemonic_of(u: Seq<char>) -> Option<Mnemonics> {
    if u == spec_mnemonic_name(Mnemonics::ADC) {
        Some(Mnemonics::ADC)
    } else
    if u == spec_mnemonic_name(Mnemonics::AND) {
        Some(Mnemonics::AND)
    } else
    if u == spec_mnemonic_name(Mnemonics::ASL) {
        Some(Mnemonics::ASL)
    } else
    if u == spec_mnemonic_name(Mnemonics::BCC) {
        Some(Mnemonics::BCC)
    } else
    if u == spec_mnemonic_name(Mnemonics::BCS) {
        Some(Mnemonics::BCS)
    } else
    if u == spec_mnemonic_name(Mnemonics::BEQ) {
        Some(Mnemonics::BEQ)
    } else
    if u == spec_mnemonic_name(Mnemonics::BIT) {
        Some(Mnemonics::BIT)
    } else
    if u == spec_mnemonic_name(Mnemonics::BMI) {
        Some(Mnemonics::BMI)
    } else
    if u == spec_mnemonic_name(Mnemonics::BNE) {
        Some(Mnemonics::BNE)
    } else
    if u == spec_mnemonic_name(Mnemonics::BPL) {
        Some(Mnemonics::BPL)
    } else
    if u == spec_mnemonic_name(Mnemonics::BRK) {
        Some(Mnemonics::BRK)
    } else
    if u == spec_mnemonic_name(Mnemonics::BVC) {
        Some(Mnemonics::BVC)
    } else
    if u == spec_mnemonic_name(Mnemonics::BVS) {
        Some(Mnemonics::BVS)
    } else
    if u == spec_mnemonic_name(Mnemonics::CLC) {
        Some(Mnemonics::CLC)
    } else
    if u == spec_mnemonic_name(Mnemonics::CLD) {
        Some(Mnemonics::CLD)
    } else
    if u == spec_mnemonic_name(Mnemonics::CLI) {
        Some(Mnemonics::CLI)
    } else
    if u == spec_mnemonic_name(Mnemonics::CLV) {
        Some(Mnemonics::CLV)
    } else
    if u == spec_mnemonic_name(Mnemonics::CMP) {
        Some(Mnemonics::CMP)
    } else
    if u == spec_mnemonic_name(Mnemonics::CPX) {
        Some(Mnemonics::CPX)
    } else
    if u == spec_mnemonic_name(Mnemonics::CPY) {
        Some(Mnemonics::CPY)
    } else
    if u == spec_mnemonic_name(Mnemonics::DEC) {
        Some(Mnemonics::DEC)
    } else
    if u == spec_mnemonic_name(Mnemonics::DEX) {
        Some(Mnemonics::DEX)
    } else
    if u == spec_mnemonic_name(Mnemonics::DEY) {
        Some(Mnemonics::DEY)
    } else
    if u == spec_mnemonic_name(Mnemonics::EOR) {
        Some(Mnemonics::EOR)
    } else
    if u == spec_mnemonic_name(Mnemonics::INC) {
        Some(Mnemonics::INC)
    } else
    if u == spec_mnemonic_name(Mnemonics::INX) {
        Some(Mnemonics::INX)
    } else
    if u == spec_mnemonic_name(Mnemonics::INY) {
        Some(Mnemonics::INY)
    } else
    if u == spec_mnemonic_name(Mnemonics::JMP) {
        Some(Mnemonics::JMP)
    } else
    if u == spec_mnemonic_name(Mnemonics::JSR) {
        Some(Mnemonics::JSR)
    } else
    if u == spec_mnemonic_name(Mnemonics::LDA) {
        Some(Mnemonics::LDA)
    } else
    if u == spec_mnemonic_name(Mnemonics::LDX) {
        Some(Mnemonics::LDX)
    } else
    if u == spec_mnemonic_name(Mnemonics::LDY) {
        Some(Mnemonics::LDY)
    } else
    if u == spec_mnemonic_name(Mnemonics::LSR) {
        Some(Mnemonics::LSR)
    } else
    if u == spec_mnemonic_name(Mnemonics::NOP) {
        Some(Mnemonics::NOP)
    } else
    if u == spec_mnemonic_name(Mnemonics::ORA) {
        Some(Mnemonics::ORA)
    } else
    if u == spec_mnemonic_name(Mnemonics::PHA) {
        Some(Mnemonics::PHA)
    } else
    if u == spec_mnemonic_name(Mnemonics::PHP) {
        Some(Mnemonics::PHP)
    } else
    if u == spec_mnemonic_name(Mnemonics::PLA) {
        Some(Mnemonics::PLA)
    } else
    if u == spec_mnemonic_name(Mnemonics::PLP) {
        Some(Mnemonics::PLP)
    } else
    if u == spec_mnemonic_name(Mnemonics::ROL) {
        Some(Mnemonics::ROL)
    } else
    if u == spec_mnemonic_name(Mnemonics::ROR) {
        Some(Mnemonics::ROR)
    } else
    if u == spec_mnemonic_name(Mnemonics::RTI) {
        Some(Mnemonics::RTI)
    } else
    if u == spec_mnemonic_name(Mnemonics::RTS) {
        Some(Mnemonics::RTS)
    } else
    if u == spec_mnemonic_name(Mnemonics::SBC) {
        Some(Mnemonics::SBC)
    } else
    if u == spec_mnemonic_name(Mnemonics::SEC) {
        Some(Mnemonics::SEC)
    } else
    if u == spec_mnemonic_name(Mnemonics::SED) {
        Some(Mnemonics::SED)
    } else
    if u == spec_mnemonic_name(Mnemonics::SEI) {
        Some(Mnemonics::SEI)
    } else
    if u == spec_mnemonic_name(Mnemonics::STA) {
        Some(Mnemonics::STA)
    } else
    if u == spec_mnemonic_name(Mnemonics::STX) {
        Some(Mnemonics::STX)
    } else
    if u == spec_mnemonic_name(Mnemonics::STY) {
        Some(Mnemonics::STY)
    } else
    if u == spec_mnemonic_name(Mnemonics::TAX) {
        Some(Mnemonics::TAX)
    } else
    if u == spec_mnemonic_name(Mnemonics::TAY) {
        Some(Mnemonics::TAY)
    } else
    if u == spec_mnemonic_name(Mnemonics::TSX) {
        Some(Mnemonics::TSX)
    } else
    if u == spec_mnemonic_name(Mnemonics::TXA) {
        Some(Mnemonics::TXA)
    } else
    if u == spec_mnemonic_name(Mnemonics::TXS) {
        Some(Mnemonics::TXS)
    } else
    if u == spec_mnemonic_name(Mnemonics::TYA) {
        Some(Mnemonics::TYA)
    } else {
        None
    }
}

/// The eight branch mnemonics, which take a relative 8-bit displacement.
pub open spec fn spec_is_branch(m: Mnemonics) -> bool {
    match m {
        Mnemonics::BCC | Mnemonics::BCS | Mnemonics::BEQ | Mnemonics::BMI | Mnemonics::BNE
            | Mnemonics::BPL | Mnemonics::BVC | Mnemonics::BVS => true,
        _ => false,
    }
}

impl Mnemonics {
    /// Whether this is one of the eight branch mnemonics.
    pub fn is_branch(&self) -> (r: bool)
        ensures
            r == spec_is_branch(*self),
    {
        match self {
            Mnemonics::BCC | Mnemonics::BCS | Mnemonics::BEQ | Mnemonics::BMI | Mnemonics::BNE
                | Mnemonics::BPL | Mnemonics::BVC | Mnemonics::BVS => true,
            _ => false,
        }
    }

    /// The mnemonic a source identifier names, compared after mapping
    /// the identifier to uppercase; unknown names are rejected as
    /// `InvalidMnemonic` at the given position.
    pub fn to_mnemonics(s: &str, position: Position) -> (r: AssemblerResult<Mnemonics>)
        ensures
            match r {
                Ok(m) => spec_mnemonic_of(spec_upper_seq(s@)) == Some(m),
                Err(e) => spec_mnemonic_of(spec_upper_seq(s@)) is None && e.position == position
                    && (e.kind matches AssemblerErrorKind::InvalidMnemonic(t) && t@ == s@),
            },
    {
        let n = s.unicode_len();
        let mut up: Vec<char> = Vec::new();
        let mut i: usize = 0;
        while i < n
            invariant
                n == s@.len(),
                i <= n,
                up@.len() == i,
                forall|j: int| 0 <= j < i ==> up@[j] == spec_upper_char(s@[j]),
            decreases n - i,
        {
            up.push(upper_char(s.get_char(i)));
            i = i + 1;
        }
        assert(up@ =~= spec_upper_seq(s@));
        if chars_eq_str(&up, "ADC") {
            return Ok(Mnemonics::ADC);
        }
        if chars_eq_str(&up, "AND") {
            return Ok(Mnemonics::AND);
        }
        if chars_eq_str(&up, "ASL") {
            return Ok(Mnemonics::ASL);
        }
        if chars_eq_str(&up, "BCC") {
            return Ok(Mnemonics::BCC);
        }
        if chars_eq_str(&up, "BCS") {
            return Ok(Mnemonics::BCS);
        }
        if chars_eq_str(&up, "BEQ") {
            return Ok(Mnemonics::BEQ);
        }
        if chars_eq_str(&up, "BIT") {
            return Ok(Mnemonics::BIT);
        }
        if chars_eq_str(&up, "BMI") {
            return Ok(Mnemonics::BMI);
        }
        if chars_eq_str(&up, "BNE") {
            return Ok(Mnemonics::BNE);
        }
        if chars_eq_str(&up, "BPL") {
            return Ok(Mnemonics::BPL);
        }
        if chars_eq_str(&up, "BRK") {
            return Ok(Mnemonics::BRK);
        }
        if chars_eq_str(&up, "BVC") {
            return Ok(Mnemonics::BVC);
        }
        if chars_eq_str(&up, "BVS") {
            return Ok(Mnemonics::BVS);
        }
        if chars_eq_str(&up, "CLC") {
            return Ok(Mnemonics::CLC);
        }
        if chars_eq_str(&up, "CLD") {
            return Ok(Mnemonics::CLD);
        }
        if chars_eq_str(&up, "CLI") {
            return Ok(Mnemonics::CLI);
        }
        if chars_eq_str(&up, "CLV") {
            return Ok(Mnemonics::CLV);
        }
        if chars_eq_str(&up, "CMP") {
            return Ok(Mnemonics::CMP);
        }
        if chars_eq_str(&up, "CPX") {
            return Ok(Mnemonics::CPX);
        }
        if chars_eq_str(&up, "CPY") {
            return Ok(Mnemonics::CPY);
        }
        if chars_eq_str(&up, "DEC") {
            return Ok(Mnemonics::DEC);
        }
        if chars_eq_str(&up, "DEX") {
            return Ok(Mnemonics::DEX);
        }
        if chars_eq_str(&up, "DEY") {
            return Ok(Mnemonics::DEY);
        }
        if chars_eq_str(&up, "EOR") {
            return Ok(Mnemonics::EOR);
        }
        if chars_eq_str(&up, "INC") {
            return Ok(Mnemonics::INC);
        }
        if chars_eq_str(&up, "INX") {
            return Ok(Mnemonics::INX);
        }
        if chars_eq_str(&up, "INY") {
            return Ok(Mnemonics::INY);
        }
        if chars_eq_str(&up, "JMP") {
            return Ok(Mnemonics::JMP);
        }
        if chars_eq_str(&up, "JSR") {
            return Ok(Mnemonics::JSR);
        }
        if chars_eq_str(&up, "LDA") {
            return Ok(Mnemonics::LDA);
        }
        if chars_eq_str(&up, "LDX") {
            return Ok(Mnemonics::LDX);
        }
        if chars_eq_str(&up, "LDY") {
            return Ok(Mnemonics::LDY);
        }
        if chars_eq_str(&up, "LSR") {
            return Ok(Mnemonics::LSR);
        }
        if chars_eq_str(&up, "NOP") {
            return Ok(Mnemonics::NOP);
        }
        if chars_eq_str(&up, "ORA") {
            return Ok(Mnemonics::ORA);
        }
        if chars_eq_str(&up, "PHA") {
            return Ok(Mnemonics::PHA);
        }
        if chars_eq_str(&up, "PHP") {
            return Ok(Mnemonics::PHP);
        }
        if chars_eq_str(&up, "PLA") {
            return Ok(Mnemonics::PLA);
        }
        if chars_eq_str(&up, "PLP") {
            return Ok(Mnemonics::PLP);
        }
        if chars_eq_str(&up, "ROL") {
            return Ok(Mnemonics::ROL);
        }
        if chars_eq_str(&up, "ROR") {
            return Ok(Mnemonics::ROR);
        }
        if chars_eq_str(&up, "RTI") {
            return Ok(Mnemonics::RTI);
        }
        if chars_eq_str(&up, "RTS") {
            return Ok(Mnemonics::RTS);
        }
        if chars_eq_str(&up, "SBC") {
            return Ok(Mnemonics::SBC);
        }
        if chars_eq_str(&up, "SEC") {
            return Ok(Mnemonics::SEC);
        }
        if chars_eq_str(&up, "SED") {
            return Ok(Mnemonics::SED);
        }
        if chars_eq_str(&up, "SEI") {
            return Ok(Mnemonics::SEI);
        }
        if chars_eq_str(&up, "STA") {
            return Ok(Mnemonics::STA);
        }
        if chars_eq_str(&up, "STX") {
            return Ok(Mnemonics::STX);
        }
        if chars_eq_str(&up, "STY") {
            return Ok(Mnemonics::STY);
        }
        if chars_eq_str(&up, "TAX") {
            return Ok(Mnemonics::TAX);
        }
        if chars_eq_str(&up, "TAY") {
            return Ok(Mnemonics::TAY);
        }
        if chars_eq_str(&up, "TSX") {
            return Ok(Mnemonics::TSX);
        }
        if chars_eq_str(&up, "TXA") {
            return Ok(Mnemonics::TXA);
        }
        if chars_eq_str(&up, "TXS") {
            return Ok(Mnemonics::TXS);
        }
        if chars_eq_str(&up, "TYA") {
            return Ok(Mnemonics::TYA);
        }
        Err(AssemblerError::new(AssemblerErrorKind::InvalidMnemonic(s.to_owned()), position))
    }

    /// The uppercase name of the mnemonic.
    pub fn text(&self) -> (r: String)
        ensures
            r@ == spec_mnemonic_name(*self),
    {
        let mut out = String::new();
        match self {
            Mnemonics::ADC => push_str_chars(&mut out, "ADC"),
            Mnemonics::AND => push_str_chars(&mut out, "AND"),
            Mnemonics::ASL => push_str_chars(&mut out, "ASL"),
            Mnemonics::BCC => push_str_chars(&mut out, "BCC"),
            Mnemonics::BCS => push_str_chars(&mut out, "BCS"),
            Mnemonics::BEQ => push_str_chars(&mut out, "BEQ"),
            Mnemonics::BIT => push_str_chars(&mut out, "BIT"),
            Mnemonics::BMI => push_str_chars(&mut out, "BMI"),
            Mnemonics::BNE => push_str_chars(&mut out, "BNE"),
            Mnemonics::BPL => push_str_chars(&mut out, "BPL"),
            Mnemonics::BRK => push_str_chars(&mut out, "BRK"),
            Mnemonics::BVC => push_str_chars(&mut out, "BVC"),
            Mnemonics::BVS => push_str_chars(&mut out, "BVS"),
            Mnemonics::CLC => push_str_chars(&mut out, "CLC"),
            Mnemonics::CLD => push_str_chars(&mut out, "CLD"),
            Mnemonics::CLI => push_str_chars(&mut out, "CLI"),
            Mnemonics::CLV => push_str_chars(&mut out, "CLV"),
            Mnemonics::CMP => push_str_chars(&mut out, "CMP"),
            Mnemonics::CPX => push_str_chars(&mut out, "CPX"),
            Mnemonics::CPY => push_str_chars(&mut out, "CPY"),
            Mnemonics::DEC => push_str_chars(&mut out, "DEC"),
            Mnemonics::DEX => push_str_chars(&mut out, "DEX"),
            Mnemonics::DEY => push_str_chars(&mut out, "DEY"),
            Mnemonics::EOR => push_str_chars(&mut out, "EOR"),
            Mnemonics::INC => push_str_chars(&mut out, "INC"),
            Mnemonics::INX => push_str_chars(&mut out, "INX"),
            Mnemonics::INY => push_str_chars(&mut out, "INY"),
            Mnemonics::JMP => push_str_chars(&mut out, "JMP"),
            Mnemonics::JSR => push_str_chars(&mut out, "JSR"),
            Mnemonics::LDA => push_str_chars(&mut out, "LDA"),
            Mnemonics::LDX => push_str_chars(&mut out, "LDX"),
            Mnemonics::LDY => push_str_chars(&mut out, "LDY"),
            Mnemonics::LSR => push_str_chars(&mut out, "LSR"),
            Mnemonics::NOP => push_str_chars(&mut out, "NOP"),
            Mnemonics::ORA => push_str_chars(&mut out, "ORA"),
            Mnemonics::PHA => push_str_chars(&mut out, "PHA"),
            Mnemonics::PHP => push_str_chars(&mut out, "PHP"),
            Mnemonics::PLA => push_str_chars(&mut out, "PLA"),
            Mnemonics::PLP => push_str_chars(&mut out, "PLP"),
            Mnemonics::ROL => push_str_chars(&mut out, "ROL"),
            Mnemonics::ROR => push_str_chars(&mut out, "ROR"),
            Mnemonics::RTI => push_str_chars(&mut out, "RTI"),
            Mnemonics::RTS => push_str_chars(&mut out, "RTS"),
            Mnemonics::SBC => push_str_chars(&mut out, "SBC"),
            Mnemonics::SEC => push_str_chars(&mut out, "SEC"),
            Mnemonics::SED => push_str_chars(&mut out, "SED"),
            Mnemonics::SEI => push_str_chars(&mut out, "SEI"),
            Mnemonics::STA => push_str_chars(&mut out, "STA"),
            Mnemonics::STX => push_str_chars(&mut out, "STX"),
            Mnemonics::STY => push_str_chars(&mut out, "STY"),
            Mnemonics::TAX => push_str_chars(&mut out, "TAX"),
            Mnemonics::TAY => push_str_chars(&mut out, "TAY"),
            Mnemonics::TSX => push_str_chars(&mut out, "TSX"),
            Mnemonics::TXA => push_str_chars(&mut out, "TXA"),
            Mnemonics::TXS => push_str_chars(&mut out, "TXS"),
            Mnemonics::TYA => push_str_chars(&mut out, "TYA"),
        }
        out
    }
}

/// The addressing-mode tags the parser and encoder work with. `RELZPG`
/// stands for relative-or-zero-page and `IMPACC` for
/// implicit-or-accumulator; both are resolved by the mnemonic at encode
/// time.
#[derive(Debug, Copy, Clone, PartialEq, Eq, Structural)]
pub enum AddressingMode {
    IMM,
    ABS,
    ABX,
    ABY,
    IND,
    IDX,
    IDY,
    ZPX,
    ZPY,
    RELZPG,
    IMPACC,
}

impl AddressingMode {
    /// The tag's name, as error messages print it.
    pub open spec fn describe(&self) -> Seq<char> {
        match self {
            AddressingMode::IMM => "IMM"@,
            AddressingMode::ABS => "ABS"@,
            AddressingMode::ABX => "ABX"@,
            AddressingMode::ABY => "ABY"@,
            AddressingMode::IND => "IND"@,
            AddressingMode::IDX => "IDX"@,
            AddressingMode::IDY => "IDY"@,
            AddressingMode::ZPX => "ZPX"@,
            AddressingMode::ZPY => "ZPY"@,
            AddressingMode::RELZPG => "RELZPG"@,
            AddressingMode::IMPACC => "IMPACC"@,
        }
    }

    /// Render the tag's name.
    pub fn text(&self) -> (r: String)
        ensures
            r@ == self.describe(),
    {
        let mut out = String::new();
        match self {
            AddressingMode::IMM => push_str_chars(&mut out, "IMM"),
            AddressingMode::ABS => push_str_chars(&mut out, "ABS"),
            AddressingMode::ABX => push_str_chars(&mut out, "ABX"),
            AddressingMode::ABY => push_str_chars(&mut out, "ABY"),
            AddressingMode::IND => push_str_chars(&mut out, "IND"),
            AddressingMode::IDX => push_str_chars(&mut out, "IDX"),
            AddressingMode::IDY => push_str_chars(&mut out, "IDY"),
            AddressingMode::ZPX => push_str_chars(&mut out, "ZPX"),
            AddressingMode::ZPY => push_str_chars(&mut out, "ZPY"),
            AddressingMode::RELZPG => push_str_chars(&mut out, "RELZPG"),
            AddressingMode::IMPACC => push_str_chars(&mut out, "IMPACC"),
        }
        out
    }
}
/// Number and label operands as the parser classifies them.
#[derive(Debug, Clone, Copy, PartialEq, Eq, Structural)]
pub enum NumberType {
    Decimal8(u8),
    Decimal16(u16),
    Hexadecimal8(u8),
    Hexadecimal16(u16),
}

#[derive(Debug, Clone, PartialEq)]
pub enum OperandData {
    Number(NumberType),
    Label(String),
}

/// The mathematical image of an operand value: a number, or a label name
/// as a character sequence.
pub enum OperandDataV {
    Number(NumberType),
    Label(Seq<char>),
}

impl View for OperandData {
    type V = OperandDataV;

    open spec fn view(&self) -> OperandDataV {
        match self {
            OperandData::Number(n) => OperandDataV::Number(*n),
            OperandData::Label(s) => OperandDataV::Label(s@),
        }
    }
}

/// The rendering of an operand value: the number's text, or the label
/// name itself.
pub open spec fn describe_data(v: OperandDataV) -> Seq<char> {
    match v {
        OperandDataV::Number(n) => n.describe(),
        OperandDataV::Label(s) => s,
    }
}

impl NumberType {
    /// The rendering of the number: decimal numbers in decimal,
    /// hexadecimal ones with a `$` and zero-padded to their width.
    pub open spec fn describe(&self) -> Seq<char> {
        match self {
            NumberType::Decimal8(n) => spec_decimal_text(*n as int),
            NumberType::Decimal16(n) => spec_decimal_text(*n as int),
            NumberType::Hexadecimal8(n) => "$"@ + spec_hex8(*n),
            NumberType::Hexadecimal16(n) => "$"@ + spec_hex16(*n),
        }
    }

    /// Render the number.
    pub fn text(&self) -> (r: String)
        ensures
            r@ == self.describe(),
    {
        let mut out = String::new();
        match self {
            NumberType::Decimal8(n) => push_decimal(&mut out, *n as usize),
            NumberType::Decimal16(n) => push_decimal(&mut out, *n as usize),
            NumberType::Hexadecimal8(n) => {
                push_char(&mut out, '$');
                push_hex8(&mut out, *n);
                proof {
                    reveal_strlit("$");
                }
            },
            NumberType::Hexadecimal16(n) => {
                push_char(&mut out, '$');
                push_hex16(&mut out, *n);
                proof {
                    reveal_strlit("$");
                }
            },
        }
        assert(out@ =~= self.describe());
        out
    }
}

impl OperandData {
    pub fn is_number(&self) -> (r: bool)
        ensures
            r == (self matches OperandData::Number(_)),
    {
        matches!(self, OperandData::Number(_))
    }

    pub fn is_label(&self) -> (r: bool)
        ensures
            r == (self matches OperandData::Label(_)),
    {
        matches!(self, OperandData::Label(_))
    }

    pub fn is_dec_8(&self) -> (r: bool)
        ensures
            r == (self matches OperandData::Number(NumberType::Decimal8(_))),
    {
        matches!(self, OperandData::Number(NumberType::Decimal8(_)))
    }

    pub fn is_dec_16(&self) -> (r: bool)
        ensures
            r == (self matches OperandData::Number(NumberType::Decimal16(_))),
    {
        matches!(self, OperandData::Number(NumberType::Decimal16(_)))
    }

    pub fn is_hex_8(&self) -> (r: bool)
        ensures
            r == (self matches OperandData::Number(NumberType::Hexadecimal8(_))),
    {
        matches!(self, OperandData::Number(NumberType::Hexadecimal8(_)))
    }

    pub fn is_hex_16(&self) -> (r: bool)
        ensures
            r == (self matches OperandData::Number(NumberType::Hexadecimal16(_))),
    {
        matches!(self, OperandData::Number(NumberType::Hexadecimal16(_)))
    }

    /// Whether the operand is an 8-bit number, decimal or hexadecimal.
    pub fn is_8(&self) -> (r: bool)
        ensures
            r == (self matches OperandData::Number(NumberType::Decimal8(_)) || self matches OperandData::Number(NumberType::Hexadecimal8(_))),
    {
        self.is_dec_8() || self.is_hex_8()
    }

    /// The rendering of the operand value: the number's text, or the
    /// label name itself.
    pub open spec fn describe(&self) -> Seq<char> {
        describe_data(self@)
    }

    /// An exact copy of the operand value.
    pub fn duplicate(&self) -> (r: OperandData)
        ensures
            r == *self,
    {
        match self {
            OperandData::Number(n) => OperandData::Number(*n),
            OperandData::Label(s) => OperandData::Label(s.clone()),
        }
    }

    /// Render the operand value.
    pub fn text(&self) -> (r: String)
        ensures
            r@ == self.describe(),
    {
        match self {
            OperandData::Number(n) => n.text(),
            OperandData::Label(s) => {
                let mut out = String::new();
                push_str_chars(&mut out, s.as_str());
                assert(out@ =~= s@);
                out
            },
        }
    }
}

/// An addressing mode together with the operand value, where one is
/// written.
#[derive(Debug, Clone, PartialEq)]
pub struct Operand {
    pub addressing_mode: AddressingMode,
    pub value: Option<OperandData>,
}

/// The mathematical image of an operand.
pub struct OperandV {
    pub addressing_mode: AddressingMode,
    pub value: Option<OperandDataV>,
}

impl View for Operand {
    type V = OperandV;

    open spec fn view(&self) -> OperandV {
        OperandV {
            addressing_mode: self.addressing_mode,
            value: match &self.value {
                Some(v) => Some(v@),
                None => None,
            },
        }
    }
}

impl Operand {
    pub fn new(addressing_mode: AddressingMode, value: Option<OperandData>) -> (r: Operand)
        ensures
            r == (Operand { addressing_mode, value }),
    {
        Operand { addressing_mode, value }
    }

    /// An exact copy of the operand.
    pub fn duplicate(&self) -> (r: Operand)
        ensures
            r == *self,
    {
        Operand {
            addressing_mode: self.addressing_mode,
            value: match &self.value {
                Some(v) => Some(v.duplicate()),
                None => None,
            },
        }
    }
}

/// The opcode byte of each of the legal (mnemonic, addressing mode)
/// pairs. For `JMP` and `JSR` a label operand parses as `RELZPG`, which
/// aliases to the absolute opcode.
pub open spec fn spec_encode(m: Mnemonics, mode: AddressingMode) -> Option<u8> {
    match (m, mode) {
        (Mnemonics::ADC, AddressingMode::IMM) => Some(0x69),
        (Mnemonics::ADC, AddressingMode::RELZPG) => Some(0x65),
        (Mnemonics::ADC, AddressingMode::ZPX) => Some(0x75),
        (Mnemonics::ADC, AddressingMode::ABS) => Some(0x6D),
        (Mnemonics::ADC, AddressingMode::ABX) => Some(0x7D),
        (Mnemonics::ADC, AddressingMode::ABY) => Some(0x79),
        (Mnemonics::ADC, AddressingMode::IDX) => Some(0x61),
        (Mnemonics::ADC, AddressingMode::IDY) => Some(0x71),
        (Mnemonics::AND, AddressingMode::IMM) => Some(0x29),
        (Mnemonics::AND, AddressingMode::RELZPG) => Some(0x25),
        (Mnemonics::AND, AddressingMode::ZPX) => Some(0x35),
        (Mnemonics::AND, AddressingMode::ABS) => Some(0x2D),
        (Mnemonics::AND, AddressingMode::ABX) => Some(0x3D),
        (Mnemonics::AND, AddressingMode::ABY) => Some(0x39),
        (Mnemonics::AND, AddressingMode::IDX) => Some(0x21),
        (Mnemonics::AND, AddressingMode::IDY) => Some(0x31),
        (Mnemonics::ASL, AddressingMode::IMPACC) => Some(0x0A),
        (Mnemonics::ASL, AddressingMode::RELZPG) => Some(0x06),
        (Mnemonics::ASL, AddressingMode::ZPX) => Some(0x16),
        (Mnemonics::ASL, AddressingMode::ABS) => Some(0x0E),
        (Mnemonics::ASL, AddressingMode::ABX) => Some(0x1E),
        (Mnemonics::BCC, AddressingMode::RELZPG) => Some(0x90),
        (Mnemonics::BCS, AddressingMode::RELZPG) => Some(0xB0),
        (Mnemonics::BEQ, AddressingMode::RELZPG) => Some(0xF0),
        (Mnemonics::BIT, AddressingMode::RELZPG) => Some(0x24),
        (Mnemonics::BIT, AddressingMode::ABS) => Some(0x2C),
        (Mnemonics::BMI, AddressingMode::RELZPG) => Some(0x30),
        (Mnemonics::BNE, AddressingMode::RELZPG) => Some(0xD0),
        (Mnemonics::BPL, AddressingMode::RELZPG) => Some(0x10),
        (Mnemonics::BRK, AddressingMode::IMPACC) => Some(0x00),
        (Mnemonics::BVC, AddressingMode::RELZPG) => Some(0x50),
        (Mnemonics::BVS, AddressingMode::RELZPG) => Some(0x70),
        (Mnemonics::CLC, AddressingMode::IMPACC) => Some(0x18),
        (Mnemonics::CLD, AddressingMode::IMPACC) => Some(0xD8),
        (Mnemonics::CLI, AddressingMode::IMPACC) => Some(0x58),
        (Mnemonics::CLV, AddressingMode::IMPACC) => Some(0xB8),
        (Mnemonics::CMP, AddressingMode::IMM) => Some(0xC9),
        (Mnemonics::CMP, AddressingMode::RELZPG) => Some(0xC5),
        (Mnemonics::CMP, AddressingMode::ZPX) => Some(0xD5),
        (Mnemonics::CMP, AddressingMode::ABS) => Some(0xCD),
        (Mnemonics::CMP, AddressingMode::ABX) => Some(0xDD),
        (Mnemonics::CMP, AddressingMode::ABY) => Some(0xD9),
        (Mnemonics::CMP, AddressingMode::IDX) => Some(0xC1),
        (Mnemonics::CMP, AddressingMode::IDY) => Some(0xD1),
        (Mnemonics::CPX, AddressingMode::IMM) => Some(0xE0),
        (Mnemonics::CPX, AddressingMode::RELZPG) => Some(0xE4),
        (Mnemonics::CPX, AddressingMode::ABS) => Some(0xEC),
        (Mnemonics::CPY, AddressingMode::IMM) => Some(0xC0),
        (Mnemonics::CPY, AddressingMode::RELZPG) => Some(0xC4),
        (Mnemonics::CPY, AddressingMode::ABS) => Some(0xCC),
        (Mnemonics::DEC, AddressingMode::RELZPG) => Some(0xC6),
        (Mnemonics::DEC, AddressingMode::ZPX) => Some(0xD6),
        (Mnemonics::DEC, AddressingMode::ABS) => Some(0xCE),
        (Mnemonics::DEC, AddressingMode::ABX) => Some(0xDE),
        (Mnemonics::DEX, AddressingMode::IMPACC) => Some(0xCA),
        (Mnemonics::DEY, AddressingMode::IMPACC) => Some(0x88),
        (Mnemonics::EOR, AddressingMode::IMM) => Some(0x49),
        (Mnemonics::EOR, AddressingMode::RELZPG) => Some(0x45),
        (Mnemonics::EOR, AddressingMode::ZPX) => Some(0x55),
        (Mnemonics::EOR, AddressingMode::ABS) => Some(0x4D),
        (Mnemonics::EOR, AddressingMode::ABX) => Some(0x5D),
        (Mnemonics::EOR, AddressingMode::ABY) => Some(0x59),
        (Mnemonics::EOR, AddressingMode::IDX) => Some(0x41),
        (Mnemonics::EOR, AddressingMode::IDY) => Some(0x51),
        (Mnemonics::INC, AddressingMode::RELZPG) => Some(0xE6),
        (Mnemonics::INC, AddressingMode::ZPX) => Some(0xF6),
        (Mnemonics::INC, AddressingMode::ABS) => Some(0xEE),
        (Mnemonics::INC, AddressingMode::ABX) => Some(0xFE),
        (Mnemonics::INX, AddressingMode::IMPACC) => Some(0xE8),
        (Mnemonics::INY, AddressingMode::IMPACC) => Some(0xC8),
        (Mnemonics::JMP, AddressingMode::RELZPG) => Some(0x4C),
        (Mnemonics::JMP, AddressingMode::ABS) => Some(0x4C),
        (Mnemonics::JMP, AddressingMode::IND) => Some(0x6C),
        (Mnemonics::JSR, AddressingMode::RELZPG) => Some(0x20),
        (Mnemonics::JSR, AddressingMode::ABS) => Some(0x20),
        (Mnemonics::LDA, AddressingMode::IMM) => Some(0xA9),
        (Mnemonics::LDA, AddressingMode::RELZPG) => Some(0xA5),
        (Mnemonics::LDA, AddressingMode::ZPX) => Some(0xB5),
        (Mnemonics::LDA, AddressingMode::ABS) => Some(0xAD),
        (Mnemonics::LDA, AddressingMode::ABX) => Some(0xBD),
        (Mnemonics::LDA, AddressingMode::ABY) => Some(0xB9),
        (Mnemonics::LDA, AddressingMode::IDX) => Some(0xA1),
        (Mnemonics::LDA, AddressingMode::IDY) => Some(0xB1),
        (Mnemonics::LDX, AddressingMode::IMM) => Some(0xA2),
        (Mnemonics::LDX, AddressingMode::RELZPG) => Some(0xA6),
        (Mnemonics::LDX, AddressingMode::ZPY) => Some(0xB6),
        (Mnemonics::LDX, AddressingMode::ABS) => Some(0xAE),
        (Mnemonics::LDX, AddressingMode::ABY) => Some(0xBE),
        (Mnemonics::LDY, AddressingMode::IMM) => Some(0xA0),
        (Mnemonics::LDY, AddressingMode::RELZPG) => Some(0xA4),
        (Mnemonics::LDY, AddressingMode::ZPX) => Some(0xB4),
        (Mnemonics::LDY, AddressingMode::ABS) => Some(0xAC),
        (Mnemonics::LDY, AddressingMode::ABX) => Some(0xBC),
        (Mnemonics::LSR, AddressingMode::IMPACC) => Some(0x4A),
        (Mnemonics::LSR, AddressingMode::RELZPG) => Some(0x46),
        (Mnemonics::LSR, AddressingMode::ZPX) => Some(0x56),
        (Mnemonics::LSR, AddressingMode::ABS) => Some(0x4E),
        (Mnemonics::LSR, AddressingMode::ABX) => Some(0x5E),
        (Mnemonics::NOP, AddressingMode::IMPACC) => Some(0xEA),
        (Mnemonics::ORA, AddressingMode::IMM) => Some(0x09),
        (Mnemonics::ORA, AddressingMode::RELZPG) => Some(0x05),
        (Mnemonics::ORA, AddressingMode::ZPX) => Some(0x15),
        (Mnemonics::ORA, AddressingMode::ABS) => Some(0x0D),
        (Mnemonics::ORA, AddressingMode::ABX) => Some(0x1D),
        (Mnemonics::ORA, AddressingMode::ABY) => Some(0x19),
        (Mnemonics::ORA, AddressingMode::IDX) => Some(0x01),
        (Mnemonics::ORA, AddressingMode::IDY) => Some(0x11),
        (Mnemonics::PHA, AddressingMode::IMPACC) => Some(0x48),
        (Mnemonics::PHP, AddressingMode::IMPACC) => Some(0x08),
        (Mnemonics::PLA, AddressingMode::IMPACC) => Some(0x68),
        (Mnemonics::PLP, AddressingMode::IMPACC) => Some(0x28),
        (Mnemonics::ROL, AddressingMode::IMPACC) => Some(0x2A),
        (Mnemonics::ROL, AddressingMode::RELZPG) => Some(0x26),
        (Mnemonics::ROL, AddressingMode::ZPX) => Some(0x36),
        (Mnemonics::ROL, AddressingMode::ABS) => Some(0x2E),
        (Mnemonics::ROL, AddressingMode::ABX) => Some(0x3E),
        (Mnemonics::ROR, AddressingMode::IMPACC) => Some(0x6A),
        (Mnemonics::ROR, AddressingMode::RELZPG) => Some(0x66),
        (Mnemonics::ROR, AddressingMode::ZPX) => Some(0x76),
        (Mnemonics::ROR, AddressingMode::ABS) => Some(0x6E),
        (Mnemonics::ROR, AddressingMode::ABX) => Some(0x7E),
        (Mnemonics::RTI, AddressingMode::IMPACC) => Some(0x40),
        (Mnemonics::RTS, AddressingMode::IMPACC) => Some(0x60),
        (Mnemonics::SBC, AddressingMode::IMM) => Some(0xE9),
        (Mnemonics::SBC, AddressingMode::RELZPG) => Some(0xE5),
        (Mnemonics::SBC, AddressingMode::ZPX) => Some(0xF5),
        (Mnemonics::SBC, AddressingMode::ABS) => Some(0xED),
        (Mnemonics::SBC, AddressingMode::ABX) => Some(0xFD),
        (Mnemonics::SBC, AddressingMode::ABY) => Some(0xF9),
        (Mnemonics::SBC, AddressingMode::IDX) => Some(0xE1),
        (Mnemonics::SBC, AddressingMode::IDY) => Some(0xF1),
        (Mnemonics::SEC, AddressingMode::IMPACC) => Some(0x38),
        (Mnemonics::SED, AddressingMode::IMPACC) => Some(0xF8),
        (Mnemonics::SEI, AddressingMode::IMPACC) => Some(0x78),
        (Mnemonics::STA, AddressingMode::RELZPG) => Some(0x85),
        (Mnemonics::STA, AddressingMode::ZPX) => Some(0x95),
        (Mnemonics::STA, AddressingMode::ABS) => Some(0x8D),
        (Mnemonics::STA, AddressingMode::ABX) => Some(0x9D),
        (Mnemonics::STA, AddressingMode::ABY) => Some(0x99),
        (Mnemonics::STA, AddressingMode::IDX) => Some(0x81),
        (Mnemonics::STA, AddressingMode::IDY) => Some(0x91),
        (Mnemonics::STX, AddressingMode::RELZPG) => Some(0x86),
        (Mnemonics::STX, AddressingMode::ZPY) => Some(0x96),
        (Mnemonics::STX, AddressingMode::ABS) => Some(0x8E),
        (Mnemonics::STY, AddressingMode::RELZPG) => Some(0x84),
        (Mnemonics::STY, AddressingMode::ZPX) => Some(0x94),
        (Mnemonics::STY, AddressingMode::ABS) => Some(0x8C),
        (Mnemonics::TAX, AddressingMode::IMPACC) => Some(0xAA),
        (Mnemonics::TAY, AddressingMode::IMPACC) => Some(0xA8),
        (Mnemonics::TSX, AddressingMode::IMPACC) => Some(0xBA),
        (Mnemonics::TXA, AddressingMode::IMPACC) => Some(0x8A),
        (Mnemonics::TXS, AddressingMode::IMPACC) => Some(0x9A),
        (Mnemonics::TYA, AddressingMode::IMPACC) => Some(0x98),
        _ => None,
    }
}

/// The (mnemonic, addressing mode) pair each legal opcode byte decodes
/// to.
pub open spec fn spec_decode(b: u8) -> Option<(Mnemonics, AddressingMode)> {
    match b {
        0x69 => Some((Mnemonics::ADC, AddressingMode::IMM)),
        0x65 => Some((Mnemonics::ADC, AddressingMode::RELZPG)),
        0x75 => Some((Mnemonics::ADC, AddressingMode::ZPX)),
        0x6D => Some((Mnemonics::ADC, AddressingMode::ABS)),
        0x7D => Some((Mnemonics::ADC, AddressingMode::ABX)),
        0x79 => Some((Mnemonics::ADC, AddressingMode::ABY)),
        0x61 => Some((Mnemonics::ADC, AddressingMode::IDX)),
        0x71 => Some((Mnemonics::ADC, AddressingMode::IDY)),
        0x29 => Some((Mnemonics::AND, AddressingMode::IMM)),
        0x25 => Some((Mnemonics::AND, AddressingMode::RELZPG)),
        0x35 => Some((Mnemonics::AND, AddressingMode::ZPX)),
        0x2D => Some((Mnemonics::AND, AddressingMode::ABS)),
        0x3D => Some((Mnemonics::AND, AddressingMode::ABX)),
        0x39 => Some((Mnemonics::AND, AddressingMode::ABY)),
        0x21 => Some((Mnemonics::AND, AddressingMode::IDX)),
        0x31 => Some((Mnemonics::AND, AddressingMode::IDY)),
        0x0A => Some((Mnemonics::ASL, AddressingMode::IMPACC)),
        0x06 => Some((Mnemonics::ASL, AddressingMode::RELZPG)),
        0x16 => Some((Mnemonics::ASL, AddressingMode::ZPX)),
        0x0E => Some((Mnemonics::ASL, AddressingMode::ABS)),
        0x1E => Some((Mnemonics::ASL, AddressingMode::ABX)),
        0x90 => Some((Mnemonics::BCC, AddressingMode::RELZPG)),
        0xB0 => Some((Mnemonics::BCS, AddressingMode::RELZPG)),
        0xF0 => Some((Mnemonics::BEQ, AddressingMode::RELZPG)),
        0x24 => Some((Mnemonics::BIT, AddressingMode::RELZPG)),
        0x2C => Some((Mnemonics::BIT, AddressingMode::ABS)),
        0x30 => Some((Mnemonics::BMI, AddressingMode::RELZPG)),
        0xD0 => Some((Mnemonics::BNE, AddressingMode::RELZPG)),
        0x10 => Some((Mnemonics::BPL, AddressingMode::RELZPG)),
        0x00 => Some((Mnemonics::BRK, AddressingMode::IMPACC)),
        0x50 => Some((Mnemonics::BVC, AddressingMode::RELZPG)),
        0x70 => Some((Mnemonics::BVS, AddressingMode::RELZPG)),
        0x18 => Some((Mnemonics::CLC, AddressingMode::IMPACC)),
        0xD8 => Some((Mnemonics::CLD, AddressingMode::IMPACC)),
        0x58 => Some((Mnemonics::CLI, AddressingMode::IMPACC)),
        0xB8 => Some((Mnemonics::CLV, AddressingMode::IMPACC)),
        0xC9 => Some((Mnemonics::CMP, AddressingMode::IMM)),
        0xC5 => Some((Mnemonics::CMP, AddressingMode::RELZPG)),
        0xD5 => Some((Mnemonics::CMP, AddressingMode::ZPX)),
        0xCD => Some((Mnemonics::CMP, AddressingMode::ABS)),
        0xDD => Some((Mnemonics::CMP, AddressingMode::ABX)),
        0xD9 => Some((Mnemonics::CMP, AddressingMode::ABY)),
        0xC1 => Some((Mnemonics::CMP, AddressingMode::IDX)),
        0xD1 => Some((Mnemonics::CMP, AddressingMode::IDY)),
        0xE0 => Some((Mnemonics::CPX, AddressingMode::IMM)),
        0xE4 => Some((Mnemonics::CPX, AddressingMode::RELZPG)),
        0xEC => Some((Mnemonics::CPX, AddressingMode::ABS)),
        0xC0 => Some((Mnemonics::CPY, AddressingMode::IMM)),
        0xC4 => Some((Mnemonics::CPY, AddressingMode::RELZPG)),
        0xCC => Some((Mnemonics::CPY, AddressingMode::ABS)),
        0xC6 => Some((Mnemonics::DEC, AddressingMode::RELZPG)),
        0xD6 => Some((Mnemonics::DEC, AddressingMode::ZPX)),
        0xCE => Some((Mnemonics::DEC, AddressingMode::ABS)),
        0xDE => Some((Mnemonics::DEC, AddressingMode::ABX)),
        0xCA => Some((Mnemonics::DEX, AddressingMode::IMPACC)),
        0x88 => Some((Mnemonics::DEY, AddressingMode::IMPACC)),
        0x49 => Some((Mnemonics::EOR, AddressingMode::IMM)),
        0x45 => Some((Mnemonics::EOR, AddressingMode::RELZPG)),
        0x55 => Some((Mnemonics::EOR, AddressingMode::ZPX)),
        0x4D => Some((Mnemonics::EOR, AddressingMode::ABS)),
        0x5D => Some((Mnemonics::EOR, AddressingMode::ABX)),
        0x59 => Some((Mnemonics::EOR, AddressingMode::ABY)),
        0x41 => Some((Mnemonics::EOR, AddressingMode::IDX)),
        0x51 => Some((Mnemonics::EOR, AddressingMode::IDY)),
        0xE6 => Some((Mnemonics::INC, AddressingMode::RELZPG)),
        0xF6 => Some((Mnemonics::INC, AddressingMode::ZPX)),
        0xEE => Some((Mnemonics::INC, AddressingMode::ABS)),
        0xFE => Some((Mnemonics::INC, AddressingMode::ABX)),
        0xE8 => Some((Mnemonics::INX, AddressingMode::IMPACC)),
        0xC8 => Some((Mnemonics::INY, AddressingMode::IMPACC)),
        0x4C => Some((Mnemonics::JMP, AddressingMode::ABS)),
        0x6C => Some((Mnemonics::JMP, AddressingMode::IND)),
        0x20 => Some((Mnemonics::JSR, AddressingMode::ABS)),
        0xA9 => Some((Mnemonics::LDA, AddressingMode::IMM)),
        0xA5 => Some((Mnemonics::LDA, AddressingMode::RELZPG)),
        0xB5 => Some((Mnemonics::LDA, AddressingMode::ZPX)),
        0xAD => Some((Mnemonics::LDA, AddressingMode::ABS)),
        0xBD => Some((Mnemonics::LDA, AddressingMode::ABX)),
        0xB9 => Some((Mnemonics::LDA, AddressingMode::ABY)),
        0xA1 => Some((Mnemonics::LDA, AddressingMode::IDX)),
        0xB1 => Some((Mnemonics::LDA, AddressingMode::IDY)),
        0xA2 => Some((Mnemonics::LDX, AddressingMode::IMM)),
        0xA6 => Some((Mnemonics::LDX, AddressingMode::RELZPG)),
        0xB6 => Some((Mnemonics::LDX, AddressingMode::ZPY)),
        0xAE => Some((Mnemonics::LDX, AddressingMode::ABS)),
        0xBE => Some((Mnemonics::LDX, AddressingMode::ABY)),
        0xA0 => Some((Mnemonics::LDY, AddressingMode::IMM)),
        0xA4 => Some((Mnemonics::LDY, AddressingMode::RELZPG)),
        0xB4 => Some((Mnemonics::LDY, AddressingMode::ZPX)),
        0xAC => Some((Mnemonics::LDY, AddressingMode::ABS)),
        0xBC => Some((Mnemonics::LDY, AddressingMode::ABX)),
        0x4A => Some((Mnemonics::LSR, AddressingMode::IMPACC)),
        0x46 => Some((Mnemonics::LSR, AddressingMode::RELZPG)),
        0x56 => Some((Mnemonics::LSR, AddressingMode::ZPX)),
        0x4E => Some((Mnemonics::LSR, AddressingMode::ABS)),
        0x5E => Some((Mnemonics::LSR, AddressingMode::ABX)),
        0xEA => Some((Mnemonics::NOP, AddressingMode::IMPACC)),
        0x09 => Some((Mnemonics::ORA, AddressingMode::IMM)),
        0x05 => Some((Mnemonics::ORA, AddressingMode::RELZPG)),
        0x15 => Some((Mnemonics::ORA, AddressingMode::ZPX)),
        0x0D => Some((Mnemonics::ORA, AddressingMode::ABS)),
        0x1D => Some((Mnemonics::ORA, AddressingMode::ABX)),
        0x19 => Some((Mnemonics::ORA, AddressingMode::ABY)),
        0x01 => Some((Mnemonics::ORA, AddressingMode::IDX)),
        0x11 => Some((Mnemonics::ORA, AddressingMode::IDY)),
        0x48 => Some((Mnemonics::PHA, AddressingMode::IMPACC)),
        0x08 => Some((Mnemonics::PHP, AddressingMode::IMPACC)),
        0x68 => Some((Mnemonics::PLA, AddressingMode::IMPACC)),
        0x28 => Some((Mnemonics::PLP, AddressingMode::IMPACC)),
        0x2A => Some((Mnemonics::ROL, AddressingMode::IMPACC)),
        0x26 => Some((Mnemonics::ROL, AddressingMode::RELZPG)),
        0x36 => Some((Mnemonics::ROL, AddressingMode::ZPX)),
        0x2E => Some((Mnemonics::ROL, AddressingMode::ABS)),
        0x3E => Some((Mnemonics::ROL, AddressingMode::ABX)),
        0x6A => Some((Mnemonics::ROR, AddressingMode::IMPACC)),
        0x66 => Some((Mnemonics::ROR, AddressingMode::RELZPG)),
        0x76 => Some((Mnemonics::ROR, AddressingMode::ZPX)),
        0x6E => Some((Mnemonics::ROR, AddressingMode::ABS)),
        0x7E => Some((Mnemonics::ROR, AddressingMode::ABX)),
        0x40 => Some((Mnemonics::RTI, AddressingMode::IMPACC)),
        0x60 => Some((Mnemonics::RTS, AddressingMode::IMPACC)),
        0xE9 => Some((Mnemonics::SBC, AddressingMode::IMM)),
        0xE5 => Some((Mnemonics::SBC, AddressingMode::RELZPG)),
        0xF5 => Some((Mnemonics::SBC, AddressingMode::ZPX)),
        0xED => Some((Mnemonics::SBC, AddressingMode::ABS)),
        0xFD => Some((Mnemonics::SBC, AddressingMode::ABX)),
        0xF9 => Some((Mnemonics::SBC, AddressingMode::ABY)),
        0xE1 => Some((Mnemonics::SBC, AddressingMode::IDX)),
        0xF1 => Some((Mnemonics::SBC, AddressingMode::IDY)),
        0x38 => Some((Mnemonics::SEC, AddressingMode::IMPACC)),
        0xF8 => Some((Mnemonics::SED, AddressingMode::IMPACC)),
        0x78 => Some((Mnemonics::SEI, AddressingMode::IMPACC)),
        0x85 => Some((Mnemonics::STA, AddressingMode::RELZPG)),
        0x95 => Some((Mnemonics::STA, AddressingMode::ZPX)),
        0x8D => Some((Mnemonics::STA, AddressingMode::ABS)),
        0x9D => Some((Mnemonics::STA, AddressingMode::ABX)),
        0x99 => Some((Mnemonics::STA, AddressingMode::ABY)),
        0x81 => Some((Mnemonics::STA, AddressingMode::IDX)),
        0x91 => Some((Mnemonics::STA, AddressingMode::IDY)),
        0x86 => Some((Mnemonics::STX, AddressingMode::RELZPG)),
        0x96 => Some((Mnemonics::STX, AddressingMode::ZPY)),
        0x8E => Some((Mnemonics::STX, AddressingMode::ABS)),
        0x84 => Some((Mnemonics::STY, AddressingMode::RELZPG)),
        0x94 => Some((Mnemonics::STY, AddressingMode::ZPX)),
        0x8C => Some((Mnemonics::STY, AddressingMode::ABS)),
        0xAA => Some((Mnemonics::TAX, AddressingMode::IMPACC)),
        0xA8 => Some((Mnemonics::TAY, AddressingMode::IMPACC)),
        0xBA => Some((Mnemonics::TSX, AddressingMode::IMPACC)),
        0x8A => Some((Mnemonics::TXA, AddressingMode::IMPACC)),
        0x9A => Some((Mnemonics::TXS, AddressingMode::IMPACC)),
        0x98 => Some((Mnemonics::TYA, AddressingMode::IMPACC)),
        _ => None,
    }
}

/// The byte the instruction's mnemonic and addressing mode encode to;
/// a pair outside the opcode table is `InvalidInstruction` at the
/// instruction's position.
pub fn instruction_to_byte(instruction: Instruction) -> (r: AssemblerResult<u8>)
    ensures
        match spec_encode(instruction.opcode, instruction.operand.addressing_mode) {
            Some(b) => r == Ok::<u8, AssemblerError>(b),
            None => r matches Err(e) && e.position == instruction.position
                && (e.kind matches AssemblerErrorKind::InvalidInstruction(t, md)
                && t@ == spec_mnemonic_name(instruction.opcode)
                && md == instruction.operand.addressing_mode),
        },
{
    let Instruction { opcode, operand: Operand { addressing_mode, value: _ }, position } =
        instruction;
    match (opcode, addressing_mode) {
        (Mnemonics::ADC, AddressingMode::IMM) => Ok(0x69),
        (Mnemonics::ADC, AddressingMode::RELZPG) => Ok(0x65),
        (Mnemonics::ADC, AddressingMode::ZPX) => Ok(0x75),
        (Mnemonics::ADC, AddressingMode::ABS) => Ok(0x6D),
        (Mnemonics::ADC, AddressingMode::ABX) => Ok(0x7D),
        (Mnemonics::ADC, AddressingMode::ABY) => Ok(0x79),
        (Mnemonics::ADC, AddressingMode::IDX) => Ok(0x61),
        (Mnemonics::ADC, AddressingMode::IDY) => Ok(0x71),
        (Mnemonics::AND, AddressingMode::IMM) => Ok(0x29),
        (Mnemonics::AND, AddressingMode::RELZPG) => Ok(0x25),
        (Mnemonics::AND, AddressingMode::ZPX) => Ok(0x35),
        (Mnemonics::AND, AddressingMode::ABS) => Ok(0x2D),
        (Mnemonics::AND, AddressingMode::ABX) => Ok(0x3D),
        (Mnemonics::AND, AddressingMode::ABY) => Ok(0x39),
        (Mnemonics::AND, AddressingMode::IDX) => Ok(0x21),
        (Mnemonics::AND, AddressingMode::IDY) => Ok(0x31),
        (Mnemonics::ASL, AddressingMode::IMPACC) => Ok(0x0A),
        (Mnemonics::ASL, AddressingMode::RELZPG) => Ok(0x06),
        (Mnemonics::ASL, AddressingMode::ZPX) => Ok(0x16),
        (Mnemonics::ASL, AddressingMode::ABS) => Ok(0x0E),
        (Mnemonics::ASL, AddressingMode::ABX) => Ok(0x1E),
        (Mnemonics::BCC, AddressingMode::RELZPG) => Ok(0x90),
        (Mnemonics::BCS, AddressingMode::RELZPG) => Ok(0xB0),
        (Mnemonics::BEQ, AddressingMode::RELZPG) => Ok(0xF0),
        (Mnemonics::BIT, AddressingMode::RELZPG) => Ok(0x24),
        (Mnemonics::BIT, AddressingMode::ABS) => Ok(0x2C),
        (Mnemonics::BMI, AddressingMode::RELZPG) => Ok(0x30),
        (Mnemonics::BNE, AddressingMode::RELZPG) => Ok(0xD0),
        (Mnemonics::BPL, AddressingMode::RELZPG) => Ok(0x10),
        (Mnemonics::BRK, AddressingMode::IMPACC) => Ok(0x00),
        (Mnemonics::BVC, AddressingMode::RELZPG) => Ok(0x50),
        (Mnemonics::BVS, AddressingMode::RELZPG) => Ok(0x70),
        (Mnemonics::CLC, AddressingMode::IMPACC) => Ok(0x18),
        (Mnemonics::CLD, AddressingMode::IMPACC) => Ok(0xD8),
        (Mnemonics::CLI, AddressingMode::IMPACC) => Ok(0x58),
        (Mnemonics::CLV, AddressingMode::IMPACC) => Ok(0xB8),
        (Mnemonics::CMP, AddressingMode::IMM) => Ok(0xC9),
        (Mnemonics::CMP, AddressingMode::RELZPG) => Ok(0xC5),
        (Mnemonics::CMP, AddressingMode::ZPX) => Ok(0xD5),
        (Mnemonics::CMP, AddressingMode::ABS) => Ok(0xCD),
        (Mnemonics::CMP, AddressingMode::ABX) => Ok(0xDD),
        (Mnemonics::CMP, AddressingMode::ABY) => Ok(0xD9),
        (Mnemonics::CMP, AddressingMode::IDX) => Ok(0xC1),
        (Mnemonics::CMP, AddressingMode::IDY) => Ok(0xD1),
        (Mnemonics::CPX, AddressingMode::IMM) => Ok(0xE0),
        (Mnemonics::CPX, AddressingMode::RELZPG) => Ok(0xE4),
        (Mnemonics::CPX, AddressingMode::ABS) => Ok(0xEC),
        (Mnemonics::CPY, AddressingMode::IMM) => Ok(0xC0),
        (Mnemonics::CPY, AddressingMode::RELZPG) => Ok(0xC4),
        (Mnemonics::CPY, AddressingMode::ABS) => Ok(0xCC),
        (Mnemonics::DEC, AddressingMode::RELZPG) => Ok(0xC6),
        (Mnemonics::DEC, AddressingMode::ZPX) => Ok(0xD6),
        (Mnemonics::DEC, AddressingMode::ABS) => Ok(0xCE),
        (Mnemonics::DEC, AddressingMode::ABX) => Ok(0xDE),
        (Mnemonics::DEX, AddressingMode::IMPACC) => Ok(0xCA),
        (Mnemonics::DEY, AddressingMode::IMPACC) => Ok(0x88),
        (Mnemonics::EOR, AddressingMode::IMM) => Ok(0x49),
        (Mnemonics::EOR, AddressingMode::RELZPG) => Ok(0x45),
        (Mnemonics::EOR, AddressingMode::ZPX) => Ok(0x55),
        (Mnemonics::EOR, AddressingMode::ABS) => Ok(0x4D),
        (Mnemonics::EOR, AddressingMode::ABX) => Ok(0x5D),
        (Mnemonics::EOR, AddressingMode::ABY) => Ok(0x59),
        (Mnemonics::EOR, AddressingMode::IDX) => Ok(0x41),
        (Mnemonics::EOR, AddressingMode::IDY) => Ok(0x51),
        (Mnemonics::INC, AddressingMode::RELZPG) => Ok(0xE6),
        (Mnemonics::INC, AddressingMode::ZPX) => Ok(0xF6),
        (Mnemonics::INC, AddressingMode::ABS) => Ok(0xEE),
        (Mnemonics::INC, AddressingMode::ABX) => Ok(0xFE),
        (Mnemonics::INX, AddressingMode::IMPACC) => Ok(0xE8),
        (Mnemonics::INY, AddressingMode::IMPACC) => Ok(0xC8),
        (Mnemonics::JMP, AddressingMode::RELZPG) => Ok(0x4C),
        (Mnemonics::JMP, AddressingMode::ABS) => Ok(0x4C),
        (Mnemonics::JMP, AddressingMode::IND) => Ok(0x6C),
        (Mnemonics::JSR, AddressingMode::RELZPG) => Ok(0x20),
        (Mnemonics::JSR, AddressingMode::ABS) => Ok(0x20),
        (Mnemonics::LDA, AddressingMode::IMM) => Ok(0xA9),
        (Mnemonics::LDA, AddressingMode::RELZPG) => Ok(0xA5),
        (Mnemonics::LDA, AddressingMode::ZPX) => Ok(0xB5),
        (Mnemonics::LDA, AddressingMode::ABS) => Ok(0xAD),
        (Mnemonics::LDA, AddressingMode::ABX) => Ok(0xBD),
        (Mnemonics::LDA, AddressingMode::ABY) => Ok(0xB9),
        (Mnemonics::LDA, AddressingMode::IDX) => Ok(0xA1),
        (Mnemonics::LDA, AddressingMode::IDY) => Ok(0xB1),
        (Mnemonics::LDX, AddressingMode::IMM) => Ok(0xA2),
        (Mnemonics::LDX, AddressingMode::RELZPG) => Ok(0xA6),
        (Mnemonics::LDX, AddressingMode::ZPY) => Ok(0xB6),
        (Mnemonics::LDX, AddressingMode::ABS) => Ok(0xAE),
        (Mnemonics::LDX, AddressingMode::ABY) => Ok(0xBE),
        (Mnemonics::LDY, AddressingMode::IMM) => Ok(0xA0),
        (Mnemonics::LDY, AddressingMode::RELZPG) => Ok(0xA4),
        (Mnemonics::LDY, AddressingMode::ZPX) => Ok(0xB4),
        (Mnemonics::LDY, AddressingMode::ABS) => Ok(0xAC),
        (Mnemonics::LDY, AddressingMode::ABX) => Ok(0xBC),
        (Mnemonics::LSR, AddressingMode::IMPACC) => Ok(0x4A),
        (Mnemonics::LSR, AddressingMode::RELZPG) => Ok(0x46),
        (Mnemonics::LSR, AddressingMode::ZPX) => Ok(0x56),
        (Mnemonics::LSR, AddressingMode::ABS) => Ok(0x4E),
        (Mnemonics::LSR, AddressingMode::ABX) => Ok(0x5E),
        (Mnemonics::NOP, AddressingMode::IMPACC) => Ok(0xEA),
        (Mnemonics::ORA, AddressingMode::IMM) => Ok(0x09),
        (Mnemonics::ORA, AddressingMode::RELZPG) => Ok(0x05),
        (Mnemonics::ORA, AddressingMode::ZPX) => Ok(0x15),
        (Mnemonics::ORA, AddressingMode::ABS) => Ok(0x0D),
        (Mnemonics::ORA, AddressingMode::ABX) => Ok(0x1D),
        (Mnemonics::ORA, AddressingMode::ABY) => Ok(0x19),
        (Mnemonics::ORA, AddressingMode::IDX) => Ok(0x01),
        (Mnemonics::ORA, AddressingMode::IDY) => Ok(0x11),
        (Mnemonics::PHA, AddressingMode::IMPACC) => Ok(0x48),
        (Mnemonics::PHP, AddressingMode::IMPACC) => Ok(0x08),
        (Mnemonics::PLA, AddressingMode::IMPACC) => Ok(0x68),
        (Mnemonics::PLP, AddressingMode::IMPACC) => Ok(0x28),
        (Mnemonics::ROL, AddressingMode::IMPACC) => Ok(0x2A),
        (Mnemonics::ROL, AddressingMode::RELZPG) => Ok(0x26),
        (Mnemonics::ROL, AddressingMode::ZPX) => Ok(0x36),
        (Mnemonics::ROL, AddressingMode::ABS) => Ok(0x2E),
        (Mnemonics::ROL, AddressingMode::ABX) => Ok(0x3E),
        (Mnemonics::ROR, AddressingMode::IMPACC) => Ok(0x6A),
        (Mnemonics::ROR, AddressingMode::RELZPG) => Ok(0x66),
        (Mnemonics::ROR, AddressingMode::ZPX) => Ok(0x76),
        (Mnemonics::ROR, AddressingMode::ABS) => Ok(0x6E),
        (Mnemonics::ROR, AddressingMode::ABX) => Ok(0x7E),
        (Mnemonics::RTI, AddressingMode::IMPACC) => Ok(0x40),
        (Mnemonics::RTS, AddressingMode::IMPACC) => Ok(0x60),
        (Mnemonics::SBC, AddressingMode::IMM) => Ok(0xE9),
        (Mnemonics::SBC, AddressingMode::RELZPG) => Ok(0xE5),
        (Mnemonics::SBC, AddressingMode::ZPX) => Ok(0xF5),
        (Mnemonics::SBC, AddressingMode::ABS) => Ok(0xED),
        (Mnemonics::SBC, AddressingMode::ABX) => Ok(0xFD),
        (Mnemonics::SBC, AddressingMode::ABY) => Ok(0xF9),
        (Mnemonics::SBC, AddressingMode::IDX) => Ok(0xE1),
        (Mnemonics::SBC, AddressingMode::IDY) => Ok(0xF1),
        (Mnemonics::SEC, AddressingMode::IMPACC) => Ok(0x38),
        (Mnemonics::SED, AddressingMode::IMPACC) => Ok(0xF8),
        (Mnemonics::SEI, AddressingMode::IMPACC) => Ok(0x78),
        (Mnemonics::STA, AddressingMode::RELZPG) => Ok(0x85),
        (Mnemonics::STA, AddressingMode::ZPX) => Ok(0x95),
        (Mnemonics::STA, AddressingMode::ABS) => Ok(0x8D),
        (Mnemonics::STA, AddressingMode::ABX) => Ok(0x9D),
        (Mnemonics::STA, AddressingMode::ABY) => Ok(0x99),
        (Mnemonics::STA, AddressingMode::IDX) => Ok(0x81),
        (Mnemonics::STA, AddressingMode::IDY) => Ok(0x91),
        (Mnemonics::STX, AddressingMode::RELZPG) => Ok(0x86),
        (Mnemonics::STX, AddressingMode::ZPY) => Ok(0x96),
        (Mnemonics::STX, AddressingMode::ABS) => Ok(0x8E),
        (Mnemonics::STY, AddressingMode::RELZPG) => Ok(0x84),
        (Mnemonics::STY, AddressingMode::ZPX) => Ok(0x94),
        (Mnemonics::STY, AddressingMode::ABS) => Ok(0x8C),
        (Mnemonics::TAX, AddressingMode::IMPACC) => Ok(0xAA),
        (Mnemonics::TAY, AddressingMode::IMPACC) => Ok(0xA8),
        (Mnemonics::TSX, AddressingMode::IMPACC) => Ok(0xBA),
        (Mnemonics::TXA, AddressingMode::IMPACC) => Ok(0x8A),
        (Mnemonics::TXS, AddressingMode::IMPACC) => Ok(0x9A),
        (Mnemonics::TYA, AddressingMode::IMPACC) => Ok(0x98),
        _ => Err(
            AssemblerError::new(
                AssemblerErrorKind::InvalidInstruction(opcode.text(), addressing_mode),
                position,
            ),
        ),
    }
}

/// The mnemonic and addressing mode a byte decodes to; a byte outside
/// the opcode table is `InvalidOpcode`.
pub fn byte_to_opcode(opcode: u8) -> (r: AssemblerResult<(Mnemonics, AddressingMode)>)
    ensures
        match spec_decode(opcode) {
            Some(p) => r == Ok::<(Mnemonics, AddressingMode), AssemblerError>(p),
            None => r == Err::<(Mnemonics, AddressingMode), AssemblerError>(
                AssemblerError {
                    kind: AssemblerErrorKind::InvalidOpcode(opcode),
                    position: Position(0, 0),
                },
            ),
        },
{
    match opcode {
        0x69 => Ok((Mnemonics::ADC, AddressingMode::IMM)),
        0x65 => Ok((Mnemonics::ADC, AddressingMode::RELZPG)),
        0x75 => Ok((Mnemonics::ADC, AddressingMode::ZPX)),
        0x6D => Ok((Mnemonics::ADC, AddressingMode::ABS)),
        0x7D => Ok((Mnemonics::ADC, AddressingMode::ABX)),
        0x79 => Ok((Mnemonics::ADC, AddressingMode::ABY)),
        0x61 => Ok((Mnemonics::ADC, AddressingMode::IDX)),
        0x71 => Ok((Mnemonics::ADC, AddressingMode::IDY)),
        0x29 => Ok((Mnemonics::AND, AddressingMode::IMM)),
        0x25 => Ok((Mnemonics::AND, AddressingMode::RELZPG)),
        0x35 => Ok((Mnemonics::AND, AddressingMode::ZPX)),
        0x2D => Ok((Mnemonics::AND, AddressingMode::ABS)),
        0x3D => Ok((Mnemonics::AND, AddressingMode::ABX)),
        0x39 => Ok((Mnemonics::AND, AddressingMode::ABY)),
        0x21 => Ok((Mnemonics::AND, AddressingMode::IDX)),
        0x31 => Ok((Mnemonics::AND, AddressingMode::IDY)),
        0x0A => Ok((Mnemonics::ASL, AddressingMode::IMPACC)),
        0x06 => Ok((Mnemonics::ASL, AddressingMode::RELZPG)),
        0x16 => Ok((Mnemonics::ASL, AddressingMode::ZPX)),
        0x0E => Ok((Mnemonics::ASL, AddressingMode::ABS)),
        0x1E => Ok((Mnemonics::ASL, AddressingMode::ABX)),
        0x90 => Ok((Mnemonics::BCC, AddressingMode::RELZPG)),
        0xB0 => Ok((Mnemonics::BCS, AddressingMode::RELZPG)),
        0xF0 => Ok((Mnemonics::BEQ, AddressingMode::RELZPG)),
        0x24 => Ok((Mnemonics::BIT, AddressingMode::RELZPG)),
        0x2C => Ok((Mnemonics::BIT, AddressingMode::ABS)),
        0x30 => Ok((Mnemonics::BMI, AddressingMode::RELZPG)),
        0xD0 => Ok((Mnemonics::BNE, AddressingMode::RELZPG)),
        0x10 => Ok((Mnemonics::BPL, AddressingMode::RELZPG)),
        0x00 => Ok((Mnemonics::BRK, AddressingMode::IMPACC)),
        0x50 => Ok((Mnemonics::BVC, AddressingMode::RELZPG)),
        0x70 => Ok((Mnemonics::BVS, AddressingMode::RELZPG)),
        0x18 => Ok((Mnemonics::CLC, AddressingMode::IMPACC)),
        0xD8 => Ok((Mnemonics::CLD, AddressingMode::IMPACC)),
        0x58 => Ok((Mnemonics::CLI, AddressingMode::IMPACC)),
        0xB8 => Ok((Mnemonics::CLV, AddressingMode::IMPACC)),
        0xC9 => Ok((Mnemonics::CMP, AddressingMode::IMM)),
        0xC5 => Ok((Mnemonics::CMP, AddressingMode::RELZPG)),
        0xD5 => Ok((Mnemonics::CMP, AddressingMode::ZPX)),
        0xCD => Ok((Mnemonics::CMP, AddressingMode::ABS)),
        0xDD => Ok((Mnemonics::CMP, AddressingMode::ABX)),
        0xD9 => Ok((Mnemonics::CMP, AddressingMode::ABY)),
        0xC1 => Ok((Mnemonics::CMP, AddressingMode::IDX)),
        0xD1 => Ok((Mnemonics::CMP, AddressingMode::IDY)),
        0xE0 => Ok((Mnemonics::CPX, AddressingMode::IMM)),
        0xE4 => Ok((Mnemonics::CPX, AddressingMode::RELZPG)),
        0xEC => Ok((Mnemonics::CPX, AddressingMode::ABS)),
        0xC0 => Ok((Mnemonics::CPY, AddressingMode::IMM)),
        0xC4 => Ok((Mnemonics::CPY, AddressingMode::RELZPG)),
        0xCC => Ok((Mnemonics::CPY, AddressingMode::ABS)),
        0xC6 => Ok((Mnemonics::DEC, AddressingMode::RELZPG)),
        0xD6 => Ok((Mnemonics::DEC, AddressingMode::ZPX)),
        0xCE => Ok((Mnemonics::DEC, AddressingMode::ABS)),
        0xDE => Ok((Mnemonics::DEC, AddressingMode::ABX)),
        0xCA => Ok((Mnemonics::DEX, AddressingMode::IMPACC)),
        0x88 => Ok((Mnemonics::DEY, AddressingMode::IMPACC)),
        0x49 => Ok((Mnemonics::EOR, AddressingMode::IMM)),
        0x45 => Ok((Mnemonics::EOR, AddressingMode::RELZPG)),
        0x55 => Ok((Mnemonics::EOR, AddressingMode::ZPX)),
        0x4D => Ok((Mnemonics::EOR, AddressingMode::ABS)),
        0x5D => Ok((Mnemonics::EOR, AddressingMode::ABX)),
        0x59 => Ok((Mnemonics::EOR, AddressingMode::ABY)),
        0x41 => Ok((Mnemonics::EOR, AddressingMode::IDX)),
        0x51 => Ok((Mnemonics::EOR, AddressingMode::IDY)),
        0xE6 => Ok((Mnemonics::INC, AddressingMode::RELZPG)),
        0xF6 => Ok((Mnemonics::INC, AddressingMode::ZPX)),
        0xEE => Ok((Mnemonics::INC, AddressingMode::ABS)),
        0xFE => Ok((Mnemonics::INC, AddressingMode::ABX)),
        0xE8 => Ok((Mnemonics::INX, AddressingMode::IMPACC)),
        0xC8 => Ok((Mnemonics::INY, AddressingMode::IMPACC)),
        0x4C => Ok((Mnemonics::JMP, AddressingMode::ABS)),
        0x6C => Ok((Mnemonics::JMP, AddressingMode::IND)),
        0x20 => Ok((Mnemonics::JSR, AddressingMode::ABS)),
        0xA9 => Ok((Mnemonics::LDA, AddressingMode::IMM)),
        0xA5 => Ok((Mnemonics::LDA, AddressingMode::RELZPG)),
        0xB5 => Ok((Mnemonics::LDA, AddressingMode::ZPX)),
        0xAD => Ok((Mnemonics::LDA, AddressingMode::ABS)),
        0xBD => Ok((Mnemonics::LDA, AddressingMode::ABX)),
        0xB9 => Ok((Mnemonics::LDA, AddressingMode::ABY)),
        0xA1 => Ok((Mnemonics::LDA, AddressingMode::IDX)),
        0xB1 => Ok((Mnemonics::LDA, AddressingMode::IDY)),
        0xA2 => Ok((Mnemonics::LDX, AddressingMode::IMM)),
        0xA6 => Ok((Mnemonics::LDX, AddressingMode::RELZPG)),
        0xB6 => Ok((Mnemonics::LDX, AddressingMode::ZPY)),
        0xAE => Ok((Mnemonics::LDX, AddressingMode::ABS)),
        0xBE => Ok((Mnemonics::LDX, AddressingMode::ABY)),
        0xA0 => Ok((Mnemonics::LDY, AddressingMode::IMM)),
        0xA4 => Ok((Mnemonics::LDY, AddressingMode::RELZPG)),
        0xB4 => Ok((Mnemonics::LDY, AddressingMode::ZPX)),
        0xAC => Ok((Mnemonics::LDY, AddressingMode::ABS)),
        0xBC => Ok((Mnemonics::LDY, AddressingMode::ABX)),
        0x4A => Ok((Mnemonics::LSR, AddressingMode::IMPACC)),
        0x46 => Ok((Mnemonics::LSR, AddressingMode::RELZPG)),
        0x56 => Ok((Mnemonics::LSR, AddressingMode::ZPX)),
        0x4E => Ok((Mnemonics::LSR, AddressingMode::ABS)),
        0x5E => Ok((Mnemonics::LSR, AddressingMode::ABX)),
        0xEA => Ok((Mnemonics::NOP, AddressingMode::IMPACC)),
        0x09 => Ok((Mnemonics::ORA, AddressingMode::IMM)),
        0x05 => Ok((Mnemonics::ORA, AddressingMode::RELZPG)),
        0x15 => Ok((Mnemonics::ORA, AddressingMode::ZPX)),
        0x0D => Ok((Mnemonics::ORA, AddressingMode::ABS)),
        0x1D => Ok((Mnemonics::ORA, AddressingMode::ABX)),
        0x19 => Ok((Mnemonics::ORA, AddressingMode::ABY)),
        0x01 => Ok((Mnemonics::ORA, AddressingMode::IDX)),
        0x11 => Ok((Mnemonics::ORA, AddressingMode::IDY)),
        0x48 => Ok((Mnemonics::PHA, AddressingMode::IMPACC)),
        0x08 => Ok((Mnemonics::PHP, AddressingMode::IMPACC)),
        0x68 => Ok((Mnemonics::PLA, AddressingMode::IMPACC)),
        0x28 => Ok((Mnemonics::PLP, AddressingMode::IMPACC)),
        0x2A => Ok((Mnemonics::ROL, AddressingMode::IMPACC)),
        0x26 => Ok((Mnemonics::ROL, AddressingMode::RELZPG)),
        0x36 => Ok((Mnemonics::ROL, AddressingMode::ZPX)),
        0x2E => Ok((Mnemonics::ROL, AddressingMode::ABS)),
        0x3E => Ok((Mnemonics::ROL, AddressingMode::ABX)),
        0x6A => Ok((Mnemonics::ROR, AddressingMode::IMPACC)),
        0x66 => Ok((Mnemonics::ROR, AddressingMode::RELZPG)),
        0x76 => Ok((Mnemonics::ROR, AddressingMode::ZPX)),
        0x6E => Ok((Mnemonics::ROR, AddressingMode::ABS)),
        0x7E => Ok((Mnemonics::ROR, AddressingMode::ABX)),
        0x40 => Ok((Mnemonics::RTI, AddressingMode::IMPACC)),
        0x60 => Ok((Mnemonics::RTS, AddressingMode::IMPACC)),
        0xE9 => Ok((Mnemonics::SBC, AddressingMode::IMM)),
        0xE5 => Ok((Mnemonics::SBC, AddressingMode::RELZPG)),
        0xF5 => Ok((Mnemonics::SBC, AddressingMode::ZPX)),
        0xED => Ok((Mnemonics::SBC, AddressingMode::ABS)),
        0xFD => Ok((Mnemonics::SBC, AddressingMode::ABX)),
        0xF9 => Ok((Mnemonics::SBC, AddressingMode::ABY)),
        0xE1 => Ok((Mnemonics::SBC, AddressingMode::IDX)),
        0xF1 => Ok((Mnemonics::SBC, AddressingMode::IDY)),
        0x38 => Ok((Mnemonics::SEC, AddressingMode::IMPACC)),
        0xF8 => Ok((Mnemonics::SED, AddressingMode::IMPACC)),
        0x78 => Ok((Mnemonics::SEI, AddressingMode::IMPACC)),
        0x85 => Ok((Mnemonics::STA, AddressingMode::RELZPG)),
        0x95 => Ok((Mnemonics::STA, AddressingMode::ZPX)),
        0x8D => Ok((Mnemonics::STA, AddressingMode::ABS)),
        0x9D => Ok((Mnemonics::STA, AddressingMode::ABX)),
        0x99 => Ok((Mnemonics::STA, AddressingMode::ABY)),
        0x81 => Ok((Mnemonics::STA, AddressingMode::IDX)),
        0x91 => Ok((Mnemonics::STA, AddressingMode::IDY)),
        0x86 => Ok((Mnemonics::STX, AddressingMode::RELZPG)),
        0x96 => Ok((Mnemonics::STX, AddressingMode::ZPY)),
        0x8E => Ok((Mnemonics::STX, AddressingMode::ABS)),
        0x84 => Ok((Mnemonics::STY, AddressingMode::RELZPG)),
        0x94 => Ok((Mnemonics::STY, AddressingMode::ZPX)),
        0x8C => Ok((Mnemonics::STY, AddressingMode::ABS)),
        0xAA => Ok((Mnemonics::TAX, AddressingMode::IMPACC)),
        0xA8 => Ok((Mnemonics::TAY, AddressingMode::IMPACC)),
        0xBA => Ok((Mnemonics::TSX, AddressingMode::IMPACC)),
        0x8A => Ok((Mnemonics::TXA, AddressingMode::IMPACC)),
        0x9A => Ok((Mnemonics::TXS, AddressingMode::IMPACC)),
        0x98 => Ok((Mnemonics::TYA, AddressingMode::IMPACC)),
        _ => Err(
            AssemblerError::new(AssemblerErrorKind::InvalidOpcode(opcode), Position(0, 0)),
        ),
    }
}

/// The mode a pair is decoded back to: `RELZPG` on `JMP` and `JSR`
/// aliases to `ABS`; every other pair decodes to itself.
pub open spec fn spec_canonical_mode(m: Mnemonics, mode: AddressingMode) -> AddressingMode {
    if (m == Mnemonics::JMP || m == Mnemonics::JSR) && mode == AddressingMode::RELZPG {
        AddressingMode::ABS
    } else {
        mode
    }
}

/// Encoding and decoding round-trip: every legal pair decodes from its
/// opcode byte back to itself, up to the `RELZPG` aliasing of `JMP` and
/// `JSR`.
pub proof fn lemma_encode_decode_round_trip(m: Mnemonics, mode: AddressingMode)
    requires
        spec_encode(m, mode) is Some,
    ensures
        spec_decode(spec_encode(m, mode)->Some_0) == Some(
            (m, spec_canonical_mode(m, mode)),
        ),
{
}

} // verus!