//! The parser: two-token-lookahead recursive descent from tokens to a
//! statement list.
//!
//! The grammar is stated mathematically by the `spec_parse_*` functions,
//! which read tokens straight from the scanner (`spec_scan`) and carry
//! the `define` table as a map from names to operands. Each parsing
//! method is proved to return exactly what its spec function names.

use vstd::prelude::*;
use crate::ast::Instruction;
use crate::ast::InstructionV;
use crate::ast::Position;
use crate::ast::Program;
use crate::ast::Statement;
use crate::ast::StatementV;
use crate::ast::stmt_views;
use crate::error::AssemblerError;
use crate::error::AssemblerErrorKind;
use crate::error::AssemblerResult;
use crate::instruction::describe_data;
use crate::instruction::AddressingMode;
use crate::instruction::Mnemonics;
use crate::instruction::NumberType;
use crate::instruction::Operand;
use crate::instruction::OperandData;
use crate::instruction::OperandDataV;
use crate::instruction::OperandV;
use crate::instruction::spec_mnemonic_of;
use crate::lexer::lemma_scan_bounds;
use crate::lexer::spec_scan;
use crate::lexer::Lexer;
use crate::lexer::Scan;
use crate::text::spec_upper_seq;
use crate::token::describe_v;
use crate::token::Token;
use crate::token::TokenKind;
use crate::token::TokenKindV;

verus! {

/// A parse failure, stated mathematically: the lexer's own failure, an
/// unexpected token (what was expected and what was found, as printed),
/// an operand no addressing mode accepts, or an unknown mnemonic.
pub enum PErrV {
    Lex(AssemblerErrorKind),
    Unexpected(Seq<char>, Seq<char>),
    InvalidOp(Seq<char>),
    BadMnemonic(Seq<char>),
}

/// Whether an error kind carries exactly the stated failure.
pub open spec fn err_matches(k: AssemblerErrorKind, v: PErrV) -> bool {
    match v {
        PErrV::Lex(k2) => k == k2,
        PErrV::Unexpected(exp, fnd) => k matches AssemblerErrorKind::UnexpectedToken {
            expected,
            found,
        } && expected@ == exp && found@ == fnd,
        PErrV::InvalidOp(t) => k matches AssemblerErrorKind::InvalidOperand(x) && x@ == t,
        PErrV::BadMnemonic(t) => k matches AssemblerErrorKind::InvalidMnemonic(x) && x@ == t,
    }
}

/// The kind of the token at cursor `c` (the end-of-input token where the
/// scanner fails; under the parser's invariant it never does).
pub open spec fn cur_of(s: Seq<char>, c: int) -> TokenKindV {
    match spec_scan(s, c) {
        Scan::Tok(k, _) => k,
        Scan::Fail(_, _) => TokenKindV::EOF,
    }
}

/// The cursor after the token at `c`.
pub open spec fn next_pos(s: Seq<char>, c: int) -> int {
    match spec_scan(s, c) {
        Scan::Tok(_, p) => p,
        Scan::Fail(_, p) => p,
    }
}

/// Consuming one token: the cursor moves to the next token, and the one
/// new token entering the two-token lookahead must scan.
pub enum Adv {
    Step(int),
    Stuck(AssemblerErrorKind),
}

pub open spec fn spec_advance(s: Seq<char>, c: int) -> Adv {
    match spec_scan(s, c) {
        Scan::Tok(_, p) => match spec_scan(s, p) {
            Scan::Tok(_, q) => match spec_scan(s, q) {
                Scan::Tok(_, _) => Adv::Step(p),
                Scan::Fail(k, _) => Adv::Stuck(k),
            },
            Scan::Fail(k, _) => Adv::Stuck(k),
        },
        Scan::Fail(k, _) => Adv::Stuck(k),
    }
}

/// Outcome of parsing an operand.
pub enum POp {
    Parsed(OperandV, int),
    Fault(PErrV),
}

/// Outcome of classifying the current token as operand data (which does
/// not consume it).
pub enum PData {
    Value(OperandDataV),
    Fault(PErrV),
}

/// Outcome of parsing one statement.
pub enum PStmt {
    Parsed(StatementV, int),
    Fault(PErrV),
}

/// Outcome of a `define` directive: the defined name and operand, the
/// updated define table, and the cursor after the directive.
pub enum PDef {
    Defined(Seq<char>, OperandV, Map<Seq<char>, OperandV>, int),
    Fault(PErrV),
}

/// An 8-bit number operand, decimal or hexadecimal.
pub open spec fn is_8_v(v: OperandDataV) -> bool {
    v matches OperandDataV::Number(NumberType::Decimal8(_)) || v matches OperandDataV::Number(
        NumberType::Hexadecimal8(_),
    )
}

/// What the current token denotes as operand data: a number of the
/// token's width, a defined name's stored value, or a label reference.
pub open spec fn spec_parse_operand_data(
    s: Seq<char>,
    c: int,
    defines: Map<Seq<char>, OperandV>,
) -> PData {
    match cur_of(s, c) {
        TokenKindV::Decimal(n) => if n > 255 {
            PData::Value(OperandDataV::Number(NumberType::Decimal16(n)))
        } else {
            PData::Value(OperandDataV::Number(NumberType::Decimal8(n as u8)))
        },
        TokenKindV::Hexadecimal8Bit(n) => PData::Value(
            OperandDataV::Number(NumberType::Hexadecimal8(n)),
        ),
        TokenKindV::Hexadecimal16Bit(n) => PData::Value(
            OperandDataV::Number(NumberType::Hexadecimal16(n)),
        ),
        TokenKindV::Identifier(id) => if defines.contains_key(id) {
            match defines[id].value {
                Some(v) => PData::Value(v),
                None => PData::Fault(PErrV::InvalidOp(id)),
            }
        } else {
            PData::Value(OperandDataV::Label(id))
        },
        k => PData::Fault(PErrV::InvalidOp(describe_v(k))),
    }
}

/// After an 8-bit operand: a `,X` or `,Y` suffix makes it zero-page
/// indexed; without one it is relative-or-zero-page.
pub open spec fn spec_parse_8bit_comma(s: Seq<char>, c: int, od: OperandDataV) -> POp {
    if cur_of(s, c) is Comma {
        match spec_advance(s, c) {
            Adv::Stuck(k) => POp::Fault(PErrV::Lex(k)),
            Adv::Step(c1) => match cur_of(s, c1) {
                TokenKindV::X => match spec_advance(s, c1) {
                    Adv::Stuck(k) => POp::Fault(PErrV::Lex(k)),
                    Adv::Step(c2) => POp::Parsed(
                        OperandV { addressing_mode: AddressingMode::ZPX, value: Some(od) },
                        c2,
                    ),
                },
                TokenKindV::Y => match spec_advance(s, c1) {
                    Adv::Stuck(k) => POp::Fault(PErrV::Lex(k)),
                    Adv::Step(c2) => POp::Parsed(
                        OperandV { addressing_mode: AddressingMode::ZPY, value: Some(od) },
                        c2,
                    ),
                },
                _ => POp::Fault(PErrV::InvalidOp(describe_data(od))),
            },
        }
    } else {
        POp::Parsed(OperandV { addressing_mode: AddressingMode::RELZPG, value: Some(od) }, c)
    }
}

/// After a 16-bit operand: a `,X` or `,Y` suffix makes it absolute
/// indexed; without one it is absolute.
pub open spec fn spec_parse_16bit_comma(s: Seq<char>, c: int, od: OperandDataV) -> POp {
    if cur_of(s, c) is Comma {
        match spec_advance(s, c) {
            Adv::Stuck(k) => POp::Fault(PErrV::Lex(k)),
            Adv::Step(c1) => match cur_of(s, c1) {
                TokenKindV::X => match spec_advance(s, c1) {
                    Adv::Stuck(k) => POp::Fault(PErrV::Lex(k)),
                    Adv::Step(c2) => POp::Parsed(
                        OperandV { addressing_mode: AddressingMode::ABX, value: Some(od) },
                        c2,
                    ),
                },
                TokenKindV::Y => match spec_advance(s, c1) {
                    Adv::Stuck(k) => POp::Fault(PErrV::Lex(k)),
                    Adv::Step(c2) => POp::Parsed(
                        OperandV { addressing_mode: AddressingMode::ABY, value: Some(od) },
                        c2,
                    ),
                },
                _ => POp::Fault(PErrV::InvalidOp(describe_data(od))),
            },
        }
    } else {
        POp::Parsed(OperandV { addressing_mode: AddressingMode::ABS, value: Some(od) }, c)
    }
}

/// After `(` and the inner operand: `,X)` is indexed indirect, `),Y` is
/// indirect indexed, a bare `)` is indirect.
pub open spec fn spec_parse_lparen(s: Seq<char>, c: int, od: OperandDataV) -> POp {
    match cur_of(s, c) {
        TokenKindV::Comma => match spec_advance(s, c) {
            Adv::Stuck(k) => POp::Fault(PErrV::Lex(k)),
            Adv::Step(c1) => if cur_of(s, c1) is X {
                match spec_advance(s, c1) {
                    Adv::Stuck(k) => POp::Fault(PErrV::Lex(k)),
                    Adv::Step(c2) => if cur_of(s, c2) is RParen {
                        match spec_advance(s, c2) {
                            Adv::Stuck(k) => POp::Fault(PErrV::Lex(k)),
                            Adv::Step(c3) => POp::Parsed(
                                OperandV {
                                    addressing_mode: AddressingMode::IDX,
                                    value: Some(od),
                                },
                                c3,
                            ),
                        }
                    } else {
                        POp::Fault(
                            PErrV::Unexpected(
                                describe_v(TokenKindV::RParen),
                                describe_v(cur_of(s, c2)),
                            ),
                        )
                    },
                }
            } else {
                POp::Fault(
                    PErrV::Unexpected(describe_v(TokenKindV::X), describe_v(cur_of(s, c1))),
                )
            },
        },
        TokenKindV::RParen => match spec_advance(s, c) {
            Adv::Stuck(k) => POp::Fault(PErrV::Lex(k)),
            Adv::Step(c1) => if cur_of(s, c1) is Comma {
                match spec_advance(s, c1) {
                    Adv::Stuck(k) => POp::Fault(PErrV::Lex(k)),
                    Adv::Step(c2) => if cur_of(s, c2) is Y {
                        match spec_advance(s, c2) {
                            Adv::Stuck(k) => POp::Fault(PErrV::Lex(k)),
                            Adv::Step(c3) => POp::Parsed(
                                OperandV {
                                    addressing_mode: AddressingMode::IDY,
                                    value: Some(od),
                                },
                                c3,
                            ),
                        }
                    } else {
                        POp::Fault(
                            PErrV::Unexpected(
                                describe_v(TokenKindV::Y),
                                describe_v(cur_of(s, c2)),
                            ),
                        )
                    },
                }
            } else {
                POp::Parsed(
                    OperandV { addressing_mode: AddressingMode::IND, value: Some(od) },
                    c1,
                )
            },
        },
        _ => POp::Fault(PErrV::InvalidOp(describe_data(od))),
    }
}

/// The operand grammar: each of the surface forms and the addressing
/// mode it denotes. A defined name is substituted inline; a name that
/// is no define is a label reference; no operand at all (end of line)
/// is implicit-or-accumulator.
#[verifier::opaque]
pub open spec fn spec_parse_operand(s: Seq<char>, c: int, defines: Map<Seq<char>, OperandV>) -> POp {
    match cur_of(s, c) {
        TokenKindV::Hash => match spec_advance(s, c) {
            Adv::Stuck(k) => POp::Fault(PErrV::Lex(k)),
            Adv::Step(c1) => match spec_parse_operand_data(s, c1, defines) {
                PData::Fault(f) => POp::Fault(f),
                PData::Value(od) => if !is_8_v(od) {
                    POp::Fault(PErrV::InvalidOp(describe_data(od)))
                } else {
                    match spec_advance(s, c1) {
                        Adv::Stuck(k) => POp::Fault(PErrV::Lex(k)),
                        Adv::Step(c2) => POp::Parsed(
                            OperandV { addressing_mode: AddressingMode::IMM, value: Some(od) },
                            c2,
                        ),
                    }
                },
            },
        },
        TokenKindV::Hexadecimal8Bit(n) => match spec_advance(s, c) {
            Adv::Stuck(k) => POp::Fault(PErrV::Lex(k)),
            Adv::Step(c1) => spec_parse_8bit_comma(
                s,
                c1,
                OperandDataV::Number(NumberType::Hexadecimal8(n)),
            ),
        },
        TokenKindV::Hexadecimal16Bit(n) => match spec_advance(s, c) {
            Adv::Stuck(k) => POp::Fault(PErrV::Lex(k)),
            Adv::Step(c1) => spec_parse_16bit_comma(
                s,
                c1,
                OperandDataV::Number(NumberType::Hexadecimal16(n)),
            ),
        },
        TokenKindV::LParen => match spec_advance(s, c) {
            Adv::Stuck(k) => POp::Fault(PErrV::Lex(k)),
            Adv::Step(c1) => match spec_parse_operand_data(s, c1, defines) {
                PData::Fault(f) => POp::Fault(f),
                PData::Value(od) => match spec_advance(s, c1) {
                    Adv::Stuck(k) => POp::Fault(PErrV::Lex(k)),
                    Adv::Step(c2) => spec_parse_lparen(s, c2, od),
                },
            },
        },
        TokenKindV::Decimal(n) => match spec_advance(s, c) {
            Adv::Stuck(k) => POp::Fault(PErrV::Lex(k)),
            Adv::Step(c1) => if n > 255 {
                spec_parse_16bit_comma(s, c1, OperandDataV::Number(NumberType::Decimal16(n)))
            } else {
                spec_parse_8bit_comma(s, c1, OperandDataV::Number(NumberType::Decimal8(n as u8)))
            },
        },
        TokenKindV::Identifier(id) => match spec_advance(s, c) {
            Adv::Stuck(k) => POp::Fault(PErrV::Lex(k)),
            Adv::Step(c1) => if defines.contains_key(id) {
                let op = defines[id];
                match op.addressing_mode {
                    AddressingMode::ZPX | AddressingMode::ZPY | AddressingMode::ABX
                        | AddressingMode::ABY => POp::Parsed(op, c1),
                    _ => match op.value {
                        Some(OperandDataV::Number(NumberType::Decimal8(v))) => spec_parse_8bit_comma(
                            s,
                            c1,
                            OperandDataV::Number(NumberType::Decimal8(v)),
                        ),
                        Some(
                            OperandDataV::Number(NumberType::Hexadecimal8(v)),
                        ) => spec_parse_8bit_comma(
                            s,
                            c1,
                            OperandDataV::Number(NumberType::Hexadecimal8(v)),
                        ),
                        Some(
                            OperandDataV::Number(NumberType::Decimal16(v)),
                        ) => spec_parse_16bit_comma(
                            s,
                            c1,
                            OperandDataV::Number(NumberType::Decimal16(v)),
                        ),
                        Some(
                            OperandDataV::Number(NumberType::Hexadecimal16(v)),
                        ) => spec_parse_16bit_comma(
                            s,
                            c1,
                            OperandDataV::Number(NumberType::Hexadecimal16(v)),
                        ),
                        Some(OperandDataV::Label(_)) => POp::Parsed(op, c1),
                        None => POp::Fault(PErrV::InvalidOp(id)),
                    },
                }
            } else {
                POp::Parsed(
                    OperandV {
                        addressing_mode: AddressingMode::RELZPG,
                        value: Some(OperandDataV::Label(id)),
                    },
                    c1,
                )
            },
        },
        TokenKindV::EOF => POp::Parsed(
            OperandV { addressing_mode: AddressingMode::IMPACC, value: None },
            c,
        ),
        TokenKindV::Newline => POp::Parsed(
            OperandV { addressing_mode: AddressingMode::IMPACC, value: None },
            c,
        ),
        k => POp::Fault(PErrV::InvalidOp(describe_v(k))),
    }
}

/// A leading identifier: followed by `:` it declares a label; otherwise
/// it must name a mnemonic, whose operand follows.
#[verifier::opaque]
pub open spec fn spec_parse_identifier(
    s: Seq<char>,
    c: int,
    defines: Map<Seq<char>, OperandV>,
    id: Seq<char>,
) -> PStmt {
    if cur_of(s, next_pos(s, c)) is Colon {
        match spec_advance(s, c) {
            Adv::Stuck(k) => PStmt::Fault(PErrV::Lex(k)),
            Adv::Step(c1) => match spec_advance(s, c1) {
                Adv::Stuck(k) => PStmt::Fault(PErrV::Lex(k)),
                Adv::Step(c2) => PStmt::Parsed(StatementV::Label(id), c2),
            },
        }
    } else {
        match spec_mnemonic_of(spec_upper_seq(id)) {
            None => PStmt::Fault(PErrV::BadMnemonic(id)),
            Some(m) => match spec_advance(s, c) {
                Adv::Stuck(k) => PStmt::Fault(PErrV::Lex(k)),
                Adv::Step(c1) => match spec_parse_operand(s, c1, defines) {
                    POp::Fault(f) => PStmt::Fault(f),
                    POp::Parsed(op, c2) => PStmt::Parsed(
                        StatementV::Instruction(InstructionV { opcode: m, operand: op }),
                        c2,
                    ),
                },
            },
        }
    }
}

/// A `define` directive: the name and its operand enter the define
/// table; no statement is produced.
#[verifier::opaque]
pub open spec fn spec_parse_define(
    s: Seq<char>,
    c: int,
    defines: Map<Seq<char>, OperandV>,
) -> PDef {
    match spec_advance(s, c) {
        Adv::Stuck(k) => PDef::Fault(PErrV::Lex(k)),
        Adv::Step(c1) => match cur_of(s, c1) {
            TokenKindV::Identifier(id) => match spec_advance(s, c1) {
                Adv::Stuck(k) => PDef::Fault(PErrV::Lex(k)),
                Adv::Step(c2) => match spec_parse_operand(s, c2, defines) {
                    POp::Fault(f) => PDef::Fault(f),
                    POp::Parsed(op, c3) => PDef::Defined(id, op, defines.insert(id, op), c3),
                },
            },
            k => PDef::Fault(
                PErrV::Unexpected(
                    describe_v(TokenKindV::Identifier("identifier"@)),
                    describe_v(k),
                ),
            ),
        },
    }
}

/// How one whole parse runs: from cursor `c` with define table
/// `defines`, the statements `stmts` are produced in order and the run
/// ends as `end` says, within `fuel` productions. Blank lines are
/// skipped; labels and instructions are statements; `define` extends the
/// table; any other leading token faults.
pub enum ParseEnd {
    Finished,
    Faulted(PErrV),
}

pub open spec fn spec_parse_rel(
    s: Seq<char>,
    c: int,
    defines: Map<Seq<char>, OperandV>,
    stmts: Seq<StatementV>,
    end: ParseEnd,
    fuel: nat,
) -> bool
    decreases fuel,
{
    if fuel == 0 {
        false
    } else {
        let k = cur_of(s, c);
        match k {
            TokenKindV::EOF => stmts.len() == 0 && end == ParseEnd::Finished,
            TokenKindV::Newline => match spec_advance(s, c) {
                Adv::Step(c1) => spec_parse_rel(s, c1, defines, stmts, end, (fuel - 1) as nat),
                Adv::Stuck(kk) => stmts.len() == 0 && end == ParseEnd::Faulted(PErrV::Lex(kk)),
            },
            TokenKindV::Identifier(id) => match spec_parse_identifier(s, c, defines, id) {
                PStmt::Fault(f) => stmts.len() == 0 && end == ParseEnd::Faulted(f),
                PStmt::Parsed(stmt, c1) => stmts.len() >= 1 && stmts[0] == stmt && (if cur_of(
                    s,
                    c1,
                ) is Newline {
                    match spec_advance(s, c1) {
                        Adv::Step(c2) => spec_parse_rel(
                            s,
                            c2,
                            defines,
                            stmts.drop_first(),
                            end,
                            (fuel - 1) as nat,
                        ),
                        Adv::Stuck(kk) => stmts.len() == 1 && end == ParseEnd::Faulted(
                            PErrV::Lex(kk),
                        ),
                    }
                } else {
                    spec_parse_rel(s, c1, defines, stmts.drop_first(), end, (fuel - 1) as nat)
                }),
            },
            TokenKindV::Define => match spec_parse_define(s, c, defines) {
                PDef::Fault(f) => stmts.len() == 0 && end == ParseEnd::Faulted(f),
                PDef::Defined(n, op, d2, c1) => stmts.len() >= 1 && stmts[0] == StatementV::Define(
                    n,
                    op,
                ) && (if cur_of(s, c1) is Newline {
                    match spec_advance(s, c1) {
                        Adv::Step(c2) => spec_parse_rel(
                            s,
                            c2,
                            d2,
                            stmts.drop_first(),
                            end,
                            (fuel - 1) as nat,
                        ),
                        Adv::Stuck(kk) => stmts.len() == 1 && end == ParseEnd::Faulted(
                            PErrV::Lex(kk),
                        ),
                    }
                } else {
                    spec_parse_rel(s, c1, d2, stmts.drop_first(), end, (fuel - 1) as nat)
                }),
            },
            _ => stmts.len() == 0 && end == ParseEnd::Faulted(
                PErrV::Unexpected(describe_v(TokenKindV::Identifier("identifier"@)), describe_v(k)),
            ),
        }
    }
}

/// The define table an entry list denotes: later entries override
/// earlier ones.
pub open spec fn spec_defines_map(entries: Seq<(String, Operand)>) -> Map<Seq<char>, OperandV>
    decreases entries.len(),
{
    if entries.len() == 0 {
        Map::empty()
    } else {
        spec_defines_map(entries.drop_last()).insert(
            entries.last().0@,
            entries.last().1@,
        )
    }
}


/// If index `i` holds the last entry named `key`, the define table maps
/// `key` to that entry's operand.
proof fn lemma_defines_last_match(entries: Seq<(String, Operand)>, key: Seq<char>, i: int)
    requires
        0 <= i < entries.len(),
        entries[i].0@ == key,
        forall|j: int| i < j < entries.len() ==> entries[j].0@ != key,
    ensures
        spec_defines_map(entries).contains_key(key),
        spec_defines_map(entries)[key] == entries[i].1@,
    decreases entries.len(),
{
    if i == entries.len() - 1 {
    } else {
        lemma_defines_last_match(entries.drop_last(), key, i);
    }
}

/// A name no entry carries is absent from the define table.
proof fn lemma_defines_no_match(entries: Seq<(String, Operand)>, key: Seq<char>)
    requires
        forall|j: int| 0 <= j < entries.len() ==> entries[j].0@ != key,
    ensures
        !spec_defines_map(entries).contains_key(key),
    decreases entries.len(),
{
    if entries.len() > 0 {
        lemma_defines_no_match(entries.drop_last(), key);
    }
}


/// One statement-producing loop step extends the parse relation: if the
/// remaining input relates from the state after the statement (and its
/// trailing newline), it relates from the state before it with the
/// statement prepended.
#[verifier::rlimit(100)]
#[verifier::spinoff_prover]
proof fn lemma_step_stmt(
    s: Seq<char>,
    c0: int,
    d0: Map<Seq<char>, OperandV>,
    pre: Parser,
    mid_at: int,
    now_at: int,
    d: Map<Seq<char>, OperandV>,
    stv: StatementV,
    done: Seq<StatementV>,
    rest: Seq<StatementV>,
    end: ParseEnd,
    fuel: nat,
)
    requires
        pre.wf(),
        pre.src() == s,
        pre.defines_view() == d,
        pre.current_token.kind@ matches TokenKindV::Identifier(idv) && (spec_parse_identifier(
            s,
            pre.at(),
            d,
            idv,
        ) == PStmt::Parsed(stv, mid_at)),
        if cur_of(s, mid_at) is Newline {
            spec_advance(s, mid_at) == Adv::Step(now_at)
        } else {
            now_at == mid_at
        },
        forall|rest2: Seq<StatementV>, end2: ParseEnd, fuel2: nat|
            #[trigger] spec_parse_rel(s, pre.at(), d, rest2, end2, fuel2) ==> exists|fuel3: nat|
                #[trigger] spec_parse_rel(s, c0, d0, done + rest2, end2, fuel3),
        spec_parse_rel(s, now_at, d, rest, end, fuel),
    ensures
        exists|fuel3: nat|
            #[trigger] spec_parse_rel(s, c0, d0, (done + seq![stv]) + rest, end, fuel3),
{
    let stmts2 = seq![stv] + rest;
    assert(stmts2.drop_first() =~= rest);
    assert(spec_parse_rel(s, pre.at(), d, stmts2, end, fuel + 1));
    let fuel3 = choose|fuel3: nat| spec_parse_rel(s, c0, d0, done + stmts2, end, fuel3);
    assert(spec_parse_rel(s, c0, d0, done + stmts2, end, fuel3));
    assert(done + stmts2 =~= (done + seq![stv]) + rest);
}

/// One define-directive loop step extends the parse relation with the
/// define statement and the updated table.
#[verifier::rlimit(100)]
#[verifier::spinoff_prover]
proof fn lemma_step_define(
    s: Seq<char>,
    c0: int,
    d0: Map<Seq<char>, OperandV>,
    pre: Parser,
    stmt: StatementV,
    d2: Map<Seq<char>, OperandV>,
    mid_at: int,
    now_at: int,
    done: Seq<StatementV>,
    rest: Seq<StatementV>,
    end: ParseEnd,
    fuel: nat,
)
    requires
        pre.wf(),
        pre.src() == s,
        pre.current_token.kind@ is Define,
        spec_parse_define(s, pre.at(), pre.defines_view()) matches PDef::Defined(n, op, dd, c1)
            && dd == d2 && c1 == mid_at && stmt == StatementV::Define(n, op),
        if cur_of(s, mid_at) is Newline {
            spec_advance(s, mid_at) == Adv::Step(now_at)
        } else {
            now_at == mid_at
        },
        forall|rest2: Seq<StatementV>, end2: ParseEnd, fuel2: nat|
            #[trigger] spec_parse_rel(s, pre.at(), pre.defines_view(), rest2, end2, fuel2)
                ==> exists|fuel3: nat|
                #[trigger] spec_parse_rel(s, c0, d0, done + rest2, end2, fuel3),
        spec_parse_rel(s, now_at, d2, rest, end, fuel),
    ensures
        exists|fuel3: nat|
            #[trigger] spec_parse_rel(s, c0, d0, (done + seq![stmt]) + rest, end, fuel3),
{
    let stmts2 = seq![stmt] + rest;
    assert(stmts2.drop_first() =~= rest);
    assert(spec_parse_rel(s, pre.at(), pre.defines_view(), stmts2, end, fuel + 1));
    let fuel3 = choose|fuel3: nat| spec_parse_rel(s, c0, d0, done + stmts2, end, fuel3);
    assert(spec_parse_rel(s, c0, d0, done + stmts2, end, fuel3));
    assert(done + stmts2 =~= (done + seq![stmt]) + rest);
}

/// A statement-free loop step (a blank line with its token) extends the
/// parse relation unchanged.
#[verifier::rlimit(100)]
#[verifier::spinoff_prover]
proof fn lemma_step_keep(
    s: Seq<char>,
    c0: int,
    d0: Map<Seq<char>, OperandV>,
    pre: Parser,
    now_at: int,
    d2: Map<Seq<char>, OperandV>,
    done: Seq<StatementV>,
    rest: Seq<StatementV>,
    end: ParseEnd,
    fuel: nat,
)
    requires
        pre.wf(),
        pre.src() == s,
        pre.current_token.kind@ is Newline && spec_advance(s, pre.at()) == Adv::Step(now_at) && d2
            == pre.defines_view(),
        forall|rest2: Seq<StatementV>, end2: ParseEnd, fuel2: nat|
            #[trigger] spec_parse_rel(s, pre.at(), pre.defines_view(), rest2, end2, fuel2)
                ==> exists|fuel3: nat| #[trigger] spec_parse_rel(s, c0, d0, done + rest2, end2, fuel3),
        spec_parse_rel(s, now_at, d2, rest, end, fuel),
    ensures
        exists|fuel3: nat| #[trigger] spec_parse_rel(s, c0, d0, done + rest, end, fuel3),
{
    assert(spec_parse_rel(s, pre.at(), pre.defines_view(), rest, end, fuel + 1));
}

/// A faulted step produces the faulted parse relation for the statements
/// accumulated so far plus whatever the step itself contributed.
#[verifier::rlimit(100)]
#[verifier::spinoff_prover]
proof fn lemma_step_fault(
    s: Seq<char>,
    c0: int,
    d0: Map<Seq<char>, OperandV>,
    pre: Parser,
    contributed: Seq<StatementV>,
    f: PErrV,
    done: Seq<StatementV>,
)
    requires
        pre.wf(),
        pre.src() == s,
        spec_parse_rel(s, pre.at(), pre.defines_view(), contributed, ParseEnd::Faulted(f), 1),
        forall|rest2: Seq<StatementV>, end2: ParseEnd, fuel2: nat|
            #[trigger] spec_parse_rel(s, pre.at(), pre.defines_view(), rest2, end2, fuel2)
                ==> exists|fuel3: nat| #[trigger] spec_parse_rel(s, c0, d0, done + rest2, end2, fuel3),
    ensures
        exists|fuel3: nat, stmts: Seq<StatementV>|
            #[trigger] spec_parse_rel(s, c0, d0, stmts, ParseEnd::Faulted(f), fuel3),
{
    let fuel3 = choose|fuel3: nat|
        spec_parse_rel(s, c0, d0, done + contributed, ParseEnd::Faulted(f), fuel3);
    assert(spec_parse_rel(s, c0, d0, done + contributed, ParseEnd::Faulted(f), fuel3));
}


/// A successful whole-program parse: from cursor `c` with defines `d`,
/// the input parses to exactly `stmts`.
pub open spec fn spec_parse_to(
    src: Seq<char>,
    c: int,
    d: Map<Seq<char>, OperandV>,
    stmts: Seq<StatementV>,
) -> bool {
    exists|fuel: nat| spec_parse_rel(src, c, d, stmts, ParseEnd::Finished, fuel)
}

pub struct Parser {
    pub lexer: Lexer,
    pub current_token: Token,
    pub peek_token: Token,
    position: Position,
    defines: Vec<(String, Operand)>,
    cur_at: Ghost<int>,
    peek_at: Ghost<int>,
}

impl Parser {
    /// The source characters being parsed.
    pub closed spec fn src(&self) -> Seq<char> {
        self.lexer.input@
    }

    /// Where the current token was scanned from.
    pub closed spec fn at(&self) -> int {
        self.cur_at@
    }

    /// The define table so far.
    pub closed spec fn defines_view(&self) -> Map<Seq<char>, OperandV> {
        spec_defines_map(self.defines@)
    }

    /// The parser's invariant: the lexer is sound, and the two lookahead
    /// tokens are exactly what the scanner yields at their cursors.
    pub closed spec fn wf(&self) -> bool {
        &&& self.lexer.wf()
        &&& 0 <= self.cur_at@ <= self.src().len()
        &&& 0 <= self.peek_at@ <= self.src().len()
        &&& spec_scan(self.src(), self.cur_at@) == Scan::Tok(self.current_token.kind@, self.peek_at@)
        &&& spec_scan(self.src(), self.peek_at@) == Scan::Tok(
            self.peek_token.kind@,
            self.lexer.cursor(),
        )
    }

    /// A parser primed with the first two tokens of the lexer's input;
    /// a lexing failure in those two tokens surfaces at once.
    pub fn new(lexer: Lexer) -> (r: AssemblerResult<Parser>)
        requires
            lexer.wf(),
        ensures
            match r {
                Ok(p) => p.wf() && p.src() == lexer.input@ && p.at() == lexer.cursor()
                    && p.defines_view() == Map::<Seq<char>, OperandV>::empty(),
                Err(e) => exists|j: int|
                    #![trigger spec_scan(lexer.input@, j)]
                    0 <= j <= lexer.input@.len() && (spec_scan(lexer.input@, j) matches Scan::Fail(
                        k,
                        _,
                    ) && e.kind == k),
            },
    {
        let ghost c0 = lexer.cursor();
        let mut lexer = lexer;
        proof {
            lemma_scan_bounds(lexer.input@, c0);
        }
        let t1 = match lexer.next_token() {
            Ok(t) => t,
            Err(e) => {
                proof {
                    assert(spec_scan(lexer.input@, c0) matches Scan::Fail(k, _) && e.kind == k);
                }
                return Err(e);
            },
        };
        let ghost p1 = lexer.cursor();
        proof {
            lemma_scan_bounds(lexer.input@, p1);
        }
        let t2 = match lexer.next_token() {
            Ok(t) => t,
            Err(e) => {
                return Err(e);
            },
        };
        let position = t1.position;
        Ok(
            Parser {
                lexer,
                current_token: t1,
                peek_token: t2,
                position,
                defines: Vec::new(),
                cur_at: Ghost(c0),
                peek_at: Ghost(p1),
            },
        )
    }

    /// Slide the lookahead window one token forward.
    fn next_token(&mut self) -> (r: AssemblerResult<()>)
        requires
            old(self).wf(),
        ensures
            final(self).src() == old(self).src(),
            final(self).defines_view() == old(self).defines_view(),
            match spec_advance(old(self).src(), old(self).at()) {
                Adv::Step(c2) => r is Ok && final(self).wf() && final(self).at() == c2
                    && final(self).current_token == old(self).peek_token && c2 == old(self).peek_at@,
                Adv::Stuck(k) => r matches Err(e) && e.kind == k,
            },
            final(self).at() >= old(self).at(),
            r is Ok && !(old(self).current_token.kind@ is EOF) ==> final(self).at() > old(self).at(),
    {
        proof {
            lemma_scan_bounds(self.src(), self.cur_at@);
            lemma_scan_bounds(self.src(), self.peek_at@);
            lemma_scan_bounds(self.src(), self.lexer.cursor());
        }
        core::mem::swap(&mut self.current_token, &mut self.peek_token);
        let ghost old_cursor = self.lexer.cursor();
        match self.lexer.next_token() {
            Ok(t) => {
                self.peek_token = t;
                proof {
                    self.cur_at@ = self.peek_at@;
                    self.peek_at@ = old_cursor;
                }
                self.position = self.current_token.position;
                Ok(())
            },
            Err(e) => Err(e),
        }
    }

    /// The unexpected-token error for the current position.
    fn expected(&mut self, expected: &TokenKind) -> (r: AssemblerResult<()>)
        ensures
            r matches Err(e) && err_matches(
                e.kind,
                PErrV::Unexpected(expected.describe(), old(self).current_token.kind.describe()),
            ),
            *final(self) == *old(self),
    {
        Err(
            AssemblerError::new(
                AssemblerErrorKind::UnexpectedToken {
                    expected: expected.text(),
                    found: self.current_token.kind.text(),
                },
                self.position,
            ),
        )
    }

    /// Demand one exact token and consume it.
    fn expect_token(&mut self, token: &TokenKind) -> (r: AssemblerResult<()>)
        requires
            old(self).wf(),
        ensures
            final(self).src() == old(self).src(),
            final(self).defines_view() == old(self).defines_view(),
            if old(self).current_token.kind@ == token@ {
                match spec_advance(old(self).src(), old(self).at()) {
                    Adv::Step(c2) => r is Ok && final(self).wf() && final(self).at() == c2,
                    Adv::Stuck(k) => r matches Err(e) && e.kind == k,
                }
            } else {
                r matches Err(e) && err_matches(
                    e.kind,
                    PErrV::Unexpected(
                        describe_v(token@),
                        describe_v(old(self).current_token.kind@),
                    ),
                ) && *final(self) == *old(self)
            },
            final(self).at() >= old(self).at(),
    {
        if self.current_token.kind.same(token) {
            self.next_token()?;
            Ok(())
        } else {
            self.expected(token)
        }
    }

    /// The last entry for `name`, if the define table holds one.
    fn lookup_define(&self, name: &String) -> (r: Option<Operand>)
        ensures
            match r {
                Some(op) => self.defines_view().contains_key(name@) && op@ == self.defines_view()[
                    name@
                ],
                None => !self.defines_view().contains_key(name@),
            },
    {
        let mut i: usize = self.defines.len();
        while i > 0
            invariant
                i <= self.defines@.len(),
                forall|j: int| i <= j < self.defines@.len() ==> self.defines@[j].0@ != name@,
            decreases i,
        {
            i = i - 1;
            if self.defines[i].0 == *name {
                proof {
                    lemma_defines_last_match(self.defines@, name@, i as int);
                }
                return Some(self.defines[i].1.duplicate());
            }
        }
        proof {
            lemma_defines_no_match(self.defines@, name@);
        }
        None
    }

    /// Bind `name` to `op`, overriding any earlier binding.
    fn insert_define(&mut self, name: String, op: Operand)
        ensures
            final(self).defines_view() == old(self).defines_view().insert(name@, op@),
            final(self).lexer == old(self).lexer,
            final(self).current_token == old(self).current_token,
            final(self).peek_token == old(self).peek_token,
            final(self).at() == old(self).at(),
            final(self).wf() == old(self).wf(),
            final(self).src() == old(self).src(),
    {
        let ghost before = self.defines@;
        self.defines.push((name, op));
        proof {
            assert(self.defines@.drop_last() =~= before);
        }
    }

    /// Classify the current token as operand data, without consuming it.
    fn parse_operand_data(&self) -> (r: AssemblerResult<OperandData>)
        requires
            self.wf(),
        ensures
            match spec_parse_operand_data(self.src(), self.at(), self.defines_view()) {
                PData::Value(v) => r matches Ok(od) && od@ == v,
                PData::Fault(f) => r matches Err(e) && err_matches(e.kind, f),
            },
    {
        match &self.current_token.kind {
            TokenKind::Decimal(number) => {
                let number = *number;
                if number > 255 {
                    Ok(OperandData::Number(NumberType::Decimal16(number)))
                } else {
                    Ok(OperandData::Number(NumberType::Decimal8(number as u8)))
                }
            },
            TokenKind::Hexadecimal8Bit(number) => Ok(
                OperandData::Number(NumberType::Hexadecimal8(*number)),
            ),
            TokenKind::Hexadecimal16Bit(number) => Ok(
                OperandData::Number(NumberType::Hexadecimal16(*number)),
            ),
            TokenKind::Identifier(identifier) => {
                match self.lookup_define(identifier) {
                    Some(operand) => {
                        match operand.value {
                            Some(v) => Ok(v),
                            None => Err(
                                AssemblerError::new(
                                    AssemblerErrorKind::InvalidOperand(identifier.clone()),
                                    self.position,
                                ),
                            ),
                        }
                    },
                    None => Ok(OperandData::Label(identifier.clone())),
                }
            },
            _ => Err(
                AssemblerError::new(
                    AssemblerErrorKind::InvalidOperand(self.current_token.kind.text()),
                    self.position,
                ),
            ),
        }
    }

    /// An 8-bit operand with an optional `,X` or `,Y` suffix.
    fn parse_8bit_operand_comma(&mut self, operand_data: OperandData) -> (r: AssemblerResult<
        Operand,
    >)
        requires
            old(self).wf(),
        ensures
            final(self).src() == old(self).src(),
            final(self).defines_view() == old(self).defines_view(),
            final(self).at() >= old(self).at(),
            match spec_parse_8bit_comma(old(self).src(), old(self).at(), operand_data@) {
                POp::Parsed(op, c2) => r matches Ok(o) && o@ == op && final(self).wf() && final(self).at() == c2,
                POp::Fault(f) => r matches Err(e) && err_matches(e.kind, f),
            },
    {
        if matches!(self.current_token.kind, TokenKind::Comma) {
            self.next_token()?;
            if matches!(self.current_token.kind, TokenKind::X) {
                self.next_token()?;
                Ok(Operand::new(AddressingMode::ZPX, Some(operand_data)))
            } else if matches!(self.current_token.kind, TokenKind::Y) {
                self.next_token()?;
                Ok(Operand::new(AddressingMode::ZPY, Some(operand_data)))
            } else {
                Err(
                    AssemblerError::new(
                        AssemblerErrorKind::InvalidOperand(operand_data.text()),
                        self.position,
                    ),
                )
            }
        } else {
            Ok(Operand::new(AddressingMode::RELZPG, Some(operand_data)))
        }
    }

    /// A 16-bit operand with an optional `,X` or `,Y` suffix.
    fn parse_16bit_operand_comma(&mut self, operand_data: OperandData) -> (r: AssemblerResult<
        Operand,
    >)
        requires
            old(self).wf(),
        ensures
            final(self).src() == old(self).src(),
            final(self).defines_view() == old(self).defines_view(),
            final(self).at() >= old(self).at(),
            match spec_parse_16bit_comma(old(self).src(), old(self).at(), operand_data@) {
                POp::Parsed(op, c2) => r matches Ok(o) && o@ == op && final(self).wf() && final(self).at() == c2,
                POp::Fault(f) => r matches Err(e) && err_matches(e.kind, f),
            },
    {
        if matches!(self.current_token.kind, TokenKind::Comma) {
            self.next_token()?;
            if matches!(self.current_token.kind, TokenKind::X) {
                self.next_token()?;
                Ok(Operand::new(AddressingMode::ABX, Some(operand_data)))
            } else if matches!(self.current_token.kind, TokenKind::Y) {
                self.next_token()?;
                Ok(Operand::new(AddressingMode::ABY, Some(operand_data)))
            } else {
                Err(
                    AssemblerError::new(
                        AssemblerErrorKind::InvalidOperand(operand_data.text()),
                        self.position,
                    ),
                )
            }
        } else {
            Ok(Operand::new(AddressingMode::ABS, Some(operand_data)))
        }
    }

    /// The indirect forms after `(` and the inner operand.
    fn parse_operand_lparen(&mut self, operand_data: OperandData) -> (r: AssemblerResult<Operand>)
        requires
            old(self).wf(),
        ensures
            final(self).src() == old(self).src(),
            final(self).defines_view() == old(self).defines_view(),
            final(self).at() >= old(self).at(),
            match spec_parse_lparen(old(self).src(), old(self).at(), operand_data@) {
                POp::Parsed(op, c2) => r matches Ok(o) && o@ == op && final(self).wf() && final(self).at() == c2,
                POp::Fault(f) => r matches Err(e) && err_matches(e.kind, f),
            },
    {
        if matches!(self.current_token.kind, TokenKind::Comma) {
            self.next_token()?;
            self.expect_token(&TokenKind::X)?;
            if matches!(self.current_token.kind, TokenKind::RParen) {
                self.next_token()?;
                Ok(Operand::new(AddressingMode::IDX, Some(operand_data)))
            } else {
                Err(
                    AssemblerError::new(
                        AssemblerErrorKind::UnexpectedToken {
                            expected: TokenKind::RParen.text(),
                            found: self.current_token.kind.text(),
                        },
                        self.position,
                    ),
                )
            }
        } else if matches!(self.current_token.kind, TokenKind::RParen) {
            self.next_token()?;
            if matches!(self.current_token.kind, TokenKind::Comma) {
                self.next_token()?;
                if matches!(self.current_token.kind, TokenKind::Y) {
                    self.next_token()?;
                    Ok(Operand::new(AddressingMode::IDY, Some(operand_data)))
                } else {
                    Err(
                        AssemblerError::new(
                            AssemblerErrorKind::UnexpectedToken {
                                expected: TokenKind::Y.text(),
                                found: self.current_token.kind.text(),
                            },
                            self.position,
                        ),
                    )
                }
            } else {
                Ok(Operand::new(AddressingMode::IND, Some(operand_data)))
            }
        } else {
            Err(
                AssemblerError::new(
                    AssemblerErrorKind::InvalidOperand(operand_data.text()),
                    self.position,
                ),
            )
        }
    }

    /// One operand in any of its surface forms.
    fn parse_operand(&mut self) -> (r: AssemblerResult<Operand>)
        requires
            old(self).wf(),
        ensures
            final(self).src() == old(self).src(),
            final(self).defines_view() == old(self).defines_view(),
            final(self).at() >= old(self).at(),
            match spec_parse_operand(old(self).src(), old(self).at(), old(self).defines_view()) {
                POp::Parsed(op, c2) => r matches Ok(o) && o@ == op && final(self).wf() && final(self).at() == c2,
                POp::Fault(f) => r matches Err(e) && err_matches(e.kind, f),
            },
    {
        proof {
            reveal(spec_parse_operand);
        }
        if matches!(self.current_token.kind, TokenKind::Hash) {
            self.next_token()?;
            let operand_data = self.parse_operand_data()?;
            if !operand_data.is_8() {
                return Err(
                    AssemblerError::new(
                        AssemblerErrorKind::InvalidOperand(operand_data.text()),
                        self.position,
                    ),
                );
            }
            self.next_token()?;
            return Ok(Operand::new(AddressingMode::IMM, Some(operand_data)));
        }
        if let TokenKind::Hexadecimal8Bit(n) = &self.current_token.kind {
            let number = *n;
            self.next_token()?;
            return self.parse_8bit_operand_comma(
                OperandData::Number(NumberType::Hexadecimal8(number)),
            );
        }
        if let TokenKind::Hexadecimal16Bit(n) = &self.current_token.kind {
            let number = *n;
            self.next_token()?;
            return self.parse_16bit_operand_comma(
                OperandData::Number(NumberType::Hexadecimal16(number)),
            );
        }
        if matches!(self.current_token.kind, TokenKind::LParen) {
            self.next_token()?;
            let operand_data = self.parse_operand_data()?;
            self.next_token()?;
            return self.parse_operand_lparen(operand_data);
        }
        if let TokenKind::Decimal(n) = &self.current_token.kind {
            let number = *n;
            self.next_token()?;
            if number > 255 {
                return self.parse_16bit_operand_comma(
                    OperandData::Number(NumberType::Decimal16(number)),
                );
            }
            return self.parse_8bit_operand_comma(
                OperandData::Number(NumberType::Decimal8(number as u8)),
            );
        }
        if matches!(self.current_token.kind, TokenKind::Identifier(_)) {
            let identifier = if let TokenKind::Identifier(s) = &self.current_token.kind {
                s.clone()
            } else {
                String::new()
            };
            self.next_token()?;
            match self.lookup_define(&identifier) {
                Some(operand) => {
                    match operand.addressing_mode {
                        AddressingMode::ZPX | AddressingMode::ZPY | AddressingMode::ABX
                            | AddressingMode::ABY => Ok(operand),
                        _ => {
                            match &operand.value {
                                Some(value) => {
                                    match value {
                                        OperandData::Number(NumberType::Decimal8(_))
                                            | OperandData::Number(
                                            NumberType::Hexadecimal8(_),
                                        ) => {
                                            let v = value.duplicate();
                                            self.parse_8bit_operand_comma(v)
                                        },
                                        OperandData::Number(_) => {
                                            let v = value.duplicate();
                                            self.parse_16bit_operand_comma(v)
                                        },
                                        OperandData::Label(_) => Ok(operand.duplicate()),
                                    }
                                },
                                None => Err(
                                    AssemblerError::new(
                                        AssemblerErrorKind::InvalidOperand(identifier),
                                        self.position,
                                    ),
                                ),
                            }
                        },
                    }
                },
                None => Ok(
                    Operand::new(
                        AddressingMode::RELZPG,
                        Some(OperandData::Label(identifier)),
                    ),
                ),
            }
        } else if matches!(self.current_token.kind, TokenKind::EOF) || matches!(
            self.current_token.kind,
            TokenKind::Newline,
        ) {
            Ok(Operand::new(AddressingMode::IMPACC, None))
        } else {
            Err(
                AssemblerError::new(
                    AssemblerErrorKind::InvalidOperand(self.current_token.kind.text()),
                    self.position,
                ),
            )
        }
    }

    /// A leading identifier: a label declaration or an instruction.
    fn parse_identifier(&mut self) -> (r: AssemblerResult<Statement>)
        requires
            old(self).wf(),
            old(self).current_token.kind@ matches TokenKindV::Identifier(_),
        ensures
            final(self).src() == old(self).src(),
            final(self).defines_view() == old(self).defines_view(),
            final(self).at() >= old(self).at(),
            ({
                let idv = old(self).current_token.kind@->Identifier_0;
                match spec_parse_identifier(
                    old(self).src(),
                    old(self).at(),
                    old(self).defines_view(),
                    idv,
                ) {
                    PStmt::Parsed(st, c2) => r matches Ok(stmt) && stmt@ == st && final(self).wf()
                        && final(self).at() == c2 && final(self).at() > old(self).at(),
                    PStmt::Fault(f) => r matches Err(e) && err_matches(e.kind, f),
                }
            }),
    {
        proof {
            reveal(spec_parse_identifier);
        }
        let identifier = if let TokenKind::Identifier(s) = &self.current_token.kind {
            s.clone()
        } else {
            String::new()
        };
        if matches!(self.peek_token.kind, TokenKind::Colon) {
            self.next_token()?;
            self.next_token()?;
            Ok(Statement::Label(identifier))
        } else {
            let instruction = Mnemonics::to_mnemonics(identifier.as_str(), self.position)?;
            self.next_token()?;
            let operand = self.parse_operand()?;
            Ok(
                Statement::Instruction(
                    Instruction { opcode: instruction, operand, position: self.position },
                ),
            )
        }
    }

    /// A `define` directive: bind a name to an operand, and hand back
    /// the directive as a statement.
    fn parse_define(&mut self) -> (r: AssemblerResult<Statement>)
        requires
            old(self).wf(),
            old(self).current_token.kind@ is Define,
        ensures
            final(self).src() == old(self).src(),
            final(self).at() >= old(self).at(),
            match spec_parse_define(old(self).src(), old(self).at(), old(self).defines_view()) {
                PDef::Defined(n, op, d2, c2) => r matches Ok(stmt) && stmt@ == StatementV::Define(
                    n,
                    op,
                ) && final(self).wf() && final(self).at() == c2 && final(self).defines_view() == d2
                    && final(self).at() > old(self).at(),
                PDef::Fault(f) => r matches Err(e) && err_matches(e.kind, f),
            },
    {
        proof {
            reveal(spec_parse_define);
        }
        self.expect_token(&TokenKind::Define)?;
        let identifier = match &self.current_token.kind {
            TokenKind::Identifier(s) => s.clone(),
            _ => {
                let expected_token = TokenKind::Identifier("identifier".to_owned());
                return Err(
                    AssemblerError::new(
                        AssemblerErrorKind::UnexpectedToken {
                            expected: expected_token.text(),
                            found: self.current_token.kind.text(),
                        },
                        self.position,
                    ),
                );
            },
        };
        self.next_token()?;
        let operand = self.parse_operand()?;
        let statement = Statement::Define(identifier.clone(), operand.duplicate());
        self.insert_define(identifier, operand);
        Ok(statement)
    }

    /// Parse the whole input into its statement list. The relation
    /// `spec_parse_rel` names exactly the statements of a successful
    /// parse and the failure of an unsuccessful one.
    #[verifier::rlimit(100)]
    #[verifier::spinoff_prover]
    pub fn parse(&mut self) -> (r: AssemblerResult<Program>)
        requires
            old(self).wf(),
        ensures
            final(self).src() == old(self).src(),
            match r {
                Ok(program) => spec_parse_to(
                    old(self).src(),
                    old(self).at(),
                    old(self).defines_view(),
                    program@,
                ),
                Err(e) => exists|fuel: nat, stmts: Seq<StatementV>, f: PErrV|
                    #![trigger spec_parse_rel(
                        old(self).src(),
                        old(self).at(),
                        old(self).defines_view(),
                        stmts,
                        ParseEnd::Faulted(f),
                        fuel,
                    )]
                    spec_parse_rel(
                        old(self).src(),
                        old(self).at(),
                        old(self).defines_view(),
                        stmts,
                        ParseEnd::Faulted(f),
                        fuel,
                    ) && err_matches(e.kind, f),
            },
    {
        let mut statements: Vec<Statement> = Vec::new();
        let ghost s = self.src();
        let ghost c0 = self.at();
        let ghost d0 = self.defines_view();
        proof {
            assert forall|rest: Seq<StatementV>, end: ParseEnd, fuel: nat|
                #[trigger] spec_parse_rel(s, c0, d0, rest, end, fuel) implies exists|fuel2: nat|
                #[trigger] spec_parse_rel(
                    s,
                    c0,
                    d0,
                    stmt_views(statements@) + rest,
                    end,
                    fuel2,
                ) by {
                assert(stmt_views(statements@) + rest =~= rest);
                assert(spec_parse_rel(
                    s,
                    c0,
                    d0,
                    stmt_views(statements@) + rest,
                    end,
                    fuel,
                ));
            }
        }
        while !matches!(self.current_token.kind, TokenKind::EOF)
            invariant
                self.wf(),
                self.src() == s,
                s == old(self).src(),
                c0 == old(self).at(),
                d0 == old(self).defines_view(),
                forall|rest: Seq<StatementV>, end: ParseEnd, fuel: nat|
                    #[trigger] spec_parse_rel(s, self.at(), self.defines_view(), rest, end, fuel)
                        ==> exists|fuel2: nat|
                        #[trigger] spec_parse_rel(
                            s,
                            c0,
                            d0,
                            stmt_views(statements@) + rest,
                            end,
                            fuel2,
                        ),
            decreases s.len() - self.at(),
        {
            let ghost pre = *self;
            let ghost done = stmt_views(statements@);
            if matches!(self.current_token.kind, TokenKind::Identifier(_)) {
                let statement = match self.parse_identifier() {
                    Ok(st) => st,
                    Err(e) => {
                        proof {
                            let f = spec_parse_identifier(
                                s,
                                pre.at(),
                                pre.defines_view(),
                                pre.current_token.kind@->Identifier_0,
                            )->Fault_0;
                            assert(spec_parse_rel(
                                s,
                                pre.at(),
                                pre.defines_view(),
                                Seq::<StatementV>::empty(),
                                ParseEnd::Faulted(f),
                                1,
                            ));
                            assert(done + Seq::<StatementV>::empty() =~= done);
                        }
                        return Err(e);
                    },
                };
                let ghost stv = statement@;
                let ghost mid = *self;
                statements.push(statement);
                if matches!(self.current_token.kind, TokenKind::Newline) {
                    match self.next_token() {
                        Ok(()) => {},
                        Err(e) => {
                            proof {
                                let k = spec_advance(s, mid.at())->Stuck_0;
                                let f = PErrV::Lex(k);
                                assert(spec_parse_rel(
                                    s,
                                    pre.at(),
                                    pre.defines_view(),
                                    seq![stv],
                                    ParseEnd::Faulted(f),
                                    1,
                                ));
                                assert(done + seq![stv] =~= Seq::new(
                                    statements@.len(),
                                    |i: int| statements@[i]@,
                                ));
                            }
                            return Err(e);
                        },
                    }
                }
                proof {
                    let new_done = stmt_views(statements@);
                    assert(new_done =~= done + seq![stv]);
                    assert forall|rest: Seq<StatementV>, end: ParseEnd, fuel: nat|
                        #[trigger] spec_parse_rel(
                            s,
                            self.at(),
                            self.defines_view(),
                            rest,
                            end,
                            fuel,
                        ) implies exists|fuel2: nat|
                        #[trigger] spec_parse_rel(s, c0, d0, new_done + rest, end, fuel2) by {
                        lemma_step_stmt(
                            s,
                            c0,
                            d0,
                            pre,
                            mid.at(),
                            self.at(),
                            self.defines_view(),
                            stv,
                            done,
                            rest,
                            end,
                            fuel,
                        );
                        assert((done + seq![stv]) + rest =~= new_done + rest);
                        let fuel3 = choose|fuel3: nat|
                            spec_parse_rel(s, c0, d0, (done + seq![stv]) + rest, end, fuel3);
                        assert(spec_parse_rel(s, c0, d0, new_done + rest, end, fuel3));
                    }
                }
            } else if matches!(self.current_token.kind, TokenKind::Newline) {
                match self.next_token() {
                    Ok(()) => {},
                    Err(e) => {
                        proof {
                            let k = spec_advance(s, pre.at())->Stuck_0;
                            let f = PErrV::Lex(k);
                            assert(spec_parse_rel(
                                s,
                                pre.at(),
                                pre.defines_view(),
                                Seq::<StatementV>::empty(),
                                ParseEnd::Faulted(f),
                                1,
                            ));
                            assert(done + Seq::<StatementV>::empty() =~= done);
                        }
                        return Err(e);
                    },
                }
                proof {
                    assert forall|rest: Seq<StatementV>, end: ParseEnd, fuel: nat|
                        #[trigger] spec_parse_rel(
                            s,
                            self.at(),
                            self.defines_view(),
                            rest,
                            end,
                            fuel,
                        ) implies exists|fuel2: nat|
                        #[trigger] spec_parse_rel(s, c0, d0, done + rest, end, fuel2) by {
                        lemma_step_keep(
                            s,
                            c0,
                            d0,
                            pre,
                            self.at(),
                            self.defines_view(),
                            done,
                            rest,
                            end,
                            fuel,
                        );
                    }
                }
            } else if matches!(self.current_token.kind, TokenKind::Define) {
                let statement = match self.parse_define() {
                    Ok(st) => st,
                    Err(e) => {
                        proof {
                            let f = spec_parse_define(s, pre.at(), pre.defines_view())->Fault_0;
                            assert(spec_parse_rel(
                                s,
                                pre.at(),
                                pre.defines_view(),
                                Seq::<StatementV>::empty(),
                                ParseEnd::Faulted(f),
                                1,
                            ));
                            assert(done + Seq::<StatementV>::empty() =~= done);
                        }
                        return Err(e);
                    },
                };
                let ghost stv = statement@;
                let ghost mid = *self;
                statements.push(statement);
                if matches!(self.current_token.kind, TokenKind::Newline) {
                    match self.next_token() {
                        Ok(()) => {},
                        Err(e) => {
                            proof {
                                let k = spec_advance(s, mid.at())->Stuck_0;
                                let f = PErrV::Lex(k);
                                assert(spec_parse_rel(
                                    s,
                                    pre.at(),
                                    pre.defines_view(),
                                    seq![stv],
                                    ParseEnd::Faulted(f),
                                    1,
                                ));
                                assert(done + seq![stv] =~= stmt_views(statements@));
                            }
                            return Err(e);
                        },
                    }
                }
                proof {
                    let new_done = stmt_views(statements@);
                    assert(new_done =~= done + seq![stv]);
                    assert forall|rest: Seq<StatementV>, end: ParseEnd, fuel: nat|
                        #[trigger] spec_parse_rel(
                            s,
                            self.at(),
                            self.defines_view(),
                            rest,
                            end,
                            fuel,
                        ) implies exists|fuel2: nat|
                        #[trigger] spec_parse_rel(s, c0, d0, new_done + rest, end, fuel2) by {
                        lemma_step_define(
                            s,
                            c0,
                            d0,
                            pre,
                            stv,
                            self.defines_view(),
                            mid.at(),
                            self.at(),
                            done,
                            rest,
                            end,
                            fuel,
                        );
                        assert((done + seq![stv]) + rest =~= new_done + rest);
                        let fuel3 = choose|fuel3: nat|
                            spec_parse_rel(s, c0, d0, (done + seq![stv]) + rest, end, fuel3);
                        assert(spec_parse_rel(s, c0, d0, (done + seq![stv]) + rest, end, fuel3));
                        assert(spec_parse_rel(s, c0, d0, new_done + rest, end, fuel3));
                    }
                }
            } else {
                let err = AssemblerError::new(
                    AssemblerErrorKind::UnexpectedToken {
                        expected: TokenKind::Identifier("identifier".to_owned()).text(),
                        found: self.current_token.kind.text(),
                    },
                    self.position,
                );
                proof {
                    let f = PErrV::Unexpected(
                        describe_v(TokenKindV::Identifier("identifier"@)),
                        describe_v(pre.current_token.kind@),
                    );
                    assert(spec_parse_rel(
                        s,
                        pre.at(),
                        pre.defines_view(),
                        Seq::<StatementV>::empty(),
                        ParseEnd::Faulted(f),
                        1,
                    ));
                    assert(done + Seq::<StatementV>::empty() =~= done);
                }
                return Err(err);
            }
        }
        let ghost done = stmt_views(statements@);
        proof {
            assert(spec_parse_rel(
                s,
                self.at(),
                self.defines_view(),
                Seq::<StatementV>::empty(),
                ParseEnd::Finished,
                1,
            ));
            let fuel2 = choose|fuel2: nat|
                spec_parse_rel(
                    s,
                    c0,
                    d0,
                    done + Seq::<StatementV>::empty(),
                    ParseEnd::Finished,
                    fuel2,
                );
            assert(spec_parse_rel(
                s,
                c0,
                d0,
                done + Seq::<StatementV>::empty(),
                ParseEnd::Finished,
                fuel2,
            ));
            assert(done + Seq::<StatementV>::empty() =~= done);
            assert(spec_parse_rel(s, c0, d0, done, ParseEnd::Finished, fuel2));
        }
        let program = Program(statements);
        proof {
            assert(program@ =~= done);
            assert(spec_parse_to(s, c0, d0, program@));
        }
        Ok(program)
    }
}

} // verus!

