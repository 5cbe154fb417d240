//! The two-pass assembler driver: pass one walks the statement list
//! sizing instructions and collecting the label and define tables; pass
//! two emits opcode and operand bytes, resolving label references to
//! relative branch displacements or absolute addresses.

use vstd::prelude::*;
use crate::ast::Instruction;
use crate::ast::InstructionV;
use crate::ast::Position;
use crate::ast::Statement;
use crate::ast::StatementV;
use crate::error::AssemblerError;
use crate::error::AssemblerErrorKind;
use crate::error::AssemblerResult;
use crate::instruction::instruction_to_byte;
use crate::instruction::spec_encode;
use crate::instruction::spec_is_branch;
use crate::instruction::spec_mnemonic_name;
use crate::instruction::AddressingMode;
use crate::instruction::Mnemonics;
use crate::instruction::NumberType;
use crate::instruction::Operand;
use crate::instruction::OperandData;
use crate::instruction::OperandDataV;
use crate::instruction::OperandV;
use crate::lexer::Lexer;
use crate::parser::spec_parse_to;
use crate::parser::err_matches;
use crate::parser::spec_parse_rel;
use crate::parser::ParseEnd;
use crate::parser::Parser;
use crate::parser::PErrV;
use crate::lexer::Scan;
use crate::memory::ROM_BASE;

verus! {

/// The state pass one folds over the statements: the byte cursor and the
/// two symbol tables.
pub struct Pass1 {
    pub pointer: int,
    pub labels: Map<Seq<char>, u16>,
    pub defines: Map<Seq<char>, OperandV>,
}

/// How many operand bytes an instruction takes: one for an 8-bit number,
/// two for a 16-bit one; a label reference is one byte for the eight
/// branch mnemonics (a relative displacement) and two for every other
/// mnemonic (an absolute address).
pub open spec fn spec_operand_size(opcode: Mnemonics, value: Option<OperandDataV>) -> int {
    match value {
        None => 0,
        Some(OperandDataV::Number(NumberType::Decimal8(_))) => 1,
        Some(OperandDataV::Number(NumberType::Hexadecimal8(_))) => 1,
        Some(OperandDataV::Number(_)) => 2,
        Some(OperandDataV::Label(_)) => if spec_is_branch(opcode) {
            1
        } else {
            2
        },
    }
}

/// The bytes a statement occupies: an instruction is its opcode byte
/// plus its operand; labels and defines occupy nothing.
pub open spec fn spec_stmt_size(stmt: StatementV) -> int {
    match stmt {
        StatementV::Instruction(iv) => 1 + spec_operand_size(iv.opcode, iv.operand.value),
        StatementV::Label(_) => 0,
        StatementV::Define(_, _) => 0,
    }
}

/// One pass-one step.
pub open spec fn spec_pass1_step(st: Pass1, stmt: StatementV) -> Pass1 {
    match stmt {
        StatementV::Instruction(iv) => Pass1 {
            pointer: st.pointer + spec_stmt_size(stmt),
            labels: st.labels,
            defines: st.defines,
        },
        StatementV::Label(name) => Pass1 {
            pointer: st.pointer,
            labels: st.labels.insert(name, (st.pointer % 0x10000) as u16),
            defines: st.defines,
        },
        StatementV::Define(name, op) => Pass1 {
            pointer: st.pointer,
            labels: st.labels,
            defines: st.defines.insert(name, op),
        },
    }
}

/// Pass one over a statement list: size every instruction, bind every
/// label to the byte cursor, and record every define.
pub open spec fn spec_pass1(stmts: Seq<StatementV>, st: Pass1) -> Pass1
    decreases stmts.len(),
{
    if stmts.len() == 0 {
        st
    } else {
        spec_pass1(stmts.drop_first(), spec_pass1_step(st, stmts[0]))
    }
}

/// The fresh pass-one state.
pub open spec fn spec_pass1_init() -> Pass1 {
    Pass1 { pointer: 0, labels: Map::empty(), defines: Map::empty() }
}

/// The emitted displacement byte of a backward or forward branch: the
/// low eight bits of `addr - pointer - 2`, two's complement.
pub open spec fn spec_branch_byte(addr: int, pointer: int) -> u8 {
    (((addr - pointer - 2) % 256) as u8)
}

/// The little-endian bytes of a label used in an absolute context: the
/// ROM base is added to the label's program-relative offset.
pub open spec fn spec_abs_bytes(addr: int) -> Seq<u8> {
    let a = (addr + ROM_BASE as int) % 0x10000;
    seq![(a % 256) as u8, (a / 256) as u8]
}

/// The little-endian bytes of a numeric operand, at the number's width.
pub open spec fn spec_number_bytes(nt: NumberType) -> Seq<u8> {
    match nt {
        NumberType::Decimal8(v) => seq![v],
        NumberType::Hexadecimal8(v) => seq![v],
        NumberType::Decimal16(v) => seq![(v as int % 256) as u8, (v as int / 256) as u8],
        NumberType::Hexadecimal16(v) => seq![(v as int % 256) as u8, (v as int / 256) as u8],
    }
}

/// Resolving a label operand to bytes, or the name that stays
/// unresolved.
pub enum LOut {
    LBytes(Seq<u8>),
    LFail(Seq<char>),
}

/// Resolve a label reference: against the label table first; an
/// unresolved name falls back to the define table, substituting the
/// defined operand and recursing, to a depth of `fuel` substitutions.
pub open spec fn spec_label_bytes(
    labels: Map<Seq<char>, u16>,
    defines: Map<Seq<char>, OperandV>,
    branch: bool,
    name: Seq<char>,
    pointer: int,
    fuel: nat,
) -> LOut
    decreases fuel,
{
    if labels.contains_key(name) {
        if branch {
            LOut::LBytes(seq![spec_branch_byte(labels[name] as int, pointer)])
        } else {
            LOut::LBytes(spec_abs_bytes(labels[name] as int))
        }
    } else if defines.contains_key(name) {
        match defines[name].value {
            Some(OperandDataV::Number(nt)) => LOut::LBytes(spec_number_bytes(nt)),
            Some(OperandDataV::Label(n2)) => if fuel == 0 {
                LOut::LFail(n2)
            } else {
                spec_label_bytes(labels, defines, branch, n2, pointer, (fuel - 1) as nat)
            },
            None => LOut::LFail(name),
        }
    } else {
        LOut::LFail(name)
    }
}

/// An assembly failure, stated mathematically: a label that resolves
/// nowhere, or a (mnemonic, addressing mode) pair with no opcode.
pub enum AErrV {
    Label(Seq<char>),
    Instr(Seq<char>, AddressingMode),
}

/// Whether an error kind carries exactly the stated assembly failure.
pub open spec fn asm_err_matches(k: AssemblerErrorKind, v: AErrV) -> bool {
    match v {
        AErrV::Label(n) => k matches AssemblerErrorKind::InvalidLabel(x) && x@ == n,
        AErrV::Instr(m, md) => k matches AssemblerErrorKind::InvalidInstruction(x, md2) && x@ == m
            && md2 == md,
    }
}

/// Emitted bytes, or the failure that stops emission.
pub enum AOut {
    ABytes(Seq<u8>),
    AFault(AErrV),
}

/// The bytes of one instruction at byte cursor `pointer`: the opcode
/// byte for the (mnemonic, resolved mode) pair, then the operand bytes.
/// An instruction without an operand value encodes as
/// implicit-or-accumulator.
pub open spec fn spec_resolved(
    labels: Map<Seq<char>, u16>,
    defines: Map<Seq<char>, OperandV>,
    iv: InstructionV,
    pointer: int,
    fuel: nat,
) -> LOut {
    match iv.operand.value {
        None => LOut::LBytes(Seq::<u8>::empty()),
        Some(OperandDataV::Number(nt)) => LOut::LBytes(spec_number_bytes(nt)),
        Some(OperandDataV::Label(n)) => spec_label_bytes(
            labels,
            defines,
            spec_is_branch(iv.opcode),
            n,
            pointer,
            fuel,
        ),
    }
}

/// The addressing mode the encoder sees: an instruction without an
/// operand value is implicit-or-accumulator.
pub open spec fn spec_resolved_mode(iv: InstructionV) -> AddressingMode {
    match iv.operand.value {
        None => AddressingMode::IMPACC,
        Some(_) => iv.operand.addressing_mode,
    }
}

pub open spec fn spec_instr_bytes(
    labels: Map<Seq<char>, u16>,
    defines: Map<Seq<char>, OperandV>,
    iv: InstructionV,
    pointer: int,
    fuel: nat,
) -> AOut {
    match spec_resolved(labels, defines, iv, pointer, fuel) {
        LOut::LFail(n) => AOut::AFault(AErrV::Label(n)),
        LOut::LBytes(ob) => match spec_encode(iv.opcode, spec_resolved_mode(iv)) {
            Some(b) => AOut::ABytes(seq![b] + ob),
            None => AOut::AFault(
                AErrV::Instr(spec_mnemonic_name(iv.opcode), spec_resolved_mode(iv)),
            ),
        },
    }
}

/// A resolved label operand is one byte for a branch and two otherwise;
/// a resolved numeric operand is its width.
pub proof fn lemma_label_bytes_len(
    labels: Map<Seq<char>, u16>,
    defines: Map<Seq<char>, OperandV>,
    branch: bool,
    name: Seq<char>,
    pointer: int,
    fuel: nat,
)
    ensures
        match spec_label_bytes(labels, defines, branch, name, pointer, fuel) {
            LOut::LBytes(bs) => 1 <= bs.len() <= 2 && (labels.contains_key(name) ==> bs.len() == (
            if branch {
                1int
            } else {
                2int
            })),
            LOut::LFail(_) => true,
        },
    decreases fuel,
{
    if !labels.contains_key(name) && defines.contains_key(name) {
        match defines[name].value {
            Some(OperandDataV::Label(n2)) => {
                if fuel > 0 {
                    lemma_label_bytes_len(labels, defines, branch, n2, pointer, (fuel - 1) as nat);
                }
            },
            _ => {},
        }
    }
}

/// Pass two over a statement list: every instruction's bytes in order,
/// or the first failure.
pub open spec fn spec_pass2(
    stmts: Seq<StatementV>,
    labels: Map<Seq<char>, u16>,
    defines: Map<Seq<char>, OperandV>,
    pointer: int,
    fuel: nat,
) -> AOut
    decreases stmts.len(),
{
    if stmts.len() == 0 {
        AOut::ABytes(Seq::<u8>::empty())
    } else {
        match stmts[0] {
            StatementV::Instruction(iv) => match spec_instr_bytes(
                labels,
                defines,
                iv,
                pointer,
                fuel,
            ) {
                AOut::AFault(f) => AOut::AFault(f),
                AOut::ABytes(bs) => match spec_pass2(
                    stmts.drop_first(),
                    labels,
                    defines,
                    pointer + bs.len(),
                    fuel,
                ) {
                    AOut::AFault(f) => AOut::AFault(f),
                    AOut::ABytes(rest) => AOut::ABytes(bs + rest),
                },
            },
            _ => spec_pass2(stmts.drop_first(), labels, defines, pointer, fuel),
        }
    }
}

/// How many define directives a statement list holds; the driver lets a
/// label fall back through at most that many substitutions.
pub open spec fn spec_count_defines(stmts: Seq<StatementV>) -> int
    decreases stmts.len(),
{
    if stmts.len() == 0 {
        0
    } else {
        (if stmts[0] is Define {
            1int
        } else {
            0int
        }) + spec_count_defines(stmts.drop_first())
    }
}

/// Assembling a statement list: pass one from the fresh state, then pass
/// two against the tables it built.
pub open spec fn spec_assemble_stmts(stmts: Seq<StatementV>) -> AOut {
    let p1 = spec_pass1(stmts, spec_pass1_init());
    spec_pass2(stmts, p1.labels, p1.defines, 0, spec_count_defines(stmts) as nat)
}

/// The label table a (name, offset) entry list denotes.
pub open spec fn spec_labels_map(entries: Seq<(String, u16)>) -> Map<Seq<char>, u16>
    decreases entries.len(),
{
    if entries.len() == 0 {
        Map::empty()
    } else {
        spec_labels_map(entries.drop_last()).insert(entries.last().0@, entries.last().1)
    }
}

/// The define table a (name, operand) entry list denotes.
pub open spec fn spec_asm_defines_map(entries: Seq<(String, Operand)>) -> Map<Seq<char>, OperandV>
    decreases entries.len(),
{
    if entries.len() == 0 {
        Map::empty()
    } else {
        spec_asm_defines_map(entries.drop_last()).insert(entries.last().0@, entries.last().1@)
    }
}

proof fn lemma_labels_last_match(entries: Seq<(String, u16)>, key: Seq<char>, i: int)
    requires
        0 <= i < entries.len(),
        entries[i].0@ == key,
        forall|j: int| i < j < entries.len() ==> entries[j].0@ != key,
    ensures
        spec_labels_map(entries).contains_key(key),
        spec_labels_map(entries)[key] == entries[i].1,
    decreases entries.len(),
{
    if i == entries.len() - 1 {
    } else {
        lemma_labels_last_match(entries.drop_last(), key, i);
    }
}

proof fn lemma_labels_no_match(entries: Seq<(String, u16)>, key: Seq<char>)
    requires
        forall|j: int| 0 <= j < entries.len() ==> entries[j].0@ != key,
    ensures
        !spec_labels_map(entries).contains_key(key),
    decreases entries.len(),
{
    if entries.len() > 0 {
        lemma_labels_no_match(entries.drop_last(), key);
    }
}

proof fn lemma_asm_defines_last_match(entries: Seq<(String, Operand)>, key: Seq<char>, i: int)
    requires
        0 <= i < entries.len(),
        entries[i].0@ == key,
        forall|j: int| i < j < entries.len() ==> entries[j].0@ != key,
    ensures
        spec_asm_defines_map(entries).contains_key(key),
        spec_asm_defines_map(entries)[key] == entries[i].1@,
    decreases entries.len(),
{
    if i == entries.len() - 1 {
    } else {
        lemma_asm_defines_last_match(entries.drop_last(), key, i);
    }
}

proof fn lemma_asm_defines_no_match(entries: Seq<(String, Operand)>, key: Seq<char>)
    requires
        forall|j: int| 0 <= j < entries.len() ==> entries[j].0@ != key,
    ensures
        !spec_asm_defines_map(entries).contains_key(key),
    decreases entries.len(),
{
    if entries.len() > 0 {
        lemma_asm_defines_no_match(entries.drop_last(), key);
    }
}

pub struct Assembler<'a> {
    pub source: &'a str,
    pointer: u128,
    labels: Vec<(String, u16)>,
    defines: Vec<(String, Operand)>,
}

impl<'a> Assembler<'a> {
    /// The label table built so far.
    pub closed spec fn labels_view(&self) -> Map<Seq<char>, u16> {
        spec_labels_map(self.labels@)
    }

    /// The define table built so far.
    pub closed spec fn defines_view(&self) -> Map<Seq<char>, OperandV> {
        spec_asm_defines_map(self.defines@)
    }

    /// The byte cursor.
    pub closed spec fn cursor(&self) -> int {
        self.pointer as int
    }

    /// The source text.
    pub closed spec fn src(&self) -> Seq<char> {
        self.source@
    }

    /// A driver that has assembled nothing yet.
    pub closed spec fn is_fresh(&self) -> bool {
        &&& self.pointer == 0
        &&& self.labels@.len() == 0
        &&& self.defines@.len() == 0
    }

    pub fn new(source: &'a str) -> (r: Assembler<'a>)
        ensures
            r.is_fresh(),
            r.src() == source@,
    {
        Assembler { source, pointer: 0, labels: Vec::new(), defines: Vec::new() }
    }

    /// The last offset bound to `name`, if any.
    fn lookup_label(&self, name: &String) -> (r: Option<u16>)
        ensures
            match r {
                Some(a) => self.labels_view().contains_key(name@) && a == self.labels_view()[
                    name@
                ],
                None => !self.labels_view().contains_key(name@),
            },
    {
        let mut i: usize = self.labels.len();
        while i > 0
            invariant
                i <= self.labels@.len(),
                forall|j: int| i <= j < self.labels@.len() ==> self.labels@[j].0@ != name@,
            decreases i,
        {
            i = i - 1;
            if self.labels[i].0 == *name {
                proof {
                    lemma_labels_last_match(self.labels@, name@, i as int);
                }
                return Some(self.labels[i].1);
            }
        }
        proof {
            lemma_labels_no_match(self.labels@, name@);
        }
        None
    }

    /// The last operand bound to `name` by a define, if any.
    fn lookup_define(&self, name: &String) -> (r: Option<Operand>)
        ensures
            match r {
                Some(op) => self.defines_view().contains_key(name@) && op@ == self.defines_view()[
                    name@
                ],
                None => !self.defines_view().contains_key(name@),
            },
    {
        let mut i: usize = self.defines.len();
        while i > 0
            invariant
                i <= self.defines@.len(),
                forall|j: int| i <= j < self.defines@.len() ==> self.defines@[j].0@ != name@,
            decreases i,
        {
            i = i - 1;
            if self.defines[i].0 == *name {
                proof {
                    lemma_asm_defines_last_match(self.defines@, name@, i as int);
                }
                return Some(self.defines[i].1.duplicate());
            }
        }
        proof {
            lemma_asm_defines_no_match(self.defines@, name@);
        }
        None
    }

    /// Pass one for a single statement: advance the cursor over an
    /// instruction, bind a label, or record a define.
    fn preprocess_statement(&mut self, statement: &Statement)
        requires
            old(self).cursor() + 3 < u128::MAX,
        ensures
            final(self).cursor() == spec_pass1_step(
                Pass1 {
                    pointer: old(self).cursor(),
                    labels: old(self).labels_view(),
                    defines: old(self).defines_view(),
                },
                statement@,
            ).pointer,
            final(self).labels_view() == spec_pass1_step(
                Pass1 {
                    pointer: old(self).cursor(),
                    labels: old(self).labels_view(),
                    defines: old(self).defines_view(),
                },
                statement@,
            ).labels,
            final(self).defines_view() == spec_pass1_step(
                Pass1 {
                    pointer: old(self).cursor(),
                    labels: old(self).labels_view(),
                    defines: old(self).defines_view(),
                },
                statement@,
            ).defines,
            final(self).defines@.len() == old(self).defines@.len() + (
            if statement@ is Define {
                1int
            } else {
                0int
            }),
            final(self).source == old(self).source,
    {
        match statement {
            Statement::Instruction(instruction) => {
                self.pointer = self.pointer + 1;
                self.preprocess_operand(instruction);
            },
            Statement::Label(label) => {
                let offset: u16 = (self.pointer % 0x10000) as u16;
                let ghost before = self.labels@;
                self.labels.push((label.clone(), offset));
                proof {
                    assert(self.labels@.drop_last() =~= before);
                }
            },
            Statement::Define(name, operand) => {
                let ghost before = self.defines@;
                self.defines.push((name.clone(), operand.duplicate()));
                proof {
                    assert(self.defines@.drop_last() =~= before);
                }
            },
        }
    }

    /// Advance the cursor over an instruction's operand bytes.
    fn preprocess_operand(&mut self, instruction: &Instruction)
        requires
            old(self).cursor() + 2 < u128::MAX,
        ensures
            final(self).cursor() == old(self).cursor() + spec_operand_size(
                instruction.opcode,
                instruction@.operand.value,
            ),
            final(self).labels_view() == old(self).labels_view(),
            final(self).defines_view() == old(self).defines_view(),
            final(self).defines@.len() == old(self).defines@.len(),
            final(self).source == old(self).source,
    {
        match &instruction.operand.value {
            Some(value) => {
                match value {
                    OperandData::Number(number_type) => {
                        match number_type {
                            NumberType::Decimal8(_) | NumberType::Hexadecimal8(_) => {
                                self.pointer = self.pointer + 1;
                            },
                            NumberType::Decimal16(_) | NumberType::Hexadecimal16(_) => {
                                self.pointer = self.pointer + 2;
                            },
                        }
                    },
                    OperandData::Label(_) => {
                        if instruction.opcode.is_branch() {
                            self.pointer = self.pointer + 1;
                        } else {
                            self.pointer = self.pointer + 2;
                        }
                    },
                }
            },
            None => {},
        }
    }

    /// Resolve a label operand to its bytes, falling back through the
    /// define table to a depth of `fuel` substitutions.
    fn label_bytes(
        &self,
        branch: bool,
        name: &String,
        position: Position,
        fuel: usize,
    ) -> (r: AssemblerResult<Vec<u8>>)
        ensures
            match spec_label_bytes(
                self.labels_view(),
                self.defines_view(),
                branch,
                name@,
                self.cursor(),
                fuel as nat,
            ) {
                LOut::LBytes(bs) => r matches Ok(v) && v@ == bs,
                LOut::LFail(n) => r matches Err(e) && asm_err_matches(e.kind, AErrV::Label(n))
                    && e.position == position,
            },
        decreases fuel,
    {
        match self.lookup_label(name) {
            Some(address) => {
                if branch {
                    let ptr_low: u32 = (self.pointer % 0x10000) as u32;
                    let rel: u8 = ((address as u32 + 0x20000 - ptr_low - 2) % 256) as u8;
                    proof {
                        lemma_branch_byte_forms(address as int, ptr_low as int, self.cursor());
                    }
                    let mut v: Vec<u8> = Vec::new();
                    v.push(rel);
                    assert(v@ =~= seq![spec_branch_byte(address as int, self.cursor())]);
                    Ok(v)
                } else {
                    let absolute: u16 = address.wrapping_add(ROM_BASE);
                    let mut v: Vec<u8> = Vec::new();
                    v.push((absolute % 256) as u8);
                    v.push((absolute / 256) as u8);
                    assert(v@ =~= spec_abs_bytes(address as int));
                    Ok(v)
                }
            },
            None => {
                match self.lookup_define(name) {
                    Some(operand) => {
                        match &operand.value {
                            Some(OperandData::Number(nt)) => Ok(number_bytes(nt)),
                            Some(OperandData::Label(n2)) => {
                                if fuel == 0 {
                                    Err(
                                        AssemblerError::new(
                                            AssemblerErrorKind::InvalidLabel(n2.clone()),
                                            position,
                                        ),
                                    )
                                } else {
                                    self.label_bytes(branch, n2, position, fuel - 1)
                                }
                            },
                            None => Err(
                                AssemblerError::new(
                                    AssemblerErrorKind::InvalidLabel(name.clone()),
                                    position,
                                ),
                            ),
                        }
                    },
                    None => Err(
                        AssemblerError::new(
                            AssemblerErrorKind::InvalidLabel(name.clone()),
                            position,
                        ),
                    ),
                }
            },
        }
    }

    /// Assemble the source: tokenize and parse it, size it in pass one,
    /// and emit the bytes in pass two. The symbol tables are built
    /// during the call, so the driver must be fresh, as `new` leaves it.
    pub fn assemble(&mut self) -> (r: AssemblerResult<Vec<u8>>)
        requires
            old(self).is_fresh(),
        ensures
            match r {
                Ok(bytes) => spec_assembles_to(old(self).src(), bytes@),
                Err(e) => spec_lex_faults(old(self).src(), e.kind) || spec_parse_faults(
                    old(self).src(),
                    e.kind,
                ) || spec_asm_faults(old(self).src(), e.kind),
            },
    {
        let ghost src = self.source@;
        let lexer = Lexer::new(self.source);
        let mut parser = match Parser::new(lexer) {
            Ok(p) => p,
            Err(e) => {
                proof {
                    assert(spec_lex_faults(src, e.kind));
                }
                return Err(e);
            },
        };
        let p = match parser.parse() {
            Ok(p) => p,
            Err(e) => {
                proof {
                    assert(spec_parse_faults(src, e.kind));
                }
                return Err(e);
            },
        };
        let ghost stmts = p@;
        proof {
            lemma_count_defines_nonneg(stmts);
            assert(spec_parse_to(src, 0, Map::<Seq<char>, OperandV>::empty(), stmts));
        }

        let n = p.0.len();
        proof {
            assert(stmts.skip(0) =~= stmts);
            assert(self.labels@ =~= Seq::<(String, u16)>::empty());
            assert(self.defines@ =~= Seq::<(String, Operand)>::empty());
            assert(self.labels_view() =~= Map::<Seq<char>, u16>::empty());
            assert(self.defines_view() =~= Map::<Seq<char>, OperandV>::empty());
        }
        let mut i: usize = 0;
        while i < n
            invariant
                n == p.0@.len(),
                stmts == p@,
                i <= n,
                self.source@ == src,
                src == old(self).src(),
                0 <= self.cursor() <= 3 * i,
                spec_pass1(stmts, spec_pass1_init()) == spec_pass1(
                    stmts.skip(i as int),
                    Pass1 {
                        pointer: self.cursor(),
                        labels: self.labels_view(),
                        defines: self.defines_view(),
                    },
                ),
                self.defines@.len() + spec_count_defines(stmts.skip(i as int))
                    == spec_count_defines(stmts),
            decreases n - i,
        {
            let ghost pre_state = Pass1 {
                pointer: self.cursor(),
                labels: self.labels_view(),
                defines: self.defines_view(),
            };
            proof {
                assert(stmts.skip(i as int).drop_first() =~= stmts.skip(i as int + 1));
                assert(stmts.skip(i as int)[0] == stmts[i as int]);
                assert(stmts[i as int] == p.0@[i as int]@);
                lemma_count_defines_nonneg(stmts.skip(i as int + 1));
            }
            self.preprocess_statement(&p.0[i]);
            i = i + 1;
        }
        let ghost p1 = spec_pass1(stmts, spec_pass1_init());
        proof {
            assert(stmts.skip(n as int) =~= Seq::<StatementV>::empty());
            assert(p1.labels == self.labels_view());
            assert(p1.defines == self.defines_view());
            assert(self.defines@.len() == spec_count_defines(stmts));
        }

        self.pointer = 0;
        let ghost fuel = self.defines@.len() as nat;
        proof {
            assert(stmts.skip(0) =~= stmts);
        }
        let mut bytes: Vec<u8> = Vec::new();
        let mut i: usize = 0;
        while i < n
            invariant
                n == p.0@.len(),
                stmts == p@,
                i <= n,
                self.source@ == src,
                src == old(self).src(),
                0 <= self.cursor() <= 3 * i,
                p1 == spec_pass1(stmts, spec_pass1_init()),
                fuel == spec_count_defines(stmts) as nat,
                spec_parse_to(src, 0, Map::<Seq<char>, OperandV>::empty(), stmts),
                self.labels_view() == p1.labels,
                self.defines_view() == p1.defines,
                self.defines@.len() as nat == fuel,
                match spec_pass2(
                    stmts.skip(i as int),
                    p1.labels,
                    p1.defines,
                    self.cursor(),
                    fuel,
                ) {
                    AOut::ABytes(rest) => spec_pass2(stmts, p1.labels, p1.defines, 0, fuel)
                        == AOut::ABytes(bytes@ + rest),
                    AOut::AFault(f) => spec_pass2(stmts, p1.labels, p1.defines, 0, fuel)
                        == AOut::AFault(f),
                },
            decreases n - i,
        {
            proof {
                assert(stmts.skip(i as int).drop_first() =~= stmts.skip(i as int + 1));
                assert(stmts.skip(i as int)[0] == stmts[i as int]);
                assert(stmts[i as int] == p.0@[i as int]@);
            }
            match &p.0[i] {
                Statement::Instruction(instruction) => {
                    let ghost pre_bytes = bytes@;
                    let ghost pre_cursor = self.cursor();
                    let bs = match self.assemble_instruction(instruction) {
                        Ok(bs) => bs,
                        Err(e) => {
                            proof {
                                let f = match spec_instr_bytes(
                                    p1.labels,
                                    p1.defines,
                                    instruction@,
                                    pre_cursor,
                                    fuel,
                                ) {
                                    AOut::AFault(f) => f,
                                    AOut::ABytes(_) => arbitrary(),
                                };
                                assert(spec_assemble_stmts(stmts) == AOut::AFault(f));
                                assert(asm_err_matches(e.kind, f));
                                assert(spec_asm_faults(src, e.kind));
                            }
                            return Err(e);
                        },
                    };
                    let mut rest = bs;
                    let ghost emitted = rest@;
                    bytes.append(&mut rest);
                    proof {
                        match spec_pass2(
                            stmts.skip(i as int + 1),
                            p1.labels,
                            p1.defines,
                            self.cursor(),
                            fuel,
                        ) {
                            AOut::ABytes(r2) => {
                                assert(pre_bytes + (emitted + r2) =~= bytes@ + r2);
                            },
                            AOut::AFault(_) => {},
                        }
                    }
                },
                _ => {},
            }
            i = i + 1;
        }
        proof {
            assert(stmts.skip(n as int) =~= Seq::<StatementV>::empty());
            assert(bytes@ + Seq::<u8>::empty() =~= bytes@);
            assert(spec_pass2(stmts, p1.labels, p1.defines, 0, fuel) == AOut::ABytes(bytes@));
            assert(spec_assemble_stmts(stmts) == AOut::ABytes(bytes@));
            assert(spec_parse_to(src, 0, Map::<Seq<char>, OperandV>::empty(), stmts));
            assert(spec_assembles_to(src, bytes@));
        }
        Ok(bytes)
    }

    /// Resolve an instruction's operand to its bytes and the addressing
    /// mode the encoder will see.
    fn assemble_operand_data(&self, instruction: &Instruction) -> (r: AssemblerResult<
        (Vec<u8>, AddressingMode),
    >)
        ensures
            match spec_resolved(
                self.labels_view(),
                self.defines_view(),
                instruction@,
                self.cursor(),
                self.defines@.len() as nat,
            ) {
                LOut::LBytes(bs) => r matches Ok(p) && p.0@ == bs && p.1 == spec_resolved_mode(
                    instruction@,
                ),
                LOut::LFail(n) => r matches Err(e) && asm_err_matches(e.kind, AErrV::Label(n))
                    && e.position == instruction.position,
            },
    {
        match &instruction.operand.value {
            None => Ok((Vec::new(), AddressingMode::IMPACC)),
            Some(OperandData::Number(nt)) => Ok(
                (number_bytes(nt), instruction.operand.addressing_mode),
            ),
            Some(OperandData::Label(name)) => {
                let fuel = self.defines.len();
                let bs = self.label_bytes(
                    instruction.opcode.is_branch(),
                    name,
                    instruction.position,
                    fuel,
                )?;
                Ok((bs, instruction.operand.addressing_mode))
            },
        }
    }

    /// The bytes of one instruction: its opcode byte, then its operand
    /// bytes; the byte cursor advances over them.
    fn assemble_instruction(&mut self, instruction: &Instruction) -> (r: AssemblerResult<Vec<u8>>)
        requires
            old(self).cursor() + 3 < u128::MAX,
        ensures
            final(self).labels_view() == old(self).labels_view(),
            final(self).defines_view() == old(self).defines_view(),
            final(self).defines@.len() == old(self).defines@.len(),
            final(self).source == old(self).source,
            match spec_instr_bytes(
                old(self).labels_view(),
                old(self).defines_view(),
                instruction@,
                old(self).cursor(),
                old(self).defines@.len() as nat,
            ) {
                AOut::ABytes(bs) => r matches Ok(v) && v@ == bs && final(self).cursor() == old(
                    self,
                ).cursor() + bs.len() && bs.len() <= 3,
                AOut::AFault(f) => r matches Err(e) && asm_err_matches(e.kind, f) && e.position
                    == instruction.position,
            },
    {
        proof {
            lemma_label_bytes_len(
                self.labels_view(),
                self.defines_view(),
                spec_is_branch(instruction.opcode),
                match instruction@.operand.value {
                    Some(OperandDataV::Label(n)) => n,
                    _ => Seq::<char>::empty(),
                },
                self.cursor(),
                self.defines@.len() as nat,
            );
        }
        let (operand_bytes, mode) = self.assemble_operand_data(instruction)?;
        let byte = instruction_to_byte(
            Instruction::new(instruction.opcode, Operand::new(mode, None), instruction.position),
        )?;
        let mut bytes: Vec<u8> = Vec::new();
        bytes.push(byte);
        let mut rest = operand_bytes;
        bytes.append(&mut rest);
        self.pointer = self.pointer + bytes.len() as u128;
        Ok(bytes)
    }
}


/// The count of define directives is never negative.
pub proof fn lemma_count_defines_nonneg(stmts: Seq<StatementV>)
    ensures
        spec_count_defines(stmts) >= 0,
    decreases stmts.len(),
{
    if stmts.len() > 0 {
        lemma_count_defines_nonneg(stmts.drop_first());
    }
}

/// The whole pipeline succeeds on `src` with output `bytes`: the source
/// parses to some statement list whose assembly is exactly `bytes`.
pub open spec fn spec_assembles_to(src: Seq<char>, bytes: Seq<u8>) -> bool {
    exists|stmts: Seq<StatementV>|
        #[trigger] spec_parse_to(src, 0, Map::<Seq<char>, OperandV>::empty(), stmts)
            && spec_assemble_stmts(stmts) == AOut::ABytes(bytes)
}

/// Lexing `src` fails somewhere with exactly this error kind.
pub open spec fn spec_lex_faults(src: Seq<char>, k: AssemblerErrorKind) -> bool {
    exists|j: int|
        0 <= j <= src.len() && (#[trigger] crate::lexer::spec_scan(src, j) matches Scan::Fail(
            kk,
            _,
        ) && kk == k)
}

/// Parsing `src` fails with exactly this error kind.
pub open spec fn spec_parse_faults(src: Seq<char>, k: AssemblerErrorKind) -> bool {
    exists|fuel: nat, stmts: Seq<StatementV>, f: PErrV|
        #![trigger spec_parse_rel(
            src,
            0,
            Map::<Seq<char>, OperandV>::empty(),
            stmts,
            ParseEnd::Faulted(f),
            fuel,
        )]
        spec_parse_rel(
            src,
            0,
            Map::<Seq<char>, OperandV>::empty(),
            stmts,
            ParseEnd::Faulted(f),
            fuel,
        ) && err_matches(k, f)
}

/// `src` parses, but its assembly fails with exactly this error kind.
pub open spec fn spec_asm_faults(src: Seq<char>, k: AssemblerErrorKind) -> bool {
    exists|stmts: Seq<StatementV>, f: AErrV|
        #![trigger spec_parse_to(src, 0, Map::<Seq<char>, OperandV>::empty(), stmts), asm_err_matches(k, f)]
        spec_parse_to(src, 0, Map::<Seq<char>, OperandV>::empty(), stmts)
            && spec_assemble_stmts(stmts) == AOut::AFault(f) && asm_err_matches(k, f)
}

/// The little-endian bytes of a numeric operand.
fn number_bytes(nt: &NumberType) -> (r: Vec<u8>)
    ensures
        r@ == spec_number_bytes(*nt),
{
    let mut v: Vec<u8> = Vec::new();
    match nt {
        NumberType::Decimal8(n) => {
            v.push(*n);
        },
        NumberType::Hexadecimal8(n) => {
            v.push(*n);
        },
        NumberType::Decimal16(n) => {
            v.push((*n % 256) as u8);
            v.push((*n / 256) as u8);
        },
        NumberType::Hexadecimal16(n) => {
            v.push((*n % 256) as u8);
            v.push((*n / 256) as u8);
        },
    }
    assert(v@ =~= spec_number_bytes(*nt));
    v
}

/// The two renderings of the branch displacement byte agree: computing
/// in 32-bit signed arithmetic with a final positive remainder equals
/// the low eight bits of the mathematical difference.
proof fn lemma_branch_byte_forms(address: int, ptr_low: int, pointer: int)
    requires
        0 <= address < 0x10000,
        0 <= ptr_low < 0x10000,
        ptr_low == pointer % 0x10000,
        pointer >= 0,
    ensures
        (address + 0x20000 - ptr_low - 2) % 256 == (address - pointer - 2) % 256,
{
    let k = pointer / 0x10000;
    assert(pointer == 0x10000 * k + ptr_low) by {
        assert(pointer == 0x10000 * (pointer / 0x10000) + pointer % 0x10000);
    }
    assert(address + 0x20000 - ptr_low - 2 == (address - pointer - 2) + 256 * (512 + 256 * k));
    lemma_mod256_shift(address - pointer - 2, 512 + 256 * k);
}

/// Adding a multiple of 256 leaves a value's remainder modulo 256
/// unchanged.
proof fn lemma_mod256_shift(v: int, m: int)
    ensures
        (v + 256 * m) % 256 == v % 256,
{
    assert((v + 256 * m) % 256 == v % 256) by (nonlinear_arith);
}


/// The bytes a whole statement list occupies.
pub open spec fn spec_total_size(stmts: Seq<StatementV>) -> int
    decreases stmts.len(),
{
    if stmts.len() == 0 {
        0
    } else {
        spec_stmt_size(stmts[0]) + spec_total_size(stmts.drop_first())
    }
}

/// Every label operand of every instruction is bound in the label table
/// (no instruction leans on the define fallback).
pub open spec fn spec_all_labels_resolved(
    stmts: Seq<StatementV>,
    labels: Map<Seq<char>, u16>,
) -> bool {
    forall|i: int|
        0 <= i < stmts.len() ==> match #[trigger] stmts[i] {
            StatementV::Instruction(iv) => match iv.operand.value {
                Some(OperandDataV::Label(n)) => labels.contains_key(n),
                _ => true,
            },
            _ => true,
        }
}

/// Pass one advances the byte cursor by exactly the statements' total
/// size, whatever state it starts from.
pub proof fn lemma_pass1_pointer(stmts: Seq<StatementV>, st: Pass1)
    ensures
        spec_pass1(stmts, st).pointer == st.pointer + spec_total_size(stmts),
    decreases stmts.len(),
{
    if stmts.len() > 0 {
        lemma_pass1_pointer(stmts.drop_first(), spec_pass1_step(st, stmts[0]));
    }
}

/// When every label operand resolves in the label table, pass two emits
/// exactly the statements' total size, whatever cursor it starts from.
pub proof fn lemma_pass2_length(
    stmts: Seq<StatementV>,
    labels: Map<Seq<char>, u16>,
    defines: Map<Seq<char>, OperandV>,
    pointer: int,
    fuel: nat,
)
    requires
        spec_all_labels_resolved(stmts, labels),
    ensures
        match spec_pass2(stmts, labels, defines, pointer, fuel) {
            AOut::ABytes(bs) => bs.len() == spec_total_size(stmts),
            AOut::AFault(_) => true,
        },
    decreases stmts.len(),
{
    if stmts.len() > 0 {
        assert(spec_all_labels_resolved(stmts.drop_first(), labels)) by {
            assert(forall|j: int|
                0 <= j < stmts.drop_first().len() ==> stmts.drop_first()[j] == stmts[j + 1]);
        }
        match stmts[0] {
            StatementV::Instruction(iv) => {
                match iv.operand.value {
                    Some(OperandDataV::Label(n)) => {
                        lemma_label_bytes_len(
                            labels,
                            defines,
                            spec_is_branch(iv.opcode),
                            n,
                            pointer,
                            fuel,
                        );
                    },
                    _ => {},
                }
                match spec_instr_bytes(labels, defines, iv, pointer, fuel) {
                    AOut::ABytes(bs) => {
                        lemma_pass2_length(
                            stmts.drop_first(),
                            labels,
                            defines,
                            pointer + bs.len(),
                            fuel,
                        );
                    },
                    AOut::AFault(_) => {},
                }
            },
            _ => {
                lemma_pass2_length(stmts.drop_first(), labels, defines, pointer, fuel);
            },
        }
    }
}

/// Two-pass consistency: for a statement list whose label operands all
/// resolve against the table pass one builds, the byte cursor pass one
/// reaches equals the length of the bytes pass two emits.
pub proof fn lemma_two_pass_consistency(stmts: Seq<StatementV>)
    requires
        spec_all_labels_resolved(stmts, spec_pass1(stmts, spec_pass1_init()).labels),
    ensures
        match spec_assemble_stmts(stmts) {
            AOut::ABytes(bs) => bs.len() == spec_pass1(stmts, spec_pass1_init()).pointer,
            AOut::AFault(_) => true,
        },
{
    let p1 = spec_pass1(stmts, spec_pass1_init());
    lemma_pass1_pointer(stmts, spec_pass1_init());
    lemma_pass2_length(stmts, p1.labels, p1.defines, 0, spec_count_defines(stmts) as nat);
}

/// Label arithmetic: the emitted displacement byte of a branch, read as
/// a signed 8-bit offset from the program counter after the branch,
/// lands exactly on the label, whenever the label lies within reach of
/// such an offset.
pub proof fn lemma_branch_offset_round_trip(addr: int, pointer: int)
    requires
        0 <= addr < 0x10000,
        pointer >= 0,
        -128 <= addr - (pointer + 2) <= 127,
    ensures
        ({
            let b = spec_branch_byte(addr, pointer);
            let displacement = if b < 128 {
                b as int
            } else {
                b as int - 256
            };
            pointer + 2 + displacement == addr
        }),
{
    let d = addr - pointer - 2;
    if d >= 0 {
        assert(d % 256 == d);
    } else {
        assert(d % 256 == d + 256);
    }
}

} // verus!
