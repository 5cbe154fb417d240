//! The CPU execution engine: fetch, decode and execute for every legal
//! opcode, the effective-address computation for every addressing mode,
//! the stack discipline, and the status-flag arithmetic.
//!
//! `CpuView` is the mathematical machine state; `spec_step` is the
//! machine's small-step function, and `Cpu::step` is proved to perform
//! exactly one of its steps.
//!
//! Two semantics are chosen deliberately: the break opcode acts as a
//! program terminator and fetches no interrupt vector, and the decimal
//! flag is settable but has no effect on arithmetic.

use vstd::prelude::*;
use crate::memory::spec_read16;
use crate::memory::Memory;
use crate::memory::MEMORY_SIZE;
use crate::memory::ROM_BASE;
use crate::memory::STACK_BASE;
use crate::registers::spec_get_flag;
use crate::registers::spec_set_flag;
use crate::registers::spec_set_zn;
use crate::registers::Registers;
use crate::registers::FLAG_CARRY;
use crate::registers::FLAG_DECIMAL;
use crate::registers::FLAG_INTERRUPT_DISABLE;
use crate::registers::FLAG_NEGATIVE;
use crate::registers::FLAG_OVERFLOW;
use crate::registers::FLAG_ZERO;

verus! {

/// The addressing modes the execution engine distinguishes; implicit
/// and accumulator operands take no addressing at all and relative
/// addressing is folded into the branch instructions.
#[derive(Clone, Copy, Debug, PartialEq, Eq, Structural)]
pub enum AddressingMode {
    Immediate,
    Absolute,
    AbsoluteX,
    AbsoluteY,
    Indirect,
    IndirectX,
    IndirectY,
    ZeroPage,
    ZeroPageX,
    ZeroPageY,
}

/// The machine state: the register file and the memory image.
#[verifier::ext_equal]
pub struct CpuView {
    pub a: u8,
    pub x: u8,
    pub y: u8,
    pub p: u8,
    pub sp: u8,
    pub pc: u16,
    pub mem: Seq<u8>,
}

/// A value folded into the 16-bit range.
pub open spec fn w16(v: int) -> u16 {
    (v % 0x10000) as u16
}

/// A value folded into the 8-bit range.
pub open spec fn w8(v: int) -> u8 {
    (v % 256) as u8
}

/// How many operand bytes an addressing mode consumes.
pub open spec fn spec_width(mode: AddressingMode) -> int {
    match mode {
        AddressingMode::Immediate => 1,
        AddressingMode::Absolute => 2,
        AddressingMode::AbsoluteX => 2,
        AddressingMode::AbsoluteY => 2,
        AddressingMode::Indirect => 2,
        AddressingMode::IndirectX => 1,
        AddressingMode::IndirectY => 1,
        AddressingMode::ZeroPage => 1,
        AddressingMode::ZeroPageX => 1,
        AddressingMode::ZeroPageY => 1,
    }
}

/// The effective address an addressing mode yields, computed from the
/// operand bytes at the program counter. Sixteen-bit address arithmetic
/// wraps; zero-page indexing wraps within the zero page.
pub open spec fn spec_addr_of(s: CpuView, mode: AddressingMode) -> u16
    recommends
        s.mem.len() == MEMORY_SIZE,
{
    match mode {
        AddressingMode::Immediate => s.pc,
        AddressingMode::Absolute => spec_read16(s.mem, s.pc),
        AddressingMode::AbsoluteX => w16(spec_read16(s.mem, s.pc) + s.x),
        AddressingMode::AbsoluteY => w16(spec_read16(s.mem, s.pc) + s.y),
        AddressingMode::Indirect => spec_read16(s.mem, spec_read16(s.mem, s.pc)),
        AddressingMode::IndirectX => spec_read16(s.mem, w8(s.mem[s.pc as int] + s.x) as u16),
        AddressingMode::IndirectY => w16(
            spec_read16(s.mem, s.mem[s.pc as int] as u16) + s.y,
        ),
        AddressingMode::ZeroPage => s.mem[s.pc as int] as u16,
        AddressingMode::ZeroPageX => w8(s.mem[s.pc as int] + s.x) as u16,
        AddressingMode::ZeroPageY => w8(s.mem[s.pc as int] + s.y) as u16,
    }
}

/// The state after the operand bytes have been consumed.
pub open spec fn spec_after(s: CpuView, mode: AddressingMode) -> CpuView {
    CpuView { pc: w16(s.pc + spec_width(mode)), ..s }
}

/// The operand byte an addressing mode reads.
pub open spec fn spec_data_of(s: CpuView, mode: AddressingMode) -> u8
    recommends
        s.mem.len() == MEMORY_SIZE,
{
    s.mem[spec_addr_of(s, mode) as int]
}

/// Add with carry into the accumulator: `A + M + C`, carry out of bit
/// seven, two's-complement overflow, and Z and N from the sum.
pub open spec fn spec_add_core(s: CpuView, m: u8) -> CpuView {
    let c: int = if spec_get_flag(s.p, FLAG_CARRY) {
        1
    } else {
        0
    };
    let sum = s.a + m + c;
    let r = w8(sum);
    let p1 = spec_set_flag(s.p, FLAG_CARRY, sum > 0xff);
    let p2 = spec_set_flag(p1, FLAG_OVERFLOW, ((s.a ^ r) & (m ^ r) & 0x80) != 0);
    CpuView { a: r, p: spec_set_zn(p2, r), ..s }
}

pub open spec fn spec_adc(s: CpuView, mode: AddressingMode) -> CpuView {
    spec_add_core(spec_after(s, mode), spec_data_of(s, mode))
}

/// Subtract with carry is add-with-carry of the operand's complement.
pub open spec fn spec_sbc(s: CpuView, mode: AddressingMode) -> CpuView {
    spec_add_core(spec_after(s, mode), spec_data_of(s, mode) ^ 0xff)
}

pub open spec fn spec_and(s: CpuView, mode: AddressingMode) -> CpuView {
    let s1 = spec_after(s, mode);
    let r = s.a & spec_data_of(s, mode);
    CpuView { a: r, p: spec_set_zn(s1.p, r), ..s1 }
}

pub open spec fn spec_ora(s: CpuView, mode: AddressingMode) -> CpuView {
    let s1 = spec_after(s, mode);
    let r = s.a | spec_data_of(s, mode);
    CpuView { a: r, p: spec_set_zn(s1.p, r), ..s1 }
}

pub open spec fn spec_eor(s: CpuView, mode: AddressingMode) -> CpuView {
    let s1 = spec_after(s, mode);
    let r = s.a ^ spec_data_of(s, mode);
    CpuView { a: r, p: spec_set_zn(s1.p, r), ..s1 }
}

/// Compare: Z and N from the wrapping difference, carry when the
/// register is no less than the operand.
pub open spec fn spec_cmp_core(s: CpuView, reg: u8, m: u8) -> u8 {
    spec_set_flag(spec_set_zn(s.p, w8(reg - m)), FLAG_CARRY, reg >= m)
}

pub open spec fn spec_cmp(s: CpuView, mode: AddressingMode) -> CpuView {
    let s1 = spec_after(s, mode);
    CpuView { p: spec_cmp_core(s1, s.a, spec_data_of(s, mode)), ..s1 }
}

pub open spec fn spec_cpx(s: CpuView, mode: AddressingMode) -> CpuView {
    let s1 = spec_after(s, mode);
    CpuView { p: spec_cmp_core(s1, s.x, spec_data_of(s, mode)), ..s1 }
}

pub open spec fn spec_cpy(s: CpuView, mode: AddressingMode) -> CpuView {
    let s1 = spec_after(s, mode);
    CpuView { p: spec_cmp_core(s1, s.y, spec_data_of(s, mode)), ..s1 }
}

/// Bit test: Z from `A AND M`, N from bit seven of M, V from bit six.
pub open spec fn spec_bit(s: CpuView, mode: AddressingMode) -> CpuView {
    let s1 = spec_after(s, mode);
    let m = spec_data_of(s, mode);
    let p1 = spec_set_flag(s.p, FLAG_ZERO, (s.a & m) == 0);
    let p2 = spec_set_flag(p1, FLAG_NEGATIVE, m & 0x80 != 0);
    CpuView { p: spec_set_flag(p2, FLAG_OVERFLOW, m & 0x40 != 0), ..s1 }
}

pub open spec fn spec_lda(s: CpuView, mode: AddressingMode) -> CpuView {
    let s1 = spec_after(s, mode);
    let v = spec_data_of(s, mode);
    CpuView { a: v, p: spec_set_zn(s1.p, v), ..s1 }
}

pub open spec fn spec_ldx(s: CpuView, mode: AddressingMode) -> CpuView {
    let s1 = spec_after(s, mode);
    let v = spec_data_of(s, mode);
    CpuView { x: v, p: spec_set_zn(s1.p, v), ..s1 }
}

pub open spec fn spec_ldy(s: CpuView, mode: AddressingMode) -> CpuView {
    let s1 = spec_after(s, mode);
    let v = spec_data_of(s, mode);
    CpuView { y: v, p: spec_set_zn(s1.p, v), ..s1 }
}

pub open spec fn spec_sta(s: CpuView, mode: AddressingMode) -> CpuView {
    let s1 = spec_after(s, mode);
    CpuView { mem: s1.mem.update(spec_addr_of(s, mode) as int, s.a), ..s1 }
}

pub open spec fn spec_stx(s: CpuView, mode: AddressingMode) -> CpuView {
    let s1 = spec_after(s, mode);
    CpuView { mem: s1.mem.update(spec_addr_of(s, mode) as int, s.x), ..s1 }
}

pub open spec fn spec_sty(s: CpuView, mode: AddressingMode) -> CpuView {
    let s1 = spec_after(s, mode);
    CpuView { mem: s1.mem.update(spec_addr_of(s, mode) as int, s.y), ..s1 }
}

pub open spec fn spec_inc(s: CpuView, mode: AddressingMode) -> CpuView {
    let s1 = spec_after(s, mode);
    let addr = spec_addr_of(s, mode);
    let r = w8(s.mem[addr as int] + 1);
    CpuView { mem: s1.mem.update(addr as int, r), p: spec_set_zn(s1.p, r), ..s1 }
}

pub open spec fn spec_dec(s: CpuView, mode: AddressingMode) -> CpuView {
    let s1 = spec_after(s, mode);
    let addr = spec_addr_of(s, mode);
    let r = w8(s.mem[addr as int] - 1);
    CpuView { mem: s1.mem.update(addr as int, r), p: spec_set_zn(s1.p, r), ..s1 }
}

pub open spec fn spec_inx(s: CpuView) -> CpuView {
    let r = w8(s.x + 1);
    CpuView { x: r, p: spec_set_zn(s.p, r), ..s }
}

pub open spec fn spec_iny(s: CpuView) -> CpuView {
    let r = w8(s.y + 1);
    CpuView { y: r, p: spec_set_zn(s.p, r), ..s }
}

pub open spec fn spec_dex(s: CpuView) -> CpuView {
    let r = w8(s.x - 1);
    CpuView { x: r, p: spec_set_zn(s.p, r), ..s }
}

pub open spec fn spec_dey(s: CpuView) -> CpuView {
    let r = w8(s.y - 1);
    CpuView { y: r, p: spec_set_zn(s.p, r), ..s }
}

/// Arithmetic shift left of the accumulator or a memory cell: carry
/// takes bit seven, Z and N follow the result.
pub open spec fn spec_asl(s: CpuView, mode: Option<AddressingMode>) -> CpuView {
    match mode {
        None => {
            let r = w8(s.a * 2);
            CpuView { a: r, p: spec_set_zn(spec_set_flag(s.p, FLAG_CARRY, s.a & 0x80 != 0), r), ..s }
        },
        Some(m) => {
            let s1 = spec_after(s, m);
            let addr = spec_addr_of(s, m);
            let v = s.mem[addr as int];
            let r = w8(v * 2);
            CpuView {
                mem: s1.mem.update(addr as int, r),
                p: spec_set_zn(spec_set_flag(s.p, FLAG_CARRY, v & 0x80 != 0), r),
                ..s1
            }
        },
    }
}

/// Logical shift right: carry takes bit zero.
pub open spec fn spec_lsr(s: CpuView, mode: Option<AddressingMode>) -> CpuView {
    match mode {
        None => {
            let r = s.a / 2;
            CpuView { a: r, p: spec_set_zn(spec_set_flag(s.p, FLAG_CARRY, s.a & 1 != 0), r), ..s }
        },
        Some(m) => {
            let s1 = spec_after(s, m);
            let addr = spec_addr_of(s, m);
            let v = s.mem[addr as int];
            let r = v / 2;
            CpuView {
                mem: s1.mem.update(addr as int, r),
                p: spec_set_zn(spec_set_flag(s.p, FLAG_CARRY, v & 1 != 0), r),
                ..s1
            }
        },
    }
}

/// Rotate left through the carry flag.
pub open spec fn spec_rol(s: CpuView, mode: Option<AddressingMode>) -> CpuView {
    let cin: int = if spec_get_flag(s.p, FLAG_CARRY) {
        1
    } else {
        0
    };
    match mode {
        None => {
            let r = w8(s.a * 2 + cin);
            CpuView { a: r, p: spec_set_zn(spec_set_flag(s.p, FLAG_CARRY, s.a & 0x80 != 0), r), ..s }
        },
        Some(m) => {
            let s1 = spec_after(s, m);
            let addr = spec_addr_of(s, m);
            let v = s.mem[addr as int];
            let r = w8(v * 2 + cin);
            CpuView {
                mem: s1.mem.update(addr as int, r),
                p: spec_set_zn(spec_set_flag(s.p, FLAG_CARRY, v & 0x80 != 0), r),
                ..s1
            }
        },
    }
}

/// Rotate right through the carry flag.
pub open spec fn spec_ror(s: CpuView, mode: Option<AddressingMode>) -> CpuView {
    let cin: u8 = if spec_get_flag(s.p, FLAG_CARRY) {
        0x80
    } else {
        0
    };
    match mode {
        None => {
            let r = (s.a / 2 + cin) as u8;
            CpuView { a: r, p: spec_set_zn(spec_set_flag(s.p, FLAG_CARRY, s.a & 1 != 0), r), ..s }
        },
        Some(m) => {
            let s1 = spec_after(s, m);
            let addr = spec_addr_of(s, m);
            let v = s.mem[addr as int];
            let r = (v / 2 + cin) as u8;
            CpuView {
                mem: s1.mem.update(addr as int, r),
                p: spec_set_zn(spec_set_flag(s.p, FLAG_CARRY, v & 1 != 0), r),
                ..s1
            }
        },
    }
}

pub open spec fn spec_jmp(s: CpuView, mode: AddressingMode) -> CpuView {
    CpuView { pc: spec_addr_of(s, mode), ..spec_after(s, mode) }
}

/// Push one byte: the cell at `STACK_BASE + SP` takes the value and SP
/// steps down, wrapping within the stack page.
pub open spec fn spec_push8(s: CpuView, v: u8) -> CpuView {
    CpuView { mem: s.mem.update(STACK_BASE + s.sp as int, v), sp: w8(s.sp - 1), ..s }
}

/// Pop one byte: SP steps up and the cell there is read.
pub open spec fn spec_pop8(s: CpuView) -> (CpuView, u8) {
    let sp1 = w8(s.sp + 1);
    (CpuView { sp: sp1, ..s }, s.mem[STACK_BASE + sp1 as int])
}

/// Push a 16-bit value, high byte first, so it lies little-endian in
/// memory.
pub open spec fn spec_push16(s: CpuView, v: u16) -> CpuView {
    spec_push8(spec_push8(s, (v as int / 256) as u8), w8(v as int))
}

/// Pop a 16-bit value: the low byte first, then the high one.
pub open spec fn spec_pop16(s: CpuView) -> (CpuView, u16) {
    let (s1, lo) = spec_pop8(s);
    let (s2, hi) = spec_pop8(s1);
    (s2, (lo + 256 * hi) as u16)
}

/// Jump to subroutine: push the address of the last operand byte, then
/// jump.
pub open spec fn spec_jsr(s: CpuView) -> CpuView {
    let target = spec_read16(s.mem, s.pc);
    let ret = w16(s.pc + 2 - 1);
    CpuView { pc: target, ..spec_push16(s, ret) }
}

/// Return from subroutine: the popped address plus one.
pub open spec fn spec_rts(s: CpuView) -> CpuView {
    let (s1, v) = spec_pop16(s);
    CpuView { pc: w16(v + 1), ..s1 }
}

/// Return from interrupt: pop P, then the program counter.
pub open spec fn spec_rti(s: CpuView) -> CpuView {
    let (s1, p) = spec_pop8(s);
    let (s2, pc) = spec_pop16(s1);
    CpuView { p, pc, ..s2 }
}

pub open spec fn spec_pha(s: CpuView) -> CpuView {
    spec_push8(s, s.a)
}

pub open spec fn spec_php(s: CpuView) -> CpuView {
    spec_push8(s, s.p)
}

pub open spec fn spec_pla(s: CpuView) -> CpuView {
    let (s1, v) = spec_pop8(s);
    CpuView { a: v, p: spec_set_zn(s1.p, v), ..s1 }
}

pub open spec fn spec_plp(s: CpuView) -> CpuView {
    let (s1, v) = spec_pop8(s);
    CpuView { p: v, ..s1 }
}

/// A branch: read the signed 8-bit displacement, step past it, and take
/// it when the condition holds.
pub open spec fn spec_branch_if(s: CpuView, cond: bool) -> CpuView
    recommends
        s.mem.len() == MEMORY_SIZE,
{
    let off = s.mem[s.pc as int];
    let pc1 = w16(s.pc + 1);
    if cond {
        let displacement: int = if off < 128 {
            off as int
        } else {
            off as int - 256
        };
        CpuView { pc: w16(pc1 + displacement), ..s }
    } else {
        CpuView { pc: pc1, ..s }
    }
}

pub open spec fn spec_bcc(s: CpuView) -> CpuView {
    spec_branch_if(s, !spec_get_flag(s.p, FLAG_CARRY))
}

pub open spec fn spec_bcs(s: CpuView) -> CpuView {
    spec_branch_if(s, spec_get_flag(s.p, FLAG_CARRY))
}

pub open spec fn spec_beq(s: CpuView) -> CpuView {
    spec_branch_if(s, spec_get_flag(s.p, FLAG_ZERO))
}

pub open spec fn spec_bne(s: CpuView) -> CpuView {
    spec_branch_if(s, !spec_get_flag(s.p, FLAG_ZERO))
}

pub open spec fn spec_bmi(s: CpuView) -> CpuView {
    spec_branch_if(s, spec_get_flag(s.p, FLAG_NEGATIVE))
}

pub open spec fn spec_bpl(s: CpuView) -> CpuView {
    spec_branch_if(s, !spec_get_flag(s.p, FLAG_NEGATIVE))
}

pub open spec fn spec_bvs(s: CpuView) -> CpuView {
    spec_branch_if(s, spec_get_flag(s.p, FLAG_OVERFLOW))
}

pub open spec fn spec_bvc(s: CpuView) -> CpuView {
    spec_branch_if(s, !spec_get_flag(s.p, FLAG_OVERFLOW))
}

pub open spec fn spec_clc(s: CpuView) -> CpuView {
    CpuView { p: spec_set_flag(s.p, FLAG_CARRY, false), ..s }
}

pub open spec fn spec_sec(s: CpuView) -> CpuView {
    CpuView { p: spec_set_flag(s.p, FLAG_CARRY, true), ..s }
}

pub open spec fn spec_cld(s: CpuView) -> CpuView {
    CpuView { p: spec_set_flag(s.p, FLAG_DECIMAL, false), ..s }
}

pub open spec fn spec_sed(s: CpuView) -> CpuView {
    CpuView { p: spec_set_flag(s.p, FLAG_DECIMAL, true), ..s }
}

pub open spec fn spec_cli(s: CpuView) -> CpuView {
    CpuView { p: spec_set_flag(s.p, FLAG_INTERRUPT_DISABLE, false), ..s }
}

pub open spec fn spec_sei(s: CpuView) -> CpuView {
    CpuView { p: spec_set_flag(s.p, FLAG_INTERRUPT_DISABLE, true), ..s }
}

pub open spec fn spec_clv(s: CpuView) -> CpuView {
    CpuView { p: spec_set_flag(s.p, FLAG_OVERFLOW, false), ..s }
}

pub open spec fn spec_tax(s: CpuView) -> CpuView {
    CpuView { x: s.a, p: spec_set_zn(s.p, s.a), ..s }
}

pub open spec fn spec_tay(s: CpuView) -> CpuView {
    CpuView { y: s.a, p: spec_set_zn(s.p, s.a), ..s }
}

pub open spec fn spec_txa(s: CpuView) -> CpuView {
    CpuView { a: s.x, p: spec_set_zn(s.p, s.x), ..s }
}

pub open spec fn spec_tya(s: CpuView) -> CpuView {
    CpuView { a: s.y, p: spec_set_zn(s.p, s.y), ..s }
}

pub open spec fn spec_tsx(s: CpuView) -> CpuView {
    CpuView { x: s.sp, p: spec_set_zn(s.p, s.sp), ..s }
}

/// Transfer X to the stack pointer; no flags change.
pub open spec fn spec_txs(s: CpuView) -> CpuView {
    CpuView { sp: s.x, ..s }
}

pub open spec fn spec_nop(s: CpuView) -> CpuView {
    s
}

/// One machine step: fetch the opcode, advance past it, and perform the
/// instruction. The break opcode and any byte outside the dispatch table
/// leave the rest of the state untouched.
pub open spec fn spec_step(s: CpuView) -> CpuView
    recommends
        s.mem.len() == MEMORY_SIZE,
{
    let op = s.mem[s.pc as int];
    let s1 = CpuView { pc: w16(s.pc + 1), ..s };
    match op {
        0x69 => spec_adc(s1, AddressingMode::Immediate),
        0x65 => spec_adc(s1, AddressingMode::ZeroPage),
        0x75 => spec_adc(s1, AddressingMode::ZeroPageX),
        0x6D => spec_adc(s1, AddressingMode::Absolute),
        0x7D => spec_adc(s1, AddressingMode::AbsoluteX),
        0x79 => spec_adc(s1, AddressingMode::AbsoluteY),
        0x61 => spec_adc(s1, AddressingMode::IndirectX),
        0x71 => spec_adc(s1, AddressingMode::IndirectY),
        0x29 => spec_and(s1, AddressingMode::Immediate),
        0x25 => spec_and(s1, AddressingMode::ZeroPage),
        0x35 => spec_and(s1, AddressingMode::ZeroPageX),
        0x2D => spec_and(s1, AddressingMode::Absolute),
        0x3D => spec_and(s1, AddressingMode::AbsoluteX),
        0x39 => spec_and(s1, AddressingMode::AbsoluteY),
        0x21 => spec_and(s1, AddressingMode::IndirectX),
        0x31 => spec_and(s1, AddressingMode::IndirectY),
        0x0A => spec_asl(s1, None),
        0x06 => spec_asl(s1, Some(AddressingMode::ZeroPage)),
        0x16 => spec_asl(s1, Some(AddressingMode::ZeroPageX)),
        0x0E => spec_asl(s1, Some(AddressingMode::Absolute)),
        0x1E => spec_asl(s1, Some(AddressingMode::AbsoluteX)),
        0x90 => spec_bcc(s1),
        0xB0 => spec_bcs(s1),
        0xF0 => spec_beq(s1),
        0x24 => spec_bit(s1, AddressingMode::ZeroPage),
        0x2C => spec_bit(s1, AddressingMode::Absolute),
        0x30 => spec_bmi(s1),
        0xD0 => spec_bne(s1),
        0x10 => spec_bpl(s1),
        0x50 => spec_bvc(s1),
        0x70 => spec_bvs(s1),
        0x18 => spec_clc(s1),
        0xD8 => spec_cld(s1),
        0x58 => spec_cli(s1),
        0xB8 => spec_clv(s1),
        0xC9 => spec_cmp(s1, AddressingMode::Immediate),
        0xC5 => spec_cmp(s1, AddressingMode::ZeroPage),
        0xD5 => spec_cmp(s1, AddressingMode::ZeroPageX),
        0xCD => spec_cmp(s1, AddressingMode::Absolute),
        0xDD => spec_cmp(s1, AddressingMode::AbsoluteX),
        0xD9 => spec_cmp(s1, AddressingMode::AbsoluteY),
        0xC1 => spec_cmp(s1, AddressingMode::IndirectX),
        0xD1 => spec_cmp(s1, AddressingMode::IndirectY),
        0xE0 => spec_cpx(s1, AddressingMode::Immediate),
        0xE4 => spec_cpx(s1, AddressingMode::ZeroPage),
        0xEC => spec_cpx(s1, AddressingMode::Absolute),
        0xC0 => spec_cpy(s1, AddressingMode::Immediate),
        0xC4 => spec_cpy(s1, AddressingMode::ZeroPage),
        0xCC => spec_cpy(s1, AddressingMode::Absolute),
        0xC6 => spec_dec(s1, AddressingMode::ZeroPage),
        0xD6 => spec_dec(s1, AddressingMode::ZeroPageX),
        0xCE => spec_dec(s1, AddressingMode::Absolute),
        0xDE => spec_dec(s1, AddressingMode::AbsoluteX),
        0xCA => spec_dex(s1),
        0x88 => spec_dey(s1),
        0x49 => spec_eor(s1, AddressingMode::Immediate),
        0x45 => spec_eor(s1, AddressingMode::ZeroPage),
        0x55 => spec_eor(s1, AddressingMode::ZeroPageX),
        0x4D => spec_eor(s1, AddressingMode::Absolute),
        0x5D => spec_eor(s1, AddressingMode::AbsoluteX),
        0x59 => spec_eor(s1, AddressingMode::AbsoluteY),
        0x41 => spec_eor(s1, AddressingMode::IndirectX),
        0x51 => spec_eor(s1, AddressingMode::IndirectY),
        0xE6 => spec_inc(s1, AddressingMode::ZeroPage),
        0xF6 => spec_inc(s1, AddressingMode::ZeroPageX),
        0xEE => spec_inc(s1, AddressingMode::Absolute),
        0xFE => spec_inc(s1, AddressingMode::AbsoluteX),
        0xE8 => spec_inx(s1),
        0xC8 => spec_iny(s1),
        0x4C => spec_jmp(s1, AddressingMode::Absolute),
        0x6C => spec_jmp(s1, AddressingMode::Indirect),
        0x20 => spec_jsr(s1),
        0xA9 => spec_lda(s1, AddressingMode::Immediate),
        0xA5 => spec_lda(s1, AddressingMode::ZeroPage),
        0xB5 => spec_lda(s1, AddressingMode::ZeroPageX),
        0xAD => spec_lda(s1, AddressingMode::Absolute),
        0xBD => spec_lda(s1, AddressingMode::AbsoluteX),
        0xB9 => spec_lda(s1, AddressingMode::AbsoluteY),
        0xA1 => spec_lda(s1, AddressingMode::IndirectX),
        0xB1 => spec_lda(s1, AddressingMode::IndirectY),
        0xA2 => spec_ldx(s1, AddressingMode::Immediate),
        0xA6 => spec_ldx(s1, AddressingMode::ZeroPage),
        0xB6 => spec_ldx(s1, AddressingMode::ZeroPageY),
        0xAE => spec_ldx(s1, AddressingMode::Absolute),
        0xBE => spec_ldx(s1, AddressingMode::AbsoluteY),
        0xA0 => spec_ldy(s1, AddressingMode::Immediate),
        0xA4 => spec_ldy(s1, AddressingMode::ZeroPage),
        0xB4 => spec_ldy(s1, AddressingMode::ZeroPageX),
        0xAC => spec_ldy(s1, AddressingMode::Absolute),
        0xBC => spec_ldy(s1, AddressingMode::AbsoluteX),
        0x4A => spec_lsr(s1, None),
        0x46 => spec_lsr(s1, Some(AddressingMode::ZeroPage)),
        0x56 => spec_lsr(s1, Some(AddressingMode::ZeroPageX)),
        0x4E => spec_lsr(s1, Some(AddressingMode::Absolute)),
        0x5E => spec_lsr(s1, Some(AddressingMode::AbsoluteX)),
        0xEA => spec_nop(s1),
        0x09 => spec_ora(s1, AddressingMode::Immediate),
        0x05 => spec_ora(s1, AddressingMode::ZeroPage),
        0x15 => spec_ora(s1, AddressingMode::ZeroPageX),
        0x0D => spec_ora(s1, AddressingMode::Absolute),
        0x1D => spec_ora(s1, AddressingMode::AbsoluteX),
        0x19 => spec_ora(s1, AddressingMode::AbsoluteY),
        0x01 => spec_ora(s1, AddressingMode::IndirectX),
        0x11 => spec_ora(s1, AddressingMode::IndirectY),
        0x48 => spec_pha(s1),
        0x08 => spec_php(s1),
        0x68 => spec_pla(s1),
        0x28 => spec_plp(s1),
        0x2A => spec_rol(s1, None),
        0x26 => spec_rol(s1, Some(AddressingMode::ZeroPage)),
        0x36 => spec_rol(s1, Some(AddressingMode::ZeroPageX)),
        0x2E => spec_rol(s1, Some(AddressingMode::Absolute)),
        0x3E => spec_rol(s1, Some(AddressingMode::AbsoluteX)),
        0x6A => spec_ror(s1, None),
        0x66 => spec_ror(s1, Some(AddressingMode::ZeroPage)),
        0x76 => spec_ror(s1, Some(AddressingMode::ZeroPageX)),
        0x6E => spec_ror(s1, Some(AddressingMode::Absolute)),
        0x7E => spec_ror(s1, Some(AddressingMode::AbsoluteX)),
        0x40 => spec_rti(s1),
        0x60 => spec_rts(s1),
        0xE9 => spec_sbc(s1, AddressingMode::Immediate),
        0xE5 => spec_sbc(s1, AddressingMode::ZeroPage),
        0xF5 => spec_sbc(s1, AddressingMode::ZeroPageX),
        0xED => spec_sbc(s1, AddressingMode::Absolute),
        0xFD => spec_sbc(s1, AddressingMode::AbsoluteX),
        0xF9 => spec_sbc(s1, AddressingMode::AbsoluteY),
        0xE1 => spec_sbc(s1, AddressingMode::IndirectX),
        0xF1 => spec_sbc(s1, AddressingMode::IndirectY),
        0x38 => spec_sec(s1),
        0xF8 => spec_sed(s1),
        0x78 => spec_sei(s1),
        0x85 => spec_sta(s1, AddressingMode::ZeroPage),
        0x95 => spec_sta(s1, AddressingMode::ZeroPageX),
        0x8D => spec_sta(s1, AddressingMode::Absolute),
        0x9D => spec_sta(s1, AddressingMode::AbsoluteX),
        0x99 => spec_sta(s1, AddressingMode::AbsoluteY),
        0x81 => spec_sta(s1, AddressingMode::IndirectX),
        0x91 => spec_sta(s1, AddressingMode::IndirectY),
        0x86 => spec_stx(s1, AddressingMode::ZeroPage),
        0x96 => spec_stx(s1, AddressingMode::ZeroPageY),
        0x8E => spec_stx(s1, AddressingMode::Absolute),
        0x84 => spec_sty(s1, AddressingMode::ZeroPage),
        0x94 => spec_sty(s1, AddressingMode::ZeroPageX),
        0x8C => spec_sty(s1, AddressingMode::Absolute),
        0xAA => spec_tax(s1),
        0xA8 => spec_tay(s1),
        0xBA => spec_tsx(s1),
        0x8A => spec_txa(s1),
        0x9A => spec_txs(s1),
        0x98 => spec_tya(s1),
        _ => s1,
    }
}

/// Whether an opcode halts a run: the break opcode, or a byte the
/// dispatch table refuses.
pub open spec fn spec_halts(op: u8) -> bool {
    op == 0 || crate::instruction::spec_decode(op) is None
}

/// Running the machine: step until a halting opcode has been executed
/// or `fuel` steps have been taken.
pub open spec fn spec_run(s: CpuView, fuel: nat) -> CpuView
    decreases fuel,
{
    if fuel == 0 {
        s
    } else {
        let op = s.mem[s.pc as int];
        let s2 = spec_step(s);
        if spec_halts(op) {
            s2
        } else {
            spec_run(s2, (fuel - 1) as nat)
        }
    }
}

pub struct Cpu {
    pub registers: Registers,
    pub memory: Memory,
}

impl View for Cpu {
    type V = CpuView;

    open spec fn view(&self) -> CpuView {
        CpuView {
            a: self.registers.a,
            x: self.registers.x,
            y: self.registers.y,
            p: self.registers.p,
            sp: self.registers.sp,
            pc: self.registers.pc,
            mem: self.memory@,
        }
    }
}

impl Cpu {
    pub fn new(memory: Memory) -> (r: Cpu)
        ensures
            r@.mem == memory@,
            r@.a == 0 && r@.x == 0 && r@.y == 0 && r@.p == 0 && r@.sp == 0 && r@.pc == 0,
    {
        Cpu { registers: Registers::default(), memory }
    }

    /// Reset: the program counter moves to the ROM base and every other
    /// register and flag clears. Memory keeps its contents. The stack
    /// pointer starts at zero, so the first push lands at the top of the
    /// stack page by wrap.
    pub fn reset(&mut self)
        ensures
            final(self)@ == (CpuView {
                a: 0,
                x: 0,
                y: 0,
                p: 0,
                sp: 0,
                pc: ROM_BASE,
                mem: old(self)@.mem,
            }),
    {
        self.registers = Registers { pc: ROM_BASE, ..Registers::default() };
        assert(self@ =~= (CpuView { a: 0, x: 0, y: 0, p: 0, sp: 0, pc: ROM_BASE, mem: old(self)@.mem }));
    }

    /// Copy a program into memory at the ROM base.
    pub fn load(&mut self, program: &[u8])
        requires
            program@.len() <= MEMORY_SIZE - ROM_BASE as int,
        ensures
            final(self)@.mem =~= old(self)@.mem.subrange(0, ROM_BASE as int) + program@ + old(
                self,
            )@.mem.subrange(ROM_BASE as int + program@.len(), MEMORY_SIZE as int),
            final(self).registers == old(self).registers,
    {
        self.memory.rom(program);
    }

    /// The effective address of the current instruction's operand; the
    /// program counter advances over the operand bytes.
    pub fn get_address_from_mode(&mut self, mode: AddressingMode) -> (r: u16)
        ensures
            r == spec_addr_of(old(self)@, mode),
            final(self)@ == spec_after(old(self)@, mode),
    {
        let r = match mode {
            AddressingMode::Immediate => {
                let data = self.registers.pc;
                self.registers.pc = self.registers.pc.wrapping_add(1);
                data
            },
            AddressingMode::Absolute => {
                let data = self.memory.read_addr(self.registers.pc);
                self.registers.pc = self.registers.pc.wrapping_add(2);
                data
            },
            AddressingMode::AbsoluteX => {
                let base = self.memory.read_addr(self.registers.pc);
                self.registers.pc = self.registers.pc.wrapping_add(2);
                base.wrapping_add(self.registers.x as u16)
            },
            AddressingMode::AbsoluteY => {
                let base = self.memory.read_addr(self.registers.pc);
                self.registers.pc = self.registers.pc.wrapping_add(2);
                base.wrapping_add(self.registers.y as u16)
            },
            AddressingMode::Indirect => {
                let ptr = self.memory.read_addr(self.registers.pc);
                self.registers.pc = self.registers.pc.wrapping_add(2);
                self.memory.read_addr(ptr)
            },
            AddressingMode::IndirectX => {
                let base = self.memory.read(self.registers.pc);
                self.registers.pc = self.registers.pc.wrapping_add(1);
                let ptr = base.wrapping_add(self.registers.x);
                self.memory.read_addr(ptr as u16)
            },
            AddressingMode::IndirectY => {
                let ptr = self.memory.read(self.registers.pc);
                self.registers.pc = self.registers.pc.wrapping_add(1);
                let base = self.memory.read_addr(ptr as u16);
                base.wrapping_add(self.registers.y as u16)
            },
            AddressingMode::ZeroPage => {
                let data = self.memory.read(self.registers.pc);
                self.registers.pc = self.registers.pc.wrapping_add(1);
                data as u16
            },
            AddressingMode::ZeroPageX => {
                let data = self.memory.read(self.registers.pc);
                self.registers.pc = self.registers.pc.wrapping_add(1);
                data.wrapping_add(self.registers.x) as u16
            },
            AddressingMode::ZeroPageY => {
                let data = self.memory.read(self.registers.pc);
                self.registers.pc = self.registers.pc.wrapping_add(1);
                data.wrapping_add(self.registers.y) as u16
            },
        };
        assert(self@ =~= spec_after(old(self)@, mode));
        r
    }

    /// The operand byte the addressing mode names.
    pub fn get_data_from_addressing_mode(&mut self, mode: AddressingMode) -> (r: u8)
        ensures
            r == spec_data_of(old(self)@, mode),
            final(self)@ == spec_after(old(self)@, mode),
    {
        let address = self.get_address_from_mode(mode);
        self.memory.read(address)
    }

    /// Push one byte onto the stack.
    pub fn stack_push(&mut self, data: u8)
        ensures
            final(self)@ == spec_push8(old(self)@, data),
    {
        self.memory.write(STACK_BASE + self.registers.sp as u16, data);
        self.registers.sp = self.registers.sp.wrapping_sub(1);
        assert(self@ =~= spec_push8(old(self)@, data));
    }

    /// Pop one byte off the stack.
    pub fn stack_pop(&mut self) -> (r: u8)
        ensures
            final(self)@ == spec_pop8(old(self)@).0,
            r == spec_pop8(old(self)@).1,
    {
        self.registers.sp = self.registers.sp.wrapping_add(1);
        let r = self.memory.read(STACK_BASE + self.registers.sp as u16);
        assert(self@ =~= spec_pop8(old(self)@).0);
        r
    }

    /// Push a 16-bit value, high byte first.
    pub fn stack_push_addr(&mut self, data: u16)
        ensures
            final(self)@ == spec_push16(old(self)@, data),
    {
        let lsb: u8 = (data % 256) as u8;
        let msb: u8 = (data / 256) as u8;
        self.stack_push(msb);
        self.stack_push(lsb);
    }

    /// Pop a 16-bit value, low byte first.
    pub fn stack_pop_addr(&mut self) -> (r: u16)
        ensures
            final(self)@ == spec_pop16(old(self)@).0,
            r == spec_pop16(old(self)@).1,
    {
        let lsb = self.stack_pop();
        let msb = self.stack_pop();
        lsb as u16 + 256 * (msb as u16)
    }

    fn add_to_accumulator_with_carry(&mut self, data: u8)
        ensures
            final(self)@ == spec_add_core(old(self)@, data),
    {
        let carry: u16 = if self.registers.get_flag_carry() {
            1
        } else {
            0
        };
        let sum: u16 = self.registers.a as u16 + data as u16 + carry;
        self.registers.set_flag_carry(sum > 0xff);
        let result: u8 = (sum % 256) as u8;
        self.registers.set_flag_overflow((self.registers.a ^ result) & (data ^ result) & 0x80 != 0);
        self.registers.set_zero_negative_flags(result);
        self.registers.a = result;
        assert(self@ =~= spec_add_core(old(self)@, data));
    }

    pub fn adc(&mut self, mode: AddressingMode)
        ensures
            final(self)@ == spec_adc(old(self)@, mode),
    {
        let data = self.get_data_from_addressing_mode(mode);
        self.add_to_accumulator_with_carry(data);
    }

    pub fn sbc(&mut self, mode: AddressingMode)
        ensures
            final(self)@ == spec_sbc(old(self)@, mode),
    {
        let data = self.get_data_from_addressing_mode(mode);
        self.add_to_accumulator_with_carry(data ^ 0xff);
    }

    pub fn and(&mut self, mode: AddressingMode)
        ensures
            final(self)@ == spec_and(old(self)@, mode),
    {
        let data = self.get_data_from_addressing_mode(mode);
        self.registers.a = self.registers.a & data;
        self.registers.set_zero_negative_flags(self.registers.a);
        assert(self@ =~= spec_and(old(self)@, mode));
    }

    pub fn ora(&mut self, mode: AddressingMode)
        ensures
            final(self)@ == spec_ora(old(self)@, mode),
    {
        let data = self.get_data_from_addressing_mode(mode);
        self.registers.a = self.registers.a | data;
        self.registers.set_zero_negative_flags(self.registers.a);
        assert(self@ =~= spec_ora(old(self)@, mode));
    }

    pub fn eor(&mut self, mode: AddressingMode)
        ensures
            final(self)@ == spec_eor(old(self)@, mode),
    {
        let data = self.get_data_from_addressing_mode(mode);
        self.registers.a = self.registers.a ^ data;
        self.registers.set_zero_negative_flags(self.registers.a);
        assert(self@ =~= spec_eor(old(self)@, mode));
    }

    pub fn cmp(&mut self, mode: AddressingMode)
        ensures
            final(self)@ == spec_cmp(old(self)@, mode),
    {
        let data = self.get_data_from_addressing_mode(mode);
        let result = self.registers.a.wrapping_sub(data);
        self.registers.set_zero_negative_flags(result);
        self.registers.set_flag_carry(self.registers.a >= data);
        assert(self@ =~= spec_cmp(old(self)@, mode));
    }

    pub fn cpx(&mut self, mode: AddressingMode)
        ensures
            final(self)@ == spec_cpx(old(self)@, mode),
    {
        let data = self.get_data_from_addressing_mode(mode);
        let result = self.registers.x.wrapping_sub(data);
        self.registers.set_zero_negative_flags(result);
        self.registers.set_flag_carry(self.registers.x >= data);
        assert(self@ =~= spec_cpx(old(self)@, mode));
    }

    pub fn cpy(&mut self, mode: AddressingMode)
        ensures
            final(self)@ == spec_cpy(old(self)@, mode),
    {
        let data = self.get_data_from_addressing_mode(mode);
        let result = self.registers.y.wrapping_sub(data);
        self.registers.set_zero_negative_flags(result);
        self.registers.set_flag_carry(self.registers.y >= data);
        assert(self@ =~= spec_cpy(old(self)@, mode));
    }

    pub fn bit(&mut self, mode: AddressingMode)
        ensures
            final(self)@ == spec_bit(old(self)@, mode),
    {
        let data = self.get_data_from_addressing_mode(mode);
        self.registers.set_flag_zero(self.registers.a & data == 0);
        self.registers.set_flag_negative(data & 0x80 != 0);
        self.registers.set_flag_overflow(data & 0x40 != 0);
        assert(self@ =~= spec_bit(old(self)@, mode));
    }

    pub fn lda(&mut self, mode: AddressingMode)
        ensures
            final(self)@ == spec_lda(old(self)@, mode),
    {
        let data = self.get_data_from_addressing_mode(mode);
        self.registers.a = data;
        self.registers.set_zero_negative_flags(data);
        assert(self@ =~= spec_lda(old(self)@, mode));
    }

    pub fn ldx(&mut self, mode: AddressingMode)
        ensures
            final(self)@ == spec_ldx(old(self)@, mode),
    {
        let data = self.get_data_from_addressing_mode(mode);
        self.registers.x = data;
        self.registers.set_zero_negative_flags(data);
        assert(self@ =~= spec_ldx(old(self)@, mode));
    }

    pub fn ldy(&mut self, mode: AddressingMode)
        ensures
            final(self)@ == spec_ldy(old(self)@, mode),
    {
        let data = self.get_data_from_addressing_mode(mode);
        self.registers.y = data;
        self.registers.set_zero_negative_flags(data);
        assert(self@ =~= spec_ldy(old(self)@, mode));
    }

    pub fn sta(&mut self, mode: AddressingMode)
        ensures
            final(self)@ == spec_sta(old(self)@, mode),
    {
        let address = self.get_address_from_mode(mode);
        self.memory.write(address, self.registers.a);
        assert(self@ =~= spec_sta(old(self)@, mode));
    }

    pub fn stx(&mut self, mode: AddressingMode)
        ensures
            final(self)@ == spec_stx(old(self)@, mode),
    {
        let address = self.get_address_from_mode(mode);
        self.memory.write(address, self.registers.x);
        assert(self@ =~= spec_stx(old(self)@, mode));
    }

    pub fn sty(&mut self, mode: AddressingMode)
        ensures
            final(self)@ == spec_sty(old(self)@, mode),
    {
        let address = self.get_address_from_mode(mode);
        self.memory.write(address, self.registers.y);
        assert(self@ =~= spec_sty(old(self)@, mode));
    }

    pub fn inc(&mut self, mode: AddressingMode)
        ensures
            final(self)@ == spec_inc(old(self)@, mode),
    {
        let addr = self.get_address_from_mode(mode);
        let data = self.memory.read(addr).wrapping_add(1);
        self.memory.write(addr, data);
        self.registers.set_zero_negative_flags(data);
        assert(self@ =~= spec_inc(old(self)@, mode));
    }

    pub fn dec(&mut self, mode: AddressingMode)
        ensures
            final(self)@ == spec_dec(old(self)@, mode),
    {
        let addr = self.get_address_from_mode(mode);
        let data = self.memory.read(addr).wrapping_sub(1);
        self.memory.write(addr, data);
        self.registers.set_zero_negative_flags(data);
        assert(self@ =~= spec_dec(old(self)@, mode));
    }

    pub fn inx(&mut self)
        ensures
            final(self)@ == spec_inx(old(self)@),
    {
        self.registers.x = self.registers.x.wrapping_add(1);
        self.registers.set_zero_negative_flags(self.registers.x);
        assert(self@ =~= spec_inx(old(self)@));
    }

    pub fn iny(&mut self)
        ensures
            final(self)@ == spec_iny(old(self)@),
    {
        self.registers.y = self.registers.y.wrapping_add(1);
        self.registers.set_zero_negative_flags(self.registers.y);
        assert(self@ =~= spec_iny(old(self)@));
    }

    pub fn dex(&mut self)
        ensures
            final(self)@ == spec_dex(old(self)@),
    {
        self.registers.x = self.registers.x.wrapping_sub(1);
        self.registers.set_zero_negative_flags(self.registers.x);
        assert(self@ =~= spec_dex(old(self)@));
    }

    pub fn dey(&mut self)
        ensures
            final(self)@ == spec_dey(old(self)@),
    {
        self.registers.y = self.registers.y.wrapping_sub(1);
        self.registers.set_zero_negative_flags(self.registers.y);
        assert(self@ =~= spec_dey(old(self)@));
    }

    fn shift_target(&mut self, mode: Option<AddressingMode>) -> (r: (u8, Option<u16>))
        ensures
            match mode {
                None => r.0 == old(self)@.a && r.1 is None && final(self)@ == old(self)@,
                Some(m) => r.0 == spec_data_of(old(self)@, m) && (r.1 matches Some(a) && a
                    == spec_addr_of(old(self)@, m)) && final(self)@ == spec_after(old(self)@, m),
            },
    {
        match mode {
            None => (self.registers.a, None),
            Some(m) => {
                let addr = self.get_address_from_mode(m);
                (self.memory.read(addr), Some(addr))
            },
        }
    }

    fn shift_finish(&mut self, target: Option<u16>, result: u8)
        ensures
            match target {
                None => final(self)@ == (CpuView { a: result, ..old(self)@ }),
                Some(addr) => final(self)@ == (CpuView {
                    mem: old(self)@.mem.update(addr as int, result),
                    ..old(self)@
                }),
            },
    {
        match target {
            None => {
                self.registers.a = result;
                assert(self@ =~= (CpuView { a: result, ..old(self)@ }));
            },
            Some(addr) => {
                self.memory.write(addr, result);
                assert(self@ =~= (CpuView {
                    mem: old(self)@.mem.update(addr as int, result),
                    ..old(self)@
                }));
            },
        }
    }

    pub fn asl(&mut self, mode: Option<AddressingMode>)
        ensures
            final(self)@ == spec_asl(old(self)@, mode),
    {
        let (data, target) = self.shift_target(mode);
        self.registers.set_flag_carry(data & 0x80 != 0);
        let result: u8 = ((data as u16 * 2) % 256) as u8;
        self.registers.set_zero_negative_flags(result);
        self.shift_finish(target, result);
        assert(self@ =~= spec_asl(old(self)@, mode));
    }

    pub fn lsr(&mut self, mode: Option<AddressingMode>)
        ensures
            final(self)@ == spec_lsr(old(self)@, mode),
    {
        let (data, target) = self.shift_target(mode);
        self.registers.set_flag_carry(data & 1 != 0);
        let result: u8 = data / 2;
        self.registers.set_zero_negative_flags(result);
        self.shift_finish(target, result);
        assert(self@ =~= spec_lsr(old(self)@, mode));
    }

    pub fn rol(&mut self, mode: Option<AddressingMode>)
        ensures
            final(self)@ == spec_rol(old(self)@, mode),
    {
        let (data, target) = self.shift_target(mode);
        let carry_in: u16 = if self.registers.get_flag_carry() {
            1
        } else {
            0
        };
        self.registers.set_flag_carry(data & 0x80 != 0);
        let result: u8 = ((data as u16 * 2 + carry_in) % 256) as u8;
        self.registers.set_zero_negative_flags(result);
        self.shift_finish(target, result);
        assert(self@ =~= spec_rol(old(self)@, mode));
    }

    pub fn ror(&mut self, mode: Option<AddressingMode>)
        ensures
            final(self)@ == spec_ror(old(self)@, mode),
    {
        let (data, target) = self.shift_target(mode);
        let carry_in: u8 = if self.registers.get_flag_carry() {
            0x80
        } else {
            0
        };
        self.registers.set_flag_carry(data & 1 != 0);
        let result: u8 = data / 2 + carry_in;
        self.registers.set_zero_negative_flags(result);
        self.shift_finish(target, result);
        assert(self@ =~= spec_ror(old(self)@, mode));
    }

    pub fn jmp(&mut self, mode: AddressingMode)
        ensures
            final(self)@ == spec_jmp(old(self)@, mode),
    {
        let address = self.get_address_from_mode(mode);
        self.registers.pc = address;
        assert(self@ =~= spec_jmp(old(self)@, mode));
    }

    pub fn jsr(&mut self)
        ensures
            final(self)@ == spec_jsr(old(self)@),
    {
        let target = self.memory.read_addr(self.registers.pc);
        let ret = self.registers.pc.wrapping_add(2).wrapping_sub(1);
        self.stack_push_addr(ret);
        self.registers.pc = target;
        assert(self@ =~= spec_jsr(old(self)@));
    }

    pub fn rts(&mut self)
        ensures
            final(self)@ == spec_rts(old(self)@),
    {
        let address = self.stack_pop_addr();
        self.registers.pc = address.wrapping_add(1);
        assert(self@ =~= spec_rts(old(self)@));
    }

    pub fn rti(&mut self)
        ensures
            final(self)@ == spec_rti(old(self)@),
    {
        let p = self.stack_pop();
        let pc = self.stack_pop_addr();
        self.registers.p = p;
        self.registers.pc = pc;
        assert(self@ =~= spec_rti(old(self)@));
    }

    pub fn pha(&mut self)
        ensures
            final(self)@ == spec_pha(old(self)@),
    {
        let a = self.registers.a;
        self.stack_push(a);
    }

    pub fn php(&mut self)
        ensures
            final(self)@ == spec_php(old(self)@),
    {
        let p = self.registers.p;
        self.stack_push(p);
    }

    pub fn pla(&mut self)
        ensures
            final(self)@ == spec_pla(old(self)@),
    {
        let v = self.stack_pop();
        self.registers.a = v;
        self.registers.set_zero_negative_flags(v);
        assert(self@ =~= spec_pla(old(self)@));
    }

    pub fn plp(&mut self)
        ensures
            final(self)@ == spec_plp(old(self)@),
    {
        let v = self.stack_pop();
        self.registers.p = v;
        assert(self@ =~= spec_plp(old(self)@));
    }

    /// Take a branch: read the displacement and add it, signed, to the
    /// program counter.
    fn branch(&mut self)
        ensures
            final(self)@ == spec_branch_if(old(self)@, true),
    {
        let offset = self.memory.read(self.registers.pc);
        self.registers.pc = self.registers.pc.wrapping_add(1);
        let displacement: u16 = if offset < 128 {
            offset as u16
        } else {
            offset as u16 + 0xff00
        };
        self.registers.pc = self.registers.pc.wrapping_add(displacement);
        assert(self@ =~= spec_branch_if(old(self)@, true));
    }

    fn skip_branch(&mut self)
        ensures
            final(self)@ == spec_branch_if(old(self)@, false),
    {
        self.registers.pc = self.registers.pc.wrapping_add(1);
        assert(self@ =~= spec_branch_if(old(self)@, false));
    }

    pub fn bcc(&mut self)
        ensures
            final(self)@ == spec_bcc(old(self)@),
    {
        if !self.registers.get_flag_carry() {
            self.branch();
        } else {
            self.skip_branch();
        }
    }

    pub fn bcs(&mut self)
        ensures
            final(self)@ == spec_bcs(old(self)@),
    {
        if self.registers.get_flag_carry() {
            self.branch();
        } else {
            self.skip_branch();
        }
    }

    pub fn beq(&mut self)
        ensures
            final(self)@ == spec_beq(old(self)@),
    {
        if self.registers.get_flag_zero() {
            self.branch();
        } else {
            self.skip_branch();
        }
    }

    pub fn bne(&mut self)
        ensures
            final(self)@ == spec_bne(old(self)@),
    {
        if !self.registers.get_flag_zero() {
            self.branch();
        } else {
            self.skip_branch();
        }
    }

    pub fn bmi(&mut self)
        ensures
            final(self)@ == spec_bmi(old(self)@),
    {
        if self.registers.get_flag_negative() {
            self.branch();
        } else {
            self.skip_branch();
        }
    }

    pub fn bpl(&mut self)
        ensures
            final(self)@ == spec_bpl(old(self)@),
    {
        if !self.registers.get_flag_negative() {
            self.branch();
        } else {
            self.skip_branch();
        }
    }

    pub fn bvs(&mut self)
        ensures
            final(self)@ == spec_bvs(old(self)@),
    {
        if self.registers.get_flag_overflow() {
            self.branch();
        } else {
            self.skip_branch();
        }
    }

    pub fn bvc(&mut self)
        ensures
            final(self)@ == spec_bvc(old(self)@),
    {
        if !self.registers.get_flag_overflow() {
            self.branch();
        } else {
            self.skip_branch();
        }
    }

    pub fn clc(&mut self)
        ensures
            final(self)@ == spec_clc(old(self)@),
    {
        self.registers.set_flag_carry(false);
        assert(self@ =~= spec_clc(old(self)@));
    }

    pub fn sec(&mut self)
        ensures
            final(self)@ == spec_sec(old(self)@),
    {
        self.registers.set_flag_carry(true);
        assert(self@ =~= spec_sec(old(self)@));
    }

    pub fn cld(&mut self)
        ensures
            final(self)@ == spec_cld(old(self)@),
    {
        self.registers.set_flag_decimal(false);
        assert(self@ =~= spec_cld(old(self)@));
    }

    pub fn sed(&mut self)
        ensures
            final(self)@ == spec_sed(old(self)@),
    {
        self.registers.set_flag_decimal(true);
        assert(self@ =~= spec_sed(old(self)@));
    }

    pub fn cli(&mut self)
        ensures
            final(self)@ == spec_cli(old(self)@),
    {
        self.registers.set_flag_interrupt_disable(false);
        assert(self@ =~= spec_cli(old(self)@));
    }

    pub fn sei(&mut self)
        ensures
            final(self)@ == spec_sei(old(self)@),
    {
        self.registers.set_flag_interrupt_disable(true);
        assert(self@ =~= spec_sei(old(self)@));
    }

    pub fn clv(&mut self)
        ensures
            final(self)@ == spec_clv(old(self)@),
    {
        self.registers.set_flag_overflow(false);
        assert(self@ =~= spec_clv(old(self)@));
    }

    pub fn tax(&mut self)
        ensures
            final(self)@ == spec_tax(old(self)@),
    {
        self.registers.x = self.registers.a;
        self.registers.set_zero_negative_flags(self.registers.x);
        assert(self@ =~= spec_tax(old(self)@));
    }

    pub fn tay(&mut self)
        ensures
            final(self)@ == spec_tay(old(self)@),
    {
        self.registers.y = self.registers.a;
        self.registers.set_zero_negative_flags(self.registers.y);
        assert(self@ =~= spec_tay(old(self)@));
    }

    pub fn txa(&mut self)
        ensures
            final(self)@ == spec_txa(old(self)@),
    {
        self.registers.a = self.registers.x;
        self.registers.set_zero_negative_flags(self.registers.a);
        assert(self@ =~= spec_txa(old(self)@));
    }

    pub fn tya(&mut self)
        ensures
            final(self)@ == spec_tya(old(self)@),
    {
        self.registers.a = self.registers.y;
        self.registers.set_zero_negative_flags(self.registers.a);
        assert(self@ =~= spec_tya(old(self)@));
    }

    pub fn tsx(&mut self)
        ensures
            final(self)@ == spec_tsx(old(self)@),
    {
        self.registers.x = self.registers.sp;
        self.registers.set_zero_negative_flags(self.registers.x);
        assert(self@ =~= spec_tsx(old(self)@));
    }

    pub fn txs(&mut self)
        ensures
            final(self)@ == spec_txs(old(self)@),
    {
        self.registers.sp = self.registers.x;
        assert(self@ =~= spec_txs(old(self)@));
    }

    pub fn nop(&mut self)
        ensures
            final(self)@ == spec_nop(old(self)@),
    {
    }

    /// One machine step: fetch the opcode at the program counter,
    /// advance past it, perform the instruction, and hand the fetched
    /// byte back (a front-end stops on the break opcode).
    #[verifier::rlimit(100)]
    #[verifier::spinoff_prover]
    pub fn step(&mut self) -> (r: u8)
        ensures
            final(self)@ == spec_step(old(self)@),
            r == old(self)@.mem[old(self)@.pc as int],
    {
        let opcode = self.memory.read(self.registers.pc);
        self.registers.pc = self.registers.pc.wrapping_add(1);
        match opcode {
            0x69 => self.adc(AddressingMode::Immediate),
            0x65 => self.adc(AddressingMode::ZeroPage),
            0x75 => self.adc(AddressingMode::ZeroPageX),
            0x6D => self.adc(AddressingMode::Absolute),
            0x7D => self.adc(AddressingMode::AbsoluteX),
            0x79 => self.adc(AddressingMode::AbsoluteY),
            0x61 => self.adc(AddressingMode::IndirectX),
            0x71 => self.adc(AddressingMode::IndirectY),
            0x29 => self.and(AddressingMode::Immediate),
            0x25 => self.and(AddressingMode::ZeroPage),
            0x35 => self.and(AddressingMode::ZeroPageX),
            0x2D => self.and(AddressingMode::Absolute),
            0x3D => self.and(AddressingMode::AbsoluteX),
            0x39 => self.and(AddressingMode::AbsoluteY),
            0x21 => self.and(AddressingMode::IndirectX),
            0x31 => self.and(AddressingMode::IndirectY),
            0x0A => self.asl(None),
            0x06 => self.asl(Some(AddressingMode::ZeroPage)),
            0x16 => self.asl(Some(AddressingMode::ZeroPageX)),
            0x0E => self.asl(Some(AddressingMode::Absolute)),
            0x1E => self.asl(Some(AddressingMode::AbsoluteX)),
            0x90 => self.bcc(),
            0xB0 => self.bcs(),
            0xF0 => self.beq(),
            0x24 => self.bit(AddressingMode::ZeroPage),
            0x2C => self.bit(AddressingMode::Absolute),
            0x30 => self.bmi(),
            0xD0 => self.bne(),
            0x10 => self.bpl(),
            0x50 => self.bvc(),
            0x70 => self.bvs(),
            0x18 => self.clc(),
            0xD8 => self.cld(),
            0x58 => self.cli(),
            0xB8 => self.clv(),
            0xC9 => self.cmp(AddressingMode::Immediate),
            0xC5 => self.cmp(AddressingMode::ZeroPage),
            0xD5 => self.cmp(AddressingMode::ZeroPageX),
            0xCD => self.cmp(AddressingMode::Absolute),
            0xDD => self.cmp(AddressingMode::AbsoluteX),
            0xD9 => self.cmp(AddressingMode::AbsoluteY),
            0xC1 => self.cmp(AddressingMode::IndirectX),
            0xD1 => self.cmp(AddressingMode::IndirectY),
            0xE0 => self.cpx(AddressingMode::Immediate),
            0xE4 => self.cpx(AddressingMode::ZeroPage),
            0xEC => self.cpx(AddressingMode::Absolute),
            0xC0 => self.cpy(AddressingMode::Immediate),
            0xC4 => self.cpy(AddressingMode::ZeroPage),
            0xCC => self.cpy(AddressingMode::Absolute),
            0xC6 => self.dec(AddressingMode::ZeroPage),
            0xD6 => self.dec(AddressingMode::ZeroPageX),
            0xCE => self.dec(AddressingMode::Absolute),
            0xDE => self.dec(AddressingMode::AbsoluteX),
            0xCA => self.dex(),
            0x88 => self.dey(),
            0x49 => self.eor(AddressingMode::Immediate),
            0x45 => self.eor(AddressingMode::ZeroPage),
            0x55 => self.eor(AddressingMode::ZeroPageX),
            0x4D => self.eor(AddressingMode::Absolute),
            0x5D => self.eor(AddressingMode::AbsoluteX),
            0x59 => self.eor(AddressingMode::AbsoluteY),
            0x41 => self.eor(AddressingMode::IndirectX),
            0x51 => self.eor(AddressingMode::IndirectY),
            0xE6 => self.inc(AddressingMode::ZeroPage),
            0xF6 => self.inc(AddressingMode::ZeroPageX),
            0xEE => self.inc(AddressingMode::Absolute),
            0xFE => self.inc(AddressingMode::AbsoluteX),
            0xE8 => self.inx(),
            0xC8 => self.iny(),
            0x4C => self.jmp(AddressingMode::Absolute),
            0x6C => self.jmp(AddressingMode::Indirect),
            0x20 => self.jsr(),
            0xA9 => self.lda(AddressingMode::Immediate),
            0xA5 => self.lda(AddressingMode::ZeroPage),
            0xB5 => self.lda(AddressingMode::ZeroPageX),
            0xAD => self.lda(AddressingMode::Absolute),
            0xBD => self.lda(AddressingMode::AbsoluteX),
            0xB9 => self.lda(AddressingMode::AbsoluteY),
            0xA1 => self.lda(AddressingMode::IndirectX),
            0xB1 => self.lda(AddressingMode::IndirectY),
            0xA2 => self.ldx(AddressingMode::Immediate),
            0xA6 => self.ldx(AddressingMode::ZeroPage),
            0xB6 => self.ldx(AddressingMode::ZeroPageY),
            0xAE => self.ldx(AddressingMode::Absolute),
            0xBE => self.ldx(AddressingMode::AbsoluteY),
            0xA0 => self.ldy(AddressingMode::Immediate),
            0xA4 => self.ldy(AddressingMode::ZeroPage),
            0xB4 => self.ldy(AddressingMode::ZeroPageX),
            0xAC => self.ldy(AddressingMode::Absolute),
            0xBC => self.ldy(AddressingMode::AbsoluteX),
            0x4A => self.lsr(None),
            0x46 => self.lsr(Some(AddressingMode::ZeroPage)),
            0x56 => self.lsr(Some(AddressingMode::ZeroPageX)),
            0x4E => self.lsr(Some(AddressingMode::Absolute)),
            0x5E => self.lsr(Some(AddressingMode::AbsoluteX)),
            0xEA => self.nop(),
            0x09 => self.ora(AddressingMode::Immediate),
            0x05 => self.ora(AddressingMode::ZeroPage),
            0x15 => self.ora(AddressingMode::ZeroPageX),
            0x0D => self.ora(AddressingMode::Absolute),
            0x1D => self.ora(AddressingMode::AbsoluteX),
            0x19 => self.ora(AddressingMode::AbsoluteY),
            0x01 => self.ora(AddressingMode::IndirectX),
            0x11 => self.ora(AddressingMode::IndirectY),
            0x48 => self.pha(),
            0x08 => self.php(),
            0x68 => self.pla(),
            0x28 => self.plp(),
            0x2A => self.rol(None),
            0x26 => self.rol(Some(AddressingMode::ZeroPage)),
            0x36 => self.rol(Some(AddressingMode::ZeroPageX)),
            0x2E => self.rol(Some(AddressingMode::Absolute)),
            0x3E => self.rol(Some(AddressingMode::AbsoluteX)),
            0x6A => self.ror(None),
            0x66 => self.ror(Some(AddressingMode::ZeroPage)),
            0x76 => self.ror(Some(AddressingMode::ZeroPageX)),
            0x6E => self.ror(Some(AddressingMode::Absolute)),
            0x7E => self.ror(Some(AddressingMode::AbsoluteX)),
            0x40 => self.rti(),
            0x60 => self.rts(),
            0xE9 => self.sbc(AddressingMode::Immediate),
            0xE5 => self.sbc(AddressingMode::ZeroPage),
            0xF5 => self.sbc(AddressingMode::ZeroPageX),
            0xED => self.sbc(AddressingMode::Absolute),
            0xFD => self.sbc(AddressingMode::AbsoluteX),
            0xF9 => self.sbc(AddressingMode::AbsoluteY),
            0xE1 => self.sbc(AddressingMode::IndirectX),
            0xF1 => self.sbc(AddressingMode::IndirectY),
            0x38 => self.sec(),
            0xF8 => self.sed(),
            0x78 => self.sei(),
            0x85 => self.sta(AddressingMode::ZeroPage),
            0x95 => self.sta(AddressingMode::ZeroPageX),
            0x8D => self.sta(AddressingMode::Absolute),
            0x9D => self.sta(AddressingMode::AbsoluteX),
            0x99 => self.sta(AddressingMode::AbsoluteY),
            0x81 => self.sta(AddressingMode::IndirectX),
            0x91 => self.sta(AddressingMode::IndirectY),
            0x86 => self.stx(AddressingMode::ZeroPage),
            0x96 => self.stx(AddressingMode::ZeroPageY),
            0x8E => self.stx(AddressingMode::Absolute),
            0x84 => self.sty(AddressingMode::ZeroPage),
            0x94 => self.sty(AddressingMode::ZeroPageX),
            0x8C => self.sty(AddressingMode::Absolute),
            0xAA => self.tax(),
            0xA8 => self.tay(),
            0xBA => self.tsx(),
            0x8A => self.txa(),
            0x9A => self.txs(),
            0x98 => self.tya(),
            _ => {
                assert(self@ =~= spec_step(old(self)@));
            },
        }
        opcode
    }

    /// Run the machine: step until a halting opcode has been executed,
    /// or until `max_steps` steps have been taken.
    pub fn execute(&mut self, max_steps: usize)
        ensures
            final(self)@ == spec_run(old(self)@, max_steps as nat),
    {
        let mut remaining = max_steps;
        while remaining > 0
            invariant
                spec_run(old(self)@, max_steps as nat) == spec_run(self@, remaining as nat),
            decreases remaining,
        {
            let ghost pre = self@;
            let opcode = self.step();
            remaining = remaining - 1;
            if opcode == 0 {
                return ;
            }
            let legal = match crate::instruction::byte_to_opcode(opcode) {
                Ok(_) => true,
                Err(_) => false,
            };
            if !legal {
                return ;
            }
        }
    }
}

impl crate::debugger::CpuDebugger for Cpu {
    fn step(&mut self) -> u8 {
        self.step()
    }
}

/// Pushing a whole sequence of bytes, first element first.
pub open spec fn spec_push_all(s: CpuView, vals: Seq<u8>) -> CpuView
    decreases vals.len(),
{
    if vals.len() == 0 {
        s
    } else {
        spec_push_all(spec_push8(s, vals[0]), vals.drop_first())
    }
}

/// Popping `n` bytes, collected in pop order.
pub open spec fn spec_pop_n(s: CpuView, n: nat) -> (CpuView, Seq<u8>)
    decreases n,
{
    if n == 0 {
        (s, Seq::empty())
    } else {
        let (s1, v) = spec_pop8(s);
        let (s2, rest) = spec_pop_n(s1, (n - 1) as nat);
        (s2, seq![v] + rest)
    }
}

/// Folding into eight bits commutes with addition.
proof fn lemma_w8_add(x: int, y: int)
    ensures
        w8(w8(x) as int + y) == w8(x + y),
{
    assert(((x % 256) + y) % 256 == (x + y) % 256) by (nonlinear_arith);
}

/// Popping reads memory without changing it; the stack pointer climbs
/// by the number of pops and every other register stays.
proof fn lemma_pop_n_state(s: CpuView, n: nat)
    ensures
        ({
            let (s2, out) = spec_pop_n(s, n);
            s2.a == s.a && s2.x == s.x && s2.y == s.y && s2.p == s.p && s2.pc == s.pc && s2.mem
                == s.mem && s2.sp == w8(s.sp + n) && out.len() == n
        }),
    decreases n,
{
    if n > 0 {
        let (s1, _) = spec_pop8(s);
        lemma_pop_n_state(s1, (n - 1) as nat);
        lemma_w8_add(s.sp + 1, n - 1);
    }
}

/// The values `n` pops return depend only on the `n` stack cells above
/// the stack pointer.
proof fn lemma_pop_n_frame(t1: CpuView, t2: CpuView, n: nat)
    requires
        n <= 256,
        t1.sp == t2.sp,
        forall|j: int|
            1 <= j <= n ==> t1.mem[STACK_BASE + #[trigger] w8(t1.sp + j) as int] == t2.mem[
                STACK_BASE + w8(t2.sp + j) as int
            ],
    ensures
        spec_pop_n(t1, n).1 == spec_pop_n(t2, n).1,
    decreases n,
{
    if n > 0 {
        let (u1, v1) = spec_pop8(t1);
        let (u2, v2) = spec_pop8(t2);
        assert(v1 == v2) by {
            assert(t1.mem[STACK_BASE + w8(t1.sp + 1) as int] == t2.mem[STACK_BASE + w8(
                t2.sp + 1,
            ) as int]);
        }
        assert forall|j: int| 1 <= j <= n - 1 implies u1.mem[STACK_BASE + #[trigger] w8(
            u1.sp + j,
        ) as int] == u2.mem[STACK_BASE + w8(u2.sp + j) as int] by {
            lemma_w8_add(t1.sp + 1, j);
            assert(t1.mem[STACK_BASE + w8(t1.sp + (j + 1)) as int] == t2.mem[STACK_BASE + w8(
                t2.sp + (j + 1),
            ) as int]);
        }
        lemma_pop_n_frame(u1, u2, (n - 1) as nat);
    }
}

/// Pushing a sequence is pushing all but the last byte, then the last.
proof fn lemma_push_all_snoc(s: CpuView, vals: Seq<u8>)
    requires
        vals.len() > 0,
    ensures
        spec_push_all(s, vals) == spec_push8(spec_push_all(s, vals.drop_last()), vals.last()),
    decreases vals.len(),
{
    reveal_with_fuel(spec_push_all, 3);
    if vals.len() == 1 {
        assert(vals.drop_last() =~= Seq::<u8>::empty());
        assert(vals.drop_first() =~= Seq::<u8>::empty());
        assert(vals.last() == vals[0]);
        assert(spec_push_all(s, vals) == spec_push_all(spec_push8(s, vals[0]), vals.drop_first()));
        assert(spec_push_all(spec_push8(s, vals[0]), vals.drop_first()) == spec_push8(s, vals[0]));
        assert(spec_push_all(s, vals.drop_last()) == s);
    } else {
        let inner = vals.drop_first();
        lemma_push_all_snoc(spec_push8(s, vals[0]), inner);
        assert(inner.drop_last() =~= vals.drop_last().drop_first());
        assert(inner.last() == vals.last());
        assert(vals.drop_last()[0] == vals[0]);
        assert(spec_push_all(s, vals) == spec_push_all(spec_push8(s, vals[0]), inner));
        assert(spec_push_all(s, vals.drop_last()) == spec_push_all(
            spec_push8(s, vals.drop_last()[0]),
            vals.drop_last().drop_first(),
        ));
        assert(spec_push_all(s, vals.drop_last()) == spec_push_all(
            spec_push8(s, vals[0]),
            inner.drop_last(),
        ));
        assert(spec_push_all(spec_push8(s, vals[0]), inner) == spec_push8(
            spec_push_all(spec_push8(s, vals[0]), inner.drop_last()),
            inner.last(),
        ));
        assert(spec_push_all(s, vals) == spec_push8(
            spec_push_all(s, vals.drop_last()),
            vals.last(),
        ));
    }
}

/// Pushing moves the stack pointer down by the number of bytes and
/// leaves every other register in place.
proof fn lemma_push_all_state(s: CpuView, vals: Seq<u8>)
    requires
        s.mem.len() == MEMORY_SIZE,
    ensures
        ({
            let s2 = spec_push_all(s, vals);
            s2.a == s.a && s2.x == s.x && s2.y == s.y && s2.p == s.p && s2.pc == s.pc && s2.sp
                == w8(s.sp - vals.len()) && s2.mem.len() == s.mem.len()
        }),
    decreases vals.len(),
{
    if vals.len() > 0 {
        let s1 = spec_push8(s, vals[0]);
        assert(s1.mem.len() == MEMORY_SIZE);
        assert(spec_push_all(s, vals) == spec_push_all(s1, vals.drop_first()));
        lemma_push_all_state(s1, vals.drop_first());
        assert(s1.sp == w8(s.sp as int - 1));
        lemma_w8_add(s.sp as int - 1, -(vals.len() as int - 1));
        assert(w8(s1.sp as int - (vals.len() - 1)) == w8(s.sp - vals.len()));
    }
}

/// Stack symmetry: `n` pushes followed by `n` pops return the pushed
/// bytes in last-in-first-out order and restore the stack pointer and
/// every register; only the stack cells have changed. The bound of 256
/// is the stack page itself: a 257th push would overwrite the first.
pub proof fn lemma_stack_symmetry(s: CpuView, vals: Seq<u8>)
    requires
        vals.len() <= 256,
        s.mem.len() == MEMORY_SIZE,
    ensures
        ({
            let s2 = spec_push_all(s, vals);
            let (s3, out) = spec_pop_n(s2, vals.len() as nat);
            out == vals.reverse() && s3.sp == s.sp && s3.a == s.a && s3.x == s.x && s3.y == s.y
                && s3.p == s.p && s3.pc == s.pc
        }),
    decreases vals.len(),
{
    let n = vals.len() as nat;
    let s2 = spec_push_all(s, vals);
    lemma_push_all_state(s, vals);
    lemma_pop_n_state(s2, n);
    assert(s2.sp == w8(s.sp - n));
    lemma_w8_add(s.sp - n, n as int);
    if vals.len() > 0 {
        let butlast = vals.drop_last();
        let v = vals.last();
        let t = spec_push_all(s, butlast);
        lemma_push_all_snoc(s, vals);
        assert(s2 == spec_push8(t, v));
        lemma_push_all_state(s, butlast);
        let (u1, v1) = spec_pop_8_helper(t, v);
        lemma_stack_symmetry(s, butlast);
        assert forall|j: int| 1 <= j <= n - 1 implies u1.mem[STACK_BASE + #[trigger] w8(
            u1.sp + j,
        ) as int] == t.mem[STACK_BASE + w8(t.sp + j) as int] by {
            assert(w8(t.sp + j) != t.sp) by {
                if t.sp + j < 256 {
                } else {
                    assert(w8(t.sp + j) == t.sp + j - 256);
                }
            }
            assert(u1.mem[STACK_BASE + w8(t.sp + j) as int] == t.mem.update(
                STACK_BASE + t.sp as int,
                v,
            )[STACK_BASE + w8(t.sp + j) as int]);
        }
        lemma_pop_n_frame(u1, t, (n - 1) as nat);
        lemma_pop_n_state(u1, (n - 1) as nat);
        lemma_pop_n_state(t, (n - 1) as nat);
        assert(spec_pop_n(s2, n).1 =~= seq![v] + spec_pop_n(u1, (n - 1) as nat).1);
        assert(seq![v] + vals.drop_last().reverse() =~= vals.reverse());
    }
}

/// Popping right after a push returns the pushed byte, with the stack
/// pointer back where it was.
proof fn spec_pop_8_helper(t: CpuView, v: u8) -> (r: (CpuView, u8))
    requires
        t.mem.len() == MEMORY_SIZE,
    ensures
        r == spec_pop8(spec_push8(t, v)),
        r.1 == v,
        r.0.sp == t.sp,
        r.0.a == t.a && r.0.x == t.x && r.0.y == t.y && r.0.p == t.p && r.0.pc == t.pc,
        r.0.mem == t.mem.update(STACK_BASE + t.sp as int, v),
        spec_pop_n(spec_push8(t, v), 1) == (r.0, seq![v]),
    decreases 0int,
{
    reveal_with_fuel(spec_pop_n, 3);
    lemma_w8_add(t.sp - 1, 1);
    assert(w8(w8(t.sp as int - 1) as int + 1) == t.sp) by {
        assert(w8(t.sp as int) == t.sp);
    }
    let pushed = spec_push8(t, v);
    assert(pushed.mem[STACK_BASE + t.sp as int] == v);
    let r = spec_pop8(pushed);
    assert(r.1 == v);
    assert(spec_pop_n(pushed, 1).0 == spec_pop_n(r.0, 0).0);
    assert(spec_pop_n(r.0, 0).0 == r.0);
    assert(spec_pop_n(pushed, 1).1 =~= seq![r.1]);
    r
}

} // verus!
