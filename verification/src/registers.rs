//! The register file: the 8-bit A, X, Y, P and SP registers, the 16-bit
//! program counter, and bit-level accessors for the seven status flags
//! packed into P (`NV-BDIZC`: bit 7 is N, 6 is V, 4 is B, 3 is D, 2 is I,
//! 1 is Z, 0 is C).

use vstd::prelude::*;
use crate::text::push_char;
use crate::text::push_hex16;
use crate::text::push_hex8;
use crate::text::push_str_chars;
use crate::text::spec_hex16;
use crate::text::spec_hex8;

verus! {

pub const FLAG_NEGATIVE: u8 = 0x80;
pub const FLAG_OVERFLOW: u8 = 0x40;
pub const FLAG_BREAK: u8 = 0x10;
pub const FLAG_DECIMAL: u8 = 0x08;
pub const FLAG_INTERRUPT_DISABLE: u8 = 0x04;
pub const FLAG_ZERO: u8 = 0x02;
pub const FLAG_CARRY: u8 = 0x01;

/// What P becomes when one flag bit is forced to `value`.
pub open spec fn spec_set_flag(p: u8, mask: u8, value: bool) -> u8 {
    if value {
        p | mask
    } else {
        p & !mask
    }
}

/// Whether one flag bit is set in P.
pub open spec fn spec_get_flag(p: u8, mask: u8) -> bool {
    p & mask != 0
}

/// What P becomes after the Z and N flags are refreshed from `value`,
/// as every load, transfer, arithmetic and logic instruction does.
pub open spec fn spec_set_zn(p: u8, value: u8) -> u8 {
    spec_set_flag(spec_set_flag(p, FLAG_ZERO, value == 0), FLAG_NEGATIVE, value & 0x80 != 0)
}

#[derive(Debug)]
pub struct Registers {
    pub a: u8,
    pub x: u8,
    pub y: u8,
    pub p: u8,
    pub sp: u8,
    pub pc: u16,
}

impl Default for Registers {
    /// All registers and flags clear.
    fn default() -> (r: Registers)
        ensures
            r.a == 0 && r.x == 0 && r.y == 0 && r.p == 0 && r.sp == 0 && r.pc == 0,
    {
        Registers { a: 0, x: 0, y: 0, p: 0, sp: 0, pc: 0 }
    }
}

impl Registers {
    pub fn set_flag_negative(&mut self, value: bool)
        ensures
            final(self).p == spec_set_flag(old(self).p, FLAG_NEGATIVE, value),
            *final(self) == (Registers { p: final(self).p, ..*old(self) }),
    {
        if value {
            self.p |= FLAG_NEGATIVE;
        } else {
            self.p &= !FLAG_NEGATIVE;
        }
    }

    pub fn get_flag_negative(&self) -> (r: bool)
        ensures
            r == spec_get_flag(self.p, FLAG_NEGATIVE),
    {
        self.p & FLAG_NEGATIVE != 0
    }

    pub fn set_flag_overflow(&mut self, value: bool)
        ensures
            final(self).p == spec_set_flag(old(self).p, FLAG_OVERFLOW, value),
            *final(self) == (Registers { p: final(self).p, ..*old(self) }),
    {
        if value {
            self.p |= FLAG_OVERFLOW;
        } else {
            self.p &= !FLAG_OVERFLOW;
        }
    }

    pub fn get_flag_overflow(&self) -> (r: bool)
        ensures
            r == spec_get_flag(self.p, FLAG_OVERFLOW),
    {
        self.p & FLAG_OVERFLOW != 0
    }

    pub fn set_flag_break(&mut self, value: bool)
        ensures
            final(self).p == spec_set_flag(old(self).p, FLAG_BREAK, value),
            *final(self) == (Registers { p: final(self).p, ..*old(self) }),
    {
        if value {
            self.p |= FLAG_BREAK;
        } else {
            self.p &= !FLAG_BREAK;
        }
    }

    pub fn get_flag_break(&self) -> (r: bool)
        ensures
            r == spec_get_flag(self.p, FLAG_BREAK),
    {
        self.p & FLAG_BREAK != 0
    }

    pub fn set_flag_decimal(&mut self, value: bool)
        ensures
            final(self).p == spec_set_flag(old(self).p, FLAG_DECIMAL, value),
            *final(self) == (Registers { p: final(self).p, ..*old(self) }),
    {
        if value {
            self.p |= FLAG_DECIMAL;
        } else {
            self.p &= !FLAG_DECIMAL;
        }
    }

    pub fn get_flag_decimal(&self) -> (r: bool)
        ensures
            r == spec_get_flag(self.p, FLAG_DECIMAL),
    {
        self.p & FLAG_DECIMAL != 0
    }

    pub fn set_flag_interrupt_disable(&mut self, value: bool)
        ensures
            final(self).p == spec_set_flag(old(self).p, FLAG_INTERRUPT_DISABLE, value),
            *final(self) == (Registers { p: final(self).p, ..*old(self) }),
    {
        if value {
            self.p |= FLAG_INTERRUPT_DISABLE;
        } else {
            self.p &= !FLAG_INTERRUPT_DISABLE;
        }
    }

    pub fn get_flag_interrupt_disable(&self) -> (r: bool)
        ensures
            r == spec_get_flag(self.p, FLAG_INTERRUPT_DISABLE),
    {
        self.p & FLAG_INTERRUPT_DISABLE != 0
    }

    pub fn set_flag_zero(&mut self, value: bool)
        ensures
            final(self).p == spec_set_flag(old(self).p, FLAG_ZERO, value),
            *final(self) == (Registers { p: final(self).p, ..*old(self) }),
    {
        if value {
            self.p |= FLAG_ZERO;
        } else {
            self.p &= !FLAG_ZERO;
        }
    }

    pub fn get_flag_zero(&self) -> (r: bool)
        ensures
            r == spec_get_flag(self.p, FLAG_ZERO),
    {
        self.p & FLAG_ZERO != 0
    }

    pub fn set_flag_carry(&mut self, value: bool)
        ensures
            final(self).p == spec_set_flag(old(self).p, FLAG_CARRY, value),
            *final(self) == (Registers { p: final(self).p, ..*old(self) }),
    {
        if value {
            self.p |= FLAG_CARRY;
        } else {
            self.p &= !FLAG_CARRY;
        }
    }

    pub fn get_flag_carry(&self) -> (r: bool)
        ensures
            r == spec_get_flag(self.p, FLAG_CARRY),
    {
        self.p & FLAG_CARRY != 0
    }

    /// Refresh Z and N from `value`.
    pub fn set_zero_negative_flags(&mut self, value: u8)
        ensures
            final(self).p == spec_set_zn(old(self).p, value),
            *final(self) == (Registers { p: final(self).p, ..*old(self) }),
    {
        self.set_flag_zero(value == 0);
        self.set_flag_negative(value & 0x80 != 0);
    }

    /// The character a flag renders to: `1` set, `0` clear.
    pub open spec fn spec_flag_char(p: u8, mask: u8) -> char {
        if spec_get_flag(p, mask) {
            '1'
        } else {
            '0'
        }
    }

    /// The status text a front-end shows: the registers in hexadecimal,
    /// then the flag bits in `NV-B DIZC` order.
    pub open spec fn spec_status(self) -> Seq<char> {
        "Registers: A="@ + spec_hex8(self.a) + " X="@ + spec_hex8(self.x) + " Y="@ + spec_hex8(
            self.y,
        ) + " SP="@ + spec_hex8(self.sp) + " PC="@ + spec_hex16(self.pc) + "\n"@
            + "Flag Registers (NV-B DIZC): "@ + seq![
            Registers::spec_flag_char(self.p, FLAG_NEGATIVE),
            ' ',
            Registers::spec_flag_char(self.p, FLAG_OVERFLOW),
            ' ',
            '-',
            ' ',
            Registers::spec_flag_char(self.p, FLAG_BREAK),
            ' ',
            ' ',
            Registers::spec_flag_char(self.p, FLAG_DECIMAL),
            ' ',
            Registers::spec_flag_char(self.p, FLAG_INTERRUPT_DISABLE),
            ' ',
            Registers::spec_flag_char(self.p, FLAG_ZERO),
            ' ',
            Registers::spec_flag_char(self.p, FLAG_CARRY),
        ]
    }

    /// Render the status text.
    #[verifier::rlimit(60)]
    #[verifier::spinoff_prover]
    pub fn status_text(&self) -> (r: String)
        ensures
            r@ == self.spec_status(),
    {
        let mut out = String::new();
        push_str_chars(&mut out, "Registers: A=");
        push_hex8(&mut out, self.a);
        push_str_chars(&mut out, " X=");
        push_hex8(&mut out, self.x);
        push_str_chars(&mut out, " Y=");
        push_hex8(&mut out, self.y);
        push_str_chars(&mut out, " SP=");
        push_hex8(&mut out, self.sp);
        push_str_chars(&mut out, " PC=");
        push_hex16(&mut out, self.pc);
        push_str_chars(&mut out, "\n");
        push_str_chars(&mut out, "Flag Registers (NV-B DIZC): ");
        push_char(&mut out, self.flag_char(FLAG_NEGATIVE));
        push_char(&mut out, ' ');
        push_char(&mut out, self.flag_char(FLAG_OVERFLOW));
        push_char(&mut out, ' ');
        push_char(&mut out, '-');
        push_char(&mut out, ' ');
        push_char(&mut out, self.flag_char(FLAG_BREAK));
        push_char(&mut out, ' ');
        push_char(&mut out, ' ');
        push_char(&mut out, self.flag_char(FLAG_DECIMAL));
        push_char(&mut out, ' ');
        push_char(&mut out, self.flag_char(FLAG_INTERRUPT_DISABLE));
        push_char(&mut out, ' ');
        push_char(&mut out, self.flag_char(FLAG_ZERO));
        push_char(&mut out, ' ');
        push_char(&mut out, self.flag_char(FLAG_CARRY));
        assert(out@ =~= self.spec_status());
        out
    }

    fn flag_char(&self, mask: u8) -> (r: char)
        ensures
            r == Registers::spec_flag_char(self.p, mask),
    {
        if self.p & mask != 0 {
            '1'
        } else {
            '0'
        }
    }
}


/// Setting one flag reads back as the value written, and reads of any
/// other flag bit are unchanged. Together with `lemma_zn_flags` this is
/// why every instruction's flag effects are exactly the listed ones:
/// each instruction's state function builds the new P out of
/// `spec_set_flag` and `spec_set_zn` applications for the flags it
/// names, and no other bit moves.
pub proof fn lemma_set_flag_frame(p: u8, mask: u8, other: u8, value: bool)
    requires
        mask & other == 0,
        mask != 0,
    ensures
        spec_get_flag(spec_set_flag(p, mask, value), mask) == value,
        spec_get_flag(spec_set_flag(p, mask, value), other) == spec_get_flag(p, other),
{
    assert((if value {
        p | mask
    } else {
        p & !mask
    }) & mask == (if value {
        mask
    } else {
        0
    })) by (bit_vector)
        requires
            mask != 0,
    ;
    assert((if value {
        p | mask
    } else {
        p & !mask
    }) & other == p & other) by (bit_vector)
        requires
            mask & other == 0,
    ;
}

/// Flag completeness for Z and N: after `spec_set_zn`, the zero flag
/// says whether the written value is zero, the negative flag mirrors
/// its top bit, and the carry, overflow, break, decimal and
/// interrupt-disable flags read as before.
pub proof fn lemma_zn_flags(p: u8, v: u8)
    ensures
        spec_get_flag(spec_set_zn(p, v), FLAG_ZERO) == (v == 0),
        spec_get_flag(spec_set_zn(p, v), FLAG_NEGATIVE) == (v & 0x80 != 0),
        spec_get_flag(spec_set_zn(p, v), FLAG_CARRY) == spec_get_flag(p, FLAG_CARRY),
        spec_get_flag(spec_set_zn(p, v), FLAG_OVERFLOW) == spec_get_flag(p, FLAG_OVERFLOW),
        spec_get_flag(spec_set_zn(p, v), FLAG_BREAK) == spec_get_flag(p, FLAG_BREAK),
        spec_get_flag(spec_set_zn(p, v), FLAG_DECIMAL) == spec_get_flag(p, FLAG_DECIMAL),
        spec_get_flag(spec_set_zn(p, v), FLAG_INTERRUPT_DISABLE) == spec_get_flag(
            p,
            FLAG_INTERRUPT_DISABLE,
        ),
{
    assert(FLAG_ZERO & FLAG_CARRY == 0 && FLAG_ZERO & FLAG_OVERFLOW == 0 && FLAG_ZERO & FLAG_BREAK
        == 0 && FLAG_ZERO & FLAG_DECIMAL == 0 && FLAG_ZERO & FLAG_INTERRUPT_DISABLE == 0
        && FLAG_ZERO & FLAG_NEGATIVE == 0 && FLAG_NEGATIVE & FLAG_ZERO == 0 && FLAG_NEGATIVE
        & FLAG_CARRY == 0 && FLAG_NEGATIVE & FLAG_OVERFLOW == 0 && FLAG_NEGATIVE & FLAG_BREAK == 0
        && FLAG_NEGATIVE & FLAG_DECIMAL == 0 && FLAG_NEGATIVE & FLAG_INTERRUPT_DISABLE == 0)
        by (bit_vector);
    let p1 = spec_set_flag(p, FLAG_ZERO, v == 0);
    lemma_set_flag_frame(p, FLAG_ZERO, FLAG_CARRY, v == 0);
    lemma_set_flag_frame(p, FLAG_ZERO, FLAG_OVERFLOW, v == 0);
    lemma_set_flag_frame(p, FLAG_ZERO, FLAG_BREAK, v == 0);
    lemma_set_flag_frame(p, FLAG_ZERO, FLAG_DECIMAL, v == 0);
    lemma_set_flag_frame(p, FLAG_ZERO, FLAG_INTERRUPT_DISABLE, v == 0);
    lemma_set_flag_frame(p, FLAG_ZERO, FLAG_NEGATIVE, v == 0);
    lemma_set_flag_frame(p1, FLAG_NEGATIVE, FLAG_ZERO, v & 0x80 != 0);
    lemma_set_flag_frame(p1, FLAG_NEGATIVE, FLAG_CARRY, v & 0x80 != 0);
    lemma_set_flag_frame(p1, FLAG_NEGATIVE, FLAG_OVERFLOW, v & 0x80 != 0);
    lemma_set_flag_frame(p1, FLAG_NEGATIVE, FLAG_BREAK, v & 0x80 != 0);
    lemma_set_flag_frame(p1, FLAG_NEGATIVE, FLAG_DECIMAL, v & 0x80 != 0);
    lemma_set_flag_frame(p1, FLAG_NEGATIVE, FLAG_INTERRUPT_DISABLE, v & 0x80 != 0);
}

} // verus!
