//! The lexer: position-tracked tokenization of assembly source text.
//!
//! `spec_scan` is the mathematical scanner: given the characters and a
//! cursor it names the next token and the cursor after it, skipping
//! whitespace and `;` comments. `Lexer::next_token` is proved to produce
//! exactly that token.

use vstd::prelude::*;
use crate::ast::Position;
use crate::error::AssemblerError;
use crate::error::AssemblerErrorKind;
use crate::error::AssemblerResult;
use crate::text::spec_digit_value;
use crate::text::spec_hex_digit_value;
use crate::text::spec_is_digit;
use crate::text::spec_is_hex_digit;
use crate::text::spec_is_letter;
use crate::text::spec_is_space;
use crate::text::is_digit_char;
use crate::text::is_hex_digit_char;
use crate::text::is_letter_char;
use crate::text::is_space_char;
use crate::text::push_char;
use crate::text::to_char_vec;
use crate::token::Token;
use crate::token::TokenKind;
use crate::token::TokenKindV;

verus! {

/// The character at a cursor, the end of input reading as NUL.
pub open spec fn spec_char_at(s: Seq<char>, i: int) -> char {
    if 0 <= i < s.len() {
        s[i]
    } else {
        '\0'
    }
}

/// A character that may continue an identifier.
pub open spec fn spec_is_ident_char(c: char) -> bool {
    spec_is_letter(c) || spec_is_digit(c) || c == '_'
}

/// The cursor after the whitespace run starting at `i`; a newline is not
/// skipped, it is a token of its own.
pub open spec fn spec_ws_end(s: Seq<char>, i: int) -> int
    decreases s.len() - i,
    when 0 <= i <= s.len()
{
    if i < s.len() && spec_is_space(s[i]) && s[i] != '\n' {
        spec_ws_end(s, i + 1)
    } else {
        i
    }
}

/// The cursor after the hexadecimal-digit run starting at `i`.
pub open spec fn spec_hex_end(s: Seq<char>, i: int) -> int
    decreases s.len() - i,
    when 0 <= i <= s.len()
{
    if i < s.len() && spec_is_hex_digit(s[i]) {
        spec_hex_end(s, i + 1)
    } else {
        i
    }
}

/// The cursor after the identifier run starting at `i`.
pub open spec fn spec_ident_end(s: Seq<char>, i: int) -> int
    decreases s.len() - i,
    when 0 <= i <= s.len()
{
    if i < s.len() && spec_is_ident_char(s[i]) {
        spec_ident_end(s, i + 1)
    } else {
        i
    }
}

/// The cursor after the decimal-digit run starting at `i`.
pub open spec fn spec_digit_end(s: Seq<char>, i: int) -> int
    decreases s.len() - i,
    when 0 <= i <= s.len()
{
    if i < s.len() && spec_is_digit(s[i]) {
        spec_digit_end(s, i + 1)
    } else {
        i
    }
}

/// The value of a decimal numeral.
pub open spec fn spec_digits_value(s: Seq<char>) -> int
    decreases s.len(),
{
    if s.len() == 0 {
        0
    } else {
        spec_digits_value(s.drop_last()) * 10 + spec_digit_value(s.last())
    }
}

/// The value of a hexadecimal numeral.
pub open spec fn spec_hex_value(s: Seq<char>) -> int
    decreases s.len(),
{
    if s.len() == 0 {
        0
    } else {
        spec_hex_value(s.drop_last()) * 16 + spec_hex_digit_value(s.last())
    }
}

/// Sixteen to the `n`th power.
pub open spec fn pow16(n: nat) -> int
    decreases n,
{
    if n == 0 {
        1
    } else {
        16 * pow16((n - 1) as nat)
    }
}

/// A decimal numeral's value is never negative.
pub proof fn lemma_digits_value_nonneg(s: Seq<char>)
    requires
        forall|j: int| 0 <= j < s.len() ==> spec_is_digit(s[j]),
    ensures
        spec_digits_value(s) >= 0,
    decreases s.len(),
{
    if s.len() > 0 {
        lemma_digits_value_nonneg(s.drop_last());
    }
}

/// A hexadecimal numeral of `n` digits is below sixteen to the `n`th.
pub proof fn lemma_hex_value_bound(s: Seq<char>)
    requires
        forall|j: int| 0 <= j < s.len() ==> spec_is_hex_digit(s[j]),
    ensures
        0 <= spec_hex_value(s) < pow16(s.len() as nat),
    decreases s.len(),
{
    if s.len() > 0 {
        lemma_hex_value_bound(s.drop_last());
    }
}

/// What one scan step yields: a token and the cursor after it, or a
/// lexing error.
pub enum Scan {
    Tok(TokenKindV, int),
    Fail(AssemblerErrorKind, int),
}

/// The next token at cursor `i`: whitespace is skipped, a `;` comment
/// runs to the line's end, and the remaining lead character decides the
/// token as the surface syntax prescribes.
#[verifier::opaque]
pub open spec fn spec_scan(s: Seq<char>, i: int) -> Scan
    decreases s.len() - i, 0int,
    when 0 <= i <= s.len()
{
    if i >= s.len() {
        Scan::Tok(TokenKindV::EOF, i)
    } else if spec_is_space(s[i]) && s[i] != '\n' {
        spec_scan(s, i + 1)
    } else {
        let c = s[i];
        if c == '\n' {
            Scan::Tok(TokenKindV::Newline, i + 1)
        } else if c == '(' {
            Scan::Tok(TokenKindV::LParen, i + 1)
        } else if c == ')' {
            Scan::Tok(TokenKindV::RParen, i + 1)
        } else if c == ',' {
            Scan::Tok(TokenKindV::Comma, i + 1)
        } else if c == ':' {
            Scan::Tok(TokenKindV::Colon, i + 1)
        } else if c == 'x' || c == 'X' {
            Scan::Tok(TokenKindV::X, i + 1)
        } else if c == 'y' || c == 'Y' {
            Scan::Tok(TokenKindV::Y, i + 1)
        } else if c == '#' {
            Scan::Tok(TokenKindV::Hash, i + 1)
        } else if c == ';' {
            spec_scan_comment(s, i + 1)
        } else if c == '\0' {
            Scan::Tok(TokenKindV::EOF, i)
        } else if c == '$' {
            let e = spec_hex_end(s, i + 1);
            let n = e - (i + 1);
            if 1 <= n && n <= 2 {
                Scan::Tok(
                    TokenKindV::Hexadecimal8Bit(spec_hex_value(s.subrange(i + 1, e)) as u8),
                    e,
                )
            } else if 3 <= n && n <= 4 {
                Scan::Tok(
                    TokenKindV::Hexadecimal16Bit(spec_hex_value(s.subrange(i + 1, e)) as u16),
                    e,
                )
            } else {
                Scan::Fail(AssemblerErrorKind::IllegalCharacter(spec_char_at(s, e)), e)
            }
        } else if c == '0' && spec_char_at(s, i + 1) == 'x' {
            let e = spec_hex_end(s, i + 2);
            let n = e - (i + 2);
            if n == 2 {
                Scan::Tok(
                    TokenKindV::Hexadecimal8Bit(spec_hex_value(s.subrange(i + 2, e)) as u8),
                    e,
                )
            } else if n == 4 {
                Scan::Tok(
                    TokenKindV::Hexadecimal16Bit(spec_hex_value(s.subrange(i + 2, e)) as u16),
                    e,
                )
            } else {
                Scan::Fail(AssemblerErrorKind::IllegalCharacter(spec_char_at(s, e)), e)
            }
        } else if spec_is_letter(c) {
            let e = spec_ident_end(s, i);
            if s.subrange(i, e) == "define"@ {
                Scan::Tok(TokenKindV::Define, e)
            } else {
                Scan::Tok(TokenKindV::Identifier(s.subrange(i, e)), e)
            }
        } else if spec_is_digit(c) {
            let e = spec_digit_end(s, i);
            let v = spec_digits_value(s.subrange(i, e));
            if v > usize::MAX {
                Scan::Fail(AssemblerErrorKind::InvalidNumber, e)
            } else {
                Scan::Tok(TokenKindV::Decimal((v % 0x10000) as u16), e)
            }
        } else {
            Scan::Fail(AssemblerErrorKind::IllegalCharacter(c), i)
        }
    }
}

/// Scanning inside a comment: everything to the next newline or the end
/// of input is passed over.
#[verifier::opaque]
pub open spec fn spec_scan_comment(s: Seq<char>, i: int) -> Scan
    decreases s.len() - i, 1int,
    when 0 <= i <= s.len()
{
    if i < s.len() && s[i] != '\n' && s[i] != '\0' {
        spec_scan_comment(s, i + 1)
    } else {
        spec_scan(s, i)
    }
}

pub struct Lexer {
    pub input: Vec<char>,
    pub position: usize,
    pub read_position: usize,
    pub current_char: char,
    pub current_position: Position,
}

impl Lexer {
    /// The lexer's bookkeeping invariant: the cursor stays within the
    /// input, the read position trails it by one, and the current
    /// character images the cursor.
    pub open spec fn wf(&self) -> bool {
        &&& self.position <= self.input@.len()
        &&& self.read_position == if self.position < self.input@.len() {
            self.position + 1
        } else {
            self.position as int
        }
        &&& self.current_char == spec_char_at(self.input@, self.position as int)
    }

    /// The cursor `next_token` scans from.
    pub open spec fn cursor(&self) -> int {
        self.position as int
    }

    /// A lexer over the characters of `input`, primed on the first one.
    pub fn new(input: &str) -> (r: Lexer)
        ensures
            r.wf(),
            r.input@ == input@,
            r.cursor() == 0,
    {
        let chars = to_char_vec(input);
        let current_char = if chars.len() > 0 {
            chars[0]
        } else {
            '\0'
        };
        let read_position: usize = if chars.len() > 0 {
            1
        } else {
            0
        };
        Lexer {
            input: chars,
            position: 0,
            read_position,
            current_char,
            current_position: Position(1, 1),
        }
    }

    /// Advance to the next character.
    fn read_char(&mut self)
        requires
            old(self).wf(),
            old(self).current_char != '\0',
        ensures
            final(self).wf(),
            final(self).input == old(self).input,
            final(self).position == old(self).position + 1,
            final(self).current_position.0 == old(self).current_position.0,
    {
        // a NUL current character would mean the cursor is at the end
        assert(self.position < self.input@.len());
        let next = self.position + 1;
        self.position = next;
        if next < self.input.len() {
            self.current_char = self.input[next];
            self.read_position = next + 1;
        } else {
            self.current_char = '\0';
            self.read_position = next;
        }
        // the column only feeds diagnostics; it saturates rather than wrap
        if self.current_position.1 < usize::MAX {
            self.current_position.1 = self.current_position.1 + 1;
        }
    }

    /// The character after the current one.
    fn peek_char(&self) -> (r: char)
        ensures
            r == spec_char_at(self.input@, self.read_position as int),
    {
        if self.read_position >= self.input.len() {
            '\0'
        } else {
            self.input[self.read_position]
        }
    }

    /// Pass over whitespace, stopping at a newline (which counts the
    /// line and is left as the current character).
    fn skip_whitespace(&mut self)
        requires
            old(self).wf(),
        ensures
            final(self).wf(),
            final(self).input == old(self).input,
            final(self).cursor() == spec_ws_end(old(self).input@, old(self).cursor()),
            final(self).cursor() >= old(self).cursor(),
            spec_scan(final(self).input@, final(self).cursor()) == spec_scan(old(self).input@, old(self).cursor()),
            final(self).cursor() == final(self).input@.len() || !(spec_is_space(final(self).input@[final(self).cursor()])
                && final(self).input@[final(self).cursor()] != '\n'),
    {
        proof {
            reveal(spec_scan);
        }
        while is_space_char(self.current_char) && self.current_char != '\n'
            invariant
                self.wf(),
                self.input == old(self).input,
                self.cursor() >= old(self).cursor(),
                spec_ws_end(self.input@, self.cursor()) == spec_ws_end(
                    old(self).input@,
                    old(self).cursor(),
                ),
                spec_scan(self.input@, self.cursor()) == spec_scan(
                    old(self).input@,
                    old(self).cursor(),
                ),
            decreases self.input@.len() - self.cursor(),
        {
            proof {
                reveal(spec_scan);
            }
            self.read_char();
        }
        if self.current_char == '\n' {
            // the line count only feeds diagnostics; it saturates
            if self.current_position.0 < usize::MAX {
                self.current_position.0 = self.current_position.0 + 1;
            }
            self.current_position.1 = 0;
        }
    }

    /// Read an identifier run starting at the current character.
    fn read_identifier(&mut self) -> (r: String)
        requires
            old(self).wf(),
        ensures
            final(self).wf(),
            final(self).input == old(self).input,
            final(self).cursor() == spec_ident_end(old(self).input@, old(self).cursor()),
            final(self).cursor() >= old(self).cursor(),
            final(self).current_position.0 == old(self).current_position.0,
            r@ == old(self).input@.subrange(old(self).cursor(), final(self).cursor()),
    {
        let mut r = String::new();
        let ghost start = self.cursor();
        assert(start >= 0);
        while (is_letter_char(self.current_char) || is_digit_char(self.current_char)
            || self.current_char == '_') && self.current_char != '\0'
            invariant
                self.wf(),
                self.input == old(self).input,
                0 <= start <= self.cursor() <= self.input@.len(),
                spec_ident_end(self.input@, self.cursor()) == spec_ident_end(self.input@, start),
                self.current_position.0 == old(self).current_position.0,
                r@ =~= self.input@.subrange(start, self.cursor()),
            decreases self.input@.len() - self.cursor(),
        {
            assert(self.cursor() < self.input@.len());
            let ghost c = self.cursor();
            push_char(&mut r, self.current_char);
            self.read_char();
            assert(r@ =~= self.input@.subrange(start, c + 1));
        }
        assert(r@ =~= self.input@.subrange(start, self.cursor()));
        r
    }

    /// Read a comment: everything to the end of the line.
    fn read_comment(&mut self)
        requires
            old(self).wf(),
            old(self).current_char != '\0',
        ensures
            final(self).wf(),
            final(self).input == old(self).input,
            final(self).cursor() > old(self).cursor(),
            spec_scan(final(self).input@, final(self).cursor()) == spec_scan_comment(
                old(self).input@,
                old(self).cursor() + 1,
            ),
    {
        proof {
            reveal(spec_scan);
            reveal(spec_scan_comment);
        }
        self.read_char();
        while self.current_char != '\0' && self.current_char != '\n'
            invariant
                self.wf(),
                self.input == old(self).input,
                old(self).cursor() < self.cursor() <= self.input@.len(),
                spec_scan_comment(self.input@, self.cursor()) == spec_scan_comment(
                    old(self).input@,
                    old(self).cursor() + 1,
                ),
            decreases self.input@.len() - self.cursor(),
        {
            proof {
                reveal(spec_scan);
                reveal(spec_scan_comment);
            }
            self.read_char();
        }
        proof {
            reveal(spec_scan);
            reveal(spec_scan_comment);
        }
    }

    /// Read a decimal number run; a value beyond the machine's integer
    /// range is `InvalidNumber`.
    fn read_number(&mut self) -> (r: AssemblerResult<usize>)
        requires
            old(self).wf(),
        ensures
            final(self).wf(),
            final(self).input == old(self).input,
            final(self).cursor() == spec_digit_end(old(self).input@, old(self).cursor()),
            final(self).cursor() >= old(self).cursor(),
            final(self).current_position.0 == old(self).current_position.0,
            ({
                let v = spec_digits_value(
                    old(self).input@.subrange(old(self).cursor(), final(self).cursor()),
                );
                match r {
                    Ok(n) => v <= usize::MAX && n == v,
                    Err(e) => v > usize::MAX && e.kind == AssemblerErrorKind::InvalidNumber,
                }
            }),
    {
        let ghost start = self.cursor();
        let mut value: usize = 0;
        let mut overflow: bool = false;
        while is_digit_char(self.current_char)
            invariant
                self.wf(),
                self.input == old(self).input,
                0 <= start <= self.cursor() <= self.input@.len(),
                spec_digit_end(self.input@, self.cursor()) == spec_digit_end(self.input@, start),
                self.current_position.0 == old(self).current_position.0,
                forall|j: int| start <= j < self.cursor() ==> spec_is_digit(self.input@[j]),
                ({
                    let v = spec_digits_value(self.input@.subrange(start, self.cursor()));
                    if overflow {
                        v > usize::MAX
                    } else {
                        v == value
                    }
                }),
            decreases self.input@.len() - self.cursor(),
        {
            assert(self.cursor() < self.input@.len());
            let d = crate::text::digit_value(self.current_char);
            let ghost pre = self.input@.subrange(start, self.cursor());
            let ghost post = self.input@.subrange(start, self.cursor() + 1);
            assert(post.len() == pre.len() + 1);
            assert(forall|k: int| 0 <= k < pre.len() ==> post[k] == pre[k]);
            assert(post.drop_last() =~= pre);
            assert(post.last() == self.input@[self.cursor()]);
            assert(spec_digits_value(post) == spec_digits_value(pre) * 10 + spec_digit_value(
                self.input@[self.cursor()],
            ));
            proof {
                assert(forall|j: int| 0 <= j < pre.len() ==> spec_is_digit(pre[j]));
                lemma_digits_value_nonneg(pre);
            }
            if !overflow {
                match value.checked_mul(10) {
                    Some(m) => {
                        match m.checked_add(d as usize) {
                            Some(n) => {
                                value = n;
                            },
                            None => {
                                overflow = true;
                            },
                        }
                    },
                    None => {
                        overflow = true;
                    },
                }
            }
            self.read_char();
        }
        if overflow {
            Err(AssemblerError::new(AssemblerErrorKind::InvalidNumber, self.current_position))
        } else {
            Ok(value)
        }
    }

    /// Read a hexadecimal digit run, returning its value (meaningful for
    /// runs of at most four digits) and its length.
    fn read_hex_run(&mut self) -> (r: (u32, usize))
        requires
            old(self).wf(),
        ensures
            final(self).wf(),
            final(self).input == old(self).input,
            final(self).cursor() == spec_hex_end(old(self).input@, old(self).cursor()),
            final(self).cursor() >= old(self).cursor(),
            final(self).current_position.0 == old(self).current_position.0,
            r.1 == final(self).cursor() - old(self).cursor(),
            r.1 <= 4 ==> r.0 == spec_hex_value(
                old(self).input@.subrange(old(self).cursor(), final(self).cursor()),
            ) && r.0 < pow16(r.1 as nat),
    {
        let start_pos = self.position;
        let ghost start = self.cursor();
        let mut value: u32 = 0;
        while is_hex_digit_char(self.current_char)
            invariant
                self.wf(),
                self.input == old(self).input,
                start == start_pos,
                start <= self.cursor() <= self.input@.len(),
                spec_hex_end(self.input@, self.cursor()) == spec_hex_end(self.input@, start),
                self.current_position.0 == old(self).current_position.0,
                forall|j: int| start <= j < self.cursor() ==> spec_is_hex_digit(self.input@[j]),
                self.cursor() - start <= 4 ==> value == spec_hex_value(
                    self.input@.subrange(start, self.cursor()),
                ) && value < pow16((self.cursor() - start) as nat),
            decreases self.input@.len() - self.cursor(),
        {
            assert(self.cursor() < self.input@.len());
            let d = crate::text::hex_digit_value(self.current_char);
            let ghost pre = self.input@.subrange(start, self.cursor());
            let ghost post = self.input@.subrange(start, self.cursor() + 1);
            assert(post.drop_last() =~= pre);
            assert(post.last() == self.input@[self.cursor()]);
            assert(spec_hex_value(post) == spec_hex_value(pre) * 16 + spec_hex_digit_value(
                self.input@[self.cursor()],
            ));
            if self.position - start_pos < 4 {
                proof {
                    reveal_with_fuel(pow16, 5);
                }
                assert(value < 4096);
                value = value * 16 + d as u32;
            }
            self.read_char();
        }
        let count = self.position - start_pos;
        (value, count)
    }

    /// The next token of the input, or the lexing error the scanner
    /// names at this cursor. The token's position is the (line, column)
    /// pair the cursor has reached.
    pub fn next_token(&mut self) -> (r: AssemblerResult<Token>)
        requires
            old(self).wf(),
        ensures
            final(self).wf(),
            final(self).input == old(self).input,
            final(self).cursor() >= old(self).cursor(),
            match spec_scan(old(self).input@, old(self).cursor()) {
                Scan::Tok(kv, j) => r matches Ok(t) && t.kind@ == kv && final(self).cursor() == j,
                Scan::Fail(k, j) => r matches Err(e) && e.kind == k,
            },
        decreases self.input@.len() - self.cursor(),
    {
        proof {
            reveal(spec_scan);
            reveal(spec_scan_comment);
        }
        self.skip_whitespace();
        let position = self.current_position;

        if self.current_char == '\0' {
            return Ok(Token::new(TokenKind::EOF, position));
        }
        let c = self.current_char;
        if c == '\n' {
            self.read_char();
            return Ok(Token::new(TokenKind::Newline, position));
        }
        if c == '(' {
            self.read_char();
            return Ok(Token::new(TokenKind::LParen, position));
        }
        if c == ')' {
            self.read_char();
            return Ok(Token::new(TokenKind::RParen, position));
        }
        if c == ',' {
            self.read_char();
            return Ok(Token::new(TokenKind::Comma, position));
        }
        if c == ':' {
            self.read_char();
            return Ok(Token::new(TokenKind::Colon, position));
        }
        if c == 'x' || c == 'X' {
            self.read_char();
            return Ok(Token::new(TokenKind::X, position));
        }
        if c == 'y' || c == 'Y' {
            self.read_char();
            return Ok(Token::new(TokenKind::Y, position));
        }
        if c == '#' {
            self.read_char();
            return Ok(Token::new(TokenKind::Hash, position));
        }
        if c == ';' {
            self.read_comment();
            return self.next_token();
        }
        if c == '$' {
            self.read_char();
            let (value, count) = self.read_hex_run();
            if count == 1 || count == 2 {
                proof {
                    reveal_with_fuel(pow16, 3);
                }
                return Ok(Token::new(TokenKind::Hexadecimal8Bit(value as u8), position));
            }
            if count == 3 || count == 4 {
                proof {
                    reveal_with_fuel(pow16, 5);
                }
                return Ok(Token::new(TokenKind::Hexadecimal16Bit(value as u16), position));
            }
            return Err(
                AssemblerError::new(
                    AssemblerErrorKind::IllegalCharacter(self.current_char),
                    self.current_position,
                ),
            );
        }
        if c == '0' && self.peek_char() == 'x' {
            self.read_char();
            self.read_char();
            let (value, count) = self.read_hex_run();
            if count == 2 {
                proof {
                    reveal_with_fuel(pow16, 3);
                }
                return Ok(Token::new(TokenKind::Hexadecimal8Bit(value as u8), position));
            }
            if count == 4 {
                proof {
                    reveal_with_fuel(pow16, 5);
                }
                return Ok(Token::new(TokenKind::Hexadecimal16Bit(value as u16), position));
            }
            return Err(
                AssemblerError::new(
                    AssemblerErrorKind::IllegalCharacter(self.current_char),
                    self.current_position,
                ),
            );
        }
        if is_letter_char(c) {
            let identifier = self.read_identifier();
            if identifier == "define".to_owned() {
                return Ok(Token::new(TokenKind::Define, position));
            }
            return Ok(Token::new(TokenKind::Identifier(identifier), position));
        }
        if is_digit_char(c) {
            let number = match self.read_number() {
                Ok(number) => number,
                Err(e) => {
                    return Err(e);
                },
            };
            let truncated: u16 = (number % 0x10000) as u16;
            return Ok(Token::new(TokenKind::Decimal(truncated), position));
        }
        Err(
            AssemblerError::new(
                AssemblerErrorKind::IllegalCharacter(self.current_char),
                self.current_position,
            ),
        )
    }
}


/// A whitespace run ends inside the input, no earlier than it starts.
pub proof fn lemma_ws_end_bounds(s: Seq<char>, i: int)
    requires
        0 <= i <= s.len(),
    ensures
        i <= spec_ws_end(s, i) <= s.len(),
    decreases s.len() - i,
{
    if i < s.len() && spec_is_space(s[i]) && s[i] != '\n' {
        lemma_ws_end_bounds(s, i + 1);
    }
}

/// A hexadecimal run ends inside the input, no earlier than it starts.
pub proof fn lemma_hex_end_bounds(s: Seq<char>, i: int)
    requires
        0 <= i <= s.len(),
    ensures
        i <= spec_hex_end(s, i) <= s.len(),
    decreases s.len() - i,
{
    if i < s.len() && spec_is_hex_digit(s[i]) {
        lemma_hex_end_bounds(s, i + 1);
    }
}

/// An identifier run ends inside the input, no earlier than it starts.
pub proof fn lemma_ident_end_bounds(s: Seq<char>, i: int)
    requires
        0 <= i <= s.len(),
    ensures
        i <= spec_ident_end(s, i) <= s.len(),
    decreases s.len() - i,
{
    if i < s.len() && spec_is_ident_char(s[i]) {
        lemma_ident_end_bounds(s, i + 1);
    }
}

/// A digit run ends inside the input, no earlier than it starts.
pub proof fn lemma_digit_end_bounds(s: Seq<char>, i: int)
    requires
        0 <= i <= s.len(),
    ensures
        i <= spec_digit_end(s, i) <= s.len(),
    decreases s.len() - i,
{
    if i < s.len() && spec_is_digit(s[i]) {
        lemma_digit_end_bounds(s, i + 1);
    }
}

/// A scan leaves the cursor inside the input and never moves it back;
/// any token other than the end-of-input token moves it forward.
pub proof fn lemma_scan_bounds(s: Seq<char>, i: int)
    requires
        0 <= i <= s.len(),
    ensures
        match spec_scan(s, i) {
            Scan::Tok(kv, j) => i <= j <= s.len() && (!(kv is EOF) ==> i < j),
            Scan::Fail(k, j) => i <= j <= s.len(),
        },
    decreases s.len() - i, 0int,
{
    reveal(spec_scan);
    reveal(spec_scan_comment);
    if i >= s.len() {
    } else if spec_is_space(s[i]) && s[i] != '\n' {
        lemma_scan_bounds(s, i + 1);
    } else {
        let c = s[i];
        if c == ';' {
            lemma_scan_comment_bounds(s, i + 1);
        } else if c == '$' {
            lemma_hex_end_bounds(s, i + 1);
        } else if c == '0' && spec_char_at(s, i + 1) == 'x' {
            if i + 2 <= s.len() {
                lemma_hex_end_bounds(s, i + 2);
            }
        } else if spec_is_letter(c) {
            assert(spec_is_ident_char(s[i]));
            assert(spec_ident_end(s, i) == spec_ident_end(s, i + 1));
            lemma_ident_end_bounds(s, i + 1);
        } else if spec_is_digit(c) {
            assert(spec_digit_end(s, i) == spec_digit_end(s, i + 1));
            lemma_digit_end_bounds(s, i + 1);
        }
    }
}

/// Scanning past a comment stays inside the input and moves forward from
/// where the comment body starts.
pub proof fn lemma_scan_comment_bounds(s: Seq<char>, i: int)
    requires
        0 <= i <= s.len(),
    ensures
        match spec_scan_comment(s, i) {
            Scan::Tok(kv, j) => i - 1 <= j <= s.len() && (!(kv is EOF) ==> i - 1 < j),
            Scan::Fail(k, j) => i - 1 <= j <= s.len(),
        },
    decreases s.len() - i, 1int,
{
    reveal(spec_scan);
    reveal(spec_scan_comment);
    if i < s.len() && s[i] != '\n' && s[i] != '\0' {
        lemma_scan_comment_bounds(s, i + 1);
    } else {
        lemma_scan_bounds(s, i);
    }
}

} // verus!
