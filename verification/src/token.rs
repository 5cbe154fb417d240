//! Tokens: the closed set of lexeme tags, each carried with its source
//! position.

use vstd::prelude::*;
use crate::ast::Position;
use crate::text::push_char;
use crate::text::push_decimal;
use crate::text::push_hex16;
use crate::text::push_hex8;
use crate::text::push_str_chars;
use crate::text::spec_decimal_text;
use crate::text::spec_hex16;
use crate::text::spec_hex8;

verus! {

#[derive(Debug, Clone, PartialEq)]
pub enum TokenKind {
    LParen,
    RParen,
    Comma,
    Colon,
    Hash,
    Newline,
    X,
    Y,
    Decimal(u16),
    Hexadecimal8Bit(u8),
    Hexadecimal16Bit(u16),
    Identifier(String),
    Define,
    EOF,
}

/// The mathematical image of a token kind: the same tag with the
/// identifier's text as a character sequence.
pub enum TokenKindV {
    LParen,
    RParen,
    Comma,
    Colon,
    Hash,
    Newline,
    X,
    Y,
    Decimal(u16),
    Hexadecimal8Bit(u8),
    Hexadecimal16Bit(u16),
    Identifier(Seq<char>),
    Define,
    EOF,
}

impl View for TokenKind {
    type V = TokenKindV;

    open spec fn view(&self) -> TokenKindV {
        match self {
            TokenKind::LParen => TokenKindV::LParen,
            TokenKind::RParen => TokenKindV::RParen,
            TokenKind::Comma => TokenKindV::Comma,
            TokenKind::Colon => TokenKindV::Colon,
            TokenKind::Hash => TokenKindV::Hash,
            TokenKind::Newline => TokenKindV::Newline,
            TokenKind::X => TokenKindV::X,
            TokenKind::Y => TokenKindV::Y,
            TokenKind::Decimal(n) => TokenKindV::Decimal(*n),
            TokenKind::Hexadecimal8Bit(n) => TokenKindV::Hexadecimal8Bit(*n),
            TokenKind::Hexadecimal16Bit(n) => TokenKindV::Hexadecimal16Bit(*n),
            TokenKind::Identifier(s) => TokenKindV::Identifier(s@),
            TokenKind::Define => TokenKindV::Define,
            TokenKind::EOF => TokenKindV::EOF,
        }
    }
}

/// The rendering of a token kind in diagnostics: the lexeme itself,
/// `\n` for a newline and `EOF` for the end of input.
pub open spec fn describe_v(kv: TokenKindV) -> Seq<char> {
    match kv {
        TokenKindV::LParen => "("@,
        TokenKindV::RParen => ")"@,
        TokenKindV::Comma => ","@,
        TokenKindV::Colon => ":"@,
        TokenKindV::Hash => "#"@,
        TokenKindV::Newline => "\\n"@,
        TokenKindV::X => "X"@,
        TokenKindV::Y => "Y"@,
        TokenKindV::Decimal(n) => spec_decimal_text(n as int),
        TokenKindV::Hexadecimal8Bit(n) => "$"@ + spec_hex8(n),
        TokenKindV::Hexadecimal16Bit(n) => "$"@ + spec_hex16(n),
        TokenKindV::Identifier(s) => s,
        TokenKindV::Define => "define"@,
        TokenKindV::EOF => "EOF"@,
    }
}

impl TokenKind {
    /// The token's rendering in diagnostics.
    pub open spec fn describe(&self) -> Seq<char> {
        describe_v(self@)
    }

    /// Render the token for diagnostics.
    pub fn text(&self) -> (r: String)
        ensures
            r@ == self.describe(),
    {
        let mut out = String::new();
        match self {
            TokenKind::LParen => {
                push_str_chars(&mut out, "(");
                assert(out@ =~= self.describe());
            },
            TokenKind::RParen => {
                push_str_chars(&mut out, ")");
                assert(out@ =~= self.describe());
            },
            TokenKind::Comma => {
                push_str_chars(&mut out, ",");
                assert(out@ =~= self.describe());
            },
            TokenKind::Colon => {
                push_str_chars(&mut out, ":");
                assert(out@ =~= self.describe());
            },
            TokenKind::Hash => {
                push_str_chars(&mut out, "#");
                assert(out@ =~= self.describe());
            },
            TokenKind::Newline => {
                push_str_chars(&mut out, "\\n");
                assert(out@ =~= self.describe());
            },
            TokenKind::X => {
                push_str_chars(&mut out, "X");
                assert(out@ =~= self.describe());
            },
            TokenKind::Y => {
                push_str_chars(&mut out, "Y");
                assert(out@ =~= self.describe());
            },
            TokenKind::Decimal(n) => {
                push_decimal(&mut out, *n as usize);
                assert(out@ =~= self.describe());
            },
            TokenKind::Hexadecimal8Bit(n) => {
                push_char(&mut out, '$');
                push_hex8(&mut out, *n);
                proof {
                    reveal_strlit("$");
                }
                assert(out@ =~= self.describe());
            },
            TokenKind::Hexadecimal16Bit(n) => {
                push_char(&mut out, '$');
                push_hex16(&mut out, *n);
                proof {
                    reveal_strlit("$");
                }
                assert(out@ =~= self.describe());
            },
            TokenKind::Identifier(s) => {
                push_str_chars(&mut out, s.as_str());
                assert(out@ =~= self.describe());
            },
            TokenKind::Define => {
                push_str_chars(&mut out, "define");
                assert(out@ =~= self.describe());
            },
            TokenKind::EOF => {
                push_str_chars(&mut out, "EOF");
                assert(out@ =~= self.describe());
            },
        }
        out
    }

    /// Whether two token kinds are the same tag with the same payload.
    pub fn same(&self, other: &TokenKind) -> (r: bool)
        ensures
            r == (self@ == other@),
    {
        match (self, other) {
            (TokenKind::LParen, TokenKind::LParen) => true,
            (TokenKind::RParen, TokenKind::RParen) => true,
            (TokenKind::Comma, TokenKind::Comma) => true,
            (TokenKind::Colon, TokenKind::Colon) => true,
            (TokenKind::Hash, TokenKind::Hash) => true,
            (TokenKind::Newline, TokenKind::Newline) => true,
            (TokenKind::X, TokenKind::X) => true,
            (TokenKind::Y, TokenKind::Y) => true,
            (TokenKind::Decimal(a), TokenKind::Decimal(b)) => a == b,
            (TokenKind::Hexadecimal8Bit(a), TokenKind::Hexadecimal8Bit(b)) => a == b,
            (TokenKind::Hexadecimal16Bit(a), TokenKind::Hexadecimal16Bit(b)) => a == b,
            (TokenKind::Identifier(a), TokenKind::Identifier(b)) => *a == *b,
            (TokenKind::Define, TokenKind::Define) => true,
            (TokenKind::EOF, TokenKind::EOF) => true,
            _ => false,
        }
    }
}

#[derive(Debug, Clone, PartialEq)]
pub struct Token {
    pub kind: TokenKind,
    pub position: Position,
}

impl Default for Token {
    /// The end-of-input token at the origin position.
    fn default() -> (r: Token)
        ensures
            r.kind == TokenKind::EOF,
    {
        Token { kind: TokenKind::EOF, position: Position(0, 0) }
    }
}

impl Token {
    pub fn new(kind: TokenKind, position: Position) -> (r: Token)
        ensures
            r == (Token { kind, position }),
    {
        Token { kind, position }
    }
}

} // verus!
