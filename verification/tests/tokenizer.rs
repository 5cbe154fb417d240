use mos6502::Lexer;
use mos6502::TokenKind;

fn collect_kinds(input: &str) -> Vec<TokenKind> {
    let mut lexer = Lexer::new(input);
    let mut kinds = Vec::new();
    loop {
        let token = lexer.next_token().unwrap();
        if token.kind == TokenKind::EOF {
            break;
        }
        kinds.push(token.kind);
    }
    kinds
}

fn test_tokenizer(input: &str, expected: &[TokenKind]) {
    let kinds = collect_kinds(input);
    assert_eq!(kinds.len(), expected.len());
    for (i, kind) in kinds.iter().enumerate() {
        assert_eq!(*kind, expected[i]);
    }
}

#[test]
fn mod_test_tokenizer_decimal() {
    test_tokenizer(
        "1234 5678 9012",
        &[TokenKind::Decimal(1234), TokenKind::Decimal(5678), TokenKind::Decimal(9012)],
    );
}

#[test]
fn mod_test_tokenizer_hexadecimal() {
    test_tokenizer(
        "$1234 0x56",
        &[TokenKind::Hexadecimal16Bit(0x1234), TokenKind::Hexadecimal8Bit(0x56)],
    );
}

#[test]
fn mod_test_tokenizer_identifier() {
    test_tokenizer(
        "abc def",
        &[
            TokenKind::Identifier("abc".to_string()),
            TokenKind::Identifier("def".to_string()),
        ],
    );
}

#[test]
fn mod_test_tokenizer_symbols() {
    test_tokenizer(
        "( ) , test: #\n1",
        &[
            TokenKind::LParen,
            TokenKind::RParen,
            TokenKind::Comma,
            TokenKind::Identifier("test".to_string()),
            TokenKind::Colon,
            TokenKind::Hash,
            TokenKind::Newline,
            TokenKind::Decimal(1),
        ],
    );
}

#[test]
fn tokenizer_test_tokenizer_decimal() {
    test_tokenizer(
        "1234 5678 9012",
        &[TokenKind::Decimal(1234), TokenKind::Decimal(5678), TokenKind::Decimal(9012)],
    );
}

#[test]
fn tokenizer_test_tokenizer_hexadecimal() {
    test_tokenizer(
        "$1234 0x56",
        &[TokenKind::Hexadecimal16Bit(0x1234), TokenKind::Hexadecimal8Bit(0x56)],
    );
}

#[test]
fn tokenizer_test_tokenizer_identifier() {
    test_tokenizer(
        "abc def",
        &[
            TokenKind::Identifier("abc".to_string()),
            TokenKind::Identifier("def".to_string()),
        ],
    );
}

#[test]
fn tokenizer_test_tokenizer_symbols() {
    test_tokenizer(
        "( ) , : # \n",
        &[
            TokenKind::LParen,
            TokenKind::RParen,
            TokenKind::Comma,
            TokenKind::Colon,
            TokenKind::Hash,
            TokenKind::Newline,
        ],
    );
}

#[test]
fn tokenizer_define_keyword() {
    test_tokenizer(
        "define foo $01",
        &[
            TokenKind::Define,
            TokenKind::Identifier("foo".to_string()),
            TokenKind::Hexadecimal8Bit(0x01),
        ],
    );
}

#[test]
fn tokenizer_comment_runs_to_end_of_line() {
    test_tokenizer(
        "NOP ; ignore this\n",
        &[
            TokenKind::Identifier("NOP".to_string()),
            TokenKind::Newline,
        ],
    );
}

#[test]
fn tokenizer_register_letters() {
    test_tokenizer("x Y", &[TokenKind::X, TokenKind::Y]);
}
