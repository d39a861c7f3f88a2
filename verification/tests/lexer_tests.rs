//! Tests of the lexer: cursor movement, whitespace handling, identifier and
//! number reading, and full token sequences for each instruction form.

use kas_riscv::lexer::Lexer;
use kas_riscv::token::Token;
use kas_riscv::token::TokenKind;
use kas_riscv::error::AsmError;

#[test]
fn test_read_char() {
    let s = "lw 6, 10(5)";
    let mut l = Lexer::new(s);
    assert_eq!(l.ch as char, 'l');
    l.read_char();
    assert_eq!(l.ch as char, 'w');
}

#[test]
fn test_peek_char() {
    let s = "lw 6, 10(5)";
    let l = Lexer::new(s);
    assert_eq!(l.ch as char, 'l');
    assert_eq!(l.peek_char().unwrap() as char, 'w');
}

#[test]
fn test_skip_whitespaces() {
    let s = "lw 6, 10(5)";
    let mut l = Lexer::new(s);
    l.read_char();
    l.read_char();
    l.skip_whitespaces();
    assert_eq!(l.ch as char, '6')
}

#[test]
fn test_read_identifier() {
    let s = "lw 6, 10(5)";
    let mut l = Lexer::new(s);
    assert_eq!(l.read_identifier(), b"lw");
}

#[test]
fn test_read_number1() {
    let s = "6888, 10(5)";
    let mut l = Lexer::new(s);
    assert_eq!(l.read_number(), b"6888");
}

#[test]
fn test_read_number2() {
    let s = "-8";
    let mut l = Lexer::new(s);
    assert_eq!(l.read_number(), b"-8");
}

#[test]
fn test_lexer_i_lw() {
    let s = "lw 6, 10(5)\n";
    let mut l = Lexer::new(s);
    assert_eq!(l.next_token().unwrap(), Token { kind: TokenKind::LW });
    assert_eq!(l.next_token().unwrap(), Token { kind: TokenKind::Number(6) });
    assert_eq!(l.next_token().unwrap(), Token { kind: TokenKind::Comma });
    assert_eq!(l.next_token().unwrap(), Token { kind: TokenKind::Number(10) });
    assert_eq!(l.next_token().unwrap(), Token { kind: TokenKind::LParen });
    assert_eq!(l.next_token().unwrap(), Token { kind: TokenKind::Number(5) });
    assert_eq!(l.next_token().unwrap(), Token { kind: TokenKind::RParen });
    assert_eq!(l.next_token().unwrap(), Token { kind: TokenKind::NewLine });
    assert_eq!(l.next_token().unwrap(), Token { kind: TokenKind::EOF });
}

#[test]
fn test_lexer_s_sw() {
    let s = "sw 100, 12(0)\n";
    let mut l = Lexer::new(s);
    assert_eq!(l.next_token().unwrap(), Token { kind: TokenKind::SW });
    assert_eq!(l.next_token().unwrap(), Token { kind: TokenKind::Number(100) });
    assert_eq!(l.next_token().unwrap(), Token { kind: TokenKind::Comma });
    assert_eq!(l.next_token().unwrap(), Token { kind: TokenKind::Number(12) });
    assert_eq!(l.next_token().unwrap(), Token { kind: TokenKind::LParen });
    assert_eq!(l.next_token().unwrap(), Token { kind: TokenKind::Number(0) });
    assert_eq!(l.next_token().unwrap(), Token { kind: TokenKind::RParen });
    assert_eq!(l.next_token().unwrap(), Token { kind: TokenKind::NewLine });
    assert_eq!(l.next_token().unwrap(), Token { kind: TokenKind::EOF });
}

#[test]
fn test_lexer_i_addi() {
    let s = "addi 100, 101, 20\n";
    let mut l = Lexer::new(s);
    assert_eq!(l.next_token().unwrap(), Token { kind: TokenKind::ADDI });
    assert_eq!(l.next_token().unwrap(), Token { kind: TokenKind::Number(100) });
    assert_eq!(l.next_token().unwrap(), Token { kind: TokenKind::Comma });
    assert_eq!(l.next_token().unwrap(), Token { kind: TokenKind::Number(101) });
    assert_eq!(l.next_token().unwrap(), Token { kind: TokenKind::Comma });
    assert_eq!(l.next_token().unwrap(), Token { kind: TokenKind::Number(20) });
    assert_eq!(l.next_token().unwrap(), Token { kind: TokenKind::NewLine });
    assert_eq!(l.next_token().unwrap(), Token { kind: TokenKind::EOF });
}

#[test]
fn test_lexer_r_add() {
    let s = "add 32, 10, 5\n";
    let mut l = Lexer::new(s);
    assert_eq!(l.next_token().unwrap(), Token { kind: TokenKind::ADD });
    assert_eq!(l.next_token().unwrap(), Token { kind: TokenKind::Number(32) });
    assert_eq!(l.next_token().unwrap(), Token { kind: TokenKind::Comma });
    assert_eq!(l.next_token().unwrap(), Token { kind: TokenKind::Number(10) });
    assert_eq!(l.next_token().unwrap(), Token { kind: TokenKind::Comma });
    assert_eq!(l.next_token().unwrap(), Token { kind: TokenKind::Number(5) });
    assert_eq!(l.next_token().unwrap(), Token { kind: TokenKind::NewLine });
    assert_eq!(l.next_token().unwrap(), Token { kind: TokenKind::EOF });
}

#[test]
fn test_lexer_r_sub() {
    let s = "sub 4, 11, 6\n";
    let mut l = Lexer::new(s);
    assert_eq!(l.next_token().unwrap(), Token { kind: TokenKind::SUB });
    assert_eq!(l.next_token().unwrap(), Token { kind: TokenKind::Number(4) });
    assert_eq!(l.next_token().unwrap(), Token { kind: TokenKind::Comma });
    assert_eq!(l.next_token().unwrap(), Token { kind: TokenKind::Number(11) });
    assert_eq!(l.next_token().unwrap(), Token { kind: TokenKind::Comma });
    assert_eq!(l.next_token().unwrap(), Token { kind: TokenKind::Number(6) });
    assert_eq!(l.next_token().unwrap(), Token { kind: TokenKind::NewLine });
    assert_eq!(l.next_token().unwrap(), Token { kind: TokenKind::EOF });
}

#[test]
fn test_lexer_r_and() {
    let s = "and 9, 0, 7\n";
    let mut l = Lexer::new(s);
    assert_eq!(l.next_token().unwrap(), Token { kind: TokenKind::AND });
    assert_eq!(l.next_token().unwrap(), Token { kind: TokenKind::Number(9) });
    assert_eq!(l.next_token().unwrap(), Token { kind: TokenKind::Comma });
    assert_eq!(l.next_token().unwrap(), Token { kind: TokenKind::Number(0) });
    assert_eq!(l.next_token().unwrap(), Token { kind: TokenKind::Comma });
    assert_eq!(l.next_token().unwrap(), Token { kind: TokenKind::Number(7) });
    assert_eq!(l.next_token().unwrap(), Token { kind: TokenKind::NewLine });
    assert_eq!(l.next_token().unwrap(), Token { kind: TokenKind::EOF });
}

#[test]
fn test_lexer_r_or() {
    let s = "or 31, 8, 100\n";
    let mut l = Lexer::new(s);
    assert_eq!(l.next_token().unwrap(), Token { kind: TokenKind::OR });
    assert_eq!(l.next_token().unwrap(), Token { kind: TokenKind::Number(31) });
    assert_eq!(l.next_token().unwrap(), Token { kind: TokenKind::Comma });
    assert_eq!(l.next_token().unwrap(), Token { kind: TokenKind::Number(8) });
    assert_eq!(l.next_token().unwrap(), Token { kind: TokenKind::Comma });
    assert_eq!(l.next_token().unwrap(), Token { kind: TokenKind::Number(100) });
    assert_eq!(l.next_token().unwrap(), Token { kind: TokenKind::NewLine });
    assert_eq!(l.next_token().unwrap(), Token { kind: TokenKind::EOF });
}

#[test]
fn test_lexer_r_xor() {
    let s = "xor 5, 121, 521\n";
    let mut l = Lexer::new(s);
    assert_eq!(l.next_token().unwrap(), Token { kind: TokenKind::XOR });
    assert_eq!(l.next_token().unwrap(), Token { kind: TokenKind::Number(5) });
    assert_eq!(l.next_token().unwrap(), Token { kind: TokenKind::Comma });
    assert_eq!(l.next_token().unwrap(), Token { kind: TokenKind::Number(121) });
    assert_eq!(l.next_token().unwrap(), Token { kind: TokenKind::Comma });
    assert_eq!(l.next_token().unwrap(), Token { kind: TokenKind::Number(521) });
    assert_eq!(l.next_token().unwrap(), Token { kind: TokenKind::NewLine });
    assert_eq!(l.next_token().unwrap(), Token { kind: TokenKind::EOF });
}

#[test]
fn test_lexer_r_andi() {
    let s = "andi 11, 123, 456\n";
    let mut l = Lexer::new(s);
    assert_eq!(l.next_token().unwrap(), Token { kind: TokenKind::ANDI });
    assert_eq!(l.next_token().unwrap(), Token { kind: TokenKind::Number(11) });
    assert_eq!(l.next_token().unwrap(), Token { kind: TokenKind::Comma });
    assert_eq!(l.next_token().unwrap(), Token { kind: TokenKind::Number(123) });
    assert_eq!(l.next_token().unwrap(), Token { kind: TokenKind::Comma });
    assert_eq!(l.next_token().unwrap(), Token { kind: TokenKind::Number(456) });
    assert_eq!(l.next_token().unwrap(), Token { kind: TokenKind::NewLine });
    assert_eq!(l.next_token().unwrap(), Token { kind: TokenKind::EOF });
}

#[test]
fn test_lexer_r_ori() {
    let s = "ori 7, 321, 5521\n";
    let mut l = Lexer::new(s);
    assert_eq!(l.next_token().unwrap(), Token { kind: TokenKind::ORI });
    assert_eq!(l.next_token().unwrap(), Token { kind: TokenKind::Number(7) });
    assert_eq!(l.next_token().unwrap(), Token { kind: TokenKind::Comma });
    assert_eq!(l.next_token().unwrap(), Token { kind: TokenKind::Number(321) });
    assert_eq!(l.next_token().unwrap(), Token { kind: TokenKind::Comma });
    assert_eq!(l.next_token().unwrap(), Token { kind: TokenKind::Number(5521) });
    assert_eq!(l.next_token().unwrap(), Token { kind: TokenKind::NewLine });
    assert_eq!(l.next_token().unwrap(), Token { kind: TokenKind::EOF });
}

#[test]
fn test_lexer_r_xori() {
    let s = "xori 5, 7, 13\n";
    let mut l = Lexer::new(s);
    assert_eq!(l.next_token().unwrap(), Token { kind: TokenKind::XORI });
    assert_eq!(l.next_token().unwrap(), Token { kind: TokenKind::Number(5) });
    assert_eq!(l.next_token().unwrap(), Token { kind: TokenKind::Comma });
    assert_eq!(l.next_token().unwrap(), Token { kind: TokenKind::Number(7) });
    assert_eq!(l.next_token().unwrap(), Token { kind: TokenKind::Comma });
    assert_eq!(l.next_token().unwrap(), Token { kind: TokenKind::Number(13) });
    assert_eq!(l.next_token().unwrap(), Token { kind: TokenKind::NewLine });
    assert_eq!(l.next_token().unwrap(), Token { kind: TokenKind::EOF });
}

#[test]
fn test_lexer_colon_and_symbol() {
    let s = "loop1:";
    let mut l = Lexer::new(s);
    assert_eq!(
        l.next_token().unwrap(),
        Token { kind: TokenKind::Symbol("loop1".to_string()) }
    );
    assert_eq!(l.next_token().unwrap(), Token { kind: TokenKind::Colon });
    assert_eq!(l.next_token().unwrap(), Token { kind: TokenKind::EOF });
}

#[test]
fn test_lexer_illegal_byte() {
    let s = "@";
    let mut l = Lexer::new(s);
    assert_eq!(l.next_token().unwrap(), Token { kind: TokenKind::ILEGAL });
}

#[test]
fn test_lexer_bare_minus_is_illegal() {
    let s = "- 1";
    let mut l = Lexer::new(s);
    assert_eq!(l.next_token().unwrap(), Token { kind: TokenKind::ILEGAL });
    assert_eq!(l.next_token().unwrap(), Token { kind: TokenKind::Number(1) });
}

#[test]
fn test_lexer_number_overflow_is_error() {
    let s = "99999999999999999999999";
    let mut l = Lexer::new(s);
    assert_eq!(l.next_token(), Err(AsmError::InvalidNumberLiteral));
}

#[test]
fn test_lexer_most_negative_number() {
    let s = "-9223372036854775808";
    let mut l = Lexer::new(s);
    assert_eq!(
        l.next_token().unwrap(),
        Token { kind: TokenKind::Number(isize::MIN) }
    );
}

#[test]
fn test_lexer_empty_input() {
    let s = "";
    let mut l = Lexer::new(s);
    assert_eq!(l.next_token().unwrap(), Token { kind: TokenKind::EOF });
    assert_eq!(l.next_token().unwrap(), Token { kind: TokenKind::EOF });
}

#[test]
fn test_lookup_keyword_hits_and_misses() {
    assert_eq!(kas_riscv::token::lookup_keyword("lw"), Some(TokenKind::LW));
    assert_eq!(kas_riscv::token::lookup_keyword("bgeu"), Some(TokenKind::BGEU));
    assert_eq!(kas_riscv::token::lookup_keyword("zzz"), None);
    assert_eq!(kas_riscv::token::lookup_keyword(""), None);
}
