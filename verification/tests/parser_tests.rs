//! Tests of the parser: one abstract assembly line per source line, for
//! every instruction form, and fail-fast syntax errors.

use kas_riscv::ast::AsmKind;
use kas_riscv::error::AsmError;
use kas_riscv::lexer::Lexer;
use kas_riscv::parser::Parser;
use kas_riscv::token::TokenKind;

fn parse_one(src: &str) -> AsmKind {
    let l = Lexer::new(src);
    let mut p = Parser::new(l).unwrap();
    p.parse().unwrap().kind
}

#[test]
fn test_parser_i_lw() {
    let s: &str = "lw 6, 16(10)\n";
    let asm_kind = parse_one(s);
    let expect = AsmKind::LW { imm: 16, rs1: 10, rd: 6 };
    assert_eq!(asm_kind, expect);
}

#[test]
fn test_parser_s_sw() {
    let s: &str = "sw 6, 2357(0)\n";
    let asm_kind = parse_one(s);
    let expect = AsmKind::SW { imm: 2357, rs1: 0, rs2: 6 };
    assert_eq!(asm_kind, expect);
}

#[test]
fn test_parser_i_addi() {
    let s: &str = "addi 6, 16, 10\n";
    let asm_kind = parse_one(s);
    let expect = AsmKind::ADDI { imm: 10, rs1: 16, rd: 6 };
    assert_eq!(asm_kind, expect);
}

#[test]
fn test_parser_r_add() {
    let s: &str = "add 0, 10, 5\n";
    let asm_kind = parse_one(s);
    let expect = AsmKind::ADD { rs2: 5, rs1: 10, rd: 0 };
    assert_eq!(asm_kind, expect);
}

#[test]
fn test_parser_r_sub() {
    let s: &str = "sub 1, 11, 6\n";
    let asm_kind = parse_one(s);
    let expect = AsmKind::SUB { rs2: 6, rs1: 11, rd: 1 };
    assert_eq!(asm_kind, expect);
}

#[test]
fn test_parser_r_and() {
    let s: &str = "and 31, 10, 1\n";
    let asm_kind = parse_one(s);
    let expect = AsmKind::AND { rs2: 1, rs1: 10, rd: 31 };
    assert_eq!(asm_kind, expect);
}

#[test]
fn test_parser_r_or() {
    let s: &str = "or 0, 100, 521\n";
    let asm_kind = parse_one(s);
    let expect = AsmKind::OR { rs2: 521, rs1: 100, rd: 0 };
    assert_eq!(asm_kind, expect);
}

#[test]
fn test_parser_r_xor() {
    let s: &str = "xor 24, 111, 666\n";
    let asm_kind = parse_one(s);
    let expect = AsmKind::XOR { rs2: 666, rs1: 111, rd: 24 };
    assert_eq!(asm_kind, expect);
}

#[test]
fn test_parser_r_slt() {
    let s: &str = "slt 24, 11, 5\n";
    let asm_kind = parse_one(s);
    let expect = AsmKind::SLT { rs2: 5, rs1: 11, rd: 24 };
    assert_eq!(asm_kind, expect);
}

#[test]
fn test_parser_r_sltu() {
    let s: &str = "sltu 24, 0, 10\n";
    let asm_kind = parse_one(s);
    let expect = AsmKind::SLTU { rs2: 10, rs1: 0, rd: 24 };
    assert_eq!(asm_kind, expect);
}

#[test]
fn test_parser_i_slti() {
    let s: &str = "slti 3, 2, -1\n";
    let asm_kind = parse_one(s);
    let expect = AsmKind::SLTI { imm: -1, rs1: 2, rd: 3 };
    assert_eq!(asm_kind, expect);
}

#[test]
fn test_parser_i_sltiu() {
    let s: &str = "sltiu 24, 9, 666\n";
    let asm_kind = parse_one(s);
    let expect = AsmKind::SLTIU { imm: 666, rs1: 9, rd: 24 };
    assert_eq!(asm_kind, expect);
}

#[test]
fn test_parser_i_sll() {
    let s: &str = "sll 24, 9, 3\n";
    let asm_kind = parse_one(s);
    let expect = AsmKind::SLL { rs2: 3, rs1: 9, rd: 24 };
    assert_eq!(asm_kind, expect);
}

#[test]
fn test_parser_i_srl() {
    let s: &str = "srl 4, 9, 6\n";
    let asm_kind = parse_one(s);
    let expect = AsmKind::SRL { rs2: 6, rs1: 9, rd: 4 };
    assert_eq!(asm_kind, expect);
}

#[test]
fn test_parser_i_sra() {
    let s: &str = "sra 5, 9, 16\n";
    let asm_kind = parse_one(s);
    let expect = AsmKind::SRA { rs2: 16, rs1: 9, rd: 5 };
    assert_eq!(asm_kind, expect);
}

#[test]
fn test_parser_i_slli() {
    let s: &str = "slli 5, 9, -16\n";
    let asm_kind = parse_one(s);
    let expect = AsmKind::SLLI { imm: -16, rs1: 9, rd: 5 };
    assert_eq!(asm_kind, expect);
}

#[test]
fn test_parser_i_slai() {
    let s: &str = "srai 5, 9, -1\n";
    let asm_kind = parse_one(s);
    let expect = AsmKind::SRAI { imm: -1, rs1: 9, rd: 5 };
    assert_eq!(asm_kind, expect);
}

#[test]
fn test_parser_b_beq() {
    let s: &str = "beq 20, 12, 11\n";
    let asm_kind = parse_one(s);
    let expect = AsmKind::BEQ { imm: Some(11), rs1: 12, rd: 20, label: None };
    assert_eq!(asm_kind, expect);
}

#[test]
fn test_parser_b_bne() {
    let s: &str = "bne 20, 12, A1\n";
    let asm_kind = parse_one(s);
    let expect = AsmKind::BNE { imm: None, rs1: 12, rd: 20, label: Some("A1".to_string()) };
    assert_eq!(asm_kind, expect);
}

#[test]
fn test_parser_b_blt() {
    let s: &str = "blt 0, 1, B1\n";
    let asm_kind = parse_one(s);
    let expect = AsmKind::BLT { imm: None, rs1: 1, rd: 0, label: Some("B1".to_string()) };
    assert_eq!(asm_kind, expect);
}

#[test]
fn test_parser_b_bge() {
    let s: &str = "bge 17, 16, VVV1\n";
    let asm_kind = parse_one(s);
    let expect = AsmKind::BGE { imm: None, rs1: 16, rd: 17, label: Some("VVV1".to_string()) };
    assert_eq!(asm_kind, expect);
}

#[test]
fn test_parser_b_bltu() {
    let s: &str = "bltu 7, 6, loop1\n";
    let asm_kind = parse_one(s);
    let expect = AsmKind::BLTU { imm: None, rs1: 6, rd: 7, label: Some("loop1".to_string()) };
    assert_eq!(asm_kind, expect);
}

#[test]
fn test_parser_b_bgeu() {
    let s: &str = "bgeu 23, 4, loop2\n";
    let asm_kind = parse_one(s);
    let expect = AsmKind::BGEU { imm: None, rs1: 4, rd: 23, label: Some("loop2".to_string()) };
    assert_eq!(asm_kind, expect);
}

#[test]
fn test_parser_fail_fast_missing_operand() {
    let l = Lexer::new("addi 6, 16\n");
    let mut p = Parser::new(l).unwrap();
    assert_eq!(
        p.parse(),
        Err(AsmError::UnexpectedToken {
            expected: TokenKind::Comma,
            actual: TokenKind::NewLine,
        })
    );
}

#[test]
fn test_parser_unsupported_mnemonic() {
    let l = Lexer::new("andi 1, 2, 3\n");
    let mut p = Parser::new(l).unwrap();
    assert_eq!(
        p.parse(),
        Err(AsmError::UnsupportedInstruction { actual: TokenKind::ANDI })
    );
}

#[test]
fn test_parser_label_line() {
    assert_eq!(
        parse_one("loop1:\n"),
        AsmKind::LABEL { l: "loop1".to_string() }
    );
}

#[test]
fn test_parser_label_line_at_end_of_input() {
    assert_eq!(
        parse_one("A1:"),
        AsmKind::LABEL { l: "A1".to_string() }
    );
}

#[test]
fn test_parser_end_of_input_is_sentinel() {
    let l = Lexer::new("");
    let mut p = Parser::new(l).unwrap();
    assert_eq!(p.parse().unwrap().kind, AsmKind::EOASM);
    assert_eq!(p.parse().unwrap().kind, AsmKind::EOASM);
}

#[test]
fn test_parser_expected_number_error() {
    let l = Lexer::new("lw x, 16(10)\n");
    let mut p = Parser::new(l).unwrap();
    assert_eq!(
        p.parse(),
        Err(AsmError::ExpectedNumber { actual: TokenKind::Symbol("x".to_string()) })
    );
}

#[test]
fn test_parser_consecutive_lines() {
    let l = Lexer::new("lw 6, 16(10)\nadd 1, 2, 3\n");
    let mut p = Parser::new(l).unwrap();
    assert_eq!(p.parse().unwrap().kind, AsmKind::LW { imm: 16, rs1: 10, rd: 6 });
    assert_eq!(p.parse().unwrap().kind, AsmKind::ADD { rs2: 3, rs1: 2, rd: 1 });
    assert_eq!(p.parse().unwrap().kind, AsmKind::EOASM);
}

#[test]
fn test_parser_branch_target_must_be_number_or_symbol() {
    let l = Lexer::new("beq 1, 2, (\n");
    let mut p = Parser::new(l).unwrap();
    assert_eq!(
        p.parse(),
        Err(AsmError::ExpectedNumberOrSymbol { actual: TokenKind::LParen })
    );
}
