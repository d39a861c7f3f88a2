//! Tests of the assembler driver: each mnemonic mapped to its concrete
//! instruction fields, and the whole-program drivers.

use kas_riscv::assembler::Assembler;
use kas_riscv::error::AsmError;
use kas_riscv::inst::InstType;
use kas_riscv::lexer::Lexer;
use kas_riscv::parser::Parser;

fn assemble_one(src: &str) -> InstType {
    let l = Lexer::new(src);
    let p = Parser::new(l).unwrap();
    let mut a = Assembler::new(p);
    a.assemble().unwrap().ty
}

#[test]
fn test_assembler_i_lw() {
    let s: &str = "lw 6, 16(10)\n";
    let inst_ty = assemble_one(s);
    let expect = InstType::I { imm: 16, rs1: 10, funct3: 0b010, rd: 6, opcode: 0b0000011 };
    assert_eq!(inst_ty, expect);
}

#[test]
fn test_assembler_s_sw() {
    let s: &str = "sw 6, 2357(0)\n";
    let inst_ty = assemble_one(s);
    let expect = InstType::S { imm_1: 73, rs2: 6, rs1: 0, funct3: 0b010, imm_2: 21, opcode: 0b0100011 };
    assert_eq!(inst_ty, expect);
}

#[test]
fn test_assembler_i_addi() {
    let s: &str = "addi 6, 16, 10\n";
    let inst_ty = assemble_one(s);
    let expect = InstType::I { imm: 10, rs1: 16, funct3: 0b000, rd: 6, opcode: 0b010011 };
    assert_eq!(inst_ty, expect);
}

#[test]
fn test_assembler_r_add() {
    let s: &str = "add 0, 10, 5\n";
    let inst_ty = assemble_one(s);
    let expect = InstType::R { funct7: 0b0000000, rs2: 5, rs1: 10, funct3: 0b000, rd: 0, opcode: 0b0110011 };
    assert_eq!(inst_ty, expect);
}

#[test]
fn test_assembler_r_sub() {
    let s: &str = "sub 1, 11, 6\n";
    let inst_ty = assemble_one(s);
    let expect = InstType::R { funct7: 0b0100000, rs2: 6, rs1: 11, funct3: 0b000, rd: 1, opcode: 0b0110011 };
    assert_eq!(inst_ty, expect);
}

#[test]
fn test_assembler_r_and() {
    let s: &str = "and 31, 10, 1\n";
    let inst_ty = assemble_one(s);
    let expect = InstType::R { funct7: 0b0000000, rs2: 1, rs1: 10, funct3: 0b111, rd: 31, opcode: 0b0110011 };
    assert_eq!(inst_ty, expect);
}

#[test]
fn test_assembler_r_or() {
    let s: &str = "or 0, 100, 521\n";
    let inst_ty = assemble_one(s);
    let expect = InstType::R { funct7: 0b0000000, rs2: 521, rs1: 100, funct3: 0b110, rd: 0, opcode: 0b0110011 };
    assert_eq!(inst_ty, expect);
}

#[test]
fn test_assembler_r_xor() {
    let s: &str = "xor 24, 111, 666\n";
    let inst_ty = assemble_one(s);
    let expect = InstType::R { funct7: 0b0000000, rs2: 666, rs1: 111, funct3: 0b100, rd: 24, opcode: 0b0110011 };
    assert_eq!(inst_ty, expect);
}

#[test]
fn test_assembler_r_slt() {
    let s: &str = "slt 24, 11, 6\n";
    let inst_ty = assemble_one(s);
    let expect = InstType::R { funct7: 0b0000000, rs2: 6, rs1: 11, funct3: 0b010, rd: 24, opcode: 0b0110011 };
    assert_eq!(inst_ty, expect);
}

#[test]
fn test_assembler_r_sltu() {
    let s: &str = "sltu 24, 3, 9\n";
    let inst_ty = assemble_one(s);
    let expect = InstType::R { funct7: 0b0000000, rs2: 9, rs1: 3, funct3: 0b011, rd: 24, opcode: 0b0110011 };
    assert_eq!(inst_ty, expect);
}

#[test]
fn test_assembler_r_slti() {
    let s: &str = "slti 7, 2, -10\n";
    let inst_ty = assemble_one(s);
    let expect = InstType::I { imm: -10, rs1: 2, funct3: 0b010, rd: 7, opcode: 0b0010011 };
    assert_eq!(inst_ty, expect);
}

#[test]
fn test_assembler_r_sltiu() {
    let s: &str = "sltiu 5, 6, -11\n";
    let inst_ty = assemble_one(s);
    let expect = InstType::I { imm: -11, rs1: 6, funct3: 0b011, rd: 5, opcode: 0b0010011 };
    assert_eq!(inst_ty, expect);
}

#[test]
fn test_assembler_r_sll() {
    let s: &str = "sll 5, 6, 11\n";
    let inst_ty = assemble_one(s);
    let expect = InstType::R { funct7: 0b0000000, rs2: 11, rs1: 6, funct3: 0b001, rd: 5, opcode: 0b0110011 };
    assert_eq!(inst_ty, expect);
}

#[test]
fn test_assembler_r_srl() {
    let s: &str = "srl 3, 0, 1\n";
    let inst_ty = assemble_one(s);
    let expect = InstType::R { funct7: 0b0000000, rs2: 1, rs1: 0, funct3: 0b101, rd: 3, opcode: 0b0110011 };
    assert_eq!(inst_ty, expect);
}

#[test]
fn test_assembler_r_sra() {
    let s: &str = "sra 2, 19, 15\n";
    let inst_ty = assemble_one(s);
    let expect = InstType::R { funct7: 0b0100000, rs2: 15, rs1: 19, funct3: 0b101, rd: 2, opcode: 0b0110011 };
    assert_eq!(inst_ty, expect);
}

#[test]
fn test_assembler_r_slli() {
    let s: &str = "slli 5, 6, 31\n";
    let inst_ty = assemble_one(s);
    let expect = InstType::I { imm: 31, rs1: 6, funct3: 0b001, rd: 5, opcode: 0b0010011 };
    assert_eq!(inst_ty, expect);
}

#[test]
fn test_assembler_r_srli() {
    let s: &str = "srli 5, 6, 10\n";
    let inst_ty = assemble_one(s);
    let expect = InstType::I { imm: 10, rs1: 6, funct3: 0b101, rd: 5, opcode: 0b0010011 };
    assert_eq!(inst_ty, expect);
}

#[test]
fn test_assembler_r_slai() {
    let s: &str = "srai 5, 6, 11\n";
    let inst_ty = assemble_one(s);
    let expect = InstType::I { imm: 0b010000000000 + 11, rs1: 6, funct3: 0b101, rd: 5, opcode: 0b0010011 };
    assert_eq!(inst_ty, expect);
}

#[test]
fn test_assembler_branch_with_immediate() {
    let inst_ty = assemble_one("beq 1, 2, -4\n");
    let expect = InstType::B {
        imm_1: 127,
        rs2: 2,
        rs1: 1,
        funct3: 0b000,
        imm_2: 28,
        opcode: 0b1100011,
    };
    assert_eq!(inst_ty, expect);
}

#[test]
fn test_assembler_branch_with_label_is_unresolved() {
    let l = Lexer::new("beq 1, 2, X9\n");
    let p = Parser::new(l).unwrap();
    let mut a = Assembler::new(p);
    assert_eq!(
        a.assemble(),
        Err(AsmError::UnresolvedLabel { label: "X9".to_string() })
    );
}

#[test]
fn test_assembler_sentinel_on_empty_input() {
    assert_eq!(assemble_one(""), InstType::EOINST);
}

#[test]
fn test_assemble_all_two_lines() {
    let l = Lexer::new("lw 6, 16(10)\naddi 6, 16, 10\n");
    let p = Parser::new(l).unwrap();
    let mut a = Assembler::new(p);
    let out = a.assemble_all().unwrap();
    assert_eq!(
        out,
        "00000001000001010010001100000011\n00000000101010000000001100010011\n"
    );
}

#[test]
fn test_assemble_all_empty_input() {
    let l = Lexer::new("");
    let p = Parser::new(l).unwrap();
    let mut a = Assembler::new(p);
    assert_eq!(a.assemble_all().unwrap(), "");
}

#[test]
fn test_assemble_all_stops_at_first_error() {
    let l = Lexer::new("add 1, 2, 3\nlw 6, 16\n");
    let p = Parser::new(l).unwrap();
    let mut a = Assembler::new(p);
    assert!(a.assemble_all().is_err());
}

#[test]
fn test_assembler_label_line_has_no_word() {
    let l = Lexer::new("A1:\n");
    let p = Parser::new(l).unwrap();
    let mut a = Assembler::new(p);
    assert_eq!(
        a.assemble(),
        Err(AsmError::UnencodedLabelLine { label: "A1".to_string() })
    );
}
