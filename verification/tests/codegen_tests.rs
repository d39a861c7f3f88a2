//! Tests of code generation: exact binary strings, field truncation, the
//! decode-by-slicing round trip, and the little-endian hexadecimal dump.

use kas_riscv::code_gen::gen_bin;
use kas_riscv::code_gen::gen_hex;
use kas_riscv::inst::Inst;
use kas_riscv::inst::InstType;

#[test]
fn test_gen_bin_i_format_literal() {
    let inst = Inst {
        ty: InstType::I { imm: 16, rs1: 10, funct3: 0b010, rd: 6, opcode: 0b0000011 },
    };
    assert_eq!(gen_bin(&inst), "00000001000001010010001100000011");
}

#[test]
fn test_gen_bin_s_format_literal() {
    let inst = Inst {
        ty: InstType::S { imm_1: 73, rs2: 6, rs1: 0, funct3: 0b010, imm_2: 21, opcode: 0b0100011 },
    };
    assert_eq!(gen_bin(&inst), "10010010011000000010101010100011");
}

#[test]
fn test_gen_bin_r_format_literal() {
    let inst = Inst {
        ty: InstType::R { funct7: 0b0100000, rs2: 6, rs1: 11, funct3: 0b000, rd: 1, opcode: 0b0110011 },
    };
    assert_eq!(gen_bin(&inst), "01000000011001011000000010110011");
}

#[test]
fn test_gen_bin_negative_immediate_two_complement() {
    let inst = Inst {
        ty: InstType::I { imm: -1, rs1: 2, funct3: 0b010, rd: 3, opcode: 0b0010011 },
    };
    assert_eq!(gen_bin(&inst), "11111111111100010010000110010011");
}

#[test]
fn test_gen_bin_sentinel_is_empty() {
    let inst = Inst { ty: InstType::EOINST };
    assert_eq!(gen_bin(&inst), "");
}

#[test]
fn test_gen_bin_is_always_32_bits() {
    let inst = Inst {
        ty: InstType::R { funct7: 0, rs2: 521, rs1: 100, funct3: 0b110, rd: 0, opcode: 0b0110011 },
    };
    let s = gen_bin(&inst);
    assert_eq!(s.len(), 32);
    assert_eq!(&s[7..12], "01001");
}

#[test]
fn test_round_trip_by_bit_slicing() {
    let inst = Inst {
        ty: InstType::I { imm: 16, rs1: 10, funct3: 0b010, rd: 6, opcode: 0b0000011 },
    };
    let s = gen_bin(&inst);
    assert_eq!(isize::from_str_radix(&s[0..12], 2).unwrap(), 16);
    assert_eq!(isize::from_str_radix(&s[12..17], 2).unwrap(), 10);
    assert_eq!(isize::from_str_radix(&s[17..20], 2).unwrap(), 0b010);
    assert_eq!(isize::from_str_radix(&s[20..25], 2).unwrap(), 6);
    assert_eq!(isize::from_str_radix(&s[25..32], 2).unwrap(), 0b0000011);
}

#[test]
fn test_round_trip_by_bit_slicing_s_format() {
    let inst = Inst {
        ty: InstType::S { imm_1: 73, rs2: 6, rs1: 0, funct3: 0b010, imm_2: 21, opcode: 0b0100011 },
    };
    let s = gen_bin(&inst);
    assert_eq!(isize::from_str_radix(&s[0..7], 2).unwrap(), 73);
    assert_eq!(isize::from_str_radix(&s[7..12], 2).unwrap(), 6);
    assert_eq!(isize::from_str_radix(&s[12..17], 2).unwrap(), 0);
    assert_eq!(isize::from_str_radix(&s[17..20], 2).unwrap(), 0b010);
    assert_eq!(isize::from_str_radix(&s[20..25], 2).unwrap(), 21);
    assert_eq!(isize::from_str_radix(&s[25..32], 2).unwrap(), 0b0100011);
}

#[test]
fn test_gen_hex_literal() {
    let inst = Inst {
        ty: InstType::I { imm: 16, rs1: 10, funct3: 0b010, rd: 6, opcode: 0b0000011 },
    };
    assert_eq!(gen_hex(&inst), "03\n23\n05\n01\n");
}

#[test]
fn test_gen_hex_shape_four_lines_of_two() {
    let inst = Inst {
        ty: InstType::S { imm_1: 73, rs2: 6, rs1: 0, funct3: 0b010, imm_2: 21, opcode: 0b0100011 },
    };
    let out = gen_hex(&inst);
    assert_eq!(out.len(), 12);
    let lines: Vec<&str> = out.split('\n').collect();
    assert_eq!(lines.len(), 5);
    assert_eq!(lines[4], "");
    for i in 0..4 {
        assert_eq!(lines[i].len(), 2);
        assert!(lines[i].chars().all(|c| c.is_ascii_hexdigit()));
    }
}

#[test]
fn test_gen_hex_sentinel_is_empty() {
    let inst = Inst { ty: InstType::EOINST };
    assert_eq!(gen_hex(&inst), "");
}

#[test]
fn test_gen_hex_matches_binary_nibbles() {
    let inst = Inst {
        ty: InstType::R { funct7: 0b0100000, rs2: 6, rs1: 11, funct3: 0b000, rd: 1, opcode: 0b0110011 },
    };
    let b = gen_bin(&inst);
    let word = u32::from_str_radix(&b, 2).unwrap();
    let bytes = word.to_le_bytes();
    let expect = format!(
        "{:02x}\n{:02x}\n{:02x}\n{:02x}\n",
        bytes[0], bytes[1], bytes[2], bytes[3]
    );
    assert_eq!(gen_hex(&inst), expect);
}
