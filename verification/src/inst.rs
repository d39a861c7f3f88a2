//! Concrete instructions: the fixed 32-bit RISC-V field layouts that the
//! encoder renders.

use vstd::prelude::*;

verus! {

/// A concrete instruction in one of the 32-bit RISC-V layouts used here,
/// or the end-of-instruction sentinel.
///
/// Field widths, most significant first:
/// - I-format: imm(12) rs1(5) funct3(3) rd(5) opcode(7)
/// - S-format: imm_1(7) rs2(5) rs1(5) funct3(3) imm_2(5) opcode(7)
/// - R-format: funct7(7) rs2(5) rs1(5) funct3(3) rd(5) opcode(7)
/// - B-format: imm_1(7) rs2(5) rs1(5) funct3(3) imm_2(5) opcode(7)
///
/// The encoder reduces every field to its declared width, so a value outside
/// the width contributes only its low bits.
#[derive(Debug, PartialEq, Eq, Structural)]
pub enum InstType {
    EOINST,
    I { imm: isize, rs1: isize, funct3: isize, rd: isize, opcode: isize },
    S { imm_1: isize, rs2: isize, rs1: isize, funct3: isize, imm_2: isize, opcode: isize },
    R { funct7: isize, rs2: isize, rs1: isize, funct3: isize, rd: isize, opcode: isize },
    B { imm_1: isize, rs2: isize, rs1: isize, funct3: isize, imm_2: isize, opcode: isize },
}

/// A concrete instruction ready for encoding.
#[derive(Debug, PartialEq, Eq, Structural)]
pub struct Inst {
    pub ty: InstType,
}

} // verus!
