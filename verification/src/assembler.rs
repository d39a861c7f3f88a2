//! The assembler driver: attaches the fixed opcode and function-code
//! constants of each mnemonic to a parsed line, and loops the parser to
//! exhaustion, concatenating the encoded lines.

use vstd::prelude::*;
use vstd::arithmetic::div_mod::lemma_mod_bound;
use vstd::arithmetic::power2::lemma2_to64;
use crate::ast::Asm;
use crate::ast::AsmKind;
use crate::ast::AsmSpec;
use crate::code_gen::gen_bin;
use crate::code_gen::spec_bin;
use crate::error::AsmError;
use crate::error::ErrSpec;
use crate::inst::Inst;
use crate::inst::InstType;
use crate::lexer::tok_of;
use crate::lexer::tok_end;
use crate::parser::Parser;
use crate::parser::sp_parse_step;
use crate::parser::sp_parse_ils;
use crate::parser::sp_parse_three;
use crate::parser::sp_parse_branch;
use crate::parser::sp_parse_label;
use crate::parser::lemma_tok_step_bounds;
use crate::token::TokKind;
use crate::token::push_char;
use crate::ast::lines_view;
use crate::label_table::LabelTable;
use crate::label_table::make_label_table;
use crate::label_table::resolve_labels;
use crate::label_table::sp_table;
use crate::label_table::sp_resolve;

verus! {

/// The concrete encoding of a resolved branch: the offset split like a store
/// immediate, the compared registers taken from the parsed `rd` and `rs1`
/// operands, and the branch opcode. A branch still carrying a label cannot be
/// encoded and names the unresolved label.
pub open spec fn sp_encode_branch(
    imm: Option<int>,
    rs1: int,
    rd: int,
    label: Option<Seq<char>>,
    funct3: isize,
) -> Result<InstType, ErrSpec> {
    match imm {
        Some(v) => Ok(
            InstType::B {
                imm_1: ((v % 4096) / 32) as isize,
                rs2: rs1 as isize,
                rs1: rd as isize,
                funct3,
                imm_2: ((v % 4096) % 32) as isize,
                opcode: 0b1100011,
            },
        ),
        None => match label {
            Some(l) => Err(ErrSpec::UnresolvedLabel { label: l }),
            None => Err(ErrSpec::UnresolvedLabel { label: Seq::empty() }),
        },
    }
}

/// The mapping from an abstract assembly line to its concrete instruction:
/// the RISC-V-standard opcode, funct3 and funct7 constants per mnemonic. The
/// end-of-assembly sentinel maps to the end-of-instruction sentinel; a label
/// definition has no instruction word; a branch must carry a resolved
/// immediate. The shift-right-arithmetic immediate gains its marker bit
/// within the 12-bit immediate field.
pub open spec fn sp_encode(a: AsmSpec) -> Result<InstType, ErrSpec> {
    match a {
        AsmSpec::EOASM => Ok(InstType::EOINST),
        AsmSpec::LABEL { l } => Err(ErrSpec::UnencodedLabelLine { label: l }),
        AsmSpec::LW { imm, rs1, rd } => Ok(
            InstType::I {
                imm: imm as isize,
                rs1: rs1 as isize,
                funct3: 0b010,
                rd: rd as isize,
                opcode: 0b0000011,
            },
        ),
        AsmSpec::SW { imm, rs2, rs1 } => Ok(
            InstType::S {
                imm_1: ((imm % 4096) / 32) as isize,
                rs2: rs2 as isize,
                rs1: rs1 as isize,
                funct3: 0b010,
                imm_2: ((imm % 4096) % 32) as isize,
                opcode: 0b0100011,
            },
        ),
        AsmSpec::ADDI { imm, rs1, rd } => Ok(
            InstType::I {
                imm: imm as isize,
                rs1: rs1 as isize,
                funct3: 0b000,
                rd: rd as isize,
                opcode: 0b0010011,
            },
        ),
        AsmSpec::ADD { rs2, rs1, rd } => Ok(
            InstType::R {
                funct7: 0b0000000,
                rs2: rs2 as isize,
                rs1: rs1 as isize,
                funct3: 0b000,
                rd: rd as isize,
                opcode: 0b0110011,
            },
        ),
        AsmSpec::SUB { rs2, rs1, rd } => Ok(
            InstType::R {
                funct7: 0b0100000,
                rs2: rs2 as isize,
                rs1: rs1 as isize,
                funct3: 0b000,
                rd: rd as isize,
                opcode: 0b0110011,
            },
        ),
        AsmSpec::AND { rs2, rs1, rd } => Ok(
            InstType::R {
                funct7: 0b0000000,
                rs2: rs2 as isize,
                rs1: rs1 as isize,
                funct3: 0b111,
                rd: rd as isize,
                opcode: 0b0110011,
            },
        ),
        AsmSpec::OR { rs2, rs1, rd } => Ok(
            InstType::R {
                funct7: 0b0000000,
                rs2: rs2 as isize,
                rs1: rs1 as isize,
                funct3: 0b110,
                rd: rd as isize,
                opcode: 0b0110011,
            },
        ),
        AsmSpec::XOR { rs2, rs1, rd } => Ok(
            InstType::R {
                funct7: 0b0000000,
                rs2: rs2 as isize,
                rs1: rs1 as isize,
                funct3: 0b100,
                rd: rd as isize,
                opcode: 0b0110011,
            },
        ),
        AsmSpec::SLT { rs2, rs1, rd } => Ok(
            InstType::R {
                funct7: 0b0000000,
                rs2: rs2 as isize,
                rs1: rs1 as isize,
                funct3: 0b010,
                rd: rd as isize,
                opcode: 0b0110011,
            },
        ),
        AsmSpec::SLTU { rs2, rs1, rd } => Ok(
            InstType::R {
                funct7: 0b0000000,
                rs2: rs2 as isize,
                rs1: rs1 as isize,
                funct3: 0b011,
                rd: rd as isize,
                opcode: 0b0110011,
            },
        ),
        AsmSpec::SLTI { imm, rs1, rd } => Ok(
            InstType::I {
                imm: imm as isize,
                rs1: rs1 as isize,
                funct3: 0b010,
                rd: rd as isize,
                opcode: 0b0010011,
            },
        ),
        AsmSpec::SLTIU { imm, rs1, rd } => Ok(
            InstType::I {
                imm: imm as isize,
                rs1: rs1 as isize,
                funct3: 0b011,
                rd: rd as isize,
                opcode: 0b0010011,
            },
        ),
        AsmSpec::SLL { rs2, rs1, rd } => Ok(
            InstType::R {
                funct7: 0b0000000,
                rs2: rs2 as isize,
                rs1: rs1 as isize,
                funct3: 0b001,
                rd: rd as isize,
                opcode: 0b0110011,
            },
        ),
        AsmSpec::SRL { rs2, rs1, rd } => Ok(
            InstType::R {
                funct7: 0b0000000,
                rs2: rs2 as isize,
                rs1: rs1 as isize,
                funct3: 0b101,
                rd: rd as isize,
                opcode: 0b0110011,
            },
        ),
        AsmSpec::SRA { rs2, rs1, rd } => Ok(
            InstType::R {
                funct7: 0b0100000,
                rs2: rs2 as isize,
                rs1: rs1 as isize,
                funct3: 0b101,
                rd: rd as isize,
                opcode: 0b0110011,
            },
        ),
        AsmSpec::SLLI { imm, rs1, rd } => Ok(
            InstType::I {
                imm: imm as isize,
                rs1: rs1 as isize,
                funct3: 0b001,
                rd: rd as isize,
                opcode: 0b0010011,
            },
        ),
        AsmSpec::SRLI { imm, rs1, rd } => Ok(
            InstType::I {
                imm: imm as isize,
                rs1: rs1 as isize,
                funct3: 0b101,
                rd: rd as isize,
                opcode: 0b0010011,
            },
        ),
        AsmSpec::SRAI { imm, rs1, rd } => Ok(
            InstType::I {
                imm: ((imm % 4096 + 1024) % 4096) as isize,
                rs1: rs1 as isize,
                funct3: 0b101,
                rd: rd as isize,
                opcode: 0b0010011,
            },
        ),
        AsmSpec::BEQ { imm, rs1, rd, label } => sp_encode_branch(imm, rs1, rd, label, 0b000),
        AsmSpec::BNE { imm, rs1, rd, label } => sp_encode_branch(imm, rs1, rd, label, 0b001),
        AsmSpec::BLT { imm, rs1, rd, label } => sp_encode_branch(imm, rs1, rd, label, 0b100),
        AsmSpec::BGE { imm, rs1, rd, label } => sp_encode_branch(imm, rs1, rd, label, 0b101),
        AsmSpec::BLTU { imm, rs1, rd, label } => sp_encode_branch(imm, rs1, rd, label, 0b110),
        AsmSpec::BGEU { imm, rs1, rd, label } => sp_encode_branch(imm, rs1, rd, label, 0b111),
    }
}

/// The split of a 12-bit store or branch immediate: its top seven and low
/// five bits, as field values.
fn split_imm12(imm: isize) -> (r: (isize, isize))
    ensures
        r.0 as int == ((imm as int) % 4096) / 32,
        r.1 as int == ((imm as int) % 4096) % 32,
{
    proof {
        lemma2_to64();
    }
    let m = crate::code_gen::field_low_bits(imm, 4096);
    proof {
        lemma_mod_bound((imm as int) % 4096, 32);
        lemma_mod_bound(imm as int, 4096);
    }
    ((m / 32) as isize, (m % 32) as isize)
}

/// The concrete form of one branch line.
fn encode_branch(
    imm: &Option<isize>,
    rs1: isize,
    rd: isize,
    label: &Option<String>,
    funct3: isize,
) -> (r: Result<InstType, AsmError>)
    ensures
        match r {
            Ok(t) => sp_encode_branch(
                crate::ast::opt_imm_view(imm),
                rs1 as int,
                rd as int,
                crate::ast::opt_label_view(label),
                funct3,
            ) == Ok::<InstType, ErrSpec>(t),
            Err(e) => sp_encode_branch(
                crate::ast::opt_imm_view(imm),
                rs1 as int,
                rd as int,
                crate::ast::opt_label_view(label),
                funct3,
            ) == Err::<InstType, ErrSpec>(e@),
        },
{
    match imm {
        Some(v) => {
            let split = split_imm12(*v);
            Ok(
                InstType::B {
                    imm_1: split.0,
                    rs2: rs1,
                    rs1: rd,
                    funct3,
                    imm_2: split.1,
                    opcode: 0b1100011,
                },
            )
        },
        None => match label {
            Some(l) => Err(AsmError::UnresolvedLabel { label: l.clone() }),
            None => Err(AsmError::UnresolvedLabel { label: String::new() }),
        },
    }
}

/// The concrete instruction for one abstract assembly line: the fixed
/// opcode/funct constants of its mnemonic attached to its operands.
pub fn encode_asm(a: &Asm) -> (r: Result<Inst, AsmError>)
    ensures
        match r {
            Ok(i) => sp_encode(a@) == Ok::<InstType, ErrSpec>(i.ty),
            Err(e) => sp_encode(a@) == Err::<InstType, ErrSpec>(e@),
        },
{
    let ty = match &a.kind {
        AsmKind::EOASM => InstType::EOINST,
        AsmKind::LABEL { l } => {
            return Err(AsmError::UnencodedLabelLine { label: l.clone() });
        },
        AsmKind::LW { imm, rs1, rd } => InstType::I {
            imm: *imm,
            rs1: *rs1,
            funct3: 0b010,
            rd: *rd,
            opcode: 0b0000011,
        },
        AsmKind::SW { imm, rs2, rs1 } => {
            let split = split_imm12(*imm);
            InstType::S {
                imm_1: split.0,
                rs2: *rs2,
                rs1: *rs1,
                funct3: 0b010,
                imm_2: split.1,
                opcode: 0b0100011,
            }
        },
        AsmKind::ADDI { imm, rs1, rd } => InstType::I {
            imm: *imm,
            rs1: *rs1,
            funct3: 0b000,
            rd: *rd,
            opcode: 0b0010011,
        },
        AsmKind::ADD { rs2, rs1, rd } => InstType::R {
            funct7: 0b0000000,
            rs2: *rs2,
            rs1: *rs1,
            funct3: 0b000,
            rd: *rd,
            opcode: 0b0110011,
        },
        AsmKind::SUB { rs2, rs1, rd } => InstType::R {
            funct7: 0b0100000,
            rs2: *rs2,
            rs1: *rs1,
            funct3: 0b000,
            rd: *rd,
            opcode: 0b0110011,
        },
        AsmKind::AND { rs2, rs1, rd } => InstType::R {
            funct7: 0b0000000,
            rs2: *rs2,
            rs1: *rs1,
            funct3: 0b111,
            rd: *rd,
            opcode: 0b0110011,
        },
        AsmKind::OR { rs2, rs1, rd } => InstType::R {
            funct7: 0b0000000,
            rs2: *rs2,
            rs1: *rs1,
            funct3: 0b110,
            rd: *rd,
            opcode: 0b0110011,
        },
        AsmKind::XOR { rs2, rs1, rd } => InstType::R {
            funct7: 0b0000000,
            rs2: *rs2,
            rs1: *rs1,
            funct3: 0b100,
            rd: *rd,
            opcode: 0b0110011,
        },
        AsmKind::SLT { rs2, rs1, rd } => InstType::R {
            funct7: 0b0000000,
            rs2: *rs2,
            rs1: *rs1,
            funct3: 0b010,
            rd: *rd,
            opcode: 0b0110011,
        },
        AsmKind::SLTU { rs2, rs1, rd } => InstType::R {
            funct7: 0b0000000,
            rs2: *rs2,
            rs1: *rs1,
            funct3: 0b011,
            rd: *rd,
            opcode: 0b0110011,
        },
        AsmKind::SLTI { imm, rs1, rd } => InstType::I {
            imm: *imm,
            rs1: *rs1,
            funct3: 0b010,
            rd: *rd,
            opcode: 0b0010011,
        },
        AsmKind::SLTIU { imm, rs1, rd } => InstType::I {
            imm: *imm,
            rs1: *rs1,
            funct3: 0b011,
            rd: *rd,
            opcode: 0b0010011,
        },
        AsmKind::SLL { rs2, rs1, rd } => InstType::R {
            funct7: 0b0000000,
            rs2: *rs2,
            rs1: *rs1,
            funct3: 0b001,
            rd: *rd,
            opcode: 0b0110011,
        },
        AsmKind::SRL { rs2, rs1, rd } => InstType::R {
            funct7: 0b0000000,
            rs2: *rs2,
            rs1: *rs1,
            funct3: 0b101,
            rd: *rd,
            opcode: 0b0110011,
        },
        AsmKind::SRA { rs2, rs1, rd } => InstType::R {
            funct7: 0b0100000,
            rs2: *rs2,
            rs1: *rs1,
            funct3: 0b101,
            rd: *rd,
            opcode: 0b0110011,
        },
        AsmKind::SLLI { imm, rs1, rd } => InstType::I {
            imm: *imm,
            rs1: *rs1,
            funct3: 0b001,
            rd: *rd,
            opcode: 0b0010011,
        },
        AsmKind::SRLI { imm, rs1, rd } => InstType::I {
            imm: *imm,
            rs1: *rs1,
            funct3: 0b101,
            rd: *rd,
            opcode: 0b0010011,
        },
        AsmKind::SRAI { imm, rs1, rd } => {
            let m = crate::code_gen::field_low_bits(*imm, 4096);
            proof {
                lemma2_to64();
                lemma_mod_bound((*imm as int) % 4096 + 1024, 4096);
            }
            InstType::I {
                imm: ((m + 1024) % 4096) as isize,
                rs1: *rs1,
                funct3: 0b101,
                rd: *rd,
                opcode: 0b0010011,
            }
        },
        AsmKind::BEQ { imm, rs1, rd, label } => {
            return match encode_branch(imm, *rs1, *rd, label, 0b000) {
                Ok(t) => Ok(Inst { ty: t }),
                Err(e) => Err(e),
            };
        },
        AsmKind::BNE { imm, rs1, rd, label } => {
            return match encode_branch(imm, *rs1, *rd, label, 0b001) {
                Ok(t) => Ok(Inst { ty: t }),
                Err(e) => Err(e),
            };
        },
        AsmKind::BLT { imm, rs1, rd, label } => {
            return match encode_branch(imm, *rs1, *rd, label, 0b100) {
                Ok(t) => Ok(Inst { ty: t }),
                Err(e) => Err(e),
            };
        },
        AsmKind::BGE { imm, rs1, rd, label } => {
            return match encode_branch(imm, *rs1, *rd, label, 0b101) {
                Ok(t) => Ok(Inst { ty: t }),
                Err(e) => Err(e),
            };
        },
        AsmKind::BLTU { imm, rs1, rd, label } => {
            return match encode_branch(imm, *rs1, *rd, label, 0b110) {
                Ok(t) => Ok(Inst { ty: t }),
                Err(e) => Err(e),
            };
        },
        AsmKind::BGEU { imm, rs1, rd, label } => {
            return match encode_branch(imm, *rs1, *rd, label, 0b111) {
                Ok(t) => Ok(Inst { ty: t }),
                Err(e) => Err(e),
            };
        },
    };
    Ok(Inst { ty })
}

/// One parse-and-encode step: the concrete instruction of the line at `p`
/// and the position after it, or the first error met.
pub open spec fn sp_assemble_step(s: Seq<u8>, p: int) -> Result<(InstType, int), ErrSpec> {
    match sp_parse_step(s, p) {
        Err(e) => Err(e),
        Ok((a, q)) => match sp_encode(a) {
            Err(e) => Err(e),
            Ok(t) => Ok((t, q)),
        },
    }
}

/// The positions of one load/store line stay within the input.
proof fn lemma_ils_bounds(s: Seq<u8>, p: int)
    requires
        0 <= p <= s.len(),
    ensures
        match sp_parse_ils(s, p) {
            Ok(t) => p <= t.1 <= s.len() && (tok_of(s, p) != Some(TokKind::EOF) ==> p < t.1),
            Err(_) => true,
        },
{
    lemma_tok_step_bounds(s, p);
    let p1 = tok_end(s, p);
    lemma_tok_step_bounds(s, p1);
    let p2 = tok_end(s, p1);
    lemma_tok_step_bounds(s, p2);
    let p3 = tok_end(s, p2);
    lemma_tok_step_bounds(s, p3);
    let p4 = tok_end(s, p3);
    lemma_tok_step_bounds(s, p4);
    let p5 = tok_end(s, p4);
    lemma_tok_step_bounds(s, p5);
    let p6 = tok_end(s, p5);
    lemma_tok_step_bounds(s, p6);
    let p7 = tok_end(s, p6);
    lemma_tok_step_bounds(s, p7);
}

/// The positions of one three-operand line stay within the input.
proof fn lemma_three_bounds(s: Seq<u8>, p: int)
    requires
        0 <= p <= s.len(),
    ensures
        match sp_parse_three(s, p) {
            Ok(t) => p <= t.1 <= s.len() && (tok_of(s, p) != Some(TokKind::EOF) ==> p < t.1),
            Err(_) => true,
        },
{
    lemma_tok_step_bounds(s, p);
    let p1 = tok_end(s, p);
    lemma_tok_step_bounds(s, p1);
    let p2 = tok_end(s, p1);
    lemma_tok_step_bounds(s, p2);
    let p3 = tok_end(s, p2);
    lemma_tok_step_bounds(s, p3);
    let p4 = tok_end(s, p3);
    lemma_tok_step_bounds(s, p4);
    let p5 = tok_end(s, p4);
    lemma_tok_step_bounds(s, p5);
    let p6 = tok_end(s, p5);
    lemma_tok_step_bounds(s, p6);
}

/// The positions of one branch line stay within the input.
proof fn lemma_branch_bounds(s: Seq<u8>, p: int)
    requires
        0 <= p <= s.len(),
    ensures
        match sp_parse_branch(s, p) {
            Ok(t) => p <= t.1 <= s.len() && (tok_of(s, p) != Some(TokKind::EOF) ==> p < t.1),
            Err(_) => true,
        },
{
    lemma_tok_step_bounds(s, p);
    let p1 = tok_end(s, p);
    lemma_tok_step_bounds(s, p1);
    let p2 = tok_end(s, p1);
    lemma_tok_step_bounds(s, p2);
    let p3 = tok_end(s, p2);
    lemma_tok_step_bounds(s, p3);
    let p4 = tok_end(s, p3);
    lemma_tok_step_bounds(s, p4);
    let p5 = tok_end(s, p4);
    lemma_tok_step_bounds(s, p5);
    let p6 = tok_end(s, p5);
    lemma_tok_step_bounds(s, p6);
}

/// The positions of one label-definition line stay within the input.
proof fn lemma_label_bounds(s: Seq<u8>, p: int)
    requires
        0 <= p <= s.len(),
    ensures
        match sp_parse_label(s, p) {
            Ok(q) => p <= q <= s.len() && (tok_of(s, p) != Some(TokKind::EOF) ==> p < q),
            Err(_) => true,
        },
{
    lemma_tok_step_bounds(s, p);
    let p1 = tok_end(s, p);
    lemma_tok_step_bounds(s, p1);
    let p2 = tok_end(s, p1);
    lemma_tok_step_bounds(s, p2);
}

/// One parse step never moves backwards nor past the input, and every line
/// but the end-of-assembly sentinel makes strict progress.
#[verifier::rlimit(100)]
pub proof fn lemma_parse_step_progress(s: Seq<u8>, p: int)
    requires
        0 <= p <= s.len(),
    ensures
        match sp_parse_step(s, p) {
            Ok(t) => p <= t.1 <= s.len() && (!(t.0 is EOASM) ==> p < t.1),
            Err(_) => true,
        },
{
    reveal(sp_parse_step);
    lemma_ils_bounds(s, p);
    lemma_three_bounds(s, p);
    lemma_branch_bounds(s, p);
    lemma_label_bounds(s, p);
}

/// The whole program beginning at `p`: every line in order, ending with the
/// end-of-assembly sentinel, or the first error met.
pub open spec fn sp_program(s: Seq<u8>, p: int) -> Result<Seq<AsmSpec>, ErrSpec>
    decreases s.len() - p,
        when 0 <= p <= s.len()
        via sp_program_decreases
{
    match sp_parse_step(s, p) {
        Err(e) => Err(e),
        Ok((a, q)) => if a is EOASM {
            Ok(seq![a])
        } else {
            match sp_program(s, q) {
                Err(e) => Err(e),
                Ok(rest) => Ok(seq![a] + rest),
            }
        },
    }
}

#[via_fn]
proof fn sp_program_decreases(s: Seq<u8>, p: int) {
    lemma_parse_step_progress(s, p);
}

/// The binary rendering of the whole program beginning at `p`: the encoded
/// word of every line, newline-separated, or the first error met.
pub open spec fn sp_assemble_all(s: Seq<u8>, p: int) -> Result<Seq<char>, ErrSpec>
    decreases s.len() - p,
        when 0 <= p <= s.len()
        via sp_assemble_all_decreases
{
    match sp_parse_step(s, p) {
        Err(e) => Err(e),
        Ok((a, q)) => if a is EOASM {
            Ok(Seq::empty())
        } else {
            match sp_encode(a) {
                Err(e) => Err(e),
                Ok(t) => match sp_assemble_all(s, q) {
                    Err(e) => Err(e),
                    Ok(rest) => Ok(spec_bin(t) + seq!['\n'] + rest),
                },
            }
        },
    }
}

#[via_fn]
proof fn sp_assemble_all_decreases(s: Seq<u8>, p: int) {
    lemma_parse_step_progress(s, p);
}

/// One unfolding of the whole-program specification: a parsed sentinel ends
/// the program, and any other parsed line stands before the rest.
#[verifier::rlimit(100)]
pub proof fn lemma_program_step(s: Seq<u8>, p: int, a: AsmSpec, q: int)
    requires
        0 <= p <= s.len(),
        sp_parse_step(s, p) == Ok::<(AsmSpec, int), ErrSpec>((a, q)),
    ensures
        a is EOASM ==> sp_program(s, p) == Ok::<Seq<AsmSpec>, ErrSpec>(seq![a]),
        !(a is EOASM) ==> sp_program(s, p) == (match sp_program(s, q) {
            Ok(rest) => Ok::<Seq<AsmSpec>, ErrSpec>(seq![a] + rest),
            Err(e) => Err::<Seq<AsmSpec>, ErrSpec>(e),
        }),
{
    lemma_parse_step_progress(s, p);
    reveal_with_fuel(sp_program, 2);
}

/// A parse error is the whole program's error.
#[verifier::rlimit(100)]
pub proof fn lemma_program_step_err(s: Seq<u8>, p: int, e: ErrSpec)
    requires
        0 <= p <= s.len(),
        sp_parse_step(s, p) == Err::<(AsmSpec, int), ErrSpec>(e),
    ensures
        sp_program(s, p) == Err::<Seq<AsmSpec>, ErrSpec>(e),
{
    reveal_with_fuel(sp_program, 2);
}

/// A sequence of lines prefixed onto the success side of a result.

/// A sequence of characters prefixed onto the success side of a result.
pub open spec fn prepend_chars(pre: Seq<char>, r: Result<Seq<char>, ErrSpec>) -> Result<
    Seq<char>,
    ErrSpec,
> {
    match r {
        Ok(t) => Ok(pre + t),
        Err(e) => Err(e),
    }
}

/// The rendering of resolved lines from index `i`: each instruction line as
/// its 32-bit binary word and a newline; a label-definition line produces no
/// word; the end-of-assembly sentinel ends the output.
pub open spec fn sp_render(lines: Seq<AsmSpec>, i: int) -> Result<Seq<char>, ErrSpec>
    decreases lines.len() - i,
{
    if i < 0 || i >= lines.len() {
        Ok(Seq::empty())
    } else {
        match lines[i] {
            AsmSpec::EOASM => Ok(Seq::empty()),
            AsmSpec::LABEL { l } => sp_render(lines, i + 1),
            _ => match sp_encode(lines[i]) {
                Err(e) => Err(e),
                Ok(t) => match sp_render(lines, i + 1) {
                    Err(e) => Err(e),
                    Ok(rest) => Ok(spec_bin(t) + seq!['\n'] + rest),
                },
            },
        }
    }
}

/// The assembler: it owns the parser exclusively and drives it to exhaustion.
pub struct Assembler {
    pub p: Parser,
}

impl Assembler {
    /// An assembler over the given parser.
    pub fn new(p: Parser) -> (r: Assembler)
        ensures
            r.p == p,
    {
        Self { p }
    }

    /// Parses one line and attaches its encoding constants: one concrete
    /// instruction per call, with the end-of-assembly sentinel mapped to the
    /// end-of-instruction sentinel.
    pub fn assemble(&mut self) -> (r: Result<Inst, AsmError>)
        requires
            old(self).p.wf(),
        ensures
            final(self).p.input() == old(self).p.input(),
            match r {
                Ok(i) => final(self).p.wf() && sp_assemble_step(
                    old(self).p.input(),
                    old(self).p.pos@,
                ) == Ok::<(InstType, int), ErrSpec>((i.ty, final(self).p.pos@)),
                Err(e) => sp_assemble_step(old(self).p.input(), old(self).p.pos@) == Err::<
                    (InstType, int),
                    ErrSpec,
                >(e@),
            },
    {
        let a = match self.p.parse() {
            Ok(a) => a,
            Err(e) => {
                return Err(e);
            },
        };
        match encode_asm(&a) {
            Ok(i) => Ok(i),
            Err(e) => Err(e),
        }
    }

/// Runs the parser to exhaustion once, collecting every parsed line and
    /// the label table binding each label to its program-counter offset.
    pub fn make_symbol_table(&mut self) -> (r: Result<(Vec<Asm>, LabelTable), AsmError>)
        requires
            old(self).p.wf(),
        ensures
            final(self).p.input() == old(self).p.input(),
            match r {
                Ok(pair) => sp_program(old(self).p.input(), old(self).p.pos@) == Ok::<
                    Seq<AsmSpec>,
                    ErrSpec,
                >(lines_view(pair.0@)) && sp_table(lines_view(pair.0@)) == Ok::<
                    Seq<(Seq<char>, int)>,
                    ErrSpec,
                >(pair.1@),
                Err(e) => match sp_program(old(self).p.input(), old(self).p.pos@) {
                    Err(e2) => e@ == e2,
                    Ok(ls) => sp_table(ls) == Err::<Seq<(Seq<char>, int)>, ErrSpec>(e@),
                },
            },
    {
        make_label_table(&mut self.p)
    }

    /// The two-pass assembly: collects the label table, resolves every branch
    /// label into its immediate offset, and renders every instruction line as
    /// its 32-bit binary word followed by a newline. The first error of any
    /// pass aborts the run and is relayed unchanged.
    pub fn assemble_all_resolved(&mut self) -> (r: Result<String, AsmError>)
        requires
            old(self).p.wf(),
        ensures
            ({
                let prog = sp_program(old(self).p.input(), old(self).p.pos@);
                match r {
                    Ok(out) => match prog {
                        Ok(ls) => match sp_table(ls) {
                            Ok(tab) => match sp_resolve(ls, tab) {
                                Ok(rs) => sp_render(rs, 0) == Ok::<Seq<char>, ErrSpec>(out@),
                                Err(_) => false,
                            },
                            Err(_) => false,
                        },
                        Err(_) => false,
                    },
                    Err(e) => match prog {
                        Err(e2) => e@ == e2,
                        Ok(ls) => match sp_table(ls) {
                            Err(e2) => e@ == e2,
                            Ok(tab) => match sp_resolve(ls, tab) {
                                Err(e2) => e@ == e2,
                                Ok(rs) => sp_render(rs, 0) == Err::<Seq<char>, ErrSpec>(e@),
                            },
                        },
                    },
                }
            }),
    {
        let pair = match self.make_symbol_table() {
            Ok(pair) => pair,
            Err(e) => {
                return Err(e);
            },
        };
        let resolved = match resolve_labels(&pair.0, &pair.1) {
            Ok(v) => v,
            Err(e) => {
                return Err(e);
            },
        };
        let ghost rs = lines_view(resolved@);
        let mut out = String::new();
        let mut i: usize = 0;
        while i < resolved.len()
            invariant
                i <= resolved@.len(),
                rs == lines_view(resolved@),
                sp_program(old(self).p.input(), old(self).p.pos@) matches Ok(ls)
                    && sp_table(ls) matches Ok(tab) && sp_resolve(ls, tab) == Ok::<
                    Seq<AsmSpec>,
                    ErrSpec,
                >(rs),
                sp_render(rs, 0) == prepend_chars(out@, sp_render(rs, i as int)),
            decreases resolved@.len() - i,
        {
            let stop = match &resolved[i].kind {
                AsmKind::EOASM => true,
                _ => false,
            };
            if stop {
                proof {
                    assert(rs[i as int] is EOASM);
                    assert(out@ + Seq::<char>::empty() =~= out@);
                }
                return Ok(out);
            }
            let is_label = match &resolved[i].kind {
                AsmKind::LABEL { .. } => true,
                _ => false,
            };
            if !is_label {
                let inst = match encode_asm(&resolved[i]) {
                    Ok(x) => x,
                    Err(e) => {
                        return Err(e);
                    },
                };
                let b = gen_bin(&inst);
                let ghost outpre = out@;
                out.append(b.as_str());
                push_char(&mut out, '\n');
                proof {
                    assert(out@ =~= outpre + (spec_bin(inst.ty) + seq!['\n']));
                    if let Ok(rest) = sp_render(rs, i + 1) {
                        assert(outpre + (spec_bin(inst.ty) + seq!['\n'] + rest) =~= out@ + rest);
                    }
                }
            }
            i = i + 1;
        }
        proof {
            assert(out@ + Seq::<char>::empty() =~= out@);
        }
        Ok(out)
    }

    /// Runs the parser to exhaustion, rendering every line as its 32-bit
    /// binary digit string followed by a newline, and concatenating the
    /// lines. The first error aborts the run and is relayed unchanged.
    pub fn assemble_all(&mut self) -> (r: Result<String, AsmError>)
        requires
            old(self).p.wf(),
        ensures
            match r {
                Ok(out) => sp_assemble_all(old(self).p.input(), old(self).p.pos@) == Ok::<
                    Seq<char>,
                    ErrSpec,
                >(out@),
                Err(e) => sp_assemble_all(old(self).p.input(), old(self).p.pos@) == Err::<
                    Seq<char>,
                    ErrSpec,
                >(e@),
            },
    {
        let mut src = String::new();
        loop
            invariant
                self.p.wf(),
                self.p.input() == old(self).p.input(),
                sp_assemble_all(old(self).p.input(), old(self).p.pos@) == prepend_chars(
                    src@,
                    sp_assemble_all(self.p.input(), self.p.pos@),
                ),
            decreases self.p.input().len() - self.p.pos@,
        {
            let ghost inp = self.p.input();
            let ghost cur = self.p.pos@;
            proof {
                lemma_parse_step_progress(inp, cur);
            }
            let i = match self.assemble() {
                Ok(i) => i,
                Err(e) => {
                    return Err(e);
                },
            };
            let done = match &i.ty {
                InstType::EOINST => true,
                _ => false,
            };
            if done {
                proof {
                    let stp = sp_parse_step(inp, cur);
                    if let Ok((a, q)) = stp {
                        assert(a is EOASM);
                        assert(sp_assemble_all(inp, cur) == Ok::<Seq<char>, ErrSpec>(
                            Seq::empty(),
                        ));
                        assert(src@ + Seq::<char>::empty() =~= src@);
                    }
                }
                return Ok(src);
            }
            let b = gen_bin(&i);
            let ghost srcpre = src@;
            src.append(b.as_str());
            push_char(&mut src, '\n');
            proof {
                let stp = sp_parse_step(inp, cur);
                if let Ok((a, q)) = stp {
                    assert(sp_assemble_all(inp, cur) == prepend_chars(
                        spec_bin(i.ty) + seq!['\n'],
                        sp_assemble_all(inp, q),
                    ));
                    assert(src@ =~= srcpre + (spec_bin(i.ty) + seq!['\n']));
                    if let Ok(rest) = sp_assemble_all(inp, q) {
                        assert(srcpre + (spec_bin(i.ty) + seq!['\n'] + rest) =~= src@ + rest);
                    }
                }
            }
        }
    }
}


/// Law: every valid load line `LW rd, imm(rs1)` with registers below 32 and
/// an immediate representable in 12 signed bits encodes to the I-format bit
/// layout `imm[11:0] | rs1[4:0] | 010 | rd[4:0] | 0000011`, read most
/// significant bit first; the immediate field holds the two's-complement
/// pattern `imm % 4096`.
pub proof fn lemma_lw_line_encoding(imm: int, rs1: int, rd: int)
    requires
        0 <= rd < 32,
        0 <= rs1 < 32,
        -2048 <= imm < 2048,
    ensures
        sp_encode(AsmSpec::LW { imm, rs1, rd }) == Ok::<InstType, ErrSpec>(
            InstType::I {
                imm: imm as isize,
                rs1: rs1 as isize,
                funct3: 0b010,
                rd: rd as isize,
                opcode: 0b0000011,
            },
        ),
        spec_bin(
            InstType::I {
                imm: imm as isize,
                rs1: rs1 as isize,
                funct3: 0b010,
                rd: rd as isize,
                opcode: 0b0000011,
            },
        ) == crate::code_gen::bits_of(imm % 4096, 12) + crate::code_gen::bits_of(rs1, 5) + seq![
            '0',
            '1',
            '0',
        ] + crate::code_gen::bits_of(rd, 5) + seq!['0', '0', '0', '0', '0', '1', '1'],
{
    lemma2_to64();
    vstd::arithmetic::div_mod::lemma_small_mod(rs1 as nat, 32);
    vstd::arithmetic::div_mod::lemma_small_mod(rd as nat, 32);
    vstd::arithmetic::div_mod::lemma_small_mod(2nat, 8);
    vstd::arithmetic::div_mod::lemma_small_mod(3nat, 128);
    lemma_mod_bound(imm, 4096);
    assert(crate::code_gen::fld(imm as isize, 12) == imm % 4096);
    assert(crate::code_gen::bits_of(2, 3) =~= seq!['0', '1', '0']) by {
        reveal_with_fuel(crate::code_gen::bits_of, 4);
    }
    assert(crate::code_gen::bits_of(3, 7) =~= seq!['0', '0', '0', '0', '0', '1', '1']) by {
        reveal_with_fuel(crate::code_gen::bits_of, 8);
    }
}

/// Law: for every store line `SW rs2, imm(rs1)`, the immediate splits into
/// its top seven bits `(imm / 32) % 128` and its low five bits `imm % 32` —
/// the arithmetic forms of `(imm >> 5) & 0x7F` and `imm & 0x1F` — and the
/// S-format layout is `imm_hi | rs2 | rs1 | 010 | imm_lo | 0100011`.
pub proof fn lemma_sw_line_encoding(imm: int, rs2: int, rs1: int)
    requires
        0 <= rs2 < 32,
        0 <= rs1 < 32,
    ensures
        sp_encode(AsmSpec::SW { imm, rs2, rs1 }) == Ok::<InstType, ErrSpec>(
            InstType::S {
                imm_1: ((imm / 32) % 128) as isize,
                rs2: rs2 as isize,
                rs1: rs1 as isize,
                funct3: 0b010,
                imm_2: (imm % 32) as isize,
                opcode: 0b0100011,
            },
        ),
        spec_bin(
            InstType::S {
                imm_1: ((imm / 32) % 128) as isize,
                rs2: rs2 as isize,
                rs1: rs1 as isize,
                funct3: 0b010,
                imm_2: (imm % 32) as isize,
                opcode: 0b0100011,
            },
        ) == crate::code_gen::bits_of((imm / 32) % 128, 7) + crate::code_gen::bits_of(rs2, 5)
            + crate::code_gen::bits_of(rs1, 5) + seq!['0', '1', '0'] + crate::code_gen::bits_of(
            imm % 32,
            5,
        ) + seq!['0', '1', '0', '0', '0', '1', '1'],
{
    lemma2_to64();
    let m = imm % 4096;
    lemma_mod_bound(imm, 4096);
    vstd::arithmetic::div_mod::lemma_fundamental_div_mod(imm, 4096);
    let k = imm / 4096;
    vstd::arithmetic::div_mod::lemma_fundamental_div_mod(m, 32);
    lemma_mod_bound(m, 32);
    assert(imm == 32 * (128 * k + m / 32) + (m % 32));
    vstd::arithmetic::div_mod::lemma_fundamental_div_mod_converse(
        imm,
        32,
        128 * k + m / 32,
        m % 32,
    );
    assert(imm / 32 == 128 * k + m / 32 && imm % 32 == m % 32);
    assert(m / 32 < 128 && 0 <= m / 32) by {
        assert(32 * (m / 32) <= m < 4096);
    }
    vstd::arithmetic::div_mod::lemma_fundamental_div_mod_converse(imm / 32, 128, k, m / 32);
    assert((imm / 32) % 128 == m / 32);
    vstd::arithmetic::div_mod::lemma_small_mod(rs2 as nat, 32);
    vstd::arithmetic::div_mod::lemma_small_mod(rs1 as nat, 32);
    vstd::arithmetic::div_mod::lemma_small_mod(2nat, 8);
    vstd::arithmetic::div_mod::lemma_small_mod(35nat, 128);
    vstd::arithmetic::div_mod::lemma_small_mod((m / 32) as nat, 128);
    vstd::arithmetic::div_mod::lemma_small_mod((m % 32) as nat, 32);
    assert(crate::code_gen::bits_of(2, 3) =~= seq!['0', '1', '0']) by {
        reveal_with_fuel(crate::code_gen::bits_of, 4);
    }
    assert(crate::code_gen::bits_of(35, 7) =~= seq!['0', '1', '0', '0', '0', '1', '1']) by {
        reveal_with_fuel(crate::code_gen::bits_of, 8);
    }
}

} // verus!
