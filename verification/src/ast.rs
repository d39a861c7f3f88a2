//! Abstract assembly instructions: one tagged value per parsed source line.

use vstd::prelude::*;

verus! {

/// Mathematical model of an abstract assembly line: operands are unbounded
/// integers and label names are character sequences. For a branch, exactly
/// one of `imm` and `label` is populated by the parser.
pub enum AsmSpec {
    EOASM,
    LABEL { l: Seq<char> },
    LW { imm: int, rs1: int, rd: int },
    SW { imm: int, rs2: int, rs1: int },
    ADDI { imm: int, rs1: int, rd: int },
    ADD { rs2: int, rs1: int, rd: int },
    SUB { rs2: int, rs1: int, rd: int },
    AND { rs2: int, rs1: int, rd: int },
    OR { rs2: int, rs1: int, rd: int },
    XOR { rs2: int, rs1: int, rd: int },
    SLT { rs2: int, rs1: int, rd: int },
    SLTU { rs2: int, rs1: int, rd: int },
    SLTI { imm: int, rs1: int, rd: int },
    SLTIU { imm: int, rs1: int, rd: int },
    SLL { rs2: int, rs1: int, rd: int },
    SRL { rs2: int, rs1: int, rd: int },
    SRA { rs2: int, rs1: int, rd: int },
    SLLI { imm: int, rs1: int, rd: int },
    SRLI { imm: int, rs1: int, rd: int },
    SRAI { imm: int, rs1: int, rd: int },
    BEQ { imm: Option<int>, rs1: int, rd: int, label: Option<Seq<char>> },
    BNE { imm: Option<int>, rs1: int, rd: int, label: Option<Seq<char>> },
    BLT { imm: Option<int>, rs1: int, rd: int, label: Option<Seq<char>> },
    BGE { imm: Option<int>, rs1: int, rd: int, label: Option<Seq<char>> },
    BLTU { imm: Option<int>, rs1: int, rd: int, label: Option<Seq<char>> },
    BGEU { imm: Option<int>, rs1: int, rd: int, label: Option<Seq<char>> },
}

/// The view of an optional immediate operand.
pub open spec fn opt_imm_view(x: &Option<isize>) -> Option<int> {
    match x {
        Some(v) => Some(*v as int),
        None => None,
    }
}

/// The view of an optional label operand.
pub open spec fn opt_label_view(x: &Option<String>) -> Option<Seq<char>> {
    match x {
        Some(s) => Some(s@),
        None => None,
    }
}

/// An abstract assembly line: the sentinel end of assembly, a label
/// definition, or one instruction with its operands. For a branch, exactly
/// one of `imm` and `label` is populated by the parser.
#[derive(Debug, Clone, PartialEq, Eq)]
pub enum AsmKind {
    EOASM,
    LABEL { l: String },
    LW { imm: isize, rs1: isize, rd: isize },
    SW { imm: isize, rs2: isize, rs1: isize },
    ADDI { imm: isize, rs1: isize, rd: isize },
    ADD { rs2: isize, rs1: isize, rd: isize },
    SUB { rs2: isize, rs1: isize, rd: isize },
    AND { rs2: isize, rs1: isize, rd: isize },
    OR { rs2: isize, rs1: isize, rd: isize },
    XOR { rs2: isize, rs1: isize, rd: isize },
    SLT { rs2: isize, rs1: isize, rd: isize },
    SLTU { rs2: isize, rs1: isize, rd: isize },
    SLTI { imm: isize, rs1: isize, rd: isize },
    SLTIU { imm: isize, rs1: isize, rd: isize },
    SLL { rs2: isize, rs1: isize, rd: isize },
    SRL { rs2: isize, rs1: isize, rd: isize },
    SRA { rs2: isize, rs1: isize, rd: isize },
    SLLI { imm: isize, rs1: isize, rd: isize },
    SRLI { imm: isize, rs1: isize, rd: isize },
    SRAI { imm: isize, rs1: isize, rd: isize },
    BEQ { imm: Option<isize>, rs1: isize, rd: isize, label: Option<String> },
    BNE { imm: Option<isize>, rs1: isize, rd: isize, label: Option<String> },
    BLT { imm: Option<isize>, rs1: isize, rd: isize, label: Option<String> },
    BGE { imm: Option<isize>, rs1: isize, rd: isize, label: Option<String> },
    BLTU { imm: Option<isize>, rs1: isize, rd: isize, label: Option<String> },
    BGEU { imm: Option<isize>, rs1: isize, rd: isize, label: Option<String> },
}

impl View for AsmKind {
    type V = AsmSpec;

    open spec fn view(&self) -> AsmSpec {
        match self {
            AsmKind::EOASM => AsmSpec::EOASM,
            AsmKind::LABEL { l } => AsmSpec::LABEL { l: l@ },
            AsmKind::LW { imm, rs1, rd } => AsmSpec::LW {
                imm: *imm as int,
                rs1: *rs1 as int,
                rd: *rd as int,
            },
            AsmKind::SW { imm, rs2, rs1 } => AsmSpec::SW {
                imm: *imm as int,
                rs2: *rs2 as int,
                rs1: *rs1 as int,
            },
            AsmKind::ADDI { imm, rs1, rd } => AsmSpec::ADDI {
                imm: *imm as int,
                rs1: *rs1 as int,
                rd: *rd as int,
            },
            AsmKind::ADD { rs2, rs1, rd } => AsmSpec::ADD {
                rs2: *rs2 as int,
                rs1: *rs1 as int,
                rd: *rd as int,
            },
            AsmKind::SUB { rs2, rs1, rd } => AsmSpec::SUB {
                rs2: *rs2 as int,
                rs1: *rs1 as int,
                rd: *rd as int,
            },
            AsmKind::AND { rs2, rs1, rd } => AsmSpec::AND {
                rs2: *rs2 as int,
                rs1: *rs1 as int,
                rd: *rd as int,
            },
            AsmKind::OR { rs2, rs1, rd } => AsmSpec::OR {
                rs2: *rs2 as int,
                rs1: *rs1 as int,
                rd: *rd as int,
            },
            AsmKind::XOR { rs2, rs1, rd } => AsmSpec::XOR {
                rs2: *rs2 as int,
                rs1: *rs1 as int,
                rd: *rd as int,
            },
            AsmKind::SLT { rs2, rs1, rd } => AsmSpec::SLT {
                rs2: *rs2 as int,
                rs1: *rs1 as int,
                rd: *rd as int,
            },
            AsmKind::SLTU { rs2, rs1, rd } => AsmSpec::SLTU {
                rs2: *rs2 as int,
                rs1: *rs1 as int,
                rd: *rd as int,
            },
            AsmKind::SLTI { imm, rs1, rd } => AsmSpec::SLTI {
                imm: *imm as int,
                rs1: *rs1 as int,
                rd: *rd as int,
            },
            AsmKind::SLTIU { imm, rs1, rd } => AsmSpec::SLTIU {
                imm: *imm as int,
                rs1: *rs1 as int,
                rd: *rd as int,
            },
            AsmKind::SLL { rs2, rs1, rd } => AsmSpec::SLL {
                rs2: *rs2 as int,
                rs1: *rs1 as int,
                rd: *rd as int,
            },
            AsmKind::SRL { rs2, rs1, rd } => AsmSpec::SRL {
                rs2: *rs2 as int,
                rs1: *rs1 as int,
                rd: *rd as int,
            },
            AsmKind::SRA { rs2, rs1, rd } => AsmSpec::SRA {
                rs2: *rs2 as int,
                rs1: *rs1 as int,
                rd: *rd as int,
            },
            AsmKind::SLLI { imm, rs1, rd } => AsmSpec::SLLI {
                imm: *imm as int,
                rs1: *rs1 as int,
                rd: *rd as int,
            },
            AsmKind::SRLI { imm, rs1, rd } => AsmSpec::SRLI {
                imm: *imm as int,
                rs1: *rs1 as int,
                rd: *rd as int,
            },
            AsmKind::SRAI { imm, rs1, rd } => AsmSpec::SRAI {
                imm: *imm as int,
                rs1: *rs1 as int,
                rd: *rd as int,
            },
            AsmKind::BEQ { imm, rs1, rd, label } => AsmSpec::BEQ {
                imm: opt_imm_view(imm),
                rs1: *rs1 as int,
                rd: *rd as int,
                label: opt_label_view(label),
            },
            AsmKind::BNE { imm, rs1, rd, label } => AsmSpec::BNE {
                imm: opt_imm_view(imm),
                rs1: *rs1 as int,
                rd: *rd as int,
                label: opt_label_view(label),
            },
            AsmKind::BLT { imm, rs1, rd, label } => AsmSpec::BLT {
                imm: opt_imm_view(imm),
                rs1: *rs1 as int,
                rd: *rd as int,
                label: opt_label_view(label),
            },
            AsmKind::BGE { imm, rs1, rd, label } => AsmSpec::BGE {
                imm: opt_imm_view(imm),
                rs1: *rs1 as int,
                rd: *rd as int,
                label: opt_label_view(label),
            },
            AsmKind::BLTU { imm, rs1, rd, label } => AsmSpec::BLTU {
                imm: opt_imm_view(imm),
                rs1: *rs1 as int,
                rd: *rd as int,
                label: opt_label_view(label),
            },
            AsmKind::BGEU { imm, rs1, rd, label } => AsmSpec::BGEU {
                imm: opt_imm_view(imm),
                rs1: *rs1 as int,
                rd: *rd as int,
                label: opt_label_view(label),
            },
        }
    }
}

/// An abstract assembly line as produced by the parser.
#[derive(Debug, Clone, PartialEq, Eq)]
pub struct Asm {
    pub kind: AsmKind,
}

impl View for Asm {
    type V = AsmSpec;

    open spec fn view(&self) -> AsmSpec {
        self.kind@
    }
}


impl AsmKind {
    /// An exact copy of this line.
    pub fn dup(&self) -> (r: AsmKind)
        ensures
            r@ == self@,
    {
        match self {
            AsmKind::EOASM => AsmKind::EOASM,
            AsmKind::LABEL { l } => AsmKind::LABEL { l: l.clone() },
            AsmKind::LW { imm, rs1, rd } => AsmKind::LW { imm: *imm, rs1: *rs1, rd: *rd },
            AsmKind::SW { imm, rs2, rs1 } => AsmKind::SW { imm: *imm, rs2: *rs2, rs1: *rs1 },
            AsmKind::ADDI { imm, rs1, rd } => AsmKind::ADDI { imm: *imm, rs1: *rs1, rd: *rd },
            AsmKind::ADD { rs2, rs1, rd } => AsmKind::ADD { rs2: *rs2, rs1: *rs1, rd: *rd },
            AsmKind::SUB { rs2, rs1, rd } => AsmKind::SUB { rs2: *rs2, rs1: *rs1, rd: *rd },
            AsmKind::AND { rs2, rs1, rd } => AsmKind::AND { rs2: *rs2, rs1: *rs1, rd: *rd },
            AsmKind::OR { rs2, rs1, rd } => AsmKind::OR { rs2: *rs2, rs1: *rs1, rd: *rd },
            AsmKind::XOR { rs2, rs1, rd } => AsmKind::XOR { rs2: *rs2, rs1: *rs1, rd: *rd },
            AsmKind::SLT { rs2, rs1, rd } => AsmKind::SLT { rs2: *rs2, rs1: *rs1, rd: *rd },
            AsmKind::SLTU { rs2, rs1, rd } => AsmKind::SLTU { rs2: *rs2, rs1: *rs1, rd: *rd },
            AsmKind::SLTI { imm, rs1, rd } => AsmKind::SLTI { imm: *imm, rs1: *rs1, rd: *rd },
            AsmKind::SLTIU { imm, rs1, rd } => AsmKind::SLTIU { imm: *imm, rs1: *rs1, rd: *rd },
            AsmKind::SLL { rs2, rs1, rd } => AsmKind::SLL { rs2: *rs2, rs1: *rs1, rd: *rd },
            AsmKind::SRL { rs2, rs1, rd } => AsmKind::SRL { rs2: *rs2, rs1: *rs1, rd: *rd },
            AsmKind::SRA { rs2, rs1, rd } => AsmKind::SRA { rs2: *rs2, rs1: *rs1, rd: *rd },
            AsmKind::SLLI { imm, rs1, rd } => AsmKind::SLLI { imm: *imm, rs1: *rs1, rd: *rd },
            AsmKind::SRLI { imm, rs1, rd } => AsmKind::SRLI { imm: *imm, rs1: *rs1, rd: *rd },
            AsmKind::SRAI { imm, rs1, rd } => AsmKind::SRAI { imm: *imm, rs1: *rs1, rd: *rd },
            AsmKind::BEQ { imm, rs1, rd, label } => AsmKind::BEQ {
                imm: dup_imm(imm),
                rs1: *rs1,
                rd: *rd,
                label: dup_label(label),
            },
            AsmKind::BNE { imm, rs1, rd, label } => AsmKind::BNE {
                imm: dup_imm(imm),
                rs1: *rs1,
                rd: *rd,
                label: dup_label(label),
            },
            AsmKind::BLT { imm, rs1, rd, label } => AsmKind::BLT {
                imm: dup_imm(imm),
                rs1: *rs1,
                rd: *rd,
                label: dup_label(label),
            },
            AsmKind::BGE { imm, rs1, rd, label } => AsmKind::BGE {
                imm: dup_imm(imm),
                rs1: *rs1,
                rd: *rd,
                label: dup_label(label),
            },
            AsmKind::BLTU { imm, rs1, rd, label } => AsmKind::BLTU {
                imm: dup_imm(imm),
                rs1: *rs1,
                rd: *rd,
                label: dup_label(label),
            },
            AsmKind::BGEU { imm, rs1, rd, label } => AsmKind::BGEU {
                imm: dup_imm(imm),
                rs1: *rs1,
                rd: *rd,
                label: dup_label(label),
            },
        }
    }
}

/// An exact copy of an optional immediate operand.
fn dup_imm(x: &Option<isize>) -> (r: Option<isize>)
    ensures
        opt_imm_view(&r) == opt_imm_view(x),
{
    match x {
        Some(v) => Some(*v),
        None => None,
    }
}

/// An exact copy of an optional label operand.
fn dup_label(x: &Option<String>) -> (r: Option<String>)
    ensures
        opt_label_view(&r) == opt_label_view(x),
{
    match x {
        Some(s) => Some(s.clone()),
        None => None,
    }
}

/// The views of a sequence of abstract assembly lines.
pub open spec fn lines_view(s: Seq<Asm>) -> Seq<AsmSpec> {
    Seq::new(s.len(), |i: int| s[i]@)
}

impl Asm {
    /// An exact copy of this line.
    pub fn dup(&self) -> (r: Asm)
        ensures
            r@ == self@,
    {
        Asm { kind: self.kind.dup() }
    }
}


/// Appending one line extends the sequence of views by its view.
pub proof fn lemma_lines_view_push(s: Seq<Asm>, a: Asm)
    ensures
        lines_view(s.push(a)) == lines_view(s).push(a@),
{
    assert(lines_view(s.push(a)) =~= lines_view(s).push(a@));
}

/// Pushing an element and concatenating a tail is one concatenation.
pub proof fn lemma_push_concat(xs: Seq<AsmSpec>, a: AsmSpec, rest: Seq<AsmSpec>)
    ensures
        xs + (seq![a] + rest) == xs.push(a) + rest,
        xs + seq![a] == xs.push(a),
{
    assert(xs + (seq![a] + rest) =~= xs.push(a) + rest);
    assert(xs + seq![a] =~= xs.push(a));
}

} // verus!
