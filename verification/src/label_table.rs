//! The label table: label names with their program-counter offsets, built by
//! running the parser to exhaustion, and the resolution pass that turns
//! branch labels into immediate offsets before encoding.
//!
//! The program counter advances by four after every parsed line, label
//! definitions included: a label line therefore occupies a counter slot even
//! though it produces no instruction word. Duplicate label definitions are a
//! hard error, and a resolved branch offset must fit the signed 12-bit
//! immediate.

use vstd::prelude::*;
use crate::ast::Asm;
use crate::ast::AsmKind;
use crate::ast::AsmSpec;
use crate::ast::lines_view;
use crate::ast::lemma_lines_view_push;
use crate::ast::lemma_push_concat;
use crate::ast::opt_imm_view;
use crate::ast::opt_label_view;
use crate::error::AsmError;
use crate::error::ErrSpec;
use crate::parser::Parser;
use crate::assembler::sp_program;
use crate::assembler::lemma_parse_step_progress;
use crate::assembler::lemma_program_step;
use crate::assembler::lemma_program_step_err;
use crate::token::str_eq;

verus! {

/// One label table entry: a name bound to a program-counter offset.
#[derive(Debug, PartialEq, Eq)]
pub struct LabelEntry {
    pub name: String,
    pub pc: isize,
}

impl View for LabelEntry {
    type V = (Seq<char>, int);

    open spec fn view(&self) -> (Seq<char>, int) {
        (self.name@, self.pc as int)
    }
}

/// Whether the entries hold the given name.
pub open spec fn sp_has_label(t: Seq<(Seq<char>, int)>, name: Seq<char>) -> bool {
    exists|j: int| 0 <= j < t.len() && t[j].0 == name
}

/// The program-counter offset of the first entry with the given name.
pub open spec fn sp_lookup_label(t: Seq<(Seq<char>, int)>, name: Seq<char>) -> Option<int>
    decreases t.len(),
{
    if t.len() == 0 {
        None
    } else if t[0].0 == name {
        Some(t[0].1)
    } else {
        sp_lookup_label(t.subrange(1, t.len() as int), name)
    }
}

/// A lookup succeeds exactly when some entry holds the name.
pub proof fn lemma_lookup_iff_has(t: Seq<(Seq<char>, int)>, name: Seq<char>)
    ensures
        (sp_lookup_label(t, name) is Some) == sp_has_label(t, name),
    decreases t.len(),
{
    if t.len() > 0 {
        let sub = t.subrange(1, t.len() as int);
        lemma_lookup_iff_has(sub, name);
        if t[0].0 == name {
            assert(sp_has_label(t, name));
        } else {
            if sp_has_label(t, name) {
                let j = choose|j: int| 0 <= j < t.len() && t[j].0 == name;
                assert(sub[j - 1] == t[j]);
                assert(sp_has_label(sub, name));
            }
            if sp_has_label(sub, name) {
                let j = choose|j: int| 0 <= j < sub.len() && sub[j].0 == name;
                assert(t[j + 1] == sub[j]);
                assert(sp_has_label(t, name));
            }
        }
    }
}

/// The label table: entries in definition order, with unique names.
#[derive(Debug, PartialEq, Eq)]
pub struct LabelTable {
    pub entries: Vec<LabelEntry>,
}

impl View for LabelTable {
    type V = Seq<(Seq<char>, int)>;

    open spec fn view(&self) -> Seq<(Seq<char>, int)> {
        Seq::new(self.entries@.len(), |i: int| self.entries@[i]@)
    }
}

impl LabelTable {
    /// An empty table.
    pub fn new() -> (r: LabelTable)
        ensures
            r@ == Seq::<(Seq<char>, int)>::empty(),
    {
        let r = LabelTable { entries: Vec::new() };
        proof {
            assert(r@ =~= Seq::<(Seq<char>, int)>::empty());
        }
        r
    }

    /// How many labels the table holds.
    pub fn len(&self) -> (r: usize)
        ensures
            r == self@.len(),
    {
        self.entries.len()
    }

    /// Whether the table holds the given name.
    pub fn contains(&self, name: &str) -> (r: bool)
        ensures
            r == sp_has_label(self@, name@),
    {
        proof {
            lemma_lookup_iff_has(self@, name@);
        }
        match self.lookup(name) {
            Some(_) => true,
            None => false,
        }
    }

    /// Appends one entry.
    fn push_entry(&mut self, name: String, pc: isize)
        ensures
            final(self)@ == old(self)@.push((name@, pc as int)),
    {
        self.entries.push(LabelEntry { name, pc });
        proof {
            assert(self@ =~= old(self)@.push(
                (self.entries@[self.entries@.len() - 1].name@, pc as int),
            ));
        }
    }

    /// The program-counter offset bound to the given name, if any.
    pub fn lookup(&self, name: &str) -> (r: Option<isize>)
        ensures
            match r {
                Some(pc) => sp_lookup_label(self@, name@) == Some(pc as int),
                None => sp_lookup_label(self@, name@) is None,
            },
    {
        proof {
            assert(self@.subrange(0, self@.len() as int) =~= self@);
        }
        let mut i: usize = 0;
        while i < self.entries.len()
            invariant
                i <= self.entries@.len(),
                sp_lookup_label(self@, name@) == sp_lookup_label(
                    self@.subrange(i as int, self@.len() as int),
                    name@,
                ),
            decreases self.entries@.len() - i,
        {
            let ghost pre = self@.subrange(i as int, self@.len() as int);
            if str_eq(self.entries[i].name.as_str(), name) {
                proof {
                    assert(pre[0] == self@[i as int]);
                }
                return Some(self.entries[i].pc);
            }
            proof {
                assert(pre[0] == self@[i as int]);
                assert(pre.subrange(1, pre.len() as int) =~= self@.subrange(
                    i + 1 as int,
                    self@.len() as int,
                ));
            }
            i = i + 1;
        }
        proof {
            assert(self@.subrange(i as int, self@.len() as int) =~= Seq::<(
                Seq<char>,
                int,
            )>::empty());
        }
        None
    }
}

/// One step of the table build over the parsed lines: from line `i` at
/// program counter `pc`, with the entries gathered so far. A repeated label
/// name is a hard error, and the counter must stay within the machine word.
pub open spec fn sp_table_from(
    lines: Seq<AsmSpec>,
    i: int,
    pc: int,
    acc: Seq<(Seq<char>, int)>,
) -> Result<Seq<(Seq<char>, int)>, ErrSpec>
    decreases lines.len() - i,
{
    if i < 0 || i >= lines.len() {
        Ok(acc)
    } else {
        let step = match lines[i] {
            AsmSpec::LABEL { l } => if sp_has_label(acc, l) {
                Err(ErrSpec::DuplicateLabel { label: l })
            } else {
                Ok(acc.push((l, pc)))
            },
            _ => Ok(acc),
        };
        match step {
            Err(e) => Err(e),
            Ok(acc2) => if pc + 4 > isize::MAX {
                Err(ErrSpec::ProgramTooLarge)
            } else {
                sp_table_from(lines, i + 1, pc + 4, acc2)
            },
        }
    }
}

/// The label table of a parsed program: every label-definition line bound to
/// the program counter at that line, the counter advancing by four after
/// every line.
pub open spec fn sp_table(lines: Seq<AsmSpec>) -> Result<Seq<(Seq<char>, int)>, ErrSpec> {
    sp_table_from(lines, 0, 0, Seq::empty())
}

/// Runs the parser to exhaustion, collecting every parsed line in order,
/// the end-of-assembly sentinel included.
fn collect_lines(p: &mut Parser) -> (r: Result<Vec<Asm>, AsmError>)
    requires
        old(p).wf(),
    ensures
        final(p).input() == old(p).input(),
        match r {
            Ok(vs) => final(p).wf() && sp_program(old(p).input(), old(p).pos@) == Ok::<
                Seq<AsmSpec>,
                ErrSpec,
            >(lines_view(vs@)),
            Err(e) => sp_program(old(p).input(), old(p).pos@) == Err::<Seq<AsmSpec>, ErrSpec>(e@),
        },
{
    let ghost inp = old(p).input();
    let ghost p0 = old(p).pos@;
    let mut vs: Vec<Asm> = Vec::new();
    loop
        invariant_except_break
            p.wf(),
            inp == old(p).input(),
            p0 == old(p).pos@,
            0 <= p0 <= inp.len(),
            p.input() == inp,
            0 <= p.pos@ <= inp.len(),
            sp_program(inp, p0) == (match sp_program(inp, p.pos@) {
                Ok(rest) => Ok::<Seq<AsmSpec>, ErrSpec>(lines_view(vs@) + rest),
                Err(e) => Err::<Seq<AsmSpec>, ErrSpec>(e),
            }),
        ensures
            sp_program(inp, p0) == Ok::<Seq<AsmSpec>, ErrSpec>(lines_view(vs@)),
            p.wf(),
            p.input() == inp,
        decreases inp.len() - p.pos@,
    {
        let ghost cur = p.pos@;
        proof {
            lemma_parse_step_progress(inp, cur);
        }
        let a = match p.parse() {
            Ok(a) => a,
            Err(e) => {
                proof {
                    lemma_program_step_err(inp, cur, e@);
                }
                return Err(e);
            },
        };
        let done = match &a.kind {
            AsmKind::EOASM => true,
            _ => false,
        };
        let ghost av = a@;
        let ghost vspre = vs@;
        vs.push(a);
        proof {
            lemma_program_step(inp, cur, av, p.pos@);
            lemma_lines_view_push(vspre, vs@[vs@.len() - 1]);
            if !(av is EOASM) {
                if let Ok(rest) = sp_program(inp, p.pos@) {
                    lemma_push_concat(lines_view(vspre), av, rest);
                }
            }
        }
        if done {
            proof {
                lemma_push_concat(lines_view(vspre), av, Seq::empty());
            }
            break ;
        }
    }
    Ok(vs)
}

/// Builds the label table over the collected lines: every label-definition
/// line bound to the program counter at that line.
fn build_table(vs: &Vec<Asm>) -> (r: Result<LabelTable, AsmError>)
    ensures
        match r {
            Ok(table) => sp_table(lines_view(vs@)) == Ok::<Seq<(Seq<char>, int)>, ErrSpec>(
                table@,
            ),
            Err(e) => sp_table(lines_view(vs@)) == Err::<Seq<(Seq<char>, int)>, ErrSpec>(e@),
        },
{
    let mut table = LabelTable::new();
    let mut pc: isize = 0;
    let mut i: usize = 0;
    while i < vs.len()
        invariant
            i <= vs@.len(),
            sp_table(lines_view(vs@)) == sp_table_from(
                lines_view(vs@),
                i as int,
                pc as int,
                table@,
            ),
        decreases vs@.len() - i,
    {
        match &vs[i].kind {
            AsmKind::LABEL { l } => {
                if table.contains(l.as_str()) {
                    return Err(AsmError::DuplicateLabel { label: l.clone() });
                }
                table.push_entry(l.clone(), pc);
            },
            _ => {},
        }
        pc = match pc.checked_add(4) {
            Some(x) => x,
            None => {
                return Err(AsmError::ProgramTooLarge);
            },
        };
        i = i + 1;
    }
    Ok(table)
}

/// Runs the parser to exhaustion, collecting every parsed line in order —
/// the end-of-assembly sentinel included — and the label table over them.
pub fn make_label_table(p: &mut Parser) -> (r: Result<(Vec<Asm>, LabelTable), AsmError>)
    requires
        old(p).wf(),
    ensures
        final(p).input() == old(p).input(),
        match r {
            Ok(pair) => sp_program(old(p).input(), old(p).pos@) == Ok::<Seq<AsmSpec>, ErrSpec>(
                lines_view(pair.0@),
            ) && sp_table(lines_view(pair.0@)) == Ok::<Seq<(Seq<char>, int)>, ErrSpec>(pair.1@),
            Err(e) => match sp_program(old(p).input(), old(p).pos@) {
                Err(e2) => e@ == e2,
                Ok(ls) => sp_table(ls) == Err::<Seq<(Seq<char>, int)>, ErrSpec>(e@),
            },
        },
{
    let vs = match collect_lines(p) {
        Ok(vs) => vs,
        Err(e) => {
            return Err(e);
        },
    };
    match build_table(&vs) {
        Ok(table) => Ok((vs, table)),
        Err(e) => Err(e),
    }
}

/// The resolution of one branch target: a populated immediate is kept; a
/// label is replaced by the offset from the branch's own program counter to
/// the label's, which must fit in the signed 12-bit immediate.
pub open spec fn sp_resolve_target(
    imm: Option<int>,
    label: Option<Seq<char>>,
    t: Seq<(Seq<char>, int)>,
    pc: int,
) -> Result<(Option<int>, Option<Seq<char>>), ErrSpec> {
    match imm {
        Some(v) => Ok((Some(v), label)),
        None => match label {
            Some(l) => match sp_lookup_label(t, l) {
                Some(target) => if -2048 <= target - pc <= 2047 {
                    Ok((Some(target - pc), None))
                } else {
                    Err(ErrSpec::BranchTargetOutOfRange { offset: target - pc })
                },
                None => Err(ErrSpec::UnresolvedLabel { label: l }),
            },
            None => Err(ErrSpec::UnresolvedLabel { label: Seq::empty() }),
        },
    }
}

/// One resolved line: a branch has its target resolved against the table at
/// its program counter; every other line is unchanged.
pub open spec fn sp_resolve_line(a: AsmSpec, t: Seq<(Seq<char>, int)>, pc: int) -> Result<
    AsmSpec,
    ErrSpec,
> {
    match a {
        AsmSpec::BEQ { imm, rs1, rd, label } => match sp_resolve_target(imm, label, t, pc) {
            Ok(pair) => Ok(AsmSpec::BEQ { imm: pair.0, rs1, rd, label: pair.1 }),
            Err(e) => Err(e),
        },
        AsmSpec::BNE { imm, rs1, rd, label } => match sp_resolve_target(imm, label, t, pc) {
            Ok(pair) => Ok(AsmSpec::BNE { imm: pair.0, rs1, rd, label: pair.1 }),
            Err(e) => Err(e),
        },
        AsmSpec::BLT { imm, rs1, rd, label } => match sp_resolve_target(imm, label, t, pc) {
            Ok(pair) => Ok(AsmSpec::BLT { imm: pair.0, rs1, rd, label: pair.1 }),
            Err(e) => Err(e),
        },
        AsmSpec::BGE { imm, rs1, rd, label } => match sp_resolve_target(imm, label, t, pc) {
            Ok(pair) => Ok(AsmSpec::BGE { imm: pair.0, rs1, rd, label: pair.1 }),
            Err(e) => Err(e),
        },
        AsmSpec::BLTU { imm, rs1, rd, label } => match sp_resolve_target(imm, label, t, pc) {
            Ok(pair) => Ok(AsmSpec::BLTU { imm: pair.0, rs1, rd, label: pair.1 }),
            Err(e) => Err(e),
        },
        AsmSpec::BGEU { imm, rs1, rd, label } => match sp_resolve_target(imm, label, t, pc) {
            Ok(pair) => Ok(AsmSpec::BGEU { imm: pair.0, rs1, rd, label: pair.1 }),
            Err(e) => Err(e),
        },
        _ => Ok(a),
    }
}

/// The resolved form of the lines from index `i` at program counter `pc`.
pub open spec fn sp_resolve_from(
    lines: Seq<AsmSpec>,
    t: Seq<(Seq<char>, int)>,
    i: int,
    pc: int,
) -> Result<Seq<AsmSpec>, ErrSpec>
    decreases lines.len() - i,
{
    if i < 0 || i >= lines.len() {
        Ok(Seq::empty())
    } else {
        match sp_resolve_line(lines[i], t, pc) {
            Err(e) => Err(e),
            Ok(a2) => if pc + 4 > isize::MAX {
                Err(ErrSpec::ProgramTooLarge)
            } else {
                match sp_resolve_from(lines, t, i + 1, pc + 4) {
                    Err(e) => Err(e),
                    Ok(rest) => Ok(seq![a2] + rest),
                }
            },
        }
    }
}

/// The resolved form of a whole program: every branch label replaced by its
/// immediate offset, every other line unchanged.
pub open spec fn sp_resolve(lines: Seq<AsmSpec>, t: Seq<(Seq<char>, int)>) -> Result<
    Seq<AsmSpec>,
    ErrSpec,
> {
    sp_resolve_from(lines, t, 0, 0)
}

/// The resolved target of one branch line at program counter `pc`.
fn resolve_target(
    imm: &Option<isize>,
    label: &Option<String>,
    t: &LabelTable,
    pc: isize,
) -> (r: Result<(Option<isize>, Option<String>), AsmError>)
    ensures
        match r {
            Ok(pair) => sp_resolve_target(opt_imm_view(imm), opt_label_view(label), t@, pc as int)
                == Ok::<(Option<int>, Option<Seq<char>>), ErrSpec>(
                (opt_imm_view(&pair.0), opt_label_view(&pair.1)),
            ),
            Err(e) => sp_resolve_target(opt_imm_view(imm), opt_label_view(label), t@, pc as int)
                == Err::<(Option<int>, Option<Seq<char>>), ErrSpec>(e@),
        },
{
    match imm {
        Some(v) => {
            let lab = match label {
                Some(l) => Some(l.clone()),
                None => None,
            };
            Ok((Some(*v), lab))
        },
        None => match label {
            Some(l) => match t.lookup(l.as_str()) {
                Some(target) => {
                    let off: i128 = (target as i128) - (pc as i128);
                    if -2048 <= off && off <= 2047 {
                        Ok((Some(off as isize), None))
                    } else {
                        Err(AsmError::BranchTargetOutOfRange { offset: off })
                    }
                },
                None => Err(AsmError::UnresolvedLabel { label: l.clone() }),
            },
            None => Err(AsmError::UnresolvedLabel { label: String::new() }),
        },
    }
}

/// One line with its branch target resolved at program counter `pc`.
fn resolve_line(a: &Asm, t: &LabelTable, pc: isize) -> (r: Result<Asm, AsmError>)
    ensures
        match r {
            Ok(a2) => sp_resolve_line(a@, t@, pc as int) == Ok::<AsmSpec, ErrSpec>(a2@),
            Err(e) => sp_resolve_line(a@, t@, pc as int) == Err::<AsmSpec, ErrSpec>(e@),
        },
{
    let kind = match &a.kind {
        AsmKind::BEQ { imm, rs1, rd, label } => {
            let pair = match resolve_target(imm, label, t, pc) {
                Ok(pair) => pair,
                Err(e) => {
                    return Err(e);
                },
            };
            AsmKind::BEQ { imm: pair.0, rs1: *rs1, rd: *rd, label: pair.1 }
        },
        AsmKind::BNE { imm, rs1, rd, label } => {
            let pair = match resolve_target(imm, label, t, pc) {
                Ok(pair) => pair,
                Err(e) => {
                    return Err(e);
                },
            };
            AsmKind::BNE { imm: pair.0, rs1: *rs1, rd: *rd, label: pair.1 }
        },
        AsmKind::BLT { imm, rs1, rd, label } => {
            let pair = match resolve_target(imm, label, t, pc) {
                Ok(pair) => pair,
                Err(e) => {
                    return Err(e);
                },
            };
            AsmKind::BLT { imm: pair.0, rs1: *rs1, rd: *rd, label: pair.1 }
        },
        AsmKind::BGE { imm, rs1, rd, label } => {
            let pair = match resolve_target(imm, label, t, pc) {
                Ok(pair) => pair,
                Err(e) => {
                    return Err(e);
                },
            };
            AsmKind::BGE { imm: pair.0, rs1: *rs1, rd: *rd, label: pair.1 }
        },
        AsmKind::BLTU { imm, rs1, rd, label } => {
            let pair = match resolve_target(imm, label, t, pc) {
                Ok(pair) => pair,
                Err(e) => {
                    return Err(e);
                },
            };
            AsmKind::BLTU { imm: pair.0, rs1: *rs1, rd: *rd, label: pair.1 }
        },
        AsmKind::BGEU { imm, rs1, rd, label } => {
            let pair = match resolve_target(imm, label, t, pc) {
                Ok(pair) => pair,
                Err(e) => {
                    return Err(e);
                },
            };
            AsmKind::BGEU { imm: pair.0, rs1: *rs1, rd: *rd, label: pair.1 }
        },
        _ => {
            return Ok(a.dup());
        },
    };
    Ok(Asm { kind })
}

/// The whole program with every branch target resolved against the table:
/// line `i` is resolved at program counter `4 * i`.
pub fn resolve_labels(lines: &Vec<Asm>, t: &LabelTable) -> (r: Result<Vec<Asm>, AsmError>)
    ensures
        match r {
            Ok(out) => sp_resolve(lines_view(lines@), t@) == Ok::<Seq<AsmSpec>, ErrSpec>(
                lines_view(out@),
            ),
            Err(e) => sp_resolve(lines_view(lines@), t@) == Err::<Seq<AsmSpec>, ErrSpec>(e@),
        },
{
    let mut out: Vec<Asm> = Vec::new();
    let mut pc: isize = 0;
    let mut i: usize = 0;
    while i < lines.len()
        invariant
            i <= lines@.len(),
            out@.len() == i,
            sp_resolve(lines_view(lines@), t@) == (match sp_resolve_from(
                lines_view(lines@),
                t@,
                i as int,
                pc as int,
            ) {
                Ok(rest) => Ok::<Seq<AsmSpec>, ErrSpec>(lines_view(out@) + rest),
                Err(e) => Err::<Seq<AsmSpec>, ErrSpec>(e),
            }),
        decreases lines@.len() - i,
    {
        let a2 = match resolve_line(&lines[i], t, pc) {
            Ok(a2) => a2,
            Err(e) => {
                return Err(e);
            },
        };
        let ghost outpre = out@;
        let ghost a2v = a2@;
        out.push(a2);
        pc = match pc.checked_add(4) {
            Some(x) => x,
            None => {
                return Err(AsmError::ProgramTooLarge);
            },
        };
        proof {
            assert(lines_view(out@) =~= lines_view(outpre).push(a2v));
            if let Ok(rest) = sp_resolve_from(lines_view(lines@), t@, i + 1, pc as int) {
                assert(lines_view(outpre) + (seq![a2v] + rest) =~= lines_view(out@) + rest);
            }
        }
        i = i + 1;
    }
    proof {
        assert(lines_view(out@) + Seq::<AsmSpec>::empty() =~= lines_view(out@));
    }
    Ok(out)
}

} // verus!
