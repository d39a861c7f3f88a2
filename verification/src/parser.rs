//! The parser: a recursive-descent consumer of the token stream with a
//! two-token lookahead, producing one abstract assembly line per call,
//! verified against an exact token-level specification.

use vstd::prelude::*;
use crate::ast::Asm;
use crate::ast::AsmKind;
use crate::ast::AsmSpec;
use crate::ast::opt_imm_view;
use crate::ast::opt_label_view;
use crate::error::AsmError;
use crate::error::ErrSpec;
use crate::lexer::Lexer;
use crate::lexer::tok_of;
use crate::lexer::tok_end;
use crate::lexer::lemma_skip_ws;
use crate::lexer::lemma_scan_digits;
use crate::lexer::lemma_scan_ident;
use crate::token::Token;
use crate::token::TokenKind;
use crate::token::TokKind;
use crate::token::str_eq;

verus! {

/// Whether pulling one more token into the lookahead succeeds: the token two
/// places after the one at `p` must lex without error.
pub open spec fn sp_advance_ok(s: Seq<u8>, p: int) -> bool {
    tok_of(s, tok_end(s, tok_end(s, p))) is Some
}

/// Consuming the token at `p`: the scan position of the following token, or
/// the lexical error met while refilling the two-token lookahead.
pub open spec fn sp_skip(s: Seq<u8>, p: int) -> Result<int, ErrSpec> {
    if sp_advance_ok(s, p) {
        Ok(tok_end(s, p))
    } else {
        Err(ErrSpec::InvalidNumberLiteral)
    }
}

/// Consuming the token at `p` when it must be of kind `k`.
pub open spec fn sp_expect(s: Seq<u8>, p: int, k: TokKind) -> Result<int, ErrSpec> {
    match tok_of(s, p) {
        Some(cur) => if cur != k {
            Err(ErrSpec::UnexpectedToken { expected: k, actual: cur })
        } else {
            sp_skip(s, p)
        },
        None => Err(ErrSpec::InvalidNumberLiteral),
    }
}

/// Consuming the token at `p` when it must be a number: its value and the
/// position after it.
pub open spec fn sp_read_number(s: Seq<u8>, p: int) -> Result<(int, int), ErrSpec> {
    match tok_of(s, p) {
        Some(cur) => match cur {
            TokKind::Number(n) => match sp_skip(s, p) {
                Ok(q) => Ok((n, q)),
                Err(e) => Err(e),
            },
            _ => Err(ErrSpec::ExpectedNumber { actual: cur }),
        },
        None => Err(ErrSpec::InvalidNumberLiteral),
    }
}

/// Consuming the token at `p` when it must be a number or a symbol: exactly
/// one of the two sides is populated.
pub open spec fn sp_read_num_or_sym(s: Seq<u8>, p: int) -> Result<
    ((Option<int>, Option<Seq<char>>), int),
    ErrSpec,
> {
    match tok_of(s, p) {
        Some(cur) => match cur {
            TokKind::Number(n) => match sp_skip(s, p) {
                Ok(q) => Ok(((Some(n), None), q)),
                Err(e) => Err(e),
            },
            TokKind::Symbol(name) => match sp_skip(s, p) {
                Ok(q) => Ok(((None, Some(name)), q)),
                Err(e) => Err(e),
            },
            _ => Err(ErrSpec::ExpectedNumberOrSymbol { actual: cur }),
        },
        None => Err(ErrSpec::InvalidNumberLiteral),
    }
}

/// Consuming the end of a line: a newline token, or the end of the input.
pub open spec fn sp_line_end(s: Seq<u8>, p: int) -> Result<int, ErrSpec> {
    match tok_of(s, p) {
        Some(cur) => if cur == TokKind::NewLine || cur == TokKind::EOF {
            sp_skip(s, p)
        } else {
            Err(ErrSpec::UnexpectedToken { expected: TokKind::NewLine, actual: cur })
        },
        None => Err(ErrSpec::InvalidNumberLiteral),
    }
}

/// The operand shape `rd , imm ( rs1 )` of a load or store line, after its
/// mnemonic at `p`: the three numbers and the position after the line.
pub open spec fn sp_parse_ils(s: Seq<u8>, p: int) -> Result<((int, int, int), int), ErrSpec> {
    match sp_skip(s, p) {
        Err(e) => Err(e),
        Ok(p1) => match sp_read_number(s, p1) {
            Err(e) => Err(e),
            Ok((a, p2)) => match sp_expect(s, p2, TokKind::Comma) {
                Err(e) => Err(e),
                Ok(p3) => match sp_read_number(s, p3) {
                    Err(e) => Err(e),
                    Ok((imm, p4)) => match sp_expect(s, p4, TokKind::LParen) {
                        Err(e) => Err(e),
                        Ok(p5) => match sp_read_number(s, p5) {
                            Err(e) => Err(e),
                            Ok((b, p6)) => match sp_expect(s, p6, TokKind::RParen) {
                                Err(e) => Err(e),
                                Ok(p7) => match sp_line_end(s, p7) {
                                    Err(e) => Err(e),
                                    Ok(p8) => Ok(((a, imm, b), p8)),
                                },
                            },
                        },
                    },
                },
            },
        },
    }
}

/// The operand shape `rd , rs1 , x` of a three-operand line, after its
/// mnemonic at `p`: the three numbers and the position after the line.
pub open spec fn sp_parse_three(s: Seq<u8>, p: int) -> Result<((int, int, int), int), ErrSpec> {
    match sp_skip(s, p) {
        Err(e) => Err(e),
        Ok(p1) => match sp_read_number(s, p1) {
            Err(e) => Err(e),
            Ok((a, p2)) => match sp_expect(s, p2, TokKind::Comma) {
                Err(e) => Err(e),
                Ok(p3) => match sp_read_number(s, p3) {
                    Err(e) => Err(e),
                    Ok((b, p4)) => match sp_expect(s, p4, TokKind::Comma) {
                        Err(e) => Err(e),
                        Ok(p5) => match sp_read_number(s, p5) {
                            Err(e) => Err(e),
                            Ok((c, p6)) => match sp_line_end(s, p6) {
                                Err(e) => Err(e),
                                Ok(p7) => Ok(((a, b, c), p7)),
                            },
                        },
                    },
                },
            },
        },
    }
}

/// The operand shape `rd , rs1 , (imm | label)` of a branch line, after its
/// mnemonic at `p`.
pub open spec fn sp_parse_branch(s: Seq<u8>, p: int) -> Result<
    ((int, int, (Option<int>, Option<Seq<char>>)), int),
    ErrSpec,
> {
    match sp_skip(s, p) {
        Err(e) => Err(e),
        Ok(p1) => match sp_read_number(s, p1) {
            Err(e) => Err(e),
            Ok((a, p2)) => match sp_expect(s, p2, TokKind::Comma) {
                Err(e) => Err(e),
                Ok(p3) => match sp_read_number(s, p3) {
                    Err(e) => Err(e),
                    Ok((b, p4)) => match sp_expect(s, p4, TokKind::Comma) {
                        Err(e) => Err(e),
                        Ok(p5) => match sp_read_num_or_sym(s, p5) {
                            Err(e) => Err(e),
                            Ok((target, p6)) => match sp_line_end(s, p6) {
                                Err(e) => Err(e),
                                Ok(p7) => Ok(((a, b, target), p7)),
                            },
                        },
                    },
                },
            },
        },
    }
}

/// A label-definition line `SYMBOL :` whose symbol stands at `p`: the
/// position after the line.
pub open spec fn sp_parse_label(s: Seq<u8>, p: int) -> Result<int, ErrSpec> {
    match sp_skip(s, p) {
        Err(e) => Err(e),
        Ok(p1) => match sp_expect(s, p1, TokKind::Colon) {
            Err(e) => Err(e),
            Ok(p2) => sp_line_end(s, p2),
        },
    }
}

/// One parse step at scan position `p`: the abstract assembly line beginning
/// there and the position after it, or the first error met. The end of the
/// input yields the end-of-assembly sentinel without moving.
#[verifier::opaque]
pub open spec fn sp_parse_step(s: Seq<u8>, p: int) -> Result<(AsmSpec, int), ErrSpec> {
    match tok_of(s, p) {
        None => Err(ErrSpec::InvalidNumberLiteral),
        Some(cur) => match cur {
            TokKind::EOF => Ok((AsmSpec::EOASM, p)),
            TokKind::LW => match sp_parse_ils(s, p) {
                Ok(((rd, imm, rs1), q)) => Ok((AsmSpec::LW { imm, rs1, rd }, q)),
                Err(e) => Err(e),
            },
            TokKind::SW => match sp_parse_ils(s, p) {
                Ok(((rs2, imm, rs1), q)) => Ok((AsmSpec::SW { imm, rs2, rs1 }, q)),
                Err(e) => Err(e),
            },
            TokKind::ADDI => match sp_parse_three(s, p) {
                Ok(((rd, rs1, imm), q)) => Ok((AsmSpec::ADDI { imm, rs1, rd }, q)),
                Err(e) => Err(e),
            },
            TokKind::SLTI => match sp_parse_three(s, p) {
                Ok(((rd, rs1, imm), q)) => Ok((AsmSpec::SLTI { imm, rs1, rd }, q)),
                Err(e) => Err(e),
            },
            TokKind::SLTIU => match sp_parse_three(s, p) {
                Ok(((rd, rs1, imm), q)) => Ok((AsmSpec::SLTIU { imm, rs1, rd }, q)),
                Err(e) => Err(e),
            },
            TokKind::SLLI => match sp_parse_three(s, p) {
                Ok(((rd, rs1, imm), q)) => Ok((AsmSpec::SLLI { imm, rs1, rd }, q)),
                Err(e) => Err(e),
            },
            TokKind::SRLI => match sp_parse_three(s, p) {
                Ok(((rd, rs1, imm), q)) => Ok((AsmSpec::SRLI { imm, rs1, rd }, q)),
                Err(e) => Err(e),
            },
            TokKind::SRAI => match sp_parse_three(s, p) {
                Ok(((rd, rs1, imm), q)) => Ok((AsmSpec::SRAI { imm, rs1, rd }, q)),
                Err(e) => Err(e),
            },
            TokKind::ADD => match sp_parse_three(s, p) {
                Ok(((rd, rs1, rs2), q)) => Ok((AsmSpec::ADD { rs2, rs1, rd }, q)),
                Err(e) => Err(e),
            },
            TokKind::SUB => match sp_parse_three(s, p) {
                Ok(((rd, rs1, rs2), q)) => Ok((AsmSpec::SUB { rs2, rs1, rd }, q)),
                Err(e) => Err(e),
            },
            TokKind::AND => match sp_parse_three(s, p) {
                Ok(((rd, rs1, rs2), q)) => Ok((AsmSpec::AND { rs2, rs1, rd }, q)),
                Err(e) => Err(e),
            },
            TokKind::OR => match sp_parse_three(s, p) {
                Ok(((rd, rs1, rs2), q)) => Ok((AsmSpec::OR { rs2, rs1, rd }, q)),
                Err(e) => Err(e),
            },
            TokKind::XOR => match sp_parse_three(s, p) {
                Ok(((rd, rs1, rs2), q)) => Ok((AsmSpec::XOR { rs2, rs1, rd }, q)),
                Err(e) => Err(e),
            },
            TokKind::SLT => match sp_parse_three(s, p) {
                Ok(((rd, rs1, rs2), q)) => Ok((AsmSpec::SLT { rs2, rs1, rd }, q)),
                Err(e) => Err(e),
            },
            TokKind::SLTU => match sp_parse_three(s, p) {
                Ok(((rd, rs1, rs2), q)) => Ok((AsmSpec::SLTU { rs2, rs1, rd }, q)),
                Err(e) => Err(e),
            },
            TokKind::SLL => match sp_parse_three(s, p) {
                Ok(((rd, rs1, rs2), q)) => Ok((AsmSpec::SLL { rs2, rs1, rd }, q)),
                Err(e) => Err(e),
            },
            TokKind::SRL => match sp_parse_three(s, p) {
                Ok(((rd, rs1, rs2), q)) => Ok((AsmSpec::SRL { rs2, rs1, rd }, q)),
                Err(e) => Err(e),
            },
            TokKind::SRA => match sp_parse_three(s, p) {
                Ok(((rd, rs1, rs2), q)) => Ok((AsmSpec::SRA { rs2, rs1, rd }, q)),
                Err(e) => Err(e),
            },
            TokKind::BEQ => match sp_parse_branch(s, p) {
                Ok(((rd, rs1, (imm, label)), q)) => Ok((AsmSpec::BEQ { imm, rs1, rd, label }, q)),
                Err(e) => Err(e),
            },
            TokKind::BNE => match sp_parse_branch(s, p) {
                Ok(((rd, rs1, (imm, label)), q)) => Ok((AsmSpec::BNE { imm, rs1, rd, label }, q)),
                Err(e) => Err(e),
            },
            TokKind::BLT => match sp_parse_branch(s, p) {
                Ok(((rd, rs1, (imm, label)), q)) => Ok((AsmSpec::BLT { imm, rs1, rd, label }, q)),
                Err(e) => Err(e),
            },
            TokKind::BGE => match sp_parse_branch(s, p) {
                Ok(((rd, rs1, (imm, label)), q)) => Ok((AsmSpec::BGE { imm, rs1, rd, label }, q)),
                Err(e) => Err(e),
            },
            TokKind::BLTU => match sp_parse_branch(s, p) {
                Ok(((rd, rs1, (imm, label)), q)) => Ok((AsmSpec::BLTU { imm, rs1, rd, label }, q)),
                Err(e) => Err(e),
            },
            TokKind::BGEU => match sp_parse_branch(s, p) {
                Ok(((rd, rs1, (imm, label)), q)) => Ok((AsmSpec::BGEU { imm, rs1, rd, label }, q)),
                Err(e) => Err(e),
            },
            TokKind::Symbol(name) => match sp_parse_label(s, p) {
                Ok(q) => Ok((AsmSpec::LABEL { l: name }, q)),
                Err(e) => Err(e),
            },
            _ => Err(ErrSpec::UnsupportedInstruction { actual: cur }),
        },
    }
}

/// Structural equality of two token kinds.
fn kind_eq(a: &TokenKind, b: &TokenKind) -> (r: bool)
    ensures
        r == (a@ == b@),
{
    match (a, b) {
        (TokenKind::NewLine, TokenKind::NewLine) => true,
        (TokenKind::Comma, TokenKind::Comma) => true,
        (TokenKind::Colon, TokenKind::Colon) => true,
        (TokenKind::LParen, TokenKind::LParen) => true,
        (TokenKind::RParen, TokenKind::RParen) => true,
        (TokenKind::Symbol(x), TokenKind::Symbol(y)) => str_eq(x.as_str(), y.as_str()),
        (TokenKind::Number(n), TokenKind::Number(m)) => *n == *m,
        (TokenKind::EOF, TokenKind::EOF) => true,
        (TokenKind::ILEGAL, TokenKind::ILEGAL) => true,
        (TokenKind::LW, TokenKind::LW) => true,
        (TokenKind::ADDI, TokenKind::ADDI) => true,
        (TokenKind::SW, TokenKind::SW) => true,
        (TokenKind::ADD, TokenKind::ADD) => true,
        (TokenKind::SUB, TokenKind::SUB) => true,
        (TokenKind::AND, TokenKind::AND) => true,
        (TokenKind::OR, TokenKind::OR) => true,
        (TokenKind::XOR, TokenKind::XOR) => true,
        (TokenKind::ANDI, TokenKind::ANDI) => true,
        (TokenKind::ORI, TokenKind::ORI) => true,
        (TokenKind::XORI, TokenKind::XORI) => true,
        (TokenKind::SLT, TokenKind::SLT) => true,
        (TokenKind::SLTU, TokenKind::SLTU) => true,
        (TokenKind::SLTI, TokenKind::SLTI) => true,
        (TokenKind::SLTIU, TokenKind::SLTIU) => true,
        (TokenKind::SLL, TokenKind::SLL) => true,
        (TokenKind::SRL, TokenKind::SRL) => true,
        (TokenKind::SRA, TokenKind::SRA) => true,
        (TokenKind::SLLI, TokenKind::SLLI) => true,
        (TokenKind::SRLI, TokenKind::SRLI) => true,
        (TokenKind::SRAI, TokenKind::SRAI) => true,
        (TokenKind::BEQ, TokenKind::BEQ) => true,
        (TokenKind::BNE, TokenKind::BNE) => true,
        (TokenKind::BLT, TokenKind::BLT) => true,
        (TokenKind::BGE, TokenKind::BGE) => true,
        (TokenKind::BLTU, TokenKind::BLTU) => true,
        (TokenKind::BGEU, TokenKind::BGEU) => true,
        _ => false,
    }
}

/// The parser: it owns the lexer exclusively and keeps a two-token lookahead
/// refilled from it, together with the ghost scan position of the current
/// token.
pub struct Parser {
    pub l: Lexer,
    pub cur_tok: Token,
    pub next_tok: Token,
    pub pos: Ghost<int>,
}

impl Parser {
    /// The input bytes under this parser.
    pub open spec fn input(&self) -> Seq<u8> {
        self.l.input@
    }

    /// The scan position of the lookahead token.
    pub open spec fn pos1(&self) -> int {
        tok_end(self.input(), self.pos@)
    }

    /// Well-formedness: the lexer is sound, the two lookahead tokens are the
    /// tokens at the tracked positions, and the lexer cursor stands after
    /// them.
    pub open spec fn wf(&self) -> bool {
        &&& self.l.wf()
        &&& 0 <= self.pos@ <= self.input().len()
        &&& tok_of(self.input(), self.pos@) == Some(self.cur_tok@)
        &&& tok_of(self.input(), self.pos1()) == Some(self.next_tok@)
        &&& self.l.pos == tok_end(self.input(), self.pos1())
    }

    /// A parser over the given lexer, with the lookahead filled from its two
    /// first tokens. Fails on a number literal out of machine range.
    pub fn new(l: Lexer) -> (r: Result<Parser, AsmError>)
        requires
            l.wf(),
        ensures
            match r {
                Ok(p) => p.wf() && p.input() == l.input@ && p.pos@ == l.pos as int,
                Err(e) => e@ == ErrSpec::InvalidNumberLiteral && (tok_of(l.input@, l.pos as int)
                    is None || tok_of(l.input@, tok_end(l.input@, l.pos as int)) is None),
            },
    {
        let ghost p0 = l.pos as int;
        let mut lex = l;
        let cur_tok = match lex.next_token() {
            Ok(t) => t,
            Err(e) => {
                return Err(e);
            },
        };
        let next_tok = match lex.next_token() {
            Ok(t) => t,
            Err(e) => {
                return Err(e);
            },
        };
        proof {
            lemma_tok_step_bounds(l.input@, p0);
        }
        Ok(Parser { l: lex, cur_tok, next_tok, pos: Ghost(p0) })
    }

    /// Slides the lookahead window one token forward.
    fn next_token(&mut self) -> (r: Result<(), AsmError>)
        requires
            old(self).wf(),
        ensures
            final(self).input() == old(self).input(),
            match r {
                Ok(_) => final(self).wf() && sp_skip(old(self).input(), old(self).pos@)
                    == Ok::<int, ErrSpec>(final(self).pos@),
                Err(e) => sp_skip(old(self).input(), old(self).pos@) == Err::<int, ErrSpec>(e@),
            },
    {
        let t = match self.l.next_token() {
            Ok(t) => t,
            Err(e) => {
                return Err(e);
            },
        };
        self.cur_tok = self.next_tok.dup();
        self.next_tok = t;
        proof {
            self.pos@ = tok_end(old(self).input(), old(self).pos@);
            lemma_tok_step_bounds(old(self).input(), old(self).pos@);
        }
        Ok(())
    }

    /// Consumes the current token, which must be of the given kind.
    fn read_token_kind(&mut self, kind: TokenKind) -> (r: Result<(), AsmError>)
        requires
            old(self).wf(),
        ensures
            final(self).input() == old(self).input(),
            match r {
                Ok(_) => final(self).wf() && sp_expect(old(self).input(), old(self).pos@, kind@)
                    == Ok::<int, ErrSpec>(final(self).pos@),
                Err(e) => sp_expect(old(self).input(), old(self).pos@, kind@) == Err::<
                    int,
                    ErrSpec,
                >(e@),
            },
    {
        if !kind_eq(&self.cur_tok.kind, &kind) {
            return Err(
                AsmError::UnexpectedToken { expected: kind, actual: self.cur_tok.kind.dup() },
            );
        }
        match self.next_token() {
            Ok(_) => Ok(()),
            Err(e) => Err(e),
        }
    }

    /// Consumes the current token, which must be a number, and returns its
    /// value.
    fn read_number_token(&mut self) -> (r: Result<isize, AsmError>)
        requires
            old(self).wf(),
        ensures
            final(self).input() == old(self).input(),
            match r {
                Ok(n) => final(self).wf() && sp_read_number(old(self).input(), old(self).pos@)
                    == Ok::<(int, int), ErrSpec>((n as int, final(self).pos@)),
                Err(e) => sp_read_number(old(self).input(), old(self).pos@) == Err::<
                    (int, int),
                    ErrSpec,
                >(e@),
            },
    {
        let n = match self.cur_tok.kind {
            TokenKind::Number(x) => x,
            _ => {
                return Err(AsmError::ExpectedNumber { actual: self.cur_tok.kind.dup() });
            },
        };
        match self.next_token() {
            Ok(_) => Ok(n),
            Err(e) => Err(e),
        }
    }

    /// Consumes the current token, which must be a number or a symbol, and
    /// returns whichever was found: exactly one side is populated.
    fn read_number_or_symbol_token(&mut self) -> (r: Result<
        (Option<isize>, Option<String>),
        AsmError,
    >)
        requires
            old(self).wf(),
        ensures
            final(self).input() == old(self).input(),
            match r {
                Ok(pair) => final(self).wf() && sp_read_num_or_sym(
                    old(self).input(),
                    old(self).pos@,
                ) == Ok::<((Option<int>, Option<Seq<char>>), int), ErrSpec>(
                    ((opt_imm_view(&pair.0), opt_label_view(&pair.1)), final(self).pos@),
                ),
                Err(e) => sp_read_num_or_sym(old(self).input(), old(self).pos@) == Err::<
                    ((Option<int>, Option<Seq<char>>), int),
                    ErrSpec,
                >(e@),
            },
    {
        let pair = match &self.cur_tok.kind {
            TokenKind::Number(x) => (Some(*x), None::<String>),
            TokenKind::Symbol(s) => (None::<isize>, Some(s.clone())),
            _ => {
                return Err(AsmError::ExpectedNumberOrSymbol { actual: self.cur_tok.kind.dup() });
            },
        };
        match self.next_token() {
            Ok(_) => Ok(pair),
            Err(e) => Err(e),
        }
    }

    /// Consumes the end of a line: a newline token, or the end of the input.
    fn read_line_end(&mut self) -> (r: Result<(), AsmError>)
        requires
            old(self).wf(),
        ensures
            final(self).input() == old(self).input(),
            match r {
                Ok(_) => final(self).wf() && sp_line_end(old(self).input(), old(self).pos@)
                    == Ok::<int, ErrSpec>(final(self).pos@),
                Err(e) => sp_line_end(old(self).input(), old(self).pos@) == Err::<int, ErrSpec>(
                    e@,
                ),
            },
    {
        let at_end = match self.cur_tok.kind {
            TokenKind::NewLine => true,
            TokenKind::EOF => true,
            _ => false,
        };
        if !at_end {
            return Err(
                AsmError::UnexpectedToken {
                    expected: TokenKind::NewLine,
                    actual: self.cur_tok.kind.dup(),
                },
            );
        }
        match self.next_token() {
            Ok(_) => Ok(()),
            Err(e) => Err(e),
        }
    }

    /// Reads the operands `first , imm ( rs1 )` of a load or store line,
    /// starting on the mnemonic token.
    fn read_ils_operands(&mut self) -> (r: Result<(isize, isize, isize), AsmError>)
        requires
            old(self).wf(),
        ensures
            final(self).input() == old(self).input(),
            match r {
                Ok(ops) => final(self).wf() && sp_parse_ils(old(self).input(), old(self).pos@)
                    == Ok::<((int, int, int), int), ErrSpec>(
                    ((ops.0 as int, ops.1 as int, ops.2 as int), final(self).pos@),
                ),
                Err(e) => sp_parse_ils(old(self).input(), old(self).pos@) == Err::<
                    ((int, int, int), int),
                    ErrSpec,
                >(e@),
            },
    {
        self.next_token()?;
        let a = self.read_number_token()?;
        self.read_token_kind(TokenKind::Comma)?;
        let imm = self.read_number_token()?;
        self.read_token_kind(TokenKind::LParen)?;
        let b = self.read_number_token()?;
        self.read_token_kind(TokenKind::RParen)?;
        self.read_line_end()?;
        Ok((a, imm, b))
    }

    /// Reads the operands `a , b , c` of a three-operand line, starting on
    /// the mnemonic token.
    fn read_triplet(&mut self) -> (r: Result<(isize, isize, isize), AsmError>)
        requires
            old(self).wf(),
        ensures
            final(self).input() == old(self).input(),
            match r {
                Ok(ops) => final(self).wf() && sp_parse_three(old(self).input(), old(self).pos@)
                    == Ok::<((int, int, int), int), ErrSpec>(
                    ((ops.0 as int, ops.1 as int, ops.2 as int), final(self).pos@),
                ),
                Err(e) => sp_parse_three(old(self).input(), old(self).pos@) == Err::<
                    ((int, int, int), int),
                    ErrSpec,
                >(e@),
            },
    {
        self.next_token()?;
        let a = self.read_number_token()?;
        self.read_token_kind(TokenKind::Comma)?;
        let b = self.read_number_token()?;
        self.read_token_kind(TokenKind::Comma)?;
        let c = self.read_number_token()?;
        self.read_line_end()?;
        Ok((a, b, c))
    }

    /// Reads the operands `rd , rs1 , (imm | label)` of a branch line,
    /// starting on the mnemonic token.
    fn read_branch_operands(&mut self) -> (r: Result<
        (isize, isize, Option<isize>, Option<String>),
        AsmError,
    >)
        requires
            old(self).wf(),
        ensures
            final(self).input() == old(self).input(),
            match r {
                Ok(ops) => final(self).wf() && sp_parse_branch(old(self).input(), old(self).pos@)
                    == Ok::<((int, int, (Option<int>, Option<Seq<char>>)), int), ErrSpec>(
                    (
                        (
                            ops.0 as int,
                            ops.1 as int,
                            (opt_imm_view(&ops.2), opt_label_view(&ops.3)),
                        ),
                        final(self).pos@,
                    ),
                ),
                Err(e) => sp_parse_branch(old(self).input(), old(self).pos@) == Err::<
                    ((int, int, (Option<int>, Option<Seq<char>>)), int),
                    ErrSpec,
                >(e@),
            },
    {
        self.next_token()?;
        let a = self.read_number_token()?;
        self.read_token_kind(TokenKind::Comma)?;
        let b = self.read_number_token()?;
        self.read_token_kind(TokenKind::Comma)?;
        let target = self.read_number_or_symbol_token()?;
        self.read_line_end()?;
        Ok((a, b, target.0, target.1))
    }

    /// Parses one source line into an abstract assembly value: the line form
    /// is fixed by its leading token, the end of the input yields the
    /// end-of-assembly sentinel, and the first mismatch is reported without
    /// consuming further input.
    pub fn parse(&mut self) -> (r: Result<Asm, AsmError>)
        requires
            old(self).wf(),
        ensures
            final(self).input() == old(self).input(),
            match r {
                Ok(a) => final(self).wf() && sp_parse_step(old(self).input(), old(self).pos@)
                    == Ok::<(AsmSpec, int), ErrSpec>((a@, final(self).pos@)),
                Err(e) => sp_parse_step(old(self).input(), old(self).pos@) == Err::<
                    (AsmSpec, int),
                    ErrSpec,
                >(e@),
            },
    {
        proof {
            reveal(sp_parse_step);
        }
        match &self.cur_tok.kind {
            TokenKind::EOF => Ok(Asm { kind: AsmKind::EOASM }),
            TokenKind::LW => self.parse_i_lw(),
            TokenKind::ADDI => self.parse_i_addi(),
            TokenKind::SLTI => self.parse_i_slti(),
            TokenKind::SLTIU => self.parse_i_sltiu(),
            TokenKind::SLLI => self.parse_i_slli(),
            TokenKind::SRLI => self.parse_i_srli(),
            TokenKind::SRAI => self.parse_i_srai(),
            TokenKind::SW => self.parse_s_sw(),
            TokenKind::ADD => self.parse_r_add(),
            TokenKind::SUB => self.parse_r_sub(),
            TokenKind::AND => self.parse_r_and(),
            TokenKind::OR => self.parse_r_or(),
            TokenKind::XOR => self.parse_r_xor(),
            TokenKind::SLT => self.parse_r_slt(),
            TokenKind::SLTU => self.parse_r_sltu(),
            TokenKind::SLL => self.parse_r_sll(),
            TokenKind::SRL => self.parse_r_srl(),
            TokenKind::SRA => self.parse_r_sra(),
            TokenKind::BEQ => self.parse_b_beq(),
            TokenKind::BNE => self.parse_b_bne(),
            TokenKind::BLT => self.parse_b_blt(),
            TokenKind::BGE => self.parse_b_bge(),
            TokenKind::BLTU => self.parse_b_bltu(),
            TokenKind::BGEU => self.parse_b_bgeu(),
            TokenKind::Symbol(_) => self.parse_label(),
            _ => Err(AsmError::UnsupportedInstruction { actual: self.cur_tok.kind.dup() }),
        }
    }

    /// Parses one `lw rd, imm(rs1)` line.
    fn parse_i_lw(&mut self) -> (r: Result<Asm, AsmError>)
        requires
            old(self).wf(),
            old(self).cur_tok@ == TokKind::LW,
        ensures
            final(self).input() == old(self).input(),
            match r {
                Ok(a) => final(self).wf() && sp_parse_step(old(self).input(), old(self).pos@)
                    == Ok::<(AsmSpec, int), ErrSpec>((a@, final(self).pos@)),
                Err(e) => sp_parse_step(old(self).input(), old(self).pos@) == Err::<
                    (AsmSpec, int),
                    ErrSpec,
                >(e@),
            },
    {
        proof {
            reveal(sp_parse_step);
        }
        let ops = self.read_ils_operands()?;
        Ok(Asm { kind: AsmKind::LW { imm: ops.1, rs1: ops.2, rd: ops.0 } })
    }

    /// Parses one `sw rs2, imm(rs1)` line.
    fn parse_s_sw(&mut self) -> (r: Result<Asm, AsmError>)
        requires
            old(self).wf(),
            old(self).cur_tok@ == TokKind::SW,
        ensures
            final(self).input() == old(self).input(),
            match r {
                Ok(a) => final(self).wf() && sp_parse_step(old(self).input(), old(self).pos@)
                    == Ok::<(AsmSpec, int), ErrSpec>((a@, final(self).pos@)),
                Err(e) => sp_parse_step(old(self).input(), old(self).pos@) == Err::<
                    (AsmSpec, int),
                    ErrSpec,
                >(e@),
            },
    {
        proof {
            reveal(sp_parse_step);
        }
        let ops = self.read_ils_operands()?;
        Ok(Asm { kind: AsmKind::SW { imm: ops.1, rs2: ops.0, rs1: ops.2 } })
    }

    /// Parses one `addi rd, rs1, imm` line.
    fn parse_i_addi(&mut self) -> (r: Result<Asm, AsmError>)
        requires
            old(self).wf(),
            old(self).cur_tok@ == TokKind::ADDI,
        ensures
            final(self).input() == old(self).input(),
            match r {
                Ok(a) => final(self).wf() && sp_parse_step(old(self).input(), old(self).pos@)
                    == Ok::<(AsmSpec, int), ErrSpec>((a@, final(self).pos@)),
                Err(e) => sp_parse_step(old(self).input(), old(self).pos@) == Err::<
                    (AsmSpec, int),
                    ErrSpec,
                >(e@),
            },
    {
        proof {
            reveal(sp_parse_step);
        }
        let ops = self.read_triplet()?;
        Ok(Asm { kind: AsmKind::ADDI { imm: ops.2, rs1: ops.1, rd: ops.0 } })
    }

    /// Parses one `slti rd, rs1, imm` line.
    fn parse_i_slti(&mut self) -> (r: Result<Asm, AsmError>)
        requires
            old(self).wf(),
            old(self).cur_tok@ == TokKind::SLTI,
        ensures
            final(self).input() == old(self).input(),
            match r {
                Ok(a) => final(self).wf() && sp_parse_step(old(self).input(), old(self).pos@)
                    == Ok::<(AsmSpec, int), ErrSpec>((a@, final(self).pos@)),
                Err(e) => sp_parse_step(old(self).input(), old(self).pos@) == Err::<
                    (AsmSpec, int),
                    ErrSpec,
                >(e@),
            },
    {
        proof {
            reveal(sp_parse_step);
        }
        let ops = self.read_triplet()?;
        Ok(Asm { kind: AsmKind::SLTI { imm: ops.2, rs1: ops.1, rd: ops.0 } })
    }

    /// Parses one `sltiu rd, rs1, imm` line.
    fn parse_i_sltiu(&mut self) -> (r: Result<Asm, AsmError>)
        requires
            old(self).wf(),
            old(self).cur_tok@ == TokKind::SLTIU,
        ensures
            final(self).input() == old(self).input(),
            match r {
                Ok(a) => final(self).wf() && sp_parse_step(old(self).input(), old(self).pos@)
                    == Ok::<(AsmSpec, int), ErrSpec>((a@, final(self).pos@)),
                Err(e) => sp_parse_step(old(self).input(), old(self).pos@) == Err::<
                    (AsmSpec, int),
                    ErrSpec,
                >(e@),
            },
    {
        proof {
            reveal(sp_parse_step);
        }
        let ops = self.read_triplet()?;
        Ok(Asm { kind: AsmKind::SLTIU { imm: ops.2, rs1: ops.1, rd: ops.0 } })
    }

    /// Parses one `slli rd, rs1, imm` line.
    fn parse_i_slli(&mut self) -> (r: Result<Asm, AsmError>)
        requires
            old(self).wf(),
            old(self).cur_tok@ == TokKind::SLLI,
        ensures
            final(self).input() == old(self).input(),
            match r {
                Ok(a) => final(self).wf() && sp_parse_step(old(self).input(), old(self).pos@)
                    == Ok::<(AsmSpec, int), ErrSpec>((a@, final(self).pos@)),
                Err(e) => sp_parse_step(old(self).input(), old(self).pos@) == Err::<
                    (AsmSpec, int),
                    ErrSpec,
                >(e@),
            },
    {
        proof {
            reveal(sp_parse_step);
        }
        let ops = self.read_triplet()?;
        Ok(Asm { kind: AsmKind::SLLI { imm: ops.2, rs1: ops.1, rd: ops.0 } })
    }

    /// Parses one `srli rd, rs1, imm` line.
    fn parse_i_srli(&mut self) -> (r: Result<Asm, AsmError>)
        requires
            old(self).wf(),
            old(self).cur_tok@ == TokKind::SRLI,
        ensures
            final(self).input() == old(self).input(),
            match r {
                Ok(a) => final(self).wf() && sp_parse_step(old(self).input(), old(self).pos@)
                    == Ok::<(AsmSpec, int), ErrSpec>((a@, final(self).pos@)),
                Err(e) => sp_parse_step(old(self).input(), old(self).pos@) == Err::<
                    (AsmSpec, int),
                    ErrSpec,
                >(e@),
            },
    {
        proof {
            reveal(sp_parse_step);
        }
        let ops = self.read_triplet()?;
        Ok(Asm { kind: AsmKind::SRLI { imm: ops.2, rs1: ops.1, rd: ops.0 } })
    }

    /// Parses one `srai rd, rs1, imm` line.
    fn parse_i_srai(&mut self) -> (r: Result<Asm, AsmError>)
        requires
            old(self).wf(),
            old(self).cur_tok@ == TokKind::SRAI,
        ensures
            final(self).input() == old(self).input(),
            match r {
                Ok(a) => final(self).wf() && sp_parse_step(old(self).input(), old(self).pos@)
                    == Ok::<(AsmSpec, int), ErrSpec>((a@, final(self).pos@)),
                Err(e) => sp_parse_step(old(self).input(), old(self).pos@) == Err::<
                    (AsmSpec, int),
                    ErrSpec,
                >(e@),
            },
    {
        proof {
            reveal(sp_parse_step);
        }
        let ops = self.read_triplet()?;
        Ok(Asm { kind: AsmKind::SRAI { imm: ops.2, rs1: ops.1, rd: ops.0 } })
    }

    /// Parses one `add rd, rs1, rs2` line.
    fn parse_r_add(&mut self) -> (r: Result<Asm, AsmError>)
        requires
            old(self).wf(),
            old(self).cur_tok@ == TokKind::ADD,
        ensures
            final(self).input() == old(self).input(),
            match r {
                Ok(a) => final(self).wf() && sp_parse_step(old(self).input(), old(self).pos@)
                    == Ok::<(AsmSpec, int), ErrSpec>((a@, final(self).pos@)),
                Err(e) => sp_parse_step(old(self).input(), old(self).pos@) == Err::<
                    (AsmSpec, int),
                    ErrSpec,
                >(e@),
            },
    {
        proof {
            reveal(sp_parse_step);
        }
        let ops = self.read_triplet()?;
        Ok(Asm { kind: AsmKind::ADD { rs2: ops.2, rs1: ops.1, rd: ops.0 } })
    }

    /// Parses one `sub rd, rs1, rs2` line.
    fn parse_r_sub(&mut self) -> (r: Result<Asm, AsmError>)
        requires
            old(self).wf(),
            old(self).cur_tok@ == TokKind::SUB,
        ensures
            final(self).input() == old(self).input(),
            match r {
                Ok(a) => final(self).wf() && sp_parse_step(old(self).input(), old(self).pos@)
                    == Ok::<(AsmSpec, int), ErrSpec>((a@, final(self).pos@)),
                Err(e) => sp_parse_step(old(self).input(), old(self).pos@) == Err::<
                    (AsmSpec, int),
                    ErrSpec,
                >(e@),
            },
    {
        proof {
            reveal(sp_parse_step);
        }
        let ops = self.read_triplet()?;
        Ok(Asm { kind: AsmKind::SUB { rs2: ops.2, rs1: ops.1, rd: ops.0 } })
    }

    /// Parses one `and rd, rs1, rs2` line.
    fn parse_r_and(&mut self) -> (r: Result<Asm, AsmError>)
        requires
            old(self).wf(),
            old(self).cur_tok@ == TokKind::AND,
        ensures
            final(self).input() == old(self).input(),
            match r {
                Ok(a) => final(self).wf() && sp_parse_step(old(self).input(), old(self).pos@)
                    == Ok::<(AsmSpec, int), ErrSpec>((a@, final(self).pos@)),
                Err(e) => sp_parse_step(old(self).input(), old(self).pos@) == Err::<
                    (AsmSpec, int),
                    ErrSpec,
                >(e@),
            },
    {
        proof {
            reveal(sp_parse_step);
        }
        let ops = self.read_triplet()?;
        Ok(Asm { kind: AsmKind::AND { rs2: ops.2, rs1: ops.1, rd: ops.0 } })
    }

    /// Parses one `or rd, rs1, rs2` line.
    fn parse_r_or(&mut self) -> (r: Result<Asm, AsmError>)
        requires
            old(self).wf(),
            old(self).cur_tok@ == TokKind::OR,
        ensures
            final(self).input() == old(self).input(),
            match r {
                Ok(a) => final(self).wf() && sp_parse_step(old(self).input(), old(self).pos@)
                    == Ok::<(AsmSpec, int), ErrSpec>((a@, final(self).pos@)),
                Err(e) => sp_parse_step(old(self).input(), old(self).pos@) == Err::<
                    (AsmSpec, int),
                    ErrSpec,
                >(e@),
            },
    {
        proof {
            reveal(sp_parse_step);
        }
        let ops = self.read_triplet()?;
        Ok(Asm { kind: AsmKind::OR { rs2: ops.2, rs1: ops.1, rd: ops.0 } })
    }

    /// Parses one `xor rd, rs1, rs2` line.
    fn parse_r_xor(&mut self) -> (r: Result<Asm, AsmError>)
        requires
            old(self).wf(),
            old(self).cur_tok@ == TokKind::XOR,
        ensures
            final(self).input() == old(self).input(),
            match r {
                Ok(a) => final(self).wf() && sp_parse_step(old(self).input(), old(self).pos@)
                    == Ok::<(AsmSpec, int), ErrSpec>((a@, final(self).pos@)),
                Err(e) => sp_parse_step(old(self).input(), old(self).pos@) == Err::<
                    (AsmSpec, int),
                    ErrSpec,
                >(e@),
            },
    {
        proof {
            reveal(sp_parse_step);
        }
        let ops = self.read_triplet()?;
        Ok(Asm { kind: AsmKind::XOR { rs2: ops.2, rs1: ops.1, rd: ops.0 } })
    }

    /// Parses one `slt rd, rs1, rs2` line.
    fn parse_r_slt(&mut self) -> (r: Result<Asm, AsmError>)
        requires
            old(self).wf(),
            old(self).cur_tok@ == TokKind::SLT,
        ensures
            final(self).input() == old(self).input(),
            match r {
                Ok(a) => final(self).wf() && sp_parse_step(old(self).input(), old(self).pos@)
                    == Ok::<(AsmSpec, int), ErrSpec>((a@, final(self).pos@)),
                Err(e) => sp_parse_step(old(self).input(), old(self).pos@) == Err::<
                    (AsmSpec, int),
                    ErrSpec,
                >(e@),
            },
    {
        proof {
            reveal(sp_parse_step);
        }
        let ops = self.read_triplet()?;
        Ok(Asm { kind: AsmKind::SLT { rs2: ops.2, rs1: ops.1, rd: ops.0 } })
    }

    /// Parses one `sltu rd, rs1, rs2` line.
    fn parse_r_sltu(&mut self) -> (r: Result<Asm, AsmError>)
        requires
            old(self).wf(),
            old(self).cur_tok@ == TokKind::SLTU,
        ensures
            final(self).input() == old(self).input(),
            match r {
                Ok(a) => final(self).wf() && sp_parse_step(old(self).input(), old(self).pos@)
                    == Ok::<(AsmSpec, int), ErrSpec>((a@, final(self).pos@)),
                Err(e) => sp_parse_step(old(self).input(), old(self).pos@) == Err::<
                    (AsmSpec, int),
                    ErrSpec,
                >(e@),
            },
    {
        proof {
            reveal(sp_parse_step);
        }
        let ops = self.read_triplet()?;
        Ok(Asm { kind: AsmKind::SLTU { rs2: ops.2, rs1: ops.1, rd: ops.0 } })
    }

    /// Parses one `sll rd, rs1, rs2` line.
    fn parse_r_sll(&mut self) -> (r: Result<Asm, AsmError>)
        requires
            old(self).wf(),
            old(self).cur_tok@ == TokKind::SLL,
        ensures
            final(self).input() == old(self).input(),
            match r {
                Ok(a) => final(self).wf() && sp_parse_step(old(self).input(), old(self).pos@)
                    == Ok::<(AsmSpec, int), ErrSpec>((a@, final(self).pos@)),
                Err(e) => sp_parse_step(old(self).input(), old(self).pos@) == Err::<
                    (AsmSpec, int),
                    ErrSpec,
                >(e@),
            },
    {
        proof {
            reveal(sp_parse_step);
        }
        let ops = self.read_triplet()?;
        Ok(Asm { kind: AsmKind::SLL { rs2: ops.2, rs1: ops.1, rd: ops.0 } })
    }

    /// Parses one `srl rd, rs1, rs2` line.
    fn parse_r_srl(&mut self) -> (r: Result<Asm, AsmError>)
        requires
            old(self).wf(),
            old(self).cur_tok@ == TokKind::SRL,
        ensures
            final(self).input() == old(self).input(),
            match r {
                Ok(a) => final(self).wf() && sp_parse_step(old(self).input(), old(self).pos@)
                    == Ok::<(AsmSpec, int), ErrSpec>((a@, final(self).pos@)),
                Err(e) => sp_parse_step(old(self).input(), old(self).pos@) == Err::<
                    (AsmSpec, int),
                    ErrSpec,
                >(e@),
            },
    {
        proof {
            reveal(sp_parse_step);
        }
        let ops = self.read_triplet()?;
        Ok(Asm { kind: AsmKind::SRL { rs2: ops.2, rs1: ops.1, rd: ops.0 } })
    }

    /// Parses one `sra rd, rs1, rs2` line.
    fn parse_r_sra(&mut self) -> (r: Result<Asm, AsmError>)
        requires
            old(self).wf(),
            old(self).cur_tok@ == TokKind::SRA,
        ensures
            final(self).input() == old(self).input(),
            match r {
                Ok(a) => final(self).wf() && sp_parse_step(old(self).input(), old(self).pos@)
                    == Ok::<(AsmSpec, int), ErrSpec>((a@, final(self).pos@)),
                Err(e) => sp_parse_step(old(self).input(), old(self).pos@) == Err::<
                    (AsmSpec, int),
                    ErrSpec,
                >(e@),
            },
    {
        proof {
            reveal(sp_parse_step);
        }
        let ops = self.read_triplet()?;
        Ok(Asm { kind: AsmKind::SRA { rs2: ops.2, rs1: ops.1, rd: ops.0 } })
    }

    /// Parses one `beq rd, rs1, (imm | label)` line.
    fn parse_b_beq(&mut self) -> (r: Result<Asm, AsmError>)
        requires
            old(self).wf(),
            old(self).cur_tok@ == TokKind::BEQ,
        ensures
            final(self).input() == old(self).input(),
            match r {
                Ok(a) => final(self).wf() && sp_parse_step(old(self).input(), old(self).pos@)
                    == Ok::<(AsmSpec, int), ErrSpec>((a@, final(self).pos@)),
                Err(e) => sp_parse_step(old(self).input(), old(self).pos@) == Err::<
                    (AsmSpec, int),
                    ErrSpec,
                >(e@),
            },
    {
        proof {
            reveal(sp_parse_step);
        }
        let ops = self.read_branch_operands()?;
        Ok(Asm { kind: AsmKind::BEQ { imm: ops.2, rs1: ops.1, rd: ops.0, label: ops.3 } })
    }

    /// Parses one `bne rd, rs1, (imm | label)` line.
    fn parse_b_bne(&mut self) -> (r: Result<Asm, AsmError>)
        requires
            old(self).wf(),
            old(self).cur_tok@ == TokKind::BNE,
        ensures
            final(self).input() == old(self).input(),
            match r {
                Ok(a) => final(self).wf() && sp_parse_step(old(self).input(), old(self).pos@)
                    == Ok::<(AsmSpec, int), ErrSpec>((a@, final(self).pos@)),
                Err(e) => sp_parse_step(old(self).input(), old(self).pos@) == Err::<
                    (AsmSpec, int),
                    ErrSpec,
                >(e@),
            },
    {
        proof {
            reveal(sp_parse_step);
        }
        let ops = self.read_branch_operands()?;
        Ok(Asm { kind: AsmKind::BNE { imm: ops.2, rs1: ops.1, rd: ops.0, label: ops.3 } })
    }

    /// Parses one `blt rd, rs1, (imm | label)` line.
    fn parse_b_blt(&mut self) -> (r: Result<Asm, AsmError>)
        requires
            old(self).wf(),
            old(self).cur_tok@ == TokKind::BLT,
        ensures
            final(self).input() == old(self).input(),
            match r {
                Ok(a) => final(self).wf() && sp_parse_step(old(self).input(), old(self).pos@)
                    == Ok::<(AsmSpec, int), ErrSpec>((a@, final(self).pos@)),
                Err(e) => sp_parse_step(old(self).input(), old(self).pos@) == Err::<
                    (AsmSpec, int),
                    ErrSpec,
                >(e@),
            },
    {
        proof {
            reveal(sp_parse_step);
        }
        let ops = self.read_branch_operands()?;
        Ok(Asm { kind: AsmKind::BLT { imm: ops.2, rs1: ops.1, rd: ops.0, label: ops.3 } })
    }

    /// Parses one `bge rd, rs1, (imm | label)` line.
    fn parse_b_bge(&mut self) -> (r: Result<Asm, AsmError>)
        requires
            old(self).wf(),
            old(self).cur_tok@ == TokKind::BGE,
        ensures
            final(self).input() == old(self).input(),
            match r {
                Ok(a) => final(self).wf() && sp_parse_step(old(self).input(), old(self).pos@)
                    == Ok::<(AsmSpec, int), ErrSpec>((a@, final(self).pos@)),
                Err(e) => sp_parse_step(old(self).input(), old(self).pos@) == Err::<
                    (AsmSpec, int),
                    ErrSpec,
                >(e@),
            },
    {
        proof {
            reveal(sp_parse_step);
        }
        let ops = self.read_branch_operands()?;
        Ok(Asm { kind: AsmKind::BGE { imm: ops.2, rs1: ops.1, rd: ops.0, label: ops.3 } })
    }

    /// Parses one `bltu rd, rs1, (imm | label)` line.
    fn parse_b_bltu(&mut self) -> (r: Result<Asm, AsmError>)
        requires
            old(self).wf(),
            old(self).cur_tok@ == TokKind::BLTU,
        ensures
            final(self).input() == old(self).input(),
            match r {
                Ok(a) => final(self).wf() && sp_parse_step(old(self).input(), old(self).pos@)
                    == Ok::<(AsmSpec, int), ErrSpec>((a@, final(self).pos@)),
                Err(e) => sp_parse_step(old(self).input(), old(self).pos@) == Err::<
                    (AsmSpec, int),
                    ErrSpec,
                >(e@),
            },
    {
        proof {
            reveal(sp_parse_step);
        }
        let ops = self.read_branch_operands()?;
        Ok(Asm { kind: AsmKind::BLTU { imm: ops.2, rs1: ops.1, rd: ops.0, label: ops.3 } })
    }

    /// Parses one `bgeu rd, rs1, (imm | label)` line.
    fn parse_b_bgeu(&mut self) -> (r: Result<Asm, AsmError>)
        requires
            old(self).wf(),
            old(self).cur_tok@ == TokKind::BGEU,
        ensures
            final(self).input() == old(self).input(),
            match r {
                Ok(a) => final(self).wf() && sp_parse_step(old(self).input(), old(self).pos@)
                    == Ok::<(AsmSpec, int), ErrSpec>((a@, final(self).pos@)),
                Err(e) => sp_parse_step(old(self).input(), old(self).pos@) == Err::<
                    (AsmSpec, int),
                    ErrSpec,
                >(e@),
            },
    {
        proof {
            reveal(sp_parse_step);
        }
        let ops = self.read_branch_operands()?;
        Ok(Asm { kind: AsmKind::BGEU { imm: ops.2, rs1: ops.1, rd: ops.0, label: ops.3 } })
    }

    /// Parses one label-definition line `SYMBOL :`.
    fn parse_label(&mut self) -> (r: Result<Asm, AsmError>)
        requires
            old(self).wf(),
            old(self).cur_tok@ is Symbol,
        ensures
            final(self).input() == old(self).input(),
            match r {
                Ok(a) => final(self).wf() && sp_parse_step(old(self).input(), old(self).pos@)
                    == Ok::<(AsmSpec, int), ErrSpec>((a@, final(self).pos@)),
                Err(e) => sp_parse_step(old(self).input(), old(self).pos@) == Err::<
                    (AsmSpec, int),
                    ErrSpec,
                >(e@),
            },
    {
        proof {
            reveal(sp_parse_step);
        }
        let name = match &self.cur_tok.kind {
            TokenKind::Symbol(s) => s.clone(),
            _ => {
                proof {
                    assert(false);
                }
                String::new()
            },
        };
        self.next_token()?;
        self.read_token_kind(TokenKind::Colon)?;
        self.read_line_end()?;
        Ok(Asm { kind: AsmKind::LABEL { l: name } })
    }
}

/// The bounds of one token step: the end position never runs backwards nor
/// past the input, and every token but the end-of-input sentinel makes
/// strict progress.
pub proof fn lemma_tok_step_bounds(s: Seq<u8>, p: int)
    requires
        0 <= p <= s.len(),
    ensures
        p <= tok_end(s, p) <= s.len(),
        tok_of(s, p) != Some(TokKind::EOF) ==> p < tok_end(s, p),
{
    lemma_skip_ws(s, p);
    let st = crate::lexer::skip_ws_from(s, p);
    let c = crate::lexer::byte_at(s, st);
    if crate::lexer::is_digit_byte(c) || (c == 45 && crate::lexer::is_digit_byte(
        crate::lexer::byte_at(s, st + 1),
    )) {
        if c == 45 {
            lemma_scan_digits(s, st + 1);
        } else {
            lemma_scan_digits(s, st);
        }
    } else if crate::lexer::is_letter_byte(c) {
        lemma_scan_ident(s, st);
    }
}


/// Law: exactly one of the immediate and label operands of every branch line
/// the parser accepts is populated — an integer target populates the
/// immediate and no label, a symbol target populates the label and no
/// immediate.
#[verifier::rlimit(100)]
pub proof fn lemma_branch_target_exclusive(s: Seq<u8>, p: int)
    ensures
        match sp_parse_step(s, p) {
            Ok(t) => match t.0 {
                AsmSpec::BEQ { imm, rs1, rd, label } => (imm is Some && label is None) || (
                imm is None && label is Some),
                AsmSpec::BNE { imm, rs1, rd, label } => (imm is Some && label is None) || (
                imm is None && label is Some),
                AsmSpec::BLT { imm, rs1, rd, label } => (imm is Some && label is None) || (
                imm is None && label is Some),
                AsmSpec::BGE { imm, rs1, rd, label } => (imm is Some && label is None) || (
                imm is None && label is Some),
                AsmSpec::BLTU { imm, rs1, rd, label } => (imm is Some && label is None) || (
                imm is None && label is Some),
                AsmSpec::BGEU { imm, rs1, rd, label } => (imm is Some && label is None) || (
                imm is None && label is Some),
                _ => true,
            },
            Err(_) => true,
        },
{
    reveal(sp_parse_step);
}


} // verus!
