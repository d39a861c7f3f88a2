//! Tokens produced by the lexer, and the keyword table mapping mnemonic
//! spellings to their token kinds.

use vstd::prelude::*;

verus! {

/// Mathematical model of a token kind: symbols are character sequences and
/// numbers are unbounded integers.
pub enum TokKind {
    NewLine,
    Comma,
    Colon,
    LParen,
    RParen,
    Symbol(Seq<char>),
    Number(int),
    EOF,
    ILEGAL,
    LW,
    ADDI,
    SW,
    ADD,
    SUB,
    AND,
    OR,
    XOR,
    ANDI,
    ORI,
    XORI,
    SLT,
    SLTU,
    SLTI,
    SLTIU,
    SLL,
    SRL,
    SRA,
    SLLI,
    SRLI,
    SRAI,
    BEQ,
    BNE,
    BLT,
    BGE,
    BLTU,
    BGEU,
}

/// The kind of a token: line structure, punctuation, literals, or one of the
/// instruction mnemonics.
#[derive(Debug, PartialEq, Eq)]
pub enum TokenKind {
    NewLine,
    Comma,
    Colon,
    LParen,
    RParen,
    Symbol(String),
    Number(isize),
    EOF,
    ILEGAL,
    LW,
    ADDI,
    SW,
    ADD,
    SUB,
    AND,
    OR,
    XOR,
    ANDI,
    ORI,
    XORI,
    SLT,
    SLTU,
    SLTI,
    SLTIU,
    SLL,
    SRL,
    SRA,
    SLLI,
    SRLI,
    SRAI,
    BEQ,
    BNE,
    BLT,
    BGE,
    BLTU,
    BGEU,
}

impl View for TokenKind {
    type V = TokKind;

    open spec fn view(&self) -> TokKind {
        match self {
            TokenKind::NewLine => TokKind::NewLine,
            TokenKind::Comma => TokKind::Comma,
            TokenKind::Colon => TokKind::Colon,
            TokenKind::LParen => TokKind::LParen,
            TokenKind::RParen => TokKind::RParen,
            TokenKind::Symbol(s) => TokKind::Symbol(s@),
            TokenKind::Number(n) => TokKind::Number(*n as int),
            TokenKind::EOF => TokKind::EOF,
            TokenKind::ILEGAL => TokKind::ILEGAL,
            TokenKind::LW => TokKind::LW,
            TokenKind::ADDI => TokKind::ADDI,
            TokenKind::SW => TokKind::SW,
            TokenKind::ADD => TokKind::ADD,
            TokenKind::SUB => TokKind::SUB,
            TokenKind::AND => TokKind::AND,
            TokenKind::OR => TokKind::OR,
            TokenKind::XOR => TokKind::XOR,
            TokenKind::ANDI => TokKind::ANDI,
            TokenKind::ORI => TokKind::ORI,
            TokenKind::XORI => TokKind::XORI,
            TokenKind::SLT => TokKind::SLT,
            TokenKind::SLTU => TokKind::SLTU,
            TokenKind::SLTI => TokKind::SLTI,
            TokenKind::SLTIU => TokKind::SLTIU,
            TokenKind::SLL => TokKind::SLL,
            TokenKind::SRL => TokKind::SRL,
            TokenKind::SRA => TokKind::SRA,
            TokenKind::SLLI => TokKind::SLLI,
            TokenKind::SRLI => TokKind::SRLI,
            TokenKind::SRAI => TokKind::SRAI,
            TokenKind::BEQ => TokKind::BEQ,
            TokenKind::BNE => TokKind::BNE,
            TokenKind::BLT => TokKind::BLT,
            TokenKind::BGE => TokKind::BGE,
            TokenKind::BLTU => TokKind::BLTU,
            TokenKind::BGEU => TokKind::BGEU,
        }
    }
}

impl TokenKind {
    /// An exact copy of this token kind.
    pub fn dup(&self) -> (r: TokenKind)
        ensures
            r@ == self@,
    {
        match self {
            TokenKind::NewLine => TokenKind::NewLine,
            TokenKind::Comma => TokenKind::Comma,
            TokenKind::Colon => TokenKind::Colon,
            TokenKind::LParen => TokenKind::LParen,
            TokenKind::RParen => TokenKind::RParen,
            TokenKind::Symbol(s) => TokenKind::Symbol(s.clone()),
            TokenKind::Number(n) => TokenKind::Number(*n),
            TokenKind::EOF => TokenKind::EOF,
            TokenKind::ILEGAL => TokenKind::ILEGAL,
            TokenKind::LW => TokenKind::LW,
            TokenKind::ADDI => TokenKind::ADDI,
            TokenKind::SW => TokenKind::SW,
            TokenKind::ADD => TokenKind::ADD,
            TokenKind::SUB => TokenKind::SUB,
            TokenKind::AND => TokenKind::AND,
            TokenKind::OR => TokenKind::OR,
            TokenKind::XOR => TokenKind::XOR,
            TokenKind::ANDI => TokenKind::ANDI,
            TokenKind::ORI => TokenKind::ORI,
            TokenKind::XORI => TokenKind::XORI,
            TokenKind::SLT => TokenKind::SLT,
            TokenKind::SLTU => TokenKind::SLTU,
            TokenKind::SLTI => TokenKind::SLTI,
            TokenKind::SLTIU => TokenKind::SLTIU,
            TokenKind::SLL => TokenKind::SLL,
            TokenKind::SRL => TokenKind::SRL,
            TokenKind::SRA => TokenKind::SRA,
            TokenKind::SLLI => TokenKind::SLLI,
            TokenKind::SRLI => TokenKind::SRLI,
            TokenKind::SRAI => TokenKind::SRAI,
            TokenKind::BEQ => TokenKind::BEQ,
            TokenKind::BNE => TokenKind::BNE,
            TokenKind::BLT => TokenKind::BLT,
            TokenKind::BGE => TokenKind::BGE,
            TokenKind::BLTU => TokenKind::BLTU,
            TokenKind::BGEU => TokenKind::BGEU,
        }
    }
}

/// A token: a tagged value produced by the lexer and consumed by the parser.
#[derive(Debug, PartialEq, Eq)]
pub struct Token {
    pub kind: TokenKind,
}

impl View for Token {
    type V = TokKind;

    open spec fn view(&self) -> TokKind {
        self.kind@
    }
}

impl Token {
    /// An exact copy of this token.
    pub fn dup(&self) -> (r: Token)
        ensures
            r@ == self@,
    {
        Token { kind: self.kind.dup() }
    }
}

/// Appends one character to a string.
///
/// Relies on String::push: the pushed character is added at the end and the
/// rest of the string is unchanged.
#[verifier::external_body]
pub(crate) fn push_char(s: &mut String, c: char)
    ensures
        final(s)@ == old(s)@.push(c),
{
    s.push(c);
}

/// Character-for-character equality of two string slices.
pub fn str_eq(a: &str, b: &str) -> (r: bool)
    ensures
        r == (a@ == b@),
{
    let la = a.unicode_len();
    let lb = b.unicode_len();
    if la != lb {
        proof {
            assert(a@ != b@) by {
                assert(a@.len() != b@.len());
            }
        }
        return false;
    }
    let mut i: usize = 0;
    while i < la
        invariant
            la == a@.len(),
            lb == b@.len(),
            la == lb,
            i <= la,
            forall|j: int| 0 <= j < i ==> a@[j] == b@[j],
        decreases la - i,
    {
        if a.get_char(i) != b.get_char(i) {
            return false;
        }
        i = i + 1;
    }
    proof {
        assert(a@ =~= b@);
    }
    true
}

/// The keyword table as a mathematical function: the token kind reserved for
/// a mnemonic spelling, if there is one.
pub open spec fn spec_lookup_keyword(s: Seq<char>) -> Option<TokKind> {
    if s == "lw"@ {
        Some(TokKind::LW)
    } else if s == "sw"@ {
        Some(TokKind::SW)
    } else if s == "addi"@ {
        Some(TokKind::ADDI)
    } else if s == "add"@ {
        Some(TokKind::ADD)
    } else if s == "sub"@ {
        Some(TokKind::SUB)
    } else if s == "and"@ {
        Some(TokKind::AND)
    } else if s == "or"@ {
        Some(TokKind::OR)
    } else if s == "xor"@ {
        Some(TokKind::XOR)
    } else if s == "andi"@ {
        Some(TokKind::ANDI)
    } else if s == "ori"@ {
        Some(TokKind::ORI)
    } else if s == "xori"@ {
        Some(TokKind::XORI)
    } else if s == "slt"@ {
        Some(TokKind::SLT)
    } else if s == "sltu"@ {
        Some(TokKind::SLTU)
    } else if s == "slti"@ {
        Some(TokKind::SLTI)
    } else if s == "sltiu"@ {
        Some(TokKind::SLTIU)
    } else if s == "sll"@ {
        Some(TokKind::SLL)
    } else if s == "srl"@ {
        Some(TokKind::SRL)
    } else if s == "sra"@ {
        Some(TokKind::SRA)
    } else if s == "slli"@ {
        Some(TokKind::SLLI)
    } else if s == "srli"@ {
        Some(TokKind::SRLI)
    } else if s == "srai"@ {
        Some(TokKind::SRAI)
    } else if s == "beq"@ {
        Some(TokKind::BEQ)
    } else if s == "bne"@ {
        Some(TokKind::BNE)
    } else if s == "blt"@ {
        Some(TokKind::BLT)
    } else if s == "bge"@ {
        Some(TokKind::BGE)
    } else if s == "bltu"@ {
        Some(TokKind::BLTU)
    } else if s == "bgeu"@ {
        Some(TokKind::BGEU)
    } else {
        None
    }
}

/// If `ident` is a reserved mnemonic, the token kind it stands for.
pub fn lookup_keyword(ident: &str) -> (r: Option<TokenKind>)
    ensures
        match r {
            Some(k) => spec_lookup_keyword(ident@) == Some(k@),
            None => spec_lookup_keyword(ident@) is None,
        },
{
    if str_eq(ident, "lw") {
        Some(TokenKind::LW)
    } else if str_eq(ident, "sw") {
        Some(TokenKind::SW)
    } else if str_eq(ident, "addi") {
        Some(TokenKind::ADDI)
    } else if str_eq(ident, "add") {
        Some(TokenKind::ADD)
    } else if str_eq(ident, "sub") {
        Some(TokenKind::SUB)
    } else if str_eq(ident, "and") {
        Some(TokenKind::AND)
    } else if str_eq(ident, "or") {
        Some(TokenKind::OR)
    } else if str_eq(ident, "xor") {
        Some(TokenKind::XOR)
    } else if str_eq(ident, "andi") {
        Some(TokenKind::ANDI)
    } else if str_eq(ident, "ori") {
        Some(TokenKind::ORI)
    } else if str_eq(ident, "xori") {
        Some(TokenKind::XORI)
    } else if str_eq(ident, "slt") {
        Some(TokenKind::SLT)
    } else if str_eq(ident, "sltu") {
        Some(TokenKind::SLTU)
    } else if str_eq(ident, "slti") {
        Some(TokenKind::SLTI)
    } else if str_eq(ident, "sltiu") {
        Some(TokenKind::SLTIU)
    } else if str_eq(ident, "sll") {
        Some(TokenKind::SLL)
    } else if str_eq(ident, "srl") {
        Some(TokenKind::SRL)
    } else if str_eq(ident, "sra") {
        Some(TokenKind::SRA)
    } else if str_eq(ident, "slli") {
        Some(TokenKind::SLLI)
    } else if str_eq(ident, "srli") {
        Some(TokenKind::SRLI)
    } else if str_eq(ident, "srai") {
        Some(TokenKind::SRAI)
    } else if str_eq(ident, "beq") {
        Some(TokenKind::BEQ)
    } else if str_eq(ident, "bne") {
        Some(TokenKind::BNE)
    } else if str_eq(ident, "blt") {
        Some(TokenKind::BLT)
    } else if str_eq(ident, "bge") {
        Some(TokenKind::BGE)
    } else if str_eq(ident, "bltu") {
        Some(TokenKind::BLTU)
    } else if str_eq(ident, "bgeu") {
        Some(TokenKind::BGEU)
    } else {
        None
    }
}

} // verus!
