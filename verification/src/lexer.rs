//! The lexer: a byte-stream scanner that turns assembly text into tokens,
//! one at a time, against an exact byte-level specification.

use vstd::prelude::*;
use vstd::string::StrSliceExecFns;
use vstd::string::StringSliceAdditionalSpecFns;
use crate::error::AsmError;
use crate::token::Token;
use crate::token::TokenKind;
use crate::token::TokKind;
use crate::token::spec_lookup_keyword;
use crate::token::lookup_keyword;
use crate::token::push_char;

verus! {

/// The byte at position `i`, with 0 standing for end of input.
pub open spec fn byte_at(s: Seq<u8>, i: int) -> u8 {
    if 0 <= i < s.len() {
        s[i]
    } else {
        0
    }
}

/// Space or tab; newlines are significant and are not whitespace here.
pub open spec fn is_ws_byte(c: u8) -> bool {
    c == 32 || c == 9
}

/// Carriage return or line feed.
pub open spec fn is_nl_byte(c: u8) -> bool {
    c == 13 || c == 10
}

/// An ASCII letter.
pub open spec fn is_letter_byte(c: u8) -> bool {
    (97 <= c && c <= 122) || (65 <= c && c <= 90)
}

/// An ASCII decimal digit.
pub open spec fn is_digit_byte(c: u8) -> bool {
    48 <= c && c <= 57
}

/// A byte that may continue an identifier: a letter or a digit.
pub open spec fn is_ident_byte(c: u8) -> bool {
    is_letter_byte(c) || is_digit_byte(c)
}

/// The first position at or after `i` whose byte is not whitespace.
pub open spec fn skip_ws_from(s: Seq<u8>, i: int) -> int
    decreases s.len() - i,
{
    if i < 0 || i >= s.len() {
        i
    } else if is_ws_byte(s[i]) {
        skip_ws_from(s, i + 1)
    } else {
        i
    }
}

/// The end of the maximal identifier run starting at `i`.
pub open spec fn scan_ident_end(s: Seq<u8>, i: int) -> int
    decreases s.len() - i,
{
    if i < 0 || i >= s.len() {
        i
    } else if is_ident_byte(s[i]) {
        scan_ident_end(s, i + 1)
    } else {
        i
    }
}

/// The end of the maximal digit run starting at `i`.
pub open spec fn scan_digits_end(s: Seq<u8>, i: int) -> int
    decreases s.len() - i,
{
    if i < 0 || i >= s.len() {
        i
    } else if is_digit_byte(s[i]) {
        scan_digits_end(s, i + 1)
    } else {
        i
    }
}

/// The end of a number literal starting at `st`: an optional minus sign
/// followed by the maximal digit run.
pub open spec fn num_end(s: Seq<u8>, st: int) -> int {
    if byte_at(s, st) == 45 {
        scan_digits_end(s, st + 1)
    } else {
        scan_digits_end(s, st)
    }
}

/// The value of a run of decimal digit bytes, most significant first.
pub open spec fn digits_val(s: Seq<u8>) -> int
    decreases s.len(),
{
    if s.len() == 0 {
        0
    } else {
        digits_val(s.drop_last()) * 10 + (s.last() - 48)
    }
}

/// The value of a number literal: an optional minus sign, then digits.
pub open spec fn num_val(s: Seq<u8>) -> int {
    if s.len() > 0 && s[0] == 45 {
        -digits_val(s.subrange(1, s.len() as int))
    } else {
        digits_val(s)
    }
}

/// The bytes of `s` read as characters, one character per byte.
pub open spec fn bytes_as_chars(s: Seq<u8>) -> Seq<char> {
    Seq::new(s.len(), |i: int| s[i] as char)
}

/// One step of the tokenizer: the token beginning at scan position `pos`
/// (after whitespace), or `None` for a number literal out of machine range,
/// together with the scan position after the token. Positions never pass the
/// end of the input.
pub open spec fn tok_step(s: Seq<u8>, pos: int) -> (Option<TokKind>, int) {
    let st = skip_ws_from(s, pos);
    let c = byte_at(s, st);
    let single = if st + 1 <= s.len() {
        st + 1
    } else {
        s.len() as int
    };
    if is_nl_byte(c) {
        (Some(TokKind::NewLine), single)
    } else if c == 44 {
        (Some(TokKind::Comma), single)
    } else if c == 58 {
        (Some(TokKind::Colon), single)
    } else if c == 40 {
        (Some(TokKind::LParen), single)
    } else if c == 41 {
        (Some(TokKind::RParen), single)
    } else if c == 0 {
        (Some(TokKind::EOF), single)
    } else if is_digit_byte(c) || (c == 45 && is_digit_byte(byte_at(s, st + 1))) {
        let e = num_end(s, st);
        let v = num_val(s.subrange(st, e));
        if isize::MIN <= v <= isize::MAX {
            (Some(TokKind::Number(v)), e)
        } else {
            (None, e)
        }
    } else if is_letter_byte(c) {
        let e = scan_ident_end(s, st);
        let ident = bytes_as_chars(s.subrange(st, e));
        match spec_lookup_keyword(ident) {
            Some(k) => (Some(k), e),
            None => (Some(TokKind::Symbol(ident)), e),
        }
    } else {
        (Some(TokKind::ILEGAL), single)
    }
}

/// The token beginning at `pos`, or `None` for an invalid number literal.
pub open spec fn tok_of(s: Seq<u8>, pos: int) -> Option<TokKind> {
    tok_step(s, pos).0
}

/// The scan position after the token beginning at `pos`.
pub open spec fn tok_end(s: Seq<u8>, pos: int) -> int {
    tok_step(s, pos).1
}

/// Builds the string whose characters are the given bytes, one per byte.
fn bytes_to_string(bs: &Vec<u8>) -> (r: String)
    ensures
        r@ == bytes_as_chars(bs@),
{
    let mut out = String::new();
    let mut i: usize = 0;
    while i < bs.len()
        invariant
            i <= bs@.len(),
            out@ == bytes_as_chars(bs@.subrange(0, i as int)),
        decreases bs@.len() - i,
    {
        push_char(&mut out, bs[i] as char);
        proof {
            assert(out@ =~= bytes_as_chars(bs@.subrange(0, i + 1 as int)));
        }
        i = i + 1;
    }
    proof {
        assert(bs@.subrange(0, bs@.len() as int) =~= bs@);
    }
    out
}

/// Every position from `i` to `skip_ws_from(s, i)` is whitespace, the result
/// is between `i` and the input length, and the byte there is not whitespace.
pub proof fn lemma_skip_ws(s: Seq<u8>, i: int)
    requires
        0 <= i <= s.len(),
    ensures
        i <= skip_ws_from(s, i) <= s.len(),
        !is_ws_byte(byte_at(s, skip_ws_from(s, i))),
    decreases s.len() - i,
{
    if i < s.len() && is_ws_byte(s[i]) {
        lemma_skip_ws(s, i + 1);
    }
}

/// The digit run from `i` ends within the input, covers only digits, and
/// stops at the first byte that is not a digit.
pub proof fn lemma_scan_digits(s: Seq<u8>, i: int)
    requires
        0 <= i <= s.len(),
    ensures
        i <= scan_digits_end(s, i) <= s.len(),
        forall|j: int| i <= j < scan_digits_end(s, i) ==> is_digit_byte(s[j]),
        !is_digit_byte(byte_at(s, scan_digits_end(s, i))),
    decreases s.len() - i,
{
    if i < s.len() && is_digit_byte(s[i]) {
        lemma_scan_digits(s, i + 1);
    }
}

/// The identifier run from `i` ends within the input, covers only identifier
/// bytes, and stops at the first byte that is not one.
pub proof fn lemma_scan_ident(s: Seq<u8>, i: int)
    requires
        0 <= i <= s.len(),
    ensures
        i <= scan_ident_end(s, i) <= s.len(),
        forall|j: int| i <= j < scan_ident_end(s, i) ==> is_ident_byte(s[j]),
        !is_ident_byte(byte_at(s, scan_ident_end(s, i))),
    decreases s.len() - i,
{
    if i < s.len() && is_ident_byte(s[i]) {
        lemma_scan_ident(s, i + 1);
    }
}

/// A run of digits has a non-negative value.
proof fn lemma_digits_val_nonneg(s: Seq<u8>)
    requires
        forall|j: int| 0 <= j < s.len() ==> is_digit_byte(s[j]),
    ensures
        digits_val(s) >= 0,
    decreases s.len(),
{
    if s.len() > 0 {
        assert(forall|j: int| 0 <= j < s.drop_last().len() ==> is_digit_byte(s.drop_last()[j]));
        lemma_digits_val_nonneg(s.drop_last());
    }
}

/// Extending a run of digits on the right never decreases its value.
proof fn lemma_digits_val_prefix_le(s: Seq<u8>, i: int)
    requires
        0 <= i <= s.len(),
        forall|j: int| 0 <= j < s.len() ==> is_digit_byte(s[j]),
    ensures
        digits_val(s.subrange(0, i)) <= digits_val(s),
    decreases s.len() - i,
{
    if i == s.len() {
        assert(s.subrange(0, i) =~= s);
    } else {
        lemma_digits_val_prefix_le(s, i + 1);
        let t = s.subrange(0, i + 1);
        assert(t.drop_last() =~= s.subrange(0, i));
        assert(forall|j: int| 0 <= j < t.len() ==> is_digit_byte(t[j]));
        lemma_digits_val_nonneg(t.drop_last());
        assert(digits_val(t) == digits_val(s.subrange(0, i)) * 10 + (t.last() - 48));
        assert(digits_val(s.subrange(0, i)) <= digits_val(t)) by {
            lemma_digits_val_nonneg(s.subrange(0, i));
        }
    }
}

/// The lexer: current and lookahead byte positions into the input, and the
/// byte under the cursor, with 0 signalling end of input.
#[derive(Debug, PartialEq, Eq)]
pub struct Lexer {
    pub input: Vec<u8>,
    pub pos: usize,
    pub next_pos: usize,
    pub ch: u8,
}

impl Lexer {
    /// Structural well-formedness: the cursor is inside the input (or just at
    /// its end), the lookahead position is one past it (capped at the end),
    /// and the buffered byte is the byte under the cursor.
    pub open spec fn wf(&self) -> bool {
        &&& self.pos <= self.input@.len()
        &&& self.next_pos == if self.pos + 1 <= self.input@.len() {
            self.pos + 1
        } else {
            self.input@.len() as int
        }
        &&& self.ch == byte_at(self.input@, self.pos as int)
    }

    /// A lexer over the bytes of `input`, with the cursor on the first byte.
    pub fn new(input: &str) -> (l: Lexer)
        ensures
            l.wf(),
            l.input@ == input.spec_bytes(),
            l.pos == 0,
    {
        let bytes = input.as_bytes_vec();
        let mut l = Lexer { input: bytes, pos: 0, next_pos: 0, ch: 0 };
        l.read_char();
        l
    }

    /// Advances the cursor by one byte; at the end of the input the cursor
    /// stays put and the buffered byte is the end-of-input sentinel 0.
    pub fn read_char(&mut self)
        requires
            old(self).next_pos <= old(self).input@.len(),
        ensures
            final(self).wf(),
            final(self).input == old(self).input,
            final(self).pos == old(self).next_pos,
    {
        if self.next_pos >= self.input.len() {
            self.ch = 0;
        } else {
            self.ch = self.input[self.next_pos];
        }
        self.pos = self.next_pos;
        if self.next_pos < self.input.len() {
            self.next_pos = self.next_pos + 1;
        }
    }

    /// The byte after the cursor, if any.
    pub fn peek_char(&self) -> (r: Option<u8>)
        ensures
            r == if self.next_pos < self.input@.len() {
                Some(self.input@[self.next_pos as int])
            } else {
                None::<u8>
            },
    {
        if self.next_pos >= self.input.len() {
            return None;
        }
        Some(self.input[self.next_pos])
    }

    /// Moves the cursor past any spaces and tabs.
    pub fn skip_whitespaces(&mut self)
        requires
            old(self).wf(),
        ensures
            final(self).wf(),
            final(self).input == old(self).input,
            final(self).pos == skip_ws_from(old(self).input@, old(self).pos as int),
    {
        while self.is_whitespace()
            invariant
                self.wf(),
                self.input == old(self).input,
                skip_ws_from(self.input@, self.pos as int) == skip_ws_from(
                    old(self).input@,
                    old(self).pos as int,
                ),
            decreases self.input@.len() - self.pos,
        {
            proof {
                assert(self.pos < self.input@.len());
            }
            self.read_char();
        }
    }

    /// Reads the maximal run of letters and digits starting at the cursor.
    pub fn read_identifier(&mut self) -> (r: Vec<u8>)
        requires
            old(self).wf(),
        ensures
            final(self).wf(),
            final(self).input == old(self).input,
            final(self).pos == scan_ident_end(old(self).input@, old(self).pos as int),
            r@ == old(self).input@.subrange(old(self).pos as int, final(self).pos as int),
    {
        let mut out: Vec<u8> = Vec::new();
        while self.is_letter() || self.is_digit()
            invariant
                self.wf(),
                self.input == old(self).input,
                old(self).pos <= self.pos,
                scan_ident_end(self.input@, self.pos as int) == scan_ident_end(
                    old(self).input@,
                    old(self).pos as int,
                ),
                out@ == old(self).input@.subrange(old(self).pos as int, self.pos as int),
            decreases self.input@.len() - self.pos,
        {
            proof {
                assert(self.pos < self.input@.len());
            }
            out.push(self.ch);
            self.read_char();
            proof {
                assert(out@ =~= self.input@.subrange(old(self).pos as int, self.pos as int));
            }
        }
        out
    }

    /// Reads a number literal starting at the cursor: an optional leading
    /// minus sign, then the maximal run of digits.
    pub fn read_number(&mut self) -> (r: Vec<u8>)
        requires
            old(self).wf(),
        ensures
            final(self).wf(),
            final(self).input == old(self).input,
            final(self).pos == num_end(old(self).input@, old(self).pos as int),
            r@ == old(self).input@.subrange(old(self).pos as int, final(self).pos as int),
    {
        let mut out: Vec<u8> = Vec::new();
        let ghost start = self.pos as int;
        if self.is_minus_lit() {
            proof {
                assert(self.pos < self.input@.len());
            }
            out.push(self.ch);
            self.read_char();
        }
        proof {
            assert(out@ =~= self.input@.subrange(start, self.pos as int));
        }
        let ghost dstart = self.pos as int;
        while self.is_digit()
            invariant
                self.wf(),
                self.input == old(self).input,
                0 <= start,
                dstart <= self.pos,
                start <= dstart,
                scan_digits_end(self.input@, self.pos as int) == scan_digits_end(
                    self.input@,
                    dstart,
                ),
                out@ == self.input@.subrange(start, self.pos as int),
            decreases self.input@.len() - self.pos,
        {
            proof {
                assert(self.pos < self.input@.len());
            }
            out.push(self.ch);
            self.read_char();
            proof {
                assert(out@ =~= self.input@.subrange(start, self.pos as int));
            }
        }
        out
    }

    /// Whether the cursor byte is a space or a tab.
    pub fn is_whitespace(&self) -> (r: bool)
        ensures
            r == is_ws_byte(self.ch),
    {
        self.ch == 32 || self.ch == 9
    }

    /// Whether the cursor byte is a carriage return or a line feed.
    pub fn is_newline(&self) -> (r: bool)
        ensures
            r == is_nl_byte(self.ch),
    {
        self.ch == 13 || self.ch == 10
    }

    /// Whether the cursor byte is an ASCII letter.
    pub fn is_letter(&self) -> (r: bool)
        ensures
            r == is_letter_byte(self.ch),
    {
        (97 <= self.ch && self.ch <= 122) || (65 <= self.ch && self.ch <= 90)
    }

    /// Whether the cursor byte is an ASCII digit.
    pub fn is_digit(&self) -> (r: bool)
        ensures
            r == is_digit_byte(self.ch),
    {
        48 <= self.ch && self.ch <= 57
    }

    /// Whether the cursor byte is a minus sign.
    pub fn is_minus_lit(&self) -> (r: bool)
        ensures
            r == (self.ch == 45),
    {
        self.ch == 45
    }

    /// Parses a number literal held as bytes: an optional minus sign, then at
    /// least one digit. `None` when the value does not fit in `isize`.
    fn parse_int(bs: &Vec<u8>) -> (r: Option<isize>)
        requires
            bs@.len() > 0,
            bs@[0] == 45 ==> bs@.len() > 1,
            forall|i: int|
                (if bs@[0] == 45 {
                    1int
                } else {
                    0int
                }) <= i < bs@.len() ==> is_digit_byte(bs@[i]),
        ensures
            match r {
                Some(v) => isize::MIN <= num_val(bs@) <= isize::MAX && v as int == num_val(bs@),
                None => !(isize::MIN <= num_val(bs@) <= isize::MAX),
            },
    {
        let neg = bs[0] == 45;
        let start: usize = if neg {
            1
        } else {
            0
        };
        let ghost digits = bs@.subrange(start as int, bs@.len() as int);
        proof {
            assert(forall|j: int| 0 <= j < digits.len() ==> is_digit_byte(digits[j]));
        }
        let mut acc: isize = 0;
        let mut i: usize = start;
        while i < bs.len()
            invariant
                start <= i <= bs@.len(),
                start == if bs@[0] == 45 {
                    1int
                } else {
                    0int
                },
                neg == (bs@[0] == 45),
                digits == bs@.subrange(start as int, bs@.len() as int),
                forall|j: int| 0 <= j < digits.len() ==> is_digit_byte(digits[j]),
                forall|j: int| start <= j < bs@.len() ==> is_digit_byte(bs@[j]),
                acc as int == -digits_val(bs@.subrange(start as int, i as int)),
            decreases bs@.len() - i,
        {
            let d = bs[i];
            let ghost pre = bs@.subrange(start as int, i as int);
            let ghost ext = bs@.subrange(start as int, i + 1 as int);
            proof {
                assert(ext.drop_last() =~= pre);
                assert(ext.last() == bs@[i as int]);
                assert(digits_val(ext) == digits_val(pre) * 10 + (d - 48));
                assert(pre =~= digits.subrange(0, i - start));
                assert(ext =~= digits.subrange(0, i + 1 - start));
            }
            let acc10 = match acc.checked_mul(10) {
                Some(x) => x,
                None => {
                    proof {
                        lemma_digits_val_prefix_le(digits, i + 1 - start);
                        lemma_digits_val_nonneg(pre);
                        assert(digits_val(ext) > isize::MAX + 1) by {
                            assert(acc as int * 10 < isize::MIN);
                        }
                        assert(num_val(bs@) == if neg {
                            -digits_val(digits)
                        } else {
                            digits_val(digits)
                        }) by {
                            assert(bs@.subrange(1, bs@.len() as int) == digits || bs@.subrange(
                                0,
                                bs@.len() as int,
                            ) =~= bs@);
                            assert(!neg ==> digits =~= bs@);
                        }
                    }
                    return None;
                },
            };
            let acc2 = match acc10.checked_sub((d - 48) as isize) {
                Some(x) => x,
                None => {
                    proof {
                        lemma_digits_val_prefix_le(digits, i + 1 - start);
                        assert(digits_val(ext) > isize::MAX + 1);
                        assert(!neg ==> digits =~= bs@);
                    }
                    return None;
                },
            };
            acc = acc2;
            i = i + 1;
        }
        proof {
            assert(bs@.subrange(start as int, i as int) =~= digits);
            assert(!neg ==> digits =~= bs@);
        }
        if neg {
            Some(acc)
        } else {
            if acc == isize::MIN {
                return None;
            }
            Some(-acc)
        }
    }

    /// Skips whitespace and returns the next token, leaving the cursor just
    /// past it. A number literal that does not fit in a signed machine word
    /// is a recoverable error.
    pub fn next_token(&mut self) -> (r: Result<Token, AsmError>)
        requires
            old(self).wf(),
        ensures
            final(self).wf(),
            final(self).input == old(self).input,
            final(self).pos == tok_end(old(self).input@, old(self).pos as int),
            match r {
                Ok(tok) => tok_of(old(self).input@, old(self).pos as int) == Some(tok@),
                Err(e) => tok_of(old(self).input@, old(self).pos as int) is None && e@
                    == crate::error::ErrSpec::InvalidNumberLiteral,
            },
    {
        self.skip_whitespaces();
        let ghost inp = self.input@;
        let ghost st = self.pos as int;
        if self.is_newline() {
            self.read_char();
            Ok(Token { kind: TokenKind::NewLine })
        } else if self.ch == 44 {
            self.read_char();
            Ok(Token { kind: TokenKind::Comma })
        } else if self.ch == 58 {
            self.read_char();
            Ok(Token { kind: TokenKind::Colon })
        } else if self.ch == 40 {
            self.read_char();
            Ok(Token { kind: TokenKind::LParen })
        } else if self.ch == 41 {
            self.read_char();
            Ok(Token { kind: TokenKind::RParen })
        } else if self.ch == 0 {
            self.read_char();
            Ok(Token { kind: TokenKind::EOF })
        } else {
            let peek_digit = match self.peek_char() {
                Some(c) => 48 <= c && c <= 57,
                None => false,
            };
            proof {
                assert(peek_digit == is_digit_byte(byte_at(inp, st + 1)));
            }
            if self.is_digit() || (self.is_minus_lit() && peek_digit) {
                let bs = self.read_number();
                proof {
                    let dstart = if inp[st] == 45 {
                        st + 1
                    } else {
                        st
                    };
                    lemma_scan_digits(inp, dstart);
                    assert(bs@.len() > 0);
                    assert(bs@[0] == 45 ==> bs@.len() > 1);
                    assert(forall|j: int|
                        (if bs@[0] == 45 {
                            1int
                        } else {
                            0int
                        }) <= j < bs@.len() ==> is_digit_byte(bs@[j]));
                }
                match Self::parse_int(&bs) {
                    Some(n) => Ok(Token { kind: TokenKind::Number(n) }),
                    None => Err(AsmError::InvalidNumberLiteral),
                }
            } else if self.is_letter() {
                let bs = self.read_identifier();
                let ident = bytes_to_string(&bs);
                match lookup_keyword(ident.as_str()) {
                    Some(k) => Ok(Token { kind: k }),
                    None => Ok(Token { kind: TokenKind::Symbol(ident) }),
                }
            } else {
                self.read_char();
                Ok(Token { kind: TokenKind::ILEGAL })
            }
        }
    }
}

} // verus!
