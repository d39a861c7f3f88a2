//! Code generation: pure rendering of a concrete instruction into its 32-bit
//! binary digit string, and into the little-endian-byte hexadecimal dump.

use vstd::prelude::*;
use vstd::arithmetic::div_mod::lemma_fundamental_div_mod;
use vstd::arithmetic::div_mod::lemma_fundamental_div_mod_converse;
use vstd::arithmetic::div_mod::lemma_mod_bound;
use vstd::arithmetic::div_mod::lemma_mod_multiples_vanish;
use vstd::arithmetic::div_mod::lemma_small_mod;
use vstd::arithmetic::power2::pow2;
use vstd::arithmetic::power2::lemma2_to64;
use vstd::arithmetic::div_mod::lemma_div_basics;
use crate::inst::Inst;
use crate::inst::InstType;
use crate::token::push_char;

verus! {

/// The value of a field reduced to its declared width of `w` bits: for a
/// negative field this is its two's-complement bit pattern read unsigned.
pub open spec fn fld(v: isize, w: nat) -> int {
    (v as int) % (pow2(w) as int)
}

/// The binary digit for one bit.
pub open spec fn bit_char(b: bool) -> char {
    if b {
        '1'
    } else {
        '0'
    }
}

/// The `w` low bits of `v` as binary digits, most significant first.
pub open spec fn bits_of(v: int, w: nat) -> Seq<char>
    decreases w,
{
    if w == 0 {
        Seq::empty()
    } else {
        bits_of(v / 2, (w - 1) as nat).push(bit_char(v % 2 == 1))
    }
}

/// The binary rendering of a concrete instruction: each field as zero-padded
/// binary digits at its declared width, concatenated in the fixed order of
/// its format; the sentinel renders to the empty string.
pub open spec fn spec_bin(t: InstType) -> Seq<char> {
    match t {
        InstType::EOINST => Seq::empty(),
        InstType::I { imm, rs1, funct3, rd, opcode } => bits_of(fld(imm, 12), 12) + bits_of(
            fld(rs1, 5),
            5,
        ) + bits_of(fld(funct3, 3), 3) + bits_of(fld(rd, 5), 5) + bits_of(fld(opcode, 7), 7),
        InstType::S { imm_1, rs2, rs1, funct3, imm_2, opcode } => bits_of(fld(imm_1, 7), 7)
            + bits_of(fld(rs2, 5), 5) + bits_of(fld(rs1, 5), 5) + bits_of(fld(funct3, 3), 3)
            + bits_of(fld(imm_2, 5), 5) + bits_of(fld(opcode, 7), 7),
        InstType::R { funct7, rs2, rs1, funct3, rd, opcode } => bits_of(fld(funct7, 7), 7)
            + bits_of(fld(rs2, 5), 5) + bits_of(fld(rs1, 5), 5) + bits_of(fld(funct3, 3), 3)
            + bits_of(fld(rd, 5), 5) + bits_of(fld(opcode, 7), 7),
        InstType::B { imm_1, rs2, rs1, funct3, imm_2, opcode } => bits_of(fld(imm_1, 7), 7)
            + bits_of(fld(rs2, 5), 5) + bits_of(fld(rs1, 5), 5) + bits_of(fld(funct3, 3), 3)
            + bits_of(fld(imm_2, 5), 5) + bits_of(fld(opcode, 7), 7),
    }
}

/// The 32-bit word value of a concrete instruction: its fields, each reduced
/// to its width, packed most significant first. The sentinel has no word.
pub open spec fn word_of(t: InstType) -> int {
    match t {
        InstType::EOINST => 0,
        InstType::I { imm, rs1, funct3, rd, opcode } => fld(imm, 12) * 0x100000 + fld(rs1, 5)
            * 0x8000 + fld(funct3, 3) * 0x1000 + fld(rd, 5) * 0x80 + fld(opcode, 7),
        InstType::S { imm_1, rs2, rs1, funct3, imm_2, opcode } => fld(imm_1, 7) * 0x2000000 + fld(
            rs2,
            5,
        ) * 0x100000 + fld(rs1, 5) * 0x8000 + fld(funct3, 3) * 0x1000 + fld(imm_2, 5) * 0x80 + fld(
            opcode,
            7,
        ),
        InstType::R { funct7, rs2, rs1, funct3, rd, opcode } => fld(funct7, 7) * 0x2000000 + fld(
            rs2,
            5,
        ) * 0x100000 + fld(rs1, 5) * 0x8000 + fld(funct3, 3) * 0x1000 + fld(rd, 5) * 0x80 + fld(
            opcode,
            7,
        ),
        InstType::B { imm_1, rs2, rs1, funct3, imm_2, opcode } => fld(imm_1, 7) * 0x2000000 + fld(
            rs2,
            5,
        ) * 0x100000 + fld(rs1, 5) * 0x8000 + fld(funct3, 3) * 0x1000 + fld(imm_2, 5) * 0x80 + fld(
            opcode,
            7,
        ),
    }
}

/// The bit-field of `width` bits starting `lo` bits above the least
/// significant end of the word `w`.
pub open spec fn word_slice(w: int, lo: nat, width: nat) -> int {
    (w / (pow2(lo) as int)) % (pow2(width) as int)
}

/// The hexadecimal digit for a value below 16.
pub open spec fn hex_digit(n: int) -> char {
    if n == 0 {
        '0'
    } else if n == 1 {
        '1'
    } else if n == 2 {
        '2'
    } else if n == 3 {
        '3'
    } else if n == 4 {
        '4'
    } else if n == 5 {
        '5'
    } else if n == 6 {
        '6'
    } else if n == 7 {
        '7'
    } else if n == 8 {
        '8'
    } else if n == 9 {
        '9'
    } else if n == 10 {
        'a'
    } else if n == 11 {
        'b'
    } else if n == 12 {
        'c'
    } else if n == 13 {
        'd'
    } else if n == 14 {
        'e'
    } else {
        'f'
    }
}

/// The `k`-th 4-bit group of the word `w`, counted from the least significant
/// end.
pub open spec fn nib(w: int, k: nat) -> int {
    word_slice(w, 4 * k, 4)
}

/// The hexadecimal rendering of a concrete instruction: the four bytes of its
/// word in little-endian order, one byte per line, each byte printed most
/// significant nibble first; the sentinel renders to the empty string.
pub open spec fn spec_hex(t: InstType) -> Seq<char> {
    match t {
        InstType::EOINST => Seq::empty(),
        _ => {
            let w = word_of(t);
            seq![
                hex_digit(nib(w, 1)),
                hex_digit(nib(w, 0)),
                '\n',
                hex_digit(nib(w, 3)),
                hex_digit(nib(w, 2)),
                '\n',
                hex_digit(nib(w, 5)),
                hex_digit(nib(w, 4)),
                '\n',
                hex_digit(nib(w, 7)),
                hex_digit(nib(w, 6)),
                '\n',
            ]
        },
    }
}

/// The low `w`-bit reduction of a field value, as a machine word: `m` must be
/// two to the `w`-th power.
pub(crate) fn field_low_bits(v: isize, m: u64) -> (r: u64)
    requires
        1 <= m,
    ensures
        r as int == (v as int) % (m as int),
        r < m,
{
    let mi: Ghost<int> = Ghost(m as int);
    if v >= 0 {
        let r = (v as u64) % m;
        proof {
            lemma_mod_bound(v as int, m as int);
        }
        r
    } else {
        let k: u64 = (-(v as i128)) as u64;
        let r = (m - (k % m)) % m;
        proof {
            let ki = k as int;
            lemma_fundamental_div_mod(ki, mi@);
            lemma_mod_bound(ki, mi@);
            assert((v as int) == mi@ * (-(ki / mi@) - 1) + (mi@ - ki % mi@)) by {
                vstd::arithmetic::mul::lemma_mul_is_distributive_add(mi@, -(ki / mi@), -1);
                vstd::arithmetic::mul::lemma_mul_unary_negation(mi@, ki / mi@);
            }
            lemma_mod_multiples_vanish(-(ki / mi@) - 1, mi@ - ki % mi@, mi@);
            lemma_mod_bound(mi@ - ki % mi@, mi@);
        }
        r
    }
}

/// Appends the `w` low bits of `m`, most significant first.
fn push_bits(s: &mut String, m: u64, w: u32)
    ensures
        final(s)@ == old(s)@ + bits_of(m as int, w as nat),
    decreases w,
{
    if w == 0 {
        proof {
            assert(old(s)@ + bits_of(m as int, 0) =~= old(s)@);
        }
        return ;
    }
    push_bits(s, m / 2, w - 1);
    if m % 2 == 1 {
        push_char(s, '1');
    } else {
        push_char(s, '0');
    }
    proof {
        assert((old(s)@ + bits_of(m as int / 2, (w - 1) as nat)).push(
            bit_char(m as int % 2 == 1),
        ) =~= old(s)@ + bits_of(m as int, w as nat));
    }
}

/// Appends one field of `w` bits, reduced to its width: `m` must be two to
/// the `w`-th power.
fn push_field(s: &mut String, v: isize, m: u64, w: u32)
    requires
        1 <= m,
        m as int == pow2(w as nat) as int,
    ensures
        final(s)@ == old(s)@ + bits_of(fld(v, w as nat), w as nat),
{
    let low = field_low_bits(v, m);
    push_bits(s, low, w);
}

/// Renders a concrete instruction as its 32-bit binary digit string: each
/// field zero-padded at its declared width, in the fixed order of its format.
/// The end-of-instruction sentinel renders to the empty string.
pub fn gen_bin(inst: &Inst) -> (r: String)
    ensures
        r@ == spec_bin(inst.ty),
{
    proof {
        lemma2_to64();
    }
    let mut s = String::new();
    match &inst.ty {
        InstType::EOINST => {},
        InstType::I { imm, rs1, funct3, rd, opcode } => {
            push_field(&mut s, *imm, 4096, 12);
            push_field(&mut s, *rs1, 32, 5);
            push_field(&mut s, *funct3, 8, 3);
            push_field(&mut s, *rd, 32, 5);
            push_field(&mut s, *opcode, 128, 7);
        },
        InstType::S { imm_1, rs2, rs1, funct3, imm_2, opcode } => {
            push_field(&mut s, *imm_1, 128, 7);
            push_field(&mut s, *rs2, 32, 5);
            push_field(&mut s, *rs1, 32, 5);
            push_field(&mut s, *funct3, 8, 3);
            push_field(&mut s, *imm_2, 32, 5);
            push_field(&mut s, *opcode, 128, 7);
        },
        InstType::R { funct7, rs2, rs1, funct3, rd, opcode } => {
            push_field(&mut s, *funct7, 128, 7);
            push_field(&mut s, *rs2, 32, 5);
            push_field(&mut s, *rs1, 32, 5);
            push_field(&mut s, *funct3, 8, 3);
            push_field(&mut s, *rd, 32, 5);
            push_field(&mut s, *opcode, 128, 7);
        },
        InstType::B { imm_1, rs2, rs1, funct3, imm_2, opcode } => {
            push_field(&mut s, *imm_1, 128, 7);
            push_field(&mut s, *rs2, 32, 5);
            push_field(&mut s, *rs1, 32, 5);
            push_field(&mut s, *funct3, 8, 3);
            push_field(&mut s, *imm_2, 32, 5);
            push_field(&mut s, *opcode, 128, 7);
        },
    }
    proof {
        assert(s@ =~= spec_bin(inst.ty));
    }
    s
}

/// The character for one hexadecimal digit value.
fn hex_char(n: u64) -> (c: char)
    requires
        n < 16,
    ensures
        c == hex_digit(n as int),
{
    if n == 0 {
        '0'
    } else if n == 1 {
        '1'
    } else if n == 2 {
        '2'
    } else if n == 3 {
        '3'
    } else if n == 4 {
        '4'
    } else if n == 5 {
        '5'
    } else if n == 6 {
        '6'
    } else if n == 7 {
        '7'
    } else if n == 8 {
        '8'
    } else if n == 9 {
        '9'
    } else if n == 10 {
        'a'
    } else if n == 11 {
        'b'
    } else if n == 12 {
        'c'
    } else if n == 13 {
        'd'
    } else if n == 14 {
        'e'
    } else {
        'f'
    }
}

/// The packed word of a non-sentinel instruction.
fn word_val(inst: &Inst) -> (w: u64)
    requires
        !(inst.ty is EOINST),
    ensures
        w as int == word_of(inst.ty),
        w < 0x100000000,
{
    proof {
        lemma2_to64();
    }
    match &inst.ty {
        InstType::EOINST => 0,
        InstType::I { imm, rs1, funct3, rd, opcode } => {
            let f_imm = field_low_bits(*imm, 4096);
            let f_rs1 = field_low_bits(*rs1, 32);
            let f_f3 = field_low_bits(*funct3, 8);
            let f_rd = field_low_bits(*rd, 32);
            let f_op = field_low_bits(*opcode, 128);
            f_imm * 0x100000 + f_rs1 * 0x8000 + f_f3 * 0x1000 + f_rd * 0x80 + f_op
        },
        InstType::S { imm_1, rs2, rs1, funct3, imm_2, opcode } => {
            let f_hi = field_low_bits(*imm_1, 128);
            let f_rs2 = field_low_bits(*rs2, 32);
            let f_rs1 = field_low_bits(*rs1, 32);
            let f_f3 = field_low_bits(*funct3, 8);
            let f_lo = field_low_bits(*imm_2, 32);
            let f_op = field_low_bits(*opcode, 128);
            f_hi * 0x2000000 + f_rs2 * 0x100000 + f_rs1 * 0x8000 + f_f3 * 0x1000 + f_lo * 0x80
                + f_op
        },
        InstType::R { funct7, rs2, rs1, funct3, rd, opcode } => {
            let f_hi = field_low_bits(*funct7, 128);
            let f_rs2 = field_low_bits(*rs2, 32);
            let f_rs1 = field_low_bits(*rs1, 32);
            let f_f3 = field_low_bits(*funct3, 8);
            let f_rd = field_low_bits(*rd, 32);
            let f_op = field_low_bits(*opcode, 128);
            f_hi * 0x2000000 + f_rs2 * 0x100000 + f_rs1 * 0x8000 + f_f3 * 0x1000 + f_rd * 0x80
                + f_op
        },
        InstType::B { imm_1, rs2, rs1, funct3, imm_2, opcode } => {
            let f_hi = field_low_bits(*imm_1, 128);
            let f_rs2 = field_low_bits(*rs2, 32);
            let f_rs1 = field_low_bits(*rs1, 32);
            let f_f3 = field_low_bits(*funct3, 8);
            let f_lo = field_low_bits(*imm_2, 32);
            let f_op = field_low_bits(*opcode, 128);
            f_hi * 0x2000000 + f_rs2 * 0x100000 + f_rs1 * 0x8000 + f_f3 * 0x1000 + f_lo * 0x80
                + f_op
        },
    }
}

/// Renders a concrete instruction as its hexadecimal byte dump: the four
/// bytes of the 32-bit word in little-endian order, one per line, each
/// printed most significant nibble first. The sentinel renders to the empty
/// string.
pub fn gen_hex(inst: &Inst) -> (r: String)
    ensures
        r@ == spec_hex(inst.ty),
{
    let mut s = String::new();
    let is_sentinel = match &inst.ty {
        InstType::EOINST => true,
        _ => false,
    };
    if is_sentinel {
        proof {
            assert(s@ =~= spec_hex(inst.ty));
        }
        return s;
    }
    let w = word_val(inst);
    proof {
        lemma2_to64();
        lemma_mod_bound((w as int) / 0x10, 16);
        lemma_mod_bound(w as int, 16);
        lemma_mod_bound((w as int) / 0x1000, 16);
        lemma_mod_bound((w as int) / 0x100, 16);
        lemma_mod_bound((w as int) / 0x100000, 16);
        lemma_mod_bound((w as int) / 0x10000, 16);
        lemma_mod_bound((w as int) / 0x10000000, 16);
        lemma_mod_bound((w as int) / 0x1000000, 16);
    }
    push_char(&mut s, hex_char((w / 0x10) % 16));
    push_char(&mut s, hex_char(w % 16));
    push_char(&mut s, '\n');
    push_char(&mut s, hex_char((w / 0x1000) % 16));
    push_char(&mut s, hex_char((w / 0x100) % 16));
    push_char(&mut s, '\n');
    push_char(&mut s, hex_char((w / 0x100000) % 16));
    push_char(&mut s, hex_char((w / 0x10000) % 16));
    push_char(&mut s, '\n');
    push_char(&mut s, hex_char((w / 0x10000000) % 16));
    push_char(&mut s, hex_char((w / 0x1000000) % 16));
    push_char(&mut s, '\n');
    proof {
        assert(s@ =~= spec_hex(inst.ty));
    }
    s
}


/// Extracting a field: when a word splits as everything above the field,
/// the field, and everything below it, dividing and reducing recovers the
/// field exactly.
proof fn lemma_slice_extract(w: int, hi: int, f: int, lo: int, pd: int, pw: int)
    requires
        pd > 0,
        pw > 0,
        0 <= f < pw,
        0 <= lo < pd,
        hi >= 0,
        w == hi * (pw * pd) + f * pd + lo,
    ensures
        (w / pd) % pw == f,
{
    assert(w == (hi * pw + f) * pd + lo) by (nonlinear_arith)
        requires
            w == hi * (pw * pd) + f * pd + lo,
    ;
    assert(hi * pw + f >= 0) by (nonlinear_arith)
        requires
            hi >= 0,
            pw > 0,
            0 <= f,
    ;
    lemma_fundamental_div_mod_converse(w, pd, hi * pw + f, lo);
    lemma_fundamental_div_mod_converse(hi * pw + f, pw, hi, f);
}

/// Law: encoding an I-format instruction and slicing the word back apart
/// recovers every field exactly, for all fields within their declared widths.
pub proof fn lemma_round_trip_i(imm: int, rs1: int, funct3: int, rd: int, opcode: int)
    requires
        0 <= imm < 4096,
        0 <= rs1 < 32,
        0 <= funct3 < 8,
        0 <= rd < 32,
        0 <= opcode < 128,
    ensures
        ({
            let w = word_of(
                InstType::I {
                    imm: imm as isize,
                    rs1: rs1 as isize,
                    funct3: funct3 as isize,
                    rd: rd as isize,
                    opcode: opcode as isize,
                },
            );
            &&& word_slice(w, 20, 12) == imm
            &&& word_slice(w, 15, 5) == rs1
            &&& word_slice(w, 12, 3) == funct3
            &&& word_slice(w, 7, 5) == rd
            &&& word_slice(w, 0, 7) == opcode
        }),
{
    lemma2_to64();
    lemma_small_mod(imm as nat, 4096);
    lemma_small_mod(rs1 as nat, 32);
    lemma_small_mod(funct3 as nat, 8);
    lemma_small_mod(rd as nat, 32);
    lemma_small_mod(opcode as nat, 128);
    let w = word_of(
        InstType::I {
            imm: imm as isize,
            rs1: rs1 as isize,
            funct3: funct3 as isize,
            rd: rd as isize,
            opcode: opcode as isize,
        },
    );
    assert(w == imm * 0x100000 + rs1 * 0x8000 + funct3 * 0x1000 + rd * 0x80 + opcode);
    lemma_slice_extract(w, 0, imm, rs1 * 0x8000 + funct3 * 0x1000 + rd * 0x80 + opcode, 0x100000, 4096);
    lemma_slice_extract(w, imm, rs1, funct3 * 0x1000 + rd * 0x80 + opcode, 0x8000, 32);
    lemma_slice_extract(w, imm * 32 + rs1, funct3, rd * 0x80 + opcode, 0x1000, 8);
    lemma_slice_extract(w, imm * 256 + rs1 * 8 + funct3, rd, opcode, 0x80, 32);
    lemma_slice_extract(w, imm * 8192 + rs1 * 256 + funct3 * 32 + rd, opcode, 0, 1, 128);
    lemma_div_basics(w);
}

/// Extracting all six fields of the wide layout shared by the S, R and
/// B formats: fields of widths 7, 5, 5, 3, 5 and 7, most significant first.
proof fn lemma_round_trip_six(w: int, f25: int, f20: int, f15: int, f12: int, f7: int, f0: int)
    requires
        0 <= f25 < 128,
        0 <= f20 < 32,
        0 <= f15 < 32,
        0 <= f12 < 8,
        0 <= f7 < 32,
        0 <= f0 < 128,
        w == f25 * 0x2000000 + f20 * 0x100000 + f15 * 0x8000 + f12 * 0x1000 + f7 * 0x80 + f0,
    ensures
        word_slice(w, 25, 7) == f25,
        word_slice(w, 20, 5) == f20,
        word_slice(w, 15, 5) == f15,
        word_slice(w, 12, 3) == f12,
        word_slice(w, 7, 5) == f7,
        word_slice(w, 0, 7) == f0,
{
    lemma2_to64();
    lemma_slice_extract(
        w,
        0,
        f25,
        f20 * 0x100000 + f15 * 0x8000 + f12 * 0x1000 + f7 * 0x80 + f0,
        0x2000000,
        128,
    );
    lemma_slice_extract(w, f25, f20, f15 * 0x8000 + f12 * 0x1000 + f7 * 0x80 + f0, 0x100000, 32);
    lemma_slice_extract(w, f25 * 32 + f20, f15, f12 * 0x1000 + f7 * 0x80 + f0, 0x8000, 32);
    lemma_slice_extract(w, f25 * 1024 + f20 * 32 + f15, f12, f7 * 0x80 + f0, 0x1000, 8);
    lemma_slice_extract(w, f25 * 8192 + f20 * 256 + f15 * 8 + f12, f7, f0, 0x80, 32);
    lemma_slice_extract(w, f25 * 262144 + f20 * 8192 + f15 * 256 + f12 * 32 + f7, f0, 0, 1, 128);
    lemma_div_basics(w);
}

/// Law: encoding an S-format instruction and slicing the word back apart
/// recovers every field exactly, for all fields within their declared widths.
pub proof fn lemma_round_trip_s(imm_1: int, rs2: int, rs1: int, funct3: int, imm_2: int, opcode: int)
    requires
        0 <= imm_1 < 128,
        0 <= rs2 < 32,
        0 <= rs1 < 32,
        0 <= funct3 < 8,
        0 <= imm_2 < 32,
        0 <= opcode < 128,
    ensures
        ({
            let w = word_of(
                InstType::S {
                    imm_1: imm_1 as isize,
                    rs2: rs2 as isize,
                    rs1: rs1 as isize,
                    funct3: funct3 as isize,
                    imm_2: imm_2 as isize,
                    opcode: opcode as isize,
                },
            );
            &&& word_slice(w, 25, 7) == imm_1
            &&& word_slice(w, 20, 5) == rs2
            &&& word_slice(w, 15, 5) == rs1
            &&& word_slice(w, 12, 3) == funct3
            &&& word_slice(w, 7, 5) == imm_2
            &&& word_slice(w, 0, 7) == opcode
        }),
{
    lemma2_to64();
    lemma_small_mod(imm_1 as nat, 128);
    lemma_small_mod(rs2 as nat, 32);
    lemma_small_mod(rs1 as nat, 32);
    lemma_small_mod(funct3 as nat, 8);
    lemma_small_mod(imm_2 as nat, 32);
    lemma_small_mod(opcode as nat, 128);
    let w = word_of(
        InstType::S {
            imm_1: imm_1 as isize,
            rs2: rs2 as isize,
            rs1: rs1 as isize,
            funct3: funct3 as isize,
            imm_2: imm_2 as isize,
            opcode: opcode as isize,
        },
    );
    lemma_round_trip_six(w, imm_1, rs2, rs1, funct3, imm_2, opcode);
}

/// Law: encoding an R-format instruction and slicing the word back apart
/// recovers every field exactly, for all fields within their declared widths.
pub proof fn lemma_round_trip_r(funct7: int, rs2: int, rs1: int, funct3: int, rd: int, opcode: int)
    requires
        0 <= funct7 < 128,
        0 <= rs2 < 32,
        0 <= rs1 < 32,
        0 <= funct3 < 8,
        0 <= rd < 32,
        0 <= opcode < 128,
    ensures
        ({
            let w = word_of(
                InstType::R {
                    funct7: funct7 as isize,
                    rs2: rs2 as isize,
                    rs1: rs1 as isize,
                    funct3: funct3 as isize,
                    rd: rd as isize,
                    opcode: opcode as isize,
                },
            );
            &&& word_slice(w, 25, 7) == funct7
            &&& word_slice(w, 20, 5) == rs2
            &&& word_slice(w, 15, 5) == rs1
            &&& word_slice(w, 12, 3) == funct3
            &&& word_slice(w, 7, 5) == rd
            &&& word_slice(w, 0, 7) == opcode
        }),
{
    lemma2_to64();
    lemma_small_mod(funct7 as nat, 128);
    lemma_small_mod(rs2 as nat, 32);
    lemma_small_mod(rs1 as nat, 32);
    lemma_small_mod(funct3 as nat, 8);
    lemma_small_mod(rd as nat, 32);
    lemma_small_mod(opcode as nat, 128);
    let w = word_of(
        InstType::R {
            funct7: funct7 as isize,
            rs2: rs2 as isize,
            rs1: rs1 as isize,
            funct3: funct3 as isize,
            rd: rd as isize,
            opcode: opcode as isize,
        },
    );
    lemma_round_trip_six(w, funct7, rs2, rs1, funct3, rd, opcode);
}

/// Law: encoding a B-format instruction and slicing the word back apart
/// recovers every field exactly, for all fields within their declared widths.
pub proof fn lemma_round_trip_b(imm_1: int, rs2: int, rs1: int, funct3: int, imm_2: int, opcode: int)
    requires
        0 <= imm_1 < 128,
        0 <= rs2 < 32,
        0 <= rs1 < 32,
        0 <= funct3 < 8,
        0 <= imm_2 < 32,
        0 <= opcode < 128,
    ensures
        ({
            let w = word_of(
                InstType::B {
                    imm_1: imm_1 as isize,
                    rs2: rs2 as isize,
                    rs1: rs1 as isize,
                    funct3: funct3 as isize,
                    imm_2: imm_2 as isize,
                    opcode: opcode as isize,
                },
            );
            &&& word_slice(w, 25, 7) == imm_1
            &&& word_slice(w, 20, 5) == rs2
            &&& word_slice(w, 15, 5) == rs1
            &&& word_slice(w, 12, 3) == funct3
            &&& word_slice(w, 7, 5) == imm_2
            &&& word_slice(w, 0, 7) == opcode
        }),
{
    lemma2_to64();
    lemma_small_mod(imm_1 as nat, 128);
    lemma_small_mod(rs2 as nat, 32);
    lemma_small_mod(rs1 as nat, 32);
    lemma_small_mod(funct3 as nat, 8);
    lemma_small_mod(imm_2 as nat, 32);
    lemma_small_mod(opcode as nat, 128);
    let w = word_of(
        InstType::B {
            imm_1: imm_1 as isize,
            rs2: rs2 as isize,
            rs1: rs1 as isize,
            funct3: funct3 as isize,
            imm_2: imm_2 as isize,
            opcode: opcode as isize,
        },
    );
    lemma_round_trip_six(w, imm_1, rs2, rs1, funct3, imm_2, opcode);
}

/// A hexadecimal digit character.
pub open spec fn is_hex_digit_char(c: char) -> bool {
    ||| c == '0'
    ||| c == '1'
    ||| c == '2'
    ||| c == '3'
    ||| c == '4'
    ||| c == '5'
    ||| c == '6'
    ||| c == '7'
    ||| c == '8'
    ||| c == '9'
    ||| c == 'a'
    ||| c == 'b'
    ||| c == 'c'
    ||| c == 'd'
    ||| c == 'e'
    ||| c == 'f'
}

/// Law: the hexadecimal rendering of a 32-bit word is exactly four lines of
/// exactly two hexadecimal characters each.
pub proof fn lemma_hex_shape(t: InstType)
    requires
        !(t is EOINST),
    ensures
        spec_hex(t).len() == 12,
        spec_hex(t)[2] == '\n',
        spec_hex(t)[5] == '\n',
        spec_hex(t)[8] == '\n',
        spec_hex(t)[11] == '\n',
        forall|i: int|
            0 <= i < 12 && i % 3 != 2 ==> is_hex_digit_char(#[trigger] spec_hex(t)[i]),
{
    lemma2_to64();
    let w = word_of(t);
    assert forall|k: nat| k < 8 implies 0 <= #[trigger] nib(w, k) < 16 by {
        lemma_mod_bound(w / (pow2((4 * k) as nat) as int), 16);
        assert(pow2(4) == 16);
    }
    assert(nib(w, 0) < 16);
    assert(nib(w, 1) < 16);
    assert(nib(w, 2) < 16);
    assert(nib(w, 3) < 16);
    assert(nib(w, 4) < 16);
    assert(nib(w, 5) < 16);
    assert(nib(w, 6) < 16);
    assert(nib(w, 7) < 16);
}


} // verus!
