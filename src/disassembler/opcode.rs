//! Opcode descriptors: an instruction template with operand placeholders.
//!
//! A template such as `LDA $hhll,x` marks where operand bytes go: `hh` stands
//! for the byte after the opcode (or, with `ll` present, the high byte of a
//! 16-bit operand) and `ll` for the low byte of a 16-bit operand.

use vstd::prelude::*;

use crate::hex::{hex2, push_hex2};

verus! {

/// The placeholder for the first operand byte, or the high byte of a 16-bit operand.
pub const HIGH: char = 'h';

/// The placeholder for the low byte of a 16-bit operand.
pub const LOW: char = 'l';

/// The table entry of one opcode byte.
#[derive(Clone, Debug)]
pub struct OpCode {
    /// The instruction template, with `hh` / `ll` placeholders.
    pub instructions: String,
    /// `Some(true)` for branch instructions whose operand is a signed displacement.
    pub is_relative: Option<bool>,
}

pub struct OpCodeView {
    pub instructions: Seq<char>,
    pub is_relative: Option<bool>,
}

impl View for OpCode {
    type V = OpCodeView;

    open spec fn view(&self) -> OpCodeView {
        OpCodeView { instructions: self.instructions@, is_relative: self.is_relative }
    }
}

/// How many operand bytes follow the opcode byte.
#[derive(Clone, Copy, Debug, PartialEq, Eq)]
pub enum InstructionArgumentLength {
    Zero,
    OneByte,
    TwoBytes,
}

/// The placeholder `cc` (the character `c` twice) starts at index `i` of `s`.
pub open spec fn placeholder_at(s: Seq<char>, c: char, i: int) -> bool {
    0 <= i && i + 1 < s.len() && s[i] == c && s[i + 1] == c
}

/// The number of indices below `k` at which the placeholder `cc` starts.
pub open spec fn count_upto(s: Seq<char>, c: char, k: int) -> nat
    decreases k,
{
    if k <= 0 {
        0
    } else {
        count_upto(s, c, k - 1) + if placeholder_at(s, c, k - 1) { 1nat } else { 0nat }
    }
}

/// The number of indices at which the placeholder `cc` starts (overlapping ones counted).
pub open spec fn count_placeholders(s: Seq<char>, c: char) -> nat {
    count_upto(s, c, s.len() as int)
}

/// The number of operand bytes that a template asks for: two when both
/// placeholders occur, one when either occurs, none otherwise.
pub open spec fn arity(t: Seq<char>) -> nat {
    let h = count_placeholders(t, HIGH) > 0;
    let l = count_placeholders(t, LOW) > 0;
    if h && l {
        2
    } else if h || l {
        1
    } else {
        0
    }
}

pub open spec fn arity_of(n: InstructionArgumentLength) -> nat {
    match n {
        InstructionArgumentLength::Zero => 0,
        InstructionArgumentLength::OneByte => 1,
        InstructionArgumentLength::TwoBytes => 2,
    }
}

/// A well-formed template: each placeholder at most once, and `ll` only beside `hh`.
pub open spec fn valid_template(t: Seq<char>) -> bool {
    let h = count_placeholders(t, HIGH);
    let l = count_placeholders(t, LOW);
    h <= 1 && l <= 1 && (l == 1 ==> h == 1)
}

/// Every occurrence of the placeholder `cc` replaced by `r`, scanning left to
/// right without overlap.
pub open spec fn substitute(s: Seq<char>, c: char, r: Seq<char>) -> Seq<char>
    decreases s.len(),
{
    if s.len() < 2 {
        s
    } else if s[0] == c && s[1] == c {
        r + substitute(s.subrange(2, s.len() as int), c, r)
    } else {
        seq![s[0]] + substitute(s.drop_first(), c, r)
    }
}

/// The number of placeholders `cc` in a template.
pub fn count_placeholder(s: &str, c: char) -> (r: usize)
    ensures
        r == count_placeholders(s@, c),
{
    let n = s.unicode_len();
    let mut count: usize = 0;
    let mut i: usize = 0;
    while i < n
        invariant
            n == s@.len(),
            i <= n,
            count == count_upto(s@, c, i as int),
            count <= i,
        decreases n - i,
    {
        if i + 1 < n && s.get_char(i) == c && s.get_char(i + 1) == c {
            count = count + 1;
        }
        i = i + 1;
    }
    count
}

/// `s` with every placeholder `cc` replaced by `r`.
pub fn substitute_placeholder(s: &str, c: char, r: &str) -> (out: String)
    ensures
        out@ == substitute(s@, c, r@),
{
    let n = s.unicode_len();
    let mut out = String::new();
    let mut i: usize = 0;
    assert(s@.subrange(0, n as int) =~= s@);
    assert(out@ + substitute(s@, c, r@) =~= substitute(s@, c, r@));
    while i < n
        invariant
            n == s@.len(),
            i <= n,
            out@ + substitute(s@.subrange(i as int, n as int), c, r@) == substitute(s@, c, r@),
        decreases n - i,
    {
        let ghost rest = s@.subrange(i as int, n as int);
        if i + 1 < n && s.get_char(i) == c && s.get_char(i + 1) == c {
            assert(rest.subrange(2, rest.len() as int) =~= s@.subrange(i + 2, n as int));
            out.append(r);
            i = i + 2;
        } else {
            let one = s.substring_char(i, i + 1);
            assert(rest.drop_first() =~= s@.subrange(i + 1, n as int));
            proof {
                if rest.len() < 2 {
                    assert(s@.subrange(i + 1, n as int) =~= Seq::<char>::empty());
                }
            }
            assert(one@ =~= seq![rest[0]]);
            out.append(one);
            i = i + 1;
        }
        assert(out@ + substitute(s@.subrange(i as int, n as int), c, r@) =~= substitute(s@, c, r@));
    }
    assert(s@.subrange(n as int, n as int) =~= Seq::<char>::empty());
    assert(out@ + Seq::<char>::empty() =~= out@);
    out
}

/// A byte as two lowercase hex digits.
pub fn hex_byte(b: u8) -> (r: String)
    ensures
        r@ == hex2(b),
{
    let mut r = String::new();
    push_hex2(&mut r, b);
    r
}

impl OpCode {
    /// The template with the placeholder `hh` replaced by the byte.
    pub fn format_instruction_high_byte(&self, low_byte: u8) -> (r: String)
        ensures
            r@ == substitute(self.instructions@, HIGH, hex2(low_byte)),
    {
        let digits = hex_byte(low_byte);
        substitute_placeholder(self.instructions.as_str(), HIGH, digits.as_str())
    }

    /// The template with `hh` replaced by the high byte and `ll` by the low byte.
    pub fn format_instruction_low_and_high_byte(&self, low_byte: u8, high_byte: u8) -> (r: String)
        ensures
            r@ == substitute(
                substitute(self.instructions@, HIGH, hex2(high_byte)),
                LOW,
                hex2(low_byte),
            ),
    {
        let high = hex_byte(high_byte);
        let low = hex_byte(low_byte);
        let with_high = substitute_placeholder(self.instructions.as_str(), HIGH, high.as_str());
        substitute_placeholder(with_high.as_str(), LOW, low.as_str())
    }

    /// How many operand bytes the template asks for.
    pub fn get_intruction_byte_length(&self) -> (r: InstructionArgumentLength)
        ensures
            arity_of(r) == arity(self.instructions@),
    {
        let h = count_placeholder(self.instructions.as_str(), HIGH) > 0;
        let l = count_placeholder(self.instructions.as_str(), LOW) > 0;
        if h && l {
            InstructionArgumentLength::TwoBytes
        } else if h || l {
            InstructionArgumentLength::OneByte
        } else {
            InstructionArgumentLength::Zero
        }
    }
}

} // verus!
