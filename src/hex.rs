//! Hexadecimal rendering of bytes and 16-bit words.

use vstd::prelude::*;

verus! {

/// The lowercase hexadecimal digit of `n` (`0 <= n < 16`).
pub open spec fn lower_digit(n: int) -> char {
    "0123456789abcdef"@[n]
}

/// The uppercase hexadecimal digit of `n` (`0 <= n < 16`).
pub open spec fn upper_digit(n: int) -> char {
    "0123456789ABCDEF"@[n]
}

/// A byte as exactly two lowercase hex digits.
pub open spec fn hex2(b: u8) -> Seq<char> {
    seq![lower_digit(b as int / 16), lower_digit(b as int % 16)]
}

/// A 16-bit word as exactly four uppercase hex digits.
pub open spec fn hex4_upper(w: u16) -> Seq<char> {
    seq![
        upper_digit(w as int / 4096),
        upper_digit((w as int / 256) % 16),
        upper_digit((w as int / 16) % 16),
        upper_digit(w as int % 16),
    ]
}

/// A 16-bit word in lowercase hex without leading zeros, but at least two digits wide.
pub open spec fn hex_min2(w: u16) -> Seq<char> {
    if w < 0x100 {
        seq![lower_digit(w as int / 16), lower_digit(w as int % 16)]
    } else if w < 0x1000 {
        seq![lower_digit(w as int / 256), lower_digit((w as int / 16) % 16), lower_digit(w as int % 16)]
    } else {
        hex4_lower(w)
    }
}

/// A 16-bit word as exactly four lowercase hex digits.
pub open spec fn hex4_lower(w: u16) -> Seq<char> {
    seq![
        lower_digit(w as int / 4096),
        lower_digit((w as int / 256) % 16),
        lower_digit((w as int / 16) % 16),
        lower_digit(w as int % 16),
    ]
}

/// Appends the hex digit of `n` to `out`, lowercase or uppercase.
fn push_digit(out: &mut String, n: u16, upper: bool)
    requires
        n < 16,
    ensures
        final(out)@ == old(out)@.push(if upper { upper_digit(n as int) } else { lower_digit(n as int) }),
{
    let digits = if upper { "0123456789ABCDEF" } else { "0123456789abcdef" };
    proof {
        reveal_strlit("0123456789ABCDEF");
        reveal_strlit("0123456789abcdef");
    }
    let i = n as usize;
    let d = digits.substring_char(i, i + 1);
    out.append(d);
    assert(final(out)@ =~= old(out)@.push(if upper { upper_digit(n as int) } else { lower_digit(n as int) }));
}

/// Appends a byte as two lowercase hex digits.
pub fn push_hex2(out: &mut String, b: u8)
    ensures
        final(out)@ == old(out)@ + hex2(b),
{
    push_digit(out, (b / 16) as u16, false);
    push_digit(out, (b % 16) as u16, false);
    assert(final(out)@ =~= old(out)@ + hex2(b));
}

/// Appends a word as four uppercase hex digits.
pub fn push_hex4_upper(out: &mut String, w: u16)
    ensures
        final(out)@ == old(out)@ + hex4_upper(w),
{
    push_digit(out, w / 4096, true);
    push_digit(out, (w / 256) % 16, true);
    push_digit(out, (w / 16) % 16, true);
    push_digit(out, w % 16, true);
    assert(final(out)@ =~= old(out)@ + hex4_upper(w));
}

/// Appends a word in lowercase hex, at least two digits wide, without further leading zeros.
pub fn push_hex_min2(out: &mut String, w: u16)
    ensures
        final(out)@ == old(out)@ + hex_min2(w),
{
    if w >= 0x1000 {
        push_digit(out, w / 4096, false);
    }
    if w >= 0x100 {
        push_digit(out, (w / 256) % 16, false);
    }
    push_digit(out, (w / 16) % 16, false);
    push_digit(out, w % 16, false);
    assert(final(out)@ =~= old(out)@ + hex_min2(w));
}

} // verus!
