use vstd::prelude::*;

verus! {

use vstd::string::{StrSliceExecFns, StringExecFns};

/// The characters used for digits, in order of value.
pub open spec fn digit_chars() -> Seq<char> {
    "0123456789ABCDEF"@
}

/// The upper-case hexadecimal digit of value `d`.
pub open spec fn hex_digit(d: nat) -> char {
    digit_chars()[d as int]
}

/// `n` in upper-case hexadecimal, without leading zeros, padded with zeros
/// to at least `width` digits.
pub open spec fn hex_text(n: nat, width: nat) -> Seq<char>
    decreases n + width,
{
    if n < 16 && width <= 1 {
        seq![hex_digit(n)]
    } else {
        let rest: nat = if width > 0 {
            (width - 1) as nat
        } else {
            0
        };
        hex_text(n / 16, rest) + seq![hex_digit(n % 16)]
    }
}

/// `n` in decimal, without leading zeros.
pub open spec fn decimal_text(n: nat) -> Seq<char>
    decreases n,
{
    if n < 10 {
        seq![hex_digit(n)]
    } else {
        decimal_text(n / 10) + seq![hex_digit(n % 10)]
    }
}

/// Appends the digit of value `d`.
fn append_digit(s: &mut String, d: u64)
    requires
        d < 16,
    ensures
        final(s)@ == old(s)@ + seq![hex_digit(d as nat)],
{
    let digits = "0123456789ABCDEF";
    proof {
        reveal_strlit("0123456789ABCDEF");
    }
    let i = d as usize;
    s.append(digits.substring_char(i, i + 1));
    assert(digits@.subrange(i as int, i + 1) =~= seq![hex_digit(d as nat)]);
}

/// Appends `n` in hexadecimal, padded with zeros to `width` digits.
pub fn append_hex(s: &mut String, n: u64, width: usize)
    ensures
        final(s)@ == old(s)@ + hex_text(n as nat, width as nat),
    decreases n + width,
{
    if n >= 16 || width > 1 {
        let rest: usize = if width > 0 {
            width - 1
        } else {
            0
        };
        append_hex(s, n / 16, rest);
    }
    append_digit(s, n % 16);
    assert(s@ =~= old(s)@ + hex_text(n as nat, width as nat));
}

/// Appends `n` in decimal.
pub fn append_decimal(s: &mut String, n: u64)
    ensures
        final(s)@ == old(s)@ + decimal_text(n as nat),
    decreases n,
{
    if n >= 10 {
        append_decimal(s, n / 10);
    }
    append_digit(s, n % 10);
    assert(s@ =~= old(s)@ + decimal_text(n as nat));
}

/// Appends `flag` as `true` or `false`.
pub fn append_bool(s: &mut String, flag: bool)
    ensures
        final(s)@ == old(s)@ + (if flag {
            "true"@
        } else {
            "false"@
        }),
{
    if flag {
        s.append("true");
    } else {
        s.append("false");
    }
}

} // verus!
