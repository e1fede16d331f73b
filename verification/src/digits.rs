//! Numbers written out as text, in base ten and in base sixteen.
use vstd::prelude::*;
use vstd::string::StringExecFns;

verus! {

/// A text as contracts speak of it: the characters of a string, in order.
pub type Text = Seq<char>;

/// The character that stands for the digit `d`: `0` to `9`, then `a` to `f`.
pub open spec fn digit_char(d: int) -> char {
    if d == 0 {
        '0'
    } else if d == 1 {
        '1'
    } else if d == 2 {
        '2'
    } else if d == 3 {
        '3'
    } else if d == 4 {
        '4'
    } else if d == 5 {
        '5'
    } else if d == 6 {
        '6'
    } else if d == 7 {
        '7'
    } else if d == 8 {
        '8'
    } else if d == 9 {
        '9'
    } else if d == 10 {
        'a'
    } else if d == 11 {
        'b'
    } else if d == 12 {
        'c'
    } else if d == 13 {
        'd'
    } else if d == 14 {
        'e'
    } else {
        'f'
    }
}

/// The digits of `n` in base ten, without leading zeros.
pub open spec fn decimal_text(n: nat) -> Seq<char>
    decreases n,
{
    if n < 10 {
        seq![digit_char(n as int)]
    } else {
        decimal_text(n / 10).push(digit_char((n % 10) as int))
    }
}

/// The integer `v` in base ten, with a minus sign in front if it is negative.
pub open spec fn signed_decimal_text(v: int) -> Seq<char> {
    if v < 0 {
        seq!['-'] + decimal_text((-v) as nat)
    } else {
        decimal_text(v as nat)
    }
}

/// The digits of `n` in base sixteen, in lower case, without leading zeros.
pub open spec fn hex_text(n: nat) -> Seq<char>
    decreases n,
{
    if n < 16 {
        seq![digit_char(n as int)]
    } else {
        hex_text(n / 16).push(digit_char((n % 16) as int))
    }
}

/// The digits of `n` in base sixteen, filled up with a zero to two digits.
pub open spec fn padded_hex_text(n: nat) -> Seq<char> {
    if n < 16 {
        seq!['0', digit_char(n as int)]
    } else {
        hex_text(n)
    }
}

/// The one-character text of the digit `d`.
fn digit_str(d: u64) -> (s: &'static str)
    requires
        d < 16,
    ensures
        s@ == seq![digit_char(d as int)],
{
    proof {
        reveal_strlit("0");
        reveal_strlit("1");
        reveal_strlit("2");
        reveal_strlit("3");
        reveal_strlit("4");
        reveal_strlit("5");
        reveal_strlit("6");
        reveal_strlit("7");
        reveal_strlit("8");
        reveal_strlit("9");
        reveal_strlit("a");
        reveal_strlit("b");
        reveal_strlit("c");
        reveal_strlit("d");
        reveal_strlit("e");
        reveal_strlit("f");
    }
    let s = if d == 0 {
        "0"
    } else if d == 1 {
        "1"
    } else if d == 2 {
        "2"
    } else if d == 3 {
        "3"
    } else if d == 4 {
        "4"
    } else if d == 5 {
        "5"
    } else if d == 6 {
        "6"
    } else if d == 7 {
        "7"
    } else if d == 8 {
        "8"
    } else if d == 9 {
        "9"
    } else if d == 10 {
        "a"
    } else if d == 11 {
        "b"
    } else if d == 12 {
        "c"
    } else if d == 13 {
        "d"
    } else if d == 14 {
        "e"
    } else {
        "f"
    };
    assert(s@ =~= seq![digit_char(d as int)]);
    s
}

/// Writes `v` in base ten at the end of `out`.
pub(crate) fn append_decimal(out: &mut String, v: u64)
    ensures
        final(out)@ == old(out)@ + decimal_text(v as nat),
    decreases v,
{
    if v >= 10 {
        append_decimal(out, v / 10);
    }
    out.append(digit_str(v % 10));
    proof {
        if v >= 10 {
            assert(final(out)@ =~= old(out)@ + decimal_text((v / 10) as nat).push(
                digit_char((v % 10) as int),
            ));
        } else {
            assert(final(out)@ =~= old(out)@ + seq![digit_char(v as int)]);
        }
    }
}

/// Writes `v` in base ten at the end of `out`, with its sign if it is negative.
pub(crate) fn append_signed_decimal(out: &mut String, v: i64)
    ensures
        final(out)@ == old(out)@ + signed_decimal_text(v as int),
{
    if v < 0 {
        proof {
            reveal_strlit("-");
        }
        out.append("-");
        let magnitude: u64 = if v == i64::MIN {
            0x8000_0000_0000_0000
        } else {
            (-v) as u64
        };
        append_decimal(out, magnitude);
        assert(final(out)@ =~= old(out)@ + (seq!['-'] + decimal_text((-v) as nat)));
    } else {
        append_decimal(out, v as u64);
    }
}

/// Writes `v` in base sixteen at the end of `out`.
pub(crate) fn append_hex(out: &mut String, v: u64)
    ensures
        final(out)@ == old(out)@ + hex_text(v as nat),
    decreases v,
{
    if v >= 16 {
        append_hex(out, v / 16);
    }
    out.append(digit_str(v % 16));
    proof {
        if v >= 16 {
            assert(final(out)@ =~= old(out)@ + hex_text((v / 16) as nat).push(
                digit_char((v % 16) as int),
            ));
        } else {
            assert(final(out)@ =~= old(out)@ + seq![digit_char(v as int)]);
        }
    }
}

/// Writes `v` in base sixteen at the end of `out`, in two digits at least.
pub(crate) fn append_padded_hex(out: &mut String, v: u64)
    ensures
        final(out)@ == old(out)@ + padded_hex_text(v as nat),
{
    if v < 16 {
        proof {
            reveal_strlit("0");
        }
        out.append("0");
        out.append(digit_str(v));
        assert(final(out)@ =~= old(out)@ + seq!['0', digit_char(v as int)]);
    } else {
        append_hex(out, v);
    }
}

} // verus!
