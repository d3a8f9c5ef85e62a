//! Verified rendering of numbers as text: unpadded decimal, unpadded
//! hexadecimal with a `0x` prefix, and zero-padded 8-digit hexadecimal for
//! pointers.

use vstd::prelude::*;
use vstd::string::StringExecFns;

verus! {

/// The character for one digit value, `0` to `F`.
pub open spec fn digit_char(d: int) -> char {
    if d == 0 {
        '0'
    } else if d == 1 {
        '1'
    } else if d == 2 {
        '2'
    } else if d == 3 {
        '3'
    } else if d == 4 {
        '4'
    } else if d == 5 {
        '5'
    } else if d == 6 {
        '6'
    } else if d == 7 {
        '7'
    } else if d == 8 {
        '8'
    } else if d == 9 {
        '9'
    } else if d == 10 {
        'A'
    } else if d == 11 {
        'B'
    } else if d == 12 {
        'C'
    } else if d == 13 {
        'D'
    } else if d == 14 {
        'E'
    } else {
        'F'
    }
}

/// Unpadded decimal digits of a non-negative number.
pub open spec fn dec_seq(n: int) -> Seq<char>
    recommends
        0 <= n,
    decreases n,
{
    if n < 10 {
        seq![digit_char(n)]
    } else {
        dec_seq(n / 10) + seq![digit_char(n % 10)]
    }
}

/// Unpadded upper-case hexadecimal digits of a non-negative number, without
/// a prefix.
pub open spec fn hex_seq(n: int) -> Seq<char>
    recommends
        0 <= n,
    decreases n,
{
    if n < 16 {
        seq![digit_char(n)]
    } else {
        hex_seq(n / 16) + seq![digit_char(n % 16)]
    }
}

/// `0x` followed by the unpadded hexadecimal digits.
pub open spec fn hex_pref_seq(n: int) -> Seq<char> {
    seq!['0', 'x'] + hex_seq(n)
}

/// `0x` followed by exactly eight hexadecimal digits, zero-padded: the form
/// used for pointers.
pub open spec fn hex8_seq(n: u32) -> Seq<char> {
    seq![
        '0',
        'x',
        digit_char(((n >> 28) & 0xf) as int),
        digit_char(((n >> 24) & 0xf) as int),
        digit_char(((n >> 20) & 0xf) as int),
        digit_char(((n >> 16) & 0xf) as int),
        digit_char(((n >> 12) & 0xf) as int),
        digit_char(((n >> 8) & 0xf) as int),
        digit_char(((n >> 4) & 0xf) as int),
        digit_char((n & 0xf) as int),
    ]
}

/// Decimal digits of a signed number, with a leading `-` when negative.
pub open spec fn int_seq(i: i32) -> Seq<char> {
    if i < 0 {
        seq!['-'] + dec_seq(-(i as int))
    } else {
        dec_seq(i as int)
    }
}

/// The one-character string for a digit value.
fn digit_str(d: u64) -> (r: &'static str)
    requires
        d < 16,
    ensures
        r@ == seq![digit_char(d as int)],
{
    if d == 0 {
        proof {
            reveal_strlit("0");
        }
        "0"
    } else if d == 1 {
        proof {
            reveal_strlit("1");
        }
        "1"
    } else if d == 2 {
        proof {
            reveal_strlit("2");
        }
        "2"
    } else if d == 3 {
        proof {
            reveal_strlit("3");
        }
        "3"
    } else if d == 4 {
        proof {
            reveal_strlit("4");
        }
        "4"
    } else if d == 5 {
        proof {
            reveal_strlit("5");
        }
        "5"
    } else if d == 6 {
        proof {
            reveal_strlit("6");
        }
        "6"
    } else if d == 7 {
        proof {
            reveal_strlit("7");
        }
        "7"
    } else if d == 8 {
        proof {
            reveal_strlit("8");
        }
        "8"
    } else if d == 9 {
        proof {
            reveal_strlit("9");
        }
        "9"
    } else if d == 10 {
        proof {
            reveal_strlit("A");
        }
        "A"
    } else if d == 11 {
        proof {
            reveal_strlit("B");
        }
        "B"
    } else if d == 12 {
        proof {
            reveal_strlit("C");
        }
        "C"
    } else if d == 13 {
        proof {
            reveal_strlit("D");
        }
        "D"
    } else if d == 14 {
        proof {
            reveal_strlit("E");
        }
        "E"
    } else {
        proof {
            reveal_strlit("F");
        }
        "F"
    }
}

/// Appends the unpadded decimal form of `n`.
pub fn push_dec(s: &mut String, n: u64)
    ensures
        final(s)@ == old(s)@ + dec_seq(n as int),
    decreases n,
{
    if n >= 10 {
        push_dec(s, n / 10);
        s.append(digit_str(n % 10));
    } else {
        s.append(digit_str(n));
    }
    proof {
        assert(final(s)@ =~= old(s)@ + dec_seq(n as int));
    }
}

/// Appends the unpadded `0x`-prefixed hexadecimal form of `n`.
pub fn push_hex(s: &mut String, n: u64)
    ensures
        final(s)@ == old(s)@ + hex_pref_seq(n as int),
{
    proof {
        reveal_strlit("0x");
    }
    s.append("0x");
    push_hex_digits(s, n);
    proof {
        assert("0x"@ =~= seq!['0', 'x']);
        assert(final(s)@ =~= old(s)@ + hex_pref_seq(n as int));
    }
}

/// Appends the unpadded hexadecimal digits of `n`, without a prefix.
fn push_hex_digits(s: &mut String, n: u64)
    ensures
        final(s)@ == old(s)@ + hex_seq(n as int),
    decreases n,
{
    if n >= 16 {
        push_hex_digits(s, n / 16);
        s.append(digit_str(n % 16));
    } else {
        s.append(digit_str(n));
    }
    proof {
        assert(final(s)@ =~= old(s)@ + hex_seq(n as int));
    }
}

/// Appends the `0x`-prefixed, zero-padded 8-digit hexadecimal form of `n`.
pub fn push_hex8(s: &mut String, n: u32)
    ensures
        final(s)@ == old(s)@ + hex8_seq(n),
{
    proof {
        reveal_strlit("0x");
        assert((n >> 28) & 0xf < 16 && (n >> 24) & 0xf < 16 && (n >> 20) & 0xf < 16 && (n >> 16)
            & 0xf < 16 && (n >> 12) & 0xf < 16 && (n >> 8) & 0xf < 16 && (n >> 4) & 0xf < 16 && n
            & 0xf < 16) by (bit_vector);
    }
    s.append("0x");
    s.append(digit_str(((n >> 28) & 0xf) as u64));
    s.append(digit_str(((n >> 24) & 0xf) as u64));
    s.append(digit_str(((n >> 20) & 0xf) as u64));
    s.append(digit_str(((n >> 16) & 0xf) as u64));
    s.append(digit_str(((n >> 12) & 0xf) as u64));
    s.append(digit_str(((n >> 8) & 0xf) as u64));
    s.append(digit_str(((n >> 4) & 0xf) as u64));
    s.append(digit_str((n & 0xf) as u64));
    proof {
        assert("0x"@ =~= seq!['0', 'x']);
        assert(final(s)@ =~= old(s)@ + hex8_seq(n));
    }
}

/// Appends the signed decimal form of `i`.
pub fn push_i32(s: &mut String, i: i32)
    ensures
        final(s)@ == old(s)@ + int_seq(i),
{
    if i < 0 {
        proof {
            reveal_strlit("-");
        }
        s.append("-");
        let m: u64 = (-(i as i64)) as u64;
        push_dec(s, m);
        proof {
            assert("-"@ =~= seq!['-']);
            assert(final(s)@ =~= old(s)@ + int_seq(i));
        }
    } else {
        push_dec(s, i as u64);
    }
}

} // verus!
