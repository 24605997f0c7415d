//! ASCII digit rendering used by command builders and error messages.

use vstd::prelude::*;
use vstd::string::*;

verus! {

/// The decimal digit character of `d` in 0..=9.
pub open spec fn digit_char(d: int) -> char {
    if d == 0 {
        '0'
    } else if d == 1 {
        '1'
    } else if d == 2 {
        '2'
    } else if d == 3 {
        '3'
    } else if d == 4 {
        '4'
    } else if d == 5 {
        '5'
    } else if d == 6 {
        '6'
    } else if d == 7 {
        '7'
    } else if d == 8 {
        '8'
    } else {
        '9'
    }
}

/// The uppercase hexadecimal digit character of `d` in 0..=15.
pub open spec fn hex_char(d: int) -> char {
    if d < 10 {
        digit_char(d)
    } else if d == 10 {
        'A'
    } else if d == 11 {
        'B'
    } else if d == 12 {
        'C'
    } else if d == 13 {
        'D'
    } else if d == 14 {
        'E'
    } else {
        'F'
    }
}

/// Plain decimal rendering of `n` in 0..=255, no padding.
pub open spec fn dec_u8(n: int) -> Seq<char> {
    if n < 10 {
        seq![digit_char(n)]
    } else if n < 100 {
        seq![digit_char(n / 10), digit_char(n % 10)]
    } else {
        seq![digit_char(n / 100), digit_char((n / 10) % 10), digit_char(n % 10)]
    }
}

/// Decimal rendering of `n` in 0..=255 padded to at least two digits.
pub open spec fn dec2_u8(n: int) -> Seq<char> {
    if n < 10 {
        seq!['0', digit_char(n)]
    } else {
        dec_u8(n)
    }
}

/// Four uppercase hexadecimal digits of a 16-bit value.
pub open spec fn hex4(v: int) -> Seq<char> {
    seq![hex_char(v / 0x1000 % 16), hex_char(v / 0x100 % 16), hex_char(v / 0x10 % 16), hex_char(
        v % 16,
    )]
}

/// Three uppercase hexadecimal digits of a value below 0x1000.
pub open spec fn hex3(v: int) -> Seq<char> {
    seq![hex_char(v / 0x100 % 16), hex_char(v / 0x10 % 16), hex_char(v % 16)]
}

/// The one-character string of a decimal digit.
pub fn digit_str(d: u8) -> (s: &'static str)
    requires
        d < 10,
    ensures
        s@ == seq![digit_char(d as int)],
{
    let s: &'static str = match d {
        0 => "0",
        1 => "1",
        2 => "2",
        3 => "3",
        4 => "4",
        5 => "5",
        6 => "6",
        7 => "7",
        8 => "8",
        _ => "9",
    };
    proof {
        reveal_strlit("0");
        reveal_strlit("1");
        reveal_strlit("2");
        reveal_strlit("3");
        reveal_strlit("4");
        reveal_strlit("5");
        reveal_strlit("6");
        reveal_strlit("7");
        reveal_strlit("8");
        reveal_strlit("9");
        assert(s@ =~= seq![digit_char(d as int)]);
    }
    s
}

/// The one-character string of an uppercase hexadecimal digit.
pub fn hex_digit_str(d: u8) -> (s: &'static str)
    requires
        d < 16,
    ensures
        s@ == seq![hex_char(d as int)],
{
    if d < 10 {
        digit_str(d)
    } else {
        let s: &'static str = match d {
            10 => "A",
            11 => "B",
            12 => "C",
            13 => "D",
            14 => "E",
            _ => "F",
        };
        proof {
            reveal_strlit("A");
            reveal_strlit("B");
            reveal_strlit("C");
            reveal_strlit("D");
            reveal_strlit("E");
            reveal_strlit("F");
            assert(s@ =~= seq![hex_char(d as int)]);
        }
        s
    }
}

/// Append the plain decimal rendering of `n` to `m`.
pub fn append_dec_u8(m: &mut String, n: u8)
    ensures
        final(m)@ == old(m)@ + dec_u8(n as int),
{
    if n < 10 {
        m.append(digit_str(n));
    } else if n < 100 {
        m.append(digit_str(n / 10));
        m.append(digit_str(n % 10));
    } else {
        m.append(digit_str(n / 100));
        m.append(digit_str((n / 10) % 10));
        m.append(digit_str(n % 10));
    }
    proof {
        assert(m@ =~= old(m)@ + dec_u8(n as int));
    }
}

/// Append the two-digit-padded decimal rendering of `n` to `m`.
pub fn append_dec2_u8(m: &mut String, n: u8)
    ensures
        final(m)@ == old(m)@ + dec2_u8(n as int),
{
    if n < 10 {
        m.append("0");
        m.append(digit_str(n));
        proof {
            reveal_strlit("0");
            assert(m@ =~= old(m)@ + dec2_u8(n as int));
        }
    } else {
        append_dec_u8(m, n);
    }
}

/// Append the four hexadecimal digits of `v` to `m`.
pub fn append_hex4(m: &mut String, v: u16)
    ensures
        final(m)@ == old(m)@ + hex4(v as int),
{
    proof {
        assert((v >> 12) & 0x0F == v / 0x1000 % 16 && (v >> 8) & 0x0F == v / 0x100 % 16 && (v >> 4)
            & 0x0F == v / 0x10 % 16 && v & 0x0F == v % 16 && (v >> 12) & 0x0F < 16 && (v >> 8)
            & 0x0F < 16 && (v >> 4) & 0x0F < 16 && v & 0x0F < 16) by (bit_vector);
    }
    m.append(hex_digit_str(((v >> 12) & 0x0F) as u8));
    m.append(hex_digit_str(((v >> 8) & 0x0F) as u8));
    m.append(hex_digit_str(((v >> 4) & 0x0F) as u8));
    m.append(hex_digit_str((v & 0x0F) as u8));
    proof {
        assert(m@ =~= old(m)@ + hex4(v as int));
    }
}

/// Append the three hexadecimal digits of `v` (below 0x1000) to `m`.
pub fn append_hex3(m: &mut String, v: u16)
    requires
        v < 0x1000,
    ensures
        final(m)@ == old(m)@ + hex3(v as int),
{
    proof {
        assert((v >> 8) & 0x0F == v / 0x100 % 16 && (v >> 4) & 0x0F == v / 0x10 % 16 && v & 0x0F
            == v % 16 && (v >> 8) & 0x0F < 16 && (v >> 4) & 0x0F < 16 && v & 0x0F
            < 16) by (bit_vector);
    }
    m.append(hex_digit_str(((v >> 8) & 0x0F) as u8));
    m.append(hex_digit_str(((v >> 4) & 0x0F) as u8));
    m.append(hex_digit_str((v & 0x0F) as u8));
    proof {
        assert(m@ =~= old(m)@ + hex3(v as int));
    }
}

} // verus!
