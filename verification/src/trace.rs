//! Verified text building for the execution trace and the disassembler:
//! hexadecimal and decimal rendering of the register file's values.

use vstd::prelude::*;

verus! {

/// The character for one hexadecimal digit (a value below 16).
pub open spec fn nib_char(n: u8) -> char {
    if n == 0 {
        '0'
    } else if n == 1 {
        '1'
    } else if n == 2 {
        '2'
    } else if n == 3 {
        '3'
    } else if n == 4 {
        '4'
    } else if n == 5 {
        '5'
    } else if n == 6 {
        '6'
    } else if n == 7 {
        '7'
    } else if n == 8 {
        '8'
    } else if n == 9 {
        '9'
    } else if n == 10 {
        'A'
    } else if n == 11 {
        'B'
    } else if n == 12 {
        'C'
    } else if n == 13 {
        'D'
    } else if n == 14 {
        'E'
    } else {
        'F'
    }
}

/// The two characters of a byte in hexadecimal.
pub open spec fn hex2_seq(v: u8) -> Seq<char> {
    seq![nib_char(v >> 4), nib_char(v & 0x0F)]
}

/// The four characters of a 16-bit word in hexadecimal.
pub open spec fn hex4_seq(v: u16) -> Seq<char> {
    hex2_seq((v >> 8) as u8) + hex2_seq((v & 0xFF) as u8)
}

/// The decimal digits of a value, most significant first.
pub open spec fn dec_seq(v: u64) -> Seq<char>
    decreases v,
{
    if v < 10 {
        seq![nib_char(v as u8)]
    } else {
        dec_seq(v / 10) + seq![nib_char((v % 10) as u8)]
    }
}

/// One hexadecimal digit as text.
fn hex_digit_str(n: u8) -> (r: &'static str)
    requires
        n < 16,
    ensures
        r@ == seq![nib_char(n)],
{
    let r: &'static str = if n == 0 {
        "0"
    } else if n == 1 {
        "1"
    } else if n == 2 {
        "2"
    } else if n == 3 {
        "3"
    } else if n == 4 {
        "4"
    } else if n == 5 {
        "5"
    } else if n == 6 {
        "6"
    } else if n == 7 {
        "7"
    } else if n == 8 {
        "8"
    } else if n == 9 {
        "9"
    } else if n == 10 {
        "A"
    } else if n == 11 {
        "B"
    } else if n == 12 {
        "C"
    } else if n == 13 {
        "D"
    } else if n == 14 {
        "E"
    } else {
        "F"
    };
    proof {
        reveal_strlit("0");
        reveal_strlit("1");
        reveal_strlit("2");
        reveal_strlit("3");
        reveal_strlit("4");
        reveal_strlit("5");
        reveal_strlit("6");
        reveal_strlit("7");
        reveal_strlit("8");
        reveal_strlit("9");
        reveal_strlit("A");
        reveal_strlit("B");
        reveal_strlit("C");
        reveal_strlit("D");
        reveal_strlit("E");
        reveal_strlit("F");
        assert(r@ =~= seq![nib_char(n)]);
    }
    r
}

/// Append a byte as two hexadecimal characters.
pub fn push_hex2(out: &mut String, v: u8)
    ensures
        final(out)@ == old(out)@ + hex2_seq(v),
{
    proof {
        assert(v >> 4 < 16 && v & 0x0F < 16) by (bit_vector);
    }
    out.append(hex_digit_str(v >> 4));
    out.append(hex_digit_str(v & 0x0F));
    proof {
        assert(out@ =~= old(out)@ + hex2_seq(v));
    }
}

/// Append a 16-bit word as four hexadecimal characters.
pub fn push_hex4(out: &mut String, v: u16)
    ensures
        final(out)@ == old(out)@ + hex4_seq(v),
{
    push_hex2(out, (v >> 8) as u8);
    push_hex2(out, (v & 0xFF) as u8);
    proof {
        assert(out@ =~= old(out)@ + hex4_seq(v));
    }
}

/// Append a value in decimal, most significant digit first.
pub fn push_dec(out: &mut String, v: u64)
    ensures
        final(out)@ == old(out)@ + dec_seq(v),
    decreases v
{
    if v >= 10 {
        push_dec(out, v / 10);
    }
    proof {
        assert(((v % 10) as u8) < 16);
    }
    out.append(hex_digit_str((v % 10) as u8));
    proof {
        assert(out@ =~= old(out)@ + dec_seq(v));
    }
}

} // verus!
