//! Verified plain-text rendering of numbers and register labels.
//!
//! Trace entries carry human-readable strings with actual operand values
//! substituted; this module builds those number fragments and proves each
//! equal to its specification, character for character.
use vstd::prelude::*;

verus! {

use vstd::string::StringExecFns;

/// Character for one digit value below 16.
pub open spec fn spec_digit_char(d: u32) -> char {
    if d == 0 {
        '0'
    } else if d == 1 {
        '1'
    } else if d == 2 {
        '2'
    } else if d == 3 {
        '3'
    } else if d == 4 {
        '4'
    } else if d == 5 {
        '5'
    } else if d == 6 {
        '6'
    } else if d == 7 {
        '7'
    } else if d == 8 {
        '8'
    } else if d == 9 {
        '9'
    } else if d == 10 {
        'a'
    } else if d == 11 {
        'b'
    } else if d == 12 {
        'c'
    } else if d == 13 {
        'd'
    } else if d == 14 {
        'e'
    } else {
        'f'
    }
}

/// Hexadecimal digits of `v`, most significant first, without leading zeros
/// (zero renders as a single `0`).
pub open spec fn spec_hex_digits(v: u32) -> Seq<char>
    decreases v,
{
    if v < 16 {
        seq![spec_digit_char(v)]
    } else {
        spec_hex_digits(v / 16).push(spec_digit_char(v % 16))
    }
}

/// Hexadecimal rendering of `v` with a `0x` prefix, as minimal-width
/// formatting produces it.
pub open spec fn spec_hex(v: u32) -> Seq<char> {
    seq!['0', 'x'] + spec_hex_digits(v)
}

/// The `n` least-significant hexadecimal digits of `v`, most significant
/// first, zero-padded to exactly `n` characters.
pub open spec fn spec_hex_digits_fixed(v: u32, n: nat) -> Seq<char>
    decreases n,
{
    if n == 0 {
        Seq::<char>::empty()
    } else {
        spec_hex_digits_fixed(v / 16, (n - 1) as nat).push(spec_digit_char(v % 16))
    }
}

/// Hexadecimal rendering of `v` with a `0x` prefix, zero-padded to 8 digits,
/// as fixed-width formatting produces it.
pub open spec fn spec_hex_padded8(v: u32) -> Seq<char> {
    seq!['0', 'x'] + spec_hex_digits_fixed(v, 8)
}

/// Decimal digits of `v`, most significant first, without leading zeros.
pub open spec fn spec_dec_digits(v: u32) -> Seq<char>
    decreases v,
{
    if v < 10 {
        seq![spec_digit_char(v)]
    } else {
        spec_dec_digits(v / 10).push(spec_digit_char(v % 10))
    }
}

/// Label of a general-purpose register: a `$` followed by the index in
/// decimal.
pub open spec fn spec_reg_label(i: u32) -> Seq<char> {
    seq!['$'] + spec_dec_digits(i)
}

/// One digit as a string.
fn digit_string(d: u32) -> (s: String)
    requires
        d < 16,
    ensures
        s@ == seq![spec_digit_char(d)],
{
    if d == 0 {
        proof {
            reveal_strlit("0");
            assert("0"@ =~= seq![spec_digit_char(0u32)]);
        }
        String::from_str("0")
    } else if d == 1 {
        proof {
            reveal_strlit("1");
            assert("1"@ =~= seq![spec_digit_char(1u32)]);
        }
        String::from_str("1")
    } else if d == 2 {
        proof {
            reveal_strlit("2");
            assert("2"@ =~= seq![spec_digit_char(2u32)]);
        }
        String::from_str("2")
    } else if d == 3 {
        proof {
            reveal_strlit("3");
            assert("3"@ =~= seq![spec_digit_char(3u32)]);
        }
        String::from_str("3")
    } else if d == 4 {
        proof {
            reveal_strlit("4");
            assert("4"@ =~= seq![spec_digit_char(4u32)]);
        }
        String::from_str("4")
    } else if d == 5 {
        proof {
            reveal_strlit("5");
            assert("5"@ =~= seq![spec_digit_char(5u32)]);
        }
        String::from_str("5")
    } else if d == 6 {
        proof {
            reveal_strlit("6");
            assert("6"@ =~= seq![spec_digit_char(6u32)]);
        }
        String::from_str("6")
    } else if d == 7 {
        proof {
            reveal_strlit("7");
            assert("7"@ =~= seq![spec_digit_char(7u32)]);
        }
        String::from_str("7")
    } else if d == 8 {
        proof {
            reveal_strlit("8");
            assert("8"@ =~= seq![spec_digit_char(8u32)]);
        }
        String::from_str("8")
    } else if d == 9 {
        proof {
            reveal_strlit("9");
            assert("9"@ =~= seq![spec_digit_char(9u32)]);
        }
        String::from_str("9")
    } else if d == 10 {
        proof {
            reveal_strlit("a");
            assert("a"@ =~= seq![spec_digit_char(10u32)]);
        }
        String::from_str("a")
    } else if d == 11 {
        proof {
            reveal_strlit("b");
            assert("b"@ =~= seq![spec_digit_char(11u32)]);
        }
        String::from_str("b")
    } else if d == 12 {
        proof {
            reveal_strlit("c");
            assert("c"@ =~= seq![spec_digit_char(12u32)]);
        }
        String::from_str("c")
    } else if d == 13 {
        proof {
            reveal_strlit("d");
            assert("d"@ =~= seq![spec_digit_char(13u32)]);
        }
        String::from_str("d")
    } else if d == 14 {
        proof {
            reveal_strlit("e");
            assert("e"@ =~= seq![spec_digit_char(14u32)]);
        }
        String::from_str("e")
    } else {
        proof {
            reveal_strlit("f");
            assert("f"@ =~= seq![spec_digit_char(d)]);
        }
        String::from_str("f")
    }
}

/// Hexadecimal digits of `v` as a string, most significant first.
fn hex_digits_string(v: u32) -> (s: String)
    ensures
        s@ == spec_hex_digits(v),
    decreases v,
{
    if v < 16 {
        digit_string(v)
    } else {
        let mut s = hex_digits_string(v / 16);
        let d = digit_string(v % 16);
        s.append(d.as_str());
        proof {
            assert(s@ =~= spec_hex_digits(v));
        }
        s
    }
}

/// Hexadecimal rendering of `v` with a `0x` prefix.
pub fn hex_string(v: u32) -> (s: String)
    ensures
        s@ == spec_hex(v),
{
    let mut s = String::from_str("0x");
    let d = hex_digits_string(v);
    s.append(d.as_str());
    proof {
        reveal_strlit("0x");
        assert(s@ =~= spec_hex(v));
    }
    s
}

/// The `n` least-significant hexadecimal digits of `v` as a zero-padded
/// string.
fn hex_digits_fixed_string(v: u32, n: u32) -> (s: String)
    ensures
        s@ == spec_hex_digits_fixed(v, n as nat),
    decreases n,
{
    if n == 0 {
        let s = String::new();
        proof {
            assert(s@ =~= spec_hex_digits_fixed(v, 0));
        }
        s
    } else {
        let mut s = hex_digits_fixed_string(v / 16, n - 1);
        let d = digit_string(v % 16);
        s.append(d.as_str());
        proof {
            assert(s@ =~= spec_hex_digits_fixed(v, n as nat));
        }
        s
    }
}

/// Hexadecimal rendering of `v` with a `0x` prefix, zero-padded to 8 digits.
pub fn hex_padded8_string(v: u32) -> (s: String)
    ensures
        s@ == spec_hex_padded8(v),
{
    let mut s = String::from_str("0x");
    let d = hex_digits_fixed_string(v, 8);
    s.append(d.as_str());
    proof {
        reveal_strlit("0x");
        assert(s@ =~= spec_hex_padded8(v));
    }
    s
}

/// Decimal rendering of `v`.
pub fn dec_string(v: u32) -> (s: String)
    ensures
        s@ == spec_dec_digits(v),
    decreases v,
{
    if v < 10 {
        digit_string(v)
    } else {
        let mut s = dec_string(v / 10);
        let d = digit_string(v % 10);
        s.append(d.as_str());
        proof {
            assert(s@ =~= spec_dec_digits(v));
        }
        s
    }
}

/// Label of a general-purpose register, `$` plus the decimal index.
pub fn reg_label_string(i: u32) -> (s: String)
    ensures
        s@ == spec_reg_label(i),
{
    let mut s = String::from_str("$");
    let d = dec_string(i);
    s.append(d.as_str());
    proof {
        reveal_strlit("$");
        assert(s@ =~= spec_reg_label(i));
    }
    s
}

} // verus!
