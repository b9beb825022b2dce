//! Decimal and hexadecimal renderings of integers, and parsing of `#RRGGBB` colors.

use vstd::prelude::*;

verus! {

/// The digit character for `d`, with upper-case letters above nine.
pub open spec fn digit_char(d: nat) -> char {
    if d == 0 { '0' } else if d == 1 { '1' } else if d == 2 { '2' } else if d == 3 { '3' }
    else if d == 4 { '4' } else if d == 5 { '5' } else if d == 6 { '6' } else if d == 7 { '7' }
    else if d == 8 { '8' } else if d == 9 { '9' } else if d == 10 { 'A' } else if d == 11 { 'B' }
    else if d == 12 { 'C' } else if d == 13 { 'D' } else if d == 14 { 'E' } else { 'F' }
}

/// The base-ten rendering of `n`, without sign or leading zeros.
pub open spec fn decimal(n: nat) -> Seq<char>
    decreases n,
{
    if n < 10 {
        seq![digit_char(n)]
    } else {
        decimal(n / 10).push(digit_char(n % 10))
    }
}

/// The value of a hexadecimal digit, upper or lower case.
pub open spec fn hex_digit_value(c: char) -> nat {
    if '0' <= c && c <= '9' {
        (c as nat - '0' as nat) as nat
    } else if 'A' <= c && c <= 'F' {
        (c as nat - 'A' as nat + 10) as nat
    } else {
        (c as nat - 'a' as nat + 10) as nat
    }
}

pub open spec fn is_hex_digit(c: char) -> bool {
    ('0' <= c && c <= '9') || ('A' <= c && c <= 'F') || ('a' <= c && c <= 'f')
}

/// The value of a string of hexadecimal digits, most significant first.
pub open spec fn hex_value(s: Seq<char>) -> nat
    decreases s.len(),
{
    if s.len() == 0 {
        0
    } else {
        hex_value(s.drop_last()) * 16 + hex_digit_value(s.last())
    }
}

/// A color written `#` followed by six hexadecimal digits.
pub open spec fn is_hex_color(s: Seq<char>) -> bool {
    &&& s.len() == 7
    &&& s[0] == '#'
    &&& forall|i: int| 1 <= i < 7 ==> is_hex_digit(#[trigger] s[i])
}

/// The 24-bit value that a `#RRGGBB` color stands for.
pub open spec fn color_value(s: Seq<char>) -> nat {
    hex_value(s.subrange(1, 7))
}

/// Two upper-case hexadecimal digits for a byte.
pub open spec fn hex_byte(b: nat) -> Seq<char> {
    seq![digit_char(b / 16), digit_char(b % 16)]
}

/// `#RRGGBB`, upper case, for a 24-bit value.
pub open spec fn hex_color(v: nat) -> Seq<char> {
    seq!['#'] + hex_byte(v / 65536) + hex_byte((v / 256) % 256) + hex_byte(v % 256)
}

fn digit_str(d: u8) -> (r: &'static str)
    requires
        d < 16,
    ensures
        r@ == seq![digit_char(d as nat)],
{
    proof {
        reveal_strlit("0"); reveal_strlit("1"); reveal_strlit("2"); reveal_strlit("3");
        reveal_strlit("4"); reveal_strlit("5"); reveal_strlit("6"); reveal_strlit("7");
        reveal_strlit("8"); reveal_strlit("9"); reveal_strlit("A"); reveal_strlit("B");
        reveal_strlit("C"); reveal_strlit("D"); reveal_strlit("E"); reveal_strlit("F");
    }
    match d {
        0 => "0",
        1 => "1",
        2 => "2",
        3 => "3",
        4 => "4",
        5 => "5",
        6 => "6",
        7 => "7",
        8 => "8",
        9 => "9",
        10 => "A",
        11 => "B",
        12 => "C",
        13 => "D",
        14 => "E",
        _ => "F",
    }
}

/// Renders `n` in base ten.
pub fn decimal_string(n: u128) -> (r: String)
    ensures
        r@ == decimal(n as nat),
    decreases n,
{
    if n < 10 {
        String::from_str(digit_str(n as u8))
    } else {
        let mut s = decimal_string(n / 10);
        s.append(digit_str((n % 10) as u8));
        s
    }
}

fn push_hex_byte(s: &mut String, b: u32)
    requires
        b < 256,
    ensures
        final(s)@ == old(s)@ + hex_byte(b as nat),
{
    s.append(digit_str((b / 16) as u8));
    s.append(digit_str((b % 16) as u8));
    assert(final(s)@ =~= old(s)@ + hex_byte(b as nat));
}

/// Renders a 24-bit value as `#RRGGBB` with upper-case digits.
pub fn hex_color_string(v: u32) -> (r: String)
    requires
        v < 0x100_0000,
    ensures
        r@ == hex_color(v as nat),
{
    let mut s = String::from_str("#");
    proof {
        reveal_strlit("#");
    }
    push_hex_byte(&mut s, v / 65536);
    push_hex_byte(&mut s, (v / 256) % 256);
    push_hex_byte(&mut s, v % 256);
    assert(s@ =~= hex_color(v as nat));
    s
}

fn hex_digit(c: char) -> (r: u32)
    requires
        is_hex_digit(c),
    ensures
        r as nat == hex_digit_value(c),
        r < 16,
{
    if '0' <= c && c <= '9' {
        (c as u32) - ('0' as u32)
    } else if 'A' <= c && c <= 'F' {
        (c as u32) - ('A' as u32) + 10
    } else {
        (c as u32) - ('a' as u32) + 10
    }
}

pub open spec fn pow16(n: nat) -> nat
    decreases n,
{
    if n == 0 { 1 } else { pow16((n - 1) as nat) * 16 }
}

/// Reads the 24-bit value of a `#RRGGBB` color.
pub fn parse_hex_color(s: &str) -> (r: u32)
    requires
        is_hex_color(s@),
    ensures
        r as nat == color_value(s@),
        r < 0x100_0000,
{
    let ghost digits = s@.subrange(1, 7);
    let mut v: u32 = 0;
    let mut i: usize = 1;
    proof {
        assert(digits.subrange(0, 0) =~= Seq::<char>::empty());
    }
    while i < 7
        invariant
            1 <= i <= 7,
            is_hex_color(s@),
            digits == s@.subrange(1, 7),
            v as nat == hex_value(digits.subrange(0, i - 1)),
            v < pow16((i - 1) as nat),
        decreases 7 - i,
    {
        let c = s.get_char(i);
        let d = hex_digit(c);
        proof {
            let p = digits.subrange(0, i as int);
            assert(p.drop_last() =~= digits.subrange(0, i - 1));
            assert(p.last() == c);
            assert(pow16(i as nat) == pow16((i - 1) as nat) * 16);
            reveal_with_fuel(pow16, 7);
            let k = (i - 1) as nat;
            assert(pow16(k) <= 0x10_0000) by {
                if k == 0 {} else if k == 1 {} else if k == 2 {} else if k == 3 {} else if k == 4 {} else {}
            }
            assert(v * 16 + d < pow16((i - 1) as nat) * 16) by (nonlinear_arith)
                requires
                    v < pow16((i - 1) as nat),
                    d < 16,
            ;
        }
        v = v * 16 + d;
        i = i + 1;
    }
    proof {
        assert(digits.subrange(0, 6) =~= digits);
        reveal_with_fuel(pow16, 7);
        assert(pow16(6) == 0x100_0000);
    }
    v
}

} // verus!
