//! Textual rendering of raw register words: decimal and hexadecimal
//! numerals, and ASCII upper-casing of syscall names.
use vstd::prelude::*;
use vstd::string::StringSliceAdditionalSpecFns;
use vstd::string::StrSliceExecFns;

verus! {

/// Relies on String::push: appends the given character to the end of the string.
pub assume_specification[ String::push ](s: &mut String, ch: char)
    ensures
        final(s)@ == old(s)@.push(ch),
;

/// The character for one decimal digit.
pub open spec fn digit_char(d: nat) -> char {
    if d == 0 {
        '0'
    } else if d == 1 {
        '1'
    } else if d == 2 {
        '2'
    } else if d == 3 {
        '3'
    } else if d == 4 {
        '4'
    } else if d == 5 {
        '5'
    } else if d == 6 {
        '6'
    } else if d == 7 {
        '7'
    } else if d == 8 {
        '8'
    } else {
        '9'
    }
}

/// The character for one hexadecimal digit, lower case.
pub open spec fn hex_char(d: nat) -> char {
    if d < 10 {
        digit_char(d)
    } else if d == 10 {
        'a'
    } else if d == 11 {
        'b'
    } else if d == 12 {
        'c'
    } else if d == 13 {
        'd'
    } else if d == 14 {
        'e'
    } else {
        'f'
    }
}

/// The decimal numeral of `n`, most significant digit first, no sign and no
/// leading zeros (`0` itself is the single character `'0'`).
pub open spec fn dec_seq(n: nat) -> Seq<char>
    decreases n,
{
    if n < 10 {
        seq![digit_char(n)]
    } else {
        dec_seq(n / 10).push(digit_char(n % 10))
    }
}

/// The hexadecimal numeral of `n`, without the `0x` prefix.
pub open spec fn hex_seq(n: nat) -> Seq<char>
    decreases n,
{
    if n < 16 {
        seq![hex_char(n)]
    } else {
        hex_seq(n / 16).push(hex_char(n % 16))
    }
}

/// The hexadecimal numeral of `n` with the conventional `0x` prefix, the form
/// used for addresses, pointers and bit-flag words.
pub open spec fn hex_text(n: nat) -> Seq<char> {
    seq!['0', 'x'] + hex_seq(n)
}

fn digit(d: u64) -> (c: char)
    requires
        d < 10,
    ensures
        c == digit_char(d as nat),
{
    match d {
        0 => '0',
        1 => '1',
        2 => '2',
        3 => '3',
        4 => '4',
        5 => '5',
        6 => '6',
        7 => '7',
        8 => '8',
        _ => '9',
    }
}

fn hex_digit(d: u64) -> (c: char)
    requires
        d < 16,
    ensures
        c == hex_char(d as nat),
{
    match d {
        0 => '0',
        1 => '1',
        2 => '2',
        3 => '3',
        4 => '4',
        5 => '5',
        6 => '6',
        7 => '7',
        8 => '8',
        9 => '9',
        10 => 'a',
        11 => 'b',
        12 => 'c',
        13 => 'd',
        14 => 'e',
        _ => 'f',
    }
}

fn push_dec(n: u64, s: &mut String)
    ensures
        final(s)@ == old(s)@ + dec_seq(n as nat),
    decreases n,
{
    if n < 10 {
        s.push(digit(n));
        assert(final(s)@ =~= old(s)@ + dec_seq(n as nat));
    } else {
        push_dec(n / 10, s);
        s.push(digit(n % 10));
        assert(final(s)@ =~= old(s)@ + dec_seq(n as nat));
    }
}

fn push_hex(n: u64, s: &mut String)
    ensures
        final(s)@ == old(s)@ + hex_seq(n as nat),
    decreases n,
{
    if n < 16 {
        s.push(hex_digit(n));
        assert(final(s)@ =~= old(s)@ + hex_seq(n as nat));
    } else {
        push_hex(n / 16, s);
        s.push(hex_digit(n % 16));
        assert(final(s)@ =~= old(s)@ + hex_seq(n as nat));
    }
}

/// The decimal text of a raw word, the form used for counts and descriptors.
pub fn dec_string(n: u64) -> (r: String)
    ensures
        r@ == dec_seq(n as nat),
{
    let mut s = String::new();
    push_dec(n, &mut s);
    assert(s@ =~= dec_seq(n as nat));
    s
}

/// The `0x`-prefixed hexadecimal text of a raw word.
pub fn hex_string(n: u64) -> (r: String)
    ensures
        r@ == hex_text(n as nat),
{
    let mut s = String::new();
    s.push('0');
    s.push('x');
    push_hex(n, &mut s);
    assert(s@ =~= hex_text(n as nat));
    s
}

/// One byte upper-cased: an ASCII lower-case letter loses the case bit, any
/// other byte is kept as it is.
pub open spec fn upper_byte(b: u8) -> u8 {
    if 97 <= b <= 122 {
        (b - 32) as u8
    } else {
        b
    }
}

/// A byte sequence upper-cased and read as text, one character per byte.
pub open spec fn upper_text(bs: Seq<u8>) -> Seq<char> {
    bs.map_values(|b: u8| upper_byte(b) as char)
}

/// The upper-cased form of an ASCII name, such as the textual syscall names
/// the presentation layer hands in.
pub fn ascii_upper(name: &str) -> (r: String)
    ensures
        r@ == upper_text(name.spec_bytes()),
{
    let bytes = name.as_bytes_vec();
    let mut s = String::new();
    let mut i: usize = 0;
    while i < bytes.len()
        invariant
            i <= bytes.len(),
            bytes@ == name.spec_bytes(),
            s@ == upper_text(name.spec_bytes().take(i as int)),
        decreases bytes.len() - i,
    {
        let b = bytes[i];
        let up = if 97 <= b && b <= 122 {
            b - 32
        } else {
            b
        };
        s.push(up as char);
        i = i + 1;
        assert(s@ =~= upper_text(name.spec_bytes().take(i as int)));
    }
    assert(name.spec_bytes().take(bytes@.len() as int) =~= name.spec_bytes());
    s
}

} // verus!
