//! Hexadecimal numbers and padded columns, for disassembly lines and
//! diagnostic messages.

use vstd::prelude::*;

verus! {

/// The lower-case hexadecimal digit for `n`.
pub open spec fn hex_digit(n: int) -> char
    recommends
        0 <= n < 16,
{
    if n == 0 {
        '0'
    } else if n == 1 {
        '1'
    } else if n == 2 {
        '2'
    } else if n == 3 {
        '3'
    } else if n == 4 {
        '4'
    } else if n == 5 {
        '5'
    } else if n == 6 {
        '6'
    } else if n == 7 {
        '7'
    } else if n == 8 {
        '8'
    } else if n == 9 {
        '9'
    } else if n == 10 {
        'a'
    } else if n == 11 {
        'b'
    } else if n == 12 {
        'c'
    } else if n == 13 {
        'd'
    } else if n == 14 {
        'e'
    } else {
        'f'
    }
}

/// A byte as two hexadecimal digits.
pub open spec fn hex2(value: int) -> Seq<char>
    recommends
        0 <= value < 0x100,
{
    seq![hex_digit((value / 16) % 16), hex_digit(value % 16)]
}

/// A 16-bit value as four hexadecimal digits.
pub open spec fn hex4(value: int) -> Seq<char>
    recommends
        0 <= value < 0x10000,
{
    hex2((value / 256) % 256) + hex2(value % 256)
}

/// A byte as a decimal number without leading zeros.
pub open spec fn decimal(value: u8) -> Seq<char> {
    if value < 10 {
        seq![hex_digit(value as int)]
    } else if value < 100 {
        seq![hex_digit(value as int / 10), hex_digit(value as int % 10)]
    } else {
        seq![
            hex_digit(value as int / 100),
            hex_digit((value as int / 10) % 10),
            hex_digit(value as int % 10),
        ]
    }
}

/// A flag as one digit: `1` if set, `0` if clear.
pub open spec fn flag_digit(flag: bool) -> Seq<char> {
    if flag {
        seq!['1']
    } else {
        seq!['0']
    }
}

/// `count` blanks.
pub open spec fn blanks(count: int) -> Seq<char> {
    Seq::new(
        if count > 0 {
            count as nat
        } else {
            0
        },
        |i: int| ' ',
    )
}

/// `text` filled up with blanks on the right to `width` characters; a longer
/// text stays as it is.
pub open spec fn padded(text: Seq<char>, width: int) -> Seq<char> {
    text + blanks(width - text.len())
}

/// The digit for `n` as a string.
fn hex_digit_text(n: u8) -> (text: &'static str)
    requires
        n < 16,
    ensures
        text@ == seq![hex_digit(n as int)],
{
    proof {
        reveal_strlit("0");
        reveal_strlit("1");
        reveal_strlit("2");
        reveal_strlit("3");
        reveal_strlit("4");
        reveal_strlit("5");
        reveal_strlit("6");
        reveal_strlit("7");
        reveal_strlit("8");
        reveal_strlit("9");
        reveal_strlit("a");
        reveal_strlit("b");
        reveal_strlit("c");
        reveal_strlit("d");
        reveal_strlit("e");
        reveal_strlit("f");
    }
    match n {
        0 => "0",
        1 => "1",
        2 => "2",
        3 => "3",
        4 => "4",
        5 => "5",
        6 => "6",
        7 => "7",
        8 => "8",
        9 => "9",
        10 => "a",
        11 => "b",
        12 => "c",
        13 => "d",
        14 => "e",
        _ => "f",
    }
}

/// Appends `value` as two hexadecimal digits.
pub fn push_hex2(text: &mut String, value: u8)
    ensures
        final(text)@ == old(text)@ + hex2(value as int),
{
    text.append(hex_digit_text(value / 16));
    text.append(hex_digit_text(value % 16));
}

/// Appends `value` as four hexadecimal digits.
pub fn push_hex4(text: &mut String, value: usize)
    requires
        value < 0x10000,
    ensures
        final(text)@ == old(text)@ + hex4(value as int),
{
    push_hex2(text, (value / 256) as u8);
    push_hex2(text, (value % 256) as u8);
}

/// Appends `value` as a decimal number.
pub fn push_decimal(text: &mut String, value: u8)
    ensures
        final(text)@ == old(text)@ + decimal(value),
{
    if value >= 100 {
        text.append(hex_digit_text(value / 100));
    }
    if value >= 10 {
        text.append(hex_digit_text((value / 10) % 10));
    }
    text.append(hex_digit_text(value % 10));
}

/// Appends a flag as one digit.
pub fn push_flag(text: &mut String, flag: bool)
    ensures
        final(text)@ == old(text)@ + flag_digit(flag),
{
    proof {
        reveal_strlit("0");
        reveal_strlit("1");
    }
    text.append(
        if flag {
            "1"
        } else {
            "0"
        },
    );
}

/// Appends `count` blanks.
pub fn push_blanks(text: &mut String, count: usize)
    ensures
        final(text)@ == old(text)@ + blanks(count as int),
{
    let mut i: usize = 0;
    while i < count
        invariant
            i <= count,
            text@ == old(text)@ + blanks(i as int),
        decreases count - i,
    {
        proof {
            reveal_strlit(" ");
        }
        text.append(" ");
        i += 1;
    }
}

/// Appends `column`, filled up with blanks to `width` characters.
pub fn push_padded(text: &mut String, column: &str, width: usize)
    ensures
        final(text)@ == old(text)@ + padded(column@, width as int),
{
    let length: usize = column.unicode_len();
    text.append(column);
    if length < width {
        push_blanks(text, width - length);
    }
}

} // verus!
