//! Rendering of numbers and bytes as text: decimal digits of an integer and
//! lowercase hexadecimal of a byte sequence.

use vstd::prelude::*;
use vstd::string::*;

verus! {

/// The character for a digit value below sixteen: `0`-`9`, then `a`-`f`.
pub open spec fn digit_char(d: int) -> char {
    if d == 0 {
        '0'
    } else if d == 1 {
        '1'
    } else if d == 2 {
        '2'
    } else if d == 3 {
        '3'
    } else if d == 4 {
        '4'
    } else if d == 5 {
        '5'
    } else if d == 6 {
        '6'
    } else if d == 7 {
        '7'
    } else if d == 8 {
        '8'
    } else if d == 9 {
        '9'
    } else if d == 10 {
        'a'
    } else if d == 11 {
        'b'
    } else if d == 12 {
        'c'
    } else if d == 13 {
        'd'
    } else if d == 14 {
        'e'
    } else {
        'f'
    }
}

/// Whether a character is one of `0`-`9` or `a`-`f`.
pub open spec fn is_lower_hex(c: char) -> bool {
    ('0' <= c && c <= '9') || ('a' <= c && c <= 'f')
}

/// The decimal rendering of a natural number: no sign, no leading zeros,
/// and `"0"` for zero.
pub open spec fn decimal_of(n: nat) -> Seq<char>
    decreases n,
{
    if n < 10 {
        seq![digit_char(n as int)]
    } else {
        decimal_of(n / 10).push(digit_char((n % 10) as int))
    }
}

/// The lowercase hexadecimal rendering of a byte sequence: two digits per
/// byte, high nibble first.
pub open spec fn hex_of(bytes: Seq<u8>) -> Seq<char>
    decreases bytes.len(),
{
    if bytes.len() == 0 {
        Seq::empty()
    } else {
        hex_of(bytes.drop_last()).push(digit_char(bytes.last() as int / 16)).push(
            digit_char(bytes.last() as int % 16),
        )
    }
}

/// The character of every digit value below sixteen is a lowercase
/// hexadecimal character.
pub proof fn lemma_digit_char_is_lower_hex(d: int)
    requires
        0 <= d < 16,
    ensures
        is_lower_hex(digit_char(d)),
{
}

/// The hexadecimal rendering has two characters per byte, and the two at
/// positions `2 * i` and `2 * i + 1` are the digits of byte `i`.
pub proof fn lemma_hex_of_index(bytes: Seq<u8>, i: int)
    requires
        0 <= i < bytes.len(),
    ensures
        hex_of(bytes).len() == 2 * bytes.len(),
        hex_of(bytes)[2 * i] == digit_char(bytes[i] as int / 16),
        hex_of(bytes)[2 * i + 1] == digit_char(bytes[i] as int % 16),
    decreases bytes.len(),
{
    lemma_hex_of_len(bytes);
    lemma_hex_of_len(bytes.drop_last());
    if i < bytes.len() - 1 {
        lemma_hex_of_index(bytes.drop_last(), i);
    }
}

/// The hexadecimal rendering has two characters per byte.
pub proof fn lemma_hex_of_len(bytes: Seq<u8>)
    ensures
        hex_of(bytes).len() == 2 * bytes.len(),
    decreases bytes.len(),
{
    if bytes.len() > 0 {
        lemma_hex_of_len(bytes.drop_last());
    }
}

/// Every character of a hexadecimal rendering is a lowercase hexadecimal
/// digit.
pub proof fn lemma_hex_of_is_lower_hex(bytes: Seq<u8>, k: int)
    requires
        0 <= k < 2 * bytes.len(),
    ensures
        hex_of(bytes).len() == 2 * bytes.len(),
        is_lower_hex(hex_of(bytes)[k]),
{
    let i = k / 2;
    lemma_hex_of_index(bytes, i);
    lemma_digit_char_is_lower_hex(bytes[i] as int / 16);
    lemma_digit_char_is_lower_hex(bytes[i] as int % 16);
}

/// The one-character string of a digit value below sixteen.
fn digit_str(d: u8) -> (s: &'static str)
    requires
        d < 16,
    ensures
        s@ == seq![digit_char(d as int)],
{
    proof {
        reveal_strlit("0");
        reveal_strlit("1");
        reveal_strlit("2");
        reveal_strlit("3");
        reveal_strlit("4");
        reveal_strlit("5");
        reveal_strlit("6");
        reveal_strlit("7");
        reveal_strlit("8");
        reveal_strlit("9");
        reveal_strlit("a");
        reveal_strlit("b");
        reveal_strlit("c");
        reveal_strlit("d");
        reveal_strlit("e");
        reveal_strlit("f");
    }
    let s = match d {
        0 => "0",
        1 => "1",
        2 => "2",
        3 => "3",
        4 => "4",
        5 => "5",
        6 => "6",
        7 => "7",
        8 => "8",
        9 => "9",
        10 => "a",
        11 => "b",
        12 => "c",
        13 => "d",
        14 => "e",
        _ => "f",
    };
    assert(s@ =~= seq![digit_char(d as int)]);
    s
}

/// Appends the decimal rendering of `n` to `out`.
fn push_decimal(n: u64, out: &mut String)
    ensures
        final(out)@ == old(out)@ + decimal_of(n as nat),
    decreases n,
{
    if n >= 10 {
        push_decimal(n / 10, out);
    }
    let d: u8 = (n % 10) as u8;
    out.append(digit_str(d));
    assert(final(out)@ =~= old(out)@ + decimal_of(n as nat));
}

/// Renders `n` in decimal.
pub fn to_decimal(n: u64) -> (s: String)
    ensures
        s@ == decimal_of(n as nat),
{
    let mut out = String::new();
    push_decimal(n, &mut out);
    assert(out@ =~= decimal_of(n as nat));
    out
}

/// Renders `bytes` in lowercase hexadecimal, two digits per byte.
pub fn to_hex(bytes: &[u8]) -> (s: String)
    ensures
        s@ == hex_of(bytes@),
        s@.len() == 2 * bytes@.len(),
{
    let mut out = String::new();
    let mut i: usize = 0;
    while i < bytes.len()
        invariant
            i <= bytes@.len(),
            out@ == hex_of(bytes@.take(i as int)),
        decreases bytes@.len() - i,
    {
        let b: u8 = bytes[i];
        out.append(digit_str(b / 16));
        out.append(digit_str(b % 16));
        proof {
            let next = bytes@.take(i + 1);
            assert(next.drop_last() =~= bytes@.take(i as int));
            assert(next.last() == b);
            assert(out@ =~= hex_of(next));
        }
        i += 1;
    }
    proof {
        assert(bytes@.take(i as int) =~= bytes@);
        lemma_hex_of_len(bytes@);
    }
    out
}

} // verus!
