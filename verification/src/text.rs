//! Decimal and list renderings of integers as text.
//!
//! Every rendering is defined as a sequence of characters; the executable
//! functions build a `String` whose view is that sequence.

use vstd::prelude::*;

verus! {

/// The character that writes the decimal digit `d`.
pub open spec fn digit_char(d: nat) -> char
    recommends
        d < 10,
{
    if d == 0 {
        '0'
    } else if d == 1 {
        '1'
    } else if d == 2 {
        '2'
    } else if d == 3 {
        '3'
    } else if d == 4 {
        '4'
    } else if d == 5 {
        '5'
    } else if d == 6 {
        '6'
    } else if d == 7 {
        '7'
    } else if d == 8 {
        '8'
    } else {
        '9'
    }
}

/// The decimal numeral of `n`, most significant digit first, without leading
/// zeros.
pub open spec fn decimal(n: nat) -> Seq<char>
    decreases n,
{
    if n < 10 {
        seq![digit_char(n)]
    } else {
        decimal(n / 10).push(digit_char(n % 10))
    }
}

/// The texts of `items` in order, with `", "` between neighbours.
pub open spec fn comma_separated(items: Seq<Seq<char>>) -> Seq<char>
    decreases items.len(),
{
    if items.len() == 0 {
        Seq::empty()
    } else if items.len() == 1 {
        items[0]
    } else {
        comma_separated(items.drop_last()) + seq![',', ' '] + items.last()
    }
}

/// The list form of `items`: comma separated, inside square brackets.
pub open spec fn bracketed(items: Seq<Seq<char>>) -> Seq<char> {
    seq!['['] + comma_separated(items) + seq![']']
}

/// The decimal numeral of each byte.
pub open spec fn byte_numerals(bytes: Seq<u8>) -> Seq<Seq<char>> {
    bytes.map_values(|b: u8| decimal(b as nat))
}

/// The developer-oriented form of a byte sequence, such as `[5, 5, 5]`.
pub open spec fn debug_bytes(bytes: Seq<u8>) -> Seq<char> {
    bracketed(byte_numerals(bytes))
}

/// A one-character string slice holding the digit `d`.
fn digit_str(d: u64) -> (s: &'static str)
    requires
        d < 10,
    ensures
        s@ == seq![digit_char(d as nat)],
{
    proof {
        reveal_strlit("0");
        reveal_strlit("1");
        reveal_strlit("2");
        reveal_strlit("3");
        reveal_strlit("4");
        reveal_strlit("5");
        reveal_strlit("6");
        reveal_strlit("7");
        reveal_strlit("8");
        reveal_strlit("9");
    }
    let s = match d {
        0 => "0",
        1 => "1",
        2 => "2",
        3 => "3",
        4 => "4",
        5 => "5",
        6 => "6",
        7 => "7",
        8 => "8",
        _ => "9",
    };
    s
}

/// Appends the decimal numeral of `n` to `out`.
pub fn append_decimal(out: &mut String, n: u64)
    ensures
        final(out)@ == old(out)@ + decimal(n as nat),
    decreases n,
{
    if n >= 10 {
        append_decimal(out, n / 10);
    }
    out.append(digit_str(n % 10));
}

/// Appends the list form of `bytes` to `out`.
pub fn append_debug_bytes(out: &mut String, bytes: &[u8])
    ensures
        final(out)@ == old(out)@ + debug_bytes(bytes@),
{
    let ghost before = out@;
    proof {
        reveal_strlit("[");
        reveal_strlit(", ");
        reveal_strlit("]");
    }
    out.append("[");
    let mut i: usize = 0;
    while i < bytes.len()
        invariant
            i <= bytes.len(),
            ", "@ == seq![',', ' '],
            out@ == before + seq!['['] + comma_separated(byte_numerals(bytes@.take(i as int))),
        decreases bytes.len() - i,
    {
        assert(byte_numerals(bytes@.take(i + 1)).drop_last() =~= byte_numerals(
            bytes@.take(i as int),
        ));
        if i > 0 {
            out.append(", ");
        }
        append_decimal(out, bytes[i] as u64);
        i = i + 1;
    }
    out.append("]");
    assert(bytes@.take(i as int) =~= bytes@);
}

} // verus!
