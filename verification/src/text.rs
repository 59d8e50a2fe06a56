//! Decimal and hexadecimal rendering of the numbers that appear in reports,
//! together with the digit-parsing specification that lets the report's
//! leading count be read back.

use vstd::prelude::*;
use vstd::string::StringExecFns;

verus! {

pub open spec fn is_dec_digit(c: char) -> bool {
    '0' <= c && c <= '9'
}

pub open spec fn dec_digit_char(d: int) -> char {
    if d == 0 {
        '0'
    } else if d == 1 {
        '1'
    } else if d == 2 {
        '2'
    } else if d == 3 {
        '3'
    } else if d == 4 {
        '4'
    } else if d == 5 {
        '5'
    } else if d == 6 {
        '6'
    } else if d == 7 {
        '7'
    } else if d == 8 {
        '8'
    } else {
        '9'
    }
}

pub open spec fn dec_digit_val(c: char) -> int {
    c as int - '0' as int
}

/// The decimal digits of `n`, most significant first.
pub open spec fn spec_dec_digits(n: nat) -> Seq<char>
    decreases n,
{
    if n < 10 {
        seq![dec_digit_char(n as int)]
    } else {
        spec_dec_digits(n / 10).push(dec_digit_char((n % 10) as int))
    }
}

/// The value of a sequence of decimal digits, most significant first.
pub open spec fn dec_digits_val(ds: Seq<char>) -> int
    decreases ds.len(),
{
    if ds.len() == 0 {
        0
    } else {
        dec_digits_val(ds.drop_last()) * 10 + dec_digit_val(ds.last())
    }
}

/// Length of the maximal decimal-digit prefix of `s`.
pub open spec fn dec_prefix_len(s: Seq<char>) -> int
    decreases s.len(),
{
    if s.len() == 0 || !is_dec_digit(s[0]) {
        0
    } else {
        1 + dec_prefix_len(s.drop_first())
    }
}

/// The number spelled by the leading decimal digits of `s`, if there are any.
pub open spec fn parse_leading_count(s: Seq<char>) -> Option<int> {
    if dec_prefix_len(s) == 0 {
        None
    } else {
        Some(dec_digits_val(s.take(dec_prefix_len(s))))
    }
}

/// The decimal digits of a number are digits, there is at least one of them,
/// and they spell the number back.
pub proof fn lemma_dec_digits_spell(n: nat)
    ensures
        spec_dec_digits(n).len() >= 1,
        forall|i: int|
            0 <= i < spec_dec_digits(n).len() ==> is_dec_digit(#[trigger] spec_dec_digits(n)[i]),
        dec_digits_val(spec_dec_digits(n)) == n,
    decreases n,
{
    if n < 10 {
        let ds = spec_dec_digits(n);
        assert(ds =~= seq![dec_digit_char(n as int)]);
        assert(ds.drop_last() =~= Seq::<char>::empty());
        assert(dec_digits_val(ds.drop_last()) == 0);
        assert(dec_digits_val(ds) == 0 * 10 + dec_digit_val(ds.last()));
    } else {
        lemma_dec_digits_spell(n / 10);
        let ds = spec_dec_digits(n);
        let prefix = spec_dec_digits(n / 10);
        assert(ds.drop_last() =~= prefix);
        assert(dec_digits_val(ds) == dec_digits_val(prefix) * 10 + dec_digit_val(
            dec_digit_char((n % 10) as int),
        ));
        assert(dec_digit_val(dec_digit_char((n % 10) as int)) == n % 10);
        assert(dec_digits_val(prefix) * 10 + n % 10 == n) by {
            assert(n / 10 * 10 + n % 10 == n) by (nonlinear_arith);
        };
    }
}

/// The digit prefix of digits followed by a non-digit (or nothing) is exactly
/// those digits.
pub proof fn lemma_dec_prefix_of_concat(ds: Seq<char>, tail: Seq<char>)
    requires
        forall|i: int| 0 <= i < ds.len() ==> is_dec_digit(#[trigger] ds[i]),
        tail.len() == 0 || !is_dec_digit(tail[0]),
    ensures
        dec_prefix_len(ds + tail) == ds.len(),
    decreases ds.len(),
{
    let s = ds + tail;
    if ds.len() == 0 {
        assert(s =~= tail);
    } else {
        assert(s[0] == ds[0]);
        assert(s.drop_first() =~= ds.drop_first() + tail);
        lemma_dec_prefix_of_concat(ds.drop_first(), tail);
    }
}

/// Reading the leading count of digits followed by a non-digit (or nothing)
/// recovers the number the digits spell.
pub proof fn lemma_parse_leading_count_of_concat(n: nat, tail: Seq<char>)
    requires
        tail.len() == 0 || !is_dec_digit(tail[0]),
    ensures
        parse_leading_count(spec_dec_digits(n) + tail) == Some(n as int),
{
    let ds = spec_dec_digits(n);
    lemma_dec_digits_spell(n);
    lemma_dec_prefix_of_concat(ds, tail);
    assert((ds + tail).take(ds.len() as int) =~= ds);
}

fn dec_digit_str(d: u64) -> (r: &'static str)
    requires
        d < 10,
    ensures
        r@ =~= seq![dec_digit_char(d as int)],
{
    proof {
        reveal_strlit("0");
        reveal_strlit("1");
        reveal_strlit("2");
        reveal_strlit("3");
        reveal_strlit("4");
        reveal_strlit("5");
        reveal_strlit("6");
        reveal_strlit("7");
        reveal_strlit("8");
        reveal_strlit("9");
    }
    match d {
        0 => "0",
        1 => "1",
        2 => "2",
        3 => "3",
        4 => "4",
        5 => "5",
        6 => "6",
        7 => "7",
        8 => "8",
        _ => "9",
    }
}

/// Renders `n` in decimal.
pub fn u64_to_dec(n: u64) -> (r: String)
    ensures
        r@ == spec_dec_digits(n as nat),
    decreases n,
{
    if n < 10 {
        dec_digit_str(n).to_owned()
    } else {
        proof {
            assert(n / 10 < n) by (nonlinear_arith)
                requires
                    n >= 10,
            ;
        }
        let mut s = u64_to_dec(n / 10);
        s.append(dec_digit_str(n % 10));
        s
    }
}

/// A signed number rendered in decimal.
pub open spec fn spec_dec_signed(v: int) -> Seq<char> {
    if v < 0 {
        "-"@ + spec_dec_digits((-v) as nat)
    } else {
        spec_dec_digits(v as nat)
    }
}

/// Renders `v` in decimal, with a leading minus sign when negative.
pub fn i32_to_dec(v: i32) -> (r: String)
    ensures
        r@ == spec_dec_signed(v as int),
{
    let wide: i64 = v as i64;
    if wide < 0 {
        let mut s = "-".to_owned();
        let digits = u64_to_dec((-wide) as u64);
        s.append(digits.as_str());
        s
    } else {
        u64_to_dec(wide as u64)
    }
}

/// The needle stands contiguously somewhere in the hay.
pub open spec fn contains_block(hay: Seq<char>, needle: Seq<char>) -> bool {
    exists|off: int|
        0 <= off && off + needle.len() <= hay.len() && #[trigger] hay.subrange(
            off,
            off + needle.len() as int,
        ) == needle
}

/// A block standing in the left piece of a concatenation stands in the whole.
pub proof fn lemma_contains_block_extend_right(a: Seq<char>, b: Seq<char>, needle: Seq<char>)
    requires
        contains_block(a, needle),
    ensures
        contains_block(a + b, needle),
{
    let off = choose|off: int|
        0 <= off && off + needle.len() <= a.len() && #[trigger] a.subrange(
            off,
            off + needle.len() as int,
        ) == needle;
    assert((a + b).subrange(off, off + needle.len() as int) =~= a.subrange(
        off,
        off + needle.len() as int,
    ));
}

/// A block standing in the right piece of a concatenation stands in the
/// whole.
pub proof fn lemma_contains_block_extend_left(a: Seq<char>, b: Seq<char>, needle: Seq<char>)
    requires
        contains_block(b, needle),
    ensures
        contains_block(a + b, needle),
{
    let off = choose|off: int|
        0 <= off && off + needle.len() <= b.len() && #[trigger] b.subrange(
            off,
            off + needle.len() as int,
        ) == needle;
    assert((a + b).subrange(a.len() + off, a.len() + off + needle.len() as int) =~= b.subrange(
        off,
        off + needle.len() as int,
    ));
}

pub open spec fn hex_digit_char(d: int) -> char {
    if d < 10 {
        dec_digit_char(d)
    } else if d == 10 {
        'a'
    } else if d == 11 {
        'b'
    } else if d == 12 {
        'c'
    } else if d == 13 {
        'd'
    } else if d == 14 {
        'e'
    } else {
        'f'
    }
}

/// The hexadecimal digits of `n`, most significant first.
pub open spec fn spec_hex_digits(n: nat) -> Seq<char>
    decreases n,
{
    if n < 16 {
        seq![hex_digit_char(n as int)]
    } else {
        spec_hex_digits(n / 16).push(hex_digit_char((n % 16) as int))
    }
}

/// `n` rendered as a hexadecimal literal with the usual prefix.
pub open spec fn spec_hex_literal(n: nat) -> Seq<char> {
    "0x"@ + spec_hex_digits(n)
}

fn hex_digit_str(d: u32) -> (r: &'static str)
    requires
        d < 16,
    ensures
        r@ =~= seq![hex_digit_char(d as int)],
{
    if d < 10 {
        let s = dec_digit_str(d as u64);
        assert(s@ =~= seq![hex_digit_char(d as int)]);
        s
    } else {
        proof {
            reveal_strlit("a");
            reveal_strlit("b");
            reveal_strlit("c");
            reveal_strlit("d");
            reveal_strlit("e");
            reveal_strlit("f");
        }
        match d {
            10 => "a",
            11 => "b",
            12 => "c",
            13 => "d",
            14 => "e",
            _ => "f",
        }
    }
}

fn u32_to_hex_digits(n: u32) -> (r: String)
    ensures
        r@ == spec_hex_digits(n as nat),
    decreases n,
{
    if n < 16 {
        hex_digit_str(n).to_owned()
    } else {
        proof {
            assert(n / 16 < n) by (nonlinear_arith)
                requires
                    n >= 16,
            ;
        }
        let mut s = u32_to_hex_digits(n / 16);
        s.append(hex_digit_str(n % 16));
        s
    }
}

/// Renders `n` as a hexadecimal literal with the usual prefix.
pub fn u32_to_hex(n: u32) -> (r: String)
    ensures
        r@ == spec_hex_literal(n as nat),
{
    let mut s = "0x".to_owned();
    let digits = u32_to_hex_digits(n);
    s.append(digits.as_str());
    s
}

} // verus!
