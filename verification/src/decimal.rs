//! Unsigned decimal numbers as ASCII digits: writing, reading, and the proof
//! that reading gives back what was written.

use vstd::prelude::*;
use vstd::string::StringExecFns;

verus! {

/// The ASCII code of the digit `0`.
pub const ZERO: u8 = 48;

/// `b` is one of the ASCII digits `0` to `9`.
pub open spec fn is_digit(b: u8) -> bool {
    48 <= b <= 57
}

/// Every byte of `s` is an ASCII digit.
pub open spec fn all_digits(s: Seq<u8>) -> bool {
    forall|i: int| 0 <= i < s.len() ==> is_digit(#[trigger] s[i])
}

/// The shortest decimal writing of `n`, most significant digit first.
pub open spec fn decimal_digits(n: nat) -> Seq<u8>
    decreases n,
{
    if n < 10 {
        seq![(48 + n) as u8]
    } else {
        decimal_digits(n / 10).push((48 + n % 10) as u8)
    }
}

/// The number that a run of digits writes; zero for the empty run.
pub open spec fn decimal_value(s: Seq<u8>) -> nat
    decreases s.len(),
{
    if s.len() == 0 {
        0
    } else {
        decimal_value(s.drop_last()) * 10 + (s.last() - 48) as nat
    }
}

/// What a field of a text record reads as: a non-empty run of digits whose
/// value fits in 32 bits, and nothing else.
pub open spec fn parse_number(s: Seq<u8>) -> Option<u32> {
    if s.len() > 0 && all_digits(s) && decimal_value(s) <= u32::MAX {
        Some(decimal_value(s) as u32)
    } else {
        None
    }
}

/// A number's decimal writing is a non-empty run of digits.
pub proof fn lemma_decimal_digits_are_digits(n: nat)
    ensures
        decimal_digits(n).len() > 0,
        all_digits(decimal_digits(n)),
    decreases n,
{
    if n >= 10 {
        lemma_decimal_digits_are_digits(n / 10);
    }
}

/// Reading a number's decimal writing gives the number back.
pub proof fn lemma_decimal_round_trip(n: nat)
    ensures
        decimal_value(decimal_digits(n)) == n,
    decreases n,
{
    if n < 10 {
        let s = decimal_digits(n);
        assert(s.drop_last().len() == 0);
        assert(decimal_value(s.drop_last()) == 0);
    } else {
        lemma_decimal_round_trip(n / 10);
        let head = decimal_digits(n / 10);
        let s = head.push((48 + n % 10) as u8);
        assert(s.drop_last() == head);
    }
}

/// Appending a digit multiplies the value by ten and adds the digit.
pub proof fn lemma_decimal_value_push(s: Seq<u8>, b: u8)
    ensures
        decimal_value(s.push(b)) == decimal_value(s) * 10 + (b - 48) as nat,
{
    assert(s.push(b).drop_last() == s);
}

/// Writes `n` in decimal.
pub fn format_decimal(n: u64) -> (out: Vec<u8>)
    ensures
        out@ == decimal_digits(n as nat),
    decreases n,
{
    if n < 10 {
        let mut out: Vec<u8> = Vec::new();
        out.push(ZERO + n as u8);
        assert(out@ == seq![(48 + n) as u8]);
        out
    } else {
        let mut out = format_decimal(n / 10);
        out.push(ZERO + (n % 10) as u8);
        out
    }
}

/// Reads `bytes[from..to]` as a decimal number.
pub fn parse_decimal(bytes: &Vec<u8>, from: usize, to: usize) -> (out: Option<u32>)
    requires
        from <= to <= bytes.len(),
    ensures
        out == parse_number(bytes@.subrange(from as int, to as int)),
{
    let ghost field = bytes@.subrange(from as int, to as int);
    if from == to {
        return None;
    }
    let mut acc: u32 = 0;
    let mut overflow = false;
    let mut i: usize = from;
    while i < to
        invariant
            from <= i <= to <= bytes.len(),
            field == bytes@.subrange(from as int, to as int),
            all_digits(field.subrange(0, i - from)),
            !overflow ==> acc == decimal_value(field.subrange(0, i - from)),
            overflow ==> decimal_value(field.subrange(0, i - from)) > u32::MAX,
        decreases to - i,
    {
        let b = bytes[i];
        let ghost before = field.subrange(0, i - from);
        if b < 48 || b > 57 {
            assert(!is_digit(field[i - from]));
            return None;
        }
        let d: u32 = (b - ZERO) as u32;
        proof {
            assert(field.subrange(0, i - from + 1) == before.push(b));
            lemma_decimal_value_push(before, b);
        }
        if !overflow {
            if acc > (u32::MAX - d) / 10 {
                overflow = true;
            } else {
                acc = acc * 10 + d;
            }
        }
        i += 1;
    }
    assert(field.subrange(0, to - from) == field);
    if overflow {
        None
    } else {
        Some(acc)
    }
}

/// The digits of `n` as characters.
pub open spec fn decimal_text(n: nat) -> Seq<char> {
    decimal_digits(n).map_values(|b: u8| b as char)
}

/// Appends the decimal writing of `n` to a text.
pub fn push_decimal(text: &mut String, n: u64)
    ensures
        final(text)@ == old(text)@ + decimal_text(n as nat),
{
    let digits = format_decimal(n);
    let ghost start = text@;
    let mut i: usize = 0;
    assert(decimal_text(n as nat).take(0) == Seq::<char>::empty());
    assert(start + Seq::<char>::empty() == start);
    while i < digits.len()
        invariant
            i <= digits.len(),
            digits@ == decimal_digits(n as nat),
            text@ == start + decimal_text(n as nat).take(i as int),
        decreases digits.len() - i,
    {
        let mut one: Vec<char> = Vec::new();
        one.push(digits[i] as char);
        let piece = crate::text::string_of(&one);
        text.append(piece.as_str());
        proof {
            let all = decimal_text(n as nat);
            assert(all.take(i + 1) == all.take(i as int) + seq![all[i as int]]);
            assert(one@ == seq![all[i as int]]);
        }
        i += 1;
    }
    assert(decimal_text(n as nat).take(digits.len() as int) == decimal_text(n as nat));
}

} // verus!
