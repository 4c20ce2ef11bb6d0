//! The sidecar record: the text `width,height` beside each cached image.
//!
//! The record saves a decode when only the size of an image is wanted, and it
//! is what makes a cached image valid: an image file without a readable
//! record beside it counts as absent.

use vstd::prelude::*;
use crate::decimal::{
    decimal_digits, format_decimal, is_digit, lemma_decimal_digits_are_digits,
    lemma_decimal_round_trip, parse_decimal, parse_number,
};

verus! {

/// The ASCII code of the comma that separates width and height.
pub const COMMA: u8 = 44;

/// The record written for an image of `width` by `height` pixels.
pub open spec fn sidecar_text(width: u32, height: u32) -> Seq<u8> {
    decimal_digits(width as nat).push(44u8) + decimal_digits(height as nat)
}

/// `k` is the place of the first comma in `s`.
pub open spec fn is_first_comma(s: Seq<u8>, k: int) -> bool {
    &&& 0 <= k < s.len()
    &&& s[k] == 44
    &&& forall|j: int| 0 <= j < k ==> s[j] != 44
}

/// What a record reads as: the two numbers on either side of its first comma,
/// if both are there and nothing else is.
pub open spec fn parse_sidecar(s: Seq<u8>) -> Option<(u32, u32)> {
    if exists|k: int| is_first_comma(s, k) {
        let k = choose|k: int| is_first_comma(s, k);
        match (parse_number(s.subrange(0, k)), parse_number(s.subrange(k + 1, s.len() as int))) {
            (Some(width), Some(height)) => Some((width, height)),
            _ => None,
        }
    } else {
        None
    }
}

/// A bytes string has at most one first comma.
proof fn lemma_first_comma_unique(s: Seq<u8>, k1: int, k2: int)
    requires
        is_first_comma(s, k1),
        is_first_comma(s, k2),
    ensures
        k1 == k2,
{
    if k1 < k2 {
        assert(s[k1] != 44);
    } else if k2 < k1 {
        assert(s[k2] != 44);
    }
}

/// A record that was written reads back as the size it was written for.
pub proof fn lemma_sidecar_round_trip(width: u32, height: u32)
    ensures
        parse_sidecar(sidecar_text(width, height)) == Some((width, height)),
{
    let left = decimal_digits(width as nat);
    let right = decimal_digits(height as nat);
    let s = sidecar_text(width, height);
    let k = left.len() as int;
    lemma_decimal_digits_are_digits(width as nat);
    lemma_decimal_digits_are_digits(height as nat);
    lemma_decimal_round_trip(width as nat);
    lemma_decimal_round_trip(height as nat);
    assert(s[k] == 44);
    assert forall|j: int| 0 <= j < k implies s[j] != 44 by {
        assert(s[j] == left[j]);
        assert(is_digit(left[j]));
    }
    assert(is_first_comma(s, k));
    let chosen = choose|k: int| is_first_comma(s, k);
    lemma_first_comma_unique(s, k, chosen);
    assert(s.subrange(0, k) == left);
    assert(s.subrange(k + 1, s.len() as int) == right);
}

/// Writes the record for an image of `width` by `height` pixels.
pub fn format_sidecar(width: u32, height: u32) -> (out: Vec<u8>)
    ensures
        out@ == sidecar_text(width, height),
{
    let mut out = format_decimal(width as u64);
    out.push(COMMA);
    let mut tail = format_decimal(height as u64);
    out.append(&mut tail);
    out
}

/// Reads a record. Anything that is not exactly `width,height` reads as
/// nothing.
pub fn read_sidecar(bytes: &Vec<u8>) -> (out: Option<(u32, u32)>)
    ensures
        out == parse_sidecar(bytes@),
{
    let n = bytes.len();
    let mut k: usize = 0;
    while k < n && bytes[k] != COMMA
        invariant
            n == bytes.len(),
            k <= n,
            forall|j: int| 0 <= j < k ==> bytes@[j] != 44,
        decreases n - k,
    {
        k += 1;
    }
    if k == n {
        assert forall|j: int| !is_first_comma(bytes@, j) by {}
        return None;
    }
    proof {
        assert(is_first_comma(bytes@, k as int));
        let chosen = choose|j: int| is_first_comma(bytes@, j);
        lemma_first_comma_unique(bytes@, k as int, chosen);
    }
    let width = parse_decimal(bytes, 0, k);
    let height = parse_decimal(bytes, k + 1, n);
    match (width, height) {
        (Some(w), Some(h)) => Some((w, h)),
        _ => None,
    }
}

} // verus!
