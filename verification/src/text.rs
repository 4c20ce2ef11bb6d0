//! Small verified helpers on strings, characters and decimal digits.

use vstd::prelude::*;

verus! {

/// `prefix` is an initial segment of `s`.
pub open spec fn is_prefix<T>(prefix: Seq<T>, s: Seq<T>) -> bool {
    prefix.len() <= s.len() && s.subrange(0, prefix.len() as int) == prefix
}

/// `suffix` is a final segment of `s`.
pub open spec fn is_suffix<T>(suffix: Seq<T>, s: Seq<T>) -> bool {
    suffix.len() <= s.len() && s.subrange(s.len() - suffix.len(), s.len() as int) == suffix
}

/// `String::push` appends one character to the string and leaves what was
/// there before in place.
#[verifier::external_body]
fn push_char(s: &mut String, c: char)
    ensures
        final(s)@ == old(s)@.push(c),
{
    s.push(c)
}

/// The lower-case form of a text, as `str::to_lowercase` gives it.
pub uninterp spec fn lowercase(s: Seq<char>) -> Seq<char>;

/// `str::to_lowercase`: the text with every character replaced by its
/// lower-case form, by the rules of Unicode. The rules are fixed, so the
/// result is given a name, [`lowercase`]; what it is is not stated.
#[verifier::external_body]
pub(crate) fn to_lowercase(s: &str) -> (out: String)
    ensures
        out@ == lowercase(s@),
{
    s.to_lowercase()
}

/// `piece` is a part of `whole` in one piece.
pub open spec fn is_piece_of<T>(piece: Seq<T>, whole: Seq<T>) -> bool {
    exists|from: int, to: int|
        0 <= from <= to <= whole.len() && piece == #[trigger] whole.subrange(from, to)
}

/// The text without the white space at its ends, as `str::trim` gives it.
pub uninterp spec fn trimmed(s: Seq<char>) -> Seq<char>;

/// `str::trim`: the text without leading and trailing white space, by the
/// rules of Unicode. The rules are fixed, so the result is given a name,
/// [`trimmed`]; of what it is only this is stated, that it is a part of the
/// text in one piece.
#[verifier::external_body]
pub(crate) fn trim(s: &str) -> (out: String)
    ensures
        out@ == trimmed(s@),
        is_piece_of(out@, s@),
{
    s.trim().to_owned()
}

/// The upper-case form of a text, as `str::to_uppercase` gives it.
pub uninterp spec fn uppercase(s: Seq<char>) -> Seq<char>;

/// `str::to_uppercase`: the text with every character replaced by its
/// upper-case form, by the rules of Unicode. The rules are fixed, so the
/// result is given a name, [`uppercase`]; what it is is not stated.
#[verifier::external_body]
pub(crate) fn to_uppercase(s: &str) -> (out: String)
    ensures
        out@ == uppercase(s@),
{
    s.to_uppercase()
}

/// The characters of a string, as a vector.
pub fn chars_of(s: &str) -> (out: Vec<char>)
    ensures
        out@ == s@,
{
    broadcast use vstd::string::group_string_axioms;

    let mut out: Vec<char> = Vec::new();
    for c in it: s.chars()
        invariant
            it.seq() == s@,
            out@ == s@.take(it.index() as int),
    {
        out.push(c);
        assert(s@.take(it.index() + 1) == s@.take(it.index() as int).push(c));
    }
    assert(s@.take(s@.len() as int) == s@);
    out
}

/// The string made of the given characters.
pub fn string_of(chars: &Vec<char>) -> (out: String)
    ensures
        out@ == chars@,
{
    let mut out = String::new();
    let mut i: usize = 0;
    while i < chars.len()
        invariant
            i <= chars.len(),
            out@ == chars@.subrange(0, i as int),
        decreases chars.len() - i,
    {
        push_char(&mut out, chars[i]);
        i += 1;
        assert(out@ == chars@.subrange(0, i as int));
    }
    assert(chars@.subrange(0, chars.len() as int) == chars@);
    out
}

/// Whether `a[from..]` begins with `b`.
fn slice_matches_at(a: &Vec<char>, from: usize, b: &Vec<char>) -> (r: bool)
    requires
        from <= a.len(),
    ensures
        r == is_prefix(b@, a@.subrange(from as int, a.len() as int)),
{
    if b.len() > a.len() - from {
        return false;
    }
    let ghost tail = a@.subrange(from as int, a.len() as int);
    let mut i: usize = 0;
    while i < b.len()
        invariant
            from <= a.len(),
            b.len() <= a.len() - from,
            i <= b.len(),
            tail == a@.subrange(from as int, a.len() as int),
            tail.subrange(0, i as int) == b@.subrange(0, i as int),
        decreases b.len() - i,
    {
        if a[from + i] != b[i] {
            proof {
                if is_prefix(b@, tail) {
                    assert(tail.subrange(0, b.len() as int)[i as int] == b@[i as int]);
                }
            }
            return false;
        }
        i += 1;
        assert(tail.subrange(0, i as int) == b@.subrange(0, i as int)) by {
            assert(tail.subrange(0, i as int) == tail.subrange(0, i - 1).push(tail[i - 1]));
            assert(b@.subrange(0, i as int) == b@.subrange(0, i - 1).push(b@[i - 1]));
        }
    }
    assert(b@.subrange(0, b.len() as int) == b@);
    true
}

/// Whether `s` begins with `prefix`.
pub fn starts_with(s: &str, prefix: &str) -> (r: bool)
    ensures
        r == is_prefix(prefix@, s@),
{
    let a = chars_of(s);
    let b = chars_of(prefix);
    let r = slice_matches_at(&a, 0, &b);
    assert(a@.subrange(0, a.len() as int) == a@);
    r
}

/// Whether `s` ends with `suffix`.
pub fn ends_with(s: &str, suffix: &str) -> (r: bool)
    ensures
        r == is_suffix(suffix@, s@),
{
    let a = chars_of(s);
    let b = chars_of(suffix);
    if b.len() > a.len() {
        return false;
    }
    let from = a.len() - b.len();
    let r = slice_matches_at(&a, from, &b);
    proof {
        let tail = a@.subrange(from as int, a.len() as int);
        assert(tail.len() == b.len());
        assert(tail.subrange(0, b.len() as int) == tail);
    }
    r
}

/// Whether two strings hold the same characters.
pub fn same_text(a: &str, b: &str) -> (r: bool)
    ensures
        r == (a@ == b@),
{
    let x = chars_of(a);
    let y = chars_of(b);
    if x.len() != y.len() {
        return false;
    }
    let r = slice_matches_at(&x, 0, &y);
    proof {
        assert(x@.subrange(0, x.len() as int) == x@);
        assert(y@.subrange(0, y.len() as int) == y@);
        if r {
            assert(x@.subrange(0, y.len() as int) == y@);
        }
    }
    r
}

/// The concatenation of two strings.
pub fn concat2(a: &str, b: &str) -> (out: String)
    ensures
        out@ == a@ + b@,
{
    let mut out = a.to_owned();
    out.append(b);
    out
}

/// The concatenation of three strings.
pub fn concat3(a: &str, b: &str, c: &str) -> (out: String)
    ensures
        out@ == a@ + b@ + c@,
{
    let mut out = a.to_owned();
    out.append(b);
    out.append(c);
    out
}

/// The number of line feeds in a text.
pub open spec fn line_feeds(s: Seq<char>) -> nat
    decreases s.len(),
{
    if s.len() == 0 {
        0
    } else {
        line_feeds(s.drop_last()) + if s.last() == '\n' {
            1nat
        } else {
            0nat
        }
    }
}

/// The number of lines of a text: one for each line feed, and one more for
/// what follows the last line feed, if anything does.
pub open spec fn lines_of(s: Seq<char>) -> nat {
    if s.len() > 0 && s.last() != '\n' {
        line_feeds(s) + 1
    } else {
        line_feeds(s)
    }
}

/// The number of lines of a text.
pub fn line_count(s: &str) -> (count: usize)
    ensures
        count == lines_of(s@),
{
    let chars = chars_of(s);
    let mut feeds: usize = 0;
    let mut i: usize = 0;
    while i < chars.len()
        invariant
            i <= chars.len(),
            feeds == line_feeds(chars@.take(i as int)),
            feeds <= i,
            i > 0 && chars@[i - 1] != '\n' ==> feeds < i,
        decreases chars.len() - i,
    {
        proof {
            assert(chars@.take(i + 1).drop_last() == chars@.take(i as int));
            assert(chars@.take(i + 1).last() == chars@[i as int]);
        }
        if chars[i] == '\n' {
            feeds += 1;
        }
        i += 1;
    }
    assert(chars@.take(chars.len() as int) == chars@);
    if chars.len() > 0 && chars[chars.len() - 1] != '\n' {
        feeds + 1
    } else {
        feeds
    }
}

} // verus!
