//! Character sequences: equality of string slices and occurrences of one
//! text inside another.
use vstd::prelude::*;
use vstd::string::*;
use vstd::utf8::*;

verus! {

/// `needle` occurs in `text` as a contiguous run of characters.
pub open spec fn occurs_in(needle: Seq<char>, text: Seq<char>) -> bool {
    exists|i: int|
        0 <= i && i + needle.len() <= text.len() && #[trigger] text.subrange(
            i,
            i + needle.len(),
        ) == needle
}

/// The lowercase of a text, as `str::to_lowercase` gives it.
pub uninterp spec fn lowercased(text: Seq<char>) -> Seq<char>;

/// Calls `str::to_lowercase`, which maps each character by the Unicode
/// tables that the standard library carries, whatever the locale. Believed:
/// the result is the text that `lowercased` names.
#[verifier::external_body]
pub(crate) fn lowercase(text: &str) -> (r: String)
    ensures
        r@ == lowercased(text@),
{
    text.to_lowercase()
}

/// Two string slices hold the same characters.
pub fn str_equal(a: &str, b: &str) -> (r: bool)
    ensures
        r == (a@ == b@),
{
    let x = a.as_bytes();
    let y = b.as_bytes();
    proof {
        encode_utf8_decode_utf8(a@);
        encode_utf8_decode_utf8(b@);
    }
    if x.len() != y.len() {
        return false;
    }
    let mut i: usize = 0;
    while i < x.len()
        invariant
            i <= x.len(),
            x.len() == y.len(),
            x@ == a.spec_bytes(),
            y@ == b.spec_bytes(),
            forall|k: int| 0 <= k < i ==> x@[k] == y@[k],
        decreases x.len() - i,
    {
        if x[i] != y[i] {
            return false;
        }
        i += 1;
    }
    assert(x@ =~= y@);
    true
}

/// The numeral of one decimal digit.
pub open spec fn digit(value: nat) -> Seq<char>
    recommends
        value < 10,
{
    if value == 0 {
        "0"@
    } else if value == 1 {
        "1"@
    } else if value == 2 {
        "2"@
    } else if value == 3 {
        "3"@
    } else if value == 4 {
        "4"@
    } else if value == 5 {
        "5"@
    } else if value == 6 {
        "6"@
    } else if value == 7 {
        "7"@
    } else if value == 8 {
        "8"@
    } else {
        "9"@
    }
}

/// The decimal numeral of a natural number, without leading zeros.
pub open spec fn decimal(value: nat) -> Seq<char>
    decreases value,
{
    if value < 10 {
        digit(value)
    } else {
        decimal(value / 10) + digit(value % 10)
    }
}

fn digit_text(value: usize) -> (r: &'static str)
    requires
        value < 10,
    ensures
        r@ == digit(value as nat),
{
    if value == 0 {
        "0"
    } else if value == 1 {
        "1"
    } else if value == 2 {
        "2"
    } else if value == 3 {
        "3"
    } else if value == 4 {
        "4"
    } else if value == 5 {
        "5"
    } else if value == 6 {
        "6"
    } else if value == 7 {
        "7"
    } else if value == 8 {
        "8"
    } else {
        "9"
    }
}

/// Appends the decimal numeral of `value` to `out`.
pub fn push_decimal(out: &mut String, value: usize)
    ensures
        final(out)@ == old(out)@ + decimal(value as nat),
    decreases value,
{
    if value >= 10 {
        push_decimal(out, value / 10);
    }
    out.append(digit_text(value % 10));
    assert(out@ =~= old(out)@ + decimal(value as nat));
}

/// A text in which no position holds the first character of `needle` holds
/// no occurrence of it.
pub proof fn lemma_absent_by_first(needle: Seq<char>, text: Seq<char>)
    requires
        needle.len() >= 1,
        forall|i: int| 0 <= i < text.len() ==> #[trigger] text[i] != needle[0],
    ensures
        !occurs_in(needle, text),
{
    if occurs_in(needle, text) {
        let i = choose|i: int|
            0 <= i && i + needle.len() <= text.len() && #[trigger] text.subrange(
                i,
                i + needle.len(),
            ) == needle;
        assert(text.subrange(i, i + needle.len())[0] == text[i]);
    }
}

/// A text in which no position starts the first three characters of `needle`
/// holds no occurrence of it.
pub proof fn lemma_absent_by_first_three(needle: Seq<char>, text: Seq<char>)
    requires
        needle.len() >= 3,
        forall|i: int|
            0 <= i && i + 2 < text.len() ==> !(#[trigger] text[i] == needle[0] && text[i + 1]
                == needle[1] && text[i + 2] == needle[2]),
    ensures
        !occurs_in(needle, text),
{
    if occurs_in(needle, text) {
        let i = choose|i: int|
            0 <= i && i + needle.len() <= text.len() && #[trigger] text.subrange(
                i,
                i + needle.len(),
            ) == needle;
        let run = text.subrange(i, i + needle.len());
        assert(run[0] == text[i]);
        assert(run[1] == text[i + 1]);
        assert(run[2] == text[i + 2]);
    }
}

/// What occurs in a part occurs in the whole.
pub proof fn lemma_occurs_in_parts(needle: Seq<char>, a: Seq<char>, b: Seq<char>)
    ensures
        occurs_in(needle, a) || occurs_in(needle, b) ==> occurs_in(needle, a + b),
{
    let n = needle.len() as int;
    let ab = a + b;
    if occurs_in(needle, a) {
        let i = choose|i: int|
            0 <= i && i + needle.len() <= a.len() && #[trigger] a.subrange(i, i + needle.len())
                == needle;
        assert(ab.subrange(i, i + n) =~= a.subrange(i, i + n));
    }
    if occurs_in(needle, b) {
        let i = choose|i: int|
            0 <= i && i + needle.len() <= b.len() && #[trigger] b.subrange(i, i + needle.len())
                == needle;
        assert(ab.subrange(a.len() + i, a.len() + i + n) =~= b.subrange(i, i + n));
    }
}

/// An occurrence inside `a + b` lies within `a` or within `b`, provided the
/// seam between them shows a character that `needle` does not have: the last
/// of `a`, or the first of `b`.
pub proof fn lemma_occurs_in_concat(needle: Seq<char>, a: Seq<char>, b: Seq<char>)
    requires
        needle.len() >= 1,
        (a.len() > 0 && !needle.contains(a.last())) || (b.len() > 0 && !needle.contains(
            b.first(),
        )),
    ensures
        occurs_in(needle, a + b) <==> occurs_in(needle, a) || occurs_in(needle, b),
{
    let n = needle.len() as int;
    let ab = a + b;
    lemma_occurs_in_parts(needle, a, b);
    if occurs_in(needle, ab) {
        let i = choose|i: int|
            0 <= i && i + needle.len() <= ab.len() && #[trigger] ab.subrange(i, i + needle.len())
                == needle;
        let run = ab.subrange(i, i + n);
        if i + n <= a.len() {
            assert(a.subrange(i, i + n) =~= run);
        } else if i >= a.len() {
            assert(b.subrange(i - a.len(), i - a.len() + n) =~= run);
        } else {
            if a.len() > 0 && !needle.contains(a.last()) {
                assert(run[a.len() - 1 - i] == a.last());
                assert(needle[a.len() - 1 - i] == a.last());
            } else {
                assert(run[a.len() - i] == b.first());
                assert(needle[a.len() - i] == b.first());
            }
        }
    }
}

} // verus!
