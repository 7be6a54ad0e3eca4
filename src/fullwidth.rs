//! Full-width rendering of a price text, for display in channel names.

use vstd::prelude::*;

verus! {

/// Whether `c` is one of the characters that get a full-width form: an ASCII
/// digit or the decimal point.
pub open spec fn is_widened(c: char) -> bool {
    ('0' <= c && c <= '9') || c == '.'
}

/// The full-width form of an ASCII digit or of the decimal point; every other
/// character is kept as it is.
pub open spec fn wide_char(c: char) -> char {
    match c {
        '0' => '０',
        '1' => '１',
        '2' => '２',
        '3' => '３',
        '4' => '４',
        '5' => '５',
        '6' => '６',
        '7' => '７',
        '8' => '８',
        '9' => '９',
        '.' => '．',
        _ => c,
    }
}

/// The ASCII form of a full-width digit or full-width point; every other
/// character is kept as it is.
pub open spec fn narrow_char(c: char) -> char {
    match c {
        '０' => '0',
        '１' => '1',
        '２' => '2',
        '３' => '3',
        '４' => '4',
        '５' => '5',
        '６' => '6',
        '７' => '7',
        '８' => '8',
        '９' => '9',
        '．' => '.',
        _ => c,
    }
}

/// A text with each digit and decimal point in full width.
pub open spec fn widen(s: Seq<char>) -> Seq<char> {
    s.map_values(|c: char| wide_char(c))
}

/// A text with each full-width digit and point brought back to ASCII.
pub open spec fn narrow(s: Seq<char>) -> Seq<char> {
    s.map_values(|c: char| narrow_char(c))
}

/// Whether every character of `s` is ASCII, as a two-decimal rendering of a
/// number always is.
pub open spec fn all_ascii(s: Seq<char>) -> bool {
    forall|i: int| 0 <= i < s.len() ==> (#[trigger] s[i]) <= '\x7f'
}

/// Relies on `String::push`: the character is added at the end.
#[verifier::external_body]
fn push_char(s: &mut String, c: char)
    ensures
        final(s)@ == old(s)@.push(c),
{
    s.push(c);
}

/// The full-width form of one character.
pub fn wide_char_of(c: char) -> (r: char)
    ensures
        r == wide_char(c),
{
    match c {
        '0' => '０',
        '1' => '１',
        '2' => '２',
        '3' => '３',
        '4' => '４',
        '5' => '５',
        '6' => '６',
        '7' => '７',
        '8' => '８',
        '9' => '９',
        '.' => '．',
        _ => c,
    }
}

/// Renders a price text (the two-decimal form of the price) for a channel
/// name: each digit and the decimal point become full width, anything else
/// (a sign, say) stays.
pub fn format_price_fullwidth(price_text: &str) -> (r: String)
    ensures
        r@ == widen(price_text@),
{
    let n = price_text.unicode_len();
    let mut out = String::new();
    let mut i: usize = 0;
    while i < n
        invariant
            n == price_text@.len(),
            i <= n,
            out@ == widen(price_text@.subrange(0, i as int)),
        decreases n - i,
    {
        let c = price_text.get_char(i);
        push_char(&mut out, wide_char_of(c));
        proof {
            assert(price_text@.subrange(0, i + 1) =~= price_text@.subrange(0, i as int).push(c));
            assert(widen(price_text@.subrange(0, i + 1)) =~= widen(
                price_text@.subrange(0, i as int),
            ).push(wide_char(c)));
        }
        i = i + 1;
    }
    proof {
        assert(price_text@.subrange(0, n as int) =~= price_text@);
    }
    out
}

/// Widening keeps the length, changes only digits and the decimal point, each
/// to its full-width form, and on an ASCII text (such as the two-decimal
/// rendering of any price) narrowing the result gives the text back.
pub proof fn lemma_fullwidth_round_trip(s: Seq<char>)
    requires
        all_ascii(s),
    ensures
        widen(s).len() == s.len(),
        forall|i: int|
            0 <= i < s.len() ==> (#[trigger] widen(s)[i] == s[i] && !is_widened(s[i])) || (
            widen(s)[i] == wide_char(s[i]) && is_widened(s[i])),
        narrow(widen(s)) == s,
{
    assert forall|i: int| 0 <= i < s.len() implies narrow_char(wide_char(#[trigger] s[i])) == s[i] by {
        let c = s[i];
        assert(c <= '\x7f');
    }
    assert(narrow(widen(s)) =~= s);
}

} // verus!
