//! What holds of the text helpers for every text.

use vstd::prelude::*;

use crate::text;

verus! {

/// Nothing joins to nothing, one part to itself, and two lists of parts to what they join to, with
/// one separator in between.
pub proof fn law_joining(a: Seq<Seq<char>>, b: Seq<Seq<char>>, part: Seq<char>, sep: Seq<char>)
    ensures
        text::joined(Seq::empty(), sep) == Seq::<char>::empty(),
        text::joined(seq![part], sep) == part,
        a.len() > 0 && b.len() > 0 ==> text::joined(a + b, sep) == text::joined(a, sep) + sep
            + text::joined(b, sep),
    decreases b.len(),
{
    if a.len() > 0 && b.len() > 0 {
        assert((a + b).drop_last() =~= a + b.drop_last());
        assert((a + b).last() == b.last());
        if b.len() == 1 {
            assert(a + b.drop_last() =~= a);
        } else {
            law_joining(a, b.drop_last(), part, sep);
            assert(text::joined(a + b, sep) =~= text::joined(a, sep) + sep + text::joined(b, sep));
        }
    }
}

/// A text has another if and only if it is that other with something in front and behind.
pub proof fn law_searching(s: Seq<char>, needle: Seq<char>)
    ensures
        text::has_text(s, needle) <==> exists|a: Seq<char>, c: Seq<char>|
            s == #[trigger] (a + needle + c),
{
    if text::has_text(s, needle) {
        let at = choose|at: int| text::occurs_at(s, needle, at);
        let a = s.take(at);
        let c = s.skip(at + needle.len());
        assert(s =~= a + s.subrange(at, at + needle.len()) + c);
        assert(s == a + needle + c);
    }
    if exists|a: Seq<char>, c: Seq<char>| s == #[trigger] (a + needle + c) {
        let (a, c) = choose|a: Seq<char>, c: Seq<char>| s == #[trigger] (a + needle + c);
        text::lemma_has_text_itself(needle);
        text::lemma_has_text_between(a, needle, c, needle);
    }
}

/// A number below ten is written as its digit; any other as its tenth, followed by its last digit.
pub proof fn law_decimals(n: nat, d: nat)
    requires
        d < 10,
    ensures
        text::decimal_text(d) == seq![
            seq!['0', '1', '2', '3', '4', '5', '6', '7', '8', '9'][d as int],
        ],
        n > 0 ==> text::decimal_text(10 * n + d) == text::decimal_text(n) + text::decimal_text(d),
{
    if n > 0 {
        assert((10 * n + d) / 10 == n);
        assert((10 * n + d) % 10 == d);
        assert(text::decimal_text(10 * n + d) =~= text::decimal_text(n) + text::decimal_text(d));
    }
}

/// One more digit behind digits makes ten times their number and that digit more.
pub proof fn law_digits(s: Seq<char>, d: nat)
    requires
        d < 10,
    ensures
        text::digits_value(Seq::empty()) == 0,
        text::digits_value(s + text::decimal_text(d)) == 10 * text::digits_value(s) + d,
{
    let longer = s + text::decimal_text(d);
    law_decimals(0, d);
    assert(longer.drop_last() =~= s);
    assert(longer.last() == text::digit_char(d));
}

/// An index is read from digits, however many, that denote no more than the largest index, with or
/// without a `+` in front; from nothing else.
pub proof fn law_reading_indices(digits: Seq<char>)
    requires
        digits.len() > 0,
        forall|i: int| 0 <= i < digits.len() ==> '0' <= #[trigger] digits[i] <= '9',
    ensures
        text::digits_value(digits) <= usize::MAX ==> {
            &&& text::index_of_text(digits) == Some(text::digits_value(digits) as usize)
            &&& text::index_of_text("+"@ + digits) == Some(text::digits_value(digits) as usize)
        },
        text::digits_value(digits) > usize::MAX ==> text::index_of_text(digits) is None
            && text::index_of_text("+"@ + digits) is None,
{
    reveal_strlit("+");
    assert(text::is_digit(digits[0]));
    assert(digits[0] != '+');
    let signed = "+"@ + digits;
    assert(signed.skip(1) =~= digits);
    assert(signed[0] == '+');
    assert forall|i: int| 0 <= i < digits.len() implies text::is_digit(#[trigger] digits[i]) by {}
}

/// No index is read from a text that holds anything but digits behind an optional `+`.
pub proof fn law_other_texts_are_no_indices(s: Seq<char>, i: int)
    requires
        s.len() == 0 || (s.len() == 1 && s[0] == '+') || (0 <= i < s.len() && !('0' <= s[i] <= '9')
            && !(i == 0 && s[i] == '+')),
    ensures
        text::index_of_text(s) is None,
{
    if s.len() > 0 && s[0] == '+' {
        let digits = s.skip(1);
        if s.len() > 1 {
            assert(digits[i - 1] == s[i]);
            assert(!text::is_digit(digits[i - 1]));
        }
    } else if s.len() > 0 {
        assert(!text::is_digit(s[i]));
    }
}

/// A padded text is the text, and then spaces up to the width; a longer text stays as it is.
pub proof fn law_padding(s: Seq<char>, width: nat)
    ensures
        s.is_prefix_of(text::padded(s, width)),
        s.len() >= width ==> text::padded(s, width) == s,
        s.len() < width ==> text::padded(s, width).len() == width,
        forall|i: int|
            s.len() <= i < text::padded(s, width).len() ==> #[trigger] text::padded(s, width)[i]
                == ' ',
{
    assert(s.len() >= width ==> text::padded(s, width) =~= s);
}

/// Whether all of `s` is white space.
pub open spec fn all_space(s: Seq<char>) -> bool {
    forall|i: int| 0 <= i < s.len() ==> text::is_space(#[trigger] s[i])
}

proof fn lemma_trimmed_start(s: Seq<char>) -> (front: Seq<char>)
    ensures
        s == front + text::trimmed_start(s),
        all_space(front),
        text::trimmed_start(s).len() > 0 ==> !text::is_space(text::trimmed_start(s)[0]),
    decreases s.len(),
{
    if s.len() > 0 && text::is_space(s[0]) {
        let rest = lemma_trimmed_start(s.skip(1));
        let front = seq![s[0]] + rest;
        assert(s =~= seq![s[0]] + s.skip(1));
        assert(s =~= front + text::trimmed_start(s));
        front
    } else {
        assert(s =~= Seq::<char>::empty() + s);
        Seq::empty()
    }
}

proof fn lemma_trimmed_end(s: Seq<char>) -> (back: Seq<char>)
    ensures
        s == text::trimmed_end(s) + back,
        all_space(back),
        text::trimmed_end(s).len() > 0 ==> !text::is_space(text::trimmed_end(s).last()),
        text::trimmed_end(s).len() > 0 ==> text::trimmed_end(s)[0] == s[0],
    decreases s.len(),
{
    if s.len() > 0 && text::is_space(s.last()) {
        let rest = lemma_trimmed_end(s.drop_last());
        let back = rest.push(s.last());
        assert(s =~= s.drop_last().push(s.last()));
        assert(s =~= text::trimmed_end(s) + back);
        back
    } else {
        assert(s =~= s + Seq::<char>::empty());
        Seq::empty()
    }
}

/// Trimming takes white space away at both ends, nothing else, and leaves none there.
pub proof fn law_trimming(s: Seq<char>)
    ensures
        exists|front: Seq<char>, back: Seq<char>|
            {
                &&& s == #[trigger] (front + text::trimmed(s) + back)
                &&& all_space(front)
                &&& all_space(back)
            },
        text::trimmed(s).len() > 0 ==> !text::is_space(text::trimmed(s)[0]) && !text::is_space(
            text::trimmed(s).last(),
        ),
{
    let front = lemma_trimmed_start(s);
    let middle = text::trimmed_start(s);
    let back = lemma_trimmed_end(middle);
    assert(front + (text::trimmed(s) + back) =~= front + text::trimmed(s) + back);
    assert(s == front + text::trimmed(s) + back);
}

/// Of the ASCII characters exactly the blank and those from tab to carriage return are white space.
pub proof fn law_ascii_white_space(c: char)
    requires
        c <= '\u{7f}',
    ensures
        text::is_space(c) <==> c == ' ' || c == '\t' || c == '\n' || c == '\u{b}' || c == '\u{c}'
            || c == '\r',
{
}

} // verus!
