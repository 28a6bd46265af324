//! Laws about texts.
use crate::text::{
    ascii_lowercase, before_nul, is_high_surrogate, is_low_surrogate, occurs_in, surrogate_pair,
    utf16_decoded, utf16_encoded, utf16_units, without_suffix,
};
use vstd::prelude::*;

verus! {

/// A part occurs in a text exactly if the text is that part with something before it and something
/// behind it, which may be nothing.
pub proof fn parts_stand_between_two_texts(part: Seq<char>, whole: Seq<char>)
    ensures
        occurs_in(part, whole) <==> exists|before: Seq<char>, after: Seq<char>|
            whole == #[trigger] (before + part + after),
{
    if exists|before: Seq<char>, after: Seq<char>| whole == #[trigger] (before + part + after) {
        let (before, after) = choose|before: Seq<char>, after: Seq<char>|
            whole == #[trigger] (before + part + after);
        assert(whole.subrange(before.len() as int, (before.len() + part.len()) as int) =~= part);
        assert(crate::text::occurs_at(part, whole, before.len() as int));
    }
    if occurs_in(part, whole) {
        let at = choose|at: int| #[trigger] crate::text::occurs_at(part, whole, at);
        let before = whole.take(at);
        let after = whole.skip(at + part.len());
        assert(whole =~= before + whole.subrange(at, at + part.len()) + after);
        assert(whole == before + part + after);
    }
}

/// Cutting off an end and putting it back gives the text, and only what ends with it can be cut.
pub proof fn suffixes_are_cut_off(text: Seq<char>, rest: Seq<char>, suffix: Seq<char>)
    ensures
        without_suffix(text, suffix) == Some(rest) <==> text == rest + suffix,
{
    if text == rest + suffix {
        assert(text.skip(text.len() - suffix.len()) =~= suffix);
        assert(text.take(text.len() - suffix.len()) =~= rest);
    }
    if without_suffix(text, suffix) == Some(rest) {
        assert(text =~= text.take(text.len() - suffix.len()) + text.skip(
            text.len() - suffix.len(),
        ));
    }
}

/// What stands before the first zero character is what the text begins with up to a zero, and holds
/// none itself. A text without a zero has no such part.
pub proof fn texts_end_at_the_first_zero(text: Seq<char>, kept: Seq<char>, rest: Seq<char>)
    ensures
        !kept.contains('\0') ==> before_nul(kept + seq!['\0'] + rest) == Some(kept),
        !text.contains('\0') ==> before_nul(text) is None,
        before_nul(text) matches Some(found) ==> !found.contains('\0') && text.len() > found.len()
            && text[found.len() as int] == '\0' && text.take(found.len() as int) == found,
{
    let whole = kept + seq!['\0'] + rest;
    assert(whole[kept.len() as int] == '\0');
    assert(whole.contains('\0'));
    whole.index_of_first_ensures('\0');
    text.index_of_first_ensures('\0');
    if !kept.contains('\0') {
        let at = whole.index_of_first('\0')->0;
        if at < kept.len() {
            assert(kept[at] == whole[at]);
            assert(kept.contains('\0'));
        }
        assert(whole.take(at) =~= kept);
    }
    if text.contains('\0') {
        let at = text.index_of_first('\0')->0;
        let found = text.take(at);
        if found.contains('\0') {
            let i = choose|i: int| 0 <= i < found.len() && found[i] == '\0';
            assert(text[i] == '\0');
        }
    }
}

/// The letters from `A` to `Z` have the lower-case letters of the same places; every other
/// character is its own.
pub proof fn letters_are_lowered_in_place(n: int, c: char)
    ensures
        0 <= n < 26 ==> ascii_lowercase((('A' as u32) + n) as char) == (('a' as u32) + n) as char,
        c < 'A' || c > 'Z' ==> ascii_lowercase(c) == c,
        ascii_lowercase(ascii_lowercase(c)) == ascii_lowercase(c),
{
}

/// A character of the first plane is one unit, its own number. Any other one is a high and a low
/// surrogate, which together count it from the first number behind that plane.
pub proof fn units_count_characters(c: char)
    ensures
        (c as u32) < 0x1_0000 ==> utf16_units(c).len() == 1 && utf16_units(c)[0] == c as u32,
        (c as u32) >= 0x1_0000 ==> {
            &&& utf16_units(c).len() == 2
            &&& 0xD800 <= utf16_units(c)[0] <= 0xDBFF
            &&& 0xDC00 <= utf16_units(c)[1] <= 0xDFFF
            &&& 0x1_0000 + (utf16_units(c)[0] - 0xD800) * 0x400 + (utf16_units(c)[1] - 0xDC00)
                == c as u32
        },
{
    if (c as u32) >= 0x1_0000 {
        let above = c as u32 - 0x1_0000;
        assert(above / 0x400 < 0x400);
    }
}

/// A text is encoded character by character, in order.
pub proof fn texts_are_encoded_in_order(text: Seq<char>, c: char)
    ensures
        utf16_encoded(Seq::<char>::empty()) == Seq::<u16>::empty(),
        utf16_encoded(text.push(c)) == utf16_encoded(text) + utf16_units(c),
{
    assert(text.push(c).drop_last() =~= text);
}

/// Units are decoded in order. A unit that is no surrogate is the character with its number, a high
/// surrogate in front of a low one makes a character with it, and any other surrogate is replaced.
pub proof fn units_are_decoded_in_order(first: u16, second: u16, rest: Seq<u16>)
    ensures
        utf16_decoded(Seq::<u16>::empty()) == Seq::<char>::empty(),
        first < 0xD800 || first > 0xDFFF ==> utf16_decoded(seq![first] + rest) == seq![
            first as char,
        ] + utf16_decoded(rest),
        0xD800 <= first <= 0xDBFF && 0xDC00 <= second <= 0xDFFF ==> utf16_decoded(
            seq![first, second] + rest,
        ) == seq![(0x1_0000 + (first - 0xD800) * 0x400 + (second - 0xDC00)) as char]
            + utf16_decoded(rest),
        0xDC00 <= first <= 0xDFFF ==> utf16_decoded(seq![first] + rest) == seq!['\u{FFFD}']
            + utf16_decoded(rest),
        0xD800 <= first <= 0xDBFF && (rest.len() == 0 || rest[0] < 0xDC00 || rest[0] > 0xDFFF)
            ==> utf16_decoded(seq![first] + rest) == seq!['\u{FFFD}'] + utf16_decoded(rest),
        is_high_surrogate(first) <==> 0xD800 <= first <= 0xDBFF,
        is_low_surrogate(first) <==> 0xDC00 <= first <= 0xDFFF,
        0xD800 <= first <= 0xDBFF && 0xDC00 <= second <= 0xDFFF ==> surrogate_pair(first, second)
            == (0x1_0000 + (first - 0xD800) * 0x400 + (second - 0xDC00)) as char,
{
    let one = seq![first] + rest;
    let two = seq![first, second] + rest;
    assert(one.skip(1) =~= rest);
    assert(two.skip(2) =~= rest);
    assert(one[0] == first);
    assert(two[0] == first && two[1] == second);
    if rest.len() > 0 {
        assert(one[1] == rest[0]);
    }
}

} // verus!
