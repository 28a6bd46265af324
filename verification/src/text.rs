//! Text: comparing names, splitting, and the UTF-16 that the operating system speaks.
use vstd::prelude::*;

verus! {

/// The characters of a text.
pub fn chars_of(text: &str) -> (chars: Vec<char>)
    ensures
        chars@ == text@,
{
    let mut chars: Vec<char> = Vec::new();
    for c in iter: text.chars()
        invariant
            iter.seq() == text@,
            chars@ == text@.take(iter.index() as int),
    {
        chars.push(c);
    }
    assert(text@.take(text@.len() as int) =~= text@);
    chars
}

/// Whether two texts are the same.
pub fn same_text(left: &str, right: &str) -> (same: bool)
    ensures
        same == (left@ == right@),
{
    left.to_owned() == right.to_owned()
}

/// Whether `part` occurs in `whole`.
pub open spec fn occurs_in(part: Seq<char>, whole: Seq<char>) -> bool {
    exists|at: int| #[trigger] occurs_at(part, whole, at)
}

/// Whether `part` stands in `whole` at the given place.
pub open spec fn occurs_at(part: Seq<char>, whole: Seq<char>, at: int) -> bool {
    0 <= at <= whole.len() - part.len() && whole.subrange(at, at + part.len()) == part
}

/// Whether `part` occurs in `whole`.
pub fn contains_text(whole: &str, part: &str) -> (found: bool)
    ensures
        found == occurs_in(part@, whole@),
{
    let whole_chars = chars_of(whole);
    let part_chars = chars_of(part);
    if part_chars.len() > whole_chars.len() {
        return false;
    }
    let last: usize = whole_chars.len() - part_chars.len();
    let mut at: usize = 0;
    while at <= last
        invariant
            whole_chars@ == whole@,
            part_chars@ == part@,
            last == whole@.len() - part@.len(),
            part@.len() + last == whole_chars.len(),
            at <= last + 1,
            forall|i: int| 0 <= i < at ==> !#[trigger] occurs_at(part@, whole@, i),
        decreases last + 1 - at,
    {
        let mut same: usize = 0;
        while same < part_chars.len() && whole_chars[at + same] == part_chars[same]
            invariant
                whole_chars@ == whole@,
                part_chars@ == part@,
                last == whole@.len() - part@.len(),
                at <= last,
                at + part@.len() <= whole_chars.len(),
                same <= part@.len(),
                forall|i: int| 0 <= i < same ==> whole@[at + i] == part@[i],
            decreases part@.len() - same,
        {
            same = same + 1;
        }
        if same == part_chars.len() {
            assert(whole@.subrange(at as int, at + part@.len()) =~= part@);
            assert(occurs_at(part@, whole@, at as int));
            return true;
        }
        assert(!occurs_at(part@, whole@, at as int)) by {
            assert(whole@.subrange(at as int, at + part@.len())[same as int] == whole@[at + same]);
        }
        if at == last {
            return false;
        }
        at = at + 1;
    }
    false
}

/// The lower-case letter of a letter from `A` to `Z`; other characters are left alone.
pub open spec fn ascii_lowercase(c: char) -> char {
    if 'A' <= c <= 'Z' {
        (c as u32 + 32) as char
    } else {
        c
    }
}

/// What `str::to_lowercase` makes of a text.
pub uninterp spec fn lowercased(text: Seq<char>) -> Seq<char>;

/// Calls `str::to_lowercase`. The contract claims that the outcome is a function of the text, and
/// that a text of ASCII characters has its letters lowered one by one; what happens to other
/// letters is left to the Unicode tables of the standard library.
#[verifier::external_body]
pub(crate) fn lowercase(text: &str) -> (lower: String)
    ensures
        lower@ == lowercased(text@),
        text.is_ascii() ==> lower@ == text@.map_values(|c: char| ascii_lowercase(c)),
{
    text.to_lowercase()
}

// ---------------------------------------------------------------------------------------------
// UTF-16
// ---------------------------------------------------------------------------------------------

/// The UTF-16 units of a character: itself, or a pair of surrogates.
pub open spec fn utf16_units(c: char) -> Seq<u16> {
    if (c as u32) < 0x1_0000 {
        seq![c as u16]
    } else {
        seq![
            (0xD800 + (c as u32 - 0x1_0000) / 0x400) as u16,
            (0xDC00 + (c as u32 - 0x1_0000) % 0x400) as u16,
        ]
    }
}

/// The UTF-16 units of a text.
pub open spec fn utf16_encoded(text: Seq<char>) -> Seq<u16>
    decreases text.len(),
{
    if text.len() == 0 {
        Seq::empty()
    } else {
        utf16_encoded(text.drop_last()) + utf16_units(text.last())
    }
}

fn push_utf16(units: &mut Vec<u16>, c: char)
    ensures
        final(units)@ == old(units)@ + utf16_units(c),
{
    let code: u32 = c as u32;
    if code < 0x1_0000 {
        units.push(code as u16);
    } else {
        let above: u32 = code - 0x1_0000;
        assert(above / 0x400 < 0x400);
        units.push((0xD800 + above / 0x400) as u16);
        units.push((0xDC00 + above % 0x400) as u16);
    }
    assert(units@ =~= old(units)@ + utf16_units(c));
}

/// The UTF-16 units of a text, with a zero behind them.
pub fn wide_with_nul(text: &str) -> (units: Vec<u16>)
    ensures
        units@ == utf16_encoded(text@).push(0),
{
    let mut units: Vec<u16> = Vec::new();
    for c in iter: text.chars()
        invariant
            iter.seq() == text@,
            units@ == utf16_encoded(text@.take(iter.index() as int)),
    {
        push_utf16(&mut units, c);
        assert(text@.take(iter.index() + 1).drop_last() =~= text@.take(iter.index() as int));
    }
    assert(text@.take(text@.len() as int) =~= text@);
    units.push(0);
    units
}

/// A zero behind the units of a text stands for a zero character behind the text.
pub proof fn zero_unit_is_zero_character(text: Seq<char>)
    ensures
        utf16_encoded(text.push('\0')) == utf16_encoded(text).push(0),
{
    assert(text.push('\0').drop_last() =~= text);
    assert(utf16_units('\0') =~= seq![0u16]);
    assert(utf16_encoded(text) + seq![0u16] =~= utf16_encoded(text).push(0));
}

/// Whether a unit is the first of a pair of surrogates.
pub open spec fn is_high_surrogate(unit: u16) -> bool {
    0xD800 <= unit < 0xDC00
}

/// Whether a unit is the second of a pair of surrogates.
pub open spec fn is_low_surrogate(unit: u16) -> bool {
    0xDC00 <= unit < 0xE000
}

/// The character of a pair of surrogates.
pub open spec fn surrogate_pair(high: u16, low: u16) -> char {
    (0x1_0000 + 0x400 * (high - 0xD800) + (low - 0xDC00)) as char
}

/// The text that a sequence of units stands for: a unit that is no surrogate is a character, and so
/// is a pair of surrogates. Every other surrogate is replaced by U+FFFD.
pub open spec fn utf16_decoded(units: Seq<u16>) -> Seq<char>
    decreases units.len(),
{
    if units.len() == 0 {
        Seq::empty()
    } else if !is_high_surrogate(units[0]) && !is_low_surrogate(units[0]) {
        seq![units[0] as char] + utf16_decoded(units.skip(1))
    } else if is_high_surrogate(units[0]) && units.len() > 1 && is_low_surrogate(units[1]) {
        seq![surrogate_pair(units[0], units[1])] + utf16_decoded(units.skip(2))
    } else {
        seq!['\u{FFFD}'] + utf16_decoded(units.skip(1))
    }
}

/// Calls `String::from_utf16_lossy`. The contract claims what its documentation and that of
/// `char::decode_utf16` say: pairs of surrogates are joined, and every unpaired surrogate is
/// replaced by U+FFFD.
#[verifier::external_body]
pub(crate) fn decode_utf16(units: &[u16]) -> (text: String)
    ensures
        text@ == utf16_decoded(units@),
{
    String::from_utf16_lossy(units)
}

proof fn lemma_encode_front(c: char, rest: Seq<char>)
    ensures
        utf16_encoded(seq![c] + rest) == utf16_units(c) + utf16_encoded(rest),
    decreases rest.len(),
{
    let all = seq![c] + rest;
    if rest.len() == 0 {
        assert(all.drop_last() =~= Seq::<char>::empty());
        assert(rest =~= Seq::<char>::empty());
        assert(utf16_encoded(all) =~= utf16_units(c) + utf16_encoded(rest));
    } else {
        lemma_encode_front(c, rest.drop_last());
        assert(all.drop_last() =~= seq![c] + rest.drop_last());
        assert(utf16_encoded(all) =~= utf16_units(c) + utf16_encoded(rest));
    }
}

proof fn lemma_decode_front(c: char, rest: Seq<u16>)
    ensures
        utf16_decoded(utf16_units(c) + rest) == seq![c] + utf16_decoded(rest),
{
    let units = utf16_units(c) + rest;
    if (c as u32) < 0x1_0000 {
        assert(units[0] == c as u16);
        assert(units.skip(1) =~= rest);
        assert(units[0] as char == c);
    } else {
        let above = c as u32 - 0x1_0000;
        assert(above / 0x400 < 0x400);
        assert(units[0] == 0xD800 + above / 0x400);
        assert(units[1] == 0xDC00 + above % 0x400);
        assert(units.skip(2) =~= rest);
        assert(surrogate_pair(units[0], units[1]) == c);
    }
}

/// The units of a text, and whatever units follow, stand for that text and what those stand for.
pub proof fn encoded_text_comes_first(text: Seq<char>, rest: Seq<u16>)
    ensures
        utf16_decoded(utf16_encoded(text) + rest) == text + utf16_decoded(rest),
    decreases text.len(),
{
    if text.len() == 0 {
        assert(utf16_encoded(text) + rest =~= rest);
        assert(text + utf16_decoded(rest) =~= utf16_decoded(rest));
    } else {
        let tail = text.skip(1);
        assert(text =~= seq![text[0]] + tail);
        lemma_encode_front(text[0], tail);
        encoded_text_comes_first(tail, rest);
        lemma_decode_front(text[0], utf16_encoded(tail) + rest);
        assert(utf16_encoded(text) + rest =~= utf16_units(text[0]) + (utf16_encoded(tail) + rest));
        assert(text + utf16_decoded(rest) =~= seq![text[0]] + (tail + utf16_decoded(rest)));
    }
}

/// The units of a text stand for that text.
pub proof fn encoded_text_reads_back(text: Seq<char>)
    ensures
        utf16_decoded(utf16_encoded(text)) == text,
{
    let none = Seq::<u16>::empty();
    encoded_text_comes_first(text, none);
    assert(utf16_encoded(text) + none =~= utf16_encoded(text));
    assert(text + utf16_decoded(none) =~= text);
}

// ---------------------------------------------------------------------------------------------
// Splitting
// ---------------------------------------------------------------------------------------------

/// What stands before the first zero character, where there is one.
pub open spec fn before_nul(text: Seq<char>) -> Option<Seq<char>> {
    if text.contains('\0') {
        Some(text.take(text.index_of_first('\0')->0))
    } else {
        None
    }
}

/// What stands before the first zero character, where there is one.
pub fn text_before_nul(text: &str) -> (before: Option<String>)
    ensures
        before is Some <==> before_nul(text@) is Some,
        before matches Some(kept) ==> Some(kept@) == before_nul(text@),
{
    let chars = chars_of(text);
    let mut at: usize = 0;
    while at < chars.len()
        invariant
            chars@ == text@,
            at <= text@.len(),
            forall|i: int| 0 <= i < at ==> text@[i] != '\0',
        decreases text@.len() - at,
    {
        if chars[at] == '\0' {
            let kept = text.substring_char(0, at).to_owned();
            proof {
                text@.index_of_first_ensures('\0');
                assert(text@.contains('\0'));
                assert(text@.index_of_first('\0') == Some(at as int));
                assert(kept@ =~= text@.take(at as int));
            }
            return Some(kept);
        }
        at = at + 1;
    }
    None
}

/// What stands before the last characters, where those are `suffix`.
pub open spec fn without_suffix(text: Seq<char>, suffix: Seq<char>) -> Option<Seq<char>> {
    if text.len() >= suffix.len() && text.skip(text.len() - suffix.len()) == suffix {
        Some(text.take(text.len() - suffix.len()))
    } else {
        None
    }
}

/// What stands before the last characters, where those are `suffix`.
pub fn strip_text_suffix(text: &str, suffix: &str) -> (kept: Option<String>)
    ensures
        kept is Some <==> without_suffix(text@, suffix@) is Some,
        kept matches Some(rest) ==> Some(rest@) == without_suffix(text@, suffix@),
{
    let text_len: usize = text.unicode_len();
    let suffix_len: usize = suffix.unicode_len();
    if text_len < suffix_len {
        return None;
    }
    let cut: usize = text_len - suffix_len;
    let tail = text.substring_char(cut, text_len);
    assert(tail@ =~= text@.skip(cut as int));
    if same_text(tail, suffix) {
        let rest = text.substring_char(0, cut).to_owned();
        assert(rest@ =~= text@.take(cut as int));
        Some(rest)
    } else {
        None
    }
}

} // verus!
