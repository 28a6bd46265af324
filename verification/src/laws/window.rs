//! Laws about windows and the changes in a directory.
use crate::watch::{
    encodes_file, holds_record, lists_files, name_at, name_len, names_file, u16_at, u32_at,
};
use crate::window::{
    field_text, has_flag, may_be_second, text_failed, Rect, IDNO, WS_CHILD, WS_EX_NOACTIVATE,
    WS_EX_TOOLWINDOW, WS_EX_WINDOWEDGE, WS_MAXIMIZE,
};
use vstd::prelude::*;

verus! {

// ---------------------------------------------------------------------------------------------
// Windows
// ---------------------------------------------------------------------------------------------

/// Each flag is one bit of a style, and has its own.
pub proof fn flags_are_single_bits(style: u32)
    ensures
        has_flag(style, WS_CHILD) <==> (style / 0x4000_0000) % 2 == 1,
        has_flag(style, WS_MAXIMIZE) <==> (style / 0x100_0000) % 2 == 1,
        has_flag(style, WS_EX_TOOLWINDOW) <==> (style / 0x80) % 2 == 1,
        has_flag(style, WS_EX_WINDOWEDGE) <==> (style / 0x100) % 2 == 1,
        has_flag(style, WS_EX_NOACTIVATE) <==> (style / 0x800_0000) % 2 == 1,
{
    assert((style & 0x4000_0000u32 == 0x4000_0000u32) == ((style / 0x4000_0000u32) % 2 == 1))
        by (bit_vector);
    assert((style & 0x100_0000u32 == 0x100_0000u32) == ((style / 0x100_0000u32) % 2 == 1))
        by (bit_vector);
    assert((style & 0x80u32 == 0x80u32) == ((style / 0x80u32) % 2 == 1)) by (bit_vector);
    assert((style & 0x100u32 == 0x100u32) == ((style / 0x100u32) % 2 == 1)) by (bit_vector);
    assert((style & 0x800_0000u32 == 0x800_0000u32) == ((style / 0x800_0000u32) % 2 == 1))
        by (bit_vector);
}

/// A rectangle has the size that was added to its corner, wherever that lies.
pub proof fn sizes_do_not_depend_on_the_place(rect: Rect, left: int, top: int, width: int, height: int)
    requires
        rect.left == left && rect.right == left + width,
        rect.top == top && rect.bottom == top + height,
    ensures
        rect.width() == width,
        rect.height() == height,
        rect.is_measurable() <==> i32::MIN <= width <= i32::MAX && i32::MIN <= height <= i32::MAX,
{
}

/// A text failed to be read only if nothing was written and the error is none of the three that
/// come with an empty text.
pub proof fn empty_texts_come_with_three_errors(written: u32, last_error: u32)
    ensures
        written > 0 ==> !text_failed(written, last_error),
        !text_failed(0, 0),
        !text_failed(0, 203),
        !text_failed(0, 1400),
        last_error != 0 && last_error != 203 && last_error != 1400 ==> text_failed(0, last_error),
{
}

/// A name ends at the first zero of its field, or fills it.
pub proof fn names_end_in_their_field(name: Seq<u16>, rest: Seq<u16>)
    requires
        !name.contains(0),
    ensures
        field_text(name + seq![0u16] + rest) == name,
        field_text(name) == name,
{
    let field = name + seq![0u16] + rest;
    assert(field[name.len() as int] == 0);
    assert(field.contains(0));
    field.index_of_first_ensures(0u16);
    let at = field.index_of_first(0u16)->0;
    if at < name.len() {
        assert(name[at] == field[at]);
        assert(name.contains(0));
    }
    assert(field.take(at) =~= name);
}

/// Another instance may be running if the mutex could not be made, or was there already.
pub proof fn instances_share_a_mutex(mutex_failed: bool, last_error: u32)
    ensures
        may_be_second(true, last_error),
        may_be_second(mutex_failed, 183),
        !mutex_failed && last_error != 183 ==> !may_be_second(mutex_failed, last_error),
        IDNO == 7,
        crate::window::ERROR_CLASS_ALREADY_EXISTS == 1410,
{
}

// ---------------------------------------------------------------------------------------------
// Changes in a directory
// ---------------------------------------------------------------------------------------------

/// Four bytes of a number, the lowest one first.
pub open spec fn number_bytes(n: u32) -> Seq<u8> {
    seq![
        (n % 0x100) as u8,
        ((n / 0x100) % 0x100) as u8,
        ((n / 0x1_0000) % 0x100) as u8,
        (n / 0x100_0000) as u8,
    ]
}

/// Two bytes of each unit, the lower one first.
pub open spec fn unit_bytes(units: Seq<u16>) -> Seq<u8> {
    Seq::new(
        2 * units.len(),
        |i: int|
            if i % 2 == 0 {
                (units[i / 2] % 0x100) as u8
            } else {
                (units[i / 2] / 0x100) as u8
            },
    )
}

/// A record as the operating system writes it: the distance to the next one, the kind of change,
/// the length of the name in bytes, and the name.
pub open spec fn record_bytes(next: u32, action: u32, units: Seq<u16>) -> Seq<u8> {
    number_bytes(next) + number_bytes(action) + number_bytes((2 * units.len()) as u32)
        + unit_bytes(units)
}

/// Numbers are read back from their bytes, wherever those stand.
pub proof fn numbers_read_back(before: Seq<u8>, n: u32, after: Seq<u8>)
    ensures
        u32_at(before + number_bytes(n) + after, before.len() as int) == n,
{
    let all = before + number_bytes(n) + after;
    let at = before.len() as int;
    assert(all[at] == number_bytes(n)[0]);
    assert(all[at + 1] == number_bytes(n)[1]);
    assert(all[at + 2] == number_bytes(n)[2]);
    assert(all[at + 3] == number_bytes(n)[3]);
    assert(n % 0x100 + 0x100 * ((n / 0x100) % 0x100) + 0x1_0000 * ((n / 0x1_0000) % 0x100)
        + 0x100_0000 * (n / 0x100_0000) == n);
}

/// A record that was written is read back, wherever it stands: it is whole, and it says the
/// distance to the next one and the name of the file.
pub proof fn records_read_back(
    before: Seq<u8>,
    next: u32,
    action: u32,
    units: Seq<u16>,
    after: Seq<u8>,
)
    requires
        2 * units.len() <= u32::MAX,
    ensures
        ({
            let buffer = before + record_bytes(next, action, units) + after;
            let at = before.len() as int;
            &&& holds_record(buffer, at)
            &&& u32_at(buffer, at) == next
            &&& name_len(buffer, at) == units.len()
            &&& name_at(buffer, at) == units
        }),
{
    let buffer = before + record_bytes(next, action, units) + after;
    let at = before.len() as int;
    let len = (2 * units.len()) as u32;
    let head = number_bytes(next) + number_bytes(action);
    assert(buffer =~= before + number_bytes(next) + (number_bytes(action) + number_bytes(len)
        + unit_bytes(units) + after));
    numbers_read_back(
        before,
        next,
        number_bytes(action) + number_bytes(len) + unit_bytes(units) + after,
    );
    assert(buffer =~= (before + head) + number_bytes(len) + (unit_bytes(units) + after));
    numbers_read_back(before + head, len, unit_bytes(units) + after);
    assert((before + head).len() == at + 8);
    assert forall|i: int| 0 <= i < units.len() implies #[trigger] u16_at(buffer, at + 12 + 2 * i)
        == units[i] by {
        assert(buffer[at + 12 + 2 * i] == unit_bytes(units)[2 * i]);
        assert(buffer[at + 12 + 2 * i + 1] == unit_bytes(units)[2 * i + 1]);
        assert((2 * i) / 2 == i && (2 * i + 1) / 2 == i);
    }
    assert(name_at(buffer, at) =~= units);
}

/// A record that is cut off anywhere is not whole, and nothing is said where one is reached.
pub proof fn cut_off_records_are_not_whole(
    next: u32,
    action: u32,
    units: Seq<u16>,
    kept: int,
    file: Seq<char>,
)
    requires
        2 * units.len() <= u32::MAX,
        0 < kept < record_bytes(next, action, units).len(),
    ensures
        !holds_record(record_bytes(next, action, units).take(kept), 0),
        names_file(record_bytes(next, action, units).take(kept), kept, 0, file) is None,
{
    let none = Seq::<u8>::empty();
    let whole = record_bytes(next, action, units);
    let part = whole.take(kept);
    records_read_back(none, next, action, units, none);
    assert(none + whole + none =~= whole);
    if kept >= 12 {
        assert(part[8] == whole[8] && part[9] == whole[9] && part[10] == whole[10] && part[11]
            == whole[11]);
        assert(name_len(part, 0) == name_len(whole, 0));
    }
}

/// The records of several files, one behind the other, the last of which says that none follows.
pub open spec fn listing_bytes(files: Seq<Seq<char>>) -> Seq<u8>
    decreases files.len(),
{
    if files.len() == 0 {
        Seq::empty()
    } else {
        let units = crate::text::utf16_encoded(files[0]);
        let next: int = if files.len() == 1 {
            0
        } else {
            (12 + 2 * units.len()) as int
        };
        record_bytes(next as u32, 3, units) + listing_bytes(files.drop_first())
    }
}

/// Whether the names are short enough for their lengths to be written.
pub open spec fn are_short_names(files: Seq<Seq<char>>) -> bool {
    forall|i: int|
        0 <= i < files.len() ==> crate::text::utf16_encoded(#[trigger] files[i]).len() < 0x1000_0000
}

proof fn lemma_join(a: Seq<u8>, b: Seq<u8>, c: Seq<u8>)
    ensures
        a + (b + c) == a + b + c,
{
    assert(a + (b + c) =~= a + b + c);
}

proof fn lemma_record_len(next: u32, action: u32, units: Seq<u16>)
    ensures
        record_bytes(next, action, units).len() == 12 + 2 * units.len(),
{
}

/// What a list says, given what its first record says and what the rest of it says.
proof fn lemma_lists_more(
    buffer: Seq<u8>,
    at: int,
    next: u32,
    units: Seq<u16>,
    files: Seq<Seq<char>>,
)
    requires
        files.len() > 0,
        units == crate::text::utf16_encoded(files[0]),
        at < buffer.len(),
        holds_record(buffer, at),
        name_at(buffer, at) == units,
        u32_at(buffer, at) == next,
        next == 0 <==> files.len() == 1,
        files.len() > 1 ==> lists_files(
            buffer,
            buffer.len() as int,
            at + next,
            files.drop_first(),
        ),
    ensures
        lists_files(buffer, buffer.len() as int, at, files),
{
}

proof fn lemma_listing(before: Seq<u8>, files: Seq<Seq<char>>)
    requires
        are_short_names(files),
    ensures
        lists_files(
            before + listing_bytes(files),
            (before + listing_bytes(files)).len() as int,
            before.len() as int,
            files,
        ),
    decreases files.len(),
{
    if files.len() > 0 {
        let units = crate::text::utf16_encoded(files[0]);
        let next: int = if files.len() == 1 {
            0
        } else {
            (12 + 2 * units.len()) as int
        };
        assert(units.len() < 0x1000_0000);
        let rest = files.drop_first();
        let record = record_bytes(next as u32, 3, units);
        let tail = listing_bytes(rest);
        let all = before + listing_bytes(files);
        assert(listing_bytes(files) == record + tail);
        lemma_join(before, record, tail);
        lemma_record_len(next as u32, 3, units);
        records_read_back(before, next as u32, 3, units, tail);
        if files.len() > 1 {
            assert forall|i: int| 0 <= i < rest.len() implies crate::text::utf16_encoded(
                #[trigger] rest[i],
            ).len() < 0x1000_0000 by {
                assert(crate::text::utf16_encoded(files[i + 1]).len() < 0x1000_0000);
            }
            lemma_listing(before + record, rest);
            assert((before + record).len() == before.len() + next);
        }
        lemma_lists_more(all, before.len() as int, next as u32, units, files);
    }
}

/// In a buffer with the records of some files, the configuration has changed exactly if it is one
/// of them.
pub proof fn changes_are_noticed(files: Seq<Seq<char>>, file: Seq<char>)
    requires
        are_short_names(files),
    ensures
        names_file(listing_bytes(files), listing_bytes(files).len() as int, 0, file) == Some(
            files.contains(file),
        ),
{
    let none = Seq::<u8>::empty();
    lemma_listing(none, files);
    assert(none + listing_bytes(files) =~= listing_bytes(files));
    crate::watch::listed_files_are_named(
        listing_bytes(files),
        listing_bytes(files).len() as int,
        0,
        files,
        file,
    );
}

/// A record that says that none follows ends the reading, and one that begins behind the bytes that
/// were returned is not read.
pub proof fn readings_end(buffer: Seq<u8>, end: int, at: int, file: Seq<char>)
    ensures
        at >= end ==> names_file(buffer, end, at, file) == Some(false),
        at < end && holds_record(buffer, at) && u32_at(buffer, at) == 0 ==> names_file(
            buffer,
            end,
            at,
            file,
        ) == Some(crate::text::utf16_decoded(name_at(buffer, at)) == file),
        at < end && holds_record(buffer, at) && u32_at(buffer, at) != 0
            && crate::text::utf16_decoded(name_at(buffer, at)) != file ==> names_file(
            buffer,
            end,
            at,
            file,
        ) == names_file(buffer, end, at + u32_at(buffer, at), file),
        at < end && holds_record(buffer, at) && crate::text::utf16_decoded(name_at(buffer, at))
            == file ==> names_file(buffer, end, at, file) == Some(true),
        encodes_file(buffer, end, at, file) ==> at < end && holds_record(buffer, at),
{
}

} // verus!
