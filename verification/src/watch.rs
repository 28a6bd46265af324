//! Watching the directory of the configuration: reading the change records that the operating
//! system writes into a buffer.
use crate::text::{decode_utf16, same_text};
use vstd::prelude::*;

verus! {

/// The part of a change record that stands before the file name: the distance to the next record,
/// the kind of change, and the length of the name in bytes, four bytes each, the lowest one first.
pub const RECORD_HEADER_LEN: u64 = 12;

/// A change record.
#[derive(Debug)]
pub struct ChangeRecord {
    /// The distance to the next record; zero for the last one.
    pub next_entry_offset: u32,
    /// The name of the changed file, as UTF-16 units.
    pub file_name: Vec<u16>,
}

/// Four bytes as a number, the lowest one first.
pub open spec fn u32_at(buffer: Seq<u8>, at: int) -> u32 {
    (buffer[at] + 0x100 * buffer[at + 1] + 0x1_0000 * buffer[at + 2] + 0x100_0000 * buffer[at
        + 3]) as u32
}

/// Two bytes as a number, the lower one first.
pub open spec fn u16_at(buffer: Seq<u8>, at: int) -> u16 {
    (buffer[at] + 0x100 * buffer[at + 1]) as u16
}

/// The number of UTF-16 units in the name of the record at `at`.
pub open spec fn name_len(buffer: Seq<u8>, at: int) -> int {
    u32_at(buffer, at + 8) as int / 2
}

/// The name in the record at `at`.
pub open spec fn name_at(buffer: Seq<u8>, at: int) -> Seq<u16> {
    Seq::new(
        name_len(buffer, at) as nat,
        |i: int| u16_at(buffer, at + RECORD_HEADER_LEN + 2 * i),
    )
}

/// Whether the buffer holds the whole record at `at`.
pub open spec fn holds_record(buffer: Seq<u8>, at: int) -> bool {
    &&& at + RECORD_HEADER_LEN <= buffer.len()
    &&& at + RECORD_HEADER_LEN + 2 * name_len(buffer, at) <= buffer.len()
}

fn read_u32(buffer: &[u8], at: usize) -> (number: u32)
    requires
        at + 4 <= buffer@.len(),
    ensures
        number == u32_at(buffer@, at as int),
{
    buffer[at] as u32 + 0x100 * buffer[at + 1] as u32 + 0x1_0000 * buffer[at + 2] as u32
        + 0x100_0000 * buffer[at + 3] as u32
}

/// Reads the record at `at`, if the buffer holds all of it.
pub fn read_record(buffer: &[u8], at: usize) -> (record: Option<ChangeRecord>)
    ensures
        record is Some <==> holds_record(buffer@, at as int),
        record matches Some(read) ==> {
            &&& read.next_entry_offset == u32_at(buffer@, at as int)
            &&& read.file_name@ == name_at(buffer@, at as int)
        },
{
    let len: usize = buffer.len();
    if at > len || len - at < 12 {
        return None;
    }
    let next_entry_offset: u32 = read_u32(buffer, at);
    let units: usize = read_u32(buffer, at + 8) as usize / 2;
    let start: usize = at + 12;
    if units > (len - start) / 2 {
        return None;
    }
    let mut file_name: Vec<u16> = Vec::new();
    let mut idx: usize = 0;
    while idx < units
        invariant
            idx <= units,
            start == at + 12,
            len == buffer@.len(),
            start + 2 * units <= len,
            file_name@.len() == idx,
            forall|i: int|
                0 <= i < idx ==> #[trigger] file_name@[i] == u16_at(buffer@, start + 2 * i),
        decreases units - idx,
    {
        let low: u16 = buffer[start + 2 * idx] as u16;
        let high: u16 = buffer[start + 2 * idx + 1] as u16;
        file_name.push(low + 0x100 * high);
        idx = idx + 1;
    }
    assert(file_name@ =~= name_at(buffer@, at as int));
    Some(ChangeRecord { next_entry_offset, file_name })
}

/// Whether one of the records from `at` on names a file. Records are read while they begin before
/// `end`, up to the first that names the file or is the last one; nothing comes of a record that
/// the buffer does not hold.
pub open spec fn names_file(
    buffer: Seq<u8>,
    end: int,
    at: int,
    file: Seq<char>,
) -> Option<bool>
    decreases
            (if at < end {
                end - at
            } else {
                0
            }),
{
    if at >= end {
        Some(false)
    } else if !holds_record(buffer, at) {
        None
    } else if crate::text::utf16_decoded(name_at(buffer, at)) == file {
        Some(true)
    } else if u32_at(buffer, at) == 0 {
        Some(false)
    } else {
        names_file(buffer, end, at + u32_at(buffer, at), file)
    }
}

/// Whether one of the records from `at` on holds the UTF-16 units of a name.
pub open spec fn encodes_file(buffer: Seq<u8>, end: int, at: int, file: Seq<char>) -> bool
    decreases
            (if at < end {
                end - at
            } else {
                0
            }),
{
    &&& at < end
    &&& holds_record(buffer, at)
    &&& {
        ||| name_at(buffer, at) == crate::text::utf16_encoded(file)
        ||| u32_at(buffer, at) != 0 && encodes_file(buffer, end, at + u32_at(buffer, at), file)
    }
}

/// Whether the records from `at` on hold the UTF-16 units of the given names, one each, and no
/// more follow.
pub open spec fn lists_files(buffer: Seq<u8>, end: int, at: int, files: Seq<Seq<char>>) -> bool
    decreases files.len(),
{
    if files.len() == 0 {
        at >= end
    } else {
        &&& at < end
        &&& holds_record(buffer, at)
        &&& name_at(buffer, at) == crate::text::utf16_encoded(files[0])
        &&& if u32_at(buffer, at) == 0 {
            files.len() == 1
        } else {
            lists_files(buffer, end, at + u32_at(buffer, at), files.drop_first())
        }
    }
}

/// Where the records name files, the configuration has changed exactly if it is one of them.
pub proof fn listed_files_are_named(
    buffer: Seq<u8>,
    end: int,
    at: int,
    files: Seq<Seq<char>>,
    file: Seq<char>,
)
    requires
        lists_files(buffer, end, at, files),
    ensures
        names_file(buffer, end, at, file) == Some(files.contains(file)),
    decreases files.len(),
{
    if files.len() > 0 {
        crate::text::encoded_text_reads_back(files[0]);
        let rest = files.drop_first();
        if u32_at(buffer, at) != 0 {
            listed_files_are_named(buffer, end, at + u32_at(buffer, at), rest, file);
        }
        if files[0] != file {
            if files.contains(file) {
                let i = choose|i: int| 0 <= i < files.len() && files[i] == file;
                assert(rest[i - 1] == file);
            }
            if rest.contains(file) {
                let i = choose|i: int| 0 <= i < rest.len() && rest[i] == file;
                assert(files[i + 1] == file);
            }
        }
    }
}

/// A record that names the configuration is found, whatever the other records hold.
pub proof fn encoded_file_is_named(buffer: Seq<u8>, end: int, at: int, file: Seq<char>)
    requires
        encodes_file(buffer, end, at, file),
    ensures
        names_file(buffer, end, at, file) == Some(true),
    decreases
            (if at < end {
                end - at
            } else {
                0
            }),
{
    crate::text::encoded_text_reads_back(file);
    if name_at(buffer, at) != crate::text::utf16_encoded(file) {
        encoded_file_is_named(buffer, end, at + u32_at(buffer, at), file);
    }
}

/// Watches the file of the configuration.
#[derive(Debug)]
pub struct ConfigWatcher {
    /// The name of the file, without its directory.
    pub config_name: String,
    /// How long to wait after every notification, in milliseconds.
    pub debounce_time: u64,
}

impl ConfigWatcher {
    pub fn new(config_name: String, debounce_time: u64) -> (watcher: Self)
        ensures
            watcher.config_name == config_name,
            watcher.debounce_time == debounce_time,
    {
        ConfigWatcher { config_name, debounce_time }
    }

    /// Whether the records in the first `bytes_returned` bytes of `buffer` say that the configuration
    /// changed. Nothing is said where a record is not wholly in the buffer.
    pub fn process_dir_change_notifs(buffer: &[u8], bytes_returned: u32, config_name: &str) -> (changed:
        Option<bool>)
        ensures
            changed == names_file(buffer@, bytes_returned as int, 0, config_name@),
    {
        let mut at: u64 = 0;
        while at < bytes_returned as u64
            invariant
                at <= 0x1_FFFF_FFFE,
                names_file(buffer@, bytes_returned as int, 0, config_name@) == names_file(
                    buffer@,
                    bytes_returned as int,
                    at as int,
                    config_name@,
                ),
            decreases
                    (if at < bytes_returned {
                        bytes_returned - at
                    } else {
                        0
                    }),
        {
            let record = match read_record(buffer, at as usize) {
                Some(record) => record,
                None => return None,
            };
            let file_name = decode_utf16(record.file_name.as_slice());
            if same_text(file_name.as_str(), config_name) {
                return Some(true);
            }
            if record.next_entry_offset == 0 {
                return Some(false);
            }
            at = at + record.next_entry_offset as u64;
        }
        Some(false)
    }
}

} // verus!
