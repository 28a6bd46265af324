//! What the answers of the operating system say of a window, a screen or this program.
use crate::text::{decode_utf16, text_before_nul};
use vstd::prelude::*;

verus! {

// ---------------------------------------------------------------------------------------------
// Styles
// ---------------------------------------------------------------------------------------------

pub const WS_CHILD: u32 = 0x4000_0000;

pub const WS_MAXIMIZE: u32 = 0x0100_0000;

pub const WS_EX_TOOLWINDOW: u32 = 0x0000_0080;

pub const WS_EX_WINDOWEDGE: u32 = 0x0000_0100;

pub const WS_EX_NOACTIVATE: u32 = 0x0800_0000;

/// Whether a style has all bits of a flag.
pub open spec fn has_flag(style: u32, flag: u32) -> bool {
    style & flag == flag
}

/// Whether a window is no part of another one.
pub fn is_window_top_level(style: u32) -> (top_level: bool)
    ensures
        top_level == !has_flag(style, WS_CHILD),
{
    style & WS_CHILD != WS_CHILD
}

/// Whether a window is of a kind that gets no border by itself: a tool window, or one that is
/// never activated.
pub fn has_filtered_style(ex_style: u32) -> (filtered: bool)
    ensures
        filtered == (has_flag(ex_style, WS_EX_TOOLWINDOW) || has_flag(ex_style, WS_EX_NOACTIVATE)),
{
    ex_style & WS_EX_TOOLWINDOW == WS_EX_TOOLWINDOW || ex_style & WS_EX_NOACTIVATE
        == WS_EX_NOACTIVATE
}

/// Whether the desktop draws a border of its own around a window.
pub fn has_native_border(style: u32, ex_style: u32) -> (native: bool)
    ensures
        native == (!has_flag(style, WS_MAXIMIZE) && has_flag(ex_style, WS_EX_WINDOWEDGE)),
{
    style & WS_MAXIMIZE != WS_MAXIMIZE && ex_style & WS_EX_WINDOWEDGE == WS_EX_WINDOWEDGE
}

/// Whether a window is hidden by the desktop. One whose state cannot be read counts as shown.
pub fn is_window_cloaked(cloaked_state: Option<u32>) -> (cloaked: bool)
    ensures
        cloaked == (cloaked_state matches Some(state) && state != 0),
{
    match cloaked_state {
        Some(state) => state != 0,
        None => false,
    }
}

// ---------------------------------------------------------------------------------------------
// Rectangles
// ---------------------------------------------------------------------------------------------

/// A rectangle of the screen.
#[derive(Debug, Clone, Copy, PartialEq, Eq, Structural)]
pub struct Rect {
    pub left: i32,
    pub top: i32,
    pub right: i32,
    pub bottom: i32,
}

impl Rect {
    pub open spec fn width(self) -> int {
        self.right - self.left
    }

    pub open spec fn height(self) -> int {
        self.bottom - self.top
    }

    /// Whether the width and the height are numbers that a machine integer holds.
    pub open spec fn is_measurable(self) -> bool {
        &&& i32::MIN <= self.width() <= i32::MAX
        &&& i32::MIN <= self.height() <= i32::MAX
    }

    /// Whether the width and the height are numbers that a machine integer holds.
    pub fn can_measure(&self) -> (measurable: bool)
        ensures
            measurable == self.is_measurable(),
    {
        self.right.checked_sub(self.left).is_some() && self.bottom.checked_sub(self.top).is_some()
    }

    /// The width and the height.
    pub fn size(&self) -> (size: (i32, i32))
        requires
            self.is_measurable(),
        ensures
            size.0 == self.width(),
            size.1 == self.height(),
    {
        (self.right - self.left, self.bottom - self.top)
    }
}

/// Whether two rectangles have the same size, wherever they lie.
pub fn are_rects_same_size(rect1: &Rect, rect2: &Rect) -> (same: bool)
    requires
        rect1.is_measurable(),
        rect2.is_measurable(),
    ensures
        same == (rect1.width() == rect2.width() && rect1.height() == rect2.height()),
{
    rect1.right - rect1.left == rect2.right - rect2.left && rect1.bottom - rect1.top
        == rect2.bottom - rect2.top
}

// ---------------------------------------------------------------------------------------------
// Texts
// ---------------------------------------------------------------------------------------------

pub const ERROR_SUCCESS: u32 = 0;

pub const ERROR_ALREADY_EXISTS: u32 = 183;

pub const ERROR_ENVVAR_NOT_FOUND: u32 = 203;

pub const ERROR_INVALID_WINDOW_HANDLE: u32 = 1400;

pub const ERROR_CLASS_ALREADY_EXISTS: u32 = 1410;

/// The answer to a question that was denied.
pub const IDNO: i32 = 7;

/// Why a text of a window is not known.
#[derive(Debug, Clone, Copy, PartialEq, Eq, Structural)]
pub enum WindowTextError {
    /// The operating system failed with this error.
    Os(u32),
    /// The text is not ended by a zero.
    Unterminated,
}

/// Whether an answer without any character means that something failed. An empty text comes with
/// errors that do not.
pub open spec fn text_failed(written: u32, last_error: u32) -> bool {
    &&& written == 0
    &&& last_error != ERROR_ENVVAR_NOT_FOUND
    &&& last_error != ERROR_SUCCESS
    &&& last_error != ERROR_INVALID_WINDOW_HANDLE
}

/// The text in a buffer that the operating system has filled: what stands before the first zero.
fn window_text(written: u32, last_error: u32, buffer: &[u16]) -> (result: Result<
    String,
    WindowTextError,
>)
    ensures
        text_failed(written, last_error) ==> result == Err::<String, WindowTextError>(
            WindowTextError::Os(last_error),
        ),
        !text_failed(written, last_error) ==> match crate::text::before_nul(
            crate::text::utf16_decoded(buffer@),
        ) {
            Some(text) => result is Ok && result->Ok_0@ == text,
            None => result == Err::<String, WindowTextError>(WindowTextError::Unterminated),
        },
{
    if written == 0 && last_error != ERROR_ENVVAR_NOT_FOUND && last_error != ERROR_SUCCESS
        && last_error != ERROR_INVALID_WINDOW_HANDLE {
        return Err(WindowTextError::Os(last_error));
    }
    let decoded = decode_utf16(buffer);
    let before = text_before_nul(decoded.as_str());
    match before {
        Some(text) => Ok(text),
        None => Err(WindowTextError::Unterminated),
    }
}

/// The title of a window, from the buffer that the operating system has filled.
pub fn get_window_title(written: u32, last_error: u32, title_buf: &[u16]) -> (result: Result<
    String,
    WindowTextError,
>)
    ensures
        text_failed(written, last_error) ==> result == Err::<String, WindowTextError>(
            WindowTextError::Os(last_error),
        ),
        !text_failed(written, last_error) ==> match crate::text::before_nul(
            crate::text::utf16_decoded(title_buf@),
        ) {
            Some(text) => result is Ok && result->Ok_0@ == text,
            None => result == Err::<String, WindowTextError>(WindowTextError::Unterminated),
        },
{
    window_text(written, last_error, title_buf)
}

/// The class of a window, from the buffer that the operating system has filled.
pub fn get_window_class(written: u32, last_error: u32, class_buf: &[u16]) -> (result: Result<
    String,
    WindowTextError,
>)
    ensures
        text_failed(written, last_error) ==> result == Err::<String, WindowTextError>(
            WindowTextError::Os(last_error),
        ),
        !text_failed(written, last_error) ==> match crate::text::before_nul(
            crate::text::utf16_decoded(class_buf@),
        ) {
            Some(text) => result is Ok && result->Ok_0@ == text,
            None => result == Err::<String, WindowTextError>(WindowTextError::Unterminated),
        },
{
    window_text(written, last_error, class_buf)
}

/// A text that the operating system has written into a buffer, with a zero behind it, reads back,
/// whatever the rest of the buffer holds.
pub proof fn written_text_reads_back(text: Seq<char>, rest: Seq<u16>)
    requires
        !text.contains('\0'),
    ensures
        crate::text::before_nul(
            crate::text::utf16_decoded(crate::text::utf16_encoded(text).push(0) + rest),
        ) == Some(text),
{
    crate::text::zero_unit_is_zero_character(text);
    crate::text::encoded_text_comes_first(text.push('\0'), rest);
    let whole = text.push('\0') + crate::text::utf16_decoded(rest);
    assert(whole[text.len() as int] == '\0');
    assert(whole.contains('\0'));
    whole.index_of_first_ensures('\0');
    let at = whole.index_of_first('\0')->0;
    if at < text.len() {
        assert(text[at] == whole[at]);
        assert(text.contains('\0'));
    }
    assert(whole.take(at) =~= text);
}

/// Whether the path of a process may have been cut off: it fills the room for it, but for the zero
/// at the end.
pub fn may_be_truncated(written: u32, room: u32) -> (truncated: bool)
    requires
        room > 0,
    ensures
        truncated == (written >= room - 1),
{
    written >= room - 1
}

/// The units of a name in a field of fixed length: those before the first zero, or all.
pub open spec fn field_text(field: Seq<u16>) -> Seq<u16> {
    if field.contains(0) {
        field.take(field.index_of_first(0u16)->0)
    } else {
        field
    }
}

/// The name of a display adapter, from the field of fixed length that holds it.
pub fn adapter_name(description: &[u16]) -> (name: String)
    ensures
        name@ == crate::text::utf16_decoded(field_text(description@)),
{
    let mut len: usize = 0;
    while len < description.len() && description[len] != 0
        invariant
            len <= description@.len(),
            forall|i: int| 0 <= i < len ==> #[trigger] description@[i] != 0,
        decreases description@.len() - len,
    {
        len = len + 1;
    }
    let name = vstd::slice::slice_subrange(description, 0, len);
    proof {
        description@.index_of_first_ensures(0u16);
        if len < description@.len() {
            assert(description@.contains(0));
            assert(description@.index_of_first(0u16) == Some(len as int));
        }
        assert(name@ =~= field_text(description@));
    }
    decode_utf16(name)
}

// ---------------------------------------------------------------------------------------------
// This program
// ---------------------------------------------------------------------------------------------

/// Whether the class of border windows could not be registered. One that is there already will do.
pub fn class_registration_failed(atom: u16, last_error: u32) -> (failed: bool)
    ensures
        failed == (atom == 0 && last_error != ERROR_CLASS_ALREADY_EXISTS),
{
    atom == 0 && last_error != ERROR_CLASS_ALREADY_EXISTS
}

/// Whether another instance may be running, so that the user has to be asked.
pub open spec fn may_be_second(mutex_failed: bool, last_error: u32) -> bool {
    mutex_failed || last_error == ERROR_ALREADY_EXISTS
}

/// Whether another instance may be running, so that the user has to be asked.
pub fn asks_about_instance(mutex_failed: bool, last_error: u32) -> (asks: bool)
    ensures
        asks == may_be_second(mutex_failed, last_error),
{
    mutex_failed || last_error == ERROR_ALREADY_EXISTS
}

/// Whether this instance is to end again. `answer` is what the user said, where they were asked.
pub fn is_unwanted_instance(mutex_failed: bool, last_error: u32, answer: Option<i32>) -> (unwanted:
    bool)
    ensures
        unwanted == (may_be_second(mutex_failed, last_error) && answer == Some(IDNO)),
{
    asks_about_instance(mutex_failed, last_error) && match answer {
        Some(given) => given == IDNO,
        None => false,
    }
}

} // verus!
