//! Small building blocks: message numbers, values that can be locked, sections that are entered
//! once, and word splitting.
use vstd::prelude::*;

verus! {

/// The first message number that a program may use for its own purposes.
pub const WM_APP: u32 = 0x8000;

pub const WM_APP_LOCATIONCHANGE: u32 = 0x8000;

pub const WM_APP_REORDER: u32 = 0x8001;

pub const WM_APP_FOREGROUND: u32 = 0x8002;

pub const WM_APP_SHOWUNCLOAKED: u32 = 0x8003;

pub const WM_APP_HIDECLOAKED: u32 = 0x8004;

pub const WM_APP_MINIMIZESTART: u32 = 0x8005;

pub const WM_APP_MINIMIZEEND: u32 = 0x8006;

pub const WM_APP_ANIMATE: u32 = 0x8007;

pub const WM_APP_KOMOREBI: u32 = 0x8008;

pub const WM_APP_RECREATE_DRAWER: u32 = 0x8009;

/// Why a locked value refused to be set.
#[derive(Debug, Clone, Copy, PartialEq, Eq, Structural)]
pub struct LockedError;

impl LockedError {
    /// What the error says.
    pub fn message(&self) -> (message: &'static str)
        ensures
            message@ == "attempted to set a value while it is locked"@,
    {
        "attempted to set a value while it is locked"
    }
}

/// A value that can be locked against writing.
#[derive(Debug, Clone)]
pub struct WriteLockable<T> {
    inner: T,
    is_locked: bool,
}

impl<T> WriteLockable<T> {
    /// The value held.
    pub closed spec fn value(&self) -> T {
        self.inner
    }

    /// Whether writing is refused.
    pub closed spec fn locked(&self) -> bool {
        self.is_locked
    }

    pub fn new(value: T) -> (lockable: Self)
        ensures
            lockable.value() == value,
            !lockable.locked(),
    {
        WriteLockable { inner: value, is_locked: false }
    }

    pub fn lock_writes(&mut self)
        ensures
            final(self).value() == old(self).value(),
            final(self).locked(),
    {
        self.is_locked = true;
    }

    pub fn unlock_writes(&mut self)
        ensures
            final(self).value() == old(self).value(),
            !final(self).locked(),
    {
        self.is_locked = false;
    }

    pub fn is_locked(&self) -> (locked: bool)
        ensures
            locked == self.locked(),
    {
        self.is_locked
    }

    pub fn get(&self) -> (value: &T)
        ensures
            *value == self.value(),
    {
        &self.inner
    }

    /// Replaces the value, unless it is locked.
    pub fn set(&mut self, value: T) -> (result: Result<(), LockedError>)
        ensures
            final(self).locked() == old(self).locked(),
            old(self).locked() ==> result == Err::<(), LockedError>(LockedError)
                && final(self).value() == old(self).value(),
            !old(self).locked() ==> result == Ok::<(), LockedError>(()) && final(self).value()
                == value,
    {
        if self.is_locked {
            Err(LockedError)
        } else {
            self.inner = value;
            Ok(())
        }
    }
}

impl<T: Default> Default for WriteLockable<T> {
    /// An unlocked default value.
    fn default() -> (lockable: Self)
        ensures
            call_ensures(T::default, (), lockable.value()),
            !lockable.locked(),
    {
        WriteLockable { inner: T::default(), is_locked: false }
    }
}

/// Why a section was not entered: it had been entered already.
#[derive(Debug, Clone, Copy, PartialEq, Eq, Structural)]
pub struct ReentrancyError;

impl ReentrancyError {
    /// What the error says.
    pub fn message(&self) -> (message: &'static str)
        ensures
            message@ == "detected re-entrancy"@,
    {
        "detected re-entrancy"
    }
}

/// Notices when a section of code is entered a second time before it was left.
#[derive(Debug, Clone, Copy, PartialEq, Eq, Structural)]
pub struct ReentrancyBlocker {
    is_entered: bool,
}

impl ReentrancyBlocker {
    /// Whether the section is entered.
    pub closed spec fn entered(&self) -> bool {
        self.is_entered
    }

    pub fn new() -> (blocker: Self)
        ensures
            !blocker.entered(),
    {
        ReentrancyBlocker { is_entered: false }
    }

    /// Enters the section, unless it is entered already. Whoever entered it has to call
    /// [`ReentrancyBlocker::leave`] once it is done.
    pub fn enter(&mut self) -> (result: Result<(), ReentrancyError>)
        ensures
            final(self).entered(),
            old(self).entered() <==> result == Err::<(), ReentrancyError>(ReentrancyError),
            !old(self).entered() <==> result == Ok::<(), ReentrancyError>(()),
    {
        if self.is_entered {
            Err(ReentrancyError)
        } else {
            self.is_entered = true;
            Ok(())
        }
    }

    pub fn leave(&mut self)
        ensures
            !final(self).entered(),
    {
        self.is_entered = false;
    }
}

impl Default for ReentrancyBlocker {
    fn default() -> (blocker: Self)
        ensures
            !blocker.entered(),
    {
        ReentrancyBlocker::new()
    }
}

/// The second 16 bits from the bottom of a value.
pub open spec fn high_word(val: int) -> int {
    (val / 0x1_0000) % 0x1_0000
}

/// The lowest 16 bits of a value.
pub open spec fn low_word(val: int) -> int {
    val % 0x1_0000
}

/// The second 16 bits from the bottom of `val`.
pub fn hiword(val: usize) -> (word: u16)
    ensures
        word == high_word(val as int),
        word == (val / 0x1_0000) % 0x1_0000,
{
    assert((val >> 16) & 0xFFFF == (val / 0x1_0000) % 0x1_0000) by (bit_vector);
    assert((val >> 16) & 0xFFFF <= 0xFFFF) by (bit_vector);
    ((val >> 16) & 0xFFFF) as u16
}

/// The lowest 16 bits of `val`.
pub fn loword(val: usize) -> (word: u16)
    ensures
        word == low_word(val as int),
        word == val % 0x1_0000,
{
    assert(val & 0xFFFF == val % 0x1_0000) by (bit_vector);
    assert(val & 0xFFFF <= 0xFFFF) by (bit_vector);
    (val & 0xFFFF) as u16
}

/// What two words say of the lowest 32 bits of a value: they are exactly those bits.
pub proof fn words_make_the_value(val: int)
    ensures
        val % 0x1_0000_0000int == ((val / 0x1_0000) % 0x1_0000) * 0x1_0000 + val % 0x1_0000,
        high_word(val) * 0x1_0000 + low_word(val) == val % 0x1_0000_0000int,
        0 <= high_word(val) < 0x1_0000,
        0 <= low_word(val) < 0x1_0000,
{
}

} // verus!
