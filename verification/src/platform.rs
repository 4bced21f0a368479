//! Small facts about the platform.

use vstd::prelude::*;

verus! {

/// Whether a system version is that of Windows 7, which is 6.1.
#[inline]
pub fn is_windows_7(major: u32, minor: u32) -> (result: bool)
    ensures
        result == (major == 6 && minor == 1),
{
    major == 6 && minor == 1
}

/// A value that is handed to another thread on the word of whoever hands it over.
pub struct UnsafeSend<T>(T);

impl<T> UnsafeSend<T> {
    /// The value that is handed over.
    pub closed spec fn value(self) -> T {
        self.0
    }

    /// Wraps a value.
    pub fn new(value: T) -> (result: Self)
        ensures
            result.value() == value,
    {
        UnsafeSend(value)
    }

    /// Gives the value back.
    pub fn take(self) -> (result: T)
        ensures
            result == self.value(),
    {
        self.0
    }
}

} // verus!
