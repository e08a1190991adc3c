//! The register window: an owned, word-addressed region of 32-bit registers.
//!
//! [`DevMemIo`] is the window as this library sees it — a region of
//! `size / 4` words reached by index, read and written one whole word at a
//! time, exactly the accessor discipline a memory-mapped register block
//! demands. The unverified layer that maps the physical block keeps the same
//! discipline against live hardware, with every index computed here.
//!
//! [`IoError`] is the error surface of acquiring such a window from the
//! operating system: the device file would not open, or the mapping call was
//! rejected. Register reads and writes themselves cannot fail.

use vstd::prelude::*;

verus! {

/// Why a physical register window could not be acquired. Both variants carry
/// the underlying OS error code unmodified; neither is retried.
#[derive(Clone, Copy, Debug, PartialEq, Eq, Structural)]
pub enum IoError {
    /// The device file could not be opened (missing path, permissions).
    OpenFailure(i32),
    /// The OS rejected the mapping request (misalignment, privilege,
    /// resource exhaustion).
    MapFailure(i32),
}

impl IoError {
    /// The OS error code the failure carries.
    pub open spec fn spec_os_code(self) -> i32 {
        match self {
            IoError::OpenFailure(code) => code,
            IoError::MapFailure(code) => code,
        }
    }

    /// The OS error code as an executable value.
    pub fn os_code(self) -> (r: i32)
        ensures
            r == self.spec_os_code(),
    {
        match self {
            IoError::OpenFailure(code) => code,
            IoError::MapFailure(code) => code,
        }
    }
}

/// An owned window of 32-bit registers.
///
/// The window is a region of words reached by index; its contents are the
/// model of the hardware registers behind it. Ownership is exclusive and the
/// backing store is released exactly once, when the window is dropped —
/// Rust's ownership discipline makes a double release unrepresentable.
pub struct DevMemIo {
    words: Vec<u32>,
}

impl View for DevMemIo {
    type V = Seq<u32>;

    closed spec fn view(&self) -> Seq<u32> {
        self.words@
    }
}

impl DevMemIo {
    /// A fresh window of `size` bytes, every register zero. `size` must be a
    /// whole number of 32-bit words.
    pub fn new(size: usize) -> (w: DevMemIo)
        requires
            size % 4 == 0,
        ensures
            w@.len() == size / 4,
            forall|i: int| 0 <= i < w@.len() ==> w@[i] == 0u32,
    {
        let n: usize = size / 4;
        let mut words: Vec<u32> = Vec::new();
        let mut i: usize = 0;
        while i < n
            invariant
                i <= n,
                words@.len() == i,
                forall|j: int| 0 <= j < i ==> words@[j] == 0u32,
            decreases n - i,
        {
            words.push(0);
            i = i + 1;
        }
        DevMemIo { words }
    }

    /// How many 32-bit words the window holds.
    pub fn len_words(&self) -> (r: usize)
        ensures
            r == self@.len(),
    {
        self.words.len()
    }

    /// Load the word at `index`. On a live window this is the volatile load:
    /// it is issued exactly as written, because the register's value can
    /// change independent of the program.
    pub fn read_word(&self, index: usize) -> (r: u32)
        requires
            index < self@.len(),
        ensures
            r == self@[index as int],
    {
        self.words[index]
    }

    /// Store `value` to the word at `index`; the rest of the window is
    /// untouched. On a live window this is the volatile store.
    pub fn write_word(&mut self, index: usize, value: u32)
        requires
            index < old(self)@.len(),
        ensures
            final(self)@ == old(self)@.update(index as int, value),
    {
        self.words.set(index, value);
    }
}

} // verus!
