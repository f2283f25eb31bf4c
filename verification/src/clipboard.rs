//! The clipboard text format: `CF_UNICODETEXT` is a zero-terminated
//! UTF-16 string in a movable global memory block of exactly its size.

use vstd::prelude::*;
use crate::dialog_nav::{utf16_units, wide_null};

verus! {

/// The clipboard backed by the Win32 clipboard API.
#[derive(Debug, Clone, Copy, Default)]
pub struct Win32Clipboard;

impl Win32Clipboard {
    pub fn new() -> (r: Win32Clipboard)
        ensures
            r == Win32Clipboard,
    {
        Win32Clipboard
    }
}

/// The units to copy for `text` and the byte size of the block that holds
/// them.
pub fn clipboard_payload(text: &str) -> (r: (Vec<u16>, usize))
    requires
        2 * (utf16_units(text@).len() + 1) <= usize::MAX,
    ensures
        r.0@ == utf16_units(text@).push(0u16),
        r.1 == 2 * r.0@.len(),
{
    let wide = wide_null(text);
    let bytes = wide.len() * 2;
    (wide, bytes)
}

} // verus!
