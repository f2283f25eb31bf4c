//! Reading the first file name out of a `CF_HDROP` payload.
//!
//! The payload is a `DROPFILES` header followed by a list of file names:
//! bytes 0..4 hold `pFiles`, the little-endian offset of the first name,
//! and byte 16 the low byte of `fWide` (non-zero means UTF-16 names).
//! Each name is terminated by a zero character. The application locks
//! the global memory block and hands its bytes to `first_dropped_name`; a
//! UTF-16 name is decoded here, an ANSI name comes back as its bytes, which
//! the application decodes with the system code page.

use vstd::prelude::*;
use crate::text::{string_from_utf16_lossy, utf16_lossy};

verus! {

/// Offset of the `fWide` flag in the `DROPFILES` header.
pub const F_WIDE_OFFSET: usize = 16;

pub open spec fn le_u32(b: Seq<u8>) -> int {
    b[0] as int + 256 * (b[1] as int) + 65536 * (b[2] as int) + 16777216 * (b[3] as int)
}

pub open spec fn wide_unit(b: Seq<u8>, off: int) -> u16 {
    (b[off] as int + 256 * (b[off + 1] as int)) as u16
}

/// Number of non-zero UTF-16 units from `off` up to the terminating zero
/// unit; `None` when the buffer ends first.
pub open spec fn wide_len_from(b: Seq<u8>, off: int) -> Option<nat>
    decreases b.len() - off,
{
    if off < 0 || off + 2 > b.len() {
        None
    } else if wide_unit(b, off) == 0 {
        Some(0)
    } else {
        match wide_len_from(b, off + 2) {
            Some(n) => Some(n + 1),
            None => None,
        }
    }
}

/// Number of non-zero bytes from `off` up to the terminating zero byte;
/// `None` when the buffer ends first.
pub open spec fn ansi_len_from(b: Seq<u8>, off: int) -> Option<nat>
    decreases b.len() - off,
{
    if off < 0 || off + 1 > b.len() {
        None
    } else if b[off] == 0 {
        Some(0)
    } else {
        match ansi_len_from(b, off + 1) {
            Some(n) => Some(n + 1),
            None => None,
        }
    }
}

pub open spec fn wide_units(b: Seq<u8>, off: int, n: nat) -> Seq<u16> {
    Seq::new(n, |i: int| wide_unit(b, off + 2 * i))
}

/// The first file name of a `DROPFILES` block: decoded text for UTF-16
/// names, the raw bytes (without the terminator) for ANSI names.
#[derive(Debug, PartialEq, Eq)]
pub enum DroppedName {
    Wide(String),
    Ansi(Vec<u8>),
}

/// Whether `r` is what the first file name of the block `b` gives: `None`
/// when the header or the name does not fit in `b`, or the name is empty.
pub open spec fn first_dropped_ok(b: Seq<u8>, r: Option<DroppedName>) -> bool {
    if b.len() < 17 {
        r is None
    } else {
        let p = le_u32(b);
        if b[16] != 0 {
            match wide_len_from(b, p) {
                Some(n) => if n == 0 {
                    r is None
                } else {
                    r matches Some(DroppedName::Wide(s)) && s@ == utf16_lossy(wide_units(b, p, n))
                },
                None => r is None,
            }
        } else {
            match ansi_len_from(b, p) {
                Some(n) => if n == 0 {
                    r is None
                } else {
                    r matches Some(DroppedName::Ansi(v)) && v@ == b.subrange(p, p + n)
                },
                None => r is None,
            }
        }
    }
}

/// Reads the first file name from the bytes of a `DROPFILES` block.
pub fn first_dropped_name(b: &[u8]) -> (r: Option<DroppedName>)
    ensures
        first_dropped_ok(b@, r),
{
    let len = b.len();
    if len < 17 {
        return None;
    }
    let p32: u32 = b[0] as u32 + 256 * (b[1] as u32) + 65536 * (b[2] as u32) + 16777216 * (
    b[3] as u32);
    assert(p32 == le_u32(b@));
    let p: usize = p32 as usize;
    if b[F_WIDE_OFFSET] != 0 {
        let mut units: Vec<u16> = Vec::new();
        let mut off: usize = p;
        loop
            invariant
                len == b@.len(),
                len >= 17,
                b@[16] != 0,
                p == le_u32(b@),
                off == p + 2 * units@.len(),
                wide_len_from(b@, p as int) == match wide_len_from(b@, off as int) {
                    Some(m) => Some((m + units@.len()) as nat),
                    None => None,
                },
                units@ == wide_units(b@, p as int, units@.len()),
            decreases len - off,
        {
            if off > len || len - off < 2 {
                return None;
            }
            let u: u16 = (b[off] as u32 + 256 * (b[off + 1] as u32)) as u16;
            assert(u == wide_unit(b@, off as int));
            if u == 0 {
                if units.len() == 0 {
                    return None;
                }
                assert(wide_len_from(b@, p as int) == Some(units@.len()));
                return Some(DroppedName::Wide(string_from_utf16_lossy(units.as_slice())));
            }
            units.push(u);
            assert(units@ =~= wide_units(b@, p as int, units@.len()));
            off = off + 2;
        }
    } else {
        if p > len {
            return None;
        }
        let mut v: Vec<u8> = Vec::new();
        let mut off: usize = p;
        assert(b@.subrange(p as int, p as int) =~= v@);
        let ghost mut n: nat = 0;
        loop
            invariant
                len == b@.len(),
                len >= 17,
                b@[16] == 0,
                p == le_u32(b@),
                off == p + n,
                off <= len,
                ansi_len_from(b@, p as int) == match ansi_len_from(b@, off as int) {
                    Some(m) => Some((m + n) as nat),
                    None => None,
                },
                v@ == b@.subrange(p as int, off as int),
            decreases len - off,
        {
            if off >= len {
                return None;
            }
            let c = b[off];
            if c == 0 {
                if off == p {
                    return None;
                }
                assert(ansi_len_from(b@, p as int) == Some(n));
                return Some(DroppedName::Ansi(v));
            }
            v.push(c);
            assert(b@.subrange(p as int, off + 1) =~= b@.subrange(p as int, off as int).push(c));
            off = off + 1;
            proof {
                n = n + 1;
            }
        }
    }
}

} // verus!
