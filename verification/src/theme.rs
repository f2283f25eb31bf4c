//! DPI scaling.

use vstd::prelude::*;

verus! {

/// Scale a logical pixel value by the given DPI (96 DPI = 100%), computing
/// `(logical_px as u32 * dpi / 96) as i32` as the toolbar always has.
pub fn scale(logical_px: i32, dpi: u32) -> (r: i32)
    requires
        (logical_px as u32) * dpi <= u32::MAX,
    ensures
        r == (((logical_px as u32) * dpi / 96) as u32) as i32,
        0 <= logical_px && logical_px * dpi / 96 <= i32::MAX ==> r == logical_px * dpi / 96,
{
    let p: u32 = logical_px as u32;
    let v: u32 = p * dpi / 96;
    v as i32
}

/// The DPI of a window: what `GetDpiForWindow` reported, or 96 when it
/// reported 0 (the call failed).
pub fn dpi_or_default(reported: u32) -> (r: u32)
    ensures
        r == (if reported == 0 { 96 } else { reported }),
{
    if reported == 0 {
        96
    } else {
        reported
    }
}

/// Dark mode is on when the `AppsUseLightTheme` value could be read and is 0.
pub fn dark_mode_from_registry(read_ok: bool, apps_use_light_theme: u32) -> (r: bool)
    ensures
        r == (read_ok && apps_use_light_theme == 0),
{
    read_ok && apps_use_light_theme == 0
}

} // verus!
