//! Placement of the main window on the desktop.

use vstd::prelude::*;

verus! {

/// Smallest coordinate accepted for a stored window position.
pub const MIN_COORDINATE: i32 = -10000;

/// Largest coordinate accepted for a stored window position.
pub const MAX_COORDINATE: i32 = 10000;

/// A request to move the window to the logical coordinates `(x, y)`.
#[derive(Debug, Clone, Copy, PartialEq, Eq)]
pub struct WindowPositionUpdate {
    pub x: i32,
    pub y: i32,
}

/// Whether a coordinate lies within the accepted range, bounds included.
pub open spec fn coordinate_in_range(v: int) -> bool {
    MIN_COORDINATE <= v <= MAX_COORDINATE
}

/// Whether `(x, y)` is a position the window may be stored at.
pub open spec fn position_valid(x: int, y: int) -> bool {
    coordinate_in_range(x) && coordinate_in_range(y)
}

/// Checks a window position. Negative coordinates are accepted, since a
/// desktop spanning several monitors has them, but both coordinates must
/// stay within ten thousand of the origin.
pub fn is_position_valid(x: i32, y: i32) -> (ok: bool)
    ensures
        ok == position_valid(x as int, y as int),
{
    MIN_COORDINATE <= x && x <= MAX_COORDINATE && MIN_COORDINATE <= y && y <= MAX_COORDINATE
}

/// The window position kept in the configuration; absent until the
/// window was placed once.
#[derive(Debug, Clone, Copy, PartialEq, Eq)]
pub struct SavedPosition {
    pub position_x: Option<i32>,
    pub position_y: Option<i32>,
}

/// Takes a request to move the window. A valid position is stored and
/// `true` is returned; an invalid one is refused, and what was stored
/// stays.
pub fn store_position(saved: &mut SavedPosition, update: &WindowPositionUpdate) -> (stored: bool)
    ensures
        stored == position_valid(update.x as int, update.y as int),
        stored ==> *final(saved) == (SavedPosition {
            position_x: Some(update.x),
            position_y: Some(update.y),
        }),
        !stored ==> *final(saved) == *old(saved),
{
    if is_position_valid(update.x, update.y) {
        saved.position_x = Some(update.x);
        saved.position_y = Some(update.y);
        true
    } else {
        false
    }
}

/// The limits within which the window may be resized. The library does
/// no arithmetic on sizes, so it leaves the type of a length to the
/// caller.
#[derive(Debug, Clone, Copy, PartialEq)]
pub struct SizeLimits<T> {
    pub min_width: T,
    pub min_height: T,
    pub max_width: T,
    pub max_height: T,
    pub auto_resize: bool,
}

/// The limits for a window of the size `width` by `height`. A window of
/// fixed size has that size as its smallest and as its largest, and does
/// not resize itself; any other window has the limits `free`.
pub open spec fn limits_model<T>(fixed: bool, width: T, height: T, free: SizeLimits<T>) -> SizeLimits<
    T,
> {
    if fixed {
        SizeLimits {
            min_width: width,
            min_height: height,
            max_width: width,
            max_height: height,
            auto_resize: false,
        }
    } else {
        free
    }
}

/// Chooses the limits for a window of the size `width` by `height`.
pub fn limits_for_mode<T: Copy>(fixed: bool, width: T, height: T, free: SizeLimits<T>) -> (limits:
    SizeLimits<T>)
    ensures
        limits == limits_model(fixed, width, height, free),
{
    if fixed {
        SizeLimits {
            min_width: width,
            min_height: height,
            max_width: width,
            max_height: height,
            auto_resize: false,
        }
    } else {
        free
    }
}

} // verus!
