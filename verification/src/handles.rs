//! Handle types: opaque machine words naming objects that the system owns.
//! A handle is never dereferenced here; it is carried and compared only.

use vstd::prelude::*;

verus! {

/// Handle to a window.
#[derive(Clone, Copy, PartialEq, Eq, Structural, Debug)]
pub struct HWND(pub usize);

impl HWND {
    /// The null window handle.
    pub fn null_handle() -> (h: HWND)
        ensures
            h.0 == 0,
    {
        HWND(0)
    }
}

/// Handle to an image list.
#[derive(Clone, Copy, PartialEq, Eq, Structural, Debug)]
pub struct HIMAGELIST(pub usize);

/// Handle to a cursor.
#[derive(Clone, Copy, PartialEq, Eq, Structural, Debug)]
pub struct HCURSOR(pub usize);

/// Handle to a bitmap.
#[derive(Clone, Copy, PartialEq, Eq, Structural, Debug)]
pub struct HBITMAP(pub usize);

/// Handle to an icon.
#[derive(Clone, Copy, PartialEq, Eq, Structural, Debug)]
pub struct HICON(pub usize);

/// Handle to a menu.
#[derive(Clone, Copy, PartialEq, Eq, Structural, Debug)]
pub struct HMENU(pub usize);

/// Handle to a font object.
#[derive(Clone, Copy, PartialEq, Eq, Structural, Debug)]
pub struct HFONT(pub usize);

} // verus!
