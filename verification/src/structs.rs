//! Plain data structures: geometry, version info, the wide-string buffer
//! model, and the parameter blocks of the list-view messages.
//!
//! A parameter block that the system fills through a pointer is modeled
//! here by value: what travels into the call is the block's contents (or,
//! for a bare output array, its capacity), never an address.

#![allow(non_camel_case_types)]

use vstd::prelude::*;
use vstd::string::StringSliceAdditionalSpecFns;

use crate::co::{LVBKIF, LVCF, LVFI, LVHT, LVIF, LVIM, LVIS};

verus! {

/// A rectangle, in device coordinates.
#[derive(Clone, Copy, PartialEq, Eq, Structural, Debug)]
pub struct RECT {
    pub left: i32,
    pub top: i32,
    pub right: i32,
    pub bottom: i32,
}

/// A point, in device coordinates.
#[derive(Clone, Copy, PartialEq, Eq, Structural, Debug)]
pub struct POINT {
    pub x: i32,
    pub y: i32,
}

impl POINT {
    /// Builds a point from its coordinates.
    pub fn new(x: i32, y: i32) -> (p: POINT)
        ensures
            p.x == x,
            p.y == y,
    {
        POINT { x, y }
    }
}

/// A size: width and height.
#[derive(Clone, Copy, PartialEq, Eq, Structural, Debug)]
pub struct SIZE {
    pub cx: i32,
    pub cy: i32,
}

impl SIZE {
    /// Builds a size from width and height.
    pub fn new(cx: i32, cy: i32) -> (s: SIZE)
        ensures
            s.cx == cx,
            s.cy == cy,
    {
        SIZE { cx, cy }
    }
}

/// A color value: red, green and blue packed in one doubleword.
#[derive(Clone, Copy, PartialEq, Eq, Structural, Debug)]
pub struct COLORREF(pub u32);

/// An atom returned by class registration.
#[derive(Clone, Copy, PartialEq, Eq, Structural, Debug)]
pub struct ATOM(pub u16);

//------------------------------------------------------------------------

/// The wide-string buffer: the text it holds, and the capacity of the
/// allocation, counted in code units of this model (one per byte of the
/// source text, plus the terminator).
#[derive(PartialEq, Eq, Debug)]
pub struct WString {
    text: String,
    buf: usize,
}

impl View for WString {
    type V = Seq<char>;

    closed spec fn view(&self) -> Seq<char> {
        self.text@
    }
}

impl WString {
    /// The capacity of the buffer, as a spec value.
    pub closed spec fn buf_spec(&self) -> usize {
        self.buf
    }

    /// Builds a buffer holding the given text.
    pub fn from_str(s: &str) -> (w: WString)
        requires
            s.spec_bytes().len() < usize::MAX,
        ensures
            w@ == s@,
            w.buf_spec() == s.spec_bytes().len() + 1,
    {
        let n = s.len();
        WString { text: String::from_str(s), buf: n + 1 }
    }

    /// Allocates an empty buffer of the given capacity.
    pub fn new_alloc_buffer(n: usize) -> (w: WString)
        ensures
            w@ == Seq::<char>::empty(),
            w.buf_spec() == n,
    {
        WString { text: String::new(), buf: n }
    }

    /// Returns the capacity of the buffer.
    pub fn buffer_size(&self) -> (n: usize)
        ensures
            n == self.buf_spec(),
    {
        self.buf
    }

    /// Returns the held text as an owned string.
    pub fn to_string(&self) -> (s: String)
        ensures
            s@ == self@,
    {
        self.text.clone()
    }
}

impl Clone for WString {
    /// Copies the text and the capacity.
    fn clone(&self) -> (c: Self)
        ensures
            c == *self,
    {
        WString { text: self.text.clone(), buf: self.buf }
    }
}

//------------------------------------------------------------------------

/// The parameter block of a non-client size calculation: the three
/// rectangles the protocol exchanges.
#[derive(Clone, Copy, PartialEq, Eq, Structural, Debug)]
pub struct NCCALCSIZE_PARAMS {
    pub rgrc0: RECT,
    pub rgrc1: RECT,
    pub rgrc2: RECT,
}

//------------------------------------------------------------------------

/// Version information of an operating system: the numeric fields of the
/// classic extended version block.
#[derive(Clone, Copy, PartialEq, Eq, Structural, Debug)]
pub struct OSVERSIONINFOEX {
    pub dwMajorVersion: u32,
    pub dwMinorVersion: u32,
    pub dwBuildNumber: u32,
    pub dwPlatformId: u32,
    pub wServicePackMajor: u16,
    pub wServicePackMinor: u16,
    pub wSuiteMask: u16,
    pub wProductType: u8,
}

impl Default for OSVERSIONINFOEX {
    /// All fields zero.
    fn default() -> (v: Self)
        ensures
            v == (OSVERSIONINFOEX {
                dwMajorVersion: 0,
                dwMinorVersion: 0,
                dwBuildNumber: 0,
                dwPlatformId: 0,
                wServicePackMajor: 0,
                wServicePackMinor: 0,
                wSuiteMask: 0,
                wProductType: 0,
            }),
    {
        OSVERSIONINFOEX {
            dwMajorVersion: 0,
            dwMinorVersion: 0,
            dwBuildNumber: 0,
            dwPlatformId: 0,
            wServicePackMajor: 0,
            wServicePackMinor: 0,
            wSuiteMask: 0,
            wProductType: 0,
        }
    }
}

//------------------------------------------------------------------------
// Parameter blocks of the list-view messages.

/// A column of a list view.
#[derive(PartialEq, Eq, Debug)]
pub struct LVCOLUMN {
    pub mask: LVCF,
    pub fmt: i32,
    pub cx: i32,
    pub text: String,
    pub i_subitem: i32,
    pub i_image: i32,
    pub i_order: i32,
}

impl Clone for LVCOLUMN {
    /// Copies every field.
    fn clone(&self) -> (c: Self)
        ensures
            c == *self,
    {
        LVCOLUMN {
            mask: self.mask,
            fmt: self.fmt,
            cx: self.cx,
            text: self.text.clone(),
            i_subitem: self.i_subitem,
            i_image: self.i_image,
            i_order: self.i_order,
        }
    }
}

/// An item of a list view.
#[derive(PartialEq, Eq, Debug)]
pub struct LVITEM {
    pub mask: LVIF,
    pub i_item: i32,
    pub i_subitem: i32,
    pub state: LVIS,
    pub state_mask: LVIS,
    pub text: String,
    pub i_image: i32,
    pub lparam: isize,
    pub i_indent: i32,
    pub i_group_id: i32,
}

impl Clone for LVITEM {
    /// Copies every field.
    fn clone(&self) -> (c: Self)
        ensures
            c == *self,
    {
        LVITEM {
            mask: self.mask,
            i_item: self.i_item,
            i_subitem: self.i_subitem,
            state: self.state,
            state_mask: self.state_mask,
            text: self.text.clone(),
            i_image: self.i_image,
            lparam: self.lparam,
            i_indent: self.i_indent,
            i_group_id: self.i_group_id,
        }
    }
}

/// An item index: item and group position.
#[derive(Clone, Copy, PartialEq, Eq, Structural, Debug)]
pub struct LVITEMINDEX {
    pub i_item: i32,
    pub i_group: i32,
}

/// Search description of a find-item request.
#[derive(PartialEq, Eq, Debug)]
pub struct LVFINDINFO {
    pub flags: LVFI,
    pub text: String,
    pub lparam: isize,
    pub pt: POINT,
    pub vk_direction: u32,
}

impl Clone for LVFINDINFO {
    /// Copies every field.
    fn clone(&self) -> (c: Self)
        ensures
            c == *self,
    {
        LVFINDINFO {
            flags: self.flags,
            text: self.text.clone(),
            lparam: self.lparam,
            pt: self.pt,
            vk_direction: self.vk_direction,
        }
    }
}

/// Position and outcome of a hit test.
#[derive(Clone, Copy, PartialEq, Eq, Structural, Debug)]
pub struct LVHITTESTINFO {
    pub pt: POINT,
    pub flags: LVHT,
    pub i_item: i32,
    pub i_subitem: i32,
    pub i_group: i32,
}

/// The background image of a list view.
#[derive(PartialEq, Eq, Debug)]
pub struct LVBKIMAGE {
    pub flags: LVBKIF,
    pub image: String,
    pub x_offset_percent: i32,
    pub y_offset_percent: i32,
}

impl Clone for LVBKIMAGE {
    /// Copies every field.
    fn clone(&self) -> (c: Self)
        ensures
            c == *self,
    {
        LVBKIMAGE {
            flags: self.flags,
            image: self.image.clone(),
            x_offset_percent: self.x_offset_percent,
            y_offset_percent: self.y_offset_percent,
        }
    }
}

/// An insertion mark of a list view.
#[derive(Clone, Copy, PartialEq, Eq, Structural, Debug)]
pub struct LVINSERTMARK {
    pub flags: LVIM,
    pub i_item: i32,
}

/// Tile description of one item: the item, and the capacity of the
/// column array the system is to fill.
#[derive(Clone, Copy, PartialEq, Eq, Structural, Debug)]
pub struct LVTILEINFO {
    pub i_item: i32,
    pub c_columns: u32,
}

/// Tile-view description of the whole control.
#[derive(Clone, Copy, PartialEq, Eq, Structural, Debug)]
pub struct LVTILEVIEWINFO {
    pub mask: u32,
    pub flags: u32,
    pub size_tile: SIZE,
    pub c_lines: i32,
    pub rc_label_margin: RECT,
}

/// A group of a list view.
#[derive(PartialEq, Eq, Debug)]
pub struct LVGROUP {
    pub mask: u32,
    pub header: String,
    pub footer: String,
    pub group_id: i32,
    pub state_mask: u32,
    pub state: u32,
    pub align: u32,
}

impl Clone for LVGROUP {
    /// Copies every field.
    fn clone(&self) -> (c: Self)
        ensures
            c == *self,
    {
        LVGROUP {
            mask: self.mask,
            header: self.header.clone(),
            footer: self.footer.clone(),
            group_id: self.group_id,
            state_mask: self.state_mask,
            state: self.state,
            align: self.align,
        }
    }
}

/// Group display metrics.
#[derive(Clone, Copy, PartialEq, Eq, Structural, Debug)]
pub struct LVGROUPMETRICS {
    pub mask: u32,
    pub left: u32,
    pub top: u32,
    pub right: u32,
    pub bottom: u32,
}

/// Footer description of a list view: the fields the system fills, with
/// the capacity of its text buffer.
#[derive(Clone, Copy, PartialEq, Eq, Structural, Debug)]
pub struct LVFOOTERINFO {
    pub mask: u32,
    pub text_buf: usize,
    pub items: u32,
}

/// One footer item, with the capacity of its text buffer.
#[derive(Clone, Copy, PartialEq, Eq, Structural, Debug)]
pub struct LVFOOTERITEM {
    pub mask: u32,
    pub i_item: i32,
    pub text_buf: usize,
    pub state: u32,
    pub state_mask: u32,
}

} // verus!
