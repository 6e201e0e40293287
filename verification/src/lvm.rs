//! List-view control messages: one builder per message, each encoding its
//! parameters into the generic message form and decoding the result word.

use vstd::prelude::*;

use crate::co;
use crate::co::ERROR;
use crate::handles::{HCURSOR, HIMAGELIST, HWND};
use crate::msg::{WmArg, WndMsg, zero_as_err, zero_as_none};
use crate::structs::{
    COLORREF, LVBKIMAGE, LVCOLUMN, LVFINDINFO, LVFOOTERINFO, LVFOOTERITEM, LVGROUP,
    LVGROUPMETRICS, LVHITTESTINFO, LVINSERTMARK, LVITEM, LVITEMINDEX, LVTILEINFO, LVTILEVIEWINFO,
    POINT, RECT, SIZE, WString,
};

verus! {

/// Approximates the width and height required to display a given number
/// of items. The result word packs the size in its two halves.
pub struct ApproximateViewRect {
    pub num_items: Option<u32>,
    pub proposed_x: Option<u16>,
    pub proposed_y: Option<u16>,
}

impl ApproximateViewRect {
    /// Splits the result word into width (low half) and height (high half).
    pub fn convert_ret(&self, v: isize) -> (r: SIZE)
        ensures
            r.cx == (v as u32) % 0x1_0000,
            r.cy == (v as u32) / 0x1_0000,
    {
        let w = #[verifier::truncate] (v as u32);
        let lo = crate::funcs::LOWORD(w);
        let hi = crate::funcs::HIWORD(w);
        SIZE::new(lo as i32, hi as i32)
    }

    /// Encodes the item count (absent: minus one) and the proposed
    /// coordinates packed into one doubleword (absent: all bits set).
    pub fn as_generic_wm(&mut self) -> (m: WndMsg)
        ensures
            *final(self) == *old(self),
            m.msg_id == co::LVM_APPROXIMATEVIEWRECT,
            (match old(self).num_items {
                Some(n) => m.wparam == WmArg::Num((n as i32) as isize),
                None => m.wparam == WmArg::Num(-1isize),
            }),
            (match (old(self).proposed_x, old(self).proposed_y) {
                (Some(x), Some(y)) => m.lparam == WmArg::Num((x + y * 0x1_0000) as isize),
                (Some(x), None) => m.lparam == WmArg::Num((x + 0xffff * 0x1_0000) as isize),
                (None, Some(y)) => m.lparam == WmArg::Num((0xffff + y * 0x1_0000) as isize),
                (None, None) => m.lparam == WmArg::Num((0xffff_ffff) as isize),
            }),
    {
        let wp: isize = match self.num_items {
            Some(n) => {
                let t = #[verifier::truncate] (n as i32);
                t as isize
            },
            None => -1,
        };
        let px: u16 = match self.proposed_x {
            Some(x) => x,
            None => 0xffff,
        };
        let py: u16 = match self.proposed_y {
            Some(y) => y,
            None => 0xffff,
        };
        let packed = crate::funcs::MAKEDWORD(px, py);
        WndMsg {
            msg_id: co::LVM_APPROXIMATEVIEWRECT,
            wparam: WmArg::Num(wp),
            lparam: WmArg::Num(packed as isize),
        }
    }
}

/// Arranges the items in icon view.
pub struct Arrange {
    pub arrangement: co::LVA,
}

impl Arrange {
    /// Zero means failure; anything else is success.
    pub fn convert_ret(&self, v: isize) -> (r: Result<(), ERROR>)
        ensures
            v == 0 ==> r == Result::<(), ERROR>::Err(ERROR(co::ERROR_BAD_ARGUMENTS)),
            v != 0 ==> r == Result::<(), ERROR>::Ok(()),
    {
        match zero_as_err(v) {
            Ok(_) => Ok(()),
            Err(e) => Err(e),
        }
    }

    /// Encodes the arrangement code.
    pub fn as_generic_wm(&mut self) -> (m: WndMsg)
        ensures
            *final(self) == *old(self),
            m == (WndMsg {
                msg_id: co::LVM_ARRANGE,
                wparam: WmArg::Num(old(self).arrangement.0 as isize),
                lparam: WmArg::Num(0),
            }),
    {
        WndMsg {
            msg_id: co::LVM_ARRANGE,
            wparam: WmArg::Num(self.arrangement.0 as isize),
            lparam: WmArg::Num(0),
        }
    }
}

/// Cancels an in-place label edit.
pub struct CancelEditLabel {}

impl CancelEditLabel {
    /// The result word carries nothing.
    pub fn convert_ret(&self, _v: isize) -> (r: ()) {
    }

    /// Carries no parameters.
    pub fn as_generic_wm(&mut self) -> (m: WndMsg)
        ensures
            *final(self) == *old(self),
            m == (WndMsg {
                msg_id: co::LVM_CANCELEDITLABEL,
                wparam: WmArg::Num(0),
                lparam: WmArg::Num(0),
            }),
    {
        WndMsg {
            msg_id: co::LVM_CANCELEDITLABEL,
            wparam: WmArg::Num(0),
            lparam: WmArg::Num(0),
        }
    }
}

/// Creates a drag image for an item; the system reports the image's
/// location in the rectangle block.
pub struct CreateDragImage {
    pub index: u32,
    pub img_location: RECT,
}

impl CreateDragImage {
    /// Zero means failure; anything else is the image-list handle.
    pub fn convert_ret(&self, v: isize) -> (r: Result<HIMAGELIST, ERROR>)
        ensures
            v == 0 ==> r == Result::<HIMAGELIST, ERROR>::Err(ERROR(co::ERROR_BAD_ARGUMENTS)),
            v != 0 ==> r == Result::<HIMAGELIST, ERROR>::Ok(HIMAGELIST(v as usize)),
    {
        match zero_as_err(v) {
            Ok(h) => Ok(HIMAGELIST(#[verifier::truncate] (h as usize))),
            Err(e) => Err(e),
        }
    }

    /// Encodes the item index and the rectangle block.
    pub fn as_generic_wm(&mut self) -> (m: WndMsg)
        ensures
            *final(self) == *old(self),
            m == (WndMsg {
                msg_id: co::LVM_CREATEDRAGIMAGE,
                wparam: WmArg::Num(old(self).index as isize),
                lparam: WmArg::RectBuf(old(self).img_location),
            }),
    {
        WndMsg {
            msg_id: co::LVM_CREATEDRAGIMAGE,
            wparam: WmArg::Num(self.index as isize),
            lparam: WmArg::RectBuf(self.img_location),
        }
    }
}

/// Deletes all items.
pub struct DeleteAllItems {}

impl DeleteAllItems {
    /// Zero means failure; anything else is success.
    pub fn convert_ret(&self, v: isize) -> (r: Result<(), ERROR>)
        ensures
            v == 0 ==> r == Result::<(), ERROR>::Err(ERROR(co::ERROR_BAD_ARGUMENTS)),
            v != 0 ==> r == Result::<(), ERROR>::Ok(()),
    {
        match zero_as_err(v) {
            Ok(_) => Ok(()),
            Err(e) => Err(e),
        }
    }

    /// Carries no parameters.
    pub fn as_generic_wm(&mut self) -> (m: WndMsg)
        ensures
            *final(self) == *old(self),
            m == (WndMsg {
                msg_id: co::LVM_DELETEALLITEMS,
                wparam: WmArg::Num(0),
                lparam: WmArg::Num(0),
            }),
    {
        WndMsg {
            msg_id: co::LVM_DELETEALLITEMS,
            wparam: WmArg::Num(0),
            lparam: WmArg::Num(0),
        }
    }
}

/// Deletes one column.
pub struct DeleteColumn {
    pub index: u32,
}

impl DeleteColumn {
    /// Zero means failure; anything else is success.
    pub fn convert_ret(&self, v: isize) -> (r: Result<(), ERROR>)
        ensures
            v == 0 ==> r == Result::<(), ERROR>::Err(ERROR(co::ERROR_BAD_ARGUMENTS)),
            v != 0 ==> r == Result::<(), ERROR>::Ok(()),
    {
        match zero_as_err(v) {
            Ok(_) => Ok(()),
            Err(e) => Err(e),
        }
    }

    /// Encodes the column index.
    pub fn as_generic_wm(&mut self) -> (m: WndMsg)
        ensures
            *final(self) == *old(self),
            m == (WndMsg {
                msg_id: co::LVM_DELETECOLUMN,
                wparam: WmArg::Num(old(self).index as isize),
                lparam: WmArg::Num(0),
            }),
    {
        WndMsg {
            msg_id: co::LVM_DELETECOLUMN,
            wparam: WmArg::Num(self.index as isize),
            lparam: WmArg::Num(0),
        }
    }
}

/// Deletes one item.
pub struct DeleteItem {
    pub index: u32,
}

impl DeleteItem {
    /// Zero means failure; anything else is success.
    pub fn convert_ret(&self, v: isize) -> (r: Result<(), ERROR>)
        ensures
            v == 0 ==> r == Result::<(), ERROR>::Err(ERROR(co::ERROR_BAD_ARGUMENTS)),
            v != 0 ==> r == Result::<(), ERROR>::Ok(()),
    {
        match zero_as_err(v) {
            Ok(_) => Ok(()),
            Err(e) => Err(e),
        }
    }

    /// Encodes the item index.
    pub fn as_generic_wm(&mut self) -> (m: WndMsg)
        ensures
            *final(self) == *old(self),
            m == (WndMsg {
                msg_id: co::LVM_DELETEITEM,
                wparam: WmArg::Num(old(self).index as isize),
                lparam: WmArg::Num(0),
            }),
    {
        WndMsg {
            msg_id: co::LVM_DELETEITEM,
            wparam: WmArg::Num(self.index as isize),
            lparam: WmArg::Num(0),
        }
    }
}

/// Begins an in-place edit of an item's label; absent index cancels.
pub struct EditLabel {
    pub index: Option<u32>,
}

impl EditLabel {
    /// Zero means failure; anything else is the edit control's handle.
    pub fn convert_ret(&self, v: isize) -> (r: Result<HWND, ERROR>)
        ensures
            v == 0 ==> r == Result::<HWND, ERROR>::Err(ERROR(co::ERROR_BAD_ARGUMENTS)),
            v != 0 ==> r == Result::<HWND, ERROR>::Ok(HWND(v as usize)),
    {
        match zero_as_err(v) {
            Ok(h) => Ok(HWND(#[verifier::truncate] (h as usize))),
            Err(e) => Err(e),
        }
    }

    /// Encodes the item index, minus one when absent.
    pub fn as_generic_wm(&mut self) -> (m: WndMsg)
        ensures
            *final(self) == *old(self),
            m.msg_id == co::LVM_EDITLABEL,
            (match old(self).index {
                Some(i) => m.wparam == WmArg::Num((i as i32) as isize),
                None => m.wparam == WmArg::Num(-1isize),
            }),
            m.lparam == WmArg::Num(0),
    {
        let wp: isize = match self.index {
            Some(i) => {
                let t = #[verifier::truncate] (i as i32);
                t as isize
            },
            None => -1,
        };
        WndMsg {
            msg_id: co::LVM_EDITLABEL,
            wparam: WmArg::Num(wp),
            lparam: WmArg::Num(0),
        }
    }
}

/// Turns group view on or off.
pub struct EnableGroupView {
    pub enable: bool,
}

impl EnableGroupView {
    /// Minus one means failure; zero means the view was unchanged, anything
    /// else that it changed.
    pub fn convert_ret(&self, v: isize) -> (r: Result<bool, ERROR>)
        ensures
            v == -1 ==> r == Result::<bool, ERROR>::Err(ERROR(co::ERROR_BAD_ARGUMENTS)),
            v != -1 ==> r == Result::<bool, ERROR>::Ok(v != 0),
    {
        if v == -1 {
            Err(ERROR(co::ERROR_BAD_ARGUMENTS))
        } else {
            Ok(v != 0)
        }
    }

    /// Encodes the switch.
    pub fn as_generic_wm(&mut self) -> (m: WndMsg)
        ensures
            *final(self) == *old(self),
            m == (WndMsg {
                msg_id: co::LVM_ENABLEGROUPVIEW,
                wparam: WmArg::Num(if old(self).enable { 1isize } else { 0isize }),
                lparam: WmArg::Num(0),
            }),
    {
        WndMsg {
            msg_id: co::LVM_ENABLEGROUPVIEW,
            wparam: WmArg::Num(if self.enable { 1 } else { 0 }),
            lparam: WmArg::Num(0),
        }
    }
}

/// Scrolls an item into view.
pub struct EnsureVisible {
    pub index: u32,
    pub entirely_visible: bool,
}

impl EnsureVisible {
    /// Zero means failure; anything else is success.
    pub fn convert_ret(&self, v: isize) -> (r: Result<(), ERROR>)
        ensures
            v == 0 ==> r == Result::<(), ERROR>::Err(ERROR(co::ERROR_BAD_ARGUMENTS)),
            v != 0 ==> r == Result::<(), ERROR>::Ok(()),
    {
        match zero_as_err(v) {
            Ok(_) => Ok(()),
            Err(e) => Err(e),
        }
    }

    /// Encodes the item index, and whether partial visibility suffices.
    pub fn as_generic_wm(&mut self) -> (m: WndMsg)
        ensures
            *final(self) == *old(self),
            m == (WndMsg {
                msg_id: co::LVM_ENSUREVISIBLE,
                wparam: WmArg::Num(old(self).index as isize),
                lparam: WmArg::Num(if old(self).entirely_visible { 0isize } else { 1isize }),
            }),
    {
        WndMsg {
            msg_id: co::LVM_ENSUREVISIBLE,
            wparam: WmArg::Num(self.index as isize),
            lparam: WmArg::Num(if self.entirely_visible { 0 } else { 1 }),
        }
    }
}

/// Searches for an item matching a description.
pub struct FindItem {
    pub start_index: Option<u32>,
    pub lvfindinfo: LVFINDINFO,
}

impl FindItem {
    /// Minus one means no match; anything else is the found index.
    pub fn convert_ret(&self, v: isize) -> (r: Option<u32>)
        ensures
            v == -1 ==> r == Option::<u32>::None,
            v != -1 ==> r == Option::<u32>::Some(v as u32),
    {
        if v == -1 {
            None
        } else {
            Some(#[verifier::truncate] (v as u32))
        }
    }

    /// Encodes the start index (absent: minus one) and the search block.
    pub fn as_generic_wm(&mut self) -> (m: WndMsg)
        ensures
            *final(self) == *old(self),
            m.msg_id == co::LVM_FINDITEM,
            (match old(self).start_index {
                Some(i) => m.wparam == WmArg::Num((i as i32) as isize),
                None => m.wparam == WmArg::Num(-1isize),
            }),
            m.lparam == WmArg::FindInfoBuf(old(self).lvfindinfo),
    {
        let wp: isize = match self.start_index {
            Some(i) => {
                let t = #[verifier::truncate] (i as i32);
                t as isize
            },
            None => -1,
        };
        WndMsg {
            msg_id: co::LVM_FINDITEM,
            wparam: WmArg::Num(wp),
            lparam: WmArg::FindInfoBuf(self.lvfindinfo.clone()),
        }
    }
}

/// Reads the background color.
pub struct GetBkColor {}

impl GetBkColor {
    /// The result word is the color value.
    pub fn convert_ret(&self, v: isize) -> (r: COLORREF)
        ensures
            r == COLORREF(v as u32),
    {
        COLORREF(#[verifier::truncate] (v as u32))
    }

    /// Carries no parameters.
    pub fn as_generic_wm(&mut self) -> (m: WndMsg)
        ensures
            *final(self) == *old(self),
            m == (WndMsg {
                msg_id: co::LVM_GETBKCOLOR,
                wparam: WmArg::Num(0),
                lparam: WmArg::Num(0),
            }),
    {
        WndMsg {
            msg_id: co::LVM_GETBKCOLOR,
            wparam: WmArg::Num(0),
            lparam: WmArg::Num(0),
        }
    }
}

/// Reads the background image description.
pub struct GetBkImage {
    pub lvbkimage: LVBKIMAGE,
}

impl GetBkImage {
    /// Zero means failure; anything else is success.
    pub fn convert_ret(&self, v: isize) -> (r: Result<(), ERROR>)
        ensures
            v == 0 ==> r == Result::<(), ERROR>::Err(ERROR(co::ERROR_BAD_ARGUMENTS)),
            v != 0 ==> r == Result::<(), ERROR>::Ok(()),
    {
        match zero_as_err(v) {
            Ok(_) => Ok(()),
            Err(e) => Err(e),
        }
    }

    /// Encodes the image block.
    pub fn as_generic_wm(&mut self) -> (m: WndMsg)
        ensures
            *final(self) == *old(self),
            m.msg_id == co::LVM_GETBKIMAGE,
            m.wparam == WmArg::Num(0),
            m.lparam == WmArg::BkImageBuf(old(self).lvbkimage),
    {
        WndMsg {
            msg_id: co::LVM_GETBKIMAGE,
            wparam: WmArg::Num(0),
            lparam: WmArg::BkImageBuf(self.lvbkimage.clone()),
        }
    }
}

/// Reads the callback mask.
pub struct GetCallbackMask {}

impl GetCallbackMask {
    /// The result word is the state mask.
    pub fn convert_ret(&self, v: isize) -> (r: co::LVIS)
        ensures
            r == co::LVIS(v as u32),
    {
        co::LVIS(#[verifier::truncate] (v as u32))
    }

    /// Carries no parameters.
    pub fn as_generic_wm(&mut self) -> (m: WndMsg)
        ensures
            *final(self) == *old(self),
            m == (WndMsg {
                msg_id: co::LVM_GETCALLBACKMASK,
                wparam: WmArg::Num(0),
                lparam: WmArg::Num(0),
            }),
    {
        WndMsg {
            msg_id: co::LVM_GETCALLBACKMASK,
            wparam: WmArg::Num(0),
            lparam: WmArg::Num(0),
        }
    }
}

/// Reads one column's description.
pub struct GetColumn {
    pub index: u32,
    pub lvcolumn: LVCOLUMN,
}

impl GetColumn {
    /// Zero means failure; anything else is success.
    pub fn convert_ret(&self, v: isize) -> (r: Result<(), ERROR>)
        ensures
            v == 0 ==> r == Result::<(), ERROR>::Err(ERROR(co::ERROR_BAD_ARGUMENTS)),
            v != 0 ==> r == Result::<(), ERROR>::Ok(()),
    {
        match zero_as_err(v) {
            Ok(_) => Ok(()),
            Err(e) => Err(e),
        }
    }

    /// Encodes the column index and the column block.
    pub fn as_generic_wm(&mut self) -> (m: WndMsg)
        ensures
            *final(self) == *old(self),
            m.msg_id == co::LVM_GETCOLUMN,
            m.wparam == WmArg::Num(old(self).index as isize),
            m.lparam == WmArg::ColumnBuf(old(self).lvcolumn),
    {
        WndMsg {
            msg_id: co::LVM_GETCOLUMN,
            wparam: WmArg::Num(self.index as isize),
            lparam: WmArg::ColumnBuf(self.lvcolumn.clone()),
        }
    }
}

/// Reads the left-to-right order of the columns.
pub struct GetColumnOrderArray {
    pub indexes: Vec<u32>,
}

impl GetColumnOrderArray {
    /// Zero means failure; anything else is success.
    pub fn convert_ret(&self, v: isize) -> (r: Result<(), ERROR>)
        ensures
            v == 0 ==> r == Result::<(), ERROR>::Err(ERROR(co::ERROR_BAD_ARGUMENTS)),
            v != 0 ==> r == Result::<(), ERROR>::Ok(()),
    {
        match zero_as_err(v) {
            Ok(_) => Ok(()),
            Err(e) => Err(e),
        }
    }

    /// Encodes the array's length and its output capacity.
    pub fn as_generic_wm(&mut self) -> (m: WndMsg)
        ensures
            *final(self) == *old(self),
            m == (WndMsg {
                msg_id: co::LVM_GETCOLUMNORDERARRAY,
                wparam: WmArg::Num(old(self).indexes.len() as isize),
                lparam: WmArg::U32OutBuf(old(self).indexes.len() as usize),
            }),
    {
        let n = self.indexes.len();
        WndMsg {
            msg_id: co::LVM_GETCOLUMNORDERARRAY,
            wparam: WmArg::Num(#[verifier::truncate] (n as isize)),
            lparam: WmArg::U32OutBuf(n),
        }
    }
}

/// Reads one column's width.
pub struct GetColumnWidth {
    pub index: u32,
}

impl GetColumnWidth {
    /// Minus one means failure; anything else is the width.
    pub fn convert_ret(&self, v: isize) -> (r: Result<u32, ERROR>)
        ensures
            v == -1 ==> r == Result::<u32, ERROR>::Err(ERROR(co::ERROR_BAD_ARGUMENTS)),
            v != -1 ==> r == Result::<u32, ERROR>::Ok(v as u32),
    {
        if v == -1 {
            Err(ERROR(co::ERROR_BAD_ARGUMENTS))
        } else {
            Ok(#[verifier::truncate] (v as u32))
        }
    }

    /// Encodes the column index.
    pub fn as_generic_wm(&mut self) -> (m: WndMsg)
        ensures
            *final(self) == *old(self),
            m == (WndMsg {
                msg_id: co::LVM_GETCOLUMNWIDTH,
                wparam: WmArg::Num(old(self).index as isize),
                lparam: WmArg::Num(0),
            }),
    {
        WndMsg {
            msg_id: co::LVM_GETCOLUMNWIDTH,
            wparam: WmArg::Num(self.index as isize),
            lparam: WmArg::Num(0),
        }
    }
}

/// Reads how many items fit in one page.
pub struct GetCountPerPage {}

impl GetCountPerPage {
    /// The result word is the count.
    pub fn convert_ret(&self, v: isize) -> (r: u32)
        ensures
            r == v as u32,
    {
        #[verifier::truncate] (v as u32)
    }

    /// Carries no parameters.
    pub fn as_generic_wm(&mut self) -> (m: WndMsg)
        ensures
            *final(self) == *old(self),
            m == (WndMsg {
                msg_id: co::LVM_GETCOUNTPERPAGE,
                wparam: WmArg::Num(0),
                lparam: WmArg::Num(0),
            }),
    {
        WndMsg {
            msg_id: co::LVM_GETCOUNTPERPAGE,
            wparam: WmArg::Num(0),
            lparam: WmArg::Num(0),
        }
    }
}

/// Reads the handle of the in-place edit control.
pub struct GetEditControl {}

impl GetEditControl {
    /// Zero means no edit in progress; anything else is the handle.
    pub fn convert_ret(&self, v: isize) -> (r: Option<HWND>)
        ensures
            v == 0 ==> r == Option::<HWND>::None,
            v != 0 ==> r == Option::<HWND>::Some(HWND(v as usize)),
    {
        match zero_as_none(v) {
            Some(h) => Some(HWND(#[verifier::truncate] (h as usize))),
            None => None,
        }
    }

    /// Carries no parameters.
    pub fn as_generic_wm(&mut self) -> (m: WndMsg)
        ensures
            *final(self) == *old(self),
            m == (WndMsg {
                msg_id: co::LVM_GETEDITCONTROL,
                wparam: WmArg::Num(0),
                lparam: WmArg::Num(0),
            }),
    {
        WndMsg {
            msg_id: co::LVM_GETEDITCONTROL,
            wparam: WmArg::Num(0),
            lparam: WmArg::Num(0),
        }
    }
}

/// Reads the text shown when the control is empty.
pub struct GetEmptyText {
    pub text: WString,
}

impl GetEmptyText {
    /// Zero means failure; anything else is success.
    pub fn convert_ret(&self, v: isize) -> (r: Result<(), ERROR>)
        ensures
            v == 0 ==> r == Result::<(), ERROR>::Err(ERROR(co::ERROR_BAD_ARGUMENTS)),
            v != 0 ==> r == Result::<(), ERROR>::Ok(()),
    {
        match zero_as_err(v) {
            Ok(_) => Ok(()),
            Err(e) => Err(e),
        }
    }

    /// Encodes the output buffer's capacity, as count and as buffer.
    pub fn as_generic_wm(&mut self) -> (m: WndMsg)
        ensures
            *final(self) == *old(self),
            m == (WndMsg {
                msg_id: co::LVM_GETEMPTYTEXT,
                wparam: WmArg::Num(old(self).text.buf_spec() as isize),
                lparam: WmArg::TextOutBuf(old(self).text.buf_spec() as usize),
            }),
    {
        let n = self.text.buffer_size();
        WndMsg {
            msg_id: co::LVM_GETEMPTYTEXT,
            wparam: WmArg::Num(#[verifier::truncate] (n as isize)),
            lparam: WmArg::TextOutBuf(n),
        }
    }
}

/// Reads the extended styles.
pub struct GetExtendedListViewStyle {}

impl GetExtendedListViewStyle {
    /// The result word is the style set.
    pub fn convert_ret(&self, v: isize) -> (r: co::LVS_EX)
        ensures
            r == co::LVS_EX(v as u32),
    {
        co::LVS_EX(#[verifier::truncate] (v as u32))
    }

    /// Carries no parameters.
    pub fn as_generic_wm(&mut self) -> (m: WndMsg)
        ensures
            *final(self) == *old(self),
            m == (WndMsg {
                msg_id: co::LVM_GETEXTENDEDLISTVIEWSTYLE,
                wparam: WmArg::Num(0),
                lparam: WmArg::Num(0),
            }),
    {
        WndMsg {
            msg_id: co::LVM_GETEXTENDEDLISTVIEWSTYLE,
            wparam: WmArg::Num(0),
            lparam: WmArg::Num(0),
        }
    }
}

/// Reads the index of the focused group.
pub struct GetFocusedGroup {}

impl GetFocusedGroup {
    /// Minus one means no focused group; anything else is the index.
    pub fn convert_ret(&self, v: isize) -> (r: Option<u32>)
        ensures
            v == -1 ==> r == Option::<u32>::None,
            v != -1 ==> r == Option::<u32>::Some(v as u32),
    {
        if v == -1 {
            None
        } else {
            Some(#[verifier::truncate] (v as u32))
        }
    }

    /// Carries no parameters.
    pub fn as_generic_wm(&mut self) -> (m: WndMsg)
        ensures
            *final(self) == *old(self),
            m == (WndMsg {
                msg_id: co::LVM_GETFOCUSEDGROUP,
                wparam: WmArg::Num(0),
                lparam: WmArg::Num(0),
            }),
    {
        WndMsg {
            msg_id: co::LVM_GETFOCUSEDGROUP,
            wparam: WmArg::Num(0),
            lparam: WmArg::Num(0),
        }
    }
}

/// Reads the footer description.
pub struct GetFooterInfo {
    pub info: LVFOOTERINFO,
}

impl GetFooterInfo {
    /// The result word carries nothing.
    pub fn convert_ret(&self, _v: isize) -> (r: ()) {
    }

    /// Encodes the footer block.
    pub fn as_generic_wm(&mut self) -> (m: WndMsg)
        ensures
            *final(self) == *old(self),
            m == (WndMsg {
                msg_id: co::LVM_GETFOOTERINFO,
                wparam: WmArg::Num(0),
                lparam: WmArg::FooterInfoBuf(old(self).info),
            }),
    {
        WndMsg {
            msg_id: co::LVM_GETFOOTERINFO,
            wparam: WmArg::Num(0),
            lparam: WmArg::FooterInfoBuf(self.info),
        }
    }
}

/// Reads one footer item.
pub struct GetFooterItem {
    pub index: u32,
    pub info: LVFOOTERITEM,
}

impl GetFooterItem {
    /// Zero means failure; anything else is success.
    pub fn convert_ret(&self, v: isize) -> (r: Result<(), ERROR>)
        ensures
            v == 0 ==> r == Result::<(), ERROR>::Err(ERROR(co::ERROR_BAD_ARGUMENTS)),
            v != 0 ==> r == Result::<(), ERROR>::Ok(()),
    {
        match zero_as_err(v) {
            Ok(_) => Ok(()),
            Err(e) => Err(e),
        }
    }

    /// Encodes the item index and the footer-item block.
    pub fn as_generic_wm(&mut self) -> (m: WndMsg)
        ensures
            *final(self) == *old(self),
            m == (WndMsg {
                msg_id: co::LVM_GETFOOTERITEM,
                wparam: WmArg::Num(old(self).index as isize),
                lparam: WmArg::FooterItemBuf(old(self).info),
            }),
    {
        WndMsg {
            msg_id: co::LVM_GETFOOTERITEM,
            wparam: WmArg::Num(self.index as isize),
            lparam: WmArg::FooterItemBuf(self.info),
        }
    }
}

/// Reads the rectangle of one footer item.
pub struct GetFooterItemRect {
    pub index: u32,
    pub rect: RECT,
}

impl GetFooterItemRect {
    /// Zero means failure; anything else is success.
    pub fn convert_ret(&self, v: isize) -> (r: Result<(), ERROR>)
        ensures
            v == 0 ==> r == Result::<(), ERROR>::Err(ERROR(co::ERROR_BAD_ARGUMENTS)),
            v != 0 ==> r == Result::<(), ERROR>::Ok(()),
    {
        match zero_as_err(v) {
            Ok(_) => Ok(()),
            Err(e) => Err(e),
        }
    }

    /// Encodes the item index and the rectangle block.
    pub fn as_generic_wm(&mut self) -> (m: WndMsg)
        ensures
            *final(self) == *old(self),
            m == (WndMsg {
                msg_id: co::LVM_GETFOOTERITEMRECT,
                wparam: WmArg::Num(old(self).index as isize),
                lparam: WmArg::RectBuf(old(self).rect),
            }),
    {
        WndMsg {
            msg_id: co::LVM_GETFOOTERITEMRECT,
            wparam: WmArg::Num(self.index as isize),
            lparam: WmArg::RectBuf(self.rect),
        }
    }
}

/// Reads the rectangle of the footer area.
pub struct GetFooterRect {
    pub rect: RECT,
}

impl GetFooterRect {
    /// Zero means failure; anything else is success.
    pub fn convert_ret(&self, v: isize) -> (r: Result<(), ERROR>)
        ensures
            v == 0 ==> r == Result::<(), ERROR>::Err(ERROR(co::ERROR_BAD_ARGUMENTS)),
            v != 0 ==> r == Result::<(), ERROR>::Ok(()),
    {
        match zero_as_err(v) {
            Ok(_) => Ok(()),
            Err(e) => Err(e),
        }
    }

    /// Encodes the rectangle block.
    pub fn as_generic_wm(&mut self) -> (m: WndMsg)
        ensures
            *final(self) == *old(self),
            m == (WndMsg {
                msg_id: co::LVM_GETFOOTERRECT,
                wparam: WmArg::Num(0),
                lparam: WmArg::RectBuf(old(self).rect),
            }),
    {
        WndMsg {
            msg_id: co::LVM_GETFOOTERRECT,
            wparam: WmArg::Num(0),
            lparam: WmArg::RectBuf(self.rect),
        }
    }
}

/// Reads how many groups exist.
pub struct GetGroupCount {}

impl GetGroupCount {
    /// The result word is the count.
    pub fn convert_ret(&self, v: isize) -> (r: u32)
        ensures
            r == v as u32,
    {
        #[verifier::truncate] (v as u32)
    }

    /// Carries no parameters.
    pub fn as_generic_wm(&mut self) -> (m: WndMsg)
        ensures
            *final(self) == *old(self),
            m == (WndMsg {
                msg_id: co::LVM_GETGROUPCOUNT,
                wparam: WmArg::Num(0),
                lparam: WmArg::Num(0),
            }),
    {
        WndMsg {
            msg_id: co::LVM_GETGROUPCOUNT,
            wparam: WmArg::Num(0),
            lparam: WmArg::Num(0),
        }
    }
}

/// Reads one group's description by its identifier.
pub struct GetGroupInfo {
    pub id: u32,
    pub info: LVGROUP,
}

impl GetGroupInfo {
    /// Minus one means failure; anything else is the group's identifier.
    pub fn convert_ret(&self, v: isize) -> (r: Result<u32, ERROR>)
        ensures
            v == -1 ==> r == Result::<u32, ERROR>::Err(ERROR(co::ERROR_BAD_ARGUMENTS)),
            v != -1 ==> r == Result::<u32, ERROR>::Ok(v as u32),
    {
        if v == -1 {
            Err(ERROR(co::ERROR_BAD_ARGUMENTS))
        } else {
            Ok(#[verifier::truncate] (v as u32))
        }
    }

    /// Encodes the group identifier and the group block.
    pub fn as_generic_wm(&mut self) -> (m: WndMsg)
        ensures
            *final(self) == *old(self),
            m.msg_id == co::LVM_GETGROUPINFO,
            m.wparam == WmArg::Num(old(self).id as isize),
            m.lparam == WmArg::GroupBuf(old(self).info),
    {
        WndMsg {
            msg_id: co::LVM_GETGROUPINFO,
            wparam: WmArg::Num(self.id as isize),
            lparam: WmArg::GroupBuf(self.info.clone()),
        }
    }
}

/// Reads one group's description by its position.
pub struct GetGroupInfoByIndex {
    pub index: u32,
    pub info: LVGROUP,
}

impl GetGroupInfoByIndex {
    /// Zero means failure; anything else is success.
    pub fn convert_ret(&self, v: isize) -> (r: Result<(), ERROR>)
        ensures
            v == 0 ==> r == Result::<(), ERROR>::Err(ERROR(co::ERROR_BAD_ARGUMENTS)),
            v != 0 ==> r == Result::<(), ERROR>::Ok(()),
    {
        match zero_as_err(v) {
            Ok(_) => Ok(()),
            Err(e) => Err(e),
        }
    }

    /// Encodes the group position and the group block.
    pub fn as_generic_wm(&mut self) -> (m: WndMsg)
        ensures
            *final(self) == *old(self),
            m.msg_id == co::LVM_GETGROUPINFOBYINDEX,
            m.wparam == WmArg::Num(old(self).index as isize),
            m.lparam == WmArg::GroupBuf(old(self).info),
    {
        WndMsg {
            msg_id: co::LVM_GETGROUPINFOBYINDEX,
            wparam: WmArg::Num(self.index as isize),
            lparam: WmArg::GroupBuf(self.info.clone()),
        }
    }
}

/// Reads the group display metrics.
pub struct GetGroupMetrics {
    pub info: LVGROUPMETRICS,
}

impl GetGroupMetrics {
    /// The result word carries nothing.
    pub fn convert_ret(&self, _v: isize) -> (r: ()) {
    }

    /// Encodes the metrics block.
    pub fn as_generic_wm(&mut self) -> (m: WndMsg)
        ensures
            *final(self) == *old(self),
            m == (WndMsg {
                msg_id: co::LVM_GETGROUPMETRICS,
                wparam: WmArg::Num(0),
                lparam: WmArg::GroupMetricsBuf(old(self).info),
            }),
    {
        WndMsg {
            msg_id: co::LVM_GETGROUPMETRICS,
            wparam: WmArg::Num(0),
            lparam: WmArg::GroupMetricsBuf(self.info),
        }
    }
}

/// Reads the rectangle of one group. The requested portion travels in
/// the rectangle block's top field, as the protocol prescribes.
pub struct GetGroupRect {
    pub group_id: u32,
    pub flags: co::LVGGR,
    pub rect: RECT,
}

impl GetGroupRect {
    /// Zero means failure; anything else is success.
    pub fn convert_ret(&self, v: isize) -> (r: Result<(), ERROR>)
        ensures
            v == 0 ==> r == Result::<(), ERROR>::Err(ERROR(co::ERROR_BAD_ARGUMENTS)),
            v != 0 ==> r == Result::<(), ERROR>::Ok(()),
    {
        match zero_as_err(v) {
            Ok(_) => Ok(()),
            Err(e) => Err(e),
        }
    }

    /// Writes the portion code into the rectangle's top field, then
    /// encodes the group identifier and the rectangle block.
    pub fn as_generic_wm(&mut self) -> (m: WndMsg)
        ensures
            final(self).group_id == old(self).group_id,
            final(self).flags == old(self).flags,
            final(self).rect == (RECT {
                left: old(self).rect.left,
                top: old(self).flags.0,
                right: old(self).rect.right,
                bottom: old(self).rect.bottom,
            }),
            m == (WndMsg {
                msg_id: co::LVM_GETGROUPRECT,
                wparam: WmArg::Num(old(self).group_id as isize),
                lparam: WmArg::RectBuf(final(self).rect),
            }),
    {
        self.rect.top = self.flags.0;
        WndMsg {
            msg_id: co::LVM_GETGROUPRECT,
            wparam: WmArg::Num(self.group_id as isize),
            lparam: WmArg::RectBuf(self.rect),
        }
    }
}

/// Reads the state of one group.
pub struct GetGroupState {
    pub group_id: u32,
    pub mask: co::LVGS,
}

impl GetGroupState {
    /// The result word is the state set.
    pub fn convert_ret(&self, v: isize) -> (r: co::LVGS)
        ensures
            r == co::LVGS(v as u32),
    {
        co::LVGS(#[verifier::truncate] (v as u32))
    }

    /// Encodes the group identifier and the mask of states asked for.
    pub fn as_generic_wm(&mut self) -> (m: WndMsg)
        ensures
            *final(self) == *old(self),
            m == (WndMsg {
                msg_id: co::LVM_GETGROUPSTATE,
                wparam: WmArg::Num(old(self).group_id as isize),
                lparam: WmArg::Num(old(self).mask.0 as isize),
            }),
    {
        WndMsg {
            msg_id: co::LVM_GETGROUPSTATE,
            wparam: WmArg::Num(self.group_id as isize),
            lparam: WmArg::Num(self.mask.0 as isize),
        }
    }
}

/// Reads the handle of the header control.
pub struct GetHeader {}

impl GetHeader {
    /// Zero means failure; anything else is the header's handle.
    pub fn convert_ret(&self, v: isize) -> (r: Result<HWND, ERROR>)
        ensures
            v == 0 ==> r == Result::<HWND, ERROR>::Err(ERROR(co::ERROR_BAD_ARGUMENTS)),
            v != 0 ==> r == Result::<HWND, ERROR>::Ok(HWND(v as usize)),
    {
        match zero_as_err(v) {
            Ok(h) => Ok(HWND(#[verifier::truncate] (h as usize))),
            Err(e) => Err(e),
        }
    }

    /// Carries no parameters.
    pub fn as_generic_wm(&mut self) -> (m: WndMsg)
        ensures
            *final(self) == *old(self),
            m == (WndMsg {
                msg_id: co::LVM_GETHEADER,
                wparam: WmArg::Num(0),
                lparam: WmArg::Num(0),
            }),
    {
        WndMsg {
            msg_id: co::LVM_GETHEADER,
            wparam: WmArg::Num(0),
            lparam: WmArg::Num(0),
        }
    }
}

/// Reads the cursor shown over hot items.
pub struct GetHotCursor {}

impl GetHotCursor {
    /// Zero means failure; anything else is the cursor's handle.
    pub fn convert_ret(&self, v: isize) -> (r: Result<HCURSOR, ERROR>)
        ensures
            v == 0 ==> r == Result::<HCURSOR, ERROR>::Err(ERROR(co::ERROR_BAD_ARGUMENTS)),
            v != 0 ==> r == Result::<HCURSOR, ERROR>::Ok(HCURSOR(v as usize)),
    {
        match zero_as_err(v) {
            Ok(h) => Ok(HCURSOR(#[verifier::truncate] (h as usize))),
            Err(e) => Err(e),
        }
    }

    /// Carries no parameters.
    pub fn as_generic_wm(&mut self) -> (m: WndMsg)
        ensures
            *final(self) == *old(self),
            m == (WndMsg {
                msg_id: co::LVM_GETHOTCURSOR,
                wparam: WmArg::Num(0),
                lparam: WmArg::Num(0),
            }),
    {
        WndMsg {
            msg_id: co::LVM_GETHOTCURSOR,
            wparam: WmArg::Num(0),
            lparam: WmArg::Num(0),
        }
    }
}

/// Reads the index of the hot item.
pub struct GetHotItem {}

impl GetHotItem {
    /// Zero means no hot item; anything else is the index.
    pub fn convert_ret(&self, v: isize) -> (r: Option<u32>)
        ensures
            v == 0 ==> r == Option::<u32>::None,
            v != 0 ==> r == Option::<u32>::Some(v as u32),
    {
        match zero_as_none(v) {
            Some(i) => Some(#[verifier::truncate] (i as u32)),
            None => None,
        }
    }

    /// Carries no parameters.
    pub fn as_generic_wm(&mut self) -> (m: WndMsg)
        ensures
            *final(self) == *old(self),
            m == (WndMsg {
                msg_id: co::LVM_GETHOTITEM,
                wparam: WmArg::Num(0),
                lparam: WmArg::Num(0),
            }),
    {
        WndMsg {
            msg_id: co::LVM_GETHOTITEM,
            wparam: WmArg::Num(0),
            lparam: WmArg::Num(0),
        }
    }
}

/// Reads the hover time, in milliseconds.
pub struct GetHoverTime {}

impl GetHoverTime {
    /// Zero means the system default; anything else is the time.
    pub fn convert_ret(&self, v: isize) -> (r: Option<u32>)
        ensures
            v == 0 ==> r == Option::<u32>::None,
            v != 0 ==> r == Option::<u32>::Some(v as u32),
    {
        match zero_as_none(v) {
            Some(t) => Some(#[verifier::truncate] (t as u32)),
            None => None,
        }
    }

    /// Carries no parameters.
    pub fn as_generic_wm(&mut self) -> (m: WndMsg)
        ensures
            *final(self) == *old(self),
            m == (WndMsg {
                msg_id: co::LVM_GETHOVERTIME,
                wparam: WmArg::Num(0),
                lparam: WmArg::Num(0),
            }),
    {
        WndMsg {
            msg_id: co::LVM_GETHOVERTIME,
            wparam: WmArg::Num(0),
            lparam: WmArg::Num(0),
        }
    }
}

/// Reads one of the control's image lists.
pub struct GetImageList {
    pub kind: co::LVSIL,
}

impl GetImageList {
    /// Zero means no list of that kind; anything else is the handle.
    pub fn convert_ret(&self, v: isize) -> (r: Option<HIMAGELIST>)
        ensures
            v == 0 ==> r == Option::<HIMAGELIST>::None,
            v != 0 ==> r == Option::<HIMAGELIST>::Some(HIMAGELIST(v as usize)),
    {
        match zero_as_none(v) {
            Some(h) => Some(HIMAGELIST(#[verifier::truncate] (h as usize))),
            None => None,
        }
    }

    /// Encodes which image list is asked for.
    pub fn as_generic_wm(&mut self) -> (m: WndMsg)
        ensures
            *final(self) == *old(self),
            m == (WndMsg {
                msg_id: co::LVM_GETIMAGELIST,
                wparam: WmArg::Num(old(self).kind.0 as isize),
                lparam: WmArg::Num(0),
            }),
    {
        WndMsg {
            msg_id: co::LVM_GETIMAGELIST,
            wparam: WmArg::Num(self.kind.0 as isize),
            lparam: WmArg::Num(0),
        }
    }
}

/// Reads the insertion mark.
pub struct GetInsertMark {
    pub info: LVINSERTMARK,
}

impl GetInsertMark {
    /// Zero means failure; anything else is success.
    pub fn convert_ret(&self, v: isize) -> (r: Result<(), ERROR>)
        ensures
            v == 0 ==> r == Result::<(), ERROR>::Err(ERROR(co::ERROR_BAD_ARGUMENTS)),
            v != 0 ==> r == Result::<(), ERROR>::Ok(()),
    {
        match zero_as_err(v) {
            Ok(_) => Ok(()),
            Err(e) => Err(e),
        }
    }

    /// Encodes the insert-mark block.
    pub fn as_generic_wm(&mut self) -> (m: WndMsg)
        ensures
            *final(self) == *old(self),
            m == (WndMsg {
                msg_id: co::LVM_GETINSERTMARK,
                wparam: WmArg::Num(0),
                lparam: WmArg::InsertMarkBuf(old(self).info),
            }),
    {
        WndMsg {
            msg_id: co::LVM_GETINSERTMARK,
            wparam: WmArg::Num(0),
            lparam: WmArg::InsertMarkBuf(self.info),
        }
    }
}

/// Reads the color of the insertion mark.
pub struct GetInsertMarkColor {}

impl GetInsertMarkColor {
    /// The result word is the color value.
    pub fn convert_ret(&self, v: isize) -> (r: COLORREF)
        ensures
            r == COLORREF(v as u32),
    {
        COLORREF(#[verifier::truncate] (v as u32))
    }

    /// Carries no parameters.
    pub fn as_generic_wm(&mut self) -> (m: WndMsg)
        ensures
            *final(self) == *old(self),
            m == (WndMsg {
                msg_id: co::LVM_GETINSERTMARKCOLOR,
                wparam: WmArg::Num(0),
                lparam: WmArg::Num(0),
            }),
    {
        WndMsg {
            msg_id: co::LVM_GETINSERTMARKCOLOR,
            wparam: WmArg::Num(0),
            lparam: WmArg::Num(0),
        }
    }
}

/// Reads the rectangle of the insertion mark.
pub struct GetInsertMarkRect {
    pub rect: RECT,
}

impl GetInsertMarkRect {
    /// Nonzero when an insertion mark exists.
    pub fn convert_ret(&self, v: isize) -> (r: bool)
        ensures
            r == (v != 0),
    {
        v != 0
    }

    /// Encodes the rectangle block.
    pub fn as_generic_wm(&mut self) -> (m: WndMsg)
        ensures
            *final(self) == *old(self),
            m == (WndMsg {
                msg_id: co::LVM_GETINSERTMARKRECT,
                wparam: WmArg::Num(0),
                lparam: WmArg::RectBuf(old(self).rect),
            }),
    {
        WndMsg {
            msg_id: co::LVM_GETINSERTMARKRECT,
            wparam: WmArg::Num(0),
            lparam: WmArg::RectBuf(self.rect),
        }
    }
}

/// Reads the incremental-search string.
pub struct GetISearchString {
    pub buffer: Option<WString>,
}

impl GetISearchString {
    /// Zero means no search in progress; anything else is the length.
    pub fn convert_ret(&self, v: isize) -> (r: Option<u32>)
        ensures
            v == 0 ==> r == Option::<u32>::None,
            v != 0 ==> r == Option::<u32>::Some(v as u32),
    {
        match zero_as_none(v) {
            Some(c) => Some(#[verifier::truncate] (c as u32)),
            None => None,
        }
    }

    /// Encodes the output buffer's capacity, or zero to ask only for the
    /// length.
    pub fn as_generic_wm(&mut self) -> (m: WndMsg)
        ensures
            *final(self) == *old(self),
            m.msg_id == co::LVM_GETISEARCHSTRING,
            m.wparam == WmArg::Num(0),
            (match old(self).buffer {
                Some(b) => m.lparam == WmArg::TextOutBuf(b.buf_spec() as usize),
                None => m.lparam == WmArg::Num(0),
            }),
    {
        let lp = match &self.buffer {
            Some(b) => WmArg::TextOutBuf(b.buffer_size()),
            None => WmArg::Num(0),
        };
        WndMsg {
            msg_id: co::LVM_GETISEARCHSTRING,
            wparam: WmArg::Num(0),
            lparam: lp,
        }
    }
}

/// Reads an item's attributes.
pub struct GetItem {
    pub lvitem: LVITEM,
}

impl GetItem {
    /// Zero means failure; anything else is success.
    pub fn convert_ret(&self, v: isize) -> (r: Result<(), ERROR>)
        ensures
            v == 0 ==> r == Result::<(), ERROR>::Err(ERROR(co::ERROR_BAD_ARGUMENTS)),
            v != 0 ==> r == Result::<(), ERROR>::Ok(()),
    {
        match zero_as_err(v) {
            Ok(_) => Ok(()),
            Err(e) => Err(e),
        }
    }

    /// Encodes the item block.
    pub fn as_generic_wm(&mut self) -> (m: WndMsg)
        ensures
            *final(self) == *old(self),
            m.msg_id == co::LVM_GETITEM,
            m.wparam == WmArg::Num(0),
            m.lparam == WmArg::ItemBuf(old(self).lvitem),
    {
        WndMsg {
            msg_id: co::LVM_GETITEM,
            wparam: WmArg::Num(0),
            lparam: WmArg::ItemBuf(self.lvitem.clone()),
        }
    }
}

/// Reads how many items exist.
pub struct GetItemCount {}

impl GetItemCount {
    /// The result word is the count.
    pub fn convert_ret(&self, v: isize) -> (r: u32)
        ensures
            r == v as u32,
    {
        #[verifier::truncate] (v as u32)
    }

    /// Carries no parameters.
    pub fn as_generic_wm(&mut self) -> (m: WndMsg)
        ensures
            *final(self) == *old(self),
            m == (WndMsg {
                msg_id: co::LVM_GETITEMCOUNT,
                wparam: WmArg::Num(0),
                lparam: WmArg::Num(0),
            }),
    {
        WndMsg {
            msg_id: co::LVM_GETITEMCOUNT,
            wparam: WmArg::Num(0),
            lparam: WmArg::Num(0),
        }
    }
}

/// Reads the rectangle of an item addressed by index block. The requested
/// portion and sub-item travel in the rectangle's fields, as the protocol
/// prescribes.
pub struct GetItemIndexRect {
    pub lvitemindex: LVITEMINDEX,
    pub rect: RECT,
    pub index: u32,
    pub portion: co::LVIR,
}

impl GetItemIndexRect {
    /// Zero means failure; anything else is success.
    pub fn convert_ret(&self, v: isize) -> (r: Result<(), ERROR>)
        ensures
            v == 0 ==> r == Result::<(), ERROR>::Err(ERROR(co::ERROR_BAD_ARGUMENTS)),
            v != 0 ==> r == Result::<(), ERROR>::Ok(()),
    {
        match zero_as_err(v) {
            Ok(_) => Ok(()),
            Err(e) => Err(e),
        }
    }

    /// Writes the sub-item into the rectangle's top field and the portion
    /// into its left field, then encodes the index block and the rectangle.
    pub fn as_generic_wm(&mut self) -> (m: WndMsg)
        ensures
            final(self).lvitemindex == old(self).lvitemindex,
            final(self).index == old(self).index,
            final(self).portion == old(self).portion,
            final(self).rect == (RECT {
                left: old(self).portion.0 as i32,
                top: old(self).index as i32,
                right: old(self).rect.right,
                bottom: old(self).rect.bottom,
            }),
            m == (WndMsg {
                msg_id: co::LVM_GETITEMINDEXRECT,
                wparam: WmArg::ItemIndexBuf(old(self).lvitemindex),
                lparam: WmArg::RectBuf(final(self).rect),
            }),
    {
        self.rect.top = #[verifier::truncate] (self.index as i32);
        self.rect.left = self.portion.0 as i32;
        WndMsg {
            msg_id: co::LVM_GETITEMINDEXRECT,
            wparam: WmArg::ItemIndexBuf(self.lvitemindex),
            lparam: WmArg::RectBuf(self.rect),
        }
    }
}

/// Reads the position of an item's upper-left corner.
pub struct GetItemPosition {
    pub index: u32,
    pub pos: POINT,
}

impl GetItemPosition {
    /// Zero means failure; anything else is success.
    pub fn convert_ret(&self, v: isize) -> (r: Result<(), ERROR>)
        ensures
            v == 0 ==> r == Result::<(), ERROR>::Err(ERROR(co::ERROR_BAD_ARGUMENTS)),
            v != 0 ==> r == Result::<(), ERROR>::Ok(()),
    {
        match zero_as_err(v) {
            Ok(_) => Ok(()),
            Err(e) => Err(e),
        }
    }

    /// Encodes the item index and the point block.
    pub fn as_generic_wm(&mut self) -> (m: WndMsg)
        ensures
            *final(self) == *old(self),
            m == (WndMsg {
                msg_id: co::LVM_GETITEMPOSITION,
                wparam: WmArg::Num(old(self).index as isize),
                lparam: WmArg::PointBuf(old(self).pos),
            }),
    {
        WndMsg {
            msg_id: co::LVM_GETITEMPOSITION,
            wparam: WmArg::Num(self.index as isize),
            lparam: WmArg::PointBuf(self.pos),
        }
    }
}

/// Reads the rectangle of one item. The requested portion travels in the
/// rectangle's left field, as the protocol prescribes.
pub struct GetItemRect {
    pub index: u32,
    pub rect: RECT,
    pub portion: co::LVIR,
}

impl GetItemRect {
    /// Zero means failure; anything else is success.
    pub fn convert_ret(&self, v: isize) -> (r: Result<(), ERROR>)
        ensures
            v == 0 ==> r == Result::<(), ERROR>::Err(ERROR(co::ERROR_BAD_ARGUMENTS)),
            v != 0 ==> r == Result::<(), ERROR>::Ok(()),
    {
        match zero_as_err(v) {
            Ok(_) => Ok(()),
            Err(e) => Err(e),
        }
    }

    /// Writes the portion code into the rectangle's left field, then
    /// encodes the item index and the rectangle block.
    pub fn as_generic_wm(&mut self) -> (m: WndMsg)
        ensures
            final(self).index == old(self).index,
            final(self).portion == old(self).portion,
            final(self).rect == (RECT {
                left: old(self).portion.0 as i32,
                top: old(self).rect.top,
                right: old(self).rect.right,
                bottom: old(self).rect.bottom,
            }),
            m == (WndMsg {
                msg_id: co::LVM_GETITEMRECT,
                wparam: WmArg::Num(old(self).index as isize),
                lparam: WmArg::RectBuf(final(self).rect),
            }),
    {
        self.rect.left = self.portion.0 as i32;
        WndMsg {
            msg_id: co::LVM_GETITEMRECT,
            wparam: WmArg::Num(self.index as isize),
            lparam: WmArg::RectBuf(self.rect),
        }
    }
}

/// Reads the spacing between items in icon view. The result word packs
/// the spacing in its two halves.
pub struct GetItemSpacing {
    pub is_small_icon_view: bool,
}

impl GetItemSpacing {
    /// Splits the result word into horizontal (low half) and vertical
    /// (high half) spacing.
    pub fn convert_ret(&self, v: isize) -> (r: SIZE)
        ensures
            r.cx == (v as u32) % 0x1_0000,
            r.cy == (v as u32) / 0x1_0000,
    {
        let w = #[verifier::truncate] (v as u32);
        let lo = crate::funcs::LOWORD(w);
        let hi = crate::funcs::HIWORD(w);
        SIZE::new(lo as i32, hi as i32)
    }

    /// Encodes which view's spacing is asked for.
    pub fn as_generic_wm(&mut self) -> (m: WndMsg)
        ensures
            *final(self) == *old(self),
            m == (WndMsg {
                msg_id: co::LVM_GETITEMSTATE,
                wparam: WmArg::Num(if old(self).is_small_icon_view { 1isize } else { 0isize }),
                lparam: WmArg::Num(0),
            }),
    {
        WndMsg {
            msg_id: co::LVM_GETITEMSTATE,
            wparam: WmArg::Num(if self.is_small_icon_view { 1 } else { 0 }),
            lparam: WmArg::Num(0),
        }
    }
}

/// Reads the state of one item.
pub struct GetItemState {
    pub index: u32,
    pub mask: co::LVIS,
}

impl GetItemState {
    /// The result word is the state set.
    pub fn convert_ret(&self, v: isize) -> (r: co::LVIS)
        ensures
            r == co::LVIS(v as u32),
    {
        co::LVIS(#[verifier::truncate] (v as u32))
    }

    /// Encodes the item index and the mask of states asked for.
    pub fn as_generic_wm(&mut self) -> (m: WndMsg)
        ensures
            *final(self) == *old(self),
            m == (WndMsg {
                msg_id: co::LVM_GETITEMSTATE,
                wparam: WmArg::Num(old(self).index as isize),
                lparam: WmArg::Num(old(self).mask.0 as isize),
            }),
    {
        WndMsg {
            msg_id: co::LVM_GETITEMSTATE,
            wparam: WmArg::Num(self.index as isize),
            lparam: WmArg::Num(self.mask.0 as isize),
        }
    }
}

/// Reads an item's text.
pub struct GetItemText {
    pub index: u32,
    pub lvitem: LVITEM,
}

impl GetItemText {
    /// The result word is the text's length.
    pub fn convert_ret(&self, v: isize) -> (r: u32)
        ensures
            r == v as u32,
    {
        #[verifier::truncate] (v as u32)
    }

    /// Encodes the item index and the item block.
    pub fn as_generic_wm(&mut self) -> (m: WndMsg)
        ensures
            *final(self) == *old(self),
            m.msg_id == co::LVM_GETITEMTEXT,
            m.wparam == WmArg::Num(old(self).index as isize),
            m.lparam == WmArg::ItemBuf(old(self).lvitem),
    {
        WndMsg {
            msg_id: co::LVM_GETITEMTEXT,
            wparam: WmArg::Num(self.index as isize),
            lparam: WmArg::ItemBuf(self.lvitem.clone()),
        }
    }
}

/// Searches for the next item with a given relationship to a start item.
pub struct GetNextItem {
    pub initial_index: Option<u32>,
    pub relationship: co::LVNI,
}

impl GetNextItem {
    /// Minus one means no such item; anything else is the index.
    pub fn convert_ret(&self, v: isize) -> (r: Option<u32>)
        ensures
            v == -1 ==> r == Option::<u32>::None,
            v != -1 ==> r == Option::<u32>::Some(v as u32),
    {
        if v == -1 {
            None
        } else {
            Some(#[verifier::truncate] (v as u32))
        }
    }

    /// Encodes the start index (absent: minus one) and the relationship.
    pub fn as_generic_wm(&mut self) -> (m: WndMsg)
        ensures
            *final(self) == *old(self),
            m.msg_id == co::LVM_GETNEXTITEM,
            (match old(self).initial_index {
                Some(i) => m.wparam == WmArg::Num((i as i32) as isize),
                None => m.wparam == WmArg::Num(-1isize),
            }),
            m.lparam == WmArg::Num(old(self).relationship.0 as isize),
    {
        let wp: isize = match self.initial_index {
            Some(i) => {
                let t = #[verifier::truncate] (i as i32);
                t as isize
            },
            None => -1,
        };
        WndMsg {
            msg_id: co::LVM_GETNEXTITEM,
            wparam: WmArg::Num(wp),
            lparam: WmArg::Num(self.relationship.0 as isize),
        }
    }
}

/// Searches for the next item starting from an index block.
pub struct GetNextItemIndex {
    pub initial_item: LVITEMINDEX,
    pub relationship: co::LVNI,
}

impl GetNextItemIndex {
    /// Nonzero when a next item was found.
    pub fn convert_ret(&self, v: isize) -> (r: bool)
        ensures
            r == (v != 0),
    {
        v != 0
    }

    /// Encodes the start index block and the relationship.
    pub fn as_generic_wm(&mut self) -> (m: WndMsg)
        ensures
            *final(self) == *old(self),
            m == (WndMsg {
                msg_id: co::LVM_GETNEXTITEMINDEX,
                wparam: WmArg::ItemIndexBuf(old(self).initial_item),
                lparam: WmArg::Num(old(self).relationship.0 as isize),
            }),
    {
        WndMsg {
            msg_id: co::LVM_GETNEXTITEMINDEX,
            wparam: WmArg::ItemIndexBuf(self.initial_item),
            lparam: WmArg::Num(self.relationship.0 as isize),
        }
    }
}

/// Reads how many work areas the control has; the count lands in a
/// single doubleword output slot.
pub struct GetNumberOfWorkAreas {}

impl GetNumberOfWorkAreas {
    /// The result word carries nothing.
    pub fn convert_ret(&self, _v: isize) -> (r: ()) {
    }

    /// Encodes the one-element output slot.
    pub fn as_generic_wm(&mut self) -> (m: WndMsg)
        ensures
            *final(self) == *old(self),
            m == (WndMsg {
                msg_id: co::LVM_GETNUMBEROFWORKAREAS,
                wparam: WmArg::Num(0),
                lparam: WmArg::U32OutBuf(1),
            }),
    {
        WndMsg {
            msg_id: co::LVM_GETNUMBEROFWORKAREAS,
            wparam: WmArg::Num(0),
            lparam: WmArg::U32OutBuf(1),
        }
    }
}

/// Reads the origin of the view.
pub struct GetOrigin {
    pub origin: POINT,
}

impl GetOrigin {
    /// Nonzero on success.
    pub fn convert_ret(&self, v: isize) -> (r: bool)
        ensures
            r == (v != 0),
    {
        v != 0
    }

    /// Encodes the point block.
    pub fn as_generic_wm(&mut self) -> (m: WndMsg)
        ensures
            *final(self) == *old(self),
            m == (WndMsg {
                msg_id: co::LVM_GETORIGIN,
                wparam: WmArg::Num(0),
                lparam: WmArg::PointBuf(old(self).origin),
            }),
    {
        WndMsg {
            msg_id: co::LVM_GETORIGIN,
            wparam: WmArg::Num(0),
            lparam: WmArg::PointBuf(self.origin),
        }
    }
}

/// Reads the outline color.
pub struct GetOutlineColor {}

impl GetOutlineColor {
    /// The result word is the color value.
    pub fn convert_ret(&self, v: isize) -> (r: COLORREF)
        ensures
            r == COLORREF(v as u32),
    {
        COLORREF(#[verifier::truncate] (v as u32))
    }

    /// Carries no parameters.
    pub fn as_generic_wm(&mut self) -> (m: WndMsg)
        ensures
            *final(self) == *old(self),
            m == (WndMsg {
                msg_id: co::LVM_GETOUTLINECOLOR,
                wparam: WmArg::Num(0),
                lparam: WmArg::Num(0),
            }),
    {
        WndMsg {
            msg_id: co::LVM_GETOUTLINECOLOR,
            wparam: WmArg::Num(0),
            lparam: WmArg::Num(0),
        }
    }
}

/// Reads the index of the selected column.
pub struct GetSelectedColumn {}

impl GetSelectedColumn {
    /// Minus one means no selected column; anything else is the index.
    pub fn convert_ret(&self, v: isize) -> (r: Option<u32>)
        ensures
            v == -1 ==> r == Option::<u32>::None,
            v != -1 ==> r == Option::<u32>::Some(v as u32),
    {
        if v == -1 {
            None
        } else {
            Some(#[verifier::truncate] (v as u32))
        }
    }

    /// Carries no parameters.
    pub fn as_generic_wm(&mut self) -> (m: WndMsg)
        ensures
            *final(self) == *old(self),
            m == (WndMsg {
                msg_id: co::LVM_GETSELECTEDCOLUMN,
                wparam: WmArg::Num(0),
                lparam: WmArg::Num(0),
            }),
    {
        WndMsg {
            msg_id: co::LVM_GETSELECTEDCOLUMN,
            wparam: WmArg::Num(0),
            lparam: WmArg::Num(0),
        }
    }
}

/// Reads how many items are selected.
pub struct GetSelectedCount {}

impl GetSelectedCount {
    /// The result word is the count.
    pub fn convert_ret(&self, v: isize) -> (r: u32)
        ensures
            r == v as u32,
    {
        #[verifier::truncate] (v as u32)
    }

    /// Carries no parameters.
    pub fn as_generic_wm(&mut self) -> (m: WndMsg)
        ensures
            *final(self) == *old(self),
            m == (WndMsg {
                msg_id: co::LVM_GETSELECTEDCOUNT,
                wparam: WmArg::Num(0),
                lparam: WmArg::Num(0),
            }),
    {
        WndMsg {
            msg_id: co::LVM_GETSELECTEDCOUNT,
            wparam: WmArg::Num(0),
            lparam: WmArg::Num(0),
        }
    }
}

/// Reads the selection mark.
pub struct GetSelectionMark {}

impl GetSelectionMark {
    /// Minus one means no selection mark; anything else is the index.
    pub fn convert_ret(&self, v: isize) -> (r: Option<u32>)
        ensures
            v == -1 ==> r == Option::<u32>::None,
            v != -1 ==> r == Option::<u32>::Some(v as u32),
    {
        if v == -1 {
            None
        } else {
            Some(#[verifier::truncate] (v as u32))
        }
    }

    /// Carries no parameters.
    pub fn as_generic_wm(&mut self) -> (m: WndMsg)
        ensures
            *final(self) == *old(self),
            m == (WndMsg {
                msg_id: co::LVM_GETSELECTIONMARK,
                wparam: WmArg::Num(0),
                lparam: WmArg::Num(0),
            }),
    {
        WndMsg {
            msg_id: co::LVM_GETSELECTIONMARK,
            wparam: WmArg::Num(0),
            lparam: WmArg::Num(0),
        }
    }
}

/// Measures the width of a string in the control's font.
pub struct GetStringWidth {
    pub text: WString,
}

impl GetStringWidth {
    /// Zero means failure; anything else is the width.
    pub fn convert_ret(&self, v: isize) -> (r: Result<u32, ERROR>)
        ensures
            v == 0 ==> r == Result::<u32, ERROR>::Err(ERROR(co::ERROR_BAD_ARGUMENTS)),
            v != 0 ==> r == Result::<u32, ERROR>::Ok(v as u32),
    {
        match zero_as_err(v) {
            Ok(len) => Ok(#[verifier::truncate] (len as u32)),
            Err(e) => Err(e),
        }
    }

    /// Encodes the text to measure.
    pub fn as_generic_wm(&mut self) -> (m: WndMsg)
        ensures
            *final(self) == *old(self),
            m.msg_id == co::LVM_GETSTRINGWIDTH,
            m.wparam == WmArg::Num(0),
            m.lparam matches WmArg::Text(t) && t@ == old(self).text@,
    {
        WndMsg {
            msg_id: co::LVM_GETSTRINGWIDTH,
            wparam: WmArg::Num(0),
            lparam: WmArg::Text(self.text.to_string()),
        }
    }
}

/// Reads the rectangle of one sub-item. The requested portion and the
/// sub-item index travel in the rectangle's fields, as the protocol
/// prescribes.
pub struct GetSubItemRect {
    pub item_index: u32,
    pub subitem_index: u32,
    pub rect: RECT,
    pub portion: co::LVIR,
}

impl GetSubItemRect {
    /// Zero means failure; anything else is success.
    pub fn convert_ret(&self, v: isize) -> (r: Result<(), ERROR>)
        ensures
            v == 0 ==> r == Result::<(), ERROR>::Err(ERROR(co::ERROR_BAD_ARGUMENTS)),
            v != 0 ==> r == Result::<(), ERROR>::Ok(()),
    {
        match zero_as_err(v) {
            Ok(_) => Ok(()),
            Err(e) => Err(e),
        }
    }

    /// Writes the portion into the rectangle's left field and the
    /// sub-item into its top field, then encodes the item index and the
    /// rectangle block.
    pub fn as_generic_wm(&mut self) -> (m: WndMsg)
        ensures
            final(self).item_index == old(self).item_index,
            final(self).subitem_index == old(self).subitem_index,
            final(self).portion == old(self).portion,
            final(self).rect == (RECT {
                left: old(self).portion.0 as i32,
                top: old(self).subitem_index as i32,
                right: old(self).rect.right,
                bottom: old(self).rect.bottom,
            }),
            m == (WndMsg {
                msg_id: co::LVM_GETSUBITEMRECT,
                wparam: WmArg::Num(old(self).item_index as isize),
                lparam: WmArg::RectBuf(final(self).rect),
            }),
    {
        self.rect.left = self.portion.0 as i32;
        self.rect.top = #[verifier::truncate] (self.subitem_index as i32);
        WndMsg {
            msg_id: co::LVM_GETSUBITEMRECT,
            wparam: WmArg::Num(self.item_index as isize),
            lparam: WmArg::RectBuf(self.rect),
        }
    }
}

/// Reads the background color of the text.
pub struct GetTextBkColor {}

impl GetTextBkColor {
    /// The result word is the color value.
    pub fn convert_ret(&self, v: isize) -> (r: COLORREF)
        ensures
            r == COLORREF(v as u32),
    {
        COLORREF(#[verifier::truncate] (v as u32))
    }

    /// Carries no parameters.
    pub fn as_generic_wm(&mut self) -> (m: WndMsg)
        ensures
            *final(self) == *old(self),
            m == (WndMsg {
                msg_id: co::LVM_GETTEXTBKCOLOR,
                wparam: WmArg::Num(0),
                lparam: WmArg::Num(0),
            }),
    {
        WndMsg {
            msg_id: co::LVM_GETTEXTBKCOLOR,
            wparam: WmArg::Num(0),
            lparam: WmArg::Num(0),
        }
    }
}

/// Reads the color of the text.
pub struct GetTextColor {}

impl GetTextColor {
    /// The result word is the color value.
    pub fn convert_ret(&self, v: isize) -> (r: COLORREF)
        ensures
            r == COLORREF(v as u32),
    {
        COLORREF(#[verifier::truncate] (v as u32))
    }

    /// Carries no parameters.
    pub fn as_generic_wm(&mut self) -> (m: WndMsg)
        ensures
            *final(self) == *old(self),
            m == (WndMsg {
                msg_id: co::LVM_GETTEXTCOLOR,
                wparam: WmArg::Num(0),
                lparam: WmArg::Num(0),
            }),
    {
        WndMsg {
            msg_id: co::LVM_GETTEXTCOLOR,
            wparam: WmArg::Num(0),
            lparam: WmArg::Num(0),
        }
    }
}

/// Reads the tile description of one item.
pub struct GetTileInfo {
    pub info: LVTILEINFO,
}

impl GetTileInfo {
    /// The result word carries nothing.
    pub fn convert_ret(&self, _v: isize) -> (r: ()) {
    }

    /// Encodes the tile-info block.
    pub fn as_generic_wm(&mut self) -> (m: WndMsg)
        ensures
            *final(self) == *old(self),
            m == (WndMsg {
                msg_id: co::LVM_GETTILEINFO,
                wparam: WmArg::Num(0),
                lparam: WmArg::TileInfoBuf(old(self).info),
            }),
    {
        WndMsg {
            msg_id: co::LVM_GETTILEINFO,
            wparam: WmArg::Num(0),
            lparam: WmArg::TileInfoBuf(self.info),
        }
    }
}

/// Reads the tile-view description of the control.
pub struct GetTileViewInfo {
    pub info: LVTILEVIEWINFO,
}

impl GetTileViewInfo {
    /// The result word carries nothing.
    pub fn convert_ret(&self, _v: isize) -> (r: ()) {
    }

    /// Encodes the tile-view block.
    pub fn as_generic_wm(&mut self) -> (m: WndMsg)
        ensures
            *final(self) == *old(self),
            m == (WndMsg {
                msg_id: co::LVM_GETTILEVIEWINFO,
                wparam: WmArg::Num(0),
                lparam: WmArg::TileViewInfoBuf(old(self).info),
            }),
    {
        WndMsg {
            msg_id: co::LVM_GETTILEVIEWINFO,
            wparam: WmArg::Num(0),
            lparam: WmArg::TileViewInfoBuf(self.info),
        }
    }
}

/// Reads the handle of the tooltip control.
pub struct GetTooltips {}

impl GetTooltips {
    /// Zero means no tooltip control; anything else is the handle.
    pub fn convert_ret(&self, v: isize) -> (r: Option<HWND>)
        ensures
            v == 0 ==> r == Option::<HWND>::None,
            v != 0 ==> r == Option::<HWND>::Some(HWND(v as usize)),
    {
        match zero_as_none(v) {
            Some(h) => Some(HWND(#[verifier::truncate] (h as usize))),
            None => None,
        }
    }

    /// Carries no parameters.
    pub fn as_generic_wm(&mut self) -> (m: WndMsg)
        ensures
            *final(self) == *old(self),
            m == (WndMsg {
                msg_id: co::LVM_GETTOOLTIPS,
                wparam: WmArg::Num(0),
                lparam: WmArg::Num(0),
            }),
    {
        WndMsg {
            msg_id: co::LVM_GETTOOLTIPS,
            wparam: WmArg::Num(0),
            lparam: WmArg::Num(0),
        }
    }
}

/// Reads the index of the topmost visible item. Zero is returned both
/// for the first item and on error, so callers must check further.
pub struct GetTopIndex {}

impl GetTopIndex {
    /// The result word is the index.
    pub fn convert_ret(&self, v: isize) -> (r: u32)
        ensures
            r == v as u32,
    {
        #[verifier::truncate] (v as u32)
    }

    /// Carries no parameters.
    pub fn as_generic_wm(&mut self) -> (m: WndMsg)
        ensures
            *final(self) == *old(self),
            m == (WndMsg {
                msg_id: co::LVM_GETTOPINDEX,
                wparam: WmArg::Num(0),
                lparam: WmArg::Num(0),
            }),
    {
        WndMsg {
            msg_id: co::LVM_GETTOPINDEX,
            wparam: WmArg::Num(0),
            lparam: WmArg::Num(0),
        }
    }
}

/// Reads whether the control uses wide characters.
pub struct GetUnicodeFormat {}

impl GetUnicodeFormat {
    /// Nonzero when wide characters are in use.
    pub fn convert_ret(&self, v: isize) -> (r: bool)
        ensures
            r == (v != 0),
    {
        v != 0
    }

    /// Carries no parameters.
    pub fn as_generic_wm(&mut self) -> (m: WndMsg)
        ensures
            *final(self) == *old(self),
            m == (WndMsg {
                msg_id: co::LVM_GETUNICODEFORMAT,
                wparam: WmArg::Num(0),
                lparam: WmArg::Num(0),
            }),
    {
        WndMsg {
            msg_id: co::LVM_GETUNICODEFORMAT,
            wparam: WmArg::Num(0),
            lparam: WmArg::Num(0),
        }
    }
}

/// Reads the current view mode.
pub struct GetView {}

impl GetView {
    /// The result word is the view code.
    pub fn convert_ret(&self, v: isize) -> (r: co::LV_VIEW)
        ensures
            r == co::LV_VIEW(v as u32),
    {
        co::LV_VIEW(#[verifier::truncate] (v as u32))
    }

    /// Carries no parameters.
    pub fn as_generic_wm(&mut self) -> (m: WndMsg)
        ensures
            *final(self) == *old(self),
            m == (WndMsg {
                msg_id: co::LVM_GETVIEW,
                wparam: WmArg::Num(0),
                lparam: WmArg::Num(0),
            }),
    {
        WndMsg {
            msg_id: co::LVM_GETVIEW,
            wparam: WmArg::Num(0),
            lparam: WmArg::Num(0),
        }
    }
}

/// Reads the bounding rectangle of all items.
pub struct GetViewRect {
    pub rect: RECT,
}

impl GetViewRect {
    /// Zero means failure; anything else is success.
    pub fn convert_ret(&self, v: isize) -> (r: Result<(), ERROR>)
        ensures
            v == 0 ==> r == Result::<(), ERROR>::Err(ERROR(co::ERROR_BAD_ARGUMENTS)),
            v != 0 ==> r == Result::<(), ERROR>::Ok(()),
    {
        match zero_as_err(v) {
            Ok(_) => Ok(()),
            Err(e) => Err(e),
        }
    }

    /// Encodes the rectangle block.
    pub fn as_generic_wm(&mut self) -> (m: WndMsg)
        ensures
            *final(self) == *old(self),
            m == (WndMsg {
                msg_id: co::LVM_GETVIEWRECT,
                wparam: WmArg::Num(0),
                lparam: WmArg::RectBuf(old(self).rect),
            }),
    {
        WndMsg {
            msg_id: co::LVM_GETVIEWRECT,
            wparam: WmArg::Num(0),
            lparam: WmArg::RectBuf(self.rect),
        }
    }
}

/// Reads the work areas into a caller-sized array of rectangles.
pub struct GetWorkAreas {
    pub rects: Vec<RECT>,
}

impl GetWorkAreas {
    /// The result word carries nothing.
    pub fn convert_ret(&self, _v: isize) -> (r: ()) {
    }

    /// Encodes the array's length and its output capacity.
    pub fn as_generic_wm(&mut self) -> (m: WndMsg)
        ensures
            *final(self) == *old(self),
            m == (WndMsg {
                msg_id: co::LVM_GETWORKAREAS,
                wparam: WmArg::Num(old(self).rects.len() as isize),
                lparam: WmArg::RectOutBuf(old(self).rects.len() as usize),
            }),
    {
        let n = self.rects.len();
        WndMsg {
            msg_id: co::LVM_GETWORKAREAS,
            wparam: WmArg::Num(#[verifier::truncate] (n as isize)),
            lparam: WmArg::RectOutBuf(n),
        }
    }
}

/// Asks whether a group exists.
pub struct HasGroup {
    pub group_id: u32,
}

impl HasGroup {
    /// Nonzero when the group exists.
    pub fn convert_ret(&self, v: isize) -> (r: bool)
        ensures
            r == (v != 0),
    {
        v != 0
    }

    /// Encodes the group identifier.
    pub fn as_generic_wm(&mut self) -> (m: WndMsg)
        ensures
            *final(self) == *old(self),
            m == (WndMsg {
                msg_id: co::LVM_HASGROUP,
                wparam: WmArg::Num(old(self).group_id as isize),
                lparam: WmArg::Num(0),
            }),
    {
        WndMsg {
            msg_id: co::LVM_HASGROUP,
            wparam: WmArg::Num(self.group_id as isize),
            lparam: WmArg::Num(0),
        }
    }
}

/// Finds the item under a point.
pub struct HitTest {
    pub info: LVHITTESTINFO,
}

impl HitTest {
    /// Minus one means no item there; anything else is the index.
    pub fn convert_ret(&self, v: isize) -> (r: Option<u32>)
        ensures
            v == -1 ==> r == Option::<u32>::None,
            v != -1 ==> r == Option::<u32>::Some(v as u32),
    {
        if v == -1 {
            None
        } else {
            Some(#[verifier::truncate] (v as u32))
        }
    }

    /// Encodes the sentinel first parameter and the hit-test block.
    pub fn as_generic_wm(&mut self) -> (m: WndMsg)
        ensures
            *final(self) == *old(self),
            m == (WndMsg {
                msg_id: co::LVM_HITTEST,
                wparam: WmArg::Num(-1isize),
                lparam: WmArg::HitTestInfoBuf(old(self).info),
            }),
    {
        WndMsg {
            msg_id: co::LVM_HITTEST,
            wparam: WmArg::Num(-1),
            lparam: WmArg::HitTestInfoBuf(self.info),
        }
    }
}

/// Inserts a column.
pub struct InsertColumn {
    pub index: u32,
    pub lvcolumn: LVCOLUMN,
}

impl InsertColumn {
    /// Minus one means failure; anything else is the new column's index.
    pub fn convert_ret(&self, v: isize) -> (r: Result<u32, ERROR>)
        ensures
            v == -1 ==> r == Result::<u32, ERROR>::Err(ERROR(co::ERROR_BAD_ARGUMENTS)),
            v != -1 ==> r == Result::<u32, ERROR>::Ok(v as u32),
    {
        if v == -1 {
            Err(ERROR(co::ERROR_BAD_ARGUMENTS))
        } else {
            Ok(#[verifier::truncate] (v as u32))
        }
    }

    /// Encodes the insertion index and the column block.
    pub fn as_generic_wm(&mut self) -> (m: WndMsg)
        ensures
            *final(self) == *old(self),
            m.msg_id == co::LVM_INSERTCOLUMN,
            m.wparam == WmArg::Num(old(self).index as isize),
            m.lparam == WmArg::ColumnBuf(old(self).lvcolumn),
    {
        WndMsg {
            msg_id: co::LVM_INSERTCOLUMN,
            wparam: WmArg::Num(self.index as isize),
            lparam: WmArg::ColumnBuf(self.lvcolumn.clone()),
        }
    }
}

/// Inserts an item.
pub struct InsertItem {
    pub lvitem: LVITEM,
}

impl InsertItem {
    /// Minus one means failure; anything else is the new item's index.
    pub fn convert_ret(&self, v: isize) -> (r: Result<u32, ERROR>)
        ensures
            v == -1 ==> r == Result::<u32, ERROR>::Err(ERROR(co::ERROR_BAD_ARGUMENTS)),
            v != -1 ==> r == Result::<u32, ERROR>::Ok(v as u32),
    {
        if v == -1 {
            Err(ERROR(co::ERROR_BAD_ARGUMENTS))
        } else {
            Ok(#[verifier::truncate] (v as u32))
        }
    }

    /// Encodes the item block.
    pub fn as_generic_wm(&mut self) -> (m: WndMsg)
        ensures
            *final(self) == *old(self),
            m.msg_id == co::LVM_INSERTITEM,
            m.wparam == WmArg::Num(0),
            m.lparam == WmArg::ItemBuf(old(self).lvitem),
    {
        WndMsg {
            msg_id: co::LVM_INSERTITEM,
            wparam: WmArg::Num(0),
            lparam: WmArg::ItemBuf(self.lvitem.clone()),
        }
    }
}

/// Inserts a group.
pub struct InsertGroup {
    pub lvgroup: LVGROUP,
}

impl InsertGroup {
    /// Minus one means failure; anything else is the new group's index.
    pub fn convert_ret(&self, v: isize) -> (r: Result<u32, ERROR>)
        ensures
            v == -1 ==> r == Result::<u32, ERROR>::Err(ERROR(co::ERROR_BAD_ARGUMENTS)),
            v != -1 ==> r == Result::<u32, ERROR>::Ok(v as u32),
    {
        if v == -1 {
            Err(ERROR(co::ERROR_BAD_ARGUMENTS))
        } else {
            Ok(#[verifier::truncate] (v as u32))
        }
    }

    /// Encodes the group block.
    pub fn as_generic_wm(&mut self) -> (m: WndMsg)
        ensures
            *final(self) == *old(self),
            m.msg_id == co::LVM_INSERTGROUP,
            m.wparam == WmArg::Num(0),
            m.lparam == WmArg::GroupBuf(old(self).lvgroup),
    {
        WndMsg {
            msg_id: co::LVM_INSERTGROUP,
            wparam: WmArg::Num(0),
            lparam: WmArg::GroupBuf(self.lvgroup.clone()),
        }
    }
}

/// Asks whether group view is on.
pub struct IsGroupViewEnabled {}

impl IsGroupViewEnabled {
    /// Nonzero when group view is on.
    pub fn convert_ret(&self, v: isize) -> (r: bool)
        ensures
            r == (v != 0),
    {
        v != 0
    }

    /// Carries no parameters.
    pub fn as_generic_wm(&mut self) -> (m: WndMsg)
        ensures
            *final(self) == *old(self),
            m == (WndMsg {
                msg_id: co::LVM_ISGROUPVIEWENABLED,
                wparam: WmArg::Num(0),
                lparam: WmArg::Num(0),
            }),
    {
        WndMsg {
            msg_id: co::LVM_ISGROUPVIEWENABLED,
            wparam: WmArg::Num(0),
            lparam: WmArg::Num(0),
        }
    }
}

/// Asks whether an item is visible.
pub struct IsItemVisible {
    pub index: u32,
}

impl IsItemVisible {
    /// Nonzero when the item is visible.
    pub fn convert_ret(&self, v: isize) -> (r: bool)
        ensures
            r == (v != 0),
    {
        v != 0
    }

    /// Encodes the item index.
    pub fn as_generic_wm(&mut self) -> (m: WndMsg)
        ensures
            *final(self) == *old(self),
            m == (WndMsg {
                msg_id: co::LVM_ISITEMVISIBLE,
                wparam: WmArg::Num(old(self).index as isize),
                lparam: WmArg::Num(0),
            }),
    {
        WndMsg {
            msg_id: co::LVM_ISITEMVISIBLE,
            wparam: WmArg::Num(self.index as isize),
            lparam: WmArg::Num(0),
        }
    }
}

/// Maps an item's identifier to its current index.
pub struct MapIdToIndex {
    pub id: u32,
}

impl MapIdToIndex {
    /// Minus one means no such item; anything else is the index.
    pub fn convert_ret(&self, v: isize) -> (r: Option<u32>)
        ensures
            v == -1 ==> r == Option::<u32>::None,
            v != -1 ==> r == Option::<u32>::Some(v as u32),
    {
        if v == -1 {
            None
        } else {
            Some(#[verifier::truncate] (v as u32))
        }
    }

    /// Encodes the identifier.
    pub fn as_generic_wm(&mut self) -> (m: WndMsg)
        ensures
            *final(self) == *old(self),
            m == (WndMsg {
                msg_id: co::LVM_MAPIDTOINDEX,
                wparam: WmArg::Num(old(self).id as isize),
                lparam: WmArg::Num(0),
            }),
    {
        WndMsg {
            msg_id: co::LVM_MAPIDTOINDEX,
            wparam: WmArg::Num(self.id as isize),
            lparam: WmArg::Num(0),
        }
    }
}

/// Maps an item's current index to its identifier.
pub struct MapIndexToId {
    pub index: u32,
}

impl MapIndexToId {
    /// Minus one means no such item; anything else is the identifier.
    pub fn convert_ret(&self, v: isize) -> (r: Option<u32>)
        ensures
            v == -1 ==> r == Option::<u32>::None,
            v != -1 ==> r == Option::<u32>::Some(v as u32),
    {
        if v == -1 {
            None
        } else {
            Some(#[verifier::truncate] (v as u32))
        }
    }

    /// Encodes the index.
    pub fn as_generic_wm(&mut self) -> (m: WndMsg)
        ensures
            *final(self) == *old(self),
            m == (WndMsg {
                msg_id: co::LVM_MAPINDEXTOID,
                wparam: WmArg::Num(old(self).index as isize),
                lparam: WmArg::Num(0),
            }),
    {
        WndMsg {
            msg_id: co::LVM_MAPINDEXTOID,
            wparam: WmArg::Num(self.index as isize),
            lparam: WmArg::Num(0),
        }
    }
}

/// Forces a range of items to be redrawn.
pub struct RedrawItems {
    pub first_index: u32,
    pub last_index: u32,
}

impl RedrawItems {
    /// Zero means failure; anything else is success.
    pub fn convert_ret(&self, v: isize) -> (r: Result<(), ERROR>)
        ensures
            v == 0 ==> r == Result::<(), ERROR>::Err(ERROR(co::ERROR_BAD_ARGUMENTS)),
            v != 0 ==> r == Result::<(), ERROR>::Ok(()),
    {
        match zero_as_err(v) {
            Ok(_) => Ok(()),
            Err(e) => Err(e),
        }
    }

    /// Encodes the first and last index of the range.
    pub fn as_generic_wm(&mut self) -> (m: WndMsg)
        ensures
            *final(self) == *old(self),
            m == (WndMsg {
                msg_id: co::LVM_REDRAWITEMS,
                wparam: WmArg::Num(old(self).first_index as isize),
                lparam: WmArg::Num(old(self).last_index as isize),
            }),
    {
        WndMsg {
            msg_id: co::LVM_REDRAWITEMS,
            wparam: WmArg::Num(self.first_index as isize),
            lparam: WmArg::Num(self.last_index as isize),
        }
    }
}

/// Scrolls the view by a pixel amount.
pub struct Scroll {
    pub horizontal: i32,
    pub vertical: i32,
}

impl Scroll {
    /// Zero means failure; anything else is success.
    pub fn convert_ret(&self, v: isize) -> (r: Result<(), ERROR>)
        ensures
            v == 0 ==> r == Result::<(), ERROR>::Err(ERROR(co::ERROR_BAD_ARGUMENTS)),
            v != 0 ==> r == Result::<(), ERROR>::Ok(()),
    {
        match zero_as_err(v) {
            Ok(_) => Ok(()),
            Err(e) => Err(e),
        }
    }

    /// Encodes the horizontal and vertical amounts.
    pub fn as_generic_wm(&mut self) -> (m: WndMsg)
        ensures
            *final(self) == *old(self),
            m == (WndMsg {
                msg_id: co::LVM_SCROLL,
                wparam: WmArg::Num(old(self).horizontal as isize),
                lparam: WmArg::Num(old(self).vertical as isize),
            }),
    {
        WndMsg {
            msg_id: co::LVM_SCROLL,
            wparam: WmArg::Num(self.horizontal as isize),
            lparam: WmArg::Num(self.vertical as isize),
        }
    }
}

/// Rewrites one column's description.
pub struct SetColumn {
    pub index: u32,
    pub lvcolumn: LVCOLUMN,
}

impl SetColumn {
    /// Zero means failure; anything else is success.
    pub fn convert_ret(&self, v: isize) -> (r: Result<(), ERROR>)
        ensures
            v == 0 ==> r == Result::<(), ERROR>::Err(ERROR(co::ERROR_BAD_ARGUMENTS)),
            v != 0 ==> r == Result::<(), ERROR>::Ok(()),
    {
        match zero_as_err(v) {
            Ok(_) => Ok(()),
            Err(e) => Err(e),
        }
    }

    /// Encodes the column index and the column block.
    pub fn as_generic_wm(&mut self) -> (m: WndMsg)
        ensures
            *final(self) == *old(self),
            m.msg_id == co::LVM_SETCOLUMN,
            m.wparam == WmArg::Num(old(self).index as isize),
            m.lparam == WmArg::ColumnBuf(old(self).lvcolumn),
    {
        WndMsg {
            msg_id: co::LVM_SETCOLUMN,
            wparam: WmArg::Num(self.index as isize),
            lparam: WmArg::ColumnBuf(self.lvcolumn.clone()),
        }
    }
}

/// Sets one column's width.
pub struct SetColumnWidth {
    pub index: u32,
    pub width: u32,
}

impl SetColumnWidth {
    /// Zero means failure; anything else is success.
    pub fn convert_ret(&self, v: isize) -> (r: Result<(), ERROR>)
        ensures
            v == 0 ==> r == Result::<(), ERROR>::Err(ERROR(co::ERROR_BAD_ARGUMENTS)),
            v != 0 ==> r == Result::<(), ERROR>::Ok(()),
    {
        match zero_as_err(v) {
            Ok(_) => Ok(()),
            Err(e) => Err(e),
        }
    }

    /// Encodes the column index and the width.
    pub fn as_generic_wm(&mut self) -> (m: WndMsg)
        ensures
            *final(self) == *old(self),
            m == (WndMsg {
                msg_id: co::LVM_SETCOLUMNWIDTH,
                wparam: WmArg::Num(old(self).index as isize),
                lparam: WmArg::Num(old(self).width as isize),
            }),
    {
        WndMsg {
            msg_id: co::LVM_SETCOLUMNWIDTH,
            wparam: WmArg::Num(self.index as isize),
            lparam: WmArg::Num(self.width as isize),
        }
    }
}

/// Changes the extended styles named by a mask.
pub struct SetExtendedListViewStyle {
    pub style: co::LVS_EX,
    pub mask: co::LVS_EX,
}

impl SetExtendedListViewStyle {
    /// The result word is the previous style set.
    pub fn convert_ret(&self, v: isize) -> (r: co::LVS_EX)
        ensures
            r == co::LVS_EX(v as u32),
    {
        co::LVS_EX(#[verifier::truncate] (v as u32))
    }

    /// Encodes the new styles and the mask of styles to change.
    pub fn as_generic_wm(&mut self) -> (m: WndMsg)
        ensures
            *final(self) == *old(self),
            m == (WndMsg {
                msg_id: co::LVM_SETEXTENDEDLISTVIEWSTYLE,
                wparam: WmArg::Num(old(self).style.0 as isize),
                lparam: WmArg::Num(old(self).mask.0 as isize),
            }),
    {
        WndMsg {
            msg_id: co::LVM_SETEXTENDEDLISTVIEWSTYLE,
            wparam: WmArg::Num(self.style.0 as isize),
            lparam: WmArg::Num(self.mask.0 as isize),
        }
    }
}

/// Assigns one of the control's image lists.
pub struct SetImageList {
    pub kind: co::LVSIL,
    pub himagelist: HIMAGELIST,
}

impl SetImageList {
    /// Zero means there was no previous list; anything else is its handle.
    pub fn convert_ret(&self, v: isize) -> (r: Option<HIMAGELIST>)
        ensures
            v == 0 ==> r == Option::<HIMAGELIST>::None,
            v != 0 ==> r == Option::<HIMAGELIST>::Some(HIMAGELIST(v as usize)),
    {
        match zero_as_none(v) {
            Some(h) => Some(HIMAGELIST(#[verifier::truncate] (h as usize))),
            None => None,
        }
    }

    /// Encodes which list is assigned, and its handle.
    pub fn as_generic_wm(&mut self) -> (m: WndMsg)
        ensures
            *final(self) == *old(self),
            m == (WndMsg {
                msg_id: co::LVM_SETIMAGELIST,
                wparam: WmArg::Num(old(self).kind.0 as isize),
                lparam: WmArg::Num(old(self).himagelist.0 as isize),
            }),
    {
        WndMsg {
            msg_id: co::LVM_SETIMAGELIST,
            wparam: WmArg::Num(self.kind.0 as isize),
            lparam: WmArg::Num(#[verifier::truncate] (self.himagelist.0 as isize)),
        }
    }
}

/// Rewrites an item's attributes.
pub struct SetItem {
    pub lvitem: LVITEM,
}

impl SetItem {
    /// Zero means failure; anything else is success.
    pub fn convert_ret(&self, v: isize) -> (r: Result<(), ERROR>)
        ensures
            v == 0 ==> r == Result::<(), ERROR>::Err(ERROR(co::ERROR_BAD_ARGUMENTS)),
            v != 0 ==> r == Result::<(), ERROR>::Ok(()),
    {
        match zero_as_err(v) {
            Ok(_) => Ok(()),
            Err(e) => Err(e),
        }
    }

    /// Encodes the item block.
    pub fn as_generic_wm(&mut self) -> (m: WndMsg)
        ensures
            *final(self) == *old(self),
            m.msg_id == co::LVM_SETITEM,
            m.wparam == WmArg::Num(0),
            m.lparam == WmArg::ItemBuf(old(self).lvitem),
    {
        WndMsg {
            msg_id: co::LVM_SETITEM,
            wparam: WmArg::Num(0),
            lparam: WmArg::ItemBuf(self.lvitem.clone()),
        }
    }
}

/// Changes the state of one item, or of all items when the index is
/// absent.
pub struct SetItemState {
    pub index: Option<u32>,
    pub lvitem: LVITEM,
}

impl SetItemState {
    /// Zero means failure; anything else is success.
    pub fn convert_ret(&self, v: isize) -> (r: Result<(), ERROR>)
        ensures
            v == 0 ==> r == Result::<(), ERROR>::Err(ERROR(co::ERROR_BAD_ARGUMENTS)),
            v != 0 ==> r == Result::<(), ERROR>::Ok(()),
    {
        match zero_as_err(v) {
            Ok(_) => Ok(()),
            Err(e) => Err(e),
        }
    }

    /// Encodes the item index (absent: minus one) and the item block.
    pub fn as_generic_wm(&mut self) -> (m: WndMsg)
        ensures
            *final(self) == *old(self),
            m.msg_id == co::LVM_SETITEMSTATE,
            (match old(self).index {
                Some(i) => m.wparam == WmArg::Num((i as i32) as isize),
                None => m.wparam == WmArg::Num(-1isize),
            }),
            m.lparam == WmArg::ItemBuf(old(self).lvitem),
    {
        let wp: isize = match self.index {
            Some(i) => {
                let t = #[verifier::truncate] (i as i32);
                t as isize
            },
            None => -1,
        };
        WndMsg {
            msg_id: co::LVM_SETITEMSTATE,
            wparam: WmArg::Num(wp),
            lparam: WmArg::ItemBuf(self.lvitem.clone()),
        }
    }
}

/// Rewrites an item's text.
pub struct SetItemText {
    pub index: u32,
    pub lvitem: LVITEM,
}

impl SetItemText {
    /// Zero means failure; anything else is success.
    pub fn convert_ret(&self, v: isize) -> (r: Result<(), ERROR>)
        ensures
            v == 0 ==> r == Result::<(), ERROR>::Err(ERROR(co::ERROR_BAD_ARGUMENTS)),
            v != 0 ==> r == Result::<(), ERROR>::Ok(()),
    {
        match zero_as_err(v) {
            Ok(_) => Ok(()),
            Err(e) => Err(e),
        }
    }

    /// Encodes the item index and the item block.
    pub fn as_generic_wm(&mut self) -> (m: WndMsg)
        ensures
            *final(self) == *old(self),
            m.msg_id == co::LVM_SETITEMTEXT,
            m.wparam == WmArg::Num(old(self).index as isize),
            m.lparam == WmArg::ItemBuf(old(self).lvitem),
    {
        WndMsg {
            msg_id: co::LVM_SETITEMTEXT,
            wparam: WmArg::Num(self.index as isize),
            lparam: WmArg::ItemBuf(self.lvitem.clone()),
        }
    }
}

/// Marks one column as selected.
pub struct SetSelectedColumn {
    pub index: u32,
}

impl SetSelectedColumn {
    /// The result word carries nothing.
    pub fn convert_ret(&self, _v: isize) -> (r: ()) {
    }

    /// Encodes the column index.
    pub fn as_generic_wm(&mut self) -> (m: WndMsg)
        ensures
            *final(self) == *old(self),
            m == (WndMsg {
                msg_id: co::LVM_SETSELECTEDCOLUMN,
                wparam: WmArg::Num(old(self).index as isize),
                lparam: WmArg::Num(0),
            }),
    {
        WndMsg {
            msg_id: co::LVM_SETSELECTEDCOLUMN,
            wparam: WmArg::Num(self.index as isize),
            lparam: WmArg::Num(0),
        }
    }
}

/// Switches the view mode.
pub struct SetView {
    pub view: co::LV_VIEW,
}

impl SetView {
    /// Minus one means failure; anything else is success.
    pub fn convert_ret(&self, v: isize) -> (r: Result<(), ERROR>)
        ensures
            v == -1 ==> r == Result::<(), ERROR>::Err(ERROR(co::ERROR_BAD_ARGUMENTS)),
            v != -1 ==> r == Result::<(), ERROR>::Ok(()),
    {
        if v == -1 {
            Err(ERROR(co::ERROR_BAD_ARGUMENTS))
        } else {
            Ok(())
        }
    }

    /// Encodes the view code.
    pub fn as_generic_wm(&mut self) -> (m: WndMsg)
        ensures
            *final(self) == *old(self),
            m == (WndMsg {
                msg_id: co::LVM_SETVIEW,
                wparam: WmArg::Num(old(self).view.0 as isize),
                lparam: WmArg::Num(0),
            }),
    {
        WndMsg {
            msg_id: co::LVM_SETVIEW,
            wparam: WmArg::Num(self.view.0 as isize),
            lparam: WmArg::Num(0),
        }
    }
}

/// Forces one item to be redrawn, rearranging if needed.
pub struct Update {
    pub index: u32,
}

impl Update {
    /// Zero means failure; anything else is success.
    pub fn convert_ret(&self, v: isize) -> (r: Result<(), ERROR>)
        ensures
            v == 0 ==> r == Result::<(), ERROR>::Err(ERROR(co::ERROR_BAD_ARGUMENTS)),
            v != 0 ==> r == Result::<(), ERROR>::Ok(()),
    {
        match zero_as_err(v) {
            Ok(_) => Ok(()),
            Err(e) => Err(e),
        }
    }

    /// Encodes the item index.
    pub fn as_generic_wm(&mut self) -> (m: WndMsg)
        ensures
            *final(self) == *old(self),
            m == (WndMsg {
                msg_id: co::LVM_UPDATE,
                wparam: WmArg::Num(old(self).index as isize),
                lparam: WmArg::Num(0),
            }),
    {
        WndMsg {
            msg_id: co::LVM_UPDATE,
            wparam: WmArg::Num(self.index as isize),
            lparam: WmArg::Num(0),
        }
    }
}

} // verus!
