//! The generic window-message form, and the return-value decoders shared
//! by the message builders.
//!
//! A message is an identity plus two parameter words. Where the real
//! protocol passes the address of a caller-owned block in a parameter,
//! the generic form here carries the block's contents by value (or, for a
//! bare output array, its capacity): handing an address to the system is
//! the unsafe edge's concern and never happens in this crate.

use vstd::prelude::*;

use crate::co::{ERROR, ERROR_BAD_ARGUMENTS};
use crate::structs::{
    LVBKIMAGE, LVCOLUMN, LVFINDINFO, LVFOOTERINFO, LVFOOTERITEM, LVGROUP, LVGROUPMETRICS,
    LVHITTESTINFO, LVINSERTMARK, LVITEM, LVITEMINDEX, LVTILEINFO, LVTILEVIEWINFO, POINT, RECT,
};

verus! {

/// One parameter of the generic message form.
#[derive(PartialEq, Eq, Debug)]
pub enum WmArg {
    /// A plain scalar, sign-extended to a machine word.
    Num(isize),
    /// An in-out rectangle block, with the contents handed over.
    RectBuf(RECT),
    /// An in-out point block.
    PointBuf(POINT),
    /// An item-index block.
    ItemIndexBuf(LVITEMINDEX),
    /// A column description block.
    ColumnBuf(LVCOLUMN),
    /// An item description block.
    ItemBuf(LVITEM),
    /// A group description block.
    GroupBuf(LVGROUP),
    /// A group-metrics block.
    GroupMetricsBuf(LVGROUPMETRICS),
    /// A find-item description block.
    FindInfoBuf(LVFINDINFO),
    /// A hit-test block.
    HitTestInfoBuf(LVHITTESTINFO),
    /// An insert-mark block.
    InsertMarkBuf(LVINSERTMARK),
    /// A tile-info block.
    TileInfoBuf(LVTILEINFO),
    /// A tile-view-info block.
    TileViewInfoBuf(LVTILEVIEWINFO),
    /// A footer-info block.
    FooterInfoBuf(LVFOOTERINFO),
    /// A footer-item block.
    FooterItemBuf(LVFOOTERITEM),
    /// A background-image block.
    BkImageBuf(LVBKIMAGE),
    /// Read-only text the receiver consumes.
    Text(String),
    /// A text output buffer: its capacity in code units.
    TextOutBuf(usize),
    /// An output array of doublewords: its capacity in elements.
    U32OutBuf(usize),
    /// An output array of rectangles: its capacity in elements.
    RectOutBuf(usize),
}

/// The generic form of a window message: its identity and the two
/// parameters, as the system's message procedure takes them.
#[derive(PartialEq, Eq, Debug)]
pub struct WndMsg {
    pub msg_id: u32,
    pub wparam: WmArg,
    pub lparam: WmArg,
}

/// Decodes a result word whose zero value means failure: zero becomes the
/// bad-arguments error, anything else passes through.
pub fn zero_as_err(v: isize) -> (r: Result<isize, ERROR>)
    ensures
        v == 0 ==> r == Result::<isize, ERROR>::Err(ERROR(ERROR_BAD_ARGUMENTS)),
        v != 0 ==> r == Result::<isize, ERROR>::Ok(v),
{
    if v == 0 {
        Err(ERROR(ERROR_BAD_ARGUMENTS))
    } else {
        Ok(v)
    }
}

/// Decodes a result word whose zero value means absence: zero becomes
/// nothing, anything else passes through.
pub fn zero_as_none(v: isize) -> (r: Option<isize>)
    ensures
        v == 0 ==> r == Option::<isize>::None,
        v != 0 ==> r == Option::<isize>::Some(v),
{
    if v == 0 {
        None
    } else {
        Some(v)
    }
}

} // verus!
