//! Variant parameters: each is one of a few alternative values that a
//! call site may pass, with the conversions the protocol prescribes.

use vstd::prelude::*;
use vstd::string::StringSliceAdditionalSpecFns;

use crate::co;
use crate::co::{CMD, DMDISPLAYFLAGS, DMNUP, ENUM_SETTINGS, HWND_PLACE, IDC, IDI, MF, OBM, OCR, OIC};
use crate::handles::{HBITMAP, HICON, HMENU, HWND};
use crate::structs::{ATOM, NCCALCSIZE_PARAMS, POINT, RECT, WString};

verus! {

/// Where a command notification came from: an accelerator, a menu item,
/// or a child control.
pub enum AccelMenuCtrl {
    /// An accelerator event, with the accelerator command identifier.
    Accel(u16),
    /// A menu click, with the menu item command identifier.
    Menu(u16),
    /// A child-control event, with its data.
    Ctrl(AccelMenuCtrlData),
}

/// The data of a child-control command notification.
#[derive(Clone, Copy, PartialEq, Eq, Structural, Debug)]
pub struct AccelMenuCtrlData {
    pub notif_code: CMD,
    pub ctrl_id: u16,
    pub ctrl_hwnd: HWND,
}

impl AccelMenuCtrl {
    /// Returns the notification code and the control identifier pair.
    pub fn code_id(&self) -> (r: (CMD, u16))
        ensures
            (match self {
                AccelMenuCtrl::Accel(id) => r == (CMD(co::CMD_ACCELERATOR), *id),
                AccelMenuCtrl::Menu(id) => r == (CMD(co::CMD_MENU), *id),
                AccelMenuCtrl::Ctrl(data) => r == (data.notif_code, data.ctrl_id),
            }),
    {
        match self {
            AccelMenuCtrl::Accel(id) => (CMD(co::CMD_ACCELERATOR), *id),
            AccelMenuCtrl::Menu(id) => (CMD(co::CMD_MENU), *id),
            AccelMenuCtrl::Ctrl(data) => (data.notif_code, data.ctrl_id),
        }
    }
}

/// A window-class identity: a registered atom or a class name.
#[derive(Clone)]
pub enum AtomStr {
    /// An atom returned by class registration.
    Atom(ATOM),
    /// A class name.
    Str(WString),
}

impl AtomStr {
    /// Builds the variant directly from a string.
    pub fn from_str(v: &str) -> (r: Self)
        requires
            v.spec_bytes().len() < usize::MAX,
        ensures
            r matches AtomStr::Str(w) && w@ == v@,
    {
        AtomStr::Str(WString::from_str(v))
    }
}

/// A bitmap or an icon.
pub enum BmpIcon {
    /// A bitmap.
    Bmp(HBITMAP),
    /// An icon.
    Icon(HICON),
}

impl BmpIcon {
    /// Converts the held handle into a machine word.
    pub fn as_isize(&self) -> (r: isize)
        ensures
            (match self {
                BmpIcon::Bmp(hbmp) => r == hbmp.0 as isize,
                BmpIcon::Icon(hicon) => r == hicon.0 as isize,
            }),
    {
        match self {
            BmpIcon::Bmp(hbmp) => #[verifier::truncate] (hbmp.0 as isize),
            BmpIcon::Icon(hicon) => #[verifier::truncate] (hicon.0 as isize),
        }
    }
}

/// A bitmap, an opaque word, a string, or nothing.
pub enum BmpPtrStr {
    /// A bitmap.
    Bmp(HBITMAP),
    /// An opaque word handed through unchanged.
    Ptr(usize),
    /// A string.
    Str(WString),
    /// Nothing.
    Nothing,
}

impl BmpPtrStr {
    /// Builds the variant directly from a string.
    pub fn from_str(v: &str) -> (r: Self)
        requires
            v.spec_bytes().len() < usize::MAX,
        ensures
            r matches BmpPtrStr::Str(w) && w@ == v@,
    {
        BmpPtrStr::Str(WString::from_str(v))
    }
}

/// Display flags or an n-up code of a device mode.
#[derive(Clone, Copy)]
pub enum DispfNup {
    /// Used for displays.
    Dispf(DMDISPLAYFLAGS),
    /// Used for printers.
    Nup(DMNUP),
}

/// A graphics-mode index or a predefined enumeration code.
#[derive(Clone, Copy)]
pub enum GmidxEnum {
    /// A graphics-mode index.
    Gmidx(u32),
    /// A predefined enumeration.
    Enum(ENUM_SETTINGS),
}

impl GmidxEnum {
    /// The plain doubleword either variant carries.
    pub fn as_u32(&self) -> (r: u32)
        ensures
            (match self {
                GmidxEnum::Gmidx(idx) => r == idx,
                GmidxEnum::Enum(es) => r == es.0,
            }),
    {
        match self {
            GmidxEnum::Gmidx(idx) => *idx,
            GmidxEnum::Enum(es) => es.0,
        }
    }
}

/// The control to receive focus: a handle, or a direction along the tab
/// order.
pub enum HwndFocus {
    /// Handle to the control to receive the focus.
    Hwnd(HWND),
    /// True for the next control with the tab-stop style, false for the
    /// previous one.
    FocusNext(bool),
}

/// A window or a menu.
pub enum HwndHmenu {
    /// A window.
    Hwnd(HWND),
    /// A menu.
    Hmenu(HMENU),
}

impl HwndHmenu {
    /// Converts the held handle into a machine word.
    pub fn as_isize(&self) -> (r: isize)
        ensures
            (match self {
                HwndHmenu::Hwnd(hwnd) => r == hwnd.0 as isize,
                HwndHmenu::Hmenu(hmenu) => r == hmenu.0 as isize,
            }),
    {
        match self {
            HwndHmenu::Hwnd(hwnd) => #[verifier::truncate] (hwnd.0 as isize),
            HwndHmenu::Hmenu(hmenu) => #[verifier::truncate] (hmenu.0 as isize),
        }
    }
}

/// The window to precede the positioned window, a placement code, or
/// nothing.
pub enum HwndPlace {
    /// A handle to the window to precede the positioned window.
    Hwnd(HWND),
    /// A constant naming where the window is placed.
    Place(HWND_PLACE),
    /// Nothing.
    Nothing,
}

/// A child window, cursor coordinates, or a pointer identifier.
pub enum HwndPointId {
    /// Handle to the child window.
    Hwnd(HWND),
    /// Cursor coordinates.
    Point(POINT),
    /// Pointer identifier.
    Id(u16),
}

impl HwndPointId {
    /// Converts the contents into a machine word: a handle as itself, a
    /// point packed into one doubleword, an identifier widened.
    pub fn as_isize(&self) -> (r: isize)
        ensures
            (match self {
                HwndPointId::Hwnd(hwnd) => r == hwnd.0 as isize,
                HwndPointId::Point(pt) => r == ((pt.x as u16) + (pt.y as u16) * 0x1_0000) as isize,
                HwndPointId::Id(id) => r == *id as isize,
            }),
    {
        match self {
            HwndPointId::Hwnd(hwnd) => #[verifier::truncate] (hwnd.0 as isize),
            HwndPointId::Point(pt) => {
                let x = #[verifier::truncate] (pt.x as u16);
                let y = #[verifier::truncate] (pt.y as u16);
                crate::funcs::MAKEDWORD(x, y) as isize
            },
            HwndPointId::Id(id) => *id as isize,
        }
    }
}

/// A cursor resource: an identifier, a stock cursor, or a name.
#[derive(Clone)]
pub enum IdIdcStr {
    /// A resource identifier.
    Id(u16),
    /// A stock system cursor.
    Idc(IDC),
    /// A resource name.
    Str(WString),
}

impl IdIdcStr {
    /// Builds the variant directly from a string.
    pub fn from_str(v: &str) -> (r: Self)
        requires
            v.spec_bytes().len() < usize::MAX,
        ensures
            r matches IdIdcStr::Str(w) && w@ == v@,
    {
        IdIdcStr::Str(WString::from_str(v))
    }
}

/// An icon resource: an identifier, a stock icon, or a name.
#[derive(Clone)]
pub enum IdIdiStr {
    /// A resource identifier.
    Id(u16),
    /// A stock system icon.
    Idi(IDI),
    /// A resource name.
    Str(WString),
}

impl IdIdiStr {
    /// Builds the variant directly from a string.
    pub fn from_str(v: &str) -> (r: Self)
        requires
            v.spec_bytes().len() < usize::MAX,
        ensures
            r matches IdIdiStr::Str(w) && w@ == v@,
    {
        IdIdiStr::Str(WString::from_str(v))
    }
}

/// A command identifier, a menu, or nothing.
pub enum IdMenu {
    /// A command identifier.
    Id(u16),
    /// A menu.
    Menu(HMENU),
    /// Nothing.
    Nothing,
}

impl IdMenu {
    /// Converts the contents into a machine word.
    pub fn as_usize(&self) -> (r: usize)
        ensures
            (match self {
                IdMenu::Id(id) => r == *id as usize,
                IdMenu::Menu(hmenu) => r == hmenu.0,
                IdMenu::Nothing => r == 0,
            }),
    {
        match self {
            IdMenu::Id(id) => *id as usize,
            IdMenu::Menu(hmenu) => hmenu.0,
            IdMenu::Nothing => 0,
        }
    }
}

/// A bitmap resource: an identifier, a stock bitmap, or a name.
#[derive(Clone)]
pub enum IdObmStr {
    /// A resource identifier.
    Id(u16),
    /// A stock bitmap.
    Obm(OBM),
    /// A resource name or file path.
    Str(WString),
}

impl IdObmStr {
    /// Builds the variant directly from a string.
    pub fn from_str(v: &str) -> (r: Self)
        requires
            v.spec_bytes().len() < usize::MAX,
        ensures
            r matches IdObmStr::Str(w) && w@ == v@,
    {
        IdObmStr::Str(WString::from_str(v))
    }
}

/// A cursor resource: an identifier, a stock cursor resource, or a name.
#[derive(Clone)]
pub enum IdOcrStr {
    /// A resource identifier.
    Id(u16),
    /// A stock cursor resource.
    Ocr(OCR),
    /// A resource name or file path.
    Str(WString),
}

impl IdOcrStr {
    /// Builds the variant directly from a string.
    pub fn from_str(v: &str) -> (r: Self)
        requires
            v.spec_bytes().len() < usize::MAX,
        ensures
            r matches IdOcrStr::Str(w) && w@ == v@,
    {
        IdOcrStr::Str(WString::from_str(v))
    }
}

/// An icon resource: an identifier, a stock icon resource, or a name.
#[derive(Clone)]
pub enum IdOicStr {
    /// A resource identifier.
    Id(u16),
    /// A stock icon resource.
    Oic(OIC),
    /// A resource name or file path.
    Str(WString),
}

impl IdOicStr {
    /// Builds the variant directly from a string.
    pub fn from_str(v: &str) -> (r: Self)
        requires
            v.spec_bytes().len() < usize::MAX,
        ensures
            r matches IdOicStr::Str(w) && w@ == v@,
    {
        IdOicStr::Str(WString::from_str(v))
    }
}

/// How a menu item is addressed: by command identifier or by position.
#[derive(Clone, Copy)]
pub enum IdPos {
    /// A command identifier.
    Id(u16),
    /// A zero-based position.
    Pos(u32),
}

impl IdPos {
    /// Whether the item is addressed by position.
    pub fn is_by_pos(self) -> (r: bool)
        ensures
            r == (self is Pos),
    {
        match self {
            IdPos::Id(_) => false,
            IdPos::Pos(_) => true,
        }
    }

    /// The identifier or the position as a plain doubleword.
    pub fn id_or_pos_u32(self) -> (r: u32)
        ensures
            (match self {
                IdPos::Id(id) => r == id as u32,
                IdPos::Pos(pos) => r == pos,
            }),
    {
        match self {
            IdPos::Id(id) => id as u32,
            IdPos::Pos(pos) => pos,
        }
    }

    /// The by-command flag for an identifier, the by-position flag for a
    /// position.
    pub fn mf_flag(self) -> (r: MF)
        ensures
            self is Id ==> r == MF(co::MF_BYCOMMAND),
            self is Pos ==> r == MF(co::MF_BYPOSITION),
    {
        match self {
            IdPos::Id(_) => MF(co::MF_BYCOMMAND),
            IdPos::Pos(_) => MF(co::MF_BYPOSITION),
        }
    }
}

/// One entry to append to a menu.
pub enum MenuEnum {
    /// A selectable entry, with command identifier and text.
    Entry(u16, WString),
    /// A separator.
    Separator,
    /// A submenu, with its entry text.
    Submenu(HMENU, WString),
}

/// The parameter of a non-client size calculation: the full parameter
/// block, or a bare rectangle.
pub enum NccspRect {
    /// The full parameter block.
    Nccsp(NCCALCSIZE_PARAMS),
    /// A bare rectangle.
    Rect(RECT),
}

} // verus!
