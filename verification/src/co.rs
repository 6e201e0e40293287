//! Constant tables and code types: system-defined numeric identities,
//! reproduced bit-exact. Each family of codes keeps its classic prefix;
//! the newtypes below make the families distinct in signatures.

#![allow(non_camel_case_types)]

use vstd::prelude::*;

verus! {

/// A Win32 error code, as held by the system's last-error slot. Foreign
/// failure statuses are carried through this type with their value intact.
#[derive(Clone, Copy, PartialEq, Eq, Structural, Debug)]
pub struct ERROR(pub u32);

/// The operation completed successfully.
pub const ERROR_SUCCESS: u32 = 0;
/// One or more arguments are not correct.
pub const ERROR_BAD_ARGUMENTS: u32 = 160;
/// The data area passed to a system call is too small.
pub const ERROR_INSUFFICIENT_BUFFER: u32 = 122;
/// The specified program requires a newer version of Windows.
pub const ERROR_OLD_WIN_VERSION: u32 = 1150;
/// The operation was canceled by the user.
pub const ERROR_CANCELLED: u32 = 1223;

/// Success result code of a foreign call.
pub const S_OK: u32 = 0;
/// Result code: no such interface supported.
pub const E_NOINTERFACE: u32 = 0x8000_4002;
/// Result code: the requested attribute was not found.
pub const MF_E_ATTRIBUTENOTFOUND: u32 = 0xc00d_36e6;
/// Result code: the attribute's value is not of the requested type.
pub const MF_E_INVALIDTYPE: u32 = 0xc00d_36d0;
/// Result code: one or more arguments are invalid.
pub const E_INVALIDARG: u32 = 0x8007_0057;

/// How two attribute tables are matched against each other.
#[derive(Clone, Copy, PartialEq, Eq, Structural, Debug)]
pub struct MF_ATTRIBUTES_MATCH(pub u32);

pub const MF_ATTRIBUTES_MATCH_OUR_ITEMS: u32 = 0;
pub const MF_ATTRIBUTES_MATCH_THEIR_ITEMS: u32 = 1;
pub const MF_ATTRIBUTES_MATCH_ALL_ITEMS: u32 = 2;
pub const MF_ATTRIBUTES_MATCH_INTERSECTION: u32 = 3;
pub const MF_ATTRIBUTES_MATCH_SMALLER: u32 = 4;

//------------------------------------------------------------------------
// Window-message identities of the list-view control. Each is the
// control's first message number plus a fixed, system-defined offset;
// string-bearing messages use their wide-character form.

pub const LVM_FIRST: u32 = 0x1000;

pub const LVM_GETBKCOLOR: u32 = 0x1000;
pub const LVM_SETBKCOLOR: u32 = 0x1001;
pub const LVM_GETIMAGELIST: u32 = 0x1002;
pub const LVM_SETIMAGELIST: u32 = 0x1003;
pub const LVM_GETITEMCOUNT: u32 = 0x1004;
pub const LVM_DELETEITEM: u32 = 0x1008;
pub const LVM_DELETEALLITEMS: u32 = 0x1009;
pub const LVM_GETCALLBACKMASK: u32 = 0x100a;
pub const LVM_SETCALLBACKMASK: u32 = 0x100b;
pub const LVM_GETNEXTITEM: u32 = 0x100c;
pub const LVM_GETITEMRECT: u32 = 0x100e;
pub const LVM_GETITEMPOSITION: u32 = 0x1010;
pub const LVM_HITTEST: u32 = 0x1012;
pub const LVM_ENSUREVISIBLE: u32 = 0x1013;
pub const LVM_SCROLL: u32 = 0x1014;
pub const LVM_REDRAWITEMS: u32 = 0x1015;
pub const LVM_ARRANGE: u32 = 0x1016;
pub const LVM_GETEDITCONTROL: u32 = 0x1018;
pub const LVM_DELETECOLUMN: u32 = 0x101c;
pub const LVM_GETCOLUMNWIDTH: u32 = 0x101d;
pub const LVM_SETCOLUMNWIDTH: u32 = 0x101e;
pub const LVM_GETHEADER: u32 = 0x101f;
pub const LVM_CREATEDRAGIMAGE: u32 = 0x1021;
pub const LVM_GETVIEWRECT: u32 = 0x1022;
pub const LVM_GETTEXTCOLOR: u32 = 0x1023;
pub const LVM_SETTEXTCOLOR: u32 = 0x1024;
pub const LVM_GETTEXTBKCOLOR: u32 = 0x1025;
pub const LVM_SETTEXTBKCOLOR: u32 = 0x1026;
pub const LVM_GETTOPINDEX: u32 = 0x1027;
pub const LVM_GETCOUNTPERPAGE: u32 = 0x1028;
pub const LVM_GETORIGIN: u32 = 0x1029;
pub const LVM_UPDATE: u32 = 0x102a;
pub const LVM_SETITEMSTATE: u32 = 0x102b;
pub const LVM_GETITEMSTATE: u32 = 0x102c;
pub const LVM_SETITEMCOUNT: u32 = 0x102f;
pub const LVM_GETSELECTEDCOUNT: u32 = 0x1032;
pub const LVM_GETITEMSPACING: u32 = 0x1033;
pub const LVM_SETEXTENDEDLISTVIEWSTYLE: u32 = 0x1036;
pub const LVM_GETEXTENDEDLISTVIEWSTYLE: u32 = 0x1037;
pub const LVM_GETSUBITEMRECT: u32 = 0x1038;
pub const LVM_SUBITEMHITTEST: u32 = 0x1039;
pub const LVM_SETCOLUMNORDERARRAY: u32 = 0x103a;
pub const LVM_GETCOLUMNORDERARRAY: u32 = 0x103b;
pub const LVM_SETHOTITEM: u32 = 0x103c;
pub const LVM_GETHOTITEM: u32 = 0x103d;
pub const LVM_SETHOTCURSOR: u32 = 0x103e;
pub const LVM_GETHOTCURSOR: u32 = 0x103f;
pub const LVM_APPROXIMATEVIEWRECT: u32 = 0x1040;
pub const LVM_SETWORKAREAS: u32 = 0x1041;
pub const LVM_GETSELECTIONMARK: u32 = 0x1042;
pub const LVM_SETSELECTIONMARK: u32 = 0x1043;
pub const LVM_GETWORKAREAS: u32 = 0x1046;
pub const LVM_SETHOVERTIME: u32 = 0x1047;
pub const LVM_GETHOVERTIME: u32 = 0x1048;
pub const LVM_GETNUMBEROFWORKAREAS: u32 = 0x1049;
pub const LVM_SETTOOLTIPS: u32 = 0x104a;
pub const LVM_GETITEM: u32 = 0x104b;
pub const LVM_SETITEM: u32 = 0x104c;
pub const LVM_INSERTITEM: u32 = 0x104d;
pub const LVM_GETTOOLTIPS: u32 = 0x104e;
pub const LVM_FINDITEM: u32 = 0x1053;
pub const LVM_GETSTRINGWIDTH: u32 = 0x1057;
pub const LVM_GETGROUPSTATE: u32 = 0x105c;
pub const LVM_GETFOCUSEDGROUP: u32 = 0x105d;
pub const LVM_GETCOLUMN: u32 = 0x105f;
pub const LVM_SETCOLUMN: u32 = 0x1060;
pub const LVM_INSERTCOLUMN: u32 = 0x1061;
pub const LVM_GETGROUPRECT: u32 = 0x1062;
pub const LVM_GETITEMTEXT: u32 = 0x1073;
pub const LVM_SETITEMTEXT: u32 = 0x1074;
pub const LVM_GETISEARCHSTRING: u32 = 0x1075;
pub const LVM_EDITLABEL: u32 = 0x1076;
pub const LVM_SETBKIMAGE: u32 = 0x108a;
pub const LVM_GETBKIMAGE: u32 = 0x108b;
pub const LVM_SETSELECTEDCOLUMN: u32 = 0x108c;
pub const LVM_SETVIEW: u32 = 0x108e;
pub const LVM_GETVIEW: u32 = 0x108f;
pub const LVM_INSERTGROUP: u32 = 0x1091;
pub const LVM_SETGROUPINFO: u32 = 0x1093;
pub const LVM_GETGROUPINFO: u32 = 0x1095;
pub const LVM_REMOVEGROUP: u32 = 0x1096;
pub const LVM_GETGROUPCOUNT: u32 = 0x1098;
pub const LVM_GETGROUPINFOBYINDEX: u32 = 0x1099;
pub const LVM_SETGROUPMETRICS: u32 = 0x109b;
pub const LVM_GETGROUPMETRICS: u32 = 0x109c;
pub const LVM_ENABLEGROUPVIEW: u32 = 0x109d;
pub const LVM_SORTGROUPS: u32 = 0x109e;
pub const LVM_INSERTGROUPSORTED: u32 = 0x109f;
pub const LVM_REMOVEALLGROUPS: u32 = 0x10a0;
pub const LVM_HASGROUP: u32 = 0x10a1;
pub const LVM_SETTILEVIEWINFO: u32 = 0x10a2;
pub const LVM_GETTILEVIEWINFO: u32 = 0x10a3;
pub const LVM_SETTILEINFO: u32 = 0x10a4;
pub const LVM_GETTILEINFO: u32 = 0x10a5;
pub const LVM_SETINSERTMARK: u32 = 0x10a6;
pub const LVM_GETINSERTMARK: u32 = 0x10a7;
pub const LVM_INSERTMARKHITTEST: u32 = 0x10a8;
pub const LVM_GETINSERTMARKRECT: u32 = 0x10a9;
pub const LVM_SETINSERTMARKCOLOR: u32 = 0x10aa;
pub const LVM_GETINSERTMARKCOLOR: u32 = 0x10ab;
pub const LVM_GETSELECTEDCOLUMN: u32 = 0x10ae;
pub const LVM_ISGROUPVIEWENABLED: u32 = 0x10af;
pub const LVM_GETOUTLINECOLOR: u32 = 0x10b0;
pub const LVM_SETOUTLINECOLOR: u32 = 0x10b1;
pub const LVM_CANCELEDITLABEL: u32 = 0x10b3;
pub const LVM_MAPINDEXTOID: u32 = 0x10b4;
pub const LVM_MAPIDTOINDEX: u32 = 0x10b5;
pub const LVM_ISITEMVISIBLE: u32 = 0x10b6;
pub const LVM_GETEMPTYTEXT: u32 = 0x10cc;
pub const LVM_GETFOOTERRECT: u32 = 0x10cd;
pub const LVM_GETFOOTERINFO: u32 = 0x10ce;
pub const LVM_GETFOOTERITEMRECT: u32 = 0x10cf;
pub const LVM_GETFOOTERITEM: u32 = 0x10d0;
pub const LVM_GETITEMINDEXRECT: u32 = 0x10d1;
pub const LVM_SETITEMINDEXSTATE: u32 = 0x10d2;
pub const LVM_GETNEXTITEMINDEX: u32 = 0x10d3;
/// Shared control message: whether the control uses wide characters.
pub const LVM_GETUNICODEFORMAT: u32 = 0x2006;

//------------------------------------------------------------------------
// List-view code types. Each wraps the integer family the control defines.

/// List-view arrangement codes.
#[derive(Clone, Copy, PartialEq, Eq, Structural, Debug)]
pub struct LVA(pub u16);

pub const LVA_DEFAULT: u16 = 0x0000;
pub const LVA_ALIGNLEFT: u16 = 0x0001;
pub const LVA_ALIGNTOP: u16 = 0x0002;
pub const LVA_SNAPTOGRID: u16 = 0x0005;

/// List-view item states.
#[derive(Clone, Copy, PartialEq, Eq, Structural, Debug)]
pub struct LVIS(pub u32);

pub const LVIS_FOCUSED: u32 = 0x0001;
pub const LVIS_SELECTED: u32 = 0x0002;
pub const LVIS_CUT: u32 = 0x0004;
pub const LVIS_DROPHILITED: u32 = 0x0008;
pub const LVIS_GLOW: u32 = 0x0010;
pub const LVIS_ACTIVATING: u32 = 0x0020;
pub const LVIS_OVERLAYMASK: u32 = 0x0f00;
pub const LVIS_STATEIMAGEMASK: u32 = 0xf000;

/// List-view extended styles.
#[derive(Clone, Copy, PartialEq, Eq, Structural, Debug)]
pub struct LVS_EX(pub u32);

pub const LVS_EX_GRIDLINES: u32 = 0x0000_0001;
pub const LVS_EX_SUBITEMIMAGES: u32 = 0x0000_0002;
pub const LVS_EX_CHECKBOXES: u32 = 0x0000_0004;
pub const LVS_EX_HEADERDRAGDROP: u32 = 0x0000_0010;
pub const LVS_EX_FULLROWSELECT: u32 = 0x0000_0020;
pub const LVS_EX_DOUBLEBUFFER: u32 = 0x0001_0000;

/// List-view view modes.
#[derive(Clone, Copy, PartialEq, Eq, Structural, Debug)]
pub struct LV_VIEW(pub u32);

pub const LV_VIEW_ICON: u32 = 0x0000;
pub const LV_VIEW_DETAILS: u32 = 0x0001;
pub const LV_VIEW_SMALLICON: u32 = 0x0002;
pub const LV_VIEW_LIST: u32 = 0x0003;
pub const LV_VIEW_TILE: u32 = 0x0004;

/// List-view image-list kinds.
#[derive(Clone, Copy, PartialEq, Eq, Structural, Debug)]
pub struct LVSIL(pub u8);

pub const LVSIL_NORMAL: u8 = 0;
pub const LVSIL_SMALL: u8 = 1;
pub const LVSIL_STATE: u8 = 2;
pub const LVSIL_GROUPHEADER: u8 = 3;

/// List-view item-rectangle portions.
#[derive(Clone, Copy, PartialEq, Eq, Structural, Debug)]
pub struct LVIR(pub u8);

pub const LVIR_BOUNDS: u8 = 0;
pub const LVIR_ICON: u8 = 1;
pub const LVIR_LABEL: u8 = 2;
pub const LVIR_SELECTBOUNDS: u8 = 3;

/// List-view next-item relationships.
#[derive(Clone, Copy, PartialEq, Eq, Structural, Debug)]
pub struct LVNI(pub u32);

pub const LVNI_ALL: u32 = 0x0000;
pub const LVNI_FOCUSED: u32 = 0x0001;
pub const LVNI_SELECTED: u32 = 0x0002;
pub const LVNI_CUT: u32 = 0x0004;
pub const LVNI_DROPHILITED: u32 = 0x0008;
pub const LVNI_ABOVE: u32 = 0x0100;
pub const LVNI_BELOW: u32 = 0x0200;
pub const LVNI_TOLEFT: u32 = 0x0400;
pub const LVNI_TORIGHT: u32 = 0x0800;

/// List-view group-rectangle portions.
#[derive(Clone, Copy, PartialEq, Eq, Structural, Debug)]
pub struct LVGGR(pub i32);

pub const LVGGR_GROUP: i32 = 0;
pub const LVGGR_HEADER: i32 = 1;
pub const LVGGR_LABEL: i32 = 2;
pub const LVGGR_SUBSETLINK: i32 = 3;

/// List-view group states.
#[derive(Clone, Copy, PartialEq, Eq, Structural, Debug)]
pub struct LVGS(pub u32);

pub const LVGS_NORMAL: u32 = 0x0000;
pub const LVGS_COLLAPSED: u32 = 0x0001;
pub const LVGS_HIDDEN: u32 = 0x0002;
pub const LVGS_NOHEADER: u32 = 0x0004;
pub const LVGS_COLLAPSIBLE: u32 = 0x0008;
pub const LVGS_FOCUSED: u32 = 0x0010;
pub const LVGS_SELECTED: u32 = 0x0020;
pub const LVGS_SUBSETED: u32 = 0x0040;
pub const LVGS_SUBSETLINKFOCUSED: u32 = 0x0080;

/// List-view find-info flags.
#[derive(Clone, Copy, PartialEq, Eq, Structural, Debug)]
pub struct LVFI(pub u32);

pub const LVFI_PARAM: u32 = 0x0001;
pub const LVFI_STRING: u32 = 0x0002;
pub const LVFI_SUBSTRING: u32 = 0x0004;
pub const LVFI_PARTIAL: u32 = 0x0008;
pub const LVFI_WRAP: u32 = 0x0020;
pub const LVFI_NEARESTXY: u32 = 0x0040;

/// List-view column mask flags.
#[derive(Clone, Copy, PartialEq, Eq, Structural, Debug)]
pub struct LVCF(pub u32);

pub const LVCF_FMT: u32 = 0x0001;
pub const LVCF_WIDTH: u32 = 0x0002;
pub const LVCF_TEXT: u32 = 0x0004;
pub const LVCF_SUBITEM: u32 = 0x0008;
pub const LVCF_IMAGE: u32 = 0x0010;
pub const LVCF_ORDER: u32 = 0x0020;

/// List-view item mask flags.
#[derive(Clone, Copy, PartialEq, Eq, Structural, Debug)]
pub struct LVIF(pub u32);

pub const LVIF_TEXT: u32 = 0x0001;
pub const LVIF_IMAGE: u32 = 0x0002;
pub const LVIF_PARAM: u32 = 0x0004;
pub const LVIF_STATE: u32 = 0x0008;
pub const LVIF_INDENT: u32 = 0x0010;
pub const LVIF_GROUPID: u32 = 0x0100;
pub const LVIF_COLUMNS: u32 = 0x0200;

/// List-view hit-test flags.
#[derive(Clone, Copy, PartialEq, Eq, Structural, Debug)]
pub struct LVHT(pub u32);

pub const LVHT_NOWHERE: u32 = 0x0001;
pub const LVHT_ONITEMICON: u32 = 0x0002;
pub const LVHT_ONITEMLABEL: u32 = 0x0004;
pub const LVHT_ONITEMSTATEICON: u32 = 0x0008;

/// List-view background-image flags.
#[derive(Clone, Copy, PartialEq, Eq, Structural, Debug)]
pub struct LVBKIF(pub u32);

pub const LVBKIF_SOURCE_NONE: u32 = 0x0000_0000;
pub const LVBKIF_SOURCE_URL: u32 = 0x0000_0002;
pub const LVBKIF_STYLE_TILE: u32 = 0x0000_0010;

/// List-view insert-mark flags.
#[derive(Clone, Copy, PartialEq, Eq, Structural, Debug)]
pub struct LVIM(pub u32);

pub const LVIM_AFTER: u32 = 0x0000_0001;

//------------------------------------------------------------------------
// Command sources of a `WM_COMMAND`-style notification.

/// Where a command notification came from.
#[derive(Clone, Copy, PartialEq, Eq, Structural, Debug)]
pub struct CMD(pub u16);

pub const CMD_MENU: u16 = 0;
pub const CMD_ACCELERATOR: u16 = 1;

/// Menu-item addressing flags.
#[derive(Clone, Copy, PartialEq, Eq, Structural, Debug)]
pub struct MF(pub u32);

pub const MF_BYCOMMAND: u32 = 0x0000_0000;
pub const MF_BYPOSITION: u32 = 0x0000_0400;

//------------------------------------------------------------------------
// Version-comparison codes.

/// Field selectors of a version-info comparison.
#[derive(Clone, Copy, PartialEq, Eq, Structural, Debug)]
pub struct VER_MASK(pub u32);

pub const VER_MINORVERSION: u32 = 0x0000_0001;
pub const VER_MAJORVERSION: u32 = 0x0000_0002;
pub const VER_BUILDNUMBER: u32 = 0x0000_0004;
pub const VER_PLATFORMID: u32 = 0x0000_0008;
pub const VER_SERVICEPACKMINOR: u32 = 0x0000_0010;
pub const VER_SERVICEPACKMAJOR: u32 = 0x0000_0020;
pub const VER_SUITENAME: u32 = 0x0000_0040;
pub const VER_PRODUCT_TYPE: u32 = 0x0000_0080;

/// Comparison operators of a version-info comparison.
#[derive(Clone, Copy, PartialEq, Eq, Structural, Debug)]
pub struct VER_COND(pub u8);

pub const VER_EQUAL: u8 = 1;
pub const VER_GREATER: u8 = 2;
pub const VER_GREATER_EQUAL: u8 = 3;
pub const VER_LESS: u8 = 4;
pub const VER_LESS_EQUAL: u8 = 5;
pub const VER_AND: u8 = 6;
pub const VER_OR: u8 = 7;

/// Product types reported by the version info.
#[derive(Clone, Copy, PartialEq, Eq, Structural, Debug)]
pub struct VER_NT(pub u8);

pub const VER_NT_WORKSTATION: u8 = 1;
pub const VER_NT_DOMAIN_CONTROLLER: u8 = 2;
pub const VER_NT_SERVER: u8 = 3;

// Packed `major << 8 | minor` version numbers of the system releases.
pub const WIN32_WINNT_VISTA: u16 = 0x0600;
pub const WIN32_WINNT_WIN7: u16 = 0x0601;
pub const WIN32_WINNT_WIN8: u16 = 0x0602;
pub const WIN32_WINNT_WINBLUE: u16 = 0x0603;
pub const WIN32_WINNT_WINTHRESHOLD: u16 = 0x0a00;
pub const WIN32_WINNT_WIN10: u16 = 0x0a00;

//------------------------------------------------------------------------
// Extended window styles (the ones this crate's logic reads).

/// Extended window styles.
#[derive(Clone, Copy, PartialEq, Eq, Structural, Debug)]
pub struct WS_EX(pub u32);

pub const WS_EX_CLIENTEDGE: u32 = 0x0000_0200;

//------------------------------------------------------------------------
// System metrics indices (the classic table).

/// System-metric indices.
#[derive(Clone, Copy, PartialEq, Eq, Structural, Debug)]
pub struct SM(pub i32);

pub const SM_CXSCREEN: i32 = 0;
pub const SM_CYSCREEN: i32 = 1;
pub const SM_CXVSCROLL: i32 = 2;
pub const SM_CYHSCROLL: i32 = 3;
pub const SM_CYCAPTION: i32 = 4;
pub const SM_CXBORDER: i32 = 5;
pub const SM_CYBORDER: i32 = 6;
pub const SM_CXDLGFRAME: i32 = 7;
pub const SM_CYDLGFRAME: i32 = 8;
pub const SM_CXICON: i32 = 11;
pub const SM_CYICON: i32 = 12;
pub const SM_CXCURSOR: i32 = 13;
pub const SM_CYCURSOR: i32 = 14;
pub const SM_CYMENU: i32 = 15;
pub const SM_CXFULLSCREEN: i32 = 16;
pub const SM_CYFULLSCREEN: i32 = 17;
pub const SM_CXMIN: i32 = 28;
pub const SM_CYMIN: i32 = 29;
pub const SM_CXSIZE: i32 = 30;
pub const SM_CYSIZE: i32 = 31;
pub const SM_CXFRAME: i32 = 32;
pub const SM_CYFRAME: i32 = 33;
pub const SM_CXDOUBLECLK: i32 = 36;
pub const SM_CYDOUBLECLK: i32 = 37;
pub const SM_CXEDGE: i32 = 45;
pub const SM_CYEDGE: i32 = 46;
pub const SM_CXSMICON: i32 = 49;
pub const SM_CYSMICON: i32 = 50;
pub const SM_CXMENUSIZE: i32 = 54;
pub const SM_CYMENUSIZE: i32 = 55;
pub const SM_CXMENUCHECK: i32 = 71;
pub const SM_CYMENUCHECK: i32 = 72;
pub const SM_CMONITORS: i32 = 80;
pub const SM_REMOTESESSION: i32 = 0x1000;

//------------------------------------------------------------------------
// Show-window commands (the classic table).

/// Show-window commands.
#[derive(Clone, Copy, PartialEq, Eq, Structural, Debug)]
pub struct SW(pub i32);

pub const SW_HIDE: i32 = 0;
pub const SW_SHOWNORMAL: i32 = 1;
pub const SW_SHOWMINIMIZED: i32 = 2;
pub const SW_SHOWMAXIMIZED: i32 = 3;
pub const SW_SHOWNOACTIVATE: i32 = 4;
pub const SW_SHOW: i32 = 5;
pub const SW_MINIMIZE: i32 = 6;
pub const SW_SHOWMINNOACTIVE: i32 = 7;
pub const SW_SHOWNA: i32 = 8;
pub const SW_RESTORE: i32 = 9;
pub const SW_SHOWDEFAULT: i32 = 10;
pub const SW_FORCEMINIMIZE: i32 = 11;

//------------------------------------------------------------------------
// Stock resource identities used by the loader enums.

/// Stock cursor identities.
#[derive(Clone, Copy, PartialEq, Eq, Structural, Debug)]
pub struct IDC(pub u32);

pub const IDC_ARROW: u32 = 32512;
pub const IDC_IBEAM: u32 = 32513;
pub const IDC_WAIT: u32 = 32514;
pub const IDC_CROSS: u32 = 32515;
pub const IDC_HAND: u32 = 32649;

/// Stock icon identities.
#[derive(Clone, Copy, PartialEq, Eq, Structural, Debug)]
pub struct IDI(pub u32);

pub const IDI_APPLICATION: u32 = 32512;
pub const IDI_HAND: u32 = 32513;
pub const IDI_QUESTION: u32 = 32514;
pub const IDI_EXCLAMATION: u32 = 32515;
pub const IDI_ASTERISK: u32 = 32516;

/// Stock bitmap identities.
#[derive(Clone, Copy, PartialEq, Eq, Structural, Debug)]
pub struct OBM(pub u32);

pub const OBM_CLOSE: u32 = 32754;
pub const OBM_CHECK: u32 = 32760;
pub const OBM_UPARROW: u32 = 32753;

/// Stock cursor resource identities.
#[derive(Clone, Copy, PartialEq, Eq, Structural, Debug)]
pub struct OCR(pub u32);

pub const OCR_NORMAL: u32 = 32512;
pub const OCR_IBEAM: u32 = 32513;
pub const OCR_WAIT: u32 = 32514;

/// Stock icon resource identities.
#[derive(Clone, Copy, PartialEq, Eq, Structural, Debug)]
pub struct OIC(pub u32);

pub const OIC_SAMPLE: u32 = 32512;
pub const OIC_HAND: u32 = 32513;
pub const OIC_QUES: u32 = 32514;

/// Z-order placement identities of a window-positioning call.
#[derive(Clone, Copy, PartialEq, Eq, Structural, Debug)]
pub struct HWND_PLACE(pub isize);

pub const HWND_PLACE_TOP: isize = 0;
pub const HWND_PLACE_BOTTOM: isize = 1;
pub const HWND_PLACE_TOPMOST: isize = -1;
pub const HWND_PLACE_NOTOPMOST: isize = -2;

//------------------------------------------------------------------------
// Display settings codes used by the variant parameters.

/// Display flags of a device mode.
#[derive(Clone, Copy, PartialEq, Eq, Structural, Debug)]
pub struct DMDISPLAYFLAGS(pub u32);

pub const DM_INTERLACED: u32 = 0x0000_0002;

/// N-up values of a device mode.
#[derive(Clone, Copy, PartialEq, Eq, Structural, Debug)]
pub struct DMNUP(pub u32);

pub const DMNUP_SYSTEM: u32 = 1;
pub const DMNUP_ONEUP: u32 = 2;

/// Predefined display-settings enumerations.
#[derive(Clone, Copy, PartialEq, Eq, Structural, Debug)]
pub struct ENUM_SETTINGS(pub u32);

pub const ENUM_CURRENT_SETTINGS: u32 = 0xffff_ffff;
pub const ENUM_REGISTRY_SETTINGS: u32 = 0xffff_fffe;

} // verus!
