use winsafe::co;
use winsafe::co::{ERROR, VER_COND, VER_MASK};
use winsafe::enums::{AccelMenuCtrl, AccelMenuCtrlData, AtomStr, BmpIcon, HwndHmenu, HwndPointId,
    IdIdcStr, IdMenu, IdPos};
use winsafe::funcs::{
    parse_multi_z_str, HIBYTE, HIDWORD, HIWORD, HRESULT_FROM_WIN32, IsWindows10OrGreater,
    IsWindows7OrGreater, IsWindows8OrGreater, IsWindows8Point1OrGreater, IsWindowsServer,
    IsWindowsVersionOrGreater, IsWindowsVistaOrGreater, LOBYTE, LODWORD, LOWORD, MAKEDWORD,
    MAKEWORD, VerSetConditionMask, VerifyVersionInfo,
};
use winsafe::gui::{
    border_anchor_rect, calc_text_bound_box, calc_text_bound_box_check, control_border_strips,
    should_paint_control_borders, GuiGlobals,
};
use winsafe::handles::{HBITMAP, HMENU, HWND};
use winsafe::structs::{OSVERSIONINFOEX, POINT, RECT, SIZE};
use winsafe::winspool::enum_printers_buf_elems;

#[test]
fn word_packing_helpers() {
    assert_eq!(HIBYTE(0xab12), 0xab);
    assert_eq!(LOBYTE(0xab12), 0x12);
    assert_eq!(HIWORD(0xdead_beef), 0xdead);
    assert_eq!(LOWORD(0xdead_beef), 0xbeef);
    assert_eq!(HIDWORD(0x0123_4567_89ab_cdef), 0x0123_4567);
    assert_eq!(LODWORD(0x0123_4567_89ab_cdef), 0x89ab_cdef);
    assert_eq!(MAKEDWORD(0xbeef, 0xdead), 0xdead_beef);
    assert_eq!(MAKEWORD(0x12, 0xab), 0xab12);
    assert_eq!(MAKEDWORD(LOWORD(77), HIWORD(77)), 77);
}

#[test]
fn hresult_reduction() {
    assert_eq!(HRESULT_FROM_WIN32(0), ERROR(0));
    assert_eq!(HRESULT_FROM_WIN32(0x8007_04c7u32 as i32), ERROR(0x04c7));
    assert_eq!(HRESULT_FROM_WIN32(1223), ERROR(1223));
}

fn version(maj: u32, min: u32, sp: u16) -> OSVERSIONINFOEX {
    let mut v = OSVERSIONINFOEX::default();
    v.dwMajorVersion = maj;
    v.dwMinorVersion = min;
    v.wServicePackMajor = sp;
    v
}

#[test]
fn version_comparisons() {
    let win7sp1 = version(6, 1, 1);
    assert_eq!(IsWindows7OrGreater(&win7sp1), Ok(true));
    assert_eq!(IsWindowsVistaOrGreater(&win7sp1), Ok(true));
    assert_eq!(IsWindows8OrGreater(&win7sp1), Ok(false));
    assert_eq!(IsWindows8Point1OrGreater(&win7sp1), Ok(false));
    assert_eq!(IsWindows10OrGreater(&win7sp1), Ok(false));

    let win10 = version(10, 0, 0);
    assert_eq!(IsWindows10OrGreater(&win10), Ok(true));
    assert_eq!(IsWindows8Point1OrGreater(&win10), Ok(true));

    // The service pack is compared only below equal major and minor.
    assert_eq!(IsWindowsVersionOrGreater(&version(6, 1, 0), 6, 1, 1), Ok(false));
    assert_eq!(IsWindowsVersionOrGreater(&version(6, 2, 0), 6, 1, 1), Ok(true));
    assert_eq!(IsWindowsVersionOrGreater(&version(7, 0, 0), 6, 1, 1), Ok(true));
}

#[test]
fn windows_server_detection() {
    let mut workstation = version(10, 0, 0);
    workstation.wProductType = co::VER_NT_WORKSTATION;
    assert_eq!(IsWindowsServer(&workstation), Ok(false));

    let mut server = version(10, 0, 0);
    server.wProductType = co::VER_NT_SERVER;
    assert_eq!(IsWindowsServer(&server), Ok(true));
}

#[test]
fn condition_mask_packing() {
    let m = VerSetConditionMask(
        VerSetConditionMask(
            VerSetConditionMask(0, VER_MASK(co::VER_MAJORVERSION), VER_COND(co::VER_GREATER_EQUAL)),
            VER_MASK(co::VER_MINORVERSION),
            VER_COND(co::VER_GREATER_EQUAL),
        ),
        VER_MASK(co::VER_SERVICEPACKMAJOR),
        VER_COND(co::VER_GREATER_EQUAL),
    );
    assert_eq!(m, 0x1801b);
    let p = VerSetConditionMask(0, VER_MASK(co::VER_PRODUCT_TYPE), VER_COND(co::VER_EQUAL));
    assert_eq!(p, 0x20_0000);
}

#[test]
fn verify_version_info_build_number() {
    let mut current = version(10, 0, 0);
    current.dwBuildNumber = 19045;
    let mut req = OSVERSIONINFOEX::default();
    req.dwBuildNumber = 19000;
    let m = VerSetConditionMask(0, VER_MASK(co::VER_BUILDNUMBER), VER_COND(co::VER_GREATER));
    assert_eq!(
        VerifyVersionInfo(&current, &mut req, VER_MASK(co::VER_BUILDNUMBER), m),
        Ok(true)
    );
    let m2 = VerSetConditionMask(0, VER_MASK(co::VER_BUILDNUMBER), VER_COND(co::VER_LESS));
    assert_eq!(
        VerifyVersionInfo(&current, &mut req, VER_MASK(co::VER_BUILDNUMBER), m2),
        Ok(false)
    );
}

#[test]
fn parse_multi_z_blocks() {
    // Two strings, each nul-ended, block ended by an empty string.
    let block: Vec<u16> = vec![0x41, 0x42, 0, 0x43, 0, 0];
    let parts = parse_multi_z_str(&block);
    assert_eq!(parts.len(), 2);
    assert_eq!(parts[0], vec![0x41, 0x42]);
    assert_eq!(parts[1], vec![0x43]);

    // An empty block yields nothing; so does an immediate nul.
    assert_eq!(parse_multi_z_str(&[]).len(), 0);
    assert_eq!(parse_multi_z_str(&[0, 0]).len(), 0);

    // A trailing piece without its nul still counts whole.
    let tail: Vec<u16> = vec![0x58, 0, 0x59, 0x5a];
    let parts2 = parse_multi_z_str(&tail);
    assert_eq!(parts2.len(), 2);
    assert_eq!(parts2[0], vec![0x58]);
    assert_eq!(parts2[1], vec![0x59, 0x5a]);
}

#[test]
fn printer_buffer_sizing() {
    assert_eq!(enum_printers_buf_elems(0, 16), 1);
    assert_eq!(enum_printers_buf_elems(15, 16), 1);
    assert_eq!(enum_printers_buf_elems(16, 16), 2);
    assert_eq!(enum_printers_buf_elems(100, 16), 7);
}

#[test]
fn gui_globals_state() {
    let mut g = GuiGlobals::new();
    assert_eq!(g.auto_ctrl_id(), 20_000);
    assert_eq!(g.auto_ctrl_id(), 20_001);
    assert_eq!(g.auto_ctrl_id(), 20_002);
    g.create_ui_font(winsafe::handles::HFONT(0x55));
    assert_eq!(g.ui_font(), winsafe::handles::HFONT(0x55));
    g.delete_ui_font();
}

#[test]
fn text_bound_boxes() {
    let measured = SIZE::new(120, 17);
    assert_eq!(calc_text_bound_box("hello", measured), SIZE::new(120, 17));
    // An empty text keeps only the placeholder's height.
    assert_eq!(calc_text_bound_box("", measured), SIZE::new(0, 17));

    assert_eq!(calc_text_bound_box_check("hello", measured, 15, 2, 14), SIZE::new(137, 17));
    // A taller check raises the box.
    assert_eq!(calc_text_bound_box_check("hello", measured, 15, 2, 20), SIZE::new(137, 20));
    assert_eq!(calc_text_bound_box_check("", measured, 15, 2, 20), SIZE::new(17, 20));
}

#[test]
fn control_borders() {
    assert!(should_paint_control_borders(co::WS_EX(co::WS_EX_CLIENTEDGE), true, true));
    assert!(!should_paint_control_borders(co::WS_EX(0), true, true));
    assert!(!should_paint_control_borders(co::WS_EX(co::WS_EX_CLIENTEDGE), false, true));

    let rc = RECT { left: 10, top: 20, right: 110, bottom: 220 };
    let anchored = border_anchor_rect(rc);
    assert_eq!(anchored, RECT { left: 12, top: 22, right: 112, bottom: 222 });

    let strips = control_border_strips(anchored);
    assert_eq!(strips.len(), 4);
    assert_eq!(strips[0], RECT { left: 12, top: 22, right: 14, bottom: 222 });
    assert_eq!(strips[1], RECT { left: 12, top: 22, right: 112, bottom: 24 });
    assert_eq!(strips[2], RECT { left: 110, top: 22, right: 112, bottom: 222 });
    assert_eq!(strips[3], RECT { left: 12, top: 220, right: 112, bottom: 222 });
}

#[test]
fn accel_menu_ctrl_codes() {
    assert_eq!(AccelMenuCtrl::Accel(42).code_id(), (co::CMD(co::CMD_ACCELERATOR), 42));
    assert_eq!(AccelMenuCtrl::Menu(7).code_id(), (co::CMD(co::CMD_MENU), 7));
    let data = AccelMenuCtrlData { notif_code: co::CMD(3), ctrl_id: 9, ctrl_hwnd: HWND(1) };
    assert_eq!(AccelMenuCtrl::Ctrl(data).code_id(), (co::CMD(3), 9));
}

#[test]
fn variant_constructors_and_words() {
    let a = AtomStr::from_str("MyClass");
    assert!(matches!(a, AtomStr::Str(_)));
    match a {
        AtomStr::Str(w) => assert_eq!(w.to_string(), "MyClass"),
        AtomStr::Atom(_) => unreachable!(),
    }

    let c = IdIdcStr::from_str("cursor.cur");
    assert!(matches!(c, IdIdcStr::Str(_)));

    assert_eq!(BmpIcon::Bmp(HBITMAP(0x123)).as_isize(), 0x123);
    assert_eq!(HwndHmenu::Hmenu(HMENU(0x456)).as_isize(), 0x456);

    assert_eq!(HwndPointId::Hwnd(HWND(0x789)).as_isize(), 0x789);
    assert_eq!(HwndPointId::Id(41).as_isize(), 41);
    let packed = HwndPointId::Point(POINT::new(3, 5)).as_isize();
    assert_eq!(packed, 3 + 5 * 0x1_0000);

    assert_eq!(IdMenu::Id(8).as_usize(), 8);
    assert_eq!(IdMenu::Menu(HMENU(0xabc)).as_usize(), 0xabc);
    assert_eq!(IdMenu::Nothing.as_usize(), 0);
}

#[test]
fn id_pos_addressing() {
    assert!(!IdPos::Id(5).is_by_pos());
    assert!(IdPos::Pos(5).is_by_pos());
    assert_eq!(IdPos::Id(5).id_or_pos_u32(), 5);
    assert_eq!(IdPos::Pos(6).id_or_pos_u32(), 6);
    assert_eq!(IdPos::Id(5).mf_flag(), co::MF(co::MF_BYCOMMAND));
    assert_eq!(IdPos::Pos(6).mf_flag(), co::MF(co::MF_BYPOSITION));
}
