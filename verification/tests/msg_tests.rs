use winsafe::co;
use winsafe::co::ERROR;
use winsafe::handles::{HIMAGELIST, HWND};
use winsafe::lvm;
use winsafe::msg::{zero_as_err, zero_as_none, WmArg, WndMsg};
use winsafe::structs::{
    LVCOLUMN, LVFINDINFO, LVHITTESTINFO, LVITEM, LVITEMINDEX, POINT, RECT, SIZE, WString,
};

fn sample_rect() -> RECT {
    RECT { left: 1, top: 2, right: 3, bottom: 4 }
}

fn sample_column() -> LVCOLUMN {
    LVCOLUMN {
        mask: co::LVCF(co::LVCF_TEXT | co::LVCF_WIDTH),
        fmt: 0,
        cx: 80,
        text: String::from("Name"),
        i_subitem: 0,
        i_image: -1,
        i_order: 0,
    }
}

fn sample_item() -> LVITEM {
    LVITEM {
        mask: co::LVIF(co::LVIF_TEXT),
        i_item: 3,
        i_subitem: 0,
        state: co::LVIS(0),
        state_mask: co::LVIS(0),
        text: String::from("row"),
        i_image: -1,
        lparam: 0,
        i_indent: 0,
        i_group_id: 0,
    }
}

#[test]
fn zero_decoders() {
    assert_eq!(zero_as_err(0), Err(ERROR(co::ERROR_BAD_ARGUMENTS)));
    assert_eq!(zero_as_err(5), Ok(5));
    assert_eq!(zero_as_none(0), None);
    assert_eq!(zero_as_none(-3), Some(-3));
}

#[test]
fn approximate_view_rect_packing() {
    let mut m = lvm::ApproximateViewRect {
        num_items: Some(10),
        proposed_x: Some(0x0102),
        proposed_y: Some(0x0304),
    };
    let wm = m.as_generic_wm();
    assert_eq!(wm.msg_id, co::LVM_APPROXIMATEVIEWRECT);
    assert_eq!(wm.wparam, WmArg::Num(10));
    assert_eq!(wm.lparam, WmArg::Num(0x0304_0102));

    let mut absent = lvm::ApproximateViewRect {
        num_items: None,
        proposed_x: None,
        proposed_y: None,
    };
    let wm2 = absent.as_generic_wm();
    assert_eq!(wm2.wparam, WmArg::Num(-1));
    assert_eq!(wm2.lparam, WmArg::Num(0xffff_ffff));

    // The result word splits into the two halves of the size.
    assert_eq!(m.convert_ret(0x0040_0030), SIZE::new(0x30, 0x40));
}

#[test]
fn arrange_and_delete_messages() {
    let mut a = lvm::Arrange { arrangement: co::LVA(co::LVA_SNAPTOGRID) };
    let wm = a.as_generic_wm();
    assert_eq!(
        wm,
        WndMsg {
            msg_id: co::LVM_ARRANGE,
            wparam: WmArg::Num(co::LVA_SNAPTOGRID as isize),
            lparam: WmArg::Num(0),
        }
    );
    assert_eq!(a.convert_ret(0), Err(ERROR(co::ERROR_BAD_ARGUMENTS)));
    assert_eq!(a.convert_ret(1), Ok(()));

    let mut d = lvm::DeleteItem { index: 4 };
    let wm2 = d.as_generic_wm();
    assert_eq!(wm2.msg_id, co::LVM_DELETEITEM);
    assert_eq!(wm2.wparam, WmArg::Num(4));
    assert_eq!(d.convert_ret(0), Err(ERROR(co::ERROR_BAD_ARGUMENTS)));

    let mut all = lvm::DeleteAllItems {};
    assert_eq!(all.as_generic_wm().msg_id, co::LVM_DELETEALLITEMS);
    assert_eq!(all.convert_ret(7), Ok(()));
}

#[test]
fn handle_returning_messages() {
    let e = lvm::EditLabel { index: Some(2) };
    assert_eq!(e.convert_ret(0x500), Ok(HWND(0x500)));
    assert_eq!(e.convert_ret(0), Err(ERROR(co::ERROR_BAD_ARGUMENTS)));
    let mut e2 = lvm::EditLabel { index: None };
    assert_eq!(e2.as_generic_wm().wparam, WmArg::Num(-1));

    let g = lvm::GetEditControl {};
    assert_eq!(g.convert_ret(0), None);
    assert_eq!(g.convert_ret(0x600), Some(HWND(0x600)));

    let c = lvm::CreateDragImage { index: 1, img_location: sample_rect() };
    assert_eq!(c.convert_ret(0x700), Ok(HIMAGELIST(0x700)));
}

#[test]
fn option_index_messages() {
    let f = lvm::GetFocusedGroup {};
    assert_eq!(f.convert_ret(-1), None);
    assert_eq!(f.convert_ret(3), Some(3));

    // The hot item decodes zero as absence, not minus one.
    let h = lvm::GetHotItem {};
    assert_eq!(h.convert_ret(0), None);
    assert_eq!(h.convert_ret(2), Some(2));

    let mut n = lvm::GetNextItem { initial_index: None, relationship: co::LVNI(co::LVNI_SELECTED) };
    let wm = n.as_generic_wm();
    assert_eq!(wm.wparam, WmArg::Num(-1));
    assert_eq!(wm.lparam, WmArg::Num(co::LVNI_SELECTED as isize));
    assert_eq!(n.convert_ret(-1), None);
    assert_eq!(n.convert_ret(9), Some(9));
}

#[test]
fn buffer_messages_carry_contents() {
    let mut g = lvm::GetColumn { index: 2, lvcolumn: sample_column() };
    let wm = g.as_generic_wm();
    assert_eq!(wm.msg_id, co::LVM_GETCOLUMN);
    assert_eq!(wm.wparam, WmArg::Num(2));
    assert_eq!(wm.lparam, WmArg::ColumnBuf(sample_column()));

    let mut ins = lvm::InsertItem { lvitem: sample_item() };
    let wm2 = ins.as_generic_wm();
    assert_eq!(wm2.wparam, WmArg::Num(0));
    assert_eq!(wm2.lparam, WmArg::ItemBuf(sample_item()));
    assert_eq!(ins.convert_ret(-1), Err(ERROR(co::ERROR_BAD_ARGUMENTS)));
    assert_eq!(ins.convert_ret(12), Ok(12));

    let mut find = lvm::FindItem {
        start_index: Some(1),
        lvfindinfo: LVFINDINFO {
            flags: co::LVFI(co::LVFI_STRING),
            text: String::from("abc"),
            lparam: 0,
            pt: POINT::new(0, 0),
            vk_direction: 0,
        },
    };
    let wm3 = find.as_generic_wm();
    assert_eq!(wm3.wparam, WmArg::Num(1));
    assert!(matches!(wm3.lparam, WmArg::FindInfoBuf(_)));
}

#[test]
fn rect_stuffing_messages() {
    // The portion code travels inside the rectangle's fields.
    let mut g = lvm::GetItemRect {
        index: 5,
        rect: sample_rect(),
        portion: co::LVIR(co::LVIR_LABEL),
    };
    let wm = g.as_generic_wm();
    assert_eq!(g.rect.left, co::LVIR_LABEL as i32);
    assert_eq!(
        wm.lparam,
        WmArg::RectBuf(RECT { left: co::LVIR_LABEL as i32, top: 2, right: 3, bottom: 4 })
    );

    let mut s = lvm::GetSubItemRect {
        item_index: 1,
        subitem_index: 6,
        rect: sample_rect(),
        portion: co::LVIR(co::LVIR_ICON),
    };
    let wm2 = s.as_generic_wm();
    assert_eq!(wm2.wparam, WmArg::Num(1));
    assert_eq!(
        wm2.lparam,
        WmArg::RectBuf(RECT { left: co::LVIR_ICON as i32, top: 6, right: 3, bottom: 4 })
    );

    let mut gr = lvm::GetGroupRect {
        group_id: 9,
        flags: co::LVGGR(co::LVGGR_HEADER),
        rect: sample_rect(),
    };
    let wm3 = gr.as_generic_wm();
    assert_eq!(wm3.wparam, WmArg::Num(9));
    assert_eq!(
        wm3.lparam,
        WmArg::RectBuf(RECT { left: 1, top: co::LVGGR_HEADER, right: 3, bottom: 4 })
    );

    let mut ir = lvm::GetItemIndexRect {
        lvitemindex: LVITEMINDEX { i_item: 2, i_group: 0 },
        rect: sample_rect(),
        index: 1,
        portion: co::LVIR(co::LVIR_BOUNDS),
    };
    let wm4 = ir.as_generic_wm();
    assert_eq!(wm4.wparam, WmArg::ItemIndexBuf(LVITEMINDEX { i_item: 2, i_group: 0 }));
    assert_eq!(
        wm4.lparam,
        WmArg::RectBuf(RECT { left: co::LVIR_BOUNDS as i32, top: 1, right: 3, bottom: 4 })
    );
}

#[test]
fn scalar_result_messages() {
    let c = lvm::GetBkColor {};
    assert_eq!(c.convert_ret(0x00aabbcc), winsafe::structs::COLORREF(0x00aabbcc));

    let s = lvm::GetItemState { index: 0, mask: co::LVIS(co::LVIS_SELECTED) };
    assert_eq!(s.convert_ret(co::LVIS_SELECTED as isize), co::LVIS(co::LVIS_SELECTED));

    let v = lvm::GetView {};
    assert_eq!(v.convert_ret(co::LV_VIEW_DETAILS as isize), co::LV_VIEW(co::LV_VIEW_DETAILS));

    let u = lvm::GetUnicodeFormat {};
    assert!(u.convert_ret(1));
    assert!(!u.convert_ret(0));

    let count = lvm::GetItemCount {};
    assert_eq!(count.convert_ret(41), 41);

    let sp = lvm::GetItemSpacing { is_small_icon_view: false };
    assert_eq!(sp.convert_ret(0x0050_0060), SIZE::new(0x60, 0x50));

    let ex = lvm::SetExtendedListViewStyle {
        style: co::LVS_EX(co::LVS_EX_FULLROWSELECT),
        mask: co::LVS_EX(co::LVS_EX_FULLROWSELECT),
    };
    assert_eq!(ex.convert_ret(0), co::LVS_EX(0));
}

#[test]
fn enable_group_view_decoding() {
    let e = lvm::EnableGroupView { enable: true };
    assert_eq!(e.convert_ret(-1), Err(ERROR(co::ERROR_BAD_ARGUMENTS)));
    assert_eq!(e.convert_ret(0), Ok(false));
    assert_eq!(e.convert_ret(2), Ok(true));

    let mut off = lvm::EnableGroupView { enable: false };
    assert_eq!(off.as_generic_wm().wparam, WmArg::Num(0));
}

#[test]
fn ensure_visible_inverts_flag() {
    let mut e = lvm::EnsureVisible { index: 3, entirely_visible: true };
    assert_eq!(e.as_generic_wm().lparam, WmArg::Num(0));
    let mut p = lvm::EnsureVisible { index: 3, entirely_visible: false };
    assert_eq!(p.as_generic_wm().lparam, WmArg::Num(1));
}

#[test]
fn text_buffer_messages() {
    let mut g = lvm::GetEmptyText { text: WString::new_alloc_buffer(64) };
    let wm = g.as_generic_wm();
    assert_eq!(wm.wparam, WmArg::Num(64));
    assert_eq!(wm.lparam, WmArg::TextOutBuf(64));

    let mut w = lvm::GetStringWidth { text: WString::from_str("hello") };
    let wm2 = w.as_generic_wm();
    assert_eq!(wm2.lparam, WmArg::Text(String::from("hello")));
    assert_eq!(w.convert_ret(0), Err(ERROR(co::ERROR_BAD_ARGUMENTS)));
    assert_eq!(w.convert_ret(42), Ok(42));

    let mut s = lvm::GetISearchString { buffer: None };
    assert_eq!(s.as_generic_wm().lparam, WmArg::Num(0));
    let mut s2 = lvm::GetISearchString { buffer: Some(WString::new_alloc_buffer(16)) };
    assert_eq!(s2.as_generic_wm().lparam, WmArg::TextOutBuf(16));
    assert_eq!(s2.convert_ret(0), None);
    assert_eq!(s2.convert_ret(5), Some(5));
}

#[test]
fn array_buffer_messages() {
    let mut order = lvm::GetColumnOrderArray { indexes: vec![0, 0, 0] };
    let wm = order.as_generic_wm();
    assert_eq!(wm.wparam, WmArg::Num(3));
    assert_eq!(wm.lparam, WmArg::U32OutBuf(3));

    let mut areas = lvm::GetWorkAreas { rects: vec![sample_rect(); 2] };
    let wm2 = areas.as_generic_wm();
    assert_eq!(wm2.wparam, WmArg::Num(2));
    assert_eq!(wm2.lparam, WmArg::RectOutBuf(2));

    let mut n = lvm::GetNumberOfWorkAreas {};
    assert_eq!(n.as_generic_wm().lparam, WmArg::U32OutBuf(1));
}

#[test]
fn hit_test_sentinel() {
    let mut h = lvm::HitTest {
        info: LVHITTESTINFO {
            pt: POINT::new(10, 20),
            flags: co::LVHT(0),
            i_item: 0,
            i_subitem: 0,
            i_group: 0,
        },
    };
    let wm = h.as_generic_wm();
    assert_eq!(wm.msg_id, co::LVM_HITTEST);
    assert_eq!(wm.wparam, WmArg::Num(-1));
    assert_eq!(h.convert_ret(-1), None);
    assert_eq!(h.convert_ret(6), Some(6));
}

#[test]
fn set_view_decoding() {
    let s = lvm::SetView { view: co::LV_VIEW(co::LV_VIEW_TILE) };
    assert_eq!(s.convert_ret(-1), Err(ERROR(co::ERROR_BAD_ARGUMENTS)));
    assert_eq!(s.convert_ret(1), Ok(()));
}

#[test]
fn wstring_model() {
    let w = WString::from_str("ab");
    assert_eq!(w.buffer_size(), 3);
    assert_eq!(w.to_string(), "ab");
    let e = WString::new_alloc_buffer(10);
    assert_eq!(e.buffer_size(), 10);
    assert_eq!(e.to_string(), "");
    let c = w.clone();
    assert_eq!(c, w);
}
