use winsafe::co;
use winsafe::co::ERROR;
use winsafe::com::{ComInterface, ComObject, IID, IUnknown, IUnknownVT};
use winsafe::handles::HWND;
use winsafe::mf::{mf_IMFAttributes, AttrStore, AttrValue, IMFAttributes};
use winsafe::shell::{IModalWindow, IModalWindowVT};

fn modal_iid() -> IID {
    IID::new(0xb4db1657, 0x70d7, 0x485e, 0x8e3e, 0x6fcb5a5c1802)
}

fn attrs_iid() -> IID {
    IID::new(0x2cd2d921, 0xc447, 0x44a7, 0xa13c, 0x4ada_bfc2_47e3)
}

#[test]
fn acquire_duplicate_release_counters() {
    // Mock table with call counters: acquire, duplicate, then drop both.
    let mut obj = ComObject::new(0x1000, vec![], co::S_OK);
    let mut original = obj.acquire();
    assert_eq!(obj.addref_calls(), 1);
    assert_eq!(obj.ref_count(), 1);

    let mut dup = original.duplicate(&mut obj);
    assert_eq!(obj.addref_calls(), 2);
    assert_eq!(obj.ref_count(), 2);
    assert_eq!(dup.ppv(), original.ppv());

    dup.Release(&mut obj);
    assert_eq!(obj.release_calls(), 1);
    assert_eq!(obj.ref_count(), 1);

    original.Release(&mut obj);
    assert_eq!(obj.release_calls(), 2);
    assert_eq!(obj.ref_count(), 0);

    // No leaked references: increments equal decrements.
    assert_eq!(obj.addref_calls(), obj.release_calls());
}

#[test]
fn duplicate_release_round_trip() {
    let mut obj = ComObject::new(7, vec![], co::S_OK);
    let original = obj.acquire();
    let before = obj.ref_count();
    let mut dup = original.duplicate(&mut obj);
    dup.Release(&mut obj);
    assert_eq!(obj.ref_count(), before);
}

#[test]
fn release_clears_pointer_and_is_idempotent() {
    let mut obj = ComObject::new(0x2000, vec![], co::S_OK);
    let mut w = obj.acquire();
    assert!(!w.is_null());

    w.Release(&mut obj);
    assert!(w.is_null());
    assert_eq!(w.ppv(), 0);
    assert_eq!(obj.release_calls(), 1);

    // A second release through the same wrapper is a no-op.
    w.Release(&mut obj);
    assert_eq!(obj.release_calls(), 1);
    assert_eq!(obj.ref_count(), 0);
}

#[test]
fn query_supported_interface_is_isolated() {
    let mut obj = ComObject::new(0x3000, vec![modal_iid()], co::S_OK);
    let original = obj.acquire();
    assert_eq!(obj.ref_count(), 1);

    let queried: Result<IModalWindow, ERROR> = original.QueryInterface(&mut obj);
    let mut modal = queried.unwrap();
    assert_eq!(obj.ref_count(), 2);
    assert_eq!(obj.addref_calls(), 2);
    assert_eq!(modal.ppv(), original.ppv());

    // Releasing the queried wrapper does not affect the original.
    modal.Release(&mut obj);
    assert_eq!(obj.ref_count(), 1);
    assert!(!original.is_null());
    let mut again = original.duplicate(&mut obj);
    assert_eq!(obj.ref_count(), 2);
    again.Release(&mut obj);
}

#[test]
fn query_unsupported_interface_is_error_without_side_effect() {
    let mut obj = ComObject::new(0x4000, vec![], co::S_OK);
    let original = obj.acquire();
    let addref_before = obj.addref_calls();
    let count_before = obj.ref_count();

    let queried: Result<IModalWindow, ERROR> = original.QueryInterface(&mut obj);
    assert_eq!(queried.unwrap_err(), ERROR(co::E_NOINTERFACE));

    // No reference moved: the increment slot was not called.
    assert_eq!(obj.addref_calls(), addref_before);
    assert_eq!(obj.ref_count(), count_before);
}

#[test]
fn query_interface_for_base_identity() {
    let iunknown_iid = IUnknown::iid();
    let mut obj = ComObject::new(0x5000, vec![iunknown_iid], co::S_OK);
    let original = obj.acquire();
    let queried: Result<IUnknown, ERROR> = original.QueryInterface(&mut obj);
    let mut second = queried.unwrap();
    assert_eq!(second.ppv(), original.ppv());
    assert_eq!(obj.ref_count(), 2);
    second.Release(&mut obj);
}

#[test]
fn base_identity_value() {
    let iid = IUnknown::iid();
    assert_eq!(iid, IID::new(0x00000000, 0x0000, 0x0000, 0xc000, 0x0000_0000_0046));
}

#[test]
fn vtable_layout_starts_with_base() {
    // The derived table's first field is the universal table itself.
    let base = IUnknownVT { QueryInterface: 11, AddRef: 22, Release: 33 };
    let derived = IModalWindowVT { IUnknownVT: base, Show: 44 };
    assert_eq!(derived.IUnknownVT, base);
    assert_eq!(derived.IUnknownVT.QueryInterface, 11);
    assert_eq!(derived.Show, 44);
}

#[test]
fn modal_show_success_and_cancel_and_failure() {
    let owner = HWND(77);

    let mut obj = ComObject::new(0x6000, vec![modal_iid()], co::S_OK);
    let base = obj.acquire();
    let modal: IModalWindow = base.QueryInterface(&mut obj).unwrap();
    assert_eq!(modal.Show(&obj, owner), Ok(true));

    // The well-known cancelled status is a valid negative answer.
    let mut cancelled = ComObject::new(0x6001, vec![modal_iid()], co::ERROR_CANCELLED);
    let base2 = cancelled.acquire();
    let modal2: IModalWindow = base2.QueryInterface(&mut cancelled).unwrap();
    assert_eq!(modal2.Show(&cancelled, owner), Ok(false));

    // Any other status is surfaced verbatim.
    let mut failing = ComObject::new(0x6002, vec![modal_iid()], 0x8000_4005);
    let base3 = failing.acquire();
    let modal3: IModalWindow = base3.QueryInterface(&mut failing).unwrap();
    assert_eq!(modal3.Show(&failing, owner), Err(ERROR(0x8000_4005)));
}

#[test]
fn attribute_store_set_get_roundtrip() {
    let mut obj = ComObject::new(0x7000, vec![attrs_iid()], co::S_OK);
    let base = obj.acquire();
    let attrs_if: IMFAttributes = base.QueryInterface(&mut obj).unwrap();

    let mut table = AttrStore::new();
    let k1 = IID::new(1, 0, 0, 0, 0);
    let k2 = IID::new(2, 0, 0, 0, 0);

    assert_eq!(attrs_if.GetUINT32(&table, &k1), Err(ERROR(co::MF_E_ATTRIBUTENOTFOUND)));

    attrs_if.SetUINT32(&mut table, &k1, 123).unwrap();
    attrs_if.SetUINT64(&mut table, &k2, 0xdead_beef_0000_0001).unwrap();
    assert_eq!(attrs_if.GetUINT32(&table, &k1), Ok(123));
    assert_eq!(attrs_if.GetUINT64(&table, &k2), Ok(0xdead_beef_0000_0001));

    // Asking for the wrong width is a typed failure.
    assert_eq!(attrs_if.GetUINT64(&table, &k1), Err(ERROR(co::MF_E_INVALIDTYPE)));
    assert_eq!(attrs_if.GetUINT32(&table, &k2), Err(ERROR(co::MF_E_INVALIDTYPE)));

    // Overwriting replaces the value, other keys are untouched.
    attrs_if.SetUINT32(&mut table, &k1, 456).unwrap();
    assert_eq!(attrs_if.GetUINT32(&table, &k1), Ok(456));
    assert_eq!(attrs_if.GetUINT64(&table, &k2), Ok(0xdead_beef_0000_0001));

    assert_eq!(attrs_if.CompareItem(&table, &k1, &AttrValue::U32(456)), Ok(true));
    assert_eq!(attrs_if.CompareItem(&table, &k1, &AttrValue::U32(457)), Ok(false));
    assert_eq!(attrs_if.CompareItem(&table, &k1, &AttrValue::U64(456)), Ok(false));

    attrs_if.DeleteItem(&mut table, &k1).unwrap();
    assert_eq!(attrs_if.GetUINT32(&table, &k1), Err(ERROR(co::MF_E_ATTRIBUTENOTFOUND)));
    assert_eq!(attrs_if.GetUINT64(&table, &k2), Ok(0xdead_beef_0000_0001));

    // Deleting an absent key still succeeds.
    assert_eq!(attrs_if.DeleteItem(&mut table, &k1), Ok(()));

    let mut dest = AttrStore::new();
    attrs_if.SetUINT32(&mut dest, &k1, 9).unwrap();
    attrs_if.CopyAllItems(&table, &mut dest).unwrap();
    assert_eq!(attrs_if.GetUINT32(&dest, &k1), Err(ERROR(co::MF_E_ATTRIBUTENOTFOUND)));
    assert_eq!(attrs_if.GetUINT64(&dest, &k2), Ok(0xdead_beef_0000_0001));

    attrs_if.DeleteAllItems(&mut dest).unwrap();
    assert_eq!(dest.count(), 0);
}

#[test]
fn attribute_store_compare() {
    let mut obj = ComObject::new(0x7100, vec![attrs_iid()], co::S_OK);
    let base = obj.acquire();
    let a_if: IMFAttributes = base.QueryInterface(&mut obj).unwrap();

    let k1 = IID::new(1, 0, 0, 0, 0);
    let k2 = IID::new(2, 0, 0, 0, 0);
    let k3 = IID::new(3, 0, 0, 0, 0);

    let mut ours = AttrStore::new();
    a_if.SetUINT32(&mut ours, &k1, 10).unwrap();
    a_if.SetUINT32(&mut ours, &k2, 20).unwrap();

    let mut theirs = AttrStore::new();
    a_if.SetUINT32(&mut theirs, &k1, 10).unwrap();
    a_if.SetUINT32(&mut theirs, &k2, 20).unwrap();
    a_if.SetUINT32(&mut theirs, &k3, 30).unwrap();

    let our_items = co::MF_ATTRIBUTES_MATCH(co::MF_ATTRIBUTES_MATCH_OUR_ITEMS);
    let their_items = co::MF_ATTRIBUTES_MATCH(co::MF_ATTRIBUTES_MATCH_THEIR_ITEMS);
    let all_items = co::MF_ATTRIBUTES_MATCH(co::MF_ATTRIBUTES_MATCH_ALL_ITEMS);
    let intersection = co::MF_ATTRIBUTES_MATCH(co::MF_ATTRIBUTES_MATCH_INTERSECTION);
    let smaller = co::MF_ATTRIBUTES_MATCH(co::MF_ATTRIBUTES_MATCH_SMALLER);

    assert_eq!(a_if.Compare(&ours, &theirs, our_items), Ok(true));
    assert_eq!(a_if.Compare(&ours, &theirs, their_items), Ok(false));
    assert_eq!(a_if.Compare(&ours, &theirs, all_items), Ok(false));
    assert_eq!(a_if.Compare(&ours, &theirs, intersection), Ok(true));
    assert_eq!(a_if.Compare(&ours, &theirs, smaller), Ok(true));

    // A shared key with a different value fails every containment.
    a_if.SetUINT32(&mut ours, &k2, 21).unwrap();
    assert_eq!(a_if.Compare(&ours, &theirs, our_items), Ok(false));
    assert_eq!(a_if.Compare(&ours, &theirs, intersection), Ok(false));

    assert_eq!(
        a_if.Compare(&ours, &theirs, co::MF_ATTRIBUTES_MATCH(9)),
        Err(ERROR(co::E_INVALIDARG))
    );
}

#[test]
fn service_identities() {
    let rid = winsafe::mf::MR_VIDEO_RENDER_SERVICE();
    assert_eq!(rid, IID::new(0x1092a86c, 0xab1a, 0x459a, 0xa336, 0x831f_bc4d_11ff));
    let bid = winsafe::mf::MR_BUFFER_SERVICE();
    assert_eq!(bid, IID::new(0xa562248c, 0x9ac6, 0x4ffc, 0x9fba, 0x3af8_f8ad_1a4d));
}
