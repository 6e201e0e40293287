//! The modal-window capability: the first derived interface, showing the
//! layering pattern. Its function table begins with the universal table,
//! its wrapper shares the single-pointer representation, and so the
//! universal operations carry over unchanged.

#![allow(non_snake_case)]

use vstd::prelude::*;

use crate::co::{E_NOINTERFACE, ERROR, ERROR_CANCELLED, ERROR_SUCCESS, S_OK};
use crate::com::{ComInterface, ComObject, IID, IUnknownVT};
use crate::handles::HWND;

verus! {

/// The modal-window function table: the universal table first, then the
/// one interface-specific slot, in the foreign-defined order.
#[derive(Clone, Copy, PartialEq, Eq, Structural, Debug)]
pub struct IModalWindowVT {
    pub IUnknownVT: IUnknownVT,
    pub Show: usize,
}

/// A window shown modally: a capability wrapper over one pointer word,
/// owning one unit of the foreign object's reference count while live.
#[derive(Debug)]
pub struct IModalWindow {
    ppv: usize,
}

impl ComInterface for IModalWindow {
    /// The fixed identity of the modal-window capability.
    closed spec fn iid_spec() -> IID {
        IID { data1: 0xb4db1657, data2: 0x70d7, data3: 0x485e, data4: 0x8e3e, data5: 0x6fcb5a5c1802 }
    }

    closed spec fn ppv_spec(&self) -> usize {
        self.ppv
    }

    fn iid() -> (r: IID) {
        IID::new(0xb4db1657, 0x70d7, 0x485e, 0x8e3e, 0x6fcb5a5c1802)
    }

    fn from_ppv(ppv: usize) -> (r: Self) {
        IModalWindow { ppv }
    }
}

impl IModalWindow {
    /// Whether the wrapper is live: its pointer word is the address of a
    /// foreign object on which it owns one reference unit.
    pub open spec fn is_live(&self) -> bool {
        self.ppv_spec() != 0
    }

    /// The wrapper is live and bound to the given object.
    pub open spec fn bound_to(&self, obj: &ComObject) -> bool {
        self.is_live() && self.ppv_spec() == obj.id_spec()
    }

    /// Reads the stored pointer word.
    pub fn ppv(&self) -> (p: usize)
        ensures
            p == self.ppv_spec(),
    {
        self.ppv
    }

    /// Whether the wrapper has been released.
    pub fn is_null(&self) -> (b: bool)
        ensures
            b == !self.is_live(),
    {
        self.ppv == 0
    }

    /// Claims one more reference on the foreign object through its
    /// increment slot and returns a second wrapper of the same object.
    pub fn duplicate(&self, obj: &mut ComObject) -> (dup: IModalWindow)
        requires
            self.bound_to(old(obj)),
            old(obj).ref_count_spec() < u32::MAX,
            old(obj).addref_calls_spec() < u32::MAX,
        ensures
            dup.ppv_spec() == self.ppv_spec(),
            dup.bound_to(final(obj)),
            final(obj).ref_count_spec() == old(obj).ref_count_spec() + 1,
            final(obj).addref_calls_spec() == old(obj).addref_calls_spec() + 1,
            final(obj).release_calls_spec() == old(obj).release_calls_spec(),
            final(obj).id_spec() == old(obj).id_spec(),
            final(obj).supported_spec() == old(obj).supported_spec(),
            final(obj).method_status_spec() == old(obj).method_status_spec(),
    {
        obj.add_ref();
        IModalWindow { ppv: self.ppv }
    }

    /// Gives the owned reference unit back: calls the foreign decrement
    /// slot exactly once and clears the pointer word. On a wrapper
    /// already released this is a no-op.
    pub fn Release(&mut self, obj: &mut ComObject)
        requires
            old(self).is_live() ==> {
                &&& old(self).ppv_spec() == old(obj).id_spec()
                &&& old(obj).ref_count_spec() > 0
                &&& old(obj).release_calls_spec() < u32::MAX
            },
        ensures
            !final(self).is_live(),
            old(self).is_live() ==> {
                &&& final(obj).ref_count_spec() == old(obj).ref_count_spec() - 1
                &&& final(obj).release_calls_spec() == old(obj).release_calls_spec() + 1
                &&& final(obj).addref_calls_spec() == old(obj).addref_calls_spec()
            },
            !old(self).is_live() ==> *final(obj) == *old(obj),
            final(obj).id_spec() == old(obj).id_spec(),
            final(obj).supported_spec() == old(obj).supported_spec(),
            final(obj).method_status_spec() == old(obj).method_status_spec(),
    {
        if self.ppv != 0 {
            obj.release();
            self.ppv = 0;
        }
    }

    /// Asks the foreign object for another capability by its identity,
    /// with the same discipline as the base wrapper: one reference
    /// claimed on success, nothing moved on failure.
    pub fn QueryInterface<T: ComInterface>(&self, obj: &mut ComObject) -> (r: Result<T, ERROR>)
        requires
            self.bound_to(old(obj)),
            old(obj).ref_count_spec() < u32::MAX,
            old(obj).addref_calls_spec() < u32::MAX,
        ensures
            old(obj).supports(T::iid_spec()) ==> {
                &&& r matches Ok(w) && w.ppv_spec() == self.ppv_spec()
                &&& final(obj).ref_count_spec() == old(obj).ref_count_spec() + 1
                &&& final(obj).addref_calls_spec() == old(obj).addref_calls_spec() + 1
                &&& final(obj).release_calls_spec() == old(obj).release_calls_spec()
            },
            !old(obj).supports(T::iid_spec()) ==> {
                &&& r matches Err(e) && e == ERROR(E_NOINTERFACE)
                &&& *final(obj) == *old(obj)
            },
            final(obj).id_spec() == old(obj).id_spec(),
            final(obj).supported_spec() == old(obj).supported_spec(),
            final(obj).method_status_spec() == old(obj).method_status_spec(),
    {
        let mut ppv_queried: usize = 0;
        let iid = T::iid();
        let status = obj.query_interface(&iid);
        if status == S_OK {
            ppv_queried = self.ppv;
            Ok(T::from_ppv(ppv_queried))
        } else {
            Err(ERROR(status))
        }
    }

    /// Shows the window, owned by the given window. The foreign slot's
    /// status decides the outcome: success means the user accepted, the
    /// well-known cancelled status is a valid negative answer rather
    /// than a failure, and any other status is surfaced verbatim as the
    /// error. The reference count is not touched.
    #[allow(unused_variables)]
    pub fn Show(&self, obj: &ComObject, hwnd_owner: HWND) -> (r: Result<bool, ERROR>)
        requires
            self.bound_to(obj),
        ensures
            obj.method_status_spec() % 0x1_0000 == ERROR_SUCCESS ==> r == Result::<
                bool,
                ERROR,
            >::Ok(true),
            obj.method_status_spec() % 0x1_0000 == ERROR_CANCELLED ==> r == Result::<
                bool,
                ERROR,
            >::Ok(false),
            (obj.method_status_spec() % 0x1_0000 != ERROR_SUCCESS && obj.method_status_spec()
                % 0x1_0000 != ERROR_CANCELLED) ==> r == Result::<bool, ERROR>::Err(
                ERROR(obj.method_status_spec()),
            ),
    {
        let hr = obj.method_status();
        proof {
            assert((((hr as i32) as u32) % 0x1_0000) == hr % 0x1_0000) by (bit_vector);
        }
        let code = crate::funcs::HRESULT_FROM_WIN32(#[verifier::truncate] (hr as i32));
        if code.0 == ERROR_SUCCESS {
            Ok(true)
        } else if code.0 == ERROR_CANCELLED {
            Ok(false)
        } else {
            Err(ERROR(hr))
        }
    }
}

} // verus!
