//! The COM interface runtime: reference-counted ownership of a foreign
//! object that is reached only through a table of function pointers.
//!
//! The foreign object's storage belongs to the system, not to this
//! process; all this side ever holds is a pointer word and one unit of
//! the object's reference count. Here the foreign side is represented by
//! [`ComObject`], an explicit in-process model that keeps the count, the
//! call counters and the set of identities the object implements, so
//! that the ownership discipline — duplicate increments by exactly one,
//! release decrements by exactly one and only once, a failed query moves
//! nothing — is stated in the contracts and proved.

#![allow(non_snake_case)]

use vstd::prelude::*;

use crate::co::{E_NOINTERFACE, ERROR, S_OK};

verus! {

/// A 128-bit identity naming a capability, known at compile time and
/// reproduced bit-exact from the system's definition.
#[derive(Clone, Copy, PartialEq, Eq, Structural, Debug)]
pub struct IID {
    pub data1: u32,
    pub data2: u16,
    pub data3: u16,
    pub data4: u16,
    pub data5: u64,
}

impl IID {
    /// Builds an identity from its five groups.
    pub fn new(d1: u32, d2: u16, d3: u16, d4: u16, d5: u64) -> (r: IID)
        ensures
            r == (IID { data1: d1, data2: d2, data3: d3, data4: d4, data5: d5 }),
    {
        IID { data1: d1, data2: d2, data3: d3, data4: d4, data5: d5 }
    }
}

/// The universal function table: the three slots every foreign object's
/// table begins with, in this fixed order, held as opaque function
/// addresses. A derived table starts with this table as its first field,
/// which is what makes a pointer to it also a valid pointer to the base.
#[derive(Clone, Copy, PartialEq, Eq, Structural, Debug)]
pub struct IUnknownVT {
    pub QueryInterface: usize,
    pub AddRef: usize,
    pub Release: usize,
}

//------------------------------------------------------------------------

/// The foreign object, as this process can observe it: a nonzero address
/// word, the reference count it keeps, counters of the universal calls
/// made on it, the identities it implements, and the status code its
/// interface-specific slots report. The object's storage is the system's
/// own; when the count reaches zero the system reclaims it, which is not
/// observable here beyond the call returning.
pub struct ComObject {
    id: usize,
    ref_count: u32,
    addref_calls: u32,
    release_calls: u32,
    supported: Vec<IID>,
    method_status: u32,
}

impl ComObject {
    /// The object's address word.
    pub closed spec fn id_spec(&self) -> usize {
        self.id
    }

    /// The reference count the object keeps.
    pub closed spec fn ref_count_spec(&self) -> u32 {
        self.ref_count
    }

    /// How many times the increment slot was called.
    pub closed spec fn addref_calls_spec(&self) -> u32 {
        self.addref_calls
    }

    /// How many times the decrement slot was called.
    pub closed spec fn release_calls_spec(&self) -> u32 {
        self.release_calls
    }

    /// The identities the object implements.
    pub closed spec fn supported_spec(&self) -> Seq<IID> {
        self.supported@
    }

    /// The status code the object's interface-specific slots report.
    pub closed spec fn method_status_spec(&self) -> u32 {
        self.method_status
    }

    /// A well-formed object has a nonzero address.
    pub open spec fn wf(&self) -> bool {
        self.id_spec() != 0
    }

    /// Whether the object implements the given identity.
    pub open spec fn supports(&self, iid: IID) -> bool {
        self.supported_spec().contains(iid)
    }

    /// Builds an object that implements the given identities, with no
    /// reference yet claimed and every call counter at zero.
    pub fn new(id: usize, supported: Vec<IID>, method_status: u32) -> (obj: ComObject)
        requires
            id != 0,
        ensures
            obj.wf(),
            obj.id_spec() == id,
            obj.ref_count_spec() == 0,
            obj.addref_calls_spec() == 0,
            obj.release_calls_spec() == 0,
            obj.supported_spec() == supported@,
            obj.method_status_spec() == method_status,
    {
        ComObject { id, ref_count: 0, addref_calls: 0, release_calls: 0, supported, method_status }
    }

    /// Reads the reference count.
    pub fn ref_count(&self) -> (n: u32)
        ensures
            n == self.ref_count_spec(),
    {
        self.ref_count
    }

    /// Reads the increment-call counter.
    pub fn addref_calls(&self) -> (n: u32)
        ensures
            n == self.addref_calls_spec(),
    {
        self.addref_calls
    }

    /// Reads the decrement-call counter.
    pub fn release_calls(&self) -> (n: u32)
        ensures
            n == self.release_calls_spec(),
    {
        self.release_calls
    }

    /// Reads the status code the interface-specific slots report.
    pub fn method_status(&self) -> (st: u32)
        ensures
            st == self.method_status_spec(),
    {
        self.method_status
    }

    /// The increment slot of the universal table: raises the reference
    /// count by exactly one and reports the new count. By the universal
    /// contract this operation cannot fail.
    pub fn add_ref(&mut self) -> (n: u32)
        requires
            old(self).ref_count_spec() < u32::MAX,
            old(self).addref_calls_spec() < u32::MAX,
        ensures
            n == final(self).ref_count_spec(),
            final(self).ref_count_spec() == old(self).ref_count_spec() + 1,
            final(self).addref_calls_spec() == old(self).addref_calls_spec() + 1,
            final(self).release_calls_spec() == old(self).release_calls_spec(),
            final(self).id_spec() == old(self).id_spec(),
            final(self).supported_spec() == old(self).supported_spec(),
            final(self).method_status_spec() == old(self).method_status_spec(),
    {
        self.ref_count = self.ref_count + 1;
        self.addref_calls = self.addref_calls + 1;
        self.ref_count
    }

    /// The decrement slot of the universal table: lowers the reference
    /// count by exactly one and reports the new count. A zero report
    /// means the system reclaimed the object's storage.
    pub fn release(&mut self) -> (n: u32)
        requires
            old(self).ref_count_spec() > 0,
            old(self).release_calls_spec() < u32::MAX,
        ensures
            n == final(self).ref_count_spec(),
            final(self).ref_count_spec() == old(self).ref_count_spec() - 1,
            final(self).release_calls_spec() == old(self).release_calls_spec() + 1,
            final(self).addref_calls_spec() == old(self).addref_calls_spec(),
            final(self).id_spec() == old(self).id_spec(),
            final(self).supported_spec() == old(self).supported_spec(),
            final(self).method_status_spec() == old(self).method_status_spec(),
    {
        self.ref_count = self.ref_count - 1;
        self.release_calls = self.release_calls + 1;
        self.ref_count
    }

    /// A factory acquisition: claims one reference through the increment
    /// slot and hands out a base wrapper owning it.
    pub fn acquire(&mut self) -> (w: IUnknown)
        requires
            old(self).wf(),
            old(self).ref_count_spec() < u32::MAX,
            old(self).addref_calls_spec() < u32::MAX,
        ensures
            w.bound_to(final(self)),
            w.ppv_spec() == old(self).id_spec(),
            final(self).ref_count_spec() == old(self).ref_count_spec() + 1,
            final(self).addref_calls_spec() == old(self).addref_calls_spec() + 1,
            final(self).release_calls_spec() == old(self).release_calls_spec(),
            final(self).id_spec() == old(self).id_spec(),
            final(self).supported_spec() == old(self).supported_spec(),
            final(self).method_status_spec() == old(self).method_status_spec(),
    {
        self.add_ref();
        IUnknown::from_ppv(self.id)
    }

    /// The query slot of the universal table. For a supported identity it
    /// claims one more reference (through the increment slot) and reports
    /// success; for any other identity it reports no-such-interface and
    /// touches nothing — in particular, the increment slot is not called.
    pub fn query_interface(&mut self, iid: &IID) -> (status: u32)
        requires
            old(self).ref_count_spec() < u32::MAX,
            old(self).addref_calls_spec() < u32::MAX,
        ensures
            old(self).supports(*iid) ==> {
                &&& status == S_OK
                &&& final(self).ref_count_spec() == old(self).ref_count_spec() + 1
                &&& final(self).addref_calls_spec() == old(self).addref_calls_spec() + 1
                &&& final(self).release_calls_spec() == old(self).release_calls_spec()
            },
            !old(self).supports(*iid) ==> {
                &&& status == E_NOINTERFACE
                &&& *final(self) == *old(self)
            },
            final(self).id_spec() == old(self).id_spec(),
            final(self).supported_spec() == old(self).supported_spec(),
            final(self).method_status_spec() == old(self).method_status_spec(),
    {
        let mut i: usize = 0;
        let mut found = false;
        while i < self.supported.len()
            invariant
                i <= self.supported.len(),
                found == exists|j: int| 0 <= j < i && self.supported@[j] == *iid,
            decreases self.supported.len() - i,
        {
            if self.supported[i] == *iid {
                found = true;
            }
            i = i + 1;
        }
        if found {
            self.add_ref();
            S_OK
        } else {
            E_NOINTERFACE
        }
    }
}

//------------------------------------------------------------------------

/// A capability: a named, identity-bearing contract that a foreign
/// object may support. Every concrete interface wrapper shares the same
/// physical representation — a single pointer word — and so inherits the
/// universal operations.
pub trait ComInterface: Sized {
    /// The fixed identity of this capability.
    spec fn iid_spec() -> IID;

    /// The wrapper's stored pointer word; zero after release.
    spec fn ppv_spec(&self) -> usize;

    /// Returns the fixed identity of this capability.
    fn iid() -> (r: IID)
        ensures
            r == Self::iid_spec(),
    ;

    /// Wraps a pointer word whose one reference unit the caller already
    /// owns, as handed out by a foreign factory or a successful query.
    fn from_ppv(ppv: usize) -> (r: Self)
        ensures
            r.ppv_spec() == ppv,
    ;
}

/// The base interface every foreign object exposes: one pointer word,
/// owning exactly one unit of the object's reference count while live.
/// A live wrapper's word is the object's address; a released wrapper
/// holds zero and must never be used again.
///
/// A wrapper has exactly two states — live and released — and one
/// transition between them, taken once. Duplication and release are
/// explicit operations, so that each carries its exact effect on the
/// foreign count in its contract; tying release to scope exit is the
/// caller's discipline.
#[derive(Debug)]
pub struct IUnknown {
    ppv: usize,
}

impl ComInterface for IUnknown {
    /// The universal identity.
    closed spec fn iid_spec() -> IID {
        IID { data1: 0, data2: 0, data3: 0, data4: 0xc000, data5: 0x46 }
    }

    closed spec fn ppv_spec(&self) -> usize {
        self.ppv
    }

    fn iid() -> (r: IID) {
        IID::new(0x00000000, 0x0000, 0x0000, 0xc000, 0x0000_0000_0046)
    }

    fn from_ppv(ppv: usize) -> (r: Self) {
        IUnknown { ppv }
    }
}

impl IUnknown {
    /// Whether the wrapper is live: its pointer word is the address of a
    /// foreign object on which it owns one reference unit.
    pub open spec fn is_live(&self) -> bool {
        self.ppv_spec() != 0
    }

    /// The wrapper is live and bound to the given object.
    pub open spec fn bound_to(&self, obj: &ComObject) -> bool {
        self.is_live() && self.ppv_spec() == obj.id_spec()
    }

    /// Reads the stored pointer word.
    pub fn ppv(&self) -> (p: usize)
        ensures
            p == self.ppv_spec(),
    {
        self.ppv
    }

    /// Whether the wrapper has been released.
    pub fn is_null(&self) -> (b: bool)
        ensures
            b == !self.is_live(),
    {
        self.ppv == 0
    }

    /// Claims one more reference on the foreign object through its
    /// increment slot — exactly one, before the duplicate becomes
    /// observable — and returns a second wrapper of the same object.
    /// This operation cannot fail.
    pub fn duplicate(&self, obj: &mut ComObject) -> (dup: IUnknown)
        requires
            self.bound_to(old(obj)),
            old(obj).ref_count_spec() < u32::MAX,
            old(obj).addref_calls_spec() < u32::MAX,
        ensures
            dup.ppv_spec() == self.ppv_spec(),
            dup.bound_to(final(obj)),
            final(obj).ref_count_spec() == old(obj).ref_count_spec() + 1,
            final(obj).addref_calls_spec() == old(obj).addref_calls_spec() + 1,
            final(obj).release_calls_spec() == old(obj).release_calls_spec(),
            final(obj).id_spec() == old(obj).id_spec(),
            final(obj).supported_spec() == old(obj).supported_spec(),
            final(obj).method_status_spec() == old(obj).method_status_spec(),
    {
        obj.add_ref();
        IUnknown { ppv: self.ppv }
    }

    /// Gives the owned reference unit back: calls the foreign decrement
    /// slot exactly once and clears the pointer word, so that no second
    /// release can reach the object. On a wrapper already released this
    /// is a no-op: the foreign object is not touched.
    pub fn Release(&mut self, obj: &mut ComObject)
        requires
            old(self).is_live() ==> {
                &&& old(self).ppv_spec() == old(obj).id_spec()
                &&& old(obj).ref_count_spec() > 0
                &&& old(obj).release_calls_spec() < u32::MAX
            },
        ensures
            !final(self).is_live(),
            old(self).is_live() ==> {
                &&& final(obj).ref_count_spec() == old(obj).ref_count_spec() - 1
                &&& final(obj).release_calls_spec() == old(obj).release_calls_spec() + 1
                &&& final(obj).addref_calls_spec() == old(obj).addref_calls_spec()
            },
            !old(self).is_live() ==> *final(obj) == *old(obj),
            final(obj).id_spec() == old(obj).id_spec(),
            final(obj).supported_spec() == old(obj).supported_spec(),
            final(obj).method_status_spec() == old(obj).method_status_spec(),
    {
        if self.ppv != 0 {
            obj.release();
            self.ppv = 0;
        }
    }

    /// Asks the foreign object for another capability by its identity.
    /// The output slot starts at null, so a failed call can never leave
    /// a dangling nonzero word. On success the object has claimed one
    /// more reference, owned by the returned wrapper alone; on failure
    /// the no-such-interface status becomes the error and the object is
    /// left exactly as it was — no reference moves.
    pub fn QueryInterface<T: ComInterface>(&self, obj: &mut ComObject) -> (r: Result<T, ERROR>)
        requires
            self.bound_to(old(obj)),
            old(obj).ref_count_spec() < u32::MAX,
            old(obj).addref_calls_spec() < u32::MAX,
        ensures
            old(obj).supports(T::iid_spec()) ==> {
                &&& r matches Ok(w) && w.ppv_spec() == self.ppv_spec()
                &&& final(obj).ref_count_spec() == old(obj).ref_count_spec() + 1
                &&& final(obj).addref_calls_spec() == old(obj).addref_calls_spec() + 1
                &&& final(obj).release_calls_spec() == old(obj).release_calls_spec()
            },
            !old(obj).supports(T::iid_spec()) ==> {
                &&& r matches Err(e) && e == ERROR(E_NOINTERFACE)
                &&& *final(obj) == *old(obj)
            },
            final(obj).id_spec() == old(obj).id_spec(),
            final(obj).supported_spec() == old(obj).supported_spec(),
            final(obj).method_status_spec() == old(obj).method_status_spec(),
    {
        let mut ppv_queried: usize = 0;
        let iid = T::iid();
        let status = obj.query_interface(&iid);
        if status == S_OK {
            ppv_queried = self.ppv;
            Ok(T::from_ppv(ppv_queried))
        } else {
            Err(ERROR(status))
        }
    }
}

//------------------------------------------------------------------------
// The reference-count ledger: the abstract effect of the universal
// operations on the foreign count, and the laws the discipline obeys.

/// One step of the ownership discipline, as the foreign count sees it:
/// a claim (factory acquisition, duplication, or successful query) or a
/// release.
pub enum RefOp {
    Claim,
    Drop,
}

/// How many steps of a sequence claim a reference.
pub open spec fn claim_count(ops: Seq<RefOp>) -> int
    decreases ops.len(),
{
    if ops.len() == 0 {
        0
    } else {
        claim_count(ops.drop_last()) + if ops.last() is Claim {
            1int
        } else {
            0int
        }
    }
}

/// How many steps of a sequence release a reference.
pub open spec fn drop_count(ops: Seq<RefOp>) -> int
    decreases ops.len(),
{
    if ops.len() == 0 {
        0
    } else {
        drop_count(ops.drop_last()) + if ops.last() is Drop {
            1int
        } else {
            0int
        }
    }
}

/// The foreign count after a sequence of steps: each claim raises it by
/// exactly one, each release lowers it by exactly one, as the contracts
/// of the universal operations state.
pub open spec fn apply_ref_ops(count: int, ops: Seq<RefOp>) -> int
    decreases ops.len(),
{
    if ops.len() == 0 {
        count
    } else {
        apply_ref_ops(count, ops.drop_last()) + match ops.last() {
            RefOp::Claim => 1int,
            RefOp::Drop => -1int,
        }
    }
}

/// For every sequence of claim and release steps, the net change of the
/// foreign reference count is the number of claims minus the number of
/// releases.
pub proof fn lemma_ref_count_net(count: int, ops: Seq<RefOp>)
    ensures
        apply_ref_ops(count, ops) == count + claim_count(ops) - drop_count(ops),
    decreases ops.len(),
{
    if ops.len() > 0 {
        lemma_ref_count_net(count, ops.drop_last());
    }
}

/// Round trip: acquiring a wrapper and duplicating it, then releasing
/// both copies, leaves the foreign count exactly where it stood before
/// the pair of wrappers existed.
pub proof fn lemma_duplicate_release_round_trip(count: int)
    ensures
        apply_ref_ops(
            count,
            seq![RefOp::Claim, RefOp::Claim, RefOp::Drop, RefOp::Drop],
        ) == count,
        apply_ref_ops(count, seq![RefOp::Claim, RefOp::Drop]) == count,
{
    let s1 = seq![RefOp::Claim];
    let s2 = seq![RefOp::Claim, RefOp::Claim];
    let s3 = seq![RefOp::Claim, RefOp::Claim, RefOp::Drop];
    let s4 = seq![RefOp::Claim, RefOp::Claim, RefOp::Drop, RefOp::Drop];
    assert(s1.drop_last() =~= Seq::<RefOp>::empty());
    assert(apply_ref_ops(count, Seq::<RefOp>::empty()) == count);
    assert(apply_ref_ops(count, s1) == count + 1);
    assert(s2.drop_last() =~= s1);
    assert(apply_ref_ops(count, s2) == count + 2);
    assert(s3.drop_last() =~= s2);
    assert(apply_ref_ops(count, s3) == count + 1);
    assert(s4.drop_last() =~= s3);
    assert(apply_ref_ops(count, s4) == count);
    let single = seq![RefOp::Claim, RefOp::Drop];
    assert(single.drop_last() =~= s1);
    assert(apply_ref_ops(count, single) == count);
}

} // verus!
