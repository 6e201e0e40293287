//! The media-attributes capability: a second derived interface, whose
//! foreign object keeps a table of identity-keyed values. The table is
//! modeled explicitly, so each method's effect — which key is read or
//! written, which status comes back when a key is missing or holds the
//! wrong type, what every other key keeps — is stated and proved.

#![allow(non_snake_case, non_camel_case_types)]

use vstd::prelude::*;

use crate::co;
use crate::co::ERROR;
use crate::com::{ComInterface, IID};

verus! {

/// One value a foreign attribute table can hold.
#[derive(Clone, Copy, PartialEq, Eq, Structural, Debug)]
pub enum AttrValue {
    /// An unsigned doubleword.
    U32(u32),
    /// An unsigned quadword.
    U64(u64),
}

/// Whether a sequence of entries holds the given key.
pub open spec fn seq_has(s: Seq<(IID, AttrValue)>, k: IID) -> bool {
    exists|i: int| 0 <= i < s.len() && s[i].0 == k
}

/// The value a sequence of entries holds under the given key.
pub open spec fn seq_get(s: Seq<(IID, AttrValue)>, k: IID) -> AttrValue {
    s[choose|i: int| 0 <= i < s.len() && s[i].0 == k].1
}

/// Whether a sequence of entries holds each key at most once.
pub open spec fn seq_keys_unique(s: Seq<(IID, AttrValue)>) -> bool {
    forall|a: int, b: int| 0 <= a < b < s.len() ==> s[a].0 != s[b].0
}

/// The attribute table of a foreign object that implements the
/// media-attributes capability: identity-keyed values, each key held at
/// most once.
pub struct AttrStore {
    entries: Vec<(IID, AttrValue)>,
}

impl AttrStore {
    /// The table's entries, in storage order.
    pub closed spec fn entries_spec(&self) -> Seq<(IID, AttrValue)> {
        self.entries@
    }

    /// A well-formed table holds each key at most once.
    pub open spec fn wf(&self) -> bool {
        seq_keys_unique(self.entries_spec())
    }

    /// Whether the table holds the given key.
    pub open spec fn has(&self, k: IID) -> bool {
        seq_has(self.entries_spec(), k)
    }

    /// The value the table holds under the given key.
    pub open spec fn get(&self, k: IID) -> AttrValue {
        seq_get(self.entries_spec(), k)
    }

    /// How many attributes the table holds.
    pub open spec fn count_spec(&self) -> nat {
        self.entries_spec().len()
    }

    /// An empty table.
    pub fn new() -> (s: AttrStore)
        ensures
            s.wf(),
            s.count_spec() == 0,
            forall|k: IID| !s.has(k),
    {
        AttrStore { entries: Vec::new() }
    }

    /// How many attributes the table holds.
    pub fn count(&self) -> (n: usize)
        ensures
            n == self.count_spec(),
    {
        self.entries.len()
    }

    /// Reads the entry at a storage position.
    fn entry_at(&self, i: usize) -> (e: (IID, AttrValue))
        requires
            i < self.entries_spec().len(),
        ensures
            e == self.entries_spec()[i as int],
    {
        self.entries[i]
    }

    /// Finds the position of a key.
    fn index_of(&self, k: &IID) -> (r: Option<usize>)
        ensures
            (match r {
                Some(i) => i < self.entries_spec().len() && self.entries_spec()[i as int].0 == *k,
                None => !self.has(*k),
            }),
    {
        let mut i: usize = 0;
        while i < self.entries.len()
            invariant
                i <= self.entries@.len(),
                forall|j: int| 0 <= j < i ==> self.entries@[j].0 != *k,
            decreases self.entries@.len() - i,
        {
            if self.entries[i].0 == *k {
                return Some(i);
            }
            i = i + 1;
        }
        None
    }

    /// Reads the value under a key, if the key is held.
    pub fn lookup(&self, k: &IID) -> (r: Option<AttrValue>)
        requires
            self.wf(),
        ensures
            self.has(*k) ==> r == Some(self.get(*k)),
            !self.has(*k) ==> r is None,
    {
        match self.index_of(k) {
            Some(i) => {
                proof {
                    let s = self.entries_spec();
                    let w = choose|j: int| 0 <= j < s.len() && s[j].0 == *k;
                    assert(w == i as int);
                }
                Some(self.entries[i].1)
            },
            None => None,
        }
    }

    /// Writes a value under a key: the key now holds exactly this value,
    /// and every other key keeps what it held.
    pub fn set(&mut self, k: &IID, v: AttrValue)
        requires
            old(self).wf(),
            old(self).count_spec() < usize::MAX,
        ensures
            final(self).wf(),
            final(self).has(*k),
            final(self).get(*k) == v,
            forall|k2: IID| k2 != *k ==> final(self).has(k2) == old(self).has(k2),
            forall|k2: IID|
                k2 != *k && old(self).has(k2) ==> final(self).get(k2) == old(self).get(k2),
    {
        let found = self.index_of(k);
        match found {
            Some(i) => {
                self.entries.set(i, (*k, v));
                proof {
                    lemma_keyed_update(old(self).entries_spec(), self.entries_spec(), i as int, *k, v);
                }
            },
            None => {
                self.entries.push((*k, v));
                proof {
                    lemma_keyed_push(old(self).entries_spec(), self.entries_spec(), *k, v);
                }
            },
        }
    }

    /// Removes a key, if held: the key is gone, and every other key
    /// keeps what it held.
    pub fn delete(&mut self, k: &IID)
        requires
            old(self).wf(),
        ensures
            final(self).wf(),
            !final(self).has(*k),
            forall|k2: IID| k2 != *k ==> final(self).has(k2) == old(self).has(k2),
            forall|k2: IID|
                k2 != *k && old(self).has(k2) ==> final(self).get(k2) == old(self).get(k2),
    {
        let found = self.index_of(k);
        match found {
            Some(i) => {
                self.entries.remove(i);
                proof {
                    lemma_keyed_remove(old(self).entries_spec(), self.entries_spec(), i as int, *k);
                }
            },
            None => {
            },
        }
    }

    /// Removes every key.
    pub fn clear(&mut self)
        ensures
            final(self).wf(),
            final(self).count_spec() == 0,
            forall|k: IID| !final(self).has(k),
    {
        self.entries.clear();
    }

    /// Replaces the whole table with another table's contents.
    pub fn copy_from(&mut self, src: &AttrStore)
        requires
            src.wf(),
        ensures
            final(self).wf(),
            forall|k: IID| final(self).has(k) == src.has(k),
            forall|k: IID| src.has(k) ==> final(self).get(k) == src.get(k),
    {
        self.entries.clear();
        let mut i: usize = 0;
        while i < src.entries.len()
            invariant
                i <= src.entries@.len(),
                self.entries@ =~= src.entries@.subrange(0, i as int),
            decreases src.entries@.len() - i,
        {
            let e = src.entries[i];
            self.entries.push(e);
            i = i + 1;
        }
        proof {
            assert(self.entries@ =~= src.entries@);
            assert(self.entries@ == src.entries@);
        }
    }
}

/// One table's attributes all appear in another table with equal values.
pub open spec fn store_contained_in(a: &AttrStore, b: &AttrStore) -> bool {
    forall|k: IID| #[trigger] a.has(k) ==> b.has(k) && b.get(k) == a.get(k)
}

/// Whether every attribute of one table appears in another with an
/// equal value.
pub fn contained_in(a: &AttrStore, b: &AttrStore) -> (r: bool)
    requires
        a.wf(),
        b.wf(),
    ensures
        r == store_contained_in(a, b),
{
    let n = a.count();
    let mut i: usize = 0;
    while i < n
        invariant
            a.wf(),
            b.wf(),
            n == a.entries_spec().len(),
            i <= n,
            forall|j: int|
                0 <= j < i ==> b.has(#[trigger] a.entries_spec()[j].0) && b.get(
                    a.entries_spec()[j].0,
                ) == a.entries_spec()[j].1,
        decreases n - i,
    {
        let entry = a.entry_at(i);
        let held = b.lookup(&entry.0);
        match held {
            Some(v) => {
                if v != entry.1 {
                    proof {
                        assert(a.has(entry.0));
                        assert(a.get(entry.0) == entry.1) by {
                            let w = choose|j: int|
                                0 <= j < a.entries_spec().len() && a.entries_spec()[j].0
                                    == entry.0;
                            assert(w == i as int);
                        }
                    }
                    return false;
                }
                proof {
                    assert(b.get(a.entries_spec()[i as int].0) == a.entries_spec()[i as int].1);
                }
            },
            None => {
                proof {
                    assert(a.has(entry.0));
                }
                return false;
            },
        }
        i = i + 1;
    }
    proof {
        assert forall|k: IID| #[trigger] a.has(k) implies b.has(k) && b.get(k) == a.get(k) by {
            let j = choose|j: int| 0 <= j < a.entries_spec().len() && a.entries_spec()[j].0 == k;
            assert(b.has(a.entries_spec()[j].0));
            assert(a.get(k) == a.entries_spec()[j].1) by {
                let w = choose|w: int|
                    0 <= w < a.entries_spec().len() && a.entries_spec()[w].0 == k;
                assert(w == j);
            }
        }
    }
    true
}

/// Keys held by both tables hold equal values.
pub open spec fn store_intersection_equal(a: &AttrStore, b: &AttrStore) -> bool {
    forall|k: IID| #[trigger] a.has(k) && b.has(k) ==> a.get(k) == b.get(k)
}

/// Whether every key held by both tables holds equal values.
pub fn intersection_equal(a: &AttrStore, b: &AttrStore) -> (r: bool)
    requires
        a.wf(),
        b.wf(),
    ensures
        r == store_intersection_equal(a, b),
{
    let n = a.count();
    let mut i: usize = 0;
    while i < n
        invariant
            a.wf(),
            b.wf(),
            n == a.entries_spec().len(),
            i <= n,
            forall|j: int|
                0 <= j < i ==> (b.has(#[trigger] a.entries_spec()[j].0) ==> b.get(
                    a.entries_spec()[j].0,
                ) == a.entries_spec()[j].1),
        decreases n - i,
    {
        let entry = a.entry_at(i);
        let held = b.lookup(&entry.0);
        match held {
            Some(v) => {
                if v != entry.1 {
                    proof {
                        assert(a.has(entry.0));
                        assert(a.get(entry.0) == entry.1) by {
                            let w = choose|j: int|
                                0 <= j < a.entries_spec().len() && a.entries_spec()[j].0
                                    == entry.0;
                            assert(w == i as int);
                        }
                    }
                    return false;
                }
            },
            None => {
            },
        }
        i = i + 1;
    }
    proof {
        assert forall|k: IID| #[trigger] a.has(k) && b.has(k) implies a.get(k) == b.get(k) by {
            let j = choose|j: int| 0 <= j < a.entries_spec().len() && a.entries_spec()[j].0 == k;
            assert(b.has(a.entries_spec()[j].0) ==> b.get(a.entries_spec()[j].0)
                == a.entries_spec()[j].1);
            assert(a.get(k) == a.entries_spec()[j].1) by {
                let w = choose|w: int|
                    0 <= w < a.entries_spec().len() && a.entries_spec()[w].0 == k;
                assert(w == j);
            }
        }
    }
    true
}

/// A foreign object's attribute capability: one pointer word, the same
/// representation and discipline as every other capability wrapper.
#[derive(Debug)]
pub struct IMFAttributes {
    ppv: usize,
}

impl ComInterface for IMFAttributes {
    /// The fixed identity of the attribute capability.
    closed spec fn iid_spec() -> IID {
        IID { data1: 0x2cd2d921, data2: 0xc447, data3: 0x44a7, data4: 0xa13c, data5: 0x4adabfc247e3 }
    }

    closed spec fn ppv_spec(&self) -> usize {
        self.ppv
    }

    fn iid() -> (r: IID) {
        IID::new(0x2cd2d921, 0xc447, 0x44a7, 0xa13c, 0x4ada_bfc2_47e3)
    }

    fn from_ppv(ppv: usize) -> (r: Self) {
        IMFAttributes { ppv }
    }
}

/// The methods of the attribute capability. Each works against the
/// foreign object's attribute table, given here explicitly; a live
/// wrapper is required throughout.
pub trait mf_IMFAttributes: ComInterface {
    /// Reads a doubleword attribute: its value if the key holds one, the
    /// not-found status for a missing key, the wrong-type status for a
    /// key holding anything else.
    fn GetUINT32(&self, attrs: &AttrStore, guid_key: &IID) -> (r: Result<u32, ERROR>)
        requires
            self.ppv_spec() != 0,
            attrs.wf(),
        ensures
            !attrs.has(*guid_key) ==> r == Result::<u32, ERROR>::Err(
                ERROR(co::MF_E_ATTRIBUTENOTFOUND),
            ),
            attrs.has(*guid_key) ==> (match attrs.get(*guid_key) {
                AttrValue::U32(v) => r == Result::<u32, ERROR>::Ok(v),
                AttrValue::U64(_) => r == Result::<u32, ERROR>::Err(ERROR(co::MF_E_INVALIDTYPE)),
            }),
    ;

    /// Reads a quadword attribute: its value if the key holds one, the
    /// not-found status for a missing key, the wrong-type status for a
    /// key holding anything else.
    fn GetUINT64(&self, attrs: &AttrStore, guid_key: &IID) -> (r: Result<u64, ERROR>)
        requires
            self.ppv_spec() != 0,
            attrs.wf(),
        ensures
            !attrs.has(*guid_key) ==> r == Result::<u64, ERROR>::Err(
                ERROR(co::MF_E_ATTRIBUTENOTFOUND),
            ),
            attrs.has(*guid_key) ==> (match attrs.get(*guid_key) {
                AttrValue::U64(v) => r == Result::<u64, ERROR>::Ok(v),
                AttrValue::U32(_) => r == Result::<u64, ERROR>::Err(ERROR(co::MF_E_INVALIDTYPE)),
            }),
    ;

    /// Writes a doubleword attribute; every other key keeps its value.
    fn SetUINT32(&self, attrs: &mut AttrStore, guid_key: &IID, value: u32) -> (r: Result<(), ERROR>)
        requires
            self.ppv_spec() != 0,
            old(attrs).wf(),
            old(attrs).count_spec() < usize::MAX,
        ensures
            r == Result::<(), ERROR>::Ok(()),
            final(attrs).wf(),
            final(attrs).has(*guid_key),
            final(attrs).get(*guid_key) == AttrValue::U32(value),
            forall|k2: IID| k2 != *guid_key ==> final(attrs).has(k2) == old(attrs).has(k2),
            forall|k2: IID|
                k2 != *guid_key && old(attrs).has(k2) ==> final(attrs).get(k2) == old(attrs).get(
                    k2,
                ),
    ;

    /// Writes a quadword attribute; every other key keeps its value.
    fn SetUINT64(&self, attrs: &mut AttrStore, guid_key: &IID, value: u64) -> (r: Result<(), ERROR>)
        requires
            self.ppv_spec() != 0,
            old(attrs).wf(),
            old(attrs).count_spec() < usize::MAX,
        ensures
            r == Result::<(), ERROR>::Ok(()),
            final(attrs).wf(),
            final(attrs).has(*guid_key),
            final(attrs).get(*guid_key) == AttrValue::U64(value),
            forall|k2: IID| k2 != *guid_key ==> final(attrs).has(k2) == old(attrs).has(k2),
            forall|k2: IID|
                k2 != *guid_key && old(attrs).has(k2) ==> final(attrs).get(k2) == old(attrs).get(
                    k2,
                ),
    ;

    /// Removes a key; removing a key that is not held succeeds too, and
    /// every other key keeps its value.
    fn DeleteItem(&self, attrs: &mut AttrStore, guid_key: &IID) -> (r: Result<(), ERROR>)
        requires
            self.ppv_spec() != 0,
            old(attrs).wf(),
        ensures
            r == Result::<(), ERROR>::Ok(()),
            final(attrs).wf(),
            !final(attrs).has(*guid_key),
            forall|k2: IID| k2 != *guid_key ==> final(attrs).has(k2) == old(attrs).has(k2),
            forall|k2: IID|
                k2 != *guid_key && old(attrs).has(k2) ==> final(attrs).get(k2) == old(attrs).get(
                    k2,
                ),
    ;

    /// Removes every attribute.
    fn DeleteAllItems(&self, attrs: &mut AttrStore) -> (r: Result<(), ERROR>)
        requires
            self.ppv_spec() != 0,
        ensures
            r == Result::<(), ERROR>::Ok(()),
            final(attrs).wf(),
            final(attrs).count_spec() == 0,
            forall|k: IID| !final(attrs).has(k),
    ;

    /// Asks whether the table holds the given key with exactly the given
    /// value.
    fn CompareItem(&self, attrs: &AttrStore, guid_key: &IID, value: &AttrValue) -> (r: Result<
        bool,
        ERROR,
    >)
        requires
            self.ppv_spec() != 0,
            attrs.wf(),
        ensures
            r == Result::<bool, ERROR>::Ok(attrs.has(*guid_key) && attrs.get(*guid_key) == *value),
    ;

    /// Copies every attribute of this object's table into another
    /// table, which first loses what it held.
    fn CopyAllItems(&self, attrs: &AttrStore, dest: &mut AttrStore) -> (r: Result<(), ERROR>)
        requires
            self.ppv_spec() != 0,
            attrs.wf(),
        ensures
            r == Result::<(), ERROR>::Ok(()),
            final(dest).wf(),
            forall|k: IID| final(dest).has(k) == attrs.has(k),
            forall|k: IID| attrs.has(k) ==> final(dest).get(k) == attrs.get(k),
    ;

    /// Matches this object's table against another, as the match type
    /// prescribes: this table contained in the other, the converse,
    /// both, equal values on the shared keys, or the table with fewer
    /// attributes contained in the other. An unknown match type is an
    /// invalid argument.
    fn Compare(&self, attrs: &AttrStore, theirs: &AttrStore, match_type: co::MF_ATTRIBUTES_MATCH)
        -> (r: Result<bool, ERROR>)
        requires
            self.ppv_spec() != 0,
            attrs.wf(),
            theirs.wf(),
        ensures
            match_type.0 == co::MF_ATTRIBUTES_MATCH_OUR_ITEMS ==> r == Result::<bool, ERROR>::Ok(
                store_contained_in(attrs, theirs),
            ),
            match_type.0 == co::MF_ATTRIBUTES_MATCH_THEIR_ITEMS ==> r == Result::<bool, ERROR>::Ok(
                store_contained_in(theirs, attrs),
            ),
            match_type.0 == co::MF_ATTRIBUTES_MATCH_ALL_ITEMS ==> r == Result::<bool, ERROR>::Ok(
                store_contained_in(attrs, theirs) && store_contained_in(theirs, attrs),
            ),
            match_type.0 == co::MF_ATTRIBUTES_MATCH_INTERSECTION ==> r == Result::<
                bool,
                ERROR,
            >::Ok(store_intersection_equal(attrs, theirs)),
            match_type.0 == co::MF_ATTRIBUTES_MATCH_SMALLER ==> r == Result::<bool, ERROR>::Ok(
                if attrs.count_spec() <= theirs.count_spec() {
                    store_contained_in(attrs, theirs)
                } else {
                    store_contained_in(theirs, attrs)
                },
            ),
            match_type.0 > co::MF_ATTRIBUTES_MATCH_SMALLER ==> r == Result::<bool, ERROR>::Err(
                ERROR(co::E_INVALIDARG),
            ),
    ;
}

impl mf_IMFAttributes for IMFAttributes {
    fn GetUINT32(&self, attrs: &AttrStore, guid_key: &IID) -> (r: Result<u32, ERROR>) {
        match attrs.lookup(guid_key) {
            Some(AttrValue::U32(v)) => Ok(v),
            Some(AttrValue::U64(_)) => Err(ERROR(co::MF_E_INVALIDTYPE)),
            None => Err(ERROR(co::MF_E_ATTRIBUTENOTFOUND)),
        }
    }

    fn GetUINT64(&self, attrs: &AttrStore, guid_key: &IID) -> (r: Result<u64, ERROR>) {
        match attrs.lookup(guid_key) {
            Some(AttrValue::U64(v)) => Ok(v),
            Some(AttrValue::U32(_)) => Err(ERROR(co::MF_E_INVALIDTYPE)),
            None => Err(ERROR(co::MF_E_ATTRIBUTENOTFOUND)),
        }
    }

    fn SetUINT32(&self, attrs: &mut AttrStore, guid_key: &IID, value: u32) -> (r: Result<
        (),
        ERROR,
    >) {
        attrs.set(guid_key, AttrValue::U32(value));
        Ok(())
    }

    fn SetUINT64(&self, attrs: &mut AttrStore, guid_key: &IID, value: u64) -> (r: Result<
        (),
        ERROR,
    >) {
        attrs.set(guid_key, AttrValue::U64(value));
        Ok(())
    }

    fn DeleteItem(&self, attrs: &mut AttrStore, guid_key: &IID) -> (r: Result<(), ERROR>) {
        attrs.delete(guid_key);
        Ok(())
    }

    fn DeleteAllItems(&self, attrs: &mut AttrStore) -> (r: Result<(), ERROR>) {
        attrs.clear();
        Ok(())
    }

    fn CompareItem(&self, attrs: &AttrStore, guid_key: &IID, value: &AttrValue) -> (r: Result<
        bool,
        ERROR,
    >) {
        match attrs.lookup(guid_key) {
            Some(held) => Ok(held == *value),
            None => Ok(false),
        }
    }

    fn CopyAllItems(&self, attrs: &AttrStore, dest: &mut AttrStore) -> (r: Result<(), ERROR>) {
        dest.copy_from(attrs);
        Ok(())
    }

    fn Compare(&self, attrs: &AttrStore, theirs: &AttrStore, match_type: co::MF_ATTRIBUTES_MATCH)
        -> (r: Result<bool, ERROR>) {
        if match_type.0 == co::MF_ATTRIBUTES_MATCH_OUR_ITEMS {
            Ok(contained_in(attrs, theirs))
        } else if match_type.0 == co::MF_ATTRIBUTES_MATCH_THEIR_ITEMS {
            Ok(contained_in(theirs, attrs))
        } else if match_type.0 == co::MF_ATTRIBUTES_MATCH_ALL_ITEMS {
            let ours = contained_in(attrs, theirs);
            let others = contained_in(theirs, attrs);
            Ok(ours && others)
        } else if match_type.0 == co::MF_ATTRIBUTES_MATCH_INTERSECTION {
            Ok(intersection_equal(attrs, theirs))
        } else if match_type.0 == co::MF_ATTRIBUTES_MATCH_SMALLER {
            if attrs.count() <= theirs.count() {
                Ok(contained_in(attrs, theirs))
            } else {
                Ok(contained_in(theirs, attrs))
            }
        } else {
            Err(ERROR(co::E_INVALIDARG))
        }
    }
}

//------------------------------------------------------------------------
// Media-service identities, reproduced bit-exact.

/// The video-render service identity.
pub fn MR_VIDEO_RENDER_SERVICE() -> (r: IID)
    ensures
        r == (IID {
            data1: 0x1092a86c,
            data2: 0xab1a,
            data3: 0x459a,
            data4: 0xa336,
            data5: 0x831fbc4d11ff,
        }),
{
    IID::new(0x1092a86c, 0xab1a, 0x459a, 0xa336, 0x831f_bc4d_11ff)
}

/// The video-mixer service identity.
pub fn MR_VIDEO_MIXER_SERVICE() -> (r: IID)
    ensures
        r == (IID {
            data1: 0x073cd2fc,
            data2: 0x6cf4,
            data3: 0x40b7,
            data4: 0x8859,
            data5: 0xe89552c841f8,
        }),
{
    IID::new(0x073cd2fc, 0x6cf4, 0x40b7, 0x8859, 0xe895_52c8_41f8)
}

/// The video-acceleration service identity.
pub fn MR_VIDEO_ACCELERATION_SERVICE() -> (r: IID)
    ensures
        r == (IID {
            data1: 0xefef5175,
            data2: 0x5c7d,
            data3: 0x4ce2,
            data4: 0xbbbd,
            data5: 0x34ff8bca6554,
        }),
{
    IID::new(0xefef5175, 0x5c7d, 0x4ce2, 0xbbbd, 0x34ff_8bca_6554)
}

/// The buffer service identity.
pub fn MR_BUFFER_SERVICE() -> (r: IID)
    ensures
        r == (IID {
            data1: 0xa562248c,
            data2: 0x9ac6,
            data3: 0x4ffc,
            data4: 0x9fba,
            data5: 0x3af8f8ad1a4d,
        }),
{
    IID::new(0xa562248c, 0x9ac6, 0x4ffc, 0x9fba, 0x3af8_f8ad_1a4d)
}

/// After an in-place write at the position holding a key, that key holds
/// the new value and every other key is untouched.
proof fn lemma_keyed_update(
    olds: Seq<(IID, AttrValue)>,
    news: Seq<(IID, AttrValue)>,
    i: int,
    k: IID,
    v: AttrValue,
)
    requires
        0 <= i < olds.len(),
        olds[i].0 == k,
        news == olds.update(i, (k, v)),
        seq_keys_unique(olds),
    ensures
        seq_keys_unique(news),
        seq_has(news, k),
        seq_get(news, k) == v,
        forall|k2: IID| k2 != k ==> #[trigger] seq_has(news, k2) == seq_has(olds, k2),
        forall|k2: IID|
            k2 != k && seq_has(olds, k2) ==> #[trigger] seq_get(news, k2) == seq_get(olds, k2),
{
    assert(news[i].0 == k);
    assert(seq_get(news, k) == v) by {
        let w = choose|j: int| 0 <= j < news.len() && news[j].0 == k;
        if w != i {
            assert(news[w] == olds[w]);
            assert(olds[w].0 == k && olds[i].0 == k);
        }
    }
    assert forall|k2: IID| k2 != k implies #[trigger] seq_has(news, k2) == seq_has(olds, k2) by {
        if seq_has(news, k2) {
            let j = choose|j: int| 0 <= j < news.len() && news[j].0 == k2;
            assert(j != i);
            assert(olds[j].0 == k2);
        }
        if seq_has(olds, k2) {
            let j = choose|j: int| 0 <= j < olds.len() && olds[j].0 == k2;
            assert(j != i);
            assert(news[j].0 == k2);
        }
    }
    assert forall|k2: IID| k2 != k && seq_has(olds, k2) implies #[trigger] seq_get(news, k2)
        == seq_get(olds, k2) by {
        let jo = choose|j: int| 0 <= j < olds.len() && olds[j].0 == k2;
        assert(jo != i);
        assert(news[jo] == olds[jo]);
        let jn = choose|j: int| 0 <= j < news.len() && news[j].0 == k2;
        assert(jn != i);
        assert(news[jn] == olds[jn]);
        assert(jn == jo);
    }
}

/// After a push of a fresh key, that key holds the pushed value and
/// every other key is untouched.
proof fn lemma_keyed_push(
    olds: Seq<(IID, AttrValue)>,
    news: Seq<(IID, AttrValue)>,
    k: IID,
    v: AttrValue,
)
    requires
        news == olds.push((k, v)),
        !seq_has(olds, k),
        seq_keys_unique(olds),
    ensures
        seq_keys_unique(news),
        seq_has(news, k),
        seq_get(news, k) == v,
        forall|k2: IID| k2 != k ==> #[trigger] seq_has(news, k2) == seq_has(olds, k2),
        forall|k2: IID|
            k2 != k && seq_has(olds, k2) ==> #[trigger] seq_get(news, k2) == seq_get(olds, k2),
{
    let n = olds.len() as int;
    assert(news[n].0 == k);
    assert(seq_keys_unique(news)) by {
        assert forall|a: int, b: int| 0 <= a < b < news.len() implies news[a].0 != news[b].0 by {
            if b < n {
                assert(news[a] == olds[a] && news[b] == olds[b]);
            } else {
                assert(news[a] == olds[a]);
                assert(olds[a].0 != k) by {
                    if olds[a].0 == k {
                        assert(seq_has(olds, k));
                    }
                }
            }
        }
    }
    assert(seq_get(news, k) == v) by {
        let w = choose|j: int| 0 <= j < news.len() && news[j].0 == k;
        if w != n {
            assert(news[w] == olds[w]);
            assert(seq_has(olds, k));
        }
    }
    assert forall|k2: IID| k2 != k implies #[trigger] seq_has(news, k2) == seq_has(olds, k2) by {
        if seq_has(news, k2) {
            let j = choose|j: int| 0 <= j < news.len() && news[j].0 == k2;
            assert(j != n);
            assert(olds[j].0 == k2);
        }
        if seq_has(olds, k2) {
            let j = choose|j: int| 0 <= j < olds.len() && olds[j].0 == k2;
            assert(news[j].0 == k2);
        }
    }
    assert forall|k2: IID| k2 != k && seq_has(olds, k2) implies #[trigger] seq_get(news, k2)
        == seq_get(olds, k2) by {
        let jo = choose|j: int| 0 <= j < olds.len() && olds[j].0 == k2;
        assert(news[jo] == olds[jo]);
        let jn = choose|j: int| 0 <= j < news.len() && news[j].0 == k2;
        assert(jn != n);
        assert(news[jn] == olds[jn]);
        assert(jn == jo);
    }
}

/// After removing the position holding a key, that key is gone and every
/// other key is untouched.
proof fn lemma_keyed_remove(olds: Seq<(IID, AttrValue)>, news: Seq<(IID, AttrValue)>, i: int, k: IID)
    requires
        0 <= i < olds.len(),
        olds[i].0 == k,
        news == olds.remove(i),
        seq_keys_unique(olds),
    ensures
        seq_keys_unique(news),
        !seq_has(news, k),
        forall|k2: IID| k2 != k ==> #[trigger] seq_has(news, k2) == seq_has(olds, k2),
        forall|k2: IID|
            k2 != k && seq_has(olds, k2) ==> #[trigger] seq_get(news, k2) == seq_get(olds, k2),
{
    assert(seq_keys_unique(news)) by {
        assert forall|a: int, b: int| 0 <= a < b < news.len() implies news[a].0 != news[b].0 by {
            let ai = if a < i {
                a
            } else {
                a + 1
            };
            let bi = if b < i {
                b
            } else {
                b + 1
            };
            assert(news[a] == olds[ai]);
            assert(news[b] == olds[bi]);
        }
    }
    assert(!seq_has(news, k)) by {
        if seq_has(news, k) {
            let j = choose|j: int| 0 <= j < news.len() && news[j].0 == k;
            let ji = if j < i {
                j
            } else {
                j + 1
            };
            assert(news[j] == olds[ji]);
            assert(ji != i);
        }
    }
    assert forall|k2: IID| k2 != k implies #[trigger] seq_has(news, k2) == seq_has(olds, k2) by {
        if seq_has(news, k2) {
            let j = choose|j: int| 0 <= j < news.len() && news[j].0 == k2;
            let ji = if j < i {
                j
            } else {
                j + 1
            };
            assert(news[j] == olds[ji]);
        }
        if seq_has(olds, k2) {
            let j = choose|j: int| 0 <= j < olds.len() && olds[j].0 == k2;
            assert(j != i);
            if j < i {
                assert(news[j] == olds[j]);
            } else {
                assert(news[j - 1] == olds[j]);
            }
        }
    }
    assert forall|k2: IID| k2 != k && seq_has(olds, k2) implies #[trigger] seq_get(news, k2)
        == seq_get(olds, k2) by {
        let jo = choose|j: int| 0 <= j < olds.len() && olds[j].0 == k2;
        assert(jo != i);
        assert(seq_has(news, k2) == seq_has(olds, k2));
        assert(seq_has(news, k2));
        let jn = choose|j: int| 0 <= j < news.len() && news[j].0 == k2;
        let jni = if jn < i {
            jn
        } else {
            jn + 1
        };
        assert(news[jn] == olds[jni]);
        assert(jni == jo);
    }
}

} // verus!
