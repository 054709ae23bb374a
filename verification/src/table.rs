//! A generic handle-to-resource map with insertion, removal, typed lookup
//! and ownership transfer.
//!
//! Handles are small non-negative integers, unique among the currently
//! live entries of one table. A removed handle's numeric value may be
//! reused, but only by a later insertion; it never aliases a still-live
//! resource. The table is the single owner of every entry.

use vstd::prelude::*;

use crate::error::{Error, ErrorKind};

verus! {

broadcast use vstd::std_specs::hash::group_hash_axioms;

/// Handle-to-resource map. `R` is the entry type the embedding stores;
/// the table itself never inspects it.
///
/// Abstractly a table is a finite map from handles to entries
/// (`self@`) together with an allocation bound: every live handle is
/// strictly below `self.next()`, so a freshly allocated handle can never
/// alias a live one.
pub struct Table<R> {
    entries: std::collections::HashMap<u32, R>,
    next: u64,
}

impl<R> Table<R> {
    /// The live entries, as a map from handle to resource.
    pub closed spec fn view(&self) -> Map<u32, R> {
        self.entries@
    }

    /// The allocation bound: no live handle is at or above this value.
    pub closed spec fn next(&self) -> u64 {
        self.next
    }

    /// Internal consistency: every live handle lies below the allocation
    /// bound, and the bound never exceeds the size of the handle space.
    pub closed spec fn wf(&self) -> bool {
        &&& forall|h: u32| self.entries@.dom().contains(h) ==> (h as u64) < self.next
        &&& self.next <= 0x1_0000_0000u64
    }

    /// Whether the handle space still has room for a fresh handle.
    pub open spec fn has_room(&self) -> bool {
        self.next() < 0x1_0000_0000u64
    }

    /// An empty table.
    pub fn new() -> (r: Table<R>)
        ensures
            r.wf(),
            r@ == Map::<u32, R>::empty(),
            r.next() == 0,
    {
        Table { entries: std::collections::HashMap::new(), next: 0 }
    }

    /// Take ownership of a resource and return a fresh handle for it.
    ///
    /// The handle is unique: it was not live before the call, so the new
    /// entry aliases no still-live resource, and every other entry is
    /// unchanged.
    pub fn insert(&mut self, resource: R) -> (h: u32)
        requires
            old(self).wf(),
            old(self).has_room(),
        ensures
            final(self).wf(),
            !old(self)@.dom().contains(h),
            final(self)@ == old(self)@.insert(h, resource),
            final(self).next() == old(self).next() + 1,
            h as u64 == old(self).next(),
    {
        let h = self.next as u32;
        self.entries.insert(h, resource);
        self.next = self.next + 1;
        h
    }

    /// Insert a resource at a caller-chosen handle, dropping whatever
    /// entry was previously live there.
    pub fn insert_at(&mut self, h: u32, resource: R)
        requires
            old(self).wf(),
        ensures
            final(self).wf(),
            final(self)@ == old(self)@.insert(h, resource),
            final(self).next() == if h as u64 + 1 > old(self).next() {
                h as u64 + 1
            } else {
                old(self).next() as int
            },
            old(self)@.dom().contains(h) ==> final(self).next() == old(self).next(),
    {
        self.entries.insert(h, resource);
        if (h as u64) + 1 > self.next {
            self.next = (h as u64) + 1;
        }
    }

    /// Whether a handle is live.
    pub fn contains(&self, h: u32) -> (r: bool)
        ensures
            r == self@.dom().contains(h),
    {
        self.entries.contains_key(&h)
    }

    /// Borrow the entry at a handle. Fails with `BadHandle` exactly when
    /// the handle is not live.
    pub fn get(&self, h: u32) -> (r: Result<&R, Error>)
        ensures
            match r {
                Ok(res) => self@.dom().contains(h) && *res == self@[h],
                Err(e) => !self@.dom().contains(h) && e == Error::Kind(ErrorKind::BadHandle),
            },
    {
        match self.entries.get(&h) {
            Some(res) => Ok(res),
            None => Err(Error::Kind(ErrorKind::BadHandle)),
        }
    }

    /// Remove the entry at a handle and hand its ownership back. Fails
    /// with `BadHandle` exactly when the handle is not live. After the
    /// call the handle no longer resolves, for every later lookup.
    pub fn remove(&mut self, h: u32) -> (r: Result<R, Error>)
        requires
            old(self).wf(),
        ensures
            final(self).wf(),
            final(self).next() == old(self).next(),
            match r {
                Ok(res) => {
                    &&& (h as u64) < old(self).next()
                    &&& old(self)@.dom().contains(h)
                    &&& res == old(self)@[h]
                    &&& final(self)@ == old(self)@.remove(h)
                },
                Err(e) => {
                    &&& !old(self)@.dom().contains(h)
                    &&& e == Error::Kind(ErrorKind::BadHandle)
                    &&& final(self)@ == old(self)@
                },
            },
    {
        match self.entries.remove(&h) {
            Some(res) => Ok(res),
            None => {
                proof {
                    assert(old(self)@ =~= old(self)@.remove(h));
                }
                Err(Error::Kind(ErrorKind::BadHandle))
            },
        }
    }

    /// Reassign the live entry at `from` to the caller-chosen handle
    /// `to`, dropping whatever entry was previously live at `to`. Fails
    /// with `BadHandle`, changing nothing, exactly when `from` is not
    /// live. The moved resource itself is untouched: `to` resolves to the
    /// very value that `from` held, and `from` (when distinct from `to`)
    /// no longer resolves.
    pub fn renumber(&mut self, from: u32, to: u32) -> (r: Result<(), Error>)
        requires
            old(self).wf(),
        ensures
            final(self).wf(),
            match r {
                Ok(()) => {
                    &&& old(self)@.dom().contains(from)
                    &&& final(self)@ == old(self)@.remove(from).insert(to, old(self)@[from])
                },
                Err(e) => {
                    &&& !old(self)@.dom().contains(from)
                    &&& e == Error::Kind(ErrorKind::BadHandle)
                    &&& final(self)@ == old(self)@
                },
            },
    {
        match self.remove(from) {
            Ok(res) => {
                self.insert_at(to, res);
                Ok(())
            },
            Err(e) => Err(e),
        }
    }

    /// Whether the handle space is out of room for a fresh handle.
    pub fn is_full(&self) -> (r: bool)
        ensures
            r == !self.has_room(),
    {
        self.next >= 0x1_0000_0000u64
    }

    /// The number of live entries.
    pub fn len(&self) -> (r: usize)
        ensures
            r == self@.len(),
    {
        self.entries.len()
    }
}

/// A fresh handle never aliases a live resource: inserting at a handle
/// that is not live leaves every live handle resolving to the very entry
/// it resolved to before, and the freed slot of a removed handle comes
/// back, if at all, only through such an insertion.
pub proof fn lemma_fresh_insert_no_alias<R>(m: Map<u32, R>, h: u32, resource: R)
    requires
        !m.dom().contains(h),
    ensures
        m.insert(h, resource)[h] == resource,
        forall|h2: u32|
            h2 != h && m.dom().contains(h2) ==> m.insert(h, resource).dom().contains(h2)
                && m.insert(h, resource)[h2] == m[h2],
{
}

/// Renumbering is identity-preserving: on the abstract map, moving the
/// entry at `from` to `to` leaves `to` resolving to the very resource that
/// `from` held, leaves `from` dead unless it is `to` itself, and leaves
/// every unrelated live handle resolving to what it resolved to before.
pub proof fn lemma_renumber_roundtrip<R>(m: Map<u32, R>, from: u32, to: u32)
    requires
        m.dom().contains(from),
    ensures
        m.remove(from).insert(to, m[from])[to] == m[from],
        from != to ==> !m.remove(from).insert(to, m[from]).dom().contains(from),
        forall|h: u32|
            h != from && h != to && m.dom().contains(h)
                ==> m.remove(from).insert(to, m[from]).dom().contains(h)
                && m.remove(from).insert(to, m[from])[h] == m[h],
{
}

} // verus!
