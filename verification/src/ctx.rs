//! The per-guest-instance aggregate: one resource table, the clocks, the
//! scheduler, the randomness source, the guest's argument and environment
//! strings, and the exit-status slot.
//!
//! One context is logically single-threaded with respect to its own table:
//! the embedding must not dispatch calls against one guest instance from
//! several threads at once. Independent contexts share nothing.

use vstd::prelude::*;

use crate::clocks::{WasiClocks, WasiMonotonicClock, WasiSystemClock};
use crate::dir::WasiDir;
use crate::error::{Error, ErrorKind};
use crate::file::{FileType, WasiFile};
use crate::random::RandomSource;
use crate::sched::WasiSched;
use crate::string_array::StringArray;
use crate::table::Table;

verus! {

/// One entry of the handle space: a file capability or a directory
/// capability, owned exclusively by the table. The entry's concrete type
/// never changes after insertion; whether an operation is allowed is
/// decided structurally, by which capability the entry can be viewed as.
pub enum Resource<D: WasiDir> {
    File(D::ChildFile),
    Dir(D),
}

/// The legacy explicit rights pair of one entry. Enforcement is
/// structural — these bits gate nothing here — but entries carry them so
/// that wire formats which expose rights bits can be answered.
#[derive(Clone, Copy, PartialEq, Eq, Structural, Debug)]
pub struct Rights {
    pub base: u64,
    pub inheriting: u64,
}

/// What the table owns under one handle: the capability itself, plus the
/// optional legacy rights pair retained for wire compatibility.
pub struct ResourceEntry<D: WasiDir> {
    pub resource: Resource<D>,
    pub rights: Option<Rights>,
}

/// The rights pair a child opened under a directory carries: both sets
/// come from the parent's inheriting set, or none when the parent
/// carries none.
pub open spec fn spec_child_rights(parent: Option<Rights>) -> Option<Rights> {
    match parent {
        None => None,
        Some(r) => Some(Rights { base: r.inheriting, inheriting: r.inheriting }),
    }
}

/// Compute the rights pair a freshly opened child inherits.
pub fn child_rights(parent: Option<Rights>) -> (r: Option<Rights>)
    ensures
        r == spec_child_rights(parent),
{
    match parent {
        None => None,
        Some(p) => Some(Rights { base: p.inheriting, inheriting: p.inheriting }),
    }
}

impl<D: WasiDir> Resource<D> {
    /// The file type this entry reports under metadata queries.
    pub open spec fn kind(&self) -> FileType {
        match self {
            Resource::File(f) => f.kind(),
            Resource::Dir(_) => FileType::Directory,
        }
    }
}

/// Everything one guest instance owns. Created once per instantiation;
/// mutated by every dispatched call that touches the table or the exit
/// slot; dropped when the instance is torn down, releasing every entry.
pub struct WasiCtx<
    D: WasiDir,
    M: WasiMonotonicClock,
    S: WasiSystemClock,
    R: RandomSource,
    Y: WasiSched,
> {
    pub table: Table<ResourceEntry<D>>,
    pub clocks: WasiClocks<S, M>,
    pub random: R,
    pub sched: Y,
    pub args: StringArray,
    pub env: StringArray,
    pub exit_status: Option<i32>,
}

impl<
    D: WasiDir,
    M: WasiMonotonicClock,
    S: WasiSystemClock,
    R: RandomSource,
    Y: WasiSched,
> WasiCtx<D, M, S, R, Y> {
    /// What every dispatched call preserves of the context.
    pub open spec fn wf(&self) -> bool {
        &&& self.table.wf()
        &&& self.args.wf()
        &&& self.env.wf()
    }

    /// What every call that only touches the table leaves alone.
    pub open spec fn same_non_table(&self, other: &Self) -> bool {
        &&& self.args == other.args
        &&& self.env == other.env
        &&& self.exit_status == other.exit_status
    }

    /// A fresh context with an empty handle space and no exit requested.
    /// Preopened handles — standard streams, preopened directories — are
    /// bound afterwards, in order, with [`WasiCtx::insert_preopen`].
    pub fn new(
        clocks: WasiClocks<S, M>,
        random: R,
        sched: Y,
        args: StringArray,
        env: StringArray,
    ) -> (r: WasiCtx<D, M, S, R, Y>)
        requires
            args.wf(),
            env.wf(),
        ensures
            r.wf(),
            r.table@ == Map::<u32, ResourceEntry<D>>::empty(),
            r.args == args,
            r.env == env,
            r.exit_status is None,
    {
        WasiCtx { table: Table::new(), clocks, random, sched, args, env, exit_status: None }
    }

    /// A typed view of the entry at `h` as a file capability. Fails with
    /// `BadHandle` exactly when the handle is not live, and with the
    /// capability-mismatch code `NotSupported` exactly when the live entry
    /// is a directory: never a false view, never a panic.
    pub fn get_file(&self, h: u32) -> (r: Result<&D::ChildFile, Error>)
        ensures
            match r {
                Ok(f) => self.table@.dom().contains(h) && self.table@[h].resource == Resource::<
                    D,
                >::File(*f),
                Err(e) => if !self.table@.dom().contains(h) {
                    e == Error::Kind(ErrorKind::BadHandle)
                } else {
                    self.table@[h].resource is Dir && e == Error::Kind(ErrorKind::NotSupported)
                },
            },
    {
        match self.table.get(h) {
            Err(e) => Err(e),
            Ok(entry) => match &entry.resource {
                Resource::File(f) => Ok(f),
                Resource::Dir(_) => Err(Error::Kind(ErrorKind::NotSupported)),
            },
        }
    }

    /// A typed view of the entry at `h` as a directory capability, under
    /// the same exact error discipline as [`WasiCtx::get_file`].
    pub fn get_dir(&self, h: u32) -> (r: Result<&D, Error>)
        ensures
            match r {
                Ok(d) => self.table@.dom().contains(h) && self.table@[h].resource == Resource::<
                    D,
                >::Dir(*d),
                Err(e) => if !self.table@.dom().contains(h) {
                    e == Error::Kind(ErrorKind::BadHandle)
                } else {
                    self.table@[h].resource is File && e == Error::Kind(ErrorKind::NotSupported)
                },
            },
    {
        match self.table.get(h) {
            Err(e) => Err(e),
            Ok(entry) => match &entry.resource {
                Resource::Dir(d) => Ok(d),
                Resource::File(_) => Err(Error::Kind(ErrorKind::NotSupported)),
            },
        }
    }

    /// Bind a resource to a caller-chosen handle at construction time.
    /// Handles below the reserved range are conventionally the standard
    /// streams and the preopened directories; afterwards they are ordinary
    /// entries with no special removal protection.
    pub fn insert_preopen(&mut self, handle: u32, resource: Resource<D>, rights: Option<Rights>)
        requires
            old(self).wf(),
        ensures
            final(self).wf(),
            final(self).table@ == old(self).table@.insert(
                handle,
                (ResourceEntry { resource, rights }),
            ),
            final(self).args == old(self).args,
            final(self).env == old(self).env,
            final(self).exit_status == old(self).exit_status,
    {
        self.table.insert_at(handle, ResourceEntry { resource, rights });
    }
}

} // verus!
