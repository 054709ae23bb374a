//! The later snapshot's dispatcher: one entry point per ABI function,
//! each taking already-typed arguments and the execution context.
//!
//! Every entry resolves its handles through the table, checks the
//! capability structurally, invokes the operation, and maps an ordinary
//! failure to this snapshot's numeric code; a guest-requested exit or a
//! trap propagates untouched. Nothing version-specific leaks below this
//! layer: the table and the capability traits are shared with the earlier
//! snapshot.

use vstd::prelude::*;

use crate::clocks::{ClockId, WasiMonotonicClock, WasiSystemClock};
use crate::ctx::{Resource, ResourceEntry, Rights, WasiCtx};
use crate::dir::{
    appended_entry, has_name, page_window, DirEntryView, OpenOptions, OpenedChild, ReaddirPage,
    WasiDir,
};
use crate::error::{
    encode_error, errno_of_kind, spec_encode_error, DispatchError, Error, ErrorKind,
};
use crate::file::{
    overlay, read_range, resize_to, seek_target, FileType, Filestat, PositionStyle, Whence,
    WasiFile,
};
use crate::random::RandomSource;
use crate::sched::{
    definitely_ready, event_has_source, has_err_event, has_event, min_deadline, names_dead_handle,
    sub_userdata, PollDecision, Subscription, WasiSched,
};
use crate::string_array::{cumulative_size_of, flattened};

verus! {

/// The numeric code this snapshot uses for an ordinary failure.
pub open spec fn errno(k: ErrorKind) -> DispatchError {
    DispatchError::Errno(errno_of_kind(k))
}

/// Decode this snapshot's on-the-wire seek origin: 0 is the start, 1 the
/// cursor, 2 the end; anything else is rejected.
pub fn decode_whence(w: u8) -> (r: Result<Whence, DispatchError>)
    ensures
        w == 0 ==> r == Ok::<Whence, DispatchError>(Whence::Start),
        w == 1 ==> r == Ok::<Whence, DispatchError>(Whence::Current),
        w == 2 ==> r == Ok::<Whence, DispatchError>(Whence::End),
        w > 2 ==> r == Err::<Whence, DispatchError>(errno(ErrorKind::InvalidArgument)),
{
    if w == 0 {
        Ok(Whence::Start)
    } else if w == 1 {
        Ok(Whence::Current)
    } else if w == 2 {
        Ok(Whence::End)
    } else {
        Err(DispatchError::Errno(crate::error::errno_of(ErrorKind::InvalidArgument)))
    }
}

/// Close a handle: remove its entry from the table, dropping the
/// resource. Fails with the bad-handle code exactly when the handle is
/// not live; afterwards the handle no longer resolves for any later call.
pub fn fd_close<
    D: WasiDir,
    M: WasiMonotonicClock,
    S: WasiSystemClock,
    R: RandomSource,
    Y: WasiSched,
>(ctx: &mut WasiCtx<D, M, S, R, Y>, fd: u32) -> (r: Result<(), DispatchError>)
    requires
        old(ctx).wf(),
    ensures
        final(ctx).wf(),
        final(ctx).same_non_table(old(ctx)),
        match r {
            Ok(()) => old(ctx).table@.dom().contains(fd) && final(ctx).table@ == old(ctx).table@.remove(fd),
            Err(e) => e == errno(ErrorKind::BadHandle) && !old(ctx).table@.dom().contains(fd)
                && final(ctx).table@ == old(ctx).table@,
        },
{
    match ctx.table.remove(fd) {
        Ok(_) => Ok(()),
        Err(e) => Err(encode_error(&e)),
    }
}

/// Move the entry at `from` to the guest-chosen handle `to`, dropping any
/// prior entry there. The resource itself is untouched: afterwards `to`
/// resolves to the very resource `from` held.
pub fn fd_renumber<
    D: WasiDir,
    M: WasiMonotonicClock,
    S: WasiSystemClock,
    R: RandomSource,
    Y: WasiSched,
>(ctx: &mut WasiCtx<D, M, S, R, Y>, from: u32, to: u32) -> (r: Result<(), DispatchError>)
    requires
        old(ctx).wf(),
    ensures
        final(ctx).wf(),
        final(ctx).same_non_table(old(ctx)),
        match r {
            Ok(()) => old(ctx).table@.dom().contains(from) && final(ctx).table@ == old(ctx).table@.remove(from).insert(to, old(ctx).table@[from]),
            Err(e) => e == errno(ErrorKind::BadHandle) && !old(ctx).table@.dom().contains(from)
                && final(ctx).table@ == old(ctx).table@,
        },
{
    match ctx.table.renumber(from, to) {
        Ok(()) => Ok(()),
        Err(e) => Err(encode_error(&e)),
    }
}

/// The file type the entry at `fd` reports: a directory for a directory
/// capability, the backend's type for a file capability.
pub fn fd_filetype<
    D: WasiDir,
    M: WasiMonotonicClock,
    S: WasiSystemClock,
    R: RandomSource,
    Y: WasiSched,
>(ctx: &WasiCtx<D, M, S, R, Y>, fd: u32) -> (r: Result<FileType, DispatchError>)
    ensures
        match r {
            Ok(ft) => ctx.table@.dom().contains(fd) && ft == ctx.table@[fd].resource.kind(),
            Err(e) => e == errno(ErrorKind::BadHandle) && !ctx.table@.dom().contains(fd),
        },
{
    match ctx.table.get(fd) {
        Ok(entry) => match &entry.resource {
            Resource::File(f) => Ok(f.filetype()),
            Resource::Dir(_) => Ok(FileType::Directory),
        },
        Err(e) => Err(encode_error(&e)),
    }
}

/// The descriptor status of the entry at `fd`: its file type and the
/// legacy rights pair it carries, exactly as stored. The bits gate
/// nothing — enforcement is structural — but wire formats that expose
/// them are answered faithfully.
pub fn fd_fdstat_get<
    D: WasiDir,
    M: WasiMonotonicClock,
    S: WasiSystemClock,
    R: RandomSource,
    Y: WasiSched,
>(ctx: &WasiCtx<D, M, S, R, Y>, fd: u32) -> (r: Result<(FileType, Option<Rights>), DispatchError>)
    ensures
        match r {
            Ok(st) => ctx.table@.dom().contains(fd) && st.0 == ctx.table@[fd].resource.kind()
                && st.1 == ctx.table@[fd].rights,
            Err(e) => e == errno(ErrorKind::BadHandle) && !ctx.table@.dom().contains(fd),
        },
{
    match ctx.table.get(fd) {
        Ok(entry) => {
            let ft = match &entry.resource {
                Resource::File(f) => f.filetype(),
                Resource::Dir(_) => FileType::Directory,
            };
            Ok((ft, entry.rights))
        },
        Err(e) => Err(encode_error(&e)),
    }
}

/// Metadata of the entry at `fd`. For a file, the size and timestamps are
/// the backend's; a directory reports itself with size zero.
pub fn fd_filestat_get<
    D: WasiDir,
    M: WasiMonotonicClock,
    S: WasiSystemClock,
    R: RandomSource,
    Y: WasiSched,
>(ctx: &WasiCtx<D, M, S, R, Y>, fd: u32) -> (r: Result<Filestat, DispatchError>)
    ensures
        !ctx.table@.dom().contains(fd) ==> r == Err::<Filestat, DispatchError>(
            errno(ErrorKind::BadHandle),
        ),
        r matches Ok(st) ==> {
            &&& ctx.table@.dom().contains(fd)
            &&& st.filetype == ctx.table@[fd].resource.kind()
            &&& (ctx.table@[fd].resource matches Resource::File(f) ==> st.size == f.data().len() && st.atim
                == f.atim() && st.mtim == f.mtim())
        },
{
    match ctx.table.get(fd) {
        Ok(entry) => match &entry.resource {
            Resource::File(f) => match f.filestat_get() {
                Ok(st) => Ok(st),
                Err(e) => Err(encode_error(&e)),
            },
            Resource::Dir(_) => Ok(
                Filestat { size: 0, filetype: FileType::Directory, atim: 0, mtim: 0 },
            ),
        },
        Err(e) => Err(encode_error(&e)),
    }
}

/// Read up to `len` bytes at the cursor of the file at `fd`, advancing
/// the cursor by exactly what came back. A directory handle is refused;
/// so is a backend that reports an explicit-offset position model, which
/// this cursor-based call must not second-guess.
pub fn fd_read<
    D: WasiDir,
    M: WasiMonotonicClock,
    S: WasiSystemClock,
    R: RandomSource,
    Y: WasiSched,
>(ctx: &mut WasiCtx<D, M, S, R, Y>, fd: u32, len: usize) -> (r: Result<Vec<u8>, DispatchError>)
    requires
        old(ctx).wf(),
    ensures
        final(ctx).wf(),
        final(ctx).same_non_table(old(ctx)),
        old(ctx).table@.dom().contains(fd) ==> (old(ctx).table@[fd].resource matches Resource::File(f0) ==> {
            &&& final(ctx).table@.dom().contains(fd)
            &&& (final(ctx).table@[fd].resource matches Resource::File(f1) && f1.kind()
                == f0.kind() && f1.style() == f0.style() && f1.is_tty() == f0.is_tty())
            &&& final(ctx).table@[fd].rights == old(ctx).table@[fd].rights
            &&& final(ctx).table@ == old(ctx).table@.insert(fd, final(ctx).table@[fd])
        }),
        !old(ctx).table@.dom().contains(fd) ==> r == Err::<Vec<u8>, DispatchError>(
            errno(ErrorKind::BadHandle),
        ) && final(ctx).table@ == old(ctx).table@,
        old(ctx).table@.dom().contains(fd) && old(ctx).table@[fd].resource is Dir ==> r == Err::<
            Vec<u8>,
            DispatchError,
        >(errno(ErrorKind::NotSupported)) && final(ctx).table@ == old(ctx).table@,
        (old(ctx).table@[fd].resource matches Resource::File(f) && old(ctx).table@.dom().contains(fd)
            && f.style() != PositionStyle::Cursor) ==> r == Err::<Vec<u8>, DispatchError>(
            errno(ErrorKind::NotSupported),
        ) && final(ctx).table@ == old(ctx).table@,
        r matches Ok(buf) ==> {
            &&& old(ctx).table@.dom().contains(fd)
            &&& old(ctx).table@[fd].resource matches Resource::File(f) && f.style() == PositionStyle::Cursor
                && buf@ == read_range(f.data(), f.cursor(), len as nat) && (final(ctx).table@[fd].resource matches Resource::File(f2) && f2.data() == f.data() && f2.cursor()
                == f.cursor() + buf@.len() && f2.kind() == f.kind())
            &&& final(ctx).table@ == old(ctx).table@.insert(fd, final(ctx).table@[fd])
        },
{
    let res = match ctx.table.remove(fd) {
        Ok(res) => res,
        Err(e) => {
            proof {
                assert(ctx.table@ =~= old(ctx).table@);
            }
            return Err(encode_error(&e));
        },
    };
    let rights = res.rights;
    match res.resource {
        Resource::Dir(d) => {
            ctx.table.insert_at(fd, ResourceEntry { resource: Resource::Dir(d), rights });
            proof {
                assert(ctx.table@ =~= old(ctx).table@);
            }
            Err(DispatchError::Errno(crate::error::errno_of(ErrorKind::NotSupported)))
        },
        Resource::File(mut f) => {
            if f.position_style() != PositionStyle::Cursor {
                ctx.table.insert_at(fd, ResourceEntry { resource: Resource::File(f), rights });
                proof {
                    assert(ctx.table@ =~= old(ctx).table@);
                    assert(ctx.table@ =~= old(ctx).table@.insert(fd, ctx.table@[fd]));
                }
                return Err(DispatchError::Errno(crate::error::errno_of(ErrorKind::NotSupported)));
            }
            let out = f.read_cursor(len);
            ctx.table.insert_at(fd, ResourceEntry { resource: Resource::File(f), rights });
            match out {
                Ok(buf) => Ok(buf),
                Err(e) => Err(encode_error(&e)),
            }
        },
    }
}

/// Write `buf` at the cursor of the file at `fd`, advancing the cursor by
/// exactly the count returned. A directory handle is refused; so is an
/// explicit-offset backend.
pub fn fd_write<
    D: WasiDir,
    M: WasiMonotonicClock,
    S: WasiSystemClock,
    R: RandomSource,
    Y: WasiSched,
>(ctx: &mut WasiCtx<D, M, S, R, Y>, fd: u32, buf: &Vec<u8>) -> (r: Result<usize, DispatchError>)
    requires
        old(ctx).wf(),
    ensures
        final(ctx).wf(),
        final(ctx).same_non_table(old(ctx)),
        old(ctx).table@.dom().contains(fd) ==> (old(ctx).table@[fd].resource matches Resource::File(f0) ==> {
            &&& final(ctx).table@.dom().contains(fd)
            &&& (final(ctx).table@[fd].resource matches Resource::File(f1) && f1.kind()
                == f0.kind() && f1.style() == f0.style() && f1.is_tty() == f0.is_tty())
            &&& final(ctx).table@[fd].rights == old(ctx).table@[fd].rights
            &&& final(ctx).table@ == old(ctx).table@.insert(fd, final(ctx).table@[fd])
        }),
        !old(ctx).table@.dom().contains(fd) ==> r == Err::<usize, DispatchError>(
            errno(ErrorKind::BadHandle),
        ) && final(ctx).table@ == old(ctx).table@,
        old(ctx).table@.dom().contains(fd) && old(ctx).table@[fd].resource is Dir ==> r == Err::<
            usize,
            DispatchError,
        >(errno(ErrorKind::NotSupported)) && final(ctx).table@ == old(ctx).table@,
        (old(ctx).table@[fd].resource matches Resource::File(f) && old(ctx).table@.dom().contains(fd)
            && f.style() != PositionStyle::Cursor) ==> r == Err::<usize, DispatchError>(
            errno(ErrorKind::NotSupported),
        ) && final(ctx).table@ == old(ctx).table@,
        r matches Ok(n) ==> {
            &&& old(ctx).table@.dom().contains(fd)
            &&& old(ctx).table@[fd].resource matches Resource::File(f) && f.style() == PositionStyle::Cursor
                && n <= buf@.len() && (final(ctx).table@[fd].resource matches Resource::File(f2)
                && f2.data() == overlay(f.data(), f.cursor(), buf@.take(n as int)) && f2.cursor()
                == f.cursor() + n && f2.kind() == f.kind())
            &&& final(ctx).table@ == old(ctx).table@.insert(fd, final(ctx).table@[fd])
        },
{
    let res = match ctx.table.remove(fd) {
        Ok(res) => res,
        Err(e) => {
            proof {
                assert(ctx.table@ =~= old(ctx).table@);
            }
            return Err(encode_error(&e));
        },
    };
    let rights = res.rights;
    match res.resource {
        Resource::Dir(d) => {
            ctx.table.insert_at(fd, ResourceEntry { resource: Resource::Dir(d), rights });
            proof {
                assert(ctx.table@ =~= old(ctx).table@);
            }
            Err(DispatchError::Errno(crate::error::errno_of(ErrorKind::NotSupported)))
        },
        Resource::File(mut f) => {
            if f.position_style() != PositionStyle::Cursor {
                ctx.table.insert_at(fd, ResourceEntry { resource: Resource::File(f), rights });
                proof {
                    assert(ctx.table@ =~= old(ctx).table@);
                    assert(ctx.table@ =~= old(ctx).table@.insert(fd, ctx.table@[fd]));
                }
                return Err(DispatchError::Errno(crate::error::errno_of(ErrorKind::NotSupported)));
            }
            let out = f.write_cursor(buf);
            ctx.table.insert_at(fd, ResourceEntry { resource: Resource::File(f), rights });
            match out {
                Ok(n) => Ok(n),
                Err(e) => Err(encode_error(&e)),
            }
        },
    }
}

/// Read up to `len` bytes at the explicit `offset` of the file at `fd`,
/// leaving its cursor untouched.
pub fn fd_pread<
    D: WasiDir,
    M: WasiMonotonicClock,
    S: WasiSystemClock,
    R: RandomSource,
    Y: WasiSched,
>(ctx: &mut WasiCtx<D, M, S, R, Y>, fd: u32, offset: u64, len: usize) -> (r: Result<
    Vec<u8>,
    DispatchError,
>)
    requires
        old(ctx).wf(),
    ensures
        final(ctx).wf(),
        final(ctx).same_non_table(old(ctx)),
        old(ctx).table@.dom().contains(fd) ==> (old(ctx).table@[fd].resource matches Resource::File(f0) ==> {
            &&& final(ctx).table@.dom().contains(fd)
            &&& (final(ctx).table@[fd].resource matches Resource::File(f1) && f1.kind()
                == f0.kind() && f1.style() == f0.style() && f1.is_tty() == f0.is_tty())
            &&& final(ctx).table@[fd].rights == old(ctx).table@[fd].rights
            &&& final(ctx).table@ == old(ctx).table@.insert(fd, final(ctx).table@[fd])
        }),
        !old(ctx).table@.dom().contains(fd) ==> r == Err::<Vec<u8>, DispatchError>(
            errno(ErrorKind::BadHandle),
        ) && final(ctx).table@ == old(ctx).table@,
        old(ctx).table@.dom().contains(fd) && old(ctx).table@[fd].resource is Dir ==> r == Err::<
            Vec<u8>,
            DispatchError,
        >(errno(ErrorKind::NotSupported)) && final(ctx).table@ == old(ctx).table@,
        r matches Ok(buf) ==> {
            &&& old(ctx).table@.dom().contains(fd)
            &&& old(ctx).table@[fd].resource matches Resource::File(f) && buf@ == read_range(
                f.data(),
                offset as nat,
                len as nat,
            ) && (final(ctx).table@[fd].resource matches Resource::File(f2) && f2.data() == f.data()
                && f2.cursor() == f.cursor() && f2.kind() == f.kind())
            &&& final(ctx).table@ == old(ctx).table@.insert(fd, final(ctx).table@[fd])
        },
{
    let res = match ctx.table.remove(fd) {
        Ok(res) => res,
        Err(e) => {
            proof {
                assert(ctx.table@ =~= old(ctx).table@);
            }
            return Err(encode_error(&e));
        },
    };
    let rights = res.rights;
    match res.resource {
        Resource::Dir(d) => {
            ctx.table.insert_at(fd, ResourceEntry { resource: Resource::Dir(d), rights });
            proof {
                assert(ctx.table@ =~= old(ctx).table@);
            }
            Err(DispatchError::Errno(crate::error::errno_of(ErrorKind::NotSupported)))
        },
        Resource::File(mut f) => {
            let out = f.read_at(offset, len);
            ctx.table.insert_at(fd, ResourceEntry { resource: Resource::File(f), rights });
            match out {
                Ok(buf) => Ok(buf),
                Err(e) => Err(encode_error(&e)),
            }
        },
    }
}

/// Write `buf` at the explicit `offset` of the file at `fd`, leaving its
/// cursor untouched.
pub fn fd_pwrite<
    D: WasiDir,
    M: WasiMonotonicClock,
    S: WasiSystemClock,
    R: RandomSource,
    Y: WasiSched,
>(ctx: &mut WasiCtx<D, M, S, R, Y>, fd: u32, offset: u64, buf: &Vec<u8>) -> (r: Result<
    usize,
    DispatchError,
>)
    requires
        old(ctx).wf(),
    ensures
        final(ctx).wf(),
        final(ctx).same_non_table(old(ctx)),
        old(ctx).table@.dom().contains(fd) ==> (old(ctx).table@[fd].resource matches Resource::File(f0) ==> {
            &&& final(ctx).table@.dom().contains(fd)
            &&& (final(ctx).table@[fd].resource matches Resource::File(f1) && f1.kind()
                == f0.kind() && f1.style() == f0.style() && f1.is_tty() == f0.is_tty())
            &&& final(ctx).table@[fd].rights == old(ctx).table@[fd].rights
            &&& final(ctx).table@ == old(ctx).table@.insert(fd, final(ctx).table@[fd])
        }),
        !old(ctx).table@.dom().contains(fd) ==> r == Err::<usize, DispatchError>(
            errno(ErrorKind::BadHandle),
        ) && final(ctx).table@ == old(ctx).table@,
        old(ctx).table@.dom().contains(fd) && old(ctx).table@[fd].resource is Dir ==> r == Err::<
            usize,
            DispatchError,
        >(errno(ErrorKind::NotSupported)) && final(ctx).table@ == old(ctx).table@,
        r matches Ok(n) ==> {
            &&& old(ctx).table@.dom().contains(fd)
            &&& old(ctx).table@[fd].resource matches Resource::File(f) && n <= buf@.len() && (final(ctx).table@[fd].resource matches Resource::File(f2) && f2.data() == overlay(
                f.data(),
                offset as nat,
                buf@.take(n as int),
            ) && f2.cursor() == f.cursor() && f2.kind() == f.kind())
            &&& final(ctx).table@ == old(ctx).table@.insert(fd, final(ctx).table@[fd])
        },
{
    let res = match ctx.table.remove(fd) {
        Ok(res) => res,
        Err(e) => {
            proof {
                assert(ctx.table@ =~= old(ctx).table@);
            }
            return Err(encode_error(&e));
        },
    };
    let rights = res.rights;
    match res.resource {
        Resource::Dir(d) => {
            ctx.table.insert_at(fd, ResourceEntry { resource: Resource::Dir(d), rights });
            proof {
                assert(ctx.table@ =~= old(ctx).table@);
            }
            Err(DispatchError::Errno(crate::error::errno_of(ErrorKind::NotSupported)))
        },
        Resource::File(mut f) => {
            let out = f.write_at(offset, buf);
            ctx.table.insert_at(fd, ResourceEntry { resource: Resource::File(f), rights });
            match out {
                Ok(n) => Ok(n),
                Err(e) => Err(encode_error(&e)),
            }
        },
    }
}

/// Move the cursor of the file at `fd` relative to the given origin and
/// report where it landed.
pub fn fd_seek<
    D: WasiDir,
    M: WasiMonotonicClock,
    S: WasiSystemClock,
    R: RandomSource,
    Y: WasiSched,
>(ctx: &mut WasiCtx<D, M, S, R, Y>, fd: u32, whence: Whence, delta: i64) -> (r: Result<
    u64,
    DispatchError,
>)
    requires
        old(ctx).wf(),
    ensures
        final(ctx).wf(),
        final(ctx).same_non_table(old(ctx)),
        old(ctx).table@.dom().contains(fd) ==> (old(ctx).table@[fd].resource matches Resource::File(f0) ==> {
            &&& final(ctx).table@.dom().contains(fd)
            &&& (final(ctx).table@[fd].resource matches Resource::File(f1) && f1.kind()
                == f0.kind() && f1.style() == f0.style() && f1.is_tty() == f0.is_tty())
            &&& final(ctx).table@[fd].rights == old(ctx).table@[fd].rights
            &&& final(ctx).table@ == old(ctx).table@.insert(fd, final(ctx).table@[fd])
        }),
        !old(ctx).table@.dom().contains(fd) ==> r == Err::<u64, DispatchError>(
            errno(ErrorKind::BadHandle),
        ) && final(ctx).table@ == old(ctx).table@,
        old(ctx).table@.dom().contains(fd) && old(ctx).table@[fd].resource is Dir ==> r == Err::<
            u64,
            DispatchError,
        >(errno(ErrorKind::NotSupported)) && final(ctx).table@ == old(ctx).table@,
        r matches Ok(p) ==> {
            &&& old(ctx).table@.dom().contains(fd)
            &&& old(ctx).table@[fd].resource matches Resource::File(f) && p == seek_target(
                f.data().len(),
                f.cursor(),
                whence,
                delta,
            ) && (final(ctx).table@[fd].resource matches Resource::File(f2) && f2.data() == f.data()
                && f2.cursor() == p && f2.kind() == f.kind())
            &&& final(ctx).table@ == old(ctx).table@.insert(fd, final(ctx).table@[fd])
        },
{
    let res = match ctx.table.remove(fd) {
        Ok(res) => res,
        Err(e) => {
            proof {
                assert(ctx.table@ =~= old(ctx).table@);
            }
            return Err(encode_error(&e));
        },
    };
    let rights = res.rights;
    match res.resource {
        Resource::Dir(d) => {
            ctx.table.insert_at(fd, ResourceEntry { resource: Resource::Dir(d), rights });
            proof {
                assert(ctx.table@ =~= old(ctx).table@);
            }
            Err(DispatchError::Errno(crate::error::errno_of(ErrorKind::NotSupported)))
        },
        Resource::File(mut f) => {
            let out = f.seek(whence, delta);
            ctx.table.insert_at(fd, ResourceEntry { resource: Resource::File(f), rights });
            match out {
                Ok(p) => Ok(p),
                Err(e) => Err(encode_error(&e)),
            }
        },
    }
}

/// Truncate or zero-extend the file at `fd` to `size` bytes.
pub fn fd_filestat_set_size<
    D: WasiDir,
    M: WasiMonotonicClock,
    S: WasiSystemClock,
    R: RandomSource,
    Y: WasiSched,
>(ctx: &mut WasiCtx<D, M, S, R, Y>, fd: u32, size: u64) -> (r: Result<(), DispatchError>)
    requires
        old(ctx).wf(),
    ensures
        final(ctx).wf(),
        final(ctx).same_non_table(old(ctx)),
        old(ctx).table@.dom().contains(fd) ==> (old(ctx).table@[fd].resource matches Resource::File(f0) ==> {
            &&& final(ctx).table@.dom().contains(fd)
            &&& (final(ctx).table@[fd].resource matches Resource::File(f1) && f1.kind()
                == f0.kind() && f1.style() == f0.style() && f1.is_tty() == f0.is_tty())
            &&& final(ctx).table@[fd].rights == old(ctx).table@[fd].rights
            &&& final(ctx).table@ == old(ctx).table@.insert(fd, final(ctx).table@[fd])
        }),
        !old(ctx).table@.dom().contains(fd) ==> r == Err::<(), DispatchError>(
            errno(ErrorKind::BadHandle),
        ) && final(ctx).table@ == old(ctx).table@,
        old(ctx).table@.dom().contains(fd) && old(ctx).table@[fd].resource is Dir ==> r == Err::<
            (),
            DispatchError,
        >(errno(ErrorKind::NotSupported)) && final(ctx).table@ == old(ctx).table@,
        r matches Ok(()) ==> {
            &&& old(ctx).table@.dom().contains(fd)
            &&& old(ctx).table@[fd].resource matches Resource::File(f) && (final(ctx).table@[fd].resource matches Resource::File(f2) && f2.data() == resize_to(
                f.data(),
                size as nat,
            ) && f2.cursor() == f.cursor() && f2.kind() == f.kind())
            &&& final(ctx).table@ == old(ctx).table@.insert(fd, final(ctx).table@[fd])
        },
{
    let res = match ctx.table.remove(fd) {
        Ok(res) => res,
        Err(e) => {
            proof {
                assert(ctx.table@ =~= old(ctx).table@);
            }
            return Err(encode_error(&e));
        },
    };
    let rights = res.rights;
    match res.resource {
        Resource::Dir(d) => {
            ctx.table.insert_at(fd, ResourceEntry { resource: Resource::Dir(d), rights });
            proof {
                assert(ctx.table@ =~= old(ctx).table@);
            }
            Err(DispatchError::Errno(crate::error::errno_of(ErrorKind::NotSupported)))
        },
        Resource::File(mut f) => {
            let out = f.set_size(size);
            ctx.table.insert_at(fd, ResourceEntry { resource: Resource::File(f), rights });
            match out {
                Ok(()) => Ok(()),
                Err(e) => Err(encode_error(&e)),
            }
        },
    }
}

/// Flush the file at `fd` to durable storage: data only, or data and
/// metadata.
pub fn fd_sync<
    D: WasiDir,
    M: WasiMonotonicClock,
    S: WasiSystemClock,
    R: RandomSource,
    Y: WasiSched,
>(ctx: &mut WasiCtx<D, M, S, R, Y>, fd: u32, with_metadata: bool) -> (r: Result<
    (),
    DispatchError,
>)
    requires
        old(ctx).wf(),
    ensures
        final(ctx).wf(),
        final(ctx).same_non_table(old(ctx)),
        old(ctx).table@.dom().contains(fd) ==> (old(ctx).table@[fd].resource matches Resource::File(f0) ==> {
            &&& final(ctx).table@.dom().contains(fd)
            &&& (final(ctx).table@[fd].resource matches Resource::File(f1) && f1.kind()
                == f0.kind() && f1.style() == f0.style() && f1.is_tty() == f0.is_tty())
            &&& final(ctx).table@[fd].rights == old(ctx).table@[fd].rights
            &&& final(ctx).table@ == old(ctx).table@.insert(fd, final(ctx).table@[fd])
        }),
        !old(ctx).table@.dom().contains(fd) ==> r == Err::<(), DispatchError>(
            errno(ErrorKind::BadHandle),
        ) && final(ctx).table@ == old(ctx).table@,
        r matches Ok(()) ==> {
            &&& old(ctx).table@.dom().contains(fd)
            &&& (old(ctx).table@[fd].resource matches Resource::File(f) ==> (final(ctx).table@[fd].resource matches Resource::File(f2) && f2.data() == f.data() && f2.cursor()
                == f.cursor() && f2.kind() == f.kind()))
            &&& final(ctx).table@ == old(ctx).table@.insert(fd, final(ctx).table@[fd])
        },
{
    let res = match ctx.table.remove(fd) {
        Ok(res) => res,
        Err(e) => {
            proof {
                assert(ctx.table@ =~= old(ctx).table@);
            }
            return Err(encode_error(&e));
        },
    };
    let rights = res.rights;
    match res.resource {
        Resource::Dir(d) => {
            // Syncing a directory handle is a no-op here: the in-core
            // listing has nothing buffered.
            ctx.table.insert_at(fd, ResourceEntry { resource: Resource::Dir(d), rights });
            Ok(())
        },
        Resource::File(mut f) => {
            let out = f.sync(with_metadata);
            ctx.table.insert_at(fd, ResourceEntry { resource: Resource::File(f), rights });
            match out {
                Ok(()) => Ok(()),
                Err(e) => Err(encode_error(&e)),
            }
        },
    }
}

/// Hand the backend of the file at `fd` an advisory access hint.
pub fn fd_advise<
    D: WasiDir,
    M: WasiMonotonicClock,
    S: WasiSystemClock,
    R: RandomSource,
    Y: WasiSched,
>(
    ctx: &mut WasiCtx<D, M, S, R, Y>,
    fd: u32,
    offset: u64,
    len: u64,
    advice: crate::file::Advice,
) -> (r: Result<(), DispatchError>)
    requires
        old(ctx).wf(),
    ensures
        final(ctx).wf(),
        final(ctx).same_non_table(old(ctx)),
        old(ctx).table@.dom().contains(fd) ==> (old(ctx).table@[fd].resource matches Resource::File(f0) ==> {
            &&& final(ctx).table@.dom().contains(fd)
            &&& (final(ctx).table@[fd].resource matches Resource::File(f1) && f1.kind()
                == f0.kind() && f1.style() == f0.style() && f1.is_tty() == f0.is_tty())
            &&& final(ctx).table@[fd].rights == old(ctx).table@[fd].rights
            &&& final(ctx).table@ == old(ctx).table@.insert(fd, final(ctx).table@[fd])
        }),
        !old(ctx).table@.dom().contains(fd) ==> r == Err::<(), DispatchError>(
            errno(ErrorKind::BadHandle),
        ) && final(ctx).table@ == old(ctx).table@,
        old(ctx).table@.dom().contains(fd) && old(ctx).table@[fd].resource is Dir ==> r == Err::<
            (),
            DispatchError,
        >(errno(ErrorKind::NotSupported)) && final(ctx).table@ == old(ctx).table@,
        r matches Ok(()) ==> {
            &&& old(ctx).table@.dom().contains(fd)
            &&& (old(ctx).table@[fd].resource matches Resource::File(f) ==> (final(ctx).table@[fd].resource matches Resource::File(f2) && f2.data() == f.data() && f2.cursor()
                == f.cursor() && f2.kind() == f.kind()))
            &&& final(ctx).table@ == old(ctx).table@.insert(fd, final(ctx).table@[fd])
        },
{
    let res = match ctx.table.remove(fd) {
        Ok(res) => res,
        Err(e) => {
            proof {
                assert(ctx.table@ =~= old(ctx).table@);
            }
            return Err(encode_error(&e));
        },
    };
    let rights = res.rights;
    match res.resource {
        Resource::Dir(d) => {
            ctx.table.insert_at(fd, ResourceEntry { resource: Resource::Dir(d), rights });
            proof {
                assert(ctx.table@ =~= old(ctx).table@);
            }
            Err(DispatchError::Errno(crate::error::errno_of(ErrorKind::NotSupported)))
        },
        Resource::File(mut f) => {
            let out = f.advise(offset, len, advice);
            ctx.table.insert_at(fd, ResourceEntry { resource: Resource::File(f), rights });
            match out {
                Ok(()) => Ok(()),
                Err(e) => Err(encode_error(&e)),
            }
        },
    }
}

/// Overwrite the timestamps of the file at `fd`.
pub fn fd_filestat_set_times<
    D: WasiDir,
    M: WasiMonotonicClock,
    S: WasiSystemClock,
    R: RandomSource,
    Y: WasiSched,
>(ctx: &mut WasiCtx<D, M, S, R, Y>, fd: u32, atim: Option<u64>, mtim: Option<u64>) -> (r: Result<
    (),
    DispatchError,
>)
    requires
        old(ctx).wf(),
    ensures
        final(ctx).wf(),
        final(ctx).same_non_table(old(ctx)),
        old(ctx).table@.dom().contains(fd) ==> (old(ctx).table@[fd].resource matches Resource::File(f0) ==> {
            &&& final(ctx).table@.dom().contains(fd)
            &&& (final(ctx).table@[fd].resource matches Resource::File(f1) && f1.kind()
                == f0.kind() && f1.style() == f0.style() && f1.is_tty() == f0.is_tty())
            &&& final(ctx).table@[fd].rights == old(ctx).table@[fd].rights
            &&& final(ctx).table@ == old(ctx).table@.insert(fd, final(ctx).table@[fd])
        }),
        !old(ctx).table@.dom().contains(fd) ==> r == Err::<(), DispatchError>(
            errno(ErrorKind::BadHandle),
        ) && final(ctx).table@ == old(ctx).table@,
        r matches Ok(()) ==> {
            &&& old(ctx).table@.dom().contains(fd)
            &&& (old(ctx).table@[fd].resource matches Resource::File(f) ==> (final(ctx).table@[fd].resource matches Resource::File(f2) && f2.data() == f.data() && f2.cursor()
                == f.cursor() && f2.kind() == f.kind() && f2.atim() == (match atim {
                Some(a) => a,
                None => f.atim(),
            }) && f2.mtim() == (match mtim {
                Some(m) => m,
                None => f.mtim(),
            })))
            &&& final(ctx).table@ == old(ctx).table@.insert(fd, final(ctx).table@[fd])
        },
        old(ctx).table@.dom().contains(fd) && old(ctx).table@[fd].resource is Dir ==> r == Err::<
            (),
            DispatchError,
        >(errno(ErrorKind::NotSupported)) && final(ctx).table@ == old(ctx).table@,
{
    let res = match ctx.table.remove(fd) {
        Ok(res) => res,
        Err(e) => {
            proof {
                assert(ctx.table@ =~= old(ctx).table@);
            }
            return Err(encode_error(&e));
        },
    };
    let rights = res.rights;
    match res.resource {
        Resource::Dir(d) => {
            ctx.table.insert_at(fd, ResourceEntry { resource: Resource::Dir(d), rights });
            proof {
                assert(ctx.table@ =~= old(ctx).table@);
            }
            Err(DispatchError::Errno(crate::error::errno_of(ErrorKind::NotSupported)))
        },
        Resource::File(mut f) => {
            let out = f.set_times(atim, mtim);
            ctx.table.insert_at(fd, ResourceEntry { resource: Resource::File(f), rights });
            match out {
                Ok(()) => Ok(()),
                Err(e) => Err(encode_error(&e)),
            }
        },
    }
}

/// One page of the directory enumeration at `fd`, starting at `cookie`:
/// the window of entries at that index, the cookie to resume at, and
/// whether the enumeration is finished. Resuming at the returned cookie
/// never re-emits an entry of this page.
pub fn fd_readdir<
    D: WasiDir,
    M: WasiMonotonicClock,
    S: WasiSystemClock,
    R: RandomSource,
    Y: WasiSched,
>(ctx: &WasiCtx<D, M, S, R, Y>, fd: u32, cookie: u64) -> (r: Result<ReaddirPage, DispatchError>)
    ensures
        !ctx.table@.dom().contains(fd) ==> r == Err::<ReaddirPage, DispatchError>(
            errno(ErrorKind::BadHandle),
        ),
        ctx.table@.dom().contains(fd) && ctx.table@[fd].resource is File ==> r == Err::<
            ReaddirPage,
            DispatchError,
        >(errno(ErrorKind::NotSupported)),
        r matches Ok(page) ==> {
            &&& ctx.table@.dom().contains(fd)
            &&& ctx.table@[fd].resource matches Resource::Dir(d) && ({
                let (start, stop) = page_window(d.entries().len(), cookie as nat);
                &&& page.entries@.len() == stop - start
                &&& forall|k: int|
                    0 <= k < page.entries@.len() ==> #[trigger] page.entries@[k]@
                        == crate::dir::listing_of(d.entries()[start + k])
                &&& page.next_cookie == stop
                &&& (page.at_end <==> stop == d.entries().len())
            })
        },
{
    match ctx.table.get(fd) {
        Ok(entry) => match &entry.resource {
            Resource::File(_) => Err(
                DispatchError::Errno(crate::error::errno_of(ErrorKind::NotSupported)),
            ),
            Resource::Dir(d) => match d.readdir(cookie) {
                Ok(page) => Ok(page),
                Err(e) => Err(encode_error(&e)),
            },
        },
        Err(e) => Err(encode_error(&e)),
    }
}

/// Open a child under the directory at `dirfd`, insert the fresh
/// capability into the table, and hand the guest its new handle. The
/// handle is fresh: it aliased nothing live before the call.
pub fn path_open<
    D: WasiDir,
    M: WasiMonotonicClock,
    S: WasiSystemClock,
    R: RandomSource,
    Y: WasiSched,
>(ctx: &mut WasiCtx<D, M, S, R, Y>, dirfd: u32, name: &Vec<u8>, opts: &OpenOptions) -> (r: Result<
    u32,
    DispatchError,
>)
    requires
        old(ctx).wf(),
    ensures
        final(ctx).wf(),
        final(ctx).same_non_table(old(ctx)),
        r is Err && old(ctx).table@.dom().contains(dirfd) && old(ctx).table@[dirfd].resource is Dir ==> {
            &&& final(ctx).table@.dom().contains(dirfd)
            &&& final(ctx).table@[dirfd].resource is Dir
            &&& final(ctx).table@[dirfd].rights == old(ctx).table@[dirfd].rights
            &&& final(ctx).table@ == old(ctx).table@.insert(dirfd, final(ctx).table@[dirfd])
        },
        !old(ctx).table.has_room() ==> r == Err::<u32, DispatchError>(
            errno(ErrorKind::TooManyHandles),
        ) && final(ctx).table@ == old(ctx).table@,
        old(ctx).table.has_room() && !old(ctx).table@.dom().contains(dirfd) ==> r == Err::<
            u32,
            DispatchError,
        >(errno(ErrorKind::BadHandle)) && final(ctx).table@ == old(ctx).table@,
        old(ctx).table.has_room() && old(ctx).table@.dom().contains(dirfd) && old(ctx).table@[dirfd].resource is File ==> r == Err::<u32, DispatchError>(errno(ErrorKind::NotSupported))
            && final(ctx).table@ == old(ctx).table@,
        (old(ctx).table@[dirfd].resource matches Resource::Dir(d) && old(ctx).table.has_room() && old(ctx).table@.dom().contains(dirfd) && !has_name(d.entries(), name@) && !opts.create) ==> r
            == Err::<u32, DispatchError>(errno(ErrorKind::NotFound)),
        (old(ctx).table@[dirfd].resource matches Resource::Dir(d) && old(ctx).table.has_room() && old(ctx).table@.dom().contains(dirfd) && has_name(d.entries(), name@) && opts.create
            && opts.exclusive) ==> r == Err::<u32, DispatchError>(errno(ErrorKind::AlreadyExists)),
        r matches Ok(h) ==> {
            &&& old(ctx).table@.dom().contains(dirfd)
            &&& !old(ctx).table@.dom().contains(h)
            &&& h != dirfd
            &&& final(ctx).table@.dom().contains(h)
            &&& old(ctx).table@[dirfd].resource matches Resource::Dir(d) && (final(ctx).table@[dirfd].resource matches Resource::Dir(d2) && (has_name(d.entries(), name@)
                ==> d2.entries() == d.entries()) && (!has_name(d.entries(), name@) ==> opts.create
                && appended_entry(
                d.entries(),
                d2.entries(),
                name@,
                if opts.directory {
                    FileType::Directory
                } else {
                    FileType::RegularFile
                },
                Seq::empty(),
            )) && ((final(ctx).table@[h].resource is Dir) <==> (if has_name(d.entries(), name@) {
                final(ctx).table@[h].resource is Dir
            } else {
                opts.directory
            })) && (final(ctx).table@[h].resource matches Resource::File(nf) ==> ((!has_name(
                d.entries(),
                name@,
            ) || opts.truncate) ==> nf.data() == Seq::<u8>::empty() && nf.cursor() == 0)))
            &&& final(ctx).table@[h].rights == crate::ctx::spec_child_rights(
                old(ctx).table@[dirfd].rights,
            )
            &&& final(ctx).table@ == old(ctx).table@.insert(dirfd, final(ctx).table@[dirfd]).insert(
                h,
                final(ctx).table@[h],
            )
        },
{
    if ctx.table.is_full() {
        proof {
            if ctx.table@.dom().contains(dirfd) {
                assert(ctx.table@ =~= ctx.table@.insert(dirfd, ctx.table@[dirfd]));
            }
        }
        return Err(DispatchError::Errno(crate::error::errno_of(ErrorKind::TooManyHandles)));
    }
    let res = match ctx.table.remove(dirfd) {
        Ok(res) => res,
        Err(e) => {
            proof {
                assert(ctx.table@ =~= old(ctx).table@);
            }
            return Err(encode_error(&e));
        },
    };
    let rights = res.rights;
    match res.resource {
        Resource::File(f) => {
            ctx.table.insert_at(dirfd, ResourceEntry { resource: Resource::File(f), rights });
            proof {
                assert(ctx.table@ =~= old(ctx).table@);
            }
            Err(DispatchError::Errno(crate::error::errno_of(ErrorKind::NotSupported)))
        },
        Resource::Dir(mut d) => {
            let out = d.open_child(name, opts);
            ctx.table.insert_at(dirfd, ResourceEntry { resource: Resource::Dir(d), rights });
            match out {
                Ok(child) => {
                    let resource = match child {
                        OpenedChild::File(nf) => Resource::File(nf),
                        OpenedChild::Dir(nd) => Resource::Dir(nd),
                    };
                    let h = ctx.table.insert(
                        ResourceEntry { resource, rights: crate::ctx::child_rights(rights) },
                    );
                    Ok(h)
                },
                Err(e) => Err(encode_error(&e)),
            }
        },
    }
}

/// Create an empty directory named `name` under the directory at `dirfd`.
pub fn path_create_directory<
    D: WasiDir,
    M: WasiMonotonicClock,
    S: WasiSystemClock,
    R: RandomSource,
    Y: WasiSched,
>(ctx: &mut WasiCtx<D, M, S, R, Y>, dirfd: u32, name: &Vec<u8>) -> (r: Result<(), DispatchError>)
    requires
        old(ctx).wf(),
    ensures
        final(ctx).wf(),
        final(ctx).same_non_table(old(ctx)),
        r is Err && old(ctx).table@.dom().contains(dirfd) && old(ctx).table@[dirfd].resource is Dir ==> {
            &&& final(ctx).table@.dom().contains(dirfd)
            &&& final(ctx).table@[dirfd].resource is Dir
            &&& final(ctx).table@[dirfd].rights == old(ctx).table@[dirfd].rights
            &&& final(ctx).table@ == old(ctx).table@.insert(dirfd, final(ctx).table@[dirfd])
        },
        !old(ctx).table@.dom().contains(dirfd) ==> r == Err::<(), DispatchError>(
            errno(ErrorKind::BadHandle),
        ) && final(ctx).table@ == old(ctx).table@,
        old(ctx).table@.dom().contains(dirfd) && old(ctx).table@[dirfd].resource is File ==> r == Err::<
            (),
            DispatchError,
        >(errno(ErrorKind::NotSupported)) && final(ctx).table@ == old(ctx).table@,
        (old(ctx).table@[dirfd].resource matches Resource::Dir(d) && old(ctx).table@.dom().contains(dirfd)
            && has_name(d.entries(), name@)) ==> r == Err::<(), DispatchError>(
            errno(ErrorKind::AlreadyExists),
        ),
        r matches Ok(()) ==> {
            &&& old(ctx).table@.dom().contains(dirfd)
            &&& old(ctx).table@[dirfd].resource matches Resource::Dir(d) && !has_name(d.entries(), name@)
                && (final(ctx).table@[dirfd].resource matches Resource::Dir(d2) && appended_entry(
                d.entries(),
                d2.entries(),
                name@,
                FileType::Directory,
                Seq::empty(),
            ))
            &&& final(ctx).table@ == old(ctx).table@.insert(dirfd, final(ctx).table@[dirfd])
        },
{
    let res = match ctx.table.remove(dirfd) {
        Ok(res) => res,
        Err(e) => {
            proof {
                assert(ctx.table@ =~= old(ctx).table@);
            }
            return Err(encode_error(&e));
        },
    };
    let rights = res.rights;
    match res.resource {
        Resource::File(f) => {
            ctx.table.insert_at(dirfd, ResourceEntry { resource: Resource::File(f), rights });
            proof {
                assert(ctx.table@ =~= old(ctx).table@);
            }
            Err(DispatchError::Errno(crate::error::errno_of(ErrorKind::NotSupported)))
        },
        Resource::Dir(mut d) => {
            let out = d.create_dir(name);
            ctx.table.insert_at(dirfd, ResourceEntry { resource: Resource::Dir(d), rights });
            match out {
                Ok(()) => Ok(()),
                Err(e) => Err(encode_error(&e)),
            }
        },
    }
}

/// Remove the non-directory child `name` under the directory at `dirfd`.
pub fn path_unlink_file<
    D: WasiDir,
    M: WasiMonotonicClock,
    S: WasiSystemClock,
    R: RandomSource,
    Y: WasiSched,
>(ctx: &mut WasiCtx<D, M, S, R, Y>, dirfd: u32, name: &Vec<u8>) -> (r: Result<(), DispatchError>)
    requires
        old(ctx).wf(),
    ensures
        final(ctx).wf(),
        final(ctx).same_non_table(old(ctx)),
        r is Err && old(ctx).table@.dom().contains(dirfd) && old(ctx).table@[dirfd].resource is Dir ==> {
            &&& final(ctx).table@.dom().contains(dirfd)
            &&& final(ctx).table@[dirfd].resource is Dir
            &&& final(ctx).table@[dirfd].rights == old(ctx).table@[dirfd].rights
            &&& final(ctx).table@ == old(ctx).table@.insert(dirfd, final(ctx).table@[dirfd])
        },
        !old(ctx).table@.dom().contains(dirfd) ==> r == Err::<(), DispatchError>(
            errno(ErrorKind::BadHandle),
        ) && final(ctx).table@ == old(ctx).table@,
        old(ctx).table@.dom().contains(dirfd) && old(ctx).table@[dirfd].resource is File ==> r == Err::<
            (),
            DispatchError,
        >(errno(ErrorKind::NotSupported)) && final(ctx).table@ == old(ctx).table@,
        (old(ctx).table@[dirfd].resource matches Resource::Dir(d) && old(ctx).table@.dom().contains(dirfd)
            && !has_name(d.entries(), name@)) ==> r == Err::<(), DispatchError>(
            errno(ErrorKind::NotFound),
        ),
        r matches Ok(()) ==> {
            &&& old(ctx).table@.dom().contains(dirfd)
            &&& old(ctx).table@[dirfd].resource matches Resource::Dir(d) && (final(ctx).table@[dirfd].resource matches Resource::Dir(d2) && exists|i: int|
                #![auto]
                0 <= i < d.entries().len() && d.entries()[i].name == name@ && d.entries()[i].kind
                    != FileType::Directory && d2.entries() == d.entries().remove(i))
            &&& final(ctx).table@ == old(ctx).table@.insert(dirfd, final(ctx).table@[dirfd])
        },
{
    let res = match ctx.table.remove(dirfd) {
        Ok(res) => res,
        Err(e) => {
            proof {
                assert(ctx.table@ =~= old(ctx).table@);
            }
            return Err(encode_error(&e));
        },
    };
    let rights = res.rights;
    match res.resource {
        Resource::File(f) => {
            ctx.table.insert_at(dirfd, ResourceEntry { resource: Resource::File(f), rights });
            proof {
                assert(ctx.table@ =~= old(ctx).table@);
            }
            Err(DispatchError::Errno(crate::error::errno_of(ErrorKind::NotSupported)))
        },
        Resource::Dir(mut d) => {
            let out = d.remove_file(name);
            ctx.table.insert_at(dirfd, ResourceEntry { resource: Resource::Dir(d), rights });
            match out {
                Ok(()) => Ok(()),
                Err(e) => Err(encode_error(&e)),
            }
        },
    }
}

/// Remove the empty child directory `name` under the directory at
/// `dirfd`.
pub fn path_remove_directory<
    D: WasiDir,
    M: WasiMonotonicClock,
    S: WasiSystemClock,
    R: RandomSource,
    Y: WasiSched,
>(ctx: &mut WasiCtx<D, M, S, R, Y>, dirfd: u32, name: &Vec<u8>) -> (r: Result<(), DispatchError>)
    requires
        old(ctx).wf(),
    ensures
        final(ctx).wf(),
        final(ctx).same_non_table(old(ctx)),
        r is Err && old(ctx).table@.dom().contains(dirfd) && old(ctx).table@[dirfd].resource is Dir ==> {
            &&& final(ctx).table@.dom().contains(dirfd)
            &&& final(ctx).table@[dirfd].resource is Dir
            &&& final(ctx).table@[dirfd].rights == old(ctx).table@[dirfd].rights
            &&& final(ctx).table@ == old(ctx).table@.insert(dirfd, final(ctx).table@[dirfd])
        },
        !old(ctx).table@.dom().contains(dirfd) ==> r == Err::<(), DispatchError>(
            errno(ErrorKind::BadHandle),
        ) && final(ctx).table@ == old(ctx).table@,
        old(ctx).table@.dom().contains(dirfd) && old(ctx).table@[dirfd].resource is File ==> r == Err::<
            (),
            DispatchError,
        >(errno(ErrorKind::NotSupported)) && final(ctx).table@ == old(ctx).table@,
        (old(ctx).table@[dirfd].resource matches Resource::Dir(d) && old(ctx).table@.dom().contains(dirfd)
            && !has_name(d.entries(), name@)) ==> r == Err::<(), DispatchError>(
            errno(ErrorKind::NotFound),
        ),
        r matches Ok(()) ==> {
            &&& old(ctx).table@.dom().contains(dirfd)
            &&& old(ctx).table@[dirfd].resource matches Resource::Dir(d) && (final(ctx).table@[dirfd].resource matches Resource::Dir(d2) && exists|i: int|
                #![auto]
                0 <= i < d.entries().len() && d.entries()[i].name == name@ && d.entries()[i].kind
                    == FileType::Directory && d2.entries() == d.entries().remove(i))
            &&& final(ctx).table@ == old(ctx).table@.insert(dirfd, final(ctx).table@[dirfd])
        },
{
    let res = match ctx.table.remove(dirfd) {
        Ok(res) => res,
        Err(e) => {
            proof {
                assert(ctx.table@ =~= old(ctx).table@);
            }
            return Err(encode_error(&e));
        },
    };
    let rights = res.rights;
    match res.resource {
        Resource::File(f) => {
            ctx.table.insert_at(dirfd, ResourceEntry { resource: Resource::File(f), rights });
            proof {
                assert(ctx.table@ =~= old(ctx).table@);
            }
            Err(DispatchError::Errno(crate::error::errno_of(ErrorKind::NotSupported)))
        },
        Resource::Dir(mut d) => {
            let out = d.remove_dir(name);
            ctx.table.insert_at(dirfd, ResourceEntry { resource: Resource::Dir(d), rights });
            match out {
                Ok(()) => Ok(()),
                Err(e) => Err(encode_error(&e)),
            }
        },
    }
}

/// Give the child at `old_name` under the directory at `dirfd` the name
/// `new_name` under the directory at `new_dirfd`, atomically from the
/// guest's observable perspective: no call ever sees a state with neither
/// or both names. The same handle on both sides renames in place; two
/// distinct directory handles move the entry, keeping its identity.
pub fn path_rename<
    D: WasiDir,
    M: WasiMonotonicClock,
    S: WasiSystemClock,
    R: RandomSource,
    Y: WasiSched,
>(
    ctx: &mut WasiCtx<D, M, S, R, Y>,
    dirfd: u32,
    old_name: &Vec<u8>,
    new_dirfd: u32,
    new_name: &Vec<u8>,
) -> (r: Result<(), DispatchError>)
    requires
        old(ctx).wf(),
    ensures
        final(ctx).wf(),
        final(ctx).same_non_table(old(ctx)),
        r is Err && old(ctx).table@.dom().contains(dirfd) && old(ctx).table@[dirfd].resource is Dir ==> {
            &&& final(ctx).table@.dom().contains(dirfd)
            &&& final(ctx).table@[dirfd].resource is Dir
            &&& final(ctx).table@[dirfd].rights == old(ctx).table@[dirfd].rights
        },
        r is Err && old(ctx).table@.dom().contains(new_dirfd) && old(ctx).table@[new_dirfd].resource is Dir ==> {
            &&& final(ctx).table@.dom().contains(new_dirfd)
            &&& final(ctx).table@[new_dirfd].resource is Dir
            &&& final(ctx).table@[new_dirfd].rights == old(ctx).table@[new_dirfd].rights
        },
        forall|h: u32|
            #![auto]
            h != dirfd && h != new_dirfd && old(ctx).table@.dom().contains(h) ==> final(ctx).table@.dom().contains(h) && final(ctx).table@[h] == old(ctx).table@[h],
        !old(ctx).table@.dom().contains(dirfd) ==> r == Err::<(), DispatchError>(
            errno(ErrorKind::BadHandle),
        ) && final(ctx).table@ == old(ctx).table@,
        old(ctx).table@.dom().contains(dirfd) && old(ctx).table@[dirfd].resource is File ==> r
            == Err::<(), DispatchError>(errno(ErrorKind::NotSupported)) && final(ctx).table@ == old(ctx).table@,
        old(ctx).table@.dom().contains(dirfd) && old(ctx).table@[dirfd].resource is Dir && !old(ctx).table@.dom().contains(new_dirfd) ==> r == Err::<(), DispatchError>(
            errno(ErrorKind::BadHandle),
        ),
        old(ctx).table@.dom().contains(dirfd) && old(ctx).table@[dirfd].resource is Dir && old(ctx).table@.dom().contains(new_dirfd) && old(ctx).table@[new_dirfd].resource is File ==> r
            == Err::<(), DispatchError>(errno(ErrorKind::NotSupported)),
        (old(ctx).table@[dirfd].resource matches Resource::Dir(d) && old(ctx).table@.dom().contains(dirfd) && old(ctx).table@.dom().contains(new_dirfd) && old(ctx).table@[new_dirfd].resource is Dir && !has_name(d.entries(), old_name@)) ==> r == Err::<
            (),
            DispatchError,
        >(errno(ErrorKind::NotFound)),
        r matches Ok(()) && dirfd == new_dirfd ==> {
            &&& old(ctx).table@.dom().contains(dirfd)
            &&& old(ctx).table@[dirfd].resource matches Resource::Dir(d) && (final(ctx).table@[dirfd].resource matches Resource::Dir(d2) && exists|i: int|
                #![auto]
                0 <= i < d.entries().len() && d.entries()[i].name == old_name@ && d2.entries()
                    == d.entries().update(
                    i,
                    DirEntryView { name: new_name@, ..d.entries()[i] },
                ))
            &&& final(ctx).table@ == old(ctx).table@.insert(dirfd, final(ctx).table@[dirfd])
        },
        r matches Ok(()) && dirfd != new_dirfd ==> {
            &&& old(ctx).table@.dom().contains(dirfd)
            &&& old(ctx).table@.dom().contains(new_dirfd)
            &&& old(ctx).table@[dirfd].resource matches Resource::Dir(src0) && (old(ctx).table@[new_dirfd].resource matches Resource::Dir(dst0) && (final(ctx).table@[dirfd].resource matches Resource::Dir(src1) && (final(ctx).table@[new_dirfd].resource matches Resource::Dir(dst1) && exists|i: int|
                #![auto]
                0 <= i < src0.entries().len() && src0.entries()[i].name == old_name@
                    && src1.entries() == src0.entries().remove(i) && dst1.entries()
                    == dst0.entries().push(
                    DirEntryView { name: new_name@, ..src0.entries()[i] },
                ))))
            &&& final(ctx).table@[dirfd].rights == old(ctx).table@[dirfd].rights
            &&& final(ctx).table@[new_dirfd].rights == old(ctx).table@[new_dirfd].rights
            &&& final(ctx).table@ == old(ctx).table@.insert(
                new_dirfd,
                final(ctx).table@[new_dirfd],
            ).insert(dirfd, final(ctx).table@[dirfd])
        },
{
    let src_entry = match ctx.table.remove(dirfd) {
        Ok(e) => e,
        Err(e) => {
            proof {
                assert(ctx.table@ =~= old(ctx).table@);
            }
            return Err(encode_error(&e));
        },
    };
    let src_rights = src_entry.rights;
    let mut src = match src_entry.resource {
        Resource::File(f) => {
            ctx.table.insert_at(
                dirfd,
                ResourceEntry { resource: Resource::File(f), rights: src_rights },
            );
            proof {
                assert(ctx.table@ =~= old(ctx).table@);
            }
            return Err(DispatchError::Errno(crate::error::errno_of(ErrorKind::NotSupported)));
        },
        Resource::Dir(d) => d,
    };
    if dirfd == new_dirfd {
        let out = src.rename(old_name, new_name);
        ctx.table.insert_at(
            dirfd,
            ResourceEntry { resource: Resource::Dir(src), rights: src_rights },
        );
        return match out {
            Ok(()) => Ok(()),
            Err(e) => Err(encode_error(&e)),
        };
    }
    let dst_entry = match ctx.table.remove(new_dirfd) {
        Ok(e) => e,
        Err(e) => {
            ctx.table.insert_at(
                dirfd,
                ResourceEntry { resource: Resource::Dir(src), rights: src_rights },
            );
            proof {
                assert(ctx.table@ =~= old(ctx).table@);
            }
            return Err(encode_error(&e));
        },
    };
    let dst_rights = dst_entry.rights;
    let mut dst = match dst_entry.resource {
        Resource::File(f) => {
            ctx.table.insert_at(
                new_dirfd,
                ResourceEntry { resource: Resource::File(f), rights: dst_rights },
            );
            ctx.table.insert_at(
                dirfd,
                ResourceEntry { resource: Resource::Dir(src), rights: src_rights },
            );
            proof {
                assert(ctx.table@ =~= old(ctx).table@);
            }
            return Err(DispatchError::Errno(crate::error::errno_of(ErrorKind::NotSupported)));
        },
        Resource::Dir(d) => d,
    };
    let out = src.rename_into(old_name, &mut dst, new_name);
    ctx.table.insert_at(
        new_dirfd,
        ResourceEntry { resource: Resource::Dir(dst), rights: dst_rights },
    );
    ctx.table.insert_at(dirfd, ResourceEntry { resource: Resource::Dir(src), rights: src_rights });
    proof {
        assert(ctx.table@ =~= old(ctx).table@.insert(
            new_dirfd,
            ctx.table@[new_dirfd],
        ).insert(dirfd, ctx.table@[dirfd]));
    }
    match out {
        Ok(()) => Ok(()),
        Err(e) => Err(encode_error(&e)),
    }
}

/// Create a symlink entry `name` under `dirfd`, pointing at `target`.
pub fn path_symlink<
    D: WasiDir,
    M: WasiMonotonicClock,
    S: WasiSystemClock,
    R: RandomSource,
    Y: WasiSched,
>(ctx: &mut WasiCtx<D, M, S, R, Y>, target: &Vec<u8>, dirfd: u32, name: &Vec<u8>) -> (r: Result<
    (),
    DispatchError,
>)
    requires
        old(ctx).wf(),
    ensures
        final(ctx).wf(),
        final(ctx).same_non_table(old(ctx)),
        r is Err && old(ctx).table@.dom().contains(dirfd) && old(ctx).table@[dirfd].resource is Dir ==> {
            &&& final(ctx).table@.dom().contains(dirfd)
            &&& final(ctx).table@[dirfd].resource is Dir
            &&& final(ctx).table@[dirfd].rights == old(ctx).table@[dirfd].rights
            &&& final(ctx).table@ == old(ctx).table@.insert(dirfd, final(ctx).table@[dirfd])
        },
        !old(ctx).table@.dom().contains(dirfd) ==> r == Err::<(), DispatchError>(
            errno(ErrorKind::BadHandle),
        ) && final(ctx).table@ == old(ctx).table@,
        old(ctx).table@.dom().contains(dirfd) && old(ctx).table@[dirfd].resource is File ==> r == Err::<
            (),
            DispatchError,
        >(errno(ErrorKind::NotSupported)) && final(ctx).table@ == old(ctx).table@,
        (old(ctx).table@[dirfd].resource matches Resource::Dir(d) && old(ctx).table@.dom().contains(dirfd)
            && has_name(d.entries(), name@)) ==> r == Err::<(), DispatchError>(
            errno(ErrorKind::AlreadyExists),
        ),
        r matches Ok(()) ==> {
            &&& old(ctx).table@.dom().contains(dirfd)
            &&& old(ctx).table@[dirfd].resource matches Resource::Dir(d) && !has_name(d.entries(), name@)
                && (final(ctx).table@[dirfd].resource matches Resource::Dir(d2) && appended_entry(
                d.entries(),
                d2.entries(),
                name@,
                FileType::SymbolicLink,
                target@,
            ))
            &&& final(ctx).table@ == old(ctx).table@.insert(dirfd, final(ctx).table@[dirfd])
        },
{
    let res = match ctx.table.remove(dirfd) {
        Ok(res) => res,
        Err(e) => {
            proof {
                assert(ctx.table@ =~= old(ctx).table@);
            }
            return Err(encode_error(&e));
        },
    };
    let rights = res.rights;
    match res.resource {
        Resource::File(f) => {
            ctx.table.insert_at(dirfd, ResourceEntry { resource: Resource::File(f), rights });
            proof {
                assert(ctx.table@ =~= old(ctx).table@);
            }
            Err(DispatchError::Errno(crate::error::errno_of(ErrorKind::NotSupported)))
        },
        Resource::Dir(mut d) => {
            let out = d.symlink(target, name);
            ctx.table.insert_at(dirfd, ResourceEntry { resource: Resource::Dir(d), rights });
            match out {
                Ok(()) => Ok(()),
                Err(e) => Err(encode_error(&e)),
            }
        },
    }
}

/// Read the target of the symlink entry `name` under `dirfd`.
pub fn path_readlink<
    D: WasiDir,
    M: WasiMonotonicClock,
    S: WasiSystemClock,
    R: RandomSource,
    Y: WasiSched,
>(ctx: &WasiCtx<D, M, S, R, Y>, dirfd: u32, name: &Vec<u8>) -> (r: Result<Vec<u8>, DispatchError>)
    ensures
        !ctx.table@.dom().contains(dirfd) ==> r == Err::<Vec<u8>, DispatchError>(
            errno(ErrorKind::BadHandle),
        ),
        ctx.table@.dom().contains(dirfd) && ctx.table@[dirfd].resource is File ==> r == Err::<
            Vec<u8>,
            DispatchError,
        >(errno(ErrorKind::NotSupported)),
        (ctx.table@[dirfd].resource matches Resource::Dir(d) && ctx.table@.dom().contains(dirfd)
            && !has_name(d.entries(), name@)) ==> r == Err::<Vec<u8>, DispatchError>(
            errno(ErrorKind::NotFound),
        ),
        r matches Ok(t) ==> {
            &&& ctx.table@.dom().contains(dirfd)
            &&& ctx.table@[dirfd].resource matches Resource::Dir(d) && exists|i: int|
                #![auto]
                0 <= i < d.entries().len() && d.entries()[i].name == name@ && d.entries()[i].kind
                    == FileType::SymbolicLink && t@ == d.entries()[i].target
        },
{
    match ctx.table.get(dirfd) {
        Ok(entry) => match &entry.resource {
            Resource::File(_) => Err(
                DispatchError::Errno(crate::error::errno_of(ErrorKind::NotSupported)),
            ),
            Resource::Dir(d) => match d.read_link(name) {
                Ok(t) => Ok(t),
                Err(e) => Err(encode_error(&e)),
            },
        },
        Err(e) => Err(encode_error(&e)),
    }
}

/// Bind the non-directory child at `old_name` under the directory at
/// `dirfd` to a second name under the directory at `new_dirfd`, with the
/// same inode identity. The same handle on both sides links in place; two
/// distinct directory handles link across, leaving the source untouched.
pub fn path_link<
    D: WasiDir,
    M: WasiMonotonicClock,
    S: WasiSystemClock,
    R: RandomSource,
    Y: WasiSched,
>(
    ctx: &mut WasiCtx<D, M, S, R, Y>,
    dirfd: u32,
    old_name: &Vec<u8>,
    new_dirfd: u32,
    new_name: &Vec<u8>,
) -> (r: Result<(), DispatchError>)
    requires
        old(ctx).wf(),
    ensures
        final(ctx).wf(),
        final(ctx).same_non_table(old(ctx)),
        r is Err && old(ctx).table@.dom().contains(dirfd) && old(ctx).table@[dirfd].resource is Dir ==> {
            &&& final(ctx).table@.dom().contains(dirfd)
            &&& final(ctx).table@[dirfd].resource is Dir
            &&& final(ctx).table@[dirfd].rights == old(ctx).table@[dirfd].rights
        },
        r is Err && old(ctx).table@.dom().contains(new_dirfd) && old(ctx).table@[new_dirfd].resource is Dir ==> {
            &&& final(ctx).table@.dom().contains(new_dirfd)
            &&& final(ctx).table@[new_dirfd].resource is Dir
            &&& final(ctx).table@[new_dirfd].rights == old(ctx).table@[new_dirfd].rights
        },
        forall|h: u32|
            #![auto]
            h != dirfd && h != new_dirfd && old(ctx).table@.dom().contains(h) ==> final(ctx).table@.dom().contains(h) && final(ctx).table@[h] == old(ctx).table@[h],
        !old(ctx).table@.dom().contains(dirfd) ==> r == Err::<(), DispatchError>(
            errno(ErrorKind::BadHandle),
        ) && final(ctx).table@ == old(ctx).table@,
        old(ctx).table@.dom().contains(dirfd) && old(ctx).table@[dirfd].resource is File ==> r
            == Err::<(), DispatchError>(errno(ErrorKind::NotSupported)) && final(ctx).table@ == old(ctx).table@,
        old(ctx).table@.dom().contains(dirfd) && old(ctx).table@[dirfd].resource is Dir && !old(ctx).table@.dom().contains(new_dirfd) ==> r == Err::<(), DispatchError>(
            errno(ErrorKind::BadHandle),
        ),
        old(ctx).table@.dom().contains(dirfd) && old(ctx).table@[dirfd].resource is Dir && old(ctx).table@.dom().contains(new_dirfd) && old(ctx).table@[new_dirfd].resource is File ==> r
            == Err::<(), DispatchError>(errno(ErrorKind::NotSupported)),
        (old(ctx).table@[dirfd].resource matches Resource::Dir(d) && old(ctx).table@.dom().contains(dirfd) && old(ctx).table@.dom().contains(new_dirfd) && old(ctx).table@[new_dirfd].resource is Dir && !has_name(d.entries(), old_name@)) ==> r == Err::<
            (),
            DispatchError,
        >(errno(ErrorKind::NotFound)),
        r matches Ok(()) && dirfd == new_dirfd ==> {
            &&& old(ctx).table@.dom().contains(dirfd)
            &&& old(ctx).table@[dirfd].resource matches Resource::Dir(d) && (final(ctx).table@[dirfd].resource matches Resource::Dir(d2) && exists|i: int|
                #![auto]
                0 <= i < d.entries().len() && d.entries()[i].name == old_name@
                    && d.entries()[i].kind != FileType::Directory && d2.entries()
                    == d.entries().push(
                    DirEntryView { name: new_name@, ..d.entries()[i] },
                ))
            &&& final(ctx).table@ == old(ctx).table@.insert(dirfd, final(ctx).table@[dirfd])
        },
        r matches Ok(()) && dirfd != new_dirfd ==> {
            &&& old(ctx).table@.dom().contains(dirfd)
            &&& old(ctx).table@.dom().contains(new_dirfd)
            &&& old(ctx).table@[dirfd].resource matches Resource::Dir(src0) && (old(ctx).table@[new_dirfd].resource matches Resource::Dir(dst0) && (final(ctx).table@[dirfd].resource matches Resource::Dir(src1) && (final(ctx).table@[new_dirfd].resource matches Resource::Dir(dst1) && src1.entries()
                == src0.entries() && exists|i: int|
                #![auto]
                0 <= i < src0.entries().len() && src0.entries()[i].name == old_name@
                    && src0.entries()[i].kind != FileType::Directory && dst1.entries()
                    == dst0.entries().push(
                    DirEntryView { name: new_name@, ..src0.entries()[i] },
                ))))
            &&& final(ctx).table@[dirfd].rights == old(ctx).table@[dirfd].rights
            &&& final(ctx).table@[new_dirfd].rights == old(ctx).table@[new_dirfd].rights
            &&& final(ctx).table@ == old(ctx).table@.insert(
                new_dirfd,
                final(ctx).table@[new_dirfd],
            ).insert(dirfd, final(ctx).table@[dirfd])
        },
{
    let src_entry = match ctx.table.remove(dirfd) {
        Ok(e) => e,
        Err(e) => {
            proof {
                assert(ctx.table@ =~= old(ctx).table@);
            }
            return Err(encode_error(&e));
        },
    };
    let src_rights = src_entry.rights;
    let mut src = match src_entry.resource {
        Resource::File(f) => {
            ctx.table.insert_at(
                dirfd,
                ResourceEntry { resource: Resource::File(f), rights: src_rights },
            );
            proof {
                assert(ctx.table@ =~= old(ctx).table@);
            }
            return Err(DispatchError::Errno(crate::error::errno_of(ErrorKind::NotSupported)));
        },
        Resource::Dir(d) => d,
    };
    if dirfd == new_dirfd {
        let out = src.hard_link(old_name, new_name);
        ctx.table.insert_at(
            dirfd,
            ResourceEntry { resource: Resource::Dir(src), rights: src_rights },
        );
        return match out {
            Ok(()) => Ok(()),
            Err(e) => Err(encode_error(&e)),
        };
    }
    let dst_entry = match ctx.table.remove(new_dirfd) {
        Ok(e) => e,
        Err(e) => {
            ctx.table.insert_at(
                dirfd,
                ResourceEntry { resource: Resource::Dir(src), rights: src_rights },
            );
            proof {
                assert(ctx.table@ =~= old(ctx).table@);
            }
            return Err(encode_error(&e));
        },
    };
    let dst_rights = dst_entry.rights;
    let mut dst = match dst_entry.resource {
        Resource::File(f) => {
            ctx.table.insert_at(
                new_dirfd,
                ResourceEntry { resource: Resource::File(f), rights: dst_rights },
            );
            ctx.table.insert_at(
                dirfd,
                ResourceEntry { resource: Resource::Dir(src), rights: src_rights },
            );
            proof {
                assert(ctx.table@ =~= old(ctx).table@);
            }
            return Err(DispatchError::Errno(crate::error::errno_of(ErrorKind::NotSupported)));
        },
        Resource::Dir(d) => d,
    };
    let out = src.link_into(old_name, &mut dst, new_name);
    ctx.table.insert_at(
        new_dirfd,
        ResourceEntry { resource: Resource::Dir(dst), rights: dst_rights },
    );
    ctx.table.insert_at(dirfd, ResourceEntry { resource: Resource::Dir(src), rights: src_rights });
    proof {
        assert(ctx.table@ =~= old(ctx).table@.insert(
            new_dirfd,
            ctx.table@[new_dirfd],
        ).insert(dirfd, ctx.table@[dirfd]));
    }
    match out {
        Ok(()) => Ok(()),
        Err(e) => Err(encode_error(&e)),
    }
}

/// Metadata of the child `name` under `dirfd`, optionally without
/// following a final symlink component.
pub fn path_filestat_get<
    D: WasiDir,
    M: WasiMonotonicClock,
    S: WasiSystemClock,
    R: RandomSource,
    Y: WasiSched,
>(ctx: &WasiCtx<D, M, S, R, Y>, dirfd: u32, name: &Vec<u8>, follow: bool) -> (r: Result<
    Filestat,
    DispatchError,
>)
    ensures
        !ctx.table@.dom().contains(dirfd) ==> r == Err::<Filestat, DispatchError>(
            errno(ErrorKind::BadHandle),
        ),
        ctx.table@.dom().contains(dirfd) && ctx.table@[dirfd].resource is File ==> r == Err::<
            Filestat,
            DispatchError,
        >(errno(ErrorKind::NotSupported)),
        (ctx.table@[dirfd].resource matches Resource::Dir(d) && ctx.table@.dom().contains(dirfd)
            && !has_name(d.entries(), name@)) ==> r == Err::<Filestat, DispatchError>(
            errno(ErrorKind::NotFound),
        ),
        r matches Ok(st) ==> {
            &&& ctx.table@.dom().contains(dirfd)
            &&& ctx.table@[dirfd].resource matches Resource::Dir(d) && exists|i: int|
                #![auto]
                0 <= i < d.entries().len() && d.entries()[i].name == name@ && ((!follow
                    || d.entries()[i].kind != FileType::SymbolicLink) ==> st.filetype
                    == d.entries()[i].kind)
        },
{
    match ctx.table.get(dirfd) {
        Ok(entry) => match &entry.resource {
            Resource::File(_) => Err(
                DispatchError::Errno(crate::error::errno_of(ErrorKind::NotSupported)),
            ),
            Resource::Dir(d) => match d.stat_at(name, follow) {
                Ok(st) => Ok(st),
                Err(e) => Err(encode_error(&e)),
            },
        },
        Err(e) => Err(encode_error(&e)),
    }
}

/// The element count and cumulative size of the guest's argument strings,
/// for the guest to size its buffers. Never fails.
pub fn args_sizes_get<
    D: WasiDir,
    M: WasiMonotonicClock,
    S: WasiSystemClock,
    R: RandomSource,
    Y: WasiSched,
>(ctx: &WasiCtx<D, M, S, R, Y>) -> (r: Result<(u32, u32), DispatchError>)
    requires
        ctx.wf(),
    ensures
        r matches Ok(p) && p.0 == ctx.args@.len() && p.1 == cumulative_size_of(ctx.args@),
{
    Ok((ctx.args.number_elements(), ctx.args.cumulative_size()))
}

/// The guest's argument strings, NUL-terminated and back to back. Never
/// fails.
pub fn args_get<
    D: WasiDir,
    M: WasiMonotonicClock,
    S: WasiSystemClock,
    R: RandomSource,
    Y: WasiSched,
>(ctx: &WasiCtx<D, M, S, R, Y>) -> (r: Result<Vec<u8>, DispatchError>)
    requires
        ctx.wf(),
    ensures
        r matches Ok(buf) && buf@ == flattened(ctx.args@),
{
    Ok(ctx.args.flatten())
}

/// The element count and cumulative size of the guest's environment
/// strings. Never fails.
pub fn environ_sizes_get<
    D: WasiDir,
    M: WasiMonotonicClock,
    S: WasiSystemClock,
    R: RandomSource,
    Y: WasiSched,
>(ctx: &WasiCtx<D, M, S, R, Y>) -> (r: Result<(u32, u32), DispatchError>)
    requires
        ctx.wf(),
    ensures
        r matches Ok(p) && p.0 == ctx.env@.len() && p.1 == cumulative_size_of(ctx.env@),
{
    Ok((ctx.env.number_elements(), ctx.env.cumulative_size()))
}

/// The guest's environment strings, NUL-terminated and back to back.
/// Never fails.
pub fn environ_get<
    D: WasiDir,
    M: WasiMonotonicClock,
    S: WasiSystemClock,
    R: RandomSource,
    Y: WasiSched,
>(ctx: &WasiCtx<D, M, S, R, Y>) -> (r: Result<Vec<u8>, DispatchError>)
    requires
        ctx.wf(),
    ensures
        r matches Ok(buf) && buf@ == flattened(ctx.env@),
{
    Ok(ctx.env.flatten())
}

/// Read a clock. The monotonic clock's reading is at least every earlier
/// one from this context; the wall clock promises nothing. Never fails.
pub fn clock_time_get<
    D: WasiDir,
    M: WasiMonotonicClock,
    S: WasiSystemClock,
    R: RandomSource,
    Y: WasiSched,
>(ctx: &mut WasiCtx<D, M, S, R, Y>, id: ClockId) -> (r: Result<u64, DispatchError>)
    requires
        old(ctx).wf(),
    ensures
        final(ctx).wf(),
        final(ctx).same_non_table(old(ctx)),
        final(ctx).table@ == old(ctx).table@,
        r is Ok,
        id == ClockId::Monotonic ==> (r matches Ok(t) && t >= old(ctx).clocks.monotonic.reading() && final(ctx).clocks.monotonic.reading() == t),
        final(ctx).clocks.monotonic.reading() >= old(ctx).clocks.monotonic.reading(),
{
    match id {
        ClockId::Monotonic => Ok(ctx.clocks.monotonic.now()),
        ClockId::Realtime => Ok(ctx.clocks.system.now()),
    }
}

/// Fill a buffer of `len` bytes from the context's randomness source;
/// the bytes are the source's, and so is any failure.
pub fn random_get<
    D: WasiDir,
    M: WasiMonotonicClock,
    S: WasiSystemClock,
    R: RandomSource,
    Y: WasiSched,
>(ctx: &mut WasiCtx<D, M, S, R, Y>, len: usize) -> (r: Result<Vec<u8>, DispatchError>)
    requires
        old(ctx).wf(),
    ensures
        final(ctx).wf(),
        final(ctx).same_non_table(old(ctx)),
        final(ctx).table@ == old(ctx).table@,
        r matches Ok(buf) ==> buf@.len() == len,
{
    match ctx.random.get_bytes(len) {
        Ok(buf) => Ok(buf),
        Err(e) => Err(encode_error(&e)),
    }
}

/// Give other guests a turn.
pub fn sched_yield<
    D: WasiDir,
    M: WasiMonotonicClock,
    S: WasiSystemClock,
    R: RandomSource,
    Y: WasiSched,
>(ctx: &mut WasiCtx<D, M, S, R, Y>) -> (r: Result<(), DispatchError>)
    requires
        old(ctx).wf(),
    ensures
        final(ctx).wf(),
        final(ctx).same_non_table(old(ctx)),
        final(ctx).table@ == old(ctx).table@,
{
    match ctx.sched.sched_yield() {
        Ok(()) => Ok(()),
        Err(e) => Err(encode_error(&e)),
    }
}

/// The guest asks to terminate: record the code in the context's exit
/// slot and hand the embedding the exit signal, which propagates past the
/// dispatcher instead of becoming an error code.
pub fn proc_exit<
    D: WasiDir,
    M: WasiMonotonicClock,
    S: WasiSystemClock,
    R: RandomSource,
    Y: WasiSched,
>(ctx: &mut WasiCtx<D, M, S, R, Y>, code: i32) -> (r: DispatchError)
    requires
        old(ctx).wf(),
    ensures
        final(ctx).wf(),
        r == DispatchError::Exit(code),
        r == spec_encode_error(Error::RequestedExit(code)),
        final(ctx).exit_status == Some(code),
        final(ctx).table@ == old(ctx).table@,
        final(ctx).args == old(ctx).args,
        final(ctx).env == old(ctx).env,
{
    ctx.exit_status = Some(code);
    encode_error(&Error::RequestedExit(code))
}

/// Evaluate a subscription set once against the table and the monotonic
/// clock, never blocking. An empty set fails with the invalid-argument
/// code, producing no events — and only an empty set does. A subscription
/// already satisfied at the clock's reading (a deadline in the past, a
/// dead handle, a writable file) yields its event immediately; only when
/// no event is ready does the decision say to wait, and until when. The
/// embedding parks on the scheduler and calls again.
pub fn poll_oneoff<
    D: WasiDir,
    M: WasiMonotonicClock,
    S: WasiSystemClock,
    R: RandomSource,
    Y: WasiSched,
>(ctx: &mut WasiCtx<D, M, S, R, Y>, subs: &Vec<Subscription>) -> (r: Result<
    PollDecision,
    DispatchError,
>)
    requires
        old(ctx).wf(),
    ensures
        final(ctx).wf(),
        final(ctx).same_non_table(old(ctx)),
        final(ctx).table@ == old(ctx).table@,
        final(ctx).clocks.monotonic.reading() >= old(ctx).clocks.monotonic.reading(),
        (subs@.len() == 0) <==> (r == Err::<PollDecision, DispatchError>(
            errno(ErrorKind::InvalidArgument),
        )),
        r is Err ==> subs@.len() == 0,
        r matches Ok(PollDecision::Events(out)) ==> {
            &&& out@.len() > 0
            &&& forall|i: int|
                #![auto]
                0 <= i < subs@.len() && definitely_ready(
                    old(ctx).table@,
                    final(ctx).clocks.monotonic.reading(),
                    subs@[i],
                ) ==> has_event(out@, sub_userdata(subs@[i]))
            &&& forall|i: int|
                #![auto]
                0 <= i < subs@.len() && names_dead_handle(old(ctx).table@, subs@[i])
                    ==> has_err_event(out@, sub_userdata(subs@[i]), ErrorKind::BadHandle)
            &&& forall|k: int| 0 <= k < out@.len() ==> event_has_source(subs@, #[trigger] out@[k])
        },
        r matches Ok(PollDecision::Wait(d)) ==> {
            &&& forall|i: int|
                #![auto]
                0 <= i < subs@.len() ==> !definitely_ready(
                    old(ctx).table@,
                    final(ctx).clocks.monotonic.reading(),
                    subs@[i],
                )
            &&& d == min_deadline(subs@)
        },
{
    let now = ctx.clocks.monotonic.now();
    match crate::sched::poll_oneoff(&ctx.table, now, subs) {
        Ok(d) => Ok(d),
        Err(e) => Err(encode_error(&e)),
    }
}

} // verus!
