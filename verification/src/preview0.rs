//! The earlier snapshot's dispatcher. It shares every component below the
//! dispatcher — the table, the capability traits, the clocks, the poll
//! evaluation — with the later snapshot; what is its own is which ABI
//! functions exist and how arguments and results are encoded on the wire
//! (this snapshot numbers seek origins differently).
//!
//! A call shaped for a function this snapshot does not carry must fail
//! with the not-supported code, never silently substitute the later
//! snapshot's behaviour.

use vstd::prelude::*;

use crate::clocks::{ClockId, WasiMonotonicClock, WasiSystemClock};
use crate::ctx::{Resource, ResourceEntry, WasiCtx};
use crate::dir::{ReaddirPage, WasiDir};
use crate::error::{
    encode_error, errno_of_kind, spec_encode_error, DispatchError, Error, ErrorKind,
};
use crate::file::{read_range, seek_target, PositionStyle, Whence, WasiFile};
use crate::random::RandomSource;
use crate::sched::{
    definitely_ready, event_has_source, has_err_event, has_event, min_deadline, names_dead_handle,
    sub_userdata, PollDecision, Subscription, WasiSched,
};

verus! {

/// The numeric code this snapshot uses for an ordinary failure.
pub open spec fn errno(k: ErrorKind) -> DispatchError {
    DispatchError::Errno(errno_of_kind(k))
}

/// Decode this snapshot's on-the-wire seek origin: 0 is the cursor, 1 the
/// end, 2 the start — the numbering the later snapshot reshuffled.
/// Anything else is rejected.
pub fn decode_whence(w: u8) -> (r: Result<Whence, DispatchError>)
    ensures
        w == 0 ==> r == Ok::<Whence, DispatchError>(Whence::Current),
        w == 1 ==> r == Ok::<Whence, DispatchError>(Whence::End),
        w == 2 ==> r == Ok::<Whence, DispatchError>(Whence::Start),
        w > 2 ==> r == Err::<Whence, DispatchError>(errno(ErrorKind::InvalidArgument)),
{
    if w == 0 {
        Ok(Whence::Current)
    } else if w == 1 {
        Ok(Whence::End)
    } else if w == 2 {
        Ok(Whence::Start)
    } else {
        Err(DispatchError::Errno(crate::error::errno_of(ErrorKind::InvalidArgument)))
    }
}

/// Close a handle. Behaves as the later snapshot's close: removal, with
/// the bad-handle code exactly when the handle is not live.
pub fn fd_close<
    D: WasiDir,
    M: WasiMonotonicClock,
    S: WasiSystemClock,
    R: RandomSource,
    Y: WasiSched,
>(ctx: &mut WasiCtx<D, M, S, R, Y>, fd: u32) -> (r: Result<(), DispatchError>)
    requires
        old(ctx).wf(),
    ensures
        final(ctx).wf(),
        final(ctx).same_non_table(old(ctx)),
        match r {
            Ok(()) => old(ctx).table@.dom().contains(fd) && final(ctx).table@ == old(ctx).table@.remove(fd),
            Err(e) => e == errno(ErrorKind::BadHandle) && !old(ctx).table@.dom().contains(fd)
                && final(ctx).table@ == old(ctx).table@,
        },
{
    match ctx.table.remove(fd) {
        Ok(_) => Ok(()),
        Err(e) => Err(encode_error(&e)),
    }
}

/// Read up to `len` bytes at the cursor of the file at `fd`.
pub fn fd_read<
    D: WasiDir,
    M: WasiMonotonicClock,
    S: WasiSystemClock,
    R: RandomSource,
    Y: WasiSched,
>(ctx: &mut WasiCtx<D, M, S, R, Y>, fd: u32, len: usize) -> (r: Result<Vec<u8>, DispatchError>)
    requires
        old(ctx).wf(),
    ensures
        final(ctx).wf(),
        final(ctx).same_non_table(old(ctx)),
        old(ctx).table@.dom().contains(fd) ==> (old(
            ctx,
        ).table@[fd].resource matches Resource::File(f0) ==> {
            &&& final(ctx).table@.dom().contains(fd)
            &&& (final(ctx).table@[fd].resource matches Resource::File(f1) && f1.kind()
                == f0.kind() && f1.style() == f0.style() && f1.is_tty() == f0.is_tty())
            &&& final(ctx).table@[fd].rights == old(ctx).table@[fd].rights
            &&& final(ctx).table@ == old(ctx).table@.insert(fd, final(ctx).table@[fd])
        }),
        !old(ctx).table@.dom().contains(fd) ==> r == Err::<Vec<u8>, DispatchError>(
            errno(ErrorKind::BadHandle),
        ) && final(ctx).table@ == old(ctx).table@,
        old(ctx).table@.dom().contains(fd) && old(ctx).table@[fd].resource is Dir ==> r == Err::<
            Vec<u8>,
            DispatchError,
        >(errno(ErrorKind::NotSupported)) && final(ctx).table@ == old(ctx).table@,
        (old(ctx).table@[fd].resource matches Resource::File(f) && old(ctx).table@.dom().contains(fd)
            && f.style() != PositionStyle::Cursor) ==> r == Err::<Vec<u8>, DispatchError>(
            errno(ErrorKind::NotSupported),
        ) && final(ctx).table@ == old(ctx).table@,
        r matches Ok(buf) ==> {
            &&& old(ctx).table@.dom().contains(fd)
            &&& old(ctx).table@[fd].resource matches Resource::File(f) && f.style() == PositionStyle::Cursor
                && buf@ == read_range(f.data(), f.cursor(), len as nat) && (final(ctx).table@[fd].resource matches Resource::File(f2) && f2.data() == f.data() && f2.cursor()
                == f.cursor() + buf@.len() && f2.kind() == f.kind())
            &&& final(ctx).table@ == old(ctx).table@.insert(fd, final(ctx).table@[fd])
        },
{
    let res = match ctx.table.remove(fd) {
        Ok(res) => res,
        Err(e) => {
            proof {
                assert(ctx.table@ =~= old(ctx).table@);
            }
            return Err(encode_error(&e));
        },
    };
    let rights = res.rights;
    match res.resource {
        Resource::Dir(d) => {
            ctx.table.insert_at(fd, ResourceEntry { resource: Resource::Dir(d), rights });
            proof {
                assert(ctx.table@ =~= old(ctx).table@);
            }
            Err(DispatchError::Errno(crate::error::errno_of(ErrorKind::NotSupported)))
        },
        Resource::File(mut f) => {
            if f.position_style() != PositionStyle::Cursor {
                ctx.table.insert_at(fd, ResourceEntry { resource: Resource::File(f), rights });
                proof {
                    assert(ctx.table@ =~= old(ctx).table@);
                    assert(ctx.table@ =~= old(ctx).table@.insert(fd, ctx.table@[fd]));
                }
                return Err(DispatchError::Errno(crate::error::errno_of(ErrorKind::NotSupported)));
            }
            let out = f.read_cursor(len);
            ctx.table.insert_at(fd, ResourceEntry { resource: Resource::File(f), rights });
            match out {
                Ok(buf) => Ok(buf),
                Err(e) => Err(encode_error(&e)),
            }
        },
    }
}

/// Move the cursor of the file at `fd` relative to the given origin
/// (decoded by this snapshot's [`decode_whence`]) and report where it
/// landed.
pub fn fd_seek<
    D: WasiDir,
    M: WasiMonotonicClock,
    S: WasiSystemClock,
    R: RandomSource,
    Y: WasiSched,
>(ctx: &mut WasiCtx<D, M, S, R, Y>, fd: u32, whence: Whence, delta: i64) -> (r: Result<
    u64,
    DispatchError,
>)
    requires
        old(ctx).wf(),
    ensures
        final(ctx).wf(),
        final(ctx).same_non_table(old(ctx)),
        old(ctx).table@.dom().contains(fd) ==> (old(
            ctx,
        ).table@[fd].resource matches Resource::File(f0) ==> {
            &&& final(ctx).table@.dom().contains(fd)
            &&& (final(ctx).table@[fd].resource matches Resource::File(f1) && f1.kind()
                == f0.kind() && f1.style() == f0.style() && f1.is_tty() == f0.is_tty())
            &&& final(ctx).table@[fd].rights == old(ctx).table@[fd].rights
            &&& final(ctx).table@ == old(ctx).table@.insert(fd, final(ctx).table@[fd])
        }),
        !old(ctx).table@.dom().contains(fd) ==> r == Err::<u64, DispatchError>(
            errno(ErrorKind::BadHandle),
        ) && final(ctx).table@ == old(ctx).table@,
        old(ctx).table@.dom().contains(fd) && old(ctx).table@[fd].resource is Dir ==> r == Err::<
            u64,
            DispatchError,
        >(errno(ErrorKind::NotSupported)) && final(ctx).table@ == old(ctx).table@,
        r matches Ok(p) ==> {
            &&& old(ctx).table@.dom().contains(fd)
            &&& old(ctx).table@[fd].resource matches Resource::File(f) && p == seek_target(
                f.data().len(),
                f.cursor(),
                whence,
                delta,
            ) && (final(ctx).table@[fd].resource matches Resource::File(f2) && f2.data() == f.data()
                && f2.cursor() == p && f2.kind() == f.kind())
            &&& final(ctx).table@ == old(ctx).table@.insert(fd, final(ctx).table@[fd])
        },
{
    let res = match ctx.table.remove(fd) {
        Ok(res) => res,
        Err(e) => {
            proof {
                assert(ctx.table@ =~= old(ctx).table@);
            }
            return Err(encode_error(&e));
        },
    };
    let rights = res.rights;
    match res.resource {
        Resource::Dir(d) => {
            ctx.table.insert_at(fd, ResourceEntry { resource: Resource::Dir(d), rights });
            proof {
                assert(ctx.table@ =~= old(ctx).table@);
            }
            Err(DispatchError::Errno(crate::error::errno_of(ErrorKind::NotSupported)))
        },
        Resource::File(mut f) => {
            let out = f.seek(whence, delta);
            ctx.table.insert_at(fd, ResourceEntry { resource: Resource::File(f), rights });
            match out {
                Ok(p) => Ok(p),
                Err(e) => Err(encode_error(&e)),
            }
        },
    }
}

/// This snapshot does not carry directory enumeration: a call shaped for
/// it fails with the not-supported code, touching nothing, rather than
/// silently behaving like the later snapshot.
pub fn fd_readdir<
    D: WasiDir,
    M: WasiMonotonicClock,
    S: WasiSystemClock,
    R: RandomSource,
    Y: WasiSched,
>(ctx: &WasiCtx<D, M, S, R, Y>, fd: u32, cookie: u64) -> (r: Result<ReaddirPage, DispatchError>)
    ensures
        r == Err::<ReaddirPage, DispatchError>(errno(ErrorKind::NotSupported)),
{
    Err(DispatchError::Errno(crate::error::errno_of(ErrorKind::NotSupported)))
}

/// Read a clock, as the later snapshot does; only the result's wire
/// encoding differs between the two, not the reading.
pub fn clock_time_get<
    D: WasiDir,
    M: WasiMonotonicClock,
    S: WasiSystemClock,
    R: RandomSource,
    Y: WasiSched,
>(ctx: &mut WasiCtx<D, M, S, R, Y>, id: ClockId) -> (r: Result<u64, DispatchError>)
    requires
        old(ctx).wf(),
    ensures
        final(ctx).wf(),
        final(ctx).same_non_table(old(ctx)),
        final(ctx).table@ == old(ctx).table@,
        r is Ok,
        id == ClockId::Monotonic ==> (r matches Ok(t) && t >= old(ctx).clocks.monotonic.reading() && final(ctx).clocks.monotonic.reading() == t),
        final(ctx).clocks.monotonic.reading() >= old(ctx).clocks.monotonic.reading(),
{
    match id {
        ClockId::Monotonic => Ok(ctx.clocks.monotonic.now()),
        ClockId::Realtime => Ok(ctx.clocks.system.now()),
    }
}

/// Fill a buffer of `len` bytes from the context's randomness source;
/// the bytes are the source's, and so is any failure.
pub fn random_get<
    D: WasiDir,
    M: WasiMonotonicClock,
    S: WasiSystemClock,
    R: RandomSource,
    Y: WasiSched,
>(ctx: &mut WasiCtx<D, M, S, R, Y>, len: usize) -> (r: Result<Vec<u8>, DispatchError>)
    requires
        old(ctx).wf(),
    ensures
        final(ctx).wf(),
        final(ctx).same_non_table(old(ctx)),
        final(ctx).table@ == old(ctx).table@,
        r matches Ok(buf) ==> buf@.len() == len,
{
    match ctx.random.get_bytes(len) {
        Ok(buf) => Ok(buf),
        Err(e) => Err(encode_error(&e)),
    }
}

/// The guest asks to terminate; the signal propagates past the
/// dispatcher, exactly as in the later snapshot.
pub fn proc_exit<
    D: WasiDir,
    M: WasiMonotonicClock,
    S: WasiSystemClock,
    R: RandomSource,
    Y: WasiSched,
>(ctx: &mut WasiCtx<D, M, S, R, Y>, code: i32) -> (r: DispatchError)
    requires
        old(ctx).wf(),
    ensures
        final(ctx).wf(),
        r == DispatchError::Exit(code),
        r == spec_encode_error(Error::RequestedExit(code)),
        final(ctx).exit_status == Some(code),
        final(ctx).table@ == old(ctx).table@,
        final(ctx).args == old(ctx).args,
        final(ctx).env == old(ctx).env,
{
    ctx.exit_status = Some(code);
    encode_error(&Error::RequestedExit(code))
}

/// Evaluate a subscription set once, never blocking, with this snapshot's
/// error encoding. The evaluation below is the one the later snapshot
/// uses; what differs on the wire is the subscription and event layout,
/// which the marshaling layer has already decoded.
pub fn poll_oneoff<
    D: WasiDir,
    M: WasiMonotonicClock,
    S: WasiSystemClock,
    R: RandomSource,
    Y: WasiSched,
>(ctx: &mut WasiCtx<D, M, S, R, Y>, subs: &Vec<Subscription>) -> (r: Result<
    PollDecision,
    DispatchError,
>)
    requires
        old(ctx).wf(),
    ensures
        final(ctx).wf(),
        final(ctx).same_non_table(old(ctx)),
        final(ctx).table@ == old(ctx).table@,
        final(ctx).clocks.monotonic.reading() >= old(ctx).clocks.monotonic.reading(),
        (subs@.len() == 0) <==> (r == Err::<PollDecision, DispatchError>(
            errno(ErrorKind::InvalidArgument),
        )),
        r is Err ==> subs@.len() == 0,
        r matches Ok(PollDecision::Events(out)) ==> {
            &&& out@.len() > 0
            &&& forall|i: int|
                #![auto]
                0 <= i < subs@.len() && definitely_ready(
                    old(ctx).table@,
                    final(ctx).clocks.monotonic.reading(),
                    subs@[i],
                ) ==> has_event(out@, sub_userdata(subs@[i]))
            &&& forall|i: int|
                #![auto]
                0 <= i < subs@.len() && names_dead_handle(old(ctx).table@, subs@[i])
                    ==> has_err_event(out@, sub_userdata(subs@[i]), ErrorKind::BadHandle)
            &&& forall|k: int| 0 <= k < out@.len() ==> event_has_source(subs@, #[trigger] out@[k])
        },
        r matches Ok(PollDecision::Wait(d)) ==> {
            &&& forall|i: int|
                #![auto]
                0 <= i < subs@.len() ==> !definitely_ready(
                    old(ctx).table@,
                    final(ctx).clocks.monotonic.reading(),
                    subs@[i],
                )
            &&& d == min_deadline(subs@)
        },
{
    let now = ctx.clocks.monotonic.now();
    match crate::sched::poll_oneoff(&ctx.table, now, subs) {
        Ok(d) => Ok(d),
        Err(e) => Err(encode_error(&e)),
    }
}

} // verus!
