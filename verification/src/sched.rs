//! The scheduler abstraction — cooperative yield and "wait on a set of
//! handles and timeouts" — and the poll evaluation itself.
//!
//! Evaluating a subscription set never blocks: it returns the full set of
//! events that are ready right now (readiness is level-triggered), or the
//! deadline worth waiting for when nothing is. Blocking is the
//! embedding's: it parks on the scheduler and evaluates again.

use vstd::prelude::*;

use crate::ctx::{Resource, ResourceEntry};
use crate::dir::WasiDir;
use crate::error::{Error, ErrorKind};
use crate::file::{FileType, WasiFile};
use crate::table::Table;

verus! {

/// What a guest invocation may wait on: a scheduler that can give other
/// work a turn and park until a deadline may have passed or a handle may
/// have become ready. A scheduler may wake spuriously, so nothing is
/// promised of either operation; the poll evaluation is re-run after
/// every wake.
pub trait WasiSched: Sized {
    /// Cooperative yield: give other guests a turn; no minimum delay.
    fn sched_yield(&mut self) -> (r: Result<(), Error>);

    /// Park the calling invocation until the monotonic clock may have
    /// reached `deadline` (forever when `None`) or an event may be
    /// pending.
    fn park(&mut self, deadline: Option<u64>) -> (r: Result<(), Error>);
}

/// The scheduler of a fully synchronous embedding: every capability call
/// runs to completion on the calling thread, so there is never anything
/// to wait for and both operations return at once.
pub struct SyncSched {}

impl SyncSched {
    /// A synchronous scheduler.
    pub fn new() -> SyncSched {
        SyncSched {  }
    }
}

impl WasiSched for SyncSched {
    fn sched_yield(&mut self) -> (r: Result<(), Error>) {
        Ok(())
    }

    fn park(&mut self, deadline: Option<u64>) -> (r: Result<(), Error>) {
        Ok(())
    }
}

/// One thing a poll waits on: a monotonic-clock deadline, or a handle
/// becoming readable or writable. The userdata is echoed in the event so
/// the guest can tell which subscription fired.
#[derive(Clone, Copy, PartialEq, Eq, Debug)]
pub enum Subscription {
    MonotonicDeadline { userdata: u64, deadline: u64 },
    ReadReady { userdata: u64, handle: u32 },
    WriteReady { userdata: u64, handle: u32 },
}

/// One ready event: the subscription's userdata, and either a byte count
/// (how much a read could take without blocking; zero for deadline and
/// write events) or the kind of failure that subscription alone ran into.
#[derive(Clone, Copy, PartialEq, Eq, Debug)]
pub struct Event {
    pub userdata: u64,
    pub outcome: Result<u64, ErrorKind>,
}

/// What one evaluation of a subscription set decides: at least one event
/// is ready and here is the full set, or nothing is and the caller should
/// wait — until the given monotonic deadline, or indefinitely when the
/// set holds none.
pub enum PollDecision {
    Events(Vec<Event>),
    Wait(Option<u64>),
}

/// The userdata a subscription carries.
pub open spec fn sub_userdata(s: Subscription) -> u64 {
    match s {
        Subscription::MonotonicDeadline { userdata, deadline } => userdata,
        Subscription::ReadReady { userdata, handle } => userdata,
        Subscription::WriteReady { userdata, handle } => userdata,
    }
}

/// Whether a subscription names a handle that is not live.
pub open spec fn names_dead_handle<D: WasiDir>(t: Map<u32, ResourceEntry<D>>, s: Subscription) -> bool {
    match s {
        Subscription::MonotonicDeadline { userdata, deadline } => false,
        Subscription::ReadReady { userdata, handle } => !t.dom().contains(handle),
        Subscription::WriteReady { userdata, handle } => !t.dom().contains(handle),
    }
}

/// Whether the evaluation itself can already see that a subscription
/// yields an event: its deadline has passed, it names a dead handle or a
/// directory, it waits to write (always possible here), or it waits to
/// read a regular file (always readable, level-triggered). A pipe-like
/// file with bytes pending is ready too, but that is the backend's to
/// report.
pub open spec fn definitely_ready<D: WasiDir>(
    t: Map<u32, ResourceEntry<D>>,
    now: u64,
    s: Subscription,
) -> bool {
    match s {
        Subscription::MonotonicDeadline { userdata, deadline } => deadline <= now,
        Subscription::ReadReady { userdata, handle } => !t.dom().contains(handle) || !(
        t[handle].resource is File) || (t[handle].resource matches Resource::File(f) && f.kind()
            == FileType::RegularFile),
        Subscription::WriteReady { userdata, handle } => true,
    }
}

/// Whether some event of `out` answers userdata `u`.
pub open spec fn has_event(out: Seq<Event>, u: u64) -> bool {
    exists|k: int| #![auto] 0 <= k < out.len() && out[k].userdata == u
}

/// Whether some event of `out` answers userdata `u` with failure `k`.
pub open spec fn has_err_event(out: Seq<Event>, u: u64, e: ErrorKind) -> bool {
    exists|k: int| #![auto] 0 <= k < out.len() && out[k].userdata == u && out[k].outcome == Err::<
        u64,
        ErrorKind,
    >(e)
}

/// Whether an event answers some subscription of the set: its userdata is
/// one the set carries.
pub open spec fn event_has_source(subs: Seq<Subscription>, e: Event) -> bool {
    exists|i: int| #![auto] 0 <= i < subs.len() && sub_userdata(subs[i]) == e.userdata
}

/// The earliest monotonic deadline in the set, if it holds any.
pub open spec fn min_deadline(subs: Seq<Subscription>) -> Option<u64>
    decreases subs.len(),
{
    if subs.len() == 0 {
        None
    } else {
        let rest = min_deadline(subs.drop_last());
        match subs.last() {
            Subscription::MonotonicDeadline { userdata, deadline } => match rest {
                None => Some(deadline),
                Some(m) => Some(
                    if deadline < m {
                        deadline
                    } else {
                        m
                    },
                ),
            },
            _ => rest,
        }
    }
}

/// Evaluate every subscription against the table and the monotonic clock
/// reading `now`, without blocking, and collect the full set of events
/// that are ready at this instant. A subscription naming a dead handle
/// fails by itself, with a `BadHandle` event, without disturbing the
/// others.
fn poll_ready<D: WasiDir>(table: &Table<ResourceEntry<D>>, now: u64, subs: &Vec<Subscription>) -> (out:
    Vec<Event>)
    ensures
        forall|i: int|
            #![auto]
            0 <= i < subs@.len() && definitely_ready(table@, now, subs@[i]) ==> has_event(
                out@,
                sub_userdata(subs@[i]),
            ),
        forall|i: int|
            #![auto]
            0 <= i < subs@.len() && names_dead_handle(table@, subs@[i]) ==> has_err_event(
                out@,
                sub_userdata(subs@[i]),
                ErrorKind::BadHandle,
            ),
        forall|k: int| 0 <= k < out@.len() ==> event_has_source(subs@, #[trigger] out@[k]),
{
    let mut out: Vec<Event> = Vec::new();
    let mut idx: usize = 0;
    while idx < subs.len()
        invariant
            idx <= subs@.len(),
            forall|i: int|
                #![auto]
                0 <= i < idx && definitely_ready(table@, now, subs@[i]) ==> has_event(
                    out@,
                    sub_userdata(subs@[i]),
                ),
            forall|i: int|
                #![auto]
                0 <= i < idx && names_dead_handle(table@, subs@[i]) ==> has_err_event(
                    out@,
                    sub_userdata(subs@[i]),
                    ErrorKind::BadHandle,
                ),
            forall|k: int| 0 <= k < out@.len() ==> event_has_source(subs@, #[trigger] out@[k]),
        decreases subs@.len() - idx,
    {
        let s = subs[idx];
        let ghost out0 = out@;
        match s {
            Subscription::MonotonicDeadline { userdata, deadline } => {
                if deadline <= now {
                    out.push(Event { userdata, outcome: Ok(0) });
                    proof {
                        assert(out@[out@.len() - 1].userdata == sub_userdata(s));
                    }
                }
            },
            Subscription::ReadReady { userdata, handle } => {
                match table.get(handle) {
                    Err(_) => {
                        out.push(Event { userdata, outcome: Err(ErrorKind::BadHandle) });
                        proof {
                            assert(out@[out@.len() - 1].userdata == sub_userdata(s));
                        }
                    },
                    Ok(entry) => match &entry.resource {
                        Resource::Dir(_) => {
                            out.push(Event { userdata, outcome: Err(ErrorKind::NotSupported) });
                            proof {
                                assert(out@[out@.len() - 1].userdata == sub_userdata(s));
                            }
                        },
                        Resource::File(f) => {
                            let ft = f.filetype();
                            match f.num_ready_bytes() {
                                Ok(n) => {
                                    if n > 0 || ft == FileType::RegularFile {
                                        out.push(Event { userdata, outcome: Ok(n) });
                                        proof {
                                            assert(out@[out@.len() - 1].userdata == sub_userdata(
                                                s,
                                            ));
                                        }
                                    }
                                },
                                Err(Error::Kind(k)) => {
                                    out.push(Event { userdata, outcome: Err(k) });
                                    proof {
                                        assert(out@[out@.len() - 1].userdata == sub_userdata(s));
                                    }
                                },
                                Err(_) => {
                                    out.push(Event { userdata, outcome: Err(ErrorKind::Io) });
                                    proof {
                                        assert(out@[out@.len() - 1].userdata == sub_userdata(s));
                                    }
                                },
                            }
                        },
                    },
                }
            },
            Subscription::WriteReady { userdata, handle } => {
                match table.get(handle) {
                    Err(_) => {
                        out.push(Event { userdata, outcome: Err(ErrorKind::BadHandle) });
                        proof {
                            assert(out@[out@.len() - 1].userdata == sub_userdata(s));
                        }
                    },
                    Ok(entry) => match &entry.resource {
                        Resource::Dir(_) => {
                            out.push(Event { userdata, outcome: Err(ErrorKind::NotSupported) });
                            proof {
                                assert(out@[out@.len() - 1].userdata == sub_userdata(s));
                            }
                        },
                        Resource::File(_) => {
                            out.push(Event { userdata, outcome: Ok(0) });
                            proof {
                                assert(out@[out@.len() - 1].userdata == sub_userdata(s));
                            }
                        },
                    },
                }
            },
        }
        proof {
            assert(out0.len() <= out@.len());
            assert forall|u: u64| has_event(out0, u) implies has_event(out@, u) by {
                let k = choose|k: int| #![auto] 0 <= k < out0.len() && out0[k].userdata == u;
                assert(out@[k].userdata == u);
            }
            assert forall|u: u64, e: ErrorKind| has_err_event(out0, u, e) implies has_err_event(
                out@,
                u,
                e,
            ) by {
                let k = choose|k: int|
                    #![auto]
                    0 <= k < out0.len() && out0[k].userdata == u && out0[k].outcome == Err::<
                        u64,
                        ErrorKind,
                    >(e);
                assert(out@[k].userdata == u && out@[k].outcome == Err::<u64, ErrorKind>(e));
            }
            assert forall|k: int| out0.len() <= k < out@.len() implies event_has_source(
                subs@,
                #[trigger] out@[k],
            ) by {
                assert(out@[k].userdata == sub_userdata(subs@[idx as int]));
            }
        }
        idx = idx + 1;
    }
    out
}

/// Evaluate a subscription set once, without ever blocking.
///
/// An empty set is an error — `InvalidArgument`, with no events — and
/// exactly an empty set is. Otherwise: if at least one subscription is
/// ready (a deadline already in the past is; so is one naming a dead
/// handle, which fails by itself with `BadHandle` without aborting the
/// others), the full set of ready events comes back at once. Only when no
/// event is ready does the decision say to wait, and for how long: the
/// earliest deadline in the set, or indefinitely when it holds none.
pub fn poll_oneoff<D: WasiDir>(
    table: &Table<ResourceEntry<D>>,
    now: u64,
    subs: &Vec<Subscription>,
) -> (r: Result<PollDecision, Error>)
    ensures
        (subs@.len() == 0) <==> (r == Err::<PollDecision, Error>(
            Error::Kind(ErrorKind::InvalidArgument),
        )),
        r is Err ==> subs@.len() == 0,
        r matches Ok(PollDecision::Events(out)) ==> {
            &&& out@.len() > 0
            &&& forall|i: int|
                #![auto]
                0 <= i < subs@.len() && definitely_ready(table@, now, subs@[i]) ==> has_event(
                    out@,
                    sub_userdata(subs@[i]),
                )
            &&& forall|i: int|
                #![auto]
                0 <= i < subs@.len() && names_dead_handle(table@, subs@[i]) ==> has_err_event(
                    out@,
                    sub_userdata(subs@[i]),
                    ErrorKind::BadHandle,
                )
            &&& forall|k: int| 0 <= k < out@.len() ==> event_has_source(subs@, #[trigger] out@[k])
        },
        r matches Ok(PollDecision::Wait(d)) ==> {
            &&& forall|i: int|
                #![auto]
                0 <= i < subs@.len() ==> !definitely_ready(table@, now, subs@[i])
            &&& d == min_deadline(subs@)
        },
{
    if subs.len() == 0 {
        return Err(Error::Kind(ErrorKind::InvalidArgument));
    }
    let events = poll_ready(table, now, subs);
    if events.len() > 0 {
        Ok(PollDecision::Events(events))
    } else {
        let mut best: Option<u64> = None;
        let mut j: usize = 0;
        while j < subs.len()
            invariant
                j <= subs@.len(),
                best == min_deadline(subs@.take(j as int)),
            decreases subs@.len() - j,
        {
            proof {
                assert(subs@.take(j as int + 1).drop_last() =~= subs@.take(j as int));
            }
            match subs[j] {
                Subscription::MonotonicDeadline { userdata, deadline } => {
                    best = match best {
                        None => Some(deadline),
                        Some(m) => Some(
                            if deadline < m {
                                deadline
                            } else {
                                m
                            },
                        ),
                    };
                },
                _ => {},
            }
            j = j + 1;
        }
        proof {
            assert(subs@.take(subs@.len() as int) =~= subs@);
        }
        Ok(PollDecision::Wait(best))
    }
}

} // verus!
