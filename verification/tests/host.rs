use wasi_common::clocks::{ClockId, VirtualMonotonicClock, VirtualSystemClock, WasiClocks};
use wasi_common::ctx::{Resource, Rights, WasiCtx};
use wasi_common::dir::{MemDir, OpenOptions, ReaddirPage, WasiDir};
use wasi_common::error::{
    errno_of, exit_disposition, DispatchError, Error, ErrorKind, ExitDisposition,
};
use wasi_common::file::{FileType, MemFile, Whence, WasiFile};
use wasi_common::random::{Deterministic, OsRandom, RandomSource};
use wasi_common::sched::{PollDecision, Subscription, SyncSched};
use wasi_common::string_array::{StringArray, StringArrayError};
use wasi_common::table::Table;
use wasi_common::{preview0, preview1};

type Ctx = WasiCtx<MemDir, VirtualMonotonicClock, VirtualSystemClock, Deterministic, SyncSched>;

fn new_ctx() -> Ctx {
    let clocks = WasiClocks {
        system: VirtualSystemClock::new(1_000, 1),
        monotonic: VirtualMonotonicClock::new(0, 1),
    };
    let args = StringArray::from_elements(vec![b"prog".to_vec(), b"arg1".to_vec()]).unwrap();
    let env = StringArray::from_elements(vec![b"HOME=/".to_vec()]).unwrap();
    WasiCtx::new(clocks, Deterministic::new(7), SyncSched::new(), args, env)
}

fn open_opts() -> OpenOptions {
    OpenOptions { create: false, exclusive: false, truncate: false, directory: false, follow: true }
}

const ERRNO_BADF: u16 = 8;
const ERRNO_EXIST: u16 = 20;
const ERRNO_INVAL: u16 = 28;
const ERRNO_NOENT: u16 = 44;
const ERRNO_NOTSUP: u16 = 58;

#[test]
fn table_handles_are_unique_across_insert_remove() {
    let mut t: Table<u64> = Table::new();
    let a = t.insert(10);
    let b = t.insert(20);
    let c = t.insert(30);
    assert_ne!(a, b);
    assert_ne!(b, c);
    assert_ne!(a, c);
    assert_eq!(t.remove(b).unwrap(), 20);
    // The freed slot's numeric value may come back, but only from a later
    // insert; it never aliases the still-live entries.
    let d = t.insert(40);
    assert_ne!(d, a);
    assert_ne!(d, c);
    assert_eq!(*t.get(a).unwrap(), 10);
    assert_eq!(*t.get(c).unwrap(), 30);
    assert_eq!(*t.get(d).unwrap(), 40);
}

#[test]
fn capability_mismatch_fails_without_false_view() {
    let mut ctx = new_ctx();
    ctx.insert_preopen(3, Resource::Dir(MemDir::new()), None);
    ctx.insert_preopen(4, Resource::File(MemFile::new()), None);
    // A file-only operation on a directory handle.
    assert_eq!(
        preview1::fd_read(&mut ctx, 3, 16),
        Err(DispatchError::Errno(ERRNO_NOTSUP))
    );
    // A directory-only operation on a file handle.
    assert!(matches!(
        preview1::fd_readdir(&ctx, 4, 0),
        Err(DispatchError::Errno(ERRNO_NOTSUP))
    ));
    // The typed lookups themselves report the mismatch, not a false view.
    assert!(matches!(ctx.get_file(3), Err(Error::Kind(ErrorKind::NotSupported))));
    assert!(matches!(ctx.get_dir(4), Err(Error::Kind(ErrorKind::NotSupported))));
    assert!(matches!(ctx.get_file(99), Err(Error::Kind(ErrorKind::BadHandle))));
    assert!(ctx.get_file(4).is_ok());
    assert!(ctx.get_dir(3).is_ok());
    // Both entries are still live and still what they were.
    assert_eq!(preview1::fd_filetype(&ctx, 3), Ok(FileType::Directory));
    assert_eq!(preview1::fd_filetype(&ctx, 4), Ok(FileType::RegularFile));
}

#[test]
fn monotonic_clock_never_regresses() {
    let mut ctx = new_ctx();
    let t1 = preview1::clock_time_get(&mut ctx, ClockId::Monotonic).unwrap();
    ctx.clocks.monotonic.advance(25);
    let t2 = preview1::clock_time_get(&mut ctx, ClockId::Monotonic).unwrap();
    ctx.clocks.monotonic.advance(0);
    let t3 = preview1::clock_time_get(&mut ctx, ClockId::Monotonic).unwrap();
    assert!(t1 <= t2);
    assert!(t2 <= t3);
    assert_eq!(t2, t1 + 25);
}

#[test]
fn poll_with_past_deadline_returns_immediately() {
    let mut ctx = new_ctx();
    ctx.clocks.monotonic.advance(100);
    let subs = vec![
        Subscription::MonotonicDeadline { userdata: 11, deadline: 40 },
        Subscription::MonotonicDeadline { userdata: 12, deadline: 1_000_000 },
    ];
    match preview1::poll_oneoff(&mut ctx, &subs).unwrap() {
        PollDecision::Events(events) => {
            assert_eq!(events.len(), 1);
            assert_eq!(events[0].userdata, 11);
            assert_eq!(events[0].outcome, Ok(0));
        }
        PollDecision::Wait(_) => panic!("a satisfied subscription must not wait"),
    }
}

#[test]
fn poll_with_no_ready_subscription_waits_until_earliest_deadline() {
    let mut ctx = new_ctx();
    let subs = vec![
        Subscription::MonotonicDeadline { userdata: 1, deadline: 900 },
        Subscription::MonotonicDeadline { userdata: 2, deadline: 300 },
    ];
    match preview1::poll_oneoff(&mut ctx, &subs).unwrap() {
        PollDecision::Wait(d) => assert_eq!(d, Some(300)),
        PollDecision::Events(_) => panic!("nothing is ready yet"),
    }
}

#[test]
fn poll_with_empty_set_is_invalid_argument() {
    let mut ctx = new_ctx();
    let subs: Vec<Subscription> = Vec::new();
    assert!(matches!(
        preview1::poll_oneoff(&mut ctx, &subs),
        Err(DispatchError::Errno(ERRNO_INVAL))
    ));
}

#[test]
fn poll_reports_dead_handle_without_aborting_others() {
    let mut ctx = new_ctx();
    ctx.clocks.monotonic.advance(10);
    let subs = vec![
        Subscription::ReadReady { userdata: 5, handle: 99 },
        Subscription::MonotonicDeadline { userdata: 6, deadline: 5 },
    ];
    match preview1::poll_oneoff(&mut ctx, &subs).unwrap() {
        PollDecision::Events(events) => {
            assert_eq!(events.len(), 2);
            assert_eq!(events[0].userdata, 5);
            assert_eq!(events[0].outcome, Err(ErrorKind::BadHandle));
            assert_eq!(events[1].userdata, 6);
            assert_eq!(events[1].outcome, Ok(0));
        }
        PollDecision::Wait(_) => panic!("two subscriptions are ready"),
    }
}

#[test]
fn renumber_preserves_the_resource_and_kills_the_old_handle() {
    let mut ctx = new_ctx();
    ctx.insert_preopen(3, Resource::Dir(MemDir::new()), None);
    let h = {
        let mut opts = open_opts();
        opts.create = true;
        preview1::path_open(&mut ctx, 3, &b"data.bin".to_vec(), &opts).unwrap()
    };
    let payload = b"xyz".to_vec();
    assert_eq!(preview1::fd_write(&mut ctx, h, &payload), Ok(3));
    assert_eq!(preview1::fd_renumber(&mut ctx, h, 9), Ok(()));
    // The resource behind the new handle is the very same one: its cursor
    // still sits after the three written bytes.
    assert_eq!(preview1::fd_seek(&mut ctx, 9, Whence::Current, 0), Ok(3));
    // The original handle no longer resolves.
    assert_eq!(
        preview1::fd_seek(&mut ctx, h, Whence::Current, 0),
        Err(DispatchError::Errno(ERRNO_BADF))
    );
}

#[test]
fn preopen_open_write_close_scenario() {
    let mut ctx = new_ctx();
    ctx.insert_preopen(0, Resource::File(MemFile::new_tty()), None);
    ctx.insert_preopen(1, Resource::File(MemFile::new_tty()), None);
    ctx.insert_preopen(2, Resource::File(MemFile::new_tty()), None);
    ctx.insert_preopen(3, Resource::Dir(MemDir::new()), None);
    let mut opts = open_opts();
    opts.create = true;
    let h = preview1::path_open(&mut ctx, 3, &b"foo.txt".to_vec(), &opts).unwrap();
    assert_eq!(h, 4);
    assert_eq!(preview1::fd_filetype(&ctx, 4), Ok(FileType::RegularFile));
    let five = b"hello".to_vec();
    assert_eq!(preview1::fd_write(&mut ctx, 4, &five), Ok(5));
    assert_eq!(preview1::fd_close(&mut ctx, 4), Ok(()));
    assert_eq!(
        preview1::fd_filetype(&ctx, 4),
        Err(DispatchError::Errno(ERRNO_BADF))
    );
    // The directory now lists the created child.
    let page = preview1::fd_readdir(&ctx, 3, 0).unwrap();
    assert_eq!(page.entries.len(), 1);
    assert_eq!(page.entries[0].name, b"foo.txt".to_vec());
    assert_eq!(page.entries[0].kind, FileType::RegularFile);
}

#[test]
fn readdir_resumed_from_cookie_re_emits_nothing() {
    let mut dir = MemDir::new();
    let mut opts = open_opts();
    opts.create = true;
    for i in 0..70u32 {
        let name = format!("f{:03}", i).into_bytes();
        dir.open_child(&name, &opts).unwrap();
    }
    let first: ReaddirPage = dir.readdir(0).unwrap();
    assert_eq!(first.entries.len(), 64);
    assert!(!first.at_end);
    let cookie = first.next_cookie;
    assert_eq!(cookie, 64);
    let second = dir.readdir(cookie).unwrap();
    assert_eq!(second.entries.len(), 6);
    assert!(second.at_end);
    for e2 in &second.entries {
        for e1 in &first.entries {
            assert_ne!(e1.name, e2.name);
        }
    }
}

#[test]
fn preview0_shaped_call_for_absent_function_is_not_supported() {
    let mut ctx = new_ctx();
    ctx.insert_preopen(3, Resource::Dir(MemDir::new()), None);
    // The earlier snapshot does not carry directory enumeration: the call
    // must fail with the not-supported code, not borrow the later
    // snapshot's behaviour — even though the very same context serves the
    // later snapshot's call fine.
    assert!(matches!(
        preview0::fd_readdir(&ctx, 3, 0),
        Err(DispatchError::Errno(ERRNO_NOTSUP))
    ));
    assert!(preview1::fd_readdir(&ctx, 3, 0).is_ok());
}

#[test]
fn seek_origin_numbering_differs_between_snapshots() {
    assert_eq!(preview0::decode_whence(0), Ok(Whence::Current));
    assert_eq!(preview0::decode_whence(1), Ok(Whence::End));
    assert_eq!(preview0::decode_whence(2), Ok(Whence::Start));
    assert_eq!(preview1::decode_whence(0), Ok(Whence::Start));
    assert_eq!(preview1::decode_whence(1), Ok(Whence::Current));
    assert_eq!(preview1::decode_whence(2), Ok(Whence::End));
    assert_eq!(
        preview0::decode_whence(3),
        Err(DispatchError::Errno(ERRNO_INVAL))
    );
    assert_eq!(
        preview1::decode_whence(7),
        Err(DispatchError::Errno(ERRNO_INVAL))
    );
}

#[test]
fn both_snapshots_serve_one_context() {
    let mut ctx = new_ctx();
    ctx.insert_preopen(3, Resource::Dir(MemDir::new()), None);
    let mut opts = open_opts();
    opts.create = true;
    let h = preview1::path_open(&mut ctx, 3, &b"shared".to_vec(), &opts).unwrap();
    assert_eq!(preview1::fd_write(&mut ctx, h, &b"abcdef".to_vec()), Ok(6));
    // The earlier snapshot reads the same resource through the same table.
    assert_eq!(preview0::fd_seek(&mut ctx, h, Whence::Start, 0), Ok(0));
    assert_eq!(preview0::fd_read(&mut ctx, h, 6).unwrap(), b"abcdef".to_vec());
    assert_eq!(preview0::fd_close(&mut ctx, h), Ok(()));
}

#[test]
fn proc_exit_propagates_and_fills_the_exit_slot() {
    let mut ctx = new_ctx();
    let sig = preview1::proc_exit(&mut ctx, 17);
    assert_eq!(sig, DispatchError::Exit(17));
    assert_eq!(ctx.exit_status, Some(17));
}

#[test]
fn exit_disposition_follows_platform_conventions() {
    assert_eq!(
        exit_disposition(&Error::RequestedExit(17), false),
        ExitDisposition::Terminate(17)
    );
    assert_eq!(
        exit_disposition(&Error::RequestedExit(17), true),
        ExitDisposition::Terminate(1)
    );
    assert_eq!(
        exit_disposition(&Error::RequestedExit(2), true),
        ExitDisposition::Terminate(2)
    );
    assert_eq!(exit_disposition(&Error::Trap, false), ExitDisposition::Terminate(134));
    assert_eq!(exit_disposition(&Error::Trap, true), ExitDisposition::Terminate(3));
    assert_eq!(
        exit_disposition(&Error::Kind(ErrorKind::Io), false),
        ExitDisposition::Propagate
    );
}

#[test]
fn errno_codes_are_the_wasi_numbers() {
    assert_eq!(errno_of(ErrorKind::BadHandle), ERRNO_BADF);
    assert_eq!(errno_of(ErrorKind::InvalidArgument), ERRNO_INVAL);
    assert_eq!(errno_of(ErrorKind::NotFound), ERRNO_NOENT);
    assert_eq!(errno_of(ErrorKind::AlreadyExists), ERRNO_EXIST);
    assert_eq!(errno_of(ErrorKind::NotSupported), ERRNO_NOTSUP);
    assert_eq!(errno_of(ErrorKind::PermissionDenied), 2);
    assert_eq!(errno_of(ErrorKind::Interrupted), 27);
    assert_eq!(errno_of(ErrorKind::Io), 29);
    assert_eq!(errno_of(ErrorKind::TooManyHandles), 33);
    assert_eq!(errno_of(ErrorKind::NoSpace), 51);
    assert_eq!(errno_of(ErrorKind::Overflow), 61);
}

#[test]
fn mem_file_write_read_seek_and_gap_fill() {
    let mut f = MemFile::new();
    assert_eq!(f.write_at(3, &b"ab".to_vec()), Ok(2));
    assert_eq!(f.contents(), vec![0, 0, 0, b'a', b'b']);
    assert_eq!(f.seek(Whence::End, -2), Ok(3));
    assert_eq!(f.read_cursor(10).unwrap(), b"ab".to_vec());
    assert_eq!(f.seek(Whence::Start, -1), Err(Error::Kind(ErrorKind::InvalidArgument)));
    assert_eq!(f.set_size(2), Ok(()));
    assert_eq!(f.contents(), vec![0, 0]);
    assert_eq!(f.set_size(4), Ok(()));
    assert_eq!(f.contents(), vec![0, 0, 0, 0]);
    assert_eq!(f.num_ready_bytes(), Ok(0));
    assert_eq!(f.seek(Whence::Start, 1), Ok(1));
    assert_eq!(f.num_ready_bytes(), Ok(3));
}

#[test]
fn mem_dir_rename_link_and_symlink() {
    let mut d = MemDir::new();
    let mut opts = open_opts();
    opts.create = true;
    d.open_child(&b"a".to_vec(), &opts).unwrap();
    assert_eq!(d.create_dir(&b"sub".to_vec()), Ok(()));
    assert_eq!(
        d.create_dir(&b"a".to_vec()),
        Err(Error::Kind(ErrorKind::AlreadyExists))
    );
    assert_eq!(d.rename(&b"a".to_vec(), &b"b".to_vec()), Ok(()));
    assert_eq!(
        d.remove_file(&b"a".to_vec()),
        Err(Error::Kind(ErrorKind::NotFound))
    );
    assert_eq!(d.symlink(&b"b".to_vec(), &b"lnk".to_vec()), Ok(()));
    assert_eq!(d.read_link(&b"lnk".to_vec()).unwrap(), b"b".to_vec());
    assert_eq!(d.stat_at(&b"lnk".to_vec(), false).unwrap().filetype, FileType::SymbolicLink);
    assert_eq!(d.stat_at(&b"lnk".to_vec(), true).unwrap().filetype, FileType::RegularFile);
    assert_eq!(d.hard_link(&b"b".to_vec(), &b"b2".to_vec()), Ok(()));
    let ino_b = d.readdir(0).unwrap().entries.iter().find(|e| e.name == b"b".to_vec()).unwrap().ino;
    let ino_b2 =
        d.readdir(0).unwrap().entries.iter().find(|e| e.name == b"b2".to_vec()).unwrap().ino;
    assert_eq!(ino_b, ino_b2);
    assert_eq!(d.remove_dir(&b"sub".to_vec()), Ok(()));
    assert_eq!(
        d.remove_dir(&b"b".to_vec()),
        Err(Error::Kind(ErrorKind::NotSupported))
    );
}

#[test]
fn string_arrays_validate_and_flatten() {
    let sa = StringArray::from_elements(vec![b"a".to_vec(), b"bb".to_vec()]).unwrap();
    assert_eq!(sa.number_elements(), 2);
    assert_eq!(sa.cumulative_size(), 5);
    assert_eq!(sa.flatten(), b"a\0bb\0".to_vec());
    assert!(matches!(
        StringArray::from_elements(vec![b"a\0b".to_vec()]),
        Err(StringArrayError::Nul)
    ));
}

#[test]
fn args_and_environ_through_the_dispatcher() {
    let mut ctx = new_ctx();
    let (argc, argv_size) = preview1::args_sizes_get(&ctx).unwrap();
    assert_eq!(argc, 2);
    assert_eq!(argv_size, 10);
    assert_eq!(preview1::args_get(&ctx).unwrap(), b"prog\0arg1\0".to_vec());
    let (envc, env_size) = preview1::environ_sizes_get(&ctx).unwrap();
    assert_eq!(envc, 1);
    assert_eq!(env_size, 7);
    assert_eq!(preview1::environ_get(&ctx).unwrap(), b"HOME=/\0".to_vec());
    assert_eq!(preview1::sched_yield(&mut ctx), Ok(()));
}

#[test]
fn deterministic_randomness_is_reproducible_and_sized() {
    let mut a = Deterministic::new(42);
    let mut b = Deterministic::new(42);
    let xs = a.get_bytes(32).unwrap();
    let ys = b.get_bytes(32).unwrap();
    assert_eq!(xs.len(), 32);
    assert_eq!(xs, ys);
    let mut c = Deterministic::new(43);
    assert_ne!(c.get_bytes(32).unwrap(), xs);
    let mut ctx = new_ctx();
    assert_eq!(preview1::random_get(&mut ctx, 9).unwrap().len(), 9);
}

#[test]
fn os_randomness_fills_the_buffer() {
    let mut r = OsRandom::new();
    let bytes = r.get_bytes(64).unwrap();
    assert_eq!(bytes.len(), 64);
    // The entropy source wrote over the zero-initialised buffer; 64 zero
    // bytes from it would be astronomically unlikely.
    assert!(bytes.iter().any(|&b| b != 0));
}

#[test]
fn path_errors_are_exact() {
    let mut ctx = new_ctx();
    ctx.insert_preopen(3, Resource::Dir(MemDir::new()), None);
    let opts = open_opts();
    assert_eq!(
        preview1::path_open(&mut ctx, 3, &b"missing".to_vec(), &opts),
        Err(DispatchError::Errno(ERRNO_NOENT))
    );
    assert_eq!(
        preview1::path_open(&mut ctx, 44, &b"x".to_vec(), &opts),
        Err(DispatchError::Errno(ERRNO_BADF))
    );
    let mut creat = open_opts();
    creat.create = true;
    creat.exclusive = true;
    let h = preview1::path_open(&mut ctx, 3, &b"x".to_vec(), &creat).unwrap();
    assert_eq!(preview1::fd_close(&mut ctx, h), Ok(()));
    assert_eq!(
        preview1::path_open(&mut ctx, 3, &b"x".to_vec(), &creat),
        Err(DispatchError::Errno(ERRNO_EXIST))
    );
    assert_eq!(
        preview1::path_create_directory(&mut ctx, 3, &b"x".to_vec()),
        Err(DispatchError::Errno(ERRNO_EXIST))
    );
    assert_eq!(preview1::path_unlink_file(&mut ctx, 3, &b"x".to_vec()), Ok(()));
    assert_eq!(
        preview1::path_unlink_file(&mut ctx, 3, &b"x".to_vec()),
        Err(DispatchError::Errno(ERRNO_NOENT))
    );
}

#[test]
fn rights_bits_are_stored_reported_and_inherited() {
    let mut ctx = new_ctx();
    let pair = Rights { base: 0xFF, inheriting: 0x0F };
    ctx.insert_preopen(3, Resource::Dir(MemDir::new()), Some(pair));
    ctx.insert_preopen(5, Resource::File(MemFile::new()), None);
    assert_eq!(
        preview1::fd_fdstat_get(&ctx, 3),
        Ok((FileType::Directory, Some(pair)))
    );
    assert_eq!(preview1::fd_fdstat_get(&ctx, 5), Ok((FileType::RegularFile, None)));
    assert!(matches!(
        preview1::fd_fdstat_get(&ctx, 9),
        Err(DispatchError::Errno(ERRNO_BADF))
    ));
    // A child opened under the directory inherits from the inheriting set.
    let mut opts = open_opts();
    opts.create = true;
    let h = preview1::path_open(&mut ctx, 3, &b"kid".to_vec(), &opts).unwrap();
    assert_eq!(
        preview1::fd_fdstat_get(&ctx, h),
        Ok((FileType::RegularFile, Some(Rights { base: 0x0F, inheriting: 0x0F })))
    );
    // A failed operation keeps the pair in place.
    assert_eq!(
        preview1::fd_read(&mut ctx, 3, 4),
        Err(DispatchError::Errno(ERRNO_NOTSUP))
    );
    assert_eq!(
        preview1::fd_fdstat_get(&ctx, 3),
        Ok((FileType::Directory, Some(pair)))
    );
}

#[test]
fn cross_directory_rename_moves_the_entry() {
    let mut ctx = new_ctx();
    ctx.insert_preopen(3, Resource::Dir(MemDir::new()), None);
    ctx.insert_preopen(5, Resource::Dir(MemDir::new()), None);
    let mut opts = open_opts();
    opts.create = true;
    let h = preview1::path_open(&mut ctx, 3, &b"a".to_vec(), &opts).unwrap();
    assert_eq!(preview1::fd_close(&mut ctx, h), Ok(()));
    assert_eq!(
        preview1::path_rename(&mut ctx, 3, &b"a".to_vec(), 5, &b"b".to_vec()),
        Ok(())
    );
    let src_page = preview1::fd_readdir(&ctx, 3, 0).unwrap();
    assert_eq!(src_page.entries.len(), 0);
    let dst_page = preview1::fd_readdir(&ctx, 5, 0).unwrap();
    assert_eq!(dst_page.entries.len(), 1);
    assert_eq!(dst_page.entries[0].name, b"b".to_vec());
    assert_eq!(dst_page.entries[0].kind, FileType::RegularFile);
    // A missing source name fails with the not-found code and moves
    // nothing.
    assert_eq!(
        preview1::path_rename(&mut ctx, 3, &b"missing".to_vec(), 5, &b"c".to_vec()),
        Err(DispatchError::Errno(ERRNO_NOENT))
    );
    assert_eq!(preview1::fd_readdir(&ctx, 5, 0).unwrap().entries.len(), 1);
}

#[test]
fn cross_directory_link_binds_a_second_name() {
    let mut ctx = new_ctx();
    ctx.insert_preopen(3, Resource::Dir(MemDir::new()), None);
    ctx.insert_preopen(5, Resource::Dir(MemDir::new()), None);
    let mut opts = open_opts();
    opts.create = true;
    let h = preview1::path_open(&mut ctx, 3, &b"x".to_vec(), &opts).unwrap();
    assert_eq!(preview1::fd_close(&mut ctx, h), Ok(()));
    assert_eq!(
        preview1::path_link(&mut ctx, 3, &b"x".to_vec(), 5, &b"y".to_vec()),
        Ok(())
    );
    let src_page = preview1::fd_readdir(&ctx, 3, 0).unwrap();
    let dst_page = preview1::fd_readdir(&ctx, 5, 0).unwrap();
    assert_eq!(src_page.entries.len(), 1);
    assert_eq!(src_page.entries[0].name, b"x".to_vec());
    assert_eq!(dst_page.entries.len(), 1);
    assert_eq!(dst_page.entries[0].name, b"y".to_vec());
    assert_eq!(src_page.entries[0].ino, dst_page.entries[0].ino);
    // Linking onto a taken name is refused.
    assert_eq!(
        preview1::path_link(&mut ctx, 3, &b"x".to_vec(), 5, &b"y".to_vec()),
        Err(DispatchError::Errno(ERRNO_EXIST))
    );
}
