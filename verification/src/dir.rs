//! The polymorphic directory capability: the interface a backend
//! implements to expose one open directory under a handle.
//!
//! Opening children under a directory handle is the sole means of deriving
//! new handles inside a sandbox, which is what gives the design its
//! capability-security property: a guest reaches only what is transitively
//! reachable from the handles it was given at construction.
//!
//! [`MemDir`] is the crate's own in-memory backend: a flat listing of
//! named children, enough to give tests and virtual embeddings a fully
//! verified directory.

use vstd::prelude::*;

use crate::error::{Error, ErrorKind};
use crate::file::{FileType, Filestat, MemFile, WasiFile};

verus! {

/// How many entries one readdir page holds at most.
pub const READDIR_PAGE: usize = 64;

/// The abstract state of one directory entry: a name, an inode identity,
/// a file type, and (for symlinks) the link target.
pub ghost struct DirEntryView {
    pub name: Seq<u8>,
    pub ino: u64,
    pub kind: FileType,
    pub target: Seq<u8>,
}

/// One entry of a readdir page, as handed to the guest: a (name, inode,
/// file type) triple.
pub struct DirEntry {
    pub name: Vec<u8>,
    pub ino: u64,
    pub kind: FileType,
}

impl View for DirEntry {
    type V = (Seq<u8>, u64, FileType);

    open spec fn view(&self) -> (Seq<u8>, u64, FileType) {
        (self.name@, self.ino, self.kind)
    }
}

/// The (name, inode, file type) triple an entry shows in a listing.
pub open spec fn listing_of(e: DirEntryView) -> (Seq<u8>, u64, FileType) {
    (e.name, e.ino, e.kind)
}

/// Whether some entry of `v` bears `name`.
pub open spec fn has_name(v: Seq<DirEntryView>, name: Seq<u8>) -> bool {
    exists|i: int| #![auto] 0 <= i < v.len() && v[i].name == name
}

/// Whether `new_v` is `old_v` with one entry appended bearing `name`,
/// `kind` and `target` (the inode identity is the backend's to choose).
pub open spec fn appended_entry(
    old_v: Seq<DirEntryView>,
    new_v: Seq<DirEntryView>,
    name: Seq<u8>,
    kind: FileType,
    target: Seq<u8>,
) -> bool {
    &&& new_v.len() == old_v.len() + 1
    &&& new_v.subrange(0, old_v.len() as int) == old_v
    &&& new_v.last().name == name
    &&& new_v.last().kind == kind
    &&& new_v.last().target == target
}

/// Flags for opening a child under a directory.
#[derive(Clone, Copy, PartialEq, Eq, Structural, Debug)]
pub struct OpenOptions {
    /// Create the child if it does not exist.
    pub create: bool,
    /// With `create`: fail if the child already exists.
    pub exclusive: bool,
    /// Truncate an existing file to zero length.
    pub truncate: bool,
    /// Insist that the child is a directory.
    pub directory: bool,
    /// Follow a final symlink component rather than opening it.
    pub follow: bool,
}

/// What opening a child yields: a new file capability or a new directory
/// capability, to be inserted into the table by the caller.
pub enum OpenedChild<F, D> {
    File(F),
    Dir(D),
}

/// One page of a readdir stream: the entries, the cookie at which the
/// enumeration resumes, and whether the end was reached.
pub struct ReaddirPage {
    pub entries: Vec<DirEntry>,
    pub next_cookie: u64,
    pub at_end: bool,
}

/// The half-open index window `[start, stop)` of entries that a readdir
/// call with `cookie` returns from a listing of length `len`.
pub open spec fn page_window(len: nat, cookie: nat) -> (nat, nat) {
    let start = if cookie >= len {
        len
    } else {
        cookie
    };
    let stop = if start + READDIR_PAGE as nat >= len {
        len
    } else {
        (start + READDIR_PAGE as nat) as nat
    };
    (start, stop)
}

/// Resuming a readdir from the cookie a page handed back never re-emits an
/// entry of that page: the first page with `cookie` covers indices up to
/// its returned cookie, and the resumed page starts exactly there.
pub proof fn lemma_readdir_resume_disjoint(len: nat, cookie: nat)
    ensures
        ({
            let (s1, e1) = page_window(len, cookie);
            let (s2, e2) = page_window(len, e1);
            e1 <= s2
        }),
{
}

/// One open directory. All operations may fail with an ordinary
/// [`ErrorKind`]; what each promises holds of the successful outcomes,
/// and the distinguished failures that a caller can rely on (`NotFound`
/// for a missing name, `AlreadyExists` for a taken one) are promised
/// outright.
///
/// The abstract state is the enumeration-ordered sequence of entries. A
/// backend must reproduce a consistent enumeration when a readdir resumes
/// from a previously issued cookie; entries changed in between appear
/// best-effort only.
pub trait WasiDir: Sized {
    /// The file capability type that opening a child file yields.
    type ChildFile: WasiFile;

    /// The current entries, in enumeration order.
    spec fn entries(&self) -> Seq<DirEntryView>;

    /// Open a child by name, creating it when asked to, and hand back a
    /// fresh capability for it; the caller inserts it into the table.
    fn open_child(&mut self, name: &Vec<u8>, opts: &OpenOptions) -> (r: Result<
        OpenedChild<Self::ChildFile, Self>,
        Error,
    >)
        ensures
            !has_name(old(self).entries(), name@) && !opts.create ==> r == Err::<
                OpenedChild<Self::ChildFile, Self>,
                Error,
            >(Error::Kind(ErrorKind::NotFound)),
            has_name(old(self).entries(), name@) && opts.create && opts.exclusive ==> r == Err::<
                OpenedChild<Self::ChildFile, Self>,
                Error,
            >(Error::Kind(ErrorKind::AlreadyExists)),
            r matches Ok(child) ==> if has_name(old(self).entries(), name@) {
                &&& final(self).entries() == old(self).entries()
                &&& exists|i: int|
                    #![auto]
                    0 <= i < old(self).entries().len() && old(self).entries()[i].name == name@ && (
                    (child is Dir) <==> old(self).entries()[i].kind == FileType::Directory)
            } else {
                &&& opts.create
                &&& appended_entry(
                    old(self).entries(),
                    final(self).entries(),
                    name@,
                    if opts.directory {
                        FileType::Directory
                    } else {
                        FileType::RegularFile
                    },
                    Seq::empty(),
                )
                &&& ((child is Dir) <==> opts.directory)
            },
            r matches Ok(child) ==> (child matches OpenedChild::File(f) ==> ((!has_name(
                old(self).entries(),
                name@,
            ) || opts.truncate) ==> f.data() == Seq::<u8>::empty() && f.cursor() == 0)),
    ;

    /// Create an empty child directory under a fresh name.
    fn create_dir(&mut self, name: &Vec<u8>) -> (r: Result<(), Error>)
        ensures
            has_name(old(self).entries(), name@) ==> r == Err::<(), Error>(
                Error::Kind(ErrorKind::AlreadyExists),
            ),
            r matches Ok(()) ==> {
                &&& !has_name(old(self).entries(), name@)
                &&& appended_entry(
                    old(self).entries(),
                    final(self).entries(),
                    name@,
                    FileType::Directory,
                    Seq::empty(),
                )
            },
    ;

    /// Remove a non-directory child by name.
    fn remove_file(&mut self, name: &Vec<u8>) -> (r: Result<(), Error>)
        ensures
            !has_name(old(self).entries(), name@) ==> r == Err::<(), Error>(
                Error::Kind(ErrorKind::NotFound),
            ),
            r matches Ok(()) ==> exists|i: int|
                #![auto]
                0 <= i < old(self).entries().len() && old(self).entries()[i].name == name@ && old(self).entries()[i].kind != FileType::Directory && final(self).entries() == old(self).entries().remove(i),
    ;

    /// Remove an empty child directory by name. A backend must refuse a
    /// directory that still has children.
    fn remove_dir(&mut self, name: &Vec<u8>) -> (r: Result<(), Error>)
        ensures
            !has_name(old(self).entries(), name@) ==> r == Err::<(), Error>(
                Error::Kind(ErrorKind::NotFound),
            ),
            r matches Ok(()) ==> exists|i: int|
                #![auto]
                0 <= i < old(self).entries().len() && old(self).entries()[i].name == name@ && old(self).entries()[i].kind == FileType::Directory && final(self).entries() == old(self).entries().remove(i),
    ;

    /// Give the child at `old_name` the name `new_name`, atomically from
    /// the guest's observable perspective: no call ever sees a state with
    /// neither or both names.
    fn rename(&mut self, old_name: &Vec<u8>, new_name: &Vec<u8>) -> (r: Result<(), Error>)
        ensures
            !has_name(old(self).entries(), old_name@) ==> r == Err::<(), Error>(
                Error::Kind(ErrorKind::NotFound),
            ),
            r matches Ok(()) ==> exists|i: int|
                #![auto]
                0 <= i < old(self).entries().len() && old(self).entries()[i].name == old_name@
                    && final(self).entries() == old(self).entries().update(
                    i,
                    DirEntryView { name: new_name@, ..old(self).entries()[i] },
                ),
    ;

    /// Move the child at `old_name` out of this directory and into
    /// `dest` under `new_name`, atomically from the guest's observable
    /// perspective, keeping its inode identity, kind and link target.
    fn rename_into(&mut self, old_name: &Vec<u8>, dest: &mut Self, new_name: &Vec<u8>) -> (r:
        Result<(), Error>)
        ensures
            !has_name(old(self).entries(), old_name@) ==> r == Err::<(), Error>(
                Error::Kind(ErrorKind::NotFound),
            ),
            has_name(old(self).entries(), old_name@) && has_name(old(dest).entries(), new_name@)
                ==> r == Err::<(), Error>(Error::Kind(ErrorKind::AlreadyExists)),
            r matches Ok(()) ==> exists|i: int|
                #![auto]
                0 <= i < old(self).entries().len() && old(self).entries()[i].name == old_name@
                    && final(self).entries() == old(self).entries().remove(i) && final(dest).entries() == old(dest).entries().push(
                    DirEntryView { name: new_name@, ..old(self).entries()[i] },
                ),
    ;

    /// Bind the non-directory child at `old_name` to a second name inside
    /// `dest`, with the same inode identity; this directory is untouched.
    fn link_into(&self, old_name: &Vec<u8>, dest: &mut Self, new_name: &Vec<u8>) -> (r: Result<
        (),
        Error,
    >)
        ensures
            !has_name(self.entries(), old_name@) ==> r == Err::<(), Error>(
                Error::Kind(ErrorKind::NotFound),
            ),
            has_name(self.entries(), old_name@) && has_name(old(dest).entries(), new_name@) ==> r
                == Err::<(), Error>(Error::Kind(ErrorKind::AlreadyExists)),
            r matches Ok(()) ==> exists|i: int|
                #![auto]
                0 <= i < self.entries().len() && self.entries()[i].name == old_name@
                    && self.entries()[i].kind != FileType::Directory && final(dest).entries()
                    == old(dest).entries().push(
                    DirEntryView { name: new_name@, ..self.entries()[i] },
                ),
    ;

    /// One page of the lazy, finite, cookie-restartable enumeration of
    /// the entries: the window of at most [`READDIR_PAGE`] entries
    /// starting at index `cookie`, the cookie to resume at, and whether
    /// the enumeration is finished.
    fn readdir(&self, cookie: u64) -> (r: Result<ReaddirPage, Error>)
        ensures
            r matches Ok(page) ==> ({
                let (start, stop) = page_window(self.entries().len(), cookie as nat);
                &&& page.entries@.len() == stop - start
                &&& forall|k: int|
                    0 <= k < page.entries@.len() ==> #[trigger] page.entries@[k]@ == listing_of(
                        self.entries()[start + k],
                    )
                &&& page.next_cookie == stop
                &&& (page.at_end <==> stop == self.entries().len())
            }),
    ;

    /// Create a symlink entry `name` pointing at `target`.
    fn symlink(&mut self, target: &Vec<u8>, name: &Vec<u8>) -> (r: Result<(), Error>)
        ensures
            has_name(old(self).entries(), name@) ==> r == Err::<(), Error>(
                Error::Kind(ErrorKind::AlreadyExists),
            ),
            r matches Ok(()) ==> {
                &&& !has_name(old(self).entries(), name@)
                &&& appended_entry(
                    old(self).entries(),
                    final(self).entries(),
                    name@,
                    FileType::SymbolicLink,
                    target@,
                )
            },
    ;

    /// Read the target a symlink entry points at.
    fn read_link(&self, name: &Vec<u8>) -> (r: Result<Vec<u8>, Error>)
        ensures
            !has_name(self.entries(), name@) ==> r == Err::<Vec<u8>, Error>(
                Error::Kind(ErrorKind::NotFound),
            ),
            r matches Ok(t) ==> exists|i: int|
                #![auto]
                0 <= i < self.entries().len() && self.entries()[i].name == name@
                    && self.entries()[i].kind == FileType::SymbolicLink && t@
                    == self.entries()[i].target,
    ;

    /// Give the non-directory child at `old_name` a second name bound to
    /// the same inode identity.
    fn hard_link(&mut self, old_name: &Vec<u8>, new_name: &Vec<u8>) -> (r: Result<(), Error>)
        ensures
            !has_name(old(self).entries(), old_name@) ==> r == Err::<(), Error>(
                Error::Kind(ErrorKind::NotFound),
            ),
            r matches Ok(()) ==> exists|i: int|
                #![auto]
                0 <= i < old(self).entries().len() && old(self).entries()[i].name == old_name@
                    && old(self).entries()[i].kind != FileType::Directory && final(self).entries()
                    == old(self).entries().push(
                    DirEntryView { name: new_name@, ..old(self).entries()[i] },
                ),
    ;

    /// Metadata of the child at `name`, optionally without following a
    /// final symlink component.
    fn stat_at(&self, name: &Vec<u8>, follow: bool) -> (r: Result<Filestat, Error>)
        ensures
            !has_name(self.entries(), name@) ==> r == Err::<Filestat, Error>(
                Error::Kind(ErrorKind::NotFound),
            ),
            r matches Ok(st) ==> exists|i: int|
                #![auto]
                0 <= i < self.entries().len() && self.entries()[i].name == name@ && ((!follow
                    || self.entries()[i].kind != FileType::SymbolicLink) ==> st.filetype
                    == self.entries()[i].kind),
    ;
}

/// Copy a byte vector.
fn copy_bytes(src: &Vec<u8>) -> (r: Vec<u8>)
    ensures
        r@ == src@,
{
    let mut out: Vec<u8> = Vec::new();
    let mut i: usize = 0;
    while i < src.len()
        invariant
            i <= src@.len(),
            out@ == src@.subrange(0, i as int),
        decreases src@.len() - i,
    {
        out.push(src[i]);
        i = i + 1;
        proof {
            assert(out@ =~= src@.subrange(0, i as int));
        }
    }
    proof {
        assert(out@ =~= src@);
    }
    out
}

/// Whether two byte vectors hold the same bytes.
fn bytes_eq(a: &Vec<u8>, b: &Vec<u8>) -> (r: bool)
    ensures
        r == (a@ == b@),
{
    if a.len() != b.len() {
        return false;
    }
    let mut i: usize = 0;
    while i < a.len()
        invariant
            i <= a@.len(),
            a@.len() == b@.len(),
            forall|k: int| 0 <= k < i ==> a@[k] == b@[k],
        decreases a@.len() - i,
    {
        if a[i] != b[i] {
            return false;
        }
        i = i + 1;
    }
    proof {
        assert(a@ =~= b@);
    }
    true
}

/// One entry of the crate's in-memory directory backend.
struct MemDirEntry {
    name: Vec<u8>,
    ino: u64,
    kind: FileType,
    target: Vec<u8>,
}

impl MemDirEntry {
    spec fn view(&self) -> DirEntryView {
        DirEntryView { name: self.name@, ino: self.ino, kind: self.kind, target: self.target@ }
    }
}

/// The crate's own directory backend: a flat, in-memory listing of named
/// children — names, inode identities, kinds and link targets, not
/// contents. Opening a child always hands back a fresh, empty in-memory
/// capability: bytes written through one opened handle do not reappear
/// when the same name is opened again, because the listing holds no file
/// contents. Directories it lists carry no children of their own, so they
/// are always empty for removal purposes.
pub struct MemDir {
    entries: Vec<MemDirEntry>,
    next_ino: u64,
}

impl MemDir {
    /// An empty directory.
    pub fn new() -> (r: MemDir)
        ensures
            r.entries() == Seq::<DirEntryView>::empty(),
    {
        let d = MemDir { entries: Vec::new(), next_ino: 1 };
        proof {
            assert(d.entries() =~= Seq::<DirEntryView>::empty());
        }
        d
    }

    /// The index of the entry bearing `name`, if any.
    fn find(&self, name: &Vec<u8>) -> (r: Option<usize>)
        ensures
            match r {
                Some(i) => 0 <= i < self.entries().len() && self.entries()[i as int].name == name@,
                None => !has_name(self.entries(), name@),
            },
    {
        let mut i: usize = 0;
        while i < self.entries.len()
            invariant
                i <= self.entries@.len(),
                forall|k: int| #![auto] 0 <= k < i ==> self.entries@[k]@.name != name@,
            decreases self.entries@.len() - i,
        {
            if bytes_eq(&self.entries[i].name, name) {
                return Some(i);
            }
            i = i + 1;
        }
        None
    }

    /// A fresh inode number, never handed out before by this directory.
    fn alloc_ino(&mut self) -> (r: Result<u64, Error>)
        ensures
            final(self).entries() == old(self).entries(),
            r matches Err(e) ==> e == Error::Kind(ErrorKind::NoSpace) && *final(self) == *old(self),
    {
        if self.next_ino == u64::MAX {
            return Err(Error::Kind(ErrorKind::NoSpace));
        }
        let ino = self.next_ino;
        self.next_ino = self.next_ino + 1;
        proof {
            assert(self.entries() =~= old(self).entries());
        }
        Ok(ino)
    }

    /// Append an entry, keeping the abstract listing in step.
    fn push_entry(&mut self, e: MemDirEntry)
        ensures
            final(self).entries() == old(self).entries().push(e@),
    {
        self.entries.push(e);
        proof {
            assert(self.entries() =~= old(self).entries().push(e@));
        }
    }
}

impl WasiDir for MemDir {
    type ChildFile = MemFile;

    closed spec fn entries(&self) -> Seq<DirEntryView> {
        self.entries@.map_values(|e: MemDirEntry| e@)
    }

    fn open_child(&mut self, name: &Vec<u8>, opts: &OpenOptions) -> (r: Result<
        OpenedChild<MemFile, MemDir>,
        Error,
    >) {
        match self.find(name) {
            Some(i) => {
                if opts.create && opts.exclusive {
                    return Err(Error::Kind(ErrorKind::AlreadyExists));
                }
                let kind = self.entries[i].kind;
                if kind == FileType::Directory {
                    Ok(OpenedChild::Dir(MemDir::new()))
                } else {
                    if opts.directory {
                        return Err(Error::Kind(ErrorKind::NotSupported));
                    }
                    Ok(OpenedChild::File(MemFile::new()))
                }
            },
            None => {
                if !opts.create {
                    return Err(Error::Kind(ErrorKind::NotFound));
                }
                let ino = match self.alloc_ino() {
                    Ok(ino) => ino,
                    Err(e) => {
                        return Err(e);
                    },
                };
                let kind = if opts.directory {
                    FileType::Directory
                } else {
                    FileType::RegularFile
                };
                self.push_entry(
                    MemDirEntry { name: copy_bytes(name), ino, kind, target: Vec::new() },
                );
                proof {
                    assert(self.entries().subrange(0, old(self).entries().len() as int)
                        =~= old(self).entries());
                }
                if opts.directory {
                    Ok(OpenedChild::Dir(MemDir::new()))
                } else {
                    Ok(OpenedChild::File(MemFile::new()))
                }
            },
        }
    }

    fn create_dir(&mut self, name: &Vec<u8>) -> (r: Result<(), Error>) {
        match self.find(name) {
            Some(_) => Err(Error::Kind(ErrorKind::AlreadyExists)),
            None => {
                let ino = match self.alloc_ino() {
                    Ok(ino) => ino,
                    Err(e) => {
                        return Err(e);
                    },
                };
                self.push_entry(
                    MemDirEntry {
                        name: copy_bytes(name),
                        ino,
                        kind: FileType::Directory,
                        target: Vec::new(),
                    },
                );
                proof {
                    assert(self.entries().subrange(0, old(self).entries().len() as int)
                        =~= old(self).entries());
                }
                Ok(())
            },
        }
    }

    fn remove_file(&mut self, name: &Vec<u8>) -> (r: Result<(), Error>) {
        match self.find(name) {
            Some(i) => {
                if self.entries[i].kind == FileType::Directory {
                    return Err(Error::Kind(ErrorKind::NotSupported));
                }
                self.entries.remove(i);
                proof {
                    assert(self.entries() =~= old(self).entries().remove(i as int));
                }
                Ok(())
            },
            None => Err(Error::Kind(ErrorKind::NotFound)),
        }
    }

    fn remove_dir(&mut self, name: &Vec<u8>) -> (r: Result<(), Error>) {
        match self.find(name) {
            Some(i) => {
                if self.entries[i].kind != FileType::Directory {
                    return Err(Error::Kind(ErrorKind::NotSupported));
                }
                self.entries.remove(i);
                proof {
                    assert(self.entries() =~= old(self).entries().remove(i as int));
                }
                Ok(())
            },
            None => Err(Error::Kind(ErrorKind::NotFound)),
        }
    }

    fn rename(&mut self, old_name: &Vec<u8>, new_name: &Vec<u8>) -> (r: Result<(), Error>) {
        let i = match self.find(old_name) {
            Some(i) => i,
            None => {
                return Err(Error::Kind(ErrorKind::NotFound));
            },
        };
        if bytes_eq(old_name, new_name) {
            proof {
                assert(self.entries() =~= self.entries().update(
                    i as int,
                    DirEntryView { name: new_name@, ..self.entries()[i as int] },
                ));
            }
            return Ok(());
        }
        match self.find(new_name) {
            Some(_) => Err(Error::Kind(ErrorKind::AlreadyExists)),
            None => {
                let mut e = self.entries.remove(i);
                e.name = copy_bytes(new_name);
                self.entries.insert(i, e);
                proof {
                    assert(self.entries() =~= old(self).entries().update(
                        i as int,
                        DirEntryView { name: new_name@, ..old(self).entries()[i as int] },
                    ));
                }
                Ok(())
            },
        }
    }

    fn rename_into(&mut self, old_name: &Vec<u8>, dest: &mut MemDir, new_name: &Vec<u8>) -> (r:
        Result<(), Error>) {
        let i = match self.find(old_name) {
            Some(i) => i,
            None => {
                return Err(Error::Kind(ErrorKind::NotFound));
            },
        };
        match dest.find(new_name) {
            Some(_) => Err(Error::Kind(ErrorKind::AlreadyExists)),
            None => {
                let mut e = self.entries.remove(i);
                e.name = copy_bytes(new_name);
                proof {
                    assert(self.entries() =~= old(self).entries().remove(i as int));
                    assert(e@ == DirEntryView {
                        name: new_name@,
                        ..old(self).entries()[i as int]
                    });
                }
                dest.push_entry(e);
                Ok(())
            },
        }
    }

    fn link_into(&self, old_name: &Vec<u8>, dest: &mut MemDir, new_name: &Vec<u8>) -> (r: Result<
        (),
        Error,
    >) {
        let i = match self.find(old_name) {
            Some(i) => i,
            None => {
                return Err(Error::Kind(ErrorKind::NotFound));
            },
        };
        match dest.find(new_name) {
            Some(_) => Err(Error::Kind(ErrorKind::AlreadyExists)),
            None => {
                if self.entries[i].kind == FileType::Directory {
                    return Err(Error::Kind(ErrorKind::PermissionDenied));
                }
                let e = MemDirEntry {
                    name: copy_bytes(new_name),
                    ino: self.entries[i].ino,
                    kind: self.entries[i].kind,
                    target: copy_bytes(&self.entries[i].target),
                };
                proof {
                    assert(e@ == DirEntryView { name: new_name@, ..self.entries()[i as int] });
                }
                dest.push_entry(e);
                Ok(())
            },
        }
    }

    fn readdir(&self, cookie: u64) -> (r: Result<ReaddirPage, Error>) {
        let total = self.entries.len();
        let start: usize = if cookie >= total as u64 {
            total
        } else {
            cookie as usize
        };
        let stop: usize = if total - start >= READDIR_PAGE {
            start + READDIR_PAGE
        } else {
            total
        };
        let mut out: Vec<DirEntry> = Vec::new();
        let mut k: usize = start;
        while k < stop
            invariant
                start <= k <= stop <= self.entries@.len(),
                out@.len() == k - start,
                forall|j: int|
                    0 <= j < out@.len() ==> #[trigger] out@[j]@ == listing_of(
                        self.entries()[start + j],
                    ),
            decreases stop - k,
        {
            let e = DirEntry {
                name: copy_bytes(&self.entries[k].name),
                ino: self.entries[k].ino,
                kind: self.entries[k].kind,
            };
            out.push(e);
            k = k + 1;
        }
        Ok(ReaddirPage { entries: out, next_cookie: stop as u64, at_end: stop == total })
    }

    fn symlink(&mut self, target: &Vec<u8>, name: &Vec<u8>) -> (r: Result<(), Error>) {
        match self.find(name) {
            Some(_) => Err(Error::Kind(ErrorKind::AlreadyExists)),
            None => {
                let ino = match self.alloc_ino() {
                    Ok(ino) => ino,
                    Err(e) => {
                        return Err(e);
                    },
                };
                self.push_entry(
                    MemDirEntry {
                        name: copy_bytes(name),
                        ino,
                        kind: FileType::SymbolicLink,
                        target: copy_bytes(target),
                    },
                );
                proof {
                    assert(self.entries().subrange(0, old(self).entries().len() as int)
                        =~= old(self).entries());
                }
                Ok(())
            },
        }
    }

    fn read_link(&self, name: &Vec<u8>) -> (r: Result<Vec<u8>, Error>) {
        match self.find(name) {
            Some(i) => {
                if self.entries[i].kind != FileType::SymbolicLink {
                    return Err(Error::Kind(ErrorKind::InvalidArgument));
                }
                Ok(copy_bytes(&self.entries[i].target))
            },
            None => Err(Error::Kind(ErrorKind::NotFound)),
        }
    }

    fn hard_link(&mut self, old_name: &Vec<u8>, new_name: &Vec<u8>) -> (r: Result<(), Error>) {
        let i = match self.find(old_name) {
            Some(i) => i,
            None => {
                return Err(Error::Kind(ErrorKind::NotFound));
            },
        };
        if self.entries[i].kind == FileType::Directory {
            return Err(Error::Kind(ErrorKind::PermissionDenied));
        }
        match self.find(new_name) {
            Some(_) => Err(Error::Kind(ErrorKind::AlreadyExists)),
            None => {
                let e = MemDirEntry {
                    name: copy_bytes(new_name),
                    ino: self.entries[i].ino,
                    kind: self.entries[i].kind,
                    target: copy_bytes(&self.entries[i].target),
                };
                proof {
                    assert(e@ == DirEntryView { name: new_name@, ..self.entries()[i as int] });
                }
                self.push_entry(e);
                Ok(())
            },
        }
    }

    fn stat_at(&self, name: &Vec<u8>, follow: bool) -> (r: Result<Filestat, Error>) {
        let i = match self.find(name) {
            Some(i) => i,
            None => {
                return Err(Error::Kind(ErrorKind::NotFound));
            },
        };
        let kind = self.entries[i].kind;
        if follow && kind == FileType::SymbolicLink {
            let target = copy_bytes(&self.entries[i].target);
            match self.find(&target) {
                Some(j) => Ok(
                    Filestat {
                        size: 0,
                        filetype: self.entries[j].kind,
                        atim: 0,
                        mtim: 0,
                    },
                ),
                None => Err(Error::Kind(ErrorKind::NotFound)),
            }
        } else {
            Ok(Filestat { size: 0, filetype: kind, atim: 0, mtim: 0 })
        }
    }
}

} // verus!
