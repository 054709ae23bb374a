//! The polymorphic file capability: the interface a backend implements to
//! expose one open file-like resource under a handle.
//!
//! The host layer never instantiates a concrete OS backend itself; it only
//! defines this contract and dispatches through it. [`MemFile`] is the
//! crate's own in-memory backend: it implements the full contract and
//! serves pipes, standard streams and tests.

use vstd::prelude::*;

use crate::error::{Error, ErrorKind};

verus! {

/// The type a file-like resource reports for itself.
#[derive(Clone, Copy, PartialEq, Eq, Structural, Debug)]
pub enum FileType {
    Unknown,
    BlockDevice,
    CharacterDevice,
    Directory,
    RegularFile,
    SocketDgram,
    SocketStream,
    SymbolicLink,
    Pipe,
}

/// Which position model a backend supports: an implicit cursor that the
/// call mutates, or an explicit offset argument that leaves the cursor
/// untouched. The dispatcher honors whichever the backend reports.
#[derive(Clone, Copy, PartialEq, Eq, Structural, Debug)]
pub enum PositionStyle {
    Cursor,
    Offset,
}

/// The origin a seek is relative to.
#[derive(Clone, Copy, PartialEq, Eq, Structural, Debug)]
pub enum Whence {
    Start,
    Current,
    End,
}

/// An advisory access-pattern hint; a backend may ignore it.
#[derive(Clone, Copy, PartialEq, Eq, Structural, Debug)]
pub enum Advice {
    Normal,
    Sequential,
    Random,
    WillNeed,
    DontNeed,
    NoReuse,
}

/// File metadata as one record.
#[derive(Clone, Copy, PartialEq, Eq, Structural, Debug)]
pub struct Filestat {
    pub size: u64,
    pub filetype: FileType,
    pub atim: u64,
    pub mtim: u64,
}

/// The bytes a read at `offset` of at most `len` bytes returns from
/// `data`: the slice from `offset` to the end of the data or to
/// `offset + len`, whichever comes first; empty at or past the end.
pub open spec fn read_range(data: Seq<u8>, offset: nat, len: nat) -> Seq<u8> {
    if offset >= data.len() {
        Seq::empty()
    } else if offset + len <= data.len() {
        data.subrange(offset as int, (offset + len) as int)
    } else {
        data.subrange(offset as int, data.len() as int)
    }
}

/// `data` zero-extended to length `to` (unchanged if already that long).
pub open spec fn pad_to(data: Seq<u8>, to: nat) -> Seq<u8> {
    if to <= data.len() {
        data
    } else {
        data.add(Seq::new((to - data.len()) as nat, |i: int| 0u8))
    }
}

/// The contents after writing `bytes` at `offset` into `data`: bytes
/// before `offset` are kept, a gap between the old end and `offset` is
/// zero-filled, and the data grows as needed. Writing nothing changes
/// nothing, wherever the offset points.
pub open spec fn overlay(data: Seq<u8>, offset: nat, bytes: Seq<u8>) -> Seq<u8> {
    if bytes.len() == 0 {
        data
    } else {
        let end = offset + bytes.len();
        let n = if data.len() > end {
            data.len()
        } else {
            end
        };
        Seq::new(
            n as nat,
            |i: int|
                if offset <= i && i < end {
                    bytes[i - offset]
                } else if i < data.len() {
                    data[i]
                } else {
                    0u8
                },
        )
    }
}

/// The contents after truncating or zero-extending `data` to `size`.
pub open spec fn resize_to(data: Seq<u8>, size: nat) -> Seq<u8> {
    if size <= data.len() {
        data.subrange(0, size as int)
    } else {
        pad_to(data, size)
    }
}

/// Where a seek relative to `whence` by `delta` lands, as an unbounded
/// integer; a backend must reject targets outside `[0, u64::MAX]`.
pub open spec fn seek_target(len: nat, cursor: nat, whence: Whence, delta: i64) -> int {
    match whence {
        Whence::Start => delta as int,
        Whence::Current => cursor + delta,
        Whence::End => len + delta,
    }
}

/// One open file-like resource. All operations may fail with an ordinary
/// [`ErrorKind`]; what each promises holds of the successful outcomes.
///
/// The abstract state is a byte sequence (`data`), a cursor, a file type,
/// a tty flag, a position style and a pair of timestamps. An entry's
/// identity never changes while it is held in a table: every mutating
/// operation keeps the file type, position style and tty flag.
pub trait WasiFile: Sized {
    /// The current contents.
    spec fn data(&self) -> Seq<u8>;

    /// The implicit read/write position.
    spec fn cursor(&self) -> nat;

    /// The reported file type.
    spec fn kind(&self) -> FileType;

    /// Whether this resource is a terminal.
    spec fn is_tty(&self) -> bool;

    /// Which position model the backend supports.
    spec fn style(&self) -> PositionStyle;

    /// Last-access timestamp, in nanoseconds.
    spec fn atim(&self) -> u64;

    /// Last-modification timestamp, in nanoseconds.
    spec fn mtim(&self) -> u64;

    /// The reported file type.
    fn filetype(&self) -> (r: FileType)
        ensures
            r == self.kind(),
    ;

    /// Which position model the backend supports.
    fn position_style(&self) -> (r: PositionStyle)
        ensures
            r == self.style(),
    ;

    /// Whether this resource is a terminal.
    fn isatty(&self) -> (r: bool)
        ensures
            r == self.is_tty(),
    ;

    /// Metadata: current size, type and timestamps.
    fn filestat_get(&self) -> (r: Result<Filestat, Error>)
        ensures
            r matches Ok(st) ==> {
                &&& st.size == self.data().len()
                &&& st.filetype == self.kind()
                &&& st.atim == self.atim()
                &&& st.mtim == self.mtim()
            },
    ;

    /// Overwrite either timestamp, leaving contents and cursor alone.
    fn set_times(&mut self, atim: Option<u64>, mtim: Option<u64>) -> (r: Result<(), Error>)
        ensures
            final(self).kind() == old(self).kind(),
            final(self).style() == old(self).style(),
            final(self).is_tty() == old(self).is_tty(),
            r matches Ok(()) ==> {
                &&& final(self).data() == old(self).data()
                &&& final(self).cursor() == old(self).cursor()
                &&& final(self).atim() == (match atim {
                    Some(a) => a,
                    None => old(self).atim(),
                })
                &&& final(self).mtim() == (match mtim {
                    Some(m) => m,
                    None => old(self).mtim(),
                })
            },
    ;

    /// Truncate or zero-extend the contents to `size` bytes.
    fn set_size(&mut self, size: u64) -> (r: Result<(), Error>)
        ensures
            final(self).kind() == old(self).kind(),
            final(self).style() == old(self).style(),
            final(self).is_tty() == old(self).is_tty(),
            r matches Ok(()) ==> {
                &&& final(self).data() == resize_to(old(self).data(), size as nat)
                &&& final(self).cursor() == old(self).cursor()
            },
    ;

    /// Read at most `len` bytes at the explicit `offset`, leaving the
    /// contents and the cursor untouched.
    fn read_at(&mut self, offset: u64, len: usize) -> (r: Result<Vec<u8>, Error>)
        ensures
            final(self).kind() == old(self).kind(),
            final(self).style() == old(self).style(),
            final(self).is_tty() == old(self).is_tty(),
            r matches Ok(buf) ==> {
                &&& buf@ == read_range(old(self).data(), offset as nat, len as nat)
                &&& final(self).data() == old(self).data()
                &&& final(self).cursor() == old(self).cursor()
            },
    ;

    /// Read at most `len` bytes at the cursor, advancing the cursor by
    /// exactly what was read.
    fn read_cursor(&mut self, len: usize) -> (r: Result<Vec<u8>, Error>)
        ensures
            final(self).kind() == old(self).kind(),
            final(self).style() == old(self).style(),
            final(self).is_tty() == old(self).is_tty(),
            r matches Ok(buf) ==> {
                &&& buf@ == read_range(old(self).data(), old(self).cursor(), len as nat)
                &&& final(self).data() == old(self).data()
                &&& final(self).cursor() == old(self).cursor() + buf@.len()
            },
    ;

    /// Write `buf` at the explicit `offset`, zero-filling any gap past
    /// the old end, leaving the cursor untouched. A backend may write a
    /// prefix; the count returned is what actually landed.
    fn write_at(&mut self, offset: u64, buf: &Vec<u8>) -> (r: Result<usize, Error>)
        ensures
            final(self).kind() == old(self).kind(),
            final(self).style() == old(self).style(),
            final(self).is_tty() == old(self).is_tty(),
            r matches Ok(n) ==> {
                &&& n <= buf@.len()
                &&& final(self).data() == overlay(
                    old(self).data(),
                    offset as nat,
                    buf@.take(n as int),
                )
                &&& final(self).cursor() == old(self).cursor()
            },
    ;

    /// Write `buf` at the cursor, advancing the cursor by exactly what
    /// was written.
    fn write_cursor(&mut self, buf: &Vec<u8>) -> (r: Result<usize, Error>)
        ensures
            final(self).kind() == old(self).kind(),
            final(self).style() == old(self).style(),
            final(self).is_tty() == old(self).is_tty(),
            r matches Ok(n) ==> {
                &&& n <= buf@.len()
                &&& final(self).data() == overlay(
                    old(self).data(),
                    old(self).cursor(),
                    buf@.take(n as int),
                )
                &&& final(self).cursor() == old(self).cursor() + n
            },
    ;

    /// Move the cursor relative to `whence` and report where it landed.
    /// A target outside the representable range is rejected.
    fn seek(&mut self, whence: Whence, delta: i64) -> (r: Result<u64, Error>)
        ensures
            final(self).kind() == old(self).kind(),
            final(self).style() == old(self).style(),
            final(self).is_tty() == old(self).is_tty(),
            r matches Ok(p) ==> {
                &&& final(self).data() == old(self).data()
                &&& p == seek_target(old(self).data().len(), old(self).cursor(), whence, delta)
                &&& final(self).cursor() == p
            },
            seek_target(old(self).data().len(), old(self).cursor(), whence, delta) < 0
                ==> r is Err,
            seek_target(old(self).data().len(), old(self).cursor(), whence, delta) > u64::MAX
                ==> r is Err,
    ;

    /// Flush buffered state to durable storage: data only, or data and
    /// metadata. Contents and cursor are unchanged on success.
    fn sync(&mut self, with_metadata: bool) -> (r: Result<(), Error>)
        ensures
            final(self).kind() == old(self).kind(),
            final(self).style() == old(self).style(),
            final(self).is_tty() == old(self).is_tty(),
            r matches Ok(()) ==> {
                &&& final(self).data() == old(self).data()
                &&& final(self).cursor() == old(self).cursor()
            },
    ;

    /// Hand the backend an access-pattern hint; never observable in the
    /// abstract state.
    fn advise(&mut self, offset: u64, len: u64, advice: Advice) -> (r: Result<(), Error>)
        ensures
            final(self).kind() == old(self).kind(),
            final(self).style() == old(self).style(),
            final(self).is_tty() == old(self).is_tty(),
            r matches Ok(()) ==> {
                &&& final(self).data() == old(self).data()
                &&& final(self).cursor() == old(self).cursor()
            },
    ;

    /// How many bytes a cursor read would return without blocking.
    fn num_ready_bytes(&self) -> (r: Result<u64, Error>)
        ensures
            r matches Ok(n) ==> n == ready_bytes(self.data().len(), self.cursor()),
    ;
}

/// The bytes between the cursor and the end of the data.
pub open spec fn ready_bytes(len: nat, cursor: nat) -> nat {
    if cursor >= len {
        0
    } else {
        (len - cursor) as nat
    }
}

/// Zero-extend `content` in place to `n` bytes (no effect if already
/// that long).
fn pad_vec(content: &mut Vec<u8>, n: usize)
    ensures
        final(content)@ == pad_to(old(content)@, n as nat),
        final(content)@.len() == if n as nat <= old(content)@.len() {
            old(content)@.len()
        } else {
            n as nat
        },
{
    let ghost d = content@;
    while content.len() < n
        invariant
            content@ == pad_to(d, content@.len()),
            content@.len() >= d.len(),
            content@.len() <= if d.len() > n as nat {
                d.len()
            } else {
                n as nat
            },
        decreases n as int - content@.len(),
    {
        content.push(0u8);
        proof {
            assert(content@ =~= pad_to(d, content@.len()));
        }
    }
    proof {
        assert(content@ =~= pad_to(d, n as nat));
    }
}

/// Splice `bytes` into `content` at `offset`, zero-filling any gap.
fn splice_vec(content: &mut Vec<u8>, offset: usize, bytes: &Vec<u8>)
    requires
        offset + bytes@.len() <= usize::MAX,
    ensures
        final(content)@ == overlay(old(content)@, offset as nat, bytes@),
{
    let ghost d = content@;
    if bytes.len() == 0 {
        return ;
    }
    pad_vec(content, offset);
    let ghost padded = content@;
    let mut i: usize = 0;
    while i < bytes.len()
        invariant
            i <= bytes@.len(),
            bytes@.len() > 0,
            offset + bytes@.len() <= usize::MAX,
            padded == pad_to(d, offset as nat),
            padded.len() >= offset,
            padded.len() >= d.len(),
            content@ == overlay(padded, offset as nat, bytes@.take(i as int)),
        decreases bytes@.len() - i,
    {
        let idx = offset + i;
        proof {
            if i > 0 {
                assert(content@.len() == if padded.len() > offset + i {
                    padded.len() as int
                } else {
                    offset + i
                });
            }
        }
        if idx < content.len() {
            content[idx] = bytes[i];
        } else {
            proof {
                assert(content@.len() == idx);
            }
            content.push(bytes[i]);
        }
        i = i + 1;
        proof {
            assert(content@ =~= overlay(padded, offset as nat, bytes@.take(i as int)));
        }
    }
    proof {
        assert(bytes@.take(bytes@.len() as int) =~= bytes@);
        assert(content@ =~= overlay(d, offset as nat, bytes@));
    }
}

/// The crate's own backend: a file held entirely in memory, with a cursor.
/// It reports itself as a regular file, or as a character device when
/// created as a terminal. Standard streams and in-memory pipes are
/// instances of it.
pub struct MemFile {
    content: Vec<u8>,
    cursor: u64,
    tty: bool,
    atim: u64,
    mtim: u64,
}

impl MemFile {
    /// An empty in-memory file.
    pub fn new() -> (r: MemFile)
        ensures
            r.data() == Seq::<u8>::empty(),
            r.cursor() == 0,
            r.kind() == FileType::RegularFile,
            !r.is_tty(),
            r.style() == PositionStyle::Cursor,
            r.atim() == 0,
            r.mtim() == 0,
    {
        MemFile { content: Vec::new(), cursor: 0, tty: false, atim: 0, mtim: 0 }
    }

    /// An in-memory file preloaded with `content`, cursor at the start.
    pub fn with_content(content: Vec<u8>) -> (r: MemFile)
        ensures
            r.data() == content@,
            r.cursor() == 0,
            r.kind() == FileType::RegularFile,
            !r.is_tty(),
            r.style() == PositionStyle::Cursor,
    {
        MemFile { content, cursor: 0, tty: false, atim: 0, mtim: 0 }
    }

    /// An empty in-memory file that reports itself as a terminal.
    pub fn new_tty() -> (r: MemFile)
        ensures
            r.data() == Seq::<u8>::empty(),
            r.cursor() == 0,
            r.kind() == FileType::CharacterDevice,
            r.is_tty(),
            r.style() == PositionStyle::Cursor,
    {
        MemFile { content: Vec::new(), cursor: 0, tty: true, atim: 0, mtim: 0 }
    }

    /// The whole current contents, copied out.
    pub fn contents(&self) -> (r: Vec<u8>)
        ensures
            r@ == self.data(),
    {
        let mut out: Vec<u8> = Vec::new();
        let mut i: usize = 0;
        while i < self.content.len()
            invariant
                i <= self.content@.len(),
                out@ == self.content@.subrange(0, i as int),
            decreases self.content@.len() - i,
        {
            out.push(self.content[i]);
            i = i + 1;
            proof {
                assert(out@ =~= self.content@.subrange(0, i as int));
            }
        }
        proof {
            assert(out@ =~= self.content@);
        }
        out
    }
}

impl WasiFile for MemFile {
    closed spec fn data(&self) -> Seq<u8> {
        self.content@
    }

    closed spec fn cursor(&self) -> nat {
        self.cursor as nat
    }

    closed spec fn kind(&self) -> FileType {
        if self.tty {
            FileType::CharacterDevice
        } else {
            FileType::RegularFile
        }
    }

    closed spec fn is_tty(&self) -> bool {
        self.tty
    }

    closed spec fn style(&self) -> PositionStyle {
        PositionStyle::Cursor
    }

    closed spec fn atim(&self) -> u64 {
        self.atim
    }

    closed spec fn mtim(&self) -> u64 {
        self.mtim
    }

    fn filetype(&self) -> (r: FileType) {
        if self.tty {
            FileType::CharacterDevice
        } else {
            FileType::RegularFile
        }
    }

    fn position_style(&self) -> (r: PositionStyle) {
        PositionStyle::Cursor
    }

    fn isatty(&self) -> (r: bool) {
        self.tty
    }

    fn filestat_get(&self) -> (r: Result<Filestat, Error>) {
        Ok(
            Filestat {
                size: self.content.len() as u64,
                filetype: self.filetype(),
                atim: self.atim,
                mtim: self.mtim,
            },
        )
    }

    fn set_times(&mut self, atim: Option<u64>, mtim: Option<u64>) -> (r: Result<(), Error>) {
        match atim {
            Some(a) => {
                self.atim = a;
            },
            None => {},
        }
        match mtim {
            Some(m) => {
                self.mtim = m;
            },
            None => {},
        }
        Ok(())
    }

    fn set_size(&mut self, size: u64) -> (r: Result<(), Error>) {
        if size > usize::MAX as u64 {
            return Err(Error::Kind(ErrorKind::NoSpace));
        }
        let s = size as usize;
        if s <= self.content.len() {
            self.content.truncate(s);
        } else {
            pad_vec(&mut self.content, s);
        }
        Ok(())
    }

    fn read_at(&mut self, offset: u64, len: usize) -> (r: Result<Vec<u8>, Error>) {
        let dlen = self.content.len();
        if offset >= dlen as u64 {
            return Ok(Vec::new());
        }
        let off = offset as usize;
        let avail = dlen - off;
        let count = if len < avail {
            len
        } else {
            avail
        };
        let mut out: Vec<u8> = Vec::new();
        let mut j: usize = 0;
        while j < count
            invariant
                j <= count,
                off + count <= dlen,
                dlen == self.content@.len(),
                out@ == self.content@.subrange(off as int, off + j),
            decreases count - j,
        {
            out.push(self.content[off + j]);
            j = j + 1;
            proof {
                assert(out@ =~= self.content@.subrange(off as int, off + j));
            }
        }
        proof {
            assert(out@ =~= read_range(self.content@, offset as nat, len as nat));
        }
        Ok(out)
    }

    fn read_cursor(&mut self, len: usize) -> (r: Result<Vec<u8>, Error>) {
        let dlen = self.content.len();
        let start = self.cursor;
        let out = match self.read_at(start, len) {
            Ok(out) => out,
            Err(e) => {
                return Err(e);
            },
        };
        proof {
            if (start as nat) < self.content@.len() {
                assert(out@.len() <= self.content@.len() - start as nat);
            } else {
                assert(out@.len() == 0);
            }
            assert(self.content@.len() == dlen);
        }
        self.cursor = start + out.len() as u64;
        Ok(out)
    }

    fn write_at(&mut self, offset: u64, buf: &Vec<u8>) -> (r: Result<usize, Error>) {
        if buf.len() == 0 {
            proof {
                assert(buf@.take(0) =~= buf@);
            }
            return Ok(0);
        }
        if offset > usize::MAX as u64 {
            return Err(Error::Kind(ErrorKind::Overflow));
        }
        let off = offset as usize;
        match off.checked_add(buf.len()) {
            Some(_) => {},
            None => {
                return Err(Error::Kind(ErrorKind::Overflow));
            },
        }
        splice_vec(&mut self.content, off, buf);
        proof {
            assert(buf@.take(buf@.len() as int) =~= buf@);
        }
        Ok(buf.len())
    }

    fn write_cursor(&mut self, buf: &Vec<u8>) -> (r: Result<usize, Error>) {
        let start = self.cursor;
        match start.checked_add(buf.len() as u64) {
            Some(end) => {
                if end > usize::MAX as u64 {
                    return Err(Error::Kind(ErrorKind::Overflow));
                }
            },
            None => {
                return Err(Error::Kind(ErrorKind::Overflow));
            },
        }
        let n = match self.write_at(start, buf) {
            Ok(n) => n,
            Err(e) => {
                return Err(e);
            },
        };
        self.cursor = start + n as u64;
        Ok(n)
    }

    fn seek(&mut self, whence: Whence, delta: i64) -> (r: Result<u64, Error>) {
        let base: u64 = match whence {
            Whence::Start => 0,
            Whence::Current => self.cursor,
            Whence::End => self.content.len() as u64,
        };
        let target: u64 = if delta >= 0 {
            match base.checked_add(delta as u64) {
                Some(t) => t,
                None => {
                    return Err(Error::Kind(ErrorKind::Overflow));
                },
            }
        } else {
            let magnitude: u64 = if delta == i64::MIN {
                9223372036854775808u64
            } else {
                (-delta) as u64
            };
            if base >= magnitude {
                base - magnitude
            } else {
                return Err(Error::Kind(ErrorKind::InvalidArgument));
            }
        };
        self.cursor = target;
        Ok(target)
    }

    fn sync(&mut self, with_metadata: bool) -> (r: Result<(), Error>) {
        Ok(())
    }

    fn advise(&mut self, offset: u64, len: u64, advice: Advice) -> (r: Result<(), Error>) {
        Ok(())
    }

    fn num_ready_bytes(&self) -> (r: Result<u64, Error>) {
        let l = self.content.len() as u64;
        if self.cursor >= l {
            Ok(0)
        } else {
            Ok(l - self.cursor)
        }
    }
}

} // verus!
