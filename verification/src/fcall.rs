//! The messages of 9P2000.L and the values they carry.
//!
//! Each message type has a mathematical view: itself where it holds only
//! integers and flags, else a `Spec` struct in which strings are sequences of
//! characters and byte buffers sequences of bytes.
use crate::flags::{GetattrMask, LOpenFlags, LockFlag, LockStatus, LockType, QidType, SetattrMask};
use crate::wire::{cow_bytes_owned, cow_str, cow_str_owned};
use std::borrow::Cow;
use vstd::prelude::*;
use vstd::utf8::encode_utf8;

verus! {

/// Special tag which `Tversion`/`Rversion` must use as `tag`
pub const NOTAG: u16 = 0xffff;

/// Special value which `Tattach` with no auth must use as `afid`
///
/// If the client does not wish to authenticate the connection, or knows that authentication is
/// not required, the afid field in the attach message should be set to `NOFID`
pub const NOFID: u32 = 0xffff_ffff;

/// Special uid which `Tauth`/`Tattach` use as `n_uname` to indicate no uid is specified
pub const NONUNAME: u32 = 0xffff_ffff;

/// Room for `Twrite`/`Rread` header
///
/// size[4] Tread/Twrite[2] tag[2] fid[4] offset[8] count[4]
pub const IOHDRSZ: u32 = 24;

/// Room for readdir header
pub const READDIRHDRSZ: u32 = 24;

/// Maximum elements in a single walk.
pub const MAXWELEM: usize = 13;

/// The protocol version this library speaks.
pub const P92000L: &'static str = "9P2000.L";

/// The server's unique identification of a file.
#[derive(Clone, Copy, Debug, PartialEq, Eq, Structural)]
pub struct Qid {
    pub typ: QidType,
    pub version: u32,
    pub path: u64,
}

impl View for Qid {
    type V = Qid;

    open spec fn view(&self) -> Qid {
        *self
    }
}

/// File system information, the reply to `Tstatfs`.
#[derive(Clone, Copy, Debug, PartialEq, Eq, Structural)]
pub struct Statfs {
    pub typ: u32,
    pub bsize: u32,
    pub blocks: u64,
    pub bfree: u64,
    pub bavail: u64,
    pub files: u64,
    pub ffree: u64,
    pub fsid: u64,
    pub namelen: u32,
}

impl View for Statfs {
    type V = Statfs;

    open spec fn view(&self) -> Statfs {
        *self
    }
}

/// A point in time: seconds and nanoseconds.
#[derive(Clone, Copy, Debug, PartialEq, Eq, Structural)]
pub struct Time {
    pub sec: u64,
    pub nsec: u64,
}

impl View for Time {
    type V = Time;

    open spec fn view(&self) -> Time {
        *self
    }
}

/// File attributes, the body of `Rgetattr`.
#[derive(Clone, Copy, Debug, PartialEq, Eq, Structural)]
pub struct Stat {
    pub mode: u32,
    pub uid: u32,
    pub gid: u32,
    pub nlink: u64,
    pub rdev: u64,
    pub size: u64,
    pub blksize: u64,
    pub blocks: u64,
    pub atime: Time,
    pub mtime: Time,
    pub ctime: Time,
    pub btime: Time,
    pub gen: u64,
    pub data_version: u64,
}

impl View for Stat {
    type V = Stat;

    open spec fn view(&self) -> Stat {
        *self
    }
}

/// Attributes to change, the body of `Tsetattr`.
#[derive(Clone, Copy, Debug, PartialEq, Eq, Structural)]
pub struct SetAttr {
    pub mode: u32,
    pub uid: u32,
    pub gid: u32,
    pub size: u64,
    pub atime: Time,
    pub mtime: Time,
}

impl View for SetAttr {
    type V = SetAttr;

    open spec fn view(&self) -> SetAttr {
        *self
    }
}

/// One entry of a directory listing.
#[derive(Clone, Debug)]
pub struct DirEntry<'a> {
    pub qid: Qid,
    pub offset: u64,
    pub typ: u8,
    pub name: Cow<'a, str>,
}

/// The value that a `DirEntry` stands for.
pub struct SpecDirEntry {
    pub qid: Qid,
    pub offset: u64,
    pub typ: u8,
    pub name: Seq<char>,
}

impl<'a> View for DirEntry<'a> {
    type V = SpecDirEntry;

    open spec fn view(&self) -> SpecDirEntry {
        SpecDirEntry {
            qid: self.qid,
            offset: self.offset,
            typ: self.typ,
            name: self.name@,
        }
    }
}

impl<'a> DirEntry<'a> {
    /// Every string and byte buffer in it is borrowed.
    pub open spec fn is_borrowed(&self) -> bool {
        self.name is Borrowed
    }

    /// Every string and byte buffer in it is owned.
    pub open spec fn is_owned(&self) -> bool {
        self.name is Owned
    }

    /// A copy that owns all of its data.
    pub fn clone_static(&self) -> (r: DirEntry<'static>)
        ensures
            r@ == self@,
            r.is_owned(),
    {
        DirEntry {
            qid: self.qid,
            offset: self.offset,
            typ: self.typ,
            name: cow_str_owned(&self.name),
        }
    }
}

/// The number of bytes that a directory entry takes on the wire.
pub open spec fn dirent_size(e: SpecDirEntry) -> int {
    13 + 8 + 1 + 2 + encode_utf8(e.name).len() as int
}

impl<'a> DirEntry<'a> {
    /// The number of bytes that the entry takes on the wire.
    pub fn size(&self) -> (r: u64)
        requires
            dirent_size(self@) <= u64::MAX,
        ensures
            r == dirent_size(self@),
    {
        let n: usize = cow_str(&self.name).as_bytes().len();
        13 + 8 + 1 + 2 + n as u64
    }
}

/// The views of a list of string `Cow`s.
pub open spec fn strs_view<'a>(v: Seq<Cow<'a, str>>) -> Seq<Seq<char>> {
    v.map_values(|c: Cow<'a, str>| c@)
}

/// An owned copy of a list of string `Cow`s.
pub fn strs_owned<'a>(v: &Vec<Cow<'a, str>>) -> (r: Vec<Cow<'static, str>>)
    ensures
        strs_view(r@) == strs_view(v@),
        forall|i: int| 0 <= i < r@.len() ==> #[trigger] r@[i] is Owned,
{
    let mut r: Vec<Cow<'static, str>> = Vec::new();
    let mut i: usize = 0;
    while i < v.len()
        invariant
            i <= v@.len(),
            r@.len() == i,
            forall|j: int| 0 <= j < i ==> r@[j]@ == v@[j]@,
            forall|j: int| 0 <= j < i ==> #[trigger] r@[j] is Owned,
        decreases v@.len() - i,
    {
        r.push(cow_str_owned(&v[i]));
        i = i + 1;
    }
    assert(strs_view(r@) =~= strs_view(v@));
    r
}

/// A copy of a list of qids.
pub fn copy_qids(v: &Vec<Qid>) -> (r: Vec<Qid>)
    ensures
        r@ == v@,
{
    let mut r: Vec<Qid> = Vec::new();
    let mut i: usize = 0;
    while i < v.len()
        invariant
            i <= v@.len(),
            r@ == v@.take(i as int),
        decreases v@.len() - i,
    {
        r.push(v[i]);
        i = i + 1;
        assert(r@ =~= v@.take(i as int));
    }
    assert(v@.take(i as int) =~= v@);
    r
}

/// The sum of the wire sizes of a list of directory entries.
pub open spec fn dirents_size(v: Seq<SpecDirEntry>) -> int
    decreases v.len(),
{
    if v.len() == 0 {
        0
    } else {
        dirent_size(v[0]) + dirents_size(v.skip(1))
    }
}

/// Adding an entry at the end adds its size.
pub proof fn lemma_dirents_size_push(v: Seq<SpecDirEntry>, e: SpecDirEntry)
    ensures
        dirents_size(v.push(e)) == dirents_size(v) + dirent_size(e),
    decreases v.len(),
{
    if v.len() == 0 {
        assert(v.push(e).skip(1) =~= Seq::<SpecDirEntry>::empty());
        assert(v.push(e)[0] == e);
        assert(dirents_size(v.push(e).skip(1)) == 0);
        assert(dirents_size(v) == 0);
    } else {
        lemma_dirents_size_push(v.skip(1), e);
        assert(v.push(e).skip(1) =~= v.skip(1).push(e));
        assert(v.push(e)[0] == v[0]);
    }
}

/// The entries of a directory listing, as carried by `Rreaddir`.
#[derive(Clone, Debug)]
pub struct DirEntryData<'a> {
    pub data: Vec<DirEntry<'a>>,
}

/// The views of a list of directory entries.
pub open spec fn dirents_view<'a>(v: Seq<DirEntry<'a>>) -> Seq<SpecDirEntry> {
    v.map_values(|e: DirEntry<'a>| e@)
}

impl<'a> View for DirEntryData<'a> {
    type V = Seq<SpecDirEntry>;

    open spec fn view(&self) -> Seq<SpecDirEntry> {
        dirents_view(self.data@)
    }
}

impl<'a> DirEntryData<'a> {
    /// Every entry's name is borrowed.
    pub open spec fn is_borrowed(&self) -> bool {
        forall|i: int| 0 <= i < self.data@.len() ==> #[trigger] self.data@[i].is_borrowed()
    }

    /// Every entry's name is owned.
    pub open spec fn is_owned(&self) -> bool {
        forall|i: int| 0 <= i < self.data@.len() ==> #[trigger] self.data@[i].is_owned()
    }

    pub fn new() -> (r: DirEntryData<'a>)
        ensures
            r@ == Seq::<SpecDirEntry>::empty(),
    {
        let r = Self::with(Vec::new());
        assert(r@ =~= Seq::<SpecDirEntry>::empty());
        r
    }

    pub fn with(v: Vec<DirEntry<'a>>) -> (r: DirEntryData<'a>)
        ensures
            r.data@ == v@,
    {
        DirEntryData { data: v }
    }

    pub fn data(&self) -> (r: &[DirEntry<'a>])
        ensures
            r@ == self.data@,
    {
        self.data.as_slice()
    }

    /// The number of bytes that the entries take on the wire.
    pub fn size(&self) -> (r: u64)
        requires
            dirents_size(self@) <= u64::MAX,
        ensures
            r == dirents_size(self@),
    {
        let mut total: u64 = 0;
        let mut i: usize = 0;
        while i < self.data.len()
            invariant
                i <= self.data@.len(),
                dirents_size(self@) <= u64::MAX,
                total == dirents_size(self@.take(i as int)),
            decreases self.data@.len() - i,
        {
            proof {
                lemma_dirents_size_push(self@.take(i as int), self@[i as int]);
                assert(self@.take(i as int).push(self@[i as int]) =~= self@.take(i + 1));
                lemma_dirents_size_prefix(self@, i + 1);
            }
            total = total + self.data[i].size();
            i = i + 1;
        }
        assert(self@.take(i as int) =~= self@);
        total
    }

    pub fn push(&mut self, entry: DirEntry<'a>)
        ensures
            final(self).data@ == old(self).data@.push(entry),
            final(self)@ == old(self)@.push(entry@),
    {
        self.data.push(entry);
        assert(final(self)@ =~= old(self)@.push(entry@));
    }

    /// A copy that owns all of its data.
    pub fn clone_static(&self) -> (r: DirEntryData<'static>)
        ensures
            r@ == self@,
            r.is_owned(),
    {
        let mut v: Vec<DirEntry<'static>> = Vec::new();
        let mut i: usize = 0;
        while i < self.data.len()
            invariant
                i <= self.data@.len(),
                v@.len() == i,
                forall|j: int| 0 <= j < i ==> v@[j]@ == self.data@[j]@,
                forall|j: int| 0 <= j < i ==> #[trigger] v@[j].is_owned(),
            decreases self.data@.len() - i,
        {
            v.push(self.data[i].clone_static());
            i = i + 1;
        }
        let r = DirEntryData { data: v };
        assert(r@ =~= self@);
        r
    }
}

/// No entry of a prefix is larger than the whole.
pub proof fn lemma_dirents_size_prefix(v: Seq<SpecDirEntry>, n: int)
    requires
        0 <= n <= v.len(),
    ensures
        dirents_size(v.take(n)) <= dirents_size(v),
    decreases v.len(),
{
    if n == 0 {
        assert(v.take(0) =~= Seq::<SpecDirEntry>::empty());
        lemma_dirents_size_nonneg(v);
    } else {
        lemma_dirents_size_prefix(v.skip(1), n - 1);
        assert(v.take(n).skip(1) =~= v.skip(1).take(n - 1));
    }
}

/// Sizes are never negative.
pub proof fn lemma_dirents_size_nonneg(v: Seq<SpecDirEntry>)
    ensures
        dirents_size(v) >= 0,
    decreases v.len(),
{
    if v.len() > 0 {
        lemma_dirents_size_nonneg(v.skip(1));
    }
}

impl<'a> Default for DirEntryData<'a> {
    fn default() -> (r: Self)
        ensures
            r@ == Seq::<SpecDirEntry>::empty(),
    {
        Self::new()
    }
}

/// A lock request, the body of `Tlock`.
#[derive(Clone, Debug)]
pub struct Flock<'a> {
    pub typ: LockType,
    pub flags: LockFlag,
    pub start: u64,
    pub length: u64,
    pub proc_id: u32,
    pub client_id: Cow<'a, str>,
}

/// The value that a `Flock` stands for.
pub struct SpecFlock {
    pub typ: LockType,
    pub flags: LockFlag,
    pub start: u64,
    pub length: u64,
    pub proc_id: u32,
    pub client_id: Seq<char>,
}

impl<'a> View for Flock<'a> {
    type V = SpecFlock;

    open spec fn view(&self) -> SpecFlock {
        SpecFlock {
            typ: self.typ,
            flags: self.flags,
            start: self.start,
            length: self.length,
            proc_id: self.proc_id,
            client_id: self.client_id@,
        }
    }
}

impl<'a> Flock<'a> {
    /// Every string and byte buffer in it is borrowed.
    pub open spec fn is_borrowed(&self) -> bool {
        self.client_id is Borrowed
    }

    /// Every string and byte buffer in it is owned.
    pub open spec fn is_owned(&self) -> bool {
        self.client_id is Owned
    }

    /// A copy that owns all of its data.
    pub fn clone_static(&self) -> (r: Flock<'static>)
        ensures
            r@ == self@,
            r.is_owned(),
    {
        Flock {
            typ: self.typ,
            flags: self.flags,
            start: self.start,
            length: self.length,
            proc_id: self.proc_id,
            client_id: cow_str_owned(&self.client_id),
        }
    }
}

/// A lock query, the body of `Tgetlock` and `Rgetlock`.
#[derive(Clone, Debug)]
pub struct Getlock<'a> {
    pub typ: LockType,
    pub start: u64,
    pub length: u64,
    pub proc_id: u32,
    pub client_id: Cow<'a, str>,
}

/// The value that a `Getlock` stands for.
pub struct SpecGetlock {
    pub typ: LockType,
    pub start: u64,
    pub length: u64,
    pub proc_id: u32,
    pub client_id: Seq<char>,
}

impl<'a> View for Getlock<'a> {
    type V = SpecGetlock;

    open spec fn view(&self) -> SpecGetlock {
        SpecGetlock {
            typ: self.typ,
            start: self.start,
            length: self.length,
            proc_id: self.proc_id,
            client_id: self.client_id@,
        }
    }
}

impl<'a> Getlock<'a> {
    /// Every string and byte buffer in it is borrowed.
    pub open spec fn is_borrowed(&self) -> bool {
        self.client_id is Borrowed
    }

    /// Every string and byte buffer in it is owned.
    pub open spec fn is_owned(&self) -> bool {
        self.client_id is Owned
    }

    /// A copy that owns all of its data.
    pub fn clone_static(&self) -> (r: Getlock<'static>)
        ensures
            r@ == self@,
            r.is_owned(),
    {
        Getlock {
            typ: self.typ,
            start: self.start,
            length: self.length,
            proc_id: self.proc_id,
            client_id: cow_str_owned(&self.client_id),
        }
    }
}

/// An error reply carrying a Linux error number.
#[derive(Clone, Copy, Debug, PartialEq, Eq, Structural)]
pub struct Rlerror {
    pub ecode: u32,
}

impl View for Rlerror {
    type V = Rlerror;

    open spec fn view(&self) -> Rlerror {
        *self
    }
}

/// Attaches `fid` to the root of the file tree `aname` for user `uname`.
#[derive(Clone, Debug)]
pub struct Tattach<'a> {
    pub fid: u32,
    pub afid: u32,
    pub uname: Cow<'a, str>,
    pub aname: Cow<'a, str>,
    pub n_uname: u32,
}

/// The value that a `Tattach` stands for.
pub struct SpecTattach {
    pub fid: u32,
    pub afid: u32,
    pub uname: Seq<char>,
    pub aname: Seq<char>,
    pub n_uname: u32,
}

impl<'a> View for Tattach<'a> {
    type V = SpecTattach;

    open spec fn view(&self) -> SpecTattach {
        SpecTattach {
            fid: self.fid,
            afid: self.afid,
            uname: self.uname@,
            aname: self.aname@,
            n_uname: self.n_uname,
        }
    }
}

impl<'a> Tattach<'a> {
    /// Every string and byte buffer in it is borrowed.
    pub open spec fn is_borrowed(&self) -> bool {
        self.uname is Borrowed
        && self.aname is Borrowed
    }

    /// Every string and byte buffer in it is owned.
    pub open spec fn is_owned(&self) -> bool {
        self.uname is Owned
        && self.aname is Owned
    }

    /// A copy that owns all of its data.
    pub fn clone_static(&self) -> (r: Tattach<'static>)
        ensures
            r@ == self@,
            r.is_owned(),
    {
        Tattach {
            fid: self.fid,
            afid: self.afid,
            uname: cow_str_owned(&self.uname),
            aname: cow_str_owned(&self.aname),
            n_uname: self.n_uname,
        }
    }
}

/// Reply to `Tattach`: the root's qid.
#[derive(Clone, Copy, Debug, PartialEq, Eq, Structural)]
pub struct Rattach {
    pub qid: Qid,
}

impl View for Rattach {
    type V = Rattach;

    open spec fn view(&self) -> Rattach {
        *self
    }
}

/// Asks for the file system information of `fid`'s file system.
#[derive(Clone, Copy, Debug, PartialEq, Eq, Structural)]
pub struct Tstatfs {
    pub fid: u32,
}

impl View for Tstatfs {
    type V = Tstatfs;

    open spec fn view(&self) -> Tstatfs {
        *self
    }
}

/// Reply to `Tstatfs`.
#[derive(Clone, Copy, Debug, PartialEq, Eq, Structural)]
pub struct Rstatfs {
    pub statfs: Statfs,
}

impl View for Rstatfs {
    type V = Rstatfs;

    open spec fn view(&self) -> Rstatfs {
        *self
    }
}

/// Opens `fid` with Linux open flags.
#[derive(Clone, Copy, Debug, PartialEq, Eq, Structural)]
pub struct Tlopen {
    pub fid: u32,
    pub flags: LOpenFlags,
}

impl View for Tlopen {
    type V = Tlopen;

    open spec fn view(&self) -> Tlopen {
        *self
    }
}

/// Reply to `Tlopen`: the file's qid and the I/O unit.
#[derive(Clone, Copy, Debug, PartialEq, Eq, Structural)]
pub struct Rlopen {
    pub qid: Qid,
    pub iounit: u32,
}

impl View for Rlopen {
    type V = Rlopen;

    open spec fn view(&self) -> Rlopen {
        *self
    }
}

/// Creates and opens the file `name` in the directory `fid`.
#[derive(Clone, Debug)]
pub struct Tlcreate<'a> {
    pub fid: u32,
    pub name: Cow<'a, str>,
    pub flags: LOpenFlags,
    pub mode: u32,
    pub gid: u32,
}

/// The value that a `Tlcreate` stands for.
pub struct SpecTlcreate {
    pub fid: u32,
    pub name: Seq<char>,
    pub flags: LOpenFlags,
    pub mode: u32,
    pub gid: u32,
}

impl<'a> View for Tlcreate<'a> {
    type V = SpecTlcreate;

    open spec fn view(&self) -> SpecTlcreate {
        SpecTlcreate {
            fid: self.fid,
            name: self.name@,
            flags: self.flags,
            mode: self.mode,
            gid: self.gid,
        }
    }
}

impl<'a> Tlcreate<'a> {
    /// Every string and byte buffer in it is borrowed.
    pub open spec fn is_borrowed(&self) -> bool {
        self.name is Borrowed
    }

    /// Every string and byte buffer in it is owned.
    pub open spec fn is_owned(&self) -> bool {
        self.name is Owned
    }

    /// A copy that owns all of its data.
    pub fn clone_static(&self) -> (r: Tlcreate<'static>)
        ensures
            r@ == self@,
            r.is_owned(),
    {
        Tlcreate {
            fid: self.fid,
            name: cow_str_owned(&self.name),
            flags: self.flags,
            mode: self.mode,
            gid: self.gid,
        }
    }
}

/// Reply to `Tlcreate`: the new file's qid and the I/O unit.
#[derive(Clone, Copy, Debug, PartialEq, Eq, Structural)]
pub struct Rlcreate {
    pub qid: Qid,
    pub iounit: u32,
}

impl View for Rlcreate {
    type V = Rlcreate;

    open spec fn view(&self) -> Rlcreate {
        *self
    }
}

/// Creates the symbolic link `name` to `symtgt` in the directory `fid`.
#[derive(Clone, Debug)]
pub struct Tsymlink<'a> {
    pub fid: u32,
    pub name: Cow<'a, str>,
    pub symtgt: Cow<'a, str>,
    pub gid: u32,
}

/// The value that a `Tsymlink` stands for.
pub struct SpecTsymlink {
    pub fid: u32,
    pub name: Seq<char>,
    pub symtgt: Seq<char>,
    pub gid: u32,
}

impl<'a> View for Tsymlink<'a> {
    type V = SpecTsymlink;

    open spec fn view(&self) -> SpecTsymlink {
        SpecTsymlink {
            fid: self.fid,
            name: self.name@,
            symtgt: self.symtgt@,
            gid: self.gid,
        }
    }
}

impl<'a> Tsymlink<'a> {
    /// Every string and byte buffer in it is borrowed.
    pub open spec fn is_borrowed(&self) -> bool {
        self.name is Borrowed
        && self.symtgt is Borrowed
    }

    /// Every string and byte buffer in it is owned.
    pub open spec fn is_owned(&self) -> bool {
        self.name is Owned
        && self.symtgt is Owned
    }

    /// A copy that owns all of its data.
    pub fn clone_static(&self) -> (r: Tsymlink<'static>)
        ensures
            r@ == self@,
            r.is_owned(),
    {
        Tsymlink {
            fid: self.fid,
            name: cow_str_owned(&self.name),
            symtgt: cow_str_owned(&self.symtgt),
            gid: self.gid,
        }
    }
}

/// Reply to `Tsymlink`: the link's qid.
#[derive(Clone, Copy, Debug, PartialEq, Eq, Structural)]
pub struct Rsymlink {
    pub qid: Qid,
}

impl View for Rsymlink {
    type V = Rsymlink;

    open spec fn view(&self) -> Rsymlink {
        *self
    }
}

/// Creates the device node `name` in the directory `dfid`.
#[derive(Clone, Debug)]
pub struct Tmknod<'a> {
    pub dfid: u32,
    pub name: Cow<'a, str>,
    pub mode: u32,
    pub major: u32,
    pub minor: u32,
    pub gid: u32,
}

/// The value that a `Tmknod` stands for.
pub struct SpecTmknod {
    pub dfid: u32,
    pub name: Seq<char>,
    pub mode: u32,
    pub major: u32,
    pub minor: u32,
    pub gid: u32,
}

impl<'a> View for Tmknod<'a> {
    type V = SpecTmknod;

    open spec fn view(&self) -> SpecTmknod {
        SpecTmknod {
            dfid: self.dfid,
            name: self.name@,
            mode: self.mode,
            major: self.major,
            minor: self.minor,
            gid: self.gid,
        }
    }
}

impl<'a> Tmknod<'a> {
    /// Every string and byte buffer in it is borrowed.
    pub open spec fn is_borrowed(&self) -> bool {
        self.name is Borrowed
    }

    /// Every string and byte buffer in it is owned.
    pub open spec fn is_owned(&self) -> bool {
        self.name is Owned
    }

    /// A copy that owns all of its data.
    pub fn clone_static(&self) -> (r: Tmknod<'static>)
        ensures
            r@ == self@,
            r.is_owned(),
    {
        Tmknod {
            dfid: self.dfid,
            name: cow_str_owned(&self.name),
            mode: self.mode,
            major: self.major,
            minor: self.minor,
            gid: self.gid,
        }
    }
}

/// Reply to `Tmknod`: the node's qid.
#[derive(Clone, Copy, Debug, PartialEq, Eq, Structural)]
pub struct Rmknod {
    pub qid: Qid,
}

impl View for Rmknod {
    type V = Rmknod;

    open spec fn view(&self) -> Rmknod {
        *self
    }
}

/// Moves the file of `fid` to `name` in the directory `dfid`.
#[derive(Clone, Debug)]
pub struct Trename<'a> {
    pub fid: u32,
    pub dfid: u32,
    pub name: Cow<'a, str>,
}

/// The value that a `Trename` stands for.
pub struct SpecTrename {
    pub fid: u32,
    pub dfid: u32,
    pub name: Seq<char>,
}

impl<'a> View for Trename<'a> {
    type V = SpecTrename;

    open spec fn view(&self) -> SpecTrename {
        SpecTrename {
            fid: self.fid,
            dfid: self.dfid,
            name: self.name@,
        }
    }
}

impl<'a> Trename<'a> {
    /// Every string and byte buffer in it is borrowed.
    pub open spec fn is_borrowed(&self) -> bool {
        self.name is Borrowed
    }

    /// Every string and byte buffer in it is owned.
    pub open spec fn is_owned(&self) -> bool {
        self.name is Owned
    }

    /// A copy that owns all of its data.
    pub fn clone_static(&self) -> (r: Trename<'static>)
        ensures
            r@ == self@,
            r.is_owned(),
    {
        Trename {
            fid: self.fid,
            dfid: self.dfid,
            name: cow_str_owned(&self.name),
        }
    }
}

/// Reply to `Trename`.
#[derive(Clone, Copy, Debug, PartialEq, Eq, Structural)]
pub struct Rrename {}

impl View for Rrename {
    type V = Rrename;

    open spec fn view(&self) -> Rrename {
        *self
    }
}

/// Asks for the target of the symbolic link `fid`.
#[derive(Clone, Copy, Debug, PartialEq, Eq, Structural)]
pub struct Treadlink {
    pub fid: u32,
}

impl View for Treadlink {
    type V = Treadlink;

    open spec fn view(&self) -> Treadlink {
        *self
    }
}

/// Reply to `Treadlink`: the target.
#[derive(Clone, Debug)]
pub struct Rreadlink<'a> {
    pub target: Cow<'a, str>,
}

/// The value that a `Rreadlink` stands for.
pub struct SpecRreadlink {
    pub target: Seq<char>,
}

impl<'a> View for Rreadlink<'a> {
    type V = SpecRreadlink;

    open spec fn view(&self) -> SpecRreadlink {
        SpecRreadlink {
            target: self.target@,
        }
    }
}

impl<'a> Rreadlink<'a> {
    /// Every string and byte buffer in it is borrowed.
    pub open spec fn is_borrowed(&self) -> bool {
        self.target is Borrowed
    }

    /// Every string and byte buffer in it is owned.
    pub open spec fn is_owned(&self) -> bool {
        self.target is Owned
    }

    /// A copy that owns all of its data.
    pub fn clone_static(&self) -> (r: Rreadlink<'static>)
        ensures
            r@ == self@,
            r.is_owned(),
    {
        Rreadlink {
            target: cow_str_owned(&self.target),
        }
    }
}

/// Asks for the attributes of `fid` that `req_mask` names.
#[derive(Clone, Copy, Debug, PartialEq, Eq, Structural)]
pub struct Tgetattr {
    pub fid: u32,
    pub req_mask: GetattrMask,
}

impl View for Tgetattr {
    type V = Tgetattr;

    open spec fn view(&self) -> Tgetattr {
        *self
    }
}

/// Reply to `Tgetattr`: the attributes, those filled in named by `valid`.
#[derive(Clone, Copy, Debug, PartialEq, Eq, Structural)]
pub struct Rgetattr {
    pub valid: GetattrMask,
    pub qid: Qid,
    pub stat: Stat,
}

impl View for Rgetattr {
    type V = Rgetattr;

    open spec fn view(&self) -> Rgetattr {
        *self
    }
}

/// Sets the attributes of `fid` that `valid` names.
#[derive(Clone, Copy, Debug, PartialEq, Eq, Structural)]
pub struct Tsetattr {
    pub fid: u32,
    pub valid: SetattrMask,
    pub stat: SetAttr,
}

impl View for Tsetattr {
    type V = Tsetattr;

    open spec fn view(&self) -> Tsetattr {
        *self
    }
}

/// Reply to `Tsetattr`.
#[derive(Clone, Copy, Debug, PartialEq, Eq, Structural)]
pub struct Rsetattr {}

impl View for Rsetattr {
    type V = Rsetattr;

    open spec fn view(&self) -> Rsetattr {
        *self
    }
}

/// Opens the extended attribute `name` of `fid` for reading through `new_fid`.
#[derive(Clone, Debug)]
pub struct Txattrwalk<'a> {
    pub fid: u32,
    pub new_fid: u32,
    pub name: Cow<'a, str>,
}

/// The value that a `Txattrwalk` stands for.
pub struct SpecTxattrwalk {
    pub fid: u32,
    pub new_fid: u32,
    pub name: Seq<char>,
}

impl<'a> View for Txattrwalk<'a> {
    type V = SpecTxattrwalk;

    open spec fn view(&self) -> SpecTxattrwalk {
        SpecTxattrwalk {
            fid: self.fid,
            new_fid: self.new_fid,
            name: self.name@,
        }
    }
}

impl<'a> Txattrwalk<'a> {
    /// Every string and byte buffer in it is borrowed.
    pub open spec fn is_borrowed(&self) -> bool {
        self.name is Borrowed
    }

    /// Every string and byte buffer in it is owned.
    pub open spec fn is_owned(&self) -> bool {
        self.name is Owned
    }

    /// A copy that owns all of its data.
    pub fn clone_static(&self) -> (r: Txattrwalk<'static>)
        ensures
            r@ == self@,
            r.is_owned(),
    {
        Txattrwalk {
            fid: self.fid,
            new_fid: self.new_fid,
            name: cow_str_owned(&self.name),
        }
    }
}

/// Reply to `Txattrwalk`: the attribute's size.
#[derive(Clone, Copy, Debug, PartialEq, Eq, Structural)]
pub struct Rxattrwalk {
    pub size: u64,
}

impl View for Rxattrwalk {
    type V = Rxattrwalk;

    open spec fn view(&self) -> Rxattrwalk {
        *self
    }
}

/// Prepares `fid` for writing the extended attribute `name`.
#[derive(Clone, Debug)]
pub struct Txattrcreate<'a> {
    pub fid: u32,
    pub name: Cow<'a, str>,
    pub attr_size: u64,
    pub flags: u32,
}

/// The value that a `Txattrcreate` stands for.
pub struct SpecTxattrcreate {
    pub fid: u32,
    pub name: Seq<char>,
    pub attr_size: u64,
    pub flags: u32,
}

impl<'a> View for Txattrcreate<'a> {
    type V = SpecTxattrcreate;

    open spec fn view(&self) -> SpecTxattrcreate {
        SpecTxattrcreate {
            fid: self.fid,
            name: self.name@,
            attr_size: self.attr_size,
            flags: self.flags,
        }
    }
}

impl<'a> Txattrcreate<'a> {
    /// Every string and byte buffer in it is borrowed.
    pub open spec fn is_borrowed(&self) -> bool {
        self.name is Borrowed
    }

    /// Every string and byte buffer in it is owned.
    pub open spec fn is_owned(&self) -> bool {
        self.name is Owned
    }

    /// A copy that owns all of its data.
    pub fn clone_static(&self) -> (r: Txattrcreate<'static>)
        ensures
            r@ == self@,
            r.is_owned(),
    {
        Txattrcreate {
            fid: self.fid,
            name: cow_str_owned(&self.name),
            attr_size: self.attr_size,
            flags: self.flags,
        }
    }
}

/// Reply to `Txattrcreate`.
#[derive(Clone, Copy, Debug, PartialEq, Eq, Structural)]
pub struct Rxattrcreate {}

impl View for Rxattrcreate {
    type V = Rxattrcreate;

    open spec fn view(&self) -> Rxattrcreate {
        *self
    }
}

/// Asks for the entries of the directory `fid` from `offset`, in at most `count` bytes.
#[derive(Clone, Copy, Debug, PartialEq, Eq, Structural)]
pub struct Treaddir {
    pub fid: u32,
    pub offset: u64,
    pub count: u32,
}

impl View for Treaddir {
    type V = Treaddir;

    open spec fn view(&self) -> Treaddir {
        *self
    }
}

/// Reply to `Treaddir`: the entries.
#[derive(Clone, Debug)]
pub struct Rreaddir<'a> {
    pub data: DirEntryData<'a>,
}

/// The value that a `Rreaddir` stands for.
pub struct SpecRreaddir {
    pub data: Seq<SpecDirEntry>,
}

impl<'a> View for Rreaddir<'a> {
    type V = SpecRreaddir;

    open spec fn view(&self) -> SpecRreaddir {
        SpecRreaddir {
            data: self.data@,
        }
    }
}

impl<'a> Rreaddir<'a> {
    /// Every string and byte buffer in it is borrowed.
    pub open spec fn is_borrowed(&self) -> bool {
        self.data.is_borrowed()
    }

    /// Every string and byte buffer in it is owned.
    pub open spec fn is_owned(&self) -> bool {
        self.data.is_owned()
    }

    /// A copy that owns all of its data.
    pub fn clone_static(&self) -> (r: Rreaddir<'static>)
        ensures
            r@ == self@,
            r.is_owned(),
    {
        Rreaddir {
            data: self.data.clone_static(),
        }
    }
}

/// Flushes the file of `fid` to stable storage.
#[derive(Clone, Copy, Debug, PartialEq, Eq, Structural)]
pub struct Tfsync {
    pub fid: u32,
}

impl View for Tfsync {
    type V = Tfsync;

    open spec fn view(&self) -> Tfsync {
        *self
    }
}

/// Reply to `Tfsync`.
#[derive(Clone, Copy, Debug, PartialEq, Eq, Structural)]
pub struct Rfsync {}

impl View for Rfsync {
    type V = Rfsync;

    open spec fn view(&self) -> Rfsync {
        *self
    }
}

/// Takes or releases a POSIX record lock on `fid`.
#[derive(Clone, Debug)]
pub struct Tlock<'a> {
    pub fid: u32,
    pub flock: Flock<'a>,
}

/// The value that a `Tlock` stands for.
pub struct SpecTlock {
    pub fid: u32,
    pub flock: SpecFlock,
}

impl<'a> View for Tlock<'a> {
    type V = SpecTlock;

    open spec fn view(&self) -> SpecTlock {
        SpecTlock {
            fid: self.fid,
            flock: self.flock@,
        }
    }
}

impl<'a> Tlock<'a> {
    /// Every string and byte buffer in it is borrowed.
    pub open spec fn is_borrowed(&self) -> bool {
        self.flock.is_borrowed()
    }

    /// Every string and byte buffer in it is owned.
    pub open spec fn is_owned(&self) -> bool {
        self.flock.is_owned()
    }

    /// A copy that owns all of its data.
    pub fn clone_static(&self) -> (r: Tlock<'static>)
        ensures
            r@ == self@,
            r.is_owned(),
    {
        Tlock {
            fid: self.fid,
            flock: self.flock.clone_static(),
        }
    }
}

/// Reply to `Tlock`: the lock's status.
#[derive(Clone, Copy, Debug, PartialEq, Eq, Structural)]
pub struct Rlock {
    pub status: LockStatus,
}

impl View for Rlock {
    type V = Rlock;

    open spec fn view(&self) -> Rlock {
        *self
    }
}

/// Tests for a POSIX record lock on `fid`.
#[derive(Clone, Debug)]
pub struct Tgetlock<'a> {
    pub fid: u32,
    pub flock: Getlock<'a>,
}

/// The value that a `Tgetlock` stands for.
pub struct SpecTgetlock {
    pub fid: u32,
    pub flock: SpecGetlock,
}

impl<'a> View for Tgetlock<'a> {
    type V = SpecTgetlock;

    open spec fn view(&self) -> SpecTgetlock {
        SpecTgetlock {
            fid: self.fid,
            flock: self.flock@,
        }
    }
}

impl<'a> Tgetlock<'a> {
    /// Every string and byte buffer in it is borrowed.
    pub open spec fn is_borrowed(&self) -> bool {
        self.flock.is_borrowed()
    }

    /// Every string and byte buffer in it is owned.
    pub open spec fn is_owned(&self) -> bool {
        self.flock.is_owned()
    }

    /// A copy that owns all of its data.
    pub fn clone_static(&self) -> (r: Tgetlock<'static>)
        ensures
            r@ == self@,
            r.is_owned(),
    {
        Tgetlock {
            fid: self.fid,
            flock: self.flock.clone_static(),
        }
    }
}

/// Reply to `Tgetlock`: the lock that would conflict, if any.
#[derive(Clone, Debug)]
pub struct Rgetlock<'a> {
    pub flock: Getlock<'a>,
}

/// The value that a `Rgetlock` stands for.
pub struct SpecRgetlock {
    pub flock: SpecGetlock,
}

impl<'a> View for Rgetlock<'a> {
    type V = SpecRgetlock;

    open spec fn view(&self) -> SpecRgetlock {
        SpecRgetlock {
            flock: self.flock@,
        }
    }
}

impl<'a> Rgetlock<'a> {
    /// Every string and byte buffer in it is borrowed.
    pub open spec fn is_borrowed(&self) -> bool {
        self.flock.is_borrowed()
    }

    /// Every string and byte buffer in it is owned.
    pub open spec fn is_owned(&self) -> bool {
        self.flock.is_owned()
    }

    /// A copy that owns all of its data.
    pub fn clone_static(&self) -> (r: Rgetlock<'static>)
        ensures
            r@ == self@,
            r.is_owned(),
    {
        Rgetlock {
            flock: self.flock.clone_static(),
        }
    }
}

/// Creates the hard link `name` in the directory `dfid` to the file of `fid`.
#[derive(Clone, Debug)]
pub struct Tlink<'a> {
    pub dfid: u32,
    pub fid: u32,
    pub name: Cow<'a, str>,
}

/// The value that a `Tlink` stands for.
pub struct SpecTlink {
    pub dfid: u32,
    pub fid: u32,
    pub name: Seq<char>,
}

impl<'a> View for Tlink<'a> {
    type V = SpecTlink;

    open spec fn view(&self) -> SpecTlink {
        SpecTlink {
            dfid: self.dfid,
            fid: self.fid,
            name: self.name@,
        }
    }
}

impl<'a> Tlink<'a> {
    /// Every string and byte buffer in it is borrowed.
    pub open spec fn is_borrowed(&self) -> bool {
        self.name is Borrowed
    }

    /// Every string and byte buffer in it is owned.
    pub open spec fn is_owned(&self) -> bool {
        self.name is Owned
    }

    /// A copy that owns all of its data.
    pub fn clone_static(&self) -> (r: Tlink<'static>)
        ensures
            r@ == self@,
            r.is_owned(),
    {
        Tlink {
            dfid: self.dfid,
            fid: self.fid,
            name: cow_str_owned(&self.name),
        }
    }
}

/// Reply to `Tlink`.
#[derive(Clone, Copy, Debug, PartialEq, Eq, Structural)]
pub struct Rlink {}

impl View for Rlink {
    type V = Rlink;

    open spec fn view(&self) -> Rlink {
        *self
    }
}

/// Creates the directory `name` in the directory `dfid`.
#[derive(Clone, Debug)]
pub struct Tmkdir<'a> {
    pub dfid: u32,
    pub name: Cow<'a, str>,
    pub mode: u32,
    pub gid: u32,
}

/// The value that a `Tmkdir` stands for.
pub struct SpecTmkdir {
    pub dfid: u32,
    pub name: Seq<char>,
    pub mode: u32,
    pub gid: u32,
}

impl<'a> View for Tmkdir<'a> {
    type V = SpecTmkdir;

    open spec fn view(&self) -> SpecTmkdir {
        SpecTmkdir {
            dfid: self.dfid,
            name: self.name@,
            mode: self.mode,
            gid: self.gid,
        }
    }
}

impl<'a> Tmkdir<'a> {
    /// Every string and byte buffer in it is borrowed.
    pub open spec fn is_borrowed(&self) -> bool {
        self.name is Borrowed
    }

    /// Every string and byte buffer in it is owned.
    pub open spec fn is_owned(&self) -> bool {
        self.name is Owned
    }

    /// A copy that owns all of its data.
    pub fn clone_static(&self) -> (r: Tmkdir<'static>)
        ensures
            r@ == self@,
            r.is_owned(),
    {
        Tmkdir {
            dfid: self.dfid,
            name: cow_str_owned(&self.name),
            mode: self.mode,
            gid: self.gid,
        }
    }
}

/// Reply to `Tmkdir`: the new directory's qid.
#[derive(Clone, Copy, Debug, PartialEq, Eq, Structural)]
pub struct Rmkdir {
    pub qid: Qid,
}

impl View for Rmkdir {
    type V = Rmkdir;

    open spec fn view(&self) -> Rmkdir {
        *self
    }
}

/// Renames `oldname` in `olddfid` to `newname` in `newdfid`.
#[derive(Clone, Debug)]
pub struct Trenameat<'a> {
    pub olddfid: u32,
    pub oldname: Cow<'a, str>,
    pub newdfid: u32,
    pub newname: Cow<'a, str>,
}

/// The value that a `Trenameat` stands for.
pub struct SpecTrenameat {
    pub olddfid: u32,
    pub oldname: Seq<char>,
    pub newdfid: u32,
    pub newname: Seq<char>,
}

impl<'a> View for Trenameat<'a> {
    type V = SpecTrenameat;

    open spec fn view(&self) -> SpecTrenameat {
        SpecTrenameat {
            olddfid: self.olddfid,
            oldname: self.oldname@,
            newdfid: self.newdfid,
            newname: self.newname@,
        }
    }
}

impl<'a> Trenameat<'a> {
    /// Every string and byte buffer in it is borrowed.
    pub open spec fn is_borrowed(&self) -> bool {
        self.oldname is Borrowed
        && self.newname is Borrowed
    }

    /// Every string and byte buffer in it is owned.
    pub open spec fn is_owned(&self) -> bool {
        self.oldname is Owned
        && self.newname is Owned
    }

    /// A copy that owns all of its data.
    pub fn clone_static(&self) -> (r: Trenameat<'static>)
        ensures
            r@ == self@,
            r.is_owned(),
    {
        Trenameat {
            olddfid: self.olddfid,
            oldname: cow_str_owned(&self.oldname),
            newdfid: self.newdfid,
            newname: cow_str_owned(&self.newname),
        }
    }
}

/// Reply to `Trenameat`.
#[derive(Clone, Copy, Debug, PartialEq, Eq, Structural)]
pub struct Rrenameat {}

impl View for Rrenameat {
    type V = Rrenameat;

    open spec fn view(&self) -> Rrenameat {
        *self
    }
}

/// Removes `name` from the directory `dfid`.
#[derive(Clone, Debug)]
pub struct Tunlinkat<'a> {
    pub dfid: u32,
    pub name: Cow<'a, str>,
    pub flags: u32,
}

/// The value that a `Tunlinkat` stands for.
pub struct SpecTunlinkat {
    pub dfid: u32,
    pub name: Seq<char>,
    pub flags: u32,
}

impl<'a> View for Tunlinkat<'a> {
    type V = SpecTunlinkat;

    open spec fn view(&self) -> SpecTunlinkat {
        SpecTunlinkat {
            dfid: self.dfid,
            name: self.name@,
            flags: self.flags,
        }
    }
}

impl<'a> Tunlinkat<'a> {
    /// Every string and byte buffer in it is borrowed.
    pub open spec fn is_borrowed(&self) -> bool {
        self.name is Borrowed
    }

    /// Every string and byte buffer in it is owned.
    pub open spec fn is_owned(&self) -> bool {
        self.name is Owned
    }

    /// A copy that owns all of its data.
    pub fn clone_static(&self) -> (r: Tunlinkat<'static>)
        ensures
            r@ == self@,
            r.is_owned(),
    {
        Tunlinkat {
            dfid: self.dfid,
            name: cow_str_owned(&self.name),
            flags: self.flags,
        }
    }
}

/// Reply to `Tunlinkat`.
#[derive(Clone, Copy, Debug, PartialEq, Eq, Structural)]
pub struct Runlinkat {}

impl View for Runlinkat {
    type V = Runlinkat;

    open spec fn view(&self) -> Runlinkat {
        *self
    }
}

/// Opens `afid` for authenticating `uname` to the file tree `aname`.
#[derive(Clone, Debug)]
pub struct Tauth<'a> {
    pub afid: u32,
    pub uname: Cow<'a, str>,
    pub aname: Cow<'a, str>,
    pub n_uname: u32,
}

/// The value that a `Tauth` stands for.
pub struct SpecTauth {
    pub afid: u32,
    pub uname: Seq<char>,
    pub aname: Seq<char>,
    pub n_uname: u32,
}

impl<'a> View for Tauth<'a> {
    type V = SpecTauth;

    open spec fn view(&self) -> SpecTauth {
        SpecTauth {
            afid: self.afid,
            uname: self.uname@,
            aname: self.aname@,
            n_uname: self.n_uname,
        }
    }
}

impl<'a> Tauth<'a> {
    /// Every string and byte buffer in it is borrowed.
    pub open spec fn is_borrowed(&self) -> bool {
        self.uname is Borrowed
        && self.aname is Borrowed
    }

    /// Every string and byte buffer in it is owned.
    pub open spec fn is_owned(&self) -> bool {
        self.uname is Owned
        && self.aname is Owned
    }

    /// A copy that owns all of its data.
    pub fn clone_static(&self) -> (r: Tauth<'static>)
        ensures
            r@ == self@,
            r.is_owned(),
    {
        Tauth {
            afid: self.afid,
            uname: cow_str_owned(&self.uname),
            aname: cow_str_owned(&self.aname),
            n_uname: self.n_uname,
        }
    }
}

/// Reply to `Tauth`: the authentication file's qid.
#[derive(Clone, Copy, Debug, PartialEq, Eq, Structural)]
pub struct Rauth {
    pub aqid: Qid,
}

impl View for Rauth {
    type V = Rauth;

    open spec fn view(&self) -> Rauth {
        *self
    }
}

/// Starts a session: the largest message size and the protocol version.
#[derive(Clone, Debug)]
pub struct Tversion<'a> {
    pub msize: u32,
    pub version: Cow<'a, str>,
}

/// The value that a `Tversion` stands for.
pub struct SpecTversion {
    pub msize: u32,
    pub version: Seq<char>,
}

impl<'a> View for Tversion<'a> {
    type V = SpecTversion;

    open spec fn view(&self) -> SpecTversion {
        SpecTversion {
            msize: self.msize,
            version: self.version@,
        }
    }
}

impl<'a> Tversion<'a> {
    /// Every string and byte buffer in it is borrowed.
    pub open spec fn is_borrowed(&self) -> bool {
        self.version is Borrowed
    }

    /// Every string and byte buffer in it is owned.
    pub open spec fn is_owned(&self) -> bool {
        self.version is Owned
    }

    /// A copy that owns all of its data.
    pub fn clone_static(&self) -> (r: Tversion<'static>)
        ensures
            r@ == self@,
            r.is_owned(),
    {
        Tversion {
            msize: self.msize,
            version: cow_str_owned(&self.version),
        }
    }
}

/// Reply to `Tversion`: the message size and version the server agrees to.
#[derive(Clone, Debug)]
pub struct Rversion<'a> {
    pub msize: u32,
    pub version: Cow<'a, str>,
}

/// The value that a `Rversion` stands for.
pub struct SpecRversion {
    pub msize: u32,
    pub version: Seq<char>,
}

impl<'a> View for Rversion<'a> {
    type V = SpecRversion;

    open spec fn view(&self) -> SpecRversion {
        SpecRversion {
            msize: self.msize,
            version: self.version@,
        }
    }
}

impl<'a> Rversion<'a> {
    /// Every string and byte buffer in it is borrowed.
    pub open spec fn is_borrowed(&self) -> bool {
        self.version is Borrowed
    }

    /// Every string and byte buffer in it is owned.
    pub open spec fn is_owned(&self) -> bool {
        self.version is Owned
    }

    /// A copy that owns all of its data.
    pub fn clone_static(&self) -> (r: Rversion<'static>)
        ensures
            r@ == self@,
            r.is_owned(),
    {
        Rversion {
            msize: self.msize,
            version: cow_str_owned(&self.version),
        }
    }
}

/// Aborts the request with the tag `oldtag`.
#[derive(Clone, Copy, Debug, PartialEq, Eq, Structural)]
pub struct Tflush {
    pub oldtag: u16,
}

impl View for Tflush {
    type V = Tflush;

    open spec fn view(&self) -> Tflush {
        *self
    }
}

/// Reply to `Tflush`.
#[derive(Clone, Copy, Debug, PartialEq, Eq, Structural)]
pub struct Rflush {}

impl View for Rflush {
    type V = Rflush;

    open spec fn view(&self) -> Rflush {
        *self
    }
}

/// Walks from `fid` through `wnames` and names the result `new_fid`.
#[derive(Clone, Debug)]
pub struct Twalk<'a> {
    pub fid: u32,
    pub new_fid: u32,
    pub wnames: Vec<Cow<'a, str>>,
}

/// The value that a `Twalk` stands for.
pub struct SpecTwalk {
    pub fid: u32,
    pub new_fid: u32,
    pub wnames: Seq<Seq<char>>,
}

impl<'a> View for Twalk<'a> {
    type V = SpecTwalk;

    open spec fn view(&self) -> SpecTwalk {
        SpecTwalk {
            fid: self.fid,
            new_fid: self.new_fid,
            wnames: strs_view(self.wnames@),
        }
    }
}

impl<'a> Twalk<'a> {
    /// Every string and byte buffer in it is borrowed.
    pub open spec fn is_borrowed(&self) -> bool {
        (forall|i: int| 0 <= i < self.wnames@.len() ==> #[trigger] self.wnames@[i] is Borrowed)
    }

    /// Every string and byte buffer in it is owned.
    pub open spec fn is_owned(&self) -> bool {
        (forall|i: int| 0 <= i < self.wnames@.len() ==> #[trigger] self.wnames@[i] is Owned)
    }

    /// A copy that owns all of its data.
    pub fn clone_static(&self) -> (r: Twalk<'static>)
        ensures
            r@ == self@,
            r.is_owned(),
    {
        Twalk {
            fid: self.fid,
            new_fid: self.new_fid,
            wnames: strs_owned(&self.wnames),
        }
    }
}

/// Reply to `Twalk`: the qids of the names walked.
#[derive(Clone, Debug)]
pub struct Rwalk {
    pub wqids: Vec<Qid>,
}

/// The value that a `Rwalk` stands for.
pub struct SpecRwalk {
    pub wqids: Seq<Qid>,
}

impl View for Rwalk {
    type V = SpecRwalk;

    open spec fn view(&self) -> SpecRwalk {
        SpecRwalk {
            wqids: self.wqids@,
        }
    }
}

/// Reads at most `count` bytes of `fid` at `offset`.
#[derive(Clone, Copy, Debug, PartialEq, Eq, Structural)]
pub struct Tread {
    pub fid: u32,
    pub offset: u64,
    pub count: u32,
}

impl View for Tread {
    type V = Tread;

    open spec fn view(&self) -> Tread {
        *self
    }
}

/// Reply to `Tread`: the bytes read.
#[derive(Clone, Debug)]
pub struct Rread<'a> {
    pub data: Cow<'a, [u8]>,
}

/// The value that a `Rread` stands for.
pub struct SpecRread {
    pub data: Seq<u8>,
}

impl<'a> View for Rread<'a> {
    type V = SpecRread;

    open spec fn view(&self) -> SpecRread {
        SpecRread {
            data: self.data@,
        }
    }
}

impl<'a> Rread<'a> {
    /// Every string and byte buffer in it is borrowed.
    pub open spec fn is_borrowed(&self) -> bool {
        self.data is Borrowed
    }

    /// Every string and byte buffer in it is owned.
    pub open spec fn is_owned(&self) -> bool {
        self.data is Owned
    }

    /// A copy that owns all of its data.
    pub fn clone_static(&self) -> (r: Rread<'static>)
        ensures
            r@ == self@,
            r.is_owned(),
    {
        Rread {
            data: cow_bytes_owned(&self.data),
        }
    }
}

/// Writes `data` to `fid` at `offset`.
#[derive(Clone, Debug)]
pub struct Twrite<'a> {
    pub fid: u32,
    pub offset: u64,
    pub data: Cow<'a, [u8]>,
}

/// The value that a `Twrite` stands for.
pub struct SpecTwrite {
    pub fid: u32,
    pub offset: u64,
    pub data: Seq<u8>,
}

impl<'a> View for Twrite<'a> {
    type V = SpecTwrite;

    open spec fn view(&self) -> SpecTwrite {
        SpecTwrite {
            fid: self.fid,
            offset: self.offset,
            data: self.data@,
        }
    }
}

impl<'a> Twrite<'a> {
    /// Every string and byte buffer in it is borrowed.
    pub open spec fn is_borrowed(&self) -> bool {
        self.data is Borrowed
    }

    /// Every string and byte buffer in it is owned.
    pub open spec fn is_owned(&self) -> bool {
        self.data is Owned
    }

    /// A copy that owns all of its data.
    pub fn clone_static(&self) -> (r: Twrite<'static>)
        ensures
            r@ == self@,
            r.is_owned(),
    {
        Twrite {
            fid: self.fid,
            offset: self.offset,
            data: cow_bytes_owned(&self.data),
        }
    }
}

/// Reply to `Twrite`: how many bytes were written.
#[derive(Clone, Copy, Debug, PartialEq, Eq, Structural)]
pub struct Rwrite {
    pub count: u32,
}

impl View for Rwrite {
    type V = Rwrite;

    open spec fn view(&self) -> Rwrite {
        *self
    }
}

/// Forgets `fid`.
#[derive(Clone, Copy, Debug, PartialEq, Eq, Structural)]
pub struct Tclunk {
    pub fid: u32,
}

impl View for Tclunk {
    type V = Tclunk;

    open spec fn view(&self) -> Tclunk {
        *self
    }
}

/// Reply to `Tclunk`.
#[derive(Clone, Copy, Debug, PartialEq, Eq, Structural)]
pub struct Rclunk {}

impl View for Rclunk {
    type V = Rclunk;

    open spec fn view(&self) -> Rclunk {
        *self
    }
}

/// Removes the file of `fid` and forgets `fid`.
#[derive(Clone, Copy, Debug, PartialEq, Eq, Structural)]
pub struct Tremove {
    pub fid: u32,
}

impl View for Tremove {
    type V = Tremove;

    open spec fn view(&self) -> Tremove {
        *self
    }
}

/// Reply to `Tremove`.
#[derive(Clone, Copy, Debug, PartialEq, Eq, Structural)]
pub struct Rremove {}

impl View for Rremove {
    type V = Rremove;

    open spec fn view(&self) -> Rremove {
        *self
    }
}

/// A 9P2000.L message body, one variant per message type.
#[derive(Clone, Debug)]
pub enum Fcall<'a> {
    Rlerror(Rlerror),
    Tattach(Tattach<'a>),
    Rattach(Rattach),
    Tstatfs(Tstatfs),
    Rstatfs(Rstatfs),
    Tlopen(Tlopen),
    Rlopen(Rlopen),
    Tlcreate(Tlcreate<'a>),
    Rlcreate(Rlcreate),
    Tsymlink(Tsymlink<'a>),
    Rsymlink(Rsymlink),
    Tmknod(Tmknod<'a>),
    Rmknod(Rmknod),
    Trename(Trename<'a>),
    Rrename(Rrename),
    Treadlink(Treadlink),
    Rreadlink(Rreadlink<'a>),
    Tgetattr(Tgetattr),
    Rgetattr(Rgetattr),
    Tsetattr(Tsetattr),
    Rsetattr(Rsetattr),
    Txattrwalk(Txattrwalk<'a>),
    Rxattrwalk(Rxattrwalk),
    Txattrcreate(Txattrcreate<'a>),
    Rxattrcreate(Rxattrcreate),
    Treaddir(Treaddir),
    Rreaddir(Rreaddir<'a>),
    Tfsync(Tfsync),
    Rfsync(Rfsync),
    Tlock(Tlock<'a>),
    Rlock(Rlock),
    Tgetlock(Tgetlock<'a>),
    Rgetlock(Rgetlock<'a>),
    Tlink(Tlink<'a>),
    Rlink(Rlink),
    Tmkdir(Tmkdir<'a>),
    Rmkdir(Rmkdir),
    Trenameat(Trenameat<'a>),
    Rrenameat(Rrenameat),
    Tunlinkat(Tunlinkat<'a>),
    Runlinkat(Runlinkat),
    Tauth(Tauth<'a>),
    Rauth(Rauth),
    Tversion(Tversion<'a>),
    Rversion(Rversion<'a>),
    Tflush(Tflush),
    Rflush(Rflush),
    Twalk(Twalk<'a>),
    Rwalk(Rwalk),
    Tread(Tread),
    Rread(Rread<'a>),
    Twrite(Twrite<'a>),
    Rwrite(Rwrite),
    Tclunk(Tclunk),
    Rclunk(Rclunk),
    Tremove(Tremove),
    Rremove(Rremove),
}

/// The value that an `Fcall` stands for.
pub enum SpecFcall {
    Rlerror(Rlerror),
    Tattach(SpecTattach),
    Rattach(Rattach),
    Tstatfs(Tstatfs),
    Rstatfs(Rstatfs),
    Tlopen(Tlopen),
    Rlopen(Rlopen),
    Tlcreate(SpecTlcreate),
    Rlcreate(Rlcreate),
    Tsymlink(SpecTsymlink),
    Rsymlink(Rsymlink),
    Tmknod(SpecTmknod),
    Rmknod(Rmknod),
    Trename(SpecTrename),
    Rrename(Rrename),
    Treadlink(Treadlink),
    Rreadlink(SpecRreadlink),
    Tgetattr(Tgetattr),
    Rgetattr(Rgetattr),
    Tsetattr(Tsetattr),
    Rsetattr(Rsetattr),
    Txattrwalk(SpecTxattrwalk),
    Rxattrwalk(Rxattrwalk),
    Txattrcreate(SpecTxattrcreate),
    Rxattrcreate(Rxattrcreate),
    Treaddir(Treaddir),
    Rreaddir(SpecRreaddir),
    Tfsync(Tfsync),
    Rfsync(Rfsync),
    Tlock(SpecTlock),
    Rlock(Rlock),
    Tgetlock(SpecTgetlock),
    Rgetlock(SpecRgetlock),
    Tlink(SpecTlink),
    Rlink(Rlink),
    Tmkdir(SpecTmkdir),
    Rmkdir(Rmkdir),
    Trenameat(SpecTrenameat),
    Rrenameat(Rrenameat),
    Tunlinkat(SpecTunlinkat),
    Runlinkat(Runlinkat),
    Tauth(SpecTauth),
    Rauth(Rauth),
    Tversion(SpecTversion),
    Rversion(SpecRversion),
    Tflush(Tflush),
    Rflush(Rflush),
    Twalk(SpecTwalk),
    Rwalk(SpecRwalk),
    Tread(Tread),
    Rread(SpecRread),
    Twrite(SpecTwrite),
    Rwrite(Rwrite),
    Tclunk(Tclunk),
    Rclunk(Rclunk),
    Tremove(Tremove),
    Rremove(Rremove),
}

impl<'a> View for Fcall<'a> {
    type V = SpecFcall;

    open spec fn view(&self) -> SpecFcall {
        match self {
            Fcall::Rlerror(v) => SpecFcall::Rlerror(v@),
            Fcall::Tattach(v) => SpecFcall::Tattach(v@),
            Fcall::Rattach(v) => SpecFcall::Rattach(v@),
            Fcall::Tstatfs(v) => SpecFcall::Tstatfs(v@),
            Fcall::Rstatfs(v) => SpecFcall::Rstatfs(v@),
            Fcall::Tlopen(v) => SpecFcall::Tlopen(v@),
            Fcall::Rlopen(v) => SpecFcall::Rlopen(v@),
            Fcall::Tlcreate(v) => SpecFcall::Tlcreate(v@),
            Fcall::Rlcreate(v) => SpecFcall::Rlcreate(v@),
            Fcall::Tsymlink(v) => SpecFcall::Tsymlink(v@),
            Fcall::Rsymlink(v) => SpecFcall::Rsymlink(v@),
            Fcall::Tmknod(v) => SpecFcall::Tmknod(v@),
            Fcall::Rmknod(v) => SpecFcall::Rmknod(v@),
            Fcall::Trename(v) => SpecFcall::Trename(v@),
            Fcall::Rrename(v) => SpecFcall::Rrename(v@),
            Fcall::Treadlink(v) => SpecFcall::Treadlink(v@),
            Fcall::Rreadlink(v) => SpecFcall::Rreadlink(v@),
            Fcall::Tgetattr(v) => SpecFcall::Tgetattr(v@),
            Fcall::Rgetattr(v) => SpecFcall::Rgetattr(v@),
            Fcall::Tsetattr(v) => SpecFcall::Tsetattr(v@),
            Fcall::Rsetattr(v) => SpecFcall::Rsetattr(v@),
            Fcall::Txattrwalk(v) => SpecFcall::Txattrwalk(v@),
            Fcall::Rxattrwalk(v) => SpecFcall::Rxattrwalk(v@),
            Fcall::Txattrcreate(v) => SpecFcall::Txattrcreate(v@),
            Fcall::Rxattrcreate(v) => SpecFcall::Rxattrcreate(v@),
            Fcall::Treaddir(v) => SpecFcall::Treaddir(v@),
            Fcall::Rreaddir(v) => SpecFcall::Rreaddir(v@),
            Fcall::Tfsync(v) => SpecFcall::Tfsync(v@),
            Fcall::Rfsync(v) => SpecFcall::Rfsync(v@),
            Fcall::Tlock(v) => SpecFcall::Tlock(v@),
            Fcall::Rlock(v) => SpecFcall::Rlock(v@),
            Fcall::Tgetlock(v) => SpecFcall::Tgetlock(v@),
            Fcall::Rgetlock(v) => SpecFcall::Rgetlock(v@),
            Fcall::Tlink(v) => SpecFcall::Tlink(v@),
            Fcall::Rlink(v) => SpecFcall::Rlink(v@),
            Fcall::Tmkdir(v) => SpecFcall::Tmkdir(v@),
            Fcall::Rmkdir(v) => SpecFcall::Rmkdir(v@),
            Fcall::Trenameat(v) => SpecFcall::Trenameat(v@),
            Fcall::Rrenameat(v) => SpecFcall::Rrenameat(v@),
            Fcall::Tunlinkat(v) => SpecFcall::Tunlinkat(v@),
            Fcall::Runlinkat(v) => SpecFcall::Runlinkat(v@),
            Fcall::Tauth(v) => SpecFcall::Tauth(v@),
            Fcall::Rauth(v) => SpecFcall::Rauth(v@),
            Fcall::Tversion(v) => SpecFcall::Tversion(v@),
            Fcall::Rversion(v) => SpecFcall::Rversion(v@),
            Fcall::Tflush(v) => SpecFcall::Tflush(v@),
            Fcall::Rflush(v) => SpecFcall::Rflush(v@),
            Fcall::Twalk(v) => SpecFcall::Twalk(v@),
            Fcall::Rwalk(v) => SpecFcall::Rwalk(v@),
            Fcall::Tread(v) => SpecFcall::Tread(v@),
            Fcall::Rread(v) => SpecFcall::Rread(v@),
            Fcall::Twrite(v) => SpecFcall::Twrite(v@),
            Fcall::Rwrite(v) => SpecFcall::Rwrite(v@),
            Fcall::Tclunk(v) => SpecFcall::Tclunk(v@),
            Fcall::Rclunk(v) => SpecFcall::Rclunk(v@),
            Fcall::Tremove(v) => SpecFcall::Tremove(v@),
            Fcall::Rremove(v) => SpecFcall::Rremove(v@),
        }
    }
}

impl<'a> Fcall<'a> {
    /// Every string and byte buffer in it is borrowed.
    pub open spec fn is_borrowed(&self) -> bool {
        match self {
            Fcall::Tattach(v) => v.is_borrowed(),
            Fcall::Tlcreate(v) => v.is_borrowed(),
            Fcall::Tsymlink(v) => v.is_borrowed(),
            Fcall::Tmknod(v) => v.is_borrowed(),
            Fcall::Trename(v) => v.is_borrowed(),
            Fcall::Rreadlink(v) => v.is_borrowed(),
            Fcall::Txattrwalk(v) => v.is_borrowed(),
            Fcall::Txattrcreate(v) => v.is_borrowed(),
            Fcall::Rreaddir(v) => v.is_borrowed(),
            Fcall::Tlock(v) => v.is_borrowed(),
            Fcall::Tgetlock(v) => v.is_borrowed(),
            Fcall::Rgetlock(v) => v.is_borrowed(),
            Fcall::Tlink(v) => v.is_borrowed(),
            Fcall::Tmkdir(v) => v.is_borrowed(),
            Fcall::Trenameat(v) => v.is_borrowed(),
            Fcall::Tunlinkat(v) => v.is_borrowed(),
            Fcall::Tauth(v) => v.is_borrowed(),
            Fcall::Tversion(v) => v.is_borrowed(),
            Fcall::Rversion(v) => v.is_borrowed(),
            Fcall::Twalk(v) => v.is_borrowed(),
            Fcall::Rread(v) => v.is_borrowed(),
            Fcall::Twrite(v) => v.is_borrowed(),
            _ => true,
        }
    }

    /// Every string and byte buffer in it is owned.
    pub open spec fn is_owned(&self) -> bool {
        match self {
            Fcall::Tattach(v) => v.is_owned(),
            Fcall::Tlcreate(v) => v.is_owned(),
            Fcall::Tsymlink(v) => v.is_owned(),
            Fcall::Tmknod(v) => v.is_owned(),
            Fcall::Trename(v) => v.is_owned(),
            Fcall::Rreadlink(v) => v.is_owned(),
            Fcall::Txattrwalk(v) => v.is_owned(),
            Fcall::Txattrcreate(v) => v.is_owned(),
            Fcall::Rreaddir(v) => v.is_owned(),
            Fcall::Tlock(v) => v.is_owned(),
            Fcall::Tgetlock(v) => v.is_owned(),
            Fcall::Rgetlock(v) => v.is_owned(),
            Fcall::Tlink(v) => v.is_owned(),
            Fcall::Tmkdir(v) => v.is_owned(),
            Fcall::Trenameat(v) => v.is_owned(),
            Fcall::Tunlinkat(v) => v.is_owned(),
            Fcall::Tauth(v) => v.is_owned(),
            Fcall::Tversion(v) => v.is_owned(),
            Fcall::Rversion(v) => v.is_owned(),
            Fcall::Twalk(v) => v.is_owned(),
            Fcall::Rread(v) => v.is_owned(),
            Fcall::Twrite(v) => v.is_owned(),
            _ => true,
        }
    }

    /// A copy that owns all of its data.
    pub fn clone_static(&self) -> (r: Fcall<'static>)
        ensures
            r@ == self@,
            r.is_owned(),
    {
        match self {
            Fcall::Rlerror(v) => Fcall::Rlerror(*v),
            Fcall::Tattach(v) => Fcall::Tattach(v.clone_static()),
            Fcall::Rattach(v) => Fcall::Rattach(*v),
            Fcall::Tstatfs(v) => Fcall::Tstatfs(*v),
            Fcall::Rstatfs(v) => Fcall::Rstatfs(*v),
            Fcall::Tlopen(v) => Fcall::Tlopen(*v),
            Fcall::Rlopen(v) => Fcall::Rlopen(*v),
            Fcall::Tlcreate(v) => Fcall::Tlcreate(v.clone_static()),
            Fcall::Rlcreate(v) => Fcall::Rlcreate(*v),
            Fcall::Tsymlink(v) => Fcall::Tsymlink(v.clone_static()),
            Fcall::Rsymlink(v) => Fcall::Rsymlink(*v),
            Fcall::Tmknod(v) => Fcall::Tmknod(v.clone_static()),
            Fcall::Rmknod(v) => Fcall::Rmknod(*v),
            Fcall::Trename(v) => Fcall::Trename(v.clone_static()),
            Fcall::Rrename(v) => Fcall::Rrename(*v),
            Fcall::Treadlink(v) => Fcall::Treadlink(*v),
            Fcall::Rreadlink(v) => Fcall::Rreadlink(v.clone_static()),
            Fcall::Tgetattr(v) => Fcall::Tgetattr(*v),
            Fcall::Rgetattr(v) => Fcall::Rgetattr(*v),
            Fcall::Tsetattr(v) => Fcall::Tsetattr(*v),
            Fcall::Rsetattr(v) => Fcall::Rsetattr(*v),
            Fcall::Txattrwalk(v) => Fcall::Txattrwalk(v.clone_static()),
            Fcall::Rxattrwalk(v) => Fcall::Rxattrwalk(*v),
            Fcall::Txattrcreate(v) => Fcall::Txattrcreate(v.clone_static()),
            Fcall::Rxattrcreate(v) => Fcall::Rxattrcreate(*v),
            Fcall::Treaddir(v) => Fcall::Treaddir(*v),
            Fcall::Rreaddir(v) => Fcall::Rreaddir(v.clone_static()),
            Fcall::Tfsync(v) => Fcall::Tfsync(*v),
            Fcall::Rfsync(v) => Fcall::Rfsync(*v),
            Fcall::Tlock(v) => Fcall::Tlock(v.clone_static()),
            Fcall::Rlock(v) => Fcall::Rlock(*v),
            Fcall::Tgetlock(v) => Fcall::Tgetlock(v.clone_static()),
            Fcall::Rgetlock(v) => Fcall::Rgetlock(v.clone_static()),
            Fcall::Tlink(v) => Fcall::Tlink(v.clone_static()),
            Fcall::Rlink(v) => Fcall::Rlink(*v),
            Fcall::Tmkdir(v) => Fcall::Tmkdir(v.clone_static()),
            Fcall::Rmkdir(v) => Fcall::Rmkdir(*v),
            Fcall::Trenameat(v) => Fcall::Trenameat(v.clone_static()),
            Fcall::Rrenameat(v) => Fcall::Rrenameat(*v),
            Fcall::Tunlinkat(v) => Fcall::Tunlinkat(v.clone_static()),
            Fcall::Runlinkat(v) => Fcall::Runlinkat(*v),
            Fcall::Tauth(v) => Fcall::Tauth(v.clone_static()),
            Fcall::Rauth(v) => Fcall::Rauth(*v),
            Fcall::Tversion(v) => Fcall::Tversion(v.clone_static()),
            Fcall::Rversion(v) => Fcall::Rversion(v.clone_static()),
            Fcall::Tflush(v) => Fcall::Tflush(*v),
            Fcall::Rflush(v) => Fcall::Rflush(*v),
            Fcall::Twalk(v) => Fcall::Twalk(v.clone_static()),
            Fcall::Rwalk(v) => Fcall::Rwalk(Rwalk { wqids: copy_qids(&v.wqids) }),
            Fcall::Tread(v) => Fcall::Tread(*v),
            Fcall::Rread(v) => Fcall::Rread(v.clone_static()),
            Fcall::Twrite(v) => Fcall::Twrite(v.clone_static()),
            Fcall::Rwrite(v) => Fcall::Rwrite(*v),
            Fcall::Tclunk(v) => Fcall::Tclunk(*v),
            Fcall::Rclunk(v) => Fcall::Rclunk(*v),
            Fcall::Tremove(v) => Fcall::Tremove(*v),
            Fcall::Rremove(v) => Fcall::Rremove(*v),
        }
    }

    /// The type of this message.
    pub fn fcall_type(&self) -> (r: FcallType)
        ensures
            r == spec_fcall_type(self@),
    {
        proof {
            reveal(spec_fcall_type);
        }
        match self {
            Fcall::Rlerror(_) => FcallType::Rlerror,
            Fcall::Tattach(_) => FcallType::Tattach,
            Fcall::Rattach(_) => FcallType::Rattach,
            Fcall::Tstatfs(_) => FcallType::Tstatfs,
            Fcall::Rstatfs(_) => FcallType::Rstatfs,
            Fcall::Tlopen(_) => FcallType::Tlopen,
            Fcall::Rlopen(_) => FcallType::Rlopen,
            Fcall::Tlcreate(_) => FcallType::Tlcreate,
            Fcall::Rlcreate(_) => FcallType::Rlcreate,
            Fcall::Tsymlink(_) => FcallType::Tsymlink,
            Fcall::Rsymlink(_) => FcallType::Rsymlink,
            Fcall::Tmknod(_) => FcallType::Tmknod,
            Fcall::Rmknod(_) => FcallType::Rmknod,
            Fcall::Trename(_) => FcallType::Trename,
            Fcall::Rrename(_) => FcallType::Rrename,
            Fcall::Treadlink(_) => FcallType::Treadlink,
            Fcall::Rreadlink(_) => FcallType::Rreadlink,
            Fcall::Tgetattr(_) => FcallType::Tgetattr,
            Fcall::Rgetattr(_) => FcallType::Rgetattr,
            Fcall::Tsetattr(_) => FcallType::Tsetattr,
            Fcall::Rsetattr(_) => FcallType::Rsetattr,
            Fcall::Txattrwalk(_) => FcallType::Txattrwalk,
            Fcall::Rxattrwalk(_) => FcallType::Rxattrwalk,
            Fcall::Txattrcreate(_) => FcallType::Txattrcreate,
            Fcall::Rxattrcreate(_) => FcallType::Rxattrcreate,
            Fcall::Treaddir(_) => FcallType::Treaddir,
            Fcall::Rreaddir(_) => FcallType::Rreaddir,
            Fcall::Tfsync(_) => FcallType::Tfsync,
            Fcall::Rfsync(_) => FcallType::Rfsync,
            Fcall::Tlock(_) => FcallType::Tlock,
            Fcall::Rlock(_) => FcallType::Rlock,
            Fcall::Tgetlock(_) => FcallType::Tgetlock,
            Fcall::Rgetlock(_) => FcallType::Rgetlock,
            Fcall::Tlink(_) => FcallType::Tlink,
            Fcall::Rlink(_) => FcallType::Rlink,
            Fcall::Tmkdir(_) => FcallType::Tmkdir,
            Fcall::Rmkdir(_) => FcallType::Rmkdir,
            Fcall::Trenameat(_) => FcallType::Trenameat,
            Fcall::Rrenameat(_) => FcallType::Rrenameat,
            Fcall::Tunlinkat(_) => FcallType::Tunlinkat,
            Fcall::Runlinkat(_) => FcallType::Runlinkat,
            Fcall::Tauth(_) => FcallType::Tauth,
            Fcall::Rauth(_) => FcallType::Rauth,
            Fcall::Tversion(_) => FcallType::Tversion,
            Fcall::Rversion(_) => FcallType::Rversion,
            Fcall::Tflush(_) => FcallType::Tflush,
            Fcall::Rflush(_) => FcallType::Rflush,
            Fcall::Twalk(_) => FcallType::Twalk,
            Fcall::Rwalk(_) => FcallType::Rwalk,
            Fcall::Tread(_) => FcallType::Tread,
            Fcall::Rread(_) => FcallType::Rread,
            Fcall::Twrite(_) => FcallType::Twrite,
            Fcall::Rwrite(_) => FcallType::Rwrite,
            Fcall::Tclunk(_) => FcallType::Tclunk,
            Fcall::Rclunk(_) => FcallType::Rclunk,
            Fcall::Tremove(_) => FcallType::Tremove,
            Fcall::Rremove(_) => FcallType::Rremove,
        }
    }
}

/// The message type of a message.
#[verifier::opaque]
pub open spec fn spec_fcall_type(f: SpecFcall) -> FcallType {
    match f {
        SpecFcall::Rlerror(_) => FcallType::Rlerror,
        SpecFcall::Tattach(_) => FcallType::Tattach,
        SpecFcall::Rattach(_) => FcallType::Rattach,
        SpecFcall::Tstatfs(_) => FcallType::Tstatfs,
        SpecFcall::Rstatfs(_) => FcallType::Rstatfs,
        SpecFcall::Tlopen(_) => FcallType::Tlopen,
        SpecFcall::Rlopen(_) => FcallType::Rlopen,
        SpecFcall::Tlcreate(_) => FcallType::Tlcreate,
        SpecFcall::Rlcreate(_) => FcallType::Rlcreate,
        SpecFcall::Tsymlink(_) => FcallType::Tsymlink,
        SpecFcall::Rsymlink(_) => FcallType::Rsymlink,
        SpecFcall::Tmknod(_) => FcallType::Tmknod,
        SpecFcall::Rmknod(_) => FcallType::Rmknod,
        SpecFcall::Trename(_) => FcallType::Trename,
        SpecFcall::Rrename(_) => FcallType::Rrename,
        SpecFcall::Treadlink(_) => FcallType::Treadlink,
        SpecFcall::Rreadlink(_) => FcallType::Rreadlink,
        SpecFcall::Tgetattr(_) => FcallType::Tgetattr,
        SpecFcall::Rgetattr(_) => FcallType::Rgetattr,
        SpecFcall::Tsetattr(_) => FcallType::Tsetattr,
        SpecFcall::Rsetattr(_) => FcallType::Rsetattr,
        SpecFcall::Txattrwalk(_) => FcallType::Txattrwalk,
        SpecFcall::Rxattrwalk(_) => FcallType::Rxattrwalk,
        SpecFcall::Txattrcreate(_) => FcallType::Txattrcreate,
        SpecFcall::Rxattrcreate(_) => FcallType::Rxattrcreate,
        SpecFcall::Treaddir(_) => FcallType::Treaddir,
        SpecFcall::Rreaddir(_) => FcallType::Rreaddir,
        SpecFcall::Tfsync(_) => FcallType::Tfsync,
        SpecFcall::Rfsync(_) => FcallType::Rfsync,
        SpecFcall::Tlock(_) => FcallType::Tlock,
        SpecFcall::Rlock(_) => FcallType::Rlock,
        SpecFcall::Tgetlock(_) => FcallType::Tgetlock,
        SpecFcall::Rgetlock(_) => FcallType::Rgetlock,
        SpecFcall::Tlink(_) => FcallType::Tlink,
        SpecFcall::Rlink(_) => FcallType::Rlink,
        SpecFcall::Tmkdir(_) => FcallType::Tmkdir,
        SpecFcall::Rmkdir(_) => FcallType::Rmkdir,
        SpecFcall::Trenameat(_) => FcallType::Trenameat,
        SpecFcall::Rrenameat(_) => FcallType::Rrenameat,
        SpecFcall::Tunlinkat(_) => FcallType::Tunlinkat,
        SpecFcall::Runlinkat(_) => FcallType::Runlinkat,
        SpecFcall::Tauth(_) => FcallType::Tauth,
        SpecFcall::Rauth(_) => FcallType::Rauth,
        SpecFcall::Tversion(_) => FcallType::Tversion,
        SpecFcall::Rversion(_) => FcallType::Rversion,
        SpecFcall::Tflush(_) => FcallType::Tflush,
        SpecFcall::Rflush(_) => FcallType::Rflush,
        SpecFcall::Twalk(_) => FcallType::Twalk,
        SpecFcall::Rwalk(_) => FcallType::Rwalk,
        SpecFcall::Tread(_) => FcallType::Tread,
        SpecFcall::Rread(_) => FcallType::Rread,
        SpecFcall::Twrite(_) => FcallType::Twrite,
        SpecFcall::Rwrite(_) => FcallType::Rwrite,
        SpecFcall::Tclunk(_) => FcallType::Tclunk,
        SpecFcall::Rclunk(_) => FcallType::Rclunk,
        SpecFcall::Tremove(_) => FcallType::Tremove,
        SpecFcall::Rremove(_) => FcallType::Rremove,
    }
}

impl<'a, 'b> From<&'a Fcall<'b>> for FcallType {
    fn from(fcall: &'a Fcall<'b>) -> (r: FcallType) {
        fcall.fcall_type()
    }
}

impl<'a, 'b> vstd::std_specs::convert::FromSpecImpl<&'a Fcall<'b>> for FcallType {
    open spec fn obeys_from_spec() -> bool {
        true
    }

    open spec fn from_spec(fcall: &'a Fcall<'b>) -> FcallType {
        spec_fcall_type(fcall@)
    }
}

impl<'a> From<Rlerror> for Fcall<'a> {
    fn from(v: Rlerror) -> (r: Fcall<'a>) {
        Fcall::Rlerror(v)
    }
}

impl<'a> vstd::std_specs::convert::FromSpecImpl<Rlerror> for Fcall<'a> {
    open spec fn obeys_from_spec() -> bool {
        true
    }

    open spec fn from_spec(v: Rlerror) -> Fcall<'a> {
        Fcall::Rlerror(v)
    }
}

impl<'a> From<Tattach<'a>> for Fcall<'a> {
    fn from(v: Tattach<'a>) -> (r: Fcall<'a>) {
        Fcall::Tattach(v)
    }
}

impl<'a> vstd::std_specs::convert::FromSpecImpl<Tattach<'a>> for Fcall<'a> {
    open spec fn obeys_from_spec() -> bool {
        true
    }

    open spec fn from_spec(v: Tattach<'a>) -> Fcall<'a> {
        Fcall::Tattach(v)
    }
}

impl<'a> From<Rattach> for Fcall<'a> {
    fn from(v: Rattach) -> (r: Fcall<'a>) {
        Fcall::Rattach(v)
    }
}

impl<'a> vstd::std_specs::convert::FromSpecImpl<Rattach> for Fcall<'a> {
    open spec fn obeys_from_spec() -> bool {
        true
    }

    open spec fn from_spec(v: Rattach) -> Fcall<'a> {
        Fcall::Rattach(v)
    }
}

impl<'a> From<Tstatfs> for Fcall<'a> {
    fn from(v: Tstatfs) -> (r: Fcall<'a>) {
        Fcall::Tstatfs(v)
    }
}

impl<'a> vstd::std_specs::convert::FromSpecImpl<Tstatfs> for Fcall<'a> {
    open spec fn obeys_from_spec() -> bool {
        true
    }

    open spec fn from_spec(v: Tstatfs) -> Fcall<'a> {
        Fcall::Tstatfs(v)
    }
}

impl<'a> From<Rstatfs> for Fcall<'a> {
    fn from(v: Rstatfs) -> (r: Fcall<'a>) {
        Fcall::Rstatfs(v)
    }
}

impl<'a> vstd::std_specs::convert::FromSpecImpl<Rstatfs> for Fcall<'a> {
    open spec fn obeys_from_spec() -> bool {
        true
    }

    open spec fn from_spec(v: Rstatfs) -> Fcall<'a> {
        Fcall::Rstatfs(v)
    }
}

impl<'a> From<Tlopen> for Fcall<'a> {
    fn from(v: Tlopen) -> (r: Fcall<'a>) {
        Fcall::Tlopen(v)
    }
}

impl<'a> vstd::std_specs::convert::FromSpecImpl<Tlopen> for Fcall<'a> {
    open spec fn obeys_from_spec() -> bool {
        true
    }

    open spec fn from_spec(v: Tlopen) -> Fcall<'a> {
        Fcall::Tlopen(v)
    }
}

impl<'a> From<Rlopen> for Fcall<'a> {
    fn from(v: Rlopen) -> (r: Fcall<'a>) {
        Fcall::Rlopen(v)
    }
}

impl<'a> vstd::std_specs::convert::FromSpecImpl<Rlopen> for Fcall<'a> {
    open spec fn obeys_from_spec() -> bool {
        true
    }

    open spec fn from_spec(v: Rlopen) -> Fcall<'a> {
        Fcall::Rlopen(v)
    }
}

impl<'a> From<Tlcreate<'a>> for Fcall<'a> {
    fn from(v: Tlcreate<'a>) -> (r: Fcall<'a>) {
        Fcall::Tlcreate(v)
    }
}

impl<'a> vstd::std_specs::convert::FromSpecImpl<Tlcreate<'a>> for Fcall<'a> {
    open spec fn obeys_from_spec() -> bool {
        true
    }

    open spec fn from_spec(v: Tlcreate<'a>) -> Fcall<'a> {
        Fcall::Tlcreate(v)
    }
}

impl<'a> From<Rlcreate> for Fcall<'a> {
    fn from(v: Rlcreate) -> (r: Fcall<'a>) {
        Fcall::Rlcreate(v)
    }
}

impl<'a> vstd::std_specs::convert::FromSpecImpl<Rlcreate> for Fcall<'a> {
    open spec fn obeys_from_spec() -> bool {
        true
    }

    open spec fn from_spec(v: Rlcreate) -> Fcall<'a> {
        Fcall::Rlcreate(v)
    }
}

impl<'a> From<Tsymlink<'a>> for Fcall<'a> {
    fn from(v: Tsymlink<'a>) -> (r: Fcall<'a>) {
        Fcall::Tsymlink(v)
    }
}

impl<'a> vstd::std_specs::convert::FromSpecImpl<Tsymlink<'a>> for Fcall<'a> {
    open spec fn obeys_from_spec() -> bool {
        true
    }

    open spec fn from_spec(v: Tsymlink<'a>) -> Fcall<'a> {
        Fcall::Tsymlink(v)
    }
}

impl<'a> From<Rsymlink> for Fcall<'a> {
    fn from(v: Rsymlink) -> (r: Fcall<'a>) {
        Fcall::Rsymlink(v)
    }
}

impl<'a> vstd::std_specs::convert::FromSpecImpl<Rsymlink> for Fcall<'a> {
    open spec fn obeys_from_spec() -> bool {
        true
    }

    open spec fn from_spec(v: Rsymlink) -> Fcall<'a> {
        Fcall::Rsymlink(v)
    }
}

impl<'a> From<Tmknod<'a>> for Fcall<'a> {
    fn from(v: Tmknod<'a>) -> (r: Fcall<'a>) {
        Fcall::Tmknod(v)
    }
}

impl<'a> vstd::std_specs::convert::FromSpecImpl<Tmknod<'a>> for Fcall<'a> {
    open spec fn obeys_from_spec() -> bool {
        true
    }

    open spec fn from_spec(v: Tmknod<'a>) -> Fcall<'a> {
        Fcall::Tmknod(v)
    }
}

impl<'a> From<Rmknod> for Fcall<'a> {
    fn from(v: Rmknod) -> (r: Fcall<'a>) {
        Fcall::Rmknod(v)
    }
}

impl<'a> vstd::std_specs::convert::FromSpecImpl<Rmknod> for Fcall<'a> {
    open spec fn obeys_from_spec() -> bool {
        true
    }

    open spec fn from_spec(v: Rmknod) -> Fcall<'a> {
        Fcall::Rmknod(v)
    }
}

impl<'a> From<Trename<'a>> for Fcall<'a> {
    fn from(v: Trename<'a>) -> (r: Fcall<'a>) {
        Fcall::Trename(v)
    }
}

impl<'a> vstd::std_specs::convert::FromSpecImpl<Trename<'a>> for Fcall<'a> {
    open spec fn obeys_from_spec() -> bool {
        true
    }

    open spec fn from_spec(v: Trename<'a>) -> Fcall<'a> {
        Fcall::Trename(v)
    }
}

impl<'a> From<Rrename> for Fcall<'a> {
    fn from(v: Rrename) -> (r: Fcall<'a>) {
        Fcall::Rrename(v)
    }
}

impl<'a> vstd::std_specs::convert::FromSpecImpl<Rrename> for Fcall<'a> {
    open spec fn obeys_from_spec() -> bool {
        true
    }

    open spec fn from_spec(v: Rrename) -> Fcall<'a> {
        Fcall::Rrename(v)
    }
}

impl<'a> From<Treadlink> for Fcall<'a> {
    fn from(v: Treadlink) -> (r: Fcall<'a>) {
        Fcall::Treadlink(v)
    }
}

impl<'a> vstd::std_specs::convert::FromSpecImpl<Treadlink> for Fcall<'a> {
    open spec fn obeys_from_spec() -> bool {
        true
    }

    open spec fn from_spec(v: Treadlink) -> Fcall<'a> {
        Fcall::Treadlink(v)
    }
}

impl<'a> From<Rreadlink<'a>> for Fcall<'a> {
    fn from(v: Rreadlink<'a>) -> (r: Fcall<'a>) {
        Fcall::Rreadlink(v)
    }
}

impl<'a> vstd::std_specs::convert::FromSpecImpl<Rreadlink<'a>> for Fcall<'a> {
    open spec fn obeys_from_spec() -> bool {
        true
    }

    open spec fn from_spec(v: Rreadlink<'a>) -> Fcall<'a> {
        Fcall::Rreadlink(v)
    }
}

impl<'a> From<Tgetattr> for Fcall<'a> {
    fn from(v: Tgetattr) -> (r: Fcall<'a>) {
        Fcall::Tgetattr(v)
    }
}

impl<'a> vstd::std_specs::convert::FromSpecImpl<Tgetattr> for Fcall<'a> {
    open spec fn obeys_from_spec() -> bool {
        true
    }

    open spec fn from_spec(v: Tgetattr) -> Fcall<'a> {
        Fcall::Tgetattr(v)
    }
}

impl<'a> From<Rgetattr> for Fcall<'a> {
    fn from(v: Rgetattr) -> (r: Fcall<'a>) {
        Fcall::Rgetattr(v)
    }
}

impl<'a> vstd::std_specs::convert::FromSpecImpl<Rgetattr> for Fcall<'a> {
    open spec fn obeys_from_spec() -> bool {
        true
    }

    open spec fn from_spec(v: Rgetattr) -> Fcall<'a> {
        Fcall::Rgetattr(v)
    }
}

impl<'a> From<Tsetattr> for Fcall<'a> {
    fn from(v: Tsetattr) -> (r: Fcall<'a>) {
        Fcall::Tsetattr(v)
    }
}

impl<'a> vstd::std_specs::convert::FromSpecImpl<Tsetattr> for Fcall<'a> {
    open spec fn obeys_from_spec() -> bool {
        true
    }

    open spec fn from_spec(v: Tsetattr) -> Fcall<'a> {
        Fcall::Tsetattr(v)
    }
}

impl<'a> From<Rsetattr> for Fcall<'a> {
    fn from(v: Rsetattr) -> (r: Fcall<'a>) {
        Fcall::Rsetattr(v)
    }
}

impl<'a> vstd::std_specs::convert::FromSpecImpl<Rsetattr> for Fcall<'a> {
    open spec fn obeys_from_spec() -> bool {
        true
    }

    open spec fn from_spec(v: Rsetattr) -> Fcall<'a> {
        Fcall::Rsetattr(v)
    }
}

impl<'a> From<Txattrwalk<'a>> for Fcall<'a> {
    fn from(v: Txattrwalk<'a>) -> (r: Fcall<'a>) {
        Fcall::Txattrwalk(v)
    }
}

impl<'a> vstd::std_specs::convert::FromSpecImpl<Txattrwalk<'a>> for Fcall<'a> {
    open spec fn obeys_from_spec() -> bool {
        true
    }

    open spec fn from_spec(v: Txattrwalk<'a>) -> Fcall<'a> {
        Fcall::Txattrwalk(v)
    }
}

impl<'a> From<Rxattrwalk> for Fcall<'a> {
    fn from(v: Rxattrwalk) -> (r: Fcall<'a>) {
        Fcall::Rxattrwalk(v)
    }
}

impl<'a> vstd::std_specs::convert::FromSpecImpl<Rxattrwalk> for Fcall<'a> {
    open spec fn obeys_from_spec() -> bool {
        true
    }

    open spec fn from_spec(v: Rxattrwalk) -> Fcall<'a> {
        Fcall::Rxattrwalk(v)
    }
}

impl<'a> From<Txattrcreate<'a>> for Fcall<'a> {
    fn from(v: Txattrcreate<'a>) -> (r: Fcall<'a>) {
        Fcall::Txattrcreate(v)
    }
}

impl<'a> vstd::std_specs::convert::FromSpecImpl<Txattrcreate<'a>> for Fcall<'a> {
    open spec fn obeys_from_spec() -> bool {
        true
    }

    open spec fn from_spec(v: Txattrcreate<'a>) -> Fcall<'a> {
        Fcall::Txattrcreate(v)
    }
}

impl<'a> From<Rxattrcreate> for Fcall<'a> {
    fn from(v: Rxattrcreate) -> (r: Fcall<'a>) {
        Fcall::Rxattrcreate(v)
    }
}

impl<'a> vstd::std_specs::convert::FromSpecImpl<Rxattrcreate> for Fcall<'a> {
    open spec fn obeys_from_spec() -> bool {
        true
    }

    open spec fn from_spec(v: Rxattrcreate) -> Fcall<'a> {
        Fcall::Rxattrcreate(v)
    }
}

impl<'a> From<Treaddir> for Fcall<'a> {
    fn from(v: Treaddir) -> (r: Fcall<'a>) {
        Fcall::Treaddir(v)
    }
}

impl<'a> vstd::std_specs::convert::FromSpecImpl<Treaddir> for Fcall<'a> {
    open spec fn obeys_from_spec() -> bool {
        true
    }

    open spec fn from_spec(v: Treaddir) -> Fcall<'a> {
        Fcall::Treaddir(v)
    }
}

impl<'a> From<Rreaddir<'a>> for Fcall<'a> {
    fn from(v: Rreaddir<'a>) -> (r: Fcall<'a>) {
        Fcall::Rreaddir(v)
    }
}

impl<'a> vstd::std_specs::convert::FromSpecImpl<Rreaddir<'a>> for Fcall<'a> {
    open spec fn obeys_from_spec() -> bool {
        true
    }

    open spec fn from_spec(v: Rreaddir<'a>) -> Fcall<'a> {
        Fcall::Rreaddir(v)
    }
}

impl<'a> From<Tfsync> for Fcall<'a> {
    fn from(v: Tfsync) -> (r: Fcall<'a>) {
        Fcall::Tfsync(v)
    }
}

impl<'a> vstd::std_specs::convert::FromSpecImpl<Tfsync> for Fcall<'a> {
    open spec fn obeys_from_spec() -> bool {
        true
    }

    open spec fn from_spec(v: Tfsync) -> Fcall<'a> {
        Fcall::Tfsync(v)
    }
}

impl<'a> From<Rfsync> for Fcall<'a> {
    fn from(v: Rfsync) -> (r: Fcall<'a>) {
        Fcall::Rfsync(v)
    }
}

impl<'a> vstd::std_specs::convert::FromSpecImpl<Rfsync> for Fcall<'a> {
    open spec fn obeys_from_spec() -> bool {
        true
    }

    open spec fn from_spec(v: Rfsync) -> Fcall<'a> {
        Fcall::Rfsync(v)
    }
}

impl<'a> From<Tlock<'a>> for Fcall<'a> {
    fn from(v: Tlock<'a>) -> (r: Fcall<'a>) {
        Fcall::Tlock(v)
    }
}

impl<'a> vstd::std_specs::convert::FromSpecImpl<Tlock<'a>> for Fcall<'a> {
    open spec fn obeys_from_spec() -> bool {
        true
    }

    open spec fn from_spec(v: Tlock<'a>) -> Fcall<'a> {
        Fcall::Tlock(v)
    }
}

impl<'a> From<Rlock> for Fcall<'a> {
    fn from(v: Rlock) -> (r: Fcall<'a>) {
        Fcall::Rlock(v)
    }
}

impl<'a> vstd::std_specs::convert::FromSpecImpl<Rlock> for Fcall<'a> {
    open spec fn obeys_from_spec() -> bool {
        true
    }

    open spec fn from_spec(v: Rlock) -> Fcall<'a> {
        Fcall::Rlock(v)
    }
}

impl<'a> From<Tgetlock<'a>> for Fcall<'a> {
    fn from(v: Tgetlock<'a>) -> (r: Fcall<'a>) {
        Fcall::Tgetlock(v)
    }
}

impl<'a> vstd::std_specs::convert::FromSpecImpl<Tgetlock<'a>> for Fcall<'a> {
    open spec fn obeys_from_spec() -> bool {
        true
    }

    open spec fn from_spec(v: Tgetlock<'a>) -> Fcall<'a> {
        Fcall::Tgetlock(v)
    }
}

impl<'a> From<Rgetlock<'a>> for Fcall<'a> {
    fn from(v: Rgetlock<'a>) -> (r: Fcall<'a>) {
        Fcall::Rgetlock(v)
    }
}

impl<'a> vstd::std_specs::convert::FromSpecImpl<Rgetlock<'a>> for Fcall<'a> {
    open spec fn obeys_from_spec() -> bool {
        true
    }

    open spec fn from_spec(v: Rgetlock<'a>) -> Fcall<'a> {
        Fcall::Rgetlock(v)
    }
}

impl<'a> From<Tlink<'a>> for Fcall<'a> {
    fn from(v: Tlink<'a>) -> (r: Fcall<'a>) {
        Fcall::Tlink(v)
    }
}

impl<'a> vstd::std_specs::convert::FromSpecImpl<Tlink<'a>> for Fcall<'a> {
    open spec fn obeys_from_spec() -> bool {
        true
    }

    open spec fn from_spec(v: Tlink<'a>) -> Fcall<'a> {
        Fcall::Tlink(v)
    }
}

impl<'a> From<Rlink> for Fcall<'a> {
    fn from(v: Rlink) -> (r: Fcall<'a>) {
        Fcall::Rlink(v)
    }
}

impl<'a> vstd::std_specs::convert::FromSpecImpl<Rlink> for Fcall<'a> {
    open spec fn obeys_from_spec() -> bool {
        true
    }

    open spec fn from_spec(v: Rlink) -> Fcall<'a> {
        Fcall::Rlink(v)
    }
}

impl<'a> From<Tmkdir<'a>> for Fcall<'a> {
    fn from(v: Tmkdir<'a>) -> (r: Fcall<'a>) {
        Fcall::Tmkdir(v)
    }
}

impl<'a> vstd::std_specs::convert::FromSpecImpl<Tmkdir<'a>> for Fcall<'a> {
    open spec fn obeys_from_spec() -> bool {
        true
    }

    open spec fn from_spec(v: Tmkdir<'a>) -> Fcall<'a> {
        Fcall::Tmkdir(v)
    }
}

impl<'a> From<Rmkdir> for Fcall<'a> {
    fn from(v: Rmkdir) -> (r: Fcall<'a>) {
        Fcall::Rmkdir(v)
    }
}

impl<'a> vstd::std_specs::convert::FromSpecImpl<Rmkdir> for Fcall<'a> {
    open spec fn obeys_from_spec() -> bool {
        true
    }

    open spec fn from_spec(v: Rmkdir) -> Fcall<'a> {
        Fcall::Rmkdir(v)
    }
}

impl<'a> From<Trenameat<'a>> for Fcall<'a> {
    fn from(v: Trenameat<'a>) -> (r: Fcall<'a>) {
        Fcall::Trenameat(v)
    }
}

impl<'a> vstd::std_specs::convert::FromSpecImpl<Trenameat<'a>> for Fcall<'a> {
    open spec fn obeys_from_spec() -> bool {
        true
    }

    open spec fn from_spec(v: Trenameat<'a>) -> Fcall<'a> {
        Fcall::Trenameat(v)
    }
}

impl<'a> From<Rrenameat> for Fcall<'a> {
    fn from(v: Rrenameat) -> (r: Fcall<'a>) {
        Fcall::Rrenameat(v)
    }
}

impl<'a> vstd::std_specs::convert::FromSpecImpl<Rrenameat> for Fcall<'a> {
    open spec fn obeys_from_spec() -> bool {
        true
    }

    open spec fn from_spec(v: Rrenameat) -> Fcall<'a> {
        Fcall::Rrenameat(v)
    }
}

impl<'a> From<Tunlinkat<'a>> for Fcall<'a> {
    fn from(v: Tunlinkat<'a>) -> (r: Fcall<'a>) {
        Fcall::Tunlinkat(v)
    }
}

impl<'a> vstd::std_specs::convert::FromSpecImpl<Tunlinkat<'a>> for Fcall<'a> {
    open spec fn obeys_from_spec() -> bool {
        true
    }

    open spec fn from_spec(v: Tunlinkat<'a>) -> Fcall<'a> {
        Fcall::Tunlinkat(v)
    }
}

impl<'a> From<Runlinkat> for Fcall<'a> {
    fn from(v: Runlinkat) -> (r: Fcall<'a>) {
        Fcall::Runlinkat(v)
    }
}

impl<'a> vstd::std_specs::convert::FromSpecImpl<Runlinkat> for Fcall<'a> {
    open spec fn obeys_from_spec() -> bool {
        true
    }

    open spec fn from_spec(v: Runlinkat) -> Fcall<'a> {
        Fcall::Runlinkat(v)
    }
}

impl<'a> From<Tauth<'a>> for Fcall<'a> {
    fn from(v: Tauth<'a>) -> (r: Fcall<'a>) {
        Fcall::Tauth(v)
    }
}

impl<'a> vstd::std_specs::convert::FromSpecImpl<Tauth<'a>> for Fcall<'a> {
    open spec fn obeys_from_spec() -> bool {
        true
    }

    open spec fn from_spec(v: Tauth<'a>) -> Fcall<'a> {
        Fcall::Tauth(v)
    }
}

impl<'a> From<Rauth> for Fcall<'a> {
    fn from(v: Rauth) -> (r: Fcall<'a>) {
        Fcall::Rauth(v)
    }
}

impl<'a> vstd::std_specs::convert::FromSpecImpl<Rauth> for Fcall<'a> {
    open spec fn obeys_from_spec() -> bool {
        true
    }

    open spec fn from_spec(v: Rauth) -> Fcall<'a> {
        Fcall::Rauth(v)
    }
}

impl<'a> From<Tversion<'a>> for Fcall<'a> {
    fn from(v: Tversion<'a>) -> (r: Fcall<'a>) {
        Fcall::Tversion(v)
    }
}

impl<'a> vstd::std_specs::convert::FromSpecImpl<Tversion<'a>> for Fcall<'a> {
    open spec fn obeys_from_spec() -> bool {
        true
    }

    open spec fn from_spec(v: Tversion<'a>) -> Fcall<'a> {
        Fcall::Tversion(v)
    }
}

impl<'a> From<Rversion<'a>> for Fcall<'a> {
    fn from(v: Rversion<'a>) -> (r: Fcall<'a>) {
        Fcall::Rversion(v)
    }
}

impl<'a> vstd::std_specs::convert::FromSpecImpl<Rversion<'a>> for Fcall<'a> {
    open spec fn obeys_from_spec() -> bool {
        true
    }

    open spec fn from_spec(v: Rversion<'a>) -> Fcall<'a> {
        Fcall::Rversion(v)
    }
}

impl<'a> From<Tflush> for Fcall<'a> {
    fn from(v: Tflush) -> (r: Fcall<'a>) {
        Fcall::Tflush(v)
    }
}

impl<'a> vstd::std_specs::convert::FromSpecImpl<Tflush> for Fcall<'a> {
    open spec fn obeys_from_spec() -> bool {
        true
    }

    open spec fn from_spec(v: Tflush) -> Fcall<'a> {
        Fcall::Tflush(v)
    }
}

impl<'a> From<Rflush> for Fcall<'a> {
    fn from(v: Rflush) -> (r: Fcall<'a>) {
        Fcall::Rflush(v)
    }
}

impl<'a> vstd::std_specs::convert::FromSpecImpl<Rflush> for Fcall<'a> {
    open spec fn obeys_from_spec() -> bool {
        true
    }

    open spec fn from_spec(v: Rflush) -> Fcall<'a> {
        Fcall::Rflush(v)
    }
}

impl<'a> From<Twalk<'a>> for Fcall<'a> {
    fn from(v: Twalk<'a>) -> (r: Fcall<'a>) {
        Fcall::Twalk(v)
    }
}

impl<'a> vstd::std_specs::convert::FromSpecImpl<Twalk<'a>> for Fcall<'a> {
    open spec fn obeys_from_spec() -> bool {
        true
    }

    open spec fn from_spec(v: Twalk<'a>) -> Fcall<'a> {
        Fcall::Twalk(v)
    }
}

impl<'a> From<Rwalk> for Fcall<'a> {
    fn from(v: Rwalk) -> (r: Fcall<'a>) {
        Fcall::Rwalk(v)
    }
}

impl<'a> vstd::std_specs::convert::FromSpecImpl<Rwalk> for Fcall<'a> {
    open spec fn obeys_from_spec() -> bool {
        true
    }

    open spec fn from_spec(v: Rwalk) -> Fcall<'a> {
        Fcall::Rwalk(v)
    }
}

impl<'a> From<Tread> for Fcall<'a> {
    fn from(v: Tread) -> (r: Fcall<'a>) {
        Fcall::Tread(v)
    }
}

impl<'a> vstd::std_specs::convert::FromSpecImpl<Tread> for Fcall<'a> {
    open spec fn obeys_from_spec() -> bool {
        true
    }

    open spec fn from_spec(v: Tread) -> Fcall<'a> {
        Fcall::Tread(v)
    }
}

impl<'a> From<Rread<'a>> for Fcall<'a> {
    fn from(v: Rread<'a>) -> (r: Fcall<'a>) {
        Fcall::Rread(v)
    }
}

impl<'a> vstd::std_specs::convert::FromSpecImpl<Rread<'a>> for Fcall<'a> {
    open spec fn obeys_from_spec() -> bool {
        true
    }

    open spec fn from_spec(v: Rread<'a>) -> Fcall<'a> {
        Fcall::Rread(v)
    }
}

impl<'a> From<Twrite<'a>> for Fcall<'a> {
    fn from(v: Twrite<'a>) -> (r: Fcall<'a>) {
        Fcall::Twrite(v)
    }
}

impl<'a> vstd::std_specs::convert::FromSpecImpl<Twrite<'a>> for Fcall<'a> {
    open spec fn obeys_from_spec() -> bool {
        true
    }

    open spec fn from_spec(v: Twrite<'a>) -> Fcall<'a> {
        Fcall::Twrite(v)
    }
}

impl<'a> From<Rwrite> for Fcall<'a> {
    fn from(v: Rwrite) -> (r: Fcall<'a>) {
        Fcall::Rwrite(v)
    }
}

impl<'a> vstd::std_specs::convert::FromSpecImpl<Rwrite> for Fcall<'a> {
    open spec fn obeys_from_spec() -> bool {
        true
    }

    open spec fn from_spec(v: Rwrite) -> Fcall<'a> {
        Fcall::Rwrite(v)
    }
}

impl<'a> From<Tclunk> for Fcall<'a> {
    fn from(v: Tclunk) -> (r: Fcall<'a>) {
        Fcall::Tclunk(v)
    }
}

impl<'a> vstd::std_specs::convert::FromSpecImpl<Tclunk> for Fcall<'a> {
    open spec fn obeys_from_spec() -> bool {
        true
    }

    open spec fn from_spec(v: Tclunk) -> Fcall<'a> {
        Fcall::Tclunk(v)
    }
}

impl<'a> From<Rclunk> for Fcall<'a> {
    fn from(v: Rclunk) -> (r: Fcall<'a>) {
        Fcall::Rclunk(v)
    }
}

impl<'a> vstd::std_specs::convert::FromSpecImpl<Rclunk> for Fcall<'a> {
    open spec fn obeys_from_spec() -> bool {
        true
    }

    open spec fn from_spec(v: Rclunk) -> Fcall<'a> {
        Fcall::Rclunk(v)
    }
}

impl<'a> From<Tremove> for Fcall<'a> {
    fn from(v: Tremove) -> (r: Fcall<'a>) {
        Fcall::Tremove(v)
    }
}

impl<'a> vstd::std_specs::convert::FromSpecImpl<Tremove> for Fcall<'a> {
    open spec fn obeys_from_spec() -> bool {
        true
    }

    open spec fn from_spec(v: Tremove) -> Fcall<'a> {
        Fcall::Tremove(v)
    }
}

impl<'a> From<Rremove> for Fcall<'a> {
    fn from(v: Rremove) -> (r: Fcall<'a>) {
        Fcall::Rremove(v)
    }
}

impl<'a> vstd::std_specs::convert::FromSpecImpl<Rremove> for Fcall<'a> {
    open spec fn obeys_from_spec() -> bool {
        true
    }

    open spec fn from_spec(v: Rremove) -> Fcall<'a> {
        Fcall::Rremove(v)
    }
}

/// The message types of 9P2000.L and the 9P2000 messages it keeps.
#[derive(Clone, Copy, Debug, PartialEq, Eq, Structural, Hash)]
pub enum FcallType {
    Rlerror,
    Tstatfs,
    Rstatfs,
    Tlopen,
    Rlopen,
    Tlcreate,
    Rlcreate,
    Tsymlink,
    Rsymlink,
    Tmknod,
    Rmknod,
    Trename,
    Rrename,
    Treadlink,
    Rreadlink,
    Tgetattr,
    Rgetattr,
    Tsetattr,
    Rsetattr,
    Txattrwalk,
    Rxattrwalk,
    Txattrcreate,
    Rxattrcreate,
    Treaddir,
    Rreaddir,
    Tfsync,
    Rfsync,
    Tlock,
    Rlock,
    Tgetlock,
    Rgetlock,
    Tlink,
    Rlink,
    Tmkdir,
    Rmkdir,
    Trenameat,
    Rrenameat,
    Tunlinkat,
    Runlinkat,
    Tversion,
    Rversion,
    Tauth,
    Rauth,
    Tattach,
    Rattach,
    Tflush,
    Rflush,
    Twalk,
    Rwalk,
    Tread,
    Rread,
    Twrite,
    Rwrite,
    Tclunk,
    Rclunk,
    Tremove,
    Rremove,
}

impl FcallType {
    /// The number that stands for the type on the wire.
    #[verifier::opaque]
    pub open spec fn spec_code(self) -> u8 {
        match self {
            FcallType::Rlerror => 7,
            FcallType::Tstatfs => 8,
            FcallType::Rstatfs => 9,
            FcallType::Tlopen => 12,
            FcallType::Rlopen => 13,
            FcallType::Tlcreate => 14,
            FcallType::Rlcreate => 15,
            FcallType::Tsymlink => 16,
            FcallType::Rsymlink => 17,
            FcallType::Tmknod => 18,
            FcallType::Rmknod => 19,
            FcallType::Trename => 20,
            FcallType::Rrename => 21,
            FcallType::Treadlink => 22,
            FcallType::Rreadlink => 23,
            FcallType::Tgetattr => 24,
            FcallType::Rgetattr => 25,
            FcallType::Tsetattr => 26,
            FcallType::Rsetattr => 27,
            FcallType::Txattrwalk => 30,
            FcallType::Rxattrwalk => 31,
            FcallType::Txattrcreate => 32,
            FcallType::Rxattrcreate => 33,
            FcallType::Treaddir => 40,
            FcallType::Rreaddir => 41,
            FcallType::Tfsync => 50,
            FcallType::Rfsync => 51,
            FcallType::Tlock => 52,
            FcallType::Rlock => 53,
            FcallType::Tgetlock => 54,
            FcallType::Rgetlock => 55,
            FcallType::Tlink => 70,
            FcallType::Rlink => 71,
            FcallType::Tmkdir => 72,
            FcallType::Rmkdir => 73,
            FcallType::Trenameat => 74,
            FcallType::Rrenameat => 75,
            FcallType::Tunlinkat => 76,
            FcallType::Runlinkat => 77,
            FcallType::Tversion => 100,
            FcallType::Rversion => 101,
            FcallType::Tauth => 102,
            FcallType::Rauth => 103,
            FcallType::Tattach => 104,
            FcallType::Rattach => 105,
            FcallType::Tflush => 108,
            FcallType::Rflush => 109,
            FcallType::Twalk => 110,
            FcallType::Rwalk => 111,
            FcallType::Tread => 116,
            FcallType::Rread => 117,
            FcallType::Twrite => 118,
            FcallType::Rwrite => 119,
            FcallType::Tclunk => 120,
            FcallType::Rclunk => 121,
            FcallType::Tremove => 122,
            FcallType::Rremove => 123,
        }
    }

    /// The number that stands for the type on the wire.
    pub fn code(&self) -> (r: u8)
        ensures
            r == self.spec_code(),
    {
        proof {
            reveal(FcallType::spec_code);
        }
        match self {
            FcallType::Rlerror => 7,
            FcallType::Tstatfs => 8,
            FcallType::Rstatfs => 9,
            FcallType::Tlopen => 12,
            FcallType::Rlopen => 13,
            FcallType::Tlcreate => 14,
            FcallType::Rlcreate => 15,
            FcallType::Tsymlink => 16,
            FcallType::Rsymlink => 17,
            FcallType::Tmknod => 18,
            FcallType::Rmknod => 19,
            FcallType::Trename => 20,
            FcallType::Rrename => 21,
            FcallType::Treadlink => 22,
            FcallType::Rreadlink => 23,
            FcallType::Tgetattr => 24,
            FcallType::Rgetattr => 25,
            FcallType::Tsetattr => 26,
            FcallType::Rsetattr => 27,
            FcallType::Txattrwalk => 30,
            FcallType::Rxattrwalk => 31,
            FcallType::Txattrcreate => 32,
            FcallType::Rxattrcreate => 33,
            FcallType::Treaddir => 40,
            FcallType::Rreaddir => 41,
            FcallType::Tfsync => 50,
            FcallType::Rfsync => 51,
            FcallType::Tlock => 52,
            FcallType::Rlock => 53,
            FcallType::Tgetlock => 54,
            FcallType::Rgetlock => 55,
            FcallType::Tlink => 70,
            FcallType::Rlink => 71,
            FcallType::Tmkdir => 72,
            FcallType::Rmkdir => 73,
            FcallType::Trenameat => 74,
            FcallType::Rrenameat => 75,
            FcallType::Tunlinkat => 76,
            FcallType::Runlinkat => 77,
            FcallType::Tversion => 100,
            FcallType::Rversion => 101,
            FcallType::Tauth => 102,
            FcallType::Rauth => 103,
            FcallType::Tattach => 104,
            FcallType::Rattach => 105,
            FcallType::Tflush => 108,
            FcallType::Rflush => 109,
            FcallType::Twalk => 110,
            FcallType::Rwalk => 111,
            FcallType::Tread => 116,
            FcallType::Rread => 117,
            FcallType::Twrite => 118,
            FcallType::Rwrite => 119,
            FcallType::Tclunk => 120,
            FcallType::Rclunk => 121,
            FcallType::Tremove => 122,
            FcallType::Rremove => 123,
        }
    }

    /// The type that a number stands for, if any.
    #[verifier::opaque]
    pub open spec fn spec_from_u8(v: u8) -> Option<FcallType> {
        match v {
            7 => Some(FcallType::Rlerror),
            8 => Some(FcallType::Tstatfs),
            9 => Some(FcallType::Rstatfs),
            12 => Some(FcallType::Tlopen),
            13 => Some(FcallType::Rlopen),
            14 => Some(FcallType::Tlcreate),
            15 => Some(FcallType::Rlcreate),
            16 => Some(FcallType::Tsymlink),
            17 => Some(FcallType::Rsymlink),
            18 => Some(FcallType::Tmknod),
            19 => Some(FcallType::Rmknod),
            20 => Some(FcallType::Trename),
            21 => Some(FcallType::Rrename),
            22 => Some(FcallType::Treadlink),
            23 => Some(FcallType::Rreadlink),
            24 => Some(FcallType::Tgetattr),
            25 => Some(FcallType::Rgetattr),
            26 => Some(FcallType::Tsetattr),
            27 => Some(FcallType::Rsetattr),
            30 => Some(FcallType::Txattrwalk),
            31 => Some(FcallType::Rxattrwalk),
            32 => Some(FcallType::Txattrcreate),
            33 => Some(FcallType::Rxattrcreate),
            40 => Some(FcallType::Treaddir),
            41 => Some(FcallType::Rreaddir),
            50 => Some(FcallType::Tfsync),
            51 => Some(FcallType::Rfsync),
            52 => Some(FcallType::Tlock),
            53 => Some(FcallType::Rlock),
            54 => Some(FcallType::Tgetlock),
            55 => Some(FcallType::Rgetlock),
            70 => Some(FcallType::Tlink),
            71 => Some(FcallType::Rlink),
            72 => Some(FcallType::Tmkdir),
            73 => Some(FcallType::Rmkdir),
            74 => Some(FcallType::Trenameat),
            75 => Some(FcallType::Rrenameat),
            76 => Some(FcallType::Tunlinkat),
            77 => Some(FcallType::Runlinkat),
            100 => Some(FcallType::Tversion),
            101 => Some(FcallType::Rversion),
            102 => Some(FcallType::Tauth),
            103 => Some(FcallType::Rauth),
            104 => Some(FcallType::Tattach),
            105 => Some(FcallType::Rattach),
            108 => Some(FcallType::Tflush),
            109 => Some(FcallType::Rflush),
            110 => Some(FcallType::Twalk),
            111 => Some(FcallType::Rwalk),
            116 => Some(FcallType::Tread),
            117 => Some(FcallType::Rread),
            118 => Some(FcallType::Twrite),
            119 => Some(FcallType::Rwrite),
            120 => Some(FcallType::Tclunk),
            121 => Some(FcallType::Rclunk),
            122 => Some(FcallType::Tremove),
            123 => Some(FcallType::Rremove),
            _ => None,
        }
    }

    pub fn from_u8(v: u8) -> (r: Option<FcallType>)
        ensures
            r == Self::spec_from_u8(v),
    {
        proof {
            reveal(FcallType::spec_from_u8);
        }
        match v {
            7 => Some(FcallType::Rlerror),
            8 => Some(FcallType::Tstatfs),
            9 => Some(FcallType::Rstatfs),
            12 => Some(FcallType::Tlopen),
            13 => Some(FcallType::Rlopen),
            14 => Some(FcallType::Tlcreate),
            15 => Some(FcallType::Rlcreate),
            16 => Some(FcallType::Tsymlink),
            17 => Some(FcallType::Rsymlink),
            18 => Some(FcallType::Tmknod),
            19 => Some(FcallType::Rmknod),
            20 => Some(FcallType::Trename),
            21 => Some(FcallType::Rrename),
            22 => Some(FcallType::Treadlink),
            23 => Some(FcallType::Rreadlink),
            24 => Some(FcallType::Tgetattr),
            25 => Some(FcallType::Rgetattr),
            26 => Some(FcallType::Tsetattr),
            27 => Some(FcallType::Rsetattr),
            30 => Some(FcallType::Txattrwalk),
            31 => Some(FcallType::Rxattrwalk),
            32 => Some(FcallType::Txattrcreate),
            33 => Some(FcallType::Rxattrcreate),
            40 => Some(FcallType::Treaddir),
            41 => Some(FcallType::Rreaddir),
            50 => Some(FcallType::Tfsync),
            51 => Some(FcallType::Rfsync),
            52 => Some(FcallType::Tlock),
            53 => Some(FcallType::Rlock),
            54 => Some(FcallType::Tgetlock),
            55 => Some(FcallType::Rgetlock),
            70 => Some(FcallType::Tlink),
            71 => Some(FcallType::Rlink),
            72 => Some(FcallType::Tmkdir),
            73 => Some(FcallType::Rmkdir),
            74 => Some(FcallType::Trenameat),
            75 => Some(FcallType::Rrenameat),
            76 => Some(FcallType::Tunlinkat),
            77 => Some(FcallType::Runlinkat),
            100 => Some(FcallType::Tversion),
            101 => Some(FcallType::Rversion),
            102 => Some(FcallType::Tauth),
            103 => Some(FcallType::Rauth),
            104 => Some(FcallType::Tattach),
            105 => Some(FcallType::Rattach),
            108 => Some(FcallType::Tflush),
            109 => Some(FcallType::Rflush),
            110 => Some(FcallType::Twalk),
            111 => Some(FcallType::Rwalk),
            116 => Some(FcallType::Tread),
            117 => Some(FcallType::Rread),
            118 => Some(FcallType::Twrite),
            119 => Some(FcallType::Rwrite),
            120 => Some(FcallType::Tclunk),
            121 => Some(FcallType::Rclunk),
            122 => Some(FcallType::Tremove),
            123 => Some(FcallType::Rremove),
            _ => None,
        }
    }
}

/// A message together with the tag that pairs a request with its reply.
#[derive(Clone, Debug)]
pub struct TaggedFcall<'a> {
    pub tag: u16,
    pub fcall: Fcall<'a>,
}

/// The value that a `TaggedFcall` stands for.
pub struct SpecTaggedFcall {
    pub tag: u16,
    pub fcall: SpecFcall,
}

impl<'a> View for TaggedFcall<'a> {
    type V = SpecTaggedFcall;

    open spec fn view(&self) -> SpecTaggedFcall {
        SpecTaggedFcall { tag: self.tag, fcall: self.fcall@ }
    }
}

impl<'a> TaggedFcall<'a> {
    /// Every string and byte buffer in it is borrowed.
    pub open spec fn is_borrowed(&self) -> bool {
        self.fcall.is_borrowed()
    }

    /// Every string and byte buffer in it is owned.
    pub open spec fn is_owned(&self) -> bool {
        self.fcall.is_owned()
    }

    /// A copy that owns all of its data.
    pub fn clone_static(&self) -> (r: TaggedFcall<'static>)
        ensures
            r@ == self@,
            r.is_owned(),
    {
        TaggedFcall { tag: self.tag, fcall: self.fcall.clone_static() }
    }
}

impl<'a, A: Into<Fcall<'a>>, B: Into<Fcall<'a>>> From<Result<A, B>> for Fcall<'a> {
    fn from(r: Result<A, B>) -> (f: Fcall<'a>) {
        match r {
            Ok(a) => a.into(),
            Err(b) => b.into(),
        }
    }
}

impl<'a, A: Into<Fcall<'a>>, B: Into<Fcall<'a>>> vstd::std_specs::convert::FromSpecImpl<Result<A, B>> for Fcall<'a> {
    open spec fn obeys_from_spec() -> bool {
        <A as vstd::std_specs::convert::IntoSpec<Fcall<'a>>>::obeys_into_spec()
            && <B as vstd::std_specs::convert::IntoSpec<Fcall<'a>>>::obeys_into_spec()
    }

    open spec fn from_spec(r: Result<A, B>) -> Fcall<'a> {
        match r {
            Ok(a) => <A as vstd::std_specs::convert::IntoSpec<Fcall<'a>>>::into_spec(a),
            Err(b) => <B as vstd::std_specs::convert::IntoSpec<Fcall<'a>>>::into_spec(b),
        }
    }
}

/// A message type's number names that type again.
pub proof fn lemma_from_u8_code(t: FcallType)
    ensures
        FcallType::spec_from_u8(t.spec_code()) == Some(t),
{
    reveal(FcallType::spec_from_u8);
    reveal(FcallType::spec_code);
}

/// A number that names a type is that type's number.
pub proof fn lemma_code_from_u8(v: u8)
    ensures
        FcallType::spec_from_u8(v) matches Some(t) ==> t.spec_code() == v,
{
    reveal(FcallType::spec_from_u8);
    reveal(FcallType::spec_code);
}

} // verus!
