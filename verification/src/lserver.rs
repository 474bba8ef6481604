//! The fid table of a single-threaded 9P2000.L server: which requests it
//! serves, which it refuses before they reach the file system, and how the
//! table changes once a request is answered.
//!
//! A request that names a fid the table does not hold is answered `EBADF`;
//! one the server does not serve is answered `EOPNOTSUPP`. Attach, auth and
//! walk add the fid they create when they succeed; clunk and remove release
//! theirs whatever the reply, as the protocol asks of both ends.
use crate::errno::{EBADF, EOPNOTSUPP};
use crate::fcall::{Fcall, Rlerror, SpecFcall};
use std::collections::HashMap;
use vstd::prelude::*;

verus! {

broadcast use vstd::std_specs::hash::group_hash_axioms;

/// `EBADF` unless the table holds `fid`.
pub open spec fn need_fid<T>(fids: Map<u32, T>, fid: u32) -> Option<Rlerror> {
    if fids.contains_key(fid) {
        None
    } else {
        Some(Rlerror { ecode: EBADF })
    }
}

/// `EBADF` unless the table holds both fids and they differ: the file
/// system is handed the two at once.
pub open spec fn need_fids<T>(fids: Map<u32, T>, a: u32, b: u32) -> Option<Rlerror> {
    if fids.contains_key(a) && fids.contains_key(b) && a != b {
        None
    } else {
        Some(Rlerror { ecode: EBADF })
    }
}

/// The answer a request gets before it reaches the file system, if any.
pub open spec fn spec_precheck<T>(fids: Map<u32, T>, req: SpecFcall) -> Option<Rlerror> {
    match req {
        SpecFcall::Tstatfs(v) => need_fid(fids, v.fid),
        SpecFcall::Tlopen(v) => need_fid(fids, v.fid),
        SpecFcall::Tlcreate(v) => need_fid(fids, v.fid),
        SpecFcall::Tsymlink(v) => need_fid(fids, v.fid),
        SpecFcall::Tmknod(v) => need_fid(fids, v.dfid),
        SpecFcall::Treadlink(v) => need_fid(fids, v.fid),
        SpecFcall::Tgetattr(v) => need_fid(fids, v.fid),
        SpecFcall::Tsetattr(v) => need_fid(fids, v.fid),
        SpecFcall::Treaddir(v) => need_fid(fids, v.fid),
        SpecFcall::Tfsync(v) => need_fid(fids, v.fid),
        SpecFcall::Tmkdir(v) => need_fid(fids, v.dfid),
        SpecFcall::Tread(v) => need_fid(fids, v.fid),
        SpecFcall::Twrite(v) => need_fid(fids, v.fid),
        SpecFcall::Tclunk(v) => need_fid(fids, v.fid),
        SpecFcall::Tremove(v) => need_fid(fids, v.fid),
        SpecFcall::Tunlinkat(v) => need_fid(fids, v.dfid),
        SpecFcall::Tlock(v) => need_fid(fids, v.fid),
        SpecFcall::Tgetlock(v) => need_fid(fids, v.fid),
        SpecFcall::Twalk(v) => need_fid(fids, v.fid),
        SpecFcall::Trename(v) => need_fids(fids, v.fid, v.dfid),
        SpecFcall::Tlink(v) => need_fids(fids, v.fid, v.dfid),
        SpecFcall::Trenameat(v) => need_fids(fids, v.olddfid, v.newdfid),
        SpecFcall::Tflush(_) => None,
        SpecFcall::Tauth(_) => None,
        SpecFcall::Tattach(_) => None,
        _ => Some(Rlerror { ecode: EOPNOTSUPP }),
    }
}

/// The table once a request is answered. `new_fid` is the fid that the
/// file system created for a successful attach, auth or walk.
pub open spec fn spec_after_reply<T>(fids: Map<u32, T>, req: SpecFcall, new_fid: Option<T>) -> Map<
    u32,
    T,
> {
    match req {
        SpecFcall::Tattach(v) => match new_fid {
            Some(f) => fids.insert(v.fid, f),
            None => fids,
        },
        SpecFcall::Tauth(v) => match new_fid {
            Some(f) => fids.insert(v.afid, f),
            None => fids,
        },
        SpecFcall::Twalk(v) => match new_fid {
            Some(f) => fids.insert(v.new_fid, f),
            None => fids,
        },
        SpecFcall::Tclunk(v) => fids.remove(v.fid),
        SpecFcall::Tremove(v) => fids.remove(v.fid),
        _ => fids,
    }
}

/// The fids a server holds, each with what the file system keeps for it.
pub struct FidTable<T> {
    pub fids: HashMap<u32, T>,
}

impl<T> View for FidTable<T> {
    type V = Map<u32, T>;

    open spec fn view(&self) -> Map<u32, T> {
        self.fids@
    }
}

impl<T> FidTable<T> {
    pub fn new() -> (r: FidTable<T>)
        ensures
            r@ == Map::<u32, T>::empty(),
    {
        FidTable { fids: HashMap::new() }
    }

    fn need_fid(&self, fid: u32) -> (r: Option<Rlerror>)
        ensures
            r == need_fid(self@, fid),
    {
        if self.fids.contains_key(&fid) {
            None
        } else {
            Some(Rlerror { ecode: EBADF })
        }
    }

    fn need_fids(&self, a: u32, b: u32) -> (r: Option<Rlerror>)
        ensures
            r == need_fids(self@, a, b),
    {
        if self.fids.contains_key(&a) && self.fids.contains_key(&b) && a != b {
            None
        } else {
            Some(Rlerror { ecode: EBADF })
        }
    }

    /// The answer a request gets without reaching the file system: `EBADF`
    /// for a fid the table does not hold, `EOPNOTSUPP` for a message the
    /// server does not serve; none for a request to hand on.
    pub fn precheck(&self, req: &Fcall) -> (r: Option<Rlerror>)
        ensures
            r == spec_precheck(self@, req@),
    {
        match req {
            Fcall::Tstatfs(v) => self.need_fid(v.fid),
            Fcall::Tlopen(v) => self.need_fid(v.fid),
            Fcall::Tlcreate(v) => self.need_fid(v.fid),
            Fcall::Tsymlink(v) => self.need_fid(v.fid),
            Fcall::Tmknod(v) => self.need_fid(v.dfid),
            Fcall::Treadlink(v) => self.need_fid(v.fid),
            Fcall::Tgetattr(v) => self.need_fid(v.fid),
            Fcall::Tsetattr(v) => self.need_fid(v.fid),
            Fcall::Treaddir(v) => self.need_fid(v.fid),
            Fcall::Tfsync(v) => self.need_fid(v.fid),
            Fcall::Tmkdir(v) => self.need_fid(v.dfid),
            Fcall::Tread(v) => self.need_fid(v.fid),
            Fcall::Twrite(v) => self.need_fid(v.fid),
            Fcall::Tclunk(v) => self.need_fid(v.fid),
            Fcall::Tremove(v) => self.need_fid(v.fid),
            Fcall::Tunlinkat(v) => self.need_fid(v.dfid),
            Fcall::Tlock(v) => self.need_fid(v.fid),
            Fcall::Tgetlock(v) => self.need_fid(v.fid),
            Fcall::Twalk(v) => self.need_fid(v.fid),
            Fcall::Trename(v) => self.need_fids(v.fid, v.dfid),
            Fcall::Tlink(v) => self.need_fids(v.fid, v.dfid),
            Fcall::Trenameat(v) => self.need_fids(v.olddfid, v.newdfid),
            Fcall::Tflush(_) => None,
            Fcall::Tauth(_) => None,
            Fcall::Tattach(_) => None,
            _ => Some(Rlerror { ecode: EOPNOTSUPP }),
        }
    }

    /// Brings the table up to date once a request is answered: the fid
    /// created by a successful attach, auth or walk is added, the fid of a
    /// clunk or remove is released whatever the reply.
    pub fn after_reply(&mut self, req: &Fcall, new_fid: Option<T>)
        ensures
            final(self)@ == spec_after_reply(old(self)@, req@, new_fid),
    {
        match req {
            Fcall::Tattach(v) => {
                if let Some(f) = new_fid {
                    self.fids.insert(v.fid, f);
                }
            },
            Fcall::Tauth(v) => {
                if let Some(f) = new_fid {
                    self.fids.insert(v.afid, f);
                }
            },
            Fcall::Twalk(v) => {
                if let Some(f) = new_fid {
                    self.fids.insert(v.new_fid, f);
                }
            },
            Fcall::Tclunk(v) => {
                self.fids.remove(&v.fid);
            },
            Fcall::Tremove(v) => {
                self.fids.remove(&v.fid);
            },
            _ => {},
        }
    }
}

/// How many bytes a read asks of the file system: the request's count, at
/// most what the data buffer holds.
pub fn read_count(count: u32, capacity: usize) -> (r: usize)
    ensures
        r == if count < capacity {
            count as int
        } else {
            capacity as int
        },
{
    if (count as u64) < capacity as u64 {
        count as usize
    } else {
        capacity
    }
}

/// A clunk or remove releases its fid whatever the reply, and a later
/// request that names the fid is answered `EBADF`.
pub proof fn lemma_release_then_ebadf<T>(fids: Map<u32, T>, req: SpecFcall, new_fid: Option<T>)
    requires
        req is Tclunk || req is Tremove,
    ensures
        ({
            let fid = match req {
                SpecFcall::Tclunk(c) => c.fid,
                SpecFcall::Tremove(c) => c.fid,
                _ => 0,
            };
            let after = spec_after_reply(fids, req, new_fid);
            &&& !after.contains_key(fid)
            &&& spec_precheck(after, req) == Some(Rlerror { ecode: EBADF })
        }),
{
}

/// A successful attach makes its fid known: a request that names it is
/// handed on to the file system.
pub proof fn lemma_attach_then_served<T>(fids: Map<u32, T>, req: SpecFcall, f: T, next: SpecFcall)
    requires
        req matches SpecFcall::Tattach(a) && (next matches SpecFcall::Tgetattr(g) && g.fid == a.fid),
    ensures
        spec_precheck(spec_after_reply(fids, req, Some(f)), next) is None,
{
}

/// Which requests reach the file system, message by message. A request
/// that names one fid is handed on exactly when the table holds it, else
/// answered `EBADF` (9); one that names two is handed on exactly when the
/// table holds both and they differ; flush, auth and attach are always
/// handed on; version, the extended-attribute requests and every reply are
/// answered `EOPNOTSUPP` (95).
pub proof fn lemma_precheck_by_kind<T>(fids: Map<u32, T>, req: SpecFcall)
    ensures
        req matches SpecFcall::Tstatfs(v) ==> spec_precheck(fids, req) == (if fids.contains_key(v.fid) {
            None::<Rlerror>
        } else {
            Some(Rlerror { ecode: 9 })
        }),
        req matches SpecFcall::Tlopen(v) ==> spec_precheck(fids, req) == (if fids.contains_key(v.fid) {
            None::<Rlerror>
        } else {
            Some(Rlerror { ecode: 9 })
        }),
        req matches SpecFcall::Tlcreate(v) ==> spec_precheck(fids, req) == (if fids.contains_key(v.fid) {
            None::<Rlerror>
        } else {
            Some(Rlerror { ecode: 9 })
        }),
        req matches SpecFcall::Tsymlink(v) ==> spec_precheck(fids, req) == (if fids.contains_key(v.fid) {
            None::<Rlerror>
        } else {
            Some(Rlerror { ecode: 9 })
        }),
        req matches SpecFcall::Tmknod(v) ==> spec_precheck(fids, req) == (if fids.contains_key(v.dfid) {
            None::<Rlerror>
        } else {
            Some(Rlerror { ecode: 9 })
        }),
        req matches SpecFcall::Treadlink(v) ==> spec_precheck(fids, req) == (if fids.contains_key(v.fid) {
            None::<Rlerror>
        } else {
            Some(Rlerror { ecode: 9 })
        }),
        req matches SpecFcall::Tgetattr(v) ==> spec_precheck(fids, req) == (if fids.contains_key(v.fid) {
            None::<Rlerror>
        } else {
            Some(Rlerror { ecode: 9 })
        }),
        req matches SpecFcall::Tsetattr(v) ==> spec_precheck(fids, req) == (if fids.contains_key(v.fid) {
            None::<Rlerror>
        } else {
            Some(Rlerror { ecode: 9 })
        }),
        req matches SpecFcall::Treaddir(v) ==> spec_precheck(fids, req) == (if fids.contains_key(v.fid) {
            None::<Rlerror>
        } else {
            Some(Rlerror { ecode: 9 })
        }),
        req matches SpecFcall::Tfsync(v) ==> spec_precheck(fids, req) == (if fids.contains_key(v.fid) {
            None::<Rlerror>
        } else {
            Some(Rlerror { ecode: 9 })
        }),
        req matches SpecFcall::Tmkdir(v) ==> spec_precheck(fids, req) == (if fids.contains_key(v.dfid) {
            None::<Rlerror>
        } else {
            Some(Rlerror { ecode: 9 })
        }),
        req matches SpecFcall::Tread(v) ==> spec_precheck(fids, req) == (if fids.contains_key(v.fid) {
            None::<Rlerror>
        } else {
            Some(Rlerror { ecode: 9 })
        }),
        req matches SpecFcall::Twrite(v) ==> spec_precheck(fids, req) == (if fids.contains_key(v.fid) {
            None::<Rlerror>
        } else {
            Some(Rlerror { ecode: 9 })
        }),
        req matches SpecFcall::Tclunk(v) ==> spec_precheck(fids, req) == (if fids.contains_key(v.fid) {
            None::<Rlerror>
        } else {
            Some(Rlerror { ecode: 9 })
        }),
        req matches SpecFcall::Tremove(v) ==> spec_precheck(fids, req) == (if fids.contains_key(v.fid) {
            None::<Rlerror>
        } else {
            Some(Rlerror { ecode: 9 })
        }),
        req matches SpecFcall::Tunlinkat(v) ==> spec_precheck(fids, req) == (if fids.contains_key(v.dfid) {
            None::<Rlerror>
        } else {
            Some(Rlerror { ecode: 9 })
        }),
        req matches SpecFcall::Tlock(v) ==> spec_precheck(fids, req) == (if fids.contains_key(v.fid) {
            None::<Rlerror>
        } else {
            Some(Rlerror { ecode: 9 })
        }),
        req matches SpecFcall::Tgetlock(v) ==> spec_precheck(fids, req) == (if fids.contains_key(v.fid) {
            None::<Rlerror>
        } else {
            Some(Rlerror { ecode: 9 })
        }),
        req matches SpecFcall::Twalk(v) ==> spec_precheck(fids, req) == (if fids.contains_key(v.fid) {
            None::<Rlerror>
        } else {
            Some(Rlerror { ecode: 9 })
        }),
        req matches SpecFcall::Trename(v) ==> spec_precheck(fids, req) == (if fids.contains_key(v.fid)
            && fids.contains_key(v.dfid) && v.fid != v.dfid {
            None::<Rlerror>
        } else {
            Some(Rlerror { ecode: 9 })
        }),
        req matches SpecFcall::Tlink(v) ==> spec_precheck(fids, req) == (if fids.contains_key(v.fid)
            && fids.contains_key(v.dfid) && v.fid != v.dfid {
            None::<Rlerror>
        } else {
            Some(Rlerror { ecode: 9 })
        }),
        req matches SpecFcall::Trenameat(v) ==> spec_precheck(fids, req) == (if fids.contains_key(v.olddfid)
            && fids.contains_key(v.newdfid) && v.olddfid != v.newdfid {
            None::<Rlerror>
        } else {
            Some(Rlerror { ecode: 9 })
        }),
        req is Tflush || req is Tauth || req is Tattach ==> spec_precheck(fids, req) is None,
        req is Rlerror || req is Rattach || req is Rstatfs || req is Rlopen || req is Rlcreate || req is Rsymlink || req is Rmknod || req is Rrename || req is Rreadlink || req is Rgetattr || req is Rsetattr || req is Txattrwalk || req is Rxattrwalk || req is Txattrcreate || req is Rxattrcreate || req is Rreaddir || req is Rfsync || req is Rlock || req is Rgetlock || req is Rlink || req is Rmkdir || req is Rrenameat || req is Runlinkat || req is Rauth || req is Tversion || req is Rversion || req is Rflush || req is Rwalk || req is Rread || req is Rwrite || req is Rclunk || req is Rremove
            ==> spec_precheck(fids, req) == Some(Rlerror { ecode: 95 }),
{
}

/// How the table changes once a request is answered. A successful attach,
/// auth or walk adds its new fid and keeps every other; without a new fid
/// the table stays. A clunk or remove takes its fid out, whatever the reply,
/// and keeps every other. Any other request leaves the table as it was.
pub proof fn lemma_after_reply_by_kind<T>(fids: Map<u32, T>, req: SpecFcall, new_fid: Option<T>, x: u32)
    ensures
        req matches SpecFcall::Tattach(v) ==> (new_fid is Some ==> {
            let r = spec_after_reply(fids, req, new_fid);
            &&& r.contains_key(x) == (x == v.fid || fids.contains_key(x))
            &&& r[v.fid] == new_fid->0
            &&& (x != v.fid && fids.contains_key(x) ==> r[x] == fids[x])
        }),
        req matches SpecFcall::Tauth(v) ==> (new_fid is Some ==> {
            let r = spec_after_reply(fids, req, new_fid);
            &&& r.contains_key(x) == (x == v.afid || fids.contains_key(x))
            &&& r[v.afid] == new_fid->0
            &&& (x != v.afid && fids.contains_key(x) ==> r[x] == fids[x])
        }),
        req matches SpecFcall::Twalk(v) ==> (new_fid is Some ==> {
            let r = spec_after_reply(fids, req, new_fid);
            &&& r.contains_key(x) == (x == v.new_fid || fids.contains_key(x))
            &&& r[v.new_fid] == new_fid->0
            &&& (x != v.new_fid && fids.contains_key(x) ==> r[x] == fids[x])
        }),
        (req is Tattach || req is Tauth || req is Twalk) && new_fid is None ==> spec_after_reply(
            fids,
            req,
            new_fid,
        ) == fids,
        req matches SpecFcall::Tclunk(v) ==> ({
            let r = spec_after_reply(fids, req, new_fid);
            &&& r.contains_key(x) == (x != v.fid && fids.contains_key(x))
            &&& (x != v.fid && fids.contains_key(x) ==> r[x] == fids[x])
        }),
        req matches SpecFcall::Tremove(v) ==> ({
            let r = spec_after_reply(fids, req, new_fid);
            &&& r.contains_key(x) == (x != v.fid && fids.contains_key(x))
            &&& (x != v.fid && fids.contains_key(x) ==> r[x] == fids[x])
        }),
        !(req is Tattach || req is Tauth || req is Twalk || req is Tclunk || req is Tremove)
            ==> spec_after_reply(fids, req, new_fid) == fids,
{
}

/// A successful walk keeps the fid it walked from: a later request that
/// names it is still handed on.
pub proof fn lemma_walk_keeps_origin<T>(fids: Map<u32, T>, req: SpecFcall, f: T, next: SpecFcall)
    requires
        req matches SpecFcall::Twalk(v) && fids.contains_key(v.fid) && (next matches SpecFcall::Tgetattr(g)
            && g.fid == v.fid),
    ensures
        spec_precheck(spec_after_reply(fids, req, Some(f)), next) is None,
{
}

} // verus!
