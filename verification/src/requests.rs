//! What a client sends for each operation and how it reads the reply.
//!
//! A reply of the expected type gives the operation's result, an `Rlerror`
//! gives the I/O error it reports, and anything else is an unexpected
//! response.
use crate::client::ClientError;
use crate::fcall::{
    DirEntry, Fcall, IOHDRSZ, MAXWELEM, NOTAG, P92000L, Qid, READDIRHDRSZ, Rgetattr, SpecFcall,
    SpecTaggedFcall, TaggedFcall, Tversion, dirents_view,
};
use crate::flags::LockStatus;
use crate::lerror::io_error_of;
use crate::wire::{cow_bytes, cow_str, str_eq};
use std::borrow::Cow;
use vstd::prelude::*;
use vstd::string::*;

verus! {

/// The smallest message size a client asks for: a page of directory
/// entries and the readdir header.
pub const MIN_MSIZE: u32 = 4120;

/// The error that a reply of the wrong type stands for.
pub open spec fn reply_error(f: SpecFcall) -> ClientError {
    match f {
        SpecFcall::Rlerror(e) => ClientError::Io(io_error_of(e.ecode)),
        _ => ClientError::UnexpectedResponse,
    }
}

/// The error that a reply of the wrong type stands for.
pub fn unexpected(f: &Fcall) -> (r: ClientError)
    ensures
        r == reply_error(f@),
{
    match f {
        Fcall::Rlerror(e) => ClientError::Io(e.into_io_error()),
        _ => ClientError::UnexpectedResponse,
    }
}

/// The buffer size a client starts negotiating with: the one asked for,
/// raised to `MIN_MSIZE` and capped at `u32::MAX`.
pub fn initial_bufsize(bufsize: usize) -> (r: usize)
    ensures
        r == if bufsize < MIN_MSIZE {
            MIN_MSIZE as int
        } else if bufsize > u32::MAX {
            u32::MAX as int
        } else {
            bufsize as int
        },
{
    if bufsize < MIN_MSIZE as usize {
        MIN_MSIZE as usize
    } else if bufsize as u64 > u32::MAX as u64 {
        u32::MAX as usize
    } else {
        bufsize
    }
}

/// The `Tversion` a client opens a connection with.
pub fn version_request(bufsize: usize) -> (r: TaggedFcall<'static>)
    ensures
        r.tag == NOTAG,
        r.fcall matches Fcall::Tversion(v) && v.msize == (if bufsize > u32::MAX {
            u32::MAX as int
        } else {
            bufsize as int
        }) && v.version@ == P92000L@,
{
    let msize: u32 = if bufsize as u64 > u32::MAX as u64 {
        u32::MAX
    } else {
        bufsize as u32
    };
    TaggedFcall {
        tag: NOTAG,
        fcall: Fcall::Tversion(Tversion { msize, version: Cow::Borrowed(P92000L) }),
    }
}

/// Reads the server's reply to `Tversion`: the buffer size shrinks to the
/// server's message size; a server that speaks another version, or does
/// not answer with `Rversion` on `NOTAG`, is refused.
pub fn negotiated_bufsize(bufsize: usize, reply: &TaggedFcall) -> (r: Result<usize, ClientError>)
    ensures
        match reply@ {
            SpecTaggedFcall { tag, fcall: SpecFcall::Rversion(v) } => if tag != NOTAG {
                r == Err::<usize, ClientError>(ClientError::UnexpectedResponse)
            } else if v.version != P92000L@ {
                r == Err::<usize, ClientError>(ClientError::NegotiationFailed)
            } else {
                r == Ok::<usize, ClientError>(
                    if v.msize < bufsize {
                        v.msize as usize
                    } else {
                        bufsize
                    },
                )
            },
            _ => r == Err::<usize, ClientError>(ClientError::UnexpectedResponse),
        },
{
    match &reply.fcall {
        Fcall::Rversion(v) => {
            if reply.tag != NOTAG {
                return Err(ClientError::UnexpectedResponse);
            }
            if !str_eq(cow_str(&v.version), P92000L) {
                return Err(ClientError::NegotiationFailed);
            }
            if (v.msize as u64) < bufsize as u64 {
                Ok(v.msize as usize)
            } else {
                Ok(bufsize)
            }
        },
        _ => Err(ClientError::UnexpectedResponse),
    }
}

/// The lengths of the walks that a walk of `n` names is split into: one
/// empty walk for no names, else runs of `MAXWELEM` names and the rest.
pub fn walk_chunks(n: usize) -> (r: Vec<usize>)
    ensures
        n == 0 ==> r@ == seq![0usize],
        n > 0 ==> r@.len() == (n + MAXWELEM - 1) / (MAXWELEM as int) && forall|i: int|
            0 <= i < r@.len() ==> #[trigger] r@[i] == if i < r@.len() - 1 {
                MAXWELEM as int
            } else {
                n - i * MAXWELEM
            },
{
    let mut r: Vec<usize> = Vec::new();
    if n == 0 {
        r.push(0);
        assert(r@ =~= seq![0usize]);
        return r;
    }
    let mut left: usize = n;
    while left > MAXWELEM
        invariant
            n > 0,
            0 < left <= n,
            r@.len() * MAXWELEM + left == n,
            forall|i: int| 0 <= i < r@.len() ==> #[trigger] r@[i] == MAXWELEM,
        decreases left,
    {
        r.push(MAXWELEM);
        left = left - MAXWELEM;
    }
    r.push(left);
    assert(r@.len() == (n + MAXWELEM - 1) / (MAXWELEM as int)) by (nonlinear_arith)
        requires
            (r@.len() - 1) * 13 + left == n,
            0 < left <= 13,
    ;
    r
}

/// The `count` of a `Treaddir`: what the message size leaves after the
/// readdir header.
pub fn readdir_count(msize: u32) -> (r: u32)
    requires
        msize >= READDIRHDRSZ,
    ensures
        r == msize - READDIRHDRSZ,
{
    msize - READDIRHDRSZ
}

/// How many bytes one `Tread` or `Twrite` moves: what the buffer holds,
/// at most what the message size leaves after the I/O header.
pub fn io_count(buf_len: usize, msize: u32) -> (r: usize)
    requires
        msize >= IOHDRSZ,
    ensures
        r == if buf_len < msize - IOHDRSZ {
            buf_len as int
        } else {
            msize - IOHDRSZ
        },
{
    let room: u32 = msize - IOHDRSZ;
    if (buf_len as u64) < room as u64 {
        buf_len
    } else {
        room as usize
    }
}

/// Reads the reply to `Tattach`: the qid of the root.
pub fn attach_reply(reply: &Fcall) -> (r: Result<Qid, ClientError>)
    ensures
        match reply@ {
            SpecFcall::Rattach(v) => r == Ok::<Qid, ClientError>(v.qid),
            _ => r == Err::<Qid, ClientError>(reply_error(reply@)),
        },
{
    match reply {
        Fcall::Rattach(v) => Ok(v.qid),
        _ => Err(unexpected(reply)),
    }
}

/// Reads the reply to `Twalk`: the qids of the names walked.
pub fn walk_reply(reply: Fcall<'static>) -> (r: Result<Vec<Qid>, ClientError>)
    ensures
        match reply@ {
            SpecFcall::Rwalk(v) => r matches Ok(q) && q@ == v.wqids,
            _ => r == Err::<Vec<Qid>, ClientError>(reply_error(reply@)),
        },
{
    match reply {
        Fcall::Rwalk(v) => Ok(v.wqids),
        _ => Err(unexpected(&reply)),
    }
}

/// Reads the reply to `Tlopen`: the qid of the file.
pub fn open_reply(reply: &Fcall) -> (r: Result<Qid, ClientError>)
    ensures
        match reply@ {
            SpecFcall::Rlopen(v) => r == Ok::<Qid, ClientError>(v.qid),
            _ => r == Err::<Qid, ClientError>(reply_error(reply@)),
        },
{
    match reply {
        Fcall::Rlopen(v) => Ok(v.qid),
        _ => Err(unexpected(reply)),
    }
}

/// Reads the reply to `Tlcreate`: the qid of the new file.
pub fn create_reply(reply: &Fcall) -> (r: Result<Qid, ClientError>)
    ensures
        match reply@ {
            SpecFcall::Rlcreate(v) => r == Ok::<Qid, ClientError>(v.qid),
            _ => r == Err::<Qid, ClientError>(reply_error(reply@)),
        },
{
    match reply {
        Fcall::Rlcreate(v) => Ok(v.qid),
        _ => Err(unexpected(reply)),
    }
}

/// Reads the reply to `Tmkdir`: the qid of the new directory.
pub fn mkdir_reply(reply: &Fcall) -> (r: Result<Qid, ClientError>)
    ensures
        match reply@ {
            SpecFcall::Rmkdir(v) => r == Ok::<Qid, ClientError>(v.qid),
            _ => r == Err::<Qid, ClientError>(reply_error(reply@)),
        },
{
    match reply {
        Fcall::Rmkdir(v) => Ok(v.qid),
        _ => Err(unexpected(reply)),
    }
}

/// Reads the reply to `Treaddir`: the entries.
pub fn read_dir_reply(reply: Fcall<'static>) -> (r: Result<Vec<DirEntry<'static>>, ClientError>)
    ensures
        match reply@ {
            SpecFcall::Rreaddir(v) => r matches Ok(d) && dirents_view(d@) == v.data,
            _ => r == Err::<Vec<DirEntry<'static>>, ClientError>(reply_error(reply@)),
        },
{
    match reply {
        Fcall::Rreaddir(v) => Ok(v.data.data),
        _ => Err(unexpected(&reply)),
    }
}

/// Adds a batch of directory entries to those read so far, and gives the
/// offset to read on from: that of the batch's last entry. An empty batch
/// ends the listing.
pub fn read_dir_step(entries: &mut Vec<DirEntry<'static>>, batch: Vec<DirEntry<'static>>) -> (r:
    Option<u64>)
    ensures
        batch@.len() == 0 ==> r is None && final(entries)@ == old(entries)@,
        batch@.len() > 0 ==> r == Some(batch@.last().offset) && final(entries)@ == old(entries)@
            + batch@,
{
    if batch.len() == 0 {
        return None;
    }
    let last: u64 = batch[batch.len() - 1].offset;
    let mut batch = batch;
    entries.append(&mut batch);
    Some(last)
}

/// Reads the reply to `Tread`: the data is copied to the front of `buf`
/// and its length returned.
pub fn read_reply(reply: &Fcall, buf: &mut [u8]) -> (r: Result<usize, ClientError>)
    requires
        reply@ matches SpecFcall::Rread(v) ==> v.data.len() <= old(buf)@.len(),
    ensures
        match reply@ {
            SpecFcall::Rread(v) => r == Ok::<usize, ClientError>(v.data.len() as usize)
                && final(buf)@ == v.data + old(buf)@.skip(v.data.len() as int),
            _ => r == Err::<usize, ClientError>(reply_error(reply@)) && final(buf)@ == old(buf)@,
        },
{
    match reply {
        Fcall::Rread(v) => {
            let data: &[u8] = cow_bytes(&v.data);
            let ghost b0 = buf@;
            let mut i: usize = 0;
            while i < data.len()
                invariant
                    i <= data@.len(),
                    data@.len() <= b0.len(),
                    buf@.len() == b0.len(),
                    forall|j: int| 0 <= j < i ==> buf@[j] == data@[j],
                    forall|j: int| i <= j < b0.len() ==> buf@[j] == b0[j],
                decreases data@.len() - i,
            {
                buf[i] = data[i];
                i = i + 1;
            }
            assert(buf@ =~= data@ + b0.skip(data@.len() as int));
            Ok(data.len())
        },
        _ => Err(unexpected(reply)),
    }
}

/// Reads the reply to `Twrite`: how many bytes were written.
pub fn write_reply(reply: &Fcall) -> (r: Result<usize, ClientError>)
    ensures
        match reply@ {
            SpecFcall::Rwrite(v) => r == Ok::<usize, ClientError>(v.count as usize),
            _ => r == Err::<usize, ClientError>(reply_error(reply@)),
        },
{
    match reply {
        Fcall::Rwrite(v) => Ok(v.count as usize),
        _ => Err(unexpected(reply)),
    }
}

/// Reads the reply to `Tgetattr`.
pub fn getattr_reply(reply: &Fcall) -> (r: Result<Rgetattr, ClientError>)
    ensures
        match reply@ {
            SpecFcall::Rgetattr(v) => r == Ok::<Rgetattr, ClientError>(v),
            _ => r == Err::<Rgetattr, ClientError>(reply_error(reply@)),
        },
{
    match reply {
        Fcall::Rgetattr(v) => Ok(*v),
        _ => Err(unexpected(reply)),
    }
}

/// Reads the reply to `Tlock`: the lock's status.
pub fn lock_reply(reply: &Fcall) -> (r: Result<LockStatus, ClientError>)
    ensures
        match reply@ {
            SpecFcall::Rlock(v) => r == Ok::<LockStatus, ClientError>(v.status),
            _ => r == Err::<LockStatus, ClientError>(reply_error(reply@)),
        },
{
    match reply {
        Fcall::Rlock(v) => Ok(v.status),
        _ => Err(unexpected(reply)),
    }
}

/// The operations whose reply carries nothing.
#[derive(Clone, Copy, Debug, PartialEq, Eq, Structural)]
pub enum EmptyReply {
    Unlinkat,
    Rename,
    Renameat,
    Setattr,
    Fsync,
    Clunk,
    Remove,
}

/// Whether a message is the empty reply that an operation expects.
pub open spec fn is_empty_reply(op: EmptyReply, f: SpecFcall) -> bool {
    match op {
        EmptyReply::Unlinkat => f is Runlinkat,
        EmptyReply::Rename => f is Rrename,
        EmptyReply::Renameat => f is Rrenameat,
        EmptyReply::Setattr => f is Rsetattr,
        EmptyReply::Fsync => f is Rfsync,
        EmptyReply::Clunk => f is Rclunk,
        EmptyReply::Remove => f is Rremove,
    }
}

/// Reads the reply to an operation that expects an empty reply.
pub fn empty_reply(op: EmptyReply, reply: &Fcall) -> (r: Result<(), ClientError>)
    ensures
        is_empty_reply(op, reply@) ==> r is Ok,
        !is_empty_reply(op, reply@) ==> r == Err::<(), ClientError>(reply_error(reply@)),
{
    let ok: bool = match (op, reply) {
        (EmptyReply::Unlinkat, Fcall::Runlinkat(_)) => true,
        (EmptyReply::Rename, Fcall::Rrename(_)) => true,
        (EmptyReply::Renameat, Fcall::Rrenameat(_)) => true,
        (EmptyReply::Setattr, Fcall::Rsetattr(_)) => true,
        (EmptyReply::Fsync, Fcall::Rfsync(_)) => true,
        (EmptyReply::Clunk, Fcall::Rclunk(_)) => true,
        (EmptyReply::Remove, Fcall::Rremove(_)) => true,
        _ => false,
    };
    if ok {
        Ok(())
    } else {
        Err(unexpected(reply))
    }
}

/// Checks that a walk names no more elements than one message may carry.
pub fn check_walk_len(n: usize) -> (r: Result<(), ClientError>)
    ensures
        n > MAXWELEM ==> r == Err::<(), ClientError>(ClientError::TooManyWnames),
        n <= MAXWELEM ==> r is Ok,
{
    if n > MAXWELEM {
        Err(ClientError::TooManyWnames)
    } else {
        Ok(())
    }
}

} // verus!
