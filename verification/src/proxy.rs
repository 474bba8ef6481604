//! The decisions of a reconnecting 9P2000.L proxy: which version exchanges
//! it accepts, what it answers while the server is away, and what it sends
//! to restore the attached fids on a new connection.
use crate::codec::enc_err_fcall;
use crate::errno::EIO;
use crate::fcall::{
    Fcall, NOTAG, P92000L, Rlerror, Rversion, SpecFcall, SpecRversion, SpecTaggedFcall,
    SpecTattach, SpecTversion, TaggedFcall, Tattach, Tversion,
};
use crate::frame::enc_frame;
use crate::shadow::{ShadowServerState, SpecAttachChange, raw_tag, spec_on_fcall};
use crate::wire::{cow_str, cow_str_owned, str_eq};
use std::borrow::Cow;
use vstd::bytes::*;
use vstd::prelude::*;
use vstd::string::*;
use vstd::slice::slice_subrange;
use vstd::std_specs::iter::IteratorSpec;

verus! {

broadcast use vstd::std_specs::hash::group_hash_axioms;

/// Why the proxy gives up on a connection.
#[derive(Clone, Copy, Debug, PartialEq, Eq, Structural)]
pub enum ProxyError {
    /// The client did not open with `Tversion` on `NOTAG`.
    ExpectedTversion,
    /// The client asked for a version other than 9P2000.L.
    ExpectedVersion,
    /// The server did not answer `Tversion` with `Rversion` on `NOTAG`.
    ExpectedRversion,
    /// The server came back with a smaller message size or another version.
    ServerChanged,
    /// The server did not answer a re-attach with `Rattach` on `NOTAG`.
    ExpectedRattach,
}

/// The text of each error.
pub open spec fn proxy_error_text(e: ProxyError) -> Seq<char> {
    match e {
        ProxyError::ExpectedTversion => "9p protocol error, expected Tversion"@,
        ProxyError::ExpectedVersion => "9p protocol error, expected version 9P2000.L"@,
        ProxyError::ExpectedRversion => "9p protocol error, expected Rversion"@,
        ProxyError::ServerChanged => "server resized buffers on reconnect"@,
        ProxyError::ExpectedRattach => "9p protocol error, expected Rattach"@,
    }
}

impl ProxyError {
    /// The human readable text of the error.
    pub fn message(&self) -> (r: &'static str)
        ensures
            r@ == proxy_error_text(*self),
    {
        proof {
            reveal_strlit("9p protocol error, expected Rattach");
            reveal_strlit("9p protocol error, expected Rversion");
            reveal_strlit("9p protocol error, expected Tversion");
            reveal_strlit("9p protocol error, expected version 9P2000.L");
            reveal_strlit("server resized buffers on reconnect");
        }
        match self {
            ProxyError::ExpectedTversion => "9p protocol error, expected Tversion",
            ProxyError::ExpectedVersion => "9p protocol error, expected version 9P2000.L",
            ProxyError::ExpectedRversion => "9p protocol error, expected Rversion",
            ProxyError::ServerChanged => "server resized buffers on reconnect",
            ProxyError::ExpectedRattach => "9p protocol error, expected Rattach",
        }
    }
}

/// Takes the client's opening message: a `Tversion` on `NOTAG`.
pub fn expect_tversion(m: &TaggedFcall) -> (r: Result<Tversion<'static>, ProxyError>)
    ensures
        match m@ {
            SpecTaggedFcall { tag, fcall: SpecFcall::Tversion(v) } => if tag == NOTAG {
                r matches Ok(t) && t@ == v
            } else {
                r == Err::<Tversion<'static>, ProxyError>(ProxyError::ExpectedTversion)
            },
            _ => r == Err::<Tversion<'static>, ProxyError>(ProxyError::ExpectedTversion),
        },
{
    match &m.fcall {
        Fcall::Tversion(v) => if m.tag == NOTAG {
            Ok(v.clone_static())
        } else {
            Err(ProxyError::ExpectedTversion)
        },
        _ => Err(ProxyError::ExpectedTversion),
    }
}

/// Refuses a client that asks for another version than 9P2000.L: the
/// `Rversion` "unknown" to send it comes back in the error.
pub fn check_client_version(tversion: &Tversion) -> (r: Result<(), TaggedFcall<'static>>)
    ensures
        tversion@.version == P92000L@ ==> r is Ok,
        tversion@.version != P92000L@ ==> (r matches Err(reply) && reply@ == (SpecTaggedFcall {
            tag: NOTAG,
            fcall: SpecFcall::Rversion(SpecRversion { msize: tversion.msize, version: "unknown"@ }),
        })),
{
    if str_eq(cow_str(&tversion.version), P92000L) {
        Ok(())
    } else {
        let reply = TaggedFcall {
            tag: NOTAG,
            fcall: Fcall::Rversion(Rversion { msize: tversion.msize, version: Cow::Borrowed("unknown") }),
        };
        proof {
            reveal_strlit("unknown");
        }
        Err(reply)
    }
}

/// Takes the server's answer to `Tversion`: an `Rversion` on `NOTAG`.
pub fn expect_rversion(m: &TaggedFcall) -> (r: Result<Rversion<'static>, ProxyError>)
    ensures
        match m@ {
            SpecTaggedFcall { tag, fcall: SpecFcall::Rversion(v) } => if tag == NOTAG {
                r matches Ok(t) && t@ == v
            } else {
                r == Err::<Rversion<'static>, ProxyError>(ProxyError::ExpectedRversion)
            },
            _ => r == Err::<Rversion<'static>, ProxyError>(ProxyError::ExpectedRversion),
        },
{
    match &m.fcall {
        Fcall::Rversion(v) => if m.tag == NOTAG {
            Ok(v.clone_static())
        } else {
            Err(ProxyError::ExpectedRversion)
        },
        _ => Err(ProxyError::ExpectedRversion),
    }
}

/// The `Tversion` sent to a new connection: the size and version that the
/// first server agreed to.
pub fn reconnect_tversion(rversion: &Rversion) -> (r: TaggedFcall<'static>)
    ensures
        r@ == (SpecTaggedFcall {
            tag: NOTAG,
            fcall: SpecFcall::Tversion(SpecTversion { msize: rversion.msize, version: rversion@.version }),
        }),
{
    TaggedFcall {
        tag: NOTAG,
        fcall: Fcall::Tversion(
            Tversion { msize: rversion.msize, version: cow_str_owned(&rversion.version) },
        ),
    }
}

/// A new connection is kept only if the server offers at least the old
/// message size and the same version.
pub fn check_reconnect_rversion(old: &Rversion, new: &Rversion) -> (r: Result<(), ProxyError>)
    ensures
        new.msize < old.msize || new@.version != old@.version ==> r == Err::<(), ProxyError>(
            ProxyError::ServerChanged,
        ),
        !(new.msize < old.msize || new@.version != old@.version) ==> r is Ok,
{
    if new.msize < old.msize || !str_eq(cow_str(&new.version), cow_str(&old.version)) {
        Err(ProxyError::ServerChanged)
    } else {
        Ok(())
    }
}

/// Takes the server's answer to a re-attach: an `Rattach` on `NOTAG`.
pub fn expect_rattach(m: &TaggedFcall) -> (r: Result<(), ProxyError>)
    ensures
        (m@.tag == NOTAG && m@.fcall is Rattach) ==> r is Ok,
        !(m@.tag == NOTAG && m@.fcall is Rattach) ==> r == Err::<(), ProxyError>(
            ProxyError::ExpectedRattach,
        ),
{
    match &m.fcall {
        Fcall::Rattach(_) => if m.tag == NOTAG {
            Ok(())
        } else {
            Err(ProxyError::ExpectedRattach)
        },
        _ => Err(ProxyError::ExpectedRattach),
    }
}

/// The reply that fails a request with `EIO`.
pub fn eio_reply(tag: u16) -> (r: TaggedFcall<'static>)
    ensures
        r@ == (SpecTaggedFcall { tag, fcall: SpecFcall::Rlerror(Rlerror { ecode: EIO }) }),
{
    TaggedFcall { tag, fcall: Fcall::Rlerror(Rlerror { ecode: EIO }) }
}

/// The attach request that restores a fid.
pub open spec fn reattach(fid: u32, t: SpecTattach) -> SpecTaggedFcall {
    SpecTaggedFcall { tag: NOTAG, fcall: SpecFcall::Tattach(SpecTattach { fid, ..t }) }
}

/// Whether a request restores one of the attached fids.
pub open spec fn restores_some_fid(m: SpecTaggedFcall, fids: Map<u32, SpecTattach>) -> bool {
    exists|fid: u32| fids.contains_key(fid) && m == reattach(fid, fids[fid])
}

impl ShadowServerState {
    /// Forgets every request in flight and gives their tags, each once, so
    /// that each can be answered with `EIO`.
    pub fn cancel_inflight(&mut self) -> (r: Vec<u16>)
        ensures
            final(self)@.attach_fids == old(self)@.attach_fids,
            final(self)@.inflight_tags == Map::<u16, SpecAttachChange>::empty(),
            r@.no_duplicates(),
            r@.to_set() == old(self)@.inflight_tags.dom(),
    {
        let mut r: Vec<u16> = Vec::new();
        let ghost ks = vstd::std_specs::hash::spec_keys_iter(&self.inflight_tags).remaining();
        for tag in it: self.inflight_tags.keys()
            invariant
                it.seq() == ks,
                r@.len() == it.index(),
                forall|j: int| 0 <= j < it.index() ==> r@[j] == *ks[j],
        {
            r.push(*tag);
        }
        assert(r@ =~= ks.unref());
        proof {
            assert forall|i: int, j: int| 0 <= i < r@.len() && 0 <= j < r@.len() && i != j implies r@[i]
                != r@[j] by {
                assert(ks[i] != ks[j]);
            }
            assert(ks.unref().to_set() == old(self)@.inflight_tags.dom());
        }
        self.inflight_tags.clear();
        assert(final(self)@.inflight_tags =~= Map::<u16, SpecAttachChange>::empty());
        r
    }

    /// The attach requests that restore every attached fid, one per fid.
    pub fn reattach_requests(&self) -> (r: Vec<TaggedFcall<'static>>)
        ensures
            r@.len() == self@.attach_fids.len(),
            forall|i: int| 0 <= i < r@.len() ==> restores_some_fid(#[trigger] r@[i]@, self@.attach_fids),
            forall|fid: u32| #[trigger] self@.attach_fids.contains_key(fid) ==> exists|i: int|
                0 <= i < r@.len() && #[trigger] r@[i]@ == reattach(fid, self@.attach_fids[fid]),
    {
        let mut r: Vec<TaggedFcall<'static>> = Vec::new();
        let ghost v = vstd::std_specs::hash::spec_hash_map_iter(&self.attach_fids).remaining();
        for (fid, tattach) in it: self.attach_fids.iter()
            invariant
                it.seq() == v,
                r@.len() == it.index(),
                forall|j: int| 0 <= j < it.index() ==> #[trigger] r@[j]@ == reattach(*v[j].0, v[j].1@),
        {
            let t = tattach.clone_static();
            r.push(
                TaggedFcall {
                    tag: NOTAG,
                    fcall: Fcall::Tattach(
                        Tattach { fid: *fid, afid: t.afid, uname: t.uname, aname: t.aname, n_uname: t.n_uname },
                    ),
                },
            );
        }
        proof {
            assert(self@.attach_fids.dom() =~= self.attach_fids@.dom());
            assert forall|i: int| 0 <= i < r@.len() implies restores_some_fid(#[trigger] r@[i]@, self@.attach_fids) by {
                assert(self.attach_fids@.contains_key(*v[i].0));
                assert(self@.attach_fids.contains_key(*v[i].0));
            }
            assert forall|fid: u32| #[trigger] self@.attach_fids.contains_key(fid) implies exists|i: int|
                0 <= i < r@.len() && #[trigger] r@[i]@ == reattach(fid, self@.attach_fids[fid]) by {
                assert(self.attach_fids@.contains_key(fid));
                assert(v.contains((&fid, &self.attach_fids@[fid])));
                let i = choose|i: int| 0 <= i < v.len() && v[i] == (&fid, &self.attach_fids@[fid]);
                assert(r@[i]@ == reattach(fid, self@.attach_fids[fid]));
            }
        }
        r
    }

    /// While the server is away, answers a request with `EIO`: the request
    /// in `buf` is noted, `buf` then holds the reply, which is noted too so
    /// that a failed clunk still releases its fid.
    pub fn eio_reply_frame(&mut self, buf: &mut Vec<u8>)
        requires
            old(buf)@.len() >= 7,
        ensures
            final(buf)@ == enc_frame(
                SpecTaggedFcall {
                    tag: raw_tag(old(buf)@),
                    fcall: SpecFcall::Rlerror(Rlerror { ecode: EIO }),
                },
            ),
            final(self)@ == spec_on_fcall(spec_on_fcall(old(self)@, old(buf)@), final(buf)@),
    {
        self.on_fcall(buf.as_slice());
        let tag: u16 = u16_from_le_bytes(slice_subrange(buf.as_slice(), 5, 7));
        let resp = eio_reply(tag);
        proof {
            reveal(enc_err_fcall);
        }
        // An `Rlerror` always encodes.
        let _ = resp.encode_to_buf(buf);
        proof {
            crate::frame::lemma_frame_header(resp@);
            crate::fcall::lemma_from_u8_code(crate::fcall::spec_fcall_type(resp@.fcall));
        }
        self.on_fcall(buf.as_slice());
    }
}

} // verus!
