//! What a reconnecting proxy remembers of a 9P2000.L session: the fids that
//! were attached, so that they can be attached again on a new connection,
//! and what each request in flight will change among them once answered.
//!
//! Messages are watched as they pass, as raw frames: only attach, clunk and
//! remove requests are decoded; of any other message the type and tag are
//! read from the header.
use crate::fcall::{
    Fcall, FcallType, Rlerror, SpecFcall, SpecTaggedFcall, SpecTattach, TaggedFcall, Tattach,
    lemma_from_u8_code, spec_fcall_type,
};
use crate::frame::{enc_frame, lemma_frame_header, lemma_frame_roundtrip, parse_frame};
use crate::codec::valid_fcall;
use std::collections::HashMap;
use vstd::bytes::*;
use vstd::prelude::*;
use vstd::slice::slice_subrange;

verus! {

broadcast use vstd::std_specs::hash::group_hash_axioms;

/// What the reply to a request will change among the attached fids.
#[derive(Debug)]
pub enum AttachChange {
    /// An attach: on success the fid is attached as the request says.
    AddOnSuccess((u32, Tattach<'static>)),
    /// A clunk or remove: the fid goes, whatever the reply.
    Remove(u32),
    /// Nothing.
    NoChange,
}

/// The value that an `AttachChange` stands for.
pub enum SpecAttachChange {
    AddOnSuccess((u32, SpecTattach)),
    Remove(u32),
    NoChange,
}

impl View for AttachChange {
    type V = SpecAttachChange;

    open spec fn view(&self) -> SpecAttachChange {
        match self {
            AttachChange::AddOnSuccess((fid, t)) => SpecAttachChange::AddOnSuccess((*fid, t@)),
            AttachChange::Remove(fid) => SpecAttachChange::Remove(*fid),
            AttachChange::NoChange => SpecAttachChange::NoChange,
        }
    }
}

/// The attached fids of a session and the requests in flight, by tag.
#[derive(Debug)]
pub struct ShadowServerState {
    pub attach_fids: HashMap<u32, Tattach<'static>>,
    pub inflight_tags: HashMap<u16, AttachChange>,
}

/// The value that a `ShadowServerState` stands for.
pub struct SpecShadow {
    pub attach_fids: Map<u32, SpecTattach>,
    pub inflight_tags: Map<u16, SpecAttachChange>,
}

/// The views of the attach requests held by fid.
pub open spec fn attach_view(m: Map<u32, Tattach<'static>>) -> Map<u32, SpecTattach> {
    m.map_values(|t: Tattach<'static>| t@)
}

/// The views of the changes held by tag.
pub open spec fn change_view(m: Map<u16, AttachChange>) -> Map<u16, SpecAttachChange> {
    m.map_values(|c: AttachChange| c@)
}

impl View for ShadowServerState {
    type V = SpecShadow;

    open spec fn view(&self) -> SpecShadow {
        SpecShadow {
            attach_fids: attach_view(self.attach_fids@),
            inflight_tags: change_view(self.inflight_tags@),
        }
    }
}

/// Requests other than attach, clunk and remove.
pub open spec fn is_plain_request(t: FcallType) -> bool {
    match t {
        FcallType::Twalk
        | FcallType::Tstatfs
        | FcallType::Tlopen
        | FcallType::Tlcreate
        | FcallType::Tsymlink
        | FcallType::Tmknod
        | FcallType::Treadlink
        | FcallType::Tgetattr
        | FcallType::Tsetattr
        | FcallType::Treaddir
        | FcallType::Tfsync
        | FcallType::Tmkdir
        | FcallType::Tflush
        | FcallType::Tread
        | FcallType::Twrite
        | FcallType::Trename
        | FcallType::Tlink
        | FcallType::Trenameat
        | FcallType::Tunlinkat
        | FcallType::Tlock
        | FcallType::Tgetlock
        | FcallType::Tauth
        | FcallType::Txattrwalk
        | FcallType::Txattrcreate
        | FcallType::Tversion => true,
        _ => false,
    }
}

/// Replies other than `Rlerror`.
pub open spec fn is_plain_reply(t: FcallType) -> bool {
    match t {
        FcallType::Rwalk
        | FcallType::Rstatfs
        | FcallType::Rlopen
        | FcallType::Rlcreate
        | FcallType::Rsymlink
        | FcallType::Rmknod
        | FcallType::Rreadlink
        | FcallType::Rgetattr
        | FcallType::Rsetattr
        | FcallType::Rreaddir
        | FcallType::Rfsync
        | FcallType::Rmkdir
        | FcallType::Rflush
        | FcallType::Rread
        | FcallType::Rwrite
        | FcallType::Rrename
        | FcallType::Rlink
        | FcallType::Rrenameat
        | FcallType::Runlinkat
        | FcallType::Rlock
        | FcallType::Rgetlock
        | FcallType::Rauth
        | FcallType::Rattach
        | FcallType::Rxattrwalk
        | FcallType::Rxattrcreate
        | FcallType::Rversion
        | FcallType::Rremove
        | FcallType::Rclunk => true,
        _ => false,
    }
}

/// The tag in a frame's header, read without decoding the frame.
pub open spec fn raw_tag(buf: Seq<u8>) -> u16 {
    spec_u16_from_le_bytes(buf.subrange(5, 7))
}

/// The frames that `on_fcall` can look at: a type byte, and a tag where
/// the type is known and the frame is not decoded.
pub open spec fn watchable(buf: Seq<u8>) -> bool {
    buf.len() >= 5 && (FcallType::spec_from_u8(buf[4]) matches Some(t) && (is_plain_request(t)
        || is_plain_reply(t) || t == FcallType::Rlerror) ==> buf.len() >= 7)
}

/// What the reply with the given tag changes: the change recorded for the
/// tag is applied, except that a failed attach attaches nothing, and the
/// tag is no longer in flight.
pub open spec fn apply_reply(s: SpecShadow, tag: u16, failed: bool) -> SpecShadow {
    let inflight = s.inflight_tags.remove(tag);
    if !s.inflight_tags.contains_key(tag) {
        SpecShadow { attach_fids: s.attach_fids, inflight_tags: inflight }
    } else {
        match s.inflight_tags[tag] {
            SpecAttachChange::AddOnSuccess((fid, t)) => if failed {
                SpecShadow { attach_fids: s.attach_fids, inflight_tags: inflight }
            } else {
                SpecShadow { attach_fids: s.attach_fids.insert(fid, t), inflight_tags: inflight }
            },
            SpecAttachChange::Remove(fid) => SpecShadow {
                attach_fids: s.attach_fids.remove(fid),
                inflight_tags: inflight,
            },
            SpecAttachChange::NoChange => SpecShadow { attach_fids: s.attach_fids, inflight_tags: inflight },
        }
    }
}

/// The state after a frame passes by.
pub open spec fn spec_on_fcall(s: SpecShadow, buf: Seq<u8>) -> SpecShadow {
    match FcallType::spec_from_u8(buf[4]) {
        None => s,
        Some(t) => if t == FcallType::Tattach || t == FcallType::Tclunk || t == FcallType::Tremove {
            match parse_frame(buf) {
                Some(m) => match m.fcall {
                    SpecFcall::Tattach(a) => SpecShadow {
                        attach_fids: s.attach_fids,
                        inflight_tags: s.inflight_tags.insert(
                            m.tag,
                            SpecAttachChange::AddOnSuccess((a.fid, a)),
                        ),
                    },
                    SpecFcall::Tclunk(c) => SpecShadow {
                        attach_fids: s.attach_fids,
                        inflight_tags: s.inflight_tags.insert(m.tag, SpecAttachChange::Remove(c.fid)),
                    },
                    SpecFcall::Tremove(c) => SpecShadow {
                        attach_fids: s.attach_fids,
                        inflight_tags: s.inflight_tags.insert(m.tag, SpecAttachChange::Remove(c.fid)),
                    },
                    _ => s,
                },
                None => s,
            }
        } else if is_plain_request(t) {
            SpecShadow {
                attach_fids: s.attach_fids,
                inflight_tags: s.inflight_tags.insert(raw_tag(buf), SpecAttachChange::NoChange),
            }
        } else if is_plain_reply(t) {
            apply_reply(s, raw_tag(buf), false)
        } else {
            apply_reply(s, raw_tag(buf), true)
        },
    }
}

impl ShadowServerState {
    pub fn new() -> (r: ShadowServerState)
        ensures
            r@.attach_fids == Map::<u32, SpecTattach>::empty(),
            r@.inflight_tags == Map::<u16, SpecAttachChange>::empty(),
    {
        let r = ShadowServerState { attach_fids: HashMap::new(), inflight_tags: HashMap::new() };
        assert(r@.attach_fids =~= Map::<u32, SpecTattach>::empty());
        assert(r@.inflight_tags =~= Map::<u16, SpecAttachChange>::empty());
        r
    }

    fn record(&mut self, tag: u16, change: AttachChange)
        ensures
            final(self)@.attach_fids == old(self)@.attach_fids,
            final(self)@.inflight_tags == old(self)@.inflight_tags.insert(tag, change@),
    {
        self.inflight_tags.insert(tag, change);
        assert(final(self)@.inflight_tags =~= old(self)@.inflight_tags.insert(tag, change@));
    }

    fn settle(&mut self, tag: u16, failed: bool)
        ensures
            final(self)@ == apply_reply(old(self)@, tag, failed),
    {
        let ghost s0 = self@;
        match self.inflight_tags.remove(&tag) {
            Some(AttachChange::AddOnSuccess((fid, tattach))) => {
                if !failed {
                    self.attach_fids.insert(fid, tattach);
                }
            },
            Some(AttachChange::Remove(fid)) => {
                self.attach_fids.remove(&fid);
            },
            Some(AttachChange::NoChange) => {},
            None => {},
        }
        assert(self@.inflight_tags =~= s0.inflight_tags.remove(tag));
        assert(self@.attach_fids =~= apply_reply(s0, tag, failed).attach_fids);
    }

    /// Notes a frame on its way between client and server.
    pub fn on_fcall(&mut self, buf: &[u8])
        requires
            watchable(buf@),
        ensures
            final(self)@ == spec_on_fcall(old(self)@, buf@),
    {
        let fcall_type = match FcallType::from_u8(buf[4]) {
            Some(t) => t,
            None => return,
        };
        // Only these are decoded.
        match fcall_type {
            FcallType::Tattach | FcallType::Tclunk | FcallType::Tremove => {
                match TaggedFcall::decode(buf) {
                    Ok(tagged_fcall) => match &tagged_fcall.fcall {
                        Fcall::Tattach(tattach) => {
                            self.record(
                                tagged_fcall.tag,
                                AttachChange::AddOnSuccess((tattach.fid, tattach.clone_static())),
                            );
                        },
                        Fcall::Tclunk(c) => {
                            self.record(tagged_fcall.tag, AttachChange::Remove(c.fid));
                        },
                        Fcall::Tremove(c) => {
                            self.record(tagged_fcall.tag, AttachChange::Remove(c.fid));
                        },
                        _ => {},
                    },
                    Err(_) => {},
                }
            },
            FcallType::Twalk
            | FcallType::Tstatfs
            | FcallType::Tlopen
            | FcallType::Tlcreate
            | FcallType::Tsymlink
            | FcallType::Tmknod
            | FcallType::Treadlink
            | FcallType::Tgetattr
            | FcallType::Tsetattr
            | FcallType::Treaddir
            | FcallType::Tfsync
            | FcallType::Tmkdir
            | FcallType::Tflush
            | FcallType::Tread
            | FcallType::Twrite
            | FcallType::Trename
            | FcallType::Tlink
            | FcallType::Trenameat
            | FcallType::Tunlinkat
            | FcallType::Tlock
            | FcallType::Tgetlock
            | FcallType::Tauth
            | FcallType::Txattrwalk
            | FcallType::Txattrcreate
            | FcallType::Tversion => {
                let tag: u16 = u16_from_le_bytes(slice_subrange(buf, 5, 7));
                self.record(tag, AttachChange::NoChange);
            },
            FcallType::Rwalk
            | FcallType::Rstatfs
            | FcallType::Rlopen
            | FcallType::Rlcreate
            | FcallType::Rsymlink
            | FcallType::Rmknod
            | FcallType::Rreadlink
            | FcallType::Rgetattr
            | FcallType::Rsetattr
            | FcallType::Rreaddir
            | FcallType::Rfsync
            | FcallType::Rmkdir
            | FcallType::Rflush
            | FcallType::Rread
            | FcallType::Rwrite
            | FcallType::Rrename
            | FcallType::Rlink
            | FcallType::Rrenameat
            | FcallType::Runlinkat
            | FcallType::Rlock
            | FcallType::Rgetlock
            | FcallType::Rauth
            | FcallType::Rattach
            | FcallType::Rxattrwalk
            | FcallType::Rxattrcreate
            | FcallType::Rversion
            | FcallType::Rremove
            | FcallType::Rclunk => {
                let tag: u16 = u16_from_le_bytes(slice_subrange(buf, 5, 7));
                self.settle(tag, false);
            },
            FcallType::Rlerror => {
                let tag: u16 = u16_from_le_bytes(slice_subrange(buf, 5, 7));
                self.settle(tag, true);
            },
        }
    }
}

/// An encoded message is watchable, and `on_fcall` reads its type and tag
/// as they were encoded.
proof fn lemma_watch_frame(m: SpecTaggedFcall)
    requires
        valid_fcall(m.fcall),
    ensures
        watchable(enc_frame(m)),
        FcallType::spec_from_u8(enc_frame(m)[4]) == Some(spec_fcall_type(m.fcall)),
        raw_tag(enc_frame(m)) == m.tag,
        parse_frame(enc_frame(m)) == Some(m),
{
    lemma_frame_header(m);
    lemma_from_u8_code(spec_fcall_type(m.fcall));
    lemma_frame_roundtrip(m, Seq::empty());
    assert(enc_frame(m) + Seq::<u8>::empty() =~= enc_frame(m));
}

/// An attach that succeeds is remembered: after an attach request and a
/// reply other than `Rlerror` on its tag, the fid is attached as the
/// request said, and the tag is no longer in flight.
pub proof fn lemma_attach_succeeds(s: SpecShadow, tag: u16, a: SpecTattach, reply: SpecFcall)
    requires
        valid_fcall(SpecFcall::Tattach(a)),
        valid_fcall(reply),
        is_plain_reply(spec_fcall_type(reply)),
    ensures
        ({
            let req = SpecTaggedFcall { tag, fcall: SpecFcall::Tattach(a) };
            let rep = SpecTaggedFcall { tag, fcall: reply };
            let s2 = spec_on_fcall(spec_on_fcall(s, enc_frame(req)), enc_frame(rep));
            s2.attach_fids == s.attach_fids.insert(a.fid, a) && !s2.inflight_tags.contains_key(tag)
        }),
{
    reveal(spec_fcall_type);
    let req = SpecTaggedFcall { tag, fcall: SpecFcall::Tattach(a) };
    let rep = SpecTaggedFcall { tag, fcall: reply };
    lemma_watch_frame(req);
    lemma_watch_frame(rep);
}

/// An attach that fails is forgotten: after an attach request and an
/// `Rlerror` on its tag, the attached fids are as before.
pub proof fn lemma_attach_fails(s: SpecShadow, tag: u16, a: SpecTattach, ecode: u32)
    requires
        valid_fcall(SpecFcall::Tattach(a)),
    ensures
        ({
            let req = SpecTaggedFcall { tag, fcall: SpecFcall::Tattach(a) };
            let rep = SpecTaggedFcall { tag, fcall: SpecFcall::Rlerror(Rlerror { ecode }) };
            let s2 = spec_on_fcall(spec_on_fcall(s, enc_frame(req)), enc_frame(rep));
            s2.attach_fids == s.attach_fids && !s2.inflight_tags.contains_key(tag)
        }),
{
    reveal(spec_fcall_type);
    reveal(valid_fcall);
    let req = SpecTaggedFcall { tag, fcall: SpecFcall::Tattach(a) };
    let rep = SpecTaggedFcall { tag, fcall: SpecFcall::Rlerror(Rlerror { ecode }) };
    lemma_watch_frame(req);
    lemma_watch_frame(rep);
}

/// A clunk or remove is respected whatever the reply: after the request
/// and any reply on its tag, `Rlerror` included, the fid is no longer
/// attached.
pub proof fn lemma_release_respected(s: SpecShadow, tag: u16, req: SpecFcall, reply: SpecFcall)
    requires
        req is Tclunk || req is Tremove,
        valid_fcall(reply),
        is_plain_reply(spec_fcall_type(reply)) || reply is Rlerror,
    ensures
        ({
            let fid = match req {
                SpecFcall::Tclunk(c) => c.fid,
                SpecFcall::Tremove(c) => c.fid,
                _ => 0,
            };
            let s2 = spec_on_fcall(
                spec_on_fcall(s, enc_frame(SpecTaggedFcall { tag, fcall: req })),
                enc_frame(SpecTaggedFcall { tag, fcall: reply }),
            );
            s2.attach_fids == s.attach_fids.remove(fid) && !s2.inflight_tags.contains_key(tag)
        }),
{
    reveal(spec_fcall_type);
    reveal(valid_fcall);
    lemma_watch_frame(SpecTaggedFcall { tag, fcall: req });
    lemma_watch_frame(SpecTaggedFcall { tag, fcall: reply });
}

/// Any other request leaves the attached fids as they are, whatever the
/// reply.
pub proof fn lemma_plain_request(s: SpecShadow, tag: u16, req: SpecFcall, reply: SpecFcall)
    requires
        valid_fcall(req),
        is_plain_request(spec_fcall_type(req)),
        valid_fcall(reply),
        is_plain_reply(spec_fcall_type(reply)) || reply is Rlerror,
    ensures
        ({
            let s2 = spec_on_fcall(
                spec_on_fcall(s, enc_frame(SpecTaggedFcall { tag, fcall: req })),
                enc_frame(SpecTaggedFcall { tag, fcall: reply }),
            );
            s2.attach_fids == s.attach_fids && !s2.inflight_tags.contains_key(tag)
        }),
{
    reveal(spec_fcall_type);
    lemma_watch_frame(SpecTaggedFcall { tag, fcall: req });
    lemma_watch_frame(SpecTaggedFcall { tag, fcall: reply });
}

/// A decoded frame's tag is the one in its header.
proof fn lemma_parse_frame_tag(buf: Seq<u8>)
    ensures
        parse_frame(buf) matches Some(m) ==> buf.len() >= 7 && m.tag == raw_tag(buf),
{
    if parse_frame(buf) is Some {
        let s1 = buf.skip(4);
        let s2 = s1.skip(1);
        assert(s2.take(2) =~= buf.subrange(5, 7));
    }
}

/// A frame records or settles only its own tag: every other request in
/// flight stays as it was.
pub proof fn lemma_other_tags_untouched(s: SpecShadow, buf: Seq<u8>, t2: u16)
    requires
        watchable(buf),
        buf.len() >= 7,
        t2 != raw_tag(buf),
    ensures
        spec_on_fcall(s, buf).inflight_tags.contains_key(t2) == s.inflight_tags.contains_key(t2),
        s.inflight_tags.contains_key(t2) ==> spec_on_fcall(s, buf).inflight_tags[t2]
            == s.inflight_tags[t2],
{
    lemma_parse_frame_tag(buf);
}

/// Only a reply to an attach, clunk or remove in flight changes the
/// attached fids: a request never does, nor a reply on a tag with nothing
/// in flight.
pub proof fn lemma_attached_fids_change_only_on_settled_tag(s: SpecShadow, buf: Seq<u8>)
    requires
        watchable(buf),
        buf.len() >= 7,
    ensures
        !s.inflight_tags.contains_key(raw_tag(buf)) ==> spec_on_fcall(s, buf).attach_fids
            == s.attach_fids,
        (FcallType::spec_from_u8(buf[4]) matches Some(t) && !is_plain_reply(t) && t
            != FcallType::Rlerror) ==> spec_on_fcall(s, buf).attach_fids == s.attach_fids,
{
}

/// An attach survives other traffic: after an attach request on one tag, a
/// request and its reply on another, and a successful reply on the
/// attach's tag, the fid is attached as the request said, and the other
/// request is no longer in flight.
pub proof fn lemma_attach_survives_other_traffic(
    s: SpecShadow,
    t1: u16,
    a: SpecTattach,
    t2: u16,
    req: SpecFcall,
    rep: SpecFcall,
    reply: SpecFcall,
)
    requires
        t1 != t2,
        valid_fcall(SpecFcall::Tattach(a)),
        valid_fcall(req),
        valid_fcall(rep),
        valid_fcall(reply),
        is_plain_request(spec_fcall_type(req)),
        is_plain_reply(spec_fcall_type(rep)) || rep is Rlerror,
        is_plain_reply(spec_fcall_type(reply)),
    ensures
        ({
            let s1 = spec_on_fcall(s, enc_frame(SpecTaggedFcall { tag: t1, fcall: SpecFcall::Tattach(a) }));
            let s2 = spec_on_fcall(s1, enc_frame(SpecTaggedFcall { tag: t2, fcall: req }));
            let s3 = spec_on_fcall(s2, enc_frame(SpecTaggedFcall { tag: t2, fcall: rep }));
            let s4 = spec_on_fcall(s3, enc_frame(SpecTaggedFcall { tag: t1, fcall: reply }));
            &&& s4.attach_fids == s.attach_fids.insert(a.fid, a)
            &&& !s4.inflight_tags.contains_key(t1)
            &&& !s4.inflight_tags.contains_key(t2)
        }),
{
    reveal(spec_fcall_type);
    let f1 = enc_frame(SpecTaggedFcall { tag: t1, fcall: SpecFcall::Tattach(a) });
    let f2 = enc_frame(SpecTaggedFcall { tag: t2, fcall: req });
    let f3 = enc_frame(SpecTaggedFcall { tag: t2, fcall: rep });
    let f4 = enc_frame(SpecTaggedFcall { tag: t1, fcall: reply });
    lemma_watch_frame(SpecTaggedFcall { tag: t1, fcall: SpecFcall::Tattach(a) });
    lemma_watch_frame(SpecTaggedFcall { tag: t2, fcall: req });
    lemma_watch_frame(SpecTaggedFcall { tag: t2, fcall: rep });
    lemma_watch_frame(SpecTaggedFcall { tag: t1, fcall: reply });
    let s1 = spec_on_fcall(s, f1);
    let s2 = spec_on_fcall(s1, f2);
    let s3 = spec_on_fcall(s2, f3);
    lemma_other_tags_untouched(s1, f2, t1);
    lemma_other_tags_untouched(s2, f3, t1);
    lemma_attached_fids_change_only_on_settled_tag(s1, f2);
}

/// Requests and replies are told apart by their type number. A request
/// (an even number) never changes the attached fids, and one other than
/// attach, clunk and remove puts its tag in flight with nothing to change. A
/// reply (an odd number) takes its tag out of flight and leaves every other.
pub proof fn lemma_requests_and_replies(s: SpecShadow, buf: Seq<u8>)
    requires
        watchable(buf),
        buf.len() >= 7,
        FcallType::spec_from_u8(buf[4]) is Some,
    ensures
        buf[4] % 2 == 0 ==> spec_on_fcall(s, buf).attach_fids == s.attach_fids,
        buf[4] % 2 == 0 && buf[4] != 104 && buf[4] != 120 && buf[4] != 122 ==> spec_on_fcall(
            s,
            buf,
        ).inflight_tags == s.inflight_tags.insert(raw_tag(buf), SpecAttachChange::NoChange),
        buf[4] % 2 == 1 ==> spec_on_fcall(s, buf).inflight_tags == s.inflight_tags.remove(raw_tag(buf)),
{
    reveal(FcallType::spec_from_u8);
}

} // verus!
