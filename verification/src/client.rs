//! The bookkeeping of a 9P2000.L client: fids and tags are handed out
//! round-robin from the last one given, skipping those in use, and version
//! negotiation settles the message size.
use crate::error::IoError;
use crate::fcall::{NOFID, NOTAG};
use std::collections::{HashMap, HashSet};
use vstd::prelude::*;
use vstd::string::*;
use vstd::set_lib::{lemma_int_range, lemma_len_subset, lemma_map_size, set_int_range};

verus! {

broadcast use vstd::std_specs::hash::group_hash_axioms;

/// Why a client operation failed.
#[derive(Clone, Copy, Debug, PartialEq, Eq, Structural)]
pub enum ClientError {
    /// The server replied with an error.
    Io(IoError),
    /// The server replied with a message of the wrong type.
    UnexpectedResponse,
    /// The server does not speak 9P2000.L.
    NegotiationFailed,
    /// A walk names more elements than one message may carry.
    TooManyWnames,
    /// Every fid is in use.
    FidsExhausted,
    /// The connection is gone.
    Disconnected,
    /// The reply never came.
    NoReply,
}

/// The text of each error.
pub open spec fn client_error_text(e: ClientError) -> Seq<char> {
    match e {
        ClientError::Io(_) => "io error"@,
        ClientError::UnexpectedResponse => "unexpected response from server"@,
        ClientError::NegotiationFailed => "protocol negotiation failed"@,
        ClientError::TooManyWnames => "walk has too many wnames"@,
        ClientError::FidsExhausted => "fids exhausted"@,
        ClientError::Disconnected => "disconnected"@,
        ClientError::NoReply => "io error"@,
    }
}

impl ClientError {
    /// The human readable text of the error, where it is not the server's.
    pub fn message(&self) -> (r: &'static str)
        ensures
            r@ == client_error_text(*self),
    {
        proof {
            reveal_strlit("disconnected");
            reveal_strlit("fids exhausted");
            reveal_strlit("io error");
            reveal_strlit("protocol negotiation failed");
            reveal_strlit("unexpected response from server");
            reveal_strlit("walk has too many wnames");
        }
        match self {
            ClientError::Io(_) => "io error",
            ClientError::UnexpectedResponse => "unexpected response from server",
            ClientError::NegotiationFailed => "protocol negotiation failed",
            ClientError::TooManyWnames => "walk has too many wnames",
            ClientError::FidsExhausted => "fids exhausted",
            ClientError::Disconnected => "disconnected",
            ClientError::NoReply => "io error",
        }
    }
}

/// How many steps forward lead from `a` to `x` when fids run from 0 to
/// `NOFID - 1` and then wrap; `NOFID` itself counts as `NOFID - 1`. For any
/// `x` other than `NOFID` it lies between 1 and `NOFID`.
pub open spec fn cyc_dist32(a: u32, x: u32) -> int {
    let a1: int = if a == NOFID { NOFID - 1 } else { a as int };
    if x > a1 {
        x - a1
    } else {
        x + NOFID - a1
    }
}

/// How many steps forward lead from `a` to `x` when tags run from 0 to
/// `NOTAG - 1` and then wrap; `NOTAG` itself counts as `NOTAG - 1`. For any
/// `x` other than `NOTAG` it lies between 1 and `NOTAG`.
pub open spec fn cyc_dist16(a: u16, x: u16) -> int {
    let a1: int = if a == NOTAG { NOTAG - 1 } else { a as int };
    if x > a1 {
        x - a1
    } else {
        x + NOTAG - a1
    }
}

/// Fids are tried in turn: the one right after `a` is `a + 1`, or 0 after
/// `NOFID - 1` (and after `NOFID`); every fid other than `NOFID` comes
/// within `NOFID` steps, and no two at the same step.
pub proof fn lemma_fid_order(a: u32, x: u32, y: u32)
    requires
        x != NOFID,
        y != NOFID,
    ensures
        1 <= cyc_dist32(a, x) <= NOFID,
        cyc_dist32(a, x) == 1 <==> x == (if a >= NOFID - 1 { 0 } else { a + 1 }),
        cyc_dist32(a, x) == cyc_dist32(a, y) ==> x == y,
{
}

/// Tags are tried in turn: the one right after `a` is `a + 1`, or 0 after
/// `NOTAG - 1` (and after `NOTAG`); every tag other than `NOTAG` comes
/// within `NOTAG` steps, and no two at the same step.
pub proof fn lemma_tag_order(a: u16, x: u16, y: u16)
    requires
        x != NOTAG,
        y != NOTAG,
    ensures
        1 <= cyc_dist16(a, x) <= NOTAG,
        cyc_dist16(a, x) == 1 <==> x == (if a >= NOTAG - 1 { 0 } else { a + 1 }),
        cyc_dist16(a, x) == cyc_dist16(a, y) ==> x == y,
{
}

/// A finite set of fewer than 2^32 `u32`s leaves one out.
proof fn lemma_u32_free(s: Set<u32>) -> (f: u32)
    requires
        s.finite(),
        s.len() < 0x1_0000_0000,
    ensures
        !s.contains(f),
{
    if forall|x: u32| s.contains(x) {
        let g = |i: int| i as u32;
        let r = set_int_range(0, 0x1_0000_0000);
        lemma_int_range(0, 0x1_0000_0000);
        assert forall|x: u32| #[trigger] s.contains(x) implies r.map(g).contains(x) by {
            assert(r.contains(x as int) && g(x as int) == x);
        }
        assert(vstd::relations::injective_on(g, r)) by {
            assert forall|i: int, j: int| r.contains(i) && r.contains(j) && #[trigger] g(i) == #[trigger] g(j)
                implies i == j by {}
        }
        lemma_map_size(r, r.map(g), g);
        assert(r.map(g).subset_of(s));
        lemma_len_subset(r.map(g), s);
        assert(false);
    }
    choose|x: u32| !s.contains(x)
}

/// A finite set of fewer than 2^16 `u16`s leaves one out.
proof fn lemma_u16_free(s: Set<u16>) -> (f: u16)
    requires
        s.finite(),
        s.len() < 0x1_0000,
    ensures
        !s.contains(f),
{
    if forall|x: u16| s.contains(x) {
        let g = |i: int| i as u16;
        let r = set_int_range(0, 0x1_0000);
        lemma_int_range(0, 0x1_0000);
        assert forall|x: u16| #[trigger] s.contains(x) implies r.map(g).contains(x) by {
            assert(r.contains(x as int) && g(x as int) == x);
        }
        assert(vstd::relations::injective_on(g, r)) by {
            assert forall|i: int, j: int| r.contains(i) && r.contains(j) && #[trigger] g(i) == #[trigger] g(j)
                implies i == j by {}
        }
        lemma_map_size(r, r.map(g), g);
        assert(r.map(g).subset_of(s));
        lemma_len_subset(r.map(g), s);
        assert(false);
    }
    choose|x: u16| !s.contains(x)
}

/// The fids of a connection that are in use, and the last one handed out.
pub struct FidsetInner {
    pub set: HashSet<u32>,
    pub next: u32,
}

impl FidsetInner {
    /// `NOFID` is never in use, so no more than `NOFID` fids are.
    pub open spec fn wf(&self) -> bool {
        self.set@.finite() && self.set@.len() <= NOFID && !self.set@.contains(NOFID)
    }

    pub fn new() -> (r: FidsetInner)
        ensures
            r.wf(),
            r.set@ == Set::<u32>::empty(),
            r.next == NOFID,
    {
        FidsetInner { set: HashSet::new(), next: NOFID }
    }

    /// Hands out the first fid after the last one given, wrapping after
    /// `NOFID - 1`, that is not in use; `NOFID` is never handed out. None
    /// once every other fid is in use.
    pub fn fresh_id(&mut self) -> (r: Option<u32>)
        requires
            old(self).wf(),
        ensures
            final(self).wf(),
            old(self).set@.len() == NOFID ==> r is None && final(self).set@ == old(self).set@
                && final(self).next == old(self).next,
            old(self).set@.len() < NOFID ==> (r matches Some(id)
                && id != NOFID
                && !old(self).set@.contains(id)
                && final(self).set@ == old(self).set@.insert(id)
                && final(self).next == id
                && forall|x: u32| x != NOFID && cyc_dist32(old(self).next, x) < cyc_dist32(old(self).next, id)
                    ==> old(self).set@.contains(x)),
    {
        if self.set.len() as u64 == NOFID as u64 {
            return None;
        }
        let ghost start = self.next;
        let ghost s0 = self.set@;
        let ghost free = lemma_u32_free(s0.insert(NOFID));
        let ghost mut k: int = 0;
        loop
            invariant
                self.set@ == s0,
                s0 == old(self).set@,
                start == old(self).next,
                s0.finite(),
                s0.len() < NOFID,
                !s0.contains(NOFID),
                !s0.contains(free),
                free != NOFID,
                0 <= k < NOFID,
                k == 0 ==> self.next == start,
                k > 0 ==> self.next != NOFID && cyc_dist32(start, self.next) == k,
                forall|x: u32| x != NOFID && 1 <= #[trigger] cyc_dist32(start, x) <= k ==> s0.contains(x),
            decreases NOFID - k,
        {
            if self.next >= NOFID - 1 {
                self.next = 0;
            } else {
                self.next = self.next + 1;
            }
            proof {
                k = k + 1;
            }
            if !self.set.contains(&self.next) {
                let id = self.next;
                self.set.insert(id);
                assert(final(self).set@.len() == s0.len() + 1);
                return Some(id);
            }
            assert(cyc_dist32(start, free) > k);
        }
    }

    /// Gives a fid back.
    pub fn remove(&mut self, id: u32)
        requires
            old(self).wf(),
        ensures
            final(self).wf(),
            final(self).set@ == old(self).set@.remove(id),
            final(self).next == old(self).next,
    {
        self.set.remove(&id);
        proof {
            vstd::set_lib::lemma_len_subset(final(self).set@, old(self).set@);
        }
    }
}

/// The requests of a connection that await their reply, each with what
/// the reply goes to, keyed by tag.
pub struct InflightFcallsInner<T> {
    pub disconnected: bool,
    pub map: HashMap<u16, T>,
    pub next_tag: u16,
}

impl<T> InflightFcallsInner<T> {
    /// `NOTAG` is never in use, so no more than `NOTAG` requests are in
    /// flight.
    pub open spec fn wf(&self) -> bool {
        self.map@.len() <= NOTAG && !self.map@.contains_key(NOTAG)
    }

    /// A new request has to wait for a tag: every tag but `NOTAG` is in use.
    pub open spec fn spec_must_wait(&self) -> bool {
        !self.disconnected && self.map@.len() == NOTAG
    }

    /// Whether a new request has to wait until another one is answered.
    pub fn must_wait(&self) -> (r: bool)
        requires
            self.wf(),
        ensures
            r == self.spec_must_wait(),
    {
        !self.disconnected && self.map.len() as u64 == NOTAG as u64
    }

    pub fn new() -> (r: InflightFcallsInner<T>)
        ensures
            r.wf(),
            !r.disconnected,
            r.map@ == Map::<u16, T>::empty(),
            r.next_tag == NOTAG,
    {
        InflightFcallsInner { disconnected: false, map: HashMap::new(), next_tag: NOTAG }
    }

    /// Forgets every request: their replies will never come.
    pub fn mark_disconnected(&mut self)
        ensures
            final(self).wf(),
            final(self).disconnected,
            final(self).map@ == Map::<u16, T>::empty(),
            final(self).next_tag == old(self).next_tag,
    {
        self.map.clear();
        self.disconnected = true;
    }

    /// Records a request under the first tag after the last one given,
    /// wrapping after `NOTAG - 1`, that is not in use; `NOTAG` is never
    /// handed out. A caller that has to
    /// wait (`must_wait`) waits first.
    pub fn add(&mut self, respond_to: T) -> (r: Result<u16, ClientError>)
        requires
            old(self).wf(),
            !old(self).spec_must_wait(),
        ensures
            final(self).wf(),
            final(self).disconnected == old(self).disconnected,
            old(self).disconnected ==> r == Err::<u16, ClientError>(ClientError::Disconnected)
                && final(self).map@ == old(self).map@ && final(self).next_tag == old(self).next_tag,
            !old(self).disconnected ==> (r matches Ok(tag)
                && tag != NOTAG
                && !old(self).map@.contains_key(tag)
                && final(self).map@ == old(self).map@.insert(tag, respond_to)
                && final(self).next_tag == tag
                && forall|x: u16| x != NOTAG && cyc_dist16(old(self).next_tag, x) < cyc_dist16(old(self).next_tag, tag)
                    ==> old(self).map@.contains_key(x)),
    {
        if self.disconnected {
            return Err(ClientError::Disconnected);
        }
        let ghost start = self.next_tag;
        let ghost m0 = self.map@;
        let ghost free = lemma_u16_free(m0.dom().insert(NOTAG));
        let ghost mut k: int = 0;
        loop
            invariant
                self.map@ == m0,
                self.disconnected == old(self).disconnected,
                !old(self).disconnected,
                m0 == old(self).map@,
                start == old(self).next_tag,
                m0.dom().finite(),
                m0.len() < NOTAG,
                !m0.contains_key(NOTAG),
                !m0.contains_key(free),
                free != NOTAG,
                0 <= k < NOTAG,
                k == 0 ==> self.next_tag == start,
                k > 0 ==> self.next_tag != NOTAG && cyc_dist16(start, self.next_tag) == k,
                forall|x: u16| x != NOTAG && 1 <= #[trigger] cyc_dist16(start, x) <= k ==> m0.contains_key(x),
            decreases NOTAG - k,
        {
            if self.next_tag >= NOTAG - 1 {
                self.next_tag = 0;
            } else {
                self.next_tag = self.next_tag + 1;
            }
            proof {
                k = k + 1;
            }
            if !self.map.contains_key(&self.next_tag) {
                let tag = self.next_tag;
                self.map.insert(tag, respond_to);
                assert(final(self).map@.dom() =~= m0.dom().insert(tag));
                return Ok(tag);
            }
            assert(cyc_dist16(start, free) > k);
        }
    }

    /// Takes the request with the given tag out, if there is one.
    pub fn remove(&mut self, tag: u16) -> (r: Option<T>)
        requires
            old(self).wf(),
        ensures
            final(self).wf(),
            final(self).map@ == old(self).map@.remove(tag),
            final(self).disconnected == old(self).disconnected,
            final(self).next_tag == old(self).next_tag,
            r == (if old(self).map@.contains_key(tag) {
                Some(old(self).map@[tag])
            } else {
                None::<T>
            }),
    {
        let r = self.map.remove(&tag);
        proof {
            vstd::set_lib::lemma_len_subset(final(self).map@.dom(), old(self).map@.dom());
            assert(final(self).map@.dom() =~= old(self).map@.dom().remove(tag));
        }
        r
    }
}

} // verus!
