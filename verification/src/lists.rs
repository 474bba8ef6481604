//! The wire form of the three lists the protocol carries: walk names, walk
//! qids and directory entries.
//!
//! Names and qids are counted by a two-byte element count; directory entries
//! by the four-byte number of bytes they take.
use crate::codec::{
    enc_direntry, enc_qid, encode_direntry, encode_qid, lemma_parse_direntry, lemma_parse_qid,
    parse_direntry, parse_qid, valid_direntry, valid_qid,
};
use crate::error::ProtoError;
use crate::fcall::{
    DirEntry, DirEntryData, Qid, SpecDirEntry, dirent_size, dirents_size, dirents_view,
    lemma_dirents_size_prefix, lemma_dirents_size_push, strs_view,
};
use crate::wire::{
    FcallDecoder, cow_str, enc_str, enc_u8, le64, encode_str, encode_u16, encode_u32, err_result, le16, le32,
    lemma_parse_str, lemma_parse_u16, lemma_parse_u32, lemma_parse_u64, lemma_parse_u8, parse_str,
    parse_u16, parse_u32, str_fits,
};
use std::borrow::Cow;
use vstd::prelude::*;

verus! {

// ---------------------------------------------------------------- names

/// The strings of a list, one after another.
pub open spec fn enc_strs(v: Seq<Seq<char>>) -> Seq<u8>
    decreases v.len(),
{
    if v.len() == 0 {
        Seq::empty()
    } else {
        enc_strs(v.drop_last()) + enc_str(v.last())
    }
}

/// A list of strings: its element count in two bytes, then the strings.
pub open spec fn enc_vec_str(v: Seq<Seq<char>>) -> Seq<u8> {
    le16(v.len() as u16) + enc_strs(v)
}

pub open spec fn valid_vec_str(v: Seq<Seq<char>>) -> bool {
    v.len() <= 0xffff && forall|i: int| 0 <= i < v.len() ==> str_fits(#[trigger] v[i])
}

/// A list of more than 0xffff strings is refused before any string.
pub open spec fn enc_err_vec_str(v: Seq<Seq<char>>) -> Option<ProtoError> {
    if v.len() > 0xffff {
        Some(ProtoError::StringVecTooLong)
    } else if exists|i: int| 0 <= i < v.len() && !str_fits(#[trigger] v[i]) {
        Some(ProtoError::StringTooLong)
    } else {
        None
    }
}

/// `n` strings, one after another.
pub open spec fn parse_strs(s: Seq<u8>, n: nat) -> Option<(Seq<Seq<char>>, Seq<u8>)>
    decreases n,
{
    if n == 0 {
        Some((Seq::empty(), s))
    } else {
        match parse_strs(s, (n - 1) as nat) {
            None => None,
            Some((vs, r)) => match parse_str(r) {
                None => None,
                Some((x, r2)) => Some((vs.push(x), r2)),
            },
        }
    }
}

pub open spec fn parse_vec_str(s: Seq<u8>) -> Option<(Seq<Seq<char>>, Seq<u8>)> {
    match parse_u16(s) {
        None => None,
        Some((n, r)) => parse_strs(r, n as nat),
    }
}

proof fn lemma_parse_strs(v: Seq<Seq<char>>, rest: Seq<u8>)
    requires
        forall|i: int| 0 <= i < v.len() ==> str_fits(#[trigger] v[i]),
    ensures
        parse_strs(enc_strs(v) + rest, v.len()) == Some((v, rest)),
    decreases v.len(),
{
    if v.len() == 0 {
        assert(enc_strs(v) + rest =~= rest);
        assert(v =~= Seq::<Seq<char>>::empty());
    } else {
        let p = v.drop_last();
        let l = v.last();
        assert forall|i: int| 0 <= i < p.len() implies str_fits(#[trigger] p[i]) by {
            assert(p[i] == v[i]);
        }
        assert(str_fits(v[v.len() - 1]));
        lemma_parse_strs(p, enc_str(l) + rest);
        assert(enc_strs(v) + rest =~= enc_strs(p) + (enc_str(l) + rest));
        lemma_parse_str(l, rest);
        assert(p.push(l) =~= v);
    }
}

/// Once the strings run out, asking for more fails too.
proof fn lemma_parse_strs_none(s: Seq<u8>, k: nat, m: nat)
    requires
        k <= m,
        parse_strs(s, k) is None,
    ensures
        parse_strs(s, m) is None,
    decreases m - k,
{
    if k < m {
        lemma_parse_strs_none(s, k, (m - 1) as nat);
    }
}

pub proof fn lemma_parse_vec_str(v: Seq<Seq<char>>, rest: Seq<u8>)
    requires
        valid_vec_str(v),
    ensures
        parse_vec_str(enc_vec_str(v) + rest) == Some((v, rest)),
{
    lemma_parse_u16(v.len() as u16, enc_strs(v) + rest);
    lemma_parse_strs(v, rest);
    assert(enc_vec_str(v) + rest =~= le16(v.len() as u16) + (enc_strs(v) + rest));
}

/// Writes a list of strings; refuses more than 0xffff of them, or a string
/// longer than 0xffff bytes.
pub fn encode_vec_str<'a>(buf: &mut Vec<u8>, v: &Vec<Cow<'a, str>>) -> (r: Result<(), ProtoError>)
    ensures
        r == err_result(enc_err_vec_str(strs_view(v@))),
        r is Ok ==> final(buf)@ == old(buf)@ + enc_vec_str(strs_view(v@)),
        old(buf)@.is_prefix_of(final(buf)@),
{
    let ghost sv = strs_view(v@);
    if v.len() > 0xffff {
        return Err(ProtoError::StringVecTooLong);
    }
    let ghost b0 = buf@;
    encode_u16(buf, v.len() as u16);
    let mut i: usize = 0;
    while i < v.len()
        invariant
            i <= v@.len(),
            v@.len() <= 0xffff,
            sv == strs_view(v@),
            b0 == old(buf)@,
            buf@ == b0 + le16(v@.len() as u16) + enc_strs(sv.take(i as int)),
            forall|j: int| 0 <= j < i ==> str_fits(#[trigger] sv[j]),
        decreases v@.len() - i,
    {
        let res = encode_str(buf, cow_str(&v[i]));
        if res.is_err() {
            assert(!str_fits(sv[i as int]));
            assert(b0.is_prefix_of(buf@));
            return Err(ProtoError::StringTooLong);
        }
        proof {
            assert(sv.take(i + 1).drop_last() =~= sv.take(i as int));
            assert(sv.take(i + 1).last() == sv[i as int]);
        }
        i = i + 1;
    }
    assert(sv.take(i as int) =~= sv);
    assert(buf@ =~= b0 + enc_vec_str(sv));
    Ok(())
}

// ---------------------------------------------------------------- qids

/// The qids of a list, one after another.
pub open spec fn enc_qids(v: Seq<Qid>) -> Seq<u8>
    decreases v.len(),
{
    if v.len() == 0 {
        Seq::empty()
    } else {
        enc_qids(v.drop_last()) + enc_qid(v.last())
    }
}

/// A list of qids: its element count in two bytes, then the qids.
pub open spec fn enc_vec_qid(v: Seq<Qid>) -> Seq<u8> {
    le16(v.len() as u16) + enc_qids(v)
}

pub open spec fn valid_vec_qid(v: Seq<Qid>) -> bool {
    v.len() <= 0xffff && forall|i: int| 0 <= i < v.len() ==> valid_qid(#[trigger] v[i])
}

pub open spec fn enc_err_vec_qid(v: Seq<Qid>) -> Option<ProtoError> {
    if v.len() > 0xffff {
        Some(ProtoError::QidVecTooLong)
    } else {
        None
    }
}

/// `n` qids, one after another.
pub open spec fn parse_qids(s: Seq<u8>, n: nat) -> Option<(Seq<Qid>, Seq<u8>)>
    decreases n,
{
    if n == 0 {
        Some((Seq::empty(), s))
    } else {
        match parse_qids(s, (n - 1) as nat) {
            None => None,
            Some((vs, r)) => match parse_qid(r) {
                None => None,
                Some((x, r2)) => Some((vs.push(x), r2)),
            },
        }
    }
}

pub open spec fn parse_vec_qid(s: Seq<u8>) -> Option<(Seq<Qid>, Seq<u8>)> {
    match parse_u16(s) {
        None => None,
        Some((n, r)) => parse_qids(r, n as nat),
    }
}

proof fn lemma_parse_qids(v: Seq<Qid>, rest: Seq<u8>)
    requires
        forall|i: int| 0 <= i < v.len() ==> valid_qid(#[trigger] v[i]),
    ensures
        parse_qids(enc_qids(v) + rest, v.len()) == Some((v, rest)),
    decreases v.len(),
{
    if v.len() == 0 {
        assert(enc_qids(v) + rest =~= rest);
        assert(v =~= Seq::<Qid>::empty());
    } else {
        let p = v.drop_last();
        let l = v.last();
        assert forall|i: int| 0 <= i < p.len() implies valid_qid(#[trigger] p[i]) by {
            assert(p[i] == v[i]);
        }
        assert(valid_qid(v[v.len() - 1]));
        lemma_parse_qids(p, enc_qid(l) + rest);
        assert(enc_qids(v) + rest =~= enc_qids(p) + (enc_qid(l) + rest));
        lemma_parse_qid(l, rest);
        assert(p.push(l) =~= v);
    }
}

proof fn lemma_parse_qids_none(s: Seq<u8>, k: nat, m: nat)
    requires
        k <= m,
        parse_qids(s, k) is None,
    ensures
        parse_qids(s, m) is None,
    decreases m - k,
{
    if k < m {
        lemma_parse_qids_none(s, k, (m - 1) as nat);
    }
}

pub proof fn lemma_parse_vec_qid(v: Seq<Qid>, rest: Seq<u8>)
    requires
        valid_vec_qid(v),
    ensures
        parse_vec_qid(enc_vec_qid(v) + rest) == Some((v, rest)),
{
    lemma_parse_u16(v.len() as u16, enc_qids(v) + rest);
    lemma_parse_qids(v, rest);
    assert(enc_vec_qid(v) + rest =~= le16(v.len() as u16) + (enc_qids(v) + rest));
}

/// Writes a list of qids; refuses more than 0xffff of them.
pub fn encode_vec_qid(buf: &mut Vec<u8>, v: &Vec<Qid>) -> (r: Result<(), ProtoError>)
    ensures
        r == err_result(enc_err_vec_qid(v@)),
        r is Ok ==> final(buf)@ == old(buf)@ + enc_vec_qid(v@),
        old(buf)@.is_prefix_of(final(buf)@),
{
    if v.len() > 0xffff {
        return Err(ProtoError::QidVecTooLong);
    }
    let ghost b0 = buf@;
    encode_u16(buf, v.len() as u16);
    let mut i: usize = 0;
    while i < v.len()
        invariant
            i <= v@.len(),
            buf@ == b0 + le16(v@.len() as u16) + enc_qids(v@.take(i as int)),
        decreases v@.len() - i,
    {
        encode_qid(buf, &v[i]);
        proof {
            assert(v@.take(i + 1).drop_last() =~= v@.take(i as int));
            assert(v@.take(i + 1).last() == v@[i as int]);
        }
        i = i + 1;
    }
    assert(v@.take(i as int) =~= v@);
    assert(buf@ =~= b0 + enc_vec_qid(v@));
    Ok(())
}

// ---------------------------------------------------------------- directory entries

/// The entries of a listing, one after another.
pub open spec fn enc_dirents(v: Seq<SpecDirEntry>) -> Seq<u8>
    decreases v.len(),
{
    if v.len() == 0 {
        Seq::empty()
    } else {
        enc_direntry(v[0]) + enc_dirents(v.skip(1))
    }
}

/// A listing: the number of bytes its entries take, in four bytes, then the
/// entries.
pub open spec fn enc_direntrydata(v: Seq<SpecDirEntry>) -> Seq<u8> {
    le32(dirents_size(v) as u32) + enc_dirents(v)
}

pub open spec fn valid_direntrydata(v: Seq<SpecDirEntry>) -> bool {
    dirents_size(v) <= 0xffff_ffff && forall|i: int| 0 <= i < v.len() ==> valid_direntry(#[trigger] v[i])
}

/// A listing of more than 0xffffffff bytes is refused before any entry.
pub open spec fn enc_err_direntrydata(v: Seq<SpecDirEntry>) -> Option<ProtoError> {
    if dirents_size(v) > 0xffff_ffff {
        Some(ProtoError::DirEntriesTooLong)
    } else if exists|i: int| 0 <= i < v.len() && !str_fits(#[trigger] v[i].name) {
        Some(ProtoError::StringTooLong)
    } else {
        None
    }
}

/// Entries, read until no more than `end` bytes are left.
pub open spec fn parse_dirents(s: Seq<u8>, end: nat) -> Option<(Seq<SpecDirEntry>, Seq<u8>)>
    decreases s.len(),
{
    if s.len() <= end {
        Some((Seq::empty(), s))
    } else {
        match parse_direntry(s) {
            None => None,
            Some((e, r)) => if r.len() < s.len() {
                match parse_dirents(r, end) {
                    None => None,
                    Some((es, r2)) => Some((seq![e] + es, r2)),
                }
            } else {
                None
            },
        }
    }
}

/// The byte count is read, then entries until the bytes it counts, counted
/// from the start of the count itself, are used up. A count larger than the
/// bytes at hand is refused.
pub open spec fn parse_direntrydata(s: Seq<u8>) -> Option<(Seq<SpecDirEntry>, Seq<u8>)> {
    match parse_u32(s) {
        None => None,
        Some((n, r)) => if n <= s.len() {
            parse_dirents(r, (s.len() - n) as nat)
        } else {
            None
        },
    }
}

proof fn lemma_enc_dirents_push(v: Seq<SpecDirEntry>, e: SpecDirEntry)
    ensures
        enc_dirents(v.push(e)) == enc_dirents(v) + enc_direntry(e),
    decreases v.len(),
{
    if v.len() == 0 {
        assert(v.push(e).skip(1) =~= Seq::<SpecDirEntry>::empty());
        assert(v.push(e)[0] == e);
        assert(enc_dirents(v.push(e).skip(1)) == Seq::<u8>::empty());
        assert(enc_dirents(v.push(e)) =~= enc_dirents(v) + enc_direntry(e));
    } else {
        lemma_enc_dirents_push(v.skip(1), e);
        assert(v.push(e).skip(1) =~= v.skip(1).push(e));
        assert(v.push(e)[0] == v[0]);
        assert(enc_dirents(v.push(e)) =~= enc_dirents(v) + enc_direntry(e));
    }
}

/// `DirEntry::size` is the number of bytes the entry takes on the wire.
pub proof fn lemma_enc_direntry_len(e: SpecDirEntry)
    requires
        str_fits(e.name),
    ensures
        enc_direntry(e).len() == dirent_size(e),
{
    lemma_parse_u8(e.qid.typ.bits, Seq::empty());
    lemma_parse_u32(e.qid.version, Seq::empty());
    lemma_parse_u64(e.qid.path, Seq::empty());
    lemma_parse_u64(e.offset, Seq::empty());
    lemma_parse_u16(0, Seq::empty());
    lemma_parse_u16(vstd::utf8::encode_utf8(e.name).len() as u16, Seq::empty());
}

/// `DirEntryData::size` is the number of bytes the entries take on the wire.
pub proof fn lemma_enc_dirents_len(v: Seq<SpecDirEntry>)
    requires
        forall|i: int| 0 <= i < v.len() ==> str_fits(#[trigger] v[i].name),
    ensures
        enc_dirents(v).len() == dirents_size(v),
    decreases v.len(),
{
    if v.len() > 0 {
        assert(str_fits(v[0].name));
        lemma_enc_direntry_len(v[0]);
        assert forall|i: int| 0 <= i < v.skip(1).len() implies str_fits(#[trigger] v.skip(1)[i].name) by {
            assert(v.skip(1)[i] == v[i + 1]);
        }
        lemma_enc_dirents_len(v.skip(1));
    }
}

proof fn lemma_parse_dirents(v: Seq<SpecDirEntry>, rest: Seq<u8>, end: nat)
    requires
        forall|i: int| 0 <= i < v.len() ==> valid_direntry(#[trigger] v[i]),
        rest.len() <= end < rest.len() + 24,
    ensures
        parse_dirents(enc_dirents(v) + rest, end) == Some((v, rest)),
    decreases v.len(),
{
    if v.len() == 0 {
        assert(enc_dirents(v) + rest =~= rest);
        assert(v =~= Seq::<SpecDirEntry>::empty());
    } else {
        let t = v.skip(1);
        assert(valid_direntry(v[0]));
        assert forall|i: int| 0 <= i < t.len() implies valid_direntry(#[trigger] t[i]) by {
            assert(t[i] == v[i + 1]);
        }
        lemma_parse_dirents(t, rest, end);
        lemma_parse_direntry(v[0], enc_dirents(t) + rest);
        lemma_enc_direntry_len(v[0]);
        assert(enc_dirents(v) + rest =~= enc_direntry(v[0]) + (enc_dirents(t) + rest));
        assert(seq![v[0]] + t =~= v);
    }
}

pub proof fn lemma_parse_direntrydata(v: Seq<SpecDirEntry>, rest: Seq<u8>)
    requires
        valid_direntrydata(v),
    ensures
        parse_direntrydata(enc_direntrydata(v) + rest) == Some((v, rest)),
{
    assert forall|i: int| 0 <= i < v.len() implies str_fits(#[trigger] v[i].name) by {
        assert(valid_direntry(v[i]));
    }
    lemma_enc_dirents_len(v);
    let n = dirents_size(v) as u32;
    lemma_parse_u32(n, enc_dirents(v) + rest);
    lemma_parse_dirents(v, rest, rest.len() + 4);
    assert(enc_direntrydata(v) + rest =~= le32(n) + (enc_dirents(v) + rest));
}

/// What an encoded listing holds: the count it starts with is the entries'
/// size, as `DirEntryData::size` gives it, and exactly that many bytes of
/// entries follow it.
pub proof fn lemma_direntrydata_count(v: Seq<SpecDirEntry>)
    requires
        enc_err_direntrydata(v) is None,
    ensures
        enc_direntrydata(v) == le32(dirents_size(v) as u32) + enc_dirents(v),
        dirents_size(v) <= 0xffff_ffff,
        enc_dirents(v).len() == dirents_size(v),
        parse_u32(enc_direntrydata(v)) == Some((dirents_size(v) as u32, enc_dirents(v))),
{
    assert forall|i: int| 0 <= i < v.len() implies str_fits(#[trigger] v[i].name) by {
        if !str_fits(v[i].name) {
            assert(exists|j: int| 0 <= j < v.len() && !str_fits(#[trigger] v[j].name));
        }
    }
    lemma_enc_dirents_len(v);
    lemma_parse_u32(dirents_size(v) as u32, enc_dirents(v));
}

/// The strings of a list on the wire: nothing for none, and each further
/// string as its byte length in two bytes and its UTF-8 bytes, after those
/// before it.
pub proof fn lemma_strs_layout(v: Seq<Seq<char>>, x: Seq<char>)
    ensures
        enc_strs(Seq::empty()) == Seq::<u8>::empty(),
        enc_strs(v.push(x)) == enc_strs(v) + le16(vstd::utf8::encode_utf8(x).len() as u16)
            + vstd::utf8::encode_utf8(x),
{
    assert(v.push(x).drop_last() =~= v);
    assert(enc_strs(v.push(x)) =~= enc_strs(v) + le16(vstd::utf8::encode_utf8(x).len() as u16)
        + vstd::utf8::encode_utf8(x));
}

/// The qids of a list on the wire: nothing for none, and each further qid
/// as its type byte, version in four bytes and path in eight, after those
/// before it.
pub proof fn lemma_qids_layout(v: Seq<Qid>, q: Qid)
    ensures
        enc_qids(Seq::empty()) == Seq::<u8>::empty(),
        enc_qids(v.push(q)) == enc_qids(v) + enc_u8(q.typ.bits) + le32(q.version) + le64(q.path),
{
    assert(v.push(q).drop_last() =~= v);
    assert(enc_qids(v.push(q)) =~= enc_qids(v) + enc_u8(q.typ.bits) + le32(q.version) + le64(q.path));
}

/// The entries of a listing on the wire: nothing for none, and each further
/// entry as its qid (type byte, version, path), offset in eight bytes, type
/// byte and name, after those before it; each adds 24 bytes and its name's
/// length to the listing's size.
pub proof fn lemma_dirents_layout(v: Seq<SpecDirEntry>, e: SpecDirEntry)
    ensures
        enc_dirents(Seq::empty()) == Seq::<u8>::empty(),
        dirents_size(Seq::empty()) == 0,
        enc_dirents(v.push(e)) == enc_dirents(v) + enc_u8(e.qid.typ.bits) + le32(e.qid.version)
            + le64(e.qid.path) + le64(e.offset) + enc_u8(e.typ) + le16(
            vstd::utf8::encode_utf8(e.name).len() as u16,
        ) + vstd::utf8::encode_utf8(e.name),
        dirents_size(v.push(e)) == dirents_size(v) + 24 + vstd::utf8::encode_utf8(e.name).len(),
{
    lemma_enc_dirents_push(v, e);
    lemma_dirents_size_push(v, e);
    assert(enc_direntry(e) =~= enc_u8(e.qid.typ.bits) + le32(e.qid.version) + le64(e.qid.path)
        + le64(e.offset) + enc_u8(e.typ) + le16(vstd::utf8::encode_utf8(e.name).len() as u16)
        + vstd::utf8::encode_utf8(e.name));
    assert(enc_dirents(v.push(e)) =~= enc_dirents(v) + enc_u8(e.qid.typ.bits) + le32(e.qid.version)
        + le64(e.qid.path) + le64(e.offset) + enc_u8(e.typ) + le16(
        vstd::utf8::encode_utf8(e.name).len() as u16,
    ) + vstd::utf8::encode_utf8(e.name));
}

/// Every entry takes at least one byte.
proof fn lemma_parse_direntry_shrinks(s: Seq<u8>)
    ensures
        parse_direntry(s) matches Some((e, r)) ==> r.len() < s.len(),
{
}

/// Writes a listing; refuses one whose entries take more than 0xffffffff
/// bytes, or an entry whose name is longer than 0xffff bytes.
pub fn encode_direntrydata<'a>(buf: &mut Vec<u8>, v: &DirEntryData<'a>) -> (r: Result<(), ProtoError>)
    ensures
        r == err_result(enc_err_direntrydata(v@)),
        r is Ok ==> final(buf)@ == old(buf)@ + enc_direntrydata(v@),
        old(buf)@.is_prefix_of(final(buf)@),
{
    let ghost dv = v@;
    let mut total: u64 = 0;
    let mut i: usize = 0;
    while i < v.data.len()
        invariant
            i <= v.data@.len(),
            dv == v@,
            total == dirents_size(dv.take(i as int)),
            total <= 0xffff_ffff,
        decreases v.data@.len() - i,
    {
        let n: usize = cow_str(&v.data[i].name).as_bytes().len();
        proof {
            lemma_dirents_size_push(dv.take(i as int), dv[i as int]);
            assert(dv.take(i as int).push(dv[i as int]) =~= dv.take(i + 1));
        }
        if total + 24 > 0xffff_ffff || n as u64 > 0xffff_ffff - 24 - total {
            proof {
                lemma_dirents_size_prefix(dv, i + 1);
            }
            return Err(ProtoError::DirEntriesTooLong);
        }
        total = total + 24 + n as u64;
        i = i + 1;
    }
    assert(dv.take(i as int) =~= dv);
    let ghost b0 = buf@;
    encode_u32(buf, total as u32);
    let mut i: usize = 0;
    while i < v.data.len()
        invariant
            i <= v.data@.len(),
            dv == v@,
            total == dirents_size(dv),
            total <= 0xffff_ffff,
            b0 == old(buf)@,
            buf@ == b0 + le32(total as u32) + enc_dirents(dv.take(i as int)),
            forall|j: int| 0 <= j < i ==> str_fits(#[trigger] dv[j].name),
        decreases v.data@.len() - i,
    {
        let res = encode_direntry(buf, &v.data[i]);
        if res.is_err() {
            assert(!str_fits(dv[i as int].name));
            let ghost mid = b0 + le32(total as u32) + enc_dirents(dv.take(i as int));
            assert(b0.is_prefix_of(mid));
            assert(b0.is_prefix_of(buf@));
            return Err(ProtoError::StringTooLong);
        }
        proof {
            lemma_enc_dirents_push(dv.take(i as int), dv[i as int]);
            assert(dv.take(i as int).push(dv[i as int]) =~= dv.take(i + 1));
        }
        i = i + 1;
    }
    assert(dv.take(i as int) =~= dv);
    assert(buf@ =~= b0 + enc_direntrydata(dv));
    Ok(())
}

impl<'b> FcallDecoder<'b> {
    pub fn decode_vec_str(&mut self) -> (r: Result<Vec<Cow<'b, str>>, ProtoError>)
        ensures
            r is Ok <==> parse_vec_str(old(self).buf@) is Some,
            r matches Ok(v) ==> parse_vec_str(old(self).buf@) == Some((strs_view(v@), final(self).buf@)),
            r matches Ok(v) ==> forall|i: int| 0 <= i < v@.len() ==> #[trigger] v@[i] is Borrowed,
            r matches Err(e) ==> e == ProtoError::InvalidMessage,
    {
        let len: u16 = self.decode_u16()?;
        let ghost s1 = self.buf@;
        let mut v: Vec<Cow<'b, str>> = Vec::new();
        let mut i: u16 = 0;
        assert(strs_view(v@) =~= Seq::<Seq<char>>::empty());
        while i < len
            invariant
                i <= len,
                parse_u16(old(self).buf@) == Some((len, s1)),
                parse_strs(s1, i as nat) == Some((strs_view(v@), self.buf@)),
                forall|j: int| 0 <= j < v@.len() ==> #[trigger] v@[j] is Borrowed,
            decreases len - i,
        {
            let x = match self.decode_str() {
                Ok(x) => x,
                Err(e) => {
                    proof {
                        lemma_parse_strs_none(s1, (i + 1) as nat, len as nat);
                    }
                    return Err(e);
                },
            };
            v.push(x);
            i = i + 1;
            assert(strs_view(v@) =~= strs_view(v@).drop_last().push(x@));
            assert(strs_view(v@).drop_last() =~= strs_view(v@.drop_last()));
        }
        Ok(v)
    }

    pub fn decode_vec_qid(&mut self) -> (r: Result<Vec<Qid>, ProtoError>)
        ensures
            r is Ok <==> parse_vec_qid(old(self).buf@) is Some,
            r matches Ok(v) ==> parse_vec_qid(old(self).buf@) == Some((v@, final(self).buf@)),
            r matches Err(e) ==> e == ProtoError::InvalidMessage,
    {
        let len: u16 = self.decode_u16()?;
        let ghost s1 = self.buf@;
        let mut v: Vec<Qid> = Vec::new();
        let mut i: u16 = 0;
        assert(v@ =~= Seq::<Qid>::empty());
        while i < len
            invariant
                i <= len,
                parse_u16(old(self).buf@) == Some((len, s1)),
                parse_qids(s1, i as nat) == Some((v@, self.buf@)),
            decreases len - i,
        {
            let x = match self.decode_qid() {
                Ok(x) => x,
                Err(e) => {
                    proof {
                        lemma_parse_qids_none(s1, (i + 1) as nat, len as nat);
                    }
                    return Err(e);
                },
            };
            v.push(x);
            i = i + 1;
        }
        Ok(v)
    }

    pub fn decode_direntrydata(&mut self) -> (r: Result<DirEntryData<'b>, ProtoError>)
        ensures
            r is Ok <==> parse_direntrydata(old(self).buf@) is Some,
            r matches Ok(v) ==> parse_direntrydata(old(self).buf@) == Some((v@, final(self).buf@)),
            r matches Ok(v) ==> v.is_borrowed(),
            r matches Err(e) ==> e == ProtoError::InvalidMessage,
    {
        let start: usize = self.buf.len();
        let n: u32 = self.decode_u32()?;
        if n as usize > start {
            return Err(ProtoError::InvalidMessage);
        }
        let end: usize = start - n as usize;
        let ghost r0 = self.buf@;
        let mut v: Vec<DirEntry<'b>> = Vec::new();
        assert(dirents_view(v@) =~= Seq::<SpecDirEntry>::empty());
        while self.buf.len() > end
            invariant
                parse_u32(old(self).buf@) == Some((n, r0)),
                end == old(self).buf@.len() - n,
                forall|j: int| 0 <= j < v@.len() ==> #[trigger] v@[j].is_borrowed(),
                parse_dirents(r0, end as nat) == match parse_dirents(self.buf@, end as nat) {
                    None => None,
                    Some((es, r2)) => Some((dirents_view(v@) + es, r2)),
                },
            decreases self.buf@.len(),
        {
            let ghost before = self.buf@;
            proof {
                lemma_parse_direntry_shrinks(before);
            }
            let e = self.decode_direntry()?;
            proof {
                let es = dirents_view(v@);
                assert(dirents_view(v@.push(e)) =~= es.push(e@));
                match parse_dirents(self.buf@, end as nat) {
                    None => {},
                    Some((es2, r2)) => {
                        assert(es.push(e@) + es2 =~= es + (seq![e@] + es2));
                    },
                }
            }
            v.push(e);
        }
        assert(dirents_view(v@) + Seq::<SpecDirEntry>::empty() =~= dirents_view(v@));
        Ok(DirEntryData::with(v))
    }
}

} // verus!
