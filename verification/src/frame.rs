//! Whole messages on the wire: a four-byte size, the message type, the tag
//! and the body.
//!
//! The size counts the whole frame, its own four bytes included. Decoding
//! skips it: the frame is whatever the buffer holds.
use crate::codec::{enc_err_fcall, enc_fcall, encode_fcall, lemma_parse_fcall, parse_fcall, valid_fcall};
use crate::error::{ErrorKind, ProtoError};
use crate::fcall::{
    Fcall, FcallType, Rread, SpecFcall, SpecRread, SpecTaggedFcall, SpecTwrite, TaggedFcall, Twrite,
    lemma_from_u8_code, spec_fcall_type,
};
use crate::wire::{
    FcallDecoder, cow_bytes, enc_u8, encode_u16, encode_u32, encode_u64, encode_u8,
    err_result, le16, le32, le64, lemma_parse_u16, lemma_parse_u32, lemma_parse_u8, parse_u16,
    parse_u32, parse_u8,
};
use vstd::bytes::*;
use vstd::prelude::*;

verus! {

/// The low 32 bits of a length, as a `usize as u32` cast keeps them.
pub open spec fn low32(n: int) -> u32 {
    n as u32
}

/// A message after its size field: type, tag and body.
pub open spec fn enc_tagged(m: SpecTaggedFcall) -> Seq<u8> {
    enc_u8(spec_fcall_type(m.fcall).spec_code()) + le16(m.tag) + enc_fcall(m.fcall)
}

/// A whole frame: its length in four bytes, then the message.
pub open spec fn enc_frame(m: SpecTaggedFcall) -> Seq<u8> {
    le32(low32(4 + enc_tagged(m).len() as int)) + enc_tagged(m)
}

/// Parses a message after its size field; the bytes after the body are
/// left over.
pub open spec fn parse_tagged(s: Seq<u8>) -> Option<(SpecTaggedFcall, Seq<u8>)> {
    match parse_u8(s) { None => None, Some((t, s1)) =>
    match parse_u16(s1) { None => None, Some((tag, s2)) =>
    match FcallType::spec_from_u8(t) { None => None, Some(ft) =>
    match parse_fcall(ft, s2) { None => None, Some((f, s3)) =>
    Some((SpecTaggedFcall { tag, fcall: f }, s3))
    }}}}
}

/// Parses a whole frame: the size field is skipped, bytes after the body
/// are ignored.
pub open spec fn parse_frame(s: Seq<u8>) -> Option<SpecTaggedFcall> {
    match parse_u32(s) {
        None => None,
        Some((_size, s1)) => match parse_tagged(s1) {
            None => None,
            Some((m, _rest)) => Some(m),
        },
    }
}

/// The frame length that the first four bytes announce.
pub open spec fn frame_size(h: Seq<u8>) -> int {
    spec_u32_from_le_bytes(h.take(4)) as int
}

/// Decoding the encoding of a message gives the message back, whatever
/// follows it in the buffer.
pub proof fn lemma_frame_roundtrip(m: SpecTaggedFcall, rest: Seq<u8>)
    requires
        valid_fcall(m.fcall),
    ensures
        parse_frame(enc_frame(m) + rest) == Some(m),
{
    let code = spec_fcall_type(m.fcall).spec_code();
    let body = enc_fcall(m.fcall);
    lemma_parse_fcall(m.fcall, rest);
    lemma_from_u8_code(spec_fcall_type(m.fcall));
    lemma_parse_u16(m.tag, body + rest);
    lemma_parse_u8(code, le16(m.tag) + (body + rest));
    let t = enc_u8(code) + (le16(m.tag) + (body + rest));
    assert(enc_tagged(m) + rest =~= t);
    lemma_parse_u32(low32(4 + enc_tagged(m).len() as int), t);
    assert(enc_frame(m) + rest =~= le32(low32(4 + enc_tagged(m).len() as int)) + t);
}

/// The size field of a frame that fits in 32 bits is the frame's length.
pub proof fn lemma_frame_size(m: SpecTaggedFcall)
    requires
        enc_frame(m).len() <= u32::MAX,
    ensures
        frame_size(enc_frame(m)) == enc_frame(m).len(),
{
    let n = low32(4 + enc_tagged(m).len() as int);
    lemma_parse_u32(n, enc_tagged(m));
}

/// The header of an encoded frame: the type byte at offset 4, the tag at
/// offsets 5 and 6.
pub proof fn lemma_frame_header(m: SpecTaggedFcall)
    ensures
        enc_frame(m).len() >= 7,
        enc_frame(m)[4] == spec_fcall_type(m.fcall).spec_code(),
        spec_u16_from_le_bytes(enc_frame(m).subrange(5, 7)) == m.tag,
{
    let f = enc_frame(m);
    lemma_parse_u32(low32(4 + enc_tagged(m).len() as int), enc_tagged(m));
    lemma_parse_u16(m.tag, enc_fcall(m.fcall));
    assert(f.subrange(5, 7) =~= le16(m.tag));
    lemma_auto_spec_u16_to_from_le_bytes();
}

impl<'b> FcallDecoder<'b> {
    /// Reads a message after its size field.
    pub fn decode(&mut self) -> (r: Result<TaggedFcall<'b>, ProtoError>)
        ensures
            r is Ok <==> parse_tagged(old(self).buf@) is Some,
            r matches Ok(m) ==> parse_tagged(old(self).buf@) == Some((m@, final(self).buf@)),
            r matches Ok(m) ==> m.is_borrowed(),
            r matches Err(e) ==> e == ProtoError::InvalidMessage,
    {
        let msg_type = FcallType::from_u8(self.decode_u8()?);
        let tag: u16 = self.decode_u16()?;
        match msg_type {
            Some(t) => {
                let fcall = self.decode_fcall(t)?;
                Ok(TaggedFcall { tag, fcall })
            },
            None => Err(ProtoError::InvalidMessage),
        }
    }
}

/// Appends a message without its size field: type, tag and body.
pub fn encode_tagged(buf: &mut Vec<u8>, m: &TaggedFcall) -> (r: Result<(), ProtoError>)
    ensures
        r == err_result(enc_err_fcall(m.fcall@)),
        r is Ok ==> final(buf)@ == old(buf)@ + enc_tagged(m@),
        old(buf)@.is_prefix_of(final(buf)@),
{
    let ghost b0 = buf@;
    let typ = m.fcall.fcall_type();
    encode_u8(buf, typ.code());
    encode_u16(buf, m.tag);
    let ghost b1 = buf@;
    assert(b0.is_prefix_of(b1));
    encode_fcall(buf, &m.fcall)?;
    assert(buf@ =~= b0 + enc_tagged(m@));
    Ok(())
}

impl<'a> TaggedFcall<'a> {
    /// Encodes the whole frame into `buf`, replacing what it held.
    pub fn encode_to_buf(&self, buf: &mut Vec<u8>) -> (r: Result<(), ProtoError>)
        ensures
            r == err_result(enc_err_fcall(self.fcall@)),
            r is Ok ==> final(buf)@ == enc_frame(self@),
    {
        buf.clear();
        buf.push(0);
        buf.push(0);
        buf.push(0);
        buf.push(0);
        encode_tagged(buf, self)?;
        let ghost tagged = buf@.skip(4);
        assert(tagged =~= enc_tagged(self@));
        let len: usize = buf.len();
        let sz: u32 = #[verifier::truncate] (len as u32);
        assert(sz == low32(len as int));
        let sz_bytes = u32_to_le_bytes(sz);
        buf[0] = sz_bytes[0];
        buf[1] = sz_bytes[1];
        buf[2] = sz_bytes[2];
        buf[3] = sz_bytes[3];
        assert(buf@ =~= enc_frame(self@));
        Ok(())
    }

    /// Decodes a whole frame held in `buf`.
    pub fn decode(buf: &'a [u8]) -> (r: Result<TaggedFcall<'a>, ProtoError>)
        ensures
            r is Ok <==> parse_frame(buf@) is Some,
            r matches Ok(m) ==> parse_frame(buf@) == Some(m@),
            r matches Ok(m) ==> m.is_borrowed(),
            r matches Err(e) ==> e == ProtoError::InvalidMessage,
    {
        let mut d = FcallDecoder { buf };
        d.decode_u32()?;
        d.decode()
    }
}

/// Checks the frame length that the header in `buf` announces against the
/// capacity of the receive buffer, and on success zero-fills `buf` up to
/// that length so that the rest of the frame can be read into it.
pub fn read_to_buf(buf: &mut Vec<u8>, capacity: usize) -> (r: Result<(), ProtoError>)
    requires
        old(buf)@.len() == 4,
        frame_size(old(buf)@) >= 4 || frame_size(old(buf)@) > capacity,
    ensures
        frame_size(old(buf)@) > capacity ==> r == Err::<(), ProtoError>(ProtoError::SizeLimit)
            && final(buf)@ == old(buf)@,
        frame_size(old(buf)@) <= capacity ==> r is Ok && final(buf)@ == old(buf)@ + Seq::new(
            (frame_size(old(buf)@) - 4) as nat,
            |i: int| 0u8,
        ),
{
    let sz: u32 = u32_from_le_bytes(buf.as_slice());
    assert(buf@.take(4) =~= buf@);
    if sz as usize > capacity {
        return Err(ProtoError::SizeLimit);
    }
    let ghost b0 = buf@;
    let n: usize = sz as usize;
    buf.resize(n, 0u8);
    assert(buf@ =~= b0 + Seq::new((n - 4) as nat, |i: int| 0u8));
    Ok(())
}

/// Whether a read that failed with this kind of error ran out of time: a
/// read with a timeout reports either kind.
pub fn is_timeout(kind: ErrorKind) -> (r: bool)
    ensures
        r == (kind == ErrorKind::WouldBlock || kind == ErrorKind::TimedOut),
{
    match kind {
        ErrorKind::WouldBlock | ErrorKind::TimedOut => true,
        _ => false,
    }
}

/// The header that the zero-copy path sends before an `Rread` payload.
pub open spec fn rread_header(tag: u16, n: int) -> Seq<u8> {
    le32(low32(4 + 1 + 2 + 4 + n)) + enc_u8(117) + le16(tag) + le32(low32(n))
}

/// The header that the zero-copy path sends before a `Twrite` payload.
pub open spec fn twrite_header(tag: u16, fid: u32, offset: u64, n: int) -> Seq<u8> {
    le32(low32(4 + 1 + 2 + 4 + 8 + 4 + n)) + enc_u8(118) + le16(tag) + le32(fid) + le64(offset)
        + le32(low32(n))
}

/// Prepares a message for sending. `Rread` and `Twrite` take the zero-copy
/// path: `buf` receives their header alone and the payload is handed back,
/// to be sent right after it; a frame larger than `capacity` is refused as
/// an invalid message.
/// Any other message is encoded whole into `buf`, and `None` comes back.
pub fn encode_for_write<'x, 'a>(buf: &mut Vec<u8>, capacity: usize, m: &'x TaggedFcall<'a>) -> (r:
    Result<Option<&'x [u8]>, ProtoError>)
    ensures
        match m.fcall@ {
            SpecFcall::Rread(v) => if 4 + 1 + 2 + 4 + v.data.len() > capacity {
                r == Err::<Option<&[u8]>, ProtoError>(ProtoError::InvalidMessage)
                    && final(buf)@ == Seq::<u8>::empty()
            } else {
                r matches Ok(Some(d)) && d@ == v.data && final(buf)@ == rread_header(m.tag, v.data.len() as int)
            },
            SpecFcall::Twrite(v) => if 4 + 1 + 2 + 4 + 8 + 4 + v.data.len() > capacity {
                r == Err::<Option<&[u8]>, ProtoError>(ProtoError::InvalidMessage)
                    && final(buf)@ == Seq::<u8>::empty()
            } else {
                r matches Ok(Some(d)) && d@ == v.data && final(buf)@ == twrite_header(
                    m.tag,
                    v.fid,
                    v.offset,
                    v.data.len() as int,
                )
            },
            _ => match enc_err_fcall(m.fcall@) {
                Some(e) => r == Err::<Option<&[u8]>, ProtoError>(e),
                None => r matches Ok(None) && final(buf)@ == enc_frame(m@),
            },
        },
{
    buf.clear();
    match &m.fcall {
        Fcall::Rread(Rread { data }) => {
            let d: &[u8] = cow_bytes(data);
            if d.len() > capacity || capacity - d.len() < 4 + 1 + 2 + 4 {
                return Err(ProtoError::InvalidMessage);
            }
            let sz: usize = 4 + 1 + 2 + 4 + d.len();
            let ghost b0 = buf@;
            encode_u32(buf, #[verifier::truncate] (sz as u32));
            encode_u8(buf, 117);
            encode_u16(buf, m.tag);
            encode_u32(buf, #[verifier::truncate] (d.len() as u32));
            assert(buf@ =~= rread_header(m.tag, d@.len() as int));
            Ok(Some(d))
        },
        Fcall::Twrite(Twrite { fid, offset, data }) => {
            let d: &[u8] = cow_bytes(data);
            if d.len() > capacity || capacity - d.len() < 4 + 1 + 2 + 4 + 8 + 4 {
                return Err(ProtoError::InvalidMessage);
            }
            let sz: usize = 4 + 1 + 2 + 4 + 8 + 4 + d.len();
            encode_u32(buf, #[verifier::truncate] (sz as u32));
            encode_u8(buf, 118);
            encode_u16(buf, m.tag);
            encode_u32(buf, *fid);
            encode_u64(buf, *offset);
            encode_u32(buf, #[verifier::truncate] (d.len() as u32));
            assert(buf@ =~= twrite_header(m.tag, *fid, *offset, d@.len() as int));
            Ok(Some(d))
        },
        _ => {
            m.encode_to_buf(buf)?;
            Ok(None)
        },
    }
}

/// The zero-copy path sends the same bytes as encoding the whole frame.
pub proof fn lemma_zero_copy_rread(tag: u16, v: SpecRread)
    ensures
        rread_header(tag, v.data.len() as int) + v.data == enc_frame(
            SpecTaggedFcall { tag, fcall: SpecFcall::Rread(v) },
        ),
{
    let m = SpecTaggedFcall { tag, fcall: SpecFcall::Rread(v) };
    reveal(enc_fcall);
    reveal(spec_fcall_type);
    reveal(FcallType::spec_code);
    assert(enc_tagged(m).len() == 1 + 2 + 4 + v.data.len()) by {
        lemma_parse_u16(tag, Seq::empty());
        lemma_parse_u32(low32(v.data.len() as int), Seq::empty());
    }
    assert(rread_header(tag, v.data.len() as int) + v.data =~= enc_frame(m));
}

/// The zero-copy path sends the same bytes as encoding the whole frame.
pub proof fn lemma_zero_copy_twrite(tag: u16, v: SpecTwrite)
    ensures
        twrite_header(tag, v.fid, v.offset, v.data.len() as int) + v.data == enc_frame(
            SpecTaggedFcall { tag, fcall: SpecFcall::Twrite(v) },
        ),
{
    let m = SpecTaggedFcall { tag, fcall: SpecFcall::Twrite(v) };
    reveal(enc_fcall);
    reveal(spec_fcall_type);
    reveal(FcallType::spec_code);
    assert(enc_tagged(m).len() == 1 + 2 + 4 + 8 + 4 + v.data.len()) by {
        lemma_parse_u16(tag, Seq::empty());
        lemma_parse_u32(v.fid, Seq::empty());
        crate::wire::lemma_parse_u64(v.offset, Seq::empty());
        lemma_parse_u32(low32(v.data.len() as int), Seq::empty());
    }
    assert(twrite_header(tag, v.fid, v.offset, v.data.len() as int) + v.data =~= enc_frame(m));
}

} // verus!
