//! The wire form of the protocol's primitive values: little-endian integers,
//! length-prefixed UTF-8 strings and length-prefixed byte buffers.
//!
//! Every primitive has a spec encoder (`le16`, `enc_str`, ...), a spec parser
//! (`parse_u16`, `parse_str`, ...) that returns the value and the bytes left
//! over, a lemma that parsing an encoding gives the value back, and the
//! executable encoder and decoder that follow the spec.
use crate::error::ProtoError;
use std::borrow::Cow;
use vstd::bytes::*;
use vstd::prelude::*;
use vstd::slice::{slice_subrange, slice_to_vec};
use vstd::string::*;
use vstd::utf8::*;

verus! {

broadcast use {encode_utf8_valid_utf8, encode_utf8_decode_utf8, decode_utf8_encode_utf8};

pub open spec fn enc_u8(v: u8) -> Seq<u8> {
    seq![v]
}

pub open spec fn le16(v: u16) -> Seq<u8> {
    spec_u16_to_le_bytes(v)
}

pub open spec fn le32(v: u32) -> Seq<u8> {
    spec_u32_to_le_bytes(v)
}

pub open spec fn le64(v: u64) -> Seq<u8> {
    spec_u64_to_le_bytes(v)
}

/// A string can be sent when its UTF-8 form has at most 0xffff bytes.
pub open spec fn str_fits(s: Seq<char>) -> bool {
    encode_utf8(s).len() <= 0xffff
}

/// A string on the wire: its byte length in two bytes, then its UTF-8 bytes.
pub open spec fn enc_str(s: Seq<char>) -> Seq<u8> {
    le16(encode_utf8(s).len() as u16) + encode_utf8(s)
}

/// A data buffer can be sent when it has at most 0xffffffff bytes.
pub open spec fn data_fits(d: Seq<u8>) -> bool {
    d.len() <= 0xffff_ffff
}

/// A data buffer on the wire: its length in four bytes, then the bytes.
pub open spec fn enc_data(d: Seq<u8>) -> Seq<u8> {
    le32(d.len() as u32) + d
}

pub open spec fn parse_u8(s: Seq<u8>) -> Option<(u8, Seq<u8>)> {
    if s.len() >= 1 {
        Some((s[0], s.skip(1)))
    } else {
        None
    }
}

pub open spec fn parse_u16(s: Seq<u8>) -> Option<(u16, Seq<u8>)> {
    if s.len() >= 2 {
        Some((spec_u16_from_le_bytes(s.take(2)), s.skip(2)))
    } else {
        None
    }
}

pub open spec fn parse_u32(s: Seq<u8>) -> Option<(u32, Seq<u8>)> {
    if s.len() >= 4 {
        Some((spec_u32_from_le_bytes(s.take(4)), s.skip(4)))
    } else {
        None
    }
}

pub open spec fn parse_u64(s: Seq<u8>) -> Option<(u64, Seq<u8>)> {
    if s.len() >= 8 {
        Some((spec_u64_from_le_bytes(s.take(8)), s.skip(8)))
    } else {
        None
    }
}

/// A length-prefixed string; fails when the bytes run out or are not UTF-8.
pub open spec fn parse_str(s: Seq<u8>) -> Option<(Seq<char>, Seq<u8>)> {
    match parse_u16(s) {
        Some((n, r)) => if n <= r.len() && valid_utf8(r.take(n as int)) {
            Some((decode_utf8(r.take(n as int)), r.skip(n as int)))
        } else {
            None
        },
        None => None,
    }
}

/// A length-prefixed data buffer; fails when the bytes run out.
pub open spec fn parse_data(s: Seq<u8>) -> Option<(Seq<u8>, Seq<u8>)> {
    match parse_u32(s) {
        Some((n, r)) => if n <= r.len() {
            Some((r.take(n as int), r.skip(n as int)))
        } else {
            None
        },
        None => None,
    }
}

pub proof fn lemma_parse_u8(v: u8, rest: Seq<u8>)
    ensures
        parse_u8(enc_u8(v) + rest) == Some((v, rest)),
{
    assert((enc_u8(v) + rest).skip(1) =~= rest);
}

pub proof fn lemma_parse_u16(v: u16, rest: Seq<u8>)
    ensures
        le16(v).len() == 2,
        parse_u16(le16(v) + rest) == Some((v, rest)),
{
    lemma_auto_spec_u16_to_from_le_bytes();
    let s = le16(v) + rest;
    assert(s.take(2) =~= le16(v));
    assert(s.skip(2) =~= rest);
}

pub proof fn lemma_parse_u32(v: u32, rest: Seq<u8>)
    ensures
        le32(v).len() == 4,
        parse_u32(le32(v) + rest) == Some((v, rest)),
{
    lemma_auto_spec_u32_to_from_le_bytes();
    let s = le32(v) + rest;
    assert(s.take(4) =~= le32(v));
    assert(s.skip(4) =~= rest);
}

pub proof fn lemma_parse_u64(v: u64, rest: Seq<u8>)
    ensures
        le64(v).len() == 8,
        parse_u64(le64(v) + rest) == Some((v, rest)),
{
    lemma_auto_spec_u64_to_from_le_bytes();
    let s = le64(v) + rest;
    assert(s.take(8) =~= le64(v));
    assert(s.skip(8) =~= rest);
}

pub proof fn lemma_parse_str(x: Seq<char>, rest: Seq<u8>)
    requires
        str_fits(x),
    ensures
        parse_str(enc_str(x) + rest) == Some((x, rest)),
{
    let b = encode_utf8(x);
    let n: u16 = b.len() as u16;
    lemma_parse_u16(n, b + rest);
    assert(enc_str(x) + rest =~= le16(n) + (b + rest));
    assert((b + rest).take(n as int) =~= b);
    assert((b + rest).skip(n as int) =~= rest);
}

pub proof fn lemma_parse_data(d: Seq<u8>, rest: Seq<u8>)
    requires
        data_fits(d),
    ensures
        parse_data(enc_data(d) + rest) == Some((d, rest)),
{
    let n: u32 = d.len() as u32;
    lemma_parse_u32(n, d + rest);
    assert(enc_data(d) + rest =~= le32(n) + (d + rest));
    assert((d + rest).take(n as int) =~= d);
    assert((d + rest).skip(n as int) =~= rest);
}

/// Appends the bytes of `src` to `buf`.
pub fn append_bytes(buf: &mut Vec<u8>, src: &[u8])
    ensures
        final(buf)@ == old(buf)@ + src@,
{
    let ghost b0 = buf@;
    let mut i: usize = 0;
    while i < src.len()
        invariant
            i <= src@.len(),
            buf@ == b0 + src@.take(i as int),
        decreases src@.len() - i,
    {
        buf.push(src[i]);
        i = i + 1;
        assert(buf@ =~= b0 + src@.take(i as int));
    }
    assert(src@.take(i as int) =~= src@);
}

pub fn encode_u8(buf: &mut Vec<u8>, v: u8)
    ensures
        final(buf)@ == old(buf)@ + enc_u8(v),
{
    buf.push(v);
    assert(final(buf)@ =~= old(buf)@ + enc_u8(v));
}

pub fn encode_u16(buf: &mut Vec<u8>, v: u16)
    ensures
        final(buf)@ == old(buf)@ + le16(v),
{
    let b = u16_to_le_bytes(v);
    append_bytes(buf, b.as_slice());
}

pub fn encode_u32(buf: &mut Vec<u8>, v: u32)
    ensures
        final(buf)@ == old(buf)@ + le32(v),
{
    let b = u32_to_le_bytes(v);
    append_bytes(buf, b.as_slice());
}

pub fn encode_u64(buf: &mut Vec<u8>, v: u64)
    ensures
        final(buf)@ == old(buf)@ + le64(v),
{
    let b = u64_to_le_bytes(v);
    append_bytes(buf, b.as_slice());
}

/// Writes a string with its two-byte length; refuses one of more than 0xffff
/// bytes.
pub fn encode_str(buf: &mut Vec<u8>, v: &str) -> (r: Result<(), ProtoError>)
    ensures
        r is Ok <==> str_fits(v@),
        r is Ok ==> final(buf)@ == old(buf)@ + enc_str(v@),
        r matches Err(e) ==> e == ProtoError::StringTooLong && final(buf)@ == old(buf)@,
        old(buf)@.is_prefix_of(final(buf)@),
{
    let bytes = v.as_bytes();
    if bytes.len() > 0xffff {
        return Err(ProtoError::StringTooLong);
    }
    let ghost b1 = buf@;
    encode_u16(buf, bytes.len() as u16);
    append_bytes(buf, bytes);
    assert(buf@ =~= b1 + enc_str(v@));
    Ok(())
}

/// Writes a data buffer with its four-byte length; refuses one of more than
/// 0xffffffff bytes.
pub fn encode_data_buf(buf: &mut Vec<u8>, v: &[u8]) -> (r: Result<(), ProtoError>)
    ensures
        r is Ok <==> data_fits(v@),
        r is Ok ==> final(buf)@ == old(buf)@ + enc_data(v@),
        r matches Err(e) ==> e == ProtoError::DataTooLong && final(buf)@ == old(buf)@,
        old(buf)@.is_prefix_of(final(buf)@),
{
    if v.len() > 0xffff_ffff {
        return Err(ProtoError::DataTooLong);
    }
    let ghost b1 = buf@;
    encode_u32(buf, v.len() as u32);
    append_bytes(buf, v);
    assert(buf@ =~= b1 + enc_data(v@));
    Ok(())
}

/// The text a string `Cow` holds.
pub fn cow_str<'x>(c: &'x Cow<'_, str>) -> (r: &'x str)
    ensures
        r@ == c@,
{
    match c {
        Cow::Borrowed(b) => b,
        Cow::Owned(o) => o.as_str(),
    }
}

/// The bytes a byte `Cow` holds.
pub fn cow_bytes<'x>(c: &'x Cow<'_, [u8]>) -> (r: &'x [u8])
    ensures
        r@ == c@,
{
    match c {
        Cow::Borrowed(b) => b,
        Cow::Owned(o) => o.as_slice(),
    }
}

/// An owned copy of a string `Cow`.
pub fn cow_str_owned<'x>(c: &Cow<'_, str>) -> (r: Cow<'x, str>)
    ensures
        r@ == c@,
        r is Owned,
{
    let s: &str = cow_str(c);
    Cow::Owned(s.to_owned())
}

/// An owned copy of a byte `Cow`.
pub fn cow_bytes_owned<'x>(c: &Cow<'_, [u8]>) -> (r: Cow<'x, [u8]>)
    ensures
        r@ == c@,
        r is Owned,
{
    let b: &[u8] = cow_bytes(c);
    Cow::Owned(slice_to_vec(b))
}

/// The first of two possible errors.
pub open spec fn or_err(a: Option<ProtoError>, b: Option<ProtoError>) -> Option<ProtoError> {
    if a is Some {
        a
    } else {
        b
    }
}

/// The error that encoding a string gives, if any.
pub open spec fn str_err(s: Seq<char>) -> Option<ProtoError> {
    if str_fits(s) {
        None
    } else {
        Some(ProtoError::StringTooLong)
    }
}

/// The error that encoding a data buffer gives, if any.
pub open spec fn data_err(d: Seq<u8>) -> Option<ProtoError> {
    if data_fits(d) {
        None
    } else {
        Some(ProtoError::DataTooLong)
    }
}

/// The result of an encoder that fails with the given error, if any.
pub open spec fn err_result(e: Option<ProtoError>) -> Result<(), ProtoError> {
    match e {
        Some(e) => Err(e),
        None => Ok(()),
    }
}

/// `Clone::clone` on a `Cow`, which the derived `Clone` of the message types
/// calls; nothing is claimed of the copy.
pub assume_specification<'a, B: ?Sized + ToOwned>[ <Cow<'a, B> as Clone>::clone ](c: &Cow<'a, B>) -> (r: Cow<'a, B>);

/// Wraps `std::str::from_utf8`, which accepts exactly the slices that are
/// valid UTF-8 and then returns the string whose bytes are the slice.
#[verifier::external_body]
fn str_from_utf8<'x>(b: &'x [u8]) -> (r: Option<&'x str>)
    ensures
        r is Some <==> valid_utf8(b@),
        r matches Some(s) ==> s.spec_bytes() == b@,
{
    std::str::from_utf8(b).ok()
}

/// Whether two strings are equal, compared byte by byte.
pub fn str_eq(a: &str, b: &str) -> (r: bool)
    ensures
        r == (a@ == b@),
{
    let x: &[u8] = a.as_bytes();
    let y: &[u8] = b.as_bytes();
    if x.len() != y.len() {
        return false;
    }
    let mut i: usize = 0;
    while i < x.len()
        invariant
            i <= x@.len(),
            x@.len() == y@.len(),
            x@ == encode_utf8(a@),
            y@ == encode_utf8(b@),
            forall|j: int| 0 <= j < i ==> x@[j] == y@[j],
        decreases x@.len() - i,
    {
        if x[i] != y[i] {
            return false;
        }
        i = i + 1;
    }
    assert(x@ =~= y@);
    assert(decode_utf8(encode_utf8(a@)) == a@);
    assert(decode_utf8(encode_utf8(b@)) == b@);
    true
}

/// Reads values off the front of a byte slice.
pub struct FcallDecoder<'b> {
    pub buf: &'b [u8],
}

impl<'b> FcallDecoder<'b> {
    pub fn decode_u8(&mut self) -> (r: Result<u8, ProtoError>)
        ensures
            r is Ok <==> parse_u8(old(self).buf@) is Some,
            r matches Ok(v) ==> parse_u8(old(self).buf@) == Some((v, final(self).buf@)),
            r matches Err(e) ==> e == ProtoError::InvalidMessage,
    {
        if self.buf.len() >= 1 {
            let v: u8 = self.buf[0];
            self.buf = slice_subrange(self.buf, 1, self.buf.len());
            Ok(v)
        } else {
            Err(ProtoError::InvalidMessage)
        }
    }

    pub fn decode_u16(&mut self) -> (r: Result<u16, ProtoError>)
        ensures
            r is Ok <==> parse_u16(old(self).buf@) is Some,
            r matches Ok(v) ==> parse_u16(old(self).buf@) == Some((v, final(self).buf@)),
            r matches Err(e) ==> e == ProtoError::InvalidMessage,
    {
        if self.buf.len() >= 2 {
            let v: u16 = u16_from_le_bytes(slice_subrange(self.buf, 0, 2));
            self.buf = slice_subrange(self.buf, 2, self.buf.len());
            Ok(v)
        } else {
            Err(ProtoError::InvalidMessage)
        }
    }

    pub fn decode_u32(&mut self) -> (r: Result<u32, ProtoError>)
        ensures
            r is Ok <==> parse_u32(old(self).buf@) is Some,
            r matches Ok(v) ==> parse_u32(old(self).buf@) == Some((v, final(self).buf@)),
            r matches Err(e) ==> e == ProtoError::InvalidMessage,
    {
        if self.buf.len() >= 4 {
            let v: u32 = u32_from_le_bytes(slice_subrange(self.buf, 0, 4));
            self.buf = slice_subrange(self.buf, 4, self.buf.len());
            Ok(v)
        } else {
            Err(ProtoError::InvalidMessage)
        }
    }

    pub fn decode_u64(&mut self) -> (r: Result<u64, ProtoError>)
        ensures
            r is Ok <==> parse_u64(old(self).buf@) is Some,
            r matches Ok(v) ==> parse_u64(old(self).buf@) == Some((v, final(self).buf@)),
            r matches Err(e) ==> e == ProtoError::InvalidMessage,
    {
        if self.buf.len() >= 8 {
            let v: u64 = u64_from_le_bytes(slice_subrange(self.buf, 0, 8));
            self.buf = slice_subrange(self.buf, 8, self.buf.len());
            Ok(v)
        } else {
            Err(ProtoError::InvalidMessage)
        }
    }

    pub fn decode_str(&mut self) -> (r: Result<Cow<'b, str>, ProtoError>)
        ensures
            r is Ok <==> parse_str(old(self).buf@) is Some,
            r matches Ok(v) ==> parse_str(old(self).buf@) == Some((v@, final(self).buf@)),
            r matches Ok(v) ==> v is Borrowed,
            r matches Err(e) ==> e == ProtoError::InvalidMessage,
    {
        let n: usize = self.decode_u16()? as usize;
        if self.buf.len() >= n {
            match str_from_utf8(slice_subrange(self.buf, 0, n)) {
                Some(s) => {
                    self.buf = slice_subrange(self.buf, n, self.buf.len());
                    Ok(Cow::Borrowed(s))
                },
                None => Err(ProtoError::InvalidMessage),
            }
        } else {
            Err(ProtoError::InvalidMessage)
        }
    }

    pub fn decode_data_buf(&mut self) -> (r: Result<Cow<'b, [u8]>, ProtoError>)
        ensures
            r is Ok <==> parse_data(old(self).buf@) is Some,
            r matches Ok(v) ==> parse_data(old(self).buf@) == Some((v@, final(self).buf@)),
            r matches Ok(v) ==> v is Borrowed,
            r matches Err(e) ==> e == ProtoError::InvalidMessage,
    {
        let n: usize = self.decode_u32()? as usize;
        if self.buf.len() >= n {
            let v = slice_subrange(self.buf, 0, n);
            self.buf = slice_subrange(self.buf, n, self.buf.len());
            Ok(Cow::Borrowed(v))
        } else {
            Err(ProtoError::InvalidMessage)
        }
    }
}

} // verus!
