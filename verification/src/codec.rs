//! The wire form of every message body: a spec encoder and parser for each
//! record and message, the lemma that parsing an encoding gives the value
//! back, and the executable encoder and decoder that follow them.
use crate::error::ProtoError;
use crate::fcall::{DirEntry, DirEntryData, Fcall, FcallType, Flock, Getlock, Qid, Rattach, Rauth, Rclunk, Rflush, Rfsync, Rgetattr, Rgetlock, Rlcreate, Rlerror, Rlink, Rlock, Rlopen, Rmkdir, Rmknod, Rread, Rreaddir, Rreadlink, Rremove, Rrename, Rrenameat, Rsetattr, Rstatfs, Rsymlink, Runlinkat, Rversion, Rwalk, Rwrite, Rxattrcreate, Rxattrwalk, SetAttr, SpecDirEntry, SpecFcall, SpecFlock, SpecGetlock, SpecRgetlock, SpecRread, SpecRreaddir, SpecRreadlink, SpecRversion, SpecRwalk, SpecTattach, SpecTauth, SpecTgetlock, SpecTlcreate, SpecTlink, SpecTlock, SpecTmkdir, SpecTmknod, SpecTrename, SpecTrenameat, SpecTsymlink, SpecTunlinkat, SpecTversion, SpecTwalk, SpecTwrite, SpecTxattrcreate, SpecTxattrwalk, Stat, Statfs, Tattach, Tauth, Tclunk, Tflush, Tfsync, Tgetattr, Tgetlock, Time, Tlcreate, Tlink, Tlock, Tlopen, Tmkdir, Tmknod, Tread, Treaddir, Treadlink, Tremove, Trename, Trenameat, Tsetattr, Tstatfs, Tsymlink, Tunlinkat, Tversion, Twalk, Twrite, Txattrcreate, Txattrwalk, spec_fcall_type};
use crate::flags::{GetattrMask, LOpenFlags, LockFlag, LockStatus, LockType, QidType, SetattrMask};
use crate::lists::{
    enc_direntrydata, enc_err_direntrydata, enc_err_vec_qid, enc_err_vec_str, enc_vec_qid,
    enc_vec_str, encode_direntrydata, encode_vec_qid, encode_vec_str, lemma_parse_direntrydata,
    lemma_parse_vec_qid, lemma_parse_vec_str, parse_direntrydata, parse_vec_qid, parse_vec_str,
    valid_direntrydata, valid_vec_qid, valid_vec_str,
};
use crate::wire::{
    FcallDecoder, cow_bytes, cow_str, data_err, data_fits, enc_data, enc_str, enc_u8, encode_data_buf,
    encode_str, encode_u16, encode_u32, encode_u64, encode_u8, err_result, le16, le32, le64,
    lemma_parse_data, lemma_parse_str, lemma_parse_u16, lemma_parse_u32, lemma_parse_u64,
    lemma_parse_u8, or_err, parse_data, parse_str, parse_u16, parse_u32, parse_u64, parse_u8,
    str_err, str_fits,
};
use std::borrow::Cow;
use vstd::prelude::*;

verus! {

/// A `QidType` on the wire: its bits.
pub open spec fn enc_qidtype(v: QidType) -> Seq<u8> {
    enc_u8(v.bits)
}

/// Bits outside the named flags are dropped.
pub open spec fn parse_qidtype(s: Seq<u8>) -> Option<(QidType, Seq<u8>)> {
    match parse_u8(s) {
        Some((b, r)) => Some((QidType { bits: b & QidType::mask() }, r)),
        None => None,
    }
}

pub proof fn lemma_parse_qidtype(v: QidType, rest: Seq<u8>)
    requires
        v.wf(),
    ensures
        parse_qidtype(enc_qidtype(v) + rest) == Some((v, rest)),
{
    lemma_parse_u8(v.bits, rest);
}

pub fn encode_qidtype(buf: &mut Vec<u8>, v: &QidType)
    ensures
        final(buf)@ == old(buf)@ + enc_qidtype(*v),
{
    encode_u8(buf, v.bits);
}

/// A `LOpenFlags` on the wire: its bits.
pub open spec fn enc_lopenflags(v: LOpenFlags) -> Seq<u8> {
    le32(v.bits)
}

/// Bits outside the named flags are dropped.
pub open spec fn parse_lopenflags(s: Seq<u8>) -> Option<(LOpenFlags, Seq<u8>)> {
    match parse_u32(s) {
        Some((b, r)) => Some((LOpenFlags { bits: b & LOpenFlags::mask() }, r)),
        None => None,
    }
}

pub proof fn lemma_parse_lopenflags(v: LOpenFlags, rest: Seq<u8>)
    requires
        v.wf(),
    ensures
        parse_lopenflags(enc_lopenflags(v) + rest) == Some((v, rest)),
{
    lemma_parse_u32(v.bits, rest);
}

pub fn encode_lopenflags(buf: &mut Vec<u8>, v: &LOpenFlags)
    ensures
        final(buf)@ == old(buf)@ + enc_lopenflags(*v),
{
    encode_u32(buf, v.bits);
}

/// A `LockType` on the wire: its bits.
pub open spec fn enc_locktype(v: LockType) -> Seq<u8> {
    enc_u8(v.bits)
}

/// Bits outside the named flags are dropped.
pub open spec fn parse_locktype(s: Seq<u8>) -> Option<(LockType, Seq<u8>)> {
    match parse_u8(s) {
        Some((b, r)) => Some((LockType { bits: b & LockType::mask() }, r)),
        None => None,
    }
}

pub proof fn lemma_parse_locktype(v: LockType, rest: Seq<u8>)
    requires
        v.wf(),
    ensures
        parse_locktype(enc_locktype(v) + rest) == Some((v, rest)),
{
    lemma_parse_u8(v.bits, rest);
}

pub fn encode_locktype(buf: &mut Vec<u8>, v: &LockType)
    ensures
        final(buf)@ == old(buf)@ + enc_locktype(*v),
{
    encode_u8(buf, v.bits);
}

/// A `LockFlag` on the wire: its bits.
pub open spec fn enc_lockflag(v: LockFlag) -> Seq<u8> {
    le32(v.bits)
}

/// Bits outside the named flags are dropped.
pub open spec fn parse_lockflag(s: Seq<u8>) -> Option<(LockFlag, Seq<u8>)> {
    match parse_u32(s) {
        Some((b, r)) => Some((LockFlag { bits: b & LockFlag::mask() }, r)),
        None => None,
    }
}

pub proof fn lemma_parse_lockflag(v: LockFlag, rest: Seq<u8>)
    requires
        v.wf(),
    ensures
        parse_lockflag(enc_lockflag(v) + rest) == Some((v, rest)),
{
    lemma_parse_u32(v.bits, rest);
}

pub fn encode_lockflag(buf: &mut Vec<u8>, v: &LockFlag)
    ensures
        final(buf)@ == old(buf)@ + enc_lockflag(*v),
{
    encode_u32(buf, v.bits);
}

/// A `LockStatus` on the wire: its bits.
pub open spec fn enc_lockstatus(v: LockStatus) -> Seq<u8> {
    enc_u8(v.bits)
}

/// Bits outside the named flags are dropped.
pub open spec fn parse_lockstatus(s: Seq<u8>) -> Option<(LockStatus, Seq<u8>)> {
    match parse_u8(s) {
        Some((b, r)) => Some((LockStatus { bits: b & LockStatus::mask() }, r)),
        None => None,
    }
}

pub proof fn lemma_parse_lockstatus(v: LockStatus, rest: Seq<u8>)
    requires
        v.wf(),
    ensures
        parse_lockstatus(enc_lockstatus(v) + rest) == Some((v, rest)),
{
    lemma_parse_u8(v.bits, rest);
}

pub fn encode_lockstatus(buf: &mut Vec<u8>, v: &LockStatus)
    ensures
        final(buf)@ == old(buf)@ + enc_lockstatus(*v),
{
    encode_u8(buf, v.bits);
}

/// A `GetattrMask` on the wire: its bits.
pub open spec fn enc_getattrmask(v: GetattrMask) -> Seq<u8> {
    le64(v.bits)
}

/// Bits outside the named flags are dropped.
pub open spec fn parse_getattrmask(s: Seq<u8>) -> Option<(GetattrMask, Seq<u8>)> {
    match parse_u64(s) {
        Some((b, r)) => Some((GetattrMask { bits: b & GetattrMask::mask() }, r)),
        None => None,
    }
}

pub proof fn lemma_parse_getattrmask(v: GetattrMask, rest: Seq<u8>)
    requires
        v.wf(),
    ensures
        parse_getattrmask(enc_getattrmask(v) + rest) == Some((v, rest)),
{
    lemma_parse_u64(v.bits, rest);
}

pub fn encode_getattrmask(buf: &mut Vec<u8>, v: &GetattrMask)
    ensures
        final(buf)@ == old(buf)@ + enc_getattrmask(*v),
{
    encode_u64(buf, v.bits);
}

/// A `SetattrMask` on the wire: its bits.
pub open spec fn enc_setattrmask(v: SetattrMask) -> Seq<u8> {
    le32(v.bits)
}

/// Bits outside the named flags are dropped.
pub open spec fn parse_setattrmask(s: Seq<u8>) -> Option<(SetattrMask, Seq<u8>)> {
    match parse_u32(s) {
        Some((b, r)) => Some((SetattrMask { bits: b & SetattrMask::mask() }, r)),
        None => None,
    }
}

pub proof fn lemma_parse_setattrmask(v: SetattrMask, rest: Seq<u8>)
    requires
        v.wf(),
    ensures
        parse_setattrmask(enc_setattrmask(v) + rest) == Some((v, rest)),
{
    lemma_parse_u32(v.bits, rest);
}

pub fn encode_setattrmask(buf: &mut Vec<u8>, v: &SetattrMask)
    ensures
        final(buf)@ == old(buf)@ + enc_setattrmask(*v),
{
    encode_u32(buf, v.bits);
}

/// A `Qid` on the wire: its fields in order.
pub open spec fn enc_qid(v: Qid) -> Seq<u8> {
    enc_qidtype(v.typ) + le32(v.version) + le64(v.path)
}

/// The values whose encoding parses back to them.
pub open spec fn valid_qid(v: Qid) -> bool {
    v.typ.wf()
}

/// Reads a `Qid` off the front of the bytes.
pub open spec fn parse_qid(s0: Seq<u8>) -> Option<(Qid, Seq<u8>)> {
    match parse_qidtype(s0) { None => None, Some((x_typ, s1)) =>
    match parse_u32(s1) { None => None, Some((x_version, s2)) =>
    match parse_u64(s2) { None => None, Some((x_path, s3)) =>
    Some((Qid { typ: x_typ, version: x_version, path: x_path }, s3))
    }}}
}

/// Reading the encoding of a valid `Qid` gives it back.
pub proof fn lemma_parse_qid(v: Qid, rest: Seq<u8>)
    requires
        valid_qid(v),
    ensures
        parse_qid(enc_qid(v) + rest) == Some((v, rest)),
{
    let r2 = rest;
    let r1 = le64(v.path) + r2;
    let r0 = le32(v.version) + r1;
    lemma_parse_qidtype(v.typ, r0);
    lemma_parse_u32(v.version, r1);
    lemma_parse_u64(v.path, r2);
    assert(enc_qid(v) + rest =~= enc_qidtype(v.typ) + r0);
}

/// Appends a `Qid` to `buf`.
pub fn encode_qid(buf: &mut Vec<u8>, v: &Qid)
    ensures
        final(buf)@ == old(buf)@ + enc_qid(v@),
{
    let ghost b0 = buf@;
    encode_qidtype(buf, &v.typ);
    encode_u32(buf, v.version);
    encode_u64(buf, v.path);
    assert(buf@ =~= b0 + enc_qid(v@));
}

/// A `Statfs` on the wire: its fields in order.
pub open spec fn enc_statfs(v: Statfs) -> Seq<u8> {
    le32(v.typ) + le32(v.bsize) + le64(v.blocks) + le64(v.bfree) + le64(v.bavail) + le64(v.files) + le64(v.ffree) + le64(v.fsid) + le32(v.namelen)
}

/// The values whose encoding parses back to them.
pub open spec fn valid_statfs(v: Statfs) -> bool {
    true
}

/// Reads a `Statfs` off the front of the bytes.
pub open spec fn parse_statfs(s0: Seq<u8>) -> Option<(Statfs, Seq<u8>)> {
    match parse_u32(s0) { None => None, Some((x_typ, s1)) =>
    match parse_u32(s1) { None => None, Some((x_bsize, s2)) =>
    match parse_u64(s2) { None => None, Some((x_blocks, s3)) =>
    match parse_u64(s3) { None => None, Some((x_bfree, s4)) =>
    match parse_u64(s4) { None => None, Some((x_bavail, s5)) =>
    match parse_u64(s5) { None => None, Some((x_files, s6)) =>
    match parse_u64(s6) { None => None, Some((x_ffree, s7)) =>
    match parse_u64(s7) { None => None, Some((x_fsid, s8)) =>
    match parse_u32(s8) { None => None, Some((x_namelen, s9)) =>
    Some((Statfs { typ: x_typ, bsize: x_bsize, blocks: x_blocks, bfree: x_bfree, bavail: x_bavail, files: x_files, ffree: x_ffree, fsid: x_fsid, namelen: x_namelen }, s9))
    }}}}}}}}}
}

/// Reading the encoding of a valid `Statfs` gives it back.
pub proof fn lemma_parse_statfs(v: Statfs, rest: Seq<u8>)
    requires
        valid_statfs(v),
    ensures
        parse_statfs(enc_statfs(v) + rest) == Some((v, rest)),
{
    let r8 = rest;
    let r7 = le32(v.namelen) + r8;
    let r6 = le64(v.fsid) + r7;
    let r5 = le64(v.ffree) + r6;
    let r4 = le64(v.files) + r5;
    let r3 = le64(v.bavail) + r4;
    let r2 = le64(v.bfree) + r3;
    let r1 = le64(v.blocks) + r2;
    let r0 = le32(v.bsize) + r1;
    lemma_parse_u32(v.typ, r0);
    lemma_parse_u32(v.bsize, r1);
    lemma_parse_u64(v.blocks, r2);
    lemma_parse_u64(v.bfree, r3);
    lemma_parse_u64(v.bavail, r4);
    lemma_parse_u64(v.files, r5);
    lemma_parse_u64(v.ffree, r6);
    lemma_parse_u64(v.fsid, r7);
    lemma_parse_u32(v.namelen, r8);
    let p0 = le32(v.typ);
    assert(p0 + le32(v.bsize) + r1 =~= p0 + r0);
    let p1 = p0 + le32(v.bsize);
    assert(p1 + le64(v.blocks) + r2 =~= p1 + r1);
    let p2 = p1 + le64(v.blocks);
    assert(p2 + le64(v.bfree) + r3 =~= p2 + r2);
    let p3 = p2 + le64(v.bfree);
    assert(p3 + le64(v.bavail) + r4 =~= p3 + r3);
    let p4 = p3 + le64(v.bavail);
    assert(p4 + le64(v.files) + r5 =~= p4 + r4);
    let p5 = p4 + le64(v.files);
    assert(p5 + le64(v.ffree) + r6 =~= p5 + r5);
    let p6 = p5 + le64(v.ffree);
    assert(p6 + le64(v.fsid) + r7 =~= p6 + r6);
    let p7 = p6 + le64(v.fsid);
    assert(p7 + le32(v.namelen) + r8 =~= p7 + r7);
}

/// Appends a `Statfs` to `buf`.
pub fn encode_statfs(buf: &mut Vec<u8>, v: &Statfs)
    ensures
        final(buf)@ == old(buf)@ + enc_statfs(v@),
{
    let ghost b0 = buf@;
    encode_u32(buf, v.typ);
    encode_u32(buf, v.bsize);
    encode_u64(buf, v.blocks);
    encode_u64(buf, v.bfree);
    encode_u64(buf, v.bavail);
    encode_u64(buf, v.files);
    encode_u64(buf, v.ffree);
    encode_u64(buf, v.fsid);
    encode_u32(buf, v.namelen);
    assert(buf@ =~= b0 + enc_statfs(v@));
}

/// A `Time` on the wire: its fields in order.
pub open spec fn enc_time(v: Time) -> Seq<u8> {
    le64(v.sec) + le64(v.nsec)
}

/// The values whose encoding parses back to them.
pub open spec fn valid_time(v: Time) -> bool {
    true
}

/// Reads a `Time` off the front of the bytes.
pub open spec fn parse_time(s0: Seq<u8>) -> Option<(Time, Seq<u8>)> {
    match parse_u64(s0) { None => None, Some((x_sec, s1)) =>
    match parse_u64(s1) { None => None, Some((x_nsec, s2)) =>
    Some((Time { sec: x_sec, nsec: x_nsec }, s2))
    }}
}

/// Reading the encoding of a valid `Time` gives it back.
pub proof fn lemma_parse_time(v: Time, rest: Seq<u8>)
    requires
        valid_time(v),
    ensures
        parse_time(enc_time(v) + rest) == Some((v, rest)),
{
    let r1 = rest;
    let r0 = le64(v.nsec) + r1;
    lemma_parse_u64(v.sec, r0);
    lemma_parse_u64(v.nsec, r1);
    assert(enc_time(v) + rest =~= le64(v.sec) + r0);
}

/// Appends a `Time` to `buf`.
pub fn encode_time(buf: &mut Vec<u8>, v: &Time)
    ensures
        final(buf)@ == old(buf)@ + enc_time(v@),
{
    let ghost b0 = buf@;
    encode_u64(buf, v.sec);
    encode_u64(buf, v.nsec);
    assert(buf@ =~= b0 + enc_time(v@));
}

/// A `Stat` on the wire: its fields in order.
pub open spec fn enc_stat(v: Stat) -> Seq<u8> {
    le32(v.mode) + le32(v.uid) + le32(v.gid) + le64(v.nlink) + le64(v.rdev) + le64(v.size) + le64(v.blksize) + le64(v.blocks) + enc_time(v.atime) + enc_time(v.mtime) + enc_time(v.ctime) + enc_time(v.btime) + le64(v.gen) + le64(v.data_version)
}

/// The values whose encoding parses back to them.
pub open spec fn valid_stat(v: Stat) -> bool {
    valid_time(v.atime)
    && valid_time(v.mtime)
    && valid_time(v.ctime)
    && valid_time(v.btime)
}

/// Reads a `Stat` off the front of the bytes.
pub open spec fn parse_stat(s0: Seq<u8>) -> Option<(Stat, Seq<u8>)> {
    match parse_u32(s0) { None => None, Some((x_mode, s1)) =>
    match parse_u32(s1) { None => None, Some((x_uid, s2)) =>
    match parse_u32(s2) { None => None, Some((x_gid, s3)) =>
    match parse_u64(s3) { None => None, Some((x_nlink, s4)) =>
    match parse_u64(s4) { None => None, Some((x_rdev, s5)) =>
    match parse_u64(s5) { None => None, Some((x_size, s6)) =>
    match parse_u64(s6) { None => None, Some((x_blksize, s7)) =>
    match parse_u64(s7) { None => None, Some((x_blocks, s8)) =>
    match parse_time(s8) { None => None, Some((x_atime, s9)) =>
    match parse_time(s9) { None => None, Some((x_mtime, s10)) =>
    match parse_time(s10) { None => None, Some((x_ctime, s11)) =>
    match parse_time(s11) { None => None, Some((x_btime, s12)) =>
    match parse_u64(s12) { None => None, Some((x_gen, s13)) =>
    match parse_u64(s13) { None => None, Some((x_data_version, s14)) =>
    Some((Stat { mode: x_mode, uid: x_uid, gid: x_gid, nlink: x_nlink, rdev: x_rdev, size: x_size, blksize: x_blksize, blocks: x_blocks, atime: x_atime, mtime: x_mtime, ctime: x_ctime, btime: x_btime, gen: x_gen, data_version: x_data_version }, s14))
    }}}}}}}}}}}}}}
}

/// Reading the encoding of a valid `Stat` gives it back.
pub proof fn lemma_parse_stat(v: Stat, rest: Seq<u8>)
    requires
        valid_stat(v),
    ensures
        parse_stat(enc_stat(v) + rest) == Some((v, rest)),
{
    let r13 = rest;
    let r12 = le64(v.data_version) + r13;
    let r11 = le64(v.gen) + r12;
    let r10 = enc_time(v.btime) + r11;
    let r9 = enc_time(v.ctime) + r10;
    let r8 = enc_time(v.mtime) + r9;
    let r7 = enc_time(v.atime) + r8;
    let r6 = le64(v.blocks) + r7;
    let r5 = le64(v.blksize) + r6;
    let r4 = le64(v.size) + r5;
    let r3 = le64(v.rdev) + r4;
    let r2 = le64(v.nlink) + r3;
    let r1 = le32(v.gid) + r2;
    let r0 = le32(v.uid) + r1;
    lemma_parse_u32(v.mode, r0);
    lemma_parse_u32(v.uid, r1);
    lemma_parse_u32(v.gid, r2);
    lemma_parse_u64(v.nlink, r3);
    lemma_parse_u64(v.rdev, r4);
    lemma_parse_u64(v.size, r5);
    lemma_parse_u64(v.blksize, r6);
    lemma_parse_u64(v.blocks, r7);
    lemma_parse_time(v.atime, r8);
    lemma_parse_time(v.mtime, r9);
    lemma_parse_time(v.ctime, r10);
    lemma_parse_time(v.btime, r11);
    lemma_parse_u64(v.gen, r12);
    lemma_parse_u64(v.data_version, r13);
    let p0 = le32(v.mode);
    assert(p0 + le32(v.uid) + r1 =~= p0 + r0);
    let p1 = p0 + le32(v.uid);
    assert(p1 + le32(v.gid) + r2 =~= p1 + r1);
    let p2 = p1 + le32(v.gid);
    assert(p2 + le64(v.nlink) + r3 =~= p2 + r2);
    let p3 = p2 + le64(v.nlink);
    assert(p3 + le64(v.rdev) + r4 =~= p3 + r3);
    let p4 = p3 + le64(v.rdev);
    assert(p4 + le64(v.size) + r5 =~= p4 + r4);
    let p5 = p4 + le64(v.size);
    assert(p5 + le64(v.blksize) + r6 =~= p5 + r5);
    let p6 = p5 + le64(v.blksize);
    assert(p6 + le64(v.blocks) + r7 =~= p6 + r6);
    let p7 = p6 + le64(v.blocks);
    assert(p7 + enc_time(v.atime) + r8 =~= p7 + r7);
    let p8 = p7 + enc_time(v.atime);
    assert(p8 + enc_time(v.mtime) + r9 =~= p8 + r8);
    let p9 = p8 + enc_time(v.mtime);
    assert(p9 + enc_time(v.ctime) + r10 =~= p9 + r9);
    let p10 = p9 + enc_time(v.ctime);
    assert(p10 + enc_time(v.btime) + r11 =~= p10 + r10);
    let p11 = p10 + enc_time(v.btime);
    assert(p11 + le64(v.gen) + r12 =~= p11 + r11);
    let p12 = p11 + le64(v.gen);
    assert(p12 + le64(v.data_version) + r13 =~= p12 + r12);
}

/// Appends a `Stat` to `buf`.
pub fn encode_stat(buf: &mut Vec<u8>, v: &Stat)
    ensures
        final(buf)@ == old(buf)@ + enc_stat(v@),
{
    let ghost b0 = buf@;
    encode_u32(buf, v.mode);
    encode_u32(buf, v.uid);
    encode_u32(buf, v.gid);
    encode_u64(buf, v.nlink);
    encode_u64(buf, v.rdev);
    encode_u64(buf, v.size);
    encode_u64(buf, v.blksize);
    encode_u64(buf, v.blocks);
    encode_time(buf, &v.atime);
    encode_time(buf, &v.mtime);
    encode_time(buf, &v.ctime);
    encode_time(buf, &v.btime);
    encode_u64(buf, v.gen);
    encode_u64(buf, v.data_version);
    assert(buf@ =~= b0 + enc_stat(v@));
}

/// A `SetAttr` on the wire: its fields in order.
pub open spec fn enc_setattr(v: SetAttr) -> Seq<u8> {
    le32(v.mode) + le32(v.uid) + le32(v.gid) + le64(v.size) + enc_time(v.atime) + enc_time(v.mtime)
}

/// The values whose encoding parses back to them.
pub open spec fn valid_setattr(v: SetAttr) -> bool {
    valid_time(v.atime)
    && valid_time(v.mtime)
}

/// Reads a `SetAttr` off the front of the bytes.
pub open spec fn parse_setattr(s0: Seq<u8>) -> Option<(SetAttr, Seq<u8>)> {
    match parse_u32(s0) { None => None, Some((x_mode, s1)) =>
    match parse_u32(s1) { None => None, Some((x_uid, s2)) =>
    match parse_u32(s2) { None => None, Some((x_gid, s3)) =>
    match parse_u64(s3) { None => None, Some((x_size, s4)) =>
    match parse_time(s4) { None => None, Some((x_atime, s5)) =>
    match parse_time(s5) { None => None, Some((x_mtime, s6)) =>
    Some((SetAttr { mode: x_mode, uid: x_uid, gid: x_gid, size: x_size, atime: x_atime, mtime: x_mtime }, s6))
    }}}}}}
}

/// Reading the encoding of a valid `SetAttr` gives it back.
pub proof fn lemma_parse_setattr(v: SetAttr, rest: Seq<u8>)
    requires
        valid_setattr(v),
    ensures
        parse_setattr(enc_setattr(v) + rest) == Some((v, rest)),
{
    let r5 = rest;
    let r4 = enc_time(v.mtime) + r5;
    let r3 = enc_time(v.atime) + r4;
    let r2 = le64(v.size) + r3;
    let r1 = le32(v.gid) + r2;
    let r0 = le32(v.uid) + r1;
    lemma_parse_u32(v.mode, r0);
    lemma_parse_u32(v.uid, r1);
    lemma_parse_u32(v.gid, r2);
    lemma_parse_u64(v.size, r3);
    lemma_parse_time(v.atime, r4);
    lemma_parse_time(v.mtime, r5);
    let p0 = le32(v.mode);
    assert(p0 + le32(v.uid) + r1 =~= p0 + r0);
    let p1 = p0 + le32(v.uid);
    assert(p1 + le32(v.gid) + r2 =~= p1 + r1);
    let p2 = p1 + le32(v.gid);
    assert(p2 + le64(v.size) + r3 =~= p2 + r2);
    let p3 = p2 + le64(v.size);
    assert(p3 + enc_time(v.atime) + r4 =~= p3 + r3);
    let p4 = p3 + enc_time(v.atime);
    assert(p4 + enc_time(v.mtime) + r5 =~= p4 + r4);
}

/// Appends a `SetAttr` to `buf`.
pub fn encode_setattr(buf: &mut Vec<u8>, v: &SetAttr)
    ensures
        final(buf)@ == old(buf)@ + enc_setattr(v@),
{
    let ghost b0 = buf@;
    encode_u32(buf, v.mode);
    encode_u32(buf, v.uid);
    encode_u32(buf, v.gid);
    encode_u64(buf, v.size);
    encode_time(buf, &v.atime);
    encode_time(buf, &v.mtime);
    assert(buf@ =~= b0 + enc_setattr(v@));
}

/// A `DirEntry` on the wire: its fields in order.
pub open spec fn enc_direntry(v: SpecDirEntry) -> Seq<u8> {
    enc_qid(v.qid) + le64(v.offset) + enc_u8(v.typ) + enc_str(v.name)
}

/// The values whose encoding parses back to them.
pub open spec fn valid_direntry(v: SpecDirEntry) -> bool {
    valid_qid(v.qid)
    && str_fits(v.name)
}

/// The error that encoding gives, if any: that of the first field that
/// cannot be encoded.
pub open spec fn enc_err_direntry(v: SpecDirEntry) -> Option<ProtoError> {
    str_err(v.name)
}

/// Reads a `DirEntry` off the front of the bytes.
pub open spec fn parse_direntry(s0: Seq<u8>) -> Option<(SpecDirEntry, Seq<u8>)> {
    match parse_qid(s0) { None => None, Some((x_qid, s1)) =>
    match parse_u64(s1) { None => None, Some((x_offset, s2)) =>
    match parse_u8(s2) { None => None, Some((x_typ, s3)) =>
    match parse_str(s3) { None => None, Some((x_name, s4)) =>
    Some((SpecDirEntry { qid: x_qid, offset: x_offset, typ: x_typ, name: x_name }, s4))
    }}}}
}

/// Reading the encoding of a valid `DirEntry` gives it back.
pub proof fn lemma_parse_direntry(v: SpecDirEntry, rest: Seq<u8>)
    requires
        valid_direntry(v),
    ensures
        parse_direntry(enc_direntry(v) + rest) == Some((v, rest)),
{
    let r3 = rest;
    let r2 = enc_str(v.name) + r3;
    let r1 = enc_u8(v.typ) + r2;
    let r0 = le64(v.offset) + r1;
    lemma_parse_qid(v.qid, r0);
    lemma_parse_u64(v.offset, r1);
    lemma_parse_u8(v.typ, r2);
    lemma_parse_str(v.name, r3);
    assert(enc_direntry(v) + rest =~= enc_qid(v.qid) + r0);
}

/// Appends a `DirEntry` to `buf`.
pub fn encode_direntry<'a>(buf: &mut Vec<u8>, v: &DirEntry<'a>) -> (r: Result<(), ProtoError>)
    ensures
        r == err_result(enc_err_direntry(v@)),
        r is Ok ==> final(buf)@ == old(buf)@ + enc_direntry(v@),
        old(buf)@.is_prefix_of(final(buf)@),
{
    let ghost b0 = buf@;
    encode_qid(buf, &v.qid);
    encode_u64(buf, v.offset);
    encode_u8(buf, v.typ);
    encode_str(buf, cow_str(&v.name))?;
    assert(buf@ =~= b0 + enc_direntry(v@));
    Ok(())
}

/// A `Flock` on the wire: its fields in order.
pub open spec fn enc_flock(v: SpecFlock) -> Seq<u8> {
    enc_locktype(v.typ) + enc_lockflag(v.flags) + le64(v.start) + le64(v.length) + le32(v.proc_id) + enc_str(v.client_id)
}

/// The values whose encoding parses back to them.
pub open spec fn valid_flock(v: SpecFlock) -> bool {
    v.typ.wf()
    && v.flags.wf()
    && str_fits(v.client_id)
}

/// The error that encoding gives, if any: that of the first field that
/// cannot be encoded.
pub open spec fn enc_err_flock(v: SpecFlock) -> Option<ProtoError> {
    str_err(v.client_id)
}

/// Reads a `Flock` off the front of the bytes.
pub open spec fn parse_flock(s0: Seq<u8>) -> Option<(SpecFlock, Seq<u8>)> {
    match parse_locktype(s0) { None => None, Some((x_typ, s1)) =>
    match parse_lockflag(s1) { None => None, Some((x_flags, s2)) =>
    match parse_u64(s2) { None => None, Some((x_start, s3)) =>
    match parse_u64(s3) { None => None, Some((x_length, s4)) =>
    match parse_u32(s4) { None => None, Some((x_proc_id, s5)) =>
    match parse_str(s5) { None => None, Some((x_client_id, s6)) =>
    Some((SpecFlock { typ: x_typ, flags: x_flags, start: x_start, length: x_length, proc_id: x_proc_id, client_id: x_client_id }, s6))
    }}}}}}
}

/// Reading the encoding of a valid `Flock` gives it back.
pub proof fn lemma_parse_flock(v: SpecFlock, rest: Seq<u8>)
    requires
        valid_flock(v),
    ensures
        parse_flock(enc_flock(v) + rest) == Some((v, rest)),
{
    let r5 = rest;
    let r4 = enc_str(v.client_id) + r5;
    let r3 = le32(v.proc_id) + r4;
    let r2 = le64(v.length) + r3;
    let r1 = le64(v.start) + r2;
    let r0 = enc_lockflag(v.flags) + r1;
    lemma_parse_locktype(v.typ, r0);
    lemma_parse_lockflag(v.flags, r1);
    lemma_parse_u64(v.start, r2);
    lemma_parse_u64(v.length, r3);
    lemma_parse_u32(v.proc_id, r4);
    lemma_parse_str(v.client_id, r5);
    let p0 = enc_locktype(v.typ);
    assert(p0 + enc_lockflag(v.flags) + r1 =~= p0 + r0);
    let p1 = p0 + enc_lockflag(v.flags);
    assert(p1 + le64(v.start) + r2 =~= p1 + r1);
    let p2 = p1 + le64(v.start);
    assert(p2 + le64(v.length) + r3 =~= p2 + r2);
    let p3 = p2 + le64(v.length);
    assert(p3 + le32(v.proc_id) + r4 =~= p3 + r3);
    let p4 = p3 + le32(v.proc_id);
    assert(p4 + enc_str(v.client_id) + r5 =~= p4 + r4);
}

/// Appends a `Flock` to `buf`.
pub fn encode_flock<'a>(buf: &mut Vec<u8>, v: &Flock<'a>) -> (r: Result<(), ProtoError>)
    ensures
        r == err_result(enc_err_flock(v@)),
        r is Ok ==> final(buf)@ == old(buf)@ + enc_flock(v@),
        old(buf)@.is_prefix_of(final(buf)@),
{
    let ghost b0 = buf@;
    encode_locktype(buf, &v.typ);
    encode_lockflag(buf, &v.flags);
    encode_u64(buf, v.start);
    encode_u64(buf, v.length);
    encode_u32(buf, v.proc_id);
    encode_str(buf, cow_str(&v.client_id))?;
    assert(buf@ =~= b0 + enc_flock(v@));
    Ok(())
}

/// A `Getlock` on the wire: its fields in order.
pub open spec fn enc_getlock(v: SpecGetlock) -> Seq<u8> {
    enc_locktype(v.typ) + le64(v.start) + le64(v.length) + le32(v.proc_id) + enc_str(v.client_id)
}

/// The values whose encoding parses back to them.
pub open spec fn valid_getlock(v: SpecGetlock) -> bool {
    v.typ.wf()
    && str_fits(v.client_id)
}

/// The error that encoding gives, if any: that of the first field that
/// cannot be encoded.
pub open spec fn enc_err_getlock(v: SpecGetlock) -> Option<ProtoError> {
    str_err(v.client_id)
}

/// Reads a `Getlock` off the front of the bytes.
pub open spec fn parse_getlock(s0: Seq<u8>) -> Option<(SpecGetlock, Seq<u8>)> {
    match parse_locktype(s0) { None => None, Some((x_typ, s1)) =>
    match parse_u64(s1) { None => None, Some((x_start, s2)) =>
    match parse_u64(s2) { None => None, Some((x_length, s3)) =>
    match parse_u32(s3) { None => None, Some((x_proc_id, s4)) =>
    match parse_str(s4) { None => None, Some((x_client_id, s5)) =>
    Some((SpecGetlock { typ: x_typ, start: x_start, length: x_length, proc_id: x_proc_id, client_id: x_client_id }, s5))
    }}}}}
}

/// Reading the encoding of a valid `Getlock` gives it back.
pub proof fn lemma_parse_getlock(v: SpecGetlock, rest: Seq<u8>)
    requires
        valid_getlock(v),
    ensures
        parse_getlock(enc_getlock(v) + rest) == Some((v, rest)),
{
    let r4 = rest;
    let r3 = enc_str(v.client_id) + r4;
    let r2 = le32(v.proc_id) + r3;
    let r1 = le64(v.length) + r2;
    let r0 = le64(v.start) + r1;
    lemma_parse_locktype(v.typ, r0);
    lemma_parse_u64(v.start, r1);
    lemma_parse_u64(v.length, r2);
    lemma_parse_u32(v.proc_id, r3);
    lemma_parse_str(v.client_id, r4);
    let p0 = enc_locktype(v.typ);
    assert(p0 + le64(v.start) + r1 =~= p0 + r0);
    let p1 = p0 + le64(v.start);
    assert(p1 + le64(v.length) + r2 =~= p1 + r1);
    let p2 = p1 + le64(v.length);
    assert(p2 + le32(v.proc_id) + r3 =~= p2 + r2);
    let p3 = p2 + le32(v.proc_id);
    assert(p3 + enc_str(v.client_id) + r4 =~= p3 + r3);
}

/// Appends a `Getlock` to `buf`.
pub fn encode_getlock<'a>(buf: &mut Vec<u8>, v: &Getlock<'a>) -> (r: Result<(), ProtoError>)
    ensures
        r == err_result(enc_err_getlock(v@)),
        r is Ok ==> final(buf)@ == old(buf)@ + enc_getlock(v@),
        old(buf)@.is_prefix_of(final(buf)@),
{
    let ghost b0 = buf@;
    encode_locktype(buf, &v.typ);
    encode_u64(buf, v.start);
    encode_u64(buf, v.length);
    encode_u32(buf, v.proc_id);
    encode_str(buf, cow_str(&v.client_id))?;
    assert(buf@ =~= b0 + enc_getlock(v@));
    Ok(())
}

/// A `Rlerror` on the wire: its fields in order.
pub open spec fn enc_rlerror(v: Rlerror) -> Seq<u8> {
    le32(v.ecode)
}

/// The values whose encoding parses back to them.
pub open spec fn valid_rlerror(v: Rlerror) -> bool {
    true
}

/// The error that encoding gives, if any: that of the first field that
/// cannot be encoded.
pub open spec fn enc_err_rlerror(v: Rlerror) -> Option<ProtoError> {
    None
}

/// Reads a `Rlerror` off the front of the bytes.
pub open spec fn parse_rlerror(s0: Seq<u8>) -> Option<(Rlerror, Seq<u8>)> {
    match parse_u32(s0) { None => None, Some((x_ecode, s1)) =>
    Some((Rlerror { ecode: x_ecode }, s1))
    }
}

/// Reading the encoding of a valid `Rlerror` gives it back.
pub proof fn lemma_parse_rlerror(v: Rlerror, rest: Seq<u8>)
    requires
        valid_rlerror(v),
    ensures
        parse_rlerror(enc_rlerror(v) + rest) == Some((v, rest)),
{
    let r0 = rest;
    lemma_parse_u32(v.ecode, r0);
    assert(enc_rlerror(v) + rest =~= le32(v.ecode) + r0);
}

/// Appends a `Rlerror` to `buf`.
pub fn encode_rlerror(buf: &mut Vec<u8>, v: &Rlerror) -> (r: Result<(), ProtoError>)
    ensures
        r == err_result(enc_err_rlerror(v@)),
        r is Ok ==> final(buf)@ == old(buf)@ + enc_rlerror(v@),
        old(buf)@.is_prefix_of(final(buf)@),
{
    let ghost b0 = buf@;
    encode_u32(buf, v.ecode);
    assert(buf@ =~= b0 + enc_rlerror(v@));
    Ok(())
}

/// A `Tattach` on the wire: its fields in order.
pub open spec fn enc_tattach(v: SpecTattach) -> Seq<u8> {
    le32(v.fid) + le32(v.afid) + enc_str(v.uname) + enc_str(v.aname) + le32(v.n_uname)
}

/// The values whose encoding parses back to them.
pub open spec fn valid_tattach(v: SpecTattach) -> bool {
    str_fits(v.uname)
    && str_fits(v.aname)
}

/// The error that encoding gives, if any: that of the first field that
/// cannot be encoded.
pub open spec fn enc_err_tattach(v: SpecTattach) -> Option<ProtoError> {
    or_err(str_err(v.uname), str_err(v.aname))
}

/// Reads a `Tattach` off the front of the bytes.
pub open spec fn parse_tattach(s0: Seq<u8>) -> Option<(SpecTattach, Seq<u8>)> {
    match parse_u32(s0) { None => None, Some((x_fid, s1)) =>
    match parse_u32(s1) { None => None, Some((x_afid, s2)) =>
    match parse_str(s2) { None => None, Some((x_uname, s3)) =>
    match parse_str(s3) { None => None, Some((x_aname, s4)) =>
    match parse_u32(s4) { None => None, Some((x_n_uname, s5)) =>
    Some((SpecTattach { fid: x_fid, afid: x_afid, uname: x_uname, aname: x_aname, n_uname: x_n_uname }, s5))
    }}}}}
}

/// Reading the encoding of a valid `Tattach` gives it back.
pub proof fn lemma_parse_tattach(v: SpecTattach, rest: Seq<u8>)
    requires
        valid_tattach(v),
    ensures
        parse_tattach(enc_tattach(v) + rest) == Some((v, rest)),
{
    let r4 = rest;
    let r3 = le32(v.n_uname) + r4;
    let r2 = enc_str(v.aname) + r3;
    let r1 = enc_str(v.uname) + r2;
    let r0 = le32(v.afid) + r1;
    lemma_parse_u32(v.fid, r0);
    lemma_parse_u32(v.afid, r1);
    lemma_parse_str(v.uname, r2);
    lemma_parse_str(v.aname, r3);
    lemma_parse_u32(v.n_uname, r4);
    let p0 = le32(v.fid);
    assert(p0 + le32(v.afid) + r1 =~= p0 + r0);
    let p1 = p0 + le32(v.afid);
    assert(p1 + enc_str(v.uname) + r2 =~= p1 + r1);
    let p2 = p1 + enc_str(v.uname);
    assert(p2 + enc_str(v.aname) + r3 =~= p2 + r2);
    let p3 = p2 + enc_str(v.aname);
    assert(p3 + le32(v.n_uname) + r4 =~= p3 + r3);
}

/// Appends a `Tattach` to `buf`.
pub fn encode_tattach<'a>(buf: &mut Vec<u8>, v: &Tattach<'a>) -> (r: Result<(), ProtoError>)
    ensures
        r == err_result(enc_err_tattach(v@)),
        r is Ok ==> final(buf)@ == old(buf)@ + enc_tattach(v@),
        old(buf)@.is_prefix_of(final(buf)@),
{
    let ghost b0 = buf@;
    encode_u32(buf, v.fid);
    encode_u32(buf, v.afid);
    encode_str(buf, cow_str(&v.uname))?;
    encode_str(buf, cow_str(&v.aname))?;
    encode_u32(buf, v.n_uname);
    assert(buf@ =~= b0 + enc_tattach(v@));
    Ok(())
}

/// A `Rattach` on the wire: its fields in order.
pub open spec fn enc_rattach(v: Rattach) -> Seq<u8> {
    enc_qid(v.qid)
}

/// The values whose encoding parses back to them.
pub open spec fn valid_rattach(v: Rattach) -> bool {
    valid_qid(v.qid)
}

/// The error that encoding gives, if any: that of the first field that
/// cannot be encoded.
pub open spec fn enc_err_rattach(v: Rattach) -> Option<ProtoError> {
    None
}

/// Reads a `Rattach` off the front of the bytes.
pub open spec fn parse_rattach(s0: Seq<u8>) -> Option<(Rattach, Seq<u8>)> {
    match parse_qid(s0) { None => None, Some((x_qid, s1)) =>
    Some((Rattach { qid: x_qid }, s1))
    }
}

/// Reading the encoding of a valid `Rattach` gives it back.
pub proof fn lemma_parse_rattach(v: Rattach, rest: Seq<u8>)
    requires
        valid_rattach(v),
    ensures
        parse_rattach(enc_rattach(v) + rest) == Some((v, rest)),
{
    let r0 = rest;
    lemma_parse_qid(v.qid, r0);
    assert(enc_rattach(v) + rest =~= enc_qid(v.qid) + r0);
}

/// Appends a `Rattach` to `buf`.
pub fn encode_rattach(buf: &mut Vec<u8>, v: &Rattach) -> (r: Result<(), ProtoError>)
    ensures
        r == err_result(enc_err_rattach(v@)),
        r is Ok ==> final(buf)@ == old(buf)@ + enc_rattach(v@),
        old(buf)@.is_prefix_of(final(buf)@),
{
    let ghost b0 = buf@;
    encode_qid(buf, &v.qid);
    assert(buf@ =~= b0 + enc_rattach(v@));
    Ok(())
}

/// A `Tstatfs` on the wire: its fields in order.
pub open spec fn enc_tstatfs(v: Tstatfs) -> Seq<u8> {
    le32(v.fid)
}

/// The values whose encoding parses back to them.
pub open spec fn valid_tstatfs(v: Tstatfs) -> bool {
    true
}

/// The error that encoding gives, if any: that of the first field that
/// cannot be encoded.
pub open spec fn enc_err_tstatfs(v: Tstatfs) -> Option<ProtoError> {
    None
}

/// Reads a `Tstatfs` off the front of the bytes.
pub open spec fn parse_tstatfs(s0: Seq<u8>) -> Option<(Tstatfs, Seq<u8>)> {
    match parse_u32(s0) { None => None, Some((x_fid, s1)) =>
    Some((Tstatfs { fid: x_fid }, s1))
    }
}

/// Reading the encoding of a valid `Tstatfs` gives it back.
pub proof fn lemma_parse_tstatfs(v: Tstatfs, rest: Seq<u8>)
    requires
        valid_tstatfs(v),
    ensures
        parse_tstatfs(enc_tstatfs(v) + rest) == Some((v, rest)),
{
    let r0 = rest;
    lemma_parse_u32(v.fid, r0);
    assert(enc_tstatfs(v) + rest =~= le32(v.fid) + r0);
}

/// Appends a `Tstatfs` to `buf`.
pub fn encode_tstatfs(buf: &mut Vec<u8>, v: &Tstatfs) -> (r: Result<(), ProtoError>)
    ensures
        r == err_result(enc_err_tstatfs(v@)),
        r is Ok ==> final(buf)@ == old(buf)@ + enc_tstatfs(v@),
        old(buf)@.is_prefix_of(final(buf)@),
{
    let ghost b0 = buf@;
    encode_u32(buf, v.fid);
    assert(buf@ =~= b0 + enc_tstatfs(v@));
    Ok(())
}

/// A `Rstatfs` on the wire: its fields in order.
pub open spec fn enc_rstatfs(v: Rstatfs) -> Seq<u8> {
    enc_statfs(v.statfs)
}

/// The values whose encoding parses back to them.
pub open spec fn valid_rstatfs(v: Rstatfs) -> bool {
    valid_statfs(v.statfs)
}

/// The error that encoding gives, if any: that of the first field that
/// cannot be encoded.
pub open spec fn enc_err_rstatfs(v: Rstatfs) -> Option<ProtoError> {
    None
}

/// Reads a `Rstatfs` off the front of the bytes.
pub open spec fn parse_rstatfs(s0: Seq<u8>) -> Option<(Rstatfs, Seq<u8>)> {
    match parse_statfs(s0) { None => None, Some((x_statfs, s1)) =>
    Some((Rstatfs { statfs: x_statfs }, s1))
    }
}

/// Reading the encoding of a valid `Rstatfs` gives it back.
pub proof fn lemma_parse_rstatfs(v: Rstatfs, rest: Seq<u8>)
    requires
        valid_rstatfs(v),
    ensures
        parse_rstatfs(enc_rstatfs(v) + rest) == Some((v, rest)),
{
    let r0 = rest;
    lemma_parse_statfs(v.statfs, r0);
    assert(enc_rstatfs(v) + rest =~= enc_statfs(v.statfs) + r0);
}

/// Appends a `Rstatfs` to `buf`.
pub fn encode_rstatfs(buf: &mut Vec<u8>, v: &Rstatfs) -> (r: Result<(), ProtoError>)
    ensures
        r == err_result(enc_err_rstatfs(v@)),
        r is Ok ==> final(buf)@ == old(buf)@ + enc_rstatfs(v@),
        old(buf)@.is_prefix_of(final(buf)@),
{
    let ghost b0 = buf@;
    encode_statfs(buf, &v.statfs);
    assert(buf@ =~= b0 + enc_rstatfs(v@));
    Ok(())
}

/// A `Tlopen` on the wire: its fields in order.
pub open spec fn enc_tlopen(v: Tlopen) -> Seq<u8> {
    le32(v.fid) + enc_lopenflags(v.flags)
}

/// The values whose encoding parses back to them.
pub open spec fn valid_tlopen(v: Tlopen) -> bool {
    v.flags.wf()
}

/// The error that encoding gives, if any: that of the first field that
/// cannot be encoded.
pub open spec fn enc_err_tlopen(v: Tlopen) -> Option<ProtoError> {
    None
}

/// Reads a `Tlopen` off the front of the bytes.
pub open spec fn parse_tlopen(s0: Seq<u8>) -> Option<(Tlopen, Seq<u8>)> {
    match parse_u32(s0) { None => None, Some((x_fid, s1)) =>
    match parse_lopenflags(s1) { None => None, Some((x_flags, s2)) =>
    Some((Tlopen { fid: x_fid, flags: x_flags }, s2))
    }}
}

/// Reading the encoding of a valid `Tlopen` gives it back.
pub proof fn lemma_parse_tlopen(v: Tlopen, rest: Seq<u8>)
    requires
        valid_tlopen(v),
    ensures
        parse_tlopen(enc_tlopen(v) + rest) == Some((v, rest)),
{
    let r1 = rest;
    let r0 = enc_lopenflags(v.flags) + r1;
    lemma_parse_u32(v.fid, r0);
    lemma_parse_lopenflags(v.flags, r1);
    assert(enc_tlopen(v) + rest =~= le32(v.fid) + r0);
}

/// Appends a `Tlopen` to `buf`.
pub fn encode_tlopen(buf: &mut Vec<u8>, v: &Tlopen) -> (r: Result<(), ProtoError>)
    ensures
        r == err_result(enc_err_tlopen(v@)),
        r is Ok ==> final(buf)@ == old(buf)@ + enc_tlopen(v@),
        old(buf)@.is_prefix_of(final(buf)@),
{
    let ghost b0 = buf@;
    encode_u32(buf, v.fid);
    encode_lopenflags(buf, &v.flags);
    assert(buf@ =~= b0 + enc_tlopen(v@));
    Ok(())
}

/// A `Rlopen` on the wire: its fields in order.
pub open spec fn enc_rlopen(v: Rlopen) -> Seq<u8> {
    enc_qid(v.qid) + le32(v.iounit)
}

/// The values whose encoding parses back to them.
pub open spec fn valid_rlopen(v: Rlopen) -> bool {
    valid_qid(v.qid)
}

/// The error that encoding gives, if any: that of the first field that
/// cannot be encoded.
pub open spec fn enc_err_rlopen(v: Rlopen) -> Option<ProtoError> {
    None
}

/// Reads a `Rlopen` off the front of the bytes.
pub open spec fn parse_rlopen(s0: Seq<u8>) -> Option<(Rlopen, Seq<u8>)> {
    match parse_qid(s0) { None => None, Some((x_qid, s1)) =>
    match parse_u32(s1) { None => None, Some((x_iounit, s2)) =>
    Some((Rlopen { qid: x_qid, iounit: x_iounit }, s2))
    }}
}

/// Reading the encoding of a valid `Rlopen` gives it back.
pub proof fn lemma_parse_rlopen(v: Rlopen, rest: Seq<u8>)
    requires
        valid_rlopen(v),
    ensures
        parse_rlopen(enc_rlopen(v) + rest) == Some((v, rest)),
{
    let r1 = rest;
    let r0 = le32(v.iounit) + r1;
    lemma_parse_qid(v.qid, r0);
    lemma_parse_u32(v.iounit, r1);
    assert(enc_rlopen(v) + rest =~= enc_qid(v.qid) + r0);
}

/// Appends a `Rlopen` to `buf`.
pub fn encode_rlopen(buf: &mut Vec<u8>, v: &Rlopen) -> (r: Result<(), ProtoError>)
    ensures
        r == err_result(enc_err_rlopen(v@)),
        r is Ok ==> final(buf)@ == old(buf)@ + enc_rlopen(v@),
        old(buf)@.is_prefix_of(final(buf)@),
{
    let ghost b0 = buf@;
    encode_qid(buf, &v.qid);
    encode_u32(buf, v.iounit);
    assert(buf@ =~= b0 + enc_rlopen(v@));
    Ok(())
}

/// A `Tlcreate` on the wire: its fields in order.
pub open spec fn enc_tlcreate(v: SpecTlcreate) -> Seq<u8> {
    le32(v.fid) + enc_str(v.name) + enc_lopenflags(v.flags) + le32(v.mode) + le32(v.gid)
}

/// The values whose encoding parses back to them.
pub open spec fn valid_tlcreate(v: SpecTlcreate) -> bool {
    str_fits(v.name)
    && v.flags.wf()
}

/// The error that encoding gives, if any: that of the first field that
/// cannot be encoded.
pub open spec fn enc_err_tlcreate(v: SpecTlcreate) -> Option<ProtoError> {
    str_err(v.name)
}

/// Reads a `Tlcreate` off the front of the bytes.
pub open spec fn parse_tlcreate(s0: Seq<u8>) -> Option<(SpecTlcreate, Seq<u8>)> {
    match parse_u32(s0) { None => None, Some((x_fid, s1)) =>
    match parse_str(s1) { None => None, Some((x_name, s2)) =>
    match parse_lopenflags(s2) { None => None, Some((x_flags, s3)) =>
    match parse_u32(s3) { None => None, Some((x_mode, s4)) =>
    match parse_u32(s4) { None => None, Some((x_gid, s5)) =>
    Some((SpecTlcreate { fid: x_fid, name: x_name, flags: x_flags, mode: x_mode, gid: x_gid }, s5))
    }}}}}
}

/// Reading the encoding of a valid `Tlcreate` gives it back.
pub proof fn lemma_parse_tlcreate(v: SpecTlcreate, rest: Seq<u8>)
    requires
        valid_tlcreate(v),
    ensures
        parse_tlcreate(enc_tlcreate(v) + rest) == Some((v, rest)),
{
    let r4 = rest;
    let r3 = le32(v.gid) + r4;
    let r2 = le32(v.mode) + r3;
    let r1 = enc_lopenflags(v.flags) + r2;
    let r0 = enc_str(v.name) + r1;
    lemma_parse_u32(v.fid, r0);
    lemma_parse_str(v.name, r1);
    lemma_parse_lopenflags(v.flags, r2);
    lemma_parse_u32(v.mode, r3);
    lemma_parse_u32(v.gid, r4);
    let p0 = le32(v.fid);
    assert(p0 + enc_str(v.name) + r1 =~= p0 + r0);
    let p1 = p0 + enc_str(v.name);
    assert(p1 + enc_lopenflags(v.flags) + r2 =~= p1 + r1);
    let p2 = p1 + enc_lopenflags(v.flags);
    assert(p2 + le32(v.mode) + r3 =~= p2 + r2);
    let p3 = p2 + le32(v.mode);
    assert(p3 + le32(v.gid) + r4 =~= p3 + r3);
}

/// Appends a `Tlcreate` to `buf`.
pub fn encode_tlcreate<'a>(buf: &mut Vec<u8>, v: &Tlcreate<'a>) -> (r: Result<(), ProtoError>)
    ensures
        r == err_result(enc_err_tlcreate(v@)),
        r is Ok ==> final(buf)@ == old(buf)@ + enc_tlcreate(v@),
        old(buf)@.is_prefix_of(final(buf)@),
{
    let ghost b0 = buf@;
    encode_u32(buf, v.fid);
    encode_str(buf, cow_str(&v.name))?;
    encode_lopenflags(buf, &v.flags);
    encode_u32(buf, v.mode);
    encode_u32(buf, v.gid);
    assert(buf@ =~= b0 + enc_tlcreate(v@));
    Ok(())
}

/// A `Rlcreate` on the wire: its fields in order.
pub open spec fn enc_rlcreate(v: Rlcreate) -> Seq<u8> {
    enc_qid(v.qid) + le32(v.iounit)
}

/// The values whose encoding parses back to them.
pub open spec fn valid_rlcreate(v: Rlcreate) -> bool {
    valid_qid(v.qid)
}

/// The error that encoding gives, if any: that of the first field that
/// cannot be encoded.
pub open spec fn enc_err_rlcreate(v: Rlcreate) -> Option<ProtoError> {
    None
}

/// Reads a `Rlcreate` off the front of the bytes.
pub open spec fn parse_rlcreate(s0: Seq<u8>) -> Option<(Rlcreate, Seq<u8>)> {
    match parse_qid(s0) { None => None, Some((x_qid, s1)) =>
    match parse_u32(s1) { None => None, Some((x_iounit, s2)) =>
    Some((Rlcreate { qid: x_qid, iounit: x_iounit }, s2))
    }}
}

/// Reading the encoding of a valid `Rlcreate` gives it back.
pub proof fn lemma_parse_rlcreate(v: Rlcreate, rest: Seq<u8>)
    requires
        valid_rlcreate(v),
    ensures
        parse_rlcreate(enc_rlcreate(v) + rest) == Some((v, rest)),
{
    let r1 = rest;
    let r0 = le32(v.iounit) + r1;
    lemma_parse_qid(v.qid, r0);
    lemma_parse_u32(v.iounit, r1);
    assert(enc_rlcreate(v) + rest =~= enc_qid(v.qid) + r0);
}

/// Appends a `Rlcreate` to `buf`.
pub fn encode_rlcreate(buf: &mut Vec<u8>, v: &Rlcreate) -> (r: Result<(), ProtoError>)
    ensures
        r == err_result(enc_err_rlcreate(v@)),
        r is Ok ==> final(buf)@ == old(buf)@ + enc_rlcreate(v@),
        old(buf)@.is_prefix_of(final(buf)@),
{
    let ghost b0 = buf@;
    encode_qid(buf, &v.qid);
    encode_u32(buf, v.iounit);
    assert(buf@ =~= b0 + enc_rlcreate(v@));
    Ok(())
}

/// A `Tsymlink` on the wire: its fields in order.
pub open spec fn enc_tsymlink(v: SpecTsymlink) -> Seq<u8> {
    le32(v.fid) + enc_str(v.name) + enc_str(v.symtgt) + le32(v.gid)
}

/// The values whose encoding parses back to them.
pub open spec fn valid_tsymlink(v: SpecTsymlink) -> bool {
    str_fits(v.name)
    && str_fits(v.symtgt)
}

/// The error that encoding gives, if any: that of the first field that
/// cannot be encoded.
pub open spec fn enc_err_tsymlink(v: SpecTsymlink) -> Option<ProtoError> {
    or_err(str_err(v.name), str_err(v.symtgt))
}

/// Reads a `Tsymlink` off the front of the bytes.
pub open spec fn parse_tsymlink(s0: Seq<u8>) -> Option<(SpecTsymlink, Seq<u8>)> {
    match parse_u32(s0) { None => None, Some((x_fid, s1)) =>
    match parse_str(s1) { None => None, Some((x_name, s2)) =>
    match parse_str(s2) { None => None, Some((x_symtgt, s3)) =>
    match parse_u32(s3) { None => None, Some((x_gid, s4)) =>
    Some((SpecTsymlink { fid: x_fid, name: x_name, symtgt: x_symtgt, gid: x_gid }, s4))
    }}}}
}

/// Reading the encoding of a valid `Tsymlink` gives it back.
pub proof fn lemma_parse_tsymlink(v: SpecTsymlink, rest: Seq<u8>)
    requires
        valid_tsymlink(v),
    ensures
        parse_tsymlink(enc_tsymlink(v) + rest) == Some((v, rest)),
{
    let r3 = rest;
    let r2 = le32(v.gid) + r3;
    let r1 = enc_str(v.symtgt) + r2;
    let r0 = enc_str(v.name) + r1;
    lemma_parse_u32(v.fid, r0);
    lemma_parse_str(v.name, r1);
    lemma_parse_str(v.symtgt, r2);
    lemma_parse_u32(v.gid, r3);
    assert(enc_tsymlink(v) + rest =~= le32(v.fid) + r0);
}

/// Appends a `Tsymlink` to `buf`.
pub fn encode_tsymlink<'a>(buf: &mut Vec<u8>, v: &Tsymlink<'a>) -> (r: Result<(), ProtoError>)
    ensures
        r == err_result(enc_err_tsymlink(v@)),
        r is Ok ==> final(buf)@ == old(buf)@ + enc_tsymlink(v@),
        old(buf)@.is_prefix_of(final(buf)@),
{
    let ghost b0 = buf@;
    encode_u32(buf, v.fid);
    encode_str(buf, cow_str(&v.name))?;
    encode_str(buf, cow_str(&v.symtgt))?;
    encode_u32(buf, v.gid);
    assert(buf@ =~= b0 + enc_tsymlink(v@));
    Ok(())
}

/// A `Rsymlink` on the wire: its fields in order.
pub open spec fn enc_rsymlink(v: Rsymlink) -> Seq<u8> {
    enc_qid(v.qid)
}

/// The values whose encoding parses back to them.
pub open spec fn valid_rsymlink(v: Rsymlink) -> bool {
    valid_qid(v.qid)
}

/// The error that encoding gives, if any: that of the first field that
/// cannot be encoded.
pub open spec fn enc_err_rsymlink(v: Rsymlink) -> Option<ProtoError> {
    None
}

/// Reads a `Rsymlink` off the front of the bytes.
pub open spec fn parse_rsymlink(s0: Seq<u8>) -> Option<(Rsymlink, Seq<u8>)> {
    match parse_qid(s0) { None => None, Some((x_qid, s1)) =>
    Some((Rsymlink { qid: x_qid }, s1))
    }
}

/// Reading the encoding of a valid `Rsymlink` gives it back.
pub proof fn lemma_parse_rsymlink(v: Rsymlink, rest: Seq<u8>)
    requires
        valid_rsymlink(v),
    ensures
        parse_rsymlink(enc_rsymlink(v) + rest) == Some((v, rest)),
{
    let r0 = rest;
    lemma_parse_qid(v.qid, r0);
    assert(enc_rsymlink(v) + rest =~= enc_qid(v.qid) + r0);
}

/// Appends a `Rsymlink` to `buf`.
pub fn encode_rsymlink(buf: &mut Vec<u8>, v: &Rsymlink) -> (r: Result<(), ProtoError>)
    ensures
        r == err_result(enc_err_rsymlink(v@)),
        r is Ok ==> final(buf)@ == old(buf)@ + enc_rsymlink(v@),
        old(buf)@.is_prefix_of(final(buf)@),
{
    let ghost b0 = buf@;
    encode_qid(buf, &v.qid);
    assert(buf@ =~= b0 + enc_rsymlink(v@));
    Ok(())
}

/// A `Tmknod` on the wire: its fields in order.
pub open spec fn enc_tmknod(v: SpecTmknod) -> Seq<u8> {
    le32(v.dfid) + enc_str(v.name) + le32(v.mode) + le32(v.major) + le32(v.minor) + le32(v.gid)
}

/// The values whose encoding parses back to them.
pub open spec fn valid_tmknod(v: SpecTmknod) -> bool {
    str_fits(v.name)
}

/// The error that encoding gives, if any: that of the first field that
/// cannot be encoded.
pub open spec fn enc_err_tmknod(v: SpecTmknod) -> Option<ProtoError> {
    str_err(v.name)
}

/// Reads a `Tmknod` off the front of the bytes.
pub open spec fn parse_tmknod(s0: Seq<u8>) -> Option<(SpecTmknod, Seq<u8>)> {
    match parse_u32(s0) { None => None, Some((x_dfid, s1)) =>
    match parse_str(s1) { None => None, Some((x_name, s2)) =>
    match parse_u32(s2) { None => None, Some((x_mode, s3)) =>
    match parse_u32(s3) { None => None, Some((x_major, s4)) =>
    match parse_u32(s4) { None => None, Some((x_minor, s5)) =>
    match parse_u32(s5) { None => None, Some((x_gid, s6)) =>
    Some((SpecTmknod { dfid: x_dfid, name: x_name, mode: x_mode, major: x_major, minor: x_minor, gid: x_gid }, s6))
    }}}}}}
}

/// Reading the encoding of a valid `Tmknod` gives it back.
pub proof fn lemma_parse_tmknod(v: SpecTmknod, rest: Seq<u8>)
    requires
        valid_tmknod(v),
    ensures
        parse_tmknod(enc_tmknod(v) + rest) == Some((v, rest)),
{
    let r5 = rest;
    let r4 = le32(v.gid) + r5;
    let r3 = le32(v.minor) + r4;
    let r2 = le32(v.major) + r3;
    let r1 = le32(v.mode) + r2;
    let r0 = enc_str(v.name) + r1;
    lemma_parse_u32(v.dfid, r0);
    lemma_parse_str(v.name, r1);
    lemma_parse_u32(v.mode, r2);
    lemma_parse_u32(v.major, r3);
    lemma_parse_u32(v.minor, r4);
    lemma_parse_u32(v.gid, r5);
    let p0 = le32(v.dfid);
    assert(p0 + enc_str(v.name) + r1 =~= p0 + r0);
    let p1 = p0 + enc_str(v.name);
    assert(p1 + le32(v.mode) + r2 =~= p1 + r1);
    let p2 = p1 + le32(v.mode);
    assert(p2 + le32(v.major) + r3 =~= p2 + r2);
    let p3 = p2 + le32(v.major);
    assert(p3 + le32(v.minor) + r4 =~= p3 + r3);
    let p4 = p3 + le32(v.minor);
    assert(p4 + le32(v.gid) + r5 =~= p4 + r4);
}

/// Appends a `Tmknod` to `buf`.
pub fn encode_tmknod<'a>(buf: &mut Vec<u8>, v: &Tmknod<'a>) -> (r: Result<(), ProtoError>)
    ensures
        r == err_result(enc_err_tmknod(v@)),
        r is Ok ==> final(buf)@ == old(buf)@ + enc_tmknod(v@),
        old(buf)@.is_prefix_of(final(buf)@),
{
    let ghost b0 = buf@;
    encode_u32(buf, v.dfid);
    encode_str(buf, cow_str(&v.name))?;
    encode_u32(buf, v.mode);
    encode_u32(buf, v.major);
    encode_u32(buf, v.minor);
    encode_u32(buf, v.gid);
    assert(buf@ =~= b0 + enc_tmknod(v@));
    Ok(())
}

/// A `Rmknod` on the wire: its fields in order.
pub open spec fn enc_rmknod(v: Rmknod) -> Seq<u8> {
    enc_qid(v.qid)
}

/// The values whose encoding parses back to them.
pub open spec fn valid_rmknod(v: Rmknod) -> bool {
    valid_qid(v.qid)
}

/// The error that encoding gives, if any: that of the first field that
/// cannot be encoded.
pub open spec fn enc_err_rmknod(v: Rmknod) -> Option<ProtoError> {
    None
}

/// Reads a `Rmknod` off the front of the bytes.
pub open spec fn parse_rmknod(s0: Seq<u8>) -> Option<(Rmknod, Seq<u8>)> {
    match parse_qid(s0) { None => None, Some((x_qid, s1)) =>
    Some((Rmknod { qid: x_qid }, s1))
    }
}

/// Reading the encoding of a valid `Rmknod` gives it back.
pub proof fn lemma_parse_rmknod(v: Rmknod, rest: Seq<u8>)
    requires
        valid_rmknod(v),
    ensures
        parse_rmknod(enc_rmknod(v) + rest) == Some((v, rest)),
{
    let r0 = rest;
    lemma_parse_qid(v.qid, r0);
    assert(enc_rmknod(v) + rest =~= enc_qid(v.qid) + r0);
}

/// Appends a `Rmknod` to `buf`.
pub fn encode_rmknod(buf: &mut Vec<u8>, v: &Rmknod) -> (r: Result<(), ProtoError>)
    ensures
        r == err_result(enc_err_rmknod(v@)),
        r is Ok ==> final(buf)@ == old(buf)@ + enc_rmknod(v@),
        old(buf)@.is_prefix_of(final(buf)@),
{
    let ghost b0 = buf@;
    encode_qid(buf, &v.qid);
    assert(buf@ =~= b0 + enc_rmknod(v@));
    Ok(())
}

/// A `Trename` on the wire: its fields in order.
pub open spec fn enc_trename(v: SpecTrename) -> Seq<u8> {
    le32(v.fid) + le32(v.dfid) + enc_str(v.name)
}

/// The values whose encoding parses back to them.
pub open spec fn valid_trename(v: SpecTrename) -> bool {
    str_fits(v.name)
}

/// The error that encoding gives, if any: that of the first field that
/// cannot be encoded.
pub open spec fn enc_err_trename(v: SpecTrename) -> Option<ProtoError> {
    str_err(v.name)
}

/// Reads a `Trename` off the front of the bytes.
pub open spec fn parse_trename(s0: Seq<u8>) -> Option<(SpecTrename, Seq<u8>)> {
    match parse_u32(s0) { None => None, Some((x_fid, s1)) =>
    match parse_u32(s1) { None => None, Some((x_dfid, s2)) =>
    match parse_str(s2) { None => None, Some((x_name, s3)) =>
    Some((SpecTrename { fid: x_fid, dfid: x_dfid, name: x_name }, s3))
    }}}
}

/// Reading the encoding of a valid `Trename` gives it back.
pub proof fn lemma_parse_trename(v: SpecTrename, rest: Seq<u8>)
    requires
        valid_trename(v),
    ensures
        parse_trename(enc_trename(v) + rest) == Some((v, rest)),
{
    let r2 = rest;
    let r1 = enc_str(v.name) + r2;
    let r0 = le32(v.dfid) + r1;
    lemma_parse_u32(v.fid, r0);
    lemma_parse_u32(v.dfid, r1);
    lemma_parse_str(v.name, r2);
    assert(enc_trename(v) + rest =~= le32(v.fid) + r0);
}

/// Appends a `Trename` to `buf`.
pub fn encode_trename<'a>(buf: &mut Vec<u8>, v: &Trename<'a>) -> (r: Result<(), ProtoError>)
    ensures
        r == err_result(enc_err_trename(v@)),
        r is Ok ==> final(buf)@ == old(buf)@ + enc_trename(v@),
        old(buf)@.is_prefix_of(final(buf)@),
{
    let ghost b0 = buf@;
    encode_u32(buf, v.fid);
    encode_u32(buf, v.dfid);
    encode_str(buf, cow_str(&v.name))?;
    assert(buf@ =~= b0 + enc_trename(v@));
    Ok(())
}

/// A `Rrename` on the wire: its fields in order.
pub open spec fn enc_rrename(v: Rrename) -> Seq<u8> {
    Seq::empty()
}

/// The values whose encoding parses back to them.
pub open spec fn valid_rrename(v: Rrename) -> bool {
    true
}

/// The error that encoding gives, if any: that of the first field that
/// cannot be encoded.
pub open spec fn enc_err_rrename(v: Rrename) -> Option<ProtoError> {
    None
}

/// Reads a `Rrename` off the front of the bytes.
pub open spec fn parse_rrename(s0: Seq<u8>) -> Option<(Rrename, Seq<u8>)> {
    Some((Rrename {}, s0))
}

/// Reading the encoding of a valid `Rrename` gives it back.
pub proof fn lemma_parse_rrename(v: Rrename, rest: Seq<u8>)
    requires
        valid_rrename(v),
    ensures
        parse_rrename(enc_rrename(v) + rest) == Some((v, rest)),
{
    assert(enc_rrename(v) + rest =~= rest);
}

/// Appends a `Rrename` to `buf`.
pub fn encode_rrename(buf: &mut Vec<u8>, v: &Rrename) -> (r: Result<(), ProtoError>)
    ensures
        r == err_result(enc_err_rrename(v@)),
        r is Ok ==> final(buf)@ == old(buf)@ + enc_rrename(v@),
        old(buf)@.is_prefix_of(final(buf)@),
{
    let ghost b0 = buf@;
    assert(buf@ =~= b0 + enc_rrename(v@));
    Ok(())
}

/// A `Treadlink` on the wire: its fields in order.
pub open spec fn enc_treadlink(v: Treadlink) -> Seq<u8> {
    le32(v.fid)
}

/// The values whose encoding parses back to them.
pub open spec fn valid_treadlink(v: Treadlink) -> bool {
    true
}

/// The error that encoding gives, if any: that of the first field that
/// cannot be encoded.
pub open spec fn enc_err_treadlink(v: Treadlink) -> Option<ProtoError> {
    None
}

/// Reads a `Treadlink` off the front of the bytes.
pub open spec fn parse_treadlink(s0: Seq<u8>) -> Option<(Treadlink, Seq<u8>)> {
    match parse_u32(s0) { None => None, Some((x_fid, s1)) =>
    Some((Treadlink { fid: x_fid }, s1))
    }
}

/// Reading the encoding of a valid `Treadlink` gives it back.
pub proof fn lemma_parse_treadlink(v: Treadlink, rest: Seq<u8>)
    requires
        valid_treadlink(v),
    ensures
        parse_treadlink(enc_treadlink(v) + rest) == Some((v, rest)),
{
    let r0 = rest;
    lemma_parse_u32(v.fid, r0);
    assert(enc_treadlink(v) + rest =~= le32(v.fid) + r0);
}

/// Appends a `Treadlink` to `buf`.
pub fn encode_treadlink(buf: &mut Vec<u8>, v: &Treadlink) -> (r: Result<(), ProtoError>)
    ensures
        r == err_result(enc_err_treadlink(v@)),
        r is Ok ==> final(buf)@ == old(buf)@ + enc_treadlink(v@),
        old(buf)@.is_prefix_of(final(buf)@),
{
    let ghost b0 = buf@;
    encode_u32(buf, v.fid);
    assert(buf@ =~= b0 + enc_treadlink(v@));
    Ok(())
}

/// A `Rreadlink` on the wire: its fields in order.
pub open spec fn enc_rreadlink(v: SpecRreadlink) -> Seq<u8> {
    enc_str(v.target)
}

/// The values whose encoding parses back to them.
pub open spec fn valid_rreadlink(v: SpecRreadlink) -> bool {
    str_fits(v.target)
}

/// The error that encoding gives, if any: that of the first field that
/// cannot be encoded.
pub open spec fn enc_err_rreadlink(v: SpecRreadlink) -> Option<ProtoError> {
    str_err(v.target)
}

/// Reads a `Rreadlink` off the front of the bytes.
pub open spec fn parse_rreadlink(s0: Seq<u8>) -> Option<(SpecRreadlink, Seq<u8>)> {
    match parse_str(s0) { None => None, Some((x_target, s1)) =>
    Some((SpecRreadlink { target: x_target }, s1))
    }
}

/// Reading the encoding of a valid `Rreadlink` gives it back.
pub proof fn lemma_parse_rreadlink(v: SpecRreadlink, rest: Seq<u8>)
    requires
        valid_rreadlink(v),
    ensures
        parse_rreadlink(enc_rreadlink(v) + rest) == Some((v, rest)),
{
    let r0 = rest;
    lemma_parse_str(v.target, r0);
    assert(enc_rreadlink(v) + rest =~= enc_str(v.target) + r0);
}

/// Appends a `Rreadlink` to `buf`.
pub fn encode_rreadlink<'a>(buf: &mut Vec<u8>, v: &Rreadlink<'a>) -> (r: Result<(), ProtoError>)
    ensures
        r == err_result(enc_err_rreadlink(v@)),
        r is Ok ==> final(buf)@ == old(buf)@ + enc_rreadlink(v@),
        old(buf)@.is_prefix_of(final(buf)@),
{
    let ghost b0 = buf@;
    encode_str(buf, cow_str(&v.target))?;
    assert(buf@ =~= b0 + enc_rreadlink(v@));
    Ok(())
}

/// A `Tgetattr` on the wire: its fields in order.
pub open spec fn enc_tgetattr(v: Tgetattr) -> Seq<u8> {
    le32(v.fid) + enc_getattrmask(v.req_mask)
}

/// The values whose encoding parses back to them.
pub open spec fn valid_tgetattr(v: Tgetattr) -> bool {
    v.req_mask.wf()
}

/// The error that encoding gives, if any: that of the first field that
/// cannot be encoded.
pub open spec fn enc_err_tgetattr(v: Tgetattr) -> Option<ProtoError> {
    None
}

/// Reads a `Tgetattr` off the front of the bytes.
pub open spec fn parse_tgetattr(s0: Seq<u8>) -> Option<(Tgetattr, Seq<u8>)> {
    match parse_u32(s0) { None => None, Some((x_fid, s1)) =>
    match parse_getattrmask(s1) { None => None, Some((x_req_mask, s2)) =>
    Some((Tgetattr { fid: x_fid, req_mask: x_req_mask }, s2))
    }}
}

/// Reading the encoding of a valid `Tgetattr` gives it back.
pub proof fn lemma_parse_tgetattr(v: Tgetattr, rest: Seq<u8>)
    requires
        valid_tgetattr(v),
    ensures
        parse_tgetattr(enc_tgetattr(v) + rest) == Some((v, rest)),
{
    let r1 = rest;
    let r0 = enc_getattrmask(v.req_mask) + r1;
    lemma_parse_u32(v.fid, r0);
    lemma_parse_getattrmask(v.req_mask, r1);
    assert(enc_tgetattr(v) + rest =~= le32(v.fid) + r0);
}

/// Appends a `Tgetattr` to `buf`.
pub fn encode_tgetattr(buf: &mut Vec<u8>, v: &Tgetattr) -> (r: Result<(), ProtoError>)
    ensures
        r == err_result(enc_err_tgetattr(v@)),
        r is Ok ==> final(buf)@ == old(buf)@ + enc_tgetattr(v@),
        old(buf)@.is_prefix_of(final(buf)@),
{
    let ghost b0 = buf@;
    encode_u32(buf, v.fid);
    encode_getattrmask(buf, &v.req_mask);
    assert(buf@ =~= b0 + enc_tgetattr(v@));
    Ok(())
}

/// A `Rgetattr` on the wire: its fields in order.
pub open spec fn enc_rgetattr(v: Rgetattr) -> Seq<u8> {
    enc_getattrmask(v.valid) + enc_qid(v.qid) + enc_stat(v.stat)
}

/// The values whose encoding parses back to them.
pub open spec fn valid_rgetattr(v: Rgetattr) -> bool {
    v.valid.wf()
    && valid_qid(v.qid)
    && valid_stat(v.stat)
}

/// The error that encoding gives, if any: that of the first field that
/// cannot be encoded.
pub open spec fn enc_err_rgetattr(v: Rgetattr) -> Option<ProtoError> {
    None
}

/// Reads a `Rgetattr` off the front of the bytes.
pub open spec fn parse_rgetattr(s0: Seq<u8>) -> Option<(Rgetattr, Seq<u8>)> {
    match parse_getattrmask(s0) { None => None, Some((x_valid, s1)) =>
    match parse_qid(s1) { None => None, Some((x_qid, s2)) =>
    match parse_stat(s2) { None => None, Some((x_stat, s3)) =>
    Some((Rgetattr { valid: x_valid, qid: x_qid, stat: x_stat }, s3))
    }}}
}

/// Reading the encoding of a valid `Rgetattr` gives it back.
pub proof fn lemma_parse_rgetattr(v: Rgetattr, rest: Seq<u8>)
    requires
        valid_rgetattr(v),
    ensures
        parse_rgetattr(enc_rgetattr(v) + rest) == Some((v, rest)),
{
    let r2 = rest;
    let r1 = enc_stat(v.stat) + r2;
    let r0 = enc_qid(v.qid) + r1;
    lemma_parse_getattrmask(v.valid, r0);
    lemma_parse_qid(v.qid, r1);
    lemma_parse_stat(v.stat, r2);
    assert(enc_rgetattr(v) + rest =~= enc_getattrmask(v.valid) + r0);
}

/// Appends a `Rgetattr` to `buf`.
pub fn encode_rgetattr(buf: &mut Vec<u8>, v: &Rgetattr) -> (r: Result<(), ProtoError>)
    ensures
        r == err_result(enc_err_rgetattr(v@)),
        r is Ok ==> final(buf)@ == old(buf)@ + enc_rgetattr(v@),
        old(buf)@.is_prefix_of(final(buf)@),
{
    let ghost b0 = buf@;
    encode_getattrmask(buf, &v.valid);
    encode_qid(buf, &v.qid);
    encode_stat(buf, &v.stat);
    assert(buf@ =~= b0 + enc_rgetattr(v@));
    Ok(())
}

/// A `Tsetattr` on the wire: its fields in order.
pub open spec fn enc_tsetattr(v: Tsetattr) -> Seq<u8> {
    le32(v.fid) + enc_setattrmask(v.valid) + enc_setattr(v.stat)
}

/// The values whose encoding parses back to them.
pub open spec fn valid_tsetattr(v: Tsetattr) -> bool {
    v.valid.wf()
    && valid_setattr(v.stat)
}

/// The error that encoding gives, if any: that of the first field that
/// cannot be encoded.
pub open spec fn enc_err_tsetattr(v: Tsetattr) -> Option<ProtoError> {
    None
}

/// Reads a `Tsetattr` off the front of the bytes.
pub open spec fn parse_tsetattr(s0: Seq<u8>) -> Option<(Tsetattr, Seq<u8>)> {
    match parse_u32(s0) { None => None, Some((x_fid, s1)) =>
    match parse_setattrmask(s1) { None => None, Some((x_valid, s2)) =>
    match parse_setattr(s2) { None => None, Some((x_stat, s3)) =>
    Some((Tsetattr { fid: x_fid, valid: x_valid, stat: x_stat }, s3))
    }}}
}

/// Reading the encoding of a valid `Tsetattr` gives it back.
pub proof fn lemma_parse_tsetattr(v: Tsetattr, rest: Seq<u8>)
    requires
        valid_tsetattr(v),
    ensures
        parse_tsetattr(enc_tsetattr(v) + rest) == Some((v, rest)),
{
    let r2 = rest;
    let r1 = enc_setattr(v.stat) + r2;
    let r0 = enc_setattrmask(v.valid) + r1;
    lemma_parse_u32(v.fid, r0);
    lemma_parse_setattrmask(v.valid, r1);
    lemma_parse_setattr(v.stat, r2);
    assert(enc_tsetattr(v) + rest =~= le32(v.fid) + r0);
}

/// Appends a `Tsetattr` to `buf`.
pub fn encode_tsetattr(buf: &mut Vec<u8>, v: &Tsetattr) -> (r: Result<(), ProtoError>)
    ensures
        r == err_result(enc_err_tsetattr(v@)),
        r is Ok ==> final(buf)@ == old(buf)@ + enc_tsetattr(v@),
        old(buf)@.is_prefix_of(final(buf)@),
{
    let ghost b0 = buf@;
    encode_u32(buf, v.fid);
    encode_setattrmask(buf, &v.valid);
    encode_setattr(buf, &v.stat);
    assert(buf@ =~= b0 + enc_tsetattr(v@));
    Ok(())
}

/// A `Rsetattr` on the wire: its fields in order.
pub open spec fn enc_rsetattr(v: Rsetattr) -> Seq<u8> {
    Seq::empty()
}

/// The values whose encoding parses back to them.
pub open spec fn valid_rsetattr(v: Rsetattr) -> bool {
    true
}

/// The error that encoding gives, if any: that of the first field that
/// cannot be encoded.
pub open spec fn enc_err_rsetattr(v: Rsetattr) -> Option<ProtoError> {
    None
}

/// Reads a `Rsetattr` off the front of the bytes.
pub open spec fn parse_rsetattr(s0: Seq<u8>) -> Option<(Rsetattr, Seq<u8>)> {
    Some((Rsetattr {}, s0))
}

/// Reading the encoding of a valid `Rsetattr` gives it back.
pub proof fn lemma_parse_rsetattr(v: Rsetattr, rest: Seq<u8>)
    requires
        valid_rsetattr(v),
    ensures
        parse_rsetattr(enc_rsetattr(v) + rest) == Some((v, rest)),
{
    assert(enc_rsetattr(v) + rest =~= rest);
}

/// Appends a `Rsetattr` to `buf`.
pub fn encode_rsetattr(buf: &mut Vec<u8>, v: &Rsetattr) -> (r: Result<(), ProtoError>)
    ensures
        r == err_result(enc_err_rsetattr(v@)),
        r is Ok ==> final(buf)@ == old(buf)@ + enc_rsetattr(v@),
        old(buf)@.is_prefix_of(final(buf)@),
{
    let ghost b0 = buf@;
    assert(buf@ =~= b0 + enc_rsetattr(v@));
    Ok(())
}

/// A `Txattrwalk` on the wire: its fields in order.
pub open spec fn enc_txattrwalk(v: SpecTxattrwalk) -> Seq<u8> {
    le32(v.fid) + le32(v.new_fid) + enc_str(v.name)
}

/// The values whose encoding parses back to them.
pub open spec fn valid_txattrwalk(v: SpecTxattrwalk) -> bool {
    str_fits(v.name)
}

/// The error that encoding gives, if any: that of the first field that
/// cannot be encoded.
pub open spec fn enc_err_txattrwalk(v: SpecTxattrwalk) -> Option<ProtoError> {
    str_err(v.name)
}

/// Reads a `Txattrwalk` off the front of the bytes.
pub open spec fn parse_txattrwalk(s0: Seq<u8>) -> Option<(SpecTxattrwalk, Seq<u8>)> {
    match parse_u32(s0) { None => None, Some((x_fid, s1)) =>
    match parse_u32(s1) { None => None, Some((x_new_fid, s2)) =>
    match parse_str(s2) { None => None, Some((x_name, s3)) =>
    Some((SpecTxattrwalk { fid: x_fid, new_fid: x_new_fid, name: x_name }, s3))
    }}}
}

/// Reading the encoding of a valid `Txattrwalk` gives it back.
pub proof fn lemma_parse_txattrwalk(v: SpecTxattrwalk, rest: Seq<u8>)
    requires
        valid_txattrwalk(v),
    ensures
        parse_txattrwalk(enc_txattrwalk(v) + rest) == Some((v, rest)),
{
    let r2 = rest;
    let r1 = enc_str(v.name) + r2;
    let r0 = le32(v.new_fid) + r1;
    lemma_parse_u32(v.fid, r0);
    lemma_parse_u32(v.new_fid, r1);
    lemma_parse_str(v.name, r2);
    assert(enc_txattrwalk(v) + rest =~= le32(v.fid) + r0);
}

/// Appends a `Txattrwalk` to `buf`.
pub fn encode_txattrwalk<'a>(buf: &mut Vec<u8>, v: &Txattrwalk<'a>) -> (r: Result<(), ProtoError>)
    ensures
        r == err_result(enc_err_txattrwalk(v@)),
        r is Ok ==> final(buf)@ == old(buf)@ + enc_txattrwalk(v@),
        old(buf)@.is_prefix_of(final(buf)@),
{
    let ghost b0 = buf@;
    encode_u32(buf, v.fid);
    encode_u32(buf, v.new_fid);
    encode_str(buf, cow_str(&v.name))?;
    assert(buf@ =~= b0 + enc_txattrwalk(v@));
    Ok(())
}

/// A `Rxattrwalk` on the wire: its fields in order.
pub open spec fn enc_rxattrwalk(v: Rxattrwalk) -> Seq<u8> {
    le64(v.size)
}

/// The values whose encoding parses back to them.
pub open spec fn valid_rxattrwalk(v: Rxattrwalk) -> bool {
    true
}

/// The error that encoding gives, if any: that of the first field that
/// cannot be encoded.
pub open spec fn enc_err_rxattrwalk(v: Rxattrwalk) -> Option<ProtoError> {
    None
}

/// Reads a `Rxattrwalk` off the front of the bytes.
pub open spec fn parse_rxattrwalk(s0: Seq<u8>) -> Option<(Rxattrwalk, Seq<u8>)> {
    match parse_u64(s0) { None => None, Some((x_size, s1)) =>
    Some((Rxattrwalk { size: x_size }, s1))
    }
}

/// Reading the encoding of a valid `Rxattrwalk` gives it back.
pub proof fn lemma_parse_rxattrwalk(v: Rxattrwalk, rest: Seq<u8>)
    requires
        valid_rxattrwalk(v),
    ensures
        parse_rxattrwalk(enc_rxattrwalk(v) + rest) == Some((v, rest)),
{
    let r0 = rest;
    lemma_parse_u64(v.size, r0);
    assert(enc_rxattrwalk(v) + rest =~= le64(v.size) + r0);
}

/// Appends a `Rxattrwalk` to `buf`.
pub fn encode_rxattrwalk(buf: &mut Vec<u8>, v: &Rxattrwalk) -> (r: Result<(), ProtoError>)
    ensures
        r == err_result(enc_err_rxattrwalk(v@)),
        r is Ok ==> final(buf)@ == old(buf)@ + enc_rxattrwalk(v@),
        old(buf)@.is_prefix_of(final(buf)@),
{
    let ghost b0 = buf@;
    encode_u64(buf, v.size);
    assert(buf@ =~= b0 + enc_rxattrwalk(v@));
    Ok(())
}

/// A `Txattrcreate` on the wire: its fields in order.
pub open spec fn enc_txattrcreate(v: SpecTxattrcreate) -> Seq<u8> {
    le32(v.fid) + enc_str(v.name) + le64(v.attr_size) + le32(v.flags)
}

/// The values whose encoding parses back to them.
pub open spec fn valid_txattrcreate(v: SpecTxattrcreate) -> bool {
    str_fits(v.name)
}

/// The error that encoding gives, if any: that of the first field that
/// cannot be encoded.
pub open spec fn enc_err_txattrcreate(v: SpecTxattrcreate) -> Option<ProtoError> {
    str_err(v.name)
}

/// Reads a `Txattrcreate` off the front of the bytes.
pub open spec fn parse_txattrcreate(s0: Seq<u8>) -> Option<(SpecTxattrcreate, Seq<u8>)> {
    match parse_u32(s0) { None => None, Some((x_fid, s1)) =>
    match parse_str(s1) { None => None, Some((x_name, s2)) =>
    match parse_u64(s2) { None => None, Some((x_attr_size, s3)) =>
    match parse_u32(s3) { None => None, Some((x_flags, s4)) =>
    Some((SpecTxattrcreate { fid: x_fid, name: x_name, attr_size: x_attr_size, flags: x_flags }, s4))
    }}}}
}

/// Reading the encoding of a valid `Txattrcreate` gives it back.
pub proof fn lemma_parse_txattrcreate(v: SpecTxattrcreate, rest: Seq<u8>)
    requires
        valid_txattrcreate(v),
    ensures
        parse_txattrcreate(enc_txattrcreate(v) + rest) == Some((v, rest)),
{
    let r3 = rest;
    let r2 = le32(v.flags) + r3;
    let r1 = le64(v.attr_size) + r2;
    let r0 = enc_str(v.name) + r1;
    lemma_parse_u32(v.fid, r0);
    lemma_parse_str(v.name, r1);
    lemma_parse_u64(v.attr_size, r2);
    lemma_parse_u32(v.flags, r3);
    assert(enc_txattrcreate(v) + rest =~= le32(v.fid) + r0);
}

/// Appends a `Txattrcreate` to `buf`.
pub fn encode_txattrcreate<'a>(buf: &mut Vec<u8>, v: &Txattrcreate<'a>) -> (r: Result<(), ProtoError>)
    ensures
        r == err_result(enc_err_txattrcreate(v@)),
        r is Ok ==> final(buf)@ == old(buf)@ + enc_txattrcreate(v@),
        old(buf)@.is_prefix_of(final(buf)@),
{
    let ghost b0 = buf@;
    encode_u32(buf, v.fid);
    encode_str(buf, cow_str(&v.name))?;
    encode_u64(buf, v.attr_size);
    encode_u32(buf, v.flags);
    assert(buf@ =~= b0 + enc_txattrcreate(v@));
    Ok(())
}

/// A `Rxattrcreate` on the wire: its fields in order.
pub open spec fn enc_rxattrcreate(v: Rxattrcreate) -> Seq<u8> {
    Seq::empty()
}

/// The values whose encoding parses back to them.
pub open spec fn valid_rxattrcreate(v: Rxattrcreate) -> bool {
    true
}

/// The error that encoding gives, if any: that of the first field that
/// cannot be encoded.
pub open spec fn enc_err_rxattrcreate(v: Rxattrcreate) -> Option<ProtoError> {
    None
}

/// Reads a `Rxattrcreate` off the front of the bytes.
pub open spec fn parse_rxattrcreate(s0: Seq<u8>) -> Option<(Rxattrcreate, Seq<u8>)> {
    Some((Rxattrcreate {}, s0))
}

/// Reading the encoding of a valid `Rxattrcreate` gives it back.
pub proof fn lemma_parse_rxattrcreate(v: Rxattrcreate, rest: Seq<u8>)
    requires
        valid_rxattrcreate(v),
    ensures
        parse_rxattrcreate(enc_rxattrcreate(v) + rest) == Some((v, rest)),
{
    assert(enc_rxattrcreate(v) + rest =~= rest);
}

/// Appends a `Rxattrcreate` to `buf`.
pub fn encode_rxattrcreate(buf: &mut Vec<u8>, v: &Rxattrcreate) -> (r: Result<(), ProtoError>)
    ensures
        r == err_result(enc_err_rxattrcreate(v@)),
        r is Ok ==> final(buf)@ == old(buf)@ + enc_rxattrcreate(v@),
        old(buf)@.is_prefix_of(final(buf)@),
{
    let ghost b0 = buf@;
    assert(buf@ =~= b0 + enc_rxattrcreate(v@));
    Ok(())
}

/// A `Treaddir` on the wire: its fields in order.
pub open spec fn enc_treaddir(v: Treaddir) -> Seq<u8> {
    le32(v.fid) + le64(v.offset) + le32(v.count)
}

/// The values whose encoding parses back to them.
pub open spec fn valid_treaddir(v: Treaddir) -> bool {
    true
}

/// The error that encoding gives, if any: that of the first field that
/// cannot be encoded.
pub open spec fn enc_err_treaddir(v: Treaddir) -> Option<ProtoError> {
    None
}

/// Reads a `Treaddir` off the front of the bytes.
pub open spec fn parse_treaddir(s0: Seq<u8>) -> Option<(Treaddir, Seq<u8>)> {
    match parse_u32(s0) { None => None, Some((x_fid, s1)) =>
    match parse_u64(s1) { None => None, Some((x_offset, s2)) =>
    match parse_u32(s2) { None => None, Some((x_count, s3)) =>
    Some((Treaddir { fid: x_fid, offset: x_offset, count: x_count }, s3))
    }}}
}

/// Reading the encoding of a valid `Treaddir` gives it back.
pub proof fn lemma_parse_treaddir(v: Treaddir, rest: Seq<u8>)
    requires
        valid_treaddir(v),
    ensures
        parse_treaddir(enc_treaddir(v) + rest) == Some((v, rest)),
{
    let r2 = rest;
    let r1 = le32(v.count) + r2;
    let r0 = le64(v.offset) + r1;
    lemma_parse_u32(v.fid, r0);
    lemma_parse_u64(v.offset, r1);
    lemma_parse_u32(v.count, r2);
    assert(enc_treaddir(v) + rest =~= le32(v.fid) + r0);
}

/// Appends a `Treaddir` to `buf`.
pub fn encode_treaddir(buf: &mut Vec<u8>, v: &Treaddir) -> (r: Result<(), ProtoError>)
    ensures
        r == err_result(enc_err_treaddir(v@)),
        r is Ok ==> final(buf)@ == old(buf)@ + enc_treaddir(v@),
        old(buf)@.is_prefix_of(final(buf)@),
{
    let ghost b0 = buf@;
    encode_u32(buf, v.fid);
    encode_u64(buf, v.offset);
    encode_u32(buf, v.count);
    assert(buf@ =~= b0 + enc_treaddir(v@));
    Ok(())
}

/// A `Rreaddir` on the wire: its fields in order.
pub open spec fn enc_rreaddir(v: SpecRreaddir) -> Seq<u8> {
    enc_direntrydata(v.data)
}

/// The values whose encoding parses back to them.
pub open spec fn valid_rreaddir(v: SpecRreaddir) -> bool {
    valid_direntrydata(v.data)
}

/// The error that encoding gives, if any: that of the first field that
/// cannot be encoded.
pub open spec fn enc_err_rreaddir(v: SpecRreaddir) -> Option<ProtoError> {
    enc_err_direntrydata(v.data)
}

/// Reads a `Rreaddir` off the front of the bytes.
pub open spec fn parse_rreaddir(s0: Seq<u8>) -> Option<(SpecRreaddir, Seq<u8>)> {
    match parse_direntrydata(s0) { None => None, Some((x_data, s1)) =>
    Some((SpecRreaddir { data: x_data }, s1))
    }
}

/// Reading the encoding of a valid `Rreaddir` gives it back.
pub proof fn lemma_parse_rreaddir(v: SpecRreaddir, rest: Seq<u8>)
    requires
        valid_rreaddir(v),
    ensures
        parse_rreaddir(enc_rreaddir(v) + rest) == Some((v, rest)),
{
    let r0 = rest;
    lemma_parse_direntrydata(v.data, r0);
    assert(enc_rreaddir(v) + rest =~= enc_direntrydata(v.data) + r0);
}

/// Appends a `Rreaddir` to `buf`.
pub fn encode_rreaddir<'a>(buf: &mut Vec<u8>, v: &Rreaddir<'a>) -> (r: Result<(), ProtoError>)
    ensures
        r == err_result(enc_err_rreaddir(v@)),
        r is Ok ==> final(buf)@ == old(buf)@ + enc_rreaddir(v@),
        old(buf)@.is_prefix_of(final(buf)@),
{
    let ghost b0 = buf@;
    encode_direntrydata(buf, &v.data)?;
    assert(buf@ =~= b0 + enc_rreaddir(v@));
    Ok(())
}

/// A `Tfsync` on the wire: its fields in order.
pub open spec fn enc_tfsync(v: Tfsync) -> Seq<u8> {
    le32(v.fid)
}

/// The values whose encoding parses back to them.
pub open spec fn valid_tfsync(v: Tfsync) -> bool {
    true
}

/// The error that encoding gives, if any: that of the first field that
/// cannot be encoded.
pub open spec fn enc_err_tfsync(v: Tfsync) -> Option<ProtoError> {
    None
}

/// Reads a `Tfsync` off the front of the bytes.
pub open spec fn parse_tfsync(s0: Seq<u8>) -> Option<(Tfsync, Seq<u8>)> {
    match parse_u32(s0) { None => None, Some((x_fid, s1)) =>
    Some((Tfsync { fid: x_fid }, s1))
    }
}

/// Reading the encoding of a valid `Tfsync` gives it back.
pub proof fn lemma_parse_tfsync(v: Tfsync, rest: Seq<u8>)
    requires
        valid_tfsync(v),
    ensures
        parse_tfsync(enc_tfsync(v) + rest) == Some((v, rest)),
{
    let r0 = rest;
    lemma_parse_u32(v.fid, r0);
    assert(enc_tfsync(v) + rest =~= le32(v.fid) + r0);
}

/// Appends a `Tfsync` to `buf`.
pub fn encode_tfsync(buf: &mut Vec<u8>, v: &Tfsync) -> (r: Result<(), ProtoError>)
    ensures
        r == err_result(enc_err_tfsync(v@)),
        r is Ok ==> final(buf)@ == old(buf)@ + enc_tfsync(v@),
        old(buf)@.is_prefix_of(final(buf)@),
{
    let ghost b0 = buf@;
    encode_u32(buf, v.fid);
    assert(buf@ =~= b0 + enc_tfsync(v@));
    Ok(())
}

/// A `Rfsync` on the wire: its fields in order.
pub open spec fn enc_rfsync(v: Rfsync) -> Seq<u8> {
    Seq::empty()
}

/// The values whose encoding parses back to them.
pub open spec fn valid_rfsync(v: Rfsync) -> bool {
    true
}

/// The error that encoding gives, if any: that of the first field that
/// cannot be encoded.
pub open spec fn enc_err_rfsync(v: Rfsync) -> Option<ProtoError> {
    None
}

/// Reads a `Rfsync` off the front of the bytes.
pub open spec fn parse_rfsync(s0: Seq<u8>) -> Option<(Rfsync, Seq<u8>)> {
    Some((Rfsync {}, s0))
}

/// Reading the encoding of a valid `Rfsync` gives it back.
pub proof fn lemma_parse_rfsync(v: Rfsync, rest: Seq<u8>)
    requires
        valid_rfsync(v),
    ensures
        parse_rfsync(enc_rfsync(v) + rest) == Some((v, rest)),
{
    assert(enc_rfsync(v) + rest =~= rest);
}

/// Appends a `Rfsync` to `buf`.
pub fn encode_rfsync(buf: &mut Vec<u8>, v: &Rfsync) -> (r: Result<(), ProtoError>)
    ensures
        r == err_result(enc_err_rfsync(v@)),
        r is Ok ==> final(buf)@ == old(buf)@ + enc_rfsync(v@),
        old(buf)@.is_prefix_of(final(buf)@),
{
    let ghost b0 = buf@;
    assert(buf@ =~= b0 + enc_rfsync(v@));
    Ok(())
}

/// A `Tlock` on the wire: its fields in order.
pub open spec fn enc_tlock(v: SpecTlock) -> Seq<u8> {
    le32(v.fid) + enc_flock(v.flock)
}

/// The values whose encoding parses back to them.
pub open spec fn valid_tlock(v: SpecTlock) -> bool {
    valid_flock(v.flock)
}

/// The error that encoding gives, if any: that of the first field that
/// cannot be encoded.
pub open spec fn enc_err_tlock(v: SpecTlock) -> Option<ProtoError> {
    enc_err_flock(v.flock)
}

/// Reads a `Tlock` off the front of the bytes.
pub open spec fn parse_tlock(s0: Seq<u8>) -> Option<(SpecTlock, Seq<u8>)> {
    match parse_u32(s0) { None => None, Some((x_fid, s1)) =>
    match parse_flock(s1) { None => None, Some((x_flock, s2)) =>
    Some((SpecTlock { fid: x_fid, flock: x_flock }, s2))
    }}
}

/// Reading the encoding of a valid `Tlock` gives it back.
pub proof fn lemma_parse_tlock(v: SpecTlock, rest: Seq<u8>)
    requires
        valid_tlock(v),
    ensures
        parse_tlock(enc_tlock(v) + rest) == Some((v, rest)),
{
    let r1 = rest;
    let r0 = enc_flock(v.flock) + r1;
    lemma_parse_u32(v.fid, r0);
    lemma_parse_flock(v.flock, r1);
    assert(enc_tlock(v) + rest =~= le32(v.fid) + r0);
}

/// Appends a `Tlock` to `buf`.
pub fn encode_tlock<'a>(buf: &mut Vec<u8>, v: &Tlock<'a>) -> (r: Result<(), ProtoError>)
    ensures
        r == err_result(enc_err_tlock(v@)),
        r is Ok ==> final(buf)@ == old(buf)@ + enc_tlock(v@),
        old(buf)@.is_prefix_of(final(buf)@),
{
    let ghost b0 = buf@;
    encode_u32(buf, v.fid);
    encode_flock(buf, &v.flock)?;
    assert(buf@ =~= b0 + enc_tlock(v@));
    Ok(())
}

/// A `Rlock` on the wire: its fields in order.
pub open spec fn enc_rlock(v: Rlock) -> Seq<u8> {
    enc_lockstatus(v.status)
}

/// The values whose encoding parses back to them.
pub open spec fn valid_rlock(v: Rlock) -> bool {
    v.status.wf()
}

/// The error that encoding gives, if any: that of the first field that
/// cannot be encoded.
pub open spec fn enc_err_rlock(v: Rlock) -> Option<ProtoError> {
    None
}

/// Reads a `Rlock` off the front of the bytes.
pub open spec fn parse_rlock(s0: Seq<u8>) -> Option<(Rlock, Seq<u8>)> {
    match parse_lockstatus(s0) { None => None, Some((x_status, s1)) =>
    Some((Rlock { status: x_status }, s1))
    }
}

/// Reading the encoding of a valid `Rlock` gives it back.
pub proof fn lemma_parse_rlock(v: Rlock, rest: Seq<u8>)
    requires
        valid_rlock(v),
    ensures
        parse_rlock(enc_rlock(v) + rest) == Some((v, rest)),
{
    let r0 = rest;
    lemma_parse_lockstatus(v.status, r0);
    assert(enc_rlock(v) + rest =~= enc_lockstatus(v.status) + r0);
}

/// Appends a `Rlock` to `buf`.
pub fn encode_rlock(buf: &mut Vec<u8>, v: &Rlock) -> (r: Result<(), ProtoError>)
    ensures
        r == err_result(enc_err_rlock(v@)),
        r is Ok ==> final(buf)@ == old(buf)@ + enc_rlock(v@),
        old(buf)@.is_prefix_of(final(buf)@),
{
    let ghost b0 = buf@;
    encode_lockstatus(buf, &v.status);
    assert(buf@ =~= b0 + enc_rlock(v@));
    Ok(())
}

/// A `Tgetlock` on the wire: its fields in order.
pub open spec fn enc_tgetlock(v: SpecTgetlock) -> Seq<u8> {
    le32(v.fid) + enc_getlock(v.flock)
}

/// The values whose encoding parses back to them.
pub open spec fn valid_tgetlock(v: SpecTgetlock) -> bool {
    valid_getlock(v.flock)
}

/// The error that encoding gives, if any: that of the first field that
/// cannot be encoded.
pub open spec fn enc_err_tgetlock(v: SpecTgetlock) -> Option<ProtoError> {
    enc_err_getlock(v.flock)
}

/// Reads a `Tgetlock` off the front of the bytes.
pub open spec fn parse_tgetlock(s0: Seq<u8>) -> Option<(SpecTgetlock, Seq<u8>)> {
    match parse_u32(s0) { None => None, Some((x_fid, s1)) =>
    match parse_getlock(s1) { None => None, Some((x_flock, s2)) =>
    Some((SpecTgetlock { fid: x_fid, flock: x_flock }, s2))
    }}
}

/// Reading the encoding of a valid `Tgetlock` gives it back.
pub proof fn lemma_parse_tgetlock(v: SpecTgetlock, rest: Seq<u8>)
    requires
        valid_tgetlock(v),
    ensures
        parse_tgetlock(enc_tgetlock(v) + rest) == Some((v, rest)),
{
    let r1 = rest;
    let r0 = enc_getlock(v.flock) + r1;
    lemma_parse_u32(v.fid, r0);
    lemma_parse_getlock(v.flock, r1);
    assert(enc_tgetlock(v) + rest =~= le32(v.fid) + r0);
}

/// Appends a `Tgetlock` to `buf`.
pub fn encode_tgetlock<'a>(buf: &mut Vec<u8>, v: &Tgetlock<'a>) -> (r: Result<(), ProtoError>)
    ensures
        r == err_result(enc_err_tgetlock(v@)),
        r is Ok ==> final(buf)@ == old(buf)@ + enc_tgetlock(v@),
        old(buf)@.is_prefix_of(final(buf)@),
{
    let ghost b0 = buf@;
    encode_u32(buf, v.fid);
    encode_getlock(buf, &v.flock)?;
    assert(buf@ =~= b0 + enc_tgetlock(v@));
    Ok(())
}

/// A `Rgetlock` on the wire: its fields in order.
pub open spec fn enc_rgetlock(v: SpecRgetlock) -> Seq<u8> {
    enc_getlock(v.flock)
}

/// The values whose encoding parses back to them.
pub open spec fn valid_rgetlock(v: SpecRgetlock) -> bool {
    valid_getlock(v.flock)
}

/// The error that encoding gives, if any: that of the first field that
/// cannot be encoded.
pub open spec fn enc_err_rgetlock(v: SpecRgetlock) -> Option<ProtoError> {
    enc_err_getlock(v.flock)
}

/// Reads a `Rgetlock` off the front of the bytes.
pub open spec fn parse_rgetlock(s0: Seq<u8>) -> Option<(SpecRgetlock, Seq<u8>)> {
    match parse_getlock(s0) { None => None, Some((x_flock, s1)) =>
    Some((SpecRgetlock { flock: x_flock }, s1))
    }
}

/// Reading the encoding of a valid `Rgetlock` gives it back.
pub proof fn lemma_parse_rgetlock(v: SpecRgetlock, rest: Seq<u8>)
    requires
        valid_rgetlock(v),
    ensures
        parse_rgetlock(enc_rgetlock(v) + rest) == Some((v, rest)),
{
    let r0 = rest;
    lemma_parse_getlock(v.flock, r0);
    assert(enc_rgetlock(v) + rest =~= enc_getlock(v.flock) + r0);
}

/// Appends a `Rgetlock` to `buf`.
pub fn encode_rgetlock<'a>(buf: &mut Vec<u8>, v: &Rgetlock<'a>) -> (r: Result<(), ProtoError>)
    ensures
        r == err_result(enc_err_rgetlock(v@)),
        r is Ok ==> final(buf)@ == old(buf)@ + enc_rgetlock(v@),
        old(buf)@.is_prefix_of(final(buf)@),
{
    let ghost b0 = buf@;
    encode_getlock(buf, &v.flock)?;
    assert(buf@ =~= b0 + enc_rgetlock(v@));
    Ok(())
}

/// A `Tlink` on the wire: its fields in order.
pub open spec fn enc_tlink(v: SpecTlink) -> Seq<u8> {
    le32(v.dfid) + le32(v.fid) + enc_str(v.name)
}

/// The values whose encoding parses back to them.
pub open spec fn valid_tlink(v: SpecTlink) -> bool {
    str_fits(v.name)
}

/// The error that encoding gives, if any: that of the first field that
/// cannot be encoded.
pub open spec fn enc_err_tlink(v: SpecTlink) -> Option<ProtoError> {
    str_err(v.name)
}

/// Reads a `Tlink` off the front of the bytes.
pub open spec fn parse_tlink(s0: Seq<u8>) -> Option<(SpecTlink, Seq<u8>)> {
    match parse_u32(s0) { None => None, Some((x_dfid, s1)) =>
    match parse_u32(s1) { None => None, Some((x_fid, s2)) =>
    match parse_str(s2) { None => None, Some((x_name, s3)) =>
    Some((SpecTlink { dfid: x_dfid, fid: x_fid, name: x_name }, s3))
    }}}
}

/// Reading the encoding of a valid `Tlink` gives it back.
pub proof fn lemma_parse_tlink(v: SpecTlink, rest: Seq<u8>)
    requires
        valid_tlink(v),
    ensures
        parse_tlink(enc_tlink(v) + rest) == Some((v, rest)),
{
    let r2 = rest;
    let r1 = enc_str(v.name) + r2;
    let r0 = le32(v.fid) + r1;
    lemma_parse_u32(v.dfid, r0);
    lemma_parse_u32(v.fid, r1);
    lemma_parse_str(v.name, r2);
    assert(enc_tlink(v) + rest =~= le32(v.dfid) + r0);
}

/// Appends a `Tlink` to `buf`.
pub fn encode_tlink<'a>(buf: &mut Vec<u8>, v: &Tlink<'a>) -> (r: Result<(), ProtoError>)
    ensures
        r == err_result(enc_err_tlink(v@)),
        r is Ok ==> final(buf)@ == old(buf)@ + enc_tlink(v@),
        old(buf)@.is_prefix_of(final(buf)@),
{
    let ghost b0 = buf@;
    encode_u32(buf, v.dfid);
    encode_u32(buf, v.fid);
    encode_str(buf, cow_str(&v.name))?;
    assert(buf@ =~= b0 + enc_tlink(v@));
    Ok(())
}

/// A `Rlink` on the wire: its fields in order.
pub open spec fn enc_rlink(v: Rlink) -> Seq<u8> {
    Seq::empty()
}

/// The values whose encoding parses back to them.
pub open spec fn valid_rlink(v: Rlink) -> bool {
    true
}

/// The error that encoding gives, if any: that of the first field that
/// cannot be encoded.
pub open spec fn enc_err_rlink(v: Rlink) -> Option<ProtoError> {
    None
}

/// Reads a `Rlink` off the front of the bytes.
pub open spec fn parse_rlink(s0: Seq<u8>) -> Option<(Rlink, Seq<u8>)> {
    Some((Rlink {}, s0))
}

/// Reading the encoding of a valid `Rlink` gives it back.
pub proof fn lemma_parse_rlink(v: Rlink, rest: Seq<u8>)
    requires
        valid_rlink(v),
    ensures
        parse_rlink(enc_rlink(v) + rest) == Some((v, rest)),
{
    assert(enc_rlink(v) + rest =~= rest);
}

/// Appends a `Rlink` to `buf`.
pub fn encode_rlink(buf: &mut Vec<u8>, v: &Rlink) -> (r: Result<(), ProtoError>)
    ensures
        r == err_result(enc_err_rlink(v@)),
        r is Ok ==> final(buf)@ == old(buf)@ + enc_rlink(v@),
        old(buf)@.is_prefix_of(final(buf)@),
{
    let ghost b0 = buf@;
    assert(buf@ =~= b0 + enc_rlink(v@));
    Ok(())
}

/// A `Tmkdir` on the wire: its fields in order.
pub open spec fn enc_tmkdir(v: SpecTmkdir) -> Seq<u8> {
    le32(v.dfid) + enc_str(v.name) + le32(v.mode) + le32(v.gid)
}

/// The values whose encoding parses back to them.
pub open spec fn valid_tmkdir(v: SpecTmkdir) -> bool {
    str_fits(v.name)
}

/// The error that encoding gives, if any: that of the first field that
/// cannot be encoded.
pub open spec fn enc_err_tmkdir(v: SpecTmkdir) -> Option<ProtoError> {
    str_err(v.name)
}

/// Reads a `Tmkdir` off the front of the bytes.
pub open spec fn parse_tmkdir(s0: Seq<u8>) -> Option<(SpecTmkdir, Seq<u8>)> {
    match parse_u32(s0) { None => None, Some((x_dfid, s1)) =>
    match parse_str(s1) { None => None, Some((x_name, s2)) =>
    match parse_u32(s2) { None => None, Some((x_mode, s3)) =>
    match parse_u32(s3) { None => None, Some((x_gid, s4)) =>
    Some((SpecTmkdir { dfid: x_dfid, name: x_name, mode: x_mode, gid: x_gid }, s4))
    }}}}
}

/// Reading the encoding of a valid `Tmkdir` gives it back.
pub proof fn lemma_parse_tmkdir(v: SpecTmkdir, rest: Seq<u8>)
    requires
        valid_tmkdir(v),
    ensures
        parse_tmkdir(enc_tmkdir(v) + rest) == Some((v, rest)),
{
    let r3 = rest;
    let r2 = le32(v.gid) + r3;
    let r1 = le32(v.mode) + r2;
    let r0 = enc_str(v.name) + r1;
    lemma_parse_u32(v.dfid, r0);
    lemma_parse_str(v.name, r1);
    lemma_parse_u32(v.mode, r2);
    lemma_parse_u32(v.gid, r3);
    assert(enc_tmkdir(v) + rest =~= le32(v.dfid) + r0);
}

/// Appends a `Tmkdir` to `buf`.
pub fn encode_tmkdir<'a>(buf: &mut Vec<u8>, v: &Tmkdir<'a>) -> (r: Result<(), ProtoError>)
    ensures
        r == err_result(enc_err_tmkdir(v@)),
        r is Ok ==> final(buf)@ == old(buf)@ + enc_tmkdir(v@),
        old(buf)@.is_prefix_of(final(buf)@),
{
    let ghost b0 = buf@;
    encode_u32(buf, v.dfid);
    encode_str(buf, cow_str(&v.name))?;
    encode_u32(buf, v.mode);
    encode_u32(buf, v.gid);
    assert(buf@ =~= b0 + enc_tmkdir(v@));
    Ok(())
}

/// A `Rmkdir` on the wire: its fields in order.
pub open spec fn enc_rmkdir(v: Rmkdir) -> Seq<u8> {
    enc_qid(v.qid)
}

/// The values whose encoding parses back to them.
pub open spec fn valid_rmkdir(v: Rmkdir) -> bool {
    valid_qid(v.qid)
}

/// The error that encoding gives, if any: that of the first field that
/// cannot be encoded.
pub open spec fn enc_err_rmkdir(v: Rmkdir) -> Option<ProtoError> {
    None
}

/// Reads a `Rmkdir` off the front of the bytes.
pub open spec fn parse_rmkdir(s0: Seq<u8>) -> Option<(Rmkdir, Seq<u8>)> {
    match parse_qid(s0) { None => None, Some((x_qid, s1)) =>
    Some((Rmkdir { qid: x_qid }, s1))
    }
}

/// Reading the encoding of a valid `Rmkdir` gives it back.
pub proof fn lemma_parse_rmkdir(v: Rmkdir, rest: Seq<u8>)
    requires
        valid_rmkdir(v),
    ensures
        parse_rmkdir(enc_rmkdir(v) + rest) == Some((v, rest)),
{
    let r0 = rest;
    lemma_parse_qid(v.qid, r0);
    assert(enc_rmkdir(v) + rest =~= enc_qid(v.qid) + r0);
}

/// Appends a `Rmkdir` to `buf`.
pub fn encode_rmkdir(buf: &mut Vec<u8>, v: &Rmkdir) -> (r: Result<(), ProtoError>)
    ensures
        r == err_result(enc_err_rmkdir(v@)),
        r is Ok ==> final(buf)@ == old(buf)@ + enc_rmkdir(v@),
        old(buf)@.is_prefix_of(final(buf)@),
{
    let ghost b0 = buf@;
    encode_qid(buf, &v.qid);
    assert(buf@ =~= b0 + enc_rmkdir(v@));
    Ok(())
}

/// A `Trenameat` on the wire: its fields in order.
pub open spec fn enc_trenameat(v: SpecTrenameat) -> Seq<u8> {
    le32(v.olddfid) + enc_str(v.oldname) + le32(v.newdfid) + enc_str(v.newname)
}

/// The values whose encoding parses back to them.
pub open spec fn valid_trenameat(v: SpecTrenameat) -> bool {
    str_fits(v.oldname)
    && str_fits(v.newname)
}

/// The error that encoding gives, if any: that of the first field that
/// cannot be encoded.
pub open spec fn enc_err_trenameat(v: SpecTrenameat) -> Option<ProtoError> {
    or_err(str_err(v.oldname), str_err(v.newname))
}

/// Reads a `Trenameat` off the front of the bytes.
pub open spec fn parse_trenameat(s0: Seq<u8>) -> Option<(SpecTrenameat, Seq<u8>)> {
    match parse_u32(s0) { None => None, Some((x_olddfid, s1)) =>
    match parse_str(s1) { None => None, Some((x_oldname, s2)) =>
    match parse_u32(s2) { None => None, Some((x_newdfid, s3)) =>
    match parse_str(s3) { None => None, Some((x_newname, s4)) =>
    Some((SpecTrenameat { olddfid: x_olddfid, oldname: x_oldname, newdfid: x_newdfid, newname: x_newname }, s4))
    }}}}
}

/// Reading the encoding of a valid `Trenameat` gives it back.
pub proof fn lemma_parse_trenameat(v: SpecTrenameat, rest: Seq<u8>)
    requires
        valid_trenameat(v),
    ensures
        parse_trenameat(enc_trenameat(v) + rest) == Some((v, rest)),
{
    let r3 = rest;
    let r2 = enc_str(v.newname) + r3;
    let r1 = le32(v.newdfid) + r2;
    let r0 = enc_str(v.oldname) + r1;
    lemma_parse_u32(v.olddfid, r0);
    lemma_parse_str(v.oldname, r1);
    lemma_parse_u32(v.newdfid, r2);
    lemma_parse_str(v.newname, r3);
    assert(enc_trenameat(v) + rest =~= le32(v.olddfid) + r0);
}

/// Appends a `Trenameat` to `buf`.
pub fn encode_trenameat<'a>(buf: &mut Vec<u8>, v: &Trenameat<'a>) -> (r: Result<(), ProtoError>)
    ensures
        r == err_result(enc_err_trenameat(v@)),
        r is Ok ==> final(buf)@ == old(buf)@ + enc_trenameat(v@),
        old(buf)@.is_prefix_of(final(buf)@),
{
    let ghost b0 = buf@;
    encode_u32(buf, v.olddfid);
    encode_str(buf, cow_str(&v.oldname))?;
    encode_u32(buf, v.newdfid);
    encode_str(buf, cow_str(&v.newname))?;
    assert(buf@ =~= b0 + enc_trenameat(v@));
    Ok(())
}

/// A `Rrenameat` on the wire: its fields in order.
pub open spec fn enc_rrenameat(v: Rrenameat) -> Seq<u8> {
    Seq::empty()
}

/// The values whose encoding parses back to them.
pub open spec fn valid_rrenameat(v: Rrenameat) -> bool {
    true
}

/// The error that encoding gives, if any: that of the first field that
/// cannot be encoded.
pub open spec fn enc_err_rrenameat(v: Rrenameat) -> Option<ProtoError> {
    None
}

/// Reads a `Rrenameat` off the front of the bytes.
pub open spec fn parse_rrenameat(s0: Seq<u8>) -> Option<(Rrenameat, Seq<u8>)> {
    Some((Rrenameat {}, s0))
}

/// Reading the encoding of a valid `Rrenameat` gives it back.
pub proof fn lemma_parse_rrenameat(v: Rrenameat, rest: Seq<u8>)
    requires
        valid_rrenameat(v),
    ensures
        parse_rrenameat(enc_rrenameat(v) + rest) == Some((v, rest)),
{
    assert(enc_rrenameat(v) + rest =~= rest);
}

/// Appends a `Rrenameat` to `buf`.
pub fn encode_rrenameat(buf: &mut Vec<u8>, v: &Rrenameat) -> (r: Result<(), ProtoError>)
    ensures
        r == err_result(enc_err_rrenameat(v@)),
        r is Ok ==> final(buf)@ == old(buf)@ + enc_rrenameat(v@),
        old(buf)@.is_prefix_of(final(buf)@),
{
    let ghost b0 = buf@;
    assert(buf@ =~= b0 + enc_rrenameat(v@));
    Ok(())
}

/// A `Tunlinkat` on the wire: its fields in order.
pub open spec fn enc_tunlinkat(v: SpecTunlinkat) -> Seq<u8> {
    le32(v.dfid) + enc_str(v.name) + le32(v.flags)
}

/// The values whose encoding parses back to them.
pub open spec fn valid_tunlinkat(v: SpecTunlinkat) -> bool {
    str_fits(v.name)
}

/// The error that encoding gives, if any: that of the first field that
/// cannot be encoded.
pub open spec fn enc_err_tunlinkat(v: SpecTunlinkat) -> Option<ProtoError> {
    str_err(v.name)
}

/// Reads a `Tunlinkat` off the front of the bytes.
pub open spec fn parse_tunlinkat(s0: Seq<u8>) -> Option<(SpecTunlinkat, Seq<u8>)> {
    match parse_u32(s0) { None => None, Some((x_dfid, s1)) =>
    match parse_str(s1) { None => None, Some((x_name, s2)) =>
    match parse_u32(s2) { None => None, Some((x_flags, s3)) =>
    Some((SpecTunlinkat { dfid: x_dfid, name: x_name, flags: x_flags }, s3))
    }}}
}

/// Reading the encoding of a valid `Tunlinkat` gives it back.
pub proof fn lemma_parse_tunlinkat(v: SpecTunlinkat, rest: Seq<u8>)
    requires
        valid_tunlinkat(v),
    ensures
        parse_tunlinkat(enc_tunlinkat(v) + rest) == Some((v, rest)),
{
    let r2 = rest;
    let r1 = le32(v.flags) + r2;
    let r0 = enc_str(v.name) + r1;
    lemma_parse_u32(v.dfid, r0);
    lemma_parse_str(v.name, r1);
    lemma_parse_u32(v.flags, r2);
    assert(enc_tunlinkat(v) + rest =~= le32(v.dfid) + r0);
}

/// Appends a `Tunlinkat` to `buf`.
pub fn encode_tunlinkat<'a>(buf: &mut Vec<u8>, v: &Tunlinkat<'a>) -> (r: Result<(), ProtoError>)
    ensures
        r == err_result(enc_err_tunlinkat(v@)),
        r is Ok ==> final(buf)@ == old(buf)@ + enc_tunlinkat(v@),
        old(buf)@.is_prefix_of(final(buf)@),
{
    let ghost b0 = buf@;
    encode_u32(buf, v.dfid);
    encode_str(buf, cow_str(&v.name))?;
    encode_u32(buf, v.flags);
    assert(buf@ =~= b0 + enc_tunlinkat(v@));
    Ok(())
}

/// A `Runlinkat` on the wire: its fields in order.
pub open spec fn enc_runlinkat(v: Runlinkat) -> Seq<u8> {
    Seq::empty()
}

/// The values whose encoding parses back to them.
pub open spec fn valid_runlinkat(v: Runlinkat) -> bool {
    true
}

/// The error that encoding gives, if any: that of the first field that
/// cannot be encoded.
pub open spec fn enc_err_runlinkat(v: Runlinkat) -> Option<ProtoError> {
    None
}

/// Reads a `Runlinkat` off the front of the bytes.
pub open spec fn parse_runlinkat(s0: Seq<u8>) -> Option<(Runlinkat, Seq<u8>)> {
    Some((Runlinkat {}, s0))
}

/// Reading the encoding of a valid `Runlinkat` gives it back.
pub proof fn lemma_parse_runlinkat(v: Runlinkat, rest: Seq<u8>)
    requires
        valid_runlinkat(v),
    ensures
        parse_runlinkat(enc_runlinkat(v) + rest) == Some((v, rest)),
{
    assert(enc_runlinkat(v) + rest =~= rest);
}

/// Appends a `Runlinkat` to `buf`.
pub fn encode_runlinkat(buf: &mut Vec<u8>, v: &Runlinkat) -> (r: Result<(), ProtoError>)
    ensures
        r == err_result(enc_err_runlinkat(v@)),
        r is Ok ==> final(buf)@ == old(buf)@ + enc_runlinkat(v@),
        old(buf)@.is_prefix_of(final(buf)@),
{
    let ghost b0 = buf@;
    assert(buf@ =~= b0 + enc_runlinkat(v@));
    Ok(())
}

/// A `Tauth` on the wire: its fields in order.
pub open spec fn enc_tauth(v: SpecTauth) -> Seq<u8> {
    le32(v.afid) + enc_str(v.uname) + enc_str(v.aname) + le32(v.n_uname)
}

/// The values whose encoding parses back to them.
pub open spec fn valid_tauth(v: SpecTauth) -> bool {
    str_fits(v.uname)
    && str_fits(v.aname)
}

/// The error that encoding gives, if any: that of the first field that
/// cannot be encoded.
pub open spec fn enc_err_tauth(v: SpecTauth) -> Option<ProtoError> {
    or_err(str_err(v.uname), str_err(v.aname))
}

/// Reads a `Tauth` off the front of the bytes.
pub open spec fn parse_tauth(s0: Seq<u8>) -> Option<(SpecTauth, Seq<u8>)> {
    match parse_u32(s0) { None => None, Some((x_afid, s1)) =>
    match parse_str(s1) { None => None, Some((x_uname, s2)) =>
    match parse_str(s2) { None => None, Some((x_aname, s3)) =>
    match parse_u32(s3) { None => None, Some((x_n_uname, s4)) =>
    Some((SpecTauth { afid: x_afid, uname: x_uname, aname: x_aname, n_uname: x_n_uname }, s4))
    }}}}
}

/// Reading the encoding of a valid `Tauth` gives it back.
pub proof fn lemma_parse_tauth(v: SpecTauth, rest: Seq<u8>)
    requires
        valid_tauth(v),
    ensures
        parse_tauth(enc_tauth(v) + rest) == Some((v, rest)),
{
    let r3 = rest;
    let r2 = le32(v.n_uname) + r3;
    let r1 = enc_str(v.aname) + r2;
    let r0 = enc_str(v.uname) + r1;
    lemma_parse_u32(v.afid, r0);
    lemma_parse_str(v.uname, r1);
    lemma_parse_str(v.aname, r2);
    lemma_parse_u32(v.n_uname, r3);
    assert(enc_tauth(v) + rest =~= le32(v.afid) + r0);
}

/// Appends a `Tauth` to `buf`.
pub fn encode_tauth<'a>(buf: &mut Vec<u8>, v: &Tauth<'a>) -> (r: Result<(), ProtoError>)
    ensures
        r == err_result(enc_err_tauth(v@)),
        r is Ok ==> final(buf)@ == old(buf)@ + enc_tauth(v@),
        old(buf)@.is_prefix_of(final(buf)@),
{
    let ghost b0 = buf@;
    encode_u32(buf, v.afid);
    encode_str(buf, cow_str(&v.uname))?;
    encode_str(buf, cow_str(&v.aname))?;
    encode_u32(buf, v.n_uname);
    assert(buf@ =~= b0 + enc_tauth(v@));
    Ok(())
}

/// A `Rauth` on the wire: its fields in order.
pub open spec fn enc_rauth(v: Rauth) -> Seq<u8> {
    enc_qid(v.aqid)
}

/// The values whose encoding parses back to them.
pub open spec fn valid_rauth(v: Rauth) -> bool {
    valid_qid(v.aqid)
}

/// The error that encoding gives, if any: that of the first field that
/// cannot be encoded.
pub open spec fn enc_err_rauth(v: Rauth) -> Option<ProtoError> {
    None
}

/// Reads a `Rauth` off the front of the bytes.
pub open spec fn parse_rauth(s0: Seq<u8>) -> Option<(Rauth, Seq<u8>)> {
    match parse_qid(s0) { None => None, Some((x_aqid, s1)) =>
    Some((Rauth { aqid: x_aqid }, s1))
    }
}

/// Reading the encoding of a valid `Rauth` gives it back.
pub proof fn lemma_parse_rauth(v: Rauth, rest: Seq<u8>)
    requires
        valid_rauth(v),
    ensures
        parse_rauth(enc_rauth(v) + rest) == Some((v, rest)),
{
    let r0 = rest;
    lemma_parse_qid(v.aqid, r0);
    assert(enc_rauth(v) + rest =~= enc_qid(v.aqid) + r0);
}

/// Appends a `Rauth` to `buf`.
pub fn encode_rauth(buf: &mut Vec<u8>, v: &Rauth) -> (r: Result<(), ProtoError>)
    ensures
        r == err_result(enc_err_rauth(v@)),
        r is Ok ==> final(buf)@ == old(buf)@ + enc_rauth(v@),
        old(buf)@.is_prefix_of(final(buf)@),
{
    let ghost b0 = buf@;
    encode_qid(buf, &v.aqid);
    assert(buf@ =~= b0 + enc_rauth(v@));
    Ok(())
}

/// A `Tversion` on the wire: its fields in order.
pub open spec fn enc_tversion(v: SpecTversion) -> Seq<u8> {
    le32(v.msize) + enc_str(v.version)
}

/// The values whose encoding parses back to them.
pub open spec fn valid_tversion(v: SpecTversion) -> bool {
    str_fits(v.version)
}

/// The error that encoding gives, if any: that of the first field that
/// cannot be encoded.
pub open spec fn enc_err_tversion(v: SpecTversion) -> Option<ProtoError> {
    str_err(v.version)
}

/// Reads a `Tversion` off the front of the bytes.
pub open spec fn parse_tversion(s0: Seq<u8>) -> Option<(SpecTversion, Seq<u8>)> {
    match parse_u32(s0) { None => None, Some((x_msize, s1)) =>
    match parse_str(s1) { None => None, Some((x_version, s2)) =>
    Some((SpecTversion { msize: x_msize, version: x_version }, s2))
    }}
}

/// Reading the encoding of a valid `Tversion` gives it back.
pub proof fn lemma_parse_tversion(v: SpecTversion, rest: Seq<u8>)
    requires
        valid_tversion(v),
    ensures
        parse_tversion(enc_tversion(v) + rest) == Some((v, rest)),
{
    let r1 = rest;
    let r0 = enc_str(v.version) + r1;
    lemma_parse_u32(v.msize, r0);
    lemma_parse_str(v.version, r1);
    assert(enc_tversion(v) + rest =~= le32(v.msize) + r0);
}

/// Appends a `Tversion` to `buf`.
pub fn encode_tversion<'a>(buf: &mut Vec<u8>, v: &Tversion<'a>) -> (r: Result<(), ProtoError>)
    ensures
        r == err_result(enc_err_tversion(v@)),
        r is Ok ==> final(buf)@ == old(buf)@ + enc_tversion(v@),
        old(buf)@.is_prefix_of(final(buf)@),
{
    let ghost b0 = buf@;
    encode_u32(buf, v.msize);
    encode_str(buf, cow_str(&v.version))?;
    assert(buf@ =~= b0 + enc_tversion(v@));
    Ok(())
}

/// A `Rversion` on the wire: its fields in order.
pub open spec fn enc_rversion(v: SpecRversion) -> Seq<u8> {
    le32(v.msize) + enc_str(v.version)
}

/// The values whose encoding parses back to them.
pub open spec fn valid_rversion(v: SpecRversion) -> bool {
    str_fits(v.version)
}

/// The error that encoding gives, if any: that of the first field that
/// cannot be encoded.
pub open spec fn enc_err_rversion(v: SpecRversion) -> Option<ProtoError> {
    str_err(v.version)
}

/// Reads a `Rversion` off the front of the bytes.
pub open spec fn parse_rversion(s0: Seq<u8>) -> Option<(SpecRversion, Seq<u8>)> {
    match parse_u32(s0) { None => None, Some((x_msize, s1)) =>
    match parse_str(s1) { None => None, Some((x_version, s2)) =>
    Some((SpecRversion { msize: x_msize, version: x_version }, s2))
    }}
}

/// Reading the encoding of a valid `Rversion` gives it back.
pub proof fn lemma_parse_rversion(v: SpecRversion, rest: Seq<u8>)
    requires
        valid_rversion(v),
    ensures
        parse_rversion(enc_rversion(v) + rest) == Some((v, rest)),
{
    let r1 = rest;
    let r0 = enc_str(v.version) + r1;
    lemma_parse_u32(v.msize, r0);
    lemma_parse_str(v.version, r1);
    assert(enc_rversion(v) + rest =~= le32(v.msize) + r0);
}

/// Appends a `Rversion` to `buf`.
pub fn encode_rversion<'a>(buf: &mut Vec<u8>, v: &Rversion<'a>) -> (r: Result<(), ProtoError>)
    ensures
        r == err_result(enc_err_rversion(v@)),
        r is Ok ==> final(buf)@ == old(buf)@ + enc_rversion(v@),
        old(buf)@.is_prefix_of(final(buf)@),
{
    let ghost b0 = buf@;
    encode_u32(buf, v.msize);
    encode_str(buf, cow_str(&v.version))?;
    assert(buf@ =~= b0 + enc_rversion(v@));
    Ok(())
}

/// A `Tflush` on the wire: its fields in order.
pub open spec fn enc_tflush(v: Tflush) -> Seq<u8> {
    le16(v.oldtag)
}

/// The values whose encoding parses back to them.
pub open spec fn valid_tflush(v: Tflush) -> bool {
    true
}

/// The error that encoding gives, if any: that of the first field that
/// cannot be encoded.
pub open spec fn enc_err_tflush(v: Tflush) -> Option<ProtoError> {
    None
}

/// Reads a `Tflush` off the front of the bytes.
pub open spec fn parse_tflush(s0: Seq<u8>) -> Option<(Tflush, Seq<u8>)> {
    match parse_u16(s0) { None => None, Some((x_oldtag, s1)) =>
    Some((Tflush { oldtag: x_oldtag }, s1))
    }
}

/// Reading the encoding of a valid `Tflush` gives it back.
pub proof fn lemma_parse_tflush(v: Tflush, rest: Seq<u8>)
    requires
        valid_tflush(v),
    ensures
        parse_tflush(enc_tflush(v) + rest) == Some((v, rest)),
{
    let r0 = rest;
    lemma_parse_u16(v.oldtag, r0);
    assert(enc_tflush(v) + rest =~= le16(v.oldtag) + r0);
}

/// Appends a `Tflush` to `buf`.
pub fn encode_tflush(buf: &mut Vec<u8>, v: &Tflush) -> (r: Result<(), ProtoError>)
    ensures
        r == err_result(enc_err_tflush(v@)),
        r is Ok ==> final(buf)@ == old(buf)@ + enc_tflush(v@),
        old(buf)@.is_prefix_of(final(buf)@),
{
    let ghost b0 = buf@;
    encode_u16(buf, v.oldtag);
    assert(buf@ =~= b0 + enc_tflush(v@));
    Ok(())
}

/// A `Rflush` on the wire: its fields in order.
pub open spec fn enc_rflush(v: Rflush) -> Seq<u8> {
    Seq::empty()
}

/// The values whose encoding parses back to them.
pub open spec fn valid_rflush(v: Rflush) -> bool {
    true
}

/// The error that encoding gives, if any: that of the first field that
/// cannot be encoded.
pub open spec fn enc_err_rflush(v: Rflush) -> Option<ProtoError> {
    None
}

/// Reads a `Rflush` off the front of the bytes.
pub open spec fn parse_rflush(s0: Seq<u8>) -> Option<(Rflush, Seq<u8>)> {
    Some((Rflush {}, s0))
}

/// Reading the encoding of a valid `Rflush` gives it back.
pub proof fn lemma_parse_rflush(v: Rflush, rest: Seq<u8>)
    requires
        valid_rflush(v),
    ensures
        parse_rflush(enc_rflush(v) + rest) == Some((v, rest)),
{
    assert(enc_rflush(v) + rest =~= rest);
}

/// Appends a `Rflush` to `buf`.
pub fn encode_rflush(buf: &mut Vec<u8>, v: &Rflush) -> (r: Result<(), ProtoError>)
    ensures
        r == err_result(enc_err_rflush(v@)),
        r is Ok ==> final(buf)@ == old(buf)@ + enc_rflush(v@),
        old(buf)@.is_prefix_of(final(buf)@),
{
    let ghost b0 = buf@;
    assert(buf@ =~= b0 + enc_rflush(v@));
    Ok(())
}

/// A `Twalk` on the wire: its fields in order.
pub open spec fn enc_twalk(v: SpecTwalk) -> Seq<u8> {
    le32(v.fid) + le32(v.new_fid) + enc_vec_str(v.wnames)
}

/// The values whose encoding parses back to them.
pub open spec fn valid_twalk(v: SpecTwalk) -> bool {
    valid_vec_str(v.wnames)
}

/// The error that encoding gives, if any: that of the first field that
/// cannot be encoded.
pub open spec fn enc_err_twalk(v: SpecTwalk) -> Option<ProtoError> {
    enc_err_vec_str(v.wnames)
}

/// Reads a `Twalk` off the front of the bytes.
pub open spec fn parse_twalk(s0: Seq<u8>) -> Option<(SpecTwalk, Seq<u8>)> {
    match parse_u32(s0) { None => None, Some((x_fid, s1)) =>
    match parse_u32(s1) { None => None, Some((x_new_fid, s2)) =>
    match parse_vec_str(s2) { None => None, Some((x_wnames, s3)) =>
    Some((SpecTwalk { fid: x_fid, new_fid: x_new_fid, wnames: x_wnames }, s3))
    }}}
}

/// Reading the encoding of a valid `Twalk` gives it back.
pub proof fn lemma_parse_twalk(v: SpecTwalk, rest: Seq<u8>)
    requires
        valid_twalk(v),
    ensures
        parse_twalk(enc_twalk(v) + rest) == Some((v, rest)),
{
    let r2 = rest;
    let r1 = enc_vec_str(v.wnames) + r2;
    let r0 = le32(v.new_fid) + r1;
    lemma_parse_u32(v.fid, r0);
    lemma_parse_u32(v.new_fid, r1);
    lemma_parse_vec_str(v.wnames, r2);
    assert(enc_twalk(v) + rest =~= le32(v.fid) + r0);
}

/// Appends a `Twalk` to `buf`.
pub fn encode_twalk<'a>(buf: &mut Vec<u8>, v: &Twalk<'a>) -> (r: Result<(), ProtoError>)
    ensures
        r == err_result(enc_err_twalk(v@)),
        r is Ok ==> final(buf)@ == old(buf)@ + enc_twalk(v@),
        old(buf)@.is_prefix_of(final(buf)@),
{
    let ghost b0 = buf@;
    encode_u32(buf, v.fid);
    encode_u32(buf, v.new_fid);
    encode_vec_str(buf, &v.wnames)?;
    assert(buf@ =~= b0 + enc_twalk(v@));
    Ok(())
}

/// A `Rwalk` on the wire: its fields in order.
pub open spec fn enc_rwalk(v: SpecRwalk) -> Seq<u8> {
    enc_vec_qid(v.wqids)
}

/// The values whose encoding parses back to them.
pub open spec fn valid_rwalk(v: SpecRwalk) -> bool {
    valid_vec_qid(v.wqids)
}

/// The error that encoding gives, if any: that of the first field that
/// cannot be encoded.
pub open spec fn enc_err_rwalk(v: SpecRwalk) -> Option<ProtoError> {
    enc_err_vec_qid(v.wqids)
}

/// Reads a `Rwalk` off the front of the bytes.
pub open spec fn parse_rwalk(s0: Seq<u8>) -> Option<(SpecRwalk, Seq<u8>)> {
    match parse_vec_qid(s0) { None => None, Some((x_wqids, s1)) =>
    Some((SpecRwalk { wqids: x_wqids }, s1))
    }
}

/// Reading the encoding of a valid `Rwalk` gives it back.
pub proof fn lemma_parse_rwalk(v: SpecRwalk, rest: Seq<u8>)
    requires
        valid_rwalk(v),
    ensures
        parse_rwalk(enc_rwalk(v) + rest) == Some((v, rest)),
{
    let r0 = rest;
    lemma_parse_vec_qid(v.wqids, r0);
    assert(enc_rwalk(v) + rest =~= enc_vec_qid(v.wqids) + r0);
}

/// Appends a `Rwalk` to `buf`.
pub fn encode_rwalk(buf: &mut Vec<u8>, v: &Rwalk) -> (r: Result<(), ProtoError>)
    ensures
        r == err_result(enc_err_rwalk(v@)),
        r is Ok ==> final(buf)@ == old(buf)@ + enc_rwalk(v@),
        old(buf)@.is_prefix_of(final(buf)@),
{
    let ghost b0 = buf@;
    encode_vec_qid(buf, &v.wqids)?;
    assert(buf@ =~= b0 + enc_rwalk(v@));
    Ok(())
}

/// A `Tread` on the wire: its fields in order.
pub open spec fn enc_tread(v: Tread) -> Seq<u8> {
    le32(v.fid) + le64(v.offset) + le32(v.count)
}

/// The values whose encoding parses back to them.
pub open spec fn valid_tread(v: Tread) -> bool {
    true
}

/// The error that encoding gives, if any: that of the first field that
/// cannot be encoded.
pub open spec fn enc_err_tread(v: Tread) -> Option<ProtoError> {
    None
}

/// Reads a `Tread` off the front of the bytes.
pub open spec fn parse_tread(s0: Seq<u8>) -> Option<(Tread, Seq<u8>)> {
    match parse_u32(s0) { None => None, Some((x_fid, s1)) =>
    match parse_u64(s1) { None => None, Some((x_offset, s2)) =>
    match parse_u32(s2) { None => None, Some((x_count, s3)) =>
    Some((Tread { fid: x_fid, offset: x_offset, count: x_count }, s3))
    }}}
}

/// Reading the encoding of a valid `Tread` gives it back.
pub proof fn lemma_parse_tread(v: Tread, rest: Seq<u8>)
    requires
        valid_tread(v),
    ensures
        parse_tread(enc_tread(v) + rest) == Some((v, rest)),
{
    let r2 = rest;
    let r1 = le32(v.count) + r2;
    let r0 = le64(v.offset) + r1;
    lemma_parse_u32(v.fid, r0);
    lemma_parse_u64(v.offset, r1);
    lemma_parse_u32(v.count, r2);
    assert(enc_tread(v) + rest =~= le32(v.fid) + r0);
}

/// Appends a `Tread` to `buf`.
pub fn encode_tread(buf: &mut Vec<u8>, v: &Tread) -> (r: Result<(), ProtoError>)
    ensures
        r == err_result(enc_err_tread(v@)),
        r is Ok ==> final(buf)@ == old(buf)@ + enc_tread(v@),
        old(buf)@.is_prefix_of(final(buf)@),
{
    let ghost b0 = buf@;
    encode_u32(buf, v.fid);
    encode_u64(buf, v.offset);
    encode_u32(buf, v.count);
    assert(buf@ =~= b0 + enc_tread(v@));
    Ok(())
}

/// A `Rread` on the wire: its fields in order.
pub open spec fn enc_rread(v: SpecRread) -> Seq<u8> {
    enc_data(v.data)
}

/// The values whose encoding parses back to them.
pub open spec fn valid_rread(v: SpecRread) -> bool {
    data_fits(v.data)
}

/// The error that encoding gives, if any: that of the first field that
/// cannot be encoded.
pub open spec fn enc_err_rread(v: SpecRread) -> Option<ProtoError> {
    data_err(v.data)
}

/// Reads a `Rread` off the front of the bytes.
pub open spec fn parse_rread(s0: Seq<u8>) -> Option<(SpecRread, Seq<u8>)> {
    match parse_data(s0) { None => None, Some((x_data, s1)) =>
    Some((SpecRread { data: x_data }, s1))
    }
}

/// Reading the encoding of a valid `Rread` gives it back.
pub proof fn lemma_parse_rread(v: SpecRread, rest: Seq<u8>)
    requires
        valid_rread(v),
    ensures
        parse_rread(enc_rread(v) + rest) == Some((v, rest)),
{
    let r0 = rest;
    lemma_parse_data(v.data, r0);
    assert(enc_rread(v) + rest =~= enc_data(v.data) + r0);
}

/// Appends a `Rread` to `buf`.
pub fn encode_rread<'a>(buf: &mut Vec<u8>, v: &Rread<'a>) -> (r: Result<(), ProtoError>)
    ensures
        r == err_result(enc_err_rread(v@)),
        r is Ok ==> final(buf)@ == old(buf)@ + enc_rread(v@),
        old(buf)@.is_prefix_of(final(buf)@),
{
    let ghost b0 = buf@;
    encode_data_buf(buf, cow_bytes(&v.data))?;
    assert(buf@ =~= b0 + enc_rread(v@));
    Ok(())
}

/// A `Twrite` on the wire: its fields in order.
pub open spec fn enc_twrite(v: SpecTwrite) -> Seq<u8> {
    le32(v.fid) + le64(v.offset) + enc_data(v.data)
}

/// The values whose encoding parses back to them.
pub open spec fn valid_twrite(v: SpecTwrite) -> bool {
    data_fits(v.data)
}

/// The error that encoding gives, if any: that of the first field that
/// cannot be encoded.
pub open spec fn enc_err_twrite(v: SpecTwrite) -> Option<ProtoError> {
    data_err(v.data)
}

/// Reads a `Twrite` off the front of the bytes.
pub open spec fn parse_twrite(s0: Seq<u8>) -> Option<(SpecTwrite, Seq<u8>)> {
    match parse_u32(s0) { None => None, Some((x_fid, s1)) =>
    match parse_u64(s1) { None => None, Some((x_offset, s2)) =>
    match parse_data(s2) { None => None, Some((x_data, s3)) =>
    Some((SpecTwrite { fid: x_fid, offset: x_offset, data: x_data }, s3))
    }}}
}

/// Reading the encoding of a valid `Twrite` gives it back.
pub proof fn lemma_parse_twrite(v: SpecTwrite, rest: Seq<u8>)
    requires
        valid_twrite(v),
    ensures
        parse_twrite(enc_twrite(v) + rest) == Some((v, rest)),
{
    let r2 = rest;
    let r1 = enc_data(v.data) + r2;
    let r0 = le64(v.offset) + r1;
    lemma_parse_u32(v.fid, r0);
    lemma_parse_u64(v.offset, r1);
    lemma_parse_data(v.data, r2);
    assert(enc_twrite(v) + rest =~= le32(v.fid) + r0);
}

/// Appends a `Twrite` to `buf`.
pub fn encode_twrite<'a>(buf: &mut Vec<u8>, v: &Twrite<'a>) -> (r: Result<(), ProtoError>)
    ensures
        r == err_result(enc_err_twrite(v@)),
        r is Ok ==> final(buf)@ == old(buf)@ + enc_twrite(v@),
        old(buf)@.is_prefix_of(final(buf)@),
{
    let ghost b0 = buf@;
    encode_u32(buf, v.fid);
    encode_u64(buf, v.offset);
    encode_data_buf(buf, cow_bytes(&v.data))?;
    assert(buf@ =~= b0 + enc_twrite(v@));
    Ok(())
}

/// A `Rwrite` on the wire: its fields in order.
pub open spec fn enc_rwrite(v: Rwrite) -> Seq<u8> {
    le32(v.count)
}

/// The values whose encoding parses back to them.
pub open spec fn valid_rwrite(v: Rwrite) -> bool {
    true
}

/// The error that encoding gives, if any: that of the first field that
/// cannot be encoded.
pub open spec fn enc_err_rwrite(v: Rwrite) -> Option<ProtoError> {
    None
}

/// Reads a `Rwrite` off the front of the bytes.
pub open spec fn parse_rwrite(s0: Seq<u8>) -> Option<(Rwrite, Seq<u8>)> {
    match parse_u32(s0) { None => None, Some((x_count, s1)) =>
    Some((Rwrite { count: x_count }, s1))
    }
}

/// Reading the encoding of a valid `Rwrite` gives it back.
pub proof fn lemma_parse_rwrite(v: Rwrite, rest: Seq<u8>)
    requires
        valid_rwrite(v),
    ensures
        parse_rwrite(enc_rwrite(v) + rest) == Some((v, rest)),
{
    let r0 = rest;
    lemma_parse_u32(v.count, r0);
    assert(enc_rwrite(v) + rest =~= le32(v.count) + r0);
}

/// Appends a `Rwrite` to `buf`.
pub fn encode_rwrite(buf: &mut Vec<u8>, v: &Rwrite) -> (r: Result<(), ProtoError>)
    ensures
        r == err_result(enc_err_rwrite(v@)),
        r is Ok ==> final(buf)@ == old(buf)@ + enc_rwrite(v@),
        old(buf)@.is_prefix_of(final(buf)@),
{
    let ghost b0 = buf@;
    encode_u32(buf, v.count);
    assert(buf@ =~= b0 + enc_rwrite(v@));
    Ok(())
}

/// A `Tclunk` on the wire: its fields in order.
pub open spec fn enc_tclunk(v: Tclunk) -> Seq<u8> {
    le32(v.fid)
}

/// The values whose encoding parses back to them.
pub open spec fn valid_tclunk(v: Tclunk) -> bool {
    true
}

/// The error that encoding gives, if any: that of the first field that
/// cannot be encoded.
pub open spec fn enc_err_tclunk(v: Tclunk) -> Option<ProtoError> {
    None
}

/// Reads a `Tclunk` off the front of the bytes.
pub open spec fn parse_tclunk(s0: Seq<u8>) -> Option<(Tclunk, Seq<u8>)> {
    match parse_u32(s0) { None => None, Some((x_fid, s1)) =>
    Some((Tclunk { fid: x_fid }, s1))
    }
}

/// Reading the encoding of a valid `Tclunk` gives it back.
pub proof fn lemma_parse_tclunk(v: Tclunk, rest: Seq<u8>)
    requires
        valid_tclunk(v),
    ensures
        parse_tclunk(enc_tclunk(v) + rest) == Some((v, rest)),
{
    let r0 = rest;
    lemma_parse_u32(v.fid, r0);
    assert(enc_tclunk(v) + rest =~= le32(v.fid) + r0);
}

/// Appends a `Tclunk` to `buf`.
pub fn encode_tclunk(buf: &mut Vec<u8>, v: &Tclunk) -> (r: Result<(), ProtoError>)
    ensures
        r == err_result(enc_err_tclunk(v@)),
        r is Ok ==> final(buf)@ == old(buf)@ + enc_tclunk(v@),
        old(buf)@.is_prefix_of(final(buf)@),
{
    let ghost b0 = buf@;
    encode_u32(buf, v.fid);
    assert(buf@ =~= b0 + enc_tclunk(v@));
    Ok(())
}

/// A `Rclunk` on the wire: its fields in order.
pub open spec fn enc_rclunk(v: Rclunk) -> Seq<u8> {
    Seq::empty()
}

/// The values whose encoding parses back to them.
pub open spec fn valid_rclunk(v: Rclunk) -> bool {
    true
}

/// The error that encoding gives, if any: that of the first field that
/// cannot be encoded.
pub open spec fn enc_err_rclunk(v: Rclunk) -> Option<ProtoError> {
    None
}

/// Reads a `Rclunk` off the front of the bytes.
pub open spec fn parse_rclunk(s0: Seq<u8>) -> Option<(Rclunk, Seq<u8>)> {
    Some((Rclunk {}, s0))
}

/// Reading the encoding of a valid `Rclunk` gives it back.
pub proof fn lemma_parse_rclunk(v: Rclunk, rest: Seq<u8>)
    requires
        valid_rclunk(v),
    ensures
        parse_rclunk(enc_rclunk(v) + rest) == Some((v, rest)),
{
    assert(enc_rclunk(v) + rest =~= rest);
}

/// Appends a `Rclunk` to `buf`.
pub fn encode_rclunk(buf: &mut Vec<u8>, v: &Rclunk) -> (r: Result<(), ProtoError>)
    ensures
        r == err_result(enc_err_rclunk(v@)),
        r is Ok ==> final(buf)@ == old(buf)@ + enc_rclunk(v@),
        old(buf)@.is_prefix_of(final(buf)@),
{
    let ghost b0 = buf@;
    assert(buf@ =~= b0 + enc_rclunk(v@));
    Ok(())
}

/// A `Tremove` on the wire: its fields in order.
pub open spec fn enc_tremove(v: Tremove) -> Seq<u8> {
    le32(v.fid)
}

/// The values whose encoding parses back to them.
pub open spec fn valid_tremove(v: Tremove) -> bool {
    true
}

/// The error that encoding gives, if any: that of the first field that
/// cannot be encoded.
pub open spec fn enc_err_tremove(v: Tremove) -> Option<ProtoError> {
    None
}

/// Reads a `Tremove` off the front of the bytes.
pub open spec fn parse_tremove(s0: Seq<u8>) -> Option<(Tremove, Seq<u8>)> {
    match parse_u32(s0) { None => None, Some((x_fid, s1)) =>
    Some((Tremove { fid: x_fid }, s1))
    }
}

/// Reading the encoding of a valid `Tremove` gives it back.
pub proof fn lemma_parse_tremove(v: Tremove, rest: Seq<u8>)
    requires
        valid_tremove(v),
    ensures
        parse_tremove(enc_tremove(v) + rest) == Some((v, rest)),
{
    let r0 = rest;
    lemma_parse_u32(v.fid, r0);
    assert(enc_tremove(v) + rest =~= le32(v.fid) + r0);
}

/// Appends a `Tremove` to `buf`.
pub fn encode_tremove(buf: &mut Vec<u8>, v: &Tremove) -> (r: Result<(), ProtoError>)
    ensures
        r == err_result(enc_err_tremove(v@)),
        r is Ok ==> final(buf)@ == old(buf)@ + enc_tremove(v@),
        old(buf)@.is_prefix_of(final(buf)@),
{
    let ghost b0 = buf@;
    encode_u32(buf, v.fid);
    assert(buf@ =~= b0 + enc_tremove(v@));
    Ok(())
}

/// A `Rremove` on the wire: its fields in order.
pub open spec fn enc_rremove(v: Rremove) -> Seq<u8> {
    Seq::empty()
}

/// The values whose encoding parses back to them.
pub open spec fn valid_rremove(v: Rremove) -> bool {
    true
}

/// The error that encoding gives, if any: that of the first field that
/// cannot be encoded.
pub open spec fn enc_err_rremove(v: Rremove) -> Option<ProtoError> {
    None
}

/// Reads a `Rremove` off the front of the bytes.
pub open spec fn parse_rremove(s0: Seq<u8>) -> Option<(Rremove, Seq<u8>)> {
    Some((Rremove {}, s0))
}

/// Reading the encoding of a valid `Rremove` gives it back.
pub proof fn lemma_parse_rremove(v: Rremove, rest: Seq<u8>)
    requires
        valid_rremove(v),
    ensures
        parse_rremove(enc_rremove(v) + rest) == Some((v, rest)),
{
    assert(enc_rremove(v) + rest =~= rest);
}

/// Appends a `Rremove` to `buf`.
pub fn encode_rremove(buf: &mut Vec<u8>, v: &Rremove) -> (r: Result<(), ProtoError>)
    ensures
        r == err_result(enc_err_rremove(v@)),
        r is Ok ==> final(buf)@ == old(buf)@ + enc_rremove(v@),
        old(buf)@.is_prefix_of(final(buf)@),
{
    let ghost b0 = buf@;
    assert(buf@ =~= b0 + enc_rremove(v@));
    Ok(())
}

/// The body of a message on the wire.
#[verifier::opaque]
pub open spec fn enc_fcall(f: SpecFcall) -> Seq<u8> {
    match f {
        SpecFcall::Rlerror(v) => enc_rlerror(v),
        SpecFcall::Tattach(v) => enc_tattach(v),
        SpecFcall::Rattach(v) => enc_rattach(v),
        SpecFcall::Tstatfs(v) => enc_tstatfs(v),
        SpecFcall::Rstatfs(v) => enc_rstatfs(v),
        SpecFcall::Tlopen(v) => enc_tlopen(v),
        SpecFcall::Rlopen(v) => enc_rlopen(v),
        SpecFcall::Tlcreate(v) => enc_tlcreate(v),
        SpecFcall::Rlcreate(v) => enc_rlcreate(v),
        SpecFcall::Tsymlink(v) => enc_tsymlink(v),
        SpecFcall::Rsymlink(v) => enc_rsymlink(v),
        SpecFcall::Tmknod(v) => enc_tmknod(v),
        SpecFcall::Rmknod(v) => enc_rmknod(v),
        SpecFcall::Trename(v) => enc_trename(v),
        SpecFcall::Rrename(v) => enc_rrename(v),
        SpecFcall::Treadlink(v) => enc_treadlink(v),
        SpecFcall::Rreadlink(v) => enc_rreadlink(v),
        SpecFcall::Tgetattr(v) => enc_tgetattr(v),
        SpecFcall::Rgetattr(v) => enc_rgetattr(v),
        SpecFcall::Tsetattr(v) => enc_tsetattr(v),
        SpecFcall::Rsetattr(v) => enc_rsetattr(v),
        SpecFcall::Txattrwalk(v) => enc_txattrwalk(v),
        SpecFcall::Rxattrwalk(v) => enc_rxattrwalk(v),
        SpecFcall::Txattrcreate(v) => enc_txattrcreate(v),
        SpecFcall::Rxattrcreate(v) => enc_rxattrcreate(v),
        SpecFcall::Treaddir(v) => enc_treaddir(v),
        SpecFcall::Rreaddir(v) => enc_rreaddir(v),
        SpecFcall::Tfsync(v) => enc_tfsync(v),
        SpecFcall::Rfsync(v) => enc_rfsync(v),
        SpecFcall::Tlock(v) => enc_tlock(v),
        SpecFcall::Rlock(v) => enc_rlock(v),
        SpecFcall::Tgetlock(v) => enc_tgetlock(v),
        SpecFcall::Rgetlock(v) => enc_rgetlock(v),
        SpecFcall::Tlink(v) => enc_tlink(v),
        SpecFcall::Rlink(v) => enc_rlink(v),
        SpecFcall::Tmkdir(v) => enc_tmkdir(v),
        SpecFcall::Rmkdir(v) => enc_rmkdir(v),
        SpecFcall::Trenameat(v) => enc_trenameat(v),
        SpecFcall::Rrenameat(v) => enc_rrenameat(v),
        SpecFcall::Tunlinkat(v) => enc_tunlinkat(v),
        SpecFcall::Runlinkat(v) => enc_runlinkat(v),
        SpecFcall::Tauth(v) => enc_tauth(v),
        SpecFcall::Rauth(v) => enc_rauth(v),
        SpecFcall::Tversion(v) => enc_tversion(v),
        SpecFcall::Rversion(v) => enc_rversion(v),
        SpecFcall::Tflush(v) => enc_tflush(v),
        SpecFcall::Rflush(v) => enc_rflush(v),
        SpecFcall::Twalk(v) => enc_twalk(v),
        SpecFcall::Rwalk(v) => enc_rwalk(v),
        SpecFcall::Tread(v) => enc_tread(v),
        SpecFcall::Rread(v) => enc_rread(v),
        SpecFcall::Twrite(v) => enc_twrite(v),
        SpecFcall::Rwrite(v) => enc_rwrite(v),
        SpecFcall::Tclunk(v) => enc_tclunk(v),
        SpecFcall::Rclunk(v) => enc_rclunk(v),
        SpecFcall::Tremove(v) => enc_tremove(v),
        SpecFcall::Rremove(v) => enc_rremove(v),
    }
}

/// The messages whose encoding parses back to them.
#[verifier::opaque]
pub open spec fn valid_fcall(f: SpecFcall) -> bool {
    match f {
        SpecFcall::Rlerror(v) => valid_rlerror(v),
        SpecFcall::Tattach(v) => valid_tattach(v),
        SpecFcall::Rattach(v) => valid_rattach(v),
        SpecFcall::Tstatfs(v) => valid_tstatfs(v),
        SpecFcall::Rstatfs(v) => valid_rstatfs(v),
        SpecFcall::Tlopen(v) => valid_tlopen(v),
        SpecFcall::Rlopen(v) => valid_rlopen(v),
        SpecFcall::Tlcreate(v) => valid_tlcreate(v),
        SpecFcall::Rlcreate(v) => valid_rlcreate(v),
        SpecFcall::Tsymlink(v) => valid_tsymlink(v),
        SpecFcall::Rsymlink(v) => valid_rsymlink(v),
        SpecFcall::Tmknod(v) => valid_tmknod(v),
        SpecFcall::Rmknod(v) => valid_rmknod(v),
        SpecFcall::Trename(v) => valid_trename(v),
        SpecFcall::Rrename(v) => valid_rrename(v),
        SpecFcall::Treadlink(v) => valid_treadlink(v),
        SpecFcall::Rreadlink(v) => valid_rreadlink(v),
        SpecFcall::Tgetattr(v) => valid_tgetattr(v),
        SpecFcall::Rgetattr(v) => valid_rgetattr(v),
        SpecFcall::Tsetattr(v) => valid_tsetattr(v),
        SpecFcall::Rsetattr(v) => valid_rsetattr(v),
        SpecFcall::Txattrwalk(v) => valid_txattrwalk(v),
        SpecFcall::Rxattrwalk(v) => valid_rxattrwalk(v),
        SpecFcall::Txattrcreate(v) => valid_txattrcreate(v),
        SpecFcall::Rxattrcreate(v) => valid_rxattrcreate(v),
        SpecFcall::Treaddir(v) => valid_treaddir(v),
        SpecFcall::Rreaddir(v) => valid_rreaddir(v),
        SpecFcall::Tfsync(v) => valid_tfsync(v),
        SpecFcall::Rfsync(v) => valid_rfsync(v),
        SpecFcall::Tlock(v) => valid_tlock(v),
        SpecFcall::Rlock(v) => valid_rlock(v),
        SpecFcall::Tgetlock(v) => valid_tgetlock(v),
        SpecFcall::Rgetlock(v) => valid_rgetlock(v),
        SpecFcall::Tlink(v) => valid_tlink(v),
        SpecFcall::Rlink(v) => valid_rlink(v),
        SpecFcall::Tmkdir(v) => valid_tmkdir(v),
        SpecFcall::Rmkdir(v) => valid_rmkdir(v),
        SpecFcall::Trenameat(v) => valid_trenameat(v),
        SpecFcall::Rrenameat(v) => valid_rrenameat(v),
        SpecFcall::Tunlinkat(v) => valid_tunlinkat(v),
        SpecFcall::Runlinkat(v) => valid_runlinkat(v),
        SpecFcall::Tauth(v) => valid_tauth(v),
        SpecFcall::Rauth(v) => valid_rauth(v),
        SpecFcall::Tversion(v) => valid_tversion(v),
        SpecFcall::Rversion(v) => valid_rversion(v),
        SpecFcall::Tflush(v) => valid_tflush(v),
        SpecFcall::Rflush(v) => valid_rflush(v),
        SpecFcall::Twalk(v) => valid_twalk(v),
        SpecFcall::Rwalk(v) => valid_rwalk(v),
        SpecFcall::Tread(v) => valid_tread(v),
        SpecFcall::Rread(v) => valid_rread(v),
        SpecFcall::Twrite(v) => valid_twrite(v),
        SpecFcall::Rwrite(v) => valid_rwrite(v),
        SpecFcall::Tclunk(v) => valid_tclunk(v),
        SpecFcall::Rclunk(v) => valid_rclunk(v),
        SpecFcall::Tremove(v) => valid_tremove(v),
        SpecFcall::Rremove(v) => valid_rremove(v),
    }
}

/// The error that encoding a message body gives, if any.
#[verifier::opaque]
pub open spec fn enc_err_fcall(f: SpecFcall) -> Option<ProtoError> {
    match f {
        SpecFcall::Rlerror(v) => enc_err_rlerror(v),
        SpecFcall::Tattach(v) => enc_err_tattach(v),
        SpecFcall::Rattach(v) => enc_err_rattach(v),
        SpecFcall::Tstatfs(v) => enc_err_tstatfs(v),
        SpecFcall::Rstatfs(v) => enc_err_rstatfs(v),
        SpecFcall::Tlopen(v) => enc_err_tlopen(v),
        SpecFcall::Rlopen(v) => enc_err_rlopen(v),
        SpecFcall::Tlcreate(v) => enc_err_tlcreate(v),
        SpecFcall::Rlcreate(v) => enc_err_rlcreate(v),
        SpecFcall::Tsymlink(v) => enc_err_tsymlink(v),
        SpecFcall::Rsymlink(v) => enc_err_rsymlink(v),
        SpecFcall::Tmknod(v) => enc_err_tmknod(v),
        SpecFcall::Rmknod(v) => enc_err_rmknod(v),
        SpecFcall::Trename(v) => enc_err_trename(v),
        SpecFcall::Rrename(v) => enc_err_rrename(v),
        SpecFcall::Treadlink(v) => enc_err_treadlink(v),
        SpecFcall::Rreadlink(v) => enc_err_rreadlink(v),
        SpecFcall::Tgetattr(v) => enc_err_tgetattr(v),
        SpecFcall::Rgetattr(v) => enc_err_rgetattr(v),
        SpecFcall::Tsetattr(v) => enc_err_tsetattr(v),
        SpecFcall::Rsetattr(v) => enc_err_rsetattr(v),
        SpecFcall::Txattrwalk(v) => enc_err_txattrwalk(v),
        SpecFcall::Rxattrwalk(v) => enc_err_rxattrwalk(v),
        SpecFcall::Txattrcreate(v) => enc_err_txattrcreate(v),
        SpecFcall::Rxattrcreate(v) => enc_err_rxattrcreate(v),
        SpecFcall::Treaddir(v) => enc_err_treaddir(v),
        SpecFcall::Rreaddir(v) => enc_err_rreaddir(v),
        SpecFcall::Tfsync(v) => enc_err_tfsync(v),
        SpecFcall::Rfsync(v) => enc_err_rfsync(v),
        SpecFcall::Tlock(v) => enc_err_tlock(v),
        SpecFcall::Rlock(v) => enc_err_rlock(v),
        SpecFcall::Tgetlock(v) => enc_err_tgetlock(v),
        SpecFcall::Rgetlock(v) => enc_err_rgetlock(v),
        SpecFcall::Tlink(v) => enc_err_tlink(v),
        SpecFcall::Rlink(v) => enc_err_rlink(v),
        SpecFcall::Tmkdir(v) => enc_err_tmkdir(v),
        SpecFcall::Rmkdir(v) => enc_err_rmkdir(v),
        SpecFcall::Trenameat(v) => enc_err_trenameat(v),
        SpecFcall::Rrenameat(v) => enc_err_rrenameat(v),
        SpecFcall::Tunlinkat(v) => enc_err_tunlinkat(v),
        SpecFcall::Runlinkat(v) => enc_err_runlinkat(v),
        SpecFcall::Tauth(v) => enc_err_tauth(v),
        SpecFcall::Rauth(v) => enc_err_rauth(v),
        SpecFcall::Tversion(v) => enc_err_tversion(v),
        SpecFcall::Rversion(v) => enc_err_rversion(v),
        SpecFcall::Tflush(v) => enc_err_tflush(v),
        SpecFcall::Rflush(v) => enc_err_rflush(v),
        SpecFcall::Twalk(v) => enc_err_twalk(v),
        SpecFcall::Rwalk(v) => enc_err_rwalk(v),
        SpecFcall::Tread(v) => enc_err_tread(v),
        SpecFcall::Rread(v) => enc_err_rread(v),
        SpecFcall::Twrite(v) => enc_err_twrite(v),
        SpecFcall::Rwrite(v) => enc_err_rwrite(v),
        SpecFcall::Tclunk(v) => enc_err_tclunk(v),
        SpecFcall::Rclunk(v) => enc_err_rclunk(v),
        SpecFcall::Tremove(v) => enc_err_tremove(v),
        SpecFcall::Rremove(v) => enc_err_rremove(v),
    }
}

/// Parses the body of a message of type `t`.
#[verifier::opaque]
pub open spec fn parse_fcall(t: FcallType, s: Seq<u8>) -> Option<(SpecFcall, Seq<u8>)> {
    match t {
        FcallType::Rlerror => match parse_rlerror(s) {
            Some((v, r)) => Some((SpecFcall::Rlerror(v), r)),
            None => None,
        },
        FcallType::Tattach => match parse_tattach(s) {
            Some((v, r)) => Some((SpecFcall::Tattach(v), r)),
            None => None,
        },
        FcallType::Rattach => match parse_rattach(s) {
            Some((v, r)) => Some((SpecFcall::Rattach(v), r)),
            None => None,
        },
        FcallType::Tstatfs => match parse_tstatfs(s) {
            Some((v, r)) => Some((SpecFcall::Tstatfs(v), r)),
            None => None,
        },
        FcallType::Rstatfs => match parse_rstatfs(s) {
            Some((v, r)) => Some((SpecFcall::Rstatfs(v), r)),
            None => None,
        },
        FcallType::Tlopen => match parse_tlopen(s) {
            Some((v, r)) => Some((SpecFcall::Tlopen(v), r)),
            None => None,
        },
        FcallType::Rlopen => match parse_rlopen(s) {
            Some((v, r)) => Some((SpecFcall::Rlopen(v), r)),
            None => None,
        },
        FcallType::Tlcreate => match parse_tlcreate(s) {
            Some((v, r)) => Some((SpecFcall::Tlcreate(v), r)),
            None => None,
        },
        FcallType::Rlcreate => match parse_rlcreate(s) {
            Some((v, r)) => Some((SpecFcall::Rlcreate(v), r)),
            None => None,
        },
        FcallType::Tsymlink => match parse_tsymlink(s) {
            Some((v, r)) => Some((SpecFcall::Tsymlink(v), r)),
            None => None,
        },
        FcallType::Rsymlink => match parse_rsymlink(s) {
            Some((v, r)) => Some((SpecFcall::Rsymlink(v), r)),
            None => None,
        },
        FcallType::Tmknod => match parse_tmknod(s) {
            Some((v, r)) => Some((SpecFcall::Tmknod(v), r)),
            None => None,
        },
        FcallType::Rmknod => match parse_rmknod(s) {
            Some((v, r)) => Some((SpecFcall::Rmknod(v), r)),
            None => None,
        },
        FcallType::Trename => match parse_trename(s) {
            Some((v, r)) => Some((SpecFcall::Trename(v), r)),
            None => None,
        },
        FcallType::Rrename => match parse_rrename(s) {
            Some((v, r)) => Some((SpecFcall::Rrename(v), r)),
            None => None,
        },
        FcallType::Treadlink => match parse_treadlink(s) {
            Some((v, r)) => Some((SpecFcall::Treadlink(v), r)),
            None => None,
        },
        FcallType::Rreadlink => match parse_rreadlink(s) {
            Some((v, r)) => Some((SpecFcall::Rreadlink(v), r)),
            None => None,
        },
        FcallType::Tgetattr => match parse_tgetattr(s) {
            Some((v, r)) => Some((SpecFcall::Tgetattr(v), r)),
            None => None,
        },
        FcallType::Rgetattr => match parse_rgetattr(s) {
            Some((v, r)) => Some((SpecFcall::Rgetattr(v), r)),
            None => None,
        },
        FcallType::Tsetattr => match parse_tsetattr(s) {
            Some((v, r)) => Some((SpecFcall::Tsetattr(v), r)),
            None => None,
        },
        FcallType::Rsetattr => match parse_rsetattr(s) {
            Some((v, r)) => Some((SpecFcall::Rsetattr(v), r)),
            None => None,
        },
        FcallType::Txattrwalk => match parse_txattrwalk(s) {
            Some((v, r)) => Some((SpecFcall::Txattrwalk(v), r)),
            None => None,
        },
        FcallType::Rxattrwalk => match parse_rxattrwalk(s) {
            Some((v, r)) => Some((SpecFcall::Rxattrwalk(v), r)),
            None => None,
        },
        FcallType::Txattrcreate => match parse_txattrcreate(s) {
            Some((v, r)) => Some((SpecFcall::Txattrcreate(v), r)),
            None => None,
        },
        FcallType::Rxattrcreate => match parse_rxattrcreate(s) {
            Some((v, r)) => Some((SpecFcall::Rxattrcreate(v), r)),
            None => None,
        },
        FcallType::Treaddir => match parse_treaddir(s) {
            Some((v, r)) => Some((SpecFcall::Treaddir(v), r)),
            None => None,
        },
        FcallType::Rreaddir => match parse_rreaddir(s) {
            Some((v, r)) => Some((SpecFcall::Rreaddir(v), r)),
            None => None,
        },
        FcallType::Tfsync => match parse_tfsync(s) {
            Some((v, r)) => Some((SpecFcall::Tfsync(v), r)),
            None => None,
        },
        FcallType::Rfsync => match parse_rfsync(s) {
            Some((v, r)) => Some((SpecFcall::Rfsync(v), r)),
            None => None,
        },
        FcallType::Tlock => match parse_tlock(s) {
            Some((v, r)) => Some((SpecFcall::Tlock(v), r)),
            None => None,
        },
        FcallType::Rlock => match parse_rlock(s) {
            Some((v, r)) => Some((SpecFcall::Rlock(v), r)),
            None => None,
        },
        FcallType::Tgetlock => match parse_tgetlock(s) {
            Some((v, r)) => Some((SpecFcall::Tgetlock(v), r)),
            None => None,
        },
        FcallType::Rgetlock => match parse_rgetlock(s) {
            Some((v, r)) => Some((SpecFcall::Rgetlock(v), r)),
            None => None,
        },
        FcallType::Tlink => match parse_tlink(s) {
            Some((v, r)) => Some((SpecFcall::Tlink(v), r)),
            None => None,
        },
        FcallType::Rlink => match parse_rlink(s) {
            Some((v, r)) => Some((SpecFcall::Rlink(v), r)),
            None => None,
        },
        FcallType::Tmkdir => match parse_tmkdir(s) {
            Some((v, r)) => Some((SpecFcall::Tmkdir(v), r)),
            None => None,
        },
        FcallType::Rmkdir => match parse_rmkdir(s) {
            Some((v, r)) => Some((SpecFcall::Rmkdir(v), r)),
            None => None,
        },
        FcallType::Trenameat => match parse_trenameat(s) {
            Some((v, r)) => Some((SpecFcall::Trenameat(v), r)),
            None => None,
        },
        FcallType::Rrenameat => match parse_rrenameat(s) {
            Some((v, r)) => Some((SpecFcall::Rrenameat(v), r)),
            None => None,
        },
        FcallType::Tunlinkat => match parse_tunlinkat(s) {
            Some((v, r)) => Some((SpecFcall::Tunlinkat(v), r)),
            None => None,
        },
        FcallType::Runlinkat => match parse_runlinkat(s) {
            Some((v, r)) => Some((SpecFcall::Runlinkat(v), r)),
            None => None,
        },
        FcallType::Tauth => match parse_tauth(s) {
            Some((v, r)) => Some((SpecFcall::Tauth(v), r)),
            None => None,
        },
        FcallType::Rauth => match parse_rauth(s) {
            Some((v, r)) => Some((SpecFcall::Rauth(v), r)),
            None => None,
        },
        FcallType::Tversion => match parse_tversion(s) {
            Some((v, r)) => Some((SpecFcall::Tversion(v), r)),
            None => None,
        },
        FcallType::Rversion => match parse_rversion(s) {
            Some((v, r)) => Some((SpecFcall::Rversion(v), r)),
            None => None,
        },
        FcallType::Tflush => match parse_tflush(s) {
            Some((v, r)) => Some((SpecFcall::Tflush(v), r)),
            None => None,
        },
        FcallType::Rflush => match parse_rflush(s) {
            Some((v, r)) => Some((SpecFcall::Rflush(v), r)),
            None => None,
        },
        FcallType::Twalk => match parse_twalk(s) {
            Some((v, r)) => Some((SpecFcall::Twalk(v), r)),
            None => None,
        },
        FcallType::Rwalk => match parse_rwalk(s) {
            Some((v, r)) => Some((SpecFcall::Rwalk(v), r)),
            None => None,
        },
        FcallType::Tread => match parse_tread(s) {
            Some((v, r)) => Some((SpecFcall::Tread(v), r)),
            None => None,
        },
        FcallType::Rread => match parse_rread(s) {
            Some((v, r)) => Some((SpecFcall::Rread(v), r)),
            None => None,
        },
        FcallType::Twrite => match parse_twrite(s) {
            Some((v, r)) => Some((SpecFcall::Twrite(v), r)),
            None => None,
        },
        FcallType::Rwrite => match parse_rwrite(s) {
            Some((v, r)) => Some((SpecFcall::Rwrite(v), r)),
            None => None,
        },
        FcallType::Tclunk => match parse_tclunk(s) {
            Some((v, r)) => Some((SpecFcall::Tclunk(v), r)),
            None => None,
        },
        FcallType::Rclunk => match parse_rclunk(s) {
            Some((v, r)) => Some((SpecFcall::Rclunk(v), r)),
            None => None,
        },
        FcallType::Tremove => match parse_tremove(s) {
            Some((v, r)) => Some((SpecFcall::Tremove(v), r)),
            None => None,
        },
        FcallType::Rremove => match parse_rremove(s) {
            Some((v, r)) => Some((SpecFcall::Rremove(v), r)),
            None => None,
        },
    }
}

/// Parsing the encoding of a message body, by its type, gives it back.
#[verifier::spinoff_prover]
#[verifier::rlimit(100)]
pub proof fn lemma_parse_fcall(f: SpecFcall, rest: Seq<u8>)
    requires
        valid_fcall(f),
    ensures
        parse_fcall(spec_fcall_type(f), enc_fcall(f) + rest) == Some((f, rest)),
{
    reveal(enc_fcall);
    reveal(valid_fcall);
    reveal(parse_fcall);
    reveal(spec_fcall_type);
    match f {
        SpecFcall::Rlerror(v) => lemma_parse_rlerror(v, rest),
        SpecFcall::Tattach(v) => lemma_parse_tattach(v, rest),
        SpecFcall::Rattach(v) => lemma_parse_rattach(v, rest),
        SpecFcall::Tstatfs(v) => lemma_parse_tstatfs(v, rest),
        SpecFcall::Rstatfs(v) => lemma_parse_rstatfs(v, rest),
        SpecFcall::Tlopen(v) => lemma_parse_tlopen(v, rest),
        SpecFcall::Rlopen(v) => lemma_parse_rlopen(v, rest),
        SpecFcall::Tlcreate(v) => lemma_parse_tlcreate(v, rest),
        SpecFcall::Rlcreate(v) => lemma_parse_rlcreate(v, rest),
        SpecFcall::Tsymlink(v) => lemma_parse_tsymlink(v, rest),
        SpecFcall::Rsymlink(v) => lemma_parse_rsymlink(v, rest),
        SpecFcall::Tmknod(v) => lemma_parse_tmknod(v, rest),
        SpecFcall::Rmknod(v) => lemma_parse_rmknod(v, rest),
        SpecFcall::Trename(v) => lemma_parse_trename(v, rest),
        SpecFcall::Rrename(v) => lemma_parse_rrename(v, rest),
        SpecFcall::Treadlink(v) => lemma_parse_treadlink(v, rest),
        SpecFcall::Rreadlink(v) => lemma_parse_rreadlink(v, rest),
        SpecFcall::Tgetattr(v) => lemma_parse_tgetattr(v, rest),
        SpecFcall::Rgetattr(v) => lemma_parse_rgetattr(v, rest),
        SpecFcall::Tsetattr(v) => lemma_parse_tsetattr(v, rest),
        SpecFcall::Rsetattr(v) => lemma_parse_rsetattr(v, rest),
        SpecFcall::Txattrwalk(v) => lemma_parse_txattrwalk(v, rest),
        SpecFcall::Rxattrwalk(v) => lemma_parse_rxattrwalk(v, rest),
        SpecFcall::Txattrcreate(v) => lemma_parse_txattrcreate(v, rest),
        SpecFcall::Rxattrcreate(v) => lemma_parse_rxattrcreate(v, rest),
        SpecFcall::Treaddir(v) => lemma_parse_treaddir(v, rest),
        SpecFcall::Rreaddir(v) => lemma_parse_rreaddir(v, rest),
        SpecFcall::Tfsync(v) => lemma_parse_tfsync(v, rest),
        SpecFcall::Rfsync(v) => lemma_parse_rfsync(v, rest),
        SpecFcall::Tlock(v) => lemma_parse_tlock(v, rest),
        SpecFcall::Rlock(v) => lemma_parse_rlock(v, rest),
        SpecFcall::Tgetlock(v) => lemma_parse_tgetlock(v, rest),
        SpecFcall::Rgetlock(v) => lemma_parse_rgetlock(v, rest),
        SpecFcall::Tlink(v) => lemma_parse_tlink(v, rest),
        SpecFcall::Rlink(v) => lemma_parse_rlink(v, rest),
        SpecFcall::Tmkdir(v) => lemma_parse_tmkdir(v, rest),
        SpecFcall::Rmkdir(v) => lemma_parse_rmkdir(v, rest),
        SpecFcall::Trenameat(v) => lemma_parse_trenameat(v, rest),
        SpecFcall::Rrenameat(v) => lemma_parse_rrenameat(v, rest),
        SpecFcall::Tunlinkat(v) => lemma_parse_tunlinkat(v, rest),
        SpecFcall::Runlinkat(v) => lemma_parse_runlinkat(v, rest),
        SpecFcall::Tauth(v) => lemma_parse_tauth(v, rest),
        SpecFcall::Rauth(v) => lemma_parse_rauth(v, rest),
        SpecFcall::Tversion(v) => lemma_parse_tversion(v, rest),
        SpecFcall::Rversion(v) => lemma_parse_rversion(v, rest),
        SpecFcall::Tflush(v) => lemma_parse_tflush(v, rest),
        SpecFcall::Rflush(v) => lemma_parse_rflush(v, rest),
        SpecFcall::Twalk(v) => lemma_parse_twalk(v, rest),
        SpecFcall::Rwalk(v) => lemma_parse_rwalk(v, rest),
        SpecFcall::Tread(v) => lemma_parse_tread(v, rest),
        SpecFcall::Rread(v) => lemma_parse_rread(v, rest),
        SpecFcall::Twrite(v) => lemma_parse_twrite(v, rest),
        SpecFcall::Rwrite(v) => lemma_parse_rwrite(v, rest),
        SpecFcall::Tclunk(v) => lemma_parse_tclunk(v, rest),
        SpecFcall::Rclunk(v) => lemma_parse_rclunk(v, rest),
        SpecFcall::Tremove(v) => lemma_parse_tremove(v, rest),
        SpecFcall::Rremove(v) => lemma_parse_rremove(v, rest),
    }
}

/// Appends the body of a message.
#[verifier::spinoff_prover]
#[verifier::rlimit(100)]
pub fn encode_fcall<'a>(buf: &mut Vec<u8>, f: &Fcall<'a>) -> (r: Result<(), ProtoError>)
    ensures
        r == err_result(enc_err_fcall(f@)),
        r is Ok ==> final(buf)@ == old(buf)@ + enc_fcall(f@),
        old(buf)@.is_prefix_of(final(buf)@),
{
    proof {
        reveal(enc_fcall);
        reveal(enc_err_fcall);
    }
    match f {
        Fcall::Rlerror(v) => encode_rlerror(buf, v),
        Fcall::Tattach(v) => encode_tattach(buf, v),
        Fcall::Rattach(v) => encode_rattach(buf, v),
        Fcall::Tstatfs(v) => encode_tstatfs(buf, v),
        Fcall::Rstatfs(v) => encode_rstatfs(buf, v),
        Fcall::Tlopen(v) => encode_tlopen(buf, v),
        Fcall::Rlopen(v) => encode_rlopen(buf, v),
        Fcall::Tlcreate(v) => encode_tlcreate(buf, v),
        Fcall::Rlcreate(v) => encode_rlcreate(buf, v),
        Fcall::Tsymlink(v) => encode_tsymlink(buf, v),
        Fcall::Rsymlink(v) => encode_rsymlink(buf, v),
        Fcall::Tmknod(v) => encode_tmknod(buf, v),
        Fcall::Rmknod(v) => encode_rmknod(buf, v),
        Fcall::Trename(v) => encode_trename(buf, v),
        Fcall::Rrename(v) => encode_rrename(buf, v),
        Fcall::Treadlink(v) => encode_treadlink(buf, v),
        Fcall::Rreadlink(v) => encode_rreadlink(buf, v),
        Fcall::Tgetattr(v) => encode_tgetattr(buf, v),
        Fcall::Rgetattr(v) => encode_rgetattr(buf, v),
        Fcall::Tsetattr(v) => encode_tsetattr(buf, v),
        Fcall::Rsetattr(v) => encode_rsetattr(buf, v),
        Fcall::Txattrwalk(v) => encode_txattrwalk(buf, v),
        Fcall::Rxattrwalk(v) => encode_rxattrwalk(buf, v),
        Fcall::Txattrcreate(v) => encode_txattrcreate(buf, v),
        Fcall::Rxattrcreate(v) => encode_rxattrcreate(buf, v),
        Fcall::Treaddir(v) => encode_treaddir(buf, v),
        Fcall::Rreaddir(v) => encode_rreaddir(buf, v),
        Fcall::Tfsync(v) => encode_tfsync(buf, v),
        Fcall::Rfsync(v) => encode_rfsync(buf, v),
        Fcall::Tlock(v) => encode_tlock(buf, v),
        Fcall::Rlock(v) => encode_rlock(buf, v),
        Fcall::Tgetlock(v) => encode_tgetlock(buf, v),
        Fcall::Rgetlock(v) => encode_rgetlock(buf, v),
        Fcall::Tlink(v) => encode_tlink(buf, v),
        Fcall::Rlink(v) => encode_rlink(buf, v),
        Fcall::Tmkdir(v) => encode_tmkdir(buf, v),
        Fcall::Rmkdir(v) => encode_rmkdir(buf, v),
        Fcall::Trenameat(v) => encode_trenameat(buf, v),
        Fcall::Rrenameat(v) => encode_rrenameat(buf, v),
        Fcall::Tunlinkat(v) => encode_tunlinkat(buf, v),
        Fcall::Runlinkat(v) => encode_runlinkat(buf, v),
        Fcall::Tauth(v) => encode_tauth(buf, v),
        Fcall::Rauth(v) => encode_rauth(buf, v),
        Fcall::Tversion(v) => encode_tversion(buf, v),
        Fcall::Rversion(v) => encode_rversion(buf, v),
        Fcall::Tflush(v) => encode_tflush(buf, v),
        Fcall::Rflush(v) => encode_rflush(buf, v),
        Fcall::Twalk(v) => encode_twalk(buf, v),
        Fcall::Rwalk(v) => encode_rwalk(buf, v),
        Fcall::Tread(v) => encode_tread(buf, v),
        Fcall::Rread(v) => encode_rread(buf, v),
        Fcall::Twrite(v) => encode_twrite(buf, v),
        Fcall::Rwrite(v) => encode_rwrite(buf, v),
        Fcall::Tclunk(v) => encode_tclunk(buf, v),
        Fcall::Rclunk(v) => encode_rclunk(buf, v),
        Fcall::Tremove(v) => encode_tremove(buf, v),
        Fcall::Rremove(v) => encode_rremove(buf, v),
    }
}

impl<'b> FcallDecoder<'b> {
    pub fn decode_qidtype(&mut self) -> (r: Result<QidType, ProtoError>)
        ensures
            r is Ok <==> parse_qidtype(old(self).buf@) is Some,
            r matches Ok(v) ==> parse_qidtype(old(self).buf@) == Some((v, final(self).buf@)),
            r matches Err(e) ==> e == ProtoError::InvalidMessage,
    {
        let b: u8 = self.decode_u8()?;
        Ok(QidType::from_bits_truncate(b))
    }

    pub fn decode_lopenflags(&mut self) -> (r: Result<LOpenFlags, ProtoError>)
        ensures
            r is Ok <==> parse_lopenflags(old(self).buf@) is Some,
            r matches Ok(v) ==> parse_lopenflags(old(self).buf@) == Some((v, final(self).buf@)),
            r matches Err(e) ==> e == ProtoError::InvalidMessage,
    {
        let b: u32 = self.decode_u32()?;
        Ok(LOpenFlags::from_bits_truncate(b))
    }

    pub fn decode_locktype(&mut self) -> (r: Result<LockType, ProtoError>)
        ensures
            r is Ok <==> parse_locktype(old(self).buf@) is Some,
            r matches Ok(v) ==> parse_locktype(old(self).buf@) == Some((v, final(self).buf@)),
            r matches Err(e) ==> e == ProtoError::InvalidMessage,
    {
        let b: u8 = self.decode_u8()?;
        Ok(LockType::from_bits_truncate(b))
    }

    pub fn decode_lockflag(&mut self) -> (r: Result<LockFlag, ProtoError>)
        ensures
            r is Ok <==> parse_lockflag(old(self).buf@) is Some,
            r matches Ok(v) ==> parse_lockflag(old(self).buf@) == Some((v, final(self).buf@)),
            r matches Err(e) ==> e == ProtoError::InvalidMessage,
    {
        let b: u32 = self.decode_u32()?;
        Ok(LockFlag::from_bits_truncate(b))
    }

    pub fn decode_lockstatus(&mut self) -> (r: Result<LockStatus, ProtoError>)
        ensures
            r is Ok <==> parse_lockstatus(old(self).buf@) is Some,
            r matches Ok(v) ==> parse_lockstatus(old(self).buf@) == Some((v, final(self).buf@)),
            r matches Err(e) ==> e == ProtoError::InvalidMessage,
    {
        let b: u8 = self.decode_u8()?;
        Ok(LockStatus::from_bits_truncate(b))
    }

    pub fn decode_getattrmask(&mut self) -> (r: Result<GetattrMask, ProtoError>)
        ensures
            r is Ok <==> parse_getattrmask(old(self).buf@) is Some,
            r matches Ok(v) ==> parse_getattrmask(old(self).buf@) == Some((v, final(self).buf@)),
            r matches Err(e) ==> e == ProtoError::InvalidMessage,
    {
        let b: u64 = self.decode_u64()?;
        Ok(GetattrMask::from_bits_truncate(b))
    }

    pub fn decode_setattrmask(&mut self) -> (r: Result<SetattrMask, ProtoError>)
        ensures
            r is Ok <==> parse_setattrmask(old(self).buf@) is Some,
            r matches Ok(v) ==> parse_setattrmask(old(self).buf@) == Some((v, final(self).buf@)),
            r matches Err(e) ==> e == ProtoError::InvalidMessage,
    {
        let b: u32 = self.decode_u32()?;
        Ok(SetattrMask::from_bits_truncate(b))
    }

    /// Reads a `Qid`.
    pub fn decode_qid(&mut self) -> (r: Result<Qid, ProtoError>)
        ensures
            r is Ok <==> parse_qid(old(self).buf@) is Some,
            r matches Ok(v) ==> parse_qid(old(self).buf@) == Some((v@, final(self).buf@)),
            r matches Err(e) ==> e == ProtoError::InvalidMessage,
    {
        let typ: QidType = self.decode_qidtype()?;
        let version: u32 = self.decode_u32()?;
        let path: u64 = self.decode_u64()?;
        Ok(Qid { typ, version, path })
    }

    /// Reads a `Statfs`.
    pub fn decode_statfs(&mut self) -> (r: Result<Statfs, ProtoError>)
        ensures
            r is Ok <==> parse_statfs(old(self).buf@) is Some,
            r matches Ok(v) ==> parse_statfs(old(self).buf@) == Some((v@, final(self).buf@)),
            r matches Err(e) ==> e == ProtoError::InvalidMessage,
    {
        let typ: u32 = self.decode_u32()?;
        let bsize: u32 = self.decode_u32()?;
        let blocks: u64 = self.decode_u64()?;
        let bfree: u64 = self.decode_u64()?;
        let bavail: u64 = self.decode_u64()?;
        let files: u64 = self.decode_u64()?;
        let ffree: u64 = self.decode_u64()?;
        let fsid: u64 = self.decode_u64()?;
        let namelen: u32 = self.decode_u32()?;
        Ok(Statfs { typ, bsize, blocks, bfree, bavail, files, ffree, fsid, namelen })
    }

    /// Reads a `Time`.
    pub fn decode_time(&mut self) -> (r: Result<Time, ProtoError>)
        ensures
            r is Ok <==> parse_time(old(self).buf@) is Some,
            r matches Ok(v) ==> parse_time(old(self).buf@) == Some((v@, final(self).buf@)),
            r matches Err(e) ==> e == ProtoError::InvalidMessage,
    {
        let sec: u64 = self.decode_u64()?;
        let nsec: u64 = self.decode_u64()?;
        Ok(Time { sec, nsec })
    }

    /// Reads a `Stat`.
    pub fn decode_stat(&mut self) -> (r: Result<Stat, ProtoError>)
        ensures
            r is Ok <==> parse_stat(old(self).buf@) is Some,
            r matches Ok(v) ==> parse_stat(old(self).buf@) == Some((v@, final(self).buf@)),
            r matches Err(e) ==> e == ProtoError::InvalidMessage,
    {
        let mode: u32 = self.decode_u32()?;
        let uid: u32 = self.decode_u32()?;
        let gid: u32 = self.decode_u32()?;
        let nlink: u64 = self.decode_u64()?;
        let rdev: u64 = self.decode_u64()?;
        let size: u64 = self.decode_u64()?;
        let blksize: u64 = self.decode_u64()?;
        let blocks: u64 = self.decode_u64()?;
        let atime: Time = self.decode_time()?;
        let mtime: Time = self.decode_time()?;
        let ctime: Time = self.decode_time()?;
        let btime: Time = self.decode_time()?;
        let gen: u64 = self.decode_u64()?;
        let data_version: u64 = self.decode_u64()?;
        Ok(Stat { mode, uid, gid, nlink, rdev, size, blksize, blocks, atime, mtime, ctime, btime, gen, data_version })
    }

    /// Reads a `SetAttr`.
    pub fn decode_setattr(&mut self) -> (r: Result<SetAttr, ProtoError>)
        ensures
            r is Ok <==> parse_setattr(old(self).buf@) is Some,
            r matches Ok(v) ==> parse_setattr(old(self).buf@) == Some((v@, final(self).buf@)),
            r matches Err(e) ==> e == ProtoError::InvalidMessage,
    {
        let mode: u32 = self.decode_u32()?;
        let uid: u32 = self.decode_u32()?;
        let gid: u32 = self.decode_u32()?;
        let size: u64 = self.decode_u64()?;
        let atime: Time = self.decode_time()?;
        let mtime: Time = self.decode_time()?;
        Ok(SetAttr { mode, uid, gid, size, atime, mtime })
    }

    /// Reads a `DirEntry`.
    pub fn decode_direntry(&mut self) -> (r: Result<DirEntry<'b>, ProtoError>)
        ensures
            r is Ok <==> parse_direntry(old(self).buf@) is Some,
            r matches Ok(v) ==> parse_direntry(old(self).buf@) == Some((v@, final(self).buf@)),
            r matches Ok(v) ==> v.is_borrowed(),
            r matches Err(e) ==> e == ProtoError::InvalidMessage,
    {
        let qid: Qid = self.decode_qid()?;
        let offset: u64 = self.decode_u64()?;
        let typ: u8 = self.decode_u8()?;
        let name: Cow<'b, str> = self.decode_str()?;
        Ok(DirEntry { qid, offset, typ, name })
    }

    /// Reads a `Flock`.
    pub fn decode_flock(&mut self) -> (r: Result<Flock<'b>, ProtoError>)
        ensures
            r is Ok <==> parse_flock(old(self).buf@) is Some,
            r matches Ok(v) ==> parse_flock(old(self).buf@) == Some((v@, final(self).buf@)),
            r matches Ok(v) ==> v.is_borrowed(),
            r matches Err(e) ==> e == ProtoError::InvalidMessage,
    {
        let typ: LockType = self.decode_locktype()?;
        let flags: LockFlag = self.decode_lockflag()?;
        let start: u64 = self.decode_u64()?;
        let length: u64 = self.decode_u64()?;
        let proc_id: u32 = self.decode_u32()?;
        let client_id: Cow<'b, str> = self.decode_str()?;
        Ok(Flock { typ, flags, start, length, proc_id, client_id })
    }

    /// Reads a `Getlock`.
    pub fn decode_getlock(&mut self) -> (r: Result<Getlock<'b>, ProtoError>)
        ensures
            r is Ok <==> parse_getlock(old(self).buf@) is Some,
            r matches Ok(v) ==> parse_getlock(old(self).buf@) == Some((v@, final(self).buf@)),
            r matches Ok(v) ==> v.is_borrowed(),
            r matches Err(e) ==> e == ProtoError::InvalidMessage,
    {
        let typ: LockType = self.decode_locktype()?;
        let start: u64 = self.decode_u64()?;
        let length: u64 = self.decode_u64()?;
        let proc_id: u32 = self.decode_u32()?;
        let client_id: Cow<'b, str> = self.decode_str()?;
        Ok(Getlock { typ, start, length, proc_id, client_id })
    }

    /// Reads a `Rlerror`.
    pub fn decode_rlerror(&mut self) -> (r: Result<Rlerror, ProtoError>)
        ensures
            r is Ok <==> parse_rlerror(old(self).buf@) is Some,
            r matches Ok(v) ==> parse_rlerror(old(self).buf@) == Some((v@, final(self).buf@)),
            r matches Err(e) ==> e == ProtoError::InvalidMessage,
    {
        let ecode: u32 = self.decode_u32()?;
        Ok(Rlerror { ecode })
    }

    /// Reads a `Tattach`.
    pub fn decode_tattach(&mut self) -> (r: Result<Tattach<'b>, ProtoError>)
        ensures
            r is Ok <==> parse_tattach(old(self).buf@) is Some,
            r matches Ok(v) ==> parse_tattach(old(self).buf@) == Some((v@, final(self).buf@)),
            r matches Ok(v) ==> v.is_borrowed(),
            r matches Err(e) ==> e == ProtoError::InvalidMessage,
    {
        let fid: u32 = self.decode_u32()?;
        let afid: u32 = self.decode_u32()?;
        let uname: Cow<'b, str> = self.decode_str()?;
        let aname: Cow<'b, str> = self.decode_str()?;
        let n_uname: u32 = self.decode_u32()?;
        Ok(Tattach { fid, afid, uname, aname, n_uname })
    }

    /// Reads a `Rattach`.
    pub fn decode_rattach(&mut self) -> (r: Result<Rattach, ProtoError>)
        ensures
            r is Ok <==> parse_rattach(old(self).buf@) is Some,
            r matches Ok(v) ==> parse_rattach(old(self).buf@) == Some((v@, final(self).buf@)),
            r matches Err(e) ==> e == ProtoError::InvalidMessage,
    {
        let qid: Qid = self.decode_qid()?;
        Ok(Rattach { qid })
    }

    /// Reads a `Tstatfs`.
    pub fn decode_tstatfs(&mut self) -> (r: Result<Tstatfs, ProtoError>)
        ensures
            r is Ok <==> parse_tstatfs(old(self).buf@) is Some,
            r matches Ok(v) ==> parse_tstatfs(old(self).buf@) == Some((v@, final(self).buf@)),
            r matches Err(e) ==> e == ProtoError::InvalidMessage,
    {
        let fid: u32 = self.decode_u32()?;
        Ok(Tstatfs { fid })
    }

    /// Reads a `Rstatfs`.
    pub fn decode_rstatfs(&mut self) -> (r: Result<Rstatfs, ProtoError>)
        ensures
            r is Ok <==> parse_rstatfs(old(self).buf@) is Some,
            r matches Ok(v) ==> parse_rstatfs(old(self).buf@) == Some((v@, final(self).buf@)),
            r matches Err(e) ==> e == ProtoError::InvalidMessage,
    {
        let statfs: Statfs = self.decode_statfs()?;
        Ok(Rstatfs { statfs })
    }

    /// Reads a `Tlopen`.
    pub fn decode_tlopen(&mut self) -> (r: Result<Tlopen, ProtoError>)
        ensures
            r is Ok <==> parse_tlopen(old(self).buf@) is Some,
            r matches Ok(v) ==> parse_tlopen(old(self).buf@) == Some((v@, final(self).buf@)),
            r matches Err(e) ==> e == ProtoError::InvalidMessage,
    {
        let fid: u32 = self.decode_u32()?;
        let flags: LOpenFlags = self.decode_lopenflags()?;
        Ok(Tlopen { fid, flags })
    }

    /// Reads a `Rlopen`.
    pub fn decode_rlopen(&mut self) -> (r: Result<Rlopen, ProtoError>)
        ensures
            r is Ok <==> parse_rlopen(old(self).buf@) is Some,
            r matches Ok(v) ==> parse_rlopen(old(self).buf@) == Some((v@, final(self).buf@)),
            r matches Err(e) ==> e == ProtoError::InvalidMessage,
    {
        let qid: Qid = self.decode_qid()?;
        let iounit: u32 = self.decode_u32()?;
        Ok(Rlopen { qid, iounit })
    }

    /// Reads a `Tlcreate`.
    pub fn decode_tlcreate(&mut self) -> (r: Result<Tlcreate<'b>, ProtoError>)
        ensures
            r is Ok <==> parse_tlcreate(old(self).buf@) is Some,
            r matches Ok(v) ==> parse_tlcreate(old(self).buf@) == Some((v@, final(self).buf@)),
            r matches Ok(v) ==> v.is_borrowed(),
            r matches Err(e) ==> e == ProtoError::InvalidMessage,
    {
        let fid: u32 = self.decode_u32()?;
        let name: Cow<'b, str> = self.decode_str()?;
        let flags: LOpenFlags = self.decode_lopenflags()?;
        let mode: u32 = self.decode_u32()?;
        let gid: u32 = self.decode_u32()?;
        Ok(Tlcreate { fid, name, flags, mode, gid })
    }

    /// Reads a `Rlcreate`.
    pub fn decode_rlcreate(&mut self) -> (r: Result<Rlcreate, ProtoError>)
        ensures
            r is Ok <==> parse_rlcreate(old(self).buf@) is Some,
            r matches Ok(v) ==> parse_rlcreate(old(self).buf@) == Some((v@, final(self).buf@)),
            r matches Err(e) ==> e == ProtoError::InvalidMessage,
    {
        let qid: Qid = self.decode_qid()?;
        let iounit: u32 = self.decode_u32()?;
        Ok(Rlcreate { qid, iounit })
    }

    /// Reads a `Tsymlink`.
    pub fn decode_tsymlink(&mut self) -> (r: Result<Tsymlink<'b>, ProtoError>)
        ensures
            r is Ok <==> parse_tsymlink(old(self).buf@) is Some,
            r matches Ok(v) ==> parse_tsymlink(old(self).buf@) == Some((v@, final(self).buf@)),
            r matches Ok(v) ==> v.is_borrowed(),
            r matches Err(e) ==> e == ProtoError::InvalidMessage,
    {
        let fid: u32 = self.decode_u32()?;
        let name: Cow<'b, str> = self.decode_str()?;
        let symtgt: Cow<'b, str> = self.decode_str()?;
        let gid: u32 = self.decode_u32()?;
        Ok(Tsymlink { fid, name, symtgt, gid })
    }

    /// Reads a `Rsymlink`.
    pub fn decode_rsymlink(&mut self) -> (r: Result<Rsymlink, ProtoError>)
        ensures
            r is Ok <==> parse_rsymlink(old(self).buf@) is Some,
            r matches Ok(v) ==> parse_rsymlink(old(self).buf@) == Some((v@, final(self).buf@)),
            r matches Err(e) ==> e == ProtoError::InvalidMessage,
    {
        let qid: Qid = self.decode_qid()?;
        Ok(Rsymlink { qid })
    }

    /// Reads a `Tmknod`.
    pub fn decode_tmknod(&mut self) -> (r: Result<Tmknod<'b>, ProtoError>)
        ensures
            r is Ok <==> parse_tmknod(old(self).buf@) is Some,
            r matches Ok(v) ==> parse_tmknod(old(self).buf@) == Some((v@, final(self).buf@)),
            r matches Ok(v) ==> v.is_borrowed(),
            r matches Err(e) ==> e == ProtoError::InvalidMessage,
    {
        let dfid: u32 = self.decode_u32()?;
        let name: Cow<'b, str> = self.decode_str()?;
        let mode: u32 = self.decode_u32()?;
        let major: u32 = self.decode_u32()?;
        let minor: u32 = self.decode_u32()?;
        let gid: u32 = self.decode_u32()?;
        Ok(Tmknod { dfid, name, mode, major, minor, gid })
    }

    /// Reads a `Rmknod`.
    pub fn decode_rmknod(&mut self) -> (r: Result<Rmknod, ProtoError>)
        ensures
            r is Ok <==> parse_rmknod(old(self).buf@) is Some,
            r matches Ok(v) ==> parse_rmknod(old(self).buf@) == Some((v@, final(self).buf@)),
            r matches Err(e) ==> e == ProtoError::InvalidMessage,
    {
        let qid: Qid = self.decode_qid()?;
        Ok(Rmknod { qid })
    }

    /// Reads a `Trename`.
    pub fn decode_trename(&mut self) -> (r: Result<Trename<'b>, ProtoError>)
        ensures
            r is Ok <==> parse_trename(old(self).buf@) is Some,
            r matches Ok(v) ==> parse_trename(old(self).buf@) == Some((v@, final(self).buf@)),
            r matches Ok(v) ==> v.is_borrowed(),
            r matches Err(e) ==> e == ProtoError::InvalidMessage,
    {
        let fid: u32 = self.decode_u32()?;
        let dfid: u32 = self.decode_u32()?;
        let name: Cow<'b, str> = self.decode_str()?;
        Ok(Trename { fid, dfid, name })
    }

    /// Reads a `Rrename`.
    pub fn decode_rrename(&mut self) -> (r: Result<Rrename, ProtoError>)
        ensures
            r is Ok <==> parse_rrename(old(self).buf@) is Some,
            r matches Ok(v) ==> parse_rrename(old(self).buf@) == Some((v@, final(self).buf@)),
            r matches Err(e) ==> e == ProtoError::InvalidMessage,
    {
        Ok(Rrename {})
    }

    /// Reads a `Treadlink`.
    pub fn decode_treadlink(&mut self) -> (r: Result<Treadlink, ProtoError>)
        ensures
            r is Ok <==> parse_treadlink(old(self).buf@) is Some,
            r matches Ok(v) ==> parse_treadlink(old(self).buf@) == Some((v@, final(self).buf@)),
            r matches Err(e) ==> e == ProtoError::InvalidMessage,
    {
        let fid: u32 = self.decode_u32()?;
        Ok(Treadlink { fid })
    }

    /// Reads a `Rreadlink`.
    pub fn decode_rreadlink(&mut self) -> (r: Result<Rreadlink<'b>, ProtoError>)
        ensures
            r is Ok <==> parse_rreadlink(old(self).buf@) is Some,
            r matches Ok(v) ==> parse_rreadlink(old(self).buf@) == Some((v@, final(self).buf@)),
            r matches Ok(v) ==> v.is_borrowed(),
            r matches Err(e) ==> e == ProtoError::InvalidMessage,
    {
        let target: Cow<'b, str> = self.decode_str()?;
        Ok(Rreadlink { target })
    }

    /// Reads a `Tgetattr`.
    pub fn decode_tgetattr(&mut self) -> (r: Result<Tgetattr, ProtoError>)
        ensures
            r is Ok <==> parse_tgetattr(old(self).buf@) is Some,
            r matches Ok(v) ==> parse_tgetattr(old(self).buf@) == Some((v@, final(self).buf@)),
            r matches Err(e) ==> e == ProtoError::InvalidMessage,
    {
        let fid: u32 = self.decode_u32()?;
        let req_mask: GetattrMask = self.decode_getattrmask()?;
        Ok(Tgetattr { fid, req_mask })
    }

    /// Reads a `Rgetattr`.
    pub fn decode_rgetattr(&mut self) -> (r: Result<Rgetattr, ProtoError>)
        ensures
            r is Ok <==> parse_rgetattr(old(self).buf@) is Some,
            r matches Ok(v) ==> parse_rgetattr(old(self).buf@) == Some((v@, final(self).buf@)),
            r matches Err(e) ==> e == ProtoError::InvalidMessage,
    {
        let valid: GetattrMask = self.decode_getattrmask()?;
        let qid: Qid = self.decode_qid()?;
        let stat: Stat = self.decode_stat()?;
        Ok(Rgetattr { valid, qid, stat })
    }

    /// Reads a `Tsetattr`.
    pub fn decode_tsetattr(&mut self) -> (r: Result<Tsetattr, ProtoError>)
        ensures
            r is Ok <==> parse_tsetattr(old(self).buf@) is Some,
            r matches Ok(v) ==> parse_tsetattr(old(self).buf@) == Some((v@, final(self).buf@)),
            r matches Err(e) ==> e == ProtoError::InvalidMessage,
    {
        let fid: u32 = self.decode_u32()?;
        let valid: SetattrMask = self.decode_setattrmask()?;
        let stat: SetAttr = self.decode_setattr()?;
        Ok(Tsetattr { fid, valid, stat })
    }

    /// Reads a `Rsetattr`.
    pub fn decode_rsetattr(&mut self) -> (r: Result<Rsetattr, ProtoError>)
        ensures
            r is Ok <==> parse_rsetattr(old(self).buf@) is Some,
            r matches Ok(v) ==> parse_rsetattr(old(self).buf@) == Some((v@, final(self).buf@)),
            r matches Err(e) ==> e == ProtoError::InvalidMessage,
    {
        Ok(Rsetattr {})
    }

    /// Reads a `Txattrwalk`.
    pub fn decode_txattrwalk(&mut self) -> (r: Result<Txattrwalk<'b>, ProtoError>)
        ensures
            r is Ok <==> parse_txattrwalk(old(self).buf@) is Some,
            r matches Ok(v) ==> parse_txattrwalk(old(self).buf@) == Some((v@, final(self).buf@)),
            r matches Ok(v) ==> v.is_borrowed(),
            r matches Err(e) ==> e == ProtoError::InvalidMessage,
    {
        let fid: u32 = self.decode_u32()?;
        let new_fid: u32 = self.decode_u32()?;
        let name: Cow<'b, str> = self.decode_str()?;
        Ok(Txattrwalk { fid, new_fid, name })
    }

    /// Reads a `Rxattrwalk`.
    pub fn decode_rxattrwalk(&mut self) -> (r: Result<Rxattrwalk, ProtoError>)
        ensures
            r is Ok <==> parse_rxattrwalk(old(self).buf@) is Some,
            r matches Ok(v) ==> parse_rxattrwalk(old(self).buf@) == Some((v@, final(self).buf@)),
            r matches Err(e) ==> e == ProtoError::InvalidMessage,
    {
        let size: u64 = self.decode_u64()?;
        Ok(Rxattrwalk { size })
    }

    /// Reads a `Txattrcreate`.
    pub fn decode_txattrcreate(&mut self) -> (r: Result<Txattrcreate<'b>, ProtoError>)
        ensures
            r is Ok <==> parse_txattrcreate(old(self).buf@) is Some,
            r matches Ok(v) ==> parse_txattrcreate(old(self).buf@) == Some((v@, final(self).buf@)),
            r matches Ok(v) ==> v.is_borrowed(),
            r matches Err(e) ==> e == ProtoError::InvalidMessage,
    {
        let fid: u32 = self.decode_u32()?;
        let name: Cow<'b, str> = self.decode_str()?;
        let attr_size: u64 = self.decode_u64()?;
        let flags: u32 = self.decode_u32()?;
        Ok(Txattrcreate { fid, name, attr_size, flags })
    }

    /// Reads a `Rxattrcreate`.
    pub fn decode_rxattrcreate(&mut self) -> (r: Result<Rxattrcreate, ProtoError>)
        ensures
            r is Ok <==> parse_rxattrcreate(old(self).buf@) is Some,
            r matches Ok(v) ==> parse_rxattrcreate(old(self).buf@) == Some((v@, final(self).buf@)),
            r matches Err(e) ==> e == ProtoError::InvalidMessage,
    {
        Ok(Rxattrcreate {})
    }

    /// Reads a `Treaddir`.
    pub fn decode_treaddir(&mut self) -> (r: Result<Treaddir, ProtoError>)
        ensures
            r is Ok <==> parse_treaddir(old(self).buf@) is Some,
            r matches Ok(v) ==> parse_treaddir(old(self).buf@) == Some((v@, final(self).buf@)),
            r matches Err(e) ==> e == ProtoError::InvalidMessage,
    {
        let fid: u32 = self.decode_u32()?;
        let offset: u64 = self.decode_u64()?;
        let count: u32 = self.decode_u32()?;
        Ok(Treaddir { fid, offset, count })
    }

    /// Reads a `Rreaddir`.
    pub fn decode_rreaddir(&mut self) -> (r: Result<Rreaddir<'b>, ProtoError>)
        ensures
            r is Ok <==> parse_rreaddir(old(self).buf@) is Some,
            r matches Ok(v) ==> parse_rreaddir(old(self).buf@) == Some((v@, final(self).buf@)),
            r matches Ok(v) ==> v.is_borrowed(),
            r matches Err(e) ==> e == ProtoError::InvalidMessage,
    {
        let data: DirEntryData<'b> = self.decode_direntrydata()?;
        Ok(Rreaddir { data })
    }

    /// Reads a `Tfsync`.
    pub fn decode_tfsync(&mut self) -> (r: Result<Tfsync, ProtoError>)
        ensures
            r is Ok <==> parse_tfsync(old(self).buf@) is Some,
            r matches Ok(v) ==> parse_tfsync(old(self).buf@) == Some((v@, final(self).buf@)),
            r matches Err(e) ==> e == ProtoError::InvalidMessage,
    {
        let fid: u32 = self.decode_u32()?;
        Ok(Tfsync { fid })
    }

    /// Reads a `Rfsync`.
    pub fn decode_rfsync(&mut self) -> (r: Result<Rfsync, ProtoError>)
        ensures
            r is Ok <==> parse_rfsync(old(self).buf@) is Some,
            r matches Ok(v) ==> parse_rfsync(old(self).buf@) == Some((v@, final(self).buf@)),
            r matches Err(e) ==> e == ProtoError::InvalidMessage,
    {
        Ok(Rfsync {})
    }

    /// Reads a `Tlock`.
    pub fn decode_tlock(&mut self) -> (r: Result<Tlock<'b>, ProtoError>)
        ensures
            r is Ok <==> parse_tlock(old(self).buf@) is Some,
            r matches Ok(v) ==> parse_tlock(old(self).buf@) == Some((v@, final(self).buf@)),
            r matches Ok(v) ==> v.is_borrowed(),
            r matches Err(e) ==> e == ProtoError::InvalidMessage,
    {
        let fid: u32 = self.decode_u32()?;
        let flock: Flock<'b> = self.decode_flock()?;
        Ok(Tlock { fid, flock })
    }

    /// Reads a `Rlock`.
    pub fn decode_rlock(&mut self) -> (r: Result<Rlock, ProtoError>)
        ensures
            r is Ok <==> parse_rlock(old(self).buf@) is Some,
            r matches Ok(v) ==> parse_rlock(old(self).buf@) == Some((v@, final(self).buf@)),
            r matches Err(e) ==> e == ProtoError::InvalidMessage,
    {
        let status: LockStatus = self.decode_lockstatus()?;
        Ok(Rlock { status })
    }

    /// Reads a `Tgetlock`.
    pub fn decode_tgetlock(&mut self) -> (r: Result<Tgetlock<'b>, ProtoError>)
        ensures
            r is Ok <==> parse_tgetlock(old(self).buf@) is Some,
            r matches Ok(v) ==> parse_tgetlock(old(self).buf@) == Some((v@, final(self).buf@)),
            r matches Ok(v) ==> v.is_borrowed(),
            r matches Err(e) ==> e == ProtoError::InvalidMessage,
    {
        let fid: u32 = self.decode_u32()?;
        let flock: Getlock<'b> = self.decode_getlock()?;
        Ok(Tgetlock { fid, flock })
    }

    /// Reads a `Rgetlock`.
    pub fn decode_rgetlock(&mut self) -> (r: Result<Rgetlock<'b>, ProtoError>)
        ensures
            r is Ok <==> parse_rgetlock(old(self).buf@) is Some,
            r matches Ok(v) ==> parse_rgetlock(old(self).buf@) == Some((v@, final(self).buf@)),
            r matches Ok(v) ==> v.is_borrowed(),
            r matches Err(e) ==> e == ProtoError::InvalidMessage,
    {
        let flock: Getlock<'b> = self.decode_getlock()?;
        Ok(Rgetlock { flock })
    }

    /// Reads a `Tlink`.
    pub fn decode_tlink(&mut self) -> (r: Result<Tlink<'b>, ProtoError>)
        ensures
            r is Ok <==> parse_tlink(old(self).buf@) is Some,
            r matches Ok(v) ==> parse_tlink(old(self).buf@) == Some((v@, final(self).buf@)),
            r matches Ok(v) ==> v.is_borrowed(),
            r matches Err(e) ==> e == ProtoError::InvalidMessage,
    {
        let dfid: u32 = self.decode_u32()?;
        let fid: u32 = self.decode_u32()?;
        let name: Cow<'b, str> = self.decode_str()?;
        Ok(Tlink { dfid, fid, name })
    }

    /// Reads a `Rlink`.
    pub fn decode_rlink(&mut self) -> (r: Result<Rlink, ProtoError>)
        ensures
            r is Ok <==> parse_rlink(old(self).buf@) is Some,
            r matches Ok(v) ==> parse_rlink(old(self).buf@) == Some((v@, final(self).buf@)),
            r matches Err(e) ==> e == ProtoError::InvalidMessage,
    {
        Ok(Rlink {})
    }

    /// Reads a `Tmkdir`.
    pub fn decode_tmkdir(&mut self) -> (r: Result<Tmkdir<'b>, ProtoError>)
        ensures
            r is Ok <==> parse_tmkdir(old(self).buf@) is Some,
            r matches Ok(v) ==> parse_tmkdir(old(self).buf@) == Some((v@, final(self).buf@)),
            r matches Ok(v) ==> v.is_borrowed(),
            r matches Err(e) ==> e == ProtoError::InvalidMessage,
    {
        let dfid: u32 = self.decode_u32()?;
        let name: Cow<'b, str> = self.decode_str()?;
        let mode: u32 = self.decode_u32()?;
        let gid: u32 = self.decode_u32()?;
        Ok(Tmkdir { dfid, name, mode, gid })
    }

    /// Reads a `Rmkdir`.
    pub fn decode_rmkdir(&mut self) -> (r: Result<Rmkdir, ProtoError>)
        ensures
            r is Ok <==> parse_rmkdir(old(self).buf@) is Some,
            r matches Ok(v) ==> parse_rmkdir(old(self).buf@) == Some((v@, final(self).buf@)),
            r matches Err(e) ==> e == ProtoError::InvalidMessage,
    {
        let qid: Qid = self.decode_qid()?;
        Ok(Rmkdir { qid })
    }

    /// Reads a `Trenameat`.
    pub fn decode_trenameat(&mut self) -> (r: Result<Trenameat<'b>, ProtoError>)
        ensures
            r is Ok <==> parse_trenameat(old(self).buf@) is Some,
            r matches Ok(v) ==> parse_trenameat(old(self).buf@) == Some((v@, final(self).buf@)),
            r matches Ok(v) ==> v.is_borrowed(),
            r matches Err(e) ==> e == ProtoError::InvalidMessage,
    {
        let olddfid: u32 = self.decode_u32()?;
        let oldname: Cow<'b, str> = self.decode_str()?;
        let newdfid: u32 = self.decode_u32()?;
        let newname: Cow<'b, str> = self.decode_str()?;
        Ok(Trenameat { olddfid, oldname, newdfid, newname })
    }

    /// Reads a `Rrenameat`.
    pub fn decode_rrenameat(&mut self) -> (r: Result<Rrenameat, ProtoError>)
        ensures
            r is Ok <==> parse_rrenameat(old(self).buf@) is Some,
            r matches Ok(v) ==> parse_rrenameat(old(self).buf@) == Some((v@, final(self).buf@)),
            r matches Err(e) ==> e == ProtoError::InvalidMessage,
    {
        Ok(Rrenameat {})
    }

    /// Reads a `Tunlinkat`.
    pub fn decode_tunlinkat(&mut self) -> (r: Result<Tunlinkat<'b>, ProtoError>)
        ensures
            r is Ok <==> parse_tunlinkat(old(self).buf@) is Some,
            r matches Ok(v) ==> parse_tunlinkat(old(self).buf@) == Some((v@, final(self).buf@)),
            r matches Ok(v) ==> v.is_borrowed(),
            r matches Err(e) ==> e == ProtoError::InvalidMessage,
    {
        let dfid: u32 = self.decode_u32()?;
        let name: Cow<'b, str> = self.decode_str()?;
        let flags: u32 = self.decode_u32()?;
        Ok(Tunlinkat { dfid, name, flags })
    }

    /// Reads a `Runlinkat`.
    pub fn decode_runlinkat(&mut self) -> (r: Result<Runlinkat, ProtoError>)
        ensures
            r is Ok <==> parse_runlinkat(old(self).buf@) is Some,
            r matches Ok(v) ==> parse_runlinkat(old(self).buf@) == Some((v@, final(self).buf@)),
            r matches Err(e) ==> e == ProtoError::InvalidMessage,
    {
        Ok(Runlinkat {})
    }

    /// Reads a `Tauth`.
    pub fn decode_tauth(&mut self) -> (r: Result<Tauth<'b>, ProtoError>)
        ensures
            r is Ok <==> parse_tauth(old(self).buf@) is Some,
            r matches Ok(v) ==> parse_tauth(old(self).buf@) == Some((v@, final(self).buf@)),
            r matches Ok(v) ==> v.is_borrowed(),
            r matches Err(e) ==> e == ProtoError::InvalidMessage,
    {
        let afid: u32 = self.decode_u32()?;
        let uname: Cow<'b, str> = self.decode_str()?;
        let aname: Cow<'b, str> = self.decode_str()?;
        let n_uname: u32 = self.decode_u32()?;
        Ok(Tauth { afid, uname, aname, n_uname })
    }

    /// Reads a `Rauth`.
    pub fn decode_rauth(&mut self) -> (r: Result<Rauth, ProtoError>)
        ensures
            r is Ok <==> parse_rauth(old(self).buf@) is Some,
            r matches Ok(v) ==> parse_rauth(old(self).buf@) == Some((v@, final(self).buf@)),
            r matches Err(e) ==> e == ProtoError::InvalidMessage,
    {
        let aqid: Qid = self.decode_qid()?;
        Ok(Rauth { aqid })
    }

    /// Reads a `Tversion`.
    pub fn decode_tversion(&mut self) -> (r: Result<Tversion<'b>, ProtoError>)
        ensures
            r is Ok <==> parse_tversion(old(self).buf@) is Some,
            r matches Ok(v) ==> parse_tversion(old(self).buf@) == Some((v@, final(self).buf@)),
            r matches Ok(v) ==> v.is_borrowed(),
            r matches Err(e) ==> e == ProtoError::InvalidMessage,
    {
        let msize: u32 = self.decode_u32()?;
        let version: Cow<'b, str> = self.decode_str()?;
        Ok(Tversion { msize, version })
    }

    /// Reads a `Rversion`.
    pub fn decode_rversion(&mut self) -> (r: Result<Rversion<'b>, ProtoError>)
        ensures
            r is Ok <==> parse_rversion(old(self).buf@) is Some,
            r matches Ok(v) ==> parse_rversion(old(self).buf@) == Some((v@, final(self).buf@)),
            r matches Ok(v) ==> v.is_borrowed(),
            r matches Err(e) ==> e == ProtoError::InvalidMessage,
    {
        let msize: u32 = self.decode_u32()?;
        let version: Cow<'b, str> = self.decode_str()?;
        Ok(Rversion { msize, version })
    }

    /// Reads a `Tflush`.
    pub fn decode_tflush(&mut self) -> (r: Result<Tflush, ProtoError>)
        ensures
            r is Ok <==> parse_tflush(old(self).buf@) is Some,
            r matches Ok(v) ==> parse_tflush(old(self).buf@) == Some((v@, final(self).buf@)),
            r matches Err(e) ==> e == ProtoError::InvalidMessage,
    {
        let oldtag: u16 = self.decode_u16()?;
        Ok(Tflush { oldtag })
    }

    /// Reads a `Rflush`.
    pub fn decode_rflush(&mut self) -> (r: Result<Rflush, ProtoError>)
        ensures
            r is Ok <==> parse_rflush(old(self).buf@) is Some,
            r matches Ok(v) ==> parse_rflush(old(self).buf@) == Some((v@, final(self).buf@)),
            r matches Err(e) ==> e == ProtoError::InvalidMessage,
    {
        Ok(Rflush {})
    }

    /// Reads a `Twalk`.
    pub fn decode_twalk(&mut self) -> (r: Result<Twalk<'b>, ProtoError>)
        ensures
            r is Ok <==> parse_twalk(old(self).buf@) is Some,
            r matches Ok(v) ==> parse_twalk(old(self).buf@) == Some((v@, final(self).buf@)),
            r matches Ok(v) ==> v.is_borrowed(),
            r matches Err(e) ==> e == ProtoError::InvalidMessage,
    {
        let fid: u32 = self.decode_u32()?;
        let new_fid: u32 = self.decode_u32()?;
        let wnames: Vec<Cow<'b, str>> = self.decode_vec_str()?;
        Ok(Twalk { fid, new_fid, wnames })
    }

    /// Reads a `Rwalk`.
    pub fn decode_rwalk(&mut self) -> (r: Result<Rwalk, ProtoError>)
        ensures
            r is Ok <==> parse_rwalk(old(self).buf@) is Some,
            r matches Ok(v) ==> parse_rwalk(old(self).buf@) == Some((v@, final(self).buf@)),
            r matches Err(e) ==> e == ProtoError::InvalidMessage,
    {
        let wqids: Vec<Qid> = self.decode_vec_qid()?;
        Ok(Rwalk { wqids })
    }

    /// Reads a `Tread`.
    pub fn decode_tread(&mut self) -> (r: Result<Tread, ProtoError>)
        ensures
            r is Ok <==> parse_tread(old(self).buf@) is Some,
            r matches Ok(v) ==> parse_tread(old(self).buf@) == Some((v@, final(self).buf@)),
            r matches Err(e) ==> e == ProtoError::InvalidMessage,
    {
        let fid: u32 = self.decode_u32()?;
        let offset: u64 = self.decode_u64()?;
        let count: u32 = self.decode_u32()?;
        Ok(Tread { fid, offset, count })
    }

    /// Reads a `Rread`.
    pub fn decode_rread(&mut self) -> (r: Result<Rread<'b>, ProtoError>)
        ensures
            r is Ok <==> parse_rread(old(self).buf@) is Some,
            r matches Ok(v) ==> parse_rread(old(self).buf@) == Some((v@, final(self).buf@)),
            r matches Ok(v) ==> v.is_borrowed(),
            r matches Err(e) ==> e == ProtoError::InvalidMessage,
    {
        let data: Cow<'b, [u8]> = self.decode_data_buf()?;
        Ok(Rread { data })
    }

    /// Reads a `Twrite`.
    pub fn decode_twrite(&mut self) -> (r: Result<Twrite<'b>, ProtoError>)
        ensures
            r is Ok <==> parse_twrite(old(self).buf@) is Some,
            r matches Ok(v) ==> parse_twrite(old(self).buf@) == Some((v@, final(self).buf@)),
            r matches Ok(v) ==> v.is_borrowed(),
            r matches Err(e) ==> e == ProtoError::InvalidMessage,
    {
        let fid: u32 = self.decode_u32()?;
        let offset: u64 = self.decode_u64()?;
        let data: Cow<'b, [u8]> = self.decode_data_buf()?;
        Ok(Twrite { fid, offset, data })
    }

    /// Reads a `Rwrite`.
    pub fn decode_rwrite(&mut self) -> (r: Result<Rwrite, ProtoError>)
        ensures
            r is Ok <==> parse_rwrite(old(self).buf@) is Some,
            r matches Ok(v) ==> parse_rwrite(old(self).buf@) == Some((v@, final(self).buf@)),
            r matches Err(e) ==> e == ProtoError::InvalidMessage,
    {
        let count: u32 = self.decode_u32()?;
        Ok(Rwrite { count })
    }

    /// Reads a `Tclunk`.
    pub fn decode_tclunk(&mut self) -> (r: Result<Tclunk, ProtoError>)
        ensures
            r is Ok <==> parse_tclunk(old(self).buf@) is Some,
            r matches Ok(v) ==> parse_tclunk(old(self).buf@) == Some((v@, final(self).buf@)),
            r matches Err(e) ==> e == ProtoError::InvalidMessage,
    {
        let fid: u32 = self.decode_u32()?;
        Ok(Tclunk { fid })
    }

    /// Reads a `Rclunk`.
    pub fn decode_rclunk(&mut self) -> (r: Result<Rclunk, ProtoError>)
        ensures
            r is Ok <==> parse_rclunk(old(self).buf@) is Some,
            r matches Ok(v) ==> parse_rclunk(old(self).buf@) == Some((v@, final(self).buf@)),
            r matches Err(e) ==> e == ProtoError::InvalidMessage,
    {
        Ok(Rclunk {})
    }

    /// Reads a `Tremove`.
    pub fn decode_tremove(&mut self) -> (r: Result<Tremove, ProtoError>)
        ensures
            r is Ok <==> parse_tremove(old(self).buf@) is Some,
            r matches Ok(v) ==> parse_tremove(old(self).buf@) == Some((v@, final(self).buf@)),
            r matches Err(e) ==> e == ProtoError::InvalidMessage,
    {
        let fid: u32 = self.decode_u32()?;
        Ok(Tremove { fid })
    }

    /// Reads a `Rremove`.
    pub fn decode_rremove(&mut self) -> (r: Result<Rremove, ProtoError>)
        ensures
            r is Ok <==> parse_rremove(old(self).buf@) is Some,
            r matches Ok(v) ==> parse_rremove(old(self).buf@) == Some((v@, final(self).buf@)),
            r matches Err(e) ==> e == ProtoError::InvalidMessage,
    {
        Ok(Rremove {})
    }

    /// Reads the body of a message of type `t`.
    #[verifier::spinoff_prover]
    #[verifier::rlimit(100)]
    pub fn decode_fcall(&mut self, t: FcallType) -> (r: Result<Fcall<'b>, ProtoError>)
        ensures
            r is Ok <==> parse_fcall(t, old(self).buf@) is Some,
            r matches Ok(v) ==> parse_fcall(t, old(self).buf@) == Some((v@, final(self).buf@)),
            r matches Ok(v) ==> v.is_borrowed(),
            r matches Err(e) ==> e == ProtoError::InvalidMessage,
    {
        proof {
            reveal(parse_fcall);
        }
        match t {
            FcallType::Rlerror => {
                let v = self.decode_rlerror()?;
                Ok(Fcall::Rlerror(v))
            },
            FcallType::Tattach => {
                let v = self.decode_tattach()?;
                Ok(Fcall::Tattach(v))
            },
            FcallType::Rattach => {
                let v = self.decode_rattach()?;
                Ok(Fcall::Rattach(v))
            },
            FcallType::Tstatfs => {
                let v = self.decode_tstatfs()?;
                Ok(Fcall::Tstatfs(v))
            },
            FcallType::Rstatfs => {
                let v = self.decode_rstatfs()?;
                Ok(Fcall::Rstatfs(v))
            },
            FcallType::Tlopen => {
                let v = self.decode_tlopen()?;
                Ok(Fcall::Tlopen(v))
            },
            FcallType::Rlopen => {
                let v = self.decode_rlopen()?;
                Ok(Fcall::Rlopen(v))
            },
            FcallType::Tlcreate => {
                let v = self.decode_tlcreate()?;
                Ok(Fcall::Tlcreate(v))
            },
            FcallType::Rlcreate => {
                let v = self.decode_rlcreate()?;
                Ok(Fcall::Rlcreate(v))
            },
            FcallType::Tsymlink => {
                let v = self.decode_tsymlink()?;
                Ok(Fcall::Tsymlink(v))
            },
            FcallType::Rsymlink => {
                let v = self.decode_rsymlink()?;
                Ok(Fcall::Rsymlink(v))
            },
            FcallType::Tmknod => {
                let v = self.decode_tmknod()?;
                Ok(Fcall::Tmknod(v))
            },
            FcallType::Rmknod => {
                let v = self.decode_rmknod()?;
                Ok(Fcall::Rmknod(v))
            },
            FcallType::Trename => {
                let v = self.decode_trename()?;
                Ok(Fcall::Trename(v))
            },
            FcallType::Rrename => {
                let v = self.decode_rrename()?;
                Ok(Fcall::Rrename(v))
            },
            FcallType::Treadlink => {
                let v = self.decode_treadlink()?;
                Ok(Fcall::Treadlink(v))
            },
            FcallType::Rreadlink => {
                let v = self.decode_rreadlink()?;
                Ok(Fcall::Rreadlink(v))
            },
            FcallType::Tgetattr => {
                let v = self.decode_tgetattr()?;
                Ok(Fcall::Tgetattr(v))
            },
            FcallType::Rgetattr => {
                let v = self.decode_rgetattr()?;
                Ok(Fcall::Rgetattr(v))
            },
            FcallType::Tsetattr => {
                let v = self.decode_tsetattr()?;
                Ok(Fcall::Tsetattr(v))
            },
            FcallType::Rsetattr => {
                let v = self.decode_rsetattr()?;
                Ok(Fcall::Rsetattr(v))
            },
            FcallType::Txattrwalk => {
                let v = self.decode_txattrwalk()?;
                Ok(Fcall::Txattrwalk(v))
            },
            FcallType::Rxattrwalk => {
                let v = self.decode_rxattrwalk()?;
                Ok(Fcall::Rxattrwalk(v))
            },
            FcallType::Txattrcreate => {
                let v = self.decode_txattrcreate()?;
                Ok(Fcall::Txattrcreate(v))
            },
            FcallType::Rxattrcreate => {
                let v = self.decode_rxattrcreate()?;
                Ok(Fcall::Rxattrcreate(v))
            },
            FcallType::Treaddir => {
                let v = self.decode_treaddir()?;
                Ok(Fcall::Treaddir(v))
            },
            FcallType::Rreaddir => {
                let v = self.decode_rreaddir()?;
                Ok(Fcall::Rreaddir(v))
            },
            FcallType::Tfsync => {
                let v = self.decode_tfsync()?;
                Ok(Fcall::Tfsync(v))
            },
            FcallType::Rfsync => {
                let v = self.decode_rfsync()?;
                Ok(Fcall::Rfsync(v))
            },
            FcallType::Tlock => {
                let v = self.decode_tlock()?;
                Ok(Fcall::Tlock(v))
            },
            FcallType::Rlock => {
                let v = self.decode_rlock()?;
                Ok(Fcall::Rlock(v))
            },
            FcallType::Tgetlock => {
                let v = self.decode_tgetlock()?;
                Ok(Fcall::Tgetlock(v))
            },
            FcallType::Rgetlock => {
                let v = self.decode_rgetlock()?;
                Ok(Fcall::Rgetlock(v))
            },
            FcallType::Tlink => {
                let v = self.decode_tlink()?;
                Ok(Fcall::Tlink(v))
            },
            FcallType::Rlink => {
                let v = self.decode_rlink()?;
                Ok(Fcall::Rlink(v))
            },
            FcallType::Tmkdir => {
                let v = self.decode_tmkdir()?;
                Ok(Fcall::Tmkdir(v))
            },
            FcallType::Rmkdir => {
                let v = self.decode_rmkdir()?;
                Ok(Fcall::Rmkdir(v))
            },
            FcallType::Trenameat => {
                let v = self.decode_trenameat()?;
                Ok(Fcall::Trenameat(v))
            },
            FcallType::Rrenameat => {
                let v = self.decode_rrenameat()?;
                Ok(Fcall::Rrenameat(v))
            },
            FcallType::Tunlinkat => {
                let v = self.decode_tunlinkat()?;
                Ok(Fcall::Tunlinkat(v))
            },
            FcallType::Runlinkat => {
                let v = self.decode_runlinkat()?;
                Ok(Fcall::Runlinkat(v))
            },
            FcallType::Tauth => {
                let v = self.decode_tauth()?;
                Ok(Fcall::Tauth(v))
            },
            FcallType::Rauth => {
                let v = self.decode_rauth()?;
                Ok(Fcall::Rauth(v))
            },
            FcallType::Tversion => {
                let v = self.decode_tversion()?;
                Ok(Fcall::Tversion(v))
            },
            FcallType::Rversion => {
                let v = self.decode_rversion()?;
                Ok(Fcall::Rversion(v))
            },
            FcallType::Tflush => {
                let v = self.decode_tflush()?;
                Ok(Fcall::Tflush(v))
            },
            FcallType::Rflush => {
                let v = self.decode_rflush()?;
                Ok(Fcall::Rflush(v))
            },
            FcallType::Twalk => {
                let v = self.decode_twalk()?;
                Ok(Fcall::Twalk(v))
            },
            FcallType::Rwalk => {
                let v = self.decode_rwalk()?;
                Ok(Fcall::Rwalk(v))
            },
            FcallType::Tread => {
                let v = self.decode_tread()?;
                Ok(Fcall::Tread(v))
            },
            FcallType::Rread => {
                let v = self.decode_rread()?;
                Ok(Fcall::Rread(v))
            },
            FcallType::Twrite => {
                let v = self.decode_twrite()?;
                Ok(Fcall::Twrite(v))
            },
            FcallType::Rwrite => {
                let v = self.decode_rwrite()?;
                Ok(Fcall::Rwrite(v))
            },
            FcallType::Tclunk => {
                let v = self.decode_tclunk()?;
                Ok(Fcall::Tclunk(v))
            },
            FcallType::Rclunk => {
                let v = self.decode_rclunk()?;
                Ok(Fcall::Rclunk(v))
            },
            FcallType::Tremove => {
                let v = self.decode_tremove()?;
                Ok(Fcall::Tremove(v))
            },
            FcallType::Rremove => {
                let v = self.decode_rremove()?;
                Ok(Fcall::Rremove(v))
            },
        }
    }
}

} // verus!
