//! The byte layout of every message, written out field by field in
//! little-endian integers and length-prefixed strings and buffers: the
//! size, the type number, the tag, then the fields in protocol order.
use crate::codec::enc_fcall;
use crate::fcall::{FcallType, Rattach, Rauth, Rclunk, Rflush, Rfsync, Rgetattr, Rlcreate, Rlerror, Rlink, Rlock, Rlopen, Rmkdir, Rmknod, Rremove, Rrename, Rrenameat, Rsetattr, Rstatfs, Rsymlink, Runlinkat, Rwrite, Rxattrcreate, Rxattrwalk, SpecRgetlock, SpecRread, SpecRreaddir, SpecRreadlink, SpecRversion, SpecRwalk, SpecTattach, SpecTauth, SpecTgetlock, SpecTlcreate, SpecTlink, SpecTlock, SpecTmkdir, SpecTmknod, SpecTrename, SpecTrenameat, SpecTsymlink, SpecTunlinkat, SpecTversion, SpecTwalk, SpecTwrite, SpecTxattrcreate, SpecTxattrwalk, Tclunk, Tflush, Tfsync, Tgetattr, Tlopen, Tread, Treaddir, Treadlink, Tremove, Tsetattr, Tstatfs, SpecFcall, SpecTaggedFcall, spec_fcall_type};
use crate::frame::enc_frame;
use crate::lists::{enc_dirents, enc_qids, enc_strs};
use crate::fcall::dirents_size;
use crate::wire::{enc_u8, le16, le32, le64, lemma_parse_u16};
use vstd::prelude::*;
use vstd::utf8::encode_utf8;

verus! {

/// `Rlerror` on the wire: size, type 7, tag, then ecode.
pub proof fn lemma_layout_rlerror(tag: u16, v: Rlerror)
    ensures
        ({
            let body = le32(v.ecode);
            enc_frame(SpecTaggedFcall { tag, fcall: SpecFcall::Rlerror(v) }) == le32((7 + body.len()) as u32)
                + seq![7u8] + le16(tag) + body
        }),
{
    reveal(enc_fcall);
    reveal(spec_fcall_type);
    reveal(FcallType::spec_code);
    lemma_parse_u16(tag, Seq::empty());
    let body = le32(v.ecode);
    assert(enc_frame(SpecTaggedFcall { tag, fcall: SpecFcall::Rlerror(v) }) =~= le32((7 + body.len()) as u32)
        + seq![7u8] + le16(tag) + body);
}

/// `Tattach` on the wire: size, type 104, tag, then fid, afid, uname, aname, n_uname.
pub proof fn lemma_layout_tattach(tag: u16, v: SpecTattach)
    ensures
        ({
            let body = le32(v.fid) + le32(v.afid) + le16(encode_utf8(v.uname).len() as u16) + encode_utf8(v.uname) + le16(encode_utf8(v.aname).len() as u16) + encode_utf8(v.aname) + le32(v.n_uname);
            enc_frame(SpecTaggedFcall { tag, fcall: SpecFcall::Tattach(v) }) == le32((7 + body.len()) as u32)
                + seq![104u8] + le16(tag) + body
        }),
{
    reveal(enc_fcall);
    reveal(spec_fcall_type);
    reveal(FcallType::spec_code);
    lemma_parse_u16(tag, Seq::empty());
    let body = le32(v.fid) + le32(v.afid) + le16(encode_utf8(v.uname).len() as u16) + encode_utf8(v.uname) + le16(encode_utf8(v.aname).len() as u16) + encode_utf8(v.aname) + le32(v.n_uname);
    assert(enc_frame(SpecTaggedFcall { tag, fcall: SpecFcall::Tattach(v) }) =~= le32((7 + body.len()) as u32)
        + seq![104u8] + le16(tag) + body);
}

/// `Rattach` on the wire: size, type 105, tag, then qid.
pub proof fn lemma_layout_rattach(tag: u16, v: Rattach)
    ensures
        ({
            let body = enc_u8(v.qid.typ.bits) + le32(v.qid.version) + le64(v.qid.path);
            enc_frame(SpecTaggedFcall { tag, fcall: SpecFcall::Rattach(v) }) == le32((7 + body.len()) as u32)
                + seq![105u8] + le16(tag) + body
        }),
{
    reveal(enc_fcall);
    reveal(spec_fcall_type);
    reveal(FcallType::spec_code);
    lemma_parse_u16(tag, Seq::empty());
    let body = enc_u8(v.qid.typ.bits) + le32(v.qid.version) + le64(v.qid.path);
    assert(enc_frame(SpecTaggedFcall { tag, fcall: SpecFcall::Rattach(v) }) =~= le32((7 + body.len()) as u32)
        + seq![105u8] + le16(tag) + body);
}

/// `Tstatfs` on the wire: size, type 8, tag, then fid.
pub proof fn lemma_layout_tstatfs(tag: u16, v: Tstatfs)
    ensures
        ({
            let body = le32(v.fid);
            enc_frame(SpecTaggedFcall { tag, fcall: SpecFcall::Tstatfs(v) }) == le32((7 + body.len()) as u32)
                + seq![8u8] + le16(tag) + body
        }),
{
    reveal(enc_fcall);
    reveal(spec_fcall_type);
    reveal(FcallType::spec_code);
    lemma_parse_u16(tag, Seq::empty());
    let body = le32(v.fid);
    assert(enc_frame(SpecTaggedFcall { tag, fcall: SpecFcall::Tstatfs(v) }) =~= le32((7 + body.len()) as u32)
        + seq![8u8] + le16(tag) + body);
}

/// `Rstatfs` on the wire: size, type 9, tag, then statfs.
pub proof fn lemma_layout_rstatfs(tag: u16, v: Rstatfs)
    ensures
        ({
            let body = le32(v.statfs.typ) + le32(v.statfs.bsize) + le64(v.statfs.blocks) + le64(v.statfs.bfree) + le64(v.statfs.bavail) + le64(v.statfs.files) + le64(v.statfs.ffree) + le64(v.statfs.fsid) + le32(v.statfs.namelen);
            enc_frame(SpecTaggedFcall { tag, fcall: SpecFcall::Rstatfs(v) }) == le32((7 + body.len()) as u32)
                + seq![9u8] + le16(tag) + body
        }),
{
    reveal(enc_fcall);
    reveal(spec_fcall_type);
    reveal(FcallType::spec_code);
    lemma_parse_u16(tag, Seq::empty());
    let body = le32(v.statfs.typ) + le32(v.statfs.bsize) + le64(v.statfs.blocks) + le64(v.statfs.bfree) + le64(v.statfs.bavail) + le64(v.statfs.files) + le64(v.statfs.ffree) + le64(v.statfs.fsid) + le32(v.statfs.namelen);
    assert(enc_frame(SpecTaggedFcall { tag, fcall: SpecFcall::Rstatfs(v) }) =~= le32((7 + body.len()) as u32)
        + seq![9u8] + le16(tag) + body);
}

/// `Tlopen` on the wire: size, type 12, tag, then fid, flags.
pub proof fn lemma_layout_tlopen(tag: u16, v: Tlopen)
    ensures
        ({
            let body = le32(v.fid) + le32(v.flags.bits);
            enc_frame(SpecTaggedFcall { tag, fcall: SpecFcall::Tlopen(v) }) == le32((7 + body.len()) as u32)
                + seq![12u8] + le16(tag) + body
        }),
{
    reveal(enc_fcall);
    reveal(spec_fcall_type);
    reveal(FcallType::spec_code);
    lemma_parse_u16(tag, Seq::empty());
    let body = le32(v.fid) + le32(v.flags.bits);
    assert(enc_frame(SpecTaggedFcall { tag, fcall: SpecFcall::Tlopen(v) }) =~= le32((7 + body.len()) as u32)
        + seq![12u8] + le16(tag) + body);
}

/// `Rlopen` on the wire: size, type 13, tag, then qid, iounit.
pub proof fn lemma_layout_rlopen(tag: u16, v: Rlopen)
    ensures
        ({
            let body = enc_u8(v.qid.typ.bits) + le32(v.qid.version) + le64(v.qid.path) + le32(v.iounit);
            enc_frame(SpecTaggedFcall { tag, fcall: SpecFcall::Rlopen(v) }) == le32((7 + body.len()) as u32)
                + seq![13u8] + le16(tag) + body
        }),
{
    reveal(enc_fcall);
    reveal(spec_fcall_type);
    reveal(FcallType::spec_code);
    lemma_parse_u16(tag, Seq::empty());
    let body = enc_u8(v.qid.typ.bits) + le32(v.qid.version) + le64(v.qid.path) + le32(v.iounit);
    assert(enc_frame(SpecTaggedFcall { tag, fcall: SpecFcall::Rlopen(v) }) =~= le32((7 + body.len()) as u32)
        + seq![13u8] + le16(tag) + body);
}

/// `Tlcreate` on the wire: size, type 14, tag, then fid, name, flags, mode, gid.
pub proof fn lemma_layout_tlcreate(tag: u16, v: SpecTlcreate)
    ensures
        ({
            let body = le32(v.fid) + le16(encode_utf8(v.name).len() as u16) + encode_utf8(v.name) + le32(v.flags.bits) + le32(v.mode) + le32(v.gid);
            enc_frame(SpecTaggedFcall { tag, fcall: SpecFcall::Tlcreate(v) }) == le32((7 + body.len()) as u32)
                + seq![14u8] + le16(tag) + body
        }),
{
    reveal(enc_fcall);
    reveal(spec_fcall_type);
    reveal(FcallType::spec_code);
    lemma_parse_u16(tag, Seq::empty());
    let body = le32(v.fid) + le16(encode_utf8(v.name).len() as u16) + encode_utf8(v.name) + le32(v.flags.bits) + le32(v.mode) + le32(v.gid);
    assert(enc_frame(SpecTaggedFcall { tag, fcall: SpecFcall::Tlcreate(v) }) =~= le32((7 + body.len()) as u32)
        + seq![14u8] + le16(tag) + body);
}

/// `Rlcreate` on the wire: size, type 15, tag, then qid, iounit.
pub proof fn lemma_layout_rlcreate(tag: u16, v: Rlcreate)
    ensures
        ({
            let body = enc_u8(v.qid.typ.bits) + le32(v.qid.version) + le64(v.qid.path) + le32(v.iounit);
            enc_frame(SpecTaggedFcall { tag, fcall: SpecFcall::Rlcreate(v) }) == le32((7 + body.len()) as u32)
                + seq![15u8] + le16(tag) + body
        }),
{
    reveal(enc_fcall);
    reveal(spec_fcall_type);
    reveal(FcallType::spec_code);
    lemma_parse_u16(tag, Seq::empty());
    let body = enc_u8(v.qid.typ.bits) + le32(v.qid.version) + le64(v.qid.path) + le32(v.iounit);
    assert(enc_frame(SpecTaggedFcall { tag, fcall: SpecFcall::Rlcreate(v) }) =~= le32((7 + body.len()) as u32)
        + seq![15u8] + le16(tag) + body);
}

/// `Tsymlink` on the wire: size, type 16, tag, then fid, name, symtgt, gid.
pub proof fn lemma_layout_tsymlink(tag: u16, v: SpecTsymlink)
    ensures
        ({
            let body = le32(v.fid) + le16(encode_utf8(v.name).len() as u16) + encode_utf8(v.name) + le16(encode_utf8(v.symtgt).len() as u16) + encode_utf8(v.symtgt) + le32(v.gid);
            enc_frame(SpecTaggedFcall { tag, fcall: SpecFcall::Tsymlink(v) }) == le32((7 + body.len()) as u32)
                + seq![16u8] + le16(tag) + body
        }),
{
    reveal(enc_fcall);
    reveal(spec_fcall_type);
    reveal(FcallType::spec_code);
    lemma_parse_u16(tag, Seq::empty());
    let body = le32(v.fid) + le16(encode_utf8(v.name).len() as u16) + encode_utf8(v.name) + le16(encode_utf8(v.symtgt).len() as u16) + encode_utf8(v.symtgt) + le32(v.gid);
    assert(enc_frame(SpecTaggedFcall { tag, fcall: SpecFcall::Tsymlink(v) }) =~= le32((7 + body.len()) as u32)
        + seq![16u8] + le16(tag) + body);
}

/// `Rsymlink` on the wire: size, type 17, tag, then qid.
pub proof fn lemma_layout_rsymlink(tag: u16, v: Rsymlink)
    ensures
        ({
            let body = enc_u8(v.qid.typ.bits) + le32(v.qid.version) + le64(v.qid.path);
            enc_frame(SpecTaggedFcall { tag, fcall: SpecFcall::Rsymlink(v) }) == le32((7 + body.len()) as u32)
                + seq![17u8] + le16(tag) + body
        }),
{
    reveal(enc_fcall);
    reveal(spec_fcall_type);
    reveal(FcallType::spec_code);
    lemma_parse_u16(tag, Seq::empty());
    let body = enc_u8(v.qid.typ.bits) + le32(v.qid.version) + le64(v.qid.path);
    assert(enc_frame(SpecTaggedFcall { tag, fcall: SpecFcall::Rsymlink(v) }) =~= le32((7 + body.len()) as u32)
        + seq![17u8] + le16(tag) + body);
}

/// `Tmknod` on the wire: size, type 18, tag, then dfid, name, mode, major, minor, gid.
pub proof fn lemma_layout_tmknod(tag: u16, v: SpecTmknod)
    ensures
        ({
            let body = le32(v.dfid) + le16(encode_utf8(v.name).len() as u16) + encode_utf8(v.name) + le32(v.mode) + le32(v.major) + le32(v.minor) + le32(v.gid);
            enc_frame(SpecTaggedFcall { tag, fcall: SpecFcall::Tmknod(v) }) == le32((7 + body.len()) as u32)
                + seq![18u8] + le16(tag) + body
        }),
{
    reveal(enc_fcall);
    reveal(spec_fcall_type);
    reveal(FcallType::spec_code);
    lemma_parse_u16(tag, Seq::empty());
    let body = le32(v.dfid) + le16(encode_utf8(v.name).len() as u16) + encode_utf8(v.name) + le32(v.mode) + le32(v.major) + le32(v.minor) + le32(v.gid);
    assert(enc_frame(SpecTaggedFcall { tag, fcall: SpecFcall::Tmknod(v) }) =~= le32((7 + body.len()) as u32)
        + seq![18u8] + le16(tag) + body);
}

/// `Rmknod` on the wire: size, type 19, tag, then qid.
pub proof fn lemma_layout_rmknod(tag: u16, v: Rmknod)
    ensures
        ({
            let body = enc_u8(v.qid.typ.bits) + le32(v.qid.version) + le64(v.qid.path);
            enc_frame(SpecTaggedFcall { tag, fcall: SpecFcall::Rmknod(v) }) == le32((7 + body.len()) as u32)
                + seq![19u8] + le16(tag) + body
        }),
{
    reveal(enc_fcall);
    reveal(spec_fcall_type);
    reveal(FcallType::spec_code);
    lemma_parse_u16(tag, Seq::empty());
    let body = enc_u8(v.qid.typ.bits) + le32(v.qid.version) + le64(v.qid.path);
    assert(enc_frame(SpecTaggedFcall { tag, fcall: SpecFcall::Rmknod(v) }) =~= le32((7 + body.len()) as u32)
        + seq![19u8] + le16(tag) + body);
}

/// `Trename` on the wire: size, type 20, tag, then fid, dfid, name.
pub proof fn lemma_layout_trename(tag: u16, v: SpecTrename)
    ensures
        ({
            let body = le32(v.fid) + le32(v.dfid) + le16(encode_utf8(v.name).len() as u16) + encode_utf8(v.name);
            enc_frame(SpecTaggedFcall { tag, fcall: SpecFcall::Trename(v) }) == le32((7 + body.len()) as u32)
                + seq![20u8] + le16(tag) + body
        }),
{
    reveal(enc_fcall);
    reveal(spec_fcall_type);
    reveal(FcallType::spec_code);
    lemma_parse_u16(tag, Seq::empty());
    let body = le32(v.fid) + le32(v.dfid) + le16(encode_utf8(v.name).len() as u16) + encode_utf8(v.name);
    assert(enc_frame(SpecTaggedFcall { tag, fcall: SpecFcall::Trename(v) }) =~= le32((7 + body.len()) as u32)
        + seq![20u8] + le16(tag) + body);
}

/// `Rrename` on the wire: size, type 21, tag, then no fields.
pub proof fn lemma_layout_rrename(tag: u16, v: Rrename)
    ensures
        ({
            let body = Seq::<u8>::empty();
            enc_frame(SpecTaggedFcall { tag, fcall: SpecFcall::Rrename(v) }) == le32((7 + body.len()) as u32)
                + seq![21u8] + le16(tag) + body
        }),
{
    reveal(enc_fcall);
    reveal(spec_fcall_type);
    reveal(FcallType::spec_code);
    lemma_parse_u16(tag, Seq::empty());
    let body = Seq::<u8>::empty();
    assert(enc_frame(SpecTaggedFcall { tag, fcall: SpecFcall::Rrename(v) }) =~= le32((7 + body.len()) as u32)
        + seq![21u8] + le16(tag) + body);
}

/// `Treadlink` on the wire: size, type 22, tag, then fid.
pub proof fn lemma_layout_treadlink(tag: u16, v: Treadlink)
    ensures
        ({
            let body = le32(v.fid);
            enc_frame(SpecTaggedFcall { tag, fcall: SpecFcall::Treadlink(v) }) == le32((7 + body.len()) as u32)
                + seq![22u8] + le16(tag) + body
        }),
{
    reveal(enc_fcall);
    reveal(spec_fcall_type);
    reveal(FcallType::spec_code);
    lemma_parse_u16(tag, Seq::empty());
    let body = le32(v.fid);
    assert(enc_frame(SpecTaggedFcall { tag, fcall: SpecFcall::Treadlink(v) }) =~= le32((7 + body.len()) as u32)
        + seq![22u8] + le16(tag) + body);
}

/// `Rreadlink` on the wire: size, type 23, tag, then target.
pub proof fn lemma_layout_rreadlink(tag: u16, v: SpecRreadlink)
    ensures
        ({
            let body = le16(encode_utf8(v.target).len() as u16) + encode_utf8(v.target);
            enc_frame(SpecTaggedFcall { tag, fcall: SpecFcall::Rreadlink(v) }) == le32((7 + body.len()) as u32)
                + seq![23u8] + le16(tag) + body
        }),
{
    reveal(enc_fcall);
    reveal(spec_fcall_type);
    reveal(FcallType::spec_code);
    lemma_parse_u16(tag, Seq::empty());
    let body = le16(encode_utf8(v.target).len() as u16) + encode_utf8(v.target);
    assert(enc_frame(SpecTaggedFcall { tag, fcall: SpecFcall::Rreadlink(v) }) =~= le32((7 + body.len()) as u32)
        + seq![23u8] + le16(tag) + body);
}

/// `Tgetattr` on the wire: size, type 24, tag, then fid, req_mask.
pub proof fn lemma_layout_tgetattr(tag: u16, v: Tgetattr)
    ensures
        ({
            let body = le32(v.fid) + le64(v.req_mask.bits);
            enc_frame(SpecTaggedFcall { tag, fcall: SpecFcall::Tgetattr(v) }) == le32((7 + body.len()) as u32)
                + seq![24u8] + le16(tag) + body
        }),
{
    reveal(enc_fcall);
    reveal(spec_fcall_type);
    reveal(FcallType::spec_code);
    lemma_parse_u16(tag, Seq::empty());
    let body = le32(v.fid) + le64(v.req_mask.bits);
    assert(enc_frame(SpecTaggedFcall { tag, fcall: SpecFcall::Tgetattr(v) }) =~= le32((7 + body.len()) as u32)
        + seq![24u8] + le16(tag) + body);
}

/// `Rgetattr` on the wire: size, type 25, tag, then valid, qid, stat.
pub proof fn lemma_layout_rgetattr(tag: u16, v: Rgetattr)
    ensures
        ({
            let body = le64(v.valid.bits) + enc_u8(v.qid.typ.bits) + le32(v.qid.version) + le64(v.qid.path) + le32(v.stat.mode) + le32(v.stat.uid) + le32(v.stat.gid) + le64(v.stat.nlink) + le64(v.stat.rdev) + le64(v.stat.size) + le64(v.stat.blksize) + le64(v.stat.blocks) + le64(v.stat.atime.sec) + le64(v.stat.atime.nsec) + le64(v.stat.mtime.sec) + le64(v.stat.mtime.nsec) + le64(v.stat.ctime.sec) + le64(v.stat.ctime.nsec) + le64(v.stat.btime.sec) + le64(v.stat.btime.nsec) + le64(v.stat.gen) + le64(v.stat.data_version);
            enc_frame(SpecTaggedFcall { tag, fcall: SpecFcall::Rgetattr(v) }) == le32((7 + body.len()) as u32)
                + seq![25u8] + le16(tag) + body
        }),
{
    reveal(enc_fcall);
    reveal(spec_fcall_type);
    reveal(FcallType::spec_code);
    lemma_parse_u16(tag, Seq::empty());
    let body = le64(v.valid.bits) + enc_u8(v.qid.typ.bits) + le32(v.qid.version) + le64(v.qid.path) + le32(v.stat.mode) + le32(v.stat.uid) + le32(v.stat.gid) + le64(v.stat.nlink) + le64(v.stat.rdev) + le64(v.stat.size) + le64(v.stat.blksize) + le64(v.stat.blocks) + le64(v.stat.atime.sec) + le64(v.stat.atime.nsec) + le64(v.stat.mtime.sec) + le64(v.stat.mtime.nsec) + le64(v.stat.ctime.sec) + le64(v.stat.ctime.nsec) + le64(v.stat.btime.sec) + le64(v.stat.btime.nsec) + le64(v.stat.gen) + le64(v.stat.data_version);
    assert(enc_frame(SpecTaggedFcall { tag, fcall: SpecFcall::Rgetattr(v) }) =~= le32((7 + body.len()) as u32)
        + seq![25u8] + le16(tag) + body);
}

/// `Tsetattr` on the wire: size, type 26, tag, then fid, valid, stat.
pub proof fn lemma_layout_tsetattr(tag: u16, v: Tsetattr)
    ensures
        ({
            let body = le32(v.fid) + le32(v.valid.bits) + le32(v.stat.mode) + le32(v.stat.uid) + le32(v.stat.gid) + le64(v.stat.size) + le64(v.stat.atime.sec) + le64(v.stat.atime.nsec) + le64(v.stat.mtime.sec) + le64(v.stat.mtime.nsec);
            enc_frame(SpecTaggedFcall { tag, fcall: SpecFcall::Tsetattr(v) }) == le32((7 + body.len()) as u32)
                + seq![26u8] + le16(tag) + body
        }),
{
    reveal(enc_fcall);
    reveal(spec_fcall_type);
    reveal(FcallType::spec_code);
    lemma_parse_u16(tag, Seq::empty());
    let body = le32(v.fid) + le32(v.valid.bits) + le32(v.stat.mode) + le32(v.stat.uid) + le32(v.stat.gid) + le64(v.stat.size) + le64(v.stat.atime.sec) + le64(v.stat.atime.nsec) + le64(v.stat.mtime.sec) + le64(v.stat.mtime.nsec);
    assert(enc_frame(SpecTaggedFcall { tag, fcall: SpecFcall::Tsetattr(v) }) =~= le32((7 + body.len()) as u32)
        + seq![26u8] + le16(tag) + body);
}

/// `Rsetattr` on the wire: size, type 27, tag, then no fields.
pub proof fn lemma_layout_rsetattr(tag: u16, v: Rsetattr)
    ensures
        ({
            let body = Seq::<u8>::empty();
            enc_frame(SpecTaggedFcall { tag, fcall: SpecFcall::Rsetattr(v) }) == le32((7 + body.len()) as u32)
                + seq![27u8] + le16(tag) + body
        }),
{
    reveal(enc_fcall);
    reveal(spec_fcall_type);
    reveal(FcallType::spec_code);
    lemma_parse_u16(tag, Seq::empty());
    let body = Seq::<u8>::empty();
    assert(enc_frame(SpecTaggedFcall { tag, fcall: SpecFcall::Rsetattr(v) }) =~= le32((7 + body.len()) as u32)
        + seq![27u8] + le16(tag) + body);
}

/// `Txattrwalk` on the wire: size, type 30, tag, then fid, new_fid, name.
pub proof fn lemma_layout_txattrwalk(tag: u16, v: SpecTxattrwalk)
    ensures
        ({
            let body = le32(v.fid) + le32(v.new_fid) + le16(encode_utf8(v.name).len() as u16) + encode_utf8(v.name);
            enc_frame(SpecTaggedFcall { tag, fcall: SpecFcall::Txattrwalk(v) }) == le32((7 + body.len()) as u32)
                + seq![30u8] + le16(tag) + body
        }),
{
    reveal(enc_fcall);
    reveal(spec_fcall_type);
    reveal(FcallType::spec_code);
    lemma_parse_u16(tag, Seq::empty());
    let body = le32(v.fid) + le32(v.new_fid) + le16(encode_utf8(v.name).len() as u16) + encode_utf8(v.name);
    assert(enc_frame(SpecTaggedFcall { tag, fcall: SpecFcall::Txattrwalk(v) }) =~= le32((7 + body.len()) as u32)
        + seq![30u8] + le16(tag) + body);
}

/// `Rxattrwalk` on the wire: size, type 31, tag, then size.
pub proof fn lemma_layout_rxattrwalk(tag: u16, v: Rxattrwalk)
    ensures
        ({
            let body = le64(v.size);
            enc_frame(SpecTaggedFcall { tag, fcall: SpecFcall::Rxattrwalk(v) }) == le32((7 + body.len()) as u32)
                + seq![31u8] + le16(tag) + body
        }),
{
    reveal(enc_fcall);
    reveal(spec_fcall_type);
    reveal(FcallType::spec_code);
    lemma_parse_u16(tag, Seq::empty());
    let body = le64(v.size);
    assert(enc_frame(SpecTaggedFcall { tag, fcall: SpecFcall::Rxattrwalk(v) }) =~= le32((7 + body.len()) as u32)
        + seq![31u8] + le16(tag) + body);
}

/// `Txattrcreate` on the wire: size, type 32, tag, then fid, name, attr_size, flags.
pub proof fn lemma_layout_txattrcreate(tag: u16, v: SpecTxattrcreate)
    ensures
        ({
            let body = le32(v.fid) + le16(encode_utf8(v.name).len() as u16) + encode_utf8(v.name) + le64(v.attr_size) + le32(v.flags);
            enc_frame(SpecTaggedFcall { tag, fcall: SpecFcall::Txattrcreate(v) }) == le32((7 + body.len()) as u32)
                + seq![32u8] + le16(tag) + body
        }),
{
    reveal(enc_fcall);
    reveal(spec_fcall_type);
    reveal(FcallType::spec_code);
    lemma_parse_u16(tag, Seq::empty());
    let body = le32(v.fid) + le16(encode_utf8(v.name).len() as u16) + encode_utf8(v.name) + le64(v.attr_size) + le32(v.flags);
    assert(enc_frame(SpecTaggedFcall { tag, fcall: SpecFcall::Txattrcreate(v) }) =~= le32((7 + body.len()) as u32)
        + seq![32u8] + le16(tag) + body);
}

/// `Rxattrcreate` on the wire: size, type 33, tag, then no fields.
pub proof fn lemma_layout_rxattrcreate(tag: u16, v: Rxattrcreate)
    ensures
        ({
            let body = Seq::<u8>::empty();
            enc_frame(SpecTaggedFcall { tag, fcall: SpecFcall::Rxattrcreate(v) }) == le32((7 + body.len()) as u32)
                + seq![33u8] + le16(tag) + body
        }),
{
    reveal(enc_fcall);
    reveal(spec_fcall_type);
    reveal(FcallType::spec_code);
    lemma_parse_u16(tag, Seq::empty());
    let body = Seq::<u8>::empty();
    assert(enc_frame(SpecTaggedFcall { tag, fcall: SpecFcall::Rxattrcreate(v) }) =~= le32((7 + body.len()) as u32)
        + seq![33u8] + le16(tag) + body);
}

/// `Treaddir` on the wire: size, type 40, tag, then fid, offset, count.
pub proof fn lemma_layout_treaddir(tag: u16, v: Treaddir)
    ensures
        ({
            let body = le32(v.fid) + le64(v.offset) + le32(v.count);
            enc_frame(SpecTaggedFcall { tag, fcall: SpecFcall::Treaddir(v) }) == le32((7 + body.len()) as u32)
                + seq![40u8] + le16(tag) + body
        }),
{
    reveal(enc_fcall);
    reveal(spec_fcall_type);
    reveal(FcallType::spec_code);
    lemma_parse_u16(tag, Seq::empty());
    let body = le32(v.fid) + le64(v.offset) + le32(v.count);
    assert(enc_frame(SpecTaggedFcall { tag, fcall: SpecFcall::Treaddir(v) }) =~= le32((7 + body.len()) as u32)
        + seq![40u8] + le16(tag) + body);
}

/// `Rreaddir` on the wire: size, type 41, tag, then data.
pub proof fn lemma_layout_rreaddir(tag: u16, v: SpecRreaddir)
    ensures
        ({
            let body = le32(dirents_size(v.data) as u32) + enc_dirents(v.data);
            enc_frame(SpecTaggedFcall { tag, fcall: SpecFcall::Rreaddir(v) }) == le32((7 + body.len()) as u32)
                + seq![41u8] + le16(tag) + body
        }),
{
    reveal(enc_fcall);
    reveal(spec_fcall_type);
    reveal(FcallType::spec_code);
    lemma_parse_u16(tag, Seq::empty());
    let body = le32(dirents_size(v.data) as u32) + enc_dirents(v.data);
    assert(enc_frame(SpecTaggedFcall { tag, fcall: SpecFcall::Rreaddir(v) }) =~= le32((7 + body.len()) as u32)
        + seq![41u8] + le16(tag) + body);
}

/// `Tfsync` on the wire: size, type 50, tag, then fid.
pub proof fn lemma_layout_tfsync(tag: u16, v: Tfsync)
    ensures
        ({
            let body = le32(v.fid);
            enc_frame(SpecTaggedFcall { tag, fcall: SpecFcall::Tfsync(v) }) == le32((7 + body.len()) as u32)
                + seq![50u8] + le16(tag) + body
        }),
{
    reveal(enc_fcall);
    reveal(spec_fcall_type);
    reveal(FcallType::spec_code);
    lemma_parse_u16(tag, Seq::empty());
    let body = le32(v.fid);
    assert(enc_frame(SpecTaggedFcall { tag, fcall: SpecFcall::Tfsync(v) }) =~= le32((7 + body.len()) as u32)
        + seq![50u8] + le16(tag) + body);
}

/// `Rfsync` on the wire: size, type 51, tag, then no fields.
pub proof fn lemma_layout_rfsync(tag: u16, v: Rfsync)
    ensures
        ({
            let body = Seq::<u8>::empty();
            enc_frame(SpecTaggedFcall { tag, fcall: SpecFcall::Rfsync(v) }) == le32((7 + body.len()) as u32)
                + seq![51u8] + le16(tag) + body
        }),
{
    reveal(enc_fcall);
    reveal(spec_fcall_type);
    reveal(FcallType::spec_code);
    lemma_parse_u16(tag, Seq::empty());
    let body = Seq::<u8>::empty();
    assert(enc_frame(SpecTaggedFcall { tag, fcall: SpecFcall::Rfsync(v) }) =~= le32((7 + body.len()) as u32)
        + seq![51u8] + le16(tag) + body);
}

/// `Tlock` on the wire: size, type 52, tag, then fid, flock.
pub proof fn lemma_layout_tlock(tag: u16, v: SpecTlock)
    ensures
        ({
            let body = le32(v.fid) + enc_u8(v.flock.typ.bits) + le32(v.flock.flags.bits) + le64(v.flock.start) + le64(v.flock.length) + le32(v.flock.proc_id) + le16(encode_utf8(v.flock.client_id).len() as u16) + encode_utf8(v.flock.client_id);
            enc_frame(SpecTaggedFcall { tag, fcall: SpecFcall::Tlock(v) }) == le32((7 + body.len()) as u32)
                + seq![52u8] + le16(tag) + body
        }),
{
    reveal(enc_fcall);
    reveal(spec_fcall_type);
    reveal(FcallType::spec_code);
    lemma_parse_u16(tag, Seq::empty());
    let body = le32(v.fid) + enc_u8(v.flock.typ.bits) + le32(v.flock.flags.bits) + le64(v.flock.start) + le64(v.flock.length) + le32(v.flock.proc_id) + le16(encode_utf8(v.flock.client_id).len() as u16) + encode_utf8(v.flock.client_id);
    assert(enc_frame(SpecTaggedFcall { tag, fcall: SpecFcall::Tlock(v) }) =~= le32((7 + body.len()) as u32)
        + seq![52u8] + le16(tag) + body);
}

/// `Rlock` on the wire: size, type 53, tag, then status.
pub proof fn lemma_layout_rlock(tag: u16, v: Rlock)
    ensures
        ({
            let body = enc_u8(v.status.bits);
            enc_frame(SpecTaggedFcall { tag, fcall: SpecFcall::Rlock(v) }) == le32((7 + body.len()) as u32)
                + seq![53u8] + le16(tag) + body
        }),
{
    reveal(enc_fcall);
    reveal(spec_fcall_type);
    reveal(FcallType::spec_code);
    lemma_parse_u16(tag, Seq::empty());
    let body = enc_u8(v.status.bits);
    assert(enc_frame(SpecTaggedFcall { tag, fcall: SpecFcall::Rlock(v) }) =~= le32((7 + body.len()) as u32)
        + seq![53u8] + le16(tag) + body);
}

/// `Tgetlock` on the wire: size, type 54, tag, then fid, flock.
pub proof fn lemma_layout_tgetlock(tag: u16, v: SpecTgetlock)
    ensures
        ({
            let body = le32(v.fid) + enc_u8(v.flock.typ.bits) + le64(v.flock.start) + le64(v.flock.length) + le32(v.flock.proc_id) + le16(encode_utf8(v.flock.client_id).len() as u16) + encode_utf8(v.flock.client_id);
            enc_frame(SpecTaggedFcall { tag, fcall: SpecFcall::Tgetlock(v) }) == le32((7 + body.len()) as u32)
                + seq![54u8] + le16(tag) + body
        }),
{
    reveal(enc_fcall);
    reveal(spec_fcall_type);
    reveal(FcallType::spec_code);
    lemma_parse_u16(tag, Seq::empty());
    let body = le32(v.fid) + enc_u8(v.flock.typ.bits) + le64(v.flock.start) + le64(v.flock.length) + le32(v.flock.proc_id) + le16(encode_utf8(v.flock.client_id).len() as u16) + encode_utf8(v.flock.client_id);
    assert(enc_frame(SpecTaggedFcall { tag, fcall: SpecFcall::Tgetlock(v) }) =~= le32((7 + body.len()) as u32)
        + seq![54u8] + le16(tag) + body);
}

/// `Rgetlock` on the wire: size, type 55, tag, then flock.
pub proof fn lemma_layout_rgetlock(tag: u16, v: SpecRgetlock)
    ensures
        ({
            let body = enc_u8(v.flock.typ.bits) + le64(v.flock.start) + le64(v.flock.length) + le32(v.flock.proc_id) + le16(encode_utf8(v.flock.client_id).len() as u16) + encode_utf8(v.flock.client_id);
            enc_frame(SpecTaggedFcall { tag, fcall: SpecFcall::Rgetlock(v) }) == le32((7 + body.len()) as u32)
                + seq![55u8] + le16(tag) + body
        }),
{
    reveal(enc_fcall);
    reveal(spec_fcall_type);
    reveal(FcallType::spec_code);
    lemma_parse_u16(tag, Seq::empty());
    let body = enc_u8(v.flock.typ.bits) + le64(v.flock.start) + le64(v.flock.length) + le32(v.flock.proc_id) + le16(encode_utf8(v.flock.client_id).len() as u16) + encode_utf8(v.flock.client_id);
    assert(enc_frame(SpecTaggedFcall { tag, fcall: SpecFcall::Rgetlock(v) }) =~= le32((7 + body.len()) as u32)
        + seq![55u8] + le16(tag) + body);
}

/// `Tlink` on the wire: size, type 70, tag, then dfid, fid, name.
pub proof fn lemma_layout_tlink(tag: u16, v: SpecTlink)
    ensures
        ({
            let body = le32(v.dfid) + le32(v.fid) + le16(encode_utf8(v.name).len() as u16) + encode_utf8(v.name);
            enc_frame(SpecTaggedFcall { tag, fcall: SpecFcall::Tlink(v) }) == le32((7 + body.len()) as u32)
                + seq![70u8] + le16(tag) + body
        }),
{
    reveal(enc_fcall);
    reveal(spec_fcall_type);
    reveal(FcallType::spec_code);
    lemma_parse_u16(tag, Seq::empty());
    let body = le32(v.dfid) + le32(v.fid) + le16(encode_utf8(v.name).len() as u16) + encode_utf8(v.name);
    assert(enc_frame(SpecTaggedFcall { tag, fcall: SpecFcall::Tlink(v) }) =~= le32((7 + body.len()) as u32)
        + seq![70u8] + le16(tag) + body);
}

/// `Rlink` on the wire: size, type 71, tag, then no fields.
pub proof fn lemma_layout_rlink(tag: u16, v: Rlink)
    ensures
        ({
            let body = Seq::<u8>::empty();
            enc_frame(SpecTaggedFcall { tag, fcall: SpecFcall::Rlink(v) }) == le32((7 + body.len()) as u32)
                + seq![71u8] + le16(tag) + body
        }),
{
    reveal(enc_fcall);
    reveal(spec_fcall_type);
    reveal(FcallType::spec_code);
    lemma_parse_u16(tag, Seq::empty());
    let body = Seq::<u8>::empty();
    assert(enc_frame(SpecTaggedFcall { tag, fcall: SpecFcall::Rlink(v) }) =~= le32((7 + body.len()) as u32)
        + seq![71u8] + le16(tag) + body);
}

/// `Tmkdir` on the wire: size, type 72, tag, then dfid, name, mode, gid.
pub proof fn lemma_layout_tmkdir(tag: u16, v: SpecTmkdir)
    ensures
        ({
            let body = le32(v.dfid) + le16(encode_utf8(v.name).len() as u16) + encode_utf8(v.name) + le32(v.mode) + le32(v.gid);
            enc_frame(SpecTaggedFcall { tag, fcall: SpecFcall::Tmkdir(v) }) == le32((7 + body.len()) as u32)
                + seq![72u8] + le16(tag) + body
        }),
{
    reveal(enc_fcall);
    reveal(spec_fcall_type);
    reveal(FcallType::spec_code);
    lemma_parse_u16(tag, Seq::empty());
    let body = le32(v.dfid) + le16(encode_utf8(v.name).len() as u16) + encode_utf8(v.name) + le32(v.mode) + le32(v.gid);
    assert(enc_frame(SpecTaggedFcall { tag, fcall: SpecFcall::Tmkdir(v) }) =~= le32((7 + body.len()) as u32)
        + seq![72u8] + le16(tag) + body);
}

/// `Rmkdir` on the wire: size, type 73, tag, then qid.
pub proof fn lemma_layout_rmkdir(tag: u16, v: Rmkdir)
    ensures
        ({
            let body = enc_u8(v.qid.typ.bits) + le32(v.qid.version) + le64(v.qid.path);
            enc_frame(SpecTaggedFcall { tag, fcall: SpecFcall::Rmkdir(v) }) == le32((7 + body.len()) as u32)
                + seq![73u8] + le16(tag) + body
        }),
{
    reveal(enc_fcall);
    reveal(spec_fcall_type);
    reveal(FcallType::spec_code);
    lemma_parse_u16(tag, Seq::empty());
    let body = enc_u8(v.qid.typ.bits) + le32(v.qid.version) + le64(v.qid.path);
    assert(enc_frame(SpecTaggedFcall { tag, fcall: SpecFcall::Rmkdir(v) }) =~= le32((7 + body.len()) as u32)
        + seq![73u8] + le16(tag) + body);
}

/// `Trenameat` on the wire: size, type 74, tag, then olddfid, oldname, newdfid, newname.
pub proof fn lemma_layout_trenameat(tag: u16, v: SpecTrenameat)
    ensures
        ({
            let body = le32(v.olddfid) + le16(encode_utf8(v.oldname).len() as u16) + encode_utf8(v.oldname) + le32(v.newdfid) + le16(encode_utf8(v.newname).len() as u16) + encode_utf8(v.newname);
            enc_frame(SpecTaggedFcall { tag, fcall: SpecFcall::Trenameat(v) }) == le32((7 + body.len()) as u32)
                + seq![74u8] + le16(tag) + body
        }),
{
    reveal(enc_fcall);
    reveal(spec_fcall_type);
    reveal(FcallType::spec_code);
    lemma_parse_u16(tag, Seq::empty());
    let body = le32(v.olddfid) + le16(encode_utf8(v.oldname).len() as u16) + encode_utf8(v.oldname) + le32(v.newdfid) + le16(encode_utf8(v.newname).len() as u16) + encode_utf8(v.newname);
    assert(enc_frame(SpecTaggedFcall { tag, fcall: SpecFcall::Trenameat(v) }) =~= le32((7 + body.len()) as u32)
        + seq![74u8] + le16(tag) + body);
}

/// `Rrenameat` on the wire: size, type 75, tag, then no fields.
pub proof fn lemma_layout_rrenameat(tag: u16, v: Rrenameat)
    ensures
        ({
            let body = Seq::<u8>::empty();
            enc_frame(SpecTaggedFcall { tag, fcall: SpecFcall::Rrenameat(v) }) == le32((7 + body.len()) as u32)
                + seq![75u8] + le16(tag) + body
        }),
{
    reveal(enc_fcall);
    reveal(spec_fcall_type);
    reveal(FcallType::spec_code);
    lemma_parse_u16(tag, Seq::empty());
    let body = Seq::<u8>::empty();
    assert(enc_frame(SpecTaggedFcall { tag, fcall: SpecFcall::Rrenameat(v) }) =~= le32((7 + body.len()) as u32)
        + seq![75u8] + le16(tag) + body);
}

/// `Tunlinkat` on the wire: size, type 76, tag, then dfid, name, flags.
pub proof fn lemma_layout_tunlinkat(tag: u16, v: SpecTunlinkat)
    ensures
        ({
            let body = le32(v.dfid) + le16(encode_utf8(v.name).len() as u16) + encode_utf8(v.name) + le32(v.flags);
            enc_frame(SpecTaggedFcall { tag, fcall: SpecFcall::Tunlinkat(v) }) == le32((7 + body.len()) as u32)
                + seq![76u8] + le16(tag) + body
        }),
{
    reveal(enc_fcall);
    reveal(spec_fcall_type);
    reveal(FcallType::spec_code);
    lemma_parse_u16(tag, Seq::empty());
    let body = le32(v.dfid) + le16(encode_utf8(v.name).len() as u16) + encode_utf8(v.name) + le32(v.flags);
    assert(enc_frame(SpecTaggedFcall { tag, fcall: SpecFcall::Tunlinkat(v) }) =~= le32((7 + body.len()) as u32)
        + seq![76u8] + le16(tag) + body);
}

/// `Runlinkat` on the wire: size, type 77, tag, then no fields.
pub proof fn lemma_layout_runlinkat(tag: u16, v: Runlinkat)
    ensures
        ({
            let body = Seq::<u8>::empty();
            enc_frame(SpecTaggedFcall { tag, fcall: SpecFcall::Runlinkat(v) }) == le32((7 + body.len()) as u32)
                + seq![77u8] + le16(tag) + body
        }),
{
    reveal(enc_fcall);
    reveal(spec_fcall_type);
    reveal(FcallType::spec_code);
    lemma_parse_u16(tag, Seq::empty());
    let body = Seq::<u8>::empty();
    assert(enc_frame(SpecTaggedFcall { tag, fcall: SpecFcall::Runlinkat(v) }) =~= le32((7 + body.len()) as u32)
        + seq![77u8] + le16(tag) + body);
}

/// `Tauth` on the wire: size, type 102, tag, then afid, uname, aname, n_uname.
pub proof fn lemma_layout_tauth(tag: u16, v: SpecTauth)
    ensures
        ({
            let body = le32(v.afid) + le16(encode_utf8(v.uname).len() as u16) + encode_utf8(v.uname) + le16(encode_utf8(v.aname).len() as u16) + encode_utf8(v.aname) + le32(v.n_uname);
            enc_frame(SpecTaggedFcall { tag, fcall: SpecFcall::Tauth(v) }) == le32((7 + body.len()) as u32)
                + seq![102u8] + le16(tag) + body
        }),
{
    reveal(enc_fcall);
    reveal(spec_fcall_type);
    reveal(FcallType::spec_code);
    lemma_parse_u16(tag, Seq::empty());
    let body = le32(v.afid) + le16(encode_utf8(v.uname).len() as u16) + encode_utf8(v.uname) + le16(encode_utf8(v.aname).len() as u16) + encode_utf8(v.aname) + le32(v.n_uname);
    assert(enc_frame(SpecTaggedFcall { tag, fcall: SpecFcall::Tauth(v) }) =~= le32((7 + body.len()) as u32)
        + seq![102u8] + le16(tag) + body);
}

/// `Rauth` on the wire: size, type 103, tag, then aqid.
pub proof fn lemma_layout_rauth(tag: u16, v: Rauth)
    ensures
        ({
            let body = enc_u8(v.aqid.typ.bits) + le32(v.aqid.version) + le64(v.aqid.path);
            enc_frame(SpecTaggedFcall { tag, fcall: SpecFcall::Rauth(v) }) == le32((7 + body.len()) as u32)
                + seq![103u8] + le16(tag) + body
        }),
{
    reveal(enc_fcall);
    reveal(spec_fcall_type);
    reveal(FcallType::spec_code);
    lemma_parse_u16(tag, Seq::empty());
    let body = enc_u8(v.aqid.typ.bits) + le32(v.aqid.version) + le64(v.aqid.path);
    assert(enc_frame(SpecTaggedFcall { tag, fcall: SpecFcall::Rauth(v) }) =~= le32((7 + body.len()) as u32)
        + seq![103u8] + le16(tag) + body);
}

/// `Tversion` on the wire: size, type 100, tag, then msize, version.
pub proof fn lemma_layout_tversion(tag: u16, v: SpecTversion)
    ensures
        ({
            let body = le32(v.msize) + le16(encode_utf8(v.version).len() as u16) + encode_utf8(v.version);
            enc_frame(SpecTaggedFcall { tag, fcall: SpecFcall::Tversion(v) }) == le32((7 + body.len()) as u32)
                + seq![100u8] + le16(tag) + body
        }),
{
    reveal(enc_fcall);
    reveal(spec_fcall_type);
    reveal(FcallType::spec_code);
    lemma_parse_u16(tag, Seq::empty());
    let body = le32(v.msize) + le16(encode_utf8(v.version).len() as u16) + encode_utf8(v.version);
    assert(enc_frame(SpecTaggedFcall { tag, fcall: SpecFcall::Tversion(v) }) =~= le32((7 + body.len()) as u32)
        + seq![100u8] + le16(tag) + body);
}

/// `Rversion` on the wire: size, type 101, tag, then msize, version.
pub proof fn lemma_layout_rversion(tag: u16, v: SpecRversion)
    ensures
        ({
            let body = le32(v.msize) + le16(encode_utf8(v.version).len() as u16) + encode_utf8(v.version);
            enc_frame(SpecTaggedFcall { tag, fcall: SpecFcall::Rversion(v) }) == le32((7 + body.len()) as u32)
                + seq![101u8] + le16(tag) + body
        }),
{
    reveal(enc_fcall);
    reveal(spec_fcall_type);
    reveal(FcallType::spec_code);
    lemma_parse_u16(tag, Seq::empty());
    let body = le32(v.msize) + le16(encode_utf8(v.version).len() as u16) + encode_utf8(v.version);
    assert(enc_frame(SpecTaggedFcall { tag, fcall: SpecFcall::Rversion(v) }) =~= le32((7 + body.len()) as u32)
        + seq![101u8] + le16(tag) + body);
}

/// `Tflush` on the wire: size, type 108, tag, then oldtag.
pub proof fn lemma_layout_tflush(tag: u16, v: Tflush)
    ensures
        ({
            let body = le16(v.oldtag);
            enc_frame(SpecTaggedFcall { tag, fcall: SpecFcall::Tflush(v) }) == le32((7 + body.len()) as u32)
                + seq![108u8] + le16(tag) + body
        }),
{
    reveal(enc_fcall);
    reveal(spec_fcall_type);
    reveal(FcallType::spec_code);
    lemma_parse_u16(tag, Seq::empty());
    let body = le16(v.oldtag);
    assert(enc_frame(SpecTaggedFcall { tag, fcall: SpecFcall::Tflush(v) }) =~= le32((7 + body.len()) as u32)
        + seq![108u8] + le16(tag) + body);
}

/// `Rflush` on the wire: size, type 109, tag, then no fields.
pub proof fn lemma_layout_rflush(tag: u16, v: Rflush)
    ensures
        ({
            let body = Seq::<u8>::empty();
            enc_frame(SpecTaggedFcall { tag, fcall: SpecFcall::Rflush(v) }) == le32((7 + body.len()) as u32)
                + seq![109u8] + le16(tag) + body
        }),
{
    reveal(enc_fcall);
    reveal(spec_fcall_type);
    reveal(FcallType::spec_code);
    lemma_parse_u16(tag, Seq::empty());
    let body = Seq::<u8>::empty();
    assert(enc_frame(SpecTaggedFcall { tag, fcall: SpecFcall::Rflush(v) }) =~= le32((7 + body.len()) as u32)
        + seq![109u8] + le16(tag) + body);
}

/// `Twalk` on the wire: size, type 110, tag, then fid, new_fid, wnames.
pub proof fn lemma_layout_twalk(tag: u16, v: SpecTwalk)
    ensures
        ({
            let body = le32(v.fid) + le32(v.new_fid) + le16(v.wnames.len() as u16) + enc_strs(v.wnames);
            enc_frame(SpecTaggedFcall { tag, fcall: SpecFcall::Twalk(v) }) == le32((7 + body.len()) as u32)
                + seq![110u8] + le16(tag) + body
        }),
{
    reveal(enc_fcall);
    reveal(spec_fcall_type);
    reveal(FcallType::spec_code);
    lemma_parse_u16(tag, Seq::empty());
    let body = le32(v.fid) + le32(v.new_fid) + le16(v.wnames.len() as u16) + enc_strs(v.wnames);
    assert(enc_frame(SpecTaggedFcall { tag, fcall: SpecFcall::Twalk(v) }) =~= le32((7 + body.len()) as u32)
        + seq![110u8] + le16(tag) + body);
}

/// `Rwalk` on the wire: size, type 111, tag, then wqids.
pub proof fn lemma_layout_rwalk(tag: u16, v: SpecRwalk)
    ensures
        ({
            let body = le16(v.wqids.len() as u16) + enc_qids(v.wqids);
            enc_frame(SpecTaggedFcall { tag, fcall: SpecFcall::Rwalk(v) }) == le32((7 + body.len()) as u32)
                + seq![111u8] + le16(tag) + body
        }),
{
    reveal(enc_fcall);
    reveal(spec_fcall_type);
    reveal(FcallType::spec_code);
    lemma_parse_u16(tag, Seq::empty());
    let body = le16(v.wqids.len() as u16) + enc_qids(v.wqids);
    assert(enc_frame(SpecTaggedFcall { tag, fcall: SpecFcall::Rwalk(v) }) =~= le32((7 + body.len()) as u32)
        + seq![111u8] + le16(tag) + body);
}

/// `Tread` on the wire: size, type 116, tag, then fid, offset, count.
pub proof fn lemma_layout_tread(tag: u16, v: Tread)
    ensures
        ({
            let body = le32(v.fid) + le64(v.offset) + le32(v.count);
            enc_frame(SpecTaggedFcall { tag, fcall: SpecFcall::Tread(v) }) == le32((7 + body.len()) as u32)
                + seq![116u8] + le16(tag) + body
        }),
{
    reveal(enc_fcall);
    reveal(spec_fcall_type);
    reveal(FcallType::spec_code);
    lemma_parse_u16(tag, Seq::empty());
    let body = le32(v.fid) + le64(v.offset) + le32(v.count);
    assert(enc_frame(SpecTaggedFcall { tag, fcall: SpecFcall::Tread(v) }) =~= le32((7 + body.len()) as u32)
        + seq![116u8] + le16(tag) + body);
}

/// `Rread` on the wire: size, type 117, tag, then data.
pub proof fn lemma_layout_rread(tag: u16, v: SpecRread)
    ensures
        ({
            let body = le32(v.data.len() as u32) + v.data;
            enc_frame(SpecTaggedFcall { tag, fcall: SpecFcall::Rread(v) }) == le32((7 + body.len()) as u32)
                + seq![117u8] + le16(tag) + body
        }),
{
    reveal(enc_fcall);
    reveal(spec_fcall_type);
    reveal(FcallType::spec_code);
    lemma_parse_u16(tag, Seq::empty());
    let body = le32(v.data.len() as u32) + v.data;
    assert(enc_frame(SpecTaggedFcall { tag, fcall: SpecFcall::Rread(v) }) =~= le32((7 + body.len()) as u32)
        + seq![117u8] + le16(tag) + body);
}

/// `Twrite` on the wire: size, type 118, tag, then fid, offset, data.
pub proof fn lemma_layout_twrite(tag: u16, v: SpecTwrite)
    ensures
        ({
            let body = le32(v.fid) + le64(v.offset) + le32(v.data.len() as u32) + v.data;
            enc_frame(SpecTaggedFcall { tag, fcall: SpecFcall::Twrite(v) }) == le32((7 + body.len()) as u32)
                + seq![118u8] + le16(tag) + body
        }),
{
    reveal(enc_fcall);
    reveal(spec_fcall_type);
    reveal(FcallType::spec_code);
    lemma_parse_u16(tag, Seq::empty());
    let body = le32(v.fid) + le64(v.offset) + le32(v.data.len() as u32) + v.data;
    assert(enc_frame(SpecTaggedFcall { tag, fcall: SpecFcall::Twrite(v) }) =~= le32((7 + body.len()) as u32)
        + seq![118u8] + le16(tag) + body);
}

/// `Rwrite` on the wire: size, type 119, tag, then count.
pub proof fn lemma_layout_rwrite(tag: u16, v: Rwrite)
    ensures
        ({
            let body = le32(v.count);
            enc_frame(SpecTaggedFcall { tag, fcall: SpecFcall::Rwrite(v) }) == le32((7 + body.len()) as u32)
                + seq![119u8] + le16(tag) + body
        }),
{
    reveal(enc_fcall);
    reveal(spec_fcall_type);
    reveal(FcallType::spec_code);
    lemma_parse_u16(tag, Seq::empty());
    let body = le32(v.count);
    assert(enc_frame(SpecTaggedFcall { tag, fcall: SpecFcall::Rwrite(v) }) =~= le32((7 + body.len()) as u32)
        + seq![119u8] + le16(tag) + body);
}

/// `Tclunk` on the wire: size, type 120, tag, then fid.
pub proof fn lemma_layout_tclunk(tag: u16, v: Tclunk)
    ensures
        ({
            let body = le32(v.fid);
            enc_frame(SpecTaggedFcall { tag, fcall: SpecFcall::Tclunk(v) }) == le32((7 + body.len()) as u32)
                + seq![120u8] + le16(tag) + body
        }),
{
    reveal(enc_fcall);
    reveal(spec_fcall_type);
    reveal(FcallType::spec_code);
    lemma_parse_u16(tag, Seq::empty());
    let body = le32(v.fid);
    assert(enc_frame(SpecTaggedFcall { tag, fcall: SpecFcall::Tclunk(v) }) =~= le32((7 + body.len()) as u32)
        + seq![120u8] + le16(tag) + body);
}

/// `Rclunk` on the wire: size, type 121, tag, then no fields.
pub proof fn lemma_layout_rclunk(tag: u16, v: Rclunk)
    ensures
        ({
            let body = Seq::<u8>::empty();
            enc_frame(SpecTaggedFcall { tag, fcall: SpecFcall::Rclunk(v) }) == le32((7 + body.len()) as u32)
                + seq![121u8] + le16(tag) + body
        }),
{
    reveal(enc_fcall);
    reveal(spec_fcall_type);
    reveal(FcallType::spec_code);
    lemma_parse_u16(tag, Seq::empty());
    let body = Seq::<u8>::empty();
    assert(enc_frame(SpecTaggedFcall { tag, fcall: SpecFcall::Rclunk(v) }) =~= le32((7 + body.len()) as u32)
        + seq![121u8] + le16(tag) + body);
}

/// `Tremove` on the wire: size, type 122, tag, then fid.
pub proof fn lemma_layout_tremove(tag: u16, v: Tremove)
    ensures
        ({
            let body = le32(v.fid);
            enc_frame(SpecTaggedFcall { tag, fcall: SpecFcall::Tremove(v) }) == le32((7 + body.len()) as u32)
                + seq![122u8] + le16(tag) + body
        }),
{
    reveal(enc_fcall);
    reveal(spec_fcall_type);
    reveal(FcallType::spec_code);
    lemma_parse_u16(tag, Seq::empty());
    let body = le32(v.fid);
    assert(enc_frame(SpecTaggedFcall { tag, fcall: SpecFcall::Tremove(v) }) =~= le32((7 + body.len()) as u32)
        + seq![122u8] + le16(tag) + body);
}

/// `Rremove` on the wire: size, type 123, tag, then no fields.
pub proof fn lemma_layout_rremove(tag: u16, v: Rremove)
    ensures
        ({
            let body = Seq::<u8>::empty();
            enc_frame(SpecTaggedFcall { tag, fcall: SpecFcall::Rremove(v) }) == le32((7 + body.len()) as u32)
                + seq![123u8] + le16(tag) + body
        }),
{
    reveal(enc_fcall);
    reveal(spec_fcall_type);
    reveal(FcallType::spec_code);
    lemma_parse_u16(tag, Seq::empty());
    let body = Seq::<u8>::empty();
    assert(enc_frame(SpecTaggedFcall { tag, fcall: SpecFcall::Rremove(v) }) =~= le32((7 + body.len()) as u32)
        + seq![123u8] + le16(tag) + body);
}

} // verus!
