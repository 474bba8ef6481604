use p92000l::errno::{EBADF, EOPNOTSUPP};
use p92000l::fcall::{
    Fcall, Rlerror, Tattach, Tauth, Tclunk, Tflush, Tgetattr, Tread, Tremove, Trename, Tversion,
    Twalk, NOFID,
};
use p92000l::flags::GetattrMask;
use p92000l::lserver::{read_count, FidTable};
use std::borrow::Cow;

fn attach(fid: u32) -> Fcall<'static> {
    Fcall::Tattach(Tattach { fid, afid: NOFID, uname: Cow::from("u"), aname: Cow::from("/"), n_uname: 0 })
}

fn getattr(fid: u32) -> Fcall<'static> {
    Fcall::Tgetattr(Tgetattr { fid, req_mask: GetattrMask { bits: GetattrMask::ALL } })
}

#[test]
fn unknown_fids_get_ebadf() {
    let t: FidTable<&str> = FidTable::new();
    assert_eq!(t.precheck(&getattr(1)).map(|e| e.ecode), Some(EBADF));
    assert_eq!(t.precheck(&attach(1)), None);
    assert_eq!(t.precheck(&Fcall::Tflush(Tflush { oldtag: 3 })), None);
}

#[test]
fn unserved_messages_get_eopnotsupp() {
    let t: FidTable<&str> = FidTable::new();
    let v = Fcall::Tversion(Tversion { msize: 1, version: Cow::from("9P2000.L") });
    assert_eq!(t.precheck(&v), Some(Rlerror { ecode: EOPNOTSUPP }));
}

#[test]
fn attach_auth_and_walk_add_fids() {
    let mut t: FidTable<&str> = FidTable::new();
    t.after_reply(&attach(1), Some("root"));
    assert_eq!(t.precheck(&getattr(1)), None);
    t.after_reply(&attach(2), None);
    assert_eq!(t.precheck(&getattr(2)).map(|e| e.ecode), Some(EBADF));
    let auth = Fcall::Tauth(Tauth { afid: 5, uname: Cow::from("u"), aname: Cow::from(""), n_uname: 0 });
    t.after_reply(&auth, Some("auth"));
    assert_eq!(t.fids.get(&5), Some(&"auth"));
    let walk = Fcall::Twalk(Twalk { fid: 1, new_fid: 7, wnames: vec![Cow::from("a")] });
    assert_eq!(t.precheck(&walk), None);
    t.after_reply(&walk, Some("a"));
    assert_eq!(t.fids.get(&7), Some(&"a"));
}

#[test]
fn clunk_and_remove_release_whatever_the_reply() {
    let mut t: FidTable<&str> = FidTable::new();
    t.after_reply(&attach(1), Some("root"));
    t.after_reply(&attach(2), Some("other"));
    t.after_reply(&Fcall::Tclunk(Tclunk { fid: 1 }), None);
    assert_eq!(t.precheck(&getattr(1)).map(|e| e.ecode), Some(EBADF));
    t.after_reply(&Fcall::Tremove(Tremove { fid: 2 }), None);
    assert!(t.fids.is_empty());
}

#[test]
fn two_fid_requests_need_two_distinct_known_fids() {
    let mut t: FidTable<&str> = FidTable::new();
    t.after_reply(&attach(1), Some("a"));
    t.after_reply(&attach(2), Some("b"));
    let ok = Fcall::Trename(Trename { fid: 1, dfid: 2, name: Cow::from("x") });
    assert_eq!(t.precheck(&ok), None);
    let same = Fcall::Trename(Trename { fid: 1, dfid: 1, name: Cow::from("x") });
    assert_eq!(t.precheck(&same).map(|e| e.ecode), Some(EBADF));
    let unknown = Fcall::Trename(Trename { fid: 1, dfid: 3, name: Cow::from("x") });
    assert_eq!(t.precheck(&unknown).map(|e| e.ecode), Some(EBADF));
}

#[test]
fn reads_are_capped_by_the_data_buffer() {
    assert_eq!(read_count(100, 8192), 100);
    assert_eq!(read_count(100_000, 8192), 8192);
    let t: FidTable<&str> = FidTable::new();
    let r = Fcall::Tread(Tread { fid: 9, offset: 0, count: 10 });
    assert_eq!(t.precheck(&r).map(|e| e.ecode), Some(EBADF));
}
