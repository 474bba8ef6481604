use p92000l::errno::EIO;
use p92000l::fcall::{
    Fcall, Qid, Rattach, Rclunk, Rlerror, Rversion, Rwrite, TaggedFcall, Tattach, Tclunk, Tremove,
    Tversion, Twrite, NOFID, NOTAG,
};
use p92000l::flags::QidType;
use p92000l::proxy::{
    check_client_version, check_reconnect_rversion, eio_reply, expect_rattach, expect_rversion,
    expect_tversion, reconnect_tversion, ProxyError,
};
use p92000l::shadow::ShadowServerState;
use std::borrow::Cow;

fn frame(tag: u16, fcall: Fcall) -> Vec<u8> {
    let mut buf = Vec::new();
    TaggedFcall { tag, fcall }.encode_to_buf(&mut buf).unwrap();
    buf
}

fn tattach(fid: u32, aname: &'static str) -> Fcall<'static> {
    Fcall::Tattach(Tattach {
        fid,
        afid: NOFID,
        uname: Cow::from("u"),
        aname: Cow::from(aname),
        n_uname: 0,
    })
}

fn rattach() -> Fcall<'static> {
    Fcall::Rattach(Rattach { qid: Qid { typ: QidType { bits: QidType::DIR }, version: 0, path: 1 } })
}

#[test]
fn successful_attach_is_remembered() {
    let mut s = ShadowServerState::new();
    s.on_fcall(&frame(1, tattach(10, "/a")));
    assert!(s.inflight_tags.contains_key(&1));
    assert!(s.attach_fids.is_empty());
    s.on_fcall(&frame(1, rattach()));
    assert!(!s.inflight_tags.contains_key(&1));
    assert_eq!(s.attach_fids.get(&10).unwrap().aname, "/a");
}

#[test]
fn failed_attach_is_forgotten() {
    let mut s = ShadowServerState::new();
    s.on_fcall(&frame(1, tattach(10, "/a")));
    s.on_fcall(&frame(1, Fcall::Rlerror(Rlerror { ecode: 2 })));
    assert!(s.attach_fids.is_empty());
    assert!(s.inflight_tags.is_empty());
}

#[test]
fn clunk_and_remove_release_fids_even_on_error() {
    let mut s = ShadowServerState::new();
    s.on_fcall(&frame(1, tattach(10, "/a")));
    s.on_fcall(&frame(1, rattach()));
    s.on_fcall(&frame(2, tattach(11, "/b")));
    s.on_fcall(&frame(2, rattach()));
    assert_eq!(s.attach_fids.len(), 2);
    s.on_fcall(&frame(3, Fcall::Tclunk(Tclunk { fid: 10 })));
    s.on_fcall(&frame(3, Fcall::Rlerror(Rlerror { ecode: 9 })));
    assert!(!s.attach_fids.contains_key(&10));
    s.on_fcall(&frame(4, Fcall::Tremove(Tremove { fid: 11 })));
    s.on_fcall(&frame(4, Fcall::Rclunk(Rclunk {})));
    assert!(s.attach_fids.is_empty());
}

#[test]
fn other_requests_change_nothing() {
    let mut s = ShadowServerState::new();
    s.on_fcall(&frame(1, tattach(10, "/a")));
    s.on_fcall(&frame(1, rattach()));
    let data = [0u8; 4];
    s.on_fcall(&frame(5, Fcall::Twrite(Twrite { fid: 10, offset: 0, data: Cow::from(&data[..]) })));
    assert!(s.inflight_tags.contains_key(&5));
    s.on_fcall(&frame(5, Fcall::Rwrite(Rwrite { count: 4 })));
    assert_eq!(s.attach_fids.len(), 1);
    assert!(s.inflight_tags.is_empty());
    // An unknown message type is ignored.
    s.on_fcall(&[7, 0, 0, 0, 106, 0, 0]);
    assert_eq!(s.attach_fids.len(), 1);
}

#[test]
fn eio_while_disconnected() {
    let mut s = ShadowServerState::new();
    s.on_fcall(&frame(1, tattach(10, "/a")));
    s.on_fcall(&frame(1, rattach()));
    let mut buf = frame(9, Fcall::Tclunk(Tclunk { fid: 10 }));
    s.eio_reply_frame(&mut buf);
    assert_eq!(buf, frame(9, Fcall::Rlerror(Rlerror { ecode: EIO })));
    assert!(s.attach_fids.is_empty());
    assert!(s.inflight_tags.is_empty());
}

#[test]
fn inflight_requests_are_cancelled() {
    let mut s = ShadowServerState::new();
    s.on_fcall(&frame(1, tattach(10, "/a")));
    s.on_fcall(&frame(2, Fcall::Tclunk(Tclunk { fid: 3 })));
    let mut tags = s.cancel_inflight();
    tags.sort();
    assert_eq!(tags, vec![1, 2]);
    assert!(s.inflight_tags.is_empty());
    let r = eio_reply(1);
    assert_eq!(r.tag, 1);
    assert!(matches!(r.fcall, Fcall::Rlerror(Rlerror { ecode: 5 })));
}

#[test]
fn reattach_requests_restore_every_fid() {
    let mut s = ShadowServerState::new();
    s.on_fcall(&frame(1, tattach(10, "/a")));
    s.on_fcall(&frame(1, rattach()));
    s.on_fcall(&frame(2, tattach(11, "/b")));
    s.on_fcall(&frame(2, rattach()));
    let reqs = s.reattach_requests();
    assert_eq!(reqs.len(), 2);
    let mut seen: Vec<(u32, String)> = reqs
        .iter()
        .map(|r| match &r.fcall {
            Fcall::Tattach(t) => {
                assert_eq!(r.tag, NOTAG);
                (t.fid, t.aname.to_string())
            }
            _ => panic!("wrong message"),
        })
        .collect();
    seen.sort();
    assert_eq!(seen, vec![(10, "/a".to_string()), (11, "/b".to_string())]);
}

#[test]
fn proxy_version_checks() {
    let tv = TaggedFcall {
        tag: NOTAG,
        fcall: Fcall::Tversion(Tversion { msize: 8192, version: Cow::from("9P2000.L") }),
    };
    let t = expect_tversion(&tv).unwrap();
    assert_eq!(t.msize, 8192);
    assert!(check_client_version(&t).is_ok());
    let bad = Tversion { msize: 100, version: Cow::from("9P2000") };
    let reply = check_client_version(&bad).unwrap_err();
    assert_eq!(reply.tag, NOTAG);
    match reply.fcall {
        Fcall::Rversion(r) => {
            assert_eq!(r.msize, 100);
            assert_eq!(r.version, "unknown");
        }
        _ => panic!("wrong message"),
    }
    let not_version = TaggedFcall { tag: NOTAG, fcall: rattach() };
    assert_eq!(expect_tversion(&not_version).err(), Some(ProxyError::ExpectedTversion));
    assert_eq!(expect_rversion(&not_version).err(), Some(ProxyError::ExpectedRversion));
    assert_eq!(expect_rattach(&not_version), Ok(()));
    assert_eq!(expect_rattach(&TaggedFcall { tag: 1, fcall: rattach() }), Err(ProxyError::ExpectedRattach));

    let old = Rversion { msize: 8192, version: Cow::from("9P2000.L") };
    let again = reconnect_tversion(&old);
    assert_eq!(again.tag, NOTAG);
    match &again.fcall {
        Fcall::Tversion(t) => {
            assert_eq!(t.msize, 8192);
            assert_eq!(t.version, "9P2000.L");
        }
        _ => panic!("wrong message"),
    }
    let bigger = Rversion { msize: 16384, version: Cow::from("9P2000.L") };
    let smaller = Rversion { msize: 4096, version: Cow::from("9P2000.L") };
    let other = Rversion { msize: 8192, version: Cow::from("9P2000") };
    assert_eq!(check_reconnect_rversion(&old, &bigger), Ok(()));
    assert_eq!(check_reconnect_rversion(&old, &smaller), Err(ProxyError::ServerChanged));
    assert_eq!(check_reconnect_rversion(&old, &other), Err(ProxyError::ServerChanged));
    assert_eq!(ProxyError::ServerChanged.message(), "server resized buffers on reconnect");
}
