use p92000l::client::{ClientError, FidsetInner, InflightFcallsInner};
use p92000l::error::{ErrorKind, IoError};
use p92000l::fcall::{
    DirEntry, Fcall, Qid, Rattach, Rclunk, Rlerror, Rlopen, Rread, Rreaddir, Rversion, Rwalk,
    Rwrite, TaggedFcall, DirEntryData, NOFID, NOTAG,
};
use p92000l::flags::QidType;
use p92000l::requests::{
    attach_reply, empty_reply, initial_bufsize, io_count, negotiated_bufsize, open_reply,
    read_dir_reply, read_dir_step, read_reply, readdir_count, version_request, walk_chunks,
    walk_reply, write_reply, check_walk_len, EmptyReply, MIN_MSIZE,
};
use p92000l::server::{server_bufsize, version_reply};
use std::borrow::Cow;

fn qid(path: u64) -> Qid {
    Qid { typ: QidType { bits: QidType::FILE }, version: 0, path }
}

#[test]
fn fids_are_handed_out_in_turn() {
    let mut f = FidsetInner::new();
    assert_eq!(f.fresh_id(), Some(0));
    assert_eq!(f.fresh_id(), Some(1));
    assert_eq!(f.fresh_id(), Some(2));
    f.remove(1);
    assert_eq!(f.fresh_id(), Some(3));
    assert!(f.set.contains(&0) && !f.set.contains(&1) && f.set.contains(&3));
}

#[test]
fn fids_skip_those_in_use_and_wrap() {
    let mut f = FidsetInner::new();
    f.set.insert(0);
    f.set.insert(1);
    assert_eq!(f.fresh_id(), Some(2));
    f.next = NOFID - 2;
    assert_eq!(f.fresh_id(), Some(NOFID - 1));
    // NOFID is skipped.
    assert_eq!(f.fresh_id(), Some(3));
    assert!(!f.set.contains(&NOFID));
}

#[test]
fn tags_are_handed_out_in_turn() {
    let mut t: InflightFcallsInner<&str> = InflightFcallsInner::new();
    assert!(!t.must_wait());
    assert_eq!(t.add("a"), Ok(0));
    assert_eq!(t.add("b"), Ok(1));
    assert_eq!(t.remove(0), Some("a"));
    assert_eq!(t.remove(0), None);
    t.next_tag = NOTAG - 2;
    assert_eq!(t.add("c"), Ok(NOTAG - 1));
    // NOTAG is skipped.
    assert_eq!(t.add("d"), Ok(0));
    assert_eq!(t.add("e"), Ok(2));
    assert!(!t.map.contains_key(&NOTAG));
    t.mark_disconnected();
    assert!(t.map.is_empty());
    assert_eq!(t.add("f"), Err(ClientError::Disconnected));
    assert!(!t.must_wait());
}

#[test]
fn a_full_tag_table_must_wait() {
    let mut t: InflightFcallsInner<()> = InflightFcallsInner::new();
    for i in 0..NOTAG {
        t.map.insert(i, ());
    }
    assert!(t.must_wait());
    t.remove(17);
    assert!(!t.must_wait());
    assert_eq!(t.add(()), Ok(17));
}

#[test]
fn version_negotiation() {
    assert_eq!(initial_bufsize(0), MIN_MSIZE as usize);
    assert_eq!(initial_bufsize(8192), 8192);
    assert_eq!(initial_bufsize(usize::MAX), u32::MAX as usize);
    let req = version_request(8192);
    assert_eq!(req.tag, NOTAG);
    match req.fcall {
        Fcall::Tversion(v) => {
            assert_eq!(v.msize, 8192);
            assert_eq!(v.version, "9P2000.L");
        }
        _ => panic!("wrong message"),
    }
    let reply = |tag: u16, msize: u32, version: &'static str| TaggedFcall {
        tag,
        fcall: Fcall::Rversion(Rversion { msize, version: Cow::from(version) }),
    };
    assert_eq!(negotiated_bufsize(8192, &reply(NOTAG, 4096, "9P2000.L")), Ok(4096));
    assert_eq!(negotiated_bufsize(8192, &reply(NOTAG, 65536, "9P2000.L")), Ok(8192));
    assert_eq!(
        negotiated_bufsize(8192, &reply(NOTAG, 4096, "9P2000")),
        Err(ClientError::NegotiationFailed)
    );
    assert_eq!(
        negotiated_bufsize(8192, &reply(1, 4096, "9P2000.L")),
        Err(ClientError::UnexpectedResponse)
    );
    let wrong = TaggedFcall { tag: NOTAG, fcall: Fcall::Rclunk(Rclunk {}) };
    assert_eq!(negotiated_bufsize(8192, &wrong), Err(ClientError::UnexpectedResponse));
}

#[test]
fn server_version_reply() {
    assert_eq!(server_bufsize(0), MIN_MSIZE);
    assert_eq!(server_bufsize(1 << 20), 1 << 20);
    assert_eq!(server_bufsize(usize::MAX), u32::MAX);
    let t = p92000l::fcall::Tversion { msize: 8192, version: Cow::from("9P2000.L") };
    let r = version_reply(&t, 4096);
    assert_eq!(r.msize, 4096);
    assert_eq!(r.version, "9P2000.L");
    let t = p92000l::fcall::Tversion { msize: 1024, version: Cow::from("9P2000.u") };
    let r = version_reply(&t, 4096);
    assert_eq!(r.msize, 1024);
    assert_eq!(r.version, "unknown");
}

#[test]
fn walks_are_split_in_runs_of_thirteen() {
    assert_eq!(walk_chunks(0), vec![0]);
    assert_eq!(walk_chunks(1), vec![1]);
    assert_eq!(walk_chunks(13), vec![13]);
    assert_eq!(walk_chunks(14), vec![13, 1]);
    assert_eq!(walk_chunks(30), vec![13, 13, 4]);
    assert_eq!(check_walk_len(13), Ok(()));
    assert_eq!(check_walk_len(14), Err(ClientError::TooManyWnames));
}

#[test]
fn io_counts() {
    assert_eq!(readdir_count(8192), 8192 - 24);
    assert_eq!(io_count(100, 8192), 100);
    assert_eq!(io_count(100_000, 8192), 8192 - 24);
}

#[test]
fn replies_are_read() {
    let rattach = Fcall::Rattach(Rattach { qid: qid(5) });
    assert_eq!(attach_reply(&rattach), Ok(qid(5)));
    let err = Fcall::Rlerror(Rlerror { ecode: 2 });
    assert_eq!(
        attach_reply(&err),
        Err(ClientError::Io(IoError { kind: ErrorKind::NotFound, ecode: None }))
    );
    assert_eq!(open_reply(&rattach), Err(ClientError::UnexpectedResponse));
    assert_eq!(open_reply(&Fcall::Rlopen(Rlopen { qid: qid(6), iounit: 0 })), Ok(qid(6)));
    assert_eq!(walk_reply(Fcall::Rwalk(Rwalk { wqids: vec![qid(1), qid(2)] })), Ok(vec![qid(1), qid(2)]));
    assert_eq!(write_reply(&Fcall::Rwrite(Rwrite { count: 17 })), Ok(17));
    assert_eq!(empty_reply(EmptyReply::Clunk, &Fcall::Rclunk(Rclunk {})), Ok(()));
    assert_eq!(
        empty_reply(EmptyReply::Remove, &Fcall::Rclunk(Rclunk {})),
        Err(ClientError::UnexpectedResponse)
    );
    let weird = Fcall::Rlerror(Rlerror { ecode: 1234 });
    assert_eq!(
        empty_reply(EmptyReply::Fsync, &weird),
        Err(ClientError::Io(IoError { kind: ErrorKind::Other, ecode: Some(1234) }))
    );
}

#[test]
fn read_reply_copies_data() {
    let data = [1u8, 2, 3];
    let reply = Fcall::Rread(Rread { data: Cow::from(&data[..]) });
    let mut buf = [9u8; 5];
    assert_eq!(read_reply(&reply, &mut buf), Ok(3));
    assert_eq!(buf, [1, 2, 3, 9, 9]);
    assert_eq!(read_reply(&Fcall::Rclunk(Rclunk {}), &mut buf), Err(ClientError::UnexpectedResponse));
}

#[test]
fn read_dir_is_read_in_batches() {
    let e = |o: u64| DirEntry { qid: qid(o), offset: o, typ: 0, name: Cow::from("n") };
    let mut data = DirEntryData::new();
    data.push(e(1));
    data.push(e(2));
    let batch = read_dir_reply(Fcall::Rreaddir(Rreaddir { data })).unwrap();
    let mut all = Vec::new();
    assert_eq!(read_dir_step(&mut all, batch), Some(2));
    assert_eq!(read_dir_step(&mut all, vec![e(7)]), Some(7));
    assert_eq!(read_dir_step(&mut all, Vec::new()), None);
    assert_eq!(all.len(), 3);
}
