use p92000l::error::ProtoError;
use p92000l::fcall::{
    DirEntry, DirEntryData, Fcall, FcallType, Flock, Getlock, Qid, Rattach, Rgetattr, Rlerror,
    Rread, Rreaddir, Rversion, Rwalk, Rwrite, SetAttr, Stat, Statfs, TaggedFcall, Tattach, Tclunk,
    Tgetlock, Tlcreate, Tlock, Tread, Tsetattr, Tstatfs, Twalk, Twrite, Time, Rstatfs, NOFID,
    NOTAG,
};
use p92000l::flags::{GetattrMask, LOpenFlags, LockFlag, LockType, QidType, SetattrMask};
use p92000l::frame::{encode_for_write, read_to_buf};
use std::borrow::Cow;

fn encode(m: &TaggedFcall) -> Vec<u8> {
    let mut buf = Vec::new();
    m.encode_to_buf(&mut buf).unwrap();
    buf
}

fn roundtrip(m: TaggedFcall) -> TaggedFcall<'static> {
    let buf = encode(&m);
    assert_eq!(u32::from_le_bytes([buf[0], buf[1], buf[2], buf[3]]) as usize, buf.len());
    assert_eq!(buf[4], FcallType::from(&m.fcall).code());
    TaggedFcall::decode(&buf).unwrap().clone_static()
}

fn qid(path: u64) -> Qid {
    Qid { typ: QidType { bits: QidType::DIR }, version: 3, path }
}

#[test]
fn tattach_roundtrip() {
    let m = TaggedFcall {
        tag: 1,
        fcall: Fcall::Tattach(Tattach {
            fid: 10,
            afid: NOFID,
            uname: Cow::from("alice"),
            aname: Cow::from("/export"),
            n_uname: 1000,
        }),
    };
    let d = roundtrip(m);
    assert_eq!(d.tag, 1);
    match d.fcall {
        Fcall::Tattach(t) => {
            assert_eq!(t.fid, 10);
            assert_eq!(t.afid, NOFID);
            assert_eq!(t.uname, "alice");
            assert_eq!(t.aname, "/export");
            assert_eq!(t.n_uname, 1000);
        }
        _ => panic!("wrong message"),
    }
}

#[test]
fn tattach_exact_bytes() {
    let m = TaggedFcall {
        tag: 0x0102,
        fcall: Fcall::Tattach(Tattach {
            fid: 1,
            afid: NOFID,
            uname: Cow::from("u"),
            aname: Cow::from(""),
            n_uname: 7,
        }),
    };
    let buf = encode(&m);
    assert_eq!(
        buf,
        vec![
            24, 0, 0, 0, 104, 0x02, 0x01, 1, 0, 0, 0, 0xff, 0xff, 0xff, 0xff, 1, 0, b'u', 0, 0, 7,
            0, 0, 0
        ]
    );
}

#[test]
fn twalk_roundtrip() {
    let m = TaggedFcall {
        tag: 123,
        fcall: Fcall::Twalk(Twalk {
            fid: 123,
            new_fid: 345,
            wnames: vec![Cow::from("abc"), Cow::from("def"), Cow::from("hij")],
        }),
    };
    let buf = encode(&m);
    assert_eq!(buf.len(), 4 + 1 + 2 + 4 + 4 + 2 + 3 * 5);
    match TaggedFcall::decode(&buf).unwrap().fcall {
        Fcall::Twalk(w) => {
            assert_eq!(w.fid, 123);
            assert_eq!(w.new_fid, 345);
            assert_eq!(w.wnames, vec!["abc", "def", "hij"]);
        }
        _ => panic!("wrong message"),
    }
}

#[test]
fn rwalk_roundtrip() {
    let m = TaggedFcall { tag: 5, fcall: Fcall::Rwalk(Rwalk { wqids: vec![qid(1), qid(2)] }) };
    match roundtrip(m).fcall {
        Fcall::Rwalk(w) => {
            assert_eq!(w.wqids.len(), 2);
            assert_eq!(w.wqids[0], qid(1));
            assert_eq!(w.wqids[1], qid(2));
        }
        _ => panic!("wrong message"),
    }
}

#[test]
fn rgetattr_roundtrip() {
    let t = |s: u64| Time { sec: s, nsec: s + 1 };
    let stat = Stat {
        mode: 0o644,
        uid: 1,
        gid: 2,
        nlink: 3,
        rdev: 4,
        size: 5,
        blksize: 6,
        blocks: 7,
        atime: t(8),
        mtime: t(10),
        ctime: t(12),
        btime: t(14),
        gen: 16,
        data_version: 17,
    };
    let m = TaggedFcall {
        tag: 9,
        fcall: Fcall::Rgetattr(Rgetattr {
            valid: GetattrMask { bits: GetattrMask::ALL },
            qid: qid(77),
            stat,
        }),
    };
    let buf = encode(&m);
    assert_eq!(buf.len(), 7 + 8 + 13 + 4 * 3 + 8 * 5 + 16 * 4 + 16);
    match TaggedFcall::decode(&buf).unwrap().fcall {
        Fcall::Rgetattr(r) => {
            assert_eq!(r.stat, stat);
            assert_eq!(r.qid, qid(77));
            assert_eq!(r.valid.bits, 0x3fff);
        }
        _ => panic!("wrong message"),
    }
}

#[test]
fn tsetattr_and_statfs_roundtrip() {
    let sa = SetAttr {
        mode: 1,
        uid: 2,
        gid: 3,
        size: 4,
        atime: Time { sec: 5, nsec: 6 },
        mtime: Time { sec: 7, nsec: 8 },
    };
    let m = TaggedFcall {
        tag: 2,
        fcall: Fcall::Tsetattr(Tsetattr {
            fid: 1,
            valid: SetattrMask { bits: SetattrMask::MODE | SetattrMask::SIZE },
            stat: sa,
        }),
    };
    match roundtrip(m).fcall {
        Fcall::Tsetattr(t) => {
            assert_eq!(t.stat, sa);
            assert_eq!(t.valid.bits, 9);
        }
        _ => panic!("wrong message"),
    }
    let fs = Statfs {
        typ: 1,
        bsize: 4096,
        blocks: 10,
        bfree: 9,
        bavail: 8,
        files: 7,
        ffree: 6,
        fsid: 5,
        namelen: 255,
    };
    let m = TaggedFcall { tag: 3, fcall: Fcall::Rstatfs(Rstatfs { statfs: fs }) };
    match roundtrip(m).fcall {
        Fcall::Rstatfs(r) => assert_eq!(r.statfs, fs),
        _ => panic!("wrong message"),
    }
    let m = TaggedFcall { tag: 4, fcall: Fcall::Tstatfs(Tstatfs { fid: 42 }) };
    match roundtrip(m).fcall {
        Fcall::Tstatfs(t) => assert_eq!(t.fid, 42),
        _ => panic!("wrong message"),
    }
}

#[test]
fn lock_messages_roundtrip() {
    let m = TaggedFcall {
        tag: 8,
        fcall: Fcall::Tlock(Tlock {
            fid: 3,
            flock: Flock {
                typ: LockType { bits: LockType::WRLOCK },
                flags: LockFlag { bits: LockFlag::BLOCK },
                start: 0,
                length: 100,
                proc_id: 99,
                client_id: Cow::from("host"),
            },
        }),
    };
    match roundtrip(m).fcall {
        Fcall::Tlock(t) => {
            assert_eq!(t.flock.typ.bits, 1);
            assert_eq!(t.flock.flags.bits, 1);
            assert_eq!(t.flock.length, 100);
            assert_eq!(t.flock.client_id, "host");
        }
        _ => panic!("wrong message"),
    }
    let m = TaggedFcall {
        tag: 8,
        fcall: Fcall::Tgetlock(Tgetlock {
            fid: 3,
            flock: Getlock {
                typ: LockType { bits: LockType::RDLOCK },
                start: 1,
                length: 2,
                proc_id: 3,
                client_id: Cow::from("c"),
            },
        }),
    };
    match roundtrip(m).fcall {
        Fcall::Tgetlock(t) => {
            assert_eq!(t.flock.start, 1);
            assert_eq!(t.flock.client_id, "c");
        }
        _ => panic!("wrong message"),
    }
}

#[test]
fn tlcreate_roundtrip() {
    let m = TaggedFcall {
        tag: 11,
        fcall: Fcall::Tlcreate(Tlcreate {
            fid: 1,
            name: Cow::from("file.txt"),
            flags: LOpenFlags { bits: LOpenFlags::O_RDWR | LOpenFlags::O_TRUNC },
            mode: 0o600,
            gid: 5,
        }),
    };
    match roundtrip(m).fcall {
        Fcall::Tlcreate(t) => {
            assert_eq!(t.name, "file.txt");
            assert_eq!(t.flags.bits, 0o1002);
            assert_eq!(t.mode, 0o600);
        }
        _ => panic!("wrong message"),
    }
}

fn dirent(name: &'static str, offset: u64) -> DirEntry<'static> {
    DirEntry { qid: qid(offset), offset, typ: 4, name: Cow::from(name) }
}

#[test]
fn rreaddir_roundtrip() {
    let mut data = DirEntryData::new();
    data.push(dirent(".", 0));
    data.push(dirent("..", 1));
    data.push(dirent("hello", 2));
    assert_eq!(data.size(), 25 + 26 + 29);
    assert_eq!(dirent("hello", 2).size(), 29);
    let m = TaggedFcall { tag: 6, fcall: Fcall::Rreaddir(Rreaddir { data }) };
    let buf = encode(&m);
    assert_eq!(buf.len(), 7 + 4 + 80);
    assert_eq!(&buf[7..11], &80u32.to_le_bytes()[..]);
    match TaggedFcall::decode(&buf).unwrap().fcall {
        Fcall::Rreaddir(r) => {
            let names: Vec<&str> = r.data.data().iter().map(|e| e.name.as_ref()).collect();
            assert_eq!(names, vec![".", "..", "hello"]);
            assert_eq!(r.data.data()[2].offset, 2);
        }
        _ => panic!("wrong message"),
    }
}

#[test]
fn empty_rreaddir_roundtrip() {
    let m = TaggedFcall { tag: 6, fcall: Fcall::Rreaddir(Rreaddir { data: DirEntryData::default() }) };
    match roundtrip(m).fcall {
        Fcall::Rreaddir(r) => assert!(r.data.data().is_empty()),
        _ => panic!("wrong message"),
    }
}

#[test]
fn rreaddir_count_beyond_buffer_is_invalid() {
    // Rreaddir, tag 1, byte count 100 with only 4 bytes following.
    let buf = vec![15, 0, 0, 0, 41, 1, 0, 100, 0, 0, 0, 1, 2, 3, 4];
    assert!(matches!(TaggedFcall::decode(&buf), Err(ProtoError::InvalidMessage)));
}

#[test]
fn decode_ignores_trailing_bytes() {
    let m = TaggedFcall { tag: 7, fcall: Fcall::Rwrite(Rwrite { count: 512 }) };
    let mut buf = encode(&m);
    buf.extend_from_slice(&[9, 9, 9]);
    match TaggedFcall::decode(&buf).unwrap().fcall {
        Fcall::Rwrite(r) => assert_eq!(r.count, 512),
        _ => panic!("wrong message"),
    }
}

#[test]
fn flags_outside_named_bits_are_dropped_on_decode() {
    let m = TaggedFcall { tag: 1, fcall: Fcall::Rattach(Rattach { qid: qid(1) }) };
    let mut buf = encode(&m);
    buf[7] = 0xff; // qid type byte
    match TaggedFcall::decode(&buf).unwrap().fcall {
        Fcall::Rattach(r) => assert_eq!(r.qid.typ.bits, 0xff),
        _ => panic!("wrong message"),
    }
    let m = TaggedFcall {
        tag: 1,
        fcall: Fcall::Tlock(Tlock {
            fid: 1,
            flock: Flock {
                typ: LockType { bits: 0xff },
                flags: LockFlag { bits: 0xffff_ffff },
                start: 0,
                length: 0,
                proc_id: 0,
                client_id: Cow::from(""),
            },
        }),
    };
    match TaggedFcall::decode(&encode(&m)).unwrap().fcall {
        Fcall::Tlock(t) => {
            assert_eq!(t.flock.typ.bits, 3);
            assert_eq!(t.flock.flags.bits, 3);
        }
        _ => panic!("wrong message"),
    }
}

#[test]
fn invalid_messages() {
    // Too short for a header.
    assert_eq!(TaggedFcall::decode(&[1, 0, 0]).err(), Some(ProtoError::InvalidMessage));
    // Unknown message type 106 (Terror).
    assert_eq!(
        TaggedFcall::decode(&[7, 0, 0, 0, 106, 0, 0]).err(),
        Some(ProtoError::InvalidMessage)
    );
    // Body cut short.
    assert_eq!(
        TaggedFcall::decode(&[9, 0, 0, 0, 7, 0, 0, 5, 0]).err(),
        Some(ProtoError::InvalidMessage)
    );
    // A string that is not UTF-8.
    let buf = vec![11, 0, 0, 0, 23, 0, 0, 2, 0, 0xff, 0xfe];
    assert_eq!(TaggedFcall::decode(&buf).err(), Some(ProtoError::InvalidMessage));
}

#[test]
fn string_too_long_is_refused() {
    let long = "x".repeat(0x10000);
    let m = TaggedFcall {
        tag: 1,
        fcall: Fcall::Tversion(p92000l::fcall::Tversion { msize: 1, version: Cow::from(long) }),
    };
    let mut buf = Vec::new();
    assert_eq!(m.encode_to_buf(&mut buf), Err(ProtoError::StringTooLong));
    let ok = "x".repeat(0xffff);
    let m = TaggedFcall {
        tag: 1,
        fcall: Fcall::Tversion(p92000l::fcall::Tversion { msize: 1, version: Cow::from(ok) }),
    };
    assert!(m.encode_to_buf(&mut buf).is_ok());
    assert_eq!(buf.len(), 7 + 4 + 2 + 0xffff);
}

#[test]
fn too_many_wnames_and_qids_are_refused() {
    let m = TaggedFcall {
        tag: 1,
        fcall: Fcall::Twalk(Twalk { fid: 1, new_fid: 2, wnames: vec![Cow::from(""); 0x10000] }),
    };
    let mut buf = Vec::new();
    assert_eq!(m.encode_to_buf(&mut buf), Err(ProtoError::StringVecTooLong));
    let m = TaggedFcall { tag: 1, fcall: Fcall::Rwalk(Rwalk { wqids: vec![qid(0); 0x10000] }) };
    assert_eq!(m.encode_to_buf(&mut buf), Err(ProtoError::QidVecTooLong));
    let m = TaggedFcall { tag: 1, fcall: Fcall::Rwalk(Rwalk { wqids: vec![qid(0); 0xffff] }) };
    assert!(m.encode_to_buf(&mut buf).is_ok());
}

#[test]
fn fcall_type_codes() {
    assert_eq!(FcallType::from_u8(7), Some(FcallType::Rlerror));
    assert_eq!(FcallType::from_u8(100), Some(FcallType::Tversion));
    assert_eq!(FcallType::from_u8(123), Some(FcallType::Rremove));
    assert_eq!(FcallType::from_u8(106), None);
    assert_eq!(FcallType::from_u8(0), None);
    for v in 0..=255u8 {
        if let Some(t) = FcallType::from_u8(v) {
            assert_eq!(t.code(), v);
        }
    }
    assert_eq!(FcallType::Twalk.code(), 110);
    assert_eq!(FcallType::from_u8(FcallType::Treaddir.code()), Some(FcallType::Treaddir));
}

#[test]
fn zero_copy_rread_matches_whole_frame() {
    let data = vec![1u8, 2, 3, 4, 5];
    let m = TaggedFcall { tag: 77, fcall: Fcall::Rread(Rread { data: Cow::from(&data[..]) }) };
    let mut buf = Vec::new();
    let payload = encode_for_write(&mut buf, 1024, &m).unwrap().unwrap().to_vec();
    let mut sent = buf.clone();
    sent.extend_from_slice(&payload);
    assert_eq!(sent, encode(&m));
    assert_eq!(buf.len(), 11);
}

#[test]
fn zero_copy_twrite_matches_whole_frame() {
    let data = vec![9u8; 100];
    let m = TaggedFcall {
        tag: 3,
        fcall: Fcall::Twrite(Twrite { fid: 4, offset: 1 << 40, data: Cow::from(&data[..]) }),
    };
    let mut buf = Vec::new();
    let payload = encode_for_write(&mut buf, 4096, &m).unwrap().unwrap().to_vec();
    let mut sent = buf.clone();
    sent.extend_from_slice(&payload);
    assert_eq!(sent, encode(&m));
    assert_eq!(buf.len(), 23);
}

#[test]
fn zero_copy_refuses_oversized_messages() {
    let data = vec![0u8; 100];
    let m = TaggedFcall { tag: 1, fcall: Fcall::Rread(Rread { data: Cow::from(&data[..]) }) };
    let mut buf = Vec::new();
    assert_eq!(encode_for_write(&mut buf, 110, &m), Err(ProtoError::InvalidMessage));
    assert!(encode_for_write(&mut buf, 111, &m).is_ok());
    let m = TaggedFcall {
        tag: 1,
        fcall: Fcall::Twrite(Twrite { fid: 0, offset: 0, data: Cow::from(&data[..]) }),
    };
    assert_eq!(encode_for_write(&mut buf, 122, &m), Err(ProtoError::InvalidMessage));
    assert!(encode_for_write(&mut buf, 123, &m).is_ok());
}

#[test]
fn other_messages_are_encoded_whole_for_write() {
    let m = TaggedFcall { tag: 2, fcall: Fcall::Tread(Tread { fid: 1, offset: 2, count: 3 }) };
    let mut buf = Vec::new();
    assert_eq!(encode_for_write(&mut buf, 0, &m), Ok(None));
    assert_eq!(buf, encode(&m));
}

#[test]
fn read_to_buf_checks_size() {
    let mut buf = vec![20, 0, 0, 0];
    assert_eq!(read_to_buf(&mut buf, 19), Err(ProtoError::SizeLimit));
    assert_eq!(buf, vec![20, 0, 0, 0]);
    assert_eq!(read_to_buf(&mut buf, 20), Ok(()));
    assert_eq!(buf.len(), 20);
    assert_eq!(&buf[..4], &[20, 0, 0, 0]);
    assert!(buf[4..].iter().all(|b| *b == 0));
}

#[test]
fn clone_static_keeps_message() {
    let name = String::from("borrowed");
    let m = TaggedFcall {
        tag: 3,
        fcall: Fcall::Tclunk(Tclunk { fid: 9 }),
    };
    let c = m.clone_static();
    assert_eq!(encode(&c), encode(&m));
    let m = TaggedFcall {
        tag: 4,
        fcall: Fcall::Rversion(Rversion { msize: 10, version: Cow::from(&name[..]) }),
    };
    let c = m.clone_static();
    drop(m);
    match c.fcall {
        Fcall::Rversion(v) => assert_eq!(v.version, "borrowed"),
        _ => panic!("wrong message"),
    }
    let e = Fcall::from(Rlerror { ecode: 2 });
    assert_eq!(FcallType::from(&e), FcallType::Rlerror);
    assert_eq!(NOTAG, 0xffff);
}

#[test]
fn fcall_from_result() {
    let ok: Result<Rattach, Rlerror> = Ok(Rattach { qid: qid(1) });
    assert!(matches!(Fcall::from(ok), Fcall::Rattach(_)));
    let err: Result<Rattach, Rlerror> = Err(Rlerror { ecode: 95 });
    assert!(matches!(Fcall::from(err), Fcall::Rlerror(Rlerror { ecode: 95 })));
    let d = DirEntryData::with(vec![dirent("a", 0)]);
    assert_eq!(d.data().len(), 1);
    assert_eq!(d.size(), 25);
}

#[test]
fn decoding_borrows_and_clone_static_owns() {
    let m = TaggedFcall {
        tag: 1,
        fcall: Fcall::Twalk(Twalk {
            fid: 1,
            new_fid: 2,
            wnames: vec![Cow::from("a".to_string()), Cow::from("bc".to_string())],
        }),
    };
    let buf = encode(&m);
    let d = TaggedFcall::decode(&buf).unwrap();
    match &d.fcall {
        Fcall::Twalk(w) => assert!(w.wnames.iter().all(|n| matches!(n, Cow::Borrowed(_)))),
        _ => panic!("wrong message"),
    }
    let c = d.clone_static();
    match &c.fcall {
        Fcall::Twalk(w) => {
            assert!(w.wnames.iter().all(|n| matches!(n, Cow::Owned(_))));
            assert_eq!(w.wnames, vec!["a", "bc"]);
        }
        _ => panic!("wrong message"),
    }
    let data = [1u8, 2, 3];
    let m = TaggedFcall { tag: 2, fcall: Fcall::Rread(Rread { data: Cow::from(data.to_vec()) }) };
    let buf = encode(&m);
    match TaggedFcall::decode(&buf).unwrap().fcall {
        Fcall::Rread(r) => {
            assert!(matches!(r.data, Cow::Borrowed(_)));
            assert_eq!(&r.data[..], &data[..]);
        }
        _ => panic!("wrong message"),
    }
}
