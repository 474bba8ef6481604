use p92000l::fcall::{Fcall, Rlerror, TaggedFcall, Tversion, NOTAG};
use std::borrow::Cow;

#[test]
fn tversion_roundtrip() {
    let m = TaggedFcall {
        tag: NOTAG,
        fcall: Fcall::Tversion(Tversion { msize: 8192, version: Cow::from("9P2000.L") }),
    };
    let mut buf = Vec::new();
    m.encode_to_buf(&mut buf).unwrap();
    assert_eq!(buf.len(), 4 + 1 + 2 + 4 + 2 + 8);
    assert_eq!(&buf[..4], &(buf.len() as u32).to_le_bytes()[..]);
    assert_eq!(buf[4], 100);
    let d = TaggedFcall::decode(&buf).unwrap();
    assert_eq!(d.tag, NOTAG);
    match d.fcall {
        Fcall::Tversion(v) => {
            assert_eq!(v.msize, 8192);
            assert_eq!(v.version, "9P2000.L");
        }
        _ => panic!("wrong message"),
    }
}

#[test]
fn rlerror_bytes() {
    let m = TaggedFcall { tag: 7, fcall: Fcall::Rlerror(Rlerror { ecode: 5 }) };
    let mut buf = Vec::new();
    m.encode_to_buf(&mut buf).unwrap();
    assert_eq!(buf, vec![11, 0, 0, 0, 7, 7, 0, 5, 0, 0, 0]);
}
