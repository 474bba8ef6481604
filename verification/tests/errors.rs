use p92000l::error::{ErrorKind, IoError, ProtoError};
use p92000l::errno;
use p92000l::fcall::{Rlerror, Stat, Statfs, Time};
use p92000l::flags::{GetattrMask, LOpenFlags, QidType};
use p92000l::frame::is_timeout;
use p92000l::lerror::{FileAttr, StatvfsInfo};

#[test]
fn rlerror_into_io_error() {
    assert_eq!(
        Rlerror { ecode: errno::ENOENT }.into_io_error(),
        IoError { kind: ErrorKind::NotFound, ecode: None }
    );
    assert_eq!(Rlerror { ecode: errno::EINTR }.into_io_error().kind, ErrorKind::Interrupted);
    assert_eq!(
        Rlerror { ecode: errno::EIO }.into_io_error(),
        IoError { kind: ErrorKind::Other, ecode: Some(5) }
    );
}

#[test]
fn rlerror_from_error_kind() {
    assert_eq!(Rlerror::from_error_kind(ErrorKind::NotFound).ecode, 2);
    assert_eq!(Rlerror::from_error_kind(ErrorKind::WouldBlock).ecode, errno::EAGAIN);
    assert_eq!(Rlerror::from_error_kind(ErrorKind::InvalidData).ecode, errno::EINVAL);
    assert_eq!(Rlerror::from_error_kind(ErrorKind::UnexpectedEof).ecode, errno::EIO);
    assert_eq!(Rlerror::from_error_kind(ErrorKind::Other).ecode, errno::EIO);
}

#[test]
fn errno_kind_roundtrip() {
    let kinds = [
        ErrorKind::NotFound,
        ErrorKind::PermissionDenied,
        ErrorKind::ConnectionRefused,
        ErrorKind::ConnectionReset,
        ErrorKind::ConnectionAborted,
        ErrorKind::NotConnected,
        ErrorKind::AddrInUse,
        ErrorKind::AddrNotAvailable,
        ErrorKind::BrokenPipe,
        ErrorKind::AlreadyExists,
        ErrorKind::InvalidInput,
        ErrorKind::TimedOut,
        ErrorKind::Interrupted,
    ];
    for k in kinds {
        assert_eq!(Rlerror::from_error_kind(k).into_io_error().kind, k);
    }
}

#[test]
fn qid_type_of_files() {
    assert_eq!(QidType::from_file_type(false, false).bits, QidType::FILE);
    assert_eq!(QidType::from_file_type(true, false).bits, QidType::DIR);
    assert_eq!(QidType::from_file_type(false, true).bits, QidType::SYMLINK);
}

#[test]
fn flags() {
    assert_eq!(GetattrMask::all().bits(), 0x3fff);
    assert_eq!(GetattrMask::from_bits_truncate(0xffff_0001).bits, 1);
    let mut f = LOpenFlags::empty();
    f.insert(LOpenFlags { bits: LOpenFlags::O_EXCL });
    assert_eq!(f.bits, 0o200);
}

#[test]
fn statfs_and_stat_conversions() {
    let s: Statfs = StatvfsInfo {
        block_size: 4096,
        blocks: 1,
        blocks_free: 2,
        blocks_available: 3,
        files: 4,
        files_free: 5,
        filesystem_id: 6,
        name_max: 255,
    }
    .into();
    assert_eq!(s.typ, 0);
    assert_eq!(s.bsize, 4096);
    assert_eq!(s.namelen, 255);
    assert_eq!(s.fsid, 6);
    let st: Stat = FileAttr {
        mode: 0o100644,
        uid: 1,
        gid: 2,
        nlink: 1,
        rdev: 0,
        size: 10,
        blksize: 4096,
        blocks: 8,
        atime: 100,
        atime_nsec: 5,
        mtime: -1,
        mtime_nsec: 0,
        ctime: 7,
        ctime_nsec: 8,
    }
    .into();
    assert_eq!(st.atime, Time { sec: 100, nsec: 5 });
    assert_eq!(st.mtime.sec, u64::MAX);
    assert_eq!(st.btime, Time { sec: 0, nsec: 0 });
    assert_eq!(st.gen, 0);
}

#[test]
fn error_texts() {
    assert_eq!(ProtoError::InvalidMessage.message(), "invalid 9p message");
    assert_eq!(ProtoError::SizeLimit.message(), "9p remote violated protocol size limit");
    assert!(is_timeout(ErrorKind::WouldBlock));
    assert!(is_timeout(ErrorKind::TimedOut));
    assert!(!is_timeout(ErrorKind::Other));
}
