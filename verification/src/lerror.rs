//! How `Rlerror` replies map to I/O errors and back, and how the plain
//! attributes of local files become protocol values.
use crate::errno;
use crate::error::{ErrorKind, IoError};
use crate::fcall::{Rlerror, Stat, Statfs, Time};
use crate::flags::QidType;
use vstd::prelude::*;

verus! {

/// The I/O error kind that an error number stands for; `Other` where none
/// does.
pub open spec fn kind_of_errno(ecode: u32) -> ErrorKind {
    if ecode == errno::ENOENT {
        ErrorKind::NotFound
    } else if ecode == errno::EPERM {
        ErrorKind::PermissionDenied
    } else if ecode == errno::ECONNREFUSED {
        ErrorKind::ConnectionRefused
    } else if ecode == errno::ECONNRESET {
        ErrorKind::ConnectionReset
    } else if ecode == errno::ECONNABORTED {
        ErrorKind::ConnectionAborted
    } else if ecode == errno::ENOTCONN {
        ErrorKind::NotConnected
    } else if ecode == errno::EADDRINUSE {
        ErrorKind::AddrInUse
    } else if ecode == errno::EADDRNOTAVAIL {
        ErrorKind::AddrNotAvailable
    } else if ecode == errno::EPIPE {
        ErrorKind::BrokenPipe
    } else if ecode == errno::EALREADY {
        ErrorKind::AlreadyExists
    } else if ecode == errno::EINVAL {
        ErrorKind::InvalidInput
    } else if ecode == errno::ETIMEDOUT {
        ErrorKind::TimedOut
    } else if ecode == errno::EINTR {
        ErrorKind::Interrupted
    } else {
        ErrorKind::Other
    }
}

/// The I/O error that an error number becomes: its kind, and for `Other`
/// the number itself, which names the error's text.
pub open spec fn io_error_of(ecode: u32) -> IoError {
    let kind = kind_of_errno(ecode);
    IoError { kind, ecode: if kind == ErrorKind::Other { Some(ecode) } else { None } }
}

/// The error number that an I/O error kind is reported with.
pub open spec fn errno_of_kind(kind: ErrorKind) -> u32 {
    match kind {
        ErrorKind::NotFound => errno::ENOENT,
        ErrorKind::PermissionDenied => errno::EPERM,
        ErrorKind::ConnectionRefused => errno::ECONNREFUSED,
        ErrorKind::ConnectionReset => errno::ECONNRESET,
        ErrorKind::ConnectionAborted => errno::ECONNABORTED,
        ErrorKind::NotConnected => errno::ENOTCONN,
        ErrorKind::AddrInUse => errno::EADDRINUSE,
        ErrorKind::AddrNotAvailable => errno::EADDRNOTAVAIL,
        ErrorKind::BrokenPipe => errno::EPIPE,
        ErrorKind::AlreadyExists => errno::EALREADY,
        ErrorKind::WouldBlock => errno::EAGAIN,
        ErrorKind::InvalidInput => errno::EINVAL,
        ErrorKind::InvalidData => errno::EINVAL,
        ErrorKind::TimedOut => errno::ETIMEDOUT,
        ErrorKind::WriteZero => errno::EAGAIN,
        ErrorKind::Interrupted => errno::EINTR,
        _ => errno::EIO,
    }
}

impl Rlerror {
    /// The I/O error that the reply reports.
    pub fn into_io_error(self) -> (r: IoError)
        ensures
            r == io_error_of(self.ecode),
    {
        let kind = match self.ecode {
            errno::ENOENT => ErrorKind::NotFound,
            errno::EPERM => ErrorKind::PermissionDenied,
            errno::ECONNREFUSED => ErrorKind::ConnectionRefused,
            errno::ECONNRESET => ErrorKind::ConnectionReset,
            errno::ECONNABORTED => ErrorKind::ConnectionAborted,
            errno::ENOTCONN => ErrorKind::NotConnected,
            errno::EADDRINUSE => ErrorKind::AddrInUse,
            errno::EADDRNOTAVAIL => ErrorKind::AddrNotAvailable,
            errno::EPIPE => ErrorKind::BrokenPipe,
            errno::EALREADY => ErrorKind::AlreadyExists,
            errno::EINVAL => ErrorKind::InvalidInput,
            errno::ETIMEDOUT => ErrorKind::TimedOut,
            errno::EINTR => ErrorKind::Interrupted,
            _ => ErrorKind::Other,
        };
        match kind {
            ErrorKind::Other => IoError { kind, ecode: Some(self.ecode) },
            _ => IoError { kind, ecode: None },
        }
    }

    /// The reply that reports an I/O error of the given kind.
    pub fn from_error_kind(kind: ErrorKind) -> (r: Rlerror)
        ensures
            r.ecode == errno_of_kind(kind),
    {
        let ecode: u32 = match kind {
            ErrorKind::NotFound => errno::ENOENT,
            ErrorKind::PermissionDenied => errno::EPERM,
            ErrorKind::ConnectionRefused => errno::ECONNREFUSED,
            ErrorKind::ConnectionReset => errno::ECONNRESET,
            ErrorKind::ConnectionAborted => errno::ECONNABORTED,
            ErrorKind::NotConnected => errno::ENOTCONN,
            ErrorKind::AddrInUse => errno::EADDRINUSE,
            ErrorKind::AddrNotAvailable => errno::EADDRNOTAVAIL,
            ErrorKind::BrokenPipe => errno::EPIPE,
            ErrorKind::AlreadyExists => errno::EALREADY,
            ErrorKind::WouldBlock => errno::EAGAIN,
            ErrorKind::InvalidInput => errno::EINVAL,
            ErrorKind::InvalidData => errno::EINVAL,
            ErrorKind::TimedOut => errno::ETIMEDOUT,
            ErrorKind::WriteZero => errno::EAGAIN,
            ErrorKind::Interrupted => errno::EINTR,
            _ => errno::EIO,
        };
        Rlerror { ecode }
    }
}

/// An error number that names a kind of I/O error survives the trip
/// through that error: the reply made from what `into_io_error` gives
/// (`from_error_kind`) carries the same number. These are ENOENT, EPERM,
/// ECONNREFUSED, ECONNRESET, ECONNABORTED, ENOTCONN, EADDRINUSE,
/// EADDRNOTAVAIL, EPIPE, EALREADY, EINVAL, ETIMEDOUT and EINTR.
pub proof fn lemma_errno_kind_roundtrip(ecode: u32)
    requires
        kind_of_errno(ecode) != ErrorKind::Other,
    ensures
        io_error_of(ecode).ecode is None,
        errno_of_kind(io_error_of(ecode).kind) == ecode,
        ecode == errno::ENOENT || ecode == errno::EPERM || ecode == errno::ECONNREFUSED
            || ecode == errno::ECONNRESET || ecode == errno::ECONNABORTED || ecode == errno::ENOTCONN
            || ecode == errno::EADDRINUSE || ecode == errno::EADDRNOTAVAIL || ecode == errno::EPIPE
            || ecode == errno::EALREADY || ecode == errno::EINVAL || ecode == errno::ETIMEDOUT
            || ecode == errno::EINTR,
{
}

/// A kind of I/O error other than the few that share a number comes back
/// as itself from the number it is reported with.
pub proof fn lemma_kind_errno_roundtrip(kind: ErrorKind)
    requires
        kind != ErrorKind::WouldBlock,
        kind != ErrorKind::InvalidData,
        kind != ErrorKind::WriteZero,
        kind != ErrorKind::UnexpectedEof,
        kind != ErrorKind::Other,
    ensures
        kind_of_errno(errno_of_kind(kind)) == kind,
{
}

impl QidType {
    /// The qid type of a local file of the given kind: `DIR` for a
    /// directory, `SYMLINK` for a symbolic link, else `FILE`.
    pub fn from_file_type(is_dir: bool, is_symlink: bool) -> (r: QidType)
        ensures
            r.bits == (if is_dir { QidType::DIR } else { 0u8 }) | (if is_symlink {
                QidType::SYMLINK
            } else {
                0u8
            }),
    {
        let mut qid_type = QidType { bits: QidType::FILE };
        if is_dir {
            qid_type.insert(QidType { bits: QidType::DIR });
        }
        if is_symlink {
            qid_type.insert(QidType { bits: QidType::SYMLINK });
        }
        assert(0u8 | 0x80u8 == 0x80u8 && 0u8 | 0x02u8 == 0x02u8 && 0x80u8 | 0x02u8 == 0x82u8
            && 0u8 | 0u8 == 0u8 && 0x80u8 | 0u8 == 0x80u8) by (bit_vector);
        qid_type
    }
}

/// The file system figures that `statvfs` reports, as plain numbers.
#[derive(Clone, Copy, Debug, PartialEq, Eq, Structural)]
pub struct StatvfsInfo {
    pub block_size: u64,
    pub blocks: u64,
    pub blocks_free: u64,
    pub blocks_available: u64,
    pub files: u64,
    pub files_free: u64,
    pub filesystem_id: u64,
    pub name_max: u64,
}

impl From<StatvfsInfo> for Statfs {
    fn from(buf: StatvfsInfo) -> (r: Statfs) {
        Statfs {
            typ: 0,
            bsize: #[verifier::truncate] (buf.block_size as u32),
            blocks: buf.blocks,
            bfree: buf.blocks_free,
            bavail: buf.blocks_available,
            files: buf.files,
            ffree: buf.files_free,
            fsid: buf.filesystem_id,
            namelen: #[verifier::truncate] (buf.name_max as u32),
        }
    }
}

impl vstd::std_specs::convert::FromSpecImpl<StatvfsInfo> for Statfs {
    open spec fn obeys_from_spec() -> bool {
        true
    }

    open spec fn from_spec(buf: StatvfsInfo) -> Statfs {
        Statfs {
            typ: 0,
            bsize: buf.block_size as u32,
            blocks: buf.blocks,
            bfree: buf.blocks_free,
            bavail: buf.blocks_available,
            files: buf.files,
            ffree: buf.files_free,
            fsid: buf.filesystem_id,
            namelen: buf.name_max as u32,
        }
    }
}

/// The attributes of a local file, as plain numbers: times are seconds and
/// nanoseconds, signed as the platform reports them.
#[derive(Clone, Copy, Debug, PartialEq, Eq, Structural)]
pub struct FileAttr {
    pub mode: u32,
    pub uid: u32,
    pub gid: u32,
    pub nlink: u64,
    pub rdev: u64,
    pub size: u64,
    pub blksize: u64,
    pub blocks: u64,
    pub atime: i64,
    pub atime_nsec: i64,
    pub mtime: i64,
    pub mtime_nsec: i64,
    pub ctime: i64,
    pub ctime_nsec: i64,
}

impl From<FileAttr> for Stat {
    fn from(attr: FileAttr) -> (r: Stat) {
        Stat {
            mode: attr.mode,
            uid: attr.uid,
            gid: attr.gid,
            nlink: attr.nlink,
            rdev: attr.rdev,
            size: attr.size,
            blksize: attr.blksize,
            blocks: attr.blocks,
            atime: Time {
                sec: #[verifier::truncate] (attr.atime as u64),
                nsec: #[verifier::truncate] (attr.atime_nsec as u64),
            },
            mtime: Time {
                sec: #[verifier::truncate] (attr.mtime as u64),
                nsec: #[verifier::truncate] (attr.mtime_nsec as u64),
            },
            ctime: Time {
                sec: #[verifier::truncate] (attr.ctime as u64),
                nsec: #[verifier::truncate] (attr.ctime_nsec as u64),
            },
            btime: Time { sec: 0, nsec: 0 },
            gen: 0,
            data_version: 0,
        }
    }
}

impl vstd::std_specs::convert::FromSpecImpl<FileAttr> for Stat {
    open spec fn obeys_from_spec() -> bool {
        true
    }

    open spec fn from_spec(attr: FileAttr) -> Stat {
        Stat {
            mode: attr.mode,
            uid: attr.uid,
            gid: attr.gid,
            nlink: attr.nlink,
            rdev: attr.rdev,
            size: attr.size,
            blksize: attr.blksize,
            blocks: attr.blocks,
            atime: Time { sec: attr.atime as u64, nsec: attr.atime_nsec as u64 },
            mtime: Time { sec: attr.mtime as u64, nsec: attr.mtime_nsec as u64 },
            ctime: Time { sec: attr.ctime as u64, nsec: attr.ctime_nsec as u64 },
            btime: Time { sec: 0, nsec: 0 },
            gen: 0,
            data_version: 0,
        }
    }
}

/// The Linux error numbers that name an I/O error kind, number by number:
/// ENOENT (2) is `NotFound`, EPERM (1) `PermissionDenied`, ECONNREFUSED
/// (111), ECONNRESET (104), ECONNABORTED (103), ENOTCONN (107), EADDRINUSE
/// (98), EADDRNOTAVAIL (99), EPIPE (32), EALREADY (114), EINVAL (22),
/// ETIMEDOUT (110) and EINTR (4) the kinds of those names; every other
/// number is `Other` and is kept for its text.
pub proof fn lemma_errno_kinds(ecode: u32)
    ensures
        ecode == 2 ==> io_error_of(ecode) == (IoError { kind: ErrorKind::NotFound, ecode: None }),
        ecode == 1 ==> io_error_of(ecode) == (IoError { kind: ErrorKind::PermissionDenied, ecode: None }),
        ecode == 111 ==> io_error_of(ecode) == (IoError { kind: ErrorKind::ConnectionRefused, ecode: None }),
        ecode == 104 ==> io_error_of(ecode) == (IoError { kind: ErrorKind::ConnectionReset, ecode: None }),
        ecode == 103 ==> io_error_of(ecode) == (IoError { kind: ErrorKind::ConnectionAborted, ecode: None }),
        ecode == 107 ==> io_error_of(ecode) == (IoError { kind: ErrorKind::NotConnected, ecode: None }),
        ecode == 98 ==> io_error_of(ecode) == (IoError { kind: ErrorKind::AddrInUse, ecode: None }),
        ecode == 99 ==> io_error_of(ecode) == (IoError { kind: ErrorKind::AddrNotAvailable, ecode: None }),
        ecode == 32 ==> io_error_of(ecode) == (IoError { kind: ErrorKind::BrokenPipe, ecode: None }),
        ecode == 114 ==> io_error_of(ecode) == (IoError { kind: ErrorKind::AlreadyExists, ecode: None }),
        ecode == 22 ==> io_error_of(ecode) == (IoError { kind: ErrorKind::InvalidInput, ecode: None }),
        ecode == 110 ==> io_error_of(ecode) == (IoError { kind: ErrorKind::TimedOut, ecode: None }),
        ecode == 4 ==> io_error_of(ecode) == (IoError { kind: ErrorKind::Interrupted, ecode: None }),
        !(ecode == 2 || ecode == 1 || ecode == 111 || ecode == 104 || ecode == 103 || ecode == 107 || ecode == 98 || ecode == 99 || ecode == 32 || ecode == 114 || ecode == 22 || ecode == 110 || ecode == 4)
            ==> io_error_of(ecode) == (IoError { kind: ErrorKind::Other, ecode: Some(ecode) }),
{
}

/// The error number each I/O error kind is reported with: the number of the
/// same name, EAGAIN (11) for `WouldBlock` and `WriteZero`, EINVAL (22) for
/// `InvalidInput` and `InvalidData`, EIO (5) for the rest.
pub proof fn lemma_kind_errnos(kind: ErrorKind)
    ensures
        kind == ErrorKind::NotFound ==> errno_of_kind(kind) == 2,
        kind == ErrorKind::PermissionDenied ==> errno_of_kind(kind) == 1,
        kind == ErrorKind::ConnectionRefused ==> errno_of_kind(kind) == 111,
        kind == ErrorKind::ConnectionReset ==> errno_of_kind(kind) == 104,
        kind == ErrorKind::ConnectionAborted ==> errno_of_kind(kind) == 103,
        kind == ErrorKind::NotConnected ==> errno_of_kind(kind) == 107,
        kind == ErrorKind::AddrInUse ==> errno_of_kind(kind) == 98,
        kind == ErrorKind::AddrNotAvailable ==> errno_of_kind(kind) == 99,
        kind == ErrorKind::BrokenPipe ==> errno_of_kind(kind) == 32,
        kind == ErrorKind::AlreadyExists ==> errno_of_kind(kind) == 114,
        kind == ErrorKind::WouldBlock ==> errno_of_kind(kind) == 11,
        kind == ErrorKind::InvalidInput ==> errno_of_kind(kind) == 22,
        kind == ErrorKind::InvalidData ==> errno_of_kind(kind) == 22,
        kind == ErrorKind::TimedOut ==> errno_of_kind(kind) == 110,
        kind == ErrorKind::WriteZero ==> errno_of_kind(kind) == 11,
        kind == ErrorKind::Interrupted ==> errno_of_kind(kind) == 4,
        kind == ErrorKind::UnexpectedEof ==> errno_of_kind(kind) == 5,
        kind == ErrorKind::Other ==> errno_of_kind(kind) == 5,
{
}

} // verus!
