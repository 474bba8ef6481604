//! Linux error numbers carried in `Rlerror` replies of 9P2000.L.
use vstd::prelude::*;

verus! {

pub const EPERM: u32 = 1;

pub const ENOENT: u32 = 2;

pub const EINTR: u32 = 4;

pub const EIO: u32 = 5;

pub const EBADF: u32 = 9;

pub const EAGAIN: u32 = 11;

pub const EINVAL: u32 = 22;

pub const EPIPE: u32 = 32;

pub const EOPNOTSUPP: u32 = 95;

pub const EADDRINUSE: u32 = 98;

pub const EADDRNOTAVAIL: u32 = 99;

pub const ECONNABORTED: u32 = 103;

pub const ECONNRESET: u32 = 104;

pub const ENOTCONN: u32 = 107;

pub const ETIMEDOUT: u32 = 110;

pub const ECONNREFUSED: u32 = 111;

pub const EALREADY: u32 = 114;

} // verus!
