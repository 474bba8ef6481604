//! The decisions of a 9P2000.L server at the start of a session: how large
//! its buffers are and what it answers to `Tversion`.
use crate::fcall::{P92000L, Rversion, Tversion};
use crate::requests::MIN_MSIZE;
use crate::wire::{cow_str, cow_str_owned, str_eq};
use std::borrow::Cow;
use vstd::prelude::*;
use vstd::string::*;

verus! {

/// The buffer size a server works with: the one asked for, capped at
/// `u32::MAX` and raised to at least `MIN_MSIZE`.
pub fn server_bufsize(bufsize: usize) -> (r: u32)
    ensures
        r == if bufsize > u32::MAX {
            u32::MAX as int
        } else if bufsize < MIN_MSIZE {
            MIN_MSIZE as int
        } else {
            bufsize as int
        },
{
    if bufsize as u64 > u32::MAX as u64 {
        u32::MAX
    } else if bufsize < MIN_MSIZE as usize {
        MIN_MSIZE
    } else {
        bufsize as u32
    }
}

/// The answer to a client's `Tversion`: the smaller of the two message
/// sizes, and the version echoed back if it is 9P2000.L, else "unknown".
pub fn version_reply<'a>(tversion: &Tversion<'a>, bufsize: u32) -> (r: Rversion<'a>)
    ensures
        r.msize == if tversion.msize < bufsize {
            tversion.msize
        } else {
            bufsize
        },
        tversion@.version == P92000L@ ==> r@.version == P92000L@,
        tversion@.version != P92000L@ ==> r@.version == "unknown"@,
{
    let msize: u32 = if tversion.msize < bufsize {
        tversion.msize
    } else {
        bufsize
    };
    if str_eq(cow_str(&tversion.version), P92000L) {
        Rversion { version: cow_str_owned(&tversion.version), msize }
    } else {
        proof {
            reveal_strlit("unknown");
        }
        Rversion { version: Cow::Borrowed("unknown"), msize }
    }
}

} // verus!
