//! Bit-flag types of the protocol, each a thin wrapper around its integer.
//!
//! The named flags are the integer constants of each type; `all()` is their
//! union and `from_bits_truncate` drops every bit outside it.
use vstd::prelude::*;

verus! {

/// Flags passed to Tlopen.
#[derive(Clone, Copy, Debug, PartialEq, Eq, Structural, Hash)]
pub struct LOpenFlags {
    pub bits: u32,
}

impl LOpenFlags {
    pub const O_RDONLY: u32 = 0x0;

    pub const O_WRONLY: u32 = 0x1;

    pub const O_RDWR: u32 = 0x2;

    pub const O_EXCL: u32 = 0x80;

    pub const O_TRUNC: u32 = 0x200;

    /// The union of all named flags.
    pub open spec fn mask() -> u32 {
        0x283
    }

    /// No bit outside the named flags is set.
    pub open spec fn wf(self) -> bool {
        self.bits & Self::mask() == self.bits
    }

    /// The union of all named flags is the union of the named constants.
    pub proof fn lemma_mask()
        ensures
            Self::mask() == Self::O_RDONLY | Self::O_WRONLY | Self::O_RDWR | Self::O_EXCL | Self::O_TRUNC,
    {
        assert(0x0u32 | 0x1u32 | 0x2u32 | 0x80u32 | 0x200u32 == 0x283u32) by (bit_vector);
    }

    pub fn empty() -> (r: Self)
        ensures
            r.bits == 0,
    {
        LOpenFlags { bits: 0 }
    }

    pub fn all() -> (r: Self)
        ensures
            r.bits == Self::mask(),
    {
        LOpenFlags { bits: 0x283 }
    }

    pub fn bits(&self) -> (r: u32)
        ensures
            r == self.bits,
    {
        self.bits
    }

    pub fn from_bits_truncate(bits: u32) -> (r: Self)
        ensures
            r.bits == bits & Self::mask(),
            r.wf(),
    {
        let r = LOpenFlags { bits: bits & 0x283 };
        assert(bits & 0x283u32 & 0x283u32 == bits & 0x283u32) by (bit_vector);
        r
    }

    pub fn insert(&mut self, other: Self)
        ensures
            final(self).bits == old(self).bits | other.bits,
    {
        self.bits = self.bits | other.bits;
    }
}

/// File lock type, Flock.typ
#[derive(Clone, Copy, Debug, PartialEq, Eq, Structural, Hash)]
pub struct LockType {
    pub bits: u8,
}

impl LockType {
    pub const RDLOCK: u8 = 0x0;

    pub const WRLOCK: u8 = 0x1;

    pub const UNLOCK: u8 = 0x2;

    /// The union of all named flags.
    pub open spec fn mask() -> u8 {
        0x3
    }

    /// No bit outside the named flags is set.
    pub open spec fn wf(self) -> bool {
        self.bits & Self::mask() == self.bits
    }

    /// The union of all named flags is the union of the named constants.
    pub proof fn lemma_mask()
        ensures
            Self::mask() == Self::RDLOCK | Self::WRLOCK | Self::UNLOCK,
    {
        assert(0x0u8 | 0x1u8 | 0x2u8 == 0x3u8) by (bit_vector);
    }

    pub fn empty() -> (r: Self)
        ensures
            r.bits == 0,
    {
        LockType { bits: 0 }
    }

    pub fn all() -> (r: Self)
        ensures
            r.bits == Self::mask(),
    {
        LockType { bits: 0x3 }
    }

    pub fn bits(&self) -> (r: u8)
        ensures
            r == self.bits,
    {
        self.bits
    }

    pub fn from_bits_truncate(bits: u8) -> (r: Self)
        ensures
            r.bits == bits & Self::mask(),
            r.wf(),
    {
        let r = LockType { bits: bits & 0x3 };
        assert(bits & 0x3u8 & 0x3u8 == bits & 0x3u8) by (bit_vector);
        r
    }

    pub fn insert(&mut self, other: Self)
        ensures
            final(self).bits == old(self).bits | other.bits,
    {
        self.bits = self.bits | other.bits;
    }
}

/// File lock flags, Flock.flags
#[derive(Clone, Copy, Debug, PartialEq, Eq, Structural, Hash)]
pub struct LockFlag {
    pub bits: u32,
}

impl LockFlag {
    pub const BLOCK: u32 = 0x1;

    pub const RECLAIM: u32 = 0x2;

    /// The union of all named flags.
    pub open spec fn mask() -> u32 {
        0x3
    }

    /// No bit outside the named flags is set.
    pub open spec fn wf(self) -> bool {
        self.bits & Self::mask() == self.bits
    }

    /// The union of all named flags is the union of the named constants.
    pub proof fn lemma_mask()
        ensures
            Self::mask() == Self::BLOCK | Self::RECLAIM,
    {
        assert(0x1u32 | 0x2u32 == 0x3u32) by (bit_vector);
    }

    pub fn empty() -> (r: Self)
        ensures
            r.bits == 0,
    {
        LockFlag { bits: 0 }
    }

    pub fn all() -> (r: Self)
        ensures
            r.bits == Self::mask(),
    {
        LockFlag { bits: 0x3 }
    }

    pub fn bits(&self) -> (r: u32)
        ensures
            r == self.bits,
    {
        self.bits
    }

    pub fn from_bits_truncate(bits: u32) -> (r: Self)
        ensures
            r.bits == bits & Self::mask(),
            r.wf(),
    {
        let r = LockFlag { bits: bits & 0x3 };
        assert(bits & 0x3u32 & 0x3u32 == bits & 0x3u32) by (bit_vector);
        r
    }

    pub fn insert(&mut self, other: Self)
        ensures
            final(self).bits == old(self).bits | other.bits,
    {
        self.bits = self.bits | other.bits;
    }
}

/// File lock status
#[derive(Clone, Copy, Debug, PartialEq, Eq, Structural, Hash)]
pub struct LockStatus {
    pub bits: u8,
}

impl LockStatus {
    pub const SUCCESS: u8 = 0x0;

    pub const BLOCKED: u8 = 0x1;

    pub const ERROR: u8 = 0x2;

    pub const GRACE: u8 = 0x3;

    /// The union of all named flags.
    pub open spec fn mask() -> u8 {
        0x3
    }

    /// No bit outside the named flags is set.
    pub open spec fn wf(self) -> bool {
        self.bits & Self::mask() == self.bits
    }

    /// The union of all named flags is the union of the named constants.
    pub proof fn lemma_mask()
        ensures
            Self::mask() == Self::SUCCESS | Self::BLOCKED | Self::ERROR | Self::GRACE,
    {
        assert(0x0u8 | 0x1u8 | 0x2u8 | 0x3u8 == 0x3u8) by (bit_vector);
    }

    pub fn empty() -> (r: Self)
        ensures
            r.bits == 0,
    {
        LockStatus { bits: 0 }
    }

    pub fn all() -> (r: Self)
        ensures
            r.bits == Self::mask(),
    {
        LockStatus { bits: 0x3 }
    }

    pub fn bits(&self) -> (r: u8)
        ensures
            r == self.bits,
    {
        self.bits
    }

    pub fn from_bits_truncate(bits: u8) -> (r: Self)
        ensures
            r.bits == bits & Self::mask(),
            r.wf(),
    {
        let r = LockStatus { bits: bits & 0x3 };
        assert(bits & 0x3u8 & 0x3u8 == bits & 0x3u8) by (bit_vector);
        r
    }

    pub fn insert(&mut self, other: Self)
        ensures
            final(self).bits == old(self).bits | other.bits,
    {
        self.bits = self.bits | other.bits;
    }
}

/// Bits in Qid.typ
#[derive(Clone, Copy, Debug, PartialEq, Eq, Structural, Hash, Default)]
pub struct QidType {
    pub bits: u8,
}

impl QidType {
    pub const DIR: u8 = 0x80;

    pub const APPEND: u8 = 0x40;

    pub const EXCL: u8 = 0x20;

    pub const MOUNT: u8 = 0x10;

    pub const AUTH: u8 = 0x8;

    pub const TMP: u8 = 0x4;

    pub const SYMLINK: u8 = 0x2;

    pub const LINK: u8 = 0x1;

    pub const FILE: u8 = 0x0;

    /// The union of all named flags.
    pub open spec fn mask() -> u8 {
        0xff
    }

    /// No bit outside the named flags is set.
    pub open spec fn wf(self) -> bool {
        self.bits & Self::mask() == self.bits
    }

    /// The union of all named flags is the union of the named constants.
    pub proof fn lemma_mask()
        ensures
            Self::mask() == Self::DIR | Self::APPEND | Self::EXCL | Self::MOUNT | Self::AUTH | Self::TMP | Self::SYMLINK | Self::LINK | Self::FILE,
    {
        assert(0x80u8 | 0x40u8 | 0x20u8 | 0x10u8 | 0x8u8 | 0x4u8 | 0x2u8 | 0x1u8 | 0x0u8 == 0xffu8) by (bit_vector);
    }

    pub fn empty() -> (r: Self)
        ensures
            r.bits == 0,
    {
        QidType { bits: 0 }
    }

    pub fn all() -> (r: Self)
        ensures
            r.bits == Self::mask(),
    {
        QidType { bits: 0xff }
    }

    pub fn bits(&self) -> (r: u8)
        ensures
            r == self.bits,
    {
        self.bits
    }

    pub fn from_bits_truncate(bits: u8) -> (r: Self)
        ensures
            r.bits == bits & Self::mask(),
            r.wf(),
    {
        let r = QidType { bits: bits & 0xff };
        assert(bits & 0xffu8 & 0xffu8 == bits & 0xffu8) by (bit_vector);
        r
    }

    pub fn insert(&mut self, other: Self)
        ensures
            final(self).bits == old(self).bits | other.bits,
    {
        self.bits = self.bits | other.bits;
    }
}

/// Bits in `mask` and `valid` of `Tgetattr` and `Rgetattr`.
#[derive(Clone, Copy, Debug, PartialEq, Eq, Structural, Hash)]
pub struct GetattrMask {
    pub bits: u64,
}

impl GetattrMask {
    pub const MODE: u64 = 0x1;

    pub const NLINK: u64 = 0x2;

    pub const UID: u64 = 0x4;

    pub const GID: u64 = 0x8;

    pub const RDEV: u64 = 0x10;

    pub const ATIME: u64 = 0x20;

    pub const MTIME: u64 = 0x40;

    pub const CTIME: u64 = 0x80;

    pub const INO: u64 = 0x100;

    pub const SIZE: u64 = 0x200;

    pub const BLOCKS: u64 = 0x400;

    pub const BTIME: u64 = 0x800;

    pub const GEN: u64 = 0x1000;

    pub const DATA_VERSION: u64 = 0x2000;

    pub const BASIC: u64 = 0x7ff;

    pub const ALL: u64 = 0x3fff;

    /// The union of all named flags.
    pub open spec fn mask() -> u64 {
        0x3fff
    }

    /// No bit outside the named flags is set.
    pub open spec fn wf(self) -> bool {
        self.bits & Self::mask() == self.bits
    }

    /// The union of all named flags is the union of the named constants.
    pub proof fn lemma_mask()
        ensures
            Self::mask() == Self::MODE | Self::NLINK | Self::UID | Self::GID | Self::RDEV | Self::ATIME | Self::MTIME | Self::CTIME | Self::INO | Self::SIZE | Self::BLOCKS | Self::BTIME | Self::GEN | Self::DATA_VERSION | Self::BASIC | Self::ALL,
    {
        assert(0x1u64 | 0x2u64 | 0x4u64 | 0x8u64 | 0x10u64 | 0x20u64 | 0x40u64 | 0x80u64 | 0x100u64 | 0x200u64 | 0x400u64 | 0x800u64 | 0x1000u64 | 0x2000u64 | 0x7ffu64 | 0x3fffu64 == 0x3fffu64) by (bit_vector);
    }

    pub fn empty() -> (r: Self)
        ensures
            r.bits == 0,
    {
        GetattrMask { bits: 0 }
    }

    pub fn all() -> (r: Self)
        ensures
            r.bits == Self::mask(),
    {
        GetattrMask { bits: 0x3fff }
    }

    pub fn bits(&self) -> (r: u64)
        ensures
            r == self.bits,
    {
        self.bits
    }

    pub fn from_bits_truncate(bits: u64) -> (r: Self)
        ensures
            r.bits == bits & Self::mask(),
            r.wf(),
    {
        let r = GetattrMask { bits: bits & 0x3fff };
        assert(bits & 0x3fffu64 & 0x3fffu64 == bits & 0x3fffu64) by (bit_vector);
        r
    }

    pub fn insert(&mut self, other: Self)
        ensures
            final(self).bits == old(self).bits | other.bits,
    {
        self.bits = self.bits | other.bits;
    }
}

/// Bits in `mask` of `Tsetattr`.
#[derive(Clone, Copy, Debug, PartialEq, Eq, Structural, Hash)]
pub struct SetattrMask {
    pub bits: u32,
}

impl SetattrMask {
    pub const MODE: u32 = 0x1;

    pub const UID: u32 = 0x2;

    pub const GID: u32 = 0x4;

    pub const SIZE: u32 = 0x8;

    pub const ATIME: u32 = 0x10;

    pub const MTIME: u32 = 0x20;

    pub const CTIME: u32 = 0x40;

    pub const ATIME_SET: u32 = 0x80;

    pub const MTIME_SET: u32 = 0x100;

    /// The union of all named flags.
    pub open spec fn mask() -> u32 {
        0x1ff
    }

    /// No bit outside the named flags is set.
    pub open spec fn wf(self) -> bool {
        self.bits & Self::mask() == self.bits
    }

    /// The union of all named flags is the union of the named constants.
    pub proof fn lemma_mask()
        ensures
            Self::mask() == Self::MODE | Self::UID | Self::GID | Self::SIZE | Self::ATIME | Self::MTIME | Self::CTIME | Self::ATIME_SET | Self::MTIME_SET,
    {
        assert(0x1u32 | 0x2u32 | 0x4u32 | 0x8u32 | 0x10u32 | 0x20u32 | 0x40u32 | 0x80u32 | 0x100u32 == 0x1ffu32) by (bit_vector);
    }

    pub fn empty() -> (r: Self)
        ensures
            r.bits == 0,
    {
        SetattrMask { bits: 0 }
    }

    pub fn all() -> (r: Self)
        ensures
            r.bits == Self::mask(),
    {
        SetattrMask { bits: 0x1ff }
    }

    pub fn bits(&self) -> (r: u32)
        ensures
            r == self.bits,
    {
        self.bits
    }

    pub fn from_bits_truncate(bits: u32) -> (r: Self)
        ensures
            r.bits == bits & Self::mask(),
            r.wf(),
    {
        let r = SetattrMask { bits: bits & 0x1ff };
        assert(bits & 0x1ffu32 & 0x1ffu32 == bits & 0x1ffu32) by (bit_vector);
        r
    }

    pub fn insert(&mut self, other: Self)
        ensures
            final(self).bits == old(self).bits | other.bits,
    {
        self.bits = self.bits | other.bits;
    }
}

} // verus!
