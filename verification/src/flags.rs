//! The flags with which an environment is opened.

use vstd::prelude::*;

verus! {

/// `mdb_env_open`: map at a fixed address.
pub const MDB_FIXEDMAP: u32 = 0x01;

/// `mdb_env_open`: no environment directory.
pub const MDB_NOSUBDIR: u32 = 0x4000;

/// `mdb_env_open`: do not flush after a commit.
pub const MDB_NOSYNC: u32 = 0x10000;

/// `mdb_env_open` and `mdb_txn_begin`: read only.
pub const MDB_RDONLY: u32 = 0x20000;

/// `mdb_env_open`: do not flush the meta page after a commit.
pub const MDB_NOMETASYNC: u32 = 0x40000;

/// `mdb_env_open`: use a writable memory map.
pub const MDB_WRITEMAP: u32 = 0x80000;

/// `mdb_env_open`: flush asynchronously.
pub const MDB_MAPASYNC: u32 = 0x100000;

/// `mdb_env_open`: tie reader slots to transactions instead of threads.
pub const MDB_NOTLS: u32 = 0x200000;

/// `mdb_env_open`: do no locking.
pub const MDB_NOLOCK: u32 = 0x400000;

/// `mdb_env_open`: do no readahead.
pub const MDB_NORDAHEAD: u32 = 0x800000;

/// `mdb_env_open`: do not clear memory before writing it to the data file.
pub const MDB_NOMEMINIT: u32 = 0x1000000;

/// `mdb_dbi_open`: create the database when it does not exist.
pub const MDB_CREATE: u32 = 0x40000;

/// `mdb_env_copyfd2`: leave out free pages and renumber the others.
pub const MDB_CP_COMPACT: u32 = 0x01;

/// A [flag of LMDB](http://www.lmdb.tech/doc/group__mdb__env.html).
#[derive(Debug, Clone, Copy, PartialEq, Eq, Structural)]
pub enum Flag {
    /// Map at a fixed address (experimental).
    FixedMap,
    /// No environment directory.
    NoSubDir,
    /// Don't fsync after commit.
    NoSync,
    /// Read only.
    ReadOnly,
    /// Don't fsync metapage after commit.
    NoMetaSync,
    /// Use writable mmap.
    WriteMap,
    /// Use asynchronous msync when `WriteMap` is used.
    MapAsync,
    /// Tie reader locktable slots to transactions instead of to threads.
    NoTls,
    /// Don't do any locking, the caller must manage its own locks.
    NoLock,
    /// Don't do readahead.
    NoRdAhead,
    /// Don't initialize memory before writing to the data file.
    NoMemInit,
}

impl Flag {
    /// The bits that LMDB knows this flag by.
    pub open spec fn spec_bits(self) -> u32 {
        match self {
            Flag::FixedMap => MDB_FIXEDMAP,
            Flag::NoSubDir => MDB_NOSUBDIR,
            Flag::NoSync => MDB_NOSYNC,
            Flag::ReadOnly => MDB_RDONLY,
            Flag::NoMetaSync => MDB_NOMETASYNC,
            Flag::WriteMap => MDB_WRITEMAP,
            Flag::MapAsync => MDB_MAPASYNC,
            Flag::NoTls => MDB_NOTLS,
            Flag::NoLock => MDB_NOLOCK,
            Flag::NoRdAhead => MDB_NORDAHEAD,
            Flag::NoMemInit => MDB_NOMEMINIT,
        }
    }

    /// The bits that LMDB knows this flag by.
    #[verifier::when_used_as_spec(spec_bits)]
    pub fn bits(self) -> (bits: u32)
        ensures
            bits == self.spec_bits(),
    {
        match self {
            Flag::FixedMap => MDB_FIXEDMAP,
            Flag::NoSubDir => MDB_NOSUBDIR,
            Flag::NoSync => MDB_NOSYNC,
            Flag::ReadOnly => MDB_RDONLY,
            Flag::NoMetaSync => MDB_NOMETASYNC,
            Flag::WriteMap => MDB_WRITEMAP,
            Flag::MapAsync => MDB_MAPASYNC,
            Flag::NoTls => MDB_NOTLS,
            Flag::NoLock => MDB_NOLOCK,
            Flag::NoRdAhead => MDB_NORDAHEAD,
            Flag::NoMemInit => MDB_NOMEMINIT,
        }
    }

    /// The position of the one bit that this flag sets.
    spec fn position(self) -> u32 {
        match self {
            Flag::FixedMap => 0,
            Flag::NoSubDir => 14,
            Flag::NoSync => 16,
            Flag::ReadOnly => 17,
            Flag::NoMetaSync => 18,
            Flag::WriteMap => 19,
            Flag::MapAsync => 20,
            Flag::NoTls => 21,
            Flag::NoLock => 22,
            Flag::NoRdAhead => 23,
            Flag::NoMemInit => 24,
        }
    }

    /// A flag is the one bit at its position.
    proof fn lemma_one_bit(self)
        ensures
            self.bits() == 1u32 << self.position(),
            self.position() < 32,
    {
        assert({
            &&& 0x01u32 == 1u32 << 0u32
            &&& 0x4000u32 == 1u32 << 14u32
            &&& 0x10000u32 == 1u32 << 16u32
            &&& 0x20000u32 == 1u32 << 17u32
            &&& 0x40000u32 == 1u32 << 18u32
            &&& 0x80000u32 == 1u32 << 19u32
            &&& 0x100000u32 == 1u32 << 20u32
            &&& 0x200000u32 == 1u32 << 21u32
            &&& 0x400000u32 == 1u32 << 22u32
            &&& 0x800000u32 == 1u32 << 23u32
            &&& 0x1000000u32 == 1u32 << 24u32
        }) by (bit_vector);
    }
}

/// Whether `flag` is among `flags`.
pub open spec fn flag_set(flags: u32, flag: Flag) -> bool {
    flags & flag.bits() != 0
}

/// No flag is in an empty set of flags, and a flag that joins a set of flags is then in it
/// while it makes no other flag join.
pub proof fn law_flags_are_a_set(flags: u32, joining: Flag, flag: Flag)
    ensures
        !flag_set(0, flag),
        flag_set(flags | joining.bits(), flag) <==> flag == joining || flag_set(flags, flag),
{
    joining.lemma_one_bit();
    flag.lemma_one_bit();
    let p = joining.position();
    let q = flag.position();
    assert((flags | (1u32 << p)) & (1u32 << q) != 0 <==> p == q || flags & (1u32 << q) != 0)
        by (bit_vector)
        requires
            p < 32,
            q < 32,
    ;
    assert(0u32 & (1u32 << q) == 0) by (bit_vector);
}

/// The order in which flags join, and how often, does not matter.
pub proof fn law_flags_join_in_any_order(flags: u32, a: Flag, b: Flag)
    ensures
        flags | a.bits() | b.bits() == flags | b.bits() | a.bits(),
        flags | a.bits() | a.bits() == flags | a.bits(),
{
    let x = a.bits();
    let y = b.bits();
    assert(flags | x | y == flags | y | x) by (bit_vector);
    assert(flags | x | x == flags | x) by (bit_vector);
}

} // verus!
