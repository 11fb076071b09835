//! Looking after an open environment: its flags, its numbers, its files.
//!
//! Each operation of [`Env`] here says which LMDB call to make, and what it returns says, once
//! the call was made, what came of it.

use crate::env::Env;
use crate::error::{mdb_result, Error, IoError};
use crate::flags::{Flag, MDB_CP_COMPACT};
use vstd::prelude::*;

verus! {

/// What the return code of an LMDB call says, beside the value that the call stored.
pub open spec fn stored<T, R>(code: i32, value: T) -> Result<T, Error<R>> {
    match crate::error::mdb_outcome(code) {
        Ok(()) => Ok(value),
        Err(error) => Err(Error::Mdb(error)),
    }
}

/// Reads the return code of an LMDB call that stored the given value.
fn read_stored<T, R>(code: i32, value: T) -> (outcome: Result<T, Error<R>>)
    ensures
        outcome == stored::<T, R>(code, value),
{
    match mdb_result(code) {
        Ok(()) => Ok(value),
        Err(error) => Err(Error::Mdb(error)),
    }
}

/// A call of `mdb_env_get_flags`.
#[derive(Debug, Clone, Copy)]
pub struct GetFlags {
    /// The address of the environment.
    pub env: usize,
}

impl GetFlags {
    /// The flags, once the call returned with the given code and stored the given flags.
    pub fn got<R>(self, code: i32, flags: u32) -> (got: Result<u32, Error<R>>)
        ensures
            got == stored::<u32, R>(code, flags),
    {
        read_stored(code, flags)
    }
}

/// The question whether an environment has a flag.
#[derive(Debug, Clone, Copy)]
pub struct HasFlag {
    /// The call that gets the flags.
    pub call: GetFlags,
    /// The flag that is asked for.
    pub flag: Flag,
}

impl HasFlag {
    /// Whether the environment has the flag, once the call returned with the given code and
    /// stored the given flags.
    pub fn got<R>(self, code: i32, flags: u32) -> (got: Result<bool, Error<R>>)
        ensures
            got == stored::<bool, R>(code, crate::flags::flag_set(flags, self.flag)),
    {
        match self.call.got(code, flags) {
            Ok(flags) => {
                let set: u32 = flags & self.flag.bits();
                Ok(set != 0)
            },
            Err(error) => Err(error),
        }
    }
}

/// What `mdb_env_info` tells of an environment.
#[derive(Debug, Clone, Copy, PartialEq, Eq, Structural)]
pub struct RawInfo {
    pub me_mapaddr: usize,
    pub me_mapsize: usize,
    pub me_last_pgno: usize,
    pub me_last_txnid: usize,
    pub me_maxreaders: u32,
    pub me_numreaders: u32,
}

/// Contains information about the environment.
#[derive(Debug, Clone, Copy, PartialEq, Eq, Structural)]
pub struct EnvInfo {
    /// Address of map, if fixed.
    pub map_addr: usize,
    /// Size of the data memory map.
    pub map_size: usize,
    /// ID of the last used page.
    pub last_page_number: usize,
    /// ID of the last committed transaction.
    pub last_txn_id: usize,
    /// Maximum number of reader slots in the environment.
    pub maximum_number_of_readers: u32,
    /// Maximum number of reader slots used in the environment.
    pub number_of_readers: u32,
}

/// A call of `mdb_env_info`.
#[derive(Debug, Clone, Copy)]
pub struct GetInfo {
    /// The address of the environment.
    pub env: usize,
}

impl GetInfo {
    /// The information, once the call stored what it tells.
    pub fn got(self, raw_info: RawInfo) -> (info: EnvInfo)
        ensures
            info == (EnvInfo {
                map_addr: raw_info.me_mapaddr,
                map_size: raw_info.me_mapsize,
                last_page_number: raw_info.me_last_pgno,
                last_txn_id: raw_info.me_last_txnid,
                maximum_number_of_readers: raw_info.me_maxreaders,
                number_of_readers: raw_info.me_numreaders,
            }),
    {
        EnvInfo {
            map_addr: raw_info.me_mapaddr,
            map_size: raw_info.me_mapsize,
            last_page_number: raw_info.me_last_pgno,
            last_txn_id: raw_info.me_last_txnid,
            maximum_number_of_readers: raw_info.me_maxreaders,
            number_of_readers: raw_info.me_numreaders,
        }
    }
}

/// A call of `mdb_env_get_fd`.
#[derive(Debug, Clone, Copy)]
pub struct GetFd {
    /// The address of the environment.
    pub env: usize,
}

impl GetFd {
    /// The descriptor of the data file, once the call returned with the given code and stored
    /// the given descriptor.
    pub fn got<F, R>(self, code: i32, fd: F) -> (got: Result<F, Error<R>>)
        ensures
            got == stored::<F, R>(code, fd),
    {
        read_stored(code, fd)
    }

    /// The size of the data file, once the system told the length of the file with that
    /// descriptor.
    pub fn measured<R>(self, len: Result<u64, IoError>) -> (size: Result<u64, Error<R>>)
        ensures
            size == match len {
                Ok(len) => Ok::<u64, Error<R>>(len),
                Err(error) => Err(Error::Io(error)),
            },
    {
        match len {
            Ok(len) => Ok(len),
            Err(error) => Err(Error::Io(error)),
        }
    }
}

/// Whether to perform compaction while copying an environment.
#[derive(Debug, Copy, Clone, PartialEq, Eq, Structural)]
pub enum CompactionOption {
    /// Omit free pages and sequentially renumber all pages in output.
    ///
    /// This option consumes more CPU and runs more slowly than the default.
    /// Currently it fails if the environment has suffered a page leak.
    Enabled,
    /// Copy everything without taking any special action about free pages.
    Disabled,
}

/// A call of `mdb_env_copyfd2`.
#[derive(Debug)]
pub struct CopyToFd<F> {
    /// The address of the environment.
    pub env: usize,
    /// The descriptor of the file that is written.
    pub fd: F,
    pub flags: u32,
}

impl<F> CopyToFd<F> {
    /// What came of it, once the call returned with the given code.
    pub fn copied<R>(self, code: i32) -> (copied: Result<(), Error<R>>)
        ensures
            copied == stored::<(), R>(code, ()),
    {
        read_stored(code, ())
    }
}

/// A call of `mdb_env_sync`.
#[derive(Debug, Clone, Copy)]
pub struct EnvSync {
    /// The address of the environment.
    pub env: usize,
    /// Whether to flush although the flags of the environment say otherwise: not 0 if so.
    pub force: i32,
}

impl EnvSync {
    /// What came of it, once the call returned with the given code.
    pub fn synced<R>(self, code: i32) -> (synced: Result<(), Error<R>>)
        ensures
            synced == stored::<(), R>(code, ()),
    {
        read_stored(code, ())
    }
}

/// A call of `mdb_reader_check`.
#[derive(Debug, Clone, Copy)]
pub struct ReaderCheck {
    /// The address of the environment.
    pub env: usize,
}

impl ReaderCheck {
    /// The number of stale readers cleared, once the call returned with the given code and
    /// stored the given number. It never stores a negative one.
    pub fn checked<R>(self, code: i32, dead: i32) -> (checked: Result<usize, Error<R>>)
        ensures
            checked == stored::<usize, R>(code, dead as usize),
    {
        read_stored(code, dead as usize)
    }
}

impl<R> Env<R> {
    /// Return the raw flags the environment was opened with.
    pub fn raw_flags(&self) -> (call: GetFlags)
        ensures
            call == (GetFlags { env: self.address() }),
    {
        GetFlags { env: self.env_mut_ptr() }
    }

    /// Check if a flag was specified when opening this environment.
    pub fn contains_flag(&self, flag: Flag) -> (question: HasFlag)
        ensures
            question == (HasFlag { call: GetFlags { env: self.address() }, flag }),
    {
        HasFlag { call: self.raw_flags(), flag }
    }

    /// Returns some basic informations about this environment.
    pub fn info(&self) -> (call: GetInfo)
        ensures
            call == (GetInfo { env: self.address() }),
    {
        GetInfo { env: self.env_mut_ptr() }
    }

    /// The size of the data file on disk.
    pub fn real_disk_size(&self) -> (call: GetFd)
        ensures
            call == (GetFd { env: self.address() }),
    {
        GetFd { env: self.env_mut_ptr() }
    }

    /// Copy an LMDB environment to the specified file descriptor, with compaction option.
    ///
    /// This function may be used to make a backup of an existing environment.
    /// No lockfile is created, since it gets recreated at need.
    pub fn copy_to_fd<F>(&self, fd: F, option: CompactionOption) -> (call: CopyToFd<F>)
        ensures
            call == (CopyToFd {
                env: self.address(),
                fd,
                flags: if option is Enabled {
                    MDB_CP_COMPACT
                } else {
                    0
                },
            }),
    {
        let flags: u32 = if let CompactionOption::Enabled = option {
            MDB_CP_COMPACT
        } else {
            0
        };
        CopyToFd { env: self.env_mut_ptr(), fd, flags }
    }

    /// Flush the data buffers to disk.
    pub fn force_sync(&self) -> (call: EnvSync)
        ensures
            call == (EnvSync { env: self.address(), force: 1 }),
    {
        EnvSync { env: self.env_mut_ptr(), force: 1 }
    }

    /// Check for stale entries in the reader lock table and clear them.
    ///
    /// Returns the number of stale readers cleared.
    pub fn clear_stale_readers(&self) -> (call: ReaderCheck)
        ensures
            call == (ReaderCheck { env: self.address() }),
    {
        ReaderCheck { env: self.env_mut_ptr() }
    }
}

} // verus!
