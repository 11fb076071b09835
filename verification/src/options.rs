//! The options with which an environment is opened.

use crate::flags::Flag;
use vstd::prelude::*;

verus! {

/// Options and flags which can be used to configure how an environment is opened.
#[derive(Debug, PartialEq, Eq, Structural)]
pub struct EnvOpenOptions {
    /// The size of the memory map.
    pub map_size: Option<usize>,
    /// The number of threads/reader slots.
    pub max_readers: Option<u32>,
    /// The number of named databases.
    pub max_dbs: Option<u32>,
    /// The bits of the flags that were set.
    pub flags: u32,
}

impl Clone for EnvOpenOptions {
    fn clone(&self) -> (options: Self)
        ensures
            options == *self,
    {
        EnvOpenOptions {
            map_size: self.map_size,
            max_readers: self.max_readers,
            max_dbs: self.max_dbs,
            flags: self.flags,
        }
    }
}

impl EnvOpenOptions {
    /// Creates a blank new set of options ready for configuration.
    pub fn new() -> (options: EnvOpenOptions)
        ensures
            options == (EnvOpenOptions {
                map_size: None,
                max_readers: None,
                max_dbs: None,
                flags: 0,
            }),
    {
        EnvOpenOptions { map_size: None, max_readers: None, max_dbs: None, flags: 0 }
    }

    /// Set the size of the memory map to use for this environment.
    pub fn map_size(&mut self, size: usize) -> (options: &mut Self)
        ensures
            *options == (EnvOpenOptions { map_size: Some(size), ..*old(self) }),
            *final(self) == *final(options),
    {
        self.map_size = Some(size);
        self
    }

    /// Set the maximum number of threads/reader slots for the environment.
    pub fn max_readers(&mut self, readers: u32) -> (options: &mut Self)
        ensures
            *options == (EnvOpenOptions { max_readers: Some(readers), ..*old(self) }),
            *final(self) == *final(options),
    {
        self.max_readers = Some(readers);
        self
    }

    /// Set the maximum number of named databases for the environment.
    pub fn max_dbs(&mut self, dbs: u32) -> (options: &mut Self)
        ensures
            *options == (EnvOpenOptions { max_dbs: Some(dbs), ..*old(self) }),
            *final(self) == *final(options),
    {
        self.max_dbs = Some(dbs);
        self
    }

    /// Set one [LMDB flag](http://www.lmdb.tech/doc/group__mdb__env.html), beside those that
    /// are set already.
    ///
    /// Some flags take protections of LMDB away (`NoLock`, `WriteMap`, ...): whoever sets
    /// them answers for what they were protecting from.
    pub fn flag(&mut self, flag: Flag) -> (options: &mut Self)
        ensures
            *options == (EnvOpenOptions { flags: old(self).flags | flag.bits(), ..*old(self) }),
            *final(self) == *final(options),
    {
        self.flags = self.flags | flag.bits();
        self
    }
}

} // verus!
