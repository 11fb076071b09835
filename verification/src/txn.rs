//! Transactions.

use crate::env::Env;
use crate::error::{mdb_result, Error};
use crate::flags::MDB_RDONLY;
use vstd::prelude::*;

verus! {

/// A call of `mdb_txn_begin`.
#[derive(Debug, Clone, Copy, PartialEq, Eq, Structural)]
pub struct BeginTxn {
    /// The address of the environment.
    pub env: usize,
    /// The address of the transaction that the new one is nested in, if it is.
    pub parent: Option<usize>,
    pub flags: u32,
}

/// A transaction with read-only access.
#[derive(Debug)]
pub struct RoTxn {
    txn: usize,
    env: usize,
}

/// A transaction with read and write access.
#[derive(Debug)]
pub struct RwTxn {
    txn: RoTxn,
}

impl RoTxn {
    /// The address of the transaction.
    pub closed spec fn address(self) -> usize {
        self.txn
    }

    /// The address of the environment that it was begun in.
    pub closed spec fn env(self) -> usize {
        self.env
    }

    /// The address of the transaction.
    pub fn txn_mut_ptr(&self) -> (txn: usize)
        ensures
            txn == self.address(),
    {
        self.txn
    }

    /// The address of the environment that it was begun in.
    pub fn env_mut_ptr(&self) -> (env: usize)
        ensures
            env == self.env(),
    {
        self.env
    }
}

impl RwTxn {
    /// The address of the transaction.
    pub closed spec fn address(self) -> usize {
        self.txn.address()
    }

    /// The address of the environment that it was begun in.
    pub closed spec fn env(self) -> usize {
        self.txn.env()
    }

    /// The address of the transaction.
    pub fn txn_mut_ptr(&self) -> (txn: usize)
        ensures
            txn == self.address(),
    {
        self.txn.txn_mut_ptr()
    }

    /// The address of the environment that it was begun in.
    pub fn env_mut_ptr(&self) -> (env: usize)
        ensures
            env == self.env(),
    {
        self.txn.env_mut_ptr()
    }
}

/// A transaction with read-only access that is to begin.
#[derive(Debug)]
pub struct RoTxnBegin {
    /// The call that begins it.
    pub call: BeginTxn,
}

impl RoTxnBegin {
    /// The transaction, once the call returned with the given code and stored the
    /// transaction's address.
    pub fn begun<R>(self, code: i32, txn: usize) -> (begun: Result<RoTxn, Error<R>>)
        ensures
            match crate::error::mdb_outcome(code) {
                Ok(()) => begun matches Ok(t) && t.address() == txn && t.env() == self.call.env,
                Err(error) => begun == Err::<RoTxn, Error<R>>(Error::Mdb(error)),
            },
    {
        match mdb_result(code) {
            Ok(()) => Ok(RoTxn { txn, env: self.call.env }),
            Err(error) => Err(Error::Mdb(error)),
        }
    }
}

/// A transaction with read and write access that is to begin.
#[derive(Debug)]
pub struct RwTxnBegin {
    /// The call that begins it.
    pub call: BeginTxn,
}

impl RwTxnBegin {
    /// The transaction, once the call returned with the given code and stored the
    /// transaction's address.
    pub fn begun<R>(self, code: i32, txn: usize) -> (begun: Result<RwTxn, Error<R>>)
        ensures
            match crate::error::mdb_outcome(code) {
                Ok(()) => begun matches Ok(t) && t.address() == txn && t.env() == self.call.env,
                Err(error) => begun == Err::<RwTxn, Error<R>>(Error::Mdb(error)),
            },
    {
        match mdb_result(code) {
            Ok(()) => Ok(RwTxn { txn: RoTxn { txn, env: self.call.env } }),
            Err(error) => Err(Error::Mdb(error)),
        }
    }
}

impl<R> Env<R> {
    /// Create a transaction with read and write access for use with the environment.
    pub fn write_txn(&self) -> (begin: RwTxnBegin)
        ensures
            begin.call == (BeginTxn { env: self.address(), parent: None, flags: 0 }),
    {
        RwTxnBegin { call: BeginTxn { env: self.env_mut_ptr(), parent: None, flags: 0 } }
    }

    /// Create a nested transaction with read and write access for use with the environment.
    ///
    /// The new transaction will be a nested transaction, with the transaction indicated by parent
    /// as its parent. Transactions may be nested to any level.
    ///
    /// A parent transaction and its cursors may not issue any other operations than _commit_ and
    /// _abort_ while it has active child transactions.
    pub fn nested_write_txn(&self, parent: &mut RwTxn) -> (begin: RwTxnBegin)
        ensures
            begin.call == (BeginTxn {
                env: self.address(),
                parent: Some(old(parent).address()),
                flags: 0,
            }),
            *final(parent) == *old(parent),
    {
        RwTxnBegin {
            call: BeginTxn {
                env: self.env_mut_ptr(),
                parent: Some(parent.txn_mut_ptr()),
                flags: 0,
            },
        }
    }

    /// Create a transaction with read-only access for use with the environment.
    pub fn read_txn(&self) -> (begin: RoTxnBegin)
        ensures
            begin.call == (BeginTxn { env: self.address(), parent: None, flags: MDB_RDONLY }),
    {
        RoTxnBegin { call: BeginTxn { env: self.env_mut_ptr(), parent: None, flags: MDB_RDONLY } }
    }
}

} // verus!
