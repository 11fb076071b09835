//! What can go wrong.

use crate::env::Env;
use crate::options::EnvOpenOptions;
use vstd::prelude::*;

verus! {

/// The return code of an LMDB call that succeeded.
pub const MDB_SUCCESS: i32 = 0;

/// The return code of an LMDB call that found no such key or database.
pub const MDB_NOTFOUND: i32 = -30798;

/// The return code of an LMDB call that met pages which contradict each other.
pub const MDB_CORRUPTED: i32 = -30796;

/// The return code of `mdb_dbi_open` when the environment has no slot left for a database.
pub const MDB_DBS_FULL: i32 = -30791;

/// The return code of `mdb_dbi_open` for the key of a record that is not a database.
pub const MDB_INCOMPATIBLE: i32 = -30784;

/// The return code of an LMDB call that failed.
#[derive(Debug, Clone, Copy, PartialEq, Eq, Structural)]
pub struct MdbError {
    pub code: i32,
}

impl MdbError {
    /// Whether the call failed because there is no such key or database.
    pub fn not_found(&self) -> (not_found: bool)
        ensures
            not_found == (self.code == MDB_NOTFOUND),
            not_found <==> self.code == -30798,
    {
        self.code == MDB_NOTFOUND
    }
}

/// What the return code of an LMDB call says.
pub open spec fn mdb_outcome(code: i32) -> Result<(), MdbError> {
    if code == MDB_SUCCESS {
        Ok(())
    } else {
        Err(MdbError { code })
    }
}

/// Reads the return code of an LMDB call.
pub fn mdb_result(code: i32) -> (outcome: Result<(), MdbError>)
    ensures
        outcome == mdb_outcome(code),
        outcome is Ok <==> code == 0,
        outcome matches Err(error) ==> error.code == code,
{
    if code == MDB_SUCCESS {
        Ok(())
    } else {
        Err(MdbError { code })
    }
}

/// The kinds of I/O errors that are told apart.
#[derive(Debug, Clone, Copy, PartialEq, Eq, Structural)]
pub enum IoErrorKind {
    /// A path leads nowhere.
    NotFound,
    /// An operation is not permitted.
    PermissionDenied,
    /// A file that is to be created exists already.
    AlreadyExists,
    /// An argument is not acceptable.
    InvalidInput,
    /// Any other.
    Other,
}

/// An I/O error.
#[derive(Debug)]
pub struct IoError {
    pub kind: IoErrorKind,
    /// The code that the operating system gave, if the error came from there.
    pub os_code: Option<i32>,
    pub message: String,
}

/// An error of an operation on an environment whose handles carry an `R`.
#[derive(Debug)]
pub enum Error<R> {
    /// An I/O error.
    Io(IoError),
    /// An error of LMDB.
    Mdb(MdbError),
    /// A database was opened again with other types.
    InvalidDatabaseTyping,
    /// The environment is closing.
    DatabaseClosing,
    /// The environment is already open, with other options.
    BadOpenOptions { env: Env<R>, options: EnvOpenOptions },
}

} // verus!
