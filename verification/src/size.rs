//! How much of an environment is in use.
//!
//! The size of an environment is that of its unnamed database and of every database that the
//! unnamed one names. [`Env::non_free_pages_size`] sets out to measure it; the caller makes
//! the LMDB call that it is told to make and hands the reply to [`SizeWalk::reply`], over and
//! over, until it is told the size. The cursor and the transaction that were opened on the way
//! are the caller's, to be closed when the walk is done or needs others.
//!
//! When the environment has no slot left to open a database in, LMDB cannot tell the name of a
//! database from another key. Then the pages are counted instead: those of the data file, but
//! for the meta pages, the pages of the free list and the pages that the free list holds.

use crate::bytes::{c_string, contains_byte};
use crate::database::{raw_open_dbi, raw_opened_dbi, DbiOpen, Handles, OpenedDatabases};
use crate::env::Env;
use crate::error::{
    mdb_result, MdbError, MDB_CORRUPTED, MDB_DBS_FULL, MDB_INCOMPATIBLE, MDB_NOTFOUND, MDB_SUCCESS,
};
use crate::flags::MDB_RDONLY;
use crate::txn::BeginTxn;
use vstd::prelude::*;

verus! {

/// The handle of the free list, which every environment has.
pub const FREE_DBI: u32 = 0;

/// The number of meta pages, which every data file begins with.
pub const META_PAGES: usize = 2;

/// What LMDB tells of a database.
#[derive(Debug, Clone, Copy, PartialEq, Eq, Structural)]
pub struct Stat {
    /// The size of a page.
    pub psize: u32,
    /// The depth of the tree.
    pub depth: u32,
    /// The number of pages that are neither leaves nor overflow pages.
    pub branch_pages: usize,
    /// The number of leaf pages.
    pub leaf_pages: usize,
    /// The number of overflow pages.
    pub overflow_pages: usize,
    /// The number of items.
    pub entries: usize,
}

impl Stat {
    /// The number of pages in use.
    pub open spec fn pages(self) -> int {
        self.leaf_pages + self.branch_pages + self.overflow_pages
    }

    /// The number of bytes in use.
    pub open spec fn size(self) -> int {
        self.pages() * self.psize
    }

    /// Nothing has a negative size.
    pub proof fn lemma_size(self)
        ensures
            self.size() >= 0,
    {
        let pages = self.pages();
        let psize = self.psize;
        assert(pages * psize >= 0) by (nonlinear_arith)
            requires
                pages >= 0,
        ;
    }

    /// The number of bytes in use, if it and the number of pages can be counted.
    pub fn checked_size(&self) -> (size: Option<u64>)
        ensures
            size == if self.pages() <= usize::MAX && self.size() <= u64::MAX {
                Some(self.size() as u64)
            } else {
                None
            },
            size matches Some(bytes) ==> bytes == (self.leaf_pages + self.branch_pages
                + self.overflow_pages) * self.psize,
    {
        let pages: usize = match self.leaf_pages.checked_add(self.branch_pages) {
            Some(pages) => match pages.checked_add(self.overflow_pages) {
                Some(pages) => pages,
                None => return None,
            },
            None => return None,
        };
        (pages as u64).checked_mul(self.psize as u64)
    }

    /// So many pages but for those in use, if there are as many.
    fn pages_out_of(&self, pages: usize) -> (left: Option<usize>)
        ensures
            left == if self.pages() <= pages {
                Some((pages - self.pages()) as usize)
            } else {
                None
            },
    {
        match pages.checked_sub(self.leaf_pages) {
            Some(left) => match left.checked_sub(self.branch_pages) {
                Some(left) => left.checked_sub(self.overflow_pages),
                None => None,
            },
            None => None,
        }
    }

    /// The number of bytes in use.
    fn compute_size(&self) -> (size: u64)
        requires
            self.pages() <= usize::MAX,
            self.size() <= u64::MAX,
        ensures
            size == self.size(),
            size == (self.leaf_pages + self.branch_pages + self.overflow_pages) * self.psize,
    {
        (self.leaf_pages + self.branch_pages + self.overflow_pages) as u64 * self.psize as u64
    }
}

/// What a walk waits for.
#[derive(Debug, Clone, Copy, PartialEq, Eq, Structural)]
pub enum SizePhase {
    /// The reply of `mdb_env_stat`.
    EnvStat,
    /// The reply of `mdb_txn_begin`.
    BeginTxn,
    /// The reply of `mdb_dbi_open`, for the unnamed database.
    OpenMain { txn: usize },
    /// The reply of `mdb_cursor_open`.
    OpenCursor { txn: usize },
    /// The next key of the unnamed database.
    NextKey { txn: usize },
    /// The reply of `mdb_dbi_open`, for a database that the unnamed one names.
    OpenNamed { txn: usize },
    /// The reply of `mdb_stat`, for that database.
    StatNamed { txn: usize, dbi: u32 },
    /// The handle of that database to be closed.
    CloseNamed { txn: usize },
    /// The number of pages of the data file.
    CountPages { txn: usize },
    /// The reply of `mdb_stat`, for the free list. `pages` pages of the file are no meta pages.
    FreeStat { txn: usize, pages: usize },
    /// The reply of `mdb_cursor_open`, for the free list. `pages` of them are not its own.
    FreeCursor { pages: usize, psize: u32 },
    /// The next record of the free list. `pages` of them were not listed in it so far.
    FreePages { pages: usize, psize: u32 },
}

/// An LMDB call that a walk needs.
#[derive(Debug)]
pub enum SizeCall {
    /// `mdb_env_stat`.
    EnvStat { env: usize },
    /// `mdb_txn_begin`. A transaction that was begun for this walk before has to end.
    BeginTxn(BeginTxn),
    /// `mdb_dbi_open`.
    OpenDbi(DbiOpen),
    /// `mdb_cursor_open`. No database may be opened in the environment from here on. A cursor
    /// that was opened for this walk before has to be closed.
    OpenCursor { txn: usize, dbi: u32 },
    /// `mdb_cursor_get`, for the next key.
    NextKey,
    /// `mdb_stat`.
    Stat { txn: usize, dbi: u32 },
    /// `mdb_dbi_close`.
    CloseDbi { env: usize, dbi: u32 },
    /// `mdb_env_info` and `mdb_txn_id`.
    Info { env: usize, txn: usize },
    /// `mdb_cursor_get`, for the next record of the free list.
    NextFree,
}

/// The reply to such a call: the code that it returned with and what it stored.
pub enum SizeReply<'a> {
    EnvStat { code: i32, stat: Stat },
    Txn { code: i32, txn: usize },
    Dbi { code: i32, dbi: u32 },
    Cursor { code: i32 },
    Key { code: i32, key: Vec<u8> },
    /// With the databases that were opened in the environment before.
    Stat { code: i32, stat: Stat, databases: &'a OpenedDatabases },
    Closed,
    /// The last page of the data file and the transaction that it was last written by, and
    /// the transaction that is read from.
    Info { last_pgno: usize, last_txn_id: usize, txn_id: usize },
    FreeStat { code: i32, stat: Stat },
    /// With the number of pages that the record lists, which is the first word of its value.
    FreePages { code: i32, count: usize },
}

/// A walk through the databases of an environment.
#[derive(Debug)]
pub struct SizeWalk {
    env: usize,
    phase: SizePhase,
    size: u64,
}

/// What a walk comes to.
#[derive(Debug)]
pub enum SizeStep {
    /// Another call has to be made.
    Call { walk: SizeWalk, call: SizeCall },
    /// The size of the environment, or the error that kept it from being measured.
    Done(Result<u64, MdbError>),
}

/// A walk, mathematically: the environment, what is waited for, and the size so far.
pub struct WalkState {
    pub env: usize,
    pub phase: SizePhase,
    pub size: int,
}

/// A call that a walk needs, mathematically.
pub enum WalkCall {
    EnvStat { env: usize },
    BeginTxn(BeginTxn),
    OpenDbi { txn: usize, name: Option<Seq<u8>>, flags: u32 },
    OpenCursor { txn: usize, dbi: u32 },
    NextKey,
    Stat { txn: usize, dbi: u32 },
    CloseDbi { env: usize, dbi: u32 },
    Info { env: usize, txn: usize },
    NextFree,
}

/// The reply to a call, mathematically.
pub enum WalkReply {
    EnvStat { code: i32, stat: Stat },
    Txn { code: i32, txn: usize },
    Dbi { code: i32, dbi: u32 },
    Cursor { code: i32 },
    Key { code: i32, key: Seq<u8> },
    Stat { code: i32, stat: Stat, databases: Handles },
    Closed,
    Info { last_pgno: usize, last_txn_id: usize, txn_id: usize },
    FreeStat { code: i32, stat: Stat },
    FreePages { code: i32, count: usize },
}

/// What a walk comes to, mathematically.
pub enum WalkStep {
    Call { walk: WalkState, call: WalkCall },
    Done(Result<int, MdbError>),
}

impl View for SizeCall {
    type V = WalkCall;

    open spec fn view(&self) -> WalkCall {
        match *self {
            SizeCall::EnvStat { env } => WalkCall::EnvStat { env },
            SizeCall::BeginTxn(begin) => WalkCall::BeginTxn(begin),
            SizeCall::OpenDbi(open) => WalkCall::OpenDbi {
                txn: open.txn,
                name: match open.name {
                    Some(name) => Some(name@),
                    None => None,
                },
                flags: open.flags,
            },
            SizeCall::OpenCursor { txn, dbi } => WalkCall::OpenCursor { txn, dbi },
            SizeCall::NextKey => WalkCall::NextKey,
            SizeCall::Stat { txn, dbi } => WalkCall::Stat { txn, dbi },
            SizeCall::CloseDbi { env, dbi } => WalkCall::CloseDbi { env, dbi },
            SizeCall::Info { env, txn } => WalkCall::Info { env, txn },
            SizeCall::NextFree => WalkCall::NextFree,
        }
    }
}

impl<'a> View for SizeReply<'a> {
    type V = WalkReply;

    open spec fn view(&self) -> WalkReply {
        match *self {
            SizeReply::EnvStat { code, stat } => WalkReply::EnvStat { code, stat },
            SizeReply::Txn { code, txn } => WalkReply::Txn { code, txn },
            SizeReply::Dbi { code, dbi } => WalkReply::Dbi { code, dbi },
            SizeReply::Cursor { code } => WalkReply::Cursor { code },
            SizeReply::Key { code, key } => WalkReply::Key { code, key: key@ },
            SizeReply::Stat { code, stat, databases } => WalkReply::Stat {
                code,
                stat,
                databases: databases@,
            },
            SizeReply::Closed => WalkReply::Closed,
            SizeReply::Info { last_pgno, last_txn_id, txn_id } => WalkReply::Info {
                last_pgno,
                last_txn_id,
                txn_id,
            },
            SizeReply::FreeStat { code, stat } => WalkReply::FreeStat { code, stat },
            SizeReply::FreePages { code, count } => WalkReply::FreePages { code, count },
        }
    }
}

impl View for SizeWalk {
    type V = WalkState;

    closed spec fn view(&self) -> WalkState {
        WalkState { env: self.env, phase: self.phase, size: self.size as int }
    }
}

impl View for SizeStep {
    type V = WalkStep;

    open spec fn view(&self) -> WalkStep {
        match *self {
            SizeStep::Call { walk, call } => WalkStep::Call { walk: walk@, call: call@ },
            SizeStep::Done(Ok(size)) => WalkStep::Done(Ok(size as int)),
            SizeStep::Done(Err(error)) => WalkStep::Done(Err(error)),
        }
    }
}

/// The given step, unless the return code is that of a call that failed.
pub open spec fn unless_failed(code: i32, step: WalkStep) -> WalkStep {
    match crate::error::mdb_outcome(code) {
        Ok(()) => step,
        Err(error) => WalkStep::Done(Err(error)),
    }
}

/// The walk cannot go on: the numbers of pages contradict each other.
pub open spec fn contradiction() -> WalkStep {
    WalkStep::Done(Err(MdbError { code: MDB_CORRUPTED }))
}

/// Whether `mdb_dbi_open` tells by the given code that there is no database of the name that
/// it was given.
pub open spec fn is_no_database(code: i32) -> bool {
    code == MDB_NOTFOUND || code == MDB_INCOMPATIBLE
}

impl WalkState {
    /// A call that has to be made next, and what is waited for then.
    pub open spec fn calls(self, phase: SizePhase, call: WalkCall) -> WalkStep {
        WalkStep::Call { walk: WalkState { phase, ..self }, call }
    }

    /// The walk goes on to the next key of the unnamed database.
    pub open spec fn goes_on(self, txn: usize) -> WalkStep {
        self.calls(SizePhase::NextKey { txn }, WalkCall::NextKey)
    }

    /// The walk with the size of another database added.
    pub open spec fn counts(self, stat: Stat) -> WalkState {
        WalkState { size: self.size + stat.size(), ..self }
    }

    /// Where the walk goes from here with the given reply.
    ///
    /// The unnamed database is measured with the environment. Then every key of it that can
    /// be a name is tried as one: what opens is a database, and is measured; what LMDB says is
    /// no database is passed over. A handle that no one had opened before is closed again.
    ///
    /// When there is no slot left to open a database in, what was measured so far is dropped,
    /// and the pages that are in use are counted. They have to be those that the transaction
    /// sees: when the environment was written to since it began, the walk starts over. Any
    /// other error ends the walk.
    pub open spec fn next(self, reply: WalkReply) -> WalkStep {
        match (self.phase, reply) {
            (SizePhase::EnvStat, WalkReply::EnvStat { code, stat }) => unless_failed(
                code,
                self.counts(stat).calls(
                    SizePhase::BeginTxn,
                    WalkCall::BeginTxn(
                        BeginTxn { env: self.env, parent: None, flags: MDB_RDONLY },
                    ),
                ),
            ),
            (SizePhase::BeginTxn, WalkReply::Txn { code, txn }) => unless_failed(
                code,
                self.calls(
                    SizePhase::OpenMain { txn },
                    WalkCall::OpenDbi { txn, name: None, flags: 0 },
                ),
            ),
            (SizePhase::OpenMain { txn }, WalkReply::Dbi { code, dbi }) => unless_failed(
                code,
                self.calls(SizePhase::OpenCursor { txn }, WalkCall::OpenCursor { txn, dbi }),
            ),
            (SizePhase::OpenCursor { txn }, WalkReply::Cursor { code }) => unless_failed(
                code,
                self.goes_on(txn),
            ),
            (SizePhase::NextKey { txn }, WalkReply::Key { code, key }) => if code == MDB_NOTFOUND {
                WalkStep::Done(Ok(self.size))
            } else {
                unless_failed(
                    code,
                    if key.contains(0u8) {
                        self.goes_on(txn)
                    } else {
                        self.calls(
                            SizePhase::OpenNamed { txn },
                            WalkCall::OpenDbi { txn, name: Some(key.push(0u8)), flags: 0 },
                        )
                    },
                )
            },
            (SizePhase::OpenNamed { txn }, WalkReply::Dbi { code, dbi }) => if is_no_database(
                code,
            ) {
                self.goes_on(txn)
            } else if code == MDB_DBS_FULL {
                self.calls(SizePhase::CountPages { txn }, WalkCall::Info { env: self.env, txn })
            } else {
                unless_failed(
                    code,
                    self.calls(SizePhase::StatNamed { txn, dbi }, WalkCall::Stat { txn, dbi }),
                )
            },
            (
                SizePhase::StatNamed { txn, dbi },
                WalkReply::Stat { code, stat, databases },
            ) => unless_failed(
                code,
                if databases.dbis.contains(dbi) {
                    self.counts(stat).goes_on(txn)
                } else {
                    self.counts(stat).calls(
                        SizePhase::CloseNamed { txn },
                        WalkCall::CloseDbi { env: self.env, dbi },
                    )
                },
            ),
            (SizePhase::CloseNamed { txn }, WalkReply::Closed) => self.goes_on(txn),
            (
                SizePhase::CountPages { txn },
                WalkReply::Info { last_pgno, last_txn_id, txn_id },
            ) => if last_txn_id != txn_id {
                walk_start(self.env)
            } else if last_pgno + 1 < META_PAGES {
                contradiction()
            } else {
                self.calls(
                    SizePhase::FreeStat { txn, pages: (last_pgno + 1 - META_PAGES) as usize },
                    WalkCall::Stat { txn, dbi: FREE_DBI },
                )
            },
            (
                SizePhase::FreeStat { txn, pages },
                WalkReply::FreeStat { code, stat },
            ) => unless_failed(
                code,
                if pages < stat.pages() {
                    contradiction()
                } else {
                    self.calls(
                        SizePhase::FreeCursor {
                            pages: (pages - stat.pages()) as usize,
                            psize: stat.psize,
                        },
                        WalkCall::OpenCursor { txn, dbi: FREE_DBI },
                    )
                },
            ),
            (SizePhase::FreeCursor { pages, psize }, WalkReply::Cursor { code }) => unless_failed(
                code,
                self.calls(SizePhase::FreePages { pages, psize }, WalkCall::NextFree),
            ),
            (
                SizePhase::FreePages { pages, psize },
                WalkReply::FreePages { code, count },
            ) => if code == MDB_NOTFOUND {
                WalkStep::Done(Ok(pages * psize))
            } else {
                unless_failed(
                    code,
                    if pages < count {
                        contradiction()
                    } else {
                        self.calls(
                            SizePhase::FreePages { pages: (pages - count) as usize, psize },
                            WalkCall::NextFree,
                        )
                    },
                )
            },
            _ => arbitrary(),
        }
    }

    /// The reply is one to the call that was made, the sizes can be counted, and the databases
    /// are those of the environment.
    pub open spec fn accepts(self, reply: WalkReply) -> bool {
        match (self.phase, reply) {
            (SizePhase::EnvStat, WalkReply::EnvStat { code, stat }) => code == 0
                ==> self.can_count(stat),
            (SizePhase::BeginTxn, WalkReply::Txn { .. }) => true,
            (SizePhase::OpenMain { .. }, WalkReply::Dbi { .. }) => true,
            (SizePhase::OpenCursor { .. }, WalkReply::Cursor { .. }) => true,
            (SizePhase::NextKey { .. }, WalkReply::Key { .. }) => true,
            (SizePhase::OpenNamed { .. }, WalkReply::Dbi { .. }) => true,
            (SizePhase::StatNamed { .. }, WalkReply::Stat { code, stat, databases }) => {
                &&& databases.env == self.env
                &&& code == 0 ==> self.can_count(stat)
            },
            (SizePhase::CloseNamed { .. }, WalkReply::Closed) => true,
            (SizePhase::CountPages { .. }, WalkReply::Info { .. }) => true,
            (SizePhase::FreeStat { .. }, WalkReply::FreeStat { .. }) => true,
            (SizePhase::FreeCursor { .. }, WalkReply::Cursor { .. }) => true,
            (SizePhase::FreePages { pages, psize }, WalkReply::FreePages { code, .. }) => code
                == MDB_NOTFOUND ==> pages * psize <= u64::MAX,
            _ => false,
        }
    }

    /// The size of the database and the size so far fit their integers.
    pub open spec fn can_count(self, stat: Stat) -> bool {
        &&& stat.pages() <= usize::MAX
        &&& self.size + stat.size() <= u64::MAX
    }
}

impl SizeWalk {
    /// The first call of a walk through the given environment.
    fn start(env: usize) -> (step: SizeStep)
        ensures
            step@ == walk_start(env),
    {
        SizeStep::Call {
            walk: SizeWalk { env, phase: SizePhase::EnvStat, size: 0 },
            call: SizeCall::EnvStat { env },
        }
    }

    /// The size so far.
    pub fn size(&self) -> (size: u64)
        ensures
            size == self@.size,
    {
        self.size
    }

    /// Whether the reply is one to the call that was made, the sizes can be counted, and the
    /// databases are those of the environment.
    pub fn can_take(&self, reply: &SizeReply) -> (can_take: bool)
        ensures
            can_take == self@.accepts(reply@),
    {
        match (self.phase, reply) {
            (SizePhase::EnvStat, SizeReply::EnvStat { code, stat }) => *code != 0
                || self.can_count(stat),
            (SizePhase::BeginTxn, SizeReply::Txn { .. }) => true,
            (SizePhase::OpenMain { .. }, SizeReply::Dbi { .. }) => true,
            (SizePhase::OpenCursor { .. }, SizeReply::Cursor { .. }) => true,
            (SizePhase::NextKey { .. }, SizeReply::Key { .. }) => true,
            (SizePhase::OpenNamed { .. }, SizeReply::Dbi { .. }) => true,
            (SizePhase::StatNamed { .. }, SizeReply::Stat { code, stat, databases }) => {
                databases.env() == self.env && (*code != 0 || self.can_count(stat))
            },
            (SizePhase::CloseNamed { .. }, SizeReply::Closed) => true,
            (SizePhase::CountPages { .. }, SizeReply::Info { .. }) => true,
            (SizePhase::FreeStat { .. }, SizeReply::FreeStat { .. }) => true,
            (SizePhase::FreeCursor { .. }, SizeReply::Cursor { .. }) => true,
            (SizePhase::FreePages { pages, psize }, SizeReply::FreePages { code, .. }) => *code
                != MDB_NOTFOUND || (pages as u64).checked_mul(psize as u64).is_some(),
            _ => false,
        }
    }

    /// Whether the size of the database and the size so far fit their integers.
    fn can_count(&self, stat: &Stat) -> (can_count: bool)
        ensures
            can_count == self@.can_count(*stat),
    {
        proof {
            stat.lemma_size();
        }
        match stat.checked_size() {
            Some(size) => self.size.checked_add(size).is_some(),
            None => false,
        }
    }

    /// The walk goes on to the next key of the unnamed database.
    fn go_on(self, txn: usize) -> (step: SizeStep)
        ensures
            step@ == self@.goes_on(txn),
    {
        SizeStep::Call {
            walk: SizeWalk { phase: SizePhase::NextKey { txn }, ..self },
            call: SizeCall::NextKey,
        }
    }

    /// Where the walk goes from here with the given reply.
    pub fn reply(self, reply: SizeReply) -> (step: SizeStep)
        requires
            self@.accepts(reply@),
        ensures
            step@ == self@.next(reply@),
    {
        match (self.phase, reply) {
            (SizePhase::EnvStat, SizeReply::EnvStat { code, stat }) => match mdb_result(code) {
                Ok(()) => {
                    let begin = BeginTxn { env: self.env, parent: None, flags: MDB_RDONLY };
                    SizeStep::Call {
                        walk: SizeWalk {
                            env: self.env,
                            phase: SizePhase::BeginTxn,
                            size: self.size + stat.compute_size(),
                        },
                        call: SizeCall::BeginTxn(begin),
                    }
                },
                Err(error) => SizeStep::Done(Err(error)),
            },
            (SizePhase::BeginTxn, SizeReply::Txn { code, txn }) => match mdb_result(code) {
                Ok(()) => SizeStep::Call {
                    walk: SizeWalk { phase: SizePhase::OpenMain { txn }, ..self },
                    call: SizeCall::OpenDbi(raw_open_dbi(txn, None, 0)),
                },
                Err(error) => SizeStep::Done(Err(error)),
            },
            (SizePhase::OpenMain { txn }, SizeReply::Dbi { code, dbi }) => match raw_opened_dbi(
                code,
                dbi,
            ) {
                Ok(dbi) => SizeStep::Call {
                    walk: SizeWalk { phase: SizePhase::OpenCursor { txn }, ..self },
                    call: SizeCall::OpenCursor { txn, dbi },
                },
                Err(error) => SizeStep::Done(Err(error)),
            },
            (SizePhase::OpenCursor { txn }, SizeReply::Cursor { code }) => match mdb_result(code) {
                Ok(()) => self.go_on(txn),
                Err(error) => SizeStep::Done(Err(error)),
            },
            (SizePhase::NextKey { txn }, SizeReply::Key { code, key }) => match mdb_result(code) {
                Ok(()) => {
                    if contains_byte(key.as_slice(), 0) {
                        return self.go_on(txn);
                    }
                    let name = c_string(key.as_slice());
                    SizeStep::Call {
                        walk: SizeWalk { phase: SizePhase::OpenNamed { txn }, ..self },
                        call: SizeCall::OpenDbi(DbiOpen { txn, name: Some(name), flags: 0 }),
                    }
                },
                Err(error) => if error.not_found() {
                    SizeStep::Done(Ok(self.size))
                } else {
                    SizeStep::Done(Err(error))
                },
            },
            (SizePhase::OpenNamed { txn }, SizeReply::Dbi { code, dbi }) => match raw_opened_dbi(
                code,
                dbi,
            ) {
                Ok(dbi) => SizeStep::Call {
                    walk: SizeWalk { phase: SizePhase::StatNamed { txn, dbi }, ..self },
                    call: SizeCall::Stat { txn, dbi },
                },
                Err(error) => if error.code == MDB_NOTFOUND || error.code == MDB_INCOMPATIBLE {
                    self.go_on(txn)
                } else if error.code == MDB_DBS_FULL {
                    let env: usize = self.env;
                    SizeStep::Call {
                        walk: SizeWalk { phase: SizePhase::CountPages { txn }, ..self },
                        call: SizeCall::Info { env, txn },
                    }
                } else {
                    SizeStep::Done(Err(error))
                },
            },
            (
                SizePhase::StatNamed { txn, dbi },
                SizeReply::Stat { code, stat, databases },
            ) => match mdb_result(code) {
                Ok(()) => {
                    let env = self.env;
                    let walk = SizeWalk { size: self.size + stat.compute_size(), ..self };
                    // if the db wasn't already opened
                    if !databases.contains(dbi) {
                        SizeStep::Call {
                            walk: SizeWalk { phase: SizePhase::CloseNamed { txn }, ..walk },
                            call: SizeCall::CloseDbi { env, dbi },
                        }
                    } else {
                        walk.go_on(txn)
                    }
                },
                Err(error) => SizeStep::Done(Err(error)),
            },
            (SizePhase::CloseNamed { txn }, SizeReply::Closed) => self.go_on(txn),
            (
                SizePhase::CountPages { txn },
                SizeReply::Info { last_pgno, last_txn_id, txn_id },
            ) => {
                if last_txn_id != txn_id {
                    return SizeWalk::start(self.env);
                }
                match last_pgno.checked_sub(META_PAGES - 1) {
                    Some(pages) => SizeStep::Call {
                        walk: SizeWalk { phase: SizePhase::FreeStat { txn, pages }, ..self },
                        call: SizeCall::Stat { txn, dbi: FREE_DBI },
                    },
                    None => SizeStep::Done(Err(MdbError { code: MDB_CORRUPTED })),
                }
            },
            (
                SizePhase::FreeStat { txn, pages },
                SizeReply::FreeStat { code, stat },
            ) => match mdb_result(code) {
                Ok(()) => match stat.pages_out_of(pages) {
                    Some(pages) => SizeStep::Call {
                        walk: SizeWalk {
                            phase: SizePhase::FreeCursor { pages, psize: stat.psize },
                            ..self
                        },
                        call: SizeCall::OpenCursor { txn, dbi: FREE_DBI },
                    },
                    None => SizeStep::Done(Err(MdbError { code: MDB_CORRUPTED })),
                },
                Err(error) => SizeStep::Done(Err(error)),
            },
            (SizePhase::FreeCursor { pages, psize }, SizeReply::Cursor { code }) => match mdb_result(
                code,
            ) {
                Ok(()) => SizeStep::Call {
                    walk: SizeWalk { phase: SizePhase::FreePages { pages, psize }, ..self },
                    call: SizeCall::NextFree,
                },
                Err(error) => SizeStep::Done(Err(error)),
            },
            (
                SizePhase::FreePages { pages, psize },
                SizeReply::FreePages { code, count },
            ) => match mdb_result(code) {
                Ok(()) => match pages.checked_sub(count) {
                    Some(pages) => SizeStep::Call {
                        walk: SizeWalk { phase: SizePhase::FreePages { pages, psize }, ..self },
                        call: SizeCall::NextFree,
                    },
                    None => SizeStep::Done(Err(MdbError { code: MDB_CORRUPTED })),
                },
                Err(error) => if error.not_found() {
                    SizeStep::Done(Ok(pages as u64 * psize as u64))
                } else {
                    SizeStep::Done(Err(error))
                },
            },
            _ => SizeStep::Done(Ok(self.size)),
        }
    }
}

/// The first call of a walk through the given environment.
pub open spec fn walk_start(env: usize) -> WalkStep {
    WalkStep::Call {
        walk: WalkState { env, phase: SizePhase::EnvStat, size: 0 },
        call: WalkCall::EnvStat { env },
    }
}

impl<R> Env<R> {
    /// Returns the size used by all the databases in the environment without the free pages,
    /// once every call that it needs was made.
    pub fn non_free_pages_size(&self) -> (step: SizeStep)
        ensures
            step@ == walk_start(self.address()),
    {
        SizeWalk::start(self.env_mut_ptr())
    }
}

} // verus!
