//! What holds of environments and databases over their whole life.

use crate::database::{DatabaseKey, DatabaseType};
use crate::env::Env;
use crate::error::{Error, MdbError};
use crate::flags::Flag;
use crate::opening::{EnvCall, NewEnv, Open, OpenProgress, Opening};
use crate::options::EnvOpenOptions;
use crate::path::PathParts;
use crate::registry::EnvEntry;
use std::any::TypeId;
use vstd::prelude::*;

verus! {

/// An environment that is open is handed out again to whoever opens it with the same options,
/// and refused, with a handle and its options, to whoever opens it with others.
pub proof fn law_open_again<R>(
    before: Map<PathParts, EnvEntry<R>>,
    after: Map<PathParts, EnvEntry<R>>,
    env: Env<R>,
    options: EnvOpenOptions,
    others: EnvOpenOptions,
)
    requires
        crate::opening::is_listed(before, after, env, options),
        others != options,
    ensures
        crate::opening::open_listed(after[env.place()], options) == Open::Ready(env),
        crate::opening::open_listed(after[env.place()], others) == Open::Refused(
            Error::BadOpenOptions { env, options },
        ),
{
}

/// From the moment someone asked to close an environment until it is closed, no one can open
/// it, whatever the options. Every other environment is as it was.
pub proof fn law_closing_is_not_opened<R>(
    opened: Map<PathParts, EnvEntry<R>>,
    path: PathParts,
    options: EnvOpenOptions,
    other: PathParts,
)
    requires
        other != path,
    ensures
        ({
            let closing = crate::registry::prepared(opened, path);
            &&& closing.contains_key(path)
            &&& crate::opening::open_listed(closing[path], options) == Open::<R>::Refused(
                Error::DatabaseClosing,
            )
            &&& closing.contains_key(other) == opened.contains_key(other)
            &&& opened.contains_key(other) ==> closing[other] == opened[other]
        }),
{
}

/// Whoever waits for an environment to close waits for the same event, whether they asked
/// before or after someone asked to close it; and asking to close it twice is asking once,
/// with no handle left to give up.
pub proof fn law_closing_keeps_the_event<R>(opened: Map<PathParts, EnvEntry<R>>, path: PathParts)
    requires
        opened.contains_key(path),
    ensures
        ({
            let closing = crate::registry::prepared(opened, path);
            &&& closing[path].signal_event == opened[path].signal_event
            &&& closing[path].env is None
            &&& crate::registry::prepared(closing, path) == closing
        }),
{
    let closing = crate::registry::prepared(opened, path);
    assert(crate::registry::prepared(closing, path) =~= closing);
}

/// An environment that was opened, prepared for closing and closed has left no trace: the
/// environments listed are those from before it was opened, so that its path can be opened
/// anew.
pub proof fn law_closing_undoes_opening<R>(
    before: Map<PathParts, EnvEntry<R>>,
    after: Map<PathParts, EnvEntry<R>>,
    env: Env<R>,
    options: EnvOpenOptions,
)
    requires
        !before.contains_key(env.place()),
        crate::opening::is_listed(before, after, env, options),
    ensures
        after.remove(env.place()) == before,
        crate::registry::prepared(after, env.place()).remove(env.place()) == before,
{
    assert(after.remove(env.place()) =~= before);
    assert(crate::registry::prepared(after, env.place()).remove(env.place()) =~= before);
}

/// What a program remembers of environments and databases: the environments that are listed,
/// and the types of the databases that were opened.
pub struct Memory<R> {
    pub opened: Map<PathParts, EnvEntry<R>>,
    pub types: Map<DatabaseKey, DatabaseType>,
}

/// Something that happens to environments and databases.
pub enum Happening<R> {
    /// An environment is listed under a path that was not.
    Listed { path: PathParts, entry: EnvEntry<R> },
    /// Someone asks to close the environment at a path.
    Prepared { path: PathParts },
    /// The last handle of the environment at a path is dropped.
    Closed { path: PathParts },
    /// Someone tries to open a database with the given types, and `mdb_dbi_open` returns with
    /// the given code and stores the given handle.
    Tried { key: DatabaseKey, code: i32, dbi: u32, types: Option<(TypeId, TypeId)> },
}

impl<R> Happening<R> {
    /// Whether it can happen.
    pub open spec fn can_happen(self, memory: Memory<R>) -> bool {
        match self {
            Happening::Listed { path, .. } => !memory.opened.contains_key(path),
            Happening::Prepared { path } => memory.opened.contains_key(path),
            Happening::Closed { path } => memory.opened.contains_key(path),
            Happening::Tried { .. } => true,
        }
    }

    /// What is remembered then.
    pub open spec fn happen(self, memory: Memory<R>) -> Memory<R> {
        match self {
            Happening::Listed { path, entry } => Memory {
                opened: memory.opened.insert(path, entry),
                ..memory
            },
            Happening::Prepared { path } => Memory {
                opened: crate::registry::prepared(memory.opened, path),
                ..memory
            },
            Happening::Closed { path } => Memory { opened: memory.opened.remove(path), ..memory },
            Happening::Tried { key, code, dbi, types } => Memory {
                types: crate::database::init_outcome::<R>(
                    memory.types,
                    key,
                    code,
                    dbi,
                    DatabaseType::with(types),
                ).0,
                ..memory
            },
        }
    }
}

/// What was remembered at the start, and after each of the happenings.
pub open spec fn is_history<R>(
    memories: Seq<Memory<R>>,
    happenings: Seq<Happening<R>>,
) -> bool {
    &&& memories.len() == happenings.len() + 1
    &&& forall|i: int|
        #![trigger happenings[i]]
        0 <= i < happenings.len() ==> happenings[i].can_happen(memories[i]) && memories[i + 1]
            == happenings[i].happen(memories[i])
}

/// A history without its last happening is a history.
proof fn lemma_history<R>(memories: Seq<Memory<R>>, happenings: Seq<Happening<R>>)
    requires
        is_history(memories, happenings),
        happenings.len() > 0,
    ensures
        is_history(memories.drop_last(), happenings.drop_last()),
        happenings.last().can_happen(memories.drop_last().last()),
        memories.last() == happenings.last().happen(memories.drop_last().last()),
{
    let before = happenings.drop_last();
    let earlier = memories.drop_last();
    assert forall|i: int| #![trigger before[i]] 0 <= i < before.len() implies {
        &&& before[i].can_happen(earlier[i])
        &&& earlier[i + 1] == before[i].happen(earlier[i])
    } by {
        assert(happenings[i].can_happen(memories[i]));
    }
    assert(happenings[happenings.len() - 1].can_happen(memories[happenings.len() - 1]));
}

/// An environment is listed until it is closed, whatever happens to it or to others: with the
/// same options and the same event, and with the same handle until someone asks to close it.
/// Once someone has asked, no handle is listed again.
pub proof fn law_listed_until_closed<R>(
    memories: Seq<Memory<R>>,
    happenings: Seq<Happening<R>>,
    path: PathParts,
)
    requires
        is_history(memories, happenings),
        memories[0].opened.contains_key(path),
        forall|i: int|
            0 <= i < happenings.len() ==> #[trigger] happenings[i] != (Happening::<R>::Closed {
                path,
            }),
    ensures
        memories.last().opened.contains_key(path),
        memories.last().opened[path].options == memories[0].opened[path].options,
        memories.last().opened[path].signal_event == memories[0].opened[path].signal_event,
        memories.last().opened[path].env == if exists|i: int|
            0 <= i < happenings.len() && #[trigger] happenings[i] == (Happening::<R>::Prepared {
                path,
            }) {
            None
        } else {
            memories[0].opened[path].env
        },
    decreases happenings.len(),
{
    if happenings.len() > 0 {
        let n = happenings.len() - 1;
        let before = happenings.drop_last();
        lemma_history(memories, happenings);
        assert forall|i: int| #![trigger before[i]] 0 <= i < before.len() implies before[i]
            == happenings[i] by {}
        law_listed_until_closed(memories.drop_last(), before, path);
        let prepared = Happening::<R>::Prepared { path };
        if exists|i: int| 0 <= i < before.len() && #[trigger] before[i] == prepared {
            let i = choose|i: int| 0 <= i < before.len() && #[trigger] before[i] == prepared;
            assert(happenings[i] == prepared);
        }
        if exists|i: int| 0 <= i < happenings.len() && #[trigger] happenings[i] == prepared {
            let i = choose|i: int| 0 <= i < happenings.len() && #[trigger] happenings[i] == prepared;
            if i < n {
                assert(before[i] == prepared);
            }
        }
        assert(happenings[n] == happenings.last());
    }
}

/// A database keeps its type for as long as the program runs, whatever happens: although its
/// environment is closed and opened again, and whichever databases are opened with whichever
/// types.
pub proof fn law_types_stay<R>(
    memories: Seq<Memory<R>>,
    happenings: Seq<Happening<R>>,
    key: DatabaseKey,
)
    requires
        is_history(memories, happenings),
        crate::database::type_of(memories[0].types, key) !is UnknownYet,
    ensures
        crate::database::type_of(memories.last().types, key) == crate::database::type_of(
            memories[0].types,
            key,
        ),
    decreases happenings.len(),
{
    if happenings.len() > 0 {
        lemma_history(memories, happenings);
        law_types_stay(memories.drop_last(), happenings.drop_last(), key);
    }
}

/// A database can be opened again with the types that it was first opened with, and with no
/// others, whatever happened in between: a typed one not as an untyped one, nor the other way
/// round, nor with other codecs. That its environment was closed and opened again changes
/// nothing, nor does the handle that it has now.
pub proof fn law_first_types_decide<R>(
    types: Map<DatabaseKey, DatabaseType>,
    key: DatabaseKey,
    dbi: u32,
    first: Option<(TypeId, TypeId)>,
    memories: Seq<Memory<R>>,
    happenings: Seq<Happening<R>>,
    handle: u32,
    again: Option<(TypeId, TypeId)>,
)
    requires
        crate::database::type_of(types, key) is UnknownYet,
        is_history(memories, happenings),
        memories[0].types == crate::database::init_outcome::<R>(
            types,
            key,
            0,
            dbi,
            DatabaseType::with(first),
        ).0,
    ensures
        crate::database::init_outcome::<R>(types, key, 0, dbi, DatabaseType::with(first)).1 == Ok::<
            u32,
            Error<R>,
        >(dbi),
        ({
            let then = memories.last().types;
            let (after, outcome) = crate::database::init_outcome::<R>(
                then,
                key,
                0,
                handle,
                DatabaseType::with(again),
            );
            &&& after == then
            &&& outcome == if again == first {
                Ok::<u32, Error<R>>(handle)
            } else {
                Err(Error::InvalidDatabaseTyping)
            }
        }),
{
    law_types_stay(memories, happenings, key);
}

/// The same codecs have the same types: a database that was opened with two codecs can be
/// opened with the same codecs again.
pub proof fn law_same_codecs_same_types<KC: 'static, DC: 'static>(
    first: (TypeId, TypeId),
    again: (TypeId, TypeId),
)
    requires
        crate::database::is_id_of::<KC>(first.0),
        crate::database::is_id_of::<DC>(first.1),
        crate::database::is_id_of::<KC>(again.0),
        crate::database::is_id_of::<DC>(again.1),
    ensures
        first == again,
        DatabaseType::with(Some(first)) == DatabaseType::with(Some(again)),
{
}

/// A try to open a database that fails leaves every type as it was, and one that succeeds
/// leaves the types of the other databases as they were.
pub proof fn law_opening_touches_one_database<R>(
    types: Map<DatabaseKey, DatabaseType>,
    key: DatabaseKey,
    code: i32,
    dbi: u32,
    wanted: DatabaseType,
    other: DatabaseKey,
)
    requires
        other != key,
    ensures
        ({
            let (after, outcome) = crate::database::init_outcome::<R>(
                types,
                key,
                code,
                dbi,
                wanted,
            );
            &&& outcome is Err ==> after == types
            &&& crate::database::type_of(after, other) == crate::database::type_of(types, other)
            &&& after.contains_key(other) == types.contains_key(other)
        }),
{
}

/// The environment is created before anything else and opened after everything else, once,
/// with the flags of the options; each option that was given is set in between, and none
/// that was not. It is not opened at all if, and only if, its map size is refused.
pub proof fn law_planned_calls(options: EnvOpenOptions, page_size: usize, sync_read_txn: bool)
    ensures
        ({
            let calls = crate::opening::planned_calls(options, page_size, sync_read_txn);
            let refused = crate::opening::map_size_refused(options, page_size);
            &&& calls.len() > 0
            &&& forall|i: int|
                0 <= i < calls.len() ==> (#[trigger] calls[i] is Create <==> i == 0)
            &&& forall|i: int|
                0 <= i < calls.len() ==> (#[trigger] calls[i] is Open <==> !refused && i
                    == calls.len() - 1)
            &&& !refused ==> calls.last() == (EnvCall::Open {
                flags: crate::opening::lmdb_flags(options, sync_read_txn),
                mode: 0o600,
            })
            &&& forall|size: usize|
                calls.contains(EnvCall::SetMapSize(size)) <==> !refused && options.map_size == Some(
                    size,
                )
            &&& forall|readers: u32|
                calls.contains(EnvCall::SetMaxReaders(readers)) <==> !refused
                    && options.max_readers == Some(readers)
            &&& forall|dbs: u32|
                calls.contains(EnvCall::SetMaxDbs(dbs)) <==> !refused && options.max_dbs == Some(
                    dbs,
                )
        }),
{
    let calls = crate::opening::planned_calls(options, page_size, sync_read_txn);
    if !crate::opening::map_size_refused(options, page_size) {
        let n: int = if options.map_size is Some { 1 } else { 0 };
        let m: int = if options.max_readers is Some { 1 } else { 0 };
        if options.map_size is Some {
            assert(calls[1] == EnvCall::SetMapSize(options.map_size->0));
        }
        if options.max_readers is Some {
            assert(calls[1 + n] == EnvCall::SetMaxReaders(options.max_readers->0));
        }
        if options.max_dbs is Some {
            assert(calls[1 + n + m] == EnvCall::SetMaxDbs(options.max_dbs->0));
        }
    }
}

/// The openings of `run` follow one another, each moved on by the code in `codes` that its
/// call returned with; the last of them comes to `end`.
pub open spec fn is_run<R>(run: Seq<Opening>, codes: Seq<i32>, end: OpenProgress<R>) -> bool {
    &&& run.len() == codes.len() > 0
    &&& forall|i: int|
        #![trigger run[i]]
        0 <= i < run.len() - 1 ==> run[i].replied(codes[i], OpenProgress::<R>::Call(run[i + 1]))
    &&& run.last().replied(codes.last(), end)
    &&& end !is Call
}

/// As long as calls succeed, the plan is worked off in order.
proof fn lemma_run<R>(run: Seq<Opening>, codes: Seq<i32>, end: OpenProgress<R>, i: int)
    requires
        is_run(run, codes, end),
        run[0].made() == 0,
        0 <= i < run.len(),
    ensures
        run[i].made() == i,
        run[i].calls() == run[0].calls(),
        run[i].location() == run[0].location(),
        run[i].options() == run[0].options(),
        run[i].refusal() == run[0].refusal(),
        i > 0 ==> run[i].wf(),
        forall|j: int| 0 <= j < i ==> codes[j] == 0,
    decreases i,
{
    if i > 0 {
        lemma_run(run, codes, end, i - 1);
        assert(run[i - 1].replied(codes[i - 1], OpenProgress::<R>::Call(run[i])));
    }
}

/// An environment is opened by the planned calls, made in order up to the first that fails.
/// It is open when all of them succeeded and its map size fits. Otherwise the error is that
/// of the call that failed, or tells of the map size. The environment of LMDB is closed again
/// exactly when the call that failed was the one to open it: after any other failure it stays
/// behind.
pub proof fn law_open_outcome<R>(
    run: Seq<Opening>,
    codes: Seq<i32>,
    end: OpenProgress<R>,
    path: Seq<u8>,
    options: EnvOpenOptions,
    page_size: usize,
    sync_read_txn: bool,
)
    requires
        is_run(run, codes, end),
        run[0].is_planned(path, options, page_size, sync_read_txn),
    ensures
        ({
            let calls = crate::opening::planned_calls(options, page_size, sync_read_txn);
            let refused = crate::opening::map_size_refused(options, page_size);
            let last = codes.len() - 1;
            &&& codes.len() <= calls.len()
            &&& forall|i: int|
                #![trigger run[i]]
                0 <= i < run.len() ==> run[i].made() == i && run[i].calls() == calls
            &&& forall|i: int| 0 <= i < last ==> codes[i] == 0
            &&& match end {
                OpenProgress::Created(created) => {
                    &&& !refused
                    &&& codes[last] == 0
                    &&& codes.len() == calls.len()
                    &&& created.location() == path
                    &&& created.options() == options
                },
                OpenProgress::Failed { error: Error::Io(error), close } => {
                    &&& refused
                    &&& codes[last] == 0
                    &&& !close
                    &&& Some(error) == run[0].refusal()
                },
                OpenProgress::Failed { error, close } => {
                    &&& codes[last] != 0
                    &&& error == Error::<R>::Mdb(MdbError { code: codes[last] })
                    &&& close <==> calls[last] is Open
                },
                OpenProgress::Call(_) => false,
            }
        }),
{
    let calls = crate::opening::planned_calls(options, page_size, sync_read_txn);
    let last = codes.len() - 1;
    assert forall|i: int| #![trigger run[i]] 0 <= i < run.len() implies run[i].made() == i
        && run[i].calls() == calls by {
        lemma_run(run, codes, end, i);
    }
    lemma_run(run, codes, end, last);
    run[last].lemma_unfinished();
}

/// What opening an environment at `path` comes to, by what its steps state: `result` is
/// returned, and `after` are the environments listed. One that was not listed is opened by a
/// run of calls that comes to `end`.
pub open spec fn is_open_call<R>(
    before: Map<PathParts, EnvEntry<R>>,
    after: Map<PathParts, EnvEntry<R>>,
    path: Seq<u8>,
    options: EnvOpenOptions,
    page_size: usize,
    sync_read_txn: bool,
    run: Seq<Opening>,
    codes: Seq<i32>,
    end: OpenProgress<R>,
    ended: Result<NewEnv<R>, Error<R>>,
    result: Result<Env<R>, Error<R>>,
) -> bool {
    let place = crate::path::parts_of(path);
    if before.contains_key(place) {
        &&& after == before
        &&& match crate::opening::open_listed(before[place], options) {
            Open::Ready(env) => result == Ok::<Env<R>, Error<R>>(env),
            Open::Refused(error) => result == Err::<Env<R>, Error<R>>(error),
            Open::Create(_) => false,
        }
    } else {
        &&& is_run(run, codes, end)
        &&& run[0].is_planned(path, options, page_size, sync_read_txn)
        &&& match end {
            OpenProgress::Created(created) => ended matches Ok(new) && new.created == created,
            OpenProgress::Failed { error, .. } => ended == Err::<NewEnv<R>, Error<R>>(error),
            OpenProgress::Call(_) => false,
        }
        &&& crate::opening::open_finished(before, after, ended, result)
    }
}

/// An environment that could not be opened leaves the list as it was: no path is listed or
/// taken off, and nothing that is listed changes. One that was opened is listed under its path
/// with its options, and every other path is as it was.
pub proof fn law_failed_open_changes_nothing<R>(
    before: Map<PathParts, EnvEntry<R>>,
    after: Map<PathParts, EnvEntry<R>>,
    path: Seq<u8>,
    options: EnvOpenOptions,
    page_size: usize,
    sync_read_txn: bool,
    run: Seq<Opening>,
    codes: Seq<i32>,
    end: OpenProgress<R>,
    ended: Result<NewEnv<R>, Error<R>>,
    result: Result<Env<R>, Error<R>>,
)
    requires
        is_open_call(
            before,
            after,
            path,
            options,
            page_size,
            sync_read_txn,
            run,
            codes,
            end,
            ended,
            result,
        ),
    ensures
        result is Err ==> after == before,
        result matches Ok(env) ==> {
            let place = crate::path::parts_of(path);
            &&& after.contains_key(place)
            &&& after[place].env == Some(env)
            &&& after[place].options == options
            &&& after == before.insert(place, after[place])
        },
{
    let place = crate::path::parts_of(path);
    if before.contains_key(place) {
        assert(before.insert(place, before[place]) =~= before);
    } else {
        law_open_outcome(run, codes, end, path, options, page_size, sync_read_txn);
    }
}

/// An environment that LMDB opened with the planned flags has the flags that were specified,
/// and no other; where read transactions may move between threads, it has `NoTls` as well.
pub proof fn law_specified_flags_are_contained(
    options: EnvOpenOptions,
    sync_read_txn: bool,
    flag: Flag,
)
    ensures
        crate::flags::flag_set(crate::opening::lmdb_flags(options, sync_read_txn), flag)
            <==> crate::flags::flag_set(options.flags, flag) || (sync_read_txn && flag
            == Flag::NoTls),
{
    crate::flags::law_flags_are_a_set(options.flags, Flag::NoTls, flag);
}

} // verus!
