//! What the terms of the contracts come to, written out in plain arithmetic, bytes and fields,
//! for every input.

use crate::database::{
    DatabaseCreation, DatabaseKey, DatabaseOpening, DatabaseRequest, DatabaseType, DbiOpen, Handles,
};
use crate::env::Env;
use crate::error::{Error, IoError, IoErrorKind, MdbError};
use crate::flags::Flag;
use crate::opening::{CreatedEnv, EnvCall, NewEnv, Open, OpenProgress, Opening};
use crate::options::EnvOpenOptions;
use crate::path::PathParts;
use crate::registry::EnvEntry;
use crate::size::Stat;
use std::any::TypeId;
use std::path::PathBuf;
use synchronoise::event::SignalEvent;
use url::Url;
use vstd::prelude::*;

verus! {

// Return codes.

/// A call succeeded if, and only if, it returned 0. Any other code is the error, as it is.
pub proof fn law_return_codes(code: i32)
    ensures
        code == 0 ==> crate::error::mdb_outcome(code) == Ok::<(), MdbError>(()),
        code != 0 ==> crate::error::mdb_outcome(code) == Err::<(), MdbError>(MdbError { code }),
{
}

/// What a call stored is returned if, and only if, the call returned 0; otherwise its code is.
pub proof fn law_stored_values<T, R>(code: i32, value: T)
    ensures
        code == 0 ==> crate::upkeep::stored::<T, R>(code, value) == Ok::<T, Error<R>>(value),
        code != 0 ==> crate::upkeep::stored::<T, R>(code, value) == Err::<T, Error<R>>(
            Error::Mdb(MdbError { code }),
        ),
{
}

/// The codes that are told apart, as LMDB numbers them.
pub proof fn law_code_numbers(code: i32)
    ensures
        crate::error::MDB_SUCCESS == 0,
        crate::error::MDB_NOTFOUND == -30798,
        crate::error::MDB_CORRUPTED == -30796,
        crate::error::MDB_DBS_FULL == -30791,
        crate::error::MDB_INCOMPATIBLE == -30784,
        crate::size::is_no_database(code) <==> code == -30798 || code == -30784,
{
}

// Flags.

/// A flag is among some flags if, and only if, its bit is.
pub proof fn law_flag_bits(flags: u32)
    ensures
        crate::flags::flag_set(flags, Flag::FixedMap) <==> flags & 0x01 != 0,
        crate::flags::flag_set(flags, Flag::NoSubDir) <==> flags & 0x4000 != 0,
        crate::flags::flag_set(flags, Flag::NoSync) <==> flags & 0x10000 != 0,
        crate::flags::flag_set(flags, Flag::ReadOnly) <==> flags & 0x20000 != 0,
        crate::flags::flag_set(flags, Flag::NoMetaSync) <==> flags & 0x40000 != 0,
        crate::flags::flag_set(flags, Flag::WriteMap) <==> flags & 0x80000 != 0,
        crate::flags::flag_set(flags, Flag::MapAsync) <==> flags & 0x100000 != 0,
        crate::flags::flag_set(flags, Flag::NoTls) <==> flags & 0x200000 != 0,
        crate::flags::flag_set(flags, Flag::NoLock) <==> flags & 0x400000 != 0,
        crate::flags::flag_set(flags, Flag::NoRdAhead) <==> flags & 0x800000 != 0,
        crate::flags::flag_set(flags, Flag::NoMemInit) <==> flags & 0x1000000 != 0,
{
}

/// LMDB is given the flags of the options, and one more bit where read transactions may move
/// between threads.
pub proof fn law_lmdb_flags(options: EnvOpenOptions)
    ensures
        crate::opening::lmdb_flags(options, false) == options.flags,
        crate::opening::lmdb_flags(options, true) == options.flags | 0x200000,
{
}

// Map sizes.

/// `k` times `unit`.
pub open spec fn times(k: nat, unit: usize) -> int {
    k * unit
}

/// A size is a multiple of a unit if, and only if, it is some number of times the unit.
pub proof fn law_multiples(size: usize, unit: usize)
    ensures
        crate::opening::multiple_of(size, unit) <==> exists|k: nat|
            size == #[trigger] times(k, unit),
{
    if unit == 0 {
        assert forall|k: nat| #[trigger] times(k, unit) == 0 by {
            assert(k * 0 == 0) by (nonlinear_arith);
        }
        if size == 0 {
            assert(size == times(0, unit));
        }
    } else {
        let q = (size / unit) as nat;
        assert(size == q * unit + size % unit) by (nonlinear_arith)
            requires
                unit > 0,
                q == size / unit,
        ;
        if size % unit == 0 {
            assert(size == times(q, unit));
        }
        if exists|k: nat| size == #[trigger] times(k, unit) {
            let k = choose|k: nat| size == #[trigger] times(k, unit);
            assert(size as int % unit as int == 0) by (nonlinear_arith)
                requires
                    unit > 0,
                    size == k * unit,
            ;
        }
    }
}

/// A planned opening refuses the map size if, and only if, one was asked for that is not some
/// number of times the page size. Then the environment is only created. Otherwise it is
/// created, each option that was asked for is set, once and in this order: the map size, the
/// readers, the databases; and it is opened last.
pub proof fn law_plan(
    opening: Opening,
    path: Seq<u8>,
    options: EnvOpenOptions,
    page_size: usize,
    sync_read_txn: bool,
)
    requires
        opening.is_planned(path, options, page_size, sync_read_txn),
    ensures
        opening.location() == path,
        opening.options() == options,
        opening.made() == 0,
        opening.refusal() is Some <==> (options.map_size is Some && forall|k: nat|
            options.map_size->0 != #[trigger] times(k, page_size)),
        opening.refusal() is Some ==> opening.calls() == seq![EnvCall::Create],
        opening.refusal() is None ==> ({
            let calls = opening.calls();
            let n: int = if options.map_size is Some { 1 } else { 0 };
            let m: int = if options.max_readers is Some { 1 } else { 0 };
            let d: int = if options.max_dbs is Some { 1 } else { 0 };
            &&& calls.len() == 2 + n + m + d
            &&& calls[0] == EnvCall::Create
            &&& options.map_size matches Some(size) ==> calls[1] == EnvCall::SetMapSize(size)
            &&& options.max_readers matches Some(readers) ==> calls[1 + n]
                == EnvCall::SetMaxReaders(readers)
            &&& options.max_dbs matches Some(dbs) ==> calls[1 + n + m] == EnvCall::SetMaxDbs(dbs)
            &&& calls.last() == (EnvCall::Open {
                flags: if sync_read_txn {
                    options.flags | 0x200000
                } else {
                    options.flags
                },
                mode: 0o600,
            })
        }),
{
    if options.map_size is Some {
        law_multiples(options.map_size->0, page_size);
    }
}

/// A call that failed ends the opening with its code, and the environment is closed if, and
/// only if, the call was to open it. After one that succeeded the next call follows; after the
/// last, the environment is there, unless its map size is refused.
pub proof fn law_replies<R>(opening: Opening, code: i32, progress: OpenProgress<R>)
    requires
        opening.replied(code, progress),
    ensures
        code != 0 ==> progress == (OpenProgress::<R>::Failed {
            error: Error::Mdb(MdbError { code }),
            close: opening.calls()[opening.made()] is Open,
        }),
        code == 0 && opening.made() + 1 < opening.calls().len() ==> {
            &&& progress matches OpenProgress::Call(next)
            &&& next.wf()
            &&& next.calls() == opening.calls()
            &&& next.made() == opening.made() + 1
            &&& next.location() == opening.location()
            &&& next.options() == opening.options()
            &&& next.refusal() == opening.refusal()
        },
        code == 0 && opening.made() + 1 >= opening.calls().len() ==> match opening.refusal() {
            Some(error) => progress == (OpenProgress::<R>::Failed {
                error: Error::Io(error),
                close: false,
            }),
            None => {
                &&& progress matches OpenProgress::Created(created)
                &&& created.location() == opening.location()
                &&& created.options() == opening.options()
            },
        },
{
}

/// The error that a refused map size ends with is one of invalid input, from no system call,
/// and its message holds both numbers in decimal.
pub proof fn law_refusal(
    opening: Opening,
    path: Seq<u8>,
    options: EnvOpenOptions,
    page_size: usize,
    sync_read_txn: bool,
)
    requires
        opening.is_planned(path, options, page_size, sync_read_txn),
        opening.refusal() is Some,
    ensures
        opening.refusal()->0.kind == IoErrorKind::InvalidInput,
        opening.refusal()->0.os_code is None,
        exists|size: Seq<char>, page: Seq<char>|
            {
                &&& #[trigger] is_decimal(size, options.map_size->0 as nat)
                &&& #[trigger] is_decimal(page, page_size as nat)
                &&& opening.refusal()->0.message@ == "map size ("@ + size
                    + ") must be a multiple of the system page size ("@ + page + ")"@
            },
{
    let size = options.map_size->0 as nat;
    law_decimal(size);
    law_decimal(page_size as nat);
    assert(is_decimal(crate::message::decimal(size), size));
    assert(is_decimal(crate::message::decimal(page_size as nat), page_size as nat));
}

// Messages.

/// The number that some decimal digits stand for.
pub open spec fn value(digits: Seq<char>) -> int
    decreases digits.len(),
{
    if digits.len() == 0 {
        0
    } else {
        value(digits.drop_last()) * 10 + (digits.last() as int - 48)
    }
}

/// The digits stand for the number, and there is no zero before them.
pub open spec fn is_decimal(digits: Seq<char>, n: nat) -> bool {
    &&& digits.len() > 0
    &&& forall|i: int| 0 <= i < digits.len() ==> '0' <= #[trigger] digits[i] <= '9'
    &&& digits.len() > 1 ==> digits[0] != '0'
    &&& value(digits) == n
}

/// A number is written in decimal digits that stand for it, with no zero before them.
pub proof fn law_decimal(n: nat)
    ensures
        is_decimal(crate::message::decimal(n), n),
        n > 0 ==> crate::message::decimal(n)[0] != '0',
    decreases n,
{
    let digits = crate::message::decimal(n);
    if n < 10 {
        assert(digits.drop_last() =~= seq![]);
        reveal_with_fuel(value, 2);
    } else {
        law_decimal(n / 10);
        let front = crate::message::decimal(n / 10);
        assert(digits.drop_last() =~= front);
        assert(digits.last() == crate::message::digit((n % 10) as int));
        assert(digits[0] == front[0]);
        assert forall|i: int| 0 <= i < digits.len() implies '0' <= #[trigger] digits[i] <= '9' by {
            if i < front.len() {
                assert(digits[i] == front[i]);
            }
        }
    }
}

// Paths.

/// Where there is no slash from `at` on, the rest is one name.
proof fn lemma_one_name(path: Seq<u8>, from: int, at: int)
    requires
        0 <= from <= at <= path.len(),
        forall|i: int| at <= i < path.len() ==> path[i] != 0x2f,
    ensures
        crate::path::names_from(path, from, at) == crate::path::named(
            path.subrange(from, path.len() as int),
        ),
    decreases path.len() - at,
{
    if at < path.len() {
        lemma_one_name(path, from, at + 1);
    }
}

/// The names of a path and one more.
proof fn lemma_one_more(path: Seq<u8>, name: Seq<u8>, from: int, at: int)
    requires
        0 <= from <= at <= path.len(),
        !name.contains(0x2f),
    ensures
        crate::path::names_from(path.push(0x2f) + name, from, at) == crate::path::names_from(
            path,
            from,
            at,
        ) + crate::path::named(name),
    decreases path.len() - at,
{
    let longer = path.push(0x2f) + name;
    assert(longer.subrange(from, at) =~= path.subrange(from, at));
    if at == path.len() {
        let next = at + 1;
        assert forall|i: int| next <= i < longer.len() implies longer[i] != 0x2f by {
            assert(longer[i] == name[i - next]);
            assert(name.contains(name[i - next]));
        }
        lemma_one_name(longer, next, next);
        assert(longer.subrange(next, longer.len() as int) =~= name);
        assert(longer[at] == 0x2f);
    } else {
        assert(longer[at] == path[at]);
        if path[at] == 0x2f {
            lemma_one_more(path, name, at + 1, at + 1);
            let first = crate::path::named(path.subrange(from, at));
            let rest = crate::path::names_from(path, at + 1, at + 1);
            assert(first + (rest + crate::path::named(name)) =~= (first + rest)
                + crate::path::named(name));
        } else {
            lemma_one_more(path, name, from, at + 1);
        }
    }
}

/// A path without a slash is made of its one name, all of it; but for an empty path and for
/// `.`, which are made of none.
pub proof fn law_parts_of_a_name(name: Seq<u8>)
    requires
        !name.contains(0x2f),
    ensures
        crate::path::parts_of(name).names == if name.len() == 0 || name == seq![0x2eu8] {
            Seq::<Seq<u8>>::empty()
        } else {
            seq![name]
        },
        !crate::path::parts_of(name).root,
        crate::path::parts_of(name).here <==> name == seq![0x2eu8],
{
    assert forall|i: int| 0 <= i < name.len() implies name[i] != 0x2f by {
        assert(name.contains(name[i]));
    }
    lemma_one_name(name, 0, 0);
    assert(name.subrange(0, name.len() as int) =~= name);
    if name.len() == 1 && name[0] == 0x2e {
        assert(name =~= seq![0x2eu8]);
    }
}

/// A path followed by a slash and a name is made of what the path is made of and of that name,
/// all of it. A slash alone, or one followed by `.`, adds nothing but the root to an empty
/// path.
pub proof fn law_parts_of_a_longer_path(path: Seq<u8>, name: Seq<u8>)
    requires
        !name.contains(0x2f),
    ensures
        ({
            let parts = crate::path::parts_of(path);
            let longer = crate::path::parts_of(path.push(0x2f) + name);
            &&& longer.root == (parts.root || path.len() == 0)
            &&& longer.here == parts.here
            &&& longer.names == if name.len() == 0 || name == seq![0x2eu8] {
                parts.names
            } else {
                parts.names.push(name)
            }
        }),
{
    let longer = path.push(0x2f) + name;
    lemma_one_more(path, name, 0, 0);
    if path.len() > 0 {
        assert(longer[0] == path[0]);
        if path.len() > 1 {
            assert(longer[1] == path[1]);
        } else {
            assert(longer[1] == 0x2f);
        }
    }
    let names = crate::path::parts_of(path).names;
    if name.len() == 0 {
        assert(names + Seq::<Seq<u8>>::empty() =~= names);
    } else if name.len() == 1 && name[0] == 0x2e {
        assert(name =~= seq![0x2eu8]);
        assert(names + Seq::<Seq<u8>>::empty() =~= names);
    } else {
        assert(names + seq![name] =~= names.push(name));
    }
}

/// Two names in one directory are the same path if, and only if, they are the same bytes.
pub proof fn law_names_are_told_apart(path: Seq<u8>, a: Seq<u8>, b: Seq<u8>)
    requires
        a.len() > 0,
        b.len() > 0,
        a != seq![0x2eu8],
        b != seq![0x2eu8],
        !a.contains(0x2f),
        !b.contains(0x2f),
    ensures
        crate::path::parts_of(path.push(0x2f) + a) == crate::path::parts_of(path.push(0x2f) + b)
            <==> a == b,
{
    law_parts_of_a_longer_path(path, a);
    law_parts_of_a_longer_path(path, b);
    let names = crate::path::parts_of(path).names;
    assert(names.push(a).last() == a);
    assert(names.push(b).last() == b);
}

/// The path that leads from the root by the given names, with single slashes between them.
pub open spec fn written(names: Seq<Seq<u8>>) -> Seq<u8>
    decreases names.len(),
{
    if names.len() == 0 {
        seq![]
    } else {
        written(names.drop_last()).push(0x2f) + names.last()
    }
}

/// A canonical path is made of its names, each of them whole and in order: two of them are the
/// same path only if they are the same bytes.
pub proof fn law_canonical_paths(names: Seq<Seq<u8>>)
    requires
        names.len() > 0,
        forall|i: int|
            0 <= i < names.len() ==> (#[trigger] names[i]).len() > 0 && names[i] != seq![0x2eu8]
                && !names[i].contains(0x2f),
    ensures
        crate::path::parts_of(written(names)) == (PathParts { root: true, here: false, names }),
    decreases names.len(),
{
    let front = names.drop_last();
    assert(names.last() == names[names.len() - 1]);
    law_parts_of_a_longer_path(written(front), names.last());
    if front.len() > 0 {
        assert forall|i: int| 0 <= i < front.len() implies (#[trigger] front[i]).len() > 0
            && front[i] != seq![0x2eu8] && !front[i].contains(0x2f) by {
            assert(front[i] == names[i]);
        }
        law_canonical_paths(front);
    } else {
        law_parts_of_a_name(written(front));
        assert(written(front) =~= seq![]);
    }
    assert(crate::path::parts_of(written(names)).names =~= names);
}

/// A path begins at the root if, and only if, its first byte is a slash; and with a `.` if, and
/// only if, it is one or begins with `./`.
pub proof fn law_beginnings(path: Seq<u8>)
    ensures
        crate::path::parts_of(path).root <==> path.len() > 0 && path[0] == 0x2f,
        crate::path::parts_of(path).here <==> path == seq![0x2eu8] || (path.len() > 1 && path[0]
            == 0x2e && path[1] == 0x2f),
{
    if path.len() == 1 && path[0] == 0x2e {
        assert(path =~= seq![0x2eu8]);
    }
}

/// An environment is listed under all of its path, before and after it has a handle.
pub proof fn law_places<R>(env: Env<R>, created: CreatedEnv)
    ensures
        env.place() == crate::path::parts_of(env.location()),
        created.place() == crate::path::parts_of(created.location()),
{
}

// Environments.

/// What is listed decides: a path that is closing is refused, and one that is open is handed
/// out if, and only if, all four options are the same.
pub proof fn law_open_listed<R>(entry: EnvEntry<R>, options: EnvOpenOptions)
    ensures
        entry.env is None ==> crate::opening::open_listed(entry, options) == Open::<R>::Refused(
            Error::DatabaseClosing,
        ),
        entry.env matches Some(env) ==> ({
            let same = entry.options.map_size == options.map_size && entry.options.max_readers
                == options.max_readers && entry.options.max_dbs == options.max_dbs
                && entry.options.flags == options.flags;
            crate::opening::open_listed(entry, options) == if same {
                Open::Ready(env)
            } else {
                Open::Refused(Error::BadOpenOptions { env, options: entry.options })
            }
        }),
{
}

/// Asking to close an environment takes its handle and nothing else.
pub proof fn law_prepared<R>(
    opened: Map<PathParts, EnvEntry<R>>,
    path: PathParts,
    other: PathParts,
)
    requires
        opened.contains_key(path),
    ensures
        ({
            let after = crate::registry::prepared(opened, path);
            &&& after.dom() == opened.dom()
            &&& after[path].env is None
            &&& after[path].options == opened[path].options
            &&& after[path].signal_event == opened[path].signal_event
            &&& other != path ==> after[other] == opened[other]
        }),
{
    assert(crate::registry::prepared(opened, path).dom() =~= opened.dom());
}

/// An environment that is listed has the handle and the options that it was listed with, and
/// an event that was made unset. Every other path is as it was.
pub proof fn law_listed<R>(
    before: Map<PathParts, EnvEntry<R>>,
    after: Map<PathParts, EnvEntry<R>>,
    env: Env<R>,
    options: EnvOpenOptions,
    other: PathParts,
)
    requires
        crate::opening::is_listed(before, after, env, options),
    ensures
        ({
            let path = crate::path::parts_of(env.location());
            &&& after.dom() == before.dom().insert(path)
            &&& after[path].env == Some(env)
            &&& after[path].options == options
            &&& call_ensures(
                SignalEvent::manual,
                (false,),
                after[path].signal_event.event().inner(),
            )
            &&& other != path ==> after[other] == before[other]
        }),
{
    assert(after.dom() =~= before.dom().insert(crate::path::parts_of(env.location())));
}

/// An opening ends with a handle of what LMDB opened, where it lives and with what owns it, or
/// with its error and nothing changed.
pub proof fn law_open_finished<R>(
    before: Map<PathParts, EnvEntry<R>>,
    after: Map<PathParts, EnvEntry<R>>,
    ended: Result<NewEnv<R>, Error<R>>,
    open: Result<Env<R>, Error<R>>,
)
    requires
        crate::opening::open_finished(before, after, ended, open),
    ensures
        open is Ok <==> ended is Ok,
        ended matches Err(error) ==> open == Err::<Env<R>, Error<R>>(error) && after == before,
        ended matches Ok(new) ==> ({
            &&& open matches Ok(env)
            &&& env.address() == new.env
            &&& env.owned() == new.resource
            &&& env.location() == new.created.location()
            &&& after.contains_key(crate::path::parts_of(new.created.location()))
            &&& after[crate::path::parts_of(new.created.location())].env == Some(env)
            &&& after[crate::path::parts_of(new.created.location())].options
                == new.created.options()
        }),
{
}

/// One event goes with an environment, from when it is listed until it is closed: it was made
/// unset, and asking to close the environment neither replaces it nor takes it off the list,
/// where alone a [`ClosedSignal`](crate::closing::ClosedSignal) can be had for it.
pub proof fn law_one_event<R>(
    before: Map<PathParts, EnvEntry<R>>,
    after: Map<PathParts, EnvEntry<R>>,
    env: Env<R>,
    options: EnvOpenOptions,
)
    requires
        crate::opening::is_listed(before, after, env, options),
    ensures
        ({
            let path = crate::path::parts_of(env.location());
            let closing = crate::registry::prepared(after, path);
            &&& closing.contains_key(path)
            &&& closing[path].signal_event == after[path].signal_event
            &&& call_ensures(
                SignalEvent::manual,
                (false,),
                closing[path].signal_event.event().inner(),
            )
        }),
{
}

// Databases.

/// A database that `mdb_dbi_open` could not open is not opened: the code is the error, and no
/// type changes.
pub proof fn law_unopened_database<R>(
    types: Map<DatabaseKey, DatabaseType>,
    key: DatabaseKey,
    code: i32,
    dbi: u32,
    wanted: DatabaseType,
)
    requires
        code != 0,
    ensures
        crate::database::init_outcome::<R>(types, key, code, dbi, wanted) == (
            types,
            Err::<u32, Error<R>>(Error::Mdb(MdbError { code })),
        ),
{
}

/// A database that `mdb_dbi_open` opened has the handle that was stored. When it has no type
/// yet it takes the one that is wanted; when it has one, that has to be the one.
pub proof fn law_opened_database<R>(
    types: Map<DatabaseKey, DatabaseType>,
    key: DatabaseKey,
    dbi: u32,
    wanted: DatabaseType,
)
    ensures
        ({
            let (after, opened) = crate::database::init_outcome::<R>(types, key, 0, dbi, wanted);
            &&& !types.contains_key(key) ==> after == types.insert(key, wanted) && opened == Ok::<
                u32,
                Error<R>,
            >(dbi)
            &&& types.contains_key(key) && types[key] !is UnknownYet ==> after == types && opened
                == if types[key] == wanted {
                Ok::<u32, Error<R>>(dbi)
            } else {
                Err(Error::InvalidDatabaseTyping)
            }
        }),
{
}

/// The type of a database is that of both its codecs, in their order, or that of none.
pub proof fn law_types_of_codecs(key_type: TypeId, data_type: TypeId)
    ensures
        DatabaseType::with(Some((key_type, data_type))) == (DatabaseType::Typed {
            key_type,
            data_type,
        }),
        DatabaseType::with(None) == DatabaseType::Untyped,
{
}

/// A typed database is opened or created with the identities of its two codecs, the key's
/// first: what `TypeId::of` returns for each, and nothing else.
pub proof fn law_codecs_of_a_database<KC: 'static, DC: 'static>(
    opening: DatabaseOpening<KC, DC>,
    creation: DatabaseCreation<KC, DC>,
    id: TypeId,
)
    requires
        opening.is_of_its_types(),
        creation.is_of_its_types(),
    ensures
        call_ensures(TypeId::of::<KC>, (), id) <==> id == opening.types().0,
        call_ensures(TypeId::of::<DC>, (), id) <==> id == opening.types().1,
        call_ensures(TypeId::of::<KC>, (), id) <==> id == creation.types().0,
        call_ensures(TypeId::of::<DC>, (), id) <==> id == creation.types().1,
{
}

/// A handle is open if, and only if, it was open before or was stored by a call that returned
/// 0; and the handles stay those of one environment.
pub proof fn law_handles(handles: Handles, code: i32, dbi: u32, other: u32)
    ensures
        handles.after(code, dbi).env == handles.env,
        handles.after(code, dbi).dbis.contains(other) <==> handles.dbis.contains(other) || (code
            == 0 && other == dbi),
{
}

/// LMDB is asked for a database by all the bytes of its name in UTF-8 with a NUL behind them,
/// or by no name; in the given transaction and with the given flags. The types are kept under
/// the path of the environment and the same bytes.
pub proof fn law_requests<R>(
    request: DatabaseRequest,
    env: Env<R>,
    txn: usize,
    name: Option<&str>,
    flags: u32,
)
    requires
        request.asks(env, txn, name, flags),
    ensures
        request.env == env.address(),
        request.path@ == env.location(),
        request.call.txn == txn,
        request.call.flags == flags,
        name is None <==> request.call.name is None,
        name matches Some(name) ==> {
            let bytes = vstd::utf8::encode_utf8(name@);
            &&& request.call.name->0@ == bytes.push(0u8)
            &&& request.key().name == Some(bytes)
        },
        name is None ==> request.key().name is None,
        request.key().place == crate::path::parts_of(env.location()),
{
}

/// The same of a call of `mdb_dbi_open` by itself, and of which names C can take.
pub proof fn law_calls_by_name(call: DbiOpen, txn: usize, name: Option<&str>, flags: u32)
    ensures
        call.asks(txn, crate::database::name_bytes(name), flags) <==> call.txn == txn && call.flags
            == flags && match name {
            Some(name) => call.name is Some && call.name->0@ == vstd::utf8::encode_utf8(
                name@,
            ).push(0u8),
            None => call.name is None,
        },
        crate::database::is_c_name(name) <==> (name matches Some(name)
            ==> !vstd::utf8::encode_utf8(name@).contains(0u8)),
{
}

/// A name is its bytes, whether it is held or borrowed.
pub proof fn law_names(held: Option<Vec<u8>>, borrowed: Option<&[u8]>)
    ensures
        held is Some <==> crate::database::bytes_of(held) is Some,
        held matches Some(name) ==> crate::database::bytes_of(held) == Some(name@),
        borrowed is Some <==> crate::database::slice_of(borrowed) is Some,
        borrowed matches Some(name) ==> crate::database::slice_of(borrowed) == Some(name@),
{
}

// Sizes.

/// A database uses its leaf, branch and overflow pages, all of them, whatever its depth and
/// its entries.
pub proof fn law_stat(stat: Stat)
    ensures
        stat.pages() == stat.leaf_pages + stat.branch_pages + stat.overflow_pages,
        stat.size() == (stat.leaf_pages + stat.branch_pages + stat.overflow_pages) * stat.psize,
{
}

// Canonical paths.

/// The first slash is where there is one and none before.
proof fn lemma_slash(text: Seq<u8>, at: int, slash: int)
    requires
        0 <= at <= slash <= text.len(),
        forall|i: int| at <= i < slash ==> text[i] != 0x2f,
        slash < text.len() ==> text[slash] == 0x2f,
    ensures
        crate::path::slash_from(text, at) == slash,
    decreases slash - at,
{
    if at < slash {
        lemma_slash(text, at + 1, slash);
    }
}

/// What ends before a host could begin names no host.
pub proof fn law_url_that_ends_early(text: Seq<u8>)
    requires
        text.len() <= 7,
    ensures
        crate::canonical::is_rooted(text),
{
}

/// A URL in the `file` scheme without a host is read.
pub proof fn law_url_without_host(scheme: Seq<u8>, path: Seq<u8>)
    requires
        scheme.len() == 7,
    ensures
        crate::canonical::is_rooted(scheme.push(0x2f) + path),
{
    let text = scheme.push(0x2f) + path;
    assert(text[7] == 0x2f);
    lemma_slash(text, 7, 7);
}

/// A URL with a host is read if, and only if, a share follows the host: not nothing, nor a
/// slash, be it written as one or as `%2F`. On `localhost` something has to follow the share.
pub proof fn law_url_with_host(scheme: Seq<u8>, host: Seq<u8>, share: Seq<u8>)
    requires
        scheme.len() == 7,
        host.len() > 0,
        !host.contains(0x2f),
    ensures
        !crate::canonical::is_rooted(scheme + host),
        crate::canonical::is_rooted((scheme + host).push(0x2f) + share) <==> {
            &&& share.len() > 0
            &&& share[0] != 0x2f
            &&& !(share.len() >= 3 && share[0] == 0x25 && share[1] == 0x32 && share[2] == 0x46)
            &&& host == vstd::utf8::encode_utf8("localhost"@) ==> share.contains(0x2f)
        },
{
    let short = scheme + host;
    let text = short.push(0x2f) + share;
    let slash = short.len() as int;
    assert forall|i: int| 7 <= i < slash implies short[i] != 0x2f && text[i] != 0x2f by {
        assert(short[i] == host[i - 7]);
        assert(text[i] == short[i]);
        assert(host.contains(host[i - 7]));
    }
    lemma_slash(short, 7, slash);
    assert(text[slash] == 0x2f);
    lemma_slash(text, 7, slash);
    assert(text.skip(slash + 1) =~= share);
    assert(text.subrange(7, slash) =~= host);
}

/// What is not written as a URL, and what is not read back of one, is told by an error of no
/// particular kind and from no system call, each with its own message. What is read back is
/// returned as it is.
pub proof fn law_read_back(url: Url, read: PathBuf, path: Result<PathBuf, IoError>)
    ensures
        crate::canonical::is_read(Ok(read), path) <==> path == Ok::<PathBuf, IoError>(read),
        crate::canonical::is_read(Err(()), path) <==> (path matches Err(error) && error.kind
            == IoErrorKind::Other && error.os_code is None && error.message@
            == "path canonicalization error"@),
        crate::canonical::is_read_back(Err(()), path) <==> (path matches Err(error) && error.kind
            == IoErrorKind::Other && error.os_code is None && error.message@
            == "URL passing error"@),
        crate::canonical::is_read_back(Ok(url), path) ==> exists|text: &str|
            #[trigger] call_ensures(Url::as_str, (&url,), text) && if crate::canonical::is_rooted(
                vstd::utf8::encode_utf8(text@),
            ) {
                exists|read: Result<PathBuf, ()>|
                    #[trigger] call_ensures(Url::to_file_path, (&url,), read) && match read {
                        Ok(read) => path == Ok::<PathBuf, IoError>(read),
                        Err(_) => path matches Err(error) && error.kind == IoErrorKind::Other
                            && error.os_code is None && error.message@
                            == "path canonicalization error"@,
                    }
            } else {
                path matches Err(error) && error.kind == IoErrorKind::Other && error.os_code is None
                    && error.message@ == "path canonicalization error"@
            },
{
}

} // verus!
