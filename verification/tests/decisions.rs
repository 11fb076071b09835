//! The decisions one by one, on chosen values.

use heed::canonical::{can_read, canonicalize_path, read_back};
use heed::database::{
    Database, DatabaseCreation, DatabaseOpening, DatabaseTypes, DbiOpen, OpenedDatabases,
    PolyDatabase, PolyDatabaseCreation, PolyDatabaseOpening,
};
use heed::env::Env;
use heed::error::{mdb_result, Error, IoError, IoErrorKind, MdbError, MDB_NOTFOUND};
use heed::flags::Flag;
use heed::opening::{EnvCall, Open, OpenProgress, Opening, ResolvedPath};
use heed::options::EnvOpenOptions;
use heed::path::same_path;
use heed::registry::OpenedEnvs;
use heed::size::{SizeCall, SizeReply, SizeStep, SizeWalk, Stat};
use heed::txn::{BeginTxn, RoTxn, RwTxn};
use heed::upkeep::{CompactionOption, EnvInfo, RawInfo};
use std::any::TypeId;
use std::path::PathBuf;

const FLAGS: [(Flag, u32); 11] = [
    (Flag::FixedMap, 0x01),
    (Flag::NoSubDir, 0x4000),
    (Flag::NoSync, 0x10000),
    (Flag::ReadOnly, 0x20000),
    (Flag::NoMetaSync, 0x40000),
    (Flag::WriteMap, 0x80000),
    (Flag::MapAsync, 0x100000),
    (Flag::NoTls, 0x200000),
    (Flag::NoLock, 0x400000),
    (Flag::NoRdAhead, 0x800000),
    (Flag::NoMemInit, 0x1000000),
];

/// An environment at address 0xe0 that is listed under `/env`.
fn env_at_e0() -> Env<&'static str> {
    let mut opened = OpenedEnvs::new();
    let mut opening = match EnvOpenOptions::new().open(&opened, b"/env".to_vec(), false) {
        Open::Create(opening) => opening,
        _ => panic!("an empty list lists something"),
    };
    loop {
        match opening.reply::<()>(0) {
            OpenProgress::Call(next) => opening = next,
            OpenProgress::Created(created) => return opened.created(created, 0xe0, "owned"),
            OpenProgress::Failed { .. } => panic!("nothing failed"),
        }
    }
}

fn read_txn(env: &Env<&'static str>) -> RoTxn {
    env.read_txn().begun::<()>(0, 0x66).unwrap()
}

fn write_txn(env: &Env<&'static str>) -> RwTxn {
    env.write_txn().begun::<()>(0, 0x77).unwrap()
}

#[test]
fn options_hold_what_was_set() {
    let mut options = EnvOpenOptions::new();
    assert_eq!(
        options,
        EnvOpenOptions { map_size: None, max_readers: None, max_dbs: None, flags: 0 }
    );
    options.map_size(4096).max_readers(7).max_dbs(3).map_size(8192);
    options.flag(Flag::NoTls).flag(Flag::NoMetaSync);
    assert_eq!(
        options,
        EnvOpenOptions {
            map_size: Some(8192),
            max_readers: Some(7),
            max_dbs: Some(3),
            flags: 0x240000,
        }
    );
    assert_eq!(options.clone(), options);
}

#[test]
fn flags_are_single_bits() {
    for (flag, bits) in FLAGS {
        assert_eq!(flag.bits(), bits);
        assert_eq!(bits.count_ones(), 1);
    }
}

#[test]
fn flags_join_in_any_order() {
    for (a, _) in FLAGS {
        for (b, _) in FLAGS {
            let mut one = EnvOpenOptions::new();
            one.flag(a).flag(b).flag(a);
            let mut two = EnvOpenOptions::new();
            two.flag(b).flag(a);
            assert_eq!(one, two);
        }
    }
}

#[test]
fn specified_flags_are_contained() {
    let env = env_at_e0();
    for (specified, _) in FLAGS {
        let mut options = EnvOpenOptions::new();
        options.flag(specified);
        for (asked, _) in FLAGS {
            let question = env.contains_flag(asked);
            assert_eq!(question.call.env, 0xe0);
            assert_eq!(question.got::<()>(0, options.flags).unwrap(), asked == specified);
            assert!(!question.got::<()>(0, 0).unwrap());
        }
    }
    assert!(matches!(
        env.contains_flag(Flag::NoSync).got::<()>(22, 0x10000),
        Err(Error::Mdb(MdbError { code: 22 }))
    ));
}

#[test]
fn raw_flags_are_what_lmdb_tells() {
    let call = env_at_e0().raw_flags();
    assert_eq!(call.env, 0xe0);
    assert_eq!(call.got::<()>(0, 0x240000).unwrap(), 0x240000);
    assert!(matches!(call.got::<()>(22, 1), Err(Error::Mdb(MdbError { code: 22 }))));
}

#[test]
fn return_codes() {
    assert_eq!(mdb_result(0), Ok(()));
    assert_eq!(mdb_result(13), Err(MdbError { code: 13 }));
    assert_eq!(mdb_result(-30798), Err(MdbError { code: MDB_NOTFOUND }));
    assert!(MdbError { code: -30798 }.not_found());
    assert!(!MdbError { code: -30797 }.not_found());
}

fn calls_of(opening: Opening) -> (Vec<EnvCall>, Option<IoError>) {
    let mut opening = opening;
    let mut calls = Vec::new();
    loop {
        calls.push(opening.next_call());
        match opening.reply::<()>(0) {
            OpenProgress::Call(next) => opening = next,
            OpenProgress::Created(_) => return (calls, None),
            OpenProgress::Failed { error: Error::Io(error), close: false } => {
                return (calls, Some(error))
            }
            OpenProgress::Failed { .. } => panic!("no call failed"),
        }
    }
}

#[test]
fn calls_follow_the_options() {
    let (calls, refusal) = calls_of(EnvOpenOptions::new().plan(b"/env".to_vec(), 4096, false));
    assert_eq!(calls, vec![EnvCall::Create, EnvCall::Open { flags: 0, mode: 0o600 }]);
    assert!(refusal.is_none());

    let mut options = EnvOpenOptions::new();
    options.map_size(3 * 4096).max_readers(126).max_dbs(30).flag(Flag::NoSync);
    let (calls, refusal) = calls_of(options.plan(b"/env".to_vec(), 4096, true));
    assert_eq!(
        calls,
        vec![
            EnvCall::Create,
            EnvCall::SetMapSize(12288),
            EnvCall::SetMaxReaders(126),
            EnvCall::SetMaxDbs(30),
            EnvCall::Open { flags: 0x210000, mode: 0o600 },
        ]
    );
    assert!(refusal.is_none());
}

#[test]
fn path_is_handed_over_with_a_nul() {
    let opening = EnvOpenOptions::new().plan(b"/env".to_vec(), 4096, false);
    assert_eq!(opening.c_path(), b"/env\0");
}

#[test]
fn map_size_is_complained_of() {
    for (size, page_size, message) in [
        (1, 4096, "map size (1) must be a multiple of the system page size (4096)"),
        (4095, 4096, "map size (4095) must be a multiple of the system page size (4096)"),
        (10_000, 4096, "map size (10000) must be a multiple of the system page size (4096)"),
        (1_000_005, 10, "map size (1000005) must be a multiple of the system page size (10)"),
    ] {
        let mut options = EnvOpenOptions::new();
        options.map_size(size).max_dbs(1);
        let (calls, refusal) = calls_of(options.plan(b"/env".to_vec(), page_size, false));
        assert_eq!(calls, vec![EnvCall::Create]);
        let refusal = refusal.unwrap();
        assert_eq!(refusal.kind, IoErrorKind::InvalidInput);
        assert_eq!(refusal.os_code, None);
        assert_eq!(refusal.message, message);
    }
    for size in [0, 4096, 40960] {
        let (calls, refusal) =
            calls_of(EnvOpenOptions::new().map_size(size).plan(b"/env".to_vec(), 4096, false));
        assert_eq!(calls[1], EnvCall::SetMapSize(size));
        assert!(refusal.is_none());
    }
}

#[test]
fn only_a_failed_open_is_followed_by_a_close() {
    let mut options = EnvOpenOptions::new();
    options.map_size(4096).max_readers(1).max_dbs(1);
    for failing in 0..5 {
        let mut opening = options.plan(b"/env".to_vec(), 4096, false);
        for _ in 0..failing {
            opening = match opening.reply::<()>(0) {
                OpenProgress::Call(next) => next,
                _ => panic!("stopped early"),
            };
        }
        match opening.reply::<()>(13) {
            OpenProgress::Failed { error: Error::Mdb(error), close } => {
                assert_eq!(error.code, 13);
                assert_eq!(close, failing == 4);
            }
            _ => panic!("a call failed"),
        }
    }
}

#[test]
fn refused_map_size_still_needs_an_environment() {
    let opening = EnvOpenOptions::new().map_size(1).plan(b"/env".to_vec(), 4096, false);
    assert!(matches!(
        opening.reply::<()>(12),
        OpenProgress::Failed { error: Error::Mdb(MdbError { code: 12 }), close: false }
    ));
}

fn io_error(kind: IoErrorKind) -> IoError {
    IoError { kind, os_code: None, message: "why".to_string() }
}

#[test]
fn paths_are_resolved() {
    let plain = EnvOpenOptions::new();
    let mut file = EnvOpenOptions::new();
    file.flag(Flag::NoSubDir);
    let split = || Some((b"/tmp".to_vec(), b"data.mdb".to_vec()));

    for options in [&plain, &file] {
        assert!(matches!(
            options.resolve_path(Ok(b"/real".to_vec()), split()),
            ResolvedPath::At(path) if path == b"/real"
        ));
    }
    assert!(matches!(
        file.resolve_path(Err(io_error(IoErrorKind::NotFound)), split()),
        ResolvedPath::In { dir, file_name } if dir == b"/tmp" && file_name == b"data.mdb"
    ));
    for (options, kind, split) in [
        (&plain, IoErrorKind::NotFound, split()),
        (&file, IoErrorKind::Other, split()),
        (&file, IoErrorKind::InvalidInput, split()),
        (&file, IoErrorKind::PermissionDenied, split()),
        (&file, IoErrorKind::AlreadyExists, split()),
        (&file, IoErrorKind::NotFound, None),
    ] {
        match options.resolve_path(Err(io_error(kind)), split) {
            ResolvedPath::Failed(error) => assert_eq!(error.kind, kind),
            _ => panic!("resolved"),
        }
    }
}

#[test]
fn handles_tell_what_they_are_of() {
    let env = env_at_e0();
    assert_eq!(env.env_mut_ptr(), 0xe0);
    assert_eq!(env.path(), b"/env");
    assert_eq!(*env.resource(), "owned");
    let clone = env.clone();
    assert!(std::ptr::eq(clone.resource(), env.resource()));
}

#[test]
fn transactions_begin() {
    let env = env_at_e0();
    assert_eq!(env.write_txn().call, BeginTxn { env: 0xe0, parent: None, flags: 0 });
    assert_eq!(env.read_txn().call, BeginTxn { env: 0xe0, parent: None, flags: 0x20000 });
    let mut wtxn = write_txn(&env);
    assert_eq!(wtxn.txn_mut_ptr(), 0x77);
    assert_eq!(wtxn.env_mut_ptr(), 0xe0);
    assert_eq!(
        env.nested_write_txn(&mut wtxn).call,
        BeginTxn { env: 0xe0, parent: Some(0x77), flags: 0 }
    );
    let rtxn = read_txn(&env);
    assert_eq!(rtxn.txn_mut_ptr(), 0x66);
    assert_eq!(rtxn.env_mut_ptr(), 0xe0);
    assert!(matches!(
        env.read_txn().begun::<()>(-30790, 0x66),
        Err(Error::Mdb(MdbError { code: -30790 }))
    ));
    assert!(matches!(
        env.write_txn().begun::<()>(12, 0x77),
        Err(Error::Mdb(MdbError { code: 12 }))
    ));
}

/// The databases of the environment at 0xe0, and the types of all databases.
struct Tables {
    types: DatabaseTypes,
    databases: OpenedDatabases,
}

impl Tables {
    fn new() -> Tables {
        Tables { types: DatabaseTypes::new(), databases: OpenedDatabases::new(0xe0) }
    }

    fn open<KC: 'static, DC: 'static>(
        &mut self,
        name: &str,
        code: i32,
        dbi: u32,
    ) -> Result<Option<Database<KC, DC>>, Error<()>> {
        let env = env_at_e0();
        let opening: DatabaseOpening<KC, DC> = env.open_database(&read_txn(&env), Some(name));
        opening.opened(&mut self.types, &mut self.databases, code, dbi)
    }

    fn create<KC: 'static, DC: 'static>(
        &mut self,
        name: &str,
        code: i32,
        dbi: u32,
    ) -> Result<Database<KC, DC>, Error<()>> {
        let env = env_at_e0();
        let creation: DatabaseCreation<KC, DC> =
            env.create_database(&mut write_txn(&env), Some(name));
        creation.created(&mut self.types, &mut self.databases, code, dbi)
    }

    fn open_poly(
        &mut self,
        name: &str,
        code: i32,
        dbi: u32,
    ) -> Result<Option<PolyDatabase>, Error<()>> {
        let env = env_at_e0();
        let opening: PolyDatabaseOpening = env.open_poly_database(&read_txn(&env), Some(name));
        opening.opened(&mut self.types, &mut self.databases, code, dbi)
    }

    fn create_poly(&mut self, name: &str, code: i32, dbi: u32) -> Result<PolyDatabase, Error<()>> {
        let env = env_at_e0();
        let creation: PolyDatabaseCreation =
            env.create_poly_database(&mut write_txn(&env), Some(name));
        creation.created(&mut self.types, &mut self.databases, code, dbi)
    }
}

fn same_call(call: &DbiOpen, txn: usize, name: Option<&[u8]>, flags: u32) -> bool {
    call.txn == txn && call.name.as_deref() == name && call.flags == flags
}

#[test]
fn databases_are_asked_for_by_name() {
    let env = env_at_e0();
    let rtxn = read_txn(&env);
    let mut wtxn = write_txn(&env);
    let opening: DatabaseOpening<u8, u8> = env.open_database(&rtxn, Some("my-super-db"));
    assert!(same_call(opening.call(), 0x66, Some(b"my-super-db\0"), 0));
    let opening: DatabaseOpening<u8, u8> = env.open_database(&rtxn, None);
    assert!(same_call(opening.call(), 0x66, None, 0));
    let creation: DatabaseCreation<u8, u8> = env.create_database(&mut wtxn, Some("\u{e9}"));
    assert!(same_call(creation.call(), 0x77, Some(b"\xc3\xa9\0"), 0x40000));
    let opening = env.open_poly_database(&rtxn, Some(""));
    assert!(same_call(opening.call(), 0x66, Some(b"\0"), 0));
    let creation = env.create_poly_database(&mut wtxn, None);
    assert!(same_call(creation.call(), 0x77, None, 0x40000));
}

#[test]
fn first_types_decide() {
    let mut tables = Tables::new();
    let first = tables.create::<u8, String>("a", 0, 2).unwrap();
    assert_eq!(first.env_ident(), 0xe0);
    assert_eq!(first.dbi(), 2);
    assert!(tables.create_poly("b", 0, 3).is_ok());
    assert!(tables.open::<u8, u8>("c", 0, 4).is_ok());

    assert!(matches!(tables.open::<u8, String>("a", 0, 2), Ok(Some(_))));
    assert!(matches!(tables.open::<u8, u8>("a", 0, 2), Err(Error::InvalidDatabaseTyping)));
    assert!(matches!(
        tables.open::<String, String>("a", 0, 2),
        Err(Error::InvalidDatabaseTyping)
    ));
    assert!(matches!(tables.create::<String, u8>("a", 0, 2), Err(Error::InvalidDatabaseTyping)));
    assert!(matches!(tables.open_poly("a", 0, 2), Err(Error::InvalidDatabaseTyping)));
    assert!(matches!(tables.create_poly("a", 0, 2), Err(Error::InvalidDatabaseTyping)));
    // and they stay the first ones
    assert!(tables.create::<u8, String>("a", 0, 2).is_ok());

    assert!(matches!(tables.open::<u8, u8>("b", 0, 3), Err(Error::InvalidDatabaseTyping)));
    let poly = tables.open_poly("b", 0, 3).unwrap().unwrap();
    assert_eq!((poly.env_ident(), poly.dbi()), (0xe0, 3));
}

#[test]
fn types_go_with_the_name_and_not_with_the_handle() {
    let mut tables = Tables::new();
    tables.create::<u8, u8>("a", 0, 2).unwrap();
    assert!(tables.create::<u8, String>("b", 0, 2).is_ok());

    // the environment is opened anew, and the handles are others
    tables.databases = OpenedDatabases::new(0xe0);
    assert!(!tables.databases.contains(2));
    assert!(matches!(tables.open::<u8, String>("a", 0, 5), Err(Error::InvalidDatabaseTyping)));
    assert!(matches!(tables.open_poly("a", 0, 5), Err(Error::InvalidDatabaseTyping)));
    assert_eq!(tables.open::<u8, u8>("a", 0, 5).unwrap().unwrap().dbi(), 5);
    // the handle is open although the types were refused
    assert!(tables.open::<u8, u8>("b", 0, 6).is_err());
    assert!(tables.databases.contains(6));
}

#[test]
fn missing_databases_can_be_looked_for() {
    let mut tables = Tables::new();
    assert!(matches!(tables.open::<u8, u8>("a", MDB_NOTFOUND, 5), Ok(None)));
    assert!(matches!(tables.open_poly("a", MDB_NOTFOUND, 5), Ok(None)));
    assert!(matches!(
        tables.create::<u8, u8>("a", MDB_NOTFOUND, 5),
        Err(Error::Mdb(MdbError { code: MDB_NOTFOUND }))
    ));
    assert!(matches!(
        tables.create_poly("a", MDB_NOTFOUND, 5),
        Err(Error::Mdb(MdbError { code: MDB_NOTFOUND }))
    ));
    assert!(matches!(
        tables.open::<u8, u8>("a", 13, 5),
        Err(Error::Mdb(MdbError { code: 13 }))
    ));
    assert!(matches!(tables.open_poly("a", 13, 5), Err(Error::Mdb(MdbError { code: 13 }))));
    // none of them has given the database a type, or opened the handle
    assert!(!tables.databases.contains(5));
    assert!(tables.create_poly("a", 0, 5).is_ok());
    assert!(tables.databases.contains(5));
}

#[test]
fn types_are_kept_by_path_and_name() {
    let mut types = DatabaseTypes::new();
    let ids = |a: TypeId, b: TypeId| Some((a, b));
    let first = ids(TypeId::of::<u8>(), TypeId::of::<u8>());
    let other = ids(TypeId::of::<u8>(), TypeId::of::<u16>());
    let opened: Result<u32, Error<()>> = types.raw_init_database(b"/d", None, 0, 1, first);
    assert!(matches!(opened, Ok(1)));
    let opened: Result<u32, Error<()>> = types.raw_init_database(b"/d/", None, 0, 2, other);
    assert!(matches!(opened, Err(Error::InvalidDatabaseTyping)));
    let opened: Result<u32, Error<()>> = types.raw_init_database(b"/d", Some(b""), 0, 2, other);
    assert!(matches!(opened, Ok(2)));
    let opened: Result<u32, Error<()>> = types.raw_init_database(b"/e", None, 0, 3, other);
    assert!(matches!(opened, Ok(3)));
    let opened: Result<u32, Error<()>> = types.raw_init_database(b"/d", None, 0, 4, None);
    assert!(matches!(opened, Err(Error::InvalidDatabaseTyping)));
}

fn stat(psize: u32, branch_pages: usize, leaf_pages: usize, overflow_pages: usize) -> Stat {
    Stat { psize, depth: 1, branch_pages, leaf_pages, overflow_pages, entries: 9 }
}

#[test]
fn pages_make_the_size() {
    assert_eq!(stat(4096, 1, 2, 3).checked_size(), Some(24576));
    assert_eq!(stat(4096, 0, 0, 0).checked_size(), Some(0));
    assert_eq!(stat(1, usize::MAX, 1, 0).checked_size(), None);
    assert_eq!(stat(1, usize::MAX, 0, 1).checked_size(), None);
    assert_eq!(stat(1, 0, usize::MAX, 0).checked_size(), Some(usize::MAX as u64));
}

fn next(step: SizeStep) -> (SizeWalk, SizeCall) {
    match step {
        SizeStep::Call { walk, call } => (walk, call),
        SizeStep::Done(_) => panic!("done early"),
    }
}

/// A walk that has come to its first key, with 4096 bytes counted.
fn walk_at_first_key() -> SizeWalk {
    let (walk, call) = next(env_at_e0().non_free_pages_size());
    assert!(matches!(call, SizeCall::EnvStat { env: 0xe0 }));
    let (walk, call) = next(walk.reply(SizeReply::EnvStat { code: 0, stat: stat(4096, 0, 1, 0) }));
    assert!(matches!(
        call,
        SizeCall::BeginTxn(BeginTxn { env: 0xe0, parent: None, flags: 0x20000 })
    ));
    let (walk, call) = next(walk.reply(SizeReply::Txn { code: 0, txn: 0x66 }));
    assert!(matches!(call, SizeCall::OpenDbi(call) if same_call(&call, 0x66, None, 0)));
    let (walk, call) = next(walk.reply(SizeReply::Dbi { code: 0, dbi: 1 }));
    assert!(matches!(call, SizeCall::OpenCursor { txn: 0x66, dbi: 1 }));
    let (walk, call) = next(walk.reply(SizeReply::Cursor { code: 0 }));
    assert!(matches!(call, SizeCall::NextKey));
    walk
}

fn key(key: &[u8]) -> SizeReply<'static> {
    SizeReply::Key { code: 0, key: key.to_vec() }
}

#[test]
fn every_database_is_measured() {
    let mut tables = Tables::new();
    tables.open::<u8, u8>("x", 0, 1).unwrap();
    tables.create_poly("held", 0, 7).unwrap();
    let databases = tables.databases;

    let walk = walk_at_first_key();
    assert_eq!(walk.size(), 4096);

    // a database that was open before
    let (walk, call) = next(walk.reply(key(b"held")));
    assert!(matches!(call, SizeCall::OpenDbi(call) if same_call(&call, 0x66, Some(b"held\0"), 0)));
    let (walk, call) = next(walk.reply(SizeReply::Dbi { code: 0, dbi: 7 }));
    assert!(matches!(call, SizeCall::Stat { txn: 0x66, dbi: 7 }));
    let (walk, call) = next(walk.reply(SizeReply::Stat {
        code: 0,
        stat: stat(4096, 1, 2, 0),
        databases: &databases,
    }));
    assert!(matches!(call, SizeCall::NextKey));
    assert_eq!(walk.size(), 4 * 4096);

    // one that was not
    let (walk, _) = next(walk.reply(key(b"other")));
    let (walk, _) = next(walk.reply(SizeReply::Dbi { code: 0, dbi: 8 }));
    let (walk, call) = next(walk.reply(SizeReply::Stat {
        code: 0,
        stat: stat(4096, 0, 0, 5),
        databases: &databases,
    }));
    assert!(matches!(call, SizeCall::CloseDbi { env: 0xe0, dbi: 8 }));
    let (walk, call) = next(walk.reply(SizeReply::Closed));
    assert!(matches!(call, SizeCall::NextKey));

    // a key that can be no name
    let (walk, call) = next(walk.reply(key(b"\xff\0")));
    assert!(matches!(call, SizeCall::NextKey));

    // a key that is no name
    let (walk, _) = next(walk.reply(key(b"value")));
    let (walk, call) = next(walk.reply(SizeReply::Dbi { code: -30784, dbi: 0 }));
    assert!(matches!(call, SizeCall::NextKey));

    match walk.reply(SizeReply::Key { code: MDB_NOTFOUND, key: Vec::new() }) {
        SizeStep::Done(size) => assert_eq!(size, Ok(9 * 4096)),
        SizeStep::Call { .. } => panic!("not done"),
    }
}

#[test]
fn walks_end_with_errors() {
    let fails = |step: SizeStep| {
        matches!(step, SizeStep::Done(Err(MdbError { code: 5 })))
    };
    let start = || next(env_at_e0().non_free_pages_size()).0;
    let stat = stat(4096, 0, 1, 0);
    assert!(fails(start().reply(SizeReply::EnvStat { code: 5, stat })));

    let at_txn = || next(start().reply(SizeReply::EnvStat { code: 0, stat })).0;
    assert!(fails(at_txn().reply(SizeReply::Txn { code: 5, txn: 0x66 })));

    let at_main = || next(at_txn().reply(SizeReply::Txn { code: 0, txn: 0x66 })).0;
    assert!(fails(at_main().reply(SizeReply::Dbi { code: 5, dbi: 1 })));

    let at_cursor = || next(at_main().reply(SizeReply::Dbi { code: 0, dbi: 1 })).0;
    assert!(fails(at_cursor().reply(SizeReply::Cursor { code: 5 })));

    assert!(fails(walk_at_first_key().reply(SizeReply::Key { code: 5, key: Vec::new() })));

    let databases = OpenedDatabases::new(0xe0);
    let (walk, _) = next(walk_at_first_key().reply(key(b"db")));
    let (walk, _) = next(walk.reply(SizeReply::Dbi { code: 0, dbi: 2 }));
    assert!(fails(walk.reply(SizeReply::Stat { code: 5, stat, databases: &databases })));
}

/// A walk that was refused to open a database for want of a slot.
fn walk_without_slots() -> SizeWalk {
    let (walk, call) = next(walk_at_first_key().reply(key(b"a")));
    assert!(matches!(call, SizeCall::OpenDbi(call) if same_call(&call, 0x66, Some(b"a\0"), 0)));
    let (walk, call) = next(walk.reply(SizeReply::Dbi { code: -30791, dbi: 0 }));
    assert!(matches!(call, SizeCall::Info { env: 0xe0, txn: 0x66 }));
    walk
}

fn info(last_pgno: usize) -> SizeReply<'static> {
    SizeReply::Info { last_pgno, last_txn_id: 5, txn_id: 5 }
}

#[test]
fn pages_are_counted_without_slots() {
    // two meta pages, a page of the unnamed database, a page of "a"
    let (walk, call) = next(walk_without_slots().reply(info(3)));
    assert!(matches!(call, SizeCall::Stat { txn: 0x66, dbi: 0 }));
    let (walk, call) =
        next(walk.reply(SizeReply::FreeStat { code: 0, stat: stat(4096, 0, 0, 0) }));
    assert!(matches!(call, SizeCall::OpenCursor { txn: 0x66, dbi: 0 }));
    let (walk, call) = next(walk.reply(SizeReply::Cursor { code: 0 }));
    assert!(matches!(call, SizeCall::NextFree));
    let step = walk.reply(SizeReply::FreePages { code: MDB_NOTFOUND, count: 0 });
    assert!(matches!(step, SizeStep::Done(Ok(8192))));

    // with three pages of the free list and seven pages in it
    let (walk, _) = next(walk_without_slots().reply(info(13)));
    let (walk, _) = next(walk.reply(SizeReply::FreeStat { code: 0, stat: stat(4096, 1, 1, 1) }));
    let (walk, _) = next(walk.reply(SizeReply::Cursor { code: 0 }));
    let (walk, call) = next(walk.reply(SizeReply::FreePages { code: 0, count: 3 }));
    assert!(matches!(call, SizeCall::NextFree));
    let (walk, _) = next(walk.reply(SizeReply::FreePages { code: 0, count: 4 }));
    let step = walk.reply(SizeReply::FreePages { code: MDB_NOTFOUND, count: 0 });
    assert!(matches!(step, SizeStep::Done(Ok(8192))));
}

#[test]
fn keys_need_not_be_text() {
    // refused for want of a slot: two meta pages, a page of the unnamed database
    let (walk, call) = next(walk_at_first_key().reply(key(b"\xff")));
    assert!(matches!(call, SizeCall::OpenDbi(call) if same_call(&call, 0x66, Some(b"\xff\0"), 0)));
    let (walk, _) = next(walk.reply(SizeReply::Dbi { code: -30791, dbi: 0 }));
    let (walk, _) = next(walk.reply(info(2)));
    let (walk, _) = next(walk.reply(SizeReply::FreeStat { code: 0, stat: stat(4096, 0, 0, 0) }));
    let (walk, _) = next(walk.reply(SizeReply::Cursor { code: 0 }));
    let step = walk.reply(SizeReply::FreePages { code: MDB_NOTFOUND, count: 0 });
    assert!(matches!(step, SizeStep::Done(Ok(4096))));

    // with slots: no database of that name
    for code in [-30784, MDB_NOTFOUND] {
        let (walk, _) = next(walk_at_first_key().reply(key(b"\xff")));
        let (walk, call) = next(walk.reply(SizeReply::Dbi { code, dbi: 0 }));
        assert!(matches!(call, SizeCall::NextKey));
        let step = walk.reply(SizeReply::Key { code: MDB_NOTFOUND, key: Vec::new() });
        assert!(matches!(step, SizeStep::Done(Ok(4096))));
    }
}

#[test]
fn other_refusals_end_the_walk() {
    for refusal in [12, -30782, -30796] {
        let (walk, _) = next(walk_at_first_key().reply(key(b"a")));
        match walk.reply(SizeReply::Dbi { code: refusal, dbi: 0 }) {
            SizeStep::Done(outcome) => assert_eq!(outcome, Err(MdbError { code: refusal })),
            SizeStep::Call { .. } => panic!("passed over"),
        }
    }
}

#[test]
fn walks_start_over_when_the_environment_was_written_to() {
    let reply = SizeReply::Info { last_pgno: 3, last_txn_id: 6, txn_id: 5 };
    let (walk, call) = next(walk_without_slots().reply(reply));
    assert!(matches!(call, SizeCall::EnvStat { env: 0xe0 }));
    assert_eq!(walk.size(), 0);
}

#[test]
fn contradictory_pages_are_an_error() {
    let corrupted =
        |step: SizeStep| matches!(step, SizeStep::Done(Err(MdbError { code: -30796 })));
    assert!(corrupted(walk_without_slots().reply(info(0))));
    let at_stat = || next(walk_without_slots().reply(info(3))).0;
    assert!(corrupted(at_stat().reply(SizeReply::FreeStat { code: 0, stat: stat(1, 1, 1, 1) })));
    let at_cursor =
        || next(at_stat().reply(SizeReply::FreeStat { code: 0, stat: stat(1, 0, 1, 0) })).0;
    let at_pages = || next(at_cursor().reply(SizeReply::Cursor { code: 0 })).0;
    assert!(corrupted(at_pages().reply(SizeReply::FreePages { code: 0, count: 2 })));

    let fails = |step: SizeStep| matches!(step, SizeStep::Done(Err(MdbError { code: 5 })));
    assert!(fails(at_stat().reply(SizeReply::FreeStat { code: 5, stat: stat(1, 0, 0, 0) })));
    assert!(fails(at_cursor().reply(SizeReply::Cursor { code: 5 })));
    assert!(fails(at_pages().reply(SizeReply::FreePages { code: 5, count: 0 })));
}

#[test]
fn walks_tell_what_they_can_take() {
    let start = || next(env_at_e0().non_free_pages_size()).0;
    let fits = stat(1, 0, 1, 0);
    let too_large = stat(1, usize::MAX, 1, 0);
    assert!(start().can_take(&SizeReply::EnvStat { code: 0, stat: fits }));
    assert!(!start().can_take(&SizeReply::EnvStat { code: 0, stat: too_large }));
    assert!(start().can_take(&SizeReply::EnvStat { code: 5, stat: too_large }));
    assert!(!start().can_take(&SizeReply::Closed));
    assert!(walk_at_first_key().can_take(&key(b"\xff")));
    assert!(!walk_at_first_key().can_take(&info(3)));
    assert!(walk_without_slots().can_take(&info(3)));

    let (walk, _) = next(walk_at_first_key().reply(key(b"db")));
    let (walk, _) = next(walk.reply(SizeReply::Dbi { code: 0, dbi: 2 }));
    for (env, takes) in [(0xe0, true), (0xe1, false)] {
        let databases = &OpenedDatabases::new(env);
        assert_eq!(walk.can_take(&SizeReply::Stat { code: 0, stat: fits, databases }), takes);
    }
}

#[test]
fn information_is_passed_on() {
    let call = env_at_e0().info();
    assert_eq!(call.env, 0xe0);
    let raw_info = RawInfo {
        me_mapaddr: 1,
        me_mapsize: 2,
        me_last_pgno: 3,
        me_last_txnid: 4,
        me_maxreaders: 5,
        me_numreaders: 6,
    };
    assert_eq!(
        call.got(raw_info),
        EnvInfo {
            map_addr: 1,
            map_size: 2,
            last_page_number: 3,
            last_txn_id: 4,
            maximum_number_of_readers: 5,
            number_of_readers: 6,
        }
    );
}

#[test]
fn disk_size_is_that_of_the_file() {
    let call = env_at_e0().real_disk_size();
    assert_eq!(call.env, 0xe0);
    assert_eq!(call.got::<i32, ()>(0, 3).unwrap(), 3);
    assert!(matches!(call.got::<i32, ()>(22, 3), Err(Error::Mdb(MdbError { code: 22 }))));
    assert_eq!(call.measured::<()>(Ok(12288)).unwrap(), 12288);
    match call.measured::<()>(Err(io_error(IoErrorKind::Other))) {
        Err(Error::Io(error)) => assert_eq!(error.message, "why"),
        _ => panic!("measured"),
    }
}

#[test]
fn copies_compact_on_demand() {
    let env = env_at_e0();
    let call = env.copy_to_fd(4, CompactionOption::Enabled);
    assert_eq!((call.env, call.fd, call.flags), (0xe0, 4, 1));
    let call = env.copy_to_fd(4, CompactionOption::Disabled);
    assert_eq!((call.env, call.fd, call.flags), (0xe0, 4, 0));
    assert!(call.copied::<()>(0).is_ok());
    let call = env.copy_to_fd(4, CompactionOption::Disabled);
    assert!(matches!(call.copied::<()>(28), Err(Error::Mdb(MdbError { code: 28 }))));
}

#[test]
fn syncs_are_forced() {
    let call = env_at_e0().force_sync();
    assert_eq!((call.env, call.force), (0xe0, 1));
    assert!(call.synced::<()>(0).is_ok());
    assert!(matches!(call.synced::<()>(5), Err(Error::Mdb(MdbError { code: 5 }))));
}

#[test]
fn stale_readers_are_counted() {
    let call = env_at_e0().clear_stale_readers();
    assert_eq!(call.env, 0xe0);
    assert_eq!(call.checked::<()>(0, 3).unwrap(), 3);
    assert!(matches!(call.checked::<()>(22, 3), Err(Error::Mdb(MdbError { code: 22 }))));
}

#[test]
fn listed_environments_are_found_by_what_their_paths_are_made_of() {
    let mut opened: OpenedEnvs<u8> = OpenedEnvs::new();
    for path in [&b"/a"[..], b"/b", b"/a/b"] {
        assert!(opened.get(path).is_none());
        let mut opening = match EnvOpenOptions::new().open(&opened, path.to_vec(), true) {
            Open::Create(opening) => opening,
            _ => panic!("listed"),
        };
        let created = loop {
            match opening.reply::<u8>(0) {
                OpenProgress::Call(next) => opening = next,
                OpenProgress::Created(created) => break created,
                OpenProgress::Failed { .. } => panic!("nothing failed"),
            }
        };
        opened.created(created, path.len(), 1);
    }
    assert!(opened.get(b"/a/").is_some());
    assert!(opened.get(b"a").is_none());
    let listed = opened.get(b"/a/b").unwrap().env.as_ref().unwrap();
    assert_eq!((listed.env_mut_ptr(), listed.path()), (4, &b"/a/b"[..]));
    opened.closed(b"/a").signal();
    assert!(opened.get(b"/a").is_none());
    assert!(opened.get(b"/b").is_some());
    assert!(opened.get(b"/a/b").is_some());
}

#[test]
fn canonical_paths_go_through_urls() {
    let path = canonicalize_path(&PathBuf::from("/tmp/./a b/")).unwrap();
    assert_eq!(path.to_str(), Some("/tmp/a b"));
    let error = canonicalize_path(&PathBuf::from("tmp")).unwrap_err();
    assert_eq!(error.kind, IoErrorKind::Other);
    assert_eq!(error.os_code, None);
    assert_eq!(error.message, "URL passing error");
    assert_eq!(canonicalize_path(&PathBuf::from("/")).unwrap().to_str(), Some("/"));
    let error = read_back(Err(())).unwrap_err();
    assert_eq!(error.kind, IoErrorKind::Other);
    assert_eq!(error.message, "path canonicalization error");
    assert_eq!(read_back(Ok(PathBuf::from("/a"))).unwrap().to_str(), Some("/a"));
}

#[test]
fn paths_are_compared_by_what_they_are_made_of() {
    for (a, b, same) in [
        ("/a/b", "/a/b", true),
        ("/a/b", "/a/b/", true),
        ("/a/b", "//a/./b/.", true),
        ("/", "//./", true),
        ("a", "a/", true),
        (".", "./", true),
        ("", "", true),
        ("/a/b", "/a", false),
        ("/a/b", "/b/a", false),
        ("/a", "a", false),
        ("./a", "a", false),
        ("", ".", false),
        ("", "/", false),
        ("/a/..", "/", false),
        ("/.a", "/a", false),
        ("/ab", "/a/b", false),
    ] {
        assert_eq!(same_path(a.as_bytes(), b.as_bytes()), same, "{} {}", a, b);
        assert_eq!(PathBuf::from(a) == PathBuf::from(b), same, "{} {}", a, b);
    }
}

#[test]
fn only_rooted_urls_are_read() {
    for (text, rooted) in [
        ("file:///C:/", true),
        ("file:///tmp", true),
        ("file://server/share", true),
        ("file://server/share/x", true),
        ("file://server/%C3%96l", true),
        ("file://localhost/C:/x", true),
        ("file://localhost/C:/", true),
        ("file://localhosts/C:", true),
        ("file://localhost/C:", false),
        ("file://localhost/share", false),
        ("file://server", false),
        ("file://server/", false),
        ("file://server//x", false),
        ("file://server/%2Fx", false),
    ] {
        assert_eq!(can_read(text.as_bytes()), rooted, "{}", text);
    }
}
