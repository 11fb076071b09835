//! Environments from opening to closing, against an LMDB that lives in memory.

use heed::closing::EnvClosingEvent;
use heed::database::{
    Database, DatabaseCreation, DatabaseOpening, DatabaseTypes, DbiOpen, OpenedDatabases,
};
use heed::env::Env;
use heed::env_closing_event;
use heed::error::{Error, IoError, IoErrorKind, MDB_NOTFOUND};
use heed::flags::{Flag, MDB_CREATE};
use heed::opening::{EnvCall, NewEnv, Open, OpenProgress, ResolvedPath};
use heed::options::EnvOpenOptions;
use heed::registry::OpenedEnvs;
use heed::txn::{RoTxn, RwTxn};
use std::collections::BTreeMap;
use std::sync::{Arc, Mutex};
use std::time::Duration;

/// The codec of strings.
struct Str;

/// What is on disk, by path: the names of the databases with their contents.
type Disk = BTreeMap<Vec<u8>, BTreeMap<Option<Vec<u8>>, BTreeMap<String, String>>>;

/// A process with its opened environments, and an LMDB.
#[derive(Clone)]
struct Process {
    opened: Arc<Mutex<OpenedEnvs<Owner>>>,
    types: Arc<Mutex<DatabaseTypes>>,
    disk: Arc<Mutex<Disk>>,
    calls: Arc<Mutex<Vec<EnvCall>>>,
    closed: Arc<Mutex<Vec<usize>>>,
}

/// What the handles of an environment own: dropped, it closes the environment.
struct Owner {
    process: Process,
    env: usize,
    path: Vec<u8>,
    databases: Mutex<OpenedDatabases>,
    handles: Mutex<Vec<Option<Vec<u8>>>>,
}

impl std::fmt::Debug for Owner {
    fn fmt(&self, f: &mut std::fmt::Formatter) -> std::fmt::Result {
        f.write_str("Owner")
    }
}

impl Drop for Owner {
    fn drop(&mut self) {
        let mut opened = self.process.opened.lock().unwrap();
        assert!(opened.get(&self.path).is_some());
        let signal = opened.closed(&self.path);
        self.process.closed.lock().unwrap().push(self.env);
        signal.signal();
    }
}

const ENV: usize = 0xe0;

impl Process {
    fn new() -> Process {
        let mut disk: Disk = BTreeMap::new();
        disk.insert(b"/tmp/dir".to_vec(), BTreeMap::new());
        Process {
            opened: Arc::new(Mutex::new(OpenedEnvs::new())),
            types: Arc::new(Mutex::new(DatabaseTypes::new())),
            disk: Arc::new(Mutex::new(disk)),
            calls: Arc::new(Mutex::new(Vec::new())),
            closed: Arc::new(Mutex::new(Vec::new())),
        }
    }

    fn canonicalize(&self, path: &str) -> Result<Vec<u8>, IoError> {
        if self.disk.lock().unwrap().contains_key(path.as_bytes()) {
            Ok(path.as_bytes().to_vec())
        } else {
            Err(IoError {
                kind: IoErrorKind::NotFound,
                os_code: Some(2),
                message: "No such file or directory".to_string(),
            })
        }
    }

    fn open(&self, options: &EnvOpenOptions, path: &str) -> Result<Env<Owner>, Error<Owner>> {
        let mut opened = self.opened.lock().unwrap();
        let split = path.rfind('/').map(|at| {
            (path[..at].as_bytes().to_vec(), path[at + 1..].as_bytes().to_vec())
        });
        let path = match options.resolve_path(self.canonicalize(path), split) {
            ResolvedPath::At(path) => path,
            ResolvedPath::In { dir, file_name } => {
                let dir = String::from_utf8(dir).unwrap();
                let mut path = self.canonicalize(&dir).map_err(Error::Io)?;
                path.push(b'/');
                path.extend_from_slice(&file_name);
                path
            }
            ResolvedPath::Failed(error) => return Err(Error::Io(error)),
        };
        let mut opening = match options.open(&opened, path, false) {
            Open::Ready(env) => return Ok(env),
            Open::Refused(error) => return Err(error),
            Open::Create(opening) => opening,
        };
        let ended = loop {
            self.calls.lock().unwrap().push(opening.next_call());
            let code = match opening.next_call() {
                EnvCall::SetMaxReaders(0) => 22,
                _ => 0,
            };
            match opening.reply::<Owner>(code) {
                OpenProgress::Call(next) => opening = next,
                OpenProgress::Created(created) => {
                    let path = created.path().to_vec();
                    self.disk.lock().unwrap().entry(path.clone()).or_insert(BTreeMap::new());
                    let owner = Owner {
                        process: self.clone(),
                        env: ENV,
                        path,
                        databases: Mutex::new(OpenedDatabases::new(ENV)),
                        handles: Mutex::new(Vec::new()),
                    };
                    break Ok(NewEnv { created, env: ENV, resource: owner });
                }
                OpenProgress::Failed { error, close } => {
                    assert!(!close);
                    break Err(error);
                }
            }
        };
        opened.finish_open(ended)
    }

    fn closing_event(&self, path: &str) -> Option<EnvClosingEvent> {
        env_closing_event(&self.opened.lock().unwrap(), path.as_bytes())
    }

    fn prepare_for_closing(&self, env: Env<Owner>) -> EnvClosingEvent {
        let (event, held) = env.prepare_for_closing(&mut self.opened.lock().unwrap());
        drop(held);
        event
    }
}

/// Databases that a write transaction has created and not committed.
type Uncommitted = Vec<Option<Vec<u8>>>;

/// `mdb_dbi_open`.
fn dbi_open(env: &Env<Owner>, call: &DbiOpen, uncommitted: &mut Uncommitted) -> (i32, u32) {
    let name = call.name.as_ref().map(|name| {
        assert_eq!(name.last(), Some(&0));
        name[..name.len() - 1].to_vec()
    });
    let owner = env.resource();
    let mut disk = owner.process.disk.lock().unwrap();
    let databases = disk.get_mut(&owner.path).unwrap();
    if name.is_some() && !databases.contains_key(&name) && !uncommitted.contains(&name) {
        if call.flags & MDB_CREATE == 0 {
            return (MDB_NOTFOUND, 0);
        }
        uncommitted.push(name.clone());
    }
    if name.is_none() {
        databases.entry(None).or_insert(BTreeMap::new());
    }
    let mut handles = owner.handles.lock().unwrap();
    let at = handles.iter().position(|held| *held == name).unwrap_or_else(|| {
        handles.push(name);
        handles.len() - 1
    });
    (0, 1 + at as u32)
}

fn commit(env: &Env<Owner>, uncommitted: Uncommitted) {
    let owner = env.resource();
    let mut disk = owner.process.disk.lock().unwrap();
    for name in uncommitted {
        disk.get_mut(&owner.path).unwrap().insert(name, BTreeMap::new());
    }
}

fn contents<KC, DC>(
    env: &Env<Owner>,
    db: &Database<KC, DC>,
    change: impl Fn(&mut BTreeMap<String, String>),
) -> Vec<(String, String)> {
    assert_eq!(db.env_ident(), env.env_mut_ptr());
    let owner = env.resource();
    let name = owner.handles.lock().unwrap()[db.dbi() as usize - 1].clone();
    let mut disk = owner.process.disk.lock().unwrap();
    let database = disk.get_mut(&owner.path).unwrap().get_mut(&name).unwrap();
    change(database);
    database.iter().map(|(k, v)| (k.clone(), v.clone())).collect()
}

fn write_txn(env: &Env<Owner>) -> RwTxn {
    let begin = env.write_txn();
    assert_eq!(begin.call.env, ENV);
    assert_eq!(begin.call.parent, None);
    assert_eq!(begin.call.flags, 0);
    begin.begun::<Owner>(0, 0x77).unwrap()
}

fn read_txn(env: &Env<Owner>) -> RoTxn {
    let begin = env.read_txn();
    assert_eq!(begin.call.flags, 0x20000);
    begin.begun::<Owner>(0, 0x66).unwrap()
}

fn create_database(
    env: &Env<Owner>,
    wtxn: &mut RwTxn,
    name: Option<&str>,
    uncommitted: &mut Uncommitted,
) -> Result<Database<Str, Str>, Error<Owner>> {
    let creation: DatabaseCreation<Str, Str> = env.create_database(wtxn, name);
    let (code, dbi) = dbi_open(env, creation.call(), uncommitted);
    let owner = env.resource();
    let mut types = owner.process.types.lock().unwrap();
    creation.created(&mut types, &mut owner.databases.lock().unwrap(), code, dbi)
}

fn open_database<KC: 'static, DC: 'static>(
    env: &Env<Owner>,
    rtxn: &RoTxn,
    name: Option<&str>,
) -> Result<Option<Database<KC, DC>>, Error<Owner>> {
    let opening: DatabaseOpening<KC, DC> = env.open_database(rtxn, name);
    let (code, dbi) = dbi_open(env, opening.call(), &mut Vec::new());
    let owner = env.resource();
    let mut types = owner.process.types.lock().unwrap();
    opening.opened(&mut types, &mut owner.databases.lock().unwrap(), code, dbi)
}

#[test]
fn close_env() {
    let process = Process::new();
    let env = process
        .open(
            EnvOpenOptions::new()
                .map_size(10 * 1024 * 1024) // 10MB
                .max_dbs(30),
            "/tmp/dir",
        )
        .unwrap();

    // Keep the env for a while.
    let env_cloned = env.clone();

    let mut uncommitted = Vec::new();
    let mut wtxn = write_txn(&env);
    let db = create_database(&env, &mut wtxn, None, &mut uncommitted).unwrap();
    commit(&env, uncommitted);

    // Create an ordered list of keys...
    let pairs = contents(&env, &db, |database| {
        database.insert("world".to_string(), "world".to_string());
        database.insert("hello".to_string(), "hello".to_string());
    });
    let mut iter = pairs.iter().map(|(k, v)| (k.as_str(), v.as_str()));
    assert_eq!(iter.next(), Some(("hello", "hello")));
    assert_eq!(iter.next(), Some(("world", "world")));
    assert_eq!(iter.next(), None);

    let signal_event = process.prepare_for_closing(env);
    assert!(!signal_event.wait_timeout(Duration::from_millis(1)));
    assert!(process.closed.lock().unwrap().is_empty());

    println!("waiting for the env to be closed");
    drop(env_cloned);
    signal_event.wait();
    println!("env closed successfully");
    assert!(signal_event.wait_timeout(Duration::from_millis(0)));
    assert_eq!(*process.closed.lock().unwrap(), vec![ENV]);

    // Make sure we don't have a reference to the env
    assert!(process.closing_event("/tmp/dir").is_none());
}

#[test]
fn reopen_env_with_different_options_is_err() {
    let process = Process::new();
    let _env = process
        .open(
            EnvOpenOptions::new().map_size(10 * 1024 * 1024), // 10MB
            "/tmp/dir",
        )
        .unwrap();

    let result = process.open(
        EnvOpenOptions::new().map_size(12 * 1024 * 1024), // 12MB
        "/tmp/dir",
    );

    assert!(matches!(result, Err(Error::BadOpenOptions { .. })));
    if let Err(Error::BadOpenOptions { env, options }) = result {
        assert_eq!(env.env_mut_ptr(), ENV);
        assert_eq!(options.map_size, Some(10 * 1024 * 1024));
    }
}

#[test]
fn open_env_with_named_path() {
    let process = Process::new();
    process.disk.lock().unwrap().insert(b"/tmp/dir/babar.mdb".to_vec(), BTreeMap::new());
    let env = process
        .open(
            EnvOpenOptions::new().map_size(10 * 1024 * 1024), // 10MB
            "/tmp/dir/babar.mdb",
        )
        .unwrap();
    assert_eq!(env.path(), b"/tmp/dir/babar.mdb");
    let calls = process.calls.lock().unwrap().len();

    let again = process
        .open(
            EnvOpenOptions::new().map_size(10 * 1024 * 1024), // 10MB
            "/tmp/dir/babar.mdb",
        )
        .unwrap();
    assert_eq!(again.path(), b"/tmp/dir/babar.mdb");
    assert!(std::ptr::eq(again.resource(), env.resource()));
    assert_eq!(process.calls.lock().unwrap().len(), calls);
}

#[test]
fn open_database_with_writemap_flag() {
    let process = Process::new();
    let mut envbuilder = EnvOpenOptions::new();
    envbuilder.map_size(10 * 1024 * 1024); // 10MB
    envbuilder.max_dbs(10);
    envbuilder.flag(Flag::WriteMap);
    let env = process.open(&envbuilder, "/tmp/dir").unwrap();
    assert_eq!(
        *process.calls.lock().unwrap(),
        vec![
            EnvCall::Create,
            EnvCall::SetMapSize(10 * 1024 * 1024),
            EnvCall::SetMaxDbs(10),
            EnvCall::Open { flags: 0x80000, mode: 0o600 },
        ]
    );

    let mut uncommitted = Vec::new();
    let mut wtxn = write_txn(&env);
    let _db = create_database(&env, &mut wtxn, Some("my-super-db"), &mut uncommitted).unwrap();
    commit(&env, uncommitted);
}

#[test]
fn open_database_with_nosubdir() {
    let process = Process::new();
    let mut envbuilder = EnvOpenOptions::new();
    envbuilder.flag(Flag::NoSubDir);
    let env = process.open(&envbuilder, "/tmp/dir/data.mdb").unwrap();
    assert_eq!(env.path(), b"/tmp/dir/data.mdb");
}

#[test]
fn create_database_without_commit() {
    let process = Process::new();
    let env = process
        .open(
            EnvOpenOptions::new()
                .map_size(10 * 1024 * 1024) // 10MB
                .max_dbs(10),
            "/tmp/dir",
        )
        .unwrap();

    let mut uncommitted = Vec::new();
    let mut wtxn = write_txn(&env);
    let _db = create_database(&env, &mut wtxn, Some("my-super-db"), &mut uncommitted).unwrap();
    drop(uncommitted);

    let rtxn = read_txn(&env);
    let option = open_database::<Str, Str>(&env, &rtxn, Some("my-super-db")).unwrap();
    assert!(option.is_none());
}

#[test]
fn open_already_existing_database() {
    let process = Process::new();
    let env = process
        .open(
            EnvOpenOptions::new()
                .map_size(10 * 1024 * 1024) // 10MB
                .max_dbs(10),
            "/tmp/dir",
        )
        .unwrap();

    // we first create a database
    let mut uncommitted = Vec::new();
    let mut wtxn = write_txn(&env);
    let _db = create_database(&env, &mut wtxn, Some("my-super-db"), &mut uncommitted).unwrap();
    commit(&env, uncommitted);

    // Close the environement and reopen it, databases must not be loaded in memory.
    process.prepare_for_closing(env).wait();
    let env = process
        .open(
            EnvOpenOptions::new()
                .map_size(10 * 1024 * 1024) // 10MB
                .max_dbs(10),
            "/tmp/dir",
        )
        .unwrap();

    let rtxn = read_txn(&env);
    let option = open_database::<Str, Str>(&env, &rtxn, Some("my-super-db")).unwrap();
    assert!(option.is_some());
}

#[test]
fn closing_env_cannot_be_opened() {
    let process = Process::new();
    let options = EnvOpenOptions::new();
    let env = process.open(&options, "/tmp/dir").unwrap();
    let kept = env.clone();
    let before = process.closing_event("/tmp/dir").unwrap();
    let event = process.prepare_for_closing(env);
    assert!(matches!(process.open(&options, "/tmp/dir"), Err(Error::DatabaseClosing)));
    assert!(matches!(
        process.open(EnvOpenOptions::new().max_dbs(1), "/tmp/dir"),
        Err(Error::DatabaseClosing)
    ));
    let after = process.closing_event("/tmp/dir").unwrap();
    for event in [&before, &event, &after, &after.clone()] {
        assert!(!event.wait_timeout(Duration::from_millis(0)));
    }
    // asking again changes nothing
    let again = {
        let (again, held) = kept.prepare_for_closing(&mut process.opened.lock().unwrap());
        assert!(held.is_none());
        again
    };
    drop(kept);
    for event in [&before, &event, &after, &again] {
        event.wait();
        assert!(event.wait_timeout(Duration::from_millis(0)));
    }
    let env = process.open(&options, "/tmp/dir").unwrap();
    let fresh = process.closing_event("/tmp/dir").unwrap();
    assert!(!fresh.wait_timeout(Duration::from_millis(0)));
    assert_eq!(env.path(), b"/tmp/dir");
}

#[test]
fn environments_do_not_touch_each_other() {
    let process = Process::new();
    process.disk.lock().unwrap().insert(b"/tmp/other".to_vec(), BTreeMap::new());
    let options = EnvOpenOptions::new();
    let env = process.open(&options, "/tmp/dir").unwrap();
    let other = process.open(&options, "/tmp/other").unwrap();
    process.prepare_for_closing(env).wait();
    assert!(process.closing_event("/tmp/dir").is_none());
    assert!(process.closing_event("/tmp/other").is_some());
    let again = process.open(&options, "/tmp/other").unwrap();
    assert!(std::ptr::eq(again.resource(), other.resource()));
}

#[test]
fn missing_path_is_an_io_error() {
    let process = Process::new();
    let result = process.open(&EnvOpenOptions::new(), "/tmp/nowhere");
    match result {
        Err(Error::Io(error)) => {
            assert_eq!(error.kind, IoErrorKind::NotFound);
            assert_eq!(error.os_code, Some(2));
            assert_eq!(error.message, "No such file or directory");
        }
        _ => panic!("opened"),
    }
    let mut options = EnvOpenOptions::new();
    options.flag(Flag::NoSubDir);
    let result = process.open(&options, "/nowhere/data.mdb");
    assert!(matches!(result, Err(Error::Io(_))));
}

#[test]
fn map_size_must_fit_the_pages_of_the_system() {
    let process = Process::new();
    let page_size = page_size::get();
    let result = process.open(EnvOpenOptions::new().map_size(page_size + 1), "/tmp/dir");
    match result {
        Err(Error::Io(error)) => {
            assert_eq!(error.kind, IoErrorKind::InvalidInput);
            assert_eq!(error.os_code, None);
            assert_eq!(
                error.message,
                format!(
                    "map size ({}) must be a multiple of the system page size ({})",
                    page_size + 1,
                    page_size
                )
            );
        }
        _ => panic!("opened"),
    }
    assert_eq!(*process.calls.lock().unwrap(), vec![EnvCall::Create]);
    assert!(process.closing_event("/tmp/dir").is_none());
    assert!(process.open(EnvOpenOptions::new().map_size(page_size), "/tmp/dir").is_ok());
}

#[test]
fn failed_open_leaves_the_list_as_it_was() {
    let process = Process::new();
    process.disk.lock().unwrap().insert(b"/tmp/other".to_vec(), BTreeMap::new());
    let options = EnvOpenOptions::new();
    let other = process.open(&options, "/tmp/other").unwrap();

    let result = process.open(EnvOpenOptions::new().max_readers(0), "/tmp/dir");
    assert!(matches!(result, Err(Error::Mdb(error)) if error.code == 22));
    let result = process.open(EnvOpenOptions::new().map_size(1), "/tmp/dir");
    assert!(matches!(result, Err(Error::Io(_))));
    let result = process.open(EnvOpenOptions::new().max_dbs(1), "/tmp/other");
    assert!(matches!(result, Err(Error::BadOpenOptions { .. })));

    assert!(process.closing_event("/tmp/dir").is_none());
    let again = process.open(&options, "/tmp/other").unwrap();
    assert!(std::ptr::eq(again.resource(), other.resource()));
    let env = process.open(EnvOpenOptions::new().max_dbs(7), "/tmp/dir").unwrap();
    assert_eq!(env.path(), b"/tmp/dir");
}

#[test]
fn types_stay_when_the_environment_is_closed() {
    let process = Process::new();
    process.disk.lock().unwrap().insert(b"/tmp/other".to_vec(), BTreeMap::new());
    let env = process.open(EnvOpenOptions::new().max_dbs(10), "/tmp/dir").unwrap();
    let mut uncommitted = Vec::new();
    let mut wtxn = write_txn(&env);
    create_database(&env, &mut wtxn, Some("b"), &mut uncommitted).unwrap();
    create_database(&env, &mut wtxn, Some("a"), &mut uncommitted).unwrap();
    commit(&env, uncommitted);

    process.prepare_for_closing(env).wait();
    let env = process.open(EnvOpenOptions::new().max_dbs(10), "/tmp/dir").unwrap();
    let rtxn = read_txn(&env);
    let result = open_database::<Str, i32>(&env, &rtxn, Some("a"));
    assert!(matches!(result, Err(Error::InvalidDatabaseTyping)));
    let result = open_database::<Str, Str>(&env, &rtxn, Some("a"));
    assert!(matches!(result, Ok(Some(_))));
    // the unnamed database was not opened before
    let result = open_database::<Str, i32>(&env, &rtxn, None);
    assert!(matches!(result, Ok(Some(_))));

    // nor was the database of the same name of another environment
    let other = process.open(EnvOpenOptions::new().max_dbs(10), "/tmp/other").unwrap();
    process
        .disk
        .lock()
        .unwrap()
        .get_mut(&b"/tmp/other".to_vec())
        .unwrap()
        .insert(Some(b"a".to_vec()), BTreeMap::new());
    let rtxn = read_txn(&other);
    let result = open_database::<Str, i32>(&other, &rtxn, Some("a"));
    assert!(matches!(result, Ok(Some(_))));
}

#[test]
fn closing_events_are_found_however_the_path_is_written() {
    let process = Process::new();
    let _env = process.open(&EnvOpenOptions::new(), "/tmp/dir").unwrap();
    for path in ["/tmp/dir", "/tmp/dir/", "//tmp/./dir", "/tmp//dir/."] {
        assert!(process.closing_event(path).is_some(), "{}", path);
    }
    for path in ["tmp/dir", "./tmp/dir", "/tmp", "/tmp/dir/..", "/tmp/dirs", ""] {
        assert!(process.closing_event(path).is_none(), "{}", path);
    }
}
