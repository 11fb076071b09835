//! Opening the databases of an environment, each with the types it was first opened with.
//!
//! A database is known by the path of its environment and by its name. The types that it was
//! first opened with stay for as long as the program runs, although the environment is closed
//! in between.

use crate::bytes::{c_string, copy_of, same_bytes};
use crate::env::Env;
use crate::error::{mdb_result, Error, MdbError};
use crate::flags::MDB_CREATE;
use crate::path::{same_path, PathParts};
use crate::txn::{RoTxn, RwTxn};
use std::any::TypeId;
use std::collections::HashSet;
use std::marker::PhantomData;
use vstd::prelude::*;

verus! {

broadcast use vstd::std_specs::hash::group_hash_axioms;

/// `std::any::TypeId`: the identity of a type.
#[verifier::external_type_specification]
#[verifier::external_body]
pub struct ExTypeId(TypeId);

/// `TypeId::of` returns the identity of a type. What is stated of it is stated where it is
/// called, by [`type_id`].
pub assume_specification<T: ?Sized + 'static>[ TypeId::of::<T> ]() -> (id: TypeId);

/// `id` is what `TypeId::of` returns for the type `T`.
pub open spec fn is_id_of<T: 'static>(id: TypeId) -> bool {
    &&& call_ensures(TypeId::of::<T>, (), id)
    &&& forall|other: TypeId| #[trigger] call_ensures(TypeId::of::<T>, (), other) ==> other == id
}

/// `TypeId::of` returns the identity of a type, which is one and the same in every call for
/// that type. That two types have two identities is not stated: there is no way to say of two
/// type parameters that they differ.
#[verifier::external_body]
fn type_id<T: 'static>() -> (id: TypeId)
    ensures
        is_id_of::<T>(id),
{
    TypeId::of::<T>()
}

/// `TypeId::eq` tells whether two identities are those of one type, that is, whether they are
/// the same.
#[verifier::external_body]
fn same_type(a: &TypeId, b: &TypeId) -> (same: bool)
    ensures
        same == (*a == *b),
{
    a == b
}

/// The type of the database.
#[derive(Debug, Clone, Copy)]
pub enum DatabaseType {
    /// The first state of a database, unknown until an [`open_database`](Env::open_database)
    /// method is called to define the type for the first time.
    UnknownYet,
    /// Defines the types of a [`Database`].
    Typed { key_type: TypeId, data_type: TypeId },
    /// Defines the types of a [`PolyDatabase`].
    Untyped,
}

impl DatabaseType {
    /// The type of a database that is opened with the given codecs.
    pub open spec fn with(types: Option<(TypeId, TypeId)>) -> DatabaseType {
        match types {
            Some((key_type, data_type)) => DatabaseType::Typed { key_type, data_type },
            None => DatabaseType::Untyped,
        }
    }

    /// Whether two databases have the same type.
    fn same(&self, other: &DatabaseType) -> (same: bool)
        ensures
            same == (*self == *other),
    {
        match (self, other) {
            (DatabaseType::UnknownYet, DatabaseType::UnknownYet) => true,
            (
                DatabaseType::Typed { key_type: k1, data_type: d1 },
                DatabaseType::Typed { key_type: k2, data_type: d2 },
            ) => same_type(k1, k2) && same_type(d1, d2),
            (DatabaseType::Untyped, DatabaseType::Untyped) => true,
            _ => false,
        }
    }
}

/// What a database is known by: the path of its environment, and its name if it has one.
pub struct DatabaseKey {
    pub place: PathParts,
    pub name: Option<Seq<u8>>,
}

/// The type of a database.
pub open spec fn type_of(
    types: Map<DatabaseKey, DatabaseType>,
    key: DatabaseKey,
) -> DatabaseType {
    if types.contains_key(key) {
        types[key]
    } else {
        DatabaseType::UnknownYet
    }
}

/// The types of the databases after one was opened with `wanted`: the first type that a
/// database is opened with is the one that it keeps.
pub open spec fn types_after(
    types: Map<DatabaseKey, DatabaseType>,
    key: DatabaseKey,
    wanted: DatabaseType,
) -> Map<DatabaseKey, DatabaseType> {
    if type_of(types, key) is UnknownYet {
        types.insert(key, wanted)
    } else {
        types
    }
}

/// Whether a database can be opened with `wanted`: it was never opened, or with the same.
pub open spec fn types_agree(
    types: Map<DatabaseKey, DatabaseType>,
    key: DatabaseKey,
    wanted: DatabaseType,
) -> bool {
    type_of(types, key) is UnknownYet || type_of(types, key) == wanted
}

/// What opening a database comes to, of which `mdb_dbi_open` returned the given code and stored
/// the given handle: the types that the databases have then, and the handle or the error.
pub open spec fn init_outcome<R>(
    types: Map<DatabaseKey, DatabaseType>,
    key: DatabaseKey,
    code: i32,
    dbi: u32,
    wanted: DatabaseType,
) -> (Map<DatabaseKey, DatabaseType>, Result<u32, Error<R>>) {
    match crate::error::mdb_outcome(code) {
        Err(error) => (types, Err(Error::Mdb(error))),
        Ok(()) => (
            types_after(types, key, wanted),
            if types_agree(types, key, wanted) {
                Ok(dbi)
            } else {
                Err(Error::InvalidDatabaseTyping)
            },
        ),
    }
}

/// The bytes of a name, if there is one.
pub open spec fn bytes_of(name: Option<Vec<u8>>) -> Option<Seq<u8>> {
    match name {
        Some(name) => Some(name@),
        None => None,
    }
}

/// The bytes of a name, if there is one.
pub open spec fn slice_of(name: Option<&[u8]>) -> Option<Seq<u8>> {
    match name {
        Some(name) => Some(name@),
        None => None,
    }
}

/// A database that was opened, and its type.
struct TypeSlot {
    path: Vec<u8>,
    name: Option<Vec<u8>>,
    types: DatabaseType,
}

impl TypeSlot {
    /// What the database is known by.
    spec fn key(self) -> DatabaseKey {
        DatabaseKey { place: crate::path::parts_of(self.path@), name: bytes_of(self.name) }
    }

    /// Whether this is the database with the given name in the environment at the given path.
    fn is_of(&self, path: &[u8], name: Option<&[u8]>) -> (is_of: bool)
        ensures
            is_of == (self.key() == DatabaseKey {
                place: crate::path::parts_of(path@),
                name: slice_of(name),
            }),
    {
        let same_name = match (&self.name, name) {
            (Some(own), Some(name)) => same_bytes(own.as_slice(), name),
            (None, None) => true,
            _ => false,
        };
        same_name && same_path(self.path.as_slice(), path)
    }
}

/// The types of all the databases that were opened in this program run.
pub struct DatabaseTypes {
    slots: Vec<TypeSlot>,
}

impl View for DatabaseTypes {
    type V = Map<DatabaseKey, DatabaseType>;

    /// The types by database.
    closed spec fn view(&self) -> Map<DatabaseKey, DatabaseType> {
        Map::new(
            |key: DatabaseKey| self.lists(key),
            |key: DatabaseKey| self.slots@[self.position(key)].types,
        )
    }
}

impl DatabaseTypes {
    /// Whether some slot is that of the given database.
    spec fn lists(&self, key: DatabaseKey) -> bool {
        exists|i: int| 0 <= i < self.slots@.len() && (#[trigger] self.slots@[i]).key() == key
    }

    /// The slot of the given database.
    spec fn position(&self, key: DatabaseKey) -> int {
        choose|i: int| 0 <= i < self.slots@.len() && (#[trigger] self.slots@[i]).key() == key
    }

    /// No database is listed twice, and what is listed has a type.
    pub closed spec fn wf(&self) -> bool {
        &&& forall|i: int, j: int|
            0 <= i < j < self.slots@.len() ==> (#[trigger] self.slots@[i]).key() != (
            #[trigger] self.slots@[j]).key()
        &&& forall|i: int|
            0 <= i < self.slots@.len() ==> (#[trigger] self.slots@[i]).types !is UnknownYet
    }

    /// A slot is what the table says of the slot's database.
    proof fn lemma_slot(&self, i: int)
        requires
            self.wf(),
            0 <= i < self.slots@.len(),
        ensures
            self@.contains_key(self.slots@[i].key()),
            self@[self.slots@[i].key()] == self.slots@[i].types,
    {
        let j = self.position(self.slots@[i].key());
        assert(self.slots@[j].key() == self.slots@[i].key());
        assert(i == j);
    }

    /// Every listed database has a slot.
    proof fn lemma_listed(&self, key: DatabaseKey) -> (i: int)
        requires
            self@.contains_key(key),
        ensures
            0 <= i < self.slots@.len(),
            self.slots@[i].key() == key,
    {
        self.position(key)
    }

    /// What is listed has a type.
    pub proof fn law_listed_has_a_type(&self, key: DatabaseKey)
        requires
            self.wf(),
            self@.contains_key(key),
        ensures
            self@[key] !is UnknownYet,
    {
        let i = self.lemma_listed(key);
        self.lemma_slot(i);
    }

    /// No database was opened.
    pub fn new() -> (types: Self)
        ensures
            types.wf(),
            types@ == Map::<DatabaseKey, DatabaseType>::empty(),
    {
        let types = DatabaseTypes { slots: Vec::new() };
        assert(types@ =~= Map::<DatabaseKey, DatabaseType>::empty());
        types
    }

    /// The slot of the given database, if there is one.
    fn find(&self, path: &[u8], name: Option<&[u8]>) -> (found: Option<usize>)
        requires
            self.wf(),
        ensures
            ({
                let key = DatabaseKey {
                    place: crate::path::parts_of(path@),
                    name: slice_of(name),
                };
                match found {
                    Some(i) => {
                        &&& i < self.slots@.len()
                        &&& self@.contains_key(key)
                        &&& self@[key] == self.slots@[i as int].types
                        &&& self.slots@[i as int].types !is UnknownYet
                    },
                    None => !self@.contains_key(key),
                }
            }),
    {
        let ghost key = DatabaseKey { place: crate::path::parts_of(path@), name: slice_of(name) };
        for i in 0..self.slots.len()
            invariant
                self.wf(),
                key == (DatabaseKey { place: crate::path::parts_of(path@), name: slice_of(name) }),
                forall|j: int| 0 <= j < i ==> (#[trigger] self.slots@[j]).key() != key,
        {
            if self.slots[i].is_of(path, name) {
                proof {
                    self.lemma_slot(i as int);
                }
                return Some(i);
            }
        }
        None
    }

    /// Lists a database that is not listed.
    fn insert(&mut self, path: &[u8], name: Option<&[u8]>, types: DatabaseType)
        requires
            old(self).wf(),
            !old(self)@.contains_key(
                DatabaseKey { place: crate::path::parts_of(path@), name: slice_of(name) },
            ),
            types !is UnknownYet,
        ensures
            final(self).wf(),
            final(self)@ == old(self)@.insert(
                DatabaseKey { place: crate::path::parts_of(path@), name: slice_of(name) },
                types,
            ),
    {
        let ghost before = *self;
        let ghost key = DatabaseKey { place: crate::path::parts_of(path@), name: slice_of(name) };
        let name_copy = match name {
            Some(name) => Some(copy_of(name)),
            None => None,
        };
        self.slots.push(TypeSlot { path: copy_of(path), name: name_copy, types });
        proof {
            let last = self.slots@.len() - 1;
            assert(self.slots@[last].key() == key);
            assert forall|i: int| 0 <= i < before.slots@.len() implies {
                &&& (#[trigger] self.slots@[i]) == before.slots@[i]
                &&& self.slots@[i].key() != key
            } by {
                before.lemma_slot(i);
            }
            assert(self.wf());
            self.lemma_slot(last);
            assert forall|k: DatabaseKey| k != key implies {
                &&& #[trigger] self@.dom().contains(k) == before@.contains_key(k)
                &&& before@.contains_key(k) ==> self@[k] == before@[k]
            } by {
                if before@.contains_key(k) {
                    let i = before.lemma_listed(k);
                    before.lemma_slot(i);
                    assert(self.slots@[i] == before.slots@[i]);
                    self.lemma_slot(i);
                }
                if self@.contains_key(k) {
                    let i = self.lemma_listed(k);
                    assert(before.slots@[i].key() == k);
                    before.lemma_slot(i);
                }
            }
            assert(self@ =~= before@.insert(key, types));
        }
    }

    /// Opens the database with the given name in the environment at the given path, of which
    /// `mdb_dbi_open` returned the given code and stored the given handle, with the given
    /// types: they become the database's types when it has none yet, and have to be the
    /// database's types when it has some.
    pub fn raw_init_database<R>(
        &mut self,
        path: &[u8],
        name: Option<&[u8]>,
        code: i32,
        dbi: u32,
        types: Option<(TypeId, TypeId)>,
    ) -> (opened: Result<u32, Error<R>>)
        requires
            old(self).wf(),
        ensures
            final(self).wf(),
            (final(self)@, opened) == init_outcome::<R>(
                old(self)@,
                DatabaseKey { place: crate::path::parts_of(path@), name: slice_of(name) },
                code,
                dbi,
                DatabaseType::with(types),
            ),
    {
        match mdb_result(code) {
            Ok(()) => {
                let types = match types {
                    Some((key_type, data_type)) => DatabaseType::Typed { key_type, data_type },
                    None => DatabaseType::Untyped,
                };
                match self.find(path, name) {
                    Some(i) => {
                        if self.slots[i].types.same(&types) {
                            Ok(dbi)
                        } else {
                            Err(Error::InvalidDatabaseTyping)
                        }
                    },
                    None => {
                        self.insert(path, name, types);
                        Ok(dbi)
                    },
                }
            },
            Err(error) => Err(Error::Mdb(error)),
        }
    }
}

/// The handles of the databases that were opened in one opening of an environment,
/// mathematically.
#[verifier::ext_equal]
pub struct Handles {
    /// The address of the environment.
    pub env: usize,
    pub dbis: Set<u32>,
}

impl Handles {
    /// The handles after `mdb_dbi_open` returned the given code and stored the given handle.
    pub open spec fn after(self, code: i32, dbi: u32) -> Handles {
        match crate::error::mdb_outcome(code) {
            Ok(()) => Handles { dbis: self.dbis.insert(dbi), ..self },
            Err(_) => self,
        }
    }
}

/// The handles of the databases that were opened in one opening of an environment. LMDB
/// numbers the handles anew when an environment is closed and opened again.
pub struct OpenedDatabases {
    env: usize,
    dbis: HashSet<u32>,
}

impl View for OpenedDatabases {
    type V = Handles;

    closed spec fn view(&self) -> Handles {
        Handles { env: self.env, dbis: self.dbis@ }
    }
}

impl OpenedDatabases {
    /// No database was opened in the environment at the given address.
    pub fn new(env: usize) -> (databases: Self)
        ensures
            databases@ == (Handles { env, dbis: Set::empty() }),
    {
        OpenedDatabases { env, dbis: HashSet::new() }
    }

    /// The address of the environment.
    pub fn env(&self) -> (env: usize)
        ensures
            env == self@.env,
    {
        self.env
    }

    /// Whether the database with the given handle was opened.
    pub fn contains(&self, dbi: u32) -> (contains: bool)
        ensures
            contains == self@.dbis.contains(dbi),
    {
        self.dbis.contains(&dbi)
    }

    /// Keeps the handle that `mdb_dbi_open` stored, if it returned with success.
    fn keep(&mut self, code: i32, dbi: u32)
        ensures
            final(self)@ == old(self)@.after(code, dbi),
    {
        if let Ok(()) = mdb_result(code) {
            self.dbis.insert(dbi);
        }
    }
}

/// A call of `mdb_dbi_open`.
#[derive(Debug)]
pub struct DbiOpen {
    /// The address of the transaction.
    pub txn: usize,
    /// The name of the database as C takes it, or `None` for the unnamed one.
    pub name: Option<Vec<u8>>,
    pub flags: u32,
}

impl DbiOpen {
    /// The call is for the database with the given name.
    pub open spec fn asks(self, txn: usize, name: Option<Seq<u8>>, flags: u32) -> bool {
        &&& self.txn == txn
        &&& self.flags == flags
        &&& match name {
            Some(name) => self.name is Some && self.name->0@ == name.push(0u8),
            None => self.name is None,
        }
    }
}

/// The bytes of a database's name.
pub open spec fn name_bytes(name: Option<&str>) -> Option<Seq<u8>> {
    match name {
        Some(name) => Some(vstd::utf8::encode_utf8(name@)),
        None => None,
    }
}

/// Whether C can take a name: it takes a NUL for the name's end.
pub open spec fn is_c_name(name: Option<&str>) -> bool {
    name_bytes(name) is Some ==> !name_bytes(name)->0.contains(0u8)
}

/// The call that opens the handle of a database.
pub(crate) fn raw_open_dbi(txn: usize, name: Option<&str>, flags: u32) -> (call: DbiOpen)
    requires
        is_c_name(name),
    ensures
        call.asks(txn, name_bytes(name), flags),
{
    let name = match name {
        Some(name) => Some(c_string(name.as_bytes())),
        None => None,
    };
    DbiOpen { txn, name, flags }
}

/// What the return code of `mdb_dbi_open` and the handle that it stored say.
pub(crate) fn raw_opened_dbi(code: i32, dbi: u32) -> (opened: Result<u32, MdbError>)
    ensures
        opened == match crate::error::mdb_outcome(code) {
            Ok(()) => Ok::<u32, MdbError>(dbi),
            Err(error) => Err(error),
        },
{
    match mdb_result(code) {
        Ok(()) => Ok(dbi),
        Err(error) => Err(error),
    }
}

/// A database whose keys and values have the codecs `KC` and `DC`.
#[derive(Debug)]
pub struct Database<KC, DC> {
    env_ident: usize,
    dbi: u32,
    marker: PhantomData<(KC, DC)>,
}

impl<KC, DC> Database<KC, DC> {
    /// The address of the environment that the database belongs to.
    pub closed spec fn env(self) -> usize {
        self.env_ident
    }

    /// The handle of the database.
    pub closed spec fn handle(self) -> u32 {
        self.dbi
    }

    /// A database of the environment at the given address.
    fn new(env_ident: usize, dbi: u32) -> (database: Self)
        ensures
            database.env() == env_ident,
            database.handle() == dbi,
    {
        Database { env_ident, dbi, marker: PhantomData }
    }

    /// The address of the environment that the database belongs to.
    pub fn env_ident(&self) -> (env_ident: usize)
        ensures
            env_ident == self.env(),
    {
        self.env_ident
    }

    /// The handle of the database.
    pub fn dbi(&self) -> (dbi: u32)
        ensures
            dbi == self.handle(),
    {
        self.dbi
    }
}

/// A database whose keys and values get their codecs with each access.
#[derive(Debug)]
pub struct PolyDatabase {
    env_ident: usize,
    dbi: u32,
}

impl PolyDatabase {
    /// The address of the environment that the database belongs to.
    pub closed spec fn env(self) -> usize {
        self.env_ident
    }

    /// The handle of the database.
    pub closed spec fn handle(self) -> u32 {
        self.dbi
    }

    /// A database of the environment at the given address.
    fn new(env_ident: usize, dbi: u32) -> (database: Self)
        ensures
            database.env() == env_ident,
            database.handle() == dbi,
    {
        PolyDatabase { env_ident, dbi }
    }

    /// The address of the environment that the database belongs to.
    pub fn env_ident(&self) -> (env_ident: usize)
        ensures
            env_ident == self.env(),
    {
        self.env_ident
    }

    /// The handle of the database.
    pub fn dbi(&self) -> (dbi: u32)
        ensures
            dbi == self.handle(),
    {
        self.dbi
    }
}

/// A database that LMDB is asked to open.
#[derive(Debug)]
pub struct DatabaseRequest {
    /// The address of the environment.
    pub env: usize,
    /// The path of the environment.
    pub path: Vec<u8>,
    /// The name of the database, or `None` for the unnamed one.
    pub name: Option<Vec<u8>>,
    /// The call that opens the handle of the database.
    pub call: DbiOpen,
}

impl DatabaseRequest {
    /// What the database is known by.
    pub open spec fn key(self) -> DatabaseKey {
        DatabaseKey { place: crate::path::parts_of(self.path@), name: bytes_of(self.name) }
    }

    /// The database with the given name is asked for, in the given environment and
    /// transaction.
    pub open spec fn asks<R>(
        self,
        env: Env<R>,
        txn: usize,
        name: Option<&str>,
        flags: u32,
    ) -> bool {
        &&& self.env == env.address()
        &&& self.path@ == env.location()
        &&& bytes_of(self.name) == name_bytes(name)
        &&& self.call.asks(txn, name_bytes(name), flags)
    }

    /// Asks for the database with the given name.
    fn new<R>(env: &Env<R>, txn: usize, name: Option<&str>, flags: u32) -> (request: Self)
        requires
            is_c_name(name),
        ensures
            request.asks(*env, txn, name, flags),
    {
        let call = raw_open_dbi(txn, name, flags);
        let name = match name {
            Some(name) => Some(copy_of(name.as_bytes())),
            None => None,
        };
        DatabaseRequest { env: env.env_mut_ptr(), path: copy_of(env.path()), name, call }
    }

    /// Opens the database with the given types, once the call returned with the given code and
    /// stored the given handle.
    fn init<R>(
        &self,
        types: &mut DatabaseTypes,
        databases: &mut OpenedDatabases,
        code: i32,
        dbi: u32,
        wanted: Option<(TypeId, TypeId)>,
    ) -> (opened: Result<u32, Error<R>>)
        requires
            old(types).wf(),
        ensures
            final(types).wf(),
            final(databases)@ == old(databases)@.after(code, dbi),
            (final(types)@, opened) == init_outcome::<R>(
                old(types)@,
                self.key(),
                code,
                dbi,
                DatabaseType::with(wanted),
            ),
    {
        databases.keep(code, dbi);
        let name = match &self.name {
            Some(name) => Some(name.as_slice()),
            None => None,
        };
        types.raw_init_database(self.path.as_slice(), name, code, dbi, wanted)
    }
}

/// A typed database that is being opened.
#[derive(Debug)]
pub struct DatabaseOpening<KC, DC> {
    request: DatabaseRequest,
    types: (TypeId, TypeId),
    marker: PhantomData<(KC, DC)>,
}

impl<KC, DC> DatabaseOpening<KC, DC> {
    /// What LMDB is asked for.
    pub closed spec fn request(self) -> DatabaseRequest {
        self.request
    }

    /// The types of the codecs.
    pub closed spec fn types(self) -> (TypeId, TypeId) {
        self.types
    }

    /// The types of the codecs are the identities of `KC` and `DC`.
    pub open spec fn is_of_its_types(self) -> bool where KC: 'static, DC: 'static {
        &&& is_id_of::<KC>(self.types().0)
        &&& is_id_of::<DC>(self.types().1)
    }

    /// A database that is to be opened with the types of its codecs.
    fn new(request: DatabaseRequest) -> (opening: Self) where KC: 'static, DC: 'static
        ensures
            opening.request() == request,
            opening.is_of_its_types(),
    {
        DatabaseOpening {
            request,
            types: (type_id::<KC>(), type_id::<DC>()),
            marker: PhantomData,
        }
    }

    /// The call that opens the handle of the database.
    pub fn call(&self) -> (call: &DbiOpen)
        ensures
            *call == self.request().call,
    {
        &self.request.call
    }

    /// The database, if it exists, once the call returned with the given code and stored the
    /// given handle.
    pub fn opened<R>(
        self,
        types: &mut DatabaseTypes,
        databases: &mut OpenedDatabases,
        code: i32,
        dbi: u32,
    ) -> (opened: Result<Option<Database<KC, DC>>, Error<R>>)
        requires
            old(types).wf(),
            old(databases)@.env == self.request().env,
        ensures
            final(types).wf(),
            final(databases)@ == old(databases)@.after(code, dbi),
            ({
                let (after, outcome) = init_outcome::<R>(
                    old(types)@,
                    self.request().key(),
                    code,
                    dbi,
                    DatabaseType::with(Some(self.types())),
                );
                &&& final(types)@ == after
                &&& match outcome {
                    Ok(dbi) => {
                        &&& opened matches Ok(Some(database))
                        &&& database.env() == self.request().env
                        &&& database.handle() == dbi
                    },
                    Err(Error::Mdb(error)) if error.code == crate::error::MDB_NOTFOUND => opened matches Ok(
                        None,
                    ),
                    Err(error) => opened == Err::<Option<Database<KC, DC>>, Error<R>>(error),
                }
            }),
            code == -30798 ==> opened == Ok::<Option<Database<KC, DC>>, Error<R>>(None),
            code != 0 && code != -30798 ==> opened == Err::<Option<Database<KC, DC>>, Error<R>>(
                Error::Mdb(MdbError { code }),
            ),
            opened matches Ok(Some(database)) ==> code == 0 && database.handle() == dbi,
    {
        match self.request.init(types, databases, code, dbi, Some(self.types)) {
            Ok(dbi) => Ok(Some(Database::new(self.request.env, dbi))),
            Err(Error::Mdb(error)) => if error.not_found() {
                Ok(None)
            } else {
                Err(Error::Mdb(error))
            },
            Err(error) => Err(error),
        }
    }
}

/// A typed database that is being created.
#[derive(Debug)]
pub struct DatabaseCreation<KC, DC> {
    request: DatabaseRequest,
    types: (TypeId, TypeId),
    marker: PhantomData<(KC, DC)>,
}

impl<KC, DC> DatabaseCreation<KC, DC> {
    /// What LMDB is asked for.
    pub closed spec fn request(self) -> DatabaseRequest {
        self.request
    }

    /// The types of the codecs.
    pub closed spec fn types(self) -> (TypeId, TypeId) {
        self.types
    }

    /// The types of the codecs are the identities of `KC` and `DC`.
    pub open spec fn is_of_its_types(self) -> bool where KC: 'static, DC: 'static {
        &&& is_id_of::<KC>(self.types().0)
        &&& is_id_of::<DC>(self.types().1)
    }

    /// A database that is to be created with the types of its codecs.
    fn new(request: DatabaseRequest) -> (opening: Self) where KC: 'static, DC: 'static
        ensures
            opening.request() == request,
            opening.is_of_its_types(),
    {
        DatabaseCreation {
            request,
            types: (type_id::<KC>(), type_id::<DC>()),
            marker: PhantomData,
        }
    }

    /// The call that opens the handle of the database.
    pub fn call(&self) -> (call: &DbiOpen)
        ensures
            *call == self.request().call,
    {
        &self.request.call
    }

    /// The database, once the call returned with the given code and stored the
    /// given handle.
    pub fn created<R>(
        self,
        types: &mut DatabaseTypes,
        databases: &mut OpenedDatabases,
        code: i32,
        dbi: u32,
    ) -> (created: Result<Database<KC, DC>, Error<R>>)
        requires
            old(types).wf(),
            old(databases)@.env == self.request().env,
        ensures
            final(types).wf(),
            final(databases)@ == old(databases)@.after(code, dbi),
            ({
                let (after, outcome) = init_outcome::<R>(
                    old(types)@,
                    self.request().key(),
                    code,
                    dbi,
                    DatabaseType::with(Some(self.types())),
                );
                &&& final(types)@ == after
                &&& match outcome {
                    Ok(dbi) => {
                        &&& created matches Ok(database)
                        &&& database.env() == self.request().env
                        &&& database.handle() == dbi
                    },
                    Err(error) => created == Err::<Database<KC, DC>, Error<R>>(error),
                }
            }),
            code != 0 ==> created == Err::<Database<KC, DC>, Error<R>>(
                Error::Mdb(MdbError { code }),
            ),
            created matches Ok(database) ==> code == 0 && database.handle() == dbi,
    {
        match self.request.init(types, databases, code, dbi, Some(self.types)) {
            Ok(dbi) => Ok(Database::new(self.request.env, dbi)),
            Err(error) => Err(error),
        }
    }
}

/// An untyped database that is being opened.
#[derive(Debug)]
pub struct PolyDatabaseOpening {
    request: DatabaseRequest,
}

impl PolyDatabaseOpening {
    /// What LMDB is asked for.
    pub closed spec fn request(self) -> DatabaseRequest {
        self.request
    }

    /// The call that opens the handle of the database.
    pub fn call(&self) -> (call: &DbiOpen)
        ensures
            *call == self.request().call,
    {
        &self.request.call
    }

    /// The database, if it exists, once the call returned with the given code and stored the
    /// given handle.
    pub fn opened<R>(
        self,
        types: &mut DatabaseTypes,
        databases: &mut OpenedDatabases,
        code: i32,
        dbi: u32,
    ) -> (opened: Result<Option<PolyDatabase>, Error<R>>)
        requires
            old(types).wf(),
            old(databases)@.env == self.request().env,
        ensures
            final(types).wf(),
            final(databases)@ == old(databases)@.after(code, dbi),
            ({
                let (after, outcome) = init_outcome::<R>(
                    old(types)@,
                    self.request().key(),
                    code,
                    dbi,
                    DatabaseType::Untyped,
                );
                &&& final(types)@ == after
                &&& match outcome {
                    Ok(dbi) => {
                        &&& opened matches Ok(Some(database))
                        &&& database.env() == self.request().env
                        &&& database.handle() == dbi
                    },
                    Err(Error::Mdb(error)) if error.code == crate::error::MDB_NOTFOUND => opened matches Ok(
                        None,
                    ),
                    Err(error) => opened == Err::<Option<PolyDatabase>, Error<R>>(error),
                }
            }),
            code == -30798 ==> opened == Ok::<Option<PolyDatabase>, Error<R>>(None),
            code != 0 && code != -30798 ==> opened == Err::<Option<PolyDatabase>, Error<R>>(
                Error::Mdb(MdbError { code }),
            ),
            opened matches Ok(Some(database)) ==> code == 0 && database.handle() == dbi,
    {
        match self.request.init(types, databases, code, dbi, None) {
            Ok(dbi) => Ok(Some(PolyDatabase::new(self.request.env, dbi))),
            Err(Error::Mdb(error)) => if error.not_found() {
                Ok(None)
            } else {
                Err(Error::Mdb(error))
            },
            Err(error) => Err(error),
        }
    }
}

/// An untyped database that is being created.
#[derive(Debug)]
pub struct PolyDatabaseCreation {
    request: DatabaseRequest,
}

impl PolyDatabaseCreation {
    /// What LMDB is asked for.
    pub closed spec fn request(self) -> DatabaseRequest {
        self.request
    }

    /// The call that opens the handle of the database.
    pub fn call(&self) -> (call: &DbiOpen)
        ensures
            *call == self.request().call,
    {
        &self.request.call
    }

    /// The database, once the call returned with the given code and stored the
    /// given handle.
    pub fn created<R>(
        self,
        types: &mut DatabaseTypes,
        databases: &mut OpenedDatabases,
        code: i32,
        dbi: u32,
    ) -> (created: Result<PolyDatabase, Error<R>>)
        requires
            old(types).wf(),
            old(databases)@.env == self.request().env,
        ensures
            final(types).wf(),
            final(databases)@ == old(databases)@.after(code, dbi),
            ({
                let (after, outcome) = init_outcome::<R>(
                    old(types)@,
                    self.request().key(),
                    code,
                    dbi,
                    DatabaseType::Untyped,
                );
                &&& final(types)@ == after
                &&& match outcome {
                    Ok(dbi) => {
                        &&& created matches Ok(database)
                        &&& database.env() == self.request().env
                        &&& database.handle() == dbi
                    },
                    Err(error) => created == Err::<PolyDatabase, Error<R>>(error),
                }
            }),
            code != 0 ==> created == Err::<PolyDatabase, Error<R>>(Error::Mdb(MdbError { code })),
            created matches Ok(database) ==> code == 0 && database.handle() == dbi,
    {
        match self.request.init(types, databases, code, dbi, None) {
            Ok(dbi) => Ok(PolyDatabase::new(self.request.env, dbi)),
            Err(error) => Err(error),
        }
    }
}

impl<R> Env<R> {
    /// Opens a typed database that already exists in this environment.
    ///
    /// If the database was previously opened in this program run, types will be checked.
    ///
    /// ## Important Information
    ///
    /// LMDB have an important restriction on the unnamed database when named ones are opened,
    /// the names of the named databases are stored as keys in the unnamed one and are immutable,
    /// these keys can only be read and not written.
    pub fn open_database<KC, DC>(
        &self,
        rtxn: &RoTxn,
        name: Option<&str>,
    ) -> (opening: DatabaseOpening<KC, DC>) where KC: 'static, DC: 'static
        requires
            self.address() == rtxn.env(),
            is_c_name(name),
        ensures
            opening.request().asks(*self, rtxn.address(), name, 0),
            opening.is_of_its_types(),
    {
        DatabaseOpening::new(DatabaseRequest::new(self, rtxn.txn_mut_ptr(), name, 0))
    }

    /// Opens an untyped database that already exists in this environment.
    ///
    /// If the database was previously opened as a typed one, an error will be returned.
    ///
    /// ## Important Information
    ///
    /// LMDB have an important restriction on the unnamed database when named ones are opened,
    /// the names of the named databases are stored as keys in the unnamed one and are immutable,
    /// these keys can only be read and not written.
    pub fn open_poly_database(&self, rtxn: &RoTxn, name: Option<&str>) -> (opening:
        PolyDatabaseOpening)
        requires
            self.address() == rtxn.env(),
            is_c_name(name),
        ensures
            opening.request().asks(*self, rtxn.address(), name, 0),
    {
        PolyDatabaseOpening {
            request: DatabaseRequest::new(self, rtxn.txn_mut_ptr(), name, 0),
        }
    }

    /// Creates a typed database that can already exist in this environment.
    ///
    /// If the database was previously opened in this program run, types will be checked.
    ///
    /// ## Important Information
    ///
    /// LMDB have an important restriction on the unnamed database when named ones are opened,
    /// the names of the named databases are stored as keys in the unnamed one and are immutable,
    /// these keys can only be read and not written.
    pub fn create_database<KC, DC>(
        &self,
        wtxn: &mut RwTxn,
        name: Option<&str>,
    ) -> (creation: DatabaseCreation<KC, DC>) where KC: 'static, DC: 'static
        requires
            self.address() == old(wtxn).env(),
            is_c_name(name),
        ensures
            *final(wtxn) == *old(wtxn),
            creation.request().asks(*self, old(wtxn).address(), name, MDB_CREATE),
            creation.is_of_its_types(),
    {
        DatabaseCreation::new(DatabaseRequest::new(self, wtxn.txn_mut_ptr(), name, MDB_CREATE))
    }

    /// Creates an untyped database that can already exist in this environment.
    ///
    /// If the database was previously opened as a typed one, an error will be returned.
    ///
    /// ## Important Information
    ///
    /// LMDB have an important restriction on the unnamed database when named ones are opened,
    /// the names of the named databases are stored as keys in the unnamed one and are immutable,
    /// these keys can only be read and not written.
    pub fn create_poly_database(&self, wtxn: &mut RwTxn, name: Option<&str>) -> (creation:
        PolyDatabaseCreation)
        requires
            self.address() == old(wtxn).env(),
            is_c_name(name),
        ensures
            *final(wtxn) == *old(wtxn),
            creation.request().asks(*self, old(wtxn).address(), name, MDB_CREATE),
    {
        PolyDatabaseCreation {
            request: DatabaseRequest::new(self, wtxn.txn_mut_ptr(), name, MDB_CREATE),
        }
    }
}

} // verus!
