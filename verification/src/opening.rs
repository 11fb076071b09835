//! Opening an environment.
//!
//! An environment that is listed already is handed out again, or refused. One that is not
//! is opened by a run of LMDB calls: [`EnvOpenOptions::open`] plans them, the caller makes
//! them one by one and hands their return codes to [`Opening::reply`], and
//! [`OpenedEnvs::finish_open`] lists what came of them.

use crate::bytes::c_string;
use crate::env::Env;
use crate::error::{mdb_result, Error, IoError, IoErrorKind};
use crate::event::{ClosingEvent, ListedEvent};
use crate::flags::Flag;
use crate::message::complain_of_map_size;
use crate::options::EnvOpenOptions;
use crate::path::PathParts;
use crate::registry::{EnvEntry, OpenedEnvs};
use crate::share::Shared;
use synchronoise::event::SignalEvent;
use vstd::prelude::*;

verus! {

/// The access rights of the files that LMDB creates.
pub const FILE_MODE: u32 = 0o600;

/// `page_size::get` asks the operating system for the size of its memory pages. Nothing is
/// stated of the result: it is the machine's.
pub assume_specification[ page_size::get ]() -> (page_size: usize);

/// A call that takes part in opening an environment.
#[derive(Debug, Clone, Copy, PartialEq, Eq, Structural)]
pub enum EnvCall {
    /// `mdb_env_create`.
    Create,
    /// `mdb_env_set_mapsize`.
    SetMapSize(usize),
    /// `mdb_env_set_maxreaders`.
    SetMaxReaders(u32),
    /// `mdb_env_set_maxdbs`.
    SetMaxDbs(u32),
    /// `mdb_env_open`, at the path of the environment.
    Open { flags: u32, mode: u32 },
}

/// Whether `size` is a multiple of `unit`.
pub open spec fn multiple_of(size: usize, unit: usize) -> bool {
    if unit == 0 {
        size == 0
    } else {
        size % unit == 0
    }
}

/// Whether `size` is a multiple of `unit`.
fn is_multiple_of(size: usize, unit: usize) -> (multiple: bool)
    ensures
        multiple == multiple_of(size, unit),
        unit > 0 ==> (multiple <==> size % unit == 0),
{
    if unit == 0 {
        size == 0
    } else {
        size % unit == 0
    }
}

/// Whether the map size asked for does not fit pages of the given size.
pub open spec fn map_size_refused(options: EnvOpenOptions, page_size: usize) -> bool {
    options.map_size is Some && !multiple_of(options.map_size->0, page_size)
}

/// The flags that LMDB is given. When read transactions may move between threads, LMDB must
/// not keep their reader slots in thread local storage.
pub open spec fn lmdb_flags(options: EnvOpenOptions, sync_read_txn: bool) -> u32 {
    if sync_read_txn {
        options.flags | Flag::NoTls.bits()
    } else {
        options.flags
    }
}

/// The call that sets an option, if the option was given.
pub open spec fn if_given<T>(option: Option<T>, call: spec_fn(T) -> EnvCall) -> Seq<EnvCall> {
    match option {
        Some(value) => seq![call(value)],
        None => seq![],
    }
}

/// The calls that open an environment, in order. When the map size is refused, the
/// environment is created and goes no further.
pub open spec fn planned_calls(
    options: EnvOpenOptions,
    page_size: usize,
    sync_read_txn: bool,
) -> Seq<EnvCall> {
    if map_size_refused(options, page_size) {
        seq![EnvCall::Create]
    } else {
        seq![EnvCall::Create] + if_given(options.map_size, |size| EnvCall::SetMapSize(size))
            + if_given(options.max_readers, |readers| EnvCall::SetMaxReaders(readers)) + if_given(
            options.max_dbs,
            |dbs| EnvCall::SetMaxDbs(dbs),
        ) + seq![EnvCall::Open { flags: lmdb_flags(options, sync_read_txn), mode: FILE_MODE }]
    }
}

/// An environment that is being opened.
pub struct Opening {
    path: Vec<u8>,
    options: EnvOpenOptions,
    calls: Vec<EnvCall>,
    made: usize,
    refusal: Option<IoError>,
}

impl Opening {
    /// The bytes of the path where the environment will live.
    pub closed spec fn location(self) -> Seq<u8> {
        self.path@
    }

    /// The options that it is opened with.
    pub closed spec fn options(self) -> EnvOpenOptions {
        self.options
    }

    /// The calls that open it.
    pub closed spec fn calls(self) -> Seq<EnvCall> {
        self.calls@
    }

    /// How many of the calls succeeded already.
    pub closed spec fn made(self) -> int {
        self.made as int
    }

    /// The error that it ends with although every call succeeds.
    pub closed spec fn refusal(self) -> Option<IoError> {
        self.refusal
    }

    /// There is a call to make, and the path can be handed to C.
    pub closed spec fn wf(self) -> bool {
        &&& self.made < self.calls@.len()
        &&& !self.path@.contains(0u8)
    }

    /// There is a call to make.
    pub proof fn lemma_unfinished(self)
        requires
            self.wf(),
        ensures
            0 <= self.made() < self.calls().len(),
    {
    }

    /// Nothing but the planned calls is between the options and the environment.
    pub open spec fn is_planned(
        self,
        path: Seq<u8>,
        options: EnvOpenOptions,
        page_size: usize,
        sync_read_txn: bool,
    ) -> bool {
        &&& self.wf()
        &&& self.location() == path
        &&& self.options() == options
        &&& self.calls() == planned_calls(options, page_size, sync_read_txn)
        &&& self.made() == 0
        &&& match self.refusal() {
            Some(error) => {
                &&& map_size_refused(options, page_size)
                &&& error.kind == IoErrorKind::InvalidInput
                &&& error.os_code is None
                &&& error.message@ == crate::message::map_size_complaint(
                    options.map_size->0 as nat,
                    page_size as nat,
                )
            },
            None => !map_size_refused(options, page_size),
        }
    }

    /// `next` is this opening, one call further.
    pub open spec fn advances_to(self, next: Opening) -> bool {
        &&& next.wf()
        &&& next.location() == self.location()
        &&& next.options() == self.options()
        &&& next.calls() == self.calls()
        &&& next.made() == self.made() + 1
        &&& next.refusal() == self.refusal()
    }

    /// `progress` is what becomes of this opening when the next call returns with `code`.
    pub open spec fn replied<R>(self, code: i32, progress: OpenProgress<R>) -> bool {
        match crate::error::mdb_outcome(code) {
            Err(error) => progress == (OpenProgress::<R>::Failed {
                error: Error::Mdb(error),
                close: self.calls()[self.made()] is Open,
            }),
            Ok(()) => if self.made() + 1 < self.calls().len() {
                progress matches OpenProgress::Call(next) && self.advances_to(next)
            } else {
                match self.refusal() {
                    Some(error) => progress == (OpenProgress::<R>::Failed {
                        error: Error::Io(error),
                        close: false,
                    }),
                    None => {
                        &&& progress matches OpenProgress::Created(created)
                        &&& created.location() == self.location()
                        &&& created.options() == self.options()
                    },
                }
            },
        }
    }

    /// The call to make next.
    pub fn next_call(&self) -> (call: EnvCall)
        requires
            self.wf(),
        ensures
            0 <= self.made() < self.calls().len(),
            call == self.calls()[self.made()],
    {
        self.calls[self.made]
    }

    /// The path where the environment will live, as C takes it.
    pub fn c_path(&self) -> (path: Vec<u8>)
        requires
            self.wf(),
        ensures
            path@ == self.location().push(0u8),
    {
        c_string(self.path.as_slice())
    }

    /// What to do once the next call returned with the given code.
    pub fn reply<R>(self, code: i32) -> (progress: OpenProgress<R>)
        requires
            self.wf(),
        ensures
            self.replied(code, progress),
    {
        if let Err(error) = mdb_result(code) {
            let close = match self.calls[self.made] {
                EnvCall::Open { .. } => true,
                _ => false,
            };
            return OpenProgress::Failed { error: Error::Mdb(error), close };
        }
        if self.calls.len() - self.made > 1 {
            return OpenProgress::Call(Opening { made: self.made + 1, ..self });
        }
        match self.refusal {
            Some(error) => OpenProgress::Failed { error: Error::Io(error), close: false },
            None => OpenProgress::Created(
                CreatedEnv { path: self.path, options: self.options },
            ),
        }
    }
}

/// An environment that LMDB has opened and that is not listed yet.
pub struct CreatedEnv {
    path: Vec<u8>,
    options: EnvOpenOptions,
}

impl CreatedEnv {
    /// The bytes of the path where the environment lives.
    pub closed spec fn location(self) -> Seq<u8> {
        self.path@
    }

    /// What that path is made of.
    pub open spec fn place(self) -> PathParts {
        crate::path::parts_of(self.location())
    }

    /// The options that it was opened with.
    pub closed spec fn options(self) -> EnvOpenOptions {
        self.options
    }

    /// The path where the environment lives.
    pub fn path(&self) -> (path: &[u8])
        ensures
            path@ == self.location(),
    {
        self.path.as_slice()
    }
}

/// An environment that LMDB has opened, with its address and with what owns it.
pub struct NewEnv<R> {
    pub created: CreatedEnv,
    pub env: usize,
    pub resource: R,
}

/// Where the opening of an environment has got to.
pub enum OpenProgress<R> {
    /// There is another call to make.
    Call(Opening),
    /// The environment is open.
    Created(CreatedEnv),
    /// Opening failed. `close` tells whether `mdb_env_close` is to be called: it is after
    /// `mdb_env_open` failed, and only then. When the map size is refused, or an option cannot
    /// be set, the environment of LMDB that was created stays behind and is not closed.
    Failed { error: Error<R>, close: bool },
}

/// How an environment comes to be open.
pub enum Open<R> {
    /// It is open already: here is a handle.
    Ready(Env<R>),
    /// It is not to be had.
    Refused(Error<R>),
    /// LMDB has to open it.
    Create(Opening),
}

/// What becomes of opening an environment that is listed already.
pub open spec fn open_listed<R>(entry: EnvEntry<R>, options: EnvOpenOptions) -> Open<R> {
    match entry.env {
        None => Open::Refused(Error::DatabaseClosing),
        Some(env) => if entry.options == options {
            Open::Ready(env)
        } else {
            Open::Refused(Error::BadOpenOptions { env, options: entry.options })
        },
    }
}

/// Where an environment will live.
pub enum ResolvedPath {
    /// At this path.
    At(Vec<u8>),
    /// At `file_name` in `dir`, of which the canonical path is to be found out.
    In { dir: Vec<u8>, file_name: Vec<u8> },
    /// Nowhere.
    Failed(IoError),
}

impl EnvOpenOptions {
    /// Decides where an environment will live: at the canonical path if there is one. When
    /// nothing exists at the path and the environment is to be a file and not a directory,
    /// LMDB will create that file, and its directory has to exist instead.
    ///
    /// `split` is the path's parent and its file name, if it has both.
    pub fn resolve_path(
        &self,
        canonical: Result<Vec<u8>, IoError>,
        split: Option<(Vec<u8>, Vec<u8>)>,
    ) -> (resolved: ResolvedPath)
        ensures
            resolved == match canonical {
                Ok(path) => ResolvedPath::At(path),
                Err(error) => match split {
                    Some((dir, file_name)) if error.kind == IoErrorKind::NotFound
                        && crate::flags::flag_set(
                        self.flags,
                        Flag::NoSubDir,
                    ) => ResolvedPath::In { dir, file_name },
                    _ => ResolvedPath::Failed(error),
                },
            },
    {
        match canonical {
            Err(error) => {
                if error.kind == IoErrorKind::NotFound && self.flags & Flag::NoSubDir.bits() != 0 {
                    match split {
                        Some((dir, file_name)) => ResolvedPath::In { dir, file_name },
                        None => ResolvedPath::Failed(error),
                    }
                } else {
                    ResolvedPath::Failed(error)
                }
            },
            Ok(path) => ResolvedPath::At(path),
        }
    }

    /// Plans the calls that open an environment on a system with pages of the given size.
    pub fn plan(&self, path: Vec<u8>, page_size: usize, sync_read_txn: bool) -> (opening: Opening)
        requires
            !path@.contains(0u8),
        ensures
            opening.is_planned(path@, *self, page_size, sync_read_txn),
    {
        let mut calls: Vec<EnvCall> = Vec::new();
        calls.push(EnvCall::Create);
        if let Some(size) = self.map_size {
            if !is_multiple_of(size, page_size) {
                let error = IoError {
                    kind: IoErrorKind::InvalidInput,
                    os_code: None,
                    message: complain_of_map_size(size, page_size),
                };
                return Opening {
                    path,
                    options: self.clone(),
                    calls,
                    made: 0,
                    refusal: Some(error),
                };
            }
            calls.push(EnvCall::SetMapSize(size));
        }
        if let Some(readers) = self.max_readers {
            calls.push(EnvCall::SetMaxReaders(readers));
        }
        if let Some(dbs) = self.max_dbs {
            calls.push(EnvCall::SetMaxDbs(dbs));
        }
        let flags: u32 = if sync_read_txn {
            self.flags | Flag::NoTls.bits()
        } else {
            self.flags
        };
        calls.push(EnvCall::Open { flags, mode: FILE_MODE });
        assert(calls@ =~= planned_calls(*self, page_size, sync_read_txn));
        Opening { path, options: self.clone(), calls, made: 0, refusal: None }
    }

    /// Open an environment that will be located at the specified path, which is canonical.
    ///
    /// `sync_read_txn` tells whether read transactions may move between threads. The list of
    /// opened environments has to stay as it is until the environment is listed in it.
    pub fn open<R>(
        &self,
        opened: &OpenedEnvs<R>,
        path: Vec<u8>,
        sync_read_txn: bool,
    ) -> (open: Open<R>)
        requires
            opened.wf(),
            !opened@.contains_key(crate::path::parts_of(path@)) ==> !path@.contains(0u8),
        ensures
            opened@.contains_key(crate::path::parts_of(path@)) ==> open == open_listed(
                opened@[crate::path::parts_of(path@)],
                *self,
            ),
            !opened@.contains_key(crate::path::parts_of(path@)) ==> {
                &&& open matches Open::Create(opening)
                &&& exists|page_size: usize|
                    #[trigger] call_ensures(page_size::get, (), page_size) && opening.is_planned(
                        path@,
                        *self,
                        page_size,
                        sync_read_txn,
                    )
            },
    {
        match opened.get(path.as_slice()) {
            Some(entry) => match &entry.env {
                None => Open::Refused(Error::DatabaseClosing),
                Some(env) => {
                    let env = env.clone();
                    let options = entry.options.clone();
                    if options == *self {
                        Open::Ready(env)
                    } else {
                        Open::Refused(Error::BadOpenOptions { env, options })
                    }
                },
            },
            None => {
                let page_size: usize = page_size::get();
                Open::Create(self.plan(path, page_size, sync_read_txn))
            },
        }
    }
}

impl<R> OpenedEnvs<R> {
    /// Lists an environment that LMDB has opened at the given address, and returns its first
    /// handle. `resource` is what owns the environment: it is dropped with the last handle.
    pub fn created(&mut self, created: CreatedEnv, env: usize, resource: R) -> (handle: Env<R>)
        requires
            old(self).wf(),
            !old(self)@.contains_key(created.place()),
        ensures
            final(self).wf(),
            handle.address() == env,
            handle.owned() == resource,
            handle.location() == created.location(),
            is_listed(old(self)@, final(self)@, handle, created.options()),
    {
        let signal_event = ListedEvent::of(Shared::new(ClosingEvent::unset()));
        let CreatedEnv { path, options } = created;
        let handle = Env::new(env, resource, path.clone());
        let ghost entry = EnvEntry { env: Some(handle), signal_event, options };
        self.insert(path, EnvEntry { env: Some(handle.clone()), signal_event, options });
        assert(self@ == old(self)@.insert(handle.place(), entry));
        handle
    }

    /// Ends the opening of an environment that was not listed: one that LMDB has opened is
    /// listed, and its first handle returned. A failure leaves the list as it is.
    pub fn finish_open(&mut self, ended: Result<NewEnv<R>, Error<R>>) -> (open: Result<
        Env<R>,
        Error<R>,
    >)
        requires
            old(self).wf(),
            ended matches Ok(new) ==> !old(self)@.contains_key(new.created.place()),
        ensures
            final(self).wf(),
            open_finished(old(self)@, final(self)@, ended, open),
    {
        match ended {
            Ok(new) => Ok(self.created(new.created, new.env, new.resource)),
            Err(error) => Err(error),
        }
    }
}

/// `after` are the environments listed, and `open` is returned, when an opening ended.
pub open spec fn open_finished<R>(
    before: Map<PathParts, EnvEntry<R>>,
    after: Map<PathParts, EnvEntry<R>>,
    ended: Result<NewEnv<R>, Error<R>>,
    open: Result<Env<R>, Error<R>>,
) -> bool {
    match ended {
        Ok(new) => {
            &&& open matches Ok(env)
            &&& env.address() == new.env
            &&& env.owned() == new.resource
            &&& env.location() == new.created.location()
            &&& is_listed(before, after, env, new.created.options())
        },
        Err(error) => {
            &&& open == Err::<Env<R>, Error<R>>(error)
            &&& after == before
        },
    }
}

/// `after` lists what `before` did and the given environment, with an event that
/// [`SignalEvent::manual`] made unset.
pub open spec fn is_listed<R>(
    before: Map<PathParts, EnvEntry<R>>,
    after: Map<PathParts, EnvEntry<R>>,
    env: Env<R>,
    options: EnvOpenOptions,
) -> bool {
    let path = env.place();
    &&& after.contains_key(path)
    &&& after == before.insert(path, after[path])
    &&& after[path].env == Some(env)
    &&& after[path].options == options
    &&& call_ensures(
        SignalEvent::manual,
        (false,),
        after[path].signal_event.event().inner(),
    )
}

} // verus!
