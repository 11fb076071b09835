//! The handle of an open environment.

use crate::path::PathParts;
use std::sync::Arc;
use vstd::prelude::*;

verus! {

/// What all the handles of one environment share. When the last of them is dropped, so is
/// `resource`: that is where the environment itself is owned.
#[derive(Debug)]
struct EnvInner<R> {
    env: usize,
    resource: R,
    path: Vec<u8>,
}

/// An environment handle constructed by using
/// [`EnvOpenOptions`](crate::options::EnvOpenOptions). Its clones are handles of the same
/// environment.
#[derive(Debug)]
pub struct Env<R>(Arc<EnvInner<R>>);

impl<R> Clone for Env<R> {
    fn clone(&self) -> (env: Self)
        ensures
            env == *self,
    {
        Env(self.0.clone())
    }
}

impl<R> Env<R> {
    /// The address of the environment of LMDB.
    pub closed spec fn address(self) -> usize {
        self.0.env
    }

    /// What the handles own.
    pub closed spec fn owned(self) -> R {
        self.0.resource
    }

    /// The bytes of the path where this environment lives.
    pub closed spec fn location(self) -> Seq<u8> {
        self.0.path@
    }

    /// What that path is made of.
    pub open spec fn place(self) -> PathParts {
        crate::path::parts_of(self.location())
    }

    /// The first handle of an environment.
    pub(crate) fn new(env: usize, resource: R, path: Vec<u8>) -> (handle: Self)
        ensures
            handle.address() == env,
            handle.owned() == resource,
            handle.location() == path@,
    {
        Env(Arc::new(EnvInner { env, resource, path }))
    }

    /// The address of the environment of LMDB.
    pub fn env_mut_ptr(&self) -> (env: usize)
        ensures
            env == self.address(),
    {
        self.0.env
    }

    /// What the handles own.
    pub fn resource(&self) -> (resource: &R)
        ensures
            *resource == self.owned(),
    {
        &self.0.resource
    }

    /// Returns the canonicalized path where this env lives.
    pub fn path(&self) -> (path: &[u8])
        ensures
            path@ == self.location(),
    {
        self.0.path.as_slice()
    }
}

} // verus!
