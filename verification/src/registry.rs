//! The environments that are open in this process.
//!
//! An environment is listed under its path from the moment it is open until LMDB has closed
//! it. Closing is a two-phase step, to make sure no one opens the same environment between
//! the two: first the list gives its handle up and keeps the path, then, when the last handle
//! is gone, the path leaves the list too.

use crate::closing::{ClosedSignal, EnvClosingEvent};
use crate::env::Env;
use crate::event::ListedEvent;
use crate::options::EnvOpenOptions;
use crate::path::{same_path, PathParts};
use vstd::prelude::*;

verus! {

/// What is known of an open environment.
pub struct EnvEntry<R> {
    /// A handle of the environment, or `None` once someone asked to close it.
    pub env: Option<Env<R>>,
    /// The event that is set when the environment is closed.
    pub signal_event: ListedEvent,
    /// The options that it was opened with.
    pub options: EnvOpenOptions,
}

/// The environments by path, once someone asked to close the one at `path`.
pub open spec fn prepared<R>(
    opened: Map<PathParts, EnvEntry<R>>,
    path: PathParts,
) -> Map<PathParts, EnvEntry<R>> {
    opened.insert(path, EnvEntry { env: None, ..opened[path] })
}

/// An environment and the path that it is listed under.
struct Slot<R> {
    path: Vec<u8>,
    entry: EnvEntry<R>,
}

/// The list of opened environments, by path. Two paths are the same when they are made of the
/// same.
pub struct OpenedEnvs<R> {
    slots: Vec<Slot<R>>,
}

impl<R> View for OpenedEnvs<R> {
    type V = Map<PathParts, EnvEntry<R>>;

    /// The environments by path.
    closed spec fn view(&self) -> Map<PathParts, EnvEntry<R>> {
        Map::new(
            |path: PathParts| self.lists(path),
            |path: PathParts| self.slots@[self.position(path)].entry,
        )
    }
}

impl<R> OpenedEnvs<R> {
    /// What the path of a slot is made of.
    spec fn key(&self, i: int) -> PathParts {
        crate::path::parts_of(self.slots@[i].path@)
    }

    /// Whether some slot has the given path.
    spec fn lists(&self, path: PathParts) -> bool {
        exists|i: int| 0 <= i < self.slots@.len() && #[trigger] self.key(i) == path
    }

    /// The slot with the given path.
    spec fn position(&self, path: PathParts) -> int {
        choose|i: int| 0 <= i < self.slots@.len() && #[trigger] self.key(i) == path
    }

    /// No path is listed twice, and a handle is listed under the path that it lives at.
    pub closed spec fn wf(&self) -> bool {
        &&& forall|i: int, j: int|
            0 <= i < j < self.slots@.len() ==> #[trigger] self.key(i) != #[trigger] self.key(j)
        &&& forall|i: int|
            #![trigger self.slots@[i]]
            0 <= i < self.slots@.len() && self.slots@[i].entry.env is Some
                ==> self.slots@[i].entry.env->0.place() == self.key(i)
    }

    /// A slot is what the list says of the slot's path.
    proof fn lemma_slot(&self, i: int)
        requires
            self.wf(),
            0 <= i < self.slots@.len(),
        ensures
            self@.contains_key(self.key(i)),
            self@[self.key(i)] == self.slots@[i].entry,
    {
        let j = self.position(self.key(i));
        assert(self.key(j) == self.key(i));
        assert(i == j);
    }

    /// Every listed path has a slot.
    proof fn lemma_listed(&self, path: PathParts) -> (i: int)
        requires
            self@.contains_key(path),
        ensures
            0 <= i < self.slots@.len(),
            self.key(i) == path,
    {
        self.position(path)
    }

    /// A handle is listed under the path that it lives at.
    pub proof fn law_handles_live_where_listed(&self, path: PathParts)
        requires
            self.wf(),
            self@.contains_key(path),
            self@[path].env is Some,
        ensures
            self@[path].env->0.place() == path,
    {
        let i = self.lemma_listed(path);
        self.lemma_slot(i);
    }

    /// A list without environments.
    pub fn new() -> (opened: Self)
        ensures
            opened.wf(),
            opened@ == Map::<PathParts, EnvEntry<R>>::empty(),
    {
        let opened = OpenedEnvs { slots: Vec::new() };
        assert(opened@ =~= Map::<PathParts, EnvEntry<R>>::empty());
        opened
    }

    /// The slot with the given path, if there is one.
    fn find(&self, path: &[u8]) -> (found: Option<usize>)
        requires
            self.wf(),
        ensures
            match found {
                Some(i) => {
                    &&& i < self.slots@.len()
                    &&& self.key(i as int) == crate::path::parts_of(path@)
                    &&& self@.contains_key(crate::path::parts_of(path@))
                    &&& self@[crate::path::parts_of(path@)] == self.slots@[i as int].entry
                },
                None => !self@.contains_key(crate::path::parts_of(path@)),
            },
    {
        for i in 0..self.slots.len()
            invariant
                self.wf(),
                forall|j: int| 0 <= j < i ==> #[trigger] self.key(j) != crate::path::parts_of(path@),
        {
            if same_path(self.slots[i].path.as_slice(), path) {
                proof {
                    self.lemma_slot(i as int);
                }
                return Some(i);
            }
        }
        None
    }

    /// What is known of the environment at the given path.
    pub fn get(&self, path: &[u8]) -> (found: Option<&EnvEntry<R>>)
        requires
            self.wf(),
        ensures
            match found {
                Some(entry) => self@.contains_key(crate::path::parts_of(path@)) && self@[crate::path::parts_of(path@)] == *entry,
                None => !self@.contains_key(crate::path::parts_of(path@)),
            },
    {
        match self.find(path) {
            Some(i) => Some(&self.slots[i].entry),
            None => None,
        }
    }

    /// Lists an environment under a path that is not listed.
    pub(crate) fn insert(&mut self, path: Vec<u8>, entry: EnvEntry<R>)
        requires
            old(self).wf(),
            !old(self)@.contains_key(crate::path::parts_of(path@)),
            entry.env is Some ==> entry.env->0.place() == crate::path::parts_of(path@),
        ensures
            final(self).wf(),
            final(self)@ == old(self)@.insert(crate::path::parts_of(path@), entry),
    {
        let ghost before = *self;
        let ghost at = crate::path::parts_of(path@);
        self.slots.push(Slot { path, entry });
        proof {
            assert forall|i: int| 0 <= i < before.slots@.len() implies {
                &&& #[trigger] self.key(i) == before.key(i)
                &&& self.key(i) != at
            } by {
                before.lemma_slot(i);
            }
            let last = self.slots@.len() - 1;
            assert(self.wf());
            self.lemma_slot(last);
            assert forall|p: PathParts| p != at implies {
                &&& #[trigger] self@.dom().contains(p) == before@.contains_key(p)
                &&& before@.contains_key(p) ==> self@[p] == before@[p]
            } by {
                if before@.contains_key(p) {
                    let i = before.lemma_listed(p);
                    before.lemma_slot(i);
                    assert(self.slots@[i] == before.slots@[i]);
                    self.lemma_slot(i);
                }
                if self@.contains_key(p) {
                    let i = self.lemma_listed(p);
                    assert(before.key(i) == p);
                    before.lemma_slot(i);
                }
            }
            assert(self@ =~= before@.insert(at, entry));
        }
    }

    /// Gives the handle of a listed environment up: the path stays listed, as one of an
    /// environment that is closing.
    fn release(&mut self, path: &[u8]) -> (released: (EnvClosingEvent, Option<Env<R>>))
        requires
            old(self).wf(),
            old(self)@.contains_key(crate::path::parts_of(path@)),
        ensures
            final(self).wf(),
            final(self)@ == prepared(old(self)@, crate::path::parts_of(path@)),
            released.0.event() == old(self)@[crate::path::parts_of(path@)].signal_event.event(),
            released.1 == old(self)@[crate::path::parts_of(path@)].env,
    {
        let ghost before = *self;
        let ghost place = crate::path::parts_of(path@);
        let at: usize = self.find(path).unwrap();
        let env = self.slots[at].entry.env.take();
        let event = EnvClosingEvent::of(&self.slots[at].entry.signal_event);
        proof {
            let ghost entry = EnvEntry { env: None, ..before@[place] };
            assert(self.slots@[at as int].entry == entry);
            assert forall|i: int| 0 <= i < self.slots@.len() implies #[trigger] self.key(i)
                == before.key(i) by {
                assert(self.slots@[i].path == before.slots@[i].path);
            }
            assert(self.wf());
            assert forall|p: PathParts| #[trigger]
                self@.dom().contains(p) == before@.contains_key(p) by {
                if before@.contains_key(p) {
                    let i = before.lemma_listed(p);
                    self.lemma_slot(i);
                }
                if self@.contains_key(p) {
                    let i = self.lemma_listed(p);
                    before.lemma_slot(i);
                }
            }
            assert forall|p: PathParts| #[trigger] self@.dom().contains(p) implies self@[p] == (if p
                == place {
                entry
            } else {
                before@[p]
            }) by {
                let i = self.lemma_listed(p);
                self.lemma_slot(i);
                before.lemma_slot(i);
            }
            assert(self@ =~= prepared(before@, place));
        }
        (event, env)
    }

    /// Takes the path of an environment whose last handle was dropped off the list. LMDB is
    /// to close the environment next, and then those who wait for it are to be told.
    ///
    /// There is nothing to take off when another handle closed this environment before.
    pub fn closed(&mut self, path: &[u8]) -> (signal: ClosedSignal)
        requires
            old(self).wf(),
            old(self)@.contains_key(crate::path::parts_of(path@)),
        ensures
            final(self).wf(),
            final(self)@ == old(self)@.remove(crate::path::parts_of(path@)),
            signal.event() == old(self)@[crate::path::parts_of(path@)].signal_event.event(),
    {
        let ghost before = *self;
        let ghost place = crate::path::parts_of(path@);
        let at: usize = self.find(path).unwrap();
        let slot = self.slots.remove(at);
        proof {
            assert forall|i: int| 0 <= i < self.slots@.len() implies #[trigger] self.slots@[i]
                == before.slots@[if i < at { i } else { i + 1 }] by {}
            assert forall|i: int| 0 <= i < self.slots@.len() implies #[trigger] self.key(i)
                == before.key(if i < at { i } else { i + 1 }) by {
                assert(self.slots@[i] == before.slots@[if i < at { i } else { i + 1 }]);
            }
            assert(self.wf());
            assert forall|p: PathParts|
                #[trigger] self@.dom().contains(p) == (p != place && before@.contains_key(p)) by {
                if p != place && before@.contains_key(p) {
                    let i = before.lemma_listed(p);
                    let j = if i < at { i } else { i - 1 };
                    assert(self.slots@[j] == before.slots@[i]);
                    self.lemma_slot(j);
                }
                if self@.contains_key(p) {
                    let j = self.lemma_listed(p);
                    before.lemma_slot(if j < at { j } else { j + 1 });
                }
            }
            assert forall|p: PathParts| #[trigger] self@.dom().contains(p) implies self@[p]
                == before@[p] by {
                let j = self.lemma_listed(p);
                self.lemma_slot(j);
                before.lemma_slot(if j < at { j } else { j + 1 });
            }
            assert(self@ =~= before@.remove(place));
        }
        ClosedSignal::of(slot.entry.signal_event)
    }
}

impl<R> Env<R> {
    /// Returns an `EnvClosingEvent` that can be used to wait for the closing event,
    /// multiple threads can wait on this event, and the handle that the list held.
    ///
    /// Make sure that you drop all the copies of `Env`s you have, env closing are triggered
    /// when all references are dropped, the last one will eventually close the environment.
    /// The list must not be locked while they are dropped: closing locks it.
    pub fn prepare_for_closing(
        &self,
        opened: &mut OpenedEnvs<R>,
    ) -> (released: (EnvClosingEvent, Option<Env<R>>))
        requires
            old(opened).wf(),
            old(opened)@.contains_key(self.place()),
        ensures
            final(opened).wf(),
            final(opened)@ == prepared(old(opened)@, self.place()),
            released.0.event() == old(opened)@[self.place()].signal_event.event(),
            released.1 == old(opened)@[self.place()].env,
    {
        opened.release(self.path())
    }
}

/// Returns a struct that allows to wait for the effective closing of an environment.
///
/// The path may be written in any way, as long as it is made of the same as the canonical one.
pub fn env_closing_event<R>(opened: &OpenedEnvs<R>, path: &[u8]) -> (event: Option<EnvClosingEvent>)
    requires
        opened.wf(),
    ensures
        match event {
            Some(event) => {
                &&& opened@.contains_key(crate::path::parts_of(path@))
                &&& event.event() == opened@[crate::path::parts_of(path@)].signal_event.event()
            },
            None => !opened@.contains_key(crate::path::parts_of(path@)),
        },
{
    match opened.get(path) {
        Some(entry) => Some(EnvClosingEvent::of(&entry.signal_event)),
        None => None,
    }
}

} // verus!
