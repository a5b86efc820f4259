//! The registry of the event loop: the readiness record of every registered
//! socket, found again by the token the socket was registered with.

use vstd::prelude::*;
use slab::Slab;
use crate::net::poll::Entry;
use crate::net::util::is_would_block;
use crate::task::Poll;

verus! {

#[verifier::external_type_specification]
#[verifier::external_body]
#[verifier::reject_recursive_types(T)]
pub struct ExSlab<T>(Slab<T>);

/// The occupied slots of a slab of readiness records, by key.
pub uninterp spec fn slab_entries(slab: Slab<Entry>) -> Map<usize, Entry>;

/// Calls `slab::Slab::new`; the new slab has no occupied slot.
#[verifier::external_body]
fn slab_new() -> (fresh: Slab<Entry>)
    ensures
        slab_entries(fresh).dom() == Set::<usize>::empty(),
{
    Slab::new()
}

/// Calls `slab::Slab::insert`; the value goes into a slot that was vacant, whose
/// key is returned; no other slot changes.
#[verifier::external_body]
fn slab_insert(slab: &mut Slab<Entry>, value: Entry) -> (key: usize)
    ensures
        !slab_entries(*old(slab)).dom().contains(key),
        slab_entries(*final(slab)) == slab_entries(*old(slab)).insert(key, value),
{
    slab.insert(value)
}

/// Calls `slab::Slab::remove` on an occupied key (it panics on a vacant one); the
/// value in that slot is returned and the slot becomes vacant.
#[verifier::external_body]
fn slab_remove(slab: &mut Slab<Entry>, key: usize) -> (value: Entry)
    requires
        slab_entries(*old(slab)).dom().contains(key),
    ensures
        value == slab_entries(*old(slab))[key],
        slab_entries(*final(slab)) == slab_entries(*old(slab)).remove(key),
{
    slab.remove(key)
}

/// Calls `slab::Slab::contains`: whether the slot of `key` is occupied.
#[verifier::external_body]
fn slab_contains(slab: &Slab<Entry>, key: usize) -> (occupied: bool)
    ensures
        occupied == slab_entries(*slab).dom().contains(key),
{
    slab.contains(key)
}

/// Calls `slab::Slab::get_mut`: the value in an occupied slot, to be changed in
/// place, or nothing for a vacant key.
#[verifier::external_body]
fn slab_get_mut(slab: &mut Slab<Entry>, key: usize) -> (value: Option<&mut Entry>)
    ensures
        slab_entries(*old(slab)).dom().contains(key) <==> value is Some,
        value is None ==> slab_entries(*final(slab)) == slab_entries(*old(slab)),
        value matches Some(v) ==> {
            &&& *v == slab_entries(*old(slab))[key]
            &&& slab_entries(*final(slab)) == slab_entries(*old(slab)).insert(key, *final(v))
        },
{
    slab.get_mut(key)
}


/// `after` holds the same tokens as `before`, and every record but the one of
/// `token` is unchanged.
pub open spec fn only_changes(before: Map<usize, Entry>, after: Map<usize, Entry>, token: usize) -> bool {
    &&& after.dom() == before.dom()
    &&& forall|t: usize| t != token && before.dom().contains(t) ==> after[t] == before[t]
}

/// The readiness records of all registered sockets, by token.
pub struct Registry {
    entries: Slab<Entry>,
}

impl Registry {
    /// The record of each registered token.
    pub closed spec fn entries(&self) -> Map<usize, Entry> {
        slab_entries(self.entries)
    }

    /// A registry with no socket registered.
    pub fn new() -> (registry: Self)
        ensures
            registry.entries().dom() == Set::<usize>::empty(),
    {
        Registry { entries: slab_new() }
    }

    /// Registers a new socket: it gets a token that no registered socket holds,
    /// with a record in which nothing is ready and nobody waits.
    pub fn insert(&mut self) -> (token: usize)
        ensures
            !old(self).entries().dom().contains(token),
            final(self).entries().dom() == old(self).entries().dom().insert(token),
            forall|t: usize| t != token && old(self).entries().dom().contains(t)
                ==> final(self).entries()[t] == old(self).entries()[t],
            !final(self).entries()[token].reader@.ready,
            !final(self).entries()[token].writer@.ready,
            final(self).entries()[token].reader@.waiting == Seq::<u64>::empty(),
            final(self).entries()[token].writer@.waiting == Seq::<u64>::empty(),
    {
        let token = slab_insert(&mut self.entries, Entry::new());
        token
    }

    /// Whether a socket is registered under `token`.
    pub fn contains(&self, token: usize) -> (registered: bool)
        ensures
            registered == self.entries().dom().contains(token),
    {
        slab_contains(&self.entries, token)
    }

    /// Forgets a registered socket, handing back its record; the other records
    /// stay as they were.
    pub fn remove(&mut self, token: usize) -> (entry: Entry)
        requires
            old(self).entries().dom().contains(token),
        ensures
            entry == old(self).entries()[token],
            final(self).entries() == old(self).entries().remove(token),
    {
        slab_remove(&mut self.entries, token)
    }

    /// What the event loop does with one event: for a registered token, a
    /// readable event makes its reader ready and a writable event its writer, and
    /// the wakers that were waiting there are handed back (the reader's first); an
    /// event for a token that is not registered changes nothing and wakes nobody.
    pub fn dispatch(&mut self, token: usize, readable: bool, writable: bool) -> (woken: Vec<u64>)
        ensures
            !old(self).entries().dom().contains(token) ==> {
                &&& final(self).entries() == old(self).entries()
                &&& woken@ == Seq::<u64>::empty()
            },
            old(self).entries().dom().contains(token) ==> {
                let before = old(self).entries()[token];
                let after = final(self).entries()[token];
                &&& only_changes(old(self).entries(), final(self).entries(), token)
                &&& after.reader@.ready == (before.reader@.ready || readable)
                &&& after.writer@.ready == (before.writer@.ready || writable)
                &&& after.reader@.waiting == (if readable { Seq::<u64>::empty() } else { before.reader@.waiting })
                &&& after.writer@.waiting == (if writable { Seq::<u64>::empty() } else { before.writer@.waiting })
                &&& woken@ == (if readable { before.reader@.waiting } else { Seq::<u64>::empty() })
                    + (if writable { before.writer@.waiting } else { Seq::<u64>::empty() })
            },
    {
        let woken = match slab_get_mut(&mut self.entries, token) {
            Some(entry) => entry.on_event(readable, writable),
            None => Vec::new(),
        };
        assert(old(self).entries().dom().contains(token) ==> self.entries().dom() =~= old(self).entries().dom());
        woken
    }
}


impl Registry {
    /// One poll of "wait until writable" for a registered socket (used to wait
    /// for a connection to be established): a writer that is not ready keeps the
    /// waker and answers pending, a ready writer answers ready.
    pub fn poll_write_ready(&mut self, token: usize, waker: u64) -> (polled: Poll<()>)
        requires
            old(self).entries().dom().contains(token),
        ensures
            only_changes(old(self).entries(), final(self).entries(), token),
            ({
                let before = old(self).entries()[token];
                let after = final(self).entries()[token];
                &&& after.reader == before.reader
                &&& after.writer@.ready == before.writer@.ready
                &&& before.writer@.ready ==> polled == Poll::Ready(()) && after.writer@.waiting == before.writer@.waiting
                &&& !before.writer@.ready ==> polled is Pending && after.writer@.waiting == before.writer@.waiting.push(waker)
            }),
    {
        let polled = match slab_get_mut(&mut self.entries, token) {
            Some(entry) => entry.writer.poll_ready(waker),
            None => Poll::Pending,
        };
        assert(self.entries().dom() =~= old(self).entries().dom());
        polled
    }

    /// The first try of a non-blocking read on a registered socket: a result that
    /// would block leaves the waker with the reader and answers pending (the
    /// caller then tries once more); any other result is ready as it is.
    pub fn poll_read<R>(&mut self, token: usize, waker: u64, attempt: Result<R, std::io::Error>) -> (polled: Poll<Result<R, std::io::Error>>)
        requires
            old(self).entries().dom().contains(token),
        ensures
            only_changes(old(self).entries(), final(self).entries(), token),
            ({
                let before = old(self).entries()[token];
                let after = final(self).entries()[token];
                &&& after.writer == before.writer
                &&& after.reader@.ready == before.reader@.ready
                &&& is_would_block(attempt) ==> polled is Pending && after.reader@.waiting == before.reader@.waiting.push(waker)
                &&& !is_would_block(attempt) ==> polled == Poll::Ready(attempt) && after.reader@.waiting == before.reader@.waiting
            }),
    {
        let polled = match slab_get_mut(&mut self.entries, token) {
            Some(entry) => entry.reader.poll_io(waker, attempt),
            None => Poll::Pending,
        };
        assert(self.entries().dom() =~= old(self).entries().dom());
        polled
    }

    /// The first try of a non-blocking write on a registered socket: a result
    /// that would block leaves the waker with the writer and answers pending (the
    /// caller then tries once more); any other result is ready as it is.
    pub fn poll_write<R>(&mut self, token: usize, waker: u64, attempt: Result<R, std::io::Error>) -> (polled: Poll<Result<R, std::io::Error>>)
        requires
            old(self).entries().dom().contains(token),
        ensures
            only_changes(old(self).entries(), final(self).entries(), token),
            ({
                let before = old(self).entries()[token];
                let after = final(self).entries()[token];
                &&& after.reader == before.reader
                &&& after.writer@.ready == before.writer@.ready
                &&& is_would_block(attempt) ==> polled is Pending && after.writer@.waiting == before.writer@.waiting.push(waker)
                &&& !is_would_block(attempt) ==> polled == Poll::Ready(attempt) && after.writer@.waiting == before.writer@.waiting
            }),
    {
        let polled = match slab_get_mut(&mut self.entries, token) {
            Some(entry) => entry.writer.poll_io(waker, attempt),
            None => Poll::Pending,
        };
        assert(self.entries().dom() =~= old(self).entries().dom());
        polled
    }
}


/// The registration of one watched socket with the event loop: the token its
/// readiness record is kept under. Only [`Registration::new`] makes one.
pub struct Registration {
    token: usize,
}

impl Registration {
    /// The token of this registration.
    pub closed spec fn token_of(&self) -> usize {
        self.token
    }

    /// Registers a new watched socket: it gets a token that no registered socket
    /// holds, with a record in which neither direction is ready and nobody waits;
    /// every other record stays as it was.
    pub fn new(registry: &mut Registry) -> (registration: Self)
        ensures
            !old(registry).entries().dom().contains(registration.token_of()),
            final(registry).entries().dom() == old(registry).entries().dom().insert(registration.token_of()),
            forall|t: usize| t != registration.token_of() && old(registry).entries().dom().contains(t)
                ==> final(registry).entries()[t] == old(registry).entries()[t],
            !final(registry).entries()[registration.token_of()].reader@.ready,
            !final(registry).entries()[registration.token_of()].writer@.ready,
            final(registry).entries()[registration.token_of()].reader@.waiting == Seq::<u64>::empty(),
            final(registry).entries()[registration.token_of()].writer@.waiting == Seq::<u64>::empty(),
    {
        let token = registry.insert();
        Registration { token }
    }

    /// The token this registration holds, under which the event loop reports
    /// the socket's events.
    pub fn token(&self) -> (token: usize)
        ensures
            token == self.token_of(),
    {
        self.token
    }
}

} // verus!
