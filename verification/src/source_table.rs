//! The sources a polling loop watches: each gets a key, by which epoll reports it and by which
//! it is taken out again, and the table remembers its file descriptor for the taking out.

use slab::Slab;
use vstd::prelude::*;

verus! {

#[verifier::external_type_specification]
#[verifier::external_body]
#[verifier::reject_recursive_types(T)]
pub struct ExSlab<T>(Slab<T>);

/// The file descriptors a slab holds, by key.
pub uninterp spec fn slab_entries(slab: Slab<i32>) -> Map<usize, i32>;

/// Trusted: `Slab::new`, which makes a slab that holds nothing.
#[verifier::external_body]
fn slab_new() -> (fresh: Slab<i32>)
    ensures
        slab_entries(fresh) =~= Map::empty(),
{
    Slab::new()
}

/// Trusted: `Slab::insert`, which stores `fd` under a key that held nothing before (the slab's
/// next vacant entry) and returns that key; every other entry stays.
#[verifier::external_body]
fn slab_insert(slab: &mut Slab<i32>, fd: i32) -> (key: usize)
    ensures
        !slab_entries(*old(slab)).contains_key(key),
        slab_entries(*final(slab)) == slab_entries(*old(slab)).insert(key, fd),
{
    slab.insert(fd)
}

/// Trusted: `Slab::try_remove`, which takes the entry under `key` out and returns it, or
/// returns `None` and changes nothing when there is none.
#[verifier::external_body]
fn slab_try_remove(slab: &mut Slab<i32>, key: usize) -> (r: Option<i32>)
    ensures
        slab_entries(*final(slab)) == slab_entries(*old(slab)).remove(key),
        slab_entries(*old(slab)).contains_key(key) ==> r == Some(slab_entries(*old(slab))[key]),
        !slab_entries(*old(slab)).contains_key(key) ==> r is None,
{
    slab.try_remove(key)
}

/// Trusted: `Slab::len`, the number of stored entries.
#[verifier::external_body]
fn slab_len(slab: &Slab<i32>) -> (r: usize)
    ensures
        r == slab_entries(*slab).len(),
{
    slab.len()
}

/// The watched sources' file descriptors, by key.
pub struct SourceTable {
    fds: Slab<i32>,
}

impl View for SourceTable {
    type V = Map<usize, i32>;

    closed spec fn view(&self) -> Map<usize, i32> {
        slab_entries(self.fds)
    }
}

impl SourceTable {
    /// A table that watches nothing.
    pub fn new() -> (r: Self)
        ensures
            r@ == Map::<usize, i32>::empty(),
    {
        SourceTable { fds: slab_new() }
    }

    /// Watches `fd`, under a key that no watched source has.
    pub fn register(&mut self, fd: i32) -> (key: usize)
        ensures
            !old(self)@.contains_key(key),
            final(self)@ == old(self)@.insert(key, fd),
    {
        slab_insert(&mut self.fds, fd)
    }

    /// Stops watching the source under `key`, handing back its file descriptor so it can
    /// leave the epoll set. A key already gone is nothing to do.
    pub fn deregister(&mut self, key: usize) -> (r: Option<i32>)
        ensures
            final(self)@ == old(self)@.remove(key),
            old(self)@.contains_key(key) ==> r == Some(old(self)@[key]),
            !old(self)@.contains_key(key) ==> r is None,
    {
        slab_try_remove(&mut self.fds, key)
    }

    /// The number of watched sources.
    pub fn len(&self) -> (r: usize)
        ensures
            r == self@.len(),
    {
        slab_len(&self.fds)
    }

    /// Whether no source is watched.
    pub fn is_empty(&self) -> (r: bool)
        ensures
            r <==> self@.len() == 0,
    {
        slab_len(&self.fds) == 0
    }
}

/// Deregistering is idempotent: taking a key out a second time hands back nothing and leaves
/// the table as the first time left it.
pub proof fn lemma_deregister_idempotent(table: Map<usize, i32>, key: usize)
    ensures
        !table.remove(key).contains_key(key),
        table.remove(key).remove(key) == table.remove(key),
{
    assert(table.remove(key).remove(key) =~= table.remove(key));
}

/// Registering then deregistering a source leaves the table as it was.
pub proof fn lemma_deregister_undoes_register(table: Map<usize, i32>, key: usize, fd: i32)
    requires
        !table.contains_key(key),
    ensures
        table.insert(key, fd).remove(key) == table,
{
    assert(table.insert(key, fd).remove(key) =~= table);
}

} // verus!
