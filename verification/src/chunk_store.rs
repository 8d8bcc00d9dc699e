//! A content-addressed chunk store: get, put, delete and a presence test,
//! keyed by name. The verified personas keep their persistent state here; a
//! live deployment would back the same contracts with a disk store.

use crate::table::{tbl_get, tbl_has, Table};
use crate::types::XorName;
use vstd::prelude::*;

verus! {

/// Why a chunk operation failed.
#[derive(Clone, Copy, PartialEq, Eq, Structural, Debug)]
pub enum ChunkStoreError {
    NoSuchChunk,
}

/// The store; its view is the stored entry sequence, keyed by name.
pub struct ChunkStore<T> {
    pub chunks: Table<T>,
}

impl<T> View for ChunkStore<T> {
    type V = Seq<(u64, T)>;

    closed spec fn view(&self) -> Seq<(u64, T)> {
        self.chunks@
    }
}

impl<T> ChunkStore<T> {
    pub open spec fn wf(self) -> bool {
        self.chunks.wf()
    }

    /// What the store holds under a name.
    pub open spec fn spec_get(self, name: XorName) -> Option<T> {
        tbl_get(self@, name.0)
    }

    pub fn new() -> (r: ChunkStore<T>)
        ensures
            r.wf(),
            r@ =~= Seq::<(u64, T)>::empty(),
    {
        ChunkStore { chunks: Table::new() }
    }

    pub fn has_chunk(&self, name: &XorName) -> (r: bool)
        requires
            self.wf(),
        ensures
            r == tbl_has(self@, name.0),
    {
        self.chunks.contains(name.0)
    }

    pub fn get(&self, name: &XorName) -> (r: Result<&T, ChunkStoreError>)
        requires
            self.wf(),
        ensures
            r matches Ok(v) ==> self.spec_get(*name) == Some(*v),
            r is Err ==> r == Result::<&T, ChunkStoreError>::Err(ChunkStoreError::NoSuchChunk)
                && self.spec_get(*name) is None,
    {
        match self.chunks.get(name.0) {
            Some(v) => Ok(v),
            None => Err(ChunkStoreError::NoSuchChunk),
        }
    }

    /// Store a chunk under a name, replacing any previous one.
    pub fn put(&mut self, name: &XorName, value: T)
        requires
            old(self).wf(),
        ensures
            final(self).wf(),
            final(self).spec_get(*name) == Some(value),
            forall|k: u64| k != name.0 ==> tbl_get(final(self)@, k) == tbl_get(old(self)@, k),
    {
        self.chunks.set(name.0, value);
    }

    /// Remove the chunk under a name and hand it back for editing.
    pub fn take(&mut self, name: &XorName) -> (r: Option<T>)
        requires
            old(self).wf(),
        ensures
            final(self).wf(),
            r == tbl_get(old(self)@, name.0),
            final(self).spec_get(*name) is None,
            forall|k: u64| k != name.0 ==> tbl_get(final(self)@, k) == tbl_get(old(self)@, k),
            !tbl_has(old(self)@, name.0) ==> final(self)@ == old(self)@,
    {
        self.chunks.remove(name.0)
    }

    /// Remove the chunk under a name; absent names are reported.
    pub fn delete(&mut self, name: &XorName) -> (r: Result<(), ChunkStoreError>)
        requires
            old(self).wf(),
        ensures
            final(self).wf(),
            r is Ok <==> tbl_has(old(self)@, name.0),
            r is Err ==> r == Result::<(), ChunkStoreError>::Err(ChunkStoreError::NoSuchChunk)
                && final(self)@ == old(self)@,
            final(self).spec_get(*name) is None,
            forall|k: u64| k != name.0 ==> tbl_get(final(self)@, k) == tbl_get(old(self)@, k),
    {
        match self.chunks.remove(name.0) {
            Some(_) => Ok(()),
            None => Err(ChunkStoreError::NoSuchChunk),
        }
    }
}

} // verus!
