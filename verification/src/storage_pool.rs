//! Storage pools, the parents of storage volumes.

use vstd::prelude::*;
use crate::storage_pool::sys::virStoragePoolPtr;

pub mod sys;

verus! {

/// The owner of one native storage pool handle.
///
/// Only what the other wrappers need of it is here: they take the handle from
/// it for the calls that start at a pool.
#[derive(Debug, PartialEq, Eq)]
pub struct StoragePool {
    ptr: Option<virStoragePoolPtr>,
}

impl View for StoragePool {
    type V = Option<virStoragePoolPtr>;

    /// The handle held, `None` once it is released.
    closed spec fn view(&self) -> Option<virStoragePoolPtr> {
        self.ptr
    }
}

impl StoragePool {
    /// Takes ownership of the handle `ptr`.
    pub fn new(ptr: virStoragePoolPtr) -> (owner: StoragePool)
        ensures
            owner@ == Some(ptr),
    {
        StoragePool { ptr: Some(ptr) }
    }

    /// Whether the handle is still held.
    pub fn is_live(&self) -> (live: bool)
        ensures
            live == (self@ is Some),
    {
        self.ptr.is_some()
    }

    /// The handle held, for a call that borrows it.
    pub fn as_ptr(&self) -> (ptr: virStoragePoolPtr)
        requires
            self@ is Some,
        ensures
            self@ == Some(ptr),
    {
        self.ptr.unwrap()
    }
}

} // verus!
