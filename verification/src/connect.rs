//! The session that scopes lookups: a connection to a hypervisor.

use vstd::prelude::*;
use crate::connect::sys::virConnectPtr;
use crate::native::Step;
use crate::secret::sys::virSecretPtr;
use crate::storage_vol::sys::virStorageVolPtr;

pub mod sys;

verus! {

/// A native call that answers with the handle of a connection: null on
/// failure.
#[derive(Debug, PartialEq, Eq)]
pub enum ConnectCall {
    /// `virSecretGetConnect(secret)`
    SecretGetConnect { secret: virSecretPtr },
    /// `virStorageVolGetConnect(vol)`
    StorageVolGetConnect { vol: virStorageVolPtr },
}

impl ConnectCall {
    /// What the call's answer means: failure if it is the null pointer, else
    /// a new wrapper that owns the handle.
    pub fn reply(&self, ptr: virConnectPtr) -> (step: Step<Connect>)
        ensures
            ptr.addr == 0 ==> step == Step::<Connect>::ReadError,
            ptr.addr != 0 ==> (step matches Step::Done(Ok(conn)) && conn@ == Some(ptr)),
    {
        if ptr.is_null() {
            return Step::ReadError;
        }
        Step::Done(Ok(Connect::new(ptr)))
    }
}

/// The owner of one native connection handle.
///
/// Only what the other wrappers need of it is here: they take the handle from
/// it for the calls that start at a connection.
#[derive(Debug, PartialEq, Eq)]
pub struct Connect {
    ptr: Option<virConnectPtr>,
}

impl View for Connect {
    type V = Option<virConnectPtr>;

    /// The handle held, `None` once it is released.
    closed spec fn view(&self) -> Option<virConnectPtr> {
        self.ptr
    }
}

impl Connect {
    /// Takes ownership of the handle `ptr`.
    pub fn new(ptr: virConnectPtr) -> (owner: Connect)
        ensures
            owner@ == Some(ptr),
    {
        Connect { ptr: Some(ptr) }
    }

    /// Whether the handle is still held.
    pub fn is_live(&self) -> (live: bool)
        ensures
            live == (self@ is Some),
    {
        self.ptr.is_some()
    }

    /// The handle held, for a call that borrows it.
    pub fn as_ptr(&self) -> (ptr: virConnectPtr)
        requires
            self@ is Some,
        ensures
            self@ == Some(ptr),
    {
        self.ptr.unwrap()
    }
}

} // verus!
