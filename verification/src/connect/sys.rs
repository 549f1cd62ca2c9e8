//! The native side of hypervisor connections, as far as this layer sees it.

use vstd::prelude::*;

verus! {

/// A hypervisor connection inside the native library. Nothing in this crate looks inside one: the
/// type only names what a [`virConnectPtr`] points at.
#[allow(non_camel_case_types)]
pub struct virConnect {}

/// The address of a native connection object: what the native library hands out for
/// it and takes back in every call on it. Address 0 is the null pointer.
#[allow(non_camel_case_types)]
#[derive(Clone, Copy, Debug, PartialEq, Eq, Structural)]
pub struct virConnectPtr {
    pub addr: usize,
}

impl virConnectPtr {
    /// Whether this is the null pointer, the failure sentinel of every native
    /// call that answers with a handle.
    pub fn is_null(&self) -> (null: bool)
        ensures
            null == (self.addr == 0),
    {
        self.addr == 0
    }
}

} // verus!
