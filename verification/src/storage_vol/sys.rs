//! The native side of storage volumes, as far as this layer sees it.

use vstd::prelude::*;

verus! {

/// A storage volume inside the native library. Nothing in this crate looks
/// inside one: the type only names what a [`virStorageVolPtr`] points at.
#[allow(non_camel_case_types)]
pub struct virStorageVol {}

/// The address of a native storage volume object: what the native library
/// hands out for it and takes back in every call on it. Address 0 is the null
/// pointer.
#[allow(non_camel_case_types)]
#[derive(Clone, Copy, Debug, PartialEq, Eq, Structural)]
pub struct virStorageVolPtr {
    pub addr: usize,
}

impl virStorageVolPtr {
    /// Whether this is the null pointer, the failure sentinel of every native
    /// call that answers with a handle.
    pub fn is_null(&self) -> (null: bool)
        ensures
            null == (self.addr == 0),
    {
        self.addr == 0
    }
}

/// The record that the native library fills in when asked about a volume: a
/// type code and two byte counts, in this order.
#[allow(non_camel_case_types)]
#[derive(Clone, Copy, Debug, PartialEq, Eq, Structural)]
pub struct virStorageVolInfo {
    /// The volume's type code.
    pub kind: libc::c_int,
    /// The logical size, in bytes.
    pub capacity: libc::c_ulonglong,
    /// The current allocation, in bytes.
    pub allocation: libc::c_ulonglong,
}

impl Default for virStorageVolInfo {
    /// The all-zero record that is handed to the native library to fill in.
    fn default() -> (info: virStorageVolInfo)
        ensures
            info.kind == 0,
            info.capacity == 0,
            info.allocation == 0,
    {
        virStorageVolInfo { kind: 0, capacity: 0, allocation: 0 }
    }
}

} // verus!
