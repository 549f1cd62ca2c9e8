//! Storage volumes: the files, block devices and the like that a storage pool
//! holds.

use vstd::prelude::*;
use vstd::string::*;
use crate::connect::Connect;
use crate::connect::ConnectCall;
use crate::connect::sys::virConnectPtr;
use crate::error::Error;
use crate::native::CountCall;
use crate::native::ReleaseCall;
use crate::native::StatusCall;
use crate::native::Step;
use crate::native::TextCall;
use crate::text::c_chars;
use crate::native::held_after_release;
use crate::text::no_nul;
use crate::text::string_to_c_chars;
use crate::storage_pool::StoragePool;
use crate::storage_pool::sys::virStoragePoolPtr;
use crate::storage_vol::sys::virStorageVolInfo;
use crate::storage_vol::sys::virStorageVolPtr;
use crate::stream::Stream;

pub mod sys;

verus! {

/// How a new volume is to be made.
///
/// A group of flags: a call takes the bitwise OR of the codes of those that
/// apply.
#[allow(non_camel_case_types)]
#[derive(Clone, Copy, Debug, PartialEq, Eq, Structural)]
pub enum CreateFlags {
    NORMAL,
    PREALLOC_METADATA,
    /// Perform a btrfs lightweight copy.
    REFLINK,
}

impl CreateFlags {
    /// The integer that the native library knows this flag by.
    pub open spec fn spec_to_raw(self) -> u32 {
        match self {
            CreateFlags::NORMAL => 0,
            CreateFlags::PREALLOC_METADATA => 1,
            CreateFlags::REFLINK => 2,
        }
    }

    /// The flag that the native library knows by `raw`, if there is one.
    pub open spec fn spec_from_raw(raw: u32) -> Option<CreateFlags> {
        if raw == 0 {
            Some(CreateFlags::NORMAL)
        } else if raw == 1 {
            Some(CreateFlags::PREALLOC_METADATA)
        } else if raw == 2 {
            Some(CreateFlags::REFLINK)
        } else {
            None
        }
    }

    /// Encodes this flag for the native library.
    pub fn to_raw(self) -> (raw: u32)
        ensures
            raw == self.spec_to_raw(),
    {
        match self {
            CreateFlags::NORMAL => 0,
            CreateFlags::PREALLOC_METADATA => 1,
            CreateFlags::REFLINK => 2,
        }
    }

    /// Decodes an integer that the native library handed back. A code that
    /// names no flag is an error, never some default.
    pub fn from_raw(raw: u32) -> (decoded: Result<CreateFlags, Error>)
        ensures
            (match decoded {
                Ok(value) => CreateFlags::spec_from_raw(raw) == Some(value),
                Err(e) => CreateFlags::spec_from_raw(raw) is None && e == (Error::UnknownCode {
                    value: raw,
                }),
            }),
    {
        if raw == 0 {
            Ok(CreateFlags::NORMAL)
        } else if raw == 1 {
            Ok(CreateFlags::PREALLOC_METADATA)
        } else if raw == 2 {
            Ok(CreateFlags::REFLINK)
        } else {
            Err(Error::UnknownCode { value: raw })
        }
    }

    /// Decoding the code of a flag gives that flag back.
    pub proof fn lemma_raw_round_trip(self)
        ensures
            CreateFlags::spec_from_raw(self.spec_to_raw()) == Some(self),
    {
    }
}

/// How the capacity handed to a resize is to be read.
///
/// A group of flags: a call takes the bitwise OR of the codes of those that
/// apply.
#[allow(non_camel_case_types)]
#[derive(Clone, Copy, Debug, PartialEq, Eq, Structural)]
pub enum ResizeFlags {
    NORMAL,
    /// Force allocation of new size.
    ALLOCATE,
    /// Size is relative to current.
    DELTA,
    /// Allow decrease in capacity.
    SHRINK,
}

impl ResizeFlags {
    /// The integer that the native library knows this flag by.
    pub open spec fn spec_to_raw(self) -> u32 {
        match self {
            ResizeFlags::NORMAL => 0,
            ResizeFlags::ALLOCATE => 1,
            ResizeFlags::DELTA => 2,
            ResizeFlags::SHRINK => 3,
        }
    }

    /// The flag that the native library knows by `raw`, if there is one.
    pub open spec fn spec_from_raw(raw: u32) -> Option<ResizeFlags> {
        if raw == 0 {
            Some(ResizeFlags::NORMAL)
        } else if raw == 1 {
            Some(ResizeFlags::ALLOCATE)
        } else if raw == 2 {
            Some(ResizeFlags::DELTA)
        } else if raw == 3 {
            Some(ResizeFlags::SHRINK)
        } else {
            None
        }
    }

    /// Encodes this flag for the native library.
    pub fn to_raw(self) -> (raw: u32)
        ensures
            raw == self.spec_to_raw(),
    {
        match self {
            ResizeFlags::NORMAL => 0,
            ResizeFlags::ALLOCATE => 1,
            ResizeFlags::DELTA => 2,
            ResizeFlags::SHRINK => 3,
        }
    }

    /// Decodes an integer that the native library handed back. A code that
    /// names no flag is an error, never some default.
    pub fn from_raw(raw: u32) -> (decoded: Result<ResizeFlags, Error>)
        ensures
            (match decoded {
                Ok(value) => ResizeFlags::spec_from_raw(raw) == Some(value),
                Err(e) => ResizeFlags::spec_from_raw(raw) is None && e == (Error::UnknownCode {
                    value: raw,
                }),
            }),
    {
        if raw == 0 {
            Ok(ResizeFlags::NORMAL)
        } else if raw == 1 {
            Ok(ResizeFlags::ALLOCATE)
        } else if raw == 2 {
            Ok(ResizeFlags::DELTA)
        } else if raw == 3 {
            Ok(ResizeFlags::SHRINK)
        } else {
            Err(Error::UnknownCode { value: raw })
        }
    }

    /// Decoding the code of a flag gives that flag back.
    pub proof fn lemma_raw_round_trip(self)
        ensures
            ResizeFlags::spec_from_raw(self.spec_to_raw()) == Some(self),
    {
    }
}

/// The pattern that a wipe overwrites a volume with.
///
/// An enumeration: exactly one variant applies, and codes are never combined.
#[allow(non_camel_case_types)]
#[derive(Clone, Copy, Debug, PartialEq, Eq, Structural)]
pub enum WipeAlgorithm {
    ZERO,
    NNSA,
    DOD,
    BSI,
    GUTMANN,
    SCHNEIER,
    PFITZNER7,
    PFITZNER33,
    RANDOM,
    TRIM,
}

impl WipeAlgorithm {
    /// The integer that the native library knows this algorithm by.
    pub open spec fn spec_to_raw(self) -> u32 {
        match self {
            WipeAlgorithm::ZERO => 0,
            WipeAlgorithm::NNSA => 1,
            WipeAlgorithm::DOD => 2,
            WipeAlgorithm::BSI => 3,
            WipeAlgorithm::GUTMANN => 4,
            WipeAlgorithm::SCHNEIER => 5,
            WipeAlgorithm::PFITZNER7 => 6,
            WipeAlgorithm::PFITZNER33 => 7,
            WipeAlgorithm::RANDOM => 8,
            WipeAlgorithm::TRIM => 9,
        }
    }

    /// The algorithm that the native library knows by `raw`, if there is one.
    pub open spec fn spec_from_raw(raw: u32) -> Option<WipeAlgorithm> {
        if raw == 0 {
            Some(WipeAlgorithm::ZERO)
        } else if raw == 1 {
            Some(WipeAlgorithm::NNSA)
        } else if raw == 2 {
            Some(WipeAlgorithm::DOD)
        } else if raw == 3 {
            Some(WipeAlgorithm::BSI)
        } else if raw == 4 {
            Some(WipeAlgorithm::GUTMANN)
        } else if raw == 5 {
            Some(WipeAlgorithm::SCHNEIER)
        } else if raw == 6 {
            Some(WipeAlgorithm::PFITZNER7)
        } else if raw == 7 {
            Some(WipeAlgorithm::PFITZNER33)
        } else if raw == 8 {
            Some(WipeAlgorithm::RANDOM)
        } else if raw == 9 {
            Some(WipeAlgorithm::TRIM)
        } else {
            None
        }
    }

    /// Encodes this algorithm for the native library.
    pub fn to_raw(self) -> (raw: u32)
        ensures
            raw == self.spec_to_raw(),
    {
        match self {
            WipeAlgorithm::ZERO => 0,
            WipeAlgorithm::NNSA => 1,
            WipeAlgorithm::DOD => 2,
            WipeAlgorithm::BSI => 3,
            WipeAlgorithm::GUTMANN => 4,
            WipeAlgorithm::SCHNEIER => 5,
            WipeAlgorithm::PFITZNER7 => 6,
            WipeAlgorithm::PFITZNER33 => 7,
            WipeAlgorithm::RANDOM => 8,
            WipeAlgorithm::TRIM => 9,
        }
    }

    /// Decodes an integer that the native library handed back. A code that
    /// names no algorithm is an error, never some default.
    pub fn from_raw(raw: u32) -> (decoded: Result<WipeAlgorithm, Error>)
        ensures
            (match decoded {
                Ok(value) => WipeAlgorithm::spec_from_raw(raw) == Some(value),
                Err(e) => WipeAlgorithm::spec_from_raw(raw) is None && e == (Error::UnknownCode {
                    value: raw,
                }),
            }),
    {
        if raw == 0 {
            Ok(WipeAlgorithm::ZERO)
        } else if raw == 1 {
            Ok(WipeAlgorithm::NNSA)
        } else if raw == 2 {
            Ok(WipeAlgorithm::DOD)
        } else if raw == 3 {
            Ok(WipeAlgorithm::BSI)
        } else if raw == 4 {
            Ok(WipeAlgorithm::GUTMANN)
        } else if raw == 5 {
            Ok(WipeAlgorithm::SCHNEIER)
        } else if raw == 6 {
            Ok(WipeAlgorithm::PFITZNER7)
        } else if raw == 7 {
            Ok(WipeAlgorithm::PFITZNER33)
        } else if raw == 8 {
            Ok(WipeAlgorithm::RANDOM)
        } else if raw == 9 {
            Ok(WipeAlgorithm::TRIM)
        } else {
            Err(Error::UnknownCode { value: raw })
        }
    }

    /// Decoding the code of an algorithm gives that algorithm back.
    pub proof fn lemma_raw_round_trip(self)
        ensures
            WipeAlgorithm::spec_from_raw(self.spec_to_raw()) == Some(self),
    {
    }
}

/// What a volume is made of.
///
/// An enumeration: exactly one variant applies, and codes are never combined.
#[allow(non_camel_case_types)]
#[derive(Clone, Copy, Debug, PartialEq, Eq, Structural)]
pub enum Type {
    FILE,
    BLOCK,
    DIR,
    NETWORK,
    NETDIR,
    PLOOP,
}

impl Type {
    /// The integer that the native library knows this volume type by.
    pub open spec fn spec_to_raw(self) -> u32 {
        match self {
            Type::FILE => 0,
            Type::BLOCK => 1,
            Type::DIR => 2,
            Type::NETWORK => 3,
            Type::NETDIR => 4,
            Type::PLOOP => 5,
        }
    }

    /// The volume type that the native library knows by `raw`, if there is one.
    pub open spec fn spec_from_raw(raw: u32) -> Option<Type> {
        if raw == 0 {
            Some(Type::FILE)
        } else if raw == 1 {
            Some(Type::BLOCK)
        } else if raw == 2 {
            Some(Type::DIR)
        } else if raw == 3 {
            Some(Type::NETWORK)
        } else if raw == 4 {
            Some(Type::NETDIR)
        } else if raw == 5 {
            Some(Type::PLOOP)
        } else {
            None
        }
    }

    /// Encodes this volume type for the native library.
    pub fn to_raw(self) -> (raw: u32)
        ensures
            raw == self.spec_to_raw(),
    {
        match self {
            Type::FILE => 0,
            Type::BLOCK => 1,
            Type::DIR => 2,
            Type::NETWORK => 3,
            Type::NETDIR => 4,
            Type::PLOOP => 5,
        }
    }

    /// Decodes an integer that the native library handed back. A code that
    /// names no volume type is an error, never some default.
    pub fn from_raw(raw: u32) -> (decoded: Result<Type, Error>)
        ensures
            (match decoded {
                Ok(value) => Type::spec_from_raw(raw) == Some(value),
                Err(e) => Type::spec_from_raw(raw) is None && e == (Error::UnknownCode {
                    value: raw,
                }),
            }),
    {
        if raw == 0 {
            Ok(Type::FILE)
        } else if raw == 1 {
            Ok(Type::BLOCK)
        } else if raw == 2 {
            Ok(Type::DIR)
        } else if raw == 3 {
            Ok(Type::NETWORK)
        } else if raw == 4 {
            Ok(Type::NETDIR)
        } else if raw == 5 {
            Ok(Type::PLOOP)
        } else {
            Err(Error::UnknownCode { value: raw })
        }
    }

    /// Decoding the code of a volume type gives that volume type back.
    pub proof fn lemma_raw_round_trip(self)
        ensures
            Type::spec_from_raw(self.spec_to_raw()) == Some(self),
    {
    }
}

/// What the native library reports of a volume.
#[derive(Clone, Copy, Debug, PartialEq, Eq, Structural)]
pub struct StorageVolInfo {
    /// What the volume is made of.
    pub kind: Type,
    /// Logical size bytes.
    pub capacity: u64,
    /// Current allocation bytes
    pub allocation: u64,
}

impl StorageVolInfo {
    /// Reads the record that the native library filled in. The byte counts
    /// are taken as they are; a type code that names no volume type is an
    /// error.
    pub fn from_ptr(ptr: &virStorageVolInfo) -> (decoded: Result<StorageVolInfo, Error>)
        ensures
            (match decoded {
                Ok(info) => Type::spec_from_raw(ptr.kind as u32) == Some(info.kind)
                    && info.capacity == ptr.capacity && info.allocation == ptr.allocation,
                Err(e) => Type::spec_from_raw(ptr.kind as u32) is None && e == (Error::UnknownCode {
                    value: ptr.kind as u32,
                }),
            }),
    {
        match Type::from_raw(ptr.kind as u32) {
            Ok(kind) => Ok(
                StorageVolInfo { kind, capacity: ptr.capacity as u64, allocation: ptr.allocation as u64 },
            ),
            Err(e) => Err(e),
        }
    }
}

/// A native call that fills in a volume's info record and answers with an
/// integer: `-1` on failure.
///
/// The record is [`virStorageVolInfo::default`] when the call is made.
#[derive(Debug, PartialEq, Eq)]
pub enum InfoCall {
    /// `virStorageVolGetInfo(vol, info)`
    GetInfo { vol: virStorageVolPtr },
    /// `virStorageVolGetInfoFlags(vol, info, flags)`
    GetInfoFlags { vol: virStorageVolPtr, flags: u32 },
}

impl InfoCall {
    /// What the call's answer `ret` means, with `info` as the call left it:
    /// failure if `ret` is `-1`, else what [`StorageVolInfo::from_ptr`] reads
    /// in the record.
    pub fn reply(&self, ret: i32, info: &virStorageVolInfo) -> (step: Step<StorageVolInfo>)
        ensures
            ret == -1 ==> step == Step::<StorageVolInfo>::ReadError,
            ret != -1 ==> (match Type::spec_from_raw(info.kind as u32) {
                Some(kind) => step == Step::Done(
                    Ok::<StorageVolInfo, Error>(
                        StorageVolInfo { kind, capacity: info.capacity, allocation: info.allocation },
                    ),
                ),
                None => step == Step::Done(
                    Err::<StorageVolInfo, Error>(Error::UnknownCode { value: info.kind as u32 }),
                ),
            }),
    {
        if ret == -1 {
            return Step::ReadError;
        }
        Step::Done(StorageVolInfo::from_ptr(info))
    }
}

/// A native call that answers with the handle of a storage volume: null on
/// failure.
#[derive(Debug, PartialEq, Eq)]
pub enum StorageVolCall {
    /// `virStorageVolCreateXML(pool, xml, flags)`
    CreateXML { pool: virStoragePoolPtr, xml: Vec<u8>, flags: u32 },
    /// `virStorageVolCreateXMLFrom(pool, xml, from, flags)`
    CreateXMLFrom { pool: virStoragePoolPtr, xml: Vec<u8>, from: virStorageVolPtr, flags: u32 },
    /// `virStorageVolLookupByName(pool, name)`
    LookupByName { pool: virStoragePoolPtr, name: Vec<u8> },
    /// `virStorageVolLookupByKey(conn, key)`
    LookupByKey { conn: virConnectPtr, key: Vec<u8> },
    /// `virStorageVolLookupByPath(conn, path)`
    LookupByPath { conn: virConnectPtr, path: Vec<u8> },
}

impl StorageVolCall {
    /// What the call's answer means: failure if it is the null pointer, else
    /// a new wrapper that owns the handle.
    pub fn reply(&self, ptr: virStorageVolPtr) -> (step: Step<StorageVol>)
        ensures
            ptr.addr == 0 ==> step == Step::<StorageVol>::ReadError,
            ptr.addr != 0 ==> (step matches Step::Done(Ok(vol)) && vol@ == Some(ptr)),
    {
        if ptr.is_null() {
            return Step::ReadError;
        }
        Step::Done(Ok(StorageVol::new(ptr)))
    }
}

/// The owner of one native storage volume handle.
///
/// A volume comes from the answer to a [`StorageVolCall`] or from
/// [`StorageVol::new`]. It holds its handle until a release call works, and
/// nothing but a release may be asked of it after that.
#[derive(Debug, PartialEq, Eq)]
pub struct StorageVol {
    ptr: Option<virStorageVolPtr>,
}

impl View for StorageVol {
    type V = Option<virStorageVolPtr>;

    /// The handle held, `None` once it is released.
    closed spec fn view(&self) -> Option<virStorageVolPtr> {
        self.ptr
    }
}

impl StorageVol {
    /// Takes ownership of the handle `ptr`.
    pub fn new(ptr: virStorageVolPtr) -> (vol: StorageVol)
        ensures
            vol@ == Some(ptr),
    {
        StorageVol { ptr: Some(ptr) }
    }

    /// Whether the handle is still held.
    pub fn is_live(&self) -> (live: bool)
        ensures
            live == (self@ is Some),
    {
        self.ptr.is_some()
    }

    /// The handle held, for a call that borrows it.
    pub fn as_ptr(&self) -> (ptr: virStorageVolPtr)
        requires
            self@ is Some,
        ensures
            self@ == Some(ptr),
    {
        self.ptr.unwrap()
    }

    /// Asks for the connection that the volume belongs to.
    pub fn get_connect(&self) -> (call: ConnectCall)
        requires
            self@ is Some,
        ensures
            (call matches ConnectCall::StorageVolGetConnect { vol } && self@ == Some(vol)),
    {
        ConnectCall::StorageVolGetConnect { vol: self.as_ptr() }
    }

    /// Asks to make, in `pool`, the volume that the XML document `xml`
    /// describes.
    pub fn create_xml(pool: &StoragePool, xml: &str, flags: CreateFlags) -> (call: StorageVolCall)
        requires
            pool@ is Some,
            no_nul(xml.spec_bytes()),
        ensures
            (call matches StorageVolCall::CreateXML { pool: p, xml: x, flags: f } && pool@ == Some(p)
                && x@ == c_chars(xml@) && f == flags.spec_to_raw()),
    {
        StorageVolCall::CreateXML {
            pool: pool.as_ptr(),
            xml: string_to_c_chars(xml),
            flags: flags.to_raw(),
        }
    }

    /// Asks to make, in `pool`, the volume that the XML document `xml`
    /// describes, with the content of `vol`.
    pub fn create_xml_from(
        pool: &StoragePool,
        xml: &str,
        vol: &StorageVol,
        flags: CreateFlags,
    ) -> (call: StorageVolCall)
        requires
            pool@ is Some,
            vol@ is Some,
            no_nul(xml.spec_bytes()),
        ensures
            (call matches StorageVolCall::CreateXMLFrom { pool: p, xml: x, from, flags: f } && pool@
                == Some(p) && x@ == c_chars(xml@) && vol@ == Some(from) && f
                == flags.spec_to_raw()),
    {
        StorageVolCall::CreateXMLFrom {
            pool: pool.as_ptr(),
            xml: string_to_c_chars(xml),
            from: vol.as_ptr(),
            flags: flags.to_raw(),
        }
    }

    /// Asks for the volume called `name` in `pool`.
    pub fn lookup_by_name(pool: &StoragePool, name: &str) -> (call: StorageVolCall)
        requires
            pool@ is Some,
            no_nul(name.spec_bytes()),
        ensures
            (call matches StorageVolCall::LookupByName { pool: p, name: n } && pool@ == Some(p)
                && n@ == c_chars(name@)),
    {
        StorageVolCall::LookupByName { pool: pool.as_ptr(), name: string_to_c_chars(name) }
    }

    /// Asks for the volume with the key `key`.
    pub fn lookup_by_key(conn: &Connect, key: &str) -> (call: StorageVolCall)
        requires
            conn@ is Some,
            no_nul(key.spec_bytes()),
        ensures
            (call matches StorageVolCall::LookupByKey { conn: c, key: k } && conn@ == Some(c) && k@
                == c_chars(key@)),
    {
        StorageVolCall::LookupByKey { conn: conn.as_ptr(), key: string_to_c_chars(key) }
    }

    /// Asks for the volume at the path `path`.
    pub fn lookup_by_path(conn: &Connect, path: &str) -> (call: StorageVolCall)
        requires
            conn@ is Some,
            no_nul(path.spec_bytes()),
        ensures
            (call matches StorageVolCall::LookupByPath { conn: c, path: p } && conn@ == Some(c)
                && p@ == c_chars(path@)),
    {
        StorageVolCall::LookupByPath { conn: conn.as_ptr(), path: string_to_c_chars(path) }
    }

    /// Asks for the volume's name, which is unique within its pool.
    pub fn get_name(&self) -> (call: TextCall)
        requires
            self@ is Some,
        ensures
            (call matches TextCall::StorageVolGetName { vol } && self@ == Some(vol)),
    {
        TextCall::StorageVolGetName { vol: self.as_ptr() }
    }

    /// Asks for the volume's key, which is unique among all volumes.
    pub fn get_key(&self) -> (call: TextCall)
        requires
            self@ is Some,
        ensures
            (call matches TextCall::StorageVolGetKey { vol } && self@ == Some(vol)),
    {
        TextCall::StorageVolGetKey { vol: self.as_ptr() }
    }

    /// Asks for the volume's path.
    pub fn get_path(&self) -> (call: TextCall)
        requires
            self@ is Some,
        ensures
            (call matches TextCall::StorageVolGetPath { vol } && self@ == Some(vol)),
    {
        TextCall::StorageVolGetPath { vol: self.as_ptr() }
    }

    /// Asks for the XML document that describes the volume.
    pub fn get_xml_desc(&self, flags: u32) -> (call: TextCall)
        requires
            self@ is Some,
        ensures
            (call matches TextCall::StorageVolGetXMLDesc { vol, flags: f } && self@ == Some(vol)
                && f == flags),
    {
        TextCall::StorageVolGetXMLDesc { vol: self.as_ptr(), flags }
    }

    /// The call that [`StorageVol::delete`] asks for, of a wrapper that holds
    /// `held`.
    pub open spec fn spec_delete(held: Option<virStorageVolPtr>, flags: u32) -> Option<ReleaseCall> {
        match held {
            Some(ptr) => Some(ReleaseCall::StorageVolDelete { vol: ptr, flags }),
            None => None,
        }
    }

    /// The call that [`StorageVol::free`] asks for, of a wrapper that holds
    /// `held`.
    pub open spec fn spec_free(held: Option<virStorageVolPtr>) -> Option<ReleaseCall> {
        match held {
            Some(ptr) => Some(ReleaseCall::StorageVolFree { vol: ptr }),
            None => None,
        }
    }

    /// Asks to delete the volume from its pool, which is a release. Nothing
    /// is asked where the handle is released already.
    pub fn delete(&self, flags: u32) -> (call: Option<ReleaseCall>)
        ensures
            call == StorageVol::spec_delete(self@, flags),
    {
        match self.ptr {
            Some(ptr) => Some(ReleaseCall::StorageVolDelete { vol: ptr, flags }),
            None => None,
        }
    }

    /// Asks to overwrite the volume's content.
    pub fn wipe(&self, flags: u32) -> (call: StatusCall)
        requires
            self@ is Some,
        ensures
            (call matches StatusCall::StorageVolWipe { vol, flags: f } && self@ == Some(vol) && f
                == flags),
    {
        StatusCall::StorageVolWipe { vol: self.as_ptr(), flags }
    }

    /// Asks to overwrite the volume's content with the pattern of `algo`.
    pub fn wipe_pattern(&self, algo: WipeAlgorithm, flags: u32) -> (call: StatusCall)
        requires
            self@ is Some,
        ensures
            (call matches StatusCall::StorageVolWipePattern { vol, algorithm, flags: f } && self@
                == Some(vol) && algorithm == algo.spec_to_raw() && f == flags),
    {
        StatusCall::StorageVolWipePattern { vol: self.as_ptr(), algorithm: algo.to_raw(), flags }
    }

    /// Asks to release the handle. Nothing is asked where it is released
    /// already.
    pub fn free(&self) -> (call: Option<ReleaseCall>)
        ensures
            call == StorageVol::spec_free(self@),
    {
        match self.ptr {
            Some(ptr) => Some(ReleaseCall::StorageVolFree { vol: ptr }),
            None => None,
        }
    }

    /// What the answer `ret` to a release call means: failure if it is `-1`,
    /// which leaves the handle held; else success, after which it is held no
    /// more.
    pub fn release_reply(&mut self, ret: i32) -> (step: Step<()>)
        ensures
            final(self)@ == held_after_release(old(self)@, ret),
            ret == -1 ==> step == Step::<()>::ReadError,
            ret != -1 ==> step == Step::Done(Ok::<(), Error>(())),
    {
        if ret == -1 {
            return Step::ReadError;
        }
        self.ptr = None;
        Step::Done(Ok(()))
    }

    /// Release is idempotent. Once a release call has worked, whatever the
    /// wrapper held before, a further release asks nothing of the native
    /// library, and no answer changes what the wrapper holds.
    pub proof fn lemma_release_idempotent(
        held: Option<virStorageVolPtr>,
        ret: i32,
        flags: u32,
        again: i32,
    )
        requires
            ret != -1,
        ensures
            StorageVol::spec_free(held_after_release(held, ret)) is None,
            StorageVol::spec_delete(held_after_release(held, ret), flags) is None,
            held_after_release(held_after_release(held, ret), again) == held_after_release(
                held,
                ret,
            ),
    {
    }

    /// Asks to change the volume's capacity to `capacity` bytes, read as the
    /// resize flags in `flags` say.
    pub fn resize(&self, capacity: u64, flags: u32) -> (call: CountCall)
        requires
            self@ is Some,
        ensures
            (call matches CountCall::StorageVolResize { vol, capacity: c, flags: f } && self@
                == Some(vol) && c == capacity && f == flags),
    {
        CountCall::StorageVolResize { vol: self.as_ptr(), capacity, flags }
    }

    /// Asks for the volume's type, capacity and allocation.
    pub fn get_info(&self) -> (call: InfoCall)
        requires
            self@ is Some,
        ensures
            (call matches InfoCall::GetInfo { vol } && self@ == Some(vol)),
    {
        InfoCall::GetInfo { vol: self.as_ptr() }
    }

    /// Asks for the volume's type, capacity and allocation, the last as
    /// `flags` says to measure it.
    pub fn get_info_flags(&self, flags: u32) -> (call: InfoCall)
        requires
            self@ is Some,
        ensures
            (call matches InfoCall::GetInfoFlags { vol, flags: f } && self@ == Some(vol) && f
                == flags),
    {
        InfoCall::GetInfoFlags { vol: self.as_ptr(), flags }
    }

    /// Asks to send `length` bytes of the volume's content, from `offset` on,
    /// down `stream`.
    pub fn download(&self, stream: &Stream, offset: u64, length: u64, flags: u32) -> (call: StatusCall)
        requires
            self@ is Some,
            stream@ is Some,
        ensures
            (call matches StatusCall::StorageVolDownload {
                vol,
                stream: s,
                offset: o,
                length: l,
                flags: f,
            } && self@ == Some(vol) && stream@ == Some(s) && o == offset && l == length && f
                == flags),
    {
        StatusCall::StorageVolDownload {
            vol: self.as_ptr(),
            stream: stream.as_ptr(),
            offset,
            length,
            flags,
        }
    }

    /// Asks to write what comes down `stream` into the volume: `length` bytes,
    /// from `offset` on.
    pub fn upload(&self, stream: &Stream, offset: u64, length: u64, flags: u32) -> (call: StatusCall)
        requires
            self@ is Some,
            stream@ is Some,
        ensures
            (call matches StatusCall::StorageVolUpload {
                vol,
                stream: s,
                offset: o,
                length: l,
                flags: f,
            } && self@ == Some(vol) && stream@ == Some(s) && o == offset && l == length && f
                == flags),
    {
        StatusCall::StorageVolUpload {
            vol: self.as_ptr(),
            stream: stream.as_ptr(),
            offset,
            length,
            flags,
        }
    }
}

} // verus!
