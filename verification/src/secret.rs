//! Secrets: passphrases and keys that the hypervisor keeps, with their
//! metadata.

use vstd::prelude::*;
use vstd::slice::*;
use vstd::string::*;
use crate::connect::Connect;
use crate::connect::ConnectCall;
use crate::connect::sys::virConnectPtr;
use crate::error::Error;
use crate::native::BufferCall;
use crate::native::CountCall;
use crate::native::ReleaseCall;
use crate::native::StatusCall;
use crate::native::Step;
use crate::native::TextCall;
use crate::text::c_chars;
use crate::text::c_uint_len;
use crate::native::held_after_release;
use crate::text::length_to_c_uint;
use crate::text::no_nul;
use crate::text::string_to_c_chars;
use crate::secret::sys::virSecretPtr;

pub mod sys;

verus! {

/// What an XML description of a secret is to hold.
///
/// A group of flags: a call takes the bitwise OR of the codes of those that
/// apply.
#[allow(non_camel_case_types)]
#[derive(Clone, Copy, Debug, PartialEq, Eq, Structural)]
pub enum XMLFlags {
    INACTIVE,
}

impl XMLFlags {
    /// The integer that the native library knows this flag by.
    pub open spec fn spec_to_raw(self) -> u32 {
        match self {
            XMLFlags::INACTIVE => 1,
        }
    }

    /// The flag that the native library knows by `raw`, if there is one.
    pub open spec fn spec_from_raw(raw: u32) -> Option<XMLFlags> {
        if raw == 1 {
            Some(XMLFlags::INACTIVE)
        } else {
            None
        }
    }

    /// Encodes this flag for the native library.
    pub fn to_raw(self) -> (raw: u32)
        ensures
            raw == self.spec_to_raw(),
    {
        match self {
            XMLFlags::INACTIVE => 1,
        }
    }

    /// Decodes an integer that the native library handed back. A code that
    /// names no flag is an error, never some default.
    pub fn from_raw(raw: u32) -> (decoded: Result<XMLFlags, Error>)
        ensures
            (match decoded {
                Ok(value) => XMLFlags::spec_from_raw(raw) == Some(value),
                Err(e) => XMLFlags::spec_from_raw(raw) is None && e == (Error::UnknownCode {
                    value: raw,
                }),
            }),
    {
        if raw == 1 {
            Ok(XMLFlags::INACTIVE)
        } else {
            Err(Error::UnknownCode { value: raw })
        }
    }

    /// Decoding the code of a flag gives that flag back.
    pub proof fn lemma_raw_round_trip(self)
        ensures
            XMLFlags::spec_from_raw(self.spec_to_raw()) == Some(self),
    {
    }
}

/// The kind of object that a secret is used with.
///
/// An enumeration: exactly one variant applies, and codes are never combined.
#[allow(non_camel_case_types)]
#[derive(Clone, Copy, Debug, PartialEq, Eq, Structural)]
pub enum UsageType {
    NONE,
    VOLUME,
    CEPH,
    ISCSI,
    TLS,
}

impl UsageType {
    /// The integer that the native library knows this usage type by.
    pub open spec fn spec_to_raw(self) -> u32 {
        match self {
            UsageType::NONE => 0,
            UsageType::VOLUME => 1,
            UsageType::CEPH => 2,
            UsageType::ISCSI => 3,
            UsageType::TLS => 4,
        }
    }

    /// The usage type that the native library knows by `raw`, if there is one.
    pub open spec fn spec_from_raw(raw: u32) -> Option<UsageType> {
        if raw == 0 {
            Some(UsageType::NONE)
        } else if raw == 1 {
            Some(UsageType::VOLUME)
        } else if raw == 2 {
            Some(UsageType::CEPH)
        } else if raw == 3 {
            Some(UsageType::ISCSI)
        } else if raw == 4 {
            Some(UsageType::TLS)
        } else {
            None
        }
    }

    /// Encodes this usage type for the native library.
    pub fn to_raw(self) -> (raw: u32)
        ensures
            raw == self.spec_to_raw(),
    {
        match self {
            UsageType::NONE => 0,
            UsageType::VOLUME => 1,
            UsageType::CEPH => 2,
            UsageType::ISCSI => 3,
            UsageType::TLS => 4,
        }
    }

    /// Decodes an integer that the native library handed back. A code that
    /// names no usage type is an error, never some default.
    pub fn from_raw(raw: u32) -> (decoded: Result<UsageType, Error>)
        ensures
            (match decoded {
                Ok(value) => UsageType::spec_from_raw(raw) == Some(value),
                Err(e) => UsageType::spec_from_raw(raw) is None && e == (Error::UnknownCode {
                    value: raw,
                }),
            }),
    {
        if raw == 0 {
            Ok(UsageType::NONE)
        } else if raw == 1 {
            Ok(UsageType::VOLUME)
        } else if raw == 2 {
            Ok(UsageType::CEPH)
        } else if raw == 3 {
            Ok(UsageType::ISCSI)
        } else if raw == 4 {
            Ok(UsageType::TLS)
        } else {
            Err(Error::UnknownCode { value: raw })
        }
    }

    /// Decoding the code of a usage type gives that usage type back.
    pub proof fn lemma_raw_round_trip(self)
        ensures
            UsageType::spec_from_raw(self.spec_to_raw()) == Some(self),
    {
    }
}

/// How the hypervisor keeps a secret.
///
/// A group of flags: a call takes the bitwise OR of the codes of those that
/// apply.
#[allow(non_camel_case_types)]
#[derive(Clone, Copy, Debug, PartialEq, Eq, Structural)]
pub enum Flags {
    /// Kept in memory, never stored persistently.
    EPHEMERAL,
    /// Not `EPHEMERAL`.
    NO_EPHEMERAL,
    /// Not revealed to any caller of the native library, nor to any other
    /// node.
    PRIVATE,
    /// Not `PRIVATE`.
    NO_PRIVATE,
}

impl Flags {
    /// The integer that the native library knows this flag by.
    pub open spec fn spec_to_raw(self) -> u32 {
        match self {
            Flags::EPHEMERAL => 0,
            Flags::NO_EPHEMERAL => 1,
            Flags::PRIVATE => 2,
            Flags::NO_PRIVATE => 3,
        }
    }

    /// The flag that the native library knows by `raw`, if there is one.
    pub open spec fn spec_from_raw(raw: u32) -> Option<Flags> {
        if raw == 0 {
            Some(Flags::EPHEMERAL)
        } else if raw == 1 {
            Some(Flags::NO_EPHEMERAL)
        } else if raw == 2 {
            Some(Flags::PRIVATE)
        } else if raw == 3 {
            Some(Flags::NO_PRIVATE)
        } else {
            None
        }
    }

    /// Encodes this flag for the native library.
    pub fn to_raw(self) -> (raw: u32)
        ensures
            raw == self.spec_to_raw(),
    {
        match self {
            Flags::EPHEMERAL => 0,
            Flags::NO_EPHEMERAL => 1,
            Flags::PRIVATE => 2,
            Flags::NO_PRIVATE => 3,
        }
    }

    /// Decodes an integer that the native library handed back. A code that
    /// names no flag is an error, never some default.
    pub fn from_raw(raw: u32) -> (decoded: Result<Flags, Error>)
        ensures
            (match decoded {
                Ok(value) => Flags::spec_from_raw(raw) == Some(value),
                Err(e) => Flags::spec_from_raw(raw) is None && e == (Error::UnknownCode {
                    value: raw,
                }),
            }),
    {
        if raw == 0 {
            Ok(Flags::EPHEMERAL)
        } else if raw == 1 {
            Ok(Flags::NO_EPHEMERAL)
        } else if raw == 2 {
            Ok(Flags::PRIVATE)
        } else if raw == 3 {
            Ok(Flags::NO_PRIVATE)
        } else {
            Err(Error::UnknownCode { value: raw })
        }
    }

    /// Decoding the code of a flag gives that flag back.
    pub proof fn lemma_raw_round_trip(self)
        ensures
            Flags::spec_from_raw(self.spec_to_raw()) == Some(self),
    {
    }
}

/// A native call that answers with the handle of a secret: null on failure.
#[derive(Debug, PartialEq, Eq)]
pub enum SecretCall {
    /// `virSecretDefineXML(conn, xml, flags)`
    DefineXML { conn: virConnectPtr, xml: Vec<u8>, flags: u32 },
    /// `virSecretLookupByUUIDString(conn, uuid)`
    LookupByUUIDString { conn: virConnectPtr, uuid: Vec<u8> },
    /// `virSecretLookupByUsage(conn, usage_type, usage_id)`
    LookupByUsage { conn: virConnectPtr, usage_type: i32, usage_id: Vec<u8> },
}

impl SecretCall {
    /// What the call's answer means: failure if it is the null pointer, else
    /// a new wrapper that owns the handle.
    pub fn reply(&self, ptr: virSecretPtr) -> (step: Step<Secret>)
        ensures
            ptr.addr == 0 ==> step == Step::<Secret>::ReadError,
            ptr.addr != 0 ==> (step matches Step::Done(Ok(secret)) && secret@ == Some(ptr)),
    {
        if ptr.is_null() {
            return Step::ReadError;
        }
        Step::Done(Ok(Secret::new(ptr)))
    }
}

/// The number of bytes that a caller who asks for `size` bytes of a secret's
/// value declares to the native library: none for a negative `size`, and no
/// more than the native size type holds.
pub open spec fn declared_size(size: int) -> u32 {
    if size < 0 {
        0
    } else if size > u32::MAX {
        u32::MAX
    } else {
        size as u32
    }
}

/// The native call `virSecretGetValue(secret, size, flags)`, which answers
/// with a pointer to the secret's value: null on failure.
///
/// The answer, as handed to [`ValueCall::reply`], is the first `size` bytes
/// behind that pointer, or `None` for the null pointer. The bytes are the
/// caller's to release.
#[derive(Debug, PartialEq, Eq)]
pub struct ValueCall {
    pub secret: virSecretPtr,
    /// The number of bytes that the caller declared. No byte beyond them is
    /// read.
    pub size: u32,
    pub flags: u32,
}

impl ValueCall {
    /// What is read of an answer that holds `bytes`: the declared number of
    /// bytes, or all of them where they are fewer.
    pub open spec fn read_of(&self, bytes: Seq<u8>) -> Seq<u8> {
        if self.size <= bytes.len() {
            bytes.take(self.size as int)
        } else {
            bytes
        }
    }

    /// What the call's answer means: failure if it is the null pointer, else
    /// the declared number of bytes of the value.
    pub fn reply(&self, value: Option<&[u8]>) -> (step: Step<Vec<u8>>)
        ensures
            value is None ==> step == Step::<Vec<u8>>::ReadError,
            value matches Some(bytes) ==> (step matches Step::Done(Ok(read)) && read@
                == self.read_of(bytes@)),
    {
        match value {
            None => Step::ReadError,
            Some(bytes) => {
                let read = if self.size as usize <= bytes.len() {
                    slice_to_vec(slice_subrange(bytes, 0, self.size as usize))
                } else {
                    slice_to_vec(bytes)
                };
                Step::Done(Ok(read))
            },
        }
    }
}

/// The owner of one native secret handle.
///
/// A secret comes from the answer to a [`SecretCall`] or from [`Secret::new`].
/// It holds its handle until a release call works, and nothing but a release
/// may be asked of it after that.
#[derive(Debug, PartialEq, Eq)]
pub struct Secret {
    ptr: Option<virSecretPtr>,
}

impl View for Secret {
    type V = Option<virSecretPtr>;

    /// The handle held, `None` once it is released.
    closed spec fn view(&self) -> Option<virSecretPtr> {
        self.ptr
    }
}

impl Secret {
    /// Takes ownership of the handle `ptr`.
    pub fn new(ptr: virSecretPtr) -> (secret: Secret)
        ensures
            secret@ == Some(ptr),
    {
        Secret { ptr: Some(ptr) }
    }

    /// Whether the handle is still held.
    pub fn is_live(&self) -> (live: bool)
        ensures
            live == (self@ is Some),
    {
        self.ptr.is_some()
    }

    /// The handle held, for a call that borrows it.
    pub fn as_ptr(&self) -> (ptr: virSecretPtr)
        requires
            self@ is Some,
        ensures
            self@ == Some(ptr),
    {
        self.ptr.unwrap()
    }

    /// Asks for the connection that the secret belongs to.
    pub fn get_connect(&self) -> (call: ConnectCall)
        requires
            self@ is Some,
        ensures
            (call matches ConnectCall::SecretGetConnect { secret } && self@ == Some(secret)),
    {
        ConnectCall::SecretGetConnect { secret: self.as_ptr() }
    }

    /// Asks to define a secret from the XML document `xml`, or to change the
    /// one that the document names.
    pub fn define_xml(conn: &Connect, xml: &str, flags: u32) -> (call: SecretCall)
        requires
            conn@ is Some,
            no_nul(xml.spec_bytes()),
        ensures
            (call matches SecretCall::DefineXML { conn: c, xml: x, flags: f } && conn@ == Some(c)
                && x@ == c_chars(xml@) && f == flags),
    {
        SecretCall::DefineXML { conn: conn.as_ptr(), xml: string_to_c_chars(xml), flags }
    }

    /// Asks for the secret with the UUID that `uuid` spells out.
    pub fn lookup_by_uuid_string(conn: &Connect, uuid: &str) -> (call: SecretCall)
        requires
            conn@ is Some,
            no_nul(uuid.spec_bytes()),
        ensures
            (call matches SecretCall::LookupByUUIDString { conn: c, uuid: u } && conn@ == Some(c)
                && u@ == c_chars(uuid@)),
    {
        SecretCall::LookupByUUIDString { conn: conn.as_ptr(), uuid: string_to_c_chars(uuid) }
    }

    /// Asks for the secret that is used with the object `usageid` of the kind
    /// `usagetype`.
    pub fn lookup_by_usage(conn: &Connect, usagetype: i32, usageid: &str) -> (call: SecretCall)
        requires
            conn@ is Some,
            no_nul(usageid.spec_bytes()),
        ensures
            (call matches SecretCall::LookupByUsage { conn: c, usage_type: t, usage_id: u }
                && conn@ == Some(c) && t == usagetype && u@ == c_chars(usageid@)),
    {
        SecretCall::LookupByUsage {
            conn: conn.as_ptr(),
            usage_type: usagetype,
            usage_id: string_to_c_chars(usageid),
        }
    }

    /// Asks for the secret's name.
    pub fn get_name(&self) -> (call: TextCall)
        requires
            self@ is Some,
        ensures
            (call matches TextCall::SecretGetName { secret } && self@ == Some(secret)),
    {
        TextCall::SecretGetName { secret: self.as_ptr() }
    }

    /// Asks for the identifier of the object that the secret is used with.
    pub fn get_usage_id(&self) -> (call: TextCall)
        requires
            self@ is Some,
        ensures
            (call matches TextCall::SecretGetUsageID { secret } && self@ == Some(secret)),
    {
        TextCall::SecretGetUsageID { secret: self.as_ptr() }
    }

    /// Asks for the code of the kind of object that the secret is used with.
    pub fn get_usage_type(&self) -> (call: CountCall)
        requires
            self@ is Some,
        ensures
            (call matches CountCall::SecretGetUsageType { secret } && self@ == Some(secret)),
    {
        CountCall::SecretGetUsageType { secret: self.as_ptr() }
    }

    /// Asks for the secret's UUID in its text form.
    pub fn get_uuid_string(&self) -> (call: BufferCall)
        requires
            self@ is Some,
        ensures
            (call matches BufferCall::SecretGetUUIDString { secret } && self@ == Some(secret)),
    {
        BufferCall::SecretGetUUIDString { secret: self.as_ptr() }
    }

    /// Asks for the XML document that describes the secret.
    pub fn get_xml_desc(&self, flags: XMLFlags) -> (call: TextCall)
        requires
            self@ is Some,
        ensures
            (call matches TextCall::SecretGetXMLDesc { secret, flags: f } && self@ == Some(secret)
                && f == flags.spec_to_raw()),
    {
        TextCall::SecretGetXMLDesc { secret: self.as_ptr(), flags: flags.to_raw() }
    }

    /// Asks to set the secret's value to the bytes of `value`.
    ///
    /// The native size type has 32 bits: of a longer value the call declares
    /// the length's low 32 bits.
    pub fn set_value(&self, value: &[u8], flags: u32) -> (call: StatusCall)
        requires
            self@ is Some,
        ensures
            (call matches StatusCall::SecretSetValue { secret, value: v, size, flags: f }
                && self@ == Some(secret) && v@ == value@ && size == c_uint_len(value@.len()) && f
                == flags),
    {
        StatusCall::SecretSetValue {
            secret: self.as_ptr(),
            value: slice_to_vec(value),
            size: length_to_c_uint(value.len()),
            flags,
        }
    }

    /// Asks for `size` bytes of the secret's value.
    pub fn get_value(&self, size: isize, flags: u32) -> (call: ValueCall)
        requires
            self@ is Some,
        ensures
            self@ == Some(call.secret),
            call.size == declared_size(size as int),
            call.flags == flags,
    {
        let declared: u32 = if size <= 0 {
            0
        } else if size as usize > u32::MAX as usize {
            u32::MAX
        } else {
            size as u32
        };
        ValueCall { secret: self.as_ptr(), size: declared, flags }
    }

    /// The call that [`Secret::undefine`] asks for, of a wrapper that holds
    /// `held`.
    pub open spec fn spec_undefine(held: Option<virSecretPtr>) -> Option<ReleaseCall> {
        match held {
            Some(ptr) => Some(ReleaseCall::SecretUndefine { secret: ptr }),
            None => None,
        }
    }

    /// The call that [`Secret::free`] asks for, of a wrapper that holds `held`.
    pub open spec fn spec_free(held: Option<virSecretPtr>) -> Option<ReleaseCall> {
        match held {
            Some(ptr) => Some(ReleaseCall::SecretFree { secret: ptr }),
            None => None,
        }
    }

    /// Asks to delete the secret from the hypervisor, which is a release.
    /// Nothing is asked where the handle is released already.
    pub fn undefine(&self) -> (call: Option<ReleaseCall>)
        ensures
            call == Secret::spec_undefine(self@),
    {
        match self.ptr {
            Some(ptr) => Some(ReleaseCall::SecretUndefine { secret: ptr }),
            None => None,
        }
    }

    /// Asks to release the handle. Nothing is asked where it is released
    /// already.
    pub fn free(&self) -> (call: Option<ReleaseCall>)
        ensures
            call == Secret::spec_free(self@),
    {
        match self.ptr {
            Some(ptr) => Some(ReleaseCall::SecretFree { secret: ptr }),
            None => None,
        }
    }

    /// What the answer `ret` to a release call means: failure if it is `-1`,
    /// which leaves the handle held; else success, after which it is held no
    /// more.
    pub fn release_reply(&mut self, ret: i32) -> (step: Step<()>)
        ensures
            final(self)@ == held_after_release(old(self)@, ret),
            ret == -1 ==> step == Step::<()>::ReadError,
            ret != -1 ==> step == Step::Done(Ok::<(), Error>(())),
    {
        if ret == -1 {
            return Step::ReadError;
        }
        self.ptr = None;
        Step::Done(Ok(()))
    }

    /// Release is idempotent. Once a release call has worked, whatever the
    /// wrapper held before, a further release asks nothing of the native
    /// library, and no answer changes what the wrapper holds.
    pub proof fn lemma_release_idempotent(held: Option<virSecretPtr>, ret: i32, again: i32)
        requires
            ret != -1,
        ensures
            Secret::spec_free(held_after_release(held, ret)) is None,
            Secret::spec_undefine(held_after_release(held, ret)) is None,
            held_after_release(held_after_release(held, ret), again) == held_after_release(
                held,
                ret,
            ),
    {
    }
}

} // verus!
