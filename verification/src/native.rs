//! The native boundary as data: what goes into a call and what comes out.
//!
//! The native library signals failure in its return value: a null pointer
//! where it answers with a pointer, `-1` where it answers with an integer. The
//! reason for a failure is not in the answer. It sits in a per-thread slot that
//! the next native call overwrites, so it has to be read at once.
//!
//! A call is described by a value of one of the `..Call` types, here and
//! beside the wrappers, which are sorted by what the answer means. Each has a
//! `reply` function that takes the answer and gives a [`Step`]. The answer to
//! a [`ReleaseCall`] goes to the wrapper that asked for the call, because it
//! changes what the wrapper holds.

use vstd::prelude::*;
use vstd::slice::*;
use crate::error::Error;
use crate::error::LastError;
use crate::secret::sys::virSecretPtr;
use crate::storage_vol::sys::virStorageVolPtr;
use crate::stream::sys::virStreamPtr;
use crate::text::c_chars_to_string;
use crate::text::c_str;
use crate::text::is_text_of;

verus! {

/// What is left to do once a native call has answered.
#[derive(Debug, PartialEq, Eq)]
pub enum Step<T> {
    /// Nothing: this is the operation's result.
    Done(Result<T, Error>),
    /// The call answered with its failure sentinel. The error channel is to be
    /// read now, before any other native call on this thread; what
    /// [`Error::new`] makes of it is the operation's error.
    ReadError,
}

impl<T> Step<T> {
    /// Whether the error channel has to be read before the operation's result
    /// is known.
    pub fn needs_error(&self) -> (needed: bool)
        ensures
            needed == (self is ReadError),
    {
        match self {
            Step::Done(_) => false,
            Step::ReadError => true,
        }
    }

    /// The operation's result. `last` is the content of the error channel,
    /// which is looked at only where [`Step::needs_error`] says so: the result
    /// is then the native failure that [`Error::new`] captures from it.
    pub fn finish(self, last: Option<LastError>) -> (result: Result<T, Error>)
        ensures
            self matches Step::Done(done) ==> result == done,
            self is ReadError ==> (result matches Err(e) && e.captures(last)),
    {
        match self {
            Step::Done(done) => done,
            Step::ReadError => Err(Error::new(last)),
        }
    }
}

/// A native call whose integer answer says only whether it worked: `-1` if
/// not.
#[derive(Debug, PartialEq, Eq)]
pub enum StatusCall {
    /// `virSecretSetValue(secret, value, size, flags)`; `size` counts the
    /// bytes of `value` that the native library is to read.
    SecretSetValue { secret: virSecretPtr, value: Vec<u8>, size: u32, flags: u32 },
    /// `virStorageVolWipe(vol, flags)`
    StorageVolWipe { vol: virStorageVolPtr, flags: u32 },
    /// `virStorageVolWipePattern(vol, algorithm, flags)`
    StorageVolWipePattern { vol: virStorageVolPtr, algorithm: u32, flags: u32 },
    /// `virStorageVolDownload(vol, stream, offset, length, flags)`
    StorageVolDownload {
        vol: virStorageVolPtr,
        stream: virStreamPtr,
        offset: u64,
        length: u64,
        flags: u32,
    },
    /// `virStorageVolUpload(vol, stream, offset, length, flags)`
    StorageVolUpload {
        vol: virStorageVolPtr,
        stream: virStreamPtr,
        offset: u64,
        length: u64,
        flags: u32,
    },
    /// `virStreamFinish(stream)`
    StreamFinish { stream: virStreamPtr },
    /// `virStreamAbort(stream)`
    StreamAbort { stream: virStreamPtr },
}

impl StatusCall {
    /// What the call's answer `ret` means: failure if it is `-1`, success
    /// otherwise.
    pub fn reply(&self, ret: i32) -> (step: Step<()>)
        ensures
            ret == -1 ==> step == Step::<()>::ReadError,
            ret != -1 ==> step == Step::Done(Ok::<(), Error>(())),
    {
        if ret == -1 {
            return Step::ReadError;
        }
        Step::Done(Ok(()))
    }
}

/// A native call whose integer answer is the operation's value, unless it is
/// `-1`.
#[derive(Debug, PartialEq, Eq)]
pub enum CountCall {
    /// `virSecretGetUsageType(secret)`
    SecretGetUsageType { secret: virSecretPtr },
    /// `virStorageVolResize(vol, capacity, flags)`
    StorageVolResize { vol: virStorageVolPtr, capacity: u64, flags: u32 },
    /// `virStreamSend(stream, data, nbytes)`; `data` ends in a NUL that
    /// `nbytes` does not count.
    StreamSend { stream: virStreamPtr, data: Vec<u8>, nbytes: u32 },
}

impl CountCall {
    /// What the call's answer `ret` means: failure if it is `-1`, else the
    /// value `ret`, read as an unsigned integer.
    pub fn reply(&self, ret: i32) -> (step: Step<u32>)
        ensures
            ret == -1 ==> step == Step::<u32>::ReadError,
            ret != -1 ==> step == Step::Done(Ok::<u32, Error>(ret as u32)),
    {
        if ret == -1 {
            return Step::ReadError;
        }
        Step::Done(Ok(ret as u32))
    }
}

/// A native call that, where it works, ends the wrapper's hold on its handle.
/// Its integer answer is `-1` where it does not work.
///
/// The answer goes to the `release_reply` function of the wrapper that made
/// the call.
#[derive(Debug, PartialEq, Eq)]
pub enum ReleaseCall {
    /// `virSecretFree(secret)`
    SecretFree { secret: virSecretPtr },
    /// `virSecretUndefine(secret)`
    SecretUndefine { secret: virSecretPtr },
    /// `virStorageVolFree(vol)`
    StorageVolFree { vol: virStorageVolPtr },
    /// `virStorageVolDelete(vol, flags)`
    StorageVolDelete { vol: virStorageVolPtr, flags: u32 },
    /// `virStreamFree(stream)`
    StreamFree { stream: virStreamPtr },
}

/// What a wrapper holds once a release call has answered `ret`: what it held
/// before where the call failed, nothing where it worked.
pub open spec fn held_after_release<P>(held: Option<P>, ret: i32) -> Option<P> {
    if ret == -1 {
        held
    } else {
        None
    }
}

/// A native call that answers with a C string: a null pointer on failure.
///
/// The answer, as handed to [`TextCall::reply`], is the bytes behind the
/// pointer, as far as the terminating NUL or beyond, or `None` for the null
/// pointer.
#[derive(Debug, PartialEq, Eq)]
pub enum TextCall {
    /// `virSecretGetName(secret)`
    SecretGetName { secret: virSecretPtr },
    /// `virSecretGetUsageID(secret)`
    SecretGetUsageID { secret: virSecretPtr },
    /// `virSecretGetXMLDesc(secret, flags)`
    SecretGetXMLDesc { secret: virSecretPtr, flags: u32 },
    /// `virStorageVolGetName(vol)`
    StorageVolGetName { vol: virStorageVolPtr },
    /// `virStorageVolGetKey(vol)`
    StorageVolGetKey { vol: virStorageVolPtr },
    /// `virStorageVolGetPath(vol)`
    StorageVolGetPath { vol: virStorageVolPtr },
    /// `virStorageVolGetXMLDesc(vol, flags)`
    StorageVolGetXMLDesc { vol: virStorageVolPtr, flags: u32 },
}

impl TextCall {
    /// Whether the string that the call answers with belongs to the caller.
    ///
    /// A path and an XML description are written into memory that the native
    /// library allocates for the caller. A name, a key and a usage id sit
    /// inside the native object and stay its own.
    pub open spec fn spec_caller_owns_buffer(&self) -> bool {
        ||| self is SecretGetXMLDesc
        ||| self is StorageVolGetPath
        ||| self is StorageVolGetXMLDesc
    }

    /// Whether the caller has to release the string that the call answers
    /// with, once its bytes are copied out. Where this is `false` the string
    /// is the native library's and must be left alone.
    pub fn caller_owns_buffer(&self) -> (owns: bool)
        ensures
            owns == self.spec_caller_owns_buffer(),
    {
        match self {
            TextCall::SecretGetXMLDesc { .. } => true,
            TextCall::StorageVolGetPath { .. } => true,
            TextCall::StorageVolGetXMLDesc { .. } => true,
            _ => false,
        }
    }

    /// What the call's answer means: failure if it is the null pointer, else
    /// the text of the C string that starts `chars`.
    pub fn reply(&self, chars: Option<&[u8]>) -> (step: Step<String>)
        ensures
            chars is None ==> step == Step::<String>::ReadError,
            chars matches Some(bytes) ==> (step matches Step::Done(Ok(text)) && is_text_of(
                text@,
                c_str(bytes@),
            )),
    {
        match chars {
            None => Step::ReadError,
            Some(bytes) => Step::Done(Ok(c_chars_to_string(bytes))),
        }
    }
}

/// The size of the buffer that takes a UUID in its text form: 36 characters
/// and the terminating NUL.
pub const UUID_STRING_BUFLEN: usize = 37;

/// A native call that writes text into a buffer of the caller's and answers
/// with an integer: `-1` on failure.
///
/// The buffer is zeroed and [`BufferCall::capacity`] bytes long when the call
/// is made; the native library writes no further.
#[derive(Debug, PartialEq, Eq)]
pub enum BufferCall {
    /// `virSecretGetUUIDString(secret, buffer)`
    SecretGetUUIDString { secret: virSecretPtr },
    /// `virStreamRecv(stream, buffer, nbytes)`; the answer counts the bytes
    /// received.
    StreamRecv { stream: virStreamPtr, nbytes: u32 },
}

impl BufferCall {
    /// The number of bytes that the native library may write.
    pub open spec fn spec_capacity(&self) -> int {
        match self {
            BufferCall::SecretGetUUIDString { .. } => UUID_STRING_BUFLEN as int,
            BufferCall::StreamRecv { nbytes, .. } => *nbytes as int,
        }
    }

    /// The part of `buffer` that the native library has written when it
    /// answers `ret`: all of it for a UUID; for a stream the first `ret` bytes,
    /// none where `ret` is negative and no more than there are.
    pub open spec fn written(&self, ret: i32, buffer: Seq<u8>) -> Seq<u8> {
        match self {
            BufferCall::SecretGetUUIDString { .. } => buffer,
            BufferCall::StreamRecv { .. } => if ret <= 0 {
                Seq::empty()
            } else if ret >= buffer.len() {
                buffer
            } else {
                buffer.take(ret as int)
            },
        }
    }

    /// The length of the buffer to hand to the call.
    pub fn capacity(&self) -> (bytes: usize)
        ensures
            bytes == self.spec_capacity(),
    {
        match self {
            BufferCall::SecretGetUUIDString { .. } => UUID_STRING_BUFLEN,
            BufferCall::StreamRecv { nbytes, .. } => *nbytes as usize,
        }
    }

    /// What the call's answer `ret` means, with `buffer` as the call left it:
    /// failure if `ret` is `-1`, else the text of the C string that starts the
    /// written part of the buffer.
    pub fn reply(&self, ret: i32, buffer: &[u8]) -> (step: Step<String>)
        ensures
            ret == -1 ==> step == Step::<String>::ReadError,
            ret != -1 ==> (step matches Step::Done(Ok(text)) && is_text_of(
                text@,
                c_str(self.written(ret, buffer@)),
            )),
    {
        if ret == -1 {
            return Step::ReadError;
        }
        let written = match self {
            BufferCall::SecretGetUUIDString { .. } => buffer,
            BufferCall::StreamRecv { .. } => {
                if ret <= 0 {
                    slice_subrange(buffer, 0, 0)
                } else if ret as usize >= buffer.len() {
                    buffer
                } else {
                    slice_subrange(buffer, 0, ret as usize)
                }
            },
        };
        assert(written@ =~= self.written(ret, buffer@));
        Step::Done(Ok(c_chars_to_string(written)))
    }
}

} // verus!
