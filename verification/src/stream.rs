//! Streams: the channels that carry bulk data to and from the hypervisor.

use vstd::prelude::*;
use vstd::string::*;
use crate::error::Error;
use crate::native::BufferCall;
use crate::native::CountCall;
use crate::native::ReleaseCall;
use crate::native::StatusCall;
use crate::native::Step;
use crate::text::c_chars;
use crate::native::held_after_release;
use crate::text::c_uint_len;
use crate::text::length_to_c_uint;
use crate::text::no_nul;
use crate::text::string_to_c_chars;
use crate::stream::sys::virStreamPtr;

pub mod sys;

verus! {

/// What can happen on a stream that a caller may wait for.
///
/// A group of flags: a call takes the bitwise OR of the codes of those that
/// apply.
#[allow(non_camel_case_types)]
#[derive(Clone, Copy, Debug, PartialEq, Eq, Structural)]
pub enum EventType {
    READABLE,
    WRITABLE,
    ERROR,
    HANGUP,
}

impl EventType {
    /// The integer that the native library knows this event by.
    pub open spec fn spec_to_raw(self) -> u32 {
        match self {
            EventType::READABLE => 1,
            EventType::WRITABLE => 2,
            EventType::ERROR => 3,
            EventType::HANGUP => 4,
        }
    }

    /// The event that the native library knows by `raw`, if there is one.
    pub open spec fn spec_from_raw(raw: u32) -> Option<EventType> {
        if raw == 1 {
            Some(EventType::READABLE)
        } else if raw == 2 {
            Some(EventType::WRITABLE)
        } else if raw == 3 {
            Some(EventType::ERROR)
        } else if raw == 4 {
            Some(EventType::HANGUP)
        } else {
            None
        }
    }

    /// Encodes this event for the native library.
    pub fn to_raw(self) -> (raw: u32)
        ensures
            raw == self.spec_to_raw(),
    {
        match self {
            EventType::READABLE => 1,
            EventType::WRITABLE => 2,
            EventType::ERROR => 3,
            EventType::HANGUP => 4,
        }
    }

    /// Decodes an integer that the native library handed back. A code that
    /// names no event is an error, never some default.
    pub fn from_raw(raw: u32) -> (decoded: Result<EventType, Error>)
        ensures
            (match decoded {
                Ok(value) => EventType::spec_from_raw(raw) == Some(value),
                Err(e) => EventType::spec_from_raw(raw) is None && e == (Error::UnknownCode {
                    value: raw,
                }),
            }),
    {
        if raw == 1 {
            Ok(EventType::READABLE)
        } else if raw == 2 {
            Ok(EventType::WRITABLE)
        } else if raw == 3 {
            Ok(EventType::ERROR)
        } else if raw == 4 {
            Ok(EventType::HANGUP)
        } else {
            Err(Error::UnknownCode { value: raw })
        }
    }

    /// Decoding the code of an event gives that event back.
    pub proof fn lemma_raw_round_trip(self)
        ensures
            EventType::spec_from_raw(self.spec_to_raw()) == Some(self),
    {
    }
}

/// The owner of one native stream handle.
///
/// A stream holds its handle until a release call works or until it is
/// finished or aborted, which uses it up.
#[derive(Debug, PartialEq, Eq)]
pub struct Stream {
    ptr: Option<virStreamPtr>,
}

impl View for Stream {
    type V = Option<virStreamPtr>;

    /// The handle held, `None` once it is released.
    closed spec fn view(&self) -> Option<virStreamPtr> {
        self.ptr
    }
}

impl Stream {
    /// Takes ownership of the handle `ptr`.
    pub fn new(ptr: virStreamPtr) -> (stream: Stream)
        ensures
            stream@ == Some(ptr),
    {
        Stream { ptr: Some(ptr) }
    }

    /// Whether the handle is still held.
    pub fn is_live(&self) -> (live: bool)
        ensures
            live == (self@ is Some),
    {
        self.ptr.is_some()
    }

    /// The handle held, for a call that borrows it.
    pub fn as_ptr(&self) -> (ptr: virStreamPtr)
        requires
            self@ is Some,
        ensures
            self@ == Some(ptr),
    {
        self.ptr.unwrap()
    }

    /// The call that [`Stream::free`] asks for, of a wrapper that holds
    /// `held`.
    pub open spec fn spec_free(held: Option<virStreamPtr>) -> Option<ReleaseCall> {
        match held {
            Some(ptr) => Some(ReleaseCall::StreamFree { stream: ptr }),
            None => None,
        }
    }

    /// Asks to release the handle. Nothing is asked where it is released
    /// already.
    pub fn free(&self) -> (call: Option<ReleaseCall>)
        ensures
            call == Stream::spec_free(self@),
    {
        match self.ptr {
            Some(ptr) => Some(ReleaseCall::StreamFree { stream: ptr }),
            None => None,
        }
    }

    /// What the answer `ret` to a release call means: failure if it is `-1`,
    /// which leaves the handle held; else success, after which it is held no
    /// more.
    pub fn release_reply(&mut self, ret: i32) -> (step: Step<()>)
        ensures
            final(self)@ == held_after_release(old(self)@, ret),
            ret == -1 ==> step == Step::<()>::ReadError,
            ret != -1 ==> step == Step::Done(Ok::<(), Error>(())),
    {
        if ret == -1 {
            return Step::ReadError;
        }
        self.ptr = None;
        Step::Done(Ok(()))
    }

    /// Release is idempotent. Once a release call has worked, whatever the
    /// wrapper held before, a further release asks nothing of the native
    /// library, and no answer changes what the wrapper holds.
    pub proof fn lemma_release_idempotent(held: Option<virStreamPtr>, ret: i32, again: i32)
        requires
            ret != -1,
        ensures
            Stream::spec_free(held_after_release(held, ret)) is None,
            held_after_release(held_after_release(held, ret), again) == held_after_release(
                held,
                ret,
            ),
    {
    }

    /// Asks to end the stream in the regular way: all data is through. The
    /// stream is used up, whatever the answer, and is not released again.
    pub fn finish(self) -> (call: StatusCall)
        requires
            self@ is Some,
        ensures
            (call matches StatusCall::StreamFinish { stream } && self@ == Some(stream)),
    {
        StatusCall::StreamFinish { stream: self.as_ptr() }
    }

    /// Asks to end the stream at once and drop what is still under way. The
    /// stream is used up, whatever the answer, and is not released again.
    pub fn abort(self) -> (call: StatusCall)
        requires
            self@ is Some,
        ensures
            (call matches StatusCall::StreamAbort { stream } && self@ == Some(stream)),
    {
        StatusCall::StreamAbort { stream: self.as_ptr() }
    }

    /// Asks to write the bytes of `data` to the stream. The answer counts the
    /// bytes written.
    ///
    /// The native size type has 32 bits: of a longer text the call declares
    /// the length's low 32 bits.
    pub fn send(&self, data: &str) -> (call: CountCall)
        requires
            self@ is Some,
            no_nul(data.spec_bytes()),
        ensures
            (call matches CountCall::StreamSend { stream, data: d, nbytes } && self@ == Some(stream)
                && d@ == c_chars(data@) && nbytes == c_uint_len(data.spec_bytes().len())),
    {
        CountCall::StreamSend {
            stream: self.as_ptr(),
            data: string_to_c_chars(data),
            nbytes: length_to_c_uint(data.as_bytes().len()),
        }
    }

    /// Asks to read up to `size` bytes of text from the stream.
    pub fn recv(&self, size: u32) -> (call: BufferCall)
        requires
            self@ is Some,
        ensures
            (call matches BufferCall::StreamRecv { stream, nbytes } && self@ == Some(stream)
                && nbytes == size),
    {
        BufferCall::StreamRecv { stream: self.as_ptr(), nbytes: size }
    }
}

} // verus!
