//! The error channel: the native library's last error as an owned value.

use vstd::prelude::*;
use crate::text::c_chars_to_string;
use crate::text::c_str;
use crate::text::is_text_of;

verus! {

/// The native library's last-error record, copied out of its per-thread slot.
pub struct LastError {
    /// The native error code.
    pub code: i32,
    /// The part of the native library that raised the error.
    pub domain: i32,
    /// The bytes of the message, as far as the terminating NUL or beyond;
    /// `None` where the record carries no message.
    pub message: Option<Vec<u8>>,
}

/// Why an operation did not give a value.
#[derive(Debug, PartialEq, Eq)]
pub enum Error {
    /// The native call answered with its failure sentinel (a null pointer or
    /// `-1`); the fields are what the error channel held right after it.
    NativeCallFailed { code: i32, domain: i32, message: String },
    /// The native call succeeded but answered with an integer code that names
    /// no variant of the enumeration it belongs to.
    UnknownCode { value: u32 },
}

impl Error {
    /// Whether `self` is the capture of the error channel's content `last`:
    /// a native failure with the record's code and domain and the text of its
    /// message.
    ///
    /// An empty channel (`None`) reads as code 0, domain 0 and no message; a
    /// record without a message reads with an empty one.
    pub open spec fn captures(self, last: Option<LastError>) -> bool {
        self matches Error::NativeCallFailed { code, domain, message } && match last {
            Some(record) => code == record.code && domain == record.domain && match record.message {
                Some(bytes) => is_text_of(message@, c_str(bytes@)),
                None => message@ == Seq::<char>::empty(),
            },
            None => code == 0 && domain == 0 && message@ == Seq::<char>::empty(),
        }
    }

    /// Captures the native library's last error as an owned value.
    ///
    /// `last` is the content of the error channel, read right after the native
    /// call that signalled failure and before any other native call.
    pub fn new(last: Option<LastError>) -> (e: Error)
        ensures
            e.captures(last),
    {
        match last {
            Some(record) => {
                let message = match record.message {
                    Some(bytes) => c_chars_to_string(bytes.as_slice()),
                    None => String::new(),
                };
                Error::NativeCallFailed { code: record.code, domain: record.domain, message }
            },
            None => Error::NativeCallFailed { code: 0, domain: 0, message: String::new() },
        }
    }
}

} // verus!
