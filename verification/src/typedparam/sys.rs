//! The native typed-parameter record.

use vstd::prelude::*;

verus! {

/// The length of a typed parameter's name field, terminating NUL included.
pub const FIELD_LENGTH: usize = 80;

/// One entry of the native library's generic key/value exchange: a name of
/// fixed size, a type tag, and a 64-bit value, in this order.
#[allow(non_camel_case_types)]
#[derive(Clone, Copy)]
pub struct virTypedParameter {
    /// The parameter's name, NUL-terminated.
    pub field: [libc::c_char; FIELD_LENGTH],
    /// The code of the kind of value held.
    pub typed: libc::c_int,
    /// The value, as 64 raw bits.
    pub value: libc::c_ulonglong,
}

impl Default for virTypedParameter {
    /// The all-zero record: an empty name, no type, value 0.
    fn default() -> (param: virTypedParameter)
        ensures
            forall|i: int| 0 <= i < FIELD_LENGTH ==> param.field[i] == 0,
            param.typed == 0,
            param.value == 0,
    {
        virTypedParameter { field: [0; FIELD_LENGTH], typed: 0, value: 0 }
    }
}

} // verus!
