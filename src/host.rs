//! The parts of `calimero_sys` that the library relies on, with the contracts
//! Verus takes from them.

use vstd::prelude::*;

verus! {

/// `calimero_sys::Bool`: the host's boolean, a `u32` that is not restricted to
/// zero and one.
#[verifier::external_type_specification]
#[verifier::external_body]
pub struct ExHostBool(calimero_sys::Bool);

/// The `u32` that a host boolean carries.
pub uninterp spec fn bool_bits(b: calimero_sys::Bool) -> u32;

/// Relies on `TryFrom<Bool> for bool`: zero decodes as `false`, one as `true`,
/// and every other value comes back unchanged as the error.
pub assume_specification[ <bool as core::convert::TryFrom<calimero_sys::Bool>>::try_from ](
    value: calimero_sys::Bool,
) -> (r: Result<bool, <bool as core::convert::TryFrom<calimero_sys::Bool>>::Error>)
    ensures
        r == (if bool_bits(value) == 0 {
            Ok(false)
        } else if bool_bits(value) == 1 {
            Ok(true)
        } else {
            Err(bool_bits(value))
        }),
;

/// `calimero_sys::PtrSizedInt`: a pointer-sized integer, stored as a `u64`.
#[verifier::external_type_specification]
#[verifier::external_body]
pub struct ExPtrSizedInt(calimero_sys::PtrSizedInt);

/// The `u64` that a pointer-sized integer stores.
pub uninterp spec fn ptr_sized_bits(p: calimero_sys::PtrSizedInt) -> u64;

/// Relies on `PtrSizedInt::new`: it stores `value as u64`.
pub assume_specification[ calimero_sys::PtrSizedInt::new ](value: usize) -> (r: calimero_sys::PtrSizedInt)
    ensures
        ptr_sized_bits(r) == value as u64,
;

/// Relies on `PtrSizedInt::as_usize`: it returns the stored `u64` cast to `usize`.
pub assume_specification[ calimero_sys::PtrSizedInt::as_usize ](self_: calimero_sys::PtrSizedInt) -> (r: usize)
    ensures
        r == ptr_sized_bits(self_) as usize,
;

/// `calimero_sys::RegisterId`: the number of a host register.
#[verifier::external_type_specification]
#[verifier::external_body]
pub struct ExRegisterId(calimero_sys::RegisterId);

/// The register number that a register id names.
pub uninterp spec fn register_index(r: calimero_sys::RegisterId) -> usize;

/// Relies on `RegisterId::new`: the id names register `value`.
pub assume_specification[ calimero_sys::RegisterId::new ](value: usize) -> (r: calimero_sys::RegisterId)
    ensures
        register_index(r) == value,
;

/// Relies on `RegisterId::as_usize`: it gives back the register number.
pub assume_specification[ calimero_sys::RegisterId::as_usize ](self_: calimero_sys::RegisterId) -> (r: usize)
    ensures
        r == register_index(self_),
;

} // verus!
