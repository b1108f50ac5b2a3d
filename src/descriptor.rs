//! Typed host identifiers made from the guest's plain integers.

use vstd::prelude::*;
use calimero_sys::{PtrSizedInt, RegisterId};
use crate::host::{ptr_sized_bits, register_index};

verus! {

/// The register id for a guest register number. The number is taken as a
/// `usize`, as the host's own identifiers are: on a 32-bit target only its low
/// bits remain.
pub fn register_id(register: u64) -> (id: RegisterId)
    ensures
        register_index(id) == register as usize,
        register <= usize::MAX ==> register_index(id) == register,
{
    RegisterId::new(#[verifier::truncate] (register as usize))
}

/// The register number that a register id names.
pub fn register_number(id: RegisterId) -> (register: u64)
    ensures
        register == register_index(id),
{
    id.as_usize() as u64
}

/// The host descriptor for a guest descriptor value, taken as a `usize` in
/// the same way as a register number.
pub fn descriptor(fd: u64) -> (d: PtrSizedInt)
    ensures
        ptr_sized_bits(d) == (fd as usize) as u64,
        fd <= usize::MAX ==> ptr_sized_bits(d) == fd,
{
    PtrSizedInt::new(#[verifier::truncate] (fd as usize))
}

} // verus!
