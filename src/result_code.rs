//! Host results as the integers the guest reads.

use vstd::prelude::*;
use calimero_sys::{Bool, PtrSizedInt};
use crate::host::{bool_bits, ptr_sized_bits};

verus! {

/// A host boolean as the host may return it: strictly `false`, strictly
/// `true`, or some other value, which the host uses as a status of its own.
#[derive(Clone, Copy, Debug, PartialEq, Eq, Structural)]
pub enum HostBool {
    False,
    True,
    Other(u32),
}

impl HostBool {
    /// An `Other` never carries the value of `false` or `true`.
    pub open spec fn wf(self) -> bool {
        match self {
            HostBool::Other(x) => x != 0 && x != 1,
            _ => true,
        }
    }

    /// The integer the guest reads for this boolean.
    pub open spec fn code_of(self) -> u32 {
        match self {
            HostBool::False => 0,
            HostBool::True => 1,
            HostBool::Other(x) => x,
        }
    }

    /// The host boolean carried by a raw host value.
    pub open spec fn of_bits(bits: u32) -> HostBool {
        if bits == 0 {
            HostBool::False
        } else if bits == 1 {
            HostBool::True
        } else {
            HostBool::Other(bits)
        }
    }

    /// The host boolean that a decoding result stands for.
    pub open spec fn of_decoded(r: Result<bool, u32>) -> HostBool {
        match r {
            Ok(false) => HostBool::False,
            Ok(true) => HostBool::True,
            Err(x) => HostBool::of_bits(x),
        }
    }

    /// Reads a decoding result, in which an error carries the raw value.
    pub fn from_decoded(r: Result<bool, u32>) -> (h: HostBool)
        ensures
            h == HostBool::of_decoded(r),
            h.wf(),
    {
        match r {
            Ok(false) => HostBool::False,
            Ok(true) => HostBool::True,
            Err(x) => if x == 0 {
                HostBool::False
            } else if x == 1 {
                HostBool::True
            } else {
                HostBool::Other(x)
            },
        }
    }

    /// Decodes a boolean returned by the host.
    pub fn from_host(b: Bool) -> (h: HostBool)
        ensures
            h == HostBool::of_bits(bool_bits(b)),
            h.wf(),
    {
        HostBool::from_decoded(b.try_into())
    }

    /// The integer the guest reads: zero for `false`, one for `true`, and any
    /// other value passed on as it is.
    pub fn code(&self) -> (c: u32)
        ensures
            c == self.code_of(),
    {
        match *self {
            HostBool::False => 0,
            HostBool::True => 1,
            HostBool::Other(x) => x,
        }
    }
}

/// The guest's integer for a decoding result of a host boolean.
pub fn collapse(r: Result<bool, u32>) -> (code: u32)
    ensures
        code == HostBool::of_decoded(r).code_of(),
        r is Err ==> code == r->Err_0,
{
    HostBool::from_decoded(r).code()
}

/// The guest's integer for a host boolean: one for `true`, zero for `false`,
/// and any other value unchanged.
pub fn bool_to_u32(b: Bool) -> (code: u32)
    ensures
        code == bool_bits(b),
{
    HostBool::from_host(b).code()
}

/// The guest's integer for a host magnitude: the stored value, seen through
/// `usize` as the host hands it out.
pub open spec fn magnitude_of(p: PtrSizedInt) -> u64 {
    (ptr_sized_bits(p) as usize) as u64
}

/// The guest's integer for a host magnitude (a byte count or a descriptor).
pub fn magnitude(p: PtrSizedInt) -> (n: u64)
    ensures
        n == magnitude_of(p),
        ptr_sized_bits(p) <= usize::MAX ==> n == ptr_sized_bits(p),
{
    p.as_usize() as u64
}

/// A host value that is neither `false` nor `true` reaches the guest as its
/// own value, not forced to zero or one; the two strict values reach it as
/// zero and one. So decoding and collapsing give back every raw value.
pub proof fn lemma_passthrough(bits: u32)
    ensures
        bits != 0 && bits != 1 ==> HostBool::of_bits(bits) == HostBool::Other(bits),
        HostBool::of_bits(bits).code_of() == bits,
        HostBool::of_bits(bits).wf(),
{
}

/// Reading a well-formed host boolean back from its guest integer gives the
/// same boolean: the guest loses nothing of what the host said.
pub proof fn lemma_code_determines_bool(h: HostBool)
    requires
        h.wf(),
    ensures
        HostBool::of_bits(h.code_of()) == h,
{
}

/// A magnitude that fits in a `usize` reaches the guest unchanged.
pub proof fn lemma_magnitude_fidelity(p: PtrSizedInt)
    requires
        ptr_sized_bits(p) <= usize::MAX,
    ensures
        magnitude_of(p) == ptr_sized_bits(p),
{
}

} // verus!
