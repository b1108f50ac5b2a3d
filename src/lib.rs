//! Translation between the machine-word calling convention of a guest script
//! engine and the typed descriptors of the Calimero host interface.
//!
//! The library holds what is computed at that boundary: typed host identifiers
//! made from the guest's plain integers, and host results normalised back to
//! the integers the guest reads, with a host boolean's values other than zero
//! and one passed through unchanged. The host calls themselves, and the
//! reinterpretation of guest addresses as memory, stand outside it.

pub mod host;
pub mod descriptor;
pub mod result_code;
