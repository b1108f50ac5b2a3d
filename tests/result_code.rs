use calimero_shim::descriptor::descriptor;
use calimero_shim::result_code::{collapse, magnitude, HostBool};
use calimero_sys::PtrSizedInt;

#[test]
fn collapse_false_is_zero() {
    assert_eq!(collapse(Ok(false)), 0);
}

#[test]
fn collapse_true_is_one() {
    assert_eq!(collapse(Ok(true)), 1);
}

#[test]
fn collapse_passes_other_values_through() {
    assert_eq!(collapse(Err(2)), 2);
    assert_eq!(collapse(Err(7)), 7);
    assert_eq!(collapse(Err(u32::MAX)), u32::MAX);
}

#[test]
fn magnitude_of_zero_is_zero() {
    assert_eq!(magnitude(PtrSizedInt::new(0)), 0);
}

#[test]
fn magnitude_reports_byte_count() {
    assert_eq!(magnitude(PtrSizedInt::new(4096)), 4096);
}

#[test]
fn magnitude_reports_largest_value() {
    assert_eq!(magnitude(PtrSizedInt::new(usize::MAX)), usize::MAX as u64);
}

#[test]
fn magnitude_reports_failure_sentinel_unchanged() {
    assert_eq!(magnitude(PtrSizedInt::MAX), u64::MAX);
}

#[test]
fn descriptor_value_reaches_magnitude_unchanged() {
    assert_eq!(magnitude(descriptor(42)), 42);
    assert_eq!(magnitude(descriptor(0)), 0);
}

#[test]
fn host_bool_from_decoded_strict_values() {
    assert_eq!(HostBool::from_decoded(Ok(false)), HostBool::False);
    assert_eq!(HostBool::from_decoded(Ok(true)), HostBool::True);
}

#[test]
fn host_bool_from_decoded_keeps_other_value() {
    assert_eq!(HostBool::from_decoded(Err(2)), HostBool::Other(2));
    assert_eq!(HostBool::Other(2).code(), 2);
}

#[test]
fn host_bool_codes() {
    assert_eq!(HostBool::False.code(), 0);
    assert_eq!(HostBool::True.code(), 1);
    assert_eq!(HostBool::Other(1000).code(), 1000);
}
