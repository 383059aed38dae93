use uinput::Error;
use uinput::NulError;

use nix::errno::Errno;

#[test]
fn not_found_renders_fixed_text() {
    let e = Error::NotFound;
    assert_eq!(e.message(), "Device not found.");
}

#[test]
fn errno_conversion_preserves_variant_and_text() {
    let cause = Errno::EACCES;
    let expected = cause.to_string();
    let e = Error::from(cause);
    assert!(matches!(e, Error::Nix(Errno::EACCES)));
    assert_eq!(e.message(), expected);
}

#[test]
fn errno_conversion_is_deterministic() {
    let a = Error::from(Errno::ENOENT);
    let b = Error::from(Errno::ENOENT);
    assert!(matches!(a, Error::Nix(Errno::ENOENT)));
    assert!(matches!(b, Error::Nix(Errno::ENOENT)));
    assert_eq!(a.message(), b.message());
    assert_eq!(a.message(), Errno::ENOENT.to_string());
}

#[test]
fn io_conversion_preserves_variant_and_text() {
    let cause = std::io::Error::new(std::io::ErrorKind::BrokenPipe, "broken pipe");
    let expected = cause.to_string();
    let e = Error::from(cause);
    assert!(matches!(e, Error::IoError(_)));
    assert_eq!(e.message(), expected);
    assert_eq!(e.message(), "broken pipe");
}

#[test]
fn io_conversion_keeps_os_error_text() {
    let cause = std::io::Error::from_raw_os_error(13);
    let expected = cause.to_string();
    let e = Error::from(cause);
    assert!(matches!(e, Error::IoError(_)));
    assert_eq!(e.message(), expected);
}

#[test]
fn discovery_failure_stays_distinct_from_io() {
    let cause = std::io::Error::new(std::io::ErrorKind::PermissionDenied, "permission denied");
    let expected = cause.to_string();
    let e = Error::device_discovery(cause);
    assert!(matches!(e, Error::Udev(_)));
    assert!(!matches!(e, Error::IoError(_)));
    assert_eq!(e.message(), expected);
}

#[test]
fn nul_at_position_three_is_invalid_name() {
    let name = vec![b'a', b'b', b'c', 0, b'd'];
    let nul = NulError::check(name).unwrap_err();
    assert_eq!(nul.nul_position(), 3);
    let expected = nul.message();
    let e = Error::from(nul);
    assert!(matches!(e, Error::Nul(_)));
    assert_eq!(e.message(), expected);
    assert_eq!(e.message(), "nul byte found in provided data at position: 3");
}

#[test]
fn check_accepts_name_without_nul() {
    let name = vec![b'a', b'b', b'c'];
    let ok = NulError::check(name).unwrap();
    assert_eq!(ok, vec![b'a', b'b', b'c']);
}

#[test]
fn check_records_first_nul_only() {
    let name = vec![0, b'x', 0];
    let nul = NulError::check(name).unwrap_err();
    assert_eq!(nul.nul_position(), 0);
    assert_eq!(nul.message(), "nul byte found in provided data at position: 0");
    assert_eq!(nul.into_vec(), vec![0, b'x', 0]);
}

#[test]
fn positions_with_several_digits_render_in_decimal() {
    let mut name = vec![b'n'; 120];
    name.push(0);
    let nul = NulError::check(name).unwrap_err();
    assert_eq!(nul.nul_position(), 120);
    assert_eq!(nul.message(), "nul byte found in provided data at position: 120");
}
