use libatasmart::error::SmartError;
use libatasmart::status::{decode_bool, Status};
use nix::errno::Errno;

#[test]
fn decode_bool_zero_is_false() {
    assert!(!decode_bool(0));
}

#[test]
fn decode_bool_non_zero_is_true() {
    assert!(decode_bool(1));
    assert!(decode_bool(2));
    assert!(decode_bool(0x8000_0000));
    assert!(decode_bool(u32::MAX));
}

#[test]
fn successful_status_yields_the_value() {
    assert_eq!(Status { code: 0, errno: 0 }.into_result(7u64), Ok(7));
    assert_eq!(Status { code: 1, errno: 0 }.into_result(true), Ok(true));
    assert_eq!(Status { code: i32::MAX, errno: 0 }.into_result(()), Ok(()));
}

#[test]
fn successful_status_ignores_a_stale_error_number() {
    assert_eq!(Status { code: 0, errno: 19 }.into_result(7u64), Ok(7));
}

#[test]
fn failed_status_yields_the_device_error() {
    assert_eq!(
        Status { code: -1, errno: 19 }.into_result(7u64),
        Err(SmartError::Device { code: 19 })
    );
    assert_eq!(
        Status { code: i32::MIN, errno: 5 }.into_result(()),
        Err(SmartError::Device { code: 5 })
    );
}

#[test]
fn failure_is_a_negative_code() {
    assert!(Status { code: -1, errno: 0 }.is_failure());
    assert!(Status { code: i32::MIN, errno: 0 }.is_failure());
    assert!(!Status { code: 0, errno: 0 }.is_failure());
    assert!(!Status { code: 1, errno: 0 }.is_failure());
}

#[test]
fn capture_of_success_does_not_read_the_error_number() {
    let _ = nix::unistd::close(-1);
    assert_eq!(Status::capture(0), Status { code: 0, errno: 0 });
    let _ = nix::unistd::close(-1);
    assert_eq!(Status::capture(3), Status { code: 3, errno: 0 });
}

#[test]
fn capture_of_failure_reads_the_error_number() {
    assert_eq!(nix::unistd::close(-1), Err(Errno::EBADF));
    let status = Status::capture(-1);
    assert_eq!(status, Status { code: -1, errno: Errno::EBADF as i32 });
    assert_eq!(
        status.into_result(0u64),
        Err(SmartError::Device { code: Errno::EBADF as i32 })
    );
}

#[test]
fn capture_of_failure_after_clear_reads_zero() {
    let _ = nix::unistd::close(-1);
    Errno::clear();
    assert_eq!(Status::capture(-5), Status { code: -5, errno: 0 });
}
