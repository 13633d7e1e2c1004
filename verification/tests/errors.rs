use libatasmart::error::{SmartError, EINVAL, ENODEV};
use nix::errno::Errno;

#[test]
fn device_error_maps_to_its_errno() {
    let e = SmartError::Device { code: Errno::ENODEV as i32 };
    assert_eq!(e.errno(), Errno::ENODEV);
    assert_eq!(SmartError::Device { code: 2 }.errno(), Errno::ENOENT);
    assert_eq!(SmartError::Device { code: 13 }.errno(), Errno::EACCES);
    assert_eq!(SmartError::Device { code: 5 }.errno(), Errno::EIO);
}

#[test]
fn device_error_keeps_its_code() {
    assert_eq!(SmartError::Device { code: 19 }.code(), 19);
    assert_eq!(SmartError::Device { code: 0 }.code(), 0);
    assert_eq!(SmartError::Device { code: -7 }.code(), -7);
    assert_eq!(SmartError::Device { code: i32::MAX }.code(), i32::MAX);
}

#[test]
fn unsupported_is_no_such_device() {
    assert_eq!(SmartError::Unsupported.code(), 19);
    assert_eq!(SmartError::Unsupported.code(), ENODEV);
    assert_eq!(SmartError::Unsupported.errno(), Errno::ENODEV);
}

#[test]
fn decode_is_invalid_argument() {
    assert_eq!(SmartError::Decode.code(), 22);
    assert_eq!(SmartError::Decode.code(), EINVAL);
    assert_eq!(SmartError::Decode.errno(), Errno::EINVAL);
}

#[test]
fn error_numbers_are_the_platform_numbers() {
    assert_eq!(ENODEV, Errno::ENODEV as i32);
    assert_eq!(EINVAL, Errno::EINVAL as i32);
}

#[test]
fn unknown_number_is_unknown_errno() {
    assert_eq!(SmartError::Device { code: 0 }.errno(), Errno::UnknownErrno);
    assert_eq!(SmartError::Device { code: -1 }.errno(), Errno::UnknownErrno);
    assert_eq!(SmartError::Device { code: 100_000 }.errno(), Errno::UnknownErrno);
}

#[test]
fn the_three_kinds_of_error_differ() {
    assert_ne!(SmartError::Unsupported, SmartError::Decode);
    assert_ne!(SmartError::Unsupported, SmartError::Device { code: 19 });
    assert_ne!(SmartError::Decode, SmartError::Device { code: 22 });
    assert_eq!(SmartError::Device { code: 19 }, SmartError::Device { code: 19 });
    assert_ne!(SmartError::Device { code: 19 }, SmartError::Device { code: 22 });
}
