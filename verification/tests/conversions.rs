use std::io;

use io_error_mirror::ConvertError;
use io_error_mirror::IoErrKind;

fn named_pairs() -> Vec<(io::ErrorKind, IoErrKind)> {
    vec![
        (io::ErrorKind::NotFound, IoErrKind::NotFound),
        (io::ErrorKind::PermissionDenied, IoErrKind::PermissionDenied),
        (io::ErrorKind::ConnectionRefused, IoErrKind::ConnectionRefused),
        (io::ErrorKind::ConnectionReset, IoErrKind::ConnectionReset),
        (io::ErrorKind::ConnectionAborted, IoErrKind::ConnectionAborted),
        (io::ErrorKind::NotConnected, IoErrKind::NotConnected),
        (io::ErrorKind::AddrInUse, IoErrKind::AddrInUse),
        (io::ErrorKind::AddrNotAvailable, IoErrKind::AddrNotAvailable),
        (io::ErrorKind::BrokenPipe, IoErrKind::BrokenPipe),
        (io::ErrorKind::AlreadyExists, IoErrKind::AlreadyExists),
        (io::ErrorKind::WouldBlock, IoErrKind::WouldBlock),
        (io::ErrorKind::InvalidInput, IoErrKind::InvalidInput),
        (io::ErrorKind::InvalidData, IoErrKind::InvalidData),
        (io::ErrorKind::TimedOut, IoErrKind::TimedOut),
        (io::ErrorKind::WriteZero, IoErrKind::WriteZero),
        (io::ErrorKind::Interrupted, IoErrKind::Interrupted),
        (io::ErrorKind::Other, IoErrKind::Other),
        (io::ErrorKind::UnexpectedEof, IoErrKind::UnexpectedEof),
    ]
}

#[test]
fn native_to_mirror_named() {
    for (native, mirror) in named_pairs() {
        assert_eq!(IoErrKind::from_native(native), mirror);
        assert_eq!(IoErrKind::from(native), mirror);
    }
}

#[test]
fn native_round_trip_named() {
    for (native, _) in named_pairs() {
        let mirror = IoErrKind::from_native(native);
        assert_eq!(mirror.to_native(), Ok(native));
    }
}

#[test]
fn mirror_round_trip_named() {
    for (_, mirror) in named_pairs() {
        let native = mirror.to_native().expect("named tag must convert");
        assert_eq!(IoErrKind::from_native(native), mirror);
    }
}

#[test]
fn unknown_native_becomes_reserved() {
    let mirror = IoErrKind::from_native(io::ErrorKind::Unsupported);
    assert_eq!(mirror, IoErrKind::__Nonexhaustive);
    let mirror = IoErrKind::from_native(io::ErrorKind::OutOfMemory);
    assert_eq!(mirror, IoErrKind::__Nonexhaustive);
}

#[test]
fn reserved_tag_has_no_native() {
    assert_eq!(
        IoErrKind::__Nonexhaustive.to_native(),
        Err(ConvertError::UnrepresentableMirrorTag)
    );
}

#[test]
fn conversions_are_deterministic() {
    for (native, _) in named_pairs() {
        assert_eq!(IoErrKind::from_native(native), IoErrKind::from_native(native));
    }
    assert_eq!(
        IoErrKind::from_native(io::ErrorKind::Unsupported),
        IoErrKind::from_native(io::ErrorKind::Unsupported)
    );
    for (_, mirror) in named_pairs() {
        assert_eq!(mirror.to_native(), mirror.to_native());
    }
}
