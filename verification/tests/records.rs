use std::io;

use io_error_mirror::DecodeError;
use io_error_mirror::IoErrKind;
use io_error_mirror::IoError;

#[test]
fn render_is_name_colon_description() {
    let e = IoError { kind: IoErrKind::PermissionDenied, description: String::from("denied") };
    assert_eq!(e.render(), "PermissionDenied: denied");
}

#[test]
fn render_with_empty_description() {
    let e = IoError { kind: IoErrKind::BrokenPipe, description: String::new() };
    assert_eq!(e.render(), "BrokenPipe: ");
}

#[test]
fn field_round_trip_empty_description() {
    let e = IoError { kind: IoErrKind::BrokenPipe, description: String::new() };
    let (kind_name, description) = e.to_fields();
    let back = IoError::from_fields(&kind_name, &description).expect("must decode");
    assert_eq!(back, e);
}

#[test]
fn field_round_trip_every_tag() {
    for kind in [
        IoErrKind::NotFound,
        IoErrKind::TimedOut,
        IoErrKind::UnexpectedEof,
        IoErrKind::__Nonexhaustive,
    ] {
        let e = IoError { kind, description: String::from("some detail") };
        let (kind_name, description) = e.to_fields();
        assert_eq!(IoError::from_fields(&kind_name, &description), Ok(e));
    }
}

#[test]
fn decoding_unknown_kind_fails() {
    let r = IoError::from_fields("NotARealKind", "whatever");
    assert_eq!(r, Err(DecodeError::UnknownClassification));
}

#[test]
fn decoding_keeps_any_description() {
    let e = IoError::from_fields("NotFound", "").expect("must decode");
    assert_eq!(e.kind, IoErrKind::NotFound);
    assert_eq!(e.description, "");
    let e = IoError::from_fields("Other", "x: y: z").expect("must decode");
    assert_eq!(e.kind, IoErrKind::Other);
    assert_eq!(e.description, "x: y: z");
}

#[test]
fn capture_keeps_kind_and_description() {
    let native = io::Error::new(io::ErrorKind::TimedOut, "deadline exceeded");
    let e = IoError::capture(&native);
    assert_eq!(e.kind, IoErrKind::TimedOut);
    assert_eq!(e.description, "deadline exceeded");
}

#[test]
fn capture_of_unknown_kind_is_reserved() {
    let native = io::Error::new(io::ErrorKind::Unsupported, "no such operation");
    let e = IoError::capture(&native);
    assert_eq!(e.kind, IoErrKind::__Nonexhaustive);
    assert_eq!(e.description, "no such operation");
}

#[test]
fn capture_from_parts_mirrors_classification() {
    let e = IoError::from_parts(io::ErrorKind::WriteZero, String::from("wrote nothing"));
    assert_eq!(e.kind, IoErrKind::WriteZero);
    assert_eq!(e.description, "wrote nothing");
}

#[test]
fn records_are_deterministic() {
    let e = IoError { kind: IoErrKind::InvalidData, description: String::from("bad frame") };
    assert_eq!(e.render(), e.render());
    assert_eq!(e.to_fields(), e.to_fields());
    assert_eq!(
        IoError::from_fields("InvalidData", "bad frame"),
        IoError::from_fields("InvalidData", "bad frame")
    );
    let native = io::Error::new(io::ErrorKind::InvalidData, "bad frame");
    assert_eq!(IoError::capture(&native), IoError::capture(&native));
}
