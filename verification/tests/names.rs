use io_error_mirror::DecodeError;
use io_error_mirror::IoErrKind;

fn all_tags() -> Vec<(IoErrKind, &'static str)> {
    vec![
        (IoErrKind::NotFound, "NotFound"),
        (IoErrKind::PermissionDenied, "PermissionDenied"),
        (IoErrKind::ConnectionRefused, "ConnectionRefused"),
        (IoErrKind::ConnectionReset, "ConnectionReset"),
        (IoErrKind::ConnectionAborted, "ConnectionAborted"),
        (IoErrKind::NotConnected, "NotConnected"),
        (IoErrKind::AddrInUse, "AddrInUse"),
        (IoErrKind::AddrNotAvailable, "AddrNotAvailable"),
        (IoErrKind::BrokenPipe, "BrokenPipe"),
        (IoErrKind::AlreadyExists, "AlreadyExists"),
        (IoErrKind::WouldBlock, "WouldBlock"),
        (IoErrKind::InvalidInput, "InvalidInput"),
        (IoErrKind::InvalidData, "InvalidData"),
        (IoErrKind::TimedOut, "TimedOut"),
        (IoErrKind::WriteZero, "WriteZero"),
        (IoErrKind::Interrupted, "Interrupted"),
        (IoErrKind::Other, "Other"),
        (IoErrKind::UnexpectedEof, "UnexpectedEof"),
        (IoErrKind::__Nonexhaustive, "__Nonexhaustive"),
    ]
}

#[test]
fn every_tag_renders_its_name() {
    for (tag, name) in all_tags() {
        assert_eq!(tag.name(), name);
    }
}

#[test]
fn every_name_decodes_to_its_tag() {
    for (tag, name) in all_tags() {
        assert_eq!(IoErrKind::from_name(name), Ok(tag));
    }
}

#[test]
fn unknown_names_are_rejected() {
    assert_eq!(
        IoErrKind::from_name("NotARealKind"),
        Err(DecodeError::UnknownClassification)
    );
    assert_eq!(IoErrKind::from_name(""), Err(DecodeError::UnknownClassification));
    assert_eq!(
        IoErrKind::from_name("notfound"),
        Err(DecodeError::UnknownClassification)
    );
    assert_eq!(
        IoErrKind::from_name("NotFound "),
        Err(DecodeError::UnknownClassification)
    );
}

#[test]
fn names_are_deterministic() {
    for (tag, _) in all_tags() {
        assert_eq!(tag.name(), tag.name());
        assert_eq!(IoErrKind::from_name(tag.name()), IoErrKind::from_name(tag.name()));
    }
}

#[test]
fn declaration_order_is_the_order() {
    let tags: Vec<IoErrKind> = all_tags().into_iter().map(|p| p.0).collect();
    assert!(IoErrKind::NotFound < IoErrKind::PermissionDenied);
    for i in 0..tags.len() {
        for j in 0..tags.len() {
            let a = tags[i];
            let b = tags[j];
            assert_eq!(a < b, i < j);
            assert_eq!(a == b, i == j);
            assert_eq!(a > b, i > j);
            assert!(!(a < b && a > b));
            assert_eq!(a.partial_cmp(&b), Some(a.rank_u8().cmp(&b.rank_u8())));
            assert_eq!(a.cmp(&b), a.rank_u8().cmp(&b.rank_u8()));
        }
    }
}
