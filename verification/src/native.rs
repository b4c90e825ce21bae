//! The boundary with the native I/O error types of the standard library.
//!
//! `std::io::ErrorKind` is declared to the verifier so that both conversion
//! tables are ordinary verified functions. The native taxonomy is open: any
//! classification this mirror does not name, including ones added to the
//! platform after this mirror was written, maps to the reserved tag, so the
//! native-to-mirror direction is total. The reverse direction fails exactly
//! on the reserved tag, which names no single native classification.

use vstd::prelude::*;

use crate::error::IoError;
use crate::kind::IoErrKind;

verus! {

#[verifier::external_type_specification]
pub struct ExIoErrorKind(std::io::ErrorKind);

#[verifier::external_type_specification]
#[verifier::external_body]
pub struct ExIoError(std::io::Error);

/// Relies on `std::io::Error::kind`: it returns the classification the
/// error was constructed with. The error value itself is opaque here, so
/// nothing more is assumed of the result.
pub assume_specification[ std::io::Error::kind ](err: &std::io::Error) -> std::io::ErrorKind;

/// The error of the mirror-to-native conversion: the reserved catch-all tag
/// stands for "some classification this mirror does not name" and therefore
/// names no single native classification.
#[derive(Copy, Clone, Debug, PartialEq, Eq, Structural)]
pub enum ConvertError {
    UnrepresentableMirrorTag,
}

/// The mirror tag of a native classification: the tag of the same name, or
/// the reserved tag for a classification this mirror does not name.
pub open spec fn mirror_spec(kind: std::io::ErrorKind) -> IoErrKind {
    match kind {
        std::io::ErrorKind::NotFound => IoErrKind::NotFound,
        std::io::ErrorKind::PermissionDenied => IoErrKind::PermissionDenied,
        std::io::ErrorKind::ConnectionRefused => IoErrKind::ConnectionRefused,
        std::io::ErrorKind::ConnectionReset => IoErrKind::ConnectionReset,
        std::io::ErrorKind::ConnectionAborted => IoErrKind::ConnectionAborted,
        std::io::ErrorKind::NotConnected => IoErrKind::NotConnected,
        std::io::ErrorKind::AddrInUse => IoErrKind::AddrInUse,
        std::io::ErrorKind::AddrNotAvailable => IoErrKind::AddrNotAvailable,
        std::io::ErrorKind::BrokenPipe => IoErrKind::BrokenPipe,
        std::io::ErrorKind::AlreadyExists => IoErrKind::AlreadyExists,
        std::io::ErrorKind::WouldBlock => IoErrKind::WouldBlock,
        std::io::ErrorKind::InvalidInput => IoErrKind::InvalidInput,
        std::io::ErrorKind::InvalidData => IoErrKind::InvalidData,
        std::io::ErrorKind::TimedOut => IoErrKind::TimedOut,
        std::io::ErrorKind::WriteZero => IoErrKind::WriteZero,
        std::io::ErrorKind::Interrupted => IoErrKind::Interrupted,
        std::io::ErrorKind::Other => IoErrKind::Other,
        std::io::ErrorKind::UnexpectedEof => IoErrKind::UnexpectedEof,
        _ => IoErrKind::__Nonexhaustive,
    }
}

/// The native classification of a mirror tag: the classification of the same
/// name for every named tag, and no classification at all for the reserved
/// tag.
pub open spec fn native_spec(kind: IoErrKind) -> Result<std::io::ErrorKind, ConvertError> {
    match kind {
        IoErrKind::NotFound => Ok(std::io::ErrorKind::NotFound),
        IoErrKind::PermissionDenied => Ok(std::io::ErrorKind::PermissionDenied),
        IoErrKind::ConnectionRefused => Ok(std::io::ErrorKind::ConnectionRefused),
        IoErrKind::ConnectionReset => Ok(std::io::ErrorKind::ConnectionReset),
        IoErrKind::ConnectionAborted => Ok(std::io::ErrorKind::ConnectionAborted),
        IoErrKind::NotConnected => Ok(std::io::ErrorKind::NotConnected),
        IoErrKind::AddrInUse => Ok(std::io::ErrorKind::AddrInUse),
        IoErrKind::AddrNotAvailable => Ok(std::io::ErrorKind::AddrNotAvailable),
        IoErrKind::BrokenPipe => Ok(std::io::ErrorKind::BrokenPipe),
        IoErrKind::AlreadyExists => Ok(std::io::ErrorKind::AlreadyExists),
        IoErrKind::WouldBlock => Ok(std::io::ErrorKind::WouldBlock),
        IoErrKind::InvalidInput => Ok(std::io::ErrorKind::InvalidInput),
        IoErrKind::InvalidData => Ok(std::io::ErrorKind::InvalidData),
        IoErrKind::TimedOut => Ok(std::io::ErrorKind::TimedOut),
        IoErrKind::WriteZero => Ok(std::io::ErrorKind::WriteZero),
        IoErrKind::Interrupted => Ok(std::io::ErrorKind::Interrupted),
        IoErrKind::Other => Ok(std::io::ErrorKind::Other),
        IoErrKind::UnexpectedEof => Ok(std::io::ErrorKind::UnexpectedEof),
        IoErrKind::__Nonexhaustive => Err(ConvertError::UnrepresentableMirrorTag),
    }
}

impl IoErrKind {
    /// Converts a native classification to its mirror tag. Total: a native
    /// classification unknown to this mirror becomes the reserved tag, so
    /// capturing a live error can never itself fail.
    pub fn from_native(kind: std::io::ErrorKind) -> (r: IoErrKind)
        ensures
            r == mirror_spec(kind),
    {
        match kind {
            std::io::ErrorKind::NotFound => IoErrKind::NotFound,
            std::io::ErrorKind::PermissionDenied => IoErrKind::PermissionDenied,
            std::io::ErrorKind::ConnectionRefused => IoErrKind::ConnectionRefused,
            std::io::ErrorKind::ConnectionReset => IoErrKind::ConnectionReset,
            std::io::ErrorKind::ConnectionAborted => IoErrKind::ConnectionAborted,
            std::io::ErrorKind::NotConnected => IoErrKind::NotConnected,
            std::io::ErrorKind::AddrInUse => IoErrKind::AddrInUse,
            std::io::ErrorKind::AddrNotAvailable => IoErrKind::AddrNotAvailable,
            std::io::ErrorKind::BrokenPipe => IoErrKind::BrokenPipe,
            std::io::ErrorKind::AlreadyExists => IoErrKind::AlreadyExists,
            std::io::ErrorKind::WouldBlock => IoErrKind::WouldBlock,
            std::io::ErrorKind::InvalidInput => IoErrKind::InvalidInput,
            std::io::ErrorKind::InvalidData => IoErrKind::InvalidData,
            std::io::ErrorKind::TimedOut => IoErrKind::TimedOut,
            std::io::ErrorKind::WriteZero => IoErrKind::WriteZero,
            std::io::ErrorKind::Interrupted => IoErrKind::Interrupted,
            std::io::ErrorKind::Other => IoErrKind::Other,
            std::io::ErrorKind::UnexpectedEof => IoErrKind::UnexpectedEof,
            _ => IoErrKind::__Nonexhaustive,
        }
    }

    /// Converts a mirror tag back to the native classification of the same
    /// name. Fails, explicitly and only, on the reserved tag: it stands for
    /// a classification this mirror does not name, so the caller must decide
    /// a policy rather than receive an arbitrary substitute.
    pub fn to_native(self) -> (r: Result<std::io::ErrorKind, ConvertError>)
        ensures
            r == native_spec(self),
            r is Ok <==> self !is __Nonexhaustive,
    {
        match self {
            IoErrKind::NotFound => Ok(std::io::ErrorKind::NotFound),
            IoErrKind::PermissionDenied => Ok(std::io::ErrorKind::PermissionDenied),
            IoErrKind::ConnectionRefused => Ok(std::io::ErrorKind::ConnectionRefused),
            IoErrKind::ConnectionReset => Ok(std::io::ErrorKind::ConnectionReset),
            IoErrKind::ConnectionAborted => Ok(std::io::ErrorKind::ConnectionAborted),
            IoErrKind::NotConnected => Ok(std::io::ErrorKind::NotConnected),
            IoErrKind::AddrInUse => Ok(std::io::ErrorKind::AddrInUse),
            IoErrKind::AddrNotAvailable => Ok(std::io::ErrorKind::AddrNotAvailable),
            IoErrKind::BrokenPipe => Ok(std::io::ErrorKind::BrokenPipe),
            IoErrKind::AlreadyExists => Ok(std::io::ErrorKind::AlreadyExists),
            IoErrKind::WouldBlock => Ok(std::io::ErrorKind::WouldBlock),
            IoErrKind::InvalidInput => Ok(std::io::ErrorKind::InvalidInput),
            IoErrKind::InvalidData => Ok(std::io::ErrorKind::InvalidData),
            IoErrKind::TimedOut => Ok(std::io::ErrorKind::TimedOut),
            IoErrKind::WriteZero => Ok(std::io::ErrorKind::WriteZero),
            IoErrKind::Interrupted => Ok(std::io::ErrorKind::Interrupted),
            IoErrKind::Other => Ok(std::io::ErrorKind::Other),
            IoErrKind::UnexpectedEof => Ok(std::io::ErrorKind::UnexpectedEof),
            IoErrKind::__Nonexhaustive => Err(ConvertError::UnrepresentableMirrorTag),
        }
    }
}

impl From<std::io::ErrorKind> for IoErrKind {
    fn from(kind: std::io::ErrorKind) -> (r: IoErrKind) {
        IoErrKind::from_native(kind)
    }
}

impl vstd::std_specs::convert::FromSpecImpl<std::io::ErrorKind> for IoErrKind {
    open spec fn obeys_from_spec() -> bool {
        true
    }

    open spec fn from_spec(kind: std::io::ErrorKind) -> IoErrKind {
        mirror_spec(kind)
    }
}

impl IoError {
    /// Builds the capture of a native error from the two values read off
    /// it: the classification becomes its mirror tag, the description is
    /// kept verbatim.
    pub fn from_parts(kind: std::io::ErrorKind, description: String) -> (r: IoError)
        ensures
            r.kind == mirror_spec(kind),
            r.description == description,
    {
        IoError { kind: IoErrKind::from_native(kind), description }
    }

    /// Captures a native I/O error: its classification is mirrored through
    /// [`IoErrKind::from_native`] and its textual rendering at this moment
    /// becomes the description. Total: capturing a live error never itself
    /// fails, whatever classification or text the error carries.
    pub fn capture(err: &std::io::Error) -> IoError {
        let kind = err.kind();
        let description = err.to_string();
        IoError::from_parts(kind, description)
    }
}

/// Every named mirror tag survives the round trip through the native
/// classification of the same name: converting it to native succeeds and
/// converting the result back yields the tag again. The reserved tag is the
/// one tag with no native counterpart.
pub proof fn lemma_native_round_trip(kind: IoErrKind)
    ensures
        kind !is __Nonexhaustive ==> (native_spec(kind) matches Ok(n) && mirror_spec(n) == kind),
        kind is __Nonexhaustive ==> native_spec(kind) == Err::<std::io::ErrorKind, ConvertError>(
            ConvertError::UnrepresentableMirrorTag,
        ),
{
}

/// The mirror of a native classification loses nothing but the identity of
/// unnamed classifications: whenever the mirror tag of a native
/// classification is a named tag, converting that tag back yields the very
/// same native classification.
pub proof fn lemma_mirror_round_trip(kind: std::io::ErrorKind)
    ensures
        mirror_spec(kind) !is __Nonexhaustive ==> native_spec(mirror_spec(kind)) == Ok::<
            std::io::ErrorKind,
            ConvertError,
        >(kind),
{
}

/// A native classification that is none of the eighteen named ones maps to
/// the reserved tag, never to a named tag and never to a failure: the
/// native-to-mirror direction is total even over classifications added to
/// the platform after this mirror was written.
pub proof fn lemma_unknown_native_maps_to_reserved(kind: std::io::ErrorKind)
    requires
        kind != std::io::ErrorKind::NotFound,
        kind != std::io::ErrorKind::PermissionDenied,
        kind != std::io::ErrorKind::ConnectionRefused,
        kind != std::io::ErrorKind::ConnectionReset,
        kind != std::io::ErrorKind::ConnectionAborted,
        kind != std::io::ErrorKind::NotConnected,
        kind != std::io::ErrorKind::AddrInUse,
        kind != std::io::ErrorKind::AddrNotAvailable,
        kind != std::io::ErrorKind::BrokenPipe,
        kind != std::io::ErrorKind::AlreadyExists,
        kind != std::io::ErrorKind::WouldBlock,
        kind != std::io::ErrorKind::InvalidInput,
        kind != std::io::ErrorKind::InvalidData,
        kind != std::io::ErrorKind::TimedOut,
        kind != std::io::ErrorKind::WriteZero,
        kind != std::io::ErrorKind::Interrupted,
        kind != std::io::ErrorKind::Other,
        kind != std::io::ErrorKind::UnexpectedEof,
    ensures
        mirror_spec(kind) == IoErrKind::__Nonexhaustive,
{
}

/// Every operation of this crate is a pure function of its inputs: equal
/// inputs yield equal results. The executable functions are each pinned by
/// their contracts to the specification functions named here, so two calls
/// of one on equal arguments return equal values.
pub proof fn lemma_operations_deterministic(
    k1: IoErrKind,
    k2: IoErrKind,
    n1: std::io::ErrorKind,
    n2: std::io::ErrorKind,
    e1: IoError,
    e2: IoError,
    s1: Seq<char>,
    s2: Seq<char>,
)
    requires
        k1 == k2,
        n1 == n2,
        e1 == e2,
        s1 == s2,
    ensures
        k1.rank() == k2.rank(),
        k1.name_spec() == k2.name_spec(),
        crate::kind::kind_of_name(s1) == crate::kind::kind_of_name(s2),
        e1.render_spec() == e2.render_spec(),
        mirror_spec(n1) == mirror_spec(n2),
        native_spec(k1) == native_spec(k2),
{
}

} // verus!
