//! The mirror classification enumeration and its name table.

use vstd::prelude::*;

verus! {

use core::cmp::Ordering;
use vstd::std_specs::cmp::PartialOrdSpec;

/// A serializable stand-in for the platform's I/O error classification.
///
/// One tag per named variant of `std::io::ErrorKind`, in the same order,
/// plus the reserved catch-all tag `__Nonexhaustive`, which stands for any
/// classification this mirror does not name. The set of tags is closed at
/// build time; tags are immutable values, compared and ordered by their
/// position in the declaration.
#[derive(Copy, Clone, Debug, PartialEq, Eq, Structural, Ord)]
pub enum IoErrKind {
    NotFound,
    PermissionDenied,
    ConnectionRefused,
    ConnectionReset,
    ConnectionAborted,
    NotConnected,
    AddrInUse,
    AddrNotAvailable,
    BrokenPipe,
    AlreadyExists,
    WouldBlock,
    InvalidInput,
    InvalidData,
    TimedOut,
    WriteZero,
    Interrupted,
    Other,
    UnexpectedEof,
    __Nonexhaustive,
}

impl IoErrKind {
    /// The tag's position in the declaration order; the order over tags is
    /// the numeric order over ranks.
    pub open spec fn rank(self) -> int {
        match self {
            IoErrKind::NotFound => 0,
            IoErrKind::PermissionDenied => 1,
            IoErrKind::ConnectionRefused => 2,
            IoErrKind::ConnectionReset => 3,
            IoErrKind::ConnectionAborted => 4,
            IoErrKind::NotConnected => 5,
            IoErrKind::AddrInUse => 6,
            IoErrKind::AddrNotAvailable => 7,
            IoErrKind::BrokenPipe => 8,
            IoErrKind::AlreadyExists => 9,
            IoErrKind::WouldBlock => 10,
            IoErrKind::InvalidInput => 11,
            IoErrKind::InvalidData => 12,
            IoErrKind::TimedOut => 13,
            IoErrKind::WriteZero => 14,
            IoErrKind::Interrupted => 15,
            IoErrKind::Other => 16,
            IoErrKind::UnexpectedEof => 17,
            IoErrKind::__Nonexhaustive => 18,
        }
    }

    /// The tag's rank as a machine integer.
    pub fn rank_u8(&self) -> (r: u8)
        ensures
            r as int == self.rank(),
    {
        match self {
            IoErrKind::NotFound => 0,
            IoErrKind::PermissionDenied => 1,
            IoErrKind::ConnectionRefused => 2,
            IoErrKind::ConnectionReset => 3,
            IoErrKind::ConnectionAborted => 4,
            IoErrKind::NotConnected => 5,
            IoErrKind::AddrInUse => 6,
            IoErrKind::AddrNotAvailable => 7,
            IoErrKind::BrokenPipe => 8,
            IoErrKind::AlreadyExists => 9,
            IoErrKind::WouldBlock => 10,
            IoErrKind::InvalidInput => 11,
            IoErrKind::InvalidData => 12,
            IoErrKind::TimedOut => 13,
            IoErrKind::WriteZero => 14,
            IoErrKind::Interrupted => 15,
            IoErrKind::Other => 16,
            IoErrKind::UnexpectedEof => 17,
            IoErrKind::__Nonexhaustive => 18,
        }
    }
}

impl PartialOrd for IoErrKind {
    fn partial_cmp(&self, other: &IoErrKind) -> (r: Option<Ordering>) {
        let a = self.rank_u8();
        let b = other.rank_u8();
        if a < b {
            Some(Ordering::Less)
        } else if a == b {
            Some(Ordering::Equal)
        } else {
            Some(Ordering::Greater)
        }
    }
}

impl vstd::std_specs::cmp::PartialOrdSpecImpl for IoErrKind {
    open spec fn obeys_partial_cmp_spec() -> bool {
        true
    }

    open spec fn partial_cmp_spec(&self, other: &IoErrKind) -> Option<Ordering> {
        if self.rank() < other.rank() {
            Some(Ordering::Less)
        } else if self.rank() == other.rank() {
            Some(Ordering::Equal)
        } else {
            Some(Ordering::Greater)
        }
    }
}

/// The order over mirror tags is total and is the order of declaration:
/// comparing two tags always answers, answers `Equal` exactly for equal
/// tags, and answers `Less` exactly when the first tag is declared before
/// the second, so no pair of tags is ordered both ways.
pub proof fn lemma_order_total(a: IoErrKind, b: IoErrKind)
    ensures
        a.partial_cmp_spec(&b) is Some,
        a.partial_cmp_spec(&b) == Some(Ordering::Equal) <==> a == b,
        a.partial_cmp_spec(&b) == Some(Ordering::Less) <==> a.rank() < b.rank(),
        a.partial_cmp_spec(&b) == Some(Ordering::Greater) <==> a.rank() > b.rank(),
        a.partial_cmp_spec(&b) == Some(Ordering::Less) <==> b.partial_cmp_spec(&a) == Some(
            Ordering::Greater,
        ),
{
}

/// The order over mirror tags is transitive.
pub proof fn lemma_order_transitive(a: IoErrKind, b: IoErrKind, c: IoErrKind)
    requires
        a.partial_cmp_spec(&b) == Some(Ordering::Less),
        b.partial_cmp_spec(&c) == Some(Ordering::Less),
    ensures
        a.partial_cmp_spec(&c) == Some(Ordering::Less),
{
}

/// The error of decoding a serialized record: its `kind` field holds a
/// string that is not the name of any mirror tag. Decoding propagates this
/// to the caller and never substitutes a default tag.
#[derive(Copy, Clone, Debug, PartialEq, Eq, Structural)]
pub enum DecodeError {
    UnknownClassification,
}

/// Relies on `<str as PartialEq>::eq`: string slices compare equal exactly
/// when they hold the same characters.
#[verifier::external_body]
fn str_eq(a: &str, b: &str) -> (r: bool)
    ensures
        r == (a@ == b@),
{
    a == b
}

impl IoErrKind {
    /// The tag's canonical name: the spelling of the variant, which is also
    /// how the tag appears in a serialized record.
    pub open spec fn name_spec(self) -> Seq<char> {
        match self {
            IoErrKind::NotFound => "NotFound"@,
            IoErrKind::PermissionDenied => "PermissionDenied"@,
            IoErrKind::ConnectionRefused => "ConnectionRefused"@,
            IoErrKind::ConnectionReset => "ConnectionReset"@,
            IoErrKind::ConnectionAborted => "ConnectionAborted"@,
            IoErrKind::NotConnected => "NotConnected"@,
            IoErrKind::AddrInUse => "AddrInUse"@,
            IoErrKind::AddrNotAvailable => "AddrNotAvailable"@,
            IoErrKind::BrokenPipe => "BrokenPipe"@,
            IoErrKind::AlreadyExists => "AlreadyExists"@,
            IoErrKind::WouldBlock => "WouldBlock"@,
            IoErrKind::InvalidInput => "InvalidInput"@,
            IoErrKind::InvalidData => "InvalidData"@,
            IoErrKind::TimedOut => "TimedOut"@,
            IoErrKind::WriteZero => "WriteZero"@,
            IoErrKind::Interrupted => "Interrupted"@,
            IoErrKind::Other => "Other"@,
            IoErrKind::UnexpectedEof => "UnexpectedEof"@,
            IoErrKind::__Nonexhaustive => "__Nonexhaustive"@,
        }
    }

    /// Renders the tag as text: its canonical name. Total, never fails.
    pub fn name(&self) -> (r: &'static str)
        ensures
            r@ == self.name_spec(),
    {
        match self {
            IoErrKind::NotFound => "NotFound",
            IoErrKind::PermissionDenied => "PermissionDenied",
            IoErrKind::ConnectionRefused => "ConnectionRefused",
            IoErrKind::ConnectionReset => "ConnectionReset",
            IoErrKind::ConnectionAborted => "ConnectionAborted",
            IoErrKind::NotConnected => "NotConnected",
            IoErrKind::AddrInUse => "AddrInUse",
            IoErrKind::AddrNotAvailable => "AddrNotAvailable",
            IoErrKind::BrokenPipe => "BrokenPipe",
            IoErrKind::AlreadyExists => "AlreadyExists",
            IoErrKind::WouldBlock => "WouldBlock",
            IoErrKind::InvalidInput => "InvalidInput",
            IoErrKind::InvalidData => "InvalidData",
            IoErrKind::TimedOut => "TimedOut",
            IoErrKind::WriteZero => "WriteZero",
            IoErrKind::Interrupted => "Interrupted",
            IoErrKind::Other => "Other",
            IoErrKind::UnexpectedEof => "UnexpectedEof",
            IoErrKind::__Nonexhaustive => "__Nonexhaustive",
        }
    }
}

/// The tag whose canonical name is `s`, or the decode error when no tag is
/// named `s`.
pub open spec fn kind_of_name(s: Seq<char>) -> Result<IoErrKind, DecodeError> {
    if s == "NotFound"@ {
        Ok(IoErrKind::NotFound)
    } else if s == "PermissionDenied"@ {
        Ok(IoErrKind::PermissionDenied)
    } else if s == "ConnectionRefused"@ {
        Ok(IoErrKind::ConnectionRefused)
    } else if s == "ConnectionReset"@ {
        Ok(IoErrKind::ConnectionReset)
    } else if s == "ConnectionAborted"@ {
        Ok(IoErrKind::ConnectionAborted)
    } else if s == "NotConnected"@ {
        Ok(IoErrKind::NotConnected)
    } else if s == "AddrInUse"@ {
        Ok(IoErrKind::AddrInUse)
    } else if s == "AddrNotAvailable"@ {
        Ok(IoErrKind::AddrNotAvailable)
    } else if s == "BrokenPipe"@ {
        Ok(IoErrKind::BrokenPipe)
    } else if s == "AlreadyExists"@ {
        Ok(IoErrKind::AlreadyExists)
    } else if s == "WouldBlock"@ {
        Ok(IoErrKind::WouldBlock)
    } else if s == "InvalidInput"@ {
        Ok(IoErrKind::InvalidInput)
    } else if s == "InvalidData"@ {
        Ok(IoErrKind::InvalidData)
    } else if s == "TimedOut"@ {
        Ok(IoErrKind::TimedOut)
    } else if s == "WriteZero"@ {
        Ok(IoErrKind::WriteZero)
    } else if s == "Interrupted"@ {
        Ok(IoErrKind::Interrupted)
    } else if s == "Other"@ {
        Ok(IoErrKind::Other)
    } else if s == "UnexpectedEof"@ {
        Ok(IoErrKind::UnexpectedEof)
    } else if s == "__Nonexhaustive"@ {
        Ok(IoErrKind::__Nonexhaustive)
    } else {
        Err(DecodeError::UnknownClassification)
    }
}

impl IoErrKind {
    /// Decodes a tag from its canonical name. Succeeds exactly when `s` is
    /// the name of one of the fixed tags; any other string, including the
    /// empty one, is rejected with [`DecodeError::UnknownClassification`].
    pub fn from_name(s: &str) -> (r: Result<IoErrKind, DecodeError>)
        ensures
            r == kind_of_name(s@),
    {
        if str_eq(s, "NotFound") {
            Ok(IoErrKind::NotFound)
        } else if str_eq(s, "PermissionDenied") {
            Ok(IoErrKind::PermissionDenied)
        } else if str_eq(s, "ConnectionRefused") {
            Ok(IoErrKind::ConnectionRefused)
        } else if str_eq(s, "ConnectionReset") {
            Ok(IoErrKind::ConnectionReset)
        } else if str_eq(s, "ConnectionAborted") {
            Ok(IoErrKind::ConnectionAborted)
        } else if str_eq(s, "NotConnected") {
            Ok(IoErrKind::NotConnected)
        } else if str_eq(s, "AddrInUse") {
            Ok(IoErrKind::AddrInUse)
        } else if str_eq(s, "AddrNotAvailable") {
            Ok(IoErrKind::AddrNotAvailable)
        } else if str_eq(s, "BrokenPipe") {
            Ok(IoErrKind::BrokenPipe)
        } else if str_eq(s, "AlreadyExists") {
            Ok(IoErrKind::AlreadyExists)
        } else if str_eq(s, "WouldBlock") {
            Ok(IoErrKind::WouldBlock)
        } else if str_eq(s, "InvalidInput") {
            Ok(IoErrKind::InvalidInput)
        } else if str_eq(s, "InvalidData") {
            Ok(IoErrKind::InvalidData)
        } else if str_eq(s, "TimedOut") {
            Ok(IoErrKind::TimedOut)
        } else if str_eq(s, "WriteZero") {
            Ok(IoErrKind::WriteZero)
        } else if str_eq(s, "Interrupted") {
            Ok(IoErrKind::Interrupted)
        } else if str_eq(s, "Other") {
            Ok(IoErrKind::Other)
        } else if str_eq(s, "UnexpectedEof") {
            Ok(IoErrKind::UnexpectedEof)
        } else if str_eq(s, "__Nonexhaustive") {
            Ok(IoErrKind::__Nonexhaustive)
        } else {
            Err(DecodeError::UnknownClassification)
        }
    }
}

/// Every tag's canonical name decodes back to that tag: the nineteen names
/// are pairwise distinct, so encoding a tag as its name loses nothing.
pub proof fn lemma_name_round_trip(kind: IoErrKind)
    ensures
        kind_of_name(kind.name_spec()) == Ok::<IoErrKind, DecodeError>(kind),
{
    reveal_strlit("NotFound");
    reveal_strlit("PermissionDenied");
    reveal_strlit("ConnectionRefused");
    reveal_strlit("ConnectionReset");
    reveal_strlit("ConnectionAborted");
    reveal_strlit("NotConnected");
    reveal_strlit("AddrInUse");
    reveal_strlit("AddrNotAvailable");
    reveal_strlit("BrokenPipe");
    reveal_strlit("AlreadyExists");
    reveal_strlit("WouldBlock");
    reveal_strlit("InvalidInput");
    reveal_strlit("InvalidData");
    reveal_strlit("TimedOut");
    reveal_strlit("WriteZero");
    reveal_strlit("Interrupted");
    reveal_strlit("Other");
    reveal_strlit("UnexpectedEof");
    reveal_strlit("__Nonexhaustive");
    // Names of unequal length differ by their length alone.
    assert("NotFound"@.len() == 8);
    assert("PermissionDenied"@.len() == 16);
    assert("ConnectionRefused"@.len() == 17);
    assert("ConnectionReset"@.len() == 15);
    assert("ConnectionAborted"@.len() == 17);
    assert("NotConnected"@.len() == 12);
    assert("AddrInUse"@.len() == 9);
    assert("AddrNotAvailable"@.len() == 16);
    assert("BrokenPipe"@.len() == 10);
    assert("AlreadyExists"@.len() == 13);
    assert("WouldBlock"@.len() == 10);
    assert("InvalidInput"@.len() == 12);
    assert("InvalidData"@.len() == 11);
    assert("TimedOut"@.len() == 8);
    assert("WriteZero"@.len() == 9);
    assert("Interrupted"@.len() == 11);
    assert("Other"@.len() == 5);
    assert("UnexpectedEof"@.len() == 13);
    assert("__Nonexhaustive"@.len() == 15);
    // Each pair of distinct names of equal length differs at some character.
    assert("NotFound"@[0] == 'N' && "TimedOut"@[0] == 'T');
    assert("PermissionDenied"@[0] == 'P' && "AddrNotAvailable"@[0] == 'A');
    assert("ConnectionRefused"@[10] == 'R' && "ConnectionAborted"@[10] == 'A');
    assert("ConnectionReset"@[0] == 'C' && "__Nonexhaustive"@[0] == '_');
    assert("NotConnected"@[0] == 'N' && "InvalidInput"@[0] == 'I');
    assert("AddrInUse"@[0] == 'A' && "WriteZero"@[0] == 'W');
    assert("BrokenPipe"@[0] == 'B' && "WouldBlock"@[0] == 'W');
    assert("AlreadyExists"@[0] == 'A' && "UnexpectedEof"@[0] == 'U');
    assert("InvalidData"@[0] == 'I' && "Interrupted"@[1] == 'n');
    assert("InvalidData"@[2] == 'v' && "Interrupted"@[2] == 't');
}

} // verus!
