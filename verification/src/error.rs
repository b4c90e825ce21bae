//! The serializable record pairing a mirror tag with a description.

use vstd::prelude::*;

use crate::kind::kind_of_name;
use crate::kind::DecodeError;
use crate::kind::IoErrKind;

verus! {

use vstd::string::StringExecFns;

/// A serializable capture of a native I/O error: the mirror tag of its
/// classification together with its free-form textual description. The
/// description carries whatever the native error rendered at capture time
/// and may be any string, including the empty one; the causal chain and any
/// OS-level code of the native error are deliberately not kept. A value is
/// immutable once constructed.
#[derive(Clone, Debug)]
pub struct IoError {
    pub kind: IoErrKind,
    pub description: String,
}

impl PartialEq for IoError {
    fn eq(&self, other: &IoError) -> (r: bool) {
        self.kind == other.kind && self.description == other.description
    }
}

impl vstd::std_specs::cmp::PartialEqSpecImpl for IoError {
    open spec fn obeys_eq_spec() -> bool {
        true
    }

    open spec fn eq_spec(&self, other: &IoError) -> bool {
        self.kind == other.kind && self.description@ == other.description@
    }
}

impl IoError {
    /// The textual rendering of a record: the tag's name, a colon and a
    /// space, then the description.
    pub open spec fn render_spec(self) -> Seq<char> {
        self.kind.name_spec() + ": "@ + self.description@
    }

    /// Renders the record as readable text, `"<kind-name>: <description>"`.
    /// Total, no failure mode.
    pub fn render(&self) -> (r: String)
        ensures
            r@ == self.render_spec(),
    {
        let mut s = String::from_str(self.kind.name());
        s.append(": ");
        s.append(self.description.as_str());
        s
    }

    /// Encodes the record for serialization: the two field values in
    /// declaration order, the tag as its canonical name and the description
    /// verbatim. Any structured serializer can write these two strings as
    /// the named fields `kind` and `description`.
    pub fn to_fields(&self) -> (r: (String, String))
        ensures
            r.0@ == self.kind.name_spec(),
            r.1@ == self.description@,
    {
        (String::from_str(self.kind.name()), self.description.clone())
    }

    /// Decodes a record from its two serialized field values. Succeeds
    /// exactly when `kind_name` is the canonical name of a tag; the
    /// description is kept verbatim, whatever it holds. Any other
    /// `kind_name` is rejected with [`DecodeError::UnknownClassification`]
    /// and no default record is produced.
    pub fn from_fields(kind_name: &str, description: &str) -> (r: Result<IoError, DecodeError>)
        ensures
            r is Ok <==> kind_of_name(kind_name@) is Ok,
            r matches Ok(e) ==> (Ok::<IoErrKind, DecodeError>(e.kind) == kind_of_name(kind_name@)
                && e.description@ == description@),
            r matches Err(err) ==> Err::<IoErrKind, DecodeError>(err) == kind_of_name(kind_name@),
    {
        match IoErrKind::from_name(kind_name) {
            Ok(kind) => Ok(IoError { kind, description: String::from_str(description) }),
            Err(err) => Err(err),
        }
    }
}

/// Encoding a record and decoding the two fields back yields an equal
/// record: by the contract of [`IoError::to_fields`] the encoded pair holds
/// the tag's name and the description verbatim, and by this law together
/// with the contract of [`IoError::from_fields`] decoding that pair
/// succeeds, recovers the same tag, and keeps the same description.
pub proof fn lemma_record_round_trip(e: IoError)
    ensures
        kind_of_name(e.kind.name_spec()) == Ok::<IoErrKind, DecodeError>(e.kind),
{
    crate::kind::lemma_name_round_trip(e.kind);
}

} // verus!
