//! Links, read as IRI references.

use crate::text::texts;
use vstd::prelude::*;
use vstd::string::StringExecFns;

verus! {

/// Whether a text is an IRI reference.
pub uninterp spec fn is_iri_reference(text: Seq<char>) -> bool;

/// Whether two IRI references name the same authority, or both name none.
pub uninterp spec fn iri_same_authority(first: Seq<char>, second: Seq<char>) -> bool;

/// The segments of the path that leads from the IRI reference `base` to the
/// IRI reference `target`.
pub uninterp spec fn iri_relative_segments(target: Seq<char>, base: Seq<char>) -> Seq<Seq<char>>;

/// `iref::IriRef::new`: whether the text is read as an IRI reference.
#[verifier::external_body]
pub(crate) fn iri_reference_is_valid(text: &str) -> (valid: bool)
    ensures
        valid == is_iri_reference(text@),
{
    iref::IriRef::new(text).is_ok()
}

/// `iref::IriRef::authority`, of two IRI references: whether the authority of
/// the one equals that of the other.
#[verifier::external_body]
pub(crate) fn same_authority(first: &str, second: &str) -> (same: bool)
    requires
        is_iri_reference(first@),
        is_iri_reference(second@),
    ensures
        same == iri_same_authority(first@, second@),
{
    let first = iref::IriRef::new(first).expect("an IRI reference");
    let second = iref::IriRef::new(second).expect("an IRI reference");
    first.authority() == second.authority()
}

/// `iref::IriRef::relative_to`, and the segments of the path of what it
/// yields: the way from the base to the target, segment by segment.
#[verifier::external_body]
pub(crate) fn relative_segments(target: &str, base: &str) -> (segments: Vec<String>)
    requires
        is_iri_reference(target@),
        is_iri_reference(base@),
    ensures
        texts(segments@) == iri_relative_segments(target@, base@),
{
    let target = iref::IriRef::new(target).expect("an IRI reference");
    let base = iref::IriRef::new(base).expect("an IRI reference");
    target.relative_to(base).path().segments().map(|segment| segment.as_str().to_owned()).collect()
}

/// A text that is no IRI reference.
#[derive(Debug, Clone, PartialEq, Eq)]
pub struct InvalidIriRef(pub String);

impl InvalidIriRef {
    /// The error in words.
    pub open spec fn message_spec(&self) -> Seq<char> {
        "invalid IRI reference: "@ + self.0@
    }

    /// The error in words.
    pub fn message(&self) -> (text: String)
        ensures
            text@ == self.message_spec(),
    {
        String::from_str("invalid IRI reference: ").concat(self.0.as_str())
    }
}

/// An IRI reference, kept as the text that was read as one.
#[derive(Debug, PartialEq, Eq)]
pub struct IriRefBuf {
    text: String,
}

impl Clone for IriRefBuf {
    fn clone(&self) -> (copy: Self)
        ensures
            copy@ == self@,
    {
        proof {
            use_type_invariant(self);
        }
        IriRefBuf { text: self.text.clone() }
    }
}

impl View for IriRefBuf {
    type V = Seq<char>;

    closed spec fn view(&self) -> Seq<char> {
        self.text@
    }
}

impl IriRefBuf {
    #[verifier::type_invariant]
    spec fn is_valid(self) -> bool {
        is_iri_reference(self.text@)
    }

    /// Reads a text as an IRI reference; a text that is none comes back as
    /// the error.
    pub fn new(text: String) -> (outcome: Result<IriRefBuf, InvalidIriRef>)
        ensures
            match outcome {
                Ok(iri) => is_iri_reference(text@) && iri@ == text@,
                Err(invalid) => !is_iri_reference(text@) && invalid.0 == text,
            },
    {
        if iri_reference_is_valid(text.as_str()) {
            Ok(IriRefBuf { text })
        } else {
            Err(InvalidIriRef(text))
        }
    }

    /// The text of the IRI reference.
    pub fn as_str(&self) -> (text: &str)
        ensures
            text@ == self@,
            is_iri_reference(text@),
    {
        proof {
            use_type_invariant(self);
        }
        self.text.as_str()
    }

    /// The text of the IRI reference.
    pub fn into_string(self) -> (text: String)
        ensures
            text@ == self@,
            is_iri_reference(text@),
    {
        proof {
            use_type_invariant(&self);
        }
        self.text
    }
}

} // verus!
