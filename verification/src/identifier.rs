//! Validation of caller-supplied record identifiers.
//!
//! The storage layer addresses records by object identifiers whose textual
//! form is exactly 24 hexadecimal digits. A raw path segment becomes a
//! [`RecordIdentifier`] only after that format has been checked, so storage
//! is never handed an unvalidated key.

use vstd::prelude::*;

use crate::error::ValidationError;

verus! {

/// `c` is an ASCII hexadecimal digit, in either letter case.
pub open spec fn is_hex_digit(c: char) -> bool {
    ||| ('0' <= c && c <= '9')
    ||| ('a' <= c && c <= 'f')
    ||| ('A' <= c && c <= 'F')
}

/// `s` is the textual form of a storage object identifier: exactly 24
/// hexadecimal digits.
pub open spec fn is_object_id(s: Seq<char>) -> bool {
    &&& s.len() == 24
    &&& forall|i: int| 0 <= i < s.len() ==> is_hex_digit(s[i])
}

/// Relies on bson::oid::ObjectId::parse_str, which accepts a string exactly
/// when it consists of 24 hexadecimal digits (upper or lower case): it hex
/// decodes the bytes and then requires twelve of them.
#[verifier::external_body]
fn object_id_parses(raw: &str) -> (r: bool)
    ensures
        r == is_object_id(raw@),
{
    bson::oid::ObjectId::parse_str(raw).is_ok()
}

/// A record identifier whose textual form has been validated against the
/// storage layer's object-identifier format.
#[derive(Clone, Debug, PartialEq, Eq)]
pub struct RecordIdentifier {
    text: String,
}

impl View for RecordIdentifier {
    type V = Seq<char>;

    closed spec fn view(&self) -> Seq<char> {
        self.text@
    }
}

impl RecordIdentifier {
    /// The identifier carries a validated object-identifier string.
    pub open spec fn wf(&self) -> bool {
        is_object_id(self@)
    }

    pub fn as_str(&self) -> (r: &str)
        ensures
            r@ == self@,
    {
        self.text.as_str()
    }

    pub fn into_string(self) -> (r: String)
        ensures
            r@ == self@,
    {
        self.text
    }
}

/// Check a raw identifier string against the object-identifier format.
///
/// Succeeds exactly on 24-hexadecimal-digit strings, returning the input
/// unchanged as a validated identifier; everything else is rejected as
/// malformed.
pub fn validate(raw: String) -> (r: Result<RecordIdentifier, ValidationError>)
    ensures
        is_object_id(raw@) <==> r is Ok,
        r matches Ok(id) ==> id@ == raw@ && id.wf(),
        r matches Err(e) ==> e == ValidationError::MalformedIdentifier,
{
    if object_id_parses(raw.as_str()) {
        Ok(RecordIdentifier { text: raw })
    } else {
        Err(ValidationError::MalformedIdentifier)
    }
}

/// Validate the identifier segment of a request path.
///
/// A missing segment and a malformed one are distinct failures: the former
/// means the route carried no identifier at all, the latter that one was
/// present but is not in the object-identifier format.
pub fn extract_id(segment: Option<String>) -> (r: Result<RecordIdentifier, ValidationError>)
    ensures
        segment is None ==> r == Err::<RecordIdentifier, _>(ValidationError::MissingIdentifier),
        segment matches Some(s) ==> {
            &&& is_object_id(s@) ==> (r matches Ok(id) && id@ == s@ && id.wf())
            &&& !is_object_id(s@) ==> r == Err::<RecordIdentifier, _>(
                ValidationError::MalformedIdentifier,
            )
        },
{
    match segment {
        Some(s) => validate(s),
        None => Err(ValidationError::MissingIdentifier),
    }
}

} // verus!
