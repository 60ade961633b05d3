//! The classification of a failed call into a semantic kind, by its status
//! code where the transport has one and by markers in its text where not.

use vstd::prelude::*;
use crate::model::CallError;
use crate::text::{
    chars_of,
    contains,
    contains_ignoring_case,
    find,
    fold,
    fold_chars,
    occurs_at,
};

verus! {

/// What a failed call means.
#[derive(Clone, Copy, Debug, PartialEq, Eq, Structural)]
pub enum ErrorKind {
    /// The credential is missing or not accepted.
    Authentication,
    /// The payload is not a valid request.
    Validation,
    /// Nothing known matches.
    Unclassified,
}

/// The status code of a refused credential.
pub const STATUS_UNAUTHORIZED: u16 = 401;

/// The status code of a refused payload.
pub const STATUS_BAD_REQUEST: u16 = 400;

/// The kind that a status code stands for.
pub open spec fn kind_of_status(status: u16) -> ErrorKind {
    if status == 401 {
        ErrorKind::Authentication
    } else if status == 400 {
        ErrorKind::Validation
    } else {
        ErrorKind::Unclassified
    }
}

/// The text speaks of a refused credential.
pub open spec fn mentions_authentication(text: Seq<char>) -> bool {
    ||| contains_ignoring_case(text, "401"@)
    ||| contains_ignoring_case(text, "unauthorized"@)
    ||| contains_ignoring_case(text, "authentication"@)
}

/// The text speaks of a refused payload.
pub open spec fn mentions_validation(text: Seq<char>) -> bool {
    ||| contains_ignoring_case(text, "400"@)
    ||| contains_ignoring_case(text, "bad request"@)
    ||| contains_ignoring_case(text, "invalid_request"@)
    ||| contains_ignoring_case(text, "messages"@)
}

/// The kind that an error's text stands for. A text that speaks of both
/// counts as a refused credential.
pub open spec fn kind_of_text(text: Seq<char>) -> ErrorKind {
    if mentions_authentication(text) {
        ErrorKind::Authentication
    } else if mentions_validation(text) {
        ErrorKind::Validation
    } else {
        ErrorKind::Unclassified
    }
}

/// The kind of a failed call: by its status code where there is one, and
/// by its text only where there is none.
pub open spec fn classification(error: crate::model::CallErrorView) -> ErrorKind {
    match error.status {
        Some(status) => kind_of_status(status),
        None => kind_of_text(error.message),
    }
}

/// Classifies a status code.
pub fn classify_status(status: u16) -> (kind: ErrorKind)
    ensures
        kind == kind_of_status(status),
{
    if status == STATUS_UNAUTHORIZED {
        ErrorKind::Authentication
    } else if status == STATUS_BAD_REQUEST {
        ErrorKind::Validation
    } else {
        ErrorKind::Unclassified
    }
}

/// Whether a text that is already folded holds the marker.
fn holds_marker(folded: &[char], marker: &str) -> (r: bool)
    ensures
        r == contains(folded@, fold(marker@)),
{
    let m = chars_of(marker);
    let mf = fold_chars(m.as_slice());
    find(folded, mf.as_slice()).is_some()
}

/// Classifies the rendered text of an error.
pub fn classify_text(text: &str) -> (kind: ErrorKind)
    ensures
        kind == kind_of_text(text@),
{
    let plain = chars_of(text);
    let folded = fold_chars(plain.as_slice());
    let hay = folded.as_slice();
    if holds_marker(hay, "401") || holds_marker(hay, "unauthorized") || holds_marker(
        hay,
        "authentication",
    ) {
        ErrorKind::Authentication
    } else if holds_marker(hay, "400") || holds_marker(hay, "bad request") || holds_marker(
        hay,
        "invalid_request",
    ) || holds_marker(hay, "messages") {
        ErrorKind::Validation
    } else {
        ErrorKind::Unclassified
    }
}

/// Classifies a failed call.
pub fn classify(error: &CallError) -> (kind: ErrorKind)
    ensures
        kind == classification(error@),
{
    match error.status {
        Some(status) => classify_status(status),
        None => classify_text(error.message.as_str()),
    }
}

/// Where the transport has a status code, the text has no say.
pub proof fn lemma_status_comes_first(status: u16, a: Seq<char>, b: Seq<char>)
    ensures
        classification(crate::model::CallErrorView { status: Some(status), message: a })
            == classification(crate::model::CallErrorView { status: Some(status), message: b }),
        classification(crate::model::CallErrorView { status: Some(status), message: a })
            == kind_of_status(status),
{
}

/// The case of ASCII letters has no say: two texts that differ in nothing
/// else are of the same kind.
pub proof fn lemma_case_is_ignored(a: Seq<char>, b: Seq<char>)
    requires
        fold(a) == fold(b),
    ensures
        kind_of_text(a) == kind_of_text(b),
{
}

/// A marker counts wherever it stands: a text that holds a marker of a
/// refused credential, in any case and with anything around it, is
/// classified as such.
pub proof fn lemma_marker_anywhere(before: Seq<char>, marker: Seq<char>, after: Seq<char>)
    requires
        fold(marker) == fold("401"@) || fold(marker) == fold("unauthorized"@) || fold(marker)
            == fold("authentication"@),
    ensures
        kind_of_text(before + marker + after) == ErrorKind::Authentication,
{
    let text = before + marker + after;
    let at = before.len() as int;
    assert(fold(text).subrange(at, at + marker.len()) =~= fold(marker));
    assert(occurs_at(fold(text), fold(marker), at));
    assert(contains(fold(text), fold(marker)));
}

} // verus!
