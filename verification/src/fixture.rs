//! The fixture resolver's terminal step: turning what was read at the
//! resolved fixture path into the response outcome, with the JSON check done
//! by `serde_json`.

use vstd::prelude::*;
use crate::outcome::{FileRead, FixtureError, Outcome, OutcomeView, FixtureErrorView, ReadView};

verus! {

/// The JSON parse verdict for a byte string: `None` when the bytes are one
/// valid JSON document, otherwise the parser's error message. Parsing is a
/// function of the bytes alone, so the verdict has a name here rather than a
/// definition.
pub uninterp spec fn json_parse_error(bytes: Seq<u8>) -> Option<Seq<char>>;

/// Relies on `serde_json::from_slice` deserializing a `serde_json::Value`:
/// it accepts exactly the byte strings that are one complete JSON document by
/// serde_json's rules (any object, array or scalar at the top level, nothing
/// trailing but whitespace), decides that from the bytes alone, and reports a
/// parse error with its message and location for the rest.
#[verifier::external_body]
fn json_check(bytes: &Vec<u8>) -> (r: Option<String>)
    ensures
        r is None <==> json_parse_error(bytes@) is None,
        r matches Some(m) ==> json_parse_error(bytes@) matches Some(msg) && m@ == msg,
{
    match serde_json::from_slice::<serde_json::Value>(bytes.as_slice()) {
        Ok(_) => None,
        Err(e) => Some(format!("{}", e)),
    }
}

/// The outcome owed for a fixture request once its file has been looked up:
/// no file is a plain `NotFound`; an unreadable file and a file that is not
/// valid JSON are server errors carrying their cause; a parseable file's
/// bytes are the JSON response.
pub open spec fn fixture_outcome_spec(read: ReadView) -> OutcomeView {
    match read {
        ReadView::Missing => OutcomeView::NotFound,
        ReadView::Unreadable { message } => OutcomeView::ServerError {
            error: FixtureErrorView::Unreadable { message },
        },
        ReadView::Content { bytes } => match json_parse_error(bytes) {
            None => OutcomeView::JsonData { body: bytes },
            Some(message) => OutcomeView::ServerError {
                error: FixtureErrorView::Parse { message },
            },
        },
    }
}

/// Resolves a fixture request from what was read at its fixture path,
/// realizing [`fixture_outcome_spec`].
pub fn fixture_outcome(read: FileRead) -> (o: Outcome)
    ensures
        o@ == fixture_outcome_spec(read@),
{
    match read {
        FileRead::Missing => Outcome::NotFound,
        FileRead::Unreadable { message } => Outcome::ServerError {
            error: FixtureError::Unreadable { message },
        },
        FileRead::Content { bytes } => match json_check(&bytes) {
            None => Outcome::JsonData { body: bytes },
            Some(message) => Outcome::ServerError {
                error: FixtureError::Parse { message },
            },
        },
    }
}

} // verus!
