//! The static resolver's terminal step, and the root-path special case.

use vstd::prelude::*;
use crate::mime::ContentType;
use crate::outcome::{FileRead, Outcome, OutcomeView, ReadView};

verus! {

/// The outcome owed for a static-asset request once its file has been looked
/// up: the file's bytes under the inferred content type when a regular file
/// was read, and `NotFound` otherwise — an unreadable static file is treated
/// as absent, never as a server error.
pub open spec fn static_outcome_spec(read: ReadView, content_type: ContentType) -> OutcomeView {
    match read {
        ReadView::Content { bytes } => OutcomeView::StaticFile { bytes, content_type },
        ReadView::Missing => OutcomeView::NotFound,
        ReadView::Unreadable { .. } => OutcomeView::NotFound,
    }
}

/// Resolves a static-asset request from what was read at its path, realizing
/// [`static_outcome_spec`].
pub fn static_outcome(read: FileRead, content_type: ContentType) -> (o: Outcome)
    ensures
        o@ == static_outcome_spec(read@, content_type),
{
    match read {
        FileRead::Content { bytes } => Outcome::StaticFile { bytes, content_type },
        FileRead::Missing => Outcome::NotFound,
        FileRead::Unreadable { .. } => Outcome::NotFound,
    }
}

/// The outcome owed for the root path: `index.html` from the static root when
/// it could be read, served as HTML; otherwise the fixed informational page.
pub open spec fn index_outcome_spec(read: ReadView) -> OutcomeView {
    match read {
        ReadView::Content { bytes } => OutcomeView::StaticFile {
            bytes,
            content_type: ContentType::Html,
        },
        ReadView::Missing => OutcomeView::InfoPage,
        ReadView::Unreadable { .. } => OutcomeView::InfoPage,
    }
}

/// Resolves a root-path request from what was read at the index path,
/// realizing [`index_outcome_spec`].
pub fn index_outcome(read: FileRead) -> (o: Outcome)
    ensures
        o@ == index_outcome_spec(read@),
{
    match read {
        FileRead::Content { bytes } => Outcome::StaticFile {
            bytes,
            content_type: ContentType::Html,
        },
        FileRead::Missing => Outcome::InfoPage,
        FileRead::Unreadable { .. } => Outcome::InfoPage,
    }
}

} // verus!
