//! What a request terminates in, and what the serving layer observed when it
//! read a file for the dispatch logic.

use vstd::prelude::*;
use crate::mime::ContentType;

verus! {

/// What the serving layer found when it read the file the dispatcher
/// resolved: nothing there, a file it could not read (with the operator-facing
/// message), or the file's bytes.
pub enum FileRead {
    Missing,
    Unreadable { message: String },
    Content { bytes: Vec<u8> },
}

/// The mathematical image of a [`FileRead`].
pub enum ReadView {
    Missing,
    Unreadable { message: Seq<char> },
    Content { bytes: Seq<u8> },
}

impl View for FileRead {
    type V = ReadView;

    open spec fn view(&self) -> ReadView {
        match self {
            FileRead::Missing => ReadView::Missing,
            FileRead::Unreadable { message } => ReadView::Unreadable { message: message@ },
            FileRead::Content { bytes } => ReadView::Content { bytes: bytes@ },
        }
    }
}

/// Why a fixture request failed with a server error. The message is what the
/// operator must see on the console: fixture authoring errors are loud.
pub enum FixtureError {
    /// The fixture file is listed but could not be read.
    Unreadable { message: String },
    /// The fixture file's content is not valid JSON.
    Parse { message: String },
}

/// The mathematical image of a [`FixtureError`].
pub enum FixtureErrorView {
    Unreadable { message: Seq<char> },
    Parse { message: Seq<char> },
}

impl View for FixtureError {
    type V = FixtureErrorView;

    open spec fn view(&self) -> FixtureErrorView {
        match self {
            FixtureError::Unreadable { message } => FixtureErrorView::Unreadable {
                message: message@,
            },
            FixtureError::Parse { message } => FixtureErrorView::Parse { message: message@ },
        }
    }
}

/// The terminal outcome of one request; every request maps to exactly one.
/// `NotFound` is a normal outcome, not an error; `ServerError` terminates the
/// request with its cause for the console. `InfoPage` stands for the fixed
/// informational page shown for the root path when the static root has no
/// `index.html`; its content belongs to the serving layer.
pub enum Outcome {
    StaticFile { bytes: Vec<u8>, content_type: ContentType },
    JsonData { body: Vec<u8> },
    InfoPage,
    NotFound,
    ServerError { error: FixtureError },
}

/// The mathematical image of an [`Outcome`].
pub enum OutcomeView {
    StaticFile { bytes: Seq<u8>, content_type: ContentType },
    JsonData { body: Seq<u8> },
    InfoPage,
    NotFound,
    ServerError { error: FixtureErrorView },
}

impl View for Outcome {
    type V = OutcomeView;

    open spec fn view(&self) -> OutcomeView {
        match self {
            Outcome::StaticFile { bytes, content_type } => OutcomeView::StaticFile {
                bytes: bytes@,
                content_type: *content_type,
            },
            Outcome::JsonData { body } => OutcomeView::JsonData { body: body@ },
            Outcome::InfoPage => OutcomeView::InfoPage,
            Outcome::NotFound => OutcomeView::NotFound,
            Outcome::ServerError { error } => OutcomeView::ServerError { error: error@ },
        }
    }
}

} // verus!
