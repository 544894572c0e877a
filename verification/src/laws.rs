//! The guarantees the dispatcher gives as a whole, each stated over the spec
//! functions that the executable functions realize.

use vstd::prelude::*;
use crate::dispatch::{
    delay_spec, dispatch_spec, index_path_spec, is_api_request, resolve_target_spec,
    static_path_spec, TargetView,
};
use crate::fixture::{fixture_outcome_spec, json_parse_error};
use crate::mime::content_type_for_name_spec;
use crate::outcome::{FixtureErrorView, OutcomeView, ReadView};
use crate::paths::segments_ok;
use crate::request::{ConfigView, RequestView};

verus! {

/// Precedence is by route rank, not by filesystem check order: a request
/// under the API namespace is never handed to the static resolver, whatever
/// its method, the configuration, or what exists on disk — the routing
/// decision does not consult the filesystem at all.
pub proof fn lemma_api_precedence(req: RequestView, cfg: ConfigView)
    requires
        is_api_request(req),
    ensures
        !(resolve_target_spec(req, cfg) matches TargetView::StaticAsset { .. }),
        !(resolve_target_spec(req, cfg) matches TargetView::IndexPage { .. }),
{
}

/// Under the API namespace the method never matters: two requests for the
/// same path are routed to the same fixture, whichever of the supported
/// methods each carries.
pub proof fn lemma_method_immaterial_under_api(
    r1: RequestView,
    r2: RequestView,
    cfg: ConfigView,
)
    requires
        is_api_request(r1),
        r1.segments == r2.segments,
    ensures
        resolve_target_spec(r1, cfg) == resolve_target_spec(r2, cfg),
{
}

/// The query string is consumed only by the serving layer's logging: neither
/// the routing decision nor the delay plan depends on it.
pub proof fn lemma_query_immaterial(r1: RequestView, r2: RequestView, cfg: ConfigView)
    requires
        r1.method == r2.method,
        r1.segments == r2.segments,
    ensures
        resolve_target_spec(r1, cfg) == resolve_target_spec(r2, cfg),
        delay_spec(r1, cfg) == delay_spec(r2, cfg),
{
}

/// An API request whose fixture file holds valid JSON terminates in that
/// file's content, whatever method it carried.
pub proof fn lemma_parseable_fixture_served(
    req: RequestView,
    cfg: ConfigView,
    bytes: Seq<u8>,
)
    requires
        (resolve_target_spec(req, cfg) matches TargetView::Fixture { .. }),
        (json_parse_error(bytes) is None),
    ensures
        dispatch_spec(req, cfg, ReadView::Content { bytes }) == (OutcomeView::JsonData {
            body: bytes,
        }),
{
}

/// A request routed to a fixture is resolved by the fixture resolver alone:
/// the composed dispatch agrees with it on every possible read.
pub proof fn lemma_fixture_target_outcome(req: RequestView, cfg: ConfigView, read: ReadView)
    requires
        (resolve_target_spec(req, cfg) matches TargetView::Fixture { .. }),
    ensures
        dispatch_spec(req, cfg, read) == fixture_outcome_spec(read),
{
}

/// No fixture file at the resolved path is a plain not-found outcome, never
/// an error.
pub proof fn lemma_missing_fixture_not_found()
    ensures
        fixture_outcome_spec(ReadView::Missing) == OutcomeView::NotFound,
{
}

/// A fixture file that exists but cannot be read terminates the request with
/// a server error carrying the cause for the operator's console.
pub proof fn lemma_unreadable_fixture_reported(message: Seq<char>)
    ensures
        fixture_outcome_spec(ReadView::Unreadable { message }) == (OutcomeView::ServerError {
            error: FixtureErrorView::Unreadable { message },
        }),
{
}

/// A fixture file that is not valid JSON terminates the request with a
/// server error carrying the parser's message — authoring errors are loud,
/// never swallowed.
pub proof fn lemma_malformed_fixture_reported(bytes: Seq<u8>, message: Seq<char>)
    requires
        json_parse_error(bytes) == Some(message),
    ensures
        fixture_outcome_spec(ReadView::Content { bytes }) == (OutcomeView::ServerError {
            error: FixtureErrorView::Parse { message },
        }),
{
}

/// A `GET` outside the API namespace is served from the static root: the
/// resolved path is the request's segments joined under that root, the
/// outcome is that file's bytes under the inferred content type when a
/// regular file is there, and not-found otherwise.
pub proof fn lemma_static_resolution(req: RequestView, cfg: ConfigView, read: ReadView)
    requires
        !is_api_request(req),
        (req.method is Get),
        req.segments.len() > 0,
        segments_ok(req.segments),
    ensures
        resolve_target_spec(req, cfg) == (TargetView::StaticAsset {
            path: static_path_spec(cfg.static_root, req.segments),
            content_type: content_type_for_name_spec(req.segments.last()),
        }),
        (read matches ReadView::Content { bytes } ==> dispatch_spec(req, cfg, read)
            == (OutcomeView::StaticFile {
            bytes,
            content_type: content_type_for_name_spec(req.segments.last()),
        })),
        (read is Missing) ==> dispatch_spec(req, cfg, read) == OutcomeView::NotFound,
        (read matches ReadView::Unreadable { .. }) ==> dispatch_spec(req, cfg, read)
            == OutcomeView::NotFound,
{
}

/// The root path is answered from the static root's `index.html` when that
/// file can be read, served as HTML; otherwise it falls back to the fixed
/// informational page, never to an error.
pub proof fn lemma_root_path_resolution(req: RequestView, cfg: ConfigView, read: ReadView)
    requires
        (req.method is Get),
        req.segments.len() == 0,
    ensures
        resolve_target_spec(req, cfg) == (TargetView::IndexPage {
            path: index_path_spec(cfg.static_root),
        }),
        (read matches ReadView::Content { bytes } ==> dispatch_spec(req, cfg, read)
            == (OutcomeView::StaticFile {
            bytes,
            content_type: crate::mime::ContentType::Html,
        })),
        !(read matches ReadView::Content { .. }) ==> dispatch_spec(req, cfg, read)
            == OutcomeView::InfoPage,
{
}

/// The delay is imposed on every API-namespace request uniformly and on no
/// other: one global value for the process lifetime, no jitter, no per-route
/// override.
pub proof fn lemma_delay_only_for_api(req: RequestView, cfg: ConfigView)
    ensures
        is_api_request(req) ==> delay_spec(req, cfg) == cfg.delay_ms,
        !is_api_request(req) ==> delay_spec(req, cfg) == 0,
{
}

/// Dispatch is idempotent: the same request against an unchanged filesystem
/// observation terminates in the same outcome, with the same planned delay,
/// as often as it is issued.
pub proof fn lemma_dispatch_idempotent(
    req1: RequestView,
    req2: RequestView,
    cfg: ConfigView,
    read1: ReadView,
    read2: ReadView,
)
    requires
        req1 == req2,
        read1 == read2,
    ensures
        dispatch_spec(req1, cfg, read1) == dispatch_spec(req2, cfg, read2),
        delay_spec(req1, cfg) == delay_spec(req2, cfg),
{
}

/// The traversal guard stands before every filesystem touch: a request is
/// routed to a file only when every segment of the path it was resolved from
/// passed the guard, so no `..` or separator-bearing segment ever reaches a
/// resolver.
pub proof fn lemma_traversal_guard(req: RequestView, cfg: ConfigView)
    ensures
        (resolve_target_spec(req, cfg) matches TargetView::StaticAsset { .. }) ==> segments_ok(
            req.segments,
        ),
        (resolve_target_spec(req, cfg) matches TargetView::Fixture { .. }) ==> segments_ok(
            req.segments.skip(1),
        ),
{
}

} // verus!
