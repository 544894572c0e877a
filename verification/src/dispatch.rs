//! The dispatcher: route precedence between the API and static namespaces,
//! resolution of a request to the one file path it may touch, the delay plan,
//! and the composed request-to-outcome mapping.

use vstd::prelude::*;
use vstd::string::StringExecFns;
use crate::mime::ContentType;
use crate::outcome::{OutcomeView, ReadView};
use crate::paths::{
    fixture_file_name, joined, segments_ok, slash, check_segments_from, push_segments,
    fixture_file_name_exec, str_eq,
};
use crate::request::{Config, ConfigView, Method, Request, RequestView};

verus! {

/// The first path segment that marks the API namespace.
pub open spec fn api_marker() -> Seq<char> {
    "api"@
}

/// Whether a request belongs to the API namespace: its first segment is
/// `api`. The method plays no part — each supported method is routed
/// identically — and neither does the filesystem.
pub open spec fn is_api_request(req: RequestView) -> bool {
    req.segments.len() > 0 && req.segments[0] == api_marker()
}

/// Where the dispatcher sends a request: the one file path it may touch and
/// the resolver that owns it. `Unmatched` requests touch no file and
/// terminate as `NotFound`.
pub enum Target {
    /// An API request, to be answered from this fixture path after the delay.
    Fixture { path: String },
    /// A static-asset request, to be answered from this path under the
    /// static root.
    StaticAsset { path: String, content_type: ContentType },
    /// A root-path request, to be answered from the static root's
    /// `index.html` or the informational page.
    IndexPage { path: String },
    /// No route accepts the request.
    Unmatched,
}

/// The mathematical image of a [`Target`].
pub enum TargetView {
    Fixture { path: Seq<char> },
    StaticAsset { path: Seq<char>, content_type: ContentType },
    IndexPage { path: Seq<char> },
    Unmatched,
}

impl View for Target {
    type V = TargetView;

    open spec fn view(&self) -> TargetView {
        match self {
            Target::Fixture { path } => TargetView::Fixture { path: path@ },
            Target::StaticAsset { path, content_type } => TargetView::StaticAsset {
                path: path@,
                content_type: *content_type,
            },
            Target::IndexPage { path } => TargetView::IndexPage { path: path@ },
            Target::Unmatched => TargetView::Unmatched,
        }
    }
}

/// The fixture path for the segments after the `api` marker: they are joined
/// under the fixed fixture root `api/`, and the final segment's extension is
/// set to `json`.
pub open spec fn fixture_path_spec(rest: Seq<Seq<char>>) -> Seq<char>
    recommends
        rest.len() > 0,
{
    api_marker() + joined(rest.drop_last()) + slash() + fixture_file_name(rest.last())
}

/// The static-asset path: the request's segments joined under the configured
/// static root, with no extension inference.
pub open spec fn static_path_spec(root: Seq<char>, segs: Seq<Seq<char>>) -> Seq<char> {
    root + joined(segs)
}

/// The path of the index file served for the root path.
pub open spec fn index_path_spec(root: Seq<char>) -> Seq<char> {
    root + "/index.html"@
}

/// The dispatcher's routing decision. Precedence is by route rank alone: the
/// API namespace is examined first, so a request under it can never fall
/// through to the static resolver, whatever is on disk. Under the API
/// namespace every supported method is accepted; elsewhere only `GET` is
/// served, from the static root, with the root path itself going to the
/// index file. A request whose segments fail the traversal guard — and an
/// API request with no segments after the marker — matches no route.
pub open spec fn resolve_target_spec(req: RequestView, cfg: ConfigView) -> TargetView {
    if is_api_request(req) {
        let rest = req.segments.skip(1);
        if rest.len() > 0 && segments_ok(rest) {
            TargetView::Fixture { path: fixture_path_spec(rest) }
        } else {
            TargetView::Unmatched
        }
    } else if req.method is Get {
        if req.segments.len() == 0 {
            TargetView::IndexPage { path: index_path_spec(cfg.static_root) }
        } else if segments_ok(req.segments) {
            TargetView::StaticAsset {
                path: static_path_spec(cfg.static_root, req.segments),
                content_type: crate::mime::content_type_for_name_spec(req.segments.last()),
            }
        } else {
            TargetView::Unmatched
        }
    } else {
        TargetView::Unmatched
    }
}

/// Routes one request, realizing [`resolve_target_spec`].
pub fn resolve_target(req: &Request, cfg: &Config) -> (t: Target)
    ensures
        t@ == resolve_target_spec(req@, cfg@),
{
    let ghost dv: Seq<Seq<char>> = req.segments.deep_view();
    let n = req.segments.len();
    if n > 0 && str_eq(req.segments[0].as_str(), "api") {
        let ghost rest: Seq<Seq<char>> = dv.skip(1);
        if n >= 2 && check_segments_from(&req.segments, 1) {
            let mut path = String::from_str("api");
            push_segments(&mut path, &req.segments, 1, n - 1);
            path.append("/");
            let name = fixture_file_name_exec(req.segments[n - 1].as_str());
            path.append(name.as_str());
            proof {
                assert(rest.drop_last() =~= dv.subrange(1, n as int - 1));
                assert(rest.last() == dv[n as int - 1]);
                assert(path@ =~= fixture_path_spec(rest));
            }
            Target::Fixture { path }
        } else {
            Target::Unmatched
        }
    } else if req.method == Method::Get {
        if n == 0 {
            let mut path = String::from_str(cfg.static_root.as_str());
            path.append("/index.html");
            Target::IndexPage { path }
        } else if check_segments_from(&req.segments, 0) {
            proof {
                assert(dv.skip(0) =~= dv);
            }
            let mut path = String::from_str(cfg.static_root.as_str());
            push_segments(&mut path, &req.segments, 0, n);
            proof {
                assert(dv.subrange(0, n as int) =~= dv);
            }
            let content_type = crate::mime::content_type_for_name(req.segments[n - 1].as_str());
            Target::StaticAsset { path, content_type }
        } else {
            Target::Unmatched
        }
    } else {
        Target::Unmatched
    }
}

/// The delay owed before a request is resolved: the configured duration for
/// every API-namespace request, whatever its method or path, and none for any
/// other request.
pub open spec fn delay_spec(req: RequestView, cfg: ConfigView) -> u64 {
    if is_api_request(req) {
        cfg.delay_ms
    } else {
        0
    }
}

/// Plans the delay for a request, realizing [`delay_spec`]. The serving layer
/// suspends this request's handling for exactly the returned number of
/// milliseconds — zero means no suspension at all — before it resolves the
/// target.
pub fn planned_delay_ms(req: &Request, cfg: &Config) -> (d: u64)
    ensures
        d == delay_spec(req@, cfg@),
{
    let n = req.segments.len();
    if n > 0 && str_eq(req.segments[0].as_str(), "api") {
        cfg.delay_ms
    } else {
        0
    }
}

/// The whole core as one mapping: what outcome a request terminates in, given
/// the configuration and what the serving layer observed at the one path the
/// routing decision names. A pure function — no per-request state survives it.
pub open spec fn dispatch_spec(req: RequestView, cfg: ConfigView, read: ReadView) -> OutcomeView {
    match resolve_target_spec(req, cfg) {
        TargetView::Fixture { .. } => crate::fixture::fixture_outcome_spec(read),
        TargetView::StaticAsset { content_type, .. } => crate::assets::static_outcome_spec(
            read,
            content_type,
        ),
        TargetView::IndexPage { .. } => crate::assets::index_outcome_spec(read),
        TargetView::Unmatched => OutcomeView::NotFound,
    }
}

} // verus!
