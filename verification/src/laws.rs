//! Laws of the serving engine, stated over its specification and proved
//! once and for all.

use crate::etag::any_match_spec;
use crate::path::lemma_bad_end_rejected;
use crate::path::lemma_bad_start_rejected;
use crate::path::seg_is_parent;
use crate::path::split_segs;
use crate::service::bad_request_response;
use crate::service::lookup_direct;
use crate::etag::resource_etag;
use crate::etag::strong_match;
use crate::etag::weak_match;
use crate::etag::IfMatchView;
use crate::etag::IfNoneMatchView;
use crate::resource::ResourceView;
use crate::service::respond_spec;
use crate::service::serve_spec;
use crate::service::Method;
use crate::service::RequestView;
use crate::service::ServiceView;
use vstd::prelude::*;

verus! {

/// Law: serving is deterministic — issuing the same request twice against
/// the same service state yields the identical status, headers and body
/// both times.
pub proof fn lemma_serve_deterministic(
    s1: ServiceView,
    s2: ServiceView,
    q1: RequestView,
    q2: RequestView,
)
    requires
        s1 == s2,
        q1 == q2,
    ensures
        serve_spec(s1, q1) == serve_spec(s2, q2),
{
}

/// Law: a `HEAD` request draws exactly the status and headers of the same
/// `GET` request; only the transport omits the body.
pub proof fn lemma_head_same_as_get(s: ServiceView, q_get: RequestView, q_head: RequestView)
    requires
        q_get.method == Method::Get,
        q_head == (RequestView { method: Method::Head, ..q_get }),
    ensures
        serve_spec(s, q_head) == serve_spec(s, q_get),
{
}

/// Law: a `GET` or `HEAD` request that the exact and default-document
/// lookups do not answer, and whose first segment starts with `.` or `*`
/// (the `..` marker aside), draws `400 Bad Request`, whatever the table
/// holds.
pub proof fn lemma_serve_bad_start(s: ServiceView, q: RequestView)
    requires
        q.method == Method::Get || q.method == Method::Head,
        lookup_direct(s, q.path) is None,
        !seg_is_parent(split_segs(q.path)[0]),
        split_segs(q.path)[0].len() > 0,
        split_segs(q.path)[0][0] == '.' || split_segs(q.path)[0][0] == '*',
    ensures
        serve_spec(s, q) == bad_request_response(),
{
    lemma_bad_start_rejected(q.path);
}

/// Law: a `GET` or `HEAD` request that the exact and default-document
/// lookups do not answer, and whose last segment ends with `:`, `>` or `<`,
/// draws `400 Bad Request`, whatever the table holds.
pub proof fn lemma_serve_bad_end(s: ServiceView, q: RequestView)
    requires
        q.method == Method::Get || q.method == Method::Head,
        lookup_direct(s, q.path) is None,
        ({
            let segs = split_segs(q.path);
            let seg = segs[segs.len() - 1];
            seg.len() > 0 && (seg[seg.len() - 1] == ':' || seg[seg.len() - 1] == '>' || seg[seg.len()
                - 1] == '<')
        }),
    ensures
        serve_spec(s, q) == bad_request_response(),
{
    lemma_bad_end_rejected(q.path);
}

/// Law: a request whose `If-None-Match` lists a tag whose token equals the
/// resource's ETag token is answered `304 Not Modified` — empty body, the
/// `ETag` header still present — whenever its `If-Match` precondition
/// passes.
pub proof fn lemma_if_none_match_tag(res: ResourceView, q: RequestView)
    requires
        any_match_spec(resource_etag(res.data.len(), res.modified as nat), q.if_match),
        q.if_none_match matches Option::Some(IfNoneMatchView::Items(items)) && exists|i: int|
            0 <= i < items.len() && #[trigger] weak_match(
                items[i],
                resource_etag(res.data.len(), res.modified as nat),
            ),
    ensures
        respond_spec(res, q).status == 304,
        respond_spec(res, q).body == Seq::<u8>::empty(),
        respond_spec(res, q).etag == Option::Some(
            resource_etag(res.data.len(), res.modified as nat),
        ),
{
}

/// Law: `If-None-Match: *` always counts as already cached for a resource
/// that exists, whenever the `If-Match` precondition passes: the answer is
/// `304 Not Modified` with an empty body and the `ETag` header present.
pub proof fn lemma_if_none_match_any(res: ResourceView, q: RequestView)
    requires
        any_match_spec(resource_etag(res.data.len(), res.modified as nat), q.if_match),
        q.if_none_match == Option::Some(IfNoneMatchView::Any),
    ensures
        respond_spec(res, q).status == 304,
        respond_spec(res, q).body == Seq::<u8>::empty(),
        respond_spec(res, q).etag == Option::Some(
            resource_etag(res.data.len(), res.modified as nat),
        ),
{
}

/// Law: an `If-Match` header none of whose tags strong-matches the
/// resource's ETag fails the precondition: the answer is `412 Precondition
/// Failed` with an empty body and the `ETag` header present.
pub proof fn lemma_if_match_mismatch(res: ResourceView, q: RequestView)
    requires
        q.if_match matches Option::Some(IfMatchView::Items(items)) && forall|i: int|
            0 <= i < items.len() ==> !(#[trigger] strong_match(
                items[i],
                resource_etag(res.data.len(), res.modified as nat),
            )),
    ensures
        respond_spec(res, q).status == 412,
        respond_spec(res, q).body == Seq::<u8>::empty(),
        respond_spec(res, q).etag == Option::Some(
            resource_etag(res.data.len(), res.modified as nat),
        ),
{
}

} // verus!
