//! The request-serving engine: resolves a request path against the resource
//! table, applies conditional-request rules, and produces the response, with
//! default-document resolution, a configurable not-found fallback, and an
//! optional guard that declines unmatched requests.

use crate::etag::any_match;
use crate::etag::any_match_spec;
use crate::etag::compute_etag;
use crate::etag::if_match_view;
use crate::etag::if_none_match_view;
use crate::etag::none_match;
use crate::etag::none_match_spec;
use crate::etag::resource_etag;
use crate::etag::EntityTag;
use crate::etag::EntityTagView;
use crate::etag::IfMatch;
use crate::etag::IfNoneMatch;
use crate::path::get_pathbuf;
use crate::path::normalize_path;
use crate::resource::clone_bytes;
use crate::resource::Resource;
use crate::resource::ResourceTable;
use crate::resource::ResourceView;
use vstd::prelude::*;

verus! {

/// The request method, as far as the engine cares: `GET`, `HEAD`, or
/// anything else.
#[derive(Clone, Copy, Debug, PartialEq, Eq, Structural)]
pub enum Method {
    Get,
    Head,
    Other,
}

/// What the engine reads from an incoming request: the method, the path left
/// after the mount prefix was stripped, and the two conditional headers.
pub struct RequestModel {
    pub method: Method,
    pub path: String,
    pub if_match: Option<IfMatch>,
    pub if_none_match: Option<IfNoneMatch>,
}

/// The spec-level value of a request.
pub struct RequestView {
    pub method: Method,
    pub path: Seq<char>,
    pub if_match: Option<crate::etag::IfMatchView>,
    pub if_none_match: Option<crate::etag::IfNoneMatchView>,
}

impl View for RequestModel {
    type V = RequestView;

    open spec fn view(&self) -> RequestView {
        RequestView {
            method: self.method,
            path: self.path@,
            if_match: if_match_view(self.if_match),
            if_none_match: if_none_match_view(self.if_none_match),
        }
    }
}

/// What the engine answers: a status code, the headers it sets, and the
/// body. The host transport omits the body for `HEAD` requests.
pub struct ResponseModel {
    pub status: u16,
    pub content_type: Option<String>,
    pub etag: Option<EntityTag>,
    pub allow: Option<String>,
    pub body: Vec<u8>,
}

/// The spec-level value of a response.
pub struct ResponseView {
    pub status: u16,
    pub content_type: Option<Seq<char>>,
    pub etag: Option<EntityTagView>,
    pub allow: Option<Seq<char>>,
    pub body: Seq<u8>,
}

impl View for ResponseModel {
    type V = ResponseView;

    open spec fn view(&self) -> ResponseView {
        ResponseView {
            status: self.status,
            content_type: match self.content_type {
                Option::None => Option::None,
                Option::Some(s) => Option::Some(s@),
            },
            etag: match self.etag {
                Option::None => Option::None,
                Option::Some(t) => Option::Some(t@),
            },
            allow: match self.allow {
                Option::None => Option::None,
                Option::Some(s) => Option::Some(s@),
            },
            body: self.body@,
        }
    }
}

/// The bytes of an ASCII character sequence, one byte per character.
pub open spec fn ascii_bytes(s: Seq<char>) -> Seq<u8> {
    Seq::new(s.len(), |i: int| s[i] as u8)
}

/// The body of the plain not-found answer: the text `Not found`.
pub open spec fn not_found_body() -> Seq<u8> {
    ascii_bytes("Not found"@)
}

/// The body of the method-not-allowed answer: the text
/// `This resource only supports GET and HEAD.`.
pub open spec fn method_not_allowed_body() -> Seq<u8> {
    ascii_bytes("This resource only supports GET and HEAD."@)
}

/// The `404 Not Found` answer: a short plain-text body, no caching headers.
pub open spec fn not_found_response() -> ResponseView {
    ResponseView {
        status: 404,
        content_type: Option::None,
        etag: Option::None,
        allow: Option::None,
        body: not_found_body(),
    }
}

/// The `405 Method Not Allowed` answer, with `Allow: GET, HEAD`.
pub open spec fn method_not_allowed_response() -> ResponseView {
    ResponseView {
        status: 405,
        content_type: Option::Some("text/plain"@),
        etag: Option::None,
        allow: Option::Some("GET, HEAD"@),
        body: method_not_allowed_body(),
    }
}

/// The `400 Bad Request` answer for an unsafe path: no detail is leaked.
pub open spec fn bad_request_response() -> ResponseView {
    ResponseView {
        status: 400,
        content_type: Option::None,
        etag: Option::None,
        allow: Option::None,
        body: Seq::<u8>::empty(),
    }
}

/// How a found resource is answered: precondition failure beats
/// not-modified, which beats serving the body; the `ETag` and
/// `Content-Type` headers are present in all three answers.
pub open spec fn respond_spec(res: ResourceView, q: RequestView) -> ResponseView {
    let etag = resource_etag(res.data.len(), res.modified as nat);
    let precondition_failed = !any_match_spec(etag, q.if_match);
    let not_modified = !none_match_spec(etag, q.if_none_match);
    if precondition_failed {
        ResponseView {
            status: 412,
            content_type: Option::Some(res.mime_type),
            etag: Option::Some(etag),
            allow: Option::None,
            body: Seq::<u8>::empty(),
        }
    } else if not_modified {
        ResponseView {
            status: 304,
            content_type: Option::Some(res.mime_type),
            etag: Option::Some(etag),
            allow: Option::None,
            body: Seq::<u8>::empty(),
        }
    } else {
        ResponseView {
            status: 200,
            content_type: Option::Some(res.mime_type),
            etag: Option::Some(etag),
            allow: Option::None,
            body: res.data,
        }
    }
}

/// `s` with every leading `/` removed.
pub open spec fn trim_slashes(s: Seq<char>) -> Seq<char>
    decreases s.len(),
{
    if s.len() > 0 && s[0] == '/' {
        trim_slashes(s.drop_first())
    } else {
        s
    }
}

pub(crate) fn trim_start_slashes<'a>(s: &'a str) -> (r: &'a str)
    ensures
        r@ == trim_slashes(s@),
{
    let n = s.unicode_len();
    let mut i: usize = 0;
    proof {
        assert(s@.skip(0) =~= s@);
    }
    while i < n && s.get_char(i) == '/'
        invariant
            n == s@.len(),
            0 <= i <= n,
            trim_slashes(s@) == trim_slashes(s@.skip(i as int)),
        decreases n - i,
    {
        proof {
            assert(s@.skip(i as int)[0] == s@[i as int]);
            assert(s@.skip(i as int).drop_first() =~= s@.skip(i as int + 1));
        }
        i += 1;
    }
    proof {
        if i < n {
            assert(s@.skip(i as int)[0] == s@[i as int]);
        }
        assert(trim_slashes(s@.skip(i as int)) == s@.skip(i as int));
        assert(s@.subrange(i as int, n as int) =~= s@.skip(i as int));
    }
    s.substring_char(i, n)
}

/// The key probed when index resolution applies: the path with `index.html`
/// appended and leading slashes removed.
pub open spec fn index_key(path: Seq<char>) -> Seq<char> {
    trim_slashes(path + "index.html"@)
}

/// The spec-level value of the shared service state.
pub struct InnerView {
    pub path: Seq<char>,
    pub files: Map<Seq<char>, ResourceView>,
}

/// The shared state behind a service: the mount path it was registered
/// under, and the resource table.
pub struct ResourceFilesInner {
    pub path: String,
    pub files: ResourceTable,
}

impl View for ResourceFilesInner {
    type V = InnerView;

    open spec fn view(&self) -> InnerView {
        InnerView { path: self.path@, files: self.files@ }
    }
}

/// The spec-level value of a service instance.
pub struct ServiceView {
    pub resolve_defaults: bool,
    pub not_found_resolves_to: Option<Seq<char>>,
    pub inner: InnerView,
}

/// A per-connection service instance: the configuration fixed at
/// construction plus the shared resource table.
pub struct ResourceFilesService {
    pub resolve_defaults: bool,
    pub not_found_resolves_to: Option<String>,
    pub inner: ResourceFilesInner,
}

impl View for ResourceFilesService {
    type V = ServiceView;

    open spec fn view(&self) -> ServiceView {
        ServiceView {
            resolve_defaults: self.resolve_defaults,
            not_found_resolves_to: match self.not_found_resolves_to {
                Option::None => Option::None,
                Option::Some(s) => Option::Some(s@),
            },
            inner: self.inner@,
        }
    }
}

/// The resource found before path validation comes in: the exact key, or
/// the default document when the path is empty or ends in `/` and index
/// resolution is on.
pub open spec fn lookup_direct(s: ServiceView, path: Seq<char>) -> Option<ResourceView> {
    if s.inner.files.contains_key(path) {
        Option::Some(s.inner.files[path])
    } else if s.resolve_defaults && (path.len() == 0 || path[path.len() - 1] == '/')
        && s.inner.files.contains_key(index_key(path)) {
        Option::Some(s.inner.files[index_key(path)])
    } else {
        Option::None
    }
}

/// The resource found for a validated path: the normalized key, or the
/// configured not-found fallback.
pub open spec fn lookup_validated(s: ServiceView, key: Seq<char>) -> Option<ResourceView> {
    if s.inner.files.contains_key(key) {
        Option::Some(s.inner.files[key])
    } else {
        match s.not_found_resolves_to {
            Option::Some(nf) => if s.inner.files.contains_key(nf) {
                Option::Some(s.inner.files[nf])
            } else {
                Option::None
            },
            Option::None => Option::None,
        }
    }
}

/// Everything the engine answers, for every request: the method gate, the
/// fixed resolution order, conditional evaluation, and
/// the classified bad-request answer for unsafe paths.
pub open spec fn serve_spec(s: ServiceView, q: RequestView) -> ResponseView {
    if q.method == Method::Other {
        method_not_allowed_response()
    } else {
        match lookup_direct(s, q.path) {
            Option::Some(res) => respond_spec(res, q),
            Option::None => match normalize_path(q.path) {
                Result::Err(_) => bad_request_response(),
                Result::Ok(key) => match lookup_validated(s, key) {
                    Option::Some(res) => respond_spec(res, q),
                    Option::None => not_found_response(),
                },
            },
        }
    }
}

/// The bytes of an ASCII string.
fn ascii_body(s: &str) -> (r: Vec<u8>)
    requires
        vstd::utf8::is_ascii_chars(s@),
    ensures
        r@ == ascii_bytes(s@),
{
    let v = s.as_bytes_vec();
    proof {
        broadcast use vstd::utf8::is_ascii_chars_encode_utf8;

        assert(v@ =~= ascii_bytes(s@));
    }
    v
}

fn make_not_found_body() -> (r: Vec<u8>)
    ensures
        r@ == not_found_body(),
{
    proof {
        reveal_strlit("Not found");
        assert(vstd::utf8::is_ascii_chars("Not found"@));
    }
    ascii_body("Not found")
}

fn make_method_not_allowed_body() -> (r: Vec<u8>)
    ensures
        r@ == method_not_allowed_body(),
{
    proof {
        reveal_strlit("This resource only supports GET and HEAD.");
        assert(vstd::utf8::is_ascii_chars("This resource only supports GET and HEAD."@));
    }
    ascii_body("This resource only supports GET and HEAD.")
}

/// Answers for a found (or missing) resource exactly as the conditional
/// rules say.
fn respond_to(req: &RequestModel, item: Option<&Resource>) -> (r: ResponseModel)
    ensures
        match item {
            Option::Some(res) => r@ == respond_spec(res@, req@),
            Option::None => r@ == not_found_response(),
        },
{
    match item {
        Option::Some(file) => {
            let etag = compute_etag(file.data.len() as u64, file.modified);
            let precondition_failed = !any_match(&etag, &req.if_match);
            let not_modified = !none_match(&etag, &req.if_none_match);
            if precondition_failed {
                ResponseModel {
                    status: 412,
                    content_type: Option::Some(file.mime_type.clone()),
                    etag: Option::Some(etag),
                    allow: Option::None,
                    body: Vec::new(),
                }
            } else if not_modified {
                ResponseModel {
                    status: 304,
                    content_type: Option::Some(file.mime_type.clone()),
                    etag: Option::Some(etag),
                    allow: Option::None,
                    body: Vec::new(),
                }
            } else {
                ResponseModel {
                    status: 200,
                    content_type: Option::Some(file.mime_type.clone()),
                    etag: Option::Some(etag),
                    allow: Option::None,
                    body: clone_bytes(&file.data),
                }
            }
        },
        Option::None => ResponseModel {
            status: 404,
            content_type: Option::None,
            etag: Option::None,
            allow: Option::None,
            body: make_not_found_body(),
        },
    }
}

impl ResourceFilesService {
    /// Serves one request: the whole per-request transform, stated by
    /// `serve_spec`.
    pub fn serve(&self, req: &RequestModel) -> (r: ResponseModel)
        ensures
            r@ == serve_spec(self@, req@),
    {
        match req.method {
            Method::Get | Method::Head => {},
            Method::Other => {
                return ResponseModel {
                    status: 405,
                    content_type: Option::Some(String::from_str("text/plain")),
                    etag: Option::None,
                    allow: Option::Some(String::from_str("GET, HEAD")),
                    body: make_method_not_allowed_body(),
                };
            },
        }
        let req_path = self.path_str(req);
        let mut item = self.inner.files.get_resource(req_path);
        if item.is_none() && self.resolve_defaults && (req_path.is_empty() || ends_with_slash(
            req_path,
        )) {
            let mut probe = req_path.to_owned();
            probe.append("index.html");
            let probe_key = trim_start_slashes(probe.as_str());
            proof {
                assert(probe_key@ == index_key(req@.path));
            }
            item = self.inner.files.get_resource(probe_key);
        }
        proof {
            match item {
                Option::Some(res) => {
                    assert(lookup_direct(self@, req@.path) == Option::Some(res@));
                },
                Option::None => {
                    assert(lookup_direct(self@, req@.path) is None);
                },
            }
        }
        if item.is_some() {
            respond_to(req, item)
        } else {
            let real_path = match get_pathbuf(req_path) {
                Result::Ok(p) => p,
                Result::Err(_) => {
                    return ResponseModel {
                        status: 400,
                        content_type: Option::None,
                        etag: Option::None,
                        allow: Option::None,
                        body: Vec::new(),
                    };
                },
            };
            let mut item = self.inner.files.get_resource(real_path.as_str());
            if item.is_none() {
                match &self.not_found_resolves_to {
                    Option::Some(not_found_path) => {
                        item = self.inner.files.get_resource(not_found_path.as_str());
                    },
                    Option::None => {},
                }
            }
            proof {
                let rp = normalize_path(req@.path)->Ok_0;
                match item {
                    Option::Some(res) => {
                        assert(lookup_validated(self@, rp) == Option::Some(res@));
                    },
                    Option::None => {
                        assert(lookup_validated(self@, rp) is None);
                    },
                }
            }
            respond_to(req, item)
        }
    }

    fn path_str<'a>(&self, req: &'a RequestModel) -> (r: &'a str)
        ensures
            r@ == req@.path,
    {
        req.path.as_str()
    }
}

pub(crate) fn ends_with_slash(s: &str) -> (r: bool)
    ensures
        r == (s@.len() > 0 && s@[s@.len() - 1] == '/'),
{
    let n = s.unicode_len();
    if n == 0 {
        false
    } else {
        s.get_char(n - 1) == '/'
    }
}

} // verus!
