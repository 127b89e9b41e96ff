//! The service builder: holds the resource table and the serving
//! configuration, spawns per-connection service instances, and offers the
//! registration-time guard that lets unmatched requests fall through to
//! another handler.

use crate::resource::ResourceTable;
use crate::service::ends_with_slash;
use crate::service::trim_slashes;
use crate::service::trim_start_slashes;
use crate::service::InnerView;
use crate::service::ResourceFilesInner;
use crate::service::ResourceFilesService;
use crate::service::ServiceView;
use vstd::prelude::*;

verus! {

/// The spec-level value of a service builder.
pub struct ResourceFilesView {
    pub not_resolve_defaults: bool,
    pub use_guard: bool,
    pub not_found_resolves_to: Option<Seq<char>>,
    pub inner: InnerView,
}

/// Static resource files handling: built once over a resource table, then
/// registered with the host framework; per-connection service instances
/// share the table.
pub struct ResourceFiles {
    pub not_resolve_defaults: bool,
    pub use_guard: bool,
    pub not_found_resolves_to: Option<String>,
    pub inner: ResourceFilesInner,
}

impl View for ResourceFiles {
    type V = ResourceFilesView;

    open spec fn view(&self) -> ResourceFilesView {
        ResourceFilesView {
            not_resolve_defaults: self.not_resolve_defaults,
            use_guard: self.use_guard,
            not_found_resolves_to: match self.not_found_resolves_to {
                Option::None => Option::None,
                Option::Some(s) => Option::Some(s@),
            },
            inner: self.inner@,
        }
    }
}

impl Clone for ResourceFilesInner {
    fn clone(&self) -> (r: Self)
        ensures
            r@ == self@,
    {
        ResourceFilesInner { path: self.path.clone(), files: self.files.clone() }
    }
}

/// Whether the registration-time guard accepts `uri_path`: with index
/// resolution off, only an exact key matches; with it on, a path that is
/// empty or ends in `/` also matches through its default document.
pub open spec fn guard_check_spec(f: ResourceFilesView, uri_path: Seq<char>) -> bool {
    let p = trim_slashes(uri_path);
    if f.not_resolve_defaults {
        f.inner.files.contains_key(p)
    } else {
        f.inner.files.contains_key(p) || ((p.len() == 0 || p[p.len() - 1] == '/')
            && f.inner.files.contains_key(p + "index.html"@))
    }
}

impl ResourceFiles {
    /// A builder over `files`, to be mounted at `path`: index resolution on,
    /// no fallback, no guard.
    pub fn new(path: &str, files: ResourceTable) -> (r: Self)
        ensures
            r@ == (ResourceFilesView {
                not_resolve_defaults: false,
                use_guard: false,
                not_found_resolves_to: Option::None,
                inner: InnerView { path: path@, files: files@ },
            }),
    {
        let inner = ResourceFilesInner { path: path.to_owned(), files };
        ResourceFiles {
            inner,
            not_resolve_defaults: false,
            not_found_resolves_to: Option::None,
            use_guard: false,
        }
    }

    /// By default a path ending in `/` also probes its `index.html`; this
    /// turns that resolution off.
    pub fn do_not_resolve_defaults(self) -> (r: Self)
        ensures
            r@ == (ResourceFilesView { not_resolve_defaults: true, ..self@ }),
    {
        ResourceFiles { not_resolve_defaults: true, ..self }
    }

    /// Resolves not-found references to this path, as single-page
    /// applications want.
    pub fn resolve_not_found_to(self, path: &str) -> (r: Self)
        ensures
            r@ == (ResourceFilesView {
                not_found_resolves_to: Option::Some(path@),
                ..self@
            }),
    {
        ResourceFiles { not_found_resolves_to: Option::Some(path.to_owned()), ..self }
    }

    /// Resolves not-found references to the root default document.
    pub fn resolve_not_found_to_root(self) -> (r: Self)
        ensures
            r@ == (ResourceFilesView {
                not_found_resolves_to: Option::Some("index.html"@),
                ..self@
            }),
    {
        self.resolve_not_found_to("index.html")
    }

    /// Asks registration to guard the handler, so unmatched requests fall
    /// through to another route instead of drawing a 404. Ignored once a
    /// not-found fallback is configured.
    pub fn skip_handler_when_not_found(self) -> (r: Self)
        ensures
            r@ == (ResourceFilesView { use_guard: true, ..self@ }),
    {
        ResourceFiles { use_guard: true, ..self }
    }

    /// Whether registration should attach the guard: only when guarding was
    /// asked for and no fallback is configured — a fallback wins over the
    /// guard.
    pub fn guard_enabled(&self) -> (r: bool)
        ensures
            r == (self@.use_guard && self@.not_found_resolves_to is None),
    {
        self.use_guard && self.not_found_resolves_to.is_none()
    }

    /// The registration-time guard's judgement on a full request path.
    pub fn guard_check(&self, uri_path: &str) -> (r: bool)
        ensures
            r == guard_check_spec(self@, uri_path@),
    {
        let p = trim_start_slashes(uri_path);
        if self.not_resolve_defaults {
            self.inner.files.contains_key(p)
        } else if self.inner.files.contains_key(p) {
            true
        } else if p.is_empty() || ends_with_slash(p) {
            let mut probe = p.to_owned();
            probe.append("index.html");
            self.inner.files.contains_key(probe.as_str())
        } else {
            false
        }
    }

    /// Spawns a per-connection service instance sharing this builder's table
    /// and configuration.
    pub fn new_service(&self) -> (r: ResourceFilesService)
        ensures
            r@ == (ServiceView {
                resolve_defaults: !self@.not_resolve_defaults,
                not_found_resolves_to: self@.not_found_resolves_to,
                inner: self@.inner,
            }),
    {
        let not_found_resolves_to = match &self.not_found_resolves_to {
            Option::Some(s) => Option::Some(s.clone()),
            Option::None => Option::None,
        };
        ResourceFilesService {
            resolve_defaults: !self.not_resolve_defaults,
            not_found_resolves_to,
            inner: self.inner.clone(),
        }
    }
}

} // verus!
