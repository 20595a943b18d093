//! Image source resolution orchestration.
//!
//! The manager keeps at most one lazily-created resolver per source kind
//! and dispatches each request to the resolver matching the source's
//! variant.  The resolvers themselves perform I/O and live outside this
//! library; the manager's decision — which kind handles the request, and
//! whether a new resolver instance must be constructed first — is pure
//! and verified here.
use vstd::prelude::*;

use crate::model::ImageSource;

verus! {

/// The three resolution strategies, one per [`ImageSource`] variant.
#[derive(Clone, Copy, PartialEq, Eq, Structural, Debug)]
pub enum ResolverKind {
    Registry,
    Path,
    Build,
}

/// The resolver kind that handles a source descriptor: each variant maps
/// to exactly one kind.
pub open spec fn spec_source_kind(source: ImageSource) -> ResolverKind {
    match source {
        ImageSource::Registry(_) => ResolverKind::Registry,
        ImageSource::Path(_) => ResolverKind::Path,
        ImageSource::Build(_) => ResolverKind::Build,
    }
}

/// Tracks which resolver instances exist.  Every manager starts cold:
/// no resolver is constructed before its first request.
pub struct ImageManager {
    pub registry_ready: bool,
    pub path_ready: bool,
    pub build_ready: bool,
}

impl ImageManager {
    /// Whether the resolver of `kind` has been constructed.
    pub open spec fn spec_has(self, kind: ResolverKind) -> bool {
        match kind {
            ResolverKind::Registry => self.registry_ready,
            ResolverKind::Path => self.path_ready,
            ResolverKind::Build => self.build_ready,
        }
    }

    /// The state after the resolver of `kind` exists.
    pub open spec fn spec_with(self, kind: ResolverKind) -> ImageManager {
        match kind {
            ResolverKind::Registry => ImageManager { registry_ready: true, ..self },
            ResolverKind::Path => ImageManager { path_ready: true, ..self },
            ResolverKind::Build => ImageManager { build_ready: true, ..self },
        }
    }

    /// A cold manager: no resolver constructed yet.
    pub fn new() -> (r: ImageManager)
        ensures
            !r.spec_has(ResolverKind::Registry),
            !r.spec_has(ResolverKind::Path),
            !r.spec_has(ResolverKind::Build),
    {
        ImageManager { registry_ready: false, path_ready: false, build_ready: false }
    }

    /// Dispatches a source descriptor: returns the kind of resolver that
    /// must handle it, and whether that resolver has to be constructed
    /// first (it does exactly when this is its first request).
    pub fn select_resolver(&mut self, source: &ImageSource) -> (r: (ResolverKind, bool))
        ensures
            r.0 == spec_source_kind(*source),
            r.1 == !old(self).spec_has(spec_source_kind(*source)),
            *final(self) == old(self).spec_with(spec_source_kind(*source)),
    {
        match source {
            ImageSource::Registry(_) => {
                let construct = !self.registry_ready;
                self.registry_ready = true;
                (ResolverKind::Registry, construct)
            },
            ImageSource::Path(_) => {
                let construct = !self.path_ready;
                self.path_ready = true;
                (ResolverKind::Path, construct)
            },
            ImageSource::Build(_) => {
                let construct = !self.build_ready;
                self.build_ready = true;
                (ResolverKind::Build, construct)
            },
        }
    }
}

impl Default for ImageManager {
    /// A cold manager, equal to [`ImageManager::new`].
    fn default() -> (r: ImageManager)
        ensures
            !r.spec_has(ResolverKind::Registry),
            !r.spec_has(ResolverKind::Path),
            !r.spec_has(ResolverKind::Build),
    {
        ImageManager::new()
    }
}

/// Requesting the same source kind twice reuses the one resolver: after a
/// first dispatch of `kind`, the resolver exists, and a second dispatch of
/// the same kind leaves the manager unchanged and constructs nothing.
/// Dispatching a different kind leaves this kind's resolver in place.
pub proof fn lemma_resolver_reused(m: ImageManager, kind: ResolverKind, other: ResolverKind)
    ensures
        m.spec_with(kind).spec_has(kind),
        m.spec_with(kind).spec_with(kind) == m.spec_with(kind),
        m.spec_with(kind).spec_with(other).spec_has(kind),
{
}

} // verus!
