//! Data model: resolved images and caller-supplied container configuration.
use vstd::prelude::*;

verus! {

/// Content digest identifying one filesystem-diff layer of an image:
/// a hash-algorithm name together with the encoded digest text.
pub struct DiffId {
    pub algorithm: String,
    pub encoded: String,
}

/// Mathematical model of a [`DiffId`].
pub ghost struct DiffIdModel {
    pub algorithm: Seq<char>,
    pub encoded: Seq<char>,
}

impl View for DiffId {
    type V = DiffIdModel;

    open spec fn view(&self) -> DiffIdModel {
        DiffIdModel { algorithm: self.algorithm@, encoded: self.encoded@ }
    }
}

impl DeepView for DiffId {
    type V = DiffIdModel;

    open spec fn deep_view(&self) -> DiffIdModel {
        self.view()
    }
}

/// Root filesystem description of a resolved image: the ordered layer
/// digests, lowest layer first.
pub struct RootFs {
    pub diff_ids: Vec<DiffId>,
}

/// Optional image configuration: the declared run-as user and the default
/// entrypoint, command and environment.
pub struct ImageConfig {
    pub user: Option<String>,
    pub entrypoint: Option<Vec<String>>,
    pub cmd: Option<Vec<String>>,
    pub env: Option<Vec<String>>,
}

/// A resolved image: ordered layers plus optional configuration.
/// Immutable once produced by a resolver.
pub struct Image {
    pub rootfs: RootFs,
    pub config: Option<ImageConfig>,
}

impl Image {
    /// The user string the image declares, if any.
    pub open spec fn spec_user(&self) -> Option<Seq<char>> {
        match self.config {
            Some(c) => match c.user {
                Some(u) => Some(u@),
                None => None,
            },
            None => None,
        }
    }

    /// The default entrypoint the image declares, if any.
    pub open spec fn spec_entrypoint(&self) -> Option<Seq<Seq<char>>> {
        match self.config {
            Some(c) => match c.entrypoint {
                Some(e) => Some(e.deep_view()),
                None => None,
            },
            None => None,
        }
    }

    /// The default command the image declares, if any.
    pub open spec fn spec_cmd(&self) -> Option<Seq<Seq<char>>> {
        match self.config {
            Some(c) => match c.cmd {
                Some(e) => Some(e.deep_view()),
                None => None,
            },
            None => None,
        }
    }

    /// The `KEY=VALUE` environment entries the image declares, or the empty
    /// sequence when it declares none.
    pub open spec fn spec_env(&self) -> Seq<Seq<char>> {
        match self.config {
            Some(c) => match c.env {
                Some(e) => e.deep_view(),
                None => Seq::empty(),
            },
            None => Seq::empty(),
        }
    }
}

/// Source descriptor for an image: exactly one resolution strategy applies.
pub enum ImageSource {
    /// A registry reference, pulled over the network.
    Registry(String),
    /// A local filesystem path, converted in place.
    Path(String),
    /// A build descriptor, handed to a build pipeline.
    Build(String),
}

/// Caller-supplied configuration for one container build.
pub struct ContainerConfig {
    /// Which image to resolve, and how.
    pub image: ImageSource,
    /// Overrides the image's default command when present.
    pub cmd: Option<Vec<String>>,
    /// Overrides the image's default entrypoint when present.
    pub entrypoint: Option<Vec<String>>,
    /// Environment overrides, applied over the image's declared
    /// environment. Keys must be unique and must not contain `=`.
    pub env: Option<Vec<(String, String)>>,
    /// Link name to linked-container name, one helper script each.
    pub links: Option<Vec<(String, String)>>,
}

impl ContainerConfig {
    /// The entrypoint override, if any.
    pub open spec fn spec_entrypoint(&self) -> Option<Seq<Seq<char>>> {
        match self.entrypoint {
            Some(e) => Some(e.deep_view()),
            None => None,
        }
    }

    /// The command override, if any.
    pub open spec fn spec_cmd(&self) -> Option<Seq<Seq<char>>> {
        match self.cmd {
            Some(e) => Some(e.deep_view()),
            None => None,
        }
    }

    /// The environment overrides as key/value pairs, empty when absent.
    pub open spec fn spec_env(&self) -> Seq<(Seq<char>, Seq<char>)> {
        match self.env {
            Some(e) => e.deep_view(),
            None => Seq::empty(),
        }
    }
}

} // verus!
