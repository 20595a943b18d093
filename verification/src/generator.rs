//! The runtime bundle generator: computes the complete bundle plan for a
//! container — directory layout, helper scripts, mount table and runtime
//! specification — as one pure value.  The surrounding binary resolves
//! the image, creates the directories, writes the scripts, hard-links the
//! running binary and persists the specification.
use vstd::prelude::*;
use vstd::string::StringExecFns;

use crate::bundle::{build_rootless_runtime_bundle, spec_env_ok, spec_linux_ok, RuntimeSpec,
    SPEC_VERSION};
use crate::merge::spec_cmd;
use crate::model::{ContainerConfig, DiffIdModel, Image};
use crate::mounts::{build_mounts, spec_mounts};
use crate::{has_no, spec_index_of, spec_path_join};

verus! {

/// One helper script to be written into the bundle's `bin/` directory.
pub struct ScriptFile {
    pub path: String,
    pub contents: String,
}

/// Mathematical model of a [`ScriptFile`].
#[verifier::ext_equal]
pub ghost struct ScriptFileModel {
    pub path: Seq<char>,
    pub contents: Seq<char>,
}

impl View for ScriptFile {
    type V = ScriptFileModel;

    open spec fn view(&self) -> ScriptFileModel {
        ScriptFileModel { path: self.path@, contents: self.contents@ }
    }
}

impl DeepView for ScriptFile {
    type V = ScriptFileModel;

    open spec fn deep_view(&self) -> ScriptFileModel {
        self.view()
    }
}

/// Everything one container build must put on disk: the bundle directory,
/// the sub-directories to create, the helper scripts, where to publish
/// the running binary, and the specification with its destination.
pub struct BundlePlan {
    /// The container's top-level bundle directory.
    pub bundle_dir: String,
    /// Directories to create, in order: `upper/`, `work/`, `bin/`,
    /// `rootfs/`.  Creation must be idempotent: pre-existing directories
    /// are kept, with their contents.
    pub directories: Vec<String>,
    /// One executable helper script per configured container link.
    pub scripts: Vec<ScriptFile>,
    /// Where the running binary is hard-linked, inside `bin/`.
    pub binary_path: String,
    /// Where the runtime specification is persisted, strictly last.
    pub config_path: String,
    /// The assembled runtime specification.
    pub runtime_spec: RuntimeSpec,
}

/// The text of a link's helper script: a shebang that invokes the
/// published binary's `call` sub-command, then the linked container's
/// name.
pub open spec fn spec_script_text(target: Seq<char>) -> Seq<char> {
    "#!"@ + crate::BIN_DIR@ + "/"@ + crate::SELF_BINARY@ + " call\n"@ + target + "\n"@
}

/// Formats the helper script for one linked container.
pub fn container_script(target: &str) -> (r: String)
    ensures
        r@ == spec_script_text(target@),
{
    let mut s = "#!".to_owned();
    s.append(crate::BIN_DIR);
    s.append("/");
    s.append(crate::SELF_BINARY);
    s.append(" call\n");
    s.append(target);
    s.append("\n");
    s
}

/// The lower-layer directory of one diff: layer root, then the hash
/// algorithm's name, then the encoded digest.
pub open spec fn spec_layer_path(layer_dir: Seq<char>, d: DiffIdModel) -> Seq<char> {
    spec_path_join(spec_path_join(layer_dir, d.algorithm), d.encoded)
}

/// The ordered lower-layer directories of an image, lowest layer first,
/// preserving the image's own stacking order.
pub open spec fn spec_lower_dirs(layer_dir: Seq<char>, diff_ids: Seq<DiffIdModel>) -> Seq<
    Seq<char>,
> {
    diff_ids.map_values(|d: DiffIdModel| spec_layer_path(layer_dir, d))
}

/// Generates a runtime bundle plan for a container.
pub trait RuntimeBundleGenerator {
    /// What this generator promises of every plan it computes.
    spec fn plan_ok(
        &self,
        r: BundlePlan,
        container_name: Seq<char>,
        image: Image,
        config: ContainerConfig,
        arguments: Seq<Seq<char>>,
    ) -> bool;

    /// Computes the bundle plan for `container_name` from a resolved
    /// image, the container's configuration and extra arguments.
    fn build(
        &self,
        container_name: &str,
        image: &Image,
        config: &ContainerConfig,
        arguments: Vec<String>,
    ) -> (r: BundlePlan)
        requires
            forall|i: int|
                0 <= i < image.spec_env().len() ==> spec_index_of(
                    #[trigger] image.spec_env()[i],
                    '=',
                ) < image.spec_env()[i].len(),
            forall|i: int|
                0 <= i < config.spec_env().len() ==> has_no(#[trigger] config.spec_env()[i].0, '='),
        ensures
            self.plan_ok(r, container_name@, *image, *config, arguments.deep_view()),
    ;
}

/// Generator for the `run` flow: bundles are laid out under the
/// per-container root, with layers taken from the layer cache.
pub struct RunGenerator {
    /// Root of the content-addressed layer cache.
    pub layer_dir: String,
    /// Root under which each container's bundle directory lives.
    pub container_dir: String,
}

impl RunGenerator {
    /// A generator over explicit cache locations.
    pub fn new(layer_dir: String, container_dir: String) -> (r: RunGenerator)
        ensures
            r.layer_dir == layer_dir,
            r.container_dir == container_dir,
    {
        RunGenerator { layer_dir, container_dir }
    }

    /// A generator over the platform's cache locations, when the platform
    /// knows a cache directory.
    pub fn try_default() -> (r: Option<RunGenerator>)
        ensures
            r matches Some(g) ==> (exists|b: Seq<char>|
                g.layer_dir@ == spec_path_join(b, "layers"@)) && (exists|b: Seq<char>|
                g.container_dir@ == spec_path_join(b, "containers"@)),
    {
        match (crate::dirs::layer_dir(), crate::dirs::containers()) {
            (Some(l), Some(c)) => Some(RunGenerator { layer_dir: l, container_dir: c }),
            _ => None,
        }
    }

    /// The container's top-level bundle directory.
    pub fn container_dir(&self, container_name: &str) -> (r: String)
        ensures
            r@ == spec_path_join(self.container_dir@, container_name@),
    {
        crate::path_join(self.container_dir.as_str(), container_name)
    }

    /// A location inside the container's bundle directory.
    pub fn location(&self, container_name: &str, sub_directory: &str) -> (r: String)
        ensures
            r@ == spec_path_join(
                spec_path_join(self.container_dir@, container_name@),
                sub_directory@,
            ),
    {
        let dir = self.container_dir(container_name);
        crate::path_join(dir.as_str(), sub_directory)
    }

    /// Computes the full bundle plan; see [`spec_plan_ok`] for everything
    /// it guarantees.
    pub fn build_plan(
        &self,
        container_name: &str,
        image: &Image,
        config: &ContainerConfig,
        arguments: Vec<String>,
    ) -> (r: BundlePlan)
        requires
            forall|i: int|
                0 <= i < image.spec_env().len() ==> spec_index_of(
                    #[trigger] image.spec_env()[i],
                    '=',
                ) < image.spec_env()[i].len(),
            forall|i: int|
                0 <= i < config.spec_env().len() ==> has_no(#[trigger] config.spec_env()[i].0, '='),
        ensures
            spec_plan_ok(r, *self, container_name@, *image, *config, arguments.deep_view()),
    {
        let ghost cdir = spec_path_join(self.container_dir@, container_name@);
        let lower_dirs = self.build_lower_dirs(image);
        let upper_dir = self.location(container_name, "upper");
        let work_dir = self.location(container_name, "work");
        let bin_dir = self.location(container_name, "bin");
        let root_fs = self.location(container_name, "rootfs");
        let config_path = self.location(container_name, "config.json");
        let binary_path = crate::path_join(bin_dir.as_str(), crate::SELF_BINARY);

        let mut scripts: Vec<ScriptFile> = Vec::new();
        match &config.links {
            Some(links) => {
                let mut i: usize = 0;
                while i < links.len()
                    invariant
                        i <= links.len(),
                        bin_dir@ == spec_path_join(cdir, "bin"@),
                        scripts.deep_view() =~= links.deep_view().take(i as int).map_values(
                            |l: (Seq<char>, Seq<char>)| ScriptFileModel {
                                path: spec_path_join(spec_path_join(cdir, "bin"@), l.0),
                                contents: spec_script_text(l.1),
                            },
                        ),
                    decreases links.len() - i,
                {
                    let link = &links[i];
                    let path = crate::path_join(bin_dir.as_str(), link.0.as_str());
                    let contents = container_script(link.1.as_str());
                    let ghost prev = scripts.deep_view();
                    scripts.push(ScriptFile { path, contents });
                    proof {
                        let f = |l: (Seq<char>, Seq<char>)| ScriptFileModel {
                            path: spec_path_join(spec_path_join(cdir, "bin"@), l.0),
                            contents: spec_script_text(l.1),
                        };
                        assert(scripts.deep_view() =~= prev.push(f(links.deep_view()[i as int])));
                        assert(links.deep_view().take((i + 1) as int) =~= links.deep_view().take(
                            i as int,
                        ).push(links.deep_view()[i as int]));
                        assert(scripts.deep_view() =~= links.deep_view().take(
                            (i + 1) as int,
                        ).map_values(f));
                    }
                    i = i + 1;
                }
                proof {
                    assert(links.deep_view().take(links.len() as int) =~= links.deep_view());
                }
            },
            None => {},
        }

        let ghost upv = upper_dir@;
        let ghost wov = work_dir@;
        let ghost biv = bin_dir@;
        let mut directories: Vec<String> = Vec::new();
        directories.push(upper_dir.clone());
        directories.push(work_dir.clone());
        directories.push(bin_dir.clone());
        directories.push(root_fs);
        proof {
            assert(directories.deep_view() =~= seq![
                spec_path_join(cdir, "upper"@),
                spec_path_join(cdir, "work"@),
                spec_path_join(cdir, "bin"@),
                spec_path_join(cdir, "rootfs"@),
            ]);
        }

        let mounts = build_mounts(lower_dirs, upper_dir, work_dir, bin_dir);
        let runtime_spec = build_rootless_runtime_bundle(image, config, mounts, arguments);
        let bundle_dir = self.container_dir(container_name);
        BundlePlan { bundle_dir, directories, scripts, binary_path, config_path, runtime_spec }
    }

    /// The ordered lower-layer directories for an image's diffs.
    fn build_lower_dirs(&self, image: &Image) -> (r: Vec<String>)
        ensures
            r.deep_view() =~= spec_lower_dirs(self.layer_dir@, image.rootfs.diff_ids.deep_view()),
    {
        let diffs = &image.rootfs.diff_ids;
        let mut r: Vec<String> = Vec::new();
        let mut i: usize = 0;
        while i < diffs.len()
            invariant
                i <= diffs.len(),
                r.deep_view() =~= spec_lower_dirs(
                    self.layer_dir@,
                    diffs.deep_view().take(i as int),
                ),
            decreases diffs.len() - i,
        {
            let d = &diffs[i];
            let alg_dir = crate::path_join(self.layer_dir.as_str(), d.algorithm.as_str());
            let path = crate::path_join(alg_dir.as_str(), d.encoded.as_str());
            let ghost prev = r.deep_view();
            r.push(path);
            proof {
                let f = |dm: DiffIdModel| spec_layer_path(self.layer_dir@, dm);
                assert(r.deep_view() =~= prev.push(f(diffs.deep_view()[i as int])));
                assert(diffs.deep_view().take((i + 1) as int) =~= diffs.deep_view().take(
                    i as int,
                ).push(diffs.deep_view()[i as int]));
                assert(r.deep_view() =~= diffs.deep_view().take((i + 1) as int).map_values(f));
            }
            i = i + 1;
        }
        proof {
            assert(diffs.deep_view().take(diffs.len() as int) =~= diffs.deep_view());
        }
        r
    }
}

/// What a computed bundle plan guarantees, for generator state `g`,
/// container name `name`, resolved image, configuration and arguments:
/// the directory layout under the container's bundle directory, one
/// script per link, the binary publication path, the `config.json`
/// destination, and the fully-determined runtime specification.
pub open spec fn spec_plan_ok(
    r: BundlePlan,
    g: RunGenerator,
    name: Seq<char>,
    image: Image,
    config: ContainerConfig,
    arguments: Seq<Seq<char>>,
) -> bool {
    let cdir = spec_path_join(g.container_dir@, name);
    let bin = spec_path_join(cdir, "bin"@);
    &&& r.bundle_dir@ == cdir
    &&& r.directories.deep_view() =~= seq![
        spec_path_join(cdir, "upper"@),
        spec_path_join(cdir, "work"@),
        bin,
        spec_path_join(cdir, "rootfs"@),
    ]
    &&& r.scripts.deep_view() =~= (match config.links {
        Some(links) => links.deep_view().map_values(
            |l: (Seq<char>, Seq<char>)| ScriptFileModel {
                path: spec_path_join(bin, l.0),
                contents: spec_script_text(l.1),
            },
        ),
        None => Seq::empty(),
    })
    &&& r.binary_path@ == spec_path_join(bin, crate::SELF_BINARY@)
    &&& r.config_path@ == spec_path_join(cdir, "config.json"@)
    &&& r.runtime_spec.version@ == SPEC_VERSION@
    &&& r.runtime_spec.root.readonly == false
    &&& r.runtime_spec.mounts.deep_view() =~~= spec_mounts(
        spec_lower_dirs(g.layer_dir@, image.rootfs.diff_ids.deep_view()),
        spec_path_join(cdir, "upper"@),
        spec_path_join(cdir, "work"@),
        bin,
    )
    &&& r.runtime_spec.process.args.deep_view() =~~= spec_cmd(image, config, arguments)
    &&& spec_env_ok(r.runtime_spec.process.env.deep_view(), image, config)
    &&& spec_linux_ok(r.runtime_spec.linux, image)
}

/// Re-planning the same container is stable: two plans computed for the
/// same generator state, container name, image, configuration and
/// arguments lay out the same bundle directory, the same directories to
/// create, the same scripts and the same destinations.  Together with
/// idempotent directory creation on the performing side, re-invoking the
/// build for one container name cannot relocate or clear the bundle's
/// `upper/` directory.
pub proof fn lemma_plan_stable(
    r1: BundlePlan,
    r2: BundlePlan,
    g: RunGenerator,
    name: Seq<char>,
    image: Image,
    config: ContainerConfig,
    arguments: Seq<Seq<char>>,
)
    requires
        spec_plan_ok(r1, g, name, image, config, arguments),
        spec_plan_ok(r2, g, name, image, config, arguments),
    ensures
        r1.bundle_dir@ == r2.bundle_dir@,
        r1.directories.deep_view() =~= r2.directories.deep_view(),
        r1.scripts.deep_view() =~= r2.scripts.deep_view(),
        r1.binary_path@ == r2.binary_path@,
        r1.config_path@ == r2.config_path@,
{
}

impl RuntimeBundleGenerator for RunGenerator {
    /// This generator's plans satisfy [`spec_plan_ok`].
    open spec fn plan_ok(
        &self,
        r: BundlePlan,
        container_name: Seq<char>,
        image: Image,
        config: ContainerConfig,
        arguments: Seq<Seq<char>>,
    ) -> bool {
        spec_plan_ok(r, *self, container_name, image, config, arguments)
    }

    /// The bundle plan for the `run` flow; guarantees [`spec_plan_ok`].
    fn build(
        &self,
        container_name: &str,
        image: &Image,
        config: &ContainerConfig,
        arguments: Vec<String>,
    ) -> (r: BundlePlan) {
        self.build_plan(container_name, image, config, arguments)
    }
}

/// Generator for the `call` flow; the flow carries no verified bundle
/// construction of its own yet.
pub struct CallGenerator {}

impl Default for CallGenerator {
    /// The one, stateless value of the type.
    fn default() -> CallGenerator {
        CallGenerator {}
    }
}

} // verus!
