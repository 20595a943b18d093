//! The Linux-specific descriptor and the assembled runtime specification.
use vstd::prelude::*;

use crate::identity::{host_gid, host_uid, resolve_user, spec_group_token};
use crate::merge::{build_cmd, build_env, spec_cmd, spec_env_map, spec_env_pair, spec_map_of,
    spec_unique_keys};
use crate::model::{ContainerConfig, Image};
use crate::mounts::Mount;
use crate::{has_no, spec_index_of};

verus! {

/// The version string of the persisted runtime specification.
pub const SPEC_VERSION: &'static str = "1.0.2-dev";

/// One entry of a UID or GID mapping table: `size` consecutive IDs from
/// `container_id` map to the same number from `host_id`.
#[derive(Clone, Copy, PartialEq, Eq, Structural, Debug)]
pub struct LinuxIdMapping {
    pub container_id: u32,
    pub host_id: u32,
    pub size: u32,
}

/// The Linux namespace kinds the bundle may request.
#[derive(Clone, Copy, PartialEq, Eq, Structural, Debug)]
pub enum LinuxNamespaceType {
    Mount,
    Uts,
    Ipc,
    User,
    Pid,
}

/// One namespace request: a kind, and optionally a path to join an
/// existing namespace instead of creating a new one.
pub struct LinuxNamespace {
    pub typ: LinuxNamespaceType,
    pub path: Option<String>,
}

/// The Linux-specific part of the runtime specification.
pub struct Linux {
    pub uid_mappings: Vec<LinuxIdMapping>,
    pub gid_mappings: Vec<LinuxIdMapping>,
    pub namespaces: Vec<LinuxNamespace>,
}

/// The fixed namespace set, in order: mount, UTS, IPC, user, PID.  No
/// network namespace — networking stays shared with the host.
pub open spec fn spec_namespaces() -> Seq<LinuxNamespaceType> {
    seq![
        LinuxNamespaceType::Mount,
        LinuxNamespaceType::Uts,
        LinuxNamespaceType::Ipc,
        LinuxNamespaceType::User,
        LinuxNamespaceType::Pid,
    ]
}

/// The namespace list is exactly the fixed five, each without a path.
pub open spec fn spec_namespaces_ok(ns: Seq<LinuxNamespace>) -> bool {
    &&& ns.len() == spec_namespaces().len()
    &&& forall|i: int|
        0 <= i < ns.len() ==> (#[trigger] ns[i]).typ == spec_namespaces()[i] && ns[i].path is None
}

/// Builds the Linux descriptor from an already-resolved container
/// identity and the invoking host identity: two single-entry mapping
/// tables and the fixed namespace set.
pub fn build_linux_from(uid: u32, gid: u32, huid: u32, hgid: u32) -> (r: Linux)
    ensures
        r.uid_mappings@ =~= seq![LinuxIdMapping { container_id: uid, host_id: huid, size: 1u32 }],
        r.gid_mappings@ =~= seq![LinuxIdMapping { container_id: gid, host_id: hgid, size: 1u32 }],
        spec_namespaces_ok(r.namespaces@),
{
    Linux {
        uid_mappings: vec![LinuxIdMapping { container_id: uid, host_id: huid, size: 1 }],
        gid_mappings: vec![LinuxIdMapping { container_id: gid, host_id: hgid, size: 1 }],
        namespaces: vec![
            LinuxNamespace { typ: LinuxNamespaceType::Mount, path: None },
            LinuxNamespace { typ: LinuxNamespaceType::Uts, path: None },
            LinuxNamespace { typ: LinuxNamespaceType::Ipc, path: None },
            LinuxNamespace { typ: LinuxNamespaceType::User, path: None },
            LinuxNamespace { typ: LinuxNamespaceType::Pid, path: None },
        ],
    }
}

/// What every built Linux descriptor guarantees: single-entry mapping
/// tables (the defining mark of the rootless design — exactly one mapped
/// identity), the fixed namespaces, and root identity whenever the image
/// declares no user; a declared user without a group token still maps the
/// container group to root.
pub open spec fn spec_linux_ok(r: Linux, image: Image) -> bool {
    &&& r.uid_mappings@.len() == 1
    &&& r.gid_mappings@.len() == 1
    &&& r.uid_mappings@[0].size == 1
    &&& r.gid_mappings@[0].size == 1
    &&& spec_namespaces_ok(r.namespaces@)
    &&& image.spec_user() is None ==> r.uid_mappings@[0].container_id == 0
        && r.gid_mappings@[0].container_id == 0
    &&& match image.spec_user() {
        Some(u) => spec_group_token(u) is None ==> r.gid_mappings@[0].container_id == 0,
        None => true,
    }
}

/// Builds the Linux descriptor for an image: resolves the declared user,
/// reads the invoking host identity and maps the one to the other.
pub fn build_linux(image: &Image) -> (r: Linux)
    ensures
        spec_linux_ok(r, *image),
{
    let huid = host_uid();
    let hgid = host_gid();
    let id = resolve_user(image);
    build_linux_from(id.0, id.1, huid, hgid)
}

/// The root filesystem descriptor of the specification.
pub struct Root {
    pub readonly: bool,
}

/// The process descriptor: final argv and environment.
pub struct Process {
    pub args: Vec<String>,
    pub env: Vec<String>,
}

/// The assembled OCI-compatible runtime specification.
pub struct RuntimeSpec {
    pub version: String,
    pub root: Root,
    pub mounts: Vec<Mount>,
    pub process: Process,
    pub linux: Linux,
}

/// The process environment meets the merged-environment contract: unique
/// keys, every entry carries an `=`, and the denoted mapping is exactly
/// [`spec_env_map`].
pub open spec fn spec_env_ok(env: Seq<Seq<char>>, image: Image, config: ContainerConfig) -> bool {
    &&& spec_map_of(env.map_values(|e: Seq<char>| spec_env_pair(e))) =~= spec_env_map(
        image,
        config,
    )
    &&& spec_unique_keys(env.map_values(|e: Seq<char>| spec_env_pair(e)))
    &&& forall|i: int|
        0 <= i < env.len() ==> spec_index_of(#[trigger] env[i], '=') < env[i].len()
}

/// Assembles the runtime specification: a writable root, the given mount
/// table unchanged, the merged command line and environment, and the
/// rootless Linux descriptor.
pub fn build_rootless_runtime_bundle(
    image: &Image,
    config: &ContainerConfig,
    mounts: Vec<Mount>,
    arguments: Vec<String>,
) -> (r: RuntimeSpec)
    requires
        forall|i: int|
            0 <= i < image.spec_env().len() ==> spec_index_of(#[trigger] image.spec_env()[i], '=')
                < image.spec_env()[i].len(),
        forall|i: int|
            0 <= i < config.spec_env().len() ==> has_no(#[trigger] config.spec_env()[i].0, '='),
    ensures
        r.version@ == SPEC_VERSION@,
        r.root.readonly == false,
        r.mounts == mounts,
        r.process.args.deep_view() =~~= spec_cmd(*image, *config, arguments.deep_view()),
        spec_env_ok(r.process.env.deep_view(), *image, *config),
        spec_linux_ok(r.linux, *image),
{
    let args = build_cmd(image, config, arguments);
    let env = build_env(image, config);
    let linux = build_linux(image);
    RuntimeSpec {
        version: SPEC_VERSION.to_owned(),
        root: Root { readonly: false },
        mounts,
        process: Process { args, env },
        linux,
    }
}

} // verus!
