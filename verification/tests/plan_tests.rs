use oci_spec::runtime as oci;
use toip::bundle::{LinuxNamespaceType, RuntimeSpec};
use toip::generator::{container_script, RunGenerator, RuntimeBundleGenerator};
use toip::model::{ContainerConfig, DiffId, Image, ImageConfig, ImageSource, RootFs};
use toip::mounts::{build_mounts, overlay_option, Mount};
use toip::{path_join, BIN_DIR};

fn strings(items: &[&str]) -> Vec<String> {
    items.iter().map(|s| s.to_string()).collect()
}

fn sample_image() -> Image {
    Image {
        rootfs: RootFs {
            diff_ids: vec![
                DiffId { algorithm: "sha256".to_string(), encoded: "abc".to_string() },
                DiffId { algorithm: "sha256".to_string(), encoded: "def".to_string() },
            ],
        },
        config: Some(ImageConfig {
            user: None,
            entrypoint: Some(strings(&["/init"])),
            cmd: Some(strings(&["serve"])),
            env: Some(strings(&["PATH=/usr/bin"])),
        }),
    }
}

fn sample_config() -> ContainerConfig {
    ContainerConfig {
        image: ImageSource::Registry("docker.io/library/alpine".to_string()),
        cmd: None,
        entrypoint: None,
        env: None,
        links: Some(vec![("db".to_string(), "database".to_string())]),
    }
}

#[test]
fn path_join_inserts_separator() {
    assert_eq!(path_join("/a", "b"), "/a/b");
}

#[test]
fn overlay_option_joins_paths_with_colons() {
    let paths = strings(&["/l/one", "/l/two"]);
    assert_eq!(overlay_option("lowerdir", &paths), "lowerdir=/l/one:/l/two");
    let one = strings(&["/up"]);
    assert_eq!(overlay_option("upperdir", &one), "upperdir=/up");
    let none: Vec<String> = vec![];
    assert_eq!(overlay_option("lowerdir", &none), "lowerdir=");
}

#[test]
fn container_script_text() {
    assert_eq!(container_script("database"), "#!/usr/bin/doe/doe call\ndatabase\n");
}

#[test]
fn mount_table_order_is_fixed() {
    let mounts = build_mounts(
        strings(&["/l/a", "/l/b"]),
        "/c/web/upper".to_string(),
        "/c/web/work".to_string(),
        "/c/web/bin".to_string(),
    );
    assert_eq!(mounts.len(), 9);
    // Overlay root first.
    assert_eq!(mounts[0].destination, "/");
    assert_eq!(mounts[0].typ.as_deref(), Some("overlay"));
    assert_eq!(
        mounts[0].options.as_ref().unwrap(),
        &strings(&[
            "lowerdir=/l/a:/l/b",
            "upperdir=/c/web/upper",
            "workdir=/c/web/work",
        ])
    );
    // Pseudo-filesystems in between, cgroup after sys.
    let destinations: Vec<&str> =
        mounts.iter().map(|m| m.destination.as_str()).collect();
    assert_eq!(
        destinations,
        vec![
            "/",
            "/proc",
            "/dev",
            "/dev/pts",
            "/dev/shm",
            "/dev/mqueue",
            "/sys",
            "/sys/fs/cgroup",
            BIN_DIR,
        ]
    );
    let sys = destinations.iter().position(|d| *d == "/sys").unwrap();
    let cgroup = destinations.iter().position(|d| *d == "/sys/fs/cgroup").unwrap();
    assert!(sys < cgroup);
    // Bin bind mount last.
    let last = mounts.last().unwrap();
    assert_eq!(last.destination, BIN_DIR);
    assert_eq!(last.typ.as_deref(), Some("bind"));
    assert_eq!(last.source.as_deref(), Some("/c/web/bin"));
    assert_eq!(last.options.as_ref().unwrap(), &strings(&["rbind", "rw"]));
}

#[test]
fn proc_mount_has_no_options() {
    let mounts = build_mounts(vec![], "/u".to_string(), "/w".to_string(), "/b".to_string());
    assert_eq!(mounts[1].destination, "/proc");
    assert!(mounts[1].options.is_none());
}

#[test]
fn build_plan_lays_out_bundle() {
    let generator = RunGenerator::new("/cache/layers".to_string(), "/cache/containers".to_string());
    let image = sample_image();
    let config = sample_config();
    let plan = generator.build("web", &image, &config, strings(&["-x"]));

    assert_eq!(plan.bundle_dir, "/cache/containers/web");
    assert_eq!(
        plan.directories,
        strings(&[
            "/cache/containers/web/upper",
            "/cache/containers/web/work",
            "/cache/containers/web/bin",
            "/cache/containers/web/rootfs",
        ])
    );
    assert_eq!(plan.scripts.len(), 1);
    assert_eq!(plan.scripts[0].path, "/cache/containers/web/bin/db");
    assert_eq!(plan.scripts[0].contents, "#!/usr/bin/doe/doe call\ndatabase\n");
    assert_eq!(plan.binary_path, "/cache/containers/web/bin/doe");
    assert_eq!(plan.config_path, "/cache/containers/web/config.json");

    let spec = &plan.runtime_spec;
    assert_eq!(spec.version, "1.0.2-dev");
    assert!(!spec.root.readonly);
    assert_eq!(spec.process.args, strings(&["/init", "serve", "-x"]));
    assert!(spec.process.env.contains(&"PATH=/usr/bin:/usr/bin/doe".to_string()));
    assert_eq!(
        spec.mounts[0].options.as_ref().unwrap()[0],
        "lowerdir=/cache/layers/sha256/abc:/cache/layers/sha256/def"
    );
    assert_eq!(spec.linux.uid_mappings.len(), 1);
    assert_eq!(spec.linux.gid_mappings.len(), 1);
    assert_eq!(spec.linux.uid_mappings[0].size, 1);
    assert_eq!(spec.linux.uid_mappings[0].container_id, 0);
    assert_eq!(spec.linux.namespaces.len(), 5);
}

#[test]
fn generator_locations() {
    let generator = RunGenerator::new("/l".to_string(), "/c".to_string());
    assert_eq!(generator.container_dir("web"), "/c/web");
    assert_eq!(generator.location("web", "upper"), "/c/web/upper");
}

fn to_oci_namespace(t: LinuxNamespaceType) -> oci::LinuxNamespaceType {
    match t {
        LinuxNamespaceType::Mount => oci::LinuxNamespaceType::Mount,
        LinuxNamespaceType::Uts => oci::LinuxNamespaceType::Uts,
        LinuxNamespaceType::Ipc => oci::LinuxNamespaceType::Ipc,
        LinuxNamespaceType::User => oci::LinuxNamespaceType::User,
        LinuxNamespaceType::Pid => oci::LinuxNamespaceType::Pid,
    }
}

fn to_oci_mount(m: &Mount) -> oci::Mount {
    let mut builder = oci::MountBuilder::default().destination(m.destination.as_str());
    if let Some(t) = &m.typ {
        builder = builder.typ(t.as_str());
    }
    if let Some(s) = &m.source {
        builder = builder.source(s.as_str());
    }
    if let Some(o) = &m.options {
        builder = builder.options(o.clone());
    }
    builder.build().unwrap()
}

fn to_oci_spec(spec: &RuntimeSpec) -> oci::Spec {
    let mounts: Vec<oci::Mount> = spec.mounts.iter().map(to_oci_mount).collect();
    let process = oci::ProcessBuilder::default()
        .args(spec.process.args.clone())
        .env(spec.process.env.clone())
        .build()
        .unwrap();
    let uid_mappings: Vec<oci::LinuxIdMapping> = spec
        .linux
        .uid_mappings
        .iter()
        .map(|m| {
            oci::LinuxIdMappingBuilder::default()
                .container_id(m.container_id)
                .host_id(m.host_id)
                .size(m.size)
                .build()
                .unwrap()
        })
        .collect();
    let gid_mappings: Vec<oci::LinuxIdMapping> = spec
        .linux
        .gid_mappings
        .iter()
        .map(|m| {
            oci::LinuxIdMappingBuilder::default()
                .container_id(m.container_id)
                .host_id(m.host_id)
                .size(m.size)
                .build()
                .unwrap()
        })
        .collect();
    let namespaces: Vec<oci::LinuxNamespace> = spec
        .linux
        .namespaces
        .iter()
        .map(|n| {
            oci::LinuxNamespaceBuilder::default()
                .typ(to_oci_namespace(n.typ))
                .build()
                .unwrap()
        })
        .collect();
    let linux = oci::LinuxBuilder::default()
        .uid_mappings(uid_mappings)
        .gid_mappings(gid_mappings)
        .namespaces(namespaces)
        .build()
        .unwrap();
    let root = oci::RootBuilder::default().readonly(spec.root.readonly).build().unwrap();
    oci::SpecBuilder::default()
        .version(spec.version.clone())
        .root(root)
        .mounts(mounts)
        .process(process)
        .linux(linux)
        .build()
        .unwrap()
}

#[test]
fn persisted_spec_round_trips() {
    let generator = RunGenerator::new("/cache/layers".to_string(), "/cache/containers".to_string());
    let image = sample_image();
    let config = sample_config();
    let plan = generator.build("web", &image, &config, strings(&["-x"]));
    let produced = &plan.runtime_spec;

    let persisted = serde_json::to_string(&to_oci_spec(produced)).unwrap();
    let reparsed: oci::Spec = serde_json::from_str(&persisted).unwrap();

    // Mount order survives persistence.
    let reparsed_mounts = reparsed.mounts().as_ref().unwrap();
    assert_eq!(reparsed_mounts.len(), produced.mounts.len());
    for (theirs, ours) in reparsed_mounts.iter().zip(produced.mounts.iter()) {
        assert_eq!(theirs.destination().to_str().unwrap(), ours.destination);
        assert_eq!(theirs.typ(), &ours.typ);
        assert_eq!(
            theirs.source().as_ref().map(|p| p.to_str().unwrap().to_string()),
            ours.source
        );
        assert_eq!(theirs.options(), &ours.options);
    }

    // The argv survives in order.
    let reparsed_process = reparsed.process().as_ref().unwrap();
    assert_eq!(reparsed_process.args().as_ref().unwrap(), &produced.process.args);
    assert_eq!(reparsed_process.env().as_ref().unwrap(), &produced.process.env);

    // The mapping tables survive entry for entry.
    let reparsed_linux = reparsed.linux().as_ref().unwrap();
    let uid = reparsed_linux.uid_mappings().as_ref().unwrap();
    assert_eq!(uid.len(), produced.linux.uid_mappings.len());
    for (theirs, ours) in uid.iter().zip(produced.linux.uid_mappings.iter()) {
        assert_eq!(theirs.container_id(), ours.container_id);
        assert_eq!(theirs.host_id(), ours.host_id);
        assert_eq!(theirs.size(), ours.size);
    }
    let gid = reparsed_linux.gid_mappings().as_ref().unwrap();
    assert_eq!(gid.len(), produced.linux.gid_mappings.len());
    for (theirs, ours) in gid.iter().zip(produced.linux.gid_mappings.iter()) {
        assert_eq!(theirs.container_id(), ours.container_id);
        assert_eq!(theirs.host_id(), ours.host_id);
        assert_eq!(theirs.size(), ours.size);
    }
    assert_eq!(reparsed.version(), &produced.version);
}

#[test]
fn cache_locations_end_with_their_sub_directory() {
    if let Some(p) = toip::dirs::layer_dir() {
        assert!(p.ends_with("/layers"));
    }
    if let Some(p) = toip::dirs::blob_dir() {
        assert!(p.ends_with("/blobs"));
    }
    if let Some(p) = toip::dirs::containers() {
        assert!(p.ends_with("/containers"));
    }
    if let Some(generator) = RunGenerator::try_default() {
        assert!(generator.layer_dir.ends_with("/layers"));
        assert!(generator.container_dir.ends_with("/containers"));
    }
}

#[test]
fn build_plan_without_links_has_no_scripts() {
    let generator = RunGenerator::new("/l".to_string(), "/c".to_string());
    let image = sample_image();
    let config = ContainerConfig {
        image: ImageSource::Path("/tmp/img".to_string()),
        cmd: None,
        entrypoint: None,
        env: None,
        links: None,
    };
    let plan = generator.build("solo", &image, &config, vec![]);
    assert!(plan.scripts.is_empty());
    assert_eq!(plan.bundle_dir, "/c/solo");
}

#[test]
fn replanning_produces_the_same_layout() {
    let generator = RunGenerator::new("/l".to_string(), "/c".to_string());
    let image = sample_image();
    let config = sample_config();
    let first = generator.build("web", &image, &config, vec![]);
    let second = generator.build("web", &image, &config, vec![]);
    assert_eq!(first.bundle_dir, second.bundle_dir);
    assert_eq!(first.directories, second.directories);
    assert_eq!(first.binary_path, second.binary_path);
    assert_eq!(first.config_path, second.config_path);
    assert_eq!(first.scripts.len(), second.scripts.len());
    assert_eq!(first.scripts[0].path, second.scripts[0].path);
    assert_eq!(first.scripts[0].contents, second.scripts[0].contents);
}

#[test]
fn dev_shm_options_each_appear_once() {
    let mounts = build_mounts(vec![], "/u".to_string(), "/w".to_string(), "/b".to_string());
    assert_eq!(mounts[4].destination, "/dev/shm");
    assert_eq!(mounts[4].typ.as_deref(), Some("tmpfs"));
    assert_eq!(mounts[4].source.as_deref(), Some("shm"));
    assert_eq!(
        mounts[4].options.as_ref().unwrap(),
        &strings(&["nosuid", "noexec", "nodev", "mode=1777", "size=65536k"])
    );
}
