//! The ordered mount table of a bundle.
//!
//! The order is load-bearing: a runtime applies mounts in list order, so the
//! overlay root must come first, `/sys/fs/cgroup` must follow `/sys`, and the
//! bind mount of the bundle's `bin/` directory comes last.
use vstd::prelude::*;

verus! {

/// One mount entry of the runtime specification.
pub struct Mount {
    pub destination: String,
    pub typ: Option<String>,
    pub source: Option<String>,
    pub options: Option<Vec<String>>,
}

/// Mathematical model of a [`Mount`].
#[verifier::ext_equal]
pub ghost struct MountModel {
    pub destination: Seq<char>,
    pub typ: Option<Seq<char>>,
    pub source: Option<Seq<char>>,
    pub options: Option<Seq<Seq<char>>>,
}

impl View for Mount {
    type V = MountModel;

    open spec fn view(&self) -> MountModel {
        MountModel {
            destination: self.destination@,
            typ: self.typ.deep_view(),
            source: self.source.deep_view(),
            options: self.options.deep_view(),
        }
    }
}

impl DeepView for Mount {
    type V = MountModel;

    open spec fn deep_view(&self) -> MountModel {
        self.view()
    }
}

/// `paths` joined with `:` separators.
pub open spec fn spec_join_colon(paths: Seq<Seq<char>>) -> Seq<char>
    decreases paths.len(),
{
    if paths.len() == 0 {
        Seq::empty()
    } else if paths.len() == 1 {
        paths[0]
    } else {
        spec_join_colon(paths.drop_last()) + ":"@ + paths.last()
    }
}

/// One `key=path:path:...` option of the overlay root mount.
pub open spec fn spec_overlay_option(kind: Seq<char>, paths: Seq<Seq<char>>) -> Seq<char> {
    kind + "="@ + spec_join_colon(paths)
}

/// Formats one overlay mount option: `kind` followed by `=` and the
/// colon-joined `paths`.
pub fn overlay_option(kind: &str, paths: &Vec<String>) -> (r: String)
    ensures
        r@ == spec_overlay_option(kind@, paths.deep_view()),
{
    let ghost all = paths.deep_view();
    let mut option = kind.to_owned();
    option.append("=");
    let mut i: usize = 0;
    while i < paths.len()
        invariant
            i <= paths.len(),
            all == paths.deep_view(),
            option@ == kind@ + "="@ + spec_join_colon(all.take(i as int)),
        decreases paths.len() - i,
    {
        if i > 0 {
            option.append(":");
        }
        option.append(paths[i].as_str());
        proof {
            let t = all.take((i + 1) as int);
            assert(t.drop_last() =~= all.take(i as int));
            assert(t.last() == all[i as int]);
            if i == 0 {
                assert(spec_join_colon(t) == all[0]);
                assert(Seq::<char>::empty() + "="@ =~= "="@);
                assert(kind@ + "="@ + spec_join_colon(all.take(0int)) =~= kind@ + "="@);
            }
        }
        i = i + 1;
    }
    proof {
        assert(all.take(paths.len() as int) =~= all);
        if paths.len() == 0 {
            assert(kind@ + "="@ + spec_join_colon(all) =~= kind@ + "="@);
        }
    }
    option
}

/// The overlay root mount: lower layers from the image, the bundle's
/// dedicated upper and work directories.
pub open spec fn spec_root_mount(
    lower_dirs: Seq<Seq<char>>,
    upper_dir: Seq<char>,
    work_dir: Seq<char>,
) -> MountModel {
    MountModel {
        destination: "/"@,
        typ: Some("overlay"@),
        source: Some("overlay"@),
        options: Some(
            seq![
                spec_overlay_option("lowerdir"@, lower_dirs),
                spec_overlay_option("upperdir"@, seq![upper_dir]),
                spec_overlay_option("workdir"@, seq![work_dir]),
            ],
        ),
    }
}

/// The fixed mounts that follow the overlay root, in order: `/proc`,
/// `/dev`, `/dev/pts`, `/dev/shm`, `/dev/mqueue`, `/sys`, `/sys/fs/cgroup`.
pub open spec fn spec_fixed_mounts() -> Seq<MountModel> {
    seq![
        MountModel {
            destination: "/proc"@,
            typ: Some("proc"@),
            source: Some("proc"@),
            options: None,
        },
        MountModel {
            destination: "/dev"@,
            typ: Some("tmpfs"@),
            source: Some("tmpfs"@),
            options: Some(seq!["nosuid"@, "strictatime"@, "mode=755"@, "size=65536k"@]),
        },
        MountModel {
            destination: "/dev/pts"@,
            typ: Some("devpts"@),
            source: Some("devpts"@),
            options: Some(
                seq!["nosuid"@, "noexec"@, "newinstance"@, "ptmxmode=0666"@, "mode=0620"@],
            ),
        },
        MountModel {
            destination: "/dev/shm"@,
            typ: Some("tmpfs"@),
            source: Some("shm"@),
            options: Some(seq!["nosuid"@, "noexec"@, "nodev"@, "mode=1777"@, "size=65536k"@]),
        },
        MountModel {
            destination: "/dev/mqueue"@,
            typ: Some("mqueue"@),
            source: Some("mqueue"@),
            options: Some(seq!["nosuid"@, "noexec"@, "nodev"@]),
        },
        MountModel {
            destination: "/sys"@,
            typ: Some("none"@),
            source: Some("/sys"@),
            options: Some(seq!["rbind"@, "nosuid"@, "noexec"@, "nodev"@, "ro"@]),
        },
        MountModel {
            destination: "/sys/fs/cgroup"@,
            typ: Some("cgroup"@),
            source: Some("cgroup"@),
            options: Some(seq!["nosuid"@, "noexec"@, "nodev"@, "relatime"@, "ro"@]),
        },
    ]
}

/// The read-write bind mount that publishes the bundle's `bin/` directory
/// at the fixed in-container binary path.
pub open spec fn spec_bin_mount(bin_dir: Seq<char>) -> MountModel {
    MountModel {
        destination: crate::BIN_DIR@,
        typ: Some("bind"@),
        source: Some(bin_dir),
        options: Some(seq!["rbind"@, "rw"@]),
    }
}

/// The complete mount table: overlay root first, the fixed
/// pseudo-filesystems next, the `bin/` bind mount last.
pub open spec fn spec_mounts(
    lower_dirs: Seq<Seq<char>>,
    upper_dir: Seq<char>,
    work_dir: Seq<char>,
    bin_dir: Seq<char>,
) -> Seq<MountModel> {
    seq![spec_root_mount(lower_dirs, upper_dir, work_dir)] + spec_fixed_mounts()
        + seq![spec_bin_mount(bin_dir)]
}

/// The overlay root mount always stands at index 0, the `bin/` bind mount
/// at the last index, and `/sys/fs/cgroup` after `/sys`.
pub proof fn lemma_mount_order(
    lower_dirs: Seq<Seq<char>>,
    upper_dir: Seq<char>,
    work_dir: Seq<char>,
    bin_dir: Seq<char>,
)
    ensures
        spec_mounts(lower_dirs, upper_dir, work_dir, bin_dir).len() == 9,
        spec_mounts(lower_dirs, upper_dir, work_dir, bin_dir)[0] == spec_root_mount(
            lower_dirs,
            upper_dir,
            work_dir,
        ),
        spec_mounts(lower_dirs, upper_dir, work_dir, bin_dir).last() == spec_bin_mount(bin_dir),
        spec_mounts(lower_dirs, upper_dir, work_dir, bin_dir)[6].destination == "/sys"@,
        spec_mounts(lower_dirs, upper_dir, work_dir, bin_dir)[7].destination == "/sys/fs/cgroup"@,
{
}

/// Builds the ordered mount table for one bundle from the image's lower
/// layer directories and the bundle's upper, work and `bin/` directories.
pub fn build_mounts(
    lower_dirs: Vec<String>,
    upper_dir: String,
    work_dir: String,
    bin_dir: String,
) -> (r: Vec<Mount>)
    ensures
        r.deep_view() =~~= spec_mounts(
            lower_dirs.deep_view(),
            upper_dir@,
            work_dir@,
            bin_dir@,
        ),
{
    let ghost upv = upper_dir@;
    let ghost wov = work_dir@;
    let lowerdir = overlay_option("lowerdir", &lower_dirs);
    let upper_paths = vec![upper_dir];
    let upperdir = overlay_option("upperdir", &upper_paths);
    let work_paths = vec![work_dir];
    let workdir = overlay_option("workdir", &work_paths);
    proof {
        assert(upper_paths.deep_view() =~= seq![upv]);
        assert(work_paths.deep_view() =~= seq![wov]);
    }
    let root_options = vec![lowerdir, upperdir, workdir];
    let mounts = vec![
        Mount {
            destination: "/".to_owned(),
            typ: Some("overlay".to_owned()),
            source: Some("overlay".to_owned()),
            options: Some(root_options),
        },
        Mount {
            destination: "/proc".to_owned(),
            typ: Some("proc".to_owned()),
            source: Some("proc".to_owned()),
            options: None,
        },
        Mount {
            destination: "/dev".to_owned(),
            typ: Some("tmpfs".to_owned()),
            source: Some("tmpfs".to_owned()),
            options: Some(vec![
                "nosuid".to_owned(),
                "strictatime".to_owned(),
                "mode=755".to_owned(),
                "size=65536k".to_owned(),
            ]),
        },
        Mount {
            destination: "/dev/pts".to_owned(),
            typ: Some("devpts".to_owned()),
            source: Some("devpts".to_owned()),
            options: Some(vec![
                "nosuid".to_owned(),
                "noexec".to_owned(),
                "newinstance".to_owned(),
                "ptmxmode=0666".to_owned(),
                "mode=0620".to_owned(),
            ]),
        },
        Mount {
            destination: "/dev/shm".to_owned(),
            typ: Some("tmpfs".to_owned()),
            source: Some("shm".to_owned()),
            options: Some(vec![
                "nosuid".to_owned(),
                "noexec".to_owned(),
                "nodev".to_owned(),
                "mode=1777".to_owned(),
                "size=65536k".to_owned(),
            ]),
        },
        Mount {
            destination: "/dev/mqueue".to_owned(),
            typ: Some("mqueue".to_owned()),
            source: Some("mqueue".to_owned()),
            options: Some(vec![
                "nosuid".to_owned(),
                "noexec".to_owned(),
                "nodev".to_owned(),
            ]),
        },
        Mount {
            destination: "/sys".to_owned(),
            typ: Some("none".to_owned()),
            source: Some("/sys".to_owned()),
            options: Some(vec![
                "rbind".to_owned(),
                "nosuid".to_owned(),
                "noexec".to_owned(),
                "nodev".to_owned(),
                "ro".to_owned(),
            ]),
        },
        Mount {
            destination: "/sys/fs/cgroup".to_owned(),
            typ: Some("cgroup".to_owned()),
            source: Some("cgroup".to_owned()),
            options: Some(vec![
                "nosuid".to_owned(),
                "noexec".to_owned(),
                "nodev".to_owned(),
                "relatime".to_owned(),
                "ro".to_owned(),
            ]),
        },
        Mount {
            destination: crate::BIN_DIR.to_owned(),
            typ: Some("bind".to_owned()),
            source: Some(bin_dir),
            options: Some(vec!["rbind".to_owned(), "rw".to_owned()]),
        },
    ];
    mounts
}

} // verus!
