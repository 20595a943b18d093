use toip::bundle::build_linux_from;
use toip::identity::{gid_fallback, parse_gid, resolve_user, uid_fallback};
use toip::manager::{ImageManager, ResolverKind};
use toip::model::{Image, ImageConfig, ImageSource, RootFs};

fn image_with_user(user: Option<&str>) -> Image {
    Image {
        rootfs: RootFs { diff_ids: vec![] },
        config: Some(ImageConfig {
            user: user.map(|u| u.to_string()),
            entrypoint: None,
            cmd: None,
            env: None,
        }),
    }
}

#[test]
fn no_image_config_resolves_to_root() {
    let image = Image { rootfs: RootFs { diff_ids: vec![] }, config: None };
    assert_eq!(resolve_user(&image), (0, 0));
}

#[test]
fn no_declared_user_resolves_to_root() {
    let image = image_with_user(None);
    assert_eq!(resolve_user(&image), (0, 0));
}

#[test]
fn user_without_group_token_resolves_group_to_root() {
    // The asymmetric fallback: even when the user exists and has a
    // non-root primary group, a missing group token means root group.
    let image = image_with_user(Some("alice"));
    let (_uid, gid) = resolve_user(&image);
    assert_eq!(gid, 0);
}

#[test]
fn root_user_with_root_group_resolves_to_root_identity() {
    let image = image_with_user(Some("root:root"));
    let (uid, gid) = resolve_user(&image);
    assert_eq!(uid, 0);
    assert_eq!(gid, 0);
}

#[test]
fn unknown_group_name_falls_back_to_numeric_gid() {
    let image = image_with_user(Some("root:54321"));
    let (_uid, gid) = resolve_user(&image);
    assert_eq!(gid, 54321);
}

#[test]
fn parse_gid_accepts_decimal() {
    assert_eq!(parse_gid("0"), Some(0));
    assert_eq!(parse_gid("123"), Some(123));
    assert_eq!(parse_gid("4294967295"), Some(u32::MAX));
}

#[test]
fn parse_gid_rejects_bad_tokens() {
    assert_eq!(parse_gid(""), None);
    assert_eq!(parse_gid("12a"), None);
    assert_eq!(parse_gid("staff"), None);
    assert_eq!(parse_gid("4294967296"), None);
    assert_eq!(parse_gid("-1"), None);
}

#[test]
fn gid_fallback_chain() {
    assert_eq!(gid_fallback(Some(5), "42"), 5);
    assert_eq!(gid_fallback(None, "42"), 42);
    assert_eq!(gid_fallback(None, "staff"), 0);
}

#[test]
fn mapping_tables_have_exactly_one_entry() {
    let linux = build_linux_from(1000, 50, 1234, 5678);
    assert_eq!(linux.uid_mappings.len(), 1);
    assert_eq!(linux.gid_mappings.len(), 1);
    let u = &linux.uid_mappings[0];
    assert_eq!(u.container_id, 1000);
    assert_eq!(u.host_id, 1234);
    assert_eq!(u.size, 1);
    let g = &linux.gid_mappings[0];
    assert_eq!(g.container_id, 50);
    assert_eq!(g.host_id, 5678);
    assert_eq!(g.size, 1);
    assert_eq!(linux.namespaces.len(), 5);
}

#[test]
fn orchestrator_dispatches_by_variant_and_reuses_resolvers() {
    let mut manager = ImageManager::new();
    let registry = ImageSource::Registry("docker.io/library/alpine".to_string());
    let path = ImageSource::Path("/tmp/image".to_string());
    let build = ImageSource::Build("Dockerfile".to_string());

    let (kind, constructed) = manager.select_resolver(&registry);
    assert_eq!(kind, ResolverKind::Registry);
    assert!(constructed);

    let (kind, constructed) = manager.select_resolver(&registry);
    assert_eq!(kind, ResolverKind::Registry);
    assert!(!constructed);

    let (kind, constructed) = manager.select_resolver(&path);
    assert_eq!(kind, ResolverKind::Path);
    assert!(constructed);

    let (kind, constructed) = manager.select_resolver(&build);
    assert_eq!(kind, ResolverKind::Build);
    assert!(constructed);

    let (kind, constructed) = manager.select_resolver(&registry);
    assert_eq!(kind, ResolverKind::Registry);
    assert!(!constructed);
}

#[test]
fn default_manager_is_cold() {
    let mut manager = ImageManager::default();
    let build = ImageSource::Build("ctx".to_string());
    let (_, constructed) = manager.select_resolver(&build);
    assert!(constructed);
}

#[test]
fn uid_fallback_is_permissive() {
    assert_eq!(uid_fallback(Some(1000)), 1000);
    assert_eq!(uid_fallback(None), 0);
}
