use std::path::PathBuf;

use mcvm::lock::{AddonOptionalHashes, InstanceLockfile, Loader, LockfileAddon, LockfileModpack};
use mcvm::shared::AddonKind;

fn create_test_lockfile() -> InstanceLockfile {
    InstanceLockfile::from_parts(
        Some("1.20.1".to_string()),
        Loader::Fabric,
        Some("0.14.0".to_string()),
        Vec::new(),
        Vec::new(),
        Vec::new(),
        None,
        "/tmp/test_lock.json".to_string(),
    )
}

fn package_addon(id: &str, package: &str, file_name: &str, files: &[&str]) -> LockfileAddon {
    LockfileAddon {
        id: Some(id.to_string()),
        package: Some(package.to_string()),
        from_modpack: false,
        file_name: file_name.to_string(),
        files: files.iter().map(|x| x.to_string()).collect(),
        kind: AddonKind::Mod,
        hashes: AddonOptionalHashes::default(),
    }
}

fn modpack_addon(file_name: &str, files: &[&str]) -> LockfileAddon {
    LockfileAddon {
        id: None,
        package: None,
        from_modpack: true,
        file_name: file_name.to_string(),
        files: files.iter().map(|x| x.to_string()).collect(),
        kind: AddonKind::Mod,
        hashes: AddonOptionalHashes::default(),
    }
}

#[test]
fn test_update_package_new_package() {
    let mut lockfile = create_test_lockfile();
    let req = "test-pkg";

    let addon = package_addon("addon1", "test-pkg", "addon1.jar", &["mods/addon1.jar"]);

    let files_to_remove =
        lockfile.update_package(req, &[addon.clone()], Some("1.0.0".to_string()));

    assert_eq!(files_to_remove.len(), 0);
    assert_eq!(lockfile.get_packages().len(), 1);
    assert_eq!(lockfile.get_addons().len(), 1);
    assert_eq!(
        lockfile.get_package("test-pkg").unwrap().content_version,
        Some("1.0.0".to_string())
    );
}

#[test]
fn test_update_package_version_change() {
    let mut lockfile = create_test_lockfile();
    let req = "test-pkg";

    lockfile.update_package(req, &[], Some("1.0.0".to_string()));

    let addon = package_addon("addon1", "test-pkg", "addon1.jar", &["mods/addon1.jar"]);

    lockfile.update_package(req, &[addon], Some("2.0.0".to_string()));

    assert_eq!(
        lockfile.get_package("test-pkg").unwrap().content_version,
        Some("2.0.0".to_string())
    );
}

#[test]
fn test_update_package_addon_file_changed() {
    let mut lockfile = create_test_lockfile();
    let req = "test-pkg";

    let old_addon = package_addon("addon1", "test-pkg", "addon1_old.jar", &["mods/addon1_old.jar"]);
    lockfile.update_package(req, &[old_addon], None);

    let new_addon = package_addon("addon1", "test-pkg", "addon1_new.jar", &["mods/addon1_new.jar"]);
    let files_to_remove = lockfile.update_package(req, &[new_addon], None);

    assert_eq!(files_to_remove.len(), 1);
    assert_eq!(PathBuf::from(&files_to_remove[0]), PathBuf::from("mods/addon1_old.jar"));
    assert_eq!(lockfile.get_addons().len(), 1);
    assert_eq!(lockfile.get_addons()[0].file_name, "addon1_new.jar");
}

#[test]
fn test_update_package_addon_removed() {
    let mut lockfile = create_test_lockfile();
    let req = "test-pkg";

    let addon1 = package_addon("addon1", "test-pkg", "addon1.jar", &["mods/addon1.jar"]);
    let addon2 = package_addon("addon2", "test-pkg", "addon2.jar", &["mods/addon2.jar"]);

    lockfile.update_package(req, &[addon1.clone(), addon2], None);

    let files_to_remove = lockfile.update_package(req, &[addon1], None);

    assert_eq!(files_to_remove.len(), 1);
    assert_eq!(PathBuf::from(&files_to_remove[0]), PathBuf::from("mods/addon2.jar"));
    assert_eq!(lockfile.get_addons().len(), 1);
}

#[test]
fn test_update_package_multiple_files_per_addon() {
    let mut lockfile = create_test_lockfile();
    let req = "test-pkg";

    let addon_old = package_addon(
        "addon1",
        "test-pkg",
        "addon1.jar",
        &["mods/addon1.jar", "config/addon1.toml"],
    );
    lockfile.update_package(req, &[addon_old], None);

    let addon_new = package_addon("addon1", "test-pkg", "addon1.jar", &["mods/addon1.jar"]);
    let files_to_remove = lockfile.update_package(req, &[addon_new], None);

    assert_eq!(files_to_remove.len(), 1);
    assert!(files_to_remove
        .iter()
        .any(|x| PathBuf::from(x) == PathBuf::from("config/addon1.toml")));
}

#[test]
fn test_remove_unused_packages() {
    let mut lockfile = create_test_lockfile();

    let addon1 = package_addon("addon1", "pkg1", "addon1.jar", &["mods/addon1.jar"]);
    let addon2 = package_addon("addon2", "pkg2", "addon2.jar", &["mods/addon2.jar"]);

    lockfile.update_package("pkg1", &[addon1], None);
    lockfile.update_package("pkg2", &[addon2], None);

    let used = vec!["pkg1".to_string()];
    let removed_addons = lockfile.remove_unused_packages(&used);

    assert_eq!(lockfile.get_packages().len(), 1);
    assert!(lockfile.get_package("pkg1").is_some());
    assert_eq!(removed_addons.len(), 1);
    assert_eq!(removed_addons[0].file_name, "addon2.jar");
}

#[test]
fn test_update_modpack_new() {
    let mut lockfile = create_test_lockfile();

    let modpack = LockfileModpack {
        name: "Test Modpack".to_string(),
        path: "/path/to/modpack".to_string(),
        packages: vec!["pkg1".to_string()],
    };

    let addon = modpack_addon("mod1.jar", &["mods/mod1.jar"]);

    let files_to_remove = lockfile.update_modpack(modpack.clone(), &[addon.clone()]);

    assert_eq!(files_to_remove.len(), 0);
    assert_eq!(lockfile.get_modpack().unwrap().name, "Test Modpack");
    assert_eq!(lockfile.get_addons().len(), 1);
    assert!(lockfile.get_addons()[0].from_modpack);
}

#[test]
fn test_update_modpack_addon_removed() {
    let mut lockfile = create_test_lockfile();

    let modpack1 = LockfileModpack {
        name: "Modpack v1".to_string(),
        path: "/path/to/modpack".to_string(),
        packages: vec![],
    };

    let addon1 = modpack_addon("mod1.jar", &["mods/mod1.jar"]);
    let addon2 = modpack_addon("mod2.jar", &["mods/mod2.jar"]);

    lockfile.update_modpack(modpack1, &[addon1.clone(), addon2]);

    let modpack2 = LockfileModpack {
        name: "Modpack v2".to_string(),
        path: "/path/to/modpack".to_string(),
        packages: vec![],
    };

    let files_to_remove = lockfile.update_modpack(modpack2, &[addon1]);

    assert_eq!(files_to_remove.len(), 1);
    assert_eq!(files_to_remove[0], "mods/mod2.jar");
    assert_eq!(lockfile.get_addons().len(), 1);
}

#[test]
fn test_minecraft_version_updates() {
    let mut lockfile = create_test_lockfile();

    assert_eq!(lockfile.get_minecraft_version(), Some(&"1.20.1".to_string()));

    lockfile.update_minecraft_version("1.21");
    assert_eq!(lockfile.get_minecraft_version(), Some(&"1.21".to_string()));
}

#[test]
fn test_loader_updates() {
    let mut lockfile = create_test_lockfile();

    assert_eq!(lockfile.get_loader(), &Loader::Fabric);

    lockfile.update_loader(Loader::Forge);
    assert_eq!(lockfile.get_loader(), &Loader::Forge);
}

#[test]
fn test_loader_version_updates() {
    let mut lockfile = create_test_lockfile();

    assert_eq!(lockfile.get_loader_version(), Some(&"0.14.0".to_string()));

    lockfile.update_loader_version(Some("0.15.0".to_string()));
    assert_eq!(lockfile.get_loader_version(), Some(&"0.15.0".to_string()));

    lockfile.update_loader_version(None);
    assert_eq!(lockfile.get_loader_version(), None);
}

#[test]
fn test_mixed_addons_from_packages_and_modpack() {
    let mut lockfile = create_test_lockfile();

    let pkg_addon = package_addon("addon1", "test-pkg", "addon1.jar", &["mods/addon1.jar"]);
    lockfile.update_package("test-pkg", &[pkg_addon], None);

    let modpack = LockfileModpack {
        name: "Test".to_string(),
        path: "/test".to_string(),
        packages: vec![],
    };
    let addon = modpack_addon("modpack_addon.jar", &["mods/modpack_addon.jar"]);
    lockfile.update_modpack(modpack, &[addon]);

    assert_eq!(lockfile.get_addons().len(), 2);
    assert_eq!(lockfile.get_addons().iter().filter(|a| a.from_modpack).count(), 1);
    assert_eq!(lockfile.get_addons().iter().filter(|a| !a.from_modpack).count(), 1);
}

#[test]
fn test_update_package_preserves_non_package_addons() {
    let standalone_addon = LockfileAddon {
        id: Some("standalone".to_string()),
        package: None,
        from_modpack: false,
        file_name: "standalone.jar".to_string(),
        files: vec!["mods/standalone.jar".to_string()],
        kind: AddonKind::Mod,
        hashes: AddonOptionalHashes::default(),
    };
    let mut lockfile = InstanceLockfile::from_parts(
        Some("1.20.1".to_string()),
        Loader::Fabric,
        Some("0.14.0".to_string()),
        Vec::new(),
        Vec::new(),
        vec![standalone_addon],
        None,
        "/tmp/test_lock.json".to_string(),
    );

    let pkg_addon = package_addon("addon1", "test-pkg", "addon1.jar", &["mods/addon1.jar"]);
    lockfile.update_package("test-pkg", &[pkg_addon], None);

    let updated_addon =
        package_addon("addon1", "test-pkg", "addon1_v2.jar", &["mods/addon1_v2.jar"]);
    lockfile.update_package("test-pkg", &[updated_addon], None);

    assert_eq!(lockfile.get_addons().len(), 2);
    assert!(lockfile
        .get_addons()
        .iter()
        .any(|a| a.id == Some("standalone".to_string())));
}

#[test]
fn test_addon_without_id() {
    let mut lockfile = create_test_lockfile();

    let addon_no_id = LockfileAddon {
        id: None,
        package: Some("test-pkg".to_string()),
        from_modpack: false,
        file_name: "addon_no_id.jar".to_string(),
        files: vec!["mods/addon_no_id.jar".to_string()],
        kind: AddonKind::Mod,
        hashes: AddonOptionalHashes::default(),
    };

    lockfile.update_package("test-pkg", &[addon_no_id], None);

    assert_eq!(lockfile.get_addons().len(), 1);
}

#[test]
fn later_duplicate_package_entry_counts() {
    let lockfile = InstanceLockfile::from_parts(
        None,
        Loader::Vanilla,
        None,
        vec![
            ("a".to_string(), mcvm::lock::LockfilePackage { content_version: Some("1".to_string()) }),
            ("b".to_string(), mcvm::lock::LockfilePackage { content_version: None }),
            ("a".to_string(), mcvm::lock::LockfilePackage { content_version: Some("2".to_string()) }),
        ],
        Vec::new(),
        Vec::new(),
        None,
        "lock.json".to_string(),
    );
    assert_eq!(lockfile.get_packages().len(), 2);
    assert_eq!(lockfile.get_package("a").unwrap().content_version, Some("2".to_string()));
    assert_eq!(lockfile.get_packages()[0].0, "a");
}

#[test]
fn update_package_leaves_other_packages() {
    let mut lockfile = create_test_lockfile();
    lockfile.update_package("a", &[], Some("1".to_string()));
    lockfile.update_package("b", &[], Some("2".to_string()));
    lockfile.update_package("a", &[], Some("3".to_string()));
    assert_eq!(lockfile.get_package("b").unwrap().content_version, Some("2".to_string()));
    assert_eq!(lockfile.get_package("a").unwrap().content_version, Some("3".to_string()));
    assert!(lockfile.get_package("c").is_none());
}

#[test]
fn removed_package_addons_are_converted_in_order() {
    let mut lockfile = create_test_lockfile();
    let a1 = package_addon("x", "old", "x.jar", &["mods/x.jar", "config/x.toml"]);
    let a2 = package_addon("y", "old", "y.jar", &["mods/y.jar"]);
    lockfile.update_package("old", &[a1, a2], None);
    let removed = lockfile.remove_unused_packages(&[]);
    assert_eq!(removed.len(), 2);
    assert_eq!(removed[0].file_name, "x.jar");
    assert_eq!(removed[0].target_paths, vec!["mods/x.jar".to_string(), "config/x.toml".to_string()]);
    assert_eq!(removed[0].original_path, None);
    assert_eq!(removed[1].file_name, "y.jar");
    assert_eq!(lockfile.get_packages().len(), 0);
    // The addons themselves stay recorded
    assert_eq!(lockfile.get_addons().len(), 2);
}

#[test]
fn lockfile_path_choice() {
    assert_eq!(
        InstanceLockfile::get_path(Some("/inst"), "foo", "/data"),
        "/inst/nitro_lock.json"
    );
    assert_eq!(
        InstanceLockfile::get_path(None, "foo", "/data"),
        "/data/lock/instances/foo.json"
    );
}
