use mcvm::instance::{server_jar_needs_update, server_jar_path};
use mcvm::config::Configuration;
use mcvm::java::{adoptium_archive_name, offline_java_path};
use mcvm::assets::{asset_download, asset_needs_download, get_virtual_dir_path};
use mcvm::persistent::{JavaRecordChange, PersistentData, PersistentDataJavaInstallation};
use mcvm::repo::get_index_url;
use mcvm::select::Selected;
use mcvm::storage::{get_generic_addon_path, get_sha256_addon_path};
use mcvm::update::{MessageLevel, PrintOptions, UpdateManager, UpdateMethodResult};

#[test]
fn index_url_trims_one_slash() {
    assert_eq!(get_index_url("https://example.com"), "https://example.com/api/mcvm/index.json");
    assert_eq!(get_index_url("https://example.com/"), "https://example.com/api/mcvm/index.json");
    assert_eq!(get_index_url(""), "/api/mcvm/index.json");
}

#[test]
fn storage_paths() {
    assert_eq!(get_sha256_addon_path("/addons", "abc"), "/addons/sha256/abc");
    assert_eq!(get_generic_addon_path("/addons", "mod", None), "/addons/generic/mod/mod/any");
    assert_eq!(
        get_generic_addon_path("/addons/", "mod", Some("1.2".to_string())),
        "/addons/generic/mod/mod/1.2"
    );
}

#[test]
fn asset_paths_and_decisions() {
    assert_eq!(get_virtual_dir_path("/assets"), "/assets/virtual/legacy");
    let d = asset_download("icon".to_string(), "abcdef", "/assets/objects", Some("/v"));
    assert_eq!(d.url, "https://resources.download.minecraft.net/ab/abcdef");
    assert_eq!(d.path, "/assets/objects/ab/abcdef");
    assert_eq!(d.virtual_path, Some("/v/ab/abcdef".to_string()));
    let print = PrintOptions { verbose: false, level: MessageLevel::Important };
    let mut manager = UpdateManager::new(print, false, false);
    assert!(!asset_needs_download(&manager, &d, true, true));
    assert!(asset_needs_download(&manager, &d, true, false));
    manager = UpdateManager::new(print, true, false);
    assert!(asset_needs_download(&manager, &d, true, true));
    manager.add_file(d.path.clone());
    manager.add_file("/v/ab/abcdef".to_string());
    assert!(!asset_needs_download(&manager, &d, true, true));
}

#[test]
fn update_results_merge() {
    let mut a = UpdateMethodResult::new();
    a.add_file("x".to_string());
    let mut b = UpdateMethodResult::new();
    b.add_file("y".to_string());
    a.merge(b);
    assert!(a.files_updated.contains(&"x".to_string()));
    assert!(a.files_updated.contains(&"y".to_string()));
}

#[test]
fn persistent_java_records() {
    let mut data = PersistentData::new();
    let a = PersistentDataJavaInstallation::Adoptium;
    assert_eq!(data.check_java_installation(a, "17", "r1"), JavaRecordChange::New);
    assert!(data.update_java_installation(a, "17", "r1", "/java/r1"));
    assert_eq!(data.get_java_path(a, "17"), Some("/java/r1".to_string()));
    assert_eq!(data.get_java_path(PersistentDataJavaInstallation::Zulu, "17"), None);
    assert_eq!(data.check_java_installation(a, "17", "r1"), JavaRecordChange::Unchanged);
    assert!(!data.update_java_installation(a, "17", "r1", "/elsewhere"));
    assert_eq!(data.get_java_path(a, "17"), Some("/java/r1".to_string()));
    assert_eq!(
        data.check_java_installation(a, "17", "r2"),
        JavaRecordChange::Replaced("/java/r1".to_string())
    );
    assert!(data.update_java_installation(a, "17", "r2", "/java/r2"));
    assert_eq!(data.get_java_path(a, "17"), Some("/java/r2".to_string()));
    assert_eq!(PersistentData::get_path("/internal"), "/internal/persistent.json");
}

#[test]
fn selection_operations() {
    let s = Selected::Multi(vec![1u32, 2, 3]);
    assert!(s.is_selected(&2));
    assert!(!s.is_selected(&4));
    let s = s.select(&4);
    assert!(s.is_selected(&4));
    let s = s.deselect(&2);
    assert!(!s.is_selected(&2));
    assert_eq!(s.clone().multi(), vec![1, 3, 4]);
    assert_eq!(s.single_optional(), Some(1));
    let single = Selected::Single(5u32);
    assert!(single.is_selected(&5));
    let single = single.select(&6);
    assert_eq!(single.clone().single(), 6);
    assert_eq!(single.clone().deselect(&6).single(), 6);
    assert_eq!(single.multi(), vec![6]);
    assert_eq!(Selected::<u32>::Multi(vec![]).single_optional(), None);
}

#[test]
fn offline_java_uses_recorded_path() {
    let print = PrintOptions { verbose: false, level: MessageLevel::Important };
    let mut data = PersistentData::new();
    data.update_java_installation(PersistentDataJavaInstallation::Zulu, "17", "zulu17.1", "/java/zulu/17");
    let offline = UpdateManager::new(print, false, true);
    let online = UpdateManager::new(print, false, false);
    assert!(offline.allows_offline());
    assert_eq!(
        offline_java_path(&offline, &data, PersistentDataJavaInstallation::Zulu, "17"),
        Some("/java/zulu/17".to_string())
    );
    assert_eq!(offline_java_path(&offline, &data, PersistentDataJavaInstallation::Adoptium, "17"), None);
    assert_eq!(offline_java_path(&online, &data, PersistentDataJavaInstallation::Zulu, "17"), None);
    assert_eq!(adoptium_archive_name("21", ".tar.gz"), "adoptium21.tar.gz");
}

#[test]
fn configuration_builder() {
    let config = Configuration::builder("client".to_string())
        .allow_offline(true)
        .censor_secrets(false)
        .force_reinstall(true)
        .ms_client_id("other".to_string())
        .build();
    assert_eq!(config.ms_client_id, "other");
    assert!(config.allow_offline && config.force_reinstall && !config.censor_secrets);
    let default = Configuration::new("id".to_string());
    assert!(!default.allow_offline && !default.force_reinstall && default.censor_secrets);
}

#[test]
fn server_jar_placement() {
    let print = PrintOptions { verbose: false, level: MessageLevel::Important };
    let jar = server_jar_path("/inst/s");
    assert_eq!(jar, "/inst/s/server.jar");
    let mut manager = UpdateManager::new(print, false, false);
    assert!(!server_jar_needs_update(&jar, &jar, &manager, false));
    assert!(server_jar_needs_update(&jar, "/versions/1.20/server.jar", &manager, false));
    assert!(!server_jar_needs_update(&jar, "/versions/1.20/server.jar", &manager, true));
    manager = UpdateManager::new(print, true, false);
    assert!(server_jar_needs_update(&jar, "/versions/1.20/server.jar", &manager, true));
    manager.add_file(jar.clone());
    assert!(!server_jar_needs_update(&jar, "/versions/1.20/server.jar", &manager, true));
}

#[test]
fn select_new_then_deselect_gives_list_back() {
    let list = Selected::Multi(vec![1u32, 2, 3]);
    let back = list.clone().select(&7).deselect(&7);
    assert_eq!(back, list);
    let single = Selected::Single(4u32);
    assert_eq!(single.clone().deselect(&4), single);
    assert_eq!(single.clone().deselect(&9), single);
}

#[test]
fn select_new_integer_then_deselect() {
    let list = Selected::Multi(vec![5u64, 9]);
    assert_eq!(list.clone().select(&1).deselect(&1), list);
}
