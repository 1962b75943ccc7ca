use mcvm::instruction::InstrKind;
use mcvm::modpack::{
    override_target, should_apply_override, CurseForgeManifest, CurseForgeModLoader,
    CurseForgePackDependencies, CurseForgePackFile,
};
use mcvm::parse_error::FailReason;

#[test]
fn override_targets() {
    assert_eq!(override_target("overrides/config/a.toml"), Some("config/a.toml".to_string()));
    assert_eq!(override_target("overrides/"), Some(String::new()));
    assert_eq!(override_target("modlist.html"), None);
    assert_eq!(override_target("override/x"), None);
}

#[test]
fn user_changes_to_overrides_are_kept() {
    assert!(should_apply_override(false, None, b""));
    assert!(!should_apply_override(true, None, b"mine"));
    assert!(!should_apply_override(true, Some(b"old"), b"mine"));
    assert!(should_apply_override(true, Some(b"same"), b"same"));
}

#[test]
fn manifest_ids() {
    let manifest = CurseForgeManifest {
        name: "Pack".to_string(),
        version: "1.0".to_string(),
        files: vec![
            CurseForgePackFile { project_id: 10, file_id: 100 },
            CurseForgePackFile { project_id: 20, file_id: 200 },
        ],
        minecraft: CurseForgePackDependencies {
            version: "1.20.1".to_string(),
            mod_loaders: vec![CurseForgeModLoader { id: "forge-47".to_string(), primary: true }],
        },
    };
    assert_eq!(manifest.project_ids(), vec![10, 20]);
    assert_eq!(manifest.file_ids(), vec![100, 200]);
}

#[test]
fn instruction_and_failure_names() {
    assert_eq!(InstrKind::Finish().name(), "finish");
    assert_eq!(InstrKind::Fail(None).name(), "fail");
    assert_eq!(FailReason::UnsupportedModloader.message(), "Unsupported modloader");
    assert_eq!(FailReason::Unspecified.message(), "");
}
