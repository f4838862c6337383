use steam_cloud_files::path_resolver::{
    save_rules_to_scan, SaveFileConfig,
    apply_root_override, clean_relative_path, cloud_relative_path, get_root_description,
    get_root_type_name, manifest_game_name, manifest_install_dir, os_name_matches,
    parse_cdp_root_description, pattern_matches, platform_matches_current, resolve_cloud_file_path,
    root_name_to_type, transform_path, CloudPathPlan, PathTransformConfig, RootOverrideConfig,
    RootType,
};

#[test]
fn root_numbers_and_names_read_back() {
    for code in 0u32..=18 {
        let t = RootType::from_u32(code).unwrap();
        assert_eq!(t.to_u32(), code);
        if let Some(back) = RootType::from_name(t.to_name()) {
            assert_eq!(back, t);
        }
    }
    assert_eq!(RootType::from_name(RootType::WinAppDataLocal.to_name()), Some(RootType::WinAppDataLocal));
    assert_eq!(RootType::from_name(RootType::DefaultApi.to_name()), None);
    assert_eq!(RootType::from_u32(19), None);
    assert_eq!(RootType::from_u32(2), Some(RootType::WinMyDocuments));
    assert_eq!(get_root_type_name(7), "MacAppSupport");
}

#[test]
fn root_names_ignore_case() {
    assert_eq!(root_name_to_type("WINAPPDATALOCAL"), Some(RootType::WinAppDataLocal));
    assert_eq!(root_name_to_type("gameinstall"), Some(RootType::GameInstall));
    assert_eq!(root_name_to_type("no such root"), None);
}

#[test]
fn cdp_root_description_splits() {
    assert_eq!(
        parse_cdp_root_description("CDP:https://x/y|saves"),
        (Some("https://x/y"), "saves")
    );
    assert_eq!(parse_cdp_root_description("saves"), (None, "saves"));
    assert!(!get_root_description(2).is_empty());
}

#[test]
fn platform_names_match() {
    assert!(os_name_matches("Windows", "windows"));
    assert!(os_name_matches("MacOS", "macos"));
    assert!(os_name_matches("OSX", "macos"));
    assert!(!os_name_matches("linux", "windows"));
    assert!(platform_matches_current(&[], "linux"));
    assert!(!platform_matches_current(&["all".to_string()], "linux"));
    assert!(platform_matches_current(&["Linux".to_string()], "linux"));
    assert!(!platform_matches_current(&["windows".to_string()], "linux"));
}

#[test]
fn patterns_match_files() {
    assert!(pattern_matches("save1.sav", "*.sav"));
    assert!(!pattern_matches("save1.txt", "*.sav"));
    assert!(pattern_matches("anything", "*"));
    assert!(pattern_matches("exact.dat", "exact.dat"));
}

fn override_to_mac() -> RootOverrideConfig {
    RootOverrideConfig {
        original_root: "WinMyDocuments".to_string(),
        oslist: vec!["macos".to_string()],
        new_root: "MacHome".to_string(),
        add_path: "Library".to_string(),
        path_transforms: Vec::new(),
    }
}

#[test]
fn root_override_applies_on_its_platform_only() {
    let ov = vec![override_to_mac()];
    let (root, add, ts) = apply_root_override("winmydocuments", &ov, "macos").unwrap();
    assert_eq!(root, "MacHome");
    assert_eq!(add, "Library");
    assert!(ts.is_empty());
    assert!(apply_root_override("WinMyDocuments", &ov, "windows").is_none());
}

#[test]
fn cloud_paths_follow_overrides() {
    let ov = vec![override_to_mac()];
    match resolve_cloud_file_path(2, "a.sav", Some(&ov), "macos") {
        CloudPathPlan::Root { root, parts } => {
            assert_eq!(root, RootType::MacHome);
            assert_eq!(parts, vec!["Library".to_string(), "a.sav".to_string()]);
        }
        CloudPathPlan::GameInstall { .. } => panic!("an override root is expected"),
    }
    match resolve_cloud_file_path(1, "b.sav", None, "linux") {
        CloudPathPlan::GameInstall { parts } => assert_eq!(parts, vec!["b.sav".to_string()]),
        CloudPathPlan::Root { .. } => panic!("the install directory is expected"),
    }
}

#[test]
fn path_rewrites_apply_in_order() {
    let ts = vec![
        PathTransformConfig { find: "My Games".to_string(), replace: "Games".to_string() },
        PathTransformConfig { find: "Games/X".to_string(), replace: "Y".to_string() },
    ];
    assert_eq!(transform_path("My Games/X/save", &ts), "Y/save");
}

#[test]
fn relative_paths_are_cleaned() {
    assert_eq!(clean_relative_path("//saves/"), "saves/");
    assert_eq!(clean_relative_path("/\\\\x"), "x");
    assert_eq!(cloud_relative_path("saves", "slot1.sav"), "saves/slot1.sav");
}

#[test]
fn manifests_give_name_and_directory() {
    let text = "\"AppState\"\n{\n\t\"appid\"\t\t\"480\"\n\t\"name\"\t\t\"Spacewar\"\n\t\"installdir\"\t\t\"Spacewar\"\n}\n";
    assert_eq!(manifest_game_name(text), Some("Spacewar".to_string()));
    assert_eq!(manifest_install_dir(text), Some("Spacewar".to_string()));
    assert_eq!(manifest_game_name("nothing"), None);
}

#[test]
fn games_without_rules_scan_their_remote_folder() {
    let r = save_rules_to_scan(Vec::new());
    assert_eq!(r.len(), 1);
    assert_eq!(r[0].root, "0");
    assert_eq!(r[0].root_type, Some(RootType::DefaultApi));
    assert_eq!(r[0].pattern, "*");
    assert!(r[0].recursive && r[0].path.is_empty() && r[0].platforms.is_empty());
    let own = vec![SaveFileConfig {
        root: "WinMyDocuments".to_string(),
        root_type: Some(RootType::WinMyDocuments),
        path: "Game".to_string(),
        pattern: "*.sav".to_string(),
        platforms: Vec::new(),
        recursive: false,
    }];
    let kept = save_rules_to_scan(own);
    assert_eq!(kept.len(), 1);
    assert_eq!(kept[0].pattern, "*.sav");
}

#[test]
fn root_names_read_back_in_any_case() {
    let unread = [
        RootType::DefaultApi,
        RootType::SteamUserBaseStorage,
        RootType::WinProgramData,
        RootType::MacCaches,
        RootType::AndroidSteamPackageRoot,
    ];
    for code in 0u32..=18 {
        let t = RootType::from_u32(code).unwrap();
        let name = t.to_name();
        let upper = name.to_uppercase();
        let lower = name.to_lowercase();
        if !unread.contains(&t) {
            assert_eq!(RootType::from_name(name), Some(t));
            assert_eq!(RootType::from_name(&upper), Some(t));
            assert_eq!(RootType::from_name(&lower), Some(t));
        }
        if t != RootType::DefaultApi {
            assert_eq!(root_name_to_type(name), Some(t));
            assert_eq!(root_name_to_type(&upper), Some(t));
        }
        assert_eq!(root_name_to_type(&code.to_string()), Some(t));
    }
    assert_eq!(root_name_to_type("19"), None);
    assert_eq!(root_name_to_type("Default(API)"), None);
    assert_eq!(RootType::from_name("Default(API)"), None);
    assert_eq!(root_name_to_type("App Install Directory"), Some(RootType::GameInstall));
}
