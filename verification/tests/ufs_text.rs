use steam_cloud_files::config::{PathTransform, RootOverrideEntry, SaveFileEntry};
use steam_cloud_files::ufs_text::{entries_to_ufs_text, parse_ufs_text, parse_ufs_text_checked};

#[test]
fn roundtrip_basic() {
    let savefiles = vec![SaveFileEntry {
        root: "MacAppSupport".to_string(),
        path: "GameSaves".to_string(),
        pattern: "*.sav".to_string(),
        platforms: vec!["all".to_string()],
        recursive: true,
    }];
    let overrides = vec![RootOverrideEntry {
        original_root: "WinAppDataLocal".to_string(),
        os: "macos".to_string(),
        new_root: "MacAppSupport".to_string(),
        add_path: "saves".to_string(),
        path_transforms: Vec::new(),
    }];

    let text = entries_to_ufs_text(&savefiles, &overrides);
    let (parsed_sf, parsed_ro) = parse_ufs_text(&text);

    assert_eq!(parsed_sf.len(), 1);
    assert_eq!(parsed_sf[0].root, "MacAppSupport");
    assert_eq!(parsed_sf[0].path, "GameSaves");
    assert_eq!(parsed_sf[0].pattern, "*.sav");
    assert!(parsed_sf[0].recursive);

    assert_eq!(parsed_ro.len(), 1);
    assert_eq!(parsed_ro[0].original_root, "WinAppDataLocal");
    assert_eq!(parsed_ro[0].os, "macos");
    assert_eq!(parsed_ro[0].new_root, "MacAppSupport");
    assert_eq!(parsed_ro[0].add_path, "saves");
}

#[test]
fn roundtrip_with_pathtransforms() {
    let overrides = vec![RootOverrideEntry {
        original_root: "WinMyDocuments".to_string(),
        os: "macos".to_string(),
        new_root: "MacHome".to_string(),
        add_path: String::new(),
        path_transforms: vec![PathTransform {
            find: "My Games/TestGame".to_string(),
            replace: "Library/TestGame".to_string(),
        }],
    }];

    let text = entries_to_ufs_text(&[], &overrides);
    let (_, parsed_ro) = parse_ufs_text(&text);

    assert_eq!(parsed_ro.len(), 1);
    assert_eq!(parsed_ro[0].path_transforms.len(), 1);
    assert_eq!(parsed_ro[0].path_transforms[0].find, "My Games/TestGame");
    assert_eq!(parsed_ro[0].path_transforms[0].replace, "Library/TestGame");
}

#[test]
fn roundtrip_keeps_platforms_and_flags() {
    let savefiles = vec![
        SaveFileEntry {
            root: "WinAppDataRoaming".to_string(),
            path: "Studio/Game".to_string(),
            pattern: "*".to_string(),
            platforms: vec!["windows".to_string(), "linux".to_string()],
            recursive: false,
        },
        SaveFileEntry {
            root: "gameinstall".to_string(),
            path: "save".to_string(),
            pattern: "slot?.dat".to_string(),
            platforms: vec!["all".to_string()],
            recursive: true,
        },
    ];
    let text = entries_to_ufs_text(&savefiles, &[]);
    let (parsed, overrides) = parse_ufs_text(&text);
    assert!(overrides.is_empty());
    assert_eq!(parsed, savefiles);
}

#[test]
fn parse_rejects_nothing_on_empty_text() {
    let (sf, ro) = parse_ufs_text("");
    assert!(sf.is_empty());
    assert!(ro.is_empty());
    assert!(parse_ufs_text_checked("").is_some());
}
