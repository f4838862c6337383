use steam_cloud_files::path_resolver::{
    cloud_file_full_path, collect_local_save_paths_from_ufs, LocalContext, RootOverrideConfig,
    RootType, SaveFileConfig,
};
use steam_cloud_files::root_paths::{
    game_install_dir, mac_game_support_folder, env_lookup, resolve_root_base_path, root_base_plan, steam_cloud_docs_dir, target_os_from_name,
    BaseDirPlan, RootPathError, TargetOs,
};

fn s(x: &str) -> String {
    x.to_string()
}

fn parts(xs: &[&str]) -> Vec<String> {
    xs.iter().map(|x| x.to_string()).collect()
}

fn env(pairs: &[(&str, &str)]) -> Vec<(String, String)> {
    pairs.iter().map(|(k, v)| (k.to_string(), v.to_string())).collect()
}

#[test]
fn default_root_lives_below_the_steam_folder() {
    let r = resolve_root_base_path(RootType::DefaultApi, TargetOs::Linux, "/steam", "123", 480, &[]);
    assert_eq!(r, Ok(parts(&["/steam", "userdata", "123", "480", "remote"])));
}

#[test]
fn base_folders_follow_the_environment() {
    let home = env(&[("HOME", "/home/u")]);
    assert_eq!(
        resolve_root_base_path(RootType::WinAppDataRoaming, TargetOs::Linux, "/s", "1", 1, &home),
        Ok(parts(&["/home/u", ".config"]))
    );
    assert_eq!(
        resolve_root_base_path(RootType::WinAppDataRoaming, TargetOs::MacOs, "/s", "1", 1, &home),
        Ok(parts(&["/home/u", "Library", "Application Support"]))
    );
    assert_eq!(
        resolve_root_base_path(RootType::WinSavedGames, TargetOs::Linux, "/s", "1", 1, &home),
        Ok(parts(&["/home/u", "Documents", "Saved Games"]))
    );
    let win = env(&[("USERPROFILE", "C:\\Users\\u"), ("APPDATA", "C:\\Users\\u\\AppData\\Roaming")]);
    assert_eq!(
        resolve_root_base_path(RootType::WinSavedGames, TargetOs::Windows, "/s", "1", 1, &win),
        Ok(parts(&["C:\\Users\\u", "Saved Games"]))
    );
    assert_eq!(
        resolve_root_base_path(RootType::MacHome, TargetOs::Windows, "/s", "1", 1, &win),
        Ok(parts(&["C:\\Users\\u"]))
    );
    assert_eq!(
        resolve_root_base_path(RootType::LinuxXdgConfigHome, TargetOs::Windows, "/s", "1", 1, &win),
        Ok(parts(&["C:\\Users\\u\\AppData\\Roaming"]))
    );
}

#[test]
fn xdg_folders_fall_back_to_home() {
    let with_xdg = env(&[("HOME", "/h"), ("XDG_DATA_HOME", "/x")]);
    assert_eq!(
        resolve_root_base_path(RootType::LinuxXdgDataHome, TargetOs::Linux, "/s", "1", 1, &with_xdg),
        Ok(parts(&["/x"]))
    );
    let home = env(&[("HOME", "/h")]);
    assert_eq!(
        resolve_root_base_path(RootType::LinuxXdgDataHome, TargetOs::Linux, "/s", "1", 1, &home),
        Ok(parts(&["/h", ".local", "share"]))
    );
}

#[test]
fn program_data_has_a_fixed_fallback_on_windows() {
    assert_eq!(
        resolve_root_base_path(RootType::WinProgramData, TargetOs::Windows, "/s", "1", 1, &[]),
        Ok(parts(&["C:\\ProgramData"]))
    );
    assert_eq!(
        resolve_root_base_path(RootType::WinProgramData, TargetOs::Linux, "/s", "1", 1, &[]),
        Err(RootPathError::MissingEnv)
    );
}

#[test]
fn some_roots_have_no_base_folder() {
    let home = env(&[("HOME", "/h")]);
    assert_eq!(
        resolve_root_base_path(RootType::GameInstall, TargetOs::Linux, "/s", "1", 1, &home),
        Err(RootPathError::GameInstall)
    );
    assert_eq!(
        resolve_root_base_path(RootType::SteamUserBaseStorage, TargetOs::Linux, "/s", "1", 1, &home),
        Err(RootPathError::SteamUserBaseStorage)
    );
    assert_eq!(
        resolve_root_base_path(RootType::AndroidSteamPackageRoot, TargetOs::MacOs, "/s", "1", 1, &home),
        Err(RootPathError::AndroidSteamPackageRoot)
    );
    assert_eq!(
        resolve_root_base_path(RootType::WinMyDocuments, TargetOs::MacOs, "/s", "1", 1, &[]),
        Err(RootPathError::MissingEnv)
    );
}

#[test]
fn plans_name_the_variables() {
    match root_base_plan(RootType::MacCaches, TargetOs::Linux) {
        BaseDirPlan::FromEnv { choices, fallback } => {
            assert_eq!(choices.len(), 1);
            assert_eq!(choices[0].var, "HOME");
            assert_eq!(choices[0].parts, parts(&[".cache"]));
            assert!(fallback.is_none());
        }
        other => panic!("unexpected plan {:?}", other),
    }
    assert!(matches!(root_base_plan(RootType::DefaultApi, TargetOs::Windows), BaseDirPlan::UserRemote));
    assert!(matches!(
        root_base_plan(RootType::SteamCloudDocuments, TargetOs::Linux),
        BaseDirPlan::CloudDocuments { .. }
    ));
}

#[test]
fn environment_lookup_takes_the_first_entry() {
    let e = env(&[("A", "1"), ("B", "2"), ("A", "3")]);
    assert_eq!(env_lookup(&e, "A"), Some(s("1")));
    assert_eq!(env_lookup(&e, "B"), Some(s("2")));
    assert_eq!(env_lookup(&e, "C"), None);
}

#[test]
fn operating_systems_read_back() {
    assert_eq!(target_os_from_name("windows"), Some(TargetOs::Windows));
    assert_eq!(target_os_from_name("macos"), Some(TargetOs::MacOs));
    assert_eq!(target_os_from_name("linux"), Some(TargetOs::Linux));
    assert_eq!(target_os_from_name("unknown"), None);
}

#[test]
fn cloud_documents_folder_is_picked_from_disk_facts() {
    let base = parts(&["/h", ".SteamCloud"]);
    assert_eq!(steam_cloud_docs_dir(base.clone(), false, None, None, false, None, 7), Ok(base.clone()));
    assert_eq!(
        steam_cloud_docs_dir(base.clone(), true, Some(s("me")), Some(s("Game")), true, Some(s("other")), 7),
        Ok(parts(&["/h", ".SteamCloud", "me", "Game"]))
    );
    assert_eq!(
        steam_cloud_docs_dir(base.clone(), true, Some(s("me")), Some(s("Game")), false, Some(s("other")), 7),
        Ok(parts(&["/h", ".SteamCloud", "other", "Game"]))
    );
    assert_eq!(
        steam_cloud_docs_dir(base, true, Some(s("me")), None, true, None, 7),
        Err(RootPathError::CloudDocumentsNotFound(7))
    );
}

fn context(os: TargetOs, home: &str, install: Option<Vec<String>>) -> LocalContext {
    LocalContext {
        os,
        steam_path: s("/steam"),
        user_id: s("42"),
        app_id: 480,
        env: env(&[("HOME", home)]),
        game_install_dir: install,
    }
}

fn rule(root: RootType, name: &str, platforms: &[&str]) -> SaveFileConfig {
    SaveFileConfig {
        root: s(name),
        root_type: Some(root),
        path: s("Game"),
        pattern: s("*"),
        platforms: parts(platforms),
        recursive: false,
    }
}

#[test]
fn save_roots_carry_descriptions_and_folders() {
    let cx = context(TargetOs::Linux, "/home/u", Some(parts(&["/games", "Game"])));
    let rules = vec![
        rule(RootType::WinAppDataRoaming, "WinAppDataRoaming", &[]),
        rule(RootType::GameInstall, "GameInstall", &[]),
        rule(RootType::MacHome, "MacHome", &["macos"]),
        rule(RootType::WinAppDataRoaming, "WinAppDataRoaming", &[]),
    ];
    let found = collect_local_save_paths_from_ufs(&rules, None, "linux", &cx);
    assert_eq!(found.len(), 3);
    assert_eq!(found[0].root, RootType::DefaultApi);
    assert_eq!(found[0].description, "Default(API) (0)");
    assert_eq!(found[0].path, Some(parts(&["/steam", "userdata", "42", "480", "remote"])));
    assert_eq!(found[1].root, RootType::GameInstall);
    assert_eq!(found[1].description, "GameInstall (1)");
    assert_eq!(found[1].path, Some(parts(&["/games", "Game"])));
    assert_eq!(found[2].root, RootType::WinAppDataRoaming);
    assert_eq!(found[2].description, "WinAppDataRoaming (4)");
    assert_eq!(found[2].path, Some(parts(&["/home/u", ".config"])));
}

#[test]
fn save_roots_follow_overrides_that_resolve() {
    let cx = context(TargetOs::MacOs, "/Users/u", None);
    let ov = vec![RootOverrideConfig {
        original_root: s("WinMyDocuments"),
        oslist: parts(&["macos"]),
        new_root: s("MacHome"),
        add_path: s("Library"),
        path_transforms: Vec::new(),
    }];
    let rules = vec![rule(RootType::WinMyDocuments, "WinMyDocuments", &[])];
    let found = collect_local_save_paths_from_ufs(&rules, Some(&ov), "macos", &cx);
    assert_eq!(found.len(), 2);
    assert_eq!(found[1].description, "MacHome (2)");
    assert_eq!(found[1].path, Some(parts(&["/Users/u"])));
    assert_eq!(found[1].override_root, Some((RootType::MacHome, s("MacHome"))));
}

#[test]
fn cloud_files_resolve_to_full_paths() {
    let cx = context(TargetOs::Linux, "/home/u", None);
    assert_eq!(
        cloud_file_full_path(0, "a.sav", None, "linux", &cx),
        Ok(parts(&["/steam", "userdata", "42", "480", "remote", "a.sav"]))
    );
    assert_eq!(
        cloud_file_full_path(99, "a.sav", None, "linux", &cx),
        Ok(parts(&["/steam", "userdata", "42", "480", "remote", "a.sav"]))
    );
    assert_eq!(
        cloud_file_full_path(3, "b.sav", None, "linux", &cx),
        Ok(parts(&["/home/u", ".local", "share", "b.sav"]))
    );
    assert_eq!(
        cloud_file_full_path(1, "c.sav", None, "linux", &cx),
        Err(RootPathError::GameInstallNotFound(480))
    );
    let with_install = context(TargetOs::Linux, "/home/u", Some(parts(&["/games", "G"])));
    assert_eq!(
        cloud_file_full_path(1, "c.sav", None, "linux", &with_install),
        Ok(parts(&["/games", "G", "c.sav"]))
    );
}

#[test]
fn link_folders_are_the_default_root_base() {
    let m = steam_cloud_files::symlink_manager::SymlinkManager::new(s("/steam"), s("42"));
    let base = resolve_root_base_path(RootType::DefaultApi, TargetOs::Windows, "/steam", "42", 480, &[]);
    assert_eq!(Ok(m.get_remote_dir(480)), base);
}

#[test]
fn install_folders_prefer_the_mac_support_folder() {
    let home = env(&[("HOME", "/Users/u")]);
    assert_eq!(
        mac_game_support_folder(&home, "Game"),
        Some(parts(&["/Users/u", "Library", "Application Support", "Game"]))
    );
    assert_eq!(mac_game_support_folder(&[], "Game"), None);
    assert_eq!(
        game_install_dir(TargetOs::MacOs, "/lib/steamapps", "game", Some("Game"), &home, true),
        Ok(parts(&["/Users/u", "Library", "Application Support", "Game"]))
    );
    assert_eq!(
        game_install_dir(TargetOs::MacOs, "/lib/steamapps", "game", Some("Game"), &home, false),
        Ok(parts(&["/lib/steamapps", "common", "game"]))
    );
    assert_eq!(
        game_install_dir(TargetOs::MacOs, "/lib/steamapps", "game", Some("Game"), &[], false),
        Err(RootPathError::MissingEnv)
    );
    assert_eq!(
        game_install_dir(TargetOs::Linux, "/lib/steamapps", "game", Some("Game"), &home, true),
        Ok(parts(&["/lib/steamapps", "common", "game"]))
    );
}
