use steam_cloud_files::backup::{
    backup_dir_name_at, clean_name, generate_backup_dir_name, get_root_folder_name, BackupManager,
};
use steam_cloud_files::config::{validate_steam_path, AppConfig, ConfigStore, SteamPathValidation};
use steam_cloud_files::error::AppError;
use steam_cloud_files::i18n::{I18n, Language};
use steam_cloud_files::logger::{log_config_text_exec, parse_log_config, LogSettings};
use steam_cloud_files::steam_api::CloudFile;
use steam_cloud_files::steam_process::{close_failure_status, restart_statuses, RestartStatus};
use steam_cloud_files::symlink_manager::{
    generate_symlink_commands, LinkDirection, SymlinkConfig, SymlinkManager,
};
use steam_cloud_files::vdf::get_or_create_string_index;

#[test]
fn game_names_are_cleaned_for_folders() {
    assert_eq!(clean_name("  Half-Life: Alyx! "), "Half-Life_Alyx");
    assert_eq!(clean_name("abcdefghijklmnopqrstuvwxyz0123456789"), "abcdefghijklmnopqrstuvwxyz0123");
    assert_eq!(backup_dir_name_at("My Game", 480, "20240101_120000"), "My_Game_480_20240101_120000");
    assert!(generate_backup_dir_name("My Game", 480).starts_with("My_Game_480_"));
    assert_eq!(get_root_folder_name(2), "root2_WinMyDocuments");
}

#[test]
fn backups_record_each_file() {
    let manager = BackupManager::new("/backups".to_string());
    let files = vec![CloudFile {
        name: "a.sav".to_string(),
        size: 5,
        timestamp: 1,
        is_persisted: true,
        exists: true,
        root: 0,
        root_description: String::new(),
        conflict: false,
    }];
    let mut run = manager.start_backup(&files).unwrap();
    let _target = run.begin_file(&files[0]);
    run.file_saved(&files[0]);
    let manifest = run.manifest(480, "Game", "2024-01-01".to_string());
    assert_eq!(manifest.app_id, 480);
    assert_eq!(manifest.files.len(), 1);
    assert_eq!(manifest.files[0].name, "a.sav");
    assert_eq!(manifest.total_size, 5);
    let result = run.finish("/backups/x".to_string(), false);
    assert_eq!(result.success_count, 1);
    assert_eq!(result.total_files, 1);
    assert!(result.success);
}

#[test]
fn steam_paths_are_validated() {
    assert_eq!(validate_steam_path(false, false, &[]), SteamPathValidation::NotExists);
    assert_eq!(validate_steam_path(true, false, &[]), SteamPathValidation::InvalidStructure);
    assert_eq!(validate_steam_path(true, true, &["ab".to_string()]), SteamPathValidation::NoUsers);
    let ok = validate_steam_path(true, true, &["123".to_string(), "x".to_string(), "456".to_string()]);
    assert_eq!(ok, SteamPathValidation::Valid { user_count: 2 });
    assert!(ok.is_valid());
}

#[test]
fn configuration_store_keeps_the_path() {
    let mut store = ConfigStore::new();
    assert!(store.get_custom_steam_path().is_none());
    store.init_config(AppConfig::default());
    store.set_custom_steam_path(Some("/opt/steam".to_string()));
    assert_eq!(store.get_custom_steam_path(), Some("/opt/steam".to_string()));
    store.reset_to_default();
    assert!(store.get_custom_steam_path().is_none());
}

#[test]
fn log_setting_reads_back() {
    assert!(parse_log_config(log_config_text_exec(true)));
    assert!(!parse_log_config(log_config_text_exec(false)));
    assert!(parse_log_config("  enabled\n"));
    let mut s = LogSettings::new(false);
    s.set_log_enabled(true);
    assert!(s.is_log_enabled());
    assert!(s.is_log_config_changed());
}

#[test]
fn restart_reports_its_states() {
    assert_eq!(
        close_failure_status("MANUAL_OPERATION_REQUIRED: x"),
        RestartStatus::Error("自动关闭失败".to_string())
    );
    assert_eq!(
        restart_statuses(None, None),
        vec![RestartStatus::Closing, RestartStatus::Starting, RestartStatus::Success]
    );
    assert_eq!(
        restart_statuses(Some("busy"), None),
        vec![RestartStatus::Closing, RestartStatus::Error("busy".to_string())]
    );
}

#[test]
fn errors_have_messages() {
    assert_eq!(AppError::InvalidAppId.message(), "无效的 App ID");
    assert_eq!(AppError::IoError("x".to_string()).message(), "IO 错误: x");
}

#[test]
fn messages_follow_the_language() {
    assert_eq!(I18n::new(Language::English).ok(), "OK");
    assert_eq!(I18n::new(Language::Chinese).cancel(), "取消");
}

#[test]
fn link_directions_read_back() {
    for d in [LinkDirection::LocalToRemote, LinkDirection::RemoteToLocal] {
        assert_eq!(LinkDirection::from_config(d.to_config()), d);
    }
    assert_eq!(LinkDirection::from_config("other"), LinkDirection::RemoteToLocal);
}

#[test]
fn links_are_stored_per_game() {
    let manager = SymlinkManager::new("/steam".to_string(), "123".to_string());
    let mut store = Vec::new();
    let c = SymlinkConfig::with_identity(
        "id-1".to_string(),
        480,
        LinkDirection::RemoteToLocal,
        "/home/u/saves".to_string(),
        "saves".to_string(),
        "linux",
        0,
    );
    manager.add_config(&mut store, c);
    assert_eq!(manager.get_configs_for_app(&store, 480).len(), 1);
    assert!(manager.get_configs_for_app(&store, 570).is_empty());
    manager.remove_config(&mut store, "id-1");
    assert!(manager.get_configs_for_app(&store, 480).is_empty());
    let fresh = SymlinkConfig::new(1, LinkDirection::LocalToRemote, "/a".to_string(), "b".to_string(), "linux");
    assert_eq!(fresh.id.len(), 36);
}

#[test]
fn link_commands_per_platform() {
    let cmds = generate_symlink_commands("/t", "/l", "linux");
    assert_eq!(cmds[1], "ln -s \"/t\" \"/l\"");
    assert_eq!(cmds[4], "rm \"/l\"");
    assert_eq!(generate_symlink_commands("/t", "/l", "beos"), vec!["# 不支持的平台".to_string()]);
}

#[test]
fn string_table_indices_are_shared() {
    let mut table = vec!["appinfo".to_string()];
    assert_eq!(get_or_create_string_index("ufs", &mut table), 1);
    assert_eq!(get_or_create_string_index("appinfo", &mut table), 0);
    assert_eq!(get_or_create_string_index("ufs", &mut table), 1);
    assert_eq!(table.len(), 2);
}

#[test]
fn locales_pick_the_language() {
    assert_eq!(Language::from_locale("zh_CN.UTF-8", false), Language::Chinese);
    assert_eq!(Language::from_locale("en_HK.UTF-8", false), Language::Chinese);
    assert_eq!(Language::from_locale("en_US.UTF-8", false), Language::English);
    assert_eq!(Language::from_locale("", true), Language::Chinese);
    assert_eq!(Language::from_locale("", false), Language::English);
}

#[test]
fn delete_failure_messages() {
    assert_eq!(I18n::new(Language::English).delete_failed_files(2, "a, b"), "2 files failed to delete");
    assert_eq!(I18n::new(Language::English).delete_failed_files(1, "a"), "1 file failed to delete");
    assert_eq!(I18n::new(Language::Chinese).delete_failed_files(2, "a, b"), "2 个文件删除失败: a, b");
}

#[test]
fn backup_folder_names_end_in_a_time_stamp() {
    let name = generate_backup_dir_name("My Game", 480);
    let stamp = name.strip_prefix("My_Game_480_").unwrap();
    let (date, time) = stamp.split_once('_').unwrap();
    assert!(date.len() >= 8 && date.chars().all(|c| c.is_ascii_digit()));
    assert!(time.len() == 6 && time.chars().all(|c| c.is_ascii_digit()));
}
