use steam_cloud_files::app_state::cloud_url_for_input;
use steam_cloud_files::app_state::{
    handle_connect_result, handle_scan_games_result, quota_info, storage_page_url,
    ConnectionState, DialogState, FileComparisonInfo, GameLibraryState, MiscState,
};
use steam_cloud_files::conflict::{HashStatus, SyncStatus};
use steam_cloud_files::game_scanner::ScanResult;

#[test]
fn hash_outcomes_update_the_state() {
    let mut info = FileComparisonInfo::default();
    assert_eq!(info.apply_hash_status(HashStatus::Mismatch), SyncStatus::Conflict);
    assert!(info.diff_flags.hash_diff);
    assert_eq!(info.hash_status, HashStatus::Mismatch);

    let mut newer = FileComparisonInfo { status: SyncStatus::LocalNewer, ..FileComparisonInfo::default() };
    assert_eq!(newer.apply_hash_status(HashStatus::Mismatch), SyncStatus::LocalNewer);

    let mut same = FileComparisonInfo { status: SyncStatus::CloudNewer, ..FileComparisonInfo::default() };
    assert_eq!(same.apply_hash_status(HashStatus::Match), SyncStatus::Synced);
    assert!(!same.diff_flags.hash_diff);

    let mut failed = FileComparisonInfo { status: SyncStatus::Unknown, ..FileComparisonInfo::default() };
    assert_eq!(failed.apply_hash_status(HashStatus::Error), SyncStatus::Unknown);
}

#[test]
fn connecting_succeeds_or_reports() {
    let mut conn = ConnectionState::default();
    conn.is_connecting = true;
    let mut misc = MiscState::default();
    let mut dialogs = DialogState::new(true);
    let url = handle_connect_result(Ok(480), &mut conn, &mut misc, &mut dialogs, 77);
    assert_eq!(
        url,
        Some("steam://openurl/https://store.steampowered.com/account/remotestorageapp/?appid=480".to_string())
    );
    assert!(conn.is_connected && !conn.is_connecting);
    assert_eq!(conn.since_connected, Some(77));
    assert_eq!(misc.status_message, "正在加载文件列表 (App ID: 480)...");
    assert!(!dialogs.show_error);

    let mut conn2 = ConnectionState::default();
    conn2.is_connecting = true;
    let r = handle_connect_result(Err("no steam".to_string()), &mut conn2, &mut misc, &mut dialogs, 0);
    assert_eq!(r, None);
    assert!(!conn2.is_connecting && !conn2.is_connected);
    assert!(dialogs.show_error);
    assert_eq!(dialogs.error_message, "连接Steam失败: no steam");
    assert_eq!(storage_page_url(7), "steam://openurl/https://store.steampowered.com/account/remotestorageapp/?appid=7");
}

#[test]
fn scans_fill_the_library() {
    let mut lib = GameLibraryState::default();
    lib.is_scanning_games = true;
    let mut misc = MiscState::default();
    let mut dialogs = DialogState::new(false);
    let result = ScanResult { games: Vec::new(), vdf_count: 3, cdp_count: 0 };
    handle_scan_games_result(Ok(result), true, &mut lib, &mut misc, &mut dialogs);
    assert!(!lib.is_scanning_games);
    assert_eq!(lib.vdf_count, 3);
    assert_eq!(misc.status_message, "");
    assert!(dialogs.show_error);
    assert!(dialogs.error_message.starts_with("CDP 未获取到游戏数据"));

    let mut dialogs2 = DialogState::new(false);
    handle_scan_games_result(Err("disk".to_string()), false, &mut lib, &mut misc, &mut dialogs2);
    assert_eq!(dialogs2.error_message, "扫描游戏失败: disk");
}

#[test]
fn quotas() {
    assert_eq!(quota_info(0, Some(100), 10), None);
    assert_eq!(quota_info(480, Some(0), 10), None);
    assert_eq!(quota_info(480, None, 10), None);
    assert_eq!(quota_info(480, Some(100), 30), Some((100, 70)));
    assert_eq!(quota_info(480, Some(100), 300), Some((100, 0)));
}

#[test]
fn typed_app_ids_open_their_page() {
    assert_eq!(
        cloud_url_for_input("570"),
        Some("steam://openurl/https://store.steampowered.com/account/remotestorageapp/?appid=570".to_string())
    );
    assert_eq!(cloud_url_for_input(" 570"), None);
    assert_eq!(cloud_url_for_input("abc"), None);
}
