use steam_cloud_files::conflict::{
    calculate_status, find_local_path_for_file, AsyncHashChecker, CloudFileInfo, FileComparison,
    HashCheckResult, HashStatus, LocalFileInfo, SyncStatus,
};
use steam_cloud_files::steam_api::CloudFile;

fn local(size: u64, modified: i64, exists: bool) -> LocalFileInfo {
    LocalFileInfo { size, modified, exists, hash: None }
}

fn cloud(size: u64, timestamp: i64, is_persisted: bool) -> CloudFileInfo {
    CloudFileInfo { size, timestamp, is_persisted, hash: None, download_url: None }
}

#[test]
fn copies_are_compared_by_time_then_size() {
    let (s, t, d, f) = calculate_status(&Some(local(100, 1010, true)), &Some(cloud(100, 1000, true)), 0);
    assert_eq!((s, t, d), (SyncStatus::LocalNewer, 10, 0));
    assert!(f.time_diff && !f.size_diff);
    let (s, t, _, _) = calculate_status(&Some(local(100, 1000, true)), &Some(cloud(100, 1010, true)), 0);
    assert_eq!((s, t), (SyncStatus::CloudNewer, -10));
    let (s, _, d, f) = calculate_status(&Some(local(150, 1000, true)), &Some(cloud(100, 1001, true)), 10);
    assert_eq!((s, d), (SyncStatus::Unknown, 50));
    assert!(f.size_diff);
    let (s, _, _, _) = calculate_status(&Some(local(105, 1000, true)), &Some(cloud(100, 1002, true)), 10);
    assert_eq!(s, SyncStatus::Synced);
}

#[test]
fn one_sided_files() {
    assert_eq!(calculate_status(&Some(local(1, 0, true)), &None, 0).0, SyncStatus::LocalOnly);
    assert_eq!(calculate_status(&None, &Some(cloud(1, 0, true)), 0).0, SyncStatus::CloudOnly);
    assert_eq!(calculate_status(&None, &None, 0).0, SyncStatus::Unknown);
    assert_eq!(calculate_status(&Some(local(1, 0, false)), &Some(cloud(1, 0, true)), 0).0, SyncStatus::CloudOnly);
    assert_eq!(calculate_status(&Some(local(1, 0, true)), &Some(cloud(1, 0, false)), 0).0, SyncStatus::LocalOnly);
}

#[test]
fn comparisons_carry_the_link() {
    let c = FileComparison::new(
        "a.sav".to_string(),
        Some(local(1, 5, true)),
        Some(cloud(1, 5, true)),
        Some("https://x".to_string()),
        Some("/tmp/a.sav".to_string()),
        0,
    );
    assert_eq!(c.status, SyncStatus::Synced);
    assert_eq!(c.hash_status, HashStatus::Pending);
    assert_eq!(c.cloud.unwrap().download_url, Some("https://x".to_string()));
}

#[test]
fn hash_results_settle_state() {
    let same = HashCheckResult {
        filename: "a".to_string(),
        local_hash: Some("ab".to_string()),
        cloud_hash: Some("ab".to_string()),
        error: None,
    };
    assert_eq!(same.process(), (HashStatus::Match, Some(SyncStatus::Synced)));
    let diff = HashCheckResult { cloud_hash: Some("cd".to_string()), ..same.clone() };
    assert_eq!(diff.process(), (HashStatus::Mismatch, Some(SyncStatus::Conflict)));
    let err = HashCheckResult { error: Some("io".to_string()), ..same.clone() };
    assert_eq!(err.process(), (HashStatus::Error, None));
    let missing = HashCheckResult { local_hash: None, ..same };
    assert_eq!(missing.process(), (HashStatus::Error, None));
}

fn cloud_file(root: u32, desc: &str) -> CloudFile {
    CloudFile {
        name: "a.sav".to_string(),
        size: 1,
        timestamp: 0,
        is_persisted: true,
        exists: true,
        root,
        root_description: desc.to_string(),
        conflict: false,
    }
}

#[test]
fn local_directories_are_chosen() {
    let paths = vec![
        ("Documents (2)".to_string(), "/docs".to_string()),
        ("saves".to_string(), "/saves".to_string()),
    ];
    assert_eq!(find_local_path_for_file(&cloud_file(2, ""), &paths), Some("/docs".to_string()));
    assert_eq!(find_local_path_for_file(&cloud_file(0, "CDP:u|saves"), &paths), Some("/saves".to_string()));
    assert_eq!(find_local_path_for_file(&cloud_file(0, "other"), &paths), Some("/docs".to_string()));
    assert_eq!(find_local_path_for_file(&cloud_file(0, "other"), &[]), None);
}

#[test]
fn hash_checker_runs_and_stops() {
    let mut checker = AsyncHashChecker::new();
    assert!(!checker.is_running());
    let comparisons = vec![FileComparison::new(
        "a.sav".to_string(),
        Some(local(1, 5, true)),
        Some(cloud(2, 5, true)),
        None,
        None,
        0,
    )];
    let _tasks = checker.start(480, &comparisons);
    assert_eq!(checker.get_app_id(), 480);
    checker.cancel();
    assert!(!checker.is_running());
}

fn hash_result(name: &str, hash: &str) -> HashCheckResult {
    HashCheckResult {
        filename: name.to_string(),
        local_hash: Some(hash.to_string()),
        cloud_hash: Some(hash.to_string()),
        error: None,
    }
}

#[test]
fn hash_checker_poll_records_results_while_running() {
    let mut checker = AsyncHashChecker::new();
    // Nothing started: nothing is taken.
    assert!(checker.poll(vec![hash_result("a.sav", "1")]).is_empty());
    assert!(checker.results.is_empty());

    let comparisons = vec![FileComparison::new(
        "a.sav".to_string(),
        Some(local(1, 5, true)),
        Some(cloud(2, 5, true)),
        None,
        Some("/saves/a.sav".to_string()),
        0,
    )];
    let tasks = checker.start(480, &comparisons);
    assert_eq!(tasks.len(), 1);
    let got = checker.poll(vec![hash_result("a.sav", "1"), hash_result("b.sav", "2"), hash_result("a.sav", "3")]);
    assert_eq!(got.len(), 3);
    assert_eq!(got[2].local_hash, Some("3".to_string()));
    assert_eq!(checker.results.len(), 2);
    let hash_of = |name: &str| {
        checker.results.iter().find(|r| r.filename == name).and_then(|r| r.local_hash.clone())
    };
    assert_eq!(hash_of("a.sav"), Some("3".to_string()));
    assert_eq!(hash_of("b.sav"), Some("2".to_string()));

    checker.cancel();
    assert!(checker.poll(vec![hash_result("c.sav", "4")]).is_empty());
    assert_eq!(checker.results.len(), 2);
}

#[test]
fn missing_copies_are_not_compared() {
    let c = FileComparison::new(
        "a.sav".to_string(),
        Some(local(u64::MAX, i64::MIN, false)),
        Some(cloud(u64::MAX, i64::MAX, true)),
        None,
        None,
        0,
    );
    assert_eq!(c.status, SyncStatus::CloudOnly);
    assert_eq!(c.time_diff_secs, 0);
    assert_eq!(c.size_diff_bytes, 0);
}
