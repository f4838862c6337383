use steam_cloud_files::downloader::DownloadProgress;
use steam_cloud_files::downloader::{download_sources, prepare_download_tasks, DownloadSource};
use steam_cloud_files::steam_api::CloudFile;

fn file(name: &str, desc: &str, persisted: bool, exists: bool) -> CloudFile {
    CloudFile {
        name: name.to_string(),
        size: 1,
        timestamp: 0,
        is_persisted: persisted,
        exists,
        root: 0,
        root_description: desc.to_string(),
        conflict: false,
    }
}

#[test]
fn sources_are_tried_in_order() {
    let paths = vec![
        ("saves".to_string(), "/s".to_string()),
        ("other".to_string(), "/o".to_string()),
        ("save".to_string(), "/t".to_string()),
    ];
    let f = file("a.sav", "CDP:https://x/a|saves", true, true);
    assert_eq!(
        download_sources(&f, &paths),
        vec![
            DownloadSource::Url("https://x/a".to_string()),
            DownloadSource::SteamApi,
            DownloadSource::LocalCopy("/s".to_string()),
            DownloadSource::LocalCopy("/t".to_string()),
            DownloadSource::LocalCopy("/s".to_string()),
            DownloadSource::LocalCopy("/o".to_string()),
            DownloadSource::LocalCopy("/t".to_string()),
        ]
    );
    let g = file("b.sav", "saves", false, false);
    assert!(download_sources(&g, &paths).is_empty());
    let h = file("c.sav", "elsewhere", false, true);
    let one = vec![("docs".to_string(), "/d".to_string())];
    assert_eq!(download_sources(&h, &one), vec![DownloadSource::LocalCopy("/d".to_string())]);
}

#[test]
fn tasks_follow_the_selection() {
    let files = vec![file("a", "", true, true), file("b", "", true, true)];
    let paths = vec![("d".to_string(), "/d".to_string())];
    let tasks = prepare_download_tasks(&files, &[1, 5, 0], "/out", &paths);
    assert_eq!(tasks.len(), 2);
    assert_eq!(tasks[0].file.name, "b");
    assert_eq!(tasks[0].target_parts, vec!["/out".to_string(), "b".to_string()]);
    assert_eq!(tasks[1].file.name, "a");
    assert_eq!(tasks[1].local_save_paths, paths);
}

#[test]
fn download_runs_are_tallied() {
    let mut p = DownloadProgress::new(2);
    p.begin_file("a");
    p.file_done("a", Ok(()));
    p.begin_file("b");
    p.file_done("b", Err("offline".to_string()));
    assert_eq!(p.completed_files, 2);
    assert_eq!(p.current_file, "b");
    let r = p.into_result("/out".to_string(), 1, false);
    assert!(!r.success);
    assert_eq!(r.success_count, 1);
    assert_eq!(r.failed_files, vec![("b".to_string(), "offline".to_string())]);
    let ok = DownloadProgress::new(0).into_result("/out".to_string(), 0, false);
    assert!(ok.success);
    let cancelled = DownloadProgress::new(0).into_result("/out".to_string(), 0, true);
    assert!(!cancelled.success);
}
