use steam_cloud_files::file_manager::{upload_result, AttemptStep, TaskStatus};
use steam_cloud_files::file_manager::{
    batch_operation, build_cloud_file_from_vdf, delete_by_indices_result, forget_by_indices_result,
    get_platform_name, partition_for_delete, selected_names, should_retry, FileOperationResult,
    UploadError, UploadQueue, VdfFileEntry, MAX_FILE_SIZE,
};
use steam_cloud_files::steam_api::CloudFile;

fn file(name: &str, persisted: bool) -> CloudFile {
    CloudFile {
        name: name.to_string(),
        size: 10,
        timestamp: 100,
        is_persisted: persisted,
        exists: true,
        root: 0,
        root_description: String::new(),
        conflict: false,
    }
}

#[test]
fn records_become_cloud_files() {
    let e = VdfFileEntry { filename: "a.sav".to_string(), size: 3, timestamp: 0, sync_state: 2, root: 0 };
    let f = build_cloud_file_from_vdf(e, true, 1234);
    assert_eq!(f.name, "a.sav");
    assert_eq!(f.timestamp, 1234);
    assert!(f.is_persisted && f.exists && !f.conflict);
    let e2 = VdfFileEntry { filename: "b".to_string(), size: 3, timestamp: 55, sync_state: 1, root: 2 };
    let g = build_cloud_file_from_vdf(e2, false, 1234);
    assert_eq!(g.timestamp, 55);
    assert!(!g.is_persisted);
    assert_eq!(g.root, 2);
}

#[test]
fn platform_names() {
    assert_eq!(get_platform_name("macos"), "macOS");
    assert_eq!(get_platform_name("windows"), "Windows");
    assert_eq!(get_platform_name("linux"), "Linux");
    assert_eq!(get_platform_name("beos"), "Unknown");
}

#[test]
fn batches_are_tallied() {
    let names = vec!["a".to_string(), "b".to_string(), "c".to_string()];
    let outcomes = vec![Ok(true), Ok(false), Err("denied".to_string())];
    let (done, failed) = batch_operation(&names, &outcomes);
    assert_eq!(done, 1);
    assert_eq!(failed.len(), 2);
    assert!(failed[0].contains('b'));
    assert!(failed[1].contains("denied"));
}

#[test]
fn selections_skip_bad_positions() {
    let files = vec![file("a", true), file("b", false), file("c", true)];
    assert_eq!(selected_names(&files, &[2, 7, 0]), vec!["c".to_string(), "a".to_string()]);
    let (cloud, local) = partition_for_delete(&files, &[0, 1, 2, 9]);
    assert_eq!(cloud, vec!["a".to_string(), "c".to_string()]);
    assert_eq!(local, vec![1]);
}

#[test]
fn operation_results() {
    match forget_by_indices_result(2, 2, &[]) {
        FileOperationResult::SuccessWithRefresh(m) => assert!(m.contains('2')),
        FileOperationResult::Error(_) => panic!("both were forgotten"),
    }
    match forget_by_indices_result(2, 0, &[]) {
        FileOperationResult::Error(m) => assert_eq!(m, "没有文件被移出云端"),
        FileOperationResult::SuccessWithRefresh(_) => panic!("nothing was forgotten"),
    }
    match delete_by_indices_result(3, 1, &["x".to_string()]) {
        FileOperationResult::Error(m) => assert!(m.contains('x')),
        FileOperationResult::SuccessWithRefresh(_) => panic!("one failed"),
    }
}

#[test]
fn upload_queue_refuses_large_files() {
    let mut q = UploadQueue::new();
    assert!(q.add_file("/tmp/a".to_string(), "a", 5).is_ok());
    match q.add_file("/tmp/big".to_string(), "big", MAX_FILE_SIZE + 1) {
        Err(UploadError::TooLarge { path, size }) => {
            assert_eq!(path, "/tmp/big");
            assert_eq!(size, MAX_FILE_SIZE + 1);
        }
        Ok(()) => panic!("a file over the limit is refused"),
    }
    assert!(q.add_folder_file("/tmp/d/x".to_string(), "d", "x", 7));
    assert!(!q.add_folder_file("/tmp/d/y".to_string(), "d", "y", MAX_FILE_SIZE + 1));
    assert_eq!(q.total_files(), 2);
    assert_eq!(q.total_size(), 12);
    assert!(should_retry(1, 3));
    assert!(!should_retry(3, 3));
}

#[test]
fn uploads_retry_then_finish() {
    let mut q = UploadQueue::new();
    q.add_file("/tmp/a".to_string(), "a", 5).unwrap();
    q.add_file("/tmp/b".to_string(), "b", 7).unwrap();
    let mut tasks = q.tasks;
    assert_eq!(tasks[0].record_attempt(1, false, 3), AttemptStep::RetryLater);
    assert_eq!(tasks[0].status, TaskStatus::Retrying(1));
    assert_eq!(tasks[0].record_attempt(2, true, 3), AttemptStep::Uploaded);
    assert_eq!(tasks[0].retry_count, 2);
    tasks[0].finish(Ok(()));
    assert_eq!(tasks[1].record_attempt(3, false, 3), AttemptStep::GiveUp);
    tasks[1].finish(Err("quota".to_string()));
    assert_eq!(tasks[1].status, TaskStatus::Failed);
    let r = upload_result(&tasks, 9);
    assert_eq!(r.success_count, 1);
    assert_eq!(r.failed_count, 1);
    assert_eq!(r.failed_files, vec![("b".to_string(), "quota".to_string())]);
    assert_eq!(r.total_size, 12);
    assert_eq!(r.elapsed_secs, 9);
}
