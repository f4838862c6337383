use steam_cloud_files::appinfo_writer::{
    binary_checksum, modify_app_ufs_checked, parse_string_table, platforms_to_oslist,
    read_null_string, savefile_configs_from_entries, AppInfoError, AppInfoWriter,
};
use steam_cloud_files::config::SaveFileEntry;

#[test]
fn test_binary_checksum() {
    let writer = AppInfoWriter::new(String::new());
    let data = b"test data";
    let checksum = writer.calculate_binary_checksum(data);
    assert_eq!(checksum.len(), 20);
}

fn hex(bytes: &[u8]) -> String {
    let mut s = String::new();
    for b in bytes {
        s.push_str(&format!("{:02x}", b));
    }
    s
}

#[test]
fn binary_checksum_is_sha1() {
    assert_eq!(hex(&binary_checksum(b"test data")), "f48dd853820860816c75d54d0f584dc863327a7c");
    assert_eq!(hex(&binary_checksum(b"")), "da39a3ee5e6b4b0d3255bfef95601890afd80709");
}

#[test]
fn oslist_of_platforms() {
    assert_eq!(platforms_to_oslist(&["windows".to_string(), "macos".to_string()]), "windows,macos");
    assert_eq!(platforms_to_oslist(&[]), "");
}

#[test]
fn null_strings_read_back() {
    let data = b"abc\0de\0";
    let (s, next) = read_null_string(data, 0);
    assert_eq!(s, "abc");
    assert_eq!(next, 4);
    let (t, next2) = read_null_string(data, next);
    assert_eq!(t, "de");
    assert_eq!(next2, 7);
}

#[test]
fn string_table_is_read() {
    let mut data = vec![1u8, 2, 3];
    data.extend_from_slice(b"appinfo\0ufs\0");
    let table = parse_string_table(&data, 3);
    assert_eq!(table, vec!["appinfo".to_string(), "ufs".to_string()]);
    assert!(parse_string_table(&data, 100).is_empty());
}

fn le32(v: u32) -> [u8; 4] {
    v.to_le_bytes()
}

/// A format-28 file with one game entry whose KeyValues data holds an empty
/// `ufs` section inside `appinfo`.
fn sample_v28(app_id: u32) -> Vec<u8> {
    let mut kv = Vec::new();
    kv.push(0u8);
    kv.extend_from_slice(b"appinfo\0");
    kv.push(0u8);
    kv.extend_from_slice(b"ufs\0");
    kv.push(8u8);
    kv.push(8u8);
    kv.push(8u8);
    let mut entry = Vec::new();
    entry.extend_from_slice(&le32(app_id));
    entry.extend_from_slice(&le32((60 + kv.len()) as u32));
    entry.extend_from_slice(&[0u8; 16]);
    entry.extend_from_slice(&[0u8; 20]);
    entry.extend_from_slice(&le32(7));
    entry.extend_from_slice(&[0u8; 20]);
    entry.extend_from_slice(&kv);
    let mut data = Vec::new();
    data.extend_from_slice(&le32(0x07564428));
    data.extend_from_slice(&le32(1));
    data.extend_from_slice(&entry);
    data.extend_from_slice(&le32(0));
    data
}

fn contains(hay: &[u8], needle: &[u8]) -> bool {
    hay.windows(needle.len()).any(|w| w == needle)
}

#[test]
fn modify_writes_savefiles_into_entry() {
    let data = sample_v28(480);
    let entries = vec![SaveFileEntry {
        root: "WinAppDataLocal".to_string(),
        path: "Game/Saves".to_string(),
        pattern: "*.sav".to_string(),
        platforms: vec!["windows".to_string()],
        recursive: true,
    }];
    let configs = savefile_configs_from_entries(&entries);
    let out = modify_app_ufs_checked(&data, 480, &configs, &[]).unwrap().unwrap();
    assert_eq!(&out[0..8], &data[0..8]);
    assert_eq!(&out[8..12], &le32(480));
    assert!(contains(&out, b"savefiles\0"));
    assert!(contains(&out, b"Game/Saves\0"));
    assert!(contains(&out, b"WinAppDataLocal\0"));
    let size = u32::from_le_bytes([out[12], out[13], out[14], out[15]]) as usize;
    assert_eq!(16 + size, out.len() - 4);
    let kv = &out[8 + 68..8 + 8 + size];
    assert_eq!(&out[8 + 48..8 + 68], &binary_checksum(kv));
    assert_eq!(&out[out.len() - 4..], &le32(0));
}

#[test]
fn modify_reports_each_error() {
    assert_eq!(modify_app_ufs_checked(&[1, 2], 1, &[], &[]), Some(Err(AppInfoError::Truncated)));
    let bad = [0x29u8, 0x44, 0x56, 0x08, 0, 0, 0, 0];
    assert_eq!(
        modify_app_ufs_checked(&bad, 1, &[], &[]),
        Some(Err(AppInfoError::UnsupportedVersion(0x08564429)))
    );
    let data = sample_v28(480);
    assert_eq!(modify_app_ufs_checked(&data, 10, &[], &[]), Some(Err(AppInfoError::AppNotFound(10))));
}

#[test]
fn writer_keeps_steam_path() {
    let w = AppInfoWriter::new("/home/u/.steam".to_string());
    assert_eq!(w.steam_path, "/home/u/.steam");
}
