use steam_cloud_files::game_scanner::{
    compare_text, library_paths, merge_cdp_games, parse_app_manifest, parse_game_config,
    quoted_value_of, sort_by_last_played, sort_games, CloudGameInfo,
};

fn game(app_id: u32, name: Option<&str>, last_played: Option<i64>, installed: bool) -> CloudGameInfo {
    CloudGameInfo {
        app_id,
        file_count: 0,
        total_size: 0,
        last_played,
        playtime: None,
        game_name: name.map(|n| n.to_string()),
        is_installed: installed,
        install_dir: None,
        categories: Vec::new(),
    }
}

#[test]
fn quoted_values_are_read() {
    assert_eq!(quoted_value_of("\t\"name\"\t\t\"Spacewar\""), Some("Spacewar".to_string()));
    assert_eq!(quoted_value_of("\"name\""), None);
}

#[test]
fn manifests_are_read() {
    let text = "\"AppState\"\n{\n\t\"appid\"\t\t\"480\"\n\t\"name\"\t\t\"Spacewar\"\n\t\"installdir\"\t\t\"Spacewar\"\n\t\"SizeOnDisk\"\t\t\"1024\"\n}\n";
    let m = parse_app_manifest(text).unwrap();
    assert_eq!(m.app_id, 480);
    assert_eq!(m.name, "Spacewar");
    assert_eq!(m.install_dir, "Spacewar");
    assert_eq!(m.size_on_disk, Some(1024));
    assert!(parse_app_manifest("\"appid\" \"480\"\n").is_none());
}

#[test]
fn library_folders_are_listed() {
    let text = "\"libraryfolders\"\n{\n\t\"0\"\n\t{\n\t\t\"path\"\t\t\"/home/u/.steam\"\n\t}\n\t\"1\"\n\t{\n\t\t\"path\"\t\t\"/mnt/games\"\n\t}\n}\n";
    assert_eq!(library_paths(text), vec!["/home/u/.steam".to_string(), "/mnt/games".to_string()]);
}

#[test]
fn local_config_gives_play_data() {
    let text = "\"apps\"\n{\n\"480\"\n{\n\"LastPlayed\"\t\"1700000000\"\n\"Playtime\"\t\"42\"\n\"LaunchOptions\"\t\"-fast\"\n}\n\"570\"\n{\n\"LastPlayed\"\t\"5\"\n}\n}\n";
    let c = parse_game_config(text, 480);
    assert_eq!(c.app_id, 480);
    assert_eq!(c.last_played, Some(1_700_000_000));
    assert_eq!(c.playtime, Some(42));
    assert_eq!(c.launch_options, Some("-fast".to_string()));
    let d = parse_game_config(text, 730);
    assert_eq!(d.last_played, None);
}

#[test]
fn texts_compare_by_characters() {
    assert_eq!(compare_text("abc", "abd"), -1);
    assert_eq!(compare_text("b", "abc"), 1);
    assert_eq!(compare_text("ab", "ab"), 0);
    assert_eq!(compare_text("ab", "abc"), -1);
}

#[test]
fn recently_played_come_first() {
    let games = vec![
        game(1, None, Some(10), false),
        game(2, None, None, false),
        game(3, None, Some(30), false),
    ];
    let ids: Vec<u32> = sort_by_last_played(games).iter().map(|g| g.app_id).collect();
    assert_eq!(ids, vec![3, 1, 2]);
}

#[test]
fn installed_and_store_order_come_first() {
    let games = vec![
        game(5, Some("Beta"), None, false),
        game(6, Some("Alpha"), None, false),
        game(7, Some("Zed"), None, true),
        game(8, None, None, false),
    ];
    let ids: Vec<u32> = sort_games(games, &[8]).iter().map(|g| g.app_id).collect();
    assert_eq!(ids, vec![7, 8, 6, 5]);
}

#[test]
fn store_games_merge_into_the_list() {
    let mut known = game(10, None, Some(1), true);
    known.file_count = 1;
    let games = vec![known];
    let mut store_known = game(10, Some("Known"), None, false);
    store_known.file_count = 4;
    store_known.total_size = 99;
    let store_new = game(11, Some("New"), None, false);
    let (merged, order) = merge_cdp_games(games, vec![store_known, store_new]);
    assert_eq!(order, vec![10, 11]);
    assert_eq!(merged.len(), 2);
    assert_eq!(merged[0].app_id, 10);
    assert_eq!(merged[0].file_count, 4);
    assert_eq!(merged[0].total_size, 99);
    assert_eq!(merged[0].game_name, Some("Known".to_string()));
    assert!(merged[0].is_installed);
    assert_eq!(merged[1].app_id, 11);
}
