use steam_cloud_files::cdp_client::{
    cdp_cloud_file_at, try_parse_steam_time,
    cdp_cloud_file, cdp_game_entry, cdp_root_description, files_page_url, next_page_probe,
    parse_steam_time, parse_steam_time_fields, read_steam_time, steam_time_cuts_char, SteamTime,
    SteamTimeReading,
};

fn t(year: i32, month: u32, day: u32, hour: u32, minute: u32) -> SteamTime {
    SteamTime { year, month, day, hour, minute }
}

#[test]
fn chinese_times_are_read() {
    assert_eq!(parse_steam_time_fields("2021 年 3 月 6 日 下午 8:04", 2000), Some(t(2021, 3, 6, 20, 4)));
    assert_eq!(parse_steam_time_fields("2021 年 3 月 6 日 上午 12:30", 2000), Some(t(2021, 3, 6, 0, 30)));
    assert_eq!(parse_steam_time_fields("2021 年 3 月 6 日 下午 12:30", 2000), Some(t(2021, 3, 6, 12, 30)));
}

#[test]
fn english_times_are_read() {
    assert_eq!(parse_steam_time_fields("23 Nov, 2025 @ 5:30pm", 2000), Some(t(2025, 11, 23, 17, 30)));
    assert_eq!(parse_steam_time_fields("23 Nov @ 5:30pm", 2024), Some(t(2024, 11, 23, 17, 30)));
    assert_eq!(parse_steam_time_fields("1 Jan @ 12:05am", 2024), Some(t(2024, 1, 1, 0, 5)));
    assert_eq!(parse_steam_time_fields("  9 DEC, 2020 @ 11am ", 1), Some(t(2020, 12, 9, 11, 0)));
}

#[test]
fn unreadable_times_give_nothing() {
    assert_eq!(parse_steam_time_fields("", 2024), None);
    assert_eq!(parse_steam_time_fields("   ", 2024), None);
    assert_eq!(parse_steam_time_fields("23 Foo @ 5:30pm", 2024), None);
    assert_eq!(parse_steam_time_fields("23 Nov", 2024), None);
    assert_eq!(parse_steam_time_fields("x Nov @ 5:30pm", 2024), None);
    assert_eq!(parse_steam_time_fields("23 Nov @ pm", 2024), None);
}

#[test]
fn a_cut_inside_a_character_is_reported() {
    assert!(steam_time_cuts_char("23 Nov @ 5:30下"));
    assert_eq!(read_steam_time("23 Nov @ 5:30下", 2024), SteamTimeReading::CutInsideChar);
    assert!(!steam_time_cuts_char("23 Nov @ 5:30pm"));
}

#[test]
fn readable_times_become_instants() {
    assert!(parse_steam_time("23 Nov, 2025 @ 5:30pm").is_some());
    assert!(parse_steam_time("31 Feb, 2025 @ 5:30pm").is_none());
    assert!(parse_steam_time("nonsense").is_none());
}

#[test]
fn listed_files_keep_their_source() {
    assert_eq!(cdp_root_description("https://x/f", "saves"), "CDP:https://x/f|saves");
    assert_eq!(cdp_root_description("", "saves"), "saves");
    let f = cdp_cloud_file("saves", "slot.sav", 2048, "23 Nov, 2025 @ 5:30pm", "https://x/f");
    assert_eq!(f.name, "slot.sav");
    assert_eq!(f.size, 2048);
    assert_eq!(f.root, 0);
    assert!(f.exists && f.is_persisted && !f.conflict);
    assert_eq!(f.root_description, "CDP:https://x/f|saves");
}

#[test]
fn listed_games_need_an_id() {
    assert!(cdp_game_entry(0, Some("Game"), 1, 10).is_none());
    assert!(cdp_game_entry(1u64 << 32, Some("Game"), 1, 10).is_none());
    let g = cdp_game_entry(480, Some(""), 3, 4096).unwrap();
    assert_eq!(g.app_id, 480);
    assert_eq!(g.game_name, None);
    assert_eq!(g.file_count, 3);
    assert_eq!(g.total_size, 4096);
    assert!(!g.is_installed);
    let h = cdp_game_entry(480, Some("Spacewar"), 0, 0).unwrap();
    assert_eq!(h.game_name, Some("Spacewar".to_string()));
}

#[test]
fn file_list_pages() {
    assert_eq!(
        files_page_url(480, 1),
        "https://store.steampowered.com/account/remotestorageapp/?appid=480"
    );
    assert_eq!(
        files_page_url(480, 3),
        "https://store.steampowered.com/account/remotestorageapp/?appid=480&index=100"
    );
    assert_eq!(next_page_probe(50), "document.querySelector('a[href*=\"index=50\"]') !== null");
}

#[test]
fn checked_reading_refuses_cut_characters() {
    assert_eq!(try_parse_steam_time("23 Nov @ 5:30下"), None);
    assert_eq!(try_parse_steam_time("nonsense"), Some(None));
    assert!(matches!(try_parse_steam_time("23 Nov, 2025 @ 5:30pm"), Some(Some(_))));
}

#[test]
fn listed_files_take_the_read_time_or_now() {
    let f = cdp_cloud_file_at("saves", "a.sav", 10, Some(1_700_000_000), 5, "https://u");
    assert_eq!(f.timestamp, 1_700_000_000);
    assert_eq!(f.root_description, "CDP:https://u|saves");
    let g = cdp_cloud_file_at("saves", "b.sav", 10, None, 5, "");
    assert_eq!(g.timestamp, 5);
    assert_eq!(g.root_description, "saves");
    assert!(g.is_persisted && g.exists && !g.conflict && g.root == 0);
}

#[test]
fn read_times_stay_within_a_day_of_utc() {
    // 2024-01-15 10:30 read in UTC is 1705314600; any time zone is within a day of it.
    let x = parse_steam_time("15 Jan, 2024 @ 10:30am").unwrap();
    assert!((x - 1_705_314_600).abs() < 86_400);
}
