//! The state the user interface keeps between frames: the connection, the
//! game library, the dialogs and the status line.
use vstd::prelude::*;
use vstd::string::*;
use crate::conflict::{DiffFlags, HashStatus, SyncStatus};
use crate::game_scanner::CloudGameInfo;
use crate::i18n::{I18n, Language};

verus! {

/// The connection to Steam: the app id typed in, whether Steam is connected or
/// connecting, whether the game's files are read, and since when (a clock
/// reading in milliseconds) the connection stands.
pub struct ConnectionState {
    pub app_id_input: String,
    pub is_connected: bool,
    pub is_connecting: bool,
    pub remote_ready: bool,
    pub since_connected: Option<u64>,
}

impl Default for ConnectionState {
    fn default() -> (r: Self)
        ensures
            r.app_id_input@.len() == 0,
            !r.is_connected,
            !r.is_connecting,
            !r.remote_ready,
            r.since_connected is None,
    {
        ConnectionState {
            app_id_input: String::new(),
            is_connected: false,
            is_connecting: false,
            remote_ready: false,
            since_connected: None,
        }
    }
}

impl ConnectionState {
    /// Back to not connected; the app id typed in stays.
    pub fn reset(&mut self)
        ensures
            !final(self).is_connected,
            !final(self).is_connecting,
            !final(self).remote_ready,
            final(self).since_connected is None,
            final(self).app_id_input == old(self).app_id_input,
    {
        self.is_connected = false;
        self.is_connecting = false;
        self.remote_ready = false;
        self.since_connected = None;
    }
}

/// What the file list shows of a file's comparison.
#[derive(Debug, Clone, Copy, PartialEq, Eq, Structural)]
pub struct FileComparisonInfo {
    pub status: SyncStatus,
    pub diff_flags: DiffFlags,
    pub hash_status: HashStatus,
}

impl Default for FileComparisonInfo {
    fn default() -> (r: Self)
        ensures
            r.status == SyncStatus::Unknown,
            r.diff_flags == crate::conflict::no_diff(),
            r.hash_status == HashStatus::Pending,
    {
        FileComparisonInfo {
            status: SyncStatus::default(),
            diff_flags: DiffFlags::default(),
            hash_status: HashStatus::default(),
        }
    }
}

/// The sync state a file takes once its hash check ends: equal hashes mean
/// in sync; different hashes make an undecided or in-sync file a conflict and
/// leave a newer side as it was; any other outcome changes nothing.
pub open spec fn state_after_hash(status: SyncStatus, hash_status: HashStatus) -> SyncStatus {
    match hash_status {
        HashStatus::Match => SyncStatus::Synced,
        HashStatus::Mismatch => if status == SyncStatus::Unknown || status == SyncStatus::Synced {
            SyncStatus::Conflict
        } else {
            status
        },
        _ => status,
    }
}

impl FileComparisonInfo {
    /// Takes in the outcome of the file's hash check and returns the file's new
    /// sync state (see [`state_after_hash`]); the hash difference is marked
    /// exactly when the hashes differ.
    pub fn apply_hash_status(&mut self, hash_status: HashStatus) -> (r: SyncStatus)
        ensures
            r == state_after_hash(old(self).status, hash_status),
            final(self).status == r,
            final(self).hash_status == hash_status,
            final(self).diff_flags == (DiffFlags {
                hash_diff: hash_status == HashStatus::Mismatch,
                ..old(self).diff_flags
            }),
    {
        self.hash_status = hash_status;
        self.diff_flags.hash_diff = hash_status == HashStatus::Mismatch;
        let new_status = match hash_status {
            HashStatus::Match => SyncStatus::Synced,
            HashStatus::Mismatch => if self.status == SyncStatus::Unknown || self.status == SyncStatus::Synced {
                SyncStatus::Conflict
            } else {
                self.status
            },
            _ => self.status,
        };
        self.status = new_status;
        new_status
    }
}

/// The game library: the games with cloud files, whether the game chooser is
/// open, whether a scan is under way, whether the user chooser is open, and
/// how many games Steam's files and the store reported.
pub struct GameLibraryState {
    pub cloud_games: Vec<CloudGameInfo>,
    pub show_game_selector: bool,
    pub is_scanning_games: bool,
    pub show_user_selector: bool,
    pub vdf_count: usize,
    pub cdp_count: usize,
}

impl Default for GameLibraryState {
    fn default() -> (r: Self)
        ensures
            r.cloud_games@.len() == 0,
            !r.show_game_selector,
            !r.is_scanning_games,
            !r.show_user_selector,
            r.vdf_count == 0,
            r.cdp_count == 0,
    {
        GameLibraryState {
            cloud_games: Vec::new(),
            show_game_selector: false,
            is_scanning_games: false,
            show_user_selector: false,
            vdf_count: 0,
            cdp_count: 0,
        }
    }
}

/// The dialogs: the error message box, the settings, the warning shown when
/// Steam runs without its debugging port, and the backup dialog.
pub struct DialogState {
    pub show_error: bool,
    pub error_message: String,
    pub show_settings: bool,
    pub show_debug_warning: bool,
    pub show_backup: bool,
}

impl DialogState {
    /// The dialogs closed; the debugging warning shows when Steam's debugging
    /// port is not open.
    pub fn new(cdp_running: bool) -> (r: Self)
        ensures
            !r.show_error,
            r.error_message@.len() == 0,
            !r.show_settings,
            r.show_debug_warning == !cdp_running,
            !r.show_backup,
    {
        DialogState {
            show_error: false,
            error_message: String::new(),
            show_settings: false,
            show_debug_warning: !cdp_running,
            show_backup: false,
        }
    }

    /// Opens the error message box with `message`.
    pub fn show_error(&mut self, message: &str)
        ensures
            final(self).show_error,
            final(self).error_message@ == message@,
            final(self).show_settings == old(self).show_settings,
            final(self).show_debug_warning == old(self).show_debug_warning,
            final(self).show_backup == old(self).show_backup,
    {
        self.error_message = String::from_str(message);
        self.show_error = true;
    }
}

/// The status line, the cloud quota (total and available bytes) once known,
/// and the message catalogue.
pub struct MiscState {
    pub status_message: String,
    pub quota_info: Option<(u64, u64)>,
    pub i18n: I18n,
}

impl Default for MiscState {
    fn default() -> (r: Self)
        ensures
            r.i18n.lang() == Language::Chinese,
            r.status_message@ == "请输入App ID并连接到Steam"@,
            r.quota_info is None,
    {
        let i18n = I18n::new(Language::Chinese);
        let status_message = String::from_str(i18n.status_enter_app_id());
        MiscState { status_message, quota_info: None, i18n }
    }
}


/// The address that opens a game's cloud storage page in the Steam client.
pub open spec fn storage_page_text(app_id: u32) -> Seq<char> {
    "steam://openurl/https://store.steampowered.com/account/remotestorageapp/?appid="@
        + crate::text::decimal(app_id as nat)
}

/// The address that opens game `app_id`'s cloud storage page in the Steam client.
pub fn storage_page_url(app_id: u32) -> (r: String)
    ensures
        r@ == storage_page_text(app_id),
{
    let mut r = String::from_str("steam://openurl/https://store.steampowered.com/account/remotestorageapp/?appid=");
    crate::text::append_decimal(&mut r, app_id as u64);
    r
}

/// The address of the storage page of the game whose app id is typed in:
/// none when the text is not a `u32`.
pub fn cloud_url_for_input(app_id_input: &str) -> (r: Option<String>)
    ensures
        match crate::text::parse_unsigned(app_id_input@, u32::MAX as int) {
            Some(id) => r matches Some(u) && u@ == storage_page_text(id as u32),
            None => r is None,
        },
{
    match crate::text::parse_u32(app_id_input) {
        Some(id) => Some(storage_page_url(id)),
        None => None,
    }
}

/// Takes in the outcome of connecting to Steam at clock reading `now`: on
/// success the connection stands from `now`, the status line tells that game
/// `app_id`'s files are loading, and the address of its storage page is
/// returned to be opened; on failure connecting stops and the error box
/// shows the reason.
pub fn handle_connect_result(
    result: Result<u32, String>,
    connection: &mut ConnectionState,
    misc: &mut MiscState,
    dialogs: &mut DialogState,
    now: u64,
) -> (r: Option<String>)
    ensures
        !final(connection).is_connecting,
        final(connection).app_id_input == old(connection).app_id_input,
        final(connection).remote_ready == old(connection).remote_ready,
        final(misc).i18n == old(misc).i18n,
        final(misc).quota_info == old(misc).quota_info,
        match result {
            Ok(app_id) => {
                &&& r matches Some(u) && u@ == storage_page_text(app_id)
                &&& final(connection).is_connected
                &&& final(connection).since_connected == Some(now)
                &&& final(misc).status_message@ == (match old(misc).i18n.lang() {
                    Language::English => "Loading file list (App ID: "@ + crate::text::decimal(app_id as nat) + ")..."@,
                    Language::Chinese => "正在加载文件列表 (App ID: "@ + crate::text::decimal(app_id as nat) + ")..."@,
                })
                &&& final(dialogs).show_error == old(dialogs).show_error
                &&& final(dialogs).error_message == old(dialogs).error_message
            },
            Err(e) => {
                &&& r is None
                &&& final(connection).is_connected == old(connection).is_connected
                &&& final(connection).since_connected == old(connection).since_connected
                &&& final(misc).status_message == old(misc).status_message
                &&& final(dialogs).show_error
                &&& final(dialogs).error_message@ == (match old(misc).i18n.lang() {
                    Language::English => "Failed to connect to Steam: "@ + e@,
                    Language::Chinese => "连接Steam失败: "@ + e@,
                })
            },
        },
        final(dialogs).show_settings == old(dialogs).show_settings,
        final(dialogs).show_debug_warning == old(dialogs).show_debug_warning,
        final(dialogs).show_backup == old(dialogs).show_backup,
{
    match result {
        Ok(app_id) => {
            connection.is_connecting = false;
            connection.is_connected = true;
            misc.status_message = misc.i18n.loading_files_for_app(app_id);
            connection.since_connected = Some(now);
            Some(storage_page_url(app_id))
        },
        Err(err) => {
            connection.is_connecting = false;
            let message = misc.i18n.connect_steam_failed(err.as_str());
            dialogs.show_error(message.as_str());
            None
        },
    }
}


/// Takes in the outcome of a game scan: on success the library holds the
/// games and the counts, the status line is cleared, and the error box tells
/// that the store gave nothing when it listed no game although its debugging
/// port is open (`cdp_running`); on failure the error box shows the reason.
/// Either way the scan is over.
pub fn handle_scan_games_result(
    result: Result<crate::game_scanner::ScanResult, String>,
    cdp_running: bool,
    game_library: &mut GameLibraryState,
    misc: &mut MiscState,
    dialogs: &mut DialogState,
)
    ensures
        !final(game_library).is_scanning_games,
        final(game_library).show_game_selector == old(game_library).show_game_selector,
        final(game_library).show_user_selector == old(game_library).show_user_selector,
        final(misc).i18n == old(misc).i18n,
        final(misc).quota_info == old(misc).quota_info,
        final(dialogs).show_settings == old(dialogs).show_settings,
        final(dialogs).show_debug_warning == old(dialogs).show_debug_warning,
        final(dialogs).show_backup == old(dialogs).show_backup,
        match result {
            Ok(sr) => {
                &&& final(game_library).cloud_games == sr.games
                &&& final(game_library).vdf_count == sr.vdf_count
                &&& final(game_library).cdp_count == sr.cdp_count
                &&& final(misc).status_message@.len() == 0
                &&& if sr.cdp_count == 0 && cdp_running {
                    &&& final(dialogs).show_error
                    &&& final(dialogs).error_message@ == (match old(misc).i18n.lang() {
                        Language::English => "CDP failed to get game data!\n\nPossible reasons:\n1. Steam client not responding to redirect request\n2. Page not fully loaded\n3. Not logged into Steam web\n\n"@,
                        Language::Chinese => "CDP 未获取到游戏数据！\n\n可能原因：\n1. Steam 客户端未响应跳转请求\n2. 页面加载未完成\n3. 未登录 Steam 网页\n\n"@,
                    })
                } else {
                    &&& final(dialogs).show_error == old(dialogs).show_error
                    &&& final(dialogs).error_message == old(dialogs).error_message
                }
            },
            Err(e) => {
                &&& final(game_library).cloud_games == old(game_library).cloud_games
                &&& final(game_library).vdf_count == old(game_library).vdf_count
                &&& final(game_library).cdp_count == old(game_library).cdp_count
                &&& final(misc).status_message == old(misc).status_message
                &&& final(dialogs).show_error
                &&& final(dialogs).error_message@ == (match old(misc).i18n.lang() {
                    Language::English => "Failed to scan games: "@ + e@,
                    Language::Chinese => "扫描游戏失败: "@ + e@,
                })
            },
        },
{
    match result {
        Ok(result) => {
            game_library.cloud_games = result.games;
            game_library.vdf_count = result.vdf_count;
            game_library.cdp_count = result.cdp_count;
            misc.status_message = String::new();
            if result.cdp_count == 0 && cdp_running {
                dialogs.show_error(misc.i18n.cdp_no_data_error());
            }
            game_library.is_scanning_games = false;
        },
        Err(err) => {
            let message = misc.i18n.scan_games_failed(err.as_str());
            dialogs.show_error(message.as_str());
            game_library.is_scanning_games = false;
        },
    }
}

/// The quota shown for game `app_id`: none for app id 0 or without a quota
/// above 0; else the quota and what is left of it after `used` bytes.
pub fn quota_info(app_id: u32, quota: Option<u64>, used: u64) -> (r: Option<(u64, u64)>)
    ensures
        r == (if app_id == 0 {
            None
        } else {
            match quota {
                Some(q) => if q > 0 {
                    Some((q, if q >= used { (q - used) as u64 } else { 0u64 }))
                } else {
                    None
                },
                None => None,
            }
        }),
{
    if app_id == 0 {
        return None;
    }
    match quota {
        Some(total) => if total > 0 {
            Some((total, total.saturating_sub(used)))
        } else {
            None
        },
        None => None,
    }
}

} // verus!
