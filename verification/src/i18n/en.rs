//! English message texts.
use vstd::prelude::*;
use vstd::string::*;
use crate::icons;
use crate::text::{append_decimal, append_signed_decimal};

verus! {

pub fn language_label() -> (r: &'static str)
    ensures
        r@ == "Language:"@,
{
    "Language:"
}

pub fn app_title() -> (r: &'static str)
    ensures
        r@ == "Steam Cloud File Manager"@,
{
    "Steam Cloud File Manager"
}

pub fn refresh() -> (r: &'static str)
    ensures
        r@ == "Refresh"@,
{
    "Refresh"
}

pub fn cancel() -> (r: &'static str)
    ensures
        r@ == "Cancel"@,
{
    "Cancel"
}

pub fn close() -> (r: &'static str)
    ensures
        r@ == "Close"@,
{
    "Close"
}

pub fn ok() -> (r: &'static str)
    ensures
        r@ == "OK"@,
{
    "OK"
}

pub fn logged_in() -> (r: &'static str)
    ensures
        r@ == "Logged In"@,
{
    "Logged In"
}

pub fn not_logged_in() -> (r: &'static str)
    ensures
        r@ == "Not Logged In"@,
{
    "Not Logged In"
}

pub fn connect() -> (r: &'static str)
    ensures
        r@ == "Connect"@,
{
    "Connect"
}

pub fn disconnect() -> (r: &'static str)
    ensures
        r@ == "Disconnect"@,
{
    "Disconnect"
}

pub fn disconnect_sync_hint() -> (r: &'static str)
    ensures
        r@ == "Steam will auto-sync after disconnect"@,
{
    "Steam will auto-sync after disconnect"
}

pub fn refresh_open_url_hint() -> (r: &'static str)
    ensures
        r@ == "Open cloud storage page in Steam"@,
{
    "Open cloud storage page in Steam"
}

pub fn show_appinfo_vdf() -> (r: &'static str)
    ensures
        r@ == "Configure appinfo.vdf"@,
{
    "Configure appinfo.vdf"
}

pub fn account_cloud_status() -> (r: &'static str)
    ensures
        r@ == "Account Cloud"@,
{
    "Account Cloud"
}

pub fn select_account() -> (r: &'static str)
    ensures
        r@ == "Accounts"@,
{
    "Accounts"
}

pub fn select_game() -> (r: &'static str)
    ensures
        r@ == "Game Library"@,
{
    "Game Library"
}

pub fn select_all() -> (r: &'static str)
    ensures
        r@ == "Select All"@,
{
    "Select All"
}

pub fn invert_selection() -> (r: &'static str)
    ensures
        r@ == "Invert"@,
{
    "Invert"
}

pub fn clear_selection() -> (r: &'static str)
    ensures
        r@ == "Clear"@,
{
    "Clear"
}

pub fn download() -> (r: &'static str)
    ensures
        r@ == "Download"@,
{
    "Download"
}

pub fn upload() -> (r: &'static str)
    ensures
        r@ == "Upload"@,
{
    "Upload"
}

pub fn delete() -> (r: &'static str)
    ensures
        r@ == "Delete"@,
{
    "Delete"
}

pub fn forget() -> (r: &'static str)
    ensures
        r@ == "Forget"@,
{
    "Forget"
}

pub fn sync_to_cloud() -> (r: &'static str)
    ensures
        r@ == "Sync"@,
{
    "Sync"
}

pub fn file_name() -> (r: &'static str)
    ensures
        r@ == "File Name"@,
{
    "File Name"
}

pub fn size() -> (r: &'static str)
    ensures
        r@ == "Size"@,
{
    "Size"
}

pub fn selected_count(count: usize) -> (r: String)
    ensures
        r@ == crate::text::decimal(count as nat) + " selected"@,
{
    let mut s = String::new();
    append_decimal(&mut s, count as u64);
    s.append(" selected");
    proof {
        assert(s@ =~= crate::text::decimal(count as nat) + " selected"@);
    }
    s
}

pub fn select_game_title() -> (r: &'static str)
    ensures
        r@ == "Select Game"@,
{
    "Select Game"
}

pub fn settings_title() -> (r: &'static str)
    ensures
        r@ == "Settings"@,
{
    "Settings"
}

pub fn settings_log() -> (r: &'static str)
    ensures
        r@ == "Log"@,
{
    "Log"
}

pub fn settings_about() -> (r: &'static str)
    ensures
        r@ == "About"@,
{
    "About"
}

pub fn settings_appearance() -> (r: &'static str)
    ensures
        r@ == "Appearance"@,
{
    "Appearance"
}

pub fn settings_advanced() -> (r: &'static str)
    ensures
        r@ == "Advanced"@,
{
    "Advanced"
}

pub fn steam_path_label() -> (r: &'static str)
    ensures
        r@ == "Steam Install Path"@,
{
    "Steam Install Path"
}

pub fn steam_path_auto_detect() -> (r: &'static str)
    ensures
        r@ == "Auto Detect"@,
{
    "Auto Detect"
}

pub fn steam_path_browse() -> (r: &'static str)
    ensures
        r@ == "Browse..."@,
{
    "Browse..."
}

pub fn steam_path_valid(user_count: usize) -> (r: String)
    ensures
        r@ == "✓ Valid path ("@ + crate::text::decimal(user_count as nat) + " user"@ + (if user_count != 1 { "s"@ } else { ""@ }) + " found)"@,
{
    let mut s = String::new();
    s.append("✓ Valid path (");
    append_decimal(&mut s, user_count as u64);
    s.append(" user");
    if user_count != 1 {
        s.append("s");
    } else {
        s.append("");
    }
    s.append(" found)");
    proof {
        assert(s@ =~= "✓ Valid path ("@ + crate::text::decimal(user_count as nat) + " user"@ + (if user_count != 1 { "s"@ } else { ""@ }) + " found)"@);
    }
    s
}

pub fn steam_path_not_exists() -> (r: &'static str)
    ensures
        r@ == "✗ Path not exists"@,
{
    "✗ Path not exists"
}

pub fn steam_path_no_userdata() -> (r: &'static str)
    ensures
        r@ == "✗ Missing userdata folder"@,
{
    "✗ Missing userdata folder"
}

pub fn steam_path_no_users() -> (r: &'static str)
    ensures
        r@ == "✗ No users found"@,
{
    "✗ No users found"
}

pub fn steam_path_hint() -> (r: &'static str)
    ensures
        r@ == "💡 Select directory manually if Steam is in non-standard location"@,
{
    "💡 Select directory manually if Steam is in non-standard location"
}

pub fn steam_path_restart_hint() -> (r: &'static str)
    ensures
        r@ == "Restart required after changing"@,
{
    "Restart required after changing"
}

pub fn reset_all_settings() -> (r: &'static str)
    ensures
        r@ == "Reset All Settings"@,
{
    "Reset All Settings"
}

pub fn reset_confirm() -> (r: &'static str)
    ensures
        r@ == "Reset all settings to default?"@,
{
    "Reset all settings to default?"
}

pub fn config_dir_label() -> (r: &'static str)
    ensures
        r@ == "Config File:"@,
{
    "Config File:"
}

pub fn open_config_dir() -> (r: &'static str)
    ensures
        r@ == "Open Config Directory"@,
{
    "Open Config Directory"
}

pub fn theme_mode_label() -> (r: &'static str)
    ensures
        r@ == "Theme Mode:"@,
{
    "Theme Mode:"
}

pub fn error_title() -> (r: &'static str)
    ensures
        r@ == "Error"@,
{
    "Error"
}

pub fn author() -> (r: &'static str)
    ensures
        r@ == "Author:"@,
{
    "Author:"
}

pub fn github_repository() -> (r: &'static str)
    ensures
        r@ == "Github Repository:"@,
{
    "Github Repository:"
}

pub fn connecting() -> (r: &'static str)
    ensures
        r@ == "Connecting..."@,
{
    "Connecting..."
}

pub fn games_with_cloud(count: usize) -> (r: String)
    ensures
        r@ == crate::text::decimal(count as nat) + " game"@ + (if count != 1 { "s"@ } else { ""@ }) + " with cloud saves"@,
{
    let mut s = String::new();
    append_decimal(&mut s, count as u64);
    s.append(" game");
    if count != 1 {
        s.append("s");
    } else {
        s.append("");
    }
    s.append(" with cloud saves");
    proof {
        assert(s@ =~= crate::text::decimal(count as nat) + " game"@ + (if count != 1 { "s"@ } else { ""@ }) + " with cloud saves"@);
    }
    s
}

pub fn scanning_games() -> (r: &'static str)
    ensures
        r@ == "Scanning game library..."@,
{
    "Scanning game library..."
}

pub fn no_cloud_games_found() -> (r: &'static str)
    ensures
        r@ == "No games with cloud saves found"@,
{
    "No games with cloud saves found"
}

pub fn installed() -> (r: &'static str)
    ensures
        r@ == "Installed"@,
{
    "Installed"
}

pub fn not_installed() -> (r: &'static str)
    ensures
        r@ == "Not Installed"@,
{
    "Not Installed"
}

pub fn select_user() -> (r: &'static str)
    ensures
        r@ == "Select User"@,
{
    "Select User"
}

pub fn user_id() -> (r: &'static str)
    ensures
        r@ == "User ID"@,
{
    "User ID"
}

pub fn current_user() -> (r: &'static str)
    ensures
        r@ == "Current User"@,
{
    "Current User"
}

pub fn switch() -> (r: &'static str)
    ensures
        r@ == "Switch"@,
{
    "Switch"
}

pub fn steam_users(count: usize) -> (r: String)
    ensures
        r@ == crate::text::decimal(count as nat) + " Steam user"@ + (if count != 1 { "s"@ } else { ""@ }),
{
    let mut s = String::new();
    append_decimal(&mut s, count as u64);
    s.append(" Steam user");
    if count != 1 {
        s.append("s");
    } else {
        s.append("");
    }
    proof {
        assert(s@ =~= crate::text::decimal(count as nat) + " Steam user"@ + (if count != 1 { "s"@ } else { ""@ }));
    }
    s
}

pub fn checking_update() -> (r: String)
    ensures
        r@ == seq!['\u{EB44}'] + " Checking..."@,
{
    let mut s = String::new();
    s.append(icons::spinner());
    s.append(" Checking...");
    proof {
        assert(s@ =~= seq!['\u{EB44}'] + " Checking..."@);
    }
    s
}

pub fn check_update_btn() -> (r: String)
    ensures
        r@ == seq!['\u{E094}'] + " Check Update"@,
{
    let mut s = String::new();
    s.append(icons::refresh());
    s.append(" Check Update");
    proof {
        assert(s@ =~= seq!['\u{E094}'] + " Check Update"@);
    }
    s
}

pub fn already_latest() -> (r: String)
    ensures
        r@ == seq!['\u{E182}'] + " Already up to date"@,
{
    let mut s = String::new();
    s.append(icons::check());
    s.append(" Already up to date");
    proof {
        assert(s@ =~= seq!['\u{E182}'] + " Already up to date"@);
    }
    s
}

pub fn new_version_found(version: &str) -> (r: String)
    ensures
        r@ == "🎉 New version available: "@ + version@,
{
    let mut s = String::new();
    s.append("🎉 New version available: ");
    s.append(version);
    proof {
        assert(s@ =~= "🎉 New version available: "@ + version@);
    }
    s
}

pub fn new_version_hint() -> (r: &'static str)
    ensures
        r@ == "New version found, click to download and install:"@,
{
    "New version found, click to download and install:"
}

pub fn download_and_install() -> (r: String)
    ensures
        r@ == seq!['\u{E20C}'] + " Download & Install"@,
{
    let mut s = String::new();
    s.append(icons::download());
    s.append(" Download & Install");
    proof {
        assert(s@ =~= seq!['\u{E20C}'] + " Download & Install"@);
    }
    s
}

pub fn view_details() -> (r: String)
    ensures
        r@ == seq!['\u{E288}'] + " View Details"@,
{
    let mut s = String::new();
    s.append(icons::globe());
    s.append(" View Details");
    proof {
        assert(s@ =~= seq!['\u{E288}'] + " View Details"@);
    }
    s
}

pub fn downloading_update() -> (r: String)
    ensures
        r@ == seq!['\u{E20C}'] + " Downloading update..."@,
{
    let mut s = String::new();
    s.append(icons::download());
    s.append(" Downloading update...");
    proof {
        assert(s@ =~= seq!['\u{E20C}'] + " Downloading update..."@);
    }
    s
}

pub fn installing_update() -> (r: String)
    ensures
        r@ == seq!['\u{E270}'] + " Installing update..."@,
{
    let mut s = String::new();
    s.append(icons::gear());
    s.append(" Installing update...");
    proof {
        assert(s@ =~= seq!['\u{E270}'] + " Installing update..."@);
    }
    s
}

pub fn update_success() -> (r: String)
    ensures
        r@ == seq!['\u{E182}'] + " Update installed successfully!"@,
{
    let mut s = String::new();
    s.append(icons::check());
    s.append(" Update installed successfully!");
    proof {
        assert(s@ =~= seq!['\u{E182}'] + " Update installed successfully!"@);
    }
    s
}

pub fn restart_to_apply() -> (r: &'static str)
    ensures
        r@ == "Please restart the app to use the new version"@,
{
    "Please restart the app to use the new version"
}

pub fn restart_now() -> (r: String)
    ensures
        r@ == seq!['\u{E094}'] + " Restart Now"@,
{
    let mut s = String::new();
    s.append(icons::refresh());
    s.append(" Restart Now");
    proof {
        assert(s@ =~= seq!['\u{E094}'] + " Restart Now"@);
    }
    s
}

pub fn log_enabled_hint() -> (r: &'static str)
    ensures
        r@ == " Log storage enabled, restart to apply"@,
{
    " Log storage enabled, restart to apply"
}

pub fn log_disabled_hint() -> (r: &'static str)
    ensures
        r@ == " Log storage disabled, restart to apply"@,
{
    " Log storage disabled, restart to apply"
}

pub fn enable_log_storage() -> (r: &'static str)
    ensures
        r@ == "Enable Log Storage"@,
{
    "Enable Log Storage"
}

pub fn open_log_dir() -> (r: &'static str)
    ensures
        r@ == " Open Log Directory"@,
{
    " Open Log Directory"
}

pub fn log_dir_label() -> (r: &'static str)
    ensures
        r@ == "Log Directory:"@,
{
    "Log Directory:"
}

pub fn steam_log_dir_label() -> (r: &'static str)
    ensures
        r@ == "Steam Log Directory:"@,
{
    "Steam Log Directory:"
}

pub fn open_steam_log_dir() -> (r: &'static str)
    ensures
        r@ == " Open Steam Log Directory"@,
{
    " Open Steam Log Directory"
}

pub fn restarting_steam() -> (r: &'static str)
    ensures
        r@ == "Restarting Steam"@,
{
    "Restarting Steam"
}

pub fn manual_operation_required() -> (r: &'static str)
    ensures
        r@ == "Manual operation required:"@,
{
    "Manual operation required:"
}

pub fn i_understand() -> (r: &'static str)
    ensures
        r@ == "I Understand"@,
{
    "I Understand"
}

pub fn manual_restart_macos_title() -> (r: &'static str)
    ensures
        r@ == "Manual Restart Steam (macOS)"@,
{
    "Manual Restart Steam (macOS)"
}

pub fn manual_restart_windows_title() -> (r: &'static str)
    ensures
        r@ == "Manual Restart Steam (Windows)"@,
{
    "Manual Restart Steam (Windows)"
}

pub fn manual_restart_linux_title() -> (r: &'static str)
    ensures
        r@ == "Manual Restart Steam (Linux)"@,
{
    "Manual Restart Steam (Linux)"
}

pub fn prepare_upload() -> (r: &'static str)
    ensures
        r@ == "Prepare Upload"@,
{
    "Prepare Upload"
}

pub fn will_upload_files(count: usize) -> (r: String)
    ensures
        r@ == "Will upload "@ + crate::text::decimal(count as nat) + " file"@ + (if count != 1 { "s"@ } else { ""@ }) + " to Steam Cloud"@,
{
    let mut s = String::new();
    s.append("Will upload ");
    append_decimal(&mut s, count as u64);
    s.append(" file");
    if count != 1 {
        s.append("s");
    } else {
        s.append("");
    }
    s.append(" to Steam Cloud");
    proof {
        assert(s@ =~= "Will upload "@ + crate::text::decimal(count as nat) + " file"@ + (if count != 1 { "s"@ } else { ""@ }) + " to Steam Cloud"@);
    }
    s
}

pub fn total_size_label(size: &str) -> (r: String)
    ensures
        r@ == "Total size: "@ + size@,
{
    let mut s = String::new();
    s.append("Total size: ");
    s.append(size);
    proof {
        assert(s@ =~= "Total size: "@ + size@);
    }
    s
}

pub fn warning() -> (r: String)
    ensures
        r@ == seq!['\u{E4E0}'] + " Warning:"@,
{
    let mut s = String::new();
    s.append(icons::warning());
    s.append(" Warning:");
    proof {
        assert(s@ =~= seq!['\u{E4E0}'] + " Warning:"@);
    }
    s
}

pub fn overwrite_warning() -> (r: &'static str)
    ensures
        r@ == "• Files with same name will be overwritten"@,
{
    "• Files with same name will be overwritten"
}

pub fn add_files() -> (r: String)
    ensures
        r@ == seq!['\u{E236}'] + " Add Files"@,
{
    let mut s = String::new();
    s.append(icons::add_file());
    s.append(" Add Files");
    proof {
        assert(s@ =~= seq!['\u{E236}'] + " Add Files"@);
    }
    s
}

pub fn add_folder() -> (r: String)
    ensures
        r@ == seq!['\u{E258}'] + " Add Folder"@,
{
    let mut s = String::new();
    s.append(icons::add_folder());
    s.append(" Add Folder");
    proof {
        assert(s@ =~= seq!['\u{E258}'] + " Add Folder"@);
    }
    s
}

pub fn confirm_upload() -> (r: String)
    ensures
        r@ == seq!['\u{E182}'] + " Confirm Upload"@,
{
    let mut s = String::new();
    s.append(icons::check());
    s.append(" Confirm Upload");
    proof {
        assert(s@ =~= seq!['\u{E182}'] + " Confirm Upload"@);
    }
    s
}

pub fn remove_file() -> (r: &'static str)
    ensures
        r@ == "Remove"@,
{
    "Remove"
}

pub fn cloud_path() -> (r: &'static str)
    ensures
        r@ == "Cloud Path"@,
{
    "Cloud Path"
}

pub fn edit_path() -> (r: &'static str)
    ensures
        r@ == "Edit Path"@,
{
    "Edit Path"
}

pub fn local_file() -> (r: &'static str)
    ensures
        r@ == "Local File"@,
{
    "Local File"
}

pub fn no_files_to_upload() -> (r: &'static str)
    ensures
        r@ == "No files to upload, please add files"@,
{
    "No files to upload, please add files"
}

pub fn clear_all() -> (r: &'static str)
    ensures
        r@ == "Clear All"@,
{
    "Clear All"
}

pub fn uploading_files() -> (r: String)
    ensures
        r@ == seq!['\u{E4C0}'] + " Uploading Files"@,
{
    let mut s = String::new();
    s.append(icons::upload());
    s.append(" Uploading Files");
    proof {
        assert(s@ =~= seq!['\u{E4C0}'] + " Uploading Files"@);
    }
    s
}

pub fn uploading_file(name: &str) -> (r: String)
    ensures
        r@ == "Uploading: "@ + name@,
{
    let mut s = String::new();
    s.append("Uploading: ");
    s.append(name);
    proof {
        assert(s@ =~= "Uploading: "@ + name@);
    }
    s
}

pub fn upload_progress(current: usize, total: usize) -> (r: String)
    ensures
        r@ == "Progress: "@ + crate::text::decimal(current as nat) + " / "@ + crate::text::decimal(total as nat) + " files"@,
{
    let mut s = String::new();
    s.append("Progress: ");
    append_decimal(&mut s, current as u64);
    s.append(" / ");
    append_decimal(&mut s, total as u64);
    s.append(" files");
    proof {
        assert(s@ =~= "Progress: "@ + crate::text::decimal(current as nat) + " / "@ + crate::text::decimal(total as nat) + " files"@);
    }
    s
}

pub fn speed(speed_text: &str) -> (r: String)
    ensures
        r@ == "Speed: "@ + speed_text@ + "/s"@,
{
    let mut s = String::new();
    s.append("Speed: ");
    s.append(speed_text);
    s.append("/s");
    proof {
        assert(s@ =~= "Speed: "@ + speed_text@ + "/s"@);
    }
    s
}

pub fn upload_complete() -> (r: String)
    ensures
        r@ == seq!['\u{E182}'] + " Upload Complete"@,
{
    let mut s = String::new();
    s.append(icons::check());
    s.append(" Upload Complete");
    proof {
        assert(s@ =~= seq!['\u{E182}'] + " Upload Complete"@);
    }
    s
}

pub fn upload_success(count: usize) -> (r: String)
    ensures
        r@ == seq!['\u{E3FC}'] + " Successfully uploaded "@ + crate::text::decimal(count as nat) + " file"@ + (if count != 1 { "s"@ } else { ""@ }),
{
    let mut s = String::new();
    s.append(icons::rocket());
    s.append(" Successfully uploaded ");
    append_decimal(&mut s, count as u64);
    s.append(" file");
    if count != 1 {
        s.append("s");
    } else {
        s.append("");
    }
    proof {
        assert(s@ =~= seq!['\u{E3FC}'] + " Successfully uploaded "@ + crate::text::decimal(count as nat) + " file"@ + (if count != 1 { "s"@ } else { ""@ }));
    }
    s
}

pub fn upload_partial(success: usize, failed: usize) -> (r: String)
    ensures
        r@ == seq!['\u{E4E0}'] + " Upload complete: "@ + crate::text::decimal(success as nat) + " succeeded, "@ + crate::text::decimal(failed as nat) + " failed"@,
{
    let mut s = String::new();
    s.append(icons::warning());
    s.append(" Upload complete: ");
    append_decimal(&mut s, success as u64);
    s.append(" succeeded, ");
    append_decimal(&mut s, failed as u64);
    s.append(" failed");
    proof {
        assert(s@ =~= seq!['\u{E4E0}'] + " Upload complete: "@ + crate::text::decimal(success as nat) + " succeeded, "@ + crate::text::decimal(failed as nat) + " failed"@);
    }
    s
}

pub fn elapsed_time(secs: u64) -> (r: String)
    ensures
        r@ == "Time: "@ + crate::text::decimal(secs as nat) + " second"@ + (if secs != 1 { "s"@ } else { ""@ }),
{
    let mut s = String::new();
    s.append("Time: ");
    append_decimal(&mut s, secs as u64);
    s.append(" second");
    if secs != 1 {
        s.append("s");
    } else {
        s.append("");
    }
    proof {
        assert(s@ =~= "Time: "@ + crate::text::decimal(secs as nat) + " second"@ + (if secs != 1 { "s"@ } else { ""@ }));
    }
    s
}

pub fn avg_speed(speed: &str) -> (r: String)
    ensures
        r@ == "Avg speed: "@ + speed@ + "/s"@,
{
    let mut s = String::new();
    s.append("Avg speed: ");
    s.append(speed);
    s.append("/s");
    proof {
        assert(s@ =~= "Avg speed: "@ + speed@ + "/s"@);
    }
    s
}

pub fn failed_files() -> (r: &'static str)
    ensures
        r@ == "Failed files:"@,
{
    "Failed files:"
}

pub fn reason(err: &str) -> (r: String)
    ensures
        r@ == "  Reason: "@ + err@,
{
    let mut s = String::new();
    s.append("  Reason: ");
    s.append(err);
    proof {
        assert(s@ =~= "  Reason: "@ + err@);
    }
    s
}

pub fn closing_steam() -> (r: &'static str)
    ensures
        r@ == "Closing Steam..."@,
{
    "Closing Steam..."
}

pub fn starting_steam() -> (r: &'static str)
    ensures
        r@ == "Starting Steam..."@,
{
    "Starting Steam..."
}

pub fn steam_restart_success() -> (r: &'static str)
    ensures
        r@ == "Steam restarted successfully!"@,
{
    "Steam restarted successfully!"
}

pub fn user_switched() -> (r: &'static str)
    ensures
        r@ == "User switched"@,
{
    "User switched"
}

pub fn error_enter_app_id() -> (r: &'static str)
    ensures
        r@ == "Please enter App ID"@,
{
    "Please enter App ID"
}

pub fn error_invalid_app_id() -> (r: &'static str)
    ensures
        r@ == "Invalid App ID"@,
{
    "Invalid App ID"
}

pub fn status_enter_app_id() -> (r: &'static str)
    ensures
        r@ == "Enter App ID and connect to Steam"@,
{
    "Enter App ID and connect to Steam"
}

pub fn status_loading_files() -> (r: &'static str)
    ensures
        r@ == "Loading file list..."@,
{
    "Loading file list..."
}

pub fn status_files_loaded(count: usize) -> (r: String)
    ensures
        r@ == "Loaded "@ + crate::text::decimal(count as nat) + " file"@ + (if count != 1 { "s"@ } else { ""@ }),
{
    let mut s = String::new();
    s.append("Loaded ");
    append_decimal(&mut s, count as u64);
    s.append(" file");
    if count != 1 {
        s.append("s");
    } else {
        s.append("");
    }
    proof {
        assert(s@ =~= "Loaded "@ + crate::text::decimal(count as nat) + " file"@ + (if count != 1 { "s"@ } else { ""@ }));
    }
    s
}

pub fn upload_failed(err: &str) -> (r: String)
    ensures
        r@ == "Upload failed: "@ + err@,
{
    let mut s = String::new();
    s.append("Upload failed: ");
    s.append(err);
    proof {
        assert(s@ =~= "Upload failed: "@ + err@);
    }
    s
}

pub fn error_no_files_selected() -> (r: &'static str)
    ensures
        r@ == "Please select files to operate"@,
{
    "Please select files to operate"
}

pub fn error_not_connected() -> (r: &'static str)
    ensures
        r@ == "Not connected to Steam"@,
{
    "Not connected to Steam"
}

pub fn hint_you_can() -> (r: &'static str)
    ensures
        r@ == "You can:"@,
{
    "You can:"
}

pub fn hint_select_game() -> (r: &'static str)
    ensures
        r@ == "Click 'Game Library' button above to choose a game"@,
{
    "Click 'Game Library' button above to choose a game"
}

pub fn hint_enter_app_id() -> (r: &'static str)
    ensures
        r@ == "Or enter App ID directly and click 'Connect'"@,
{
    "Or enter App ID directly and click 'Connect'"
}

pub fn no_cloud_files() -> (r: &'static str)
    ensures
        r@ == "No cloud files found"@,
{
    "No cloud files found"
}

pub fn no_cloud_files_hint() -> (r: &'static str)
    ensures
        r@ == "This game has no cloud save files"@,
{
    "This game has no cloud save files"
}

pub fn scan_games_failed(err: &str) -> (r: String)
    ensures
        r@ == "Failed to scan games: "@ + err@,
{
    let mut s = String::new();
    s.append("Failed to scan games: ");
    s.append(err);
    proof {
        assert(s@ =~= "Failed to scan games: "@ + err@);
    }
    s
}

pub fn refresh_files_failed(err: &str) -> (r: String)
    ensures
        r@ == "Failed to refresh file list: "@ + err@,
{
    let mut s = String::new();
    s.append("Failed to refresh file list: ");
    s.append(err);
    proof {
        assert(s@ =~= "Failed to refresh file list: "@ + err@);
    }
    s
}

pub fn cdp_no_data_error() -> (r: &'static str)
    ensures
        r@ == "CDP failed to get game data!\n\nPossible reasons:\n1. Steam client not responding to redirect request\n2. Page not fully loaded\n3. Not logged into Steam web\n\n"@,
{
    "CDP failed to get game data!\n\nPossible reasons:\n1. Steam client not responding to redirect request\n2. Page not fully loaded\n3. Not logged into Steam web\n\n"
}

pub fn connecting_to_steam(app_id: u32) -> (r: String)
    ensures
        r@ == "Connecting to Steam (App ID: "@ + crate::text::decimal(app_id as nat) + ")..."@,
{
    let mut s = String::new();
    s.append("Connecting to Steam (App ID: ");
    append_decimal(&mut s, app_id as u64);
    s.append(")...");
    proof {
        assert(s@ =~= "Connecting to Steam (App ID: "@ + crate::text::decimal(app_id as nat) + ")..."@);
    }
    s
}

pub fn loading_files_for_app(app_id: u32) -> (r: String)
    ensures
        r@ == "Loading file list (App ID: "@ + crate::text::decimal(app_id as nat) + ")..."@,
{
    let mut s = String::new();
    s.append("Loading file list (App ID: ");
    append_decimal(&mut s, app_id as u64);
    s.append(")...");
    proof {
        assert(s@ =~= "Loading file list (App ID: "@ + crate::text::decimal(app_id as nat) + ")..."@);
    }
    s
}

pub fn connect_steam_failed(err: &str) -> (r: String)
    ensures
        r@ == "Failed to connect to Steam: "@ + err@,
{
    let mut s = String::new();
    s.append("Failed to connect to Steam: ");
    s.append(err);
    proof {
        assert(s@ =~= "Failed to connect to Steam: "@ + err@);
    }
    s
}

pub fn vdf_parser_not_initialized() -> (r: &'static str)
    ensures
        r@ == "VDF parser not initialized"@,
{
    "VDF parser not initialized"
}

pub fn scanning_game_library() -> (r: &'static str)
    ensures
        r@ == "Scanning game library..."@,
{
    "Scanning game library..."
}

pub fn drop_files_to_upload() -> (r: &'static str)
    ensures
        r@ == "Drop files to upload"@,
{
    "Drop files to upload"
}

pub fn debug_mode_not_enabled() -> (r: String)
    ensures
        r@ == seq!['\u{E4E0}'] + " Steam Debug Mode Not Enabled"@,
{
    let mut s = String::new();
    s.append(icons::warning());
    s.append(" Steam Debug Mode Not Enabled");
    proof {
        assert(s@ =~= seq!['\u{E4E0}'] + " Steam Debug Mode Not Enabled"@);
    }
    s
}

pub fn steam_running() -> (r: String)
    ensures
        r@ == seq!['\u{E182}'] + " Steam is running"@,
{
    let mut s = String::new();
    s.append(icons::check());
    s.append(" Steam is running");
    proof {
        assert(s@ =~= seq!['\u{E182}'] + " Steam is running"@);
    }
    s
}

pub fn steam_not_running() -> (r: String)
    ensures
        r@ == seq!['\u{E4F6}'] + " Steam is not running"@,
{
    let mut s = String::new();
    s.append(icons::close());
    s.append(" Steam is not running");
    proof {
        assert(s@ =~= seq!['\u{E4F6}'] + " Steam is not running"@);
    }
    s
}

pub fn debug_mode_hint() -> (r: &'static str)
    ensures
        r@ == "CEF debug mode is required to access cloud data"@,
{
    "CEF debug mode is required to access cloud data"
}

pub fn auto_restart_steam() -> (r: &'static str)
    ensures
        r@ == "Auto Restart Steam"@,
{
    "Auto Restart Steam"
}

pub fn start_steam() -> (r: &'static str)
    ensures
        r@ == "Start Steam"@,
{
    "Start Steam"
}

pub fn auto_restart_hint() -> (r: &'static str)
    ensures
        r@ == "Automatically restart Steam with debug parameters"@,
{
    "Automatically restart Steam with debug parameters"
}

pub fn start_steam_hint() -> (r: &'static str)
    ensures
        r@ == "Start Steam in debug mode"@,
{
    "Start Steam in debug mode"
}

pub fn view_manual_steps() -> (r: &'static str)
    ensures
        r@ == "View Manual Steps"@,
{
    "View Manual Steps"
}

pub fn manual_steps_hint() -> (r: &'static str)
    ensures
        r@ == "Show how to manually add startup parameters"@,
{
    "Show how to manually add startup parameters"
}

pub fn dismiss_temporarily() -> (r: String)
    ensures
        r@ == seq!['\u{E4F6}'] + " Dismiss"@,
{
    let mut s = String::new();
    s.append(icons::close());
    s.append(" Dismiss");
    proof {
        assert(s@ =~= seq!['\u{E4F6}'] + " Dismiss"@);
    }
    s
}

pub fn dismiss_hint() -> (r: &'static str)
    ensures
        r@ == "Hide this hint (can be re-enabled in settings)"@,
{
    "Hide this hint (can be re-enabled in settings)"
}

pub fn status_label() -> (r: &'static str)
    ensures
        r@ == "Status:"@,
{
    "Status:"
}

pub fn cloud_on() -> (r: &'static str)
    ensures
        r@ == "Cloud: On"@,
{
    "Cloud: On"
}

pub fn cloud_off() -> (r: &'static str)
    ensures
        r@ == "Cloud: Off"@,
{
    "Cloud: Off"
}

pub fn select_all_hint() -> (r: &'static str)
    ensures
        r@ == "Select all files in the list"@,
{
    "Select all files in the list"
}

pub fn invert_selection_hint() -> (r: &'static str)
    ensures
        r@ == "Invert current selection"@,
{
    "Invert current selection"
}

pub fn clear_selection_hint() -> (r: &'static str)
    ensures
        r@ == "Deselect all files"@,
{
    "Deselect all files"
}

pub fn download_hint() -> (r: &'static str)
    ensures
        r@ == "Download selected files to local"@,
{
    "Download selected files to local"
}

pub fn upload_hint() -> (r: &'static str)
    ensures
        r@ == "Upload files or folders to cloud"@,
{
    "Upload files or folders to cloud"
}

pub fn delete_hint() -> (r: &'static str)
    ensures
        r@ == "Delete selected files from cloud and local"@,
{
    "Delete selected files from cloud and local"
}

pub fn forget_hint() -> (r: &'static str)
    ensures
        r@ == "Remove from cloud only, keep local files"@,
{
    "Remove from cloud only, keep local files"
}

pub fn sync_to_cloud_hint() -> (r: &'static str)
    ensures
        r@ == "Sync local files to cloud"@,
{
    "Sync local files to cloud"
}

pub fn connect_hint() -> (r: &'static str)
    ensures
        r@ == "Connect to Steam Cloud API"@,
{
    "Connect to Steam Cloud API"
}

pub fn disconnect_hint() -> (r: &'static str)
    ensures
        r@ == "Disconnect from Steam"@,
{
    "Disconnect from Steam"
}

pub fn select_account_hint() -> (r: &'static str)
    ensures
        r@ == "Switch Steam account"@,
{
    "Switch Steam account"
}

pub fn select_game_hint() -> (r: &'static str)
    ensures
        r@ == "Select game to manage cloud saves"@,
{
    "Select game to manage cloud saves"
}

pub fn local_save_path() -> (r: &'static str)
    ensures
        r@ == "Local Save Path:"@,
{
    "Local Save Path:"
}

pub fn local_save_path_not_found() -> (r: &'static str)
    ensures
        r@ == "Not found (files may only exist in cloud)"@,
{
    "Not found (files may only exist in cloud)"
}

pub fn search_files_placeholder() -> (r: &'static str)
    ensures
        r@ == "Search files or folders..."@,
{
    "Search files or folders..."
}

pub fn clear() -> (r: &'static str)
    ensures
        r@ == "Clear"@,
{
    "Clear"
}

pub fn only_local() -> (r: &'static str)
    ensures
        r@ == "Local Only"@,
{
    "Local Only"
}

pub fn only_cloud() -> (r: &'static str)
    ensures
        r@ == "Cloud Only"@,
{
    "Cloud Only"
}

pub fn only_local_tooltip() -> (r: &'static str)
    ensures
        r@ == "Show only files that exist locally but not in cloud"@,
{
    "Show only files that exist locally but not in cloud"
}

pub fn only_cloud_tooltip() -> (r: &'static str)
    ensures
        r@ == "Show only files that exist in cloud but not locally"@,
{
    "Show only files that exist in cloud but not locally"
}

pub fn root_folder() -> (r: &'static str)
    ensures
        r@ == "Root Folder"@,
{
    "Root Folder"
}

pub fn file_size() -> (r: &'static str)
    ensures
        r@ == "File Size"@,
{
    "File Size"
}

pub fn write_date() -> (r: &'static str)
    ensures
        r@ == "Write Date"@,
{
    "Write Date"
}

pub fn local() -> (r: &'static str)
    ensures
        r@ == "Local"@,
{
    "Local"
}

pub fn cloud() -> (r: &'static str)
    ensures
        r@ == "Cloud"@,
{
    "Cloud"
}

pub fn file_comparison_title() -> (r: &'static str)
    ensures
        r@ == "File Comparison"@,
{
    "File Comparison"
}

pub fn total_files_count(count: usize) -> (r: String)
    ensures
        r@ == crate::text::decimal(count as nat) + " files total"@,
{
    let mut s = String::new();
    append_decimal(&mut s, count as u64);
    s.append(" files total");
    proof {
        assert(s@ =~= crate::text::decimal(count as nat) + " files total"@);
    }
    s
}

pub fn filter_all() -> (r: &'static str)
    ensures
        r@ == "All"@,
{
    "All"
}

pub fn filter_conflicts() -> (r: &'static str)
    ensures
        r@ == "Conflicts"@,
{
    "Conflicts"
}

pub fn filter_local_newer() -> (r: &'static str)
    ensures
        r@ == "Local Newer"@,
{
    "Local Newer"
}

pub fn filter_cloud_newer() -> (r: &'static str)
    ensures
        r@ == "Cloud Newer"@,
{
    "Cloud Newer"
}

pub fn filter_synced() -> (r: &'static str)
    ensures
        r@ == "Synced"@,
{
    "Synced"
}

pub fn status_local_newer() -> (r: &'static str)
    ensures
        r@ == "Local↑"@,
{
    "Local↑"
}

pub fn status_cloud_newer() -> (r: &'static str)
    ensures
        r@ == "Cloud↓"@,
{
    "Cloud↓"
}

pub fn status_conflict() -> (r: &'static str)
    ensures
        r@ == "Conflict"@,
{
    "Conflict"
}

pub fn status_local_only() -> (r: &'static str)
    ensures
        r@ == "Local"@,
{
    "Local"
}

pub fn status_cloud_only() -> (r: &'static str)
    ensures
        r@ == "Cloud"@,
{
    "Cloud"
}

pub fn column_status() -> (r: &'static str)
    ensures
        r@ == "Status"@,
{
    "Status"
}

pub fn column_filename() -> (r: &'static str)
    ensures
        r@ == "Filename"@,
{
    "Filename"
}

pub fn column_local_size() -> (r: &'static str)
    ensures
        r@ == "Local Size"@,
{
    "Local Size"
}

pub fn column_cloud_size() -> (r: &'static str)
    ensures
        r@ == "Cloud Size"@,
{
    "Cloud Size"
}

pub fn column_local_time() -> (r: &'static str)
    ensures
        r@ == "Local Time"@,
{
    "Local Time"
}

pub fn column_cloud_time() -> (r: &'static str)
    ensures
        r@ == "Cloud Time"@,
{
    "Cloud Time"
}

pub fn selected_file() -> (r: &'static str)
    ensures
        r@ == "Selected:"@,
{
    "Selected:"
}

pub fn local_newer_by_minutes(mins: i64) -> (r: String)
    ensures
        r@ == "(local "@ + crate::text::signed_decimal(mins as int) + " mins newer)"@,
{
    let mut s = String::new();
    s.append("(local ");
    append_signed_decimal(&mut s, mins);
    s.append(" mins newer)");
    proof {
        assert(s@ =~= "(local "@ + crate::text::signed_decimal(mins as int) + " mins newer)"@);
    }
    s
}

pub fn cloud_newer_by_minutes(mins: i64) -> (r: String)
    ensures
        r@ == "(cloud "@ + crate::text::signed_decimal(mins as int) + " mins newer)"@,
{
    let mut s = String::new();
    s.append("(cloud ");
    append_signed_decimal(&mut s, mins);
    s.append(" mins newer)");
    proof {
        assert(s@ =~= "(cloud "@ + crate::text::signed_decimal(mins as int) + " mins newer)"@);
    }
    s
}

pub fn conflicts_warning(count: usize) -> (r: String)
    ensures
        r@ == crate::text::decimal(count as nat) + " conflicts detected, please resolve manually"@,
{
    let mut s = String::new();
    append_decimal(&mut s, count as u64);
    s.append(" conflicts detected, please resolve manually");
    proof {
        assert(s@ =~= crate::text::decimal(count as nat) + " conflicts detected, please resolve manually"@);
    }
    s
}

pub fn compare_files() -> (r: &'static str)
    ensures
        r@ == "Compare Files"@,
{
    "Compare Files"
}

pub fn compare_files_hint() -> (r: &'static str)
    ensures
        r@ == "Compare differences between local and cloud files"@,
{
    "Compare differences between local and cloud files"
}

pub fn backup() -> (r: &'static str)
    ensures
        r@ == "Backup"@,
{
    "Backup"
}

pub fn backup_title() -> (r: &'static str)
    ensures
        r@ == "Backup Cloud Saves"@,
{
    "Backup Cloud Saves"
}

pub fn backup_file_count(count: usize) -> (r: String)
    ensures
        r@ == crate::text::decimal(count as nat) + " files"@,
{
    let mut s = String::new();
    append_decimal(&mut s, count as u64);
    s.append(" files");
    proof {
        assert(s@ =~= crate::text::decimal(count as nat) + " files"@);
    }
    s
}

pub fn backup_total_size(size: &str) -> (r: String)
    ensures
        r@ == "Total size: "@ + size@,
{
    let mut s = String::new();
    s.append("Total size: ");
    s.append(size);
    proof {
        assert(s@ =~= "Total size: "@ + size@);
    }
    s
}

pub fn backup_cdp_warning(count: usize) -> (r: String)
    ensures
        r@ == seq!['\u{E4E0}'] + " "@ + crate::text::decimal(count as nat) + " files without download URL will be skipped"@,
{
    let mut s = String::new();
    s.append(icons::warning());
    s.append(" ");
    append_decimal(&mut s, count as u64);
    s.append(" files without download URL will be skipped");
    proof {
        assert(s@ =~= seq!['\u{E4E0}'] + " "@ + crate::text::decimal(count as nat) + " files without download URL will be skipped"@);
    }
    s
}

pub fn backup_file_list() -> (r: &'static str)
    ensures
        r@ == "File List"@,
{
    "File List"
}

pub fn backup_start() -> (r: &'static str)
    ensures
        r@ == "Start Backup"@,
{
    "Start Backup"
}

pub fn backup_open_dir() -> (r: &'static str)
    ensures
        r@ == "Open Backup Dir"@,
{
    "Open Backup Dir"
}

pub fn backup_progress_title() -> (r: &'static str)
    ensures
        r@ == "Backup Progress"@,
{
    "Backup Progress"
}

pub fn backup_in_progress() -> (r: &'static str)
    ensures
        r@ == "Backing up..."@,
{
    "Backing up..."
}

pub fn backup_complete() -> (r: String)
    ensures
        r@ == seq!['\u{E182}'] + " Backup Complete"@,
{
    let mut s = String::new();
    s.append(icons::check());
    s.append(" Backup Complete");
    proof {
        assert(s@ =~= seq!['\u{E182}'] + " Backup Complete"@);
    }
    s
}

pub fn backup_partial() -> (r: String)
    ensures
        r@ == seq!['\u{E4E0}'] + " Partially Complete"@,
{
    let mut s = String::new();
    s.append(icons::warning());
    s.append(" Partially Complete");
    proof {
        assert(s@ =~= seq!['\u{E4E0}'] + " Partially Complete"@);
    }
    s
}

pub fn backup_result_stats(success: usize, total: usize) -> (r: String)
    ensures
        r@ == "Success: "@ + crate::text::decimal(success as nat) + " / "@ + crate::text::decimal(total as nat),
{
    let mut s = String::new();
    s.append("Success: ");
    append_decimal(&mut s, success as u64);
    s.append(" / ");
    append_decimal(&mut s, total as u64);
    proof {
        assert(s@ =~= "Success: "@ + crate::text::decimal(success as nat) + " / "@ + crate::text::decimal(total as nat));
    }
    s
}

pub fn backup_failed_files() -> (r: &'static str)
    ensures
        r@ == "Failed files:"@,
{
    "Failed files:"
}

pub fn backup_hint() -> (r: &'static str)
    ensures
        r@ == "Backup all cloud saves for current game"@,
{
    "Backup all cloud saves for current game"
}

pub fn backup_dir_label() -> (r: &'static str)
    ensures
        r@ == "Backup Directory:"@,
{
    "Backup Directory:"
}

pub fn download_progress_title() -> (r: &'static str)
    ensures
        r@ == "Download Progress"@,
{
    "Download Progress"
}

pub fn download_in_progress() -> (r: &'static str)
    ensures
        r@ == "Downloading..."@,
{
    "Downloading..."
}

pub fn download_complete() -> (r: String)
    ensures
        r@ == seq!['\u{E182}'] + " Download Complete"@,
{
    let mut s = String::new();
    s.append(icons::check());
    s.append(" Download Complete");
    proof {
        assert(s@ =~= seq!['\u{E182}'] + " Download Complete"@);
    }
    s
}

pub fn download_partial_status() -> (r: String)
    ensures
        r@ == seq!['\u{E4E0}'] + " Partially Complete"@,
{
    let mut s = String::new();
    s.append(icons::warning());
    s.append(" Partially Complete");
    proof {
        assert(s@ =~= seq!['\u{E4E0}'] + " Partially Complete"@);
    }
    s
}

pub fn download_result_stats(success: usize, total: usize) -> (r: String)
    ensures
        r@ == "Success: "@ + crate::text::decimal(success as nat) + " / "@ + crate::text::decimal(total as nat),
{
    let mut s = String::new();
    s.append("Success: ");
    append_decimal(&mut s, success as u64);
    s.append(" / ");
    append_decimal(&mut s, total as u64);
    proof {
        assert(s@ =~= "Success: "@ + crate::text::decimal(success as nat) + " / "@ + crate::text::decimal(total as nat));
    }
    s
}

pub fn download_failed_files() -> (r: &'static str)
    ensures
        r@ == "Failed files:"@,
{
    "Failed files:"
}

pub fn download_open_dir() -> (r: &'static str)
    ensures
        r@ == "Open Download Dir"@,
{
    "Open Download Dir"
}

pub fn symlink_title() -> (r: &'static str)
    ensures
        r@ == "Symlink Management (Experimental)"@,
{
    "Symlink Management (Experimental)"
}

pub fn symlink_configured_links() -> (r: &'static str)
    ensures
        r@ == "Configured Symlinks"@,
{
    "Configured Symlinks"
}

pub fn symlink_no_configs() -> (r: &'static str)
    ensures
        r@ == "No symlink configurations"@,
{
    "No symlink configurations"
}

pub fn symlink_add_new() -> (r: &'static str)
    ensures
        r@ == "Add New Symlink"@,
{
    "Add New Symlink"
}

pub fn symlink_direction() -> (r: &'static str)
    ensures
        r@ == "Direction:"@,
{
    "Direction:"
}

pub fn symlink_local_path() -> (r: &'static str)
    ensures
        r@ == "Local Path:"@,
{
    "Local Path:"
}

pub fn symlink_remote_subfolder() -> (r: &'static str)
    ensures
        r@ == "Remote Subfolder:"@,
{
    "Remote Subfolder:"
}

pub fn symlink_browse() -> (r: &'static str)
    ensures
        r@ == "Browse"@,
{
    "Browse"
}

pub fn symlink_add_config() -> (r: &'static str)
    ensures
        r@ == "Add Config"@,
{
    "Add Config"
}

pub fn symlink_add_and_create() -> (r: &'static str)
    ensures
        r@ == "Add & Create Link"@,
{
    "Add & Create Link"
}

pub fn symlink_create() -> (r: &'static str)
    ensures
        r@ == "Create Link"@,
{
    "Create Link"
}

pub fn symlink_remove_link() -> (r: &'static str)
    ensures
        r@ == "Remove Link"@,
{
    "Remove Link"
}

pub fn symlink_delete_config() -> (r: &'static str)
    ensures
        r@ == "Delete Config"@,
{
    "Delete Config"
}

pub fn symlink_copy_command() -> (r: &'static str)
    ensures
        r@ == "Copy Command"@,
{
    "Copy Command"
}

pub fn symlink_refresh() -> (r: &'static str)
    ensures
        r@ == "Refresh"@,
{
    "Refresh"
}

pub fn symlink_command_copied() -> (r: &'static str)
    ensures
        r@ == "Command copied to clipboard"@,
{
    "Command copied to clipboard"
}

pub fn symlink_config_deleted() -> (r: &'static str)
    ensures
        r@ == "Config deleted"@,
{
    "Config deleted"
}

pub fn symlink_config_added() -> (r: &'static str)
    ensures
        r@ == "Config added"@,
{
    "Config added"
}

pub fn symlink_created() -> (r: &'static str)
    ensures
        r@ == "Symlink created"@,
{
    "Symlink created"
}

pub fn symlink_removed() -> (r: &'static str)
    ensures
        r@ == "Symlink removed"@,
{
    "Symlink removed"
}

pub fn symlink_create_failed() -> (r: &'static str)
    ensures
        r@ == "Create failed"@,
{
    "Create failed"
}

pub fn symlink_remove_failed() -> (r: &'static str)
    ensures
        r@ == "Remove failed"@,
{
    "Remove failed"
}

pub fn symlink_add_failed() -> (r: &'static str)
    ensures
        r@ == "Add config failed"@,
{
    "Add config failed"
}

pub fn symlink_experimental_title() -> (r: &'static str)
    ensures
        r@ == "Experimental Feature"@,
{
    "Experimental Feature"
}

pub fn symlink_experimental_desc() -> (r: &'static str)
    ensures
        r@ == "Files in the directory are auto-synced after symlink creation. Use the cloud upload button to manually sync new files."@,
{
    "Files in the directory are auto-synced after symlink creation. Use the cloud upload button to manually sync new files."
}

pub fn symlink_sync_files() -> (r: &'static str)
    ensures
        r@ == "Sync files to cloud"@,
{
    "Sync files to cloud"
}

pub fn symlink_sync_success() -> (r: &'static str)
    ensures
        r@ == "Sync successful"@,
{
    "Sync successful"
}

pub fn symlink_sync_partial() -> (r: &'static str)
    ensures
        r@ == "Partially synced"@,
{
    "Partially synced"
}

pub fn symlink_sync_no_files() -> (r: &'static str)
    ensures
        r@ == "Directory is empty, no files to sync"@,
{
    "Directory is empty, no files to sync"
}

pub fn symlink_sync_no_manager() -> (r: &'static str)
    ensures
        r@ == "Symlink manager not initialized"@,
{
    "Symlink manager not initialized"
}

pub fn symlink_sync_no_steam() -> (r: &'static str)
    ensures
        r@ == "Steam not connected, cannot sync"@,
{
    "Steam not connected, cannot sync"
}

pub fn symlink_sync_scan_failed() -> (r: &'static str)
    ensures
        r@ == "Failed to scan directory"@,
{
    "Failed to scan directory"
}

pub fn files() -> (r: &'static str)
    ensures
        r@ == "files"@,
{
    "files"
}

pub fn appinfo_tab_local_ufs() -> (r: &'static str)
    ensures
        r@ == "Local UFS Config"@,
{
    "Local UFS Config"
}

pub fn appinfo_tab_custom_config() -> (r: &'static str)
    ensures
        r@ == "Custom Config"@,
{
    "Custom Config"
}

pub fn appinfo_debug_title(app_id: u32) -> (r: String)
    ensures
        r@ == "appinfo.vdf Debug - App "@ + crate::text::decimal(app_id as nat),
{
    let mut s = String::new();
    s.append("appinfo.vdf Debug - App ");
    append_decimal(&mut s, app_id as u64);
    proof {
        assert(s@ =~= "appinfo.vdf Debug - App "@ + crate::text::decimal(app_id as nat));
    }
    s
}

pub fn appinfo_quota() -> (r: &'static str)
    ensures
        r@ == "Quota:"@,
{
    "Quota:"
}

pub fn appinfo_max_files() -> (r: &'static str)
    ensures
        r@ == "Max Files:"@,
{
    "Max Files:"
}

pub fn appinfo_current_ufs() -> (r: &'static str)
    ensures
        r@ == "Current UFS Cloud Config:"@,
{
    "Current UFS Cloud Config:"
}

pub fn appinfo_restart_steam() -> (r: String)
    ensures
        r@ == seq!['\u{E094}'] + " Restart Steam"@,
{
    let mut s = String::new();
    s.append(icons::refresh());
    s.append(" Restart Steam");
    proof {
        assert(s@ =~= seq!['\u{E094}'] + " Restart Steam"@);
    }
    s
}

pub fn appinfo_warning() -> (r: String)
    ensures
        r@ == seq!['\u{E4E0}'] + " This is experimental. appinfo.vdf may be overwritten by Steam.\nInject before Steam starts, or restart Steam after injection."@,
{
    let mut s = String::new();
    s.append(icons::warning());
    s.append(" This is experimental. appinfo.vdf may be overwritten by Steam.\nInject before Steam starts, or restart Steam after injection.");
    proof {
        assert(s@ =~= seq!['\u{E4E0}'] + " This is experimental. appinfo.vdf may be overwritten by Steam.\nInject before Steam starts, or restart Steam after injection."@);
    }
    s
}

pub fn appinfo_path_hint() -> (r: &'static str)
    ensures
        r@ == "e.g. MyGame/Saves"@,
{
    "e.g. MyGame/Saves"
}

pub fn appinfo_pattern_hint() -> (r: &'static str)
    ensures
        r@ == "* or *.sav"@,
{
    "* or *.sav"
}

pub fn ufs_savefiles_header(count: usize) -> (r: String)
    ensures
        r@ == "Savefiles Configuration ("@ + crate::text::decimal(count as nat) + ")"@,
{
    let mut s = String::new();
    s.append("Savefiles Configuration (");
    append_decimal(&mut s, count as u64);
    s.append(")");
    proof {
        assert(s@ =~= "Savefiles Configuration ("@ + crate::text::decimal(count as nat) + ")"@);
    }
    s
}

pub fn ufs_overrides_header(count: usize) -> (r: String)
    ensures
        r@ == "Root Overrides ("@ + crate::text::decimal(count as nat) + ")"@,
{
    let mut s = String::new();
    s.append("Root Overrides (");
    append_decimal(&mut s, count as u64);
    s.append(")");
    proof {
        assert(s@ =~= "Root Overrides ("@ + crate::text::decimal(count as nat) + ")"@);
    }
    s
}

pub fn ufs_add_savefile() -> (r: &'static str)
    ensures
        r@ == "Add Savefile"@,
{
    "Add Savefile"
}

pub fn ufs_add_override() -> (r: &'static str)
    ensures
        r@ == "Add Override"@,
{
    "Add Override"
}

pub fn ufs_no_savefiles() -> (r: &'static str)
    ensures
        r@ == "No savefiles configured — click Add to create"@,
{
    "No savefiles configured — click Add to create"
}

pub fn ufs_no_overrides() -> (r: &'static str)
    ensures
        r@ == "No overrides — add for cross-platform support"@,
{
    "No overrides — add for cross-platform support"
}

pub fn ufs_label_root() -> (r: &'static str)
    ensures
        r@ == "Root"@,
{
    "Root"
}

pub fn ufs_label_path() -> (r: &'static str)
    ensures
        r@ == "Path"@,
{
    "Path"
}

pub fn ufs_label_pattern() -> (r: &'static str)
    ensures
        r@ == "Pattern"@,
{
    "Pattern"
}

pub fn ufs_label_platforms() -> (r: &'static str)
    ensures
        r@ == "Platforms"@,
{
    "Platforms"
}

pub fn ufs_label_recursive() -> (r: &'static str)
    ensures
        r@ == "Recursive (search subdirectories)"@,
{
    "Recursive (search subdirectories)"
}

pub fn ufs_label_actions() -> (r: &'static str)
    ensures
        r@ == "Actions"@,
{
    "Actions"
}

pub fn ufs_label_original_root() -> (r: &'static str)
    ensures
        r@ == "Original Root"@,
{
    "Original Root"
}

pub fn ufs_label_target_os() -> (r: &'static str)
    ensures
        r@ == "Target OS"@,
{
    "Target OS"
}

pub fn ufs_label_new_root() -> (r: &'static str)
    ensures
        r@ == "New Root"@,
{
    "New Root"
}

pub fn ufs_label_add_path() -> (r: &'static str)
    ensures
        r@ == "Add Path"@,
{
    "Add Path"
}

pub fn ufs_label_replace_path() -> (r: &'static str)
    ensures
        r@ == "Replace Path"@,
{
    "Replace Path"
}

pub fn ufs_label_replace_with() -> (r: &'static str)
    ensures
        r@ == "Replace:"@,
{
    "Replace:"
}

pub fn ufs_label_find_path() -> (r: &'static str)
    ensures
        r@ == "Find Path"@,
{
    "Find Path"
}

pub fn ufs_hint_auto_fill() -> (r: &'static str)
    ensures
        r@ == "Auto-fill if empty"@,
{
    "Auto-fill if empty"
}

pub fn ufs_refresh() -> (r: &'static str)
    ensures
        r@ == "Refresh"@,
{
    "Refresh"
}

pub fn ufs_clear_all() -> (r: &'static str)
    ensures
        r@ == "Clear All"@,
{
    "Clear All"
}

pub fn ufs_clear_all_tooltip() -> (r: &'static str)
    ensures
        r@ == "Clear all custom savefiles and root overrides"@,
{
    "Clear all custom savefiles and root overrides"
}

pub fn ufs_inject_to_vdf() -> (r: String)
    ensures
        r@ == seq!['\u{E1AE}'] + " Inject to VDF"@,
{
    let mut s = String::new();
    s.append(icons::cloud_upload());
    s.append(" Inject to VDF");
    proof {
        assert(s@ =~= seq!['\u{E1AE}'] + " Inject to VDF"@);
    }
    s
}

pub fn ufs_inject_success(savefiles: usize, overrides: usize) -> (r: String)
    ensures
        r@ == "Injected "@ + crate::text::decimal(savefiles as nat) + " savefiles, "@ + crate::text::decimal(overrides as nat) + " overrides"@,
{
    let mut s = String::new();
    s.append("Injected ");
    append_decimal(&mut s, savefiles as u64);
    s.append(" savefiles, ");
    append_decimal(&mut s, overrides as u64);
    s.append(" overrides");
    proof {
        assert(s@ =~= "Injected "@ + crate::text::decimal(savefiles as nat) + " savefiles, "@ + crate::text::decimal(overrides as nat) + " overrides"@);
    }
    s
}

pub fn ufs_inject_empty() -> (r: &'static str)
    ensures
        r@ == "No savefiles or overrides to inject"@,
{
    "No savefiles or overrides to inject"
}

pub fn ufs_inject_error(error: &str) -> (r: String)
    ensures
        r@ == "Inject error: "@ + error@,
{
    let mut s = String::new();
    s.append("Inject error: ");
    s.append(error);
    proof {
        assert(s@ =~= "Inject error: "@ + error@);
    }
    s
}

pub fn ufs_writer_init_error(error: &str) -> (r: String)
    ensures
        r@ == "Writer init error: "@ + error@,
{
    let mut s = String::new();
    s.append("Writer init error: ");
    s.append(error);
    proof {
        assert(s@ =~= "Writer init error: "@ + error@);
    }
    s
}

pub fn ufs_save_success(savefiles: usize, overrides: usize) -> (r: String)
    ensures
        r@ == "Saved "@ + crate::text::decimal(savefiles as nat) + " savefiles, "@ + crate::text::decimal(overrides as nat) + " overrides"@,
{
    let mut s = String::new();
    s.append("Saved ");
    append_decimal(&mut s, savefiles as u64);
    s.append(" savefiles, ");
    append_decimal(&mut s, overrides as u64);
    s.append(" overrides");
    proof {
        assert(s@ =~= "Saved "@ + crate::text::decimal(savefiles as nat) + " savefiles, "@ + crate::text::decimal(overrides as nat) + " overrides"@);
    }
    s
}

pub fn ufs_save_error(error: &str) -> (r: String)
    ensures
        r@ == "Save error: "@ + error@,
{
    let mut s = String::new();
    s.append("Save error: ");
    s.append(error);
    proof {
        assert(s@ =~= "Save error: "@ + error@);
    }
    s
}

pub fn ufs_clear_success() -> (r: &'static str)
    ensures
        r@ == "Cleared all custom configurations"@,
{
    "Cleared all custom configurations"
}

pub fn ufs_clear_error(error: &str) -> (r: String)
    ensures
        r@ == "Clear error: "@ + error@,
{
    let mut s = String::new();
    s.append("Clear error: ");
    s.append(error);
    proof {
        assert(s@ =~= "Clear error: "@ + error@);
    }
    s
}

pub fn error_get_appinfo(error: &str) -> (r: String)
    ensures
        r@ == "Failed to get appinfo: "@ + error@,
{
    let mut s = String::new();
    s.append("Failed to get appinfo: ");
    s.append(error);
    proof {
        assert(s@ =~= "Failed to get appinfo: "@ + error@);
    }
    s
}

pub fn error_vdf_parser_init(error: &str) -> (r: String)
    ensures
        r@ == "VDF parser init failed: "@ + error@,
{
    let mut s = String::new();
    s.append("VDF parser init failed: ");
    s.append(error);
    proof {
        assert(s@ =~= "VDF parser init failed: "@ + error@);
    }
    s
}

pub fn error_load_timeout() -> (r: &'static str)
    ensures
        r@ == "Loading timed out, please retry"@,
{
    "Loading timed out, please retry"
}

pub fn disconnected() -> (r: &'static str)
    ensures
        r@ == "Disconnected"@,
{
    "Disconnected"
}

pub fn error_install_failed(error: &str) -> (r: String)
    ensures
        r@ == "Install failed: "@ + error@ + "\n\nPlease download manually"@,
{
    let mut s = String::new();
    s.append("Install failed: ");
    s.append(error);
    s.append("\n\nPlease download manually");
    proof {
        assert(s@ =~= "Install failed: "@ + error@ + "\n\nPlease download manually"@);
    }
    s
}

pub fn error_download_failed(error: &str) -> (r: String)
    ensures
        r@ == "Download failed: "@ + error@ + "\n\nPlease download manually"@,
{
    let mut s = String::new();
    s.append("Download failed: ");
    s.append(error);
    s.append("\n\nPlease download manually");
    proof {
        assert(s@ =~= "Download failed: "@ + error@ + "\n\nPlease download manually"@);
    }
    s
}

pub fn error_select_files_to_forget() -> (r: &'static str)
    ensures
        r@ == "Please select files to forget"@,
{
    "Please select files to forget"
}

pub fn error_local_only_no_forget(count: usize) -> (r: String)
    ensures
        r@ == "Selected "@ + crate::text::decimal(count as nat) + " file"@ + (if count != 1 { "s"@ } else { ""@ }) + " only exist locally, no cloud record to forget"@,
{
    let mut s = String::new();
    s.append("Selected ");
    append_decimal(&mut s, count as u64);
    s.append(" file");
    if count != 1 {
        s.append("s");
    } else {
        s.append("");
    }
    s.append(" only exist locally, no cloud record to forget");
    proof {
        assert(s@ =~= "Selected "@ + crate::text::decimal(count as nat) + " file"@ + (if count != 1 { "s"@ } else { ""@ }) + " only exist locally, no cloud record to forget"@);
    }
    s
}

pub fn forgotten_files(count: usize) -> (r: String)
    ensures
        r@ == "Removed "@ + crate::text::decimal(count as nat) + " file"@ + (if count != 1 { "s"@ } else { ""@ }) + " from cloud"@,
{
    let mut s = String::new();
    s.append("Removed ");
    append_decimal(&mut s, count as u64);
    s.append(" file");
    if count != 1 {
        s.append("s");
    } else {
        s.append("");
    }
    s.append(" from cloud");
    proof {
        assert(s@ =~= "Removed "@ + crate::text::decimal(count as nat) + " file"@ + (if count != 1 { "s"@ } else { ""@ }) + " from cloud"@);
    }
    s
}

pub fn ufs_forget_failed(count: usize) -> (r: String)
    ensures
        r@ == crate::text::decimal(count as nat) + " auto-cloud file"@ + (if count != 1 { "s"@ } else { ""@ }) + " cannot be removed via API, try \"Delete\" instead"@,
{
    let mut s = String::new();
    append_decimal(&mut s, count as u64);
    s.append(" auto-cloud file");
    if count != 1 {
        s.append("s");
    } else {
        s.append("");
    }
    s.append(" cannot be removed via API, try \"Delete\" instead");
    proof {
        assert(s@ =~= crate::text::decimal(count as nat) + " auto-cloud file"@ + (if count != 1 { "s"@ } else { ""@ }) + " cannot be removed via API, try \"Delete\" instead"@);
    }
    s
}

pub fn forget_failed_files(count: usize, names: &str) -> (r: String)
    ensures
        r@ == crate::text::decimal(count as nat) + " file"@ + (if count != 1 { "s"@ } else { ""@ }) + " failed to forget: "@ + names@,
{
    let mut s = String::new();
    append_decimal(&mut s, count as u64);
    s.append(" file");
    if count != 1 {
        s.append("s");
    } else {
        s.append("");
    }
    s.append(" failed to forget: ");
    s.append(names);
    proof {
        assert(s@ =~= crate::text::decimal(count as nat) + " file"@ + (if count != 1 { "s"@ } else { ""@ }) + " failed to forget: "@ + names@);
    }
    s
}

pub fn skipped_local_only_files(count: usize) -> (r: String)
    ensures
        r@ == "Skipped "@ + crate::text::decimal(count as nat) + " local-only file"@ + (if count != 1 { "s"@ } else { ""@ }),
{
    let mut s = String::new();
    s.append("Skipped ");
    append_decimal(&mut s, count as u64);
    s.append(" local-only file");
    if count != 1 {
        s.append("s");
    } else {
        s.append("");
    }
    proof {
        assert(s@ =~= "Skipped "@ + crate::text::decimal(count as nat) + " local-only file"@ + (if count != 1 { "s"@ } else { ""@ }));
    }
    s
}

pub fn no_files_forgotten() -> (r: &'static str)
    ensures
        r@ == "No files were removed from cloud"@,
{
    "No files were removed from cloud"
}

pub fn error_select_files_to_delete() -> (r: &'static str)
    ensures
        r@ == "Please select files to delete"@,
{
    "Please select files to delete"
}

pub fn deleted_files(count: usize) -> (r: String)
    ensures
        r@ == "Deleted "@ + crate::text::decimal(count as nat) + " file"@ + (if count != 1 { "s"@ } else { ""@ }),
{
    let mut s = String::new();
    s.append("Deleted ");
    append_decimal(&mut s, count as u64);
    s.append(" file");
    if count != 1 {
        s.append("s");
    } else {
        s.append("");
    }
    proof {
        assert(s@ =~= "Deleted "@ + crate::text::decimal(count as nat) + " file"@ + (if count != 1 { "s"@ } else { ""@ }));
    }
    s
}

pub fn ufs_cloud_sync_hint() -> (r: &'static str)
    ensures
        r@ == "Cloud copies of auto-sync files will be removed after Steam syncs, please refresh later"@,
{
    "Cloud copies of auto-sync files will be removed after Steam syncs, please refresh later"
}

pub fn ufs_delete_failed(count: usize) -> (r: String)
    ensures
        r@ == crate::text::decimal(count as nat) + " auto-cloud file"@ + (if count != 1 { "s"@ } else { ""@ }) + " cannot be deleted (game not installed, please install and retry)"@,
{
    let mut s = String::new();
    append_decimal(&mut s, count as u64);
    s.append(" auto-cloud file");
    if count != 1 {
        s.append("s");
    } else {
        s.append("");
    }
    s.append(" cannot be deleted (game not installed, please install and retry)");
    proof {
        assert(s@ =~= crate::text::decimal(count as nat) + " auto-cloud file"@ + (if count != 1 { "s"@ } else { ""@ }) + " cannot be deleted (game not installed, please install and retry)"@);
    }
    s
}

pub fn delete_failed_files(count: usize) -> (r: String)
    ensures
        r@ == crate::text::decimal(count as nat) + " file"@ + (if count != 1 { "s"@ } else { ""@ }) + " failed to delete"@,
{
    let mut s = String::new();
    append_decimal(&mut s, count as u64);
    s.append(" file");
    if count != 1 {
        s.append("s");
    } else {
        s.append("");
    }
    s.append(" failed to delete");
    proof {
        assert(s@ =~= crate::text::decimal(count as nat) + " file"@ + (if count != 1 { "s"@ } else { ""@ }) + " failed to delete"@);
    }
    s
}

pub fn no_files_deleted() -> (r: &'static str)
    ensures
        r@ == "No files were deleted"@,
{
    "No files were deleted"
}

pub fn error_select_files_to_sync() -> (r: &'static str)
    ensures
        r@ == "Please select files to sync"@,
{
    "Please select files to sync"
}

pub fn synced_files_to_cloud(count: usize) -> (r: String)
    ensures
        r@ == "Synced "@ + crate::text::decimal(count as nat) + " file"@ + (if count != 1 { "s"@ } else { ""@ }) + " to cloud"@,
{
    let mut s = String::new();
    s.append("Synced ");
    append_decimal(&mut s, count as u64);
    s.append(" file");
    if count != 1 {
        s.append("s");
    } else {
        s.append("");
    }
    s.append(" to cloud");
    proof {
        assert(s@ =~= "Synced "@ + crate::text::decimal(count as nat) + " file"@ + (if count != 1 { "s"@ } else { ""@ }) + " to cloud"@);
    }
    s
}

pub fn all_files_in_cloud(count: usize) -> (r: String)
    ensures
        r@ == "All "@ + crate::text::decimal(count as nat) + " file"@ + (if count != 1 { "s"@ } else { ""@ }) + " already in cloud, no sync needed"@,
{
    let mut s = String::new();
    s.append("All ");
    append_decimal(&mut s, count as u64);
    s.append(" file");
    if count != 1 {
        s.append("s");
    } else {
        s.append("");
    }
    s.append(" already in cloud, no sync needed");
    proof {
        assert(s@ =~= "All "@ + crate::text::decimal(count as nat) + " file"@ + (if count != 1 { "s"@ } else { ""@ }) + " already in cloud, no sync needed"@);
    }
    s
}

pub fn no_files_synced() -> (r: &'static str)
    ensures
        r@ == "No files were synced"@,
{
    "No files were synced"
}

pub fn partial_sync_failed(names: &str) -> (r: String)
    ensures
        r@ == "Some files failed to sync: "@ + names@,
{
    let mut s = String::new();
    s.append("Some files failed to sync: ");
    s.append(names);
    proof {
        assert(s@ =~= "Some files failed to sync: "@ + names@);
    }
    s
}

pub fn sync_status_synced() -> (r: String)
    ensures
        r@ == seq!['\u{E182}'] + " Synced"@,
{
    let mut s = String::new();
    s.append(icons::check());
    s.append(" Synced");
    proof {
        assert(s@ =~= seq!['\u{E182}'] + " Synced"@);
    }
    s
}

pub fn sync_status_local_newer() -> (r: String)
    ensures
        r@ == seq!['\u{E08E}'] + " Local Newer"@,
{
    let mut s = String::new();
    s.append(icons::arrow_up());
    s.append(" Local Newer");
    proof {
        assert(s@ =~= seq!['\u{E08E}'] + " Local Newer"@);
    }
    s
}

pub fn sync_status_cloud_newer() -> (r: String)
    ensures
        r@ == seq!['\u{E03E}'] + " Cloud Newer"@,
{
    let mut s = String::new();
    s.append(icons::arrow_down());
    s.append(" Cloud Newer");
    proof {
        assert(s@ =~= seq!['\u{E03E}'] + " Cloud Newer"@);
    }
    s
}

pub fn sync_status_conflict() -> (r: String)
    ensures
        r@ == seq!['\u{E4E0}'] + " Conflict"@,
{
    let mut s = String::new();
    s.append(icons::warning());
    s.append(" Conflict");
    proof {
        assert(s@ =~= seq!['\u{E4E0}'] + " Conflict"@);
    }
    s
}

pub fn sync_status_local_only() -> (r: String)
    ensures
        r@ == seq!['\u{E230}'] + " Local Only"@,
{
    let mut s = String::new();
    s.append(icons::file());
    s.append(" Local Only");
    proof {
        assert(s@ =~= seq!['\u{E230}'] + " Local Only"@);
    }
    s
}

pub fn sync_status_cloud_only() -> (r: String)
    ensures
        r@ == seq!['\u{E1AA}'] + " Cloud Only"@,
{
    let mut s = String::new();
    s.append(icons::cloud());
    s.append(" Cloud Only");
    proof {
        assert(s@ =~= seq!['\u{E1AA}'] + " Cloud Only"@);
    }
    s
}

pub fn sync_status_unknown() -> (r: String)
    ensures
        r@ == seq!['\u{E3E8}'] + " Checking"@,
{
    let mut s = String::new();
    s.append(icons::question());
    s.append(" Checking");
    proof {
        assert(s@ =~= seq!['\u{E3E8}'] + " Checking"@);
    }
    s
}

pub fn hash_status_pending() -> (r: String)
    ensures
        r@ == seq!['\u{E2B2}'] + " Pending"@,
{
    let mut s = String::new();
    s.append(icons::hourglass());
    s.append(" Pending");
    proof {
        assert(s@ =~= seq!['\u{E2B2}'] + " Pending"@);
    }
    s
}

pub fn hash_status_skipped() -> (r: String)
    ensures
        r@ == seq!['\u{E182}'] + " Skipped"@,
{
    let mut s = String::new();
    s.append(icons::check());
    s.append(" Skipped");
    proof {
        assert(s@ =~= seq!['\u{E182}'] + " Skipped"@);
    }
    s
}

pub fn hash_status_checking() -> (r: String)
    ensures
        r@ == seq!['\u{EB44}'] + " Checking"@,
{
    let mut s = String::new();
    s.append(icons::spinner());
    s.append(" Checking");
    proof {
        assert(s@ =~= seq!['\u{EB44}'] + " Checking"@);
    }
    s
}

pub fn hash_status_match() -> (r: String)
    ensures
        r@ == seq!['\u{E182}'] + " Match"@,
{
    let mut s = String::new();
    s.append(icons::check());
    s.append(" Match");
    proof {
        assert(s@ =~= seq!['\u{E182}'] + " Match"@);
    }
    s
}

pub fn hash_status_mismatch() -> (r: String)
    ensures
        r@ == seq!['\u{E4F8}'] + " Mismatch"@,
{
    let mut s = String::new();
    s.append(icons::error());
    s.append(" Mismatch");
    proof {
        assert(s@ =~= seq!['\u{E4F8}'] + " Mismatch"@);
    }
    s
}

pub fn hash_status_error() -> (r: String)
    ensures
        r@ == seq!['\u{E4E0}'] + " Error"@,
{
    let mut s = String::new();
    s.append(icons::warning());
    s.append(" Error");
    proof {
        assert(s@ =~= seq!['\u{E4E0}'] + " Error"@);
    }
    s
}

pub fn size_diff_label() -> (r: &'static str)
    ensures
        r@ == "Size diff:"@,
{
    "Size diff:"
}

pub fn local_larger_bytes(bytes: i64) -> (r: String)
    ensures
        r@ == "Local larger by "@ + crate::text::signed_decimal(bytes as int) + " bytes"@,
{
    let mut s = String::new();
    s.append("Local larger by ");
    append_signed_decimal(&mut s, bytes);
    s.append(" bytes");
    proof {
        assert(s@ =~= "Local larger by "@ + crate::text::signed_decimal(bytes as int) + " bytes"@);
    }
    s
}

pub fn cloud_larger_bytes(bytes: i64) -> (r: String)
    ensures
        r@ == "Cloud larger by "@ + crate::text::signed_decimal(bytes as int) + " bytes"@,
{
    let mut s = String::new();
    s.append("Cloud larger by ");
    append_signed_decimal(&mut s, bytes);
    s.append(" bytes");
    proof {
        assert(s@ =~= "Cloud larger by "@ + crate::text::signed_decimal(bytes as int) + " bytes"@);
    }
    s
}

pub fn diff_items_label() -> (r: &'static str)
    ensures
        r@ == "Differences:"@,
{
    "Differences:"
}

pub fn diff_exists() -> (r: &'static str)
    ensures
        r@ == "Exists"@,
{
    "Exists"
}

pub fn diff_sync() -> (r: &'static str)
    ensures
        r@ == "Sync"@,
{
    "Sync"
}

pub fn diff_size() -> (r: &'static str)
    ensures
        r@ == "Size"@,
{
    "Size"
}

pub fn diff_time() -> (r: &'static str)
    ensures
        r@ == "Time"@,
{
    "Time"
}

pub fn hash_status_label() -> (r: &'static str)
    ensures
        r@ == "Hash Status:"@,
{
    "Hash Status:"
}

pub fn retry_hash_check() -> (r: &'static str)
    ensures
        r@ == "Retry Hash Check"@,
{
    "Retry Hash Check"
}

pub fn local_hash_label() -> (r: &'static str)
    ensures
        r@ == "Local Hash:"@,
{
    "Local Hash:"
}

pub fn cloud_hash_label() -> (r: &'static str)
    ensures
        r@ == "Cloud Hash:"@,
{
    "Cloud Hash:"
}

pub fn not_calculated() -> (r: &'static str)
    ensures
        r@ == "Not calculated"@,
{
    "Not calculated"
}

pub fn error_delete_config(error: &str) -> (r: String)
    ensures
        r@ == "Failed to delete config: "@ + error@,
{
    let mut s = String::new();
    s.append("Failed to delete config: ");
    s.append(error);
    proof {
        assert(s@ =~= "Failed to delete config: "@ + error@);
    }
    s
}

pub fn remote_dir_label() -> (r: &'static str)
    ensures
        r@ == "Remote Dir:"@,
{
    "Remote Dir:"
}

pub fn copy_path() -> (r: &'static str)
    ensures
        r@ == "Copy Path"@,
{
    "Copy Path"
}

pub fn symlink_conflict_label() -> (r: &'static str)
    ensures
        r@ == "Conflict"@,
{
    "Conflict"
}

pub fn steam_path_hint_text() -> (r: &'static str)
    ensures
        r@ == "Steam Install Path"@,
{
    "Steam Install Path"
}

pub fn cloud_status_not_ready() -> (r: &'static str)
    ensures
        r@ == "Cloud Status: Not Ready"@,
{
    "Cloud Status: Not Ready"
}

pub fn game_file_info(count: usize, size: &str) -> (r: String)
    ensures
        r@ == crate::text::decimal(count as nat) + " file"@ + (if count != 1 { "s"@ } else { ""@ }) + " | "@ + size@,
{
    let mut s = String::new();
    append_decimal(&mut s, count as u64);
    s.append(" file");
    if count != 1 {
        s.append("s");
    } else {
        s.append("");
    }
    s.append(" | ");
    s.append(size);
    proof {
        assert(s@ =~= crate::text::decimal(count as nat) + " file"@ + (if count != 1 { "s"@ } else { ""@ }) + " | "@ + size@);
    }
    s
}

pub fn install_dir_label(dir: &str) -> (r: String)
    ensures
        r@ == "Install dir: "@ + dir@,
{
    let mut s = String::new();
    s.append("Install dir: ");
    s.append(dir);
    proof {
        assert(s@ =~= "Install dir: "@ + dir@);
    }
    s
}

pub fn tags_label(tags: &str) -> (r: String)
    ensures
        r@ == "Tags: "@ + tags@,
{
    let mut s = String::new();
    s.append("Tags: ");
    s.append(tags);
    proof {
        assert(s@ =~= "Tags: "@ + tags@);
    }
    s
}

pub fn last_played_label(time: &str) -> (r: String)
    ensures
        r@ == "Last played: "@ + time@,
{
    let mut s = String::new();
    s.append("Last played: ");
    s.append(time);
    proof {
        assert(s@ =~= "Last played: "@ + time@);
    }
    s
}

pub fn select_button() -> (r: &'static str)
    ensures
        r@ == "Select"@,
{
    "Select"
}

pub fn check_update_failed(error: &str) -> (r: String)
    ensures
        r@ == "Check update failed: "@ + error@,
{
    let mut s = String::new();
    s.append("Check update failed: ");
    s.append(error);
    proof {
        assert(s@ =~= "Check update failed: "@ + error@);
    }
    s
}

pub fn theme_light() -> (r: &'static str)
    ensures
        r@ == "Light"@,
{
    "Light"
}

pub fn theme_dark() -> (r: &'static str)
    ensures
        r@ == "Dark"@,
{
    "Dark"
}

pub fn theme_system() -> (r: &'static str)
    ensures
        r@ == "System"@,
{
    "System"
}

} // verus!
