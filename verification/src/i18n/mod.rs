//! User-interface message catalogue in English and Simplified Chinese.
use vstd::prelude::*;

pub mod en;
pub mod zh;

verus! {

/// The languages the interface is offered in.
#[derive(Debug, Clone, Copy, PartialEq, Eq, Structural, Default)]
pub enum Language {
    #[default]
    English,
    Chinese,
}

impl Language {
    /// Every supported language, in the order the settings list shows them.
    pub fn all() -> (r: &'static [Language])
        ensures
            r@ == seq![Language::English, Language::Chinese],
    {
        let r: &'static [Language] = &[Language::English, Language::Chinese];
        r
    }

    /// The name of the language as shown to the user.
    pub fn display_name(&self) -> (r: &'static str)
        ensures
            r@ == (match *self {
                Language::English => "English"@,
                Language::Chinese => "简体中文"@,
            }),
    {
        match self {
            Language::English => "English",
            Language::Chinese => "简体中文",
        }
    }

    /// The language of the machine: Chinese when the locale text (from `LANG`,
    /// `LC_ALL`, `LC_MESSAGES` or `LANGUAGE`) starts with `zh` or holds `CN`,
    /// `TW` or `HK`, or when the system's own language list asks for Chinese
    /// (`system_prefers_chinese`); English otherwise.
    pub fn from_locale(locale: &str, system_prefers_chinese: bool) -> (r: Language)
        ensures
            r == (if crate::text::starts_with(locale@, "zh"@) || crate::text::contains_text(locale@, "CN"@)
                || crate::text::contains_text(locale@, "TW"@) || crate::text::contains_text(locale@, "HK"@)
                || system_prefers_chinese {
                Language::Chinese
            } else {
                Language::English
            }),
    {
        if crate::text::str_starts_with(locale, "zh") || crate::text::str_contains(locale, "CN")
            || crate::text::str_contains(locale, "TW") || crate::text::str_contains(locale, "HK")
            || system_prefers_chinese {
            Language::Chinese
        } else {
            Language::English
        }
    }

    /// Reads the language setting of the configuration file: `"en"`, `"zh"`,
    /// or `"auto"` (which picks `system_language`, the language detected on the
    /// machine); anything else means English.
    pub fn from_config(value: &str, system_language: Language) -> (r: Language)
        ensures
            r == (if value@ == "en"@ {
                Language::English
            } else if value@ == "zh"@ {
                Language::Chinese
            } else if value@ == "auto"@ {
                system_language
            } else {
                Language::English
            }),
    {
        if crate::text::str_eq(value, "en") {
            Language::English
        } else if crate::text::str_eq(value, "zh") {
            Language::Chinese
        } else if crate::text::str_eq(value, "auto") {
            system_language
        } else {
            Language::English
        }
    }

    /// The configuration-file spelling of the language.
    pub fn to_config(self) -> (r: &'static str)
        ensures
            r@ == (match self {
                Language::Chinese => "zh"@,
                Language::English => "en"@,
            }),
    {
        match self {
            Language::Chinese => "zh",
            Language::English => "en",
        }
    }
}

/// The message catalogue in one language.
pub struct I18n {
    lang: Language,
}

impl I18n {
    /// The language the catalogue speaks.
    pub closed spec fn lang(&self) -> Language {
        self.lang
    }

    pub fn new(lang: Language) -> (r: Self)
        ensures
            r.lang() == lang,
    {
        Self { lang }
    }

    pub fn set_language(&mut self, lang: Language)
        ensures
            final(self).lang() == lang,
    {
        self.lang = lang;
    }

    pub fn language(&self) -> (r: Language)
        ensures
            r == self.lang(),
    {
        self.lang
    }

    pub fn language_label(&self) -> (r: &'static str)
        ensures
            r@ == (match self.lang() {
                Language::English => "Language:"@,
                Language::Chinese => "语言:"@,
            }),
    {
        match self.lang {
            Language::English => en::language_label(),
            Language::Chinese => zh::language_label(),
        }
    }

    pub fn app_title(&self) -> (r: &'static str)
        ensures
            r@ == (match self.lang() {
                Language::English => "Steam Cloud File Manager"@,
                Language::Chinese => "Steam 云存档管理器"@,
            }),
    {
        match self.lang {
            Language::English => en::app_title(),
            Language::Chinese => zh::app_title(),
        }
    }

    pub fn refresh(&self) -> (r: &'static str)
        ensures
            r@ == (match self.lang() {
                Language::English => "Refresh"@,
                Language::Chinese => "刷新"@,
            }),
    {
        match self.lang {
            Language::English => en::refresh(),
            Language::Chinese => zh::refresh(),
        }
    }

    pub fn cancel(&self) -> (r: &'static str)
        ensures
            r@ == (match self.lang() {
                Language::English => "Cancel"@,
                Language::Chinese => "取消"@,
            }),
    {
        match self.lang {
            Language::English => en::cancel(),
            Language::Chinese => zh::cancel(),
        }
    }

    pub fn close(&self) -> (r: &'static str)
        ensures
            r@ == (match self.lang() {
                Language::English => "Close"@,
                Language::Chinese => "关闭"@,
            }),
    {
        match self.lang {
            Language::English => en::close(),
            Language::Chinese => zh::close(),
        }
    }

    pub fn ok(&self) -> (r: &'static str)
        ensures
            r@ == (match self.lang() {
                Language::English => "OK"@,
                Language::Chinese => "确定"@,
            }),
    {
        match self.lang {
            Language::English => en::ok(),
            Language::Chinese => zh::ok(),
        }
    }

    pub fn logged_in(&self) -> (r: &'static str)
        ensures
            r@ == (match self.lang() {
                Language::English => "Logged In"@,
                Language::Chinese => "已登录"@,
            }),
    {
        match self.lang {
            Language::English => en::logged_in(),
            Language::Chinese => zh::logged_in(),
        }
    }

    pub fn not_logged_in(&self) -> (r: &'static str)
        ensures
            r@ == (match self.lang() {
                Language::English => "Not Logged In"@,
                Language::Chinese => "未登录"@,
            }),
    {
        match self.lang {
            Language::English => en::not_logged_in(),
            Language::Chinese => zh::not_logged_in(),
        }
    }

    pub fn connect(&self) -> (r: &'static str)
        ensures
            r@ == (match self.lang() {
                Language::English => "Connect"@,
                Language::Chinese => "连接"@,
            }),
    {
        match self.lang {
            Language::English => en::connect(),
            Language::Chinese => zh::connect(),
        }
    }

    pub fn disconnect(&self) -> (r: &'static str)
        ensures
            r@ == (match self.lang() {
                Language::English => "Disconnect"@,
                Language::Chinese => "断开"@,
            }),
    {
        match self.lang {
            Language::English => en::disconnect(),
            Language::Chinese => zh::disconnect(),
        }
    }

    pub fn disconnect_sync_hint(&self) -> (r: &'static str)
        ensures
            r@ == (match self.lang() {
                Language::English => "Steam will auto-sync after disconnect"@,
                Language::Chinese => "断开后 Steam 将自动同步"@,
            }),
    {
        match self.lang {
            Language::English => en::disconnect_sync_hint(),
            Language::Chinese => zh::disconnect_sync_hint(),
        }
    }

    pub fn refresh_open_url_hint(&self) -> (r: &'static str)
        ensures
            r@ == (match self.lang() {
                Language::English => "Open cloud storage page in Steam"@,
                Language::Chinese => "在 Steam 中打开云存储页面"@,
            }),
    {
        match self.lang {
            Language::English => en::refresh_open_url_hint(),
            Language::Chinese => zh::refresh_open_url_hint(),
        }
    }

    pub fn show_appinfo_vdf(&self) -> (r: &'static str)
        ensures
            r@ == (match self.lang() {
                Language::English => "Configure appinfo.vdf"@,
                Language::Chinese => "配置 appinfo.vdf"@,
            }),
    {
        match self.lang {
            Language::English => en::show_appinfo_vdf(),
            Language::Chinese => zh::show_appinfo_vdf(),
        }
    }

    pub fn account_cloud_status(&self) -> (r: &'static str)
        ensures
            r@ == (match self.lang() {
                Language::English => "Account Cloud"@,
                Language::Chinese => "账户云存储"@,
            }),
    {
        match self.lang {
            Language::English => en::account_cloud_status(),
            Language::Chinese => zh::account_cloud_status(),
        }
    }

    pub fn select_account(&self) -> (r: &'static str)
        ensures
            r@ == (match self.lang() {
                Language::English => "Accounts"@,
                Language::Chinese => "账户"@,
            }),
    {
        match self.lang {
            Language::English => en::select_account(),
            Language::Chinese => zh::select_account(),
        }
    }

    pub fn select_game(&self) -> (r: &'static str)
        ensures
            r@ == (match self.lang() {
                Language::English => "Game Library"@,
                Language::Chinese => "游戏库"@,
            }),
    {
        match self.lang {
            Language::English => en::select_game(),
            Language::Chinese => zh::select_game(),
        }
    }

    pub fn select_all(&self) -> (r: &'static str)
        ensures
            r@ == (match self.lang() {
                Language::English => "Select All"@,
                Language::Chinese => "全选"@,
            }),
    {
        match self.lang {
            Language::English => en::select_all(),
            Language::Chinese => zh::select_all(),
        }
    }

    pub fn invert_selection(&self) -> (r: &'static str)
        ensures
            r@ == (match self.lang() {
                Language::English => "Invert"@,
                Language::Chinese => "反选"@,
            }),
    {
        match self.lang {
            Language::English => en::invert_selection(),
            Language::Chinese => zh::invert_selection(),
        }
    }

    pub fn clear_selection(&self) -> (r: &'static str)
        ensures
            r@ == (match self.lang() {
                Language::English => "Clear"@,
                Language::Chinese => "清除选择"@,
            }),
    {
        match self.lang {
            Language::English => en::clear_selection(),
            Language::Chinese => zh::clear_selection(),
        }
    }

    pub fn download(&self) -> (r: &'static str)
        ensures
            r@ == (match self.lang() {
                Language::English => "Download"@,
                Language::Chinese => "下载"@,
            }),
    {
        match self.lang {
            Language::English => en::download(),
            Language::Chinese => zh::download(),
        }
    }

    pub fn upload(&self) -> (r: &'static str)
        ensures
            r@ == (match self.lang() {
                Language::English => "Upload"@,
                Language::Chinese => "上传"@,
            }),
    {
        match self.lang {
            Language::English => en::upload(),
            Language::Chinese => zh::upload(),
        }
    }

    pub fn delete(&self) -> (r: &'static str)
        ensures
            r@ == (match self.lang() {
                Language::English => "Delete"@,
                Language::Chinese => "删除"@,
            }),
    {
        match self.lang {
            Language::English => en::delete(),
            Language::Chinese => zh::delete(),
        }
    }

    pub fn forget(&self) -> (r: &'static str)
        ensures
            r@ == (match self.lang() {
                Language::English => "Forget"@,
                Language::Chinese => "移出云端"@,
            }),
    {
        match self.lang {
            Language::English => en::forget(),
            Language::Chinese => zh::forget(),
        }
    }

    pub fn sync_to_cloud(&self) -> (r: &'static str)
        ensures
            r@ == (match self.lang() {
                Language::English => "Sync"@,
                Language::Chinese => "同步云端"@,
            }),
    {
        match self.lang {
            Language::English => en::sync_to_cloud(),
            Language::Chinese => zh::sync_to_cloud(),
        }
    }

    pub fn file_name(&self) -> (r: &'static str)
        ensures
            r@ == (match self.lang() {
                Language::English => "File Name"@,
                Language::Chinese => "文件名"@,
            }),
    {
        match self.lang {
            Language::English => en::file_name(),
            Language::Chinese => zh::file_name(),
        }
    }

    pub fn size(&self) -> (r: &'static str)
        ensures
            r@ == (match self.lang() {
                Language::English => "Size"@,
                Language::Chinese => "大小"@,
            }),
    {
        match self.lang {
            Language::English => en::size(),
            Language::Chinese => zh::size(),
        }
    }

    pub fn selected_count(&self, count: usize) -> (r: String)
        ensures
            r@ == (match self.lang() {
                Language::English => crate::text::decimal(count as nat) + " selected"@,
                Language::Chinese => "已选择 "@ + crate::text::decimal(count as nat) + " 个"@,
            }),
    {
        match self.lang {
            Language::English => en::selected_count(count),
            Language::Chinese => zh::selected_count(count),
        }
    }

    pub fn select_game_title(&self) -> (r: &'static str)
        ensures
            r@ == (match self.lang() {
                Language::English => "Select Game"@,
                Language::Chinese => "选择游戏"@,
            }),
    {
        match self.lang {
            Language::English => en::select_game_title(),
            Language::Chinese => zh::select_game_title(),
        }
    }

    pub fn settings_title(&self) -> (r: &'static str)
        ensures
            r@ == (match self.lang() {
                Language::English => "Settings"@,
                Language::Chinese => "设置"@,
            }),
    {
        match self.lang {
            Language::English => en::settings_title(),
            Language::Chinese => zh::settings_title(),
        }
    }

    pub fn settings_log(&self) -> (r: &'static str)
        ensures
            r@ == (match self.lang() {
                Language::English => "Log"@,
                Language::Chinese => "日志"@,
            }),
    {
        match self.lang {
            Language::English => en::settings_log(),
            Language::Chinese => zh::settings_log(),
        }
    }

    pub fn settings_about(&self) -> (r: &'static str)
        ensures
            r@ == (match self.lang() {
                Language::English => "About"@,
                Language::Chinese => "关于"@,
            }),
    {
        match self.lang {
            Language::English => en::settings_about(),
            Language::Chinese => zh::settings_about(),
        }
    }

    pub fn settings_appearance(&self) -> (r: &'static str)
        ensures
            r@ == (match self.lang() {
                Language::English => "Appearance"@,
                Language::Chinese => "外观"@,
            }),
    {
        match self.lang {
            Language::English => en::settings_appearance(),
            Language::Chinese => zh::settings_appearance(),
        }
    }

    pub fn settings_advanced(&self) -> (r: &'static str)
        ensures
            r@ == (match self.lang() {
                Language::English => "Advanced"@,
                Language::Chinese => "高级"@,
            }),
    {
        match self.lang {
            Language::English => en::settings_advanced(),
            Language::Chinese => zh::settings_advanced(),
        }
    }

    pub fn steam_path_label(&self) -> (r: &'static str)
        ensures
            r@ == (match self.lang() {
                Language::English => "Steam Install Path"@,
                Language::Chinese => "Steam 安装路径"@,
            }),
    {
        match self.lang {
            Language::English => en::steam_path_label(),
            Language::Chinese => zh::steam_path_label(),
        }
    }

    pub fn steam_path_auto_detect(&self) -> (r: &'static str)
        ensures
            r@ == (match self.lang() {
                Language::English => "Auto Detect"@,
                Language::Chinese => "自动检测"@,
            }),
    {
        match self.lang {
            Language::English => en::steam_path_auto_detect(),
            Language::Chinese => zh::steam_path_auto_detect(),
        }
    }

    pub fn steam_path_browse(&self) -> (r: &'static str)
        ensures
            r@ == (match self.lang() {
                Language::English => "Browse..."@,
                Language::Chinese => "浏览..."@,
            }),
    {
        match self.lang {
            Language::English => en::steam_path_browse(),
            Language::Chinese => zh::steam_path_browse(),
        }
    }

    pub fn steam_path_valid(&self, user_count: usize) -> (r: String)
        ensures
            r@ == (match self.lang() {
                Language::English => "✓ Valid path ("@ + crate::text::decimal(user_count as nat) + " user"@ + (if user_count != 1 { "s"@ } else { ""@ }) + " found)"@,
                Language::Chinese => "✓ 路径有效 (检测到 "@ + crate::text::decimal(user_count as nat) + " 个用户)"@,
            }),
    {
        match self.lang {
            Language::English => en::steam_path_valid(user_count),
            Language::Chinese => zh::steam_path_valid(user_count),
        }
    }

    pub fn steam_path_not_exists(&self) -> (r: &'static str)
        ensures
            r@ == (match self.lang() {
                Language::English => "✗ Path not exists"@,
                Language::Chinese => "✗ 路径不存在"@,
            }),
    {
        match self.lang {
            Language::English => en::steam_path_not_exists(),
            Language::Chinese => zh::steam_path_not_exists(),
        }
    }

    pub fn steam_path_no_userdata(&self) -> (r: &'static str)
        ensures
            r@ == (match self.lang() {
                Language::English => "✗ Missing userdata folder"@,
                Language::Chinese => "✗ 缺少 userdata 目录"@,
            }),
    {
        match self.lang {
            Language::English => en::steam_path_no_userdata(),
            Language::Chinese => zh::steam_path_no_userdata(),
        }
    }

    pub fn steam_path_no_users(&self) -> (r: &'static str)
        ensures
            r@ == (match self.lang() {
                Language::English => "✗ No users found"@,
                Language::Chinese => "✗ 未找到用户"@,
            }),
    {
        match self.lang {
            Language::English => en::steam_path_no_users(),
            Language::Chinese => zh::steam_path_no_users(),
        }
    }

    pub fn steam_path_hint(&self) -> (r: &'static str)
        ensures
            r@ == (match self.lang() {
                Language::English => "💡 Select directory manually if Steam is in non-standard location"@,
                Language::Chinese => "💡 如果 Steam 安装在非标准位置，请手动选择目录"@,
            }),
    {
        match self.lang {
            Language::English => en::steam_path_hint(),
            Language::Chinese => zh::steam_path_hint(),
        }
    }

    pub fn steam_path_restart_hint(&self) -> (r: &'static str)
        ensures
            r@ == (match self.lang() {
                Language::English => "Restart required after changing"@,
                Language::Chinese => "修改后需要重启应用生效"@,
            }),
    {
        match self.lang {
            Language::English => en::steam_path_restart_hint(),
            Language::Chinese => zh::steam_path_restart_hint(),
        }
    }

    pub fn reset_all_settings(&self) -> (r: &'static str)
        ensures
            r@ == (match self.lang() {
                Language::English => "Reset All Settings"@,
                Language::Chinese => "恢复默认设置"@,
            }),
    {
        match self.lang {
            Language::English => en::reset_all_settings(),
            Language::Chinese => zh::reset_all_settings(),
        }
    }

    pub fn reset_confirm(&self) -> (r: &'static str)
        ensures
            r@ == (match self.lang() {
                Language::English => "Reset all settings to default?"@,
                Language::Chinese => "确定要恢复所有设置为默认值吗？"@,
            }),
    {
        match self.lang {
            Language::English => en::reset_confirm(),
            Language::Chinese => zh::reset_confirm(),
        }
    }

    pub fn config_dir_label(&self) -> (r: &'static str)
        ensures
            r@ == (match self.lang() {
                Language::English => "Config File:"@,
                Language::Chinese => "配置文件:"@,
            }),
    {
        match self.lang {
            Language::English => en::config_dir_label(),
            Language::Chinese => zh::config_dir_label(),
        }
    }

    pub fn open_config_dir(&self) -> (r: &'static str)
        ensures
            r@ == (match self.lang() {
                Language::English => "Open Config Directory"@,
                Language::Chinese => "打开配置目录"@,
            }),
    {
        match self.lang {
            Language::English => en::open_config_dir(),
            Language::Chinese => zh::open_config_dir(),
        }
    }

    pub fn theme_mode_label(&self) -> (r: &'static str)
        ensures
            r@ == (match self.lang() {
                Language::English => "Theme Mode:"@,
                Language::Chinese => "主题模式:"@,
            }),
    {
        match self.lang {
            Language::English => en::theme_mode_label(),
            Language::Chinese => zh::theme_mode_label(),
        }
    }

    pub fn error_title(&self) -> (r: &'static str)
        ensures
            r@ == (match self.lang() {
                Language::English => "Error"@,
                Language::Chinese => "错误"@,
            }),
    {
        match self.lang {
            Language::English => en::error_title(),
            Language::Chinese => zh::error_title(),
        }
    }

    pub fn author(&self) -> (r: &'static str)
        ensures
            r@ == (match self.lang() {
                Language::English => "Author:"@,
                Language::Chinese => "作者:"@,
            }),
    {
        match self.lang {
            Language::English => en::author(),
            Language::Chinese => zh::author(),
        }
    }

    pub fn github_repository(&self) -> (r: &'static str)
        ensures
            r@ == (match self.lang() {
                Language::English => "Github Repository:"@,
                Language::Chinese => "Github仓库:"@,
            }),
    {
        match self.lang {
            Language::English => en::github_repository(),
            Language::Chinese => zh::github_repository(),
        }
    }

    pub fn connecting(&self) -> (r: &'static str)
        ensures
            r@ == (match self.lang() {
                Language::English => "Connecting..."@,
                Language::Chinese => "连接中..."@,
            }),
    {
        match self.lang {
            Language::English => en::connecting(),
            Language::Chinese => zh::connecting(),
        }
    }

    pub fn games_with_cloud(&self, count: usize) -> (r: String)
        ensures
            r@ == (match self.lang() {
                Language::English => crate::text::decimal(count as nat) + " game"@ + (if count != 1 { "s"@ } else { ""@ }) + " with cloud saves"@,
                Language::Chinese => crate::text::decimal(count as nat) + " 个有云存档的游戏"@,
            }),
    {
        match self.lang {
            Language::English => en::games_with_cloud(count),
            Language::Chinese => zh::games_with_cloud(count),
        }
    }

    pub fn scanning_games(&self) -> (r: &'static str)
        ensures
            r@ == (match self.lang() {
                Language::English => "Scanning game library..."@,
                Language::Chinese => "正在扫描游戏库..."@,
            }),
    {
        match self.lang {
            Language::English => en::scanning_games(),
            Language::Chinese => zh::scanning_games(),
        }
    }

    pub fn no_cloud_games_found(&self) -> (r: &'static str)
        ensures
            r@ == (match self.lang() {
                Language::English => "No games with cloud saves found"@,
                Language::Chinese => "未发现云存档的游戏"@,
            }),
    {
        match self.lang {
            Language::English => en::no_cloud_games_found(),
            Language::Chinese => zh::no_cloud_games_found(),
        }
    }

    pub fn installed(&self) -> (r: &'static str)
        ensures
            r@ == (match self.lang() {
                Language::English => "Installed"@,
                Language::Chinese => "已安装"@,
            }),
    {
        match self.lang {
            Language::English => en::installed(),
            Language::Chinese => zh::installed(),
        }
    }

    pub fn not_installed(&self) -> (r: &'static str)
        ensures
            r@ == (match self.lang() {
                Language::English => "Not Installed"@,
                Language::Chinese => "未安装"@,
            }),
    {
        match self.lang {
            Language::English => en::not_installed(),
            Language::Chinese => zh::not_installed(),
        }
    }

    pub fn select_user(&self) -> (r: &'static str)
        ensures
            r@ == (match self.lang() {
                Language::English => "Select User"@,
                Language::Chinese => "选择用户"@,
            }),
    {
        match self.lang {
            Language::English => en::select_user(),
            Language::Chinese => zh::select_user(),
        }
    }

    pub fn user_id(&self) -> (r: &'static str)
        ensures
            r@ == (match self.lang() {
                Language::English => "User ID"@,
                Language::Chinese => "用户 ID"@,
            }),
    {
        match self.lang {
            Language::English => en::user_id(),
            Language::Chinese => zh::user_id(),
        }
    }

    pub fn current_user(&self) -> (r: &'static str)
        ensures
            r@ == (match self.lang() {
                Language::English => "Current User"@,
                Language::Chinese => "当前用户"@,
            }),
    {
        match self.lang {
            Language::English => en::current_user(),
            Language::Chinese => zh::current_user(),
        }
    }

    pub fn switch(&self) -> (r: &'static str)
        ensures
            r@ == (match self.lang() {
                Language::English => "Switch"@,
                Language::Chinese => "切换"@,
            }),
    {
        match self.lang {
            Language::English => en::switch(),
            Language::Chinese => zh::switch(),
        }
    }

    pub fn steam_users(&self, count: usize) -> (r: String)
        ensures
            r@ == (match self.lang() {
                Language::English => crate::text::decimal(count as nat) + " Steam user"@ + (if count != 1 { "s"@ } else { ""@ }),
                Language::Chinese => crate::text::decimal(count as nat) + " 个 Steam 用户"@,
            }),
    {
        match self.lang {
            Language::English => en::steam_users(count),
            Language::Chinese => zh::steam_users(count),
        }
    }

    pub fn checking_update(&self) -> (r: String)
        ensures
            r@ == (match self.lang() {
                Language::English => seq!['\u{EB44}'] + " Checking..."@,
                Language::Chinese => seq!['\u{EB44}'] + " 检查中..."@,
            }),
    {
        match self.lang {
            Language::English => en::checking_update(),
            Language::Chinese => zh::checking_update(),
        }
    }

    pub fn check_update_btn(&self) -> (r: String)
        ensures
            r@ == (match self.lang() {
                Language::English => seq!['\u{E094}'] + " Check Update"@,
                Language::Chinese => seq!['\u{E094}'] + " 检查更新"@,
            }),
    {
        match self.lang {
            Language::English => en::check_update_btn(),
            Language::Chinese => zh::check_update_btn(),
        }
    }

    pub fn already_latest(&self) -> (r: String)
        ensures
            r@ == (match self.lang() {
                Language::English => seq!['\u{E182}'] + " Already up to date"@,
                Language::Chinese => seq!['\u{E182}'] + " 当前已是最新版本"@,
            }),
    {
        match self.lang {
            Language::English => en::already_latest(),
            Language::Chinese => zh::already_latest(),
        }
    }

    pub fn new_version_found(&self, version: &str) -> (r: String)
        ensures
            r@ == (match self.lang() {
                Language::English => "🎉 New version available: "@ + version@,
                Language::Chinese => "🎉 发现新版本: "@ + version@,
            }),
    {
        match self.lang {
            Language::English => en::new_version_found(version),
            Language::Chinese => zh::new_version_found(version),
        }
    }

    pub fn new_version_hint(&self) -> (r: &'static str)
        ensures
            r@ == (match self.lang() {
                Language::English => "New version found, click to download and install:"@,
                Language::Chinese => "发现新版本，点击下载并安装："@,
            }),
    {
        match self.lang {
            Language::English => en::new_version_hint(),
            Language::Chinese => zh::new_version_hint(),
        }
    }

    pub fn download_and_install(&self) -> (r: String)
        ensures
            r@ == (match self.lang() {
                Language::English => seq!['\u{E20C}'] + " Download & Install"@,
                Language::Chinese => seq!['\u{E20C}'] + " 下载并安装"@,
            }),
    {
        match self.lang {
            Language::English => en::download_and_install(),
            Language::Chinese => zh::download_and_install(),
        }
    }

    pub fn view_details(&self) -> (r: String)
        ensures
            r@ == (match self.lang() {
                Language::English => seq!['\u{E288}'] + " View Details"@,
                Language::Chinese => seq!['\u{E288}'] + " 查看详情"@,
            }),
    {
        match self.lang {
            Language::English => en::view_details(),
            Language::Chinese => zh::view_details(),
        }
    }

    pub fn downloading_update(&self) -> (r: String)
        ensures
            r@ == (match self.lang() {
                Language::English => seq!['\u{E20C}'] + " Downloading update..."@,
                Language::Chinese => seq!['\u{E20C}'] + " 正在下载更新..."@,
            }),
    {
        match self.lang {
            Language::English => en::downloading_update(),
            Language::Chinese => zh::downloading_update(),
        }
    }

    pub fn installing_update(&self) -> (r: String)
        ensures
            r@ == (match self.lang() {
                Language::English => seq!['\u{E270}'] + " Installing update..."@,
                Language::Chinese => seq!['\u{E270}'] + " 正在安装更新..."@,
            }),
    {
        match self.lang {
            Language::English => en::installing_update(),
            Language::Chinese => zh::installing_update(),
        }
    }

    pub fn update_success(&self) -> (r: String)
        ensures
            r@ == (match self.lang() {
                Language::English => seq!['\u{E182}'] + " Update installed successfully!"@,
                Language::Chinese => seq!['\u{E182}'] + " 更新安装成功！"@,
            }),
    {
        match self.lang {
            Language::English => en::update_success(),
            Language::Chinese => zh::update_success(),
        }
    }

    pub fn restart_to_apply(&self) -> (r: &'static str)
        ensures
            r@ == (match self.lang() {
                Language::English => "Please restart the app to use the new version"@,
                Language::Chinese => "请重启应用以使用新版本"@,
            }),
    {
        match self.lang {
            Language::English => en::restart_to_apply(),
            Language::Chinese => zh::restart_to_apply(),
        }
    }

    pub fn restart_now(&self) -> (r: String)
        ensures
            r@ == (match self.lang() {
                Language::English => seq!['\u{E094}'] + " Restart Now"@,
                Language::Chinese => seq!['\u{E094}'] + " 立即重启"@,
            }),
    {
        match self.lang {
            Language::English => en::restart_now(),
            Language::Chinese => zh::restart_now(),
        }
    }

    pub fn log_enabled_hint(&self) -> (r: &'static str)
        ensures
            r@ == (match self.lang() {
                Language::English => " Log storage enabled, restart to apply"@,
                Language::Chinese => " 日志存储已启用，重启后生效"@,
            }),
    {
        match self.lang {
            Language::English => en::log_enabled_hint(),
            Language::Chinese => zh::log_enabled_hint(),
        }
    }

    pub fn log_disabled_hint(&self) -> (r: &'static str)
        ensures
            r@ == (match self.lang() {
                Language::English => " Log storage disabled, restart to apply"@,
                Language::Chinese => " 日志存储已禁用，重启后生效"@,
            }),
    {
        match self.lang {
            Language::English => en::log_disabled_hint(),
            Language::Chinese => zh::log_disabled_hint(),
        }
    }

    pub fn enable_log_storage(&self) -> (r: &'static str)
        ensures
            r@ == (match self.lang() {
                Language::English => "Enable Log Storage"@,
                Language::Chinese => "启用日志存储"@,
            }),
    {
        match self.lang {
            Language::English => en::enable_log_storage(),
            Language::Chinese => zh::enable_log_storage(),
        }
    }

    pub fn open_log_dir(&self) -> (r: &'static str)
        ensures
            r@ == (match self.lang() {
                Language::English => " Open Log Directory"@,
                Language::Chinese => " 打开日志目录"@,
            }),
    {
        match self.lang {
            Language::English => en::open_log_dir(),
            Language::Chinese => zh::open_log_dir(),
        }
    }

    pub fn log_dir_label(&self) -> (r: &'static str)
        ensures
            r@ == (match self.lang() {
                Language::English => "Log Directory:"@,
                Language::Chinese => "日志目录:"@,
            }),
    {
        match self.lang {
            Language::English => en::log_dir_label(),
            Language::Chinese => zh::log_dir_label(),
        }
    }

    pub fn steam_log_dir_label(&self) -> (r: &'static str)
        ensures
            r@ == (match self.lang() {
                Language::English => "Steam Log Directory:"@,
                Language::Chinese => "Steam 日志目录:"@,
            }),
    {
        match self.lang {
            Language::English => en::steam_log_dir_label(),
            Language::Chinese => zh::steam_log_dir_label(),
        }
    }

    pub fn open_steam_log_dir(&self) -> (r: &'static str)
        ensures
            r@ == (match self.lang() {
                Language::English => " Open Steam Log Directory"@,
                Language::Chinese => " 打开 Steam 日志目录"@,
            }),
    {
        match self.lang {
            Language::English => en::open_steam_log_dir(),
            Language::Chinese => zh::open_steam_log_dir(),
        }
    }

    pub fn restarting_steam(&self) -> (r: &'static str)
        ensures
            r@ == (match self.lang() {
                Language::English => "Restarting Steam"@,
                Language::Chinese => "正在重启 Steam"@,
            }),
    {
        match self.lang {
            Language::English => en::restarting_steam(),
            Language::Chinese => zh::restarting_steam(),
        }
    }

    pub fn manual_operation_required(&self) -> (r: &'static str)
        ensures
            r@ == (match self.lang() {
                Language::English => "Manual operation required:"@,
                Language::Chinese => "需要手动操作："@,
            }),
    {
        match self.lang {
            Language::English => en::manual_operation_required(),
            Language::Chinese => zh::manual_operation_required(),
        }
    }

    pub fn i_understand(&self) -> (r: &'static str)
        ensures
            r@ == (match self.lang() {
                Language::English => "I Understand"@,
                Language::Chinese => "我知道了"@,
            }),
    {
        match self.lang {
            Language::English => en::i_understand(),
            Language::Chinese => zh::i_understand(),
        }
    }

    pub fn manual_restart_macos_title(&self) -> (r: &'static str)
        ensures
            r@ == (match self.lang() {
                Language::English => "Manual Restart Steam (macOS)"@,
                Language::Chinese => "手动重启 Steam (macOS)"@,
            }),
    {
        match self.lang {
            Language::English => en::manual_restart_macos_title(),
            Language::Chinese => zh::manual_restart_macos_title(),
        }
    }

    pub fn manual_restart_windows_title(&self) -> (r: &'static str)
        ensures
            r@ == (match self.lang() {
                Language::English => "Manual Restart Steam (Windows)"@,
                Language::Chinese => "手动重启 Steam (Windows)"@,
            }),
    {
        match self.lang {
            Language::English => en::manual_restart_windows_title(),
            Language::Chinese => zh::manual_restart_windows_title(),
        }
    }

    pub fn manual_restart_linux_title(&self) -> (r: &'static str)
        ensures
            r@ == (match self.lang() {
                Language::English => "Manual Restart Steam (Linux)"@,
                Language::Chinese => "手动重启 Steam (Linux)"@,
            }),
    {
        match self.lang {
            Language::English => en::manual_restart_linux_title(),
            Language::Chinese => zh::manual_restart_linux_title(),
        }
    }

    pub fn prepare_upload(&self) -> (r: &'static str)
        ensures
            r@ == (match self.lang() {
                Language::English => "Prepare Upload"@,
                Language::Chinese => "准备上传"@,
            }),
    {
        match self.lang {
            Language::English => en::prepare_upload(),
            Language::Chinese => zh::prepare_upload(),
        }
    }

    pub fn will_upload_files(&self, count: usize) -> (r: String)
        ensures
            r@ == (match self.lang() {
                Language::English => "Will upload "@ + crate::text::decimal(count as nat) + " file"@ + (if count != 1 { "s"@ } else { ""@ }) + " to Steam Cloud"@,
                Language::Chinese => "将要上传 "@ + crate::text::decimal(count as nat) + " 个文件到 Steam Cloud"@,
            }),
    {
        match self.lang {
            Language::English => en::will_upload_files(count),
            Language::Chinese => zh::will_upload_files(count),
        }
    }

    pub fn total_size_label(&self, size: &str) -> (r: String)
        ensures
            r@ == (match self.lang() {
                Language::English => "Total size: "@ + size@,
                Language::Chinese => "总大小: "@ + size@,
            }),
    {
        match self.lang {
            Language::English => en::total_size_label(size),
            Language::Chinese => zh::total_size_label(size),
        }
    }

    pub fn warning(&self) -> (r: String)
        ensures
            r@ == (match self.lang() {
                Language::English => seq!['\u{E4E0}'] + " Warning:"@,
                Language::Chinese => seq!['\u{E4E0}'] + " 警告："@,
            }),
    {
        match self.lang {
            Language::English => en::warning(),
            Language::Chinese => zh::warning(),
        }
    }

    pub fn overwrite_warning(&self) -> (r: &'static str)
        ensures
            r@ == (match self.lang() {
                Language::English => "• Files with same name will be overwritten"@,
                Language::Chinese => "• 同名文件将被覆盖"@,
            }),
    {
        match self.lang {
            Language::English => en::overwrite_warning(),
            Language::Chinese => zh::overwrite_warning(),
        }
    }

    pub fn add_files(&self) -> (r: String)
        ensures
            r@ == (match self.lang() {
                Language::English => seq!['\u{E236}'] + " Add Files"@,
                Language::Chinese => seq!['\u{E236}'] + " 添加文件"@,
            }),
    {
        match self.lang {
            Language::English => en::add_files(),
            Language::Chinese => zh::add_files(),
        }
    }

    pub fn add_folder(&self) -> (r: String)
        ensures
            r@ == (match self.lang() {
                Language::English => seq!['\u{E258}'] + " Add Folder"@,
                Language::Chinese => seq!['\u{E258}'] + " 添加文件夹"@,
            }),
    {
        match self.lang {
            Language::English => en::add_folder(),
            Language::Chinese => zh::add_folder(),
        }
    }

    pub fn confirm_upload(&self) -> (r: String)
        ensures
            r@ == (match self.lang() {
                Language::English => seq!['\u{E182}'] + " Confirm Upload"@,
                Language::Chinese => seq!['\u{E182}'] + " 确认上传"@,
            }),
    {
        match self.lang {
            Language::English => en::confirm_upload(),
            Language::Chinese => zh::confirm_upload(),
        }
    }

    pub fn remove_file(&self) -> (r: &'static str)
        ensures
            r@ == (match self.lang() {
                Language::English => "Remove"@,
                Language::Chinese => "移除"@,
            }),
    {
        match self.lang {
            Language::English => en::remove_file(),
            Language::Chinese => zh::remove_file(),
        }
    }

    pub fn cloud_path(&self) -> (r: &'static str)
        ensures
            r@ == (match self.lang() {
                Language::English => "Cloud Path"@,
                Language::Chinese => "云端路径"@,
            }),
    {
        match self.lang {
            Language::English => en::cloud_path(),
            Language::Chinese => zh::cloud_path(),
        }
    }

    pub fn edit_path(&self) -> (r: &'static str)
        ensures
            r@ == (match self.lang() {
                Language::English => "Edit Path"@,
                Language::Chinese => "编辑路径"@,
            }),
    {
        match self.lang {
            Language::English => en::edit_path(),
            Language::Chinese => zh::edit_path(),
        }
    }

    pub fn local_file(&self) -> (r: &'static str)
        ensures
            r@ == (match self.lang() {
                Language::English => "Local File"@,
                Language::Chinese => "本地文件"@,
            }),
    {
        match self.lang {
            Language::English => en::local_file(),
            Language::Chinese => zh::local_file(),
        }
    }

    pub fn no_files_to_upload(&self) -> (r: &'static str)
        ensures
            r@ == (match self.lang() {
                Language::English => "No files to upload, please add files"@,
                Language::Chinese => "没有文件待上传，请添加文件"@,
            }),
    {
        match self.lang {
            Language::English => en::no_files_to_upload(),
            Language::Chinese => zh::no_files_to_upload(),
        }
    }

    pub fn clear_all(&self) -> (r: &'static str)
        ensures
            r@ == (match self.lang() {
                Language::English => "Clear All"@,
                Language::Chinese => "清空列表"@,
            }),
    {
        match self.lang {
            Language::English => en::clear_all(),
            Language::Chinese => zh::clear_all(),
        }
    }

    pub fn uploading_files(&self) -> (r: String)
        ensures
            r@ == (match self.lang() {
                Language::English => seq!['\u{E4C0}'] + " Uploading Files"@,
                Language::Chinese => seq!['\u{E4C0}'] + " 正在上传文件"@,
            }),
    {
        match self.lang {
            Language::English => en::uploading_files(),
            Language::Chinese => zh::uploading_files(),
        }
    }

    pub fn uploading_file(&self, name: &str) -> (r: String)
        ensures
            r@ == (match self.lang() {
                Language::English => "Uploading: "@ + name@,
                Language::Chinese => "正在上传: "@ + name@,
            }),
    {
        match self.lang {
            Language::English => en::uploading_file(name),
            Language::Chinese => zh::uploading_file(name),
        }
    }

    pub fn upload_progress(&self, current: usize, total: usize) -> (r: String)
        ensures
            r@ == (match self.lang() {
                Language::English => "Progress: "@ + crate::text::decimal(current as nat) + " / "@ + crate::text::decimal(total as nat) + " files"@,
                Language::Chinese => "进度: "@ + crate::text::decimal(current as nat) + " / "@ + crate::text::decimal(total as nat) + " 文件"@,
            }),
    {
        match self.lang {
            Language::English => en::upload_progress(current, total),
            Language::Chinese => zh::upload_progress(current, total),
        }
    }

    pub fn speed(&self, speed_text: &str) -> (r: String)
        ensures
            r@ == (match self.lang() {
                Language::English => "Speed: "@ + speed_text@ + "/s"@,
                Language::Chinese => "速度: "@ + speed_text@ + "/s"@,
            }),
    {
        match self.lang {
            Language::English => en::speed(speed_text),
            Language::Chinese => zh::speed(speed_text),
        }
    }

    pub fn upload_complete(&self) -> (r: String)
        ensures
            r@ == (match self.lang() {
                Language::English => seq!['\u{E182}'] + " Upload Complete"@,
                Language::Chinese => seq!['\u{E182}'] + " 上传完成"@,
            }),
    {
        match self.lang {
            Language::English => en::upload_complete(),
            Language::Chinese => zh::upload_complete(),
        }
    }

    pub fn upload_success(&self, count: usize) -> (r: String)
        ensures
            r@ == (match self.lang() {
                Language::English => seq!['\u{E3FC}'] + " Successfully uploaded "@ + crate::text::decimal(count as nat) + " file"@ + (if count != 1 { "s"@ } else { ""@ }),
                Language::Chinese => seq!['\u{E3FC}'] + " 成功上传 "@ + crate::text::decimal(count as nat) + " 个文件"@,
            }),
    {
        match self.lang {
            Language::English => en::upload_success(count),
            Language::Chinese => zh::upload_success(count),
        }
    }

    pub fn upload_partial(&self, success: usize, failed: usize) -> (r: String)
        ensures
            r@ == (match self.lang() {
                Language::English => seq!['\u{E4E0}'] + " Upload complete: "@ + crate::text::decimal(success as nat) + " succeeded, "@ + crate::text::decimal(failed as nat) + " failed"@,
                Language::Chinese => seq!['\u{E4E0}'] + " 上传完成：成功 "@ + crate::text::decimal(success as nat) + "，失败 "@ + crate::text::decimal(failed as nat),
            }),
    {
        match self.lang {
            Language::English => en::upload_partial(success, failed),
            Language::Chinese => zh::upload_partial(success, failed),
        }
    }

    pub fn elapsed_time(&self, secs: u64) -> (r: String)
        ensures
            r@ == (match self.lang() {
                Language::English => "Time: "@ + crate::text::decimal(secs as nat) + " second"@ + (if secs != 1 { "s"@ } else { ""@ }),
                Language::Chinese => "用时: "@ + crate::text::decimal(secs as nat) + " 秒"@,
            }),
    {
        match self.lang {
            Language::English => en::elapsed_time(secs),
            Language::Chinese => zh::elapsed_time(secs),
        }
    }

    pub fn avg_speed(&self, speed: &str) -> (r: String)
        ensures
            r@ == (match self.lang() {
                Language::English => "Avg speed: "@ + speed@ + "/s"@,
                Language::Chinese => "平均速度: "@ + speed@ + "/s"@,
            }),
    {
        match self.lang {
            Language::English => en::avg_speed(speed),
            Language::Chinese => zh::avg_speed(speed),
        }
    }

    pub fn failed_files(&self) -> (r: &'static str)
        ensures
            r@ == (match self.lang() {
                Language::English => "Failed files:"@,
                Language::Chinese => "失败文件列表："@,
            }),
    {
        match self.lang {
            Language::English => en::failed_files(),
            Language::Chinese => zh::failed_files(),
        }
    }

    pub fn reason(&self, err: &str) -> (r: String)
        ensures
            r@ == (match self.lang() {
                Language::English => "  Reason: "@ + err@,
                Language::Chinese => "  原因: "@ + err@,
            }),
    {
        match self.lang {
            Language::English => en::reason(err),
            Language::Chinese => zh::reason(err),
        }
    }

    pub fn closing_steam(&self) -> (r: &'static str)
        ensures
            r@ == (match self.lang() {
                Language::English => "Closing Steam..."@,
                Language::Chinese => "正在关闭 Steam..."@,
            }),
    {
        match self.lang {
            Language::English => en::closing_steam(),
            Language::Chinese => zh::closing_steam(),
        }
    }

    pub fn starting_steam(&self) -> (r: &'static str)
        ensures
            r@ == (match self.lang() {
                Language::English => "Starting Steam..."@,
                Language::Chinese => "正在启动 Steam..."@,
            }),
    {
        match self.lang {
            Language::English => en::starting_steam(),
            Language::Chinese => zh::starting_steam(),
        }
    }

    pub fn steam_restart_success(&self) -> (r: &'static str)
        ensures
            r@ == (match self.lang() {
                Language::English => "Steam restarted successfully!"@,
                Language::Chinese => "Steam 已成功重启!"@,
            }),
    {
        match self.lang {
            Language::English => en::steam_restart_success(),
            Language::Chinese => zh::steam_restart_success(),
        }
    }

    pub fn user_switched(&self) -> (r: &'static str)
        ensures
            r@ == (match self.lang() {
                Language::English => "User switched"@,
                Language::Chinese => "已切换用户"@,
            }),
    {
        match self.lang {
            Language::English => en::user_switched(),
            Language::Chinese => zh::user_switched(),
        }
    }

    pub fn error_enter_app_id(&self) -> (r: &'static str)
        ensures
            r@ == (match self.lang() {
                Language::English => "Please enter App ID"@,
                Language::Chinese => "请输入App ID"@,
            }),
    {
        match self.lang {
            Language::English => en::error_enter_app_id(),
            Language::Chinese => zh::error_enter_app_id(),
        }
    }

    pub fn error_invalid_app_id(&self) -> (r: &'static str)
        ensures
            r@ == (match self.lang() {
                Language::English => "Invalid App ID"@,
                Language::Chinese => "无效的 App ID"@,
            }),
    {
        match self.lang {
            Language::English => en::error_invalid_app_id(),
            Language::Chinese => zh::error_invalid_app_id(),
        }
    }

    pub fn status_enter_app_id(&self) -> (r: &'static str)
        ensures
            r@ == (match self.lang() {
                Language::English => "Enter App ID and connect to Steam"@,
                Language::Chinese => "请输入App ID并连接到Steam"@,
            }),
    {
        match self.lang {
            Language::English => en::status_enter_app_id(),
            Language::Chinese => zh::status_enter_app_id(),
        }
    }

    pub fn status_loading_files(&self) -> (r: &'static str)
        ensures
            r@ == (match self.lang() {
                Language::English => "Loading file list..."@,
                Language::Chinese => "正在加载文件列表..."@,
            }),
    {
        match self.lang {
            Language::English => en::status_loading_files(),
            Language::Chinese => zh::status_loading_files(),
        }
    }

    pub fn status_files_loaded(&self, count: usize) -> (r: String)
        ensures
            r@ == (match self.lang() {
                Language::English => "Loaded "@ + crate::text::decimal(count as nat) + " file"@ + (if count != 1 { "s"@ } else { ""@ }),
                Language::Chinese => "已加载 "@ + crate::text::decimal(count as nat) + " 个文件"@,
            }),
    {
        match self.lang {
            Language::English => en::status_files_loaded(count),
            Language::Chinese => zh::status_files_loaded(count),
        }
    }

    pub fn upload_failed(&self, err: &str) -> (r: String)
        ensures
            r@ == (match self.lang() {
                Language::English => "Upload failed: "@ + err@,
                Language::Chinese => "上传失败: "@ + err@,
            }),
    {
        match self.lang {
            Language::English => en::upload_failed(err),
            Language::Chinese => zh::upload_failed(err),
        }
    }

    pub fn error_no_files_selected(&self) -> (r: &'static str)
        ensures
            r@ == (match self.lang() {
                Language::English => "Please select files to operate"@,
                Language::Chinese => "请选择要操作的文件"@,
            }),
    {
        match self.lang {
            Language::English => en::error_no_files_selected(),
            Language::Chinese => zh::error_no_files_selected(),
        }
    }

    pub fn error_not_connected(&self) -> (r: &'static str)
        ensures
            r@ == (match self.lang() {
                Language::English => "Not connected to Steam"@,
                Language::Chinese => "未连接到 Steam"@,
            }),
    {
        match self.lang {
            Language::English => en::error_not_connected(),
            Language::Chinese => zh::error_not_connected(),
        }
    }

    pub fn hint_you_can(&self) -> (r: &'static str)
        ensures
            r@ == (match self.lang() {
                Language::English => "You can:"@,
                Language::Chinese => "您可以："@,
            }),
    {
        match self.lang {
            Language::English => en::hint_you_can(),
            Language::Chinese => zh::hint_you_can(),
        }
    }

    pub fn hint_select_game(&self) -> (r: &'static str)
        ensures
            r@ == (match self.lang() {
                Language::English => "Click 'Game Library' button above to choose a game"@,
                Language::Chinese => "点击上方的 '游戏库' 按钮选择游戏"@,
            }),
    {
        match self.lang {
            Language::English => en::hint_select_game(),
            Language::Chinese => zh::hint_select_game(),
        }
    }

    pub fn hint_enter_app_id(&self) -> (r: &'static str)
        ensures
            r@ == (match self.lang() {
                Language::English => "Or enter App ID directly and click 'Connect'"@,
                Language::Chinese => "或直接输入 App ID 并点击 '连接'"@,
            }),
    {
        match self.lang {
            Language::English => en::hint_enter_app_id(),
            Language::Chinese => zh::hint_enter_app_id(),
        }
    }

    pub fn no_cloud_files(&self) -> (r: &'static str)
        ensures
            r@ == (match self.lang() {
                Language::English => "No cloud files found"@,
                Language::Chinese => "没有找到云文件"@,
            }),
    {
        match self.lang {
            Language::English => en::no_cloud_files(),
            Language::Chinese => zh::no_cloud_files(),
        }
    }

    pub fn no_cloud_files_hint(&self) -> (r: &'static str)
        ensures
            r@ == (match self.lang() {
                Language::English => "This game has no cloud save files"@,
                Language::Chinese => "该游戏没有云存档文件"@,
            }),
    {
        match self.lang {
            Language::English => en::no_cloud_files_hint(),
            Language::Chinese => zh::no_cloud_files_hint(),
        }
    }

    pub fn scan_games_failed(&self, err: &str) -> (r: String)
        ensures
            r@ == (match self.lang() {
                Language::English => "Failed to scan games: "@ + err@,
                Language::Chinese => "扫描游戏失败: "@ + err@,
            }),
    {
        match self.lang {
            Language::English => en::scan_games_failed(err),
            Language::Chinese => zh::scan_games_failed(err),
        }
    }

    pub fn refresh_files_failed(&self, err: &str) -> (r: String)
        ensures
            r@ == (match self.lang() {
                Language::English => "Failed to refresh file list: "@ + err@,
                Language::Chinese => "刷新文件列表失败: "@ + err@,
            }),
    {
        match self.lang {
            Language::English => en::refresh_files_failed(err),
            Language::Chinese => zh::refresh_files_failed(err),
        }
    }

    pub fn cdp_no_data_error(&self) -> (r: &'static str)
        ensures
            r@ == (match self.lang() {
                Language::English => "CDP failed to get game data!\n\nPossible reasons:\n1. Steam client not responding to redirect request\n2. Page not fully loaded\n3. Not logged into Steam web\n\n"@,
                Language::Chinese => "CDP 未获取到游戏数据！\n\n可能原因：\n1. Steam 客户端未响应跳转请求\n2. 页面加载未完成\n3. 未登录 Steam 网页\n\n"@,
            }),
    {
        match self.lang {
            Language::English => en::cdp_no_data_error(),
            Language::Chinese => zh::cdp_no_data_error(),
        }
    }

    pub fn connecting_to_steam(&self, app_id: u32) -> (r: String)
        ensures
            r@ == (match self.lang() {
                Language::English => "Connecting to Steam (App ID: "@ + crate::text::decimal(app_id as nat) + ")..."@,
                Language::Chinese => "正在连接到 Steam (App ID: "@ + crate::text::decimal(app_id as nat) + ")..."@,
            }),
    {
        match self.lang {
            Language::English => en::connecting_to_steam(app_id),
            Language::Chinese => zh::connecting_to_steam(app_id),
        }
    }

    pub fn loading_files_for_app(&self, app_id: u32) -> (r: String)
        ensures
            r@ == (match self.lang() {
                Language::English => "Loading file list (App ID: "@ + crate::text::decimal(app_id as nat) + ")..."@,
                Language::Chinese => "正在加载文件列表 (App ID: "@ + crate::text::decimal(app_id as nat) + ")..."@,
            }),
    {
        match self.lang {
            Language::English => en::loading_files_for_app(app_id),
            Language::Chinese => zh::loading_files_for_app(app_id),
        }
    }

    pub fn connect_steam_failed(&self, err: &str) -> (r: String)
        ensures
            r@ == (match self.lang() {
                Language::English => "Failed to connect to Steam: "@ + err@,
                Language::Chinese => "连接Steam失败: "@ + err@,
            }),
    {
        match self.lang {
            Language::English => en::connect_steam_failed(err),
            Language::Chinese => zh::connect_steam_failed(err),
        }
    }

    pub fn vdf_parser_not_initialized(&self) -> (r: &'static str)
        ensures
            r@ == (match self.lang() {
                Language::English => "VDF parser not initialized"@,
                Language::Chinese => "VDF 解析器未初始化"@,
            }),
    {
        match self.lang {
            Language::English => en::vdf_parser_not_initialized(),
            Language::Chinese => zh::vdf_parser_not_initialized(),
        }
    }

    pub fn scanning_game_library(&self) -> (r: &'static str)
        ensures
            r@ == (match self.lang() {
                Language::English => "Scanning game library..."@,
                Language::Chinese => "正在扫描游戏库..."@,
            }),
    {
        match self.lang {
            Language::English => en::scanning_game_library(),
            Language::Chinese => zh::scanning_game_library(),
        }
    }

    pub fn drop_files_to_upload(&self) -> (r: &'static str)
        ensures
            r@ == (match self.lang() {
                Language::English => "Drop files to upload"@,
                Language::Chinese => "释放文件以上传"@,
            }),
    {
        match self.lang {
            Language::English => en::drop_files_to_upload(),
            Language::Chinese => zh::drop_files_to_upload(),
        }
    }

    pub fn debug_mode_not_enabled(&self) -> (r: String)
        ensures
            r@ == (match self.lang() {
                Language::English => seq!['\u{E4E0}'] + " Steam Debug Mode Not Enabled"@,
                Language::Chinese => seq!['\u{E4E0}'] + " Steam 调试模式未启用"@,
            }),
    {
        match self.lang {
            Language::English => en::debug_mode_not_enabled(),
            Language::Chinese => zh::debug_mode_not_enabled(),
        }
    }

    pub fn steam_running(&self) -> (r: String)
        ensures
            r@ == (match self.lang() {
                Language::English => seq!['\u{E182}'] + " Steam is running"@,
                Language::Chinese => seq!['\u{E182}'] + " Steam 正在运行"@,
            }),
    {
        match self.lang {
            Language::English => en::steam_running(),
            Language::Chinese => zh::steam_running(),
        }
    }

    pub fn steam_not_running(&self) -> (r: String)
        ensures
            r@ == (match self.lang() {
                Language::English => seq!['\u{E4F6}'] + " Steam is not running"@,
                Language::Chinese => seq!['\u{E4F6}'] + " Steam 未运行"@,
            }),
    {
        match self.lang {
            Language::English => en::steam_not_running(),
            Language::Chinese => zh::steam_not_running(),
        }
    }

    pub fn debug_mode_hint(&self) -> (r: &'static str)
        ensures
            r@ == (match self.lang() {
                Language::English => "CEF debug mode is required to access cloud data"@,
                Language::Chinese => "需要启用 Steam 的 CEF 调试模式才能获取到云端数据"@,
            }),
    {
        match self.lang {
            Language::English => en::debug_mode_hint(),
            Language::Chinese => zh::debug_mode_hint(),
        }
    }

    pub fn auto_restart_steam(&self) -> (r: &'static str)
        ensures
            r@ == (match self.lang() {
                Language::English => "Auto Restart Steam"@,
                Language::Chinese => "自动重启 Steam"@,
            }),
    {
        match self.lang {
            Language::English => en::auto_restart_steam(),
            Language::Chinese => zh::auto_restart_steam(),
        }
    }

    pub fn start_steam(&self) -> (r: &'static str)
        ensures
            r@ == (match self.lang() {
                Language::English => "Start Steam"@,
                Language::Chinese => "启动 Steam"@,
            }),
    {
        match self.lang {
            Language::English => en::start_steam(),
            Language::Chinese => zh::start_steam(),
        }
    }

    pub fn auto_restart_hint(&self) -> (r: &'static str)
        ensures
            r@ == (match self.lang() {
                Language::English => "Automatically restart Steam with debug parameters"@,
                Language::Chinese => "自动关闭并重启 Steam，添加调试参数"@,
            }),
    {
        match self.lang {
            Language::English => en::auto_restart_hint(),
            Language::Chinese => zh::auto_restart_hint(),
        }
    }

    pub fn start_steam_hint(&self) -> (r: &'static str)
        ensures
            r@ == (match self.lang() {
                Language::English => "Start Steam in debug mode"@,
                Language::Chinese => "以调试模式启动 Steam"@,
            }),
    {
        match self.lang {
            Language::English => en::start_steam_hint(),
            Language::Chinese => zh::start_steam_hint(),
        }
    }

    pub fn view_manual_steps(&self) -> (r: &'static str)
        ensures
            r@ == (match self.lang() {
                Language::English => "View Manual Steps"@,
                Language::Chinese => "查看手动操作"@,
            }),
    {
        match self.lang {
            Language::English => en::view_manual_steps(),
            Language::Chinese => zh::view_manual_steps(),
        }
    }

    pub fn manual_steps_hint(&self) -> (r: &'static str)
        ensures
            r@ == (match self.lang() {
                Language::English => "Show how to manually add startup parameters"@,
                Language::Chinese => "显示如何手动添加启动参数"@,
            }),
    {
        match self.lang {
            Language::English => en::manual_steps_hint(),
            Language::Chinese => zh::manual_steps_hint(),
        }
    }

    pub fn dismiss_temporarily(&self) -> (r: String)
        ensures
            r@ == (match self.lang() {
                Language::English => seq!['\u{E4F6}'] + " Dismiss"@,
                Language::Chinese => seq!['\u{E4F6}'] + " 暂时忽略"@,
            }),
    {
        match self.lang {
            Language::English => en::dismiss_temporarily(),
            Language::Chinese => zh::dismiss_temporarily(),
        }
    }

    pub fn dismiss_hint(&self) -> (r: &'static str)
        ensures
            r@ == (match self.lang() {
                Language::English => "Hide this hint (can be re-enabled in settings)"@,
                Language::Chinese => "隐藏此提示（可在设置中重新显示）"@,
            }),
    {
        match self.lang {
            Language::English => en::dismiss_hint(),
            Language::Chinese => zh::dismiss_hint(),
        }
    }

    pub fn status_label(&self) -> (r: &'static str)
        ensures
            r@ == (match self.lang() {
                Language::English => "Status:"@,
                Language::Chinese => "状态:"@,
            }),
    {
        match self.lang {
            Language::English => en::status_label(),
            Language::Chinese => zh::status_label(),
        }
    }

    pub fn cloud_on(&self) -> (r: &'static str)
        ensures
            r@ == (match self.lang() {
                Language::English => "Cloud: On"@,
                Language::Chinese => "云存储: 开启"@,
            }),
    {
        match self.lang {
            Language::English => en::cloud_on(),
            Language::Chinese => zh::cloud_on(),
        }
    }

    pub fn cloud_off(&self) -> (r: &'static str)
        ensures
            r@ == (match self.lang() {
                Language::English => "Cloud: Off"@,
                Language::Chinese => "云存储: 关闭"@,
            }),
    {
        match self.lang {
            Language::English => en::cloud_off(),
            Language::Chinese => zh::cloud_off(),
        }
    }

    pub fn select_all_hint(&self) -> (r: &'static str)
        ensures
            r@ == (match self.lang() {
                Language::English => "Select all files in the list"@,
                Language::Chinese => "选择列表中的所有文件"@,
            }),
    {
        match self.lang {
            Language::English => en::select_all_hint(),
            Language::Chinese => zh::select_all_hint(),
        }
    }

    pub fn invert_selection_hint(&self) -> (r: &'static str)
        ensures
            r@ == (match self.lang() {
                Language::English => "Invert current selection"@,
                Language::Chinese => "反转当前选择状态"@,
            }),
    {
        match self.lang {
            Language::English => en::invert_selection_hint(),
            Language::Chinese => zh::invert_selection_hint(),
        }
    }

    pub fn clear_selection_hint(&self) -> (r: &'static str)
        ensures
            r@ == (match self.lang() {
                Language::English => "Deselect all files"@,
                Language::Chinese => "取消选择所有文件"@,
            }),
    {
        match self.lang {
            Language::English => en::clear_selection_hint(),
            Language::Chinese => zh::clear_selection_hint(),
        }
    }

    pub fn download_hint(&self) -> (r: &'static str)
        ensures
            r@ == (match self.lang() {
                Language::English => "Download selected files to local"@,
                Language::Chinese => "下载选中的文件到本地"@,
            }),
    {
        match self.lang {
            Language::English => en::download_hint(),
            Language::Chinese => zh::download_hint(),
        }
    }

    pub fn upload_hint(&self) -> (r: &'static str)
        ensures
            r@ == (match self.lang() {
                Language::English => "Upload files or folders to cloud"@,
                Language::Chinese => "上传文件或文件夹到云端"@,
            }),
    {
        match self.lang {
            Language::English => en::upload_hint(),
            Language::Chinese => zh::upload_hint(),
        }
    }

    pub fn delete_hint(&self) -> (r: &'static str)
        ensures
            r@ == (match self.lang() {
                Language::English => "Delete selected files from cloud and local"@,
                Language::Chinese => "从云端和本地删除选中的文件"@,
            }),
    {
        match self.lang {
            Language::English => en::delete_hint(),
            Language::Chinese => zh::delete_hint(),
        }
    }

    pub fn forget_hint(&self) -> (r: &'static str)
        ensures
            r@ == (match self.lang() {
                Language::English => "Remove from cloud only, keep local files"@,
                Language::Chinese => "仅从云端移除，保留本地文件"@,
            }),
    {
        match self.lang {
            Language::English => en::forget_hint(),
            Language::Chinese => zh::forget_hint(),
        }
    }

    pub fn sync_to_cloud_hint(&self) -> (r: &'static str)
        ensures
            r@ == (match self.lang() {
                Language::English => "Sync local files to cloud"@,
                Language::Chinese => "将本地文件同步到云端"@,
            }),
    {
        match self.lang {
            Language::English => en::sync_to_cloud_hint(),
            Language::Chinese => zh::sync_to_cloud_hint(),
        }
    }

    pub fn connect_hint(&self) -> (r: &'static str)
        ensures
            r@ == (match self.lang() {
                Language::English => "Connect to Steam Cloud API"@,
                Language::Chinese => "连接到 Steam 云存储 API"@,
            }),
    {
        match self.lang {
            Language::English => en::connect_hint(),
            Language::Chinese => zh::connect_hint(),
        }
    }

    pub fn disconnect_hint(&self) -> (r: &'static str)
        ensures
            r@ == (match self.lang() {
                Language::English => "Disconnect from Steam"@,
                Language::Chinese => "断开与 Steam 的连接"@,
            }),
    {
        match self.lang {
            Language::English => en::disconnect_hint(),
            Language::Chinese => zh::disconnect_hint(),
        }
    }

    pub fn select_account_hint(&self) -> (r: &'static str)
        ensures
            r@ == (match self.lang() {
                Language::English => "Switch Steam account"@,
                Language::Chinese => "切换 Steam 账户"@,
            }),
    {
        match self.lang {
            Language::English => en::select_account_hint(),
            Language::Chinese => zh::select_account_hint(),
        }
    }

    pub fn select_game_hint(&self) -> (r: &'static str)
        ensures
            r@ == (match self.lang() {
                Language::English => "Select game to manage cloud saves"@,
                Language::Chinese => "选择要管理云存档的游戏"@,
            }),
    {
        match self.lang {
            Language::English => en::select_game_hint(),
            Language::Chinese => zh::select_game_hint(),
        }
    }

    pub fn local_save_path(&self) -> (r: &'static str)
        ensures
            r@ == (match self.lang() {
                Language::English => "Local Save Path:"@,
                Language::Chinese => "本地存档路径:"@,
            }),
    {
        match self.lang {
            Language::English => en::local_save_path(),
            Language::Chinese => zh::local_save_path(),
        }
    }

    pub fn local_save_path_not_found(&self) -> (r: &'static str)
        ensures
            r@ == (match self.lang() {
                Language::English => "Not found (files may only exist in cloud)"@,
                Language::Chinese => "未找到（可能所有文件都仅在云端）"@,
            }),
    {
        match self.lang {
            Language::English => en::local_save_path_not_found(),
            Language::Chinese => zh::local_save_path_not_found(),
        }
    }

    pub fn search_files_placeholder(&self) -> (r: &'static str)
        ensures
            r@ == (match self.lang() {
                Language::English => "Search files or folders..."@,
                Language::Chinese => "搜索文件或文件夹..."@,
            }),
    {
        match self.lang {
            Language::English => en::search_files_placeholder(),
            Language::Chinese => zh::search_files_placeholder(),
        }
    }

    pub fn clear(&self) -> (r: &'static str)
        ensures
            r@ == (match self.lang() {
                Language::English => "Clear"@,
                Language::Chinese => "清除"@,
            }),
    {
        match self.lang {
            Language::English => en::clear(),
            Language::Chinese => zh::clear(),
        }
    }

    pub fn only_local(&self) -> (r: &'static str)
        ensures
            r@ == (match self.lang() {
                Language::English => "Local Only"@,
                Language::Chinese => "仅本地"@,
            }),
    {
        match self.lang {
            Language::English => en::only_local(),
            Language::Chinese => zh::only_local(),
        }
    }

    pub fn only_cloud(&self) -> (r: &'static str)
        ensures
            r@ == (match self.lang() {
                Language::English => "Cloud Only"@,
                Language::Chinese => "仅云端"@,
            }),
    {
        match self.lang {
            Language::English => en::only_cloud(),
            Language::Chinese => zh::only_cloud(),
        }
    }

    pub fn only_local_tooltip(&self) -> (r: &'static str)
        ensures
            r@ == (match self.lang() {
                Language::English => "Show only files that exist locally but not in cloud"@,
                Language::Chinese => "只显示仅在本地存在的文件（未同步到云端）"@,
            }),
    {
        match self.lang {
            Language::English => en::only_local_tooltip(),
            Language::Chinese => zh::only_local_tooltip(),
        }
    }

    pub fn only_cloud_tooltip(&self) -> (r: &'static str)
        ensures
            r@ == (match self.lang() {
                Language::English => "Show only files that exist in cloud but not locally"@,
                Language::Chinese => "只显示仅在云端存在的文件（本地不存在）"@,
            }),
    {
        match self.lang {
            Language::English => en::only_cloud_tooltip(),
            Language::Chinese => zh::only_cloud_tooltip(),
        }
    }

    pub fn root_folder(&self) -> (r: &'static str)
        ensures
            r@ == (match self.lang() {
                Language::English => "Root Folder"@,
                Language::Chinese => "根文件夹"@,
            }),
    {
        match self.lang {
            Language::English => en::root_folder(),
            Language::Chinese => zh::root_folder(),
        }
    }

    pub fn file_size(&self) -> (r: &'static str)
        ensures
            r@ == (match self.lang() {
                Language::English => "File Size"@,
                Language::Chinese => "文件大小"@,
            }),
    {
        match self.lang {
            Language::English => en::file_size(),
            Language::Chinese => zh::file_size(),
        }
    }

    pub fn write_date(&self) -> (r: &'static str)
        ensures
            r@ == (match self.lang() {
                Language::English => "Write Date"@,
                Language::Chinese => "写入日期"@,
            }),
    {
        match self.lang {
            Language::English => en::write_date(),
            Language::Chinese => zh::write_date(),
        }
    }

    pub fn local(&self) -> (r: &'static str)
        ensures
            r@ == (match self.lang() {
                Language::English => "Local"@,
                Language::Chinese => "本地"@,
            }),
    {
        match self.lang {
            Language::English => en::local(),
            Language::Chinese => zh::local(),
        }
    }

    pub fn cloud(&self) -> (r: &'static str)
        ensures
            r@ == (match self.lang() {
                Language::English => "Cloud"@,
                Language::Chinese => "云端"@,
            }),
    {
        match self.lang {
            Language::English => en::cloud(),
            Language::Chinese => zh::cloud(),
        }
    }

    pub fn file_comparison_title(&self) -> (r: &'static str)
        ensures
            r@ == (match self.lang() {
                Language::English => "File Comparison"@,
                Language::Chinese => "文件对比"@,
            }),
    {
        match self.lang {
            Language::English => en::file_comparison_title(),
            Language::Chinese => zh::file_comparison_title(),
        }
    }

    pub fn total_files_count(&self, count: usize) -> (r: String)
        ensures
            r@ == (match self.lang() {
                Language::English => crate::text::decimal(count as nat) + " files total"@,
                Language::Chinese => "共 "@ + crate::text::decimal(count as nat) + " 个文件"@,
            }),
    {
        match self.lang {
            Language::English => en::total_files_count(count),
            Language::Chinese => zh::total_files_count(count),
        }
    }

    pub fn filter_all(&self) -> (r: &'static str)
        ensures
            r@ == (match self.lang() {
                Language::English => "All"@,
                Language::Chinese => "全部"@,
            }),
    {
        match self.lang {
            Language::English => en::filter_all(),
            Language::Chinese => zh::filter_all(),
        }
    }

    pub fn filter_conflicts(&self) -> (r: &'static str)
        ensures
            r@ == (match self.lang() {
                Language::English => "Conflicts"@,
                Language::Chinese => "冲突"@,
            }),
    {
        match self.lang {
            Language::English => en::filter_conflicts(),
            Language::Chinese => zh::filter_conflicts(),
        }
    }

    pub fn filter_local_newer(&self) -> (r: &'static str)
        ensures
            r@ == (match self.lang() {
                Language::English => "Local Newer"@,
                Language::Chinese => "本地较新"@,
            }),
    {
        match self.lang {
            Language::English => en::filter_local_newer(),
            Language::Chinese => zh::filter_local_newer(),
        }
    }

    pub fn filter_cloud_newer(&self) -> (r: &'static str)
        ensures
            r@ == (match self.lang() {
                Language::English => "Cloud Newer"@,
                Language::Chinese => "云端较新"@,
            }),
    {
        match self.lang {
            Language::English => en::filter_cloud_newer(),
            Language::Chinese => zh::filter_cloud_newer(),
        }
    }

    pub fn filter_synced(&self) -> (r: &'static str)
        ensures
            r@ == (match self.lang() {
                Language::English => "Synced"@,
                Language::Chinese => "已同步"@,
            }),
    {
        match self.lang {
            Language::English => en::filter_synced(),
            Language::Chinese => zh::filter_synced(),
        }
    }

    pub fn status_local_newer(&self) -> (r: &'static str)
        ensures
            r@ == (match self.lang() {
                Language::English => "Local↑"@,
                Language::Chinese => "本地新"@,
            }),
    {
        match self.lang {
            Language::English => en::status_local_newer(),
            Language::Chinese => zh::status_local_newer(),
        }
    }

    pub fn status_cloud_newer(&self) -> (r: &'static str)
        ensures
            r@ == (match self.lang() {
                Language::English => "Cloud↓"@,
                Language::Chinese => "云端新"@,
            }),
    {
        match self.lang {
            Language::English => en::status_cloud_newer(),
            Language::Chinese => zh::status_cloud_newer(),
        }
    }

    pub fn status_conflict(&self) -> (r: &'static str)
        ensures
            r@ == (match self.lang() {
                Language::English => "Conflict"@,
                Language::Chinese => "冲突"@,
            }),
    {
        match self.lang {
            Language::English => en::status_conflict(),
            Language::Chinese => zh::status_conflict(),
        }
    }

    pub fn status_local_only(&self) -> (r: &'static str)
        ensures
            r@ == (match self.lang() {
                Language::English => "Local"@,
                Language::Chinese => "仅本地"@,
            }),
    {
        match self.lang {
            Language::English => en::status_local_only(),
            Language::Chinese => zh::status_local_only(),
        }
    }

    pub fn status_cloud_only(&self) -> (r: &'static str)
        ensures
            r@ == (match self.lang() {
                Language::English => "Cloud"@,
                Language::Chinese => "仅云端"@,
            }),
    {
        match self.lang {
            Language::English => en::status_cloud_only(),
            Language::Chinese => zh::status_cloud_only(),
        }
    }

    pub fn column_status(&self) -> (r: &'static str)
        ensures
            r@ == (match self.lang() {
                Language::English => "Status"@,
                Language::Chinese => "状态"@,
            }),
    {
        match self.lang {
            Language::English => en::column_status(),
            Language::Chinese => zh::column_status(),
        }
    }

    pub fn column_filename(&self) -> (r: &'static str)
        ensures
            r@ == (match self.lang() {
                Language::English => "Filename"@,
                Language::Chinese => "文件名"@,
            }),
    {
        match self.lang {
            Language::English => en::column_filename(),
            Language::Chinese => zh::column_filename(),
        }
    }

    pub fn column_local_size(&self) -> (r: &'static str)
        ensures
            r@ == (match self.lang() {
                Language::English => "Local Size"@,
                Language::Chinese => "本地大小"@,
            }),
    {
        match self.lang {
            Language::English => en::column_local_size(),
            Language::Chinese => zh::column_local_size(),
        }
    }

    pub fn column_cloud_size(&self) -> (r: &'static str)
        ensures
            r@ == (match self.lang() {
                Language::English => "Cloud Size"@,
                Language::Chinese => "云端大小"@,
            }),
    {
        match self.lang {
            Language::English => en::column_cloud_size(),
            Language::Chinese => zh::column_cloud_size(),
        }
    }

    pub fn column_local_time(&self) -> (r: &'static str)
        ensures
            r@ == (match self.lang() {
                Language::English => "Local Time"@,
                Language::Chinese => "本地时间"@,
            }),
    {
        match self.lang {
            Language::English => en::column_local_time(),
            Language::Chinese => zh::column_local_time(),
        }
    }

    pub fn column_cloud_time(&self) -> (r: &'static str)
        ensures
            r@ == (match self.lang() {
                Language::English => "Cloud Time"@,
                Language::Chinese => "云端时间"@,
            }),
    {
        match self.lang {
            Language::English => en::column_cloud_time(),
            Language::Chinese => zh::column_cloud_time(),
        }
    }

    pub fn selected_file(&self) -> (r: &'static str)
        ensures
            r@ == (match self.lang() {
                Language::English => "Selected:"@,
                Language::Chinese => "选中文件:"@,
            }),
    {
        match self.lang {
            Language::English => en::selected_file(),
            Language::Chinese => zh::selected_file(),
        }
    }

    pub fn local_newer_by_minutes(&self, mins: i64) -> (r: String)
        ensures
            r@ == (match self.lang() {
                Language::English => "(local "@ + crate::text::signed_decimal(mins as int) + " mins newer)"@,
                Language::Chinese => "(本地比云端新 "@ + crate::text::signed_decimal(mins as int) + " 分钟)"@,
            }),
    {
        match self.lang {
            Language::English => en::local_newer_by_minutes(mins),
            Language::Chinese => zh::local_newer_by_minutes(mins),
        }
    }

    pub fn cloud_newer_by_minutes(&self, mins: i64) -> (r: String)
        ensures
            r@ == (match self.lang() {
                Language::English => "(cloud "@ + crate::text::signed_decimal(mins as int) + " mins newer)"@,
                Language::Chinese => "(云端比本地新 "@ + crate::text::signed_decimal(mins as int) + " 分钟)"@,
            }),
    {
        match self.lang {
            Language::English => en::cloud_newer_by_minutes(mins),
            Language::Chinese => zh::cloud_newer_by_minutes(mins),
        }
    }

    pub fn conflicts_warning(&self, count: usize) -> (r: String)
        ensures
            r@ == (match self.lang() {
                Language::English => crate::text::decimal(count as nat) + " conflicts detected, please resolve manually"@,
                Language::Chinese => "检测到 "@ + crate::text::decimal(count as nat) + " 个冲突，请手动解决"@,
            }),
    {
        match self.lang {
            Language::English => en::conflicts_warning(count),
            Language::Chinese => zh::conflicts_warning(count),
        }
    }

    pub fn compare_files(&self) -> (r: &'static str)
        ensures
            r@ == (match self.lang() {
                Language::English => "Compare Files"@,
                Language::Chinese => "对比文件"@,
            }),
    {
        match self.lang {
            Language::English => en::compare_files(),
            Language::Chinese => zh::compare_files(),
        }
    }

    pub fn compare_files_hint(&self) -> (r: &'static str)
        ensures
            r@ == (match self.lang() {
                Language::English => "Compare differences between local and cloud files"@,
                Language::Chinese => "对比本地和云端文件的差异"@,
            }),
    {
        match self.lang {
            Language::English => en::compare_files_hint(),
            Language::Chinese => zh::compare_files_hint(),
        }
    }

    pub fn backup(&self) -> (r: &'static str)
        ensures
            r@ == (match self.lang() {
                Language::English => "Backup"@,
                Language::Chinese => "备份"@,
            }),
    {
        match self.lang {
            Language::English => en::backup(),
            Language::Chinese => zh::backup(),
        }
    }

    pub fn backup_title(&self) -> (r: &'static str)
        ensures
            r@ == (match self.lang() {
                Language::English => "Backup Cloud Saves"@,
                Language::Chinese => "备份云存档"@,
            }),
    {
        match self.lang {
            Language::English => en::backup_title(),
            Language::Chinese => zh::backup_title(),
        }
    }

    pub fn backup_file_count(&self, count: usize) -> (r: String)
        ensures
            r@ == (match self.lang() {
                Language::English => crate::text::decimal(count as nat) + " files"@,
                Language::Chinese => "共 "@ + crate::text::decimal(count as nat) + " 个文件"@,
            }),
    {
        match self.lang {
            Language::English => en::backup_file_count(count),
            Language::Chinese => zh::backup_file_count(count),
        }
    }

    pub fn backup_total_size(&self, size: &str) -> (r: String)
        ensures
            r@ == (match self.lang() {
                Language::English => "Total size: "@ + size@,
                Language::Chinese => "总大小: "@ + size@,
            }),
    {
        match self.lang {
            Language::English => en::backup_total_size(size),
            Language::Chinese => zh::backup_total_size(size),
        }
    }

    pub fn backup_cdp_warning(&self, count: usize) -> (r: String)
        ensures
            r@ == (match self.lang() {
                Language::English => seq!['\u{E4E0}'] + " "@ + crate::text::decimal(count as nat) + " files without download URL will be skipped"@,
                Language::Chinese => seq!['\u{E4E0}'] + " "@ + crate::text::decimal(count as nat) + " 个文件无下载链接，将跳过"@,
            }),
    {
        match self.lang {
            Language::English => en::backup_cdp_warning(count),
            Language::Chinese => zh::backup_cdp_warning(count),
        }
    }

    pub fn backup_file_list(&self) -> (r: &'static str)
        ensures
            r@ == (match self.lang() {
                Language::English => "File List"@,
                Language::Chinese => "文件列表"@,
            }),
    {
        match self.lang {
            Language::English => en::backup_file_list(),
            Language::Chinese => zh::backup_file_list(),
        }
    }

    pub fn backup_start(&self) -> (r: &'static str)
        ensures
            r@ == (match self.lang() {
                Language::English => "Start Backup"@,
                Language::Chinese => "开始备份"@,
            }),
    {
        match self.lang {
            Language::English => en::backup_start(),
            Language::Chinese => zh::backup_start(),
        }
    }

    pub fn backup_open_dir(&self) -> (r: &'static str)
        ensures
            r@ == (match self.lang() {
                Language::English => "Open Backup Dir"@,
                Language::Chinese => "打开备份目录"@,
            }),
    {
        match self.lang {
            Language::English => en::backup_open_dir(),
            Language::Chinese => zh::backup_open_dir(),
        }
    }

    pub fn backup_progress_title(&self) -> (r: &'static str)
        ensures
            r@ == (match self.lang() {
                Language::English => "Backup Progress"@,
                Language::Chinese => "备份进度"@,
            }),
    {
        match self.lang {
            Language::English => en::backup_progress_title(),
            Language::Chinese => zh::backup_progress_title(),
        }
    }

    pub fn backup_in_progress(&self) -> (r: &'static str)
        ensures
            r@ == (match self.lang() {
                Language::English => "Backing up..."@,
                Language::Chinese => "正在备份..."@,
            }),
    {
        match self.lang {
            Language::English => en::backup_in_progress(),
            Language::Chinese => zh::backup_in_progress(),
        }
    }

    pub fn backup_complete(&self) -> (r: String)
        ensures
            r@ == (match self.lang() {
                Language::English => seq!['\u{E182}'] + " Backup Complete"@,
                Language::Chinese => seq!['\u{E182}'] + " 备份完成"@,
            }),
    {
        match self.lang {
            Language::English => en::backup_complete(),
            Language::Chinese => zh::backup_complete(),
        }
    }

    pub fn backup_partial(&self) -> (r: String)
        ensures
            r@ == (match self.lang() {
                Language::English => seq!['\u{E4E0}'] + " Partially Complete"@,
                Language::Chinese => seq!['\u{E4E0}'] + " 部分完成"@,
            }),
    {
        match self.lang {
            Language::English => en::backup_partial(),
            Language::Chinese => zh::backup_partial(),
        }
    }

    pub fn backup_result_stats(&self, success: usize, total: usize) -> (r: String)
        ensures
            r@ == (match self.lang() {
                Language::English => "Success: "@ + crate::text::decimal(success as nat) + " / "@ + crate::text::decimal(total as nat),
                Language::Chinese => "成功: "@ + crate::text::decimal(success as nat) + " / "@ + crate::text::decimal(total as nat),
            }),
    {
        match self.lang {
            Language::English => en::backup_result_stats(success, total),
            Language::Chinese => zh::backup_result_stats(success, total),
        }
    }

    pub fn backup_failed_files(&self) -> (r: &'static str)
        ensures
            r@ == (match self.lang() {
                Language::English => "Failed files:"@,
                Language::Chinese => "失败的文件:"@,
            }),
    {
        match self.lang {
            Language::English => en::backup_failed_files(),
            Language::Chinese => zh::backup_failed_files(),
        }
    }

    pub fn backup_hint(&self) -> (r: &'static str)
        ensures
            r@ == (match self.lang() {
                Language::English => "Backup all cloud saves for current game"@,
                Language::Chinese => "备份当前游戏的所有云存档"@,
            }),
    {
        match self.lang {
            Language::English => en::backup_hint(),
            Language::Chinese => zh::backup_hint(),
        }
    }

    pub fn backup_dir_label(&self) -> (r: &'static str)
        ensures
            r@ == (match self.lang() {
                Language::English => "Backup Directory:"@,
                Language::Chinese => "备份目录:"@,
            }),
    {
        match self.lang {
            Language::English => en::backup_dir_label(),
            Language::Chinese => zh::backup_dir_label(),
        }
    }

    pub fn download_progress_title(&self) -> (r: &'static str)
        ensures
            r@ == (match self.lang() {
                Language::English => "Download Progress"@,
                Language::Chinese => "下载进度"@,
            }),
    {
        match self.lang {
            Language::English => en::download_progress_title(),
            Language::Chinese => zh::download_progress_title(),
        }
    }

    pub fn download_in_progress(&self) -> (r: &'static str)
        ensures
            r@ == (match self.lang() {
                Language::English => "Downloading..."@,
                Language::Chinese => "正在下载..."@,
            }),
    {
        match self.lang {
            Language::English => en::download_in_progress(),
            Language::Chinese => zh::download_in_progress(),
        }
    }

    pub fn download_complete(&self) -> (r: String)
        ensures
            r@ == (match self.lang() {
                Language::English => seq!['\u{E182}'] + " Download Complete"@,
                Language::Chinese => seq!['\u{E182}'] + " 下载完成"@,
            }),
    {
        match self.lang {
            Language::English => en::download_complete(),
            Language::Chinese => zh::download_complete(),
        }
    }

    pub fn download_partial_status(&self) -> (r: String)
        ensures
            r@ == (match self.lang() {
                Language::English => seq!['\u{E4E0}'] + " Partially Complete"@,
                Language::Chinese => seq!['\u{E4E0}'] + " 部分完成"@,
            }),
    {
        match self.lang {
            Language::English => en::download_partial_status(),
            Language::Chinese => zh::download_partial_status(),
        }
    }

    pub fn download_result_stats(&self, success: usize, total: usize) -> (r: String)
        ensures
            r@ == (match self.lang() {
                Language::English => "Success: "@ + crate::text::decimal(success as nat) + " / "@ + crate::text::decimal(total as nat),
                Language::Chinese => "成功: "@ + crate::text::decimal(success as nat) + " / "@ + crate::text::decimal(total as nat),
            }),
    {
        match self.lang {
            Language::English => en::download_result_stats(success, total),
            Language::Chinese => zh::download_result_stats(success, total),
        }
    }

    pub fn download_failed_files(&self) -> (r: &'static str)
        ensures
            r@ == (match self.lang() {
                Language::English => "Failed files:"@,
                Language::Chinese => "失败的文件:"@,
            }),
    {
        match self.lang {
            Language::English => en::download_failed_files(),
            Language::Chinese => zh::download_failed_files(),
        }
    }

    pub fn download_open_dir(&self) -> (r: &'static str)
        ensures
            r@ == (match self.lang() {
                Language::English => "Open Download Dir"@,
                Language::Chinese => "打开下载目录"@,
            }),
    {
        match self.lang {
            Language::English => en::download_open_dir(),
            Language::Chinese => zh::download_open_dir(),
        }
    }

    pub fn symlink_title(&self) -> (r: &'static str)
        ensures
            r@ == (match self.lang() {
                Language::English => "Symlink Management (Experimental)"@,
                Language::Chinese => "软链接管理 (实验性)"@,
            }),
    {
        match self.lang {
            Language::English => en::symlink_title(),
            Language::Chinese => zh::symlink_title(),
        }
    }

    pub fn symlink_configured_links(&self) -> (r: &'static str)
        ensures
            r@ == (match self.lang() {
                Language::English => "Configured Symlinks"@,
                Language::Chinese => "已配置的软链接"@,
            }),
    {
        match self.lang {
            Language::English => en::symlink_configured_links(),
            Language::Chinese => zh::symlink_configured_links(),
        }
    }

    pub fn symlink_no_configs(&self) -> (r: &'static str)
        ensures
            r@ == (match self.lang() {
                Language::English => "No symlink configurations"@,
                Language::Chinese => "暂无软链接配置"@,
            }),
    {
        match self.lang {
            Language::English => en::symlink_no_configs(),
            Language::Chinese => zh::symlink_no_configs(),
        }
    }

    pub fn symlink_add_new(&self) -> (r: &'static str)
        ensures
            r@ == (match self.lang() {
                Language::English => "Add New Symlink"@,
                Language::Chinese => "添加新软链接"@,
            }),
    {
        match self.lang {
            Language::English => en::symlink_add_new(),
            Language::Chinese => zh::symlink_add_new(),
        }
    }

    pub fn symlink_direction(&self) -> (r: &'static str)
        ensures
            r@ == (match self.lang() {
                Language::English => "Direction:"@,
                Language::Chinese => "方向:"@,
            }),
    {
        match self.lang {
            Language::English => en::symlink_direction(),
            Language::Chinese => zh::symlink_direction(),
        }
    }

    pub fn symlink_local_path(&self) -> (r: &'static str)
        ensures
            r@ == (match self.lang() {
                Language::English => "Local Path:"@,
                Language::Chinese => "本地路径:"@,
            }),
    {
        match self.lang {
            Language::English => en::symlink_local_path(),
            Language::Chinese => zh::symlink_local_path(),
        }
    }

    pub fn symlink_remote_subfolder(&self) -> (r: &'static str)
        ensures
            r@ == (match self.lang() {
                Language::English => "Remote Subfolder:"@,
                Language::Chinese => "Remote 子目录:"@,
            }),
    {
        match self.lang {
            Language::English => en::symlink_remote_subfolder(),
            Language::Chinese => zh::symlink_remote_subfolder(),
        }
    }

    pub fn symlink_browse(&self) -> (r: &'static str)
        ensures
            r@ == (match self.lang() {
                Language::English => "Browse"@,
                Language::Chinese => "选择文件夹"@,
            }),
    {
        match self.lang {
            Language::English => en::symlink_browse(),
            Language::Chinese => zh::symlink_browse(),
        }
    }

    pub fn symlink_add_config(&self) -> (r: &'static str)
        ensures
            r@ == (match self.lang() {
                Language::English => "Add Config"@,
                Language::Chinese => "添加配置"@,
            }),
    {
        match self.lang {
            Language::English => en::symlink_add_config(),
            Language::Chinese => zh::symlink_add_config(),
        }
    }

    pub fn symlink_add_and_create(&self) -> (r: &'static str)
        ensures
            r@ == (match self.lang() {
                Language::English => "Add & Create Link"@,
                Language::Chinese => "添加并创建链接"@,
            }),
    {
        match self.lang {
            Language::English => en::symlink_add_and_create(),
            Language::Chinese => zh::symlink_add_and_create(),
        }
    }

    pub fn symlink_create(&self) -> (r: &'static str)
        ensures
            r@ == (match self.lang() {
                Language::English => "Create Link"@,
                Language::Chinese => "创建链接"@,
            }),
    {
        match self.lang {
            Language::English => en::symlink_create(),
            Language::Chinese => zh::symlink_create(),
        }
    }

    pub fn symlink_remove_link(&self) -> (r: &'static str)
        ensures
            r@ == (match self.lang() {
                Language::English => "Remove Link"@,
                Language::Chinese => "删除链接"@,
            }),
    {
        match self.lang {
            Language::English => en::symlink_remove_link(),
            Language::Chinese => zh::symlink_remove_link(),
        }
    }

    pub fn symlink_delete_config(&self) -> (r: &'static str)
        ensures
            r@ == (match self.lang() {
                Language::English => "Delete Config"@,
                Language::Chinese => "删除配置"@,
            }),
    {
        match self.lang {
            Language::English => en::symlink_delete_config(),
            Language::Chinese => zh::symlink_delete_config(),
        }
    }

    pub fn symlink_copy_command(&self) -> (r: &'static str)
        ensures
            r@ == (match self.lang() {
                Language::English => "Copy Command"@,
                Language::Chinese => "复制命令"@,
            }),
    {
        match self.lang {
            Language::English => en::symlink_copy_command(),
            Language::Chinese => zh::symlink_copy_command(),
        }
    }

    pub fn symlink_refresh(&self) -> (r: &'static str)
        ensures
            r@ == (match self.lang() {
                Language::English => "Refresh"@,
                Language::Chinese => "刷新"@,
            }),
    {
        match self.lang {
            Language::English => en::symlink_refresh(),
            Language::Chinese => zh::symlink_refresh(),
        }
    }

    pub fn symlink_command_copied(&self) -> (r: &'static str)
        ensures
            r@ == (match self.lang() {
                Language::English => "Command copied to clipboard"@,
                Language::Chinese => "命令已复制到剪贴板"@,
            }),
    {
        match self.lang {
            Language::English => en::symlink_command_copied(),
            Language::Chinese => zh::symlink_command_copied(),
        }
    }

    pub fn symlink_config_deleted(&self) -> (r: &'static str)
        ensures
            r@ == (match self.lang() {
                Language::English => "Config deleted"@,
                Language::Chinese => "配置已删除"@,
            }),
    {
        match self.lang {
            Language::English => en::symlink_config_deleted(),
            Language::Chinese => zh::symlink_config_deleted(),
        }
    }

    pub fn symlink_config_added(&self) -> (r: &'static str)
        ensures
            r@ == (match self.lang() {
                Language::English => "Config added"@,
                Language::Chinese => "配置已添加"@,
            }),
    {
        match self.lang {
            Language::English => en::symlink_config_added(),
            Language::Chinese => zh::symlink_config_added(),
        }
    }

    pub fn symlink_created(&self) -> (r: &'static str)
        ensures
            r@ == (match self.lang() {
                Language::English => "Symlink created"@,
                Language::Chinese => "软链接已创建"@,
            }),
    {
        match self.lang {
            Language::English => en::symlink_created(),
            Language::Chinese => zh::symlink_created(),
        }
    }

    pub fn symlink_removed(&self) -> (r: &'static str)
        ensures
            r@ == (match self.lang() {
                Language::English => "Symlink removed"@,
                Language::Chinese => "软链接已删除"@,
            }),
    {
        match self.lang {
            Language::English => en::symlink_removed(),
            Language::Chinese => zh::symlink_removed(),
        }
    }

    pub fn symlink_create_failed(&self) -> (r: &'static str)
        ensures
            r@ == (match self.lang() {
                Language::English => "Create failed"@,
                Language::Chinese => "创建失败"@,
            }),
    {
        match self.lang {
            Language::English => en::symlink_create_failed(),
            Language::Chinese => zh::symlink_create_failed(),
        }
    }

    pub fn symlink_remove_failed(&self) -> (r: &'static str)
        ensures
            r@ == (match self.lang() {
                Language::English => "Remove failed"@,
                Language::Chinese => "删除失败"@,
            }),
    {
        match self.lang {
            Language::English => en::symlink_remove_failed(),
            Language::Chinese => zh::symlink_remove_failed(),
        }
    }

    pub fn symlink_add_failed(&self) -> (r: &'static str)
        ensures
            r@ == (match self.lang() {
                Language::English => "Add config failed"@,
                Language::Chinese => "添加配置失败"@,
            }),
    {
        match self.lang {
            Language::English => en::symlink_add_failed(),
            Language::Chinese => zh::symlink_add_failed(),
        }
    }

    pub fn symlink_experimental_title(&self) -> (r: &'static str)
        ensures
            r@ == (match self.lang() {
                Language::English => "Experimental Feature"@,
                Language::Chinese => "实验性功能"@,
            }),
    {
        match self.lang {
            Language::English => en::symlink_experimental_title(),
            Language::Chinese => zh::symlink_experimental_title(),
        }
    }

    pub fn symlink_experimental_desc(&self) -> (r: &'static str)
        ensures
            r@ == (match self.lang() {
                Language::English => "Files in the directory are auto-synced after symlink creation. Use the cloud upload button to manually sync new files."@,
                Language::Chinese => "创建软链接后会自动同步目录下的文件到云端。点击云端上传按钮可手动同步新增文件。"@,
            }),
    {
        match self.lang {
            Language::English => en::symlink_experimental_desc(),
            Language::Chinese => zh::symlink_experimental_desc(),
        }
    }

    pub fn symlink_sync_files(&self) -> (r: &'static str)
        ensures
            r@ == (match self.lang() {
                Language::English => "Sync files to cloud"@,
                Language::Chinese => "同步文件到云端"@,
            }),
    {
        match self.lang {
            Language::English => en::symlink_sync_files(),
            Language::Chinese => zh::symlink_sync_files(),
        }
    }

    pub fn symlink_sync_success(&self) -> (r: &'static str)
        ensures
            r@ == (match self.lang() {
                Language::English => "Sync successful"@,
                Language::Chinese => "同步成功"@,
            }),
    {
        match self.lang {
            Language::English => en::symlink_sync_success(),
            Language::Chinese => zh::symlink_sync_success(),
        }
    }

    pub fn symlink_sync_partial(&self) -> (r: &'static str)
        ensures
            r@ == (match self.lang() {
                Language::English => "Partially synced"@,
                Language::Chinese => "部分同步成功"@,
            }),
    {
        match self.lang {
            Language::English => en::symlink_sync_partial(),
            Language::Chinese => zh::symlink_sync_partial(),
        }
    }

    pub fn symlink_sync_no_files(&self) -> (r: &'static str)
        ensures
            r@ == (match self.lang() {
                Language::English => "Directory is empty, no files to sync"@,
                Language::Chinese => "目录为空，无文件需要同步"@,
            }),
    {
        match self.lang {
            Language::English => en::symlink_sync_no_files(),
            Language::Chinese => zh::symlink_sync_no_files(),
        }
    }

    pub fn symlink_sync_no_manager(&self) -> (r: &'static str)
        ensures
            r@ == (match self.lang() {
                Language::English => "Symlink manager not initialized"@,
                Language::Chinese => "软链接管理器未初始化"@,
            }),
    {
        match self.lang {
            Language::English => en::symlink_sync_no_manager(),
            Language::Chinese => zh::symlink_sync_no_manager(),
        }
    }

    pub fn symlink_sync_no_steam(&self) -> (r: &'static str)
        ensures
            r@ == (match self.lang() {
                Language::English => "Steam not connected, cannot sync"@,
                Language::Chinese => "Steam 未连接，无法同步"@,
            }),
    {
        match self.lang {
            Language::English => en::symlink_sync_no_steam(),
            Language::Chinese => zh::symlink_sync_no_steam(),
        }
    }

    pub fn symlink_sync_scan_failed(&self) -> (r: &'static str)
        ensures
            r@ == (match self.lang() {
                Language::English => "Failed to scan directory"@,
                Language::Chinese => "扫描目录失败"@,
            }),
    {
        match self.lang {
            Language::English => en::symlink_sync_scan_failed(),
            Language::Chinese => zh::symlink_sync_scan_failed(),
        }
    }

    pub fn files(&self) -> (r: &'static str)
        ensures
            r@ == (match self.lang() {
                Language::English => "files"@,
                Language::Chinese => "个文件"@,
            }),
    {
        match self.lang {
            Language::English => en::files(),
            Language::Chinese => zh::files(),
        }
    }

    pub fn appinfo_tab_local_ufs(&self) -> (r: &'static str)
        ensures
            r@ == (match self.lang() {
                Language::English => "Local UFS Config"@,
                Language::Chinese => "本地 UFS 配置"@,
            }),
    {
        match self.lang {
            Language::English => en::appinfo_tab_local_ufs(),
            Language::Chinese => zh::appinfo_tab_local_ufs(),
        }
    }

    pub fn appinfo_tab_custom_config(&self) -> (r: &'static str)
        ensures
            r@ == (match self.lang() {
                Language::English => "Custom Config"@,
                Language::Chinese => "自定义配置"@,
            }),
    {
        match self.lang {
            Language::English => en::appinfo_tab_custom_config(),
            Language::Chinese => zh::appinfo_tab_custom_config(),
        }
    }

    pub fn appinfo_debug_title(&self, app_id: u32) -> (r: String)
        ensures
            r@ == (match self.lang() {
                Language::English => "appinfo.vdf Debug - App "@ + crate::text::decimal(app_id as nat),
                Language::Chinese => "appinfo.vdf 调试 - App "@ + crate::text::decimal(app_id as nat),
            }),
    {
        match self.lang {
            Language::English => en::appinfo_debug_title(app_id),
            Language::Chinese => zh::appinfo_debug_title(app_id),
        }
    }

    pub fn appinfo_quota(&self) -> (r: &'static str)
        ensures
            r@ == (match self.lang() {
                Language::English => "Quota:"@,
                Language::Chinese => "配额:"@,
            }),
    {
        match self.lang {
            Language::English => en::appinfo_quota(),
            Language::Chinese => zh::appinfo_quota(),
        }
    }

    pub fn appinfo_max_files(&self) -> (r: &'static str)
        ensures
            r@ == (match self.lang() {
                Language::English => "Max Files:"@,
                Language::Chinese => "最大文件数:"@,
            }),
    {
        match self.lang {
            Language::English => en::appinfo_max_files(),
            Language::Chinese => zh::appinfo_max_files(),
        }
    }

    pub fn appinfo_current_ufs(&self) -> (r: &'static str)
        ensures
            r@ == (match self.lang() {
                Language::English => "Current UFS Cloud Config:"@,
                Language::Chinese => "当前 UFS 云存储配置:"@,
            }),
    {
        match self.lang {
            Language::English => en::appinfo_current_ufs(),
            Language::Chinese => zh::appinfo_current_ufs(),
        }
    }

    pub fn appinfo_restart_steam(&self) -> (r: String)
        ensures
            r@ == (match self.lang() {
                Language::English => seq!['\u{E094}'] + " Restart Steam"@,
                Language::Chinese => seq!['\u{E094}'] + " 重启 Steam"@,
            }),
    {
        match self.lang {
            Language::English => en::appinfo_restart_steam(),
            Language::Chinese => zh::appinfo_restart_steam(),
        }
    }

    pub fn appinfo_warning(&self) -> (r: String)
        ensures
            r@ == (match self.lang() {
                Language::English => seq!['\u{E4E0}'] + " This is experimental. appinfo.vdf may be overwritten by Steam.\nInject before Steam starts, or restart Steam after injection."@,
                Language::Chinese => seq!['\u{E4E0}'] + " 此功能为实验性质。修改 appinfo.vdf 可能被 Steam 覆盖。\n需要在 Steam 启动前注入，或在注入后立即重启 Steam。"@,
            }),
    {
        match self.lang {
            Language::English => en::appinfo_warning(),
            Language::Chinese => zh::appinfo_warning(),
        }
    }

    pub fn appinfo_path_hint(&self) -> (r: &'static str)
        ensures
            r@ == (match self.lang() {
                Language::English => "e.g. MyGame/Saves"@,
                Language::Chinese => "例如: MyGame/Saves"@,
            }),
    {
        match self.lang {
            Language::English => en::appinfo_path_hint(),
            Language::Chinese => zh::appinfo_path_hint(),
        }
    }

    pub fn appinfo_pattern_hint(&self) -> (r: &'static str)
        ensures
            r@ == (match self.lang() {
                Language::English => "* or *.sav"@,
                Language::Chinese => "* 或 *.sav"@,
            }),
    {
        match self.lang {
            Language::English => en::appinfo_pattern_hint(),
            Language::Chinese => zh::appinfo_pattern_hint(),
        }
    }

    pub fn ufs_savefiles_header(&self, count: usize) -> (r: String)
        ensures
            r@ == (match self.lang() {
                Language::English => "Savefiles Configuration ("@ + crate::text::decimal(count as nat) + ")"@,
                Language::Chinese => "存档文件配置 ("@ + crate::text::decimal(count as nat) + ")"@,
            }),
    {
        match self.lang {
            Language::English => en::ufs_savefiles_header(count),
            Language::Chinese => zh::ufs_savefiles_header(count),
        }
    }

    pub fn ufs_overrides_header(&self, count: usize) -> (r: String)
        ensures
            r@ == (match self.lang() {
                Language::English => "Root Overrides ("@ + crate::text::decimal(count as nat) + ")"@,
                Language::Chinese => "跨平台路径映射 ("@ + crate::text::decimal(count as nat) + ")"@,
            }),
    {
        match self.lang {
            Language::English => en::ufs_overrides_header(count),
            Language::Chinese => zh::ufs_overrides_header(count),
        }
    }

    pub fn ufs_add_savefile(&self) -> (r: &'static str)
        ensures
            r@ == (match self.lang() {
                Language::English => "Add Savefile"@,
                Language::Chinese => "添加存档路径"@,
            }),
    {
        match self.lang {
            Language::English => en::ufs_add_savefile(),
            Language::Chinese => zh::ufs_add_savefile(),
        }
    }

    pub fn ufs_add_override(&self) -> (r: &'static str)
        ensures
            r@ == (match self.lang() {
                Language::English => "Add Override"@,
                Language::Chinese => "添加路径映射"@,
            }),
    {
        match self.lang {
            Language::English => en::ufs_add_override(),
            Language::Chinese => zh::ufs_add_override(),
        }
    }

    pub fn ufs_no_savefiles(&self) -> (r: &'static str)
        ensures
            r@ == (match self.lang() {
                Language::English => "No savefiles configured — click Add to create"@,
                Language::Chinese => "暂无存档配置 — 点击添加创建"@,
            }),
    {
        match self.lang {
            Language::English => en::ufs_no_savefiles(),
            Language::Chinese => zh::ufs_no_savefiles(),
        }
    }

    pub fn ufs_no_overrides(&self) -> (r: &'static str)
        ensures
            r@ == (match self.lang() {
                Language::English => "No overrides — add for cross-platform support"@,
                Language::Chinese => "暂无路径映射 — 添加以支持跨平台"@,
            }),
    {
        match self.lang {
            Language::English => en::ufs_no_overrides(),
            Language::Chinese => zh::ufs_no_overrides(),
        }
    }

    pub fn ufs_label_root(&self) -> (r: &'static str)
        ensures
            r@ == (match self.lang() {
                Language::English => "Root"@,
                Language::Chinese => "根目录"@,
            }),
    {
        match self.lang {
            Language::English => en::ufs_label_root(),
            Language::Chinese => zh::ufs_label_root(),
        }
    }

    pub fn ufs_label_path(&self) -> (r: &'static str)
        ensures
            r@ == (match self.lang() {
                Language::English => "Path"@,
                Language::Chinese => "路径"@,
            }),
    {
        match self.lang {
            Language::English => en::ufs_label_path(),
            Language::Chinese => zh::ufs_label_path(),
        }
    }

    pub fn ufs_label_pattern(&self) -> (r: &'static str)
        ensures
            r@ == (match self.lang() {
                Language::English => "Pattern"@,
                Language::Chinese => "匹配"@,
            }),
    {
        match self.lang {
            Language::English => en::ufs_label_pattern(),
            Language::Chinese => zh::ufs_label_pattern(),
        }
    }

    pub fn ufs_label_platforms(&self) -> (r: &'static str)
        ensures
            r@ == (match self.lang() {
                Language::English => "Platforms"@,
                Language::Chinese => "平台"@,
            }),
    {
        match self.lang {
            Language::English => en::ufs_label_platforms(),
            Language::Chinese => zh::ufs_label_platforms(),
        }
    }

    pub fn ufs_label_recursive(&self) -> (r: &'static str)
        ensures
            r@ == (match self.lang() {
                Language::English => "Recursive (search subdirectories)"@,
                Language::Chinese => "递归搜索子目录"@,
            }),
    {
        match self.lang {
            Language::English => en::ufs_label_recursive(),
            Language::Chinese => zh::ufs_label_recursive(),
        }
    }

    pub fn ufs_label_actions(&self) -> (r: &'static str)
        ensures
            r@ == (match self.lang() {
                Language::English => "Actions"@,
                Language::Chinese => "操作"@,
            }),
    {
        match self.lang {
            Language::English => en::ufs_label_actions(),
            Language::Chinese => zh::ufs_label_actions(),
        }
    }

    pub fn ufs_label_original_root(&self) -> (r: &'static str)
        ensures
            r@ == (match self.lang() {
                Language::English => "Original Root"@,
                Language::Chinese => "原始根目录"@,
            }),
    {
        match self.lang {
            Language::English => en::ufs_label_original_root(),
            Language::Chinese => zh::ufs_label_original_root(),
        }
    }

    pub fn ufs_label_target_os(&self) -> (r: &'static str)
        ensures
            r@ == (match self.lang() {
                Language::English => "Target OS"@,
                Language::Chinese => "目标系统"@,
            }),
    {
        match self.lang {
            Language::English => en::ufs_label_target_os(),
            Language::Chinese => zh::ufs_label_target_os(),
        }
    }

    pub fn ufs_label_new_root(&self) -> (r: &'static str)
        ensures
            r@ == (match self.lang() {
                Language::English => "New Root"@,
                Language::Chinese => "新根目录"@,
            }),
    {
        match self.lang {
            Language::English => en::ufs_label_new_root(),
            Language::Chinese => zh::ufs_label_new_root(),
        }
    }

    pub fn ufs_label_add_path(&self) -> (r: &'static str)
        ensures
            r@ == (match self.lang() {
                Language::English => "Add Path"@,
                Language::Chinese => "追加路径"@,
            }),
    {
        match self.lang {
            Language::English => en::ufs_label_add_path(),
            Language::Chinese => zh::ufs_label_add_path(),
        }
    }

    pub fn ufs_label_replace_path(&self) -> (r: &'static str)
        ensures
            r@ == (match self.lang() {
                Language::English => "Replace Path"@,
                Language::Chinese => "替换路径"@,
            }),
    {
        match self.lang {
            Language::English => en::ufs_label_replace_path(),
            Language::Chinese => zh::ufs_label_replace_path(),
        }
    }

    pub fn ufs_label_replace_with(&self) -> (r: &'static str)
        ensures
            r@ == (match self.lang() {
                Language::English => "Replace:"@,
                Language::Chinese => "替换为:"@,
            }),
    {
        match self.lang {
            Language::English => en::ufs_label_replace_with(),
            Language::Chinese => zh::ufs_label_replace_with(),
        }
    }

    pub fn ufs_label_find_path(&self) -> (r: &'static str)
        ensures
            r@ == (match self.lang() {
                Language::English => "Find Path"@,
                Language::Chinese => "原始路径"@,
            }),
    {
        match self.lang {
            Language::English => en::ufs_label_find_path(),
            Language::Chinese => zh::ufs_label_find_path(),
        }
    }

    pub fn ufs_hint_auto_fill(&self) -> (r: &'static str)
        ensures
            r@ == (match self.lang() {
                Language::English => "Auto-fill if empty"@,
                Language::Chinese => "留空自动填充"@,
            }),
    {
        match self.lang {
            Language::English => en::ufs_hint_auto_fill(),
            Language::Chinese => zh::ufs_hint_auto_fill(),
        }
    }

    pub fn ufs_refresh(&self) -> (r: &'static str)
        ensures
            r@ == (match self.lang() {
                Language::English => "Refresh"@,
                Language::Chinese => "刷新"@,
            }),
    {
        match self.lang {
            Language::English => en::ufs_refresh(),
            Language::Chinese => zh::ufs_refresh(),
        }
    }

    pub fn ufs_clear_all(&self) -> (r: &'static str)
        ensures
            r@ == (match self.lang() {
                Language::English => "Clear All"@,
                Language::Chinese => "清空全部"@,
            }),
    {
        match self.lang {
            Language::English => en::ufs_clear_all(),
            Language::Chinese => zh::ufs_clear_all(),
        }
    }

    pub fn ufs_clear_all_tooltip(&self) -> (r: &'static str)
        ensures
            r@ == (match self.lang() {
                Language::English => "Clear all custom savefiles and root overrides"@,
                Language::Chinese => "清空所有自定义存档路径和路径映射"@,
            }),
    {
        match self.lang {
            Language::English => en::ufs_clear_all_tooltip(),
            Language::Chinese => zh::ufs_clear_all_tooltip(),
        }
    }

    pub fn ufs_inject_to_vdf(&self) -> (r: String)
        ensures
            r@ == (match self.lang() {
                Language::English => seq!['\u{E1AE}'] + " Inject to VDF"@,
                Language::Chinese => seq!['\u{E1AE}'] + " 注入到 VDF"@,
            }),
    {
        match self.lang {
            Language::English => en::ufs_inject_to_vdf(),
            Language::Chinese => zh::ufs_inject_to_vdf(),
        }
    }

    pub fn ufs_inject_success(&self, savefiles: usize, overrides: usize) -> (r: String)
        ensures
            r@ == (match self.lang() {
                Language::English => "Injected "@ + crate::text::decimal(savefiles as nat) + " savefiles, "@ + crate::text::decimal(overrides as nat) + " overrides"@,
                Language::Chinese => "已注入 "@ + crate::text::decimal(savefiles as nat) + " 个存档路径, "@ + crate::text::decimal(overrides as nat) + " 个路径映射"@,
            }),
    {
        match self.lang {
            Language::English => en::ufs_inject_success(savefiles, overrides),
            Language::Chinese => zh::ufs_inject_success(savefiles, overrides),
        }
    }

    pub fn ufs_inject_empty(&self) -> (r: &'static str)
        ensures
            r@ == (match self.lang() {
                Language::English => "No savefiles or overrides to inject"@,
                Language::Chinese => "无存档路径或路径映射可注入"@,
            }),
    {
        match self.lang {
            Language::English => en::ufs_inject_empty(),
            Language::Chinese => zh::ufs_inject_empty(),
        }
    }

    pub fn ufs_inject_error(&self, error: &str) -> (r: String)
        ensures
            r@ == (match self.lang() {
                Language::English => "Inject error: "@ + error@,
                Language::Chinese => "注入失败: "@ + error@,
            }),
    {
        match self.lang {
            Language::English => en::ufs_inject_error(error),
            Language::Chinese => zh::ufs_inject_error(error),
        }
    }

    pub fn ufs_writer_init_error(&self, error: &str) -> (r: String)
        ensures
            r@ == (match self.lang() {
                Language::English => "Writer init error: "@ + error@,
                Language::Chinese => "写入器初始化失败: "@ + error@,
            }),
    {
        match self.lang {
            Language::English => en::ufs_writer_init_error(error),
            Language::Chinese => zh::ufs_writer_init_error(error),
        }
    }

    pub fn ufs_save_success(&self, savefiles: usize, overrides: usize) -> (r: String)
        ensures
            r@ == (match self.lang() {
                Language::English => "Saved "@ + crate::text::decimal(savefiles as nat) + " savefiles, "@ + crate::text::decimal(overrides as nat) + " overrides"@,
                Language::Chinese => "已保存 "@ + crate::text::decimal(savefiles as nat) + " 个存档路径, "@ + crate::text::decimal(overrides as nat) + " 个路径映射"@,
            }),
    {
        match self.lang {
            Language::English => en::ufs_save_success(savefiles, overrides),
            Language::Chinese => zh::ufs_save_success(savefiles, overrides),
        }
    }

    pub fn ufs_save_error(&self, error: &str) -> (r: String)
        ensures
            r@ == (match self.lang() {
                Language::English => "Save error: "@ + error@,
                Language::Chinese => "保存失败: "@ + error@,
            }),
    {
        match self.lang {
            Language::English => en::ufs_save_error(error),
            Language::Chinese => zh::ufs_save_error(error),
        }
    }

    pub fn ufs_clear_success(&self) -> (r: &'static str)
        ensures
            r@ == (match self.lang() {
                Language::English => "Cleared all custom configurations"@,
                Language::Chinese => "已清除所有自定义配置"@,
            }),
    {
        match self.lang {
            Language::English => en::ufs_clear_success(),
            Language::Chinese => zh::ufs_clear_success(),
        }
    }

    pub fn ufs_clear_error(&self, error: &str) -> (r: String)
        ensures
            r@ == (match self.lang() {
                Language::English => "Clear error: "@ + error@,
                Language::Chinese => "清除失败: "@ + error@,
            }),
    {
        match self.lang {
            Language::English => en::ufs_clear_error(error),
            Language::Chinese => zh::ufs_clear_error(error),
        }
    }

    pub fn error_get_appinfo(&self, error: &str) -> (r: String)
        ensures
            r@ == (match self.lang() {
                Language::English => "Failed to get appinfo: "@ + error@,
                Language::Chinese => "无法获取 appinfo: "@ + error@,
            }),
    {
        match self.lang {
            Language::English => en::error_get_appinfo(error),
            Language::Chinese => zh::error_get_appinfo(error),
        }
    }

    pub fn error_vdf_parser_init(&self, error: &str) -> (r: String)
        ensures
            r@ == (match self.lang() {
                Language::English => "VDF parser init failed: "@ + error@,
                Language::Chinese => "VDF 解析器初始化失败: "@ + error@,
            }),
    {
        match self.lang {
            Language::English => en::error_vdf_parser_init(error),
            Language::Chinese => zh::error_vdf_parser_init(error),
        }
    }

    pub fn error_load_timeout(&self) -> (r: &'static str)
        ensures
            r@ == (match self.lang() {
                Language::English => "Loading timed out, please retry"@,
                Language::Chinese => "加载超时，请重试"@,
            }),
    {
        match self.lang {
            Language::English => en::error_load_timeout(),
            Language::Chinese => zh::error_load_timeout(),
        }
    }

    pub fn disconnected(&self) -> (r: &'static str)
        ensures
            r@ == (match self.lang() {
                Language::English => "Disconnected"@,
                Language::Chinese => "已断开连接"@,
            }),
    {
        match self.lang {
            Language::English => en::disconnected(),
            Language::Chinese => zh::disconnected(),
        }
    }

    pub fn error_install_failed(&self, error: &str) -> (r: String)
        ensures
            r@ == (match self.lang() {
                Language::English => "Install failed: "@ + error@ + "\n\nPlease download manually"@,
                Language::Chinese => "安装失败: "@ + error@ + "\n\n请手动下载更新"@,
            }),
    {
        match self.lang {
            Language::English => en::error_install_failed(error),
            Language::Chinese => zh::error_install_failed(error),
        }
    }

    pub fn error_download_failed(&self, error: &str) -> (r: String)
        ensures
            r@ == (match self.lang() {
                Language::English => "Download failed: "@ + error@ + "\n\nPlease download manually"@,
                Language::Chinese => "下载失败: "@ + error@ + "\n\n请手动下载更新"@,
            }),
    {
        match self.lang {
            Language::English => en::error_download_failed(error),
            Language::Chinese => zh::error_download_failed(error),
        }
    }

    pub fn error_select_files_to_forget(&self) -> (r: &'static str)
        ensures
            r@ == (match self.lang() {
                Language::English => "Please select files to forget"@,
                Language::Chinese => "请选择要移出云端的文件"@,
            }),
    {
        match self.lang {
            Language::English => en::error_select_files_to_forget(),
            Language::Chinese => zh::error_select_files_to_forget(),
        }
    }

    pub fn error_local_only_no_forget(&self, count: usize) -> (r: String)
        ensures
            r@ == (match self.lang() {
                Language::English => "Selected "@ + crate::text::decimal(count as nat) + " file"@ + (if count != 1 { "s"@ } else { ""@ }) + " only exist locally, no cloud record to forget"@,
                Language::Chinese => "所选 "@ + crate::text::decimal(count as nat) + " 个文件仅存在于本地，云端无记录，无需移出"@,
            }),
    {
        match self.lang {
            Language::English => en::error_local_only_no_forget(count),
            Language::Chinese => zh::error_local_only_no_forget(count),
        }
    }

    pub fn forgotten_files(&self, count: usize) -> (r: String)
        ensures
            r@ == (match self.lang() {
                Language::English => "Removed "@ + crate::text::decimal(count as nat) + " file"@ + (if count != 1 { "s"@ } else { ""@ }) + " from cloud"@,
                Language::Chinese => "已移出云端 "@ + crate::text::decimal(count as nat) + " 个文件"@,
            }),
    {
        match self.lang {
            Language::English => en::forgotten_files(count),
            Language::Chinese => zh::forgotten_files(count),
        }
    }

    pub fn ufs_forget_failed(&self, count: usize) -> (r: String)
        ensures
            r@ == (match self.lang() {
                Language::English => crate::text::decimal(count as nat) + " auto-cloud file"@ + (if count != 1 { "s"@ } else { ""@ }) + " cannot be removed via API, try \"Delete\" instead"@,
                Language::Chinese => crate::text::decimal(count as nat) + " 个自动云同步文件无法通过 API 移出，请尝试使用「删除」功能"@,
            }),
    {
        match self.lang {
            Language::English => en::ufs_forget_failed(count),
            Language::Chinese => zh::ufs_forget_failed(count),
        }
    }

    pub fn forget_failed_files(&self, count: usize, names: &str) -> (r: String)
        ensures
            r@ == (match self.lang() {
                Language::English => crate::text::decimal(count as nat) + " file"@ + (if count != 1 { "s"@ } else { ""@ }) + " failed to forget: "@ + names@,
                Language::Chinese => crate::text::decimal(count as nat) + " 个文件移出失败: "@ + names@,
            }),
    {
        match self.lang {
            Language::English => en::forget_failed_files(count, names),
            Language::Chinese => zh::forget_failed_files(count, names),
        }
    }

    pub fn skipped_local_only_files(&self, count: usize) -> (r: String)
        ensures
            r@ == (match self.lang() {
                Language::English => "Skipped "@ + crate::text::decimal(count as nat) + " local-only file"@ + (if count != 1 { "s"@ } else { ""@ }),
                Language::Chinese => "跳过 "@ + crate::text::decimal(count as nat) + " 个本地独有文件"@,
            }),
    {
        match self.lang {
            Language::English => en::skipped_local_only_files(count),
            Language::Chinese => zh::skipped_local_only_files(count),
        }
    }

    pub fn no_files_forgotten(&self) -> (r: &'static str)
        ensures
            r@ == (match self.lang() {
                Language::English => "No files were removed from cloud"@,
                Language::Chinese => "没有文件被移出云端"@,
            }),
    {
        match self.lang {
            Language::English => en::no_files_forgotten(),
            Language::Chinese => zh::no_files_forgotten(),
        }
    }

    pub fn error_select_files_to_delete(&self) -> (r: &'static str)
        ensures
            r@ == (match self.lang() {
                Language::English => "Please select files to delete"@,
                Language::Chinese => "请选择要删除的文件"@,
            }),
    {
        match self.lang {
            Language::English => en::error_select_files_to_delete(),
            Language::Chinese => zh::error_select_files_to_delete(),
        }
    }

    pub fn deleted_files(&self, count: usize) -> (r: String)
        ensures
            r@ == (match self.lang() {
                Language::English => "Deleted "@ + crate::text::decimal(count as nat) + " file"@ + (if count != 1 { "s"@ } else { ""@ }),
                Language::Chinese => "已删除 "@ + crate::text::decimal(count as nat) + " 个文件"@,
            }),
    {
        match self.lang {
            Language::English => en::deleted_files(count),
            Language::Chinese => zh::deleted_files(count),
        }
    }

    pub fn ufs_cloud_sync_hint(&self) -> (r: &'static str)
        ensures
            r@ == (match self.lang() {
                Language::English => "Cloud copies of auto-sync files will be removed after Steam syncs, please refresh later"@,
                Language::Chinese => "自动云同步文件的云端副本将在 Steam 同步后自动删除，请稍后刷新确认"@,
            }),
    {
        match self.lang {
            Language::English => en::ufs_cloud_sync_hint(),
            Language::Chinese => zh::ufs_cloud_sync_hint(),
        }
    }

    pub fn ufs_delete_failed(&self, count: usize) -> (r: String)
        ensures
            r@ == (match self.lang() {
                Language::English => crate::text::decimal(count as nat) + " auto-cloud file"@ + (if count != 1 { "s"@ } else { ""@ }) + " cannot be deleted (game not installed, please install and retry)"@,
                Language::Chinese => crate::text::decimal(count as nat) + " 个自动云同步文件无法删除（游戏未安装且 API 不支持，请安装并启动一次游戏后重试）"@,
            }),
    {
        match self.lang {
            Language::English => en::ufs_delete_failed(count),
            Language::Chinese => zh::ufs_delete_failed(count),
        }
    }

    /// How many files failed to delete; the Chinese message also lists their
    /// names, which the English one leaves out.
    pub fn delete_failed_files(&self, count: usize, names: &str) -> (r: String)
        ensures
            r@ == (match self.lang() {
                Language::English => crate::text::decimal(count as nat) + " file"@ + (if count != 1 { "s"@ } else { ""@ })
                    + " failed to delete"@,
                Language::Chinese => crate::text::decimal(count as nat) + " 个文件删除失败: "@ + names@,
            }),
    {
        match self.lang {
            Language::English => en::delete_failed_files(count),
            Language::Chinese => zh::delete_failed_files(count, names),
        }
    }

    pub fn no_files_deleted(&self) -> (r: &'static str)
        ensures
            r@ == (match self.lang() {
                Language::English => "No files were deleted"@,
                Language::Chinese => "没有文件被删除"@,
            }),
    {
        match self.lang {
            Language::English => en::no_files_deleted(),
            Language::Chinese => zh::no_files_deleted(),
        }
    }

    pub fn error_select_files_to_sync(&self) -> (r: &'static str)
        ensures
            r@ == (match self.lang() {
                Language::English => "Please select files to sync"@,
                Language::Chinese => "请选择要同步的文件"@,
            }),
    {
        match self.lang {
            Language::English => en::error_select_files_to_sync(),
            Language::Chinese => zh::error_select_files_to_sync(),
        }
    }

    pub fn synced_files_to_cloud(&self, count: usize) -> (r: String)
        ensures
            r@ == (match self.lang() {
                Language::English => "Synced "@ + crate::text::decimal(count as nat) + " file"@ + (if count != 1 { "s"@ } else { ""@ }) + " to cloud"@,
                Language::Chinese => "已同步 "@ + crate::text::decimal(count as nat) + " 个文件到云端"@,
            }),
    {
        match self.lang {
            Language::English => en::synced_files_to_cloud(count),
            Language::Chinese => zh::synced_files_to_cloud(count),
        }
    }

    pub fn all_files_in_cloud(&self, count: usize) -> (r: String)
        ensures
            r@ == (match self.lang() {
                Language::English => "All "@ + crate::text::decimal(count as nat) + " file"@ + (if count != 1 { "s"@ } else { ""@ }) + " already in cloud, no sync needed"@,
                Language::Chinese => "所有 "@ + crate::text::decimal(count as nat) + " 个文件已在云端，无需同步"@,
            }),
    {
        match self.lang {
            Language::English => en::all_files_in_cloud(count),
            Language::Chinese => zh::all_files_in_cloud(count),
        }
    }

    pub fn no_files_synced(&self) -> (r: &'static str)
        ensures
            r@ == (match self.lang() {
                Language::English => "No files were synced"@,
                Language::Chinese => "没有文件被同步"@,
            }),
    {
        match self.lang {
            Language::English => en::no_files_synced(),
            Language::Chinese => zh::no_files_synced(),
        }
    }

    pub fn partial_sync_failed(&self, names: &str) -> (r: String)
        ensures
            r@ == (match self.lang() {
                Language::English => "Some files failed to sync: "@ + names@,
                Language::Chinese => "部分文件同步失败: "@ + names@,
            }),
    {
        match self.lang {
            Language::English => en::partial_sync_failed(names),
            Language::Chinese => zh::partial_sync_failed(names),
        }
    }

    pub fn sync_status_synced(&self) -> (r: String)
        ensures
            r@ == (match self.lang() {
                Language::English => seq!['\u{E182}'] + " Synced"@,
                Language::Chinese => seq!['\u{E182}'] + " 已同步"@,
            }),
    {
        match self.lang {
            Language::English => en::sync_status_synced(),
            Language::Chinese => zh::sync_status_synced(),
        }
    }

    pub fn sync_status_local_newer(&self) -> (r: String)
        ensures
            r@ == (match self.lang() {
                Language::English => seq!['\u{E08E}'] + " Local Newer"@,
                Language::Chinese => seq!['\u{E08E}'] + " 本地较新"@,
            }),
    {
        match self.lang {
            Language::English => en::sync_status_local_newer(),
            Language::Chinese => zh::sync_status_local_newer(),
        }
    }

    pub fn sync_status_cloud_newer(&self) -> (r: String)
        ensures
            r@ == (match self.lang() {
                Language::English => seq!['\u{E03E}'] + " Cloud Newer"@,
                Language::Chinese => seq!['\u{E03E}'] + " 云端较新"@,
            }),
    {
        match self.lang {
            Language::English => en::sync_status_cloud_newer(),
            Language::Chinese => zh::sync_status_cloud_newer(),
        }
    }

    pub fn sync_status_conflict(&self) -> (r: String)
        ensures
            r@ == (match self.lang() {
                Language::English => seq!['\u{E4E0}'] + " Conflict"@,
                Language::Chinese => seq!['\u{E4E0}'] + " 冲突"@,
            }),
    {
        match self.lang {
            Language::English => en::sync_status_conflict(),
            Language::Chinese => zh::sync_status_conflict(),
        }
    }

    pub fn sync_status_local_only(&self) -> (r: String)
        ensures
            r@ == (match self.lang() {
                Language::English => seq!['\u{E230}'] + " Local Only"@,
                Language::Chinese => seq!['\u{E230}'] + " 仅本地"@,
            }),
    {
        match self.lang {
            Language::English => en::sync_status_local_only(),
            Language::Chinese => zh::sync_status_local_only(),
        }
    }

    pub fn sync_status_cloud_only(&self) -> (r: String)
        ensures
            r@ == (match self.lang() {
                Language::English => seq!['\u{E1AA}'] + " Cloud Only"@,
                Language::Chinese => seq!['\u{E1AA}'] + " 仅云端"@,
            }),
    {
        match self.lang {
            Language::English => en::sync_status_cloud_only(),
            Language::Chinese => zh::sync_status_cloud_only(),
        }
    }

    pub fn sync_status_unknown(&self) -> (r: String)
        ensures
            r@ == (match self.lang() {
                Language::English => seq!['\u{E3E8}'] + " Checking"@,
                Language::Chinese => seq!['\u{E3E8}'] + " 检测中"@,
            }),
    {
        match self.lang {
            Language::English => en::sync_status_unknown(),
            Language::Chinese => zh::sync_status_unknown(),
        }
    }

    pub fn hash_status_pending(&self) -> (r: String)
        ensures
            r@ == (match self.lang() {
                Language::English => seq!['\u{E2B2}'] + " Pending"@,
                Language::Chinese => seq!['\u{E2B2}'] + " 等待"@,
            }),
    {
        match self.lang {
            Language::English => en::hash_status_pending(),
            Language::Chinese => zh::hash_status_pending(),
        }
    }

    pub fn hash_status_skipped(&self) -> (r: String)
        ensures
            r@ == (match self.lang() {
                Language::English => seq!['\u{E182}'] + " Skipped"@,
                Language::Chinese => seq!['\u{E182}'] + " 已跳过"@,
            }),
    {
        match self.lang {
            Language::English => en::hash_status_skipped(),
            Language::Chinese => zh::hash_status_skipped(),
        }
    }

    pub fn hash_status_checking(&self) -> (r: String)
        ensures
            r@ == (match self.lang() {
                Language::English => seq!['\u{EB44}'] + " Checking"@,
                Language::Chinese => seq!['\u{EB44}'] + " 检测中"@,
            }),
    {
        match self.lang {
            Language::English => en::hash_status_checking(),
            Language::Chinese => zh::hash_status_checking(),
        }
    }

    pub fn hash_status_match(&self) -> (r: String)
        ensures
            r@ == (match self.lang() {
                Language::English => seq!['\u{E182}'] + " Match"@,
                Language::Chinese => seq!['\u{E182}'] + " 一致"@,
            }),
    {
        match self.lang {
            Language::English => en::hash_status_match(),
            Language::Chinese => zh::hash_status_match(),
        }
    }

    pub fn hash_status_mismatch(&self) -> (r: String)
        ensures
            r@ == (match self.lang() {
                Language::English => seq!['\u{E4F8}'] + " Mismatch"@,
                Language::Chinese => seq!['\u{E4F8}'] + " 不一致"@,
            }),
    {
        match self.lang {
            Language::English => en::hash_status_mismatch(),
            Language::Chinese => zh::hash_status_mismatch(),
        }
    }

    pub fn hash_status_error(&self) -> (r: String)
        ensures
            r@ == (match self.lang() {
                Language::English => seq!['\u{E4E0}'] + " Error"@,
                Language::Chinese => seq!['\u{E4E0}'] + " 错误"@,
            }),
    {
        match self.lang {
            Language::English => en::hash_status_error(),
            Language::Chinese => zh::hash_status_error(),
        }
    }

    pub fn size_diff_label(&self) -> (r: &'static str)
        ensures
            r@ == (match self.lang() {
                Language::English => "Size diff:"@,
                Language::Chinese => "大小差异:"@,
            }),
    {
        match self.lang {
            Language::English => en::size_diff_label(),
            Language::Chinese => zh::size_diff_label(),
        }
    }

    pub fn local_larger_bytes(&self, bytes: i64) -> (r: String)
        ensures
            r@ == (match self.lang() {
                Language::English => "Local larger by "@ + crate::text::signed_decimal(bytes as int) + " bytes"@,
                Language::Chinese => "本地大 "@ + crate::text::signed_decimal(bytes as int) + " bytes"@,
            }),
    {
        match self.lang {
            Language::English => en::local_larger_bytes(bytes),
            Language::Chinese => zh::local_larger_bytes(bytes),
        }
    }

    pub fn cloud_larger_bytes(&self, bytes: i64) -> (r: String)
        ensures
            r@ == (match self.lang() {
                Language::English => "Cloud larger by "@ + crate::text::signed_decimal(bytes as int) + " bytes"@,
                Language::Chinese => "云端大 "@ + crate::text::signed_decimal(bytes as int) + " bytes"@,
            }),
    {
        match self.lang {
            Language::English => en::cloud_larger_bytes(bytes),
            Language::Chinese => zh::cloud_larger_bytes(bytes),
        }
    }

    pub fn diff_items_label(&self) -> (r: &'static str)
        ensures
            r@ == (match self.lang() {
                Language::English => "Differences:"@,
                Language::Chinese => "差异项:"@,
            }),
    {
        match self.lang {
            Language::English => en::diff_items_label(),
            Language::Chinese => zh::diff_items_label(),
        }
    }

    pub fn diff_exists(&self) -> (r: &'static str)
        ensures
            r@ == (match self.lang() {
                Language::English => "Exists"@,
                Language::Chinese => "存在"@,
            }),
    {
        match self.lang {
            Language::English => en::diff_exists(),
            Language::Chinese => zh::diff_exists(),
        }
    }

    pub fn diff_sync(&self) -> (r: &'static str)
        ensures
            r@ == (match self.lang() {
                Language::English => "Sync"@,
                Language::Chinese => "同步"@,
            }),
    {
        match self.lang {
            Language::English => en::diff_sync(),
            Language::Chinese => zh::diff_sync(),
        }
    }

    pub fn diff_size(&self) -> (r: &'static str)
        ensures
            r@ == (match self.lang() {
                Language::English => "Size"@,
                Language::Chinese => "大小"@,
            }),
    {
        match self.lang {
            Language::English => en::diff_size(),
            Language::Chinese => zh::diff_size(),
        }
    }

    pub fn diff_time(&self) -> (r: &'static str)
        ensures
            r@ == (match self.lang() {
                Language::English => "Time"@,
                Language::Chinese => "时间"@,
            }),
    {
        match self.lang {
            Language::English => en::diff_time(),
            Language::Chinese => zh::diff_time(),
        }
    }

    pub fn hash_status_label(&self) -> (r: &'static str)
        ensures
            r@ == (match self.lang() {
                Language::English => "Hash Status:"@,
                Language::Chinese => "Hash 状态:"@,
            }),
    {
        match self.lang {
            Language::English => en::hash_status_label(),
            Language::Chinese => zh::hash_status_label(),
        }
    }

    pub fn retry_hash_check(&self) -> (r: &'static str)
        ensures
            r@ == (match self.lang() {
                Language::English => "Retry Hash Check"@,
                Language::Chinese => "重新检测 Hash"@,
            }),
    {
        match self.lang {
            Language::English => en::retry_hash_check(),
            Language::Chinese => zh::retry_hash_check(),
        }
    }

    pub fn local_hash_label(&self) -> (r: &'static str)
        ensures
            r@ == (match self.lang() {
                Language::English => "Local Hash:"@,
                Language::Chinese => "本地 Hash:"@,
            }),
    {
        match self.lang {
            Language::English => en::local_hash_label(),
            Language::Chinese => zh::local_hash_label(),
        }
    }

    pub fn cloud_hash_label(&self) -> (r: &'static str)
        ensures
            r@ == (match self.lang() {
                Language::English => "Cloud Hash:"@,
                Language::Chinese => "云端 Hash:"@,
            }),
    {
        match self.lang {
            Language::English => en::cloud_hash_label(),
            Language::Chinese => zh::cloud_hash_label(),
        }
    }

    pub fn not_calculated(&self) -> (r: &'static str)
        ensures
            r@ == (match self.lang() {
                Language::English => "Not calculated"@,
                Language::Chinese => "未计算"@,
            }),
    {
        match self.lang {
            Language::English => en::not_calculated(),
            Language::Chinese => zh::not_calculated(),
        }
    }

    pub fn error_delete_config(&self, error: &str) -> (r: String)
        ensures
            r@ == (match self.lang() {
                Language::English => "Failed to delete config: "@ + error@,
                Language::Chinese => "删除配置失败: "@ + error@,
            }),
    {
        match self.lang {
            Language::English => en::error_delete_config(error),
            Language::Chinese => zh::error_delete_config(error),
        }
    }

    pub fn remote_dir_label(&self) -> (r: &'static str)
        ensures
            r@ == (match self.lang() {
                Language::English => "Remote Dir:"@,
                Language::Chinese => "Remote 目录:"@,
            }),
    {
        match self.lang {
            Language::English => en::remote_dir_label(),
            Language::Chinese => zh::remote_dir_label(),
        }
    }

    pub fn copy_path(&self) -> (r: &'static str)
        ensures
            r@ == (match self.lang() {
                Language::English => "Copy Path"@,
                Language::Chinese => "复制路径"@,
            }),
    {
        match self.lang {
            Language::English => en::copy_path(),
            Language::Chinese => zh::copy_path(),
        }
    }

    pub fn symlink_conflict_label(&self) -> (r: &'static str)
        ensures
            r@ == (match self.lang() {
                Language::English => "Conflict"@,
                Language::Chinese => "冲突"@,
            }),
    {
        match self.lang {
            Language::English => en::symlink_conflict_label(),
            Language::Chinese => zh::symlink_conflict_label(),
        }
    }

    pub fn steam_path_hint_text(&self) -> (r: &'static str)
        ensures
            r@ == (match self.lang() {
                Language::English => "Steam Install Path"@,
                Language::Chinese => "Steam 安装路径"@,
            }),
    {
        match self.lang {
            Language::English => en::steam_path_hint_text(),
            Language::Chinese => zh::steam_path_hint_text(),
        }
    }

    pub fn cloud_status_not_ready(&self) -> (r: &'static str)
        ensures
            r@ == (match self.lang() {
                Language::English => "Cloud Status: Not Ready"@,
                Language::Chinese => "云存储状态: 未就绪"@,
            }),
    {
        match self.lang {
            Language::English => en::cloud_status_not_ready(),
            Language::Chinese => zh::cloud_status_not_ready(),
        }
    }

    pub fn game_file_info(&self, count: usize, size: &str) -> (r: String)
        ensures
            r@ == (match self.lang() {
                Language::English => crate::text::decimal(count as nat) + " file"@ + (if count != 1 { "s"@ } else { ""@ }) + " | "@ + size@,
                Language::Chinese => crate::text::decimal(count as nat) + " 个文件 | "@ + size@,
            }),
    {
        match self.lang {
            Language::English => en::game_file_info(count, size),
            Language::Chinese => zh::game_file_info(count, size),
        }
    }

    pub fn install_dir_label(&self, dir: &str) -> (r: String)
        ensures
            r@ == (match self.lang() {
                Language::English => "Install dir: "@ + dir@,
                Language::Chinese => "安装目录: "@ + dir@,
            }),
    {
        match self.lang {
            Language::English => en::install_dir_label(dir),
            Language::Chinese => zh::install_dir_label(dir),
        }
    }

    pub fn tags_label(&self, tags: &str) -> (r: String)
        ensures
            r@ == (match self.lang() {
                Language::English => "Tags: "@ + tags@,
                Language::Chinese => "标签: "@ + tags@,
            }),
    {
        match self.lang {
            Language::English => en::tags_label(tags),
            Language::Chinese => zh::tags_label(tags),
        }
    }

    pub fn last_played_label(&self, time: &str) -> (r: String)
        ensures
            r@ == (match self.lang() {
                Language::English => "Last played: "@ + time@,
                Language::Chinese => "最后运行: "@ + time@,
            }),
    {
        match self.lang {
            Language::English => en::last_played_label(time),
            Language::Chinese => zh::last_played_label(time),
        }
    }

    pub fn select_button(&self) -> (r: &'static str)
        ensures
            r@ == (match self.lang() {
                Language::English => "Select"@,
                Language::Chinese => "选择"@,
            }),
    {
        match self.lang {
            Language::English => en::select_button(),
            Language::Chinese => zh::select_button(),
        }
    }

    pub fn check_update_failed(&self, error: &str) -> (r: String)
        ensures
            r@ == (match self.lang() {
                Language::English => "Check update failed: "@ + error@,
                Language::Chinese => "检查更新失败: "@ + error@,
            }),
    {
        match self.lang {
            Language::English => en::check_update_failed(error),
            Language::Chinese => zh::check_update_failed(error),
        }
    }

    pub fn theme_light(&self) -> (r: &'static str)
        ensures
            r@ == (match self.lang() {
                Language::English => "Light"@,
                Language::Chinese => "浅色"@,
            }),
    {
        match self.lang {
            Language::English => en::theme_light(),
            Language::Chinese => zh::theme_light(),
        }
    }

    pub fn theme_dark(&self) -> (r: &'static str)
        ensures
            r@ == (match self.lang() {
                Language::English => "Dark"@,
                Language::Chinese => "深色"@,
            }),
    {
        match self.lang {
            Language::English => en::theme_dark(),
            Language::Chinese => zh::theme_dark(),
        }
    }

    pub fn theme_system(&self) -> (r: &'static str)
        ensures
            r@ == (match self.lang() {
                Language::English => "System"@,
                Language::Chinese => "跟随系统"@,
            }),
    {
        match self.lang {
            Language::English => en::theme_system(),
            Language::Chinese => zh::theme_system(),
        }
    }
}

} // verus!
