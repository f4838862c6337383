//! Simplified Chinese message texts.
use vstd::prelude::*;
use vstd::string::*;
use crate::icons;
use crate::text::{append_decimal, append_signed_decimal};

verus! {

pub fn language_label() -> (r: &'static str)
    ensures
        r@ == "语言:"@,
{
    "语言:"
}

pub fn app_title() -> (r: &'static str)
    ensures
        r@ == "Steam 云存档管理器"@,
{
    "Steam 云存档管理器"
}

pub fn refresh() -> (r: &'static str)
    ensures
        r@ == "刷新"@,
{
    "刷新"
}

pub fn cancel() -> (r: &'static str)
    ensures
        r@ == "取消"@,
{
    "取消"
}

pub fn close() -> (r: &'static str)
    ensures
        r@ == "关闭"@,
{
    "关闭"
}

pub fn ok() -> (r: &'static str)
    ensures
        r@ == "确定"@,
{
    "确定"
}

pub fn logged_in() -> (r: &'static str)
    ensures
        r@ == "已登录"@,
{
    "已登录"
}

pub fn not_logged_in() -> (r: &'static str)
    ensures
        r@ == "未登录"@,
{
    "未登录"
}

pub fn connect() -> (r: &'static str)
    ensures
        r@ == "连接"@,
{
    "连接"
}

pub fn disconnect() -> (r: &'static str)
    ensures
        r@ == "断开"@,
{
    "断开"
}

pub fn disconnect_sync_hint() -> (r: &'static str)
    ensures
        r@ == "断开后 Steam 将自动同步"@,
{
    "断开后 Steam 将自动同步"
}

pub fn refresh_open_url_hint() -> (r: &'static str)
    ensures
        r@ == "在 Steam 中打开云存储页面"@,
{
    "在 Steam 中打开云存储页面"
}

pub fn show_appinfo_vdf() -> (r: &'static str)
    ensures
        r@ == "配置 appinfo.vdf"@,
{
    "配置 appinfo.vdf"
}

pub fn account_cloud_status() -> (r: &'static str)
    ensures
        r@ == "账户云存储"@,
{
    "账户云存储"
}

pub fn select_account() -> (r: &'static str)
    ensures
        r@ == "账户"@,
{
    "账户"
}

pub fn select_game() -> (r: &'static str)
    ensures
        r@ == "游戏库"@,
{
    "游戏库"
}

pub fn select_all() -> (r: &'static str)
    ensures
        r@ == "全选"@,
{
    "全选"
}

pub fn invert_selection() -> (r: &'static str)
    ensures
        r@ == "反选"@,
{
    "反选"
}

pub fn clear_selection() -> (r: &'static str)
    ensures
        r@ == "清除选择"@,
{
    "清除选择"
}

pub fn download() -> (r: &'static str)
    ensures
        r@ == "下载"@,
{
    "下载"
}

pub fn upload() -> (r: &'static str)
    ensures
        r@ == "上传"@,
{
    "上传"
}

pub fn delete() -> (r: &'static str)
    ensures
        r@ == "删除"@,
{
    "删除"
}

pub fn forget() -> (r: &'static str)
    ensures
        r@ == "移出云端"@,
{
    "移出云端"
}

pub fn sync_to_cloud() -> (r: &'static str)
    ensures
        r@ == "同步云端"@,
{
    "同步云端"
}

pub fn file_name() -> (r: &'static str)
    ensures
        r@ == "文件名"@,
{
    "文件名"
}

pub fn size() -> (r: &'static str)
    ensures
        r@ == "大小"@,
{
    "大小"
}

pub fn selected_count(count: usize) -> (r: String)
    ensures
        r@ == "已选择 "@ + crate::text::decimal(count as nat) + " 个"@,
{
    let mut s = String::new();
    s.append("已选择 ");
    append_decimal(&mut s, count as u64);
    s.append(" 个");
    proof {
        assert(s@ =~= "已选择 "@ + crate::text::decimal(count as nat) + " 个"@);
    }
    s
}

pub fn select_game_title() -> (r: &'static str)
    ensures
        r@ == "选择游戏"@,
{
    "选择游戏"
}

pub fn settings_title() -> (r: &'static str)
    ensures
        r@ == "设置"@,
{
    "设置"
}

pub fn settings_log() -> (r: &'static str)
    ensures
        r@ == "日志"@,
{
    "日志"
}

pub fn settings_about() -> (r: &'static str)
    ensures
        r@ == "关于"@,
{
    "关于"
}

pub fn settings_appearance() -> (r: &'static str)
    ensures
        r@ == "外观"@,
{
    "外观"
}

pub fn settings_advanced() -> (r: &'static str)
    ensures
        r@ == "高级"@,
{
    "高级"
}

pub fn steam_path_label() -> (r: &'static str)
    ensures
        r@ == "Steam 安装路径"@,
{
    "Steam 安装路径"
}

pub fn steam_path_auto_detect() -> (r: &'static str)
    ensures
        r@ == "自动检测"@,
{
    "自动检测"
}

pub fn steam_path_browse() -> (r: &'static str)
    ensures
        r@ == "浏览..."@,
{
    "浏览..."
}

pub fn steam_path_valid(user_count: usize) -> (r: String)
    ensures
        r@ == "✓ 路径有效 (检测到 "@ + crate::text::decimal(user_count as nat) + " 个用户)"@,
{
    let mut s = String::new();
    s.append("✓ 路径有效 (检测到 ");
    append_decimal(&mut s, user_count as u64);
    s.append(" 个用户)");
    proof {
        assert(s@ =~= "✓ 路径有效 (检测到 "@ + crate::text::decimal(user_count as nat) + " 个用户)"@);
    }
    s
}

pub fn steam_path_not_exists() -> (r: &'static str)
    ensures
        r@ == "✗ 路径不存在"@,
{
    "✗ 路径不存在"
}

pub fn steam_path_no_userdata() -> (r: &'static str)
    ensures
        r@ == "✗ 缺少 userdata 目录"@,
{
    "✗ 缺少 userdata 目录"
}

pub fn steam_path_no_users() -> (r: &'static str)
    ensures
        r@ == "✗ 未找到用户"@,
{
    "✗ 未找到用户"
}

pub fn steam_path_hint() -> (r: &'static str)
    ensures
        r@ == "💡 如果 Steam 安装在非标准位置，请手动选择目录"@,
{
    "💡 如果 Steam 安装在非标准位置，请手动选择目录"
}

pub fn steam_path_restart_hint() -> (r: &'static str)
    ensures
        r@ == "修改后需要重启应用生效"@,
{
    "修改后需要重启应用生效"
}

pub fn reset_all_settings() -> (r: &'static str)
    ensures
        r@ == "恢复默认设置"@,
{
    "恢复默认设置"
}

pub fn reset_confirm() -> (r: &'static str)
    ensures
        r@ == "确定要恢复所有设置为默认值吗？"@,
{
    "确定要恢复所有设置为默认值吗？"
}

pub fn config_dir_label() -> (r: &'static str)
    ensures
        r@ == "配置文件:"@,
{
    "配置文件:"
}

pub fn open_config_dir() -> (r: &'static str)
    ensures
        r@ == "打开配置目录"@,
{
    "打开配置目录"
}

pub fn theme_mode_label() -> (r: &'static str)
    ensures
        r@ == "主题模式:"@,
{
    "主题模式:"
}

pub fn error_title() -> (r: &'static str)
    ensures
        r@ == "错误"@,
{
    "错误"
}

pub fn operation_result_title() -> (r: &'static str)
    ensures
        r@ == "操作结果"@,
{
    "操作结果"
}

pub fn author() -> (r: &'static str)
    ensures
        r@ == "作者:"@,
{
    "作者:"
}

pub fn github_repository() -> (r: &'static str)
    ensures
        r@ == "Github仓库:"@,
{
    "Github仓库:"
}

pub fn connecting() -> (r: &'static str)
    ensures
        r@ == "连接中..."@,
{
    "连接中..."
}

pub fn games_with_cloud(count: usize) -> (r: String)
    ensures
        r@ == crate::text::decimal(count as nat) + " 个有云存档的游戏"@,
{
    let mut s = String::new();
    append_decimal(&mut s, count as u64);
    s.append(" 个有云存档的游戏");
    proof {
        assert(s@ =~= crate::text::decimal(count as nat) + " 个有云存档的游戏"@);
    }
    s
}

pub fn scanning_games() -> (r: &'static str)
    ensures
        r@ == "正在扫描游戏库..."@,
{
    "正在扫描游戏库..."
}

pub fn no_cloud_games_found() -> (r: &'static str)
    ensures
        r@ == "未发现云存档的游戏"@,
{
    "未发现云存档的游戏"
}

pub fn installed() -> (r: &'static str)
    ensures
        r@ == "已安装"@,
{
    "已安装"
}

pub fn not_installed() -> (r: &'static str)
    ensures
        r@ == "未安装"@,
{
    "未安装"
}

pub fn select_user() -> (r: &'static str)
    ensures
        r@ == "选择用户"@,
{
    "选择用户"
}

pub fn user_id() -> (r: &'static str)
    ensures
        r@ == "用户 ID"@,
{
    "用户 ID"
}

pub fn current_user() -> (r: &'static str)
    ensures
        r@ == "当前用户"@,
{
    "当前用户"
}

pub fn switch() -> (r: &'static str)
    ensures
        r@ == "切换"@,
{
    "切换"
}

pub fn steam_users(count: usize) -> (r: String)
    ensures
        r@ == crate::text::decimal(count as nat) + " 个 Steam 用户"@,
{
    let mut s = String::new();
    append_decimal(&mut s, count as u64);
    s.append(" 个 Steam 用户");
    proof {
        assert(s@ =~= crate::text::decimal(count as nat) + " 个 Steam 用户"@);
    }
    s
}

pub fn checking_update() -> (r: String)
    ensures
        r@ == seq!['\u{EB44}'] + " 检查中..."@,
{
    let mut s = String::new();
    s.append(icons::spinner());
    s.append(" 检查中...");
    proof {
        assert(s@ =~= seq!['\u{EB44}'] + " 检查中..."@);
    }
    s
}

pub fn check_update_btn() -> (r: String)
    ensures
        r@ == seq!['\u{E094}'] + " 检查更新"@,
{
    let mut s = String::new();
    s.append(icons::refresh());
    s.append(" 检查更新");
    proof {
        assert(s@ =~= seq!['\u{E094}'] + " 检查更新"@);
    }
    s
}

pub fn already_latest() -> (r: String)
    ensures
        r@ == seq!['\u{E182}'] + " 当前已是最新版本"@,
{
    let mut s = String::new();
    s.append(icons::check());
    s.append(" 当前已是最新版本");
    proof {
        assert(s@ =~= seq!['\u{E182}'] + " 当前已是最新版本"@);
    }
    s
}

pub fn new_version_found(version: &str) -> (r: String)
    ensures
        r@ == "🎉 发现新版本: "@ + version@,
{
    let mut s = String::new();
    s.append("🎉 发现新版本: ");
    s.append(version);
    proof {
        assert(s@ =~= "🎉 发现新版本: "@ + version@);
    }
    s
}

pub fn new_version_hint() -> (r: &'static str)
    ensures
        r@ == "发现新版本，点击下载并安装："@,
{
    "发现新版本，点击下载并安装："
}

pub fn download_and_install() -> (r: String)
    ensures
        r@ == seq!['\u{E20C}'] + " 下载并安装"@,
{
    let mut s = String::new();
    s.append(icons::download());
    s.append(" 下载并安装");
    proof {
        assert(s@ =~= seq!['\u{E20C}'] + " 下载并安装"@);
    }
    s
}

pub fn view_details() -> (r: String)
    ensures
        r@ == seq!['\u{E288}'] + " 查看详情"@,
{
    let mut s = String::new();
    s.append(icons::globe());
    s.append(" 查看详情");
    proof {
        assert(s@ =~= seq!['\u{E288}'] + " 查看详情"@);
    }
    s
}

pub fn downloading_update() -> (r: String)
    ensures
        r@ == seq!['\u{E20C}'] + " 正在下载更新..."@,
{
    let mut s = String::new();
    s.append(icons::download());
    s.append(" 正在下载更新...");
    proof {
        assert(s@ =~= seq!['\u{E20C}'] + " 正在下载更新..."@);
    }
    s
}

pub fn installing_update() -> (r: String)
    ensures
        r@ == seq!['\u{E270}'] + " 正在安装更新..."@,
{
    let mut s = String::new();
    s.append(icons::gear());
    s.append(" 正在安装更新...");
    proof {
        assert(s@ =~= seq!['\u{E270}'] + " 正在安装更新..."@);
    }
    s
}

pub fn update_success() -> (r: String)
    ensures
        r@ == seq!['\u{E182}'] + " 更新安装成功！"@,
{
    let mut s = String::new();
    s.append(icons::check());
    s.append(" 更新安装成功！");
    proof {
        assert(s@ =~= seq!['\u{E182}'] + " 更新安装成功！"@);
    }
    s
}

pub fn restart_to_apply() -> (r: &'static str)
    ensures
        r@ == "请重启应用以使用新版本"@,
{
    "请重启应用以使用新版本"
}

pub fn restart_now() -> (r: String)
    ensures
        r@ == seq!['\u{E094}'] + " 立即重启"@,
{
    let mut s = String::new();
    s.append(icons::refresh());
    s.append(" 立即重启");
    proof {
        assert(s@ =~= seq!['\u{E094}'] + " 立即重启"@);
    }
    s
}

pub fn log_enabled_hint() -> (r: &'static str)
    ensures
        r@ == " 日志存储已启用，重启后生效"@,
{
    " 日志存储已启用，重启后生效"
}

pub fn log_disabled_hint() -> (r: &'static str)
    ensures
        r@ == " 日志存储已禁用，重启后生效"@,
{
    " 日志存储已禁用，重启后生效"
}

pub fn enable_log_storage() -> (r: &'static str)
    ensures
        r@ == "启用日志存储"@,
{
    "启用日志存储"
}

pub fn open_log_dir() -> (r: &'static str)
    ensures
        r@ == " 打开日志目录"@,
{
    " 打开日志目录"
}

pub fn log_dir_label() -> (r: &'static str)
    ensures
        r@ == "日志目录:"@,
{
    "日志目录:"
}

pub fn steam_log_dir_label() -> (r: &'static str)
    ensures
        r@ == "Steam 日志目录:"@,
{
    "Steam 日志目录:"
}

pub fn open_steam_log_dir() -> (r: &'static str)
    ensures
        r@ == " 打开 Steam 日志目录"@,
{
    " 打开 Steam 日志目录"
}

pub fn restarting_steam() -> (r: &'static str)
    ensures
        r@ == "正在重启 Steam"@,
{
    "正在重启 Steam"
}

pub fn manual_operation_required() -> (r: &'static str)
    ensures
        r@ == "需要手动操作："@,
{
    "需要手动操作："
}

pub fn i_understand() -> (r: &'static str)
    ensures
        r@ == "我知道了"@,
{
    "我知道了"
}

pub fn manual_restart_macos_title() -> (r: &'static str)
    ensures
        r@ == "手动重启 Steam (macOS)"@,
{
    "手动重启 Steam (macOS)"
}

pub fn manual_restart_windows_title() -> (r: &'static str)
    ensures
        r@ == "手动重启 Steam (Windows)"@,
{
    "手动重启 Steam (Windows)"
}

pub fn manual_restart_linux_title() -> (r: &'static str)
    ensures
        r@ == "手动重启 Steam (Linux)"@,
{
    "手动重启 Steam (Linux)"
}

pub fn prepare_upload() -> (r: &'static str)
    ensures
        r@ == "准备上传"@,
{
    "准备上传"
}

pub fn will_upload_files(count: usize) -> (r: String)
    ensures
        r@ == "将要上传 "@ + crate::text::decimal(count as nat) + " 个文件到 Steam Cloud"@,
{
    let mut s = String::new();
    s.append("将要上传 ");
    append_decimal(&mut s, count as u64);
    s.append(" 个文件到 Steam Cloud");
    proof {
        assert(s@ =~= "将要上传 "@ + crate::text::decimal(count as nat) + " 个文件到 Steam Cloud"@);
    }
    s
}

pub fn total_size_label(size: &str) -> (r: String)
    ensures
        r@ == "总大小: "@ + size@,
{
    let mut s = String::new();
    s.append("总大小: ");
    s.append(size);
    proof {
        assert(s@ =~= "总大小: "@ + size@);
    }
    s
}

pub fn warning() -> (r: String)
    ensures
        r@ == seq!['\u{E4E0}'] + " 警告："@,
{
    let mut s = String::new();
    s.append(icons::warning());
    s.append(" 警告：");
    proof {
        assert(s@ =~= seq!['\u{E4E0}'] + " 警告："@);
    }
    s
}

pub fn overwrite_warning() -> (r: &'static str)
    ensures
        r@ == "• 同名文件将被覆盖"@,
{
    "• 同名文件将被覆盖"
}

pub fn add_files() -> (r: String)
    ensures
        r@ == seq!['\u{E236}'] + " 添加文件"@,
{
    let mut s = String::new();
    s.append(icons::add_file());
    s.append(" 添加文件");
    proof {
        assert(s@ =~= seq!['\u{E236}'] + " 添加文件"@);
    }
    s
}

pub fn add_folder() -> (r: String)
    ensures
        r@ == seq!['\u{E258}'] + " 添加文件夹"@,
{
    let mut s = String::new();
    s.append(icons::add_folder());
    s.append(" 添加文件夹");
    proof {
        assert(s@ =~= seq!['\u{E258}'] + " 添加文件夹"@);
    }
    s
}

pub fn confirm_upload() -> (r: String)
    ensures
        r@ == seq!['\u{E182}'] + " 确认上传"@,
{
    let mut s = String::new();
    s.append(icons::check());
    s.append(" 确认上传");
    proof {
        assert(s@ =~= seq!['\u{E182}'] + " 确认上传"@);
    }
    s
}

pub fn remove_file() -> (r: &'static str)
    ensures
        r@ == "移除"@,
{
    "移除"
}

pub fn cloud_path() -> (r: &'static str)
    ensures
        r@ == "云端路径"@,
{
    "云端路径"
}

pub fn edit_path() -> (r: &'static str)
    ensures
        r@ == "编辑路径"@,
{
    "编辑路径"
}

pub fn local_file() -> (r: &'static str)
    ensures
        r@ == "本地文件"@,
{
    "本地文件"
}

pub fn no_files_to_upload() -> (r: &'static str)
    ensures
        r@ == "没有文件待上传，请添加文件"@,
{
    "没有文件待上传，请添加文件"
}

pub fn clear_all() -> (r: &'static str)
    ensures
        r@ == "清空列表"@,
{
    "清空列表"
}

pub fn uploading_files() -> (r: String)
    ensures
        r@ == seq!['\u{E4C0}'] + " 正在上传文件"@,
{
    let mut s = String::new();
    s.append(icons::upload());
    s.append(" 正在上传文件");
    proof {
        assert(s@ =~= seq!['\u{E4C0}'] + " 正在上传文件"@);
    }
    s
}

pub fn uploading_file(name: &str) -> (r: String)
    ensures
        r@ == "正在上传: "@ + name@,
{
    let mut s = String::new();
    s.append("正在上传: ");
    s.append(name);
    proof {
        assert(s@ =~= "正在上传: "@ + name@);
    }
    s
}

pub fn upload_progress(current: usize, total: usize) -> (r: String)
    ensures
        r@ == "进度: "@ + crate::text::decimal(current as nat) + " / "@ + crate::text::decimal(total as nat) + " 文件"@,
{
    let mut s = String::new();
    s.append("进度: ");
    append_decimal(&mut s, current as u64);
    s.append(" / ");
    append_decimal(&mut s, total as u64);
    s.append(" 文件");
    proof {
        assert(s@ =~= "进度: "@ + crate::text::decimal(current as nat) + " / "@ + crate::text::decimal(total as nat) + " 文件"@);
    }
    s
}

pub fn speed(speed_text: &str) -> (r: String)
    ensures
        r@ == "速度: "@ + speed_text@ + "/s"@,
{
    let mut s = String::new();
    s.append("速度: ");
    s.append(speed_text);
    s.append("/s");
    proof {
        assert(s@ =~= "速度: "@ + speed_text@ + "/s"@);
    }
    s
}

pub fn upload_complete() -> (r: String)
    ensures
        r@ == seq!['\u{E182}'] + " 上传完成"@,
{
    let mut s = String::new();
    s.append(icons::check());
    s.append(" 上传完成");
    proof {
        assert(s@ =~= seq!['\u{E182}'] + " 上传完成"@);
    }
    s
}

pub fn upload_success(count: usize) -> (r: String)
    ensures
        r@ == seq!['\u{E3FC}'] + " 成功上传 "@ + crate::text::decimal(count as nat) + " 个文件"@,
{
    let mut s = String::new();
    s.append(icons::rocket());
    s.append(" 成功上传 ");
    append_decimal(&mut s, count as u64);
    s.append(" 个文件");
    proof {
        assert(s@ =~= seq!['\u{E3FC}'] + " 成功上传 "@ + crate::text::decimal(count as nat) + " 个文件"@);
    }
    s
}

pub fn upload_partial(success: usize, failed: usize) -> (r: String)
    ensures
        r@ == seq!['\u{E4E0}'] + " 上传完成：成功 "@ + crate::text::decimal(success as nat) + "，失败 "@ + crate::text::decimal(failed as nat),
{
    let mut s = String::new();
    s.append(icons::warning());
    s.append(" 上传完成：成功 ");
    append_decimal(&mut s, success as u64);
    s.append("，失败 ");
    append_decimal(&mut s, failed as u64);
    proof {
        assert(s@ =~= seq!['\u{E4E0}'] + " 上传完成：成功 "@ + crate::text::decimal(success as nat) + "，失败 "@ + crate::text::decimal(failed as nat));
    }
    s
}

pub fn elapsed_time(secs: u64) -> (r: String)
    ensures
        r@ == "用时: "@ + crate::text::decimal(secs as nat) + " 秒"@,
{
    let mut s = String::new();
    s.append("用时: ");
    append_decimal(&mut s, secs as u64);
    s.append(" 秒");
    proof {
        assert(s@ =~= "用时: "@ + crate::text::decimal(secs as nat) + " 秒"@);
    }
    s
}

pub fn avg_speed(speed: &str) -> (r: String)
    ensures
        r@ == "平均速度: "@ + speed@ + "/s"@,
{
    let mut s = String::new();
    s.append("平均速度: ");
    s.append(speed);
    s.append("/s");
    proof {
        assert(s@ =~= "平均速度: "@ + speed@ + "/s"@);
    }
    s
}

pub fn failed_files() -> (r: &'static str)
    ensures
        r@ == "失败文件列表："@,
{
    "失败文件列表："
}

pub fn reason(err: &str) -> (r: String)
    ensures
        r@ == "  原因: "@ + err@,
{
    let mut s = String::new();
    s.append("  原因: ");
    s.append(err);
    proof {
        assert(s@ =~= "  原因: "@ + err@);
    }
    s
}

pub fn closing_steam() -> (r: &'static str)
    ensures
        r@ == "正在关闭 Steam..."@,
{
    "正在关闭 Steam..."
}

pub fn starting_steam() -> (r: &'static str)
    ensures
        r@ == "正在启动 Steam..."@,
{
    "正在启动 Steam..."
}

pub fn steam_restart_success() -> (r: &'static str)
    ensures
        r@ == "Steam 已成功重启!"@,
{
    "Steam 已成功重启!"
}

pub fn user_switched() -> (r: &'static str)
    ensures
        r@ == "已切换用户"@,
{
    "已切换用户"
}

pub fn error_enter_app_id() -> (r: &'static str)
    ensures
        r@ == "请输入App ID"@,
{
    "请输入App ID"
}

pub fn error_invalid_app_id() -> (r: &'static str)
    ensures
        r@ == "无效的 App ID"@,
{
    "无效的 App ID"
}

pub fn status_enter_app_id() -> (r: &'static str)
    ensures
        r@ == "请输入App ID并连接到Steam"@,
{
    "请输入App ID并连接到Steam"
}

pub fn status_loading_files() -> (r: &'static str)
    ensures
        r@ == "正在加载文件列表..."@,
{
    "正在加载文件列表..."
}

pub fn status_files_loaded(count: usize) -> (r: String)
    ensures
        r@ == "已加载 "@ + crate::text::decimal(count as nat) + " 个文件"@,
{
    let mut s = String::new();
    s.append("已加载 ");
    append_decimal(&mut s, count as u64);
    s.append(" 个文件");
    proof {
        assert(s@ =~= "已加载 "@ + crate::text::decimal(count as nat) + " 个文件"@);
    }
    s
}

pub fn upload_failed(err: &str) -> (r: String)
    ensures
        r@ == "上传失败: "@ + err@,
{
    let mut s = String::new();
    s.append("上传失败: ");
    s.append(err);
    proof {
        assert(s@ =~= "上传失败: "@ + err@);
    }
    s
}

pub fn error_no_files_selected() -> (r: &'static str)
    ensures
        r@ == "请选择要操作的文件"@,
{
    "请选择要操作的文件"
}

pub fn error_not_connected() -> (r: &'static str)
    ensures
        r@ == "未连接到 Steam"@,
{
    "未连接到 Steam"
}

pub fn hint_you_can() -> (r: &'static str)
    ensures
        r@ == "您可以："@,
{
    "您可以："
}

pub fn hint_select_game() -> (r: &'static str)
    ensures
        r@ == "点击上方的 '游戏库' 按钮选择游戏"@,
{
    "点击上方的 '游戏库' 按钮选择游戏"
}

pub fn hint_enter_app_id() -> (r: &'static str)
    ensures
        r@ == "或直接输入 App ID 并点击 '连接'"@,
{
    "或直接输入 App ID 并点击 '连接'"
}

pub fn no_cloud_files() -> (r: &'static str)
    ensures
        r@ == "没有找到云文件"@,
{
    "没有找到云文件"
}

pub fn no_cloud_files_hint() -> (r: &'static str)
    ensures
        r@ == "该游戏没有云存档文件"@,
{
    "该游戏没有云存档文件"
}

pub fn scan_games_failed(err: &str) -> (r: String)
    ensures
        r@ == "扫描游戏失败: "@ + err@,
{
    let mut s = String::new();
    s.append("扫描游戏失败: ");
    s.append(err);
    proof {
        assert(s@ =~= "扫描游戏失败: "@ + err@);
    }
    s
}

pub fn refresh_files_failed(err: &str) -> (r: String)
    ensures
        r@ == "刷新文件列表失败: "@ + err@,
{
    let mut s = String::new();
    s.append("刷新文件列表失败: ");
    s.append(err);
    proof {
        assert(s@ =~= "刷新文件列表失败: "@ + err@);
    }
    s
}

pub fn cdp_no_data_error() -> (r: &'static str)
    ensures
        r@ == "CDP 未获取到游戏数据！\n\n可能原因：\n1. Steam 客户端未响应跳转请求\n2. 页面加载未完成\n3. 未登录 Steam 网页\n\n"@,
{
    "CDP 未获取到游戏数据！\n\n可能原因：\n1. Steam 客户端未响应跳转请求\n2. 页面加载未完成\n3. 未登录 Steam 网页\n\n"
}

pub fn connecting_to_steam(app_id: u32) -> (r: String)
    ensures
        r@ == "正在连接到 Steam (App ID: "@ + crate::text::decimal(app_id as nat) + ")..."@,
{
    let mut s = String::new();
    s.append("正在连接到 Steam (App ID: ");
    append_decimal(&mut s, app_id as u64);
    s.append(")...");
    proof {
        assert(s@ =~= "正在连接到 Steam (App ID: "@ + crate::text::decimal(app_id as nat) + ")..."@);
    }
    s
}

pub fn loading_files_for_app(app_id: u32) -> (r: String)
    ensures
        r@ == "正在加载文件列表 (App ID: "@ + crate::text::decimal(app_id as nat) + ")..."@,
{
    let mut s = String::new();
    s.append("正在加载文件列表 (App ID: ");
    append_decimal(&mut s, app_id as u64);
    s.append(")...");
    proof {
        assert(s@ =~= "正在加载文件列表 (App ID: "@ + crate::text::decimal(app_id as nat) + ")..."@);
    }
    s
}

pub fn connect_steam_failed(err: &str) -> (r: String)
    ensures
        r@ == "连接Steam失败: "@ + err@,
{
    let mut s = String::new();
    s.append("连接Steam失败: ");
    s.append(err);
    proof {
        assert(s@ =~= "连接Steam失败: "@ + err@);
    }
    s
}

pub fn vdf_parser_not_initialized() -> (r: &'static str)
    ensures
        r@ == "VDF 解析器未初始化"@,
{
    "VDF 解析器未初始化"
}

pub fn scanning_game_library() -> (r: &'static str)
    ensures
        r@ == "正在扫描游戏库..."@,
{
    "正在扫描游戏库..."
}

pub fn drop_files_to_upload() -> (r: &'static str)
    ensures
        r@ == "释放文件以上传"@,
{
    "释放文件以上传"
}

pub fn debug_mode_not_enabled() -> (r: String)
    ensures
        r@ == seq!['\u{E4E0}'] + " Steam 调试模式未启用"@,
{
    let mut s = String::new();
    s.append(icons::warning());
    s.append(" Steam 调试模式未启用");
    proof {
        assert(s@ =~= seq!['\u{E4E0}'] + " Steam 调试模式未启用"@);
    }
    s
}

pub fn steam_running() -> (r: String)
    ensures
        r@ == seq!['\u{E182}'] + " Steam 正在运行"@,
{
    let mut s = String::new();
    s.append(icons::check());
    s.append(" Steam 正在运行");
    proof {
        assert(s@ =~= seq!['\u{E182}'] + " Steam 正在运行"@);
    }
    s
}

pub fn steam_not_running() -> (r: String)
    ensures
        r@ == seq!['\u{E4F6}'] + " Steam 未运行"@,
{
    let mut s = String::new();
    s.append(icons::close());
    s.append(" Steam 未运行");
    proof {
        assert(s@ =~= seq!['\u{E4F6}'] + " Steam 未运行"@);
    }
    s
}

pub fn debug_mode_hint() -> (r: &'static str)
    ensures
        r@ == "需要启用 Steam 的 CEF 调试模式才能获取到云端数据"@,
{
    "需要启用 Steam 的 CEF 调试模式才能获取到云端数据"
}

pub fn auto_restart_steam() -> (r: &'static str)
    ensures
        r@ == "自动重启 Steam"@,
{
    "自动重启 Steam"
}

pub fn start_steam() -> (r: &'static str)
    ensures
        r@ == "启动 Steam"@,
{
    "启动 Steam"
}

pub fn auto_restart_hint() -> (r: &'static str)
    ensures
        r@ == "自动关闭并重启 Steam，添加调试参数"@,
{
    "自动关闭并重启 Steam，添加调试参数"
}

pub fn start_steam_hint() -> (r: &'static str)
    ensures
        r@ == "以调试模式启动 Steam"@,
{
    "以调试模式启动 Steam"
}

pub fn view_manual_steps() -> (r: &'static str)
    ensures
        r@ == "查看手动操作"@,
{
    "查看手动操作"
}

pub fn manual_steps_hint() -> (r: &'static str)
    ensures
        r@ == "显示如何手动添加启动参数"@,
{
    "显示如何手动添加启动参数"
}

pub fn dismiss_temporarily() -> (r: String)
    ensures
        r@ == seq!['\u{E4F6}'] + " 暂时忽略"@,
{
    let mut s = String::new();
    s.append(icons::close());
    s.append(" 暂时忽略");
    proof {
        assert(s@ =~= seq!['\u{E4F6}'] + " 暂时忽略"@);
    }
    s
}

pub fn dismiss_hint() -> (r: &'static str)
    ensures
        r@ == "隐藏此提示（可在设置中重新显示）"@,
{
    "隐藏此提示（可在设置中重新显示）"
}

pub fn status_label() -> (r: &'static str)
    ensures
        r@ == "状态:"@,
{
    "状态:"
}

pub fn cloud_on() -> (r: &'static str)
    ensures
        r@ == "云存储: 开启"@,
{
    "云存储: 开启"
}

pub fn cloud_off() -> (r: &'static str)
    ensures
        r@ == "云存储: 关闭"@,
{
    "云存储: 关闭"
}

pub fn select_all_hint() -> (r: &'static str)
    ensures
        r@ == "选择列表中的所有文件"@,
{
    "选择列表中的所有文件"
}

pub fn invert_selection_hint() -> (r: &'static str)
    ensures
        r@ == "反转当前选择状态"@,
{
    "反转当前选择状态"
}

pub fn clear_selection_hint() -> (r: &'static str)
    ensures
        r@ == "取消选择所有文件"@,
{
    "取消选择所有文件"
}

pub fn download_hint() -> (r: &'static str)
    ensures
        r@ == "下载选中的文件到本地"@,
{
    "下载选中的文件到本地"
}

pub fn upload_hint() -> (r: &'static str)
    ensures
        r@ == "上传文件或文件夹到云端"@,
{
    "上传文件或文件夹到云端"
}

pub fn delete_hint() -> (r: &'static str)
    ensures
        r@ == "从云端和本地删除选中的文件"@,
{
    "从云端和本地删除选中的文件"
}

pub fn forget_hint() -> (r: &'static str)
    ensures
        r@ == "仅从云端移除，保留本地文件"@,
{
    "仅从云端移除，保留本地文件"
}

pub fn sync_to_cloud_hint() -> (r: &'static str)
    ensures
        r@ == "将本地文件同步到云端"@,
{
    "将本地文件同步到云端"
}

pub fn connect_hint() -> (r: &'static str)
    ensures
        r@ == "连接到 Steam 云存储 API"@,
{
    "连接到 Steam 云存储 API"
}

pub fn disconnect_hint() -> (r: &'static str)
    ensures
        r@ == "断开与 Steam 的连接"@,
{
    "断开与 Steam 的连接"
}

pub fn select_account_hint() -> (r: &'static str)
    ensures
        r@ == "切换 Steam 账户"@,
{
    "切换 Steam 账户"
}

pub fn select_game_hint() -> (r: &'static str)
    ensures
        r@ == "选择要管理云存档的游戏"@,
{
    "选择要管理云存档的游戏"
}

pub fn local_save_path() -> (r: &'static str)
    ensures
        r@ == "本地存档路径:"@,
{
    "本地存档路径:"
}

pub fn local_save_path_not_found() -> (r: &'static str)
    ensures
        r@ == "未找到（可能所有文件都仅在云端）"@,
{
    "未找到（可能所有文件都仅在云端）"
}

pub fn folder_not_exist(path: &str) -> (r: String)
    ensures
        r@ == "路径不存在:\n"@ + path@,
{
    let mut s = String::new();
    s.append("路径不存在:\n");
    s.append(path);
    proof {
        assert(s@ =~= "路径不存在:\n"@ + path@);
    }
    s
}

pub fn search_files_placeholder() -> (r: &'static str)
    ensures
        r@ == "搜索文件或文件夹..."@,
{
    "搜索文件或文件夹..."
}

pub fn clear() -> (r: &'static str)
    ensures
        r@ == "清除"@,
{
    "清除"
}

pub fn only_local() -> (r: &'static str)
    ensures
        r@ == "仅本地"@,
{
    "仅本地"
}

pub fn only_cloud() -> (r: &'static str)
    ensures
        r@ == "仅云端"@,
{
    "仅云端"
}

pub fn only_local_tooltip() -> (r: &'static str)
    ensures
        r@ == "只显示仅在本地存在的文件（未同步到云端）"@,
{
    "只显示仅在本地存在的文件（未同步到云端）"
}

pub fn only_cloud_tooltip() -> (r: &'static str)
    ensures
        r@ == "只显示仅在云端存在的文件（本地不存在）"@,
{
    "只显示仅在云端存在的文件（本地不存在）"
}

pub fn root_folder() -> (r: &'static str)
    ensures
        r@ == "根文件夹"@,
{
    "根文件夹"
}

pub fn file_size() -> (r: &'static str)
    ensures
        r@ == "文件大小"@,
{
    "文件大小"
}

pub fn write_date() -> (r: &'static str)
    ensures
        r@ == "写入日期"@,
{
    "写入日期"
}

pub fn local() -> (r: &'static str)
    ensures
        r@ == "本地"@,
{
    "本地"
}

pub fn cloud() -> (r: &'static str)
    ensures
        r@ == "云端"@,
{
    "云端"
}

pub fn file_comparison_title() -> (r: &'static str)
    ensures
        r@ == "文件对比"@,
{
    "文件对比"
}

pub fn total_files_count(count: usize) -> (r: String)
    ensures
        r@ == "共 "@ + crate::text::decimal(count as nat) + " 个文件"@,
{
    let mut s = String::new();
    s.append("共 ");
    append_decimal(&mut s, count as u64);
    s.append(" 个文件");
    proof {
        assert(s@ =~= "共 "@ + crate::text::decimal(count as nat) + " 个文件"@);
    }
    s
}

pub fn filter_all() -> (r: &'static str)
    ensures
        r@ == "全部"@,
{
    "全部"
}

pub fn filter_conflicts() -> (r: &'static str)
    ensures
        r@ == "冲突"@,
{
    "冲突"
}

pub fn filter_local_newer() -> (r: &'static str)
    ensures
        r@ == "本地较新"@,
{
    "本地较新"
}

pub fn filter_cloud_newer() -> (r: &'static str)
    ensures
        r@ == "云端较新"@,
{
    "云端较新"
}

pub fn filter_synced() -> (r: &'static str)
    ensures
        r@ == "已同步"@,
{
    "已同步"
}

pub fn status_local_newer() -> (r: &'static str)
    ensures
        r@ == "本地新"@,
{
    "本地新"
}

pub fn status_cloud_newer() -> (r: &'static str)
    ensures
        r@ == "云端新"@,
{
    "云端新"
}

pub fn status_conflict() -> (r: &'static str)
    ensures
        r@ == "冲突"@,
{
    "冲突"
}

pub fn status_local_only() -> (r: &'static str)
    ensures
        r@ == "仅本地"@,
{
    "仅本地"
}

pub fn status_cloud_only() -> (r: &'static str)
    ensures
        r@ == "仅云端"@,
{
    "仅云端"
}

pub fn column_status() -> (r: &'static str)
    ensures
        r@ == "状态"@,
{
    "状态"
}

pub fn column_filename() -> (r: &'static str)
    ensures
        r@ == "文件名"@,
{
    "文件名"
}

pub fn column_local_size() -> (r: &'static str)
    ensures
        r@ == "本地大小"@,
{
    "本地大小"
}

pub fn column_cloud_size() -> (r: &'static str)
    ensures
        r@ == "云端大小"@,
{
    "云端大小"
}

pub fn column_local_time() -> (r: &'static str)
    ensures
        r@ == "本地时间"@,
{
    "本地时间"
}

pub fn column_cloud_time() -> (r: &'static str)
    ensures
        r@ == "云端时间"@,
{
    "云端时间"
}

pub fn selected_file() -> (r: &'static str)
    ensures
        r@ == "选中文件:"@,
{
    "选中文件:"
}

pub fn local_newer_by_minutes(mins: i64) -> (r: String)
    ensures
        r@ == "(本地比云端新 "@ + crate::text::signed_decimal(mins as int) + " 分钟)"@,
{
    let mut s = String::new();
    s.append("(本地比云端新 ");
    append_signed_decimal(&mut s, mins);
    s.append(" 分钟)");
    proof {
        assert(s@ =~= "(本地比云端新 "@ + crate::text::signed_decimal(mins as int) + " 分钟)"@);
    }
    s
}

pub fn cloud_newer_by_minutes(mins: i64) -> (r: String)
    ensures
        r@ == "(云端比本地新 "@ + crate::text::signed_decimal(mins as int) + " 分钟)"@,
{
    let mut s = String::new();
    s.append("(云端比本地新 ");
    append_signed_decimal(&mut s, mins);
    s.append(" 分钟)");
    proof {
        assert(s@ =~= "(云端比本地新 "@ + crate::text::signed_decimal(mins as int) + " 分钟)"@);
    }
    s
}

pub fn conflicts_warning(count: usize) -> (r: String)
    ensures
        r@ == "检测到 "@ + crate::text::decimal(count as nat) + " 个冲突，请手动解决"@,
{
    let mut s = String::new();
    s.append("检测到 ");
    append_decimal(&mut s, count as u64);
    s.append(" 个冲突，请手动解决");
    proof {
        assert(s@ =~= "检测到 "@ + crate::text::decimal(count as nat) + " 个冲突，请手动解决"@);
    }
    s
}

pub fn compare_files() -> (r: &'static str)
    ensures
        r@ == "对比文件"@,
{
    "对比文件"
}

pub fn compare_files_hint() -> (r: &'static str)
    ensures
        r@ == "对比本地和云端文件的差异"@,
{
    "对比本地和云端文件的差异"
}

pub fn backup() -> (r: &'static str)
    ensures
        r@ == "备份"@,
{
    "备份"
}

pub fn backup_title() -> (r: &'static str)
    ensures
        r@ == "备份云存档"@,
{
    "备份云存档"
}

pub fn backup_file_count(count: usize) -> (r: String)
    ensures
        r@ == "共 "@ + crate::text::decimal(count as nat) + " 个文件"@,
{
    let mut s = String::new();
    s.append("共 ");
    append_decimal(&mut s, count as u64);
    s.append(" 个文件");
    proof {
        assert(s@ =~= "共 "@ + crate::text::decimal(count as nat) + " 个文件"@);
    }
    s
}

pub fn backup_total_size(size: &str) -> (r: String)
    ensures
        r@ == "总大小: "@ + size@,
{
    let mut s = String::new();
    s.append("总大小: ");
    s.append(size);
    proof {
        assert(s@ =~= "总大小: "@ + size@);
    }
    s
}

pub fn backup_cdp_warning(count: usize) -> (r: String)
    ensures
        r@ == seq!['\u{E4E0}'] + " "@ + crate::text::decimal(count as nat) + " 个文件无下载链接，将跳过"@,
{
    let mut s = String::new();
    s.append(icons::warning());
    s.append(" ");
    append_decimal(&mut s, count as u64);
    s.append(" 个文件无下载链接，将跳过");
    proof {
        assert(s@ =~= seq!['\u{E4E0}'] + " "@ + crate::text::decimal(count as nat) + " 个文件无下载链接，将跳过"@);
    }
    s
}

pub fn backup_file_list() -> (r: &'static str)
    ensures
        r@ == "文件列表"@,
{
    "文件列表"
}

pub fn backup_start() -> (r: &'static str)
    ensures
        r@ == "开始备份"@,
{
    "开始备份"
}

pub fn backup_open_dir() -> (r: &'static str)
    ensures
        r@ == "打开备份目录"@,
{
    "打开备份目录"
}

pub fn backup_progress_title() -> (r: &'static str)
    ensures
        r@ == "备份进度"@,
{
    "备份进度"
}

pub fn backup_in_progress() -> (r: &'static str)
    ensures
        r@ == "正在备份..."@,
{
    "正在备份..."
}

pub fn backup_complete() -> (r: String)
    ensures
        r@ == seq!['\u{E182}'] + " 备份完成"@,
{
    let mut s = String::new();
    s.append(icons::check());
    s.append(" 备份完成");
    proof {
        assert(s@ =~= seq!['\u{E182}'] + " 备份完成"@);
    }
    s
}

pub fn backup_partial() -> (r: String)
    ensures
        r@ == seq!['\u{E4E0}'] + " 部分完成"@,
{
    let mut s = String::new();
    s.append(icons::warning());
    s.append(" 部分完成");
    proof {
        assert(s@ =~= seq!['\u{E4E0}'] + " 部分完成"@);
    }
    s
}

pub fn backup_result_stats(success: usize, total: usize) -> (r: String)
    ensures
        r@ == "成功: "@ + crate::text::decimal(success as nat) + " / "@ + crate::text::decimal(total as nat),
{
    let mut s = String::new();
    s.append("成功: ");
    append_decimal(&mut s, success as u64);
    s.append(" / ");
    append_decimal(&mut s, total as u64);
    proof {
        assert(s@ =~= "成功: "@ + crate::text::decimal(success as nat) + " / "@ + crate::text::decimal(total as nat));
    }
    s
}

pub fn backup_failed_files() -> (r: &'static str)
    ensures
        r@ == "失败的文件:"@,
{
    "失败的文件:"
}

pub fn backup_hint() -> (r: &'static str)
    ensures
        r@ == "备份当前游戏的所有云存档"@,
{
    "备份当前游戏的所有云存档"
}

pub fn backup_dir_label() -> (r: &'static str)
    ensures
        r@ == "备份目录:"@,
{
    "备份目录:"
}

pub fn download_progress_title() -> (r: &'static str)
    ensures
        r@ == "下载进度"@,
{
    "下载进度"
}

pub fn download_in_progress() -> (r: &'static str)
    ensures
        r@ == "正在下载..."@,
{
    "正在下载..."
}

pub fn download_complete() -> (r: String)
    ensures
        r@ == seq!['\u{E182}'] + " 下载完成"@,
{
    let mut s = String::new();
    s.append(icons::check());
    s.append(" 下载完成");
    proof {
        assert(s@ =~= seq!['\u{E182}'] + " 下载完成"@);
    }
    s
}

pub fn download_partial_status() -> (r: String)
    ensures
        r@ == seq!['\u{E4E0}'] + " 部分完成"@,
{
    let mut s = String::new();
    s.append(icons::warning());
    s.append(" 部分完成");
    proof {
        assert(s@ =~= seq!['\u{E4E0}'] + " 部分完成"@);
    }
    s
}

pub fn download_result_stats(success: usize, total: usize) -> (r: String)
    ensures
        r@ == "成功: "@ + crate::text::decimal(success as nat) + " / "@ + crate::text::decimal(total as nat),
{
    let mut s = String::new();
    s.append("成功: ");
    append_decimal(&mut s, success as u64);
    s.append(" / ");
    append_decimal(&mut s, total as u64);
    proof {
        assert(s@ =~= "成功: "@ + crate::text::decimal(success as nat) + " / "@ + crate::text::decimal(total as nat));
    }
    s
}

pub fn download_failed_files() -> (r: &'static str)
    ensures
        r@ == "失败的文件:"@,
{
    "失败的文件:"
}

pub fn download_open_dir() -> (r: &'static str)
    ensures
        r@ == "打开下载目录"@,
{
    "打开下载目录"
}

pub fn symlink_title() -> (r: &'static str)
    ensures
        r@ == "软链接管理 (实验性)"@,
{
    "软链接管理 (实验性)"
}

pub fn symlink_configured_links() -> (r: &'static str)
    ensures
        r@ == "已配置的软链接"@,
{
    "已配置的软链接"
}

pub fn symlink_no_configs() -> (r: &'static str)
    ensures
        r@ == "暂无软链接配置"@,
{
    "暂无软链接配置"
}

pub fn symlink_add_new() -> (r: &'static str)
    ensures
        r@ == "添加新软链接"@,
{
    "添加新软链接"
}

pub fn symlink_direction() -> (r: &'static str)
    ensures
        r@ == "方向:"@,
{
    "方向:"
}

pub fn symlink_local_path() -> (r: &'static str)
    ensures
        r@ == "本地路径:"@,
{
    "本地路径:"
}

pub fn symlink_remote_subfolder() -> (r: &'static str)
    ensures
        r@ == "Remote 子目录:"@,
{
    "Remote 子目录:"
}

pub fn symlink_browse() -> (r: &'static str)
    ensures
        r@ == "选择文件夹"@,
{
    "选择文件夹"
}

pub fn symlink_add_config() -> (r: &'static str)
    ensures
        r@ == "添加配置"@,
{
    "添加配置"
}

pub fn symlink_add_and_create() -> (r: &'static str)
    ensures
        r@ == "添加并创建链接"@,
{
    "添加并创建链接"
}

pub fn symlink_create() -> (r: &'static str)
    ensures
        r@ == "创建链接"@,
{
    "创建链接"
}

pub fn symlink_remove_link() -> (r: &'static str)
    ensures
        r@ == "删除链接"@,
{
    "删除链接"
}

pub fn symlink_delete_config() -> (r: &'static str)
    ensures
        r@ == "删除配置"@,
{
    "删除配置"
}

pub fn symlink_copy_command() -> (r: &'static str)
    ensures
        r@ == "复制命令"@,
{
    "复制命令"
}

pub fn symlink_refresh() -> (r: &'static str)
    ensures
        r@ == "刷新"@,
{
    "刷新"
}

pub fn symlink_command_copied() -> (r: &'static str)
    ensures
        r@ == "命令已复制到剪贴板"@,
{
    "命令已复制到剪贴板"
}

pub fn symlink_config_deleted() -> (r: &'static str)
    ensures
        r@ == "配置已删除"@,
{
    "配置已删除"
}

pub fn symlink_config_added() -> (r: &'static str)
    ensures
        r@ == "配置已添加"@,
{
    "配置已添加"
}

pub fn symlink_created() -> (r: &'static str)
    ensures
        r@ == "软链接已创建"@,
{
    "软链接已创建"
}

pub fn symlink_removed() -> (r: &'static str)
    ensures
        r@ == "软链接已删除"@,
{
    "软链接已删除"
}

pub fn symlink_create_failed() -> (r: &'static str)
    ensures
        r@ == "创建失败"@,
{
    "创建失败"
}

pub fn symlink_remove_failed() -> (r: &'static str)
    ensures
        r@ == "删除失败"@,
{
    "删除失败"
}

pub fn symlink_add_failed() -> (r: &'static str)
    ensures
        r@ == "添加配置失败"@,
{
    "添加配置失败"
}

pub fn symlink_experimental_title() -> (r: &'static str)
    ensures
        r@ == "实验性功能"@,
{
    "实验性功能"
}

pub fn symlink_experimental_desc() -> (r: &'static str)
    ensures
        r@ == "创建软链接后会自动同步目录下的文件到云端。点击云端上传按钮可手动同步新增文件。"@,
{
    "创建软链接后会自动同步目录下的文件到云端。点击云端上传按钮可手动同步新增文件。"
}

pub fn symlink_sync_files() -> (r: &'static str)
    ensures
        r@ == "同步文件到云端"@,
{
    "同步文件到云端"
}

pub fn symlink_sync_success() -> (r: &'static str)
    ensures
        r@ == "同步成功"@,
{
    "同步成功"
}

pub fn symlink_sync_partial() -> (r: &'static str)
    ensures
        r@ == "部分同步成功"@,
{
    "部分同步成功"
}

pub fn symlink_sync_no_files() -> (r: &'static str)
    ensures
        r@ == "目录为空，无文件需要同步"@,
{
    "目录为空，无文件需要同步"
}

pub fn symlink_sync_no_manager() -> (r: &'static str)
    ensures
        r@ == "软链接管理器未初始化"@,
{
    "软链接管理器未初始化"
}

pub fn symlink_sync_no_steam() -> (r: &'static str)
    ensures
        r@ == "Steam 未连接，无法同步"@,
{
    "Steam 未连接，无法同步"
}

pub fn symlink_sync_scan_failed() -> (r: &'static str)
    ensures
        r@ == "扫描目录失败"@,
{
    "扫描目录失败"
}

pub fn files() -> (r: &'static str)
    ensures
        r@ == "个文件"@,
{
    "个文件"
}

pub fn appinfo_tab_local_ufs() -> (r: &'static str)
    ensures
        r@ == "本地 UFS 配置"@,
{
    "本地 UFS 配置"
}

pub fn appinfo_tab_custom_config() -> (r: &'static str)
    ensures
        r@ == "自定义配置"@,
{
    "自定义配置"
}

pub fn appinfo_debug_title(app_id: u32) -> (r: String)
    ensures
        r@ == "appinfo.vdf 调试 - App "@ + crate::text::decimal(app_id as nat),
{
    let mut s = String::new();
    s.append("appinfo.vdf 调试 - App ");
    append_decimal(&mut s, app_id as u64);
    proof {
        assert(s@ =~= "appinfo.vdf 调试 - App "@ + crate::text::decimal(app_id as nat));
    }
    s
}

pub fn appinfo_quota() -> (r: &'static str)
    ensures
        r@ == "配额:"@,
{
    "配额:"
}

pub fn appinfo_max_files() -> (r: &'static str)
    ensures
        r@ == "最大文件数:"@,
{
    "最大文件数:"
}

pub fn appinfo_current_ufs() -> (r: &'static str)
    ensures
        r@ == "当前 UFS 云存储配置:"@,
{
    "当前 UFS 云存储配置:"
}

pub fn appinfo_restart_steam() -> (r: String)
    ensures
        r@ == seq!['\u{E094}'] + " 重启 Steam"@,
{
    let mut s = String::new();
    s.append(icons::refresh());
    s.append(" 重启 Steam");
    proof {
        assert(s@ =~= seq!['\u{E094}'] + " 重启 Steam"@);
    }
    s
}

pub fn appinfo_warning() -> (r: String)
    ensures
        r@ == seq!['\u{E4E0}'] + " 此功能为实验性质。修改 appinfo.vdf 可能被 Steam 覆盖。\n需要在 Steam 启动前注入，或在注入后立即重启 Steam。"@,
{
    let mut s = String::new();
    s.append(icons::warning());
    s.append(" 此功能为实验性质。修改 appinfo.vdf 可能被 Steam 覆盖。\n需要在 Steam 启动前注入，或在注入后立即重启 Steam。");
    proof {
        assert(s@ =~= seq!['\u{E4E0}'] + " 此功能为实验性质。修改 appinfo.vdf 可能被 Steam 覆盖。\n需要在 Steam 启动前注入，或在注入后立即重启 Steam。"@);
    }
    s
}

pub fn appinfo_path_hint() -> (r: &'static str)
    ensures
        r@ == "例如: MyGame/Saves"@,
{
    "例如: MyGame/Saves"
}

pub fn appinfo_pattern_hint() -> (r: &'static str)
    ensures
        r@ == "* 或 *.sav"@,
{
    "* 或 *.sav"
}

pub fn ufs_savefiles_header(count: usize) -> (r: String)
    ensures
        r@ == "存档文件配置 ("@ + crate::text::decimal(count as nat) + ")"@,
{
    let mut s = String::new();
    s.append("存档文件配置 (");
    append_decimal(&mut s, count as u64);
    s.append(")");
    proof {
        assert(s@ =~= "存档文件配置 ("@ + crate::text::decimal(count as nat) + ")"@);
    }
    s
}

pub fn ufs_overrides_header(count: usize) -> (r: String)
    ensures
        r@ == "跨平台路径映射 ("@ + crate::text::decimal(count as nat) + ")"@,
{
    let mut s = String::new();
    s.append("跨平台路径映射 (");
    append_decimal(&mut s, count as u64);
    s.append(")");
    proof {
        assert(s@ =~= "跨平台路径映射 ("@ + crate::text::decimal(count as nat) + ")"@);
    }
    s
}

pub fn ufs_add_savefile() -> (r: &'static str)
    ensures
        r@ == "添加存档路径"@,
{
    "添加存档路径"
}

pub fn ufs_add_override() -> (r: &'static str)
    ensures
        r@ == "添加路径映射"@,
{
    "添加路径映射"
}

pub fn ufs_no_savefiles() -> (r: &'static str)
    ensures
        r@ == "暂无存档配置 — 点击添加创建"@,
{
    "暂无存档配置 — 点击添加创建"
}

pub fn ufs_no_overrides() -> (r: &'static str)
    ensures
        r@ == "暂无路径映射 — 添加以支持跨平台"@,
{
    "暂无路径映射 — 添加以支持跨平台"
}

pub fn ufs_label_root() -> (r: &'static str)
    ensures
        r@ == "根目录"@,
{
    "根目录"
}

pub fn ufs_label_path() -> (r: &'static str)
    ensures
        r@ == "路径"@,
{
    "路径"
}

pub fn ufs_label_pattern() -> (r: &'static str)
    ensures
        r@ == "匹配"@,
{
    "匹配"
}

pub fn ufs_label_platforms() -> (r: &'static str)
    ensures
        r@ == "平台"@,
{
    "平台"
}

pub fn ufs_label_recursive() -> (r: &'static str)
    ensures
        r@ == "递归搜索子目录"@,
{
    "递归搜索子目录"
}

pub fn ufs_label_actions() -> (r: &'static str)
    ensures
        r@ == "操作"@,
{
    "操作"
}

pub fn ufs_label_original_root() -> (r: &'static str)
    ensures
        r@ == "原始根目录"@,
{
    "原始根目录"
}

pub fn ufs_label_target_os() -> (r: &'static str)
    ensures
        r@ == "目标系统"@,
{
    "目标系统"
}

pub fn ufs_label_new_root() -> (r: &'static str)
    ensures
        r@ == "新根目录"@,
{
    "新根目录"
}

pub fn ufs_label_add_path() -> (r: &'static str)
    ensures
        r@ == "追加路径"@,
{
    "追加路径"
}

pub fn ufs_label_replace_path() -> (r: &'static str)
    ensures
        r@ == "替换路径"@,
{
    "替换路径"
}

pub fn ufs_label_replace_with() -> (r: &'static str)
    ensures
        r@ == "替换为:"@,
{
    "替换为:"
}

pub fn ufs_label_find_path() -> (r: &'static str)
    ensures
        r@ == "原始路径"@,
{
    "原始路径"
}

pub fn ufs_hint_auto_fill() -> (r: &'static str)
    ensures
        r@ == "留空自动填充"@,
{
    "留空自动填充"
}

pub fn ufs_refresh() -> (r: &'static str)
    ensures
        r@ == "刷新"@,
{
    "刷新"
}

pub fn ufs_clear_all() -> (r: &'static str)
    ensures
        r@ == "清空全部"@,
{
    "清空全部"
}

pub fn ufs_clear_all_tooltip() -> (r: &'static str)
    ensures
        r@ == "清空所有自定义存档路径和路径映射"@,
{
    "清空所有自定义存档路径和路径映射"
}

pub fn ufs_inject_to_vdf() -> (r: String)
    ensures
        r@ == seq!['\u{E1AE}'] + " 注入到 VDF"@,
{
    let mut s = String::new();
    s.append(icons::cloud_upload());
    s.append(" 注入到 VDF");
    proof {
        assert(s@ =~= seq!['\u{E1AE}'] + " 注入到 VDF"@);
    }
    s
}

pub fn ufs_inject_success(savefiles: usize, overrides: usize) -> (r: String)
    ensures
        r@ == "已注入 "@ + crate::text::decimal(savefiles as nat) + " 个存档路径, "@ + crate::text::decimal(overrides as nat) + " 个路径映射"@,
{
    let mut s = String::new();
    s.append("已注入 ");
    append_decimal(&mut s, savefiles as u64);
    s.append(" 个存档路径, ");
    append_decimal(&mut s, overrides as u64);
    s.append(" 个路径映射");
    proof {
        assert(s@ =~= "已注入 "@ + crate::text::decimal(savefiles as nat) + " 个存档路径, "@ + crate::text::decimal(overrides as nat) + " 个路径映射"@);
    }
    s
}

pub fn ufs_inject_empty() -> (r: &'static str)
    ensures
        r@ == "无存档路径或路径映射可注入"@,
{
    "无存档路径或路径映射可注入"
}

pub fn ufs_inject_error(error: &str) -> (r: String)
    ensures
        r@ == "注入失败: "@ + error@,
{
    let mut s = String::new();
    s.append("注入失败: ");
    s.append(error);
    proof {
        assert(s@ =~= "注入失败: "@ + error@);
    }
    s
}

pub fn ufs_writer_init_error(error: &str) -> (r: String)
    ensures
        r@ == "写入器初始化失败: "@ + error@,
{
    let mut s = String::new();
    s.append("写入器初始化失败: ");
    s.append(error);
    proof {
        assert(s@ =~= "写入器初始化失败: "@ + error@);
    }
    s
}

pub fn ufs_save_success(savefiles: usize, overrides: usize) -> (r: String)
    ensures
        r@ == "已保存 "@ + crate::text::decimal(savefiles as nat) + " 个存档路径, "@ + crate::text::decimal(overrides as nat) + " 个路径映射"@,
{
    let mut s = String::new();
    s.append("已保存 ");
    append_decimal(&mut s, savefiles as u64);
    s.append(" 个存档路径, ");
    append_decimal(&mut s, overrides as u64);
    s.append(" 个路径映射");
    proof {
        assert(s@ =~= "已保存 "@ + crate::text::decimal(savefiles as nat) + " 个存档路径, "@ + crate::text::decimal(overrides as nat) + " 个路径映射"@);
    }
    s
}

pub fn ufs_save_error(error: &str) -> (r: String)
    ensures
        r@ == "保存失败: "@ + error@,
{
    let mut s = String::new();
    s.append("保存失败: ");
    s.append(error);
    proof {
        assert(s@ =~= "保存失败: "@ + error@);
    }
    s
}

pub fn ufs_clear_success() -> (r: &'static str)
    ensures
        r@ == "已清除所有自定义配置"@,
{
    "已清除所有自定义配置"
}

pub fn ufs_clear_error(error: &str) -> (r: String)
    ensures
        r@ == "清除失败: "@ + error@,
{
    let mut s = String::new();
    s.append("清除失败: ");
    s.append(error);
    proof {
        assert(s@ =~= "清除失败: "@ + error@);
    }
    s
}

pub fn error_get_appinfo(error: &str) -> (r: String)
    ensures
        r@ == "无法获取 appinfo: "@ + error@,
{
    let mut s = String::new();
    s.append("无法获取 appinfo: ");
    s.append(error);
    proof {
        assert(s@ =~= "无法获取 appinfo: "@ + error@);
    }
    s
}

pub fn error_vdf_parser_init(error: &str) -> (r: String)
    ensures
        r@ == "VDF 解析器初始化失败: "@ + error@,
{
    let mut s = String::new();
    s.append("VDF 解析器初始化失败: ");
    s.append(error);
    proof {
        assert(s@ =~= "VDF 解析器初始化失败: "@ + error@);
    }
    s
}

pub fn error_load_timeout() -> (r: &'static str)
    ensures
        r@ == "加载超时，请重试"@,
{
    "加载超时，请重试"
}

pub fn disconnected() -> (r: &'static str)
    ensures
        r@ == "已断开连接"@,
{
    "已断开连接"
}

pub fn error_install_failed(error: &str) -> (r: String)
    ensures
        r@ == "安装失败: "@ + error@ + "\n\n请手动下载更新"@,
{
    let mut s = String::new();
    s.append("安装失败: ");
    s.append(error);
    s.append("\n\n请手动下载更新");
    proof {
        assert(s@ =~= "安装失败: "@ + error@ + "\n\n请手动下载更新"@);
    }
    s
}

pub fn error_download_failed(error: &str) -> (r: String)
    ensures
        r@ == "下载失败: "@ + error@ + "\n\n请手动下载更新"@,
{
    let mut s = String::new();
    s.append("下载失败: ");
    s.append(error);
    s.append("\n\n请手动下载更新");
    proof {
        assert(s@ =~= "下载失败: "@ + error@ + "\n\n请手动下载更新"@);
    }
    s
}

pub fn error_select_files_to_forget() -> (r: &'static str)
    ensures
        r@ == "请选择要移出云端的文件"@,
{
    "请选择要移出云端的文件"
}

pub fn error_local_only_no_forget(count: usize) -> (r: String)
    ensures
        r@ == "所选 "@ + crate::text::decimal(count as nat) + " 个文件仅存在于本地，云端无记录，无需移出"@,
{
    let mut s = String::new();
    s.append("所选 ");
    append_decimal(&mut s, count as u64);
    s.append(" 个文件仅存在于本地，云端无记录，无需移出");
    proof {
        assert(s@ =~= "所选 "@ + crate::text::decimal(count as nat) + " 个文件仅存在于本地，云端无记录，无需移出"@);
    }
    s
}

pub fn forgotten_files(count: usize) -> (r: String)
    ensures
        r@ == "已移出云端 "@ + crate::text::decimal(count as nat) + " 个文件"@,
{
    let mut s = String::new();
    s.append("已移出云端 ");
    append_decimal(&mut s, count as u64);
    s.append(" 个文件");
    proof {
        assert(s@ =~= "已移出云端 "@ + crate::text::decimal(count as nat) + " 个文件"@);
    }
    s
}

pub fn ufs_forget_failed(count: usize) -> (r: String)
    ensures
        r@ == crate::text::decimal(count as nat) + " 个自动云同步文件无法通过 API 移出，请尝试使用「删除」功能"@,
{
    let mut s = String::new();
    append_decimal(&mut s, count as u64);
    s.append(" 个自动云同步文件无法通过 API 移出，请尝试使用「删除」功能");
    proof {
        assert(s@ =~= crate::text::decimal(count as nat) + " 个自动云同步文件无法通过 API 移出，请尝试使用「删除」功能"@);
    }
    s
}

pub fn forget_failed_files(count: usize, names: &str) -> (r: String)
    ensures
        r@ == crate::text::decimal(count as nat) + " 个文件移出失败: "@ + names@,
{
    let mut s = String::new();
    append_decimal(&mut s, count as u64);
    s.append(" 个文件移出失败: ");
    s.append(names);
    proof {
        assert(s@ =~= crate::text::decimal(count as nat) + " 个文件移出失败: "@ + names@);
    }
    s
}

pub fn skipped_local_only_files(count: usize) -> (r: String)
    ensures
        r@ == "跳过 "@ + crate::text::decimal(count as nat) + " 个本地独有文件"@,
{
    let mut s = String::new();
    s.append("跳过 ");
    append_decimal(&mut s, count as u64);
    s.append(" 个本地独有文件");
    proof {
        assert(s@ =~= "跳过 "@ + crate::text::decimal(count as nat) + " 个本地独有文件"@);
    }
    s
}

pub fn no_files_forgotten() -> (r: &'static str)
    ensures
        r@ == "没有文件被移出云端"@,
{
    "没有文件被移出云端"
}

pub fn error_select_files_to_delete() -> (r: &'static str)
    ensures
        r@ == "请选择要删除的文件"@,
{
    "请选择要删除的文件"
}

pub fn deleted_files(count: usize) -> (r: String)
    ensures
        r@ == "已删除 "@ + crate::text::decimal(count as nat) + " 个文件"@,
{
    let mut s = String::new();
    s.append("已删除 ");
    append_decimal(&mut s, count as u64);
    s.append(" 个文件");
    proof {
        assert(s@ =~= "已删除 "@ + crate::text::decimal(count as nat) + " 个文件"@);
    }
    s
}

pub fn ufs_cloud_sync_hint() -> (r: &'static str)
    ensures
        r@ == "自动云同步文件的云端副本将在 Steam 同步后自动删除，请稍后刷新确认"@,
{
    "自动云同步文件的云端副本将在 Steam 同步后自动删除，请稍后刷新确认"
}

pub fn ufs_delete_failed(count: usize) -> (r: String)
    ensures
        r@ == crate::text::decimal(count as nat) + " 个自动云同步文件无法删除（游戏未安装且 API 不支持，请安装并启动一次游戏后重试）"@,
{
    let mut s = String::new();
    append_decimal(&mut s, count as u64);
    s.append(" 个自动云同步文件无法删除（游戏未安装且 API 不支持，请安装并启动一次游戏后重试）");
    proof {
        assert(s@ =~= crate::text::decimal(count as nat) + " 个自动云同步文件无法删除（游戏未安装且 API 不支持，请安装并启动一次游戏后重试）"@);
    }
    s
}

pub fn ufs_delete_failed_no_local_copy(count: usize) -> (r: String)
    ensures
        r@ == crate::text::decimal(count as nat) + " 个自动云同步文件无法删除（游戏已安装但本地无存档副本，请启动一次游戏让 Steam 将云存档同步到本地后重试）"@,
{
    let mut s = String::new();
    append_decimal(&mut s, count as u64);
    s.append(" 个自动云同步文件无法删除（游戏已安装但本地无存档副本，请启动一次游戏让 Steam 将云存档同步到本地后重试）");
    proof {
        assert(s@ =~= crate::text::decimal(count as nat) + " 个自动云同步文件无法删除（游戏已安装但本地无存档副本，请启动一次游戏让 Steam 将云存档同步到本地后重试）"@);
    }
    s
}

pub fn delete_failed_files(count: usize, names: &str) -> (r: String)
    ensures
        r@ == crate::text::decimal(count as nat) + " 个文件删除失败: "@ + names@,
{
    let mut s = String::new();
    append_decimal(&mut s, count as u64);
    s.append(" 个文件删除失败: ");
    s.append(names);
    proof {
        assert(s@ =~= crate::text::decimal(count as nat) + " 个文件删除失败: "@ + names@);
    }
    s
}

pub fn no_files_deleted() -> (r: &'static str)
    ensures
        r@ == "没有文件被删除"@,
{
    "没有文件被删除"
}

pub fn error_select_files_to_sync() -> (r: &'static str)
    ensures
        r@ == "请选择要同步的文件"@,
{
    "请选择要同步的文件"
}

pub fn synced_files_to_cloud(count: usize) -> (r: String)
    ensures
        r@ == "已同步 "@ + crate::text::decimal(count as nat) + " 个文件到云端"@,
{
    let mut s = String::new();
    s.append("已同步 ");
    append_decimal(&mut s, count as u64);
    s.append(" 个文件到云端");
    proof {
        assert(s@ =~= "已同步 "@ + crate::text::decimal(count as nat) + " 个文件到云端"@);
    }
    s
}

pub fn all_files_in_cloud(count: usize) -> (r: String)
    ensures
        r@ == "所有 "@ + crate::text::decimal(count as nat) + " 个文件已在云端，无需同步"@,
{
    let mut s = String::new();
    s.append("所有 ");
    append_decimal(&mut s, count as u64);
    s.append(" 个文件已在云端，无需同步");
    proof {
        assert(s@ =~= "所有 "@ + crate::text::decimal(count as nat) + " 个文件已在云端，无需同步"@);
    }
    s
}

pub fn no_files_synced() -> (r: &'static str)
    ensures
        r@ == "没有文件被同步"@,
{
    "没有文件被同步"
}

pub fn partial_sync_failed(names: &str) -> (r: String)
    ensures
        r@ == "部分文件同步失败: "@ + names@,
{
    let mut s = String::new();
    s.append("部分文件同步失败: ");
    s.append(names);
    proof {
        assert(s@ =~= "部分文件同步失败: "@ + names@);
    }
    s
}

pub fn sync_status_synced() -> (r: String)
    ensures
        r@ == seq!['\u{E182}'] + " 已同步"@,
{
    let mut s = String::new();
    s.append(icons::check());
    s.append(" 已同步");
    proof {
        assert(s@ =~= seq!['\u{E182}'] + " 已同步"@);
    }
    s
}

pub fn sync_status_local_newer() -> (r: String)
    ensures
        r@ == seq!['\u{E08E}'] + " 本地较新"@,
{
    let mut s = String::new();
    s.append(icons::arrow_up());
    s.append(" 本地较新");
    proof {
        assert(s@ =~= seq!['\u{E08E}'] + " 本地较新"@);
    }
    s
}

pub fn sync_status_cloud_newer() -> (r: String)
    ensures
        r@ == seq!['\u{E03E}'] + " 云端较新"@,
{
    let mut s = String::new();
    s.append(icons::arrow_down());
    s.append(" 云端较新");
    proof {
        assert(s@ =~= seq!['\u{E03E}'] + " 云端较新"@);
    }
    s
}

pub fn sync_status_conflict() -> (r: String)
    ensures
        r@ == seq!['\u{E4E0}'] + " 冲突"@,
{
    let mut s = String::new();
    s.append(icons::warning());
    s.append(" 冲突");
    proof {
        assert(s@ =~= seq!['\u{E4E0}'] + " 冲突"@);
    }
    s
}

pub fn sync_status_local_only() -> (r: String)
    ensures
        r@ == seq!['\u{E230}'] + " 仅本地"@,
{
    let mut s = String::new();
    s.append(icons::file());
    s.append(" 仅本地");
    proof {
        assert(s@ =~= seq!['\u{E230}'] + " 仅本地"@);
    }
    s
}

pub fn sync_status_cloud_only() -> (r: String)
    ensures
        r@ == seq!['\u{E1AA}'] + " 仅云端"@,
{
    let mut s = String::new();
    s.append(icons::cloud());
    s.append(" 仅云端");
    proof {
        assert(s@ =~= seq!['\u{E1AA}'] + " 仅云端"@);
    }
    s
}

pub fn sync_status_unknown() -> (r: String)
    ensures
        r@ == seq!['\u{E3E8}'] + " 检测中"@,
{
    let mut s = String::new();
    s.append(icons::question());
    s.append(" 检测中");
    proof {
        assert(s@ =~= seq!['\u{E3E8}'] + " 检测中"@);
    }
    s
}

pub fn hash_status_pending() -> (r: String)
    ensures
        r@ == seq!['\u{E2B2}'] + " 等待"@,
{
    let mut s = String::new();
    s.append(icons::hourglass());
    s.append(" 等待");
    proof {
        assert(s@ =~= seq!['\u{E2B2}'] + " 等待"@);
    }
    s
}

pub fn hash_status_skipped() -> (r: String)
    ensures
        r@ == seq!['\u{E182}'] + " 已跳过"@,
{
    let mut s = String::new();
    s.append(icons::check());
    s.append(" 已跳过");
    proof {
        assert(s@ =~= seq!['\u{E182}'] + " 已跳过"@);
    }
    s
}

pub fn hash_status_checking() -> (r: String)
    ensures
        r@ == seq!['\u{EB44}'] + " 检测中"@,
{
    let mut s = String::new();
    s.append(icons::spinner());
    s.append(" 检测中");
    proof {
        assert(s@ =~= seq!['\u{EB44}'] + " 检测中"@);
    }
    s
}

pub fn hash_status_match() -> (r: String)
    ensures
        r@ == seq!['\u{E182}'] + " 一致"@,
{
    let mut s = String::new();
    s.append(icons::check());
    s.append(" 一致");
    proof {
        assert(s@ =~= seq!['\u{E182}'] + " 一致"@);
    }
    s
}

pub fn hash_status_mismatch() -> (r: String)
    ensures
        r@ == seq!['\u{E4F8}'] + " 不一致"@,
{
    let mut s = String::new();
    s.append(icons::error());
    s.append(" 不一致");
    proof {
        assert(s@ =~= seq!['\u{E4F8}'] + " 不一致"@);
    }
    s
}

pub fn hash_status_error() -> (r: String)
    ensures
        r@ == seq!['\u{E4E0}'] + " 错误"@,
{
    let mut s = String::new();
    s.append(icons::warning());
    s.append(" 错误");
    proof {
        assert(s@ =~= seq!['\u{E4E0}'] + " 错误"@);
    }
    s
}

pub fn size_diff_label() -> (r: &'static str)
    ensures
        r@ == "大小差异:"@,
{
    "大小差异:"
}

pub fn local_larger_bytes(bytes: i64) -> (r: String)
    ensures
        r@ == "本地大 "@ + crate::text::signed_decimal(bytes as int) + " bytes"@,
{
    let mut s = String::new();
    s.append("本地大 ");
    append_signed_decimal(&mut s, bytes);
    s.append(" bytes");
    proof {
        assert(s@ =~= "本地大 "@ + crate::text::signed_decimal(bytes as int) + " bytes"@);
    }
    s
}

pub fn cloud_larger_bytes(bytes: i64) -> (r: String)
    ensures
        r@ == "云端大 "@ + crate::text::signed_decimal(bytes as int) + " bytes"@,
{
    let mut s = String::new();
    s.append("云端大 ");
    append_signed_decimal(&mut s, bytes);
    s.append(" bytes");
    proof {
        assert(s@ =~= "云端大 "@ + crate::text::signed_decimal(bytes as int) + " bytes"@);
    }
    s
}

pub fn diff_items_label() -> (r: &'static str)
    ensures
        r@ == "差异项:"@,
{
    "差异项:"
}

pub fn diff_exists() -> (r: &'static str)
    ensures
        r@ == "存在"@,
{
    "存在"
}

pub fn diff_sync() -> (r: &'static str)
    ensures
        r@ == "同步"@,
{
    "同步"
}

pub fn diff_size() -> (r: &'static str)
    ensures
        r@ == "大小"@,
{
    "大小"
}

pub fn diff_time() -> (r: &'static str)
    ensures
        r@ == "时间"@,
{
    "时间"
}

pub fn hash_status_label() -> (r: &'static str)
    ensures
        r@ == "Hash 状态:"@,
{
    "Hash 状态:"
}

pub fn retry_hash_check() -> (r: &'static str)
    ensures
        r@ == "重新检测 Hash"@,
{
    "重新检测 Hash"
}

pub fn local_hash_label() -> (r: &'static str)
    ensures
        r@ == "本地 Hash:"@,
{
    "本地 Hash:"
}

pub fn cloud_hash_label() -> (r: &'static str)
    ensures
        r@ == "云端 Hash:"@,
{
    "云端 Hash:"
}

pub fn not_calculated() -> (r: &'static str)
    ensures
        r@ == "未计算"@,
{
    "未计算"
}

pub fn error_delete_config(error: &str) -> (r: String)
    ensures
        r@ == "删除配置失败: "@ + error@,
{
    let mut s = String::new();
    s.append("删除配置失败: ");
    s.append(error);
    proof {
        assert(s@ =~= "删除配置失败: "@ + error@);
    }
    s
}

pub fn remote_dir_label() -> (r: &'static str)
    ensures
        r@ == "Remote 目录:"@,
{
    "Remote 目录:"
}

pub fn copy_path() -> (r: &'static str)
    ensures
        r@ == "复制路径"@,
{
    "复制路径"
}

pub fn symlink_conflict_label() -> (r: &'static str)
    ensures
        r@ == "冲突"@,
{
    "冲突"
}

pub fn steam_path_hint_text() -> (r: &'static str)
    ensures
        r@ == "Steam 安装路径"@,
{
    "Steam 安装路径"
}

pub fn cloud_status_not_ready() -> (r: &'static str)
    ensures
        r@ == "云存储状态: 未就绪"@,
{
    "云存储状态: 未就绪"
}

pub fn game_file_info(count: usize, size: &str) -> (r: String)
    ensures
        r@ == crate::text::decimal(count as nat) + " 个文件 | "@ + size@,
{
    let mut s = String::new();
    append_decimal(&mut s, count as u64);
    s.append(" 个文件 | ");
    s.append(size);
    proof {
        assert(s@ =~= crate::text::decimal(count as nat) + " 个文件 | "@ + size@);
    }
    s
}

pub fn install_dir_label(dir: &str) -> (r: String)
    ensures
        r@ == "安装目录: "@ + dir@,
{
    let mut s = String::new();
    s.append("安装目录: ");
    s.append(dir);
    proof {
        assert(s@ =~= "安装目录: "@ + dir@);
    }
    s
}

pub fn tags_label(tags: &str) -> (r: String)
    ensures
        r@ == "标签: "@ + tags@,
{
    let mut s = String::new();
    s.append("标签: ");
    s.append(tags);
    proof {
        assert(s@ =~= "标签: "@ + tags@);
    }
    s
}

pub fn last_played_label(time: &str) -> (r: String)
    ensures
        r@ == "最后运行: "@ + time@,
{
    let mut s = String::new();
    s.append("最后运行: ");
    s.append(time);
    proof {
        assert(s@ =~= "最后运行: "@ + time@);
    }
    s
}

pub fn select_button() -> (r: &'static str)
    ensures
        r@ == "选择"@,
{
    "选择"
}

pub fn check_update_failed(error: &str) -> (r: String)
    ensures
        r@ == "检查更新失败: "@ + error@,
{
    let mut s = String::new();
    s.append("检查更新失败: ");
    s.append(error);
    proof {
        assert(s@ =~= "检查更新失败: "@ + error@);
    }
    s
}

pub fn theme_light() -> (r: &'static str)
    ensures
        r@ == "浅色"@,
{
    "浅色"
}

pub fn theme_dark() -> (r: &'static str)
    ensures
        r@ == "深色"@,
{
    "深色"
}

pub fn theme_system() -> (r: &'static str)
    ensures
        r@ == "跟随系统"@,
{
    "跟随系统"
}

} // verus!
