//! Configuration records: the per-game save-file ("ufs") configuration that the
//! editor works on, and the application settings.
use vstd::prelude::*;
use vstd::string::*;

verus! {

/// One `savefiles` entry of a game's cloud configuration.
#[derive(Debug, Clone, PartialEq, Eq)]
pub struct SaveFileEntry {
    pub root: String,
    pub path: String,
    pub pattern: String,
    pub platforms: Vec<String>,
    pub recursive: bool,
}

/// One path rewrite of a root override (`find` is replaced by `replace`).
#[derive(Debug, Clone, PartialEq, Eq)]
pub struct PathTransform {
    pub find: String,
    pub replace: String,
}

/// One `rootoverrides` entry: on operating system `os`, files of root
/// `original_root` live under `new_root` instead.
#[derive(Debug, Clone, PartialEq, Eq)]
pub struct RootOverrideEntry {
    pub original_root: String,
    pub os: String,
    pub new_root: String,
    pub add_path: String,
    pub path_transforms: Vec<PathTransform>,
}

/// A game's complete cloud save configuration.
#[derive(Debug, Clone, PartialEq, Eq)]
pub struct UfsGameConfig {
    pub savefiles: Vec<SaveFileEntry>,
    pub root_overrides: Vec<RootOverrideEntry>,
}

/// Mathematical value of a [`SaveFileEntry`].
pub struct SaveFileModel {
    pub root: Seq<char>,
    pub path: Seq<char>,
    pub pattern: Seq<char>,
    pub platforms: Seq<Seq<char>>,
    pub recursive: bool,
}

/// Mathematical value of a [`PathTransform`].
pub struct PathTransformModel {
    pub find: Seq<char>,
    pub replace: Seq<char>,
}

/// Mathematical value of a [`RootOverrideEntry`].
pub struct RootOverrideModel {
    pub original_root: Seq<char>,
    pub os: Seq<char>,
    pub new_root: Seq<char>,
    pub add_path: Seq<char>,
    pub path_transforms: Seq<PathTransformModel>,
}

/// The characters of each string of a list.
pub open spec fn strings_view(v: Seq<String>) -> Seq<Seq<char>> {
    v.map_values(|s: String| s@)
}

impl View for SaveFileEntry {
    type V = SaveFileModel;

    open spec fn view(&self) -> SaveFileModel {
        SaveFileModel {
            root: self.root@,
            path: self.path@,
            pattern: self.pattern@,
            platforms: strings_view(self.platforms@),
            recursive: self.recursive,
        }
    }
}

impl View for PathTransform {
    type V = PathTransformModel;

    open spec fn view(&self) -> PathTransformModel {
        PathTransformModel { find: self.find@, replace: self.replace@ }
    }
}

impl View for RootOverrideEntry {
    type V = RootOverrideModel;

    open spec fn view(&self) -> RootOverrideModel {
        RootOverrideModel {
            original_root: self.original_root@,
            os: self.os@,
            new_root: self.new_root@,
            add_path: self.add_path@,
            path_transforms: self.path_transforms@.map_values(|t: PathTransform| t@),
        }
    }
}

/// The models of a list of save-file entries.
pub open spec fn savefiles_view(v: Seq<SaveFileEntry>) -> Seq<SaveFileModel> {
    v.map_values(|e: SaveFileEntry| e@)
}

/// The models of a list of root overrides.
pub open spec fn overrides_view(v: Seq<RootOverrideEntry>) -> Seq<RootOverrideModel> {
    v.map_values(|e: RootOverrideEntry| e@)
}


/// Path settings: the Steam installation chosen by hand (`None`: found
/// automatically).
#[derive(Debug, Clone, PartialEq, Eq)]
pub struct PathsConfig {
    pub steam_path: Option<String>,
}

/// Appearance settings: the theme, `system`, `light` or `dark`.
#[derive(Debug, Clone, PartialEq, Eq)]
pub struct AppearanceConfig {
    pub theme_mode: String,
}

/// Logging settings: whether a log file is kept.
#[derive(Debug, Clone, PartialEq, Eq)]
pub struct LoggingConfig {
    pub enabled: bool,
}

/// The application settings.
#[derive(Debug, Clone, PartialEq, Eq)]
pub struct AppConfig {
    pub version: u32,
    pub paths: PathsConfig,
    pub appearance: AppearanceConfig,
    pub logging: LoggingConfig,
}

/// The settings version written by this program.
pub fn default_version() -> (r: u32)
    ensures
        r == 1,
{
    1
}

/// The theme used unless another is chosen.
pub fn default_theme() -> (r: String)
    ensures
        r@ == "system"@,
{
    String::from_str("system")
}

/// Whether a log file is kept unless chosen otherwise.
pub fn default_log_enabled() -> (r: bool)
    ensures
        r,
{
    true
}

impl Default for PathsConfig {
    fn default() -> (r: Self)
        ensures
            r.steam_path is None,
    {
        PathsConfig { steam_path: None }
    }
}

impl Default for AppearanceConfig {
    fn default() -> (r: Self)
        ensures
            r.theme_mode@ == "system"@,
    {
        AppearanceConfig { theme_mode: default_theme() }
    }
}

impl Default for LoggingConfig {
    fn default() -> (r: Self)
        ensures
            r.enabled,
    {
        LoggingConfig { enabled: default_log_enabled() }
    }
}

/// Whether settings are the default ones: version 1, no Steam path chosen, the
/// system theme and logging on.
pub open spec fn is_default_config(c: AppConfig) -> bool {
    c.version == 1 && c.paths.steam_path is None && c.appearance.theme_mode@ == "system"@
        && c.logging.enabled
}

impl Default for AppConfig {
    fn default() -> (r: Self)
        ensures
            is_default_config(r),
    {
        AppConfig {
            version: 1,
            paths: PathsConfig::default(),
            appearance: AppearanceConfig::default(),
            logging: LoggingConfig::default(),
        }
    }
}

impl AppConfig {
    /// Whether saving writes the commented template rather than the settings
    /// themselves: no Steam path chosen, the system theme and logging on.
    pub fn uses_commented_template(&self) -> (r: bool)
        ensures
            r == (self.paths.steam_path is None && self.appearance.theme_mode@ == "system"@
                && self.logging.enabled),
    {
        self.paths.steam_path.is_none() && crate::text::str_eq(self.appearance.theme_mode.as_str(), "system")
            && self.logging.enabled
    }

    /// The settings file written for default settings: the default values with
    /// comments that explain each one.
    pub fn default_toml_with_comments() -> (r: String)
        ensures
            r@ == default_config_template(),
    {
        String::from_str(
            "# Steam Cloud File Manager settings\n\n# Settings format version\nversion = 1\n\n[paths]\n# Steam installation directory; leave unset to find it automatically\n# steam_path = \"\"\n\n[appearance]\n# Theme: \"system\", \"light\" or \"dark\"\ntheme_mode = \"system\"\n\n[logging]\n# Keep a log file\nenabled = true\n",
        )
    }
}

/// The characters of the commented settings template.
pub open spec fn default_config_template() -> Seq<char> {
    "# Steam Cloud File Manager settings\n\n# Settings format version\nversion = 1\n\n[paths]\n# Steam installation directory; leave unset to find it automatically\n# steam_path = \"\"\n\n[appearance]\n# Theme: \"system\", \"light\" or \"dark\"\ntheme_mode = \"system\"\n\n[logging]\n# Keep a log file\nenabled = true\n"@
}

/// A copy of settings, equal to them.
pub fn copy_config(c: &AppConfig) -> (r: AppConfig)
    ensures
        r == *c,
{
    let steam_path = match &c.paths.steam_path {
        Some(p) => Some(p.clone()),
        None => None,
    };
    AppConfig {
        version: c.version,
        paths: PathsConfig { steam_path },
        appearance: AppearanceConfig { theme_mode: c.appearance.theme_mode.clone() },
        logging: LoggingConfig { enabled: c.logging.enabled },
    }
}

/// The settings in use, once loaded (`None` before).
pub struct ConfigStore {
    pub config: Option<AppConfig>,
}

impl ConfigStore {
    /// A store whose settings are not loaded yet.
    pub fn new() -> (r: Self)
        ensures
            r.config is None,
    {
        ConfigStore { config: None }
    }

    /// Puts loaded settings in use.
    pub fn init_config(&mut self, config: AppConfig)
        ensures
            final(self).config == Some(config),
    {
        self.config = Some(config);
    }

    /// A copy of the settings in use; the default settings before they are loaded.
    pub fn get_config(&self) -> (r: AppConfig)
        ensures
            match self.config {
                Some(c) => r == c,
                None => is_default_config(r),
            },
    {
        match &self.config {
            Some(c) => copy_config(c),
            None => AppConfig::default(),
        }
    }

    /// The Steam path chosen by hand, if any.
    pub fn get_custom_steam_path(&self) -> (r: Option<String>)
        ensures
            match self.config {
                Some(c) => r == c.paths.steam_path,
                None => r is None,
            },
    {
        self.get_config().paths.steam_path
    }

    /// Chooses the Steam path by hand (`None`: find it automatically); nothing
    /// happens before the settings are loaded. Returns the settings to save.
    pub fn set_custom_steam_path(&mut self, path: Option<String>) -> (r: Option<AppConfig>)
        ensures
            match old(self).config {
                Some(c) => final(self).config == Some(AppConfig { paths: PathsConfig { steam_path: path }, ..c })
                    && r == final(self).config,
                None => final(self).config is None && r is None,
            },
    {
        match &mut self.config {
            Some(c) => {
                c.paths.steam_path = path;
                Some(copy_config(c))
            },
            None => None,
        }
    }

    /// Returns to the default settings (in use once loaded). Returns the
    /// settings to save.
    pub fn reset_to_default(&mut self) -> (r: AppConfig)
        ensures
            is_default_config(r),
            match old(self).config {
                Some(_) => final(self).config == Some(r),
                None => final(self).config is None,
            },
    {
        let d = AppConfig::default();
        if self.config.is_some() {
            self.config = Some(copy_config(&d));
        }
        d
    }
}

/// How a Steam directory chosen by hand looks.
#[derive(Debug, Clone, PartialEq, Eq, Structural)]
pub enum SteamPathValidation {
    /// It holds `userdata` with that many user directories.
    Valid { user_count: usize },
    /// It does not exist.
    NotExists,
    /// It has no `userdata` directory.
    InvalidStructure,
    /// Its `userdata` holds no user directory.
    NoUsers,
}

impl SteamPathValidation {
    /// Whether the directory is usable.
    pub fn is_valid(&self) -> (r: bool)
        ensures
            r == (*self is Valid),
    {
        match self {
            SteamPathValidation::Valid { .. } => true,
            _ => false,
        }
    }
}

/// Whether a directory name is a Steam user id: ASCII digits only.
pub open spec fn is_user_dir_name(name: Seq<char>) -> bool {
    forall|i: int| 0 <= i < name.len() ==> '0' <= #[trigger] name[i] <= '9'
}

/// The number of names from position `k` on that are user ids.
pub open spec fn user_dirs_from(names: Seq<Seq<char>>, k: int) -> nat
    decreases names.len() - k,
{
    if k < 0 || k >= names.len() {
        0
    } else {
        (if is_user_dir_name(names[k]) { 1nat } else { 0nat }) + user_dirs_from(names, k + 1)
    }
}

/// How a Steam directory looks (see [`validate_steam_path`]).
pub open spec fn steam_path_validation(exists: bool, has_userdata: bool, names: Seq<Seq<char>>) -> SteamPathValidation {
    if !exists {
        SteamPathValidation::NotExists
    } else if !has_userdata {
        SteamPathValidation::InvalidStructure
    } else if user_dirs_from(names, 0) == 0 {
        SteamPathValidation::NoUsers
    } else {
        SteamPathValidation::Valid { user_count: user_dirs_from(names, 0) as usize }
    }
}

/// A Steam directory is usable exactly when it exists, holds `userdata`, and
/// `userdata` holds at least one user directory; the count is then the number
/// of user directories.
pub proof fn lemma_usable_steam_path(exists: bool, has_userdata: bool, names: Seq<Seq<char>>)
    requires
        names.len() <= usize::MAX,
    ensures
        steam_path_validation(exists, has_userdata, names) is Valid <==> (exists && has_userdata
            && user_dirs_from(names, 0) >= 1),
        steam_path_validation(exists, has_userdata, names) matches SteamPathValidation::Valid { user_count }
            ==> user_count == user_dirs_from(names, 0),
{
    lemma_user_dirs_bound(names, 0);
}

/// At most as many names from position `k` on are user ids as there are names.
proof fn lemma_user_dirs_bound(names: Seq<Seq<char>>, k: int)
    requires
        0 <= k <= names.len(),
    ensures
        user_dirs_from(names, k) <= names.len() - k,
    decreases names.len() - k,
{
    if k < names.len() {
        lemma_user_dirs_bound(names, k + 1);
    }
}

/// Whether a name has ASCII digits only.
fn all_ascii_digits(name: &str) -> (r: bool)
    ensures
        r == is_user_dir_name(name@),
{
    let v = crate::text::str_chars(name);
    let mut i: usize = 0;
    while i < v.len()
        invariant
            v@ == name@,
            i <= v@.len(),
            forall|k: int| 0 <= k < i ==> '0' <= #[trigger] v@[k] <= '9',
        decreases v.len() - i,
    {
        if !('0' <= v[i] && v[i] <= '9') {
            return false;
        }
        i = i + 1;
    }
    true
}

/// How a Steam directory chosen by hand looks, from whether it exists, whether
/// it holds `userdata`, and the names of the directories in `userdata`: user
/// directories are those named with ASCII digits only.
pub fn validate_steam_path(exists: bool, has_userdata: bool, userdata_dirs: &[String]) -> (r: SteamPathValidation)
    ensures
        r == steam_path_validation(exists, has_userdata, strings_view(userdata_dirs@)),
{
    if !exists {
        return SteamPathValidation::NotExists;
    }
    if !has_userdata {
        return SteamPathValidation::InvalidStructure;
    }
    let ghost names = strings_view(userdata_dirs@);
    let n = userdata_dirs.len();
    let mut count: usize = 0;
    let mut i: usize = n;
    while i > 0
        invariant
            n == userdata_dirs@.len(),
            names == strings_view(userdata_dirs@),
            i <= n,
            count <= n - i,
            count == user_dirs_from(names, i as int),
        decreases i,
    {
        i = i - 1;
        assert(names[i as int] == userdata_dirs@[i as int]@);
        if all_ascii_digits(userdata_dirs[i].as_str()) {
            count = count + 1;
        }
    }
    if count == 0 {
        SteamPathValidation::NoUsers
    } else {
        SteamPathValidation::Valid { user_count: count }
    }
}

} // verus!
