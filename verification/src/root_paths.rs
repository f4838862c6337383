//! The base folder of each Steam Cloud root on each operating system: which
//! environment variable it starts from and which folders follow, and the
//! folder that results from the values the environment holds.
use vstd::prelude::*;
use vstd::string::*;
use crate::path_resolver::RootType;
use crate::config::strings_view;

verus! {

/// The operating system whose folder conventions apply.
#[derive(Debug, Clone, Copy, PartialEq, Eq, Structural)]
pub enum TargetOs {
    Windows,
    MacOs,
    Linux,
}

/// Reads an operating system name as the platform filters write it
/// (`windows`, `macos`, `linux`).
pub fn target_os_from_name(name: &str) -> (r: Option<TargetOs>)
    ensures
        r == (if name@ == "windows"@ {
            Some(TargetOs::Windows)
        } else if name@ == "macos"@ {
            Some(TargetOs::MacOs)
        } else if name@ == "linux"@ {
            Some(TargetOs::Linux)
        } else {
            None
        }),
{
    if crate::text::str_eq(name, "windows") {
        Some(TargetOs::Windows)
    } else if crate::text::str_eq(name, "macos") {
        Some(TargetOs::MacOs)
    } else if crate::text::str_eq(name, "linux") {
        Some(TargetOs::Linux)
    } else {
        None
    }
}

/// Why the base folder of a root cannot be given.
#[derive(Debug, Clone, Copy, PartialEq, Eq, Structural)]
pub enum RootPathError {
    /// The game install root is found through the game's manifest.
    GameInstall,
    /// What the user base storage root holds is not known.
    SteamUserBaseStorage,
    /// The Android package root is not resolved.
    AndroidSteamPackageRoot,
    /// No environment variable that the root starts from is set.
    MissingEnv,
    /// The Steam Cloud documents folder of the game (its number) was not found.
    CloudDocumentsNotFound(u32),
    /// The install folder of the game (its number) was not found.
    GameInstallNotFound(u32),
}

/// One way to find a folder: the value of environment variable `var`, then
/// the folders `parts` below it.
#[derive(Debug, Clone)]
pub struct EnvPath {
    pub var: String,
    pub parts: Vec<String>,
}

/// How the base folder of a root is found.
#[derive(Debug, Clone)]
pub enum BaseDirPlan {
    /// `<steam>/userdata/<user>/<app>/remote`.
    UserRemote,
    /// The first of `choices` whose variable is set; if none is, `fallback`.
    FromEnv { choices: Vec<EnvPath>, fallback: Option<String> },
    /// The Steam Cloud documents folder: the first of `choices` whose variable
    /// is set; the game's folder is then looked up below it.
    CloudDocuments { choices: Vec<EnvPath> },
    /// The root has no base folder here.
    Unsupported(RootPathError),
}

/// What an [`EnvPath`] stands for: the variable's name and the folders.
pub open spec fn env_path_view(e: EnvPath) -> (Seq<char>, Seq<Seq<char>>) {
    (e.var@, strings_view(e.parts@))
}

/// The models of a list of [`EnvPath`]s.
pub open spec fn choices_view(v: Seq<EnvPath>) -> Seq<(Seq<char>, Seq<Seq<char>>)> {
    v.map_values(|e: EnvPath| env_path_view(e))
}

/// What a [`BaseDirPlan`] stands for.
pub enum BasePlanModel {
    UserRemote,
    FromEnv(Seq<(Seq<char>, Seq<Seq<char>>)>, Option<Seq<char>>),
    CloudDocuments(Seq<(Seq<char>, Seq<Seq<char>>)>),
    Unsupported(RootPathError),
}

/// The model of a plan.
pub open spec fn plan_view(p: BaseDirPlan) -> BasePlanModel {
    match p {
        BaseDirPlan::UserRemote => BasePlanModel::UserRemote,
        BaseDirPlan::FromEnv { choices, fallback } => BasePlanModel::FromEnv(
            choices_view(choices@),
            match fallback {
                Some(f) => Some(f@),
                None => None,
            },
        ),
        BaseDirPlan::CloudDocuments { choices } => BasePlanModel::CloudDocuments(choices_view(choices@)),
        BaseDirPlan::Unsupported(e) => BasePlanModel::Unsupported(e),
    }
}

/// The value of one variable, then folders.
pub open spec fn env_one(var: Seq<char>, parts: Seq<Seq<char>>) -> BasePlanModel {
    BasePlanModel::FromEnv(seq![(var, parts)], None)
}

/// `HOME`, or else `USERPROFILE`.
pub open spec fn home_or_profile() -> BasePlanModel {
    BasePlanModel::FromEnv(seq![("HOME"@, Seq::empty()), ("USERPROFILE"@, Seq::empty())], None)
}

/// The XDG variable `xdg` when set, else `HOME` followed by `parts`.
pub open spec fn xdg_or_home(xdg: Seq<char>, parts: Seq<Seq<char>>) -> BasePlanModel {
    BasePlanModel::FromEnv(seq![(xdg, Seq::empty()), ("HOME"@, parts)], None)
}

/// `~/Library/Application Support` on macOS.
pub open spec fn mac_app_support() -> BasePlanModel {
    env_one("HOME"@, seq!["Library"@, "Application Support"@])
}

/// How the base folder of root `root` is found on `os`.
pub open spec fn base_plan_spec(root: RootType, os: TargetOs) -> BasePlanModel {
    match root {
        RootType::DefaultApi => BasePlanModel::UserRemote,
        RootType::GameInstall => BasePlanModel::Unsupported(RootPathError::GameInstall),
        RootType::WinMyDocuments | RootType::MacDocuments => match os {
            TargetOs::Windows => env_one("USERPROFILE"@, seq!["Documents"@]),
            _ => env_one("HOME"@, seq!["Documents"@]),
        },
        RootType::WinAppDataLocal => match os {
            TargetOs::Windows => env_one("LOCALAPPDATA"@, Seq::empty()),
            TargetOs::MacOs => env_one("HOME"@, Seq::empty()),
            TargetOs::Linux => env_one("HOME"@, seq![".local"@, "share"@]),
        },
        RootType::WinAppDataRoaming | RootType::MacAppSupport => match os {
            TargetOs::Windows => env_one("APPDATA"@, Seq::empty()),
            TargetOs::MacOs => mac_app_support(),
            TargetOs::Linux => env_one("HOME"@, seq![".config"@]),
        },
        RootType::SteamUserBaseStorage => BasePlanModel::Unsupported(RootPathError::SteamUserBaseStorage),
        RootType::MacHome | RootType::LinuxHome | RootType::WindowsHome => home_or_profile(),
        RootType::WinSavedGames => match os {
            TargetOs::Windows => env_one("USERPROFILE"@, seq!["Saved Games"@]),
            _ => env_one("HOME"@, seq!["Documents"@, "Saved Games"@]),
        },
        RootType::WinProgramData => match os {
            TargetOs::Windows => BasePlanModel::FromEnv(
                seq![("PROGRAMDATA"@, Seq::empty())],
                Some("C:\\ProgramData"@),
            ),
            _ => env_one("HOME"@, seq![".local"@, "share"@]),
        },
        RootType::SteamCloudDocuments => match os {
            TargetOs::Windows => BasePlanModel::CloudDocuments(
                seq![("USERPROFILE"@, seq!["Documents"@, "Steam Cloud"@])],
            ),
            TargetOs::MacOs => BasePlanModel::CloudDocuments(seq![("HOME"@, seq!["Documents"@, "Steam Cloud"@])]),
            TargetOs::Linux => BasePlanModel::CloudDocuments(seq![("HOME"@, seq![".SteamCloud"@])]),
        },
        RootType::WinAppDataLocalLow => match os {
            TargetOs::Windows => env_one("USERPROFILE"@, seq!["AppData"@, "LocalLow"@]),
            TargetOs::MacOs => env_one("HOME"@, seq!["Library"@, "Caches"@]),
            TargetOs::Linux => env_one("HOME"@, seq![".local"@, "share"@]),
        },
        RootType::MacCaches => match os {
            TargetOs::Windows => env_one("LOCALAPPDATA"@, Seq::empty()),
            TargetOs::MacOs => env_one("HOME"@, seq!["Library"@, "Caches"@]),
            TargetOs::Linux => env_one("HOME"@, seq![".cache"@]),
        },
        RootType::LinuxXdgDataHome => match os {
            TargetOs::Windows => env_one("LOCALAPPDATA"@, Seq::empty()),
            TargetOs::MacOs => mac_app_support(),
            TargetOs::Linux => xdg_or_home("XDG_DATA_HOME"@, seq![".local"@, "share"@]),
        },
        RootType::LinuxXdgConfigHome => match os {
            TargetOs::Windows => env_one("APPDATA"@, Seq::empty()),
            TargetOs::MacOs => mac_app_support(),
            TargetOs::Linux => xdg_or_home("XDG_CONFIG_HOME"@, seq![".config"@]),
        },
        RootType::AndroidSteamPackageRoot => BasePlanModel::Unsupported(RootPathError::AndroidSteamPackageRoot),
    }
}

fn no_parts() -> (r: Vec<String>)
    ensures
        strings_view(r@) == Seq::<Seq<char>>::empty(),
{
    let v: Vec<String> = Vec::new();
    assert(strings_view(v@) =~= Seq::<Seq<char>>::empty());
    v
}

fn one_part(a: &str) -> (r: Vec<String>)
    ensures
        strings_view(r@) == seq![a@],
{
    let mut v: Vec<String> = Vec::new();
    v.push(String::from_str(a));
    assert(strings_view(v@) =~= seq![a@]);
    v
}

fn two_parts(a: &str, b: &str) -> (r: Vec<String>)
    ensures
        strings_view(r@) == seq![a@, b@],
{
    let mut v: Vec<String> = Vec::new();
    v.push(String::from_str(a));
    v.push(String::from_str(b));
    assert(strings_view(v@) =~= seq![a@, b@]);
    v
}

fn plan_env_one(var: &str, parts: Vec<String>) -> (r: BaseDirPlan)
    ensures
        plan_view(r) == env_one(var@, strings_view(parts@)),
{
    let mut choices: Vec<EnvPath> = Vec::new();
    let e = EnvPath { var: String::from_str(var), parts };
    choices.push(e);
    assert(choices_view(choices@) =~= seq![(var@, strings_view(parts@))]);
    BaseDirPlan::FromEnv { choices, fallback: None }
}

fn plan_home_or_profile() -> (r: BaseDirPlan)
    ensures
        plan_view(r) == home_or_profile(),
{
    let mut choices: Vec<EnvPath> = Vec::new();
    choices.push(EnvPath { var: String::from_str("HOME"), parts: no_parts() });
    choices.push(EnvPath { var: String::from_str("USERPROFILE"), parts: no_parts() });
    assert(choices_view(choices@) =~= seq![("HOME"@, Seq::<Seq<char>>::empty()), ("USERPROFILE"@, Seq::<Seq<char>>::empty())]);
    BaseDirPlan::FromEnv { choices, fallback: None }
}

fn plan_xdg_or_home(xdg: &str, parts: Vec<String>) -> (r: BaseDirPlan)
    ensures
        plan_view(r) == xdg_or_home(xdg@, strings_view(parts@)),
{
    let mut choices: Vec<EnvPath> = Vec::new();
    choices.push(EnvPath { var: String::from_str(xdg), parts: no_parts() });
    let ghost pv = strings_view(parts@);
    choices.push(EnvPath { var: String::from_str("HOME"), parts });
    assert(choices_view(choices@) =~= seq![(xdg@, Seq::<Seq<char>>::empty()), ("HOME"@, pv)]);
    BaseDirPlan::FromEnv { choices, fallback: None }
}

fn plan_cloud_documents(var: &str, parts: Vec<String>) -> (r: BaseDirPlan)
    ensures
        plan_view(r) == BasePlanModel::CloudDocuments(seq![(var@, strings_view(parts@))]),
{
    let mut choices: Vec<EnvPath> = Vec::new();
    choices.push(EnvPath { var: String::from_str(var), parts });
    assert(choices_view(choices@) =~= seq![(var@, strings_view(parts@))]);
    BaseDirPlan::CloudDocuments { choices }
}

/// How the base folder of root `root` is found on `os` (see [`base_plan_spec`]).
pub fn root_base_plan(root: RootType, os: TargetOs) -> (r: BaseDirPlan)
    ensures
        plan_view(r) == base_plan_spec(root, os),
{
    match root {
        RootType::DefaultApi => BaseDirPlan::UserRemote,
        RootType::GameInstall => BaseDirPlan::Unsupported(RootPathError::GameInstall),
        RootType::WinMyDocuments | RootType::MacDocuments => match os {
            TargetOs::Windows => plan_env_one("USERPROFILE", one_part("Documents")),
            _ => plan_env_one("HOME", one_part("Documents")),
        },
        RootType::WinAppDataLocal => match os {
            TargetOs::Windows => plan_env_one("LOCALAPPDATA", no_parts()),
            TargetOs::MacOs => plan_env_one("HOME", no_parts()),
            TargetOs::Linux => plan_env_one("HOME", two_parts(".local", "share")),
        },
        RootType::WinAppDataRoaming | RootType::MacAppSupport => match os {
            TargetOs::Windows => plan_env_one("APPDATA", no_parts()),
            TargetOs::MacOs => plan_env_one("HOME", two_parts("Library", "Application Support")),
            TargetOs::Linux => plan_env_one("HOME", one_part(".config")),
        },
        RootType::SteamUserBaseStorage => BaseDirPlan::Unsupported(RootPathError::SteamUserBaseStorage),
        RootType::MacHome | RootType::LinuxHome | RootType::WindowsHome => plan_home_or_profile(),
        RootType::WinSavedGames => match os {
            TargetOs::Windows => plan_env_one("USERPROFILE", one_part("Saved Games")),
            _ => plan_env_one("HOME", two_parts("Documents", "Saved Games")),
        },
        RootType::WinProgramData => match os {
            TargetOs::Windows => {
                let mut choices: Vec<EnvPath> = Vec::new();
                choices.push(EnvPath { var: String::from_str("PROGRAMDATA"), parts: no_parts() });
                assert(choices_view(choices@) =~= seq![("PROGRAMDATA"@, Seq::<Seq<char>>::empty())]);
                BaseDirPlan::FromEnv { choices, fallback: Some(String::from_str("C:\\ProgramData")) }
            },
            _ => plan_env_one("HOME", two_parts(".local", "share")),
        },
        RootType::SteamCloudDocuments => match os {
            TargetOs::Windows => plan_cloud_documents("USERPROFILE", two_parts("Documents", "Steam Cloud")),
            TargetOs::MacOs => plan_cloud_documents("HOME", two_parts("Documents", "Steam Cloud")),
            TargetOs::Linux => plan_cloud_documents("HOME", one_part(".SteamCloud")),
        },
        RootType::WinAppDataLocalLow => match os {
            TargetOs::Windows => plan_env_one("USERPROFILE", two_parts("AppData", "LocalLow")),
            TargetOs::MacOs => plan_env_one("HOME", two_parts("Library", "Caches")),
            TargetOs::Linux => plan_env_one("HOME", two_parts(".local", "share")),
        },
        RootType::MacCaches => match os {
            TargetOs::Windows => plan_env_one("LOCALAPPDATA", no_parts()),
            TargetOs::MacOs => plan_env_one("HOME", two_parts("Library", "Caches")),
            TargetOs::Linux => plan_env_one("HOME", one_part(".cache")),
        },
        RootType::LinuxXdgDataHome => match os {
            TargetOs::Windows => plan_env_one("LOCALAPPDATA", no_parts()),
            TargetOs::MacOs => plan_env_one("HOME", two_parts("Library", "Application Support")),
            TargetOs::Linux => plan_xdg_or_home("XDG_DATA_HOME", two_parts(".local", "share")),
        },
        RootType::LinuxXdgConfigHome => match os {
            TargetOs::Windows => plan_env_one("APPDATA", no_parts()),
            TargetOs::MacOs => plan_env_one("HOME", two_parts("Library", "Application Support")),
            TargetOs::Linux => plan_xdg_or_home("XDG_CONFIG_HOME", one_part(".config")),
        },
        RootType::AndroidSteamPackageRoot => BaseDirPlan::Unsupported(RootPathError::AndroidSteamPackageRoot),
    }
}

/// The value of variable `name` in `env`, a list of the variables that are set
/// with their values: the value of the first entry of that name.
pub open spec fn env_value(env: Seq<(String, String)>, name: Seq<char>) -> Option<Seq<char>>
    decreases env.len(),
{
    if env.len() == 0 {
        None
    } else if env[0].0@ == name {
        Some(env[0].1@)
    } else {
        env_value(env.drop_first(), name)
    }
}

/// The folder given by the first choice whose variable is set: its value,
/// then the choice's folders.
pub open spec fn first_env_path(
    choices: Seq<(Seq<char>, Seq<Seq<char>>)>,
    env: Seq<(String, String)>,
) -> Option<Seq<Seq<char>>>
    decreases choices.len(),
{
    if choices.len() == 0 {
        None
    } else {
        match env_value(env, choices[0].0) {
            Some(v) => Some(seq![v] + choices[0].1),
            None => first_env_path(choices.drop_first(), env),
        }
    }
}

/// The base folder of root `root` on `os`, as path components, for the Steam
/// folder `steam`, the user `user`, the game `app` and the environment `env`.
/// For the Steam Cloud documents root it is the documents folder itself, below
/// which [`steam_cloud_docs_dir`] picks the game's folder.
pub open spec fn root_base_path_spec(
    root: RootType,
    os: TargetOs,
    steam: Seq<char>,
    user: Seq<char>,
    app: u32,
    env: Seq<(String, String)>,
) -> Result<Seq<Seq<char>>, RootPathError> {
    match base_plan_spec(root, os) {
        BasePlanModel::UserRemote => Ok(
            seq![steam, "userdata"@, user, crate::text::decimal(app as nat), "remote"@],
        ),
        BasePlanModel::FromEnv(choices, fallback) => match first_env_path(choices, env) {
            Some(p) => Ok(p),
            None => match fallback {
                Some(f) => Ok(seq![f]),
                None => Err(RootPathError::MissingEnv),
            },
        },
        BasePlanModel::CloudDocuments(choices) => match first_env_path(choices, env) {
            Some(p) => Ok(p),
            None => Err(RootPathError::MissingEnv),
        },
        BasePlanModel::Unsupported(e) => Err(e),
    }
}

/// The value of variable `name` in `env` (see [`env_value`]).
pub fn env_lookup(env: &[(String, String)], name: &str) -> (r: Option<String>)
    ensures
        match env_value(env@, name@) {
            Some(v) => r matches Some(x) && x@ == v,
            None => r is None,
        },
{
    let mut i: usize = 0;
    assert(env@.subrange(0, env@.len() as int) =~= env@);
    while i < env.len()
        invariant
            i <= env@.len(),
            env_value(env@.subrange(i as int, env@.len() as int), name@) == env_value(env@, name@),
        decreases env.len() - i,
    {
        let ghost rest = env@.subrange(i as int, env@.len() as int);
        assert(rest[0] == env@[i as int]);
        if crate::text::str_eq(env[i].0.as_str(), name) {
            return Some(env[i].1.clone());
        }
        assert(rest.drop_first() =~= env@.subrange(i + 1, env@.len() as int));
        i = i + 1;
    }
    None
}

/// The folder of the first choice whose variable is set (see
/// [`first_env_path`]).
fn first_env(choices: &[EnvPath], env: &[(String, String)]) -> (r: Option<Vec<String>>)
    ensures
        match first_env_path(choices_view(choices@), env@) {
            Some(p) => r matches Some(v) && strings_view(v@) == p,
            None => r is None,
        },
{
    let ghost cv = choices_view(choices@);
    let mut i: usize = 0;
    assert(cv.subrange(0, cv.len() as int) =~= cv);
    while i < choices.len()
        invariant
            cv == choices_view(choices@),
            i <= choices@.len(),
            first_env_path(cv.subrange(i as int, cv.len() as int), env@) == first_env_path(cv, env@),
        decreases choices.len() - i,
    {
        let ghost rest = cv.subrange(i as int, cv.len() as int);
        assert(rest[0] == env_path_view(choices@[i as int]));
        match env_lookup(env, choices[i].var.as_str()) {
            Some(v) => {
                let ghost vv = v@;
                let mut out: Vec<String> = Vec::new();
                out.push(v);
                assert(strings_view(out@) =~= seq![vv]);
                let mut j: usize = 0;
                let ghost parts = strings_view(choices@[i as int].parts@);
                while j < choices[i].parts.len()
                    invariant
                        i < choices@.len(),
                        parts == strings_view(choices@[i as int].parts@),
                        j <= parts.len(),
                        strings_view(out@) == seq![vv] + parts.take(j as int),
                    decreases choices[i as int].parts@.len() - j,
                {
                    let ghost before = out@;
                    let c = choices[i].parts[j].clone();
                    assert(c@ == parts[j as int]);
                    out.push(c);
                    assert(strings_view(out@) =~= strings_view(before).push(c@));
                    assert(parts.take(j + 1) =~= parts.take(j as int).push(parts[j as int]));
                    assert(strings_view(out@) =~= seq![vv] + parts.take(j + 1));
                    j = j + 1;
                }
                assert(parts.take(j as int) =~= parts);
                return Some(out);
            },
            None => {},
        }
        assert(rest.drop_first() =~= cv.subrange(i + 1, cv.len() as int));
        i = i + 1;
    }
    None
}

/// The base folder of root `root` on `os` (see [`root_base_path_spec`]).
pub fn resolve_root_base_path(
    root: RootType,
    os: TargetOs,
    steam_path: &str,
    user_id: &str,
    app_id: u32,
    env: &[(String, String)],
) -> (r: Result<Vec<String>, RootPathError>)
    ensures
        match root_base_path_spec(root, os, steam_path@, user_id@, app_id, env@) {
            Ok(p) => r matches Ok(v) && strings_view(v@) == p,
            Err(e) => r == Err::<Vec<String>, RootPathError>(e),
        },
{
    match root_base_plan(root, os) {
        BaseDirPlan::UserRemote => {
            let mut v: Vec<String> = Vec::new();
            v.push(String::from_str(steam_path));
            v.push(String::from_str("userdata"));
            v.push(String::from_str(user_id));
            v.push(crate::text::u64_text(app_id as u64));
            v.push(String::from_str("remote"));
            assert(strings_view(v@) =~= seq![
                steam_path@,
                "userdata"@,
                user_id@,
                crate::text::decimal(app_id as nat),
                "remote"@,
            ]);
            Ok(v)
        },
        BaseDirPlan::FromEnv { choices, fallback } => match first_env(choices.as_slice(), env) {
            Some(p) => Ok(p),
            None => match fallback {
                Some(f) => {
                    let mut v: Vec<String> = Vec::new();
                    let ghost fv = f@;
                    v.push(f);
                    assert(strings_view(v@) =~= seq![fv]);
                    Ok(v)
                },
                None => Err(RootPathError::MissingEnv),
            },
        },
        BaseDirPlan::CloudDocuments { choices } => match first_env(choices.as_slice(), env) {
            Some(p) => Ok(p),
            None => Err(RootPathError::MissingEnv),
        },
        BaseDirPlan::Unsupported(e) => Err(e),
    }
}

/// The Steam Cloud documents folder of game `app` below the documents folder
/// `base`: `base` itself when it does not exist; else `<base>/<persona>/<game>`
/// when the Steam user's name and the game's name are known and that folder
/// exists; else `<base>/<sub>/<game>` for the first folder `sub` of `base`
/// that holds the game's folder (`scanned`); else no folder is found.
pub open spec fn cloud_docs_dir_spec(
    base: Seq<Seq<char>>,
    base_exists: bool,
    persona: Option<Seq<char>>,
    game: Option<Seq<char>>,
    exact_exists: bool,
    scanned: Option<Seq<char>>,
    app: u32,
) -> Result<Seq<Seq<char>>, RootPathError> {
    if !base_exists {
        Ok(base)
    } else if persona is Some && game is Some && exact_exists {
        Ok(base + seq![persona.unwrap(), game.unwrap()])
    } else if game is Some && scanned is Some {
        Ok(base + seq![scanned.unwrap(), game.unwrap()])
    } else {
        Err(RootPathError::CloudDocumentsNotFound(app))
    }
}

/// The optional text of an optional string.
pub open spec fn opt_text(o: Option<String>) -> Option<Seq<char>> {
    match o {
        Some(s) => Some(s@),
        None => None,
    }
}

/// Picks the Steam Cloud documents folder of game `app_id` from what was found
/// on disk (see [`cloud_docs_dir_spec`]): whether `base` exists, the Steam
/// user's and the game's names, whether `<base>/<persona>/<game>` exists, and
/// the first folder of `base` that holds the game's folder.
pub fn steam_cloud_docs_dir(
    base: Vec<String>,
    base_exists: bool,
    persona: Option<String>,
    game: Option<String>,
    exact_exists: bool,
    scanned: Option<String>,
    app_id: u32,
) -> (r: Result<Vec<String>, RootPathError>)
    ensures
        match cloud_docs_dir_spec(
            strings_view(base@),
            base_exists,
            opt_text(persona),
            opt_text(game),
            exact_exists,
            opt_text(scanned),
            app_id,
        ) {
            Ok(p) => r matches Ok(v) && strings_view(v@) == p,
            Err(e) => r == Err::<Vec<String>, RootPathError>(e),
        },
{
    if !base_exists {
        return Ok(base);
    }
    let ghost bv = strings_view(base@);
    match (persona, game, scanned) {
        (Some(p), Some(g), _) if exact_exists => {
            let mut v = base;
            let ghost (pv, gv) = (p@, g@);
            v.push(p);
            v.push(g);
            assert(strings_view(v@) =~= bv + seq![pv, gv]);
            Ok(v)
        },
        (_, Some(g), Some(sub)) => {
            let mut v = base;
            let ghost (sv, gv) = (sub@, g@);
            v.push(sub);
            v.push(g);
            assert(strings_view(v@) =~= bv + seq![sv, gv]);
            Ok(v)
        },
        _ => Err(RootPathError::CloudDocumentsNotFound(app_id)),
    }
}

/// `~/Library/Application Support/<name>`, the folder where a macOS game may
/// keep its files, when `HOME` is set.
pub open spec fn mac_game_support_dir(env: Seq<(String, String)>, name: Seq<char>) -> Option<Seq<Seq<char>>> {
    match env_value(env, "HOME"@) {
        Some(h) => Some(seq![h, "Library"@, "Application Support"@, name]),
        None => None,
    }
}

/// The install folder of a game whose manifest lies in the library folder
/// `steamapps` and names the install directory `dir`: on macOS, when the
/// manifest also names the game, its folder in `~/Library/Application
/// Support` if that exists (`support_exists`), with no folder given when
/// `HOME` is not set; otherwise `<steamapps>/common/<dir>`.
pub open spec fn game_install_dir_spec(
    os: TargetOs,
    steamapps: Seq<char>,
    dir: Seq<char>,
    name: Option<Seq<char>>,
    env: Seq<(String, String)>,
    support_exists: bool,
) -> Result<Seq<Seq<char>>, RootPathError> {
    let common = seq![steamapps, "common"@, dir];
    if os == TargetOs::MacOs && name is Some {
        match mac_game_support_dir(env, name.unwrap()) {
            None => Err(RootPathError::MissingEnv),
            Some(p) => if support_exists {
                Ok(p)
            } else {
                Ok(common)
            },
        }
    } else {
        Ok(common)
    }
}

/// The folder in `~/Library/Application Support` named after the game (see
/// [`mac_game_support_dir`]); the caller looks whether it exists.
pub fn mac_game_support_folder(env: &[(String, String)], name: &str) -> (r: Option<Vec<String>>)
    ensures
        match mac_game_support_dir(env@, name@) {
            Some(p) => r matches Some(v) && strings_view(v@) == p,
            None => r is None,
        },
{
    match env_lookup(env, "HOME") {
        Some(h) => {
            let mut v: Vec<String> = Vec::new();
            let ghost hv = h@;
            v.push(h);
            v.push(String::from_str("Library"));
            v.push(String::from_str("Application Support"));
            v.push(String::from_str(name));
            assert(strings_view(v@) =~= seq![hv, "Library"@, "Application Support"@, name@]);
            Some(v)
        },
        None => None,
    }
}

/// The install folder of a game (see [`game_install_dir_spec`]).
pub fn game_install_dir(
    os: TargetOs,
    steamapps: &str,
    dir: &str,
    name: Option<&str>,
    env: &[(String, String)],
    support_exists: bool,
) -> (r: Result<Vec<String>, RootPathError>)
    ensures
        match game_install_dir_spec(
            os,
            steamapps@,
            dir@,
            match name {
                Some(n) => Some(n@),
                None => None,
            },
            env@,
            support_exists,
        ) {
            Ok(p) => r matches Ok(v) && strings_view(v@) == p,
            Err(e) => r == Err::<Vec<String>, RootPathError>(e),
        },
{
    let mut common: Vec<String> = Vec::new();
    common.push(String::from_str(steamapps));
    common.push(String::from_str("common"));
    common.push(String::from_str(dir));
    assert(strings_view(common@) =~= seq![steamapps@, "common"@, dir@]);
    match (os, name) {
        (TargetOs::MacOs, Some(n)) => match mac_game_support_folder(env, n) {
            None => Err(RootPathError::MissingEnv),
            Some(p) => if support_exists {
                Ok(p)
            } else {
                Ok(common)
            },
        },
        _ => Ok(common),
    }
}

/// The folder named by variable `var` followed by `parts`, or
/// [`RootPathError::MissingEnv`] when `var` is not set.
pub open spec fn var_then(env: Seq<(String, String)>, var: Seq<char>, parts: Seq<Seq<char>>) -> Result<
    Seq<Seq<char>>,
    RootPathError,
> {
    match env_value(env, var) {
        Some(v) => Ok(seq![v] + parts),
        None => Err(RootPathError::MissingEnv),
    }
}

/// The folder named by `first` when it is set, else the one named by `second`
/// followed by `parts`.
pub open spec fn var_or(env: Seq<(String, String)>, first: Seq<char>, second: Seq<char>, parts: Seq<Seq<char>>) -> Result<
    Seq<Seq<char>>,
    RootPathError,
> {
    match env_value(env, first) {
        Some(v) => Ok(seq![v]),
        None => var_then(env, second, parts),
    }
}

/// The base folder of every root on Windows: the default root below the Steam
/// folder; the documents, saved games and `AppData\LocalLow` folders below
/// `USERPROFILE`; the local application data folder `LOCALAPPDATA` for the
/// local, caches and XDG data roots; the roaming `APPDATA` folder for the
/// roaming, application support and XDG config roots; `PROGRAMDATA` or else
/// `C:\ProgramData`; the home roots from `HOME`, else `USERPROFILE`; and the
/// Steam Cloud documents folder below `USERPROFILE`.
pub proof fn lemma_windows_base_folders(steam: Seq<char>, user: Seq<char>, app: u32, env: Seq<(String, String)>)
    ensures
        root_base_path_spec(RootType::DefaultApi, TargetOs::Windows, steam, user, app, env) == Ok::<
            Seq<Seq<char>>,
            RootPathError,
        >(seq![steam, "userdata"@, user, crate::text::decimal(app as nat), "remote"@]),
        root_base_path_spec(RootType::WinMyDocuments, TargetOs::Windows, steam, user, app, env) == var_then(
            env,
            "USERPROFILE"@,
            seq!["Documents"@],
        ),
        root_base_path_spec(RootType::MacDocuments, TargetOs::Windows, steam, user, app, env) == var_then(
            env,
            "USERPROFILE"@,
            seq!["Documents"@],
        ),
        root_base_path_spec(RootType::WinAppDataLocal, TargetOs::Windows, steam, user, app, env) == var_then(
            env,
            "LOCALAPPDATA"@,
            Seq::empty(),
        ),
        root_base_path_spec(RootType::WinAppDataRoaming, TargetOs::Windows, steam, user, app, env) == var_then(
            env,
            "APPDATA"@,
            Seq::empty(),
        ),
        root_base_path_spec(RootType::MacAppSupport, TargetOs::Windows, steam, user, app, env) == var_then(
            env,
            "APPDATA"@,
            Seq::empty(),
        ),
        root_base_path_spec(RootType::WinSavedGames, TargetOs::Windows, steam, user, app, env) == var_then(
            env,
            "USERPROFILE"@,
            seq!["Saved Games"@],
        ),
        root_base_path_spec(RootType::WinProgramData, TargetOs::Windows, steam, user, app, env) == (match env_value(
            env,
            "PROGRAMDATA"@,
        ) {
            Some(v) => Ok::<Seq<Seq<char>>, RootPathError>(seq![v]),
            None => Ok(seq!["C:\\ProgramData"@]),
        }),
        root_base_path_spec(RootType::SteamCloudDocuments, TargetOs::Windows, steam, user, app, env) == var_then(
            env,
            "USERPROFILE"@,
            seq!["Documents"@, "Steam Cloud"@],
        ),
        root_base_path_spec(RootType::WinAppDataLocalLow, TargetOs::Windows, steam, user, app, env) == var_then(
            env,
            "USERPROFILE"@,
            seq!["AppData"@, "LocalLow"@],
        ),
        root_base_path_spec(RootType::MacCaches, TargetOs::Windows, steam, user, app, env) == var_then(
            env,
            "LOCALAPPDATA"@,
            Seq::empty(),
        ),
        root_base_path_spec(RootType::LinuxXdgDataHome, TargetOs::Windows, steam, user, app, env) == var_then(
            env,
            "LOCALAPPDATA"@,
            Seq::empty(),
        ),
        root_base_path_spec(RootType::LinuxXdgConfigHome, TargetOs::Windows, steam, user, app, env) == var_then(
            env,
            "APPDATA"@,
            Seq::empty(),
        ),
        root_base_path_spec(RootType::MacHome, TargetOs::Windows, steam, user, app, env) == var_or(
            env,
            "HOME"@,
            "USERPROFILE"@,
            Seq::empty(),
        ),
        root_base_path_spec(RootType::LinuxHome, TargetOs::Windows, steam, user, app, env) == var_or(
            env,
            "HOME"@,
            "USERPROFILE"@,
            Seq::empty(),
        ),
        root_base_path_spec(RootType::WindowsHome, TargetOs::Windows, steam, user, app, env) == var_or(
            env,
            "HOME"@,
            "USERPROFILE"@,
            Seq::empty(),
        ),
{
    reveal_with_fuel(first_env_path, 3);
}

/// The base folder of every root on macOS: the default root below the Steam
/// folder; `HOME` itself for the local application data root and the home
/// roots (else `USERPROFILE`); `~/Documents` for the documents roots;
/// `~/Library/Application Support` for the roaming, application support and
/// XDG roots; `~/Documents/Saved Games`; `~/.local/share` for the program data
/// root; `~/Library/Caches` for the LocalLow and caches roots; and
/// `~/Documents/Steam Cloud`.
pub proof fn lemma_mac_base_folders(steam: Seq<char>, user: Seq<char>, app: u32, env: Seq<(String, String)>)
    ensures
        root_base_path_spec(RootType::DefaultApi, TargetOs::MacOs, steam, user, app, env) == Ok::<
            Seq<Seq<char>>,
            RootPathError,
        >(seq![steam, "userdata"@, user, crate::text::decimal(app as nat), "remote"@]),
        root_base_path_spec(RootType::WinMyDocuments, TargetOs::MacOs, steam, user, app, env) == var_then(
            env,
            "HOME"@,
            seq!["Documents"@],
        ),
        root_base_path_spec(RootType::MacDocuments, TargetOs::MacOs, steam, user, app, env) == var_then(
            env,
            "HOME"@,
            seq!["Documents"@],
        ),
        root_base_path_spec(RootType::WinAppDataLocal, TargetOs::MacOs, steam, user, app, env) == var_then(
            env,
            "HOME"@,
            Seq::empty(),
        ),
        root_base_path_spec(RootType::WinAppDataRoaming, TargetOs::MacOs, steam, user, app, env) == var_then(
            env,
            "HOME"@,
            seq!["Library"@, "Application Support"@],
        ),
        root_base_path_spec(RootType::MacAppSupport, TargetOs::MacOs, steam, user, app, env) == var_then(
            env,
            "HOME"@,
            seq!["Library"@, "Application Support"@],
        ),
        root_base_path_spec(RootType::WinSavedGames, TargetOs::MacOs, steam, user, app, env) == var_then(
            env,
            "HOME"@,
            seq!["Documents"@, "Saved Games"@],
        ),
        root_base_path_spec(RootType::WinProgramData, TargetOs::MacOs, steam, user, app, env) == var_then(
            env,
            "HOME"@,
            seq![".local"@, "share"@],
        ),
        root_base_path_spec(RootType::SteamCloudDocuments, TargetOs::MacOs, steam, user, app, env) == var_then(
            env,
            "HOME"@,
            seq!["Documents"@, "Steam Cloud"@],
        ),
        root_base_path_spec(RootType::WinAppDataLocalLow, TargetOs::MacOs, steam, user, app, env) == var_then(
            env,
            "HOME"@,
            seq!["Library"@, "Caches"@],
        ),
        root_base_path_spec(RootType::MacCaches, TargetOs::MacOs, steam, user, app, env) == var_then(
            env,
            "HOME"@,
            seq!["Library"@, "Caches"@],
        ),
        root_base_path_spec(RootType::LinuxXdgDataHome, TargetOs::MacOs, steam, user, app, env) == var_then(
            env,
            "HOME"@,
            seq!["Library"@, "Application Support"@],
        ),
        root_base_path_spec(RootType::LinuxXdgConfigHome, TargetOs::MacOs, steam, user, app, env) == var_then(
            env,
            "HOME"@,
            seq!["Library"@, "Application Support"@],
        ),
        root_base_path_spec(RootType::MacHome, TargetOs::MacOs, steam, user, app, env) == var_or(
            env,
            "HOME"@,
            "USERPROFILE"@,
            Seq::empty(),
        ),
        root_base_path_spec(RootType::LinuxHome, TargetOs::MacOs, steam, user, app, env) == var_or(
            env,
            "HOME"@,
            "USERPROFILE"@,
            Seq::empty(),
        ),
        root_base_path_spec(RootType::WindowsHome, TargetOs::MacOs, steam, user, app, env) == var_or(
            env,
            "HOME"@,
            "USERPROFILE"@,
            Seq::empty(),
        ),
{
    reveal_with_fuel(first_env_path, 3);
}

/// The base folder of every root on Linux: the default root below the Steam
/// folder; `~/Documents` for the documents roots; `~/.local/share` for the
/// local, program data and LocalLow roots; `~/.config` for the roaming and
/// application support roots; `~/Documents/Saved Games`; `~/.SteamCloud`;
/// `~/.cache`; `XDG_DATA_HOME` else `~/.local/share`; `XDG_CONFIG_HOME` else
/// `~/.config`; and the home roots from `HOME`, else `USERPROFILE`.
pub proof fn lemma_linux_base_folders(steam: Seq<char>, user: Seq<char>, app: u32, env: Seq<(String, String)>)
    ensures
        root_base_path_spec(RootType::DefaultApi, TargetOs::Linux, steam, user, app, env) == Ok::<
            Seq<Seq<char>>,
            RootPathError,
        >(seq![steam, "userdata"@, user, crate::text::decimal(app as nat), "remote"@]),
        root_base_path_spec(RootType::WinMyDocuments, TargetOs::Linux, steam, user, app, env) == var_then(
            env,
            "HOME"@,
            seq!["Documents"@],
        ),
        root_base_path_spec(RootType::MacDocuments, TargetOs::Linux, steam, user, app, env) == var_then(
            env,
            "HOME"@,
            seq!["Documents"@],
        ),
        root_base_path_spec(RootType::WinAppDataLocal, TargetOs::Linux, steam, user, app, env) == var_then(
            env,
            "HOME"@,
            seq![".local"@, "share"@],
        ),
        root_base_path_spec(RootType::WinAppDataRoaming, TargetOs::Linux, steam, user, app, env) == var_then(
            env,
            "HOME"@,
            seq![".config"@],
        ),
        root_base_path_spec(RootType::MacAppSupport, TargetOs::Linux, steam, user, app, env) == var_then(
            env,
            "HOME"@,
            seq![".config"@],
        ),
        root_base_path_spec(RootType::WinSavedGames, TargetOs::Linux, steam, user, app, env) == var_then(
            env,
            "HOME"@,
            seq!["Documents"@, "Saved Games"@],
        ),
        root_base_path_spec(RootType::WinProgramData, TargetOs::Linux, steam, user, app, env) == var_then(
            env,
            "HOME"@,
            seq![".local"@, "share"@],
        ),
        root_base_path_spec(RootType::SteamCloudDocuments, TargetOs::Linux, steam, user, app, env) == var_then(
            env,
            "HOME"@,
            seq![".SteamCloud"@],
        ),
        root_base_path_spec(RootType::WinAppDataLocalLow, TargetOs::Linux, steam, user, app, env) == var_then(
            env,
            "HOME"@,
            seq![".local"@, "share"@],
        ),
        root_base_path_spec(RootType::MacCaches, TargetOs::Linux, steam, user, app, env) == var_then(
            env,
            "HOME"@,
            seq![".cache"@],
        ),
        root_base_path_spec(RootType::LinuxXdgDataHome, TargetOs::Linux, steam, user, app, env) == var_or(
            env,
            "XDG_DATA_HOME"@,
            "HOME"@,
            seq![".local"@, "share"@],
        ),
        root_base_path_spec(RootType::LinuxXdgConfigHome, TargetOs::Linux, steam, user, app, env) == var_or(
            env,
            "XDG_CONFIG_HOME"@,
            "HOME"@,
            seq![".config"@],
        ),
        root_base_path_spec(RootType::MacHome, TargetOs::Linux, steam, user, app, env) == var_or(
            env,
            "HOME"@,
            "USERPROFILE"@,
            Seq::empty(),
        ),
        root_base_path_spec(RootType::LinuxHome, TargetOs::Linux, steam, user, app, env) == var_or(
            env,
            "HOME"@,
            "USERPROFILE"@,
            Seq::empty(),
        ),
        root_base_path_spec(RootType::WindowsHome, TargetOs::Linux, steam, user, app, env) == var_or(
            env,
            "HOME"@,
            "USERPROFILE"@,
            Seq::empty(),
        ),
{
    reveal_with_fuel(first_env_path, 3);
}

/// Roots without a base folder: the game install root, the user base storage
/// root and the Android package root, on every operating system.
pub proof fn lemma_roots_without_base_folder(
    os: TargetOs,
    steam: Seq<char>,
    user: Seq<char>,
    app: u32,
    env: Seq<(String, String)>,
)
    ensures
        root_base_path_spec(RootType::GameInstall, os, steam, user, app, env) == Err::<Seq<Seq<char>>, RootPathError>(
            RootPathError::GameInstall,
        ),
        root_base_path_spec(RootType::SteamUserBaseStorage, os, steam, user, app, env) == Err::<
            Seq<Seq<char>>,
            RootPathError,
        >(RootPathError::SteamUserBaseStorage),
        root_base_path_spec(RootType::AndroidSteamPackageRoot, os, steam, user, app, env) == Err::<
            Seq<Seq<char>>,
            RootPathError,
        >(RootPathError::AndroidSteamPackageRoot),
{
}

/// The value of a variable is that of its first entry in the environment
/// list, and a variable with no entry has no value.
pub proof fn lemma_env_value_first(env: Seq<(String, String)>, name: Seq<char>)
    ensures
        env_value(env, name) is None <==> forall|j: int| 0 <= j < env.len() ==> (#[trigger] env[j]).0@ != name,
        forall|i: int|
            0 <= i < env.len() && (#[trigger] env[i]).0@ == name && (forall|j: int|
                0 <= j < i ==> (#[trigger] env[j]).0@ != name) ==> env_value(env, name) == Some(env[i].1@),
    decreases env.len(),
{
    if env.len() > 0 {
        lemma_env_value_first(env.drop_first(), name);
        assert forall|j: int| 0 <= j < env.drop_first().len() implies env.drop_first()[j] == env[j + 1] by {}
        if env[0].0@ != name {
            assert forall|i: int|
                0 <= i < env.len() && (#[trigger] env[i]).0@ == name && (forall|j: int|
                    0 <= j < i ==> (#[trigger] env[j]).0@ != name) implies env_value(env, name) == Some(env[i].1@) by {
                assert(i > 0);
                assert(env.drop_first()[i - 1] == env[i]);
                assert forall|j: int| 0 <= j < i - 1 implies (#[trigger] env.drop_first()[j]).0@ != name by {
                    assert(env.drop_first()[j] == env[j + 1]);
                }
            }
            if env_value(env, name) is None {
                assert forall|j: int| 0 <= j < env.len() implies (#[trigger] env[j]).0@ != name by {
                    if j > 0 {
                        assert(env.drop_first()[j - 1] == env[j]);
                    }
                }
            }
            if forall|j: int| 0 <= j < env.len() ==> (#[trigger] env[j]).0@ != name {
                assert forall|j: int| 0 <= j < env.drop_first().len() implies (#[trigger] env.drop_first()[j]).0@ != name by {
                    assert(env.drop_first()[j] == env[j + 1]);
                }
            }
        }
    }
}

} // verus!
