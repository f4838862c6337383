//! Symbolic links between a game's Steam Cloud `remote` directory and a local
//! directory: their direction, where the link and its target are, their
//! stored form, and the commands that make them by hand. Paths are given as
//! their components, which the file system joins.
use vstd::prelude::*;
use vstd::string::*;

verus! {

/// Which side is the link.
#[derive(Debug, Clone, Copy, PartialEq, Eq, Structural)]
pub enum LinkDirection {
    /// The local directory is the source; the link is in `remote`, so Steam
    /// uploads the local files.
    RemoteToLocal,
    /// `remote` is the source; the link is the local directory, so the game
    /// reads the cloud files.
    LocalToRemote,
}

impl LinkDirection {
    /// What the direction means, as the link list shows it.
    pub fn description(&self) -> (r: &'static str)
        ensures
            r@ == (match *self {
                LinkDirection::RemoteToLocal => "本地目录(源) → remote(链接)"@,
                LinkDirection::LocalToRemote => "remote(源) → 本地目录(链接)"@,
            }),
    {
        match self {
            LinkDirection::RemoteToLocal => "本地目录(源) → remote(链接)",
            LinkDirection::LocalToRemote => "remote(源) → 本地目录(链接)",
        }
    }

    /// The stored spelling of the direction.
    pub fn to_config(&self) -> (r: &'static str)
        ensures
            r@ == direction_text(*self),
    {
        match self {
            LinkDirection::LocalToRemote => "local_to_remote",
            LinkDirection::RemoteToLocal => "remote_to_local",
        }
    }

    /// Reads the stored spelling: `local_to_remote`, anything else meaning
    /// the other direction.
    pub fn from_config(text: &str) -> (r: LinkDirection)
        ensures
            r == direction_of_text(text@),
    {
        if crate::text::str_eq(text, "local_to_remote") {
            LinkDirection::LocalToRemote
        } else {
            LinkDirection::RemoteToLocal
        }
    }
}

/// The stored spelling of a direction.
pub open spec fn direction_text(d: LinkDirection) -> Seq<char> {
    match d {
        LinkDirection::LocalToRemote => "local_to_remote"@,
        LinkDirection::RemoteToLocal => "remote_to_local"@,
    }
}

/// The direction a stored spelling stands for.
pub open spec fn direction_of_text(t: Seq<char>) -> LinkDirection {
    if t == "local_to_remote"@ {
        LinkDirection::LocalToRemote
    } else {
        LinkDirection::RemoteToLocal
    }
}

/// Reading back the stored spelling of a direction gives the direction.
pub proof fn lemma_direction_read_back(d: LinkDirection)
    ensures
        direction_of_text(direction_text(d)) == d,
{
    reveal_strlit("local_to_remote");
    reveal_strlit("remote_to_local");
    assert("remote_to_local"@[0] != "local_to_remote"@[0]);
}

/// The state of a link on disk.
#[derive(Debug, Clone, Copy, PartialEq, Eq, Structural)]
pub enum LinkStatus {
    /// The link exists and leads to its target.
    Valid,
    /// The link exists but its target does not, or it leads elsewhere.
    Broken,
    /// There is no link.
    NotExists,
    /// An ordinary file or directory stands where the link should be.
    Conflict,
}

impl LinkStatus {
    /// The icon of the state.
    pub fn icon(&self) -> (r: &'static str)
        ensures
            r@ == (match *self {
                LinkStatus::Valid => seq!['\u{E182}'],
                LinkStatus::Broken => seq!['\u{E4E0}'],
                LinkStatus::NotExists => seq!['\u{E4F6}'],
                LinkStatus::Conflict => seq!['\u{E4F8}'],
            }),
    {
        match self {
            LinkStatus::Valid => crate::icons::check(),
            LinkStatus::Broken => crate::icons::warning(),
            LinkStatus::NotExists => crate::icons::close(),
            LinkStatus::Conflict => crate::icons::error(),
        }
    }

    /// What the state means.
    pub fn description(&self) -> (r: &'static str)
        ensures
            r@ == (match *self {
                LinkStatus::Valid => "链接有效"@,
                LinkStatus::Broken => "链接断开"@,
                LinkStatus::NotExists => "未创建"@,
                LinkStatus::Conflict => "路径冲突"@,
            }),
    {
        match self {
            LinkStatus::Valid => "链接有效",
            LinkStatus::Broken => "链接断开",
            LinkStatus::NotExists => "未创建",
            LinkStatus::Conflict => "路径冲突",
        }
    }
}

/// A configured link of a game: its id, game, direction, local directory, the
/// subdirectory of `remote` it joins, the platform it was made on, when it was
/// made (seconds since the Unix epoch) and a note.
#[derive(Debug, Clone)]
pub struct SymlinkConfig {
    pub id: String,
    pub app_id: u32,
    pub direction: LinkDirection,
    pub local_path: String,
    pub remote_subfolder: String,
    pub platform: String,
    pub created_at: i64,
    pub note: String,
}

/// The stored form of a link (the direction spelled out).
#[derive(Debug, Clone, PartialEq, Eq)]
pub struct SymlinkConfigEntry {
    pub id: String,
    pub app_id: u32,
    pub direction: String,
    pub local_path: String,
    pub remote_subfolder: String,
    pub platform: String,
    pub created_at: i64,
    pub note: String,
}

/// `Uuid::new_v4().to_string()` of the `uuid` crate: a random id in its
/// hyphenated form, 36 characters; nothing else is claimed.
#[verifier::external_body]
fn new_uuid_text() -> (r: String)
    ensures
        r@.len() == 36,
{
    uuid::Uuid::new_v4().to_string()
}

/// `Utc::now().timestamp()` of the `chrono` crate: the current time in
/// seconds since the Unix epoch; nothing is claimed of its value.
#[verifier::external_body]
pub(crate) fn unix_now() -> (r: i64) {
    chrono::Utc::now().timestamp()
}

impl SymlinkConfig {
    /// A new link with a fresh random id, made now on platform `platform`,
    /// without a note.
    pub fn new(
        app_id: u32,
        direction: LinkDirection,
        local_path: String,
        remote_subfolder: String,
        platform: &str,
    ) -> (r: Self)
        ensures
            r.id@.len() == 36,
            r.app_id == app_id,
            r.direction == direction,
            r.local_path == local_path,
            r.remote_subfolder == remote_subfolder,
            r.platform@ == platform@,
            r.note@.len() == 0,
    {
        let id = new_uuid_text();
        let created_at = unix_now();
        Self::with_identity(id, app_id, direction, local_path, remote_subfolder, platform, created_at)
    }

    /// A link with the given id and creation time, without a note.
    pub fn with_identity(
        id: String,
        app_id: u32,
        direction: LinkDirection,
        local_path: String,
        remote_subfolder: String,
        platform: &str,
        created_at: i64,
    ) -> (r: Self)
        ensures
            r.id == id,
            r.app_id == app_id,
            r.direction == direction,
            r.local_path == local_path,
            r.remote_subfolder == remote_subfolder,
            r.platform@ == platform@,
            r.created_at == created_at,
            r.note@.len() == 0,
    {
        SymlinkConfig {
            id,
            app_id,
            direction,
            local_path,
            remote_subfolder,
            platform: String::from_str(platform),
            created_at,
            note: String::new(),
        }
    }

    /// Where the link itself is: the subdirectory of `remote` for a link in
    /// `remote`, else the local directory.
    pub fn get_link_path(&self, remote_dir: &[String]) -> (r: Vec<String>)
        ensures
            crate::config::strings_view(r@) == link_path_parts(
                self.direction,
                crate::config::strings_view(remote_dir@),
                self.local_path@,
                self.remote_subfolder@,
            ),
    {
        match self.direction {
            LinkDirection::RemoteToLocal => {
                let mut v = crate::appinfo_writer::copy_strings(remote_dir);
                v.push(self.remote_subfolder.clone());
                assert(crate::config::strings_view(v@) =~= crate::config::strings_view(remote_dir@).push(
                    self.remote_subfolder@,
                ));
                v
            },
            LinkDirection::LocalToRemote => {
                let mut v: Vec<String> = Vec::new();
                v.push(self.local_path.clone());
                assert(crate::config::strings_view(v@) =~= seq![self.local_path@]);
                v
            },
        }
    }

    /// Where the link leads: the local directory for a link in `remote`, else
    /// the subdirectory of `remote`.
    pub fn get_target_path(&self, remote_dir: &[String]) -> (r: Vec<String>)
        ensures
            crate::config::strings_view(r@) == target_path_parts(
                self.direction,
                crate::config::strings_view(remote_dir@),
                self.local_path@,
                self.remote_subfolder@,
            ),
    {
        match self.direction {
            LinkDirection::LocalToRemote => {
                let mut v = crate::appinfo_writer::copy_strings(remote_dir);
                v.push(self.remote_subfolder.clone());
                assert(crate::config::strings_view(v@) =~= crate::config::strings_view(remote_dir@).push(
                    self.remote_subfolder@,
                ));
                v
            },
            LinkDirection::RemoteToLocal => {
                let mut v: Vec<String> = Vec::new();
                v.push(self.local_path.clone());
                assert(crate::config::strings_view(v@) =~= seq![self.local_path@]);
                v
            },
        }
    }

    /// The stored form of the link.
    pub fn to_entry(self) -> (r: SymlinkConfigEntry)
        ensures
            r.id == self.id,
            r.app_id == self.app_id,
            r.direction@ == direction_text(self.direction),
            r.local_path == self.local_path,
            r.remote_subfolder == self.remote_subfolder,
            r.platform == self.platform,
            r.created_at == self.created_at,
            r.note == self.note,
    {
        SymlinkConfigEntry {
            id: self.id,
            app_id: self.app_id,
            direction: String::from_str(self.direction.to_config()),
            local_path: self.local_path,
            remote_subfolder: self.remote_subfolder,
            platform: self.platform,
            created_at: self.created_at,
            note: self.note,
        }
    }

    /// The link a stored form describes.
    pub fn from_entry(entry: SymlinkConfigEntry) -> (r: SymlinkConfig)
        ensures
            r.id == entry.id,
            r.app_id == entry.app_id,
            r.direction == direction_of_text(entry.direction@),
            r.local_path == entry.local_path,
            r.remote_subfolder == entry.remote_subfolder,
            r.platform == entry.platform,
            r.created_at == entry.created_at,
            r.note == entry.note,
    {
        let direction = LinkDirection::from_config(entry.direction.as_str());
        SymlinkConfig {
            id: entry.id,
            app_id: entry.app_id,
            direction,
            local_path: entry.local_path,
            remote_subfolder: entry.remote_subfolder,
            platform: entry.platform,
            created_at: entry.created_at,
            note: entry.note,
        }
    }
}

/// Where a link is, as path components.
pub open spec fn link_path_parts(
    d: LinkDirection,
    remote_dir: Seq<Seq<char>>,
    local_path: Seq<char>,
    sub: Seq<char>,
) -> Seq<Seq<char>> {
    match d {
        LinkDirection::RemoteToLocal => remote_dir.push(sub),
        LinkDirection::LocalToRemote => seq![local_path],
    }
}

/// Where a link leads, as path components.
pub open spec fn target_path_parts(
    d: LinkDirection,
    remote_dir: Seq<Seq<char>>,
    local_path: Seq<char>,
    sub: Seq<char>,
) -> Seq<Seq<char>> {
    match d {
        LinkDirection::RemoteToLocal => seq![local_path],
        LinkDirection::LocalToRemote => remote_dir.push(sub),
    }
}

/// A link joins the same two places in either direction: the link of one
/// direction is the target of the other.
pub proof fn lemma_directions_swap_ends(
    remote_dir: Seq<Seq<char>>,
    local_path: Seq<char>,
    sub: Seq<char>,
)
    ensures
        link_path_parts(LinkDirection::RemoteToLocal, remote_dir, local_path, sub) == target_path_parts(
            LinkDirection::LocalToRemote,
            remote_dir,
            local_path,
            sub,
        ),
        link_path_parts(LinkDirection::LocalToRemote, remote_dir, local_path, sub) == target_path_parts(
            LinkDirection::RemoteToLocal,
            remote_dir,
            local_path,
            sub,
        ),
{
}

proof fn lemma_filter_step<A>(s: Seq<A>, p: spec_fn(A) -> bool, x: A)
    ensures
        s.push(x).filter(p) == (if p(x) {
            s.filter(p).push(x)
        } else {
            s.filter(p)
        }),
{
    reveal(Seq::filter);
    assert(s.push(x).drop_last() =~= s);
}

/// Makes and lists the links of one Steam user.
pub struct SymlinkManager {
    pub steam_path: String,
    pub user_id: String,
}

impl SymlinkManager {
    /// A manager for user `user_id` of the Steam installation at `steam_path`.
    pub fn new(steam_path: String, user_id: String) -> (r: Self)
        ensures
            r.steam_path == steam_path,
            r.user_id == user_id,
    {
        SymlinkManager { steam_path, user_id }
    }

    /// The `remote` directory of game `app_id`:
    /// `<steam>/userdata/<user>/<app id>/remote`.
    pub fn get_remote_dir(&self, app_id: u32) -> (r: Vec<String>)
        ensures
            crate::config::strings_view(r@) == seq![
                self.steam_path@,
                "userdata"@,
                self.user_id@,
                crate::text::decimal(app_id as nat),
                "remote"@,
            ],
    {
        let mut v: Vec<String> = Vec::new();
        v.push(self.steam_path.clone());
        v.push(String::from_str("userdata"));
        v.push(self.user_id.clone());
        v.push(crate::text::u64_text(app_id as u64));
        v.push(String::from_str("remote"));
        assert(crate::config::strings_view(v@) =~= seq![
            self.steam_path@,
            "userdata"@,
            self.user_id@,
            crate::text::decimal(app_id as nat),
            "remote"@,
        ]);
        v
    }

    /// Stores a link.
    pub fn add_config(&self, store: &mut Vec<SymlinkConfigEntry>, config: SymlinkConfig)
        ensures
            final(store)@.len() == old(store)@.len() + 1,
            final(store)@.subrange(0, old(store)@.len() as int) == old(store)@,
            final(store)@.last().id == config.id,
            final(store)@.last().app_id == config.app_id,
            final(store)@.last().direction@ == direction_text(config.direction),
    {
        let e = config.to_entry();
        store.push(e);
        assert(store@.subrange(0, old(store)@.len() as int) =~= old(store)@);
    }

    /// Removes the stored links with id `id`, keeping the others in order.
    pub fn remove_config(&self, store: &mut Vec<SymlinkConfigEntry>, id: &str)
        ensures
            final(store)@ == old(store)@.filter(|e: SymlinkConfigEntry| e.id@ != id@),
    {
        let mut kept: Vec<SymlinkConfigEntry> = Vec::new();
        let n = store.len();
        let mut i: usize = 0;
        while i < n
            invariant
                n == old(store)@.len(),
                store@ == old(store)@,
                i <= n,
                kept@ == old(store)@.take(i as int).filter(|e: SymlinkConfigEntry| e.id@ != id@),
            decreases n - i,
        {
            let e = &store[i];
            proof {
                assert(old(store)@.take(i + 1).drop_last() =~= old(store)@.take(i as int));
                lemma_filter_step(
                    old(store)@.take(i as int),
                    |e: SymlinkConfigEntry| e.id@ != id@,
                    old(store)@[i as int],
                );
                assert(old(store)@.take(i as int).push(old(store)@[i as int]) =~= old(store)@.take(i + 1));
            }
            if !crate::text::str_eq(e.id.as_str(), id) {
                let c = SymlinkConfigEntry {
                    id: e.id.clone(),
                    app_id: e.app_id,
                    direction: e.direction.clone(),
                    local_path: e.local_path.clone(),
                    remote_subfolder: e.remote_subfolder.clone(),
                    platform: e.platform.clone(),
                    created_at: e.created_at,
                    note: e.note.clone(),
                };
                kept.push(c);
            }
            i = i + 1;
        }
        assert(old(store)@.take(n as int) =~= old(store)@);
        *store = kept;
    }

    /// The stored links of game `app_id`, in order.
    pub fn get_configs_for_app(&self, store: &[SymlinkConfigEntry], app_id: u32) -> (r: Vec<SymlinkConfig>)
        ensures
            r@.len() == store@.filter(|e: SymlinkConfigEntry| e.app_id == app_id).len(),
            forall|k: int|
                0 <= k < r@.len() ==> {
                    let e = store@.filter(|e: SymlinkConfigEntry| e.app_id == app_id)[k];
                    &&& (#[trigger] r@[k]).id == e.id
                    &&& r@[k].app_id == app_id
                    &&& r@[k].direction == direction_of_text(e.direction@)
                    &&& r@[k].local_path == e.local_path
                    &&& r@[k].remote_subfolder == e.remote_subfolder
                },
    {
        let ghost f = |e: SymlinkConfigEntry| e.app_id == app_id;
        let mut out: Vec<SymlinkConfig> = Vec::new();
        let n = store.len();
        let mut i: usize = 0;
        while i < n
            invariant
                n == store@.len(),
                i <= n,
                f == (|e: SymlinkConfigEntry| e.app_id == app_id),
                out@.len() == store@.take(i as int).filter(f).len(),
                forall|k: int|
                    0 <= k < out@.len() ==> {
                        let e = store@.take(i as int).filter(f)[k];
                        &&& (#[trigger] out@[k]).id == e.id
                        &&& out@[k].app_id == app_id
                        &&& out@[k].direction == direction_of_text(e.direction@)
                        &&& out@[k].local_path == e.local_path
                        &&& out@[k].remote_subfolder == e.remote_subfolder
                    },
            decreases n - i,
        {
            proof {
                lemma_filter_step(store@.take(i as int), f, store@[i as int]);
                assert(store@.take(i as int).push(store@[i as int]) =~= store@.take(i + 1));
            }
            let e = &store[i];
            if e.app_id == app_id {
                let entry = SymlinkConfigEntry {
                    id: e.id.clone(),
                    app_id: e.app_id,
                    direction: e.direction.clone(),
                    local_path: e.local_path.clone(),
                    remote_subfolder: e.remote_subfolder.clone(),
                    platform: e.platform.clone(),
                    created_at: e.created_at,
                    note: e.note.clone(),
                };
                out.push(SymlinkConfig::from_entry(entry));
            }
            i = i + 1;
        }
        assert(store@.take(n as int) =~= store@);
        out
    }
}

/// The cloud name of a file found below a link's directory: its relative path
/// behind the link's prefix, the two joined by `/`; the prefix alone for an
/// empty relative path, the relative path alone for an empty prefix.
pub open spec fn cloud_path_of(prefix: Seq<char>, relative: Seq<char>) -> Seq<char> {
    if prefix.len() == 0 {
        relative
    } else if relative.len() == 0 {
        prefix
    } else {
        prefix + "/"@ + relative
    }
}

/// The cloud name of a file found below a link's directory; backslashes of
/// the relative path become slashes first.
pub fn cloud_path_for(prefix: &str, relative: &str) -> (r: String)
    ensures
        r@ == cloud_path_of(prefix@, crate::text::replace_all(relative@, seq!['\\'], seq!['/'])),
{
    proof {
        reveal_strlit("\\");
        reveal_strlit("/");
    }
    let rel = crate::text::replace_text(relative, "\\", "/");
    assert("\\"@ =~= seq!['\\']);
    assert("/"@ =~= seq!['/']);
    if prefix.unicode_len() == 0 {
        rel
    } else if rel.as_str().unicode_len() == 0 {
        String::from_str(prefix)
    } else {
        let mut s = String::from_str(prefix);
        s.append("/");
        s.append(rel.as_str());
        s
    }
}

/// The commands that make and remove a link by hand on a platform (`macos`,
/// `linux` or `windows`), with `target` and `link` as written paths.
pub open spec fn symlink_commands(target: Seq<char>, link: Seq<char>, platform: Seq<char>) -> Seq<Seq<char>> {
    let q = |s: Seq<char>| seq!['"'] + s + seq!['"'];
    if platform == "macos"@ {
        seq![
            "# macOS 创建软链接"@,
            "ln -s "@ + q(target) + " "@ + q(link),
            Seq::empty(),
            "# 删除软链接"@,
            "rm "@ + q(link),
        ]
    } else if platform == "linux"@ {
        seq![
            "# Linux 创建软链接"@,
            "ln -s "@ + q(target) + " "@ + q(link),
            Seq::empty(),
            "# 删除软链接"@,
            "rm "@ + q(link),
        ]
    } else if platform == "windows"@ {
        seq![
            "# Windows PowerShell (需要管理员权限)"@,
            "New-Item -ItemType SymbolicLink -Path "@ + q(link) + " -Target "@ + q(target),
            Seq::empty(),
            "# Windows CMD (需要管理员权限)"@,
            "mklink /D "@ + q(link) + " "@ + q(target),
            Seq::empty(),
            "# Windows Junction (无需管理员权限，仅目录)"@,
            "mklink /J "@ + q(link) + " "@ + q(target),
            Seq::empty(),
            "# 删除软链接"@,
            "rmdir "@ + q(link),
        ]
    } else {
        seq!["# 不支持的平台"@]
    }
}

/// `"s"`.
fn quoted_text(out: &mut String, s: &str)
    ensures
        final(out)@ == old(out)@ + seq!['"'] + s@ + seq!['"'],
{
    crate::text::push_char(out, '"');
    out.append(s);
    crate::text::push_char(out, '"');
}

/// `a` followed by `"x"`, then `b` followed by `"y"`.
fn command_line(a: &str, x: &str, b: &str, y: &str) -> (r: String)
    ensures
        r@ == a@ + (seq!['"'] + x@ + seq!['"']) + b@ + (seq!['"'] + y@ + seq!['"']),
{
    let mut s = String::from_str(a);
    quoted_text(&mut s, x);
    s.append(b);
    quoted_text(&mut s, y);
    assert(s@ =~= a@ + (seq!['"'] + x@ + seq!['"']) + b@ + (seq!['"'] + y@ + seq!['"']));
    s
}

/// The commands that make and remove a link by hand (see [`symlink_commands`]).
pub fn generate_symlink_commands(target: &str, link: &str, platform: &str) -> (r: Vec<String>)
    ensures
        crate::config::strings_view(r@) == symlink_commands(target@, link@, platform@),
{
    let mut v: Vec<String> = Vec::new();
    if crate::text::str_eq(platform, "macos") || crate::text::str_eq(platform, "linux") {
        let is_mac = crate::text::str_eq(platform, "macos");
        v.push(String::from_str(if is_mac { "# macOS 创建软链接" } else { "# Linux 创建软链接" }));
        v.push(command_line("ln -s ", target, " ", link));
        v.push(String::new());
        v.push(String::from_str("# 删除软链接"));
        let mut rm = String::from_str("rm ");
        quoted_text(&mut rm, link);
        v.push(rm);
    } else if crate::text::str_eq(platform, "windows") {
        v.push(String::from_str("# Windows PowerShell (需要管理员权限)"));
        v.push(command_line("New-Item -ItemType SymbolicLink -Path ", link, " -Target ", target));
        v.push(String::new());
        v.push(String::from_str("# Windows CMD (需要管理员权限)"));
        v.push(command_line("mklink /D ", link, " ", target));
        v.push(String::new());
        v.push(String::from_str("# Windows Junction (无需管理员权限，仅目录)"));
        v.push(command_line("mklink /J ", link, " ", target));
        v.push(String::new());
        v.push(String::from_str("# 删除软链接"));
        let mut rm = String::from_str("rmdir ");
        quoted_text(&mut rm, link);
        v.push(rm);
    } else {
        v.push(String::from_str("# 不支持的平台"));
    }
    assert(crate::config::strings_view(v@) =~~= symlink_commands(target@, link@, platform@));
    v
}

/// A game's `remote` directory, where links are made, is the base folder of
/// the default root on every operating system and whatever the environment.
pub proof fn lemma_remote_dir_is_default_root(
    m: SymlinkManager,
    app_id: u32,
    os: crate::root_paths::TargetOs,
    env: Seq<(String, String)>,
)
    ensures
        crate::root_paths::root_base_path_spec(
            crate::path_resolver::RootType::DefaultApi,
            os,
            m.steam_path@,
            m.user_id@,
            app_id,
            env,
        ) == Ok::<Seq<Seq<char>>, crate::root_paths::RootPathError>(
            seq![m.steam_path@, "userdata"@, m.user_id@, crate::text::decimal(app_id as nat), "remote"@],
        ),
{
}

} // verus!
