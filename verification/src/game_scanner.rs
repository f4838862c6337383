//! The games of a Steam user that have cloud files: reading Steam's text files
//! (app manifests, library folders, local and shared configuration), putting
//! together what is known of each game, merging what the Steam store reports,
//! and ordering the list.
use vstd::prelude::*;
use vstd::string::*;
use vstd::multiset::Multiset;
use std::collections::HashMap;

verus! {

/// A game with cloud files.
#[derive(Debug, Clone)]
pub struct CloudGameInfo {
    pub app_id: u32,
    pub file_count: usize,
    pub total_size: u64,
    pub last_played: Option<i64>,
    pub playtime: Option<u32>,
    pub game_name: Option<String>,
    pub is_installed: bool,
    pub install_dir: Option<String>,
    pub categories: Vec<String>,
}

/// What the user's local configuration records of a game.
#[derive(Debug, Clone)]
pub struct GameConfig {
    pub app_id: u32,
    pub last_played: Option<i64>,
    pub playtime: Option<u32>,
    pub launch_options: Option<String>,
}

/// How the user filed a game: its tags, and whether it is a favourite or hidden.
#[derive(Debug, Clone)]
pub struct GameCategory {
    pub app_id: u32,
    pub tags: Vec<String>,
    pub is_favorite: bool,
    pub is_hidden: bool,
}

/// What an installed game's manifest records.
#[derive(Debug, Clone)]
pub struct AppManifest {
    pub app_id: u32,
    pub name: String,
    pub install_dir: String,
    pub size_on_disk: Option<u64>,
}

/// The merged game list and how many games Steam's files and the store reported.
pub struct ScanResult {
    pub games: Vec<CloudGameInfo>,
    pub vdf_count: usize,
    pub cdp_count: usize,
}

/// The fourth piece between double quotes of a line (`"key"  "value"` gives
/// `value`), if there is one.
pub open spec fn quoted_value(line: Seq<char>) -> Option<Seq<char>> {
    let pieces = crate::text::split_on(line, '"');
    if pieces.len() > 3 {
        Some(pieces[3])
    } else {
        None
    }
}

/// The fourth piece between double quotes of a line.
pub fn quoted_value_of(line: &str) -> (r: Option<String>)
    ensures
        crate::path_resolver::opt_string_view(r) == quoted_value(line@),
{
    let v = crate::text::str_chars(line);
    let pieces = crate::text::split_chars(v.as_slice(), '"');
    if pieces.len() > 3 {
        Some(crate::text::seq_string(pieces[3].as_slice()))
    } else {
        None
    }
}

/// The lines of a text, each trimmed.
pub open spec fn trimmed_text_lines(content: Seq<char>) -> Seq<Seq<char>> {
    crate::text::text_lines(content).map_values(|l: Seq<char>| crate::text::trim(l))
}

/// The lines of a text, each trimmed.
pub fn trimmed_lines(content: &str) -> (r: Vec<String>)
    ensures
        crate::config::strings_view(r@) == trimmed_text_lines(content@),
{
    let v = crate::text::str_chars(content);
    let lines = crate::text::lines_of(v.as_slice());
    let ghost ls = crate::text::text_lines(content@);
    let mut out: Vec<String> = Vec::new();
    let mut i: usize = 0;
    while i < lines.len()
        invariant
            ls == crate::text::text_lines(content@),
            lines@.len() == ls.len(),
            forall|k: int| 0 <= k < lines@.len() ==> (#[trigger] lines@[k])@ == ls[k],
            i <= lines@.len(),
            out@.len() == i,
            forall|k: int| 0 <= k < i ==> (#[trigger] out@[k])@ == crate::text::trim(ls[k]),
        decreases lines.len() - i,
    {
        let t = crate::text::trim_chars(lines[i].as_slice());
        out.push(crate::text::seq_string(t.as_slice()));
        i = i + 1;
    }
    assert(crate::config::strings_view(out@) =~= trimmed_text_lines(content@));
    out
}

// ---------------------------------------------------------------------------
// App manifests
// ---------------------------------------------------------------------------

/// What has been read of a manifest so far: app id, name, install directory,
/// size on disk.
pub type ManifestFields = (Option<u32>, Option<Seq<char>>, Option<Seq<char>>, Option<u64>);

/// One trimmed manifest line read: a line starting with `"appid"`, `"name"`,
/// `"installdir"` or `"SizeOnDisk"` sets that field from its value when it has
/// one (a number that does not read leaves the field unset).
pub open spec fn manifest_step(st: ManifestFields, t: Seq<char>) -> ManifestFields {
    if crate::text::starts_with(t, "\"appid\""@) {
        match quoted_value(t) {
            Some(v) => (match crate::text::parse_unsigned(v, u32::MAX as int) {
                Some(x) => Some(x as u32),
                None => None,
            }, st.1, st.2, st.3),
            None => st,
        }
    } else if crate::text::starts_with(t, "\"name\""@) {
        match quoted_value(t) {
            Some(v) => (st.0, Some(v), st.2, st.3),
            None => st,
        }
    } else if crate::text::starts_with(t, "\"installdir\""@) {
        match quoted_value(t) {
            Some(v) => (st.0, st.1, Some(v), st.3),
            None => st,
        }
    } else if crate::text::starts_with(t, "\"SizeOnDisk\""@) {
        match quoted_value(t) {
            Some(v) => (st.0, st.1, st.2, match crate::text::parse_unsigned(v, u64::MAX as int) {
                Some(x) => Some(x as u64),
                None => None,
            }),
            None => st,
        }
    } else {
        st
    }
}

/// The fields read from the trimmed lines `k..`.
pub open spec fn manifest_fold(lines: Seq<Seq<char>>, k: int, st: ManifestFields) -> ManifestFields
    decreases lines.len() - k,
{
    if k < 0 || k >= lines.len() {
        st
    } else {
        manifest_fold(lines, k + 1, manifest_step(st, lines[k]))
    }
}

/// The manifest a text records: app id, name and install directory must all
/// be read; the size on disk is optional.
pub open spec fn manifest_of(content: Seq<char>) -> Option<(u32, Seq<char>, Seq<char>, Option<u64>)> {
    let lines = trimmed_text_lines(content);
    match manifest_fold(lines, 0, (None, None, None, None)) {
        (Some(id), Some(n), Some(d), size) => Some((id, n, d, size)),
        _ => None,
    }
}

/// A manifest line starts with at most one of the keys `"appid"`, `"name"`
/// and `"installdir"`.
proof fn lemma_manifest_keys_differ(t: Seq<char>)
    ensures
        crate::text::starts_with(t, "\"name\""@) ==> !crate::text::starts_with(t, "\"appid\""@),
        crate::text::starts_with(t, "\"installdir\""@) ==> !crate::text::starts_with(t, "\"appid\""@)
            && !crate::text::starts_with(t, "\"name\""@),
        crate::text::starts_with(t, "\"SizeOnDisk\""@) ==> !crate::text::starts_with(t, "\"appid\""@)
            && !crate::text::starts_with(t, "\"name\""@) && !crate::text::starts_with(t, "\"installdir\""@),
{
    reveal_strlit("\"name\"");
    reveal_strlit("\"appid\"");
    reveal_strlit("\"installdir\"");
    reveal_strlit("\"SizeOnDisk\"");
    if crate::text::starts_with(t, "\"SizeOnDisk\""@) {
        assert(t[1] == t.subrange(0, 12)[1]);
    }
    if crate::text::starts_with(t, "\"name\""@) {
        assert(t[1] == t.subrange(0, 6)[1]);
    }
    if crate::text::starts_with(t, "\"installdir\""@) {
        assert(t[1] == t.subrange(0, 12)[1]);
    }
    if crate::text::starts_with(t, "\"appid\""@) {
        assert(t[1] == t.subrange(0, 7)[1]);
    }
}

/// Reading the lines `k..` of a manifest whose only `"name"` line is line `i`
/// (with a value) ends with that value as the name, given that it is already
/// the name once line `i` has been read.
proof fn lemma_fold_name(lines: Seq<Seq<char>>, k: int, st: ManifestFields, i: int)
    requires
        0 <= k <= lines.len(),
        0 <= i < lines.len(),
        crate::text::starts_with(lines[i], "\"name\""@),
        quoted_value(lines[i]) is Some,
        forall|j: int| 0 <= j < lines.len() && j != i ==> !crate::text::starts_with(#[trigger] lines[j], "\"name\""@),
        k > i ==> st.1 == quoted_value(lines[i]),
    ensures
        manifest_fold(lines, k, st).1 == quoted_value(lines[i]),
    decreases lines.len() - k,
{
    if k < lines.len() {
        lemma_manifest_keys_differ(lines[k]);
        lemma_fold_name(lines, k + 1, manifest_step(st, lines[k]), i);
    }
}

/// Reading the lines `k..` of a manifest whose only `"installdir"` line is
/// line `i` (with a value) ends with that value as the install directory,
/// given that it is already so once line `i` has been read.
proof fn lemma_fold_install_dir(lines: Seq<Seq<char>>, k: int, st: ManifestFields, i: int)
    requires
        0 <= k <= lines.len(),
        0 <= i < lines.len(),
        crate::text::starts_with(lines[i], "\"installdir\""@),
        quoted_value(lines[i]) is Some,
        forall|j: int|
            0 <= j < lines.len() && j != i ==> !crate::text::starts_with(#[trigger] lines[j], "\"installdir\""@),
        k > i ==> st.2 == quoted_value(lines[i]),
    ensures
        manifest_fold(lines, k, st).2 == quoted_value(lines[i]),
    decreases lines.len() - k,
{
    if k < lines.len() {
        lemma_manifest_keys_differ(lines[k]);
        lemma_fold_install_dir(lines, k + 1, manifest_step(st, lines[k]), i);
    }
}

/// Reading the lines `k..` of a manifest whose only `"appid"` line is line
/// `i` ends with the number its value reads as (none when it does not read),
/// given that it is already so once line `i` has been read.
proof fn lemma_fold_app_id(lines: Seq<Seq<char>>, k: int, st: ManifestFields, i: int, id: Option<u32>)
    requires
        0 <= k <= lines.len(),
        0 <= i < lines.len(),
        crate::text::starts_with(lines[i], "\"appid\""@),
        quoted_value(lines[i]) matches Some(v) && id == (match crate::text::parse_unsigned(v, u32::MAX as int) {
            Some(x) => Some(x as u32),
            None => None,
        }),
        forall|j: int| 0 <= j < lines.len() && j != i ==> !crate::text::starts_with(#[trigger] lines[j], "\"appid\""@),
        k > i ==> st.0 == id,
    ensures
        manifest_fold(lines, k, st).0 == id,
    decreases lines.len() - k,
{
    if k < lines.len() {
        lemma_fold_app_id(lines, k + 1, manifest_step(st, lines[k]), i, id);
    }
}

/// Reading the lines `k..` of a manifest whose only `"SizeOnDisk"` line is
/// line `i` ends with the number its value reads as (none when it does not
/// read), given that it is already so once line `i` has been read.
proof fn lemma_fold_size(lines: Seq<Seq<char>>, k: int, st: ManifestFields, i: int, size: Option<u64>)
    requires
        0 <= k <= lines.len(),
        0 <= i < lines.len(),
        crate::text::starts_with(lines[i], "\"SizeOnDisk\""@),
        quoted_value(lines[i]) matches Some(v) && size == (match crate::text::parse_unsigned(v, u64::MAX as int) {
            Some(x) => Some(x as u64),
            None => None,
        }),
        forall|j: int|
            0 <= j < lines.len() && j != i ==> !crate::text::starts_with(#[trigger] lines[j], "\"SizeOnDisk\""@),
        k > i ==> st.3 == size,
    ensures
        manifest_fold(lines, k, st).3 == size,
    decreases lines.len() - k,
{
    if k < lines.len() {
        lemma_manifest_keys_differ(lines[k]);
        lemma_fold_size(lines, k + 1, manifest_step(st, lines[k]), i, size);
    }
}

/// The size on disk that a manifest records is the number the value of its
/// one `"SizeOnDisk"` line reads as, or none when that value does not read.
pub proof fn lemma_manifest_size(content: Seq<char>, z: int)
    requires
        0 <= z < trimmed_text_lines(content).len(),
        crate::text::starts_with(trimmed_text_lines(content)[z], "\"SizeOnDisk\""@),
        quoted_value(trimmed_text_lines(content)[z]) is Some,
        forall|j: int|
            0 <= j < trimmed_text_lines(content).len() && j != z ==> !crate::text::starts_with(
                #[trigger] trimmed_text_lines(content)[j],
                "\"SizeOnDisk\""@,
            ),
    ensures
        manifest_of(content) matches Some((_, _, _, size)) ==> size == (match crate::text::parse_unsigned(
            quoted_value(trimmed_text_lines(content)[z]).unwrap(),
            u64::MAX as int,
        ) {
            Some(x) => Some(x as u64),
            None => None,
        }),
{
    let lines = trimmed_text_lines(content);
    let v = quoted_value(lines[z]).unwrap();
    let size = match crate::text::parse_unsigned(v, u64::MAX as int) {
        Some(x) => Some(x as u64),
        None => None,
    };
    lemma_fold_size(lines, 0, (None, None, None, None), z, size);
}

/// An app manifest whose trimmed lines hold one `"name"` line, one
/// `"installdir"` line and one `"appid"` line, each with a value, records the
/// name and install directory those lines give, and the app id that the
/// `"appid"` value reads as; it is read exactly when that value reads as a
/// 32-bit number.
pub proof fn lemma_manifest_fields(content: Seq<char>, a: int, n: int, d: int)
    requires
        0 <= a < trimmed_text_lines(content).len(),
        0 <= n < trimmed_text_lines(content).len(),
        0 <= d < trimmed_text_lines(content).len(),
        crate::text::starts_with(trimmed_text_lines(content)[a], "\"appid\""@),
        crate::text::starts_with(trimmed_text_lines(content)[n], "\"name\""@),
        crate::text::starts_with(trimmed_text_lines(content)[d], "\"installdir\""@),
        quoted_value(trimmed_text_lines(content)[a]) is Some,
        quoted_value(trimmed_text_lines(content)[n]) is Some,
        quoted_value(trimmed_text_lines(content)[d]) is Some,
        forall|j: int|
            0 <= j < trimmed_text_lines(content).len() && j != a ==> !crate::text::starts_with(
                #[trigger] trimmed_text_lines(content)[j],
                "\"appid\""@,
            ),
        forall|j: int|
            0 <= j < trimmed_text_lines(content).len() && j != n ==> !crate::text::starts_with(
                #[trigger] trimmed_text_lines(content)[j],
                "\"name\""@,
            ),
        forall|j: int|
            0 <= j < trimmed_text_lines(content).len() && j != d ==> !crate::text::starts_with(
                #[trigger] trimmed_text_lines(content)[j],
                "\"installdir\""@,
            ),
    ensures
        ({
            let v = quoted_value(trimmed_text_lines(content)[a]).unwrap();
            match crate::text::parse_unsigned(v, u32::MAX as int) {
                Some(x) => manifest_of(content) matches Some((id, name, dir, _)) && id == x as u32
                    && Some(name) == quoted_value(trimmed_text_lines(content)[n])
                    && Some(dir) == quoted_value(trimmed_text_lines(content)[d]),
                None => manifest_of(content) is None,
            }
        }),
{
    let lines = trimmed_text_lines(content);
    let init: ManifestFields = (None, None, None, None);
    let v = quoted_value(lines[a]).unwrap();
    let id = match crate::text::parse_unsigned(v, u32::MAX as int) {
        Some(x) => Some(x as u32),
        None => None,
    };
    lemma_fold_name(lines, 0, init, n);
    lemma_fold_install_dir(lines, 0, init, d);
    lemma_fold_app_id(lines, 0, init, a, id);
}

/// Reads an app manifest (`appmanifest_<id>.acf`); `None` when its app id,
/// name or install directory is missing.
pub fn parse_app_manifest(content: &str) -> (r: Option<AppManifest>)
    ensures
        match manifest_of(content@) {
            Some((id, n, d, size)) => r matches Some(m) && m.app_id == id && m.name@ == n
                && m.install_dir@ == d && m.size_on_disk == size,
            None => r is None,
        },
{
    let lines = trimmed_lines(content);
    let ghost ls = trimmed_text_lines(content@);
    let mut app_id: Option<u32> = None;
    let mut name: Option<String> = None;
    let mut install_dir: Option<String> = None;
    let mut size_on_disk: Option<u64> = None;
    let mut i: usize = 0;
    while i < lines.len()
        invariant
            crate::config::strings_view(lines@) == ls,
            i <= lines@.len(),
            manifest_fold(ls, 0, (None, None, None, None)) == manifest_fold(
                ls,
                i as int,
                (
                    app_id,
                    crate::path_resolver::opt_string_view(name),
                    crate::path_resolver::opt_string_view(install_dir),
                    size_on_disk,
                ),
            ),
        decreases lines.len() - i,
    {
        let t = lines[i].as_str();
        assert(ls[i as int] == t@);
        if crate::text::str_starts_with(t, "\"appid\"") {
            match quoted_value_of(t) {
                Some(v) => {
                    app_id = crate::text::parse_u32(v.as_str());
                },
                None => {},
            }
        } else if crate::text::str_starts_with(t, "\"name\"") {
            match quoted_value_of(t) {
                Some(v) => {
                    name = Some(v);
                },
                None => {},
            }
        } else if crate::text::str_starts_with(t, "\"installdir\"") {
            match quoted_value_of(t) {
                Some(v) => {
                    install_dir = Some(v);
                },
                None => {},
            }
        } else if crate::text::str_starts_with(t, "\"SizeOnDisk\"") {
            match quoted_value_of(t) {
                Some(v) => {
                    size_on_disk = crate::text::parse_u64(v.as_str());
                },
                None => {},
            }
        }
        i = i + 1;
    }
    match (app_id, name, install_dir) {
        (Some(app_id), Some(name), Some(install_dir)) => Some(AppManifest { app_id, name, install_dir, size_on_disk }),
        _ => None,
    }
}

/// The library directories that `libraryfolders.vdf` lists: the values of
/// the lines holding `"path"`, in order.
pub open spec fn library_paths_from(lines: Seq<Seq<char>>) -> Seq<Seq<char>>
    decreases lines.len(),
{
    if lines.len() == 0 {
        Seq::empty()
    } else {
        library_paths_from(lines.drop_last()) + (if crate::text::contains_text(lines.last(), "\"path\""@) {
            match quoted_value(lines.last()) {
                Some(p) => seq![p],
                None => Seq::<Seq<char>>::empty(),
            }
        } else {
            Seq::<Seq<char>>::empty()
        })
    }
}

/// The library directories that a `libraryfolders.vdf` text lists (see
/// [`library_paths_from`]).
pub fn library_paths(content: &str) -> (r: Vec<String>)
    ensures
        crate::config::strings_view(r@) == library_paths_from(crate::text::text_lines(content@)),
{
    let v = crate::text::str_chars(content);
    let lines = crate::text::lines_of(v.as_slice());
    let ghost ls = crate::text::text_lines(content@);
    let mut out: Vec<String> = Vec::new();
    let mut i: usize = 0;
    assert(ls.take(0) =~= Seq::<Seq<char>>::empty());
    while i < lines.len()
        invariant
            ls == crate::text::text_lines(content@),
            lines@.len() == ls.len(),
            forall|k: int| 0 <= k < lines@.len() ==> (#[trigger] lines@[k])@ == ls[k],
            i <= lines@.len(),
            crate::config::strings_view(out@) == library_paths_from(ls.take(i as int)),
        decreases lines.len() - i,
    {
        let line = crate::text::seq_string(lines[i].as_slice());
        assert(ls.take(i + 1).drop_last() =~= ls.take(i as int));
        assert(ls.take(i + 1).last() == line@);
        let ghost before = crate::config::strings_view(out@);
        if crate::text::str_contains(line.as_str(), "\"path\"") {
            match quoted_value_of(line.as_str()) {
                Some(p) => {
                    out.push(p);
                    assert(crate::config::strings_view(out@) =~= before.push(
                        quoted_value(line@).unwrap(),
                    ));
                },
                None => {},
            }
        }
        assert(crate::config::strings_view(out@) =~= library_paths_from(ls.take(i + 1)));
        i = i + 1;
    }
    assert(ls.take(ls.len() as int) =~= ls);
    out
}

// ---------------------------------------------------------------------------
// Local configuration
// ---------------------------------------------------------------------------

/// What has been read of a game's local configuration: last played, play
/// time, launch options.
pub type ConfigFields = (Option<i64>, Option<u32>, Option<Seq<char>>);

/// The game's fields read from the trimmed lines `k..`, `in_app` telling
/// whether its section has begun: the section begins after the line starting
/// with the quoted app id and ends at the first `}` line inside it. A value
/// that does not read leaves its field unset.
pub open spec fn config_fold(lines: Seq<Seq<char>>, k: int, header: Seq<char>, in_app: bool, st: ConfigFields) -> ConfigFields
    decreases lines.len() - k,
{
    if k < 0 || k >= lines.len() {
        st
    } else {
        let t = lines[k];
        if crate::text::starts_with(t, header) {
            config_fold(lines, k + 1, header, true, st)
        } else if !in_app {
            config_fold(lines, k + 1, header, in_app, st)
        } else if t == "}"@ {
            st
        } else {
            let next = if crate::text::starts_with(t, "\"LastPlayed\""@) {
                match quoted_value(t) {
                    Some(v) => (match crate::text::parse_signed(v, i64::MIN as int, i64::MAX as int) {
                        Some(x) => Some(x as i64),
                        None => None,
                    }, st.1, st.2),
                    None => st,
                }
            } else if crate::text::starts_with(t, "\"Playtime\""@) {
                match quoted_value(t) {
                    Some(v) => (st.0, match crate::text::parse_unsigned(v, u32::MAX as int) {
                        Some(x) => Some(x as u32),
                        None => None,
                    }, st.2),
                    None => st,
                }
            } else if crate::text::starts_with(t, "\"LaunchOptions\""@) {
                match quoted_value(t) {
                    Some(v) => (st.0, st.1, Some(v)),
                    None => st,
                }
            } else {
                st
            };
            config_fold(lines, k + 1, header, in_app, next)
        }
    }
}

/// `"<app id>"`: the line that opens a game's section.
pub open spec fn app_header(app_id: u32) -> Seq<char> {
    seq!['"'] + crate::text::decimal(app_id as nat) + seq!['"']
}

/// Reads game `app_id`'s entry of the user's `localconfig.vdf` (see
/// [`config_fold`]).
pub fn parse_game_config(content: &str, app_id: u32) -> (r: GameConfig)
    ensures
        r.app_id == app_id,
        (r.last_played, r.playtime, crate::path_resolver::opt_string_view(r.launch_options))
            == config_fold(
            trimmed_text_lines(content@),
            0,
            app_header(app_id),
            false,
            (None, None, None),
        ),
{
    let lines = trimmed_lines(content);
    let ghost ls = trimmed_text_lines(content@);
    let mut header = String::new();
    crate::text::push_char(&mut header, '"');
    crate::text::append_decimal(&mut header, app_id as u64);
    crate::text::push_char(&mut header, '"');
    assert(header@ =~= app_header(app_id));
    let mut in_app = false;
    let mut last_played: Option<i64> = None;
    let mut playtime: Option<u32> = None;
    let mut launch_options: Option<String> = None;
    let mut i: usize = 0;
    while i < lines.len()
        invariant
            crate::config::strings_view(lines@) == ls,
            ls == trimmed_text_lines(content@),
            header@ == app_header(app_id),
            i <= lines@.len(),
            config_fold(ls, 0, header@, false, (None, None, None)) == config_fold(
                ls,
                i as int,
                header@,
                in_app,
                (last_played, playtime, crate::path_resolver::opt_string_view(launch_options)),
            ),
        decreases lines.len() - i,
    {
        let t = lines[i].as_str();
        assert(ls[i as int] == t@);
        if crate::text::str_starts_with(t, header.as_str()) {
            in_app = true;
        } else if in_app {
            if crate::text::str_eq(t, "}") {
                assert(!crate::text::starts_with(ls[i as int], header@));
                assert(ls[i as int] == "}"@);
                assert(config_fold(ls, i as int, header@, in_app, (last_played, playtime, crate::path_resolver::opt_string_view(launch_options)))
                    == (last_played, playtime, crate::path_resolver::opt_string_view(launch_options)));
                return GameConfig { app_id, last_played, playtime, launch_options };
            }
            if crate::text::str_starts_with(t, "\"LastPlayed\"") {
                match quoted_value_of(t) {
                    Some(v) => {
                        last_played = crate::text::parse_i64(v.as_str());
                    },
                    None => {},
                }
            } else if crate::text::str_starts_with(t, "\"Playtime\"") {
                match quoted_value_of(t) {
                    Some(v) => {
                        playtime = crate::text::parse_u32(v.as_str());
                    },
                    None => {},
                }
            } else if crate::text::str_starts_with(t, "\"LaunchOptions\"") {
                match quoted_value_of(t) {
                    Some(v) => {
                        launch_options = Some(v);
                    },
                    None => {},
                }
            }
        }
        i = i + 1;
    }
    GameConfig { app_id, last_played, playtime, launch_options }
}


// ---------------------------------------------------------------------------
// Shared configuration (categories)
// ---------------------------------------------------------------------------

/// A game's filing: tags, favourite, hidden.
pub type CategoryModel = (Seq<Seq<char>>, bool, bool);

/// The state of reading `sharedconfig.vdf`: the games filed so far, the game
/// being read, its tags, favourite and hidden marks, and whether its tags are
/// being read.
pub type SharedState = (Map<u32, CategoryModel>, Option<u32>, Seq<Seq<char>>, bool, bool, bool);

/// The app id a trimmed line names, when it is a quoted number on its own.
pub open spec fn app_id_line(t: Seq<char>) -> Option<u32> {
    if t.len() > 0 && t[0] == '"' && t.last() == '"' {
        match crate::text::parse_unsigned(crate::text::trim_char(t, '"'), u32::MAX as int) {
            Some(x) => Some(x as u32),
            None => None,
        }
    } else {
        None
    }
}

/// The filing of the game being read, stored.
pub open spec fn shared_flush(st: SharedState) -> Map<u32, CategoryModel> {
    match st.1 {
        Some(id) => st.0.insert(id, (st.2, st.3, st.4)),
        None => st.0,
    }
}

/// One trimmed line read. A quoted app id on its own stores the game being
/// read and starts a new one. Then: `"tags"` starts its tags; inside them a
/// quoted line adds its value as a tag; `"favorite"` and `"hidden"` lines set
/// the marks (on when they hold `"1"`); a `}` ends the tags.
pub open spec fn shared_step(st: SharedState, t: Seq<char>) -> SharedState {
    let s1: SharedState = match app_id_line(t) {
        Some(id) => (shared_flush(st), Some(id), Seq::empty(), false, false, false),
        None => st,
    };
    let s2: SharedState = if crate::text::starts_with(t, "\"tags\""@) {
        (s1.0, s1.1, s1.2, s1.3, s1.4, true)
    } else if s1.5 && t.len() > 0 && t[0] == '"' {
        match quoted_value(t) {
            Some(tag) => (s1.0, s1.1, s1.2.push(tag), s1.3, s1.4, s1.5),
            None => s1,
        }
    } else if crate::text::starts_with(t, "\"favorite\""@) {
        (s1.0, s1.1, s1.2, crate::text::contains_text(t, "\"1\""@), s1.4, s1.5)
    } else if crate::text::starts_with(t, "\"hidden\""@) {
        (s1.0, s1.1, s1.2, s1.3, crate::text::contains_text(t, "\"1\""@), s1.5)
    } else {
        s1
    };
    if t == "}"@ && s2.5 {
        (s2.0, s2.1, s2.2, s2.3, s2.4, false)
    } else {
        s2
    }
}

/// The state after reading the trimmed lines `k..`.
pub open spec fn shared_fold(lines: Seq<Seq<char>>, k: int, st: SharedState) -> SharedState
    decreases lines.len() - k,
{
    if k < 0 || k >= lines.len() {
        st
    } else {
        shared_fold(lines, k + 1, shared_step(st, lines[k]))
    }
}

/// The games a `sharedconfig.vdf` text files, by app id.
pub open spec fn shared_categories(content: Seq<char>) -> Map<u32, CategoryModel> {
    shared_flush(shared_fold(trimmed_text_lines(content), 0, (Map::empty(), None, Seq::empty(), false, false, false)))
}

/// The filing a category holds.
pub open spec fn category_view(c: GameCategory) -> CategoryModel {
    (crate::config::strings_view(c.tags@), c.is_favorite, c.is_hidden)
}

/// Whether a category map holds, under each app id, that game's filing.
pub open spec fn categories_match(r: Map<u32, GameCategory>, m: Map<u32, CategoryModel>) -> bool {
    &&& r.dom() == m.dom()
    &&& forall|k: u32| #[trigger] r.contains_key(k) ==> r[k].app_id == k && category_view(r[k]) == m[k]
}

/// Stores the filing of the game being read.
fn store_category(
    map: &mut HashMap<u32, GameCategory>,
    current: Option<u32>,
    tags: &Vec<String>,
    is_favorite: bool,
    is_hidden: bool,
    Ghost(model): Ghost<Map<u32, CategoryModel>>,
) -> (r: Ghost<Map<u32, CategoryModel>>)
    requires
        categories_match(old(map)@, model),
    ensures
        r@ == shared_flush((model, current, crate::config::strings_view(tags@), is_favorite, is_hidden, false)),
        categories_match(final(map)@, r@),
{
    broadcast use vstd::std_specs::hash::group_hash_axioms;
    match current {
        Some(id) => {
            let t = crate::appinfo_writer::copy_strings(tags.as_slice());
            map.insert(id, GameCategory { app_id: id, tags: t, is_favorite, is_hidden });
            let ghost m2 = model.insert(id, (crate::config::strings_view(tags@), is_favorite, is_hidden));
            assert(map@.dom() =~= m2.dom());
            Ghost(m2)
        },
        None => Ghost(model),
    }
}

/// Reads the games filed in a user's `sharedconfig.vdf` (see [`shared_step`]).
pub fn parse_shared_config(content: &str) -> (r: HashMap<u32, GameCategory>)
    ensures
        categories_match(r@, shared_categories(content@)),
{
    broadcast use vstd::std_specs::hash::group_hash_axioms;
    let lines = trimmed_lines(content);
    let ghost ls = trimmed_text_lines(content@);
    let mut map: HashMap<u32, GameCategory> = HashMap::new();
    let mut current: Option<u32> = None;
    let mut tags: Vec<String> = Vec::new();
    let mut is_favorite = false;
    let mut is_hidden = false;
    let mut in_tags = false;
    let ghost mut model: Map<u32, CategoryModel> = Map::empty();
    assert(map@.dom() =~= model.dom());
    assert(crate::config::strings_view(tags@) =~= Seq::<Seq<char>>::empty());
    let mut i: usize = 0;
    while i < lines.len()
        invariant
            crate::config::strings_view(lines@) == ls,
            ls == trimmed_text_lines(content@),
            i <= lines@.len(),
            categories_match(map@, model),
            shared_fold(ls, 0, (Map::empty(), None, Seq::empty(), false, false, false)) == shared_fold(
                ls,
                i as int,
                (model, current, crate::config::strings_view(tags@), is_favorite, is_hidden, in_tags),
            ),
        decreases lines.len() - i,
    {
        let t = lines[i].as_str();
        assert(ls[i as int] == t@);
        let n = t.unicode_len();
        let quoted_line = n > 0 && t.get_char(0) == '"' && t.get_char(n - 1) == '"';
        let id = if quoted_line {
            crate::text::parse_u32(crate::text::trim_matches_char(t, '"'))
        } else {
            None
        };
        assert(id == app_id_line(t@));
        match id {
            Some(id) => {
                let g = store_category(&mut map, current, &tags, is_favorite, is_hidden, Ghost(model));
                proof {
                    model = g@;
                }
                current = Some(id);
                tags = Vec::new();
                is_favorite = false;
                is_hidden = false;
                in_tags = false;
                assert(crate::config::strings_view(tags@) =~= Seq::<Seq<char>>::empty());
            },
            None => {},
        }
        if crate::text::str_starts_with(t, "\"tags\"") {
            in_tags = true;
        } else if in_tags && n > 0 && t.get_char(0) == '"' {
            match quoted_value_of(t) {
                Some(tag) => {
                    let ghost before = crate::config::strings_view(tags@);
                    tags.push(tag);
                    assert(crate::config::strings_view(tags@) =~= before.push(quoted_value(t@).unwrap()));
                },
                None => {},
            }
        } else if crate::text::str_starts_with(t, "\"favorite\"") {
            is_favorite = crate::text::str_contains(t, "\"1\"");
        } else if crate::text::str_starts_with(t, "\"hidden\"") {
            is_hidden = crate::text::str_contains(t, "\"1\"");
        }
        if crate::text::str_eq(t, "}") && in_tags {
            in_tags = false;
        }
        i = i + 1;
    }
    let g = store_category(&mut map, current, &tags, is_favorite, is_hidden, Ghost(model));
    map
}


// ---------------------------------------------------------------------------
// The game list
// ---------------------------------------------------------------------------

/// What is known of a game with cloud files: its files (count and size), its
/// local configuration, its manifest when installed, its filing, and its name
/// from `appinfo.vdf`. The manifest's name comes first.
pub fn cloud_game_info(
    app_id: u32,
    file_count: usize,
    total_size: u64,
    config: Option<&GameConfig>,
    manifest: Option<&AppManifest>,
    category: Option<&GameCategory>,
    appinfo_name: Option<&str>,
) -> (r: CloudGameInfo)
    ensures
        r.app_id == app_id,
        r.file_count == file_count,
        r.total_size == total_size,
        r.last_played == (match config { Some(c) => c.last_played, None => None }),
        r.playtime == (match config { Some(c) => c.playtime, None => None }),
        crate::path_resolver::opt_string_view(r.game_name) == (match manifest {
            Some(m) => Some(m.name@),
            None => match appinfo_name { Some(n) => Some(n@), None => None },
        }),
        r.is_installed == (manifest is Some),
        crate::path_resolver::opt_string_view(r.install_dir) == (match manifest {
            Some(m) => Some(m.install_dir@),
            None => None,
        }),
        crate::config::strings_view(r.categories@) == (match category {
            Some(c) => crate::config::strings_view(c.tags@),
            None => Seq::empty(),
        }),
{
    let game_name = match manifest {
        Some(m) => Some(m.name.clone()),
        None => match appinfo_name {
            Some(n) => Some(String::from_str(n)),
            None => None,
        },
    };
    let categories = match category {
        Some(c) => crate::appinfo_writer::copy_strings(c.tags.as_slice()),
        None => {
            let v: Vec<String> = Vec::new();
            assert(crate::config::strings_view(v@) =~= Seq::<Seq<char>>::empty());
            v
        },
    };
    CloudGameInfo {
        app_id,
        file_count,
        total_size,
        last_played: match config { Some(c) => c.last_played, None => None },
        playtime: match config { Some(c) => c.playtime, None => None },
        game_name,
        is_installed: manifest.is_some(),
        install_dir: match manifest { Some(m) => Some(m.install_dir.clone()), None => None },
        categories,
    }
}

/// The position in `t` at or after `k` of the first element that `x` goes
/// strictly before, or the length of `t`.
pub open spec fn first_after(
    t: Seq<CloudGameInfo>,
    x: CloudGameInfo,
    lt: spec_fn(CloudGameInfo, CloudGameInfo) -> bool,
    k: int,
) -> int
    decreases t.len() - k,
{
    if k < 0 || k >= t.len() {
        t.len() as int
    } else if lt(x, t[k]) {
        k
    } else {
        first_after(t, x, lt, k + 1)
    }
}

/// The elements of `rest` inserted one by one, in order, into the ordered `t`:
/// each goes just before the first element it goes strictly before, so that
/// elements that tie keep their order (a stable sort).
pub open spec fn sort_fold(
    t: Seq<CloudGameInfo>,
    rest: Seq<CloudGameInfo>,
    lt: spec_fn(CloudGameInfo, CloudGameInfo) -> bool,
) -> Seq<CloudGameInfo>
    decreases rest.len(),
{
    if rest.len() == 0 {
        t
    } else {
        sort_fold(t.insert(first_after(t, rest[0], lt, 0), rest[0]), rest.drop_first(), lt)
    }
}

/// Ordering by last play, most recent first (an unknown time counts as 0).
pub open spec fn played_before() -> spec_fn(CloudGameInfo, CloudGameInfo) -> bool {
    |a: CloudGameInfo, b: CloudGameInfo| played_key(a) > played_key(b)
}

/// The last-play time a game is ordered by.
pub open spec fn played_key(g: CloudGameInfo) -> int {
    match g.last_played {
        Some(t) => t as int,
        None => 0,
    }
}

/// The last-play time a game is ordered by.
fn played_key_of(g: &CloudGameInfo) -> (r: i64)
    ensures
        r as int == played_key(*g),
{
    match g.last_played {
        Some(t) => t,
        None => 0,
    }
}

/// The games ordered by last play, most recent first; ties keep their order.
pub fn sort_by_last_played(games: Vec<CloudGameInfo>) -> (r: Vec<CloudGameInfo>)
    ensures
        r@ == sort_fold(Seq::empty(), games@, played_before()),
{
    let ghost orig = games@;
    let mut rest = games;
    let mut out: Vec<CloudGameInfo> = Vec::new();
    while rest.len() > 0
        invariant
            sort_fold(out@, rest@, played_before()) == sort_fold(Seq::empty(), orig, played_before()),
        decreases rest@.len(),
    {
        let ghost r0 = rest@;
        let x = rest.remove(0);
        assert(r0.drop_first() =~= rest@);
        let kx = played_key_of(&x);
        let mut p: usize = 0;
        while p < out.len() && !(kx > played_key_of(&out[p]))
            invariant
                p <= out@.len(),
                kx == played_key(x),
                first_after(out@, x, played_before(), 0) == first_after(out@, x, played_before(), p as int),
            decreases out@.len() - p,
        {
            p = p + 1;
        }
        out.insert(p, x);
    }
    out
}

/// The position of the last occurrence of `id` in `order`.
pub open spec fn order_pos(order: Seq<u32>, id: u32) -> Option<int>
    decreases order.len(),
{
    if order.len() == 0 {
        None
    } else if order.last() == id {
        Some(order.len() - 1)
    } else {
        order_pos(order.drop_last(), id)
    }
}

/// Lexicographic comparison of texts by character: -1, 0 or 1 (as `str::cmp`
/// orders them; UTF-8 keeps the order of characters).
pub open spec fn text_order(a: Seq<char>, b: Seq<char>) -> int
    decreases a.len(),
{
    if a.len() == 0 && b.len() == 0 {
        0
    } else if a.len() == 0 {
        -1
    } else if b.len() == 0 {
        1
    } else if a[0] < b[0] {
        -1
    } else if a[0] > b[0] {
        1
    } else {
        text_order(a.drop_first(), b.drop_first())
    }
}

/// The name a game is ordered by (empty when unknown).
pub open spec fn name_key(g: CloudGameInfo) -> Seq<char> {
    match g.game_name {
        Some(n) => n@,
        None => Seq::empty(),
    }
}

/// The order of the merged game list: installed games first; then the games
/// the store listed, in its order, before the others; the others by name, and
/// by app id when neither has a name. -1, 0 or 1.
pub open spec fn game_order(a: CloudGameInfo, b: CloudGameInfo, order: Seq<u32>) -> int {
    if a.is_installed != b.is_installed {
        if a.is_installed { -1 } else { 1 }
    } else {
        match (order_pos(order, a.app_id), order_pos(order, b.app_id)) {
            (Some(ia), Some(ib)) => if ia < ib { -1 } else if ia > ib { 1 } else { 0 },
            (Some(_), None) => -1,
            (None, Some(_)) => 1,
            (None, None) => {
                let na = name_key(a);
                let nb = name_key(b);
                if na.len() == 0 && nb.len() == 0 {
                    if a.app_id < b.app_id { -1 } else if a.app_id > b.app_id { 1 } else { 0 }
                } else {
                    text_order(na, nb)
                }
            },
        }
    }
}

/// Strictly before, in the order of the merged game list.
pub open spec fn game_before(order: Seq<u32>) -> spec_fn(CloudGameInfo, CloudGameInfo) -> bool {
    |a: CloudGameInfo, b: CloudGameInfo| game_order(a, b, order) < 0
}

/// Compares texts character by character (see [`text_order`]).
pub fn compare_text(a: &str, b: &str) -> (r: i8)
    ensures
        r as int == text_order(a@, b@),
{
    let va = crate::text::str_chars(a);
    let vb = crate::text::str_chars(b);
    let mut i: usize = 0;
    assert(a@.skip(0) =~= a@);
    assert(b@.skip(0) =~= b@);
    while i < va.len() && i < vb.len()
        invariant
            va@ == a@,
            vb@ == b@,
            i <= va@.len(),
            i <= vb@.len(),
            text_order(a@, b@) == text_order(a@.skip(i as int), b@.skip(i as int)),
        decreases va@.len() - i,
    {
        assert(a@.skip(i as int)[0] == va[i as int]);
        assert(b@.skip(i as int)[0] == vb[i as int]);
        if va[i] < vb[i] {
            return -1;
        }
        if va[i] > vb[i] {
            return 1;
        }
        assert(a@.skip(i as int).drop_first() =~= a@.skip(i + 1));
        assert(b@.skip(i as int).drop_first() =~= b@.skip(i + 1));
        i = i + 1;
    }
    if i == va.len() && i == vb.len() {
        assert(a@.skip(i as int).len() == 0);
        0
    } else if i == va.len() {
        -1
    } else {
        1
    }
}

/// The position of the last occurrence of `id` in `order`.
fn order_position(order: &[u32], id: u32) -> (r: Option<usize>)
    ensures
        match r {
            Some(x) => order_pos(order@, id) == Some(x as int),
            None => order_pos(order@, id) is None,
        },
{
    let mut k = order.len();
    assert(order@.take(k as int) =~= order@);
    while k > 0
        invariant
            k <= order@.len(),
            order_pos(order@, id) == order_pos(order@.take(k as int), id),
        decreases k,
    {
        assert(order@.take(k as int).drop_last() =~= order@.take(k - 1));
        if order[k - 1] == id {
            return Some(k - 1);
        }
        k = k - 1;
    }
    None
}

/// Compares two games in the order of the merged game list (see [`game_order`]).
pub fn compare_games(a: &CloudGameInfo, b: &CloudGameInfo, order: &[u32]) -> (r: i8)
    ensures
        r as int == game_order(*a, *b, order@),
{
    if a.is_installed != b.is_installed {
        return if a.is_installed { -1 } else { 1 };
    }
    match (order_position(order, a.app_id), order_position(order, b.app_id)) {
        (Some(ia), Some(ib)) => if ia < ib { -1 } else if ia > ib { 1 } else { 0 },
        (Some(_), None) => -1,
        (None, Some(_)) => 1,
        (None, None) => {
            let na: &str = match &a.game_name { Some(n) => n.as_str(), None => "" };
            let nb: &str = match &b.game_name { Some(n) => n.as_str(), None => "" };
            proof {
                reveal_strlit("");
            }
            assert(na@ == name_key(*a));
            assert(nb@ == name_key(*b));
            if na.unicode_len() == 0 && nb.unicode_len() == 0 {
                if a.app_id < b.app_id { -1 } else if a.app_id > b.app_id { 1 } else { 0 }
            } else {
                compare_text(na, nb)
            }
        },
    }
}

/// The games in the order of the merged game list (see [`game_order`]); ties
/// keep their order.
pub fn sort_games(games: Vec<CloudGameInfo>, order: &[u32]) -> (r: Vec<CloudGameInfo>)
    ensures
        r@ == sort_fold(Seq::empty(), games@, game_before(order@)),
{
    let ghost orig = games@;
    let mut rest = games;
    let mut out: Vec<CloudGameInfo> = Vec::new();
    while rest.len() > 0
        invariant
            sort_fold(out@, rest@, game_before(order@)) == sort_fold(Seq::empty(), orig, game_before(order@)),
        decreases rest@.len(),
    {
        let ghost r0 = rest@;
        let x = rest.remove(0);
        assert(r0.drop_first() =~= rest@);
        let mut p: usize = 0;
        while p < out.len() && !(compare_games(&x, &out[p], order) < 0)
            invariant
                p <= out@.len(),
                first_after(out@, x, game_before(order@), 0) == first_after(out@, x, game_before(order@), p as int),
            decreases out@.len() - p,
        {
            p = p + 1;
        }
        out.insert(p, x);
    }
    out
}

/// Whether a game's name counts as unknown: none, or empty.
pub open spec fn name_missing(g: CloudGameInfo) -> bool {
    match g.game_name {
        Some(n) => n@.len() == 0,
        None => true,
    }
}

/// The position of the last game with app id `id` among the first `n`.
pub open spec fn last_game_with(games: Seq<CloudGameInfo>, id: u32, n: int) -> Option<int>
    decreases n,
{
    if n <= 0 || n > games.len() {
        None
    } else if games[n - 1].app_id == id {
        Some(n - 1)
    } else {
        last_game_with(games, id, n - 1)
    }
}

/// The game list after the store's games from `k` on are merged in: a game of
/// the original list (the first `n0`; the last with that app id) takes the
/// store's file count and size, and its name when it has none; other games
/// are added at the end.
pub open spec fn merge_games_from(games: Seq<CloudGameInfo>, n0: int, cdp: Seq<CloudGameInfo>, k: int) -> Seq<CloudGameInfo>
    decreases cdp.len() - k,
{
    if k < 0 || k >= cdp.len() {
        games
    } else {
        let c = cdp[k];
        let next = match last_game_with(games, c.app_id, n0) {
            Some(i) => {
                let g = games[i];
                games.update(i, CloudGameInfo {
                    file_count: c.file_count,
                    total_size: c.total_size,
                    game_name: if c.game_name is Some && name_missing(g) { c.game_name } else { g.game_name },
                    ..g
                })
            },
            None => games.push(c),
        };
        merge_games_from(next, n0, cdp, k + 1)
    }
}

proof fn lemma_last_game_bounds(games: Seq<CloudGameInfo>, id: u32, n: int)
    ensures
        last_game_with(games, id, n) matches Some(i) ==> 0 <= i < n && i < games.len()
            && games[i].app_id == id,
    decreases n,
{
    if n > 0 && n <= games.len() && games[n - 1].app_id != id {
        lemma_last_game_bounds(games, id, n - 1);
    }
}

/// Merges the games the Steam store lists into the game list (see
/// [`merge_games_from`]); also returns the store's app ids in its order.
pub fn merge_cdp_games(games: Vec<CloudGameInfo>, cdp_games: Vec<CloudGameInfo>) -> (r: (Vec<CloudGameInfo>, Vec<u32>))
    ensures
        r.0@ == merge_games_from(games@, games@.len() as int, cdp_games@, 0),
        r.1@ == cdp_games@.map_values(|c: CloudGameInfo| c.app_id),
{
    let n0 = games.len();
    let ghost orig = games@;
    let ghost cdp = cdp_games@;
    let mut out = games;
    let mut rest = cdp_games;
    let mut order: Vec<u32> = Vec::new();
    let ghost mut k: int = 0;
    while rest.len() > 0
        invariant
            n0 == orig.len(),
            n0 <= out@.len(),
            0 <= k,
            k + rest@.len() == cdp.len(),
            rest@ == cdp.skip(k),
            forall|j: int| 0 <= j < n0 ==> (#[trigger] out@[j]).app_id == orig[j].app_id,
            merge_games_from(out@, n0 as int, cdp, k) == merge_games_from(orig, n0 as int, cdp, 0),
            order@ == cdp.take(k).map_values(|c: CloudGameInfo| c.app_id),
        decreases rest@.len(),
    {
        let ghost r0 = rest@;
        let c = rest.remove(0);
        assert(c == cdp[k]);
        assert(rest@ =~= cdp.skip(k + 1));
        order.push(c.app_id);
        assert(cdp.take(k + 1).map_values(|c: CloudGameInfo| c.app_id) =~= cdp.take(k).map_values(
            |c: CloudGameInfo| c.app_id,
        ).push(c.app_id));
        let mut idx = n0;
        let mut found = false;
        while idx > 0 && !found
            invariant
                idx <= n0 <= out@.len(),
                !found ==> last_game_with(out@, c.app_id, n0 as int) == last_game_with(out@, c.app_id, idx as int),
                found ==> last_game_with(out@, c.app_id, n0 as int) == Some(idx as int) && idx < n0,
            decreases idx + (if found { 0int } else { 1int }),
        {
            if out[idx - 1].app_id == c.app_id {
                idx = idx - 1;
                found = true;
            } else {
                idx = idx - 1;
            }
        }
        proof {
            lemma_last_game_bounds(out@, c.app_id, n0 as int);
        }
        let ghost before = out@;
        let ghost cg = c;
        if found {
            let mut g = out.remove(idx);
            let ghost g0 = g;
            let missing = match &g.game_name {
                Some(n) => n.as_str().unicode_len() == 0,
                None => true,
            };
            assert(missing == name_missing(g0));
            g.file_count = c.file_count;
            g.total_size = c.total_size;
            if c.game_name.is_some() && missing {
                g.game_name = c.game_name;
            }
            assert(g == CloudGameInfo {
                file_count: cg.file_count,
                total_size: cg.total_size,
                game_name: if cg.game_name is Some && name_missing(g0) { cg.game_name } else { g0.game_name },
                ..g0
            });
            out.insert(idx, g);
            assert(out@ =~= before.update(idx as int, g));
        } else {
            out.push(c);
        }
        proof {
            k = k + 1;
        }
    }
    assert(cdp.take(k) =~= cdp);
    (out, order)
}

/// The games of a Steam user with cloud files, merged with what the store
/// lists (`None` when the store was not reachable) and put in order (see
/// [`game_order`]), with how many games each source gave.
pub fn fetch_and_merge_games(games: Vec<CloudGameInfo>, cdp_games: Option<Vec<CloudGameInfo>>) -> (r: ScanResult)
    ensures
        r.vdf_count == games@.len(),
        r.cdp_count == (match cdp_games { Some(c) => c@.len(), None => 0 }),
        r.games@ == (match cdp_games {
            Some(c) => sort_fold(
                Seq::empty(),
                merge_games_from(games@, games@.len() as int, c@, 0),
                game_before(c@.map_values(|g: CloudGameInfo| g.app_id)),
            ),
            None => sort_fold(Seq::empty(), games@, game_before(Seq::empty())),
        }),
{
    let vdf_count = games.len();
    match cdp_games {
        Some(c) => {
            let cdp_count = c.len();
            let (merged, order) = merge_cdp_games(games, c);
            let sorted = sort_games(merged, order.as_slice());
            ScanResult { games: sorted, vdf_count, cdp_count }
        },
        None => {
            let order: Vec<u32> = Vec::new();
            assert(order@ =~= Seq::<u32>::empty());
            let sorted = sort_games(games, order.as_slice());
            ScanResult { games: sorted, vdf_count, cdp_count: 0 }
        },
    }
}

/// Comparing the other way round gives the opposite answer.
pub proof fn lemma_text_order_flip(a: Seq<char>, b: Seq<char>)
    ensures
        text_order(a, b) == -text_order(b, a),
    decreases a.len(),
{
    if a.len() > 0 && b.len() > 0 && a[0] == b[0] {
        lemma_text_order_flip(a.drop_first(), b.drop_first());
    }
}

/// Comparing texts orders them transitively.
pub proof fn lemma_text_order_trans(a: Seq<char>, b: Seq<char>, c: Seq<char>)
    requires
        text_order(a, b) < 0,
        text_order(b, c) < 0,
    ensures
        text_order(a, c) < 0,
    decreases a.len(),
{
    if a.len() > 0 && b.len() > 0 && c.len() > 0 && a[0] == b[0] && b[0] == c[0] {
        lemma_text_order_trans(a.drop_first(), b.drop_first(), c.drop_first());
    }
}


/// Whether games are in the order of `lt`: none goes strictly before one
/// ahead of it.
pub open spec fn ordered_by(s: Seq<CloudGameInfo>, lt: spec_fn(CloudGameInfo, CloudGameInfo) -> bool) -> bool {
    forall|i: int, j: int| 0 <= i < j < s.len() ==> !lt(#[trigger] s[j], #[trigger] s[i])
}

/// Whether `lt` is a strict order: asymmetric and transitive.
pub open spec fn strict_order(lt: spec_fn(CloudGameInfo, CloudGameInfo) -> bool) -> bool {
    &&& forall|a: CloudGameInfo, b: CloudGameInfo| #[trigger] lt(a, b) ==> !lt(b, a)
    &&& forall|a: CloudGameInfo, b: CloudGameInfo, c: CloudGameInfo|
        #[trigger] lt(a, b) && #[trigger] lt(b, c) ==> lt(a, c)
}

proof fn lemma_first_after(
    t: Seq<CloudGameInfo>,
    x: CloudGameInfo,
    lt: spec_fn(CloudGameInfo, CloudGameInfo) -> bool,
    k: int,
)
    requires
        0 <= k <= t.len(),
    ensures
        k <= first_after(t, x, lt, k) <= t.len(),
        forall|q: int| k <= q < first_after(t, x, lt, k) ==> !lt(x, #[trigger] t[q]),
        first_after(t, x, lt, k) < t.len() ==> lt(x, t[first_after(t, x, lt, k)]),
    decreases t.len() - k,
{
    if k < t.len() && !lt(x, t[k]) {
        lemma_first_after(t, x, lt, k + 1);
    }
}

proof fn lemma_insert_ordered(t: Seq<CloudGameInfo>, x: CloudGameInfo, lt: spec_fn(CloudGameInfo, CloudGameInfo) -> bool)
    requires
        ordered_by(t, lt),
        strict_order(lt),
    ensures
        ordered_by(t.insert(first_after(t, x, lt, 0), x), lt),
        t.insert(first_after(t, x, lt, 0), x).to_multiset() =~= t.to_multiset().insert(x),
{
    broadcast use vstd::seq_lib::group_to_multiset_ensures;
    lemma_first_after(t, x, lt, 0);
    let p = first_after(t, x, lt, 0);
    let s = t.insert(p, x);
    assert forall|i: int, j: int| 0 <= i < j < s.len() implies !lt(#[trigger] s[j], #[trigger] s[i]) by {
        if j < p {
            assert(s[i] == t[i] && s[j] == t[j]);
        } else if j == p {
            assert(s[i] == t[i]);
        } else if i > p {
            assert(s[i] == t[i - 1] && s[j] == t[j - 1]);
        } else if i == p {
            assert(s[j] == t[j - 1]);
            let m = j - 1;
            if lt(t[m], x) {
                assert(lt(x, t[p]));
                assert(lt(t[m], t[p]));
                if m == p {
                    assert(!lt(x, t[m]));
                } else {
                    assert(!lt(t[m], t[p]));
                }
            }
        } else {
            assert(s[i] == t[i] && s[j] == t[j - 1]);
        }
    }
    assert(s.remove(p) =~= t);
    assert(s[p] == x);
    assert(s.contains(x));
    assert forall|v: CloudGameInfo| #[trigger] s.to_multiset().count(v) == t.to_multiset().insert(x).count(v) by {
        assert(s.remove(p).to_multiset() =~= s.to_multiset().remove(s[p]));
    }
}

proof fn lemma_sort_fold_ordered(
    t: Seq<CloudGameInfo>,
    rest: Seq<CloudGameInfo>,
    lt: spec_fn(CloudGameInfo, CloudGameInfo) -> bool,
)
    requires
        ordered_by(t, lt),
        strict_order(lt),
    ensures
        ordered_by(sort_fold(t, rest, lt), lt),
        sort_fold(t, rest, lt).to_multiset() =~= t.to_multiset().add(rest.to_multiset()),
    decreases rest.len(),
{
    broadcast use vstd::seq_lib::group_to_multiset_ensures;
    if rest.len() == 0 {
        assert(rest.to_multiset() =~= Multiset::empty());
    } else {
        let x = rest[0];
        lemma_insert_ordered(t, x, lt);
        let t1 = t.insert(first_after(t, x, lt, 0), x);
        lemma_sort_fold_ordered(t1, rest.drop_first(), lt);
        assert(rest.remove(0) =~= rest.drop_first());
        assert(rest.contains(x));
        assert forall|v: CloudGameInfo| #[trigger] rest.to_multiset().count(v) == rest.drop_first().to_multiset().insert(x).count(v) by {
            assert(rest.remove(0).to_multiset() =~= rest.to_multiset().remove(rest[0]));
        }
    }
}

proof fn lemma_played_strict()
    ensures
        strict_order(played_before()),
{
}

proof fn lemma_game_before_strict(order: Seq<u32>)
    ensures
        strict_order(game_before(order)),
{
    let lt = game_before(order);
    assert forall|a: CloudGameInfo, b: CloudGameInfo| #[trigger] lt(a, b) implies !lt(b, a) by {
        lemma_text_order_flip(name_key(a), name_key(b));
    }
    assert forall|a: CloudGameInfo, b: CloudGameInfo, c: CloudGameInfo|
        #[trigger] lt(a, b) && #[trigger] lt(b, c) implies lt(a, c) by {
        lemma_text_order_flip(name_key(a), name_key(b));
        lemma_text_order_flip(name_key(b), name_key(c));
        lemma_text_order_flip(name_key(a), name_key(c));
        if text_order(name_key(a), name_key(b)) < 0 && text_order(name_key(b), name_key(c)) < 0 {
            lemma_text_order_trans(name_key(a), name_key(b), name_key(c));
        }
        if text_order(name_key(a), name_key(b)) == 0 && text_order(name_key(b), name_key(c)) < 0 {
            lemma_text_order_zero(name_key(a), name_key(b));
        }
        if text_order(name_key(a), name_key(b)) < 0 && text_order(name_key(b), name_key(c)) == 0 {
            lemma_text_order_zero(name_key(b), name_key(c));
        }
    }
}

proof fn lemma_text_order_zero(a: Seq<char>, b: Seq<char>)
    ensures
        text_order(a, b) == 0 ==> a == b,
    decreases a.len(),
{
    if a.len() > 0 && b.len() > 0 && a[0] == b[0] {
        lemma_text_order_zero(a.drop_first(), b.drop_first());
        if text_order(a, b) == 0 {
            assert(a =~= seq![a[0]] + a.drop_first());
            assert(b =~= seq![b[0]] + b.drop_first());
        }
    }
}

/// Games sorted by last play come with the most recently played first, and
/// they are the same games.
pub proof fn lemma_sort_by_last_played_ordered(games: Seq<CloudGameInfo>)
    ensures
        forall|i: int, j: int| 0 <= i < j < games.len() ==> played_key(
            #[trigger] sort_fold(Seq::empty(), games, played_before())[i],
        ) >= played_key(#[trigger] sort_fold(Seq::empty(), games, played_before())[j]),
        sort_fold(Seq::empty(), games, played_before()).to_multiset() =~= games.to_multiset(),
{
    broadcast use vstd::seq_lib::group_to_multiset_ensures;
    lemma_played_strict();
    lemma_sort_fold_ordered(Seq::empty(), games, played_before());
    let r = sort_fold(Seq::empty(), games, played_before());
    assert(Seq::<CloudGameInfo>::empty().to_multiset() =~= Multiset::empty());
    assert(r.to_multiset().len() == games.to_multiset().len());
    assert(r.len() == games.len());
    assert forall|i: int, j: int| 0 <= i < j < games.len() implies played_key(#[trigger] r[i]) >= played_key(#[trigger] r[j]) by {
        assert(!played_before()(r[j], r[i]));
    }
}

/// The merged game list, sorted, never puts a game before one that goes
/// strictly ahead of it (installed games first, then the store's order, then
/// by name), and it holds the same games.
pub proof fn lemma_sort_games_ordered(games: Seq<CloudGameInfo>, order: Seq<u32>)
    ensures
        ordered_by(sort_fold(Seq::empty(), games, game_before(order)), game_before(order)),
        sort_fold(Seq::empty(), games, game_before(order)).to_multiset() =~= games.to_multiset(),
{
    broadcast use vstd::seq_lib::group_to_multiset_ensures;
    lemma_game_before_strict(order);
    lemma_sort_fold_ordered(Seq::empty(), games, game_before(order));
    assert(Seq::<CloudGameInfo>::empty().to_multiset() =~= Multiset::empty());
}

} // verus!
