//! Backing up a game's cloud files: naming the backup and its root folders,
//! keeping the progress, and the manifest written beside the files. The
//! downloads and file writes themselves happen outside; each reports back.
use vstd::prelude::*;
use vstd::string::*;
use crate::steam_api::CloudFile;

verus! {

/// The record written beside a backup.
#[derive(Debug, Clone)]
pub struct BackupManifest {
    pub version: u32,
    pub app_id: u32,
    pub game_name: String,
    pub backup_time: String,
    pub total_files: usize,
    pub total_size: u64,
    pub files: Vec<BackupFileEntry>,
    pub roots: Vec<RootInfo>,
}

/// One backed-up file.
#[derive(Debug, Clone)]
pub struct BackupFileEntry {
    pub name: String,
    pub size: u64,
    pub sha1: Option<String>,
    pub root_index: u32,
    pub root_name: String,
    pub relative_path: String,
}

/// A root whose files the backup holds, and the folder they are in.
#[derive(Debug, Clone)]
pub struct RootInfo {
    pub index: u32,
    pub name: String,
    pub folder: String,
}

/// How far a backup is: files in all, files done, the file at hand, and the
/// files that failed with the reason.
#[derive(Debug, Clone)]
pub struct BackupProgress {
    pub total_files: usize,
    pub completed_files: usize,
    pub current_file: String,
    pub failed_files: Vec<(String, String)>,
}

impl BackupProgress {
    /// The progress before the first of `total_files` files.
    pub fn new(total_files: usize) -> (r: Self)
        ensures
            r.total_files == total_files,
            r.completed_files == 0,
            r.current_file@.len() == 0,
            r.failed_files@.len() == 0,
    {
        BackupProgress {
            total_files,
            completed_files: 0,
            current_file: String::new(),
            failed_files: Vec::new(),
        }
    }
}

/// The outcome of a backup.
#[derive(Debug, Clone)]
pub struct BackupResult {
    pub success: bool,
    pub backup_path: String,
    pub total_files: usize,
    pub success_count: usize,
    pub failed_files: Vec<(String, String)>,
}

/// Why a backup did not start.
#[derive(Debug, Clone, Copy, PartialEq, Eq, Structural)]
pub enum BackupError {
    /// There is no file to back up.
    NoFiles,
}

/// `root<n>_<name>`: the folder of root number `root` in a backup.
pub open spec fn root_folder_name(root: u32) -> Seq<char> {
    "root"@ + crate::text::decimal(root as nat) + "_"@ + crate::path_resolver::root_type_name(root)
}

/// The folder of root number `root` in a backup (see [`root_folder_name`]).
pub fn get_root_folder_name(root: u32) -> (r: String)
    ensures
        r@ == root_folder_name(root),
{
    let mut s = String::from_str("root");
    crate::text::append_decimal(&mut s, root as u64);
    s.append("_");
    s.append(crate::path_resolver::get_root_type_name(root));
    s
}

/// Whether a character is kept in a game name used in a folder name: letters,
/// digits, space, `-` and `_`.
pub open spec fn keep_name_char(c: char) -> bool {
    crate::text::unicode_alphanumeric(c) || c == ' ' || c == '-' || c == '_'
}

/// At most the first `n` elements.
pub open spec fn first_n(s: Seq<char>, n: nat) -> Seq<char> {
    if s.len() <= n {
        s
    } else {
        s.take(n as int)
    }
}

/// A game name made fit for a folder name: the first 30 kept characters,
/// trimmed, spaces turned into `_`.
pub open spec fn clean_game_name(name: Seq<char>) -> Seq<char> {
    crate::text::replace_all(
        crate::text::trim(first_n(name.filter(|c: char| keep_name_char(c)), 30)),
        seq![' '],
        seq!['_'],
    )
}

/// `<name>_<app id>_<time>`: the folder name of a backup.
pub open spec fn backup_dir_name(game_name: Seq<char>, app_id: u32, timestamp: Seq<char>) -> Seq<char> {
    clean_game_name(game_name) + "_"@ + crate::text::decimal(app_id as nat) + "_"@ + timestamp
}

proof fn lemma_filter_step(s: Seq<char>, x: char)
    ensures
        s.push(x).filter(|c: char| keep_name_char(c)) == (if keep_name_char(x) {
            s.filter(|c: char| keep_name_char(c)).push(x)
        } else {
            s.filter(|c: char| keep_name_char(c))
        }),
{
    reveal(Seq::filter);
    assert(s.push(x).drop_last() =~= s);
}

/// A game name made fit for a folder name (see [`clean_game_name`]).
pub fn clean_name(game_name: &str) -> (r: String)
    ensures
        r@ == clean_game_name(game_name@),
{
    let v = crate::text::str_chars(game_name);
    let mut kept: Vec<char> = Vec::new();
    let mut i: usize = 0;
    assert(v@.take(0) =~= Seq::<char>::empty());
    proof {
        reveal(Seq::filter);
    }
    assert(Seq::<char>::empty().filter(|c: char| keep_name_char(c)) =~= Seq::<char>::empty());
    while i < v.len()
        invariant
            v@ == game_name@,
            i <= v@.len(),
            kept@ == first_n(v@.take(i as int).filter(|c: char| keep_name_char(c)), 30),
        decreases v.len() - i,
    {
        let c = v[i];
        let keep = crate::text::char_is_alphanumeric(c) || c == ' ' || c == '-' || c == '_';
        proof {
            lemma_filter_step(v@.take(i as int), c);
            assert(v@.take(i as int).push(c) =~= v@.take(i + 1));
        }
        if keep && kept.len() < 30 {
            let ghost before = kept@;
            kept.push(c);
            assert(kept@ =~= first_n(v@.take(i + 1).filter(|c: char| keep_name_char(c)), 30));
        } else if keep {
            let ghost f = v@.take(i as int).filter(|c: char| keep_name_char(c));
            assert(f.push(c).take(30) =~= f.take(30));
        }
        i = i + 1;
    }
    assert(v@.take(v@.len() as int) =~= v@);
    let t = crate::text::trim_chars(kept.as_slice());
    let ts = crate::text::seq_string(t.as_slice());
    proof {
        reveal_strlit(" ");
        reveal_strlit("_");
    }
    let r = crate::text::replace_text(ts.as_str(), " ", "_");
    assert(" "@ =~= seq![' ']);
    assert("_"@ =~= seq!['_']);
    r
}

/// The folder name of a backup made at `timestamp` (see [`backup_dir_name`]).
pub fn backup_dir_name_at(game_name: &str, app_id: u32, timestamp: &str) -> (r: String)
    ensures
        r@ == backup_dir_name(game_name@, app_id, timestamp@),
{
    let mut s = clean_name(game_name);
    s.append("_");
    crate::text::append_decimal(&mut s, app_id as u64);
    s.append("_");
    s.append(timestamp);
    s
}

/// Whether every character of `s` is a decimal digit.
pub open spec fn all_digits(s: Seq<char>) -> bool {
    forall|i: int| 0 <= i < s.len() ==> '0' <= #[trigger] s[i] && s[i] <= '9'
}

/// Whether `t` has the shape of a `%Y%m%d_%H%M%S` time stamp: the year as
/// four digits, or as a sign and at least four digits; then two digits each
/// for month and day, `_`, and two digits each for hour, minute and second.
pub open spec fn timestamp_shape(t: Seq<char>) -> bool {
    let n = t.len() as int;
    let y = t.subrange(0, n - 11);
    &&& n >= 15
    &&& (y.len() == 4 && all_digits(y)) || (y.len() >= 5 && (y[0] == '+' || y[0] == '-') && all_digits(
        y.drop_first(),
    ))
    &&& all_digits(t.subrange(n - 11, n - 7))
    &&& t[n - 7] == '_'
    &&& all_digits(t.subrange(n - 6, n))
}

/// `Local::now().format("%Y%m%d_%H%M%S")` of the `chrono` crate: the local
/// time as text. The value depends on the clock; what is claimed is the shape
/// that chrono's formatting gives those fields (the year zero-padded to four
/// digits, with a sign outside 0 to 9999; the others as two digits).
#[verifier::external_body]
fn local_timestamp_text() -> (r: String)
    ensures
        timestamp_shape(r@),
{
    chrono::Local::now().format("%Y%m%d_%H%M%S").to_string()
}

/// The folder name of a backup made now: the clean game name, the app id and
/// the local time stamp.
pub fn generate_backup_dir_name(game_name: &str, app_id: u32) -> (r: String)
    ensures
        exists|t: Seq<char>| timestamp_shape(t) && r@ == backup_dir_name(game_name@, app_id, t),
{
    let ts = local_timestamp_text();
    backup_dir_name_at(game_name, app_id, ts.as_str())
}

/// Where backups go.
pub struct BackupManager {
    pub backup_root: String,
}

/// A backup under way: its progress, the files backed up, the roots seen (each
/// once, in order of first appearance) and the files in all.
pub struct BackupRun {
    pub progress: BackupProgress,
    pub manifest_files: Vec<BackupFileEntry>,
    pub roots: Vec<RootInfo>,
}

/// The sum of the sizes of backed-up files.
pub open spec fn entries_size(es: Seq<BackupFileEntry>) -> int
    decreases es.len(),
{
    if es.len() == 0 {
        0
    } else {
        entries_size(es.drop_last()) + es.last().size
    }
}

impl BackupManager {
    /// A manager that puts backups below `backup_root`.
    pub fn new(backup_root: String) -> (r: Self)
        ensures
            r.backup_root == backup_root,
    {
        BackupManager { backup_root }
    }

    /// Starts a backup of `files`; there must be one.
    pub fn start_backup(&self, files: &[CloudFile]) -> (r: Result<BackupRun, BackupError>)
        ensures
            files@.len() == 0 ==> r == Err::<BackupRun, BackupError>(BackupError::NoFiles),
            files@.len() > 0 ==> (r matches Ok(run) && run.progress.total_files == files@.len()
                && run.progress.completed_files == 0 && run.progress.failed_files@.len() == 0
                && run.manifest_files@.len() == 0 && run.roots@.len() == 0),
    {
        if files.len() == 0 {
            return Err(BackupError::NoFiles);
        }
        Ok(BackupRun { progress: BackupProgress::new(files.len()), manifest_files: Vec::new(), roots: Vec::new() })
    }
}

impl BackupRun {
    /// Takes up `file`: it becomes the file at hand, its root is recorded the
    /// first time it is seen, and the folder it goes to is returned.
    pub fn begin_file(&mut self, file: &CloudFile) -> (r: String)
        ensures
            r@ == root_folder_name(file.root),
            final(self).progress.current_file@ == file.name@,
            final(self).progress.completed_files == old(self).progress.completed_files,
            final(self).progress.total_files == old(self).progress.total_files,
            final(self).progress.failed_files == old(self).progress.failed_files,
            final(self).manifest_files == old(self).manifest_files,
            (exists|i: int| 0 <= i < old(self).roots@.len() && (#[trigger] old(self).roots@[i]).index == file.root)
                ==> final(self).roots == old(self).roots,
            !(exists|i: int| 0 <= i < old(self).roots@.len() && (#[trigger] old(self).roots@[i]).index == file.root)
                ==> final(self).roots@.len() == old(self).roots@.len() + 1
                && final(self).roots@.subrange(0, old(self).roots@.len() as int) == old(self).roots@
                && final(self).roots@.last().index == file.root
                && final(self).roots@.last().name@ == crate::path_resolver::root_type_name(file.root)
                && final(self).roots@.last().folder@ == root_folder_name(file.root),
    {
        self.progress.current_file = file.name.clone();
        let folder = get_root_folder_name(file.root);
        let mut seen = false;
        let mut i: usize = 0;
        while i < self.roots.len()
            invariant
                i <= self.roots@.len(),
                self.roots == old(self).roots,
                seen == exists|k: int| 0 <= k < i && (#[trigger] self.roots@[k]).index == file.root,
            decreases self.roots.len() - i,
        {
            if self.roots[i].index == file.root {
                seen = true;
            }
            i = i + 1;
        }
        if !seen {
            let info = RootInfo {
                index: file.root,
                name: String::from_str(crate::path_resolver::get_root_type_name(file.root)),
                folder: folder.clone(),
            };
            let ghost before = self.roots@;
            self.roots.push(info);
            assert(self.roots@.subrange(0, before.len() as int) =~= before);
        }
        folder
    }

    /// Records that `file` could not be backed up, and why.
    pub fn file_failed(&mut self, file: &CloudFile, reason: String)
        requires
            old(self).progress.completed_files < usize::MAX,
        ensures
            final(self).progress.completed_files == old(self).progress.completed_files + 1,
            final(self).progress.failed_files@ == old(self).progress.failed_files@.push((file.name, reason)),
            final(self).progress.total_files == old(self).progress.total_files,
            final(self).manifest_files == old(self).manifest_files,
            final(self).roots == old(self).roots,
    {
        self.progress.failed_files.push((file.name.clone(), reason));
        self.progress.completed_files = self.progress.completed_files + 1;
    }

    /// Records that `file` was backed up: it joins the manifest under its own
    /// name and root.
    pub fn file_saved(&mut self, file: &CloudFile)
        requires
            old(self).progress.completed_files < usize::MAX,
        ensures
            final(self).progress.completed_files == old(self).progress.completed_files + 1,
            final(self).progress.failed_files == old(self).progress.failed_files,
            final(self).progress.total_files == old(self).progress.total_files,
            final(self).roots == old(self).roots,
            final(self).manifest_files@.len() == old(self).manifest_files@.len() + 1,
            final(self).manifest_files@.subrange(0, old(self).manifest_files@.len() as int)
                == old(self).manifest_files@,
            final(self).manifest_files@.last().name@ == file.name@,
            final(self).manifest_files@.last().size == file.size,
            final(self).manifest_files@.last().sha1 is None,
            final(self).manifest_files@.last().root_index == file.root,
            final(self).manifest_files@.last().root_name@ == crate::path_resolver::root_type_name(file.root),
            final(self).manifest_files@.last().relative_path@ == file.name@,
    {
        let entry = BackupFileEntry {
            name: file.name.clone(),
            size: file.size,
            sha1: None,
            root_index: file.root,
            root_name: String::from_str(crate::path_resolver::get_root_type_name(file.root)),
            relative_path: file.name.clone(),
        };
        let ghost before = self.manifest_files@;
        self.manifest_files.push(entry);
        assert(self.manifest_files@.subrange(0, before.len() as int) =~= before);
        self.progress.completed_files = self.progress.completed_files + 1;
    }

    /// The manifest of the backup, made at `backup_time` (RFC 3339 text).
    pub fn manifest(&self, app_id: u32, game_name: &str, backup_time: String) -> (r: BackupManifest)
        requires
            entries_size(self.manifest_files@) <= u64::MAX,
        ensures
            r.version == 1,
            r.app_id == app_id,
            r.game_name@ == game_name@,
            r.backup_time == backup_time,
            r.total_files == self.manifest_files@.len(),
            r.total_size == entries_size(self.manifest_files@),
            r.files@ == self.manifest_files@,
            r.roots@ == self.roots@,
    {
        let mut total: u64 = 0;
        let mut i: usize = 0;
        let mut files: Vec<BackupFileEntry> = Vec::new();
        assert(self.manifest_files@.take(0) =~= Seq::<BackupFileEntry>::empty());
        while i < self.manifest_files.len()
            invariant
                i <= self.manifest_files@.len(),
                entries_size(self.manifest_files@) <= u64::MAX,
                total == entries_size(self.manifest_files@.take(i as int)),
                files@ == self.manifest_files@.take(i as int),
            decreases self.manifest_files.len() - i,
        {
            proof {
                assert(self.manifest_files@.take(i + 1).drop_last() =~= self.manifest_files@.take(i as int));
                lemma_entries_size_prefix(self.manifest_files@, i + 1);
            }
            let e = &self.manifest_files[i];
            total = total + e.size;
            files.push(BackupFileEntry {
                name: e.name.clone(),
                size: e.size,
                sha1: match &e.sha1 {
                    Some(h) => Some(h.clone()),
                    None => None,
                },
                root_index: e.root_index,
                root_name: e.root_name.clone(),
                relative_path: e.relative_path.clone(),
            });
            assert(self.manifest_files@.take(i + 1) =~= self.manifest_files@.take(i as int).push(*e));
            i = i + 1;
        }
        assert(self.manifest_files@.take(self.manifest_files@.len() as int) =~= self.manifest_files@);
        let mut roots: Vec<RootInfo> = Vec::new();
        let mut j: usize = 0;
        while j < self.roots.len()
            invariant
                j <= self.roots@.len(),
                roots@ == self.roots@.take(j as int),
            decreases self.roots.len() - j,
        {
            let ri = &self.roots[j];
            roots.push(RootInfo { index: ri.index, name: ri.name.clone(), folder: ri.folder.clone() });
            assert(self.roots@.take(j + 1) =~= self.roots@.take(j as int).push(*ri));
            j = j + 1;
        }
        assert(self.roots@.take(self.roots@.len() as int) =~= self.roots@);
        BackupManifest {
            version: 1,
            app_id,
            game_name: String::from_str(game_name),
            backup_time,
            total_files: files.len(),
            total_size: total,
            files,
            roots,
        }
    }

    /// The outcome of the backup written to `backup_path`: a success when no
    /// file failed and it was not cancelled; the total is the number of files
    /// the run was started with.
    pub fn finish(self, backup_path: String, cancelled: bool) -> (r: BackupResult)
        ensures
            r.success == (self.progress.failed_files@.len() == 0 && !cancelled),
            r.backup_path == backup_path,
            r.total_files == self.progress.total_files,
            r.success_count == self.manifest_files@.len(),
            r.failed_files == self.progress.failed_files,
    {
        BackupResult {
            success: self.progress.failed_files.len() == 0 && !cancelled,
            backup_path,
            total_files: self.progress.total_files,
            success_count: self.manifest_files.len(),
            failed_files: self.progress.failed_files,
        }
    }
}

proof fn lemma_entries_size_prefix(es: Seq<BackupFileEntry>, k: int)
    requires
        0 <= k <= es.len(),
    ensures
        entries_size(es.take(k)) <= entries_size(es),
    decreases es.len() - k,
{
    if k < es.len() {
        lemma_entries_size_prefix(es, k + 1);
        assert(es.take(k + 1).drop_last() =~= es.take(k));
    } else {
        assert(es.take(k) =~= es);
    }
}

} // verus!
