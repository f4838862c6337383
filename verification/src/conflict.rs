//! Comparing a game's local save files with its Steam Cloud files: the sync
//! state of each file, the hash check that settles undecided files, and the
//! local directory that a cloud file belongs to.
use vstd::prelude::*;
use vstd::string::*;
use crate::steam_api::CloudFile;

verus! {

/// How a file's local and cloud copies relate.
#[derive(Debug, Clone, Copy, PartialEq, Eq, Structural)]
pub enum SyncStatus {
    Unknown,
    Synced,
    LocalNewer,
    CloudNewer,
    Conflict,
    LocalOnly,
    CloudOnly,
}

impl Default for SyncStatus {
    fn default() -> (r: Self)
        ensures
            r == SyncStatus::Unknown,
    {
        SyncStatus::Unknown
    }
}

/// Where the hash check of a file stands.
#[derive(Debug, Clone, Copy, PartialEq, Eq, Structural)]
pub enum HashStatus {
    Pending,
    Checking,
    Match,
    Mismatch,
    Error,
}

impl Default for HashStatus {
    fn default() -> (r: Self)
        ensures
            r == HashStatus::Pending,
    {
        HashStatus::Pending
    }
}

/// Which aspects of a file differ between its local and cloud copies.
#[derive(Debug, Clone, Copy, PartialEq, Eq, Structural)]
pub struct DiffFlags {
    pub exists_diff: bool,
    pub persisted_diff: bool,
    pub size_diff: bool,
    pub time_diff: bool,
    pub hash_diff: bool,
}

/// No difference.
pub open spec fn no_diff() -> DiffFlags {
    DiffFlags {
        exists_diff: false,
        persisted_diff: false,
        size_diff: false,
        time_diff: false,
        hash_diff: false,
    }
}

impl Default for DiffFlags {
    fn default() -> (r: Self)
        ensures
            r == no_diff(),
    {
        DiffFlags {
            exists_diff: false,
            persisted_diff: false,
            size_diff: false,
            time_diff: false,
            hash_diff: false,
        }
    }
}

/// A local save file: size, time of last change (seconds since the Unix
/// epoch), whether it exists and its SHA-1 hash once computed.
#[derive(Debug, Clone)]
pub struct LocalFileInfo {
    pub size: u64,
    pub modified: i64,
    pub exists: bool,
    pub hash: Option<String>,
}

/// A cloud file: size, time of last change (seconds since the Unix epoch),
/// whether Steam keeps it in the cloud, its SHA-1 hash once computed and the
/// link it can be downloaded from.
#[derive(Debug, Clone)]
pub struct CloudFileInfo {
    pub size: u64,
    pub timestamp: i64,
    pub is_persisted: bool,
    pub hash: Option<String>,
    pub download_url: Option<String>,
}

/// The comparison of one file.
#[derive(Debug, Clone)]
pub struct FileComparison {
    pub filename: String,
    pub status: SyncStatus,
    pub local: Option<LocalFileInfo>,
    pub cloud: Option<CloudFileInfo>,
    pub time_diff_secs: i64,
    pub size_diff_bytes: i64,
    pub diff_flags: DiffFlags,
    pub hash_status: HashStatus,
    pub local_path: Option<String>,
}

/// Whether the numbers of a comparison fit the machine integers it uses: when
/// the local copy exists and Steam keeps the cloud copy (the only case that
/// compares them), sizes up to `i64::MAX` and times whose difference fits.
pub open spec fn comparison_in_range(local: Option<LocalFileInfo>, cloud: Option<CloudFileInfo>) -> bool {
    match (local, cloud) {
        (Some(l), Some(c)) => l.exists && c.is_persisted ==> l.size <= i64::MAX && c.size <= i64::MAX
            && i64::MIN < l.modified - c.timestamp <= i64::MAX,
        _ => true,
    }
}

/// The sync state of a file, the time difference (local minus cloud, seconds),
/// the size difference (local minus cloud, bytes) and the differences found.
/// `size_tolerance` is how far sizes may differ and still count as equal.
///
/// Copies that both exist are compared: a local copy more than 2 seconds newer
/// is newer, one more than 2 seconds older is older; within that, sizes that
/// differ by more than the tolerance leave the state unknown (a hash check
/// decides), else the file is in sync. A file on one side only is local-only or
/// cloud-only; a file on neither side is unknown.
pub open spec fn comparison_outcome(
    local: Option<LocalFileInfo>,
    cloud: Option<CloudFileInfo>,
    size_tolerance: int,
) -> (SyncStatus, int, int, DiffFlags) {
    match (local, cloud) {
        (Some(l), Some(c)) => if !l.exists && !c.is_persisted {
            (SyncStatus::Unknown, 0, 0, DiffFlags { exists_diff: true, persisted_diff: true, ..no_diff() })
        } else if !l.exists && c.is_persisted {
            (SyncStatus::CloudOnly, 0, 0, DiffFlags { exists_diff: true, ..no_diff() })
        } else if l.exists && !c.is_persisted {
            (SyncStatus::LocalOnly, 0, 0, DiffFlags { persisted_diff: true, ..no_diff() })
        } else {
            let size_diff = l.size - c.size;
            let abs = if size_diff < 0 { -size_diff } else { size_diff };
            let time_diff = l.modified - c.timestamp;
            let flags = DiffFlags { size_diff: abs > size_tolerance, time_diff: time_diff != 0, ..no_diff() };
            let status = if time_diff > 2 {
                SyncStatus::LocalNewer
            } else if time_diff < -2 {
                SyncStatus::CloudNewer
            } else if abs > size_tolerance {
                SyncStatus::Unknown
            } else {
                SyncStatus::Synced
            };
            (status, time_diff, size_diff, flags)
        },
        (Some(l), None) => if l.exists {
            (SyncStatus::LocalOnly, 0, 0, DiffFlags { exists_diff: true, ..no_diff() })
        } else {
            (SyncStatus::Unknown, 0, 0, no_diff())
        },
        (None, Some(c)) => if c.is_persisted {
            (SyncStatus::CloudOnly, 0, 0, DiffFlags { exists_diff: true, ..no_diff() })
        } else {
            (SyncStatus::Unknown, 0, 0, no_diff())
        },
        (None, None) => (SyncStatus::Unknown, 0, 0, no_diff()),
    }
}

/// When both copies exist, the newer side decides before the sizes do: a
/// local copy more than 2 seconds newer than the cloud copy is `LocalNewer`,
/// one more than 2 seconds older is `CloudNewer`, whatever the sizes and the
/// tolerance; within 2 seconds, sizes further apart than the tolerance give
/// `Unknown` and closer ones `Synced`. The differences reported are local
/// minus cloud.
pub proof fn lemma_both_copies_status(l: LocalFileInfo, c: CloudFileInfo, size_tolerance: int)
    requires
        l.exists,
        c.is_persisted,
    ensures
        ({
            let r = comparison_outcome(Some(l), Some(c), size_tolerance);
            &&& r.1 == l.modified - c.timestamp
            &&& r.2 == l.size - c.size
            &&& l.modified - c.timestamp > 2 ==> r.0 == SyncStatus::LocalNewer
            &&& l.modified - c.timestamp < -2 ==> r.0 == SyncStatus::CloudNewer
            &&& -2 <= l.modified - c.timestamp <= 2 && (l.size - c.size > size_tolerance || c.size - l.size
                > size_tolerance) ==> r.0 == SyncStatus::Unknown
            &&& -2 <= l.modified - c.timestamp <= 2 && l.size - c.size <= size_tolerance && c.size - l.size
                <= size_tolerance ==> r.0 == SyncStatus::Synced
            &&& r.3.size_diff == (l.size - c.size > size_tolerance || c.size - l.size > size_tolerance)
            &&& r.3.time_diff == (l.modified != c.timestamp)
        }),
{
}

/// A copy on one side only: a local copy that exists with no cloud copy Steam
/// keeps is `LocalOnly`; a cloud copy Steam keeps with no local copy that
/// exists is `CloudOnly`; with neither, the state is `Unknown`. No time or
/// size difference is reported then.
pub proof fn lemma_one_sided_status(local: Option<LocalFileInfo>, cloud: Option<CloudFileInfo>, size_tolerance: int)
    ensures
        ({
            let has_local = local matches Some(l) && l.exists;
            let has_cloud = cloud matches Some(c) && c.is_persisted;
            let r = comparison_outcome(local, cloud, size_tolerance);
            &&& has_local && !has_cloud ==> r.0 == SyncStatus::LocalOnly && r.1 == 0 && r.2 == 0
            &&& !has_local && has_cloud ==> r.0 == SyncStatus::CloudOnly && r.1 == 0 && r.2 == 0
            &&& !has_local && !has_cloud ==> r.0 == SyncStatus::Unknown && r.1 == 0 && r.2 == 0
        }),
{
}

/// The sync state of a file and its differences (see [`comparison_outcome`]).
pub fn calculate_status(
    local: &Option<LocalFileInfo>,
    cloud: &Option<CloudFileInfo>,
    size_tolerance: i64,
) -> (r: (SyncStatus, i64, i64, DiffFlags))
    requires
        comparison_in_range(*local, *cloud),
    ensures
        (r.0, r.1 as int, r.2 as int, r.3) == comparison_outcome(*local, *cloud, size_tolerance as int),
{
    let mut flags = DiffFlags {
        exists_diff: false,
        persisted_diff: false,
        size_diff: false,
        time_diff: false,
        hash_diff: false,
    };
    match (local, cloud) {
        (Some(l), Some(c)) => {
            if !l.exists && !c.is_persisted {
                flags.exists_diff = true;
                flags.persisted_diff = true;
                return (SyncStatus::Unknown, 0, 0, flags);
            }
            if !l.exists && c.is_persisted {
                flags.exists_diff = true;
                return (SyncStatus::CloudOnly, 0, 0, flags);
            }
            if l.exists && !c.is_persisted {
                flags.persisted_diff = true;
                return (SyncStatus::LocalOnly, 0, 0, flags);
            }
            let size_diff = l.size as i64 - c.size as i64;
            let abs = if size_diff < 0 { -size_diff } else { size_diff };
            flags.size_diff = abs > size_tolerance;
            let time_diff = l.modified - c.timestamp;
            flags.time_diff = time_diff != 0;
            let status = if time_diff > 2 {
                SyncStatus::LocalNewer
            } else if time_diff < -2 {
                SyncStatus::CloudNewer
            } else if flags.size_diff {
                SyncStatus::Unknown
            } else {
                SyncStatus::Synced
            };
            (status, time_diff, size_diff, flags)
        },
        (Some(l), None) => {
            if l.exists {
                flags.exists_diff = true;
                (SyncStatus::LocalOnly, 0, 0, flags)
            } else {
                (SyncStatus::Unknown, 0, 0, flags)
            }
        },
        (None, Some(c)) => {
            if c.is_persisted {
                flags.exists_diff = true;
                (SyncStatus::CloudOnly, 0, 0, flags)
            } else {
                (SyncStatus::Unknown, 0, 0, flags)
            }
        },
        (None, None) => (SyncStatus::Unknown, 0, 0, flags),
    }
}

impl FileComparison {
    /// Compares a file's local and cloud copies; the cloud copy gets the
    /// download link, and the hash check is pending.
    pub fn new(
        filename: String,
        local: Option<LocalFileInfo>,
        cloud: Option<CloudFileInfo>,
        download_url: Option<String>,
        local_path: Option<String>,
        size_tolerance: i64,
    ) -> (r: Self)
        requires
            comparison_in_range(local, cloud),
        ensures
            (r.status, r.time_diff_secs as int, r.size_diff_bytes as int, r.diff_flags)
                == comparison_outcome(local, cloud, size_tolerance as int),
            r.filename == filename,
            r.local == local,
            r.local_path == local_path,
            r.hash_status == HashStatus::Pending,
            match cloud {
                Some(c) => r.cloud == Some(CloudFileInfo { download_url, ..c }),
                None => r.cloud is None,
            },
    {
        let (status, time_diff_secs, size_diff_bytes, diff_flags) = calculate_status(
            &local,
            &cloud,
            size_tolerance,
        );
        let cloud = match cloud {
            Some(c) => Some(
                CloudFileInfo {
                    size: c.size,
                    timestamp: c.timestamp,
                    is_persisted: c.is_persisted,
                    hash: c.hash,
                    download_url,
                },
            ),
            None => None,
        };
        FileComparison {
            filename,
            status,
            local,
            cloud,
            time_diff_secs,
            size_diff_bytes,
            diff_flags,
            hash_status: HashStatus::Pending,
            local_path,
        }
    }

    /// The sync state as shown in the file list: an icon and a word.
    pub fn status_display(&self) -> (r: String)
        ensures
            r@ == sync_status_text(self.status),
    {
        let mut s = String::new();
        match self.status {
            SyncStatus::Synced => {
                s.append(crate::icons::check());
                s.append(" 已同步");
            },
            SyncStatus::LocalNewer => {
                s.append(crate::icons::arrow_up());
                s.append(" 本地较新");
            },
            SyncStatus::CloudNewer => {
                s.append(crate::icons::arrow_down());
                s.append(" 云端较新");
            },
            SyncStatus::Conflict => {
                s.append(crate::icons::warning());
                s.append(" 冲突");
            },
            SyncStatus::LocalOnly => {
                s.append(crate::icons::file());
                s.append(" 仅本地");
            },
            SyncStatus::CloudOnly => {
                s.append(crate::icons::cloud());
                s.append(" 仅云端");
            },
            SyncStatus::Unknown => {
                s.append(crate::icons::question());
                s.append(" 检测中");
            },
        }
        s
    }

    /// The hash check state as shown in the file list: an icon and a word.
    pub fn hash_status_display(&self) -> (r: String)
        ensures
            r@ == hash_status_text(self.hash_status),
    {
        let mut s = String::new();
        match self.hash_status {
            HashStatus::Pending => {
                s.append(crate::icons::hourglass());
                s.append(" 等待");
            },
            HashStatus::Checking => {
                s.append(crate::icons::spinner());
                s.append(" 检测中");
            },
            HashStatus::Match => {
                s.append(crate::icons::check());
                s.append(" 一致");
            },
            HashStatus::Mismatch => {
                s.append(crate::icons::error());
                s.append(" 不一致");
            },
            HashStatus::Error => {
                s.append(crate::icons::warning());
                s.append(" 错误");
            },
        }
        s
    }
}

/// The text that shows a sync state.
pub open spec fn sync_status_text(s: SyncStatus) -> Seq<char> {
    match s {
        SyncStatus::Synced => seq!['\u{E182}'] + " 已同步"@,
        SyncStatus::LocalNewer => seq!['\u{E08E}'] + " 本地较新"@,
        SyncStatus::CloudNewer => seq!['\u{E03E}'] + " 云端较新"@,
        SyncStatus::Conflict => seq!['\u{E4E0}'] + " 冲突"@,
        SyncStatus::LocalOnly => seq!['\u{E230}'] + " 仅本地"@,
        SyncStatus::CloudOnly => seq!['\u{E1AA}'] + " 仅云端"@,
        SyncStatus::Unknown => seq!['\u{E3E8}'] + " 检测中"@,
    }
}

/// The text that shows a hash check state.
pub open spec fn hash_status_text(s: HashStatus) -> Seq<char> {
    match s {
        HashStatus::Pending => seq!['\u{E2B2}'] + " 等待"@,
        HashStatus::Checking => seq!['\u{EB44}'] + " 检测中"@,
        HashStatus::Match => seq!['\u{E182}'] + " 一致"@,
        HashStatus::Mismatch => seq!['\u{E4F8}'] + " 不一致"@,
        HashStatus::Error => seq!['\u{E4E0}'] + " 错误"@,
    }
}

/// A file to hash-check: its local path and its download link.
#[derive(Debug, Clone)]
pub struct HashCheckTask {
    pub filename: String,
    pub local_path: Option<String>,
    pub download_url: Option<String>,
}

/// The outcome of a file's hash check.
#[derive(Debug, Clone)]
pub struct HashCheckResult {
    pub filename: String,
    pub local_hash: Option<String>,
    pub cloud_hash: Option<String>,
    pub error: Option<String>,
}

/// The characters of an optional string.
pub open spec fn opt_chars(o: Option<String>) -> Option<Seq<char>> {
    match o {
        Some(s) => Some(s@),
        None => None,
    }
}

/// What a hash check result means: an error or a missing hash is an error;
/// equal hashes mean the file is in sync, different ones a conflict.
pub open spec fn hash_outcome(error: bool, local_hash: Option<Seq<char>>, cloud_hash: Option<Seq<char>>) -> (HashStatus, Option<SyncStatus>) {
    if error {
        (HashStatus::Error, None)
    } else {
        match (local_hash, cloud_hash) {
            (Some(l), Some(c)) => if l == c {
                (HashStatus::Match, Some(SyncStatus::Synced))
            } else {
                (HashStatus::Mismatch, Some(SyncStatus::Conflict))
            },
            _ => (HashStatus::Error, None),
        }
    }
}

impl HashCheckResult {
    /// The hash check state of the file and the sync state it settles, if any
    /// (see [`hash_outcome`]).
    pub fn process(&self) -> (r: (HashStatus, Option<SyncStatus>))
        ensures
            r == hash_outcome(self.error is Some, opt_chars(self.local_hash), opt_chars(self.cloud_hash)),
    {
        if self.error.is_some() {
            return (HashStatus::Error, None);
        }
        match (&self.local_hash, &self.cloud_hash) {
            (Some(lh), Some(ch)) => if *lh == *ch {
                (HashStatus::Match, Some(SyncStatus::Synced))
            } else {
                (HashStatus::Mismatch, Some(SyncStatus::Conflict))
            },
            _ => (HashStatus::Error, None),
        }
    }
}

/// `(n)`: a root number in brackets, as root descriptions end.
pub open spec fn root_suffix(root: u32) -> Seq<char> {
    seq!['('] + crate::text::decimal(root as nat) + seq![')']
}

/// The first position from `k` on whose description ends with `suffix`.
pub open spec fn first_with_suffix(descs: Seq<Seq<char>>, suffix: Seq<char>, k: int) -> Option<int>
    decreases descs.len() - k,
{
    if k < 0 || k >= descs.len() {
        None
    } else if crate::text::ends_with(descs[k], suffix) {
        Some(k)
    } else {
        first_with_suffix(descs, suffix, k + 1)
    }
}

/// The first position from `k` on whose description equals `folder` or occurs
/// in it.
pub open spec fn first_in_folder(descs: Seq<Seq<char>>, folder: Seq<char>, k: int) -> Option<int>
    decreases descs.len() - k,
{
    if k < 0 || k >= descs.len() {
        None
    } else if descs[k] == folder || crate::text::contains_text(folder, descs[k]) {
        Some(k)
    } else {
        first_in_folder(descs, folder, k + 1)
    }
}

/// The descriptions of a list of (description, directory) pairs.
pub open spec fn pair_descs(paths: Seq<(String, String)>) -> Seq<Seq<char>> {
    paths.map_values(|p: (String, String)| p.0@)
}

/// Which local save directory a cloud file belongs to: the first whose
/// description ends with the file's root number in brackets; else the first
/// whose description equals the folder part of the file's root description or
/// occurs in it; else the first directory; `None` when there is none.
pub open spec fn local_path_choice(root: u32, root_description: Seq<char>, descs: Seq<Seq<char>>) -> Option<int> {
    match first_with_suffix(descs, root_suffix(root), 0) {
        Some(i) => Some(i),
        None => match first_in_folder(descs, crate::path_resolver::cdp_root_parts(root_description).1, 0) {
            Some(i) => Some(i),
            None => if descs.len() > 0 {
                Some(0)
            } else {
                None
            },
        },
    }
}

/// The local save directory that a cloud file belongs to (see
/// [`local_path_choice`]); `local_save_paths` holds (description, directory)
/// pairs.
pub fn find_local_path_for_file(cloud_file: &CloudFile, local_save_paths: &[(String, String)]) -> (r: Option<String>)
    ensures
        match local_path_choice(cloud_file.root, cloud_file.root_description@, pair_descs(local_save_paths@)) {
            Some(i) => r matches Some(p) && p@ == local_save_paths@[i].1@,
            None => r is None,
        },
{
    let ghost descs = pair_descs(local_save_paths@);
    proof {
        reveal_strlit("(");
        reveal_strlit(")");
    }
    let mut suffix = String::from_str("(");
    crate::text::append_decimal(&mut suffix, cloud_file.root as u64);
    suffix.append(")");
    assert(suffix@ =~= root_suffix(cloud_file.root));
    let n = local_save_paths.len();
    let mut i: usize = 0;
    while i < n
        invariant
            n == local_save_paths@.len(),
            descs == pair_descs(local_save_paths@),
            suffix@ == root_suffix(cloud_file.root),
            i <= n,
            first_with_suffix(descs, suffix@, 0) == first_with_suffix(descs, suffix@, i as int),
        decreases n - i,
    {
        assert(descs[i as int] == local_save_paths@[i as int].0@);
        if crate::text::str_ends_with(local_save_paths[i].0.as_str(), suffix.as_str()) {
            return Some(local_save_paths[i].1.clone());
        }
        i = i + 1;
    }
    let (_, folder) = crate::path_resolver::parse_cdp_root_description(cloud_file.root_description.as_str());
    let mut j: usize = 0;
    while j < n
        invariant
            n == local_save_paths@.len(),
            descs == pair_descs(local_save_paths@),
            j <= n,
            folder@ == crate::path_resolver::cdp_root_parts(cloud_file.root_description@).1,
            first_with_suffix(descs, root_suffix(cloud_file.root), 0) is None,
            first_in_folder(descs, folder@, 0) == first_in_folder(descs, folder@, j as int),
        decreases n - j,
    {
        assert(descs[j as int] == local_save_paths@[j as int].0@);
        let d = local_save_paths[j].0.as_str();
        if crate::text::str_eq(d, folder) || crate::text::str_contains(folder, d) {
            return Some(local_save_paths[j].1.clone());
        }
        j = j + 1;
    }
    if n > 0 {
        Some(local_save_paths[0].1.clone())
    } else {
        None
    }
}


/// The bracketed root number at the end of a root description names exactly
/// one root: the description written for root `r2`, whatever its name, ends
/// with the bracketed number of root `r1` only when `r1 == r2`.
pub proof fn lemma_root_suffix_exact(name: Seq<char>, r1: u32, r2: u32)
    ensures
        crate::text::ends_with(crate::path_resolver::named_root_description(name, r2), root_suffix(r1))
            ==> r1 == r2,
{
    let s = crate::path_resolver::named_root_description(name, r2);
    let suf = root_suffix(r1);
    let d1 = crate::text::decimal(r1 as nat);
    let d2 = crate::text::decimal(r2 as nat);
    if crate::text::ends_with(s, suf) {
        crate::text::lemma_decimal_digits(r1 as nat);
        crate::text::lemma_decimal_digits(r2 as nat);
        reveal_strlit(" (");
        reveal_strlit(")");
        assert(s =~= name + seq![' ', '('] + d2 + seq![')']);
        let n = s.len();
        assert(s.subrange(n - suf.len(), n as int) == suf);
        if d1.len() < d2.len() {
            let k = n - suf.len();
            assert(suf[0] == '(');
            assert(s[k] == d2[d2.len() - d1.len() - 1]);
        } else if d1.len() > d2.len() {
            let k = n - d2.len() - 2;
            assert(s[k] == '(');
            assert(suf[k - (n - suf.len())] == d1[d1.len() - d2.len() - 1]);
        } else {
            assert(d1 =~= d2) by {
                assert forall|i: int| 0 <= i < d1.len() implies d1[i] == d2[i] by {
                    assert(suf[i + 1] == d1[i]);
                    assert(s[n - suf.len() + i + 1] == d2[i]);
                }
            }
            crate::text::lemma_decimal_injective(r1 as nat, r2 as nat);
        }
    }
}

/// A cloud file goes to the local directory described as `name (n)` for its
/// root number `n`, when no earlier description ends with `(n)`.
pub proof fn lemma_root_description_selected(
    root: u32,
    root_description: Seq<char>,
    descs: Seq<Seq<char>>,
    k: int,
    name: Seq<char>,
)
    requires
        0 <= k < descs.len(),
        descs[k] == crate::path_resolver::named_root_description(name, root),
        forall|m: int| 0 <= m < k ==> !crate::text::ends_with(#[trigger] descs[m], root_suffix(root)),
    ensures
        local_path_choice(root, root_description, descs) == Some(k),
{
    reveal_strlit(" (");
    reveal_strlit(")");
    let s = descs[k];
    assert(s =~= name + seq![' '] + root_suffix(root));
    assert(crate::text::ends_with(s, root_suffix(root))) by {
        assert(s.subrange(s.len() - root_suffix(root).len(), s.len() as int) =~= root_suffix(root));
    }
    lemma_first_with_suffix_at(descs, root_suffix(root), 0, k);
}

proof fn lemma_first_with_suffix_at(descs: Seq<Seq<char>>, suffix: Seq<char>, from: int, k: int)
    requires
        0 <= from <= k < descs.len(),
        crate::text::ends_with(descs[k], suffix),
        forall|m: int| from <= m < k ==> !crate::text::ends_with(#[trigger] descs[m], suffix),
    ensures
        first_with_suffix(descs, suffix, from) == Some(k),
    decreases k - from,
{
    if from < k {
        lemma_first_with_suffix_at(descs, suffix, from + 1, k);
    }
}


/// The comparison of a cloud file with its local copy: the cloud side from
/// what Steam reports (with the download link of a `CDP:` root description),
/// the local side as found on disk at `full_local_path`.
pub fn compare_cloud_file(
    cf: &CloudFile,
    local_info: Option<LocalFileInfo>,
    full_local_path: Option<String>,
    size_tolerance: i64,
) -> (r: FileComparison)
    requires
        comparison_in_range(
            local_info,
            Some(CloudFileInfo {
                size: cf.size,
                timestamp: cf.timestamp,
                is_persisted: cf.is_persisted,
                hash: None,
                download_url: None,
            }),
        ),
    ensures
        r.filename@ == cf.name@,
        r.local == local_info,
        r.local_path == full_local_path,
        r.hash_status == HashStatus::Pending,
        r.cloud matches Some(c) && c.size == cf.size && c.timestamp == cf.timestamp
            && c.is_persisted == cf.is_persisted && c.hash is None && opt_chars(c.download_url)
            == crate::path_resolver::cdp_root_parts(cf.root_description@).0,
        (r.status, r.time_diff_secs as int, r.size_diff_bytes as int, r.diff_flags) == comparison_outcome(
            local_info,
            Some(CloudFileInfo {
                size: cf.size,
                timestamp: cf.timestamp,
                is_persisted: cf.is_persisted,
                hash: None,
                download_url: None,
            }),
            size_tolerance as int,
        ),
{
    let (url, _) = crate::path_resolver::parse_cdp_root_description(cf.root_description.as_str());
    let download_url = match url {
        Some(u) => Some(String::from_str(u)),
        None => None,
    };
    let cloud_info = CloudFileInfo {
        size: cf.size,
        timestamp: cf.timestamp,
        is_persisted: cf.is_persisted,
        hash: None,
        download_url: None,
    };
    FileComparison::new(
        cf.name.clone(),
        local_info,
        Some(cloud_info),
        download_url,
        full_local_path,
        size_tolerance,
    )
}

/// The characters of a hash-check task: file name, local path, download link.
pub open spec fn task_view(t: HashCheckTask) -> (Seq<char>, Option<Seq<char>>, Option<Seq<char>>) {
    (t.filename@, opt_chars(t.local_path), opt_chars(t.download_url))
}

/// Whether a compared file needs a hash check: it exists locally, Steam keeps
/// it in the cloud, and its local path is known.
pub open spec fn needs_hash_check(c: FileComparison) -> bool {
    &&& c.local matches Some(l) && l.exists
    &&& c.cloud matches Some(cl) && cl.is_persisted
    &&& c.local_path is Some
}

/// The hash-check tasks of compared files from position `k` on, in order.
pub open spec fn hash_tasks_from(cs: Seq<FileComparison>, k: int) -> Seq<(Seq<char>, Option<Seq<char>>, Option<Seq<char>>)>
    decreases cs.len() - k,
{
    if k < 0 || k >= cs.len() {
        Seq::empty()
    } else {
        let rest = hash_tasks_from(cs, k + 1);
        if needs_hash_check(cs[k]) {
            seq![(cs[k].filename@, opt_chars(cs[k].local_path), match cs[k].cloud {
                Some(cl) => opt_chars(cl.download_url),
                None => None,
            })] + rest
        } else {
            rest
        }
    }
}

/// A copy of an optional string.
fn copy_opt(o: &Option<String>) -> (r: Option<String>)
    ensures
        r == *o,
{
    match o {
        Some(s) => Some(s.clone()),
        None => None,
    }
}

/// The progress of hash checks for one game: the game, whether the checks were
/// cancelled, the tasks, the results received, and how many of how many tasks
/// are done. The checks themselves run elsewhere and report back.
pub struct AsyncHashChecker {
    pub app_id: u32,
    pub cancelled: bool,
    pub tasks: Vec<HashCheckTask>,
    pub results: Vec<HashCheckResult>,
    pub completed: usize,
    pub total: usize,
}

impl AsyncHashChecker {
    /// No game, no task.
    pub fn new() -> (r: Self)
        ensures
            r.app_id == 0,
            !r.cancelled,
            r.tasks@.len() == 0,
            r.results@.len() == 0,
            r.completed == 0,
            r.total == 0,
    {
        AsyncHashChecker {
            app_id: 0,
            cancelled: false,
            tasks: Vec::new(),
            results: Vec::new(),
            completed: 0,
            total: 0,
        }
    }

    /// Starts checking game `app_id`: earlier checks are dropped, and the tasks
    /// are the compared files that need a hash check, in order. Returns the
    /// tasks to run.
    pub fn start(&mut self, app_id: u32, comparisons: &[FileComparison]) -> (r: Vec<HashCheckTask>)
        ensures
            final(self).app_id == app_id,
            !final(self).cancelled,
            final(self).completed == 0,
            final(self).total == r@.len(),
            final(self).results@.len() == 0,
            r@.map_values(|t: HashCheckTask| task_view(t)) == hash_tasks_from(comparisons@, 0),
            final(self).tasks@.map_values(|t: HashCheckTask| task_view(t)) == hash_tasks_from(comparisons@, 0),
    {
        self.cancel();
        self.app_id = app_id;
        self.cancelled = false;
        let mut tasks: Vec<HashCheckTask> = Vec::new();
        let mut mine: Vec<HashCheckTask> = Vec::new();
        let n = comparisons.len();
        let mut i: usize = 0;
        assert(tasks@.map_values(|t: HashCheckTask| task_view(t)) + hash_tasks_from(comparisons@, 0)
            =~= hash_tasks_from(comparisons@, 0));
        while i < n
            invariant
                n == comparisons@.len(),
                i <= n,
                tasks@.map_values(|t: HashCheckTask| task_view(t)) + hash_tasks_from(comparisons@, i as int)
                    == hash_tasks_from(comparisons@, 0),
                mine@.map_values(|t: HashCheckTask| task_view(t)) == tasks@.map_values(|t: HashCheckTask| task_view(t)),
            decreases n - i,
        {
            let c = &comparisons[i];
            let local_ok = match &c.local {
                Some(l) => l.exists,
                None => false,
            };
            let cloud_ok = match &c.cloud {
                Some(cl) => cl.is_persisted,
                None => false,
            };
            if local_ok && cloud_ok && c.local_path.is_some() {
                let url = match &c.cloud {
                    Some(cl) => copy_opt(&cl.download_url),
                    None => None,
                };
                let t1 = HashCheckTask { filename: c.filename.clone(), local_path: copy_opt(&c.local_path), download_url: copy_opt(&url) };
                let t2 = HashCheckTask { filename: c.filename.clone(), local_path: copy_opt(&c.local_path), download_url: url };
                let ghost before = tasks@.map_values(|t: HashCheckTask| task_view(t));
                let ghost before_mine = mine@.map_values(|t: HashCheckTask| task_view(t));
                tasks.push(t1);
                mine.push(t2);
                assert(tasks@.map_values(|t: HashCheckTask| task_view(t)) =~= before.push(task_view(t1)));
                assert(mine@.map_values(|t: HashCheckTask| task_view(t)) =~= before_mine.push(task_view(t2)));
                assert(before.push(task_view(t1)) + hash_tasks_from(comparisons@, i + 1) =~= before
                    + hash_tasks_from(comparisons@, i as int));
            }
            i = i + 1;
        }
        assert(tasks@.map_values(|t: HashCheckTask| task_view(t)) + Seq::empty() =~= tasks@.map_values(
            |t: HashCheckTask| task_view(t),
        ));
        self.total = tasks.len();
        self.completed = 0;
        self.tasks = mine;
        self.results = Vec::new();
        tasks
    }

    /// Cancels the checks.
    pub fn cancel(&mut self)
        ensures
            final(self).cancelled,
            final(self).app_id == old(self).app_id,
            final(self).completed == old(self).completed,
            final(self).total == old(self).total,
            final(self).tasks == old(self).tasks,
            final(self).results == old(self).results,
    {
        self.cancelled = true;
    }

    /// Records that the first `completed` tasks are done.
    pub fn record_progress(&mut self, completed: usize)
        ensures
            final(self).completed == completed,
            final(self).total == old(self).total,
            final(self).cancelled == old(self).cancelled,
            final(self).app_id == old(self).app_id,
    {
        self.completed = completed;
    }

    /// Records a result received; it replaces an earlier result for the same file.
    pub fn record_result(&mut self, result: HashCheckResult)
        ensures
            exists|i: int|
                0 <= i < final(self).results@.len() && #[trigger] final(self).results@[i] == result,
            forall|i: int|
                0 <= i < final(self).results@.len() ==> (#[trigger] final(self).results@[i]).filename@
                    != result.filename@ || final(self).results@[i] == result,
            forall|i: int|
                0 <= i < old(self).results@.len() && (#[trigger] old(self).results@[i]).filename@
                    != result.filename@ ==> final(self).results@.contains(old(self).results@[i]),
            final(self).completed == old(self).completed,
            final(self).total == old(self).total,
            final(self).cancelled == old(self).cancelled,
            final(self).app_id == old(self).app_id,
    {
        let mut kept: Vec<HashCheckResult> = Vec::new();
        let n = self.results.len();
        let mut i: usize = 0;
        while i < n
            invariant
                n == old(self).results@.len(),
                self.results == old(self).results,
                i <= n,
                forall|k: int| 0 <= k < kept@.len() ==> (#[trigger] kept@[k]).filename@ != result.filename@,
                forall|k: int|
                    0 <= k < i && (#[trigger] old(self).results@[k]).filename@ != result.filename@
                        ==> kept@.contains(old(self).results@[k]),
            decreases n - i,
        {
            let r = &self.results[i];
            if !crate::text::str_eq(r.filename.as_str(), result.filename.as_str()) {
                let copy = HashCheckResult {
                    filename: r.filename.clone(),
                    local_hash: copy_opt(&r.local_hash),
                    cloud_hash: copy_opt(&r.cloud_hash),
                    error: copy_opt(&r.error),
                };
                assert(copy == old(self).results@[i as int]);
                let ghost kb = kept@;
                kept.push(copy);
                assert forall|k: int| 0 <= k < i + 1 && (#[trigger] old(self).results@[k]).filename@ != result.filename@ implies kept@.contains(old(self).results@[k]) by {
                    if k < i {
                        let m = choose|m: int| 0 <= m < kb.len() && kb[m] == old(self).results@[k];
                        assert(kept@[m] == kb[m]);
                    } else {
                        assert(kept@[kept@.len() - 1] == copy);
                    }
                }
            }
            i = i + 1;
        }
        let ghost before = kept@;
        kept.push(result);
        assert(kept@[kept@.len() - 1] == result);
        assert forall|k: int| 0 <= k < i && (#[trigger] old(self).results@[k]).filename@ != result.filename@ implies kept@.contains(old(self).results@[k]) by {
            assert(before.contains(old(self).results@[k]));
            let m = choose|m: int| 0 <= m < before.len() && before[m] == old(self).results@[k];
            assert(kept@[m] == before[m]);
        }
        self.results = kept;
    }

    /// Whether results are still being received: checks were started with at
    /// least one task and not cancelled since.
    pub open spec fn receiving(self) -> bool {
        !self.cancelled && self.total > 0
    }

    /// Takes the results that arrived since the last call, in order. While
    /// results are being received, each is recorded (a later one for the same
    /// file replaces an earlier one) and all are returned; otherwise nothing is
    /// taken and nothing is returned.
    pub fn poll(&mut self, received: Vec<HashCheckResult>) -> (r: Vec<HashCheckResult>)
        ensures
            old(self).receiving() ==> r@ == received@,
            !old(self).receiving() ==> r@.len() == 0 && *final(self) == *old(self),
            old(self).receiving() ==> forall|i: int|
                0 <= i < received@.len() && (forall|j: int|
                    i < j < received@.len() ==> (#[trigger] received@[j]).filename@ != received@[i].filename@)
                    ==> final(self).results@.contains(#[trigger] received@[i]),
            old(self).receiving() ==> forall|k: int|
                0 <= k < old(self).results@.len() && (forall|j: int|
                    0 <= j < received@.len() ==> (#[trigger] received@[j]).filename@
                        != old(self).results@[k].filename@) ==> final(self).results@.contains(
                    #[trigger] old(self).results@[k],
                ),
            final(self).completed == old(self).completed,
            final(self).total == old(self).total,
            final(self).cancelled == old(self).cancelled,
            final(self).app_id == old(self).app_id,
    {
        if self.cancelled || self.total == 0 {
            return Vec::new();
        }
        let n = received.len();
        let mut i: usize = 0;
        while i < n
            invariant
                n == received@.len(),
                i <= n,
                self.completed == old(self).completed,
                self.total == old(self).total,
                self.cancelled == old(self).cancelled,
                self.app_id == old(self).app_id,
                forall|a: int|
                    0 <= a < i && (forall|j: int|
                        a < j < i ==> (#[trigger] received@[j]).filename@ != received@[a].filename@)
                        ==> self.results@.contains(#[trigger] received@[a]),
                forall|k: int|
                    0 <= k < old(self).results@.len() && (forall|j: int|
                        0 <= j < i ==> (#[trigger] received@[j]).filename@ != old(self).results@[k].filename@)
                        ==> self.results@.contains(#[trigger] old(self).results@[k]),
            decreases n - i,
        {
            let item = &received[i];
            let copy = HashCheckResult {
                filename: item.filename.clone(),
                local_hash: copy_opt(&item.local_hash),
                cloud_hash: copy_opt(&item.cloud_hash),
                error: copy_opt(&item.error),
            };
            assert(copy == received@[i as int]);
            let ghost before = self.results@;
            self.record_result(copy);
            assert forall|a: int|
                0 <= a < i + 1 && (forall|j: int|
                    a < j < i + 1 ==> (#[trigger] received@[j]).filename@ != received@[a].filename@)
                    implies self.results@.contains(#[trigger] received@[a]) by {
                if a == i as int {
                    let m = choose|m: int| 0 <= m < self.results@.len() && self.results@[m] == copy;
                    assert(self.results@[m] == received@[a]);
                } else {
                    assert(received@[i as int].filename@ != received@[a].filename@);
                    assert(before.contains(received@[a]));
                    let m = choose|m: int| 0 <= m < before.len() && before[m] == received@[a];
                    assert(before[m].filename@ != copy.filename@);
                }
            }
            assert forall|k: int|
                0 <= k < old(self).results@.len() && (forall|j: int|
                    0 <= j < i + 1 ==> (#[trigger] received@[j]).filename@ != old(self).results@[k].filename@)
                    implies self.results@.contains(#[trigger] old(self).results@[k]) by {
                assert(received@[i as int].filename@ != old(self).results@[k].filename@);
                assert(before.contains(old(self).results@[k]));
                let m = choose|m: int| 0 <= m < before.len() && before[m] == old(self).results@[k];
                assert(before[m].filename@ != copy.filename@);
            }
            i = i + 1;
        }
        received
    }

    /// Whether every task is done (and there was one).
    pub fn is_completed(&self) -> (r: bool)
        ensures
            r == (self.total > 0 && self.completed >= self.total),
    {
        self.total > 0 && self.completed >= self.total
    }

    /// Whether checks are under way: some task is not done and the checks were
    /// not cancelled.
    pub fn is_running(&self) -> (r: bool)
        ensures
            r == (self.total > 0 && self.completed < self.total && !self.cancelled),
    {
        self.total > 0 && self.completed < self.total && !self.cancelled
    }

    /// The game being checked.
    pub fn get_app_id(&self) -> (r: u32)
        ensures
            r == self.app_id,
    {
        self.app_id
    }
}

} // verus!
