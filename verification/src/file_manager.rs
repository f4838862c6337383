//! File operations on a game's cloud files: building the file list from
//! Steam's records, merging what the Steam web store reports, choosing the
//! files an operation acts on, reporting its outcome, and the upload queue.
//! The operations themselves go through Steam elsewhere and report back.
use vstd::prelude::*;
use vstd::string::*;
use crate::steam_api::CloudFile;

verus! {

/// One file as Steam's `remotecache.vdf` records it: name, size, time of last
/// change (seconds since the Unix epoch, 0 when unknown), sync state and root.
#[derive(Debug, Clone)]
pub struct VdfFileEntry {
    pub filename: String,
    pub size: u64,
    pub timestamp: i64,
    pub sync_state: u32,
    pub root: u32,
}

/// The cloud file a `remotecache.vdf` record describes; `exists` tells whether
/// its local copy is on disk and `now` is the current time. An unknown time
/// reads as now; sync state 2 means Steam keeps it in the cloud.
pub fn build_cloud_file_from_vdf(entry: VdfFileEntry, exists: bool, now: i64) -> (r: CloudFile)
    ensures
        r.name == entry.filename,
        r.size == entry.size,
        r.timestamp == (if entry.timestamp > 0 { entry.timestamp } else { now }),
        r.is_persisted == (entry.sync_state == 2),
        r.root == entry.root,
        r.root_description@ == crate::path_resolver::named_root_description(
            crate::path_resolver::root_type_name(entry.root),
            entry.root,
        ),
        r.exists == exists,
        !r.conflict,
{
    let timestamp = if entry.timestamp > 0 { entry.timestamp } else { now };
    let root_description = crate::path_resolver::get_root_description(entry.root);
    CloudFile {
        name: entry.filename,
        size: entry.size,
        timestamp,
        is_persisted: entry.sync_state == 2,
        exists,
        root: entry.root,
        root_description,
        conflict: false,
    }
}

/// The display name of an operating system (`macos`, `windows`, `linux`).
pub fn get_platform_name(os: &str) -> (r: &'static str)
    ensures
        r@ == (if os@ == "macos"@ {
            "macOS"@
        } else if os@ == "windows"@ {
            "Windows"@
        } else if os@ == "linux"@ {
            "Linux"@
        } else {
            "Unknown"@
        }),
{
    if crate::text::str_eq(os, "macos") {
        "macOS"
    } else if crate::text::str_eq(os, "windows") {
        "Windows"
    } else if crate::text::str_eq(os, "linux") {
        "Linux"
    } else {
        "Unknown"
    }
}

/// The position of the last file named `name` among the first `n` files.
pub open spec fn last_named(files: Seq<CloudFile>, name: Seq<char>, n: int) -> Option<int>
    decreases n,
{
    if n <= 0 || n > files.len() {
        None
    } else if files[n - 1].name@ == name {
        Some(n - 1)
    } else {
        last_named(files, name, n - 1)
    }
}

/// Whether the folder part of a `CDP:<url>|<folder>` root description is
/// filled in.
pub open spec fn cdp_folder_filled(d: Seq<char>) -> bool {
    crate::text::starts_with(d, "CDP:"@) && crate::path_resolver::cdp_root_parts(d).1.len() > 0
}

/// A file updated with what the store reports of it: its size, its time
/// unless the store's time is within a minute of `now` (a time the store
/// could not read), its root description when the store's names a folder; it
/// is kept in the cloud.
pub open spec fn merged_file(f: CloudFile, c: CloudFile, now: i64) -> CloudFile {
    let diff = now - c.timestamp;
    let abs = if diff < 0 { -diff } else { diff };
    CloudFile {
        size: c.size,
        timestamp: if abs > 60 { c.timestamp } else { f.timestamp },
        is_persisted: true,
        root_description: if cdp_folder_filled(c.root_description@) {
            c.root_description
        } else {
            f.root_description
        },
        ..f
    }
}

/// The file list after the store's files from position `k` on are merged in:
/// a file of the original list with the same name (the last such) is updated,
/// other files are added at the end.
pub open spec fn merge_from(files: Seq<CloudFile>, n0: int, cdp: Seq<CloudFile>, k: int, now: i64) -> Seq<CloudFile>
    decreases cdp.len() - k,
{
    if k < 0 || k >= cdp.len() {
        files
    } else {
        let next = match last_named(files, cdp[k].name@, n0) {
            Some(i) => files.update(i, merged_file(files[i], cdp[k], now)),
            None => files.push(cdp[k]),
        };
        merge_from(next, n0, cdp, k + 1, now)
    }
}

/// Whether two cloud files are equal in every field, strings by their characters.
pub open spec fn same_file(a: CloudFile, b: CloudFile) -> bool {
    a.name@ == b.name@ && a.size == b.size && a.timestamp == b.timestamp && a.is_persisted
        == b.is_persisted && a.exists == b.exists && a.root == b.root && a.root_description@
        == b.root_description@ && a.conflict == b.conflict
}

/// Whether two file lists are equal file by file.
pub open spec fn same_files(a: Seq<CloudFile>, b: Seq<CloudFile>) -> bool {
    a.len() == b.len() && forall|i: int| 0 <= i < a.len() ==> same_file(#[trigger] a[i], b[i])
}

proof fn lemma_last_named_congruent(a: Seq<CloudFile>, b: Seq<CloudFile>, name: Seq<char>, n: int)
    requires
        same_files(a, b),
    ensures
        last_named(a, name, n) == last_named(b, name, n),
    decreases n,
{
    if n > 0 && n <= a.len() {
        assert(same_file(a[n - 1], b[n - 1]));
        lemma_last_named_congruent(a, b, name, n - 1);
    }
}

proof fn lemma_last_named_bounds(files: Seq<CloudFile>, name: Seq<char>, n: int)
    ensures
        last_named(files, name, n) matches Some(i) ==> 0 <= i < n && i < files.len()
            && files[i].name@ == name,
    decreases n,
{
    if n > 0 && n <= files.len() && files[n - 1].name@ != name {
        lemma_last_named_bounds(files, name, n - 1);
    }
}

proof fn lemma_merge_congruent(a: Seq<CloudFile>, b: Seq<CloudFile>, n0: int, cdp: Seq<CloudFile>, k: int, now: i64)
    requires
        same_files(a, b),
    ensures
        same_files(merge_from(a, n0, cdp, k, now), merge_from(b, n0, cdp, k, now)),
    decreases cdp.len() - k,
{
    if 0 <= k < cdp.len() {
        lemma_last_named_congruent(a, b, cdp[k].name@, n0);
        lemma_last_named_bounds(a, cdp[k].name@, n0);
        let na = match last_named(a, cdp[k].name@, n0) {
            Some(i) => a.update(i, merged_file(a[i], cdp[k], now)),
            None => a.push(cdp[k]),
        };
        let nb = match last_named(b, cdp[k].name@, n0) {
            Some(i) => b.update(i, merged_file(b[i], cdp[k], now)),
            None => b.push(cdp[k]),
        };
        assert(same_files(na, nb)) by {
            assert forall|j: int| 0 <= j < na.len() implies same_file(#[trigger] na[j], nb[j]) by {
                if j < a.len() {
                    assert(same_file(a[j], b[j]));
                }
            }
        }
        lemma_merge_congruent(na, nb, n0, cdp, k + 1, now);
    }
}

/// A copy of a cloud file.
fn copy_file(f: &CloudFile) -> (r: CloudFile)
    ensures
        same_file(r, *f),
{
    CloudFile {
        name: f.name.clone(),
        size: f.size,
        timestamp: f.timestamp,
        is_persisted: f.is_persisted,
        exists: f.exists,
        root: f.root,
        root_description: f.root_description.clone(),
        conflict: f.conflict,
    }
}

/// Merges the files the Steam store reports into the file list (see
/// [`merge_from`]); `now` is the current time in seconds since the Unix epoch.
pub fn merge_cdp_files(files: Vec<CloudFile>, cdp_files: Vec<CloudFile>, now: i64) -> (r: Vec<CloudFile>)
    ensures
        same_files(r@, merge_from(files@, files@.len() as int, cdp_files@, 0, now)),
{
    let n0 = files.len();
    let mut out = files;
    let ghost orig = out@;
    let mut k: usize = 0;
    assert(same_files(out@, orig));
    assert(merge_from(orig, n0 as int, cdp_files@, 0, now) == merge_from(orig, n0 as int, cdp_files@, 0, now));
    while k < cdp_files.len()
        invariant
            n0 == orig.len(),
            n0 <= out@.len(),
            k <= cdp_files@.len(),
            forall|j: int| 0 <= j < n0 ==> (#[trigger] out@[j]).name@ == orig[j].name@,
            exists|cur: Seq<CloudFile>| same_files(out@, cur) && #[trigger] merge_from(cur, n0 as int, cdp_files@, k as int, now)
                == merge_from(orig, n0 as int, cdp_files@, 0, now),
        decreases cdp_files.len() - k,
    {
        let ghost cur = choose|cur: Seq<CloudFile>| same_files(out@, cur) && #[trigger] merge_from(cur, n0 as int, cdp_files@, k as int, now)
            == merge_from(orig, n0 as int, cdp_files@, 0, now);
        let c = &cdp_files[k];
        let mut idx = n0;
        let mut found = false;
        while idx > 0 && !found
            invariant
                idx <= n0 <= out@.len(),
                same_files(out@, cur),
                !found ==> last_named(out@, c.name@, n0 as int) == last_named(out@, c.name@, idx as int),
                found ==> last_named(out@, c.name@, n0 as int) == Some(idx as int) && idx < n0,
            decreases idx + (if found { 0int } else { 1int }),
        {
            if crate::text::str_eq(out[idx - 1].name.as_str(), c.name.as_str()) {
                idx = idx - 1;
                found = true;
            } else {
                idx = idx - 1;
            }
        }
        proof {
            lemma_last_named_congruent(out@, cur, c.name@, n0 as int);
            lemma_last_named_bounds(out@, c.name@, n0 as int);
        }
        let ghost next = match last_named(cur, c.name@, n0 as int) {
            Some(i) => cur.update(i, merged_file(cur[i], *c, now)),
            None => cur.push(*c),
        };
        if found {
            let f = &out[idx];
            let diff: i128 = now as i128 - c.timestamp as i128;
            let abs: i128 = if diff < 0 { -diff } else { diff };
            let timestamp = if abs > 60 { c.timestamp } else { f.timestamp };
            let keep_desc = crate::text::str_starts_with(c.root_description.as_str(), "CDP:") && {
                let (_, folder) = crate::path_resolver::parse_cdp_root_description(c.root_description.as_str());
                folder.unicode_len() > 0
            };
            let root_description = if keep_desc {
                c.root_description.clone()
            } else {
                f.root_description.clone()
            };
            let updated = CloudFile {
                name: f.name.clone(),
                size: c.size,
                timestamp,
                is_persisted: true,
                exists: f.exists,
                root: f.root,
                root_description,
                conflict: f.conflict,
            };
            assert(same_file(cur[idx as int], out@[idx as int]));
            out.set(idx, updated);
            assert(same_files(out@, next)) by {
                assert forall|j: int| 0 <= j < out@.len() implies same_file(#[trigger] out@[j], next[j]) by {
                    if j != idx {
                        assert(same_file(out@[j], cur[j]));
                    }
                }
            }
        } else {
            out.push(copy_file(c));
            assert(same_files(out@, next)) by {
                assert forall|j: int| 0 <= j < out@.len() implies same_file(#[trigger] out@[j], next[j]) by {
                    if j < cur.len() {
                        assert(same_file(out@[j], cur[j]));
                    }
                }
            }
        }
        assert(merge_from(next, n0 as int, cdp_files@, k + 1, now) == merge_from(orig, n0 as int, cdp_files@, 0, now));
        k = k + 1;
    }
    proof {
        let cur = choose|cur: Seq<CloudFile>| same_files(out@, cur) && #[trigger] merge_from(cur, n0 as int, cdp_files@, k as int, now)
            == merge_from(orig, n0 as int, cdp_files@, 0, now);
        assert(merge_from(cur, n0 as int, cdp_files@, k as int, now) == cur);
    }
    out
}

/// The outcome of a Steam operation on one file: done (`Ok(true)`), refused
/// (`Ok(false)`) or failed with a message.
pub open spec fn outcome_failure(name: Seq<char>, o: Result<bool, String>) -> Option<Seq<char>> {
    match o {
        Ok(true) => None,
        Ok(false) => Some(name),
        Err(e) => Some(name + " (错误: "@ + e@ + ")"@),
    }
}

/// The failures among the first `k` outcomes, in order.
pub open spec fn batch_failures(names: Seq<String>, outcomes: Seq<Result<bool, String>>, k: int) -> Seq<Seq<char>>
    decreases k,
{
    if k <= 0 {
        Seq::empty()
    } else {
        batch_failures(names, outcomes, k - 1) + match outcome_failure(names[k - 1]@, outcomes[k - 1]) {
            Some(f) => seq![f],
            None => Seq::<Seq<char>>::empty(),
        }
    }
}

/// The number of done operations among the first `k` outcomes.
pub open spec fn batch_successes(outcomes: Seq<Result<bool, String>>, k: int) -> nat
    decreases k,
{
    if k <= 0 {
        0
    } else {
        batch_successes(outcomes, k - 1) + (if outcomes[k - 1] == Ok::<bool, String>(true) { 1nat } else { 0nat })
    }
}

/// The tally of an operation on several files: how many were done, and for
/// each failure the file name (with the message when there is one).
pub fn batch_operation(filenames: &[String], outcomes: &[Result<bool, String>]) -> (r: (usize, Vec<String>))
    requires
        filenames@.len() == outcomes@.len(),
    ensures
        r.0 == batch_successes(outcomes@, outcomes@.len() as int),
        crate::config::strings_view(r.1@) == batch_failures(filenames@, outcomes@, outcomes@.len() as int),
{
    let mut count: usize = 0;
    let mut failed: Vec<String> = Vec::new();
    let mut i: usize = 0;
    while i < outcomes.len()
        invariant
            filenames@.len() == outcomes@.len(),
            i <= outcomes@.len(),
            count == batch_successes(outcomes@, i as int),
            count <= i,
            crate::config::strings_view(failed@) == batch_failures(filenames@, outcomes@, i as int),
        decreases outcomes.len() - i,
    {
        let ghost before = crate::config::strings_view(failed@);
        match &outcomes[i] {
            Ok(true) => {
                count = count + 1;
            },
            Ok(false) => {
                failed.push(filenames[i].clone());
                assert(crate::config::strings_view(failed@) =~= before.push(filenames@[i as int]@));
            },
            Err(e) => {
                let mut s = filenames[i].clone();
                s.append(" (错误: ");
                s.append(e.as_str());
                s.append(")");
                failed.push(s);
                assert(crate::config::strings_view(failed@) =~= before.push(
                    filenames@[i as int]@ + " (错误: "@ + e@ + ")"@,
                ));
            },
        }
        assert(crate::config::strings_view(failed@) =~= batch_failures(filenames@, outcomes@, i + 1));
        i = i + 1;
    }
    (count, failed)
}

/// What an operation on selected files reports: an error message, or a
/// success message after which the file list is read again.
#[derive(Debug, Clone)]
pub enum FileOperationResult {
    Error(String),
    SuccessWithRefresh(String),
}

/// The message of an operation result, and whether it is a success.
pub open spec fn op_view(r: FileOperationResult) -> (bool, Seq<char>) {
    match r {
        FileOperationResult::Error(m) => (false, m@),
        FileOperationResult::SuccessWithRefresh(m) => (true, m@),
    }
}

/// The selected positions that designate a file, in order of selection.
pub open spec fn valid_selection(len: nat, selected: Seq<usize>) -> Seq<usize>
    decreases selected.len(),
{
    if selected.len() == 0 {
        Seq::empty()
    } else {
        valid_selection(len, selected.drop_last()) + (if selected.last() < len {
            seq![selected.last()]
        } else {
            Seq::<usize>::empty()
        })
    }
}

/// The names of the selected files (positions past the list are passed over).
pub fn selected_names(files: &[CloudFile], selected: &[usize]) -> (r: Vec<String>)
    ensures
        crate::config::strings_view(r@) == valid_selection(files@.len(), selected@).map_values(
            |i: usize| files@[i as int].name@,
        ),
{
    let mut out: Vec<String> = Vec::new();
    let mut k: usize = 0;
    assert(selected@.take(0) =~= Seq::<usize>::empty());
    while k < selected.len()
        invariant
            k <= selected@.len(),
            crate::config::strings_view(out@) == valid_selection(files@.len(), selected@.take(k as int)).map_values(
                |i: usize| files@[i as int].name@,
            ),
        decreases selected.len() - k,
    {
        assert(selected@.take(k + 1).drop_last() =~= selected@.take(k as int));
        let i = selected[k];
        let ghost vs = valid_selection(files@.len(), selected@.take(k as int));
        let ghost before = crate::config::strings_view(out@);
        assert(selected@.take(k + 1).last() == i);
        if i < files.len() {
            out.push(files[i].name.clone());
            assert(valid_selection(files@.len(), selected@.take(k + 1)) =~= vs.push(i));
            assert(vs.push(i).map_values(|i: usize| files@[i as int].name@) =~= vs.map_values(
                |i: usize| files@[i as int].name@,
            ).push(files@[i as int].name@));
            assert(crate::config::strings_view(out@) =~= before.push(files@[i as int].name@));
        } else {
            assert(valid_selection(files@.len(), selected@.take(k + 1)) =~= vs);
        }
        assert(crate::config::strings_view(out@) =~= valid_selection(files@.len(), selected@.take(k + 1)).map_values(
            |i: usize| files@[i as int].name@,
        ));
        k = k + 1;
    }
    assert(selected@.take(selected@.len() as int) =~= selected@);
    out
}

/// `<prefix><names joined by ", ">`.
fn failure_message(prefix: &str, failed: &[String]) -> (r: String)
    ensures
        r@ == prefix@ + crate::text::join_with(crate::config::strings_view(failed@), ", "@),
{
    let mut s = String::from_str(prefix);
    let ghost fv = crate::config::strings_view(failed@);
    let mut i: usize = 0;
    assert(fv.take(0) =~= Seq::<Seq<char>>::empty());
    while i < failed.len()
        invariant
            fv == crate::config::strings_view(failed@),
            i <= failed@.len(),
            s@ == prefix@ + crate::text::join_with(fv.take(i as int), ", "@),
        decreases failed.len() - i,
    {
        let ghost before = s@;
        if i > 0 {
            s.append(", ");
        }
        s.append(failed[i].as_str());
        proof {
            let t = fv.take(i + 1);
            assert(t.drop_last() =~= fv.take(i as int));
            assert(t.last() == failed@[i as int]@);
            if i == 0 {
                assert(fv.take(0) =~= Seq::<Seq<char>>::empty());
                assert(s@ =~= prefix@ + crate::text::join_with(t, ", "@));
            } else {
                assert(s@ =~= prefix@ + crate::text::join_with(t, ", "@));
            }
        }
        i = i + 1;
    }
    assert(fv.take(fv.len() as int) =~= fv);
    s
}

/// `<before><n><after>`.
fn count_message(before: &str, n: usize, after: &str) -> (r: String)
    ensures
        r@ == before@ + crate::text::decimal(n as nat) + after@,
{
    let mut s = String::from_str(before);
    crate::text::append_decimal(&mut s, n as u64);
    s.append(after);
    s
}

/// The report of removing files from the cloud: nothing selected, some
/// failures (listed), files removed, or none removed.
pub fn forget_by_indices_result(selected_count: usize, forgotten_count: usize, failed: &[String]) -> (r: FileOperationResult)
    ensures
        op_view(r) == (if selected_count == 0 {
            (false, "请选择要移出云端的文件"@)
        } else if failed@.len() > 0 {
            (false, "部分文件移出云端失败: "@ + crate::text::join_with(crate::config::strings_view(failed@), ", "@))
        } else if forgotten_count > 0 {
            (true, "已移出云端 "@ + crate::text::decimal(forgotten_count as nat) + " 个文件"@)
        } else {
            (false, "没有文件被移出云端"@)
        }),
{
    if selected_count == 0 {
        FileOperationResult::Error(String::from_str("请选择要移出云端的文件"))
    } else if failed.len() > 0 {
        FileOperationResult::Error(failure_message("部分文件移出云端失败: ", failed))
    } else if forgotten_count > 0 {
        FileOperationResult::SuccessWithRefresh(count_message("已移出云端 ", forgotten_count, " 个文件"))
    } else {
        FileOperationResult::Error(String::from_str("没有文件被移出云端"))
    }
}

/// The selected files split for deleting: the names of those Steam keeps in
/// the cloud (deleted through Steam) and the positions of the others (deleted
/// on disk), each in order of selection.
pub fn partition_for_delete(files: &[CloudFile], selected: &[usize]) -> (r: (Vec<String>, Vec<usize>))
    ensures
        crate::config::strings_view(r.0@) == valid_selection(files@.len(), selected@).filter(
            |i: usize| files@[i as int].is_persisted,
        ).map_values(|i: usize| files@[i as int].name@),
        r.1@ == valid_selection(files@.len(), selected@).filter(|i: usize| !files@[i as int].is_persisted),
{
    let ghost keep = |i: usize| files@[i as int].is_persisted;
    let ghost local = |i: usize| !files@[i as int].is_persisted;
    let mut cloud: Vec<String> = Vec::new();
    let mut local_only: Vec<usize> = Vec::new();
    let mut k: usize = 0;
    proof {
        reveal(Seq::filter);
    }
    assert(selected@.take(0) =~= Seq::<usize>::empty());
    assert(Seq::<usize>::empty().filter(keep) =~= Seq::<usize>::empty());
    assert(Seq::<usize>::empty().filter(local) =~= Seq::<usize>::empty());
    while k < selected.len()
        invariant
            k <= selected@.len(),
            keep == (|i: usize| files@[i as int].is_persisted),
            local == (|i: usize| !files@[i as int].is_persisted),
            crate::config::strings_view(cloud@) == valid_selection(files@.len(), selected@.take(k as int)).filter(
                keep,
            ).map_values(|i: usize| files@[i as int].name@),
            local_only@ == valid_selection(files@.len(), selected@.take(k as int)).filter(local),
        decreases selected.len() - k,
    {
        assert(selected@.take(k + 1).drop_last() =~= selected@.take(k as int));
        let ghost vs = valid_selection(files@.len(), selected@.take(k as int));
        let i = selected[k];
        assert(selected@.take(k + 1).last() == i);
        if i < files.len() {
            assert(valid_selection(files@.len(), selected@.take(k + 1)) =~= vs.push(i));
            proof {
                lemma_filter_push(vs, keep, i);
                lemma_filter_push(vs, local, i);
            }
            let ghost before = crate::config::strings_view(cloud@);
            if files[i].is_persisted {
                cloud.push(files[i].name.clone());
            } else {
                local_only.push(i);
            }
            proof {
                if keep(i) {
                    assert(vs.filter(keep).push(i).map_values(|i: usize| files@[i as int].name@) =~= vs.filter(
                        keep,
                    ).map_values(|i: usize| files@[i as int].name@).push(files@[i as int].name@));
                    assert(crate::config::strings_view(cloud@) =~= before.push(files@[i as int].name@));
                }
            }
            assert(crate::config::strings_view(cloud@) =~= vs.push(i).filter(keep).map_values(
                |i: usize| files@[i as int].name@,
            ));
            assert(local_only@ =~= vs.push(i).filter(local));
        } else {
            assert(valid_selection(files@.len(), selected@.take(k + 1)) =~= vs);
        }
        k = k + 1;
    }
    assert(selected@.take(selected@.len() as int) =~= selected@);
    (cloud, local_only)
}

proof fn lemma_filter_push(s: Seq<usize>, p: spec_fn(usize) -> bool, x: usize)
    ensures
        s.push(x).filter(p) == (if p(x) {
            s.filter(p).push(x)
        } else {
            s.filter(p)
        }),
{
    reveal(Seq::filter);
    assert(s.push(x).drop_last() =~= s);
}

/// The report of deleting files: nothing selected, some failures (listed),
/// files deleted, or none deleted.
pub fn delete_by_indices_result(selected_count: usize, total_deleted: usize, failed: &[String]) -> (r: FileOperationResult)
    ensures
        op_view(r) == (if selected_count == 0 {
            (false, "请选择要删除的文件"@)
        } else if failed@.len() > 0 {
            (false, "部分文件删除失败: "@ + crate::text::join_with(crate::config::strings_view(failed@), ", "@))
        } else if total_deleted > 0 {
            (true, "已删除 "@ + crate::text::decimal(total_deleted as nat) + " 个文件"@)
        } else {
            (false, "没有文件被删除"@)
        }),
{
    if selected_count == 0 {
        FileOperationResult::Error(String::from_str("请选择要删除的文件"))
    } else if failed.len() > 0 {
        FileOperationResult::Error(failure_message("部分文件删除失败: ", failed))
    } else if total_deleted > 0 {
        FileOperationResult::SuccessWithRefresh(count_message("已删除 ", total_deleted, " 个文件"))
    } else {
        FileOperationResult::Error(String::from_str("没有文件被删除"))
    }
}

/// The report of uploading local-only files: nothing selected, some failures
/// (listed), files uploaded, all selected files already in the cloud, or none
/// uploaded.
pub fn sync_to_cloud_result(
    selected_count: usize,
    synced_count: usize,
    skipped_count: usize,
    failed: &[String],
) -> (r: FileOperationResult)
    ensures
        op_view(r) == (if selected_count == 0 {
            (false, "请选择要同步的文件"@)
        } else if failed@.len() > 0 {
            (false, "部分文件同步失败: "@ + crate::text::join_with(crate::config::strings_view(failed@), ", "@))
        } else if synced_count > 0 {
            (true, "已同步 "@ + crate::text::decimal(synced_count as nat) + " 个文件到云端"@)
        } else if skipped_count > 0 {
            (false, "所有 "@ + crate::text::decimal(skipped_count as nat) + " 个文件已在云端，无需同步"@)
        } else {
            (false, "没有文件被同步"@)
        }),
{
    if selected_count == 0 {
        FileOperationResult::Error(String::from_str("请选择要同步的文件"))
    } else if failed.len() > 0 {
        FileOperationResult::Error(failure_message("部分文件同步失败: ", failed))
    } else if synced_count > 0 {
        FileOperationResult::SuccessWithRefresh(count_message("已同步 ", synced_count, " 个文件到云端"))
    } else if skipped_count > 0 {
        FileOperationResult::Error(count_message("所有 ", skipped_count, " 个文件已在云端，无需同步"))
    } else {
        FileOperationResult::Error(String::from_str("没有文件被同步"))
    }
}

/// The largest file that can be uploaded: 100 MiB.
pub const MAX_FILE_SIZE: u64 = 104857600;

/// Where an upload stands.
#[derive(Debug, Clone, Copy, PartialEq, Eq, Structural)]
pub enum TaskStatus {
    Pending,
    Retrying(usize),
    Success,
    Failed,
}

/// One file to upload: where it is, its cloud name, its size, where its upload
/// stands, how many attempts were made and the last error.
#[derive(Debug, Clone)]
pub struct UploadTask {
    pub local_path: String,
    pub cloud_path: String,
    pub size: u64,
    pub status: TaskStatus,
    pub retry_count: usize,
    pub error: Option<String>,
}

/// Why a file was not queued.
#[derive(Debug, Clone)]
pub enum UploadError {
    /// The file at `path` is larger than [`MAX_FILE_SIZE`].
    TooLarge { path: String, size: u64 },
}

/// The files to upload and the cloud folder they go into, if any.
pub struct UploadQueue {
    pub tasks: Vec<UploadTask>,
    pub virtual_root: Option<String>,
}

/// The cloud name of a file queued on its own: behind the cloud folder when
/// there is one.
pub open spec fn queued_cloud_path(virtual_root: Option<String>, file_name: Seq<char>) -> Seq<char> {
    match virtual_root {
        Some(root) => root@ + "/"@ + file_name,
        None => file_name,
    }
}

/// The cloud name of a file found in a queued folder: folder name and path
/// below it (just the folder name for an empty path), behind the cloud folder
/// when there is one.
pub open spec fn folder_cloud_path_of(virtual_root: Option<String>, folder_name: Seq<char>, relative: Seq<char>) -> Seq<char> {
    let inner = if relative.len() == 0 { folder_name } else { folder_name + "/"@ + relative };
    match virtual_root {
        Some(root) => root@ + "/"@ + inner,
        None => inner,
    }
}

/// The sum of the sizes of upload tasks.
pub open spec fn tasks_size(ts: Seq<UploadTask>) -> int
    decreases ts.len(),
{
    if ts.len() == 0 {
        0
    } else {
        tasks_size(ts.drop_last()) + ts.last().size
    }
}

impl UploadQueue {
    /// An empty queue without cloud folder.
    pub fn new() -> (r: Self)
        ensures
            r.tasks@.len() == 0,
            r.virtual_root is None,
    {
        UploadQueue { tasks: Vec::new(), virtual_root: None }
    }

    /// Queues the file at `local_path`, named `file_name`, of `size` bytes;
    /// a file larger than [`MAX_FILE_SIZE`] is refused.
    pub fn add_file(&mut self, local_path: String, file_name: &str, size: u64) -> (r: Result<(), UploadError>)
        ensures
            size > MAX_FILE_SIZE ==> (r matches Err(UploadError::TooLarge { path, size: s }) && path == local_path
                && s == size && final(self).tasks == old(self).tasks),
            size <= MAX_FILE_SIZE ==> (r is Ok && final(self).tasks@.len() == old(self).tasks@.len() + 1
                && final(self).tasks@.subrange(0, old(self).tasks@.len() as int) == old(self).tasks@
                && final(self).tasks@.last().local_path == local_path
                && final(self).tasks@.last().cloud_path@ == queued_cloud_path(old(self).virtual_root, file_name@)
                && final(self).tasks@.last().size == size
                && final(self).tasks@.last().status == TaskStatus::Pending
                && final(self).tasks@.last().retry_count == 0
                && final(self).tasks@.last().error is None),
            final(self).virtual_root == old(self).virtual_root,
    {
        if size > MAX_FILE_SIZE {
            return Err(UploadError::TooLarge { path: local_path, size });
        }
        let cloud_path = match &self.virtual_root {
            Some(root) => {
                let mut s = root.clone();
                s.append("/");
                s.append(file_name);
                s
            },
            None => String::from_str(file_name),
        };
        let ghost before = self.tasks@;
        self.tasks.push(
            UploadTask { local_path, cloud_path, size, status: TaskStatus::Pending, retry_count: 0, error: None },
        );
        assert(self.tasks@.subrange(0, before.len() as int) =~= before);
        Ok(())
    }

    /// Queues a file found in a folder being queued: `folder_name` is the
    /// folder's name and `relative` the file's path below it (with `/`); files
    /// larger than [`MAX_FILE_SIZE`] are passed over. Returns whether it was queued.
    pub fn add_folder_file(&mut self, local_path: String, folder_name: &str, relative: &str, size: u64) -> (r: bool)
        ensures
            r == (size <= MAX_FILE_SIZE),
            !r ==> final(self).tasks == old(self).tasks,
            r ==> (final(self).tasks@.len() == old(self).tasks@.len() + 1
                && final(self).tasks@.subrange(0, old(self).tasks@.len() as int) == old(self).tasks@
                && final(self).tasks@.last().local_path == local_path
                && final(self).tasks@.last().cloud_path@ == folder_cloud_path_of(old(self).virtual_root, folder_name@, relative@)
                && final(self).tasks@.last().size == size
                && final(self).tasks@.last().status == TaskStatus::Pending),
            final(self).virtual_root == old(self).virtual_root,
    {
        if size > MAX_FILE_SIZE {
            return false;
        }
        let mut inner = String::from_str(folder_name);
        if relative.unicode_len() > 0 {
            inner.append("/");
            inner.append(relative);
        }
        let cloud_path = match &self.virtual_root {
            Some(root) => {
                let mut s = root.clone();
                s.append("/");
                s.append(inner.as_str());
                s
            },
            None => inner,
        };
        let ghost before = self.tasks@;
        self.tasks.push(
            UploadTask { local_path, cloud_path, size, status: TaskStatus::Pending, retry_count: 0, error: None },
        );
        assert(self.tasks@.subrange(0, before.len() as int) =~= before);
        true
    }

    /// The size of all queued files.
    pub fn total_size(&self) -> (r: u64)
        requires
            tasks_size(self.tasks@) <= u64::MAX,
        ensures
            r == tasks_size(self.tasks@),
    {
        let mut total: u64 = 0;
        let mut i: usize = 0;
        assert(self.tasks@.take(0) =~= Seq::<UploadTask>::empty());
        while i < self.tasks.len()
            invariant
                i <= self.tasks@.len(),
                tasks_size(self.tasks@) <= u64::MAX,
                total == tasks_size(self.tasks@.take(i as int)),
            decreases self.tasks.len() - i,
        {
            proof {
                assert(self.tasks@.take(i + 1).drop_last() =~= self.tasks@.take(i as int));
                lemma_tasks_size_prefix(self.tasks@, i + 1);
            }
            total = total + self.tasks[i].size;
            i = i + 1;
        }
        assert(self.tasks@.take(self.tasks@.len() as int) =~= self.tasks@);
        total
    }

    /// The number of queued files.
    pub fn total_files(&self) -> (r: usize)
        ensures
            r == self.tasks@.len(),
    {
        self.tasks.len()
    }
}

proof fn lemma_tasks_size_prefix(ts: Seq<UploadTask>, k: int)
    requires
        0 <= k <= ts.len(),
    ensures
        tasks_size(ts.take(k)) <= tasks_size(ts),
    decreases ts.len() - k,
{
    if k < ts.len() {
        lemma_tasks_size_prefix(ts, k + 1);
        assert(ts.take(k + 1).drop_last() =~= ts.take(k));
    } else {
        assert(ts.take(k) =~= ts);
    }
}

/// Whether an upload that failed on attempt `attempt` is tried again: while
/// fewer than `max_retries` attempts were made.
pub fn should_retry(attempt: usize, max_retries: usize) -> (r: bool)
    ensures
        r == (attempt < max_retries),
{
    attempt < max_retries
}

/// The outcome of an upload run.
#[derive(Debug, Clone)]
pub struct UploadResult {
    pub success_count: usize,
    pub failed_count: usize,
    pub total_size: u64,
    pub elapsed_secs: u64,
    pub failed_files: Vec<(String, String)>,
}


/// What follows an attempt to upload a file.
#[derive(Debug, Clone, Copy, PartialEq, Eq, Structural)]
pub enum AttemptStep {
    /// The file is uploaded.
    Uploaded,
    /// The attempts are used up.
    GiveUp,
    /// Wait, then try again.
    RetryLater,
}

impl UploadTask {
    /// Records attempt number `attempt` and what comes next: done after a
    /// success; after a failure, another attempt while fewer than
    /// `max_retries` were made (the task then shows that it is retrying),
    /// else giving up.
    pub fn record_attempt(&mut self, attempt: usize, succeeded: bool, max_retries: usize) -> (r: AttemptStep)
        ensures
            final(self).retry_count == attempt,
            final(self).local_path == old(self).local_path,
            final(self).cloud_path == old(self).cloud_path,
            final(self).size == old(self).size,
            final(self).error == old(self).error,
            succeeded ==> r == AttemptStep::Uploaded && final(self).status == old(self).status,
            !succeeded && !should_retry_spec(attempt, max_retries) ==> r == AttemptStep::GiveUp
                && final(self).status == old(self).status,
            !succeeded && should_retry_spec(attempt, max_retries) ==> r == AttemptStep::RetryLater
                && final(self).status == TaskStatus::Retrying(attempt),
    {
        self.retry_count = attempt;
        if succeeded {
            AttemptStep::Uploaded
        } else if !should_retry(attempt, max_retries) {
            AttemptStep::GiveUp
        } else {
            self.status = TaskStatus::Retrying(attempt);
            AttemptStep::RetryLater
        }
    }

    /// Marks the end of the upload: a success, or a failure with its message.
    pub fn finish(&mut self, outcome: Result<(), String>)
        ensures
            final(self).local_path == old(self).local_path,
            final(self).cloud_path == old(self).cloud_path,
            final(self).size == old(self).size,
            final(self).retry_count == old(self).retry_count,
            match outcome {
                Ok(()) => final(self).status == TaskStatus::Success && final(self).error == old(self).error,
                Err(e) => final(self).status == TaskStatus::Failed && final(self).error == Some(e),
            },
    {
        match outcome {
            Ok(()) => {
                self.status = TaskStatus::Success;
            },
            Err(e) => {
                self.status = TaskStatus::Failed;
                self.error = Some(e);
            },
        }
    }
}

/// Whether a failed attempt is followed by another (see [`should_retry`]).
pub open spec fn should_retry_spec(attempt: usize, max_retries: usize) -> bool {
    attempt < max_retries
}

/// The number of finished uploads among the first `n` tasks.
pub open spec fn uploaded_count(ts: Seq<UploadTask>, n: int) -> nat
    decreases n,
{
    if n <= 0 || n > ts.len() {
        0
    } else {
        uploaded_count(ts, n - 1) + (if ts[n - 1].status == TaskStatus::Success { 1nat } else { 0nat })
    }
}

/// The failed uploads among the first `n` tasks: cloud name and message.
pub open spec fn failed_uploads(ts: Seq<UploadTask>, n: int) -> Seq<(Seq<char>, Seq<char>)>
    decreases n,
{
    if n <= 0 || n > ts.len() {
        Seq::empty()
    } else {
        failed_uploads(ts, n - 1) + (if ts[n - 1].status == TaskStatus::Failed {
            seq![(ts[n - 1].cloud_path@, match ts[n - 1].error {
                Some(e) => e@,
                None => Seq::<char>::empty(),
            })]
        } else {
            Seq::<(Seq<char>, Seq<char>)>::empty()
        })
    }
}

/// The outcome of an upload run over finished tasks that took `elapsed_secs`
/// seconds: the uploads done, the failed ones with their messages, and the
/// size of all the files.
pub fn upload_result(tasks: &[UploadTask], elapsed_secs: u64) -> (r: UploadResult)
    requires
        tasks_size(tasks@) <= u64::MAX,
    ensures
        r.success_count == uploaded_count(tasks@, tasks@.len() as int),
        r.failed_files@.map_values(|p: (String, String)| (p.0@, p.1@)) == failed_uploads(tasks@, tasks@.len() as int),
        r.failed_count == r.failed_files@.len(),
        r.total_size == tasks_size(tasks@),
        r.elapsed_secs == elapsed_secs,
{
    let mut success_count: usize = 0;
    let mut failed_files: Vec<(String, String)> = Vec::new();
    let mut total_size: u64 = 0;
    let mut i: usize = 0;
    assert(tasks@.take(0) =~= Seq::<UploadTask>::empty());
    while i < tasks.len()
        invariant
            i <= tasks@.len(),
            tasks_size(tasks@) <= u64::MAX,
            success_count == uploaded_count(tasks@, i as int),
            success_count <= i,
            failed_files@.map_values(|p: (String, String)| (p.0@, p.1@)) == failed_uploads(tasks@, i as int),
            total_size == tasks_size(tasks@.take(i as int)),
        decreases tasks.len() - i,
    {
        let t = &tasks[i];
        proof {
            assert(tasks@.take(i + 1).drop_last() =~= tasks@.take(i as int));
            lemma_tasks_size_prefix(tasks@, i + 1);
        }
        total_size = total_size + t.size;
        let ghost before = failed_files@.map_values(|p: (String, String)| (p.0@, p.1@));
        match t.status {
            TaskStatus::Success => {
                success_count = success_count + 1;
            },
            TaskStatus::Failed => {
                let message = match &t.error {
                    Some(e) => e.clone(),
                    None => String::new(),
                };
                failed_files.push((t.cloud_path.clone(), message));
                assert(failed_files@.map_values(|p: (String, String)| (p.0@, p.1@)) =~= before.push(
                    (tasks@[i as int].cloud_path@, match tasks@[i as int].error {
                        Some(e) => e@,
                        None => Seq::<char>::empty(),
                    }),
                ));
            },
            _ => {},
        }
        i = i + 1;
        assert(failed_files@.map_values(|p: (String, String)| (p.0@, p.1@)) =~= failed_uploads(tasks@, i as int));
    }
    assert(tasks@.take(tasks@.len() as int) =~= tasks@);
    let failed_count = failed_files.len();
    UploadResult { success_count, failed_count, total_size, elapsed_secs, failed_files }
}

/// Whether some cloud file has the name `name`.
pub open spec fn has_cloud_name(files: Seq<CloudFile>, name: Seq<char>) -> bool {
    exists|i: int| 0 <= i < files.len() && (#[trigger] files[i]).name@ == name
}

/// Whether a cloud file has the name `name`.
fn cloud_name_present(files: &[CloudFile], name: &str) -> (r: bool)
    ensures
        r == has_cloud_name(files@, name@),
{
    let mut i: usize = 0;
    while i < files.len()
        invariant
            i <= files@.len(),
            forall|k: int| 0 <= k < i ==> (#[trigger] files@[k]).name@ != name@,
        decreases files.len() - i,
    {
        if crate::text::str_eq(files[i].name.as_str(), name) {
            return true;
        }
        i = i + 1;
    }
    false
}

/// The local files found on disk that are not among the cloud files, as
/// entries of the file list: on disk, not kept in the cloud, described by
/// their root. They come in the order found.
pub fn local_only_files(cloud: &[CloudFile], scanned: &[crate::path_resolver::ScannedLocalFile]) -> (r: Vec<CloudFile>)
    ensures
        r@.len() == scanned@.filter(|f: crate::path_resolver::ScannedLocalFile| !has_cloud_name(cloud@, f.relative_path@)).len(),
        forall|k: int|
            0 <= k < r@.len() ==> {
                let f = scanned@.filter(|f: crate::path_resolver::ScannedLocalFile| !has_cloud_name(cloud@, f.relative_path@))[k];
                &&& (#[trigger] r@[k]).name@ == f.relative_path@
                &&& r@[k].size == f.size
                &&& r@[k].timestamp == f.modified
                &&& !r@[k].is_persisted
                &&& r@[k].exists
                &&& r@[k].root == f.root_id
                &&& r@[k].root_description@ == crate::path_resolver::named_root_description(
                    crate::path_resolver::root_type_name(f.root_id),
                    f.root_id,
                )
            },
{
    let ghost p = |f: crate::path_resolver::ScannedLocalFile| !has_cloud_name(cloud@, f.relative_path@);
    let mut out: Vec<CloudFile> = Vec::new();
    let mut i: usize = 0;
    assert(scanned@.take(0) =~= Seq::<crate::path_resolver::ScannedLocalFile>::empty());
    proof {
        reveal(Seq::filter);
    }
    assert(Seq::<crate::path_resolver::ScannedLocalFile>::empty().filter(p) =~= Seq::<crate::path_resolver::ScannedLocalFile>::empty());
    while i < scanned.len()
        invariant
            i <= scanned@.len(),
            p == (|f: crate::path_resolver::ScannedLocalFile| !has_cloud_name(cloud@, f.relative_path@)),
            out@.len() == scanned@.take(i as int).filter(p).len(),
            forall|k: int|
                0 <= k < out@.len() ==> {
                    let f = scanned@.take(i as int).filter(p)[k];
                    &&& (#[trigger] out@[k]).name@ == f.relative_path@
                    &&& out@[k].size == f.size
                    &&& out@[k].timestamp == f.modified
                    &&& !out@[k].is_persisted
                    &&& out@[k].exists
                    &&& out@[k].root == f.root_id
                    &&& out@[k].root_description@ == crate::path_resolver::named_root_description(
                        crate::path_resolver::root_type_name(f.root_id),
                        f.root_id,
                    )
                },
        decreases scanned.len() - i,
    {
        let f = &scanned[i];
        proof {
            lemma_filter_push_scanned(scanned@.take(i as int), p, scanned@[i as int]);
            assert(scanned@.take(i as int).push(scanned@[i as int]) =~= scanned@.take(i + 1));
        }
        if !cloud_name_present(cloud, f.relative_path.as_str()) {
            let c = CloudFile {
                name: f.relative_path.clone(),
                size: f.size,
                timestamp: f.modified,
                is_persisted: false,
                exists: true,
                root: f.root_id,
                root_description: crate::path_resolver::get_root_description(f.root_id),
                conflict: false,
            };
            out.push(c);
        }
        i = i + 1;
    }
    assert(scanned@.take(scanned@.len() as int) =~= scanned@);
    out
}

proof fn lemma_filter_push_scanned(
    s: Seq<crate::path_resolver::ScannedLocalFile>,
    p: spec_fn(crate::path_resolver::ScannedLocalFile) -> bool,
    x: crate::path_resolver::ScannedLocalFile,
)
    ensures
        s.push(x).filter(p) == (if p(x) {
            s.filter(p).push(x)
        } else {
            s.filter(p)
        }),
{
    reveal(Seq::filter);
    assert(s.push(x).drop_last() =~= s);
}

} // verus!
