//! Downloading cloud files: the progress and the outcome of a run.
use vstd::prelude::*;
use vstd::string::*;
use crate::steam_api::CloudFile;

verus! {

/// How far a download run is: files in all, files done, the file at hand, and
/// the files that failed with the reason.
#[derive(Debug, Clone)]
pub struct DownloadProgress {
    pub total_files: usize,
    pub completed_files: usize,
    pub current_file: String,
    pub failed_files: Vec<(String, String)>,
}

impl DownloadProgress {
    /// The progress before the first of `total_files` files.
    pub fn new(total_files: usize) -> (r: Self)
        ensures
            r.total_files == total_files,
            r.completed_files == 0,
            r.current_file@.len() == 0,
            r.failed_files@.len() == 0,
    {
        DownloadProgress {
            total_files,
            completed_files: 0,
            current_file: String::new(),
            failed_files: Vec::new(),
        }
    }
}

impl DownloadProgress {
    /// Takes up the file named `name`.
    pub fn begin_file(&mut self, name: &str)
        ensures
            final(self).current_file@ == name@,
            final(self).total_files == old(self).total_files,
            final(self).completed_files == old(self).completed_files,
            final(self).failed_files == old(self).failed_files,
    {
        self.current_file = String::from_str(name);
    }

    /// Records how the download of the file named `name` ended: one more file
    /// is done, and a failure is listed with its reason.
    pub fn file_done(&mut self, name: &str, outcome: Result<(), String>)
        requires
            old(self).completed_files < usize::MAX,
        ensures
            final(self).completed_files == old(self).completed_files + 1,
            final(self).total_files == old(self).total_files,
            final(self).current_file == old(self).current_file,
            match outcome {
                Ok(()) => final(self).failed_files == old(self).failed_files,
                Err(e) => final(self).failed_files@.len() == old(self).failed_files@.len() + 1
                    && final(self).failed_files@.drop_last() == old(self).failed_files@
                    && final(self).failed_files@.last().0@ == name@
                    && final(self).failed_files@.last().1 == e,
            },
    {
        match outcome {
            Ok(()) => {},
            Err(e) => {
                let ghost before = self.failed_files@;
                self.failed_files.push((String::from_str(name), e));
                assert(self.failed_files@.drop_last() =~= before);
            },
        }
        self.completed_files = self.completed_files + 1;
    }

    /// The outcome of the run: a success when no file failed and the run was
    /// not cancelled.
    pub fn into_result(self, target_dir: String, success_count: usize, cancelled: bool) -> (r: DownloadResult)
        ensures
            r.success == (self.failed_files@.len() == 0 && !cancelled),
            r.target_dir == target_dir,
            r.total_files == self.total_files,
            r.success_count == success_count,
            r.failed_files == self.failed_files,
    {
        let success = self.failed_files.len() == 0 && !cancelled;
        DownloadResult {
            success,
            target_dir,
            total_files: self.total_files,
            success_count,
            failed_files: self.failed_files,
        }
    }
}

/// The outcome of a download run into `target_dir`.
#[derive(Debug, Clone)]
pub struct DownloadResult {
    pub success: bool,
    pub target_dir: String,
    pub total_files: usize,
    pub success_count: usize,
    pub failed_files: Vec<(String, String)>,
}


/// A file to download: the file, the path to write it to (the chosen
/// directory and the file's name) and the game's local save directories as
/// (description, directory) pairs.
#[derive(Debug)]
pub struct DownloadTask {
    pub file: CloudFile,
    pub target_parts: Vec<String>,
    pub local_save_paths: Vec<(String, String)>,
}

/// A copy of a list of (description, directory) pairs.
fn copy_pairs(v: &[(String, String)]) -> (r: Vec<(String, String)>)
    ensures
        r@ == v@,
{
    let mut r: Vec<(String, String)> = Vec::new();
    let mut i: usize = 0;
    while i < v.len()
        invariant
            i <= v@.len(),
            r@ == v@.take(i as int),
        decreases v@.len() - i,
    {
        let p = (v[i].0.clone(), v[i].1.clone());
        r.push(p);
        assert(v@.take(i + 1) =~= v@.take(i as int).push(v@[i as int]));
        i = i + 1;
    }
    assert(v@.take(v@.len() as int) =~= v@);
    r
}

/// The download tasks of the selected files (positions past the list are
/// passed over), each written below `base_dir` under its own name.
pub fn prepare_download_tasks(
    files: &[CloudFile],
    selected_indices: &[usize],
    base_dir: &str,
    local_save_paths: &[(String, String)],
) -> (r: Vec<DownloadTask>)
    ensures
        r@.len() == crate::file_manager::valid_selection(files@.len(), selected_indices@).len(),
        forall|k: int| 0 <= k < r@.len() ==> {
            let i = crate::file_manager::valid_selection(files@.len(), selected_indices@)[k];
            &&& (#[trigger] r@[k]).file == files@[i as int]
            &&& crate::config::strings_view(r@[k].target_parts@) == seq![base_dir@, files@[i as int].name@]
            &&& r@[k].local_save_paths@ == local_save_paths@
        },
{
    let ghost sel = selected_indices@;
    let mut tasks: Vec<DownloadTask> = Vec::new();
    let mut j: usize = 0;
    assert(sel.take(0) =~= Seq::<usize>::empty());
    while j < selected_indices.len()
        invariant
            j <= sel.len(),
            sel == selected_indices@,
            tasks@.len() == crate::file_manager::valid_selection(files@.len(), sel.take(j as int)).len(),
            forall|k: int| 0 <= k < tasks@.len() ==> {
                let i = crate::file_manager::valid_selection(files@.len(), sel.take(j as int))[k];
                &&& (#[trigger] tasks@[k]).file == files@[i as int]
                &&& crate::config::strings_view(tasks@[k].target_parts@) == seq![base_dir@, files@[i as int].name@]
                &&& tasks@[k].local_save_paths@ == local_save_paths@
            },
        decreases sel.len() - j,
    {
        let index = selected_indices[j];
        let ghost before = crate::file_manager::valid_selection(files@.len(), sel.take(j as int));
        assert(sel.take(j + 1).drop_last() =~= sel.take(j as int));
        assert(sel.take(j + 1).last() == index);
        if index < files.len() {
            let file = crate::steam_api::copy_cloud_file(&files[index]);
            let mut parts: Vec<String> = Vec::new();
            parts.push(String::from_str(base_dir));
            parts.push(files[index].name.clone());
            assert(crate::config::strings_view(parts@) =~= seq![base_dir@, files@[index as int].name@]);
            let t = DownloadTask { file, target_parts: parts, local_save_paths: copy_pairs(local_save_paths) };
            let ghost old_tasks = tasks@;
            tasks.push(t);
            proof {
                let now = crate::file_manager::valid_selection(files@.len(), sel.take(j + 1));
                assert(now =~= before + seq![index]);
                assert forall|k: int| 0 <= k < tasks@.len() implies {
                    let i = now[k];
                    &&& (#[trigger] tasks@[k]).file == files@[i as int]
                    &&& crate::config::strings_view(tasks@[k].target_parts@) == seq![base_dir@, files@[i as int].name@]
                    &&& tasks@[k].local_save_paths@ == local_save_paths@
                } by {
                    if k < old_tasks.len() {
                        assert(tasks@[k] == old_tasks[k]);
                        assert(now[k] == before[k]);
                    }
                }
            }
        } else {
            assert(crate::file_manager::valid_selection(files@.len(), sel.take(j + 1)) =~= before);
        }
        j = j + 1;
    }
    assert(sel.take(sel.len() as int) =~= sel);
    tasks
}

/// Where a file's content can be had from, in the order they are tried.
#[derive(Debug, Clone, PartialEq, Eq)]
pub enum DownloadSource {
    /// The download address the storage page gave.
    Url(String),
    /// Reading the file through Steam.
    SteamApi,
    /// Copying the local copy found below this save directory.
    LocalCopy(String),
}

/// What a download source stands for.
pub enum SourceModel {
    Url(Seq<char>),
    SteamApi,
    LocalCopy(Seq<char>),
}

/// The model of a download source.
pub open spec fn source_view(s: DownloadSource) -> SourceModel {
    match s {
        DownloadSource::Url(u) => SourceModel::Url(u@),
        DownloadSource::SteamApi => SourceModel::SteamApi,
        DownloadSource::LocalCopy(d) => SourceModel::LocalCopy(d@),
    }
}

/// The save directories whose description equals `folder` or occurs in it,
/// among the first `n` pairs, in order.
pub open spec fn matching_dirs(paths: Seq<(String, String)>, folder: Seq<char>, n: int) -> Seq<SourceModel>
    decreases n,
{
    if n <= 0 || n > paths.len() {
        Seq::empty()
    } else {
        let d = paths[n - 1].0@;
        matching_dirs(paths, folder, n - 1) + (if d == folder || crate::text::contains_text(folder, d) {
            seq![SourceModel::LocalCopy(paths[n - 1].1@)]
        } else {
            Seq::<SourceModel>::empty()
        })
    }
}

/// Every save directory among the first `n` pairs, in order.
pub open spec fn all_dirs(paths: Seq<(String, String)>, n: int) -> Seq<SourceModel>
    decreases n,
{
    if n <= 0 || n > paths.len() {
        Seq::empty()
    } else {
        all_dirs(paths, n - 1).push(SourceModel::LocalCopy(paths[n - 1].1@))
    }
}

/// The sources a file is downloaded from, in order: the address its root
/// description holds, if any; Steam, when Steam keeps the file; and, when a
/// local copy exists, first each save directory that matches the folder of
/// its root description, then every save directory (where a file of that name
/// may lie whatever its description).
pub open spec fn download_plan(file: CloudFile, paths: Seq<(String, String)>) -> Seq<SourceModel> {
    let (url, folder) = crate::path_resolver::cdp_root_parts(file.root_description@);
    (match url {
        Some(u) => seq![SourceModel::Url(u)],
        None => Seq::<SourceModel>::empty(),
    }) + (if file.is_persisted { seq![SourceModel::SteamApi] } else { Seq::<SourceModel>::empty() }) + (
    if file.exists {
        matching_dirs(paths, folder, paths.len() as int) + all_dirs(paths, paths.len() as int)
    } else {
        Seq::<SourceModel>::empty()
    })
}

/// The sources to try for downloading `file`, in order (see [`download_plan`]).
pub fn download_sources(file: &CloudFile, local_save_paths: &[(String, String)]) -> (r: Vec<DownloadSource>)
    ensures
        r@.map_values(|s: DownloadSource| source_view(s)) == download_plan(*file, local_save_paths@),
{
    let (url, folder) = crate::path_resolver::parse_cdp_root_description(file.root_description.as_str());
    let mut out: Vec<DownloadSource> = Vec::new();
    match url {
        Some(u) => {
            out.push(DownloadSource::Url(String::from_str(u)));
        },
        None => {},
    }
    if file.is_persisted {
        out.push(DownloadSource::SteamApi);
    }
    let ghost head = out@.map_values(|s: DownloadSource| source_view(s));
    if file.exists {
        let mut i: usize = 0;
        assert(out@.map_values(|s: DownloadSource| source_view(s)) =~= head + matching_dirs(local_save_paths@, folder@, 0));
        while i < local_save_paths.len()
            invariant
                i <= local_save_paths@.len(),
                out@.map_values(|s: DownloadSource| source_view(s)) == head + matching_dirs(local_save_paths@, folder@, i as int),
            decreases local_save_paths@.len() - i,
        {
            let d = &local_save_paths[i].0;
            let ghost before = out@.map_values(|s: DownloadSource| source_view(s));
            if crate::text::str_eq(d.as_str(), folder) || crate::text::str_contains(folder, d.as_str()) {
                out.push(DownloadSource::LocalCopy(local_save_paths[i].1.clone()));
                assert(out@.map_values(|s: DownloadSource| source_view(s)) =~= before.push(
                    SourceModel::LocalCopy(local_save_paths@[i as int].1@),
                ));
            }
            i = i + 1;
            assert(out@.map_values(|s: DownloadSource| source_view(s)) =~= head + matching_dirs(local_save_paths@, folder@, i as int));
        }
        let ghost mid = out@.map_values(|s: DownloadSource| source_view(s));
        let mut j: usize = 0;
        assert(out@.map_values(|s: DownloadSource| source_view(s)) =~= mid + all_dirs(local_save_paths@, 0));
        while j < local_save_paths.len()
            invariant
                j <= local_save_paths@.len(),
                out@.map_values(|s: DownloadSource| source_view(s)) == mid + all_dirs(local_save_paths@, j as int),
            decreases local_save_paths@.len() - j,
        {
            let ghost before = out@.map_values(|s: DownloadSource| source_view(s));
            out.push(DownloadSource::LocalCopy(local_save_paths[j].1.clone()));
            assert(out@.map_values(|s: DownloadSource| source_view(s)) =~= before.push(
                SourceModel::LocalCopy(local_save_paths@[j as int].1@),
            ));
            j = j + 1;
            assert(out@.map_values(|s: DownloadSource| source_view(s)) =~= mid + all_dirs(local_save_paths@, j as int));
        }
        assert(mid =~= head + matching_dirs(local_save_paths@, folder@, local_save_paths@.len() as int));
    } else {
        assert(out@.map_values(|s: DownloadSource| source_view(s)) =~= head + Seq::<SourceModel>::empty());
    }
    out
}

} // verus!
