//! The folder tree of a game's cloud files: the file names are paths with
//! `/` between folder names, and the tree puts each file under its folders,
//! folders before files and each group in name order, with each folder
//! counting the files beneath it.
use vstd::prelude::*;
use vstd::string::*;
use vstd::multiset::Multiset;
use crate::game_scanner::{compare_text, lemma_text_order_flip, lemma_text_order_trans, text_order};
use crate::steam_api::CloudFile;
use crate::text::{split_chars, split_on, str_chars, chars_string, str_eq};

verus! {

/// A node of the file tree: a folder with its children, or a file with its
/// position in the listed files.
#[derive(Debug)]
pub enum FileTreeNode {
    Folder {
        name: String,
        path: String,
        children: Vec<FileTreeNode>,
        is_expanded: bool,
        file_count: usize,
        total_size: u64,
        root_description: String,
    },
    File { name: String, index: usize, file: CloudFile },
}

/// A file as the tree places it: the names of the folders above it, its own
/// name, its position in the listed files, and the file.
pub type Placement = (Seq<Seq<char>>, Seq<char>, usize, CloudFile);

/// The name of a node.
pub open spec fn node_name(n: FileTreeNode) -> Seq<char> {
    match n {
        FileTreeNode::Folder { name, .. } => name@,
        FileTreeNode::File { name, .. } => name@,
    }
}

/// The path of a folder (empty for a file).
pub open spec fn folder_path(n: FileTreeNode) -> Seq<char> {
    match n {
        FileTreeNode::Folder { path, .. } => path@,
        FileTreeNode::File { .. } => Seq::empty(),
    }
}

/// The children of a folder (none for a file).
pub open spec fn node_children(n: FileTreeNode) -> Seq<FileTreeNode> {
    match n {
        FileTreeNode::Folder { children, .. } => children@,
        FileTreeNode::File { .. } => Seq::empty(),
    }
}

/// The files placed in a node, the folder names counted from below `dirs`.
pub open spec fn placed(n: FileTreeNode, dirs: Seq<Seq<char>>) -> Multiset<Placement>
    decreases n, 0nat,
{
    match n {
        FileTreeNode::File { name, index, file } => Multiset::singleton((dirs, name@, index, file)),
        FileTreeNode::Folder { name, children, .. } => placed_list(children@, dirs.push(name@)),
    }
}

/// The files placed in a list of sibling nodes below the folders `dirs`.
pub open spec fn placed_list(s: Seq<FileTreeNode>, dirs: Seq<Seq<char>>) -> Multiset<Placement>
    decreases s, 1nat,
{
    if s.len() == 0 {
        Multiset::empty()
    } else {
        placed_list(s.drop_last(), dirs).add(placed(s.last(), dirs))
    }
}

/// The files placed under a folder, the folder names counted from below `dirs`.
pub open spec fn contents(n: FileTreeNode, dirs: Seq<Seq<char>>) -> Multiset<Placement> {
    placed_list(node_children(n), dirs)
}

/// The number of files in a node.
pub open spec fn file_total(n: FileTreeNode) -> nat
    decreases n, 0nat,
{
    match n {
        FileTreeNode::File { .. } => 1,
        FileTreeNode::Folder { children, .. } => file_total_list(children@),
    }
}

/// The number of files in a list of sibling nodes.
pub open spec fn file_total_list(s: Seq<FileTreeNode>) -> nat
    decreases s, 1nat,
{
    if s.len() == 0 {
        0
    } else {
        file_total_list(s.drop_last()) + file_total(s.last())
    }
}

/// The total size of the files in a node.
pub open spec fn size_total(n: FileTreeNode) -> nat
    decreases n, 0nat,
{
    match n {
        FileTreeNode::File { file, .. } => file.size as nat,
        FileTreeNode::Folder { children, .. } => size_total_list(children@),
    }
}

/// The total size of the files in a list of sibling nodes.
pub open spec fn size_total_list(s: Seq<FileTreeNode>) -> nat
    decreases s, 1nat,
{
    if s.len() == 0 {
        0
    } else {
        size_total_list(s.drop_last()) + size_total(s.last())
    }
}

/// Whether no two sibling folders have the same name.
pub open spec fn siblings_distinct(s: Seq<FileTreeNode>) -> bool {
    forall|i: int, j: int|
        0 <= i < j < s.len() && (#[trigger] s[i]) is Folder && (#[trigger] s[j]) is Folder ==> node_name(s[i])
            != node_name(s[j])
}

/// Whether, in every folder of a node, no two child folders have the same name.
pub open spec fn folders_distinct(n: FileTreeNode) -> bool
    decreases n,
{
    match n {
        FileTreeNode::File { .. } => true,
        FileTreeNode::Folder { children, .. } => siblings_distinct(children@) && forall|i: int|
            0 <= i < children@.len() ==> folders_distinct(#[trigger] children@[i]),
    }
}

/// Whether every folder below a node holds at least one file.
pub open spec fn no_empty_folders(n: FileTreeNode) -> bool
    decreases n,
{
    match n {
        FileTreeNode::File { .. } => true,
        FileTreeNode::Folder { children, .. } => forall|i: int|
            0 <= i < children@.len() ==> ((#[trigger] children@[i]) is Folder ==> file_total(children@[i]) >= 1)
                && no_empty_folders(children@[i]),
    }
}

/// Whether `a` comes before `b` among siblings: folders before files, then by
/// name, character by character.
pub open spec fn node_before(a: FileTreeNode, b: FileTreeNode) -> bool {
    if (a is Folder) && !(b is Folder) {
        true
    } else if !(a is Folder) && (b is Folder) {
        false
    } else {
        text_order(node_name(a), node_name(b)) < 0
    }
}

/// Whether siblings are in order: none comes before one ahead of it.
pub open spec fn sorted_list(s: Seq<FileTreeNode>) -> bool {
    forall|i: int, j: int| 0 <= i < j < s.len() ==> !node_before(#[trigger] s[j], #[trigger] s[i])
}

/// Whether the children of every folder in a node are in order.
pub open spec fn sorted_deep(n: FileTreeNode) -> bool
    decreases n,
{
    match n {
        FileTreeNode::File { .. } => true,
        FileTreeNode::Folder { children, .. } => sorted_list(children@) && forall|i: int|
            0 <= i < children@.len() ==> sorted_deep(#[trigger] children@[i]),
    }
}

/// The path of the child folder `name` of a folder at `path`.
pub open spec fn child_path_text(path: Seq<char>, name: Seq<char>) -> Seq<char> {
    if path.len() == 0 {
        name
    } else {
        path + seq!['/'] + name
    }
}

/// Whether every folder below a node has its parent's path, a `/` and its
/// name as its path.
pub open spec fn paths_ok(n: FileTreeNode) -> bool
    decreases n,
{
    match n {
        FileTreeNode::File { .. } => true,
        FileTreeNode::Folder { path, children, .. } => forall|i: int|
            0 <= i < children@.len() ==> ((#[trigger] children@[i]) is Folder ==> folder_path(
                children@[i],
            ) == child_path_text(path@, node_name(children@[i])) && paths_ok(children@[i])),
    }
}

/// Whether every folder in a node counts the files beneath it and the total
/// size of those files.
pub open spec fn stats_ok(n: FileTreeNode) -> bool
    decreases n,
{
    match n {
        FileTreeNode::File { .. } => true,
        FileTreeNode::Folder { children, file_count, total_size, .. } => {
            &&& file_count == file_total_list(children@)
            &&& total_size == size_total_list(children@)
            &&& forall|i: int| 0 <= i < children@.len() ==> stats_ok(#[trigger] children@[i])
        },
    }
}

/// Whether two nodes agree in kind, name and (for folders) path.
pub open spec fn same_key(a: FileTreeNode, b: FileTreeNode) -> bool {
    &&& (a is Folder) == (b is Folder)
    &&& node_name(a) == node_name(b)
    &&& folder_path(a) == folder_path(b)
}

/// The file positions of a node, in tree order.
pub open spec fn file_indices(n: FileTreeNode) -> Seq<usize>
    decreases n, 0nat,
{
    match n {
        FileTreeNode::File { index, .. } => seq![index],
        FileTreeNode::Folder { children, .. } => file_indices_list(children@),
    }
}

/// The file positions of a list of sibling nodes, in tree order.
pub open spec fn file_indices_list(s: Seq<FileTreeNode>) -> Seq<usize>
    decreases s, 1nat,
{
    if s.len() == 0 {
        Seq::empty()
    } else {
        file_indices_list(s.drop_last()) + file_indices(s.last())
    }
}

impl FileTreeNode {
    /// The node's name.
    pub fn name(&self) -> (r: &str)
        ensures
            r@ == node_name(*self),
    {
        match self {
            FileTreeNode::Folder { name, .. } => name.as_str(),
            FileTreeNode::File { name, .. } => name.as_str(),
        }
    }

    /// Whether the node is a folder.
    pub fn is_folder(&self) -> (r: bool)
        ensures
            r == (*self is Folder),
    {
        match self {
            FileTreeNode::Folder { .. } => true,
            FileTreeNode::File { .. } => false,
        }
    }

    /// The children of a folder; none for a file.
    pub fn children(&self) -> (r: Option<&Vec<FileTreeNode>>)
        ensures
            (*self is File) ==> r is None,
            (*self is Folder) ==> (r matches Some(c) && c@ == node_children(*self)),
    {
        match self {
            FileTreeNode::Folder { children, .. } => Some(children),
            FileTreeNode::File { .. } => None,
        }
    }

    /// The children of a folder, to change; none for a file.
    pub fn children_mut(&mut self) -> (r: Option<&mut Vec<FileTreeNode>>)
        ensures
            (*old(self) is File) ==> r is None && *final(self) == *old(self),
            (*old(self) is Folder) ==> (r matches Some(c) && c@ == node_children(*old(self))
                && node_children(*final(self)) == final(c)@ && same_key(*final(self), *old(self))),
    {
        match self {
            FileTreeNode::Folder { children, .. } => Some(children),
            FileTreeNode::File { .. } => None,
        }
    }

    /// Appends the positions of the files in this node, in tree order.
    pub fn collect_file_indices(&self, indices: &mut Vec<usize>)
        ensures
            final(indices)@ == old(indices)@ + file_indices(*self),
        decreases *self, 0nat, 0nat,
    {
        match self {
            FileTreeNode::File { index, .. } => {
                indices.push(*index);
            },
            FileTreeNode::Folder { children, .. } => {
                collect_list(children, children.len(), indices);
                assert(children@.take(children@.len() as int) =~= children@);
            },
        }
    }
}

fn collect_list(v: &Vec<FileTreeNode>, n: usize, indices: &mut Vec<usize>)
    requires
        n <= v@.len(),
    ensures
        final(indices)@ == old(indices)@ + file_indices_list(v@.take(n as int)),
    decreases v@, 1nat, n,
{
    if n > 0 {
        collect_list(v, n - 1, indices);
        v[n - 1].collect_file_indices(indices);
        assert(v@.take(n as int).drop_last() =~= v@.take(n - 1));
        assert(final(indices)@ =~= old(indices)@ + file_indices_list(v@.take(n as int)));
    } else {
        assert(old(indices)@ + file_indices_list(v@.take(0)) =~= old(indices)@);
    }
}

/// The position of the last `/` in `s`.
pub open spec fn last_slash(s: Seq<char>) -> Option<int>
    decreases s.len(),
{
    if s.len() == 0 {
        None
    } else if s.last() == '/' {
        Some(s.len() - 1)
    } else {
        last_slash(s.drop_last())
    }
}

/// The folder part of a file name: what stands before its last `/`.
pub open spec fn dir_text(name: Seq<char>) -> Seq<char> {
    match last_slash(name) {
        Some(k) => name.take(k),
        None => Seq::empty(),
    }
}

/// The file's own name: what stands after its last `/`.
pub open spec fn leaf_text(name: Seq<char>) -> Seq<char> {
    match last_slash(name) {
        Some(k) => name.skip(k + 1),
        None => name,
    }
}

/// The non-empty pieces, in order.
pub open spec fn nonempty_parts(s: Seq<Seq<char>>) -> Seq<Seq<char>>
    decreases s.len(),
{
    if s.len() == 0 {
        Seq::empty()
    } else {
        let r = nonempty_parts(s.drop_last());
        if s.last().len() > 0 { r.push(s.last()) } else { r }
    }
}

/// The folder names of a file name: the non-empty pieces of its folder part.
pub open spec fn dir_parts(name: Seq<char>) -> Seq<Seq<char>> {
    nonempty_parts(split_on(dir_text(name), '/'))
}

proof fn lemma_last_slash_bounds(s: Seq<char>)
    ensures
        last_slash(s) matches Some(k) ==> 0 <= k < s.len() && s[k] == '/',
    decreases s.len(),
{
    if s.len() > 0 && s.last() != '/' {
        lemma_last_slash_bounds(s.drop_last());
    }
}

fn find_last_slash(v: &[char]) -> (r: Option<usize>)
    ensures
        match r {
            Some(k) => last_slash(v@) == Some(k as int),
            None => last_slash(v@) is None,
        },
{
    let mut k = v.len();
    assert(v@.take(k as int) =~= v@);
    while k > 0
        invariant
            k <= v@.len(),
            last_slash(v@) == last_slash(v@.take(k as int)),
        decreases k,
    {
        assert(v@.take(k as int).drop_last() =~= v@.take(k - 1));
        if v[k - 1] == '/' {
            return Some(k - 1);
        }
        k = k - 1;
    }
    None
}

/// The folder part of a listed file's name: what stands before its last `/`.
pub fn parse_file_path(file: &CloudFile) -> (r: String)
    ensures
        r@ == dir_text(file.name@),
{
    let v = str_chars(file.name.as_str());
    proof {
        lemma_last_slash_bounds(v@);
    }
    match find_last_slash(v.as_slice()) {
        Some(k) => chars_string(v.as_slice(), 0, k),
        None => String::new(),
    }
}

/// A listed file's own name: what stands after its last `/`.
pub fn get_file_name(file: &CloudFile) -> (r: String)
    ensures
        r@ == leaf_text(file.name@),
{
    let v = str_chars(file.name.as_str());
    proof {
        lemma_last_slash_bounds(v@);
    }
    match find_last_slash(v.as_slice()) {
        Some(k) => {
            assert(k < v@.len());
            let r = chars_string(v.as_slice(), k + 1, v.len());
            assert(v@.subrange(k + 1, v@.len() as int) =~= v@.skip(k + 1));
            r
        },
        None => file.name.clone(),
    }
}

/// The non-empty `/`-separated pieces of a folder path.
fn path_parts(path: &str) -> (r: Vec<String>)
    ensures
        r@.map_values(|p: String| p@) == nonempty_parts(split_on(path@, '/')),
{
    let v = str_chars(path);
    let pieces = split_chars(v.as_slice(), '/');
    let ghost all = split_on(path@, '/');
    let mut out: Vec<String> = Vec::new();
    let mut i: usize = 0;
    assert(all.take(0) =~= Seq::<Seq<char>>::empty());
    while i < pieces.len()
        invariant
            i <= pieces@.len(),
            pieces@.len() == all.len(),
            forall|k: int| 0 <= k < pieces@.len() ==> (#[trigger] pieces@[k])@ == all[k],
            out@.map_values(|p: String| p@) == nonempty_parts(all.take(i as int)),
        decreases pieces@.len() - i,
    {
        let ghost before = out@.map_values(|p: String| p@);
        assert(all.take(i + 1).drop_last() =~= all.take(i as int));
        assert(all.take(i + 1).last() == pieces@[i as int]@);
        if pieces[i].len() > 0 {
            let s = crate::text::seq_string(pieces[i].as_slice());
            out.push(s);
            assert(out@.map_values(|p: String| p@) =~= before.push(pieces@[i as int]@));
        }
        i = i + 1;
    }
    assert(all.take(all.len() as int) =~= all);
    out
}


proof fn lemma_placed_list_update(s: Seq<FileTreeNode>, i: int, x: FileTreeNode, d: Seq<Seq<char>>)
    requires
        0 <= i < s.len(),
    ensures
        placed_list(s.update(i, x), d).add(placed(s[i], d)) =~= placed_list(s, d).add(placed(x, d)),
    decreases s.len(),
{
    let u = s.update(i, x);
    if i == s.len() - 1 {
        assert(u.drop_last() =~= s.drop_last());
        assert(u.last() == x);
        let a = placed_list(s.drop_last(), d);
        assert(placed_list(u, d) == a.add(placed(x, d)));
        assert(placed_list(s, d) == a.add(placed(s[i], d)));
        assert(a.add(placed(x, d)).add(placed(s[i], d)) =~= a.add(placed(s[i], d)).add(placed(x, d)));
    } else {
        let t = s.drop_last();
        assert(u.drop_last() =~= t.update(i, x));
        assert(u.last() == s.last());
        assert(t[i] == s[i]);
        lemma_placed_list_update(t, i, x, d);
        let pu = placed_list(t.update(i, x), d);
        let pt = placed_list(t, d);
        assert(placed_list(u, d) == pu.add(placed(s.last(), d)));
        assert(placed_list(s, d) == pt.add(placed(s.last(), d)));
        assert(pu.add(placed(s[i], d)) =~= pt.add(placed(x, d)));
        assert forall|v: Placement| #[trigger] placed_list(u, d).add(placed(s[i], d)).count(v) == placed_list(s, d).add(placed(x, d)).count(v) by {
            assert(pu.add(placed(s[i], d)).count(v) == pt.add(placed(x, d)).count(v));
        }
    }
}

proof fn lemma_placed_list_push(s: Seq<FileTreeNode>, x: FileTreeNode, d: Seq<Seq<char>>)
    ensures
        placed_list(s.push(x), d) =~= placed_list(s, d).add(placed(x, d)),
{
    assert(s.push(x).drop_last() =~= s);
}

proof fn lemma_placed_list_insert(s: Seq<FileTreeNode>, p: int, x: FileTreeNode, d: Seq<Seq<char>>)
    requires
        0 <= p <= s.len(),
    ensures
        placed_list(s.insert(p, x), d) =~= placed_list(s, d).add(placed(x, d)),
    decreases s.len(),
{
    let t = s.insert(p, x);
    if p == s.len() {
        assert(t =~= s.push(x));
        lemma_placed_list_push(s, x, d);
    } else {
        assert(t.drop_last() =~= s.drop_last().insert(p, x));
        assert(t.last() == s.last());
        lemma_placed_list_insert(s.drop_last(), p, x, d);
    }
}

proof fn lemma_file_total_list_update(s: Seq<FileTreeNode>, i: int, x: FileTreeNode)
    requires
        0 <= i < s.len(),
    ensures
        file_total_list(s.update(i, x)) + file_total(s[i]) == file_total_list(s) + file_total(x),
    decreases s.len(),
{
    let u = s.update(i, x);
    if i == s.len() - 1 {
        assert(u.drop_last() =~= s.drop_last());
    } else {
        assert(u.drop_last() =~= s.drop_last().update(i, x));
        lemma_file_total_list_update(s.drop_last(), i, x);
    }
}

proof fn lemma_size_total_list_update(s: Seq<FileTreeNode>, i: int, x: FileTreeNode)
    requires
        0 <= i < s.len(),
    ensures
        size_total_list(s.update(i, x)) + size_total(s[i]) == size_total_list(s) + size_total(x),
    decreases s.len(),
{
    let u = s.update(i, x);
    if i == s.len() - 1 {
        assert(u.drop_last() =~= s.drop_last());
    } else {
        assert(u.drop_last() =~= s.drop_last().update(i, x));
        lemma_size_total_list_update(s.drop_last(), i, x);
    }
}

proof fn lemma_size_total_list_insert(s: Seq<FileTreeNode>, p: int, x: FileTreeNode)
    requires
        0 <= p <= s.len(),
    ensures
        size_total_list(s.insert(p, x)) == size_total_list(s) + size_total(x),
    decreases s.len(),
{
    let t = s.insert(p, x);
    if p == s.len() {
        assert(t.drop_last() =~= s);
    } else {
        assert(t.drop_last() =~= s.drop_last().insert(p, x));
        assert(t.last() == s.last());
        lemma_size_total_list_insert(s.drop_last(), p, x);
    }
}

/// A folder's children with the file put under the folders `parts[k..]`,
/// the folders that are missing made on the way.
fn insert_into_tree(
    node: FileTreeNode,
    parts: &Vec<String>,
    k: usize,
    filename: String,
    index: usize,
    file: CloudFile,
    root_description: &String,
) -> (r: FileTreeNode)
    requires
        node is Folder,
        k <= parts@.len(),
    ensures
        same_key(r, node),
        r is Folder,
        forall|d: Seq<Seq<char>>| #[trigger] contents(r, d) == contents(node, d).insert(
            (d + parts@.map_values(|p: String| p@).skip(k as int), filename@, index, file),
        ),
        paths_ok(node) ==> paths_ok(r),
        file_total_list(node_children(r)) == file_total_list(node_children(node)) + 1,
        size_total_list(node_children(r)) == size_total_list(node_children(node)) + file.size,
        folders_distinct(node) ==> folders_distinct(r),
        no_empty_folders(node) ==> no_empty_folders(r),
    decreases parts@.len() - k,
{
    let ghost pv = parts@.map_values(|p: String| p@);
    match node {
        FileTreeNode::File { .. } => node,
        FileTreeNode::Folder { name, path, children, is_expanded, file_count, total_size, root_description: rd } => {
            let ghost old_children = children@;
            let mut children = children;
            if k == parts.len() {
                let f = FileTreeNode::File { name: filename, index, file };
                children.push(f);
                assert(children@.drop_last() =~= old_children);
                assert(children@.last() == f);
                assert(file_total(f) == 1);
                assert(size_total(f) == file.size);
                proof {
                    assert forall|d: Seq<Seq<char>>| placed_list(children@, d) == placed_list(old_children, d).insert(
                        (d + pv.skip(k as int), f->File_name@, index, f->File_file),
                    ) by {
                        lemma_placed_list_push(old_children, f, d);
                        assert(pv.skip(k as int) =~= Seq::<Seq<char>>::empty());
                        assert(d + pv.skip(k as int) =~= d);
                    }
                }
                let r = FileTreeNode::Folder { name, path, children, is_expanded, file_count, total_size, root_description: rd };
                proof {
                    assert forall|i: int| 0 <= i < node_children(r).len() implies #[trigger] node_children(r)[i] == (if i < old_children.len() { old_children[i] } else { f }) by {}
                    if folders_distinct(node) {
                        assert forall|i: int, j: int|
                            0 <= i < j < node_children(r).len() && (#[trigger] node_children(r)[i]) is Folder && (#[trigger] node_children(r)[j]) is Folder
                            implies node_name(node_children(r)[i]) != node_name(node_children(r)[j]) by {
                            assert(node_children(r)[i] == old_children[i]);
                            assert(node_children(r)[j] == old_children[j]);
                        }
                        assert forall|i: int| 0 <= i < node_children(r).len() implies folders_distinct(#[trigger] node_children(r)[i]) by {
                            if i < old_children.len() {
                                assert(node_children(r)[i] == old_children[i]);
                            }
                        }
                    }
                    if no_empty_folders(node) {
                        assert forall|i: int| 0 <= i < node_children(r).len() implies ((#[trigger] node_children(r)[i]) is Folder ==> file_total(node_children(r)[i]) >= 1)
                            && no_empty_folders(node_children(r)[i]) by {
                            if i < old_children.len() {
                                assert(node_children(r)[i] == old_children[i]);
                            }
                        }
                    }
                }
                return r;
            }
            let part = &parts[k];
            assert(pv[k as int] == part@);
            let mut i: usize = 0;
            while i < children.len() && !(children[i].is_folder() && str_eq(children[i].name(), part.as_str()))
                invariant
                    i <= children@.len(),
                    children@ == old_children,
                    forall|j: int| 0 <= j < i ==> !((#[trigger] old_children[j]) is Folder && node_name(old_children[j]) == part@),
                decreases children@.len() - i,
            {
                i = i + 1;
            }
            let found = i < children.len();
            if found {
                let child = children.remove(i);
                assert(child == old_children[i as int]);
                let ghost old_child = child;
                let new_child = insert_into_tree(child, parts, k + 1, filename, index, file, root_description);
                assert(file_total(new_child) == file_total_list(node_children(new_child)));
                assert(file_total(old_child) == file_total_list(node_children(old_child)));
                children.insert(i, new_child);
                assert(children@ =~= old_children.update(i as int, new_child));
                proof {
                    lemma_file_total_list_update(old_children, i as int, new_child);
                    lemma_size_total_list_update(old_children, i as int, new_child);
                    assert(size_total(new_child) == size_total_list(node_children(new_child)));
                    assert(size_total(old_child) == size_total_list(node_children(old_child)));
                }
                proof {
                    assert forall|d: Seq<Seq<char>>| placed_list(children@, d) == placed_list(old_children, d).insert(
                        (d + pv.skip(k as int), filename@, index, file),
                    ) by {
                        lemma_placed_list_update(old_children, i as int, new_child, d);
                        let dd = d.push(node_name(old_child));
                        assert(contents(new_child, dd) == contents(old_child, dd).insert(
                            (dd + pv.skip(k + 1), filename@, index, file),
                        ));
                        assert(dd + pv.skip(k + 1) =~= d + pv.skip(k as int));
                        assert(placed(new_child, d) == contents(new_child, dd));
                        assert(placed(old_child, d) == contents(old_child, dd));
                        let item = (d + pv.skip(k as int), filename@, index, file);
                        let pu = placed_list(children@, d);
                        let po = placed_list(old_children, d);
                        assert(pu.add(placed(old_child, d)) =~= po.add(placed(old_child, d).insert(item)));
                        assert forall|v: Placement| #[trigger] pu.count(v) == po.insert(item).count(v) by {
                            assert(pu.add(placed(old_child, d)).count(v) == po.add(placed(old_child, d).insert(item)).count(v));
                        }
                        assert(pu =~= po.insert(item));
                    }
                }
                let r = FileTreeNode::Folder { name, path, children, is_expanded, file_count, total_size, root_description: rd };
                proof {
                    if paths_ok(node) {
                        assert forall|j: int| 0 <= j < node_children(r).len() implies ((#[trigger] node_children(r)[j]) is Folder ==> folder_path(
                            node_children(r)[j],
                        ) == child_path_text(folder_path(r), node_name(node_children(r)[j])) && paths_ok(node_children(r)[j])) by {
                            if j != i {
                                assert(node_children(r)[j] == old_children[j]);
                            }
                        }
                    }
                    let c = node_children(r);
                    if folders_distinct(node) {
                        assert forall|a: int, b: int|
                            0 <= a < b < c.len() && (#[trigger] c[a]) is Folder && (#[trigger] c[b]) is Folder
                            implies node_name(c[a]) != node_name(c[b]) by {
                            assert(same_key(c[a], old_children[a]));
                            assert(same_key(c[b], old_children[b]));
                        }
                        assert forall|a: int| 0 <= a < c.len() implies folders_distinct(#[trigger] c[a]) by {
                            if a != i {
                                assert(c[a] == old_children[a]);
                            }
                        }
                    }
                    if no_empty_folders(node) {
                        assert forall|a: int| 0 <= a < c.len() implies ((#[trigger] c[a]) is Folder ==> file_total(c[a]) >= 1)
                            && no_empty_folders(c[a]) by {
                            if a != i {
                                assert(c[a] == old_children[a]);
                            }
                        }
                    }
                }
                r
            } else {
                let child_path = if path.unicode_len() == 0 {
                    part.clone()
                } else {
                    let mut p = path.clone();
                    p.append("/");
                    p.append(part.as_str());
                    p
                };
                proof {
                    reveal_strlit("/");
                    assert(child_path@ =~= child_path_text(path@, part@));
                }
                let new_folder = FileTreeNode::Folder {
                    name: part.clone(),
                    path: child_path,
                    children: Vec::new(),
                    is_expanded: true,
                    file_count: 0,
                    total_size: 0,
                    root_description: root_description.clone(),
                };
                assert(paths_ok(new_folder));
                assert(folders_distinct(new_folder));
                assert(no_empty_folders(new_folder));
                assert(file_total_list(node_children(new_folder)) == 0);
                assert(size_total_list(node_children(new_folder)) == 0);
                let filled = insert_into_tree(new_folder, parts, k + 1, filename, index, file, root_description);
                children.push(filled);
                assert(children@.drop_last() =~= old_children);
                assert(children@.last() == filled);
                assert(file_total(filled) == file_total_list(node_children(filled)));
                assert(size_total(filled) == size_total_list(node_children(filled)));
                proof {
                    assert forall|d: Seq<Seq<char>>| placed_list(children@, d) == placed_list(old_children, d).insert(
                        (d + pv.skip(k as int), filename@, index, file),
                    ) by {
                        lemma_placed_list_push(old_children, filled, d);
                        let dd = d.push(part@);
                        assert(contents(filled, dd) == contents(new_folder, dd).insert(
                            (dd + pv.skip(k + 1), filename@, index, file),
                        ));
                        assert(contents(new_folder, dd) =~= Multiset::empty());
                        assert(dd + pv.skip(k + 1) =~= d + pv.skip(k as int));
                        assert(placed(filled, d) == contents(filled, dd));
                    }
                }
                let r = FileTreeNode::Folder { name, path, children, is_expanded, file_count, total_size, root_description: rd };
                proof {
                    if paths_ok(node) {
                        assert forall|j: int| 0 <= j < node_children(r).len() implies ((#[trigger] node_children(r)[j]) is Folder ==> folder_path(
                            node_children(r)[j],
                        ) == child_path_text(folder_path(r), node_name(node_children(r)[j])) && paths_ok(node_children(r)[j])) by {
                            if j < old_children.len() {
                                assert(node_children(r)[j] == old_children[j]);
                            }
                        }
                    }
                    let c = node_children(r);
                    let m = old_children.len() as int;
                    assert(c[m] == filled);
                    if folders_distinct(node) {
                        assert forall|a: int, b: int|
                            0 <= a < b < c.len() && (#[trigger] c[a]) is Folder && (#[trigger] c[b]) is Folder
                            implies node_name(c[a]) != node_name(c[b]) by {
                            assert(c[a] == old_children[a]);
                            if b < m {
                                assert(c[b] == old_children[b]);
                            }
                        }
                        assert forall|a: int| 0 <= a < c.len() implies folders_distinct(#[trigger] c[a]) by {
                            if a < m {
                                assert(c[a] == old_children[a]);
                            }
                        }
                    }
                    if no_empty_folders(node) {
                        assert forall|a: int| 0 <= a < c.len() implies ((#[trigger] c[a]) is Folder ==> file_total(c[a]) >= 1)
                            && no_empty_folders(c[a]) by {
                            if a < m {
                                assert(c[a] == old_children[a]);
                            }
                        }
                    }
                }
                r
            }
        },
    }
}


proof fn lemma_before_asym(a: FileTreeNode, b: FileTreeNode)
    ensures
        node_before(a, b) ==> !node_before(b, a),
{
    lemma_text_order_flip(node_name(a), node_name(b));
}

proof fn lemma_before_trans(a: FileTreeNode, b: FileTreeNode, c: FileTreeNode)
    requires
        node_before(a, b),
        node_before(b, c),
    ensures
        node_before(a, c),
{
    if (a is Folder) == (b is Folder) && (b is Folder) == (c is Folder) {
        lemma_text_order_trans(node_name(a), node_name(b), node_name(c));
    }
}

/// Whether `a` comes before `b` among siblings.
fn before_exec(a: &FileTreeNode, b: &FileTreeNode) -> (r: bool)
    ensures
        r == node_before(*a, *b),
{
    let fa = a.is_folder();
    let fb = b.is_folder();
    if fa && !fb {
        true
    } else if !fa && fb {
        false
    } else {
        compare_text(a.name(), b.name()) < 0
    }
}

/// `perm` tells, for each node of `r`, the position in `v` it comes from, no
/// position twice.
pub open spec fn perm_witness(r: Seq<FileTreeNode>, v: Seq<FileTreeNode>, perm: Seq<int>) -> bool {
    &&& perm.len() == r.len()
    &&& forall|i: int| 0 <= i < r.len() ==> 0 <= #[trigger] perm[i] < v.len() && r[i] == v[perm[i]]
    &&& forall|i: int, j: int| 0 <= i < j < r.len() ==> #[trigger] perm[i] != #[trigger] perm[j]
}

/// Siblings put in order, folders first and then by name; ties keep their
/// order.
fn sort_nodes(v: Vec<FileTreeNode>) -> (r: Vec<FileTreeNode>)
    ensures
        sorted_list(r@),
        r@.len() == v@.len(),
        forall|i: int| 0 <= i < r@.len() ==> exists|j: int| 0 <= j < v@.len() && #[trigger] r@[i] == v@[j],
        forall|d: Seq<Seq<char>>| #[trigger] placed_list(r@, d) == placed_list(v@, d),
        file_total_list(r@) == file_total_list(v@),
        size_total_list(r@) == size_total_list(v@),
        exists|perm: Seq<int>| perm_witness(r@, v@, perm),
{
    let ghost orig = v@;
    let ghost mut perm: Seq<int> = Seq::empty();
    let mut rest = v;
    let mut out: Vec<FileTreeNode> = Vec::new();
    let ghost mut k: int = 0;
    assert(orig.skip(0) =~= orig);
    assert(orig.take(0) =~= Seq::<FileTreeNode>::empty());
    while rest.len() > 0
        invariant
            0 <= k <= orig.len(),
            rest@ == orig.skip(k),
            out@.len() == k,
            sorted_list(out@),
            forall|i: int| 0 <= i < out@.len() ==> exists|j: int| 0 <= j < orig.len() && #[trigger] out@[i] == orig[j],
            forall|d: Seq<Seq<char>>| #[trigger] placed_list(out@, d) == placed_list(orig.take(k), d),
            file_total_list(out@) == file_total_list(orig.take(k)),
            size_total_list(out@) == size_total_list(orig.take(k)),
            perm_witness(out@, orig, perm),
            forall|i: int| 0 <= i < perm.len() ==> #[trigger] perm[i] < k,
        decreases rest@.len(),
    {
        let x = rest.remove(0);
        assert(x == orig[k]);
        assert(rest@ =~= orig.skip(k + 1));
        let mut p: usize = 0;
        while p < out.len() && !before_exec(&x, &out[p])
            invariant
                p <= out@.len(),
                forall|q: int| 0 <= q < p ==> !node_before(x, #[trigger] out@[q]),
            decreases out@.len() - p,
        {
            p = p + 1;
        }
        let ghost o = out@;
        out.insert(p, x);
        proof {
            let t = out@;
            assert(t =~= o.insert(p as int, x));
            assert forall|i: int, j: int| 0 <= i < j < t.len() implies !node_before(#[trigger] t[j], #[trigger] t[i]) by {
                if j < p {
                    assert(t[i] == o[i] && t[j] == o[j]);
                } else if j == p {
                    assert(t[i] == o[i]);
                } else if i > p {
                    assert(t[i] == o[i - 1] && t[j] == o[j - 1]);
                } else if i == p {
                    assert(t[j] == o[j - 1]);
                    let m = j - 1;
                    if node_before(o[m], x) {
                        assert(node_before(x, o[p as int]));
                        lemma_before_trans(o[m], x, o[p as int]);
                        if m == p {
                            lemma_before_asym(o[m], x);
                        } else {
                            assert(!node_before(o[m], o[p as int]));
                        }
                    }
                } else {
                    assert(t[i] == o[i] && t[j] == o[j - 1]);
                }
            }
            assert forall|i: int| 0 <= i < t.len() implies exists|j: int| 0 <= j < orig.len() && #[trigger] t[i] == orig[j] by {
                if i < p {
                    assert(t[i] == o[i]);
                } else if i == p {
                    assert(t[i] == orig[k]);
                } else {
                    assert(t[i] == o[i - 1]);
                }
            }
            assert(orig.take(k + 1).drop_last() =~= orig.take(k));
            assert(orig.take(k + 1).last() == x);
            assert forall|d: Seq<Seq<char>>| #[trigger] placed_list(t, d) == placed_list(orig.take(k + 1), d) by {
                lemma_placed_list_insert(o, p as int, x, d);
            }
            lemma_file_total_list_insert(o, p as int, x);
            lemma_size_total_list_insert(o, p as int, x);
            let perm2 = perm.insert(p as int, k);
            assert forall|i: int| 0 <= i < t.len() implies 0 <= #[trigger] perm2[i] < orig.len() && t[i] == orig[perm2[i]] && perm2[i] < k + 1 by {
                if i < p {
                    assert(t[i] == o[i] && perm2[i] == perm[i]);
                } else if i == p {
                    assert(t[i] == x && perm2[i] == k);
                } else {
                    assert(t[i] == o[i - 1] && perm2[i] == perm[i - 1]);
                }
            }
            assert forall|i: int, j: int| 0 <= i < j < t.len() implies #[trigger] perm2[i] != #[trigger] perm2[j] by {
                if i < p && j < p {
                    assert(perm2[i] == perm[i] && perm2[j] == perm[j]);
                } else if i < p && j == p {
                    assert(perm2[i] == perm[i] && perm[i] < k);
                } else if i < p {
                    assert(perm2[i] == perm[i] && perm2[j] == perm[j - 1]);
                } else if i == p {
                    assert(perm2[j] == perm[j - 1] && perm[j - 1] < k);
                } else {
                    assert(perm2[i] == perm[i - 1] && perm2[j] == perm[j - 1]);
                }
            }
            perm = perm2;
            k = k + 1;
        }
    }
    assert(orig.take(k) =~= orig);
    assert(perm_witness(out@, orig, perm));
    out
}

proof fn lemma_file_total_list_insert(s: Seq<FileTreeNode>, p: int, x: FileTreeNode)
    requires
        0 <= p <= s.len(),
    ensures
        file_total_list(s.insert(p, x)) == file_total_list(s) + file_total(x),
    decreases s.len(),
{
    let t = s.insert(p, x);
    if p == s.len() {
        assert(t.drop_last() =~= s);
    } else {
        assert(t.drop_last() =~= s.drop_last().insert(p, x));
        assert(t.last() == s.last());
        lemma_file_total_list_insert(s.drop_last(), p, x);
    }
}


/// A node with the children of every folder in it put in order: folders
/// first, then by name; ties keep their order.
fn sort_children(n: FileTreeNode) -> (r: FileTreeNode)
    ensures
        same_key(r, n),
        sorted_deep(r),
        forall|d: Seq<Seq<char>>| #[trigger] placed(r, d) == placed(n, d),
        forall|d: Seq<Seq<char>>| #[trigger] contents(r, d) == contents(n, d),
        file_total(r) == file_total(n),
        size_total(r) == size_total(n),
        paths_ok(n) ==> paths_ok(r),
        folders_distinct(n) ==> folders_distinct(r),
        no_empty_folders(n) ==> no_empty_folders(r),
    decreases n, 0nat,
{
    match n {
        FileTreeNode::File { name, index, file } => {
            let r = FileTreeNode::File { name, index, file };
            assert(sorted_deep(r));
            r
        },
        FileTreeNode::Folder { name, path, children, is_expanded, file_count, total_size, root_description } => {
            let ghost old_children = children@;
            let deep = sort_list(children);
            let sorted = sort_nodes(deep);
            let r = FileTreeNode::Folder {
                name,
                path,
                children: sorted,
                is_expanded,
                file_count,
                total_size,
                root_description,
            };
            proof {
                let c = sorted@;
                assert forall|i: int| 0 <= i < c.len() implies #[trigger] sorted_deep(c[i]) by {
                    let j = choose|j: int| 0 <= j < deep@.len() && c[i] == deep@[j];
                    assert(sorted_deep(deep@[j]));
                }
                if paths_ok(n) {
                    assert forall|i: int| 0 <= i < c.len() implies ((#[trigger] c[i]) is Folder ==> folder_path(c[i])
                        == child_path_text(folder_path(r), node_name(c[i])) && paths_ok(c[i])) by {
                        let j = choose|j: int| 0 <= j < deep@.len() && c[i] == deep@[j];
                        assert(same_key(deep@[j], old_children[j]));
                        if old_children[j] is Folder {
                            assert(paths_ok(old_children[j]));
                        }
                    }
                }
                assert forall|d: Seq<Seq<char>>| #[trigger] placed(r, d) == placed(n, d) by {
                    assert(placed_list(c, d.push(node_name(n))) == placed_list(deep@, d.push(node_name(n))));
                    assert(placed_list(deep@, d.push(node_name(n))) == placed_list(old_children, d.push(node_name(n))));
                }
                assert forall|d: Seq<Seq<char>>| #[trigger] contents(r, d) == contents(n, d) by {
                    assert(placed_list(c, d) == placed_list(deep@, d));
                    assert(placed_list(deep@, d) == placed_list(old_children, d));
                }
                let perm = choose|perm: Seq<int>| perm_witness(c, deep@, perm);
                let dv = deep@;
                if folders_distinct(n) {
                    assert(siblings_distinct(old_children));
                    assert forall|a: int, b: int|
                        0 <= a < b < dv.len() && (#[trigger] dv[a]) is Folder && (#[trigger] dv[b]) is Folder
                        implies node_name(dv[a]) != node_name(dv[b]) by {
                        assert(same_key(dv[a], old_children[a]) && same_key(dv[b], old_children[b]));
                    }
                    assert forall|a: int, b: int|
                        0 <= a < b < c.len() && (#[trigger] c[a]) is Folder && (#[trigger] c[b]) is Folder
                        implies node_name(c[a]) != node_name(c[b]) by {
                        let pa = perm[a];
                        let pb = perm[b];
                        assert(c[a] == dv[pa] && c[b] == dv[pb] && pa != pb);
                        if pa < pb {
                            assert(node_name(dv[pa]) != node_name(dv[pb]));
                        } else {
                            assert(node_name(dv[pb]) != node_name(dv[pa]));
                        }
                    }
                    assert forall|a: int| 0 <= a < c.len() implies folders_distinct(#[trigger] c[a]) by {
                        let pa = perm[a];
                        assert(c[a] == dv[pa]);
                        assert(folders_distinct(old_children[pa]));
                    }
                }
                if no_empty_folders(n) {
                    assert forall|a: int| 0 <= a < c.len() implies ((#[trigger] c[a]) is Folder ==> file_total(c[a]) >= 1)
                        && no_empty_folders(c[a]) by {
                        let pa = perm[a];
                        assert(c[a] == dv[pa]);
                        assert(same_key(dv[pa], old_children[pa]));
                        assert(no_empty_folders(old_children[pa]));
                    }
                }
            }
            r
        },
    }
}

/// Each node of a list with the children of its folders put in order.
fn sort_list(v: Vec<FileTreeNode>) -> (r: Vec<FileTreeNode>)
    ensures
        r@.len() == v@.len(),
        forall|i: int| 0 <= i < r@.len() ==> same_key(#[trigger] r@[i], v@[i]),
        forall|i: int| 0 <= i < r@.len() ==> sorted_deep(#[trigger] r@[i]),
        forall|i: int| 0 <= i < r@.len() ==> paths_ok(v@[i]) ==> paths_ok(#[trigger] r@[i]),
        forall|i: int| 0 <= i < r@.len() ==> file_total(#[trigger] r@[i]) == file_total(v@[i]),
        forall|i: int| 0 <= i < r@.len() ==> folders_distinct(v@[i]) ==> folders_distinct(#[trigger] r@[i]),
        forall|i: int| 0 <= i < r@.len() ==> no_empty_folders(v@[i]) ==> no_empty_folders(#[trigger] r@[i]),
        forall|d: Seq<Seq<char>>| #[trigger] placed_list(r@, d) == placed_list(v@, d),
        file_total_list(r@) == file_total_list(v@),
        size_total_list(r@) == size_total_list(v@),
    decreases v@, 1nat,
{
    let ghost s = v@;
    let mut v = v;
    if v.len() == 0 {
        return v;
    }
    let last = v.pop().unwrap();
    assert(v@ =~= s.drop_last());
    let a = sort_children(last);
    let mut rest = sort_list(v);
    let ghost rs = rest@;
    rest.push(a);
    proof {
        assert(rest@.drop_last() =~= rs);
        assert(rest@.last() == a);
        assert forall|i: int| 0 <= i < rest@.len() implies same_key(#[trigger] rest@[i], s[i]) && sorted_deep(rest@[i]) && (
            paths_ok(s[i]) ==> paths_ok(rest@[i])) && file_total(rest@[i]) == file_total(s[i]) && (folders_distinct(s[i])
            ==> folders_distinct(rest@[i])) && (no_empty_folders(s[i]) ==> no_empty_folders(rest@[i])) by {
            if i < rs.len() {
                assert(rest@[i] == rs[i] && s[i] == s.drop_last()[i]);
            }
        }
        assert forall|d: Seq<Seq<char>>| #[trigger] placed_list(rest@, d) == placed_list(s, d) by {
            assert(placed_list(rs, d) == placed_list(s.drop_last(), d));
            assert(placed(a, d) == placed(last, d));
            assert(last == s.last());
        }
    }
    rest
}

/// A node with every folder's file count and total size set: the number of
/// files beneath it and the sum of their sizes; also the count and size of
/// the node.
fn update_folder_stats(n: FileTreeNode) -> (r: (FileTreeNode, usize, u64))
    requires
        file_total(n) <= usize::MAX,
        size_total(n) <= u64::MAX,
    ensures
        same_key(r.0, n),
        stats_ok(r.0),
        r.1 == file_total(n),
        r.2 == size_total(n),
        size_total(r.0) == size_total(n),
        folders_distinct(n) ==> folders_distinct(r.0),
        no_empty_folders(n) ==> no_empty_folders(r.0),
        forall|d: Seq<Seq<char>>| #[trigger] placed(r.0, d) == placed(n, d),
        forall|d: Seq<Seq<char>>| #[trigger] contents(r.0, d) == contents(n, d),
        file_total(r.0) == file_total(n),
        sorted_deep(n) ==> sorted_deep(r.0),
        paths_ok(n) ==> paths_ok(r.0),
    decreases n, 0nat,
{
    match n {
        FileTreeNode::File { name, index, file } => {
            let size = file.size;
            (FileTreeNode::File { name, index, file }, 1, size)
        },
        FileTreeNode::Folder { name, path, children, is_expanded, file_count, total_size, root_description } => {
            let ghost old_children = children@;
            let (c, count, size) = update_list_stats(children);
            let r = FileTreeNode::Folder {
                name,
                path,
                children: c,
                is_expanded,
                file_count: count,
                total_size: size,
                root_description,
            };
            proof {
                let cs = c@;
                if sorted_deep(n) {
                    assert forall|i: int, j: int| 0 <= i < j < cs.len() implies !node_before(#[trigger] cs[j], #[trigger] cs[i]) by {
                        assert(same_key(cs[i], old_children[i]) && same_key(cs[j], old_children[j]));
                        assert(!node_before(old_children[j], old_children[i]));
                    }
                    assert forall|i: int| 0 <= i < cs.len() implies #[trigger] sorted_deep(cs[i]) by {
                        assert(sorted_deep(old_children[i]));
                    }
                }
                if paths_ok(n) {
                    assert forall|i: int| 0 <= i < cs.len() implies ((#[trigger] cs[i]) is Folder ==> folder_path(cs[i])
                        == child_path_text(folder_path(r), node_name(cs[i])) && paths_ok(cs[i])) by {
                        assert(same_key(cs[i], old_children[i]));
                        if old_children[i] is Folder {
                            assert(paths_ok(old_children[i]));
                        }
                    }
                }
                assert forall|i: int| 0 <= i < cs.len() implies #[trigger] stats_ok(cs[i]) by {}
                if folders_distinct(n) {
                    assert forall|a: int, b: int|
                        0 <= a < b < cs.len() && (#[trigger] cs[a]) is Folder && (#[trigger] cs[b]) is Folder
                        implies node_name(cs[a]) != node_name(cs[b]) by {
                        assert(same_key(cs[a], old_children[a]) && same_key(cs[b], old_children[b]));
                    }
                    assert forall|a: int| 0 <= a < cs.len() implies folders_distinct(#[trigger] cs[a]) by {
                        assert(folders_distinct(old_children[a]));
                    }
                }
                if no_empty_folders(n) {
                    assert forall|a: int| 0 <= a < cs.len() implies ((#[trigger] cs[a]) is Folder ==> file_total(cs[a]) >= 1)
                        && no_empty_folders(cs[a]) by {
                        assert(same_key(cs[a], old_children[a]));
                        assert(no_empty_folders(old_children[a]));
                    }
                }
                assert forall|d: Seq<Seq<char>>| #[trigger] placed(r, d) == placed(n, d) by {
                    assert(placed_list(cs, d.push(node_name(n))) == placed_list(old_children, d.push(node_name(n))));
                }
                assert forall|d: Seq<Seq<char>>| #[trigger] contents(r, d) == contents(n, d) by {
                    assert(placed_list(cs, d) == placed_list(old_children, d));
                }
            }
            (r, count, size)
        },
    }
}

/// [`update_folder_stats`] on each node of a list; also the sums of their
/// counts and sizes.
fn update_list_stats(v: Vec<FileTreeNode>) -> (r: (Vec<FileTreeNode>, usize, u64))
    requires
        file_total_list(v@) <= usize::MAX,
        size_total_list(v@) <= u64::MAX,
    ensures
        r.0@.len() == v@.len(),
        forall|i: int| 0 <= i < r.0@.len() ==> same_key(#[trigger] r.0@[i], v@[i]),
        forall|i: int| 0 <= i < r.0@.len() ==> stats_ok(#[trigger] r.0@[i]),
        forall|i: int| 0 <= i < r.0@.len() ==> sorted_deep(v@[i]) ==> sorted_deep(#[trigger] r.0@[i]),
        forall|i: int| 0 <= i < r.0@.len() ==> paths_ok(v@[i]) ==> paths_ok(#[trigger] r.0@[i]),
        forall|i: int| 0 <= i < r.0@.len() ==> file_total(#[trigger] r.0@[i]) == file_total(v@[i]),
        forall|i: int| 0 <= i < r.0@.len() ==> folders_distinct(v@[i]) ==> folders_distinct(#[trigger] r.0@[i]),
        forall|i: int| 0 <= i < r.0@.len() ==> no_empty_folders(v@[i]) ==> no_empty_folders(#[trigger] r.0@[i]),
        r.1 == file_total_list(v@),
        r.2 == size_total_list(v@),
        forall|d: Seq<Seq<char>>| #[trigger] placed_list(r.0@, d) == placed_list(v@, d),
        file_total_list(r.0@) == file_total_list(v@),
        size_total_list(r.0@) == size_total_list(v@),
    decreases v@, 1nat,
{
    let ghost s = v@;
    let mut v = v;
    if v.len() == 0 {
        return (v, 0, 0);
    }
    let last = v.pop().unwrap();
    assert(v@ =~= s.drop_last());
    let (a, ac, asz) = update_folder_stats(last);
    let (mut rest, rc, rsz) = update_list_stats(v);
    let ghost rs = rest@;
    rest.push(a);
    proof {
        assert(rest@.drop_last() =~= rs);
        assert(rest@.last() == a);
        assert forall|i: int| 0 <= i < rest@.len() implies same_key(#[trigger] rest@[i], s[i]) && stats_ok(rest@[i])
            && (sorted_deep(s[i]) ==> sorted_deep(rest@[i])) && (paths_ok(s[i]) ==> paths_ok(rest@[i]))
            && file_total(rest@[i]) == file_total(s[i]) && (folders_distinct(s[i]) ==> folders_distinct(rest@[i]))
            && (no_empty_folders(s[i]) ==> no_empty_folders(rest@[i])) by {
            if i < rs.len() {
                assert(rest@[i] == rs[i] && s[i] == s.drop_last()[i]);
            }
        }
        assert forall|d: Seq<Seq<char>>| #[trigger] placed_list(rest@, d) == placed_list(s, d) by {
            assert(placed_list(rs, d) == placed_list(s.drop_last(), d));
            assert(placed(a, d) == placed(last, d));
            assert(last == s.last());
        }
    }
    (rest, rc + ac, rsz + asz)
}


/// Where the first `n` listed files belong: each under the folder names of
/// its folder part, with its own name and its position.
pub open spec fn expected_placements(files: Seq<CloudFile>, n: int) -> Multiset<Placement>
    decreases n,
{
    if n <= 0 {
        Multiset::empty()
    } else {
        expected_placements(files, n - 1).insert(
            (dir_parts(files[n - 1].name@), leaf_text(files[n - 1].name@), (n - 1) as usize, files[n - 1]),
        )
    }
}

/// The total size of the first `n` listed files.
pub open spec fn files_size(files: Seq<CloudFile>, n: int) -> nat
    decreases n,
{
    if n <= 0 || n > files.len() {
        0
    } else {
        files_size(files, n - 1) + (files[n - 1].size as nat)
    }
}

/// Whether a node is the top folder that [`build_tree`] makes of `files`:
/// named "Root" with an empty path, every file under its folders, the
/// children of every folder in order, no two sibling folders with the same
/// name and no folder without a file, every folder with its path, its count
/// of files and their total size.
pub open spec fn is_tree_of(r: FileTreeNode, files: Seq<CloudFile>) -> bool {
    &&& r is Folder
    &&& node_name(r) == seq!['R', 'o', 'o', 't']
    &&& folder_path(r) == Seq::<char>::empty()
    &&& contents(r, Seq::empty()) == expected_placements(files, files.len() as int)
    &&& sorted_deep(r)
    &&& stats_ok(r)
    &&& paths_ok(r)
    &&& folders_distinct(r)
    &&& no_empty_folders(r)
    &&& size_total(r) == files_size(files, files.len() as int)
}

/// The file tree of the listed files (see [`is_tree_of`]); the sizes of the
/// files must add up to a `u64`.
pub fn build_tree(files: &[CloudFile]) -> (r: FileTreeNode)
    requires
        files_size(files@, files@.len() as int) <= u64::MAX,
    ensures
        is_tree_of(r, files@),
{
    let name = String::from_str("Root");
    proof {
        reveal_strlit("Root");
    }
    let mut root = FileTreeNode::Folder {
        name,
        path: String::new(),
        children: Vec::new(),
        is_expanded: true,
        file_count: 0,
        total_size: 0,
        root_description: String::new(),
    };
    let mut index: usize = 0;
    while index < files.len()
        invariant
            index <= files@.len(),
            root is Folder,
            node_name(root) == seq!['R', 'o', 'o', 't'],
            folder_path(root) == Seq::<char>::empty(),
            contents(root, Seq::empty()) == expected_placements(files@, index as int),
            paths_ok(root),
            folders_distinct(root),
            no_empty_folders(root),
            file_total_list(node_children(root)) == index,
            size_total_list(node_children(root)) == files_size(files@, index as int),
            files_size(files@, files@.len() as int) <= u64::MAX,
        decreases files@.len() - index,
    {
        let file = &files[index];
        let path = parse_file_path(file);
        let filename = get_file_name(file);
        let parts: Vec<String> = if path.unicode_len() == 0 {
            Vec::new()
        } else {
            path_parts(path.as_str())
        };
        proof {
            let e: Seq<Seq<char>> = Seq::empty();
            let ec: Seq<char> = Seq::empty();
            if path@.len() == 0 {
                assert(nonempty_parts(e) =~= e);
                assert(split_on(path@, '/') =~= seq![ec]);
                assert(seq![ec].drop_last() =~= e);
                assert(nonempty_parts(seq![ec]) =~= e);
                assert(parts@.map_values(|p: String| p@) =~= e);
            }
        }
        let ghost pv = parts@.map_values(|p: String| p@);
        assert(pv == dir_parts(file.name@));
        assert(pv.skip(0) =~= pv);
        let copy = crate::steam_api::copy_cloud_file(file);
        let ghost before = root;
        root = insert_into_tree(root, &parts, 0, filename, index, copy, &file.root_description);
        assert(contents(root, Seq::empty()) == contents(before, Seq::empty()).insert(
            (Seq::<Seq<char>>::empty() + pv.skip(0), leaf_text(file.name@), index, *file),
        ));
        assert(Seq::<Seq<char>>::empty() + pv.skip(0) =~= pv);
        index = index + 1;
    }
    let sorted = sort_children(root);
    proof {
        assert(file_total(root) == file_total_list(node_children(root)));
        assert(size_total(root) == size_total_list(node_children(root)));
    }
    let (done, _, _) = update_folder_stats(sorted);
    proof {
        let e: Seq<Seq<char>> = Seq::empty();
        assert(contents(sorted, e) == contents(root, e));
        assert(contents(done, e) == contents(sorted, e));
    }
    done
}

/// The file tree of a game's listed files.
pub struct FileTree {
    root: FileTreeNode,
}

impl FileTree {
    /// The top folder of the tree.
    pub closed spec fn top(self) -> FileTreeNode {
        self.root
    }

    /// The tree of the listed files (see [`build_tree`]).
    pub fn new(files: &[CloudFile]) -> (r: Self)
        requires
            files_size(files@, files@.len() as int) <= u64::MAX,
        ensures
            is_tree_of(r.top(), files@),
    {
        let root = build_tree(files);
        FileTree { root }
    }

    /// The top folder.
    pub fn root(&self) -> (r: &FileTreeNode)
        ensures
            *r == self.top(),
    {
        &self.root
    }

    /// The top folder, to change.
    pub fn root_mut(&mut self) -> (r: &mut FileTreeNode)
        ensures
            *r == old(self).top(),
            final(self).top() == *final(r),
    {
        &mut self.root
    }
}


proof fn lemma_placed_len(n: FileTreeNode, d: Seq<Seq<char>>)
    ensures
        placed(n, d).len() == file_total(n),
    decreases n, 0nat,
{
    match n {
        FileTreeNode::File { .. } => {},
        FileTreeNode::Folder { name, children, .. } => {
            lemma_placed_list_len(children@, d.push(name@));
        },
    }
}

proof fn lemma_placed_list_len(s: Seq<FileTreeNode>, d: Seq<Seq<char>>)
    ensures
        placed_list(s, d).len() == file_total_list(s),
    decreases s, 1nat,
{
    if s.len() > 0 {
        lemma_placed_list_len(s.drop_last(), d);
        lemma_placed_len(s.last(), d);
    }
}

proof fn lemma_expected_count(files: Seq<CloudFile>, n: int, i: int)
    requires
        0 <= i < files.len(),
        n <= files.len(),
        files.len() <= usize::MAX,
    ensures
        expected_placements(files, n).count(
            (dir_parts(files[i].name@), leaf_text(files[i].name@), i as usize, files[i]),
        ) == (if 0 <= i < n { 1nat } else { 0nat }),
        n >= 0 ==> expected_placements(files, n).len() == n,
    decreases n,
{
    if n > 0 {
        lemma_expected_count(files, n - 1, i);
        let item = (dir_parts(files[i].name@), leaf_text(files[i].name@), i as usize, files[i]);
        let last = (
            dir_parts(files[n - 1].name@),
            leaf_text(files[n - 1].name@),
            (n - 1) as usize,
            files[n - 1],
        );
        if i != n - 1 {
            assert(last.2 != item.2);
            assert(last != item);
        }
    }
}

/// Every listed file stands in the tree exactly once, under the folders that
/// its name gives, with its own name and its position; the tree holds no
/// other file, and its top folder counts them all.
pub proof fn lemma_tree_holds_each_file(r: FileTreeNode, files: Seq<CloudFile>, i: int)
    requires
        is_tree_of(r, files),
        0 <= i < files.len(),
        files.len() <= usize::MAX,
    ensures
        contents(r, Seq::empty()).count(
            (dir_parts(files[i].name@), leaf_text(files[i].name@), i as usize, files[i]),
        ) == 1,
        contents(r, Seq::empty()).len() == files.len(),
        r->Folder_file_count == files.len(),
        r->Folder_total_size == files_size(files, files.len() as int),
{
    lemma_expected_count(files, files.len() as int, i);
    lemma_placed_list_len(node_children(r), Seq::empty());
}

} // verus!
