//! Text form of a game's cloud save configuration ("ufs" section of
//! `appinfo.vdf`, KeyValues text syntax) and its conversion to and from the
//! editable entries.
use vstd::prelude::*;
use vstd::string::*;
use crate::config::{
    PathTransform, PathTransformModel, RootOverrideEntry, RootOverrideModel, SaveFileEntry,
    SaveFileModel,
};
use crate::text::{
    append_decimal, chars_eq_str, char_is_whitespace, lines_of, push_char, seq_string, split_chars,
    str_chars, trim_chars,
};

verus! {

// ---------------------------------------------------------------------------
// Printing
// ---------------------------------------------------------------------------

/// `n` spaces.
pub open spec fn spaces(n: nat) -> Seq<char> {
    Seq::new(n, |i: int| ' ')
}

/// `s` between double quotes.
pub open spec fn quoted(s: Seq<char>) -> Seq<char> {
    seq!['"'] + s + seq!['"']
}

/// A key/value line: `indent "key" "value"`.
pub open spec fn kv_line(indent: nat, key: Seq<char>, value: Seq<char>) -> Seq<char> {
    spaces(indent) + quoted(key) + seq![' '] + quoted(value)
}

/// A line holding one quoted word.
pub open spec fn word_line(indent: nat, word: Seq<char>) -> Seq<char> {
    spaces(indent) + quoted(word)
}

/// A line holding one brace.
pub open spec fn brace_line(indent: nat, brace: char) -> Seq<char> {
    spaces(indent) + seq![brace]
}

/// Whether a platform list is written out (it is left out when empty or `["all"]`).
pub open spec fn platforms_written(p: Seq<Seq<char>>) -> bool {
    p.len() > 0 && !(p.len() == 1 && p[0] == "all"@)
}

/// The lines of save-file entry number `i`.
pub open spec fn savefile_lines(e: SaveFileModel, i: nat) -> Seq<Seq<char>> {
    seq![
        word_line(8, crate::text::decimal(i)),
        brace_line(8, '{'),
        kv_line(12, "root"@, e.root),
        kv_line(12, "path"@, e.path),
        kv_line(12, "pattern"@, e.pattern),
        kv_line(12, "recursive"@, if e.recursive { "1"@ } else { "0"@ }),
    ] + (if platforms_written(e.platforms) {
        seq![kv_line(12, "platforms"@, crate::text::join_with(e.platforms, seq![',']))]
    } else {
        Seq::<Seq<char>>::empty()
    }) + seq![brace_line(8, '}')]
}

/// The lines of save-file entries `k..` of `es`.
pub open spec fn savefiles_lines_from(es: Seq<SaveFileModel>, k: int) -> Seq<Seq<char>>
    decreases es.len() - k,
{
    if k < 0 || k >= es.len() {
        Seq::empty()
    } else {
        savefile_lines(es[k], k as nat) + savefiles_lines_from(es, k + 1)
    }
}

/// The lines of path rewrite number `j`.
pub open spec fn transform_lines(t: PathTransformModel, j: nat) -> Seq<Seq<char>> {
    seq![
        word_line(16, crate::text::decimal(j)),
        brace_line(16, '{'),
        kv_line(20, "find"@, t.find),
        kv_line(20, "replace"@, t.replace),
        brace_line(16, '}'),
    ]
}

/// The lines of path rewrites `k..` of `ts`.
pub open spec fn transforms_lines_from(ts: Seq<PathTransformModel>, k: int) -> Seq<Seq<char>>
    decreases ts.len() - k,
{
    if k < 0 || k >= ts.len() {
        Seq::empty()
    } else {
        transform_lines(ts[k], k as nat) + transforms_lines_from(ts, k + 1)
    }
}

/// The lines of root override number `i`. Path rewrites and an added path
/// exclude each other: with rewrites, the added path is not written.
pub open spec fn override_lines(r: RootOverrideModel, i: nat) -> Seq<Seq<char>> {
    seq![
        word_line(8, crate::text::decimal(i)),
        brace_line(8, '{'),
        kv_line(12, "root"@, r.original_root),
        kv_line(12, "os"@, r.os),
        kv_line(12, "oscompare"@, "="@),
        kv_line(12, "useinstead"@, r.new_root),
    ] + (if r.path_transforms.len() > 0 {
        seq![word_line(12, "pathtransforms"@), brace_line(12, '{')]
            + transforms_lines_from(r.path_transforms, 0) + seq![brace_line(12, '}')]
    } else if r.add_path.len() > 0 {
        seq![kv_line(12, "addpath"@, r.add_path)]
    } else {
        Seq::<Seq<char>>::empty()
    }) + seq![brace_line(8, '}')]
}

/// The lines of root overrides `k..` of `rs`.
pub open spec fn overrides_lines_from(rs: Seq<RootOverrideModel>, k: int) -> Seq<Seq<char>>
    decreases rs.len() - k,
{
    if k < 0 || k >= rs.len() {
        Seq::empty()
    } else {
        override_lines(rs[k], k as nat) + overrides_lines_from(rs, k + 1)
    }
}

/// The `savefiles` block (absent when there is no entry).
pub open spec fn savefiles_block(es: Seq<SaveFileModel>) -> Seq<Seq<char>> {
    if es.len() == 0 {
        Seq::empty()
    } else {
        seq![word_line(4, "savefiles"@), brace_line(4, '{')] + savefiles_lines_from(es, 0)
            + seq![brace_line(4, '}')]
    }
}

/// The `rootoverrides` block (absent when there is no entry).
pub open spec fn overrides_block(rs: Seq<RootOverrideModel>) -> Seq<Seq<char>> {
    if rs.len() == 0 {
        Seq::empty()
    } else {
        seq![word_line(4, "rootoverrides"@), brace_line(4, '{')] + overrides_lines_from(rs, 0)
            + seq![brace_line(4, '}')]
    }
}

/// All lines of the text form.
pub open spec fn ufs_lines(es: Seq<SaveFileModel>, rs: Seq<RootOverrideModel>) -> Seq<Seq<char>> {
    seq![word_line(0, "ufs"@), brace_line(0, '{')] + savefiles_block(es) + overrides_block(rs)
        + seq![brace_line(0, '}')]
}

/// The text form: its lines joined by line feeds.
pub open spec fn ufs_text(es: Seq<SaveFileModel>, rs: Seq<RootOverrideModel>) -> Seq<char> {
    crate::text::join_with(ufs_lines(es, rs), seq!['\n'])
}

fn push_spaces(s: &mut String, n: usize)
    ensures
        final(s)@ == old(s)@ + spaces(n as nat),
{
    let mut k: usize = 0;
    while k < n
        invariant
            k <= n,
            s@ == old(s)@ + spaces(k as nat),
        decreases n - k,
    {
        push_char(s, ' ');
        k = k + 1;
        assert(s@ =~= old(s)@ + spaces(k as nat));
    }
}

fn make_kv_line(indent: usize, key: &str, value: &str) -> (r: String)
    ensures
        r@ == kv_line(indent as nat, key@, value@),
{
    let mut s = String::new();
    push_spaces(&mut s, indent);
    push_char(&mut s, '"');
    s.append(key);
    push_char(&mut s, '"');
    push_char(&mut s, ' ');
    push_char(&mut s, '"');
    s.append(value);
    push_char(&mut s, '"');
    assert(s@ =~= kv_line(indent as nat, key@, value@));
    s
}

fn make_word_line(indent: usize, word: &str) -> (r: String)
    ensures
        r@ == word_line(indent as nat, word@),
{
    let mut s = String::new();
    push_spaces(&mut s, indent);
    push_char(&mut s, '"');
    s.append(word);
    push_char(&mut s, '"');
    assert(s@ =~= word_line(indent as nat, word@));
    s
}

fn make_index_line(indent: usize, i: usize) -> (r: String)
    ensures
        r@ == word_line(indent as nat, crate::text::decimal(i as nat)),
{
    let mut s = String::new();
    push_spaces(&mut s, indent);
    push_char(&mut s, '"');
    append_decimal(&mut s, i as u64);
    push_char(&mut s, '"');
    assert(s@ =~= word_line(indent as nat, crate::text::decimal(i as nat)));
    s
}

fn make_brace_line(indent: usize, brace: char) -> (r: String)
    ensures
        r@ == brace_line(indent as nat, brace),
{
    let mut s = String::new();
    push_spaces(&mut s, indent);
    push_char(&mut s, brace);
    assert(s@ =~= brace_line(indent as nat, brace));
    s
}

/// The characters of each line of a list.
pub open spec fn lines_view(v: Seq<String>) -> Seq<Seq<char>> {
    v.map_values(|s: String| s@)
}

fn push_line(lines: &mut Vec<String>, line: String)
    ensures
        lines_view(final(lines)@) == lines_view(old(lines)@).push(line@),
{
    lines.push(line);
    assert(lines_view(lines@) =~= lines_view(old(lines)@).push(line@));
}

/// Whether the platform list is exactly `["all"]`.
fn is_all_only(platforms: &Vec<String>) -> (r: bool)
    ensures
        r == (platforms@.len() == 1 && platforms@[0]@ == "all"@),
{
    platforms.len() == 1 && crate::text::str_eq(platforms[0].as_str(), "all")
}

/// Platform names joined with commas (Steam's `oslist` form).
fn platforms_to_oslist(platforms: &Vec<String>) -> (r: String)
    ensures
        r@ == crate::text::join_with(crate::config::strings_view(platforms@), seq![',']),
{
    let mut s = String::new();
    let mut k: usize = 0;
    while k < platforms.len()
        invariant
            k <= platforms@.len(),
            s@ == crate::text::join_with(crate::config::strings_view(platforms@).take(k as int), seq![',']),
        decreases platforms.len() - k,
    {
        let ghost before = crate::config::strings_view(platforms@).take(k as int);
        if k > 0 {
            push_char(&mut s, ',');
        }
        s.append(platforms[k].as_str());
        k = k + 1;
        proof {
            let now = crate::config::strings_view(platforms@).take(k as int);
            assert(now.drop_last() =~= before);
            if k == 1 {
                assert(s@ =~= now[0]);
            } else {
                assert(s@ =~= crate::text::join_with(before, seq![',']) + seq![','] + now.last());
            }
        }
    }
    assert(crate::config::strings_view(platforms@).take(platforms@.len() as int) =~= crate::config::strings_view(platforms@));
    s
}

fn push_savefile_lines(lines: &mut Vec<String>, e: &SaveFileEntry, i: usize)
    ensures
        lines_view(final(lines)@) == lines_view(old(lines)@) + savefile_lines(e@, i as nat),
{
    push_line(lines, make_index_line(8, i));
    push_line(lines, make_brace_line(8, '{'));
    push_line(lines, make_kv_line(12, "root", e.root.as_str()));
    push_line(lines, make_kv_line(12, "path", e.path.as_str()));
    push_line(lines, make_kv_line(12, "pattern", e.pattern.as_str()));
    push_line(lines, make_kv_line(12, "recursive", if e.recursive { "1" } else { "0" }));
    let written = e.platforms.len() > 0 && !is_all_only(&e.platforms);
    if written {
        let oslist = platforms_to_oslist(&e.platforms);
        push_line(lines, make_kv_line(12, "platforms", oslist.as_str()));
    }
    push_line(lines, make_brace_line(8, '}'));
    assert(lines_view(lines@) =~= lines_view(old(lines)@) + savefile_lines(e@, i as nat));
}

fn push_transform_lines(lines: &mut Vec<String>, t: &PathTransform, j: usize)
    ensures
        lines_view(final(lines)@) == lines_view(old(lines)@) + transform_lines(t@, j as nat),
{
    push_line(lines, make_index_line(16, j));
    push_line(lines, make_brace_line(16, '{'));
    push_line(lines, make_kv_line(20, "find", t.find.as_str()));
    push_line(lines, make_kv_line(20, "replace", t.replace.as_str()));
    push_line(lines, make_brace_line(16, '}'));
    assert(lines_view(lines@) =~= lines_view(old(lines)@) + transform_lines(t@, j as nat));
}

fn push_override_lines(lines: &mut Vec<String>, r: &RootOverrideEntry, i: usize)
    ensures
        lines_view(final(lines)@) == lines_view(old(lines)@) + override_lines(r@, i as nat),
{
    push_line(lines, make_index_line(8, i));
    push_line(lines, make_brace_line(8, '{'));
    push_line(lines, make_kv_line(12, "root", r.original_root.as_str()));
    push_line(lines, make_kv_line(12, "os", r.os.as_str()));
    push_line(lines, make_kv_line(12, "oscompare", "="));
    push_line(lines, make_kv_line(12, "useinstead", r.new_root.as_str()));
    let ghost mid = lines_view(lines@);
    let ghost ts = r@.path_transforms;
    if r.path_transforms.len() > 0 {
        push_line(lines, make_word_line(12, "pathtransforms"));
        push_line(lines, make_brace_line(12, '{'));
        let ghost start = lines_view(lines@);
        let mut j: usize = 0;
        assert(start + transforms_lines_from(ts, 0) =~= start + transforms_lines_from(ts, 0));
        while j < r.path_transforms.len()
            invariant
                j <= r.path_transforms@.len(),
                ts == r@.path_transforms,
                ts.len() == r.path_transforms@.len(),
                lines_view(lines@) + transforms_lines_from(ts, j as int) == start + transforms_lines_from(ts, 0),
            decreases r.path_transforms.len() - j,
        {
            let ghost before = lines_view(lines@);
            push_transform_lines(lines, &r.path_transforms[j], j);
            assert(r.path_transforms@[j as int]@ == ts[j as int]);
            j = j + 1;
            assert(lines_view(lines@) + transforms_lines_from(ts, j as int) =~= before + transforms_lines_from(ts, j - 1));
        }
        push_line(lines, make_brace_line(12, '}'));
        assert(transforms_lines_from(ts, j as int) =~= Seq::<Seq<char>>::empty());
    } else if !r.add_path.as_str().is_empty() {
        push_line(lines, make_kv_line(12, "addpath", r.add_path.as_str()));
    }
    push_line(lines, make_brace_line(8, '}'));
    assert(lines_view(lines@) =~= lines_view(old(lines)@) + override_lines(r@, i as nat));
}

/// Glues lines together with line feeds.
fn join_lines(lines: &Vec<String>) -> (r: String)
    ensures
        r@ == crate::text::join_with(lines_view(lines@), seq!['\n']),
{
    let mut s = String::new();
    let mut k: usize = 0;
    while k < lines.len()
        invariant
            k <= lines@.len(),
            s@ == crate::text::join_with(lines_view(lines@).take(k as int), seq!['\n']),
        decreases lines.len() - k,
    {
        let ghost before = lines_view(lines@).take(k as int);
        if k > 0 {
            push_char(&mut s, '\n');
        }
        s.append(lines[k].as_str());
        k = k + 1;
        proof {
            let now = lines_view(lines@).take(k as int);
            assert(now.drop_last() =~= before);
            if k == 1 {
                assert(s@ =~= now[0]);
            } else {
                assert(s@ =~= crate::text::join_with(before, seq!['\n']) + seq!['\n'] + now.last());
            }
        }
    }
    assert(lines_view(lines@).take(lines@.len() as int) =~= lines_view(lines@));
    s
}

/// Writes the entries in the text form of the `ufs` section.
pub fn entries_to_ufs_text(savefiles: &[SaveFileEntry], overrides: &[RootOverrideEntry]) -> (r: String)
    ensures
        r@ == ufs_text(
            savefiles@.map_values(|e: SaveFileEntry| e@),
            overrides@.map_values(|e: RootOverrideEntry| e@),
        ),
{
    let ghost es = savefiles@.map_values(|e: SaveFileEntry| e@);
    let ghost rs = overrides@.map_values(|e: RootOverrideEntry| e@);
    let mut lines: Vec<String> = Vec::new();
    push_line(&mut lines, make_word_line(0, "ufs"));
    push_line(&mut lines, make_brace_line(0, '{'));
    let ghost head = lines_view(lines@);
    if savefiles.len() > 0 {
        push_line(&mut lines, make_word_line(4, "savefiles"));
        push_line(&mut lines, make_brace_line(4, '{'));
        let ghost start = lines_view(lines@);
        let mut i: usize = 0;
        while i < savefiles.len()
            invariant
                i <= savefiles@.len(),
                es == savefiles@.map_values(|e: SaveFileEntry| e@),
                lines_view(lines@) + savefiles_lines_from(es, i as int) == start + savefiles_lines_from(es, 0),
            decreases savefiles.len() - i,
        {
            let ghost before = lines_view(lines@);
            push_savefile_lines(&mut lines, &savefiles[i], i);
            i = i + 1;
            assert(lines_view(lines@) + savefiles_lines_from(es, i as int) =~= before + savefiles_lines_from(es, i - 1));
        }
        push_line(&mut lines, make_brace_line(4, '}'));
        assert(savefiles_lines_from(es, i as int) =~= Seq::<Seq<char>>::empty());
    }
    assert(lines_view(lines@) =~= head + savefiles_block(es));
    let ghost mid = lines_view(lines@);
    if overrides.len() > 0 {
        push_line(&mut lines, make_word_line(4, "rootoverrides"));
        push_line(&mut lines, make_brace_line(4, '{'));
        let ghost start = lines_view(lines@);
        let mut i: usize = 0;
        while i < overrides.len()
            invariant
                i <= overrides@.len(),
                rs == overrides@.map_values(|e: RootOverrideEntry| e@),
                lines_view(lines@) + overrides_lines_from(rs, i as int) == start + overrides_lines_from(rs, 0),
            decreases overrides.len() - i,
        {
            let ghost before = lines_view(lines@);
            push_override_lines(&mut lines, &overrides[i], i);
            i = i + 1;
            assert(lines_view(lines@) + overrides_lines_from(rs, i as int) =~= before + overrides_lines_from(rs, i - 1));
        }
        push_line(&mut lines, make_brace_line(4, '}'));
        assert(overrides_lines_from(rs, i as int) =~= Seq::<Seq<char>>::empty());
    }
    assert(lines_view(lines@) =~= mid + overrides_block(rs));
    push_line(&mut lines, make_brace_line(0, '}'));
    assert(lines_view(lines@) =~= ufs_lines(es, rs));
    join_lines(&lines)
}


// ---------------------------------------------------------------------------
// Parsing
// ---------------------------------------------------------------------------

/// A line (already trimmed) that is a bare `"`: taking the text between its
/// quotes makes the parser fail, as slicing `line[1..0]` does.
pub open spec fn is_lone_quote(t: Seq<char>) -> bool {
    t.len() == 1 && t[0] == '"'
}

/// A trimmed line of the form `"<decimal digits>"` (no digits allowed).
pub open spec fn is_index_line(t: Seq<char>) -> bool {
    &&& t.len() >= 2
    &&& t[0] == '"'
    &&& t.last() == '"'
    &&& forall|k: int| 1 <= k < t.len() - 1 ==> '0' <= #[trigger] t[k] <= '9'
}

/// The key and value of a `"key" "value"` line: the second and fourth
/// quote-separated pieces, when there are at least four.
pub open spec fn extract_kv(t: Seq<char>) -> Option<(Seq<char>, Seq<char>)> {
    let parts = crate::text::split_on(t, '"');
    if parts.len() >= 4 {
        Some((parts[1], parts[3]))
    } else {
        None
    }
}

/// The non-empty pieces of a list.
pub open spec fn non_empty_only(s: Seq<Seq<char>>) -> Seq<Seq<char>>
    decreases s.len(),
{
    if s.len() == 0 {
        s
    } else if s.last().len() > 0 {
        non_empty_only(s.drop_last()).push(s.last())
    } else {
        non_empty_only(s.drop_last())
    }
}

/// Platform names of an `oslist`: comma-separated, trimmed, empty ones dropped.
pub open spec fn oslist_to_platforms(v: Seq<char>) -> Seq<Seq<char>> {
    non_empty_only(crate::text::split_on(v, ',').map_values(|p: Seq<char>| crate::text::trim(p)))
}

/// A save-file entry before any of its lines is read.
pub open spec fn default_savefile() -> SaveFileModel {
    SaveFileModel {
        root: Seq::empty(),
        path: Seq::empty(),
        pattern: "*"@,
        platforms: seq!["all"@],
        recursive: true,
    }
}

/// A root override before any of its lines is read.
pub open spec fn default_override() -> RootOverrideModel {
    RootOverrideModel {
        original_root: Seq::empty(),
        os: Seq::empty(),
        new_root: Seq::empty(),
        add_path: Seq::empty(),
        path_transforms: Seq::empty(),
    }
}

/// A path rewrite before any of its lines is read.
pub open spec fn default_transform() -> PathTransformModel {
    PathTransformModel { find: Seq::empty(), replace: Seq::empty() }
}

/// The effect of one trimmed line on a save-file entry.
pub open spec fn apply_savefile_line(e: SaveFileModel, t: Seq<char>) -> SaveFileModel {
    match extract_kv(t) {
        Some((k, v)) => {
            if k == "root"@ {
                SaveFileModel { root: v, ..e }
            } else if k == "path"@ {
                SaveFileModel { path: v, ..e }
            } else if k == "pattern"@ {
                SaveFileModel { pattern: v, ..e }
            } else if k == "recursive"@ {
                SaveFileModel { recursive: v != "0"@, ..e }
            } else if k == "platforms"@ {
                SaveFileModel { platforms: oslist_to_platforms(v), ..e }
            } else {
                e
            }
        },
        None => e,
    }
}

/// The effect of one trimmed line on a root override.
pub open spec fn apply_override_line(e: RootOverrideModel, t: Seq<char>) -> RootOverrideModel {
    match extract_kv(t) {
        Some((k, v)) => {
            if k == "root"@ {
                RootOverrideModel { original_root: v, ..e }
            } else if k == "os"@ {
                RootOverrideModel { os: v, ..e }
            } else if k == "useinstead"@ {
                RootOverrideModel { new_root: v, ..e }
            } else if k == "addpath"@ {
                RootOverrideModel { add_path: v, ..e }
            } else {
                e
            }
        },
        None => e,
    }
}

/// The effect of one trimmed line on a path rewrite.
pub open spec fn apply_transform_line(e: PathTransformModel, t: Seq<char>) -> PathTransformModel {
    match extract_kv(t) {
        Some((k, v)) => {
            if k == "find"@ {
                PathTransformModel { find: v, ..e }
            } else if k == "replace"@ {
                PathTransformModel { replace: v, ..e }
            } else {
                e
            }
        },
        None => e,
    }
}

/// Reads the lines of one save-file entry from line `i` up to and including
/// its closing brace; gives the entry and the index of the next line.
pub open spec fn parse_savefile_entry(lines: Seq<Seq<char>>, i: int, e: SaveFileModel) -> (SaveFileModel, int)
    decreases lines.len() + 1 - i,
{
    if i < 0 || i >= lines.len() {
        (e, i)
    } else if crate::text::trim(lines[i]) == seq!['}'] {
        (e, i + 1)
    } else {
        parse_savefile_entry(lines, i + 1, apply_savefile_line(e, crate::text::trim(lines[i])))
    }
}

/// Reads the lines of one path rewrite, as [`parse_savefile_entry`] does.
pub open spec fn parse_transform_entry(lines: Seq<Seq<char>>, i: int, e: PathTransformModel) -> (PathTransformModel, int)
    decreases lines.len() + 1 - i,
{
    if i < 0 || i >= lines.len() {
        (e, i)
    } else if crate::text::trim(lines[i]) == seq!['}'] {
        (e, i + 1)
    } else {
        parse_transform_entry(lines, i + 1, apply_transform_line(e, crate::text::trim(lines[i])))
    }
}

pub proof fn lemma_savefile_entry_bounds(lines: Seq<Seq<char>>, i: int, e: SaveFileModel)
    ensures
        i <= parse_savefile_entry(lines, i, e).1,
        0 <= i <= lines.len() ==> parse_savefile_entry(lines, i, e).1 <= lines.len(),
    decreases lines.len() + 1 - i,
{
    if 0 <= i < lines.len() && crate::text::trim(lines[i]) != seq!['}'] {
        lemma_savefile_entry_bounds(lines, i + 1, apply_savefile_line(e, crate::text::trim(lines[i])));
    }
}

pub proof fn lemma_transform_entry_bounds(lines: Seq<Seq<char>>, i: int, e: PathTransformModel)
    ensures
        i <= parse_transform_entry(lines, i, e).1,
        0 <= i <= lines.len() ==> parse_transform_entry(lines, i, e).1 <= lines.len(),
    decreases lines.len() + 1 - i,
{
    if 0 <= i < lines.len() && crate::text::trim(lines[i]) != seq!['}'] {
        lemma_transform_entry_bounds(lines, i + 1, apply_transform_line(e, crate::text::trim(lines[i])));
    }
}

/// Reads the entries of a `savefiles` block from line `i` up to and including
/// its closing brace: `None` where the parser fails on a lone quote.
pub open spec fn parse_savefiles_section(lines: Seq<Seq<char>>, i: int) -> Option<(Seq<SaveFileModel>, int)>
    decreases lines.len() + 1 - i,
{
    if i < 0 || i >= lines.len() {
        Some((Seq::empty(), i))
    } else {
        let t = crate::text::trim(lines[i]);
        if t == seq!['}'] {
            Some((Seq::empty(), i + 1))
        } else if is_lone_quote(t) {
            None
        } else if is_index_line(t) {
            if i + 1 < lines.len() && crate::text::trim(lines[i + 1]) == seq!['{'] {
                let (entry, next) = parse_savefile_entry(lines, i + 2, default_savefile());
                proof { lemma_savefile_entry_bounds(lines, i + 2, default_savefile()); }
                match parse_savefiles_section(lines, next) {
                    Some((rest, end)) => Some((seq![entry] + rest, end)),
                    None => None,
                }
            } else {
                parse_savefiles_section(lines, i + 1)
            }
        } else {
            parse_savefiles_section(lines, i + 1)
        }
    }
}

/// Reads the path rewrites of a `pathtransforms` block.
pub open spec fn parse_transforms_section(lines: Seq<Seq<char>>, i: int) -> Option<(Seq<PathTransformModel>, int)>
    decreases lines.len() + 1 - i,
{
    if i < 0 || i >= lines.len() {
        Some((Seq::empty(), i))
    } else {
        let t = crate::text::trim(lines[i]);
        if t == seq!['}'] {
            Some((Seq::empty(), i + 1))
        } else if is_lone_quote(t) {
            None
        } else if is_index_line(t) {
            if i + 1 < lines.len() && crate::text::trim(lines[i + 1]) == seq!['{'] {
                let (entry, next) = parse_transform_entry(lines, i + 2, default_transform());
                proof { lemma_transform_entry_bounds(lines, i + 2, default_transform()); }
                match parse_transforms_section(lines, next) {
                    Some((rest, end)) => Some((seq![entry] + rest, end)),
                    None => None,
                }
            } else {
                parse_transforms_section(lines, i + 2)
            }
        } else {
            parse_transforms_section(lines, i + 1)
        }
    }
}

pub proof fn lemma_transforms_section_bounds(lines: Seq<Seq<char>>, i: int)
    ensures
        parse_transforms_section(lines, i) matches Some((_, end)) ==> {
            &&& i <= end
            &&& (0 <= i <= lines.len() + 1 ==> end <= lines.len() + 1)
        },
    decreases lines.len() + 1 - i,
{
    if 0 <= i < lines.len() {
        let t = crate::text::trim(lines[i]);
        if t != seq!['}'] && !is_lone_quote(t) {
            if is_index_line(t) {
                if i + 1 < lines.len() && crate::text::trim(lines[i + 1]) == seq!['{'] {
                    lemma_transform_entry_bounds(lines, i + 2, default_transform());
                    let next = parse_transform_entry(lines, i + 2, default_transform()).1;
                    lemma_transforms_section_bounds(lines, next);
                } else {
                    lemma_transforms_section_bounds(lines, i + 2);
                }
            } else {
                lemma_transforms_section_bounds(lines, i + 1);
            }
        }
    }
}

/// Reads the lines of one root override, including a nested
/// `pathtransforms` block.
pub open spec fn parse_override_entry(lines: Seq<Seq<char>>, i: int, e: RootOverrideModel) -> Option<(RootOverrideModel, int)>
    decreases lines.len() + 1 - i,
{
    if i < 0 || i >= lines.len() {
        Some((e, i))
    } else {
        let t = crate::text::trim(lines[i]);
        if t == seq!['}'] {
            Some((e, i + 1))
        } else if t == quoted("pathtransforms"@) {
            if i + 1 < lines.len() && crate::text::trim(lines[i + 1]) == seq!['{'] {
                proof { lemma_transforms_section_bounds(lines, i + 2); }
                match parse_transforms_section(lines, i + 2) {
                    Some((ts, next)) => parse_override_entry(
                        lines,
                        next,
                        RootOverrideModel { path_transforms: e.path_transforms + ts, ..e },
                    ),
                    None => None,
                }
            } else {
                parse_override_entry(lines, i + 1, e)
            }
        } else {
            parse_override_entry(lines, i + 1, apply_override_line(e, t))
        }
    }
}

pub proof fn lemma_override_entry_bounds(lines: Seq<Seq<char>>, i: int, e: RootOverrideModel)
    ensures
        parse_override_entry(lines, i, e) matches Some((_, end)) ==> {
            &&& i <= end
            &&& (0 <= i <= lines.len() + 1 ==> end <= lines.len() + 1)
        },
    decreases lines.len() + 1 - i,
{
    if 0 <= i < lines.len() {
        let t = crate::text::trim(lines[i]);
        if t != seq!['}'] {
            if t == quoted("pathtransforms"@) {
                if i + 1 < lines.len() && crate::text::trim(lines[i + 1]) == seq!['{'] {
                    lemma_transforms_section_bounds(lines, i + 2);
                    if let Some((ts, next)) = parse_transforms_section(lines, i + 2) {
                        lemma_override_entry_bounds(lines, next, RootOverrideModel { path_transforms: e.path_transforms + ts, ..e });
                    }
                } else {
                    lemma_override_entry_bounds(lines, i + 1, e);
                }
            } else {
                lemma_override_entry_bounds(lines, i + 1, apply_override_line(e, t));
            }
        }
    }
}

/// Reads the entries of a `rootoverrides` block.
pub open spec fn parse_overrides_section(lines: Seq<Seq<char>>, i: int) -> Option<(Seq<RootOverrideModel>, int)>
    decreases lines.len() + 1 - i,
{
    if i < 0 || i >= lines.len() {
        Some((Seq::empty(), i))
    } else {
        let t = crate::text::trim(lines[i]);
        if t == seq!['}'] {
            Some((Seq::empty(), i + 1))
        } else if is_lone_quote(t) {
            None
        } else if is_index_line(t) {
            if i + 1 < lines.len() && crate::text::trim(lines[i + 1]) == seq!['{'] {
                proof { lemma_override_entry_bounds(lines, i + 2, default_override()); }
                match parse_override_entry(lines, i + 2, default_override()) {
                    Some((entry, next)) => match parse_overrides_section(lines, next) {
                        Some((rest, end)) => Some((seq![entry] + rest, end)),
                        None => None,
                    },
                    None => None,
                }
            } else {
                parse_overrides_section(lines, i + 1)
            }
        } else {
            parse_overrides_section(lines, i + 1)
        }
    }
}

pub proof fn lemma_savefiles_section_bounds(lines: Seq<Seq<char>>, i: int)
    ensures
        parse_savefiles_section(lines, i) matches Some((_, end)) ==> {
            &&& i <= end
            &&& (0 <= i <= lines.len() + 1 ==> end <= lines.len() + 1)
        },
    decreases lines.len() + 1 - i,
{
    if 0 <= i < lines.len() {
        let t = crate::text::trim(lines[i]);
        if t != seq!['}'] && !is_lone_quote(t) {
            if is_index_line(t) && i + 1 < lines.len() && crate::text::trim(lines[i + 1]) == seq!['{'] {
                lemma_savefile_entry_bounds(lines, i + 2, default_savefile());
                let next = parse_savefile_entry(lines, i + 2, default_savefile()).1;
                lemma_savefiles_section_bounds(lines, next);
            } else {
                lemma_savefiles_section_bounds(lines, i + 1);
            }
        }
    }
}

pub proof fn lemma_overrides_section_bounds(lines: Seq<Seq<char>>, i: int)
    ensures
        parse_overrides_section(lines, i) matches Some((_, end)) ==> {
            &&& i <= end
            &&& (0 <= i <= lines.len() + 1 ==> end <= lines.len() + 1)
        },
    decreases lines.len() + 1 - i,
{
    if 0 <= i < lines.len() {
        let t = crate::text::trim(lines[i]);
        if t != seq!['}'] && !is_lone_quote(t) {
            if is_index_line(t) && i + 1 < lines.len() && crate::text::trim(lines[i + 1]) == seq!['{'] {
                lemma_override_entry_bounds(lines, i + 2, default_override());
                if let Some((_, next)) = parse_override_entry(lines, i + 2, default_override()) {
                    lemma_overrides_section_bounds(lines, next);
                }
            } else {
                lemma_overrides_section_bounds(lines, i + 1);
            }
        }
    }
}

/// Reads the whole text from line `i` on, adding what it finds to the
/// entries read so far; `None` where the parser fails.
pub open spec fn parse_from(
    lines: Seq<Seq<char>>,
    i: int,
    es: Seq<SaveFileModel>,
    rs: Seq<RootOverrideModel>,
) -> Option<(Seq<SaveFileModel>, Seq<RootOverrideModel>)>
    decreases lines.len() + 1 - i,
{
    if i < 0 || i >= lines.len() {
        Some((es, rs))
    } else {
        let t = crate::text::trim(lines[i]);
        if t == quoted("savefiles"@) {
            proof { lemma_savefiles_section_bounds(lines, i + 2); }
            match parse_savefiles_section(lines, i + 2) {
                Some((found, next)) => parse_from(lines, next, es + found, rs),
                None => None,
            }
        } else if t == quoted("rootoverrides"@) {
            proof { lemma_overrides_section_bounds(lines, i + 2); }
            match parse_overrides_section(lines, i + 2) {
                Some((found, next)) => parse_from(lines, next, es, rs + found),
                None => None,
            }
        } else {
            parse_from(lines, i + 1, es, rs)
        }
    }
}

/// What the text form reads as: the save-file entries and root overrides it
/// holds, or `None` where the parser fails on a lone `"` line inside a block.
pub open spec fn parse_ufs(text: Seq<char>) -> Option<(Seq<SaveFileModel>, Seq<RootOverrideModel>)> {
    parse_from(crate::text::text_lines(text), 0, Seq::empty(), Seq::empty())
}


/// The characters of each line buffer.
pub open spec fn buffers_view(v: Seq<Vec<char>>) -> Seq<Seq<char>> {
    v.map_values(|l: Vec<char>| l@)
}

/// Entries found so far put in front of what the rest of a block gives.
pub open spec fn with_found<X>(found: Seq<X>, r: Option<(Seq<X>, int)>) -> Option<(Seq<X>, int)> {
    match r {
        Some((rest, end)) => Some((found + rest, end)),
        None => None,
    }
}

proof fn lemma_with_found_push<X>(found: Seq<X>, x: X, r: Option<(Seq<X>, int)>)
    ensures
        with_found(found, with_found(seq![x], r)) == with_found(found.push(x), r),
{
    match r {
        Some((rest, end)) => {
            assert(found + (seq![x] + rest) =~= found.push(x) + rest);
        },
        None => {},
    }
}

fn is_lone_quote_exec(t: &Vec<char>) -> (r: bool)
    ensures
        r == is_lone_quote(t@),
{
    t.len() == 1 && t[0] == '"'
}

fn is_index_line_exec(t: &Vec<char>) -> (r: bool)
    ensures
        r == is_index_line(t@),
{
    let n = t.len();
    if n < 2 || t[0] != '"' || t[n - 1] != '"' {
        return false;
    }
    let mut k: usize = 1;
    while k < n - 1
        invariant
            2 <= n == t@.len(),
            1 <= k <= n - 1,
            forall|j: int| 1 <= j < k ==> '0' <= #[trigger] t@[j] <= '9',
        decreases n - 1 - k,
    {
        if t[k] < '0' || t[k] > '9' {
            return false;
        }
        k = k + 1;
    }
    true
}

fn is_brace(t: &Vec<char>, c: char) -> (r: bool)
    ensures
        r == (t@ == seq![c]),
{
    let r = t.len() == 1 && t[0] == c;
    if r {
        assert(t@ =~= seq![c]);
    }
    r
}

fn extract_kv_exec(t: &Vec<char>) -> (r: Option<(Vec<char>, Vec<char>)>)
    ensures
        match extract_kv(t@) {
            Some((k, v)) => r matches Some((rk, rv)) && rk@ == k && rv@ == v,
            None => r is None,
        },
{
    let mut parts = split_chars(t.as_slice(), '"');
    if parts.len() >= 4 {
        let v = parts.remove(3);
        let k = parts.remove(1);
        Some((k, v))
    } else {
        None
    }
}

fn non_empty_strings(v: &Vec<Vec<char>>) -> (r: Vec<String>)
    ensures
        crate::config::strings_view(r@) == non_empty_only(buffers_view(v@)),
{
    let mut r: Vec<String> = Vec::new();
    let mut k: usize = 0;
    while k < v.len()
        invariant
            k <= v@.len(),
            crate::config::strings_view(r@) == non_empty_only(buffers_view(v@).take(k as int)),
        decreases v.len() - k,
    {
        let ghost before = buffers_view(v@).take(k as int);
        let ghost old_r = crate::config::strings_view(r@);
        if v[k].len() > 0 {
            r.push(seq_string(v[k].as_slice()));
            assert(crate::config::strings_view(r@) =~= old_r.push(v@[k as int]@));
        }
        k = k + 1;
        assert(buffers_view(v@).take(k as int).drop_last() =~= before);
    }
    assert(buffers_view(v@).take(v@.len() as int) =~= buffers_view(v@));
    r
}

fn oslist_to_platforms_exec(v: &Vec<char>) -> (r: Vec<String>)
    ensures
        crate::config::strings_view(r@) == oslist_to_platforms(v@),
{
    let parts = split_chars(v.as_slice(), ',');
    let mut trimmed: Vec<Vec<char>> = Vec::new();
    let mut k: usize = 0;
    while k < parts.len()
        invariant
            k <= parts@.len(),
            parts@.len() == crate::text::split_on(v@, ',').len(),
            forall|j: int| 0 <= j < parts@.len() ==> (#[trigger] parts@[j])@ == crate::text::split_on(v@, ',')[j],
            trimmed@.len() == k,
            forall|j: int| 0 <= j < k ==> (#[trigger] trimmed@[j])@ == crate::text::trim(crate::text::split_on(v@, ',')[j]),
        decreases parts.len() - k,
    {
        trimmed.push(trim_chars(parts[k].as_slice()));
        k = k + 1;
    }
    assert(buffers_view(trimmed@) =~= crate::text::split_on(v@, ',').map_values(|p: Seq<char>| crate::text::trim(p)));
    non_empty_strings(&trimmed)
}

fn new_savefile() -> (r: SaveFileEntry)
    ensures
        r@ == default_savefile(),
{
    let mut platforms: Vec<String> = Vec::new();
    platforms.push(String::from_str("all"));
    let r = SaveFileEntry {
        root: String::new(),
        path: String::new(),
        pattern: String::from_str("*"),
        platforms,
        recursive: true,
    };
    assert(r@.platforms =~= seq!["all"@]);
    assert(r@.root =~= Seq::<char>::empty());
    assert(r@.path =~= Seq::<char>::empty());
    r
}

fn new_override() -> (r: RootOverrideEntry)
    ensures
        r@ == default_override(),
{
    let r = RootOverrideEntry {
        original_root: String::new(),
        os: String::new(),
        new_root: String::new(),
        add_path: String::new(),
        path_transforms: Vec::new(),
    };
    assert(r@.path_transforms =~= Seq::<PathTransformModel>::empty());
    r
}

fn new_transform() -> (r: PathTransform)
    ensures
        r@ == default_transform(),
{
    PathTransform { find: String::new(), replace: String::new() }
}

fn apply_savefile_line_exec(e: &mut SaveFileEntry, t: &Vec<char>)
    ensures
        final(e)@ == apply_savefile_line(old(e)@, t@),
{
    match extract_kv_exec(t) {
        Some((k, v)) => {
            if chars_eq_str(k.as_slice(), "root") {
                e.root = seq_string(v.as_slice());
            } else if chars_eq_str(k.as_slice(), "path") {
                e.path = seq_string(v.as_slice());
            } else if chars_eq_str(k.as_slice(), "pattern") {
                e.pattern = seq_string(v.as_slice());
            } else if chars_eq_str(k.as_slice(), "recursive") {
                e.recursive = !chars_eq_str(v.as_slice(), "0");
            } else if chars_eq_str(k.as_slice(), "platforms") {
                e.platforms = oslist_to_platforms_exec(&v);
            }
        },
        None => {},
    }
}

fn apply_override_line_exec(e: &mut RootOverrideEntry, t: &Vec<char>)
    ensures
        final(e)@ == apply_override_line(old(e)@, t@),
{
    match extract_kv_exec(t) {
        Some((k, v)) => {
            if chars_eq_str(k.as_slice(), "root") {
                e.original_root = seq_string(v.as_slice());
            } else if chars_eq_str(k.as_slice(), "os") {
                e.os = seq_string(v.as_slice());
            } else if chars_eq_str(k.as_slice(), "useinstead") {
                e.new_root = seq_string(v.as_slice());
            } else if chars_eq_str(k.as_slice(), "addpath") {
                e.add_path = seq_string(v.as_slice());
            }
        },
        None => {},
    }
}

fn apply_transform_line_exec(e: &mut PathTransform, t: &Vec<char>)
    ensures
        final(e)@ == apply_transform_line(old(e)@, t@),
{
    match extract_kv_exec(t) {
        Some((k, v)) => {
            if chars_eq_str(k.as_slice(), "find") {
                e.find = seq_string(v.as_slice());
            } else if chars_eq_str(k.as_slice(), "replace") {
                e.replace = seq_string(v.as_slice());
            }
        },
        None => {},
    }
}

fn read_savefile_entry(lines: &Vec<Vec<char>>, i0: usize) -> (r: (SaveFileEntry, usize))
    ensures
        (r.0@, r.1 as int) == parse_savefile_entry(buffers_view(lines@), i0 as int, default_savefile()),
{
    let ghost lv = buffers_view(lines@);
    let mut e = new_savefile();
    let mut i = i0;
    while i < lines.len()
        invariant
            lv == buffers_view(lines@),
            i0 <= i,
            parse_savefile_entry(lv, i0 as int, default_savefile()) == parse_savefile_entry(lv, i as int, e@),
        decreases lines.len() - i,
    {
        let t = trim_chars(lines[i].as_slice());
        assert(lv[i as int] == lines@[i as int]@);
        if is_brace(&t, '}') {
            return (e, i + 1);
        }
        apply_savefile_line_exec(&mut e, &t);
        i = i + 1;
    }
    (e, i)
}

fn read_transform_entry(lines: &Vec<Vec<char>>, i0: usize) -> (r: (PathTransform, usize))
    ensures
        (r.0@, r.1 as int) == parse_transform_entry(buffers_view(lines@), i0 as int, default_transform()),
{
    let ghost lv = buffers_view(lines@);
    let mut e = new_transform();
    let mut i = i0;
    while i < lines.len()
        invariant
            lv == buffers_view(lines@),
            i0 <= i,
            parse_transform_entry(lv, i0 as int, default_transform()) == parse_transform_entry(lv, i as int, e@),
        decreases lines.len() - i,
    {
        let t = trim_chars(lines[i].as_slice());
        assert(lv[i as int] == lines@[i as int]@);
        if is_brace(&t, '}') {
            return (e, i + 1);
        }
        apply_transform_line_exec(&mut e, &t);
        i = i + 1;
    }
    (e, i)
}


fn read_transforms_section(lines: &Vec<Vec<char>>, i0: usize, out: &mut Vec<PathTransform>) -> (r: Option<usize>)
    requires
        i0 <= lines@.len() + 1,
        lines@.len() + 3 < usize::MAX,
    ensures
        r.is_some() == parse_transforms_section(buffers_view(lines@), i0 as int).is_some(),
        r matches Some(end) ==> {
            let (found, e) = parse_transforms_section(buffers_view(lines@), i0 as int).unwrap();
            &&& end == e
            &&& final(out)@.map_values(|t: PathTransform| t@) == old(out)@.map_values(|t: PathTransform| t@) + found
        },
{
    let ghost lv = buffers_view(lines@);
    let ghost base = old(out)@.map_values(|t: PathTransform| t@);
    let ghost mut found: Seq<PathTransformModel> = Seq::empty();
    let mut i = i0;
    assert(with_found(found, parse_transforms_section(lv, i0 as int)) == parse_transforms_section(lv, i0 as int)) by {
        match parse_transforms_section(lv, i0 as int) {
            Some((rest, end)) => { assert(found + rest =~= rest); },
            None => {},
        }
    }
    assert(out@.map_values(|t: PathTransform| t@) =~= base + found);
    while i < lines.len()
        invariant
            lv == buffers_view(lines@),
            lines@.len() + 3 < usize::MAX,
            i0 <= i <= lines@.len() + 1,
            parse_transforms_section(lv, i0 as int) == with_found(found, parse_transforms_section(lv, i as int)),
            out@.map_values(|t: PathTransform| t@) == base + found,
            base == old(out)@.map_values(|t: PathTransform| t@),
        decreases lines.len() + 1 - i,
    {
        let t = trim_chars(lines[i].as_slice());
        assert(lv[i as int] == lines@[i as int]@);
        if is_brace(&t, '}') {
            assert(found + Seq::<PathTransformModel>::empty() =~= found);
            assert(parse_transforms_section(lv, i as int) == Some((Seq::<PathTransformModel>::empty(), i + 1)));
            assert(with_found(found, parse_transforms_section(lv, i as int)) == Some((found, i + 1)));
            return Some(i + 1);
        } else if is_lone_quote_exec(&t) {
            return None;
        } else if is_index_line_exec(&t) {
            let mut opened = false;
            if i + 1 < lines.len() {
                let t2 = trim_chars(lines[i + 1].as_slice());
                assert(lv[i + 1] == lines@[i + 1]@);
                opened = is_brace(&t2, '{');
            }
            if opened {
                let (entry, next) = read_transform_entry(lines, i + 2);
                proof {
                    lemma_transform_entry_bounds(lv, i + 2, default_transform());
                    lemma_with_found_push(found, entry@, parse_transforms_section(lv, next as int));
                }
                let ghost out_before = out@;
                let ghost ev = entry@;
                out.push(entry);
                proof {
                    assert(out@.map_values(|t: PathTransform| t@) =~= out_before.map_values(|t: PathTransform| t@).push(ev));
                    found = found.push(ev);
                    assert(out@.map_values(|t: PathTransform| t@) =~= base + found);
                }
                i = next;
            } else {
                i = i + 2;
            }
        } else {
            i = i + 1;
        }
    }
    assert(found + Seq::<PathTransformModel>::empty() =~= found);
    Some(i)
}

fn read_override_entry(lines: &Vec<Vec<char>>, i0: usize) -> (r: Option<(RootOverrideEntry, usize)>)
    requires
        i0 <= lines@.len() + 1,
        lines@.len() + 3 < usize::MAX,
    ensures
        match parse_override_entry(buffers_view(lines@), i0 as int, default_override()) {
            Some((e, end)) => r matches Some((re, rend)) && re@ == e && rend == end,
            None => r is None,
        },
{
    let ghost lv = buffers_view(lines@);
    let mut e = new_override();
    let mut i = i0;
    while i < lines.len()
        invariant
            lv == buffers_view(lines@),
            lines@.len() + 3 < usize::MAX,
            i0 <= i <= lines@.len() + 1,
            parse_override_entry(lv, i0 as int, default_override()) == parse_override_entry(lv, i as int, e@),
        decreases lines.len() + 1 - i,
    {
        let t = trim_chars(lines[i].as_slice());
        assert(lv[i as int] == lines@[i as int]@);
        if is_brace(&t, '}') {
            return Some((e, i + 1));
        }
        let is_transforms_key = chars_eq_str(t.as_slice(), "\"pathtransforms\"");
        proof {
            reveal_strlit("\"pathtransforms\"");
            reveal_strlit("pathtransforms");
            assert("\"pathtransforms\""@ =~= quoted("pathtransforms"@));
        }
        if is_transforms_key {
            let mut opened = false;
            if i + 1 < lines.len() {
                let t2 = trim_chars(lines[i + 1].as_slice());
                assert(lv[i + 1] == lines@[i + 1]@);
                opened = is_brace(&t2, '{');
            }
            if opened {
                let ghost before = e@;
                proof { lemma_transforms_section_bounds(lv, i + 2); }
                match read_transforms_section(lines, i + 2, &mut e.path_transforms) {
                    Some(next) => {
                        i = next;
                    },
                    None => {
                        return None;
                    },
                }
            } else {
                i = i + 1;
            }
        } else {
            apply_override_line_exec(&mut e, &t);
            i = i + 1;
        }
    }
    Some((e, i))
}

fn read_savefiles_section(lines: &Vec<Vec<char>>, i0: usize, out: &mut Vec<SaveFileEntry>) -> (r: Option<usize>)
    requires
        i0 <= lines@.len() + 1,
        lines@.len() + 3 < usize::MAX,
    ensures
        r.is_some() == parse_savefiles_section(buffers_view(lines@), i0 as int).is_some(),
        r matches Some(end) ==> {
            let (found, e) = parse_savefiles_section(buffers_view(lines@), i0 as int).unwrap();
            &&& end == e
            &&& crate::config::savefiles_view(final(out)@) == crate::config::savefiles_view(old(out)@) + found
        },
{
    let ghost lv = buffers_view(lines@);
    let ghost base = crate::config::savefiles_view(old(out)@);
    let ghost mut found: Seq<SaveFileModel> = Seq::empty();
    let mut i = i0;
    assert(with_found(found, parse_savefiles_section(lv, i0 as int)) == parse_savefiles_section(lv, i0 as int)) by {
        match parse_savefiles_section(lv, i0 as int) {
            Some((rest, end)) => { assert(found + rest =~= rest); },
            None => {},
        }
    }
    assert(crate::config::savefiles_view(out@) =~= base + found);
    while i < lines.len()
        invariant
            lv == buffers_view(lines@),
            lines@.len() + 3 < usize::MAX,
            i0 <= i <= lines@.len() + 1,
            parse_savefiles_section(lv, i0 as int) == with_found(found, parse_savefiles_section(lv, i as int)),
            crate::config::savefiles_view(out@) == base + found,
            base == crate::config::savefiles_view(old(out)@),
        decreases lines.len() + 1 - i,
    {
        let t = trim_chars(lines[i].as_slice());
        assert(lv[i as int] == lines@[i as int]@);
        if is_brace(&t, '}') {
            assert(found + Seq::<SaveFileModel>::empty() =~= found);
            assert(parse_savefiles_section(lv, i as int) == Some((Seq::<SaveFileModel>::empty(), i + 1)));
            assert(with_found(found, parse_savefiles_section(lv, i as int)) == Some((found, i + 1)));
            return Some(i + 1);
        } else if is_lone_quote_exec(&t) {
            return None;
        } else if is_index_line_exec(&t) {
            let mut opened = false;
            if i + 1 < lines.len() {
                let t2 = trim_chars(lines[i + 1].as_slice());
                assert(lv[i + 1] == lines@[i + 1]@);
                opened = is_brace(&t2, '{');
            }
            if opened {
                let (entry, next) = read_savefile_entry(lines, i + 2);
                proof {
                    lemma_savefile_entry_bounds(lv, i + 2, default_savefile());
                    lemma_with_found_push(found, entry@, parse_savefiles_section(lv, next as int));
                }
                let ghost out_before = out@;
                let ghost ev = entry@;
                out.push(entry);
                proof {
                    assert(crate::config::savefiles_view(out@) =~= crate::config::savefiles_view(out_before).push(ev));
                    found = found.push(ev);
                    assert(crate::config::savefiles_view(out@) =~= base + found);
                }
                i = next;
            } else {
                i = i + 1;
            }
        } else {
            i = i + 1;
        }
    }
    assert(found + Seq::<SaveFileModel>::empty() =~= found);
    Some(i)
}

fn read_overrides_section(lines: &Vec<Vec<char>>, i0: usize, out: &mut Vec<RootOverrideEntry>) -> (r: Option<usize>)
    requires
        i0 <= lines@.len() + 1,
        lines@.len() + 3 < usize::MAX,
    ensures
        r.is_some() == parse_overrides_section(buffers_view(lines@), i0 as int).is_some(),
        r matches Some(end) ==> {
            let (found, e) = parse_overrides_section(buffers_view(lines@), i0 as int).unwrap();
            &&& end == e
            &&& crate::config::overrides_view(final(out)@) == crate::config::overrides_view(old(out)@) + found
        },
{
    let ghost lv = buffers_view(lines@);
    let ghost base = crate::config::overrides_view(old(out)@);
    let ghost mut found: Seq<RootOverrideModel> = Seq::empty();
    let mut i = i0;
    assert(with_found(found, parse_overrides_section(lv, i0 as int)) == parse_overrides_section(lv, i0 as int)) by {
        match parse_overrides_section(lv, i0 as int) {
            Some((rest, end)) => { assert(found + rest =~= rest); },
            None => {},
        }
    }
    assert(crate::config::overrides_view(out@) =~= base + found);
    while i < lines.len()
        invariant
            lv == buffers_view(lines@),
            lines@.len() + 3 < usize::MAX,
            i0 <= i <= lines@.len() + 1,
            parse_overrides_section(lv, i0 as int) == with_found(found, parse_overrides_section(lv, i as int)),
            crate::config::overrides_view(out@) == base + found,
            base == crate::config::overrides_view(old(out)@),
        decreases lines.len() + 1 - i,
    {
        let t = trim_chars(lines[i].as_slice());
        assert(lv[i as int] == lines@[i as int]@);
        if is_brace(&t, '}') {
            assert(found + Seq::<RootOverrideModel>::empty() =~= found);
            assert(parse_overrides_section(lv, i as int) == Some((Seq::<RootOverrideModel>::empty(), i + 1)));
            assert(with_found(found, parse_overrides_section(lv, i as int)) == Some((found, i + 1)));
            return Some(i + 1);
        } else if is_lone_quote_exec(&t) {
            return None;
        } else if is_index_line_exec(&t) {
            let mut opened = false;
            if i + 1 < lines.len() {
                let t2 = trim_chars(lines[i + 1].as_slice());
                assert(lv[i + 1] == lines@[i + 1]@);
                opened = is_brace(&t2, '{');
            }
            if opened {
                proof { lemma_override_entry_bounds(lv, i + 2, default_override()); }
                match read_override_entry(lines, i + 2) {
                    Some((entry, next)) => {
                        proof {
                            lemma_with_found_push(found, entry@, parse_overrides_section(lv, next as int));
                        }
                        let ghost out_before = out@;
                        let ghost ev = entry@;
                        out.push(entry);
                        proof {
                            assert(crate::config::overrides_view(out@) =~= crate::config::overrides_view(out_before).push(ev));
                            found = found.push(ev);
                            assert(crate::config::overrides_view(out@) =~= base + found);
                        }
                        i = next;
                    },
                    None => {
                        return None;
                    },
                }
            } else {
                i = i + 1;
            }
        } else {
            i = i + 1;
        }
    }
    assert(found + Seq::<RootOverrideModel>::empty() =~= found);
    Some(i)
}

/// Reads the text form of a `ufs` section back into entries. `None` exactly
/// where reading fails: on a line that is a lone `"` where a block expects an
/// entry number.
pub fn parse_ufs_text_checked(text: &str) -> (r: Option<(Vec<SaveFileEntry>, Vec<RootOverrideEntry>)>)
    requires
        text@.len() + 4 < usize::MAX,
    ensures
        r.is_some() == parse_ufs(text@).is_some(),
        r matches Some((es, rs)) ==> (crate::config::savefiles_view(es@), crate::config::overrides_view(rs@))
            == parse_ufs(text@).unwrap(),
{
    let chars = str_chars(text);
    let lines = lines_of(chars.as_slice());
    let ghost lv = buffers_view(lines@);
    proof {
        crate::text::lemma_text_lines_len(text@);
        assert(lv =~= crate::text::text_lines(text@));
    }
    let mut savefiles: Vec<SaveFileEntry> = Vec::new();
    let mut overrides: Vec<RootOverrideEntry> = Vec::new();
    let mut i: usize = 0;
    assert(crate::config::savefiles_view(savefiles@) =~= Seq::<SaveFileModel>::empty());
    assert(crate::config::overrides_view(overrides@) =~= Seq::<RootOverrideModel>::empty());
    while i < lines.len()
        invariant
            lv == buffers_view(lines@),
            lv == crate::text::text_lines(text@),
            lines@.len() + 3 < usize::MAX,
            i <= lines@.len() + 1,
            parse_ufs(text@) == parse_from(lv, i as int, crate::config::savefiles_view(savefiles@), crate::config::overrides_view(overrides@)),
        decreases lines.len() + 1 - i,
    {
        let t = trim_chars(lines[i].as_slice());
        assert(lv[i as int] == lines@[i as int]@);
        let is_savefiles = chars_eq_str(t.as_slice(), "\"savefiles\"");
        let is_overrides = chars_eq_str(t.as_slice(), "\"rootoverrides\"");
        proof {
            reveal_strlit("\"savefiles\"");
            reveal_strlit("savefiles");
            reveal_strlit("\"rootoverrides\"");
            reveal_strlit("rootoverrides");
            assert("\"savefiles\""@ =~= quoted("savefiles"@));
            assert("\"rootoverrides\""@ =~= quoted("rootoverrides"@));
        }
        if is_savefiles {
            proof { lemma_savefiles_section_bounds(lv, i + 2); }
            match read_savefiles_section(&lines, i + 2, &mut savefiles) {
                Some(next) => { i = next; },
                None => { return None; },
            }
        } else if is_overrides {
            proof { lemma_overrides_section_bounds(lv, i + 2); }
            match read_overrides_section(&lines, i + 2, &mut overrides) {
                Some(next) => { i = next; },
                None => { return None; },
            }
        } else {
            i = i + 1;
        }
    }
    Some((savefiles, overrides))
}

/// Reads the text form of a `ufs` section back into entries.
pub fn parse_ufs_text(text: &str) -> (r: (Vec<SaveFileEntry>, Vec<RootOverrideEntry>))
    requires
        text@.len() + 4 < usize::MAX,
        parse_ufs(text@) is Some,
    ensures
        (crate::config::savefiles_view(r.0@), crate::config::overrides_view(r.1@)) == parse_ufs(text@).unwrap(),
{
    match parse_ufs_text_checked(text) {
        Some(r) => r,
        None => {
            assert(false);
            (Vec::new(), Vec::new())
        },
    }
}


// ---------------------------------------------------------------------------
// Reading back what was written
// ---------------------------------------------------------------------------

/// A value that can be written between quotes on one line.
pub open spec fn field_ok(s: Seq<char>) -> bool {
    !s.contains('"') && !s.contains('\n')
}

/// A save-file entry whose values can be written and read back.
pub open spec fn savefile_ok(e: SaveFileModel) -> bool {
    &&& field_ok(e.root)
    &&& field_ok(e.path)
    &&& field_ok(e.pattern)
    &&& forall|k: int| 0 <= k < e.platforms.len() ==> field_ok(#[trigger] e.platforms[k]) && !e.platforms[k].contains(',')
}

/// A path rewrite whose values can be written and read back.
pub open spec fn transform_ok(t: PathTransformModel) -> bool {
    field_ok(t.find) && field_ok(t.replace)
}

/// A root override whose values can be written and read back.
pub open spec fn override_ok(r: RootOverrideModel) -> bool {
    &&& field_ok(r.original_root)
    &&& field_ok(r.os)
    &&& field_ok(r.new_root)
    &&& field_ok(r.add_path)
    &&& forall|k: int| 0 <= k < r.path_transforms.len() ==> transform_ok(#[trigger] r.path_transforms[k])
}

/// What a written save-file entry reads back as: the same entry, except that
/// an unwritten platform list (empty or `["all"]`) reads as `["all"]` and a
/// written one as its trimmed, non-empty names.
pub open spec fn reread_savefile(e: SaveFileModel) -> SaveFileModel {
    SaveFileModel {
        platforms: if platforms_written(e.platforms) {
            non_empty_only(e.platforms.map_values(|p: Seq<char>| crate::text::trim(p)))
        } else {
            seq!["all"@]
        },
        ..e
    }
}

/// What a written root override reads back as: the same override, except that
/// the added path is dropped when there are path rewrites.
pub open spec fn reread_override(r: RootOverrideModel) -> RootOverrideModel {
    RootOverrideModel {
        add_path: if r.path_transforms.len() > 0 { Seq::empty() } else { r.add_path },
        ..r
    }
}

proof fn lemma_trim_padded(n: nat, body: Seq<char>)
    requires
        body.len() > 0,
        !crate::text::unicode_white_space(body[0]),
        !crate::text::unicode_white_space(body.last()),
    ensures
        crate::text::trim(spaces(n) + body) == body,
    decreases n,
{
    if n > 0 {
        let s = spaces(n) + body;
        assert(s[0] == ' ');
        assert(s.drop_first() =~= spaces((n - 1) as nat) + body);
        lemma_trim_padded((n - 1) as nat, body);
    } else {
        assert(spaces(0) + body =~= body);
    }
}

proof fn lemma_no_sep_concat(a: Seq<char>, b: Seq<char>, c: char)
    requires
        !a.contains(c),
        !b.contains(c),
    ensures
        !(a + b).contains(c),
{
    if (a + b).contains(c) {
        let k = choose|k: int| 0 <= k < (a + b).len() && (a + b)[k] == c;
        if k < a.len() {
            assert(a[k] == c);
        } else {
            assert(b[k - a.len()] == c);
        }
    }
}

proof fn lemma_no_sep_singleton(x: char, c: char)
    requires
        x != c,
    ensures
        !seq![x].contains(c),
{
}

proof fn lemma_no_sep_spaces(n: nat, c: char)
    requires
        c != ' ',
    ensures
        !spaces(n).contains(c),
{
}

/// The quote-separated pieces of `"k" "v"`.
proof fn lemma_split_kv(k: Seq<char>, v: Seq<char>)
    requires
        !k.contains('"'),
        !v.contains('"'),
    ensures
        crate::text::split_on(quoted(k) + seq![' '] + quoted(v), '"')
            == seq![Seq::<char>::empty(), k, seq![' '], v, Seq::<char>::empty()],
{
    let e = Seq::<char>::empty();
    let r3 = v + seq!['"'] + e;
    let r2 = seq![' '] + seq!['"'] + r3;
    let r1 = k + seq!['"'] + r2;
    let all = e + seq!['"'] + r1;
    assert(all =~= quoted(k) + seq![' '] + quoted(v));
    crate::text::lemma_split_concat(e, r1, '"');
    crate::text::lemma_split_concat(k, r2, '"');
    crate::text::lemma_split_concat(seq![' '], r3, '"');
    crate::text::lemma_split_concat(v, e, '"');
    assert(!e.contains('"'));
    crate::text::lemma_split_none(e, '"');
    crate::text::lemma_split_none(k, '"');
    crate::text::lemma_split_none(v, '"');
    assert(!seq![' '].contains('"'));
    crate::text::lemma_split_none(seq![' '], '"');
    assert(crate::text::split_on(all, '"') =~= seq![e, k, seq![' '], v, e]);
}

/// The quote-separated pieces of `"w"`.
proof fn lemma_split_word(w: Seq<char>)
    requires
        !w.contains('"'),
    ensures
        crate::text::split_on(quoted(w), '"') == seq![Seq::<char>::empty(), w, Seq::<char>::empty()],
{
    let e = Seq::<char>::empty();
    let r1 = w + seq!['"'] + e;
    assert(e + seq!['"'] + r1 =~= quoted(w));
    crate::text::lemma_split_concat(e, r1, '"');
    crate::text::lemma_split_concat(w, e, '"');
    assert(!e.contains('"'));
    crate::text::lemma_split_none(e, '"');
    crate::text::lemma_split_none(w, '"');
    assert(crate::text::split_on(quoted(w), '"') =~= seq![e, w, e]);
}

/// What the readers see on a key/value line.
proof fn lemma_kv_line(n: nat, k: Seq<char>, v: Seq<char>)
    requires
        !k.contains('"'),
        !v.contains('"'),
    ensures
        crate::text::trim(kv_line(n, k, v)) == quoted(k) + seq![' '] + quoted(v),
        extract_kv(quoted(k) + seq![' '] + quoted(v)) == Some((k, v)),
        quoted(k) + seq![' '] + quoted(v) != seq!['}'],
        !is_lone_quote(quoted(k) + seq![' '] + quoted(v)),
        forall|w: Seq<char>| !w.contains('"') ==> quoted(k) + seq![' '] + quoted(v) != #[trigger] quoted(w),
{
    let body = quoted(k) + seq![' '] + quoted(v);
    assert(body[0] == '"');
    assert(body.last() == '"');
    assert(kv_line(n, k, v) =~= spaces(n) + body);
    lemma_trim_padded(n, body);
    lemma_split_kv(k, v);
    assert forall|w: Seq<char>| !w.contains('"') implies body != #[trigger] quoted(w) by {
        lemma_split_word(w);
        if body == quoted(w) {
            assert(crate::text::split_on(body, '"').len() == 5);
        }
    }
}

/// What the readers see on a line holding one quoted word.
proof fn lemma_word_line(n: nat, w: Seq<char>)
    requires
        !w.contains('"'),
    ensures
        crate::text::trim(word_line(n, w)) == quoted(w),
        quoted(w) != seq!['}'],
        !is_lone_quote(quoted(w)),
{
    let body = quoted(w);
    assert(body[0] == '"');
    assert(body.last() == '"');
    lemma_trim_padded(n, body);
}

/// What the readers see on a brace line.
proof fn lemma_brace_line(n: nat, b: char)
    requires
        b == '{' || b == '}',
    ensures
        crate::text::trim(brace_line(n, b)) == seq![b],
{
    lemma_trim_padded(n, seq![b]);
}

/// An entry-number line is read as one.
proof fn lemma_index_line(n: nat, i: nat)
    ensures
        crate::text::trim(word_line(n, crate::text::decimal(i))) == quoted(crate::text::decimal(i)),
        is_index_line(quoted(crate::text::decimal(i))),
        quoted(crate::text::decimal(i)) != seq!['}'],
        !is_lone_quote(quoted(crate::text::decimal(i))),
        !crate::text::decimal(i).contains('"'),
{
    crate::text::lemma_decimal_digits(i);
    let d = crate::text::decimal(i);
    assert(!d.contains('"')) by {
        if d.contains('"') {
            let k = choose|k: int| 0 <= k < d.len() && d[k] == '"';
            assert('0' <= d[k] <= '9');
        }
    }
    lemma_word_line(n, d);
    let t = quoted(d);
    assert forall|k: int| 1 <= k < t.len() - 1 implies '0' <= #[trigger] t[k] <= '9' by {
        assert(t[k] == d[k - 1]);
    }
}

/// A comma-joined platform list splits back into the platforms.
proof fn lemma_oslist_roundtrip(ps: Seq<Seq<char>>)
    requires
        ps.len() >= 1,
        forall|k: int| 0 <= k < ps.len() ==> !(#[trigger] ps[k]).contains(','),
    ensures
        oslist_to_platforms(crate::text::join_with(ps, seq![','])) == non_empty_only(ps.map_values(|p: Seq<char>| crate::text::trim(p))),
{
    crate::text::lemma_split_join(ps, ',');
}

/// A join of pieces free of `c` (and a separator free of it) is free of `c`.
proof fn lemma_join_no_char(ps: Seq<Seq<char>>, sep: Seq<char>, c: char)
    requires
        !sep.contains(c),
        forall|k: int| 0 <= k < ps.len() ==> !(#[trigger] ps[k]).contains(c),
    ensures
        !crate::text::join_with(ps, sep).contains(c),
    decreases ps.len(),
{
    if ps.len() == 1 {
        assert(!ps[0].contains(c));
    } else if ps.len() > 1 {
        let init = ps.drop_last();
        assert forall|k: int| 0 <= k < init.len() implies !(#[trigger] init[k]).contains(c) by {
            assert(init[k] == ps[k]);
        }
        lemma_join_no_char(init, sep, c);
        assert(!ps[ps.len() - 1].contains(c));
        lemma_no_sep_concat(crate::text::join_with(init, sep), sep, c);
        lemma_no_sep_concat(crate::text::join_with(init, sep) + sep, ps.last(), c);
    }
}


/// The lines of a written save-file entry after its number and opening brace
/// read back as the entry.
proof fn lemma_read_savefile(lines: Seq<Seq<char>>, q: int, e: SaveFileModel, i: nat)
    requires
        savefile_ok(e),
        0 <= q,
        q + savefile_lines(e, i).len() - 2 <= lines.len(),
        lines.subrange(q, q + savefile_lines(e, i).len() - 2) == savefile_lines(e, i).subrange(2, savefile_lines(e, i).len() as int),
    ensures
        parse_savefile_entry(lines, q, default_savefile()) == (reread_savefile(e), q + savefile_lines(e, i).len() - 2),
{
    reveal_strlit("root");
    reveal_strlit("path");
    reveal_strlit("pattern");
    reveal_strlit("recursive");
    reveal_strlit("platforms");
    reveal_strlit("1");
    reveal_strlit("0");
    let sl = savefile_lines(e, i);
    let m = sl.len() - 2;
    let sub = lines.subrange(q, q + m);
    let rec_v = if e.recursive { "1"@ } else { "0"@ };
    assert(sub[0] == sl[2] && sub[0] == lines[q]);
    assert(sub[1] == sl[3] && sub[1] == lines[q + 1]);
    assert(sub[2] == sl[4] && sub[2] == lines[q + 2]);
    assert(sub[3] == sl[5] && sub[3] == lines[q + 3]);
    lemma_kv_line(12, "root"@, e.root);
    lemma_kv_line(12, "path"@, e.path);
    lemma_kv_line(12, "pattern"@, e.pattern);
    lemma_kv_line(12, "recursive"@, rec_v);
    assert("path"@ != "root"@) by { assert("path"@[0] != "root"@[0]); }
    assert("pattern"@ != "root"@) by { assert("pattern"@[0] != "root"@[0]); }
    assert("recursive"@ != "root"@) by { assert("recursive"@[1] != "root"@[1]); }
    assert("platforms"@ != "root"@) by { assert("platforms"@[0] != "root"@[0]); }
    assert("platforms"@ != "recursive"@) by { assert("platforms"@[0] != "recursive"@[0]); }
    let d = default_savefile();
    let e1 = SaveFileModel { root: e.root, ..d };
    let e2 = SaveFileModel { path: e.path, ..e1 };
    let e3 = SaveFileModel { pattern: e.pattern, ..e2 };
    let e4 = SaveFileModel { recursive: e.recursive, ..e3 };
    let b0 = quoted("root"@) + seq![' '] + quoted(e.root);
    let b1 = quoted("path"@) + seq![' '] + quoted(e.path);
    let b2 = quoted("pattern"@) + seq![' '] + quoted(e.pattern);
    let b3 = quoted("recursive"@) + seq![' '] + quoted(rec_v);
    assert(apply_savefile_line(d, b0) == e1);
    assert(apply_savefile_line(e1, b1) == e2);
    assert(apply_savefile_line(e2, b2) == e3);
    assert(apply_savefile_line(e3, b3) == e4);
    assert(parse_savefile_entry(lines, q, d) == parse_savefile_entry(lines, q + 1, e1));
    assert(parse_savefile_entry(lines, q + 1, e1) == parse_savefile_entry(lines, q + 2, e2));
    assert(parse_savefile_entry(lines, q + 2, e2) == parse_savefile_entry(lines, q + 3, e3));
    assert(parse_savefile_entry(lines, q + 3, e3) == parse_savefile_entry(lines, q + 4, e4));
    if platforms_written(e.platforms) {
        let ps = e.platforms;
        let joined = crate::text::join_with(ps, seq![',']);
        assert(forall|k: int| 0 <= k < ps.len() ==> !(#[trigger] ps[k]).contains('"'));
        lemma_join_no_char(ps, seq![','], '"');
        lemma_kv_line(12, "platforms"@, joined);
        lemma_oslist_roundtrip(ps);
        assert(sub[4] == sl[6] && sub[4] == lines[q + 4]);
        assert(sub[5] == sl[7] && sub[5] == lines[q + 5]);
        let b4 = quoted("platforms"@) + seq![' '] + quoted(joined);
        let e5 = SaveFileModel { platforms: oslist_to_platforms(joined), ..e4 };
        assert(apply_savefile_line(e4, b4) == e5);
        assert(parse_savefile_entry(lines, q + 4, e4) == parse_savefile_entry(lines, q + 5, e5));
        lemma_brace_line(8, '}');
        assert(parse_savefile_entry(lines, q + 5, e5) == (e5, q + 6));
        assert(e5 == reread_savefile(e));
    } else {
        assert(sub[4] == sl[6] && sub[4] == lines[q + 4]);
        lemma_brace_line(8, '}');
        assert(parse_savefile_entry(lines, q + 4, e4) == (e4, q + 5));
        assert(e4 == reread_savefile(e));
    }
}

/// The lines of a written path rewrite after its number and opening brace
/// read back as the rewrite.
proof fn lemma_read_transform(lines: Seq<Seq<char>>, q: int, t: PathTransformModel, j: nat)
    requires
        transform_ok(t),
        0 <= q,
        q + 3 <= lines.len(),
        lines.subrange(q, q + 3) == transform_lines(t, j).subrange(2, 5),
    ensures
        parse_transform_entry(lines, q, default_transform()) == (t, q + 3),
{
    reveal_strlit("find");
    reveal_strlit("replace");
    let tl = transform_lines(t, j);
    let sub = lines.subrange(q, q + 3);
    assert(sub[0] == tl[2] && sub[0] == lines[q]);
    assert(sub[1] == tl[3] && sub[1] == lines[q + 1]);
    assert(sub[2] == tl[4] && sub[2] == lines[q + 2]);
    lemma_kv_line(20, "find"@, t.find);
    lemma_kv_line(20, "replace"@, t.replace);
    lemma_brace_line(16, '}');
    let d = default_transform();
    let t1 = PathTransformModel { find: t.find, ..d };
    let b0 = quoted("find"@) + seq![' '] + quoted(t.find);
    let b1 = quoted("replace"@) + seq![' '] + quoted(t.replace);
    assert(apply_transform_line(d, b0) == t1);
    assert(apply_transform_line(t1, b1) == t);
    assert(parse_transform_entry(lines, q, d) == parse_transform_entry(lines, q + 1, t1));
    assert(parse_transform_entry(lines, q + 1, t1) == parse_transform_entry(lines, q + 2, t));
}

/// The written lines of path rewrites `k..` followed by a closing brace read
/// back as those rewrites.
proof fn lemma_read_transforms(lines: Seq<Seq<char>>, p: int, ts: Seq<PathTransformModel>, k: int)
    requires
        0 <= k <= ts.len(),
        0 <= p,
        forall|j: int| 0 <= j < ts.len() ==> transform_ok(#[trigger] ts[j]),
        p + transforms_lines_from(ts, k).len() < lines.len(),
        lines.subrange(p, p + transforms_lines_from(ts, k).len()) == transforms_lines_from(ts, k),
        crate::text::trim(lines[p + transforms_lines_from(ts, k).len()]) == seq!['}'],
    ensures
        parse_transforms_section(lines, p) == Some((ts.subrange(k, ts.len() as int), p + transforms_lines_from(ts, k).len() + 1)),
    decreases ts.len() - k,
{
    let from = transforms_lines_from(ts, k);
    if k == ts.len() {
        assert(from.len() == 0);
        assert(ts.subrange(k, ts.len() as int) =~= Seq::<PathTransformModel>::empty());
    } else {
        let tl = transform_lines(ts[k], k as nat);
        let rest = transforms_lines_from(ts, k + 1);
        assert(from =~= tl + rest);
        let sub = lines.subrange(p, p + from.len());
        assert(sub[0] == tl[0] && sub[0] == lines[p]);
        assert(sub[1] == tl[1] && sub[1] == lines[p + 1]);
        lemma_index_line(16, k as nat);
        lemma_brace_line(16, '{');
        assert forall|j: int| 0 <= j < 3 implies #[trigger] lines.subrange(p + 2, p + 5)[j] == tl.subrange(2, 5)[j] by {
            assert(sub[j + 2] == lines[p + 2 + j]);
            assert(sub[j + 2] == from[j + 2]);
        }
        assert(lines.subrange(p + 2, p + 5) =~= tl.subrange(2, 5));
        lemma_read_transform(lines, p + 2, ts[k], k as nat);
        assert forall|j: int| 0 <= j < rest.len() implies #[trigger] lines.subrange(p + 5, p + 5 + rest.len())[j] == rest[j] by {
            assert(sub[j + 5] == lines[p + 5 + j]);
            assert(sub[j + 5] == from[j + 5]);
        }
        assert(lines.subrange(p + 5, p + 5 + rest.len()) =~= rest);
        assert(p + 5 + rest.len() == p + from.len());
        lemma_read_transforms(lines, p + 5, ts, k + 1);
        assert(ts.subrange(k, ts.len() as int) =~= seq![ts[k]] + ts.subrange(k + 1, ts.len() as int));
    }
}


/// The lines of a written root override after its number and opening brace
/// read back as the override.
proof fn lemma_read_override(lines: Seq<Seq<char>>, q: int, r: RootOverrideModel, i: nat)
    requires
        override_ok(r),
        0 <= q,
        q + override_lines(r, i).len() - 2 <= lines.len(),
        lines.subrange(q, q + override_lines(r, i).len() - 2) == override_lines(r, i).subrange(2, override_lines(r, i).len() as int),
    ensures
        parse_override_entry(lines, q, default_override()) == Some((reread_override(r), q + override_lines(r, i).len() - 2)),
{
    reveal_strlit("root");
    reveal_strlit("os");
    reveal_strlit("oscompare");
    reveal_strlit("useinstead");
    reveal_strlit("addpath");
    reveal_strlit("pathtransforms");
    reveal_strlit("=");
    let ol = override_lines(r, i);
    let m = ol.len() - 2;
    let sub = lines.subrange(q, q + m);
    assert(sub[0] == ol[2] && sub[0] == lines[q]);
    assert(sub[1] == ol[3] && sub[1] == lines[q + 1]);
    assert(sub[2] == ol[4] && sub[2] == lines[q + 2]);
    assert(sub[3] == ol[5] && sub[3] == lines[q + 3]);
    let pt = "pathtransforms"@;
    assert(!pt.contains('"'));
    assert(!"="@.contains('"'));
    lemma_kv_line(12, "root"@, r.original_root);
    lemma_kv_line(12, "os"@, r.os);
    lemma_kv_line(12, "oscompare"@, "="@);
    lemma_kv_line(12, "useinstead"@, r.new_root);
    let b0 = quoted("root"@) + seq![' '] + quoted(r.original_root);
    let b1 = quoted("os"@) + seq![' '] + quoted(r.os);
    let b2 = quoted("oscompare"@) + seq![' '] + quoted("="@);
    let b3 = quoted("useinstead"@) + seq![' '] + quoted(r.new_root);
    assert(b0 != quoted(pt));
    assert(b1 != quoted(pt));
    assert(b2 != quoted(pt));
    assert(b3 != quoted(pt));
    let d = default_override();
    let e1 = RootOverrideModel { original_root: r.original_root, ..d };
    let e2 = RootOverrideModel { os: r.os, ..e1 };
    let e4 = RootOverrideModel { new_root: r.new_root, ..e2 };
    assert(apply_override_line(d, b0) == e1);
    assert(apply_override_line(e1, b1) == e2);
    assert(apply_override_line(e2, b2) == e2);
    assert(apply_override_line(e2, b3) == e4);
    assert(parse_override_entry(lines, q, d) == parse_override_entry(lines, q + 1, e1));
    assert(parse_override_entry(lines, q + 1, e1) == parse_override_entry(lines, q + 2, e2));
    assert(parse_override_entry(lines, q + 2, e2) == parse_override_entry(lines, q + 3, e2));
    assert(parse_override_entry(lines, q + 3, e2) == parse_override_entry(lines, q + 4, e4));
    lemma_brace_line(8, '}');
    if r.path_transforms.len() > 0 {
        let ts = r.path_transforms;
        let from = transforms_lines_from(ts, 0);
        let fl = from.len() as int;
        assert(sub[4] == ol[6] && sub[4] == lines[q + 4]);
        assert(sub[5] == ol[7] && sub[5] == lines[q + 5]);
        lemma_word_line(12, pt);
        lemma_brace_line(12, '{');
        lemma_brace_line(12, '}');
        assert(ol =~= ol.subrange(0, 8) + from + seq![brace_line(12, '}'), brace_line(8, '}')]);
        assert forall|j: int| 0 <= j < from.len() implies #[trigger] lines.subrange(q + 6, q + 6 + from.len())[j] == from[j] by {
            assert(sub[j + 6] == lines[q + 6 + j]);
            assert(sub[j + 6] == ol[j + 8]);
        }
        assert(lines.subrange(q + 6, q + 6 + from.len()) =~= from);
        assert(sub[6 + fl] == ol[8 + fl] && sub[6 + fl] == lines[q + 6 + fl]);
        assert(sub[7 + fl] == ol[9 + fl] && sub[7 + fl] == lines[q + 7 + fl]);
        lemma_read_transforms(lines, q + 6, ts, 0);
        assert(ts.subrange(0, ts.len() as int) =~= ts);
        let e5 = RootOverrideModel { path_transforms: e4.path_transforms + ts, ..e4 };
        assert(e4.path_transforms + ts =~= ts);
        assert(parse_override_entry(lines, q + 4, e4) == parse_override_entry(lines, q + 7 + from.len(), e5));
        assert(parse_override_entry(lines, q + 7 + from.len(), e5) == Some((e5, q + 8 + from.len())));
        assert(e5 == reread_override(r));
    } else if r.add_path.len() > 0 {
        assert(sub[4] == ol[6] && sub[4] == lines[q + 4]);
        assert(sub[5] == ol[7] && sub[5] == lines[q + 5]);
        lemma_kv_line(12, "addpath"@, r.add_path);
        let b4 = quoted("addpath"@) + seq![' '] + quoted(r.add_path);
        assert(b4 != quoted(pt));
        let e5 = RootOverrideModel { add_path: r.add_path, ..e4 };
        assert(apply_override_line(e4, b4) == e5);
        assert(parse_override_entry(lines, q + 4, e4) == parse_override_entry(lines, q + 5, e5));
        assert(parse_override_entry(lines, q + 5, e5) == Some((e5, q + 6)));
        assert(e5.path_transforms =~= r.path_transforms);
        assert(e5 == reread_override(r));
    } else {
        assert(sub[4] == ol[6] && sub[4] == lines[q + 4]);
        assert(parse_override_entry(lines, q + 4, e4) == Some((e4, q + 5)));
        assert(e4.path_transforms =~= r.path_transforms);
        assert(e4.add_path =~= r.add_path);
        assert(e4 == reread_override(r));
    }
}


/// The written lines of save-file entries `k..` followed by a closing brace
/// read back as those entries.
proof fn lemma_read_savefiles(lines: Seq<Seq<char>>, p: int, es: Seq<SaveFileModel>, k: int)
    requires
        0 <= k <= es.len(),
        0 <= p,
        forall|j: int| 0 <= j < es.len() ==> savefile_ok(#[trigger] es[j]),
        p + savefiles_lines_from(es, k).len() < lines.len(),
        lines.subrange(p, p + savefiles_lines_from(es, k).len()) == savefiles_lines_from(es, k),
        crate::text::trim(lines[p + savefiles_lines_from(es, k).len()]) == seq!['}'],
    ensures
        parse_savefiles_section(lines, p) == Some((
            es.subrange(k, es.len() as int).map_values(|e: SaveFileModel| reread_savefile(e)),
            p + savefiles_lines_from(es, k).len() + 1,
        )),
    decreases es.len() - k,
{
    let from = savefiles_lines_from(es, k);
    if k == es.len() {
        assert(from.len() == 0);
        assert(es.subrange(k, es.len() as int).map_values(|e: SaveFileModel| reread_savefile(e)) =~= Seq::<SaveFileModel>::empty());
    } else {
        let sl = savefile_lines(es[k], k as nat);
        let rest = savefiles_lines_from(es, k + 1);
        let n = sl.len() as int;
        assert(from =~= sl + rest);
        let sub = lines.subrange(p, p + from.len());
        assert(sub[0] == sl[0] && sub[0] == lines[p]);
        assert(sub[1] == sl[1] && sub[1] == lines[p + 1]);
        lemma_index_line(8, k as nat);
        lemma_brace_line(8, '{');
        assert forall|j: int| 0 <= j < n - 2 implies #[trigger] lines.subrange(p + 2, p + n)[j] == sl.subrange(2, n)[j] by {
            assert(sub[j + 2] == lines[p + 2 + j]);
            assert(sub[j + 2] == from[j + 2]);
        }
        assert(lines.subrange(p + 2, p + n) =~= sl.subrange(2, n));
        lemma_read_savefile(lines, p + 2, es[k], k as nat);
        assert forall|j: int| 0 <= j < rest.len() implies #[trigger] lines.subrange(p + n, p + n + rest.len())[j] == rest[j] by {
            assert(sub[j + n] == lines[p + n + j]);
            assert(sub[j + n] == from[j + n]);
        }
        assert(lines.subrange(p + n, p + n + rest.len()) =~= rest);
        lemma_read_savefiles(lines, p + n, es, k + 1);
        assert(es.subrange(k, es.len() as int).map_values(|e: SaveFileModel| reread_savefile(e))
            =~= seq![reread_savefile(es[k])] + es.subrange(k + 1, es.len() as int).map_values(|e: SaveFileModel| reread_savefile(e)));
    }
}

/// The written lines of root overrides `k..` followed by a closing brace read
/// back as those overrides.
proof fn lemma_read_overrides(lines: Seq<Seq<char>>, p: int, rs: Seq<RootOverrideModel>, k: int)
    requires
        0 <= k <= rs.len(),
        0 <= p,
        forall|j: int| 0 <= j < rs.len() ==> override_ok(#[trigger] rs[j]),
        p + overrides_lines_from(rs, k).len() < lines.len(),
        lines.subrange(p, p + overrides_lines_from(rs, k).len()) == overrides_lines_from(rs, k),
        crate::text::trim(lines[p + overrides_lines_from(rs, k).len()]) == seq!['}'],
    ensures
        parse_overrides_section(lines, p) == Some((
            rs.subrange(k, rs.len() as int).map_values(|r: RootOverrideModel| reread_override(r)),
            p + overrides_lines_from(rs, k).len() + 1,
        )),
    decreases rs.len() - k,
{
    let from = overrides_lines_from(rs, k);
    if k == rs.len() {
        assert(from.len() == 0);
        assert(rs.subrange(k, rs.len() as int).map_values(|r: RootOverrideModel| reread_override(r)) =~= Seq::<RootOverrideModel>::empty());
    } else {
        let ol = override_lines(rs[k], k as nat);
        let rest = overrides_lines_from(rs, k + 1);
        let n = ol.len() as int;
        assert(from =~= ol + rest);
        let sub = lines.subrange(p, p + from.len());
        assert(sub[0] == ol[0] && sub[0] == lines[p]);
        assert(sub[1] == ol[1] && sub[1] == lines[p + 1]);
        lemma_index_line(8, k as nat);
        lemma_brace_line(8, '{');
        assert forall|j: int| 0 <= j < n - 2 implies #[trigger] lines.subrange(p + 2, p + n)[j] == ol.subrange(2, n)[j] by {
            assert(sub[j + 2] == lines[p + 2 + j]);
            assert(sub[j + 2] == from[j + 2]);
        }
        assert(lines.subrange(p + 2, p + n) =~= ol.subrange(2, n));
        lemma_read_override(lines, p + 2, rs[k], k as nat);
        assert forall|j: int| 0 <= j < rest.len() implies #[trigger] lines.subrange(p + n, p + n + rest.len())[j] == rest[j] by {
            assert(sub[j + n] == lines[p + n + j]);
            assert(sub[j + n] == from[j + n]);
        }
        assert(lines.subrange(p + n, p + n + rest.len()) =~= rest);
        lemma_read_overrides(lines, p + n, rs, k + 1);
        assert(rs.subrange(k, rs.len() as int).map_values(|r: RootOverrideModel| reread_override(r))
            =~= seq![reread_override(rs[k])] + rs.subrange(k + 1, rs.len() as int).map_values(|r: RootOverrideModel| reread_override(r)));
    }
}


/// A line that `str::lines` gives back unchanged.
pub open spec fn clean_line(l: Seq<char>) -> bool {
    &&& l.len() > 0
    &&& !l.contains('\n')
    &&& l.last() != '\r'
}

/// Every line of a list is clean.
pub open spec fn all_clean(ls: Seq<Seq<char>>) -> bool {
    forall|j: int| 0 <= j < ls.len() ==> clean_line(#[trigger] ls[j])
}

proof fn lemma_all_clean_concat(a: Seq<Seq<char>>, b: Seq<Seq<char>>)
    requires
        all_clean(a),
        all_clean(b),
    ensures
        all_clean(a + b),
{
    assert forall|j: int| 0 <= j < (a + b).len() implies clean_line(#[trigger] (a + b)[j]) by {
        if j < a.len() {
            assert((a + b)[j] == a[j]);
        } else {
            assert((a + b)[j] == b[j - a.len()]);
        }
    }
}

proof fn lemma_clean_kv(n: nat, k: Seq<char>, v: Seq<char>)
    requires
        !k.contains('\n'),
        !v.contains('\n'),
    ensures
        clean_line(kv_line(n, k, v)),
{
    lemma_no_sep_spaces(n, '\n');
    lemma_no_sep_singleton('"', '\n');
    lemma_no_sep_singleton(' ', '\n');
    lemma_no_sep_concat(spaces(n), seq!['"'], '\n');
    lemma_no_sep_concat(spaces(n) + seq!['"'], k, '\n');
    lemma_no_sep_concat(spaces(n) + seq!['"'] + k, seq!['"'], '\n');
    lemma_no_sep_concat(spaces(n) + seq!['"'] + k + seq!['"'], seq![' '], '\n');
    lemma_no_sep_concat(spaces(n) + seq!['"'] + k + seq!['"'] + seq![' '], seq!['"'], '\n');
    lemma_no_sep_concat(spaces(n) + seq!['"'] + k + seq!['"'] + seq![' '] + seq!['"'], v, '\n');
    lemma_no_sep_concat(spaces(n) + seq!['"'] + k + seq!['"'] + seq![' '] + seq!['"'] + v, seq!['"'], '\n');
    assert(kv_line(n, k, v) =~= spaces(n) + seq!['"'] + k + seq!['"'] + seq![' '] + seq!['"'] + v + seq!['"']);
}

proof fn lemma_clean_word(n: nat, w: Seq<char>)
    requires
        !w.contains('\n'),
    ensures
        clean_line(word_line(n, w)),
{
    lemma_no_sep_spaces(n, '\n');
    lemma_no_sep_singleton('"', '\n');
    lemma_no_sep_concat(spaces(n), seq!['"'], '\n');
    lemma_no_sep_concat(spaces(n) + seq!['"'], w, '\n');
    lemma_no_sep_concat(spaces(n) + seq!['"'] + w, seq!['"'], '\n');
    assert(word_line(n, w) =~= spaces(n) + seq!['"'] + w + seq!['"']);
}

proof fn lemma_clean_brace(n: nat, b: char)
    requires
        b == '{' || b == '}',
    ensures
        clean_line(brace_line(n, b)),
{
    lemma_no_sep_spaces(n, '\n');
    lemma_no_sep_singleton(b, '\n');
    lemma_no_sep_concat(spaces(n), seq![b], '\n');
}

proof fn lemma_clean_decimal(i: nat)
    ensures
        !crate::text::decimal(i).contains('\n'),
{
    crate::text::lemma_decimal_digits(i);
    let d = crate::text::decimal(i);
    if d.contains('\n') {
        let k = choose|k: int| 0 <= k < d.len() && d[k] == '\n';
        assert('0' <= d[k] <= '9');
    }
}

proof fn lemma_clean_savefiles(es: Seq<SaveFileModel>, k: int)
    requires
        forall|j: int| 0 <= j < es.len() ==> savefile_ok(#[trigger] es[j]),
    ensures
        all_clean(savefiles_lines_from(es, k)),
    decreases es.len() - k,
{
    reveal_strlit("root");
    reveal_strlit("path");
    reveal_strlit("pattern");
    reveal_strlit("recursive");
    reveal_strlit("platforms");
    reveal_strlit("1");
    reveal_strlit("0");
    if 0 <= k < es.len() {
        let e = es[k];
        assert(savefile_ok(e));
        lemma_clean_savefiles(es, k + 1);
        lemma_clean_decimal(k as nat);
        lemma_clean_word(8, crate::text::decimal(k as nat));
        lemma_clean_brace(8, '{');
        lemma_clean_brace(8, '}');
        lemma_clean_kv(12, "root"@, e.root);
        lemma_clean_kv(12, "path"@, e.path);
        lemma_clean_kv(12, "pattern"@, e.pattern);
        let rec_v = if e.recursive { "1"@ } else { "0"@ };
        lemma_clean_kv(12, "recursive"@, rec_v);
        let head = seq![
            word_line(8, crate::text::decimal(k as nat)),
            brace_line(8, '{'),
            kv_line(12, "root"@, e.root),
            kv_line(12, "path"@, e.path),
            kv_line(12, "pattern"@, e.pattern),
            kv_line(12, "recursive"@, rec_v),
        ];
        assert(all_clean(head));
        let opt = if platforms_written(e.platforms) {
            seq![kv_line(12, "platforms"@, crate::text::join_with(e.platforms, seq![',']))]
        } else {
            Seq::<Seq<char>>::empty()
        };
        if platforms_written(e.platforms) {
            assert(!seq![','].contains('\n'));
            assert(forall|j: int| 0 <= j < e.platforms.len() ==> !(#[trigger] e.platforms[j]).contains('\n'));
            lemma_join_no_char(e.platforms, seq![','], '\n');
            lemma_clean_kv(12, "platforms"@, crate::text::join_with(e.platforms, seq![',']));
        }
        assert(all_clean(opt));
        assert(all_clean(seq![brace_line(8, '}')]));
        lemma_all_clean_concat(head, opt);
        lemma_all_clean_concat(head + opt, seq![brace_line(8, '}')]);
        lemma_all_clean_concat(savefile_lines(e, k as nat), savefiles_lines_from(es, k + 1));
    }
}

proof fn lemma_clean_transforms(ts: Seq<PathTransformModel>, k: int)
    requires
        forall|j: int| 0 <= j < ts.len() ==> transform_ok(#[trigger] ts[j]),
    ensures
        all_clean(transforms_lines_from(ts, k)),
    decreases ts.len() - k,
{
    reveal_strlit("find");
    reveal_strlit("replace");
    if 0 <= k < ts.len() {
        let t = ts[k];
        assert(transform_ok(t));
        lemma_clean_transforms(ts, k + 1);
        lemma_clean_decimal(k as nat);
        lemma_clean_word(16, crate::text::decimal(k as nat));
        lemma_clean_brace(16, '{');
        lemma_clean_brace(16, '}');
        lemma_clean_kv(20, "find"@, t.find);
        lemma_clean_kv(20, "replace"@, t.replace);
        assert(all_clean(transform_lines(t, k as nat)));
        lemma_all_clean_concat(transform_lines(t, k as nat), transforms_lines_from(ts, k + 1));
    }
}

proof fn lemma_clean_overrides(rs: Seq<RootOverrideModel>, k: int)
    requires
        forall|j: int| 0 <= j < rs.len() ==> override_ok(#[trigger] rs[j]),
    ensures
        all_clean(overrides_lines_from(rs, k)),
    decreases rs.len() - k,
{
    reveal_strlit("root");
    reveal_strlit("os");
    reveal_strlit("oscompare");
    reveal_strlit("useinstead");
    reveal_strlit("addpath");
    reveal_strlit("pathtransforms");
    reveal_strlit("=");
    if 0 <= k < rs.len() {
        let r = rs[k];
        assert(override_ok(r));
        lemma_clean_overrides(rs, k + 1);
        lemma_clean_decimal(k as nat);
        lemma_clean_word(8, crate::text::decimal(k as nat));
        lemma_clean_brace(8, '{');
        lemma_clean_brace(8, '}');
        lemma_clean_kv(12, "root"@, r.original_root);
        lemma_clean_kv(12, "os"@, r.os);
        lemma_clean_kv(12, "oscompare"@, "="@);
        lemma_clean_kv(12, "useinstead"@, r.new_root);
        let head = seq![
            word_line(8, crate::text::decimal(k as nat)),
            brace_line(8, '{'),
            kv_line(12, "root"@, r.original_root),
            kv_line(12, "os"@, r.os),
            kv_line(12, "oscompare"@, "="@),
            kv_line(12, "useinstead"@, r.new_root),
        ];
        assert(all_clean(head));
        let opt = if r.path_transforms.len() > 0 {
            seq![word_line(12, "pathtransforms"@), brace_line(12, '{')]
                + transforms_lines_from(r.path_transforms, 0) + seq![brace_line(12, '}')]
        } else if r.add_path.len() > 0 {
            seq![kv_line(12, "addpath"@, r.add_path)]
        } else {
            Seq::<Seq<char>>::empty()
        };
        if r.path_transforms.len() > 0 {
            lemma_clean_word(12, "pathtransforms"@);
            lemma_clean_brace(12, '{');
            lemma_clean_brace(12, '}');
            lemma_clean_transforms(r.path_transforms, 0);
            let a = seq![word_line(12, "pathtransforms"@), brace_line(12, '{')];
            assert(all_clean(a));
            assert(all_clean(seq![brace_line(12, '}')]));
            lemma_all_clean_concat(a, transforms_lines_from(r.path_transforms, 0));
            lemma_all_clean_concat(a + transforms_lines_from(r.path_transforms, 0), seq![brace_line(12, '}')]);
        } else if r.add_path.len() > 0 {
            lemma_clean_kv(12, "addpath"@, r.add_path);
        }
        assert(all_clean(opt));
        assert(all_clean(seq![brace_line(8, '}')]));
        lemma_all_clean_concat(head, opt);
        lemma_all_clean_concat(head + opt, seq![brace_line(8, '}')]);
        lemma_all_clean_concat(override_lines(r, k as nat), overrides_lines_from(rs, k + 1));
    }
}


proof fn lemma_ufs_lines_split(es: Seq<SaveFileModel>, rs: Seq<RootOverrideModel>)
    requires
        forall|j: int| 0 <= j < es.len() ==> savefile_ok(#[trigger] es[j]),
        forall|j: int| 0 <= j < rs.len() ==> override_ok(#[trigger] rs[j]),
    ensures
        crate::text::text_lines(ufs_text(es, rs)) == ufs_lines(es, rs),
{
    reveal_strlit("ufs");
    reveal_strlit("savefiles");
    reveal_strlit("rootoverrides");
    let lines = ufs_lines(es, rs);
    let sb = savefiles_block(es);
    let ob = overrides_block(rs);
    let head = seq![word_line(0, "ufs"@), brace_line(0, '{')];
    let tail = seq![brace_line(0, '}')];
    assert(lines =~= head + sb + ob + tail);
    lemma_clean_word(0, "ufs"@);
    lemma_clean_brace(0, '{');
    lemma_clean_brace(0, '}');
    lemma_clean_brace(4, '{');
    lemma_clean_brace(4, '}');
    lemma_clean_word(4, "savefiles"@);
    lemma_clean_word(4, "rootoverrides"@);
    lemma_clean_savefiles(es, 0);
    lemma_clean_overrides(rs, 0);
    assert(all_clean(head));
    assert(all_clean(tail));
    assert(all_clean(sb)) by {
        if es.len() > 0 {
            let a = seq![word_line(4, "savefiles"@), brace_line(4, '{')];
            assert(all_clean(a));
            assert(all_clean(seq![brace_line(4, '}')]));
            lemma_all_clean_concat(a, savefiles_lines_from(es, 0));
            lemma_all_clean_concat(a + savefiles_lines_from(es, 0), seq![brace_line(4, '}')]);
        }
    }
    assert(all_clean(ob)) by {
        if rs.len() > 0 {
            let a = seq![word_line(4, "rootoverrides"@), brace_line(4, '{')];
            assert(all_clean(a));
            assert(all_clean(seq![brace_line(4, '}')]));
            lemma_all_clean_concat(a, overrides_lines_from(rs, 0));
            lemma_all_clean_concat(a + overrides_lines_from(rs, 0), seq![brace_line(4, '}')]);
        }
    }
    lemma_all_clean_concat(head, sb);
    lemma_all_clean_concat(head + sb, ob);
    lemma_all_clean_concat(head + sb + ob, tail);
    assert forall|k: int| 0 <= k < lines.len() implies !(#[trigger] lines[k]).contains('\n') by {
        assert(clean_line(lines[k]));
    }
    assert forall|k: int| 0 <= k < lines.len() implies (#[trigger] lines[k]).len() == 0 || lines[k].last() != '\r' by {
        assert(clean_line(lines[k]));
    }
    assert(clean_line(lines[lines.len() - 1]));
    crate::text::lemma_text_lines_join(lines);
}

proof fn lemma_parse_savefiles_block(lines: Seq<Seq<char>>, es: Seq<SaveFileModel>, r0: Seq<RootOverrideModel>)
    requires
        forall|j: int| 0 <= j < es.len() ==> savefile_ok(#[trigger] es[j]),
        es.len() > 0,
        lines.len() >= 2 + savefiles_block(es).len(),
        lines.subrange(2, 2 + savefiles_block(es).len() as int) == savefiles_block(es),
    ensures
        parse_from(lines, 2, Seq::empty(), r0)
            == parse_from(lines, 2 + savefiles_block(es).len() as int, es.map_values(|e: SaveFileModel| reread_savefile(e)), r0),
{
    reveal_strlit("savefiles");
    let sb = savefiles_block(es);
    let from = savefiles_lines_from(es, 0);
    let fl = from.len() as int;
    let sbl = sb.len() as int;
    let es2 = es.map_values(|e: SaveFileModel| reread_savefile(e));
    lemma_word_line(4, "savefiles"@);
    lemma_brace_line(4, '}');
    assert(sb =~= seq![word_line(4, "savefiles"@), brace_line(4, '{')] + from + seq![brace_line(4, '}')]);
    let sub = lines.subrange(2, 2 + sbl);
    assert(sub[0] == lines[2]);
    assert forall|j: int| 0 <= j < fl implies #[trigger] lines.subrange(4, 4 + fl)[j] == from[j] by {
        assert(sub[2 + j] == lines[4 + j]);
        assert(sub[2 + j] == sb[2 + j]);
    }
    assert(lines.subrange(4, 4 + fl) =~= from);
    assert(sub[2 + fl] == lines[4 + fl]);
    lemma_read_savefiles(lines, 4, es, 0);
    assert(es.subrange(0, es.len() as int) =~= es);
    assert(Seq::<SaveFileModel>::empty() + es2 =~= es2);
}

proof fn lemma_parse_overrides_block(lines: Seq<Seq<char>>, p: int, rs: Seq<RootOverrideModel>, es2: Seq<SaveFileModel>)
    requires
        forall|j: int| 0 <= j < rs.len() ==> override_ok(#[trigger] rs[j]),
        rs.len() > 0,
        0 <= p,
        lines.len() >= p + overrides_block(rs).len(),
        lines.subrange(p, p + overrides_block(rs).len()) == overrides_block(rs),
    ensures
        parse_from(lines, p, es2, Seq::empty())
            == parse_from(lines, p + overrides_block(rs).len(), es2, rs.map_values(|r: RootOverrideModel| reread_override(r))),
{
    reveal_strlit("savefiles");
    reveal_strlit("rootoverrides");
    let ob = overrides_block(rs);
    let from = overrides_lines_from(rs, 0);
    let fl = from.len() as int;
    let obl = ob.len() as int;
    let rs2 = rs.map_values(|r: RootOverrideModel| reread_override(r));
    lemma_word_line(4, "rootoverrides"@);
    lemma_brace_line(4, '}');
    assert(quoted("rootoverrides"@) != quoted("savefiles"@));
    assert(ob =~= seq![word_line(4, "rootoverrides"@), brace_line(4, '{')] + from + seq![brace_line(4, '}')]);
    let sub = lines.subrange(p, p + obl);
    assert(sub[0] == lines[p]);
    assert forall|j: int| 0 <= j < fl implies #[trigger] lines.subrange(p + 2, p + 2 + fl)[j] == from[j] by {
        assert(sub[2 + j] == lines[p + 2 + j]);
        assert(sub[2 + j] == ob[2 + j]);
    }
    assert(lines.subrange(p + 2, p + 2 + fl) =~= from);
    assert(sub[2 + fl] == lines[p + 2 + fl]);
    lemma_read_overrides(lines, p + 2, rs, 0);
    assert(rs.subrange(0, rs.len() as int) =~= rs);
    assert(Seq::<RootOverrideModel>::empty() + rs2 =~= rs2);
}

/// Text written by [`entries_to_ufs_text`] reads back, through
/// [`parse_ufs_text`], as the entries it was written from: every save-file
/// entry and root override comes back in order with its values, except that a
/// platform list left unwritten (empty or `["all"]`) reads as `["all"]`, a
/// written one as its trimmed non-empty names, and an added path is dropped
/// when the override has path rewrites. This holds whenever no written value
/// holds a double quote or a line feed and no platform name holds a comma.
#[verifier::rlimit(60)]
pub proof fn lemma_ufs_text_roundtrip(es: Seq<SaveFileModel>, rs: Seq<RootOverrideModel>)
    requires
        forall|j: int| 0 <= j < es.len() ==> savefile_ok(#[trigger] es[j]),
        forall|j: int| 0 <= j < rs.len() ==> override_ok(#[trigger] rs[j]),
    ensures
        parse_ufs(ufs_text(es, rs)) == Some((
            es.map_values(|e: SaveFileModel| reread_savefile(e)),
            rs.map_values(|r: RootOverrideModel| reread_override(r)),
        )),
{
    reveal_strlit("ufs");
    reveal_strlit("savefiles");
    reveal_strlit("rootoverrides");
    lemma_ufs_lines_split(es, rs);
    let lines = ufs_lines(es, rs);
    let sb = savefiles_block(es);
    let ob = overrides_block(rs);
    let head = seq![word_line(0, "ufs"@), brace_line(0, '{')];
    let tail = seq![brace_line(0, '}')];
    assert(lines =~= head + sb + ob + tail);
    lemma_word_line(0, "ufs"@);
    lemma_brace_line(0, '{');
    lemma_brace_line(0, '}');
    let sfq = quoted("savefiles"@);
    let roq = quoted("rootoverrides"@);
    let ufsq = quoted("ufs"@);
    assert(ufsq != sfq);
    assert(ufsq != roq);
    let e0 = Seq::<SaveFileModel>::empty();
    let r0 = Seq::<RootOverrideModel>::empty();
    let es2 = es.map_values(|e: SaveFileModel| reread_savefile(e));
    let rs2 = rs.map_values(|r: RootOverrideModel| reread_override(r));
    assert(lines[0] == word_line(0, "ufs"@));
    assert(lines[1] == brace_line(0, '{'));
    assert(parse_from(lines, 0, e0, r0) == parse_from(lines, 1, e0, r0));
    assert(parse_from(lines, 1, e0, r0) == parse_from(lines, 2, e0, r0));
    let p: int = 2 + sb.len() as int;
    if es.len() > 0 {
        assert(lines.subrange(2, p) =~= sb);
        lemma_parse_savefiles_block(lines, es, r0);
    } else {
        assert(es2 =~= e0);
    }
    let p2: int = p + ob.len() as int;
    if rs.len() > 0 {
        assert(lines.subrange(p, p2) =~= ob);
        lemma_parse_overrides_block(lines, p, rs, es2);
    } else {
        assert(rs2 =~= r0);
    }
    assert(lines[p2] == brace_line(0, '}'));
    assert(p2 + 1 == lines.len());
    assert(parse_from(lines, p2, es2, rs2) == parse_from(lines, p2 + 1, es2, rs2));
}

/// A platform list whose names are non-empty, trimmed and comma-free reads
/// back unchanged after being written as an `oslist`.
pub proof fn lemma_platforms_roundtrip(ps: Seq<Seq<char>>)
    requires
        ps.len() >= 1,
        forall|k: int| 0 <= k < ps.len() ==> (#[trigger] ps[k]).len() > 0 && !ps[k].contains(',') && crate::text::trim(ps[k]) == ps[k],
    ensures
        oslist_to_platforms(crate::text::join_with(ps, seq![','])) == ps,
{
    lemma_oslist_roundtrip(ps);
    lemma_non_empty_only_keeps(ps.map_values(|p: Seq<char>| crate::text::trim(p)));
    assert(ps.map_values(|p: Seq<char>| crate::text::trim(p)) =~= ps);
}

proof fn lemma_non_empty_only_keeps(s: Seq<Seq<char>>)
    requires
        forall|k: int| 0 <= k < s.len() ==> (#[trigger] s[k]).len() > 0,
    ensures
        non_empty_only(s) == s,
    decreases s.len(),
{
    if s.len() > 0 {
        let init = s.drop_last();
        assert forall|k: int| 0 <= k < init.len() implies (#[trigger] init[k]).len() > 0 by {
            assert(init[k] == s[k]);
        }
        lemma_non_empty_only_keeps(init);
        assert(init.push(s.last()) =~= s);
    }
}

} // verus!
