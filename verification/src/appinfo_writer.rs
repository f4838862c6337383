//! Rewriting the cloud save configuration ("ufs" section) of one game inside
//! Steam's binary `appinfo.vdf`: finding the game's entry and its sections,
//! replacing the save-file rules and root overrides, recomputing the entry's
//! checksums and keeping the file's string table in step.
use vstd::prelude::*;
use vstd::string::*;
use sha1::Digest;
use crate::config::{PathTransformModel, RootOverrideEntry, RootOverrideModel};
use crate::path_resolver::{SaveFileConfig, SaveFileConfigModel};
use crate::vdf::{VdfItem, emit28, emit29, emit28_open, emit28_str, emit29_open, emit29_str, emit_close};

verus! {

// ---------------------------------------------------------------------------
// What is written
// ---------------------------------------------------------------------------

/// The platform family an operating-system name (lower case) stands for in
/// Steam's `oslist` spelling.
pub open spec fn os_family(lower: Seq<char>) -> Option<Seq<char>> {
    if crate::text::contains_text(lower, "windows"@) || crate::text::contains_text(lower, "win"@) {
        Some("windows"@)
    } else if crate::text::contains_text(lower, "macos"@) || crate::text::contains_text(lower, "mac"@)
        || crate::text::contains_text(lower, "osx"@) {
        Some("macos"@)
    } else if crate::text::contains_text(lower, "linux"@) {
        Some("linux"@)
    } else {
        None
    }
}

/// The families of a platform list, in order, unknown names left out.
pub open spec fn oslist_names(p: Seq<Seq<char>>) -> Seq<Seq<char>>
    decreases p.len(),
{
    if p.len() == 0 {
        Seq::empty()
    } else {
        oslist_names(p.drop_last()) + match os_family(crate::text::unicode_lowercase(p.last())) {
            Some(n) => seq![n],
            None => Seq::<Seq<char>>::empty(),
        }
    }
}

/// A platform list in Steam's `oslist` form: the families joined by commas.
pub open spec fn oslist_text(p: Seq<Seq<char>>) -> Seq<char> {
    crate::text::join_with(oslist_names(p), ","@)
}

/// A text that holds `p` followed by `q` holds `p`.
proof fn lemma_contains_front(s: Seq<char>, p: Seq<char>, q: Seq<char>)
    requires
        crate::text::contains_text(s, p + q),
    ensures
        crate::text::contains_text(s, p),
{
    let i = choose|i: int| crate::text::occurs_at(s, p + q, i);
    assert(s.subrange(i, i + p.len()) =~= (p + q).subrange(0, p.len() as int));
    assert((p + q).subrange(0, p.len() as int) =~= p);
    assert(crate::text::occurs_at(s, p, i));
}

/// The platform family of an operating-system name in lower case: a name with
/// `win` in it is Windows; otherwise one with `mac` or `osx` is macOS;
/// otherwise one with `linux` is Linux; any other name has no family.
pub proof fn lemma_os_families(lower: Seq<char>)
    ensures
        crate::text::contains_text(lower, "win"@) ==> os_family(lower) == Some("windows"@),
        !crate::text::contains_text(lower, "win"@) && (crate::text::contains_text(lower, "mac"@)
            || crate::text::contains_text(lower, "osx"@)) ==> os_family(lower) == Some("macos"@),
        !crate::text::contains_text(lower, "win"@) && !crate::text::contains_text(lower, "mac"@)
            && !crate::text::contains_text(lower, "osx"@) && crate::text::contains_text(lower, "linux"@)
            ==> os_family(lower) == Some("linux"@),
        !crate::text::contains_text(lower, "win"@) && !crate::text::contains_text(lower, "mac"@)
            && !crate::text::contains_text(lower, "osx"@) && !crate::text::contains_text(lower, "linux"@)
            ==> os_family(lower) is None,
{
    reveal_strlit("windows");
    reveal_strlit("win");
    reveal_strlit("dows");
    reveal_strlit("macos");
    reveal_strlit("mac");
    reveal_strlit("os");
    assert("windows"@ =~= "win"@ + "dows"@);
    assert("macos"@ =~= "mac"@ + "os"@);
    if crate::text::contains_text(lower, "windows"@) {
        lemma_contains_front(lower, "win"@, "dows"@);
    }
    if crate::text::contains_text(lower, "macos"@) {
        lemma_contains_front(lower, "mac"@, "os"@);
    }
}

/// Whether a lower-case name is a Linux name: it holds `linux` and none of
/// `win`, `mac`, `osx`.
pub open spec fn linux_only_name(lower: Seq<char>) -> bool {
    &&& crate::text::contains_text(lower, "linux"@)
    &&& !crate::text::contains_text(lower, "win"@)
    &&& !crate::text::contains_text(lower, "mac"@)
    &&& !crate::text::contains_text(lower, "osx"@)
}

/// A platform whose lower-case name is a Linux name adds `linux` to the
/// families written for the platforms before it.
pub proof fn lemma_linux_platform_written(ps: Seq<Seq<char>>, q: Seq<char>)
    requires
        linux_only_name(crate::text::unicode_lowercase(q)),
    ensures
        oslist_names(ps.push(q)) == oslist_names(ps).push("linux"@),
        oslist_text(seq![q]) == "linux"@,
{
    lemma_os_families(crate::text::unicode_lowercase(q));
    assert(ps.push(q).drop_last() =~= ps);
    assert(seq![q].drop_last() =~= Seq::<Seq<char>>::empty());
    assert(seq![q].last() == q);
    assert(oslist_names(Seq::<Seq<char>>::empty()) =~= Seq::<Seq<char>>::empty());
    assert(oslist_names(seq![q]) =~= seq!["linux"@]);
}

/// A Windows platform followed by a Linux platform is written as
/// `windows,linux`.
pub proof fn lemma_windows_then_linux(w: Seq<char>, l: Seq<char>)
    requires
        crate::text::contains_text(crate::text::unicode_lowercase(w), "win"@),
        linux_only_name(crate::text::unicode_lowercase(l)),
    ensures
        oslist_text(seq![w, l]) == "windows,linux"@,
{
    lemma_os_families(crate::text::unicode_lowercase(w));
    lemma_os_families(crate::text::unicode_lowercase(l));
    assert(seq![w].drop_last() =~= Seq::<Seq<char>>::empty());
    assert(seq![w].last() == w);
    assert(oslist_names(Seq::<Seq<char>>::empty()) =~= Seq::<Seq<char>>::empty());
    assert(oslist_names(seq![w]) =~= seq!["windows"@]);
    assert(seq![w, l].drop_last() =~= seq![w]);
    assert(seq![w, l].last() == l);
    assert(oslist_names(seq![w, l]) =~= seq!["windows"@, "linux"@]);
    let names = seq!["windows"@, "linux"@];
    assert(names.drop_last() =~= seq!["windows"@]);
    reveal_strlit("windows,linux");
    reveal_strlit("windows");
    reveal_strlit("linux");
    reveal_strlit(",");
    assert(names.last() == "linux"@);
    assert(crate::text::join_with(seq!["windows"@], ","@) == "windows"@);
    assert("windows"@ + ","@ + "linux"@ =~= "windows,linux"@);
    assert(crate::text::join_with(names, ","@) == "windows"@ + ","@ + "linux"@);
}

/// Whether a rule's platform list is written: it is not when empty or when one
/// of its names is `all`, ignoring case.
pub open spec fn platforms_restricted(p: Seq<Seq<char>>) -> bool {
    p.len() > 0 && !(exists|i: int|
        0 <= i < p.len() && crate::text::unicode_lowercase(#[trigger] p[i]) == "all"@)
}

/// The items of save-file rule number `index`.
pub open spec fn savefile_items(c: SaveFileConfigModel, index: u32) -> Seq<VdfItem> {
    seq![
        VdfItem::Open(crate::text::decimal(index as nat)),
        VdfItem::Str("root"@, c.root),
        VdfItem::Str("path"@, c.path),
        VdfItem::Str("pattern"@, c.pattern),
    ] + (if platforms_restricted(c.platforms) {
        seq![VdfItem::Str("platforms"@, oslist_text(c.platforms))]
    } else {
        Seq::<VdfItem>::empty()
    }) + seq![VdfItem::Close]
}

/// The items of path rewrite number `j`.
pub open spec fn transform_items(t: PathTransformModel, j: nat) -> Seq<VdfItem> {
    seq![
        VdfItem::Open(crate::text::decimal(j)),
        VdfItem::Str("find"@, t.find),
        VdfItem::Str("replace"@, t.replace),
        VdfItem::Close,
    ]
}

/// The items of a list of path rewrites, numbered from 0.
pub open spec fn transforms_items(ts: Seq<PathTransformModel>) -> Seq<VdfItem>
    decreases ts.len(),
{
    if ts.len() == 0 {
        Seq::empty()
    } else {
        transforms_items(ts.drop_last()) + transform_items(ts.last(), (ts.len() - 1) as nat)
    }
}

/// The items of root override number `index`. Path rewrites and an added path
/// exclude each other: with rewrites, the added path is not written.
pub open spec fn override_items(o: RootOverrideModel, index: u32) -> Seq<VdfItem> {
    seq![
        VdfItem::Open(crate::text::decimal(index as nat)),
        VdfItem::Str("root"@, o.original_root),
        VdfItem::Str("os"@, o.os),
        VdfItem::Str("oscompare"@, "="@),
        VdfItem::Str("useinstead"@, o.new_root),
    ] + (if o.path_transforms.len() > 0 {
        seq![VdfItem::Open("pathtransforms"@)] + transforms_items(o.path_transforms) + seq![
            VdfItem::Close,
        ]
    } else if o.add_path.len() > 0 {
        seq![VdfItem::Str("addpath"@, o.add_path)]
    } else {
        Seq::<VdfItem>::empty()
    }) + seq![VdfItem::Close]
}

/// The items of a list of save-file rules, numbered from 0.
pub open spec fn savefile_list_items(cs: Seq<SaveFileConfigModel>) -> Seq<VdfItem>
    decreases cs.len(),
{
    if cs.len() == 0 {
        Seq::empty()
    } else {
        savefile_list_items(cs.drop_last()) + savefile_items(cs.last(), (cs.len() - 1) as u32)
    }
}

/// The items of a list of root overrides, numbered from 0.
pub open spec fn override_list_items(os: Seq<RootOverrideModel>) -> Seq<VdfItem>
    decreases os.len(),
{
    if os.len() == 0 {
        Seq::empty()
    } else {
        override_list_items(os.drop_last()) + override_items(os.last(), (os.len() - 1) as u32)
    }
}

/// The `savefiles` section.
pub open spec fn savefiles_section(cs: Seq<SaveFileConfigModel>) -> Seq<VdfItem> {
    seq![VdfItem::Open("savefiles"@)] + savefile_list_items(cs) + seq![VdfItem::Close]
}

/// The `rootoverrides` section.
pub open spec fn overrides_section(os: Seq<RootOverrideModel>) -> Seq<VdfItem> {
    seq![VdfItem::Open("rootoverrides"@)] + override_list_items(os) + seq![VdfItem::Close]
}

/// What goes inside the `ufs` section: the `savefiles` section when there are
/// rules, then the `rootoverrides` section when there are overrides.
pub open spec fn ufs_sections(cs: Seq<SaveFileConfigModel>, os: Seq<RootOverrideModel>) -> Seq<VdfItem> {
    (if cs.len() > 0 {
        savefiles_section(cs)
    } else {
        Seq::<VdfItem>::empty()
    }) + (if os.len() > 0 {
        overrides_section(os)
    } else {
        Seq::<VdfItem>::empty()
    })
}

/// The models of a list of save-file rules.
pub open spec fn configs_view(v: Seq<SaveFileConfig>) -> Seq<SaveFileConfigModel> {
    v.map_values(|c: SaveFileConfig| c@)
}

// ---------------------------------------------------------------------------
// Writing
// ---------------------------------------------------------------------------

/// The family of one operating-system name.
fn os_family_of(p: &str) -> (r: Option<&'static str>)
    ensures
        match r {
            Some(n) => os_family(crate::text::unicode_lowercase(p@)) == Some(n@),
            None => os_family(crate::text::unicode_lowercase(p@)) is None,
        },
{
    let lower = crate::text::to_lowercase(p);
    let l = lower.as_str();
    if crate::text::str_contains(l, "windows") || crate::text::str_contains(l, "win") {
        Some("windows")
    } else if crate::text::str_contains(l, "macos") || crate::text::str_contains(l, "mac")
        || crate::text::str_contains(l, "osx") {
        Some("macos")
    } else if crate::text::str_contains(l, "linux") {
        Some("linux")
    } else {
        None
    }
}

/// A platform list in Steam's `oslist` form (see [`oslist_text`]).
pub fn platforms_to_oslist(platforms: &[String]) -> (r: String)
    ensures
        r@ == oslist_text(crate::config::strings_view(platforms@)),
{
    let ghost pv = crate::config::strings_view(platforms@);
    let mut out = String::new();
    let mut count: usize = 0;
    let mut i: usize = 0;
    assert(pv.take(0) =~= Seq::<Seq<char>>::empty());
    while i < platforms.len()
        invariant
            pv == crate::config::strings_view(platforms@),
            i <= platforms@.len(),
            count == oslist_names(pv.take(i as int)).len(),
            count <= i,
            out@ == crate::text::join_with(oslist_names(pv.take(i as int)), ","@),
        decreases platforms.len() - i,
    {
        let ghost names = oslist_names(pv.take(i as int));
        assert(pv.take(i + 1).drop_last() =~= pv.take(i as int));
        assert(pv.take(i + 1).last() == platforms@[i as int]@);
        match os_family_of(platforms[i].as_str()) {
            Some(n) => {
                if count > 0 {
                    out.append(",");
                }
                out.append(n);
                proof {
                    let nn = names.push(n@);
                    assert(oslist_names(pv.take(i + 1)) =~= nn);
                    if names.len() > 0 {
                        assert(nn.drop_last() =~= names);
                    } else {
                        assert(out@ =~= n@);
                    }
                }
                count = count + 1;
            },
            None => {
                assert(oslist_names(pv.take(i + 1)) =~= names);
            },
        }
        i = i + 1;
    }
    assert(pv.take(pv.len() as int) =~= pv);
    out
}

/// Whether some platform name is `all`, ignoring case.
fn has_all_platform(platforms: &[String]) -> (r: bool)
    ensures
        r == exists|i: int|
            0 <= i < platforms@.len() && crate::text::unicode_lowercase(
                #[trigger] crate::config::strings_view(platforms@)[i],
            ) == "all"@,
{
    let ghost pv = crate::config::strings_view(platforms@);
    let mut i: usize = 0;
    while i < platforms.len()
        invariant
            pv == crate::config::strings_view(platforms@),
            i <= platforms@.len(),
            forall|k: int| 0 <= k < i ==> crate::text::unicode_lowercase(#[trigger] pv[k]) != "all"@,
        decreases platforms.len() - i,
    {
        assert(pv[i as int] == platforms@[i as int]@);
        let lower = crate::text::to_lowercase(platforms[i].as_str());
        if crate::text::str_eq(lower.as_str(), "all") {
            return true;
        }
        i = i + 1;
    }
    false
}

/// The bytes of save-file rule number `index` with keys written out.
pub fn encode_savefile_v28(savefile: &SaveFileConfig, index: u32) -> (r: Vec<u8>)
    ensures
        r@ == emit28(savefile_items(savefile@, index)),
{
    let mut out: Vec<u8> = Vec::new();
    let key = crate::text::u64_text(index as u64);
    emit28_open(&mut out, key.as_str());
    emit28_str(&mut out, "root", savefile.root.as_str());
    emit28_str(&mut out, "path", savefile.path.as_str());
    emit28_str(&mut out, "pattern", savefile.pattern.as_str());
    let ghost head = seq![
        VdfItem::Open(crate::text::decimal(index as nat)),
        VdfItem::Str("root"@, savefile.root@),
        VdfItem::Str("path"@, savefile.path@),
        VdfItem::Str("pattern"@, savefile.pattern@),
    ];
    proof {
        reveal_with_fuel(emit28, 5);
    }
    assert(out@ =~= emit28(head));
    let ghost mid = Seq::<VdfItem>::empty();
    let restricted = savefile.platforms.len() > 0 && !has_all_platform(savefile.platforms.as_slice());
    if restricted {
        let p = platforms_to_oslist(savefile.platforms.as_slice());
        emit28_str(&mut out, "platforms", p.as_str());
        proof {
            mid = seq![VdfItem::Str("platforms"@, p@)];
            reveal_with_fuel(emit28, 2);
            crate::vdf::lemma_emit28_concat(head, mid);
        }
    } else {
        assert(head + mid =~= head);
    }
    assert(out@ == emit28(head + mid));
    emit_close(&mut out);
    proof {
        reveal_with_fuel(emit28, 2);
        crate::vdf::lemma_emit28_concat(head + mid, seq![VdfItem::Close]);
        assert(savefile_items(savefile@, index) =~= head + mid + seq![VdfItem::Close]);
    }
    out
}


/// The bytes of save-file rule number `index` with keys given by string-table
/// positions; keys missing from the table are added at its end.
pub fn encode_savefile_v29(savefile: &SaveFileConfig, index: u32, string_table: &mut Vec<String>) -> (r: Vec<u8>)
    ensures
        (r@, crate::config::strings_view(final(string_table)@)) == emit29(
            crate::config::strings_view(old(string_table)@),
            savefile_items(savefile@, index),
        ),
{
    let ghost t0 = crate::config::strings_view(string_table@);
    let ghost mut items = Seq::<VdfItem>::empty();
    let mut out: Vec<u8> = Vec::new();
    let key = crate::text::u64_text(index as u64);
    emit29_open(&mut out, string_table, key.as_str());
    proof {
        crate::vdf::lemma_emit29_push(t0, items, VdfItem::Open(key@));
        items = items.push(VdfItem::Open(key@));
    }
    emit29_str(&mut out, string_table, "root", savefile.root.as_str());
    proof {
        crate::vdf::lemma_emit29_push(t0, items, VdfItem::Str("root"@, savefile.root@));
        items = items.push(VdfItem::Str("root"@, savefile.root@));
    }
    emit29_str(&mut out, string_table, "path", savefile.path.as_str());
    proof {
        crate::vdf::lemma_emit29_push(t0, items, VdfItem::Str("path"@, savefile.path@));
        items = items.push(VdfItem::Str("path"@, savefile.path@));
    }
    emit29_str(&mut out, string_table, "pattern", savefile.pattern.as_str());
    proof {
        crate::vdf::lemma_emit29_push(t0, items, VdfItem::Str("pattern"@, savefile.pattern@));
        items = items.push(VdfItem::Str("pattern"@, savefile.pattern@));
    }
    let restricted = savefile.platforms.len() > 0 && !has_all_platform(savefile.platforms.as_slice());
    if restricted {
        let p = platforms_to_oslist(savefile.platforms.as_slice());
        emit29_str(&mut out, string_table, "platforms", p.as_str());
        proof {
            crate::vdf::lemma_emit29_push(t0, items, VdfItem::Str("platforms"@, p@));
            items = items.push(VdfItem::Str("platforms"@, p@));
        }
    }
    emit_close(&mut out);
    proof {
        crate::vdf::lemma_emit29_push(t0, items, VdfItem::Close);
        items = items.push(VdfItem::Close);
    }
    assert(items =~= savefile_items(savefile@, index));
    out
}

/// The bytes of root override number `index` with keys written out.
pub fn encode_rootoverride_v28(override_entry: &RootOverrideEntry, index: u32) -> (r: Vec<u8>)
    ensures
        r@ == emit28(override_items(override_entry@, index)),
{
    let ghost mut items = Seq::<VdfItem>::empty();
    let mut out: Vec<u8> = Vec::new();
    let key = crate::text::u64_text(index as u64);
    emit28_open(&mut out, key.as_str());
    proof {
        crate::vdf::lemma_emit28_push(items, VdfItem::Open(key@));
        items = items.push(VdfItem::Open(key@));
    }
    emit28_str(&mut out, "root", override_entry.original_root.as_str());
    proof {
        crate::vdf::lemma_emit28_push(items, VdfItem::Str("root"@, override_entry.original_root@));
        items = items.push(VdfItem::Str("root"@, override_entry.original_root@));
    }
    emit28_str(&mut out, "os", override_entry.os.as_str());
    proof {
        crate::vdf::lemma_emit28_push(items, VdfItem::Str("os"@, override_entry.os@));
        items = items.push(VdfItem::Str("os"@, override_entry.os@));
    }
    emit28_str(&mut out, "oscompare", "=");
    proof {
        crate::vdf::lemma_emit28_push(items, VdfItem::Str("oscompare"@, "="@));
        items = items.push(VdfItem::Str("oscompare"@, "="@));
    }
    emit28_str(&mut out, "useinstead", override_entry.new_root.as_str());
    proof {
        crate::vdf::lemma_emit28_push(items, VdfItem::Str("useinstead"@, override_entry.new_root@));
        items = items.push(VdfItem::Str("useinstead"@, override_entry.new_root@));
    }
    let ts = &override_entry.path_transforms;
    let ghost tv = override_entry@.path_transforms;
    if ts.len() > 0 {
        emit28_open(&mut out, "pathtransforms");
        proof {
            crate::vdf::lemma_emit28_push(items, VdfItem::Open("pathtransforms"@));
            items = items.push(VdfItem::Open("pathtransforms"@));
        }
        let ghost mid = items;
        let mut j: usize = 0;
        assert(tv.take(0) =~= Seq::<PathTransformModel>::empty());
        assert(mid + transforms_items(tv.take(0)) =~= mid);
        while j < ts.len()
            invariant
                tv == override_entry@.path_transforms,
                ts == &override_entry.path_transforms,
                j <= ts@.len(),
                items == mid + transforms_items(tv.take(j as int)),
                out@ == emit28(items),
            decreases ts.len() - j,
        {
            let t = &ts[j];
            assert(tv[j as int] == t@);
            let k = crate::text::u64_text(j as u64);
            emit28_open(&mut out, k.as_str());
            proof {
                crate::vdf::lemma_emit28_push(items, VdfItem::Open(k@));
                items = items.push(VdfItem::Open(k@));
            }
            emit28_str(&mut out, "find", t.find.as_str());
            proof {
                crate::vdf::lemma_emit28_push(items, VdfItem::Str("find"@, t.find@));
                items = items.push(VdfItem::Str("find"@, t.find@));
            }
            emit28_str(&mut out, "replace", t.replace.as_str());
            proof {
                crate::vdf::lemma_emit28_push(items, VdfItem::Str("replace"@, t.replace@));
                items = items.push(VdfItem::Str("replace"@, t.replace@));
            }
            emit_close(&mut out);
            proof {
                crate::vdf::lemma_emit28_push(items, VdfItem::Close);
                items = items.push(VdfItem::Close);
            }
            proof {
                assert(tv.take(j + 1).drop_last() =~= tv.take(j as int));
                assert(items =~= mid + transforms_items(tv.take(j + 1)));
            }
            j = j + 1;
        }
        assert(tv.take(tv.len() as int) =~= tv);
        emit_close(&mut out);
        proof {
            crate::vdf::lemma_emit28_push(items, VdfItem::Close);
            items = items.push(VdfItem::Close);
        }
    } else if override_entry.add_path.as_str().unicode_len() > 0 {
        emit28_str(&mut out, "addpath", override_entry.add_path.as_str());
        proof {
            crate::vdf::lemma_emit28_push(items, VdfItem::Str("addpath"@, override_entry.add_path@));
            items = items.push(VdfItem::Str("addpath"@, override_entry.add_path@));
        }
    }
    emit_close(&mut out);
    proof {
        crate::vdf::lemma_emit28_push(items, VdfItem::Close);
        items = items.push(VdfItem::Close);
    }
    assert(items =~= override_items(override_entry@, index));
    out
}

/// The bytes of root override number `index` with keys given by string-table
/// positions; keys missing from the table are added at its end.
pub fn encode_rootoverride_v29(
    override_entry: &RootOverrideEntry,
    index: u32,
    string_table: &mut Vec<String>,
) -> (r: Vec<u8>)
    ensures
        (r@, crate::config::strings_view(final(string_table)@)) == emit29(
            crate::config::strings_view(old(string_table)@),
            override_items(override_entry@, index),
        ),
{
    let ghost t0 = crate::config::strings_view(string_table@);
    let ghost mut items = Seq::<VdfItem>::empty();
    let mut out: Vec<u8> = Vec::new();
    let key = crate::text::u64_text(index as u64);
    emit29_open(&mut out, string_table, key.as_str());
    proof {
        crate::vdf::lemma_emit29_push(t0, items, VdfItem::Open(key@));
        items = items.push(VdfItem::Open(key@));
    }
    emit29_str(&mut out, string_table, "root", override_entry.original_root.as_str());
    proof {
        crate::vdf::lemma_emit29_push(t0, items, VdfItem::Str("root"@, override_entry.original_root@));
        items = items.push(VdfItem::Str("root"@, override_entry.original_root@));
    }
    emit29_str(&mut out, string_table, "os", override_entry.os.as_str());
    proof {
        crate::vdf::lemma_emit29_push(t0, items, VdfItem::Str("os"@, override_entry.os@));
        items = items.push(VdfItem::Str("os"@, override_entry.os@));
    }
    emit29_str(&mut out, string_table, "oscompare", "=");
    proof {
        crate::vdf::lemma_emit29_push(t0, items, VdfItem::Str("oscompare"@, "="@));
        items = items.push(VdfItem::Str("oscompare"@, "="@));
    }
    emit29_str(&mut out, string_table, "useinstead", override_entry.new_root.as_str());
    proof {
        crate::vdf::lemma_emit29_push(t0, items, VdfItem::Str("useinstead"@, override_entry.new_root@));
        items = items.push(VdfItem::Str("useinstead"@, override_entry.new_root@));
    }
    let ts = &override_entry.path_transforms;
    let ghost tv = override_entry@.path_transforms;
    if ts.len() > 0 {
        emit29_open(&mut out, string_table, "pathtransforms");
        proof {
            crate::vdf::lemma_emit29_push(t0, items, VdfItem::Open("pathtransforms"@));
            items = items.push(VdfItem::Open("pathtransforms"@));
        }
        let ghost mid = items;
        let mut j: usize = 0;
        assert(tv.take(0) =~= Seq::<PathTransformModel>::empty());
        assert(mid + transforms_items(tv.take(0)) =~= mid);
        while j < ts.len()
            invariant
                tv == override_entry@.path_transforms,
                ts == &override_entry.path_transforms,
                j <= ts@.len(),
                items == mid + transforms_items(tv.take(j as int)),
                (out@, crate::config::strings_view(string_table@)) == emit29(t0, items),
            decreases ts.len() - j,
        {
            let t = &ts[j];
            assert(tv[j as int] == t@);
            let k = crate::text::u64_text(j as u64);
            emit29_open(&mut out, string_table, k.as_str());
            proof {
                crate::vdf::lemma_emit29_push(t0, items, VdfItem::Open(k@));
                items = items.push(VdfItem::Open(k@));
            }
            emit29_str(&mut out, string_table, "find", t.find.as_str());
            proof {
                crate::vdf::lemma_emit29_push(t0, items, VdfItem::Str("find"@, t.find@));
                items = items.push(VdfItem::Str("find"@, t.find@));
            }
            emit29_str(&mut out, string_table, "replace", t.replace.as_str());
            proof {
                crate::vdf::lemma_emit29_push(t0, items, VdfItem::Str("replace"@, t.replace@));
                items = items.push(VdfItem::Str("replace"@, t.replace@));
            }
            emit_close(&mut out);
            proof {
                crate::vdf::lemma_emit29_push(t0, items, VdfItem::Close);
                items = items.push(VdfItem::Close);
            }
            proof {
                assert(tv.take(j + 1).drop_last() =~= tv.take(j as int));
                assert(items =~= mid + transforms_items(tv.take(j + 1)));
            }
            j = j + 1;
        }
        assert(tv.take(tv.len() as int) =~= tv);
        emit_close(&mut out);
        proof {
            crate::vdf::lemma_emit29_push(t0, items, VdfItem::Close);
            items = items.push(VdfItem::Close);
        }
    } else if override_entry.add_path.as_str().unicode_len() > 0 {
        emit29_str(&mut out, string_table, "addpath", override_entry.add_path.as_str());
        proof {
            crate::vdf::lemma_emit29_push(t0, items, VdfItem::Str("addpath"@, override_entry.add_path@));
            items = items.push(VdfItem::Str("addpath"@, override_entry.add_path@));
        }
    }
    emit_close(&mut out);
    proof {
        crate::vdf::lemma_emit29_push(t0, items, VdfItem::Close);
        items = items.push(VdfItem::Close);
    }
    assert(items =~= override_items(override_entry@, index));
    out
}


/// The bytes of items in format `version` (keys by table position from 29 on),
/// and the string table afterwards.
pub open spec fn emit_for(version: u32, t: Seq<Seq<char>>, items: Seq<VdfItem>) -> (Seq<u8>, Seq<Seq<char>>) {
    if version >= 29 {
        emit29(t, items)
    } else {
        (emit28(items), t)
    }
}

/// Writing two runs of items one after the other writes their concatenation.
pub proof fn lemma_emit_for_concat(version: u32, t: Seq<Seq<char>>, a: Seq<VdfItem>, b: Seq<VdfItem>)
    ensures
        emit_for(version, t, a + b) == (emit_for(version, t, a).0 + emit_for(
            version,
            emit_for(version, t, a).1,
            b,
        ).0, emit_for(version, emit_for(version, t, a).1, b).1),
{
    if version >= 29 {
        crate::vdf::lemma_emit29_concat(t, a, b);
    } else {
        crate::vdf::lemma_emit28_concat(a, b);
    }
}

/// Appends one save-file rule in format `version`.
fn write_savefile(result: &mut Vec<u8>, savefile: &SaveFileConfig, index: u32, version: u32, string_table: &mut Vec<String>)
    ensures
        (final(result)@, crate::config::strings_view(final(string_table)@)) == ({
            let (b, t) = emit_for(version, crate::config::strings_view(old(string_table)@), savefile_items(savefile@, index));
            (old(result)@ + b, t)
        }),
{
    let encoded = if version >= 29 {
        encode_savefile_v29(savefile, index, string_table)
    } else {
        encode_savefile_v28(savefile, index)
    };
    crate::bytes::push_all(result, encoded.as_slice());
}

/// Appends one root override in format `version`.
fn write_rootoverride(result: &mut Vec<u8>, o: &RootOverrideEntry, index: u32, version: u32, string_table: &mut Vec<String>)
    ensures
        (final(result)@, crate::config::strings_view(final(string_table)@)) == ({
            let (b, t) = emit_for(version, crate::config::strings_view(old(string_table)@), override_items(o@, index));
            (old(result)@ + b, t)
        }),
{
    let encoded = if version >= 29 {
        encode_rootoverride_v29(o, index, string_table)
    } else {
        encode_rootoverride_v28(o, index)
    };
    crate::bytes::push_all(result, encoded.as_slice());
}

/// Appends a section opening in format `version`.
fn write_open(result: &mut Vec<u8>, key: &str, version: u32, string_table: &mut Vec<String>)
    ensures
        (final(result)@, crate::config::strings_view(final(string_table)@)) == ({
            let (b, t) = emit_for(version, crate::config::strings_view(old(string_table)@), seq![VdfItem::Open(key@)]);
            (old(result)@ + b, t)
        }),
{
    proof {
        reveal_with_fuel(emit28, 2);
        reveal_with_fuel(emit29, 2);
    }
    if version >= 29 {
        emit29_open(result, string_table, key);
        assert(seq![VdfItem::Open(key@)].drop_last() =~= Seq::<VdfItem>::empty());
    } else {
        emit28_open(result, key);
        assert(seq![VdfItem::Open(key@)].drop_last() =~= Seq::<VdfItem>::empty());
    }
}

/// Appends a section end.
fn write_close(result: &mut Vec<u8>, version: u32, string_table: &Vec<String>)
    ensures
        ({
            let (b, t) = emit_for(version, crate::config::strings_view(string_table@), seq![VdfItem::Close]);
            final(result)@ == old(result)@ + b && t == crate::config::strings_view(string_table@)
        }),
{
    proof {
        reveal_with_fuel(emit28, 2);
        reveal_with_fuel(emit29, 2);
        assert(seq![VdfItem::Close].drop_last() =~= Seq::<VdfItem>::empty());
    }
    emit_close(result);
}

/// Appends the `savefiles` section in format `version`.
pub fn write_savefiles_section(
    result: &mut Vec<u8>,
    savefiles: &[SaveFileConfig],
    version: u32,
    string_table: &mut Vec<String>,
)
    ensures
        (final(result)@, crate::config::strings_view(final(string_table)@)) == ({
            let (b, t) = emit_for(
                version,
                crate::config::strings_view(old(string_table)@),
                savefiles_section(configs_view(savefiles@)),
            );
            (old(result)@ + b, t)
        }),
{
    let ghost t0 = crate::config::strings_view(string_table@);
    let ghost r0 = result@;
    let ghost cv = configs_view(savefiles@);
    let ghost mut items = seq![VdfItem::Open("savefiles"@)];
    write_open(result, "savefiles", version, string_table);
    let mut i: usize = 0;
    assert(cv.take(0) =~= Seq::<SaveFileConfigModel>::empty());
    assert(items =~= seq![VdfItem::Open("savefiles"@)] + savefile_list_items(cv.take(0)));
    while i < savefiles.len()
        invariant
            cv == configs_view(savefiles@),
            i <= savefiles@.len(),
            items == seq![VdfItem::Open("savefiles"@)] + savefile_list_items(cv.take(i as int)),
            result@ == r0 + emit_for(version, t0, items).0,
            crate::config::strings_view(string_table@) == emit_for(version, t0, items).1,
        decreases savefiles.len() - i,
    {
        assert(cv[i as int] == savefiles@[i as int]@);
        write_savefile(result, &savefiles[i], i as u32, version, string_table);
        proof {
            let add = savefile_items(cv[i as int], i as u32);
            lemma_emit_for_concat(version, t0, items, add);
            assert(cv.take(i + 1).drop_last() =~= cv.take(i as int));
            assert(cv.take(i + 1).last() == cv[i as int]);
            assert(items + add =~= seq![VdfItem::Open("savefiles"@)] + savefile_list_items(cv.take(i + 1)));
            assert(r0 + emit_for(version, t0, items).0 + emit_for(version, emit_for(version, t0, items).1, add).0
                =~= r0 + (emit_for(version, t0, items).0 + emit_for(version, emit_for(version, t0, items).1, add).0));
            items = items + add;
        }
        i = i + 1;
    }
    write_close(result, version, string_table);
    proof {
        lemma_emit_for_concat(version, t0, items, seq![VdfItem::Close]);
        assert(cv.take(cv.len() as int) =~= cv);
        assert(items + seq![VdfItem::Close] =~= savefiles_section(cv));
        assert(r0 + emit_for(version, t0, items).0 + emit_for(version, emit_for(version, t0, items).1, seq![VdfItem::Close]).0
            =~= r0 + (emit_for(version, t0, items).0 + emit_for(version, emit_for(version, t0, items).1, seq![VdfItem::Close]).0));
    }
}

/// Appends the `rootoverrides` section in format `version`.
pub fn write_rootoverrides_section(
    result: &mut Vec<u8>,
    overrides: &[RootOverrideEntry],
    version: u32,
    string_table: &mut Vec<String>,
)
    ensures
        (final(result)@, crate::config::strings_view(final(string_table)@)) == ({
            let (b, t) = emit_for(
                version,
                crate::config::strings_view(old(string_table)@),
                overrides_section(crate::config::overrides_view(overrides@)),
            );
            (old(result)@ + b, t)
        }),
{
    let ghost t0 = crate::config::strings_view(string_table@);
    let ghost r0 = result@;
    let ghost cv = crate::config::overrides_view(overrides@);
    let ghost mut items = seq![VdfItem::Open("rootoverrides"@)];
    write_open(result, "rootoverrides", version, string_table);
    let mut i: usize = 0;
    assert(cv.take(0) =~= Seq::<RootOverrideModel>::empty());
    assert(items =~= seq![VdfItem::Open("rootoverrides"@)] + override_list_items(cv.take(0)));
    while i < overrides.len()
        invariant
            cv == crate::config::overrides_view(overrides@),
            i <= overrides@.len(),
            items == seq![VdfItem::Open("rootoverrides"@)] + override_list_items(cv.take(i as int)),
            result@ == r0 + emit_for(version, t0, items).0,
            crate::config::strings_view(string_table@) == emit_for(version, t0, items).1,
        decreases overrides.len() - i,
    {
        assert(cv[i as int] == overrides@[i as int]@);
        write_rootoverride(result, &overrides[i], i as u32, version, string_table);
        proof {
            let add = override_items(cv[i as int], i as u32);
            lemma_emit_for_concat(version, t0, items, add);
            assert(cv.take(i + 1).drop_last() =~= cv.take(i as int));
            assert(cv.take(i + 1).last() == cv[i as int]);
            assert(items + add =~= seq![VdfItem::Open("rootoverrides"@)] + override_list_items(cv.take(i + 1)));
            assert(r0 + emit_for(version, t0, items).0 + emit_for(version, emit_for(version, t0, items).1, add).0
                =~= r0 + (emit_for(version, t0, items).0 + emit_for(version, emit_for(version, t0, items).1, add).0));
            items = items + add;
        }
        i = i + 1;
    }
    write_close(result, version, string_table);
    proof {
        lemma_emit_for_concat(version, t0, items, seq![VdfItem::Close]);
        assert(cv.take(cv.len() as int) =~= cv);
        assert(items + seq![VdfItem::Close] =~= overrides_section(cv));
        assert(r0 + emit_for(version, t0, items).0 + emit_for(version, emit_for(version, t0, items).1, seq![VdfItem::Close]).0
            =~= r0 + (emit_for(version, t0, items).0 + emit_for(version, emit_for(version, t0, items).1, seq![VdfItem::Close]).0));
    }
}


// ---------------------------------------------------------------------------
// Reading
// ---------------------------------------------------------------------------

/// The position of the first zero byte at or after `p`, or the length of the
/// data when there is none.
pub open spec fn zero_from(data: Seq<u8>, p: int) -> int
    decreases data.len() - p,
{
    if p < 0 || p >= data.len() {
        data.len() as int
    } else if data[p] == 0 {
        p
    } else {
        zero_from(data, p + 1)
    }
}

/// Where reading resumes after a zero-terminated string that starts at `p`:
/// past its zero byte, or at the end of the data when the zero is missing.
pub open spec fn cstr_next(data: Seq<u8>, p: int) -> int {
    let z = zero_from(data, p);
    if z < data.len() {
        z + 1
    } else {
        data.len() as int
    }
}

/// The text of a byte string: its UTF-8 decoding, or empty when it is not UTF-8.
pub open spec fn utf8_or_empty(b: Seq<u8>) -> Seq<char> {
    if vstd::utf8::valid_utf8(b) {
        vstd::utf8::decode_utf8(b)
    } else {
        Seq::empty()
    }
}

/// The zero-terminated string that starts at `p`, read as text, and where
/// reading resumes.
pub open spec fn read_cstr(data: Seq<u8>, p: int) -> (Seq<char>, int) {
    (utf8_or_empty(data.subrange(p, zero_from(data, p))), cstr_next(data, p))
}

proof fn lemma_zero_from(data: Seq<u8>, p: int)
    requires
        0 <= p <= data.len(),
    ensures
        p <= zero_from(data, p) <= data.len(),
        forall|k: int| p <= k < zero_from(data, p) ==> data[k] != 0,
        zero_from(data, p) < data.len() ==> data[zero_from(data, p)] == 0,
    decreases data.len() - p,
{
    if p < data.len() && data[p] != 0 {
        lemma_zero_from(data, p + 1);
    }
}

/// `String::from_utf8`: the text of UTF-8 bytes, or nothing when the bytes are
/// not UTF-8.
#[verifier::external_body]
fn utf8_string(bytes: Vec<u8>) -> (r: Option<String>)
    ensures
        r is Some <==> vstd::utf8::valid_utf8(bytes@),
        r matches Some(s) ==> s@ == vstd::utf8::decode_utf8(bytes@),
{
    String::from_utf8(bytes).ok()
}

/// The position of the first zero byte at or after `p`, or the length.
fn find_zero(data: &[u8], p: usize) -> (r: usize)
    requires
        p <= data@.len(),
    ensures
        r == zero_from(data@, p as int),
{
    proof {
        lemma_zero_from(data@, p as int);
    }
    let n = data.len();
    let mut i = p;
    while i < n && data[i] != 0
        invariant
            n == data@.len(),
            p <= i <= n,
            zero_from(data@, i as int) == zero_from(data@, p as int),
        decreases n - i,
    {
        i = i + 1;
    }
    i
}

/// Reads the zero-terminated string that starts at `p` (its text, or empty when
/// it is not UTF-8) and returns where reading resumes.
pub fn read_null_string(data: &[u8], p: usize) -> (r: (String, usize))
    requires
        p <= data@.len(),
    ensures
        (r.0@, r.1 as int) == read_cstr(data@, p as int),
{
    let z = find_zero(data, p);
    proof {
        lemma_zero_from(data@, p as int);
    }
    let mut bytes: Vec<u8> = Vec::new();
    crate::bytes::push_range(&mut bytes, data, p, z);
    assert(bytes@ =~= data@.subrange(p as int, z as int));
    let text = match utf8_string(bytes) {
        Some(s) => s,
        None => String::new(),
    };
    let next = if z < data.len() { z + 1 } else { data.len() };
    (text, next)
}

/// Where reading resumes after the zero-terminated string that starts at `p`.
pub fn skip_null_string(data: &[u8], p: usize) -> (r: usize)
    requires
        p <= data@.len(),
    ensures
        r as int == cstr_next(data@, p as int),
{
    let z = find_zero(data, p);
    if z < data.len() { z + 1 } else { data.len() }
}


// ---------------------------------------------------------------------------
// Finding the ufs section
// ---------------------------------------------------------------------------

/// Positions found in an entry's KeyValues data: where the `ufs`, `savefiles`
/// and `rootoverrides` sections open and where they end (the position of their
/// end byte), and where the root section ends.
#[derive(Debug, Clone, Copy)]
pub struct UfsSectionInfo {
    pub ufs_section_pos: Option<usize>,
    pub ufs_end_pos: Option<usize>,
    pub savefiles_section_pos: Option<usize>,
    pub savefiles_end_pos: Option<usize>,
    pub rootoverrides_section_pos: Option<usize>,
    pub rootoverrides_end_pos: Option<usize>,
    pub root_end_pos: Option<usize>,
}

/// Every position found is below `n`.
pub open spec fn positions_within(info: UfsSectionInfo, n: int) -> bool {
    &&& info.ufs_section_pos matches Some(x) ==> x < n
    &&& info.ufs_end_pos matches Some(x) ==> x < n
    &&& info.savefiles_section_pos matches Some(x) ==> x < n
    &&& info.savefiles_end_pos matches Some(x) ==> x < n
    &&& info.rootoverrides_section_pos matches Some(x) ==> x < n
    &&& info.rootoverrides_end_pos matches Some(x) ==> x < n
    &&& info.root_end_pos matches Some(x) ==> x < n
}

/// No position found yet.
pub open spec fn no_positions() -> UfsSectionInfo {
    UfsSectionInfo {
        ufs_section_pos: None,
        ufs_end_pos: None,
        savefiles_section_pos: None,
        savefiles_end_pos: None,
        rootoverrides_section_pos: None,
        rootoverrides_end_pos: None,
        root_end_pos: None,
    }
}

/// The state of the scan: the nesting depth, which of the sections of interest
/// are open and at what depth each opened, and the positions found so far.
pub struct ScanState {
    pub depth: int,
    pub in_ufs: bool,
    pub in_savefiles: bool,
    pub in_rootoverrides: bool,
    pub ufs_depth: int,
    pub savefiles_depth: int,
    pub rootoverrides_depth: int,
    pub info: UfsSectionInfo,
}

/// The state before the first byte.
pub open spec fn scan_start() -> ScanState {
    ScanState {
        depth: 0,
        in_ufs: false,
        in_savefiles: false,
        in_rootoverrides: false,
        ufs_depth: 0,
        savefiles_depth: 0,
        rootoverrides_depth: 0,
        info: no_positions(),
    }
}

/// A section end at `p`: one level up; a section of interest that opened
/// deeper than the new depth ends here, and at depth 0 the root ends here.
pub open spec fn scan_close(st: ScanState, p: int) -> ScanState {
    let d = st.depth - 1;
    let close_sf = st.in_savefiles && d < st.savefiles_depth;
    let close_ro = st.in_rootoverrides && d < st.rootoverrides_depth;
    let close_ufs = st.in_ufs && d < st.ufs_depth;
    ScanState {
        depth: d,
        in_ufs: st.in_ufs && !close_ufs,
        in_savefiles: st.in_savefiles && !close_sf,
        in_rootoverrides: st.in_rootoverrides && !close_ro,
        ufs_depth: st.ufs_depth,
        savefiles_depth: st.savefiles_depth,
        rootoverrides_depth: st.rootoverrides_depth,
        info: UfsSectionInfo {
            ufs_section_pos: st.info.ufs_section_pos,
            ufs_end_pos: if close_ufs { Some(p as usize) } else { st.info.ufs_end_pos },
            savefiles_section_pos: st.info.savefiles_section_pos,
            savefiles_end_pos: if close_sf { Some(p as usize) } else { st.info.savefiles_end_pos },
            rootoverrides_section_pos: st.info.rootoverrides_section_pos,
            rootoverrides_end_pos: if close_ro {
                Some(p as usize)
            } else {
                st.info.rootoverrides_end_pos
            },
            root_end_pos: if d == 0 { Some(p as usize) } else { st.info.root_end_pos },
        },
    }
}

/// A section opening with key `key` at `p`: one level down; `ufs` at depth 2
/// opens the ufs section, and inside it `savefiles` and `rootoverrides` open
/// those sections.
pub open spec fn scan_open(st: ScanState, key: Seq<char>, p: int) -> ScanState {
    let d = st.depth + 1;
    if d == 2 && key == "ufs"@ {
        ScanState {
            depth: d,
            in_ufs: true,
            ufs_depth: d,
            info: UfsSectionInfo { ufs_section_pos: Some(p as usize), ..st.info },
            ..st
        }
    } else if st.in_ufs && key == "savefiles"@ {
        ScanState {
            depth: d,
            in_savefiles: true,
            savefiles_depth: d,
            info: UfsSectionInfo { savefiles_section_pos: Some(p as usize), ..st.info },
            ..st
        }
    } else if st.in_ufs && key == "rootoverrides"@ {
        ScanState {
            depth: d,
            in_rootoverrides: true,
            rootoverrides_depth: d,
            info: UfsSectionInfo { rootoverrides_section_pos: Some(p as usize), ..st.info },
            ..st
        }
    } else {
        ScanState { depth: d, ..st }
    }
}

/// The key of an item whose key starts at `q`, and where reading resumes:
/// from format 29 on, a 4-byte table position (a position past the table's end
/// reads as the empty key; missing bytes are an error), before it a
/// zero-terminated string.
pub open spec fn read_key(v29: bool, table: Seq<Seq<char>>, data: Seq<u8>, q: int) -> Option<(Seq<char>, int)> {
    if v29 {
        if q + 4 <= data.len() {
            let idx = crate::bytes::u32_of(data.subrange(q, q + 4)) as int;
            Some((if idx < table.len() { table[idx] } else { Seq::empty() }, q + 4))
        } else {
            None
        }
    } else {
        Some(read_cstr(data, q))
    }
}

/// One item of the scan at `p`: the state afterwards and where the next item
/// starts, or `None` when the data ends inside a key or a number.
pub open spec fn scan_step(v29: bool, table: Seq<Seq<char>>, data: Seq<u8>, st: ScanState, p: int) -> Option<(ScanState, int)> {
    let b = data[p];
    if b == crate::vdf::VDF_TYPE_SECTION_END {
        Some((scan_close(st, p), p + 1))
    } else {
        match read_key(v29, table, data, p + 1) {
            None => None,
            Some((key, q)) => if b == crate::vdf::VDF_TYPE_SECTION {
                Some((scan_open(st, key, p), q))
            } else if b == crate::vdf::VDF_TYPE_STRING {
                Some((st, cstr_next(data, q)))
            } else if b == crate::vdf::VDF_TYPE_INT32 {
                if q + 4 <= data.len() { Some((st, q + 4)) } else { None }
            } else if b == crate::vdf::VDF_TYPE_UINT64 {
                if q + 8 <= data.len() { Some((st, q + 8)) } else { None }
            } else {
                Some((st, q))
            },
        }
    }
}

/// The state at the end of the data, scanning from `p` in state `st`; `None`
/// when the data ends inside a key or a number.
pub open spec fn scan_from(v29: bool, table: Seq<Seq<char>>, data: Seq<u8>, st: ScanState, p: int) -> Option<ScanState>
    decreases data.len() - p,
{
    if p < 0 {
        None
    } else if p >= data.len() {
        Some(st)
    } else {
        match scan_step(v29, table, data, st, p) {
            None => None,
            Some((st1, q)) => if q > p {
                scan_from(v29, table, data, st1, q)
            } else {
                None
            },
        }
    }
}

/// The positions that a scan of the whole data finds, or `None` when the data
/// ends inside a key or a number.
pub open spec fn ufs_positions(v29: bool, table: Seq<Seq<char>>, data: Seq<u8>) -> Option<UfsSectionInfo> {
    match scan_from(v29, table, data, scan_start(), 0) {
        Some(st) => Some(st.info),
        None => None,
    }
}

/// The scan state held in machine integers.
struct ScanVars {
    depth: i64,
    in_ufs: bool,
    in_savefiles: bool,
    in_rootoverrides: bool,
    ufs_depth: i64,
    savefiles_depth: i64,
    rootoverrides_depth: i64,
    info: UfsSectionInfo,
}

spec fn vars_state(v: ScanVars) -> ScanState {
    ScanState {
        depth: v.depth as int,
        in_ufs: v.in_ufs,
        in_savefiles: v.in_savefiles,
        in_rootoverrides: v.in_rootoverrides,
        ufs_depth: v.ufs_depth as int,
        savefiles_depth: v.savefiles_depth as int,
        rootoverrides_depth: v.rootoverrides_depth as int,
        info: v.info,
    }
}

spec fn vars_bounded(v: ScanVars, p: int) -> bool {
    &&& -p <= v.depth <= p
    &&& -p <= v.ufs_depth <= p
    &&& -p <= v.savefiles_depth <= p
    &&& -p <= v.rootoverrides_depth <= p
}

/// Reads the key of an item whose key starts at `q`.
fn read_key_exec(v29: bool, table: &Vec<String>, data: &[u8], q: usize) -> (r: Option<(String, usize)>)
    requires
        q <= data@.len(),
    ensures
        match read_key(v29, crate::config::strings_view(table@), data@, q as int) {
            None => r is None,
            Some((k, n)) => r matches Some(x) && x.0@ == k && x.1 as int == n,
        },
{
    if v29 {
        if q <= data.len() && data.len() - q >= 4 {
            let idx = crate::bytes::read_u32_at(data, q) as usize;
            let key = if idx < table.len() {
                table[idx].clone()
            } else {
                String::new()
            };
            Some((key, q + 4))
        } else {
            None
        }
    } else {
        Some(read_null_string(data, q))
    }
}

/// One step of the scan at `p`.
#[verifier::spinoff_prover]
#[verifier::rlimit(40)]
fn scan_step_exec(v29: bool, table: &Vec<String>, data: &[u8], vars: &mut ScanVars, p: usize) -> (r: Option<usize>)
    requires
        p < data@.len(),
        data@.len() <= i64::MAX,
        vars_bounded(*old(vars), p as int),
        positions_within(old(vars).info, p as int),
    ensures
        match scan_step(v29, crate::config::strings_view(table@), data@, vars_state(*old(vars)), p as int) {
            None => r is None,
            Some((st, q)) => r == Some(q as usize) && vars_state(*final(vars)) == st && q > p
                && vars_bounded(*final(vars), q) && positions_within(final(vars).info, q) && q <= data@.len(),
        },
{
    let b = data[p];
    if b == crate::vdf::VDF_TYPE_SECTION_END {
        vars.depth = vars.depth - 1;
        let d = vars.depth;
        if vars.in_savefiles && d < vars.savefiles_depth {
            vars.info.savefiles_end_pos = Some(p);
            vars.in_savefiles = false;
        }
        if vars.in_rootoverrides && d < vars.rootoverrides_depth {
            vars.info.rootoverrides_end_pos = Some(p);
            vars.in_rootoverrides = false;
        }
        if vars.in_ufs && d < vars.ufs_depth {
            vars.info.ufs_end_pos = Some(p);
            vars.in_ufs = false;
        }
        if d == 0 {
            vars.info.root_end_pos = Some(p);
        }
        return Some(p + 1);
    }
    proof {
        lemma_zero_from(data@, p + 1);
    }
    let (key, q) = match read_key_exec(v29, table, data, p + 1) {
        None => {
            return None;
        },
        Some(x) => x,
    };
    if b == crate::vdf::VDF_TYPE_SECTION {
        vars.depth = vars.depth + 1;
        let d = vars.depth;
        if d == 2 && crate::text::str_eq(key.as_str(), "ufs") {
            vars.info.ufs_section_pos = Some(p);
            vars.in_ufs = true;
            vars.ufs_depth = d;
        } else if vars.in_ufs && crate::text::str_eq(key.as_str(), "savefiles") {
            vars.info.savefiles_section_pos = Some(p);
            vars.in_savefiles = true;
            vars.savefiles_depth = d;
        } else if vars.in_ufs && crate::text::str_eq(key.as_str(), "rootoverrides") {
            vars.info.rootoverrides_section_pos = Some(p);
            vars.in_rootoverrides = true;
            vars.rootoverrides_depth = d;
        }
        assert(vars_state(*vars) == scan_open(vars_state(*old(vars)), key@, p as int));
        Some(q)
    } else if b == crate::vdf::VDF_TYPE_STRING {
        let n = skip_null_string(data, q);
        proof {
            lemma_zero_from(data@, q as int);
        }
        assert(n > p);
        Some(n)
    } else if b == crate::vdf::VDF_TYPE_INT32 {
        if data.len() - q >= 4 { Some(q + 4) } else { None }
    } else if b == crate::vdf::VDF_TYPE_UINT64 {
        if data.len() - q >= 8 { Some(q + 8) } else { None }
    } else {
        Some(q)
    }
}

/// Scans an entry's KeyValues data for the ufs section and its parts.
fn scan_ufs_sections(v29: bool, table: &Vec<String>, data: &[u8]) -> (r: Option<UfsSectionInfo>)
    requires
        data@.len() <= i64::MAX,
    ensures
        r == ufs_positions(v29, crate::config::strings_view(table@), data@),
        r matches Some(info) ==> positions_within(info, data@.len() as int),
{
    let ghost tv = crate::config::strings_view(table@);
    let mut vars = ScanVars {
        depth: 0,
        in_ufs: false,
        in_savefiles: false,
        in_rootoverrides: false,
        ufs_depth: 0,
        savefiles_depth: 0,
        rootoverrides_depth: 0,
        info: UfsSectionInfo {
            ufs_section_pos: None,
            ufs_end_pos: None,
            savefiles_section_pos: None,
            savefiles_end_pos: None,
            rootoverrides_section_pos: None,
            rootoverrides_end_pos: None,
            root_end_pos: None,
        },
    };
    let mut p: usize = 0;
    assert(vars_state(vars) == scan_start());
    while p < data.len()
        invariant
            tv == crate::config::strings_view(table@),
            data@.len() <= i64::MAX,
            p <= data@.len(),
            vars_bounded(vars, p as int),
            positions_within(vars.info, p as int),
            scan_from(v29, tv, data@, scan_start(), 0) == scan_from(v29, tv, data@, vars_state(vars), p as int),
        decreases data.len() - p,
    {
        match scan_step_exec(v29, table, data, &mut vars, p) {
            None => {
                return None;
            },
            Some(q) => {
                p = q;
            },
        }
    }
    Some(vars.info)
}

/// Finds the ufs section of format-29 KeyValues data, whose keys are positions
/// in `string_table`; `None` when the data ends inside a key or a number.
pub fn find_ufs_section_v29_improved(data: &[u8], string_table: &Vec<String>) -> (r: Option<UfsSectionInfo>)
    requires
        data@.len() <= i64::MAX,
    ensures
        r == ufs_positions(true, crate::config::strings_view(string_table@), data@),
        r matches Some(info) ==> positions_within(info, data@.len() as int),
{
    scan_ufs_sections(true, string_table, data)
}

/// Finds the ufs section of KeyValues data with keys written out (format 28
/// and before); `None` when the data ends inside a number.
pub fn find_ufs_section_v28_improved(data: &[u8]) -> (r: Option<UfsSectionInfo>)
    requires
        data@.len() <= i64::MAX,
    ensures
        r == ufs_positions(false, Seq::empty(), data@),
        r matches Some(info) ==> positions_within(info, data@.len() as int),
{
    let empty: Vec<String> = Vec::new();
    assert(crate::config::strings_view(empty@) =~= Seq::<Seq<char>>::empty());
    scan_ufs_sections(false, &empty, data)
}


// ---------------------------------------------------------------------------
// Injecting the ufs configuration
// ---------------------------------------------------------------------------

/// Why `appinfo.vdf` could not be rewritten.
#[derive(Debug, Clone, Copy, PartialEq, Eq, Structural)]
pub enum AppInfoError {
    /// The file header names a format other than 27, 28 or 29.
    UnsupportedVersion(u32),
    /// The data ends inside a header, a key or a number.
    Truncated,
    /// The game has no entry in the file.
    AppNotFound(u32),
    /// The ufs section opens but never ends.
    UfsSectionUnterminated,
    /// The root section of the entry never ends.
    RootSectionUnterminated,
}

/// The parts of the old ufs section that are dropped: the old `savefiles` and
/// `rootoverrides` sections, each with its end byte, in order of position.
pub open spec fn skip_list(info: UfsSectionInfo) -> Seq<(int, int)> {
    let a = match (info.savefiles_section_pos, info.savefiles_end_pos) {
        (Some(x), Some(y)) => seq![(x as int, y + 1)],
        _ => Seq::<(int, int)>::empty(),
    };
    let b = match (info.rootoverrides_section_pos, info.rootoverrides_end_pos) {
        (Some(x), Some(y)) => seq![(x as int, y + 1)],
        _ => Seq::<(int, int)>::empty(),
    };
    if a.len() == 1 && b.len() == 1 && b[0].0 < a[0].0 {
        b + a
    } else {
        a + b
    }
}

/// The bytes from `pos` on that lie before each dropped part, the dropped
/// parts left out, and where copying stands afterwards.
pub open spec fn copy_ranges(data: Seq<u8>, ranges: Seq<(int, int)>, pos: int) -> (Seq<u8>, int)
    decreases ranges.len(),
{
    if ranges.len() == 0 {
        (Seq::empty(), pos)
    } else {
        let (ss, se) = ranges[0];
        let piece = if pos < ss { data.subrange(pos, ss) } else { Seq::<u8>::empty() };
        let (rest, p2) = copy_ranges(data, ranges.drop_first(), se);
        (piece + rest, p2)
    }
}

/// What is kept of the data before the end of the ufs section.
pub open spec fn kept_before(data: Seq<u8>, info: UfsSectionInfo, ufs_end: int) -> Seq<u8> {
    let (b, pos) = copy_ranges(data, skip_list(info), 0);
    b + if pos < ufs_end { data.subrange(pos, ufs_end) } else { Seq::<u8>::empty() }
}

/// The positions of the ufs section and its parts in format `version`.
pub open spec fn positions_for(version: u32, t: Seq<Seq<char>>, data: Seq<u8>) -> Option<UfsSectionInfo> {
    if version >= 29 {
        ufs_positions(true, t, data)
    } else {
        ufs_positions(false, Seq::empty(), data)
    }
}

/// An entry's KeyValues data with its ufs configuration replaced, and the
/// string table afterwards. When the entry has a ufs section, its old
/// `savefiles` and `rootoverrides` sections are dropped and the new ones are
/// put just before the section's end; when it has none, a ufs section holding
/// the new ones is put just before the end of the root section.
pub open spec fn injected_vdf(
    version: u32,
    t: Seq<Seq<char>>,
    data: Seq<u8>,
    cs: Seq<SaveFileConfigModel>,
    os: Seq<RootOverrideModel>,
) -> Result<(Seq<u8>, Seq<Seq<char>>), AppInfoError> {
    match positions_for(version, t, data) {
        None => Err(AppInfoError::Truncated),
        Some(info) => match info.ufs_end_pos {
            Some(ufs_end) => {
                let (ins, t1) = emit_for(version, t, ufs_sections(cs, os));
                Ok(
                    (
                        kept_before(data, info, ufs_end as int) + ins + data.subrange(
                            ufs_end as int,
                            data.len() as int,
                        ),
                        t1,
                    ),
                )
            },
            None => if info.ufs_section_pos is Some {
                Err(AppInfoError::UfsSectionUnterminated)
            } else {
                match info.root_end_pos {
                    Some(root_end) => {
                        let (ins, t1) = emit_for(
                            version,
                            t,
                            seq![VdfItem::Open("ufs"@)] + ufs_sections(cs, os) + seq![VdfItem::Close],
                        );
                        Ok(
                            (
                                data.subrange(0, root_end as int) + ins + data.subrange(
                                    root_end as int,
                                    data.len() as int,
                                ),
                                t1,
                            ),
                        )
                    },
                    None => Err(AppInfoError::RootSectionUnterminated),
                }
            },
        },
    }
}

/// Appends the new `savefiles` and `rootoverrides` sections (each only when it
/// has entries).
fn write_ufs_sections(
    result: &mut Vec<u8>,
    custom_savefiles: &[SaveFileConfig],
    custom_overrides: &[RootOverrideEntry],
    version: u32,
    string_table: &mut Vec<String>,
)
    ensures
        (final(result)@, crate::config::strings_view(final(string_table)@)) == ({
            let (b, t) = emit_for(
                version,
                crate::config::strings_view(old(string_table)@),
                ufs_sections(configs_view(custom_savefiles@), crate::config::overrides_view(custom_overrides@)),
            );
            (old(result)@ + b, t)
        }),
{
    let ghost t0 = crate::config::strings_view(string_table@);
    let ghost cs = configs_view(custom_savefiles@);
    let ghost os = crate::config::overrides_view(custom_overrides@);
    let ghost a = if cs.len() > 0 { savefiles_section(cs) } else { Seq::<VdfItem>::empty() };
    let ghost b = if os.len() > 0 { overrides_section(os) } else { Seq::<VdfItem>::empty() };
    if custom_savefiles.len() > 0 {
        write_savefiles_section(result, custom_savefiles, version, string_table);
    } else {
        assert(old(result)@ + emit_for(version, t0, a).0 =~= old(result)@);
    }
    let ghost r1 = result@;
    let ghost t1 = crate::config::strings_view(string_table@);
    if custom_overrides.len() > 0 {
        write_rootoverrides_section(result, custom_overrides, version, string_table);
    } else {
        assert(r1 + emit_for(version, t1, b).0 =~= r1);
    }
    proof {
        lemma_emit_for_concat(version, t0, a, b);
        assert(old(result)@ + emit_for(version, t0, a).0 + emit_for(version, t1, b).0 =~= old(result)@
            + (emit_for(version, t0, a).0 + emit_for(version, t1, b).0));
    }
}

/// Replaces the ufs configuration in an entry's KeyValues data (see
/// [`injected_vdf`]); the string table gets the keys that were missing.
pub fn inject_full_ufs_to_vdf(
    vdf_data: &[u8],
    custom_savefiles: &[SaveFileConfig],
    custom_overrides: &[RootOverrideEntry],
    version: u32,
    string_table: &mut Vec<String>,
) -> (r: Result<Vec<u8>, AppInfoError>)
    requires
        vdf_data@.len() <= i64::MAX,
    ensures
        match injected_vdf(
            version,
            crate::config::strings_view(old(string_table)@),
            vdf_data@,
            configs_view(custom_savefiles@),
            crate::config::overrides_view(custom_overrides@),
        ) {
            Err(e) => r == Err::<Vec<u8>, AppInfoError>(e) && final(string_table)@ == old(string_table)@,
            Ok((b, t)) => r matches Ok(v) && v@ == b && crate::config::strings_view(final(string_table)@) == t,
        },
{
    let n = vdf_data.len();
    let found = if version >= 29 {
        find_ufs_section_v29_improved(vdf_data, string_table)
    } else {
        find_ufs_section_v28_improved(vdf_data)
    };
    let info = match found {
        None => {
            return Err(AppInfoError::Truncated);
        },
        Some(i) => i,
    };
    let mut result: Vec<u8> = Vec::new();
    if let Some(ufs_end) = info.ufs_end_pos {
        let first = match (info.savefiles_section_pos, info.savefiles_end_pos) {
            (Some(x), Some(y)) => Some((x, y + 1)),
            _ => None,
        };
        let second = match (info.rootoverrides_section_pos, info.rootoverrides_end_pos) {
            (Some(x), Some(y)) => Some((x, y + 1)),
            _ => None,
        };
        let (first, second) = match (first, second) {
            (Some(a), Some(b)) => if b.0 < a.0 {
                (Some(b), Some(a))
            } else {
                (Some(a), Some(b))
            },
            (None, Some(b)) => (Some(b), None),
            (a, b) => (a, b),
        };
        let ghost ranges = skip_list(info);
        proof {
            reveal_with_fuel(copy_ranges, 3);
            assert(ranges.len() <= 2);
        }
        let mut pos: usize = 0;
        let ghost rest = ranges;
        assert(copy_ranges(vdf_data@, ranges, 0) == (result@ + copy_ranges(vdf_data@, rest, pos as int).0, copy_ranges(vdf_data@, rest, pos as int).1));
        if let Some((ss, se)) = first {
            assert(rest.len() > 0 && rest[0] == (ss as int, se as int));
            if pos < ss {
                crate::bytes::push_range(&mut result, vdf_data, pos, ss);
            }
            proof {
                rest = rest.drop_first();
            }
            pos = se;
        }
        assert(copy_ranges(vdf_data@, ranges, 0) == (result@ + copy_ranges(vdf_data@, rest, pos as int).0, copy_ranges(vdf_data@, rest, pos as int).1));
        if let Some((ss, se)) = second {
            assert(rest.len() > 0 && rest[0] == (ss as int, se as int));
            if pos < ss {
                crate::bytes::push_range(&mut result, vdf_data, pos, ss);
            }
            proof {
                rest = rest.drop_first();
            }
            pos = se;
        }
        assert(rest.len() == 0);
        assert(copy_ranges(vdf_data@, ranges, 0) == (result@, pos as int));
        if pos < ufs_end {
            crate::bytes::push_range(&mut result, vdf_data, pos, ufs_end);
        }
        assert(result@ =~= kept_before(vdf_data@, info, ufs_end as int));
        write_ufs_sections(&mut result, custom_savefiles, custom_overrides, version, string_table);
        crate::bytes::push_range(&mut result, vdf_data, ufs_end, n);
        Ok(result)
    } else if info.ufs_section_pos.is_some() {
        Err(AppInfoError::UfsSectionUnterminated)
    } else if let Some(root_end) = info.root_end_pos {
        let ghost t0 = crate::config::strings_view(string_table@);
        let ghost mid = ufs_sections(configs_view(custom_savefiles@), crate::config::overrides_view(custom_overrides@));
        crate::bytes::push_range(&mut result, vdf_data, 0, root_end);
        let ghost r0 = result@;
        write_open(&mut result, "ufs", version, string_table);
        let ghost t1 = crate::config::strings_view(string_table@);
        write_ufs_sections(&mut result, custom_savefiles, custom_overrides, version, string_table);
        let ghost t2 = crate::config::strings_view(string_table@);
        write_close(&mut result, version, string_table);
        proof {
            let o = seq![VdfItem::Open("ufs"@)];
            let c = seq![VdfItem::Close];
            lemma_emit_for_concat(version, t0, o, mid);
            lemma_emit_for_concat(version, t0, o + mid, c);
            assert(r0 + emit_for(version, t0, o).0 + emit_for(version, t1, mid).0 + emit_for(version, t2, c).0
                =~= r0 + emit_for(version, t0, o + mid + c).0);
        }
        crate::bytes::push_range(&mut result, vdf_data, root_end, n);
        Ok(result)
    } else {
        Err(AppInfoError::RootSectionUnterminated)
    }
}


// ---------------------------------------------------------------------------
// Checksums
// ---------------------------------------------------------------------------

/// The SHA-1 digest of a byte string (the `sha1` crate's result).
pub uninterp spec fn sha1_digest(data: Seq<u8>) -> Seq<u8>;

/// `Sha1::digest` of the `sha1` crate: the 20-byte SHA-1 digest of `data`,
/// named by `sha1_digest`; nothing is claimed of the hash function itself.
#[verifier::external_body]
fn sha1_of(data: &[u8]) -> (r: [u8; 20])
    ensures
        r@ == sha1_digest(data@),
{
    sha1::Sha1::digest(data).into()
}

/// `n` tab characters.
pub open spec fn tabs(n: nat) -> Seq<char> {
    Seq::new(n, |i: int| '\t')
}

/// The line that opens a section in the checksum text. The text spells line
/// breaks and tabs as a backslash and a letter (`\n`, `\t`).
pub open spec fn open_text(depth: nat, key: Seq<char>) -> Seq<char> {
    tabs(depth) + seq!['"'] + key + seq!['"', '\\', 'n'] + tabs(depth) + seq!['{', '\\', 'n']
}

/// The line that closes a section opened at depth `depth`.
pub open spec fn close_text(depth: nat) -> Seq<char> {
    tabs(depth) + seq!['}', '\\', 'n']
}

/// A key/value line of the checksum text.
pub open spec fn value_text(depth: nat, key: Seq<char>, value: Seq<char>) -> Seq<char> {
    tabs(depth) + seq!['"'] + key + seq!['"', '\\', 't', '\\', 't', '"'] + value + seq!['"', '\\', 'n']
}

/// The closing lines of all sections still open at the end of the data.
pub open spec fn closers(depth: nat) -> Seq<char>
    decreases depth,
{
    if depth == 0 {
        Seq::empty()
    } else {
        close_text((depth - 1) as nat) + closers((depth - 1) as nat)
    }
}

/// One item of the text form at `p` (not the end of the outermost level): its
/// text, where the next item starts and the depth there; `None` when the data
/// ends inside a key or a number.
pub open spec fn text_item(v29: bool, table: Seq<Seq<char>>, data: Seq<u8>, p: int, depth: nat) -> Option<(Seq<char>, int, nat)> {
    let b = data[p];
    if b == crate::vdf::VDF_TYPE_SECTION_END {
        Some((close_text((depth - 1) as nat), p + 1, (depth - 1) as nat))
    } else {
        match read_key(v29, table, data, p + 1) {
            None => None,
            Some((key, q)) => if b == crate::vdf::VDF_TYPE_SECTION {
                Some((open_text(depth, key), q, depth + 1))
            } else if b == crate::vdf::VDF_TYPE_STRING {
                let (v, q2) = read_cstr(data, q);
                Some((value_text(depth, key, v), q2, depth))
            } else if b == crate::vdf::VDF_TYPE_INT32 {
                if q + 4 <= data.len() {
                    let v = crate::bytes::u32_of(data.subrange(q, q + 4)) as i32;
                    Some((value_text(depth, key, crate::text::signed_decimal(v as int)), q + 4, depth))
                } else {
                    None
                }
            } else if b == crate::vdf::VDF_TYPE_UINT64 {
                if q + 8 <= data.len() {
                    let v = crate::bytes::u64_of(data.subrange(q, q + 8));
                    Some((value_text(depth, key, crate::text::decimal(v as nat)), q + 8, depth))
                } else {
                    None
                }
            } else {
                Some((Seq::empty(), q, depth))
            },
        }
    }
}

/// The text form of KeyValues data from `p` on, `depth` sections deep: `None`
/// when the data ends inside a key or a number. It stops at the end byte of the
/// outermost level; at the end of the data the sections still open are closed.
pub open spec fn vdf_text_from(v29: bool, table: Seq<Seq<char>>, data: Seq<u8>, p: int, depth: nat) -> Option<Seq<char>>
    decreases data.len() - p,
{
    if p < 0 {
        None
    } else if p >= data.len() {
        Some(closers(depth))
    } else if data[p] == crate::vdf::VDF_TYPE_SECTION_END && depth == 0 {
        Some(Seq::empty())
    } else {
        match text_item(v29, table, data, p, depth) {
            None => None,
            Some((line, q, d)) => if q > p {
                match vdf_text_from(v29, table, data, q, d) {
                    Some(rest) => Some(line + rest),
                    None => None,
                }
            } else {
                None
            },
        }
    }
}

/// The text checksum of an entry's KeyValues data: the SHA-1 digest of the
/// UTF-8 bytes of its text form with every backslash doubled; `None` when the
/// data ends inside a key or a number.
pub open spec fn vdf_text_checksum(version: u32, table: Seq<Seq<char>>, data: Seq<u8>) -> Option<Seq<u8>> {
    match vdf_text_from(version >= 29, table, data, 0, 0) {
        Some(text) => Some(
            sha1_digest(vstd::utf8::encode_utf8(crate::text::replace_all(text, seq!['\\'], seq!['\\', '\\']))),
        ),
        None => None,
    }
}

/// Appends `n` tab characters.
fn push_tabs(out: &mut String, n: usize)
    ensures
        final(out)@ == old(out)@ + tabs(n as nat),
{
    let mut i: usize = 0;
    while i < n
        invariant
            i <= n,
            out@ == old(out)@ + tabs(i as nat),
        decreases n - i,
    {
        crate::text::push_char(out, '\t');
        i = i + 1;
        assert(out@ =~= old(out)@ + tabs(i as nat));
    }
}

/// Appends the characters of a short sequence given as a slice.
fn push_chars(out: &mut String, cs: &[char])
    ensures
        final(out)@ == old(out)@ + cs@,
{
    let mut i: usize = 0;
    while i < cs.len()
        invariant
            i <= cs@.len(),
            out@ == old(out)@ + cs@.take(i as int),
        decreases cs.len() - i,
    {
        crate::text::push_char(out, cs[i]);
        i = i + 1;
        assert(out@ =~= old(out)@ + cs@.take(i as int));
    }
    assert(cs@.take(cs@.len() as int) =~= cs@);
}

/// Appends a key/value line of the checksum text.
fn push_value_line(out: &mut String, depth: usize, key: &str, value: &str)
    ensures
        final(out)@ == old(out)@ + value_text(depth as nat, key@, value@),
{
    push_tabs(out, depth);
    crate::text::push_char(out, '"');
    out.append(key);
    push_chars(out, &['"', '\\', 't', '\\', 't', '"']);
    out.append(value);
    push_chars(out, &['"', '\\', 'n']);
    assert(out@ =~= old(out)@ + value_text(depth as nat, key@, value@));
}

/// Writes one item of the text form at `p` (see [`text_item`]).
fn text_item_exec(v29: bool, string_table: &Vec<String>, data: &[u8], p: usize, depth: usize) -> (r: Option<(String, usize, usize)>)
    requires
        p < data@.len(),
        depth <= p,
        !(data@[p as int] == crate::vdf::VDF_TYPE_SECTION_END && depth == 0),
    ensures
        match text_item(v29, crate::config::strings_view(string_table@), data@, p as int, depth as nat) {
            Some((line, q, d)) => r matches Some(x) && x.0@ == line && x.1 as int == q && x.2 as nat == d
                && q > p && q <= data@.len() && d <= q,
            None => r is None,
        },
{
    let n = data.len();
    let b = data[p];
    let mut out = String::new();
    if b == crate::vdf::VDF_TYPE_SECTION_END {
        push_tabs(&mut out, depth - 1);
        push_chars(&mut out, &['}', '\\', 'n']);
        assert(out@ =~= close_text((depth - 1) as nat));
        return Some((out, p + 1, depth - 1));
    }
    proof {
        lemma_zero_from(data@, p + 1);
    }
    let (key, q) = match read_key_exec(v29, string_table, data, p + 1) {
        None => {
            return None;
        },
        Some(x) => x,
    };
    if b == crate::vdf::VDF_TYPE_SECTION {
        push_tabs(&mut out, depth);
        crate::text::push_char(&mut out, '"');
        out.append(key.as_str());
        push_chars(&mut out, &['"', '\\', 'n']);
        push_tabs(&mut out, depth);
        push_chars(&mut out, &['{', '\\', 'n']);
        assert(out@ =~= open_text(depth as nat, key@));
        Some((out, q, depth + 1))
    } else if b == crate::vdf::VDF_TYPE_STRING {
        let (value, q2) = read_null_string(data, q);
        push_value_line(&mut out, depth, key.as_str(), value.as_str());
        proof {
            lemma_zero_from(data@, q as int);
        }
        assert(out@ =~= value_text(depth as nat, key@, value@));
        Some((out, q2, depth))
    } else if b == crate::vdf::VDF_TYPE_INT32 {
        if n - q < 4 {
            return None;
        }
        let v = crate::bytes::read_u32_at(data, q) as i32;
        let mut text = String::new();
        crate::text::append_signed_decimal(&mut text, v as i64);
        push_value_line(&mut out, depth, key.as_str(), text.as_str());
        assert(out@ =~= value_text(depth as nat, key@, text@));
        Some((out, q + 4, depth))
    } else if b == crate::vdf::VDF_TYPE_UINT64 {
        if n - q < 8 {
            return None;
        }
        let v = crate::bytes::read_u64_at(data, q);
        let text = crate::text::u64_text(v);
        push_value_line(&mut out, depth, key.as_str(), text.as_str());
        assert(out@ =~= value_text(depth as nat, key@, text@));
        Some((out, q + 8, depth))
    } else {
        Some((out, q, depth))
    }
}

/// The text form of an entry's KeyValues data (see [`vdf_text_from`]).
pub fn format_vdf_to_text(data: &[u8], string_table: &Vec<String>, version: u32) -> (r: Option<String>)
    ensures
        match vdf_text_from(version >= 29, crate::config::strings_view(string_table@), data@, 0, 0) {
            Some(t) => r matches Some(s) && s@ == t,
            None => r is None,
        },
{
    let v29 = version >= 29;
    let ghost tv = crate::config::strings_view(string_table@);
    let n = data.len();
    let mut out = String::new();
    let mut p: usize = 0;
    let mut depth: usize = 0;
    assert(out@ =~= Seq::<char>::empty());
    loop
        invariant
            n == data@.len(),
            v29 == (version >= 29),
            tv == crate::config::strings_view(string_table@),
            p <= n,
            depth <= p,
            vdf_text_from(v29, tv, data@, 0, 0) == match vdf_text_from(v29, tv, data@, p as int, depth as nat) {
                Some(rest) => Some(out@ + rest),
                None => None::<Seq<char>>,
            },
        decreases n - p,
    {
        if p >= n {
            let mut d = depth;
            let ghost out0 = out@;
            while d > 0
                invariant
                    d <= depth,
                    out@ + closers(d as nat) == out0 + closers(depth as nat),
                decreases d,
            {
                d = d - 1;
                let ghost before = out@;
                push_tabs(&mut out, d);
                push_chars(&mut out, &['}', '\\', 'n']);
                assert(out@ + closers(d as nat) =~= before + closers((d + 1) as nat));
            }
            assert(out@ + closers(0) =~= out@);
            return Some(out);
        }
        if data[p] == crate::vdf::VDF_TYPE_SECTION_END && depth == 0 {
            assert(out@ + Seq::<char>::empty() =~= out@);
            return Some(out);
        }
        match text_item_exec(v29, string_table, data, p, depth) {
            None => {
                return None;
            },
            Some((line, q, d)) => {
                let ghost before = out@;
                out.append(line.as_str());
                proof {
                    assert forall|rest: Seq<char>| before + (line@ + rest) =~= out@ + rest by {}
                }
                p = q;
                depth = d;
            },
        }
    }
}

/// The text checksum of an entry's KeyValues data (see [`vdf_text_checksum`]).
pub fn text_checksum(vdf_data: &[u8], string_table: &Vec<String>, version: u32) -> (r: Option<[u8; 20]>)
    ensures
        match vdf_text_checksum(version, crate::config::strings_view(string_table@), vdf_data@) {
            Some(c) => r matches Some(x) && x@ == c,
            None => r is None,
        },
{
    let text = match format_vdf_to_text(vdf_data, string_table, version) {
        Some(t) => t,
        None => {
            return None;
        },
    };
    proof {
        reveal_strlit("\\");
        reveal_strlit("\\\\");
    }
    let escaped = crate::text::replace_text(text.as_str(), "\\", "\\\\");
    assert("\\"@ =~= seq!['\\']);
    assert("\\\\"@ =~= seq!['\\', '\\']);
    let bytes = escaped.as_str().as_bytes();
    Some(sha1_of(bytes))
}


/// The binary checksum of an entry: the SHA-1 digest of its KeyValues data.
pub fn binary_checksum(data: &[u8]) -> (r: [u8; 20])
    ensures
        r@ == sha1_digest(data@),
{
    sha1_of(data)
}

// ---------------------------------------------------------------------------
// Entries and the file
// ---------------------------------------------------------------------------

/// The length of an entry's header in format `version`: app id, size, info
/// state, last change time, access token, text checksum, change number and,
/// from format 28 on, binary checksum.
pub open spec fn header_len(version: u32) -> int {
    if version >= 28 {
        68
    } else {
        48
    }
}

/// An entry with its ufs configuration replaced, and the string table
/// afterwards. The app id, info state, change time, access token and change
/// number are kept; the size, the text checksum and (from format 28 on) the
/// binary checksum are those of the new KeyValues data.
#[verifier::opaque]
pub open spec fn modified_entry(
    entry: Seq<u8>,
    cs: Seq<SaveFileConfigModel>,
    os: Seq<RootOverrideModel>,
    version: u32,
    t: Seq<Seq<char>>,
) -> Result<(Seq<u8>, Seq<Seq<char>>), AppInfoError> {
    let h = header_len(version);
    if entry.len() < h {
        Err(AppInfoError::Truncated)
    } else {
        match injected_vdf(version, t, entry.subrange(h, entry.len() as int), cs, os) {
            Err(e) => Err(e),
            Ok((nv, t1)) => match vdf_text_checksum(version, t1, nv) {
                None => Err(AppInfoError::Truncated),
                Some(tc) => Ok(
                    (
                        entry.subrange(0, 4) + crate::bytes::le_u32(((h - 8) + nv.len()) as u32)
                            + entry.subrange(8, 24) + tc + entry.subrange(44, 48) + (if version >= 28 {
                            sha1_digest(nv)
                        } else {
                            Seq::<u8>::empty()
                        }) + nv,
                        t1,
                    ),
                ),
            },
        }
    }
}

/// Replaces the ufs configuration of one entry (see [`modified_entry`]). When
/// the new data cannot be read back for its text checksum, the string table may
/// already hold the new keys.
pub fn modify_entry_full(
    entry: &[u8],
    custom_savefiles: &[SaveFileConfig],
    custom_overrides: &[RootOverrideEntry],
    version: u32,
    string_table: &mut Vec<String>,
) -> (r: Result<Vec<u8>, AppInfoError>)
    requires
        entry@.len() <= i64::MAX,
    ensures
        match modified_entry(
            entry@,
            configs_view(custom_savefiles@),
            crate::config::overrides_view(custom_overrides@),
            version,
            crate::config::strings_view(old(string_table)@),
        ) {
            Ok((b, t)) => r matches Ok(v) && v@ == b && crate::config::strings_view(final(string_table)@) == t,
            Err(e) => r == Err::<Vec<u8>, AppInfoError>(e),
        },
        r matches Ok(v) ==> v@.len() >= 8 && crate::bytes::u32_of(v@.subrange(4, 8)) == (v@.len() - 8) as u32,
{
    reveal(modified_entry);
    let h: usize = if version >= 28 { 68 } else { 48 };
    let n = entry.len();
    if n < h {
        return Err(AppInfoError::Truncated);
    }
    let mut vdf: Vec<u8> = Vec::new();
    crate::bytes::push_range(&mut vdf, entry, h, n);
    assert(vdf@ =~= entry@.subrange(h as int, n as int));
    let modified_vdf = match inject_full_ufs_to_vdf(
        vdf.as_slice(),
        custom_savefiles,
        custom_overrides,
        version,
        string_table,
    ) {
        Ok(v) => v,
        Err(e) => {
            return Err(e);
        },
    };
    let new_checksum_binary = binary_checksum(modified_vdf.as_slice());
    let new_checksum_text = match text_checksum(modified_vdf.as_slice(), string_table, version) {
        Some(c) => c,
        None => {
            return Err(AppInfoError::Truncated);
        },
    };
    let new_size = ((h - 8) as u128 + modified_vdf.len() as u128) as u32;
    proof {
        assert(new_size == ((h - 8) + modified_vdf@.len()) as u32);
    }
    let mut result: Vec<u8> = Vec::new();
    crate::bytes::push_range(&mut result, entry, 0, 4);
    let size_bytes = crate::bytes::u32_to_le(new_size);
    crate::bytes::push_all(&mut result, &size_bytes);
    crate::bytes::push_range(&mut result, entry, 8, 24);
    crate::bytes::push_all(&mut result, &new_checksum_text);
    crate::bytes::push_range(&mut result, entry, 44, 48);
    if version >= 28 {
        crate::bytes::push_all(&mut result, &new_checksum_binary);
    }
    crate::bytes::push_all(&mut result, modified_vdf.as_slice());
    proof {
        assert(result@.len() == h + modified_vdf@.len());
        assert(result@.subrange(4, 8) =~= crate::bytes::le_u32(new_size));
        crate::bytes::lemma_le_u32_read_back(new_size);
    }
    Ok(result)
}

/// The strings of a string table stored from `pos` on: zero-terminated UTF-8
/// strings, empty ones and ones that are not UTF-8 left out, the reading
/// stopping once more than 50000 strings are held.
pub open spec fn string_table_from(data: Seq<u8>, pos: int, acc: Seq<Seq<char>>) -> Seq<Seq<char>>
    decreases data.len() - pos,
{
    if pos < 0 || pos >= data.len() {
        acc
    } else {
        let z = zero_from(data, pos);
        let bytes = data.subrange(pos, z);
        let acc2 = if z > pos && vstd::utf8::valid_utf8(bytes) {
            acc.push(vstd::utf8::decode_utf8(bytes))
        } else {
            acc
        };
        if acc2.len() > 50000 || z >= data.len() || z < pos {
            acc2
        } else {
            string_table_from(data, z + 1, acc2)
        }
    }
}

/// The string table stored at `offset` (empty when the offset is past the data).
pub open spec fn parsed_string_table(data: Seq<u8>, offset: int) -> Seq<Seq<char>> {
    if offset >= data.len() {
        Seq::empty()
    } else {
        string_table_from(data, offset, Seq::empty())
    }
}

/// Reads the string table stored at `offset` (see [`parsed_string_table`]).
pub fn parse_string_table(data: &[u8], offset: usize) -> (r: Vec<String>)
    ensures
        crate::config::strings_view(r@) == parsed_string_table(data@, offset as int),
{
    let n = data.len();
    let mut strings: Vec<String> = Vec::new();
    if offset >= n {
        assert(crate::config::strings_view(strings@) =~= Seq::<Seq<char>>::empty());
        return strings;
    }
    let mut pos = offset;
    assert(crate::config::strings_view(strings@) =~= Seq::<Seq<char>>::empty());
    while pos < n
        invariant
            n == data@.len(),
            offset < n,
            offset <= pos,
            string_table_from(data@, pos as int, crate::config::strings_view(strings@))
                == parsed_string_table(data@, offset as int),
        decreases n - pos,
    {
        let ghost acc = crate::config::strings_view(strings@);
        let start = pos;
        let z = find_zero(data, start);
        proof {
            lemma_zero_from(data@, start as int);
        }
        if z > start {
            let mut bytes: Vec<u8> = Vec::new();
            crate::bytes::push_range(&mut bytes, data, start, z);
            assert(bytes@ =~= data@.subrange(start as int, z as int));
            match utf8_string(bytes) {
                Some(s) => {
                    strings.push(s);
                    assert(crate::config::strings_view(strings@) =~= acc.push(
                        vstd::utf8::decode_utf8(data@.subrange(start as int, z as int)),
                    ));
                },
                None => {},
            }
        }
        if strings.len() > 50000 {
            return strings;
        }
        if z >= n {
            return strings;
        }
        pos = z + 1;
    }
    strings
}

/// Format number of a file header magic: 27, 28 or 29.
pub open spec fn appinfo_version(magic: u32) -> Option<u32> {
    if magic == 0x07564427 {
        Some(27)
    } else if magic == 0x07564428 {
        Some(28)
    } else if magic == 0x07564429 {
        Some(29)
    } else {
        None
    }
}

/// The span of game `target`'s entry, searching from `pos`: each entry starts
/// with its app id and the size of what follows its first 8 bytes; app id 0
/// ends the list.
pub open spec fn find_entry(data: Seq<u8>, target: u32, pos: int) -> Result<(int, int), AppInfoError>
    decreases data.len() - pos,
{
    if pos < 0 || pos + 4 > data.len() {
        Err(AppInfoError::Truncated)
    } else {
        let app_id = crate::bytes::u32_of(data.subrange(pos, pos + 4));
        if app_id == 0 {
            Err(AppInfoError::AppNotFound(target))
        } else if pos + 8 > data.len() {
            Err(AppInfoError::Truncated)
        } else {
            let size = crate::bytes::u32_of(data.subrange(pos + 4, pos + 8));
            let end = pos + 8 + size;
            if app_id == target {
                Ok((pos, end))
            } else if end <= data.len() {
                find_entry(data, target, end)
            } else {
                Err(AppInfoError::Truncated)
            }
        }
    }
}

proof fn lemma_find_entry_bounds(data: Seq<u8>, target: u32, pos: int)
    ensures
        find_entry(data, target, pos) matches Ok((s, e)) ==> pos <= s && s + 8 <= e && s + 8
            <= data.len(),
    decreases data.len() - pos,
{
    if pos >= 0 && pos + 8 <= data.len() {
        let size = crate::bytes::u32_of(data.subrange(pos + 4, pos + 8));
        let end = pos + 8 + size;
        if end <= data.len() {
            lemma_find_entry_bounds(data, target, end);
        }
    }
}

/// Finds the span of game `target`'s entry, searching from `pos`.
fn find_entry_exec(data: &[u8], target: u32, pos: usize) -> (r: Result<(usize, u64), AppInfoError>)
    requires
        data@.len() <= i64::MAX,
    ensures
        match find_entry(data@, target, pos as int) {
            Ok((s, e)) => r matches Ok(x) && x.0 as int == s && x.1 as int == e,
            Err(err) => r == Err::<(usize, u64), AppInfoError>(err),
        },
{
    let n = data.len();
    let mut p = pos;
    while true
        invariant
            n == data@.len(),
            n <= i64::MAX,
            find_entry(data@, target, pos as int) == find_entry(data@, target, p as int),
        decreases n - p,
    {
        if p > n || n - p < 4 {
            return Err(AppInfoError::Truncated);
        }
        let app_id = crate::bytes::read_u32_at(data, p);
        if app_id == 0 {
            return Err(AppInfoError::AppNotFound(target));
        }
        if n - p < 8 {
            return Err(AppInfoError::Truncated);
        }
        let size = crate::bytes::read_u32_at(data, p + 4);
        let end: u64 = p as u64 + 8 + size as u64;
        if app_id == target {
            return Ok((p, end));
        }
        if end > n as u64 {
            return Err(AppInfoError::Truncated);
        }
        p = end as usize;
    }
    Err(AppInfoError::Truncated)
}


/// The bytes of a string table as the file stores it: each string followed by
/// a zero byte.
pub open spec fn table_bytes(t: Seq<Seq<char>>) -> Seq<u8>
    decreases t.len(),
{
    if t.len() == 0 {
        Seq::empty()
    } else {
        table_bytes(t.drop_last()) + crate::vdf::cstr(t.last())
    }
}

/// `appinfo.vdf` with game `target`'s ufs configuration replaced; `None` where
/// the entry's declared size, or the string table's offset, points past the end
/// of the data so that the entry or the entries after it cannot be cut out.
///
/// The file starts with a magic number (format 27, 28 or 29) and a universe
/// number, and from format 29 on the offset of the string table. The entries
/// before and after the game's entry are kept as they are; the game's entry is
/// rewritten (see [`modified_entry`]). From format 29 on, the string table is
/// written again after the entries, with the keys the new sections added, and
/// the header's offset points to it.
pub open spec fn appinfo_modified(
    data: Seq<u8>,
    target: u32,
    cs: Seq<SaveFileConfigModel>,
    os: Seq<RootOverrideModel>,
) -> Option<Result<Seq<u8>, AppInfoError>> {
    if data.len() < 4 {
        Some(Err(AppInfoError::Truncated))
    } else {
        let magic = crate::bytes::u32_of(data.subrange(0, 4));
        match appinfo_version(magic) {
            None => Some(Err(AppInfoError::UnsupportedVersion(magic))),
            Some(version) => if data.len() < 8 || (version >= 29 && data.len() < 16) {
                Some(Err(AppInfoError::Truncated))
            } else {
                let offset: u64 = if version >= 29 {
                    crate::bytes::u64_of(data.subrange(8, 16))
                } else {
                    0
                };
                let off = (offset as usize) as int;
                let table = if version >= 29 && offset > 0 {
                    parsed_string_table(data, off)
                } else {
                    Seq::empty()
                };
                let entries_start: int = if version >= 29 { 16 } else { 8 };
                match find_entry(data, target, entries_start) {
                    Err(e) => Some(Err(e)),
                    Ok((start, end)) => if end > data.len() {
                        None
                    } else {
                        match modified_entry(data.subrange(start, end), cs, os, version, table) {
                            Err(e) => Some(Err(e)),
                            Ok((entry, t1)) => {
                                let entries_end = if version >= 29 { off } else { data.len() as int };
                                if end < entries_end && entries_end > data.len() {
                                    None
                                } else {
                                    let tail = if end < entries_end {
                                        data.subrange(end, entries_end)
                                    } else {
                                        Seq::<u8>::empty()
                                    };
                                    let body = data.subrange(entries_start, start) + entry + tail;
                                    if version >= 29 {
                                        Some(
                                            Ok(
                                                data.subrange(0, 8) + crate::bytes::le_u64(
                                                    (16 + body.len()) as u64,
                                                ) + body + table_bytes(t1),
                                            ),
                                        )
                                    } else {
                                        Some(Ok(data.subrange(0, 8) + body))
                                    }
                                }
                            },
                        }
                    },
                }
            },
        }
    }
}

/// Rewrites game `target_app_id`'s ufs configuration in the bytes of
/// `appinfo.vdf` (see [`appinfo_modified`]); `None` where the entry's size or
/// the string table's offset points past the end of the data.
pub fn modify_app_ufs_checked(
    data: &[u8],
    target_app_id: u32,
    custom_savefiles: &[SaveFileConfig],
    custom_overrides: &[RootOverrideEntry],
) -> (r: Option<Result<Vec<u8>, AppInfoError>>)
    requires
        data@.len() <= i64::MAX,
    ensures
        match appinfo_modified(
            data@,
            target_app_id,
            configs_view(custom_savefiles@),
            crate::config::overrides_view(custom_overrides@),
        ) {
            None => r is None,
            Some(Err(e)) => r == Some(Err::<Vec<u8>, AppInfoError>(e)),
            Some(Ok(b)) => r matches Some(Ok(v)) && v@ == b,
        },
{
    let n = data.len();
    if n < 4 {
        return Some(Err(AppInfoError::Truncated));
    }
    let magic = crate::bytes::read_u32_at(data, 0);
    let version: u32 = if magic == 0x07564427 {
        27
    } else if magic == 0x07564428 {
        28
    } else if magic == 0x07564429 {
        29
    } else {
        return Some(Err(AppInfoError::UnsupportedVersion(magic)));
    };
    if n < 8 || (version >= 29 && n < 16) {
        return Some(Err(AppInfoError::Truncated));
    }
    let offset: u64 = if version >= 29 { crate::bytes::read_u64_at(data, 8) } else { 0 };
    let off = offset as usize;
    let mut string_table = if version >= 29 && offset > 0 {
        parse_string_table(data, off)
    } else {
        let t: Vec<String> = Vec::new();
        assert(crate::config::strings_view(t@) =~= Seq::<Seq<char>>::empty());
        t
    };
    let entries_start: usize = if version >= 29 { 16 } else { 8 };
    let (start, end64) = match find_entry_exec(data, target_app_id, entries_start) {
        Ok(x) => x,
        Err(e) => {
            return Some(Err(e));
        },
    };
    proof {
        lemma_find_entry_bounds(data@, target_app_id, entries_start as int);
    }
    if end64 > n as u64 {
        return None;
    }
    let end = end64 as usize;
    let mut entry: Vec<u8> = Vec::new();
    crate::bytes::push_range(&mut entry, data, start, end);
    assert(entry@ =~= data@.subrange(start as int, end as int));
    let modified = match modify_entry_full(
        entry.as_slice(),
        custom_savefiles,
        custom_overrides,
        version,
        &mut string_table,
    ) {
        Ok(m) => m,
        Err(e) => {
            return Some(Err(e));
        },
    };
    let entries_end = if version >= 29 { off } else { n };
    if end < entries_end && entries_end > n {
        return None;
    }
    let mut body: Vec<u8> = Vec::new();
    crate::bytes::push_range(&mut body, data, entries_start, start);
    crate::bytes::push_all(&mut body, modified.as_slice());
    if end < entries_end {
        crate::bytes::push_range(&mut body, data, end, entries_end);
    } else {
        assert(body@ =~= body@ + Seq::<u8>::empty());
    }
    let mut result: Vec<u8> = Vec::new();
    crate::bytes::push_range(&mut result, data, 0, 8);
    if version >= 29 {
        let new_offset = (16u128 + body.len() as u128) as u64;
        let ob = crate::bytes::u64_to_le(new_offset);
        crate::bytes::push_all(&mut result, &ob);
        crate::bytes::push_all(&mut result, body.as_slice());
        let ghost tv = crate::config::strings_view(string_table@);
        let ghost r0 = result@;
        let mut i: usize = 0;
        assert(tv.take(0) =~= Seq::<Seq<char>>::empty());
        while i < string_table.len()
            invariant
                tv == crate::config::strings_view(string_table@),
                i <= string_table@.len(),
                result@ == r0 + table_bytes(tv.take(i as int)),
            decreases string_table.len() - i,
        {
            crate::bytes::push_cstr(&mut result, string_table[i].as_str());
            assert(tv.take(i + 1).drop_last() =~= tv.take(i as int));
            assert(tv.take(i + 1).last() == string_table@[i as int]@);
            assert(result@ =~= r0 + table_bytes(tv.take(i + 1)));
            i = i + 1;
        }
        assert(tv.take(tv.len() as int) =~= tv);
    } else {
        crate::bytes::push_all(&mut result, body.as_slice());
    }
    Some(Ok(result))
}

/// What rewrites `appinfo.vdf`: it knows where Steam is installed.
pub struct AppInfoWriter {
    pub steam_path: String,
}

impl AppInfoWriter {
    /// A writer for the Steam installation at `steam_path`.
    pub fn new(steam_path: String) -> (r: Self)
        ensures
            r.steam_path@ == steam_path@,
    {
        AppInfoWriter { steam_path }
    }

    /// Rewrites game `target_app_id`'s ufs configuration in the bytes of
    /// `appinfo.vdf` (see [`appinfo_modified`]). The entry's size and the
    /// string table's offset must not point past the end of the data.
    pub fn modify_app_ufs_full(
        &self,
        data: &[u8],
        target_app_id: u32,
        custom_savefiles: &[SaveFileConfig],
        custom_overrides: &[RootOverrideEntry],
    ) -> (r: Result<Vec<u8>, AppInfoError>)
        requires
            data@.len() <= i64::MAX,
            appinfo_modified(
                data@,
                target_app_id,
                configs_view(custom_savefiles@),
                crate::config::overrides_view(custom_overrides@),
            ) is Some,
        ensures
            match appinfo_modified(
                data@,
                target_app_id,
                configs_view(custom_savefiles@),
                crate::config::overrides_view(custom_overrides@),
            ) {
                Some(Err(e)) => r == Err::<Vec<u8>, AppInfoError>(e),
                Some(Ok(b)) => r matches Ok(v) && v@ == b,
                None => false,
            },
    {
        match modify_app_ufs_checked(data, target_app_id, custom_savefiles, custom_overrides) {
            Some(r) => r,
            None => Err(AppInfoError::Truncated),
        }
    }

    /// The SHA-1 digest of an entry's KeyValues data.
    pub fn calculate_binary_checksum(&self, data: &[u8]) -> (r: [u8; 20])
        ensures
            r@ == sha1_digest(data@),
    {
        binary_checksum(data)
    }

    /// The text checksum of an entry's KeyValues data (see [`vdf_text_checksum`]).
    pub fn calculate_text_checksum(&self, vdf_data: &[u8], string_table: &Vec<String>, version: u32) -> (r: Result<[u8; 20], AppInfoError>)
        ensures
            match vdf_text_checksum(version, crate::config::strings_view(string_table@), vdf_data@) {
                Some(c) => r matches Ok(x) && x@ == c,
                None => r == Err::<[u8; 20], AppInfoError>(AppInfoError::Truncated),
            },
    {
        match text_checksum(vdf_data, string_table, version) {
            Some(c) => Ok(c),
            None => Err(AppInfoError::Truncated),
        }
    }
}

/// The save-file rules of a game configuration with their roots read
/// (`RootType::from_name`).
pub fn savefile_configs_from_entries(entries: &[crate::config::SaveFileEntry]) -> (r: Vec<SaveFileConfig>)
    ensures
        r@.len() == entries@.len(),
        forall|i: int|
            0 <= i < entries@.len() ==> (#[trigger] r@[i])@ == (SaveFileConfigModel {
                root: entries@[i].root@,
                root_type: crate::path_resolver::root_of_lowercase_name(
                    crate::text::unicode_lowercase(entries@[i].root@),
                ),
                path: entries@[i].path@,
                pattern: entries@[i].pattern@,
                platforms: crate::config::strings_view(entries@[i].platforms@),
                recursive: entries@[i].recursive,
            }),
{
    let mut out: Vec<SaveFileConfig> = Vec::new();
    let mut i: usize = 0;
    while i < entries.len()
        invariant
            i <= entries@.len(),
            out@.len() == i,
            forall|k: int|
                0 <= k < i ==> (#[trigger] out@[k])@ == (SaveFileConfigModel {
                    root: entries@[k].root@,
                    root_type: crate::path_resolver::root_of_lowercase_name(
                        crate::text::unicode_lowercase(entries@[k].root@),
                    ),
                    path: entries@[k].path@,
                    pattern: entries@[k].pattern@,
                    platforms: crate::config::strings_view(entries@[k].platforms@),
                    recursive: entries@[k].recursive,
                }),
        decreases entries.len() - i,
    {
        let e = &entries[i];
        let platforms = copy_strings(e.platforms.as_slice());
        let c = SaveFileConfig {
            root: e.root.clone(),
            root_type: crate::path_resolver::RootType::from_name(e.root.as_str()),
            path: e.path.clone(),
            pattern: e.pattern.clone(),
            platforms,
            recursive: e.recursive,
        };
        out.push(c);
        i = i + 1;
    }
    out
}

/// A copy of a list of strings.
pub fn copy_strings(v: &[String]) -> (r: Vec<String>)
    ensures
        crate::config::strings_view(r@) == crate::config::strings_view(v@),
{
    let mut out: Vec<String> = Vec::new();
    let mut i: usize = 0;
    while i < v.len()
        invariant
            i <= v@.len(),
            out@.len() == i,
            forall|k: int| 0 <= k < i ==> (#[trigger] out@[k])@ == v@[k]@,
        decreases v.len() - i,
    {
        out.push(v[i].clone());
        i = i + 1;
    }
    assert(crate::config::strings_view(out@) =~= crate::config::strings_view(v@));
    out
}


// ---------------------------------------------------------------------------
// Laws
// ---------------------------------------------------------------------------

/// A key written by string-table position (format 29) reads back as the same
/// key from the table as it stands after the write, whatever follows it.
pub proof fn lemma_v29_key_read_back(t: Seq<Seq<char>>, it: VdfItem, tail: Seq<u8>)
    requires
        it !is Close,
        t.len() < 0xffff_ffff,
    ensures
        ({
            let (b, t1) = crate::vdf::emit29_item(t, it);
            let k = match it {
                VdfItem::Open(k) => k,
                VdfItem::Str(k, _) => k,
                VdfItem::Close => Seq::empty(),
            };
            read_key(true, t1, b + tail, 1) == Some((k, 5int))
        }),
{
    let k = match it {
        VdfItem::Open(k) => k,
        VdfItem::Str(k, _) => k,
        VdfItem::Close => Seq::empty(),
    };
    crate::vdf::lemma_intern(t, k);
    let (t1, i) = crate::vdf::intern(t, k);
    crate::bytes::lemma_le_u32_read_back(i as u32);
    let (b, _) = crate::vdf::emit29_item(t, it);
    assert((b + tail).subrange(1, 5) =~= crate::bytes::le_u32(i as u32));
}

/// A rewritten entry starts with the same app id.
pub proof fn lemma_modified_entry_keeps_app_id(
    entry: Seq<u8>,
    cs: Seq<SaveFileConfigModel>,
    os: Seq<RootOverrideModel>,
    version: u32,
    t: Seq<Seq<char>>,
)
    ensures
        modified_entry(entry, cs, os, version, t) matches Ok((b, t1)) ==> b.len() >= 4
            && b.subrange(0, 4) == entry.subrange(0, 4),
{
    reveal(modified_entry);
    if let Ok((b, t1)) = modified_entry(entry, cs, os, version, t) {
        assert(b.subrange(0, 4) =~= entry.subrange(0, 4));
    }
}

/// Rewriting the ufs configuration only adds strings at the end of the string
/// table: every key position that was valid before still names the same key.
pub proof fn lemma_injected_table_grows(
    version: u32,
    t: Seq<Seq<char>>,
    data: Seq<u8>,
    cs: Seq<SaveFileConfigModel>,
    os: Seq<RootOverrideModel>,
)
    ensures
        injected_vdf(version, t, data, cs, os) matches Ok((b, t1)) ==> t1.len() >= t.len()
            && t1.subrange(0, t.len() as int) == t,
{
    if version >= 29 {
        crate::vdf::lemma_emit29_table_grows(t, ufs_sections(cs, os));
        crate::vdf::lemma_emit29_table_grows(
            t,
            seq![VdfItem::Open("ufs"@)] + ufs_sections(cs, os) + seq![VdfItem::Close],
        );
    } else {
        assert(t.subrange(0, t.len() as int) =~= t);
    }
}

/// Rewriting one game's configuration keeps the file header's magic and
/// universe and every entry before the game's entry byte for byte, and the
/// rewritten entry keeps its app id.
pub proof fn lemma_other_entries_kept(
    data: Seq<u8>,
    target: u32,
    cs: Seq<SaveFileConfigModel>,
    os: Seq<RootOverrideModel>,
)
    ensures
        appinfo_modified(data, target, cs, os) matches Some(Ok(b)) ==> ({
            let version = appinfo_version(crate::bytes::u32_of(data.subrange(0, 4))).unwrap();
            let entries_start: int = if version >= 29 { 16 } else { 8 };
            let (start, end) = find_entry(data, target, entries_start).unwrap();
            &&& b.subrange(0, 8) == data.subrange(0, 8)
            &&& b.subrange(entries_start, start) == data.subrange(entries_start, start)
            &&& b.subrange(start, start + 4) == data.subrange(start, start + 4)
        }),
{
    if let Some(Ok(b)) = appinfo_modified(data, target, cs, os) {
        let magic = crate::bytes::u32_of(data.subrange(0, 4));
        let version = appinfo_version(magic).unwrap();
        let entries_start: int = if version >= 29 { 16 } else { 8 };
        lemma_find_entry_bounds(data, target, entries_start);
        let (start, end) = find_entry(data, target, entries_start).unwrap();
        let offset: u64 = if version >= 29 { crate::bytes::u64_of(data.subrange(8, 16)) } else { 0 };
        let off = (offset as usize) as int;
        let table = if version >= 29 && offset > 0 {
            parsed_string_table(data, off)
        } else {
            Seq::empty()
        };
        let (entry, t1) = modified_entry(data.subrange(start, end), cs, os, version, table).unwrap();
        let entries_end = if version >= 29 { off } else { data.len() as int };
        let tail = if end < entries_end { data.subrange(end, entries_end) } else { Seq::<u8>::empty() };
        let body = data.subrange(entries_start, start) + entry + tail;
        let head = if version >= 29 {
            data.subrange(0, 8) + crate::bytes::le_u64((16 + body.len()) as u64)
        } else {
            data.subrange(0, 8)
        };
        assert(head.len() == entries_start);
        let rest = if version >= 29 { table_bytes(t1) } else { Seq::<u8>::empty() };
        assert(b =~= head + body + rest);
        lemma_modified_entry_keeps_app_id(data.subrange(start, end), cs, os, version, table);
        assert(entry.subrange(0, 4) =~= data.subrange(start, start + 4));
        assert(b.subrange(0, 8) =~= data.subrange(0, 8));
        assert(b.subrange(entries_start, start) =~= data.subrange(entries_start, start));
        assert(b.subrange(start, start + 4) =~= entry.subrange(0, 4));
    }
}

} // verus!
