//! Binary KeyValues ("VDF") as `appinfo.vdf` stores it: sections, string
//! values and section ends, with keys written out (format 28 and before) or
//! given by their position in a table of strings shared by the whole file
//! (format 29).
use vstd::prelude::*;
use vstd::string::*;
use crate::bytes::le_u32;

verus! {

/// Type byte that opens a section.
pub const VDF_TYPE_SECTION: u8 = 0x00;

/// Type byte of a string value.
pub const VDF_TYPE_STRING: u8 = 0x01;

/// Type byte of a 32-bit integer value.
pub const VDF_TYPE_INT32: u8 = 0x02;

/// Type byte of a 64-bit integer value.
pub const VDF_TYPE_UINT64: u8 = 0x07;

/// Type byte that ends a section.
pub const VDF_TYPE_SECTION_END: u8 = 0x08;

/// One written item: a section opening with its key, a string value with its
/// key, or the end of the innermost open section.
pub enum VdfItem {
    Open(Seq<char>),
    Str(Seq<char>, Seq<char>),
    Close,
}

/// The UTF-8 bytes of a text followed by a zero byte.
pub open spec fn cstr(s: Seq<char>) -> Seq<u8> {
    vstd::utf8::encode_utf8(s) + seq![0u8]
}

/// The bytes of one item with its key written out.
pub open spec fn emit28_item(it: VdfItem) -> Seq<u8> {
    match it {
        VdfItem::Open(k) => seq![VDF_TYPE_SECTION] + cstr(k),
        VdfItem::Str(k, v) => seq![VDF_TYPE_STRING] + cstr(k) + cstr(v),
        VdfItem::Close => seq![VDF_TYPE_SECTION_END],
    }
}

/// The bytes of items with their keys written out.
pub open spec fn emit28(items: Seq<VdfItem>) -> Seq<u8>
    decreases items.len(),
{
    if items.len() == 0 {
        Seq::empty()
    } else {
        emit28(items.drop_last()) + emit28_item(items.last())
    }
}

/// The position of the last occurrence of `s` in a string table.
pub open spec fn last_index_of(t: Seq<Seq<char>>, s: Seq<char>) -> Option<int>
    decreases t.len(),
{
    if t.len() == 0 {
        None
    } else if t.last() == s {
        Some(t.len() - 1)
    } else {
        last_index_of(t.drop_last(), s)
    }
}

/// A string's position in a string table, added at the end when absent: the
/// table afterwards and the position.
pub open spec fn intern(t: Seq<Seq<char>>, s: Seq<char>) -> (Seq<Seq<char>>, int) {
    match last_index_of(t, s) {
        Some(i) => (t, i),
        None => (t.push(s), t.len() as int),
    }
}

/// The bytes of one item with its key given by its table position, and the
/// table afterwards.
pub open spec fn emit29_item(t: Seq<Seq<char>>, it: VdfItem) -> (Seq<u8>, Seq<Seq<char>>) {
    match it {
        VdfItem::Open(k) => {
            let (t1, i) = intern(t, k);
            (seq![VDF_TYPE_SECTION] + le_u32(i as u32), t1)
        },
        VdfItem::Str(k, v) => {
            let (t1, i) = intern(t, k);
            (seq![VDF_TYPE_STRING] + le_u32(i as u32) + cstr(v), t1)
        },
        VdfItem::Close => (seq![VDF_TYPE_SECTION_END], t),
    }
}

/// The bytes of items with their keys given by table positions, and the table
/// afterwards.
pub open spec fn emit29(t: Seq<Seq<char>>, items: Seq<VdfItem>) -> (Seq<u8>, Seq<Seq<char>>)
    decreases items.len(),
{
    if items.len() == 0 {
        (Seq::empty(), t)
    } else {
        let (b0, t0) = emit29(t, items.drop_last());
        let (b1, t1) = emit29_item(t0, items.last());
        (b0 + b1, t1)
    }
}

/// Writing two runs of items one after the other writes their concatenation.
pub proof fn lemma_emit29_concat(t: Seq<Seq<char>>, a: Seq<VdfItem>, b: Seq<VdfItem>)
    ensures
        emit29(t, a + b) == (emit29(t, a).0 + emit29(emit29(t, a).1, b).0, emit29(
            emit29(t, a).1,
            b,
        ).1),
    decreases b.len(),
{
    if b.len() == 0 {
        assert(a + b =~= a);
        assert(emit29(t, a).0 + Seq::<u8>::empty() =~= emit29(t, a).0);
    } else {
        lemma_emit29_concat(t, a, b.drop_last());
        assert((a + b).drop_last() =~= a + b.drop_last());
        assert((a + b).last() == b.last());
        let ta = emit29(t, a).1;
        assert(emit29(t, a).0 + emit29(ta, b.drop_last()).0 + emit29_item(
            emit29(ta, b.drop_last()).1,
            b.last(),
        ).0 =~= emit29(t, a).0 + (emit29(ta, b.drop_last()).0 + emit29_item(
            emit29(ta, b.drop_last()).1,
            b.last(),
        ).0));
    }
}

/// Writing two runs of items one after the other writes their concatenation.
pub proof fn lemma_emit28_concat(a: Seq<VdfItem>, b: Seq<VdfItem>)
    ensures
        emit28(a + b) == emit28(a) + emit28(b),
    decreases b.len(),
{
    if b.len() == 0 {
        assert(a + b =~= a);
        assert(emit28(a) + Seq::<u8>::empty() =~= emit28(a));
    } else {
        lemma_emit28_concat(a, b.drop_last());
        assert((a + b).drop_last() =~= a + b.drop_last());
        assert(emit28(a) + emit28(b.drop_last()) + emit28_item(b.last()) =~= emit28(a) + (emit28(
            b.drop_last(),
        ) + emit28_item(b.last())));
    }
}

proof fn lemma_last_index_of(t: Seq<Seq<char>>, s: Seq<char>)
    ensures
        match last_index_of(t, s) {
            Some(i) => 0 <= i < t.len() && t[i] == s && forall|k: int| i < k < t.len() ==> t[k] != s,
            None => forall|k: int| 0 <= k < t.len() ==> t[k] != s,
        },
    decreases t.len(),
{
    if t.len() > 0 {
        let init = t.drop_last();
        lemma_last_index_of(init, s);
        assert forall|k: int| 0 <= k < init.len() implies init[k] == t[k] by {}
    }
}

/// Interning keeps the table as a prefix, and the returned position holds the
/// string: a table only grows, and what is written can be looked up again.
pub proof fn lemma_intern(t: Seq<Seq<char>>, s: Seq<char>)
    ensures
        intern(t, s).1 < intern(t, s).0.len(),
        0 <= intern(t, s).1,
        intern(t, s).0[intern(t, s).1] == s,
        intern(t, s).0.subrange(0, t.len() as int) == t,
        intern(t, s).0.len() <= t.len() + 1,
{
    lemma_last_index_of(t, s);
    assert(intern(t, s).0.subrange(0, t.len() as int) =~= t);
}

/// Writing items only adds strings at the end of the table.
pub proof fn lemma_emit29_table_grows(t: Seq<Seq<char>>, items: Seq<VdfItem>)
    ensures
        emit29(t, items).1.len() >= t.len(),
        emit29(t, items).1.subrange(0, t.len() as int) == t,
    decreases items.len(),
{
    if items.len() > 0 {
        lemma_emit29_table_grows(t, items.drop_last());
        let t0 = emit29(t, items.drop_last()).1;
        match items.last() {
            VdfItem::Open(k) => {
                lemma_intern(t0, k);
            },
            VdfItem::Str(k, v) => {
                lemma_intern(t0, k);
            },
            VdfItem::Close => {},
        }
        let t1 = emit29(t, items).1;
        assert(t1.subrange(0, t.len() as int) =~= t0.subrange(0, t.len() as int));
    }
}

/// The position of `s` in a string table, added at the end when it is absent;
/// when it occurs several times, its last position.
pub fn get_or_create_string_index(s: &str, string_table: &mut Vec<String>) -> (r: usize)
    ensures
        (crate::config::strings_view(final(string_table)@), r as int) == intern(
            crate::config::strings_view(old(string_table)@),
            s@,
        ),
{
    let ghost tv = crate::config::strings_view(string_table@);
    let mut i = string_table.len();
    assert(tv.subrange(0, i as int) =~= tv);
    while i > 0
        invariant
            tv == crate::config::strings_view(string_table@),
            string_table@ == old(string_table)@,
            i <= string_table@.len(),
            last_index_of(tv, s@) == last_index_of(tv.subrange(0, i as int), s@),
        decreases i,
    {
        let ghost pre = tv.subrange(0, i as int);
        assert(pre.last() == string_table@[i - 1]@);
        assert(pre.drop_last() =~= tv.subrange(0, i - 1));
        if crate::text::str_eq(string_table[i - 1].as_str(), s) {
            return i - 1;
        }
        i = i - 1;
    }
    assert(tv.subrange(0, 0) =~= Seq::<Seq<char>>::empty());
    let n = string_table.len();
    string_table.push(String::from_str(s));
    assert(crate::config::strings_view(string_table@) =~= tv.push(s@));
    n
}

/// Appends a section opening with its key written out.
pub fn emit28_open(out: &mut Vec<u8>, key: &str)
    ensures
        final(out)@ == old(out)@ + emit28_item(VdfItem::Open(key@)),
{
    out.push(VDF_TYPE_SECTION);
    crate::bytes::push_cstr(out, key);
    assert(out@ =~= old(out)@ + emit28_item(VdfItem::Open(key@)));
}

/// Appends a string value with its key written out.
pub fn emit28_str(out: &mut Vec<u8>, key: &str, value: &str)
    ensures
        final(out)@ == old(out)@ + emit28_item(VdfItem::Str(key@, value@)),
{
    out.push(VDF_TYPE_STRING);
    crate::bytes::push_cstr(out, key);
    crate::bytes::push_cstr(out, value);
    assert(out@ =~= old(out)@ + emit28_item(VdfItem::Str(key@, value@)));
}

/// Appends the end of a section.
pub fn emit_close(out: &mut Vec<u8>)
    ensures
        final(out)@ == old(out)@ + emit28_item(VdfItem::Close),
        final(out)@ == old(out)@ + emit29_item(Seq::empty(), VdfItem::Close).0,
{
    out.push(VDF_TYPE_SECTION_END);
    assert(out@ =~= old(out)@ + emit28_item(VdfItem::Close));
}

/// Appends a section opening whose key is given by its table position.
pub fn emit29_open(out: &mut Vec<u8>, string_table: &mut Vec<String>, key: &str)
    ensures
        (final(out)@, crate::config::strings_view(final(string_table)@)) == ({
            let (b, t) = emit29_item(crate::config::strings_view(old(string_table)@), VdfItem::Open(key@));
            (old(out)@ + b, t)
        }),
{
    let idx = get_or_create_string_index(key, string_table);
    out.push(VDF_TYPE_SECTION);
    let b = crate::bytes::u32_to_le(idx as u32);
    crate::bytes::push_all(out, &b);
    assert(out@ =~= old(out)@ + (seq![VDF_TYPE_SECTION] + le_u32(idx as u32)));
}

/// Appends a string value whose key is given by its table position.
pub fn emit29_str(out: &mut Vec<u8>, string_table: &mut Vec<String>, key: &str, value: &str)
    ensures
        (final(out)@, crate::config::strings_view(final(string_table)@)) == ({
            let (b, t) = emit29_item(
                crate::config::strings_view(old(string_table)@),
                VdfItem::Str(key@, value@),
            );
            (old(out)@ + b, t)
        }),
{
    let idx = get_or_create_string_index(key, string_table);
    out.push(VDF_TYPE_STRING);
    let b = crate::bytes::u32_to_le(idx as u32);
    crate::bytes::push_all(out, &b);
    crate::bytes::push_cstr(out, value);
    assert(out@ =~= old(out)@ + (seq![VDF_TYPE_STRING] + le_u32(idx as u32) + cstr(value@)));
}


/// Writing one more item appends its bytes.
pub proof fn lemma_emit29_push(t: Seq<Seq<char>>, items: Seq<VdfItem>, it: VdfItem)
    ensures
        emit29(t, items.push(it)) == (emit29(t, items).0 + emit29_item(emit29(t, items).1, it).0,
        emit29_item(emit29(t, items).1, it).1),
{
    assert(items.push(it).drop_last() =~= items);
}

/// Writing one more item appends its bytes.
pub proof fn lemma_emit28_push(items: Seq<VdfItem>, it: VdfItem)
    ensures
        emit28(items.push(it)) == emit28(items) + emit28_item(it),
{
    assert(items.push(it).drop_last() =~= items);
}

} // verus!
