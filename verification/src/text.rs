//! Character-level string helpers shared by the formatters and parsers.
use vstd::prelude::*;
use vstd::string::*;

verus! {

/// The character that writes the decimal digit `d`.
pub open spec fn digit_char(d: nat) -> char {
    if d == 0 { '0' }
    else if d == 1 { '1' }
    else if d == 2 { '2' }
    else if d == 3 { '3' }
    else if d == 4 { '4' }
    else if d == 5 { '5' }
    else if d == 6 { '6' }
    else if d == 7 { '7' }
    else if d == 8 { '8' }
    else { '9' }
}

/// The shortest decimal notation of a natural number (as Rust's `Display` writes it).
pub open spec fn decimal(n: nat) -> Seq<char>
    decreases n,
{
    if n < 10 {
        seq![digit_char(n)]
    } else {
        decimal(n / 10).push(digit_char(n % 10))
    }
}

/// The decimal notation of an integer, with a leading `-` when it is negative.
pub open spec fn signed_decimal(n: int) -> Seq<char> {
    if n < 0 {
        seq!['-'] + decimal((-n) as nat)
    } else {
        decimal(n as nat)
    }
}

/// Appends one character to a `String` (`String::push`).
#[verifier::external_body]
pub(crate) fn push_char(s: &mut String, c: char)
    ensures
        final(s)@ == old(s)@.push(c),
{
    s.push(c)
}

fn digit_of(d: u64) -> (c: char)
    requires
        d < 10,
    ensures
        c == digit_char(d as nat),
{
    if d == 0 { '0' }
    else if d == 1 { '1' }
    else if d == 2 { '2' }
    else if d == 3 { '3' }
    else if d == 4 { '4' }
    else if d == 5 { '5' }
    else if d == 6 { '6' }
    else if d == 7 { '7' }
    else if d == 8 { '8' }
    else { '9' }
}

/// Appends the decimal notation of `n` to `s`.
pub fn append_decimal(s: &mut String, n: u64)
    ensures
        final(s)@ == old(s)@ + decimal(n as nat),
    decreases n,
{
    if n >= 10 {
        append_decimal(s, n / 10);
    }
    let c = digit_of(n % 10);
    push_char(s, c);
    proof {
        if n >= 10 {
            assert(old(s)@ + decimal(n as nat) =~= old(s)@ + decimal((n / 10) as nat) + seq![c]);
        } else {
            assert(old(s)@ + decimal(n as nat) =~= old(s)@ + seq![c]);
        }
    }
}

/// Appends the decimal notation of a signed `n` to `s`.
pub fn append_signed_decimal(s: &mut String, n: i64)
    ensures
        final(s)@ == old(s)@ + signed_decimal(n as int),
{
    if n < 0 {
        push_char(s, '-');
        let m: i64 = -(n + 1);
        let a: u64 = (m as u64) + 1;
        append_decimal(s, a);
        assert(old(s)@ + signed_decimal(n as int) =~= old(s)@.push('-') + decimal(a as nat));
    } else {
        append_decimal(s, n as u64);
    }
}

/// Decimal text of an unsigned number.
pub fn u64_text(n: u64) -> (r: String)
    ensures
        r@ == decimal(n as nat),
{
    let mut s = String::new();
    append_decimal(&mut s, n);
    assert(s@ =~= decimal(n as nat));
    s
}

/// A `&str` copied into a `Vec<char>`.
pub fn str_chars(s: &str) -> (v: Vec<char>)
    ensures
        v@ == s@,
{
    let n = s.unicode_len();
    let mut v: Vec<char> = Vec::new();
    let mut i: usize = 0;
    while i < n
        invariant
            n == s@.len(),
            i <= n,
            v@ == s@.take(i as int),
        decreases n - i,
    {
        let c = s.get_char(i);
        v.push(c);
        i = i + 1;
        assert(v@ =~= s@.take(i as int));
    }
    assert(s@.take(n as int) =~= s@);
    v
}

/// A `String` holding the characters `v[from..to]`.
pub fn chars_string(v: &[char], from: usize, to: usize) -> (r: String)
    requires
        from <= to <= v@.len(),
    ensures
        r@ == v@.subrange(from as int, to as int),
{
    let mut s = String::new();
    let mut i = from;
    while i < to
        invariant
            from <= i <= to,
            to <= v@.len(),
            s@ == v@.subrange(from as int, i as int),
        decreases to - i,
    {
        push_char(&mut s, v[i]);
        i = i + 1;
        assert(s@ =~= v@.subrange(from as int, i as int));
    }
    s
}

/// A `String` holding all of `v`.
pub fn seq_string(v: &[char]) -> (r: String)
    ensures
        r@ == v@,
{
    let r = chars_string(v, 0, v.len());
    assert(v@.subrange(0, v@.len() as int) =~= v@);
    r
}

/// Whether two `&str` hold the same characters.
pub fn str_eq(a: &str, b: &str) -> (r: bool)
    ensures
        r == (a@ == b@),
{
    let va = str_chars(a);
    let vb = str_chars(b);
    if va.len() != vb.len() {
        return false;
    }
    let mut i: usize = 0;
    while i < va.len()
        invariant
            va@.len() == vb@.len(),
            va@ == a@,
            vb@ == b@,
            i <= va@.len(),
            forall|k: int| 0 <= k < i ==> va@[k] == vb@[k],
        decreases va.len() - i,
    {
        if va[i] != vb[i] {
            return false;
        }
        i = i + 1;
    }
    assert(va@ =~= vb@);
    true
}


/// Whether a character has the Unicode `White_Space` property (the code
/// points U+0009..U+000D, U+0020, U+0085, U+00A0, U+1680, U+2000..U+200A,
/// U+2028, U+2029, U+202F, U+205F and U+3000), which is what
/// `char::is_whitespace` tests.
pub open spec fn unicode_white_space(c: char) -> bool {
    let n = c as u32;
    ||| 0x09 <= n <= 0x0D
    ||| n == 0x20
    ||| n == 0x85
    ||| n == 0xA0
    ||| n == 0x1680
    ||| 0x2000 <= n <= 0x200A
    ||| n == 0x2028
    ||| n == 0x2029
    ||| n == 0x202F
    ||| n == 0x205F
    ||| n == 0x3000
}

/// Whether `c` is white space in the sense of `char::is_whitespace`.
pub fn char_is_whitespace(c: char) -> (r: bool)
    ensures
        r == unicode_white_space(c),
{
    let n = c as u32;
    (0x09 <= n && n <= 0x0D) || n == 0x20 || n == 0x85 || n == 0xA0 || n == 0x1680
        || (0x2000 <= n && n <= 0x200A) || n == 0x2028 || n == 0x2029 || n == 0x202F
        || n == 0x205F || n == 0x3000
}

/// `s` without its leading white space.
pub open spec fn trim_start(s: Seq<char>) -> Seq<char>
    decreases s.len(),
{
    if s.len() > 0 && unicode_white_space(s[0]) {
        trim_start(s.drop_first())
    } else {
        s
    }
}

/// `s` without its trailing white space.
pub open spec fn trim_end(s: Seq<char>) -> Seq<char>
    decreases s.len(),
{
    if s.len() > 0 && unicode_white_space(s.last()) {
        trim_end(s.drop_last())
    } else {
        s
    }
}

/// `s` without leading and trailing white space (`str::trim`).
pub open spec fn trim(s: Seq<char>) -> Seq<char> {
    trim_end(trim_start(s))
}

/// The pieces of `s` between occurrences of `sep` (`str::split` with a char):
/// always at least one piece.
pub open spec fn split_on(s: Seq<char>, sep: char) -> Seq<Seq<char>>
    decreases s.len(),
{
    if s.len() == 0 {
        seq![Seq::<char>::empty()]
    } else {
        let rest = split_on(s.drop_first(), sep);
        if s[0] == sep {
            seq![Seq::<char>::empty()] + rest
        } else {
            rest.update(0, seq![s[0]] + rest[0])
        }
    }
}

/// `s` with one trailing carriage return removed.
pub open spec fn strip_cr(s: Seq<char>) -> Seq<char> {
    if s.len() > 0 && s.last() == '\r' {
        s.drop_last()
    } else {
        s
    }
}

/// The lines of a text as `str::lines` gives them: split at line feeds, a
/// final empty piece dropped, and a carriage return before each line feed
/// removed.
pub open spec fn text_lines(s: Seq<char>) -> Seq<Seq<char>> {
    let pieces = split_on(s, '\n');
    let kept = if pieces.last().len() == 0 { pieces.drop_last() } else { pieces };
    kept.map_values(|l: Seq<char>| strip_cr(l))
}

/// Pieces glued together with `sep` between them (`join`).
pub open spec fn join_with(pieces: Seq<Seq<char>>, sep: Seq<char>) -> Seq<char>
    decreases pieces.len(),
{
    if pieces.len() == 0 {
        Seq::empty()
    } else if pieces.len() == 1 {
        pieces[0]
    } else {
        join_with(pieces.drop_last(), sep) + sep + pieces.last()
    }
}

pub proof fn lemma_split_len(s: Seq<char>, sep: char)
    ensures
        split_on(s, sep).len() >= 1,
    decreases s.len(),
{
    if s.len() > 0 {
        lemma_split_len(s.drop_first(), sep);
    }
}

/// Splitting `a + [sep] + b` gives the pieces of `a` followed by those of `b`,
/// the last piece of `a` and the first of `b` kept apart.
pub proof fn lemma_split_concat(a: Seq<char>, b: Seq<char>, sep: char)
    ensures
        split_on(a + seq![sep] + b, sep) == split_on(a, sep) + split_on(b, sep),
    decreases a.len(),
{
    lemma_split_len(b, sep);
    if a.len() == 0 {
        assert(a + seq![sep] + b =~= seq![sep] + b);
        assert((seq![sep] + b).drop_first() =~= b);
        assert(split_on(a, sep) =~= seq![Seq::<char>::empty()]);
    } else {
        let s = a + seq![sep] + b;
        assert(s.drop_first() =~= a.drop_first() + seq![sep] + b);
        lemma_split_concat(a.drop_first(), b, sep);
        lemma_split_len(a.drop_first(), sep);
        let ra = split_on(a.drop_first(), sep);
        let rb = split_on(b, sep);
        if a[0] == sep {
            assert(split_on(s, sep) =~= seq![Seq::<char>::empty()] + (ra + rb));
            assert(split_on(a, sep) =~= seq![Seq::<char>::empty()] + ra);
            assert(split_on(s, sep) =~= split_on(a, sep) + rb);
        } else {
            assert(split_on(s, sep) =~= (ra + rb).update(0, seq![a[0]] + (ra + rb)[0]));
            assert(split_on(a, sep) =~= ra.update(0, seq![a[0]] + ra[0]));
            assert(split_on(s, sep) =~= split_on(a, sep) + rb);
        }
    }
}

/// A piece without `sep` splits into itself.
pub proof fn lemma_split_none(s: Seq<char>, sep: char)
    requires
        !s.contains(sep),
    ensures
        split_on(s, sep) == seq![s],
    decreases s.len(),
{
    if s.len() > 0 {
        assert(!s.drop_first().contains(sep)) by {
            if s.drop_first().contains(sep) {
                let k = choose|k: int| 0 <= k < s.drop_first().len() && s.drop_first()[k] == sep;
                assert(s[k + 1] == sep);
            }
        }
        lemma_split_none(s.drop_first(), sep);
        assert(s[0] != sep) by {
            if s[0] == sep {
                assert(s.contains(sep));
            }
        }
        assert(seq![s[0]] + s.drop_first() =~= s);
        assert(split_on(s, sep) =~= seq![s]);
    } else {
        assert(s =~= Seq::<char>::empty());
    }
}

/// Joining pieces free of `sep` with `sep` and splitting again gives the pieces back.
pub proof fn lemma_split_join(pieces: Seq<Seq<char>>, sep: char)
    requires
        pieces.len() >= 1,
        forall|k: int| 0 <= k < pieces.len() ==> !(#[trigger] pieces[k]).contains(sep),
    ensures
        split_on(join_with(pieces, seq![sep]), sep) == pieces,
    decreases pieces.len(),
{
    if pieces.len() == 1 {
        lemma_split_none(pieces[0], sep);
        assert(seq![pieces[0]] =~= pieces);
    } else {
        let init = pieces.drop_last();
        assert forall|k: int| 0 <= k < init.len() implies !(#[trigger] init[k]).contains(sep) by {
            assert(init[k] == pieces[k]);
        }
        lemma_split_join(init, sep);
        lemma_split_concat(join_with(init, seq![sep]), pieces.last(), sep);
        lemma_split_none(pieces.last(), sep);
        assert(init + seq![pieces.last()] =~= pieces);
    }
}

/// The lines of a text made of lines joined by line feeds, where no line
/// holds a line feed, none ends in a carriage return and the last is not empty.
pub proof fn lemma_text_lines_join(lines: Seq<Seq<char>>)
    requires
        lines.len() >= 1,
        lines.last().len() > 0,
        forall|k: int| 0 <= k < lines.len() ==> !(#[trigger] lines[k]).contains('\n'),
        forall|k: int|
            0 <= k < lines.len() ==> (#[trigger] lines[k]).len() == 0 || lines[k].last() != '\r',
    ensures
        text_lines(join_with(lines, seq!['\n'])) == lines,
{
    lemma_split_join(lines, '\n');
    let pieces = split_on(join_with(lines, seq!['\n']), '\n');
    assert(pieces.last().len() > 0);
    assert forall|k: int| 0 <= k < lines.len() implies strip_cr(#[trigger] lines[k]) == lines[k] by {}
    assert(pieces.map_values(|l: Seq<char>| strip_cr(l)) =~= lines);
}

/// Compares a character buffer with a string literal or slice.
pub fn chars_eq_str(v: &[char], s: &str) -> (r: bool)
    ensures
        r == (v@ == s@),
{
    let w = str_chars(s);
    if v.len() != w.len() {
        return false;
    }
    let mut i: usize = 0;
    while i < v.len()
        invariant
            v@.len() == w@.len(),
            w@ == s@,
            i <= v@.len(),
            forall|k: int| 0 <= k < i ==> v@[k] == w@[k],
        decreases v.len() - i,
    {
        if v[i] != w[i] {
            return false;
        }
        i = i + 1;
    }
    assert(v@ =~= w@);
    true
}

/// `trim` of the characters `v[from..to]`, as a new buffer.
pub fn trim_chars(v: &[char]) -> (r: Vec<char>)
    ensures
        r@ == trim(v@),
{
    let mut a: usize = 0;
    let mut b: usize = v.len();
    assert(v@.subrange(0, v@.len() as int) =~= v@);
    while a < b && char_is_whitespace(v[a])
        invariant
            a <= b == v@.len(),
            trim_start(v@) == trim_start(v@.subrange(a as int, b as int)),
        decreases b - a,
    {
        assert(v@.subrange(a as int, b as int).drop_first() =~= v@.subrange(a + 1, b as int));
        a = a + 1;
    }
    assert(trim_start(v@) == v@.subrange(a as int, b as int));
    while a < b && char_is_whitespace(v[b - 1])
        invariant
            a <= b <= v@.len(),
            trim(v@) == trim_end(v@.subrange(a as int, b as int)),
        decreases b - a,
    {
        assert(v@.subrange(a as int, b as int).drop_last() =~= v@.subrange(a as int, b - 1));
        b = b - 1;
    }
    let mut r: Vec<char> = Vec::new();
    let mut i = a;
    while i < b
        invariant
            a <= i <= b <= v@.len(),
            r@ == v@.subrange(a as int, i as int),
        decreases b - i,
    {
        r.push(v[i]);
        i = i + 1;
        assert(r@ =~= v@.subrange(a as int, i as int));
    }
    r
}

/// The pieces of `v` between occurrences of `sep` (`str::split`).
pub fn split_chars(v: &[char], sep: char) -> (r: Vec<Vec<char>>)
    ensures
        r@.len() == split_on(v@, sep).len(),
        forall|k: int| 0 <= k < r@.len() ==> (#[trigger] r@[k])@ == split_on(v@, sep)[k],
{
    let n = v.len();
    let mut pieces: Vec<Vec<char>> = Vec::new();
    let mut start: usize = 0;
    let mut done = false;
    assert(v@.subrange(0, n as int) =~= v@);
    assert(pieces@.map_values(|p: Vec<char>| p@) + split_on(v@, sep) =~= split_on(v@, sep));
    while !done
        invariant
            n == v@.len(),
            start <= n,
            !done ==> split_on(v@, sep) == pieces@.map_values(|p: Vec<char>| p@)
                + split_on(v@.subrange(start as int, n as int), sep),
            done ==> split_on(v@, sep) == pieces@.map_values(|p: Vec<char>| p@),
        decreases n - start + (if done { 0int } else { 1int }),
    {
        let mut j = start;
        let mut cur: Vec<char> = Vec::new();
        while j < n && v[j] != sep
            invariant
                start <= j <= n == v@.len(),
                cur@ == v@.subrange(start as int, j as int),
                forall|k: int| start <= k < j ==> v@[k] != sep,
            decreases n - j,
        {
            cur.push(v[j]);
            j = j + 1;
            assert(cur@ =~= v@.subrange(start as int, j as int));
        }
        let ghost old_pieces = pieces@;
        proof {
            assert(!cur@.contains(sep)) by {
                if cur@.contains(sep) {
                    let k = choose|k: int| 0 <= k < cur@.len() && cur@[k] == sep;
                    assert(v@[start + k] == sep);
                }
            }
            lemma_split_none(cur@, sep);
        }
        pieces.push(cur);
        proof {
            assert(pieces@.map_values(|p: Vec<char>| p@) =~= old_pieces.map_values(|p: Vec<char>| p@) + seq![v@.subrange(start as int, j as int)]);
        }
        if j < n {
            proof {
                let rest = v@.subrange(start as int, n as int);
                assert(rest =~= v@.subrange(start as int, j as int) + seq![sep] + v@.subrange(j + 1, n as int));
                lemma_split_concat(v@.subrange(start as int, j as int), v@.subrange(j + 1, n as int), sep);
            }
            start = j + 1;
        } else {
            proof {
                assert(v@.subrange(start as int, n as int) =~= v@.subrange(start as int, j as int));
            }
            done = true;
        }
    }
    proof {
        assert forall|k: int| 0 <= k < pieces@.len() implies (#[trigger] pieces@[k])@ == split_on(v@, sep)[k] by {
            assert(pieces@.map_values(|p: Vec<char>| p@)[k] == pieces@[k]@);
        }
    }
    pieces
}

/// The lines of a character buffer (`str::lines`).
pub fn lines_of(v: &[char]) -> (r: Vec<Vec<char>>)
    ensures
        r@.len() == text_lines(v@).len(),
        forall|k: int| 0 <= k < r@.len() ==> (#[trigger] r@[k])@ == text_lines(v@)[k],
{
    let pieces = split_chars(v, '\n');
    proof {
        assert(pieces@.map_values(|p: Vec<char>| p@) =~= split_on(v@, '\n'));
    }
    let ghost all = split_on(v@, '\n');
    let total = pieces.len();
    proof {
        lemma_split_len(v@, '\n');
        assert(pieces@.map_values(|p: Vec<char>| p@).len() == total);
    }
    let keep = if pieces[total - 1].len() == 0 { total - 1 } else { total };
    proof {
        assert(pieces@[total - 1]@ == all[total - 1]);
    }
    let mut out: Vec<Vec<char>> = Vec::new();
    let mut t: usize = 0;
    while t < keep
        invariant
            keep <= total == pieces@.len() == all.len(),
            all == pieces@.map_values(|p: Vec<char>| p@),
            keep == (if all.last().len() == 0 { all.len() - 1 } else { all.len() as int }),
            t <= keep,
            out@.len() == t,
            forall|k: int| 0 <= k < t ==> (#[trigger] out@[k])@ == strip_cr(all[k]),
        decreases keep - t,
    {
        let p = &pieces[t];
        assert(p@ == all[t as int]);
        let m = p.len();
        let stop = if m > 0 && p[m - 1] == '\r' { m - 1 } else { m };
        let mut line: Vec<char> = Vec::new();
        let mut q: usize = 0;
        while q < stop
            invariant
                stop <= m == p@.len(),
                q <= stop,
                line@ == p@.subrange(0, q as int),
            decreases stop - q,
        {
            line.push(p[q]);
            q = q + 1;
            assert(line@ =~= p@.subrange(0, q as int));
        }
        assert(line@ =~= strip_cr(p@));
        out.push(line);
        t = t + 1;
    }
    out
}


/// A text has at most one more line than characters.
pub proof fn lemma_text_lines_len(s: Seq<char>)
    ensures
        text_lines(s).len() <= s.len() + 1,
{
    lemma_split_len_bound(s, '\n');
    lemma_split_len(s, '\n');
}

proof fn lemma_split_len_bound(s: Seq<char>, sep: char)
    ensures
        split_on(s, sep).len() <= s.len() + 1,
    decreases s.len(),
{
    if s.len() > 0 {
        lemma_split_len_bound(s.drop_first(), sep);
        lemma_split_len(s.drop_first(), sep);
    }
}


/// The lowercase form of a text as `str::to_lowercase` gives it (Unicode
/// `Lowercase` mapping).
pub uninterp spec fn unicode_lowercase(s: Seq<char>) -> Seq<char>;

/// Whether every character of `s` is ASCII.
pub open spec fn is_ascii_text(s: Seq<char>) -> bool {
    forall|i: int| 0 <= i < s.len() ==> s[i] <= '\x7f'
}

/// `s` with the ASCII capitals `A`..`Z` turned into small letters.
pub open spec fn ascii_lowercase(s: Seq<char>) -> Seq<char> {
    s.map_values(|c: char| if 'A' <= c && c <= 'Z' { ((c as u32) + 32) as char } else { c })
}

/// The decimal notation of a number is ASCII text with no capital, so lowering
/// its case keeps it.
pub proof fn lemma_decimal_ascii_lowercase(n: nat)
    ensures
        is_ascii_text(decimal(n)),
        ascii_lowercase(decimal(n)) == decimal(n),
    decreases n,
{
    if n >= 10 {
        lemma_decimal_ascii_lowercase(n / 10);
    }
    assert(ascii_lowercase(decimal(n)) =~= decimal(n));
}

/// A text that equals an ASCII text but for the case of ASCII letters is
/// ASCII too.
pub proof fn lemma_ascii_case_variant(s: Seq<char>, t: Seq<char>)
    requires
        is_ascii_text(t),
        ascii_lowercase(s) == ascii_lowercase(t),
    ensures
        is_ascii_text(s),
{
    assert(s.len() == ascii_lowercase(s).len());
    assert forall|i: int| 0 <= i < s.len() implies s[i] <= '\x7f' by {
        assert(ascii_lowercase(s)[i] == ascii_lowercase(t)[i]);
        let c = s[i];
        let d = t[i];
        assert(d <= '\x7f');
        if !('A' <= c && c <= 'Z') {
            assert(ascii_lowercase(s)[i] == c);
            if 'A' <= d && d <= 'Z' {
                assert((d as u32) + 32 <= 0x7f);
                assert(c == ((d as u32) + 32) as char);
            } else {
                assert(c == d);
            }
        }
    }
}

/// `str::to_lowercase`. Its result is named by `unicode_lowercase`, a function
/// of the text alone. One property of the Unicode `Lowercase` mapping is
/// claimed: on ASCII text it turns `A`..`Z` into `a`..`z` and keeps every other
/// character (the same result as `str::to_ascii_lowercase`); nothing is claimed
/// of other text.
#[verifier::external_body]
pub(crate) fn to_lowercase(s: &str) -> (r: String)
    ensures
        r@ == unicode_lowercase(s@),
        is_ascii_text(s@) ==> r@ == ascii_lowercase(s@),
{
    s.to_lowercase()
}

/// Whether `sub` occurs in `s` at position `i`.
pub open spec fn occurs_at(s: Seq<char>, sub: Seq<char>, i: int) -> bool {
    0 <= i && i + sub.len() <= s.len() && s.subrange(i, i + sub.len()) == sub
}

/// Whether `sub` occurs in `s` (`str::contains`).
pub open spec fn contains_text(s: Seq<char>, sub: Seq<char>) -> bool {
    exists|i: int| occurs_at(s, sub, i)
}

/// Whether `s` begins with `p` (`str::starts_with`).
pub open spec fn starts_with(s: Seq<char>, p: Seq<char>) -> bool {
    p.len() <= s.len() && s.subrange(0, p.len() as int) == p
}

/// Whether `s` ends with `p` (`str::ends_with`).
pub open spec fn ends_with(s: Seq<char>, p: Seq<char>) -> bool {
    p.len() <= s.len() && s.subrange(s.len() - p.len(), s.len() as int) == p
}

/// Whether `sub` occurs in `v` at position `i`.
fn occurs_at_exec(v: &[char], sub: &[char], i: usize) -> (r: bool)
    requires
        i + sub@.len() <= v@.len(),
    ensures
        r == occurs_at(v@, sub@, i as int),
{
    let n = v.len();
    let mut k: usize = 0;
    while k < sub.len()
        invariant
            n == v@.len(),
            i + sub@.len() <= v@.len(),
            k <= sub@.len(),
            forall|j: int| 0 <= j < k ==> v@[i + j] == sub@[j],
        decreases sub.len() - k,
    {
        if v[i + k] != sub[k] {
            assert(v@.subrange(i as int, i + sub@.len())[k as int] != sub@[k as int]);
            return false;
        }
        k = k + 1;
    }
    assert(v@.subrange(i as int, i + sub@.len()) =~= sub@);
    true
}

/// `str::contains` with a text pattern.
pub fn str_contains(s: &str, sub: &str) -> (r: bool)
    ensures
        r == contains_text(s@, sub@),
{
    let v = str_chars(s);
    let w = str_chars(sub);
    if w.len() > v.len() {
        assert forall|i: int| !occurs_at(s@, sub@, i) by {}
        return false;
    }
    let last = v.len() - w.len();
    let mut i: usize = 0;
    loop
        invariant
            v@ == s@,
            w@ == sub@,
            last == v@.len() - w@.len(),
            i <= last,
            forall|j: int| 0 <= j < i ==> !occurs_at(s@, sub@, j),
        decreases last - i,
    {
        if occurs_at_exec(v.as_slice(), w.as_slice(), i) {
            return true;
        }
        if i == last {
            assert forall|j: int| !occurs_at(s@, sub@, j) by {
                if 0 <= j <= i {
                }
            }
            return false;
        }
        i = i + 1;
    }
}

/// `str::starts_with` with a text prefix.
pub fn str_starts_with(s: &str, p: &str) -> (r: bool)
    ensures
        r == starts_with(s@, p@),
{
    let v = str_chars(s);
    let w = str_chars(p);
    if w.len() > v.len() {
        return false;
    }
    let r = occurs_at_exec(v.as_slice(), w.as_slice(), 0);
    r
}

/// `str::ends_with` with a text suffix.
pub fn str_ends_with(s: &str, p: &str) -> (r: bool)
    ensures
        r == ends_with(s@, p@),
{
    let v = str_chars(s);
    let w = str_chars(p);
    if w.len() > v.len() {
        return false;
    }
    let r = occurs_at_exec(v.as_slice(), w.as_slice(), v.len() - w.len());
    r
}

/// `s` with every non-overlapping occurrence of `from`, scanned left to
/// right, replaced by `to` (`str::replace`; an empty `from` matches at every
/// character boundary).
pub open spec fn replace_all(s: Seq<char>, from: Seq<char>, to: Seq<char>) -> Seq<char>
    decreases s.len(),
{
    if from.len() == 0 {
        replace_empty(s, to)
    } else if s.len() < from.len() {
        s
    } else if s.subrange(0, from.len() as int) == from {
        to + replace_all(s.subrange(from.len() as int, s.len() as int), from, to)
    } else {
        seq![s[0]] + replace_all(s.drop_first(), from, to)
    }
}

/// `str::replace` with an empty pattern: `to` before every character and at the end.
pub open spec fn replace_empty(s: Seq<char>, to: Seq<char>) -> Seq<char>
    decreases s.len(),
{
    if s.len() == 0 {
        to
    } else {
        to + seq![s[0]] + replace_empty(s.drop_first(), to)
    }
}


/// `s` with every occurrence of a non-empty `from`, found left to right
/// without overlap, replaced by `to` (`str::replace`).
pub fn replace_text(s: &str, from: &str, to: &str) -> (r: String)
    requires
        from@.len() > 0,
    ensures
        r@ == replace_all(s@, from@, to@),
{
    let v = str_chars(s);
    let w = str_chars(from);
    let n = v.len();
    let m = w.len();
    let mut out = String::new();
    let mut i: usize = 0;
    assert(v@.subrange(0, n as int) =~= v@);
    while i < n
        invariant
            n == v@.len(),
            m == w@.len(),
            m > 0,
            v@ == s@,
            w@ == from@,
            i <= n,
            out@ + replace_all(v@.subrange(i as int, n as int), from@, to@) == replace_all(s@, from@, to@),
        decreases n - i,
    {
        let ghost rest = v@.subrange(i as int, n as int);
        if m <= n - i && occurs_at_exec(v.as_slice(), w.as_slice(), i) {
            proof {
                assert(rest.subrange(0, m as int) =~= v@.subrange(i as int, i + m));
                assert(rest.subrange(m as int, rest.len() as int) =~= v@.subrange(i + m, n as int));
            }
            let ghost before = out@;
            out.append(to);
            i = i + m;
            assert(out@ =~= before + to@);
        } else {
            proof {
                if m <= n - i {
                    assert(rest.subrange(0, m as int) =~= v@.subrange(i as int, i + m));
                }
                assert(rest.drop_first() =~= v@.subrange(i + 1, n as int));
            }
            let ghost before = out@;
            push_char(&mut out, v[i]);
            i = i + 1;
            assert(out@ =~= before + seq![rest[0]]);
        }
    }
    assert(v@.subrange(n as int, n as int) =~= Seq::<char>::empty());
    assert(out@ + Seq::<char>::empty() =~= out@);
    out
}

/// `s` without its leading run of `c` (`str::trim_start_matches` with a char).
pub open spec fn trim_start_char(s: Seq<char>, c: char) -> Seq<char>
    decreases s.len(),
{
    if s.len() > 0 && s[0] == c {
        trim_start_char(s.drop_first(), c)
    } else {
        s
    }
}

/// `str::trim_start_matches` with a char.
pub fn trim_start_matches_char<'a>(s: &'a str, c: char) -> (r: &'a str)
    ensures
        r@ == trim_start_char(s@, c),
{
    let n = s.unicode_len();
    let mut i: usize = 0;
    assert(s@.subrange(0, n as int) =~= s@);
    while i < n && s.get_char(i) == c
        invariant
            n == s@.len(),
            i <= n,
            trim_start_char(s@.subrange(i as int, n as int), c) == trim_start_char(s@, c),
        decreases n - i,
    {
        assert(s@.subrange(i as int, n as int).drop_first() =~= s@.subrange(i + 1, n as int));
        i = i + 1;
    }
    s.substring_char(i, n)
}


/// Splitting at the first separator, at `p`: the first piece is what comes
/// before it and the others are the pieces of what comes after it.
pub proof fn lemma_split_at_first(s: Seq<char>, sep: char, p: int)
    requires
        0 <= p <= s.len(),
        forall|k: int| 0 <= k < p ==> s[k] != sep,
        p < s.len() ==> s[p] == sep,
    ensures
        p == s.len() ==> split_on(s, sep) == seq![s],
        p < s.len() ==> split_on(s, sep) == seq![s.subrange(0, p)] + split_on(
            s.subrange(p + 1, s.len() as int),
            sep,
        ),
{
    let a = s.subrange(0, p);
    assert(!a.contains(sep)) by {
        if a.contains(sep) {
            let k = choose|k: int| 0 <= k < a.len() && a[k] == sep;
            assert(s[k] == sep);
        }
    }
    lemma_split_none(a, sep);
    if p == s.len() {
        assert(a =~= s);
    } else {
        let b = s.subrange(p + 1, s.len() as int);
        assert(s =~= a + seq![sep] + b);
        lemma_split_concat(a, b, sep);
    }
}

/// The position of the first `c` in `v` at or after `from`, or the length of
/// `v` when there is none.
pub fn find_char_from(v: &[char], from: usize, c: char) -> (r: usize)
    requires
        from <= v@.len(),
    ensures
        from <= r <= v@.len(),
        forall|k: int| from <= k < r ==> v@[k] != c,
        r < v@.len() ==> v@[r as int] == c,
{
    let n = v.len();
    let mut i = from;
    while i < n && v[i] != c
        invariant
            n == v@.len(),
            from <= i <= n,
            forall|k: int| from <= k < i ==> v@[k] != c,
        decreases n - i,
    {
        i = i + 1;
    }
    i
}


/// Decimal notation uses digits only.
pub proof fn lemma_decimal_digits(n: nat)
    ensures
        decimal(n).len() >= 1,
        forall|i: int| 0 <= i < decimal(n).len() ==> '0' <= #[trigger] decimal(n)[i] <= '9',
    decreases n,
{
    if n >= 10 {
        lemma_decimal_digits(n / 10);
        let d = decimal(n / 10);
        assert forall|i: int| 0 <= i < decimal(n).len() implies '0' <= #[trigger] decimal(n)[i] <= '9' by {
            if i < d.len() {
                assert(decimal(n)[i] == d[i]);
            }
        }
    }
}

proof fn lemma_digit_char_injective(a: nat, b: nat)
    requires
        a < 10,
        b < 10,
        digit_char(a) == digit_char(b),
    ensures
        a == b,
{
}

/// Different numbers have different decimal notations.
pub proof fn lemma_decimal_injective(a: nat, b: nat)
    ensures
        decimal(a) == decimal(b) ==> a == b,
    decreases a + b,
{
    if decimal(a) == decimal(b) {
        lemma_decimal_digits(a);
        lemma_decimal_digits(b);
        if a >= 10 && b >= 10 {
            assert(decimal(a).drop_last() =~= decimal(a / 10));
            assert(decimal(b).drop_last() =~= decimal(b / 10));
            lemma_decimal_injective(a / 10, b / 10);
            assert(decimal(a).last() == digit_char(a % 10));
            assert(decimal(b).last() == digit_char(b % 10));
            lemma_digit_char_injective(a % 10, b % 10);
        } else if a >= 10 {
            lemma_decimal_digits(a / 10);
            assert(decimal(a).len() >= 2);
        } else if b >= 10 {
            lemma_decimal_digits(b / 10);
            assert(decimal(b).len() >= 2);
        } else {
            assert(decimal(a)[0] == digit_char(a));
            assert(decimal(b)[0] == digit_char(b));
            lemma_digit_char_injective(a, b);
        }
    }
}


/// Whether a character is alphabetic or numeric in the sense of Unicode, as
/// `char::is_alphanumeric` tests it.
pub uninterp spec fn unicode_alphanumeric(c: char) -> bool;

/// `char::is_alphanumeric`: named by `unicode_alphanumeric`, a function of the
/// character alone; the Unicode tables are not restated.
#[verifier::external_body]
pub(crate) fn char_is_alphanumeric(c: char) -> (r: bool)
    ensures
        r == unicode_alphanumeric(c),
{
    c.is_alphanumeric()
}


/// Whether a text is a non-empty run of ASCII digits.
pub open spec fn all_digits(s: Seq<char>) -> bool {
    s.len() > 0 && forall|i: int| 0 <= i < s.len() ==> '0' <= #[trigger] s[i] <= '9'
}

/// The value of a run of ASCII digits.
pub open spec fn digits_value(s: Seq<char>) -> int
    decreases s.len(),
{
    if s.len() == 0 {
        0
    } else {
        digits_value(s.drop_last()) * 10 + (s.last() as int - '0' as int)
    }
}

/// `str::parse` of an unsigned integer whose largest value is `max`: an
/// optional `+`, then ASCII digits, the value at most `max`.
pub open spec fn parse_unsigned(s: Seq<char>, max: int) -> Option<int> {
    let d = if s.len() > 0 && s[0] == '+' { s.drop_first() } else { s };
    if all_digits(d) && digits_value(d) <= max {
        Some(digits_value(d))
    } else {
        None
    }
}

/// `str::parse` of a signed integer in `min..=max`: an optional `+` or `-`,
/// then ASCII digits.
pub open spec fn parse_signed(s: Seq<char>, min: int, max: int) -> Option<int> {
    if s.len() > 0 && s[0] == '-' {
        let d = s.drop_first();
        if all_digits(d) && -digits_value(d) >= min {
            Some(-digits_value(d))
        } else {
            None
        }
    } else {
        let d = if s.len() > 0 && s[0] == '+' { s.drop_first() } else { s };
        if all_digits(d) && digits_value(d) <= max {
            Some(digits_value(d))
        } else {
            None
        }
    }
}

proof fn lemma_digits_value_nonneg(s: Seq<char>)
    requires
        forall|i: int| 0 <= i < s.len() ==> '0' <= #[trigger] s[i] <= '9',
    ensures
        digits_value(s) >= 0,
    decreases s.len(),
{
    if s.len() > 0 {
        lemma_digits_value_nonneg(s.drop_last());
    }
}

proof fn lemma_digits_value_mono(s: Seq<char>, k: int)
    requires
        0 <= k <= s.len(),
        forall|i: int| 0 <= i < s.len() ==> '0' <= #[trigger] s[i] <= '9',
    ensures
        digits_value(s.take(k)) <= digits_value(s),
    decreases s.len() - k,
{
    if k < s.len() {
        lemma_digits_value_mono(s, k + 1);
        assert(s.take(k + 1).drop_last() =~= s.take(k));
        lemma_digits_value_nonneg(s.take(k));
    } else {
        assert(s.take(k) =~= s);
    }
}

/// The value of the ASCII digits `v[from..]`, when they are all digits, there
/// is one, and the value fits in a `u64`.
fn digits_u64(v: &[char], from: usize) -> (r: Option<u64>)
    requires
        from <= v@.len(),
    ensures
        match r {
            Some(x) => all_digits(v@.subrange(from as int, v@.len() as int)) && x == digits_value(
                v@.subrange(from as int, v@.len() as int),
            ),
            None => !all_digits(v@.subrange(from as int, v@.len() as int)) || digits_value(
                v@.subrange(from as int, v@.len() as int),
            ) > u64::MAX,
        },
{
    let n = v.len();
    let ghost d = v@.subrange(from as int, n as int);
    if from >= n {
        return None;
    }
    let mut i = from;
    let mut acc: u64 = 0;
    assert(d.take(0) =~= Seq::<char>::empty());
    while i < n
        invariant
            n == v@.len(),
            from <= i <= n,
            d == v@.subrange(from as int, n as int),
            forall|k: int| 0 <= k < i - from ==> '0' <= #[trigger] d[k] <= '9',
            acc == digits_value(d.take(i - from)),
        decreases n - i,
    {
        let c = v[i];
        assert(d[i - from] == c);
        if !('0' <= c && c <= '9') {
            return None;
        }
        let digit = (c as u32 - '0' as u32) as u64;
        assert(d.take(i - from + 1).drop_last() =~= d.take(i - from));
        assert(d.take(i - from + 1).last() == c);
        if acc > (u64::MAX - digit) / 10 {
            proof {
                assert forall|k: int| 0 <= k < i - from + 1 implies '0' <= #[trigger] d[k] <= '9' by {}
                let t = d.take(i - from + 1);
                assert forall|k: int| 0 <= k < t.len() implies '0' <= #[trigger] t[k] <= '9' by {
                    assert(t[k] == d[k]);
                }
                if all_digits(d) {
                    lemma_digits_value_mono(d, i - from + 1);
                }
                assert(acc * 10 + digit > u64::MAX) by (nonlinear_arith)
                    requires
                        acc > (u64::MAX - digit) / 10,
                        digit <= 9,
                ;
            }
            return None;
        }
        acc = acc * 10 + digit;
        i = i + 1;
    }
    assert(d.take(n - from) =~= d);
    Some(acc)
}

/// `str::parse::<u64>`.
pub fn parse_u64(s: &str) -> (r: Option<u64>)
    ensures
        match r {
            Some(x) => parse_unsigned(s@, u64::MAX as int) == Some(x as int),
            None => parse_unsigned(s@, u64::MAX as int) is None,
        },
{
    let v = str_chars(s);
    let from: usize = if v.len() > 0 && v[0] == '+' { 1 } else { 0 };
    proof {
        if from == 1 {
            assert(v@.subrange(1, v@.len() as int) =~= s@.drop_first());
        } else {
            assert(v@.subrange(0, v@.len() as int) =~= s@);
        }
    }
    digits_u64(v.as_slice(), from)
}

/// `str::parse::<u32>`.
pub fn parse_u32(s: &str) -> (r: Option<u32>)
    ensures
        match r {
            Some(x) => parse_unsigned(s@, u32::MAX as int) == Some(x as int),
            None => parse_unsigned(s@, u32::MAX as int) is None,
        },
{
    match parse_u64(s) {
        Some(x) => if x <= u32::MAX as u64 {
            Some(x as u32)
        } else {
            None
        },
        None => None,
    }
}

/// `str::parse::<i64>`.
pub fn parse_i64(s: &str) -> (r: Option<i64>)
    ensures
        match r {
            Some(x) => parse_signed(s@, i64::MIN as int, i64::MAX as int) == Some(x as int),
            None => parse_signed(s@, i64::MIN as int, i64::MAX as int) is None,
        },
{
    let v = str_chars(s);
    if v.len() > 0 && v[0] == '-' {
        assert(v@.subrange(1, v@.len() as int) =~= s@.drop_first());
        match digits_u64(v.as_slice(), 1) {
            Some(x) => if x <= 0x8000_0000_0000_0000u64 {
                if x == 0x8000_0000_0000_0000u64 {
                    Some(i64::MIN)
                } else {
                    Some(-(x as i64))
                }
            } else {
                None
            },
            None => None,
        }
    } else {
        match parse_u64(s) {
            Some(x) => if x <= i64::MAX as u64 {
                Some(x as i64)
            } else {
                None
            },
            None => None,
        }
    }
}

/// `str::parse::<i32>`.
pub fn parse_i32(s: &str) -> (r: Option<i32>)
    ensures
        match r {
            Some(x) => parse_signed(s@, i32::MIN as int, i32::MAX as int) == Some(x as int),
            None => parse_signed(s@, i32::MIN as int, i32::MAX as int) is None,
        },
{
    let r = parse_i64(s);
    proof {
        let neg = s@.len() > 0 && s@[0] == '-';
        let d = if neg || (s@.len() > 0 && s@[0] == '+') { s@.drop_first() } else { s@ };
        assert(parse_signed(s@, i64::MIN as int, i64::MAX as int) == (if all_digits(d) && (if neg { -digits_value(d) >= i64::MIN } else { digits_value(d) <= i64::MAX }) {
            Some(if neg { -digits_value(d) } else { digits_value(d) })
        } else {
            None
        }));
        assert(parse_signed(s@, i32::MIN as int, i32::MAX as int) == (if all_digits(d) && (if neg { -digits_value(d) >= i32::MIN } else { digits_value(d) <= i32::MAX }) {
            Some(if neg { -digits_value(d) } else { digits_value(d) })
        } else {
            None
        }));
        if all_digits(d) {
            lemma_digits_value_nonneg(d);
        }
    }
    match r {
        Some(x) => if i32::MIN as i64 <= x && x <= i32::MAX as i64 {
            Some(x as i32)
        } else {
            None
        },
        None => None,
    }
}


/// `s` without its trailing run of `c`.
pub open spec fn trim_end_char(s: Seq<char>, c: char) -> Seq<char>
    decreases s.len(),
{
    if s.len() > 0 && s.last() == c {
        trim_end_char(s.drop_last(), c)
    } else {
        s
    }
}

/// `str::trim_matches` with a char: `s` without its leading and trailing runs of `c`.
pub open spec fn trim_char(s: Seq<char>, c: char) -> Seq<char> {
    trim_end_char(trim_start_char(s, c), c)
}

/// `str::trim_matches` with a char.
pub fn trim_matches_char<'a>(s: &'a str, c: char) -> (r: &'a str)
    ensures
        r@ == trim_char(s@, c),
{
    let t = trim_start_matches_char(s, c);
    let n = t.unicode_len();
    let mut j: usize = n;
    assert(t@.subrange(0, n as int) =~= t@);
    while j > 0 && t.get_char(j - 1) == c
        invariant
            n == t@.len(),
            j <= n,
            trim_end_char(t@.subrange(0, j as int), c) == trim_end_char(t@, c),
        decreases j,
    {
        assert(t@.subrange(0, j as int).drop_last() =~= t@.subrange(0, j - 1));
        j = j - 1;
    }
    t.substring_char(0, j)
}


/// The words of `s` collected after `cur`: the runs of characters between
/// white space, each non-empty.
pub open spec fn words_after(s: Seq<char>, cur: Seq<char>) -> Seq<Seq<char>>
    decreases s.len(),
{
    if s.len() == 0 {
        if cur.len() > 0 { seq![cur] } else { Seq::empty() }
    } else if unicode_white_space(s[0]) {
        (if cur.len() > 0 { seq![cur] } else { Seq::<Seq<char>>::empty() }) + words_after(
            s.drop_first(),
            Seq::empty(),
        )
    } else {
        words_after(s.drop_first(), cur.push(s[0]))
    }
}

/// The words of `s` (`str::split_whitespace`).
pub open spec fn words(s: Seq<char>) -> Seq<Seq<char>> {
    words_after(s, Seq::empty())
}

/// The words of a character buffer (`str::split_whitespace`).
pub fn words_of(v: &[char]) -> (r: Vec<Vec<char>>)
    ensures
        r@.len() == words(v@).len(),
        forall|k: int| 0 <= k < r@.len() ==> (#[trigger] r@[k])@ == words(v@)[k],
{
    let n = v.len();
    let mut out: Vec<Vec<char>> = Vec::new();
    let mut cur: Vec<char> = Vec::new();
    let mut i: usize = 0;
    assert(v@.skip(0) =~= v@);
    while i < n
        invariant
            n == v@.len(),
            i <= n,
            words(v@) == out@.map_values(|p: Vec<char>| p@) + words_after(v@.skip(i as int), cur@),
        decreases n - i,
    {
        let c = v[i];
        let ghost rest = v@.skip(i as int);
        let ghost before = out@.map_values(|p: Vec<char>| p@);
        assert(rest[0] == c);
        assert(rest.drop_first() =~= v@.skip(i + 1));
        if char_is_whitespace(c) {
            if cur.len() > 0 {
                let ghost w = cur@;
                out.push(cur);
                assert(out@.map_values(|p: Vec<char>| p@) =~= before + seq![w]);
                cur = Vec::new();
            } else {
                assert(Seq::<Seq<char>>::empty() + words_after(v@.skip(i + 1), cur@) =~= words_after(v@.skip(i + 1), cur@));
                assert(cur@ =~= Seq::<char>::empty());
            }
        } else {
            cur.push(c);
        }
        i = i + 1;
    }
    let ghost before = out@.map_values(|p: Vec<char>| p@);
    assert(v@.skip(n as int) =~= Seq::<char>::empty());
    if cur.len() > 0 {
        let ghost w = cur@;
        out.push(cur);
        assert(out@.map_values(|p: Vec<char>| p@) =~= before + seq![w]);
    } else {
        assert(before + Seq::<Seq<char>>::empty() =~= before);
    }
    proof {
        assert forall|k: int| 0 <= k < out@.len() implies (#[trigger] out@[k])@ == words(v@)[k] by {
            assert(out@.map_values(|p: Vec<char>| p@)[k] == out@[k]@);
        }
    }
    out
}

/// `s` with every `from` replaced by `to`.
pub open spec fn replace_char(s: Seq<char>, from: char, to: char) -> Seq<char> {
    s.map_values(|c: char| if c == from { to } else { c })
}

/// A character buffer with every `from` replaced by `to` (`str::replace` of
/// one character by one character).
pub fn replace_char_in(v: &[char], from: char, to: char) -> (r: Vec<char>)
    ensures
        r@ == replace_char(v@, from, to),
{
    let mut r: Vec<char> = Vec::new();
    let mut i: usize = 0;
    while i < v.len()
        invariant
            i <= v@.len(),
            r@ == replace_char(v@.take(i as int), from, to),
        decreases v@.len() - i,
    {
        let c = v[i];
        if c == from {
            r.push(to);
        } else {
            r.push(c);
        }
        assert(v@.take(i + 1) =~= v@.take(i as int).push(c));
        i = i + 1;
        assert(r@ =~= replace_char(v@.take(i as int), from, to));
    }
    assert(v@.take(v@.len() as int) =~= v@);
    r
}

/// The number of bytes that UTF-8 takes for `c`.
pub open spec fn utf8_width(c: char) -> nat {
    let n = c as u32;
    if n < 0x80 {
        1
    } else if n < 0x800 {
        2
    } else if n < 0x10000 {
        3
    } else {
        4
    }
}

/// The number of bytes that UTF-8 takes for `s` (`str::len`).
pub open spec fn utf8_size(s: Seq<char>) -> nat
    decreases s.len(),
{
    if s.len() == 0 {
        0
    } else {
        utf8_size(s.drop_last()) + utf8_width(s.last())
    }
}

/// The UTF-8 width of a character.
pub fn char_utf8_width(c: char) -> (r: usize)
    ensures
        r == utf8_width(c),
{
    let n = c as u32;
    if n < 0x80 {
        1
    } else if n < 0x800 {
        2
    } else if n < 0x10000 {
        3
    } else {
        4
    }
}

pub proof fn lemma_utf8_size_take(s: Seq<char>, k: int)
    requires
        0 <= k <= s.len(),
    ensures
        utf8_size(s.take(k)) <= utf8_size(s),
    decreases s.len() - k,
{
    if k < s.len() {
        lemma_utf8_size_take(s, k + 1);
        assert(s.take(k + 1).drop_last() =~= s.take(k));
    } else {
        assert(s.take(k) =~= s);
    }
}

/// Whether `s` takes at least `m` bytes in UTF-8 (`str::len() >= m`).
pub fn utf8_size_at_least(v: &[char], m: usize) -> (r: bool)
    ensures
        r == (utf8_size(v@) >= m),
{
    if m == 0 {
        return true;
    }
    let mut total: usize = 0;
    let mut i: usize = 0;
    assert(v@.take(0) =~= Seq::<char>::empty());
    while i < v.len()
        invariant
            i <= v@.len(),
            total == utf8_size(v@.take(i as int)),
            total < m,
        decreases v@.len() - i,
    {
        assert(v@.take(i + 1).drop_last() =~= v@.take(i as int));
        let w = char_utf8_width(v[i]);
        if w >= m - total {
            proof {
                lemma_utf8_size_take(v@, i + 1);
            }
            return true;
        }
        total = total + w;
        i = i + 1;
    }
    assert(v@.take(v@.len() as int) =~= v@);
    false
}

} // verus!
