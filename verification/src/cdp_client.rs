//! What the library makes of the rows that the Steam cloud storage web pages
//! list: the time stamps they print, in English or in Chinese, and the game
//! and file entries built from a row.
use chrono::Datelike;
use chrono::TimeZone;
use vstd::prelude::*;
use vstd::string::*;
use crate::game_scanner::CloudGameInfo;
use crate::steam_api::CloudFile;
use crate::text::{
    char_utf8_width, chars_string, parse_i32, parse_signed, parse_u32, parse_unsigned,
    replace_all, replace_char, replace_char_in, replace_text, seq_string, split_chars, split_on,
    str_chars, to_lowercase, trim, trim_chars, unicode_lowercase, utf8_size, utf8_size_at_least,
    utf8_width, words, words_of, append_decimal, decimal,
};

verus! {

/// A calendar time of day, to the minute, as a storage page prints it.
#[derive(Debug, Clone, Copy, PartialEq, Eq)]
pub struct SteamTime {
    pub year: i32,
    pub month: u32,
    pub day: u32,
    pub hour: u32,
    pub minute: u32,
}

/// What reading a printed time gives: the time, nothing, or (on a time word
/// whose last two bytes do not start at a character) a cut inside a character.
#[derive(Debug, Clone, Copy, PartialEq, Eq)]
pub enum SteamTimeReading {
    Read(SteamTime),
    Unreadable,
    CutInsideChar,
}

/// `str::parse::<u32>`.
pub open spec fn u32_text(s: Seq<char>) -> Option<int> {
    parse_unsigned(s, u32::MAX as int)
}

/// `str::parse::<i32>`.
pub open spec fn i32_text(s: Seq<char>) -> Option<int> {
    parse_signed(s, i32::MIN as int, i32::MAX as int)
}

/// A twelve-hour clock reading turned into a 24-hour one: afternoon hours
/// below 12 move on by 12, and 12 in the morning is 0.
pub open spec fn day_hour(hour: int, pm: bool, am: bool) -> int {
    let h = if pm && hour < 12 { hour + 12 } else { hour };
    if am && h == 12 { 0 } else { h }
}

/// The Chinese form with its date and time marks turned into spaces.
pub open spec fn cn_text(t: Seq<char>) -> Seq<char> {
    replace_char(replace_char(replace_char(replace_char(t, '年', ' '), '月', ' '), '日', ' '), ':', ' ')
}

/// Whether the Chinese form is read: the three date marks occur and at least
/// six words remain.
pub open spec fn cn_applies(t: Seq<char>) -> bool {
    t.contains('年') && t.contains('月') && t.contains('日') && words(cn_text(t)).len() >= 6
}

/// The Chinese form "2021 年 3 月 6 日 下午 8:04", as its words.
pub open spec fn cn_reading(p: Seq<Seq<char>>) -> Option<SteamTime> {
    let ampm = p[3];
    let pm = ampm == seq!['下', '午'] || unicode_lowercase(ampm) == seq!['p', 'm'];
    let am = ampm == seq!['上', '午'] || unicode_lowercase(ampm) == seq!['a', 'm'];
    match i32_text(p[0]) {
        None => None,
        Some(y) => match u32_text(p[1]) {
            None => None,
            Some(mo) => match u32_text(p[2]) {
                None => None,
                Some(d) => match u32_text(p[4]) {
                    None => None,
                    Some(h) => match u32_text(p[5]) {
                        None => None,
                        Some(mi) => Some(
                            SteamTime {
                                year: y as i32,
                                month: mo as u32,
                                day: d as u32,
                                hour: day_hour(h, pm, am) as u32,
                                minute: mi as u32,
                            },
                        ),
                    },
                },
            },
        },
    }
}

/// The English form with " @" and commas removed.
pub open spec fn en_text(t: Seq<char>) -> Seq<char> {
    replace_all(replace_all(t, seq![' ', '@'], Seq::empty()), seq![','], Seq::empty())
}

/// The number of an English month abbreviation in lower case.
pub open spec fn month_number(m: Seq<char>) -> Option<u32> {
    if m == seq!['j', 'a', 'n'] {
        Some(1)
    } else if m == seq!['f', 'e', 'b'] {
        Some(2)
    } else if m == seq!['m', 'a', 'r'] {
        Some(3)
    } else if m == seq!['a', 'p', 'r'] {
        Some(4)
    } else if m == seq!['m', 'a', 'y'] {
        Some(5)
    } else if m == seq!['j', 'u', 'n'] {
        Some(6)
    } else if m == seq!['j', 'u', 'l'] {
        Some(7)
    } else if m == seq!['a', 'u', 'g'] {
        Some(8)
    } else if m == seq!['s', 'e', 'p'] {
        Some(9)
    } else if m == seq!['o', 'c', 't'] {
        Some(10)
    } else if m == seq!['n', 'o', 'v'] {
        Some(11)
    } else if m == seq!['d', 'e', 'c'] {
        Some(12)
    } else {
        None
    }
}

/// The English month abbreviations in lower case, in calendar order.
pub open spec fn month_abbreviations() -> Seq<Seq<char>> {
    seq![
        seq!['j', 'a', 'n'],
        seq!['f', 'e', 'b'],
        seq!['m', 'a', 'r'],
        seq!['a', 'p', 'r'],
        seq!['m', 'a', 'y'],
        seq!['j', 'u', 'n'],
        seq!['j', 'u', 'l'],
        seq!['a', 'u', 'g'],
        seq!['s', 'e', 'p'],
        seq!['o', 'c', 't'],
        seq!['n', 'o', 'v'],
        seq!['d', 'e', 'c'],
    ]
}

/// Each month abbreviation reads as its place in the calendar, counting from
/// 1, and a word that reads as a month is the abbreviation at that place.
pub proof fn lemma_month_numbers(m: Seq<char>)
    ensures
        forall|i: int| 0 <= i < 12 ==> month_number(#[trigger] month_abbreviations()[i]) == Some((i + 1) as u32),
        month_number(m) matches Some(k) ==> 1 <= k <= 12 && m == month_abbreviations()[k - 1],
{
    let a = month_abbreviations();
    assert forall|i: int| 0 <= i < 12 implies month_number(#[trigger] a[i]) == Some((i + 1) as u32) by {
        if i == 0 {} else if i == 1 {} else if i == 2 {} else if i == 3 {} else if i == 4 {} else if i == 5 {
        } else if i == 6 {} else if i == 7 {} else if i == 8 {} else if i == 9 {} else if i == 10 {} else {}
    }
}

/// The month of an English time that reads is the place of its month word
/// (in lower case) among the month abbreviations, counting from 1.
pub proof fn lemma_english_month(p: Seq<Seq<char>>, current_year: i32)
    ensures
        en_reading(p, current_year) matches SteamTimeReading::Read(t) ==> 1 <= t.month <= 12
            && unicode_lowercase(p[1]) == month_abbreviations()[t.month - 1],
{
    if p.len() >= 3 {
        lemma_month_numbers(unicode_lowercase(p[1]));
    }
}

/// The year and the time word of the English form: with four words the third
/// is the year, else the current year counts and the third word is the time.
pub open spec fn en_year_time(p: Seq<Seq<char>>, current_year: i32) -> Option<(i32, Seq<char>)> {
    if p.len() == 4 {
        match i32_text(p[2]) {
            Some(y) => Some((y as i32, p[3])),
            None => None,
        }
    } else {
        Some((current_year, p[2]))
    }
}

/// How many characters the last two bytes of a time word make: one of two
/// bytes, or two of one byte each; `None` where the cut falls inside a
/// character.
pub open spec fn suffix_chars(w: Seq<char>) -> Option<int> {
    if utf8_width(w.last()) == 2 {
        Some(1)
    } else if utf8_width(w.last()) == 1 && utf8_width(w[w.len() - 2]) == 1 {
        Some(2)
    } else {
        None
    }
}

/// The hour and minute of an English time word like "5:30pm" whose last `k`
/// characters are the half-day mark.
pub open spec fn en_clock(w: Seq<char>, k: int) -> Option<(u32, u32)> {
    let ampm = unicode_lowercase(w.subrange(w.len() - k, w.len() as int));
    let tp = split_on(w.subrange(0, w.len() - k), ':');
    match u32_text(tp[0]) {
        None => None,
        Some(h) => {
            let mi = if tp.len() > 1 { u32_text(tp[1]) } else { Some(0int) };
            match mi {
                None => None,
                Some(m) => Some(
                    (
                        day_hour(h, ampm == seq!['p', 'm'], ampm == seq!['a', 'm']) as u32,
                        m as u32,
                    ),
                ),
            }
        },
    }
}

/// The English form "23 Nov, 2025 @ 5:30pm" or "23 Nov @ 5:30pm", as its words.
pub open spec fn en_reading(p: Seq<Seq<char>>, current_year: i32) -> SteamTimeReading {
    if p.len() < 3 {
        SteamTimeReading::Unreadable
    } else {
        match u32_text(p[0]) {
            None => SteamTimeReading::Unreadable,
            Some(d) => match month_number(unicode_lowercase(p[1])) {
                None => SteamTimeReading::Unreadable,
                Some(mo) => match en_year_time(p, current_year) {
                    None => SteamTimeReading::Unreadable,
                    Some((y, w)) => if utf8_size(w) < 3 {
                        SteamTimeReading::Unreadable
                    } else {
                        match suffix_chars(w) {
                            None => SteamTimeReading::CutInsideChar,
                            Some(k) => match en_clock(w, k) {
                                None => SteamTimeReading::Unreadable,
                                Some((h, mi)) => SteamTimeReading::Read(
                                    SteamTime { year: y, month: mo, day: d as u32, hour: h, minute: mi },
                                ),
                            },
                        }
                    },
                },
            },
        }
    }
}

/// What a printed time reads as, `current_year` standing in where the text
/// gives none.
pub open spec fn steam_time_reading(s: Seq<char>, current_year: i32) -> SteamTimeReading {
    let t = trim(s);
    if t.len() == 0 {
        SteamTimeReading::Unreadable
    } else if cn_applies(t) {
        match cn_reading(words(cn_text(t))) {
            Some(x) => SteamTimeReading::Read(x),
            None => SteamTimeReading::Unreadable,
        }
    } else {
        en_reading(words(en_text(t)), current_year)
    }
}

/// Whether reading `s` cuts a time word inside a character (where a byte
/// slice would fall off a character boundary).
pub open spec fn steam_time_cut_fails(s: Seq<char>) -> bool {
    steam_time_reading(s, 0) is CutInsideChar
}

/// The time that a printed time gives, if any.
pub open spec fn steam_time_value(s: Seq<char>, current_year: i32) -> Option<SteamTime> {
    match steam_time_reading(s, current_year) {
        SteamTimeReading::Read(t) => Some(t),
        _ => None,
    }
}

/// Whether the cut of a time word does not depend on the year that stands in.
pub proof fn lemma_cut_independent_of_year(s: Seq<char>, y: i32)
    ensures
        (steam_time_reading(s, y) is CutInsideChar) == steam_time_cut_fails(s),
{
}

fn chars_are2(v: &[char], a: char, b: char) -> (r: bool)
    ensures
        r == (v@ == seq![a, b]),
{
    if v.len() == 2 && v[0] == a && v[1] == b {
        assert(v@ =~= seq![a, b]);
        true
    } else {
        false
    }
}

fn chars_are3(v: &[char], a: char, b: char, c: char) -> (r: bool)
    ensures
        r == (v@ == seq![a, b, c]),
{
    if v.len() == 3 && v[0] == a && v[1] == b && v[2] == c {
        assert(v@ =~= seq![a, b, c]);
        true
    } else {
        false
    }
}

fn chars_contain(v: &[char], c: char) -> (r: bool)
    ensures
        r == v@.contains(c),
{
    let mut i: usize = 0;
    while i < v.len()
        invariant
            i <= v@.len(),
            forall|k: int| 0 <= k < i ==> v@[k] != c,
        decreases v@.len() - i,
    {
        if v[i] == c {
            assert(v@[i as int] == c);
            return true;
        }
        i = i + 1;
    }
    false
}

fn chars_u32(v: &[char]) -> (r: Option<u32>)
    ensures
        match r {
            Some(x) => u32_text(v@) == Some(x as int),
            None => u32_text(v@) is None,
        },
{
    let s = seq_string(v);
    parse_u32(s.as_str())
}

fn chars_i32(v: &[char]) -> (r: Option<i32>)
    ensures
        match r {
            Some(x) => i32_text(v@) == Some(x as int),
            None => i32_text(v@) is None,
        },
{
    let s = seq_string(v);
    parse_i32(s.as_str())
}

fn chars_lowercase(v: &[char]) -> (r: Vec<char>)
    ensures
        r@ == unicode_lowercase(v@),
{
    let s = seq_string(v);
    let l = to_lowercase(s.as_str());
    str_chars(l.as_str())
}

fn month_of(m: &[char]) -> (r: Option<u32>)
    ensures
        r == month_number(m@),
{
    if chars_are3(m, 'j', 'a', 'n') {
        Some(1)
    } else if chars_are3(m, 'f', 'e', 'b') {
        Some(2)
    } else if chars_are3(m, 'm', 'a', 'r') {
        Some(3)
    } else if chars_are3(m, 'a', 'p', 'r') {
        Some(4)
    } else if chars_are3(m, 'm', 'a', 'y') {
        Some(5)
    } else if chars_are3(m, 'j', 'u', 'n') {
        Some(6)
    } else if chars_are3(m, 'j', 'u', 'l') {
        Some(7)
    } else if chars_are3(m, 'a', 'u', 'g') {
        Some(8)
    } else if chars_are3(m, 's', 'e', 'p') {
        Some(9)
    } else if chars_are3(m, 'o', 'c', 't') {
        Some(10)
    } else if chars_are3(m, 'n', 'o', 'v') {
        Some(11)
    } else if chars_are3(m, 'd', 'e', 'c') {
        Some(12)
    } else {
        None
    }
}

fn read_cn(p: &Vec<Vec<char>>) -> (r: Option<SteamTime>)
    requires
        p@.len() >= 6,
    ensures
        r == cn_reading(p@.map_values(|w: Vec<char>| w@)),
{
    let ghost q = p@.map_values(|w: Vec<char>| w@);
    assert(q[0] == p@[0]@ && q[1] == p@[1]@ && q[2] == p@[2]@ && q[3] == p@[3]@ && q[4] == p@[4]@
        && q[5] == p@[5]@);
    let ampm = &p[3];
    let lower = chars_lowercase(ampm.as_slice());
    let pm = chars_are2(ampm.as_slice(), '下', '午') || chars_are2(lower.as_slice(), 'p', 'm');
    let am = chars_are2(ampm.as_slice(), '上', '午') || chars_are2(lower.as_slice(), 'a', 'm');
    let year = match chars_i32(p[0].as_slice()) {
        Some(y) => y,
        None => return None,
    };
    let month = match chars_u32(p[1].as_slice()) {
        Some(m) => m,
        None => return None,
    };
    let day = match chars_u32(p[2].as_slice()) {
        Some(d) => d,
        None => return None,
    };
    let mut hour = match chars_u32(p[4].as_slice()) {
        Some(h) => h,
        None => return None,
    };
    let minute = match chars_u32(p[5].as_slice()) {
        Some(m) => m,
        None => return None,
    };
    if pm && hour < 12 {
        hour = hour + 12;
    }
    if am && hour == 12 {
        hour = 0;
    }
    Some(SteamTime { year, month, day, hour, minute })
}

fn read_clock(w: &[char], k: usize) -> (r: Option<(u32, u32)>)
    requires
        1 <= k <= w@.len(),
    ensures
        r == en_clock(w@, k as int),
{
    let n = w.len();
    let ampm_text = chars_string(w, n - k, n);
    let ampm = str_chars(to_lowercase(ampm_text.as_str()).as_str());
    let val = chars_string(w, 0, n - k);
    let val_chars = str_chars(val.as_str());
    let tp = split_chars(val_chars.as_slice(), ':');
    proof {
        crate::text::lemma_split_len(val_chars@, ':');
    }
    let mut hour = match chars_u32(tp[0].as_slice()) {
        Some(h) => h,
        None => return None,
    };
    let minute = if tp.len() > 1 {
        match chars_u32(tp[1].as_slice()) {
            Some(m) => m,
            None => return None,
        }
    } else {
        0
    };
    let pm = chars_are2(ampm.as_slice(), 'p', 'm');
    let am = chars_are2(ampm.as_slice(), 'a', 'm');
    if pm && hour < 12 {
        hour = hour + 12;
    }
    if am && hour == 12 {
        hour = 0;
    }
    Some((hour, minute))
}

fn read_en(p: &Vec<Vec<char>>, current_year: i32) -> (r: SteamTimeReading)
    ensures
        r == en_reading(p@.map_values(|w: Vec<char>| w@), current_year),
{
    let ghost q = p@.map_values(|w: Vec<char>| w@);
    if p.len() < 3 {
        return SteamTimeReading::Unreadable;
    }
    assert(q[0] == p@[0]@ && q[1] == p@[1]@ && q[2] == p@[2]@);
    let day = match chars_u32(p[0].as_slice()) {
        Some(d) => d,
        None => return SteamTimeReading::Unreadable,
    };
    let lower = chars_lowercase(p[1].as_slice());
    let month = match month_of(lower.as_slice()) {
        Some(m) => m,
        None => return SteamTimeReading::Unreadable,
    };
    let year: i32;
    let w: &Vec<char>;
    if p.len() == 4 {
        assert(q[3] == p@[3]@);
        year = match chars_i32(p[2].as_slice()) {
            Some(y) => y,
            None => return SteamTimeReading::Unreadable,
        };
        w = &p[3];
    } else {
        year = current_year;
        w = &p[2];
    }
    if !utf8_size_at_least(w.as_slice(), 3) {
        return SteamTimeReading::Unreadable;
    }
    let n = w.len();
    proof {
        assert(n > 0) by {
            if n == 0 {
                assert(utf8_size(w@) == 0);
            }
        }
        if utf8_width(w@.last()) == 1 {
            assert(w@.drop_last().len() > 0) by {
                if w@.drop_last().len() == 0 {
                    assert(utf8_size(w@.drop_last()) == 0);
                }
            }
        }
    }
    let last = char_utf8_width(w[n - 1]);
    let k: usize = if last == 2 {
        1
    } else if last == 1 && char_utf8_width(w[n - 2]) == 1 {
        2
    } else {
        return SteamTimeReading::CutInsideChar;
    };
    match read_clock(w.as_slice(), k) {
        Some((hour, minute)) => SteamTimeReading::Read(
            SteamTime { year, month, day, hour, minute },
        ),
        None => SteamTimeReading::Unreadable,
    }
}

fn words_vec(v: &[char]) -> (r: Vec<Vec<char>>)
    ensures
        r@.map_values(|w: Vec<char>| w@) == words(v@),
{
    let r = words_of(v);
    assert(r@.map_values(|w: Vec<char>| w@) =~= words(v@));
    r
}

/// Reads a time as a storage page prints it, `current_year` standing in where
/// the text gives no year.
pub fn read_steam_time(s: &str, current_year: i32) -> (r: SteamTimeReading)
    ensures
        r == steam_time_reading(s@, current_year),
{
    let all = str_chars(s);
    let t = trim_chars(all.as_slice());
    if t.len() == 0 {
        return SteamTimeReading::Unreadable;
    }
    if chars_contain(t.as_slice(), '年') && chars_contain(t.as_slice(), '月') && chars_contain(
        t.as_slice(),
        '日',
    ) {
        let a = replace_char_in(t.as_slice(), '年', ' ');
        let b = replace_char_in(a.as_slice(), '月', ' ');
        let c = replace_char_in(b.as_slice(), '日', ' ');
        let d = replace_char_in(c.as_slice(), ':', ' ');
        let parts = words_vec(d.as_slice());
        if parts.len() >= 6 {
            return match read_cn(&parts) {
                Some(x) => SteamTimeReading::Read(x),
                None => SteamTimeReading::Unreadable,
            };
        }
    }
    let text = seq_string(t.as_slice());
    proof {
        reveal_strlit(" @");
        reveal_strlit(",");
        reveal_strlit("");
        assert(" @"@ =~= seq![' ', '@']);
        assert(","@ =~= seq![',']);
        assert(""@ =~= Seq::<char>::empty());
    }
    let a = replace_text(text.as_str(), " @", "");
    let b = replace_text(a.as_str(), ",", "");
    let chars = str_chars(b.as_str());
    let parts = words_vec(chars.as_slice());
    read_en(&parts, current_year)
}

/// Whether reading `s` would cut a time word inside a character.
pub fn steam_time_cuts_char(s: &str) -> (r: bool)
    ensures
        r == steam_time_cut_fails(s@),
{
    match read_steam_time(s, 0) {
        SteamTimeReading::CutInsideChar => true,
        _ => false,
    }
}

/// Reads the fields of a printed time, `current_year` standing in where the
/// text gives no year.
pub fn parse_steam_time_fields(s: &str, current_year: i32) -> (r: Option<SteamTime>)
    requires
        !steam_time_cut_fails(s@),
    ensures
        r == steam_time_value(s@, current_year),
{
    match read_steam_time(s, current_year) {
        SteamTimeReading::Read(t) => Some(t),
        _ => None,
    }
}

/// Whether `year` is a leap year of the Gregorian calendar.
pub open spec fn leap_year(year: int) -> bool {
    (year % 4 == 0 && year % 100 != 0) || year % 400 == 0
}

/// The number of days of a month.
pub open spec fn month_length(year: int, month: int) -> int {
    if month == 2 {
        if leap_year(year) { 29 } else { 28 }
    } else if month == 4 || month == 6 || month == 9 || month == 11 {
        30
    } else {
        31
    }
}

/// Whether the fields name a real date and time of day.
pub open spec fn civil_valid(t: SteamTime) -> bool {
    &&& 1 <= t.month <= 12
    &&& 1 <= t.day <= month_length(t.year as int, t.month as int)
    &&& t.hour < 24
    &&& t.minute < 60
}

/// The current year of the local calendar (`chrono::Local::now().year()`);
/// nothing is stated of it, as it depends on the clock.
#[verifier::external_body]
fn local_year_now() -> i32 {
    chrono::Local::now().year()
}

/// The number of days from 1970-01-01 to the date `y`-`m`-`d` of the proleptic
/// Gregorian calendar (negative before it).
pub open spec fn days_from_civil(y: int, m: int, d: int) -> int {
    let y2 = if m <= 2 { y - 1 } else { y };
    let era = y2 / 400;
    let yoe = y2 - era * 400;
    let mp = (m + 9) % 12;
    let doy = (153 * mp + 2) / 5 + d - 1;
    let doe = yoe * 365 + yoe / 4 - yoe / 100 + doy;
    era * 146097 + doe - 719468
}

/// The Unix time of the fields read as a time in UTC.
pub open spec fn utc_seconds(t: SteamTime) -> int {
    days_from_civil(t.year as int, t.month as int, t.day as int) * 86400 + t.hour as int * 3600
        + t.minute as int * 60
}

/// The Unix time of a local date and time, through
/// `chrono::Local.with_ymd_and_hms(..).single()`: chrono gives no time for
/// fields that name no real date and time of day, and a time it gives differs
/// from the fields read in UTC by the local offset, which chrono's
/// `FixedOffset` keeps strictly within one day. Which offset applies depends
/// on the machine's time zone, so more is not stated, nor when a local time is
/// missing or doubled at a clock change.
#[verifier::external_body]
fn local_timestamp(t: SteamTime) -> (r: Option<i64>)
    ensures
        r is Some ==> civil_valid(t),
        r matches Some(x) ==> -86400 < x - utc_seconds(t) < 86400,
{
    chrono::Local.with_ymd_and_hms(t.year, t.month, t.day, t.hour, t.minute, 0).single().map(
        |d| d.timestamp(),
    )
}

/// The Unix time of a printed time read in the local time zone; the current
/// year of the local calendar stands in where the text gives none.
pub fn parse_steam_time(s: &str) -> (r: Option<i64>)
    requires
        !steam_time_cut_fails(s@),
    ensures
        (forall|y: i32| #[trigger] steam_time_value(s@, y) is None) ==> r is None,
        r is Some ==> exists|y: i32| #[trigger]
            steam_time_value(s@, y) matches Some(t) && civil_valid(t),
        r matches Some(x) ==> exists|y: i32| #[trigger]
            steam_time_value(s@, y) matches Some(t) && -86400 < x - utc_seconds(t) < 86400,
{
    let year = local_year_now();
    proof {
        lemma_cut_independent_of_year(s@, year);
    }
    match parse_steam_time_fields(s, year) {
        Some(t) => {
            let r = local_timestamp(t);
            proof {
                if r is Some {
                    assert(steam_time_value(s@, year) matches Some(t) && civil_valid(t));
                }
            }
            r
        },
        None => {
            assert(steam_time_value(s@, year) is None);
            None
        },
    }
}

/// [`parse_steam_time`] for any text: `None` when reading it would cut a time
/// word inside a character (nothing is read then); else what
/// `parse_steam_time` gives.
pub fn try_parse_steam_time(s: &str) -> (r: Option<Option<i64>>)
    ensures
        r is None <==> steam_time_cut_fails(s@),
        r matches Some(t) ==> {
            &&& (forall|y: i32| #[trigger] steam_time_value(s@, y) is None) ==> t is None
            &&& t is Some ==> exists|y: i32| #[trigger]
                steam_time_value(s@, y) matches Some(f) && civil_valid(f)
        },
{
    if steam_time_cuts_char(s) {
        None
    } else {
        Some(parse_steam_time(s))
    }
}

/// Where a listed file's content can be had from, as the library keeps it:
/// "CDP:" and the download address, a bar, and the folder; or the folder
/// alone where the page gives no address.
pub open spec fn cdp_root_text(url: Seq<char>, folder: Seq<char>) -> Seq<char> {
    if url.len() > 0 {
        seq!['C', 'D', 'P', ':'] + url + seq!['|'] + folder
    } else {
        folder
    }
}

/// The root description that a listed file gets.
pub fn cdp_root_description(url: &str, folder: &str) -> (r: String)
    ensures
        r@ == cdp_root_text(url@, folder@),
{
    if url.unicode_len() > 0 {
        let mut r = String::new();
        r.append("CDP:");
        r.append(url);
        r.append("|");
        r.append(folder);
        proof {
            reveal_strlit("CDP:");
            reveal_strlit("|");
            assert(r@ =~= cdp_root_text(url@, folder@));
        }
        r
    } else {
        String::from_str(folder)
    }
}

/// A file as a storage page lists it, with its time already known: the time
/// the page prints as read (`parsed`), or `now` where it could not be read.
pub fn cdp_cloud_file_at(
    folder: &str,
    name: &str,
    size: u64,
    parsed: Option<i64>,
    now: i64,
    url: &str,
) -> (r: CloudFile)
    ensures
        r.name@ == name@,
        r.size == size,
        r.timestamp == (match parsed {
            Some(t) => t,
            None => now,
        }),
        r.is_persisted,
        r.exists,
        r.root == 0,
        r.root_description@ == cdp_root_text(url@, folder@),
        !r.conflict,
{
    let timestamp = match parsed {
        Some(t) => t,
        None => now,
    };
    CloudFile {
        name: String::from_str(name),
        size,
        timestamp,
        is_persisted: true,
        exists: true,
        root: 0,
        root_description: cdp_root_description(url, folder),
        conflict: false,
    }
}

/// A file as a storage page lists it. The size is the one the page prints,
/// already read; the time is the printed time read in the local time zone, or
/// the present time where it cannot be read (see [`cdp_cloud_file_at`]).
pub fn cdp_cloud_file(folder: &str, name: &str, size: u64, time_text: &str, url: &str) -> (r: CloudFile)
    requires
        !steam_time_cut_fails(time_text@),
    ensures
        r.name@ == name@,
        r.size == size,
        r.is_persisted,
        r.exists,
        r.root == 0,
        r.root_description@ == cdp_root_text(url@, folder@),
        !r.conflict,
{
    let parsed = parse_steam_time(time_text);
    let now = match parsed {
        Some(_) => 0,
        None => crate::symlink_manager::unix_now(),
    };
    cdp_cloud_file_at(folder, name, size, parsed, now, url)
}

/// A game as the storage overview lists it: none where the application
/// number, taken to 32 bits, is 0; an empty name counts as none.
pub fn cdp_game_entry(app_id: u64, game_name: Option<&str>, file_count: u64, total_size: u64) -> (r: Option<CloudGameInfo>)
    ensures
        r is None <==> (app_id as u32) == 0,
        r matches Some(g) ==> {
            &&& g.app_id == app_id as u32
            &&& g.file_count == file_count as usize
            &&& g.total_size == total_size
            &&& g.last_played is None
            &&& g.playtime is None
            &&& crate::path_resolver::opt_string_view(g.game_name) == (match game_name {
                Some(n) => if n@.len() > 0 { Some(n@) } else { None },
                None => None,
            })
            &&& !g.is_installed
            &&& g.install_dir is None
            &&& g.categories@.len() == 0
        },
{
    let id = app_id as u32;
    if id == 0 {
        return None;
    }
    let name = match game_name {
        Some(n) => if n.unicode_len() > 0 {
            Some(String::from_str(n))
        } else {
            None
        },
        None => None,
    };
    Some(
        CloudGameInfo {
            app_id: id,
            file_count: file_count as usize,
            total_size,
            last_played: None,
            playtime: None,
            game_name: name,
            is_installed: false,
            install_dir: None,
            categories: Vec::new(),
        },
    )
}

/// The address of a page of a game's file list: pages hold 50 files, and
/// pages after the first name the index of their first file.
pub open spec fn files_page_text(app_id: u32, page: u32) -> Seq<char> {
    let base = "https://store.steampowered.com/account/remotestorageapp/?appid="@ + decimal(
        app_id as nat,
    );
    if page > 1 {
        base + "&index="@ + decimal(((page - 1) * 50) as nat)
    } else {
        base
    }
}

/// The address of page `page` (counted from 1) of a game's file list.
pub fn files_page_url(app_id: u32, page: u32) -> (r: String)
    requires
        1 <= page,
        (page - 1) * 50 <= i32::MAX,
    ensures
        r@ == files_page_text(app_id, page),
{
    let mut r = String::new();
    r.append("https://store.steampowered.com/account/remotestorageapp/?appid=");
    append_decimal(&mut r, app_id as u64);
    if page > 1 {
        r.append("&index=");
        append_decimal(&mut r, ((page - 1) * 50) as u64);
    }
    r
}

/// The script that asks whether a page links to the file list from index
/// `next_index` on.
pub open spec fn next_page_probe_text(next_index: u32) -> Seq<char> {
    "document.querySelector('a[href*=\"index="@ + decimal(next_index as nat) + "\"]') !== null"@
}

/// The script that asks whether the next page of a file list exists.
pub fn next_page_probe(next_index: u32) -> (r: String)
    ensures
        r@ == next_page_probe_text(next_index),
{
    let mut r = String::new();
    r.append("document.querySelector('a[href*=\"index=");
    append_decimal(&mut r, next_index as u64);
    r.append("\"]') !== null");
    r
}


/// What a listed file's root description is read as gives back the download
/// address and the folder it was made from, when neither holds a `|` (and,
/// without an address, when the folder does not itself start with `CDP:`).
pub proof fn lemma_cdp_root_read_back(url: Seq<char>, folder: Seq<char>)
    requires
        !url.contains('|'),
        !folder.contains('|'),
        url.len() == 0 ==> !crate::text::starts_with(folder, seq!['C', 'D', 'P', ':']),
    ensures
        crate::path_resolver::cdp_root_parts(cdp_root_text(url, folder)) == (if url.len() > 0 {
            (Some(url), folder)
        } else {
            (None::<Seq<char>>, folder)
        }),
{
    reveal_strlit("CDP:");
    assert("CDP:"@ =~= seq!['C', 'D', 'P', ':']);
    let d = cdp_root_text(url, folder);
    if url.len() > 0 {
        let prefix = seq!['C', 'D', 'P', ':'];
        assert(d.subrange(0, 4) =~= prefix);
        assert(crate::text::starts_with(d, "CDP:"@));
        assert(d.subrange(4, d.len() as int) =~= url + seq!['|'] + folder);
        crate::text::lemma_split_concat(url, folder, '|');
        crate::text::lemma_split_none(url, '|');
        crate::text::lemma_split_none(folder, '|');
        assert(crate::text::split_on(d.subrange(4, d.len() as int), '|') =~= seq![url, folder]);
    }
}

} // verus!
