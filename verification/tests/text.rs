use steam_cloud_files::text::{
    parse_i32, parse_i64, parse_u32, parse_u64, replace_text, str_chars, trim_chars,
    u64_text, utf8_size_at_least, words_of,
};

#[test]
fn numbers_parse_like_str_parse() {
    assert_eq!(parse_u64("18446744073709551615"), Some(u64::MAX));
    assert_eq!(parse_u64("18446744073709551616"), None);
    assert_eq!(parse_u64("+7"), Some(7));
    assert_eq!(parse_u64(""), None);
    assert_eq!(parse_u32("4294967296"), None);
    assert_eq!(parse_i64("-9223372036854775808"), Some(i64::MIN));
    assert_eq!(parse_i32("-12"), Some(-12));
    assert_eq!(parse_i32("1x"), None);
}

#[test]
fn decimal_text() {
    assert_eq!(u64_text(0), "0");
    assert_eq!(u64_text(1234567890), "1234567890");
}

#[test]
fn words_split_on_white_space() {
    let v = str_chars(" a  bc\td\u{3000}e ");
    let w: Vec<String> = words_of(&v).iter().map(|x| x.iter().collect()).collect();
    assert_eq!(w, vec!["a", "bc", "d", "e"]);
    assert!(words_of(&str_chars("   ")).is_empty());
}

#[test]
fn replacing_and_trimming() {
    assert_eq!(replace_text("a @ b @ c", " @", ""), "a b c");
    assert_eq!(replace_text("aaa", "aa", "b"), "ba");
    let t: String = trim_chars(&str_chars("  x y \n")).iter().collect();
    assert_eq!(t, "x y");
}

#[test]
fn utf8_sizes() {
    assert!(utf8_size_at_least(&str_chars("abc"), 3));
    assert!(!utf8_size_at_least(&str_chars("ab"), 3));
    assert!(utf8_size_at_least(&str_chars("é"), 2));
    assert!(utf8_size_at_least(&str_chars("下"), 3));
}
