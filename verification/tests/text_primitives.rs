use grok_core::display::sanitize_filename;
use grok_core::ordered::{has_text, set_insert, set_remove, str_lt};
use grok_core::text::{
    byte_length, chars_to_string, concat2, concat3, contains, find_from, i64_to_string, join, lines,
    normalize_newlines, prefix_until, second_piece, str_chars, str_eq, trim, u64_to_string,
};

fn chars(s: &str) -> Vec<char> {
    s.chars().collect()
}

fn text(v: &[char]) -> String {
    v.iter().collect()
}

#[test]
fn conversions_keep_the_characters() {
    assert_eq!(str_chars("héllo"), chars("héllo"));
    assert_eq!(chars_to_string(&chars("héllo")), "héllo");
    assert_eq!(concat2("ab", "cd"), "abcd");
    assert_eq!(concat3("a", "b", "c"), "abc");
    assert_eq!(byte_length("héllo"), 6);
    assert!(str_eq("abc", "abc"));
    assert!(!str_eq("abc", "abd"));
}

#[test]
fn search_finds_the_least_position() {
    let hay = chars("abcabc");
    assert_eq!(find_from(&hay, &chars("bc"), 0), Some(1));
    assert_eq!(find_from(&hay, &chars("bc"), 2), Some(4));
    assert_eq!(find_from(&hay, &chars("bc"), 5), None);
    assert_eq!(find_from(&hay, &chars(""), 6), Some(6));
    assert_eq!(find_from(&hay, &chars(""), 7), None);
    assert!(contains(&hay, &chars("ca")));
    assert!(!contains(&hay, &chars("cc")));
}

#[test]
fn lines_are_split_at_line_feeds() {
    let shown: Vec<String> = lines(&chars("a\r\nb\n\nc\r")).iter().map(|l| text(l)).collect();
    assert_eq!(shown, vec!["a", "b", "", "c\r"]);
    assert!(lines(&chars("")).is_empty());
    assert_eq!(lines(&chars("\n")).len(), 1);
    assert_eq!(lines(&chars("x\n")).len(), 1);
}

#[test]
fn newlines_are_normalized() {
    assert_eq!(normalize_newlines("a\r\nb\rc\nd\r\r\n"), "a\nb\nc\nd\n\n");
    assert_eq!(normalize_newlines("plain"), "plain");
}

#[test]
fn trimming_and_prefixes() {
    assert_eq!(text(&trim(&chars("  \t a b \n"))), "a b");
    assert_eq!(text(&trim(&chars("   "))), "");
    assert_eq!(text(&prefix_until(&chars("name(x)"), &chars("("), false)), "name");
    assert_eq!(text(&prefix_until(&chars("Point <T>"), &chars("{<"), true)), "Point");
    assert_eq!(text(&prefix_until(&chars("all"), &chars("("), true)), "all");
    assert_eq!(second_piece(&chars("a::b::c"), &chars("::")).map(|p| text(&p)), Some("b".to_string()));
    assert_eq!(second_piece(&chars("a::b"), &chars("::")).map(|p| text(&p)), Some("b".to_string()));
    assert_eq!(second_piece(&chars("ab"), &chars("::")), None);
}

#[test]
fn numbers_are_written_in_decimal() {
    assert_eq!(u64_to_string(0), "0");
    assert_eq!(u64_to_string(1234567890), "1234567890");
    assert_eq!(u64_to_string(u64::MAX), "18446744073709551615");
    assert_eq!(i64_to_string(-1), "-1");
    assert_eq!(i64_to_string(i64::MIN), "-9223372036854775808");
    assert_eq!(i64_to_string(42), "42");
}

#[test]
fn joining_puts_the_separator_between() {
    assert_eq!(join(&vec![], ", "), "");
    assert_eq!(join(&vec!["a".to_string()], ", "), "a");
    assert_eq!(join(&vec!["a".to_string(), "b".to_string(), "c".to_string()], ", "), "a, b, c");
}

#[test]
fn ordered_sets_keep_their_order() {
    let mut set: Vec<String> = Vec::new();
    for x in ["m", "b", "z", "b", "a", "ab"] {
        set_insert(&mut set, x);
    }
    assert_eq!(set, vec!["a", "ab", "b", "m", "z"]);
    assert!(has_text(&set, "ab"));
    assert!(set_remove(&mut set, "b"));
    assert!(!set_remove(&mut set, "b"));
    assert_eq!(set, vec!["a", "ab", "m", "z"]);
    assert!(str_lt("a", "ab"));
    assert!(str_lt("Z", "a"));
    assert!(!str_lt("b", "b"));
    assert!(!str_lt("b", "a"));
}

#[test]
fn file_names_keep_letters_digits_and_a_few_marks() {
    assert_eq!(sanitize_filename("Fix the bug in main.rs!"), "Fix_the_bug_in_mainrs");
    assert_eq!(sanitize_filename("  hello   world  "), "hello___world");
    assert_eq!(sanitize_filename("a-b_c/d"), "a-b_cd");
    assert_eq!(sanitize_filename(""), "");
    let long = "x".repeat(60);
    assert_eq!(sanitize_filename(&long), "x".repeat(50));
    assert_eq!(sanitize_filename("ünïcödé 123"), "ünïcödé_123");
}

#[test]
fn white_space_is_the_set_of_unicode() {
    let mut count = 0;
    for code in 0u32..=0x10FFFF {
        let c = match char::from_u32(code) {
            Some(c) => c,
            None => continue,
        };
        let listed = matches!(
            c,
            '\u{9}'..='\u{d}'
                | ' '
                | '\u{85}'
                | '\u{a0}'
                | '\u{1680}'
                | '\u{2000}'..='\u{200a}'
                | '\u{2028}'
                | '\u{2029}'
                | '\u{202f}'
                | '\u{205f}'
                | '\u{3000}'
        );
        assert_eq!(c.is_whitespace(), listed, "U+{:04X}", code);
        assert_eq!(grok_core::text::trim(&[c]).is_empty(), listed, "U+{:04X}", code);
        if listed {
            count += 1;
        }
    }
    assert_eq!(count, 25);
}
