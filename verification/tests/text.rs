use aivchat::text::{
    byte_length, chars_of, decimal, eq_ignore_ascii_case, find_from, join,
    last_position_ignore_ascii_case, position, position_ignore_ascii_case, stands_at,
    substring_between, text_eq,
};

fn strings(items: &[&str]) -> Vec<String> {
    items.iter().map(|s| s.to_string()).collect()
}

#[test]
fn substring_between_code_fence() {
    assert_eq!(substring_between("a```b```c", "```"), Some("b"));
}

#[test]
fn substring_between_takes_the_first_pair() {
    assert_eq!(substring_between("x|one|two|three|", "|"), Some("one"));
}

#[test]
fn substring_between_empty_delimiter_is_none() {
    assert_eq!(substring_between("abc", ""), None);
    assert_eq!(substring_between("", ""), None);
}

#[test]
fn substring_between_needs_two_delimiters() {
    assert_eq!(substring_between("no fence here", "```"), None);
    assert_eq!(substring_between("one ``` only", "```"), None);
    assert_eq!(substring_between("", "```"), None);
}

#[test]
fn substring_between_adjacent_delimiters_give_empty_text() {
    assert_eq!(substring_between("``````", "```"), Some(""));
}

#[test]
fn substring_between_does_not_reuse_the_first_delimiter() {
    // the second search starts after the whole first delimiter
    assert_eq!(substring_between("aaa", "aa"), None);
    assert_eq!(substring_between("aaaa", "aa"), Some(""));
    assert_eq!(substring_between("aabaa", "aa"), Some("b"));
}

#[test]
fn substring_between_handles_text_outside_ascii() {
    assert_eq!(substring_between("zażółć «gęślą» jaźń «x»", "«"), Some("gęślą» jaźń "));
    assert_eq!(substring_between("。你好。世界。", "。"), Some("你好"));
}

#[test]
fn substring_between_multiline_code_block() {
    let response = "Here you go:\n```\nfn main() {}\n```\nDone.";
    assert_eq!(substring_between(response, "```"), Some("\nfn main() {}\n"));
}

#[test]
fn chars_of_lists_characters() {
    assert_eq!(chars_of("aé。"), vec!['a', 'é', '。']);
    assert_eq!(chars_of(""), Vec::<char>::new());
}

#[test]
fn stands_at_compares_in_place() {
    let hay = chars_of("hello");
    assert!(stands_at(&hay, &chars_of("ll"), 2));
    assert!(!stands_at(&hay, &chars_of("ll"), 1));
    assert!(stands_at(&hay, &chars_of(""), 5));
    assert!(!stands_at(&hay, &chars_of(""), 6));
    assert!(!stands_at(&hay, &chars_of("lo"), 4));
    assert!(!stands_at(&hay, &chars_of("hello!"), 0));
    assert!(!stands_at(&hay, &chars_of("h"), usize::MAX));
}

#[test]
fn find_from_finds_leftmost_from_start() {
    let hay = chars_of("abcabc");
    let needle = chars_of("bc");
    assert_eq!(find_from(&hay, &needle, 0), Some(1));
    assert_eq!(find_from(&hay, &needle, 1), Some(1));
    assert_eq!(find_from(&hay, &needle, 2), Some(4));
    assert_eq!(find_from(&hay, &needle, 5), None);
    assert_eq!(find_from(&hay, &needle, 100), None);
    assert_eq!(find_from(&hay, &chars_of("abcabcd"), 0), None);
    assert_eq!(find_from(&hay, &chars_of(""), 6), Some(6));
}

#[test]
fn text_eq_is_equality_of_characters() {
    assert!(text_eq("", ""));
    assert!(text_eq("。", "\u{3002}"));
    assert!(!text_eq(".", "。"));
    assert!(!text_eq("abc", "abd"));
    assert!(!text_eq("abc", "ab"));
}

#[test]
fn eq_ignore_ascii_case_folds_ascii_letters_only() {
    assert!(eq_ignore_ascii_case("Elevenlabs", "ELEVENLABS"));
    assert!(eq_ignore_ascii_case("", ""));
    assert!(!eq_ignore_ascii_case("é", "É"));
    assert!(!eq_ignore_ascii_case("abc", "abcd"));
    assert!(!eq_ignore_ascii_case("@", "`"));
    assert!(!eq_ignore_ascii_case("[", "{"));
    assert_eq!(eq_ignore_ascii_case("Mic 1", "mic 1"), "Mic 1".eq_ignore_ascii_case("mic 1"));
}

#[test]
fn join_puts_separator_between_neighbours() {
    assert_eq!(join(&strings(&["Hello", "world", "."]), " "), "Hello world .");
    assert_eq!(join(&strings(&["a"]), ", "), "a");
    assert_eq!(join(&strings(&[]), ", "), "");
    assert_eq!(join(&strings(&["a", "", "b"]), "-"), "a--b");
    assert_eq!(join(&strings(&["x", "y"]), ""), "xy");
}

#[test]
fn position_finds_first_equal_entry() {
    let names = strings(&["mic", "Mic", "line", "mic"]);
    assert_eq!(position(&names, "mic"), Some(0));
    assert_eq!(position(&names, "Mic"), Some(1));
    assert_eq!(position(&names, "MIC"), None);
    assert_eq!(position(&strings(&[]), "mic"), None);
}

#[test]
fn position_ignore_ascii_case_finds_first_and_last() {
    let names = strings(&["line", "mic", "MIC", "usb"]);
    assert_eq!(position_ignore_ascii_case(&names, "Mic"), Some(1));
    assert_eq!(last_position_ignore_ascii_case(&names, "Mic"), Some(2));
    assert_eq!(position_ignore_ascii_case(&names, "none"), None);
    assert_eq!(last_position_ignore_ascii_case(&names, "none"), None);
}

#[test]
fn decimal_writes_numerals() {
    assert_eq!(decimal(0), "0");
    assert_eq!(decimal(7), "7");
    assert_eq!(decimal(10), "10");
    assert_eq!(decimal(16), "16");
    assert_eq!(decimal(4294967295), "4294967295");
    assert_eq!(decimal(1234567890), format!("{}", 1234567890u32));
}

#[test]
fn byte_length_counts_encoded_bytes() {
    assert_eq!(byte_length("Hello"), 5);
    assert_eq!(byte_length("。"), 3);
    assert_eq!(byte_length(""), 0);
}
