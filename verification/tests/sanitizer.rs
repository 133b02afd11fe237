use text_to_speech_rs::sanitizer::{clean, replace, sanitize};
use text_to_speech_rs::text::{contains_text, find_first, str_equal, truncate};

#[test]
fn plain_text_is_kept() {
    assert_eq!(sanitize("hello world", 300), "hello world");
    assert_eq!(sanitize("", 300), "");
}

#[test]
fn web_addresses_become_a_word() {
    assert_eq!(sanitize("see https://example.com/a?b=c now", 300), "see URL now");
    assert_eq!(sanitize("http://a.b and https://c.d", 300), "URL and URL");
}

#[test]
fn custom_emoji_become_a_word() {
    assert_eq!(sanitize("nice <:thumbs:123456> work <a:party:42>", 300), "nice EMOJI work EMOJI");
}

#[test]
fn code_blocks_become_two_words() {
    assert_eq!(sanitize("look ```rust\nfn main() {}``` here", 300), "look code block here");
    assert_eq!(sanitize("```x```", 300), "code block");
}

#[test]
fn code_blocks_are_replaced_before_addresses() {
    assert_eq!(sanitize("```https://example.com```", 300), "code block");
}

#[test]
fn result_is_cut_to_the_limit_in_characters() {
    assert_eq!(sanitize("abcdef", 3), "abc");
    assert_eq!(sanitize("abc", 3), "abc");
    assert_eq!(sanitize("abc", 0), "");
    assert_eq!(sanitize("こんにちは世界", 5), "こんにちは");
    // The limit applies to what is read, not to what was written.
    assert_eq!(sanitize("https://example.com/very/long/address", 3), "URL");
}

#[test]
fn session_sanitizer_does_the_same() {
    assert_eq!(
        text_to_speech_rs::session::sanitizer::sanitize("go to https://x.y <:e:1>", 300),
        "go to URL EMOJI"
    );
    assert_eq!(text_to_speech_rs::session::sanitizer::sanitize("abcdef", 2), "ab");
}

#[test]
fn clean_does_not_cut() {
    let long = "a".repeat(1000);
    assert_eq!(clean(&long).len(), 1000);
}

#[test]
fn replace_with_a_refused_pattern_keeps_the_text() {
    assert_eq!(replace("(", "a(b".to_string(), "x"), "a(b");
    assert_eq!(replace("b+", "abbbc".to_string(), "x"), "axc");
}

#[test]
fn truncate_keeps_the_first_characters() {
    assert_eq!(truncate("héllo", 2), "hé");
    assert_eq!(truncate("héllo", 5), "héllo");
    assert_eq!(truncate("héllo", 9), "héllo");
    assert_eq!(truncate("", 0), "");
}

#[test]
fn find_first_counts_characters() {
    assert_eq!(find_first("en-US", '-'), Some(2));
    assert_eq!(find_first("日本-語-x", '-'), Some(2));
    assert_eq!(find_first("en", '-'), None);
    assert_eq!(find_first("", '-'), None);
    assert_eq!(find_first("-", '-'), Some(0));
}

#[test]
fn string_helpers_compare_by_content() {
    assert!(str_equal("abc", "abc"));
    assert!(!str_equal("abc", "abd"));
    assert!(!str_equal("abc", "ab"));
    assert!(str_equal("", ""));
    let list = vec!["a".to_string(), "b".to_string()];
    assert!(contains_text(&list, "b"));
    assert!(!contains_text(&list, "c"));
    assert!(!contains_text(&Vec::new(), ""));
}
