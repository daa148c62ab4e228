use play_gram::db::{
    load_all_cached_usernames, load_all_channels, queue_username_entry, save_file, save_message,
};
use play_gram::text::{chars_equal, chars_of, split_lines, str_equals, string_from_chars, trim_chars};

#[test]
fn trims_unicode_white_space() {
    let v = chars_of("\u{3000} \tab c\u{85}\n");
    assert_eq!(string_from_chars(&trim_chars(&v)), "ab c");
    assert!(trim_chars(&chars_of("   ")).is_empty());
}

#[test]
fn trim_twice_is_trim_once() {
    let once = trim_chars(&chars_of("  x y  "));
    assert_eq!(trim_chars(&once), once);
}

#[test]
fn equality_of_texts() {
    assert!(str_equals("abc", "abc"));
    assert!(!str_equals("abc", "abd"));
    assert!(!str_equals("ab", "abc"));
    assert!(chars_equal(&chars_of(""), &vec![]));
}

#[test]
fn split_keeps_empty_pieces() {
    assert_eq!(split_lines("\n\n"), vec!["", "", ""]);
}

#[test]
fn queue_entry_trims() {
    assert_eq!(queue_username_entry("  abc \n"), Some("abc".to_string()));
    assert_eq!(queue_username_entry("abc"), Some("abc".to_string()));
}

#[test]
fn queue_entry_refuses_empty_and_non_ascii() {
    assert_eq!(queue_username_entry("   "), None);
    assert_eq!(queue_username_entry(""), None);
    assert_eq!(queue_username_entry(" abسd "), None);
}

#[test]
fn queue_entry_is_stable() {
    let e = queue_username_entry("\t name_1 ").unwrap();
    assert_eq!(queue_username_entry(&e), Some(e.clone()));
}

#[test]
fn storage_stubs_do_nothing() {
    load_all_channels();
    save_message();
    save_file();
    load_all_cached_usernames();
}
