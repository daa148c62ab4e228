use play_gram::utils::{
    extension_from_lookup, get_file_extension_from_mime_type, is_valid_username_pattern,
    line_at, read_tkanal_channels, read_tkanal_channels_rand, seconds_to_u32, time_now_sec,
};

#[test]
fn valid_username() {
    struct T(&'static str, bool);
    let arr = vec![
        T("absdef", true),
        T("absdef25", true),
        T("absef_sd", true),
        T("absdef_25", true),
        T("a", true),
        T("ABC25_tUlM_23t", true),
        T("12abcdef", true),
        T("abcdef_", true),
        T("_abcdef", true),
        T("_abcdef_", true),
        T("_", true),
        T("8abcdef", true),
        T("abf45sdef-12", false),
        T("ABC25-tUlM_23t-", false),
        T("abcd ef", false),
        T("@abcdef", false),
        T("abcd!ef", false),
        T("abcd-ef", false),
        T("abcd?ef", false),
        T("abcd/ef", false),
        T("abcd\\ef", false),
        T("abcdسef", false),
        T("", false),
        T(".", false),
    ];
    for i in arr {
        assert_eq!(is_valid_username_pattern(i.0), i.1, "{}", i.0);
    }
}

#[test]
fn username_dots() {
    assert!(is_valid_username_pattern("a.b.c"));
    assert!(!is_valid_username_pattern("a..b"));
    assert!(!is_valid_username_pattern(".ab"));
    assert!(!is_valid_username_pattern("ab."));
}

#[test]
fn test_mime_types() {
    assert_eq!(mime_db::extension("image/png").unwrap(), "png");
    assert_eq!(mime_db::extension("image/jpeg").unwrap(), "jpeg");
    assert_eq!(mime_db::extension("image/gif").unwrap(), "gif");
    assert_eq!(mime_db::extension("image/webp").unwrap(), "webp");
    assert_eq!(mime_db::extension("video/mp4").unwrap(), "mp4");
    assert_eq!(mime_db::extension("audio/midi").unwrap(), "mid"); // midi
    assert_eq!(mime_db::extension("audio/mpeg").unwrap(), "mpga"); // mp3
    assert_eq!(mime_db::extension("audio/ogg").unwrap(), "oga"); //
    assert_eq!(mime_db::extension("video/quicktime").unwrap(), "qt"); // mov
}

#[test]
fn extension_preferred_over_table() {
    assert_eq!(get_file_extension_from_mime_type("image/jpeg"), ".jpg");
    assert_eq!(get_file_extension_from_mime_type("audio/mpeg"), ".mp3");
    assert_eq!(get_file_extension_from_mime_type("audio/midi"), ".midi");
    assert_eq!(get_file_extension_from_mime_type("audio/ogg"), ".ogg");
    assert_eq!(get_file_extension_from_mime_type("text/x-pascal"), ".pas");
    assert_eq!(get_file_extension_from_mime_type("text/x-asm"), ".asm");
    assert_eq!(get_file_extension_from_mime_type("video/quicktime"), ".mov");
}

#[test]
fn extension_from_table() {
    assert_eq!(get_file_extension_from_mime_type("image/png"), ".png");
    assert_eq!(get_file_extension_from_mime_type("video/mp4"), ".mp4");
    assert_eq!(get_file_extension_from_mime_type("image/gif"), ".gif");
}

#[test]
fn extension_unknown() {
    assert_eq!(get_file_extension_from_mime_type("application/x-no-such-type"), ".unk");
    assert_eq!(get_file_extension_from_mime_type(""), ".unk");
}

#[test]
fn extension_after_lookup() {
    assert_eq!(extension_from_lookup("image/png", Some("png".to_string())), ".png");
    assert_eq!(extension_from_lookup("x/y", None), ".unk");
    assert_eq!(extension_from_lookup("image/jpeg", Some("jpeg".to_string())), ".jpg");
}

#[test]
fn seconds_truncated() {
    assert_eq!(seconds_to_u32(Some(5)), Some(5));
    assert_eq!(seconds_to_u32(Some((1u64 << 32) + 7)), Some(7));
    assert_eq!(seconds_to_u32(None), None);
}

#[test]
fn clock_reads_after_2020() {
    assert!(time_now_sec().unwrap() > 1_600_000_000);
}

#[test]
fn channels_one_per_line() {
    assert_eq!(read_tkanal_channels("a\nb\n"), vec!["a", "b", ""]);
    assert_eq!(read_tkanal_channels(""), vec![""]);
    assert_eq!(read_tkanal_channels("one"), vec!["one"]);
}

#[test]
fn channels_rejoin_to_text() {
    let text = "alpha\n\nbeta\ngamma\n";
    assert_eq!(read_tkanal_channels(text).join("\n"), text);
}

#[test]
fn random_channel_is_a_line() {
    for _ in 0..50 {
        let c = read_tkanal_channels_rand("x\ny\nz");
        assert!(c == "x" || c == "y" || c == "z");
    }
    assert_eq!(read_tkanal_channels_rand("only"), "only");
}

#[test]
fn line_at_picks_the_indexed_line() {
    assert_eq!(line_at("x\ny\nz", 0), "x");
    assert_eq!(line_at("x\ny\nz", 1), "y");
    assert_eq!(line_at("x\ny\nz", 2), "z");
    assert_eq!(line_at("a\n", 1), "");
}

#[test]
fn extensions_are_a_dot_and_more() {
    for mt in ["image/png", "image/jpeg", "text/x-asm", "", "no/such", "application/json"] {
        let e = get_file_extension_from_mime_type(mt);
        assert!(e.starts_with('.') && e.len() >= 2, "{}", e);
    }
}

#[test]
fn usernames_compose() {
    for (a, b) in [("abc", "d_e"), ("x1", "_"), ("a.b", "c")] {
        assert!(is_valid_username_pattern(&format!("{}.{}", a, b)));
        assert!(is_valid_username_pattern(&format!("{}{}", a, b)));
        assert!(is_valid_username_pattern(&format!("_{}_", a)));
        assert!(!is_valid_username_pattern(&format!("{}..{}", a, b)));
    }
}
