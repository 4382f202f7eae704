use mangetsu::text::{
    decimal, decimal_of, extension, file_name, from_chars, parse_digits, remove_all, str_eq,
    to_chars, trim,
};

#[test]
fn chars_round_trip() {
    let chars = to_chars("héllo");
    assert_eq!(chars, vec!['h', 'é', 'l', 'l', 'o']);
    assert_eq!(from_chars(&chars), "héllo");
    assert_eq!(from_chars(&to_chars("")), "");
}

#[test]
fn trim_removes_white_space_at_both_ends() {
    assert_eq!(trim("  a b \t\n"), "a b");
    assert_eq!(trim("a"), "a");
    assert_eq!(trim(""), "");
    assert_eq!(trim(" \u{3000}\u{a0} "), "");
    assert_eq!(trim("\u{2003}x\u{2028}"), "x");
    assert_eq!(trim("\u{200b}x"), "\u{200b}x");
}

#[test]
fn trim_agrees_with_the_standard_library() {
    for text in ["  x ", "\u{85}y\u{1680}", "\u{feff}z", "\u{1c}q\u{1f}", "a\u{205f}"] {
        assert_eq!(trim(text), text.trim());
    }
}

#[test]
fn remove_all_takes_every_occurrence_out() {
    assert_eq!(remove_all("Some Title Chapter 2", "Some Title"), " Chapter 2");
    assert_eq!(remove_all("abcabc", "bc"), "aa");
    assert_eq!(remove_all("aaa", "aa"), "a");
    assert_eq!(remove_all("abc", ""), "abc");
    assert_eq!(remove_all("abc", "abcd"), "abc");
    assert_eq!(remove_all("", "a"), "");
    assert_eq!(remove_all("xyz", "xyz"), "");
}

#[test]
fn remove_all_agrees_with_the_standard_library() {
    for (text, phrase) in [("ababa", "aba"), ("mississippi", "ss"), ("aaaa", "a"), ("abc", "c")] {
        assert_eq!(remove_all(text, phrase), text.replace(phrase, ""));
    }
}

#[test]
fn parse_digits_reads_the_digits_and_passes_over_the_rest() {
    assert_eq!(parse_digits("https://manganato.com/genre-all/1234"), Some(1234));
    assert_eq!(parse_digits("a1b2c3"), Some(123));
    assert_eq!(parse_digits("007"), Some(7));
    assert_eq!(parse_digits("0"), Some(0));
    assert_eq!(parse_digits("no digits"), None);
    assert_eq!(parse_digits(""), None);
}

#[test]
fn parse_digits_stops_at_the_largest_number() {
    assert_eq!(parse_digits("2147483647"), Some(2147483647));
    assert_eq!(parse_digits("2147483648"), None);
    assert_eq!(parse_digits("99999999999999999999999999"), None);
}

#[test]
fn decimal_writes_numbers_in_base_ten() {
    assert_eq!(decimal(0), "0");
    assert_eq!(decimal(7), "7");
    assert_eq!(decimal(10), "10");
    assert_eq!(decimal(1234), "1234");
    assert_eq!(decimal(-5), "-5");
    assert_eq!(decimal(i32::MAX), "2147483647");
    assert_eq!(decimal(i32::MIN), "-2147483648");
    assert_eq!(decimal_of(0), "0");
    assert_eq!(decimal_of(u64::MAX), "18446744073709551615");
}

#[test]
fn file_name_is_the_last_part_of_the_address() {
    assert_eq!(file_name("https://img.example/a/b/1.jpg"), Some("1.jpg".to_string()));
    assert_eq!(file_name("1.jpg"), Some("1.jpg".to_string()));
    assert_eq!(file_name("a/b/"), Some("b".to_string()));
    assert_eq!(file_name("a/b//./"), Some("b".to_string()));
    assert_eq!(file_name("a/b/."), Some("b".to_string()));
    assert_eq!(file_name("a/b."), Some("b.".to_string()));
    assert_eq!(file_name("a/..."), Some("...".to_string()));
}

#[test]
fn some_addresses_end_with_no_file_name() {
    for address in ["", "/", "//", ".", "./", "./.", "/.", "..", "a/..", "a/../", "a/.././"] {
        assert_eq!(file_name(address), None);
        assert_eq!(extension(address), None);
    }
}

#[test]
fn extension_is_what_follows_the_last_dot_of_the_file_name() {
    assert_eq!(extension("https://img.example/a/b/1.jpg"), Some("jpg".to_string()));
    assert_eq!(extension("https://img.example/a.b/c.tar.gz"), Some("gz".to_string()));
    assert_eq!(extension("https://img.example/a.b/c"), None);
    assert_eq!(extension("a/.hidden"), None);
    assert_eq!(extension("a/.hidden.png"), Some("png".to_string()));
    assert_eq!(extension("a/name."), Some("".to_string()));
    assert_eq!(extension("a/1.jpg/"), Some("jpg".to_string()));
    assert_eq!(extension("a/..."), Some("".to_string()));
    assert_eq!(extension(""), None);
}

#[test]
fn file_names_agree_with_paths_where_the_separator_is_a_slash() {
    if std::path::MAIN_SEPARATOR != '/' {
        return;
    }
    let addresses = [
        "", "/", ".", "..", "...", "a", "a/", "a//", "a/.", "a/./", "a/..", "a/../", "./a", "../a",
        "/a/b.c", "a.b/c", "a.b/c.d.e", ".x", ".x.y", "x.", "a/b/./.", "/.", "/..", "a/.b", "a/b.",
        "https://img.example.com/aa1/1/1.jpg", "https://img.example.com/aa1/1/1.jpg?x=1.5",
        "https://img.example.com/", "a/. /", "a/ .", "./.", ".//", "..//",
    ];
    for address in addresses {
        let path = std::path::Path::new(address);
        assert_eq!(
            file_name(address),
            path.file_name().map(|name| name.to_str().unwrap().to_string())
        );
        assert_eq!(
            extension(address),
            path.extension().map(|name| name.to_str().unwrap().to_string())
        );
    }
}

#[test]
fn str_eq_compares_by_characters() {
    assert!(str_eq("image/png", "image/png"));
    assert!(!str_eq("image/png", "image/pn"));
    assert!(!str_eq("image/png", "image/pnG"));
    assert!(str_eq("", ""));
}
