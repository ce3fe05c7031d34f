use yetii::text::{
    count_tokens, decimal_string, dotted_path, indexed_path, is_blank, is_white_space, same_text,
    trim,
};

#[test]
fn white_space_is_what_std_calls_white_space() {
    let mut code: u32 = 0;
    let mut seen = 0;
    while code <= 0x10FFFF {
        if let Some(c) = char::from_u32(code) {
            assert_eq!(is_white_space(c), c.is_whitespace(), "code point {:#x}", code);
            if is_white_space(c) {
                seen += 1;
            }
        }
        code += 1;
    }
    assert_eq!(seen, 25);
}

#[test]
fn blank_is_what_trims_to_nothing() {
    let samples = [
        "",
        " ",
        "\t\n\r",
        "\u{a0}\u{2003}\u{3000}",
        "a",
        " a",
        "a ",
        " \u{200b} ",
        "  select 1  ",
        "\u{feff}",
    ];
    for s in samples {
        assert_eq!(is_blank(s), s.trim().is_empty(), "sample {:?}", s);
    }
    assert!(is_blank(""));
    assert!(is_blank(" \t "));
    assert!(!is_blank(" x "));
}

#[test]
fn tokens_are_counted_as_split_whitespace_counts_them() {
    let samples = [
        "",
        " ",
        "a",
        " a ",
        "a b",
        "a  b",
        "0 */6 * * *",
        "0 0 */6 * * *",
        "  0\t0\n*/6 * * *  ",
        "* * * *",
        "* * * * * * *",
        "a\u{a0}b\u{3000}c",
    ];
    for s in samples {
        assert_eq!(count_tokens(s), s.split_whitespace().count(), "sample {:?}", s);
    }
    assert_eq!(count_tokens("0 */6 * * *"), 5);
    assert_eq!(count_tokens("0 0 */6 * * *"), 6);
    assert_eq!(count_tokens(""), 0);
}

#[test]
fn decimal_is_what_display_prints() {
    let samples = [0u64, 1, 9, 10, 11, 99, 100, 101, 4096, 65535, 65536, 4294967295, u64::MAX];
    for n in samples {
        assert_eq!(decimal_string(n), n.to_string());
    }
    assert_eq!(decimal_string(0), "0");
    assert_eq!(decimal_string(120), "120");
}

#[test]
fn same_text_compares_whole_texts() {
    assert!(same_text("", ""));
    assert!(same_text("json", "json"));
    assert!(!same_text("json", "jso"));
    assert!(!same_text("jso", "json"));
    assert!(!same_text("json", "jsoN"));
    assert!(!same_text("", "a"));
    assert!(same_text("ü\u{1f600}", "ü\u{1f600}"));
}

#[test]
fn paths_are_joined_with_dots_and_brackets() {
    assert_eq!(dotted_path("database", "port"), "database.port");
    assert_eq!(dotted_path("", ""), ".");
    assert_eq!(indexed_path("queries", 0), "queries[0]");
    assert_eq!(indexed_path("queries", 12), "queries[12]");
    assert_eq!(dotted_path(&indexed_path("queries", 3), "name"), "queries[3].name");
}

#[test]
fn trimming_is_what_std_trims() {
    let samples = [
        "",
        " ",
        "\t\n\r ",
        "a",
        " a",
        "a ",
        "  a b  ",
        "\u{a0}yes\u{3000}",
        "\u{200b} x \u{200b}",
        "ünïcödé \n",
        " \u{1f600} ",
    ];
    for s in samples {
        assert_eq!(trim(s), s.trim(), "sample {:?}", s);
    }
    assert_eq!(trim("  yes \n"), "yes");
    assert_eq!(trim(" \t "), "");
}
