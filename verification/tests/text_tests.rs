use deploy_tool::text::{is_blank, join_lines_with_commas, same_text, stem_of, trim};

#[test]
fn trim_removes_white_space_at_both_ends_only() {
    assert_eq!(trim("  12 34 \n"), "12 34");
    assert_eq!(trim("\t\r\n x"), "x");
    assert_eq!(trim("x"), "x");
    assert_eq!(trim(""), "");
    assert_eq!(trim(" \n\t "), "");
    assert_eq!(trim("123\n456\n"), "123\n456");
}

#[test]
fn trim_agrees_with_the_standard_library() {
    let samples = [
        "", " ", "a", " a", "a ", "\u{85}a\u{a0}", "\u{1680}x\u{2000}", "\u{2005}\u{200a}y\u{2028}\u{2029}",
        "\u{202f}z\u{205f}\u{3000}", "\u{200b}q\u{200b}", "\u{feff}w", "\u{1c}e\u{1f}", "\u{b}\u{c}r",
        "é \u{3000}", " 进程 ",
    ];
    for s in samples {
        assert_eq!(trim(s), s.trim(), "for {:?}", s);
        assert_eq!(is_blank(s), s.trim().is_empty(), "for {:?}", s);
    }
}

#[test]
fn same_text_compares_character_by_character() {
    assert!(same_text("exists", "exists"));
    assert!(!same_text("exists", "exist"));
    assert!(!same_text("exists", "not exists"));
    assert!(same_text("", ""));
    assert!(!same_text("a", "b"));
}

#[test]
fn join_lines_with_commas_replaces_every_line_feed() {
    assert_eq!(join_lines_with_commas("123\n456"), "123,456");
    assert_eq!(join_lines_with_commas("1\n2\n3"), "1,2,3");
    assert_eq!(join_lines_with_commas("77"), "77");
    assert_eq!(join_lines_with_commas(""), "");
    assert_eq!(join_lines_with_commas("\n"), ",");
    assert_eq!(join_lines_with_commas("é\nü"), "é,ü");
}

#[test]
fn stem_of_is_the_part_before_the_first_full_stop() {
    assert_eq!(stem_of("admin.jar"), "admin");
    assert_eq!(stem_of("a.b.c"), "a");
    assert_eq!(stem_of("plain"), "plain");
    assert_eq!(stem_of(".hidden"), "");
    assert_eq!(stem_of(""), "");
}
