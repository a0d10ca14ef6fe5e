use plz_cli::text::{
    characters, decimal_text, is_whitespace, is_word, join_words, same_text, trim,
};

#[test]
fn whitespace_is_what_std_calls_whitespace() {
    let mut code: u32 = 0;
    while code <= 0x10FFFF {
        if let Some(c) = char::from_u32(code) {
            assert_eq!(is_whitespace(c), c.is_whitespace(), "U+{:04X}", code);
        }
        code += 1;
    }
}

#[test]
fn whitespace_edge_cases() {
    assert!(is_whitespace(' '));
    assert!(is_whitespace('\t'));
    assert!(is_whitespace('\n'));
    assert!(is_whitespace('\u{a0}'));
    assert!(is_whitespace('\u{3000}'));
    assert!(!is_whitespace('\u{200b}'));
    assert!(!is_whitespace('\u{8}'));
    assert!(!is_whitespace('\u{e}'));
    assert!(!is_whitespace('a'));
}

#[test]
fn trim_removes_white_space_at_both_ends_only() {
    assert_eq!(trim("  echo hi\n"), "echo hi");
    assert_eq!(trim("echo hi"), "echo hi");
    assert_eq!(trim("\t ls  -la \r\n"), "ls  -la");
    assert_eq!(trim(""), "");
    assert_eq!(trim(" \n\t "), "");
    assert_eq!(trim("x"), "x");
    assert_eq!(trim(" x"), "x");
    assert_eq!(trim("x "), "x");
}

#[test]
fn trim_agrees_with_std() {
    let samples = vec![
        "",
        " ",
        "a",
        "  a  b  ",
        "\u{a0}caf\u{e9}\u{2003}",
        "\u{3000}\u{65e5}\u{672c}\u{8a9e}\u{3000}",
        "\u{200b}kept\u{200b}",
        "\n\nfor f in *; do echo \"$f\"; done\n\n",
        "\u{1680}\u{2028}x\u{2029}\u{202f}\u{205f}",
        "\u{85}y\u{85}",
    ];
    for sample in samples {
        assert_eq!(trim(sample), sample.trim(), "{:?}", sample);
    }
}

#[test]
fn trim_is_idempotent_on_samples() {
    let samples = vec!["  a b  ", "\tx", "y\n", "", "   "];
    for sample in samples {
        let once = trim(sample);
        assert_eq!(trim(once), once);
        assert!(once.chars().next().map_or(true, |c| !is_whitespace(c)));
        assert!(once.chars().last().map_or(true, |c| !is_whitespace(c)));
    }
}

#[test]
fn characters_lists_each_character() {
    assert_eq!(characters(""), Vec::<char>::new());
    assert_eq!(characters("ab"), vec!['a', 'b']);
    assert_eq!(characters("h\u{e9}\u{65e5}"), vec!['h', '\u{e9}', '\u{65e5}']);
}

#[test]
fn same_text_compares_contents() {
    assert!(same_text("", ""));
    assert!(same_text("/bin/bash", "/bin/bash"));
    assert!(!same_text("/bin/bash", "/bin/zsh"));
    assert!(!same_text("a", "A"));
    assert!(!same_text("a", "ab"));
}

#[test]
fn is_word_ignores_ascii_case_only() {
    assert!(is_word("yes", "yes"));
    assert!(is_word("YES", "yes"));
    assert!(is_word("yEs", "yes"));
    assert!(is_word("N", "n"));
    assert!(is_word("", ""));
    assert!(!is_word("yess", "yes"));
    assert!(!is_word("ye", "yes"));
    assert!(!is_word("no", "yes"));
    assert!(!is_word("\u{212a}", "k"));
    assert!(!is_word("@", "`"));
    assert!(!is_word("[", "{"));
}

#[test]
fn decimal_text_writes_numbers() {
    assert_eq!(decimal_text(0), "0");
    assert_eq!(decimal_text(7), "7");
    assert_eq!(decimal_text(9), "9");
    assert_eq!(decimal_text(10), "10");
    assert_eq!(decimal_text(401), "401");
    assert_eq!(decimal_text(500), "500");
    assert_eq!(decimal_text(65535), "65535");
    assert_eq!(decimal_text(u64::MAX), "18446744073709551615");
}

#[test]
fn decimal_text_agrees_with_std() {
    let mut n: u64 = 0;
    while n < 2000 {
        assert_eq!(decimal_text(n), n.to_string());
        n += 1;
    }
}

#[test]
fn join_words_puts_one_space_between() {
    assert_eq!(join_words(&Vec::new()), "");
    assert_eq!(join_words(&vec![String::from("list")]), "list");
    assert_eq!(
        join_words(&vec![String::from("list"), String::from("all"), String::from("files")]),
        "list all files"
    );
    assert_eq!(join_words(&vec![String::from(""), String::from("")]), " ");
    assert_eq!(join_words(&vec![String::from("a b"), String::from("c")]), "a b c");
}
