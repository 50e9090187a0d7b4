use promptis::text::{char_is_space, chars_of, trim};

#[test]
fn trim_removes_whitespace_at_both_ends() {
    assert_eq!(trim("  hello \n"), "hello");
    assert_eq!(trim("hello\r\n"), "hello");
    assert_eq!(trim("\t42"), "42");
}

#[test]
fn trim_keeps_inner_whitespace() {
    assert_eq!(trim("  a b\tc  "), "a b\tc");
}

#[test]
fn trim_of_blank_text_is_empty() {
    assert_eq!(trim(""), "");
    assert_eq!(trim(" \t\r\n"), "");
    assert_eq!(trim("\u{3000}\u{2028}"), "");
}

#[test]
fn trim_leaves_trimmed_text_alone() {
    assert_eq!(trim("x"), "x");
    assert_eq!(trim("quit"), "quit");
    assert_eq!(trim(trim("  twice  ")), "twice");
}

#[test]
fn trim_handles_text_beyond_ascii() {
    assert_eq!(trim("\u{a0}été\u{2003}"), "été");
    assert_eq!(trim(" 日本語\n"), "日本語");
    // U+200B and U+180E are no whitespace.
    assert_eq!(trim("\u{200b}a\u{180e}"), "\u{200b}a\u{180e}");
}

#[test]
fn trim_agrees_with_std() {
    let samples = [
        "",
        " ",
        "a",
        " a",
        "a ",
        " a ",
        "\n",
        "a\n",
        "  a  b  \r\n",
        "\u{85}x\u{85}",
        "\u{1680}x\u{205f}",
        "\u{feff}x",
        "\u{1c}\u{1d}\u{1e}\u{1f}x",
        "x\u{0b}\u{0c}",
    ];
    for s in samples {
        assert_eq!(trim(s), s.trim(), "on {:?}", s);
    }
}

#[test]
fn char_is_space_agrees_with_std_on_every_char() {
    let mut n: u32 = 0;
    while n <= 0x10FFFF {
        if let Some(c) = char::from_u32(n) {
            assert_eq!(char_is_space(c), c.is_whitespace(), "on U+{:04X}", n);
        }
        n += 1;
    }
}

#[test]
fn chars_of_lists_the_characters() {
    assert_eq!(chars_of("aé日"), vec!['a', 'é', '日']);
    assert_eq!(chars_of(""), Vec::<char>::new());
}
