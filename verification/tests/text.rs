use vm_remoting_mcp::text::{
    append_decimal, append_padded, append_signed_decimal, blank, join, trim_end,
    trim_end_newlines, white_space,
};

#[test]
fn white_space_is_that_of_unicode() {
    for c in '\0'..=char::MAX {
        assert_eq!(white_space(c), c.is_whitespace(), "{c:?}");
    }
}

#[test]
fn blankness_and_trimming_agree_with_std() {
    for s in ["", " ", "\n", "a", " a ", "a\n\n", "\t\u{2003}", "a \n b \n \n", "\u{e9}\u{85}"] {
        assert_eq!(blank(s), s.trim().is_empty());
        assert_eq!(trim_end(s), s.trim_end());
        assert_eq!(trim_end_newlines(s), s.trim_end_matches('\n'));
    }
}

#[test]
fn trimming_stops_at_the_last_visible_character() {
    assert_eq!(trim_end("  a b \n\t "), "  a b");
    assert_eq!(trim_end("left \n") , "left");
}

#[test]
fn padding_fills_up_to_the_width() {
    for (s, width) in [("", 0), ("", 3), ("ab", 1), ("ab", 2), ("ab", 5), ("\u{e9}", 3)] {
        let mut out = "x".to_string();
        append_padded(&mut out, s, width);
        assert_eq!(out, format!("x{s:<width$}"));
    }
}

#[test]
fn joining_puts_separators_between() {
    let pieces = ["a".to_string(), "".to_string(), "c".to_string()];
    assert_eq!(join(&vec![], ", "), "");
    assert_eq!(join(&vec![&pieces[0]], ", "), "a");
    assert_eq!(join(&vec![&pieces[0], &pieces[1], &pieces[2]], ", "), "a, , c");
}

#[test]
fn numbers_are_written_in_decimal() {
    for n in [0u64, 7, 10, 42, 100, 65535, u64::MAX] {
        let mut out = "n=".to_string();
        append_decimal(&mut out, n);
        assert_eq!(out, format!("n={n}"));
    }
    for n in [0i32, -1, 1, -10, 99, i32::MAX, i32::MIN] {
        let mut out = String::new();
        append_signed_decimal(&mut out, n);
        assert_eq!(out, n.to_string());
    }
}
