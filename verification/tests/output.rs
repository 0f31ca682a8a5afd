use vm_remoting_mcp::output::{render_output, render_streams};

#[test]
fn render_output_success() {
    let r = render_output("uname -a", "ubuntu", b"hello\n", b"", Some(0));
    assert!(!r.is_error);
    let text = r.text;
    // Header echoes the command and target so the UI shows what produced the output.
    assert!(text.starts_with("ubuntu$ uname -a"), "got {text:?}");
    assert!(text.contains("hello"));
    assert!(text.contains("[exit code: 0]"));
    assert!(!text.contains("[stderr]"));
}

#[test]
fn render_output_nonzero_is_error_with_stderr() {
    let r = render_output("do-thing", "winvm", b"out", b"boom", Some(3));
    assert!(r.is_error);
    let text = r.text;
    assert!(text.starts_with("winvm$ do-thing"), "got {text:?}");
    assert!(text.contains("out"));
    assert!(text.contains("[stderr]"));
    assert!(text.contains("boom"));
    assert!(text.contains("[exit code: 3]"));
}

#[test]
fn render_output_empty_uses_placeholder() {
    let r = render_output("noop", "ubuntu", b"", b"", Some(0));
    assert!(r.text.contains("(no output)"));
}

#[test]
fn render_output_no_exit_code_is_error() {
    let r = render_output("crash", "ubuntu", b"", b"", None);
    assert!(r.is_error);
    assert!(r.text.contains("terminated without an exit code"));
}

#[test]
fn report_is_header_output_and_exit_line() {
    let r = render_output("cmd", "t", b"out\n\n", b"err\n", Some(1));
    assert_eq!(
        r.text,
        "t$ cmd\n\nout\n[stderr]\nerr\n\n[exit code: 1]"
    );
}

#[test]
fn report_of_standard_error_alone() {
    let r = render_output("cmd", "t", b" \n", b"err", Some(0));
    assert_eq!(r.text, "t$ cmd\n\n[stderr]\nerr\n\n[exit code: 0]");
    assert!(!r.is_error);
}

#[test]
fn blank_streams_count_as_empty() {
    for blank in ["", "\n", " \t\r\n", "\u{a0}\u{2028}\u{3000}"] {
        let r = render_streams("c", "t", blank, blank, Some(0));
        assert_eq!(r.text, "t$ c\n\n(no output)\n\n[exit code: 0]");
        assert_eq!(
            render_streams("c", "t", "x", blank, Some(0)).text,
            "t$ c\n\nx\n\n[exit code: 0]"
        );
    }
}

#[test]
fn only_newlines_are_trimmed_from_output() {
    let r = render_streams("c", "t", "  a \t\r\n\n", "", Some(0));
    assert_eq!(r.text, "t$ c\n\n  a \t\r\n\n[exit code: 0]");
}

#[test]
fn a_final_newline_changes_nothing() {
    let without = render_streams("c", "t", "a", "b", Some(0));
    assert_eq!(render_streams("c", "t", "a\n", "b", Some(0)), without);
    assert_eq!(render_streams("c", "t", "a", "b\n", Some(0)), without);
}

#[test]
fn exit_codes_are_told_apart() {
    for code in [0, 1, -1, 9, 10, -10, 127, 255, i32::MAX, i32::MIN] {
        let r = render_streams("c", "t", "", "", Some(code));
        assert!(r.text.ends_with(&format!("\n\n[exit code: {code}]")));
        assert_eq!(r.is_error, code != 0);
    }
    let r = render_streams("c", "t", "", "", None);
    assert!(r.text.ends_with("\n\n[terminated without an exit code]"));
}

#[test]
fn output_is_decoded_as_utf8() {
    let r = render_output("c", "t", "gr\u{fc}\u{df}e \u{1f600}".as_bytes(), b"", Some(0));
    assert_eq!(r.text, "t$ c\n\ngr\u{fc}\u{df}e \u{1f600}\n\n[exit code: 0]");
}

#[test]
fn invalid_bytes_become_replacement_characters() {
    let r = render_output("c", "t", b"a\xffb", b"\xe2\x82", Some(0));
    assert_eq!(
        r.text,
        "t$ c\n\na\u{fffd}b\n[stderr]\n\u{fffd}\n\n[exit code: 0]"
    );
}
