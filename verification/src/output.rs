//! How the outcome of a command is reported.

use crate::text::{
    append_signed_decimal, blank, final_newlines_alone_are_dropped, is_blank, is_white_space, signed_decimal,
    signed_decimal_tells_the_number, trim_end_newlines, without_final_newlines,
};
use vstd::prelude::*;
use vstd::string::StringExecFns;
use vstd::utf8::{decode_utf8, valid_utf8};

verus! {

/// The answer to a tool call: one text, and whether it reports a failure.
#[derive(Debug, PartialEq, Eq)]
pub struct ToolResult {
    pub text: String,
    pub is_error: bool,
}

/// What a [`ToolResult`] says.
pub struct ResultView {
    pub text: Seq<char>,
    pub is_error: bool,
}

impl View for ToolResult {
    type V = ResultView;

    open spec fn view(&self) -> ResultView {
        ResultView { text: self.text@, is_error: self.is_error }
    }
}

/// What `String::from_utf8_lossy` makes of `bytes`.
pub uninterp spec fn utf8_lossy(bytes: Seq<u8>) -> Seq<char>;

/// `String::from_utf8_lossy`: valid UTF-8 is decoded as it is, and in anything else each invalid
/// part is replaced by U+FFFD. How the bytes are split into invalid parts is left to the name
/// `utf8_lossy`.
#[verifier::external_body]
fn lossy_text(bytes: &[u8]) -> (res: String)
    ensures
        res@ == utf8_lossy(bytes@),
        valid_utf8(bytes@) ==> res@ == decode_utf8(bytes@),
        !valid_utf8(bytes@) ==> res@.contains('\u{fffd}'),
{
    String::from_utf8_lossy(bytes).into_owned()
}

/// Standard output and standard error as one text. A blank stream is left out, the error stream
/// is introduced by a line of its own, and newlines at the end of a stream are dropped.
pub open spec fn combined(stdout: Seq<char>, stderr: Seq<char>) -> Seq<char> {
    if is_blank(stdout) && is_blank(stderr) {
        "(no output)"@
    } else if is_blank(stderr) {
        without_final_newlines(stdout)
    } else if is_blank(stdout) {
        "[stderr]\n"@ + without_final_newlines(stderr)
    } else {
        without_final_newlines(stdout) + "\n"@ + "[stderr]\n"@ + without_final_newlines(stderr)
    }
}

/// The line that tells how the process ended.
pub open spec fn exit_line(code: Option<i32>) -> Seq<char> {
    match code {
        Some(c) => "[exit code: "@ + signed_decimal(c as int) + "]"@,
        None => "[terminated without an exit code]"@,
    }
}

/// The line that tells what ran where; it reads like a shell prompt.
pub open spec fn header(target: Seq<char>, command: Seq<char>) -> Seq<char> {
    target + "$ "@ + command
}

/// The report on a finished command: header, combined output and exit line, with an empty line
/// between neighbours. Anything but exit code 0 is a failure.
pub open spec fn rendered(
    command: Seq<char>,
    target: Seq<char>,
    stdout: Seq<char>,
    stderr: Seq<char>,
    code: Option<i32>,
) -> ResultView {
    ResultView {
        text: header(target, command) + "\n\n"@ + combined(stdout, stderr) + "\n\n"@ + exit_line(
            code,
        ),
        is_error: code != Some(0i32),
    }
}

/// Text that is not blank is not made of newlines alone.
proof fn lemma_trimmed_not_empty(s: Seq<char>)
    requires
        !is_blank(s),
    ensures
        without_final_newlines(s).len() > 0,
    decreases s.len(),
{
    if s.len() > 0 && s.last() == '\n' {
        let i = choose|i: int| 0 <= i < s.len() && !is_white_space(#[trigger] s[i]);
        assert(s.drop_last()[i] == s[i]);
        lemma_trimmed_not_empty(s.drop_last());
    }
}

/// Dropping newlines at the end loses no other character.
proof fn lemma_trimmed_keeps(s: Seq<char>, c: char)
    requires
        s.contains(c),
        c != '\n',
    ensures
        without_final_newlines(s).contains(c),
    decreases s.len(),
{
    if s.len() > 0 && s.last() == '\n' {
        let i = choose|i: int| 0 <= i < s.len() && s[i] == c;
        assert(s.drop_last()[i] == c);
        lemma_trimmed_keeps(s.drop_last(), c);
    }
}

/// A character that is not white space stands in the combined output if a stream holds it.
proof fn lemma_combined_keeps(stdout: Seq<char>, stderr: Seq<char>, c: char)
    requires
        stdout.contains(c) || stderr.contains(c),
        !is_white_space(c),
    ensures
        combined(stdout, stderr).contains(c),
{
    let whole = combined(stdout, stderr);
    if stdout.contains(c) {
        let i = choose|i: int| 0 <= i < stdout.len() && stdout[i] == c;
        assert(!is_white_space(stdout[i]));
        lemma_trimmed_keeps(stdout, c);
        let kept = without_final_newlines(stdout);
        let k = choose|k: int| 0 <= k < kept.len() && kept[k] == c;
        assert(whole[k] == c);
    } else {
        let i = choose|i: int| 0 <= i < stderr.len() && stderr[i] == c;
        assert(!is_white_space(stderr[i]));
        lemma_trimmed_keeps(stderr, c);
        let kept = without_final_newlines(stderr);
        let k = choose|k: int| 0 <= k < kept.len() && kept[k] == c;
        assert(whole[whole.len() - kept.len() + k] == c);
    }
}

/// Reports the outcome of `command` on `target` from its output as text.
pub fn render_streams(
    command: &str,
    target: &str,
    stdout: &str,
    stderr: &str,
    code: Option<i32>,
) -> (res: ToolResult)
    ensures
        res@ == rendered(command@, target@, stdout@, stderr@, code),
{
    let mut out = String::new();
    if !blank(stdout) {
        out.append(trim_end_newlines(stdout));
        proof {
            lemma_trimmed_not_empty(stdout@);
        }
    }
    if !blank(stderr) {
        if !out.as_str().is_empty() {
            out.append("\n");
        }
        out.append("[stderr]\n");
        out.append(trim_end_newlines(stderr));
        proof {
            reveal_strlit("[stderr]\n");
        }
    }
    if out.as_str().is_empty() {
        out.append("(no output)");
    }
    assert(out@ =~= combined(stdout@, stderr@));

    let mut text = target.to_owned();
    text.append("$ ");
    text.append(command);
    text.append("\n\n");
    text.append(out.as_str());
    text.append("\n\n");
    match code {
        Some(c) => {
            text.append("[exit code: ");
            append_signed_decimal(&mut text, c);
            text.append("]");
        },
        None => text.append("[terminated without an exit code]"),
    }
    let is_error = match code {
        Some(c) => c != 0,
        None => true,
    };
    let res = ToolResult { text, is_error };
    assert(res@.text =~= rendered(command@, target@, stdout@, stderr@, code).text);
    res
}

/// Turns captured process output into a tool result. The result leads with a header echoing the
/// command and the target it ran on, followed by the combined stdout/stderr and a trailing
/// exit-code line. A non-zero (or absent) exit is surfaced as an error so the caller notices
/// failures.
pub fn render_output(
    command: &str,
    target: &str,
    stdout: &[u8],
    stderr: &[u8],
    code: Option<i32>,
) -> (res: ToolResult)
    ensures
        res@ == rendered(command@, target@, utf8_lossy(stdout@), utf8_lossy(stderr@), code),
        valid_utf8(stdout@) && valid_utf8(stderr@) ==> res@ == rendered(
            command@,
            target@,
            decode_utf8(stdout@),
            decode_utf8(stderr@),
            code,
        ),
        !valid_utf8(stdout@) || !valid_utf8(stderr@) ==> res@.text.contains('\u{fffd}'),
{
    let out = lossy_text(stdout);
    let err = lossy_text(stderr);
    proof {
        if !valid_utf8(stdout@) || !valid_utf8(stderr@) {
            lemma_combined_keeps(out@, err@, '\u{fffd}');
        }
    }
    let res = render_streams(command, target, out.as_str(), err.as_str(), code);
    proof {
        let before = header(target@, command@) + "\n\n"@;
        let middle = combined(out@, err@);
        let after = "\n\n"@ + exit_line(code);
        assert(res@.text =~= before + middle + after);
        if middle.contains('\u{fffd}') {
            let i = choose|i: int| 0 <= i < middle.len() && middle[i] == '\u{fffd}';
            assert(res@.text[before.len() + i] == '\u{fffd}');
        }
    }
    res
}

/// A report begins with what ran where, and ends with how it ended.
pub proof fn report_is_framed(
    command: Seq<char>,
    target: Seq<char>,
    stdout: Seq<char>,
    stderr: Seq<char>,
    code: Option<i32>,
)
    ensures
        header(target, command).is_prefix_of(rendered(command, target, stdout, stderr, code).text),
        exit_line(code).is_suffix_of(rendered(command, target, stdout, stderr, code).text),
{
    let head = header(target, command);
    let tail = exit_line(code);
    let text = rendered(command, target, stdout, stderr, code).text;
    assert(text.subrange(0, head.len() as int) =~= head);
    assert(text.subrange(text.len() - tail.len(), text.len() as int) =~= tail);
}

/// A report is a failure unless the process ended with exit code 0, whatever it wrote.
pub proof fn only_exit_code_zero_succeeds(
    command: Seq<char>,
    target: Seq<char>,
    stdout: Seq<char>,
    stderr: Seq<char>,
    code: Option<i32>,
)
    ensures
        !rendered(command, target, stdout, stderr, code).is_error <==> code == Some(0i32),
{
}

/// The exit line tells the exit code, and whether there was one.
pub proof fn exit_line_tells_the_code(code1: Option<i32>, code2: Option<i32>)
    requires
        exit_line(code1) == exit_line(code2),
    ensures
        code1 == code2,
{
    reveal_strlit("[exit code: ");
    reveal_strlit("]");
    reveal_strlit("[terminated without an exit code]");
    match (code1, code2) {
        (Some(a), Some(b)) => {
            let x = exit_line(code1);
            let y = exit_line(code2);
            assert(x.subrange(12, x.len() - 1) =~= signed_decimal(a as int));
            assert(y.subrange(12, y.len() - 1) =~= signed_decimal(b as int));
            signed_decimal_tells_the_number(a as int, b as int);
        },
        (Some(a), None) => {
            assert(exit_line(code1)[1] == 'e');
            assert(exit_line(code2)[1] == 't');
        },
        (None, Some(b)) => {
            assert(exit_line(code1)[1] == 't');
            assert(exit_line(code2)[1] == 'e');
        },
        (None, None) => {},
    }
}

/// The output part of a report is never empty.
pub proof fn combined_is_not_empty(stdout: Seq<char>, stderr: Seq<char>)
    ensures
        combined(stdout, stderr).len() > 0,
{
    reveal_strlit("(no output)");
    reveal_strlit("[stderr]\n");
    if !is_blank(stdout) {
        lemma_trimmed_not_empty(stdout);
    }
}

/// Blank output is as good as none, on either stream.
pub proof fn blank_output_is_no_output(blank: Seq<char>, other: Seq<char>)
    requires
        is_blank(blank),
    ensures
        combined(blank, other) == combined(Seq::empty(), other),
        combined(other, blank) == combined(other, Seq::empty()),
{
}

/// What is written to standard output comes first, and what is written to standard error comes
/// last, behind the line that introduces it.
pub proof fn streams_keep_their_places(stdout: Seq<char>, stderr: Seq<char>)
    ensures
        !is_blank(stdout) ==> without_final_newlines(stdout).is_prefix_of(
            combined(stdout, stderr),
        ),
        !is_blank(stderr) ==> ("[stderr]\n"@ + without_final_newlines(stderr)).is_suffix_of(
            combined(stdout, stderr),
        ),
{
    let whole = combined(stdout, stderr);
    if !is_blank(stdout) {
        let out = without_final_newlines(stdout);
        assert(whole.subrange(0, out.len() as int) =~= out);
    }
    if !is_blank(stderr) {
        let err = "[stderr]\n"@ + without_final_newlines(stderr);
        assert(whole.subrange(whole.len() - err.len(), whole.len() as int) =~= err);
    }
}

/// A newline more at the end of a stream changes nothing.
pub proof fn final_newline_is_immaterial(stdout: Seq<char>, stderr: Seq<char>)
    ensures
        combined(stdout.push('\n'), stderr) == combined(stdout, stderr),
        combined(stdout, stderr.push('\n')) == combined(stdout, stderr),
{
    lemma_push_newline(stdout);
    lemma_push_newline(stderr);
}

/// A newline at the end neither makes text blank nor outlives the trimming.
proof fn lemma_push_newline(s: Seq<char>)
    ensures
        is_blank(s.push('\n')) == is_blank(s),
        without_final_newlines(s.push('\n')) == without_final_newlines(s),
{
    let longer = s.push('\n');
    assert(longer.drop_last() =~= s);
    if is_blank(longer) {
        assert forall|i: int| 0 <= i < s.len() implies is_white_space(#[trigger] s[i]) by {
            assert(longer[i] == s[i]);
        }
    }
}

/// A report is the prompt with the command, an empty line, the output, an empty line and the exit
/// line; which output is shown depends on the two streams alone.
pub proof fn report_in_full(
    command: Seq<char>,
    target: Seq<char>,
    stdout: Seq<char>,
    stderr: Seq<char>,
    code: Option<i32>,
)
    ensures
        rendered(command, target, stdout, stderr, code).text == target + "$ "@ + command + "\n\n"@
            + combined(stdout, stderr) + "\n\n"@ + exit_line(code),
        rendered(command, target, stdout, stderr, code).is_error <==> code != Some(0i32),
{
}

/// What is written to standard output alone is shown as it is, whatever the exit code.
pub proof fn stdout_alone_is_shown_as_it_is(
    command: Seq<char>,
    target: Seq<char>,
    stdout: Seq<char>,
    stderr: Seq<char>,
    code: Option<i32>,
)
    requires
        !is_blank(stdout),
        is_blank(stderr),
    ensures
        combined(stdout, stderr) == without_final_newlines(stdout),
        rendered(command, target, stdout, stderr, code).text == target + "$ "@ + command + "\n\n"@
            + without_final_newlines(stdout) + "\n\n"@ + exit_line(code),
{
}

/// What is written to standard error alone is shown as such, whatever the exit code.
pub proof fn stderr_alone_is_introduced(
    command: Seq<char>,
    target: Seq<char>,
    stdout: Seq<char>,
    stderr: Seq<char>,
    code: Option<i32>,
)
    requires
        is_blank(stdout),
        !is_blank(stderr),
    ensures
        combined(stdout, stderr) == "[stderr]\n"@ + without_final_newlines(stderr),
        rendered(command, target, stdout, stderr, code).text == target + "$ "@ + command + "\n\n"@
            + ("[stderr]\n"@ + without_final_newlines(stderr)) + "\n\n"@ + exit_line(code),
{
}

/// Where both streams were written to, standard output comes first and standard error follows
/// behind the line that introduces it, whatever the exit code.
pub proof fn both_streams_are_shown(
    command: Seq<char>,
    target: Seq<char>,
    stdout: Seq<char>,
    stderr: Seq<char>,
    code: Option<i32>,
)
    requires
        !is_blank(stdout),
        !is_blank(stderr),
    ensures
        combined(stdout, stderr) == without_final_newlines(stdout) + "\n[stderr]\n"@
            + without_final_newlines(stderr),
        rendered(command, target, stdout, stderr, code).text == target + "$ "@ + command + "\n\n"@
            + (without_final_newlines(stdout) + "\n[stderr]\n"@ + without_final_newlines(stderr))
            + "\n\n"@ + exit_line(code),
{
    reveal_strlit("\n");
    reveal_strlit("[stderr]\n");
    reveal_strlit("\n[stderr]\n");
    assert("\n[stderr]\n"@ =~= "\n"@ + "[stderr]\n"@);
    assert(combined(stdout, stderr) =~= without_final_newlines(stdout) + "\n[stderr]\n"@
        + without_final_newlines(stderr));
}

/// Where neither stream was written to, a placeholder says so, whatever the exit code.
pub proof fn silence_is_told(
    command: Seq<char>,
    target: Seq<char>,
    stdout: Seq<char>,
    stderr: Seq<char>,
    code: Option<i32>,
)
    requires
        is_blank(stdout),
        is_blank(stderr),
    ensures
        combined(stdout, stderr) == "(no output)"@,
        rendered(command, target, stdout, stderr, code).text == target + "$ "@ + command + "\n\n"@
            + "(no output)"@ + "\n\n"@ + exit_line(code),
{
}

/// The exit line spells the exit code in decimal, or says that there was none.
pub proof fn exit_line_spells_the_code(code: i32)
    ensures
        exit_line(Some(code)) == "[exit code: "@ + signed_decimal(code as int) + "]"@,
        exit_line(None) == "[terminated without an exit code]"@,
{
}

/// The prompt is the target's name, `$ ` and the command.
pub proof fn header_reads_like_a_prompt(target: Seq<char>, command: Seq<char>)
    ensures
        header(target, command) == target + "$ "@ + command,
{
}

/// The model of a result is its text and its error flag.
pub proof fn result_model_is_the_result(result: ToolResult)
    ensures
        result@.text == result.text@,
        result@.is_error == result.is_error,
{
}

/// The exit code decides about the exit line and the error flag alone: everything in front of the
/// exit line is the same for every code.
pub proof fn exit_code_changes_the_exit_line_alone(
    command: Seq<char>,
    target: Seq<char>,
    stdout: Seq<char>,
    stderr: Seq<char>,
    code1: Option<i32>,
    code2: Option<i32>,
)
    ensures
        ({
            let text1 = rendered(command, target, stdout, stderr, code1).text;
            let text2 = rendered(command, target, stdout, stderr, code2).text;
            &&& exit_line(code1).len() <= text1.len()
            &&& exit_line(code2).len() <= text2.len()
            &&& text1.take(text1.len() - exit_line(code1).len()) == text2.take(
                text2.len() - exit_line(code2).len(),
            )
        }),
{
    let text1 = rendered(command, target, stdout, stderr, code1).text;
    let text2 = rendered(command, target, stdout, stderr, code2).text;
    assert(text1.take(text1.len() - exit_line(code1).len()) =~= text2.take(
        text2.len() - exit_line(code2).len(),
    ));
}

/// With nothing on standard error, the line that introduces it is shown only where standard output
/// holds it itself, in the same place.
pub proof fn stderr_is_not_introduced_for_nothing(stdout: Seq<char>, stderr: Seq<char>, at: int)
    requires
        is_blank(stderr),
        0 <= at,
        at + "[stderr]\n"@.len() <= combined(stdout, stderr).len(),
        combined(stdout, stderr).subrange(at, at + "[stderr]\n"@.len()) == "[stderr]\n"@,
    ensures
        at + "[stderr]\n"@.len() <= stdout.len(),
        stdout.subrange(at, at + "[stderr]\n"@.len()) == "[stderr]\n"@,
{
    reveal_strlit("[stderr]\n");
    reveal_strlit("(no output)");
    let shown = combined(stdout, stderr);
    let part = shown.subrange(at, at + "[stderr]\n"@.len());
    assert(part[0] == '[');
    assert(part[0] == shown[at]);
    if !is_blank(stdout) {
        final_newlines_alone_are_dropped(stdout);
        assert(stdout.subrange(at, at + "[stderr]\n"@.len()) =~= part);
    }
}

} // verus!
