//! Terminal text for problems and judge verdicts.

use vstd::prelude::*;

use crate::ansi::{bold, bold_spec, green, green_spec, red, red_spec, yellow, yellow_spec};
use crate::models::{JudgeResult, ProblemDetail};
use crate::text::{
    append, i64_text, is_blank, is_blank_spec, owned, decimal_text, text_eq, chars_of,
};
use crate::markup::RenderError;

verus! {

/// Colour of a difficulty label.
#[derive(Clone, Copy, Debug, PartialEq, Eq)]
pub enum Tint {
    Green,
    Yellow,
    Red,
}

pub open spec fn difficulty_colored_spec(d: Seq<char>) -> Seq<char> {
    if d == "Easy"@ {
        green_spec(d)
    } else if d == "Medium"@ {
        yellow_spec(d)
    } else if d == "Hard"@ {
        red_spec(d)
    } else {
        d
    }
}

/// Return a coloured difficulty label: green `Easy`, yellow `Medium`, red
/// `Hard`; any other text as it is.
pub fn difficulty_colored(difficulty: &str) -> (r: String)
    ensures
        r@ == difficulty_colored_spec(difficulty@),
{
    if text_eq(difficulty, "Easy") {
        green(difficulty)
    } else if text_eq(difficulty, "Medium") {
        yellow(difficulty)
    } else if text_eq(difficulty, "Hard") {
        red(difficulty)
    } else {
        owned(difficulty)
    }
}

pub open spec fn difficulty_tint_spec(d: Seq<char>) -> Option<Tint> {
    if d == "Easy"@ {
        Some(Tint::Green)
    } else if d == "Medium"@ {
        Some(Tint::Yellow)
    } else if d == "Hard"@ {
        Some(Tint::Red)
    } else {
        None
    }
}

/// The colour that a difficulty label is shown in, if it has one.
pub fn difficulty_tint(difficulty: &str) -> (r: Option<Tint>)
    ensures
        r == difficulty_tint_spec(difficulty@),
{
    if text_eq(difficulty, "Easy") {
        Some(Tint::Green)
    } else if text_eq(difficulty, "Medium") {
        Some(Tint::Yellow)
    } else if text_eq(difficulty, "Hard") {
        Some(Tint::Red)
    } else {
        None
    }
}

pub open spec fn opt_seq(o: Option<String>) -> Option<Seq<char>> {
    match o {
        Some(s) => Some(s@),
        None => None,
    }
}

pub open spec fn opt_str_view(o: Option<&str>) -> Option<Seq<char>> {
    match o {
        Some(s) => Some(s@),
        None => None,
    }
}

pub open spec fn status_symbol_spec(status: Option<Seq<char>>) -> Seq<char> {
    match status {
        Some(s) => if s == "ac"@ {
            "\u{2714}"@
        } else if s == "notac"@ {
            "\u{2717}"@
        } else {
            " "@
        },
        None => " "@,
    }
}

/// The mark of a problem's status: a check for solved (`ac`), a cross for
/// attempted (`notac`), a blank otherwise.
pub fn status_symbol(status: Option<&str>) -> (r: &'static str)
    ensures
        r@ == status_symbol_spec(opt_str_view(status)),
{
    match status {
        Some(s) => if text_eq(s, "ac") {
            "\u{2714}"
        } else if text_eq(s, "notac") {
            "\u{2717}"
        } else {
            " "
        },
        None => " ",
    }
}

pub open spec fn status_tint_spec(status: Option<Seq<char>>) -> Option<Tint> {
    match status {
        Some(s) => if s == "ac"@ {
            Some(Tint::Green)
        } else if s == "notac"@ {
            Some(Tint::Yellow)
        } else {
            None
        },
        None => None,
    }
}

/// The colour of a problem's status mark in the result list: green for
/// solved (`ac`), yellow for attempted (`notac`), none otherwise.
pub fn status_tint(status: Option<&str>) -> (r: Option<Tint>)
    ensures
        r == status_tint_spec(opt_str_view(status)),
{
    match status {
        Some(s) => if text_eq(s, "ac") {
            Some(Tint::Green)
        } else if text_eq(s, "notac") {
            Some(Tint::Yellow)
        } else {
            None
        },
        None => None,
    }
}

/// `a`, or `b` when `a` is `None`.
pub open spec fn either(a: Option<String>, b: Option<String>) -> Option<String> {
    if a is Some {
        a
    } else {
        b
    }
}

/// A nonempty error with its heading in bold red.
pub open spec fn error_block(heading: Seq<char>, e: Option<String>) -> Option<Seq<char>> {
    match e {
        Some(e) => if e@.len() > 0 {
            Some(bold_spec(red_spec(heading)) + "\n"@ + e@)
        } else {
            None
        },
        None => None,
    }
}

/// The compile error of a run (the full text when there is one), else its
/// runtime error, when nonempty.
pub open spec fn error_report(r: JudgeResult) -> Option<Seq<char>> {
    let ce = error_block("Compile Error"@, either(r.full_compile_error, r.compile_err));
    if ce is Some {
        ce
    } else {
        error_block("Runtime Error"@, either(r.full_runtime_error, r.runtime_error))
    }
}

fn error_block_exec(heading: &str, e: Option<&String>) -> (r: Option<String>)
    ensures
        opt_seq(r) == error_block(heading@, match e {
            Some(s) => Some(*s),
            None => None,
        }),
{
    match e {
        Some(e) => {
            if e.as_str().is_empty() {
                None
            } else {
                let t = red(heading);
                let mut out = bold(t.as_str());
                append(&mut out, "\n");
                append(&mut out, e.as_str());
                Some(out)
            }
        },
        None => None,
    }
}

fn either_ref<'a>(a: &'a Option<String>, b: &'a Option<String>) -> (r: Option<&'a String>)
    ensures
        (match r {
            Some(s) => Some(*s),
            None => None,
        }) == either(*a, *b),
{
    match a {
        Some(s) => Some(s),
        None => match b {
            Some(s) => Some(s),
            None => None,
        },
    }
}

/// The compile or runtime error report of a run, if any; see `error_report`.
pub fn compile_or_runtime_error(result: &JudgeResult) -> (r: Option<String>)
    ensures
        opt_seq(r) == error_report(*result),
{
    let ce = error_block_exec(
        "Compile Error",
        either_ref(&result.full_compile_error, &result.compile_err),
    );
    if ce.is_some() {
        return ce;
    }
    error_block_exec("Runtime Error", either_ref(&result.full_runtime_error, &result.runtime_error))
}

/// The items of `items` that are not blank, in order.
pub open spec fn nonblank(items: Seq<Seq<char>>) -> Seq<Seq<char>>
    decreases items.len(),
{
    if items.len() == 0 {
        Seq::empty()
    } else if is_blank_spec(items.last()) {
        nonblank(items.drop_last())
    } else {
        nonblank(items.drop_last()).push(items.last())
    }
}

/// The items joined with newlines.
pub open spec fn join_lines(items: Seq<Seq<char>>) -> Seq<char>
    decreases items.len(),
{
    if items.len() == 0 {
        Seq::empty()
    } else if items.len() == 1 {
        items[0]
    } else {
        join_lines(items.drop_last()) + "\n"@ + items.last()
    }
}

pub open spec fn strings_view(v: Seq<String>) -> Seq<Seq<char>> {
    v.map_values(|s: String| s@)
}

/// The stdout printed by the user's code: the nonblank per-case outputs of a
/// test run joined by newlines, when that is not blank; else the single output
/// of a submission, when not blank.
pub open spec fn stdout_spec(r: JudgeResult) -> Option<Seq<char>> {
    let from_list = match r.std_output_list {
        Some(l) => {
            let j = join_lines(nonblank(strings_view(l@)));
            if !is_blank_spec(j) {
                Some(j)
            } else {
                None
            }
        },
        None => None,
    };
    if from_list is Some {
        from_list
    } else {
        match r.std_output {
            Some(s) => if !is_blank_spec(s@) {
                Some(s@)
            } else {
                None
            },
            None => None,
        }
    }
}

fn join_nonblank(list: &Vec<String>) -> (r: String)
    ensures
        r@ == join_lines(nonblank(strings_view(list@))),
{
    let ghost items = strings_view(list@);
    let mut out = String::new();
    let mut any = false;
    let mut i: usize = 0;
    while i < list.len()
        invariant
            0 <= i <= list.len(),
            items == strings_view(list@),
            out@ == join_lines(nonblank(items.take(i as int))),
            any == (nonblank(items.take(i as int)).len() > 0),
        decreases list.len() - i,
    {
        let s = &list[i];
        assert(items.take(i + 1).drop_last() =~= items.take(i as int));
        assert(items.take(i + 1).last() == s@);
        if !is_blank(s.as_str()) {
            if any {
                append(&mut out, "\n");
            } else {
                assert(out@ =~= Seq::<char>::empty());
            }
            append(&mut out, s.as_str());
            proof {
                let n = nonblank(items.take(i as int));
                assert(nonblank(items.take(i + 1)) == n.push(s@));
                assert(n.push(s@).drop_last() =~= n);
                if !any {
                    assert(n.push(s@) =~= seq![s@]);
                    assert(out@ =~= s@);
                }
            }
            any = true;
        }
        i = i + 1;
    }
    assert(items.take(list.len() as int) =~= items);
    out
}

/// Collect the stdout printed by the user's code, if any; see `stdout_spec`.
pub fn stdout_text(result: &JudgeResult) -> (r: Option<String>)
    ensures
        opt_seq(r) == stdout_spec(*result),
{
    if let Some(list) = &result.std_output_list {
        let joined = join_nonblank(list);
        if !is_blank(joined.as_str()) {
            return Some(joined);
        }
    }
    if let Some(s) = &result.std_output {
        if !is_blank(s.as_str()) {
            return Some(owned(s.as_str()));
        }
    }
    None
}

/// The `Debug` text of a list of strings, as `format!("{:?}", ..)` writes it.
pub uninterp spec fn debug_list_text(items: Seq<Seq<char>>) -> Seq<char>;

/// `<Vec<String> as Debug>::fmt`: the list in brackets, each string quoted and
/// escaped; the text is what `debug_list_text` names.
#[verifier::external_body]
fn debug_list(v: &Vec<String>) -> (r: String)
    ensures
        r@ == debug_list_text(strings_view(v@)),
{
    format!("{:?}", v)
}

pub open spec fn status_text(r: JudgeResult) -> Seq<char> {
    match r.status_msg {
        Some(s) => s@,
        None => "Unknown"@,
    }
}

pub open spec fn all_ones(c: Seq<char>) -> bool {
    forall|i: int| 0 <= i < c.len() ==> c[i] == '1'
}

/// A test run passed: it ran, and every case compared equal (`1`).
pub open spec fn test_passed(r: JudgeResult) -> bool {
    &&& r.run_success == Some(true)
    &&& r.compare_result matches Some(c) && c@.len() > 0 && all_ones(c@)
}

/// A check and the status in bold green, or a cross and the status in bold
/// red.
pub open spec fn verdict_line(ok: bool, status: Seq<char>) -> Seq<char> {
    if ok {
        green_spec("\u{2714}"@) + "  "@ + bold_spec(green_spec(status))
    } else {
        red_spec("\u{2717}"@) + "  "@ + bold_spec(red_spec(status))
    }
}

pub open spec fn answers_spec(r: JudgeResult) -> Seq<char> {
    match (r.code_answer, r.expected_code_answer) {
        (Some(got), Some(expected)) => "\n"@ + bold_spec("Output:"@) + "   "@ + debug_list_text(
            strings_view(got@),
        ) + "\n"@ + bold_spec("Expected:"@) + " "@ + debug_list_text(strings_view(expected@))
            + "\n"@,
        _ => Seq::empty(),
    }
}

pub open spec fn stdout_section(r: JudgeResult) -> Seq<char> {
    match stdout_spec(r) {
        Some(so) => "\n"@ + bold_spec("Stdout:"@) + "\n"@ + so + "\n"@,
        None => Seq::empty(),
    }
}

/// The report of a test run: its compile or runtime error when there is one;
/// else the verdict line, the answers against the expected ones, the stdout and
/// the runtime.
pub open spec fn test_report(r: JudgeResult) -> Seq<char> {
    match error_report(r) {
        Some(e) => e,
        None => verdict_line(test_passed(r), status_text(r)) + "\n"@ + answers_spec(r)
            + stdout_section(r) + match r.status_runtime {
            Some(rt) => "Runtime: "@ + rt@ + "\n"@,
            None => Seq::empty(),
        },
    }
}

fn status_of(result: &JudgeResult) -> (r: String)
    ensures
        r@ == status_text(*result),
{
    match &result.status_msg {
        Some(s) => owned(s.as_str()),
        None => owned("Unknown"),
    }
}

fn verdict_line_exec(ok: bool, status: &str) -> (r: String)
    ensures
        r@ == verdict_line(ok, status@),
{
    if ok {
        let mut out = green("\u{2714}");
        append(&mut out, "  ");
        let g = green(status);
        let b = bold(g.as_str());
        append(&mut out, b.as_str());
        out
    } else {
        let mut out = red("\u{2717}");
        append(&mut out, "  ");
        let g = red(status);
        let b = bold(g.as_str());
        append(&mut out, b.as_str());
        out
    }
}

fn all_ones_exec(c: &str) -> (r: bool)
    ensures
        r == (c@.len() > 0 && all_ones(c@)),
{
    let cs = chars_of(c);
    if cs.len() == 0 {
        return false;
    }
    let mut i: usize = 0;
    while i < cs.len()
        invariant
            cs@ == c@,
            0 <= i <= cs.len(),
            forall|j: int| 0 <= j < i ==> cs@[j] == '1',
        decreases cs.len() - i,
    {
        if cs[i] != '1' {
            return false;
        }
        i = i + 1;
    }
    true
}

fn answers_exec(result: &JudgeResult) -> (r: String)
    ensures
        r@ == answers_spec(*result),
{
    match (&result.code_answer, &result.expected_code_answer) {
        (Some(got), Some(expected)) => {
            let mut out = owned("\n");
            let b = bold("Output:");
            append(&mut out, b.as_str());
            append(&mut out, "   ");
            let d = debug_list(got);
            append(&mut out, d.as_str());
            append(&mut out, "\n");
            let b = bold("Expected:");
            append(&mut out, b.as_str());
            append(&mut out, " ");
            let d = debug_list(expected);
            append(&mut out, d.as_str());
            append(&mut out, "\n");
            out
        },
        _ => String::new(),
    }
}

fn stdout_section_exec(result: &JudgeResult) -> (r: String)
    ensures
        r@ == stdout_section(*result),
{
    match stdout_text(result) {
        Some(so) => {
            let mut out = owned("\n");
            let b = bold("Stdout:");
            append(&mut out, b.as_str());
            append(&mut out, "\n");
            append(&mut out, so.as_str());
            append(&mut out, "\n");
            out
        },
        None => String::new(),
    }
}

/// Format a test (interpret) result into a human-readable report; see
/// `test_report`.
pub fn format_test_result(result: &JudgeResult) -> (r: String)
    ensures
        r@ == test_report(*result),
{
    if let Some(err) = compile_or_runtime_error(result) {
        return err;
    }
    let status = status_of(result);
    let passed = match result.run_success {
        Some(true) => match &result.compare_result {
            Some(c) => all_ones_exec(c.as_str()),
            None => false,
        },
        _ => false,
    };
    let mut out = verdict_line_exec(passed, status.as_str());
    append(&mut out, "\n");
    let a = answers_exec(result);
    append(&mut out, a.as_str());
    let so = stdout_section_exec(result);
    append(&mut out, so.as_str());
    if let Some(rt) = &result.status_runtime {
        let mut line = owned("Runtime: ");
        append(&mut line, rt.as_str());
        append(&mut line, "\n");
        append(&mut out, line.as_str());
    } else {
        assert(out@ + Seq::<char>::empty() =~= out@);
    }
    out
}

/// ` (beats P%)` for a percentile `P`, or nothing.
pub open spec fn beats_spec(p: Option<String>) -> Seq<char> {
    match p {
        Some(p) => " (beats "@ + p@ + "%)"@,
        None => Seq::empty(),
    }
}

/// `LABEL VALUE (beats P%)` on a line of its own, when the value is known.
pub open spec fn measure_line(label: Seq<char>, v: Option<String>, p: Option<String>) -> Seq<char> {
    match v {
        Some(v) => label + v@ + beats_spec(p) + "\n"@,
        None => Seq::empty(),
    }
}

pub open spec fn cases_line(r: JudgeResult) -> Seq<char> {
    match (r.total_correct, r.total_testcases) {
        (Some(c), Some(t)) => "Cases: "@ + decimal_text(c as int) + "/"@ + decimal_text(t as int)
            + "\n"@,
        _ => Seq::empty(),
    }
}

/// For a rejected submission: the last test case and the expected output,
/// each when nonempty.
pub open spec fn failure_details(r: JudgeResult) -> Seq<char> {
    if r.accepted_spec() {
        Seq::empty()
    } else {
        (match r.last_testcase {
            Some(l) => if l@.len() > 0 {
                "\n"@ + bold_spec("Last testcase:"@) + "\n"@ + l@ + "\n"@
            } else {
                Seq::empty()
            },
            None => Seq::empty(),
        }) + (match r.expected_output {
            Some(e) => if e@.len() > 0 {
                bold_spec("Expected:"@) + " "@ + e@ + "\n"@
            } else {
                Seq::empty()
            },
            None => Seq::empty(),
        })
    }
}

/// The verdict of a submission: its compile or runtime error when there is
/// one; else the verdict line, the passed cases, runtime and memory with their
/// percentiles, the stdout and, when rejected, the failing case.
pub open spec fn submit_report(r: JudgeResult) -> Seq<char> {
    match error_report(r) {
        Some(e) => e,
        None => verdict_line(r.accepted_spec(), status_text(r)) + "\n"@ + cases_line(r)
            + measure_line("Runtime: "@, r.status_runtime, r.runtime_percentile) + measure_line(
            "Memory: "@,
            r.status_memory,
            r.memory_percentile,
        ) + stdout_section(r) + failure_details(r),
    }
}

fn measure_line_exec(label: &str, v: &Option<String>, p: &Option<String>) -> (r: String)
    ensures
        r@ == measure_line(label@, *v, *p),
{
    match v {
        Some(v) => {
            let mut out = owned(label);
            append(&mut out, v.as_str());
            if let Some(p) = p {
                let mut b = owned(" (beats ");
                append(&mut b, p.as_str());
                append(&mut b, "%)");
                append(&mut out, b.as_str());
            } else {
                assert(out@ + Seq::<char>::empty() =~= out@);
            }
            append(&mut out, "\n");
            out
        },
        None => String::new(),
    }
}

fn cases_line_exec(result: &JudgeResult) -> (r: String)
    ensures
        r@ == cases_line(*result),
{
    match (result.total_correct, result.total_testcases) {
        (Some(c), Some(t)) => {
            let mut out = owned("Cases: ");
            let cs = i64_text(c);
            append(&mut out, cs.as_str());
            append(&mut out, "/");
            let ts = i64_text(t);
            append(&mut out, ts.as_str());
            append(&mut out, "\n");
            out
        },
        _ => String::new(),
    }
}

fn failure_details_exec(result: &JudgeResult) -> (r: String)
    ensures
        r@ == failure_details(*result),
{
    if result.accepted() {
        return String::new();
    }
    let mut out = String::new();
    if let Some(last) = &result.last_testcase {
        if !last.as_str().is_empty() {
            append(&mut out, "\n");
            let b = bold("Last testcase:");
            append(&mut out, b.as_str());
            append(&mut out, "\n");
            append(&mut out, last.as_str());
            append(&mut out, "\n");
        }
    }
    let ghost first = out@;
    let mut second = String::new();
    if let Some(exp) = &result.expected_output {
        if !exp.as_str().is_empty() {
            let b = bold("Expected:");
            append(&mut second, b.as_str());
            append(&mut second, " ");
            append(&mut second, exp.as_str());
            append(&mut second, "\n");
        }
    }
    append(&mut out, second.as_str());
    proof {
        assert(Seq::<char>::empty() + "\n"@ =~= "\n"@);
        assert(Seq::<char>::empty() + bold_spec("Expected:"@) =~= bold_spec("Expected:"@));
    }
    assert(out@ =~= failure_details(*result));
    out
}

/// Format a submit result into a human-readable verdict; see `submit_report`.
pub fn format_submit_result(result: &JudgeResult) -> (r: String)
    ensures
        r@ == submit_report(*result),
{
    if let Some(err) = compile_or_runtime_error(result) {
        return err;
    }
    let status = status_of(result);
    let mut out = verdict_line_exec(result.accepted(), status.as_str());
    append(&mut out, "\n");
    let c = cases_line_exec(result);
    append(&mut out, c.as_str());
    let rt = measure_line_exec("Runtime: ", &result.status_runtime, &result.runtime_percentile);
    append(&mut out, rt.as_str());
    let mem = measure_line_exec("Memory: ", &result.status_memory, &result.memory_percentile);
    append(&mut out, mem.as_str());
    let so = stdout_section_exec(result);
    append(&mut out, so.as_str());
    let f = failure_details_exec(result);
    append(&mut out, f.as_str());
    out
}

/// The text that `html2text`'s plain layout makes of `html` at `width`
/// columns (`None` when the layout fails).
pub uninterp spec fn html_plain_text(html: Seq<char>, width: usize) -> Option<Seq<char>>;

/// `html2text::config::plain().string_from_read`, the fallible form of
/// `html2text::from_read`: the HTML laid out as plain text at `width` columns,
/// as `html_plain_text` names it.
#[verifier::external_body]
fn plain_text(html: &str, width: usize) -> (r: Result<String, html2text::Error>)
    ensures
        match r {
            Ok(s) => html_plain_text(html@, width) == Some(s@),
            Err(_) => html_plain_text(html@, width) is None,
        },
{
    html2text::config::plain().string_from_read(html.as_bytes(), width)
}

/// Convert an HTML problem statement into readable terminal text, 100 columns
/// wide. Fails where `html2text` cannot lay the text out.
pub fn html_to_text(html: &str) -> (r: Result<String, RenderError>)
    ensures
        r is Ok <==> html_plain_text(html@, 100) is Some,
        r matches Ok(s) ==> html_plain_text(html@, 100) == Some(s@),
{
    match plain_text(html, 100) {
        Ok(s) => Ok(s),
        Err(_) => Err(RenderError),
    }
}

/// The full view of a problem: id and title in bold with the coloured
/// difficulty, the problem's URL, a blank line, and the statement as text.
pub open spec fn detail_report(d: ProblemDetail, body: Seq<char>) -> Seq<char> {
    bold_spec(d.frontend_id@) + " "@ + bold_spec(d.title@) + "  ["@ + difficulty_colored_spec(
        d.difficulty@,
    ) + "]\n"@ + "https://leetcode.com/problems/"@ + d.slug@ + "/\n\n"@ + body + "\n"@
}

/// The text that `show` prints for a problem; see `detail_report`. Fails
/// where the statement cannot be laid out.
pub fn detail_text(detail: &ProblemDetail) -> (r: Result<String, RenderError>)
    ensures
        r is Ok <==> html_plain_text(detail.content@, 100) is Some,
        r matches Ok(s) ==> s@ == detail_report(
            *detail,
            html_plain_text(detail.content@, 100)->0,
        ),
{
    let body = html_to_text(detail.content.as_str())?;
    let mut out = bold(detail.frontend_id.as_str());
    append(&mut out, " ");
    let t = bold(detail.title.as_str());
    append(&mut out, t.as_str());
    append(&mut out, "  [");
    let d = difficulty_colored(detail.difficulty.as_str());
    append(&mut out, d.as_str());
    append(&mut out, "]\n");
    append(&mut out, "https://leetcode.com/problems/");
    append(&mut out, detail.slug.as_str());
    append(&mut out, "/\n\n");
    append(&mut out, body.as_str());
    append(&mut out, "\n");
    Ok(out)
}

/// Colouring a difficulty label is undone by `strip_ansi`: the plain label
/// comes back, whatever the label is.
pub proof fn law_strip_undoes_difficulty_colour(d: Seq<char>)
    requires
        crate::ansi::is_plain(d),
    ensures
        crate::ansi::strip_ansi_spec(difficulty_colored_spec(d)) == d,
{
    crate::ansi::law_strip_undoes_colours(d);
    crate::ansi::law_strip_keeps_plain_text(d);
}

/// When a test run has no error and both answer lists are known, its report
/// shows the user's answers (`code_answer`) on the `Output:` line and the
/// judge's (`expected_code_answer`) on the `Expected:` line, between the
/// verdict line and the stdout.
pub proof fn law_test_report_answers(r: JudgeResult)
    requires
        error_report(r) is None,
        r.code_answer is Some,
        r.expected_code_answer is Some,
    ensures
        test_report(r) == verdict_line(test_passed(r), status_text(r)) + "\n"@ + ("\n"@
            + bold_spec("Output:"@) + "   "@ + debug_list_text(strings_view(r.code_answer->0@))
            + "\n"@ + bold_spec("Expected:"@) + " "@ + debug_list_text(
            strings_view(r.expected_code_answer->0@),
        ) + "\n"@) + stdout_section(r) + match r.status_runtime {
            Some(rt) => "Runtime: "@ + rt@ + "\n"@,
            None => Seq::empty(),
        },
{
}

/// When a submission has no error and its runtime and memory are known with
/// their percentiles, its report shows the runtime with the runtime
/// percentile and then the memory with the memory percentile, after the
/// verdict line and the passed cases.
pub proof fn law_submit_report_measures(r: JudgeResult)
    requires
        error_report(r) is None,
        r.status_runtime is Some,
        r.runtime_percentile is Some,
        r.status_memory is Some,
        r.memory_percentile is Some,
    ensures
        submit_report(r) == verdict_line(r.accepted_spec(), status_text(r)) + "\n"@ + cases_line(r)
            + ("Runtime: "@ + r.status_runtime->0@ + (" (beats "@ + r.runtime_percentile->0@
            + "%)"@) + "\n"@) + ("Memory: "@ + r.status_memory->0@ + (" (beats "@
            + r.memory_percentile->0@ + "%)"@) + "\n"@) + stdout_section(r) + failure_details(r),
{
}

/// The memory line of a submission report depends on the memory figures
/// alone: two runs that differ only in their runtime percentile get the same
/// memory line, and the line shows the memory percentile.
pub proof fn law_memory_line_ignores_runtime(r: JudgeResult, other: Option<String>)
    ensures
        measure_line("Memory: "@, r.status_memory, r.memory_percentile) == (match r.status_memory {
            Some(m) => "Memory: "@ + m@ + (match r.memory_percentile {
                Some(p) => " (beats "@ + p@ + "%)"@,
                None => Seq::empty(),
            }) + "\n"@,
            None => Seq::empty(),
        }),
        submit_report(JudgeResult { runtime_percentile: other, ..r }) == {
            if error_report(r) is Some {
                error_report(r)->0
            } else {
                verdict_line(r.accepted_spec(), status_text(r)) + "\n"@ + cases_line(r)
                    + measure_line("Runtime: "@, r.status_runtime, other) + measure_line(
                    "Memory: "@,
                    r.status_memory,
                    r.memory_percentile,
                ) + stdout_section(r) + failure_details(r)
            }
        },
{
    let r2 = JudgeResult { runtime_percentile: other, ..r };
    assert(error_report(r2) == error_report(r));
    assert(stdout_section(r2) == stdout_section(r));
    assert(failure_details(r2) == failure_details(r));
}

/// The link line of a problem view is the problem's page, built from its slug:
/// the same text as `problem_page_url("https://leetcode.com", slug)`.
pub proof fn law_detail_links_to_slug_page(d: ProblemDetail, body: Seq<char>)
    ensures
        detail_report(d, body) == bold_spec(d.frontend_id@) + " "@ + bold_spec(d.title@) + "  ["@
            + difficulty_colored_spec(d.difficulty@) + "]"@ + "\n"@ + ("https://leetcode.com"@
            + "/problems/"@ + d.slug@ + "/"@) + "\n"@ + "\n"@ + body + "\n"@,
{
    reveal_strlit("]\n");
    reveal_strlit("]");
    reveal_strlit("\n");
    reveal_strlit("https://leetcode.com/problems/");
    reveal_strlit("https://leetcode.com");
    reveal_strlit("/problems/");
    reveal_strlit("/\n\n");
    reveal_strlit("/");
    let a = bold_spec(d.frontend_id@) + " "@ + bold_spec(d.title@) + "  ["@
        + difficulty_colored_spec(d.difficulty@);
    assert(detail_report(d, body) =~= a + "]"@ + "\n"@ + ("https://leetcode.com"@ + "/problems/"@
        + d.slug@ + "/"@) + "\n"@ + "\n"@ + body + "\n"@);
}

} // verus!
