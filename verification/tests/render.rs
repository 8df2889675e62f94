use lcx::models::JudgeResult;
use lcx::render::status_tint;
use lcx::render::{
    compile_or_runtime_error, difficulty_colored, difficulty_tint, format_submit_result,
    format_test_result, html_to_text, status_symbol, stdout_text, Tint,
};

fn g(s: &str) -> String {
    format!("\x1b[32m{s}\x1b[39m")
}
fn r(s: &str) -> String {
    format!("\x1b[31m{s}\x1b[39m")
}
fn b(s: &str) -> String {
    format!("\x1b[1m{s}\x1b[0m")
}
fn strings(v: &[&str]) -> Vec<String> {
    v.iter().map(|s| s.to_string()).collect()
}

#[test]
fn difficulty_labels() {
    assert_eq!(difficulty_colored("Easy"), g("Easy"));
    assert_eq!(difficulty_colored("Medium"), "\x1b[33mMedium\x1b[39m");
    assert_eq!(difficulty_colored("Hard"), r("Hard"));
    assert_eq!(difficulty_colored("easy"), "easy");
    assert_eq!(difficulty_tint("Easy"), Some(Tint::Green));
    assert_eq!(difficulty_tint("Medium"), Some(Tint::Yellow));
    assert_eq!(difficulty_tint("Hard"), Some(Tint::Red));
    assert_eq!(difficulty_tint("?"), None);
}

#[test]
fn status_symbols() {
    assert_eq!(status_symbol(Some("ac")), "\u{2714}");
    assert_eq!(status_symbol(Some("notac")), "\u{2717}");
    assert_eq!(status_symbol(Some("other")), " ");
    assert_eq!(status_symbol(None), " ");
}

#[test]
fn compile_error_comes_first() {
    let res = JudgeResult {
        full_compile_error: Some("line 1: boom".to_string()),
        compile_err: Some("short".to_string()),
        runtime_error: Some("rt".to_string()),
        status_msg: Some("Compile Error".to_string()),
        ..Default::default()
    };
    let expected = format!("{}\nline 1: boom", b(&r("Compile Error")));
    assert_eq!(compile_or_runtime_error(&res), Some(expected.clone()));
    assert_eq!(format_test_result(&res), expected);
    assert_eq!(format_submit_result(&res), expected);
}

#[test]
fn empty_full_error_does_not_fall_back() {
    // `full_compile_error` wins even when empty, and then nothing is reported for it.
    let res = JudgeResult {
        full_compile_error: Some(String::new()),
        compile_err: Some("short".to_string()),
        runtime_error: Some("division by zero".to_string()),
        ..Default::default()
    };
    assert_eq!(
        compile_or_runtime_error(&res),
        Some(format!("{}\ndivision by zero", b(&r("Runtime Error"))))
    );
    let none = JudgeResult { compile_err: Some(String::new()), ..Default::default() };
    assert_eq!(compile_or_runtime_error(&none), None);
}

#[test]
fn stdout_prefers_case_list() {
    let res = JudgeResult {
        std_output_list: Some(strings(&["", "hi", "  ", "there"])),
        std_output: Some("submit out".to_string()),
        ..Default::default()
    };
    assert_eq!(stdout_text(&res), Some("hi\nthere".to_string()));
    let blank_list = JudgeResult {
        std_output_list: Some(strings(&[" ", "\n"])),
        std_output: Some("submit out".to_string()),
        ..Default::default()
    };
    assert_eq!(stdout_text(&blank_list), Some("submit out".to_string()));
    let nothing = JudgeResult { std_output: Some(" \t".to_string()), ..Default::default() };
    assert_eq!(stdout_text(&nothing), None);
}

#[test]
fn test_report_passed() {
    let res = JudgeResult {
        state: "SUCCESS".to_string(),
        status_msg: Some("Accepted".to_string()),
        run_success: Some(true),
        compare_result: Some("111".to_string()),
        code_answer: Some(strings(&["1", "2"])),
        expected_code_answer: Some(strings(&["1", "2"])),
        std_output_list: Some(strings(&["", "hi", "  "])),
        status_runtime: Some("0 ms".to_string()),
        ..Default::default()
    };
    let expected = format!(
        "{}  {}\n\n{}   [\"1\", \"2\"]\n{} [\"1\", \"2\"]\n\n{}\nhi\nRuntime: 0 ms\n",
        g("\u{2714}"),
        b(&g("Accepted")),
        b("Output:"),
        b("Expected:"),
        b("Stdout:")
    );
    assert_eq!(format_test_result(&res), expected);
}

#[test]
fn test_report_failed_compare() {
    let res = JudgeResult {
        status_msg: Some("Accepted".to_string()),
        run_success: Some(true),
        compare_result: Some("101".to_string()),
        ..Default::default()
    };
    assert_eq!(format_test_result(&res), format!("{}  {}\n", r("\u{2717}"), b(&r("Accepted"))));
    let empty_compare = JudgeResult {
        run_success: Some(true),
        compare_result: Some(String::new()),
        ..Default::default()
    };
    assert_eq!(
        format_test_result(&empty_compare),
        format!("{}  {}\n", r("\u{2717}"), b(&r("Unknown")))
    );
}

#[test]
fn submit_report_accepted() {
    let res = JudgeResult {
        status_msg: Some("Accepted".to_string()),
        total_correct: Some(63),
        total_testcases: Some(63),
        status_runtime: Some("4 ms".to_string()),
        runtime_percentile: Some("91.3".to_string()),
        status_memory: Some("2.1 MB".to_string()),
        last_testcase: Some("[1]".to_string()),
        ..Default::default()
    };
    let expected = format!(
        "{}  {}\nCases: 63/63\nRuntime: 4 ms (beats 91.3%)\nMemory: 2.1 MB\n",
        g("\u{2714}"),
        b(&g("Accepted"))
    );
    assert_eq!(format_submit_result(&res), expected);
}

#[test]
fn submit_report_wrong_answer() {
    let res = JudgeResult {
        status_msg: Some("Wrong Answer".to_string()),
        total_correct: Some(-1),
        total_testcases: Some(10),
        std_output: Some("dbg".to_string()),
        last_testcase: Some("[1,2]".to_string()),
        expected_output: Some("3".to_string()),
        ..Default::default()
    };
    let expected = format!(
        "{}  {}\nCases: -1/10\n\n{}\ndbg\n\n{}\n[1,2]\n{} 3\n",
        r("\u{2717}"),
        b(&r("Wrong Answer")),
        b("Stdout:"),
        b("Last testcase:"),
        b("Expected:")
    );
    assert_eq!(format_submit_result(&res), expected);
}

#[test]
fn html_text_of_paragraph() {
    let t = html_to_text("<p>Two <b>sum</b></p>").unwrap();
    assert!(t.contains("Two"));
    assert!(t.contains("sum"));
    assert!(!t.contains('<'));
}

#[test]
fn status_tints() {
    assert_eq!(status_tint(Some("ac")), Some(Tint::Green));
    assert_eq!(status_tint(Some("notac")), Some(Tint::Yellow));
    assert_eq!(status_tint(Some("x")), None);
    assert_eq!(status_tint(None), None);
}
