use lcx::models::{CodeSnippet, JudgeResult, ProblemDetail};

fn snippet(lang: &str, slug: &str, code: &str) -> CodeSnippet {
    CodeSnippet { lang: lang.to_string(), lang_slug: slug.to_string(), code: code.to_string() }
}

fn detail() -> ProblemDetail {
    ProblemDetail {
        question_id: 1,
        frontend_id: "1".to_string(),
        title: "Two Sum".to_string(),
        slug: "two-sum".to_string(),
        difficulty: "Easy".to_string(),
        content: "<p>Find two numbers.</p>".to_string(),
        code_snippets: vec![
            snippet("C++", "cpp", "class Solution {};"),
            snippet("Python3", "python3", "class Solution:"),
            snippet("Python3 again", "Python3", "dup"),
        ],
        sample_test_case: "[2,7]\n9".to_string(),
        example_testcases: String::new(),
    }
}

#[test]
fn snippet_for_ignores_ascii_case_and_takes_first() {
    let d = detail();
    assert_eq!(d.snippet_for("PYTHON3").map(|s| s.lang.as_str()), Some("Python3"));
    assert_eq!(d.snippet_for("cpp").map(|s| s.code.as_str()), Some("class Solution {};"));
    assert!(d.snippet_for("rust").is_none());
    assert!(d.snippet_for("").is_none());
}

#[test]
fn judge_states() {
    let done = JudgeResult { state: "SUCCESS".to_string(), ..Default::default() };
    assert!(done.is_done());
    let pending = JudgeResult { state: "PENDING".to_string(), ..Default::default() };
    assert!(!pending.is_done());
    let acc = JudgeResult { status_msg: Some("Accepted".to_string()), ..Default::default() };
    assert!(acc.accepted());
    let wa = JudgeResult { status_msg: Some("Wrong Answer".to_string()), ..Default::default() };
    assert!(!wa.accepted());
    assert!(!JudgeResult::default().accepted());
}
