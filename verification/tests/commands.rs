use lcx::commands::{
    cache_summary, daily_heading, daily_link, fetch_progress, missing_metadata_message,
    missing_solution_message, needs_login, next_page, poll_delay_ms, poll_step,
    poll_timeout_message, require_auth, problem_page_url, interpret_url, submit_url, check_url,
    run_banner, resolve_slug, starter_code_text, target_lang, test_input,
    PollStep, MAX_POLL_ATTEMPTS, PAGE_SIZE,
};
use lcx::commands::{
    missing_run_id_message, reply_parse_context, reply_read_context, request_failed_message,
};
use lcx::models::{CodeSnippet, ProblemDetail};

#[test]
fn resolve_slug_prefers_cache() {
    assert_eq!(resolve_slug(Some("two-sum"), "1"), "two-sum");
    assert_eq!(resolve_slug(None, "two-sum"), "two-sum");
}

#[test]
fn require_auth_message() {
    assert_eq!(require_auth(true), Ok(()));
    assert_eq!(
        require_auth(false),
        Err("not logged in. Run `lcx login` first (see README for how to get cookies)".to_string())
    );
}

#[test]
fn login_needed() {
    assert!(needs_login(false, false));
    assert!(needs_login(false, true));
    assert!(needs_login(true, false));
    assert!(!needs_login(true, true));
}

#[test]
fn test_input_choice() {
    assert_eq!(test_input(Some("[1]"), "ex", "sample"), Ok("[1]".to_string()));
    assert_eq!(test_input(None, "ex", "sample"), Ok("ex".to_string()));
    assert_eq!(test_input(None, "", "sample"), Ok("sample".to_string()));
    let err = Err("no test input available; provide one with --case".to_string());
    assert_eq!(test_input(None, "", " \n"), err);
    assert_eq!(test_input(Some("  "), "ex", "sample"), err);
}

#[test]
fn target_language_order() {
    assert_eq!(target_lang(Some("rust"), Some("cpp"), "python3"), "rust");
    assert_eq!(target_lang(None, Some("cpp"), "python3"), "cpp");
    assert_eq!(target_lang(None, None, "python3"), "python3");
}

#[test]
fn target_messages() {
    assert_eq!(
        missing_metadata_message("a.txt"),
        "could not determine the problem for 'a.txt'. Use `lcx pick` to generate a file with metadata, or pass an id/slug."
    );
    assert_eq!(
        missing_solution_message("1", "two-sum", "1"),
        "no solution file found for 1 (two-sum). Run `lcx pick 1` first."
    );
}

#[test]
fn poll_backoff_and_steps() {
    assert_eq!(poll_delay_ms(0), 300);
    assert_eq!(poll_delay_ms(3), 600);
    assert_eq!(poll_delay_ms(7), 1000);
    assert_eq!(poll_delay_ms(59), 1000);
    assert_eq!(poll_step(0, true), PollStep::Done);
    assert_eq!(poll_step(0, false), PollStep::Retry { wait_ms: 300 });
    assert_eq!(poll_step(58, false), PollStep::Retry { wait_ms: 1000 });
    assert_eq!(poll_step(MAX_POLL_ATTEMPTS - 1, false), PollStep::GiveUp { wait_ms: 1000 });
    assert_eq!(poll_timeout_message(), "judge timed out waiting for a result");
}

#[test]
fn paging() {
    assert_eq!(PAGE_SIZE, 500);
    assert_eq!(next_page(0, 500, 1200), Some(500));
    assert_eq!(next_page(1000, 200, 1200), None);
    assert_eq!(next_page(0, 0, 1200), None);
    assert_eq!(fetch_progress(500, 1200), "\r  500 / 1200 problems");
}

#[test]
fn cache_summaries() {
    assert_eq!(cache_summary(0), "Cache is empty. Run `lcx cache --update` to populate it.");
    assert_eq!(cache_summary(3521), "3521 problems cached.");
}

#[test]
fn daily_text() {
    assert_eq!(
        daily_heading("2024-01-01", "1", "Two Sum", "Easy"),
        "Daily Challenge (2024-01-01): 1 Two Sum  [\x1b[32mEasy\x1b[39m]"
    );
    assert_eq!(daily_link("/problems/two-sum/"), "https://leetcode.com/problems/two-sum/");
}

#[test]
fn starter_code() {
    let d = ProblemDetail {
        question_id: 1,
        frontend_id: "1".to_string(),
        title: "Two Sum".to_string(),
        slug: "two-sum".to_string(),
        difficulty: "Easy".to_string(),
        content: String::new(),
        code_snippets: vec![CodeSnippet {
            lang: "Rust".to_string(),
            lang_slug: "rust".to_string(),
            code: "impl Solution {}".to_string(),
        }],
        sample_test_case: String::new(),
        example_testcases: String::new(),
    };
    assert_eq!(starter_code_text(&d, "Rust"), "\n--- Rust ---\nimpl Solution {}\n");
    assert_eq!(starter_code_text(&d, "go"), "\nNo starter code for language 'go'.\n");
}

#[test]
fn judge_urls_and_banners() {
    let base = "https://leetcode.com";
    assert_eq!(problem_page_url(base, "two-sum"), "https://leetcode.com/problems/two-sum/");
    assert_eq!(
        interpret_url(base, "two-sum"),
        "https://leetcode.com/problems/two-sum/interpret_solution/"
    );
    assert_eq!(submit_url(base, "two-sum"), "https://leetcode.com/problems/two-sum/submit/");
    assert_eq!(check_url(base, "123"), "https://leetcode.com/submissions/detail/123/check/");
    assert_eq!(run_banner(false, "1", "rust"), "Testing 1 (rust)...");
    assert_eq!(run_banner(true, "1", "rust"), "Submitting 1 (rust)...");
}

#[test]
fn judge_reply_messages() {
    assert_eq!(
        request_failed_message("test", "403 Forbidden", "denied"),
        "test request failed (403 Forbidden): denied"
    );
    assert_eq!(reply_parse_context("submit", "<html>"), "parsing submit response: <html>");
    assert_eq!(reply_read_context("interpret"), "reading interpret response");
    assert_eq!(
        missing_run_id_message("submission_id"),
        "no submission_id returned (are you logged in?)"
    );
}
