//! Decisions and messages of the command-line subcommands.

use vstd::prelude::*;

use crate::models::ProblemDetail;
use crate::render::{difficulty_colored, difficulty_colored_spec};
use crate::text::{append, i64_text, is_blank, is_blank_spec, owned, usize_text, decimal_text};

verus! {

/// Resolve an id/slug key to a title slug: the slug that the cache holds for
/// the key when it has one, otherwise the key itself, taken as a slug.
pub fn resolve_slug(cached_slug: Option<&str>, key: &str) -> (r: String)
    ensures
        r@ == (match cached_slug {
            Some(s) => s@,
            None => key@,
        }),
{
    match cached_slug {
        Some(s) => owned(s),
        None => owned(key),
    }
}

pub open spec fn not_logged_in_message() -> Seq<char> {
    "not logged in. Run `lcx login` first (see README for how to get cookies)"@
}

/// Ensure we have credentials, failing with a helpful message otherwise.
pub fn require_auth(authenticated: bool) -> (r: Result<(), String>)
    ensures
        r is Ok <==> authenticated,
        r matches Err(m) ==> m@ == not_logged_in_message(),
{
    if !authenticated {
        return Err(owned("not logged in. Run `lcx login` first (see README for how to get cookies)"));
    }
    Ok(())
}

/// Whether the login prompt is due: there are no saved credentials, or the
/// saved ones do not verify (no signed-in user came back).
pub fn needs_login(authenticated: bool, verified_user: bool) -> (r: bool)
    ensures
        r == (!authenticated || !verified_user),
{
    !authenticated || !verified_user
}

pub open spec fn test_input_spec(
    case: Option<Seq<char>>,
    example: Seq<char>,
    sample: Seq<char>,
) -> Seq<char> {
    match case {
        Some(c) => c,
        None => if example.len() > 0 {
            example
        } else {
            sample
        },
    }
}

pub open spec fn no_input_message() -> Seq<char> {
    "no test input available; provide one with --case"@
}

/// The input of a test run: the custom case when given, else the problem's
/// example test cases, else its sample test case. Blank input is refused.
pub fn test_input(case: Option<&str>, example_testcases: &str, sample_test_case: &str) -> (r:
    Result<String, String>)
    ensures
        ({
            let input = test_input_spec(
                match case {
                    Some(c) => Some(c@),
                    None => None,
                },
                example_testcases@,
                sample_test_case@,
            );
            &&& r is Ok <==> !is_blank_spec(input)
            &&& r matches Ok(s) ==> s@ == input
            &&& r matches Err(m) ==> m@ == no_input_message()
        }),
{
    let input = match case {
        Some(c) => owned(c),
        None => if !example_testcases.is_empty() {
            owned(example_testcases)
        } else {
            owned(sample_test_case)
        },
    };
    if is_blank(input.as_str()) {
        return Err(owned("no test input available; provide one with --case"));
    }
    Ok(input)
}

/// The language of a test or submit target: the one asked for, else the one
/// that the solution file records, else the fallback.
pub fn target_lang(lang_override: Option<&str>, recorded: Option<&str>, fallback: &str) -> (r:
    String)
    ensures
        r@ == (match lang_override {
            Some(l) => l@,
            None => match recorded {
                Some(l) => l@,
                None => fallback@,
            },
        }),
{
    match lang_override {
        Some(l) => owned(l),
        None => match recorded {
            Some(l) => owned(l),
            None => owned(fallback),
        },
    }
}

/// Error for a solution file that records no problem.
pub fn missing_metadata_message(target: &str) -> (r: String)
    ensures
        r@ == "could not determine the problem for '"@ + target@
            + "'. Use `lcx pick` to generate a file with metadata, or pass an id/slug."@,
{
    let mut out = owned("could not determine the problem for '");
    append(&mut out, target);
    append(&mut out, "'. Use `lcx pick` to generate a file with metadata, or pass an id/slug.");
    out
}

/// Error for a problem without a solution file.
pub fn missing_solution_message(frontend_id: &str, slug: &str, target: &str) -> (r: String)
    ensures
        r@ == "no solution file found for "@ + frontend_id@ + " ("@ + slug@ + "). Run `lcx pick "@
            + target@ + "` first."@,
{
    let mut out = owned("no solution file found for ");
    append(&mut out, frontend_id);
    append(&mut out, " (");
    append(&mut out, slug);
    append(&mut out, "). Run `lcx pick ");
    append(&mut out, target);
    append(&mut out, "` first.");
    out
}

/// Attempts at polling the judge before giving up.
pub const MAX_POLL_ATTEMPTS: u64 = 60;

pub open spec fn poll_delay_spec(attempt: u64) -> u64 {
    (300 + (if attempt < 7 {
        attempt
    } else {
        7
    }) * 100) as u64
}

/// Gentle backoff between polls: 300 ms, ramping up by 100 ms per attempt to
/// 1 s from the eighth attempt on.
pub fn poll_delay_ms(attempt: u64) -> (r: u64)
    ensures
        r == poll_delay_spec(attempt),
{
    let a = if attempt < 7 {
        attempt
    } else {
        7
    };
    300 + a * 100
}

/// What to do after a poll of the judge.
#[derive(Clone, Copy, Debug, PartialEq, Eq)]
pub enum PollStep {
    /// The verdict is in.
    Done,
    /// Wait, then poll again.
    Retry { wait_ms: u64 },
    /// Wait, then give up: that was the last attempt.
    GiveUp { wait_ms: u64 },
}

/// The decision after poll number `attempt` (from 0): stop when the judge is
/// done; else wait out the backoff and poll again, unless that was the last of
/// `MAX_POLL_ATTEMPTS` attempts.
pub open spec fn poll_step_spec(attempt: u64, done: bool) -> PollStep {
    if done {
        PollStep::Done
    } else if attempt + 1 < MAX_POLL_ATTEMPTS {
        PollStep::Retry { wait_ms: poll_delay_spec(attempt) }
    } else {
        PollStep::GiveUp { wait_ms: poll_delay_spec(attempt) }
    }
}

/// The decision after a poll of the judge; see `poll_step_spec`.
pub fn poll_step(attempt: u64, done: bool) -> (r: PollStep)
    requires
        attempt < MAX_POLL_ATTEMPTS,
    ensures
        r == poll_step_spec(attempt, done),
{
    if done {
        PollStep::Done
    } else if attempt + 1 < MAX_POLL_ATTEMPTS {
        PollStep::Retry { wait_ms: poll_delay_ms(attempt) }
    } else {
        PollStep::GiveUp { wait_ms: poll_delay_ms(attempt) }
    }
}

/// Error once the judge has not finished after the last attempt.
pub fn poll_timeout_message() -> (r: &'static str)
    ensures
        r@ == "judge timed out waiting for a result"@,
{
    "judge timed out waiting for a result"
}

/// The backoff between polls stays between 300 ms and 1 s and never shrinks
/// from one attempt to the next.
pub proof fn law_poll_backoff_bounded_and_monotone(a: u64, b: u64)
    requires
        a <= b,
    ensures
        300 <= poll_delay_spec(a) <= 1000,
        poll_delay_spec(a) <= poll_delay_spec(b),
{
}

/// The judge is polled at most `MAX_POLL_ATTEMPTS` times: an unfinished poll
/// asks for another exactly while attempts remain, and a finished one never
/// does.
pub proof fn law_poll_attempts_bounded(attempt: u64, done: bool)
    requires
        attempt < MAX_POLL_ATTEMPTS,
    ensures
        (poll_step_spec(attempt, done) is Retry) <==> (!done && attempt + 1 < MAX_POLL_ATTEMPTS),
        (poll_step_spec(attempt, done) is GiveUp) <==> (!done && attempt + 1
            == MAX_POLL_ATTEMPTS),
        done ==> poll_step_spec(attempt, done) == PollStep::Done,
{
}

/// Problems asked for per page when the problem list is fetched.
pub const PAGE_SIZE: i64 = 500;

/// Where to continue after fetching a page of `fetched` problems at offset
/// `skip` of `total`: the next offset, or `None` when the list is done (an
/// empty page, or the offset has reached the total).
pub fn next_page(skip: i64, fetched: i64, total: i64) -> (r: Option<i64>)
    requires
        0 <= fetched,
        skip + fetched <= i64::MAX,
    ensures
        r is None <==> (fetched == 0 || skip + fetched >= total),
        r matches Some(s) ==> s == skip + fetched,
{
    let next = skip + fetched;
    if fetched == 0 || next >= total {
        None
    } else {
        Some(next)
    }
}

/// Paging makes progress: each next offset is past the last one and short of
/// the total, so the fetch loop ends.
pub proof fn law_next_page_progress(skip: i64, fetched: i64, total: i64, next: i64)
    requires
        0 <= fetched,
        skip + fetched <= i64::MAX,
        !(fetched == 0 || skip + fetched >= total),
        next == skip + fetched,
    ensures
        skip < next < total,
{
}

/// The progress line shown while the problem list is fetched.
pub fn fetch_progress(count: usize, total: i64) -> (r: String)
    ensures
        r@ == "\r  "@ + decimal_text(count as int) + " / "@ + decimal_text(total as int)
            + " problems"@,
{
    let mut out = owned("\r  ");
    let c = usize_text(count);
    append(&mut out, c.as_str());
    append(&mut out, " / ");
    let t = i64_text(total);
    append(&mut out, t.as_str());
    append(&mut out, " problems");
    out
}

/// What `cache` reports about a cache of `n` problems.
pub fn cache_summary(n: i64) -> (r: String)
    ensures
        n == 0 ==> r@ == "Cache is empty. Run `lcx cache --update` to populate it."@,
        n != 0 ==> r@ == decimal_text(n as int) + " problems cached."@,
{
    if n == 0 {
        owned("Cache is empty. Run `lcx cache --update` to populate it.")
    } else {
        let mut out = i64_text(n);
        append(&mut out, " problems cached.");
        out
    }
}

/// The heading of the daily challenge: its date, id, title and coloured
/// difficulty.
pub fn daily_heading(date: &str, frontend_id: &str, title: &str, difficulty: &str) -> (r: String)
    ensures
        r@ == "Daily Challenge ("@ + date@ + "): "@ + frontend_id@ + " "@ + title@ + "  ["@
            + difficulty_colored_spec(difficulty@) + "]"@,
{
    let mut out = owned("Daily Challenge (");
    append(&mut out, date);
    append(&mut out, "): ");
    append(&mut out, frontend_id);
    append(&mut out, " ");
    append(&mut out, title);
    append(&mut out, "  [");
    let d = difficulty_colored(difficulty);
    append(&mut out, d.as_str());
    append(&mut out, "]");
    out
}

/// The full link of the daily challenge, from its site-relative path.
pub fn daily_link(link: &str) -> (r: String)
    ensures
        r@ == "https://leetcode.com"@ + link@,
{
    let mut out = owned("https://leetcode.com");
    append(&mut out, link);
    out
}

/// What `show --code` prints after the statement: the starter code for the
/// language under its name, or a note that there is none.
pub fn starter_code_text(detail: &ProblemDetail, lang_slug: &str) -> (r: String)
    ensures
        (forall|i: int|
            0 <= i < detail.code_snippets@.len() ==> !detail.snippet_matches(i, lang_slug@))
            ==> r@ == "\nNo starter code for language '"@ + lang_slug@ + "'.\n"@,
        (exists|i: int|
            0 <= i < detail.code_snippets@.len() && detail.snippet_matches(i, lang_slug@)) ==>
            exists|i: int|
                0 <= i < detail.code_snippets@.len() && detail.snippet_matches(i, lang_slug@) && (
                forall|j: int| 0 <= j < i ==> !detail.snippet_matches(j, lang_slug@)) && r@
                    == "\n--- "@ + detail.code_snippets@[i].lang@ + " ---\n"@
                    + detail.code_snippets@[i].code@ + "\n"@,
{
    match detail.snippet_for(lang_slug) {
        Some(snippet) => {
            let mut out = owned("\n--- ");
            append(&mut out, snippet.lang.as_str());
            append(&mut out, " ---\n");
            append(&mut out, snippet.code.as_str());
            append(&mut out, "\n");
            out
        },
        None => {
            let mut out = owned("\nNo starter code for language '");
            append(&mut out, lang_slug);
            append(&mut out, "'.\n");
            out
        },
    }
}

/// The page of a problem on the site, sent as referer with judge requests:
/// `{base}/problems/{slug}/`.
pub fn problem_page_url(base: &str, slug: &str) -> (r: String)
    ensures
        r@ == base@ + "/problems/"@ + slug@ + "/"@,
{
    let mut out = owned(base);
    append(&mut out, "/problems/");
    append(&mut out, slug);
    append(&mut out, "/");
    out
}

/// Where a test run is sent: `{base}/problems/{slug}/interpret_solution/`.
pub fn interpret_url(base: &str, slug: &str) -> (r: String)
    ensures
        r@ == base@ + "/problems/"@ + slug@ + "/interpret_solution/"@,
{
    let mut out = owned(base);
    append(&mut out, "/problems/");
    append(&mut out, slug);
    append(&mut out, "/interpret_solution/");
    out
}

/// Where a submission is sent: `{base}/problems/{slug}/submit/`.
pub fn submit_url(base: &str, slug: &str) -> (r: String)
    ensures
        r@ == base@ + "/problems/"@ + slug@ + "/submit/"@,
{
    let mut out = owned(base);
    append(&mut out, "/problems/");
    append(&mut out, slug);
    append(&mut out, "/submit/");
    out
}

/// Where the verdict of a run is polled: `{base}/submissions/detail/{id}/check/`.
pub fn check_url(base: &str, id: &str) -> (r: String)
    ensures
        r@ == base@ + "/submissions/detail/"@ + id@ + "/check/"@,
{
    let mut out = owned(base);
    append(&mut out, "/submissions/detail/");
    append(&mut out, id);
    append(&mut out, "/check/");
    out
}

/// The line announcing a run: `Testing ID (LANG)...` or `Submitting ID (LANG)...`.
pub fn run_banner(submitting: bool, frontend_id: &str, lang_slug: &str) -> (r: String)
    ensures
        r@ == (if submitting {
            "Submitting "@
        } else {
            "Testing "@
        }) + frontend_id@ + " ("@ + lang_slug@ + ")..."@,
{
    let mut out = if submitting {
        owned("Submitting ")
    } else {
        owned("Testing ")
    };
    append(&mut out, frontend_id);
    append(&mut out, " (");
    append(&mut out, lang_slug);
    append(&mut out, ")...");
    out
}

/// Error for a judge request that the server refused: which request (`test`
/// or `submit`), the HTTP status and the reply.
pub fn request_failed_message(what: &str, status: &str, reply: &str) -> (r: String)
    ensures
        r@ == what@ + " request failed ("@ + status@ + "): "@ + reply@,
{
    let mut out = owned(what);
    append(&mut out, " request failed (");
    append(&mut out, status);
    append(&mut out, "): ");
    append(&mut out, reply);
    out
}

/// Context of a judge reply that could not be parsed: which reply
/// (`interpret` or `submit`) and its text.
pub fn reply_parse_context(what: &str, reply: &str) -> (r: String)
    ensures
        r@ == "parsing "@ + what@ + " response: "@ + reply@,
{
    let mut out = owned("parsing ");
    append(&mut out, what);
    append(&mut out, " response: ");
    append(&mut out, reply);
    out
}

/// Context of a judge reply that could not be read: which reply
/// (`interpret` or `submit`).
pub fn reply_read_context(what: &str) -> (r: String)
    ensures
        r@ == "reading "@ + what@ + " response"@,
{
    let mut out = owned("reading ");
    append(&mut out, what);
    append(&mut out, " response");
    out
}

/// Error for a judge reply without the id of the run: which id
/// (`interpret_id` or `submission_id`).
pub fn missing_run_id_message(field: &str) -> (r: String)
    ensures
        r@ == "no "@ + field@ + " returned (are you logged in?)"@,
{
    let mut out = owned("no ");
    append(&mut out, field);
    append(&mut out, " returned (are you logged in?)");
    out
}

} // verus!
