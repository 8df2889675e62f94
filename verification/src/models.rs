//! Problems, judge verdicts and profile statistics.

use vstd::prelude::*;

use crate::text::text_eq;

verus! {

/// Starter code of a problem in one language.
pub struct CodeSnippet {
    pub lang: String,
    pub lang_slug: String,
    pub code: String,
}

/// Full problem detail used for `show`, `pick`, `test`, and `submit`.
pub struct ProblemDetail {
    pub question_id: i64,
    pub frontend_id: String,
    pub title: String,
    pub slug: String,
    pub difficulty: String,
    /// HTML problem statement.
    pub content: String,
    pub code_snippets: Vec<CodeSnippet>,
    /// Default sample test input.
    pub sample_test_case: String,
    /// All example test cases, newline separated.
    pub example_testcases: String,
}

/// ASCII lower case of `c`; other characters are kept.
pub open spec fn ascii_lower(c: char) -> char {
    if 'A' <= c && c <= 'Z' {
        ((c as u32) + 32) as char
    } else {
        c
    }
}

/// Two strings match ignoring ASCII case.
pub open spec fn eq_ignore_ascii_case_spec(a: Seq<char>, b: Seq<char>) -> bool {
    &&& a.len() == b.len()
    &&& forall|i: int| 0 <= i < a.len() ==> ascii_lower(#[trigger] a[i]) == ascii_lower(b[i])
}

/// `str::eq_ignore_ascii_case`: the two strings are equal once ASCII letters
/// are lower-cased on both sides.
#[verifier::external_body]
pub(crate) fn eq_ignore_ascii_case(a: &str, b: &str) -> (r: bool)
    ensures
        r == eq_ignore_ascii_case_spec(a@, b@),
{
    a.eq_ignore_ascii_case(b)
}

impl ProblemDetail {
    pub open spec fn snippet_matches(&self, i: int, lang_slug: Seq<char>) -> bool {
        eq_ignore_ascii_case_spec(self.code_snippets@[i].lang_slug@, lang_slug)
    }

    /// Find the code snippet matching a language slug, ignoring ASCII case:
    /// the first such snippet, or `None` when no snippet matches.
    pub fn snippet_for(&self, lang_slug: &str) -> (r: Option<&CodeSnippet>)
        ensures
            r is None <==> forall|i: int|
                0 <= i < self.code_snippets@.len() ==> !self.snippet_matches(i, lang_slug@),
            r matches Some(s) ==> exists|i: int|
                0 <= i < self.code_snippets@.len() && self.snippet_matches(i, lang_slug@)
                    && (forall|j: int| 0 <= j < i ==> !self.snippet_matches(j, lang_slug@)) && *s
                    == self.code_snippets@[i],
    {
        let mut i: usize = 0;
        while i < self.code_snippets.len()
            invariant
                0 <= i <= self.code_snippets@.len(),
                forall|j: int| 0 <= j < i ==> !self.snippet_matches(j, lang_slug@),
            decreases self.code_snippets@.len() - i,
        {
            if eq_ignore_ascii_case(self.code_snippets[i].lang_slug.as_str(), lang_slug) {
                assert(self.snippet_matches(i as int, lang_slug@));
                return Some(&self.code_snippets[i]);
            }
            i = i + 1;
        }
        None
    }
}

/// Result of polling the judge for a test or submit run.
///
/// The two percentiles hold the judge's figures as shown to the user, with
/// one decimal (`42.5`).
pub struct JudgeResult {
    pub state: String,
    pub status_msg: Option<String>,
    pub run_success: Option<bool>,
    pub total_correct: Option<i64>,
    pub total_testcases: Option<i64>,
    pub status_runtime: Option<String>,
    pub status_memory: Option<String>,
    pub runtime_percentile: Option<String>,
    pub memory_percentile: Option<String>,
    /// Answers produced by the user's code (interpret/test only).
    pub code_answer: Option<Vec<String>>,
    /// Expected answers (interpret/test only).
    pub expected_code_answer: Option<Vec<String>>,
    /// Captured stdout per test case (interpret/test only).
    pub std_output_list: Option<Vec<String>>,
    /// Captured stdout (submit; often truncated).
    pub std_output: Option<String>,
    pub compare_result: Option<String>,
    pub full_compile_error: Option<String>,
    pub full_runtime_error: Option<String>,
    pub compile_err: Option<String>,
    pub runtime_error: Option<String>,
    pub last_testcase: Option<String>,
    pub expected_output: Option<String>,
}

impl Default for JudgeResult {
    fn default() -> (r: JudgeResult)
        ensures
            r.state@ == Seq::<char>::empty(),
            r.status_msg is None,
            r.run_success is None,
            r.total_correct is None,
            r.total_testcases is None,
            r.status_runtime is None,
            r.status_memory is None,
            r.runtime_percentile is None,
            r.memory_percentile is None,
            r.code_answer is None,
            r.expected_code_answer is None,
            r.std_output_list is None,
            r.std_output is None,
            r.compare_result is None,
            r.full_compile_error is None,
            r.full_runtime_error is None,
            r.compile_err is None,
            r.runtime_error is None,
            r.last_testcase is None,
            r.expected_output is None,
    {
        JudgeResult {
            state: String::new(),
            status_msg: None,
            run_success: None,
            total_correct: None,
            total_testcases: None,
            status_runtime: None,
            status_memory: None,
            runtime_percentile: None,
            memory_percentile: None,
            code_answer: None,
            expected_code_answer: None,
            std_output_list: None,
            std_output: None,
            compare_result: None,
            full_compile_error: None,
            full_runtime_error: None,
            compile_err: None,
            runtime_error: None,
            last_testcase: None,
            expected_output: None,
        }
    }
}

impl JudgeResult {
    pub open spec fn is_done_spec(&self) -> bool {
        self.state@ == "SUCCESS"@
    }

    pub open spec fn accepted_spec(&self) -> bool {
        self.status_msg matches Some(m) && m@ == "Accepted"@
    }

    /// The judge has finished: its state is `SUCCESS`.
    pub fn is_done(&self) -> (r: bool)
        ensures
            r == self.is_done_spec(),
    {
        text_eq(self.state.as_str(), "SUCCESS")
    }

    /// The verdict is `Accepted`.
    pub fn accepted(&self) -> (r: bool)
        ensures
            r == self.accepted_spec(),
    {
        match &self.status_msg {
            Some(m) => text_eq(m.as_str(), "Accepted"),
            None => false,
        }
    }
}

/// Solved-vs-total counts for one difficulty band.
pub struct DifficultyStat {
    pub solved: i64,
    pub total: i64,
}

/// A user's overall solve statistics, broken down by difficulty.
pub struct ProfileStats {
    pub username: String,
    pub easy: DifficultyStat,
    pub medium: DifficultyStat,
    pub hard: DifficultyStat,
    pub total: DifficultyStat,
}

} // verus!
