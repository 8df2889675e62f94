//! Shapes of the GraphQL responses of LeetCode's API.

use vstd::prelude::*;

verus! {

/// Envelope of a GraphQL response body: `{ "data": { ... }, "errors": [...] }`.
pub struct GqlResponse<T> {
    pub data: Option<T>,
    pub errors: Option<Vec<GqlError>>,
}

pub struct GqlError {
    pub message: String,
}

pub struct TopicTag {
    pub slug: String,
}

pub struct ProblemDetailData {
    pub question: Option<RawProblemDetail>,
}

pub struct RawProblemDetail {
    pub question_id: String,
    pub question_frontend_id: String,
    pub title: String,
    pub title_slug: String,
    pub difficulty: String,
    pub content: Option<String>,
    pub sample_test_case: Option<String>,
    pub example_testcases: Option<String>,
    pub code_snippets: Option<Vec<RawCodeSnippet>>,
}

pub struct RawCodeSnippet {
    pub lang: String,
    pub lang_slug: String,
    pub code: String,
}

pub struct DailyData {
    pub daily: Option<DailyChallenge>,
}

pub struct DailyChallenge {
    pub date: String,
    pub link: String,
    pub question: DailyQuestion,
}

pub struct DailyQuestion {
    pub question_frontend_id: String,
    pub title: String,
    pub title_slug: String,
    pub difficulty: String,
}

pub struct UserStatusData {
    pub user_status: UserStatus,
}

pub struct UserStatus {
    pub username: Option<String>,
    pub is_signed_in: bool,
}

pub struct UserProfileData {
    pub all_questions_count: Vec<DifficultyCount>,
    pub matched_user: Option<MatchedUser>,
}

pub struct DifficultyCount {
    pub difficulty: String,
    pub count: i64,
}

pub struct MatchedUser {
    pub submit_stats_global: SubmitStatsGlobal,
}

pub struct SubmitStatsGlobal {
    pub ac_submission_num: Vec<DifficultyCount>,
}

} // verus!
