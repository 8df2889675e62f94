use lcx::ansi::strip_ansi;
use lcx::models::JudgeResult;
use lcx::render::{difficulty_colored, format_submit_result};

#[test]
fn colours_are_sgr_wrapped() {
    assert_eq!(difficulty_colored("Easy"), "\x1b[32mEasy\x1b[39m");
    assert_eq!(difficulty_colored("Medium"), "\x1b[33mMedium\x1b[39m");
    assert_eq!(difficulty_colored("Hard"), "\x1b[31mHard\x1b[39m");
    let res = JudgeResult { status_msg: Some("Accepted".to_string()), ..Default::default() };
    assert_eq!(
        format_submit_result(&res),
        "\x1b[32m\u{2714}\x1b[39m  \x1b[1m\x1b[32mAccepted\x1b[39m\x1b[0m\n"
    );
}

#[test]
fn strip_ansi_removes_sequences() {
    assert_eq!(strip_ansi("\x1b[1m\x1b[31mCompile Error\x1b[39m\x1b[0m\nboom"), "Compile Error\nboom");
    assert_eq!(strip_ansi("plain text"), "plain text");
    assert_eq!(strip_ansi(""), "");
}

#[test]
fn strip_ansi_edge_cases() {
    // An escape not followed by '[' is dropped on its own.
    assert_eq!(strip_ansi("a\x1bb"), "ab");
    // An unterminated sequence swallows the rest.
    assert_eq!(strip_ansi("a\x1b[12"), "a");
    // A trailing escape goes.
    assert_eq!(strip_ansi("a\x1b"), "a");
    // Non-SGR final letters end the sequence too.
    assert_eq!(strip_ansi("x\x1b[2Ky"), "xy");
}

#[test]
fn strip_undoes_difficulty_colour() {
    for d in ["Easy", "Medium", "Hard", "Other", ""] {
        assert_eq!(strip_ansi(&difficulty_colored(d)), d);
    }
    let res = JudgeResult { status_msg: Some("Wrong Answer".to_string()), ..Default::default() };
    assert_eq!(strip_ansi(&format_submit_result(&res)), "\u{2717}  Wrong Answer\n");
}

#[test]
fn strip_ansi_result_is_plain_fixed_subsequence() {
    for s in ["a\x1b[31mb\x1b[0mc", "\x1b[", "\x1b\x1b[1mX", "x\x1bqy\x1b[2Kz", "plain"] {
        let r = strip_ansi(s);
        assert!(!r.contains('\x1b'));
        assert_eq!(strip_ansi(&r), r);
        let mut rest = s.chars();
        assert!(r.chars().all(|c| rest.any(|d| d == c)));
    }
}
