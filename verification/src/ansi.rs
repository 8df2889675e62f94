//! ANSI SGR colouring (through `owo_colors`) and its removal.

use owo_colors::OwoColorize;
use vstd::prelude::*;

use crate::text::{chars_of, push_char};

verus! {

pub const ESC: char = '\u{1b}';

/// An SGR escape sequence: `ESC [ code m`.
pub open spec fn sgr(code: Seq<char>) -> Seq<char> {
    seq![ESC, '['] + code + seq!['m']
}

/// `s` wrapped in the SGR codes `on` and `off`.
pub open spec fn wrapped(on: Seq<char>, s: Seq<char>, off: Seq<char>) -> Seq<char> {
    sgr(on) + s + sgr(off)
}

/// Green foreground, as `owo_colors` writes it.
pub open spec fn green_spec(s: Seq<char>) -> Seq<char> {
    wrapped(seq!['3', '2'], s, seq!['3', '9'])
}

/// Yellow foreground, as `owo_colors` writes it.
pub open spec fn yellow_spec(s: Seq<char>) -> Seq<char> {
    wrapped(seq!['3', '3'], s, seq!['3', '9'])
}

/// Red foreground, as `owo_colors` writes it.
pub open spec fn red_spec(s: Seq<char>) -> Seq<char> {
    wrapped(seq!['3', '1'], s, seq!['3', '9'])
}

/// Bold, as `owo_colors` writes it.
pub open spec fn bold_spec(s: Seq<char>) -> Seq<char> {
    wrapped(seq!['1'], s, seq!['0'])
}

/// `owo_colors::OwoColorize::green` on a string, rendered with `to_string`:
/// `ESC[32m`, the text, `ESC[39m`.
#[verifier::external_body]
pub(crate) fn green(s: &str) -> (r: String)
    ensures
        r@ == green_spec(s@),
{
    s.green().to_string()
}

/// `owo_colors::OwoColorize::yellow` on a string, rendered with `to_string`:
/// `ESC[33m`, the text, `ESC[39m`.
#[verifier::external_body]
pub(crate) fn yellow(s: &str) -> (r: String)
    ensures
        r@ == yellow_spec(s@),
{
    s.yellow().to_string()
}

/// `owo_colors::OwoColorize::red` on a string, rendered with `to_string`:
/// `ESC[31m`, the text, `ESC[39m`.
#[verifier::external_body]
pub(crate) fn red(s: &str) -> (r: String)
    ensures
        r@ == red_spec(s@),
{
    s.red().to_string()
}

/// `owo_colors::OwoColorize::bold` on a string, rendered with `to_string`:
/// `ESC[1m`, the text, `ESC[0m`.
#[verifier::external_body]
pub(crate) fn bold(s: &str) -> (r: String)
    ensures
        r@ == bold_spec(s@),
{
    s.bold().to_string()
}

pub open spec fn is_ascii_alpha(c: char) -> bool {
    ('a' <= c && c <= 'z') || ('A' <= c && c <= 'Z')
}

pub open spec fn is_ascii_digit(c: char) -> bool {
    '0' <= c && c <= '9'
}

/// Whether `c` is an ASCII letter (`char::is_ascii_alphabetic`).
fn is_ascii_letter(c: char) -> (r: bool)
    ensures
        r == is_ascii_alpha(c),
{
    ('a' <= c && c <= 'z') || ('A' <= c && c <= 'Z')
}

/// What follows the first ASCII letter of `s` (nothing when there is none):
/// the rest of an escape sequence after its parameters and final letter.
pub open spec fn after_final_letter(s: Seq<char>) -> Seq<char>
    decreases s.len(),
{
    if s.len() == 0 {
        s
    } else if is_ascii_alpha(s[0]) {
        s.skip(1)
    } else {
        after_final_letter(s.skip(1))
    }
}

/// `s` with its ANSI escape sequences removed: `ESC [` up to and including the
/// next ASCII letter goes, and so does an `ESC` that no `[` follows.
pub open spec fn strip_ansi_spec(s: Seq<char>) -> Seq<char>
    decreases s.len(),
{
    if s.len() == 0 {
        s
    } else if s[0] == ESC {
        if s.len() > 1 && s[1] == '[' {
            let rest = s.skip(2);
            proof {
                lemma_after_final_letter_shorter(rest);
            }
            strip_ansi_spec(after_final_letter(rest))
        } else {
            strip_ansi_spec(s.skip(1))
        }
    } else {
        seq![s[0]] + strip_ansi_spec(s.skip(1))
    }
}

pub proof fn lemma_after_final_letter_shorter(s: Seq<char>)
    ensures
        after_final_letter(s).len() <= s.len(),
        s.len() > 0 ==> after_final_letter(s).len() < s.len(),
    decreases s.len(),
{
    if s.len() > 0 && !is_ascii_alpha(s[0]) {
        lemma_after_final_letter_shorter(s.skip(1));
    }
}

/// Remove ANSI SGR escape sequences so that coloured output can be shown as
/// plain text.
pub fn strip_ansi(s: &str) -> (r: String)
    ensures
        r@ == strip_ansi_spec(s@),
{
    let cs = chars_of(s);
    let mut out = String::new();
    let mut i: usize = 0;
    assert(cs@.skip(0) =~= cs@);
    assert(out@ + strip_ansi_spec(cs@) =~= strip_ansi_spec(cs@));
    while i < cs.len()
        invariant
            cs@ == s@,
            0 <= i <= cs.len(),
            strip_ansi_spec(s@) == out@ + strip_ansi_spec(cs@.skip(i as int)),
        decreases cs.len() - i,
    {
        let c = cs[i];
        let ghost rest = cs@.skip(i as int);
        if c == ESC {
            if i + 1 < cs.len() && cs[i + 1] == '[' {
                let mut j = i + 2;
                assert(cs@.skip(j as int) =~= rest.skip(2));
                while j < cs.len() && !is_ascii_letter(cs[j])
                    invariant
                        cs@ == s@,
                        i + 2 <= j <= cs.len(),
                        after_final_letter(rest.skip(2)) == after_final_letter(cs@.skip(j as int)),
                    decreases cs.len() - j,
                {
                    assert(cs@.skip(j as int).skip(1) =~= cs@.skip(j + 1));
                    j = j + 1;
                }
                if j < cs.len() {
                    assert(cs@.skip(j as int).skip(1) =~= cs@.skip(j + 1));
                    j = j + 1;
                } else {
                    assert(cs@.skip(j as int).len() == 0);
                }
                i = j;
            } else {
                assert(rest.skip(1) =~= cs@.skip(i + 1));
                i = i + 1;
            }
        } else {
            push_char(&mut out, c);
            assert(rest.skip(1) =~= cs@.skip(i + 1));
            i = i + 1;
        }
    }
    assert(cs@.skip(i as int).len() == 0);
    out
}

/// `s` holds no escape character.
pub open spec fn is_plain(s: Seq<char>) -> bool {
    forall|i: int| 0 <= i < s.len() ==> s[i] != ESC
}

/// A parameter list of digits only.
pub open spec fn is_sgr_code(code: Seq<char>) -> bool {
    forall|i: int| 0 <= i < code.len() ==> is_ascii_digit(#[trigger] code[i])
}

proof fn lemma_strip_plain_prefix(a: Seq<char>, b: Seq<char>)
    requires
        is_plain(a),
    ensures
        strip_ansi_spec(a + b) == a + strip_ansi_spec(b),
    decreases a.len(),
{
    if a.len() > 0 {
        assert((a + b)[0] == a[0]);
        assert((a + b).skip(1) =~= a.skip(1) + b);
        lemma_strip_plain_prefix(a.skip(1), b);
        assert(a =~= seq![a[0]] + a.skip(1));
    } else {
        assert(a + b =~= b);
    }
}

proof fn lemma_after_code_letter(code: Seq<char>, rest: Seq<char>)
    requires
        is_sgr_code(code),
    ensures
        after_final_letter(code + seq!['m'] + rest) == rest,
    decreases code.len(),
{
    let t = code + seq!['m'] + rest;
    if code.len() > 0 {
        assert(is_ascii_digit(code[0]));
        assert(t[0] == code[0]);
        assert(t.skip(1) =~= code.skip(1) + seq!['m'] + rest);
        assert forall|i: int| 0 <= i < code.skip(1).len() implies is_ascii_digit(
            #[trigger] code.skip(1)[i],
        ) by {
            assert(code.skip(1)[i] == code[i + 1]);
        }
        lemma_after_code_letter(code.skip(1), rest);
    } else {
        assert(t[0] == 'm');
        assert(t.skip(1) =~= rest);
    }
}

proof fn lemma_strip_sgr_prefix(code: Seq<char>, rest: Seq<char>)
    requires
        is_sgr_code(code),
    ensures
        strip_ansi_spec(sgr(code) + rest) == strip_ansi_spec(rest),
{
    let t = sgr(code) + rest;
    assert(t[0] == ESC);
    assert(t[1] == '[');
    assert(t.skip(2) =~= code + seq!['m'] + rest);
    lemma_after_code_letter(code, rest);
}

/// Removing escape sequences undoes colouring: for text without escape
/// characters, `strip_ansi` of the text wrapped in digit-only SGR codes gives
/// the text back.
pub proof fn law_strip_undoes_wrapping(on: Seq<char>, s: Seq<char>, off: Seq<char>)
    requires
        is_sgr_code(on),
        is_sgr_code(off),
        is_plain(s),
    ensures
        strip_ansi_spec(wrapped(on, s, off)) == s,
{
    assert(wrapped(on, s, off) =~= sgr(on) + (s + sgr(off)));
    lemma_strip_sgr_prefix(on, s + sgr(off));
    lemma_strip_plain_prefix(s, sgr(off));
    assert(sgr(off) =~= sgr(off) + Seq::<char>::empty());
    lemma_strip_sgr_prefix(off, Seq::<char>::empty());
    assert(s + Seq::<char>::empty() =~= s);
}

/// Plain text passes through `strip_ansi` unchanged.
pub proof fn law_strip_keeps_plain_text(s: Seq<char>)
    requires
        is_plain(s),
    ensures
        strip_ansi_spec(s) == s,
{
    lemma_strip_plain_prefix(s, Seq::<char>::empty());
    assert(s + Seq::<char>::empty() =~= s);
}

/// Each colour and weight that the renderers use, alone or bold on top of a
/// colour, is removed by `strip_ansi`, leaving plain text as it was.
pub proof fn law_strip_undoes_colours(s: Seq<char>)
    requires
        is_plain(s),
    ensures
        strip_ansi_spec(green_spec(s)) == s,
        strip_ansi_spec(yellow_spec(s)) == s,
        strip_ansi_spec(red_spec(s)) == s,
        strip_ansi_spec(bold_spec(s)) == s,
        strip_ansi_spec(bold_spec(green_spec(s))) == s,
        strip_ansi_spec(bold_spec(red_spec(s))) == s,
{
    let c32 = seq!['3', '2'];
    let c33 = seq!['3', '3'];
    let c31 = seq!['3', '1'];
    let c39 = seq!['3', '9'];
    let c1 = seq!['1'];
    let c0 = seq!['0'];
    assert(is_sgr_code(c32));
    assert(is_sgr_code(c33));
    assert(is_sgr_code(c31));
    assert(is_sgr_code(c39));
    assert(is_sgr_code(c1));
    assert(is_sgr_code(c0));
    law_strip_undoes_wrapping(c32, s, c39);
    law_strip_undoes_wrapping(c33, s, c39);
    law_strip_undoes_wrapping(c31, s, c39);
    law_strip_undoes_wrapping(c1, s, c0);
    let g = green_spec(s);
    let r = red_spec(s);
    assert(bold_spec(g) =~= sgr(c1) + (g + sgr(c0)));
    lemma_strip_sgr_prefix(c1, g + sgr(c0));
    assert(g + sgr(c0) =~= sgr(c32) + (s + (sgr(c39) + sgr(c0))));
    lemma_strip_sgr_prefix(c32, s + (sgr(c39) + sgr(c0)));
    lemma_strip_plain_prefix(s, sgr(c39) + sgr(c0));
    lemma_strip_sgr_prefix(c39, sgr(c0));
    assert(sgr(c0) =~= sgr(c0) + Seq::<char>::empty());
    lemma_strip_sgr_prefix(c0, Seq::<char>::empty());
    assert(s + Seq::<char>::empty() =~= s);
    assert(bold_spec(r) =~= sgr(c1) + (r + sgr(c0)));
    lemma_strip_sgr_prefix(c1, r + sgr(c0));
    assert(r + sgr(c0) =~= sgr(c31) + (s + (sgr(c39) + sgr(c0))));
    lemma_strip_sgr_prefix(c31, s + (sgr(c39) + sgr(c0)));
}

/// `a` is `b` with some characters removed: its characters occur in `b`, in
/// the same order.
pub open spec fn is_subsequence(a: Seq<char>, b: Seq<char>) -> bool
    decreases b.len(),
{
    a.len() == 0 || (b.len() > 0 && ((a[0] == b[0] && is_subsequence(a.skip(1), b.skip(1)))
        || is_subsequence(a, b.skip(1))))
}

proof fn lemma_subsequence_of_suffix(a: Seq<char>, b: Seq<char>, k: int)
    requires
        0 <= k <= b.len(),
        is_subsequence(a, b.skip(k)),
    ensures
        is_subsequence(a, b),
    decreases k,
{
    if k > 0 {
        assert(b.skip(k - 1).skip(1) =~= b.skip(k));
        lemma_subsequence_of_suffix(a, b, k - 1);
        assert(b.skip(0) =~= b);
    } else {
        assert(b.skip(0) =~= b);
    }
}

proof fn lemma_after_final_letter_suffix(s: Seq<char>) -> (k: int)
    ensures
        0 <= k <= s.len(),
        after_final_letter(s) == s.skip(k),
    decreases s.len(),
{
    if s.len() == 0 {
        assert(s.skip(0) =~= s);
        0
    } else if is_ascii_alpha(s[0]) {
        1
    } else {
        let j = lemma_after_final_letter_suffix(s.skip(1));
        assert(s.skip(1).skip(j) =~= s.skip(j + 1));
        j + 1
    }
}

/// What `strip_ansi` gives back holds no escape character, is left as it is
/// by a second pass, and is the input with characters removed (none added or
/// reordered); input without escapes comes back unchanged.
pub proof fn law_strip_ansi_result(s: Seq<char>)
    ensures
        is_plain(strip_ansi_spec(s)),
        strip_ansi_spec(strip_ansi_spec(s)) == strip_ansi_spec(s),
        is_subsequence(strip_ansi_spec(s), s),
        is_plain(s) ==> strip_ansi_spec(s) == s,
    decreases s.len(),
{
    let r = strip_ansi_spec(s);
    if s.len() == 0 {
    } else if s[0] == ESC {
        if s.len() > 1 && s[1] == '[' {
            let rest = s.skip(2);
            lemma_after_final_letter_shorter(rest);
            let k = lemma_after_final_letter_suffix(rest);
            law_strip_ansi_result(after_final_letter(rest));
            assert(rest.skip(k) =~= s.skip(k + 2));
            lemma_subsequence_of_suffix(r, s, k + 2);
        } else {
            law_strip_ansi_result(s.skip(1));
            lemma_subsequence_of_suffix(r, s, 1);
        }
    } else {
        let t = strip_ansi_spec(s.skip(1));
        law_strip_ansi_result(s.skip(1));
        assert(r == seq![s[0]] + t);
        assert forall|i: int| 0 <= i < r.len() implies r[i] != ESC by {
            if i > 0 {
                assert(r[i] == t[i - 1]);
            }
        }
        assert(r.skip(1) =~= t);
        assert(r[0] == s[0]);
        assert(r.len() > 0);
        if is_plain(s) {
            assert forall|i: int| 0 <= i < s.skip(1).len() implies s.skip(1)[i] != ESC by {
                assert(s.skip(1)[i] == s[i + 1]);
            }
            assert(s =~= seq![s[0]] + s.skip(1));
        }
    }
    law_strip_keeps_plain_text(r);
}

} // verus!
