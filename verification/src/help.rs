//! Key hints: split a help text so that every `<KEY>` token can be shown
//! highlighted apart from the surrounding description.

use vstd::prelude::*;

use crate::text::{chars_of, string_of};

verus! {

/// One piece of a help line: either a `<KEY>` token or plain text.
#[derive(Debug, PartialEq, Eq)]
pub struct HelpSegment {
    pub text: String,
    /// Whether this piece is a `<KEY>` token.
    pub key: bool,
}

impl View for HelpSegment {
    type V = (Seq<char>, bool);

    open spec fn view(&self) -> (Seq<char>, bool) {
        (self.text@, self.key)
    }
}

/// Index of the first occurrence of `c` in `s`.
pub open spec fn find_char(s: Seq<char>, c: char) -> Option<int>
    decreases s.len(),
{
    if s.len() == 0 {
        None
    } else if s[0] == c {
        Some(0)
    } else {
        match find_char(s.skip(1), c) {
            Some(k) => Some(k + 1),
            None => None,
        }
    }
}

pub proof fn lemma_find_char_bounds(s: Seq<char>, c: char)
    ensures
        find_char(s, c) matches Some(k) ==> 0 <= k < s.len() && s[k] == c && forall|j: int|
            0 <= j < k ==> s[j] != c,
        find_char(s, c) is None ==> forall|j: int| 0 <= j < s.len() ==> s[j] != c,
    decreases s.len(),
{
    if s.len() > 0 && s[0] != c {
        lemma_find_char_bounds(s.skip(1), c);
        if let Some(k) = find_char(s.skip(1), c) {
            assert forall|j: int| 0 <= j < k + 1 implies s[j] != c by {
                if j > 0 {
                    assert(s[j] == s.skip(1)[j - 1]);
                }
            }
        } else {
            assert forall|j: int| 0 <= j < s.len() implies s[j] != c by {
                if j > 0 {
                    assert(s[j] == s.skip(1)[j - 1]);
                }
            }
        }
    }
}

pub proof fn lemma_find_char_at(s: Seq<char>, c: char, k: int)
    requires
        0 <= k <= s.len(),
        forall|j: int| 0 <= j < k ==> s[j] != c,
        k < s.len() ==> s[k] == c,
    ensures
        find_char(s, c) == (if k < s.len() {
            Some(k)
        } else {
            None::<int>
        }),
    decreases k,
{
    if k > 0 {
        assert forall|j: int| 0 <= j < k - 1 implies s.skip(1)[j] != c by {
            assert(s.skip(1)[j] == s[j + 1]);
        }
        if k < s.len() {
            assert(s.skip(1)[k - 1] == s[k]);
        }
        lemma_find_char_at(s.skip(1), c, k - 1);
    }
}

/// The pieces of a help text: each `<...>` token (from a `<` to the next `>`)
/// is a key; the text around them is plain. An unclosed `<` starts plain text
/// that runs to the end. No piece is empty.
pub open spec fn help_segments(s: Seq<char>) -> Seq<(Seq<char>, bool)>
    decreases s.len(),
{
    match find_char(s, '<') {
        None => if s.len() > 0 {
            seq![(s, false)]
        } else {
            Seq::empty()
        },
        Some(start) => match find_char(s.skip(start), '>') {
            None => seq![(s, false)],
            Some(off) => {
                let end = start + off + 1;
                proof {
                    lemma_find_char_bounds(s, '<');
                    lemma_find_char_bounds(s.skip(start), '>');
                }
                (if start > 0 {
                    seq![(s.take(start), false)]
                } else {
                    Seq::empty()
                }) + seq![(s.subrange(start, end), true)] + help_segments(s.skip(end))
            },
        },
    }
}

/// The texts of `segs`, one after another.
pub open spec fn joined_texts(segs: Seq<(Seq<char>, bool)>) -> Seq<char>
    decreases segs.len(),
{
    if segs.len() == 0 {
        Seq::empty()
    } else {
        segs[0].0 + joined_texts(segs.skip(1))
    }
}

/// First index `k >= from` with `cs[k] == c`.
fn find_from(cs: &Vec<char>, from: usize, c: char) -> (r: Option<usize>)
    requires
        from <= cs.len(),
    ensures
        match r {
            Some(k) => from <= k < cs.len() && find_char(cs@.skip(from as int), c) == Some(
                k - from,
            ),
            None => find_char(cs@.skip(from as int), c) is None,
        },
{
    let mut k = from;
    while k < cs.len()
        invariant
            from <= k <= cs.len(),
            forall|j: int| from <= j < k ==> cs@[j] != c,
        decreases cs.len() - k,
    {
        if cs[k] == c {
            proof {
                lemma_find_char_at(cs@.skip(from as int), c, k - from);
            }
            return Some(k);
        }
        k = k + 1;
    }
    proof {
        lemma_find_char_at(cs@.skip(from as int), c, k - from);
    }
    None
}

/// Split a help text into key tokens and plain pieces; see `help_segments`.
pub fn help_line(text: &str) -> (r: Vec<HelpSegment>)
    ensures
        r@.map_values(|x: HelpSegment| x@) == help_segments(text@),
{
    let cs = chars_of(text);
    let mut out: Vec<HelpSegment> = Vec::new();
    let mut pos: usize = 0;
    assert(cs@.skip(0) =~= cs@);
    loop
        invariant
            cs@ == text@,
            0 <= pos <= cs.len(),
            out@.map_values(|x: HelpSegment| x@) + help_segments(cs@.skip(pos as int))
                == help_segments(text@),
        decreases cs.len() - pos,
    {
        let ghost rest = cs@.skip(pos as int);
        let ghost before = out@.map_values(|x: HelpSegment| x@);
        match find_from(&cs, pos, '<') {
            None => {
                if pos < cs.len() {
                    out.push(HelpSegment { text: string_of(&cs, pos, cs.len()), key: false });
                    assert(cs@.subrange(pos as int, cs.len() as int) =~= rest);
                    assert(out@.map_values(|x: HelpSegment| x@) =~= before + help_segments(rest));
                } else {
                    assert(out@.map_values(|x: HelpSegment| x@) + help_segments(rest)
                        =~= out@.map_values(|x: HelpSegment| x@));
                }
                return out;
            },
            Some(start) => {
                assert(rest.skip(start - pos) =~= cs@.skip(start as int));
                match find_from(&cs, start, '>') {
                    None => {
                        out.push(HelpSegment { text: string_of(&cs, pos, cs.len()), key: false });
                        assert(cs@.subrange(pos as int, cs.len() as int) =~= rest);
                        assert(out@.map_values(|x: HelpSegment| x@) =~= before + help_segments(
                            rest,
                        ));
                        return out;
                    },
                    Some(close) => {
                        let end = close + 1;
                        if start > pos {
                            out.push(
                                HelpSegment { text: string_of(&cs, pos, start), key: false },
                            );
                            assert(cs@.subrange(pos as int, start as int) =~= rest.take(
                                start - pos,
                            ));
                        }
                        out.push(HelpSegment { text: string_of(&cs, start, end), key: true });
                        assert(cs@.subrange(start as int, end as int) =~= rest.subrange(
                            start - pos,
                            end - pos,
                        ));
                        assert(rest.skip(end - pos) =~= cs@.skip(end as int));
                        assert(out@.map_values(|x: HelpSegment| x@) + help_segments(
                            cs@.skip(end as int),
                        ) =~= before + help_segments(rest));
                        pos = end;
                    },
                }
            },
        }
    }
}

proof fn lemma_joined_texts_append(a: Seq<(Seq<char>, bool)>, b: Seq<(Seq<char>, bool)>)
    ensures
        joined_texts(a + b) == joined_texts(a) + joined_texts(b),
    decreases a.len(),
{
    if a.len() > 0 {
        assert((a + b).skip(1) =~= a.skip(1) + b);
        lemma_joined_texts_append(a.skip(1), b);
        assert(joined_texts(a + b) =~= joined_texts(a) + joined_texts(b));
    } else {
        assert(a + b =~= b);
    }
}

/// Splitting loses and adds nothing: the pieces of a help text, put back
/// together, are the text; no piece is empty; and every key piece is a whole
/// `<...>` token, opening with `<` and closing with its first `>`.
pub proof fn law_help_segments_partition(s: Seq<char>)
    ensures
        joined_texts(help_segments(s)) == s,
        forall|i: int|
            0 <= i < help_segments(s).len() ==> (#[trigger] help_segments(s)[i]).0.len() > 0,
        forall|i: int|
            0 <= i < help_segments(s).len() && (#[trigger] help_segments(s)[i]).1 ==> {
                let t = help_segments(s)[i].0;
                &&& t.len() >= 2
                &&& t[0] == '<'
                &&& t.last() == '>'
                &&& forall|j: int| 0 <= j < t.len() - 1 ==> t[j] != '>'
            },
    decreases s.len(),
{
    lemma_find_char_bounds(s, '<');
    match find_char(s, '<') {
        None => {
            if s.len() > 0 {
                assert(joined_texts(help_segments(s)) =~= s + joined_texts(
                    help_segments(s).skip(1),
                ));
                assert(help_segments(s).skip(1) =~= Seq::<(Seq<char>, bool)>::empty());
                assert(s + Seq::<char>::empty() =~= s);
            }
        },
        Some(start) => {
            lemma_find_char_bounds(s.skip(start), '>');
            match find_char(s.skip(start), '>') {
                None => {
                    assert(help_segments(s).skip(1) =~= Seq::<(Seq<char>, bool)>::empty());
                    assert(joined_texts(help_segments(s)) =~= s + joined_texts(
                        help_segments(s).skip(1),
                    ));
                    assert(s + Seq::<char>::empty() =~= s);
                },
                Some(off) => {
                    let end = start + off + 1;
                    let pre: Seq<(Seq<char>, bool)> = if start > 0 {
                        seq![(s.take(start), false)]
                    } else {
                        Seq::empty()
                    };
                    let key = seq![(s.subrange(start, end), true)];
                    let tail = help_segments(s.skip(end));
                    law_help_segments_partition(s.skip(end));
                    lemma_joined_texts_append(pre + key, tail);
                    lemma_joined_texts_append(pre, key);
                    assert(joined_texts(key) =~= s.subrange(start, end) + joined_texts(
                        key.skip(1),
                    ));
                    assert(key.skip(1) =~= Seq::<(Seq<char>, bool)>::empty());
                    if start > 0 {
                        assert(joined_texts(pre) =~= s.take(start) + joined_texts(pre.skip(1)));
                        assert(pre.skip(1) =~= Seq::<(Seq<char>, bool)>::empty());
                    }
                    assert(s =~= s.take(start) + s.subrange(start, end) + s.skip(end));
                    let all = pre + key + tail;
                    assert(help_segments(s) == all);
                    if start == 0 {
                        assert(s.take(start) =~= Seq::<char>::empty());
                    }
                    assert(joined_texts(all) =~= s);
                    assert forall|i: int| 0 <= i < all.len() && (#[trigger] all[i]).1 implies {
                        let t = all[i].0;
                        &&& t.len() >= 2
                        &&& t[0] == '<'
                        &&& t.last() == '>'
                        &&& forall|j: int| 0 <= j < t.len() - 1 ==> t[j] != '>'
                    } by {
                        if i >= pre.len() + 1 {
                            assert(all[i] == tail[i - pre.len() - 1]);
                        } else if i == pre.len() {
                            let t = s.subrange(start, end);
                            assert(t[0] == s[start]);
                            assert(s.skip(start)[0] == s[start]);
                            assert(off > 0);
                            assert(t.last() == s.skip(start)[off]);
                            assert forall|j: int| 0 <= j < t.len() - 1 implies t[j] != '>' by {
                                assert(t[j] == s.skip(start)[j]);
                            }
                        }
                    }
                    assert forall|i: int| 0 <= i < all.len() implies (#[trigger] all[i]).0.len()
                        > 0 by {
                        if i >= pre.len() + 1 {
                            assert(all[i] == tail[i - pre.len() - 1]);
                        }
                    }
                },
            }
        },
    }
}

} // verus!
