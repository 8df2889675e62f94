//! Render LeetCode's HTML problem statements into styled text.
//!
//! Descriptions use inline markup such as `<code>` (shown by the website on a
//! grey background), `<strong>`/`<b>` (bold), `<em>` (italic), superscripts,
//! lists and `<pre>` blocks. The HTML is laid out as annotated text by
//! `html2text`, and each annotation is mapped to a terminal style so that the
//! panes read much like the website.

use html2text::config;
use html2text::render::text_renderer::RichAnnotation;
use vstd::prelude::*;

use crate::text::{chars_of, string_of};

verus! {

/// A 24-bit colour.
#[derive(Clone, Copy, Debug, PartialEq, Eq)]
pub struct Rgb {
    pub r: u8,
    pub g: u8,
    pub b: u8,
}

/// One text modifier.
#[derive(Clone, Copy, Debug, PartialEq, Eq)]
pub enum Modifier {
    Bold,
    Italic,
    CrossedOut,
    Underlined,
}

/// The set of modifiers added by a style.
#[derive(Clone, Copy, Debug, PartialEq, Eq)]
pub struct Modifiers {
    pub bold: bool,
    pub italic: bool,
    pub crossed_out: bool,
    pub underlined: bool,
}

impl Modifiers {
    pub open spec fn has(self, m: Modifier) -> bool {
        match m {
            Modifier::Bold => self.bold,
            Modifier::Italic => self.italic,
            Modifier::CrossedOut => self.crossed_out,
            Modifier::Underlined => self.underlined,
        }
    }

    /// Whether `m` is in the set.
    pub fn contains(&self, m: Modifier) -> (r: bool)
        ensures
            r == self.has(m),
    {
        match m {
            Modifier::Bold => self.bold,
            Modifier::Italic => self.italic,
            Modifier::CrossedOut => self.crossed_out,
            Modifier::Underlined => self.underlined,
        }
    }
}

/// Foreground, background and modifiers of a piece of text.
#[derive(Clone, Copy, Debug, PartialEq, Eq)]
pub struct TextStyle {
    pub fg: Option<Rgb>,
    pub bg: Option<Rgb>,
    pub add_modifier: Modifiers,
}

/// The annotations that the HTML layout attaches to a piece of text.
#[derive(Clone, Copy, Debug, PartialEq, Eq)]
pub enum Annotation {
    /// Normal text (image titles too).
    Default,
    /// Text of a link.
    Link,
    Emphasis,
    Strong,
    Strikeout,
    Code,
    /// Preformatted.
    Preformat,
    Colour(u8, u8, u8),
    BgColour(u8, u8, u8),
}

/// A piece of laid-out text with its annotations, outer first.
pub type RichPiece = (String, Vec<Annotation>);

pub open spec fn piece_view(p: RichPiece) -> (Seq<char>, Seq<Annotation>) {
    (p.0@, p.1@)
}

/// A styled piece of text.
pub struct StyledSpan {
    pub content: String,
    pub style: TextStyle,
}

impl View for StyledSpan {
    type V = (Seq<char>, TextStyle);

    open spec fn view(&self) -> (Seq<char>, TextStyle) {
        (self.content@, self.style)
    }
}

/// One line of styled text.
pub struct StyledLine {
    pub spans: Vec<StyledSpan>,
}

/// Styled text, line by line.
pub struct StyledText {
    pub lines: Vec<StyledLine>,
}

/// The HTML could not be laid out (`html2text` reported an error).
#[derive(Clone, Copy, Debug, PartialEq, Eq)]
pub struct RenderError;

pub open spec fn rich_line_view(l: Vec<RichPiece>) -> Seq<(Seq<char>, Seq<Annotation>)> {
    l@.map_values(|p: RichPiece| piece_view(p))
}

pub open spec fn rich_view(v: Seq<Vec<RichPiece>>) -> Seq<Seq<(Seq<char>, Seq<Annotation>)>> {
    v.map_values(|l: Vec<RichPiece>| rich_line_view(l))
}

pub open spec fn styled_line_view(l: StyledLine) -> Seq<(Seq<char>, TextStyle)> {
    l.spans@.map_values(|s: StyledSpan| s@)
}

pub open spec fn styled_text_view(t: StyledText) -> Seq<Seq<(Seq<char>, TextStyle)>> {
    t.lines@.map_values(|l: StyledLine| styled_line_view(l))
}

/// The lines that `html2text`'s rich layout makes of `html` at `width`
/// columns: each piece of text with its annotations (`None` when the layout
/// fails).
pub uninterp spec fn html_rich_lines(html: Seq<char>, width: usize) -> Option<
    Seq<Seq<(Seq<char>, Seq<Annotation>)>>,
>;

/// `html2text::config::rich().lines_from_read`, the fallible form of
/// `html2text::from_read_rich`: lays `html` out at `width` columns as lines of
/// annotated text. The result is what `html_rich_lines` names. Of each
/// annotation only what styling reads is kept: link targets, image sources and
/// whether a preformatted line continues are dropped, and an image title counts
/// as plain text.
#[verifier::external_body]
fn rich_lines(html: &str, width: usize) -> (r: Result<Vec<Vec<RichPiece>>, html2text::Error>)
    ensures
        match r {
            Ok(v) => html_rich_lines(html@, width) == Some(rich_view(v@)),
            Err(_) => html_rich_lines(html@, width) is None,
        },
{
    let tag = |a| match a {
        RichAnnotation::Link(_) => Annotation::Link,
        RichAnnotation::Emphasis => Annotation::Emphasis,
        RichAnnotation::Strong => Annotation::Strong,
        RichAnnotation::Strikeout => Annotation::Strikeout,
        RichAnnotation::Code => Annotation::Code,
        RichAnnotation::Preformat(_) => Annotation::Preformat,
        RichAnnotation::Colour(c) => Annotation::Colour(c.r, c.g, c.b),
        RichAnnotation::BgColour(c) => Annotation::BgColour(c.r, c.g, c.b),
        _ => Annotation::Default,
    };
    let lines = config::rich().lines_from_read(html.as_bytes(), width)?;
    Ok(lines.into_iter().map(|l| l.into_tagged_strings().map(|ts| (ts.s, ts.tag.into_iter().map(tag).collect())).collect()).collect())
}

/// `html2text::Error`, the error of a failed layout; carried, never read.
#[verifier::external_type_specification]
#[verifier::external_body]
pub struct ExHtml2TextError(html2text::Error);

pub open spec fn default_style() -> TextStyle {
    TextStyle {
        fg: None,
        bg: None,
        add_modifier: Modifiers { bold: false, italic: false, crossed_out: false, underlined: false },
    }
}

/// Grey background and light foreground of code, as on the website.
pub open spec fn code_style(s: TextStyle) -> TextStyle {
    TextStyle {
        bg: Some(Rgb { r: 60, g: 60, b: 60 }),
        fg: Some(Rgb { r: 235, g: 235, b: 235 }),
        ..s
    }
}

/// The style after one annotation is applied to `s`.
pub open spec fn apply_annotation(s: TextStyle, a: Annotation) -> TextStyle {
    match a {
        Annotation::Strong => TextStyle {
            add_modifier: Modifiers { bold: true, ..s.add_modifier },
            ..s
        },
        Annotation::Emphasis => TextStyle {
            add_modifier: Modifiers { italic: true, ..s.add_modifier },
            ..s
        },
        Annotation::Strikeout => TextStyle {
            add_modifier: Modifiers { crossed_out: true, ..s.add_modifier },
            ..s
        },
        Annotation::Code => code_style(s),
        Annotation::Preformat => code_style(s),
        Annotation::Link => TextStyle {
            fg: Some(Rgb { r: 88, g: 166, b: 255 }),
            add_modifier: Modifiers { underlined: true, ..s.add_modifier },
            ..s
        },
        Annotation::Colour(r, g, b) => TextStyle { fg: Some(Rgb { r, g, b }), ..s },
        Annotation::BgColour(r, g, b) => TextStyle { bg: Some(Rgb { r, g, b }), ..s },
        _ => s,
    }
}

/// The style of a piece: the annotations applied in order, outer first.
pub open spec fn style_of(tags: Seq<Annotation>) -> TextStyle
    decreases tags.len(),
{
    if tags.len() == 0 {
        default_style()
    } else {
        apply_annotation(style_of(tags.drop_last()), tags.last())
    }
}

pub open spec fn is_code_annotation(a: Annotation) -> bool {
    a is Code || a is Preformat
}

pub open spec fn has_strong(tags: Seq<Annotation>) -> bool {
    exists|i: int| 0 <= i < tags.len() && tags[i] is Strong
}

pub open spec fn has_code(tags: Seq<Annotation>) -> bool {
    exists|i: int| 0 <= i < tags.len() && is_code_annotation(tags[i])
}

/// `s` with at most one `marker` removed from each end.
pub open spec fn strip_edges_spec(s: Seq<char>, marker: char) -> Seq<char> {
    let t = if s.len() > 0 && s[0] == marker {
        s.skip(1)
    } else {
        s
    };
    if t.len() > 0 && t.last() == marker {
        t.drop_last()
    } else {
        t
    }
}

/// The visible text of a piece: the layout's `*` markers around strong text and
/// `` ` `` markers around code are dropped, since real styling replaces them.
pub open spec fn piece_text(raw: Seq<char>, tags: Seq<Annotation>) -> Seq<char> {
    let t = if has_strong(tags) {
        strip_edges_spec(raw, '*')
    } else {
        raw
    };
    if has_code(tags) {
        strip_edges_spec(t, '`')
    } else {
        t
    }
}

/// The spans of a line: one per piece whose visible text is not empty.
pub open spec fn line_spans(pieces: Seq<(Seq<char>, Seq<Annotation>)>) -> Seq<
    (Seq<char>, TextStyle),
>
    decreases pieces.len(),
{
    if pieces.len() == 0 {
        Seq::empty()
    } else {
        let t = piece_text(pieces[0].0, pieces[0].1);
        let rest = line_spans(pieces.skip(1));
        if t.len() > 0 {
            seq![(t, style_of(pieces[0].1))] + rest
        } else {
            rest
        }
    }
}

/// The styled lines of laid-out text.
pub open spec fn styled_lines(lines: Seq<Seq<(Seq<char>, Seq<Annotation>)>>) -> Seq<
    Seq<(Seq<char>, TextStyle)>,
> {
    lines.map_values(|l: Seq<(Seq<char>, Seq<Annotation>)>| line_spans(l))
}

/// The width that `render_html` lays text out at: at least 20 columns.
pub open spec fn render_width(width: usize) -> usize {
    if width < 20 {
        20
    } else {
        width
    }
}

/// Remove at most one occurrence of `marker` from each end of `s`.
pub fn strip_edges(s: &str, marker: char) -> (r: String)
    ensures
        r@ == strip_edges_spec(s@, marker),
{
    let cs = chars_of(s);
    let mut from: usize = 0;
    if cs.len() > 0 && cs[0] == marker {
        from = 1;
    }
    let mut to = cs.len();
    if to > from && cs[to - 1] == marker {
        to = to - 1;
    }
    let r = string_of(&cs, from, to);
    proof {
        let t = if s@.len() > 0 && s@[0] == marker {
            s@.skip(1)
        } else {
            s@
        };
        assert(t =~= cs@.subrange(from as int, cs@.len() as int));
        if to < cs.len() {
            assert(t.drop_last() =~= cs@.subrange(from as int, to as int));
        }
    }
    r
}

fn apply_annotation_exec(s: TextStyle, a: Annotation) -> (r: TextStyle)
    ensures
        r == apply_annotation(s, a),
{
    match a {
        Annotation::Strong => TextStyle {
            add_modifier: Modifiers { bold: true, ..s.add_modifier },
            ..s
        },
        Annotation::Emphasis => TextStyle {
            add_modifier: Modifiers { italic: true, ..s.add_modifier },
            ..s
        },
        Annotation::Strikeout => TextStyle {
            add_modifier: Modifiers { crossed_out: true, ..s.add_modifier },
            ..s
        },
        Annotation::Code | Annotation::Preformat => TextStyle {
            bg: Some(Rgb { r: 60, g: 60, b: 60 }),
            fg: Some(Rgb { r: 235, g: 235, b: 235 }),
            ..s
        },
        Annotation::Link => TextStyle {
            fg: Some(Rgb { r: 88, g: 166, b: 255 }),
            add_modifier: Modifiers { underlined: true, ..s.add_modifier },
            ..s
        },
        Annotation::Colour(r, g, b) => TextStyle { fg: Some(Rgb { r, g, b }), ..s },
        Annotation::BgColour(r, g, b) => TextStyle { bg: Some(Rgb { r, g, b }), ..s },
        _ => s,
    }
}

/// The display text and style of one annotated piece.
pub fn styled_piece(raw: &str, tags: &Vec<Annotation>) -> (r: (String, TextStyle))
    ensures
        r.0@ == piece_text(raw@, tags@),
        r.1 == style_of(tags@),
{
    let mut style = TextStyle {
        fg: None,
        bg: None,
        add_modifier: Modifiers { bold: false, italic: false, crossed_out: false, underlined: false },
    };
    let mut is_strong = false;
    let mut is_code = false;
    let mut i: usize = 0;
    while i < tags.len()
        invariant
            0 <= i <= tags.len(),
            style == style_of(tags@.take(i as int)),
            is_strong == has_strong(tags@.take(i as int)),
            is_code == has_code(tags@.take(i as int)),
        decreases tags.len() - i,
    {
        let a = tags[i];
        assert(tags@.take(i + 1).drop_last() =~= tags@.take(i as int));
        assert(tags@.take(i + 1).last() == a);
        style = apply_annotation_exec(style, a);
        match a {
            Annotation::Strong => {
                is_strong = true;
            },
            Annotation::Code | Annotation::Preformat => {
                is_code = true;
            },
            _ => {},
        }
        proof {
            let p = tags@.take(i as int);
            let q = tags@.take(i + 1);
            assert forall|k: int| 0 <= k < p.len() implies q[k] == p[k] by {}
            if has_strong(p) {
                let k = choose|k: int| 0 <= k < p.len() && p[k] is Strong;
                assert(q[k] is Strong);
            }
            if has_code(p) {
                let k = choose|k: int| 0 <= k < p.len() && is_code_annotation(p[k]);
                assert(is_code_annotation(q[k]));
            }
            if a is Strong {
                assert(q[i as int] is Strong);
            }
            if is_code_annotation(a) {
                assert(is_code_annotation(q[i as int]));
            }
        }
        i = i + 1;
    }
    assert(tags@.take(tags.len() as int) =~= tags@);
    let mut text = crate::text::owned(raw);
    if is_strong {
        text = strip_edges(text.as_str(), '*');
    }
    if is_code {
        text = strip_edges(text.as_str(), '`');
    }
    (text, style)
}

/// The styled spans of one laid-out line.
fn line_of(pieces: &Vec<RichPiece>) -> (r: StyledLine)
    ensures
        styled_line_view(r) == line_spans(rich_line_view(*pieces)),
{
    let ghost pv = rich_line_view(*pieces);
    let mut spans: Vec<StyledSpan> = Vec::new();
    let mut k: usize = 0;
    assert(pv.skip(0) =~= pv);
    while k < pieces.len()
        invariant
            0 <= k <= pieces.len(),
            pv == rich_line_view(*pieces),
            pv.len() == pieces.len(),
            spans@.map_values(|s: StyledSpan| s@) + line_spans(pv.skip(k as int)) == line_spans(
                pv,
            ),
        decreases pieces.len() - k,
    {
        let (text, style) = styled_piece(pieces[k].0.as_str(), &pieces[k].1);
        assert(pv[k as int] == piece_view(pieces@[k as int]));
        assert(pv.skip(k as int)[0] == pv[k as int]);
        assert(pv.skip(k as int).skip(1) =~= pv.skip(k + 1));
        let ghost before = spans@.map_values(|s: StyledSpan| s@);
        if !text.as_str().is_empty() {
            spans.push(StyledSpan { content: text, style });
            assert(spans@.map_values(|s: StyledSpan| s@) =~= before.push((text@, style)));
            assert(before.push((text@, style)) + line_spans(pv.skip(k + 1)) =~= before + (seq![
                (text@, style),
            ] + line_spans(pv.skip(k + 1))));
        }
        k = k + 1;
    }
    assert(pv.skip(k as int) =~= Seq::<(Seq<char>, Seq<Annotation>)>::empty());
    assert(spans@.map_values(|s: StyledSpan| s@) + Seq::<(Seq<char>, TextStyle)>::empty()
        =~= spans@.map_values(|s: StyledSpan| s@));
    StyledLine { spans }
}

/// Convert an HTML problem statement into styled terminal text, laid out at
/// `width` columns (at least 20). Fails where `html2text` cannot lay the text
/// out.
pub fn render_html(html: &str, width: usize) -> (r: Result<StyledText, RenderError>)
    ensures
        r is Ok <==> html_rich_lines(html@, render_width(width)) is Some,
        r matches Ok(t) ==> styled_text_view(t) == styled_lines(
            html_rich_lines(html@, render_width(width))->0,
        ),
        width >= 20 ==> (r is Ok <==> html_rich_lines(html@, width) is Some),
        width >= 20 ==> (r matches Ok(t) ==> styled_text_view(t) == styled_lines(
            html_rich_lines(html@, width)->0,
        )),
        width < 20 ==> (r is Ok <==> html_rich_lines(html@, 20) is Some),
        width < 20 ==> (r matches Ok(t) ==> styled_text_view(t) == styled_lines(
            html_rich_lines(html@, 20)->0,
        )),
{
    let w = if width < 20 {
        20
    } else {
        width
    };
    let rich = match rich_lines(html, w) {
        Ok(v) => v,
        Err(_) => {
            return Err(RenderError);
        },
    };
    let ghost rv = rich_view(rich@);
    let mut lines: Vec<StyledLine> = Vec::new();
    let mut i: usize = 0;
    while i < rich.len()
        invariant
            0 <= i <= rich.len(),
            rv == rich_view(rich@),
            lines@.map_values(|l: StyledLine| styled_line_view(l)) =~= styled_lines(
                rv.take(i as int),
            ),
        decreases rich.len() - i,
    {
        let line = line_of(&rich[i]);
        assert(rv[i as int] == rich_line_view(rich@[i as int]));
        assert(styled_line_view(line) == line_spans(rv[i as int]));
        let ghost before = lines@.map_values(|l: StyledLine| styled_line_view(l));
        lines.push(line);
        assert(lines@.map_values(|l: StyledLine| styled_line_view(l)) =~= before.push(
            line_spans(rv[i as int]),
        ));
        assert(rv.take(i + 1) =~= rv.take(i as int).push(rv[i as int]));
        assert(lines@.map_values(|l: StyledLine| styled_line_view(l)) =~= styled_lines(
            rv.take(i + 1),
        ));
        i = i + 1;
    }
    assert(rv.take(rich.len() as int) =~= rv);
    Ok(StyledText { lines })
}

/// Real styling replaces the layout's markers: the `*` pair around strong
/// text and the `` ` `` pair around code do not reach the visible text, and
/// strong code loses both pairs.
pub proof fn law_markers_dropped(x: Seq<char>, tags: Seq<Annotation>)
    ensures
        has_strong(tags) && !has_code(tags) ==> piece_text(seq!['*'] + x + seq!['*'], tags) == x,
        has_code(tags) && !has_strong(tags) ==> piece_text(seq!['`'] + x + seq!['`'], tags) == x,
        has_strong(tags) && has_code(tags) ==> piece_text(
            seq!['*', '`'] + x + seq!['`', '*'],
            tags,
        ) == x,
{
    let s1 = seq!['*'] + x + seq!['*'];
    assert(s1.skip(1) =~= x + seq!['*']);
    assert((x + seq!['*']).drop_last() =~= x);
    let s2 = seq!['`'] + x + seq!['`'];
    assert(s2.skip(1) =~= x + seq!['`']);
    assert((x + seq!['`']).drop_last() =~= x);
    let s3 = seq!['*', '`'] + x + seq!['`', '*'];
    assert(s3.skip(1) =~= seq!['`'] + x + seq!['`', '*']);
    assert((seq!['`'] + x + seq!['`', '*']).drop_last() =~= s2);
}

/// Rendering drops empty pieces: no span of a rendered line is empty.
pub proof fn law_rendered_spans_nonempty(lines: Seq<Seq<(Seq<char>, Seq<Annotation>)>>)
    ensures
        forall|i: int, j: int|
            0 <= i < styled_lines(lines).len() && 0 <= j < styled_lines(lines)[i].len() ==> (
            #[trigger] styled_lines(lines)[i][j]).0.len() > 0,
{
    assert forall|i: int, j: int|
        0 <= i < styled_lines(lines).len() && 0 <= j < styled_lines(
            lines,
        )[i].len() implies (#[trigger] styled_lines(lines)[i][j]).0.len() > 0 by {
        lemma_line_spans_nonempty(lines[i]);
    }
}

proof fn lemma_line_spans_nonempty(pieces: Seq<(Seq<char>, Seq<Annotation>)>)
    ensures
        forall|j: int| 0 <= j < line_spans(pieces).len() ==> (#[trigger] line_spans(pieces)[j]).0.len()
            > 0,
    decreases pieces.len(),
{
    if pieces.len() > 0 {
        lemma_line_spans_nonempty(pieces.skip(1));
        let t = piece_text(pieces[0].0, pieces[0].1);
        let rest = line_spans(pieces.skip(1));
        if t.len() > 0 {
            assert forall|j: int| 0 <= j < line_spans(pieces).len() implies (
            #[trigger] line_spans(pieces)[j]).0.len() > 0 by {
                if j > 0 {
                    assert(line_spans(pieces)[j] == rest[j - 1]);
                }
            }
        }
    }
}

/// Code gets a background and strong text gets bold, whatever else is
/// annotated on the piece; likewise emphasis gets italic and strikeout gets
/// crossed out.
pub proof fn law_annotations_show(tags: Seq<Annotation>)
    ensures
        has_code(tags) ==> style_of(tags).bg is Some,
        has_strong(tags) ==> style_of(tags).add_modifier.bold,
        (exists|i: int| 0 <= i < tags.len() && tags[i] is Emphasis) ==> style_of(
            tags,
        ).add_modifier.italic,
        (exists|i: int| 0 <= i < tags.len() && tags[i] is Strikeout) ==> style_of(
            tags,
        ).add_modifier.crossed_out,
    decreases tags.len(),
{
    if tags.len() > 0 {
        let init = tags.drop_last();
        law_annotations_show(init);
        assert forall|i: int| 0 <= i < init.len() implies init[i] == tags[i] by {}
        if has_code(tags) && !is_code_annotation(tags.last()) {
            let i = choose|i: int| 0 <= i < tags.len() && is_code_annotation(tags[i]);
            assert(i < init.len());
            assert(is_code_annotation(init[i]));
        }
        if has_strong(tags) && !(tags.last() is Strong) {
            let i = choose|i: int| 0 <= i < tags.len() && tags[i] is Strong;
            assert(init[i] is Strong);
        }
        if (exists|i: int| 0 <= i < tags.len() && tags[i] is Emphasis) && !(
        tags.last() is Emphasis) {
            let i = choose|i: int| 0 <= i < tags.len() && tags[i] is Emphasis;
            assert(init[i] is Emphasis);
        }
        if (exists|i: int| 0 <= i < tags.len() && tags[i] is Strikeout) && !(
        tags.last() is Strikeout) {
            let i = choose|i: int| 0 <= i < tags.len() && tags[i] is Strikeout;
            assert(init[i] is Strikeout);
        }
    }
}

/// The layout width is the width asked for, raised to 20 columns when it is
/// narrower: `max(width, 20)`.
pub proof fn law_render_width_is_max_20(width: usize)
    ensures
        render_width(width) >= 20,
        render_width(width) >= width,
        render_width(width) == width || render_width(width) == 20,
        width >= 20 ==> render_width(width) == width,
        width < 20 ==> render_width(width) == 20,
{
}

} // verus!
