use lcx::markup::{render_html, strip_edges, styled_piece, Annotation, Modifier, Rgb};

/// Inline `<code>` gets a background; `<strong>` gets bold, and neither
/// leaks its `*`/`` ` `` markers into the visible text.
#[test]
fn styles_code_and_strong() {
    let text = render_html("<p>Given <code>nums</code> and <strong>k</strong>.</p>", 80).unwrap();
    let spans: Vec<_> = text.lines.iter().flat_map(|l| l.spans.iter()).collect();

    let code = spans
        .iter()
        .find(|s| s.content.contains("nums"))
        .expect("code span");
    assert_eq!(code.content.as_str(), "nums");
    assert!(code.style.bg.is_some(), "code should have a background");

    let strong = spans
        .iter()
        .find(|s| s.content.contains('k') && s.content.len() == 1)
        .expect("strong span");
    assert_eq!(strong.content.as_str(), "k");
    assert!(strong.style.add_modifier.contains(Modifier::Bold));
}

#[test]
fn strip_edges_removes_one_marker_each_side() {
    assert_eq!(strip_edges("*k*", '*'), "k");
    assert_eq!(strip_edges("**k**", '*'), "*k*");
    assert_eq!(strip_edges("*k", '*'), "k");
    assert_eq!(strip_edges("k*", '*'), "k");
    assert_eq!(strip_edges("*", '*'), "");
    assert_eq!(strip_edges("", '*'), "");
    assert_eq!(strip_edges("`nums`", '`'), "nums");
    assert_eq!(strip_edges("nums", '`'), "nums");
}

#[test]
fn styled_piece_code_and_link() {
    let (t, s) = styled_piece("`x`", &vec![Annotation::Code]);
    assert_eq!(t, "x");
    assert_eq!(s.bg, Some(Rgb { r: 60, g: 60, b: 60 }));
    assert_eq!(s.fg, Some(Rgb { r: 235, g: 235, b: 235 }));

    let (t, s) = styled_piece("site", &vec![Annotation::Link]);
    assert_eq!(t, "site");
    assert_eq!(s.fg, Some(Rgb { r: 88, g: 166, b: 255 }));
    assert!(s.add_modifier.contains(Modifier::Underlined));
    assert!(!s.add_modifier.contains(Modifier::Bold));
}

#[test]
fn styled_piece_later_annotations_win() {
    let (_, s) = styled_piece("a", &vec![Annotation::Colour(1, 2, 3), Annotation::Colour(4, 5, 6)]);
    assert_eq!(s.fg, Some(Rgb { r: 4, g: 5, b: 6 }));
    let (_, s) = styled_piece("a", &vec![Annotation::BgColour(9, 9, 9), Annotation::Preformat]);
    assert_eq!(s.bg, Some(Rgb { r: 60, g: 60, b: 60 }));
    let (t, s) = styled_piece("*a*", &vec![Annotation::Emphasis, Annotation::Strikeout]);
    assert_eq!(t, "*a*");
    assert!(s.add_modifier.contains(Modifier::Italic));
    assert!(s.add_modifier.contains(Modifier::CrossedOut));
    assert_eq!(s.fg, None);
}

#[test]
fn styled_piece_strong_code() {
    let (t, s) = styled_piece("*`a`*", &vec![Annotation::Strong, Annotation::Code]);
    assert_eq!(t, "a");
    assert!(s.add_modifier.contains(Modifier::Bold));
    assert!(s.bg.is_some());
}

#[test]
fn render_html_plain_paragraph() {
    let text = render_html("<p>Hello world</p>", 80).unwrap();
    let all: String = text
        .lines
        .iter()
        .flat_map(|l| l.spans.iter())
        .map(|s| s.content.clone())
        .collect();
    assert!(all.contains("Hello world"));
    for l in &text.lines {
        for s in &l.spans {
            assert!(!s.content.is_empty());
        }
    }
}

#[test]
fn render_html_narrow_width_is_raised() {
    let narrow = render_html("<p>one two three four five six seven eight</p>", 1).unwrap();
    let twenty = render_html("<p>one two three four five six seven eight</p>", 20).unwrap();
    let a: Vec<String> = narrow
        .lines
        .iter()
        .map(|l| l.spans.iter().map(|s| s.content.clone()).collect())
        .collect();
    let b: Vec<String> = twenty
        .lines
        .iter()
        .map(|l| l.spans.iter().map(|s| s.content.clone()).collect())
        .collect();
    assert_eq!(a, b);
}
