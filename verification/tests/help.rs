use lcx::help::{help_line, HelpSegment};

fn seg(text: &str, key: bool) -> HelpSegment {
    HelpSegment { text: text.to_string(), key }
}

#[test]
fn help_line_marks_keys() {
    let segs = help_line("<Tab> focus   <Enter> open");
    assert_eq!(
        segs,
        vec![seg("<Tab>", true), seg(" focus   ", false), seg("<Enter>", true), seg(" open", false)]
    );
}

#[test]
fn help_line_leading_text_and_unclosed() {
    assert_eq!(help_line("press <q"), vec![seg("press <q", false)]);
    assert_eq!(
        help_line("a <b> c <d"),
        vec![seg("a ", false), seg("<b>", true), seg(" c <d", false)]
    );
    assert_eq!(help_line(""), Vec::<HelpSegment>::new());
    assert_eq!(help_line("<>"), vec![seg("<>", true)]);
}

#[test]
fn help_line_pieces_rejoin_to_text() {
    let text = "<Tab> focus   <\u{2191}>/<\u{2193}> move   <Enter> open/select   <F5> refresh   <F1> login   <Esc> quit";
    let segs = help_line(text);
    let joined: String = segs.iter().map(|s| s.text.as_str()).collect();
    assert_eq!(joined, text);
    assert!(segs.iter().all(|s| !s.text.is_empty()));
    assert!(segs.iter().filter(|s| s.key).all(|s| s.text.starts_with('<') && s.text.ends_with('>')));
    assert_eq!(segs.iter().filter(|s| s.key).count(), 7);
}
