use java_bindgen_macro::tokens::ts2_from;
use java_bindgen_macro::tokens::{error, ts2, CompileErrors, Segment, Site, Tokens};

fn segments(t: &Tokens) -> Vec<String> {
    t.segments
        .iter()
        .map(|s| match s {
            Segment::Code(c) => format!("code:{c}"),
            Segment::CompileError(site, m) => format!("error:{site:?}:{m}"),
            Segment::Input => "input".to_string(),
        })
        .collect()
}

#[test]
fn compile_errors_start_empty() {
    let e = CompileErrors::default();
    assert!(e.into_tokens().segments.is_empty());
}

#[test]
fn compile_errors_add_frames_message() {
    let mut e = CompileErrors::default();
    e.add("first".to_string());
    e.add_spaned(Site::Span(2), "second".to_string());
    let t: Tokens = e.into();
    assert_eq!(
        segments(&t),
        vec![
            "error:CallSite:[java-bindgen]\nfirst\n".to_string(),
            "error:Span(2):[java-bindgen]\nsecond\n".to_string(),
        ]
    );
}

#[test]
fn compile_errors_to_tokens_appends() {
    let mut e = CompileErrors::default();
    e.add("x".to_string());
    let mut t = Tokens::new();
    t.push(Segment::Code("a".to_string()));
    e.to_tokens(&mut t);
    e.to_tokens(&mut t);
    assert_eq!(
        segments(&t),
        vec![
            "code:a".to_string(),
            "error:CallSite:[java-bindgen]\nx\n".to_string(),
            "error:CallSite:[java-bindgen]\nx\n".to_string(),
        ]
    );
}

#[test]
fn error_is_unframed() {
    let t = error(Site::Item, "bad".to_string());
    assert_eq!(segments(&t), vec!["error:Item:bad".to_string()]);
}

#[test]
fn ts2_keeps_token_text() {
    assert_eq!(ts2("JNIEnv<'a>"), "JNIEnv<'a>");
    assert_eq!(ts2("\"getName\""), "\"getName\"");
    assert_eq!(ts2(""), "");
}

#[test]
fn ts2_replaces_text_that_does_not_lex() {
    assert_eq!(ts2("(a"), "/* Error */");
    assert_eq!(ts2("\"open"), "/* Error */");
    assert_eq!(ts2("a)"), "/* Error */");
}

#[test]
fn ts2_from_follows_the_verdict() {
    assert_eq!(ts2_from(true, "JNIEnv<'a>"), "JNIEnv<'a>");
    assert_eq!(ts2_from(false, "JNIEnv<'a>"), "/* Error */");
    assert_eq!(ts2_from(true, "(a"), "(a");
}
