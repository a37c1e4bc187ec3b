use proc_macro_hack::digits::{dec_string, parse_u16};
use proc_macro_hack::error::{render_error, Error};
use proc_macro_hack::iter;
use proc_macro_hack::token::{ident, punct, str_eq, stream_eq, tree_eq, TokenStream, TokenTree};

#[test]
fn error_renders_as_a_diagnostic_invocation() {
    let e = Error::new(5, "boom");
    let ts = render_error(e);
    assert_eq!(ts.len(), 3);
    match &ts[0] {
        TokenTree::Ident { text, span } => {
            assert_eq!(text, "compile_error");
            assert_eq!(*span, 5);
        },
        _ => panic!("expected the diagnostic macro name"),
    }
    match &ts[1] {
        TokenTree::Punct { ch, .. } => assert_eq!(*ch, '!'),
        _ => panic!("expected the bang"),
    }
    match &ts[2] {
        TokenTree::Group { tokens, .. } => match &tokens[0] {
            TokenTree::Literal { text, .. } => assert_eq!(text, "\"boom\""),
            _ => panic!("expected the quoted message"),
        },
        _ => panic!("expected the braced message"),
    }
}

#[test]
fn error_keeps_span_and_message() {
    let e = Error::new(9, "hello");
    assert_eq!(e.span(), 9);
    assert_eq!(e.message(), "hello");
}

#[test]
fn decimal_rendering_and_parsing_round_trip() {
    assert_eq!(dec_string(0), "0");
    assert_eq!(dec_string(64), "64");
    assert_eq!(dec_string(65535), "65535");
    assert_eq!(parse_u16("64"), Some(64));
    assert_eq!(parse_u16(&dec_string(12345)), Some(12345));
    assert_eq!(parse_u16(""), None);
    assert_eq!(parse_u16("6 4"), None);
}

#[test]
fn cursor_peeks_without_consuming_and_collects_the_rest() {
    let ts: TokenStream = vec![ident("a", 1), punct(',', 2), ident("b", 3)];
    let copy = proc_macro_hack::token::clone_stream(&ts);
    let mut it = iter::new(ts);
    match it.peek() {
        Some(TokenTree::Ident { text, .. }) => assert_eq!(text, "a"),
        _ => panic!("expected the first token"),
    }
    match it.next() {
        Some(TokenTree::Ident { text, .. }) => assert_eq!(text, "a"),
        _ => panic!("expected the first token again"),
    }
    let rest = it.collect_rest();
    assert_eq!(rest.len(), 2);
    assert!(it.peek().is_none());
    assert!(tree_eq(&rest[0], &copy[1]));
    assert!(tree_eq(&rest[1], &copy[2]));
}

#[test]
fn equality_helpers_compare_structurally() {
    assert!(str_eq("abc", "abc"));
    assert!(!str_eq("abc", "abd"));
    let a: TokenStream = vec![ident("x", 1)];
    let b: TokenStream = vec![ident("x", 1)];
    let c: TokenStream = vec![ident("x", 2)];
    assert!(stream_eq(&a, &b));
    assert!(!stream_eq(&a, &c));
}
