use proc_macro_hack::marker::{count_bangs, make_marker_enum, parse_enum_hack, tag_name_string,
    tag_of_name, unwrap_marker_enum, wrap_expansion, MarkerTag};
use proc_macro_hack::token::{group, ident, literal, punct, stream_eq, Delim, TokenStream,
    TokenTree};

fn id(s: &str) -> TokenTree {
    ident(s, 0)
}

fn p(c: char) -> TokenTree {
    punct(c, 0)
}

fn sample_tokens() -> TokenStream {
    vec![
        literal("2", 0),
        p('+'),
        group(Delim::Paren, vec![id("two"), group(Delim::Paren, Vec::new(), 0), p('!')], 0),
    ]
}

#[test]
fn marker_round_trips_tag_and_tokens() {
    let tags = vec![
        MarkerTag::Value,
        MarkerTag::Nested { calls: 0 },
        MarkerTag::Nested { calls: 7 },
        MarkerTag::Nested { calls: 65535 },
    ];
    for tag in tags {
        let expected = sample_tokens();
        let enum_tokens = make_marker_enum(&tag, sample_tokens());
        let (tag2, inner) = unwrap_marker_enum(enum_tokens).unwrap();
        assert_eq!(tag2, tag);
        assert!(stream_eq(&inner, &expected));
    }
}

#[test]
fn marker_rejects_a_stream_that_is_not_the_synthetic_shape() {
    let e = unwrap_marker_enum(sample_tokens()).unwrap_err();
    assert_eq!(e.message(), "unexpected input");
    assert_eq!(e.span(), proc_macro_hack::CALL_SITE_SPAN);
}

#[test]
fn tag_names_encode_and_decode() {
    assert_eq!(tag_name_string(&MarkerTag::Value), "Value");
    assert_eq!(tag_name_string(&MarkerTag::Nested { calls: 0 }), "Nested");
    assert_eq!(tag_name_string(&MarkerTag::Nested { calls: 12 }), "Nested12");
    assert_eq!(tag_of_name("Value"), Some(MarkerTag::Value));
    assert_eq!(tag_of_name("Input"), Some(MarkerTag::Value));
    assert_eq!(tag_of_name("Nested"), Some(MarkerTag::Nested { calls: 0 }));
    assert_eq!(tag_of_name("Nested12"), Some(MarkerTag::Nested { calls: 12 }));
    assert_eq!(tag_of_name("NestedX"), None);
    assert_eq!(tag_of_name("Nested99999"), None);
}

#[test]
fn bangs_are_counted_through_nested_groups() {
    let ts: TokenStream = vec![
        p('!'),
        group(Delim::Paren, vec![p('!'), group(Delim::Bracket, vec![p('!')], 0)], 0),
        id("a"),
        p('!'),
    ];
    assert_eq!(count_bangs(&ts, 100), 4);
    assert_eq!(count_bangs(&ts, 2), 2);
    assert_eq!(count_bangs(&Vec::new(), 100), 0);
}

#[test]
fn plain_expansion_wraps_under_the_fixed_name() {
    let out: TokenStream = vec![literal("6", 0)];
    let wrapped = wrap_expansion(&MarkerTag::Value, &sample_tokens(), out).unwrap();
    assert_eq!(wrapped.len(), 4);
    match &wrapped[0] {
        TokenTree::Ident { text, .. } => assert_eq!(text, "macro_rules"),
        _ => panic!("expected macro_rules"),
    }
    match &wrapped[2] {
        TokenTree::Ident { text, .. } => assert_eq!(text, "proc_macro_call"),
        _ => panic!("expected the fixed local name"),
    }
}

#[test]
fn nested_expansion_dispatches_on_declared_layers_plus_bangs() {
    let input: TokenStream = vec![p('!'), group(Delim::Paren, vec![p('!'), p('!')], 0)];
    let out: TokenStream = vec![literal("6", 0)];
    let wrapped = wrap_expansion(&MarkerTag::Nested { calls: 2 }, &input, out).unwrap();
    match &wrapped[2] {
        TokenTree::Ident { text, .. } => assert_eq!(text, "proc_macro_call_5"),
        _ => panic!("expected the arity-indexed name"),
    }
}

#[test]
fn nested_expansion_at_the_table_end_still_works() {
    let mut input: TokenStream = Vec::new();
    for _ in 0..4 {
        input.push(p('!'));
    }
    let out: TokenStream = vec![literal("6", 0)];
    let wrapped = wrap_expansion(&MarkerTag::Nested { calls: 60 }, &input, out).unwrap();
    match &wrapped[2] {
        TokenTree::Ident { text, .. } => assert_eq!(text, "proc_macro_call_64"),
        _ => panic!("expected the arity-indexed name"),
    }
}

#[test]
fn nesting_past_the_table_end_is_a_dedicated_error() {
    let mut input: TokenStream = Vec::new();
    for _ in 0..5 {
        input.push(p('!'));
    }
    let out: TokenStream = vec![literal("6", 0)];
    let e = wrap_expansion(&MarkerTag::Nested { calls: 60 }, &input, out).unwrap_err();
    assert_eq!(e.message(), "this macro does not support >64 nested macro invocations");
}

#[test]
fn guard_wrap_and_unwrap_round_trip() {
    let inner = sample_tokens();
    let expected = sample_tokens();
    let wrapped = proc_macro_hack::fallback::wrap_in_enum_hack(
        String::from("_4demo_7add_one"),
        inner,
    );
    let back = parse_enum_hack(wrapped).unwrap();
    assert!(stream_eq(&back, &expected));
}
