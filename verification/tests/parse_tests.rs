use proc_macro_hack::compiler;
use proc_macro_hack::iter;
use proc_macro_hack::parse::{parse_input, Input};
use proc_macro_hack::token::{group, ident, punct, stream_eq, Delim, TokenStream, TokenTree};

fn id(s: &str) -> TokenTree {
    ident(s, 3)
}

fn p(c: char) -> TokenTree {
    punct(c, 4)
}

fn export_tokens(names: TokenStream) -> TokenStream {
    let mut ts: TokenStream = vec![id("pub"), id("use"), id("demo_hack_impl"), p(':'), p(':')];
    ts.extend(names);
    ts.push(p(';'));
    ts
}

#[test]
fn classify_use_as_export() {
    let ts = export_tokens(vec![id("add_one")]);
    let mut it = iter::new(ts);
    match parse_input(&mut it).unwrap() {
        Input::Export(e) => {
            assert_eq!(e.from.text, "demo_hack_impl");
            assert_eq!(e.macros.len(), 1);
            assert_eq!(e.macros[0].name.text, "add_one");
            assert_eq!(e.macros[0].export_as.text, "add_one");
            assert!(e.vis.is_some());
        },
        Input::Define(_) => panic!("classified as a definition"),
    }
}

#[test]
fn classify_braced_list_with_aliases() {
    let inner: TokenStream = vec![id("m1"), p(','), id("m2"), id("as"), id("qrst"), p(',')];
    let ts = export_tokens(vec![group(Delim::Brace, inner, 5)]);
    let mut it = iter::new(ts);
    match parse_input(&mut it).unwrap() {
        Input::Export(e) => {
            assert_eq!(e.macros.len(), 2);
            assert_eq!(e.macros[0].name.text, "m1");
            assert_eq!(e.macros[0].export_as.text, "m1");
            assert_eq!(e.macros[1].name.text, "m2");
            assert_eq!(e.macros[1].export_as.text, "qrst");
        },
        Input::Define(_) => panic!("classified as a definition"),
    }
}

#[test]
fn classify_empty_brace_list_is_rejected() {
    let ts = export_tokens(vec![group(Delim::Brace, Vec::new(), 5)]);
    let mut it = iter::new(ts);
    let e = parse_input(&mut it).unwrap_err();
    assert_eq!(e.message(), "expected identifier");
}

#[test]
fn classify_missing_semicolon_is_rejected() {
    let ts: TokenStream = vec![id("pub"), id("use"), id("m"), p(':'), p(':'), id("x")];
    let mut it = iter::new(ts);
    let e = parse_input(&mut it).unwrap_err();
    assert_eq!(e.message(), "expected `;`");
}

#[test]
fn classify_fn_keeps_name_and_body() {
    let body = vec![group(Delim::Paren, vec![id("input")], 6), group(Delim::Brace, vec![id("body")], 7)];
    let mut ts: TokenStream = vec![id("pub"), id("fn"), id("add_one")];
    ts.extend(proc_macro_hack::token::clone_stream(&body));
    let mut it = iter::new(ts);
    match parse_input(&mut it).unwrap() {
        Input::Define(d) => {
            assert_eq!(d.name.text, "add_one");
            assert!(stream_eq(&d.body, &body));
        },
        Input::Export(_) => panic!("classified as a re-export"),
    }
}

#[test]
fn classify_private_fn_is_rejected() {
    let ts: TokenStream = vec![id("fn"), id("add_one")];
    let mut it = iter::new(ts);
    let e = parse_input(&mut it).unwrap_err();
    assert_eq!(e.message(), "functions tagged with `#[proc_macro_hack]` must be `pub`");
}

#[test]
fn classify_other_keyword_is_rejected() {
    let ts: TokenStream = vec![id("struct"), id("S")];
    let mut it = iter::new(ts);
    let e = parse_input(&mut it).unwrap_err();
    assert_eq!(e.message(), "unexpected input to #[proc_macro_hack]");
}

#[test]
fn classify_attribute_without_bracket_group_is_rejected() {
    let ts: TokenStream = vec![p('#'), id("derive")];
    let mut it = iter::new(ts);
    let e = parse_input(&mut it).unwrap_err();
    assert_eq!(e.message(), "unexpected input");
}

#[test]
fn native_path_passes_a_valid_export_through() {
    let input = export_tokens(vec![id("add_one")]);
    let copy = proc_macro_hack::token::clone_stream(&input);
    let mut args = iter::new(Vec::new());
    let out = compiler::expand_proc_macro_hack(&mut args, input).unwrap();
    assert!(stream_eq(&out, &copy));
}

#[test]
fn native_path_tags_a_definition_with_the_host_attribute() {
    let input: TokenStream = vec![id("pub"), id("fn"), id("add_one"), group(Delim::Brace, Vec::new(), 5)];
    let copy = proc_macro_hack::token::clone_stream(&input);
    let mut args = iter::new(Vec::new());
    let out = compiler::expand_proc_macro_hack(&mut args, input).unwrap();
    assert_eq!(out.len(), copy.len() + 2);
    match &out[0] {
        TokenTree::Punct { ch, .. } => assert_eq!(*ch, '#'),
        _ => panic!("expected the attribute pound"),
    }
    match &out[1] {
        TokenTree::Group { delim, tokens, .. } => {
            assert_eq!(*delim, Delim::Bracket);
            assert_eq!(tokens.len(), 1);
            match &tokens[0] {
                TokenTree::Ident { text, .. } => assert_eq!(text, "proc_macro"),
                _ => panic!("expected the attribute name"),
            }
        },
        _ => panic!("expected the attribute group"),
    }
    let tail: TokenStream = out.into_iter().skip(2).collect();
    assert!(stream_eq(&tail, &copy));
}

#[test]
fn native_path_rejects_arguments_on_a_definition() {
    let input: TokenStream = vec![id("pub"), id("fn"), id("add_one"), group(Delim::Brace, Vec::new(), 5)];
    let mut args = iter::new(vec![id("support_nested")]);
    let e = compiler::expand_proc_macro_hack(&mut args, input).unwrap_err();
    assert_eq!(e.message(), "unexpected input");
    assert_eq!(e.span(), proc_macro_hack::CALL_SITE_SPAN);
}

#[test]
fn native_path_validates_export_arguments() {
    let input = export_tokens(vec![id("add_one")]);
    let mut args = iter::new(vec![id("bogus_flag")]);
    let e = compiler::expand_proc_macro_hack(&mut args, input).unwrap_err();
    assert_eq!(
        e.message(),
        "expected one of: `support_nested`, `internal_macro_calls`, `fake_call_site`"
    );
}
