use proc_macro_hack::args::{parse_define_args, parse_export_args, parse_int, parse_punct};
use proc_macro_hack::iter;
use proc_macro_hack::token::{ident, literal, punct, TokenStream, TokenTree};

fn id(s: &str) -> TokenTree {
    ident(s, 7)
}

fn p(c: char) -> TokenTree {
    punct(c, 8)
}

fn lit(s: &str) -> TokenTree {
    literal(s, 9)
}

#[test]
fn export_args_empty_gives_defaults() {
    let mut it = iter::new(Vec::new());
    let args = parse_export_args(&mut it).unwrap();
    assert!(!args.support_nested);
    assert_eq!(args.internal_macro_calls, 0);
    assert!(!args.fake_call_site);
}

#[test]
fn export_args_support_nested_and_count() {
    let ts: TokenStream = vec![id("support_nested"), p(','), id("internal_macro_calls"), p('='), lit("3")];
    let mut it = iter::new(ts);
    let args = parse_export_args(&mut it).unwrap();
    assert!(args.support_nested);
    assert_eq!(args.internal_macro_calls, 3);
    assert!(!args.fake_call_site);
}

#[test]
fn export_args_order_does_not_matter() {
    let ts: TokenStream = vec![id("internal_macro_calls"), p('='), lit("3"), p(','), id("support_nested")];
    let mut it = iter::new(ts);
    let args = parse_export_args(&mut it).unwrap();
    assert!(args.support_nested);
    assert_eq!(args.internal_macro_calls, 3);
    assert!(!args.fake_call_site);
}

#[test]
fn export_args_trailing_comma_is_fine() {
    let ts: TokenStream = vec![id("fake_call_site"), p(',')];
    let mut it = iter::new(ts);
    let args = parse_export_args(&mut it).unwrap();
    assert!(args.fake_call_site);
    assert!(!args.support_nested);
}

#[test]
fn export_args_parsing_same_input_twice_agrees() {
    let mk = || -> TokenStream { vec![id("support_nested"), p(','), id("internal_macro_calls"), p('='), lit("3")] };
    let mut it1 = iter::new(mk());
    let mut it2 = iter::new(mk());
    let a = parse_export_args(&mut it1).unwrap();
    let b = parse_export_args(&mut it2).unwrap();
    assert_eq!(a, b);
}

#[test]
fn export_args_unknown_name_lists_the_three_legal_ones() {
    let ts: TokenStream = vec![id("bogus_flag")];
    let mut it = iter::new(ts);
    let e = parse_export_args(&mut it).unwrap_err();
    assert_eq!(
        e.message(),
        "expected one of: `support_nested`, `internal_macro_calls`, `fake_call_site`"
    );
    assert_eq!(e.span(), 7);
}

#[test]
fn export_args_non_ident_token_lists_the_three_legal_ones() {
    let ts: TokenStream = vec![lit("5")];
    let mut it = iter::new(ts);
    let e = parse_export_args(&mut it).unwrap_err();
    assert_eq!(
        e.message(),
        "expected one of: `support_nested`, `internal_macro_calls`, `fake_call_site`"
    );
    assert_eq!(e.span(), 9);
}

#[test]
fn export_args_missing_comma_between_items() {
    let ts: TokenStream = vec![id("support_nested"), id("fake_call_site")];
    let mut it = iter::new(ts);
    let e = parse_export_args(&mut it).unwrap_err();
    assert_eq!(e.message(), "expected `,`");
}

#[test]
fn export_args_missing_equals_sign() {
    let ts: TokenStream = vec![id("internal_macro_calls"), lit("3")];
    let mut it = iter::new(ts);
    let e = parse_export_args(&mut it).unwrap_err();
    assert_eq!(e.message(), "expected `=`");
}

#[test]
fn export_args_count_must_be_an_integer() {
    let ts: TokenStream = vec![id("internal_macro_calls"), p('='), id("three")];
    let mut it = iter::new(ts);
    let e = parse_export_args(&mut it).unwrap_err();
    assert_eq!(e.message(), "expected integer value for internal_macro_calls");
}

#[test]
fn export_args_count_too_large_is_rejected() {
    let ts: TokenStream = vec![id("internal_macro_calls"), p('='), lit("65536")];
    let mut it = iter::new(ts);
    let e = parse_export_args(&mut it).unwrap_err();
    assert_eq!(e.message(), "expected integer value for internal_macro_calls");
}

#[test]
fn export_args_count_at_limit_is_accepted() {
    let ts: TokenStream = vec![id("internal_macro_calls"), p('='), lit("65535")];
    let mut it = iter::new(ts);
    let args = parse_export_args(&mut it).unwrap();
    assert_eq!(args.internal_macro_calls, 65535);
}

#[test]
fn parse_int_reads_leading_zeros() {
    let ts: TokenStream = vec![lit("007")];
    let mut it = iter::new(ts);
    assert_eq!(parse_int(&mut it), Ok(7));
}

#[test]
fn parse_int_rejects_mixed_text() {
    let ts: TokenStream = vec![lit("12a")];
    let mut it = iter::new(ts);
    assert_eq!(parse_int(&mut it), Err(9));
}

#[test]
fn parse_int_rejects_empty_stream_at_call_site() {
    let mut it = iter::new(Vec::new());
    assert_eq!(parse_int(&mut it), Err(proc_macro_hack::CALL_SITE_SPAN));
}

#[test]
fn parse_punct_consumes_only_on_match() {
    let ts: TokenStream = vec![p(','), id("x")];
    let mut it = iter::new(ts);
    assert!(parse_punct(&mut it, ',').is_ok());
    let e = parse_punct(&mut it, ',').unwrap_err();
    assert_eq!(e.message(), "expected `,`");
    assert_eq!(e.span(), 7);
}

#[test]
fn define_args_accepts_nothing() {
    let mut it = iter::new(Vec::new());
    assert!(parse_define_args(&mut it).is_ok());
}

#[test]
fn define_args_rejects_any_argument() {
    let ts: TokenStream = vec![id("support_nested")];
    let mut it = iter::new(ts);
    let e = parse_define_args(&mut it).unwrap_err();
    assert_eq!(
        e.message(),
        "unexpected argument to proc_macro_hack macro implementation; args are only accepted on the macro declaration (the `pub use`)"
    );
    assert_eq!(e.span(), 7);
}

#[test]
fn export_args_all_three_in_any_order() {
    let mk = |ts: TokenStream| {
        let mut it = iter::new(ts);
        parse_export_args(&mut it).unwrap()
    };
    let a = mk(vec![
        id("support_nested"), p(','), id("internal_macro_calls"), p('='), lit("3"), p(','), id("fake_call_site"),
    ]);
    let b = mk(vec![
        id("fake_call_site"), p(','), id("support_nested"), p(','), id("internal_macro_calls"), p('='), lit("3"),
    ]);
    let c = mk(vec![
        id("internal_macro_calls"), p('='), lit("3"), p(','), id("fake_call_site"), p(','), id("support_nested"),
    ]);
    assert!(a.support_nested && a.fake_call_site);
    assert_eq!(a.internal_macro_calls, 3);
    assert_eq!(a, b);
    assert_eq!(a, c);
}
