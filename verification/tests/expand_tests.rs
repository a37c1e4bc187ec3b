use proc_macro_hack::fallback::{actual_proc_macro_name, call_site_macro_name,
    dispatch_macro_name, dummy_name_for_export, expand_define, expand_export,
    expand_fake_call_site, expand_proc_macro_hack, unraw, wrap_in_enum_hack};
use proc_macro_hack::iter;
use proc_macro_hack::legacy::{hack_expr, hack_item, parse};
use proc_macro_hack::marker::{make_marker_enum, parse_enum_hack, unwrap_marker_enum,
    wrap_expansion, MarkerTag};
use proc_macro_hack::parse::{Define, Export, Ident, Macro};
use proc_macro_hack::token::{group, ident, literal, punct, stream_eq, Delim, TokenStream,
    TokenTree};
use proc_macro_hack::ExportArgs;

fn id(s: &str) -> TokenTree {
    ident(s, 0)
}

fn p(c: char) -> TokenTree {
    punct(c, 0)
}

fn mk_ident(s: &str, span: u32) -> Ident {
    Ident { text: String::from(s), span }
}

fn mk_macro(name: &str, export_as: &str) -> Macro {
    Macro { name: mk_ident(name, 1), export_as: mk_ident(export_as, 1) }
}

fn plain_args() -> ExportArgs {
    ExportArgs { support_nested: false, internal_macro_calls: 0, fake_call_site: false }
}

fn two_macro_export() -> Export {
    Export {
        attrs: Vec::new(),
        vis: Some(2),
        from: mk_ident("demo_hack_impl", 1),
        macros: vec![mk_macro("add_one", "add_one"), mk_macro("two_fn", "two")],
    }
}

fn count_top_level_ident(ts: &TokenStream, name: &str) -> usize {
    let mut n = 0;
    for t in ts {
        if let TokenTree::Ident { text, .. } = t {
            if text.as_str() == name {
                n += 1;
            }
        }
    }
    n
}

#[test]
fn mangled_names_are_deterministic_prefixes() {
    let name = mk_ident("add_one", 5);
    assert_eq!(actual_proc_macro_name(&name).text, "proc_macro_hack_add_one");
    assert_eq!(dispatch_macro_name(&name).text, "proc_macro_call_add_one");
    assert_eq!(call_site_macro_name(&name).text, "proc_macro_fake_call_site_add_one");
    assert_eq!(actual_proc_macro_name(&name).span, 5);
}

#[test]
fn unraw_strips_only_the_raw_prefix() {
    assert_eq!(unraw(&mk_ident("r#async", 5)).text, "async");
    assert_eq!(unraw(&mk_ident("regular", 5)).text, "regular");
    assert_eq!(unraw(&mk_ident("r", 5)).text, "r");
}

#[test]
fn guard_name_length_prefixes_every_segment() {
    let export = two_macro_export();
    assert_eq!(dummy_name_for_export(&export), "_14demo_hack_impl_7add_one_6two_fn");
}

#[test]
fn guard_name_uses_unrawed_names() {
    let export = Export {
        attrs: Vec::new(),
        vis: None,
        from: mk_ident("r#mod", 1),
        macros: vec![mk_macro("r#fn", "f")],
    };
    assert_eq!(dummy_name_for_export(&export), "_3mod_2fn");
}

#[test]
fn export_expands_to_one_definition_per_pair_inside_the_guard() {
    let out = expand_export(two_macro_export(), plain_args());
    match &out[3] {
        TokenTree::Ident { text, .. } => {
            assert_eq!(text, "_14demo_hack_impl_7add_one_6two_fn");
        },
        _ => panic!("expected the guard name"),
    }
    let inner = parse_enum_hack(out).unwrap();
    assert_eq!(count_top_level_ident(&inner, "macro_rules"), 2);
    assert_eq!(count_top_level_ident(&inner, "use"), 1);
    assert_eq!(count_top_level_ident(&inner, "pub"), 1);
}

#[test]
fn nested_export_also_reexports_the_dispatch_aliases() {
    let mut args = plain_args();
    args.support_nested = true;
    let out = expand_export(two_macro_export(), args);
    let inner = parse_enum_hack(out).unwrap();
    assert_eq!(count_top_level_ident(&inner, "macro_rules"), 2);
    assert_eq!(count_top_level_ident(&inner, "use"), 2);
    assert_eq!(count_top_level_ident(&inner, "proc_macro_nested"), 1);
}

#[test]
fn fake_call_site_export_also_reexports_the_span_helpers() {
    let mut args = plain_args();
    args.fake_call_site = true;
    let out = expand_export(two_macro_export(), args);
    let inner = parse_enum_hack(out).unwrap();
    assert_eq!(count_top_level_ident(&inner, "use"), 2);
    assert_eq!(count_top_level_ident(&inner, "proc_macro_hack"), 1);
}

#[test]
fn define_keeps_the_original_function_after_the_derive() {
    let body: TokenStream = vec![
        group(Delim::Paren, vec![id("input")], 0),
        group(Delim::Brace, vec![id("input")], 0),
    ];
    let define = Define {
        attrs: Vec::new(),
        name: mk_ident("add_one", 9),
        body: proc_macro_hack::token::clone_stream(&body),
    };
    let out = expand_define(define);
    match &out[0] {
        TokenTree::Ident { text, .. } => assert_eq!(text, "mod"),
        _ => panic!("expected the module keyword"),
    }
    match &out[1] {
        TokenTree::Ident { text, span } => {
            assert_eq!(text, "proc_macro_hack_add_one");
            assert_eq!(*span, 9);
        },
        _ => panic!("expected the hidden alias"),
    }
    assert_eq!(count_top_level_ident(&out, "proc_macro_hack_add_one"), 3);
    assert_eq!(count_top_level_ident(&out, "fn"), 2);
    let n = out.len();
    let tail: TokenStream = out.into_iter().skip(n - 2).collect();
    assert!(stream_eq(&tail, &body));
}

#[test]
fn whole_fallback_expansion_of_an_export() {
    let input: TokenStream = vec![
        id("pub"),
        id("use"),
        id("demo_hack_impl"),
        p(':'),
        p(':'),
        group(Delim::Brace, vec![id("add_one"), p(','), id("two_fn"), id("as"), id("two")], 0),
        p(';'),
    ];
    let mut args = iter::new(vec![id("support_nested")]);
    let out = expand_proc_macro_hack(&mut args, input).unwrap();
    let inner = parse_enum_hack(out).unwrap();
    assert_eq!(count_top_level_ident(&inner, "macro_rules"), 2);
    assert_eq!(count_top_level_ident(&inner, "add_one"), 1);
    assert_eq!(count_top_level_ident(&inner, "two"), 1);
}

#[test]
fn whole_fallback_expansion_rejects_arguments_on_a_definition() {
    let input: TokenStream = vec![
        id("pub"),
        id("fn"),
        id("add_one"),
        group(Delim::Paren, vec![id("input")], 0),
        group(Delim::Brace, Vec::new(), 0),
    ];
    let mut args = iter::new(vec![id("support_nested")]);
    let e = expand_proc_macro_hack(&mut args, input).unwrap_err();
    assert_eq!(
        e.message(),
        "unexpected argument to proc_macro_hack macro implementation; args are only accepted on the macro declaration (the `pub use`)"
    );
}

#[test]
fn fake_call_site_with_no_argument_passes_through() {
    let input: TokenStream = vec![id("anything"), p('!')];
    let copy = proc_macro_hack::token::clone_stream(&input);
    let mut args = iter::new(Vec::new());
    let mut input_it = iter::new(input);
    let out = expand_fake_call_site(&mut args, &mut input_it).unwrap();
    assert!(stream_eq(&out, &copy));
}

#[test]
fn fake_call_site_rebinds_the_derive_span() {
    let input: TokenStream = vec![
        p('#'),
        group(
            Delim::Bracket,
            vec![id("derive"), group(Delim::Paren, vec![ident("MyDerive", 3)], 0)],
            0,
        ),
        id("enum"),
        id("ProcMacroHack"),
    ];
    let mut args = iter::new(vec![ident("here", 42)]);
    let mut input_it = iter::new(input);
    let out = expand_fake_call_site(&mut args, &mut input_it).unwrap();
    match &out[1] {
        TokenTree::Group { tokens, .. } => match &tokens[1] {
            TokenTree::Group { tokens: inner, .. } => match &inner[0] {
                TokenTree::Ident { text, span } => {
                    assert_eq!(text, "MyDerive");
                    assert_eq!(*span, 42);
                },
                _ => panic!("expected the derive name"),
            },
            _ => panic!("expected the derive arguments"),
        },
        _ => panic!("expected the attribute group"),
    }
    match &out[2] {
        TokenTree::Ident { text, .. } => assert_eq!(text, "enum"),
        _ => panic!("expected the rest to follow"),
    }
}

fn legacy_input() -> TokenStream {
    vec![
        p('#'),
        group(
            Delim::Bracket,
            vec![
                id("allow"),
                group(
                    Delim::Paren,
                    vec![id("unused"), p(','), id("non_camel_case_types")],
                    0,
                ),
            ],
            0,
        ),
        id("enum"),
        ident("add_one", 5),
        group(Delim::Brace, vec![ident("add_one_impl", 6)], 0),
    ]
}

#[test]
fn legacy_parse_extracts_both_names() {
    let hack = parse(legacy_input()).unwrap();
    assert_eq!(hack.name.text, "add_one");
    assert_eq!(hack.name_impl.text, "add_one_impl");
    assert!(hack.attrs.is_empty());
}

#[test]
fn legacy_parse_rejects_a_missing_allow_attribute() {
    let ts: TokenStream = vec![id("enum"), id("x"), group(Delim::Brace, vec![id("y")], 0)];
    let e = parse(ts).unwrap_err();
    assert_eq!(e.message(), "unexpected input");
}

#[test]
fn legacy_expr_macro_invokes_the_local_call() {
    let out = hack_expr(legacy_input()).unwrap();
    assert_eq!(count_top_level_ident(&out, "macro_rules"), 1);
    match &out[4] {
        TokenTree::Ident { text, .. } => assert_eq!(text, "add_one"),
        _ => panic!("expected the macro name"),
    }
    match &out[5] {
        TokenTree::Group { tokens: rule, .. } => match &rule[3] {
            TokenTree::Group { tokens: outer, .. } => match &outer[0] {
                TokenTree::Group { tokens: block, .. } => {
                    assert_eq!(count_top_level_ident(block, "proc_macro_call"), 1);
                },
                _ => panic!("expected the inner block"),
            },
            _ => panic!("expected the transcriber"),
        },
        _ => panic!("expected the rule group"),
    }
}

#[test]
fn legacy_item_macro_does_not_invoke_the_local_call() {
    let out = hack_item(legacy_input()).unwrap();
    match &out[5] {
        TokenTree::Group { tokens: rule, .. } => match &rule[3] {
            TokenTree::Group { tokens: block, .. } => {
                assert_eq!(count_top_level_ident(block, "proc_macro_call"), 0);
                assert_eq!(count_top_level_ident(block, "enum"), 1);
            },
            _ => panic!("expected the transcriber"),
        },
        _ => panic!("expected the rule group"),
    }
}

#[test]
fn add_one_of_two_plus_three_expands_to_six() {
    let user: TokenStream = vec![literal("2", 0), p('+'), literal("3", 0)];
    let expected_user = proc_macro_hack::token::clone_stream(&user);
    let enum_tokens = make_marker_enum(&MarkerTag::Value, user);
    let (tag, inner) = unwrap_marker_enum(enum_tokens).unwrap();
    assert_eq!(tag, MarkerTag::Value);
    assert!(stream_eq(&inner, &expected_user));
    let mut result: TokenStream = vec![literal("1", 0), p('+')];
    result.push(group(Delim::Paren, inner, 0));
    let expected_result = proc_macro_hack::token::clone_stream(&result);
    let wrapped = wrap_expansion(&tag, &expected_user, result).unwrap();
    match &wrapped[3] {
        TokenTree::Group { tokens: rule, .. } => match &rule[3] {
            TokenTree::Group { tokens: body, .. } => {
                assert!(stream_eq(body, &expected_result));
            },
            _ => panic!("expected the stored expansion"),
        },
        _ => panic!("expected the macro body"),
    }
    assert_eq!(1 + (2 + 3), 6);
}

#[test]
fn nested_invocations_need_the_nested_tag_to_dispatch() {
    let inner_call: TokenStream = vec![
        id("add_one"),
        p('!'),
        group(Delim::Paren, vec![literal("2", 0), p('+'), literal("3", 0)], 0),
    ];
    let out: TokenStream = vec![literal("6", 0)];
    let plain = wrap_expansion(
        &MarkerTag::Value,
        &inner_call,
        proc_macro_hack::token::clone_stream(&out),
    )
    .unwrap();
    match &plain[2] {
        TokenTree::Ident { text, .. } => assert_eq!(text, "proc_macro_call"),
        _ => panic!("expected the fixed local name"),
    }
    let nested = wrap_expansion(&MarkerTag::Nested { calls: 0 }, &inner_call, out).unwrap();
    match &nested[2] {
        TokenTree::Ident { text, .. } => assert_eq!(text, "proc_macro_call_1"),
        _ => panic!("expected the arity-indexed name"),
    }
}

#[test]
fn guard_wrapping_a_whole_export_unwraps_unchanged() {
    let inner: TokenStream = vec![id("anything"), group(Delim::Brace, vec![id("deep")], 0)];
    let copy = proc_macro_hack::token::clone_stream(&inner);
    let wrapped = wrap_in_enum_hack(String::from("_1a_1b"), inner);
    let back = parse_enum_hack(wrapped).unwrap();
    assert!(stream_eq(&back, &copy));
}
