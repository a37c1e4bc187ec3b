//! The earliest shape of the hack: a declaration arrives as a plain enum
//! (`NAME { NAME_IMPL }`) behind an exact `allow` attribute, and expands
//! to one exported wrapper macro per declaration — an expression form that
//! routes back through `proc_macro_call !`, and an item form that does not.

use vstd::prelude::*;
use crate::CALL_SITE_SPAN;
use crate::error::{Error, ErrModel};
use crate::fallback::{build_derive_attr, spec_derive_attr, t_grp, t_id, t_id_at, t_p, t_pj};
use crate::iter::IterImpl;
use crate::marker::marker_err;
use crate::parse::{parse_attributes, spec_parse_attributes, Ident, IdentModel};
use crate::token::{extend, group, ident, lemma_stream_view_index, lemma_stream_view_len, literal,
    punct, punct_joint, str_eq, stream_view, Delim, Tok, TokenStream, TokenTree};

verus! {

/// A parsed declaration: its extra attributes, the macro's name, and the
/// name of the implementation it defers to.
#[derive(Debug)]
pub struct Hack {
    pub attrs: TokenStream,
    pub name: Ident,
    pub name_impl: Ident,
}

/// The model of a parsed declaration.
pub struct HackModel {
    pub attrs: Seq<Tok>,
    pub name: IdentModel,
    pub name_impl: IdentModel,
}

impl View for Hack {
    type V = HackModel;

    open spec fn view(&self) -> HackModel {
        HackModel {
            attrs: stream_view(self.attrs@),
            name: self.name@,
            name_impl: self.name_impl@,
        }
    }
}

/// Whether a token is the exact `[allow (unused , non_camel_case_types)]`
/// attribute group every declaration must open with.
pub open spec fn is_allow_group(t: Tok) -> bool {
    match t {
        Tok::Group { delim, tokens, .. } => delim == Delim::Bracket && tokens.len() == 2
            && crate::parse::is_ident_text(tokens[0], "allow"@) && is_allow_args(tokens[1]),
        _ => false,
    }
}

/// The arguments of that attribute: `(unused , non_camel_case_types)`.
pub open spec fn is_allow_args(t: Tok) -> bool {
    match t {
        Tok::Group { delim, tokens, .. } => delim == Delim::Paren && tokens.len() == 3
            && crate::parse::is_ident_text(tokens[0], "unused"@) && crate::marker::is_punct_comma(
            tokens[1],
        ) && crate::parse::is_ident_text(tokens[2], "non_camel_case_types"@),
        _ => false,
    }
}

/// What parsing a declaration yields: after the exact `allow` attribute
/// and any further attributes, exactly `enum NAME { NAME_IMPL }`.
pub open spec fn spec_parse_hack(ts: Seq<Tok>) -> Result<HackModel, ErrModel> {
    if ts.len() >= 2 && crate::args::is_punct_ch(ts[0], '#') && is_allow_group(ts[1]) {
        match spec_parse_attributes(ts.subrange(2, ts.len() as int)) {
            Err(e) => Err(marker_err()),
            Ok(ap) => {
                let rest = ap.1;
                if rest.len() == 3 && crate::parse::is_ident_text(rest[0], "enum"@) && (rest[1]
                    is Ident) && is_single_ident_brace(rest[2]) {
                    Ok(
                        HackModel {
                            attrs: ap.0,
                            name: IdentModel {
                                text: crate::marker::ident_text(rest[1]),
                                span: crate::token::tok_span(rest[1]),
                            },
                            name_impl: IdentModel {
                                text: crate::marker::ident_text(
                                    crate::fallback::group_tokens(rest[2])[0],
                                ),
                                span: crate::token::tok_span(
                                    crate::fallback::group_tokens(rest[2])[0],
                                ),
                            },
                        },
                    )
                } else {
                    Err(marker_err())
                }
            },
        }
    } else {
        Err(marker_err())
    }
}

/// Whether a token is a braced group holding one identifier.
pub open spec fn is_single_ident_brace(t: Tok) -> bool {
    match t {
        Tok::Group { delim, tokens, .. } => delim == Delim::Brace && tokens.len() == 1 && (
        tokens[0] is Ident),
        _ => false,
    }
}

/// Parses a declaration of the earliest shape.
pub fn parse(input: TokenStream) -> (r: Result<Hack, Error>)
    ensures
        (match (r, spec_parse_hack(stream_view(input@))) {
            (Ok(h), Ok(m)) => h@ == m,
            (Err(e), Err(m)) => e@ == m,
            _ => false,
        }),
{
    let ghost iv = stream_view(input@);
    let mut it = crate::iter::new(input);
    let pound_ok: bool = match it.next() {
        Some(t) => crate::marker::tree_is_punct(&t, '#'),
        None => false,
    };
    if !pound_ok {
        return Err(Error::new(CALL_SITE_SPAN, "unexpected input"));
    }
    let allow_ok: bool = match it.next() {
        Some(t) => tree_is_allow_group(&t),
        None => false,
    };
    if !allow_ok {
        return Err(Error::new(CALL_SITE_SPAN, "unexpected input"));
    }
    proof {
        assert(it@ =~= iv.subrange(2, iv.len() as int));
    }
    let attrs = match parse_attributes(&mut it) {
        Ok(a) => a,
        Err(e) => {
            return Err(Error::new(CALL_SITE_SPAN, "unexpected input"));
        },
    };
    let ghost rest = it@;
    let enum_ok: bool = match it.next() {
        Some(t) => match &t {
            TokenTree::Ident { text, .. } => str_eq(text.as_str(), "enum"),
            _ => false,
        },
        None => false,
    };
    if !enum_ok {
        return Err(Error::new(CALL_SITE_SPAN, "unexpected input"));
    }
    let name: Ident = match it.next() {
        Some(t) => match t {
            TokenTree::Ident { text, span } => Ident { text, span },
            _ => {
                return Err(Error::new(CALL_SITE_SPAN, "unexpected input"));
            },
        },
        None => {
            return Err(Error::new(CALL_SITE_SPAN, "unexpected input"));
        },
    };
    let name_impl: Ident = match it.next() {
        Some(t) => match t {
            TokenTree::Group { delim, tokens, .. } => {
                if delim != Delim::Brace {
                    return Err(Error::new(CALL_SITE_SPAN, "unexpected input"));
                }
                proof {
                    lemma_stream_view_len(tokens@);
                }
                if tokens.len() != 1 {
                    return Err(Error::new(CALL_SITE_SPAN, "unexpected input"));
                }
                proof {
                    lemma_stream_view_index(tokens@, 0);
                }
                match &tokens[0] {
                    TokenTree::Ident { text, span } => Ident {
                        text: text.as_str().to_owned(),
                        span: *span,
                    },
                    _ => {
                        return Err(Error::new(CALL_SITE_SPAN, "unexpected input"));
                    },
                }
            },
            _ => {
                return Err(Error::new(CALL_SITE_SPAN, "unexpected input"));
            },
        },
        None => {
            return Err(Error::new(CALL_SITE_SPAN, "unexpected input"));
        },
    };
    let at_end: bool = match it.peek() {
        None => true,
        Some(t) => false,
    };
    if !at_end {
        return Err(Error::new(CALL_SITE_SPAN, "unexpected input"));
    }
    proof {
        assert(rest.len() == 3);
        assert(iv.subrange(2, iv.len() as int) =~= iv.subrange(1, iv.len() as int).subrange(
            1,
            iv.subrange(1, iv.len() as int).len() as int,
        ));
    }
    Ok(Hack { attrs, name, name_impl })
}

/// Whether a token tree is the exact `allow` attribute group.
fn tree_is_allow_group(t: &TokenTree) -> (r: bool)
    ensures
        r == is_allow_group(t@),
{
    match t {
        TokenTree::Group { delim, tokens, .. } => {
            if *delim != Delim::Bracket {
                return false;
            }
            proof {
                lemma_stream_view_len(tokens@);
            }
            if tokens.len() != 2 {
                return false;
            }
            proof {
                lemma_stream_view_index(tokens@, 0);
                lemma_stream_view_index(tokens@, 1);
            }
            let allow_ok: bool = match &tokens[0] {
                TokenTree::Ident { text, .. } => str_eq(text.as_str(), "allow"),
                _ => false,
            };
            if !allow_ok {
                return false;
            }
            match &tokens[1] {
                TokenTree::Group { delim: d2, tokens: inner, .. } => {
                    if *d2 != Delim::Paren {
                        return false;
                    }
                    proof {
                        lemma_stream_view_len(inner@);
                    }
                    if inner.len() != 3 {
                        return false;
                    }
                    proof {
                        lemma_stream_view_index(inner@, 0);
                        lemma_stream_view_index(inner@, 1);
                        lemma_stream_view_index(inner@, 2);
                    }
                    let a: bool = match &inner[0] {
                        TokenTree::Ident { text, .. } => str_eq(text.as_str(), "unused"),
                        _ => false,
                    };
                    let b: bool = crate::marker::tree_is_punct(&inner[1], ',');
                    let c: bool = match &inner[2] {
                        TokenTree::Ident { text, .. } => str_eq(
                            text.as_str(),
                            "non_camel_case_types",
                        ),
                        _ => false,
                    };
                    a && b && c
                },
                _ => false,
            }
        },
        _ => false,
    }
}

/// The splice of the wrapper's captured tokens: `$ ($tt) *`.
pub open spec fn legacy_splice() -> Seq<Tok> {
    seq![t_p('$'), t_grp(Delim::Paren, seq![t_p('$'), t_id("tt"@)]), t_p('*')]
}

/// The wrapper's matcher: `$ ($tt : tt) *`.
pub open spec fn legacy_matcher() -> Seq<Tok> {
    seq![
        t_p('$'),
        t_grp(Delim::Paren, seq![t_p('$'), t_id("tt"@), t_p(':'), t_id("tt"@)]),
        t_p('*'),
    ]
}

/// The marker enum of the earliest shape:
/// `# [allow (unused)] enum ProcMacroHack { Input = (stringify ! (SPLICE), 0).1 }`.
pub open spec fn legacy_marker_enum() -> Seq<Tok> {
    seq![
        t_p('#'),
        t_grp(
            Delim::Bracket,
            seq![t_id("allow"@), t_grp(Delim::Paren, seq![t_id("unused"@)])],
        ),
        t_id("enum"@),
        t_id("ProcMacroHack"@),
        t_grp(
            Delim::Brace,
            seq![
                t_id("Input"@),
                t_p('='),
                t_grp(
                    Delim::Paren,
                    seq![
                        t_id("stringify"@),
                        t_p('!'),
                        t_grp(Delim::Paren, legacy_splice()),
                        t_p(','),
                        Tok::Literal { text: "0"@, span: CALL_SITE_SPAN },
                    ],
                ),
                t_p('.'),
                Tok::Literal { text: "1"@, span: CALL_SITE_SPAN },
            ],
        ),
    ]
}

/// The final invocation of the expression form: `proc_macro_call ! ()`.
pub open spec fn legacy_call() -> Seq<Tok> {
    seq![t_id("proc_macro_call"@), t_p('!'), t_grp(Delim::Paren, Seq::empty())]
}

/// What a wrapper macro of the earliest shape expands to: the derive
/// trigger, the marker enum, and — in the expression form only — the
/// invocation back through `proc_macro_call !`, all inside one extra
/// block.
pub open spec fn legacy_block(h: HackModel, expr: bool) -> Seq<Tok> {
    if expr {
        spec_derive_attr(seq![t_id_at(h.name_impl)]) + legacy_marker_enum() + legacy_call()
    } else {
        spec_derive_attr(seq![t_id_at(h.name_impl)]) + legacy_marker_enum()
    }
}

/// One whole generated wrapper of the earliest shape.
pub open spec fn spec_legacy_rules(h: HackModel, expr: bool) -> Seq<Tok> {
    h.attrs + seq![
        t_p('#'),
        t_grp(Delim::Bracket, seq![t_id("macro_export"@)]),
        t_id("macro_rules"@),
        t_p('!'),
        t_id_at(h.name),
        t_grp(
            Delim::Brace,
            seq![
                t_grp(Delim::Paren, legacy_matcher()),
                t_pj('='),
                t_p('>'),
                if expr {
                    t_grp(Delim::Brace, seq![t_grp(Delim::Brace, legacy_block(h, expr))])
                } else {
                    t_grp(Delim::Brace, legacy_block(h, expr))
                },
            ],
        ),
    ]
}

/// Builds the splice `$ ($tt) *`.
fn build_legacy_splice() -> (r: TokenStream)
    ensures
        stream_view(r@) == legacy_splice(),
{
    let mut inner: TokenStream = Vec::new();
    inner.push(punct('$', CALL_SITE_SPAN));
    inner.push(ident("tt", CALL_SITE_SPAN));
    proof {
        lemma_stream_view_len(inner@);
        lemma_stream_view_index(inner@, 0);
        lemma_stream_view_index(inner@, 1);
        assert(stream_view(inner@) =~= seq![t_p('$'), t_id("tt"@)]);
    }
    let mut r: TokenStream = Vec::new();
    r.push(punct('$', CALL_SITE_SPAN));
    r.push(group(Delim::Paren, inner, CALL_SITE_SPAN));
    r.push(punct('*', CALL_SITE_SPAN));
    proof {
        lemma_stream_view_len(r@);
        lemma_stream_view_index(r@, 0);
        lemma_stream_view_index(r@, 1);
        lemma_stream_view_index(r@, 2);
        assert(stream_view(r@) =~= legacy_splice());
    }
    r
}

/// Builds the matcher `$ ($tt : tt) *`.
fn build_legacy_matcher() -> (r: TokenStream)
    ensures
        stream_view(r@) == legacy_matcher(),
{
    let mut inner: TokenStream = Vec::new();
    inner.push(punct('$', CALL_SITE_SPAN));
    inner.push(ident("tt", CALL_SITE_SPAN));
    inner.push(punct(':', CALL_SITE_SPAN));
    inner.push(ident("tt", CALL_SITE_SPAN));
    proof {
        lemma_stream_view_len(inner@);
        lemma_stream_view_index(inner@, 0);
        lemma_stream_view_index(inner@, 1);
        lemma_stream_view_index(inner@, 2);
        lemma_stream_view_index(inner@, 3);
        assert(stream_view(inner@) =~= seq![t_p('$'), t_id("tt"@), t_p(':'), t_id("tt"@)]);
    }
    let mut r: TokenStream = Vec::new();
    r.push(punct('$', CALL_SITE_SPAN));
    r.push(group(Delim::Paren, inner, CALL_SITE_SPAN));
    r.push(punct('*', CALL_SITE_SPAN));
    proof {
        lemma_stream_view_len(r@);
        lemma_stream_view_index(r@, 0);
        lemma_stream_view_index(r@, 1);
        lemma_stream_view_index(r@, 2);
        assert(stream_view(r@) =~= legacy_matcher());
    }
    r
}

/// Builds the marker enum of the earliest shape.
fn build_legacy_marker_enum() -> (r: TokenStream)
    ensures
        stream_view(r@) == legacy_marker_enum(),
{
    let mut pin: TokenStream = Vec::new();
    pin.push(ident("stringify", CALL_SITE_SPAN));
    pin.push(punct('!', CALL_SITE_SPAN));
    pin.push(group(Delim::Paren, build_legacy_splice(), CALL_SITE_SPAN));
    pin.push(punct(',', CALL_SITE_SPAN));
    pin.push(literal("0", CALL_SITE_SPAN));
    proof {
        lemma_stream_view_len(pin@);
        lemma_stream_view_index(pin@, 0);
        lemma_stream_view_index(pin@, 1);
        lemma_stream_view_index(pin@, 2);
        lemma_stream_view_index(pin@, 3);
        lemma_stream_view_index(pin@, 4);
        assert(stream_view(pin@) =~= seq![
            t_id("stringify"@),
            t_p('!'),
            t_grp(Delim::Paren, legacy_splice()),
            t_p(','),
            Tok::Literal { text: "0"@, span: CALL_SITE_SPAN },
        ]);
    }
    let mut body: TokenStream = Vec::new();
    body.push(ident("Input", CALL_SITE_SPAN));
    body.push(punct('=', CALL_SITE_SPAN));
    body.push(group(Delim::Paren, pin, CALL_SITE_SPAN));
    body.push(punct('.', CALL_SITE_SPAN));
    body.push(literal("1", CALL_SITE_SPAN));
    proof {
        lemma_stream_view_len(body@);
        lemma_stream_view_index(body@, 0);
        lemma_stream_view_index(body@, 1);
        lemma_stream_view_index(body@, 2);
        lemma_stream_view_index(body@, 3);
        lemma_stream_view_index(body@, 4);
        assert(stream_view(body@) =~= seq![
            t_id("Input"@),
            t_p('='),
            t_grp(
                Delim::Paren,
                seq![
                    t_id("stringify"@),
                    t_p('!'),
                    t_grp(Delim::Paren, legacy_splice()),
                    t_p(','),
                    Tok::Literal { text: "0"@, span: CALL_SITE_SPAN },
                ],
            ),
            t_p('.'),
            Tok::Literal { text: "1"@, span: CALL_SITE_SPAN },
        ]);
    }
    let mut unused: TokenStream = Vec::new();
    unused.push(ident("unused", CALL_SITE_SPAN));
    proof {
        lemma_stream_view_len(unused@);
        lemma_stream_view_index(unused@, 0);
        assert(stream_view(unused@) =~= seq![t_id("unused"@)]);
    }
    let mut attr_inner: TokenStream = Vec::new();
    attr_inner.push(ident("allow", CALL_SITE_SPAN));
    attr_inner.push(group(Delim::Paren, unused, CALL_SITE_SPAN));
    proof {
        lemma_stream_view_len(attr_inner@);
        lemma_stream_view_index(attr_inner@, 0);
        lemma_stream_view_index(attr_inner@, 1);
        assert(stream_view(attr_inner@) =~= seq![
            t_id("allow"@),
            t_grp(Delim::Paren, seq![t_id("unused"@)]),
        ]);
    }
    let mut r: TokenStream = Vec::new();
    r.push(punct('#', CALL_SITE_SPAN));
    r.push(group(Delim::Bracket, attr_inner, CALL_SITE_SPAN));
    r.push(ident("enum", CALL_SITE_SPAN));
    r.push(ident("ProcMacroHack", CALL_SITE_SPAN));
    r.push(group(Delim::Brace, body, CALL_SITE_SPAN));
    proof {
        lemma_stream_view_len(r@);
        lemma_stream_view_index(r@, 0);
        lemma_stream_view_index(r@, 1);
        lemma_stream_view_index(r@, 2);
        lemma_stream_view_index(r@, 3);
        lemma_stream_view_index(r@, 4);
        assert(stream_view(r@) =~= legacy_marker_enum());
    }
    r
}

/// Builds what one wrapper of the earliest shape generates.
fn build_legacy_rules(hack: &Hack, expr: bool) -> (r: TokenStream)
    ensures
        stream_view(r@) == spec_legacy_rules(hack@, expr),
{
    let mut block: TokenStream;
    let mut di: TokenStream = Vec::new();
    di.push(TokenTree::Ident {
        text: hack.name_impl.text.as_str().to_owned(),
        span: hack.name_impl.span,
    });
    proof {
        lemma_stream_view_len(di@);
        lemma_stream_view_index(di@, 0);
        assert(stream_view(di@) =~= seq![t_id_at(hack@.name_impl)]);
    }
    block = build_derive_attr(di);
    extend(&mut block, build_legacy_marker_enum());
    if expr {
        let mut call: TokenStream = Vec::new();
        let empty: TokenStream = Vec::new();
        proof {
            assert(stream_view(empty@) =~= Seq::<Tok>::empty());
        }
        call.push(ident("proc_macro_call", CALL_SITE_SPAN));
        call.push(punct('!', CALL_SITE_SPAN));
        call.push(group(Delim::Paren, empty, CALL_SITE_SPAN));
        proof {
            lemma_stream_view_len(call@);
            lemma_stream_view_index(call@, 0);
            lemma_stream_view_index(call@, 1);
            lemma_stream_view_index(call@, 2);
            assert(stream_view(call@) =~= legacy_call());
        }
        extend(&mut block, call);
    }
    let rhs: TokenTree;
    if expr {
        let mut bb: TokenStream = Vec::new();
        bb.push(group(Delim::Brace, block, CALL_SITE_SPAN));
        proof {
            lemma_stream_view_len(bb@);
            lemma_stream_view_index(bb@, 0);
            assert(stream_view(bb@) =~= seq![t_grp(Delim::Brace, legacy_block(hack@, expr))]);
        }
        rhs = group(Delim::Brace, bb, CALL_SITE_SPAN);
    } else {
        rhs = group(Delim::Brace, block, CALL_SITE_SPAN);
    }
    let mut rule: TokenStream = Vec::new();
    rule.push(group(Delim::Paren, build_legacy_matcher(), CALL_SITE_SPAN));
    rule.push(punct_joint('=', CALL_SITE_SPAN));
    rule.push(punct('>', CALL_SITE_SPAN));
    rule.push(rhs);
    proof {
        lemma_stream_view_len(rule@);
        lemma_stream_view_index(rule@, 0);
        lemma_stream_view_index(rule@, 1);
        lemma_stream_view_index(rule@, 2);
        lemma_stream_view_index(rule@, 3);
    }
    let mut me_inner: TokenStream = Vec::new();
    me_inner.push(ident("macro_export", CALL_SITE_SPAN));
    proof {
        lemma_stream_view_len(me_inner@);
        lemma_stream_view_index(me_inner@, 0);
        assert(stream_view(me_inner@) =~= seq![t_id("macro_export"@)]);
    }
    let mut r = crate::token::clone_stream(&hack.attrs);
    let mut mid: TokenStream = Vec::new();
    mid.push(punct('#', CALL_SITE_SPAN));
    mid.push(group(Delim::Bracket, me_inner, CALL_SITE_SPAN));
    mid.push(ident("macro_rules", CALL_SITE_SPAN));
    mid.push(punct('!', CALL_SITE_SPAN));
    mid.push(TokenTree::Ident {
        text: hack.name.text.as_str().to_owned(),
        span: hack.name.span,
    });
    mid.push(group(Delim::Brace, rule, CALL_SITE_SPAN));
    proof {
        lemma_stream_view_len(mid@);
        lemma_stream_view_index(mid@, 0);
        lemma_stream_view_index(mid@, 1);
        lemma_stream_view_index(mid@, 2);
        lemma_stream_view_index(mid@, 3);
        lemma_stream_view_index(mid@, 4);
        lemma_stream_view_index(mid@, 5);
        assert(stream_view(rule@) =~= seq![
            t_grp(Delim::Paren, legacy_matcher()),
            t_pj('='),
            t_p('>'),
            if expr {
                t_grp(Delim::Brace, seq![t_grp(Delim::Brace, legacy_block(hack@, expr))])
            } else {
                t_grp(Delim::Brace, legacy_block(hack@, expr))
            },
        ]);
        assert(stream_view(mid@) =~= seq![
            t_p('#'),
            t_grp(Delim::Bracket, seq![t_id("macro_export"@)]),
            t_id("macro_rules"@),
            t_p('!'),
            t_id_at(hack@.name),
            t_grp(
                Delim::Brace,
                seq![
                    t_grp(Delim::Paren, legacy_matcher()),
                    t_pj('='),
                    t_p('>'),
                    if expr {
                        t_grp(
                            Delim::Brace,
                            seq![t_grp(Delim::Brace, legacy_block(hack@, expr))],
                        )
                    } else {
                        t_grp(Delim::Brace, legacy_block(hack@, expr))
                    },
                ],
            ),
        ]);
    }
    extend(&mut r, mid);
    r
}

/// Expands a declaration into the expression-form wrapper macro.
pub fn hack_expr(input: TokenStream) -> (r: Result<TokenStream, Error>)
    ensures
        (match (r, spec_parse_hack(stream_view(input@))) {
            (Ok(o), Ok(h)) => stream_view(o@) == spec_legacy_rules(h, true),
            (Err(e), Err(m)) => e@ == m,
            _ => false,
        }),
{
    match parse(input) {
        Err(e) => Err(e),
        Ok(hack) => Ok(build_legacy_rules(&hack, true)),
    }
}

/// Expands a declaration into the item-form wrapper macro.
pub fn hack_item(input: TokenStream) -> (r: Result<TokenStream, Error>)
    ensures
        (match (r, spec_parse_hack(stream_view(input@))) {
            (Ok(o), Ok(h)) => stream_view(o@) == spec_legacy_rules(h, false),
            (Err(e), Err(m)) => e@ == m,
            _ => false,
        }),
{
    match parse(input) {
        Err(e) => Err(e),
        Ok(hack) => Ok(build_legacy_rules(&hack, false)),
    }
}

} // verus!
