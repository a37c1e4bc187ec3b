//! The marker enum: a synthetic single-variant enum whose discriminant
//! initializer smuggles a caller's raw tokens through an item-position
//! transform. One side builds it at the call site; the other side takes
//! it apart again, reading the nesting tag out of the variant name.

use vstd::prelude::*;
use crate::CALL_SITE_SPAN;
use crate::digits::{dec_digits, lemma_dec_digits, parse_u16, spec_parse_u16};
use crate::error::{Error, ErrModel};
use crate::parse::{is_group_delim, is_ident_text, spec_parse_attributes, parse_attributes,
    unexpected_input_msg};
use crate::token::{group, ident, lemma_stream_view_index, lemma_stream_view_len, literal, punct,
    str_eq, stream_view, Delim, Spacing, Tok, TokenStream, TokenTree};
use vstd::string::{StrSliceExecFns, StringExecFns};

verus! {

/// The tag a marker enum's variant name encodes: a plain value, or a
/// nested-capable value declaring how many internal macro layers sit
/// between the export and raw user input.
#[derive(Clone, Copy, PartialEq, Eq, Structural, Debug)]
pub enum MarkerTag {
    Value,
    Nested { calls: u16 },
}

/// The variant name that encodes a tag.
pub open spec fn tag_name(tag: MarkerTag) -> Seq<char> {
    match tag {
        MarkerTag::Value => "Value"@,
        MarkerTag::Nested { calls } => if calls == 0 {
            "Nested"@
        } else {
            "Nested"@ + dec_digits(calls as nat)
        },
    }
}

/// The tag a variant name encodes: any name starting with `Nested` is
/// nested-capable, its suffix the declared layer count; a garbled suffix
/// encodes nothing; every other name is a plain value.
pub open spec fn spec_tag_of_name(text: Seq<char>) -> Option<MarkerTag> {
    if text.len() >= 6 && text.subrange(0, 6) == "Nested"@ {
        let suffix = text.subrange(6, text.len() as int);
        if suffix.len() == 0 {
            Some(MarkerTag::Nested { calls: 0 })
        } else {
            match spec_parse_u16(suffix) {
                Some(v) => Some(MarkerTag::Nested { calls: v }),
                None => None,
            }
        }
    } else {
        Some(MarkerTag::Value)
    }
}

/// The variant name that encodes a tag.
pub fn tag_name_string(tag: &MarkerTag) -> (s: String)
    ensures
        s@ == tag_name(*tag),
{
    match tag {
        MarkerTag::Value => String::from_str("Value"),
        MarkerTag::Nested { calls } => {
            if *calls == 0 {
                String::from_str("Nested")
            } else {
                let mut s = String::from_str("Nested");
                crate::digits::push_dec(&mut s, *calls as u64);
                s
            }
        },
    }
}

/// Reads the tag a variant name encodes.
pub fn tag_of_name(text: &str) -> (r: Option<MarkerTag>)
    ensures
        r == spec_tag_of_name(text@),
{
    let n = text.unicode_len();
    if n < 6 {
        proof {
            reveal_strlit("Nested");
            assert(text@.len() < 6);
        }
        return Some(MarkerTag::Value);
    }
    let head = text.substring_char(0, 6);
    if !str_eq(head, "Nested") {
        return Some(MarkerTag::Value);
    }
    if n == 6 {
        return Some(MarkerTag::Nested { calls: 0 });
    }
    let suffix = text.substring_char(6, n);
    match parse_u16(suffix) {
        Some(v) => Some(MarkerTag::Nested { calls: v }),
        None => None,
    }
}

/// Whether a token is a literal with the given source text.
pub open spec fn is_literal_text(t: Tok, s: Seq<char>) -> bool {
    match t {
        Tok::Literal { text, .. } => text == s,
        _ => false,
    }
}

/// The discriminant-initializer group: `(stringify ! { ARGS }, 0)`.
pub open spec fn spec_marker_parens(args: Seq<Tok>) -> Seq<Tok> {
    seq![
        Tok::Ident { text: "stringify"@, span: CALL_SITE_SPAN },
        Tok::Punct { ch: '!', spacing: Spacing::Alone, span: CALL_SITE_SPAN },
        Tok::Group { delim: Delim::Brace, tokens: args, span: CALL_SITE_SPAN },
        Tok::Punct { ch: ',', spacing: Spacing::Alone, span: CALL_SITE_SPAN },
        Tok::Literal { text: "0"@, span: CALL_SITE_SPAN },
    ]
}

/// The body of the marker enum:
/// `TAG = (stringify ! { ARGS }, 0).1 ,`.
pub open spec fn spec_marker_body(tag: MarkerTag, args: Seq<Tok>) -> Seq<Tok> {
    seq![
        Tok::Ident { text: tag_name(tag), span: CALL_SITE_SPAN },
        Tok::Punct { ch: '=', spacing: Spacing::Alone, span: CALL_SITE_SPAN },
        Tok::Group { delim: Delim::Paren, tokens: spec_marker_parens(args), span: CALL_SITE_SPAN },
        Tok::Punct { ch: '.', spacing: Spacing::Alone, span: CALL_SITE_SPAN },
        Tok::Literal { text: "1"@, span: CALL_SITE_SPAN },
        Tok::Punct { ch: ',', spacing: Spacing::Alone, span: CALL_SITE_SPAN },
    ]
}

/// The whole marker enum as an item-position transform receives it:
/// `# [allow (dead_code)] enum ProcMacroHack { BODY }`.
pub open spec fn spec_make_marker_enum(tag: MarkerTag, args: Seq<Tok>) -> Seq<Tok> {
    seq![
        Tok::Punct { ch: '#', spacing: Spacing::Alone, span: CALL_SITE_SPAN },
        Tok::Group {
            delim: Delim::Bracket,
            tokens: seq![
                Tok::Ident { text: "allow"@, span: CALL_SITE_SPAN },
                Tok::Group {
                    delim: Delim::Paren,
                    tokens: seq![Tok::Ident { text: "dead_code"@, span: CALL_SITE_SPAN }],
                    span: CALL_SITE_SPAN,
                },
            ],
            span: CALL_SITE_SPAN,
        },
        Tok::Ident { text: "enum"@, span: CALL_SITE_SPAN },
        Tok::Ident { text: "ProcMacroHack"@, span: CALL_SITE_SPAN },
        Tok::Group { delim: Delim::Brace, tokens: spec_marker_body(tag, args), span: CALL_SITE_SPAN },
    ]
}

/// Builds the single variant of a marker enum, embedding raw tokens.
pub fn build_marker_body(tag: &MarkerTag, args: TokenStream) -> (r: TokenStream)
    ensures
        stream_view(r@) == spec_marker_body(*tag, stream_view(args@)),
{
    let ghost argsv = stream_view(args@);
    let sp = CALL_SITE_SPAN;
    let mut parens: TokenStream = Vec::new();
    parens.push(ident("stringify", sp));
    parens.push(punct('!', sp));
    parens.push(group(Delim::Brace, args, sp));
    parens.push(punct(',', sp));
    parens.push(literal("0", sp));
    proof {
        lemma_stream_view_len(parens@);
        lemma_stream_view_index(parens@, 0);
        lemma_stream_view_index(parens@, 1);
        lemma_stream_view_index(parens@, 2);
        lemma_stream_view_index(parens@, 3);
        lemma_stream_view_index(parens@, 4);
        assert(stream_view(parens@) =~= spec_marker_parens(argsv));
    }
    let mut body: TokenStream = Vec::new();
    body.push(TokenTree::Ident { text: tag_name_string(tag), span: sp });
    body.push(punct('=', sp));
    body.push(group(Delim::Paren, parens, sp));
    body.push(punct('.', sp));
    body.push(literal("1", sp));
    body.push(punct(',', sp));
    proof {
        lemma_stream_view_len(body@);
        lemma_stream_view_index(body@, 0);
        lemma_stream_view_index(body@, 1);
        lemma_stream_view_index(body@, 2);
        lemma_stream_view_index(body@, 3);
        lemma_stream_view_index(body@, 4);
        lemma_stream_view_index(body@, 5);
        assert(stream_view(body@) =~= spec_marker_body(*tag, argsv));
    }
    body
}

/// Builds the marker enum a generated wrapper constructs at a call site,
/// embedding the caller's raw tokens.
pub fn make_marker_enum(tag: &MarkerTag, args: TokenStream) -> (r: TokenStream)
    ensures
        stream_view(r@) == spec_make_marker_enum(*tag, stream_view(args@)),
{
    let ghost argsv = stream_view(args@);
    let sp = CALL_SITE_SPAN;
    let body = build_marker_body(tag, args);
    let mut allow_inner: TokenStream = Vec::new();
    allow_inner.push(ident("dead_code", sp));
    proof {
        lemma_stream_view_len(allow_inner@);
        lemma_stream_view_index(allow_inner@, 0);
        assert(stream_view(allow_inner@) =~= seq![
            Tok::Ident { text: "dead_code"@, span: CALL_SITE_SPAN },
        ]);
    }
    let mut attr_inner: TokenStream = Vec::new();
    attr_inner.push(ident("allow", sp));
    attr_inner.push(group(Delim::Paren, allow_inner, sp));
    proof {
        lemma_stream_view_len(attr_inner@);
        lemma_stream_view_index(attr_inner@, 0);
        lemma_stream_view_index(attr_inner@, 1);
        assert(stream_view(attr_inner@) =~= seq![
            Tok::Ident { text: "allow"@, span: CALL_SITE_SPAN },
            Tok::Group {
                delim: Delim::Paren,
                tokens: seq![Tok::Ident { text: "dead_code"@, span: CALL_SITE_SPAN }],
                span: CALL_SITE_SPAN,
            },
        ]);
    }
    let mut r: TokenStream = Vec::new();
    r.push(punct('#', sp));
    r.push(group(Delim::Bracket, attr_inner, sp));
    r.push(ident("enum", sp));
    r.push(ident("ProcMacroHack", sp));
    r.push(group(Delim::Brace, body, sp));
    proof {
        lemma_stream_view_len(r@);
        lemma_stream_view_index(r@, 0);
        lemma_stream_view_index(r@, 1);
        lemma_stream_view_index(r@, 2);
        lemma_stream_view_index(r@, 3);
        lemma_stream_view_index(r@, 4);
        assert(stream_view(r@) =~= spec_make_marker_enum(*tag, argsv));
    }
    r
}

/// The failure every malformed marker shape reports: at this stage there
/// is no reliable span left, so it points at the call site.
pub open spec fn marker_err() -> ErrModel {
    ErrModel { span: CALL_SITE_SPAN, msg: unexpected_input_msg() }
}

/// What taking a marker enum apart yields: the tag its variant name
/// encodes and the embedded tokens, provided the stream is exactly the
/// synthetic shape (leading attributes tolerated, the embedded group's
/// delimiter free, the final comma optional).
pub open spec fn spec_unwrap_marker_enum(ts: Seq<Tok>) -> Result<(MarkerTag, Seq<Tok>), ErrModel> {
    match spec_parse_attributes(ts) {
        Err(e) => Err(marker_err()),
        Ok(ap) => spec_unwrap_item(ap.1),
    }
}

/// The enum item after any leading attributes.
pub open spec fn spec_unwrap_item(ts: Seq<Tok>) -> Result<(MarkerTag, Seq<Tok>), ErrModel> {
    if ts.len() == 3 && is_ident_text(ts[0], "enum"@) && (ts[1] is Ident) && is_group_delim(
        ts[2],
        Delim::Brace,
    ) {
        spec_unwrap_body(ts[2]->tokens)
    } else {
        Err(marker_err())
    }
}

/// The single variant inside the braces.
pub open spec fn spec_unwrap_body(body: Seq<Tok>) -> Result<(MarkerTag, Seq<Tok>), ErrModel> {
    if (body.len() == 5 || (body.len() == 6 && is_punct_comma(body[5]))) && (body[0] is Ident)
        && is_punct_eq(body[1]) && is_group_delim(body[2], Delim::Paren) && is_punct_dot(body[3])
        && is_literal_text(body[4], "1"@) {
        match spec_tag_of_name(ident_text(body[0])) {
            None => Err(marker_err()),
            Some(tag) => spec_unwrap_parens(tag, body[2]->tokens),
        }
    } else {
        Err(marker_err())
    }
}

/// The discriminant initializer inside the parentheses.
pub open spec fn spec_unwrap_parens(tag: MarkerTag, pin: Seq<Tok>) -> Result<
    (MarkerTag, Seq<Tok>),
    ErrModel,
> {
    if pin.len() == 5 && is_ident_text(pin[0], "stringify"@) && is_punct_bang(pin[1]) && (pin[2]
        is Group) && is_punct_comma(pin[3]) && is_literal_text(pin[4], "0"@) {
        Ok((tag, pin[2]->tokens))
    } else {
        Err(marker_err())
    }
}

/// The text of an identifier or literal token; empty for the others.
pub open spec fn ident_text(t: Tok) -> Seq<char> {
    match t {
        Tok::Ident { text, .. } => text,
        Tok::Literal { text, .. } => text,
        _ => Seq::empty(),
    }
}

/// Whether a token is a lone comma.
pub open spec fn is_punct_comma(t: Tok) -> bool {
    crate::args::is_punct_ch(t, ',')
}

/// Whether a token is an equals sign.
pub open spec fn is_punct_eq(t: Tok) -> bool {
    crate::args::is_punct_ch(t, '=')
}

/// Whether a token is a dot.
pub open spec fn is_punct_dot(t: Tok) -> bool {
    crate::args::is_punct_ch(t, '.')
}

/// Whether a token is a bang.
pub open spec fn is_punct_bang(t: Tok) -> bool {
    crate::args::is_punct_ch(t, '!')
}

/// Whether a token tree is the given punctuation character.
pub fn tree_is_punct(t: &TokenTree, ch: char) -> (r: bool)
    ensures
        r == crate::args::is_punct_ch(t@, ch),
{
    match t {
        TokenTree::Punct { ch: c, .. } => *c == ch,
        _ => false,
    }
}

/// The failure every malformed marker shape reports.
fn marker_error() -> (e: Error)
    ensures
        e@ == marker_err(),
{
    Error::new(CALL_SITE_SPAN, "unexpected input")
}

/// Takes a marker enum apart: the tag its variant name encodes, and the
/// embedded caller tokens, exactly when the stream has the synthetic
/// shape.
pub fn unwrap_marker_enum(input: TokenStream) -> (r: Result<(MarkerTag, TokenStream), Error>)
    ensures
        (match (r, spec_unwrap_marker_enum(stream_view(input@))) {
            (Ok(p), Ok(s)) => p.0 == s.0 && stream_view(p.1@) == s.1,
            (Err(e), Err(m)) => e@ == m,
            _ => false,
        }),
{
    let ghost iv = stream_view(input@);
    let mut it = crate::iter::new(input);
    match parse_attributes(&mut it) {
        Err(e) => {
            return Err(marker_error());
        },
        Ok(attrs) => {},
    }
    let ghost rest = it@;
    let kw_ok: bool = match it.next() {
        Some(t) => match &t {
            TokenTree::Ident { text, .. } => str_eq(text.as_str(), "enum"),
            _ => false,
        },
        None => false,
    };
    if !kw_ok {
        return Err(marker_error());
    }
    let name_ok: bool = match it.next() {
        Some(t) => match &t {
            TokenTree::Ident { .. } => true,
            _ => false,
        },
        None => false,
    };
    if !name_ok {
        return Err(marker_error());
    }
    let body: TokenStream = match it.next() {
        Some(t) => match t {
            TokenTree::Group { delim, tokens, .. } => {
                if delim == Delim::Brace {
                    tokens
                } else {
                    return Err(marker_error());
                }
            },
            _ => {
                return Err(marker_error());
            },
        },
        None => {
            return Err(marker_error());
        },
    };
    let at_end: bool = match it.peek() {
        None => true,
        Some(t) => false,
    };
    if !at_end {
        return Err(marker_error());
    }
    proof {
        assert(rest.len() == 3);
        assert(spec_unwrap_marker_enum(iv) == spec_unwrap_body(stream_view(body@)));
    }
    let ghost bv = stream_view(body@);
    proof {
        lemma_stream_view_len(body@);
    }
    if !(body.len() == 5 || body.len() == 6) {
        return Err(marker_error());
    }
    proof {
        lemma_stream_view_index(body@, 0);
        lemma_stream_view_index(body@, 1);
        lemma_stream_view_index(body@, 2);
        lemma_stream_view_index(body@, 3);
        lemma_stream_view_index(body@, 4);
        if body@.len() == 6 {
            lemma_stream_view_index(body@, 5);
        }
    }
    if body.len() == 6 && !tree_is_punct(&body[5], ',') {
        return Err(marker_error());
    }
    let tag: MarkerTag = match &body[0] {
        TokenTree::Ident { text, .. } => match tag_of_name(text.as_str()) {
            Some(t) => t,
            None => {
                return Err(marker_error());
            },
        },
        _ => {
            return Err(marker_error());
        },
    };
    if !tree_is_punct(&body[1], '=') {
        return Err(marker_error());
    }
    if !tree_is_punct(&body[3], '.') {
        return Err(marker_error());
    }
    let one_ok: bool = match &body[4] {
        TokenTree::Literal { text, .. } => str_eq(text.as_str(), "1"),
        _ => false,
    };
    if !one_ok {
        return Err(marker_error());
    }
    let pin: TokenStream = match &body[2] {
        TokenTree::Group { delim, tokens, .. } => {
            if *delim == Delim::Paren {
                crate::token::clone_stream(tokens)
            } else {
                return Err(marker_error());
            }
        },
        _ => {
            return Err(marker_error());
        },
    };
    let ghost pv = stream_view(pin@);
    proof {
        lemma_stream_view_len(pin@);
        assert(spec_unwrap_body(bv) == spec_unwrap_parens(tag, pv));
    }
    if pin.len() != 5 {
        return Err(marker_error());
    }
    proof {
        lemma_stream_view_index(pin@, 0);
        lemma_stream_view_index(pin@, 1);
        lemma_stream_view_index(pin@, 2);
        lemma_stream_view_index(pin@, 3);
        lemma_stream_view_index(pin@, 4);
    }
    let sfy_ok: bool = match &pin[0] {
        TokenTree::Ident { text, .. } => str_eq(text.as_str(), "stringify"),
        _ => false,
    };
    if !sfy_ok {
        return Err(marker_error());
    }
    if !tree_is_punct(&pin[1], '!') {
        return Err(marker_error());
    }
    if !tree_is_punct(&pin[3], ',') {
        return Err(marker_error());
    }
    let zero_ok: bool = match &pin[4] {
        TokenTree::Literal { text, .. } => str_eq(text.as_str(), "0"),
        _ => false,
    };
    if !zero_ok {
        return Err(marker_error());
    }
    let args: TokenStream = match &pin[2] {
        TokenTree::Group { tokens, .. } => crate::token::clone_stream(tokens),
        _ => {
            return Err(marker_error());
        },
    };
    Ok((tag, args))
}

/// What unwrapping a uniqueness guard yields: the embedded expansion.
pub open spec fn spec_parse_enum_hack(ts: Seq<Tok>) -> Result<Seq<Tok>, ErrModel> {
    match spec_unwrap_marker_enum(ts) {
        Ok(p) => Ok(p.1),
        Err(e) => Err(e),
    }
}

/// Unwraps a uniqueness-guard enum back to the expansion it carries.
pub fn parse_enum_hack(input: TokenStream) -> (r: Result<TokenStream, Error>)
    ensures
        (match (r, spec_parse_enum_hack(stream_view(input@))) {
            (Ok(o), Ok(s)) => stream_view(o@) == s,
            (Err(e), Err(m)) => e@ == m,
            _ => false,
        }),
{
    match unwrap_marker_enum(input) {
        Ok(p) => Ok(p.1),
        Err(e) => Err(e),
    }
}

/// Taking apart the single variant built from any tag and stream gives
/// back exactly that tag and stream.
pub proof fn lemma_unwrap_body_round_trip(tag: MarkerTag, args: Seq<Tok>)
    ensures
        spec_unwrap_body(spec_marker_body(tag, args)) == Ok::<_, ErrModel>((tag, args)),
{
    let body = spec_marker_body(tag, args);
    let pin = spec_marker_parens(args);
    assert(ident_text(body[0]) == tag_name(tag));
    assert(spec_tag_of_name(tag_name(tag)) == Some(tag)) by {
        lemma_tag_name_round_trip(tag);
    }
    assert(spec_unwrap_body(body) == spec_unwrap_parens(tag, pin));
    assert(spec_unwrap_parens(tag, pin) == Ok::<_, ErrModel>((tag, args)));
}

/// Round trip: taking apart the marker enum built from any tag and any
/// embedded token stream gives back exactly that tag and stream, order
/// and grouping preserved.
pub proof fn lemma_marker_round_trip(tag: MarkerTag, args: Seq<Tok>)
    ensures
        spec_unwrap_marker_enum(spec_make_marker_enum(tag, args)) == Ok::<_, ErrModel>(
            (tag, args),
        ),
{
    let ts = spec_make_marker_enum(tag, args);
    assert(!crate::args::is_punct_ch(ts.subrange(2, ts.len() as int)[0], '#'));
    assert(spec_parse_attributes(ts.subrange(2, ts.len() as int)) == Ok::<_, ErrModel>((
        Seq::<Tok>::empty(),
        ts.subrange(2, ts.len() as int),
    )));
    let rest = ts.subrange(2, ts.len() as int);
    assert(rest.len() == 3);
    assert(rest[0] == ts[2] && rest[1] == ts[3] && rest[2] == ts[4]);
    let body = spec_marker_body(tag, args);
    assert(spec_unwrap_marker_enum(ts) == spec_unwrap_body(body));
    lemma_unwrap_body_round_trip(tag, args);
}

/// The variant name of a tag reads back as that tag.
pub proof fn lemma_tag_name_round_trip(tag: MarkerTag)
    ensures
        spec_tag_of_name(tag_name(tag)) == Some(tag),
{
    reveal_strlit("Value");
    reveal_strlit("Nested");
    match tag {
        MarkerTag::Value => {
            assert(tag_name(tag).len() == 5);
        },
        MarkerTag::Nested { calls } => {
            if calls == 0 {
                assert(tag_name(tag) =~= "Nested"@);
                assert(tag_name(tag).subrange(0, 6) =~= "Nested"@);
            } else {
                lemma_dec_digits(calls as nat);
                let nm = tag_name(tag);
                assert(nm =~= "Nested"@ + dec_digits(calls as nat));
                assert(nm.len() >= 7);
                assert(nm.subrange(0, 6) =~= "Nested"@);
                assert(nm.subrange(6, nm.len() as int) =~= dec_digits(calls as nat));
                assert(spec_parse_u16(dec_digits(calls as nat)) == Some(calls));
            }
        },
    }
}

/// The smaller of two counts.
pub open spec fn min_nat(a: nat, b: nat) -> nat {
    if a <= b {
        a
    } else {
        b
    }
}

/// How many bangs one token holds, counting through nested groups.
pub open spec fn spec_tok_bangs(t: Tok) -> nat
    decreases t, 1int,
{
    match t {
        Tok::Punct { ch, .. } => if ch == '!' {
            1nat
        } else {
            0nat
        },
        Tok::Group { tokens, .. } => spec_count_bangs(tokens),
        _ => 0nat,
    }
}

/// How many bangs a stream holds, counting through nested groups.
pub open spec fn spec_count_bangs(ts: Seq<Tok>) -> nat
    decreases ts, 0int,
{
    if ts.len() == 0 {
        0nat
    } else {
        spec_tok_bangs(ts[0]) + spec_count_bangs(ts.subrange(1, ts.len() as int))
    }
}

/// Bang counting splits over concatenation.
pub proof fn lemma_count_bangs_concat(a: Seq<Tok>, b: Seq<Tok>)
    ensures
        spec_count_bangs(a + b) == spec_count_bangs(a) + spec_count_bangs(b),
    decreases a.len(),
{
    if a.len() == 0 {
        assert(a + b =~= b);
    } else {
        lemma_count_bangs_concat(a.subrange(1, a.len() as int), b);
        assert((a + b).subrange(1, (a + b).len() as int) =~= a.subrange(1, a.len() as int) + b);
        assert((a + b)[0] == a[0]);
    }
}

/// Counts the bangs in one token, up to the given budget.
pub fn tok_bangs(t: &TokenTree, budget: u64) -> (r: u64)
    ensures
        r == min_nat(spec_tok_bangs(t@), budget as nat),
    decreases *t, 1int,
{
    match t {
        TokenTree::Punct { ch, .. } => {
            if *ch == '!' && budget > 0 {
                1
            } else {
                0
            }
        },
        TokenTree::Group { tokens, .. } => count_bangs(tokens, budget),
        _ => 0,
    }
}

/// Counts the bangs in a stream, nested groups included, up to the given
/// budget: the count of leading bang markers decides which dispatch macro
/// a nested-capable expansion routes through.
pub fn count_bangs(tokens: &TokenStream, budget: u64) -> (r: u64)
    ensures
        r == min_nat(spec_count_bangs(stream_view(tokens@)), budget as nat),
    decreases tokens@, 0int,
{
    proof {
        lemma_stream_view_len(tokens@);
    }
    let n = tokens.len();
    let mut count: u64 = 0;
    let mut i: usize = 0;
    proof {
        assert(tokens@.subrange(0, 0) =~= Seq::<TokenTree>::empty());
        assert(stream_view(Seq::<TokenTree>::empty()) =~= Seq::<Tok>::empty());
    }
    while i < n
        invariant
            n == tokens@.len(),
            i <= n,
            count == min_nat(
                spec_count_bangs(stream_view(tokens@.subrange(0, i as int))),
                budget as nat,
            ),
            count <= budget,
        decreases n - i,
    {
        let c = tok_bangs(&tokens[i], budget - count);
        proof {
            let pre = tokens@.subrange(0, i as int);
            let cur = tokens@.subrange(0, i as int + 1);
            assert(cur =~= pre + seq![tokens@[i as int]]);
            crate::token::lemma_stream_view_concat(pre, seq![tokens@[i as int]]);
            let t = tokens@[i as int];
            assert(seq![t].subrange(1, 1) =~= Seq::<TokenTree>::empty());
            assert(stream_view(Seq::<TokenTree>::empty()) =~= Seq::<Tok>::empty());
            assert(stream_view(seq![t]) =~= seq![t@]);
            lemma_count_bangs_concat(stream_view(pre), seq![t@]);
            assert(seq![t@].subrange(1, 1) =~= Seq::<Tok>::empty());
            assert(spec_count_bangs(Seq::<Tok>::empty()) == 0);
            assert(spec_count_bangs(seq![t@]) == spec_tok_bangs(t@));
            assert(spec_count_bangs(stream_view(cur)) == spec_count_bangs(stream_view(pre))
                + spec_tok_bangs(t@));
        }
        count = count + c;
        i = i + 1;
    }
    proof {
        assert(tokens@.subrange(0, n as int) =~= tokens@);
    }
    count
}

/// The number of nested invocation layers the dispatch table accepts.
pub const MAX_NESTED_CALLS: u64 = 64;

/// The diagnostic for an arity past the dispatch table's end.
pub open spec fn nesting_overflow_msg() -> Seq<char> {
    "this macro does not support >64 nested macro invocations"@
}

/// The name every plain expansion is invoked back through.
pub open spec fn proc_macro_call_plain_name() -> Seq<char> {
    "proc_macro_call"@
}

/// The arity-indexed name a nested-capable expansion routes through.
pub open spec fn proc_macro_call_name(arity: nat) -> Seq<char> {
    "proc_macro_call_"@ + dec_digits(arity)
}

/// The freshly constructed local macro holding an expansion result:
/// `macro_rules ! NAME { () => { OUT } }`.
pub open spec fn spec_wrap_macro_rules(name: Seq<char>, out: Seq<Tok>) -> Seq<Tok> {
    seq![
        Tok::Ident { text: "macro_rules"@, span: CALL_SITE_SPAN },
        Tok::Punct { ch: '!', spacing: Spacing::Alone, span: CALL_SITE_SPAN },
        Tok::Ident { text: name, span: CALL_SITE_SPAN },
        Tok::Group {
            delim: Delim::Brace,
            tokens: seq![
                Tok::Group { delim: Delim::Paren, tokens: Seq::empty(), span: CALL_SITE_SPAN },
                Tok::Punct { ch: '=', spacing: Spacing::Joint, span: CALL_SITE_SPAN },
                Tok::Punct { ch: '>', spacing: Spacing::Alone, span: CALL_SITE_SPAN },
                Tok::Group { delim: Delim::Brace, tokens: out, span: CALL_SITE_SPAN },
            ],
            span: CALL_SITE_SPAN,
        },
    ]
}

/// Builds the local macro holding an expansion result.
pub fn build_macro_rules(name: String, out: TokenStream) -> (r: TokenStream)
    ensures
        stream_view(r@) == spec_wrap_macro_rules(name@, stream_view(out@)),
{
    let ghost outv = stream_view(out@);
    let sp = CALL_SITE_SPAN;
    let empty_parens: TokenStream = Vec::new();
    proof {
        assert(stream_view(empty_parens@) =~= Seq::<Tok>::empty());
    }
    let mut inner: TokenStream = Vec::new();
    inner.push(group(Delim::Paren, empty_parens, sp));
    inner.push(crate::token::punct_joint('=', sp));
    inner.push(punct('>', sp));
    inner.push(group(Delim::Brace, out, sp));
    proof {
        lemma_stream_view_len(inner@);
        lemma_stream_view_index(inner@, 0);
        lemma_stream_view_index(inner@, 1);
        lemma_stream_view_index(inner@, 2);
        lemma_stream_view_index(inner@, 3);
    }
    let mut r: TokenStream = Vec::new();
    r.push(ident("macro_rules", sp));
    r.push(punct('!', sp));
    r.push(TokenTree::Ident { text: name, span: sp });
    r.push(group(Delim::Brace, inner, sp));
    proof {
        lemma_stream_view_len(r@);
        lemma_stream_view_index(r@, 0);
        lemma_stream_view_index(r@, 1);
        lemma_stream_view_index(r@, 2);
        lemma_stream_view_index(r@, 3);
        assert(stream_view(inner@) =~= spec_wrap_macro_rules(name@, outv)[3]->tokens);
        assert(stream_view(r@) =~= spec_wrap_macro_rules(name@, outv));
    }
    r
}

/// Wraps an implementation function's result for splicing back: a plain
/// expansion goes out under the fixed local name; a nested-capable one
/// goes out under the name indexed by the declared layer count plus every
/// bang found in the embedded tokens, and an arity past the dispatch
/// table's end is refused with a dedicated diagnostic.
pub fn wrap_expansion(tag: &MarkerTag, input: &TokenStream, output: TokenStream) -> (r: Result<
    TokenStream,
    Error,
>)
    ensures
        (match *tag {
            MarkerTag::Value => (r matches Ok(o) && stream_view(o@) == spec_wrap_macro_rules(
                proc_macro_call_plain_name(),
                stream_view(output@),
            )),
            MarkerTag::Nested { calls } => ({
                let arity = calls as nat + spec_count_bangs(stream_view(input@));
                if arity > MAX_NESTED_CALLS {
                    r matches Err(e) && e@ == (ErrModel {
                        span: CALL_SITE_SPAN,
                        msg: nesting_overflow_msg(),
                    })
                } else {
                    r matches Ok(o) && stream_view(o@) == spec_wrap_macro_rules(
                        proc_macro_call_name(arity),
                        stream_view(output@),
                    )
                }
            }),
        }),
{
    match tag {
        MarkerTag::Value => {
            let name = String::from_str("proc_macro_call");
            Ok(build_macro_rules(name, output))
        },
        MarkerTag::Nested { calls } => {
            let k = count_bangs(input, MAX_NESTED_CALLS + 1);
            let total: u64 = (*calls as u64) + k;
            proof {
                let full = spec_count_bangs(stream_view(input@));
                assert(k == min_nat(full, 65nat));
                assert((*calls as nat + full > 64) == (total > 64));
            }
            if total > MAX_NESTED_CALLS {
                Err(Error::new(
                    CALL_SITE_SPAN,
                    "this macro does not support >64 nested macro invocations",
                ))
            } else {
                let mut name = String::from_str("proc_macro_call_");
                crate::digits::push_dec(&mut name, total);
                Ok(build_macro_rules(name, output))
            }
        },
    }
}

} // verus!
