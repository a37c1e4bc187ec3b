//! The fallback path, taken when the host compiler cannot expand
//! function-like macros in expression position: a re-export declaration
//! becomes, for each exported name, a generated wrapper macro that smuggles
//! the caller's tokens through a marker enum; a function definition becomes
//! the derive-stage transform that unwraps them again.

use vstd::prelude::*;
use crate::{ExportArgs, Span, Visibility, CALL_SITE_SPAN};
use crate::digits::{dec_digits, push_dec};
use crate::error::{Error, ErrModel};
use crate::iter::IterImpl;
use crate::marker::{spec_marker_body, MarkerTag};
use crate::parse::{Export, ExportModel, Ident, IdentModel, Macro, MacroModel};
use crate::token::{extend, group, ident, lemma_stream_view_index, lemma_stream_view_len, punct,
    punct_joint, stream_view, string_push, Delim, Spacing, Tok, TokenStream, TokenTree};
use vstd::string::{StrSliceExecFns, StringExecFns};

verus! {

/// An identifier token at the call site.
pub open spec fn t_id(s: Seq<char>) -> Tok {
    Tok::Ident { text: s, span: CALL_SITE_SPAN }
}

/// An identifier token at a kept span.
pub open spec fn t_id_at(m: IdentModel) -> Tok {
    Tok::Ident { text: m.text, span: m.span }
}

/// A lone punctuation token at the call site.
pub open spec fn t_p(c: char) -> Tok {
    Tok::Punct { ch: c, spacing: Spacing::Alone, span: CALL_SITE_SPAN }
}

/// A joint punctuation token at the call site.
pub open spec fn t_pj(c: char) -> Tok {
    Tok::Punct { ch: c, spacing: Spacing::Joint, span: CALL_SITE_SPAN }
}

/// A group token at the call site.
pub open spec fn t_grp(d: Delim, ts: Seq<Tok>) -> Tok {
    Tok::Group { delim: d, tokens: ts, span: CALL_SITE_SPAN }
}

/// The hidden alias a real derive implementation is discoverable under.
pub open spec fn spec_actual_name(m: IdentModel) -> IdentModel {
    IdentModel { text: "proc_macro_hack_"@ + m.text, span: m.span }
}

/// The per-macro dispatch alias used for nested invocations.
pub open spec fn spec_dispatch_name(m: IdentModel) -> IdentModel {
    IdentModel { text: "proc_macro_call_"@ + m.text, span: m.span }
}

/// The per-macro alias of the span-rebinding helper.
pub open spec fn spec_call_site_name(m: IdentModel) -> IdentModel {
    IdentModel { text: "proc_macro_fake_call_site_"@ + m.text, span: m.span }
}

/// Prefixes an identifier's name, keeping its span.
fn prefix_ident(prefix: &str, name: &Ident) -> (r: Ident)
    ensures
        r@ == (IdentModel { text: prefix@ + name@.text, span: name@.span }),
{
    Ident { text: String::from_str(prefix).concat(name.text.as_str()), span: name.span }
}

/// The hidden alias a real derive implementation is discoverable under.
pub fn actual_proc_macro_name(conceptual: &Ident) -> (r: Ident)
    ensures
        r@ == spec_actual_name(conceptual@),
{
    prefix_ident("proc_macro_hack_", conceptual)
}

/// The per-macro dispatch alias used for nested invocations.
pub fn dispatch_macro_name(conceptual: &Ident) -> (r: Ident)
    ensures
        r@ == spec_dispatch_name(conceptual@),
{
    prefix_ident("proc_macro_call_", conceptual)
}

/// The per-macro alias of the span-rebinding helper.
pub fn call_site_macro_name(conceptual: &Ident) -> (r: Ident)
    ensures
        r@ == spec_call_site_name(conceptual@),
{
    prefix_ident("proc_macro_fake_call_site_", conceptual)
}

/// An identifier's name with any raw-identifier prefix stripped.
pub open spec fn unraw_text(s: Seq<char>) -> Seq<char> {
    if s.len() >= 2 && s.subrange(0, 2) == "r#"@ {
        s.subrange(2, s.len() as int)
    } else {
        s
    }
}

/// Strips a raw-identifier prefix, keeping the span.
pub fn unraw(id: &Ident) -> (r: Ident)
    ensures
        r@ == (IdentModel { text: unraw_text(id@.text), span: id@.span }),
{
    let n = id.text.as_str().unicode_len();
    if n >= 2 {
        let head = id.text.as_str().substring_char(0, 2);
        if crate::token::str_eq(head, "r#") {
            let rest = id.text.as_str().substring_char(2, n);
            return Ident { text: rest.to_owned(), span: id.span };
        }
    }
    proof {
        reveal_strlit("r#");
    }
    Ident { text: id.text.as_str().to_owned(), span: id.span }
}

/// One length-prefixed segment of the uniqueness-guard name.
pub open spec fn spec_seg(s: Seq<char>) -> Seq<char> {
    seq!['_'] + dec_digits(s.len()) + s
}

/// The segments contributed by a list of exported macros.
pub open spec fn spec_dummy_tail(ms: Seq<MacroModel>) -> Seq<char>
    decreases ms.len(),
{
    if ms.len() == 0 {
        Seq::empty()
    } else {
        spec_seg(unraw_text(ms[0].name.text)) + spec_dummy_tail(ms.subrange(1, ms.len() as int))
    }
}

/// The deterministic uniqueness-guard name of a re-export: each name is
/// length-prefixed so that distinct exports cannot collide.
pub open spec fn spec_dummy_name(e: ExportModel) -> Seq<char> {
    spec_seg(unraw_text(e.from.text)) + spec_dummy_tail(e.macros)
}

/// Segment lists split over concatenation.
pub proof fn lemma_dummy_tail_concat(a: Seq<MacroModel>, b: Seq<MacroModel>)
    ensures
        spec_dummy_tail(a + b) == spec_dummy_tail(a) + spec_dummy_tail(b),
    decreases a.len(),
{
    if a.len() == 0 {
        assert(a + b =~= b);
        assert(spec_dummy_tail(a) + spec_dummy_tail(b) =~= spec_dummy_tail(b));
    } else {
        lemma_dummy_tail_concat(a.subrange(1, a.len() as int), b);
        assert((a + b).subrange(1, (a + b).len() as int) =~= a.subrange(1, a.len() as int) + b);
        assert((a + b)[0] == a[0]);
        assert(spec_seg(unraw_text(a[0].name.text)) + (spec_dummy_tail(
            a.subrange(1, a.len() as int),
        ) + spec_dummy_tail(b)) =~= (spec_seg(unraw_text(a[0].name.text)) + spec_dummy_tail(
            a.subrange(1, a.len() as int),
        )) + spec_dummy_tail(b));
    }
}

/// Appends one length-prefixed segment.
fn push_seg(s: &mut String, text: &str)
    ensures
        final(s)@ == old(s)@ + spec_seg(text@),
{
    let n = text.unicode_len();
    string_push(s, '_');
    push_dec(s, n as u64);
    s.append(text);
    proof {
        assert(old(s)@.push('_') =~= old(s)@ + seq!['_']);
        assert((old(s)@ + seq!['_']) + dec_digits(text@.len()) + text@ =~= old(s)@ + spec_seg(
            text@,
        ));
    }
}

/// The uniqueness-guard name of a re-export.
pub fn dummy_name_for_export(export: &Export) -> (r: String)
    ensures
        r@ == spec_dummy_name(export@),
{
    let mut s = String::new();
    let from = unraw(&export.from);
    push_seg(&mut s, from.text.as_str());
    let n = export.macros.len();
    let mut i: usize = 0;
    proof {
        assert(export@.macros =~= crate::parse::macros_view(export.macros@));
    }
    while i < n
        invariant
            n == export.macros@.len(),
            i <= n,
            s@ == spec_seg(unraw_text(export@.from.text)) + spec_dummy_tail(
                export@.macros.subrange(0, i as int),
            ),
            export@.macros == crate::parse::macros_view(export.macros@),
        decreases n - i,
    {
        let ghost pre = export@.macros.subrange(0, i as int);
        let nm = unraw(&export.macros[i].name);
        push_seg(&mut s, nm.text.as_str());
        proof {
            let cur = export@.macros.subrange(0, i as int + 1);
            assert(cur =~= pre + seq![export@.macros[i as int]]);
            lemma_dummy_tail_concat(pre, seq![export@.macros[i as int]]);
            let single = seq![export@.macros[i as int]];
            assert(single.subrange(1, 1) =~= Seq::<MacroModel>::empty());
            assert(spec_dummy_tail(Seq::<MacroModel>::empty()) =~= Seq::<char>::empty());
            assert(spec_dummy_tail(single) =~= spec_seg(unraw_text(single[0].name.text)));
            assert(export@.macros[i as int].name.text == export.macros@[i as int]@.name.text);
            assert((spec_seg(unraw_text(export@.from.text)) + spec_dummy_tail(pre)) + spec_seg(
                unraw_text(export@.macros[i as int].name.text),
            ) =~= spec_seg(unraw_text(export@.from.text)) + spec_dummy_tail(cur));
        }
        i = i + 1;
    }
    proof {
        assert(export@.macros.subrange(0, n as int) =~= export@.macros);
    }
    s
}

/// The `pub` marker of the declaration, kept at its span.
pub open spec fn vis_tokens(vis: Visibility) -> Seq<Tok> {
    match vis {
        None => Seq::empty(),
        Some(sp) => seq![Tok::Ident { text: "pub"@, span: sp }],
    }
}

/// `# [macro_export]`, present exactly when the declaration is public.
pub open spec fn macro_export_tokens(vis: Visibility) -> Seq<Tok> {
    match vis {
        None => Seq::empty(),
        Some(sp) => seq![t_p('#'), t_grp(Delim::Bracket, seq![t_id("macro_export"@)])],
    }
}

/// `$crate ::`, prefixed to generated paths when the declaration is
/// public so downstream crates resolve them.
pub open spec fn crate_prefix_tokens(vis: Visibility) -> Seq<Tok> {
    match vis {
        None => Seq::empty(),
        Some(sp) => seq![t_p('$'), t_id("crate"@), t_pj(':'), t_p(':')],
    }
}

/// `# [doc (hidden)]`.
pub open spec fn doc_hidden() -> Seq<Tok> {
    seq![
        t_p('#'),
        t_grp(
            Delim::Bracket,
            seq![t_id("doc"@), t_grp(Delim::Paren, seq![t_id("hidden"@)])],
        ),
    ]
}

/// The splice of the wrapper's captured tokens: `$ ($proc_macro) *`.
pub open spec fn dollar_splice() -> Seq<Tok> {
    seq![
        t_p('$'),
        t_grp(Delim::Paren, seq![t_p('$'), t_id("proc_macro"@)]),
        t_p('*'),
    ]
}

/// The wrapper's matcher: `$ ($proc_macro : tt) *`.
pub open spec fn matcher_tokens() -> Seq<Tok> {
    seq![
        t_p('$'),
        t_grp(
            Delim::Paren,
            seq![t_p('$'), t_id("proc_macro"@), t_p(':'), t_id("tt"@)],
        ),
        t_p('*'),
    ]
}

/// The marker tag a declaration's arguments call for.
pub open spec fn spec_tag(args: ExportArgs) -> MarkerTag {
    if args.support_nested {
        MarkerTag::Nested { calls: args.internal_macro_calls }
    } else {
        MarkerTag::Value
    }
}

/// Which re-exported alias list is being generated.
#[derive(Clone, Copy, PartialEq, Eq, Structural, Debug)]
pub enum ListKind {
    Actual,
    Dispatch,
    CallSite,
}

/// One item of an alias list.
pub open spec fn spec_list_item(kind: ListKind, m: MacroModel) -> Seq<Tok> {
    match kind {
        ListKind::Actual => seq![t_id_at(spec_actual_name(m.name))],
        ListKind::Dispatch => seq![
            t_id("dispatch"@),
            t_id("as"@),
            t_id_at(spec_dispatch_name(m.name)),
        ],
        ListKind::CallSite => seq![
            t_id("fake_call_site"@),
            t_id("as"@),
            t_id_at(spec_call_site_name(m.name)),
        ],
    }
}

/// An alias list with commas between its items.
pub open spec fn spec_name_list(kind: ListKind, ms: Seq<MacroModel>) -> Seq<Tok>
    decreases ms.len(),
{
    if ms.len() == 0 {
        Seq::empty()
    } else if ms.len() == 1 {
        spec_list_item(kind, ms[0])
    } else {
        spec_list_item(kind, ms[0]) + seq![t_p(',')] + spec_name_list(
            kind,
            ms.subrange(1, ms.len() as int),
        )
    }
}

/// An alias list as it stands in a `use` item: bare for one macro, braced
/// for several.
pub open spec fn spec_names_tokens(kind: ListKind, ms: Seq<MacroModel>) -> Seq<Tok> {
    if ms.len() == 1 {
        spec_list_item(kind, ms[0])
    } else {
        seq![t_grp(Delim::Brace, spec_name_list(kind, ms))]
    }
}

/// The hidden re-export of the real implementations:
/// `# [doc (hidden)] pub use FROM :: NAMES ;`.
pub open spec fn spec_hidden_reexport(e: ExportModel) -> Seq<Tok> {
    doc_hidden() + vis_tokens(e.vis) + seq![t_id("use"@), t_id_at(e.from), t_pj(':'), t_p(':')]
        + spec_names_tokens(ListKind::Actual, e.macros) + seq![t_p(';')]
}

/// The dispatch-alias re-export, present when nesting is supported.
pub open spec fn spec_dispatch_reexport(e: ExportModel, args: ExportArgs) -> Seq<Tok> {
    if args.support_nested {
        doc_hidden() + vis_tokens(e.vis) + seq![
            t_id("use"@),
            t_id("proc_macro_nested"@),
            t_pj(':'),
            t_p(':'),
        ] + spec_names_tokens(ListKind::Dispatch, e.macros) + seq![t_p(';')]
    } else {
        Seq::empty()
    }
}

/// The span-rebinding-alias re-export, present when the call-site span
/// is to be faked.
pub open spec fn spec_call_site_reexport(e: ExportModel, args: ExportArgs) -> Seq<Tok> {
    if args.fake_call_site {
        doc_hidden() + vis_tokens(e.vis) + seq![
            t_id("use"@),
            t_id("proc_macro_hack"@),
            t_pj(':'),
            t_p(':'),
        ] + spec_names_tokens(ListKind::CallSite, e.macros) + seq![t_p(';')]
    } else {
        Seq::empty()
    }
}

/// `# [derive (PREFIX NAME)]`.
pub open spec fn spec_derive_attr(inner: Seq<Tok>) -> Seq<Tok> {
    seq![
        t_p('#'),
        t_grp(Delim::Bracket, seq![t_id("derive"@), t_grp(Delim::Paren, inner)]),
    ]
}

/// The attribute tokens that trigger the real derive implementation at a
/// call site, rebinding its span first when that is asked for.
pub open spec fn spec_do_derive(m: MacroModel, vis: Visibility, args: ExportArgs) -> Seq<Tok> {
    if !args.fake_call_site {
        spec_derive_attr(crate_prefix_tokens(vis) + seq![t_id_at(spec_actual_name(m.name))])
    } else if vis is Some {
        seq![t_id("use"@)] + crate_prefix_tokens(vis) + seq![
            t_id_at(spec_actual_name(m.name)),
            t_p(';'),
        ] + seq![
            t_p('#'),
            t_grp(
                Delim::Bracket,
                crate_prefix_tokens(vis) + seq![
                    t_id_at(spec_call_site_name(m.name)),
                    t_grp(Delim::Paren, dollar_splice()),
                ],
            ),
        ] + spec_derive_attr(seq![t_id_at(spec_actual_name(m.name))])
    } else {
        seq![
            t_p('#'),
            t_grp(
                Delim::Bracket,
                seq![
                    t_id_at(spec_call_site_name(m.name)),
                    t_grp(Delim::Paren, dollar_splice()),
                ],
            ),
        ] + spec_derive_attr(seq![t_id_at(spec_actual_name(m.name))])
    }
}

/// The trailing bang markers that declare internal macro layers.
pub open spec fn spec_bangs(n: nat) -> Seq<Tok>
    decreases n,
{
    if n == 0 {
        Seq::empty()
    } else {
        spec_bangs((n - 1) as nat).push(t_p('!'))
    }
}

/// The final invocation a wrapper expands to: straight back through the
/// local `proc_macro_call !` for a plain macro, or through the arity
/// dispatcher when nesting is supported.
pub open spec fn spec_call_tokens(m: MacroModel, vis: Visibility, args: ExportArgs) -> Seq<Tok> {
    if args.support_nested {
        crate_prefix_tokens(vis) + seq![
            t_id_at(spec_dispatch_name(m.name)),
            t_p('!'),
            t_grp(
                Delim::Brace,
                seq![t_grp(Delim::Paren, dollar_splice())] + spec_bangs(
                    args.internal_macro_calls as nat,
                ),
            ),
        ]
    } else {
        seq![t_id("proc_macro_call"@), t_p('!'), t_grp(Delim::Paren, Seq::empty())]
    }
}

/// The block a wrapper expands to: the derive trigger, the marker enum
/// embedding the captured tokens, and the final invocation.
pub open spec fn spec_wrapper_block(m: MacroModel, vis: Visibility, args: ExportArgs) -> Seq<
    Tok,
> {
    spec_do_derive(m, vis, args) + crate::marker::spec_make_marker_enum(
        spec_tag(args),
        dollar_splice(),
    ) + spec_call_tokens(m, vis, args)
}

/// One generated wrapper macro:
/// `ATTRS # [macro_export] macro_rules ! NAME { (MATCHER) => {{ BLOCK }} ; }`.
pub open spec fn spec_macro_def(m: MacroModel, e: ExportModel, args: ExportArgs) -> Seq<Tok> {
    e.attrs + macro_export_tokens(e.vis) + seq![
        t_id("macro_rules"@),
        t_p('!'),
        t_id_at(m.export_as),
        t_grp(
            Delim::Brace,
            seq![
                t_grp(Delim::Paren, matcher_tokens()),
                t_pj('='),
                t_p('>'),
                t_grp(
                    Delim::Brace,
                    seq![t_grp(Delim::Brace, spec_wrapper_block(m, e.vis, args))],
                ),
                t_p(';'),
            ],
        ),
    ]
}

/// All generated wrapper macros, one per exported name, in order.
pub open spec fn spec_macro_defs(ms: Seq<MacroModel>, e: ExportModel, args: ExportArgs) -> Seq<
    Tok,
>
    decreases ms.len(),
{
    if ms.len() == 0 {
        Seq::empty()
    } else {
        spec_macro_def(ms[0], e, args) + spec_macro_defs(ms.subrange(1, ms.len() as int), e, args)
    }
}

/// Everything a re-export expands to, before the uniqueness guard.
pub open spec fn spec_export_inner(e: ExportModel, args: ExportArgs) -> Seq<Tok> {
    spec_hidden_reexport(e) + spec_dispatch_reexport(e, args) + spec_call_site_reexport(e, args)
        + spec_macro_defs(e.macros, e, args)
}

/// The uniqueness guard: one outer marker enum named after the export,
/// carrying the whole expansion for the guard derive to unwrap.
pub open spec fn spec_wrap_in_enum_hack(dummy: Seq<char>, inner: Seq<Tok>) -> Seq<Tok> {
    spec_derive_attr(
        seq![t_id("proc_macro_hack"@), t_pj(':'), t_p(':'), t_id("ProcMacroHack"@)],
    ) + seq![
        t_id("enum"@),
        t_id(dummy),
        t_grp(Delim::Brace, spec_marker_body(MarkerTag::Value, inner)),
    ]
}

/// Everything a re-export expands to.
pub open spec fn spec_expand_export(e: ExportModel, args: ExportArgs) -> Seq<Tok> {
    spec_wrap_in_enum_hack(spec_dummy_name(e), spec_export_inner(e, args))
}

/// Builds the declaration's `pub` marker, if any.
fn build_vis(vis: &Visibility) -> (r: TokenStream)
    ensures
        stream_view(r@) == vis_tokens(*vis),
{
    let mut r: TokenStream = Vec::new();
    match vis {
        None => {
            proof {
                assert(stream_view(r@) =~= vis_tokens(*vis));
            }
        },
        Some(sp) => {
            r.push(ident("pub", *sp));
            proof {
                lemma_stream_view_len(r@);
                lemma_stream_view_index(r@, 0);
                assert(stream_view(r@) =~= vis_tokens(*vis));
            }
        },
    }
    r
}

/// Builds `# [macro_export]` when the declaration is public.
fn build_macro_export(vis: &Visibility) -> (r: TokenStream)
    ensures
        stream_view(r@) == macro_export_tokens(*vis),
{
    let mut r: TokenStream = Vec::new();
    match vis {
        None => {
            proof {
                assert(stream_view(r@) =~= macro_export_tokens(*vis));
            }
        },
        Some(sp) => {
            let mut inner: TokenStream = Vec::new();
            inner.push(ident("macro_export", CALL_SITE_SPAN));
            proof {
                lemma_stream_view_len(inner@);
                lemma_stream_view_index(inner@, 0);
                assert(stream_view(inner@) =~= seq![t_id("macro_export"@)]);
            }
            r.push(punct('#', CALL_SITE_SPAN));
            r.push(group(Delim::Bracket, inner, CALL_SITE_SPAN));
            proof {
                lemma_stream_view_len(r@);
                lemma_stream_view_index(r@, 0);
                lemma_stream_view_index(r@, 1);
                assert(stream_view(r@) =~= macro_export_tokens(*vis));
            }
        },
    }
    r
}

/// Builds `$crate ::` when the declaration is public.
fn build_crate_prefix(vis: &Visibility) -> (r: TokenStream)
    ensures
        stream_view(r@) == crate_prefix_tokens(*vis),
{
    let mut r: TokenStream = Vec::new();
    match vis {
        None => {
            proof {
                assert(stream_view(r@) =~= crate_prefix_tokens(*vis));
            }
        },
        Some(sp) => {
            r.push(punct('$', CALL_SITE_SPAN));
            r.push(ident("crate", CALL_SITE_SPAN));
            r.push(punct_joint(':', CALL_SITE_SPAN));
            r.push(punct(':', CALL_SITE_SPAN));
            proof {
                lemma_stream_view_len(r@);
                lemma_stream_view_index(r@, 0);
                lemma_stream_view_index(r@, 1);
                lemma_stream_view_index(r@, 2);
                lemma_stream_view_index(r@, 3);
                assert(stream_view(r@) =~= crate_prefix_tokens(*vis));
            }
        },
    }
    r
}

/// Builds `# [doc (hidden)]`.
fn build_doc_hidden() -> (r: TokenStream)
    ensures
        stream_view(r@) == doc_hidden(),
{
    let mut hid: TokenStream = Vec::new();
    hid.push(ident("hidden", CALL_SITE_SPAN));
    proof {
        lemma_stream_view_len(hid@);
        lemma_stream_view_index(hid@, 0);
        assert(stream_view(hid@) =~= seq![t_id("hidden"@)]);
    }
    let mut inner: TokenStream = Vec::new();
    inner.push(ident("doc", CALL_SITE_SPAN));
    inner.push(group(Delim::Paren, hid, CALL_SITE_SPAN));
    proof {
        lemma_stream_view_len(inner@);
        lemma_stream_view_index(inner@, 0);
        lemma_stream_view_index(inner@, 1);
        assert(stream_view(inner@) =~= seq![
            t_id("doc"@),
            t_grp(Delim::Paren, seq![t_id("hidden"@)]),
        ]);
    }
    let mut r: TokenStream = Vec::new();
    r.push(punct('#', CALL_SITE_SPAN));
    r.push(group(Delim::Bracket, inner, CALL_SITE_SPAN));
    proof {
        lemma_stream_view_len(r@);
        lemma_stream_view_index(r@, 0);
        lemma_stream_view_index(r@, 1);
        assert(stream_view(r@) =~= doc_hidden());
    }
    r
}

/// Builds the splice `$ ($proc_macro) *`.
fn build_dollar_splice() -> (r: TokenStream)
    ensures
        stream_view(r@) == dollar_splice(),
{
    let mut inner: TokenStream = Vec::new();
    inner.push(punct('$', CALL_SITE_SPAN));
    inner.push(ident("proc_macro", CALL_SITE_SPAN));
    proof {
        lemma_stream_view_len(inner@);
        lemma_stream_view_index(inner@, 0);
        lemma_stream_view_index(inner@, 1);
        assert(stream_view(inner@) =~= seq![t_p('$'), t_id("proc_macro"@)]);
    }
    let mut r: TokenStream = Vec::new();
    r.push(punct('$', CALL_SITE_SPAN));
    r.push(group(Delim::Paren, inner, CALL_SITE_SPAN));
    r.push(punct('*', CALL_SITE_SPAN));
    proof {
        lemma_stream_view_len(r@);
        lemma_stream_view_index(r@, 0);
        lemma_stream_view_index(r@, 1);
        lemma_stream_view_index(r@, 2);
        assert(stream_view(r@) =~= dollar_splice());
    }
    r
}

/// Builds the matcher `$ ($proc_macro : tt) *`.
fn build_matcher() -> (r: TokenStream)
    ensures
        stream_view(r@) == matcher_tokens(),
{
    let mut inner: TokenStream = Vec::new();
    inner.push(punct('$', CALL_SITE_SPAN));
    inner.push(ident("proc_macro", CALL_SITE_SPAN));
    inner.push(punct(':', CALL_SITE_SPAN));
    inner.push(ident("tt", CALL_SITE_SPAN));
    proof {
        lemma_stream_view_len(inner@);
        lemma_stream_view_index(inner@, 0);
        lemma_stream_view_index(inner@, 1);
        lemma_stream_view_index(inner@, 2);
        lemma_stream_view_index(inner@, 3);
        assert(stream_view(inner@) =~= seq![
            t_p('$'),
            t_id("proc_macro"@),
            t_p(':'),
            t_id("tt"@),
        ]);
    }
    let mut r: TokenStream = Vec::new();
    r.push(punct('$', CALL_SITE_SPAN));
    r.push(group(Delim::Paren, inner, CALL_SITE_SPAN));
    r.push(punct('*', CALL_SITE_SPAN));
    proof {
        lemma_stream_view_len(r@);
        lemma_stream_view_index(r@, 0);
        lemma_stream_view_index(r@, 1);
        lemma_stream_view_index(r@, 2);
        assert(stream_view(r@) =~= matcher_tokens());
    }
    r
}

/// Builds one item of an alias list.
fn build_list_item(kind: ListKind, m: &Macro) -> (r: TokenStream)
    ensures
        stream_view(r@) == spec_list_item(kind, m@),
{
    let mut r: TokenStream = Vec::new();
    match kind {
        ListKind::Actual => {
            let nm = actual_proc_macro_name(&m.name);
            r.push(TokenTree::Ident { text: nm.text, span: nm.span });
            proof {
                lemma_stream_view_len(r@);
                lemma_stream_view_index(r@, 0);
                assert(stream_view(r@) =~= spec_list_item(kind, m@));
            }
        },
        ListKind::Dispatch => {
            let nm = dispatch_macro_name(&m.name);
            r.push(ident("dispatch", CALL_SITE_SPAN));
            r.push(ident("as", CALL_SITE_SPAN));
            r.push(TokenTree::Ident { text: nm.text, span: nm.span });
            proof {
                lemma_stream_view_len(r@);
                lemma_stream_view_index(r@, 0);
                lemma_stream_view_index(r@, 1);
                lemma_stream_view_index(r@, 2);
                assert(stream_view(r@) =~= spec_list_item(kind, m@));
            }
        },
        ListKind::CallSite => {
            let nm = call_site_macro_name(&m.name);
            r.push(ident("fake_call_site", CALL_SITE_SPAN));
            r.push(ident("as", CALL_SITE_SPAN));
            r.push(TokenTree::Ident { text: nm.text, span: nm.span });
            proof {
                lemma_stream_view_len(r@);
                lemma_stream_view_index(r@, 0);
                lemma_stream_view_index(r@, 1);
                lemma_stream_view_index(r@, 2);
                assert(stream_view(r@) =~= spec_list_item(kind, m@));
            }
        },
    }
    r
}

/// Builds the tail of an alias list, from the given position on.
fn build_name_list(kind: ListKind, ms: &Vec<Macro>, i: usize) -> (r: TokenStream)
    requires
        i <= ms@.len(),
    ensures
        stream_view(r@) == spec_name_list(
            kind,
            crate::parse::macros_view(ms@).subrange(i as int, ms@.len() as int),
        ),
    decreases ms@.len() - i,
{
    let ghost tail = crate::parse::macros_view(ms@).subrange(i as int, ms@.len() as int);
    if i == ms.len() {
        let r: TokenStream = Vec::new();
        proof {
            assert(stream_view(r@) =~= spec_name_list(kind, tail));
        }
        return r;
    }
    let mut r = build_list_item(kind, &ms[i]);
    proof {
        assert(tail[0] == ms@[i as int]@);
    }
    if i + 1 == ms.len() {
        proof {
            assert(stream_view(r@) =~= spec_name_list(kind, tail));
        }
        return r;
    }
    let mut comma: TokenStream = Vec::new();
    comma.push(punct(',', CALL_SITE_SPAN));
    proof {
        lemma_stream_view_len(comma@);
        lemma_stream_view_index(comma@, 0);
        assert(stream_view(comma@) =~= seq![t_p(',')]);
    }
    extend(&mut r, comma);
    let rest = build_name_list(kind, ms, i + 1);
    proof {
        assert(crate::parse::macros_view(ms@).subrange(i as int + 1, ms@.len() as int)
            =~= tail.subrange(1, tail.len() as int));
    }
    extend(&mut r, rest);
    r
}

/// Builds `use NAME ::` heads shared by the re-export items.
fn build_use_head(crate_name: &str) -> (r: TokenStream)
    ensures
        stream_view(r@) == seq![
            t_id("use"@),
            t_id(crate_name@),
            t_pj(':'),
            t_p(':'),
        ],
{
    let mut r: TokenStream = Vec::new();
    r.push(ident("use", CALL_SITE_SPAN));
    r.push(ident(crate_name, CALL_SITE_SPAN));
    r.push(punct_joint(':', CALL_SITE_SPAN));
    r.push(punct(':', CALL_SITE_SPAN));
    proof {
        lemma_stream_view_len(r@);
        lemma_stream_view_index(r@, 0);
        lemma_stream_view_index(r@, 1);
        lemma_stream_view_index(r@, 2);
        lemma_stream_view_index(r@, 3);
        assert(stream_view(r@) =~= seq![t_id("use"@), t_id(crate_name@), t_pj(':'), t_p(':')]);
    }
    r
}

/// Builds a lone semicolon.
fn build_semi() -> (r: TokenStream)
    ensures
        stream_view(r@) == seq![t_p(';')],
{
    let mut r: TokenStream = Vec::new();
    r.push(punct(';', CALL_SITE_SPAN));
    proof {
        lemma_stream_view_len(r@);
        lemma_stream_view_index(r@, 0);
        assert(stream_view(r@) =~= seq![t_p(';')]);
    }
    r
}

/// Builds an alias list as it stands in a `use` item.
fn build_names_tokens(kind: ListKind, ms: &Vec<Macro>) -> (r: TokenStream)
    requires
        ms@.len() >= 1,
    ensures
        stream_view(r@) == spec_names_tokens(kind, crate::parse::macros_view(ms@)),
{
    let ghost msv = crate::parse::macros_view(ms@);
    if ms.len() == 1 {
        let r = build_list_item(kind, &ms[0]);
        proof {
            assert(msv[0] == ms@[0]@);
            assert(stream_view(r@) =~= spec_names_tokens(kind, msv));
        }
        r
    } else {
        let list = build_name_list(kind, ms, 0);
        proof {
            assert(msv.subrange(0, msv.len() as int) =~= msv);
        }
        let mut r: TokenStream = Vec::new();
        r.push(group(Delim::Brace, list, CALL_SITE_SPAN));
        proof {
            lemma_stream_view_len(r@);
            lemma_stream_view_index(r@, 0);
            assert(stream_view(r@) =~= spec_names_tokens(kind, msv));
        }
        r
    }
}

/// Builds the hidden re-export of the real implementations.
fn build_hidden_reexport(e: &Export) -> (r: TokenStream)
    requires
        e@.macros.len() >= 1,
    ensures
        stream_view(r@) == spec_hidden_reexport(e@),
{
    let mut r = build_doc_hidden();
    extend(&mut r, build_vis(&e.vis));
    let mut head: TokenStream = Vec::new();
    head.push(ident("use", CALL_SITE_SPAN));
    head.push(TokenTree::Ident { text: e.from.text.as_str().to_owned(), span: e.from.span });
    head.push(punct_joint(':', CALL_SITE_SPAN));
    head.push(punct(':', CALL_SITE_SPAN));
    proof {
        lemma_stream_view_len(head@);
        lemma_stream_view_index(head@, 0);
        lemma_stream_view_index(head@, 1);
        lemma_stream_view_index(head@, 2);
        lemma_stream_view_index(head@, 3);
        assert(stream_view(head@) =~= seq![t_id("use"@), t_id_at(e@.from), t_pj(':'), t_p(':')]);
    }
    extend(&mut r, head);
    extend(&mut r, build_names_tokens(ListKind::Actual, &e.macros));
    extend(&mut r, build_semi());
    r
}

/// Builds the dispatch-alias re-export, when nesting is supported.
fn build_dispatch_reexport(e: &Export, args: &ExportArgs) -> (r: TokenStream)
    requires
        e@.macros.len() >= 1,
    ensures
        stream_view(r@) == spec_dispatch_reexport(e@, *args),
{
    if !args.support_nested {
        let r: TokenStream = Vec::new();
        proof {
            assert(stream_view(r@) =~= spec_dispatch_reexport(e@, *args));
        }
        return r;
    }
    let mut r = build_doc_hidden();
    extend(&mut r, build_vis(&e.vis));
    extend(&mut r, build_use_head("proc_macro_nested"));
    extend(&mut r, build_names_tokens(ListKind::Dispatch, &e.macros));
    extend(&mut r, build_semi());
    r
}

/// Builds the span-rebinding-alias re-export, when asked for.
fn build_call_site_reexport(e: &Export, args: &ExportArgs) -> (r: TokenStream)
    requires
        e@.macros.len() >= 1,
    ensures
        stream_view(r@) == spec_call_site_reexport(e@, *args),
{
    if !args.fake_call_site {
        let r: TokenStream = Vec::new();
        proof {
            assert(stream_view(r@) =~= spec_call_site_reexport(e@, *args));
        }
        return r;
    }
    let mut r = build_doc_hidden();
    extend(&mut r, build_vis(&e.vis));
    extend(&mut r, build_use_head("proc_macro_hack"));
    extend(&mut r, build_names_tokens(ListKind::CallSite, &e.macros));
    extend(&mut r, build_semi());
    r
}

/// Builds `# [derive (INNER)]`.
pub(crate) fn build_derive_attr(inner: TokenStream) -> (r: TokenStream)
    ensures
        stream_view(r@) == spec_derive_attr(stream_view(inner@)),
{
    let ghost iv = stream_view(inner@);
    let mut di: TokenStream = Vec::new();
    di.push(ident("derive", CALL_SITE_SPAN));
    di.push(group(Delim::Paren, inner, CALL_SITE_SPAN));
    proof {
        lemma_stream_view_len(di@);
        lemma_stream_view_index(di@, 0);
        lemma_stream_view_index(di@, 1);
        assert(stream_view(di@) =~= seq![t_id("derive"@), t_grp(Delim::Paren, iv)]);
    }
    let mut r: TokenStream = Vec::new();
    r.push(punct('#', CALL_SITE_SPAN));
    r.push(group(Delim::Bracket, di, CALL_SITE_SPAN));
    proof {
        lemma_stream_view_len(r@);
        lemma_stream_view_index(r@, 0);
        lemma_stream_view_index(r@, 1);
        assert(stream_view(r@) =~= spec_derive_attr(iv));
    }
    r
}

/// Builds the derive trigger of one wrapper macro.
fn build_do_derive(m: &Macro, vis: &Visibility, args: &ExportArgs) -> (r: TokenStream)
    ensures
        stream_view(r@) == spec_do_derive(m@, *vis, *args),
{
    let actual = actual_proc_macro_name(&m.name);
    if !args.fake_call_site {
        let mut inner = build_crate_prefix(vis);
        let ghost pre = stream_view(inner@);
        let at = TokenTree::Ident { text: actual.text, span: actual.span };
        let ghost atv = at@;
        proof {
            crate::token::lemma_stream_view_push(inner@, at);
        }
        inner.push(at);
        proof {
            assert(stream_view(inner@) =~= pre + seq![atv]);
        }
        return build_derive_attr(inner);
    }
    let call_site = call_site_macro_name(&m.name);
    let mut plain_inner: TokenStream = Vec::new();
    plain_inner.push(TokenTree::Ident {
        text: actual.text.as_str().to_owned(),
        span: actual.span,
    });
    proof {
        lemma_stream_view_len(plain_inner@);
        lemma_stream_view_index(plain_inner@, 0);
        assert(stream_view(plain_inner@) =~= seq![t_id_at(spec_actual_name(m@.name))]);
    }
    let derive_plain = build_derive_attr(plain_inner);
    let mut attr_inner = build_crate_prefix(vis);
    let ghost ai0 = stream_view(attr_inner@);
    let mut cs_part: TokenStream = Vec::new();
    cs_part.push(TokenTree::Ident { text: call_site.text, span: call_site.span });
    cs_part.push(group(Delim::Paren, build_dollar_splice(), CALL_SITE_SPAN));
    proof {
        lemma_stream_view_len(cs_part@);
        lemma_stream_view_index(cs_part@, 0);
        lemma_stream_view_index(cs_part@, 1);
        assert(stream_view(cs_part@) =~= seq![
            t_id_at(spec_call_site_name(m@.name)),
            t_grp(Delim::Paren, dollar_splice()),
        ]);
    }
    extend(&mut attr_inner, cs_part);
    let mut attr: TokenStream = Vec::new();
    attr.push(punct('#', CALL_SITE_SPAN));
    attr.push(group(Delim::Bracket, attr_inner, CALL_SITE_SPAN));
    proof {
        lemma_stream_view_len(attr@);
        lemma_stream_view_index(attr@, 0);
        lemma_stream_view_index(attr@, 1);
    }
    match vis {
        Some(sp) => {
            let mut r: TokenStream = Vec::new();
            r.push(ident("use", CALL_SITE_SPAN));
            proof {
                lemma_stream_view_len(r@);
                lemma_stream_view_index(r@, 0);
                assert(stream_view(r@) =~= seq![t_id("use"@)]);
            }
            extend(&mut r, build_crate_prefix(vis));
            let mut tailp: TokenStream = Vec::new();
            tailp.push(TokenTree::Ident { text: actual.text.as_str().to_owned(), span: actual.span });
            tailp.push(punct(';', CALL_SITE_SPAN));
            proof {
                lemma_stream_view_len(tailp@);
                lemma_stream_view_index(tailp@, 0);
                lemma_stream_view_index(tailp@, 1);
                assert(stream_view(tailp@) =~= seq![t_id_at(spec_actual_name(m@.name)), t_p(';')]);
            }
            extend(&mut r, tailp);
            extend(&mut r, attr);
            extend(&mut r, derive_plain);
            proof {
                assert(stream_view(r@) =~= spec_do_derive(m@, *vis, *args));
            }
            r
        },
        None => {
            let mut r = attr;
            extend(&mut r, derive_plain);
            proof {
                assert(stream_view(r@) =~= spec_do_derive(m@, *vis, *args));
            }
            r
        },
    }
}

/// Builds the trailing bang markers.
fn build_bangs(n: u16) -> (r: TokenStream)
    ensures
        stream_view(r@) == spec_bangs(n as nat),
{
    let mut r: TokenStream = Vec::new();
    let mut i: u16 = 0;
    proof {
        assert(stream_view(r@) =~= spec_bangs(0));
    }
    while i < n
        invariant
            i <= n,
            stream_view(r@) == spec_bangs(i as nat),
        decreases n - i,
    {
        let b = punct('!', CALL_SITE_SPAN);
        proof {
            crate::token::lemma_stream_view_push(r@, b);
        }
        r.push(b);
        i = i + 1;
    }
    r
}

/// Builds the final invocation of one wrapper macro.
fn build_call_tokens(m: &Macro, vis: &Visibility, args: &ExportArgs) -> (r: TokenStream)
    ensures
        stream_view(r@) == spec_call_tokens(m@, *vis, *args),
{
    if !args.support_nested {
        let mut r: TokenStream = Vec::new();
        let empty: TokenStream = Vec::new();
        proof {
            assert(stream_view(empty@) =~= Seq::<Tok>::empty());
        }
        r.push(ident("proc_macro_call", CALL_SITE_SPAN));
        r.push(punct('!', CALL_SITE_SPAN));
        r.push(group(Delim::Paren, empty, CALL_SITE_SPAN));
        proof {
            lemma_stream_view_len(r@);
            lemma_stream_view_index(r@, 0);
            lemma_stream_view_index(r@, 1);
            lemma_stream_view_index(r@, 2);
            assert(stream_view(r@) =~= spec_call_tokens(m@, *vis, *args));
        }
        return r;
    }
    let dispatch = dispatch_macro_name(&m.name);
    let mut bi: TokenStream = Vec::new();
    bi.push(group(Delim::Paren, build_dollar_splice(), CALL_SITE_SPAN));
    proof {
        lemma_stream_view_len(bi@);
        lemma_stream_view_index(bi@, 0);
        assert(stream_view(bi@) =~= seq![t_grp(Delim::Paren, dollar_splice())]);
    }
    extend(&mut bi, build_bangs(args.internal_macro_calls));
    let mut r = build_crate_prefix(vis);
    let mut mid: TokenStream = Vec::new();
    mid.push(TokenTree::Ident { text: dispatch.text, span: dispatch.span });
    mid.push(punct('!', CALL_SITE_SPAN));
    mid.push(group(Delim::Brace, bi, CALL_SITE_SPAN));
    proof {
        lemma_stream_view_len(mid@);
        lemma_stream_view_index(mid@, 0);
        lemma_stream_view_index(mid@, 1);
        lemma_stream_view_index(mid@, 2);
        assert(stream_view(mid@) =~= seq![
            t_id_at(spec_dispatch_name(m@.name)),
            t_p('!'),
            t_grp(
                Delim::Brace,
                seq![t_grp(Delim::Paren, dollar_splice())] + spec_bangs(
                    args.internal_macro_calls as nat,
                ),
            ),
        ]);
    }
    extend(&mut r, mid);
    r
}

/// Builds the block one wrapper macro expands to.
fn build_wrapper_block(m: &Macro, vis: &Visibility, args: &ExportArgs) -> (r: TokenStream)
    ensures
        stream_view(r@) == spec_wrapper_block(m@, *vis, *args),
{
    let tag: MarkerTag = if args.support_nested {
        MarkerTag::Nested { calls: args.internal_macro_calls }
    } else {
        MarkerTag::Value
    };
    let mut r = build_do_derive(m, vis, args);
    extend(&mut r, crate::marker::make_marker_enum(&tag, build_dollar_splice()));
    extend(&mut r, build_call_tokens(m, vis, args));
    r
}

/// Builds one generated wrapper macro.
fn build_macro_def(m: &Macro, e: &Export, args: &ExportArgs) -> (r: TokenStream)
    ensures
        stream_view(r@) == spec_macro_def(m@, e@, *args),
{
    let mut r = crate::token::clone_stream(&e.attrs);
    extend(&mut r, build_macro_export(&e.vis));
    let block = build_wrapper_block(m, &e.vis, args);
    let mut bb: TokenStream = Vec::new();
    bb.push(group(Delim::Brace, block, CALL_SITE_SPAN));
    proof {
        lemma_stream_view_len(bb@);
        lemma_stream_view_index(bb@, 0);
        assert(stream_view(bb@) =~= seq![t_grp(Delim::Brace, spec_wrapper_block(m@, e@.vis, *args))]);
    }
    let mut rule: TokenStream = Vec::new();
    rule.push(group(Delim::Paren, build_matcher(), CALL_SITE_SPAN));
    rule.push(punct_joint('=', CALL_SITE_SPAN));
    rule.push(punct('>', CALL_SITE_SPAN));
    rule.push(group(Delim::Brace, bb, CALL_SITE_SPAN));
    rule.push(punct(';', CALL_SITE_SPAN));
    proof {
        lemma_stream_view_len(rule@);
        lemma_stream_view_index(rule@, 0);
        lemma_stream_view_index(rule@, 1);
        lemma_stream_view_index(rule@, 2);
        lemma_stream_view_index(rule@, 3);
        lemma_stream_view_index(rule@, 4);
        assert(stream_view(rule@) =~= seq![
            t_grp(Delim::Paren, matcher_tokens()),
            t_pj('='),
            t_p('>'),
            t_grp(
                Delim::Brace,
                seq![t_grp(Delim::Brace, spec_wrapper_block(m@, e@.vis, *args))],
            ),
            t_p(';'),
        ]);
    }
    let mut mid: TokenStream = Vec::new();
    mid.push(ident("macro_rules", CALL_SITE_SPAN));
    mid.push(punct('!', CALL_SITE_SPAN));
    mid.push(TokenTree::Ident {
        text: m.export_as.text.as_str().to_owned(),
        span: m.export_as.span,
    });
    mid.push(group(Delim::Brace, rule, CALL_SITE_SPAN));
    proof {
        lemma_stream_view_len(mid@);
        lemma_stream_view_index(mid@, 0);
        lemma_stream_view_index(mid@, 1);
        lemma_stream_view_index(mid@, 2);
        lemma_stream_view_index(mid@, 3);
        assert(stream_view(mid@) =~= seq![
            t_id("macro_rules"@),
            t_p('!'),
            t_id_at(m@.export_as),
            t_grp(
                Delim::Brace,
                seq![
                    t_grp(Delim::Paren, matcher_tokens()),
                    t_pj('='),
                    t_p('>'),
                    t_grp(
                        Delim::Brace,
                        seq![t_grp(Delim::Brace, spec_wrapper_block(m@, e@.vis, *args))],
                    ),
                    t_p(';'),
                ],
            ),
        ]);
    }
    extend(&mut r, mid);
    r
}

/// Builds all generated wrapper macros, from the given position on.
fn build_macro_defs(e: &Export, args: &ExportArgs, i: usize) -> (r: TokenStream)
    requires
        i <= e.macros@.len(),
    ensures
        stream_view(r@) == spec_macro_defs(
            e@.macros.subrange(i as int, e@.macros.len() as int),
            e@,
            *args,
        ),
    decreases e.macros@.len() - i,
{
    let ghost tail = e@.macros.subrange(i as int, e@.macros.len() as int);
    if i == e.macros.len() {
        let r: TokenStream = Vec::new();
        proof {
            assert(stream_view(r@) =~= spec_macro_defs(tail, e@, *args));
        }
        return r;
    }
    let mut r = build_macro_def(&e.macros[i], e, args);
    proof {
        assert(tail[0] == e.macros@[i as int]@);
    }
    let rest = build_macro_defs(e, args, i + 1);
    proof {
        assert(e@.macros.subrange(i as int + 1, e@.macros.len() as int) =~= tail.subrange(
            1,
            tail.len() as int,
        ));
    }
    extend(&mut r, rest);
    r
}

/// Wraps a whole expansion in the uniqueness-guard marker enum.
pub fn wrap_in_enum_hack(dummy: String, inner: TokenStream) -> (r: TokenStream)
    ensures
        stream_view(r@) == spec_wrap_in_enum_hack(dummy@, stream_view(inner@)),
{
    let ghost iv = stream_view(inner@);
    let mut di: TokenStream = Vec::new();
    di.push(ident("proc_macro_hack", CALL_SITE_SPAN));
    di.push(punct_joint(':', CALL_SITE_SPAN));
    di.push(punct(':', CALL_SITE_SPAN));
    di.push(ident("ProcMacroHack", CALL_SITE_SPAN));
    proof {
        lemma_stream_view_len(di@);
        lemma_stream_view_index(di@, 0);
        lemma_stream_view_index(di@, 1);
        lemma_stream_view_index(di@, 2);
        lemma_stream_view_index(di@, 3);
        assert(stream_view(di@) =~= seq![
            t_id("proc_macro_hack"@),
            t_pj(':'),
            t_p(':'),
            t_id("ProcMacroHack"@),
        ]);
    }
    let mut r = build_derive_attr(di);
    let body = crate::marker::build_marker_body(&MarkerTag::Value, inner);
    let mut tailp: TokenStream = Vec::new();
    tailp.push(ident("enum", CALL_SITE_SPAN));
    tailp.push(TokenTree::Ident { text: dummy, span: CALL_SITE_SPAN });
    tailp.push(group(Delim::Brace, body, CALL_SITE_SPAN));
    proof {
        lemma_stream_view_len(tailp@);
        lemma_stream_view_index(tailp@, 0);
        lemma_stream_view_index(tailp@, 1);
        lemma_stream_view_index(tailp@, 2);
        assert(stream_view(tailp@) =~= seq![
            t_id("enum"@),
            t_id(dummy@),
            t_grp(Delim::Brace, spec_marker_body(MarkerTag::Value, iv)),
        ]);
    }
    extend(&mut r, tailp);
    r
}

/// Expands a re-export declaration: the hidden re-exports, one wrapper
/// macro per exported name, all inside the uniqueness guard.
pub fn expand_export(export: Export, args: ExportArgs) -> (r: TokenStream)
    requires
        export@.macros.len() >= 1,
    ensures
        stream_view(r@) == spec_expand_export(export@, args),
{
    let dummy = dummy_name_for_export(&export);
    let mut inner = build_hidden_reexport(&export);
    extend(&mut inner, build_dispatch_reexport(&export, &args));
    extend(&mut inner, build_call_site_reexport(&export, &args));
    proof {
        assert(export@.macros.subrange(0, export@.macros.len() as int) =~= export@.macros);
    }
    extend(&mut inner, build_macro_defs(&export, &args, 0));
    wrap_in_enum_hack(dummy, inner)
}

/// The private module that re-exports the host's token primitives:
/// `mod DUMMY { pub use proc_macro :: * ; }`.
pub open spec fn spec_define_module(dummy: IdentModel) -> Seq<Tok> {
    seq![
        t_id("mod"@),
        t_id_at(dummy),
        t_grp(
            Delim::Brace,
            seq![
                t_id("pub"@),
                t_id("use"@),
                t_id("proc_macro"@),
                t_pj(':'),
                t_p(':'),
                t_p('*'),
                t_p(';'),
            ],
        ),
    ]
}

/// `# [proc_macro_derive (DUMMY)]`.
pub open spec fn spec_derive_reg(dummy: IdentModel) -> Seq<Tok> {
    seq![
        t_p('#'),
        t_grp(
            Delim::Bracket,
            seq![t_id("proc_macro_derive"@), t_grp(Delim::Paren, seq![t_id_at(dummy)])],
        ),
    ]
}

/// The generated derive function: it hands its input and the
/// implementation function to the shim's derive-stage entry point.
pub open spec fn spec_derive_fn(dummy: IdentModel, name: IdentModel) -> Seq<Tok> {
    seq![
        t_id("pub"@),
        t_id("fn"@),
        t_id_at(dummy),
        t_grp(
            Delim::Paren,
            seq![
                t_id("input"@),
                t_p(':'),
                t_id_at(dummy),
                t_pj(':'),
                t_p(':'),
                t_id("TokenStream"@),
            ],
        ),
        t_pj('-'),
        t_p('>'),
        t_id_at(dummy),
        t_pj(':'),
        t_p(':'),
        t_id("TokenStream"@),
        t_grp(
            Delim::Brace,
            seq![
                t_id("proc_macro_hack"@),
                t_pj(':'),
                t_p(':'),
                t_id("derive_expand"@),
                t_grp(Delim::Paren, seq![t_id("input"@), t_p(','), t_id_at(name)]),
            ],
        ),
    ]
}

/// Everything a function definition expands to: the primitive-re-export
/// module, the declaration's attributes, the derive registration, the
/// generated derive function, and the original function kept verbatim.
pub open spec fn spec_expand_define(d: crate::parse::DefineModel) -> Seq<Tok> {
    spec_define_module(spec_actual_name(d.name)) + d.attrs + spec_derive_reg(
        spec_actual_name(d.name),
    ) + spec_derive_fn(spec_actual_name(d.name), d.name) + seq![t_id("fn"@), t_id_at(d.name)]
        + d.body
}

/// Expands a function definition into the derive-stage transform that
/// unwraps a marker enum, runs the function, and re-wraps the result.
pub fn expand_define(define: crate::parse::Define) -> (r: TokenStream)
    ensures
        stream_view(r@) == spec_expand_define(define@),
{
    let dummy = actual_proc_macro_name(&define.name);
    let ghost dv = dummy@;
    let ghost nv = define.name@;
    let mut mod_body: TokenStream = Vec::new();
    mod_body.push(ident("pub", CALL_SITE_SPAN));
    mod_body.push(ident("use", CALL_SITE_SPAN));
    mod_body.push(ident("proc_macro", CALL_SITE_SPAN));
    mod_body.push(punct_joint(':', CALL_SITE_SPAN));
    mod_body.push(punct(':', CALL_SITE_SPAN));
    mod_body.push(punct('*', CALL_SITE_SPAN));
    mod_body.push(punct(';', CALL_SITE_SPAN));
    proof {
        lemma_stream_view_len(mod_body@);
        lemma_stream_view_index(mod_body@, 0);
        lemma_stream_view_index(mod_body@, 1);
        lemma_stream_view_index(mod_body@, 2);
        lemma_stream_view_index(mod_body@, 3);
        lemma_stream_view_index(mod_body@, 4);
        lemma_stream_view_index(mod_body@, 5);
        lemma_stream_view_index(mod_body@, 6);
        assert(stream_view(mod_body@) =~= seq![
            t_id("pub"@),
            t_id("use"@),
            t_id("proc_macro"@),
            t_pj(':'),
            t_p(':'),
            t_p('*'),
            t_p(';'),
        ]);
    }
    let mut r: TokenStream = Vec::new();
    r.push(ident("mod", CALL_SITE_SPAN));
    r.push(TokenTree::Ident { text: dummy.text.as_str().to_owned(), span: dummy.span });
    r.push(group(Delim::Brace, mod_body, CALL_SITE_SPAN));
    proof {
        lemma_stream_view_len(r@);
        lemma_stream_view_index(r@, 0);
        lemma_stream_view_index(r@, 1);
        lemma_stream_view_index(r@, 2);
        assert(stream_view(r@) =~= spec_define_module(spec_actual_name(nv)));
    }
    extend(&mut r, crate::token::clone_stream(&define.attrs));
    let mut reg_inner: TokenStream = Vec::new();
    reg_inner.push(TokenTree::Ident { text: dummy.text.as_str().to_owned(), span: dummy.span });
    proof {
        lemma_stream_view_len(reg_inner@);
        lemma_stream_view_index(reg_inner@, 0);
        assert(stream_view(reg_inner@) =~= seq![t_id_at(spec_actual_name(nv))]);
    }
    let mut reg_body: TokenStream = Vec::new();
    reg_body.push(ident("proc_macro_derive", CALL_SITE_SPAN));
    reg_body.push(group(Delim::Paren, reg_inner, CALL_SITE_SPAN));
    proof {
        lemma_stream_view_len(reg_body@);
        lemma_stream_view_index(reg_body@, 0);
        lemma_stream_view_index(reg_body@, 1);
        assert(stream_view(reg_body@) =~= seq![
            t_id("proc_macro_derive"@),
            t_grp(Delim::Paren, seq![t_id_at(spec_actual_name(nv))]),
        ]);
    }
    let mut reg: TokenStream = Vec::new();
    reg.push(punct('#', CALL_SITE_SPAN));
    reg.push(group(Delim::Bracket, reg_body, CALL_SITE_SPAN));
    proof {
        lemma_stream_view_len(reg@);
        lemma_stream_view_index(reg@, 0);
        lemma_stream_view_index(reg@, 1);
        assert(stream_view(reg@) =~= spec_derive_reg(spec_actual_name(nv)));
    }
    extend(&mut r, reg);
    let mut params: TokenStream = Vec::new();
    params.push(ident("input", CALL_SITE_SPAN));
    params.push(punct(':', CALL_SITE_SPAN));
    params.push(TokenTree::Ident { text: dummy.text.as_str().to_owned(), span: dummy.span });
    params.push(punct_joint(':', CALL_SITE_SPAN));
    params.push(punct(':', CALL_SITE_SPAN));
    params.push(ident("TokenStream", CALL_SITE_SPAN));
    proof {
        lemma_stream_view_len(params@);
        lemma_stream_view_index(params@, 0);
        lemma_stream_view_index(params@, 1);
        lemma_stream_view_index(params@, 2);
        lemma_stream_view_index(params@, 3);
        lemma_stream_view_index(params@, 4);
        lemma_stream_view_index(params@, 5);
        assert(stream_view(params@) =~= seq![
            t_id("input"@),
            t_p(':'),
            t_id_at(spec_actual_name(nv)),
            t_pj(':'),
            t_p(':'),
            t_id("TokenStream"@),
        ]);
    }
    let mut call_inner: TokenStream = Vec::new();
    call_inner.push(ident("input", CALL_SITE_SPAN));
    call_inner.push(punct(',', CALL_SITE_SPAN));
    call_inner.push(TokenTree::Ident {
        text: define.name.text.as_str().to_owned(),
        span: define.name.span,
    });
    proof {
        lemma_stream_view_len(call_inner@);
        lemma_stream_view_index(call_inner@, 0);
        lemma_stream_view_index(call_inner@, 1);
        lemma_stream_view_index(call_inner@, 2);
        assert(stream_view(call_inner@) =~= seq![t_id("input"@), t_p(','), t_id_at(nv)]);
    }
    let mut fn_body: TokenStream = Vec::new();
    fn_body.push(ident("proc_macro_hack", CALL_SITE_SPAN));
    fn_body.push(punct_joint(':', CALL_SITE_SPAN));
    fn_body.push(punct(':', CALL_SITE_SPAN));
    fn_body.push(ident("derive_expand", CALL_SITE_SPAN));
    fn_body.push(group(Delim::Paren, call_inner, CALL_SITE_SPAN));
    proof {
        lemma_stream_view_len(fn_body@);
        lemma_stream_view_index(fn_body@, 0);
        lemma_stream_view_index(fn_body@, 1);
        lemma_stream_view_index(fn_body@, 2);
        lemma_stream_view_index(fn_body@, 3);
        lemma_stream_view_index(fn_body@, 4);
        assert(stream_view(fn_body@) =~= seq![
            t_id("proc_macro_hack"@),
            t_pj(':'),
            t_p(':'),
            t_id("derive_expand"@),
            t_grp(Delim::Paren, seq![t_id("input"@), t_p(','), t_id_at(nv)]),
        ]);
    }
    let mut f: TokenStream = Vec::new();
    f.push(ident("pub", CALL_SITE_SPAN));
    f.push(ident("fn", CALL_SITE_SPAN));
    f.push(TokenTree::Ident { text: dummy.text.as_str().to_owned(), span: dummy.span });
    f.push(group(Delim::Paren, params, CALL_SITE_SPAN));
    f.push(punct_joint('-', CALL_SITE_SPAN));
    f.push(punct('>', CALL_SITE_SPAN));
    f.push(TokenTree::Ident { text: dummy.text.as_str().to_owned(), span: dummy.span });
    f.push(punct_joint(':', CALL_SITE_SPAN));
    f.push(punct(':', CALL_SITE_SPAN));
    f.push(ident("TokenStream", CALL_SITE_SPAN));
    f.push(group(Delim::Brace, fn_body, CALL_SITE_SPAN));
    proof {
        lemma_stream_view_len(f@);
        lemma_stream_view_index(f@, 0);
        lemma_stream_view_index(f@, 1);
        lemma_stream_view_index(f@, 2);
        lemma_stream_view_index(f@, 3);
        lemma_stream_view_index(f@, 4);
        lemma_stream_view_index(f@, 5);
        lemma_stream_view_index(f@, 6);
        lemma_stream_view_index(f@, 7);
        lemma_stream_view_index(f@, 8);
        lemma_stream_view_index(f@, 9);
        lemma_stream_view_index(f@, 10);
        assert(stream_view(f@) =~= spec_derive_fn(spec_actual_name(nv), nv));
    }
    extend(&mut r, f);
    let mut tailp: TokenStream = Vec::new();
    tailp.push(ident("fn", CALL_SITE_SPAN));
    tailp.push(TokenTree::Ident {
        text: define.name.text.as_str().to_owned(),
        span: define.name.span,
    });
    proof {
        lemma_stream_view_len(tailp@);
        lemma_stream_view_index(tailp@, 0);
        lemma_stream_view_index(tailp@, 1);
        assert(stream_view(tailp@) =~= seq![t_id("fn"@), t_id_at(nv)]);
    }
    extend(&mut r, tailp);
    extend(&mut r, define.body);
    r
}

/// What reading the span-rebinding helper's input yields: the derive
/// attribute's single identifier, and the rest of the stream.
pub open spec fn spec_parse_fake_call_site(ts: Seq<Tok>) -> Result<
    (IdentModel, Seq<Tok>),
    ErrModel,
> {
    if ts.len() >= 2 && crate::args::is_punct_ch(ts[0], '#') && crate::parse::is_group_delim(
        ts[1],
        Delim::Bracket,
    ) {
        let inner = group_tokens(ts[1]);
        if inner.len() == 2 && crate::parse::is_ident_text(inner[0], "derive"@)
            && crate::parse::is_group_delim(inner[1], Delim::Paren) {
            let inner2 = group_tokens(inner[1]);
            if inner2.len() == 1 && (inner2[0] is Ident) {
                Ok(
                    (
                        IdentModel {
                            text: crate::marker::ident_text(inner2[0]),
                            span: crate::token::tok_span(inner2[0]),
                        },
                        ts.subrange(2, ts.len() as int),
                    ),
                )
            } else {
                Err(crate::marker::marker_err())
            }
        } else {
            Err(crate::marker::marker_err())
        }
    } else {
        Err(crate::marker::marker_err())
    }
}

/// The tokens of a group; empty for the other kinds.
pub open spec fn group_tokens(t: Tok) -> Seq<Tok> {
    match t {
        Tok::Group { tokens, .. } => tokens,
        _ => Seq::empty(),
    }
}

/// What the span-rebinding helper yields: with no argument the input
/// passes through; otherwise the derive attribute is rebuilt with its
/// identifier rebound to the first argument token's span.
pub open spec fn spec_expand_fake_call_site(args: Seq<Tok>, input: Seq<Tok>) -> Result<
    Seq<Tok>,
    ErrModel,
> {
    if args.len() == 0 {
        Ok(input)
    } else {
        match spec_parse_fake_call_site(input) {
            Err(e) => Err(e),
            Ok(p) => Ok(
                spec_derive_attr(
                    seq![Tok::Ident { text: p.0.text, span: crate::token::tok_span(args[0]) }],
                ) + p.1,
            ),
        }
    }
}

/// Rebinds a derive attribute's span to the invocation's call site, so
/// identifiers the implementation synthesizes resolve in the caller's
/// scope.
pub fn expand_fake_call_site(args: &mut IterImpl, input: &mut IterImpl) -> (r: Result<
    TokenStream,
    Error,
>)
    ensures
        (match (r, spec_expand_fake_call_site(old(args)@, old(input)@)) {
            (Ok(o), Ok(s)) => stream_view(o@) == s,
            (Err(e), Err(m)) => e@ == m,
            _ => false,
        }),
{
    let span: Span = match args.next() {
        Some(token) => crate::token::tree_span(&token),
        None => {
            let rest = input.collect_rest();
            return Ok(rest);
        },
    };
    let ghost iv = old(input)@;
    let pound_ok: bool = match input.next() {
        Some(t) => crate::marker::tree_is_punct(&t, '#'),
        None => false,
    };
    if !pound_ok {
        return Err(Error::new(CALL_SITE_SPAN, "unexpected input"));
    }
    let inner: TokenStream = match input.next() {
        Some(t) => match t {
            TokenTree::Group { delim, tokens, .. } => {
                if delim == Delim::Bracket {
                    tokens
                } else {
                    return Err(Error::new(CALL_SITE_SPAN, "unexpected input"));
                }
            },
            _ => {
                return Err(Error::new(CALL_SITE_SPAN, "unexpected input"));
            },
        },
        None => {
            return Err(Error::new(CALL_SITE_SPAN, "unexpected input"));
        },
    };
    proof {
        lemma_stream_view_len(inner@);
    }
    if inner.len() != 2 {
        return Err(Error::new(CALL_SITE_SPAN, "unexpected input"));
    }
    proof {
        lemma_stream_view_index(inner@, 0);
        lemma_stream_view_index(inner@, 1);
    }
    let derive_ok: bool = match &inner[0] {
        TokenTree::Ident { text, .. } => crate::token::str_eq(text.as_str(), "derive"),
        _ => false,
    };
    if !derive_ok {
        return Err(Error::new(CALL_SITE_SPAN, "unexpected input"));
    }
    let derive_name: Ident = match &inner[1] {
        TokenTree::Group { delim, tokens, .. } => {
            if *delim != Delim::Paren {
                return Err(Error::new(CALL_SITE_SPAN, "unexpected input"));
            }
            proof {
                lemma_stream_view_len(tokens@);
            }
            if tokens.len() != 1 {
                return Err(Error::new(CALL_SITE_SPAN, "unexpected input"));
            }
            proof {
                lemma_stream_view_index(tokens@, 0);
            }
            match &tokens[0] {
                TokenTree::Ident { text, span: sp } => Ident {
                    text: text.as_str().to_owned(),
                    span: *sp,
                },
                _ => {
                    return Err(Error::new(CALL_SITE_SPAN, "unexpected input"));
                },
            }
        },
        _ => {
            return Err(Error::new(CALL_SITE_SPAN, "unexpected input"));
        },
    };
    let rest = input.collect_rest();
    let mut di: TokenStream = Vec::new();
    di.push(TokenTree::Ident { text: derive_name.text, span });
    proof {
        lemma_stream_view_len(di@);
        lemma_stream_view_index(di@, 0);
    }
    let mut out = build_derive_attr(di);
    extend(&mut out, rest);
    proof {
        assert(iv.subrange(2, iv.len() as int) =~= iv.subrange(1, iv.len() as int).subrange(
            1,
            iv.subrange(1, iv.len() as int).len() as int,
        ));
    }
    Ok(out)
}

/// What one whole fallback expansion yields.
pub open spec fn spec_fallback_expand(args: Seq<Tok>, input: Seq<Tok>) -> Result<
    Seq<Tok>,
    ErrModel,
> {
    match crate::parse::spec_parse_input(input) {
        Err(e) => Err(e),
        Ok(m) => match m {
            crate::parse::InputModel::Export(e) => match crate::args::spec_parse_export_args(
                args,
                crate::default_export_args(),
            ) {
                Err(e2) => Err(e2),
                Ok(a) => Ok(spec_expand_export(e, a)),
            },
            crate::parse::InputModel::Define(d) => {
                if args.len() > 0 {
                    Err(ErrModel {
                        span: crate::token::tok_span(args[0]),
                        msg: crate::args::define_args_msg(),
                    })
                } else {
                    Ok(spec_expand_define(d))
                }
            },
        },
    }
}

/// Unwrapping the uniqueness guard gives back exactly the expansion it
/// was wrapped around: the guard adds no token and loses none.
pub proof fn lemma_enum_hack_round_trip(dummy: Seq<char>, inner: Seq<Tok>)
    ensures
        crate::marker::spec_parse_enum_hack(spec_wrap_in_enum_hack(dummy, inner))
            == Ok::<_, ErrModel>(inner),
{
    let ts = spec_wrap_in_enum_hack(dummy, inner);
    assert(!crate::args::is_punct_ch(ts.subrange(2, ts.len() as int)[0], '#'));
    assert(crate::parse::spec_parse_attributes(ts.subrange(2, ts.len() as int)) == Ok::<
        _,
        ErrModel,
    >((Seq::<Tok>::empty(), ts.subrange(2, ts.len() as int))));
    let rest = ts.subrange(2, ts.len() as int);
    assert(rest.len() == 3);
    assert(rest[0] == ts[2] && rest[1] == ts[3] && rest[2] == ts[4]);
    assert(crate::marker::spec_unwrap_marker_enum(ts) == crate::marker::spec_unwrap_body(
        spec_marker_body(MarkerTag::Value, inner),
    ));
    crate::marker::lemma_unwrap_body_round_trip(MarkerTag::Value, inner);
}

/// How many tokens of a stream, at its top level, are an identifier with
/// the given name.
pub open spec fn count_ident(ts: Seq<Tok>, name: Seq<char>) -> nat
    decreases ts.len(),
{
    if ts.len() == 0 {
        0nat
    } else {
        (if crate::parse::is_ident_text(ts[0], name) {
            1nat
        } else {
            0nat
        }) + count_ident(ts.subrange(1, ts.len() as int), name)
    }
}

/// Identifier counting splits over concatenation.
pub proof fn lemma_count_ident_concat(a: Seq<Tok>, b: Seq<Tok>, name: Seq<char>)
    ensures
        count_ident(a + b, name) == count_ident(a, name) + count_ident(b, name),
    decreases a.len(),
{
    if a.len() == 0 {
        assert(a + b =~= b);
    } else {
        lemma_count_ident_concat(a.subrange(1, a.len() as int), b, name);
        assert((a + b).subrange(1, (a + b).len() as int) =~= a.subrange(1, a.len() as int) + b);
        assert((a + b)[0] == a[0]);
    }
}

/// A stream with no such identifier at its top level counts zero.
pub proof fn lemma_count_ident_zero(ts: Seq<Tok>, name: Seq<char>)
    requires
        forall|i: int| 0 <= i < ts.len() ==> !crate::parse::is_ident_text(#[trigger] ts[i], name),
    ensures
        count_ident(ts, name) == 0,
    decreases ts.len(),
{
    if ts.len() > 0 {
        lemma_count_ident_zero(ts.subrange(1, ts.len() as int), name);
    }
}

/// One alias-list item holds no `macro_rules` identifier: its fixed
/// names are shorter, and every mangled alias is longer.
proof fn lemma_item_count_zero(kind: ListKind, m: MacroModel)
    ensures
        count_ident(spec_list_item(kind, m), "macro_rules"@) == 0,
{
    reveal_strlit("macro_rules");
    reveal_strlit("dispatch");
    reveal_strlit("as");
    reveal_strlit("fake_call_site");
    reveal_strlit("proc_macro_hack_");
    reveal_strlit("proc_macro_call_");
    reveal_strlit("proc_macro_fake_call_site_");
    let nm = "macro_rules"@;
    let item = spec_list_item(kind, m);
    assert(("proc_macro_hack_"@ + m.name.text).len() >= 16);
    assert(("proc_macro_call_"@ + m.name.text).len() >= 16);
    assert(("proc_macro_fake_call_site_"@ + m.name.text).len() >= 26);
    assert forall|i: int| 0 <= i < item.len() implies !crate::parse::is_ident_text(
        #[trigger] item[i],
        nm,
    ) by {
        reveal_strlit("macro_rules");
        reveal_strlit("dispatch");
        reveal_strlit("as");
        reveal_strlit("fake_call_site");
        reveal_strlit("proc_macro_hack_");
        reveal_strlit("proc_macro_call_");
        reveal_strlit("proc_macro_fake_call_site_");
        assert(("proc_macro_hack_"@ + m.name.text).len() >= 16);
        assert(("proc_macro_call_"@ + m.name.text).len() >= 16);
        assert(("proc_macro_fake_call_site_"@ + m.name.text).len() >= 26);
        assert("macro_rules"@.len() == 11);
        match kind {
            ListKind::Actual => {
                assert(item[i] == t_id_at(spec_actual_name(m.name)));
            },
            ListKind::Dispatch => {
                if i == 0 {
                    assert(item[i] == t_id("dispatch"@));
                } else if i == 1 {
                    assert(item[i] == t_id("as"@));
                } else {
                    assert(item[i] == t_id_at(spec_dispatch_name(m.name)));
                }
            },
            ListKind::CallSite => {
                if i == 0 {
                    assert(item[i] == t_id("fake_call_site"@));
                } else if i == 1 {
                    assert(item[i] == t_id("as"@));
                } else {
                    assert(item[i] == t_id_at(spec_call_site_name(m.name)));
                }
            },
        }
        assert(!crate::parse::is_ident_text(item[i], "macro_rules"@));
    }
    lemma_count_ident_zero(item, nm);
}

/// An alias list, as it stands in a `use` item, holds no `macro_rules`
/// identifier at its top level.
proof fn lemma_names_count_zero(kind: ListKind, ms: Seq<MacroModel>)
    requires
        ms.len() >= 1,
    ensures
        count_ident(spec_names_tokens(kind, ms), "macro_rules"@) == 0,
{
    let nm = "macro_rules"@;
    if ms.len() == 1 {
        lemma_item_count_zero(kind, ms[0]);
    } else {
        let g = spec_names_tokens(kind, ms);
        assert forall|i: int| 0 <= i < g.len() implies !crate::parse::is_ident_text(
            #[trigger] g[i],
            nm,
        ) by {
            assert(g[i] == t_grp(Delim::Brace, spec_name_list(kind, ms)));
            assert(!crate::parse::is_ident_text(g[i], nm));
        }

        lemma_count_ident_zero(g, nm);
    }
}

/// No identifier of the generated re-exports is spelled `macro_rules`.
proof fn lemma_reexport_counts_zero(e: ExportModel, args: ExportArgs)
    requires
        e.macros.len() >= 1,
        e.from.text != "macro_rules"@,
    ensures
        count_ident(spec_hidden_reexport(e), "macro_rules"@) == 0,
        count_ident(spec_dispatch_reexport(e, args), "macro_rules"@) == 0,
        count_ident(spec_call_site_reexport(e, args), "macro_rules"@) == 0,
{
    reveal_strlit("macro_rules");
    reveal_strlit("pub");
    reveal_strlit("use");
    reveal_strlit("proc_macro_nested");
    reveal_strlit("proc_macro_hack");
    let nm = "macro_rules"@;
    assert forall|i: int| 0 <= i < doc_hidden().len() implies !crate::parse::is_ident_text(
        #[trigger] doc_hidden()[i],
        nm,
    ) by {
        if i == 0 {
            assert(doc_hidden()[i] == t_p('#'));
        } else {
            assert(doc_hidden()[i] == doc_hidden()[1]);
            assert(doc_hidden()[1] is Group);
        }
    }
    lemma_count_ident_zero(doc_hidden(), nm);
    assert forall|i: int| 0 <= i < vis_tokens(e.vis).len() implies !crate::parse::is_ident_text(
        #[trigger] vis_tokens(e.vis)[i],
        nm,
    ) by {
        reveal_strlit("macro_rules");
        reveal_strlit("pub");
        assert("macro_rules"@.len() == 11);
        assert("pub"@.len() == 3);
        match e.vis {
            Some(sp) => {
                assert(vis_tokens(e.vis)[i] == (Tok::Ident { text: "pub"@, span: sp }));
            },
            None => {},
        }
        assert(!crate::parse::is_ident_text(vis_tokens(e.vis)[i], nm));
    }
    lemma_count_ident_zero(vis_tokens(e.vis), nm);
    let head = seq![t_id("use"@), t_id_at(e.from), t_pj(':'), t_p(':')];
    assert forall|i: int| 0 <= i < head.len() implies !crate::parse::is_ident_text(
        #[trigger] head[i],
        nm,
    ) by {
        reveal_strlit("macro_rules");
        reveal_strlit("use");
        assert("macro_rules"@.len() == 11);
        assert("use"@.len() == 3);
        if i == 0 {
            assert(head[i] == t_id("use"@));
        } else if i == 1 {
            assert(head[i] == t_id_at(e.from));
        } else if i == 2 {
            assert(head[i] == t_pj(':'));
        } else {
            assert(head[i] == t_p(':'));
        }
        assert(!crate::parse::is_ident_text(head[i], nm));
    }
    lemma_count_ident_zero(head, nm);
    lemma_names_count_zero(ListKind::Actual, e.macros);
    lemma_count_ident_zero(seq![t_p(';')], nm);
    lemma_count_ident_concat(doc_hidden(), vis_tokens(e.vis), nm);
    lemma_count_ident_concat(doc_hidden() + vis_tokens(e.vis), head, nm);
    lemma_count_ident_concat(
        doc_hidden() + vis_tokens(e.vis) + head,
        spec_names_tokens(ListKind::Actual, e.macros),
        nm,
    );
    lemma_count_ident_concat(
        doc_hidden() + vis_tokens(e.vis) + head + spec_names_tokens(ListKind::Actual, e.macros),
        seq![t_p(';')],
        nm,
    );
    assert(count_ident(spec_hidden_reexport(e), nm) == 0);
    if args.support_nested {
        let head2 = seq![t_id("use"@), t_id("proc_macro_nested"@), t_pj(':'), t_p(':')];
        assert forall|i: int| 0 <= i < head2.len() implies !crate::parse::is_ident_text(
            #[trigger] head2[i],
            nm,
        ) by {
            reveal_strlit("macro_rules");
            reveal_strlit("use");
            reveal_strlit("proc_macro_nested");
            assert("macro_rules"@.len() == 11);
            assert("use"@.len() == 3);
            assert("proc_macro_nested"@.len() == 17);
            if i == 0 {
                assert(head2[i] == t_id("use"@));
            } else if i == 1 {
                assert(head2[i] == t_id("proc_macro_nested"@));
            } else if i == 2 {
                assert(head2[i] == t_pj(':'));
            } else {
                assert(head2[i] == t_p(':'));
            }
            assert(!crate::parse::is_ident_text(head2[i], nm));
        }
        lemma_count_ident_zero(head2, nm);
        lemma_names_count_zero(ListKind::Dispatch, e.macros);
        lemma_count_ident_concat(doc_hidden(), vis_tokens(e.vis), nm);
        lemma_count_ident_concat(doc_hidden() + vis_tokens(e.vis), head2, nm);
        lemma_count_ident_concat(
            doc_hidden() + vis_tokens(e.vis) + head2,
            spec_names_tokens(ListKind::Dispatch, e.macros),
            nm,
        );
        lemma_count_ident_concat(
            doc_hidden() + vis_tokens(e.vis) + head2 + spec_names_tokens(
                ListKind::Dispatch,
                e.macros,
            ),
            seq![t_p(';')],
            nm,
        );
    }
    assert(count_ident(spec_dispatch_reexport(e, args), nm) == 0);
    if args.fake_call_site {
        let head3 = seq![t_id("use"@), t_id("proc_macro_hack"@), t_pj(':'), t_p(':')];
        assert forall|i: int| 0 <= i < head3.len() implies !crate::parse::is_ident_text(
            #[trigger] head3[i],
            nm,
        ) by {
            reveal_strlit("macro_rules");
            reveal_strlit("use");
            reveal_strlit("proc_macro_hack");
            assert("macro_rules"@.len() == 11);
            assert("use"@.len() == 3);
            assert("proc_macro_hack"@.len() == 15);
            if i == 0 {
                assert(head3[i] == t_id("use"@));
            } else if i == 1 {
                assert(head3[i] == t_id("proc_macro_hack"@));
            } else if i == 2 {
                assert(head3[i] == t_pj(':'));
            } else {
                assert(head3[i] == t_p(':'));
            }
            assert(!crate::parse::is_ident_text(head3[i], nm));
        }
        lemma_count_ident_zero(head3, nm);
        lemma_names_count_zero(ListKind::CallSite, e.macros);
        lemma_count_ident_concat(doc_hidden(), vis_tokens(e.vis), nm);
        lemma_count_ident_concat(doc_hidden() + vis_tokens(e.vis), head3, nm);
        lemma_count_ident_concat(
            doc_hidden() + vis_tokens(e.vis) + head3,
            spec_names_tokens(ListKind::CallSite, e.macros),
            nm,
        );
        lemma_count_ident_concat(
            doc_hidden() + vis_tokens(e.vis) + head3 + spec_names_tokens(
                ListKind::CallSite,
                e.macros,
            ),
            seq![t_p(';')],
            nm,
        );
    }
    assert(count_ident(spec_call_site_reexport(e, args), nm) == 0);
}

/// One wrapper macro holds exactly one `macro_rules` definition.
proof fn lemma_macro_def_count(m: MacroModel, e: ExportModel, args: ExportArgs)
    requires
        forall|i: int| 0 <= i < e.attrs.len() ==> !((#[trigger] e.attrs[i]) is Ident),
        m.export_as.text != "macro_rules"@,
    ensures
        count_ident(spec_macro_def(m, e, args), "macro_rules"@) == 1,
{
    let nm = "macro_rules"@;
    let mid = seq![
        t_id("macro_rules"@),
        t_p('!'),
        t_id_at(m.export_as),
        t_grp(
            Delim::Brace,
            seq![
                t_grp(Delim::Paren, matcher_tokens()),
                t_pj('='),
                t_p('>'),
                t_grp(
                    Delim::Brace,
                    seq![t_grp(Delim::Brace, spec_wrapper_block(m, e.vis, args))],
                ),
                t_p(';'),
            ],
        ),
    ];
    assert forall|i: int| 0 <= i < e.attrs.len() implies !crate::parse::is_ident_text(
        #[trigger] e.attrs[i],
        nm,
    ) by {}
    lemma_count_ident_zero(e.attrs, nm);
    assert forall|i: int| 0 <= i < macro_export_tokens(e.vis).len()
        implies !crate::parse::is_ident_text(#[trigger] macro_export_tokens(e.vis)[i], nm) by {
        reveal_strlit("macro_export");
        reveal_strlit("macro_rules");
    }
    lemma_count_ident_zero(macro_export_tokens(e.vis), nm);
    assert(mid.subrange(1, 4).subrange(1, 3) =~= mid.subrange(2, 4));
    assert(mid.subrange(2, 4).subrange(1, 2) =~= mid.subrange(3, 4));
    assert(mid.subrange(3, 4).subrange(1, 1) =~= Seq::<Tok>::empty());
    assert(count_ident(Seq::<Tok>::empty(), nm) == 0);
    assert(count_ident(mid.subrange(3, 4), nm) == 0);
    assert(count_ident(mid.subrange(2, 4), nm) == 0);
    assert(count_ident(mid.subrange(1, 4), nm) == 0);
    assert(mid.subrange(1, mid.len() as int) =~= mid.subrange(1, 4));
    assert(crate::parse::is_ident_text(mid[0], nm));
    assert(count_ident(mid, nm) == 1);
    lemma_count_ident_concat(e.attrs, macro_export_tokens(e.vis), nm);
    lemma_count_ident_concat(e.attrs + macro_export_tokens(e.vis), mid, nm);
    assert(spec_macro_def(m, e, args) =~= (e.attrs + macro_export_tokens(e.vis)) + mid);
}

/// The wrapper macros of a re-export hold one definition per pair.
proof fn lemma_macro_defs_count(ms: Seq<MacroModel>, e: ExportModel, args: ExportArgs)
    requires
        forall|i: int| 0 <= i < e.attrs.len() ==> !((#[trigger] e.attrs[i]) is Ident),
        forall|i: int| 0 <= i < ms.len() ==> (#[trigger] ms[i]).export_as.text != "macro_rules"@,
    ensures
        count_ident(spec_macro_defs(ms, e, args), "macro_rules"@) == ms.len(),
    decreases ms.len(),
{
    if ms.len() == 0 {
    } else {
        lemma_macro_def_count(ms[0], e, args);
        lemma_macro_defs_count(ms.subrange(1, ms.len() as int), e, args);
        lemma_count_ident_concat(
            spec_macro_def(ms[0], e, args),
            spec_macro_defs(ms.subrange(1, ms.len() as int), e, args),
            "macro_rules"@,
        );
    }
}

/// A well-formed re-export of N macro pairs expands, inside its
/// uniqueness guard, to exactly N `macro_rules` definitions — no pair is
/// dropped and none is emitted twice. (The hidden re-export items and
/// their aliases are pinned, one per pair, by the exact output
/// specification itself.)
pub proof fn lemma_export_macro_def_count(e: ExportModel, args: ExportArgs)
    requires
        e.macros.len() >= 1,
        forall|i: int| 0 <= i < e.attrs.len() ==> !((#[trigger] e.attrs[i]) is Ident),
        e.from.text != "macro_rules"@,
        forall|i: int| 0 <= i < e.macros.len() ==> (#[trigger] e.macros[i]).export_as.text
            != "macro_rules"@,
    ensures
        count_ident(spec_export_inner(e, args), "macro_rules"@) == e.macros.len(),
{
    let nm = "macro_rules"@;
    lemma_reexport_counts_zero(e, args);
    lemma_macro_defs_count(e.macros, e, args);
    lemma_count_ident_concat(spec_hidden_reexport(e), spec_dispatch_reexport(e, args), nm);
    lemma_count_ident_concat(
        spec_hidden_reexport(e) + spec_dispatch_reexport(e, args),
        spec_call_site_reexport(e, args),
        nm,
    );
    lemma_count_ident_concat(
        spec_hidden_reexport(e) + spec_dispatch_reexport(e, args) + spec_call_site_reexport(
            e,
            args,
        ),
        spec_macro_defs(e.macros, e, args),
        nm,
    );
}

/// What a name must look like to enter the guard name: nonempty, and not
/// opening with a digit — true of every identifier.
pub open spec fn wf_name(s: Seq<char>) -> bool {
    s.len() >= 1 && !crate::digits::is_digit(s[0])
}

/// A digit run followed by a non-digit boundary cuts a concatenation in
/// only one way.
proof fn lemma_digit_run_unique(d1: Seq<char>, b1: Seq<char>, d2: Seq<char>, b2: Seq<char>)
    requires
        crate::digits::all_digits(d1),
        crate::digits::all_digits(d2),
        b1.len() > 0 ==> !crate::digits::is_digit(b1[0]),
        b2.len() > 0 ==> !crate::digits::is_digit(b2[0]),
        d1 + b1 == d2 + b2,
    ensures
        d1 == d2,
        b1 == b2,
{
    if d1.len() < d2.len() {
        assert(b1.len() > 0);
        assert((d1 + b1)[d1.len() as int] == b1[0]);
        assert((d2 + b2)[d1.len() as int] == d2[d1.len() as int]);
        assert(crate::digits::is_digit(d2[d1.len() as int]));
        assert(false);
    } else if d2.len() < d1.len() {
        assert(b2.len() > 0);
        assert((d2 + b2)[d2.len() as int] == b2[0]);
        assert((d1 + b1)[d2.len() as int] == d1[d2.len() as int]);
        assert(crate::digits::is_digit(d1[d2.len() as int]));
        assert(false);
    } else {
        assert forall|i: int| 0 <= i < d1.len() implies d1[i] == d2[i] by {
            assert((d1 + b1)[i] == d1[i]);
            assert((d2 + b2)[i] == d2[i]);
        }
        assert(d1 =~= d2);
        assert((d1 + b1).len() == d1.len() + b1.len());
        assert((d2 + b2).len() == d2.len() + b2.len());
        assert((d1 + b1).len() == (d2 + b2).len());
        assert(d1.len() == d2.len());
        assert(b1.len() == b2.len());
        assert forall|i: int| 0 <= i < b1.len() implies b1[i] == b2[i] by {
            assert((d1 + b1)[d1.len() + i] == b1[i]);
            assert((d2 + b2)[d2.len() + i] == b2[i]);
        }
        assert(b1 =~= b2);
    }
}

/// A length-prefixed segment cuts a concatenation in only one way.
proof fn lemma_seg_unique(s1: Seq<char>, r1: Seq<char>, s2: Seq<char>, r2: Seq<char>)
    requires
        wf_name(s1),
        wf_name(s2),
        spec_seg(s1) + r1 == spec_seg(s2) + r2,
    ensures
        s1 == s2,
        r1 == r2,
{
    crate::digits::lemma_dec_digits(s1.len());
    crate::digits::lemma_dec_digits(s2.len());
    let d1 = dec_digits(s1.len());
    let d2 = dec_digits(s2.len());
    let t1 = d1 + (s1 + r1);
    let t2 = d2 + (s2 + r2);
    assert(spec_seg(s1) + r1 =~= seq!['_'] + t1);
    assert(spec_seg(s2) + r2 =~= seq!['_'] + t2);
    assert forall|i: int| 0 <= i < t1.len() implies t1[i] == t2[i] by {
        assert((seq!['_'] + t1)[i + 1] == t1[i]);
        assert((seq!['_'] + t2)[i + 1] == t2[i]);
    }
    assert(t1 =~= t2);
    lemma_digit_run_unique(d1, s1 + r1, d2, s2 + r2);
    crate::digits::lemma_dec_digits_injective(s1.len(), s2.len());
    assert forall|i: int| 0 <= i < s1.len() implies s1[i] == s2[i] by {
        assert((s1 + r1)[i] == s1[i]);
        assert((s2 + r2)[i] == s2[i]);
    }
    assert(s1 =~= s2);
    assert forall|i: int| 0 <= i < r1.len() implies r1[i] == r2[i] by {
        assert((s1 + r1)[s1.len() + i] == r1[i]);
        assert((s2 + r2)[s2.len() + i] == r2[i]);
    }
    assert(r1 =~= r2);
}

/// Equal segment tails name the same macros in the same order.
proof fn lemma_dummy_tail_injective(ms1: Seq<MacroModel>, ms2: Seq<MacroModel>)
    requires
        forall|i: int| 0 <= i < ms1.len() ==> wf_name(
            unraw_text((#[trigger] ms1[i]).name.text),
        ),
        forall|i: int| 0 <= i < ms2.len() ==> wf_name(
            unraw_text((#[trigger] ms2[i]).name.text),
        ),
        spec_dummy_tail(ms1) == spec_dummy_tail(ms2),
    ensures
        ms1.len() == ms2.len(),
        forall|i: int| 0 <= i < ms1.len() ==> unraw_text((#[trigger] ms1[i]).name.text)
            == unraw_text(ms2[i].name.text),
    decreases ms1.len(),
{
    if ms1.len() == 0 && ms2.len() == 0 {
    } else if ms1.len() == 0 {
        crate::digits::lemma_dec_digits(unraw_text(ms2[0].name.text).len());
        assert(spec_dummy_tail(ms2).len() > 0);
        assert(false);
    } else if ms2.len() == 0 {
        crate::digits::lemma_dec_digits(unraw_text(ms1[0].name.text).len());
        assert(spec_dummy_tail(ms1).len() > 0);
        assert(false);
    } else {
        let u1 = unraw_text(ms1[0].name.text);
        let u2 = unraw_text(ms2[0].name.text);
        let rest1 = ms1.subrange(1, ms1.len() as int);
        let rest2 = ms2.subrange(1, ms2.len() as int);
        lemma_seg_unique(u1, spec_dummy_tail(rest1), u2, spec_dummy_tail(rest2));
        lemma_dummy_tail_injective(rest1, rest2);
        assert forall|i: int| 0 <= i < ms1.len() implies unraw_text(
            (#[trigger] ms1[i]).name.text,
        ) == unraw_text(ms2[i].name.text) by {
            if i > 0 {
                assert(rest1[i - 1] == ms1[i]);
                assert(rest2[i - 1] == ms2[i]);
            }
        }
    }
}

/// The uniqueness-guard property: two re-exports get the same guard name
/// only when they re-export the same names from the same module, so
/// distinct exports expanded in one scope never collide on the one
/// top-level identifier each expansion introduces. (Identifiers never
/// begin with a digit, which is all the length-prefix encoding needs.)
pub proof fn lemma_dummy_name_injective(e1: ExportModel, e2: ExportModel)
    requires
        wf_name(unraw_text(e1.from.text)),
        wf_name(unraw_text(e2.from.text)),
        forall|i: int| 0 <= i < e1.macros.len() ==> wf_name(
            unraw_text((#[trigger] e1.macros[i]).name.text),
        ),
        forall|i: int| 0 <= i < e2.macros.len() ==> wf_name(
            unraw_text((#[trigger] e2.macros[i]).name.text),
        ),
        spec_dummy_name(e1) == spec_dummy_name(e2),
    ensures
        unraw_text(e1.from.text) == unraw_text(e2.from.text),
        e1.macros.len() == e2.macros.len(),
        forall|i: int| 0 <= i < e1.macros.len() ==> unraw_text(
            (#[trigger] e1.macros[i]).name.text,
        ) == unraw_text(e2.macros[i].name.text),
{
    lemma_seg_unique(
        unraw_text(e1.from.text),
        spec_dummy_tail(e1.macros),
        unraw_text(e2.from.text),
        spec_dummy_tail(e2.macros),
    );
    lemma_dummy_tail_injective(e1.macros, e2.macros);
}

/// A whole re-export expansion, unwrapped from its guard, holds exactly
/// one wrapper-macro definition per exported pair.
pub proof fn lemma_export_expansion_counts(e: ExportModel, args: ExportArgs)
    requires
        e.macros.len() >= 1,
        forall|i: int| 0 <= i < e.attrs.len() ==> !((#[trigger] e.attrs[i]) is Ident),
        e.from.text != "macro_rules"@,
        forall|i: int| 0 <= i < e.macros.len() ==> (#[trigger] e.macros[i]).export_as.text
            != "macro_rules"@,
    ensures
        crate::marker::spec_parse_enum_hack(spec_expand_export(e, args)) == Ok::<_, ErrModel>(
            spec_export_inner(e, args),
        ),
        count_ident(spec_export_inner(e, args), "macro_rules"@) == e.macros.len(),
{
    lemma_enum_hack_round_trip(spec_dummy_name(e), spec_export_inner(e, args));
    lemma_export_macro_def_count(e, args);
}

/// Expands one attribute invocation on the fallback path.
pub fn expand_proc_macro_hack(args: &mut IterImpl, input: TokenStream) -> (r: Result<
    TokenStream,
    Error,
>)
    ensures
        (match (r, spec_fallback_expand(old(args)@, stream_view(input@))) {
            (Ok(o), Ok(s)) => stream_view(o@) == s,
            (Err(e), Err(m)) => e@ == m,
            _ => false,
        }),
{
    let ghost iv = stream_view(input@);
    let mut it = crate::iter::new(input);
    match crate::parse::parse_input(&mut it) {
        Err(e) => Err(e),
        Ok(crate::parse::Input::Export(export)) => {
            match crate::args::parse_export_args(args) {
                Err(e) => Err(e),
                Ok(a) => {
                    proof {
                        crate::parse::lemma_input_export_nonempty(iv);
                    }
                    Ok(expand_export(export, a))
                },
            }
        },
        Ok(crate::parse::Input::Define(define)) => {
            match crate::args::parse_define_args(args) {
                Err(e) => Err(e),
                Ok(u) => Ok(expand_define(define)),
            }
        },
    }
}


} // verus!
