//! The input classifier and structured parsers: leading attributes and an
//! optional `pub` marker are read first, then the next keyword decides
//! between the two recognized shapes — a re-export declaration (`use`) or
//! a function definition (`fn`). Anything else fails closed.

use vstd::prelude::*;
use crate::{Span, Visibility, CALL_SITE_SPAN};
use crate::args::{expected_punct_msg, is_punct_ch, punct_err_span};
use crate::error::{Error, ErrModel};
use crate::iter::IterImpl;
use crate::token::{lemma_stream_view_concat, lemma_stream_view_len, str_eq, stream_view, tok_span,
    tree_span, Delim, Tok, TokenStream, TokenTree};

verus! {

/// An identifier with its span.
#[derive(Debug)]
pub struct Ident {
    pub text: String,
    pub span: Span,
}

/// The model of an identifier.
pub struct IdentModel {
    pub text: Seq<char>,
    pub span: Span,
}

impl View for Ident {
    type V = IdentModel;

    open spec fn view(&self) -> IdentModel {
        IdentModel { text: self.text@, span: self.span }
    }
}

/// One exported macro: its internal name and the name it is exported as.
#[derive(Debug)]
pub struct Macro {
    pub name: Ident,
    pub export_as: Ident,
}

/// The model of one exported macro.
pub struct MacroModel {
    pub name: IdentModel,
    pub export_as: IdentModel,
}

impl View for Macro {
    type V = MacroModel;

    open spec fn view(&self) -> MacroModel {
        MacroModel { name: self.name@, export_as: self.export_as@ }
    }
}

/// A re-export declaration: `pub use from::{name as alias, ...};`.
#[derive(Debug)]
pub struct Export {
    pub attrs: TokenStream,
    pub vis: Visibility,
    pub from: Ident,
    pub macros: Vec<Macro>,
}

/// The model of a re-export declaration.
pub struct ExportModel {
    pub attrs: Seq<Tok>,
    pub vis: Visibility,
    pub from: IdentModel,
    pub macros: Seq<MacroModel>,
}

impl View for Export {
    type V = ExportModel;

    open spec fn view(&self) -> ExportModel {
        ExportModel {
            attrs: stream_view(self.attrs@),
            vis: self.vis,
            from: self.from@,
            macros: self.macros@.map_values(|m: Macro| m@),
        }
    }
}

/// A function definition to become the implementation: `pub fn name ...`.
#[derive(Debug)]
pub struct Define {
    pub attrs: TokenStream,
    pub name: Ident,
    pub body: TokenStream,
}

/// The model of a function definition.
pub struct DefineModel {
    pub attrs: Seq<Tok>,
    pub name: IdentModel,
    pub body: Seq<Tok>,
}

impl View for Define {
    type V = DefineModel;

    open spec fn view(&self) -> DefineModel {
        DefineModel {
            attrs: stream_view(self.attrs@),
            name: self.name@,
            body: stream_view(self.body@),
        }
    }
}

/// The two recognized shapes.
#[derive(Debug)]
pub enum Input {
    Export(Export),
    Define(Define),
}

/// The model of a recognized shape.
pub enum InputModel {
    Export(ExportModel),
    Define(DefineModel),
}

impl View for Input {
    type V = InputModel;

    open spec fn view(&self) -> InputModel {
        match self {
            Input::Export(e) => InputModel::Export(e@),
            Input::Define(d) => InputModel::Define(d@),
        }
    }
}

/// The message for a token that fits no recognized place.
pub open spec fn unexpected_input_msg() -> Seq<char> {
    "unexpected input"@
}

/// The message for input that is neither of the two shapes.
pub open spec fn unexpected_shape_msg() -> Seq<char> {
    "unexpected input to #[proc_macro_hack]"@
}

/// The message for a missing identifier.
pub open spec fn expected_ident_msg() -> Seq<char> {
    "expected identifier"@
}

/// The message for a function definition that is not public.
pub open spec fn must_be_pub_msg() -> Seq<char> {
    "functions tagged with `#[proc_macro_hack]` must be `pub`"@
}

/// Whether a token is an identifier with the given text.
pub open spec fn is_ident_text(t: Tok, s: Seq<char>) -> bool {
    match t {
        Tok::Ident { text, .. } => text == s,
        _ => false,
    }
}

/// Whether a token is a group with the given delimiter.
pub open spec fn is_group_delim(t: Tok, d: Delim) -> bool {
    match t {
        Tok::Group { delim, .. } => delim == d,
        _ => false,
    }
}

/// What reading leading `#[...]` attribute pairs yields: the attribute
/// tokens and the rest of the stream. A `#` not followed by a bracketed
/// group is unexpected input at the `#`.
pub open spec fn spec_parse_attributes(ts: Seq<Tok>) -> Result<(Seq<Tok>, Seq<Tok>), ErrModel>
    decreases ts.len(),
{
    if ts.len() > 0 && is_punct_ch(ts[0], '#') {
        if ts.len() > 1 && is_group_delim(ts[1], Delim::Bracket) {
            match spec_parse_attributes(ts.subrange(2, ts.len() as int)) {
                Err(e) => Err(e),
                Ok(p) => Ok((seq![ts[0], ts[1]] + p.0, p.1)),
            }
        } else {
            Err(ErrModel { span: tok_span(ts[0]), msg: unexpected_input_msg() })
        }
    } else {
        Ok((Seq::empty(), ts))
    }
}

/// What reading an optional `pub` marker yields: its span if present, and
/// the rest of the stream.
pub open spec fn spec_parse_visibility(ts: Seq<Tok>) -> (Option<Span>, Seq<Tok>) {
    if ts.len() > 0 && is_ident_text(ts[0], "pub"@) {
        (Some(tok_span(ts[0])), ts.subrange(1, ts.len() as int))
    } else {
        (None, ts)
    }
}

/// What reading one identifier yields: the identifier and the rest, or
/// the best span to blame.
pub open spec fn spec_parse_ident(ts: Seq<Tok>) -> Result<(IdentModel, Seq<Tok>), ErrModel> {
    if ts.len() == 0 {
        Err(ErrModel { span: CALL_SITE_SPAN, msg: expected_ident_msg() })
    } else {
        match ts[0] {
            Tok::Ident { text, span } => Ok(
                (IdentModel { text, span }, ts.subrange(1, ts.len() as int)),
            ),
            t => Err(ErrModel { span: tok_span(t), msg: expected_ident_msg() }),
        }
    }
}

/// Reads leading `#[...]` attribute pairs, handing back their raw tokens.
pub fn parse_attributes(tokens: &mut IterImpl) -> (r: Result<TokenStream, Error>)
    ensures
        (match (r, spec_parse_attributes(old(tokens)@)) {
            (Ok(attrs), Ok(p)) => stream_view(attrs@) == p.0 && final(tokens)@ == p.1,
            (Err(e), Err(m)) => e@ == m,
            _ => false,
        }),
    decreases old(tokens)@.len(),
{
    let start_pound: bool = match tokens.peek() {
        Some(t) => match t {
            TokenTree::Punct { ch, .. } => *ch == '#',
            _ => false,
        },
        None => false,
    };
    if !start_pound {
        let empty: TokenStream = Vec::new();
        proof {
            assert(stream_view(empty@) =~= Seq::<Tok>::empty());
        }
        return Ok(empty);
    }
    let pound = match tokens.next() {
        Some(t) => t,
        None => {
            proof {
                assert(false);
            }
            return Err(Error::new(CALL_SITE_SPAN, "unexpected input"));
        },
    };
    let span = tree_span(&pound);
    let is_bracket: bool = match tokens.peek() {
        Some(t) => match t {
            TokenTree::Group { delim, .. } => *delim == Delim::Bracket,
            _ => false,
        },
        None => false,
    };
    if !is_bracket {
        return Err(Error::new(span, "unexpected input"));
    }
    let grp = match tokens.next() {
        Some(t) => t,
        None => {
            proof {
                assert(false);
            }
            return Err(Error::new(CALL_SITE_SPAN, "unexpected input"));
        },
    };
    let ghost mid = tokens@;
    proof {
        assert(mid =~= old(tokens)@.subrange(2, old(tokens)@.len() as int));
    }
    match parse_attributes(tokens) {
        Err(e) => Err(e),
        Ok(tail) => {
            let ghost tail_seq = tail@;
            let mut out: TokenStream = Vec::new();
            out.push(pound);
            out.push(grp);
            let mut tail2 = tail;
            out.append(&mut tail2);
            proof {
                lemma_stream_view_concat(out@.subrange(0, 2), out@.subrange(2, out@.len() as int));
                assert(out@.subrange(0, 2) + out@.subrange(2, out@.len() as int) =~= out@);
                assert(stream_view(out@) =~= stream_view(out@.subrange(0, 2)) + stream_view(
                    out@.subrange(2, out@.len() as int),
                ));
                lemma_stream_view_len(out@.subrange(0, 2));
                crate::token::lemma_stream_view_index(out@.subrange(0, 2), 0);
                crate::token::lemma_stream_view_index(out@.subrange(0, 2), 1);
                assert(stream_view(out@.subrange(0, 2)) =~= seq![old(tokens)@[0], old(tokens)@[1]]);
                assert(out@.subrange(2, out@.len() as int) =~= tail_seq);
                assert(stream_view(out@) =~= spec_parse_attributes(old(tokens)@)->Ok_0.0);
            }
            Ok(out)
        },
    }
}

/// Reads an optional `pub` marker, handing back its span if present.
pub fn parse_visibility(tokens: &mut IterImpl) -> (r: Visibility)
    ensures
        r == spec_parse_visibility(old(tokens)@).0,
        final(tokens)@ == spec_parse_visibility(old(tokens)@).1,
{
    let is_pub: bool = match tokens.peek() {
        Some(t) => match t {
            TokenTree::Ident { text, .. } => str_eq(text.as_str(), "pub"),
            _ => false,
        },
        None => false,
    };
    if is_pub {
        match tokens.next() {
            Some(t) => Some(tree_span(&t)),
            None => {
                proof {
                    assert(false);
                }
                None
            },
        }
    } else {
        None
    }
}

/// Reads one identifier, or reports what was expected.
pub fn parse_ident(tokens: &mut IterImpl) -> (r: Result<Ident, Error>)
    ensures
        (match (r, spec_parse_ident(old(tokens)@)) {
            (Ok(id), Ok(p)) => id@ == p.0 && final(tokens)@ == p.1,
            (Err(e), Err(m)) => e@ == m,
            _ => false,
        }),
{
    match tokens.next() {
        Some(tt) => match tt {
            TokenTree::Ident { text, span } => Ok(Ident { text, span }),
            other => Err(Error::new(tree_span(&other), "expected identifier")),
        },
        None => Err(Error::new(CALL_SITE_SPAN, "expected identifier")),
    }
}

/// A copy of an identifier.
pub fn clone_ident(i: &Ident) -> (r: Ident)
    ensures
        r@ == i@,
{
    Ident { text: i.text.as_str().to_owned(), span: i.span }
}

/// What a comma-separated list of `name` / `name as alias` items yields.
/// The list must be nonempty and consume the whole stream; one trailing
/// comma is tolerated.
pub open spec fn spec_parse_macro_list(ts: Seq<Tok>) -> Result<Seq<MacroModel>, ErrModel>
    decreases ts.len(), 1int,
{
    if ts.len() == 0 {
        Err(ErrModel { span: CALL_SITE_SPAN, msg: expected_ident_msg() })
    } else {
        match ts[0] {
            Tok::Ident { text, span } => {
                let name = IdentModel { text, span };
                let rest = ts.subrange(1, ts.len() as int);
                if rest.len() > 0 && is_ident_text(rest[0], "as"@) {
                    if rest.len() == 1 {
                        Err(ErrModel { span: CALL_SITE_SPAN, msg: expected_ident_msg() })
                    } else {
                        match rest[1] {
                            Tok::Ident { text: alias_text, span: alias_span } => {
                                let alias = IdentModel { text: alias_text, span: alias_span };
                                spec_macro_list_tail(
                                    rest.subrange(2, rest.len() as int),
                                    MacroModel { name, export_as: alias },
                                )
                            },
                            t => Err(ErrModel { span: tok_span(t), msg: expected_ident_msg() }),
                        }
                    }
                } else {
                    spec_macro_list_tail(rest, MacroModel { name, export_as: name })
                }
            },
            t => Err(ErrModel { span: tok_span(t), msg: expected_ident_msg() }),
        }
    }
}

/// After one item: the list may end, or a comma must come before the next
/// item; a comma at the very end is tolerated.
pub open spec fn spec_macro_list_tail(ts: Seq<Tok>, m: MacroModel) -> Result<
    Seq<MacroModel>,
    ErrModel,
>
    decreases ts.len(), 0int,
{
    if ts.len() == 0 {
        Ok(seq![m])
    } else if is_punct_ch(ts[0], ',') {
        let tail = ts.subrange(1, ts.len() as int);
        if tail.len() == 0 {
            Ok(seq![m])
        } else {
            match spec_parse_macro_list(tail) {
                Err(e) => Err(e),
                Ok(ms) => Ok(seq![m] + ms),
            }
        }
    } else {
        Err(ErrModel { span: punct_err_span(ts), msg: expected_punct_msg(',') })
    }
}

/// The model of the macros a list of exec pairs stands for.
pub open spec fn macros_view(ms: Seq<Macro>) -> Seq<MacroModel> {
    ms.map_values(|m: Macro| m@)
}

/// A parsed macro list is never empty.
pub proof fn lemma_macro_list_nonempty(ts: Seq<Tok>)
    ensures
        (spec_parse_macro_list(ts) matches Ok(ms) ==> ms.len() >= 1),
{
}

/// A parsed re-export declaration carries at least one macro pair.
pub proof fn lemma_export_macros_nonempty(ts: Seq<Tok>, attrs: Seq<Tok>, vis: Visibility)
    ensures
        (spec_parse_export(ts, attrs, vis) matches Ok(e) ==> e.macros.len() >= 1),
{
}

/// A classified re-export shape carries at least one macro pair.
pub proof fn lemma_input_export_nonempty(ts: Seq<Tok>)
    ensures
        (spec_parse_input(ts) matches Ok(m) ==> (m matches InputModel::Export(e)
            ==> e.macros.len() >= 1)),
{
    match spec_parse_attributes(ts) {
        Err(e) => {},
        Ok(ap) => {
            let vp = spec_parse_visibility(ap.1);
            if vp.1.len() > 0 {
                match vp.1[0] {
                    Tok::Ident { text, span } => {
                        if text == "use"@ {
                            lemma_export_macros_nonempty(
                                vp.1.subrange(1, vp.1.len() as int),
                                ap.0,
                                vp.0,
                            );
                        }
                    },
                    t => {},
                }
            }
        },
    }
}

/// Reads a whole `name` / `name as alias` list, consuming the stream.
pub fn parse_macro_list(tokens: &mut IterImpl) -> (r: Result<Vec<Macro>, Error>)
    ensures
        (match (r, spec_parse_macro_list(old(tokens)@)) {
            (Ok(ms), Ok(sm)) => macros_view(ms@) == sm,
            (Err(e), Err(m)) => e@ == m,
            _ => false,
        }),
    decreases old(tokens)@.len(),
{
    let name = match parse_ident(tokens) {
        Ok(id) => id,
        Err(e) => {
            return Err(e);
        },
    };
    let has_as: bool = match tokens.peek() {
        Some(t) => match t {
            TokenTree::Ident { text, .. } => str_eq(text.as_str(), "as"),
            _ => false,
        },
        None => false,
    };
    let pair: Macro;
    if has_as {
        let ghost rest = tokens@;
        let x = tokens.next();
        proof {
            assert(tokens@ =~= rest.subrange(1, rest.len() as int));
        }
        match parse_ident(tokens) {
            Ok(alias) => {
                proof {
                    assert(tokens@ =~= rest.subrange(2, rest.len() as int));
                }
                pair = Macro { name, export_as: alias };
            },
            Err(e) => {
                return Err(e);
            },
        }
    } else {
        let export_as = clone_ident(&name);
        pair = Macro { name, export_as };
    }
    let ghost pairv = pair@;
    proof {
        assert(spec_parse_macro_list(old(tokens)@) == spec_macro_list_tail(tokens@, pairv));
    }
    let has_comma: bool = match tokens.peek() {
        Some(t) => match t {
            TokenTree::Punct { ch, .. } => *ch == ',',
            _ => false,
        },
        None => false,
    };
    if !has_comma {
        match tokens.peek() {
            None => {
                let mut out: Vec<Macro> = Vec::new();
                out.push(pair);
                proof {
                    assert(macros_view(out@) =~= seq![pairv]);
                }
                return Ok(out);
            },
            Some(t) => {
                let msg = String::from_str("expected `").concat(",").concat("`");
                proof {
                    reveal_strlit(",");
                    assert(","@ =~= seq![',']);
                    assert(msg@ =~= expected_punct_msg(','));
                }
                return Err(Error::new(tree_span(t), msg.as_str()));
            },
        }
    }
    let x = tokens.next();
    let more: bool = match tokens.peek() {
        Some(t) => true,
        None => false,
    };
    if !more {
        let mut out: Vec<Macro> = Vec::new();
        out.push(pair);
        proof {
            assert(macros_view(out@) =~= seq![pairv]);
        }
        return Ok(out);
    }
    match parse_macro_list(tokens) {
        Err(e) => Err(e),
        Ok(ms) => {
            let ghost msv = ms@;
            let mut out: Vec<Macro> = Vec::new();
            out.push(pair);
            let mut rest = ms;
            out.append(&mut rest);
            proof {
                assert(macros_view(out@) =~= seq![pairv] + macros_view(msv));
            }
            Ok(out)
        },
    }
}

/// What the tokens after the `use` keyword yield: the source module, two
/// colons, one macro name or a braced list, and the closing semicolon.
pub open spec fn spec_parse_export(ts: Seq<Tok>, attrs: Seq<Tok>, vis: Visibility) -> Result<
    ExportModel,
    ErrModel,
> {
    match spec_parse_ident(ts) {
        Err(e) => Err(e),
        Ok(p) => {
            let from = p.0;
            let r1 = p.1;
            if !(r1.len() > 0 && is_punct_ch(r1[0], ':')) {
                Err(ErrModel { span: punct_err_span(r1), msg: expected_punct_msg(':') })
            } else {
                let r2 = r1.subrange(1, r1.len() as int);
                if !(r2.len() > 0 && is_punct_ch(r2[0], ':')) {
                    Err(ErrModel { span: punct_err_span(r2), msg: expected_punct_msg(':') })
                } else {
                    let r3 = r2.subrange(1, r2.len() as int);
                    if r3.len() == 0 {
                        Err(ErrModel { span: CALL_SITE_SPAN, msg: expected_ident_msg() })
                    } else {
                        match r3[0] {
                            Tok::Ident { text, span } => {
                                let name = IdentModel { text, span };
                                spec_export_finish(
                                    r3.subrange(1, r3.len() as int),
                                    attrs,
                                    vis,
                                    from,
                                    seq![MacroModel { name, export_as: name }],
                                )
                            },
                            Tok::Group { delim, tokens: inner, span } => {
                                if delim == Delim::Brace {
                                    match spec_parse_macro_list(inner) {
                                        Err(e) => Err(e),
                                        Ok(ms) => spec_export_finish(
                                            r3.subrange(1, r3.len() as int),
                                            attrs,
                                            vis,
                                            from,
                                            ms,
                                        ),
                                    }
                                } else {
                                    Err(ErrModel { span, msg: expected_ident_msg() })
                                }
                            },
                            t => Err(ErrModel { span: tok_span(t), msg: expected_ident_msg() }),
                        }
                    }
                }
            }
        },
    }
}

/// The trailing semicolon of a re-export declaration.
pub open spec fn spec_export_finish(
    ts: Seq<Tok>,
    attrs: Seq<Tok>,
    vis: Visibility,
    from: IdentModel,
    macros: Seq<MacroModel>,
) -> Result<ExportModel, ErrModel> {
    if ts.len() > 0 && is_punct_ch(ts[0], ';') {
        Ok(ExportModel { attrs, vis, from, macros })
    } else {
        Err(ErrModel { span: punct_err_span(ts), msg: expected_punct_msg(';') })
    }
}

/// What the tokens after the `fn` keyword yield: the definition must be
/// public, its name follows, and the rest is kept verbatim as the body.
pub open spec fn spec_parse_define(
    ts: Seq<Tok>,
    attrs: Seq<Tok>,
    vis: Visibility,
    kw_span: Span,
) -> Result<DefineModel, ErrModel> {
    if vis is None {
        Err(ErrModel { span: kw_span, msg: must_be_pub_msg() })
    } else {
        match spec_parse_ident(ts) {
            Err(e) => Err(e),
            Ok(p) => Ok(DefineModel { attrs, name: p.0, body: p.1 }),
        }
    }
}

/// What a whole attribute input yields: leading attributes, an optional
/// `pub`, then one of the two recognized shapes.
pub open spec fn spec_parse_input(ts: Seq<Tok>) -> Result<InputModel, ErrModel> {
    match spec_parse_attributes(ts) {
        Err(e) => Err(e),
        Ok(ap) => {
            let attrs = ap.0;
            let vp = spec_parse_visibility(ap.1);
            let vis = vp.0;
            let r1 = vp.1;
            if r1.len() == 0 {
                Err(ErrModel { span: CALL_SITE_SPAN, msg: expected_ident_msg() })
            } else {
                match r1[0] {
                    Tok::Ident { text, span } => {
                        if text == "use"@ {
                            match spec_parse_export(r1.subrange(1, r1.len() as int), attrs, vis) {
                                Err(e) => Err(e),
                                Ok(m) => Ok(InputModel::Export(m)),
                            }
                        } else if text == "fn"@ {
                            match spec_parse_define(
                                r1.subrange(1, r1.len() as int),
                                attrs,
                                vis,
                                span,
                            ) {
                                Err(e) => Err(e),
                                Ok(m) => Ok(InputModel::Define(m)),
                            }
                        } else {
                            Err(ErrModel { span, msg: unexpected_shape_msg() })
                        }
                    },
                    t => Err(ErrModel { span: tok_span(t), msg: expected_ident_msg() }),
                }
            }
        },
    }
}

/// Whether an executable classification agrees with a modelled one.
pub open spec fn input_result_matches(r: Result<Input, Error>, s: Result<
    InputModel,
    ErrModel,
>) -> bool {
    match (r, s) {
        (Ok(i), Ok(m)) => i@ == m,
        (Err(e), Err(m)) => e@ == m,
        _ => false,
    }
}

/// Parses a whole attribute input into one of the two recognized shapes,
/// failing closed on anything else.
pub fn parse_input(tokens: &mut IterImpl) -> (r: Result<Input, Error>)
    ensures
        input_result_matches(r, spec_parse_input(old(tokens)@)),
{
    let attrs = match parse_attributes(tokens) {
        Ok(a) => a,
        Err(e) => {
            return Err(e);
        },
    };
    let vis = parse_visibility(tokens);
    let ghost r1 = tokens@;
    let kw = match parse_ident(tokens) {
        Ok(id) => id,
        Err(e) => {
            return Err(e);
        },
    };
    if str_eq(kw.text.as_str(), "use") {
        match parse_export(tokens, attrs, vis) {
            Ok(ex) => Ok(Input::Export(ex)),
            Err(e) => Err(e),
        }
    } else if str_eq(kw.text.as_str(), "fn") {
        if vis.is_none() {
            return Err(
                Error::new(kw.span, "functions tagged with `#[proc_macro_hack]` must be `pub`"),
            );
        }
        let name = match parse_ident(tokens) {
            Ok(id) => id,
            Err(e) => {
                return Err(e);
            },
        };
        let body = tokens.collect_rest();
        Ok(Input::Define(Define { attrs, name, body }))
    } else {
        Err(Error::new(kw.span, "unexpected input to #[proc_macro_hack]"))
    }
}

/// Parses the tokens after the `use` keyword into a re-export shape.
fn parse_export(tokens: &mut IterImpl, attrs: TokenStream, vis: Visibility) -> (r: Result<
    Export,
    Error,
>)
    ensures
        (match (r, spec_parse_export(old(tokens)@, stream_view(attrs@), vis)) {
            (Ok(ex), Ok(m)) => ex@ == m,
            (Err(e), Err(m)) => e@ == m,
            _ => false,
        }),
{
    let ghost attrsv = stream_view(attrs@);
    let from = match parse_ident(tokens) {
        Ok(id) => id,
        Err(e) => {
            return Err(e);
        },
    };
    let ghost r1 = tokens@;
    match crate::args::parse_punct(tokens, ':') {
        Err(e) => {
            return Err(e);
        },
        Ok(u) => {},
    }
    let ghost r2 = tokens@;
    match crate::args::parse_punct(tokens, ':') {
        Err(e) => {
            return Err(e);
        },
        Ok(u) => {},
    }
    let ghost r3 = tokens@;
    let macros: Vec<Macro>;
    match tokens.next() {
        None => {
            return Err(Error::new(CALL_SITE_SPAN, "expected identifier"));
        },
        Some(tt) => match tt {
            TokenTree::Ident { text, span } => {
                let name = Ident { text, span };
                let ghost nmv = name@;
                let export_as = clone_ident(&name);
                let mut ms: Vec<Macro> = Vec::new();
                ms.push(Macro { name, export_as });
                proof {
                    assert(macros_view(ms@) =~= seq![MacroModel { name: nmv, export_as: nmv }]);
                }
                macros = ms;
            },
            TokenTree::Group { delim, tokens: inner, span } => {
                if delim == Delim::Brace {
                    let mut inner_it = crate::iter::new(inner);
                    match parse_macro_list(&mut inner_it) {
                        Err(e) => {
                            return Err(e);
                        },
                        Ok(ms) => {
                            macros = ms;
                        },
                    }
                } else {
                    return Err(Error::new(span, "expected identifier"));
                }
            },
            other => {
                return Err(Error::new(tree_span(&other), "expected identifier"));
            },
        },
    }
    let ghost r4 = tokens@;
    match crate::args::parse_punct(tokens, ';') {
        Err(e) => {
            return Err(e);
        },
        Ok(u) => {},
    }
    let ex = Export { attrs, vis, from, macros };
    proof {
        assert(ex@ == spec_parse_export(old(tokens)@, attrsv, vis)->Ok_0);
    }
    Ok(ex)
}

} // verus!
