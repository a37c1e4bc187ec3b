//! The native path, taken when the host compiler expands function-like
//! macros in expression position itself: a re-export declaration passes
//! through unchanged once its arguments are validated, and a function
//! definition is handed back under the host's own macro attribute.

use vstd::prelude::*;
use crate::{default_export_args, CALL_SITE_SPAN};
use crate::args::{parse_export_args, spec_parse_export_args};
use crate::error::{Error, ErrModel};
use crate::iter::IterImpl;
use crate::parse::{parse_attributes, parse_ident, parse_visibility, spec_parse_attributes,
    spec_parse_ident, spec_parse_visibility, must_be_pub_msg, unexpected_input_msg,
    unexpected_shape_msg};
use crate::token::{clone_stream, group, lemma_stream_view_concat, lemma_stream_view_index,
    lemma_stream_view_len, punct, str_eq, stream_view, Delim, Spacing, Tok, TokenStream,
    TokenTree};

verus! {

/// Which of the two recognized shapes an input is.
#[derive(Clone, Copy, PartialEq, Eq, Structural, Debug)]
pub enum InputKind {
    Export,
    Define,
}

/// What classifying an input yields: its shape, or the error that stops
/// it. A function definition must be public.
pub open spec fn spec_classify(ts: Seq<Tok>) -> Result<InputKind, ErrModel> {
    match spec_parse_attributes(ts) {
        Err(e) => Err(e),
        Ok(ap) => {
            let vp = spec_parse_visibility(ap.1);
            match spec_parse_ident(vp.1) {
                Err(e) => Err(e),
                Ok(p) => {
                    if p.0.text == "use"@ {
                        Ok(InputKind::Export)
                    } else if p.0.text == "fn"@ {
                        if vp.0 is None {
                            Err(ErrModel { span: p.0.span, msg: must_be_pub_msg() })
                        } else {
                            Ok(InputKind::Define)
                        }
                    } else {
                        Err(ErrModel { span: p.0.span, msg: unexpected_shape_msg() })
                    }
                },
            }
        },
    }
}

/// Classifies an input as one of the two recognized shapes.
pub fn parse_input(tokens: &mut IterImpl) -> (r: Result<InputKind, Error>)
    ensures
        (match (r, spec_classify(old(tokens)@)) {
            (Ok(k), Ok(s)) => k == s,
            (Err(e), Err(m)) => e@ == m,
            _ => false,
        }),
{
    let attrs = match parse_attributes(tokens) {
        Ok(a) => a,
        Err(e) => {
            return Err(e);
        },
    };
    let vis = parse_visibility(tokens);
    let kw = match parse_ident(tokens) {
        Ok(id) => id,
        Err(e) => {
            return Err(e);
        },
    };
    if str_eq(kw.text.as_str(), "use") {
        Ok(InputKind::Export)
    } else if str_eq(kw.text.as_str(), "fn") {
        if vis.is_none() {
            return Err(
                Error::new(kw.span, "functions tagged with `#[proc_macro_hack]` must be `pub`"),
            );
        }
        Ok(InputKind::Define)
    } else {
        Err(Error::new(kw.span, "unexpected input to #[proc_macro_hack]"))
    }
}

/// The host's own macro attribute, spliced ahead of a definition.
pub open spec fn spec_proc_macro_attr() -> Seq<Tok> {
    seq![
        Tok::Punct { ch: '#', spacing: Spacing::Alone, span: CALL_SITE_SPAN },
        Tok::Group {
            delim: Delim::Bracket,
            tokens: seq![Tok::Ident { text: "proc_macro"@, span: CALL_SITE_SPAN }],
            span: CALL_SITE_SPAN,
        },
    ]
}

/// What the native path yields: a validated re-export passes through
/// unchanged; a definition with no arguments is prefixed with the host's
/// macro attribute; every error of the parsers is kept as it is, and a
/// definition given any argument fails at the call site.
pub open spec fn spec_expand(args: Seq<Tok>, input: Seq<Tok>) -> Result<Seq<Tok>, ErrModel> {
    match spec_classify(input) {
        Err(e) => Err(e),
        Ok(k) => match k {
            InputKind::Export => match spec_parse_export_args(args, default_export_args()) {
                Err(e) => Err(e),
                Ok(a) => Ok(input),
            },
            InputKind::Define => {
                if args.len() > 0 {
                    Err(ErrModel { span: CALL_SITE_SPAN, msg: unexpected_input_msg() })
                } else {
                    Ok(spec_proc_macro_attr() + input)
                }
            },
        },
    }
}

/// Expands one attribute invocation on the native path.
pub fn expand_proc_macro_hack(args: &mut IterImpl, input: TokenStream) -> (r: Result<
    TokenStream,
    Error,
>)
    ensures
        (match (r, spec_expand(old(args)@, stream_view(input@))) {
            (Ok(o), Ok(s)) => stream_view(o@) == s,
            (Err(e), Err(m)) => e@ == m,
            _ => false,
        }),
{
    let ghost inputt = input@;
    let ghost inputv = stream_view(input@);
    let copy = clone_stream(&input);
    let mut it = crate::iter::new(copy);
    match parse_input(&mut it) {
        Err(e) => Err(e),
        Ok(InputKind::Export) => {
            match parse_export_args(args) {
                Err(e) => Err(e),
                Ok(a) => Ok(input),
            }
        },
        Ok(InputKind::Define) => {
            let empty: bool = match args.peek() {
                None => true,
                Some(t) => false,
            };
            if !empty {
                return Err(Error::new(CALL_SITE_SPAN, "unexpected input"));
            }
            let mut out: TokenStream = Vec::new();
            out.push(punct('#', CALL_SITE_SPAN));
            let mut attr_inner: TokenStream = Vec::new();
            attr_inner.push(crate::token::ident("proc_macro", CALL_SITE_SPAN));
            proof {
                lemma_stream_view_len(attr_inner@);
                lemma_stream_view_index(attr_inner@, 0);
                assert(stream_view(attr_inner@) =~= seq![
                    Tok::Ident { text: "proc_macro"@, span: CALL_SITE_SPAN },
                ]);
            }
            out.push(group(Delim::Bracket, attr_inner, CALL_SITE_SPAN));
            let mut inp = input;
            out.append(&mut inp);
            proof {
                lemma_stream_view_concat(out@.subrange(0, 2), out@.subrange(2, out@.len() as int));
                assert(out@.subrange(0, 2) + out@.subrange(2, out@.len() as int) =~= out@);
                lemma_stream_view_len(out@.subrange(0, 2));
                lemma_stream_view_index(out@.subrange(0, 2), 0);
                lemma_stream_view_index(out@.subrange(0, 2), 1);
                assert(stream_view(out@.subrange(0, 2)) =~= spec_proc_macro_attr());
                assert(out@.subrange(2, out@.len() as int) =~= inputt);
                assert(stream_view(out@) =~= spec_proc_macro_attr() + inputv);
            }
            Ok(out)
        },
    }
}

} // verus!
