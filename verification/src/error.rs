//! Expansion errors: a message bound to the best available span, rendered
//! as the token stream of a diagnostic-macro invocation so a failed parse
//! surfaces as an ordinary compiler diagnostic.

use vstd::prelude::*;
use crate::Span;
use crate::token::{group, lemma_stream_view_index, lemma_stream_view_len, stream_view, Delim,
    Spacing, Tok, TokenStream, TokenTree};
use vstd::string::StringExecFns;

verus! {

/// One diagnostic: where, and what went wrong.
#[derive(Debug)]
pub struct Error {
    span: Span,
    msg: String,
}

/// The model of a diagnostic.
pub struct ErrModel {
    pub span: Span,
    pub msg: Seq<char>,
}

impl View for Error {
    type V = ErrModel;

    closed spec fn view(&self) -> ErrModel {
        ErrModel { span: self.span, msg: self.msg@ }
    }
}

impl Error {
    /// A new diagnostic at the given span.
    pub fn new(span: Span, msg: &str) -> (e: Self)
        ensures
            e@ == (ErrModel { span, msg: msg@ }),
    {
        Error { span, msg: msg.to_owned() }
    }

    /// The span the diagnostic points at.
    pub fn span(&self) -> (s: Span)
        ensures
            s == self@.span,
    {
        self.span
    }

    /// The diagnostic's message.
    pub fn message(&self) -> (m: String)
        ensures
            m@ == self@.msg,
    {
        self.msg.as_str().to_owned()
    }
}

/// The source text of a string literal holding the given characters.
pub open spec fn quoted(msg: Seq<char>) -> Seq<char> {
    seq!['"'] + msg + seq!['"']
}

/// The name of the host compiler's diagnostic macro.
pub open spec fn diag_macro_name() -> Seq<char> {
    "compile_"@ + "error"@
}

/// The rendering of a diagnostic: an invocation of the host compiler's
/// diagnostic macro on the message, every token at the diagnostic's span.
pub open spec fn spec_render_error(e: ErrModel) -> Seq<Tok> {
    seq![
        Tok::Ident { text: diag_macro_name(), span: e.span },
        Tok::Punct { ch: '!', spacing: Spacing::Alone, span: e.span },
        Tok::Group {
            delim: Delim::Brace,
            tokens: seq![Tok::Literal { text: quoted(e.msg), span: e.span }],
            span: e.span,
        },
    ]
}

/// Renders a diagnostic as the tokens of a diagnostic-macro invocation.
pub fn render_error(err: Error) -> (r: TokenStream)
    ensures
        stream_view(r@) == spec_render_error(err@),
{
    let ghost e = err@;
    let span = err.span;
    let text = String::from_str("\"").concat(err.msg.as_str()).concat("\"");
    proof {
        reveal_strlit("\"");
        assert(text@ =~= quoted(e.msg));
    }
    let name = String::from_str("compile_").concat("error");
    proof {
        assert(name@ =~= diag_macro_name());
    }
    let mut inner: TokenStream = Vec::new();
    inner.push(TokenTree::Literal { text, span });
    proof {
        lemma_stream_view_len(inner@);
        lemma_stream_view_index(inner@, 0);
        assert(stream_view(inner@) =~= seq![Tok::Literal { text: quoted(e.msg), span: e.span }]);
    }
    let mut r: TokenStream = Vec::new();
    r.push(TokenTree::Ident { text: name, span });
    r.push(TokenTree::Punct { ch: '!', spacing: Spacing::Alone, span });
    r.push(group(Delim::Brace, inner, span));
    proof {
        lemma_stream_view_len(r@);
        lemma_stream_view_index(r@, 0);
        lemma_stream_view_index(r@, 1);
        lemma_stream_view_index(r@, 2);
        assert(stream_view(r@) =~= spec_render_error(e));
    }
    r
}

} // verus!
