//! The token-tree data model: an ordered sequence of nodes (identifier,
//! punctuation, literal, or delimited group holding a nested sequence),
//! each carrying a span. Streams are immutable once built; new streams
//! come from concatenation, never in-place rewriting.

use vstd::prelude::*;
use crate::Span;

verus! {

/// The delimiter of a group: `( )`, `[ ]` or `{ }`.
#[derive(Clone, Copy, PartialEq, Eq, Structural, Debug)]
pub enum Delim {
    Paren,
    Bracket,
    Brace,
}

/// Whether a punctuation character is immediately followed by another
/// punctuation character that forms a single operator with it.
#[derive(Clone, Copy, PartialEq, Eq, Structural, Debug)]
pub enum Spacing {
    Alone,
    Joint,
}

/// One node of a token tree.
#[derive(Debug)]
pub enum TokenTree {
    Ident { text: String, span: Span },
    Punct { ch: char, spacing: Spacing, span: Span },
    Literal { text: String, span: Span },
    Group { delim: Delim, tokens: Vec<TokenTree>, span: Span },
}

/// An ordered sequence of token trees.
pub type TokenStream = Vec<TokenTree>;

/// The mathematical model of one token tree: text becomes a sequence of
/// characters, a group's contents a sequence of models.
pub enum Tok {
    Ident { text: Seq<char>, span: Span },
    Punct { ch: char, spacing: Spacing, span: Span },
    Literal { text: Seq<char>, span: Span },
    Group { delim: Delim, tokens: Seq<Tok>, span: Span },
}

/// The model of a token tree.
pub open spec fn tree_view(t: TokenTree) -> Tok
    decreases t, 1int,
{
    match t {
        TokenTree::Ident { text, span } => Tok::Ident { text: text@, span },
        TokenTree::Punct { ch, spacing, span } => Tok::Punct { ch, spacing, span },
        TokenTree::Literal { text, span } => Tok::Literal { text: text@, span },
        TokenTree::Group { delim, tokens, span } => Tok::Group {
            delim,
            tokens: stream_view(tokens@),
            span,
        },
    }
}

/// The model of a whole sequence of token trees.
pub open spec fn stream_view(ts: Seq<TokenTree>) -> Seq<Tok>
    decreases ts, 0int,
{
    if ts.len() == 0 {
        Seq::empty()
    } else {
        seq![tree_view(ts[0])] + stream_view(ts.subrange(1, ts.len() as int))
    }
}

impl View for TokenTree {
    type V = Tok;

    open spec fn view(&self) -> Tok {
        tree_view(*self)
    }
}

pub broadcast proof fn lemma_stream_view_len(ts: Seq<TokenTree>)
    ensures
        #[trigger] stream_view(ts).len() == ts.len(),
    decreases ts.len(),
{
    if ts.len() > 0 {
        lemma_stream_view_len(ts.subrange(1, ts.len() as int));
    }
}

pub broadcast proof fn lemma_stream_view_index(ts: Seq<TokenTree>, i: int)
    requires
        0 <= i < ts.len(),
    ensures
        stream_view(ts).len() == ts.len(),
        #[trigger] stream_view(ts)[i] == ts[i]@,
    decreases ts.len(),
{
    lemma_stream_view_len(ts);
    if i > 0 {
        lemma_stream_view_index(ts.subrange(1, ts.len() as int), i - 1);
    }
}

pub broadcast proof fn lemma_stream_view_concat(a: Seq<TokenTree>, b: Seq<TokenTree>)
    ensures
        #[trigger] stream_view(a + b) == stream_view(a) + stream_view(b),
    decreases a.len(),
{
    lemma_stream_view_len(a);
    lemma_stream_view_len(b);
    lemma_stream_view_len(a + b);
    if a.len() == 0 {
        assert(a + b =~= b);
        assert(stream_view(a + b) =~= stream_view(a) + stream_view(b));
    } else {
        lemma_stream_view_concat(a.subrange(1, a.len() as int), b);
        assert((a + b).subrange(1, (a + b).len() as int) =~= a.subrange(1, a.len() as int) + b);
        assert(stream_view(a + b) =~= stream_view(a) + stream_view(b));
    }
}

pub broadcast proof fn lemma_stream_view_push(ts: Seq<TokenTree>, t: TokenTree)
    ensures
        #[trigger] stream_view(ts.push(t)) == stream_view(ts).push(t@),
{
    assert(ts.push(t) =~= ts + seq![t]);
    lemma_stream_view_concat(ts, seq![t]);
    assert(seq![t].subrange(1, 1) =~= Seq::<TokenTree>::empty());
    assert(stream_view(Seq::<TokenTree>::empty()) =~= Seq::<Tok>::empty());
    assert(stream_view(seq![t]) =~= seq![t@]);
    assert(stream_view(ts).push(t@) =~= stream_view(ts) + seq![t@]);
}

/// The span carried by the model of one token tree.
pub open spec fn tok_span(t: Tok) -> Span {
    match t {
        Tok::Ident { span, .. } => span,
        Tok::Punct { span, .. } => span,
        Tok::Literal { span, .. } => span,
        Tok::Group { span, .. } => span,
    }
}

/// The span carried by one token tree.
pub fn tree_span(t: &TokenTree) -> (s: Span)
    ensures
        s == tok_span(t@),
{
    match t {
        TokenTree::Ident { span, .. } => *span,
        TokenTree::Punct { span, .. } => *span,
        TokenTree::Literal { span, .. } => *span,
        TokenTree::Group { span, .. } => *span,
    }
}

/// Builds an identifier token.
pub fn ident(text: &str, span: Span) -> (t: TokenTree)
    ensures
        t@ == (Tok::Ident { text: text@, span }),
{
    TokenTree::Ident { text: text.to_owned(), span }
}

/// Builds a punctuation token that stands alone.
pub fn punct(ch: char, span: Span) -> (t: TokenTree)
    ensures
        t@ == (Tok::Punct { ch, spacing: Spacing::Alone, span }),
{
    TokenTree::Punct { ch, spacing: Spacing::Alone, span }
}

/// Builds a punctuation token joined to the next one.
pub fn punct_joint(ch: char, span: Span) -> (t: TokenTree)
    ensures
        t@ == (Tok::Punct { ch, spacing: Spacing::Joint, span }),
{
    TokenTree::Punct { ch, spacing: Spacing::Joint, span }
}

/// Builds a literal token from its source text.
pub fn literal(text: &str, span: Span) -> (t: TokenTree)
    ensures
        t@ == (Tok::Literal { text: text@, span }),
{
    TokenTree::Literal { text: text.to_owned(), span }
}

/// Builds a delimited group around an existing stream.
pub fn group(delim: Delim, tokens: TokenStream, span: Span) -> (t: TokenTree)
    ensures
        t@ == (Tok::Group { delim, tokens: stream_view(tokens@), span }),
{
    TokenTree::Group { delim, tokens, span }
}

/// Relies on `String::push`: appends the given character to the end of
/// the string.
#[verifier::external_body]
pub fn string_push(s: &mut String, c: char)
    ensures
        final(s)@ == old(s)@.push(c),
{
    s.push(c);
}

/// Compares two string slices by their characters.
pub fn str_eq(a: &str, b: &str) -> (r: bool)
    ensures
        r == (a@ == b@),
{
    let x = a.to_owned();
    let y = b.to_owned();
    x == y
}

/// Deep structural equality of two token trees, spans included.
pub fn tree_eq(a: &TokenTree, b: &TokenTree) -> (r: bool)
    ensures
        r == (a@ == b@),
    decreases *a, 1int,
{
    match (a, b) {
        (
            TokenTree::Ident { text: ta, span: sa },
            TokenTree::Ident { text: tb, span: sb },
        ) => str_eq(ta.as_str(), tb.as_str()) && *sa == *sb,
        (
            TokenTree::Punct { ch: ca, spacing: pa, span: sa },
            TokenTree::Punct { ch: cb, spacing: pb, span: sb },
        ) => *ca == *cb && *pa == *pb && *sa == *sb,
        (
            TokenTree::Literal { text: ta, span: sa },
            TokenTree::Literal { text: tb, span: sb },
        ) => str_eq(ta.as_str(), tb.as_str()) && *sa == *sb,
        (
            TokenTree::Group { delim: da, tokens: ta, span: sa },
            TokenTree::Group { delim: db, tokens: tb, span: sb },
        ) => *da == *db && *sa == *sb && stream_eq(ta, tb),
        _ => {
            proof {
                assert(a@ != b@);
            }
            false
        },
    }
}

/// Deep structural equality of two token streams, spans included.
pub fn stream_eq(a: &TokenStream, b: &TokenStream) -> (r: bool)
    ensures
        r == (stream_view(a@) == stream_view(b@)),
    decreases a@, 0int,
{
    proof {
        lemma_stream_view_len(a@);
        lemma_stream_view_len(b@);
    }
    if a.len() != b.len() {
        proof {
            assert(stream_view(a@).len() != stream_view(b@).len());
        }
        return false;
    }
    let n = a.len();
    let mut i: usize = 0;
    while i < n
        invariant
            n == a@.len() && n == b@.len(),
            i <= n,
            forall|j: int| 0 <= j < i ==> a@[j]@ == b@[j]@,
        decreases n - i,
    {
        if !tree_eq(&a[i], &b[i]) {
            proof {
                lemma_stream_view_index(a@, i as int);
                lemma_stream_view_index(b@, i as int);
            }
            return false;
        }
        i += 1;
    }
    proof {
        assert forall|j: int| 0 <= j < n implies stream_view(a@)[j] == stream_view(b@)[j] by {
            lemma_stream_view_index(a@, j);
            lemma_stream_view_index(b@, j);
        }
        assert(stream_view(a@) =~= stream_view(b@));
    }
    true
}

/// Moves every token of `src` onto the end of `dst`.
pub fn extend(dst: &mut TokenStream, src: TokenStream)
    ensures
        stream_view(final(dst)@) == stream_view(old(dst)@) + stream_view(src@),
{
    let ghost d0 = dst@;
    let ghost s0 = src@;
    let mut s = src;
    dst.append(&mut s);
    proof {
        lemma_stream_view_concat(d0, s0);
    }
}

/// A copy of one token tree, equal to the original in the model.
pub fn clone_tree(t: &TokenTree) -> (r: TokenTree)
    ensures
        r@ == t@,
    decreases *t, 1int,
{
    match t {
        TokenTree::Ident { text, span } => TokenTree::Ident {
            text: text.as_str().to_owned(),
            span: *span,
        },
        TokenTree::Punct { ch, spacing, span } => TokenTree::Punct {
            ch: *ch,
            spacing: *spacing,
            span: *span,
        },
        TokenTree::Literal { text, span } => TokenTree::Literal {
            text: text.as_str().to_owned(),
            span: *span,
        },
        TokenTree::Group { delim, tokens, span } => TokenTree::Group {
            delim: *delim,
            tokens: clone_stream(tokens),
            span: *span,
        },
    }
}

/// A copy of a whole stream, equal to the original in the model.
pub fn clone_stream(ts: &TokenStream) -> (r: TokenStream)
    ensures
        stream_view(r@) == stream_view(ts@),
        r@.len() == ts@.len(),
    decreases ts@, 0int,
{
    proof {
        lemma_stream_view_len(ts@);
    }
    let mut r: TokenStream = Vec::new();
    let n = ts.len();
    let mut i: usize = 0;
    while i < n
        invariant
            n == ts@.len(),
            i <= n,
            r@.len() == i,
            forall|j: int| 0 <= j < i ==> r@[j]@ == ts@[j]@,
        decreases n - i,
    {
        let c = clone_tree(&ts[i]);
        r.push(c);
        i += 1;
    }
    proof {
        lemma_stream_view_len(r@);
        assert forall|j: int| 0 <= j < n implies stream_view(r@)[j] == stream_view(ts@)[j] by {
            lemma_stream_view_index(r@, j);
            lemma_stream_view_index(ts@, j);
        }
        assert(stream_view(r@) =~= stream_view(ts@));
    }
    r
}

} // verus!
