//! A peekable, single-pass forward cursor over a token stream: one token of
//! lookahead, no backtracking. Absence of a token is an empty result here;
//! callers turn it into a parse error with the best span they have.

use vstd::prelude::*;
use crate::token::{clone_tree, lemma_stream_view_index, lemma_stream_view_len, stream_view, Tok,
    TokenStream, TokenTree};

verus! {

/// A cursor holding the stream it walks and how far it has come.
pub struct IterImpl {
    tokens: TokenStream,
    pos: usize,
}

pub type Iter<'a> = &'a mut IterImpl;

impl View for IterImpl {
    type V = Seq<Tok>;

    /// The model of a cursor is the sequence of tokens still ahead of it.
    closed spec fn view(&self) -> Seq<Tok> {
        if self.pos <= self.tokens@.len() {
            stream_view(self.tokens@.subrange(self.pos as int, self.tokens@.len() as int))
        } else {
            Seq::empty()
        }
    }
}

/// Starts a cursor at the front of a stream.
pub fn new(tokens: TokenStream) -> (it: IterImpl)
    ensures
        it@ == stream_view(tokens@),
{
    let it = IterImpl { tokens, pos: 0 };
    proof {
        assert(it.tokens@.subrange(0, it.tokens@.len() as int) =~= it.tokens@);
    }
    it
}

impl IterImpl {
    /// A borrow of the next token, consuming nothing.
    pub fn peek(&self) -> (r: Option<&TokenTree>)
        ensures
            match r {
                Some(t) => self@.len() > 0 && t@ == self@[0],
                None => self@.len() == 0,
            },
    {
        proof {
            lemma_stream_view_len(self.tokens@.subrange(
                self.pos as int,
                self.tokens@.len() as int,
            ));
        }
        if self.pos < self.tokens.len() {
            let t = &self.tokens[self.pos];
            proof {
                let sub = self.tokens@.subrange(self.pos as int, self.tokens@.len() as int);
                lemma_stream_view_index(sub, 0);
            }
            Some(t)
        } else {
            None
        }
    }

    /// The next token, consumed and owned.
    pub fn next(&mut self) -> (r: Option<TokenTree>)
        ensures
            old(self)@.len() == 0 ==> r is None && final(self)@ == old(self)@,
            old(self)@.len() > 0 ==> (r matches Some(t) && t@ == old(self)@[0] && final(self)@
                == old(self)@.subrange(1, old(self)@.len() as int)),
    {
        proof {
            lemma_stream_view_len(self.tokens@.subrange(
                self.pos as int,
                self.tokens@.len() as int,
            ));
        }
        if self.pos < self.tokens.len() {
            let t = clone_tree(&self.tokens[self.pos]);
            proof {
                let sub = old(self).tokens@.subrange(
                    old(self).pos as int,
                    old(self).tokens@.len() as int,
                );
                lemma_stream_view_index(sub, 0);
            }
            self.pos = self.pos + 1;
            proof {
                let prev = old(self).tokens@.subrange(
                    old(self).pos as int,
                    old(self).tokens@.len() as int,
                );
                let now = self.tokens@.subrange(self.pos as int, self.tokens@.len() as int);
                assert(now =~= prev.subrange(1, prev.len() as int));
                lemma_stream_view_len(prev);
                lemma_stream_view_len(now);
                assert forall|j: int| 0 <= j < now.len() implies stream_view(now)[j] == stream_view(
                    prev,
                ).subrange(1, stream_view(prev).len() as int)[j] by {
                    lemma_stream_view_index(now, j);
                    lemma_stream_view_index(prev, j + 1);
                }
                assert(stream_view(now) =~= stream_view(prev).subrange(
                    1,
                    stream_view(prev).len() as int,
                ));
            }
            Some(t)
        } else {
            None
        }
    }

    /// All remaining tokens, owned; the cursor ends empty.
    pub fn collect_rest(&mut self) -> (r: TokenStream)
        ensures
            stream_view(r@) == old(self)@,
            final(self)@ == Seq::<Tok>::empty(),
    {
        let mut r: TokenStream = Vec::new();
        proof {
            lemma_stream_view_len(r@);
            assert(stream_view(r@) =~= Seq::<Tok>::empty());
        }
        loop
            invariant
                stream_view(r@) + self@ == old(self)@,
            decreases self@.len(),
        {
            let ghost prev = self@;
            let ghost racc = stream_view(r@);
            match self.next() {
                None => {
                    proof {
                        assert(stream_view(r@) =~= stream_view(r@) + self@);
                    }
                    return r;
                },
                Some(t) => {
                    proof {
                        crate::token::lemma_stream_view_push(r@, t);
                        assert(racc.push(t@) + self@ =~= racc + prev);
                    }
                    r.push(t);
                },
            }
        }
    }
}

} // verus!
