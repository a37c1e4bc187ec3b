//! The attribute-argument parser: it reads identifiers one at a time,
//! dispatches on the three recognized names, and demands a comma between
//! items. Arguments are legal only on a re-export declaration; a function
//! definition must carry none.

use vstd::prelude::*;
use crate::{default_export_args, ExportArgs, Span, CALL_SITE_SPAN};
use crate::digits::{parse_u16, spec_parse_u16};
use crate::error::{Error, ErrModel};
use crate::iter::IterImpl;
use crate::token::{str_eq, string_push, tok_span, tree_span, Tok, TokenTree};
use vstd::string::StringExecFns;

verus! {

/// The message naming the three legal argument names.
pub open spec fn unknown_arg_msg() -> Seq<char> {
    "expected one of: `support_nested`, `internal_macro_calls`, `fake_call_site`"@
}

/// The message for a missing or malformed count value.
pub open spec fn int_value_msg() -> Seq<char> {
    "expected integer value for internal_macro_calls"@
}

/// The message for arguments supplied where none are accepted.
pub open spec fn define_args_msg() -> Seq<char> {
    "unexpected argument to proc_macro_hack macro implementation; args are only accepted on the macro declaration (the `pub use`)"@
}

/// The message for a missing punctuation character.
pub open spec fn expected_punct_msg(ch: char) -> Seq<char> {
    "expected `"@ + seq![ch] + "`"@
}

/// Whether a token is the given alone-or-joint punctuation character.
pub open spec fn is_punct_ch(t: Tok, ch: char) -> bool {
    match t {
        Tok::Punct { ch: c, .. } => c == ch,
        _ => false,
    }
}

/// The span a missing-punctuation error points at: the offending token,
/// or the call site when the stream is exhausted.
pub open spec fn punct_err_span(ts: Seq<Tok>) -> Span {
    if ts.len() > 0 {
        tok_span(ts[0])
    } else {
        CALL_SITE_SPAN
    }
}

/// What reading one integer token yields: the count, or the span to blame.
pub open spec fn spec_parse_int(ts: Seq<Tok>) -> Result<u16, Span> {
    if ts.len() == 0 {
        Err(CALL_SITE_SPAN)
    } else {
        match ts[0] {
            Tok::Literal { text, span } => match spec_parse_u16(text) {
                Some(v) => Ok(v),
                None => Err(span),
            },
            t => Err(tok_span(t)),
        }
    }
}

/// What parsing the whole argument stream yields, starting from the
/// arguments gathered so far: each item is an identifier, a count follows
/// `internal_macro_calls =`, and items are separated by commas.
pub open spec fn spec_parse_export_args(ts: Seq<Tok>, acc: ExportArgs) -> Result<
    ExportArgs,
    ErrModel,
>
    decreases ts.len(), 1int,
{
    if ts.len() == 0 {
        Ok(acc)
    } else {
        match ts[0] {
            Tok::Ident { text, span } => {
                if text == "support_nested"@ {
                    spec_args_after_item(
                        ts.subrange(1, ts.len() as int),
                        ExportArgs {
                            support_nested: true,
                            internal_macro_calls: acc.internal_macro_calls,
                            fake_call_site: acc.fake_call_site,
                        },
                    )
                } else if text == "internal_macro_calls"@ {
                    let rest = ts.subrange(1, ts.len() as int);
                    if !(rest.len() > 0 && is_punct_ch(rest[0], '=')) {
                        Err(ErrModel { span: punct_err_span(rest), msg: expected_punct_msg('=') })
                    } else {
                        let rest2 = rest.subrange(1, rest.len() as int);
                        match spec_parse_int(rest2) {
                            Err(sp) => Err(ErrModel { span: sp, msg: int_value_msg() }),
                            Ok(v) => spec_args_after_item(
                                rest2.subrange(1, rest2.len() as int),
                                ExportArgs {
                                    support_nested: acc.support_nested,
                                    internal_macro_calls: v,
                                    fake_call_site: acc.fake_call_site,
                                },
                            ),
                        }
                    }
                } else if text == "fake_call_site"@ {
                    spec_args_after_item(
                        ts.subrange(1, ts.len() as int),
                        ExportArgs {
                            support_nested: acc.support_nested,
                            internal_macro_calls: acc.internal_macro_calls,
                            fake_call_site: true,
                        },
                    )
                } else {
                    Err(ErrModel { span, msg: unknown_arg_msg() })
                }
            },
            t => Err(ErrModel { span: tok_span(t), msg: unknown_arg_msg() }),
        }
    }
}

/// After one item: the stream may end, or a comma must follow before the
/// next item.
pub open spec fn spec_args_after_item(ts: Seq<Tok>, acc: ExportArgs) -> Result<
    ExportArgs,
    ErrModel,
>
    decreases ts.len(), 0int,
{
    if ts.len() == 0 {
        Ok(acc)
    } else if is_punct_ch(ts[0], ',') {
        spec_parse_export_args(ts.subrange(1, ts.len() as int), acc)
    } else {
        Err(ErrModel { span: punct_err_span(ts), msg: expected_punct_msg(',') })
    }
}

/// Whether an executable result agrees with a modelled one.
pub open spec fn args_result_matches(
    r: Result<ExportArgs, Error>,
    s: Result<ExportArgs, ErrModel>,
) -> bool {
    match (r, s) {
        (Ok(a), Ok(b)) => a == b,
        (Err(e), Err(m)) => e@ == m,
        _ => false,
    }
}

/// Consumes the given punctuation character, or reports what was expected
/// at the token found (or at the call site when the stream ended) without
/// consuming it.
pub fn parse_punct(tokens: &mut IterImpl, ch: char) -> (r: Result<(), Error>)
    ensures
        (old(tokens)@.len() > 0 && is_punct_ch(old(tokens)@[0], ch)) ==> (r is Ok
            && final(tokens)@ == old(tokens)@.subrange(1, old(tokens)@.len() as int)),
        !(old(tokens)@.len() > 0 && is_punct_ch(old(tokens)@[0], ch)) ==> (r matches Err(e) && e@
            == (ErrModel { span: punct_err_span(old(tokens)@), msg: expected_punct_msg(ch) })
            && final(tokens)@ == old(tokens)@),
{
    let found: bool;
    let err_span: Span;
    match tokens.peek() {
        Some(t) => {
            match t {
                TokenTree::Punct { ch: c, .. } => {
                    found = *c == ch;
                },
                _ => {
                    found = false;
                },
            }
            err_span = tree_span(t);
        },
        None => {
            found = false;
            err_span = CALL_SITE_SPAN;
        },
    }
    if found {
        let x = tokens.next();
        Ok(())
    } else {
        let mut msg = String::from_str("expected `");
        string_push(&mut msg, ch);
        msg.append("`");
        proof {
            assert(msg@ =~= expected_punct_msg(ch));
        }
        Err(Error::new(err_span, msg.as_str()))
    }
}

/// Reads one token as a sixteen-bit count: it must be a literal of plain
/// decimal digits that fits. On failure the offending token's span (or
/// the call site) is returned.
pub fn parse_int(tokens: &mut IterImpl) -> (r: Result<u16, Span>)
    ensures
        r == spec_parse_int(old(tokens)@),
        old(tokens)@.len() > 0 ==> final(tokens)@ == old(tokens)@.subrange(
            1,
            old(tokens)@.len() as int,
        ),
        old(tokens)@.len() == 0 ==> final(tokens)@ == old(tokens)@,
{
    match tokens.next() {
        Some(tt) => match &tt {
            TokenTree::Literal { text, span } => match parse_u16(text.as_str()) {
                Some(v) => Ok(v),
                None => Err(*span),
            },
            _ => Err(tree_span(&tt)),
        },
        None => Err(CALL_SITE_SPAN),
    }
}

/// Parses the arguments of a re-export declaration. Exactly the streams
/// the model accepts yield flags; an unrecognized name fails with the
/// message naming the three legal ones.
pub fn parse_export_args(tokens: &mut IterImpl) -> (r: Result<ExportArgs, Error>)
    ensures
        args_result_matches(r, spec_parse_export_args(old(tokens)@, default_export_args())),
{
    let mut args = ExportArgs {
        support_nested: false,
        internal_macro_calls: 0,
        fake_call_site: false,
    };
    proof {
        assert(args == default_export_args());
    }
    loop
        invariant
            spec_parse_export_args(tokens@, args) == spec_parse_export_args(
                old(tokens)@,
                default_export_args(),
            ),
        decreases tokens@.len(),
    {
        let ghost pre = tokens@;
        let ghost pre_args = args;
        match tokens.next() {
            None => {
                return Ok(args);
            },
            Some(tt) => {
                match &tt {
                    TokenTree::Ident { text, span } => {
                        if str_eq(text.as_str(), "support_nested") {
                            args.support_nested = true;
                        } else if str_eq(text.as_str(), "internal_macro_calls") {
                            let ghost mid = tokens@;
                            match parse_punct(tokens, '=') {
                                Err(e) => {
                                    return Err(e);
                                },
                                Ok(u) => {},
                            }
                            match parse_int(tokens) {
                                Err(sp) => {
                                    return Err(
                                        Error::new(
                                            sp,
                                            "expected integer value for internal_macro_calls",
                                        ),
                                    );
                                },
                                Ok(v) => {
                                    args.internal_macro_calls = v;
                                },
                            }
                        } else if str_eq(text.as_str(), "fake_call_site") {
                            args.fake_call_site = true;
                        } else {
                            return Err(
                                Error::new(
                                    *span,
                                    "expected one of: `support_nested`, `internal_macro_calls`, `fake_call_site`",
                                ),
                            );
                        }
                    },
                    _ => {
                        return Err(
                            Error::new(
                                tree_span(&tt),
                                "expected one of: `support_nested`, `internal_macro_calls`, `fake_call_site`",
                            ),
                        );
                    },
                }
                proof {
                    assert(spec_args_after_item(tokens@, args) == spec_parse_export_args(
                        pre,
                        pre_args,
                    ));
                }
                let done: bool = match tokens.peek() {
                    None => true,
                    Some(t) => false,
                };
                if done {
                    return Ok(args);
                }
                match parse_punct(tokens, ',') {
                    Err(e) => {
                        return Err(e);
                    },
                    Ok(u) => {},
                }
            },
        }
    }
}

/// Rejects any argument on a function definition: arguments belong only
/// on the re-export declaration.
pub fn parse_define_args(tokens: &mut IterImpl) -> (r: Result<(), Error>)
    ensures
        old(tokens)@.len() == 0 ==> r is Ok,
        old(tokens)@.len() > 0 ==> (r matches Err(e) && e@ == (ErrModel {
            span: tok_span(old(tokens)@[0]),
            msg: define_args_msg(),
        })),
{
    match tokens.peek() {
        None => Ok(()),
        Some(token) => Err(
            Error::new(
                tree_span(token),
                "unexpected argument to proc_macro_hack macro implementation; args are only accepted on the macro declaration (the `pub use`)",
            ),
        ),
    }
}

} // verus!
