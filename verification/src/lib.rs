//! A source-to-source macro-expansion engine: it recognizes two item shapes
//! (a re-export declaration and a function definition), parses the arguments
//! of the attribute that tags them, and rewrites each into the token streams
//! that let a derive-position macro behave like an expression-position one.

use vstd::prelude::*;

pub mod args;
pub mod compiler;
pub mod digits;
pub mod error;
pub mod fallback;
pub mod iter;
pub mod legacy;
pub mod marker;
pub mod parse;
pub mod token;

verus! {

/// A source position attached to each token, used for error reporting.
/// Position `0` stands for the call site of the invocation being expanded.
pub type Span = u32;

/// The span that stands for the call site of the invocation being expanded.
pub const CALL_SITE_SPAN: Span = 0;

/// Where a `pub` marker stood, if one was present.
pub type Visibility = Option<Span>;

/// The arguments accepted on a re-export declaration.
#[derive(Clone, Copy, PartialEq, Eq, Structural, Debug)]
pub struct ExportArgs {
    pub support_nested: bool,
    pub internal_macro_calls: u16,
    pub fake_call_site: bool,
}

/// The arguments a declaration carries before any is parsed.
pub open spec fn default_export_args() -> ExportArgs {
    ExportArgs { support_nested: false, internal_macro_calls: 0, fake_call_site: false }
}

} // verus!
