//! Deferred (on-first-use) initialization of static-like bindings, as a
//! source-to-source token transform.
//!
//! The library consumes a flat token sequence holding declarations of the
//! form `visibility static ref NAME : TYPE = EXPR ;` and emits, per
//! declaration, a zero-sized marker value whose dereference performs guarded
//! exactly-once initialization of a heap-allocated backing value, plus one
//! `init_all` function that dereferences every marker in declaration order.
//!
//! The transform itself runs once, at build time, as a pure function from
//! tokens to tokens; everything it promises about run-time behaviour is
//! carried by the emitted code (a `std::sync::Once` around each slot).

use vstd::prelude::*;

pub mod emit;
pub mod laws;
pub mod parse;
pub mod token;

pub use parse::Binding;
pub use parse::BindingView;
pub use parse::ErrorKind;
pub use parse::ParseError;
pub use token::Delim;
pub use token::Spacing;
pub use token::TokView;
pub use token::Token;

verus! {

/// What the whole transform returns on a raw token sequence: the emitted
/// tokens of [`emit::generate_spec`] applied to the parsed bindings, or the
/// first parse error.
pub open spec fn expand_spec(toks: Seq<TokView>) -> Result<Seq<TokView>, ParseError> {
    match parse::parse_spec(toks) {
        Ok(bs) => Ok(emit::generate_spec(bs)),
        Err(e) => Err(e),
    }
}

/// The whole transform: parse a declaration block, then emit the deferred
/// initialization constructs and the aggregate initializer. Returns exactly
/// what [`expand_spec`] says of the input.
pub fn eazy_static(tokens: &Vec<Token>) -> (r: Result<Vec<Token>, ParseError>)
    ensures
        (match r {
            Ok(out) => expand_spec(tokens.deep_view()) == Ok::<Seq<TokView>, ParseError>(
                out.deep_view(),
            ),
            Err(e) => expand_spec(tokens.deep_view()) == Err::<Seq<TokView>, ParseError>(e),
        }),
{
    match parse::parse(tokens) {
        Ok(bs) => Ok(emit::generate(&bs)),
        Err(e) => Err(e),
    }
}

} // verus!
