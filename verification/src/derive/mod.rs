//! The rules of the `EnvStructure` derive: which attributes a field or a
//! variant may carry, and how each field is loaded.

pub mod attrs;
pub mod field;
pub mod item;
pub mod options;
pub mod variant;

use vstd::prelude::*;
use vstd::string::*;

verus! {

/// The syntax a derive works on: positions in the source, expressions,
/// string literals, identifiers and types. The rules never look inside
/// them; they only carry them to where they are reported or generated.
pub trait Syntax {
    type Span: Copy;
    type Expr;
    type LitStr;
    type Ident;
    type Type;
}

/// An error of the derive: where it points, and its message.
pub struct MacroError<S: Syntax> {
    pub span: S::Span,
    pub message: String,
}

/// What an error says.
pub struct ErrorView<S: Syntax> {
    pub span: S::Span,
    pub message: Seq<char>,
}

impl<S: Syntax> View for MacroError<S> {
    type V = ErrorView<S>;

    open spec fn view(&self) -> ErrorView<S> {
        ErrorView { span: self.span, message: self.message@ }
    }
}

/// The view of a result whose error is a [`MacroError`].
pub open spec fn result_view<S: Syntax, T>(r: Result<T, MacroError<S>>) -> Result<T, ErrorView<S>> {
    match r {
        Ok(v) => Ok(v),
        Err(e) => Err(e@),
    }
}

/// The error at `span` with message `message`.
pub open spec fn error_at<S: Syntax>(span: S::Span, message: Seq<char>) -> ErrorView<S> {
    ErrorView { span, message }
}

/// Whether two texts are the same.
pub(crate) fn text_eq(a: &str, b: &str) -> (r: bool)
    ensures
        r == (a@ == b@),
{
    String::from_str(a) == String::from_str(b)
}

} // verus!
