//! Leaf Rust syntax (identifiers, expressions, paths), recognised by `syn`.
use vstd::prelude::*;

verus! {

/// Whether the text is one identifier that is not a keyword.
pub uninterp spec fn is_identifier(s: Seq<char>) -> bool;

/// Whether the text is one Rust expression.
pub uninterp spec fn is_expression(s: Seq<char>) -> bool;

/// Whether the text is one path (such as `a::B<C>`).
pub uninterp spec fn is_path(s: Seq<char>) -> bool;

/// Relies on `syn::parse_str::<syn::Ident>`: the whole text parses as an identifier.
#[verifier::external_body]
pub(crate) fn parses_as_identifier(s: &str) -> (r: bool)
    ensures
        r == is_identifier(s@),
{
    syn::parse_str::<syn::Ident>(s).is_ok()
}

/// Relies on `syn::parse_str::<syn::Expr>`: the whole text parses as an expression.
#[verifier::external_body]
pub(crate) fn parses_as_expression(s: &str) -> (r: bool)
    ensures
        r == is_expression(s@),
{
    syn::parse_str::<syn::Expr>(s).is_ok()
}

/// Relies on `syn::parse_str::<syn::Path>`: the whole text parses as a path.
#[verifier::external_body]
pub(crate) fn parses_as_path(s: &str) -> (r: bool)
    ensures
        r == is_path(s@),
{
    syn::parse_str::<syn::Path>(s).is_ok()
}

} // verus!
