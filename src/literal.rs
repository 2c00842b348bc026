//! Values of literal tokens, as the `syn` crate reads them.

use vstd::prelude::*;

verus! {

/// What an integer literal token denotes when read as a `u64`.
#[derive(Clone, Copy, Debug, PartialEq, Eq)]
pub enum IntLiteral {
    /// The token is not an integer literal.
    NotAnInteger,
    /// The token is an integer literal whose value does not fit in a `u64`.
    OutOfRange,
    /// The token is an integer literal of this value.
    Value(u64),
}

/// The content of a string literal token (escapes resolved, suffix dropped), or `None` when
/// the token text is not a string literal.
pub uninterp spec fn str_literal_content(text: Seq<char>) -> Option<Seq<char>>;

/// What an integer literal token text denotes as a `u64`.
pub uninterp spec fn int_literal_value(text: Seq<char>) -> IntLiteral;

/// Relies on `proc_macro2::Literal::string` to make a string literal token whose value is
/// `s`, and on its `Display` to write that token. Inside and outside a macro `proc_macro2`
/// escapes with different code, so the exact text is left open: only that the token reads
/// back as `s` is stated.
#[verifier::external_body]
pub(crate) fn string_token(s: &str) -> (r: String)
    ensures
        str_literal_content(r@) == Some(s@),
{
    proc_macro2::Literal::string(s).to_string()
}

/// Relies on `syn::parse_str::<syn::LitStr>` to recognise a string literal token and on
/// `syn::LitStr::value` to resolve its escapes. `syn` 2 reads any literal token that
/// `proc_macro2` lexes (an unknown form becomes `Lit::Verbatim`), so every text gives a
/// result and none panics.
#[verifier::external_body]
pub(crate) fn string_literal_value(text: &str) -> (r: Option<String>)
    ensures
        r.is_some() == str_literal_content(text@).is_some(),
        r.is_some() ==> r->0@ == str_literal_content(text@)->0,
{
    match syn::parse_str::<syn::LitStr>(text) {
        Ok(lit) => Some(lit.value()),
        Err(_) => None,
    }
}

/// Relies on `syn::parse_str::<syn::LitInt>` to recognise an integer literal token and on
/// `syn::LitInt::base10_parse::<u64>` to read its value. As above, `syn` 2 gives a result for
/// every text.
#[verifier::external_body]
pub(crate) fn integer_literal_value(text: &str) -> (r: IntLiteral)
    ensures
        r == int_literal_value(text@),
{
    match syn::parse_str::<syn::LitInt>(text) {
        Ok(lit) => match lit.base10_parse::<u64>() {
            Ok(v) => IntLiteral::Value(v),
            Err(_) => IntLiteral::OutOfRange,
        },
        Err(_) => IntLiteral::NotAnInteger,
    }
}

} // verus!
