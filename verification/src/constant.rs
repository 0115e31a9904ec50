//! Top-level constant declarations gathered at build time from annotated
//! source items, and the token rendering of their values.
//!
//! The declaration syntax arrives as a parsed `const` item; its name and
//! value text are extracted and recorded in the [`Registry`], which
//! enforces that constants precede the startup callback.

use vstd::prelude::*;

use crate::errors::BindingError;
use crate::registry::Registry;

verus! {

#[verifier::external_type_specification]
#[verifier::external_body]
pub struct ExTokenStream(proc_macro2::TokenStream);

#[verifier::external_type_specification]
#[verifier::external_body]
pub struct ExLiteral(proc_macro2::Literal);

#[verifier::external_type_specification]
#[verifier::external_body]
pub struct ExIdent(proc_macro2::Ident);

#[verifier::external_type_specification]
#[verifier::external_body]
pub struct ExItemConst(syn::ItemConst);

/// Whether a string is exactly one Rust literal token.
pub uninterp spec fn parses_as_literal(s: Seq<char>) -> bool;

/// Whether a string is exactly one non-keyword Rust identifier.
pub uninterp spec fn parses_as_ident(s: Seq<char>) -> bool;

/// Relies on `proc_macro2::Ident`'s `Display` (via `ToString`): returns the
/// identifier's text.
#[verifier::external_body]
fn item_const_name(input: &syn::ItemConst) -> String {
    input.ident.to_string()
}

/// Relies on `quote::ToTokens::to_token_stream` for `syn::Expr`: re-emits
/// the item's value expression as tokens.
#[verifier::external_body]
fn item_const_expr_tokens(input: &syn::ItemConst) -> proc_macro2::TokenStream {
    quote::ToTokens::to_token_stream(&input.expr)
}

/// Relies on `proc_macro2::TokenStream`'s `Display` (via `ToString`):
/// renders tokens as source text.
#[verifier::external_body]
fn tokens_text(t: &proc_macro2::TokenStream) -> String {
    t.to_string()
}

/// Relies on `syn::parse_str` with `proc_macro2::Literal`: the parse
/// succeeds exactly when the whole string is one literal token, a fact of
/// the string alone.
#[verifier::external_body]
fn parse_literal(s: &str) -> (r: Option<proc_macro2::Literal>)
    ensures
        r is Some <==> parses_as_literal(s@),
{
    syn::parse_str::<proc_macro2::Literal>(s).ok()
}

/// Relies on `syn::parse_str` with `proc_macro2::Ident`: the parse succeeds
/// exactly when the whole string is one non-keyword identifier, a fact of
/// the string alone.
#[verifier::external_body]
fn parse_ident(s: &str) -> (r: Option<proc_macro2::Ident>)
    ensures
        r is Some <==> parses_as_ident(s@),
{
    syn::parse_str::<proc_macro2::Ident>(s).ok()
}

/// Relies on `quote::ToTokens::to_token_stream` for `proc_macro2::Literal`.
#[verifier::external_body]
fn literal_tokens(l: &proc_macro2::Literal) -> proc_macro2::TokenStream {
    quote::ToTokens::to_token_stream(l)
}

/// Relies on `quote::ToTokens::to_token_stream` for `proc_macro2::Ident`.
#[verifier::external_body]
fn ident_tokens(i: &proc_macro2::Ident) -> proc_macro2::TokenStream {
    quote::ToTokens::to_token_stream(i)
}

/// Relies on `str::parse` with `proc_macro2::TokenStream`'s `FromStr`:
/// tokenizes the fixed fallback expression.
#[verifier::external_body]
fn default_value_tokens() -> proc_macro2::TokenStream {
    "Default::default()".parse::<proc_macro2::TokenStream>().unwrap_or_default()
}

/// Relies on `quote::ToTokens::to_token_stream` for `syn::ItemConst`:
/// re-emits the declared item unchanged.
#[verifier::external_body]
fn item_tokens(input: &syn::ItemConst) -> proc_macro2::TokenStream {
    quote::ToTokens::to_token_stream(input)
}

/// A top-level constant gathered at build time: its declared name and the
/// source text of its value expression.
#[derive(Debug, Clone, PartialEq, Eq)]
pub struct Constant {
    pub name: String,
    pub value: String,
}

impl Constant {
    /// Renders the recorded value as tokens: as the literal it parses to,
    /// else as the identifier it parses to, else as a defaulted value.
    pub fn val_tokens(&self) -> proc_macro2::TokenStream {
        match parse_literal(self.value.as_str()) {
            Some(l) => literal_tokens(&l),
            None => match parse_ident(self.value.as_str()) {
                Some(id) => ident_tokens(&id),
                None => default_value_tokens(),
            },
        }
    }
}

/// Records a declared `const` item as a top-level constant and re-emits the
/// item's tokens.
///
/// Declaring a constant after the startup callback has been declared is
/// rejected with `OrderingViolation`; after the registry was consumed, with
/// `AlreadyBuilt`. On rejection the registry is unchanged.
pub fn parser(reg: &mut Registry, input: &syn::ItemConst) -> (r: Result<
    proc_macro2::TokenStream,
    BindingError,
>)
    ensures
        old(reg).consumed ==> (r matches Err(e) && e == BindingError::AlreadyBuilt) && *final(reg)
            == *old(reg),
        !old(reg).consumed && old(reg).startup is Some ==> (r matches Err(
            BindingError::OrderingViolation(m),
        ) && m@ == "constants must precede startup"@) && *final(reg) == *old(reg),
        !old(reg).consumed && old(reg).startup is None ==> (r is Ok && final(reg).constants@.len() == old(
            reg,
        ).constants@.len() + 1 && final(reg).constants@.subrange(0, old(reg).constants@.len() as int)
            == old(reg).constants@ && final(reg).classes == old(reg).classes && final(reg).startup == old(
            reg,
        ).startup && !final(reg).consumed),
{
    let name = item_const_name(input);
    let value = tokens_text(&item_const_expr_tokens(input));
    match reg.declare_constant(Constant { name, value }) {
        Ok(_) => {
            proof {
                assert(reg.constants@.subrange(0, old(reg).constants@.len() as int) =~= old(
                    reg,
                ).constants@);
            }
            Ok(item_tokens(input))
        },
        Err(e) => Err(e),
    }
}

} // verus!
