use vstd::prelude::*;
use proc_macro2::{Delimiter, Group, Ident, Punct, Spacing, Span, TokenStream, TokenTree};
use syn::LitStr;
use syn::Error as SynError;
use crate::classify::{classify, is_qname};
use crate::error::error_message;
use crate::qualified::QName;

verus! {

#[verifier::external_type_specification]
#[verifier::external_body]
pub struct ExTokenStream(proc_macro2::TokenStream);

#[verifier::external_type_specification]
#[verifier::external_body]
pub struct ExSpan(proc_macro2::Span);

#[verifier::external_type_specification]
#[verifier::external_body]
pub struct ExLitStr(syn::LitStr);

#[verifier::external_type_specification]
#[verifier::external_body]
pub struct ExSynError(SynError);

#[verifier::external_type_specification]
#[verifier::external_body]
pub struct ExTokenTree(proc_macro2::TokenTree);

/// Relies on `syn::LitStr::span`: where the literal stands in the source.
pub assume_specification[ syn::LitStr::span ](lit: &syn::LitStr) -> proc_macro2::Span;

/// Relies on `proc_macro2::Span::call_site`: the span of the macro's call.
pub assume_specification[ proc_macro2::Span::call_site ]() -> proc_macro2::Span;

/// The text of the string literal that `item` consists of, or `None` when
/// `item` is not exactly one string literal.
pub uninterp spec fn literal_value_of(item: TokenStream) -> Option<Seq<char>>;

/// Relies on `syn::parse2::<LitStr>`, to read the tokens as one string literal,
/// whose outcome depends on the tokens alone, and on `syn::LitStr::value` for
/// the text that literal denotes.
#[verifier::external_body]
fn parse_lit_str(item: TokenStream) -> (r: Result<(LitStr, String), SynError>)
    ensures
        match r {
            Ok(p) => literal_value_of(item) == Some(p.1@),
            Err(_) => literal_value_of(item) is None,
        },
{
    let lit = syn::parse2::<LitStr>(item)?;
    let value = lit.value();
    Ok((lit, value))
}

/// The text that syn's `Display` for `Error` writes: the first message.
pub uninterp spec fn syn_error_text(e: SynError) -> Seq<char>;

/// Relies on `syn::Error::new`, for a diagnostic at `span` whose one message,
/// the text `Display` writes, is `message`.
#[verifier::external_body]
fn error_at(span: Span, message: &str) -> (r: SynError)
    ensures
        syn_error_text(r) == message@,
{
    SynError::new(span, message)
}

/// The characters that `proc_macro2::Punct::new` takes without panicking.
pub open spec fn is_punct_char(c: char) -> bool {
    c == '!' || c == '#' || c == '$' || c == '%' || c == '&' || c == '\'' || c == '*' || c == '+'
        || c == ',' || c == '-' || c == '.' || c == '/' || c == ':' || c == ';' || c == '<' || c
        == '=' || c == '>' || c == '?' || c == '@' || c == '^' || c == '|' || c == '~'
}

/// An identifier of ASCII letters, digits and `_` that starts with a letter or `_`.
pub open spec fn is_ascii_ident(s: Seq<char>) -> bool {
    &&& s.len() > 0
    &&& s[0] == '_' || ('a' <= s[0] && s[0] <= 'z') || ('A' <= s[0] && s[0] <= 'Z')
    &&& forall|i: int|
        1 <= i < s.len() ==> #[trigger] s[i] == '_' || ('a' <= s[i] && s[i] <= 'z') || ('A'
            <= s[i] && s[i] <= 'Z') || ('0' <= s[i] && s[i] <= '9')
}

/// Relies on `proc_macro2::Punct::new`, which panics on a character that is not
/// punctuation; `joint` asks for `Spacing::Joint`, else `Spacing::Alone`.
#[verifier::external_body]
fn punct(c: char, joint: bool) -> (r: TokenTree)
    requires
        is_punct_char(c),
{
    let spacing = if joint {
        Spacing::Joint
    } else {
        Spacing::Alone
    };
    TokenTree::Punct(Punct::new(c, spacing))
}

/// Relies on `proc_macro2::Ident::new`, which panics on a string that is not an
/// identifier.
#[verifier::external_body]
fn ident(name: &str, span: Span) -> (r: TokenTree)
    requires
        is_ascii_ident(name@),
{
    TokenTree::Ident(Ident::new(name, span))
}

/// Relies on `proc_macro2::Group::new`, to put `inner` in parentheses.
#[verifier::external_body]
fn parenthesized(inner: TokenStream) -> (r: TokenTree) {
    TokenTree::Group(Group::new(Delimiter::Parenthesis, inner))
}

/// Relies on `syn::LitStr::token`: the literal's own token, span included.
#[verifier::external_body]
fn literal_token(lit: &LitStr) -> (r: TokenTree) {
    TokenTree::Literal(lit.token())
}

/// Relies on proc_macro2's `FromIterator<TokenTree>` for `TokenStream`, to
/// collect `trees` in order.
#[verifier::external_body]
fn stream_of(trees: Vec<TokenTree>) -> (r: TokenStream) {
    trees.into_iter().collect()
}

/// Pushes the path separator `::`.
fn push_path_separator(trees: &mut Vec<TokenTree>)
    ensures
        final(trees)@.len() == old(trees)@.len() + 2,
{
    trees.push(punct(':', true));
    trees.push(punct(':', false));
}

/// Checks the string literal `lit`, whose text is `value`: a qualified name
/// expands to the expression `::qname::QName::new_unchecked(lit)`, which builds
/// it without checking it again; any other text gives a diagnostic at the
/// literal that describes its first violation.
pub fn expand_literal(lit: &LitStr, value: &str) -> (r: Result<TokenStream, SynError>)
    ensures
        r is Ok <==> is_qname(value@),
        r is Err ==> syn_error_text(r->Err_0) == error_message(classify(value@)->0),
{
    match QName::new(value) {
        Err(e) => {
            let message = e.to_string();
            Err(error_at(lit.span(), message.as_str()))
        },
        Ok(_) => {
            let crate_name = "qname";
            let struct_name = "QName";
            let function_name = "new_unchecked";
            proof {
                reveal_strlit("qname");
                reveal_strlit("QName");
                reveal_strlit("new_unchecked");
            }
            let mut path: Vec<TokenTree> = Vec::new();
            push_path_separator(&mut path);
            path.push(ident(crate_name, Span::call_site()));
            push_path_separator(&mut path);
            path.push(ident(struct_name, Span::call_site()));
            push_path_separator(&mut path);
            path.push(ident(function_name, Span::call_site()));
            let mut argument: Vec<TokenTree> = Vec::new();
            argument.push(literal_token(lit));
            path.push(parenthesized(stream_of(argument)));
            Ok(stream_of(path))
        },
    }
}

/// The compile-time check of a `qname!` literal: `item` must be one string
/// literal, which [`expand_literal`] then checks and expands.
pub fn qname(item: TokenStream) -> (r: Result<TokenStream, SynError>)
    ensures
        literal_value_of(item) is None ==> r is Err,
        r is Ok <==> (literal_value_of(item) is Some && is_qname(literal_value_of(item)->0)),
        literal_value_of(item) is Some && !is_qname(literal_value_of(item)->0) ==> r is Err
            && syn_error_text(r->Err_0) == error_message(classify(literal_value_of(item)->0)->0),
{
    match parse_lit_str(item) {
        Err(e) => Err(e),
        Ok((lit, value)) => expand_literal(&lit, value.as_str()),
    }
}

} // verus!
