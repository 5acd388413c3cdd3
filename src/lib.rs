//! XML qualified names (`prefix:local` or `local`): a character-class
//! grammar, a validating parser, a typed, immutable name value, and the
//! compile-time check of a name literal.

mod classify;
mod error;
mod expand;
mod grammar;
mod qualified;

pub use classify::{
    classify, first_bad_from, first_qname_error, is_qname, lemma_is_qname_chars, reports,
};
pub use error::{char_debug_text, error_message, Error, ErrorKind};
pub use expand::{
    expand_literal, is_ascii_ident, is_punct_char, literal_value_of, qname, syn_error_text,
};
pub use grammar::{is_name_char, is_name_start_char, spec_is_name_char, spec_is_name_start_char};
pub use qualified::{
    colon_from, is_valid_qname, lemma_colon_from, lemma_legal_chars_parse,
    lemma_reparse_prefixed_name, lemma_split_reconstructs, split_name, QName, QNameView,
};
