//! Keyword classification and token-value materialization for a SQL-dialect
//! tokenizer front end.
//!
//! Given an identifier-like byte span that a scanner has already uppercased,
//! [`keyword_token`] decides whether it is a reserved keyword and which grammar
//! terminal it maps to. [`TokenType::into_token`] materializes the token's
//! value, attaching an owned payload only to the kinds whose text the kind
//! alone cannot reconstruct. [`from_token`] is the partial inverse: it recovers
//! a token's canonical text from its kind's numeric code when no payload was
//! kept. [`is_identifier`] validates identifier spellings byte-wise.
#![allow(non_camel_case_types)]

mod ident;
mod keywords;
pub mod laws;
mod materialize;
mod reconstruct;
mod token;

pub use crate::ident::is_identifier;
pub use crate::ident::is_identifier_continue;
pub use crate::ident::is_identifier_start;
pub use crate::ident::spec_is_identifier;
pub use crate::ident::spec_is_identifier_continue;
pub use crate::ident::spec_is_identifier_start;
pub use crate::keywords::MAX_KEYWORD_LEN;
pub use crate::keywords::ascii_bytes;
pub use crate::keywords::keyword_kind_of;
pub use crate::keywords::keyword_token;
pub use crate::materialize::Token;
pub use crate::materialize::from_bytes;
pub use crate::materialize::has_payload;
pub use crate::reconstruct::canonical_spelling;
pub use crate::reconstruct::from_token;
pub use crate::reconstruct::kind_from_code;
pub use crate::reconstruct::kind_of_code;
pub use crate::reconstruct::reconstructed_spelling;
pub use crate::reconstruct::spelling;
pub use crate::token::TokenType;
pub use crate::token::token_code;
