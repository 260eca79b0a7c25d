//! The boundary to the Rust syntax parser.
//!
//! Token text is parsed by `syn`. Nothing in this module is proved: each
//! function states which `syn` call it makes, and its result is known to the
//! rest of the crate only by name.
//!
//! `syn` reads text through `proc-macro2`, which has two lexers and two
//! printers: the compiler's and its own, called the fallback. Which one it
//! uses is a setting of the process. Every function here switches to the
//! fallback with `proc_macro2::fallback::force` before it parses, prints
//! what it hands back while the fallback is still in force, and calls
//! `proc_macro2::fallback::unforce` before it returns, after which the
//! process detects its setting anew. So every result is what the fallback
//! lexer of `proc-macro2` and its fallback printer make of the text, inside
//! a macro expansion as outside of one. The fallback lexer answers text
//! that it cannot read with an error, never with a panic. The setting is
//! shared by all threads: calls from several threads must not overlap in a
//! process in which the compiler's lexer is available.

use crate::declaration::{Annotation, AnnotationView, Delimiter, Shape};
use proc_macro2::fallback::{force, unforce};
use quote::ToTokens;
use syn::parse::Parser;
use syn::punctuated::Punctuated;
use syn::{MacroDelimiter, Meta};
use vstd::prelude::*;

verus! {

/// What `syn::parse_str::<syn::Meta>` makes of a token text that is read
/// by the fallback lexer: the annotation it parses to, with its path and its
/// arguments as the fallback printer writes them, or `None` where the text
/// is not exactly one annotation.
pub uninterp spec fn parsed_annotation(tokens: Seq<char>) -> Option<AnnotationView>;

/// What `Punctuated::<syn::Meta, syn::token::Comma>::parse_terminated` makes
/// of a token text that is read by the fallback lexer: each comma-separated
/// annotation as the fallback printer writes it, in order, or `None` where
/// the text is not such a list.
pub uninterp spec fn parsed_entries(tokens: Seq<char>) -> Option<Seq<Seq<char>>>;

/// What `syn::parse_str::<syn::Ident>` makes of a token text that is read
/// by the fallback lexer: the identifier's name as it is written in the
/// text, or `None` where the text is not exactly one identifier.
pub uninterp spec fn parsed_identifier(tokens: Seq<char>) -> Option<Seq<char>>;

/// The value of an optional annotation.
pub open spec fn optional_annotation_view(parsed: Option<Annotation>) -> Option<AnnotationView> {
    match parsed {
        Some(annotation) => Some(annotation@),
        None => None,
    }
}

/// The value of an optional list of token texts.
pub open spec fn optional_texts_view(parsed: Option<Vec<String>>) -> Option<Seq<Seq<char>>> {
    match parsed {
        Some(texts) => Some(texts@.map_values(|t: String| t@)),
        None => None,
    }
}

/// The value of an optional string.
pub open spec fn optional_text_view(parsed: Option<String>) -> Option<Seq<char>> {
    match parsed {
        Some(text) => Some(text@),
        None => None,
    }
}

/// Calls `syn::parse_str::<syn::Meta>` on `tokens`, between `force` and
/// `unforce`. On success the parsed annotation is handed back with its path
/// and its arguments as token text; on any parse error the result is
/// `None`. The contract only names the result.
#[verifier::external_body]
pub(crate) fn parse_annotation(tokens: &str) -> (parsed: Option<Annotation>)
    ensures
        optional_annotation_view(parsed) == parsed_annotation(tokens@),
{
    force();
    let parsed = syn::parse_str::<Meta>(tokens).ok().map(|meta| {
        let (shape, argument_tokens) = match &meta {
            Meta::Path(_) => (Shape::Path, String::new()),
            Meta::NameValue(pair) => (Shape::NameValue, pair.value.to_token_stream().to_string()),
            Meta::List(list) => (Shape::List(match list.delimiter {
                MacroDelimiter::Paren(_) => Delimiter::Parenthesis,
                MacroDelimiter::Bracket(_) => Delimiter::Bracket,
                MacroDelimiter::Brace(_) => Delimiter::Brace,
            }), list.tokens.to_string()),
        };
        Annotation { shape, path: meta.path().to_token_stream().to_string(), argument_tokens }
    });
    unforce();
    parsed
}

/// Calls `Punctuated::<syn::Meta, syn::token::Comma>::parse_terminated`
/// through `syn::parse::Parser::parse_str` on `tokens`, between `force` and
/// `unforce`. On success the token text of each annotation of the list is
/// handed back, in order; on any parse error the result is `None`. The
/// contract only names the result.
#[verifier::external_body]
pub(crate) fn parse_entries(tokens: &str) -> (parsed: Option<Vec<String>>)
    ensures
        optional_texts_view(parsed) == parsed_entries(tokens@),
{
    force();
    let entries = Punctuated::<Meta, syn::token::Comma>::parse_terminated.parse_str(tokens).ok();
    let parsed = entries.map(|e| e.iter().map(|m| m.to_token_stream().to_string()).collect());
    unforce();
    parsed
}

/// Calls `syn::parse_str::<syn::Ident>` on `tokens`, between `force` and
/// `unforce`. On success the identifier's name is handed back; on any parse
/// error the result is `None`. The contract only names the result.
#[verifier::external_body]
pub(crate) fn parse_identifier(tokens: &str) -> (parsed: Option<String>)
    ensures
        optional_text_view(parsed) == parsed_identifier(tokens@),
{
    force();
    let parsed = syn::parse_str::<syn::Ident>(tokens).ok().map(|identifier| identifier.to_string());
    unforce();
    parsed
}

} // verus!
