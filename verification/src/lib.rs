//! Primitive syntax nodes of a GraphQL document: tokens, identifiers and
//! delimited lists, together with the source spans, locations and interned
//! names they carry.

mod intern;
mod location;
mod relay_primitive;
mod span;
mod token_kind;

pub use intern::{StringKey, flipped, precedes_at, text_order};
pub use location::{Location, SourceLocationKey, WithLocation};
pub use relay_primitive::{
    Identifier,
    List,
    Token,
    generated_list_span_is_empty,
    generated_lists_are_the_empty_braced_lists,
    identifier_order_antisymmetric,
    identifier_order_equal_iff_same_name,
    identifier_order_is_lexicographic,
    identifier_partial_cmp_is_cmp,
    list_span_runs_between_delimiters,
    identifier_order_transitive,
};
pub use span::Span;
pub use token_kind::TokenKind;
