use vstd::prelude::*;
use std::cmp::Ordering;

use crate::intern::{
    StringKey,
    precedes_at,
    text_order,
    flipped,
    lemma_text_order_equal,
    lemma_text_order_flip,
    lemma_text_order_transitive,
};
use crate::location::{Location, SourceLocationKey, WithLocation};
use crate::span::Span;
use crate::token_kind::TokenKind;

verus! {

/// A lexical token: its kind and the span of source text it was read from.
#[derive(Clone, Copy, Debug, PartialEq, Eq, Structural, PartialOrd, Ord, Hash)]
pub struct Token {
    pub span: Span,
    pub kind: TokenKind,
}

/// A name in a document, with the token it was read from.
#[derive(Clone, Copy, Debug, PartialEq, Eq, Hash)]
pub struct Identifier {
    pub token: Token,
    pub value: StringKey,
}

impl Identifier {
    /// The span of the identifier's token.
    pub fn span(&self) -> (span: Span)
        ensures
            span == self.token.span,
    {
        self.token.span
    }

    /// The order of identifiers: by their names alone, lexicographically;
    /// where the names were read from plays no part.
    pub open spec fn ordering(self, other: Identifier) -> Ordering {
        text_order(self.value@, other.value@)
    }

    /// Compares two identifiers by their names.
    pub fn cmp(&self, other: &Identifier) -> (order: Ordering)
        ensures
            order == self.ordering(*other),
    {
        self.value.cmp(&other.value)
    }

    /// The identifier's name, located at the identifier's span in `file`.
    pub fn name_with_location(&self, file: SourceLocationKey) -> (name: WithLocation<StringKey>)
        ensures
            name.location == (Location { source_location: file, span: self.token.span }),
            name.item == self.value,
    {
        WithLocation::from_span(file, self.span(), self.value)
    }

    /// The text of the identifier's name.
    pub fn to_string(&self) -> (text: String)
        ensures
            text@ == self.value@,
    {
        self.value.lookup().to_owned()
    }
}

impl PartialOrd for Identifier {
    fn partial_cmp(&self, other: &Identifier) -> (order: Option<Ordering>) {
        Some(self.cmp(other))
    }
}

impl vstd::std_specs::cmp::PartialOrdSpecImpl for Identifier {
    open spec fn obeys_partial_cmp_spec() -> bool {
        true
    }

    open spec fn partial_cmp_spec(&self, other: &Identifier) -> Option<Ordering> {
        Some(self.ordering(*other))
    }
}

/// Identifiers are ordered by their names, lexicographically by code point:
/// `a` comes before `b` exactly when, at the first position where their names
/// differ, `a`'s name has ended or has the smaller character; they are `Equal`
/// exactly when their names are the same text; and `a` comes after `b` exactly
/// when `b` comes before `a`.
pub proof fn identifier_order_is_lexicographic(a: Identifier, b: Identifier)
    ensures
        (a.ordering(b) == Ordering::Less) <==> (exists|i: int| precedes_at(a.value@, b.value@, i)),
        (a.ordering(b) == Ordering::Equal) <==> (a.value@ == b.value@),
        (a.ordering(b) == Ordering::Greater) <==> (exists|i: int|
            precedes_at(b.value@, a.value@, i)),
{
    StringKey::order_is_lexicographic(a.value, b.value);
}

/// `partial_cmp` (and so `<`, `<=`, `>`, `>=`) always gives an order, the
/// same as `cmp`: `Less` exactly when `a`'s name comes before `b`'s
/// lexicographically, `Equal` exactly when the names are the same text.
pub proof fn identifier_partial_cmp_is_cmp(a: Identifier, b: Identifier)
    ensures
        vstd::std_specs::cmp::PartialOrdSpec::partial_cmp_spec(&a, &b) == Some(a.ordering(b)),
        (vstd::std_specs::cmp::PartialOrdSpec::partial_cmp_spec(&a, &b) == Some(Ordering::Less))
            <==> (exists|i: int| precedes_at(a.value@, b.value@, i)),
        (vstd::std_specs::cmp::PartialOrdSpec::partial_cmp_spec(&a, &b) == Some(Ordering::Equal))
            <==> (a.value@ == b.value@),
        (vstd::std_specs::cmp::PartialOrdSpec::partial_cmp_spec(&a, &b) == Some(
            Ordering::Greater,
        )) <==> (exists|i: int| precedes_at(b.value@, a.value@, i)),
{
    identifier_order_is_lexicographic(a, b);
}

/// Two identifiers are ordered `Equal` exactly when their names are the same
/// text.
pub proof fn identifier_order_equal_iff_same_name(a: Identifier, b: Identifier)
    ensures
        (a.ordering(b) == Ordering::Equal) <==> (a.value@ == b.value@),
{
    lemma_text_order_equal(a.value@, b.value@);
}

/// Comparing in the other direction gives the opposite order.
pub proof fn identifier_order_antisymmetric(a: Identifier, b: Identifier)
    ensures
        b.ordering(a) == flipped(a.ordering(b)),
{
    lemma_text_order_flip(a.value@, b.value@);
}

/// If `a` comes before `b` and `b` before `c`, then `a` comes before `c`.
pub proof fn identifier_order_transitive(a: Identifier, b: Identifier, c: Identifier)
    requires
        a.ordering(b) == Ordering::Less,
        b.ordering(c) == Ordering::Less,
    ensures
        a.ordering(c) == Ordering::Less,
{
    lemma_text_order_transitive(a.value@, b.value@, c.value@);
}

/// A bracketed, possibly empty sequence of items: the opening token, the
/// items, and the closing token.
#[derive(Clone, Debug, PartialEq, Eq, PartialOrd, Ord, Hash)]
pub struct List<T> {
    pub start: Token,
    pub items: Vec<T>,
    pub end: Token,
}

impl<T> List<T> {
    /// The span from the start of the opening token to the end of the
    /// closing token.
    pub open spec fn covered_span(self) -> Span {
        Span { start: self.start.span.start, end: self.end.span.end }
    }

    /// The list that `generated` makes of `items`: braces with empty spans
    /// around them.
    pub open spec fn generated_from(items: Vec<T>) -> List<T> {
        List {
            start: Token { span: Span::zero(), kind: TokenKind::OpenBrace },
            items,
            end: Token { span: Span::zero(), kind: TokenKind::CloseBrace },
        }
    }

    /// The list is delimited by braces whose spans are empty, as the lists
    /// that `generated` makes are.
    pub open spec fn has_generated_braces(self) -> bool {
        &&& self.start == (Token { span: Span::zero(), kind: TokenKind::OpenBrace })
        &&& self.end == (Token { span: Span::zero(), kind: TokenKind::CloseBrace })
    }

    /// The span from the start of the opening token to the end of the
    /// closing token.
    pub fn span(&self) -> (span: Span)
        ensures
            span == self.covered_span(),
    {
        Span { start: self.start.span.start, end: self.end.span.end }
    }

    /// A list of `items` that was not read from any source text: it is
    /// delimited by braces whose spans are empty.
    pub fn generated(items: Vec<T>) -> (list: Self)
        ensures
            list == Self::generated_from(items),
    {
        List {
            start: Token { span: Span::empty(), kind: TokenKind::OpenBrace },
            items,
            end: Token { span: Span::empty(), kind: TokenKind::CloseBrace },
        }
    }
}

/// Every list covers the span from the start of its opening token to the end
/// of its closing token, whatever its items.
pub proof fn list_span_runs_between_delimiters<T>(list: List<T>)
    ensures
        list.covered_span().start == list.start.span.start,
        list.covered_span().end == list.end.span.end,
{
}

/// A generated list covers the empty span at offset zero, whatever its
/// items.
pub proof fn generated_list_span_is_empty<T>(items: Vec<T>)
    ensures
        List::<T>::generated_from(items).covered_span() == Span::zero(),
        List::<T>::generated_from(items).items == items,
{
}

/// The generated lists are exactly the lists delimited by empty-span
/// braces: every generated list has such braces, and such a list is the
/// list generated from its own items.
pub proof fn generated_lists_are_the_empty_braced_lists<T>(items: Vec<T>, list: List<T>)
    ensures
        List::<T>::generated_from(items).has_generated_braces(),
        list.has_generated_braces() ==> List::<T>::generated_from(list.items) == list,
{
}

} // verus!
