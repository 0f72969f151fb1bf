use vstd::prelude::*;

use crate::intern::StringKey;
use crate::span::Span;

verus! {

/// The source a piece of text came from.
#[derive(Clone, Copy, Debug, PartialEq, Eq, Hash)]
pub enum SourceLocationKey {
    /// The `index`-th document embedded in the file at `path`.
    Embedded { path: StringKey, index: u16 },
    /// A file at `path` that holds one document.
    Standalone { path: StringKey },
    /// Text that was produced rather than read from a file.
    Generated,
}

impl SourceLocationKey {
    /// The key of the standalone document at `path`.
    pub fn standalone(path: &'static str) -> (key: SourceLocationKey)
        ensures
            key matches SourceLocationKey::Standalone { path: p } && p@ == path@,
    {
        SourceLocationKey::Standalone { path: StringKey::from_static(path) }
    }

    /// The key of text that no file holds.
    pub fn generated() -> (key: SourceLocationKey)
        ensures
            key == SourceLocationKey::Generated,
    {
        SourceLocationKey::Generated
    }
}

/// A span within a given source.
#[derive(Clone, Copy, Debug, PartialEq, Eq, Hash)]
pub struct Location {
    pub source_location: SourceLocationKey,
    pub span: Span,
}

impl Location {
    /// The location of `span` in `source_location`.
    pub fn new(source_location: SourceLocationKey, span: Span) -> (location: Location)
        ensures
            location.source_location == source_location,
            location.span == span,
    {
        Location { source_location, span }
    }

    /// The source this location lies in.
    pub fn source_location(&self) -> (key: SourceLocationKey)
        ensures
            key == self.source_location,
    {
        self.source_location
    }

    /// The span this location covers.
    pub fn span(&self) -> (span: Span)
        ensures
            span == self.span,
    {
        self.span
    }
}

/// A value together with the location it was read from.
#[derive(Clone, Copy, Debug, PartialEq, Eq, Hash)]
pub struct WithLocation<T> {
    pub location: Location,
    pub item: T,
}

impl<T> WithLocation<T> {
    /// `item` located at `location`.
    pub fn new(location: Location, item: T) -> (located: WithLocation<T>)
        ensures
            located.location == location,
            located.item == item,
    {
        WithLocation { location, item }
    }

    /// `item` located at `span` within `source_location`.
    pub fn from_span(source_location: SourceLocationKey, span: Span, item: T) -> (located:
        WithLocation<T>)
        ensures
            located.location == (Location { source_location, span }),
            located.item == item,
    {
        WithLocation { location: Location::new(source_location, span), item }
    }
}

} // verus!
