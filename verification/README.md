# graphql_syntax

The primitive nodes of a GraphQL syntax tree, verified with Verus:

- `Span`: a byte range into the source text.
- `TokenKind`, `Token`: a lexical token and the span it was read from.
- `StringKey`: an interned name, ordered lexicographically by its text.
- `SourceLocationKey`, `Location`, `WithLocation`: where a value was read.
- `Identifier`: a name with its token, ordered by its name alone.
- `List`: a bracketed sequence of items, and braces-only lists made for
  generated nodes.

`src/` is the verified library. `app/` holds the text forms (`Display` and
`Debug` with spans), which go through `core::fmt` and so stay unverified.
