use vstd::prelude::*;

verus! {

/// The kinds of lexical tokens of a GraphQL source text, including the
/// kinds the lexer reports for malformed input.
#[derive(Clone, Copy, Debug, PartialEq, Eq, Structural, PartialOrd, Ord, Hash)]
pub enum TokenKind {
    Error,
    ErrorFloatLiteralMissingZero,
    ErrorNumberLiteralLeadingZero,
    ErrorNumberLiteralTrailingInvalid,
    ErrorUnsupportedStringCharacter,
    ErrorUnterminatedString,
    ErrorUnterminatedBlockString,
    Empty,
    Identifier,
    IntegerLiteral,
    FloatLiteral,
    StringLiteral,
    BlockStringLiteral,
    Ampersand,
    At,
    CloseBrace,
    CloseBracket,
    CloseParen,
    Colon,
    Dollar,
    EndOfFile,
    Equals,
    Exclamation,
    OpenBrace,
    OpenBracket,
    OpenParen,
    Pipe,
    Spread,
}

} // verus!
