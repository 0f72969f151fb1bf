use std::cmp::Ordering;

use graphql_syntax::{Identifier, List, Location, SourceLocationKey, Span, StringKey, Token, TokenKind};

fn ident(name: &'static str, start: u32, end: u32) -> Identifier {
    Identifier {
        token: Token { span: Span::new(start, end), kind: TokenKind::Identifier },
        value: StringKey::from_static(name),
    }
}

#[test]
fn span_new_and_empty() {
    let span = Span::new(4, 9);
    assert_eq!(span.start, 4);
    assert_eq!(span.end, 9);
    assert_eq!(Span::empty(), Span { start: 0, end: 0 });
}

#[test]
fn identifier_span_is_its_token_span() {
    let id = ident("name", 12, 16);
    assert_eq!(id.span(), Span::new(12, 16));
}

#[test]
fn identifier_to_string_is_its_name() {
    assert_eq!(ident("friends", 0, 7).to_string(), "friends".to_string());
    assert_eq!(ident("", 0, 0).to_string(), String::new());
}

#[test]
fn identifiers_order_by_name() {
    assert_eq!(ident("a", 0, 1).cmp(&ident("b", 0, 1)), Ordering::Less);
    assert_eq!(ident("b", 0, 1).cmp(&ident("a", 0, 1)), Ordering::Greater);
    assert_eq!(ident("ab", 0, 2).cmp(&ident("b", 0, 1)), Ordering::Less);
    assert_eq!(ident("a", 0, 1).cmp(&ident("ab", 0, 2)), Ordering::Less);
    assert_eq!(ident("", 0, 0).cmp(&ident("a", 0, 1)), Ordering::Less);
    assert_eq!(ident("", 0, 0).cmp(&ident("", 5, 5)), Ordering::Equal);
    assert_eq!(ident("User", 0, 4).cmp(&ident("user", 0, 4)), Ordering::Less);
    // Code points beyond ASCII: 'é' (U+00E9) comes after 'z'.
    assert_eq!(ident("é", 0, 2).cmp(&ident("z", 0, 1)), Ordering::Greater);
    assert_eq!(ident("aé", 0, 3).cmp(&ident("aé", 0, 3)), Ordering::Equal);
}

#[test]
fn identifier_order_agrees_with_str_order() {
    let names = ["", "a", "ab", "abc", "b", "B", "id", "node", "é", "日本", "zz"];
    for &x in names.iter() {
        for &y in names.iter() {
            assert_eq!(ident(x, 0, 0).cmp(&ident(y, 0, 0)), x.cmp(y));
        }
    }
}

#[test]
fn identifier_order_ignores_where_the_name_was_read() {
    let here = ident("node", 3, 7);
    let there = ident("node", 40, 44);
    assert_eq!(here.cmp(&there), Ordering::Equal);
    assert_eq!(here.partial_cmp(&there), Some(Ordering::Equal));
    // Equality, unlike the order, also compares the tokens.
    assert!(here != there);
    assert!(here == ident("node", 3, 7));
}

#[test]
fn identifier_partial_cmp_is_cmp() {
    let a = ident("alias", 0, 5);
    let b = ident("name", 6, 10);
    assert_eq!(a.partial_cmp(&b), Some(a.cmp(&b)));
    assert_eq!(b.partial_cmp(&a), Some(Ordering::Greater));
    assert!(a < b);
    assert!(b > a);
    assert!(a <= ident("alias", 9, 14));
}

#[test]
fn identifier_order_is_antisymmetric_and_transitive() {
    let a = ident("a", 0, 1);
    let b = ident("b", 0, 1);
    let c = ident("c", 0, 1);
    assert_eq!(a.cmp(&b), b.cmp(&a).reverse());
    assert_eq!(a.cmp(&b), Ordering::Less);
    assert_eq!(b.cmp(&c), Ordering::Less);
    assert_eq!(a.cmp(&c), Ordering::Less);
}

#[test]
fn name_with_location_places_the_name_at_its_span() {
    let id = ident("friends", 20, 27);
    let file = SourceLocationKey::standalone("exec.graphql");
    let located = id.name_with_location(file);
    assert_eq!(located.item, StringKey::from_static("friends"));
    assert_eq!(located.location, Location::new(file, Span::new(20, 27)));
    assert_eq!(located.location.source_location(), file);
    assert_eq!(located.location.span(), Span::new(20, 27));

    let generated = id.name_with_location(SourceLocationKey::generated());
    assert_eq!(generated.location.source_location(), SourceLocationKey::Generated);
}

#[test]
fn list_span_runs_from_open_to_close() {
    let list = List {
        start: Token { span: Span::new(2, 3), kind: TokenKind::OpenBrace },
        items: vec![ident("id", 6, 8), ident("name", 11, 15)],
        end: Token { span: Span::new(18, 19), kind: TokenKind::CloseBrace },
    };
    assert_eq!(list.span(), Span::new(2, 19));

    let empty: List<Identifier> = List {
        start: Token { span: Span::new(5, 6), kind: TokenKind::OpenParen },
        items: Vec::new(),
        end: Token { span: Span::new(6, 7), kind: TokenKind::CloseParen },
    };
    assert_eq!(empty.span(), Span::new(5, 7));
}

#[test]
fn generated_list_has_empty_braces() {
    let list = List::generated(vec![1u32, 2, 3]);
    assert_eq!(list.items, vec![1, 2, 3]);
    assert_eq!(list.start, Token { span: Span::empty(), kind: TokenKind::OpenBrace });
    assert_eq!(list.end, Token { span: Span::empty(), kind: TokenKind::CloseBrace });
    assert_eq!(list.span(), Span::empty());

    let none: List<u32> = List::generated(Vec::new());
    assert!(none.items.is_empty());
    assert_eq!(none.span(), Span::new(0, 0));
}

#[test]
fn string_key_compares_and_looks_up() {
    let key = StringKey::from_static("User");
    assert_eq!(key.lookup(), "User");
    assert_eq!(key.cmp(&StringKey::from_static("Users")), Ordering::Less);
    assert_eq!(key, StringKey::from_static("User"));
}

#[test]
fn list_with_empty_braces_is_generated_from_its_items() {
    let list = List {
        start: Token { span: Span::empty(), kind: TokenKind::OpenBrace },
        items: vec![ident("id", 0, 0), ident("name", 0, 0)],
        end: Token { span: Span::empty(), kind: TokenKind::CloseBrace },
    };
    assert_eq!(List::generated(list.items.clone()), list);

    let parsed = List {
        start: Token { span: Span::new(0, 1), kind: TokenKind::OpenBrace },
        items: vec![ident("id", 2, 4)],
        end: Token { span: Span::new(5, 6), kind: TokenKind::CloseBrace },
    };
    assert_ne!(List::generated(parsed.items.clone()), parsed);
}
