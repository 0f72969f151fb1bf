use vstd::prelude::*;
use std::cmp::Ordering;

verus! {

/// An interned name. Two keys stand for the same name exactly when their
/// texts are equal, and keys are ordered by their texts.
#[derive(Clone, Copy, Debug, PartialEq, Eq, Hash)]
pub struct StringKey {
    text: &'static str,
}

impl View for StringKey {
    type V = Seq<char>;

    closed spec fn view(&self) -> Seq<char> {
        self.text@
    }
}

/// Lexicographic order of two texts, character by character (by code
/// point); a proper prefix comes first.
pub open spec fn text_order(a: Seq<char>, b: Seq<char>) -> Ordering
    decreases a.len(),
{
    if a.len() == 0 {
        if b.len() == 0 {
            Ordering::Equal
        } else {
            Ordering::Less
        }
    } else if b.len() == 0 {
        Ordering::Greater
    } else if a[0] < b[0] {
        Ordering::Less
    } else if b[0] < a[0] {
        Ordering::Greater
    } else {
        text_order(a.drop_first(), b.drop_first())
    }
}

/// The opposite order: what `text_order(b, a)` is when `text_order(a, b)` is
/// `order`.
pub open spec fn flipped(order: Ordering) -> Ordering {
    match order {
        Ordering::Less => Ordering::Greater,
        Ordering::Equal => Ordering::Equal,
        Ordering::Greater => Ordering::Less,
    }
}

/// Two texts are ordered `Equal` exactly when they are the same text.
pub(crate) proof fn lemma_text_order_equal(a: Seq<char>, b: Seq<char>)
    ensures
        (text_order(a, b) == Ordering::Equal) <==> (a == b),
    decreases a.len(),
{
    if a.len() == 0 && b.len() == 0 {
        assert(a =~= b);
    } else if a.len() > 0 && b.len() > 0 && a[0] == b[0] {
        lemma_text_order_equal(a.drop_first(), b.drop_first());
        if a.drop_first() == b.drop_first() {
            assert(a =~= b) by {
                assert forall|i: int| 0 <= i < a.len() implies a[i] == b[i] by {
                    if i > 0 {
                        assert(a[i] == a.drop_first()[i - 1]);
                        assert(b[i] == b.drop_first()[i - 1]);
                    }
                }
            }
        }
    }
}

/// Swapping the texts flips their order.
pub(crate) proof fn lemma_text_order_flip(a: Seq<char>, b: Seq<char>)
    ensures
        text_order(b, a) == flipped(text_order(a, b)),
    decreases a.len(),
{
    if a.len() > 0 && b.len() > 0 && a[0] == b[0] {
        lemma_text_order_flip(a.drop_first(), b.drop_first());
    }
}

/// The strict order on texts is transitive.
pub(crate) proof fn lemma_text_order_transitive(a: Seq<char>, b: Seq<char>, c: Seq<char>)
    requires
        text_order(a, b) == Ordering::Less,
        text_order(b, c) == Ordering::Less,
    ensures
        text_order(a, c) == Ordering::Less,
    decreases a.len(),
{
    if a.len() > 0 && b.len() > 0 && c.len() > 0 && a[0] == b[0] && b[0] == c[0] {
        lemma_text_order_transitive(a.drop_first(), b.drop_first(), c.drop_first());
    }
}

/// `a` comes before `b` at position `i`: the two agree on their first `i`
/// characters, and there `a` has ended while `b` goes on, or `a` has the
/// smaller character (by code point).
pub open spec fn precedes_at(a: Seq<char>, b: Seq<char>, i: int) -> bool {
    &&& 0 <= i <= a.len()
    &&& i <= b.len()
    &&& forall|j: int| 0 <= j < i ==> a[j] == b[j]
    &&& (i == a.len() && i < b.len()) || (i < a.len() && i < b.len() && a[i] < b[i])
}

/// `text_order(a, b)` is `Less` exactly when `a` comes before `b` at some
/// position.
pub(crate) proof fn lemma_text_order_less(a: Seq<char>, b: Seq<char>)
    ensures
        (text_order(a, b) == Ordering::Less) <==> (exists|i: int| precedes_at(a, b, i)),
    decreases a.len(),
{
    if a.len() == 0 {
        if b.len() > 0 {
            assert(precedes_at(a, b, 0));
        }
    } else if b.len() == 0 {
    } else if a[0] < b[0] {
        assert(precedes_at(a, b, 0));
    } else if b[0] < a[0] {
        assert forall|i: int| !precedes_at(a, b, i) by {
            if precedes_at(a, b, i) && i > 0 {
                assert(a[0] == b[0]);
            }
        }
    } else {
        let ta = a.drop_first();
        let tb = b.drop_first();
        lemma_text_order_less(ta, tb);
        if text_order(ta, tb) == Ordering::Less {
            let k = choose|k: int| precedes_at(ta, tb, k);
            assert forall|j: int| 0 <= j < k + 1 implies a[j] == b[j] by {
                if j > 0 {
                    assert(a[j] == ta[j - 1]);
                    assert(b[j] == tb[j - 1]);
                }
            }
            assert(precedes_at(a, b, k + 1));
        } else {
            assert forall|i: int| !precedes_at(a, b, i) by {
                if precedes_at(a, b, i) {
                    if i > 0 {
                        assert forall|j: int| 0 <= j < i - 1 implies ta[j] == tb[j] by {
                            assert(a[j + 1] == b[j + 1]);
                        }
                        assert(precedes_at(ta, tb, i - 1));
                    }
                }
            }
        }
    }
}

impl StringKey {
    /// The key of the name `text`.
    pub fn from_static(text: &'static str) -> (key: StringKey)
        ensures
            key@ == text@,
    {
        StringKey { text }
    }

    /// The text of the name.
    pub fn lookup(&self) -> (text: &'static str)
        ensures
            text@ == self@,
    {
        self.text
    }

    /// Keys are ordered by their texts, lexicographically by code point: `x`
    /// comes before `y` exactly when, at the first position where they
    /// differ, `x` has ended or has the smaller character; they are `Equal`
    /// exactly when their texts are the same; and `x` comes after `y`
    /// exactly when `y` comes before `x`.
    pub proof fn order_is_lexicographic(x: StringKey, y: StringKey)
        ensures
            (text_order(x@, y@) == Ordering::Less) <==> (exists|i: int| precedes_at(x@, y@, i)),
            (text_order(x@, y@) == Ordering::Equal) <==> (x@ == y@),
            (text_order(x@, y@) == Ordering::Greater) <==> (exists|i: int| precedes_at(y@, x@, i)),
    {
        lemma_text_order_less(x@, y@);
        lemma_text_order_less(y@, x@);
        lemma_text_order_equal(x@, y@);
        lemma_text_order_flip(x@, y@);
    }

    /// Compares the names' texts lexicographically.
    pub fn cmp(&self, other: &StringKey) -> (order: Ordering)
        ensures
            order == text_order(self@, other@),
    {
        broadcast use vstd::string::axiom_spec_iter, vstd::string::next_postcondition;

        let mut left = self.text.chars();
        let mut right = other.text.chars();
        loop
            invariant
                text_order(vstd::std_specs::iter::IteratorSpec::remaining(&left), vstd::std_specs::iter::IteratorSpec::remaining(&right)) == text_order(self@, other@),
                vstd::std_specs::iter::IteratorSpec::decrease(&left) is Some,
            decreases vstd::std_specs::iter::IteratorSpec::decrease(&left)->0,
        {
            let l = left.next();
            let r = right.next();
            match (l, r) {
                (None, None) => {
                    return Ordering::Equal;
                },
                (None, Some(_)) => {
                    return Ordering::Less;
                },
                (Some(_), None) => {
                    return Ordering::Greater;
                },
                (Some(x), Some(y)) => {
                    if x < y {
                        return Ordering::Less;
                    } else if y < x {
                        return Ordering::Greater;
                    }
                },
            }
        }
    }
}

} // verus!
