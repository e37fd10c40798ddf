//! Helper functions to convert multiple values at once to `NonEmpty`.
//!
//! Every helper is all-or-nothing: it succeeds exactly when each argument is
//! non-empty, and a single uniform failure covers every other case — no
//! partial result is ever returned.

use vstd::prelude::*;

use crate::NonEmpty;
use crate::TryNonEmpty;

verus! {

/// Convert two values to a tuple of `NonEmpty`'s or fail.
pub fn try_non_empty2<A, B>(a: A, b: B) -> (r: Option<(NonEmpty<A>, NonEmpty<B>)>) where
    A: TryNonEmpty,
    B: TryNonEmpty,

    ensures
        (r is Some) <==> (!a.empty_spec() && !b.empty_spec()),
        r matches Some(t) ==> t.0@ == a && t.1@ == b,
{
    if let (Some(a), Some(b)) = (a.try_non_empty(), b.try_non_empty()) {
        return Some((a, b));
    }
    return None;
}

/// Convert three values to a tuple of `NonEmpty`'s or fail.
pub fn try_non_empty3<A, B, C>(a: A, b: B, c: C) -> (r: Option<
    (NonEmpty<A>, NonEmpty<B>, NonEmpty<C>),
>) where
    A: TryNonEmpty,
    B: TryNonEmpty,
    C: TryNonEmpty,

    ensures
        (r is Some) <==> (!a.empty_spec() && !b.empty_spec() && !c.empty_spec()),
        r matches Some(t) ==> t.0@ == a && t.1@ == b && t.2@ == c,
{
    if let (Some(a), Some(b), Some(c)) = (a.try_non_empty(), b.try_non_empty(), c.try_non_empty()) {
        return Some((a, b, c));
    }
    return None;
}

/// Convert four values to a tuple of `NonEmpty`'s or fail.
pub fn try_non_empty4<A, B, C, D>(a: A, b: B, c: C, d: D) -> (r: Option<
    (NonEmpty<A>, NonEmpty<B>, NonEmpty<C>, NonEmpty<D>),
>) where
    A: TryNonEmpty,
    B: TryNonEmpty,
    C: TryNonEmpty,
    D: TryNonEmpty,

    ensures
        (r is Some) <==> (!a.empty_spec() && !b.empty_spec() && !c.empty_spec()
            && !d.empty_spec()),
        r matches Some(t) ==> t.0@ == a && t.1@ == b && t.2@ == c && t.3@ == d,
{
    if let (Some(a), Some(b), Some(c), Some(d)) = (
        a.try_non_empty(),
        b.try_non_empty(),
        c.try_non_empty(),
        d.try_non_empty(),
    ) {
        return Some((a, b, c, d));
    }
    return None;
}

/// Convert five values to a tuple of `NonEmpty`'s or fail.
pub fn try_non_empty5<A, B, C, D, E>(a: A, b: B, c: C, d: D, e: E) -> (r: Option<
    (NonEmpty<A>, NonEmpty<B>, NonEmpty<C>, NonEmpty<D>, NonEmpty<E>),
>) where
    A: TryNonEmpty,
    B: TryNonEmpty,
    C: TryNonEmpty,
    D: TryNonEmpty,
    E: TryNonEmpty,

    ensures
        (r is Some) <==> (!a.empty_spec() && !b.empty_spec() && !c.empty_spec()
            && !d.empty_spec() && !e.empty_spec()),
        r matches Some(t) ==> t.0@ == a && t.1@ == b && t.2@ == c && t.3@ == d && t.4@ == e,
{
    if let (Some(a), Some(b), Some(c), Some(d), Some(e)) = (
        a.try_non_empty(),
        b.try_non_empty(),
        c.try_non_empty(),
        d.try_non_empty(),
        e.try_non_empty(),
    ) {
        return Some((a, b, c, d, e));
    }
    return None;
}

/// Convert six values to a tuple of `NonEmpty`'s or fail.
pub fn try_non_empty6<A, B, C, D, E, F>(a: A, b: B, c: C, d: D, e: E, f: F) -> (r: Option<
    (NonEmpty<A>, NonEmpty<B>, NonEmpty<C>, NonEmpty<D>, NonEmpty<E>, NonEmpty<F>),
>) where
    A: TryNonEmpty,
    B: TryNonEmpty,
    C: TryNonEmpty,
    D: TryNonEmpty,
    E: TryNonEmpty,
    F: TryNonEmpty,

    ensures
        (r is Some) <==> (!a.empty_spec() && !b.empty_spec() && !c.empty_spec()
            && !d.empty_spec() && !e.empty_spec() && !f.empty_spec()),
        r matches Some(t) ==> t.0@ == a && t.1@ == b && t.2@ == c && t.3@ == d && t.4@ == e
            && t.5@ == f,
{
    if let (Some(a), Some(b), Some(c), Some(d), Some(e), Some(f)) = (
        a.try_non_empty(),
        b.try_non_empty(),
        c.try_non_empty(),
        d.try_non_empty(),
        e.try_non_empty(),
        f.try_non_empty(),
    ) {
        return Some((a, b, c, d, e, f));
    }
    return None;
}

/// Convert n values of the same type to a `Vec` of `NonEmpty`'s or fail.
///
/// Walks the input in order and stops at the first empty value; on success
/// the output holds one wrapper per input value, in the same order.
#[allow(non_snake_case)]
pub fn try_non_emptyN<T: TryNonEmpty>(values: Vec<T>) -> (r: Option<Vec<NonEmpty<T>>>)
    ensures
        (r is Some) <==> (forall|i: int|
            0 <= i < values@.len() ==> !(#[trigger] values@[i]).empty_spec()),
        r matches Some(ws) ==> {
            &&& ws@.len() == values@.len()
            &&& forall|i: int| 0 <= i < ws@.len() ==> (#[trigger] ws@[i])@ == values@[i]
        },
{
    let n = values.len();
    let mut checked: usize = 0;
    while checked < n
        invariant
            checked <= n,
            n == values@.len(),
            forall|j: int| 0 <= j < checked ==> !(#[trigger] values@[j]).empty_spec(),
        decreases n - checked,
    {
        if values[checked].is_empty() {
            return None;
        }
        checked = checked + 1;
    }
    let ghost all = values@;
    let mut rest = values;
    let mut out: Vec<NonEmpty<T>> = Vec::new();
    while rest.len() > 0
        invariant
            out@.len() + rest@.len() == all.len(),
            forall|i: int| 0 <= i < all.len() ==> !(#[trigger] all[i]).empty_spec(),
            forall|i: int| 0 <= i < out@.len() ==> (#[trigger] out@[i])@ == all[i],
            forall|j: int| 0 <= j < rest@.len() ==> rest@[j] == all[out@.len() + j],
        decreases rest@.len(),
    {
        let v = rest.remove(0);
        if let Some(ne) = v.try_non_empty() {
            out.push(ne);
        } else {
            // The first pass showed every value non-empty, so wrapping
            // cannot fail here.
            proof {
                assert(false);
            }
            return None;
        }
    }
    Some(out)
}

} // verus!
