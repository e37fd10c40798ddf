//! A generic wrapper that marks a value as verified non-empty at the point of
//! construction.
//!
//! The [`IsEmpty`] trait gives every supported type a single emptiness
//! predicate. [`NonEmpty`] can only be built through the one fallible
//! conversion [`TryNonEmpty::try_non_empty`], which checks that predicate
//! once; afterwards every holder of the wrapper can rely on the value being
//! non-empty without re-checking.

use vstd::prelude::*;

mod float_bits;
mod helper_try_convert;
mod is_empty;
mod non_empty_into;

pub use float_bits::Float32;
pub use float_bits::Float64;
pub use helper_try_convert::try_non_empty2;
pub use helper_try_convert::try_non_empty3;
pub use helper_try_convert::try_non_empty4;
pub use helper_try_convert::try_non_empty5;
pub use helper_try_convert::try_non_empty6;
pub use helper_try_convert::try_non_emptyN;
pub use is_empty::IsEmpty;

use std::collections::BTreeMap;
use std::collections::BTreeSet;
use std::collections::HashMap;
use std::collections::HashSet;
use std::collections::VecDeque;

verus! {

/// Struct owning a non-empty value.
///
/// The invariant `!self@.empty_spec()` holds for the whole lifetime of an
/// instance: it is established by the single constructor
/// [`TryNonEmpty::try_non_empty`], and no accessor hands out a mutable path
/// to the interior.
pub struct NonEmpty<T: IsEmpty> {
    inner: T,
}

impl<T: IsEmpty> View for NonEmpty<T> {
    type V = T;

    /// The mathematical model of a wrapper is simply the value it holds.
    closed spec fn view(&self) -> T {
        self.inner
    }
}

impl<T: IsEmpty> NonEmpty<T> {
    #[verifier::type_invariant]
    spec fn wrapped_value_non_empty(self) -> bool {
        !self.inner.empty_spec()
    }

    /// What [`TryNonEmpty::try_non_empty`] returns for a given value: a
    /// wrapper holding the value if it is non-empty, and nothing otherwise.
    pub closed spec fn try_wrap_spec(v: T) -> Option<NonEmpty<T>> {
        if v.empty_spec() {
            None
        } else {
            Some(NonEmpty { inner: v })
        }
    }

    /// Wrapping succeeds if and only if the value is non-empty.
    pub proof fn lemma_wrap_succeeds_iff_non_empty(v: T)
        ensures
            (Self::try_wrap_spec(v) is Some) <==> !v.empty_spec(),
    {
    }

    /// Round trip: when wrapping a value succeeds, unwrapping the wrapper
    /// (whose result [`NonEmpty::into_inner`] promises to be its view) gives
    /// back exactly the value that was wrapped.
    pub proof fn lemma_wrap_round_trip(v: T)
        requires
            !v.empty_spec(),
        ensures
            Self::try_wrap_spec(v) matches Some(w) && w@ == v,
    {
    }

    /// Borrowing is read-only and repeatable: the borrowed value
    /// ([`NonEmpty::as_ref`] promises its result equals the view) is a
    /// function of the wrapper alone, so any two borrows of the same wrapper
    /// observe the same value.
    pub proof fn lemma_borrow_idempotent(w: NonEmpty<T>, first: T, second: T)
        requires
            first == w@,
            second == w@,
        ensures
            first == second,
    {
    }

    /// Consumes `NonEmpty<T>` and returns the inner value `T`.
    ///
    /// The wrapper is taken by move, so it can be unwrapped at most once;
    /// afterwards the instance no longer exists.
    pub fn into_inner(self) -> (r: T)
        ensures
            r == self@,
            !r.empty_spec(),
    {
        proof {
            use_type_invariant(&self);
        }
        let NonEmpty { inner } = self;
        inner
    }

    /// Reference to the inner type `T`; does not consume the wrapper.
    pub fn as_ref(&self) -> (r: &T)
        ensures
            r == self@,
            !r.empty_spec(),
    {
        proof {
            use_type_invariant(self);
        }
        &self.inner
    }
}

/// Allows to dereference `NonEmpty<T>` on the fly: the wrapper can stand
/// anywhere a read-only reference to `T` is expected. The target is never
/// handed out mutably, so the non-emptiness invariant cannot be broken.
impl<T: IsEmpty> std::ops::Deref for NonEmpty<T> {
    type Target = T;

    /// Reference to the inner type `T` of the `NonEmpty` struct.
    fn deref(&self) -> (r: &T)
        ensures
            r == self@,
            !r.empty_spec(),
    {
        proof {
            use_type_invariant(self);
        }
        &self.inner
    }
}

/// The only way to create a `NonEmpty<T>` struct.
pub trait TryNonEmpty: Sized + IsEmpty {
    /// Wraps `self` if it is non-empty, and fails (returning `None`) exactly
    /// when `self` is empty.
    fn try_non_empty(self) -> (r: Option<NonEmpty<Self>>)
        ensures
            r == NonEmpty::try_wrap_spec(self),
            (r is Some) <==> !self.empty_spec(),
            r matches Some(ne) ==> ne@ == self,
    ;
}

impl<T: IsEmpty + Sized> TryNonEmpty for T {
    fn try_non_empty(self) -> (r: Option<NonEmpty<T>>) {
        if !self.is_empty() {
            Some(NonEmpty { inner: self })
        } else {
            None
        }
    }
}

/// Non-empty `String`
pub type StringNE = NonEmpty<String>;

/// Non-empty `&str`
pub type StrNE<'a> = NonEmpty<&'a str>;

/// Non-empty `Vec<T>`
pub type VecNE<T> = NonEmpty<Vec<T>>;

/// Non-empty `&[T]`
pub type SliceNE<'a, T> = NonEmpty<&'a [T]>;

/// Non-empty `HashMap<K, V>`
pub type HashMapNE<K, V> = NonEmpty<HashMap<K, V>>;

/// Non-empty `HashSet<T>`
pub type HashSetNE<T> = NonEmpty<HashSet<T>>;

/// Non-empty `VecDeque<T>`
pub type VecDequeNE<T> = NonEmpty<VecDeque<T>>;

/// Non-empty `BTreeMap<K, V>`
pub type BTreeMapNE<K, V> = NonEmpty<BTreeMap<K, V>>;

/// Non-empty `BTreeSet<T>`
pub type BTreeSetNE<T> = NonEmpty<BTreeSet<T>>;

/// Non-empty `i8`, number != 0
#[allow(non_camel_case_types)]
pub type i8NE = NonEmpty<i8>;

/// Non-empty `i16`, number != 0
#[allow(non_camel_case_types)]
pub type i16NE = NonEmpty<i16>;

/// Non-empty `i32`, number != 0
#[allow(non_camel_case_types)]
pub type i32NE = NonEmpty<i32>;

/// Non-empty `i64`, number != 0
#[allow(non_camel_case_types)]
pub type i64NE = NonEmpty<i64>;

/// Non-empty `u8`, number != 0
#[allow(non_camel_case_types)]
pub type u8NE = NonEmpty<u8>;

/// Non-empty `u16`, number != 0
#[allow(non_camel_case_types)]
pub type u16NE = NonEmpty<u16>;

/// Non-empty `u32`, number != 0
#[allow(non_camel_case_types)]
pub type u32NE = NonEmpty<u32>;

/// Non-empty `u64`, number != 0
#[allow(non_camel_case_types)]
pub type u64NE = NonEmpty<u64>;

/// Non-empty `isize`, number != 0
#[allow(non_camel_case_types)]
pub type isizeNE = NonEmpty<isize>;

/// Non-empty `usize`, number != 0
#[allow(non_camel_case_types)]
pub type usizeNE = NonEmpty<usize>;

/// Non-empty single-precision float, value != 0.0, by bit pattern
pub type Float32NE = NonEmpty<Float32>;

/// Non-empty double-precision float, value != 0.0, by bit pattern
pub type Float64NE = NonEmpty<Float64>;

} // verus!
