//! The emptiness capability: one predicate per supported type.
//!
//! Text and collection types are empty exactly when they hold no elements;
//! integers are "empty" exactly when they equal zero. Borrowed forms delegate
//! to the owned form, so borrowing never changes what counts as empty.

use vstd::prelude::*;

use std::collections::BTreeMap;
use std::collections::BTreeSet;
use std::collections::HashMap;
use std::collections::HashSet;
use std::collections::VecDeque;

verus! {

/// IsEmpty allows objects to clarify that they are empty.
///
/// Each implementation pairs the executable check [`IsEmpty::is_empty`] with
/// the spec-level predicate [`IsEmpty::empty_spec`] that it must agree with.
/// Both are pure functions of the value's current contents.
pub trait IsEmpty {
    /// What "empty" means for this type, stated over its mathematical model.
    spec fn empty_spec(&self) -> bool;

    /// True if the value is empty, e.g. a zero sized String or an empty vector.
    fn is_empty(&self) -> (r: bool)
        ensures
            r == self.empty_spec(),
    ;
}

/// A borrowed value is empty exactly when the value it refers to is.
impl<T: IsEmpty + ?Sized> IsEmpty for &T {
    open spec fn empty_spec(&self) -> bool {
        (**self).empty_spec()
    }

    fn is_empty(&self) -> (r: bool) {
        (**self).is_empty()
    }
}

impl IsEmpty for String {
    open spec fn empty_spec(&self) -> bool {
        self@.len() == 0
    }

    fn is_empty(&self) -> (r: bool) {
        self.as_str().is_empty()
    }
}

impl IsEmpty for str {
    open spec fn empty_spec(&self) -> bool {
        self@.len() == 0
    }

    fn is_empty(&self) -> (r: bool) {
        str::is_empty(self)
    }
}

impl<T> IsEmpty for Vec<T> {
    open spec fn empty_spec(&self) -> bool {
        self@.len() == 0
    }

    fn is_empty(&self) -> (r: bool) {
        Vec::is_empty(self)
    }
}

impl<T> IsEmpty for [T] {
    open spec fn empty_spec(&self) -> bool {
        self@.len() == 0
    }

    fn is_empty(&self) -> (r: bool) {
        self.len() == 0
    }
}

impl<K, V, S> IsEmpty for HashMap<K, V, S> {
    open spec fn empty_spec(&self) -> bool {
        self@.is_empty()
    }

    fn is_empty(&self) -> (r: bool) {
        HashMap::is_empty(self)
    }
}

impl<T, S> IsEmpty for HashSet<T, S> {
    open spec fn empty_spec(&self) -> bool {
        self@.is_empty()
    }

    fn is_empty(&self) -> (r: bool) {
        HashSet::is_empty(self)
    }
}

impl<T> IsEmpty for VecDeque<T> {
    open spec fn empty_spec(&self) -> bool {
        self@.len() == 0
    }

    fn is_empty(&self) -> (r: bool) {
        self.len() == 0
    }
}

impl<K, V> IsEmpty for BTreeMap<K, V> {
    open spec fn empty_spec(&self) -> bool {
        self@.is_empty()
    }

    fn is_empty(&self) -> (r: bool) {
        BTreeMap::is_empty(self)
    }
}

impl<T> IsEmpty for BTreeSet<T> {
    open spec fn empty_spec(&self) -> bool {
        self@.is_empty()
    }

    fn is_empty(&self) -> (r: bool) {
        BTreeSet::is_empty(self)
    }
}

impl IsEmpty for i8 {
    open spec fn empty_spec(&self) -> bool {
        *self == 0
    }

    fn is_empty(&self) -> (r: bool) {
        *self == 0
    }
}

impl IsEmpty for i16 {
    open spec fn empty_spec(&self) -> bool {
        *self == 0
    }

    fn is_empty(&self) -> (r: bool) {
        *self == 0
    }
}

impl IsEmpty for i32 {
    open spec fn empty_spec(&self) -> bool {
        *self == 0
    }

    fn is_empty(&self) -> (r: bool) {
        *self == 0
    }
}

impl IsEmpty for i64 {
    open spec fn empty_spec(&self) -> bool {
        *self == 0
    }

    fn is_empty(&self) -> (r: bool) {
        *self == 0
    }
}

impl IsEmpty for u8 {
    open spec fn empty_spec(&self) -> bool {
        *self == 0
    }

    fn is_empty(&self) -> (r: bool) {
        *self == 0
    }
}

impl IsEmpty for u16 {
    open spec fn empty_spec(&self) -> bool {
        *self == 0
    }

    fn is_empty(&self) -> (r: bool) {
        *self == 0
    }
}

impl IsEmpty for u32 {
    open spec fn empty_spec(&self) -> bool {
        *self == 0
    }

    fn is_empty(&self) -> (r: bool) {
        *self == 0
    }
}

impl IsEmpty for u64 {
    open spec fn empty_spec(&self) -> bool {
        *self == 0
    }

    fn is_empty(&self) -> (r: bool) {
        *self == 0
    }
}

impl IsEmpty for isize {
    open spec fn empty_spec(&self) -> bool {
        *self == 0
    }

    fn is_empty(&self) -> (r: bool) {
        *self == 0
    }
}

impl IsEmpty for usize {
    open spec fn empty_spec(&self) -> bool {
        *self == 0
    }

    fn is_empty(&self) -> (r: bool) {
        *self == 0
    }
}

} // verus!
