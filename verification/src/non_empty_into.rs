//! Conversions from a wrapper back to the bare type.
//!
//! For each supported type there is a `From` conversion identical in effect
//! to [`NonEmpty::into_inner`]: pure API surface, no new behaviour. For the
//! generic container types such a conversion cannot be written (the element
//! type would stand uncovered in the bare type), so they are served by
//! [`NonEmpty::into_inner`] alone.

use vstd::prelude::*;

use crate::Float32;
use crate::Float64;
use crate::NonEmpty;

verus! {

impl From<NonEmpty<String>> for String {
    fn from(ne: NonEmpty<String>) -> (r: String) {
        ne.into_inner()
    }
}

impl vstd::std_specs::convert::FromSpecImpl<NonEmpty<String>> for String {
    open spec fn obeys_from_spec() -> bool {
        true
    }

    open spec fn from_spec(ne: NonEmpty<String>) -> String {
        ne@
    }
}

impl<'a> From<NonEmpty<&'a str>> for &'a str {
    fn from(ne: NonEmpty<&'a str>) -> (r: &'a str) {
        ne.into_inner()
    }
}

impl<'a> vstd::std_specs::convert::FromSpecImpl<NonEmpty<&'a str>> for &'a str {
    open spec fn obeys_from_spec() -> bool {
        true
    }

    open spec fn from_spec(ne: NonEmpty<&'a str>) -> &'a str {
        ne@
    }
}

impl From<NonEmpty<i8>> for i8 {
    fn from(ne: NonEmpty<i8>) -> (r: i8) {
        ne.into_inner()
    }
}

impl vstd::std_specs::convert::FromSpecImpl<NonEmpty<i8>> for i8 {
    open spec fn obeys_from_spec() -> bool {
        true
    }

    open spec fn from_spec(ne: NonEmpty<i8>) -> i8 {
        ne@
    }
}

impl From<NonEmpty<i16>> for i16 {
    fn from(ne: NonEmpty<i16>) -> (r: i16) {
        ne.into_inner()
    }
}

impl vstd::std_specs::convert::FromSpecImpl<NonEmpty<i16>> for i16 {
    open spec fn obeys_from_spec() -> bool {
        true
    }

    open spec fn from_spec(ne: NonEmpty<i16>) -> i16 {
        ne@
    }
}

impl From<NonEmpty<i32>> for i32 {
    fn from(ne: NonEmpty<i32>) -> (r: i32) {
        ne.into_inner()
    }
}

impl vstd::std_specs::convert::FromSpecImpl<NonEmpty<i32>> for i32 {
    open spec fn obeys_from_spec() -> bool {
        true
    }

    open spec fn from_spec(ne: NonEmpty<i32>) -> i32 {
        ne@
    }
}

impl From<NonEmpty<i64>> for i64 {
    fn from(ne: NonEmpty<i64>) -> (r: i64) {
        ne.into_inner()
    }
}

impl vstd::std_specs::convert::FromSpecImpl<NonEmpty<i64>> for i64 {
    open spec fn obeys_from_spec() -> bool {
        true
    }

    open spec fn from_spec(ne: NonEmpty<i64>) -> i64 {
        ne@
    }
}

impl From<NonEmpty<u8>> for u8 {
    fn from(ne: NonEmpty<u8>) -> (r: u8) {
        ne.into_inner()
    }
}

impl vstd::std_specs::convert::FromSpecImpl<NonEmpty<u8>> for u8 {
    open spec fn obeys_from_spec() -> bool {
        true
    }

    open spec fn from_spec(ne: NonEmpty<u8>) -> u8 {
        ne@
    }
}

impl From<NonEmpty<u16>> for u16 {
    fn from(ne: NonEmpty<u16>) -> (r: u16) {
        ne.into_inner()
    }
}

impl vstd::std_specs::convert::FromSpecImpl<NonEmpty<u16>> for u16 {
    open spec fn obeys_from_spec() -> bool {
        true
    }

    open spec fn from_spec(ne: NonEmpty<u16>) -> u16 {
        ne@
    }
}

impl From<NonEmpty<u32>> for u32 {
    fn from(ne: NonEmpty<u32>) -> (r: u32) {
        ne.into_inner()
    }
}

impl vstd::std_specs::convert::FromSpecImpl<NonEmpty<u32>> for u32 {
    open spec fn obeys_from_spec() -> bool {
        true
    }

    open spec fn from_spec(ne: NonEmpty<u32>) -> u32 {
        ne@
    }
}

impl From<NonEmpty<u64>> for u64 {
    fn from(ne: NonEmpty<u64>) -> (r: u64) {
        ne.into_inner()
    }
}

impl vstd::std_specs::convert::FromSpecImpl<NonEmpty<u64>> for u64 {
    open spec fn obeys_from_spec() -> bool {
        true
    }

    open spec fn from_spec(ne: NonEmpty<u64>) -> u64 {
        ne@
    }
}

impl From<NonEmpty<isize>> for isize {
    fn from(ne: NonEmpty<isize>) -> (r: isize) {
        ne.into_inner()
    }
}

impl vstd::std_specs::convert::FromSpecImpl<NonEmpty<isize>> for isize {
    open spec fn obeys_from_spec() -> bool {
        true
    }

    open spec fn from_spec(ne: NonEmpty<isize>) -> isize {
        ne@
    }
}

impl From<NonEmpty<usize>> for usize {
    fn from(ne: NonEmpty<usize>) -> (r: usize) {
        ne.into_inner()
    }
}

impl vstd::std_specs::convert::FromSpecImpl<NonEmpty<usize>> for usize {
    open spec fn obeys_from_spec() -> bool {
        true
    }

    open spec fn from_spec(ne: NonEmpty<usize>) -> usize {
        ne@
    }
}

impl From<NonEmpty<Float32>> for Float32 {
    fn from(ne: NonEmpty<Float32>) -> (r: Float32) {
        ne.into_inner()
    }
}

impl vstd::std_specs::convert::FromSpecImpl<NonEmpty<Float32>> for Float32 {
    open spec fn obeys_from_spec() -> bool {
        true
    }

    open spec fn from_spec(ne: NonEmpty<Float32>) -> Float32 {
        ne@
    }
}

impl From<NonEmpty<Float64>> for Float64 {
    fn from(ne: NonEmpty<Float64>) -> (r: Float64) {
        ne.into_inner()
    }
}

impl vstd::std_specs::convert::FromSpecImpl<NonEmpty<Float64>> for Float64 {
    open spec fn obeys_from_spec() -> bool {
        true
    }

    open spec fn from_spec(ne: NonEmpty<Float64>) -> Float64 {
        ne@
    }
}

} // verus!
