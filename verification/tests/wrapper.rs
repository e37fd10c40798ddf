use std::collections::BTreeMap;
use std::collections::BTreeSet;
use std::collections::HashMap;
use std::collections::HashSet;
use std::collections::VecDeque;

use non_empty::try_non_emptyN;
use non_empty::Float32;
use non_empty::Float64;
use non_empty::NonEmpty;
use non_empty::StringNE;
use non_empty::TryNonEmpty;

#[test]
fn okay() {
    assert!("".try_non_empty().is_none());
    assert_eq!("bar", "bar".try_non_empty().unwrap().into_inner());
}

#[test]
fn empty_values_fail_to_wrap() {
    assert!("".to_string().try_non_empty().is_none());
    assert!(Vec::<u8>::new().try_non_empty().is_none());
    assert!(0_i32.try_non_empty().is_none());
    assert!(0_u64.try_non_empty().is_none());
    assert!(0_usize.try_non_empty().is_none());
    let empty_slice: &[u8] = &[];
    assert!(empty_slice.try_non_empty().is_none());
    assert!(HashMap::<String, u32>::new().try_non_empty().is_none());
    assert!(HashSet::<u32>::new().try_non_empty().is_none());
    assert!(BTreeMap::<String, u32>::new().try_non_empty().is_none());
    assert!(BTreeSet::<u32>::new().try_non_empty().is_none());
    assert!(VecDeque::<u32>::new().try_non_empty().is_none());
}

#[test]
fn non_empty_values_wrap() {
    assert!("a".try_non_empty().is_some());
    assert!("a".to_string().try_non_empty().is_some());
    assert!(vec![7_u8].try_non_empty().is_some());
    assert!(1_i32.try_non_empty().is_some());
    assert!((-1_i32).try_non_empty().is_some());
    let one_slice: &[u8] = &[7];
    assert!(one_slice.try_non_empty().is_some());
    let mut m = HashMap::new();
    m.insert("k".to_string(), 1_u32);
    assert!(m.try_non_empty().is_some());
    let mut s = BTreeSet::new();
    s.insert(3_u32);
    assert!(s.try_non_empty().is_some());
    let mut d = VecDeque::new();
    d.push_back(5_u32);
    assert!(d.try_non_empty().is_some());
}

#[test]
fn float_zero_is_empty_nan_is_not() {
    assert!(Float32::from_bits(0.0_f32.to_bits()).try_non_empty().is_none());
    assert!(Float32::from_bits((-0.0_f32).to_bits()).try_non_empty().is_none());
    assert!(Float32::from_bits(f32::NAN.to_bits()).try_non_empty().is_some());
    assert!(Float32::from_bits(1.5_f32.to_bits()).try_non_empty().is_some());
    assert!(Float64::from_bits(0.0_f64.to_bits()).try_non_empty().is_none());
    assert!(Float64::from_bits((-0.0_f64).to_bits()).try_non_empty().is_none());
    assert!(Float64::from_bits(f64::NAN.to_bits()).try_non_empty().is_some());
    assert!(Float64::from_bits(1.5_f64.to_bits()).try_non_empty().is_some());
    let w = Float32::from_bits(1.5_f32.to_bits()).try_non_empty().unwrap();
    assert_eq!(1.5_f32, f32::from_bits(w.into_inner().to_bits()));
}

#[test]
fn wrap_then_unwrap_round_trips() {
    let s = "hello".to_string().try_non_empty().unwrap();
    assert_eq!("hello".to_string(), s.into_inner());
    let v = vec![1_u8, 2, 3].try_non_empty().unwrap();
    assert_eq!(vec![1_u8, 2, 3], v.into_inner());
    let n = 42_i64.try_non_empty().unwrap();
    assert_eq!(42_i64, n.into_inner());
}

#[test]
fn borrow_is_repeatable() {
    let w = "hello".to_string().try_non_empty().unwrap();
    let first = w.as_ref().clone();
    let second = w.as_ref().clone();
    assert_eq!(first, second);
    assert_eq!("hello".to_string(), w.into_inner());
}

#[test]
fn deref_reads_through() {
    let s = "hello".to_string().try_non_empty().unwrap();
    assert_eq!(5, s.len());
    assert_eq!(*s, "hello");
    assert_eq!("hello".to_string(), s.into_inner());
}

#[test]
fn aliases_behave_like_the_generic_form() {
    let aliased: StringNE = "same".to_string().try_non_empty().unwrap();
    let generic: NonEmpty<String> = "same".to_string().try_non_empty().unwrap();
    assert_eq!(aliased.as_ref(), generic.as_ref());
    assert_eq!(aliased.into_inner(), generic.into_inner());
}

#[test]
fn conversions_match_into_inner() {
    let s = String::from("word".to_string().try_non_empty().unwrap());
    assert_eq!("word".to_string(), s);
    let n: i32 = 9_i32.try_non_empty().unwrap().into();
    assert_eq!(9, n);
    let t: &str = <&str>::from("tail".try_non_empty().unwrap());
    assert_eq!("tail", t);
    let f: Float64 = Float64::from_bits(2.5_f64.to_bits()).try_non_empty().unwrap().into();
    assert_eq!(2.5_f64, f64::from_bits(f.to_bits()));
}

#[test]
#[allow(non_snake_case)]
fn try_non_emptyN_edge_cases() {
    let none: Vec<u32> = Vec::new();
    let wrapped = try_non_emptyN(none).unwrap();
    assert!(wrapped.is_empty());
    assert!(try_non_emptyN(vec![0_u32]).is_none());
    assert!(try_non_emptyN(vec![0_u32, 1]).is_none());
    let ordered = try_non_emptyN(vec![4_u32, 2, 9]).unwrap();
    let back: Vec<u32> = ordered.into_iter().map(|w| w.into_inner()).collect();
    assert_eq!(vec![4_u32, 2, 9], back);
}
