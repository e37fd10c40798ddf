use non_empty::try_non_empty2;
use non_empty::try_non_empty3;
use non_empty::try_non_empty4;
use non_empty::try_non_empty5;
use non_empty::try_non_empty6;
use non_empty::try_non_emptyN;
use non_empty::Float32;
use non_empty::Float64;

#[test]
fn test_try_non_empty2() {
    assert!(try_non_empty2("a", 0).is_none());
    let (a, b) = try_non_empty2("a", 1).unwrap();
    assert_eq!("a", *a);
    assert_eq!(1, *b);
}

#[test]
fn test_try_non_empty3() {
    assert!(try_non_empty3("a", 0, Float32::from_bits(5_f32.to_bits())).is_none());
    let (a, b, c) = try_non_empty3("a", 1, Float32::from_bits(5_f32.to_bits())).unwrap();
    assert_eq!("a", *a);
    assert_eq!(1, *b);
    assert_eq!(5_f32, f32::from_bits(c.to_bits()));
}

#[test]
fn test_try_non_empty4() {
    assert!(try_non_empty4("a", 0, Float32::from_bits(5_f32.to_bits()), 3).is_none());
    let (a, b, c, d) = try_non_empty4("a", 1, Float32::from_bits(5_f32.to_bits()), 3).unwrap();
    assert_eq!("a", *a);
    assert_eq!(1, *b);
    assert_eq!(5_f32, f32::from_bits(c.to_bits()));
    assert_eq!(3, *d);
}

#[test]
fn test_try_non_empty5() {
    assert!(try_non_empty5("a", 0, Float32::from_bits(5_f32.to_bits()), 3, "b").is_none());
    let (a, b, c, d, e) =
        try_non_empty5("a", 1, Float32::from_bits(5_f32.to_bits()), 3, "b").unwrap();
    assert_eq!("a", *a);
    assert_eq!(1, *b);
    assert_eq!(5_f32, f32::from_bits(c.to_bits()));
    assert_eq!(3, *d);
    assert_eq!("b", *e);
}

#[test]
fn test_try_non_empty6() {
    assert!(
        try_non_empty6(
            "a",
            0,
            Float32::from_bits(5_f32.to_bits()),
            3,
            "b",
            Float64::from_bits(4_f64.to_bits())
        )
        .is_none()
    );
    let (a, b, c, d, e, f) = try_non_empty6(
        "a",
        1,
        Float32::from_bits(5_f32.to_bits()),
        3,
        "b",
        Float64::from_bits(4_f64.to_bits()),
    )
    .unwrap();
    assert_eq!("a", *a);
    assert_eq!(1, *b);
    assert_eq!(5_f32, f32::from_bits(c.to_bits()));
    assert_eq!(3, *d);
    assert_eq!("b", *e);
    assert_eq!(4_f64, f64::from_bits(f.to_bits()));
}

#[test]
#[allow(non_snake_case)]
fn test_try_non_emptyN() {
    assert!(try_non_emptyN(vec![2, 3, 0]).is_none());
    let a = try_non_emptyN(vec![3, 5]).unwrap();
    assert_eq!(*a[0], 3);
    assert_eq!(*a[1], 5);
}
