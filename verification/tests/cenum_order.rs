use nl_dump::cenum::CEnum;
use std::cmp::Ordering;

#[allow(non_snake_case)]
#[test]
fn test_CENum_order() {
    let a = CEnum::new(0, "");
    let b = CEnum::new(1, "");
    let c = CEnum::new(2, "");
    let d = CEnum::new(0, "");
    assert!(a < b);
    assert!(b < c);
    assert!(a < c);
    assert!(b > a);
    assert!(c > b);
    assert!(c > a);
    assert!(a == d);
}

#[test]
fn names_play_no_part_in_the_order() {
    let a = CEnum::new(5, "FIRST");
    let b = CEnum::new(5, "SECOND");
    let c = CEnum::new(-1, "ZZZ");
    assert!(a == b);
    assert!(!(a < b) && !(a > b));
    assert!(a <= b && a >= b);
    assert!(c < a);
    assert!(a != c);
    assert_eq!(a.cmp(&b), Ordering::Equal);
    assert_eq!(c.cmp(&a), Ordering::Less);
    assert_eq!(a.cmp(&c), Ordering::Greater);
    assert_eq!(a.partial_cmp(&c), Some(Ordering::Greater));
    assert_eq!(a.i, 5);
    assert_eq!(a.s, "FIRST");
}
