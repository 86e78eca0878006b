use pg_range::codec::range_flags;
use pg_range::flags::{
    RangeFlags, CONTAIN_EMPTY, EMPTY, LB_INC, LB_INF, LB_NULL, UB_INC, UB_INF, UB_NULL,
};
use pg_range::PgRange;
use std::ops::Bound;

#[test]
fn bit_values() {
    assert_eq!(EMPTY, 0x01);
    assert_eq!(LB_INC, 0x02);
    assert_eq!(UB_INC, 0x04);
    assert_eq!(LB_INF, 0x08);
    assert_eq!(UB_INF, 0x10);
    assert_eq!(LB_NULL, 0x20);
    assert_eq!(UB_NULL, 0x40);
    assert_eq!(CONTAIN_EMPTY, 0x80);
}

#[test]
fn empty_set_has_no_bit() {
    let f = RangeFlags::empty();
    assert_eq!(f.bits(), 0);
    assert!(!f.contains(RangeFlags::from_bits_truncate(LB_INC)));
}

#[test]
fn union_and_contains() {
    let f = RangeFlags::from_bits_truncate(LB_INC).union(RangeFlags::from_bits_truncate(UB_INF));
    assert_eq!(f.bits(), 0x12);
    assert!(f.contains(RangeFlags::from_bits_truncate(LB_INC)));
    assert!(f.contains(RangeFlags::from_bits_truncate(UB_INF)));
    assert!(f.contains(RangeFlags::from_bits_truncate(LB_INC | UB_INF)));
    assert!(!f.contains(RangeFlags::from_bits_truncate(UB_INC)));
    assert!(!f.contains(RangeFlags::from_bits_truncate(LB_INC | UB_INC)));
}

#[test]
fn intersection_keeps_common_bits() {
    let a = RangeFlags::from_bits_truncate(0x0e);
    let b = RangeFlags::from_bits_truncate(0x1c);
    assert_eq!(a.intersection(b).bits(), 0x0c);
}

#[test]
fn insert_adds_bits() {
    let mut f = RangeFlags::empty();
    f.insert(RangeFlags::from_bits_truncate(UB_INC));
    f.insert(RangeFlags::from_bits_truncate(LB_INF));
    assert_eq!(f, RangeFlags::from_bits_truncate(0x0c));
}

#[test]
fn from_bits_keeps_every_bit() {
    assert_eq!(RangeFlags::from_bits_truncate(0xff).bits(), 0xff);
}

#[test]
fn flags_of_each_shape() {
    let shapes: Vec<(Bound<i32>, Bound<i32>, u8)> = vec![
        (Bound::Included(1), Bound::Included(2), 0x06),
        (Bound::Included(1), Bound::Excluded(2), 0x02),
        (Bound::Included(1), Bound::Unbounded, 0x12),
        (Bound::Excluded(1), Bound::Included(2), 0x04),
        (Bound::Excluded(1), Bound::Excluded(2), 0x00),
        (Bound::Excluded(1), Bound::Unbounded, 0x10),
        (Bound::Unbounded, Bound::Included(2), 0x0c),
        (Bound::Unbounded, Bound::Excluded(2), 0x08),
        (Bound::Unbounded, Bound::Unbounded, 0x18),
    ];
    for (start, end, bits) in shapes {
        assert_eq!(range_flags(&PgRange { start, end }).bits(), bits);
    }
}
