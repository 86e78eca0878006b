use pg_range::codec::{DecodeError, ElementDecodeError, IsNull, WireElement};
use pg_range::scalars::{Date, Float4, Float8, Time, TimeOutOfRange, Timestamp, TimestampTz};
use pg_range::PgRange;
use std::ops::Bound;

fn wire<T: WireElement>(r: &PgRange<T>) -> Vec<u8>
where
    T::Error: std::fmt::Debug,
{
    let mut buf = Vec::new();
    let is_null = r.encode_by_ref(&mut buf).unwrap();
    assert_eq!(is_null, IsNull::No);
    buf
}

#[test]
fn encode_half_open_int4() {
    let r: PgRange<i32> = PgRange::new(Bound::Included(1), Bound::Excluded(5));
    let mut buf: Vec<u8> = Vec::new();
    assert_eq!(r.encode_by_ref(&mut buf), Ok(IsNull::No));
    assert_eq!(buf, vec![0x02, 0, 0, 0, 1, 0, 0, 0, 5]);
}

#[test]
fn encode_appends_to_what_is_there() {
    let r: PgRange<i16> = PgRange::new(Bound::Excluded(0x0102), Bound::Included(-2));
    let mut buf: Vec<u8> = vec![0xaa, 0xbb];
    assert_eq!(r.encode_by_ref(&mut buf), Ok(IsNull::No));
    assert_eq!(buf, vec![0xaa, 0xbb, 0x04, 0x01, 0x02, 0xff, 0xfe]);
}

#[test]
fn encode_unbounded_to_included_sets_two_bits_and_writes_one_value() {
    let r: PgRange<i32> = PgRange::new(Bound::Unbounded, Bound::Included(7));
    let buf = wire(&r);
    assert_eq!(buf[0], 0x04 | 0x08);
    assert_eq!(buf, vec![0x0c, 0, 0, 0, 7]);
}

#[test]
fn encode_fully_unbounded_is_one_byte_and_not_null() {
    let r: PgRange<i64> = PgRange::new(Bound::Unbounded, Bound::Unbounded);
    let mut buf: Vec<u8> = Vec::new();
    assert_eq!(r.encode_by_ref(&mut buf), Ok(IsNull::No));
    assert_eq!(buf, vec![0x18]);
}

#[test]
fn encoded_length_of_four_byte_elements() {
    let both: PgRange<i32> = PgRange::new(Bound::Included(1), Bound::Excluded(5));
    let lower: PgRange<i32> = PgRange::new(Bound::Included(1), Bound::Unbounded);
    let upper: PgRange<i32> = PgRange::new(Bound::Unbounded, Bound::Excluded(5));
    let none: PgRange<i32> = PgRange::new(Bound::Unbounded, Bound::Unbounded);
    assert_eq!(wire(&both).len(), 1 + 4 + 4);
    assert_eq!(wire(&lower).len(), 1 + 4);
    assert_eq!(wire(&upper).len(), 1 + 4);
    assert_eq!(wire(&none).len(), 1);
}

#[test]
fn encoded_length_of_other_widths() {
    let a: PgRange<i64> = PgRange::new(Bound::Included(1), Bound::Excluded(5));
    assert_eq!(wire(&a).len(), 1 + 8 + 8);
    let b: PgRange<i16> = PgRange::new(Bound::Included(1), Bound::Excluded(5));
    assert_eq!(wire(&b).len(), 1 + 2 + 2);
    let c: PgRange<bool> = PgRange::new(Bound::Included(false), Bound::Included(true));
    assert_eq!(wire(&c).len(), 1 + 1 + 1);
    let d: PgRange<i8> = PgRange::new(Bound::Unbounded, Bound::Included(3));
    assert_eq!(wire(&d).len(), 1 + 1);
}

#[test]
fn encode_int8_is_big_endian() {
    let r: PgRange<i64> = PgRange::new(Bound::Included(0x0102030405060708), Bound::Excluded(-1));
    assert_eq!(
        wire(&r),
        vec![
            0x02, 0x01, 0x02, 0x03, 0x04, 0x05, 0x06, 0x07, 0x08, 0xff, 0xff, 0xff, 0xff, 0xff,
            0xff, 0xff, 0xff
        ]
    );
}

#[test]
fn encode_negative_int4() {
    let r: PgRange<i32> = PgRange::new(Bound::Included(-2), Bound::Included(i32::MIN));
    assert_eq!(wire(&r), vec![0x06, 0xff, 0xff, 0xff, 0xfe, 0x80, 0, 0, 0]);
}

#[test]
fn encode_bool_and_char() {
    let r: PgRange<bool> = PgRange::new(Bound::Included(false), Bound::Excluded(true));
    assert_eq!(wire(&r), vec![0x02, 0, 1]);
    let r: PgRange<i8> = PgRange::new(Bound::Excluded(-1), Bound::Included(65));
    assert_eq!(wire(&r), vec![0x04, 0xff, 65]);
}

#[test]
fn encode_dates_and_times() {
    let r = PgRange::new(Bound::Included(Date { days: 1 }), Bound::Excluded(Date { days: -1 }));
    assert_eq!(wire(&r), vec![0x02, 0, 0, 0, 1, 0xff, 0xff, 0xff, 0xff]);
    let r = PgRange::new(Bound::Included(Time { micros: 1_000_000 }), Bound::Unbounded);
    assert_eq!(wire(&r), vec![0x12, 0, 0, 0, 0, 0, 0x0f, 0x42, 0x40]);
    let r = PgRange::new(Bound::Unbounded, Bound::Excluded(Timestamp { micros: 256 }));
    assert_eq!(wire(&r), vec![0x08, 0, 0, 0, 0, 0, 0, 1, 0]);
    let r = PgRange::new(Bound::Unbounded, Bound::Included(TimestampTz { micros: -256 }));
    assert_eq!(wire(&r), vec![0x0c, 0xff, 0xff, 0xff, 0xff, 0xff, 0xff, 0xff, 0]);
}

#[test]
fn encode_float_bit_patterns() {
    let one = Float4 { bits: 1.0f32.to_bits() };
    let r = PgRange::new(Bound::Included(one), Bound::Unbounded);
    assert_eq!(wire(&r), vec![0x12, 0x3f, 0x80, 0, 0]);
    let two = Float8 { bits: 2.0f64.to_bits() };
    let r = PgRange::new(Bound::Unbounded, Bound::Excluded(two));
    assert_eq!(wire(&r), vec![0x08, 0x40, 0, 0, 0, 0, 0, 0, 0]);
}

#[test]
fn encode_fails_with_the_element_error_and_leaves_the_buffer() {
    let bad = Time { micros: -1 };
    let r = PgRange::new(Bound::Included(Time { micros: 5 }), Bound::Excluded(bad));
    let mut buf: Vec<u8> = vec![1, 2, 3];
    assert_eq!(r.encode_by_ref(&mut buf), Err(TimeOutOfRange { micros: -1 }));
    assert_eq!(buf, vec![1, 2, 3]);
}

#[test]
fn encode_fails_on_the_lower_value_first() {
    let r = PgRange::new(
        Bound::Included(Time { micros: 86_400_000_001 }),
        Bound::Excluded(Time { micros: -9 }),
    );
    let mut buf: Vec<u8> = Vec::new();
    assert_eq!(r.encode_by_ref(&mut buf), Err(TimeOutOfRange { micros: 86_400_000_001 }));
    assert!(buf.is_empty());
}

#[test]
fn time_of_day_limits() {
    let r = PgRange::new(Bound::Included(Time { micros: 0 }), Bound::Included(Time { micros: 86_400_000_000 }));
    let bytes = wire(&r);
    assert_eq!(PgRange::<Time>::decode(&bytes), Ok(r));
}

#[test]
fn decode_half_open_int4() {
    let r = PgRange::<i32>::decode(&[0x02, 0, 0, 0, 1, 0, 0, 0, 5]);
    assert_eq!(r, Ok(PgRange { start: Bound::Included(1), end: Bound::Excluded(5) }));
}

#[test]
fn decode_each_shape() {
    let one = [0u8, 0, 0, 1];
    let two = [0u8, 0, 0, 2];
    let shapes: Vec<(u8, Bound<i32>, Bound<i32>)> = vec![
        (0x06, Bound::Included(1), Bound::Included(2)),
        (0x02, Bound::Included(1), Bound::Excluded(2)),
        (0x12, Bound::Included(1), Bound::Unbounded),
        (0x04, Bound::Excluded(1), Bound::Included(2)),
        (0x00, Bound::Excluded(1), Bound::Excluded(2)),
        (0x10, Bound::Excluded(1), Bound::Unbounded),
        (0x0c, Bound::Unbounded, Bound::Included(2)),
        (0x08, Bound::Unbounded, Bound::Excluded(2)),
        (0x18, Bound::Unbounded, Bound::Unbounded),
    ];
    for (flags, start, end) in shapes {
        let mut bytes = vec![flags];
        if start != Bound::Unbounded {
            bytes.extend_from_slice(&one);
        }
        if end != Bound::Unbounded {
            bytes.extend_from_slice(&two);
        }
        assert_eq!(PgRange::<i32>::decode(&bytes), Ok(PgRange { start, end }));
    }
}

#[test]
fn decode_empty_input_is_format_error() {
    let r = PgRange::<i32>::decode(&[]);
    assert_eq!(r, Err(DecodeError::Format));
}

#[test]
fn decode_missing_lower_value_is_format_error() {
    let r = PgRange::<i32>::decode(&[0x00]);
    assert_eq!(r, Err(DecodeError::Format));
    let r = PgRange::<i32>::decode(&[0x12]);
    assert_eq!(r, Err(DecodeError::Format));
}

#[test]
fn decode_missing_upper_value_is_format_error() {
    let r = PgRange::<i32>::decode(&[0x02, 0, 0, 0, 1]);
    assert_eq!(r, Err(DecodeError::Format));
}

#[test]
fn decode_value_cut_short_is_format_error() {
    let r = PgRange::<i32>::decode(&[0x02, 0, 0, 0, 1, 0, 0, 0]);
    assert_eq!(r, Err(DecodeError::Format));
    let r = PgRange::<i64>::decode(&[0x0c, 0, 0, 0, 1]);
    assert_eq!(r, Err(DecodeError::Format));
}

#[test]
fn decode_trailing_bytes_is_format_error() {
    let r = PgRange::<i32>::decode(&[0x02, 0, 0, 0, 1, 0, 0, 0, 5, 0]);
    assert_eq!(r, Err(DecodeError::Format));
    let r = PgRange::<i32>::decode(&[0x18, 0]);
    assert_eq!(r, Err(DecodeError::Format));
}

#[test]
fn decode_passes_the_element_error_on() {
    let mut bytes = vec![0x12u8];
    bytes.extend_from_slice(&(-5i64).to_be_bytes());
    let r = PgRange::<Time>::decode(&bytes);
    assert_eq!(r, Err(DecodeError::Element(TimeOutOfRange { micros: -5 })));
}

#[test]
fn decode_ignores_the_empty_bit_and_the_reserved_bits() {
    let r = PgRange::<i32>::decode(&[0x19]);
    assert_eq!(r, Ok(PgRange { start: Bound::Unbounded, end: Bound::Unbounded }));
    let r = PgRange::<i32>::decode(&[0x01]);
    assert_eq!(r, Err(DecodeError::Format));
    let r = PgRange::<i32>::decode(&[0xe3, 0, 0, 0, 1, 0, 0, 0, 5]);
    assert_eq!(r, Ok(PgRange { start: Bound::Included(1), end: Bound::Excluded(5) }));
}

#[test]
fn decode_prefix_says_how_far_it_read() {
    let bytes = [0x02u8, 0, 0, 0, 1, 0, 0, 0, 5, 0xaa, 0xbb];
    let r = PgRange::<i32>::decode_prefix(&bytes);
    assert_eq!(r, Ok((PgRange { start: Bound::Included(1), end: Bound::Excluded(5) }, 9)));
    let r = PgRange::<i32>::decode_prefix(&[0x18, 7, 7]);
    assert_eq!(r, Ok((PgRange { start: Bound::Unbounded, end: Bound::Unbounded }, 1)));
    let r = PgRange::<i32>::decode_prefix(&[]);
    assert_eq!(r, Err(DecodeError::Format));
}

fn round_trip<T>(r: PgRange<T>)
where
    T: WireElement + PartialEq + std::fmt::Debug,
    T::Error: std::fmt::Debug + PartialEq,
{
    let bytes = wire(&r);
    assert_eq!(PgRange::<T>::decode(&bytes), Ok(r));
}

#[test]
fn round_trip_int4_every_shape() {
    let bounds = |v: i32| vec![Bound::Included(v), Bound::Excluded(v), Bound::Unbounded];
    for start in bounds(-123456) {
        for end in bounds(i32::MAX) {
            round_trip(PgRange { start, end });
        }
    }
}

#[test]
fn round_trip_other_element_types() {
    round_trip(PgRange { start: Bound::Included(i64::MIN), end: Bound::Excluded(i64::MAX) });
    round_trip(PgRange { start: Bound::Excluded(i16::MIN), end: Bound::Included(i16::MAX) });
    round_trip(PgRange { start: Bound::Included(i8::MIN), end: Bound::Included(i8::MAX) });
    round_trip(PgRange { start: Bound::Included(false), end: Bound::Excluded(true) });
    round_trip(PgRange { start: Bound::Included(Date { days: -730_000 }), end: Bound::Unbounded });
    round_trip(PgRange { start: Bound::Unbounded, end: Bound::Excluded(Time { micros: 43_200_000_000 }) });
    round_trip(PgRange {
        start: Bound::Included(Timestamp { micros: 1 }),
        end: Bound::Included(Timestamp { micros: -1 }),
    });
    round_trip(PgRange {
        start: Bound::Excluded(TimestampTz { micros: 0 }),
        end: Bound::Excluded(TimestampTz { micros: i64::MAX }),
    });
    round_trip(PgRange {
        start: Bound::Included(Float4 { bits: (-0.5f32).to_bits() }),
        end: Bound::Excluded(Float4 { bits: f32::INFINITY.to_bits() }),
    });
    round_trip(PgRange {
        start: Bound::Included(Float8 { bits: 1e300f64.to_bits() }),
        end: Bound::Excluded(Float8 { bits: f64::NAN.to_bits() }),
    });
}

#[test]
fn round_trip_backwards_range() {
    round_trip(PgRange { start: Bound::Included(9), end: Bound::Excluded(2) });
}

#[test]
fn element_decoder_reports_truncation_and_refusal() {
    assert_eq!(i32::decode_element(&[0, 0, 0]), Err(ElementDecodeError::Truncated));
    assert_eq!(i32::decode_element(&[0, 0, 1, 0, 9]), Ok((256, 4)));
    assert_eq!(Time::decode_element(&[0; 7]), Err(ElementDecodeError::Truncated));
    assert_eq!(
        Time::decode_element(&[0x7f, 0xff, 0xff, 0xff, 0xff, 0xff, 0xff, 0xff]),
        Err(ElementDecodeError::Invalid(TimeOutOfRange { micros: i64::MAX }))
    );
    assert_eq!(bool::decode_element(&[]), Err(ElementDecodeError::Truncated));
    assert_eq!(bool::decode_element(&[2]), Ok((true, 1)));
    assert_eq!(i8::decode_element(&[0x80]), Ok((-128, 1)));
    assert_eq!(i16::decode_element(&[0x80, 0x00]), Ok((i16::MIN, 2)));
    assert_eq!(i64::decode_element(&[0, 0, 0, 0, 0, 0, 1, 2, 3]), Ok((258, 8)));
}
