use mvdist::{decode_bounds, encode_bounds, BoundType};

#[test]
fn codes_follow_the_table() {
    assert_eq!(BoundType::Unbounded.code(), -1);
    assert_eq!(BoundType::Above.code(), 0);
    assert_eq!(BoundType::Below.code(), 1);
    assert_eq!(BoundType::Both.code(), 2);
}

#[test]
fn into_gives_the_code() {
    let c: i32 = BoundType::Unbounded.into();
    assert_eq!(c, -1);
    let c: i32 = BoundType::Above.into();
    assert_eq!(c, 0);
    let c: i32 = BoundType::Below.into();
    assert_eq!(c, 1);
    let c: i32 = BoundType::Both.into();
    assert_eq!(c, 2);
}

#[test]
fn from_code_reads_the_table_backwards() {
    assert_eq!(BoundType::from_code(-1), Some(BoundType::Unbounded));
    assert_eq!(BoundType::from_code(0), Some(BoundType::Above));
    assert_eq!(BoundType::from_code(1), Some(BoundType::Below));
    assert_eq!(BoundType::from_code(2), Some(BoundType::Both));
}

#[test]
fn from_code_refuses_what_is_no_code() {
    assert_eq!(BoundType::from_code(-2), None);
    assert_eq!(BoundType::from_code(3), None);
    assert_eq!(BoundType::from_code(i32::MIN), None);
    assert_eq!(BoundType::from_code(i32::MAX), None);
}

#[test]
fn every_kind_survives_the_round_trip() {
    for kind in [BoundType::Unbounded, BoundType::Above, BoundType::Below, BoundType::Both] {
        assert_eq!(BoundType::from_code(kind.code()), Some(kind));
    }
}

#[test]
fn encode_bounds_keeps_order_and_length() {
    let kinds = vec![
        BoundType::Both,
        BoundType::Unbounded,
        BoundType::Below,
        BoundType::Above,
        BoundType::Both,
    ];
    assert_eq!(encode_bounds(&kinds), vec![2, -1, 1, 0, 2]);
}

#[test]
fn encode_bounds_of_nothing_is_nothing() {
    assert_eq!(encode_bounds(&Vec::new()), Vec::<i32>::new());
}

#[test]
fn encode_then_decode_gives_the_kinds_back() {
    let all = [BoundType::Unbounded, BoundType::Above, BoundType::Below, BoundType::Both];
    // every sequence of length 0 to 4 over the four kinds
    for len in 0..=4usize {
        let count = 4usize.pow(len as u32);
        for mut index in 0..count {
            let mut kinds = Vec::new();
            for _ in 0..len {
                kinds.push(all[index % 4]);
                index /= 4;
            }
            let codes = encode_bounds(&kinds);
            assert_eq!(codes.len(), kinds.len());
            assert_eq!(decode_bounds(&codes), Some(kinds));
        }
    }
}

#[test]
fn decode_bounds_refuses_a_sequence_with_a_stranger() {
    assert_eq!(decode_bounds(&vec![2, 2, 3, 0]), None);
    assert_eq!(decode_bounds(&vec![-2]), None);
    assert_eq!(decode_bounds(&vec![0, 1, 2, -1]).map(|k| k.len()), Some(4));
}
