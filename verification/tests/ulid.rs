use oysterpack::ulid::{ulid_u128_from_str, ulid_u128_into_string, DecodingError, ULID};

#[test]
fn encode_known_values() {
    assert_eq!(ulid_u128_into_string(0), "00000000000000000000000000");
    assert_eq!(ulid_u128_into_string(1), "00000000000000000000000001");
    assert_eq!(ulid_u128_into_string(32), "00000000000000000000000010");
    assert_eq!(ulid_u128_into_string(u128::MAX), "7ZZZZZZZZZZZZZZZZZZZZZZZZZ");
}

#[test]
fn encode_matches_the_external_encoder() {
    for _ in 0..32 {
        let ulid = rusty_ulid::Ulid::generate();
        let value: u128 = ulid.into();
        assert_eq!(ulid_u128_into_string(value), ulid.to_string());
    }
}

#[test]
fn decode_round_trip() {
    let values = vec![
        0u128,
        1,
        31,
        32,
        1871557337320005579010710867531265404,
        u128::MAX,
    ];
    for v in values {
        assert_eq!(ulid_u128_from_str(&ulid_u128_into_string(v)), Ok(v));
    }
}

#[test]
fn decode_accepts_lower_case_and_aliases() {
    assert_eq!(ulid_u128_from_str("7zzzzzzzzzzzzzzzzzzzzzzzzz"), Ok(u128::MAX));
    assert_eq!(ulid_u128_from_str("0000000000000000000000000O"), Ok(0));
    assert_eq!(ulid_u128_from_str("000000000000000000000000Il"), Ok(33));
}

#[test]
fn decode_rejects_bad_inputs() {
    assert_eq!(ulid_u128_from_str(""), Err(DecodingError::InvalidLength));
    assert_eq!(ulid_u128_from_str("123"), Err(DecodingError::InvalidLength));
    assert_eq!(
        ulid_u128_from_str("0000000000000000000000000U"),
        Err(DecodingError::InvalidChar('U'))
    );
    assert_eq!(
        ulid_u128_from_str("80000000000000000000000000"),
        Err(DecodingError::DataTypeOverflow)
    );
}

#[test]
fn encoded_strings_sort_like_their_values() {
    let mut values = vec![
        5u128,
        0,
        u128::MAX,
        1,
        1 << 64,
        31,
        32,
        1871557337320005579010710867531265404,
    ];
    let mut strings: Vec<String> = values.iter().map(|v| ulid_u128_into_string(*v)).collect();
    values.sort();
    strings.sort();
    let expected: Vec<String> = values.iter().map(|v| ulid_u128_into_string(*v)).collect();
    assert_eq!(strings, expected);
}

#[test]
fn generated_ulid_round_trips_via_parse() {
    for _ in 0..32 {
        let id = ULID::generate();
        let s = id.to_string();
        assert_eq!(s.len(), 26);
        assert_eq!(ULID::parse(&s).unwrap(), id);
        let external: rusty_ulid::Ulid = s.parse().unwrap();
        let external_value: u128 = external.into();
        assert_eq!(external_value, id.value());
    }
}
