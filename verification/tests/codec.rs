use nexosim_core::codec::{decode_config, encode_config, CfgScalar, Config, DecodeError};

fn cfg(entries: Vec<(u64, CfgScalar)>) -> Config {
    Config { entries }
}

#[test]
fn empty_configuration_encodes_to_an_empty_map() {
    let c = cfg(vec![]);
    assert_eq!(encode_config(&c), vec![0xa0]);
}

#[test]
fn small_uint_uses_the_direct_form() {
    let c = cfg(vec![(1, CfgScalar::Uint(5))]);
    assert_eq!(encode_config(&c), vec![0xa1, 0x01, 0x05]);
}

#[test]
fn each_argument_width_is_minimal() {
    assert_eq!(encode_config(&cfg(vec![(0, CfgScalar::Uint(23))])), vec![0xa1, 0x00, 0x17]);
    assert_eq!(encode_config(&cfg(vec![(0, CfgScalar::Uint(24))])), vec![0xa1, 0x00, 0x18, 0x18]);
    assert_eq!(encode_config(&cfg(vec![(0, CfgScalar::Uint(255))])), vec![0xa1, 0x00, 0x18, 0xff]);
    assert_eq!(
        encode_config(&cfg(vec![(0, CfgScalar::Uint(500))])),
        vec![0xa1, 0x00, 0x19, 0x01, 0xf4]
    );
    assert_eq!(
        encode_config(&cfg(vec![(0, CfgScalar::Uint(65536))])),
        vec![0xa1, 0x00, 0x1a, 0x00, 0x01, 0x00, 0x00]
    );
    assert_eq!(
        encode_config(&cfg(vec![(0, CfgScalar::Uint(4294967296))])),
        vec![0xa1, 0x00, 0x1b, 0x00, 0x00, 0x00, 0x01, 0x00, 0x00, 0x00, 0x00]
    );
    assert_eq!(
        encode_config(&cfg(vec![(0, CfgScalar::Uint(u64::MAX))])),
        vec![0xa1, 0x00, 0x1b, 0xff, 0xff, 0xff, 0xff, 0xff, 0xff, 0xff, 0xff]
    );
}

#[test]
fn simple_values_and_negatives_encode_as_in_the_wire_format() {
    let c = cfg(vec![
        (1, CfgScalar::Bool(false)),
        (2, CfgScalar::Bool(true)),
        (3, CfgScalar::Null),
        (4, CfgScalar::Nint(9)),
    ]);
    assert_eq!(
        encode_config(&c),
        vec![0xa4, 0x01, 0xf4, 0x02, 0xf5, 0x03, 0xf6, 0x04, 0x29]
    );
}

#[test]
fn byte_strings_carry_their_length_then_payload() {
    let c = cfg(vec![(7, CfgScalar::Bytes(vec![0xde, 0xad, 0xbe]))]);
    assert_eq!(encode_config(&c), vec![0xa1, 0x07, 0x43, 0xde, 0xad, 0xbe]);
}

#[test]
fn round_trip_preserves_every_scalar_kind_and_width() {
    let c = cfg(vec![
        (0, CfgScalar::Null),
        (1, CfgScalar::Bool(false)),
        (2, CfgScalar::Bool(true)),
        (23, CfgScalar::Uint(23)),
        (24, CfgScalar::Uint(24)),
        (255, CfgScalar::Uint(255)),
        (256, CfgScalar::Uint(256)),
        (65535, CfgScalar::Uint(65535)),
        (65536, CfgScalar::Uint(65536)),
        (4294967295, CfgScalar::Uint(4294967295)),
        (4294967296, CfgScalar::Uint(4294967296)),
        (u64::MAX, CfgScalar::Uint(u64::MAX)),
        (12, CfgScalar::Nint(0)),
        (13, CfgScalar::Nint(u64::MAX)),
        (14, CfgScalar::Bytes(vec![])),
        (15, CfgScalar::Bytes((0u8..=255).collect())),
    ]);
    let bytes = encode_config(&c);
    assert_eq!(decode_config(&bytes), Ok(c));
}

#[test]
fn round_trip_preserves_duplicate_keys_and_order() {
    let c = cfg(vec![(5, CfgScalar::Uint(1)), (5, CfgScalar::Uint(2)), (3, CfgScalar::Null)]);
    let bytes = encode_config(&c);
    assert_eq!(decode_config(&bytes), Ok(c));
}

#[test]
fn decoder_accepts_non_minimal_headers() {
    // {1: 5} with both the key and the value in widened forms.
    let bytes = vec![0xb8, 0x01, 0x19, 0x00, 0x01, 0x1b, 0, 0, 0, 0, 0, 0, 0, 0x05];
    assert_eq!(decode_config(&bytes), Ok(cfg(vec![(1, CfgScalar::Uint(5))])));
}

#[test]
fn truncated_inputs_are_rejected() {
    assert_eq!(decode_config(&vec![]), Err(DecodeError::Truncated));
    assert_eq!(decode_config(&vec![0xa1]), Err(DecodeError::Truncated));
    assert_eq!(decode_config(&vec![0xa1, 0x01]), Err(DecodeError::Truncated));
    assert_eq!(decode_config(&vec![0xa1, 0x19, 0x00]), Err(DecodeError::Truncated));
    // A byte string announcing more payload than is present.
    assert_eq!(decode_config(&vec![0xa1, 0x01, 0x43, 0xde]), Err(DecodeError::Truncated));
}

#[test]
fn non_map_top_level_items_are_rejected() {
    assert_eq!(decode_config(&vec![0x05]), Err(DecodeError::UnexpectedType));
    assert_eq!(decode_config(&vec![0x43, 1, 2, 3]), Err(DecodeError::UnexpectedType));
}

#[test]
fn non_integer_keys_and_nested_items_are_rejected() {
    // Key is a negative integer.
    assert_eq!(decode_config(&vec![0xa1, 0x29, 0x05]), Err(DecodeError::UnexpectedType));
    // Value is a nested map.
    assert_eq!(decode_config(&vec![0xa1, 0x01, 0xa0]), Err(DecodeError::UnexpectedType));
}

#[test]
fn indefinite_lengths_floats_and_unknown_simple_values_are_rejected() {
    // Indefinite-length map.
    assert_eq!(decode_config(&vec![0xbf, 0xff]), Err(DecodeError::Reserved));
    // Half-width float value.
    assert_eq!(
        decode_config(&vec![0xa1, 0x01, 0xf9, 0x00, 0x00]),
        Err(DecodeError::Reserved)
    );
    // Simple value outside false/true/null.
    assert_eq!(decode_config(&vec![0xa1, 0x01, 0xf7]), Err(DecodeError::Reserved));
}

#[test]
fn trailing_bytes_are_rejected() {
    assert_eq!(decode_config(&vec![0xa0, 0x00]), Err(DecodeError::TrailingData));
}

fn to_ciborium_value(c: &Config) -> ciborium::value::Value {
    let entries = c
        .entries
        .iter()
        .map(|(k, v)| {
            let key = ciborium::value::Value::Integer((*k).into());
            let val = match v {
                CfgScalar::Null => ciborium::value::Value::Null,
                CfgScalar::Bool(b) => ciborium::value::Value::Bool(*b),
                CfgScalar::Uint(n) => ciborium::value::Value::Integer((*n).into()),
                CfgScalar::Nint(n) => {
                    let neg: i128 = -1 - (*n as i128);
                    ciborium::value::Value::Integer(neg.try_into().unwrap())
                },
                CfgScalar::Bytes(p) => ciborium::value::Value::Bytes(p.clone()),
            };
            (key, val)
        })
        .collect();
    ciborium::value::Value::Map(entries)
}

#[test]
fn encoding_matches_the_reference_cbor_implementation() {
    let c = cfg(vec![
        (1, CfgScalar::Uint(5)),
        (2, CfgScalar::Uint(500)),
        (3, CfgScalar::Nint(9)),
        (4, CfgScalar::Bool(true)),
        (5, CfgScalar::Null),
        (6, CfgScalar::Bytes(vec![1, 2, 3])),
    ]);
    let mut reference = Vec::new();
    ciborium::ser::into_writer(&to_ciborium_value(&c), &mut reference).unwrap();
    assert_eq!(encode_config(&c), reference);
}

#[test]
fn reference_cbor_implementation_decodes_our_encoding() {
    let c = cfg(vec![(9, CfgScalar::Bytes(vec![0xaa])), (10, CfgScalar::Bool(false))]);
    let bytes = encode_config(&c);
    let decoded: ciborium::value::Value = ciborium::de::from_reader(bytes.as_slice()).unwrap();
    assert_eq!(decoded, to_ciborium_value(&c));
}

#[test]
fn our_decoder_accepts_the_reference_implementations_bytes() {
    let c = cfg(vec![(0, CfgScalar::Uint(70000)), (1, CfgScalar::Null)]);
    let mut reference = Vec::new();
    ciborium::ser::into_writer(&to_ciborium_value(&c), &mut reference).unwrap();
    assert_eq!(decode_config(&reference), Ok(c));
}
