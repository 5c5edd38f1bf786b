use fx_processed_to_clang::table_address::{decode_column, encode_column, TableAddress, WireInteger};

fn round_trip(x: TableAddress) -> TableAddress {
    TableAddress::decode(x.encode())
}

#[test]
fn sentinel_codec_round_trips_each_case() {
    let cases = vec![
        TableAddress::Address(0),
        TableAddress::Address(1u64 << 63),
        TableAddress::Base,
        TableAddress::Error(-2),
        TableAddress::Error(-9999),
    ];
    for x in cases {
        assert_eq!(round_trip(x), x);
    }
}

#[test]
fn base_encodes_as_minus_one() {
    assert_eq!(TableAddress::Base.encode(), WireInteger::Signed(-1));
}

#[test]
fn malformed_value_encodes_unchanged() {
    assert_eq!(TableAddress::Error(-7).encode(), WireInteger::Signed(-7));
}

#[test]
fn resolved_address_encodes_unsigned() {
    assert_eq!(
        TableAddress::Address(u64::MAX).encode(),
        WireInteger::Unsigned(u64::MAX)
    );
}

#[test]
fn decode_signed_values() {
    assert_eq!(TableAddress::from_negative(-1), TableAddress::Base);
    assert_eq!(TableAddress::from_negative(-2), TableAddress::Error(-2));
    assert_eq!(TableAddress::from_negative(i64::MIN), TableAddress::Error(i64::MIN));
    assert_eq!(TableAddress::from_negative(0), TableAddress::Address(0));
    assert_eq!(TableAddress::from_negative(796420), TableAddress::Address(796420));
}

#[test]
fn decode_unsigned_values() {
    assert_eq!(TableAddress::from_positive(0), TableAddress::Address(0));
    assert_eq!(
        TableAddress::decode(WireInteger::Unsigned(2437518)),
        TableAddress::Address(2437518)
    );
    assert_eq!(
        TableAddress::decode(WireInteger::Signed(-1)),
        TableAddress::Base
    );
}

#[test]
fn wire_integers_round_trip() {
    let cases = vec![
        WireInteger::Unsigned(0),
        WireInteger::Unsigned(u64::MAX),
        WireInteger::Signed(-1),
        WireInteger::Signed(-42),
        WireInteger::Signed(i64::MIN),
    ];
    for w in cases {
        assert_eq!(TableAddress::decode(w).encode(), w);
    }
}

#[test]
fn address_column_round_trips() {
    let wire = vec![
        WireInteger::Signed(-1),
        WireInteger::Unsigned(796420),
        WireInteger::Unsigned(911223),
        WireInteger::Signed(-5),
    ];
    let cells = decode_column(&wire);
    assert_eq!(
        cells,
        vec![
            TableAddress::Base,
            TableAddress::Address(796420),
            TableAddress::Address(911223),
            TableAddress::Error(-5),
        ]
    );
    assert_eq!(encode_column(&cells), wire);
    assert!(decode_column(&vec![]).is_empty());
}
