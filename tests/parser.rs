use win_nightlight_lib::parser::{
    get_current_timestamp, kelvin_from_bytes, kelvin_to_bytes, parse_last_modified_timestamp_block,
    time_to_naive_time, timestamp_from_bytes, timestamp_to_bytes,
};
use win_nightlight_lib::{DeserializationError, TimeOfDay};

#[test]
fn parser_test_timestamp_roundtrip_conversion() {
    let timestamp = 1742518000;
    let bytes = timestamp_to_bytes(timestamp);
    let timestamp_from_bytes = timestamp_from_bytes(bytes);
    assert_eq!(timestamp, timestamp_from_bytes);
}

#[test]
fn parser_test_kelvin_roundtrip_conversion() {
    let color_temperature = 2700;
    let bytes = kelvin_to_bytes(color_temperature);
    let kelvin_from_bytes = kelvin_from_bytes(bytes);
    assert_eq!(color_temperature, kelvin_from_bytes);
}

#[test]
fn model_test_timestamp_roundtrip_conversion() {
    let timestamp = 1742518000;
    assert_eq!(timestamp_from_bytes(timestamp_to_bytes(timestamp)), timestamp);
}

#[test]
fn model_test_kelvin_roundtrip_conversion() {
    let color_temperature = 1200;
    assert_eq!(kelvin_from_bytes(kelvin_to_bytes(color_temperature)), color_temperature);
}

#[test]
fn timestamp_encoding_exact_bytes() {
    assert_eq!(timestamp_to_bytes(1742540908), [0xEC, 0xA0, 0xF4, 0xBE, 0x06]);
    assert_eq!(timestamp_to_bytes(0), [0x80, 0x80, 0x80, 0x80, 0x00]);
    assert_eq!(timestamp_to_bytes(u32::MAX as u64), [0xFF, 0xFF, 0xFF, 0xFF, 0x0F]);
    assert_eq!(timestamp_from_bytes([0xFF, 0xFF, 0xFF, 0xFF, 0x0F]), u32::MAX as u64);
    assert_eq!(timestamp_from_bytes([0x89, 0x95, 0xFC, 0xBE, 0x06]), 1742670473);
}

#[test]
fn kelvin_encoding_exact_bytes() {
    assert_eq!(kelvin_to_bytes(2790), [0xCC, 0x2B]);
    assert_eq!(kelvin_to_bytes(6500), [0xC8, 0x65]);
    assert_eq!(kelvin_from_bytes([0xCC, 0x2B]), 2790);
    // A first byte without its top bit set wraps when the offset is taken off.
    assert_eq!(kelvin_from_bytes([0x00, 0x00]), 64);
}

#[test]
fn timestamp_block_is_parsed_at_offset() {
    let data = [
        0xFF, 0x0A, 0x02, 0x01, 0x00, 0x2A, 0x06, 0xEC, 0xA0, 0xF4, 0xBE, 0x06, 0x2A, 0x2B, 0x0E,
        0x77,
    ];
    assert_eq!(parse_last_modified_timestamp_block(&data, 1), Ok((1742540908, 15)));
    assert_eq!(
        parse_last_modified_timestamp_block(&data, 0),
        Err(DeserializationError::TimestampBlock)
    );
    assert_eq!(
        parse_last_modified_timestamp_block(&data[..12], 1),
        Err(DeserializationError::SliceArrayConversion)
    );
}

#[test]
fn time_values_are_range_checked() {
    assert_eq!(time_to_naive_time(23, 59), Ok(TimeOfDay { hour: 23, minute: 59 }));
    assert_eq!(time_to_naive_time(0, 0), Ok(TimeOfDay { hour: 0, minute: 0 }));
    assert_eq!(time_to_naive_time(24, 0), Err(DeserializationError::InvalidTimeValue));
    assert_eq!(time_to_naive_time(0, 60), Err(DeserializationError::InvalidTimeValue));
}

#[test]
fn current_timestamp_is_after_epoch() {
    let now = get_current_timestamp().unwrap();
    assert!(now > 1_600_000_000);
}
