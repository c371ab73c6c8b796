use win_nightlight_lib::{DeserializationError, NightlightState};

const BYTES_DISABLED: [u8; 41] = [
    0x43, 0x42, 0x01, 0x00, 0x0A, 0x02, 0x01, 0x00, 0x2A, 0x06, 0x89, 0x95, 0xFC, 0xBE, 0x06,
    0x2A, 0x2B, 0x0E, 0x13, 0x43, 0x42, 0x01, 0x00, 0xD0, 0x0A, 0x02, 0xC6, 0x14, 0xA9, 0xF6,
    0xE2, 0xD3, 0xEF, 0xEA, 0xE6, 0xED, 0x01, 0x00, 0x00, 0x00, 0x00,
];
const BYTES_ENABLED: [u8; 43] = [
    0x43, 0x42, 0x01, 0x00, 0x0A, 0x02, 0x01, 0x00, 0x2A, 0x06, 0x89, 0x95, 0xFC, 0xBE, 0x06,
    0x2A, 0x2B, 0x0E, 0x15, 0x43, 0x42, 0x01, 0x00, 0x10, 0x00, 0xD0, 0x0A, 0x02, 0xC6, 0x14,
    0xA9, 0xF6, 0xE2, 0xD3, 0xEF, 0xEA, 0xE6, 0xED, 0x01, 0x00, 0x00, 0x00, 0x00,
];

fn payload() -> Vec<u8> {
    vec![
        0xD0, 0x0A, 0x02, 0xC6, 0x14, 0xA9, 0xF6, 0xE2, 0xD3, 0xEF, 0xEA, 0xE6, 0xED, 0x01,
    ]
}

#[test]
fn nightlight_state_test_serialize_to_bytes() {
    let state_disabled = NightlightState::new(1742670473, false, payload());
    let bytes_disabled = state_disabled.serialize_to_bytes();
    assert_eq!(bytes_disabled, BYTES_DISABLED);

    let state_enabled = NightlightState::new(1742670473, true, payload());
    let bytes_enabled = state_enabled.serialize_to_bytes();
    assert_eq!(bytes_enabled, BYTES_ENABLED);
}

#[test]
fn nightlight_state_test_deserialize_from_bytes() {
    let expected_state_disabled = NightlightState::new(1742670473, false, payload());
    let state_disabled = NightlightState::deserialize_from_bytes(&BYTES_DISABLED).unwrap();
    assert_eq!(state_disabled, expected_state_disabled);

    let expected_state_enabled = NightlightState::new(1742670473, true, payload());
    let state_enabled = NightlightState::deserialize_from_bytes(&BYTES_ENABLED).unwrap();
    assert_eq!(state_enabled, expected_state_enabled);
}

#[test]
fn nightlight_state_test_serde_roundtrip() {
    let state_disabled = NightlightState::deserialize_from_bytes(&BYTES_DISABLED).unwrap();
    let bytes = state_disabled.serialize_to_bytes();
    let state_deserialized = NightlightState::deserialize_from_bytes(&bytes).unwrap();
    assert_eq!(state_deserialized, state_disabled);

    let state_enabled = NightlightState::deserialize_from_bytes(&BYTES_ENABLED).unwrap();
    let bytes = state_enabled.serialize_to_bytes();
    let state_deserialized = NightlightState::deserialize_from_bytes(&bytes).unwrap();
    assert_eq!(state_deserialized, state_enabled);
}

#[test]
fn state_enabled_marker_stands_after_inner_header() {
    let disabled = NightlightState::new(1742670473, false, payload()).serialize_to_bytes();
    assert_eq!(&disabled[19..23], &[0x43, 0x42, 0x01, 0x00]);
    assert_eq!(&disabled[23..37], payload().as_slice());

    let enabled = NightlightState::new(1742670473, true, payload()).serialize_to_bytes();
    assert_eq!(&enabled[19..25], &[0x43, 0x42, 0x01, 0x00, 0x10, 0x00]);
    assert_eq!(enabled.len(), disabled.len() + 2);
}

#[test]
fn state_payload_is_kept_verbatim() {
    let state = NightlightState::deserialize_from_bytes(&BYTES_ENABLED).unwrap();
    assert_eq!(state.remaining_data(), payload().as_slice());
    assert!(state.is_enabled);
    assert_eq!(state.timestamp, 1742670473);
}

#[test]
fn state_empty_payload_round_trips() {
    let state = NightlightState::new(5, false, vec![]);
    let bytes = state.serialize_to_bytes();
    assert_eq!(bytes.len(), 27);
    assert_eq!(bytes[18], 5);
    assert_eq!(NightlightState::deserialize_from_bytes(&bytes).unwrap(), state);
}

#[test]
fn state_length_byte_mismatch_is_corrupt() {
    let mut bytes = BYTES_DISABLED;
    bytes[18] = 0x14;
    assert_eq!(
        NightlightState::deserialize_from_bytes(&bytes),
        Err(DeserializationError::StructEnd)
    );
    let mut short = BYTES_ENABLED.to_vec();
    short.remove(30);
    assert_eq!(
        NightlightState::deserialize_from_bytes(&short),
        Err(DeserializationError::StructEnd)
    );
}

#[test]
fn state_bad_markers_give_their_errors() {
    let mut bytes = BYTES_DISABLED;
    bytes[0] = 0x44;
    assert_eq!(
        NightlightState::deserialize_from_bytes(&bytes),
        Err(DeserializationError::StructStart)
    );
    let mut bytes = BYTES_DISABLED;
    bytes[20] = 0x00;
    assert_eq!(
        NightlightState::deserialize_from_bytes(&bytes),
        Err(DeserializationError::StructStart)
    );
    let mut bytes = BYTES_DISABLED;
    bytes[5] = 0x03;
    assert_eq!(
        NightlightState::deserialize_from_bytes(&bytes),
        Err(DeserializationError::TimestampBlock)
    );
    let mut bytes = BYTES_DISABLED;
    bytes[39] = 0x01;
    assert_eq!(
        NightlightState::deserialize_from_bytes(&bytes),
        Err(DeserializationError::StructEnd)
    );
    assert_eq!(
        NightlightState::deserialize_from_bytes(&BYTES_DISABLED[..12]),
        Err(DeserializationError::SliceArrayConversion)
    );
    assert_eq!(
        NightlightState::deserialize_from_bytes(&[]),
        Err(DeserializationError::SliceArrayConversion)
    );
}

#[test]
fn state_enable_and_disable_report_flips() {
    let mut state = NightlightState::new(100, false, payload());
    assert!(state.enable_at(200));
    assert!(state.is_enabled);
    assert_eq!(state.timestamp, 200);
    assert!(!state.enable_at(300));
    assert_eq!(state.timestamp, 200);
    assert!(state.disable_at(400));
    assert!(!state.is_enabled);
    assert_eq!(state.timestamp, 400);
    assert!(!state.disable_at(500));
    assert_eq!(state.timestamp, 400);
    assert_eq!(state.remaining_data(), payload().as_slice());
}

#[test]
fn state_enable_with_clock_stamps_change() {
    let mut state = NightlightState::new(100, false, payload());
    assert_eq!(state.enable(), Ok(true));
    assert!(state.timestamp() > 1_600_000_000);
    let stamped = state.timestamp();
    assert_eq!(state.enable(), Ok(false));
    assert_eq!(state.timestamp(), stamped);
    assert_eq!(state.disable(), Ok(true));
    assert_eq!(state.disable(), Ok(false));
    assert!(!state.is_enabled());
}

#[test]
fn state_getters_read_fields() {
    let state = NightlightState::new(42, true, payload());
    assert_eq!(state.timestamp(), 42);
    assert!(state.is_enabled());
    assert_eq!(state.remaining_data(), payload().as_slice());
}
