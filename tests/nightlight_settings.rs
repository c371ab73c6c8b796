use win_nightlight_lib::parser::time_to_naive_time;
use win_nightlight_lib::{
    Block, DeserializationError, NightlightError, NightlightSettings, ScheduleMode, TimeOfDay,
};
use win_nightlight_lib::nightlight_settings::TimeBlockType;

const SCENARIO_BYTES: [u8; 60] = [
    0x43, 0x42, 0x01, 0x00, 0x0A, 0x02, 0x01, 0x00, 0x2A, 0x06, 0xEC, 0xA0, 0xF4, 0xBE, 0x06,
    0x2A, 0x2B, 0x0E, 0x26, 0x43, 0x42, 0x01, 0x00, 0x02, 0x01, 0xC2, 0x0A, 0x00, 0xCA, 0x14,
    0x0E, 0x01, 0x2E, 0x0F, 0x00, 0xCA, 0x1E, 0x00, 0xCF, 0x28, 0xCC, 0x2B, 0xCA, 0x32, 0x0E,
    0x13, 0x2E, 0x17, 0x00, 0xCA, 0x3C, 0x0E, 0x07, 0x2E, 0x0C, 0x00, 0x00, 0x00, 0x00, 0x00,
];

fn time(hour: u8, minute: u8) -> TimeOfDay {
    time_to_naive_time(hour, minute).unwrap()
}

fn scenario_settings() -> NightlightSettings {
    NightlightSettings {
        timestamp: 1742540908,
        schedule_mode: ScheduleMode::SetHours,
        color_temperature: 2790,
        start_time: time(1, 15),
        end_time: time(0, 0),
        sunset_time: time(19, 23),
        sunrise_time: time(7, 12),
    }
}

#[test]
fn nightlight_settings_test_serialize_to_bytes() {
    let settings = scenario_settings();
    let expected_bytes: [u8; 60] = SCENARIO_BYTES;
    let bytes = settings.serialize_to_bytes();
    let bytes_slice: &[u8] = bytes.as_slice();
    assert_eq!(expected_bytes, bytes_slice);
}

#[test]
fn nightlight_settings_test_deserialize_from_bytes() {
    let bytes: [u8; 60] = SCENARIO_BYTES;
    let expected_settings = scenario_settings();
    let settings = NightlightSettings::deserialize_from_bytes(&bytes).unwrap();
    assert_eq!(expected_settings, settings);
}

#[test]
fn nightlight_settings_test_serde_roundtrip() {
    let settings = NightlightSettings {
        timestamp: 1742541024,
        schedule_mode: ScheduleMode::SetHours,
        color_temperature: 6500,
        start_time: time(0, 15),
        end_time: time(0, 0),
        sunset_time: time(18, 26),
        sunrise_time: time(7, 0),
    };
    let bytes = settings.serialize_to_bytes();
    let settings_from_bytes = NightlightSettings::deserialize_from_bytes(&bytes).unwrap();
    assert_eq!(settings, settings_from_bytes);
}

#[test]
fn model_test_serialize_to_bytes() {
    let bytes = scenario_settings().serialize_to_bytes();
    assert_eq!(bytes.len(), 60);
    assert_eq!(bytes.as_slice(), &SCENARIO_BYTES[..]);
}

#[test]
fn model_test_deserialize_from_bytes() {
    let settings = NightlightSettings::deserialize_from_bytes(&SCENARIO_BYTES).unwrap();
    assert_eq!(settings, scenario_settings());
}

#[test]
fn model_test_serde_roundtrip() {
    let settings = NightlightSettings {
        timestamp: 1742541024,
        schedule_mode: ScheduleMode::SetHours,
        color_temperature: 6500,
        start_time: time(0, 15),
        end_time: time(0, 0),
        sunset_time: time(18, 26),
        sunrise_time: time(7, 0),
    };
    let bytes = settings.serialize_to_bytes();
    assert_eq!(NightlightSettings::deserialize_from_bytes(&bytes).unwrap(), settings);
}

#[test]
fn settings_every_mode_round_trips() {
    for mode in [ScheduleMode::Off, ScheduleMode::SunsetToSunrise, ScheduleMode::SetHours] {
        let settings = NightlightSettings { schedule_mode: mode, ..scenario_settings() };
        let bytes = settings.serialize_to_bytes();
        assert_eq!(NightlightSettings::deserialize_from_bytes(&bytes).unwrap(), settings);
    }
    let off = NightlightSettings { schedule_mode: ScheduleMode::Off, ..scenario_settings() };
    let bytes = off.serialize_to_bytes();
    assert_eq!(bytes.len(), 55);
    assert_eq!(bytes[18], 0x21);
    assert_eq!(&bytes[23..25], &[0xCA, 0x14]);
    let solar =
        NightlightSettings { schedule_mode: ScheduleMode::SunsetToSunrise, ..scenario_settings() };
    let bytes = solar.serialize_to_bytes();
    assert_eq!(&bytes[23..27], &[0x02, 0x01, 0xCA, 0x14]);
}

#[test]
fn settings_time_blocks_omit_zero_tags() {
    let settings = NightlightSettings {
        timestamp: 0,
        schedule_mode: ScheduleMode::Off,
        color_temperature: 1200,
        start_time: time(0, 0),
        end_time: time(23, 59),
        sunset_time: time(0, 30),
        sunrise_time: time(6, 0),
    };
    let bytes = settings.serialize_to_bytes();
    // start 00:00: prefix and terminal only
    assert_eq!(&bytes[23..26], &[0xCA, 0x14, 0x00]);
    // end 23:59: both tags
    assert_eq!(&bytes[26..33], &[0xCA, 0x1E, 0x0E, 23, 0x2E, 59, 0x00]);
    // color 1200
    assert_eq!(&bytes[33..37], &[0xCF, 0x28, 0xE0, 0x12]);
    // sunset 00:30: minute tag only
    assert_eq!(&bytes[37..42], &[0xCA, 0x32, 0x2E, 30, 0x00]);
    // sunrise 06:00: hour tag only
    assert_eq!(&bytes[42..47], &[0xCA, 0x3C, 0x0E, 6, 0x00]);
    assert_eq!(&bytes[47..], &[0x00, 0x00, 0x00, 0x00]);
    assert_eq!(NightlightSettings::deserialize_from_bytes(&bytes).unwrap(), settings);
}

#[test]
fn settings_decode_accepts_explicit_zero_tags() {
    // The schedule end block carries an explicit hour tag of zero.
    let mut bytes = SCENARIO_BYTES.to_vec();
    bytes.splice(37..37, [0x0E, 0x00]);
    bytes[18] += 2;
    let settings = NightlightSettings::deserialize_from_bytes(&bytes).unwrap();
    assert_eq!(settings, scenario_settings());
}

#[test]
fn settings_length_byte_mismatch_is_corrupt() {
    let mut bytes = SCENARIO_BYTES;
    bytes[18] = 0x25;
    assert_eq!(
        NightlightSettings::deserialize_from_bytes(&bytes),
        Err(DeserializationError::StructEnd)
    );
    let mut longer = SCENARIO_BYTES.to_vec();
    longer.push(0x00);
    assert_eq!(
        NightlightSettings::deserialize_from_bytes(&longer),
        Err(DeserializationError::StructEnd)
    );
}

fn decode_with(index: usize, value: u8) -> Result<NightlightSettings, DeserializationError> {
    let mut bytes = SCENARIO_BYTES;
    bytes[index] = value;
    NightlightSettings::deserialize_from_bytes(&bytes)
}

#[test]
fn settings_bad_fields_give_their_errors() {
    assert_eq!(decode_with(1, 0x00), Err(DeserializationError::StructStart));
    assert_eq!(decode_with(21, 0x02), Err(DeserializationError::StructStart));
    assert_eq!(decode_with(16, 0x2C), Err(DeserializationError::TimestampBlock));
    assert_eq!(
        decode_with(29, 0x15),
        Err(DeserializationError::InvalidBlock(Block::ScheduleStart))
    );
    assert_eq!(decode_with(36, 0x1F), Err(DeserializationError::InvalidBlock(Block::ScheduleEnd)));
    assert_eq!(
        decode_with(39, 0x29),
        Err(DeserializationError::InvalidBlock(Block::ColorTemperature))
    );
    assert_eq!(decode_with(43, 0x33), Err(DeserializationError::InvalidBlock(Block::Sunset)));
    assert_eq!(decode_with(50, 0x3D), Err(DeserializationError::InvalidBlock(Block::Sunrise)));
    assert_eq!(
        decode_with(31, 24),
        Err(DeserializationError::InvalidBlock(Block::TimeBlockHourValue))
    );
    assert_eq!(
        decode_with(33, 60),
        Err(DeserializationError::InvalidBlock(Block::TimeBlockMinuteValue))
    );
    assert_eq!(
        decode_with(34, 0x01),
        Err(DeserializationError::InvalidBlock(Block::TimeBlockTerminal))
    );
    assert_eq!(decode_with(57, 0x01), Err(DeserializationError::StructEnd));
    assert_eq!(
        NightlightSettings::deserialize_from_bytes(&SCENARIO_BYTES[..18]),
        Err(DeserializationError::SliceArrayConversion)
    );
}

#[test]
fn settings_setters_are_idempotent() {
    let mut settings = scenario_settings();
    settings.set_mode_at(ScheduleMode::Off, 10);
    assert_eq!(settings.schedule_mode, ScheduleMode::Off);
    assert_eq!(settings.timestamp, 10);
    settings.set_mode_at(ScheduleMode::Off, 20);
    assert_eq!(settings.timestamp, 10);

    settings.set_start_time_at(time(5, 5), 30);
    settings.set_start_time_at(time(5, 5), 40);
    assert_eq!(settings.start_time, time(5, 5));
    assert_eq!(settings.timestamp, 30);

    settings.set_end_time_at(time(6, 6), 50);
    settings.set_end_time_at(time(6, 6), 60);
    assert_eq!(settings.end_time, time(6, 6));
    assert_eq!(settings.timestamp, 50);

    settings.set_sunset_time_at(time(20, 1), 70);
    settings.set_sunset_time_at(time(20, 1), 80);
    assert_eq!(settings.sunset_time, time(20, 1));
    assert_eq!(settings.timestamp, 70);

    settings.set_sunrise_time_at(time(6, 59), 90);
    settings.set_sunrise_time_at(time(6, 59), 100);
    assert_eq!(settings.sunrise_time, time(6, 59));
    assert_eq!(settings.timestamp, 90);

    assert_eq!(settings.set_color_temperature_at(3000, 110), Ok(()));
    assert_eq!(settings.set_color_temperature_at(3000, 120), Ok(()));
    assert_eq!(settings.color_temperature, 3000);
    assert_eq!(settings.timestamp, 110);
}

#[test]
fn settings_color_temperature_range_is_enforced() {
    let mut settings = scenario_settings();
    let before = settings;
    assert_eq!(
        settings.set_color_temperature_at(1199, 5),
        Err(NightlightError::InvalidColorTemperature(1199))
    );
    assert_eq!(
        settings.set_color_temperature_at(6501, 5),
        Err(NightlightError::InvalidColorTemperature(6501))
    );
    assert_eq!(settings, before);
    assert_eq!(settings.set_color_temperature_at(1200, 5), Ok(()));
    assert_eq!(settings.color_temperature, 1200);
    assert_eq!(settings.set_color_temperature_at(6500, 6), Ok(()));
    assert_eq!(settings.color_temperature, 6500);
    assert_eq!(settings.timestamp, 6);
}

#[test]
fn settings_setters_with_clock_stamp_changes() {
    let mut settings = scenario_settings();
    assert_eq!(settings.set_mode(ScheduleMode::SunsetToSunrise), Ok(()));
    assert!(settings.timestamp > 1_742_540_908);
    let stamped = settings.timestamp;
    assert_eq!(settings.set_mode(ScheduleMode::SunsetToSunrise), Ok(()));
    assert_eq!(settings.timestamp, stamped);
    assert_eq!(
        settings.set_color_temperature(100),
        Err(NightlightError::InvalidColorTemperature(100))
    );
    assert_eq!(settings.set_color_temperature(4000), Ok(()));
    assert_eq!(settings.color_temperature, 4000);
    assert_eq!(settings.set_start_time(time(2, 0)), Ok(()));
    assert_eq!(settings.set_end_time(time(3, 0)), Ok(()));
    assert_eq!(settings.set_sunset_time(time(4, 0)), Ok(()));
    assert_eq!(settings.set_sunrise_time(time(5, 0)), Ok(()));
    assert_eq!(settings.start_time, time(2, 0));
    assert_eq!(settings.end_time, time(3, 0));
    assert_eq!(settings.sunset_time, time(4, 0));
    assert_eq!(settings.sunrise_time, time(5, 0));
}

#[test]
fn time_block_writer_and_reader_agree_at_boundaries() {
    let kinds = [
        TimeBlockType::ScheduleStart,
        TimeBlockType::ScheduleEnd,
        TimeBlockType::Sunset,
        TimeBlockType::Sunrise,
    ];
    for kind in kinds {
        for (h, m) in [(0u8, 0u8), (0, 59), (23, 0), (23, 59), (7, 12)] {
            let t = time(h, m);
            let block = NightlightSettings::naive_time_to_bytes(t, kind);
            let mut expected = kind.get_prefix_identifier().to_vec();
            if h > 0 {
                expected.extend_from_slice(&[0x0E, h]);
            }
            if m > 0 {
                expected.extend_from_slice(&[0x2E, m]);
            }
            expected.push(0x00);
            assert_eq!(block, expected);
            let mut data = block.clone();
            data.extend_from_slice(&[0xAB, 0xCD]);
            assert_eq!(
                NightlightSettings::parse_time_type_block(&data, 0, kind),
                Ok((h, m, block.len()))
            );
        }
    }
}
