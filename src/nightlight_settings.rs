use crate::consts::{STRUCT_FOOTER_BYTES, STRUCT_HEADER_BYTES};
use crate::parser::{
    expect, expect_bytes, frame, lemma_frame_length_mismatch, length_byte_disagrees, frame_record, framed, has_bytes_at, kelvin_encoding,
    kelvin_from_bytes, kelvin_to_bytes, kelvin_value, lemma_expect_prefix, lemma_frame_round_trip,
    lemma_kelvin_round_trip, parse_frame, parse_struct_footer_block, parse_struct_header_block,
    push_all, starts_with, time_to_naive_time, get_current_timestamp, Block, DeserializationError,
    TimeOfDay,
};
use vstd::prelude::*;

verus! {

/// Stands after the inner header when a schedule is on, of either kind.
pub const SCHEDULE_ENABLED_BYTES: [u8; 2] = [0x02, 0x01];

/// Stands after `SCHEDULE_ENABLED_BYTES` when the schedule keeps set hours.
pub const SCHEDULE_MODE_SET_HOURS_ENABLED_BYTES: [u8; 3] = [0xC2, 0x0A, 0x00];

/// Opens the schedule start time block.
pub const SCHEDULE_START_TIME_PREFIX_BYTES: [u8; 2] = [0xCA, 0x14];

/// Opens the schedule end time block.
pub const SCHEDULE_END_TIME_PREFIX_BYTES: [u8; 2] = [0xCA, 0x1E];

/// Opens the sunset time block.
pub const SUNSET_TIME_PREFIX_BYTES: [u8; 2] = [0xCA, 0x32];

/// Opens the sunrise time block.
pub const SUNRISE_TIME_PREFIX_BYTES: [u8; 2] = [0xCA, 0x3C];

/// Tags the next byte of a time block as its hour.
pub const TIME_BLOCK_HOUR_IDENTIFIER_PREFIX_BYTE: u8 = 0x0E;

/// Tags the next byte of a time block as its minute.
pub const TIME_BLOCK_MINUTE_IDENTIFIER_PREFIX_BYTE: u8 = 0x2E;

/// Closes a time block.
pub const TIME_BLOCK_TERMINAL_BYTE: u8 = 0x00;

/// Opens the color temperature block.
pub const COLOR_TEMPERATURE_PREFIX_BYTES: [u8; 2] = [0xCF, 0x28];

/// The width of an encoded color temperature.
pub const COLOR_TEMPERATURE_SIZE: usize = 2;

/// The lowest color temperature that can be set, in Kelvin.
pub const MIN_COLOR_TEMPERATURE: u16 = 1200;

/// The highest color temperature that can be set, in Kelvin.
pub const MAX_COLOR_TEMPERATURE: u16 = 6500;

/// The byte values of the settings record's constants.
pub proof fn lemma_settings_constants()
    ensures
        SCHEDULE_ENABLED_BYTES@ == seq![0x02u8, 0x01u8],
        SCHEDULE_MODE_SET_HOURS_ENABLED_BYTES@ == seq![0xC2u8, 0x0Au8, 0x00u8],
        SCHEDULE_START_TIME_PREFIX_BYTES@ == seq![0xCAu8, 0x14u8],
        SCHEDULE_END_TIME_PREFIX_BYTES@ == seq![0xCAu8, 0x1Eu8],
        SUNSET_TIME_PREFIX_BYTES@ == seq![0xCAu8, 0x32u8],
        SUNRISE_TIME_PREFIX_BYTES@ == seq![0xCAu8, 0x3Cu8],
        COLOR_TEMPERATURE_PREFIX_BYTES@ == seq![0xCFu8, 0x28u8],
        STRUCT_FOOTER_BYTES@ == seq![0x00u8, 0x00u8, 0x00u8, 0x00u8],
{
    assert(SCHEDULE_ENABLED_BYTES@ =~= seq![0x02u8, 0x01u8]);
    assert(SCHEDULE_MODE_SET_HOURS_ENABLED_BYTES@ =~= seq![0xC2u8, 0x0Au8, 0x00u8]);
    assert(SCHEDULE_START_TIME_PREFIX_BYTES@ =~= seq![0xCAu8, 0x14u8]);
    assert(SCHEDULE_END_TIME_PREFIX_BYTES@ =~= seq![0xCAu8, 0x1Eu8]);
    assert(SUNSET_TIME_PREFIX_BYTES@ =~= seq![0xCAu8, 0x32u8]);
    assert(SUNRISE_TIME_PREFIX_BYTES@ =~= seq![0xCAu8, 0x3Cu8]);
    assert(COLOR_TEMPERATURE_PREFIX_BYTES@ =~= seq![0xCFu8, 0x28u8]);
    assert(STRUCT_FOOTER_BYTES@ =~= seq![0x00u8, 0x00u8, 0x00u8, 0x00u8]);
}

/// Scheduling modes.
#[derive(Debug, Clone, Copy, PartialEq, Eq, Structural)]
pub enum ScheduleMode {
    Off,
    SunsetToSunrise,
    SetHours,
}

/// The four time blocks of a settings record.
#[derive(Debug, Clone, Copy, PartialEq, Eq, Structural)]
pub enum TimeBlockType {
    ScheduleStart,
    ScheduleEnd,
    Sunset,
    Sunrise,
}

impl TimeBlockType {
    /// The two bytes that open the block.
    pub open spec fn prefix(self) -> Seq<u8> {
        match self {
            TimeBlockType::ScheduleStart => SCHEDULE_START_TIME_PREFIX_BYTES@,
            TimeBlockType::ScheduleEnd => SCHEDULE_END_TIME_PREFIX_BYTES@,
            TimeBlockType::Sunset => SUNSET_TIME_PREFIX_BYTES@,
            TimeBlockType::Sunrise => SUNRISE_TIME_PREFIX_BYTES@,
        }
    }

    /// The block that a prefix mismatch names.
    pub open spec fn block(self) -> Block {
        match self {
            TimeBlockType::ScheduleStart => Block::ScheduleStart,
            TimeBlockType::ScheduleEnd => Block::ScheduleEnd,
            TimeBlockType::Sunset => Block::Sunset,
            TimeBlockType::Sunrise => Block::Sunrise,
        }
    }

    /// Returns the constant prefix that opens this kind of time block.
    pub fn get_prefix_identifier(&self) -> (r: [u8; 2])
        ensures
            r@ == self.prefix(),
    {
        match self {
            TimeBlockType::ScheduleStart => SCHEDULE_START_TIME_PREFIX_BYTES,
            TimeBlockType::ScheduleEnd => SCHEDULE_END_TIME_PREFIX_BYTES,
            TimeBlockType::Sunset => SUNSET_TIME_PREFIX_BYTES,
            TimeBlockType::Sunrise => SUNRISE_TIME_PREFIX_BYTES,
        }
    }

    /// The error that a prefix mismatch gives.
    fn prefix_error(&self) -> (r: DeserializationError)
        ensures
            r == DeserializationError::InvalidBlock(self.block()),
    {
        match self {
            TimeBlockType::ScheduleStart => DeserializationError::InvalidBlock(Block::ScheduleStart),
            TimeBlockType::ScheduleEnd => DeserializationError::InvalidBlock(Block::ScheduleEnd),
            TimeBlockType::Sunset => DeserializationError::InvalidBlock(Block::Sunset),
            TimeBlockType::Sunrise => DeserializationError::InvalidBlock(Block::Sunrise),
        }
    }
}

/// Errors of the settings setters.
#[derive(Debug, Clone, Copy, PartialEq, Eq, Structural)]
pub enum NightlightError {
    /// The color temperature lies outside 1200 to 6500 Kelvin.
    InvalidColorTemperature(u16),
    /// The system clock reads earlier than the Unix epoch, so a change
    /// cannot be stamped.
    InvalidTimeValue,
}

/// The current time in whole seconds since the Unix epoch, to stamp a
/// change with; `InvalidTimeValue` when the system clock reads earlier.
pub(crate) fn change_time() -> (r: Result<u64, NightlightError>)
    ensures
        r is Err ==> r == Err::<u64, NightlightError>(NightlightError::InvalidTimeValue),
{
    match get_current_timestamp() {
        Ok(now) => Ok(now),
        Err(_) => Err(NightlightError::InvalidTimeValue),
    }
}

/// The night light's settings record.
///
/// Its bytes are the shared framing (outer header, timestamp block,
/// remaining-length byte) around an inner body, then the footer. The inner
/// body is the inner header; `SCHEDULE_ENABLED_BYTES` when a schedule is on;
/// `SCHEDULE_MODE_SET_HOURS_ENABLED_BYTES` after them when it keeps set
/// hours; the schedule start and end time blocks; the color temperature
/// block; the sunset and sunrise time blocks.
///
/// A time block is its two-byte prefix; the hour tag and the hour, when the
/// hour is not zero; the minute tag and the minute, when the minute is not
/// zero; and the terminal byte.
#[derive(Debug, Clone, Copy, PartialEq, Eq, Structural)]
pub struct NightlightSettings {
    /// The last-modified Unix timestamp in seconds.
    pub timestamp: u64,
    /// The schedule mode.
    pub schedule_mode: ScheduleMode,
    /// The color temperature in Kelvin.
    pub color_temperature: u16,
    /// The start of the schedule when the mode is `SetHours`.
    pub start_time: TimeOfDay,
    /// The end of the schedule when the mode is `SetHours`.
    pub end_time: TimeOfDay,
    /// The sunset time.
    pub sunset_time: TimeOfDay,
    /// The sunrise time.
    pub sunrise_time: TimeOfDay,
}

// ---------------------------------------------------------------------------
// The byte grammar
/// The bytes of a time block of kind `kind` holding `t`.
#[verifier::opaque]
pub open spec fn time_block_encoding(kind: TimeBlockType, t: TimeOfDay) -> Seq<u8> {
    kind.prefix() + (if t.hour > 0 {
        seq![TIME_BLOCK_HOUR_IDENTIFIER_PREFIX_BYTE, t.hour]
    } else {
        Seq::<u8>::empty()
    }) + (if t.minute > 0 {
        seq![TIME_BLOCK_MINUTE_IDENTIFIER_PREFIX_BYTE, t.minute]
    } else {
        Seq::<u8>::empty()
    }) + seq![TIME_BLOCK_TERMINAL_BYTE]
}

/// The markers that stand for a schedule mode.
pub open spec fn mode_markers(mode: ScheduleMode) -> Seq<u8> {
    match mode {
        ScheduleMode::Off => Seq::<u8>::empty(),
        ScheduleMode::SunsetToSunrise => SCHEDULE_ENABLED_BYTES@,
        ScheduleMode::SetHours => SCHEDULE_ENABLED_BYTES@ + SCHEDULE_MODE_SET_HOURS_ENABLED_BYTES@,
    }
}

/// The inner body of a settings record, from the inner header up to the footer.
pub open spec fn settings_body(s: NightlightSettings) -> Seq<u8> {
    STRUCT_HEADER_BYTES@ + mode_markers(s.schedule_mode) + time_block_encoding(
        TimeBlockType::ScheduleStart,
        s.start_time,
    ) + time_block_encoding(TimeBlockType::ScheduleEnd, s.end_time)
        + COLOR_TEMPERATURE_PREFIX_BYTES@ + kelvin_encoding(s.color_temperature)
        + time_block_encoding(TimeBlockType::Sunset, s.sunset_time) + time_block_encoding(
        TimeBlockType::Sunrise,
        s.sunrise_time,
    )
}

/// The bytes of a settings record.
pub open spec fn settings_encoding(s: NightlightSettings) -> Seq<u8> {
    framed(s.timestamp, settings_body(s))
}

/// Reads the hour and minute of a time block and its terminal byte, after
/// its prefix. A missing tag stands for zero; a tag with no byte after it, or
/// a missing terminal byte at the end of the input, is a read past the end.
pub open spec fn time_value(input: Seq<u8>) -> Result<(TimeOfDay, Seq<u8>), DeserializationError> {
    let has_hour = input.len() > 0 && input[0] == TIME_BLOCK_HOUR_IDENTIFIER_PREFIX_BYTE;
    if has_hour && input.len() < 2 {
        Err(DeserializationError::SliceArrayConversion)
    } else {
        let hour: u8 = if has_hour {
            input[1]
        } else {
            0
        };
        let r1 = if has_hour {
            input.skip(2)
        } else {
            input
        };
        let has_minute = r1.len() > 0 && r1[0] == TIME_BLOCK_MINUTE_IDENTIFIER_PREFIX_BYTE;
        if hour >= 24 {
            Err(DeserializationError::InvalidBlock(Block::TimeBlockHourValue))
        } else if has_minute && r1.len() < 2 {
            Err(DeserializationError::SliceArrayConversion)
        } else {
            let minute: u8 = if has_minute {
                r1[1]
            } else {
                0
            };
            let r2 = if has_minute {
                r1.skip(2)
            } else {
                r1
            };
            if minute >= 60 {
                Err(DeserializationError::InvalidBlock(Block::TimeBlockMinuteValue))
            } else if r2.len() == 0 {
                Err(DeserializationError::SliceArrayConversion)
            } else if r2[0] != TIME_BLOCK_TERMINAL_BYTE {
                Err(DeserializationError::InvalidBlock(Block::TimeBlockTerminal))
            } else {
                Ok((TimeOfDay { hour, minute }, r2.skip(1)))
            }
        }
    }
}

/// Reads a time block of kind `kind`.
#[verifier::opaque]
pub open spec fn time_block(input: Seq<u8>, kind: TimeBlockType) -> Result<
    (TimeOfDay, Seq<u8>),
    DeserializationError,
> {
    match expect(input, kind.prefix(), DeserializationError::InvalidBlock(kind.block())) {
        Err(e) => Err(e),
        Ok(r) => time_value(r),
    }
}

/// Reads the color temperature block.
#[verifier::opaque]
pub open spec fn color_block(input: Seq<u8>) -> Result<(u16, Seq<u8>), DeserializationError> {
    match expect(
        input,
        COLOR_TEMPERATURE_PREFIX_BYTES@,
        DeserializationError::InvalidBlock(Block::ColorTemperature),
    ) {
        Err(e) => Err(e),
        Ok(r) => if r.len() < COLOR_TEMPERATURE_SIZE {
            Err(DeserializationError::SliceArrayConversion)
        } else {
            Ok((kelvin_value(r[0], r[1]), r.skip(COLOR_TEMPERATURE_SIZE as int)))
        },
    }
}

/// Reads the optional schedule markers. The set-hours marker is looked for
/// whether or not the schedule marker stood before it.
#[verifier::opaque]
pub open spec fn schedule_markers(input: Seq<u8>) -> (ScheduleMode, Seq<u8>) {
    let enabled = starts_with(input, SCHEDULE_ENABLED_BYTES@);
    let r1 = if enabled {
        input.skip(SCHEDULE_ENABLED_BYTES@.len() as int)
    } else {
        input
    };
    let set_hours = starts_with(r1, SCHEDULE_MODE_SET_HOURS_ENABLED_BYTES@);
    let r2 = if set_hours {
        r1.skip(SCHEDULE_MODE_SET_HOURS_ENABLED_BYTES@.len() as int)
    } else {
        r1
    };
    let mode = if !enabled {
        ScheduleMode::Off
    } else if set_hours {
        ScheduleMode::SetHours
    } else {
        ScheduleMode::SunsetToSunrise
    };
    (mode, r2)
}

/// Reads a settings record's inner body and footer, given the timestamp read
/// before them; nothing may follow the footer.
pub open spec fn settings_body_and_footer(ts: u64, input: Seq<u8>) -> Result<
    NightlightSettings,
    DeserializationError,
> {
    match expect(input, STRUCT_HEADER_BYTES@, DeserializationError::StructStart) {
        Err(e) => Err(e),
        Ok(r1) => {
            let (mode, r2) = schedule_markers(r1);
            match time_block(r2, TimeBlockType::ScheduleStart) {
                Err(e) => Err(e),
                Ok((start, r3)) => match time_block(r3, TimeBlockType::ScheduleEnd) {
                    Err(e) => Err(e),
                    Ok((end, r4)) => match color_block(r4) {
                        Err(e) => Err(e),
                        Ok((ct, r5)) => match time_block(r5, TimeBlockType::Sunset) {
                            Err(e) => Err(e),
                            Ok((sunset, r6)) => match time_block(r6, TimeBlockType::Sunrise) {
                                Err(e) => Err(e),
                                Ok((sunrise, r7)) => match expect(
                                    r7,
                                    STRUCT_FOOTER_BYTES@,
                                    DeserializationError::StructEnd,
                                ) {
                                    Err(e) => Err(e),
                                    Ok(r8) => if r8.len() != 0 {
                                        Err(DeserializationError::StructEnd)
                                    } else {
                                        Ok(
                                            NightlightSettings {
                                                timestamp: ts,
                                                schedule_mode: mode,
                                                color_temperature: ct,
                                                start_time: start,
                                                end_time: end,
                                                sunset_time: sunset,
                                                sunrise_time: sunrise,
                                            },
                                        )
                                    },
                                },
                            },
                        },
                    },
                },
            }
        },
    }
}

/// Decodes a settings record.
pub open spec fn decode_settings(data: Seq<u8>) -> Result<NightlightSettings, DeserializationError> {
    match frame(data) {
        Err(e) => Err(e),
        Ok((ts, rest)) => settings_body_and_footer(ts, rest),
    }
}

/// Every time of day that the record holds is valid.
pub open spec fn times_are_valid(s: NightlightSettings) -> bool {
    &&& s.start_time.is_valid()
    &&& s.end_time.is_valid()
    &&& s.sunset_time.is_valid()
    &&& s.sunrise_time.is_valid()
}

/// A settings record that encodes into bytes that decode back to it: its
/// timestamp fits in 32 bits, its color temperature in 14 bits, and its
/// times of day are valid.
pub open spec fn settings_is_encodable(s: NightlightSettings) -> bool {
    &&& s.timestamp <= u32::MAX
    &&& s.color_temperature < 0x4000
    &&& times_are_valid(s)
}

/// A time block read by an executable reader, as spec functions speak of it.
pub open spec fn time_read(data: Seq<u8>, r: Result<(u8, u8, usize), DeserializationError>) -> Result<
    (TimeOfDay, Seq<u8>),
    DeserializationError,
> {
    match r {
        Ok((h, m, p)) => Ok((TimeOfDay { hour: h, minute: m }, data.skip(p as int))),
        Err(e) => Err(e),
    }
}

// ---------------------------------------------------------------------------
// Reading and writing
impl NightlightSettings {
    /// Reads the hour and minute of the time block at `pos`, after its prefix.
    fn time_hours_minutes_from_bytes(data: &[u8], pos: usize) -> (r: Result<
        (u8, u8, usize),
        DeserializationError,
    >)
        requires
            pos <= data@.len(),
        ensures
            time_read(data@, r) == time_value(data@.skip(pos as int)),
            r is Ok ==> pos <= r->Ok_0.2 <= data@.len(),
            r is Ok ==> r->Ok_0.0 < 24 && r->Ok_0.1 < 60,
    {
        let ghost input = data@.skip(pos as int);
        let n: usize = data.len();
        let mut pos: usize = pos;
        let has_hour = pos < n && data[pos] == TIME_BLOCK_HOUR_IDENTIFIER_PREFIX_BYTE;
        if has_hour && n - pos < 2 {
            return Err(DeserializationError::SliceArrayConversion);
        }
        let mut hour: u8 = 0;
        if has_hour {
            hour = data[pos + 1];
            assert(input.skip(2) =~= data@.skip(pos + 2));
            pos = pos + 2;
        }
        let ghost r1 = data@.skip(pos as int);
        if hour >= 24 {
            return Err(DeserializationError::InvalidBlock(Block::TimeBlockHourValue));
        }
        let has_minute = pos < n && data[pos] == TIME_BLOCK_MINUTE_IDENTIFIER_PREFIX_BYTE;
        if has_minute && n - pos < 2 {
            return Err(DeserializationError::SliceArrayConversion);
        }
        let mut minute: u8 = 0;
        if has_minute {
            minute = data[pos + 1];
            assert(r1.skip(2) =~= data@.skip(pos + 2));
            pos = pos + 2;
        }
        if minute >= 60 {
            return Err(DeserializationError::InvalidBlock(Block::TimeBlockMinuteValue));
        }
        if pos >= n {
            return Err(DeserializationError::SliceArrayConversion);
        }
        if data[pos] != TIME_BLOCK_TERMINAL_BYTE {
            return Err(DeserializationError::InvalidBlock(Block::TimeBlockTerminal));
        }
        assert(data@.skip(pos as int).skip(1) =~= data@.skip(pos + 1));
        Ok((hour, minute, pos + 1))
    }

    /// Writes the time block of kind `time_type` holding `time`.
    pub fn naive_time_to_bytes(time: TimeOfDay, time_type: TimeBlockType) -> (r: Vec<u8>)
        ensures
            r@ == time_block_encoding(time_type, time),
    {
        reveal(time_block_encoding);
        let mut bytes: Vec<u8> = Vec::new();
        let prefix = time_type.get_prefix_identifier();
        push_all(&mut bytes, &prefix);
        if time.hour > 0 {
            bytes.push(TIME_BLOCK_HOUR_IDENTIFIER_PREFIX_BYTE);
            bytes.push(time.hour);
        }
        if time.minute > 0 {
            bytes.push(TIME_BLOCK_MINUTE_IDENTIFIER_PREFIX_BYTE);
            bytes.push(time.minute);
        }
        bytes.push(TIME_BLOCK_TERMINAL_BYTE);
        assert(bytes@ =~= time_block_encoding(time_type, time));
        bytes
    }

    /// Tells whether the schedule marker stands at `pos`, and the position after it.
    fn parse_is_schedule_enabled_block(data: &[u8], pos: usize) -> (r: (bool, usize))
        requires
            pos <= data@.len(),
        ensures
            r.0 == starts_with(data@.skip(pos as int), SCHEDULE_ENABLED_BYTES@),
            r.1 == (if r.0 {
                pos + SCHEDULE_ENABLED_BYTES@.len()
            } else {
                pos as int
            }),
    {
        let n: usize = data.len();
        if has_bytes_at(data, pos, &SCHEDULE_ENABLED_BYTES) {
            assert(pos + 2 <= n);
            (true, pos + SCHEDULE_ENABLED_BYTES.len())
        } else {
            (false, pos)
        }
    }

    /// Tells whether the set-hours marker stands at `pos`, and the position after it.
    fn parse_is_schedule_mode_set_hours_enabled_block(data: &[u8], pos: usize) -> (r: (
        bool,
        usize,
    ))
        requires
            pos <= data@.len(),
        ensures
            r.0 == starts_with(data@.skip(pos as int), SCHEDULE_MODE_SET_HOURS_ENABLED_BYTES@),
            r.1 == (if r.0 {
                pos + SCHEDULE_MODE_SET_HOURS_ENABLED_BYTES@.len()
            } else {
                pos as int
            }),
    {
        let n: usize = data.len();
        if has_bytes_at(data, pos, &SCHEDULE_MODE_SET_HOURS_ENABLED_BYTES) {
            assert(pos + 3 <= n);
            (true, pos + SCHEDULE_MODE_SET_HOURS_ENABLED_BYTES.len())
        } else {
            (false, pos)
        }
    }

    /// Reads the time block of kind `time_type` at `pos`.
    pub fn parse_time_type_block(data: &[u8], pos: usize, time_type: TimeBlockType) -> (r: Result<
        (u8, u8, usize),
        DeserializationError,
    >)
        requires
            pos <= data@.len(),
        ensures
            time_read(data@, r) == time_block(data@.skip(pos as int), time_type),
            r is Ok ==> pos <= r->Ok_0.2 <= data@.len(),
            r is Ok ==> r->Ok_0.0 < 24 && r->Ok_0.1 < 60,
    {
        reveal(time_block);
        let prefix_bytes = time_type.get_prefix_identifier();
        let pos = expect_bytes(data, pos, &prefix_bytes, time_type.prefix_error())?;
        Self::time_hours_minutes_from_bytes(data, pos)
    }

    /// Reads the color temperature block at `pos`.
    fn parse_color_temperature_block(data: &[u8], pos: usize) -> (r: Result<
        (u16, usize),
        DeserializationError,
    >)
        requires
            pos <= data@.len(),
        ensures
            crate::parser::read_from(data@, r) == color_block(data@.skip(pos as int)),
            r is Ok ==> pos <= r->Ok_0.1 <= data@.len(),
    {
        reveal(color_block);
        let pos = expect_bytes(
            data,
            pos,
            &COLOR_TEMPERATURE_PREFIX_BYTES,
            DeserializationError::InvalidBlock(Block::ColorTemperature),
        )?;
        if COLOR_TEMPERATURE_SIZE > data.len() - pos {
            return Err(DeserializationError::SliceArrayConversion);
        }
        let color_temperature_slice: [u8; COLOR_TEMPERATURE_SIZE] = [data[pos], data[pos + 1]];
        let color_temperature = kelvin_from_bytes(color_temperature_slice);
        assert(data@.skip(pos as int).skip(2) =~= data@.skip(pos + 2));
        Ok((color_temperature, pos + COLOR_TEMPERATURE_SIZE))
    }

    /// Deserializes a settings record from its bytes.
    pub fn deserialize_from_bytes(data: &[u8]) -> (r: Result<NightlightSettings, DeserializationError>)
        ensures
            r == decode_settings(data@),
            r is Ok ==> times_are_valid(r->Ok_0),
    {
        let (timestamp, pos) = parse_frame(data)?;
        Self::parse_body_and_footer(data, pos, timestamp)
    }

    /// Reads the inner body and the footer from `pos` on, as
    /// `settings_body_and_footer` says.
    fn parse_body_and_footer(data: &[u8], pos: usize, timestamp: u64) -> (r: Result<
        NightlightSettings,
        DeserializationError,
    >)
        requires
            pos <= data@.len(),
        ensures
            r == settings_body_and_footer(timestamp, data@.skip(pos as int)),
            r is Ok ==> times_are_valid(r->Ok_0),
    {
        let pos = parse_struct_header_block(data, pos)?;
        let ghost r1 = data@.skip(pos as int);
        let (is_schedule_enabled, pos) = Self::parse_is_schedule_enabled_block(data, pos);
        let ghost r1b = data@.skip(pos as int);
        assert(is_schedule_enabled ==> r1.skip(2) =~= r1b);
        let (is_schedule_mode_set_hours_enabled, pos) =
            Self::parse_is_schedule_mode_set_hours_enabled_block(data, pos);
        assert(is_schedule_mode_set_hours_enabled ==> r1b.skip(3) =~= data@.skip(pos as int));
        proof {
            reveal(schedule_markers);
        }
        let (start_hour, start_minute, pos) = Self::parse_time_type_block(
            data,
            pos,
            TimeBlockType::ScheduleStart,
        )?;
        let (end_hour, end_minute, pos) = Self::parse_time_type_block(
            data,
            pos,
            TimeBlockType::ScheduleEnd,
        )?;
        let (color_temperature, pos) = Self::parse_color_temperature_block(data, pos)?;
        let (sunset_hour, sunset_minute, pos) = Self::parse_time_type_block(
            data,
            pos,
            TimeBlockType::Sunset,
        )?;
        let (sunrise_hour, sunrise_minute, pos) = Self::parse_time_type_block(
            data,
            pos,
            TimeBlockType::Sunrise,
        )?;
        let pos = parse_struct_footer_block(data, pos)?;
        if pos != data.len() {
            return Err(DeserializationError::StructEnd);
        }
        let schedule_mode = if is_schedule_enabled {
            if is_schedule_mode_set_hours_enabled {
                ScheduleMode::SetHours
            } else {
                ScheduleMode::SunsetToSunrise
            }
        } else {
            ScheduleMode::Off
        };
        let start_time = time_to_naive_time(start_hour, start_minute)?;
        let end_time = time_to_naive_time(end_hour, end_minute)?;
        let sunset_time = time_to_naive_time(sunset_hour, sunset_minute)?;
        let sunrise_time = time_to_naive_time(sunrise_hour, sunrise_minute)?;
        Ok(
            NightlightSettings {
                timestamp,
                schedule_mode,
                color_temperature,
                start_time,
                end_time,
                sunset_time,
                sunrise_time,
            },
        )
    }

    /// Serializes a settings record into its bytes.
    pub fn serialize_to_bytes(&self) -> (r: Vec<u8>)
        ensures
            r@ == settings_encoding(*self),
    {
        let mut remaining_struct_bytes: Vec<u8> = Vec::new();
        push_all(&mut remaining_struct_bytes, &STRUCT_HEADER_BYTES);
        match self.schedule_mode {
            ScheduleMode::Off => {},
            ScheduleMode::SunsetToSunrise => {
                push_all(&mut remaining_struct_bytes, &SCHEDULE_ENABLED_BYTES);
            },
            ScheduleMode::SetHours => {
                push_all(&mut remaining_struct_bytes, &SCHEDULE_ENABLED_BYTES);
                push_all(&mut remaining_struct_bytes, &SCHEDULE_MODE_SET_HOURS_ENABLED_BYTES);
            },
        }
        let start_time_bytes = Self::naive_time_to_bytes(
            self.start_time,
            TimeBlockType::ScheduleStart,
        );
        let end_time_bytes = Self::naive_time_to_bytes(self.end_time, TimeBlockType::ScheduleEnd);
        let color_temperature_bytes = kelvin_to_bytes(self.color_temperature);
        let sunset_time_bytes = Self::naive_time_to_bytes(self.sunset_time, TimeBlockType::Sunset);
        let sunrise_time_bytes = Self::naive_time_to_bytes(
            self.sunrise_time,
            TimeBlockType::Sunrise,
        );
        push_all(&mut remaining_struct_bytes, start_time_bytes.as_slice());
        push_all(&mut remaining_struct_bytes, end_time_bytes.as_slice());
        push_all(&mut remaining_struct_bytes, &COLOR_TEMPERATURE_PREFIX_BYTES);
        push_all(&mut remaining_struct_bytes, &color_temperature_bytes);
        push_all(&mut remaining_struct_bytes, sunset_time_bytes.as_slice());
        push_all(&mut remaining_struct_bytes, sunrise_time_bytes.as_slice());
        assert(remaining_struct_bytes@ =~= settings_body(*self));
        frame_record(self.timestamp, &remaining_struct_bytes)
    }
}

// ---------------------------------------------------------------------------
// Laws of the codec
/// A time block is canonical: its hour tag stands right after the prefix
/// exactly when the hour is not zero, and its minute tag right after the
/// hour exactly when the minute is not zero. Every valid time of day,
/// 00:00 and 23:59 among them, reads back from its block unchanged.
pub proof fn lemma_time_block_round_trip(kind: TimeBlockType, t: TimeOfDay, rest: Seq<u8>)
    requires
        t.is_valid(),
    ensures
        time_block(time_block_encoding(kind, t) + rest, kind) == Ok::<
            (TimeOfDay, Seq<u8>),
            DeserializationError,
        >((t, rest)),
        time_block_encoding(kind, t)[0] == 0xCAu8,
        (time_block_encoding(kind, t)[2] == TIME_BLOCK_HOUR_IDENTIFIER_PREFIX_BYTE) == (t.hour
            > 0),
        (time_block_encoding(kind, t)[if t.hour > 0 {
            4int
        } else {
            2int
        }] == TIME_BLOCK_MINUTE_IDENTIFIER_PREFIX_BYTE) == (t.minute > 0),
        time_block_encoding(kind, t).len() == 3 + (if t.hour > 0 {
            2int
        } else {
            0int
        }) + (if t.minute > 0 {
            2int
        } else {
            0int
        }),
{
    reveal(time_block);
    reveal(time_block_encoding);
    lemma_settings_constants();
    let h = if t.hour > 0 {
        seq![TIME_BLOCK_HOUR_IDENTIFIER_PREFIX_BYTE, t.hour]
    } else {
        Seq::<u8>::empty()
    };
    let m = if t.minute > 0 {
        seq![TIME_BLOCK_MINUTE_IDENTIFIER_PREFIX_BYTE, t.minute]
    } else {
        Seq::<u8>::empty()
    };
    let r2 = seq![TIME_BLOCK_TERMINAL_BYTE] + rest;
    let r1 = m + r2;
    let input = h + r1;
    assert(kind.prefix().len() == 2);
    assert(time_block_encoding(kind, t) + rest =~= kind.prefix() + input);
    lemma_expect_prefix(kind.prefix(), input, DeserializationError::InvalidBlock(kind.block()));
    if t.hour > 0 {
        assert(input.skip(2) =~= r1);
    } else {
        assert(input =~= r1);
    }
    if t.minute > 0 {
        assert(r1.skip(2) =~= r2);
    } else {
        assert(r1 =~= r2);
    }
    assert(r2.skip(1) =~= rest);
}

/// The schedule markers of every mode read back as that mode, when what
/// follows them opens with a time block prefix.
pub proof fn lemma_schedule_markers_round_trip(mode: ScheduleMode, rest: Seq<u8>)
    requires
        rest.len() > 0,
        rest[0] == 0xCAu8,
    ensures
        schedule_markers(mode_markers(mode) + rest) == (mode, rest),
{
    reveal(schedule_markers);
    lemma_settings_constants();
    let sched = SCHEDULE_ENABLED_BYTES@;
    let set_hours = SCHEDULE_MODE_SET_HOURS_ENABLED_BYTES@;
    if rest.len() >= 2 {
        assert(rest.take(2)[0] != sched[0]);
    }
    if rest.len() >= 3 {
        assert(rest.take(3)[0] != set_hours[0]);
    }
    match mode {
        ScheduleMode::Off => {
            assert(mode_markers(mode) + rest =~= rest);
        },
        ScheduleMode::SunsetToSunrise => {
            lemma_expect_prefix(sched, rest, DeserializationError::StructEnd);
        },
        ScheduleMode::SetHours => {
            assert(mode_markers(mode) + rest =~= sched + (set_hours + rest));
            lemma_expect_prefix(sched, set_hours + rest, DeserializationError::StructEnd);
            lemma_expect_prefix(set_hours, rest, DeserializationError::StructEnd);
        },
    }
}

/// A color temperature below 2^14 reads back from its block unchanged.
pub proof fn lemma_color_block_round_trip(color_temperature: u16, rest: Seq<u8>)
    requires
        color_temperature < 0x4000,
    ensures
        color_block(COLOR_TEMPERATURE_PREFIX_BYTES@ + (kelvin_encoding(color_temperature) + rest))
            == Ok::<(u16, Seq<u8>), DeserializationError>((color_temperature, rest)),
{
    reveal(color_block);
    let enc = kelvin_encoding(color_temperature);
    lemma_expect_prefix(
        COLOR_TEMPERATURE_PREFIX_BYTES@,
        enc + rest,
        DeserializationError::InvalidBlock(Block::ColorTemperature),
    );
    lemma_kelvin_round_trip(color_temperature);
    assert((enc + rest).skip(2) =~= rest);
}

/// The body reader's steps, each given by what it reads and leaves.
proof fn lemma_body_steps(
    s: NightlightSettings,
    r1: Seq<u8>,
    r2: Seq<u8>,
    r3: Seq<u8>,
    r4: Seq<u8>,
    r5: Seq<u8>,
    r6: Seq<u8>,
)
    requires
        schedule_markers(r1) == (s.schedule_mode, r2),
        time_block(r2, TimeBlockType::ScheduleStart) == Ok::<
            (TimeOfDay, Seq<u8>),
            DeserializationError,
        >((s.start_time, r3)),
        time_block(r3, TimeBlockType::ScheduleEnd) == Ok::<
            (TimeOfDay, Seq<u8>),
            DeserializationError,
        >((s.end_time, r4)),
        color_block(r4) == Ok::<(u16, Seq<u8>), DeserializationError>((s.color_temperature, r5)),
        time_block(r5, TimeBlockType::Sunset) == Ok::<
            (TimeOfDay, Seq<u8>),
            DeserializationError,
        >((s.sunset_time, r6)),
        time_block(r6, TimeBlockType::Sunrise) == Ok::<
            (TimeOfDay, Seq<u8>),
            DeserializationError,
        >((s.sunrise_time, STRUCT_FOOTER_BYTES@)),
    ensures
        settings_body_and_footer(s.timestamp, STRUCT_HEADER_BYTES@ + r1) == Ok::<
            NightlightSettings,
            DeserializationError,
        >(s),
{
    lemma_expect_prefix(STRUCT_HEADER_BYTES@, r1, DeserializationError::StructStart);
    lemma_expect_prefix(STRUCT_FOOTER_BYTES@, Seq::<u8>::empty(), DeserializationError::StructEnd);
    assert(STRUCT_FOOTER_BYTES@ + Seq::<u8>::empty() =~= STRUCT_FOOTER_BYTES@);
}

/// Regroups the pieces of a settings body, and the footer after it, to the right.
proof fn lemma_regroup(
    a: Seq<u8>,
    b: Seq<u8>,
    c: Seq<u8>,
    d: Seq<u8>,
    e: Seq<u8>,
    f: Seq<u8>,
    g: Seq<u8>,
    h: Seq<u8>,
    k: Seq<u8>,
)
    ensures
        a + b + c + d + e + f + g + h + k == a + (b + (c + (d + (e + (f + (g + (h + k))))))),
{
    assert(a + b + c + d + e + f + g + h + k =~= a + (b + (c + (d + (e + (f + (g + (h + k))))))));
}

/// The framing step of the settings round trip.
proof fn lemma_settings_frame(s: NightlightSettings, r1: Seq<u8>)
    requires
        s.timestamp <= u32::MAX,
        settings_body(s).len() < 255,
        settings_body(s) + STRUCT_FOOTER_BYTES@ == STRUCT_HEADER_BYTES@ + r1,
        settings_body_and_footer(s.timestamp, STRUCT_HEADER_BYTES@ + r1) == Ok::<
            NightlightSettings,
            DeserializationError,
        >(s),
    ensures
        decode_settings(settings_encoding(s)) == Ok::<NightlightSettings, DeserializationError>(s),
{
    lemma_frame_round_trip(s.timestamp, settings_body(s));
}

/// Every encodable settings record decodes from its own encoding unchanged.
pub proof fn lemma_settings_round_trip(s: NightlightSettings)
    requires
        settings_is_encodable(s),
    ensures
        decode_settings(settings_encoding(s)) == Ok::<NightlightSettings, DeserializationError>(s),
{
    lemma_settings_constants();
    let t1 = time_block_encoding(TimeBlockType::ScheduleStart, s.start_time);
    let t2 = time_block_encoding(TimeBlockType::ScheduleEnd, s.end_time);
    let t3 = time_block_encoding(TimeBlockType::Sunset, s.sunset_time);
    let t4 = time_block_encoding(TimeBlockType::Sunrise, s.sunrise_time);
    let kel = kelvin_encoding(s.color_temperature);
    let r7 = STRUCT_FOOTER_BYTES@;
    let r6 = t4 + r7;
    let r5 = t3 + r6;
    let r4 = COLOR_TEMPERATURE_PREFIX_BYTES@ + (kel + r5);
    let r3 = t2 + r4;
    let r2 = t1 + r3;
    let r1 = mode_markers(s.schedule_mode) + r2;
    lemma_time_block_round_trip(TimeBlockType::ScheduleStart, s.start_time, r3);
    lemma_time_block_round_trip(TimeBlockType::ScheduleEnd, s.end_time, r4);
    lemma_time_block_round_trip(TimeBlockType::Sunset, s.sunset_time, r6);
    lemma_time_block_round_trip(TimeBlockType::Sunrise, s.sunrise_time, r7);
    lemma_color_block_round_trip(s.color_temperature, r5);
    assert(r2[0] == t1[0]);
    lemma_schedule_markers_round_trip(s.schedule_mode, r2);
    lemma_body_steps(s, r1, r2, r3, r4, r5, r6);
    lemma_regroup(
        STRUCT_HEADER_BYTES@,
        mode_markers(s.schedule_mode),
        t1,
        t2,
        COLOR_TEMPERATURE_PREFIX_BYTES@,
        kel,
        t3,
        t4,
        r7,
    );
    assert(settings_body(s).len() < 255);
    lemma_settings_frame(s, r1);
}

// ---------------------------------------------------------------------------
// Mutators
/// The record after setting the schedule mode at time `now`: unchanged if
/// the mode is already `mode`.
pub open spec fn with_mode(s: NightlightSettings, mode: ScheduleMode, now: u64) -> NightlightSettings {
    if s.schedule_mode == mode {
        s
    } else {
        NightlightSettings { schedule_mode: mode, timestamp: now, ..s }
    }
}

/// The record after setting the color temperature at time `now`: unchanged
/// if it already is `color_temperature`; else an error, and no change, when
/// it lies outside 1200 to 6500 Kelvin.
pub open spec fn with_color_temperature(
    s: NightlightSettings,
    color_temperature: u16,
    now: u64,
) -> Result<NightlightSettings, NightlightError> {
    if s.color_temperature == color_temperature {
        Ok(s)
    } else if !(MIN_COLOR_TEMPERATURE <= color_temperature <= MAX_COLOR_TEMPERATURE) {
        Err(NightlightError::InvalidColorTemperature(color_temperature))
    } else {
        Ok(NightlightSettings { color_temperature, timestamp: now, ..s })
    }
}

/// The record after setting the schedule start at time `now`.
pub open spec fn with_start_time(s: NightlightSettings, t: TimeOfDay, now: u64) -> NightlightSettings {
    if s.start_time == t {
        s
    } else {
        NightlightSettings { start_time: t, timestamp: now, ..s }
    }
}

/// The record after setting the schedule end at time `now`.
pub open spec fn with_end_time(s: NightlightSettings, t: TimeOfDay, now: u64) -> NightlightSettings {
    if s.end_time == t {
        s
    } else {
        NightlightSettings { end_time: t, timestamp: now, ..s }
    }
}

/// The record after setting the sunset time at time `now`.
pub open spec fn with_sunset_time(s: NightlightSettings, t: TimeOfDay, now: u64) -> NightlightSettings {
    if s.sunset_time == t {
        s
    } else {
        NightlightSettings { sunset_time: t, timestamp: now, ..s }
    }
}

/// The record after setting the sunrise time at time `now`.
pub open spec fn with_sunrise_time(s: NightlightSettings, t: TimeOfDay, now: u64) -> NightlightSettings {
    if s.sunrise_time == t {
        s
    } else {
        NightlightSettings { sunrise_time: t, timestamp: now, ..s }
    }
}

/// A setter's outcome: the record it leaves, and whether it failed.
pub open spec fn color_temperature_outcome(
    old_settings: NightlightSettings,
    new_settings: NightlightSettings,
    r: Result<(), NightlightError>,
    color_temperature: u16,
    now: u64,
) -> bool {
    match with_color_temperature(old_settings, color_temperature, now) {
        Ok(n) => r is Ok && new_settings == n,
        Err(e) => r == Err::<(), NightlightError>(e) && new_settings == old_settings,
    }
}

impl NightlightSettings {
    /// Sets the schedule mode, stamping a change with `now`.
    pub fn set_mode_at(&mut self, mode: ScheduleMode, now: u64)
        ensures
            *final(self) == with_mode(*old(self), mode, now),
    {
        if self.schedule_mode == mode {
            return;
        }
        self.schedule_mode = mode;
        self.timestamp = now;
    }

    /// Sets the color temperature, stamping a change with `now`. A value
    /// outside 1200 to 6500 Kelvin is refused and nothing changes.
    pub fn set_color_temperature_at(&mut self, color_temperature: u16, now: u64) -> (r: Result<
        (),
        NightlightError,
    >)
        ensures
            color_temperature_outcome(*old(self), *final(self), r, color_temperature, now),
    {
        if self.color_temperature == color_temperature {
            return Ok(());
        }
        if !(MIN_COLOR_TEMPERATURE <= color_temperature && color_temperature
            <= MAX_COLOR_TEMPERATURE) {
            return Err(NightlightError::InvalidColorTemperature(color_temperature));
        }
        self.color_temperature = color_temperature;
        self.timestamp = now;
        Ok(())
    }

    /// Sets the schedule start, stamping a change with `now`.
    pub fn set_start_time_at(&mut self, start_time: TimeOfDay, now: u64)
        requires
            start_time.is_valid(),
        ensures
            *final(self) == with_start_time(*old(self), start_time, now),
    {
        if self.start_time == start_time {
            return;
        }
        self.start_time = start_time;
        self.timestamp = now;
    }

    /// Sets the schedule end, stamping a change with `now`.
    pub fn set_end_time_at(&mut self, end_time: TimeOfDay, now: u64)
        requires
            end_time.is_valid(),
        ensures
            *final(self) == with_end_time(*old(self), end_time, now),
    {
        if self.end_time == end_time {
            return;
        }
        self.end_time = end_time;
        self.timestamp = now;
    }

    /// Sets the sunset time, stamping a change with `now`.
    pub fn set_sunset_time_at(&mut self, sunset_time: TimeOfDay, now: u64)
        requires
            sunset_time.is_valid(),
        ensures
            *final(self) == with_sunset_time(*old(self), sunset_time, now),
    {
        if self.sunset_time == sunset_time {
            return;
        }
        self.sunset_time = sunset_time;
        self.timestamp = now;
    }

    /// Sets the sunrise time, stamping a change with `now`.
    pub fn set_sunrise_time_at(&mut self, sunrise_time: TimeOfDay, now: u64)
        requires
            sunrise_time.is_valid(),
        ensures
            *final(self) == with_sunrise_time(*old(self), sunrise_time, now),
    {
        if self.sunrise_time == sunrise_time {
            return;
        }
        self.sunrise_time = sunrise_time;
        self.timestamp = now;
    }

    /// Sets the schedule mode for the night light; a change is stamped with
    /// the current time. Fails, changing nothing, only when a change is due
    /// and the system clock reads earlier than the Unix epoch.
    pub fn set_mode(&mut self, mode: ScheduleMode) -> (r: Result<(), NightlightError>)
        ensures
            r is Ok ==> *final(self) == with_mode(*old(self), mode, final(self).timestamp),
            r is Err ==> r == Err::<(), NightlightError>(NightlightError::InvalidTimeValue)
                && *final(self) == *old(self) && old(self).schedule_mode != mode,
    {
        if self.schedule_mode == mode {
            return Ok(());
        }
        let now = change_time()?;
        self.set_mode_at(mode, now);
        Ok(())
    }

    /// Sets the color temperature for the night light, in a range between
    /// 1200 and 6500 Kelvin; a change is stamped with the current time.
    /// Besides a value out of range, fails only when a change is due and the
    /// system clock reads earlier than the Unix epoch; nothing changes then.
    pub fn set_color_temperature(&mut self, color_temperature: u16) -> (r: Result<
        (),
        NightlightError,
    >)
        ensures
            r != Err::<(), NightlightError>(NightlightError::InvalidTimeValue)
                ==> color_temperature_outcome(
                *old(self),
                *final(self),
                r,
                color_temperature,
                final(self).timestamp,
            ),
            r == Err::<(), NightlightError>(NightlightError::InvalidTimeValue) ==> *final(self)
                == *old(self) && old(self).color_temperature != color_temperature
                && MIN_COLOR_TEMPERATURE <= color_temperature <= MAX_COLOR_TEMPERATURE,
    {
        if self.color_temperature == color_temperature {
            return Ok(());
        }
        if !(MIN_COLOR_TEMPERATURE <= color_temperature && color_temperature
            <= MAX_COLOR_TEMPERATURE) {
            return Err(NightlightError::InvalidColorTemperature(color_temperature));
        }
        let now = change_time()?;
        self.set_color_temperature_at(color_temperature, now)
    }

    /// Sets the start time of the set-hours schedule; a change is stamped with the current time. Fails,
    /// changing nothing, only when a change is due and the system clock
    /// reads earlier than the Unix epoch.
    pub fn set_start_time(&mut self, start_time: TimeOfDay) -> (r: Result<(), NightlightError>)
        requires
            start_time.is_valid(),
        ensures
            r is Ok ==> *final(self) == with_start_time(*old(self), start_time, final(self).timestamp),
            r is Err ==> r == Err::<(), NightlightError>(NightlightError::InvalidTimeValue)
                && *final(self) == *old(self) && old(self).start_time != start_time,
    {
        if self.start_time == start_time {
            return Ok(());
        }
        let now = change_time()?;
        self.set_start_time_at(start_time, now);
        Ok(())
    }

    /// Sets the end time of the set-hours schedule; a change is stamped with the current time. Fails,
    /// changing nothing, only when a change is due and the system clock
    /// reads earlier than the Unix epoch.
    pub fn set_end_time(&mut self, end_time: TimeOfDay) -> (r: Result<(), NightlightError>)
        requires
            end_time.is_valid(),
        ensures
            r is Ok ==> *final(self) == with_end_time(*old(self), end_time, final(self).timestamp),
            r is Err ==> r == Err::<(), NightlightError>(NightlightError::InvalidTimeValue)
                && *final(self) == *old(self) && old(self).end_time != end_time,
    {
        if self.end_time == end_time {
            return Ok(());
        }
        let now = change_time()?;
        self.set_end_time_at(end_time, now);
        Ok(())
    }

    /// Sets the sunset time of the sunset-to-sunrise schedule; a change is stamped with the current time. Fails,
    /// changing nothing, only when a change is due and the system clock
    /// reads earlier than the Unix epoch.
    pub fn set_sunset_time(&mut self, sunset_time: TimeOfDay) -> (r: Result<(), NightlightError>)
        requires
            sunset_time.is_valid(),
        ensures
            r is Ok ==> *final(self) == with_sunset_time(*old(self), sunset_time, final(self).timestamp),
            r is Err ==> r == Err::<(), NightlightError>(NightlightError::InvalidTimeValue)
                && *final(self) == *old(self) && old(self).sunset_time != sunset_time,
    {
        if self.sunset_time == sunset_time {
            return Ok(());
        }
        let now = change_time()?;
        self.set_sunset_time_at(sunset_time, now);
        Ok(())
    }

    /// Sets the sunrise time of the sunset-to-sunrise schedule; a change is stamped with the current time. Fails,
    /// changing nothing, only when a change is due and the system clock
    /// reads earlier than the Unix epoch.
    pub fn set_sunrise_time(&mut self, sunrise_time: TimeOfDay) -> (r: Result<(), NightlightError>)
        requires
            sunrise_time.is_valid(),
        ensures
            r is Ok ==> *final(self) == with_sunrise_time(*old(self), sunrise_time, final(self).timestamp),
            r is Err ==> r == Err::<(), NightlightError>(NightlightError::InvalidTimeValue)
                && *final(self) == *old(self) && old(self).sunrise_time != sunrise_time,
    {
        if self.sunrise_time == sunrise_time {
            return Ok(());
        }
        let now = change_time()?;
        self.set_sunrise_time_at(sunrise_time, now);
        Ok(())
    }
}

/// Repeating a setter call with the same value, at any later time, changes
/// nothing more: in particular the timestamp stays as the first call left it.
pub proof fn lemma_settings_setters_idempotent(
    s: NightlightSettings,
    mode: ScheduleMode,
    color_temperature: u16,
    t: TimeOfDay,
    t1: u64,
    t2: u64,
)
    ensures
        with_mode(with_mode(s, mode, t1), mode, t2) == with_mode(s, mode, t1),
        with_start_time(with_start_time(s, t, t1), t, t2) == with_start_time(s, t, t1),
        with_end_time(with_end_time(s, t, t1), t, t2) == with_end_time(s, t, t1),
        with_sunset_time(with_sunset_time(s, t, t1), t, t2) == with_sunset_time(s, t, t1),
        with_sunrise_time(with_sunrise_time(s, t, t1), t, t2) == with_sunrise_time(s, t, t1),
        match with_color_temperature(s, color_temperature, t1) {
            Ok(n) => with_color_temperature(n, color_temperature, t2) == Ok::<
                NightlightSettings,
                NightlightError,
            >(n),
            Err(e) => with_color_temperature(s, color_temperature, t2) == Err::<
                NightlightSettings,
                NightlightError,
            >(e),
        },
{
}

/// A settings buffer whose remaining-length byte disagrees with the size of
/// what follows it is refused as a corrupt record, and no record comes out.
pub proof fn lemma_settings_length_mismatch(data: Seq<u8>)
    requires
        length_byte_disagrees(data),
    ensures
        decode_settings(data) == Err::<NightlightSettings, DeserializationError>(
            DeserializationError::StructEnd,
        ),
{
    lemma_frame_length_mismatch(data);
}

} // verus!
