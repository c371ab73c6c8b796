use crate::consts::{
    lemma_frame_constants,
    STRUCT_FOOTER_BYTES, STRUCT_HEADER_BYTES, TIMESTAMP_HEADER_BYTES, TIMESTAMP_PREFIX_BYTES,
    TIMESTAMP_SIZE, TIMESTAMP_SUFFIX_BYTES,
};
use vstd::prelude::*;

verus! {

/// The fields whose own markers or values can be found malformed.
#[derive(Debug, Clone, Copy, PartialEq, Eq, Structural)]
pub enum Block {
    ScheduleStart,
    ScheduleEnd,
    Sunset,
    Sunrise,
    ColorTemperature,
    TimeBlockHourValue,
    TimeBlockMinuteValue,
    TimeBlockTerminal,
}

/// Why a byte buffer could not be decoded into a record.
#[derive(Debug, Clone, Copy, PartialEq, Eq, Structural)]
pub enum DeserializationError {
    /// The outer or inner header is missing or malformed.
    StructStart,
    /// The footer, the remaining-length byte or the buffer's end is wrong.
    StructEnd,
    /// A marker of the timestamp block is malformed.
    TimestampBlock,
    /// The buffer ends before a field that must be read.
    SliceArrayConversion,
    /// A field's prefix, tag or value is malformed.
    InvalidBlock(Block),
    /// An hour or minute is out of range.
    InvalidTimeValue,
}

/// A time of day to the minute, as the records store it.
#[derive(Debug, Clone, Copy, PartialEq, Eq, Structural)]
pub struct TimeOfDay {
    pub hour: u8,
    pub minute: u8,
}

impl TimeOfDay {
    /// An hour of the day and a minute of the hour.
    pub open spec fn is_valid(self) -> bool {
        self.hour < 24 && self.minute < 60
    }
}

/// Builds a time of day from an hour and a minute, failing when either is out of range.
pub fn time_to_naive_time(hours: u8, minutes: u8) -> (r: Result<TimeOfDay, DeserializationError>)
    ensures
        r == (if hours < 24 && minutes < 60 {
            Ok::<TimeOfDay, DeserializationError>(TimeOfDay { hour: hours, minute: minutes })
        } else {
            Err::<TimeOfDay, DeserializationError>(DeserializationError::InvalidTimeValue)
        }),
        r is Ok ==> r->Ok_0.is_valid(),
{
    if hours < 24 && minutes < 60 {
        Ok(TimeOfDay { hour: hours, minute: minutes })
    } else {
        Err(DeserializationError::InvalidTimeValue)
    }
}

// ---------------------------------------------------------------------------
// Timestamp codec
/// The five bytes that stand for `ts`: four groups of seven bits, low group
/// first, each with its top bit set, then bits 28 and up.
pub open spec fn timestamp_encoding(ts: u64) -> Seq<u8> {
    seq![
        ((ts & 0x7f) | 0x80) as u8,
        (((ts >> 7) & 0x7f) | 0x80) as u8,
        (((ts >> 14) & 0x7f) | 0x80) as u8,
        (((ts >> 21) & 0x7f) | 0x80) as u8,
        (ts >> 28) as u8,
    ]
}

/// The timestamp that five bytes stand for: the low seven bits of each of the
/// first four bytes in turn, then the last byte whole from bit 28.
pub open spec fn timestamp_value(b0: u8, b1: u8, b2: u8, b3: u8, b4: u8) -> u64 {
    ((b4 as u64) << 28u64) | (((b3 & 0x7f) as u64) << 21u64) | (((b2 & 0x7f) as u64) << 14u64)
        | (((b1 & 0x7f) as u64) << 7u64) | ((b0 & 0x7f) as u64)
}

/// `timestamp_value` of the five bytes of `b` from `pos` on.
pub open spec fn timestamp_value_at(b: Seq<u8>, pos: int) -> u64 {
    timestamp_value(b[pos], b[pos + 1], b[pos + 2], b[pos + 3], b[pos + 4])
}

/// Encodes a Unix timestamp into its five-byte form.
pub fn timestamp_to_bytes(timestamp: u64) -> (r: [u8; TIMESTAMP_SIZE])
    ensures
        r@ == timestamp_encoding(timestamp),
{
    let r: [u8; TIMESTAMP_SIZE] = [
        ((timestamp & 0x7f) | 0x80) as u8,
        (((timestamp >> 7) & 0x7f) | 0x80) as u8,
        (((timestamp >> 14) & 0x7f) | 0x80) as u8,
        (((timestamp >> 21) & 0x7f) | 0x80) as u8,
        (timestamp >> 28) as u8,
    ];
    assert(r@ =~= timestamp_encoding(timestamp));
    r
}

/// Decodes a Unix timestamp from its five-byte form.
pub fn timestamp_from_bytes(bytes: [u8; TIMESTAMP_SIZE]) -> (r: u64)
    ensures
        r == timestamp_value(bytes@[0], bytes@[1], bytes@[2], bytes@[3], bytes@[4]),
{
    let mut timestamp: u64 = 0;
    timestamp = timestamp | ((bytes[4] as u64) << 28u64);
    timestamp = timestamp | (((bytes[3] & 0x7f) as u64) << 21u64);
    timestamp = timestamp | (((bytes[2] & 0x7f) as u64) << 14u64);
    timestamp = timestamp | (((bytes[1] & 0x7f) as u64) << 7u64);
    timestamp = timestamp | ((bytes[0] & 0x7f) as u64);
    let (b0, b1, b2, b3, b4) = (bytes[0], bytes[1], bytes[2], bytes[3], bytes[4]);
    assert(timestamp == timestamp_value(b0, b1, b2, b3, b4)) by (bit_vector)
        requires
            timestamp == 0u64 | ((b4 as u64) << 28u64) | (((b3 & 0x7f) as u64) << 21u64) | (((
            b2 & 0x7f) as u64) << 14u64) | (((b1 & 0x7f) as u64) << 7u64) | ((b0 & 0x7f) as u64),
    ;
    timestamp
}

/// Every timestamp of 32 bits comes back from its encoding unchanged.
pub proof fn lemma_timestamp_round_trip(ts: u64)
    requires
        ts <= u32::MAX,
    ensures
        timestamp_encoding(ts).len() == TIMESTAMP_SIZE,
        timestamp_value_at(timestamp_encoding(ts), 0) == ts,
{
    let b = timestamp_encoding(ts);
    assert(timestamp_value(
        ((ts & 0x7f) | 0x80) as u8,
        (((ts >> 7) & 0x7f) | 0x80) as u8,
        (((ts >> 14) & 0x7f) | 0x80) as u8,
        (((ts >> 21) & 0x7f) | 0x80) as u8,
        (ts >> 28) as u8,
    ) == ts) by (bit_vector)
        requires
            ts <= 0xffff_ffffu64,
    ;
}


// ---------------------------------------------------------------------------
// Color temperature codec
/// The two bytes that stand for a color temperature: its low six bits
/// doubled and offset by 0x80, then the bits from bit 6 on.
pub open spec fn kelvin_encoding(color_temperature: u16) -> Seq<u8> {
    seq![((color_temperature & 0x3f) * 2 + 0x80) as u8, (color_temperature >> 6u16) as u8]
}

/// The color temperature that two bytes stand for. The offset is taken off
/// the first byte with wrapping, so that every pair of bytes decodes.
pub open spec fn kelvin_value(b0: u8, b1: u8) -> u16 {
    ((b1 as u16) << 6u16) | ((((b0 - 0x80) as u8) / 2) as u16)
}

/// Encodes a color temperature into its two-byte form.
pub fn kelvin_to_bytes(color_temperature: u16) -> (r: [u8; 2])
    ensures
        r@ == kelvin_encoding(color_temperature),
{
    assert((color_temperature & 0x3f) <= 0x3f) by (bit_vector);
    let r: [u8; 2] = [
        ((color_temperature & 0x3f) * 2 + 0x80) as u8,
        (color_temperature >> 6u16) as u8,
    ];
    assert(r@ =~= kelvin_encoding(color_temperature));
    r
}

/// Decodes a color temperature from its two-byte form.
pub fn kelvin_from_bytes(bytes: [u8; 2]) -> (r: u16)
    ensures
        r == kelvin_value(bytes@[0], bytes@[1]),
{
    let b0: u8 = bytes[0];
    let b1: u8 = bytes[1];
    let low: u8 = if b0 >= 0x80 {
        b0 - 0x80
    } else {
        b0 + 0x80
    };
    assert(low == ((b0 - 0x80) as u8)) by (bit_vector)
        requires
            low == (if b0 >= 0x80u8 {
                (b0 - 0x80u8) as u8
            } else {
                (b0 + 0x80u8) as u8
            }),
    ;
    let mut kelvin: u16 = 0;
    kelvin = kelvin | ((b1 as u16) << 6u16);
    kelvin = kelvin | ((low / 2) as u16);
    assert(kelvin == ((b1 as u16) << 6u16) | ((low / 2) as u16)) by (bit_vector)
        requires
            kelvin == (0u16 | ((b1 as u16) << 6u16)) | ((low / 2) as u16),
    ;
    kelvin
}

/// Every color temperature below 2^14 comes back from its encoding unchanged.
pub proof fn lemma_kelvin_round_trip(color_temperature: u16)
    requires
        color_temperature < 0x4000,
    ensures
        kelvin_encoding(color_temperature).len() == 2,
        kelvin_value(kelvin_encoding(color_temperature)[0], kelvin_encoding(color_temperature)[1])
            == color_temperature,
{
    assert(kelvin_value(
        ((color_temperature & 0x3f) * 2 + 0x80) as u8,
        (color_temperature >> 6u16) as u8,
    ) == color_temperature) by (bit_vector)
        requires
            color_temperature < 0x4000u16,
    ;
}

// ---------------------------------------------------------------------------
// Reading fixed byte sequences
//
// The spec parsers below take the input that is left to read and give what
// they read together with the input left after it.
/// Reads the fixed sequence `expected` at the start of `input`: the
/// `SliceArrayConversion` error where the input ends before it, `err` where
/// other bytes stand there.
pub open spec fn expect(input: Seq<u8>, expected: Seq<u8>, err: DeserializationError) -> Result<
    Seq<u8>,
    DeserializationError,
> {
    if input.len() < expected.len() {
        Err(DeserializationError::SliceArrayConversion)
    } else if input.take(expected.len() as int) != expected {
        Err(err)
    } else {
        Ok(input.skip(expected.len() as int))
    }
}

/// `expected` stands at the start of `input`.
pub open spec fn starts_with(input: Seq<u8>, expected: Seq<u8>) -> bool {
    expected.len() <= input.len() && input.take(expected.len() as int) == expected
}

/// What is left of `data` after a position that an executable reader gave.
pub open spec fn rest_after(data: Seq<u8>, r: Result<usize, DeserializationError>) -> Result<
    Seq<u8>,
    DeserializationError,
> {
    match r {
        Ok(p) => Ok(data.skip(p as int)),
        Err(e) => Err(e),
    }
}

/// A value that an executable reader gave, with what is left of `data` after it.
pub open spec fn read_from<T>(data: Seq<u8>, r: Result<(T, usize), DeserializationError>) -> Result<
    (T, Seq<u8>),
    DeserializationError,
> {
    match r {
        Ok((v, p)) => Ok((v, data.skip(p as int))),
        Err(e) => Err(e),
    }
}

/// A position that an executable reader gave lies between `pos` and the end.
pub open spec fn advances(data: Seq<u8>, pos: usize, r: Result<usize, DeserializationError>) -> bool {
    r is Ok ==> pos <= r->Ok_0 <= data.len()
}

/// As `advances`, for a reader that gives a value too.
pub open spec fn advances_past<T>(
    data: Seq<u8>,
    pos: usize,
    r: Result<(T, usize), DeserializationError>,
) -> bool {
    r is Ok ==> pos <= r->Ok_0.1 <= data.len()
}

/// Tells whether `expected` stands in `data` at `pos`.
pub fn has_bytes_at(data: &[u8], pos: usize, expected: &[u8]) -> (r: bool)
    requires
        pos <= data@.len(),
    ensures
        r == starts_with(data@.skip(pos as int), expected@),
{
    let n: usize = data.len();
    if expected.len() > n - pos {
        return false;
    }
    let mut i: usize = 0;
    while i < expected.len()
        invariant
            i <= expected@.len(),
            pos <= data@.len(),
            n == data@.len(),
            expected@.len() <= data@.len() - pos,
            forall|j: int| 0 <= j < i ==> data@[pos + j] == expected@[j],
        decreases expected@.len() - i,
    {
        if data[pos + i] != expected[i] {
            assert(data@.skip(pos as int).take(expected@.len() as int)[i as int]
                != expected@[i as int]);
            return false;
        }
        i += 1;
    }
    assert(data@.skip(pos as int).take(expected@.len() as int) =~= expected@);
    true
}

/// Reads the fixed sequence `expected` at `pos`, as `expect` says.
pub fn expect_bytes(data: &[u8], pos: usize, expected: &[u8], err: DeserializationError) -> (r:
    Result<usize, DeserializationError>)
    requires
        pos <= data@.len(),
    ensures
        rest_after(data@, r) == expect(data@.skip(pos as int), expected@, err),
        advances(data@, pos, r),
{
    if expected.len() > data.len() - pos {
        return Err(DeserializationError::SliceArrayConversion);
    }
    if !has_bytes_at(data, pos, expected) {
        return Err(err);
    }
    assert(data@.skip(pos as int).skip(expected@.len() as int) =~= data@.skip(
        pos + expected@.len(),
    ));
    Ok(pos + expected.len())
}

// ---------------------------------------------------------------------------
// Timestamp block and record framing
/// Reads the last-modified timestamp block: its header, its prefix, five
/// timestamp bytes and its suffix.
pub open spec fn timestamp_block(input: Seq<u8>) -> Result<(u64, Seq<u8>), DeserializationError> {
    match expect(input, TIMESTAMP_HEADER_BYTES@, DeserializationError::TimestampBlock) {
        Err(e) => Err(e),
        Ok(r1) => match expect(r1, TIMESTAMP_PREFIX_BYTES@, DeserializationError::TimestampBlock) {
            Err(e) => Err(e),
            Ok(r2) => if r2.len() < TIMESTAMP_SIZE {
                Err(DeserializationError::SliceArrayConversion)
            } else {
                match expect(
                    r2.skip(TIMESTAMP_SIZE as int),
                    TIMESTAMP_SUFFIX_BYTES@,
                    DeserializationError::TimestampBlock,
                ) {
                    Err(e) => Err(e),
                    Ok(r3) => Ok((timestamp_value_at(r2, 0), r3)),
                }
            },
        },
    }
}

/// Parses the last-modified timestamp block.
pub fn parse_last_modified_timestamp_block(data: &[u8], start_from: usize) -> (r: Result<
    (u64, usize),
    DeserializationError,
>)
    requires
        start_from <= data@.len(),
    ensures
        read_from(data@, r) == timestamp_block(data@.skip(start_from as int)),
        advances_past(data@, start_from, r),
{
    let pos = expect_bytes(
        data,
        start_from,
        &TIMESTAMP_HEADER_BYTES,
        DeserializationError::TimestampBlock,
    )?;
    let pos = expect_bytes(
        data,
        pos,
        &TIMESTAMP_PREFIX_BYTES,
        DeserializationError::TimestampBlock,
    )?;
    if TIMESTAMP_SIZE > data.len() - pos {
        return Err(DeserializationError::SliceArrayConversion);
    }
    let timestamp_slice: [u8; TIMESTAMP_SIZE] = [
        data[pos],
        data[pos + 1],
        data[pos + 2],
        data[pos + 3],
        data[pos + 4],
    ];
    let timestamp = timestamp_from_bytes(timestamp_slice);
    assert(data@.skip(pos as int).skip(TIMESTAMP_SIZE as int) =~= data@.skip(pos + TIMESTAMP_SIZE));
    let pos = expect_bytes(
        data,
        pos + TIMESTAMP_SIZE,
        &TIMESTAMP_SUFFIX_BYTES,
        DeserializationError::TimestampBlock,
    )?;
    Ok((timestamp, pos))
}

/// Reads the struct header at `pos`.
pub fn parse_struct_header_block(data: &[u8], pos: usize) -> (r: Result<
    usize,
    DeserializationError,
>)
    requires
        pos <= data@.len(),
    ensures
        rest_after(data@, r) == expect(
            data@.skip(pos as int),
            STRUCT_HEADER_BYTES@,
            DeserializationError::StructStart,
        ),
        advances(data@, pos, r),
{
    expect_bytes(data, pos, &STRUCT_HEADER_BYTES, DeserializationError::StructStart)
}

/// Reads the struct footer at `pos`.
pub fn parse_struct_footer_block(data: &[u8], pos: usize) -> (r: Result<
    usize,
    DeserializationError,
>)
    requires
        pos <= data@.len(),
    ensures
        rest_after(data@, r) == expect(
            data@.skip(pos as int),
            STRUCT_FOOTER_BYTES@,
            DeserializationError::StructEnd,
        ),
        advances(data@, pos, r),
{
    expect_bytes(data, pos, &STRUCT_FOOTER_BYTES, DeserializationError::StructEnd)
}

/// Reads the framing that both records share, up to their inner body: the
/// outer header, the timestamp block and the remaining-length byte. That
/// byte counts itself and every byte after it up to the footer, so the input
/// left after it must be that count, less one, plus the footer's width.
/// Gives the timestamp and the input from the inner header on.
pub open spec fn frame(input: Seq<u8>) -> Result<(u64, Seq<u8>), DeserializationError> {
    match expect(input, STRUCT_HEADER_BYTES@, DeserializationError::StructStart) {
        Err(e) => Err(e),
        Ok(r1) => match timestamp_block(r1) {
            Err(e) => Err(e),
            Ok((ts, r2)) => if r2.len() == 0 {
                Err(DeserializationError::SliceArrayConversion)
            } else if r2.len() != r2[0] + STRUCT_FOOTER_BYTES@.len() {
                Err(DeserializationError::StructEnd)
            } else {
                Ok((ts, r2.skip(1)))
            },
        },
    }
}

/// Reads the shared framing of a record, as `frame` says.
pub fn parse_frame(data: &[u8]) -> (r: Result<(u64, usize), DeserializationError>)
    ensures
        read_from(data@, r) == frame(data@),
        advances_past(data@, 0, r),
{
    assert(data@.skip(0) =~= data@);
    let pos = parse_struct_header_block(data, 0)?;
    let (timestamp, pos) = parse_last_modified_timestamp_block(data, pos)?;
    if pos >= data.len() {
        return Err(DeserializationError::SliceArrayConversion);
    }
    let remaining_struct_size: u8 = data[pos];
    if data.len() - pos != remaining_struct_size as usize + STRUCT_FOOTER_BYTES.len() {
        return Err(DeserializationError::StructEnd);
    }
    assert(data@.skip(pos as int).skip(1) =~= data@.skip(pos + 1));
    Ok((timestamp, pos + 1))
}

/// The remaining-length byte for an inner body of `body_len` bytes: it
/// counts itself too, and wraps past 255.
pub open spec fn length_byte(body_len: nat) -> u8 {
    ((body_len + 1) % 256) as u8
}

/// A record around the inner body `body`, last modified at `ts`.
pub open spec fn framed(ts: u64, body: Seq<u8>) -> Seq<u8> {
    STRUCT_HEADER_BYTES@ + TIMESTAMP_HEADER_BYTES@ + TIMESTAMP_PREFIX_BYTES@ + timestamp_encoding(ts)
        + TIMESTAMP_SUFFIX_BYTES@ + seq![length_byte(body.len())] + body + STRUCT_FOOTER_BYTES@
}

/// Appends `bytes` to `out`.
pub fn push_all(out: &mut Vec<u8>, bytes: &[u8])
    ensures
        final(out)@ == old(out)@ + bytes@,
{
    let mut i: usize = 0;
    while i < bytes.len()
        invariant
            i <= bytes@.len(),
            out@ == old(out)@ + bytes@.take(i as int),
        decreases bytes@.len() - i,
    {
        out.push(bytes[i]);
        i += 1;
        assert(out@ =~= old(out)@ + bytes@.take(i as int));
    }
    assert(bytes@.take(i as int) =~= bytes@);
}

/// Writes a record around the inner body `body`, last modified at `timestamp`.
pub fn frame_record(timestamp: u64, body: &Vec<u8>) -> (r: Vec<u8>)
    ensures
        r@ == framed(timestamp, body@),
{
    let mut bytes: Vec<u8> = Vec::new();
    push_all(&mut bytes, &STRUCT_HEADER_BYTES);
    push_all(&mut bytes, &TIMESTAMP_HEADER_BYTES);
    push_all(&mut bytes, &TIMESTAMP_PREFIX_BYTES);
    let timestamp_bytes = timestamp_to_bytes(timestamp);
    push_all(&mut bytes, &timestamp_bytes);
    push_all(&mut bytes, &TIMESTAMP_SUFFIX_BYTES);
    let m: usize = body.len() % 256;
    let remaining_struct_size: u8 = if m == 255 {
        0
    } else {
        (m + 1) as u8
    };
    bytes.push(remaining_struct_size);
    push_all(&mut bytes, body.as_slice());
    push_all(&mut bytes, &STRUCT_FOOTER_BYTES);
    assert(bytes@ =~= framed(timestamp, body@));
    bytes
}

/// Reading a fixed sequence off an input that starts with it leaves the rest.
pub proof fn lemma_expect_prefix(expected: Seq<u8>, rest: Seq<u8>, err: DeserializationError)
    ensures
        expect(expected + rest, expected, err) == Ok::<Seq<u8>, DeserializationError>(rest),
        starts_with(expected + rest, expected),
{
    assert((expected + rest).take(expected.len() as int) =~= expected);
    assert((expected + rest).skip(expected.len() as int) =~= rest);
}

/// The timestamp block of a 32-bit timestamp reads back as that timestamp.
pub proof fn lemma_timestamp_block_round_trip(ts: u64, rest: Seq<u8>)
    requires
        ts <= u32::MAX,
    ensures
        timestamp_block(
            TIMESTAMP_HEADER_BYTES@ + (TIMESTAMP_PREFIX_BYTES@ + (timestamp_encoding(ts) + (
            TIMESTAMP_SUFFIX_BYTES@ + rest))),
        ) == Ok::<(u64, Seq<u8>), DeserializationError>((ts, rest)),
{
    let enc = timestamp_encoding(ts);
    let r3 = TIMESTAMP_SUFFIX_BYTES@ + rest;
    let r2 = enc + r3;
    let r1 = TIMESTAMP_PREFIX_BYTES@ + r2;
    lemma_expect_prefix(TIMESTAMP_HEADER_BYTES@, r1, DeserializationError::TimestampBlock);
    lemma_expect_prefix(TIMESTAMP_PREFIX_BYTES@, r2, DeserializationError::TimestampBlock);
    lemma_timestamp_round_trip(ts);
    assert(r2.skip(TIMESTAMP_SIZE as int) =~= r3);
    lemma_expect_prefix(TIMESTAMP_SUFFIX_BYTES@, rest, DeserializationError::TimestampBlock);
    assert(timestamp_value_at(r2, 0) == timestamp_value_at(enc, 0));
}

/// The framing of a record whose timestamp fits in 32 bits and whose inner
/// body leaves room for the remaining-length byte reads back as that
/// timestamp, followed by the body and the footer.
pub proof fn lemma_frame_round_trip(ts: u64, body: Seq<u8>)
    requires
        ts <= u32::MAX,
        body.len() < 255,
    ensures
        frame(framed(ts, body)) == Ok::<(u64, Seq<u8>), DeserializationError>(
            (ts, body + STRUCT_FOOTER_BYTES@),
        ),
{
    let tail = seq![length_byte(body.len())] + (body + STRUCT_FOOTER_BYTES@);
    let r1 = TIMESTAMP_HEADER_BYTES@ + (TIMESTAMP_PREFIX_BYTES@ + (timestamp_encoding(ts) + (
    TIMESTAMP_SUFFIX_BYTES@ + tail)));
    assert(framed(ts, body) =~= STRUCT_HEADER_BYTES@ + r1);
    lemma_expect_prefix(STRUCT_HEADER_BYTES@, r1, DeserializationError::StructStart);
    lemma_timestamp_block_round_trip(ts, tail);
    assert(tail.skip(1) =~= body + STRUCT_FOOTER_BYTES@);
}

} // verus!

verus! {

/// Where the remaining-length byte stands: after the outer header and the
/// timestamp block.
pub open spec fn length_byte_pos() -> int {
    STRUCT_HEADER_BYTES@.len() + TIMESTAMP_HEADER_BYTES@.len() + TIMESTAMP_PREFIX_BYTES@.len()
        + TIMESTAMP_SIZE + TIMESTAMP_SUFFIX_BYTES@.len()
}

/// `data` opens with the outer header and a well-formed timestamp block,
/// and holds a remaining-length byte after them that disagrees with the
/// number of bytes that follow it.
pub open spec fn length_byte_disagrees(data: Seq<u8>) -> bool {
    &&& starts_with(data, STRUCT_HEADER_BYTES@)
    &&& timestamp_block(data.skip(STRUCT_HEADER_BYTES@.len() as int)) is Ok
    &&& data.len() > length_byte_pos()
    &&& data.len() - length_byte_pos() != data[length_byte_pos()] + STRUCT_FOOTER_BYTES@.len()
}

/// A buffer whose remaining-length byte disagrees with the size of what
/// follows it fails the shared framing with the corrupt-record error.
pub proof fn lemma_frame_length_mismatch(data: Seq<u8>)
    requires
        length_byte_disagrees(data),
    ensures
        frame(data) == Err::<(u64, Seq<u8>), DeserializationError>(DeserializationError::StructEnd),
{
    lemma_frame_constants();
    let r1 = data.skip(4);
    let r2 = timestamp_block(r1)->Ok_0.1;
    assert(r2 =~= data.skip(length_byte_pos()));
}

// ---------------------------------------------------------------------------
// Clock
/// std's system time, carried opaque.
#[verifier::external_type_specification]
#[verifier::external_body]
pub struct ExSystemTime(std::time::SystemTime);

/// std's error for a system time before the one it is measured from.
#[verifier::external_type_specification]
#[verifier::external_body]
pub struct ExSystemTimeError(std::time::SystemTimeError);

/// Relies on `SystemTime::now`: the system clock's current reading, of which
/// nothing is stated.
pub assume_specification[ std::time::SystemTime::now ]() -> std::time::SystemTime;

/// Relies on `SystemTime::duration_since`: the time elapsed since `earlier`,
/// or an error when `earlier` is later; which one comes depends on the clock.
pub assume_specification[ std::time::SystemTime::duration_since ](
    t: &std::time::SystemTime,
    earlier: std::time::SystemTime,
) -> Result<core::time::Duration, std::time::SystemTimeError>;

/// Relies on `Duration::as_secs`: the whole seconds of a duration read off
/// the clock, of which nothing is stated.
pub assume_specification[ core::time::Duration::as_secs ](d: &core::time::Duration) -> u64;

/// Relies on std's `UNIX_EPOCH`: the system time of the Unix epoch.
#[verifier::external_body]
fn unix_epoch() -> std::time::SystemTime {
    std::time::UNIX_EPOCH
}

/// The current time in whole seconds since the Unix epoch, or
/// `InvalidTimeValue` when the system clock reads earlier than the epoch.
pub fn get_current_timestamp() -> (r: Result<u64, DeserializationError>)
    ensures
        r is Err ==> r == Err::<u64, DeserializationError>(DeserializationError::InvalidTimeValue),
{
    let now = std::time::SystemTime::now();
    match now.duration_since(unix_epoch()) {
        Ok(duration) => Ok(duration.as_secs()),
        Err(_) => Err(DeserializationError::InvalidTimeValue),
    }
}

} // verus!
