use crate::consts::{STRUCT_FOOTER_BYTES, STRUCT_HEADER_BYTES};
use crate::nightlight_settings::{change_time, NightlightError};
use crate::parser::{
    expect, frame, frame_record, framed, lemma_frame_length_mismatch, length_byte_disagrees, has_bytes_at, lemma_expect_prefix,
    lemma_frame_round_trip, parse_frame, parse_struct_footer_block, parse_struct_header_block,
    push_all, read_from, starts_with, DeserializationError,
};
use vstd::prelude::*;

verus! {

/// Stands right after the inner header when the night light is enabled.
pub const NIGHTLIGHT_STATE_ENABLED_BYTES: [u8; 2] = [0x10, 0x00];

/// The night light's state record.
///
/// Its bytes are the shared framing (outer header, timestamp block,
/// remaining-length byte) around an inner body, then the footer. The inner
/// body is the inner header, the enabled marker when the night light is
/// enabled, and a payload whose meaning is unknown and which is kept as it
/// was read.
#[derive(Debug, Clone)]
pub struct NightlightState {
    /// The last-modified Unix timestamp in seconds.
    pub timestamp: u64,
    /// Whether the night light is (force) enabled, whatever the schedule says.
    pub is_enabled: bool,
    /// The payload after the enabled marker, replayed as it was read.
    remaining_data: Vec<u8>,
}

/// What a state record holds.
pub struct StateView {
    pub timestamp: u64,
    pub is_enabled: bool,
    pub remaining_data: Seq<u8>,
}

impl View for NightlightState {
    type V = StateView;

    closed spec fn view(&self) -> StateView {
        StateView {
            timestamp: self.timestamp,
            is_enabled: self.is_enabled,
            remaining_data: self.remaining_data@,
        }
    }
}

impl PartialEq for NightlightState {
    fn eq(&self, other: &NightlightState) -> (r: bool) {
        self.timestamp == other.timestamp && self.is_enabled == other.is_enabled
            && bytes_equal(&self.remaining_data, &other.remaining_data)
    }
}

impl vstd::std_specs::cmp::PartialEqSpecImpl for NightlightState {
    open spec fn obeys_eq_spec() -> bool {
        true
    }

    open spec fn eq_spec(&self, other: &NightlightState) -> bool {
        self@ == other@
    }
}

impl Eq for NightlightState {}

/// Tells whether two byte vectors hold the same bytes.
fn bytes_equal(a: &Vec<u8>, b: &Vec<u8>) -> (r: bool)
    ensures
        r == (a@ == b@),
{
    if a.len() != b.len() {
        return false;
    }
    let mut i: usize = 0;
    while i < a.len()
        invariant
            a@.len() == b@.len(),
            i <= a@.len(),
            forall|j: int| 0 <= j < i ==> a@[j] == b@[j],
        decreases a@.len() - i,
    {
        if a[i] != b[i] {
            return false;
        }
        i += 1;
    }
    assert(a@ =~= b@);
    true
}

/// The inner body of a state record, from the inner header up to the footer.
pub open spec fn state_body(v: StateView) -> Seq<u8> {
    STRUCT_HEADER_BYTES@ + (if v.is_enabled {
        NIGHTLIGHT_STATE_ENABLED_BYTES@
    } else {
        Seq::<u8>::empty()
    }) + v.remaining_data
}

/// The bytes of a state record.
pub open spec fn state_encoding(v: StateView) -> Seq<u8> {
    framed(v.timestamp, state_body(v))
}

/// Reads a state record's inner body and footer, given the timestamp read
/// before them: the inner header, the optional enabled marker, then every
/// byte before the last four as the payload, and those four as the footer.
pub open spec fn state_body_and_footer(ts: u64, input: Seq<u8>) -> Result<
    StateView,
    DeserializationError,
> {
    match expect(input, STRUCT_HEADER_BYTES@, DeserializationError::StructStart) {
        Err(e) => Err(e),
        Ok(r1) => {
            let enabled = starts_with(r1, NIGHTLIGHT_STATE_ENABLED_BYTES@);
            let r2 = if enabled {
                r1.skip(NIGHTLIGHT_STATE_ENABLED_BYTES@.len() as int)
            } else {
                r1
            };
            let body_len = r2.len() - STRUCT_FOOTER_BYTES@.len();
            if body_len < 0 {
                Err(DeserializationError::StructEnd)
            } else if r2.skip(body_len) != STRUCT_FOOTER_BYTES@ {
                Err(DeserializationError::StructEnd)
            } else {
                Ok(StateView { timestamp: ts, is_enabled: enabled, remaining_data: r2.take(body_len) })
            }
        },
    }
}

/// Decodes a state record.
pub open spec fn decode_state(data: Seq<u8>) -> Result<StateView, DeserializationError> {
    match frame(data) {
        Err(e) => Err(e),
        Ok((ts, rest)) => state_body_and_footer(ts, rest),
    }
}

/// What a decoded state record holds, as spec functions speak of it.
pub open spec fn state_result(r: Result<NightlightState, DeserializationError>) -> Result<
    StateView,
    DeserializationError,
> {
    match r {
        Ok(s) => Ok(s@),
        Err(e) => Err(e),
    }
}

/// A state record that encodes into bytes that decode back to it: its
/// timestamp fits in 32 bits, its inner body leaves room for the
/// remaining-length byte, and when it is disabled its payload, with the
/// footer after it, does not open with the enabled marker.
pub open spec fn state_is_encodable(v: StateView) -> bool {
    &&& v.timestamp <= u32::MAX
    &&& state_body(v).len() < 255
    &&& !v.is_enabled ==> !starts_with(
        v.remaining_data + STRUCT_FOOTER_BYTES@,
        NIGHTLIGHT_STATE_ENABLED_BYTES@,
    )
}

/// The state after enabling at time `now`: unchanged if already enabled.
pub open spec fn enabled_at(v: StateView, now: u64) -> StateView {
    if v.is_enabled {
        v
    } else {
        StateView { timestamp: now, is_enabled: true, ..v }
    }
}

/// The state after disabling at time `now`: unchanged if already disabled.
pub open spec fn disabled_at(v: StateView, now: u64) -> StateView {
    if !v.is_enabled {
        v
    } else {
        StateView { timestamp: now, is_enabled: false, ..v }
    }
}

impl NightlightState {
    /// A state record with the given fields.
    pub fn new(timestamp: u64, is_enabled: bool, remaining_data: Vec<u8>) -> (r: NightlightState)
        ensures
            r@ == (StateView { timestamp, is_enabled, remaining_data: remaining_data@ }),
    {
        NightlightState { timestamp, is_enabled, remaining_data }
    }

    /// The last-modified Unix timestamp in seconds.
    pub fn timestamp(&self) -> (r: u64)
        ensures
            r == self@.timestamp,
    {
        self.timestamp
    }

    /// Whether the night light is (force) enabled.
    pub fn is_enabled(&self) -> (r: bool)
        ensures
            r == self@.is_enabled,
    {
        self.is_enabled
    }

    /// The payload after the enabled marker.
    pub fn remaining_data(&self) -> (r: &[u8])
        ensures
            r@ == self@.remaining_data,
    {
        self.remaining_data.as_slice()
    }

    /// Reads the enabled marker at `pos`, if it stands there.
    fn parse_is_enabled_block(data: &[u8], pos: usize) -> (r: (bool, usize))
        requires
            pos <= data@.len(),
        ensures
            r.0 == starts_with(data@.skip(pos as int), NIGHTLIGHT_STATE_ENABLED_BYTES@),
            r.1 == (if r.0 {
                pos + NIGHTLIGHT_STATE_ENABLED_BYTES@.len()
            } else {
                pos as int
            }),
    {
        let n: usize = data.len();
        if has_bytes_at(data, pos, &NIGHTLIGHT_STATE_ENABLED_BYTES) {
            assert(pos + 2 <= n);
            (true, pos + NIGHTLIGHT_STATE_ENABLED_BYTES.len())
        } else {
            (false, pos)
        }
    }

    /// Copies the payload: every byte from `pos` up to the footer.
    fn parse_remaining_data_block(data: &[u8], pos: usize) -> (r: Result<
        (Vec<u8>, usize),
        DeserializationError,
    >)
        requires
            pos <= data@.len(),
        ensures
            data@.len() - pos < STRUCT_FOOTER_BYTES@.len() ==> r == Err::<
                (Vec<u8>, usize),
                DeserializationError,
            >(DeserializationError::StructEnd),
            data@.len() - pos >= STRUCT_FOOTER_BYTES@.len() ==> r is Ok && r->Ok_0.0@
                == data@.subrange(pos as int, data@.len() - STRUCT_FOOTER_BYTES@.len())
                && r->Ok_0.1 == data@.len() - STRUCT_FOOTER_BYTES@.len(),
    {
        if data.len() - pos < STRUCT_FOOTER_BYTES.len() {
            return Err(DeserializationError::StructEnd);
        }
        let end: usize = data.len() - STRUCT_FOOTER_BYTES.len();
        let mut remaining_data: Vec<u8> = Vec::new();
        let mut i: usize = pos;
        while i < end
            invariant
                pos <= i <= end,
                end == data@.len() - STRUCT_FOOTER_BYTES@.len(),
                remaining_data@ == data@.subrange(pos as int, i as int),
            decreases end - i,
        {
            remaining_data.push(data[i]);
            i += 1;
            assert(remaining_data@ =~= data@.subrange(pos as int, i as int));
        }
        Ok((remaining_data, end))
    }

    /// Deserializes a state record from its bytes.
    pub fn deserialize_from_bytes(data: &[u8]) -> (r: Result<NightlightState, DeserializationError>)
        ensures
            state_result(r) == decode_state(data@),
    {
        let (timestamp, pos) = parse_frame(data)?;
        let pos = parse_struct_header_block(data, pos)?;
        let ghost r1 = data@.skip(pos as int);
        let (is_enabled, pos) = Self::parse_is_enabled_block(data, pos);
        assert(is_enabled ==> r1.skip(2) =~= data@.skip(pos as int));
        let ghost r2 = data@.skip(pos as int);
        let (remaining_data, pos) = Self::parse_remaining_data_block(data, pos)?;
        assert(r2.take(r2.len() - 4) =~= remaining_data@);
        assert(r2.skip(r2.len() - 4) =~= data@.skip(pos as int));
        assert(data@.skip(pos as int).take(4) =~= data@.skip(pos as int));
        let pos = parse_struct_footer_block(data, pos)?;
        Ok(NightlightState { timestamp, is_enabled, remaining_data })
    }
}

impl NightlightState {
    /// Serializes a state record into its bytes.
    pub fn serialize_to_bytes(&self) -> (r: Vec<u8>)
        ensures
            r@ == state_encoding(self@),
    {
        let mut remaining_struct_bytes: Vec<u8> = Vec::new();
        push_all(&mut remaining_struct_bytes, &STRUCT_HEADER_BYTES);
        if self.is_enabled {
            push_all(&mut remaining_struct_bytes, &NIGHTLIGHT_STATE_ENABLED_BYTES);
        }
        push_all(&mut remaining_struct_bytes, self.remaining_data.as_slice());
        assert(remaining_struct_bytes@ =~= state_body(self@));
        frame_record(self.timestamp, &remaining_struct_bytes)
    }

    /// Enables the night light, stamping the change with `now`. Returns true
    /// exactly when the record changed, that is, when it was disabled.
    pub fn enable_at(&mut self, now: u64) -> (r: bool)
        ensures
            final(self)@ == enabled_at(old(self)@, now),
            r == !old(self)@.is_enabled,
            r == (old(self)@.is_enabled != final(self)@.is_enabled),
    {
        if self.is_enabled {
            return false;
        }
        self.is_enabled = true;
        self.timestamp = now;
        true
    }

    /// Disables the night light, stamping the change with `now`. Returns true
    /// exactly when the record changed, that is, when it was enabled.
    pub fn disable_at(&mut self, now: u64) -> (r: bool)
        ensures
            final(self)@ == disabled_at(old(self)@, now),
            r == old(self)@.is_enabled,
            r == (old(self)@.is_enabled != final(self)@.is_enabled),
    {
        if !self.is_enabled {
            return false;
        }
        self.is_enabled = false;
        self.timestamp = now;
        true
    }

    /// Enables the night light and, on a change, stamps it with the current
    /// time. Returns true exactly when the record changed. Fails, changing
    /// nothing, only when a change is due and the system clock reads earlier
    /// than the Unix epoch.
    pub fn enable(&mut self) -> (r: Result<bool, NightlightError>)
        ensures
            old(self)@.is_enabled ==> r == Ok::<bool, NightlightError>(false),
            r is Ok ==> final(self)@ == enabled_at(old(self)@, final(self)@.timestamp)
                && r->Ok_0 == !old(self)@.is_enabled && r->Ok_0 == (old(self)@.is_enabled
                != final(self)@.is_enabled),
            r is Err ==> r == Err::<bool, NightlightError>(NightlightError::InvalidTimeValue)
                && final(self)@ == old(self)@,
    {
        if self.is_enabled {
            return Ok(false);
        }
        let now = change_time()?;
        Ok(self.enable_at(now))
    }

    /// Disables the night light and, on a change, stamps it with the current
    /// time. Returns true exactly when the record changed. Fails, changing
    /// nothing, only when a change is due and the system clock reads earlier
    /// than the Unix epoch.
    pub fn disable(&mut self) -> (r: Result<bool, NightlightError>)
        ensures
            !old(self)@.is_enabled ==> r == Ok::<bool, NightlightError>(false),
            r is Ok ==> final(self)@ == disabled_at(old(self)@, final(self)@.timestamp)
                && r->Ok_0 == old(self)@.is_enabled && r->Ok_0 == (old(self)@.is_enabled
                != final(self)@.is_enabled),
            r is Err ==> r == Err::<bool, NightlightError>(NightlightError::InvalidTimeValue)
                && final(self)@ == old(self)@,
    {
        if !self.is_enabled {
            return Ok(false);
        }
        let now = change_time()?;
        Ok(self.disable_at(now))
    }
}

/// The inner body and footer of an encodable state record read back as it.
proof fn lemma_state_body_round_trip(v: StateView)
    requires
        state_is_encodable(v),
    ensures
        state_body_and_footer(v.timestamp, state_body(v) + STRUCT_FOOTER_BYTES@) == Ok::<
            StateView,
            DeserializationError,
        >(v),
{
    let payload = v.remaining_data + STRUCT_FOOTER_BYTES@;
    let r1 = if v.is_enabled {
        NIGHTLIGHT_STATE_ENABLED_BYTES@ + payload
    } else {
        payload
    };
    assert(state_body(v) + STRUCT_FOOTER_BYTES@ =~= STRUCT_HEADER_BYTES@ + r1);
    lemma_expect_prefix(STRUCT_HEADER_BYTES@, r1, DeserializationError::StructStart);
    if v.is_enabled {
        lemma_expect_prefix(NIGHTLIGHT_STATE_ENABLED_BYTES@, payload, DeserializationError::StructEnd);
    }
    assert(payload.skip(v.remaining_data.len() as int) =~= STRUCT_FOOTER_BYTES@);
    assert(payload.take(v.remaining_data.len() as int) =~= v.remaining_data);
}

/// Every encodable state record decodes from its own encoding unchanged.
pub proof fn lemma_state_round_trip(v: StateView)
    requires
        state_is_encodable(v),
    ensures
        decode_state(state_encoding(v)) == Ok::<StateView, DeserializationError>(v),
{
    lemma_frame_round_trip(v.timestamp, state_body(v));
    lemma_state_body_round_trip(v);
}

/// Enabling or disabling a second time at any time changes nothing more.
pub proof fn lemma_state_setters_idempotent(v: StateView, t1: u64, t2: u64)
    ensures
        enabled_at(enabled_at(v, t1), t2) == enabled_at(v, t1),
        disabled_at(disabled_at(v, t1), t2) == disabled_at(v, t1),
{
}

/// A state buffer whose remaining-length byte disagrees with the size of
/// what follows it is refused as a corrupt record, and no record comes out.
pub proof fn lemma_state_length_mismatch(data: Seq<u8>)
    requires
        length_byte_disagrees(data),
    ensures
        decode_state(data) == Err::<StateView, DeserializationError>(
            DeserializationError::StructEnd,
        ),
{
    lemma_frame_length_mismatch(data);
}

} // verus!
