use vstd::prelude::*;

verus! {

/// Opens the record, and opens its inner body a second time.
pub const STRUCT_HEADER_BYTES: [u8; 4] = [0x43, 0x42, 0x01, 0x00];

/// Closes the record.
pub const STRUCT_FOOTER_BYTES: [u8; 4] = [0x00, 0x00, 0x00, 0x00];

/// Opens the last-modified timestamp block.
pub const TIMESTAMP_HEADER_BYTES: [u8; 4] = [0x0A, 0x02, 0x01, 0x00];

/// Stands right before the encoded timestamp.
pub const TIMESTAMP_PREFIX_BYTES: [u8; 2] = [0x2A, 0x06];

/// The width of an encoded timestamp.
pub const TIMESTAMP_SIZE: usize = 5;

/// Stands right after the encoded timestamp.
pub const TIMESTAMP_SUFFIX_BYTES: [u8; 3] = [0x2A, 0x2B, 0x0E];

/// The byte values of the shared framing constants.
pub proof fn lemma_frame_constants()
    ensures
        STRUCT_HEADER_BYTES@ == seq![0x43u8, 0x42u8, 0x01u8, 0x00u8],
        STRUCT_FOOTER_BYTES@ == seq![0x00u8, 0x00u8, 0x00u8, 0x00u8],
        TIMESTAMP_HEADER_BYTES@ == seq![0x0Au8, 0x02u8, 0x01u8, 0x00u8],
        TIMESTAMP_PREFIX_BYTES@ == seq![0x2Au8, 0x06u8],
        TIMESTAMP_SUFFIX_BYTES@ == seq![0x2Au8, 0x2Bu8, 0x0Eu8],
{
    assert(STRUCT_HEADER_BYTES@ =~= seq![0x43u8, 0x42u8, 0x01u8, 0x00u8]);
    assert(STRUCT_FOOTER_BYTES@ =~= seq![0x00u8, 0x00u8, 0x00u8, 0x00u8]);
    assert(TIMESTAMP_HEADER_BYTES@ =~= seq![0x0Au8, 0x02u8, 0x01u8, 0x00u8]);
    assert(TIMESTAMP_PREFIX_BYTES@ =~= seq![0x2Au8, 0x06u8]);
    assert(TIMESTAMP_SUFFIX_BYTES@ =~= seq![0x2Au8, 0x2Bu8, 0x0Eu8]);
}

} // verus!
