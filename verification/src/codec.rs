//! Failures of the Snappy codec.
//!
//! `snap::Error` is plain data: sizes, offsets, single bytes and one short run
//! of bytes. [`CodecFault`] is what such a failure says, with the run of bytes
//! as a sequence; two failures with the same [`fault_view`] say the same.

use snap::Error as SnapError;
use vstd::prelude::*;

verus! {

#[verifier::external_type_specification]
pub struct ExSnapError(SnapError);

/// What a failure of the codec says.
pub enum CodecFault {
    TooBig { given: u64, max: u64 },
    BufferTooSmall { given: u64, min: u64 },
    Empty,
    Header,
    HeaderMismatch { expected_len: u64, got_len: u64 },
    Literal { len: u64, src_len: u64, dst_len: u64 },
    CopyRead { len: u64, src_len: u64 },
    CopyWrite { len: u64, dst_len: u64 },
    Offset { offset: u64, dst_pos: u64 },
    StreamHeader { byte: u8 },
    StreamHeaderMismatch { bytes: Seq<u8> },
    UnsupportedChunkType { byte: u8 },
    UnsupportedChunkLength { len: u64, header: bool },
    Checksum { expected: u32, got: u32 },
}

/// What the failure `e` says.
pub open spec fn fault_view(e: SnapError) -> CodecFault {
    match e {
        SnapError::TooBig { given, max } => CodecFault::TooBig { given, max },
        SnapError::BufferTooSmall { given, min } => CodecFault::BufferTooSmall { given, min },
        SnapError::Empty => CodecFault::Empty,
        SnapError::Header => CodecFault::Header,
        SnapError::HeaderMismatch { expected_len, got_len } => CodecFault::HeaderMismatch { expected_len, got_len },
        SnapError::Literal { len, src_len, dst_len } => CodecFault::Literal { len, src_len, dst_len },
        SnapError::CopyRead { len, src_len } => CodecFault::CopyRead { len, src_len },
        SnapError::CopyWrite { len, dst_len } => CodecFault::CopyWrite { len, dst_len },
        SnapError::Offset { offset, dst_pos } => CodecFault::Offset { offset, dst_pos },
        SnapError::StreamHeader { byte } => CodecFault::StreamHeader { byte },
        SnapError::StreamHeaderMismatch { bytes } => CodecFault::StreamHeaderMismatch { bytes: bytes@ },
        SnapError::UnsupportedChunkType { byte } => CodecFault::UnsupportedChunkType { byte },
        SnapError::UnsupportedChunkLength { len, header } => CodecFault::UnsupportedChunkLength { len, header },
        SnapError::Checksum { expected, got } => CodecFault::Checksum { expected, got },
    }
}

/// The message that the codec gives for a failure.
pub uninterp spec fn snap_message(fault: CodecFault) -> Seq<char>;

/// The `Display` form of a `snap::Error`: a text that depends on what the
/// failure says and on nothing else.
#[verifier::external_body]
pub(crate) fn snap_text(e: &SnapError) -> (s: String)
    ensures
        s@ == snap_message(fault_view(*e)),
{
    e.to_string()
}

} // verus!
