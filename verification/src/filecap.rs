//! The capability record stored in a file's extended attributes: a 20-byte
//! little-endian layout holding a magic word (revision and an
//! effective-bit flag) and the permitted and inheritable masks as two
//! 32-bit halves each. Encoding and decoding are pure; reading and writing
//! the attribute itself is left to the kernel-facing layer.

use vstd::prelude::*;

use crate::state::StagedState;

verus! {

/// The record revision this layout encodes.
pub const VFS_CAP_REVISION_2: u32 = 0x0200_0000;

/// The mask of the revision inside the magic word.
pub const VFS_CAP_REVISION_MASK: u32 = 0xff00_0000;

/// The magic-word flag saying the permitted set is also effective.
pub const VFS_CAP_FLAGS_EFFECTIVE: u32 = 1;

/// The length of an encoded record.
pub const FILE_CAPS_LEN: usize = 20;

/// The four little-endian bytes of `w`.
pub open spec fn spec_le_bytes(w: u32) -> Seq<u8> {
    seq![
        (w & 0xff) as u8,
        ((w >> 8) & 0xff) as u8,
        ((w >> 16) & 0xff) as u8,
        ((w >> 24) & 0xff) as u8,
    ]
}

/// The word held by four little-endian bytes.
pub open spec fn spec_u32_of_le(b0: u8, b1: u8, b2: u8, b3: u8) -> u32 {
    (b0 as u32) | ((b1 as u32) << 8) | ((b2 as u32) << 16) | ((b3 as u32) << 24)
}

/// A 64-bit mask from its two 32-bit halves.
pub open spec fn spec_join64(low: u32, high: u32) -> u64 {
    (low as u64) | ((high as u64) << 32)
}

/// The magic word the staged state encodes to: revision 2, with the
/// effective flag exactly when any effective bit is staged.
pub open spec fn spec_file_caps_magic(s: StagedState) -> u32 {
    if s.effective != 0 {
        VFS_CAP_REVISION_2 | VFS_CAP_FLAGS_EFFECTIVE
    } else {
        VFS_CAP_REVISION_2
    }
}

/// The encoded record of a staged state: the magic word, then the low and
/// high halves of the permitted and inheritable masks, interleaved as the
/// platform lays them out (permitted low, inheritable low, permitted high,
/// inheritable high), each word little-endian.
pub open spec fn spec_encode_file_caps(s: StagedState) -> Seq<u8> {
    spec_le_bytes(spec_file_caps_magic(s)) + spec_le_bytes(s.permitted as u32) + spec_le_bytes(
        s.inheritable as u32,
    ) + spec_le_bytes((s.permitted >> 32) as u32) + spec_le_bytes((s.inheritable >> 32) as u32)
}

fn push_le32(out: &mut Vec<u8>, w: u32)
    ensures
        final(out)@ == old(out)@ + spec_le_bytes(w),
{
    out.push((w & 0xff) as u8);
    out.push(((w >> 8) & 0xff) as u8);
    out.push(((w >> 16) & 0xff) as u8);
    out.push(((w >> 24) & 0xff) as u8);
    proof {
        assert(out@ =~= old(out)@ + spec_le_bytes(w));
    }
}

/// Encode the staged permitted and inheritable masks, and whether anything
/// is staged effective, as a capability record for a file's extended
/// attributes.
pub fn encode_file_caps(state: &StagedState) -> (r: Vec<u8>)
    ensures
        r@ == spec_encode_file_caps(*state),
        r@.len() == FILE_CAPS_LEN,
{
    let mut out: Vec<u8> = Vec::new();
    let magic: u32 = if state.effective != 0 {
        VFS_CAP_REVISION_2 | VFS_CAP_FLAGS_EFFECTIVE
    } else {
        VFS_CAP_REVISION_2
    };
    push_le32(&mut out, magic);
    push_le32(&mut out, state.permitted as u32);
    push_le32(&mut out, state.inheritable as u32);
    push_le32(&mut out, (state.permitted >> 32) as u32);
    push_le32(&mut out, (state.inheritable >> 32) as u32);
    proof {
        assert(out@ =~= spec_encode_file_caps(*state));
    }
    out
}

/// What a well-formed record decodes to: the effective mask equals the
/// permitted mask when the magic carries the effective flag and is empty
/// otherwise, and the permitted and inheritable masks are rejoined from
/// their halves.
pub open spec fn spec_decoded_masks(b: Seq<u8>) -> (u64, u64, u64) {
    let magic = spec_u32_of_le(b[0], b[1], b[2], b[3]);
    let permitted = spec_join64(
        spec_u32_of_le(b[4], b[5], b[6], b[7]),
        spec_u32_of_le(b[12], b[13], b[14], b[15]),
    );
    let inheritable = spec_join64(
        spec_u32_of_le(b[8], b[9], b[10], b[11]),
        spec_u32_of_le(b[16], b[17], b[18], b[19]),
    );
    let effective = if magic & VFS_CAP_FLAGS_EFFECTIVE != 0 {
        permitted
    } else {
        0
    };
    (effective, permitted, inheritable)
}

/// Whether a byte sequence is a record this layout can decode: long enough
/// and of the revision encoded here.
pub open spec fn spec_file_caps_decodable(b: Seq<u8>) -> bool {
    &&& b.len() >= FILE_CAPS_LEN
    &&& spec_u32_of_le(b[0], b[1], b[2], b[3]) & VFS_CAP_REVISION_MASK == VFS_CAP_REVISION_2
}

fn read_le32(bytes: &Vec<u8>, at: usize) -> (w: u32)
    requires
        at <= 16,
        at + 4 <= bytes@.len(),
    ensures
        w == spec_u32_of_le(bytes@[at as int], bytes@[at + 1], bytes@[at + 2], bytes@[at + 3]),
{
    (bytes[at] as u32) | ((bytes[at + 1] as u32) << 8) | ((bytes[at + 2] as u32) << 16) | ((bytes[at
        + 3] as u32) << 24)
}

/// Decode a capability record into `(effective, permitted, inheritable)`
/// raw masks. Nothing is decoded — and `None` returned — for a record that
/// is too short or of another revision.
pub fn decode_file_caps(bytes: &Vec<u8>) -> (r: Option<(u64, u64, u64)>)
    ensures
        (spec_file_caps_decodable(bytes@) ==> r == Some(spec_decoded_masks(bytes@))),
        (!spec_file_caps_decodable(bytes@) ==> r is None),
{
    if bytes.len() < FILE_CAPS_LEN {
        return None;
    }
    let magic = read_le32(bytes, 0);
    if magic & VFS_CAP_REVISION_MASK != VFS_CAP_REVISION_2 {
        return None;
    }
    let permitted_low = read_le32(bytes, 4);
    let inheritable_low = read_le32(bytes, 8);
    let permitted_high = read_le32(bytes, 12);
    let inheritable_high = read_le32(bytes, 16);
    let permitted = (permitted_low as u64) | ((permitted_high as u64) << 32);
    let inheritable = (inheritable_low as u64) | ((inheritable_high as u64) << 32);
    let effective: u64 = if magic & VFS_CAP_FLAGS_EFFECTIVE != 0 {
        permitted
    } else {
        0
    };
    Some((effective, permitted, inheritable))
}

proof fn lemma_le32_round_trip(w: u32)
    ensures
        spec_u32_of_le(
            (w & 0xff) as u8,
            ((w >> 8) & 0xff) as u8,
            ((w >> 16) & 0xff) as u8,
            ((w >> 24) & 0xff) as u8,
        ) == w,
{
    assert((((w & 0xff) as u8) as u32) | ((((w >> 8) & 0xff) as u8) as u32) << 8 | ((((w >> 16)
        & 0xff) as u8) as u32) << 16 | ((((w >> 24) & 0xff) as u8) as u32) << 24 == w)
        by (bit_vector);
}

proof fn lemma_join_split_round_trip(m: u64)
    ensures
        spec_join64(m as u32, (m >> 32) as u32) == m,
{
    assert(((m as u32) as u64) | ((((m >> 32) as u32) as u64) << 32) == m) by (bit_vector);
}

/// Round trip of the file record: decoding what a staged state encodes
/// gives back the permitted and inheritable masks exactly, and an effective
/// mask equal to the permitted mask when anything was staged effective and
/// empty otherwise — all the record can carry of the effective set.
pub proof fn lemma_file_caps_round_trip(s: StagedState)
    ensures
        spec_file_caps_decodable(spec_encode_file_caps(s)),
        spec_decoded_masks(spec_encode_file_caps(s)) == ((
            if s.effective != 0 {
                s.permitted
            } else {
                0u64
            },
            s.permitted,
            s.inheritable,
        )),
{
    let b = spec_encode_file_caps(s);
    let magic = spec_file_caps_magic(s);
    assert(b[0] == (magic & 0xff) as u8 && b[1] == ((magic >> 8) & 0xff) as u8 && b[2] == ((magic
        >> 16) & 0xff) as u8 && b[3] == ((magic >> 24) & 0xff) as u8);
    lemma_le32_round_trip(magic);
    lemma_le32_round_trip(s.permitted as u32);
    lemma_le32_round_trip(s.inheritable as u32);
    lemma_le32_round_trip((s.permitted >> 32) as u32);
    lemma_le32_round_trip((s.inheritable >> 32) as u32);
    lemma_join_split_round_trip(s.permitted);
    lemma_join_split_round_trip(s.inheritable);
    assert((0x0200_0000u32 | 1) & 0xff00_0000 == 0x0200_0000) by (bit_vector);
    assert(0x0200_0000u32 & 0xff00_0000 == 0x0200_0000) by (bit_vector);
    assert((0x0200_0000u32 | 1) & 1 != 0) by (bit_vector);
    assert(0x0200_0000u32 & 1 == 0) by (bit_vector);
}

} // verus!
