//! Wire framing: every unit on the link is four bytes, little-endian.
use vstd::prelude::*;

verus! {

/// Serial baud rate of the link.
pub const BAUD_RATE: u32 = 115_200;

/// Bit pattern of the end-of-transmission marker (a quiet NaN).
pub const SENTINEL_BITS: u32 = 0x7FC0_0000;

/// A four-byte frame as it travels on the link.
pub type Frame = [u8; 4];

/// The little-endian bytes of `x`.
pub open spec fn le_bytes(x: u32) -> Seq<u8> {
    seq![
        (x & 0xff) as u8,
        ((x >> 8u32) & 0xff) as u8,
        ((x >> 16u32) & 0xff) as u8,
        ((x >> 24u32) & 0xff) as u8,
    ]
}

/// The integer whose little-endian bytes are `b[0..4]`.
pub open spec fn le_value(b: Seq<u8>) -> u32 {
    (b[0] as u32) | ((b[1] as u32) << 8u32) | ((b[2] as u32) << 16u32) | ((b[3] as u32) << 24u32)
}

/// The bytes of the synchronisation marker `"SYN\0"`.
pub open spec fn sync_marker_bytes() -> Seq<u8> {
    seq![0x53u8, 0x59u8, 0x4eu8, 0u8]
}

/// Reading back the bytes of a value gives the value.
pub proof fn lemma_le_value_of_bytes(x: u32)
    ensures
        le_value(le_bytes(x)) == x,
{
    let b0 = (x & 0xff) as u8;
    let b1 = ((x >> 8u32) & 0xff) as u8;
    let b2 = ((x >> 16u32) & 0xff) as u8;
    let b3 = ((x >> 24u32) & 0xff) as u8;
    assert((b0 as u32) | ((b1 as u32) << 8u32) | ((b2 as u32) << 16u32) | ((b3 as u32) << 24u32)
        == x) by (bit_vector)
        requires
            b0 == (x & 0xff) as u8,
            b1 == ((x >> 8u32) & 0xff) as u8,
            b2 == ((x >> 16u32) & 0xff) as u8,
            b3 == ((x >> 24u32) & 0xff) as u8,
    ;
}

/// Four bytes are the bytes of the value they encode.
pub proof fn lemma_le_bytes_of_value(b: Seq<u8>)
    requires
        b.len() == 4,
    ensures
        le_bytes(le_value(b)) == b,
{
    let (b0, b1, b2, b3) = (b[0], b[1], b[2], b[3]);
    let x = le_value(b);
    assert(x == (b0 as u32) | ((b1 as u32) << 8u32) | ((b2 as u32) << 16u32) | ((b3 as u32)
        << 24u32));
    assert((x & 0xff) as u8 == b0 && ((x >> 8u32) & 0xff) as u8 == b1 && ((x >> 16u32) & 0xff) as u8
        == b2 && ((x >> 24u32) & 0xff) as u8 == b3) by (bit_vector)
        requires
            x == (b0 as u32) | ((b1 as u32) << 8u32) | ((b2 as u32) << 16u32) | ((b3 as u32)
                << 24u32),
    ;
    assert(le_bytes(x) =~= b);
}

/// Encodes a sample's bit pattern as a frame.
pub fn encode_frame(x: u32) -> (r: Frame)
    ensures
        r@ == le_bytes(x),
{
    let r: Frame = [
        (x & 0xff) as u8,
        ((x >> 8u32) & 0xff) as u8,
        ((x >> 16u32) & 0xff) as u8,
        ((x >> 24u32) & 0xff) as u8,
    ];
    assert(r@ =~= le_bytes(x));
    r
}

/// Decodes a frame into the bit pattern it carries.
pub fn decode_frame(b: Frame) -> (r: u32)
    ensures
        r == le_value(b@),
{
    (b[0] as u32) | ((b[1] as u32) << 8u32) | ((b[2] as u32) << 16u32) | ((b[3] as u32) << 24u32)
}

/// The frame that marks the end of a stream.
pub fn sentinel_frame() -> (r: Frame)
    ensures
        r@ == le_bytes(SENTINEL_BITS),
{
    encode_frame(SENTINEL_BITS)
}

/// Whether a frame is the end-of-transmission marker, byte for byte.
pub fn is_sentinel(b: Frame) -> (r: bool)
    ensures
        r == (b@ == le_bytes(SENTINEL_BITS)),
{
    let v = decode_frame(b);
    proof {
        lemma_le_bytes_of_value(b@);
        lemma_le_value_of_bytes(SENTINEL_BITS);
    }
    v == SENTINEL_BITS
}

/// The marker the host sends to open a session.
pub fn sync_marker() -> (r: Frame)
    ensures
        r@ == sync_marker_bytes(),
{
    let r: Frame = [0x53u8, 0x59u8, 0x4eu8, 0u8];
    assert(r@ =~= sync_marker_bytes());
    r
}

/// The sampling frequency, in hertz, that the device announces in reply to the
/// synchronisation marker.
pub fn decode_frequency(reply: Frame) -> (r: u32)
    ensures
        r == le_value(reply@),
{
    decode_frame(reply)
}

} // verus!
