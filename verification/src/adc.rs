//! The frames exchanged with a twelve-bit, four-channel converter on a
//! serial bus: the three bytes sent to start a single-ended conversion on
//! one channel, and the reading held in the three bytes that come back.
//! The bus transfer itself is the caller's.

use vstd::prelude::*;

verus! {

/// The greatest reading of a twelve-bit converter.
pub const MAX_READING: u16 = 4095;

/// First byte of every request: the start bit and the single-ended bit.
pub const START_SINGLE_ENDED: u8 = 0x06;

/// A spatial axis, read on the converter channel of the same index.
#[derive(Clone, Copy, Debug, PartialEq, Eq)]
pub enum Axis {
    X,
    Y,
    Z,
}

impl Axis {
    /// The converter channel of this axis: 0, 1 or 2.
    pub open spec fn channel(self) -> nat {
        match self {
            Axis::X => 0,
            Axis::Y => 1,
            Axis::Z => 2,
        }
    }

    /// The converter channel of this axis.
    pub fn index(self) -> (r: usize)
        ensures
            r == self.channel(),
    {
        match self {
            Axis::X => 0,
            Axis::Y => 1,
            Axis::Z => 2,
        }
    }

    /// The axis read on `channel`, for the channels 0, 1 and 2.
    pub fn from_index(channel: usize) -> (r: Option<Axis>)
        ensures
            channel >= 3 <==> r is None,
            r matches Some(axis) ==> axis.channel() == channel,
    {
        if channel == 0 {
            Some(Axis::X)
        } else if channel == 1 {
            Some(Axis::Y)
        } else if channel == 2 {
            Some(Axis::Z)
        } else {
            None
        }
    }
}

/// The request for one conversion: the start byte, the channel number in
/// the two highest bits of the second byte, and a byte of padding.
pub open spec fn request_of(axis: Axis) -> Seq<u8> {
    seq![START_SINGLE_ENDED, (axis.channel() * 64) as u8, 0u8]
}

/// The reading in a reply: the low four bits of its second byte above the
/// eight bits of its third. The first byte and the high four bits of the
/// second carry nothing.
pub open spec fn reading_of(reply: Seq<u8>) -> nat
    recommends
        reply.len() == 3,
{
    ((reply[1] % 16) * 256 + reply[2]) as nat
}

/// Builds `request_of`.
pub fn request(axis: Axis) -> (r: [u8; 3])
    ensures
        r@ == request_of(axis),
{
    let select: u8 = match axis {
        Axis::X => 0x00,
        Axis::Y => 0x40,
        Axis::Z => 0x80,
    };
    let r = [START_SINGLE_ENDED, select, 0x00];
    assert(r@ =~= request_of(axis));
    r
}

/// Extracts `reading_of`, which never exceeds `MAX_READING`.
pub fn decode(reply: &[u8; 3]) -> (r: u16)
    ensures
        r == reading_of(reply@),
        r <= MAX_READING,
{
    let high: u8 = reply[1];
    let low: u8 = reply[2];
    let msb: u16 = (high & 0x0F) as u16;
    let lsb: u16 = low as u16;
    assert(((((high & 0x0Fu8) as u16) << 8u16) | (low as u16)) == (high % 16u8) as u16 * 256u16
        + low as u16) by (bit_vector);
    assert((high % 16u8) as u16 * 256u16 + low as u16 <= 4095u16) by (bit_vector);
    (msb << 8) | lsb
}

} // verus!
