use vstd::prelude::*;
use crate::types::Millimeters;

verus! {

/// The byte that starts each frame of the sensor.
pub const FRAME_HEADER: u8 = 0xFF;

/// The checksum a frame carries: the low byte of the sum of the header and the two data bytes.
pub open spec fn frame_checksum(high: u8, low: u8) -> u8 {
    ((high as int + low as int + 255) % 256) as u8
}

/// The distance a frame reports: the two data bytes, most significant first.
pub open spec fn frame_distance(high: u8, low: u8) -> int {
    high as int * 256 + low as int
}

/// Whether a byte read while looking for a frame is a data byte (not the header).
pub fn is_data_byte(b: u8) -> (r: bool)
    ensures
        r == (b != FRAME_HEADER),
{
    b != FRAME_HEADER
}

/// The distance that the frame `high`, `low`, `checksum` reports, or `None` when the
/// checksum does not match.
pub fn decode(high: u8, low: u8, checksum: u8) -> (r: Option<Millimeters>)
    ensures
        checksum == frame_checksum(high, low) ==> (r matches Some(d) && d == frame_distance(high, low)),
        checksum != frame_checksum(high, low) ==> r is None,
{
    let expected = high.wrapping_add(low).wrapping_add(0xFF);
    proof {
        assert(expected == frame_checksum(high, low)) by (bit_vector)
            requires
                expected == high.wrapping_add(low).wrapping_add(0xFF);
    }
    if expected != checksum {
        return None;
    }
    let d: u16 = (high as u16) << 8 | (low as u16);
    proof {
        assert(d == high as int * 256 + low as int) by (bit_vector)
            requires
                d == (high as u16) << 8 | (low as u16);
    }
    Some(d)
}

/// Every distance the sensor can report survives the frame: decoding the bytes of a distance
/// with their checksum gives the distance back.
pub proof fn lemma_frame_roundtrip(d: u16)
    ensures
        ({
            let high = (d / 256) as u8;
            let low = (d % 256) as u8;
            frame_distance(high, low) == d
        }),
{
}

} // verus!
