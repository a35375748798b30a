//! Checksum and payload decoding of a received 5-byte frame.
use vstd::prelude::*;

use crate::{DhtError, Reading};

verus! {

/// Which sensor model is on the line; it fixes how the payload is laid out.
#[derive(Debug, Clone, Copy, PartialEq, Eq)]
pub enum Model {
    /// Whole-unit humidity in byte 0 and temperature in byte 2.
    Dht11,
    /// 16-bit humidity in tenths and 15-bit sign-magnitude temperature in tenths.
    Dht22,
}

/// The highest humidity a reading may carry, in tenths of a percent.
pub const MAX_HUMIDITY_TENTHS: u16 = 1000;

/// The checksum the sensor is expected to send: the sum of the four payload
/// bytes, modulo 256.
pub open spec fn checksum_of(p: Seq<u8>) -> u8
    recommends
        p.len() >= 4,
{
    ((p[0] + p[1] + p[2] + p[3]) % 256) as u8
}

/// The 15-bit magnitude of a DHT22 temperature: the low seven bits of byte 2
/// followed by byte 3.
pub open spec fn dht22_magnitude(p: Seq<u8>) -> int
    recommends
        p.len() >= 4,
{
    (p[2] % 128) * 256 + p[3]
}

impl Model {
    /// The humidity that a payload encodes, in tenths of a percent.
    pub open spec fn humidity_of(self, p: Seq<u8>) -> int
        recommends
            p.len() >= 4,
    {
        match self {
            Model::Dht11 => p[0] * 10,
            Model::Dht22 => p[0] * 256 + p[1],
        }
    }

    /// The temperature that a payload encodes, in tenths of a degree Celsius.
    /// A DHT22 sends sign and magnitude: the top bit of byte 2 is the sign.
    pub open spec fn temperature_of(self, p: Seq<u8>) -> int
        recommends
            p.len() >= 4,
    {
        match self {
            Model::Dht11 => p[2] * 10,
            Model::Dht22 => if p[2] >= 128 {
                -dht22_magnitude(p)
            } else {
                dht22_magnitude(p)
            },
        }
    }

    /// Decodes the four payload bytes into (humidity, temperature), both in
    /// tenths; no range check is made here.
    pub fn decode(&self, payload: [u8; 4]) -> (r: (u16, i16))
        ensures
            r.0 as int == self.humidity_of(payload@),
            r.1 as int == self.temperature_of(payload@),
    {
        match self {
            Model::Dht11 => decode_dht11(payload),
            Model::Dht22 => decode_dht22(payload),
        }
    }
}

/// DHT11 payload: byte 0 is the humidity and byte 2 the temperature, in whole
/// units; bytes 1 and 3 are not used.
pub fn decode_dht11(payload: [u8; 4]) -> (r: (u16, i16))
    ensures
        r.0 as int == Model::Dht11.humidity_of(payload@),
        r.1 as int == Model::Dht11.temperature_of(payload@),
{
    let humidity: u16 = payload[0] as u16 * 10;
    let temperature: i16 = payload[2] as i16 * 10;
    (humidity, temperature)
}

/// DHT22 payload: bytes 0 and 1 are the humidity in tenths, big-endian; bytes
/// 2 and 3 the temperature in tenths, with the top bit of byte 2 as its sign.
pub fn decode_dht22(payload: [u8; 4]) -> (r: (u16, i16))
    ensures
        r.0 as int == Model::Dht22.humidity_of(payload@),
        r.1 as int == Model::Dht22.temperature_of(payload@),
{
    let b0: u16 = payload[0] as u16;
    let b1: u16 = payload[1] as u16;
    let b2: u16 = payload[2] as u16;
    let b3: u16 = payload[3] as u16;
    let humidity: u16 = (b0 << 8) | b1;
    let magnitude: u16 = ((b2 & 0x7f) << 8) | b3;
    proof {
        assert((b0 << 8) | b1 == b0 * 256 + b1) by (bit_vector)
            requires
                b0 < 256,
                b1 < 256,
        ;
        assert(((b2 & 0x7f) << 8) | b3 == (b2 % 128) * 256 + b3 && (b2 & 0x80 != 0 <==> b2
            >= 128)) by (bit_vector)
            requires
                b2 < 256,
                b3 < 256,
        ;
    }
    let temperature: i16 = if b2 & 0x80 != 0 {
        -(magnitude as i16)
    } else {
        magnitude as i16
    };
    (humidity, temperature)
}

/// What a read that received `frame` ends with: a checksum mismatch carrying
/// the received and the calculated checksum; else, for a humidity above 100
/// percent, invalid data; else the decoded reading.
pub open spec fn frame_outcome<HE>(model: Model, frame: Seq<u8>, r: Result<Reading, DhtError<HE>>) -> bool
    recommends
        frame.len() == 5,
{
    if frame[4] != checksum_of(frame) {
        r == Err::<Reading, DhtError<HE>>(DhtError::ChecksumMismatch(frame[4], checksum_of(frame)))
    } else if model.humidity_of(frame) > MAX_HUMIDITY_TENTHS {
        r == Err::<Reading, DhtError<HE>>(DhtError::InvalidData)
    } else {
        &&& r matches Ok(reading)
        &&& reading.humidity_spec() == model.humidity_of(frame)
        &&& reading.temperature_spec() == model.temperature_of(frame)
    }
}

/// Computes the checksum of a frame's payload bytes.
pub fn checksum(frame: &[u8; 5]) -> (r: u8)
    ensures
        r == checksum_of(frame@),
{
    let sum: u16 = frame[0] as u16 + frame[1] as u16 + frame[2] as u16 + frame[3] as u16;
    (sum % 256) as u8
}

/// Checks a received frame and turns it into a reading.
///
/// The checksum is verified first, so a corrupt frame never reaches the
/// decoder; a frame that checks out but holds a humidity above 100 percent is
/// refused as invalid.
pub fn evaluate_frame<HE>(model: Model, frame: [u8; 5]) -> (r: Result<Reading, DhtError<HE>>)
    ensures
        frame_outcome(model, frame@, r),
{
    let calculated = checksum(&frame);
    if frame[4] != calculated {
        return Err(DhtError::ChecksumMismatch(frame[4], calculated));
    }
    let payload: [u8; 4] = [frame[0], frame[1], frame[2], frame[3]];
    assert(payload@ =~= frame@.subrange(0, 4));
    let (humidity, temperature) = model.decode(payload);
    if humidity > MAX_HUMIDITY_TENTHS {
        Err(DhtError::InvalidData)
    } else {
        Ok(Reading::new(humidity, temperature))
    }
}

/// A frame whose checksum byte is right is read successfully exactly when
/// its humidity lies within 0 to 100 percent.
pub proof fn checked_frame_reads_iff_humidity_in_range<HE>(
    model: Model,
    frame: Seq<u8>,
    r: Result<Reading, DhtError<HE>>,
)
    requires
        frame.len() == 5,
        frame[4] == checksum_of(frame),
        frame_outcome(model, frame, r),
    ensures
        r is Ok <==> 0 <= model.humidity_of(frame) <= MAX_HUMIDITY_TENTHS,
{
}

/// A frame whose checksum byte differs from the sum of its payload bytes
/// modulo 256 fails with a checksum mismatch that carries both values.
pub proof fn corrupt_frame_reports_mismatch<HE>(
    model: Model,
    frame: Seq<u8>,
    r: Result<Reading, DhtError<HE>>,
)
    requires
        frame.len() == 5,
        frame[4] != ((frame[0] + frame[1] + frame[2] + frame[3]) % 256),
        frame_outcome(model, frame, r),
    ensures
        r == Err::<Reading, DhtError<HE>>(
            DhtError::ChecksumMismatch(frame[4], ((frame[0] + frame[1] + frame[2] + frame[3]) % 256) as u8),
        ),
{
}

/// Decoding is a function of the model and the payload alone: the same bytes
/// always decode to the same humidity and temperature.
pub proof fn decode_is_deterministic(model: Model, p: [u8; 4], q: [u8; 4])
    requires
        p@ == q@,
    ensures
        model.humidity_of(p@) == model.humidity_of(q@),
        model.temperature_of(p@) == model.temperature_of(q@),
{
}

} // verus!
