//! Driver logic for single-wire DHT11 / DHT22 humidity and temperature sensors.
//!
//! The library holds every decision of a read: the wake-up sequence, the
//! presence handshake, the timed sampling of the 40 data bits, the checksum
//! and the decoding of the payload. It never touches hardware itself: a
//! [`protocol::Transfer`] hands out one [`protocol::Command`] at a time and is
//! told what came of it, so whatever owns the pin and the delay runs the loop.
use vstd::prelude::*;

pub mod decode;
pub mod protocol;

verus! {

/// A validated sensor reading, in tenths of a unit.
///
/// The humidity is a percentage from `0` to `1000` tenths; the temperature is
/// in tenths of a degree Celsius.
#[derive(Debug, Clone, Copy, PartialEq, Eq)]
pub struct Reading {
    humidity: u16,
    temperature: i16,
}

impl Reading {
    /// The humidity in tenths of a percent; never above `1000`.
    pub closed spec fn humidity_spec(&self) -> int {
        self.humidity as int
    }

    /// The temperature in tenths of a degree Celsius.
    pub closed spec fn temperature_spec(&self) -> int {
        self.temperature as int
    }

    /// Builds a reading; the humidity must lie in `0..=1000` tenths.
    pub fn new(humidity: u16, temperature: i16) -> (r: Reading)
        requires
            humidity <= 1000,
        ensures
            r.humidity_spec() == humidity as int,
            r.temperature_spec() == temperature as int,
    {
        Reading { humidity, temperature }
    }

    /// Returns the ambient humidity, in tenths of a percent (`0..=1000`).
    pub fn humidity_tenths(&self) -> (r: u16)
        ensures
            r as int == self.humidity_spec(),
    {
        self.humidity
    }

    /// Returns the ambient temperature, in tenths of a degree Celsius.
    pub fn temperature_tenths(&self) -> (r: i16)
        ensures
            r as int == self.temperature_spec(),
    {
        self.temperature
    }
}

/// The ways a read can fail.
#[derive(Debug, Clone, PartialEq, Eq)]
pub enum DhtError<HE> {
    /// The sensor did not answer the wake-up sequence.
    NotPresent,
    /// The frame arrived but its checksum byte disagrees with the payload:
    /// (received, calculated).
    ChecksumMismatch(u8, u8),
    /// The frame checked out but holds a humidity outside `0..=100` percent.
    InvalidData,
    /// The sensor started answering but a bit transition never came.
    Timeout,
    /// The pin reported a fault, passed on unchanged.
    PinError(HE),
}

impl<HE> From<HE> for DhtError<HE> {
    fn from(error: HE) -> (r: Self)
        ensures
            r == DhtError::PinError(error),
    {
        DhtError::PinError(error)
    }
}

impl<HE> vstd::std_specs::convert::FromSpecImpl<HE> for DhtError<HE> {
    open spec fn obeys_from_spec() -> bool {
        true
    }

    open spec fn from_spec(v: HE) -> Self {
        DhtError::PinError(v)
    }
}

} // verus!
