//! Platform-agnostic driver for the DHT11 temperature and humidity sensor.
//!
//! The sensor reports one measurement per request over a single open-drain
//! line: a start handshake, forty pulse-width-encoded bits forming a 5-byte
//! frame, and a trailing pulse. The last frame byte is a truncated 8-bit sum
//! of the first four; a measurement is only ever produced from a frame whose
//! checksum matches.
//!
//! The host platform supplies the two capabilities the protocol needs — the
//! digital line itself and a blocking delay source — through the [`Line`] and
//! [`Delay`] traits.

use vstd::prelude::*;

verus! {

/// How long to wait for a pulse on the data line (in microseconds).
const TIMEOUT_US: u16 = 1_000;

/// Error type for this crate.
#[derive(Debug, PartialEq, Eq)]
pub enum Error<E> {
    /// Timeout during communication.
    Timeout,
    /// CRC mismatch.
    CrcMismatch,
    /// GPIO error.
    Gpio(E),
}

/// Results of a reading performed by the DHT11, in fixed point.
///
/// Both fields carry tenths, the full resolution the sensor reports:
/// a temperature of `-15.2` °C is stored as `-152`, a relative humidity
/// of `50.0` % as `500`.
#[derive(Clone, Copy, Debug, PartialEq, Eq, Structural)]
pub struct Measurement {
    /// The measured temperature, in tenths of a degree Celsius.
    pub temperature: i16,
    /// The measured humidity, in tenths of a percent.
    pub humidity: u16,
}

/// The truncated 8-bit sum of the four data bytes of a frame.
pub open spec fn spec_checksum(b0: u8, b1: u8, b2: u8, b3: u8) -> u8 {
    ((b0 + b1 + b2 + b3) % 256) as u8
}

/// A 5-byte raw frame is valid when its checksum byte equals the truncated
/// sum of the four data bytes before it.
pub open spec fn frame_valid(f: Seq<u8>) -> bool {
    &&& f.len() == 5
    &&& f[4] == spec_checksum(f[0], f[1], f[2], f[3])
}

/// The humidity a frame encodes, in tenths of a percent: an integer-percent
/// byte followed by a tenths byte (the tenths byte is not capped at 9).
pub open spec fn spec_humidity(b0: u8, b1: u8) -> u16 {
    (b0 * 10 + b1) as u16
}

/// The temperature a frame encodes, in tenths of a degree, sign-magnitude:
/// the low 7 bits of the integer byte plus a tenths byte give the magnitude,
/// negated when the top bit of the integer byte is set.
pub open spec fn spec_temperature(b2: u8, b3: u8) -> i16 {
    if b2 & 0x80 != 0 {
        (0 - ((b2 & 0x7f) * 10 + b3)) as i16
    } else {
        ((b2 & 0x7f) * 10 + b3) as i16
    }
}

/// The measurement a valid frame encodes.
pub open spec fn spec_decode(f: Seq<u8>) -> Measurement {
    Measurement {
        temperature: spec_temperature(f[2], f[3]),
        humidity: spec_humidity(f[0], f[1]),
    }
}

/// Computes the truncated 8-bit checksum over the four data bytes of a frame.
pub fn checksum(b0: u8, b1: u8, b2: u8, b3: u8) -> (crc: u8)
    ensures
        crc == spec_checksum(b0, b1, b2, b3),
{
    let sum: u16 = b0 as u16 + b1 as u16 + b2 as u16 + b3 as u16;
    (sum % 256) as u8
}

/// A bit decodes to `1` exactly when its high pulse outlasted its low pulse.
pub open spec fn spec_bit(low: u16, high: u16) -> bool {
    high > low
}

/// Decodes one bit from the widths of its two pulses: `true` if and only if
/// the high-phase width strictly exceeds the low-phase width, so equal
/// widths decode to `false`.
pub fn decode_bit(low: u16, high: u16) -> (bit: bool)
    ensures
        bit == spec_bit(low, high),
{
    high > low
}

/// Validates a raw frame's checksum and decodes its two fields.
///
/// Returns the encoded measurement when the checksum byte matches the
/// truncated sum of the four data bytes, and `Error::CrcMismatch` otherwise.
pub fn decode_frame<E>(frame: &[u8; 5]) -> (r: Result<Measurement, Error<E>>)
    ensures
        frame_valid(frame@) ==> r == Ok::<Measurement, Error<E>>(spec_decode(frame@)),
        !frame_valid(frame@) ==> r == Err::<Measurement, Error<E>>(Error::<E>::CrcMismatch),
{
    let crc = checksum(frame[0], frame[1], frame[2], frame[3]);
    if crc != frame[4] {
        return Err(Error::CrcMismatch);
    }

    let b2 = frame[2];
    assert(b2 & 0x7f <= 0x7f) by (bit_vector);
    let magnitude: i16 = (b2 & 0x7f) as i16 * 10 + frame[3] as i16;
    let temperature: i16 = if b2 & 0x80 != 0 {
        0 - magnitude
    } else {
        magnitude
    };
    let humidity: u16 = frame[0] as u16 * 10 + frame[1] as u16;

    Ok(Measurement { temperature, humidity })
}

/// The single-wire line capability the host platform supplies: an
/// open-drain digital line that can be driven low, released so an external
/// pull-up raises it, and sampled. Every operation may fail with the
/// platform's own error type, which the driver carries through unchanged.
pub trait Line {
    /// The error type reported by the underlying line.
    type Error;

    /// Drives the line low.
    fn set_low(&mut self) -> Result<(), Self::Error>;

    /// Releases the line, letting the external pull-up raise it high.
    fn set_high(&mut self) -> Result<(), Self::Error>;

    /// Samples the current level of the line: `true` when it is high.
    fn is_high(&self) -> Result<bool, Self::Error>;
}

/// The blocking delay capability the host platform supplies: busy waits of
/// whole microseconds and whole milliseconds. Waiting cannot fail.
pub trait Delay {
    /// Blocks the calling context for the given number of microseconds.
    fn delay_us(&mut self, us: u16);

    /// Blocks the calling context for the given number of milliseconds.
    fn delay_ms(&mut self, ms: u16);
}

/// Wraps a raw line-capability result, carrying a line failure through
/// unchanged as `Error::Gpio` — never as a timeout or a checksum error.
pub fn wrap_line_error<T, E>(r: Result<T, E>) -> (out: Result<T, Error<E>>)
    ensures
        r matches Ok(v) ==> out == Ok::<T, Error<E>>(v),
        r matches Err(e) ==> out == Err::<T, Error<E>>(Error::Gpio(e)),
{
    match r {
        Ok(v) => Ok(v),
        Err(e) => Err(Error::Gpio(e)),
    }
}

/// A DHT11 device.
pub struct Dht11<GPIO> {
    /// The concrete line implementation.
    gpio: GPIO,
}

impl<GPIO> View for Dht11<GPIO> {
    type V = GPIO;

    /// A driver is viewed as the line capability it wraps.
    closed spec fn view(&self) -> GPIO {
        self.gpio
    }
}

/// A driver carries no state beside the wrapped line: two drivers over the
/// same line are equal, so constructing a driver from a released line gives
/// back a driver indistinguishable from the one that released it.
pub proof fn lemma_driver_is_its_line<GPIO>(a: Dht11<GPIO>, b: Dht11<GPIO>)
    requires
        a@ == b@,
    ensures
        a == b,
{
}

impl<GPIO: Line> Dht11<GPIO> {
    /// Creates a new DHT11 device connected to the specified line,
    /// taking ownership of it. No I/O is performed.
    pub fn new(gpio: GPIO) -> (d: Self)
        ensures
            d@ == gpio,
    {
        Dht11 { gpio }
    }

    /// Destroys the driver, returning the wrapped line instance unchanged.
    pub fn destroy(self) -> (gpio: GPIO)
        ensures
            gpio == self@,
    {
        self.gpio
    }

    /// Performs a reading of the sensor.
    ///
    /// Drives the start handshake, decodes forty pulse-width bits into a
    /// 5-byte frame, consumes the trailing pulse, and validates the frame
    /// before decoding it: a measurement is only ever produced from a frame
    /// whose checksum byte matches the truncated sum of its data bytes.
    /// A failed step aborts the frame and surfaces its error verbatim.
    pub fn perform_measurement<D: Delay>(&mut self, delay: &mut D) -> (r: Result<
        Measurement,
        Error<GPIO::Error>,
    >)
        ensures
            r matches Ok(m) ==> exists|f: Seq<u8>| frame_valid(f) && m == spec_decode(f),
    {
        let mut data: [u8; 5] = [0; 5];

        // Perform initial handshake
        match self.perform_handshake(delay) {
            Ok(()) => {}
            Err(e) => {
                return Err(e);
            }
        }

        // Read bits
        let mut i: usize = 0;
        while i < 40
            invariant
                i <= 40,
            decreases 40 - i,
        {
            let idx = i / 8;
            data[idx] = data[idx] << 1;
            match self.read_bit(delay) {
                Ok(true) => {
                    data[idx] = data[idx] | 1;
                }
                Ok(false) => {}
                Err(e) => {
                    return Err(e);
                }
            }
            i = i + 1;
        }

        // Finally wait for line to go idle again.
        match self.wait_for_pulse(true, delay) {
            Ok(_) => {}
            Err(e) => {
                return Err(e);
            }
        }

        // Check CRC and decode the two fields.
        decode_frame(&data)
    }

    fn perform_handshake<D: Delay>(&mut self, delay: &mut D) -> (r: Result<(), Error<GPIO::Error>>)
        ensures
            r matches Err(e) ==> !(e is CrcMismatch),
    {
        // Set pin as floating to let pull-up raise the line and start the
        // reading process.
        match self.set_input() {
            Ok(()) => {}
            Err(e) => {
                return Err(e);
            }
        }
        delay.delay_ms(1);

        // Pull line low for at least 18ms to send a start command.
        match self.set_low() {
            Ok(()) => {}
            Err(e) => {
                return Err(e);
            }
        }
        delay.delay_ms(20);

        // Restore floating
        match self.set_input() {
            Ok(()) => {}
            Err(e) => {
                return Err(e);
            }
        }
        delay.delay_us(40);

        // As a response, the device pulls the line low for 80us and then
        // high for 80us; the shape of that acknowledgment pulse pair is
        // consumed like a bit and its value discarded.
        match self.read_bit(delay) {
            Ok(_) => {}
            Err(e) => {
                return Err(e);
            }
        }

        Ok(())
    }

    fn read_bit<D: Delay>(&mut self, delay: &mut D) -> (r: Result<bool, Error<GPIO::Error>>)
        ensures
            r matches Err(e) ==> !(e is CrcMismatch),
    {
        let low = match self.wait_for_pulse(true, delay) {
            Ok(width) => width,
            Err(e) => {
                return Err(e);
            }
        };
        let high = match self.wait_for_pulse(false, delay) {
            Ok(width) => width,
            Err(e) => {
                return Err(e);
            }
        };
        Ok(decode_bit(low, high))
    }

    /// Busy-polls the line, one sample per microsecond, until it reaches the
    /// target level, and returns the number of polling increments that
    /// passed first — the proxy for the pulse's width. Gives up with
    /// `Error::Timeout` once the counter would pass `TIMEOUT_US`, so a
    /// returned width never exceeds it.
    fn wait_for_pulse<D: Delay>(&mut self, level: bool, delay: &mut D) -> (r: Result<
        u16,
        Error<GPIO::Error>,
    >)
        ensures
            r matches Ok(width) ==> width <= TIMEOUT_US,
            r matches Err(e) ==> (e is Timeout || e is Gpio),
    {
        let mut count: u16 = 0;

        loop
            invariant
                count <= TIMEOUT_US,
            decreases TIMEOUT_US - count,
        {
            let sample = match self.read_line() {
                Ok(level_now) => level_now,
                Err(e) => {
                    return Err(e);
                }
            };
            if sample == level {
                return Ok(count);
            }
            count += 1;
            if count > TIMEOUT_US {
                return Err(Error::Timeout);
            }
            delay.delay_us(1);
        }
    }

    /// Releases the line to its floating (input) state; a line failure
    /// comes back as `Error::Gpio`.
    fn set_input(&mut self) -> (r: Result<(), Error<GPIO::Error>>)
        ensures
            r matches Err(e) ==> e is Gpio,
    {
        wrap_line_error(self.gpio.set_high())
    }

    /// Drives the line low; a line failure comes back as `Error::Gpio`.
    fn set_low(&mut self) -> (r: Result<(), Error<GPIO::Error>>)
        ensures
            r matches Err(e) ==> e is Gpio,
    {
        wrap_line_error(self.gpio.set_low())
    }

    /// Samples the line; a line failure comes back as `Error::Gpio`.
    fn read_line(&self) -> (r: Result<bool, Error<GPIO::Error>>)
        ensures
            r matches Err(e) ==> e is Gpio,
    {
        wrap_line_error(self.gpio.is_high())
    }
}

} // verus!
