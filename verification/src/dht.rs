//! Transaction driver and frame decoder for the DHT20 humidity and
//! temperature sensor.
//!
//! The driver speaks the sensor's three-phase protocol over a two-wire bus:
//! a status read that re-derives the calibration state on every cycle (and
//! re-issues the calibration commands when the status bits ask for it), the
//! measurement trigger followed by the fixed settle wait, and the eight-byte
//! frame read. The frame packs two 20-bit fixed-point values; decoding them
//! is pure integer arithmetic, carried out in micro-units.

use vstd::prelude::*;

use crate::shared_delay::WaitMs;
use crate::utils::MICROS_PER_UNIT;

verus! {

/// The sensor's fixed seven-bit bus address.
pub const DHT20_ADDRESS: u8 = 0x38;

/// Both status-register calibration bits; a reading is valid only when both
/// are set.
pub const CALIBRATION_MASK: u8 = 0x18;

/// The raw transactions the driver needs from a two-wire bus. The bus is a
/// physical transport: nothing can be promised of what it answers, only
/// that each call either moves the named bytes or reports its own error.
pub trait I2cBus {
    /// The transport's error.
    type BusError;

    /// Write the bytes to the device at `address`.
    fn write(&mut self, address: u8, bytes: &[u8]) -> Result<(), Self::BusError>;

    /// Read one byte from the device at `address`.
    fn read_byte(&mut self, address: u8) -> Result<u8, Self::BusError>;

    /// Read an eight-byte frame from the device at `address`.
    fn read_frame(&mut self, address: u8) -> Result<[u8; 8], Self::BusError>;
}

/// One decoded measurement, in micro-units: `hum` counts millionths of a
/// percent relative humidity, `temp` millionths of a degree Celsius.
pub struct Reading {
    pub hum: u64,
    pub temp: i64,
}

impl Reading {
    /// What every decoded frame yields: humidity below one hundred percent
    /// of micro-units, temperature within the sensor's representable span.
    pub open spec fn wf(&self) -> bool {
        &&& self.hum < 100 * (MICROS_PER_UNIT as nat)
        &&& -50 * (MICROS_PER_UNIT as int) <= self.temp
        &&& self.temp < 150 * (MICROS_PER_UNIT as int)
    }
}

/// The driver's errors: a failed bus transaction carrying the transport's
/// own error, or a read issued before the sensor could settle.
pub enum Error<E> {
    I2cError(E),
    ReadTooFast,
}

/// The 20-bit humidity field of a frame: byte one, byte two, and the high
/// nibble of byte three.
pub open spec fn spec_humidity_raw(d1: u8, d2: u8, d3: u8) -> u32 {
    (((d1 as u32) << 8 | (d2 as u32)) << 4) | ((d3 >> 4) as u32)
}

/// The 20-bit temperature field of a frame: the low nibble of byte three,
/// byte four, and byte five.
pub open spec fn spec_temperature_raw(d3: u8, d4: u8, d5: u8) -> u32 {
    ((((d3 & 0x0F) as u32) << 8 | (d4 as u32)) << 8) | (d5 as u32)
}

/// Micro-percent relative humidity from the raw 20-bit field: the fraction
/// `raw / 2^20` of one hundred percent, floored to micro-units.
pub open spec fn spec_humidity_micros(raw: u32) -> u64 {
    ((raw as nat * 100 * (MICROS_PER_UNIT as nat)) / 0x100000) as u64
}

/// Micro-degrees Celsius from the raw 20-bit field: the fraction
/// `raw / 2^20` of a 200-degree span, shifted down by 50 degrees.
pub open spec fn spec_temperature_micros(raw: u32) -> i64 {
    ((raw as int * 200 * (MICROS_PER_UNIT as int)) / 0x100000 - 50 * (
    MICROS_PER_UNIT as int)) as i64
}

/// The reading an eight-byte frame decodes to.
pub open spec fn spec_decode(f: Seq<u8>) -> Reading
    recommends
        f.len() == 8,
{
    Reading {
        hum: spec_humidity_micros(spec_humidity_raw(f[1], f[2], f[3])),
        temp: spec_temperature_micros(spec_temperature_raw(f[3], f[4], f[5])),
    }
}

/// Extract the 20-bit humidity field from a frame.
pub fn humidity_raw(frame: &[u8; 8]) -> (raw: u32)
    ensures
        raw == spec_humidity_raw(frame[1], frame[2], frame[3]),
        raw < 0x100000,
{
    let d1 = frame[1];
    let d2 = frame[2];
    let d3 = frame[3];
    let mut raw: u32 = (d1 as u32) << 8;
    raw = raw | (d2 as u32);
    raw = raw << 4;
    raw = raw | ((d3 >> 4) as u32);
    proof {
        assert(((((d1 as u32) << 8 | (d2 as u32)) << 4) | ((d3 >> 4) as u32)) < 0x100000)
            by (bit_vector);
    }
    raw
}

/// Extract the 20-bit temperature field from a frame.
pub fn temperature_raw(frame: &[u8; 8]) -> (raw: u32)
    ensures
        raw == spec_temperature_raw(frame[3], frame[4], frame[5]),
        raw < 0x100000,
{
    let d3 = frame[3];
    let d4 = frame[4];
    let d5 = frame[5];
    let mut raw: u32 = ((d3 & 0x0F) as u32) << 8;
    raw = raw | (d4 as u32);
    raw = raw << 8;
    raw = raw | (d5 as u32);
    proof {
        assert((((((d3 & 0x0F) as u32) << 8 | (d4 as u32)) << 8) | (d5 as u32)) < 0x100000)
            by (bit_vector);
    }
    raw
}

/// Convert the raw humidity field to micro-percent.
pub fn humidity_micros(raw: u32) -> (hum: u64)
    requires
        raw < 0x100000,
    ensures
        hum == spec_humidity_micros(raw),
        hum < 100 * MICROS_PER_UNIT,
{
    proof {
        vstd::arithmetic::div_mod::lemma_div_is_ordered(
            raw as int * 100_000_000,
            (0xFFFFF as int) * 100_000_000,
            0x100000,
        );
    }
    ((raw as u64) * 100_000_000) / 0x100000
}

/// Convert the raw temperature field to micro-degrees.
pub fn temperature_micros(raw: u32) -> (temp: i64)
    requires
        raw < 0x100000,
    ensures
        temp == spec_temperature_micros(raw),
        -50 * (MICROS_PER_UNIT as int) <= temp < 150 * (MICROS_PER_UNIT as int),
{
    proof {
        vstd::arithmetic::div_mod::lemma_div_is_ordered(
            raw as int * 200_000_000,
            (0xFFFFF as int) * 200_000_000,
            0x100000,
        );
        vstd::arithmetic::div_mod::lemma_div_pos_is_pos(raw as int * 200_000_000, 0x100000);
    }
    let scaled = ((raw as u64) * 200_000_000) / 0x100000;
    (scaled as i64) - 50_000_000
}

/// Decode an eight-byte measurement frame into a reading, by the sensor's
/// fixed-point packing rules.
pub fn decode_frame(frame: &[u8; 8]) -> (reading: Reading)
    ensures
        reading == spec_decode(frame@),
        reading.wf(),
{
    let hum = humidity_micros(humidity_raw(frame));
    let temp = temperature_micros(temperature_raw(frame));
    Reading { hum, temp }
}

/// The DHT20 driver: a bus handle and the device address. It caches nothing
/// about the sensor — every read re-derives the calibration state from the
/// status register, so the driver heals itself after an external reset.
pub struct Dht20<I2C> {
    i2c: I2C,
    address: u8,
}

impl<I2C: I2cBus> Dht20<I2C> {
    /// The bus address the driver was created with.
    pub closed spec fn spec_address(&self) -> u8 {
        self.address
    }

    /// Create a driver for the device at `address`.
    pub fn new(i2c: I2C, address: u8) -> (s: Self)
        ensures
            s.spec_address() == address,
    {
        Dht20 { i2c, address }
    }

    /// Whether the status byte demands a calibration reset: it does exactly
    /// when the two calibration bits are not both set.
    pub fn needs_calibration(status: u8) -> (r: bool)
        ensures
            r == (status & CALIBRATION_MASK != CALIBRATION_MASK),
    {
        status & CALIBRATION_MASK != CALIBRATION_MASK
    }

    /// One full measurement cycle: re-check calibration, trigger a
    /// measurement, wait the fixed settle time, read and decode the frame.
    /// Any bus failure aborts the cycle and surfaces the transport's error;
    /// a returned reading is always the decode of the eight bytes the bus
    /// answered, and therefore well formed.
    pub fn read<D: WaitMs>(&mut self, delay: &mut D) -> (r: Result<
        Reading,
        <I2C as I2cBus>::BusError,
    >)
        ensures
            r matches Ok(reading) ==> reading.wf() && (exists|f: Seq<u8>|
                f.len() == 8 && reading == spec_decode(f)),
    {
        self.reset()?;
        // request a measurement
        self.write_data(&[0xAC, 0x33, 0])?;
        delay.wait_ms(80);
        // read the frame
        let data = self.read_data()?;
        let reading = decode_frame(&data);
        proof {
            assert(data@.len() == 8 && reading == spec_decode(data@));
        }
        Ok(reading)
    }

    /// Re-derive the calibration state: read the status register and, when
    /// the calibration bits are not both set, issue the three fixed
    /// calibration commands.
    fn reset(&mut self) -> (r: Result<(), <I2C as I2cBus>::BusError>) {
        let status = self.read_status()?;
        if Self::needs_calibration(status) {
            self.write_data(&[0x1B, 0, 0])?;
            self.write_data(&[0x1C, 0, 0])?;
            self.write_data(&[0x1E, 0, 0])?;
        }
        Ok(())
    }

    /// Read the eight-byte measurement frame.
    fn read_data(&mut self) -> (r: Result<[u8; 8], <I2C as I2cBus>::BusError>) {
        self.i2c.read_frame(self.address)
    }

    /// Read the one-byte status register.
    fn read_status(&mut self) -> (r: Result<u8, <I2C as I2cBus>::BusError>) {
        self.i2c.read_byte(self.address)
    }

    /// Write a command to the device.
    fn write_data(&mut self, data: &[u8]) -> (r: Result<(), <I2C as I2cBus>::BusError>) {
        self.i2c.write(self.address, data)
    }
}

/// The sentinel humidity the main loop shows for a failed read: above the
/// valid band, so the fault is visible.
pub const FAULT_HUMIDITY_MICROS: u64 = 101_000_000;

/// One acquisition for the main loop: a successful read yields the decoded
/// humidity and no fault; a failed read yields the out-of-band sentinel and
/// the fault flag, and the loop goes on to retry next cycle.
pub fn read_sensor<I2C: I2cBus, D: WaitMs>(sensor: &mut Dht20<I2C>, delay: &mut D) -> (r: (
    u64,
    bool,
))
    ensures
        r.1 ==> r.0 == FAULT_HUMIDITY_MICROS,
        !r.1 ==> r.0 < 100 * MICROS_PER_UNIT && (exists|f: Seq<u8>|
            f.len() == 8 && r.0 == spec_decode(f).hum),
{
    match sensor.read(delay) {
        Ok(reading) => (reading.hum, false),
        Err(_) => (FAULT_HUMIDITY_MICROS, true),
    }
}

} // verus!
