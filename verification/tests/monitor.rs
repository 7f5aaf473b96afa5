//! Behavioral tests for the humidity-monitor core: frame decoding, rounding,
//! formatting, bar-graph thresholds, elapsed-tick arithmetic, and the full
//! sensor transaction against a scripted bus.

use humidity_monitor::dht::{
    decode_frame, humidity_raw, read_sensor, temperature_raw, Dht20, Error, I2cBus,
    DHT20_ADDRESS, FAULT_HUMIDITY_MICROS,
};
use humidity_monitor::leds::{clear_levels, levels_for, lit_count};
use humidity_monitor::shared_delay::{elapsed_ticks, ticks_for, WaitMs};
use humidity_monitor::utils::{format_micros, humidity_text, pow10, round_to_decimal};

use std::cell::RefCell;
use std::rc::Rc;

/// What the scripted bus answers and records.
struct BusState {
    status: u8,
    frame: [u8; 8],
    fail: bool,
    writes: Vec<Vec<u8>>,
    addresses: Vec<u8>,
}

/// A scripted two-wire bus: answers the status byte and the frame from its
/// shared state, records every write there, and can be told to fail. The
/// test keeps its own handle on the state to inspect and steer it.
#[derive(Clone)]
struct MockBus(Rc<RefCell<BusState>>);

fn mock_bus(status: u8, frame: [u8; 8]) -> (MockBus, Rc<RefCell<BusState>>) {
    let state = Rc::new(RefCell::new(BusState {
        status,
        frame,
        fail: false,
        writes: Vec::new(),
        addresses: Vec::new(),
    }));
    (MockBus(state.clone()), state)
}

impl I2cBus for MockBus {
    type BusError = &'static str;

    fn write(&mut self, address: u8, bytes: &[u8]) -> Result<(), Self::BusError> {
        let mut state = self.0.borrow_mut();
        if state.fail {
            return Err("bus fault");
        }
        state.addresses.push(address);
        state.writes.push(bytes.to_vec());
        Ok(())
    }

    fn read_byte(&mut self, address: u8) -> Result<u8, Self::BusError> {
        let mut state = self.0.borrow_mut();
        if state.fail {
            return Err("bus fault");
        }
        state.addresses.push(address);
        Ok(state.status)
    }

    fn read_frame(&mut self, address: u8) -> Result<[u8; 8], Self::BusError> {
        let mut state = self.0.borrow_mut();
        if state.fail {
            return Err("bus fault");
        }
        state.addresses.push(address);
        Ok(state.frame)
    }
}

/// A wait that passes no time: the settle delay is irrelevant off-hardware.
struct NoWait;

impl WaitMs for NoWait {
    fn wait_ms(&mut self, _ms: u16) {}
}

const ZERO_FRAME: [u8; 8] = [0, 0, 0, 0, 0, 0, 0, 0];

#[test]
fn decode_zero_frame() {
    let reading = decode_frame(&ZERO_FRAME);
    assert_eq!(reading.hum, 0);
    assert_eq!(reading.temp, -50_000_000);
}

#[test]
fn decode_documented_frame() {
    let frame: [u8; 8] = [0x00, 0x19, 0x99, 0x9A, 0x00, 0x00, 0x00, 0x00];
    assert_eq!(humidity_raw(&frame), 0x19999);
    let reading = decode_frame(&frame);
    // 0x19999 / 2^20 of one hundred percent, floored to micro-percent
    assert_eq!(reading.hum, 9_999_942);
    // temperature field is 0xA_00_00 from the low nibble of byte three
    assert_eq!(temperature_raw(&frame), 0xA0000);
    assert_eq!(reading.temp, (0xA0000u64 * 200_000_000 / 0x100000) as i64 - 50_000_000);
}

#[test]
fn decode_all_ones_frame() {
    let frame: [u8; 8] = [0xFF; 8];
    assert_eq!(humidity_raw(&frame), 0xFFFFF);
    assert_eq!(temperature_raw(&frame), 0xFFFFF);
    let reading = decode_frame(&frame);
    assert_eq!(reading.hum, 0xFFFFFu64 * 100_000_000 / 0x100000);
    assert!(reading.hum < 100_000_000);
    assert!(reading.temp < 150_000_000);
}

#[test]
fn rounding_half_up() {
    assert_eq!(round_to_decimal(55_320_000, 1), 55_300_000);
    assert_eq!(round_to_decimal(55_360_000, 1), 55_400_000);
    assert_eq!(round_to_decimal(55_360_000, 0), 55_000_000);
    assert_eq!(round_to_decimal(55_500_000, 0), 56_000_000);
    assert_eq!(round_to_decimal(55_499_999, 0), 55_000_000);
}

#[test]
fn rounding_finer_than_micro_is_identity() {
    assert_eq!(round_to_decimal(55_320_001, 6), 55_320_001);
    assert_eq!(round_to_decimal(55_320_001, 9), 55_320_001);
}

#[test]
fn rounding_of_zero() {
    assert_eq!(round_to_decimal(0, 0), 0);
    assert_eq!(round_to_decimal(0, 1), 0);
}

#[test]
fn powers_of_ten() {
    assert_eq!(pow10(0), 1);
    assert_eq!(pow10(3), 1_000);
    assert_eq!(pow10(6), 1_000_000);
    assert_eq!(pow10(19), 10_000_000_000_000_000_000);
}

#[test]
fn formatting_shows_requested_digits() {
    assert_eq!(format_micros(0, 1), b"0.0".to_vec());
    assert_eq!(format_micros(55_300_000, 1), b"55.3".to_vec());
    assert_eq!(format_micros(55_300_000, 0), b"55.3".to_vec());
    assert_eq!(format_micros(101_000_000, 1), b"101.0".to_vec());
    assert_eq!(format_micros(9_999_942, 3), b"9.999".to_vec());
    assert_eq!(format_micros(123_456_789, 6), b"123.456789".to_vec());
}

#[test]
fn humidity_text_rounds_before_formatting() {
    assert_eq!(humidity_text(0, 1), b"0.0".to_vec());
    assert_eq!(humidity_text(55_320_000, 1), b"55.3".to_vec());
    assert_eq!(humidity_text(55_360_000, 1), b"55.4".to_vec());
    // 9.999942 percent rounds up to one decimal place
    assert_eq!(humidity_text(9_999_942, 1), b"10.0".to_vec());
}

#[test]
fn bar_thresholds_are_cumulative() {
    let humidities: [u64; 5] =
        [10_000_000, 30_000_000, 50_000_000, 70_000_000, 90_000_000];
    for (i, h) in humidities.iter().enumerate() {
        let levels = levels_for(*h);
        assert_eq!(lit_count(&levels), (i + 1) as u8);
    }
}

#[test]
fn bar_dark_at_zero_and_cleared() {
    let cleared = clear_levels();
    assert_eq!(lit_count(&cleared), 0);
    let at_zero = levels_for(0);
    assert_eq!(lit_count(&at_zero), 0);
    assert!(!at_zero.red && !at_zero.yellow && !at_zero.green);
    assert!(!at_zero.yellow2 && !at_zero.red2);
}

#[test]
fn bar_boundary_values() {
    // exactly at a threshold the element stays dark; just above it lights
    assert_eq!(lit_count(&levels_for(20_000_000)), 1);
    assert_eq!(lit_count(&levels_for(20_000_001)), 2);
    assert_eq!(lit_count(&levels_for(80_000_000)), 4);
    assert_eq!(lit_count(&levels_for(80_000_001)), 5);
    // the fault sentinel lights the whole bar
    assert_eq!(lit_count(&levels_for(FAULT_HUMIDITY_MICROS)), 5);
}

#[test]
fn zero_wait_takes_zero_ticks() {
    assert_eq!(ticks_for(0, 125_000_000), 0);
    assert_eq!(ticks_for(0, 1), 0);
}

#[test]
fn tick_conversion_truncates_per_millisecond() {
    assert_eq!(ticks_for(1, 125_000_000), 125_000);
    assert_eq!(ticks_for(80, 125_000_000), 10_000_000);
    // a frequency below one kilohertz truncates to zero ticks per millisecond
    assert_eq!(ticks_for(500, 999), 0);
}

#[test]
fn elapsed_ticks_across_wrap() {
    // the monotonic reading wrapped between the two snapshots
    assert_eq!(elapsed_ticks(6, u32::MAX - 3), 10);
    assert_eq!(elapsed_ticks(0, u32::MAX), 1);
    // and without a wrap it is plain subtraction
    assert_eq!(elapsed_ticks(10, 4), 6);
    assert_eq!(elapsed_ticks(7, 7), 0);
}

#[test]
fn read_decodes_the_answered_frame() {
    let frame: [u8; 8] = [0x00, 0x19, 0x99, 0x9A, 0x00, 0x00, 0x00, 0x00];
    let (bus, _state) = mock_bus(0x18, frame);
    let mut sensor = Dht20::new(bus, DHT20_ADDRESS);
    let reading = sensor.read(&mut NoWait).expect("scripted bus cannot fail");
    assert_eq!(reading.hum, 9_999_942);
}

#[test]
fn calibrated_sensor_gets_only_the_trigger() {
    let (bus, state) = mock_bus(0x18, ZERO_FRAME);
    let mut sensor = Dht20::new(bus, DHT20_ADDRESS);
    let reading = sensor.read(&mut NoWait).expect("scripted bus cannot fail");
    assert_eq!(reading.hum, 0);
    assert_eq!(reading.temp, -50_000_000);
    assert_eq!(state.borrow().writes, vec![vec![0xAC, 0x33, 0x00]]);
    assert!(state.borrow().addresses.iter().all(|a| *a == DHT20_ADDRESS));
}

#[test]
fn uncalibrated_sensor_gets_the_reset_sequence() {
    // calibration bits not both set: the three reset commands come first
    let (bus, state) = mock_bus(0x10, ZERO_FRAME);
    let mut sensor = Dht20::new(bus, DHT20_ADDRESS);
    sensor.read(&mut NoWait).expect("scripted bus cannot fail");
    assert_eq!(
        state.borrow().writes,
        vec![
            vec![0x1B, 0x00, 0x00],
            vec![0x1C, 0x00, 0x00],
            vec![0x1E, 0x00, 0x00],
            vec![0xAC, 0x33, 0x00],
        ]
    );
}

#[test]
fn needs_calibration_checks_both_bits() {
    assert!(!Dht20::<MockBus>::needs_calibration(0x18));
    assert!(!Dht20::<MockBus>::needs_calibration(0xFF));
    assert!(Dht20::<MockBus>::needs_calibration(0x10));
    assert!(Dht20::<MockBus>::needs_calibration(0x08));
    assert!(Dht20::<MockBus>::needs_calibration(0x00));
}

#[test]
fn failed_bus_surfaces_its_error() {
    let (bus, state) = mock_bus(0x18, ZERO_FRAME);
    state.borrow_mut().fail = true;
    let mut sensor = Dht20::new(bus, DHT20_ADDRESS);
    let r = sensor.read(&mut NoWait);
    assert_eq!(r.err(), Some("bus fault"));
}

#[test]
fn driver_error_wraps_the_transport_error() {
    let e: Error<&'static str> = Error::I2cError("bus fault");
    assert!(matches!(e, Error::I2cError("bus fault")));
    let e: Error<&'static str> = Error::ReadTooFast;
    assert!(matches!(e, Error::ReadTooFast));
}

#[test]
fn end_to_end_zero_frame_lights_nothing() {
    // the bus answers the zero frame: humidity decodes to 0.0
    let (bus, _state) = mock_bus(0x18, ZERO_FRAME);
    let mut sensor = Dht20::new(bus, DHT20_ADDRESS);
    let (hum, fault) = read_sensor(&mut sensor, &mut NoWait);
    assert!(!fault);
    assert_eq!(hum, 0);
    // the bar graph lights zero elements
    assert_eq!(lit_count(&levels_for(hum)), 0);
    // and the display line reads "0.0 %"
    let mut line = humidity_text(hum, 1);
    line.extend_from_slice(b" %");
    assert_eq!(line, b"0.0 %".to_vec());
}

#[test]
fn end_to_end_failed_read_degrades_and_recovers() {
    let (bus, state) = mock_bus(0x18, ZERO_FRAME);
    let mut sensor = Dht20::new(bus, DHT20_ADDRESS);

    // a failing cycle: the fault flag is set and the sentinel comes back
    state.borrow_mut().fail = true;
    let (hum, fault) = read_sensor(&mut sensor, &mut NoWait);
    assert!(fault);
    assert_eq!(hum, FAULT_HUMIDITY_MICROS);
    assert_eq!(lit_count(&levels_for(hum)), 5);

    // the loop goes on: the next cycle succeeds without any reconstruction
    state.borrow_mut().fail = false;
    let (hum, fault) = read_sensor(&mut sensor, &mut NoWait);
    assert!(!fault);
    assert_eq!(hum, 0);
}
