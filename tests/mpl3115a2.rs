use flight_core::bno055::{decode_angle, Bno055};
use flight_core::i2c::{I2cBus, RecordingBus};
use flight_core::mpl3115a2::{
    decode_altitude, decode_pa, decode_pa_temperature, decode_pressure, decode_temperature,
    oversampling_bits, power_mode_of, sensor_mode_of, Error, Mpl3115A2, OversamplingRatio,
    PowerMode, PressureOrAltitude, SensorMode,
};
use std::cell::RefCell;
use std::collections::HashMap;
use std::rc::Rc;

/// A bus whose device is a register file shared with the test; every write
/// is recorded. Writing control register 1 updates the system mode register
/// as the device does.
struct RegisterBus {
    registers: Rc<RefCell<HashMap<u8, u8>>>,
    writes: Vec<(u8, Vec<u8>)>,
    fail: bool,
}

impl RegisterBus {
    fn new() -> Self {
        RegisterBus { registers: Rc::new(RefCell::new(HashMap::new())), writes: Vec::new(), fail: false }
    }

    fn set(&self, register: u8, value: u8) {
        self.registers.borrow_mut().insert(register, value);
    }

    fn get(&self, register: u8) -> u8 {
        *self.registers.borrow().get(&register).unwrap_or(&0)
    }
}

impl I2cBus for RegisterBus {
    type Error = &'static str;

    fn write(&mut self, address: u8, bytes: &[u8]) -> Result<(), &'static str> {
        if self.fail {
            return Err("bus error");
        }
        self.writes.push((address, bytes.to_vec()));
        if bytes.len() == 2 {
            self.set(bytes[0], bytes[1]);
            if bytes[0] == 0x26 {
                self.set(0x11, bytes[1] & 0x01);
            }
        }
        Ok(())
    }

    fn write_read(&mut self, _address: u8, bytes: &[u8], buffer: &mut [u8]) -> Result<(), &'static str> {
        if self.fail {
            return Err("bus error");
        }
        for (i, b) in buffer.iter_mut().enumerate() {
            *b = self.get(bytes[0] + i as u8);
        }
        Ok(())
    }
}

#[test]
fn decodes_altitude_in_sixteenths() {
    assert_eq!(decode_altitude(0x00, 0x0A, 0x80), 10 * 16 + 8);
    assert_eq!(decode_altitude(0xFF, 0xFF, 0x80), -8);
    assert_eq!(decode_altitude(0x80, 0x00, 0x00), -32768 * 16);
}

#[test]
fn decodes_pressure_in_quarters() {
    // 101325 Pa = 405300 quarters = 0x62F34, shifted left by four bits.
    assert_eq!(decode_pressure(0x62, 0xF3, 0x40), 405300);
    assert_eq!(decode_pressure(0xFF, 0xFF, 0xF0), 0xFFFFF);
}

#[test]
fn decodes_temperature_in_sixteenths() {
    assert_eq!(decode_temperature(25, 0x40), 25 * 16 + 4);
    assert_eq!(decode_temperature(0xFE, 0x80), -2 * 16 + 8);
}

#[test]
fn decodes_only_fresh_data() {
    assert_eq!(decode_pa(SensorMode::Altitude, &[0x00, 0, 10, 0]), None);
    assert_eq!(
        decode_pa(SensorMode::Altitude, &[0x04, 0, 10, 0]),
        Some(PressureOrAltitude::Altitude(160))
    );
    assert_eq!(
        decode_pa(SensorMode::Pressure, &[0x04, 0x62, 0xF3, 0x40]),
        Some(PressureOrAltitude::Pressure(405300))
    );
    assert_eq!(decode_pa_temperature(SensorMode::Altitude, &[0x04, 0, 10, 0, 20, 0]), None);
    assert_eq!(
        decode_pa_temperature(SensorMode::Altitude, &[0x06, 0, 10, 0, 20, 0]),
        Some((PressureOrAltitude::Altitude(160), 320))
    );
}

#[test]
fn register_fields() {
    assert_eq!(oversampling_bits(OversamplingRatio::Ratio1), 0x00);
    assert_eq!(oversampling_bits(OversamplingRatio::Ratio8), 0x18);
    assert_eq!(oversampling_bits(OversamplingRatio::Ratio128), 0x38);
    assert_eq!(power_mode_of(0x01), PowerMode::Active);
    assert_eq!(power_mode_of(0xFE), PowerMode::Standby);
    assert_eq!(sensor_mode_of(0x81), SensorMode::Altitude);
    assert_eq!(sensor_mode_of(0x39), SensorMode::Pressure);
}

#[test]
fn init_configures_the_sensor() {
    let mut bus = RegisterBus::new();
    bus.set(0x0C, 0xC4);
    let mut sensor = Mpl3115A2::new(bus);
    sensor
        .init(PowerMode::Active, SensorMode::Altitude, OversamplingRatio::Ratio128)
        .unwrap();
    assert_eq!(sensor.sensor_mode().unwrap(), SensorMode::Altitude);
    assert!(sensor.identify().unwrap());
}

#[test]
fn reads_altitude_after_init() {
    let mut bus = RegisterBus::new();
    bus.set(0x0C, 0xC4);
    bus.set(0x00, 0x04);
    bus.set(0x01, 0x00);
    bus.set(0x02, 0x64);
    bus.set(0x03, 0x40);
    let mut sensor = Mpl3115A2::new(bus);
    sensor
        .init(PowerMode::Active, SensorMode::Altitude, OversamplingRatio::Ratio1)
        .unwrap();
    // The status register was overwritten by nothing: 0x04 still reports data.
    assert_eq!(sensor.read_pa().unwrap(), PressureOrAltitude::Altitude(100 * 16 + 4));
}

#[test]
fn reports_data_not_ready() {
    let mut sensor = Mpl3115A2::new(RegisterBus::new());
    match sensor.read_pa() {
        Err(Error::DataNotReady) => {}
        other => panic!("unexpected {:?}", other),
    }
}

#[test]
fn reports_bus_errors() {
    let mut bus = RegisterBus::new();
    bus.fail = true;
    let mut sensor = Mpl3115A2::new(bus);
    match sensor.identify() {
        Err(Error::I2c(e)) => assert_eq!(e, "bus error"),
        other => panic!("unexpected {:?}", other),
    }
}

#[test]
fn altitude_offset_and_power_mode_are_written() {
    let bus = RegisterBus::new();
    let registers = bus.registers.clone();
    let mut sensor = Mpl3115A2::new(bus);
    sensor.set_altitude_offset(-5).unwrap();
    assert_eq!(registers.borrow()[&0x2D], 0xFB);
    sensor.set_power_mode(PowerMode::Active).unwrap();
    assert_eq!(sensor.power_mode().unwrap(), PowerMode::Active);
    sensor.set_sensor_mode(SensorMode::Altitude).unwrap();
    assert_eq!(registers.borrow()[&0x26], 0x81);
    sensor.set_sensor_mode(SensorMode::Pressure).unwrap();
    assert_eq!(registers.borrow()[&0x26], 0x01);
    sensor.set_power_mode(PowerMode::Standby).unwrap();
    assert_eq!(sensor.power_mode().unwrap(), PowerMode::Standby);
    assert_eq!(registers.borrow()[&0x26], 0x00);
}

#[test]
fn bno055_identifies_and_configures() {
    let bus = RegisterBus::new();
    bus.set(0x00, 0xA0);
    bus.set(0x3B, 0xFF);
    let mut bus = RecordingBus::new(bus);
    let bno = Bno055::<RegisterBus>::new(0x29);
    assert_eq!(bno.address(), 0x29);
    assert!(bno.identify(&mut bus).unwrap());
    bno.set_ndof_mode(&mut bus).unwrap();
    bno.set_unit_deg(&mut bus).unwrap();
    assert_eq!(bus.bus().get(0x3D), 0x0C);
    assert_eq!(bus.bus().get(0x3B), 0xFB);
    assert_eq!(bus.bus().writes.last().unwrap(), &(0x29, vec![0x3B, 0xFB]));
}

#[test]
fn bno055_reports_bus_errors() {
    let mut failing = RegisterBus::new();
    failing.fail = true;
    let mut bus = RecordingBus::new(failing);
    let bno = Bno055::<RegisterBus>::new(0x29);
    assert_eq!(bno.identify(&mut bus), Err("bus error"));
    assert_eq!(bno.set_unit_deg(&mut bus), Err("bus error"));
    assert!(bus.bus().writes.is_empty());
}

#[test]
fn bno055_euler_angles_are_clamped() {
    assert_eq!(decode_angle(0x40, 0x01), 320);
    assert_eq!(decode_angle(0xFF, 0xFF), 0);
    assert_eq!(decode_angle(0x00, 0x7F), 5760);
    let bus = RegisterBus::new();
    for (i, b) in [0x40u8, 0x01, 0xFF, 0xFF, 0x00, 0x7F].iter().enumerate() {
        bus.set(0x1A + i as u8, *b);
    }
    let mut bus = RecordingBus::new(bus);
    let bno = Bno055::<RegisterBus>::new(0x29);
    assert_eq!(bno.orientation_euler(&mut bus).unwrap(), (320, 0, 5760));
}
