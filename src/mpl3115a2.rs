//! Driver of the MPL3115A2 barometric pressure and altitude sensor.
//!
//! Readings are kept in fixed point: altitude in sixteenths of a metre,
//! pressure in quarters of a pascal, temperature in sixteenths of a degree.
//! One-shot reading is not supported.

use crate::i2c::{keeps, BusEvent, I2cBus, RecordingBus};
use vstd::prelude::*;

verus! {

/// Seven-bit bus address of the sensor.
pub const ADDRESS: u8 = 0x60;

/// Content of the identification register.
pub const CHIP_ID: u8 = 0xC4;

pub const REG_STATUS: u8 = 0x00;

pub const REG_WHO_AM_I: u8 = 0x0C;

pub const REG_SYS_MOD: u8 = 0x11;

pub const REG_PT_DATA_CFG: u8 = 0x13;

pub const REG_CTRL_REG1: u8 = 0x26;

pub const REG_OFF_H: u8 = 0x2D;

/// Status: new temperature data available.
pub const TDR: u8 = 0x02;

/// Status: new pressure or altitude data available.
pub const PDR: u8 = 0x04;

/// Control register 1: altimeter mode.
pub const ALT: u8 = 0x80;

/// Control register 1: active mode (standby when clear).
pub const ACTIVE: u8 = 0x01;

pub const OS0: u8 = 0x08;

pub const OS1: u8 = 0x10;

pub const OS2: u8 = 0x20;

/// Data configuration: data ready event, pressure and temperature event flags.
pub const DREM: u8 = 0x04;

pub const PDEFE: u8 = 0x02;

pub const TDEFE: u8 = 0x01;

#[derive(Debug, Clone, Copy, PartialEq, Eq, Structural)]
pub enum PowerMode {
    Standby,
    Active,
}

#[derive(Debug, Clone, Copy, PartialEq, Eq, Structural)]
pub enum SensorMode {
    Pressure,
    Altitude,
}

#[derive(Debug, Clone, Copy, PartialEq, Eq, Structural)]
pub enum OversamplingRatio {
    Ratio1,
    Ratio2,
    Ratio4,
    Ratio8,
    Ratio16,
    Ratio32,
    Ratio64,
    Ratio128,
}

#[derive(Debug)]
pub enum Error<E> {
    I2c(E),
    DataNotReady,
}

/// A pressure or altitude reading, depending on the sensor mode.
#[derive(Debug, Clone, Copy, PartialEq, Eq, Structural)]
pub enum PressureOrAltitude {
    /// Altitude in sixteenths of a metre.
    Altitude(i32),
    /// Pressure in quarters of a pascal.
    Pressure(u32),
}

/// Oversampling field of control register 1 for a ratio; the ratio is
/// `2^k` for the field value `k`, and a ratio of 128 takes 512 ms a sample.
pub open spec fn oversampling_field(ratio: OversamplingRatio) -> u8 {
    match ratio {
        OversamplingRatio::Ratio1 => 0x00,
        OversamplingRatio::Ratio2 => 0x08,
        OversamplingRatio::Ratio4 => 0x10,
        OversamplingRatio::Ratio8 => 0x18,
        OversamplingRatio::Ratio16 => 0x20,
        OversamplingRatio::Ratio32 => 0x28,
        OversamplingRatio::Ratio64 => 0x30,
        OversamplingRatio::Ratio128 => 0x38,
    }
}

pub fn oversampling_bits(ratio: OversamplingRatio) -> (r: u8)
    ensures
        r == oversampling_field(ratio),
{
    proof {
        assert(OS1 | OS0 == 0x18) by (bit_vector);
        assert(OS2 | OS0 == 0x28) by (bit_vector);
        assert(OS2 | OS1 == 0x30) by (bit_vector);
        assert(OS2 | OS1 | OS0 == 0x38) by (bit_vector);
    }
    match ratio {
        OversamplingRatio::Ratio1 => 0,
        OversamplingRatio::Ratio2 => OS0,
        OversamplingRatio::Ratio4 => OS1,
        OversamplingRatio::Ratio8 => OS1 | OS0,
        OversamplingRatio::Ratio16 => OS2,
        OversamplingRatio::Ratio32 => OS2 | OS0,
        OversamplingRatio::Ratio64 => OS2 | OS1,
        OversamplingRatio::Ratio128 => OS2 | OS1 | OS0,
    }
}

/// Power mode that the system mode register reports.
pub fn power_mode_of(sys_mod: u8) -> (r: PowerMode)
    ensures
        r == (if sys_mod & ACTIVE == 0 { PowerMode::Standby } else { PowerMode::Active }),
{
    if sys_mod & ACTIVE == 0 {
        PowerMode::Standby
    } else {
        PowerMode::Active
    }
}

/// Sensor mode that control register 1 selects.
pub fn sensor_mode_of(ctrl_reg1: u8) -> (r: SensorMode)
    ensures
        r == (if ctrl_reg1 & ALT != 0 { SensorMode::Altitude } else { SensorMode::Pressure }),
{
    if ctrl_reg1 & ALT != 0 {
        SensorMode::Altitude
    } else {
        SensorMode::Pressure
    }
}

pub fn is_temperature_data_available(status: u8) -> (r: bool)
    ensures
        r == (status & TDR != 0),
{
    status & TDR != 0
}

pub fn is_pa_data_available(status: u8) -> (r: bool)
    ensures
        r == (status & PDR != 0),
{
    status & PDR != 0
}

/// The 24-bit big-endian value of three bytes.
pub open spec fn be24(msb: u8, csb: u8, lsb: u8) -> int {
    msb * 65536 + csb * 256 + lsb
}

/// Altitude in sixteenths of a metre: the upper 20 bits of the three data
/// bytes, in two's complement.
pub open spec fn altitude_value(msb: u8, csb: u8, lsb: u8) -> int {
    (if msb >= 128 { be24(msb, csb, lsb) - 0x1000000 } else { be24(msb, csb, lsb) }) / 16
}

/// Pressure in quarters of a pascal: the upper 20 bits of the three data
/// bytes, unsigned.
pub open spec fn pressure_value(msb: u8, csb: u8, lsb: u8) -> int {
    be24(msb, csb, lsb) / 16
}

/// Temperature in sixteenths of a degree Celsius: the upper 12 bits of the
/// two data bytes, in two's complement.
pub open spec fn temperature_value(msb: u8, lsb: u8) -> int {
    (if msb >= 128 { msb * 256 + lsb - 0x10000 } else { msb * 256 + lsb }) / 16
}

pub fn decode_altitude(msb: u8, csb: u8, lsb: u8) -> (r: i32)
    ensures
        r == altitude_value(msb, csb, lsb),
{
    let integer: i32 = if msb >= 128 {
        (msb as i32) * 256 + csb as i32 - 65536
    } else {
        (msb as i32) * 256 + csb as i32
    };
    let fraction: i32 = (lsb / 16) as i32;
    integer * 16 + fraction
}

pub fn decode_pressure(msb: u8, csb: u8, lsb: u8) -> (r: u32)
    ensures
        r == pressure_value(msb, csb, lsb),
{
    (msb as u32) * 4096 + (csb as u32) * 16 + (lsb / 16) as u32
}

pub fn decode_temperature(msb: u8, lsb: u8) -> (r: i16)
    ensures
        r == temperature_value(msb, lsb),
{
    let integer: i16 = if msb >= 128 {
        msb as i16 - 256
    } else {
        msb as i16
    };
    integer * 16 + (lsb / 16) as i16
}

/// The reading that the three data bytes hold in the given sensor mode.
pub open spec fn pa_value(mode: SensorMode, msb: u8, csb: u8, lsb: u8) -> PressureOrAltitude {
    match mode {
        SensorMode::Altitude => PressureOrAltitude::Altitude(altitude_value(msb, csb, lsb) as i32),
        SensorMode::Pressure => PressureOrAltitude::Pressure(pressure_value(msb, csb, lsb) as u32),
    }
}

/// Decodes the status byte and the three data bytes read from the status
/// register on: nothing unless the status reports new data.
pub fn decode_pa(mode: SensorMode, data: &[u8; 4]) -> (r: Option<PressureOrAltitude>)
    ensures
        r == (if data@[0] & PDR != 0 {
            Some(pa_value(mode, data@[1], data@[2], data@[3]))
        } else {
            None
        }),
{
    if !is_pa_data_available(data[0]) {
        return None;
    }
    match mode {
        SensorMode::Altitude => Some(
            PressureOrAltitude::Altitude(decode_altitude(data[1], data[2], data[3])),
        ),
        SensorMode::Pressure => Some(
            PressureOrAltitude::Pressure(decode_pressure(data[1], data[2], data[3])),
        ),
    }
}

/// Decodes the status byte, the three data bytes and the two temperature
/// bytes read from the status register on: nothing unless the status reports
/// both new pressure or altitude data and new temperature data.
pub fn decode_pa_temperature(mode: SensorMode, data: &[u8; 6]) -> (r: Option<
    (PressureOrAltitude, i16),
>)
    ensures
        r == (if data@[0] & PDR != 0 && data@[0] & TDR != 0 {
            Some(
                (
                    pa_value(mode, data@[1], data@[2], data@[3]),
                    temperature_value(data@[4], data@[5]) as i16,
                ),
            )
        } else {
            None
        }),
{
    if !(is_temperature_data_available(data[0]) && is_pa_data_available(data[0])) {
        return None;
    }
    let temperature = decode_temperature(data[4], data[5]);
    match decode_pa(mode, &[data[0], data[1], data[2], data[3]]) {
        Some(pa) => Some((pa, temperature)),
        None => None,
    }
}

/// `value` if the transfer `event` succeeded, else its bus error.
pub open spec fn reported<E, T>(event: BusEvent<E>, value: T) -> Result<T, Error<E>> {
    match event.3 {
        Ok(()) => Ok(value),
        Err(e) => Err(Error::I2c(e)),
    }
}

/// The transfer `event` read one byte from register `register` of the sensor.
pub open spec fn is_reg_read<E>(event: BusEvent<E>, register: u8) -> bool {
    event.0 == ADDRESS && event.1 == seq![register] && event.2.len() == 1
}

/// The transfer `event` wrote `value` to register `register` of the sensor.
pub open spec fn is_reg_write<E>(event: BusEvent<E>, register: u8, value: u8) -> bool {
    event.0 == ADDRESS && event.1 == seq![register, value] && event.2.len() == 0
}

/// The byte that the transfer `event` read.
pub open spec fn read_value<E>(event: BusEvent<E>) -> u8 {
    event.2[0]
}

/// The transfers from index `n` of `t` on stop at the first failure, and
/// `r` reports them: `Ok` exactly when all of them succeeded, else the bus
/// error of the one that failed.
pub open spec fn settles<E, T>(t: Seq<BusEvent<E>>, n: int, r: Result<T, Error<E>>) -> bool {
    &&& forall|i: int| n <= i < t.len() - 1 ==> (#[trigger] t[i]).3 is Ok
    &&& (r is Ok <==> forall|i: int| n <= i < t.len() ==> (#[trigger] t[i]).3 is Ok)
    &&& r is Err ==> t.len() > n && t.last().3 is Err && r == Err::<T, Error<E>>(
        Error::I2c(t.last().3->Err_0),
    )
}

/// Transfers `t[n..end]` read control register 1 and, if that succeeded,
/// write it back through `update`.
pub open spec fn rewrite_events<E>(t: Seq<BusEvent<E>>, n: int, end: int, update: spec_fn(u8) -> u8) -> bool {
    &&& 0 <= n < end <= t.len()
    &&& is_reg_read(t[n], REG_CTRL_REG1)
    &&& t[n].3 is Err ==> end == n + 1
    &&& t[n].3 is Ok ==> end == n + 2 && is_reg_write(t[n + 1], REG_CTRL_REG1, update(read_value(t[n])))
}

pub open spec fn set_active(v: u8) -> u8 {
    v | ACTIVE
}

pub open spec fn clear_active(v: u8) -> u8 {
    v & !ACTIVE
}

/// Transfers `t[n..end]` put the sensor in power mode `mode`, the driver
/// believing it in `cached`: nothing when going to standby from standby.
pub open spec fn power_events<E>(t: Seq<BusEvent<E>>, n: int, end: int, mode: PowerMode, cached: PowerMode) -> bool {
    match mode {
        PowerMode::Active => rewrite_events(t, n, end, |v: u8| set_active(v)),
        PowerMode::Standby => if cached == PowerMode::Standby {
            0 <= n == end <= t.len()
        } else {
            rewrite_events(t, n, end, |v: u8| clear_active(v))
        },
    }
}

/// Control register 1 in sensor mode `mode`, from its value `v` in standby.
pub open spec fn mode_setting(mode: SensorMode, v: u8) -> u8 {
    match mode {
        SensorMode::Altitude => v | ALT | ACTIVE,
        SensorMode::Pressure => (v & !ALT) | ACTIVE,
    }
}

/// Transfers `t[n..end]` switch the sensor mode to `mode`: read control
/// register 1, write it with the active bit clear, then write the mode
/// setting; each step only if the one before succeeded.
pub open spec fn sensor_events<E>(t: Seq<BusEvent<E>>, n: int, end: int, mode: SensorMode) -> bool {
    &&& 0 <= n < end <= t.len()
    &&& is_reg_read(t[n], REG_CTRL_REG1)
    &&& t[n].3 is Err ==> end == n + 1
    &&& t[n].3 is Ok ==> {
        let standby = read_value(t[n]) & !ACTIVE;
        &&& n + 1 < end
        &&& is_reg_write(t[n + 1], REG_CTRL_REG1, standby)
        &&& t[n + 1].3 is Err ==> end == n + 2
        &&& t[n + 1].3 is Ok ==> end == n + 3 && is_reg_write(
            t[n + 2],
            REG_CTRL_REG1,
            mode_setting(mode, standby),
        )
    }
}

/// Transfers `t[n + 1..]` of a successful initialisation: standby in
/// `t[n + 1..a]`, the data configuration and oversampling writes at `a` and
/// `a + 1`, the power mode in `t[a + 2..b]`, the sensor mode in `t[b..]`.
pub open spec fn init_events<E>(
    t: Seq<BusEvent<E>>,
    n: int,
    a: int,
    b: int,
    cached: PowerMode,
    power_mode: PowerMode,
    sensor_mode: SensorMode,
    oversampling_ratio: OversamplingRatio,
) -> bool {
    &&& power_events(t, n + 1, a, PowerMode::Standby, cached)
    &&& is_reg_write(t[a], REG_PT_DATA_CFG, DREM | PDEFE | TDEFE)
    &&& is_reg_write(t[a + 1], REG_CTRL_REG1, oversampling_field(oversampling_ratio) | ACTIVE)
    &&& power_events(t, a + 2, b, power_mode, PowerMode::Active)
    &&& sensor_events(t, b, t.len() as int, sensor_mode)
}

/// Failures end a run of transfers: the outcome of `t[n..]` after a
/// successful run `t[m..n]` is the outcome of the whole.
proof fn lemma_settles_after<E, T, U>(
    t: Seq<BusEvent<E>>,
    m: int,
    n: int,
    r: Result<T, Error<E>>,
    s: Result<U, Error<E>>,
)
    requires
        m <= n,
        forall|i: int| m <= i < n ==> (#[trigger] t[i]).3 is Ok,
        settles(t, n, r),
        r is Ok <==> s is Ok,
        r is Err ==> s == Err::<U, Error<E>>(r->Err_0),
    ensures
        settles(t, m, s),
{
}

pub struct Mpl3115A2<I2C: I2cBus> {
    i2c: RecordingBus<I2C>,
    sensor_mode: SensorMode,
    power_mode: PowerMode,
}

impl<I2C: I2cBus> Mpl3115A2<I2C> {
    /// The sensor mode last set through this driver.
    pub closed spec fn cached_sensor_mode(&self) -> SensorMode {
        self.sensor_mode
    }

    /// The power mode last set through this driver.
    pub closed spec fn cached_power_mode(&self) -> PowerMode {
        self.power_mode
    }

    /// The transfers this driver has made on the sensor's bus, oldest first.
    pub closed spec fn events(&self) -> Seq<BusEvent<I2C::Error>> {
        self.i2c.events()
    }

    /// A driver for a sensor in its reset state: standby, pressure mode.
    pub fn new(i2c: I2C) -> (r: Self)
        ensures
            r.cached_sensor_mode() == SensorMode::Pressure,
            r.cached_power_mode() == PowerMode::Standby,
            r.events() == Seq::<BusEvent<I2C::Error>>::empty(),
    {
        Self {
            i2c: RecordingBus::new(i2c),
            sensor_mode: SensorMode::Pressure,
            power_mode: PowerMode::Standby,
        }
    }

    fn write_u8(&mut self, register: u8, value: u8) -> (r: Result<(), Error<I2C::Error>>)
        ensures
            final(self).cached_sensor_mode() == old(self).cached_sensor_mode(),
            final(self).cached_power_mode() == old(self).cached_power_mode(),
            final(self).events().len() == old(self).events().len() + 1,
            final(self).events().drop_last() == old(self).events(),
            is_reg_write(final(self).events().last(), register, value),
            r == reported(final(self).events().last(), ()),
    {
        let bytes = [register, value];
        assert(bytes@ =~= seq![register, value]);
        match self.i2c.write(ADDRESS, &bytes) {
            Ok(()) => Ok(()),
            Err(e) => Err(Error::I2c(e)),
        }
    }

    fn read_u8(&mut self, register: u8) -> (r: Result<u8, Error<I2C::Error>>)
        ensures
            final(self).cached_sensor_mode() == old(self).cached_sensor_mode(),
            final(self).cached_power_mode() == old(self).cached_power_mode(),
            final(self).events().len() == old(self).events().len() + 1,
            final(self).events().drop_last() == old(self).events(),
            is_reg_read(final(self).events().last(), register),
            r == reported(final(self).events().last(), read_value(final(self).events().last())),
    {
        let bytes = [register];
        let mut buffer = [0u8; 1];
        assert(bytes@ =~= seq![register]);
        match self.i2c.write_read(ADDRESS, &bytes, &mut buffer) {
            Ok(()) => Ok(buffer[0]),
            Err(e) => Err(Error::I2c(e)),
        }
    }

    /// Whether the identification register holds the chip's identifier.
    pub fn identify(&mut self) -> (r: Result<bool, Error<I2C::Error>>)
        ensures
            final(self).cached_sensor_mode() == old(self).cached_sensor_mode(),
            final(self).cached_power_mode() == old(self).cached_power_mode(),
            final(self).events().len() == old(self).events().len() + 1,
            final(self).events().drop_last() == old(self).events(),
            is_reg_read(final(self).events().last(), REG_WHO_AM_I),
            r == reported(final(self).events().last(), read_value(final(self).events().last()) == CHIP_ID),
    {
        match self.read_u8(REG_WHO_AM_I) {
            Ok(id) => Ok(id == CHIP_ID),
            Err(e) => Err(e),
        }
    }

    /// Power mode that the device reports.
    pub fn power_mode(&mut self) -> (r: Result<PowerMode, Error<I2C::Error>>)
        ensures
            final(self).cached_sensor_mode() == old(self).cached_sensor_mode(),
            final(self).cached_power_mode() == old(self).cached_power_mode(),
            final(self).events().len() == old(self).events().len() + 1,
            final(self).events().drop_last() == old(self).events(),
            is_reg_read(final(self).events().last(), REG_SYS_MOD),
            r == reported(
                final(self).events().last(),
                if read_value(final(self).events().last()) & ACTIVE == 0 {
                    PowerMode::Standby
                } else {
                    PowerMode::Active
                },
            ),
    {
        match self.read_u8(REG_SYS_MOD) {
            Ok(status) => Ok(power_mode_of(status)),
            Err(e) => Err(e),
        }
    }

    /// Sensor mode that the device reports.
    pub fn sensor_mode(&mut self) -> (r: Result<SensorMode, Error<I2C::Error>>)
        ensures
            final(self).cached_sensor_mode() == old(self).cached_sensor_mode(),
            final(self).cached_power_mode() == old(self).cached_power_mode(),
            final(self).events().len() == old(self).events().len() + 1,
            final(self).events().drop_last() == old(self).events(),
            is_reg_read(final(self).events().last(), REG_CTRL_REG1),
            r == reported(
                final(self).events().last(),
                if read_value(final(self).events().last()) & ALT != 0 {
                    SensorMode::Altitude
                } else {
                    SensorMode::Pressure
                },
            ),
    {
        match self.read_u8(REG_CTRL_REG1) {
            Ok(register) => Ok(sensor_mode_of(register)),
            Err(e) => Err(e),
        }
    }

    /// Sets the active bit.
    pub fn set_active_mode(&mut self) -> (r: Result<(), Error<I2C::Error>>)
        ensures
            final(self).cached_sensor_mode() == old(self).cached_sensor_mode(),
            final(self).cached_power_mode() == if r is Ok {
                PowerMode::Active
            } else {
                old(self).cached_power_mode()
            },
            keeps(old(self).events(), final(self).events()),
            rewrite_events(
                final(self).events(),
                old(self).events().len() as int,
                final(self).events().len() as int,
                |v: u8| set_active(v),
            ),
            settles(final(self).events(), old(self).events().len() as int, r),
    {
        let settings = match self.read_u8(REG_CTRL_REG1) {
            Ok(v) => v,
            Err(e) => {
                return Err(e);
            },
        };
        let r = self.write_u8(REG_CTRL_REG1, settings | ACTIVE);
        if r.is_ok() {
            self.power_mode = PowerMode::Active;
        }
        r
    }

    /// Clears the active bit, unless the device is known to be in standby.
    pub fn set_standby_mode(&mut self) -> (r: Result<(), Error<I2C::Error>>)
        ensures
            final(self).cached_sensor_mode() == old(self).cached_sensor_mode(),
            final(self).cached_power_mode() == if r is Ok {
                PowerMode::Standby
            } else {
                old(self).cached_power_mode()
            },
            keeps(old(self).events(), final(self).events()),
            power_events(
                final(self).events(),
                old(self).events().len() as int,
                final(self).events().len() as int,
                PowerMode::Standby,
                old(self).cached_power_mode(),
            ),
            settles(final(self).events(), old(self).events().len() as int, r),
    {
        if self.power_mode != PowerMode::Standby {
            let register = match self.read_u8(REG_CTRL_REG1) {
                Ok(v) => v,
                Err(e) => {
                    return Err(e);
                },
            };
            let r = self.write_u8(REG_CTRL_REG1, register & !ACTIVE);
            if r.is_ok() {
                self.power_mode = PowerMode::Standby;
            }
            r
        } else {
            Ok(())
        }
    }

    pub fn set_power_mode(&mut self, mode: PowerMode) -> (r: Result<(), Error<I2C::Error>>)
        ensures
            final(self).cached_sensor_mode() == old(self).cached_sensor_mode(),
            final(self).cached_power_mode() == if r is Ok {
                mode
            } else {
                old(self).cached_power_mode()
            },
            keeps(old(self).events(), final(self).events()),
            power_events(
                final(self).events(),
                old(self).events().len() as int,
                final(self).events().len() as int,
                mode,
                old(self).cached_power_mode(),
            ),
            settles(final(self).events(), old(self).events().len() as int, r),
    {
        match mode {
            PowerMode::Active => self.set_active_mode(),
            PowerMode::Standby => self.set_standby_mode(),
        }
    }

    /// Goes to standby, writes the mode setting with the active bit set, and
    /// records the mode when every transfer succeeded.
    pub fn set_sensor_mode(&mut self, mode: SensorMode) -> (r: Result<(), Error<I2C::Error>>)
        ensures
            final(self).cached_sensor_mode() == if r is Ok {
                mode
            } else {
                old(self).cached_sensor_mode()
            },
            final(self).cached_power_mode() == old(self).cached_power_mode(),
            keeps(old(self).events(), final(self).events()),
            sensor_events(
                final(self).events(),
                old(self).events().len() as int,
                final(self).events().len() as int,
                mode,
            ),
            settles(final(self).events(), old(self).events().len() as int, r),
    {
        let r = match mode {
            SensorMode::Altitude => self.set_altitude_mode(),
            SensorMode::Pressure => self.set_pressure_mode(),
        };
        if r.is_ok() {
            self.sensor_mode = mode;
        }
        r
    }

    /// Goes to standby, sets the altimeter bit, and goes back to active.
    pub fn set_altitude_mode(&mut self) -> (r: Result<(), Error<I2C::Error>>)
        ensures
            final(self).cached_sensor_mode() == old(self).cached_sensor_mode(),
            final(self).cached_power_mode() == old(self).cached_power_mode(),
            keeps(old(self).events(), final(self).events()),
            sensor_events(
                final(self).events(),
                old(self).events().len() as int,
                final(self).events().len() as int,
                SensorMode::Altitude,
            ),
            settles(final(self).events(), old(self).events().len() as int, r),
    {
        let value = match self.read_u8(REG_CTRL_REG1) {
            Ok(v) => v,
            Err(e) => {
                return Err(e);
            },
        };
        let register = value & !ACTIVE;
        match self.write_u8(REG_CTRL_REG1, register) {
            Ok(()) => {},
            Err(e) => {
                return Err(e);
            },
        }
        self.write_u8(REG_CTRL_REG1, register | ALT | ACTIVE)
    }

    /// Goes to standby, clears the altimeter bit, and goes back to active.
    pub fn set_pressure_mode(&mut self) -> (r: Result<(), Error<I2C::Error>>)
        ensures
            final(self).cached_sensor_mode() == old(self).cached_sensor_mode(),
            final(self).cached_power_mode() == old(self).cached_power_mode(),
            keeps(old(self).events(), final(self).events()),
            sensor_events(
                final(self).events(),
                old(self).events().len() as int,
                final(self).events().len() as int,
                SensorMode::Pressure,
            ),
            settles(final(self).events(), old(self).events().len() as int, r),
    {
        let value = match self.read_u8(REG_CTRL_REG1) {
            Ok(v) => v,
            Err(e) => {
                return Err(e);
            },
        };
        let register = value & !ACTIVE;
        match self.write_u8(REG_CTRL_REG1, register) {
            Ok(()) => {},
            Err(e) => {
                return Err(e);
            },
        }
        self.write_u8(REG_CTRL_REG1, (register & !ALT) | ACTIVE)
    }

    /// Reads the identifier (without checking it), puts the sensor in
    /// standby, configures data events and oversampling with the active bit
    /// set, then sets the power and sensor modes; stops at the first failed
    /// transfer.
    pub fn init(
        &mut self,
        power_mode: PowerMode,
        sensor_mode: SensorMode,
        oversampling_ratio: OversamplingRatio,
    ) -> (r: Result<(), Error<I2C::Error>>)
        ensures
            keeps(old(self).events(), final(self).events()),
            final(self).events().len() > old(self).events().len(),
            is_reg_read(final(self).events()[old(self).events().len() as int], REG_WHO_AM_I),
            settles(final(self).events(), old(self).events().len() as int, r),
            r is Ok ==> final(self).cached_sensor_mode() == sensor_mode
                && final(self).cached_power_mode() == power_mode,
            r is Ok ==> exists|a: int, b: int|
                #[trigger] init_events(
                    final(self).events(),
                    old(self).events().len() as int,
                    a,
                    b,
                    old(self).cached_power_mode(),
                    power_mode,
                    sensor_mode,
                    oversampling_ratio,
                ),
    {
        let ghost n = self.events().len() as int;
        let ghost cached = self.power_mode;
        match self.identify() {
            Ok(_) => {},
            Err(e) => {
                return Err(e);
            },
        }
        match self.set_standby_mode() {
            Ok(()) => {},
            Err(e) => {
                proof {
                    lemma_settles_after(self.events(), n, n + 1, Err::<(), Error<I2C::Error>>(e), Err::<(), Error<I2C::Error>>(e));
                }
                return Err(e);
            },
        }
        let ghost a = self.events().len() as int;
        match self.write_u8(REG_PT_DATA_CFG, DREM | PDEFE | TDEFE) {
            Ok(()) => {},
            Err(e) => {
                proof {
                    lemma_settles_after(self.events(), n, a, Err::<(), Error<I2C::Error>>(e), Err::<(), Error<I2C::Error>>(e));
                }
                return Err(e);
            },
        }
        let ratio = oversampling_bits(oversampling_ratio);
        match self.write_u8(REG_CTRL_REG1, ratio | ACTIVE) {
            Ok(()) => {},
            Err(e) => {
                proof {
                    lemma_settles_after(self.events(), n, a + 1, Err::<(), Error<I2C::Error>>(e), Err::<(), Error<I2C::Error>>(e));
                }
                return Err(e);
            },
        }
        self.power_mode = PowerMode::Active;
        match self.set_power_mode(power_mode) {
            Ok(()) => {},
            Err(e) => {
                proof {
                    lemma_settles_after(self.events(), n, a + 2, Err::<(), Error<I2C::Error>>(e), Err::<(), Error<I2C::Error>>(e));
                }
                return Err(e);
            },
        }
        let ghost b = self.events().len() as int;
        let r = self.set_sensor_mode(sensor_mode);
        proof {
            lemma_settles_after(self.events(), n, b, r, r);
            let t = self.events();
            if r.is_ok() {
                assert(init_events(t, n, a, b, cached, power_mode, sensor_mode, oversampling_ratio));
            }
        }
        r
    }

    /// Reads the latest pressure or altitude sample, in the cached sensor
    /// mode: the status byte and the three data bytes from the status
    /// register on.
    pub fn read_pa(&mut self) -> (r: Result<PressureOrAltitude, Error<I2C::Error>>)
        ensures
            final(self).cached_sensor_mode() == old(self).cached_sensor_mode(),
            final(self).cached_power_mode() == old(self).cached_power_mode(),
            final(self).events().len() == old(self).events().len() + 1,
            final(self).events().drop_last() == old(self).events(),
            ({
                let t = final(self).events().last();
                let data = t.2;
                &&& t.0 == ADDRESS
                &&& t.1 == seq![REG_STATUS]
                &&& data.len() == 4
                &&& r == match t.3 {
                    Err(e) => Err(Error::I2c(e)),
                    Ok(()) => if data[0] & PDR != 0 {
                        Ok(pa_value(old(self).cached_sensor_mode(), data[1], data[2], data[3]))
                    } else {
                        Err(Error::DataNotReady)
                    },
                }
            }),
    {
        let bytes = [REG_STATUS];
        let mut buffer = [0u8; 4];
        assert(bytes@ =~= seq![REG_STATUS]);
        match self.i2c.write_read(ADDRESS, &bytes, &mut buffer) {
            Ok(()) => {},
            Err(e) => {
                return Err(Error::I2c(e));
            },
        }
        match decode_pa(self.sensor_mode, &buffer) {
            Some(v) => Ok(v),
            None => Err(Error::DataNotReady),
        }
    }

    /// Reads the latest pressure or altitude sample, in the cached sensor
    /// mode, with the temperature in sixteenths of a degree Celsius: the
    /// status byte, three data bytes and two temperature bytes from the
    /// status register on.
    pub fn read_pa_temperature(&mut self) -> (r: Result<(PressureOrAltitude, i16), Error<I2C::Error>>)
        ensures
            final(self).cached_sensor_mode() == old(self).cached_sensor_mode(),
            final(self).cached_power_mode() == old(self).cached_power_mode(),
            final(self).events().len() == old(self).events().len() + 1,
            final(self).events().drop_last() == old(self).events(),
            ({
                let t = final(self).events().last();
                let data = t.2;
                &&& t.0 == ADDRESS
                &&& t.1 == seq![REG_STATUS]
                &&& data.len() == 6
                &&& r == match t.3 {
                    Err(e) => Err(Error::I2c(e)),
                    Ok(()) => if data[0] & PDR != 0 && data[0] & TDR != 0 {
                        Ok(
                            (
                                pa_value(old(self).cached_sensor_mode(), data[1], data[2], data[3]),
                                temperature_value(data[4], data[5]) as i16,
                            ),
                        )
                    } else {
                        Err(Error::DataNotReady)
                    },
                }
            }),
    {
        let bytes = [REG_STATUS];
        let mut buffer = [0u8; 6];
        assert(bytes@ =~= seq![REG_STATUS]);
        match self.i2c.write_read(ADDRESS, &bytes, &mut buffer) {
            Ok(()) => {},
            Err(e) => {
                return Err(Error::I2c(e));
            },
        }
        match decode_pa_temperature(self.sensor_mode, &buffer) {
            Some(v) => Ok(v),
            None => Err(Error::DataNotReady),
        }
    }

    /// Writes the altitude offset register, in metres.
    pub fn set_altitude_offset(&mut self, offset: i8) -> (r: Result<(), Error<I2C::Error>>)
        ensures
            final(self).cached_sensor_mode() == old(self).cached_sensor_mode(),
            final(self).cached_power_mode() == old(self).cached_power_mode(),
            final(self).events().len() == old(self).events().len() + 1,
            final(self).events().drop_last() == old(self).events(),
            is_reg_write(final(self).events().last(), REG_OFF_H, offset as u8),
            r == reported(final(self).events().last(), ()),
    {
        self.write_u8(REG_OFF_H, offset as u8)
    }
}

} // verus!
