//! Minimal driver of the BNO055 absolute orientation sensor: identification,
//! fusion mode, angle unit and Euler angles.

use crate::i2c::{bus_result, BusEvent, I2cBus, RecordingBus};
use std::marker::PhantomData;
use vstd::prelude::*;

verus! {

/// Default seven-bit bus address of the sensor.
pub const ADDRESS: u8 = 0x29;

pub const CHIP_ID_REGISTER: u8 = 0x00;

pub const CHIP_ID: u8 = 0xA0;

pub const EUL_HEADING_LSB_REGISTER: u8 = 0x1A;

pub const UNIT_SEL_REGISTER: u8 = 0x3B;

pub const OPR_MODE_REGISTER: u8 = 0x3D;

/// Operating mode: nine degrees of freedom fusion.
pub const NDOF: u8 = 0b0000_1100;

/// Unit selection: clearing bit 2 selects degrees for Euler angles.
pub const DEG_MASK: u8 = 0b1111_1011;

/// Largest angle reported, in sixteenths of a degree (a full turn).
pub const FULL_TURN_SIXTEENTHS: i16 = 5760;

pub struct Bno055<I2C> {
    i2c: PhantomData<I2C>,
    address: u8,
}

/// A raw angle in sixteenths of a degree, clamped to one turn.
pub open spec fn clamped_angle(raw: int) -> int {
    if raw < 0 {
        0
    } else if raw > FULL_TURN_SIXTEENTHS {
        FULL_TURN_SIXTEENTHS as int
    } else {
        raw
    }
}

/// The signed 16-bit little-endian value of two bytes.
pub open spec fn le_i16(lsb: u8, msb: u8) -> int {
    if msb >= 128 {
        msb * 256 + lsb - 0x10000
    } else {
        msb * 256 + lsb
    }
}

/// An Euler angle from its two register bytes, in sixteenths of a degree,
/// clamped to `0 ..= FULL_TURN_SIXTEENTHS`.
pub fn decode_angle(lsb: u8, msb: u8) -> (r: i16)
    ensures
        r == clamped_angle(le_i16(lsb, msb)),
{
    let raw: i32 = if msb >= 128 {
        (msb as i32) * 256 + lsb as i32 - 0x10000
    } else {
        (msb as i32) * 256 + lsb as i32
    };
    if raw < 0 {
        0
    } else if raw > FULL_TURN_SIXTEENTHS as i32 {
        FULL_TURN_SIXTEENTHS
    } else {
        raw as i16
    }
}

/// Unit selection register with degrees selected for Euler angles and the
/// other settings kept.
pub fn unit_deg_setting(unit_sel: u8) -> (r: u8)
    ensures
        r == unit_sel & DEG_MASK,
{
    unit_sel & DEG_MASK
}

impl<I2C: I2cBus> Bno055<I2C> {
    pub closed spec fn spec_address(&self) -> u8 {
        self.address
    }

    pub fn new(address: u8) -> (r: Self)
        ensures
            r.spec_address() == address,
    {
        Bno055 { i2c: PhantomData, address }
    }

    pub fn address(&self) -> (r: u8)
        ensures
            r == self.spec_address(),
    {
        self.address
    }

    /// The transfer `event` read `len` bytes from register `register` of
    /// this sensor.
    pub open spec fn is_read(&self, event: BusEvent<I2C::Error>, register: u8, len: nat) -> bool {
        event.0 == self.spec_address() && event.1 == seq![register] && event.2.len() == len
    }

    /// Selects the nine degrees of freedom fusion mode.
    pub fn set_ndof_mode(&self, i2c: &mut RecordingBus<I2C>) -> (r: Result<(), I2C::Error>)
        ensures
            final(i2c).events() == old(i2c).events().push(
                (self.spec_address(), seq![OPR_MODE_REGISTER, NDOF], Seq::empty(), r),
            ),
    {
        let bytes = [OPR_MODE_REGISTER, NDOF];
        assert(bytes@ =~= seq![OPR_MODE_REGISTER, NDOF]);
        i2c.write(self.address, &bytes)
    }

    /// Selects degrees as the unit of Euler angles, keeping the other unit
    /// settings: reads the unit selection register, then writes it back
    /// with bit 2 cleared. Nothing is written when the read fails.
    pub fn set_unit_deg(&self, i2c: &mut RecordingBus<I2C>) -> (r: Result<(), I2C::Error>)
        ensures
            ({
                let n = old(i2c).events().len() as int;
                let t = final(i2c).events();
                &&& t.len() > n
                &&& t.subrange(0, n) == old(i2c).events()
                &&& self.is_read(t[n], UNIT_SEL_REGISTER, 1)
                &&& t[n].3 is Err ==> t.len() == n + 1 && r == t[n].3
                &&& t[n].3 is Ok ==> t.len() == n + 2 && t[n + 1int] == (
                    self.spec_address(),
                    seq![UNIT_SEL_REGISTER, t[n].2[0] & DEG_MASK],
                    Seq::<u8>::empty(),
                    r,
                )
            }),
    {
        let ghost start = i2c.events();
        let bytes = [UNIT_SEL_REGISTER];
        let mut buffer = [0u8; 1];
        assert(bytes@ =~= seq![UNIT_SEL_REGISTER]);
        let read = i2c.write_read(self.address, &bytes, &mut buffer);
        let ghost after_read = i2c.events();
        assert(after_read.subrange(0, start.len() as int) =~= start);
        match read {
            Err(e) => Err(e),
            Ok(()) => {
                let setting = [UNIT_SEL_REGISTER, unit_deg_setting(buffer[0])];
                assert(setting@ =~= seq![UNIT_SEL_REGISTER, buffer[0] & DEG_MASK]);
                let r = i2c.write(self.address, &setting);
                assert(i2c.events().subrange(0, start.len() as int) =~= start);
                r
            },
        }
    }

    /// Whether the identification register holds the chip's identifier.
    pub fn identify(&self, i2c: &mut RecordingBus<I2C>) -> (r: Result<bool, I2C::Error>)
        ensures
            final(i2c).events().len() == old(i2c).events().len() + 1,
            final(i2c).events().drop_last() == old(i2c).events(),
            self.is_read(final(i2c).events().last(), CHIP_ID_REGISTER, 1),
            r == bus_result(final(i2c).events().last(), final(i2c).events().last().2[0] == CHIP_ID),
    {
        let bytes = [CHIP_ID_REGISTER];
        let mut buffer = [0u8; 1];
        assert(bytes@ =~= seq![CHIP_ID_REGISTER]);
        match i2c.write_read(self.address, &bytes, &mut buffer) {
            Ok(()) => Ok(buffer[0] == CHIP_ID),
            Err(e) => Err(e),
        }
    }

    /// Heading, roll and pitch, in sixteenths of a degree, each clamped to
    /// `0 ..= FULL_TURN_SIXTEENTHS`: the six bytes from the heading register
    /// on, two per angle, least significant first.
    pub fn orientation_euler(&self, i2c: &mut RecordingBus<I2C>) -> (r: Result<(i16, i16, i16), I2C::Error>)
        ensures
            final(i2c).events().len() == old(i2c).events().len() + 1,
            final(i2c).events().drop_last() == old(i2c).events(),
            self.is_read(final(i2c).events().last(), EUL_HEADING_LSB_REGISTER, 6),
            ({
                let d = final(i2c).events().last().2;
                r == bus_result(
                    final(i2c).events().last(),
                    (
                        clamped_angle(le_i16(d[0], d[1])) as i16,
                        clamped_angle(le_i16(d[2], d[3])) as i16,
                        clamped_angle(le_i16(d[4], d[5])) as i16,
                    ),
                )
            }),
    {
        let bytes = [EUL_HEADING_LSB_REGISTER];
        let mut buffer = [0u8; 6];
        assert(bytes@ =~= seq![EUL_HEADING_LSB_REGISTER]);
        match i2c.write_read(self.address, &bytes, &mut buffer) {
            Ok(()) => {
                let heading = decode_angle(buffer[0], buffer[1]);
                let roll = decode_angle(buffer[2], buffer[3]);
                let pitch = decode_angle(buffer[4], buffer[5]);
                Ok((heading, roll, pitch))
            },
            Err(e) => Err(e),
        }
    }
}

} // verus!
