//! Arming state machine of the quadcopter autopilot.

use vstd::prelude::*;

verus! {

/// Index of the RC channel that arms the motors.
pub const ARMING_CHANNEL: usize = 4;

/// Index of the RC channel that sends the throttle straight to every motor.
pub const PASSTHROUGH_CHANNEL: usize = 5;

#[derive(Debug, Clone, Copy, PartialEq, Eq, Structural)]
pub enum LedColor {
    Red,
    Green,
    Blue,
    Cyan,
    Magenta,
    Yellow,
    White,
}

#[derive(Debug, Clone, Copy, PartialEq, Eq, Structural)]
pub enum Mode {
    /// The control law runs and drives the motors.
    Armed,
    /// Ready, but the motors stay still.
    Disarmed,
    /// Not soft-armed or no radio: everything off.
    Off,
}

/// External battery voltage, as the arming rule sees it.
#[derive(Debug, Clone, Copy, PartialEq, Eq, Structural)]
pub enum BatteryLevel {
    /// At or above the minimum voltage for flight (10 V).
    Sufficient,
    /// Below the minimum voltage for flight, or no battery at all.
    Low,
}

/// The mode that follows `previous` given the arming inputs.
///
/// Off unless soft-armed with the radio connected; then disarmed while the
/// arming switch is off; then armed, except that a low battery keeps a
/// vehicle that was not armed disarmed (an armed one stays armed).
pub open spec fn next_mode(
    previous: Mode,
    soft_armed: bool,
    rc_connected: bool,
    arming_switch_on: bool,
    battery: BatteryLevel,
) -> Mode {
    if !soft_armed || !rc_connected {
        Mode::Off
    } else if !arming_switch_on {
        Mode::Disarmed
    } else if battery != BatteryLevel::Sufficient && previous != Mode::Armed {
        Mode::Disarmed
    } else {
        Mode::Armed
    }
}

/// LED colour shown in each mode: green when armed, red when disarmed, dark
/// when off.
pub open spec fn led_of(mode: Mode) -> Option<LedColor> {
    match mode {
        Mode::Armed => Some(LedColor::Green),
        Mode::Disarmed => Some(LedColor::Red),
        Mode::Off => None,
    }
}

pub fn led_for_mode(mode: Mode) -> (r: Option<LedColor>)
    ensures
        r == led_of(mode),
{
    match mode {
        Mode::Armed => Some(LedColor::Green),
        Mode::Disarmed => Some(LedColor::Red),
        Mode::Off => None,
    }
}

/// What the motors are given in a control cycle.
#[derive(Debug, Clone, Copy, PartialEq, Eq, Structural)]
pub enum MotorCommand {
    /// Every ESC at zero.
    Stop,
    /// The mixer's outputs from the attitude and rate controllers.
    Mix,
    /// The throttle stick straight to every ESC, for calibration sweeps.
    Passthrough,
}

/// Motors stop unless armed; when armed they take the mixer's outputs, or
/// the throttle itself while the passthrough switch is on.
pub open spec fn motor_command_of(mode: Mode, passthrough_switch_on: bool) -> MotorCommand {
    if mode != Mode::Armed {
        MotorCommand::Stop
    } else if passthrough_switch_on {
        MotorCommand::Passthrough
    } else {
        MotorCommand::Mix
    }
}

pub fn motor_command(mode: Mode, passthrough_switch_on: bool) -> (r: MotorCommand)
    ensures
        r == motor_command_of(mode, passthrough_switch_on),
{
    if mode != Mode::Armed {
        MotorCommand::Stop
    } else if passthrough_switch_on {
        MotorCommand::Passthrough
    } else {
        MotorCommand::Mix
    }
}

/// A raw RC channel value limited to `max` from above and then to `min`
/// from below, as an offset from `min`. Normalising divides it by
/// `max - min`.
pub open spec fn rc_offset(channel: int, min: int, max: int) -> int {
    let upper = if channel < max { channel } else { max };
    (if upper > min { upper } else { min }) - min
}

pub fn rc_channel_offset(channel: u16, min: u16, max: u16) -> (r: u16)
    ensures
        r == rc_offset(channel as int, min as int, max as int),
        min <= max ==> r <= max - min,
{
    let upper = if channel < max { channel } else { max };
    let lower = if upper > min { upper } else { min };
    lower - min
}

/// Remembers the mode of the previous control cycle.
pub struct ArmingState {
    pub previous_mode: Mode,
}

impl ArmingState {
    pub fn new() -> (r: Self)
        ensures
            r.previous_mode == Mode::Off,
    {
        ArmingState { previous_mode: Mode::Off }
    }

    /// Decides the mode of this cycle and remembers it.
    pub fn mode(
        &mut self,
        soft_armed: bool,
        rc_connected: bool,
        arming_switch_on: bool,
        battery: BatteryLevel,
    ) -> (r: Mode)
        ensures
            r == next_mode(old(self).previous_mode, soft_armed, rc_connected, arming_switch_on, battery),
            final(self).previous_mode == r,
    {
        let mode = if !soft_armed || !rc_connected {
            Mode::Off
        } else if !arming_switch_on {
            Mode::Disarmed
        } else if battery != BatteryLevel::Sufficient && self.previous_mode != Mode::Armed {
            Mode::Disarmed
        } else {
            Mode::Armed
        };
        self.previous_mode = mode;
        mode
    }
}

/// Once armed, a falling battery never disarms the vehicle by itself: only
/// the soft arm, the radio or the arming switch do.
pub proof fn lemma_armed_survives_low_battery(
    soft_armed: bool,
    rc_connected: bool,
    arming_switch_on: bool,
    battery: BatteryLevel,
)
    requires
        soft_armed,
        rc_connected,
        arming_switch_on,
    ensures
        next_mode(Mode::Armed, soft_armed, rc_connected, arming_switch_on, battery) == Mode::Armed,
{
}

} // verus!
