//! PWM channels of the sysfs interface, and the ESC output stage built on
//! them. The channels are driven through sysfs by the platform.

use crate::config::same_text;
use vstd::prelude::*;

verus! {

#[derive(Debug, Clone, Copy, PartialEq, Eq, Structural)]
pub enum Polarity {
    Normal,
    Inverse,
}

/// Text of the polarity attribute of a sysfs PWM channel.
pub open spec fn polarity_name(polarity: Polarity) -> Seq<char> {
    match polarity {
        Polarity::Normal => "normal"@,
        Polarity::Inverse => "inversed"@,
    }
}

pub fn polarity_text(polarity: Polarity) -> (r: &'static str)
    ensures
        r@ == polarity_name(polarity),
{
    match polarity {
        Polarity::Normal => "normal",
        Polarity::Inverse => "inversed",
    }
}

/// Reads the (trimmed) polarity attribute: anything but `normal` is inverse.
pub fn polarity_from_text(text: &str) -> (r: Polarity)
    ensures
        r == (if text@ == "normal"@ { Polarity::Normal } else { Polarity::Inverse }),
{
    if same_text(text, "normal") {
        Polarity::Normal
    } else {
        Polarity::Inverse
    }
}

/// Text of the enable attribute of a sysfs PWM channel.
pub fn enabled_text(enabled: bool) -> (r: &'static str)
    ensures
        r@ == (if enabled { "1"@ } else { "0"@ }),
{
    if enabled {
        "1"
    } else {
        "0"
    }
}

/// Reads the (trimmed) enable attribute: anything but `0` is enabled.
pub fn enabled_from_text(text: &str) -> (r: bool)
    ensures
        r == (text@ != "0"@),
{
    !same_text(text, "0")
}

/// One PWM channel, by its sysfs number. `unexport_on_drop` asks the
/// platform to unexport the channel once it is no longer used.
#[derive(Debug)]
pub struct PwmPin {
    channel: u32,
    unexport_on_drop: bool,
}

impl PwmPin {
    pub closed spec fn spec_channel(&self) -> u32 {
        self.channel
    }

    pub closed spec fn spec_unexport_on_drop(&self) -> bool {
        self.unexport_on_drop
    }

    pub fn new(channel: u32) -> (r: PwmPin)
        ensures
            r.spec_channel() == channel,
            r.spec_unexport_on_drop(),
    {
        PwmPin { channel, unexport_on_drop: true }
    }

    pub fn channel(&self) -> (r: u32)
        ensures
            r == self.spec_channel(),
    {
        self.channel
    }

    pub fn unexport_on_drop(&self) -> (r: bool)
        ensures
            r == self.spec_unexport_on_drop(),
    {
        self.unexport_on_drop
    }
}

pub const QUADCOPTER_ESC_CHANNELS: usize = 4;

/// Highest PWM frequency of the board: 400 Hz.
pub const NAVIO_MAX_PWM_FREQUENCY: u64 = 400;

/// Carrier period: 2.5 ms.
pub const PERIOD_NS: u64 = 1_000_000_000 / NAVIO_MAX_PWM_FREQUENCY;

/// Pulse width of a stopped motor: 1000 µs.
pub const MIN_VALUE_NS: u64 = 1_000_000;

/// Pulse width of a motor at full power: 2000 µs.
pub const MAX_VALUE_NS: u64 = 2_000_000;

pub const VALUE_RANGE_NS: u64 = MAX_VALUE_NS - MIN_VALUE_NS;

/// The four ESC channels of the quadcopter, in motor order.
pub struct NavioEscOutputController {
    pub esc_channels: [PwmPin; QUADCOPTER_ESC_CHANNELS],
}

impl NavioEscOutputController {
    pub fn new(esc_channels: [u32; QUADCOPTER_ESC_CHANNELS]) -> (r: Self)
        ensures
            forall|i: int|
                0 <= i < QUADCOPTER_ESC_CHANNELS ==> (#[trigger] r.esc_channels@[i]).spec_channel()
                    == esc_channels@[i] && r.esc_channels@[i].spec_unexport_on_drop(),
    {
        NavioEscOutputController {
            esc_channels: [
                PwmPin::new(esc_channels[0]),
                PwmPin::new(esc_channels[1]),
                PwmPin::new(esc_channels[2]),
                PwmPin::new(esc_channels[3]),
            ],
        }
    }
}

} // verus!
