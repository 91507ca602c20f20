//! Mode selection of the tracked ground robot.
//!
//! There are three levels of arming: software (the program runs and is
//! soft-armed), radio controlled, and autonomous heading hold.

use vstd::prelude::*;

verus! {

/// Index of the RC channel that arms the robot.
pub const TRIGGER_A: usize = 4;

/// Index of the RC channel that switches to autonomous heading hold.
pub const TRIGGER_B: usize = 5;

#[derive(Debug, Clone, Copy, PartialEq, Eq, Structural)]
pub enum TankMode {
    ArmedControlled,
    ArmedAutonomous,
    Disarmed,
    Failsafe,
}

/// What the mode rule reads from an RC packet.
#[derive(Debug, Clone, Copy, PartialEq, Eq, Structural)]
pub struct RcSwitches {
    /// The receiver reports failsafe.
    pub failsafe: bool,
    /// Channel `TRIGGER_A` is above its centre.
    pub trigger_a_on: bool,
    /// Channel `TRIGGER_B` is above its centre.
    pub trigger_b_on: bool,
}

/// Disarmed until both the soft arm state and an RC packet are known; then
/// failsafe when the receiver says so; then armed when soft-armed with
/// trigger A on (autonomous when trigger B is on too); else disarmed.
pub open spec fn tank_mode_of(soft_armed: Option<bool>, rc: Option<RcSwitches>) -> TankMode {
    match (soft_armed, rc) {
        (Some(armed), Some(switches)) => if switches.failsafe {
            TankMode::Failsafe
        } else if armed && switches.trigger_a_on {
            if switches.trigger_b_on {
                TankMode::ArmedAutonomous
            } else {
                TankMode::ArmedControlled
            }
        } else {
            TankMode::Disarmed
        },
        _ => TankMode::Disarmed,
    }
}

pub fn tank_mode(soft_armed: Option<bool>, rc: Option<RcSwitches>) -> (r: TankMode)
    ensures
        r == tank_mode_of(soft_armed, rc),
{
    match (soft_armed, rc) {
        (Some(armed), Some(switches)) => {
            if switches.failsafe {
                TankMode::Failsafe
            } else if armed && switches.trigger_a_on {
                if switches.trigger_b_on {
                    TankMode::ArmedAutonomous
                } else {
                    TankMode::ArmedControlled
                }
            } else {
                TankMode::Disarmed
            }
        },
        _ => TankMode::Disarmed,
    }
}

/// Remembers the mode of the previous cycle.
pub struct TankModeState {
    pub last_mode: Option<TankMode>,
}

impl TankModeState {
    pub fn new() -> (r: Self)
        ensures
            r.last_mode is None,
    {
        TankModeState { last_mode: None }
    }

    /// Decides the mode of this cycle and remembers it. The flag is set when
    /// autonomous mode is entered from another mode, which is when the
    /// heading target is taken anew.
    pub fn update(&mut self, soft_armed: Option<bool>, rc: Option<RcSwitches>) -> (r: (
        TankMode,
        bool,
    ))
        ensures
            r.0 == tank_mode_of(soft_armed, rc),
            r.1 == (r.0 == TankMode::ArmedAutonomous && old(self).last_mode is Some
                && old(self).last_mode != Some(r.0)),
            final(self).last_mode == Some(r.0),
    {
        let mode = tank_mode(soft_armed, rc);
        let retarget = match self.last_mode {
            Some(last) => mode == TankMode::ArmedAutonomous && last != mode,
            None => false,
        };
        self.last_mode = Some(mode);
        (mode, retarget)
    }
}

} // verus!
