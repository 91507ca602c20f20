//! Folds the stream of inputs into the latest snapshot of each kind.
//!
//! Payloads are type parameters: the collector only keeps the latest value
//! of each kind and never looks inside one.

use vstd::prelude::*;

verus! {

/// One input message: the latest value of one kind.
#[derive(Debug, Clone, Copy)]
pub enum Input<A, O, R> {
    /// RC channels, or nothing when the receiver is disconnected.
    RcChannels(Option<R>),
    /// Board, servo and external voltages and the external current.
    NavioAdc(A),
    /// Attitude estimate with the IMU reading it came from.
    Orientation(O),
    SoftArmed(bool),
}

/// The latest value of each kind of input.
#[derive(Debug, Clone, Copy)]
pub struct QuadcopterInputFrame<A, O, R> {
    pub navio_adc: A,
    pub orientation: O,
    pub rc_channels: Option<R>,
    pub soft_armed: bool,
}

/// `frame` with the value that `input` carries in place of the old one.
pub open spec fn updated<A, O, R>(
    frame: QuadcopterInputFrame<A, O, R>,
    input: Input<A, O, R>,
) -> QuadcopterInputFrame<A, O, R> {
    match input {
        Input::RcChannels(rc_channels) => QuadcopterInputFrame { rc_channels, ..frame },
        Input::NavioAdc(navio_adc) => QuadcopterInputFrame { navio_adc, ..frame },
        Input::Orientation(orientation) => QuadcopterInputFrame { orientation, ..frame },
        Input::SoftArmed(soft_armed) => QuadcopterInputFrame { soft_armed, ..frame },
    }
}

pub struct QuadcopterCollector<A, O, R> {
    pub input_frame: QuadcopterInputFrame<A, O, R>,
}

impl<A: Copy, O: Copy, R: Copy> QuadcopterCollector<A, O, R> {
    /// A collector whose snapshot starts from the given readings, with no
    /// RC channels and not soft-armed.
    pub fn new(navio_adc: A, orientation: O) -> (r: Self)
        ensures
            r.input_frame == (QuadcopterInputFrame::<A, O, R> {
                navio_adc,
                orientation,
                rc_channels: None,
                soft_armed: false,
            }),
    {
        QuadcopterCollector {
            input_frame: QuadcopterInputFrame { navio_adc, orientation, rc_channels: None, soft_armed: false },
        }
    }

    /// Records `input` and returns a copy of the updated snapshot.
    pub fn collect(&mut self, input: Input<A, O, R>) -> (r: QuadcopterInputFrame<A, O, R>)
        ensures
            final(self).input_frame == updated(old(self).input_frame, input),
            r == final(self).input_frame,
    {
        match input {
            Input::RcChannels(rc_channels) => self.input_frame.rc_channels = rc_channels,
            Input::NavioAdc(navio_adc) => self.input_frame.navio_adc = navio_adc,
            Input::Orientation(orientation) => self.input_frame.orientation = orientation,
            Input::SoftArmed(soft_armed) => self.input_frame.soft_armed = soft_armed,
        }
        self.input_frame
    }
}

/// Collecting the same message twice in a row yields the same frame twice.
pub proof fn lemma_collect_duplicate<A, O, R>(
    frame: QuadcopterInputFrame<A, O, R>,
    input: Input<A, O, R>,
)
    ensures
        updated(updated(frame, input), input) == updated(frame, input),
{
}

/// One input message of the ground robot.
#[derive(Debug, Clone, Copy)]
pub enum TankInput<O, R, A> {
    RcChannels(R),
    SoftArmed(bool),
    /// Heading, roll and pitch, with when they were read.
    OrientationEuler(O),
    /// Altitude; the robot does not use it.
    Altitude(A),
}

/// The latest value of each kind of input that the robot uses, if any has
/// arrived.
#[derive(Debug, Clone, Copy)]
pub struct TankInputFrame<O, R> {
    pub orientation: Option<O>,
    pub rc_channels: Option<R>,
    pub soft_armed: Option<bool>,
}

/// `frame` with the value that `input` carries in place of the old one; an
/// input the robot does not use leaves it as it is.
pub open spec fn tank_updated<O, R, A>(frame: TankInputFrame<O, R>, input: TankInput<O, R, A>) -> TankInputFrame<O, R> {
    match input {
        TankInput::RcChannels(rc) => TankInputFrame { rc_channels: Some(rc), ..frame },
        TankInput::SoftArmed(armed) => TankInputFrame { soft_armed: Some(armed), ..frame },
        TankInput::OrientationEuler(o) => TankInputFrame { orientation: Some(o), ..frame },
        TankInput::Altitude(_) => frame,
    }
}

pub struct TankCollector<O, R> {
    pub input_frame: TankInputFrame<O, R>,
}

impl<O: Copy, R: Copy> TankCollector<O, R> {
    /// A collector that has seen nothing yet.
    pub fn new() -> (r: Self)
        ensures
            r.input_frame == (TankInputFrame::<O, R> { orientation: None, rc_channels: None, soft_armed: None }),
    {
        TankCollector { input_frame: TankInputFrame { orientation: None, rc_channels: None, soft_armed: None } }
    }

    /// Records `input` and returns a copy of the updated snapshot.
    pub fn collect<A>(&mut self, input: TankInput<O, R, A>) -> (r: TankInputFrame<O, R>)
        ensures
            final(self).input_frame == tank_updated(old(self).input_frame, input),
            r == final(self).input_frame,
    {
        match input {
            TankInput::RcChannels(rc) => self.input_frame.rc_channels = Some(rc),
            TankInput::SoftArmed(armed) => self.input_frame.soft_armed = Some(armed),
            TankInput::OrientationEuler(o) => self.input_frame.orientation = Some(o),
            TankInput::Altitude(_) => {},
        }
        self.input_frame
    }
}

} // verus!
