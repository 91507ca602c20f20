//! The two-wire bus over which sensor drivers talk to their devices.
//!
//! Drivers talk through a `RecordingBus`, which keeps a ghost record of every
//! transfer and its outcome, so that a driver's contract can say which
//! register accesses it performs and how its result follows from them.

use vstd::prelude::*;

verus! {

/// A blocking I2C bus master, implemented by the platform.
pub trait I2cBus {
    type Error;

    /// Writes `bytes` to the device at `address`.
    fn write(&mut self, address: u8, bytes: &[u8]) -> Result<(), Self::Error>;

    /// Writes `bytes` to the device at `address`, then reads as many bytes
    /// as `buffer` holds back into it.
    fn write_read(&mut self, address: u8, bytes: &[u8], buffer: &mut [u8]) -> Result<
        (),
        Self::Error,
    >;
}

/// One transfer: device address, bytes written, bytes read back (none for a
/// plain write), and what the bus reported.
pub type BusEvent<E> = (u8, Seq<u8>, Seq<u8>, Result<(), E>);

/// `value` if the transfer `event` succeeded, else the bus error.
pub open spec fn bus_result<E, T>(event: BusEvent<E>, value: T) -> Result<T, E> {
    match event.3 {
        Ok(()) => Ok(value),
        Err(e) => Err(e),
    }
}

/// `after` holds the events of `before`, in place, and possibly more.
pub open spec fn keeps<T>(before: Seq<T>, after: Seq<T>) -> bool {
    &&& before.len() <= after.len()
    &&& forall|i: int| 0 <= i < before.len() ==> after[i] == before[i]
}

/// A bus that records each transfer made through it.
pub struct RecordingBus<B: I2cBus> {
    bus: B,
    log: Ghost<Seq<BusEvent<B::Error>>>,
}

impl<B: I2cBus> RecordingBus<B> {
    /// The transfers made through this bus, oldest first.
    pub closed spec fn events(&self) -> Seq<BusEvent<B::Error>> {
        self.log@
    }

    pub fn new(bus: B) -> (r: Self)
        ensures
            r.events() == Seq::<BusEvent<B::Error>>::empty(),
    {
        RecordingBus { bus, log: Ghost(Seq::empty()) }
    }

    /// The underlying bus.
    pub fn bus(&self) -> &B {
        &self.bus
    }

    pub fn write(&mut self, address: u8, bytes: &[u8]) -> (r: Result<(), B::Error>)
        ensures
            final(self).events() == old(self).events().push((address, bytes@, Seq::empty(), r)),
    {
        let r = self.bus.write(address, bytes);
        self.log = Ghost(self.log@.push((address, bytes@, Seq::empty(), r)));
        r
    }

    pub fn write_read(&mut self, address: u8, bytes: &[u8], buffer: &mut [u8]) -> (r: Result<
        (),
        B::Error,
    >)
        ensures
            final(self).events() == old(self).events().push((address, bytes@, final(buffer)@, r)),
    {
        let r = self.bus.write_read(address, bytes, buffer);
        self.log = Ghost(self.log@.push((address, bytes@, buffer@, r)));
        r
    }
}

} // verus!
