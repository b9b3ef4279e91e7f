//! The driver's side of the I2C bus.
//!
//! The driver needs one thing of a bus: to write a few bytes to the device
//! at a given address and to learn whether that worked. `Bus` is that
//! capability. Whether a write reaches the device is decided by the bus, so
//! nothing here says that one succeeds. What the driver does control is
//! which writes it asks for and in what order. A `Link` owns the bus and
//! keeps, as ghost state, the transcript of every write it has handed over
//! together with the bus's answer; the contracts of the driver are stated
//! over that transcript.

use vstd::prelude::*;

verus! {

/// A blocking, write-only I2C master.
///
/// The trait carries no contract. The driver takes whatever `write` returns
/// as the bus's answer, so what is proved of the driver holds for every
/// implementation.
pub trait Bus {
    /// What the bus reports when a write fails.
    type Error;

    /// Writes `bytes` to the device at `address` in one transaction.
    fn write(&mut self, address: u8, bytes: &[u8]) -> Result<(), Self::Error>;
}

/// One write handed to the bus: the address of the device it was meant for,
/// the bytes, and what the bus answered.
pub struct Transfer<E> {
    pub address: u8,
    pub bytes: Seq<u8>,
    pub outcome: Result<(), E>,
}

/// A bus together with the transcript of the writes made through it.
///
/// The fields are private and `write` is the only function that touches the
/// bus or extends the transcript, so the transcript holds exactly the calls
/// that were made, oldest first.
pub struct Link<B: Bus> {
    bus: B,
    log: Ghost<Seq<Transfer<B::Error>>>,
}

impl<B: Bus> Link<B> {
    /// Every write made through this link so far, oldest first.
    pub closed spec fn transcript(&self) -> Seq<Transfer<B::Error>> {
        self.log@
    }

    /// Takes ownership of the bus. No write is made.
    pub fn new(bus: B) -> (link: Self)
        ensures
            link.transcript() == Seq::<Transfer<B::Error>>::empty(),
    {
        Link { bus, log: Ghost(Seq::empty()) }
    }

    /// Writes `bytes` to the device at `address` and returns the bus's
    /// answer. The transcript grows by this one write, whatever the answer.
    pub fn write(&mut self, address: u8, bytes: &[u8]) -> (outcome: Result<(), B::Error>)
        ensures
            final(self).transcript() == old(self).transcript().push(
                (Transfer { address, bytes: bytes@, outcome }),
            ),
    {
        let outcome = self.bus.write(address, bytes);
        proof {
            self.log@ = self.log@.push(Transfer { address, bytes: bytes@, outcome });
        }
        outcome
    }
}

} // verus!
