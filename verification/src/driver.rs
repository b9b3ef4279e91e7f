//! The driver: power sequencing, carrier frequency and per-channel PWM.

use crate::bus::{Bus, Link, Transfer};
use crate::device::Device;
use crate::protocol::{
    carried_out, completed_runs_agree, latch, power_off_writes, power_on_writes,
    set_frequency_writes, set_pwm_writes, under_way, RegisterWrite,
};
use crate::registers::{
    valid_channel, OutputCurrent, OutputFrequency, Register, SoftwareShutdownMode, CH_NUM,
};
use vstd::prelude::*;

verus! {

/// What can go wrong in an operation of the driver.
#[derive(Debug, Copy, Clone)]
pub enum Error<E> {
    /// An argument was out of range. Nothing was sent.
    Param,
    /// The bus refused a write; this is the error it gave.
    Bus(E),
}

impl<E> Error<E> {
    /// The result of an operation whose last write the bus answered with
    /// `outcome`: the same, with the bus's error marked as such.
    pub open spec fn of_bus(outcome: Result<(), E>) -> Result<(), Error<E>> {
        match outcome {
            Ok(()) => Ok(()),
            Err(e) => Err(Error::Bus(e)),
        }
    }
}

/// Driver for one IS31FL3235A on the bus `I2C`.
pub struct Is31fl3235a<I2C: Bus> {
    link: Link<I2C>,
    addr: u8,
}

impl<I2C: Bus> Is31fl3235a<I2C> {
    /// The bus address of the device, fixed when the driver is made.
    pub closed spec fn address(&self) -> u8 {
        self.addr
    }

    /// Every write this driver has handed to the bus, oldest first.
    pub closed spec fn transcript(&self) -> Seq<Transfer<I2C::Error>> {
        self.link.transcript()
    }

    /// Whether the step from `self` to `next` is one run of `plan` that
    /// ended with `result`: the address is unchanged, the transcript of
    /// `self` is kept, and what follows it in that of `next` is that run.
    pub open spec fn performs(
        &self,
        next: &Self,
        plan: Seq<RegisterWrite>,
        result: Result<(), I2C::Error>,
    ) -> bool {
        &&& next.address() == self.address()
        &&& self.transcript().is_prefix_of(next.transcript())
        &&& carried_out(
            next.transcript().skip(self.transcript().len() as int),
            self.address(),
            plan,
            result,
        )
    }

    /// Binds the bus and the address of the device. Nothing is sent.
    pub fn new(i2c: I2C, address: u8) -> (driver: Self)
        ensures
            driver.address() == address,
            driver.transcript() == Seq::<Transfer<I2C::Error>>::empty(),
    {
        Is31fl3235a { link: Link::new(i2c), addr: address }
    }

    /// Whether this driver is in the middle of a run of `plan` that began
    /// when its transcript was `base`: `base` is kept, and every write made
    /// since follows the plan and was accepted.
    spec fn midway(&self, base: Seq<Transfer<I2C::Error>>, plan: Seq<RegisterWrite>) -> bool {
        &&& base.is_prefix_of(self.transcript())
        &&& under_way(self.transcript().skip(base.len() as int), self.address(), plan)
    }

    /// Whether the step from `self` to `next` is the next write of a run of
    /// `plan` that began when the transcript was `base`, answered by the
    /// bus with `outcome`. If the write was accepted the run is still under
    /// way; if it was refused, or was the last of the plan, the run is over
    /// and `outcome` is its result.
    spec fn advances(
        &self,
        next: &Self,
        base: Seq<Transfer<I2C::Error>>,
        plan: Seq<RegisterWrite>,
        outcome: Result<(), I2C::Error>,
    ) -> bool {
        &&& next.address() == self.address()
        &&& next.transcript().len() == self.transcript().len() + 1
        &&& base.is_prefix_of(next.transcript())
        &&& outcome is Ok ==> next.midway(base, plan)
        &&& outcome is Err || next.transcript().len() - base.len() == plan.len() ==> carried_out(
            next.transcript().skip(base.len() as int),
            self.address(),
            plan,
            outcome,
        )
    }

    /// Makes the next write of a run of `plan` that began when the
    /// transcript was `base`: `value` to the register at `register`.
    fn send(
        &mut self,
        Ghost(base): Ghost<Seq<Transfer<I2C::Error>>>,
        Ghost(plan): Ghost<Seq<RegisterWrite>>,
        register: u8,
        value: u8,
    ) -> (outcome: Result<(), I2C::Error>)
        requires
            old(self).midway(base, plan),
            old(self).transcript().len() - base.len() < plan.len(),
            plan[old(self).transcript().len() - base.len()] == (RegisterWrite { register, value }),
        ensures
            old(self).advances(final(self), base, plan, outcome),
    {
        let temp: [u8; 2] = [register, value];
        let outcome = self.link.write(self.addr, temp.as_slice());
        proof {
            let sent = Transfer { address: self.addr, bytes: temp@, outcome };
            assert(temp@ =~= RegisterWrite { register, value }.bytes());
            assert(self.transcript().skip(base.len() as int) =~= old(self).transcript().skip(
                base.len() as int,
            ).push(sent));
        }
        outcome
    }

    /// Makes the device take over the pending PWM and control values, as
    /// the next write of a run of `plan` that began when the transcript was
    /// `base`.
    fn apply_changes(
        &mut self,
        Ghost(base): Ghost<Seq<Transfer<I2C::Error>>>,
        Ghost(plan): Ghost<Seq<RegisterWrite>>,
    ) -> (outcome: Result<(), I2C::Error>)
        requires
            old(self).midway(base, plan),
            old(self).transcript().len() - base.len() < plan.len(),
            plan[old(self).transcript().len() - base.len()] == latch(),
        ensures
            old(self).advances(final(self), base, plan, outcome),
    {
        self.send(Ghost(base), Ghost(plan), Register::Update.address(), 0x0)
    }

    /// Brings the device from any state into normal operation with all 28
    /// channels enabled and the maximum output current.
    ///
    /// The writes are those of `power_on_writes`, in order. The first one
    /// that the bus refuses ends the operation with the bus's error, and
    /// nothing is sent after it. If none is refused, a device that has taken
    /// them is powered on, whatever state it was in.
    pub fn power_on(&mut self) -> (result: Result<(), I2C::Error>)
        ensures
            old(self).performs(final(self), power_on_writes(), result),
            result is Ok ==> forall|before: Device|
                (#[trigger] before.after(power_on_writes())).powered_on(),
    {
        let ghost base = self.transcript();
        let ghost plan = power_on_writes();
        assert(self.transcript().skip(base.len() as int) =~= Seq::empty());
        assert forall|before: Device| (#[trigger] before.after(power_on_writes())).powered_on() by {
            before.power_on_reaches_known_state();
        }

        // Reset all registers to their defaults.
        match self.send(Ghost(base), Ghost(plan), Register::Reset.address(), 0x0) {
            Err(e) => { return Err(e); },
            Ok(()) => {},
        }
        // Leave shutdown.
        match self.send(
            Ghost(base),
            Ghost(plan),
            Register::Shutdown.address(),
            SoftwareShutdownMode::Normal.value(),
        ) {
            Err(e) => { return Err(e); },
            Ok(()) => {},
        }
        // Enable all channels.
        let mut i: u8 = 0;
        while i < CH_NUM
            invariant
                i <= CH_NUM,
                plan == power_on_writes(),
                base == old(self).transcript(),
                self.address() == old(self).address(),
                self.midway(base, plan),
                self.transcript().len() == base.len() + 2 + i,
            decreases CH_NUM - i,
        {
            match self.send(
                Ghost(base),
                Ghost(plan),
                Register::LedControl.address() + i,
                0x1,
            ) {
                Err(e) => { return Err(e); },
                Ok(()) => {},
            }
            i += 1;
        }
        match self.apply_changes(Ghost(base), Ghost(plan)) {
            Err(e) => { return Err(e); },
            Ok(()) => {},
        }
        // Select the maximum output current.
        self.send(
            Ghost(base),
            Ghost(plan),
            Register::GlobalControl.address(),
            OutputCurrent::Max.value(),
        )
    }

    /// Places the device in software shutdown.
    ///
    /// The one write is that of `power_off_writes`. If the bus accepts it, a
    /// device that has taken it is shut down, and its other registers hold
    /// what they held.
    pub fn power_off(&mut self) -> (result: Result<(), I2C::Error>)
        ensures
            old(self).performs(final(self), power_off_writes(), result),
            result is Ok ==> forall|before: Device|
                (#[trigger] before.after(power_off_writes())).powered_off_from(before),
    {
        let ghost base = self.transcript();
        assert(self.transcript().skip(base.len() as int) =~= Seq::empty());
        assert forall|before: Device|
            (#[trigger] before.after(power_off_writes())).powered_off_from(before) by {
            before.power_off_keeps_contents();
        }
        self.send(
            Ghost(base),
            Ghost(power_off_writes()),
            Register::Shutdown.address(),
            SoftwareShutdownMode::Shutdown.value(),
        )
    }

    /// Selects the PWM carrier frequency of all channels.
    ///
    /// The one write is that of `set_frequency_writes`. If the bus accepts
    /// it, a device that has taken it holds the code of `f` in its frequency
    /// register, and its other registers hold what they held.
    pub fn set_frequency(&mut self, f: OutputFrequency) -> (result: Result<(), I2C::Error>)
        ensures
            old(self).performs(final(self), set_frequency_writes(f), result),
            result is Ok ==> forall|before: Device|
                (#[trigger] before.after(set_frequency_writes(f))).frequency_set_from(before, f),
    {
        let ghost base = self.transcript();
        assert(self.transcript().skip(base.len() as int) =~= Seq::empty());
        assert forall|before: Device|
            (#[trigger] before.after(set_frequency_writes(f))).frequency_set_from(before, f) by {
            before.set_frequency_stores_code(f);
        }
        self.send(
            Ghost(base),
            Ghost(set_frequency_writes(f)),
            Register::OutputFrequency.address(),
            f.value(),
        )
    }

    /// Sets the duty cycle of channel `ch` to `value` and makes it show.
    ///
    /// A channel outside 1 to 28 is refused with `Error::Param` before
    /// anything is sent. Otherwise the writes are those of `set_pwm_writes`:
    /// the channel's PWM register, then the latch. The first one that the
    /// bus refuses ends the operation with the bus's error. If none is
    /// refused, a device that has taken them drives the channel with the new
    /// duty cycle.
    pub fn set_pwm(&mut self, ch: u8, value: u8) -> (result: Result<(), Error<I2C::Error>>)
        ensures
            final(self).address() == old(self).address(),
            !valid_channel(ch) ==> result == Err::<(), Error<I2C::Error>>(Error::Param),
            !valid_channel(ch) ==> final(self).transcript() == old(self).transcript(),
            valid_channel(ch) ==> final(self).transcript().len() > old(self).transcript().len(),
            valid_channel(ch) ==> old(self).performs(
                final(self),
                set_pwm_writes(ch, value),
                final(self).transcript().last().outcome,
            ),
            valid_channel(ch) ==> result == Error::of_bus(final(self).transcript().last().outcome),
            result is Ok ==> forall|before: Device|
                (#[trigger] before.after(set_pwm_writes(ch, value))).pwm_set_from(
                    before,
                    ch,
                    value,
                ),
    {
        if ch < 1 || ch > CH_NUM {
            return Err(Error::Param);
        }
        let ghost base = self.transcript();
        let ghost plan = set_pwm_writes(ch, value);
        assert(self.transcript().skip(base.len() as int) =~= Seq::empty());
        assert forall|before: Device|
            (#[trigger] before.after(plan)).pwm_set_from(before, ch, value) by {
            before.set_pwm_shows(ch, value);
        }

        match self.send(Ghost(base), Ghost(plan), Register::Pwm.address() + ch - 1, value) {
            Err(e) => { return Err(Error::Bus(e)); },
            Ok(()) => {},
        }
        match self.apply_changes(Ghost(base), Ghost(plan)) {
            Err(e) => Err(Error::Bus(e)),
            Ok(()) => Ok(()),
        }
    }

    /// Setting one duty cycle twice in a row sends the same two writes each
    /// time: if both calls succeed, the second hands to the bus what the
    /// first did.
    pub proof fn set_pwm_twice_sends_the_same(
        before: &Self,
        between: &Self,
        after: &Self,
        ch: u8,
        value: u8,
    )
        requires
            valid_channel(ch),
            before.performs(between, set_pwm_writes(ch, value), Ok(())),
            between.performs(after, set_pwm_writes(ch, value), Ok(())),
        ensures
            ({
                let first = between.transcript().skip(before.transcript().len() as int);
                let second = after.transcript().skip(between.transcript().len() as int);
                &&& first.len() == 2
                &&& second.len() == 2
                &&& forall|i: int|
                    0 <= i < 2 ==> (#[trigger] first[i]).address == second[i].address
                        && first[i].bytes == second[i].bytes
            }),
    {
        completed_runs_agree(
            between.transcript().skip(before.transcript().len() as int),
            after.transcript().skip(between.transcript().len() as int),
            before.address(),
            set_pwm_writes(ch, value),
        );
    }
}

} // verus!
