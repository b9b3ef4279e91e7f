//! A model of the device as the driver sees it: what its registers hold and
//! what its outputs do after a list of writes that the bus accepted.
//!
//! The model is ghost code. It gives the plans of the driver a meaning, so
//! that what an operation is for can be stated and proved: that a power-on
//! leaves every channel enabled whatever came before, that a new duty cycle
//! shows once the operation is over, that repeating an operation changes
//! nothing.

use crate::protocol::{
    enable_all_channels, latch, power_off_writes, power_on_writes, set_frequency_writes,
    set_pwm_writes, RegisterWrite,
};
use crate::registers::{
    led_control_register, pwm_register, valid_channel, OutputCurrent, OutputFrequency, Register,
    SoftwareShutdownMode, CH_NUM,
};
use vstd::prelude::*;

verus! {

/// The state of one device.
#[verifier::ext_equal]
pub struct Device {
    /// What each register holds, by address.
    pub registers: spec_fn(u8) -> u8,
    /// What the registers held when the device last latched. The output
    /// stage takes the duty cycle and the enable of each channel from here,
    /// not from `registers`.
    pub latched: spec_fn(u8) -> u8,
}

impl Device {
    /// The state after power-up or a reset: every register holds 0, so the
    /// device is shut down, all channels are disabled and all duty cycles
    /// are 0.
    pub open spec fn defaults() -> Device {
        Device { registers: |r: u8| 0u8, latched: |r: u8| 0u8 }
    }

    /// The state after the device has accepted `w`.
    ///
    /// A write to the reset register brings back the defaults, whatever its
    /// value. A write to the update register stores nothing and latches. Any
    /// other write stores its value and leaves the output stage alone.
    pub open spec fn write(self, w: RegisterWrite) -> Device {
        if w.register == Register::Reset.spec_address() {
            Device::defaults()
        } else if w.register == Register::Update.spec_address() {
            Device { registers: self.registers, latched: self.registers }
        } else {
            Device {
                registers: |r: u8|
                    if r == w.register {
                        w.value
                    } else {
                        (self.registers)(r)
                    },
                latched: self.latched,
            }
        }
    }

    /// The state after the device has accepted `writes`, first to last.
    pub open spec fn after(self, writes: Seq<RegisterWrite>) -> Device
        decreases writes.len(),
    {
        if writes.len() == 0 {
            self
        } else {
            self.after(writes.drop_last()).write(writes.last())
        }
    }

    /// What the register at `address` holds.
    #[verifier::inline]
    pub open spec fn register(self, address: u8) -> u8 {
        (self.registers)(address)
    }

    /// Whether the device is in normal operation, as opposed to software
    /// shutdown. The shutdown register decides, at once.
    pub open spec fn running(self) -> bool {
        self.register(Register::Shutdown.spec_address())
            == SoftwareShutdownMode::Normal.spec_value()
    }

    /// Whether the output stage has `channel` enabled.
    pub open spec fn enabled(self, channel: u8) -> bool
        recommends
            valid_channel(channel),
    {
        (self.latched)(led_control_register(channel)) == 0x1
    }

    /// The duty cycle that the output stage has for `channel`.
    pub open spec fn duty(self, channel: u8) -> u8
        recommends
            valid_channel(channel),
    {
        (self.latched)(pwm_register(channel))
    }

    /// The duty cycle that `channel` is driven with: that of the output
    /// stage if the device is running and the channel is enabled, else 0.
    pub open spec fn output(self, channel: u8) -> u8
        recommends
            valid_channel(channel),
    {
        if self.running() && self.enabled(channel) {
            self.duty(channel)
        } else {
            0
        }
    }

    /// Whether the device is in the state that a power-on leaves: running,
    /// every channel enabled with a duty cycle of 0, the maximum output
    /// current selected, and nothing pending.
    pub open spec fn powered_on(self) -> bool {
        &&& self.running()
        &&& forall|c: u8| valid_channel(c) ==> self.enabled(c) && self.duty(c) == 0
        &&& self.register(Register::GlobalControl.spec_address())
            == OutputCurrent::Max.spec_value()
        &&& self.latched == self.registers
    }

    /// Whether every register but the one at `address` holds what it holds
    /// in `before`.
    pub open spec fn keeps_registers_but(self, before: Device, address: u8) -> bool {
        forall|r: u8| r != address ==> #[trigger] self.register(r) == before.register(r)
    }

    /// Whether the device is in the state that a power-off leaves when it
    /// finds the device in the state `before`: shut down and driving no
    /// channel, with every other register and the output stage as they
    /// were.
    pub open spec fn powered_off_from(self, before: Device) -> bool {
        &&& !self.running()
        &&& forall|c: u8| self.output(c) == 0
        &&& self.latched == before.latched
        &&& self.keeps_registers_but(before, Register::Shutdown.spec_address())
    }

    /// Whether the device is in the state that selecting the carrier
    /// frequency `frequency` leaves when it finds the device in the state
    /// `before`: the frequency register holds the code of `frequency`, and
    /// every other register and the output stage are as they were.
    pub open spec fn frequency_set_from(self, before: Device, frequency: OutputFrequency) -> bool {
        &&& self.register(Register::OutputFrequency.spec_address()) == frequency.spec_value()
        &&& self.latched == before.latched
        &&& self.keeps_registers_but(before, Register::OutputFrequency.spec_address())
    }

    /// Whether the device is in the state that setting the duty cycle of
    /// `channel` to `value` leaves when it finds the device in the state
    /// `before`: the output stage has that duty cycle for the channel, every
    /// register but the channel's PWM register is as it was, and the output
    /// stage is level with the registers.
    pub open spec fn pwm_set_from(self, before: Device, channel: u8, value: u8) -> bool
        recommends
            valid_channel(channel),
    {
        &&& self.duty(channel) == value
        &&& self.register(pwm_register(channel)) == value
        &&& self.keeps_registers_but(before, pwm_register(channel))
        &&& self.latched == self.registers
    }

    /// Accepting `writes` and then `w` is accepting `writes` with `w` at
    /// the end.
    pub proof fn after_push(self, writes: Seq<RegisterWrite>, w: RegisterWrite)
        ensures
            self.after(writes.push(w)) == self.after(writes).write(w),
    {
        assert(writes.push(w).drop_last() =~= writes);
    }

    /// Accepting `first` and then `second` is accepting the two lists as
    /// one.
    pub proof fn after_concat(self, first: Seq<RegisterWrite>, second: Seq<RegisterWrite>)
        ensures
            self.after(first + second) == self.after(first).after(second),
        decreases second.len(),
    {
        if second.len() == 0 {
            assert(first + second =~= first);
        } else {
            self.after_concat(first, second.drop_last());
            assert((first + second).drop_last() =~= first + second.drop_last());
        }
    }

    /// Accepting two writes is accepting one, then the other.
    pub proof fn after_two(self, w0: RegisterWrite, w1: RegisterWrite)
        ensures
            self.after(seq![w0, w1]) == self.write(w0).write(w1),
    {
        assert(seq![w0, w1] =~= Seq::empty().push(w0).push(w1));
        self.after_push(Seq::empty().push(w0), w1);
        self.after_push(Seq::empty(), w0);
    }

    /// Accepting the first `n` of the writes that enable all channels
    /// stores 1 in the output enable registers of channels 1 to `n` and
    /// changes nothing else.
    proof fn after_enabling(self, n: nat)
        requires
            n <= CH_NUM,
        ensures
            ({
                let d = self.after(enable_all_channels().take(n as int));
                &&& d.latched == self.latched
                &&& forall|c: u8| 1 <= c <= n ==> d.register(led_control_register(c)) == 0x1
                &&& forall|r: u8|
                    !(led_control_register(1) <= r < led_control_register(1) + n)
                        ==> #[trigger] d.register(r) == self.register(r)
            }),
        decreases n,
    {
        let writes = enable_all_channels();
        if n == 0 {
            assert(writes.take(0) =~= Seq::empty());
        } else {
            let m = (n - 1) as nat;
            self.after_enabling(m);
            assert(writes.take(n as int) =~= writes.take(m as int).push(writes[m as int]));
            self.after_push(writes.take(m as int), writes[m as int]);
            assert(writes[m as int].register == led_control_register(n as u8));
        }
    }

    /// After a power-on that the bus accepted to the end the device is
    /// running, every channel is enabled with a duty cycle of 0, the maximum
    /// output current is selected and nothing is left pending, whatever
    /// state the device was in before.
    pub proof fn power_on_reaches_known_state(self)
        ensures
            self.after(power_on_writes()).powered_on(),
            self.after(power_on_writes()) == Device::defaults().after(power_on_writes()),
    {
        let reset = RegisterWrite { register: Register::Reset.spec_address(), value: 0 };
        let wake = RegisterWrite {
            register: Register::Shutdown.spec_address(),
            value: SoftwareShutdownMode::Normal.spec_value(),
        };
        let current = RegisterWrite {
            register: Register::GlobalControl.spec_address(),
            value: OutputCurrent::Max.spec_value(),
        };
        let head = seq![reset, wake];
        let tail = seq![latch(), current];
        let awake = Device::defaults().write(wake);
        self.after_two(reset, wake);
        Device::defaults().after_two(reset, wake);
        self.after_concat(head, enable_all_channels());
        Device::defaults().after_concat(head, enable_all_channels());
        assert(enable_all_channels().take(CH_NUM as int) =~= enable_all_channels());
        awake.after_enabling(CH_NUM as nat);
        let enabled = awake.after(enable_all_channels());
        self.after_concat(head + enable_all_channels(), tail);
        Device::defaults().after_concat(head + enable_all_channels(), tail);
        enabled.after_two(latch(), current);
        let d = self.after(power_on_writes());
        assert(d == enabled.write(latch()).write(current));
        assert(d.registers =~= enabled.registers);
        assert forall|c: u8| valid_channel(c) implies d.enabled(c) && d.duty(c) == 0 by {
            assert(enabled.register(led_control_register(c)) == 0x1);
            assert(enabled.register(pwm_register(c)) == awake.register(pwm_register(c)));
        }
    }

    /// After a power-off that the bus accepted the device is shut down and
    /// drives no channel, and every other register and the output stage
    /// hold what they held before.
    pub proof fn power_off_keeps_contents(self)
        ensures
            self.after(power_off_writes()).powered_off_from(self),
    {
        let w = power_off_writes()[0];
        assert(power_off_writes() =~= Seq::empty().push(w));
        self.after_push(Seq::empty(), w);
    }

    /// After the device has accepted the write that selects a carrier
    /// frequency, the frequency register holds the code of that frequency,
    /// and every other register and the output stage hold what they held
    /// before.
    pub proof fn set_frequency_stores_code(self, frequency: OutputFrequency)
        ensures
            self.after(set_frequency_writes(frequency)).frequency_set_from(self, frequency),
    {
        let w = set_frequency_writes(frequency)[0];
        assert(set_frequency_writes(frequency) =~= Seq::empty().push(w));
        self.after_push(Seq::empty(), w);
    }

    /// After the device has accepted the two writes that set the duty cycle
    /// of a channel, the output stage has that duty cycle for the channel.
    /// The registers hold what they held before but for the channel's PWM
    /// register, and the output stage is level with them.
    pub proof fn set_pwm_shows(self, channel: u8, value: u8)
        requires
            valid_channel(channel),
        ensures
            self.after(set_pwm_writes(channel, value)).pwm_set_from(self, channel, value),
    {
        self.after_two(RegisterWrite { register: pwm_register(channel), value }, latch());
    }

    /// Setting the duty cycle of a channel to the value it was last set to
    /// changes nothing in the device.
    pub proof fn set_pwm_is_idempotent(self, channel: u8, value: u8)
        requires
            valid_channel(channel),
        ensures
            ({
                let once = self.after(set_pwm_writes(channel, value));
                once.after(set_pwm_writes(channel, value)) == once
            }),
    {
        let once = self.after(set_pwm_writes(channel, value));
        let twice = once.after(set_pwm_writes(channel, value));
        self.set_pwm_shows(channel, value);
        once.set_pwm_shows(channel, value);
        assert(twice.registers =~= once.registers);
    }
}

} // verus!
