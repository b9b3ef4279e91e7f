//! What each operation of the driver sends to the device.
//!
//! An operation is a fixed list of register writes, made one after the
//! other until the list is done or the bus refuses one. The lists are given
//! here as sequences, and `carried_out` says what it means for a stretch of
//! a bus transcript to be one run of such a list.

use crate::bus::Transfer;
use crate::registers::{
    led_control_register, pwm_register, valid_channel, OutputCurrent, OutputFrequency, Register,
    SoftwareShutdownMode, CH_NUM,
};
use vstd::prelude::*;

verus! {

/// A write of one register: its address and the value to store there.
pub struct RegisterWrite {
    pub register: u8,
    pub value: u8,
}

impl RegisterWrite {
    /// The bytes of the bus transaction that makes this write: the
    /// register's address, then the value.
    pub open spec fn bytes(self) -> Seq<u8> {
        seq![self.register, self.value]
    }
}

/// The write that makes the device take over the pending PWM and control
/// values. The value written is of no account; the driver writes 0.
pub open spec fn latch() -> RegisterWrite {
    RegisterWrite { register: Register::Update.spec_address(), value: 0 }
}

/// The writes that enable the outputs of all channels, channel 1 first.
pub open spec fn enable_all_channels() -> Seq<RegisterWrite> {
    Seq::new(
        CH_NUM as nat,
        |i: int| RegisterWrite { register: led_control_register((i + 1) as u8), value: 0x1 },
    )
}

/// The writes of a power-on: reset every register, leave shutdown, enable
/// all channels, latch, and select the maximum output current.
pub open spec fn power_on_writes() -> Seq<RegisterWrite> {
    seq![
        RegisterWrite { register: Register::Reset.spec_address(), value: 0 },
        RegisterWrite {
            register: Register::Shutdown.spec_address(),
            value: SoftwareShutdownMode::Normal.spec_value(),
        },
    ] + enable_all_channels() + seq![
        latch(),
        RegisterWrite {
            register: Register::GlobalControl.spec_address(),
            value: OutputCurrent::Max.spec_value(),
        },
    ]
}

/// The one write of a power-off: enter software shutdown.
pub open spec fn power_off_writes() -> Seq<RegisterWrite> {
    seq![
        RegisterWrite {
            register: Register::Shutdown.spec_address(),
            value: SoftwareShutdownMode::Shutdown.spec_value(),
        },
    ]
}

/// The one write that selects the PWM carrier frequency `frequency`.
pub open spec fn set_frequency_writes(frequency: OutputFrequency) -> Seq<RegisterWrite> {
    seq![
        RegisterWrite {
            register: Register::OutputFrequency.spec_address(),
            value: frequency.spec_value(),
        },
    ]
}

/// The writes that set the duty cycle of `channel` to `value` and make it
/// show: the channel's PWM register, then the latch.
pub open spec fn set_pwm_writes(channel: u8, value: u8) -> Seq<RegisterWrite>
    recommends
        valid_channel(channel),
{
    seq![RegisterWrite { register: pwm_register(channel), value }, latch()]
}

/// Whether `log` is the transcript of a run of `plan` against the device at
/// `address` that is under way: it has made the first `log.len()` writes of
/// the plan, and the bus has accepted them all.
pub open spec fn under_way<E>(
    log: Seq<Transfer<E>>,
    address: u8,
    plan: Seq<RegisterWrite>,
) -> bool {
    &&& log.len() <= plan.len()
    &&& forall|i: int|
        0 <= i < log.len() ==> (#[trigger] log[i]).address == address && log[i].bytes
            == plan[i].bytes() && log[i].outcome is Ok
}

/// Whether `log` is the transcript of one run of `plan` against the device
/// at `address` that ended with `result`.
///
/// A run makes the writes of the plan in order, each as one two-byte
/// transaction to `address`, and stops after the first one that the bus
/// refuses. So `log` follows the plan from its first write on, every entry
/// but the last was accepted, the answer to the last is `result`, and if
/// that is a success the plan was run to its end.
pub open spec fn carried_out<E>(
    log: Seq<Transfer<E>>,
    address: u8,
    plan: Seq<RegisterWrite>,
    result: Result<(), E>,
) -> bool {
    &&& 0 < log.len() <= plan.len()
    &&& forall|i: int|
        0 <= i < log.len() ==> (#[trigger] log[i]).address == address && log[i].bytes
            == plan[i].bytes()
    &&& forall|i: int| 0 <= i < log.len() - 1 ==> (#[trigger] log[i]).outcome is Ok
    &&& log.last().outcome == result
    &&& result is Ok ==> log.len() == plan.len()
}

/// A power-on is 32 writes: the reset register, then 1 to the shutdown
/// register, then 1 to the output enable registers `0x2A` to `0x45` in
/// rising order, then the latch, then 0 to the global control register.
pub proof fn power_on_writes_in_order()
    ensures
        power_on_writes().len() == 32,
        power_on_writes()[0] == (RegisterWrite { register: 0x4F, value: 0 }),
        power_on_writes()[1] == (RegisterWrite { register: 0x00, value: 1 }),
        forall|i: int|
            2 <= i < 30 ==> #[trigger] power_on_writes()[i] == (RegisterWrite {
                register: (0x2A + i - 2) as u8,
                value: 1,
            }),
        power_on_writes()[30] == (RegisterWrite { register: 0x25, value: 0 }),
        power_on_writes()[31] == (RegisterWrite { register: 0x4A, value: 0 }),
{
}

/// A power-off is one write: 0 to the shutdown register.
pub proof fn power_off_writes_in_order()
    ensures
        power_off_writes() == seq![(RegisterWrite { register: 0x00, value: 0 })],
{
}

/// Selecting a carrier frequency is one write to the register at `0x4B`: 0
/// for the low frequency, 1 for the high one.
pub proof fn set_frequency_writes_in_order()
    ensures
        set_frequency_writes(OutputFrequency::Freq3Hz) == seq![
            (RegisterWrite { register: 0x4B, value: 0 }),
        ],
        set_frequency_writes(OutputFrequency::Freq22kHz) == seq![
            (RegisterWrite { register: 0x4B, value: 1 }),
        ],
{
}

/// Setting the duty cycle of a channel from 1 to 28 is two writes: the
/// value to the register at `0x05 + channel - 1`, then the latch.
pub proof fn set_pwm_writes_in_order(channel: u8, value: u8)
    requires
        valid_channel(channel),
    ensures
        set_pwm_writes(channel, value) == seq![
            (RegisterWrite { register: (0x05 + channel - 1) as u8, value }),
            (RegisterWrite { register: 0x25, value: 0 }),
        ],
{
}

/// A run ends with the first write that the bus refuses: if the write at
/// position `k` of a run was refused, it is the last of the run, and its
/// error is the result of the run.
pub proof fn refusal_ends_run<E>(
    log: Seq<Transfer<E>>,
    address: u8,
    plan: Seq<RegisterWrite>,
    result: Result<(), E>,
    k: int,
)
    requires
        carried_out(log, address, plan, result),
        0 <= k < log.len(),
        log[k].outcome is Err,
    ensures
        k == log.len() - 1,
        result == log[k].outcome,
{
}

/// A run in which the bus refuses nothing goes through the whole plan and
/// succeeds.
pub proof fn accepted_run_is_complete<E>(
    log: Seq<Transfer<E>>,
    address: u8,
    plan: Seq<RegisterWrite>,
    result: Result<(), E>,
)
    requires
        carried_out(log, address, plan, result),
        forall|i: int| 0 <= i < log.len() ==> (#[trigger] log[i]).outcome is Ok,
    ensures
        result is Ok,
        log.len() == plan.len(),
{
}

/// A run that succeeds has made every write of the plan, in order, and the
/// bus has accepted each.
pub proof fn successful_run_is_the_plan<E>(
    log: Seq<Transfer<E>>,
    address: u8,
    plan: Seq<RegisterWrite>,
)
    requires
        carried_out(log, address, plan, Ok(())),
    ensures
        log.len() == plan.len(),
        forall|i: int|
            0 <= i < log.len() ==> (#[trigger] log[i]).address == address && log[i].bytes
                == plan[i].bytes() && log[i].outcome is Ok,
{
}

/// Two runs of one plan that both succeed make the same writes: as many,
/// with the same bytes, to the same address.
pub proof fn completed_runs_agree<E>(
    first: Seq<Transfer<E>>,
    second: Seq<Transfer<E>>,
    address: u8,
    plan: Seq<RegisterWrite>,
)
    requires
        carried_out(first, address, plan, Ok(())),
        carried_out(second, address, plan, Ok(())),
    ensures
        first.len() == second.len(),
        forall|i: int|
            0 <= i < first.len() ==> (#[trigger] first[i]).address == second[i].address
                && first[i].bytes == second[i].bytes,
{
    assert forall|i: int| 0 <= i < first.len() implies (#[trigger] first[i]).address
        == second[i].address && first[i].bytes == second[i].bytes by {
        let _ = second[i];
    }
}

} // verus!
