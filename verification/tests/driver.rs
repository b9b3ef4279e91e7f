use is31fl3235a::{Bus, Error, Is31fl3235a, OutputFrequency};

const ADDRESS: u8 = 0x3C;

/// What the recording bus reports: the number of the write it refused,
/// counted from 1.
#[derive(Debug, Clone, Copy, PartialEq, Eq)]
struct Refused(usize);

/// A bus that records every write and refuses the one numbered `fail_at`.
struct Recorder {
    writes: Vec<(u8, Vec<u8>)>,
    fail_at: Option<usize>,
}

impl Recorder {
    fn new() -> Self {
        Recorder { writes: Vec::new(), fail_at: None }
    }

    fn failing_at(k: usize) -> Self {
        Recorder { writes: Vec::new(), fail_at: Some(k) }
    }
}

impl Bus for &mut Recorder {
    type Error = Refused;

    fn write(&mut self, address: u8, bytes: &[u8]) -> Result<(), Refused> {
        self.writes.push((address, bytes.to_vec()));
        if self.fail_at == Some(self.writes.len()) {
            Err(Refused(self.writes.len()))
        } else {
            Ok(())
        }
    }
}

fn power_on_sequence(address: u8) -> Vec<(u8, Vec<u8>)> {
    let mut expected = vec![(address, vec![0x4F, 0x00]), (address, vec![0x00, 0x01])];
    for register in 0x2Au8..=0x45 {
        expected.push((address, vec![register, 0x01]));
    }
    expected.push((address, vec![0x25, 0x00]));
    expected.push((address, vec![0x4A, 0x00]));
    expected
}

#[test]
fn construction_sends_nothing() {
    let mut bus = Recorder::new();
    {
        let _driver = Is31fl3235a::new(&mut bus, ADDRESS);
    }
    assert!(bus.writes.is_empty());
}

#[test]
fn set_pwm_writes_value_then_latch_for_every_channel() {
    for channel in 1u8..=28 {
        for value in [0u8, 1, 127, 200, 255] {
            let mut bus = Recorder::new();
            let result = Is31fl3235a::new(&mut bus, ADDRESS).set_pwm(channel, value);
            assert!(matches!(result, Ok(())));
            assert_eq!(
                bus.writes,
                vec![(ADDRESS, vec![0x05 + channel - 1, value]), (ADDRESS, vec![0x25, 0x00])]
            );
        }
    }
}

#[test]
fn set_pwm_first_and_last_channel_registers() {
    let mut bus = Recorder::new();
    {
        let mut driver = Is31fl3235a::new(&mut bus, ADDRESS);
        assert!(matches!(driver.set_pwm(1, 0x10), Ok(())));
        assert!(matches!(driver.set_pwm(28, 0xFF), Ok(())));
    }
    assert_eq!(
        bus.writes,
        vec![
            (ADDRESS, vec![0x05, 0x10]),
            (ADDRESS, vec![0x25, 0x00]),
            (ADDRESS, vec![0x20, 0xFF]),
            (ADDRESS, vec![0x25, 0x00]),
        ]
    );
}

#[test]
fn set_pwm_channel_zero_is_a_parameter_error() {
    let mut bus = Recorder::new();
    let result = Is31fl3235a::new(&mut bus, ADDRESS).set_pwm(0, 0x80);
    assert!(matches!(result, Err(Error::Param)));
    assert!(bus.writes.is_empty());
}

#[test]
fn set_pwm_channel_twenty_nine_is_a_parameter_error() {
    let mut bus = Recorder::new();
    let result = Is31fl3235a::new(&mut bus, ADDRESS).set_pwm(29, 0x80);
    assert!(matches!(result, Err(Error::Param)));
    assert!(bus.writes.is_empty());
}

#[test]
fn set_pwm_refuses_every_channel_out_of_range() {
    for channel in (29u8..=255).chain(0..=0) {
        let mut bus = Recorder::new();
        let result = Is31fl3235a::new(&mut bus, ADDRESS).set_pwm(channel, 0x01);
        assert!(matches!(result, Err(Error::Param)));
        assert!(bus.writes.is_empty());
    }
}

#[test]
fn set_pwm_parameter_error_comes_before_any_bus_error() {
    let mut bus = Recorder::failing_at(1);
    let result = Is31fl3235a::new(&mut bus, ADDRESS).set_pwm(0, 0x01);
    assert!(matches!(result, Err(Error::Param)));
    assert!(bus.writes.is_empty());
}

#[test]
fn set_pwm_stops_when_the_value_write_is_refused() {
    let mut bus = Recorder::failing_at(1);
    let result = Is31fl3235a::new(&mut bus, ADDRESS).set_pwm(7, 0x42);
    assert!(matches!(result, Err(Error::Bus(Refused(1)))));
    assert_eq!(bus.writes, vec![(ADDRESS, vec![0x0B, 0x42])]);
}

#[test]
fn set_pwm_reports_a_refused_latch() {
    let mut bus = Recorder::failing_at(2);
    let result = Is31fl3235a::new(&mut bus, ADDRESS).set_pwm(7, 0x42);
    assert!(matches!(result, Err(Error::Bus(Refused(2)))));
    assert_eq!(bus.writes, vec![(ADDRESS, vec![0x0B, 0x42]), (ADDRESS, vec![0x25, 0x00])]);
}

#[test]
fn set_pwm_twice_sends_the_same_writes_twice() {
    let mut bus = Recorder::new();
    {
        let mut driver = Is31fl3235a::new(&mut bus, ADDRESS);
        assert!(matches!(driver.set_pwm(12, 0x99), Ok(())));
        assert!(matches!(driver.set_pwm(12, 0x99), Ok(())));
    }
    assert_eq!(bus.writes.len(), 4);
    assert_eq!(bus.writes[0..2], bus.writes[2..4]);
    assert_eq!(bus.writes[0], (ADDRESS, vec![0x10, 0x99]));
    assert_eq!(bus.writes[1], (ADDRESS, vec![0x25, 0x00]));
}

#[test]
fn set_pwm_twice_leaves_the_registers_as_after_once() {
    // The register file of a device that stores every write it gets.
    fn registers(writes: &[(u8, Vec<u8>)]) -> [u8; 256] {
        let mut file = [0u8; 256];
        for (_, bytes) in writes {
            file[bytes[0] as usize] = bytes[1];
        }
        file
    }
    let mut bus = Recorder::new();
    {
        let mut driver = Is31fl3235a::new(&mut bus, ADDRESS);
        assert!(matches!(driver.set_pwm(3, 0x55), Ok(())));
        assert!(matches!(driver.set_pwm(3, 0x55), Ok(())));
    }
    assert_eq!(registers(&bus.writes[0..2]), registers(&bus.writes));
    assert_eq!(registers(&bus.writes)[0x07], 0x55);
}

#[test]
fn power_on_sends_the_whole_sequence_in_order() {
    let mut bus = Recorder::new();
    let result = Is31fl3235a::new(&mut bus, ADDRESS).power_on();
    assert_eq!(result, Ok(()));
    assert_eq!(bus.writes.len(), 32);
    assert_eq!(bus.writes, power_on_sequence(ADDRESS));
}

#[test]
fn power_on_enables_channels_in_rising_order() {
    let mut bus = Recorder::new();
    assert_eq!(Is31fl3235a::new(&mut bus, ADDRESS).power_on(), Ok(()));
    assert_eq!(bus.writes[0], (ADDRESS, vec![0x4F, 0x00]));
    assert_eq!(bus.writes[1], (ADDRESS, vec![0x00, 0x01]));
    for i in 0..28usize {
        assert_eq!(bus.writes[2 + i], (ADDRESS, vec![0x2A + i as u8, 0x01]));
    }
    assert_eq!(bus.writes[30], (ADDRESS, vec![0x25, 0x00]));
    assert_eq!(bus.writes[31], (ADDRESS, vec![0x4A, 0x00]));
}

#[test]
fn power_on_stops_at_the_first_refused_write() {
    let full = power_on_sequence(ADDRESS);
    for k in 1..=32usize {
        let mut bus = Recorder::failing_at(k);
        let result = Is31fl3235a::new(&mut bus, ADDRESS).power_on();
        assert_eq!(result, Err(Refused(k)));
        assert_eq!(bus.writes.len(), k);
        assert_eq!(bus.writes[..], full[..k]);
    }
}

#[test]
fn power_on_is_untouched_by_a_refusal_that_never_comes() {
    let mut bus = Recorder::failing_at(33);
    let result = Is31fl3235a::new(&mut bus, ADDRESS).power_on();
    assert_eq!(result, Ok(()));
    assert_eq!(bus.writes.len(), 32);
}

#[test]
fn power_on_can_be_repeated_after_a_failure() {
    let mut bus = Recorder::failing_at(5);
    {
        let mut driver = Is31fl3235a::new(&mut bus, ADDRESS);
        assert_eq!(driver.power_on(), Err(Refused(5)));
        assert_eq!(driver.power_on(), Ok(()));
    }
    assert_eq!(bus.writes.len(), 5 + 32);
    assert_eq!(bus.writes[5..], power_on_sequence(ADDRESS)[..]);
}

#[test]
fn power_off_writes_zero_to_the_shutdown_register() {
    let mut bus = Recorder::new();
    let result = Is31fl3235a::new(&mut bus, ADDRESS).power_off();
    assert_eq!(result, Ok(()));
    assert_eq!(bus.writes, vec![(ADDRESS, vec![0x00, 0x00])]);
}

#[test]
fn power_off_hands_on_the_bus_error() {
    let mut bus = Recorder::failing_at(1);
    let result = Is31fl3235a::new(&mut bus, ADDRESS).power_off();
    assert_eq!(result, Err(Refused(1)));
    assert_eq!(bus.writes, vec![(ADDRESS, vec![0x00, 0x00])]);
}

#[test]
fn set_frequency_low_writes_zero() {
    let mut bus = Recorder::new();
    let result = Is31fl3235a::new(&mut bus, ADDRESS).set_frequency(OutputFrequency::Freq3Hz);
    assert_eq!(result, Ok(()));
    assert_eq!(bus.writes, vec![(ADDRESS, vec![0x4B, 0x00])]);
}

#[test]
fn set_frequency_high_writes_one() {
    let mut bus = Recorder::new();
    let result = Is31fl3235a::new(&mut bus, ADDRESS).set_frequency(OutputFrequency::Freq22kHz);
    assert_eq!(result, Ok(()));
    assert_eq!(bus.writes, vec![(ADDRESS, vec![0x4B, 0x01])]);
}

#[test]
fn set_frequency_hands_on_the_bus_error() {
    let mut bus = Recorder::failing_at(1);
    let result = Is31fl3235a::new(&mut bus, ADDRESS).set_frequency(OutputFrequency::Freq22kHz);
    assert_eq!(result, Err(Refused(1)));
    assert_eq!(bus.writes.len(), 1);
}

#[test]
fn every_write_goes_to_the_address_given_at_construction() {
    for address in [0x00u8, 0x3C, 0x3F, 0x7F, 0xFF] {
        let mut bus = Recorder::new();
        {
            let mut driver = Is31fl3235a::new(&mut bus, address);
            assert_eq!(driver.power_on(), Ok(()));
            assert!(matches!(driver.set_pwm(28, 1), Ok(())));
            assert_eq!(driver.set_frequency(OutputFrequency::Freq3Hz), Ok(()));
            assert_eq!(driver.power_off(), Ok(()));
        }
        assert_eq!(bus.writes.len(), 32 + 2 + 1 + 1);
        assert!(bus.writes.iter().all(|(to, bytes)| *to == address && bytes.len() == 2));
    }
}

#[test]
fn operations_follow_each_other_on_one_bus() {
    let mut bus = Recorder::new();
    {
        let mut driver = Is31fl3235a::new(&mut bus, ADDRESS);
        assert_eq!(driver.power_on(), Ok(()));
        assert!(matches!(driver.set_pwm(2, 0x80), Ok(())));
        assert!(matches!(driver.set_pwm(31, 0x80), Err(Error::Param)));
        assert_eq!(driver.power_off(), Ok(()));
    }
    let mut expected = power_on_sequence(ADDRESS);
    expected.push((ADDRESS, vec![0x06, 0x80]));
    expected.push((ADDRESS, vec![0x25, 0x00]));
    expected.push((ADDRESS, vec![0x00, 0x00]));
    assert_eq!(bus.writes, expected);
}

#[test]
fn error_can_be_copied_and_printed() {
    let e: Error<Refused> = Error::Bus(Refused(3));
    let copy = e;
    assert!(matches!(e, Error::Bus(Refused(3))));
    assert!(matches!(copy.clone(), Error::Bus(Refused(3))));
    assert_eq!(format!("{:?}", Error::<Refused>::Param), "Param");
}
