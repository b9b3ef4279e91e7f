use is31fl3235a::{OutputCurrent, OutputFrequency, Register, SoftwareShutdownMode};

#[test]
fn register_addresses() {
    assert_eq!(Register::Shutdown.address(), 0x00);
    assert_eq!(Register::Pwm.address(), 0x05);
    assert_eq!(Register::Update.address(), 0x25);
    assert_eq!(Register::LedControl.address(), 0x2A);
    assert_eq!(Register::GlobalControl.address(), 0x4A);
    assert_eq!(Register::OutputFrequency.address(), 0x4B);
    assert_eq!(Register::Reset.address(), 0x4F);
}

#[test]
fn channel_banks_do_not_reach_the_next_register() {
    assert!(Register::Pwm.address() + 27 < Register::Update.address());
    assert!(Register::LedControl.address() + 27 < Register::GlobalControl.address());
}

#[test]
fn shutdown_mode_codes() {
    assert_eq!(SoftwareShutdownMode::Shutdown.value(), 0x00);
    assert_eq!(SoftwareShutdownMode::Normal.value(), 0x01);
}

#[test]
fn output_current_codes() {
    assert_eq!(OutputCurrent::Max.value(), 0x0);
    assert_eq!(OutputCurrent::Max2.value(), 0x1);
    assert_eq!(OutputCurrent::Max3.value(), 0x2);
    assert_eq!(OutputCurrent::Max4.value(), 0x3);
}

#[test]
fn output_frequency_codes() {
    assert_eq!(OutputFrequency::Freq3Hz.value(), 0x0);
    assert_eq!(OutputFrequency::Freq22kHz.value(), 0x1);
}
