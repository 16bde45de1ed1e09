use rtl8152_led_ctrl::errors::CtrlError;
use rtl8152_led_ctrl::led::{BlinkDutyCycle, BlinkInterval, LedConfig, LedGlobalConfig};

#[test]
fn decode_zero_is_all_defaults() {
    let c = LedGlobalConfig::from_raw(0);
    for led in [&c.led_0, &c.led_1, &c.led_2] {
        assert!(!led.link10);
        assert!(!led.link100);
        assert!(!led.link1000);
        assert!(!led.activity);
        assert!(!led.high_active);
    }
    assert!(!c.all_link_activity);
    assert_eq!(c.blink_interval, BlinkInterval::I240);
    assert_eq!(c.blink_duty_cycle, BlinkDutyCycle::R12_5);
    assert_eq!(c.unknown, 0);
}

#[test]
fn decode_led0_link10_and_reencode() {
    let c = LedGlobalConfig::from_raw(0x0005_0001);
    assert!(c.led_0.link10);
    assert!(!c.led_0.link100);
    assert!(!c.led_0.link1000);
    assert!(!c.led_0.activity);
    assert!(!c.led_0.high_active);
    assert!(!c.led_1.link10);
    assert!(!c.led_1.link100);
    assert!(!c.led_1.link1000);
    assert!(!c.led_1.activity);
    assert!(!c.led_1.high_active);
    assert_eq!(c.unknown, 0);
    assert_eq!(c.to_raw(), 0x0005_0001);
}

#[test]
fn round_trip_covers_every_bit() {
    for v in [
        0u32,
        1,
        0x0005_0001,
        0x000f_ffff,
        0xfff0_0000,
        0xffff_ffff,
        0xdead_beef,
        0x1234_5678,
        0x8000_0000,
        0x0008_7000,
    ] {
        let c = LedGlobalConfig::from_raw(v);
        assert_eq!(c.to_raw(), v);
    }
}

#[test]
fn encode_exact_value() {
    let c = LedGlobalConfig {
        led_0: LedConfig {
            link10: true,
            link100: false,
            link1000: false,
            activity: true,
            high_active: false,
        },
        led_1: LedConfig {
            link10: false,
            link100: false,
            link1000: false,
            activity: false,
            high_active: false,
        },
        led_2: LedConfig {
            link10: false,
            link100: false,
            link1000: false,
            activity: false,
            high_active: true,
        },
        all_link_activity: true,
        blink_interval: BlinkInterval::ILink,
        blink_duty_cycle: BlinkDutyCycle::R75,
        unknown: 0xabc0_0000,
    };
    assert_eq!(c.to_raw(), 0xabcf_c009);
}

#[test]
fn residue_low_bits_never_clobber_fields() {
    let mut c = LedGlobalConfig::from_raw(0);
    c.unknown = 0xffff_ffff;
    assert_eq!(c.to_raw(), 0xfff0_0000);
}

#[test]
fn per_led_field_placement() {
    // LED 1 trigger bits sit at 4..8, its polarity bit at 13.
    let c = LedGlobalConfig::from_raw(0x0000_20f0);
    assert!(c.led_1.link10);
    assert!(c.led_1.link100);
    assert!(c.led_1.link1000);
    assert!(c.led_1.activity);
    assert!(c.led_1.high_active);
    assert!(!c.led_0.link10);
    assert!(!c.led_2.link10);
    assert!(!c.led_0.high_active);
    assert!(!c.led_2.high_active);
}

#[test]
fn single_slot_extract_and_pack() {
    // Slot 1: trigger field is bits 4..8, polarity is bit 13.
    let led = LedConfig::from_raw(0x0000_2050, 1);
    assert!(led.link10);
    assert!(!led.link100);
    assert!(led.link1000);
    assert!(!led.activity);
    assert!(led.high_active);
    assert_eq!(led.to_raw(1), 0x0000_2050);
    // The same flags land elsewhere for slot 2.
    assert_eq!(led.to_raw(2), 0x0000_4500);
    // Slot 0 of the same value is untouched.
    let led0 = LedConfig::from_raw(0x0000_2050, 0);
    assert!(!led0.link10 && !led0.link100 && !led0.link1000);
    assert!(!led0.activity && !led0.high_active);
    assert_eq!(led0.to_raw(0), 0);
}

#[test]
fn interval_from_num_accepts_exactly_four_codes() {
    assert_eq!(BlinkInterval::from_num(0).unwrap(), BlinkInterval::I240);
    assert_eq!(BlinkInterval::from_num(1).unwrap(), BlinkInterval::I160);
    assert_eq!(BlinkInterval::from_num(2).unwrap(), BlinkInterval::I80);
    assert_eq!(BlinkInterval::from_num(3).unwrap(), BlinkInterval::ILink);
    for bad in [4u8, 5, 17, 255] {
        assert!(matches!(BlinkInterval::from_num(bad), Err(CtrlError::Parse)));
    }
}

#[test]
fn duty_cycle_from_num_accepts_exactly_four_codes() {
    assert_eq!(BlinkDutyCycle::from_num(0).unwrap(), BlinkDutyCycle::R12_5);
    assert_eq!(BlinkDutyCycle::from_num(1).unwrap(), BlinkDutyCycle::R25);
    assert_eq!(BlinkDutyCycle::from_num(2).unwrap(), BlinkDutyCycle::R50);
    assert_eq!(BlinkDutyCycle::from_num(3).unwrap(), BlinkDutyCycle::R75);
    for bad in [4u8, 100, 255] {
        assert!(matches!(BlinkDutyCycle::from_num(bad), Err(CtrlError::Parse)));
    }
}

#[test]
fn interval_and_duty_raw_codecs() {
    assert_eq!(BlinkInterval::from_raw(0x000c_0000), BlinkInterval::ILink);
    assert_eq!(BlinkInterval::from_raw(0x0004_0000), BlinkInterval::I160);
    assert_eq!(BlinkInterval::I80.to_raw(), 0x0008_0000);
    assert_eq!(BlinkDutyCycle::from_raw(0x0003_0000), BlinkDutyCycle::R75);
    assert_eq!(BlinkDutyCycle::R50.to_raw(), 0x0002_0000);
}
