use libroccat::ryosmkfx::HardwareColor;
use libroccat::ryosmkfx::{effect_index_to_sdk_index, sdk_index_to_light_index};

#[test]
fn hardware_color() {
    for color in 0..255 {
        let hardware = HardwareColor::from_color(color);
        assert_eq!(hardware.to_color(), color);
    }
}

#[test]
fn every_color_round_trips() {
    for color in 0..=255u8 {
        let hardware = HardwareColor::from_color(color);
        assert!(hardware.brightness < 16);
        assert_eq!(hardware.to_color(), color);
    }
}

#[test]
fn color_table_values() {
    assert_eq!(HardwareColor::from_color(0), HardwareColor { brightness: 0, pwm: 0 });
    assert_eq!(HardwareColor::from_color(64), HardwareColor { brightness: 1, pwm: 0x20 });
    assert_eq!(HardwareColor::from_color(255), HardwareColor { brightness: 0x0f, pwm: 0x3f });
    assert_eq!(HardwareColor::from_u16(0x0d3f), HardwareColor { brightness: 0x0d, pwm: 0x3f });
}

#[test]
fn inverse_table_is_not_injective() {
    // Two drive levels that show the same color.
    let a = HardwareColor { brightness: 0, pwm: 0x42 };
    let b = HardwareColor { brightness: 1, pwm: 0x21 };
    assert_eq!(a.to_color(), b.to_color());
    assert_eq!(HardwareColor { brightness: 15, pwm: 63 }.to_color(), 0xff);
}

#[test]
fn key_index_tables() {
    assert_eq!(sdk_index_to_light_index(0), 0x01);
    assert_eq!(sdk_index_to_light_index(16), 0x00);
    assert_eq!(sdk_index_to_light_index(109), 0x6b);
    assert_eq!(sdk_index_to_light_index(110), 0xff);
    assert_eq!(effect_index_to_sdk_index(0), 0xff);
    assert_eq!(effect_index_to_sdk_index(17), 0x00);
    assert_eq!(effect_index_to_sdk_index(134), 0x6b);
    assert_eq!(effect_index_to_sdk_index(255), 0xff);
}
