use libroccat::button::ButtonModifier;
use libroccat::ryosmkfx::{
    ControlRequest, ControlStatus, EventLiveRecordingAction, EventType, LightControlWriteCheck,
    LightDimnessType, LightEffect,
};

#[test]
fn wire_codes() {
    assert_eq!(ControlRequest::KeysEasyzone.code(), 0xa5);
    assert_eq!(ControlRequest::Request12.code(), 0xf0);
    assert_eq!(ControlStatus::from_code(0x04), Some(ControlStatus::Critical1));
    assert_eq!(ControlStatus::from_code(0x05), None);
    assert_eq!(LightEffect::Fade.code(), 0x10);
    assert_eq!(LightEffect::from_code(0x0a), None);
    assert_eq!(LightDimnessType::from_code(0x02), None);
    assert_eq!(LightDimnessType::from_code(0x03), Some(LightDimnessType::FallAsleep));
    assert_eq!(LightControlWriteCheck::Busy.code(), 3);
    assert_eq!(EventType::from_code(0xbf), Some(EventType::LedMacro));
    assert_eq!(EventLiveRecordingAction::InvalidKey.code(), 5);
}

#[test]
fn modifiers_are_disjoint_bits() {
    let all = [ButtonModifier::Shift, ButtonModifier::Ctrl, ButtonModifier::Alt, ButtonModifier::Super];
    let mut seen = 0u8;
    for m in all.iter() {
        let bit = m.code();
        assert_eq!(bit.count_ones(), 1);
        assert_eq!(seen & bit, 0);
        seen |= bit;
        assert_eq!(ButtonModifier::from_code(bit), Some(*m));
    }
    assert_eq!(ButtonModifier::Unmodified.code(), 0);
}
