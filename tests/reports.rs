use libroccat::button::ButtonConfig;
use libroccat::report::{
    bytesum, decode_report, encode_report, frame_report, read_request, should_retry, unframe_report, IoError,
    ReportError, ReportLayout, SizeField,
};
use libroccat::ryosmkfx::{
    select, Control, ControlRequest, CustomLights, DeviceInfo, KeysEasyzone, KeysExtra,
    KeysFunction, KeysPrimary, LightControl, LightControlState, LightEffect, LightLayer,
    LightLayerData, LightMode, Lights, WaitError, WaitStep,
};

fn sum16(bytes: &[u8]) -> u16 {
    bytes.iter().fold(0u16, |s, b| s.wrapping_add(*b as u16))
}

#[test]
fn checksum_is_byte_sum_of_header_and_payload() {
    let lights = Lights::default();
    let bytes = encode_report(&lights);
    assert_eq!(bytes.len(), 32);
    assert_eq!(bytes[0], 0x0d);
    assert_eq!(bytes[1], 32);
    let sum = sum16(&bytes[..30]);
    assert_eq!(bytes[30], (sum & 0xff) as u8);
    assert_eq!(bytes[31], (sum >> 8) as u8);
    assert_eq!(decode_report::<Lights>(&bytes), Ok(lights));
}

#[test]
fn checksum_wraps_at_sixteen_bits() {
    let bytes = vec![0xffu8; 300];
    assert_eq!(bytesum(&bytes), ((300u32 * 255) % 65536) as u16);
    assert_eq!(bytesum(&[]), 0);
    let layout = ReportLayout { report_id: 0x0b, size_field: SizeField::Word, payload_len: 289, checksum: true, verify_on_read: true };
    let payload = vec![0xffu8; 289];
    let framed = frame_report(&layout, &payload);
    assert_eq!(framed.len(), 294);
    assert_eq!(&framed[..3], &[0x0b, 0x26, 0x01]);
    let sum = sum16(&framed[..292]);
    assert_eq!(framed[292], (sum & 0xff) as u8);
    assert_eq!(framed[293], (sum >> 8) as u8);
    assert_eq!(unframe_report(&layout, &framed), Ok(payload));
}

#[test]
fn received_reports_are_checked() {
    let mut bytes = encode_report(&KeysExtra::default());
    bytes[7] ^= 1;
    assert_eq!(decode_report::<KeysExtra>(&bytes), Err(ReportError::BadChecksum));
    let mut bytes = encode_report(&Lights::default());
    assert_eq!(decode_report::<Lights>(&bytes[..31]), Err(ReportError::WrongLength));
    // The light report's checksum is trusted as received.
    bytes[31] ^= 1;
    bytes[30] = 0;
    assert_eq!(decode_report::<Lights>(&bytes), Ok(Lights::default()));
    let mut lights = Lights::default();
    lights.effect = LightEffect::Fade;
    let mut bytes = encode_report(&lights);
    bytes[7] = 0x0a;
    let sum = sum16(&bytes[..30]);
    bytes[30] = (sum & 0xff) as u8;
    bytes[31] = (sum >> 8) as u8;
    assert_eq!(decode_report::<Lights>(&bytes), Err(ReportError::BadField));
}

#[test]
fn reports_without_checksum() {
    let control = Control::new(2, ControlRequest::Light.code());
    assert_eq!(encode_report(&control), vec![0x04, 2, 0xb1]);
    assert_eq!(decode_report::<Control>(&[0x04, 1, 0xb1]), Ok(Control::new(1, 0xb1)));
    let info = decode_report::<DeviceInfo>(&[0x0f, 7, 3, 4, 5, 6, 7]).unwrap();
    assert_eq!((info.firmware_version, info.dfu_version, info.led_firmware_version), (3, 4, 5));
    assert_eq!(info.unknown, [6, 7]);
    let layout = ReportLayout { report_id: 0x13, size_field: SizeField::Byte, payload_len: 6, checksum: false, verify_on_read: false };
    assert_eq!(read_request(&layout), vec![0x13, 8, 0, 0, 0, 0, 0, 0]);
    let layout = ReportLayout { report_id: 0x0d, size_field: SizeField::Byte, payload_len: 28, checksum: true, verify_on_read: false };
    let request = read_request(&layout);
    assert_eq!(request.len(), 32);
    assert_eq!(&request[..2], &[0x0d, 32]);
    assert!(request[2..].iter().all(|b| *b == 0));
}

#[test]
fn lights_encoding() {
    let mut lights = Lights::default();
    lights.mode = LightMode::Layer;
    lights.red = 0x1234;
    let bytes = encode_report(&lights);
    assert_eq!(&bytes[2..8], &[1, 4, 1, 10, 1, 1]);
    assert_eq!(&bytes[14..16], &[0x34, 0x12]);
    assert_eq!(decode_report::<Lights>(&bytes), Ok(lights));
    assert_eq!(lights.for_device().profile, 0);
}

#[test]
fn key_reports_round_trip() {
    let keys = KeysPrimary::new(2, [7u8; 120]);
    let bytes = encode_report(&keys);
    assert_eq!(bytes.len(), 125);
    assert_eq!(decode_report::<KeysPrimary>(&bytes).unwrap().keys, [7u8; 120]);

    let mut buttons = [ButtonConfig::new(0, 0, 0); 30];
    buttons[29] = ButtonConfig::new(1, 2, 3);
    let bytes = encode_report(&KeysFunction::new(1, buttons));
    assert_eq!(bytes.len(), 95);
    assert_eq!(&bytes[90..93], &[1, 2, 3]);
    let back = decode_report::<KeysFunction>(&bytes).unwrap();
    assert_eq!(back.keys, buttons);

    let bytes = encode_report(&KeysEasyzone::new(0, [ButtonConfig::new(4, 8, 9); 96]));
    assert_eq!(&bytes[..3], &[0x0b, 0x26, 0x01]);
    assert_eq!(decode_report::<KeysEasyzone>(&bytes).unwrap().keys[95], ButtonConfig::new(4, 8, 9));

    let extra = KeysExtra::default();
    let bytes = encode_report(&extra);
    assert_eq!(&bytes[..6], &[0x0a, 8, 0, 0xff, 0xf1, 0]);
    assert_eq!(decode_report::<KeysExtra>(&bytes), Ok(extra));
}

#[test]
fn custom_lights_report() {
    let mut data = LightLayerData::default();
    data.set_all_states(true);
    let report = CustomLights::new(LightLayer::from_data(&data));
    let bytes = encode_report(&report);
    assert_eq!(bytes.len(), 232);
    assert_eq!(&bytes[..2], &[0x18, 232]);
    let back = decode_report::<CustomLights>(&bytes).ok().unwrap();
    assert_eq!(back.light_layer.to_bytes(), report.light_layer.to_bytes());
}

#[test]
fn control_status_steps() {
    assert_eq!(Control::new(0x01, 0).check_write_step(), WaitStep::Ready);
    assert_eq!(Control::new(0x03, 0).check_write_step(), WaitStep::Wait);
    assert_eq!(Control::new(0x02, 0).check_write_step(), WaitStep::Fail(WaitError::Invalid));
    assert_eq!(Control::new(0x00, 0).check_write_step(), WaitStep::Fail(WaitError::Critical));
    assert_eq!(Control::new(0x04, 0).check_write_step(), WaitStep::Fail(WaitError::Critical));
    assert_eq!(Control::new(0x09, 0).check_write_step(), WaitStep::Fail(WaitError::Unknown(9)));
    let request = select(3, ControlRequest::KeysEasyzone);
    assert_eq!((request.value, request.request), (2, 0xa5));
}

#[test]
fn light_control_steps() {
    let mut report = LightControl::for_active(true);
    assert_eq!(report.state, LightControlState::Custom);
    assert!(report.custom_active());
    assert!(!LightControl::for_active(false).custom_active());
    report.write_check = 1;
    assert_eq!(report.check_write_step(), WaitStep::Ready);
    report.write_check = 3;
    assert_eq!(report.check_write_step(), WaitStep::Wait);
    report.write_check = 2;
    assert_eq!(report.check_write_step(), WaitStep::Fail(WaitError::Invalid));
    report.write_check = 0;
    assert_eq!(report.check_write_step(), WaitStep::Fail(WaitError::Unknown(0)));
    assert_eq!(encode_report(&report), vec![0x13, 8, 1, 0, 0, 0, 0, 0]);
}

#[test]
fn transient_failures_are_retried_ten_times() {
    assert!(should_retry(1, &IoError::Interrupted));
    assert!(should_retry(9, &IoError::WouldBlock));
    assert!(!should_retry(10, &IoError::TimedOut));
    assert!(!should_retry(1, &IoError::Os(13)));
}
