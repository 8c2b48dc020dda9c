use libroccat::device::Interface;
use libroccat::ryosmkfx::{
    Event, EventAction, EventKeyAction, EventQueue, EventRadSubtype, EventSubtype, EventType,
    Profile, ProfileError,
};
use libroccat::tyon;

#[test]
fn profile_round_trip() {
    let before = Profile::new(0x52);
    for i in 1..=5u8 {
        let after = before.with_current(i).unwrap();
        assert_eq!(after.current(), i);
        assert_eq!(after.index >> 4, 0x5);
    }
    assert_eq!(before.with_current(0), Err(ProfileError::OutOfRange(0)));
    assert_eq!(before.with_current(6), Err(ProfileError::OutOfRange(6)));
    assert_eq!(before.current(), 3);
}

#[test]
fn tyon_profile_round_trip() {
    for i in 1..=5u8 {
        let report = tyon::Profile::for_profile(i).unwrap();
        assert_eq!(report.index, i - 1);
        assert_eq!(report.current(), i);
    }
    assert_eq!(tyon::Profile::for_profile(0), Err(ProfileError::OutOfRange(0)));
    assert_eq!(tyon::Profile::for_profile(6), Err(ProfileError::OutOfRange(6)));
}

#[test]
fn events_come_last_in_first_out() {
    let a = Event::from_bytes(&[0x03, 0x00, 0xfb, 0x11, 0x01]).unwrap();
    let b = Event::from_bytes(&[0x03, 0x01, 0xfa, 0x00, 0x00]).unwrap();
    let mut queue = EventQueue::new();
    queue.push(a);
    queue.push(b);
    assert_eq!(queue.len(), 2);
    assert_eq!(queue.get_event(), Some(b));
    assert_eq!(queue.get_event(), Some(a));
    assert_eq!(queue.get_event(), None);
}

#[test]
fn event_decoding() {
    let e = Event::from_bytes(&[0x03, 0x00, 0xfb, 0x11, 0x01]).unwrap();
    assert_eq!(e.type_, EventType::Effect);
    assert_eq!(e.action, EventAction::Key(EventKeyAction::Press));
    assert_eq!(e.sdk_index(), 0x00);
    let e = Event::from_bytes(&[0x03, 0x0a, 0xfa, 0x00, 0x07]).unwrap();
    assert_eq!(e.subtype, EventSubtype::Rad(EventRadSubtype::M1));
    assert_eq!(e.action, EventAction::Raw(7));
    let e = Event::from_bytes(&[0x03, 0x0a, 0x02, 0x04, 0x01]).unwrap();
    assert_eq!(e.subtype, EventSubtype::Raw(0x0a));
    assert_eq!(e.data, 4);
    assert_eq!(Event::from_bytes(&[0x03, 0, 0x05, 0, 0]), None);
}

#[test]
fn interfaces() {
    assert_eq!(Interface::Primary.to_ryosmkfx().index(), 0);
    assert_eq!(Interface::Events.to_tyon().index(), 1);
}
