//! Events that the keyboard sends on its events interface, and the queue that
//! holds them until they are asked for.
use vstd::prelude::*;

use crate::ryosmkfx::sdk::{effect_index_to_sdk_index, spec_effect_index_to_sdk_index};

verus! {

/// What a "Rad" event counts.
#[derive(Clone, Copy, Debug, PartialEq, Eq)]
pub enum EventRadSubtype {
    W,
    A,
    S,
    D,
    Thumbster1,
    Thumbster2,
    Thumbster3,
    Easyshift,
    Multimedia,
    M1,
    M2,
    M3,
    M4,
    M5,
    MacroShortcut,
    Talk,
    MacroLifeRec,
    Backlight,
    Total,
}

impl EventRadSubtype {
    /// The byte that stands for this value on the wire.
    pub open spec fn spec_code(&self) -> u8 {
        match self {
            EventRadSubtype::W => 0x01,
            EventRadSubtype::A => 0x02,
            EventRadSubtype::S => 0x03,
            EventRadSubtype::D => 0x04,
            EventRadSubtype::Thumbster1 => 0x05,
            EventRadSubtype::Thumbster2 => 0x06,
            EventRadSubtype::Thumbster3 => 0x07,
            EventRadSubtype::Easyshift => 0x08,
            EventRadSubtype::Multimedia => 0x09,
            EventRadSubtype::M1 => 0x0a,
            EventRadSubtype::M2 => 0x0b,
            EventRadSubtype::M3 => 0x0c,
            EventRadSubtype::M4 => 0x0d,
            EventRadSubtype::M5 => 0x0e,
            EventRadSubtype::MacroShortcut => 0x0f,
            EventRadSubtype::Talk => 0x10,
            EventRadSubtype::MacroLifeRec => 0x11,
            EventRadSubtype::Backlight => 0x12,
            EventRadSubtype::Total => 0x13,
        }
    }

    /// The value that a byte stands for, if any.
    pub open spec fn spec_from_code(code: u8) -> Option<Self> {
        if code == 0x01 {
            Some(EventRadSubtype::W)
        } else if code == 0x02 {
            Some(EventRadSubtype::A)
        } else if code == 0x03 {
            Some(EventRadSubtype::S)
        } else if code == 0x04 {
            Some(EventRadSubtype::D)
        } else if code == 0x05 {
            Some(EventRadSubtype::Thumbster1)
        } else if code == 0x06 {
            Some(EventRadSubtype::Thumbster2)
        } else if code == 0x07 {
            Some(EventRadSubtype::Thumbster3)
        } else if code == 0x08 {
            Some(EventRadSubtype::Easyshift)
        } else if code == 0x09 {
            Some(EventRadSubtype::Multimedia)
        } else if code == 0x0a {
            Some(EventRadSubtype::M1)
        } else if code == 0x0b {
            Some(EventRadSubtype::M2)
        } else if code == 0x0c {
            Some(EventRadSubtype::M3)
        } else if code == 0x0d {
            Some(EventRadSubtype::M4)
        } else if code == 0x0e {
            Some(EventRadSubtype::M5)
        } else if code == 0x0f {
            Some(EventRadSubtype::MacroShortcut)
        } else if code == 0x10 {
            Some(EventRadSubtype::Talk)
        } else if code == 0x11 {
            Some(EventRadSubtype::MacroLifeRec)
        } else if code == 0x12 {
            Some(EventRadSubtype::Backlight)
        } else if code == 0x13 {
            Some(EventRadSubtype::Total)
        } else {
            None
        }
    }

    pub fn code(&self) -> (r: u8)
        ensures
            r == self.spec_code(),
    {
        match self {
            EventRadSubtype::W => 0x01,
            EventRadSubtype::A => 0x02,
            EventRadSubtype::S => 0x03,
            EventRadSubtype::D => 0x04,
            EventRadSubtype::Thumbster1 => 0x05,
            EventRadSubtype::Thumbster2 => 0x06,
            EventRadSubtype::Thumbster3 => 0x07,
            EventRadSubtype::Easyshift => 0x08,
            EventRadSubtype::Multimedia => 0x09,
            EventRadSubtype::M1 => 0x0a,
            EventRadSubtype::M2 => 0x0b,
            EventRadSubtype::M3 => 0x0c,
            EventRadSubtype::M4 => 0x0d,
            EventRadSubtype::M5 => 0x0e,
            EventRadSubtype::MacroShortcut => 0x0f,
            EventRadSubtype::Talk => 0x10,
            EventRadSubtype::MacroLifeRec => 0x11,
            EventRadSubtype::Backlight => 0x12,
            EventRadSubtype::Total => 0x13,
        }
    }

    pub fn from_code(code: u8) -> (r: Option<Self>)
        ensures
            r == Self::spec_from_code(code),
            r matches Some(v) ==> v.spec_code() == code,
    {
        if code == 0x01 {
            Some(EventRadSubtype::W)
        } else if code == 0x02 {
            Some(EventRadSubtype::A)
        } else if code == 0x03 {
            Some(EventRadSubtype::S)
        } else if code == 0x04 {
            Some(EventRadSubtype::D)
        } else if code == 0x05 {
            Some(EventRadSubtype::Thumbster1)
        } else if code == 0x06 {
            Some(EventRadSubtype::Thumbster2)
        } else if code == 0x07 {
            Some(EventRadSubtype::Thumbster3)
        } else if code == 0x08 {
            Some(EventRadSubtype::Easyshift)
        } else if code == 0x09 {
            Some(EventRadSubtype::Multimedia)
        } else if code == 0x0a {
            Some(EventRadSubtype::M1)
        } else if code == 0x0b {
            Some(EventRadSubtype::M2)
        } else if code == 0x0c {
            Some(EventRadSubtype::M3)
        } else if code == 0x0d {
            Some(EventRadSubtype::M4)
        } else if code == 0x0e {
            Some(EventRadSubtype::M5)
        } else if code == 0x0f {
            Some(EventRadSubtype::MacroShortcut)
        } else if code == 0x10 {
            Some(EventRadSubtype::Talk)
        } else if code == 0x11 {
            Some(EventRadSubtype::MacroLifeRec)
        } else if code == 0x12 {
            Some(EventRadSubtype::Backlight)
        } else if code == 0x13 {
            Some(EventRadSubtype::Total)
        } else {
            None
        }
    }

    /// Every value reads back from its byte.
    pub proof fn lemma_code_round_trip(&self)
        ensures
            Self::spec_from_code(self.spec_code()) == Some(*self),
    {
    }
}

/// The kind of an event.
#[derive(Clone, Copy, Debug, PartialEq, Eq)]
pub enum EventType {
    Unknown,
    ProfileStart,
    Profile,
    Macro,
    LiveRecording,
    Quicklaunch,
    Easyshift,
    Multimedia,
    Backlight,
    TimerStart,
    TimerStop,
    OpenDriver,
    LedMacro,
    Rad,
    Effect,
    Layer,
    EasyshiftSelf,
    Talk,
}

impl EventType {
    /// The byte that stands for this value on the wire.
    pub open spec fn spec_code(&self) -> u8 {
        match self {
            EventType::Unknown => 0x00,
            EventType::ProfileStart => 0x01,
            EventType::Profile => 0x02,
            EventType::Macro => 0x03,
            EventType::LiveRecording => 0x04,
            EventType::Quicklaunch => 0x07,
            EventType::Easyshift => 0x0a,
            EventType::Multimedia => 0x0b,
            EventType::Backlight => 0x0c,
            EventType::TimerStart => 0x0d,
            EventType::TimerStop => 0x0e,
            EventType::OpenDriver => 0x10,
            EventType::LedMacro => 0xbf,
            EventType::Rad => 0xfa,
            EventType::Effect => 0xfb,
            EventType::Layer => 0xfc,
            EventType::EasyshiftSelf => 0xfd,
            EventType::Talk => 0xff,
        }
    }

    /// The value that a byte stands for, if any.
    pub open spec fn spec_from_code(code: u8) -> Option<Self> {
        if code == 0x00 {
            Some(EventType::Unknown)
        } else if code == 0x01 {
            Some(EventType::ProfileStart)
        } else if code == 0x02 {
            Some(EventType::Profile)
        } else if code == 0x03 {
            Some(EventType::Macro)
        } else if code == 0x04 {
            Some(EventType::LiveRecording)
        } else if code == 0x07 {
            Some(EventType::Quicklaunch)
        } else if code == 0x0a {
            Some(EventType::Easyshift)
        } else if code == 0x0b {
            Some(EventType::Multimedia)
        } else if code == 0x0c {
            Some(EventType::Backlight)
        } else if code == 0x0d {
            Some(EventType::TimerStart)
        } else if code == 0x0e {
            Some(EventType::TimerStop)
        } else if code == 0x10 {
            Some(EventType::OpenDriver)
        } else if code == 0xbf {
            Some(EventType::LedMacro)
        } else if code == 0xfa {
            Some(EventType::Rad)
        } else if code == 0xfb {
            Some(EventType::Effect)
        } else if code == 0xfc {
            Some(EventType::Layer)
        } else if code == 0xfd {
            Some(EventType::EasyshiftSelf)
        } else if code == 0xff {
            Some(EventType::Talk)
        } else {
            None
        }
    }

    pub fn code(&self) -> (r: u8)
        ensures
            r == self.spec_code(),
    {
        match self {
            EventType::Unknown => 0x00,
            EventType::ProfileStart => 0x01,
            EventType::Profile => 0x02,
            EventType::Macro => 0x03,
            EventType::LiveRecording => 0x04,
            EventType::Quicklaunch => 0x07,
            EventType::Easyshift => 0x0a,
            EventType::Multimedia => 0x0b,
            EventType::Backlight => 0x0c,
            EventType::TimerStart => 0x0d,
            EventType::TimerStop => 0x0e,
            EventType::OpenDriver => 0x10,
            EventType::LedMacro => 0xbf,
            EventType::Rad => 0xfa,
            EventType::Effect => 0xfb,
            EventType::Layer => 0xfc,
            EventType::EasyshiftSelf => 0xfd,
            EventType::Talk => 0xff,
        }
    }

    pub fn from_code(code: u8) -> (r: Option<Self>)
        ensures
            r == Self::spec_from_code(code),
            r matches Some(v) ==> v.spec_code() == code,
    {
        if code == 0x00 {
            Some(EventType::Unknown)
        } else if code == 0x01 {
            Some(EventType::ProfileStart)
        } else if code == 0x02 {
            Some(EventType::Profile)
        } else if code == 0x03 {
            Some(EventType::Macro)
        } else if code == 0x04 {
            Some(EventType::LiveRecording)
        } else if code == 0x07 {
            Some(EventType::Quicklaunch)
        } else if code == 0x0a {
            Some(EventType::Easyshift)
        } else if code == 0x0b {
            Some(EventType::Multimedia)
        } else if code == 0x0c {
            Some(EventType::Backlight)
        } else if code == 0x0d {
            Some(EventType::TimerStart)
        } else if code == 0x0e {
            Some(EventType::TimerStop)
        } else if code == 0x10 {
            Some(EventType::OpenDriver)
        } else if code == 0xbf {
            Some(EventType::LedMacro)
        } else if code == 0xfa {
            Some(EventType::Rad)
        } else if code == 0xfb {
            Some(EventType::Effect)
        } else if code == 0xfc {
            Some(EventType::Layer)
        } else if code == 0xfd {
            Some(EventType::EasyshiftSelf)
        } else if code == 0xff {
            Some(EventType::Talk)
        } else {
            None
        }
    }

    /// Every value reads back from its byte.
    pub proof fn lemma_code_round_trip(&self)
        ensures
            Self::spec_from_code(self.spec_code()) == Some(*self),
    {
    }
}

/// A key going down or up.
#[derive(Clone, Copy, Debug, PartialEq, Eq)]
pub enum EventKeyAction {
    Release,
    Press,
}

impl EventKeyAction {
    /// The byte that stands for this value on the wire.
    pub open spec fn spec_code(&self) -> u8 {
        match self {
            EventKeyAction::Release => 0x00,
            EventKeyAction::Press => 0x01,
        }
    }

    /// The value that a byte stands for, if any.
    pub open spec fn spec_from_code(code: u8) -> Option<Self> {
        if code == 0x00 {
            Some(EventKeyAction::Release)
        } else if code == 0x01 {
            Some(EventKeyAction::Press)
        } else {
            None
        }
    }

    pub fn code(&self) -> (r: u8)
        ensures
            r == self.spec_code(),
    {
        match self {
            EventKeyAction::Release => 0x00,
            EventKeyAction::Press => 0x01,
        }
    }

    pub fn from_code(code: u8) -> (r: Option<Self>)
        ensures
            r == Self::spec_from_code(code),
            r matches Some(v) ==> v.spec_code() == code,
    {
        if code == 0x00 {
            Some(EventKeyAction::Release)
        } else if code == 0x01 {
            Some(EventKeyAction::Press)
        } else {
            None
        }
    }

    /// Every value reads back from its byte.
    pub proof fn lemma_code_round_trip(&self)
        ensures
            Self::spec_from_code(self.spec_code()) == Some(*self),
    {
    }
}

/// A step of recording a macro on the keyboard.
#[derive(Clone, Copy, Debug, PartialEq, Eq)]
pub enum EventLiveRecordingAction {
    Start,
    MacroKeySelected,
    EndSuccess,
    EndAbort,
    InvalidKey,
}

impl EventLiveRecordingAction {
    /// The byte that stands for this value on the wire.
    pub open spec fn spec_code(&self) -> u8 {
        match self {
            EventLiveRecordingAction::Start => 0x01,
            EventLiveRecordingAction::MacroKeySelected => 0x02,
            EventLiveRecordingAction::EndSuccess => 0x03,
            EventLiveRecordingAction::EndAbort => 0x04,
            EventLiveRecordingAction::InvalidKey => 0x05,
        }
    }

    /// The value that a byte stands for, if any.
    pub open spec fn spec_from_code(code: u8) -> Option<Self> {
        if code == 0x01 {
            Some(EventLiveRecordingAction::Start)
        } else if code == 0x02 {
            Some(EventLiveRecordingAction::MacroKeySelected)
        } else if code == 0x03 {
            Some(EventLiveRecordingAction::EndSuccess)
        } else if code == 0x04 {
            Some(EventLiveRecordingAction::EndAbort)
        } else if code == 0x05 {
            Some(EventLiveRecordingAction::InvalidKey)
        } else {
            None
        }
    }

    pub fn code(&self) -> (r: u8)
        ensures
            r == self.spec_code(),
    {
        match self {
            EventLiveRecordingAction::Start => 0x01,
            EventLiveRecordingAction::MacroKeySelected => 0x02,
            EventLiveRecordingAction::EndSuccess => 0x03,
            EventLiveRecordingAction::EndAbort => 0x04,
            EventLiveRecordingAction::InvalidKey => 0x05,
        }
    }

    pub fn from_code(code: u8) -> (r: Option<Self>)
        ensures
            r == Self::spec_from_code(code),
            r matches Some(v) ==> v.spec_code() == code,
    {
        if code == 0x01 {
            Some(EventLiveRecordingAction::Start)
        } else if code == 0x02 {
            Some(EventLiveRecordingAction::MacroKeySelected)
        } else if code == 0x03 {
            Some(EventLiveRecordingAction::EndSuccess)
        } else if code == 0x04 {
            Some(EventLiveRecordingAction::EndAbort)
        } else if code == 0x05 {
            Some(EventLiveRecordingAction::InvalidKey)
        } else {
            None
        }
    }

    /// Every value reads back from its byte.
    pub proof fn lemma_code_round_trip(&self)
        ensures
            Self::spec_from_code(self.spec_code()) == Some(*self),
    {
    }
}

/// The subtype byte of an event: a [`EventRadSubtype`] for "Rad" events.
#[derive(Clone, Copy, Debug, PartialEq, Eq)]
pub enum EventSubtype {
    Raw(u8),
    Rad(EventRadSubtype),
}

/// The action byte of an event: a key action for effect events, a recording
/// step for live recording events.
#[derive(Clone, Copy, Debug, PartialEq, Eq)]
pub enum EventAction {
    Raw(u8),
    Key(EventKeyAction),
    LiveRecording(EventLiveRecordingAction),
}

/// Bytes in an event report.
pub const EVENT_SIZE: usize = 5;

/// One event from the keyboard.
#[derive(Clone, Copy, Debug, PartialEq, Eq)]
pub struct Event {
    pub report_id: u8,
    pub subtype: EventSubtype,
    pub type_: EventType,
    pub data: u8,
    pub action: EventAction,
}

/// The subtype that a byte stands for in an event of type `type_`.
pub open spec fn spec_subtype(type_: EventType, b: u8) -> EventSubtype {
    match (type_, EventRadSubtype::spec_from_code(b)) {
        (EventType::Rad, Some(r)) => EventSubtype::Rad(r),
        _ => EventSubtype::Raw(b),
    }
}

/// The action that a byte stands for in an event of type `type_`.
pub open spec fn spec_action(type_: EventType, b: u8) -> EventAction {
    match type_ {
        EventType::Effect => match EventKeyAction::spec_from_code(b) {
            Some(k) => EventAction::Key(k),
            None => EventAction::Raw(b),
        },
        EventType::LiveRecording => match EventLiveRecordingAction::spec_from_code(b) {
            Some(l) => EventAction::LiveRecording(l),
            None => EventAction::Raw(b),
        },
        _ => EventAction::Raw(b),
    }
}

/// The event that five bytes hold: report id, subtype, type, data, action.
/// Bytes of an unknown type hold no event.
pub open spec fn spec_event(bytes: Seq<u8>) -> Option<Event> {
    match EventType::spec_from_code(bytes[2]) {
        Some(type_) => Some(
            Event {
                report_id: bytes[0],
                subtype: spec_subtype(type_, bytes[1]),
                type_,
                data: bytes[3],
                action: spec_action(type_, bytes[4]),
            },
        ),
        None => None,
    }
}

impl Event {
    /// Decodes an event report.
    pub fn from_bytes(bytes: &[u8]) -> (r: Option<Event>)
        requires
            bytes@.len() == EVENT_SIZE,
        ensures
            r == spec_event(bytes@),
    {
        let type_ = match EventType::from_code(bytes[2]) {
            Some(t) => t,
            None => return None,
        };
        let subtype = match (type_, EventRadSubtype::from_code(bytes[1])) {
            (EventType::Rad, Some(r)) => EventSubtype::Rad(r),
            _ => EventSubtype::Raw(bytes[1]),
        };
        let action = match type_ {
            EventType::Effect => match EventKeyAction::from_code(bytes[4]) {
                Some(k) => EventAction::Key(k),
                None => EventAction::Raw(bytes[4]),
            },
            EventType::LiveRecording => match EventLiveRecordingAction::from_code(bytes[4]) {
                Some(l) => EventAction::LiveRecording(l),
                None => EventAction::Raw(bytes[4]),
            },
            _ => EventAction::Raw(bytes[4]),
        };
        Some(Event { report_id: bytes[0], subtype, type_, data: bytes[3], action })
    }

    /// The SDK index of the key that an effect event names.
    pub fn sdk_index(&self) -> (r: u8)
        ensures
            r == spec_effect_index_to_sdk_index(self.data),
    {
        effect_index_to_sdk_index(self.data)
    }
}

/// Events waiting to be asked for; the most recent comes out first.
pub struct EventQueue {
    events: Vec<Event>,
}

impl View for EventQueue {
    type V = Seq<Event>;

    /// The waiting events, oldest first.
    closed spec fn view(&self) -> Seq<Event> {
        self.events@
    }
}

impl EventQueue {
    pub fn new() -> (r: Self)
        ensures
            r@ == Seq::<Event>::empty(),
    {
        EventQueue { events: Vec::new() }
    }

    /// Adds an event that has just arrived.
    pub fn push(&mut self, event: Event)
        ensures
            final(self)@ == old(self)@.push(event),
    {
        self.events.push(event);
    }

    /// Takes out the most recent event, if any.
    pub fn get_event(&mut self) -> (r: Option<Event>)
        ensures
            old(self)@.len() == 0 ==> r is None && final(self)@ == old(self)@,
            old(self)@.len() > 0 ==> r == Some(old(self)@.last()) && final(self)@ == old(
                self,
            )@.drop_last(),
    {
        self.events.pop()
    }

    pub fn len(&self) -> (r: usize)
        ensures
            r == self@.len(),
    {
        self.events.len()
    }
}

/// Events come out of the queue last in, first out: after pushing `a` then
/// `b`, the queue gives `b`, then `a`, then nothing.
pub proof fn lemma_queue_order(q: Seq<Event>, a: Event, b: Event)
    requires
        q.len() == 0,
    ensures
        q.push(a).push(b).last() == b,
        q.push(a).push(b).drop_last().last() == a,
        q.push(a).push(b).drop_last().drop_last().len() == 0,
{
    assert(q.push(a).push(b).drop_last() =~= q.push(a));
    assert(q.push(a).drop_last() =~= q);
}

} // verus!
