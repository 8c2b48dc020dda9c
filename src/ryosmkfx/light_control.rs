//! The light control report: stored or custom lights, and whether the device
//! has taken a custom light layer.
use vstd::prelude::*;

use crate::report::{Report, ReportLayout, ReportRead, ReportWrite, SizeField};
use crate::ryosmkfx::control::{WaitError, WaitStep};

verus! {

/// Which lights the keyboard shows.
#[derive(Clone, Copy, Debug, PartialEq, Eq)]
pub enum LightControlState {
    /// The lights of the active profile.
    Stored,
    /// The custom light layer.
    Custom,
}

impl LightControlState {
    /// The byte that stands for this value on the wire.
    pub open spec fn spec_code(&self) -> u8 {
        match self {
            LightControlState::Stored => 0x00,
            LightControlState::Custom => 0x01,
        }
    }

    /// The value that a byte stands for, if any.
    pub open spec fn spec_from_code(code: u8) -> Option<Self> {
        if code == 0x00 {
            Some(LightControlState::Stored)
        } else if code == 0x01 {
            Some(LightControlState::Custom)
        } else {
            None
        }
    }

    pub fn code(&self) -> (r: u8)
        ensures
            r == self.spec_code(),
    {
        match self {
            LightControlState::Stored => 0x00,
            LightControlState::Custom => 0x01,
        }
    }

    pub fn from_code(code: u8) -> (r: Option<Self>)
        ensures
            r == Self::spec_from_code(code),
            r matches Some(v) ==> v.spec_code() == code,
    {
        if code == 0x00 {
            Some(LightControlState::Stored)
        } else if code == 0x01 {
            Some(LightControlState::Custom)
        } else {
            None
        }
    }

    /// Every value reads back from its byte.
    pub proof fn lemma_code_round_trip(&self)
        ensures
            Self::spec_from_code(self.spec_code()) == Some(*self),
    {
    }
}

/// How far the device has taken a custom light layer.
#[derive(Clone, Copy, Debug, PartialEq, Eq)]
pub enum LightControlWriteCheck {
    /// Reported as OK by the device.
    Success,
    Invalid,
    Busy,
}

impl LightControlWriteCheck {
    /// The byte that stands for this value on the wire.
    pub open spec fn spec_code(&self) -> u8 {
        match self {
            LightControlWriteCheck::Success => 0x01,
            LightControlWriteCheck::Invalid => 0x02,
            LightControlWriteCheck::Busy => 0x03,
        }
    }

    /// The value that a byte stands for, if any.
    pub open spec fn spec_from_code(code: u8) -> Option<Self> {
        if code == 0x01 {
            Some(LightControlWriteCheck::Success)
        } else if code == 0x02 {
            Some(LightControlWriteCheck::Invalid)
        } else if code == 0x03 {
            Some(LightControlWriteCheck::Busy)
        } else {
            None
        }
    }

    pub fn code(&self) -> (r: u8)
        ensures
            r == self.spec_code(),
    {
        match self {
            LightControlWriteCheck::Success => 0x01,
            LightControlWriteCheck::Invalid => 0x02,
            LightControlWriteCheck::Busy => 0x03,
        }
    }

    pub fn from_code(code: u8) -> (r: Option<Self>)
        ensures
            r == Self::spec_from_code(code),
            r matches Some(v) ==> v.spec_code() == code,
    {
        if code == 0x01 {
            Some(LightControlWriteCheck::Success)
        } else if code == 0x02 {
            Some(LightControlWriteCheck::Invalid)
        } else if code == 0x03 {
            Some(LightControlWriteCheck::Busy)
        } else {
            None
        }
    }

    /// Every value reads back from its byte.
    pub proof fn lemma_code_round_trip(&self)
        ensures
            Self::spec_from_code(self.spec_code()) == Some(*self),
    {
    }
}

/// Switches between stored and custom lights; read back, `write_check` tells
/// whether a custom light layer has been taken.
#[derive(Clone, Copy, Debug, PartialEq, Eq)]
pub struct LightControl {
    pub state: LightControlState,
    pub unknown0: [u8; 3],
    /// A [`LightControlWriteCheck`] byte.
    pub write_check: u8,
    pub unknown1: u8,
}

/// The step for a light control write-check byte: ready on `Success`, wait on
/// `Busy`, fail on anything else.
pub open spec fn light_wait_step(check: u8) -> WaitStep {
    match LightControlWriteCheck::spec_from_code(check) {
        Some(LightControlWriteCheck::Success) => WaitStep::Ready,
        Some(LightControlWriteCheck::Busy) => WaitStep::Wait,
        Some(LightControlWriteCheck::Invalid) => WaitStep::Fail(WaitError::Invalid),
        None => WaitStep::Fail(WaitError::Unknown(check)),
    }
}

impl LightControl {
    pub fn new(state: LightControlState) -> (r: Self)
        ensures
            r.state == state,
            r.unknown0@ == seq![0u8, 0u8, 0u8],
            r.write_check == 0,
            r.unknown1 == 0,
    {
        let r = Self { state, unknown0: [0u8; 3], write_check: 0, unknown1: 0 };
        assert(r.unknown0@ =~= seq![0u8, 0u8, 0u8]);
        r
    }

    /// The next step while waiting for the device to take a custom light
    /// layer, given this report as read back from it.
    pub fn check_write_step(&self) -> (r: WaitStep)
        ensures
            r == light_wait_step(self.write_check),
    {
        match LightControlWriteCheck::from_code(self.write_check) {
            Some(LightControlWriteCheck::Success) => WaitStep::Ready,
            Some(LightControlWriteCheck::Busy) => WaitStep::Wait,
            Some(LightControlWriteCheck::Invalid) => WaitStep::Fail(WaitError::Invalid),
            None => WaitStep::Fail(WaitError::Unknown(self.write_check)),
        }
    }

    /// Whether custom lights are shown.
    pub fn custom_active(&self) -> (r: bool)
        ensures
            r == (self.state == LightControlState::Custom),
    {
        match self.state {
            LightControlState::Custom => true,
            LightControlState::Stored => false,
        }
    }

    /// The report that shows custom lights when `active`, stored ones when not.
    pub fn for_active(active: bool) -> (r: Self)
        ensures
            r.state == if active {
                LightControlState::Custom
            } else {
                LightControlState::Stored
            },
    {
        let state = if active {
            LightControlState::Custom
        } else {
            LightControlState::Stored
        };
        Self::new(state)
    }
}

impl Report for LightControl {
    open spec fn layout() -> ReportLayout {
        ReportLayout { report_id: 0x13, size_field: SizeField::Byte, payload_len: 6, checksum: false, verify_on_read: false }
    }

    fn report_layout() -> (r: ReportLayout) {
        ReportLayout { report_id: 0x13, size_field: SizeField::Byte, payload_len: 6, checksum: false, verify_on_read: false }
    }
}

impl ReportWrite for LightControl {
    open spec fn spec_payload(&self) -> Seq<u8> {
        seq![
            self.state.spec_code(),
            self.unknown0[0],
            self.unknown0[1],
            self.unknown0[2],
            self.write_check,
            self.unknown1,
        ]
    }

    fn payload(&self) -> (r: Vec<u8>) {
        let mut v: Vec<u8> = Vec::new();
        v.push(self.state.code());
        v.push(self.unknown0[0]);
        v.push(self.unknown0[1]);
        v.push(self.unknown0[2]);
        v.push(self.write_check);
        v.push(self.unknown1);
        assert(v@ =~= self.spec_payload());
        v
    }
}

impl ReportRead for LightControl {
    open spec fn spec_parse(p: Seq<u8>) -> Option<Self> {
        match LightControlState::spec_from_code(p[0]) {
            Some(state) => Some(
                LightControl {
                    state,
                    unknown0: Self::spec_unknown0(p),
                    write_check: p[4],
                    unknown1: p[5],
                },
            ),
            None => None,
        }
    }

    fn parse(payload: &[u8]) -> (r: Option<Self>) {
        match LightControlState::from_code(payload[0]) {
            Some(state) => {
                let unknown0 = [payload[1], payload[2], payload[3]];
                proof {
                    assert(unknown0@ =~= payload@.subrange(1, 4));
                    let b = Self::spec_unknown0(payload@);
                    assert(b@ =~= unknown0@);
                    assert(b =~= unknown0);
                }
                Some(LightControl { state, unknown0, write_check: payload[4], unknown1: payload[5] })
            },
            None => None,
        }
    }
}

impl LightControl {
    /// The three unknown bytes after the state.
    pub open spec fn spec_unknown0(p: Seq<u8>) -> [u8; 3] {
        choose|a: [u8; 3]| a@ == p.subrange(1, 4)
    }
}

} // verus!
