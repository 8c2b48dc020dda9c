//! The control report, which selects a sub-report and reports whether the
//! device is ready.
use vstd::prelude::*;

use crate::report::{Report, ReportLayout, ReportRead, ReportWrite, SizeField};

verus! {

/// The sub-report that a control report selects.
#[derive(Clone, Copy, Debug, PartialEq, Eq)]
pub enum ControlRequest {
    KeysPrimary,
    KeysFunction,
    KeysMacro,
    KeysThumbster,
    KeysEasyzone,
    KeyMask,
    Light,
    KeysExtra,
    StoredLightsAutomatic,
    StoredLightsManual,
    LightMacro,
    /// Selected by other tools; its meaning is not known.
    Request12,
}

impl ControlRequest {
    /// The byte that stands for this value on the wire.
    pub open spec fn spec_code(&self) -> u8 {
        match self {
            ControlRequest::KeysPrimary => 0xa0,
            ControlRequest::KeysFunction => 0xa1,
            ControlRequest::KeysMacro => 0xa2,
            ControlRequest::KeysThumbster => 0xa3,
            ControlRequest::KeysEasyzone => 0xa5,
            ControlRequest::KeyMask => 0xb0,
            ControlRequest::Light => 0xb1,
            ControlRequest::KeysExtra => 0xb2,
            ControlRequest::StoredLightsAutomatic => 0xc0,
            ControlRequest::StoredLightsManual => 0xd0,
            ControlRequest::LightMacro => 0xe0,
            ControlRequest::Request12 => 0xf0,
        }
    }

    /// The value that a byte stands for, if any.
    pub open spec fn spec_from_code(code: u8) -> Option<Self> {
        if code == 0xa0 {
            Some(ControlRequest::KeysPrimary)
        } else if code == 0xa1 {
            Some(ControlRequest::KeysFunction)
        } else if code == 0xa2 {
            Some(ControlRequest::KeysMacro)
        } else if code == 0xa3 {
            Some(ControlRequest::KeysThumbster)
        } else if code == 0xa5 {
            Some(ControlRequest::KeysEasyzone)
        } else if code == 0xb0 {
            Some(ControlRequest::KeyMask)
        } else if code == 0xb1 {
            Some(ControlRequest::Light)
        } else if code == 0xb2 {
            Some(ControlRequest::KeysExtra)
        } else if code == 0xc0 {
            Some(ControlRequest::StoredLightsAutomatic)
        } else if code == 0xd0 {
            Some(ControlRequest::StoredLightsManual)
        } else if code == 0xe0 {
            Some(ControlRequest::LightMacro)
        } else if code == 0xf0 {
            Some(ControlRequest::Request12)
        } else {
            None
        }
    }

    pub fn code(&self) -> (r: u8)
        ensures
            r == self.spec_code(),
    {
        match self {
            ControlRequest::KeysPrimary => 0xa0,
            ControlRequest::KeysFunction => 0xa1,
            ControlRequest::KeysMacro => 0xa2,
            ControlRequest::KeysThumbster => 0xa3,
            ControlRequest::KeysEasyzone => 0xa5,
            ControlRequest::KeyMask => 0xb0,
            ControlRequest::Light => 0xb1,
            ControlRequest::KeysExtra => 0xb2,
            ControlRequest::StoredLightsAutomatic => 0xc0,
            ControlRequest::StoredLightsManual => 0xd0,
            ControlRequest::LightMacro => 0xe0,
            ControlRequest::Request12 => 0xf0,
        }
    }

    pub fn from_code(code: u8) -> (r: Option<Self>)
        ensures
            r == Self::spec_from_code(code),
            r matches Some(v) ==> v.spec_code() == code,
    {
        if code == 0xa0 {
            Some(ControlRequest::KeysPrimary)
        } else if code == 0xa1 {
            Some(ControlRequest::KeysFunction)
        } else if code == 0xa2 {
            Some(ControlRequest::KeysMacro)
        } else if code == 0xa3 {
            Some(ControlRequest::KeysThumbster)
        } else if code == 0xa5 {
            Some(ControlRequest::KeysEasyzone)
        } else if code == 0xb0 {
            Some(ControlRequest::KeyMask)
        } else if code == 0xb1 {
            Some(ControlRequest::Light)
        } else if code == 0xb2 {
            Some(ControlRequest::KeysExtra)
        } else if code == 0xc0 {
            Some(ControlRequest::StoredLightsAutomatic)
        } else if code == 0xd0 {
            Some(ControlRequest::StoredLightsManual)
        } else if code == 0xe0 {
            Some(ControlRequest::LightMacro)
        } else if code == 0xf0 {
            Some(ControlRequest::Request12)
        } else {
            None
        }
    }

    /// Every value reads back from its byte.
    pub proof fn lemma_code_round_trip(&self)
        ensures
            Self::spec_from_code(self.spec_code()) == Some(*self),
    {
    }
}

/// The status that the device puts in the control report.
#[derive(Clone, Copy, Debug, PartialEq, Eq)]
pub enum ControlStatus {
    Critical0,
    /// Reported as OK by the device.
    Success,
    Invalid,
    Busy,
    /// Used by the Ryos MK.
    Critical1,
}

impl ControlStatus {
    /// The byte that stands for this value on the wire.
    pub open spec fn spec_code(&self) -> u8 {
        match self {
            ControlStatus::Critical0 => 0x00,
            ControlStatus::Success => 0x01,
            ControlStatus::Invalid => 0x02,
            ControlStatus::Busy => 0x03,
            ControlStatus::Critical1 => 0x04,
        }
    }

    /// The value that a byte stands for, if any.
    pub open spec fn spec_from_code(code: u8) -> Option<Self> {
        if code == 0x00 {
            Some(ControlStatus::Critical0)
        } else if code == 0x01 {
            Some(ControlStatus::Success)
        } else if code == 0x02 {
            Some(ControlStatus::Invalid)
        } else if code == 0x03 {
            Some(ControlStatus::Busy)
        } else if code == 0x04 {
            Some(ControlStatus::Critical1)
        } else {
            None
        }
    }

    pub fn code(&self) -> (r: u8)
        ensures
            r == self.spec_code(),
    {
        match self {
            ControlStatus::Critical0 => 0x00,
            ControlStatus::Success => 0x01,
            ControlStatus::Invalid => 0x02,
            ControlStatus::Busy => 0x03,
            ControlStatus::Critical1 => 0x04,
        }
    }

    pub fn from_code(code: u8) -> (r: Option<Self>)
        ensures
            r == Self::spec_from_code(code),
            r matches Some(v) ==> v.spec_code() == code,
    {
        if code == 0x00 {
            Some(ControlStatus::Critical0)
        } else if code == 0x01 {
            Some(ControlStatus::Success)
        } else if code == 0x02 {
            Some(ControlStatus::Invalid)
        } else if code == 0x03 {
            Some(ControlStatus::Busy)
        } else if code == 0x04 {
            Some(ControlStatus::Critical1)
        } else {
            None
        }
    }

    /// Every value reads back from its byte.
    pub proof fn lemma_code_round_trip(&self)
        ensures
            Self::spec_from_code(self.spec_code()) == Some(*self),
    {
    }
}

/// Selects a sub-report: `value` (most often a profile index) and the request
/// code. Read back, `value` holds the device's [`ControlStatus`].
#[derive(Clone, Copy, Debug, PartialEq, Eq)]
pub struct Control {
    pub value: u8,
    pub request: u8,
}

impl Control {
    pub fn new(value: u8, request: u8) -> (r: Self)
        ensures
            r.value == value,
            r.request == request,
    {
        Self { value, request }
    }

    /// The next step while waiting for the device, given this control report as
    /// read back from it.
    pub fn check_write_step(&self) -> (r: WaitStep)
        ensures
            r == wait_step(self.value),
    {
        match ControlStatus::from_code(self.value) {
            Some(ControlStatus::Success) => WaitStep::Ready,
            Some(ControlStatus::Busy) => WaitStep::Wait,
            Some(ControlStatus::Critical0) => WaitStep::Fail(WaitError::Critical),
            Some(ControlStatus::Critical1) => WaitStep::Fail(WaitError::Critical),
            Some(ControlStatus::Invalid) => WaitStep::Fail(WaitError::Invalid),
            None => WaitStep::Fail(WaitError::Unknown(self.value)),
        }
    }
}

/// Why the device refused a request.
#[derive(Clone, Copy, Debug, PartialEq, Eq)]
pub enum WaitError {
    /// The device reported a critical status.
    Critical,
    /// The device reported the request invalid.
    Invalid,
    /// The device reported a status byte with no known meaning.
    Unknown(u8),
}

/// What to do after reading the device's status.
#[derive(Clone, Copy, Debug, PartialEq, Eq)]
pub enum WaitStep {
    /// The device is done: go on with the request.
    Ready,
    /// The device is busy: wait and read the status again.
    Wait,
    /// The device refused the request.
    Fail(WaitError),
}

/// The step for a control status byte: ready on `Success`, wait on `Busy`, fail
/// on anything else.
pub open spec fn wait_step(status: u8) -> WaitStep {
    match ControlStatus::spec_from_code(status) {
        Some(ControlStatus::Success) => WaitStep::Ready,
        Some(ControlStatus::Busy) => WaitStep::Wait,
        Some(ControlStatus::Invalid) => WaitStep::Fail(WaitError::Invalid),
        Some(_) => WaitStep::Fail(WaitError::Critical),
        None => WaitStep::Fail(WaitError::Unknown(status)),
    }
}

/// Layout of the control report.
pub open spec fn control_layout() -> ReportLayout {
    ReportLayout { report_id: 0x04, size_field: SizeField::Absent, payload_len: 2, checksum: false, verify_on_read: false }
}

impl Report for Control {
    open spec fn layout() -> ReportLayout {
        control_layout()
    }

    fn report_layout() -> (r: ReportLayout) {
        ReportLayout { report_id: 0x04, size_field: SizeField::Absent, payload_len: 2, checksum: false, verify_on_read: false }
    }
}

impl ReportWrite for Control {
    open spec fn spec_payload(&self) -> Seq<u8> {
        seq![self.value, self.request]
    }

    fn payload(&self) -> (r: Vec<u8>) {
        let mut v: Vec<u8> = Vec::new();
        v.push(self.value);
        v.push(self.request);
        assert(v@ =~= self.spec_payload());
        v
    }
}

impl ReportRead for Control {
    open spec fn spec_parse(payload: Seq<u8>) -> Option<Self> {
        Some(Control { value: payload[0], request: payload[1] })
    }

    fn parse(payload: &[u8]) -> (r: Option<Self>) {
        Some(Control { value: payload[0], request: payload[1] })
    }
}

/// The control report that selects sub-report `request` of profile `profile`
/// (counted from 1; the device counts from 0).
pub fn select(profile: u8, request: ControlRequest) -> (r: Control)
    requires
        profile >= 1,
    ensures
        r.value == profile - 1,
        r.request == request.spec_code(),
{
    Control::new(profile - 1, request.code())
}

} // verus!
