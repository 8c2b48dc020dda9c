//! The profile report of the keyboard, and its device information report.
use vstd::prelude::*;

use crate::bitfield::NibbleField;
use crate::report::{take_bytes, Report, ReportLayout, ReportRead, ReportWrite, SizeField};

verus! {

/// Why a profile number was refused.
#[derive(Clone, Copy, Debug, PartialEq, Eq)]
pub enum ProfileError {
    /// Profiles are numbered 1 to 5.
    OutOfRange(u8),
}

/// The active profile: nibble 0 of `index` is the active profile counted from
/// 0, nibble 1 is kept as the device gave it.
#[derive(Clone, Copy, Debug, PartialEq, Eq)]
pub struct Profile {
    pub index: u8,
}

/// The active profile, counted from 1, that a profile report names.
pub open spec fn spec_current(report: Profile) -> int {
    report.index.nibble(0) + 1
}

/// `after` is `before` with the active profile set to `profile`.
pub open spec fn sets_current(before: Profile, after: Profile, profile: u8) -> bool {
    &&& after.index.nibble(0) == profile - 1
    &&& after.index.nibble(1) == before.index.nibble(1)
}

impl Profile {
    pub fn new(index: u8) -> (r: Self)
        ensures
            r.index == index,
    {
        Profile { index }
    }

    /// The active profile, counted from 1.
    pub fn current(&self) -> (r: u8)
        ensures
            r == spec_current(*self),
    {
        self.index.get_nibble(0) + 1
    }

    /// This report with the active profile set to `profile` (1 to 5).
    pub fn with_current(&self, profile: u8) -> (r: Result<Profile, ProfileError>)
        ensures
            r is Ok <==> 1 <= profile <= 5,
            r matches Ok(after) ==> sets_current(*self, after, profile),
            r matches Err(e) ==> e == ProfileError::OutOfRange(profile),
    {
        if profile < 1 || profile > 5 {
            return Err(ProfileError::OutOfRange(profile));
        }
        let mut index = self.index;
        index.set_nibble(0, profile - 1);
        Ok(Profile { index })
    }
}

/// Setting the active profile to any of 1 to 5 and reading it back gives that
/// profile.
pub proof fn lemma_profile_round_trip(before: Profile, after: Profile, profile: u8)
    requires
        1 <= profile <= 5,
        sets_current(before, after, profile),
    ensures
        spec_current(after) == profile,
{
}

impl Report for Profile {
    open spec fn layout() -> ReportLayout {
        ReportLayout { report_id: 0x05, size_field: SizeField::Byte, payload_len: 1, checksum: false, verify_on_read: false }
    }

    fn report_layout() -> (r: ReportLayout) {
        ReportLayout { report_id: 0x05, size_field: SizeField::Byte, payload_len: 1, checksum: false, verify_on_read: false }
    }
}

impl ReportWrite for Profile {
    open spec fn spec_payload(&self) -> Seq<u8> {
        seq![self.index]
    }

    fn payload(&self) -> (r: Vec<u8>) {
        let mut v: Vec<u8> = Vec::new();
        v.push(self.index);
        assert(v@ =~= self.spec_payload());
        v
    }
}

impl ReportRead for Profile {
    open spec fn spec_parse(p: Seq<u8>) -> Option<Self> {
        Some(Profile { index: p[0] })
    }

    fn parse(payload: &[u8]) -> (r: Option<Self>) {
        Some(Profile { index: payload[0] })
    }
}

/// Firmware versions; the device only sends this report.
#[derive(Clone, Copy, Debug, PartialEq, Eq)]
pub struct DeviceInfo {
    pub firmware_version: u8,
    pub dfu_version: u8,
    pub led_firmware_version: u8,
    pub unknown: [u8; 2],
}

impl Report for DeviceInfo {
    open spec fn layout() -> ReportLayout {
        ReportLayout { report_id: 0x0f, size_field: SizeField::Byte, payload_len: 5, checksum: false, verify_on_read: false }
    }

    fn report_layout() -> (r: ReportLayout) {
        ReportLayout { report_id: 0x0f, size_field: SizeField::Byte, payload_len: 5, checksum: false, verify_on_read: false }
    }
}

impl ReportRead for DeviceInfo {
    open spec fn spec_parse(p: Seq<u8>) -> Option<Self> {
        Some(
            DeviceInfo {
                firmware_version: p[0],
                dfu_version: p[1],
                led_firmware_version: p[2],
                unknown: Self::spec_unknown(p),
            },
        )
    }

    fn parse(payload: &[u8]) -> (r: Option<Self>) {
        let unknown: [u8; 2] = take_bytes(payload, 3);
        proof {
            let b = Self::spec_unknown(payload@);
            assert(b@ =~= unknown@);
            assert(b =~= unknown);
        }
        Some(
            DeviceInfo {
                firmware_version: payload[0],
                dfu_version: payload[1],
                led_firmware_version: payload[2],
                unknown,
            },
        )
    }
}

impl DeviceInfo {
    /// The two bytes after the versions.
    pub open spec fn spec_unknown(p: Seq<u8>) -> [u8; 2] {
        choose|a: [u8; 2]| a@ == p.subrange(3, 5)
    }
}

} // verus!
