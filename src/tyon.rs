//! The Tyon mouse: its profile report and interfaces.
use vstd::prelude::*;

use crate::report::{Report, ReportLayout, ReportRead, ReportWrite, SizeField};
pub use crate::ryosmkfx::profile::ProfileError;

verus! {

/// The interfaces of the mouse, in the order that their device nodes come.
#[derive(Clone, Copy, Debug, PartialEq, Eq)]
pub enum Interface {
    Primary,
    Events,
}

impl Interface {
    /// Position of the interface's device node.
    pub fn index(&self) -> (r: usize)
        ensures
            r == if *self == Interface::Primary {
                0usize
            } else {
                1usize
            },
    {
        match self {
            Interface::Primary => 0,
            Interface::Events => 1,
        }
    }
}

/// The active profile, counted from 0.
#[derive(Clone, Copy, Debug, PartialEq, Eq)]
pub struct Profile {
    pub index: u8,
}

impl Profile {
    pub fn new(index: u8) -> (r: Self)
        ensures
            r.index == index,
    {
        Profile { index }
    }

    /// The active profile, counted from 1.
    pub fn current(&self) -> (r: u8)
        requires
            self.index < 255,
        ensures
            r == self.index + 1,
    {
        self.index + 1
    }

    /// The report that makes `profile` (1 to 5) active.
    pub fn for_profile(profile: u8) -> (r: Result<Profile, ProfileError>)
        ensures
            r is Ok <==> 1 <= profile <= 5,
            r matches Ok(p) ==> p.index == profile - 1,
            r matches Err(e) ==> e == ProfileError::OutOfRange(profile),
    {
        if profile < 1 || profile > 5 {
            return Err(ProfileError::OutOfRange(profile));
        }
        Ok(Profile::new(profile - 1))
    }
}

/// Making any of profiles 1 to 5 active and reading the profile back gives
/// that profile.
pub proof fn lemma_profile_round_trip(report: Profile, profile: u8)
    requires
        1 <= profile <= 5,
        report.index == profile - 1,
    ensures
        report.index < 255,
        report.index + 1 == profile,
{
}

impl Report for Profile {
    open spec fn layout() -> ReportLayout {
        ReportLayout { report_id: 0x05, size_field: SizeField::Byte, payload_len: 1, checksum: false, verify_on_read: false }
    }

    fn report_layout() -> (r: ReportLayout) {
        ReportLayout { report_id: 0x05, size_field: SizeField::Byte, payload_len: 1, checksum: false, verify_on_read: false }
    }
}

impl ReportWrite for Profile {
    open spec fn spec_payload(&self) -> Seq<u8> {
        seq![self.index]
    }

    fn payload(&self) -> (r: Vec<u8>) {
        let mut v: Vec<u8> = Vec::new();
        v.push(self.index);
        assert(v@ =~= self.spec_payload());
        v
    }
}

impl ReportRead for Profile {
    open spec fn spec_parse(p: Seq<u8>) -> Option<Self> {
        Some(Profile { index: p[0] })
    }

    fn parse(payload: &[u8]) -> (r: Option<Self>) {
        Some(Profile { index: payload[0] })
    }
}

} // verus!
