//! The light settings report of a profile.
use vstd::prelude::*;

use crate::report::{le16, Report, ReportLayout, ReportRead, ReportWrite, SizeField};

verus! {

/// Whether a profile lights all keys alike or by layer.
#[derive(Clone, Copy, Debug, PartialEq, Eq)]
pub enum LightMode {
    Plain,
    Layer,
}

impl LightMode {
    /// The byte that stands for this value on the wire.
    pub open spec fn spec_code(&self) -> u8 {
        match self {
            LightMode::Plain => 0x00,
            LightMode::Layer => 0x01,
        }
    }

    /// The value that a byte stands for, if any.
    pub open spec fn spec_from_code(code: u8) -> Option<Self> {
        if code == 0x00 {
            Some(LightMode::Plain)
        } else if code == 0x01 {
            Some(LightMode::Layer)
        } else {
            None
        }
    }

    pub fn code(&self) -> (r: u8)
        ensures
            r == self.spec_code(),
    {
        match self {
            LightMode::Plain => 0x00,
            LightMode::Layer => 0x01,
        }
    }

    pub fn from_code(code: u8) -> (r: Option<Self>)
        ensures
            r == Self::spec_from_code(code),
            r matches Some(v) ==> v.spec_code() == code,
    {
        if code == 0x00 {
            Some(LightMode::Plain)
        } else if code == 0x01 {
            Some(LightMode::Layer)
        } else {
            None
        }
    }

    /// Every value reads back from its byte.
    pub proof fn lemma_code_round_trip(&self)
        ensures
            Self::spec_from_code(self.spec_code()) == Some(*self),
    {
    }
}

/// The light effect of a profile; some are drawn by the host, not the device.
#[derive(Clone, Copy, Debug, PartialEq, Eq)]
pub enum LightEffect {
    Off,
    FullyLit,
    Blinking,
    Breathing,
    Heartbeat,
    /// Drawn by the host.
    Equalizer,
    /// Drawn by the host.
    Ripple,
    /// Drawn by the host.
    Wave,
    /// Drawn by the host.
    Heatmap,
    /// Drawn by the host.
    GamePreset,
    Fade,
}

impl LightEffect {
    /// The byte that stands for this value on the wire.
    pub open spec fn spec_code(&self) -> u8 {
        match self {
            LightEffect::Off => 0x00,
            LightEffect::FullyLit => 0x01,
            LightEffect::Blinking => 0x02,
            LightEffect::Breathing => 0x03,
            LightEffect::Heartbeat => 0x04,
            LightEffect::Equalizer => 0x05,
            LightEffect::Ripple => 0x06,
            LightEffect::Wave => 0x07,
            LightEffect::Heatmap => 0x08,
            LightEffect::GamePreset => 0x09,
            LightEffect::Fade => 0x10,
        }
    }

    /// The value that a byte stands for, if any.
    pub open spec fn spec_from_code(code: u8) -> Option<Self> {
        if code == 0x00 {
            Some(LightEffect::Off)
        } else if code == 0x01 {
            Some(LightEffect::FullyLit)
        } else if code == 0x02 {
            Some(LightEffect::Blinking)
        } else if code == 0x03 {
            Some(LightEffect::Breathing)
        } else if code == 0x04 {
            Some(LightEffect::Heartbeat)
        } else if code == 0x05 {
            Some(LightEffect::Equalizer)
        } else if code == 0x06 {
            Some(LightEffect::Ripple)
        } else if code == 0x07 {
            Some(LightEffect::Wave)
        } else if code == 0x08 {
            Some(LightEffect::Heatmap)
        } else if code == 0x09 {
            Some(LightEffect::GamePreset)
        } else if code == 0x10 {
            Some(LightEffect::Fade)
        } else {
            None
        }
    }

    pub fn code(&self) -> (r: u8)
        ensures
            r == self.spec_code(),
    {
        match self {
            LightEffect::Off => 0x00,
            LightEffect::FullyLit => 0x01,
            LightEffect::Blinking => 0x02,
            LightEffect::Breathing => 0x03,
            LightEffect::Heartbeat => 0x04,
            LightEffect::Equalizer => 0x05,
            LightEffect::Ripple => 0x06,
            LightEffect::Wave => 0x07,
            LightEffect::Heatmap => 0x08,
            LightEffect::GamePreset => 0x09,
            LightEffect::Fade => 0x10,
        }
    }

    pub fn from_code(code: u8) -> (r: Option<Self>)
        ensures
            r == Self::spec_from_code(code),
            r matches Some(v) ==> v.spec_code() == code,
    {
        if code == 0x00 {
            Some(LightEffect::Off)
        } else if code == 0x01 {
            Some(LightEffect::FullyLit)
        } else if code == 0x02 {
            Some(LightEffect::Blinking)
        } else if code == 0x03 {
            Some(LightEffect::Breathing)
        } else if code == 0x04 {
            Some(LightEffect::Heartbeat)
        } else if code == 0x05 {
            Some(LightEffect::Equalizer)
        } else if code == 0x06 {
            Some(LightEffect::Ripple)
        } else if code == 0x07 {
            Some(LightEffect::Wave)
        } else if code == 0x08 {
            Some(LightEffect::Heatmap)
        } else if code == 0x09 {
            Some(LightEffect::GamePreset)
        } else if code == 0x10 {
            Some(LightEffect::Fade)
        } else {
            None
        }
    }

    /// Every value reads back from its byte.
    pub proof fn lemma_code_round_trip(&self)
        ensures
            Self::spec_from_code(self.spec_code()) == Some(*self),
    {
    }
}

/// Whether keys light up while a macro runs.
#[derive(Clone, Copy, Debug, PartialEq, Eq)]
pub enum LightLedFeedback {
    Off,
    MacroExecution,
}

impl LightLedFeedback {
    /// The byte that stands for this value on the wire.
    pub open spec fn spec_code(&self) -> u8 {
        match self {
            LightLedFeedback::Off => 0x00,
            LightLedFeedback::MacroExecution => 0x01,
        }
    }

    /// The value that a byte stands for, if any.
    pub open spec fn spec_from_code(code: u8) -> Option<Self> {
        if code == 0x00 {
            Some(LightLedFeedback::Off)
        } else if code == 0x01 {
            Some(LightLedFeedback::MacroExecution)
        } else {
            None
        }
    }

    pub fn code(&self) -> (r: u8)
        ensures
            r == self.spec_code(),
    {
        match self {
            LightLedFeedback::Off => 0x00,
            LightLedFeedback::MacroExecution => 0x01,
        }
    }

    pub fn from_code(code: u8) -> (r: Option<Self>)
        ensures
            r == Self::spec_from_code(code),
            r matches Some(v) ==> v.spec_code() == code,
    {
        if code == 0x00 {
            Some(LightLedFeedback::Off)
        } else if code == 0x01 {
            Some(LightLedFeedback::MacroExecution)
        } else {
            None
        }
    }

    /// Every value reads back from its byte.
    pub proof fn lemma_code_round_trip(&self)
        ensures
            Self::spec_from_code(self.spec_code()) == Some(*self),
    {
    }
}

/// How the lights dim after the timeout.
#[derive(Clone, Copy, Debug, PartialEq, Eq)]
pub enum LightDimnessType {
    Off,
    StarlitSky,
    FallAsleep,
}

impl LightDimnessType {
    /// The byte that stands for this value on the wire.
    pub open spec fn spec_code(&self) -> u8 {
        match self {
            LightDimnessType::Off => 0x00,
            LightDimnessType::StarlitSky => 0x01,
            LightDimnessType::FallAsleep => 0x03,
        }
    }

    /// The value that a byte stands for, if any.
    pub open spec fn spec_from_code(code: u8) -> Option<Self> {
        if code == 0x00 {
            Some(LightDimnessType::Off)
        } else if code == 0x01 {
            Some(LightDimnessType::StarlitSky)
        } else if code == 0x03 {
            Some(LightDimnessType::FallAsleep)
        } else {
            None
        }
    }

    pub fn code(&self) -> (r: u8)
        ensures
            r == self.spec_code(),
    {
        match self {
            LightDimnessType::Off => 0x00,
            LightDimnessType::StarlitSky => 0x01,
            LightDimnessType::FallAsleep => 0x03,
        }
    }

    pub fn from_code(code: u8) -> (r: Option<Self>)
        ensures
            r == Self::spec_from_code(code),
            r matches Some(v) ==> v.spec_code() == code,
    {
        if code == 0x00 {
            Some(LightDimnessType::Off)
        } else if code == 0x01 {
            Some(LightDimnessType::StarlitSky)
        } else if code == 0x03 {
            Some(LightDimnessType::FallAsleep)
        } else {
            None
        }
    }

    /// Every value reads back from its byte.
    pub proof fn lemma_code_round_trip(&self)
        ensures
            Self::spec_from_code(self.spec_code()) == Some(*self),
    {
    }
}

/// Light settings of one profile.
#[derive(Clone, Copy, Debug, PartialEq, Eq)]
pub struct Lights {
    pub profile: u8,
    /// 0 to 5.
    pub brightness: u8,
    /// 0 to 5.
    pub dimness: u8,
    /// Minutes.
    pub timeout: u8,
    pub mode: LightMode,
    pub effect: LightEffect,
    pub unknown0: u8,
    /// 1 to 3.
    pub effect_speed: u8,
    pub unknown1: u8,
    pub led_feedback: LightLedFeedback,
    pub dimness_type: LightDimnessType,
    pub unknown2: u8,
    pub red: u16,
    pub green: u16,
    pub blue: u16,
    pub unused: [u8; 10],
}

/// A 16-bit value from its little-endian bytes.
pub open spec fn from_le16(low: u8, high: u8) -> u16 {
    (low + high * 256) as u16
}

impl Lights {
    /// The settings as the device numbers profiles, from 0.
    pub fn for_device(&self) -> (r: Self)
        requires
            self.profile >= 1,
        ensures
            r == (Lights { profile: (self.profile - 1) as u8, ..*self }),
    {
        Lights { profile: self.profile - 1, ..*self }
    }
}

impl Default for Lights {
    /// Settings picked as a reasonable start: profile 1, fully lit in white.
    fn default() -> (r: Self)
        ensures
            r.profile == 1 && r.brightness == 4 && r.dimness == 1 && r.timeout == 10,
            r.mode == LightMode::Plain && r.effect == LightEffect::FullyLit,
            r.unknown0 == 0 && r.effect_speed == 1 && r.unknown1 == 0 && r.unknown2 == 0,
            r.led_feedback == LightLedFeedback::Off && r.dimness_type == LightDimnessType::StarlitSky,
            r.red == 0xff && r.green == 0xff && r.blue == 0xff,
            r.unused@ == Seq::new(10, |i: int| 0u8),
    {
        let r = Lights {
            profile: 1,
            brightness: 4,
            dimness: 1,
            timeout: 10,
            mode: LightMode::Plain,
            effect: LightEffect::FullyLit,
            unknown0: 0,
            effect_speed: 1,
            unknown1: 0,
            led_feedback: LightLedFeedback::Off,
            dimness_type: LightDimnessType::StarlitSky,
            unknown2: 0,
            red: 0xff,
            green: 0xff,
            blue: 0xff,
            unused: [0u8; 10],
        };
        assert(r.unused@ =~= Seq::new(10, |i: int| 0u8));
        r
    }
}

impl Report for Lights {
    open spec fn layout() -> ReportLayout {
        ReportLayout { report_id: 0x0d, size_field: SizeField::Byte, payload_len: 28, checksum: true, verify_on_read: false }
    }

    fn report_layout() -> (r: ReportLayout) {
        ReportLayout { report_id: 0x0d, size_field: SizeField::Byte, payload_len: 28, checksum: true, verify_on_read: false }
    }
}

impl ReportWrite for Lights {
    open spec fn spec_payload(&self) -> Seq<u8> {
        seq![
            self.profile,
            self.brightness,
            self.dimness,
            self.timeout,
            self.mode.spec_code(),
            self.effect.spec_code(),
            self.unknown0,
            self.effect_speed,
            self.unknown1,
            self.led_feedback.spec_code(),
            self.dimness_type.spec_code(),
            self.unknown2,
        ] + le16(self.red as nat) + le16(self.green as nat) + le16(self.blue as nat) + self.unused@
    }

    fn payload(&self) -> (r: Vec<u8>) {
        let mut v: Vec<u8> = Vec::new();
        v.push(self.profile);
        v.push(self.brightness);
        v.push(self.dimness);
        v.push(self.timeout);
        v.push(self.mode.code());
        v.push(self.effect.code());
        v.push(self.unknown0);
        v.push(self.effect_speed);
        v.push(self.unknown1);
        v.push(self.led_feedback.code());
        v.push(self.dimness_type.code());
        v.push(self.unknown2);
        v.push((self.red % 256) as u8);
        v.push((self.red / 256) as u8);
        v.push((self.green % 256) as u8);
        v.push((self.green / 256) as u8);
        v.push((self.blue % 256) as u8);
        v.push((self.blue / 256) as u8);
        let mut i: usize = 0;
        let ghost head = v@;
        while i < 10
            invariant
                i <= 10,
                v@ == head + self.unused@.subrange(0, i as int),
            decreases 10 - i,
        {
            v.push(self.unused[i]);
            assert(v@ =~= head + self.unused@.subrange(0, i + 1));
            i += 1;
        }
        assert(v@ =~= self.spec_payload());
        v
    }
}

impl ReportRead for Lights {
    open spec fn spec_parse(p: Seq<u8>) -> Option<Self> {
        match (
            LightMode::spec_from_code(p[4]),
            LightEffect::spec_from_code(p[5]),
            LightLedFeedback::spec_from_code(p[9]),
            LightDimnessType::spec_from_code(p[10]),
        ) {
            (Some(mode), Some(effect), Some(led_feedback), Some(dimness_type)) => Some(
                Lights {
                    profile: p[0],
                    brightness: p[1],
                    dimness: p[2],
                    timeout: p[3],
                    mode,
                    effect,
                    unknown0: p[6],
                    effect_speed: p[7],
                    unknown1: p[8],
                    led_feedback,
                    dimness_type,
                    unknown2: p[11],
                    red: from_le16(p[12], p[13]),
                    green: from_le16(p[14], p[15]),
                    blue: from_le16(p[16], p[17]),
                    unused: Self::spec_unused(p),
                },
            ),
            _ => None,
        }
    }

    fn parse(payload: &[u8]) -> (r: Option<Self>) {
        let mode = LightMode::from_code(payload[4]);
        let effect = LightEffect::from_code(payload[5]);
        let led_feedback = LightLedFeedback::from_code(payload[9]);
        let dimness_type = LightDimnessType::from_code(payload[10]);
        match (mode, effect, led_feedback, dimness_type) {
            (Some(mode), Some(effect), Some(led_feedback), Some(dimness_type)) => {
                let mut unused = [0u8; 10];
                let mut i: usize = 0;
                while i < 10
                    invariant
                        i <= 10,
                        payload@.len() == 28,
                        forall|k: int| 0 <= k < i ==> unused@[k] == payload@[18 + k],
                    decreases 10 - i,
                {
                    unused[i] = payload[18 + i];
                    i += 1;
                }
                assert(unused == Self::spec_unused(payload@)) by {
                    Self::lemma_unused(payload@, unused);
                }
                Some(
                    Lights {
                        profile: payload[0],
                        brightness: payload[1],
                        dimness: payload[2],
                        timeout: payload[3],
                        mode,
                        effect,
                        unknown0: payload[6],
                        effect_speed: payload[7],
                        unknown1: payload[8],
                        led_feedback,
                        dimness_type,
                        unknown2: payload[11],
                        red: payload[12] as u16 + payload[13] as u16 * 256,
                        green: payload[14] as u16 + payload[15] as u16 * 256,
                        blue: payload[16] as u16 + payload[17] as u16 * 256,
                        unused,
                    },
                )
            },
            _ => None,
        }
    }
}

impl Lights {
    /// The ten unused bytes at the end of a payload.
    pub open spec fn spec_unused(p: Seq<u8>) -> [u8; 10] {
        choose|a: [u8; 10]| a@ == p.subrange(18, 28)
    }

    proof fn lemma_unused(p: Seq<u8>, a: [u8; 10])
        requires
            p.len() == 28,
            forall|k: int| 0 <= k < 10 ==> a@[k] == p[18 + k],
        ensures
            a == Self::spec_unused(p),
    {
        assert(a@ =~= p.subrange(18, 28));
        let b = Self::spec_unused(p);
        assert(b@ =~= a@);
        assert(b =~= a);
    }
}

} // verus!
