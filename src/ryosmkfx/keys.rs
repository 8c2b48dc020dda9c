//! The key layer reports: what each key of a profile does.
use vstd::prelude::*;

use crate::button::{button_at, buttons_bytes, parse_buttons, parsed_buttons, push_buttons, ButtonConfig};
use crate::report::{append_bytes, take_bytes, Report, ReportLayout, ReportRead, ReportWrite, SizeField};

verus! {

/// Bindings of the main keys: one key code per key.
#[derive(Clone, Copy, Debug)]
pub struct KeysPrimary {
    pub profile_index: u8,
    pub keys: [u8; 120],
}

impl KeysPrimary {
    pub fn new(profile_index: u8, keys: [u8; 120]) -> (r: Self)
        ensures
            r.profile_index == profile_index,
            r.keys == keys,
    {
        Self { profile_index, keys }
    }

    /// The key codes that follow the profile index.
    pub open spec fn spec_keys(p: Seq<u8>) -> [u8; 120] {
        choose|a: [u8; 120]| a@ == p.subrange(1, 121)
    }
}

impl Report for KeysPrimary {
    open spec fn layout() -> ReportLayout {
        ReportLayout { report_id: 0x06, size_field: SizeField::Byte, payload_len: 121, checksum: true, verify_on_read: true }
    }

    fn report_layout() -> (r: ReportLayout) {
        ReportLayout { report_id: 0x06, size_field: SizeField::Byte, payload_len: 121, checksum: true, verify_on_read: true }
    }
}

impl ReportWrite for KeysPrimary {
    open spec fn spec_payload(&self) -> Seq<u8> {
        seq![self.profile_index] + self.keys@
    }

    fn payload(&self) -> (r: Vec<u8>) {
        let mut v: Vec<u8> = Vec::new();
        v.push(self.profile_index);
        append_bytes(&mut v, &self.keys);
        v
    }
}

impl ReportRead for KeysPrimary {
    open spec fn spec_parse(p: Seq<u8>) -> Option<Self> {
        Some(KeysPrimary { profile_index: p[0], keys: Self::spec_keys(p) })
    }

    fn parse(payload: &[u8]) -> (r: Option<Self>) {
        let keys: [u8; 120] = take_bytes(payload, 1);
        proof {
            let b = Self::spec_keys(payload@);
            assert(b@ =~= keys@);
            assert(b =~= keys);
        }
        Some(KeysPrimary { profile_index: payload[0], keys })
    }
}

/// Bindings of the function keys, plain and with Fn held.
#[derive(Clone, Copy, Debug)]
pub struct KeysFunction {
    pub profile_index: u8,
    pub keys: [ButtonConfig; 30],
}

impl KeysFunction {
    pub fn new(profile_index: u8, keys: [ButtonConfig; 30]) -> (r: Self)
        ensures
            r.profile_index == profile_index,
            r.keys == keys,
    {
        Self { profile_index, keys }
    }

    /// The bindings whose bytes follow the profile index.
    pub open spec fn spec_keys(p: Seq<u8>) -> [ButtonConfig; 30] {
        choose|a: [ButtonConfig; 30]| parsed_buttons(a, p, 1)
    }
}

impl Report for KeysFunction {
    open spec fn layout() -> ReportLayout {
        ReportLayout { report_id: 0x07, size_field: SizeField::Byte, payload_len: 91, checksum: true, verify_on_read: true }
    }

    fn report_layout() -> (r: ReportLayout) {
        ReportLayout { report_id: 0x07, size_field: SizeField::Byte, payload_len: 91, checksum: true, verify_on_read: true }
    }
}

impl ReportWrite for KeysFunction {
    open spec fn spec_payload(&self) -> Seq<u8> {
        seq![self.profile_index] + buttons_bytes(self.keys@)
    }

    fn payload(&self) -> (r: Vec<u8>) {
        let mut v: Vec<u8> = Vec::new();
        v.push(self.profile_index);
        push_buttons(&mut v, &self.keys);
        proof {
            crate::button::lemma_buttons_bytes(self.keys@, 0);
        }
        v
    }
}

impl ReportRead for KeysFunction {
    open spec fn spec_parse(p: Seq<u8>) -> Option<Self> {
        Some(KeysFunction { profile_index: p[0], keys: Self::spec_keys(p) })
    }

    fn parse(payload: &[u8]) -> (r: Option<Self>) {
        let keys: [ButtonConfig; 30] = parse_buttons(payload, 1);
        proof {
            assert(parsed_buttons(keys, payload@, 1));
            let b = Self::spec_keys(payload@);
            assert(parsed_buttons(b, payload@, 1));
            assert(forall|k: int| 0 <= k < 30 ==> #[trigger] b@[k] == keys@[k]);
            assert(b =~= keys);
        }
        Some(KeysFunction { profile_index: payload[0], keys })
    }
}

/// Bindings of the macro keys, plain and with EasyShift held.
#[derive(Clone, Copy, Debug)]
pub struct KeysMacro {
    pub profile_index: u8,
    pub keys: [ButtonConfig; 10],
}

impl KeysMacro {
    pub fn new(profile_index: u8, keys: [ButtonConfig; 10]) -> (r: Self)
        ensures
            r.profile_index == profile_index,
            r.keys == keys,
    {
        Self { profile_index, keys }
    }

    /// The bindings whose bytes follow the profile index.
    pub open spec fn spec_keys(p: Seq<u8>) -> [ButtonConfig; 10] {
        choose|a: [ButtonConfig; 10]| parsed_buttons(a, p, 1)
    }
}

impl Report for KeysMacro {
    open spec fn layout() -> ReportLayout {
        ReportLayout { report_id: 0x08, size_field: SizeField::Byte, payload_len: 31, checksum: true, verify_on_read: true }
    }

    fn report_layout() -> (r: ReportLayout) {
        ReportLayout { report_id: 0x08, size_field: SizeField::Byte, payload_len: 31, checksum: true, verify_on_read: true }
    }
}

impl ReportWrite for KeysMacro {
    open spec fn spec_payload(&self) -> Seq<u8> {
        seq![self.profile_index] + buttons_bytes(self.keys@)
    }

    fn payload(&self) -> (r: Vec<u8>) {
        let mut v: Vec<u8> = Vec::new();
        v.push(self.profile_index);
        push_buttons(&mut v, &self.keys);
        proof {
            crate::button::lemma_buttons_bytes(self.keys@, 0);
        }
        v
    }
}

impl ReportRead for KeysMacro {
    open spec fn spec_parse(p: Seq<u8>) -> Option<Self> {
        Some(KeysMacro { profile_index: p[0], keys: Self::spec_keys(p) })
    }

    fn parse(payload: &[u8]) -> (r: Option<Self>) {
        let keys: [ButtonConfig; 10] = parse_buttons(payload, 1);
        proof {
            assert(parsed_buttons(keys, payload@, 1));
            let b = Self::spec_keys(payload@);
            assert(parsed_buttons(b, payload@, 1));
            assert(forall|k: int| 0 <= k < 10 ==> #[trigger] b@[k] == keys@[k]);
            assert(b =~= keys);
        }
        Some(KeysMacro { profile_index: payload[0], keys })
    }
}

/// Bindings of the thumb keys, plain and with EasyShift held.
#[derive(Clone, Copy, Debug)]
pub struct KeysThumbster {
    pub profile_index: u8,
    pub keys: [ButtonConfig; 6],
}

impl KeysThumbster {
    pub fn new(profile_index: u8, keys: [ButtonConfig; 6]) -> (r: Self)
        ensures
            r.profile_index == profile_index,
            r.keys == keys,
    {
        Self { profile_index, keys }
    }

    /// The bindings whose bytes follow the profile index.
    pub open spec fn spec_keys(p: Seq<u8>) -> [ButtonConfig; 6] {
        choose|a: [ButtonConfig; 6]| parsed_buttons(a, p, 1)
    }
}

impl Report for KeysThumbster {
    open spec fn layout() -> ReportLayout {
        ReportLayout { report_id: 0x09, size_field: SizeField::Byte, payload_len: 19, checksum: true, verify_on_read: true }
    }

    fn report_layout() -> (r: ReportLayout) {
        ReportLayout { report_id: 0x09, size_field: SizeField::Byte, payload_len: 19, checksum: true, verify_on_read: true }
    }
}

impl ReportWrite for KeysThumbster {
    open spec fn spec_payload(&self) -> Seq<u8> {
        seq![self.profile_index] + buttons_bytes(self.keys@)
    }

    fn payload(&self) -> (r: Vec<u8>) {
        let mut v: Vec<u8> = Vec::new();
        v.push(self.profile_index);
        push_buttons(&mut v, &self.keys);
        proof {
            crate::button::lemma_buttons_bytes(self.keys@, 0);
        }
        v
    }
}

impl ReportRead for KeysThumbster {
    open spec fn spec_parse(p: Seq<u8>) -> Option<Self> {
        Some(KeysThumbster { profile_index: p[0], keys: Self::spec_keys(p) })
    }

    fn parse(payload: &[u8]) -> (r: Option<Self>) {
        let keys: [ButtonConfig; 6] = parse_buttons(payload, 1);
        proof {
            assert(parsed_buttons(keys, payload@, 1));
            let b = Self::spec_keys(payload@);
            assert(parsed_buttons(b, payload@, 1));
            assert(forall|k: int| 0 <= k < 6 ==> #[trigger] b@[k] == keys@[k]);
            assert(b =~= keys);
        }
        Some(KeysThumbster { profile_index: payload[0], keys })
    }
}

/// Bindings of the keys with EasyShift held.
#[derive(Clone, Copy, Debug)]
pub struct KeysEasyzone {
    pub profile_index: u8,
    pub keys: [ButtonConfig; 96],
}

impl KeysEasyzone {
    pub fn new(profile_index: u8, keys: [ButtonConfig; 96]) -> (r: Self)
        ensures
            r.profile_index == profile_index,
            r.keys == keys,
    {
        Self { profile_index, keys }
    }

    /// The bindings whose bytes follow the profile index.
    pub open spec fn spec_keys(p: Seq<u8>) -> [ButtonConfig; 96] {
        choose|a: [ButtonConfig; 96]| parsed_buttons(a, p, 1)
    }
}

impl Report for KeysEasyzone {
    open spec fn layout() -> ReportLayout {
        ReportLayout { report_id: 0x0b, size_field: SizeField::Word, payload_len: 289, checksum: true, verify_on_read: true }
    }

    fn report_layout() -> (r: ReportLayout) {
        ReportLayout { report_id: 0x0b, size_field: SizeField::Word, payload_len: 289, checksum: true, verify_on_read: true }
    }
}

impl ReportWrite for KeysEasyzone {
    open spec fn spec_payload(&self) -> Seq<u8> {
        seq![self.profile_index] + buttons_bytes(self.keys@)
    }

    fn payload(&self) -> (r: Vec<u8>) {
        let mut v: Vec<u8> = Vec::new();
        v.push(self.profile_index);
        push_buttons(&mut v, &self.keys);
        proof {
            crate::button::lemma_buttons_bytes(self.keys@, 0);
        }
        v
    }
}

impl ReportRead for KeysEasyzone {
    open spec fn spec_parse(p: Seq<u8>) -> Option<Self> {
        Some(KeysEasyzone { profile_index: p[0], keys: Self::spec_keys(p) })
    }

    fn parse(payload: &[u8]) -> (r: Option<Self>) {
        let keys: [ButtonConfig; 96] = parse_buttons(payload, 1);
        proof {
            assert(parsed_buttons(keys, payload@, 1));
            let b = Self::spec_keys(payload@);
            assert(parsed_buttons(b, payload@, 1));
            assert(forall|k: int| 0 <= k < 96 ==> #[trigger] b@[k] == keys@[k]);
            assert(b =~= keys);
        }
        Some(KeysEasyzone { profile_index: payload[0], keys })
    }
}

/// Bindings of Caps Lock and Fn.
#[derive(Clone, Copy, Debug, PartialEq, Eq)]
pub struct KeysExtra {
    pub profile_index: u8,
    pub capslock: u8,
    pub fn_: u8,
    pub unused: u8,
}

impl KeysExtra {
    pub fn new(profile_index: u8, capslock: u8, fn_: u8, unused: u8) -> (r: Self)
        ensures
            r == (KeysExtra { profile_index, capslock, fn_, unused }),
    {
        Self { profile_index, capslock, fn_, unused }
    }
}

impl Default for KeysExtra {
    fn default() -> (r: Self)
        ensures
            r == (KeysExtra { profile_index: 0, capslock: 0xff, fn_: 0xf1, unused: 0 }),
    {
        Self { profile_index: 0, capslock: 0xff, fn_: 0xf1, unused: 0 }
    }
}

impl Report for KeysExtra {
    open spec fn layout() -> ReportLayout {
        ReportLayout { report_id: 0x0a, size_field: SizeField::Byte, payload_len: 4, checksum: true, verify_on_read: true }
    }

    fn report_layout() -> (r: ReportLayout) {
        ReportLayout { report_id: 0x0a, size_field: SizeField::Byte, payload_len: 4, checksum: true, verify_on_read: true }
    }
}

impl ReportWrite for KeysExtra {
    open spec fn spec_payload(&self) -> Seq<u8> {
        seq![self.profile_index, self.capslock, self.fn_, self.unused]
    }

    fn payload(&self) -> (r: Vec<u8>) {
        let mut v: Vec<u8> = Vec::new();
        v.push(self.profile_index);
        v.push(self.capslock);
        v.push(self.fn_);
        v.push(self.unused);
        assert(v@ =~= self.spec_payload());
        v
    }
}

impl ReportRead for KeysExtra {
    open spec fn spec_parse(p: Seq<u8>) -> Option<Self> {
        Some(KeysExtra { profile_index: p[0], capslock: p[1], fn_: p[2], unused: p[3] })
    }

    fn parse(payload: &[u8]) -> (r: Option<Self>) {
        Some(KeysExtra { profile_index: payload[0], capslock: payload[1], fn_: payload[2], unused: payload[3] })
    }
}

} // verus!
