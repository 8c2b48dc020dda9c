//! A key or button binding.
use vstd::prelude::*;

verus! {

/// A modifier key held with a binding; the values are disjoint bits.
#[derive(Clone, Copy, Debug, PartialEq, Eq)]
pub enum ButtonModifier {
    /// No modifier.
    Unmodified,
    Shift,
    Ctrl,
    Alt,
    Super,
}

impl ButtonModifier {
    /// The byte that stands for this value on the wire.
    pub open spec fn spec_code(&self) -> u8 {
        match self {
            ButtonModifier::Unmodified => 0x00,
            ButtonModifier::Shift => 0x01,
            ButtonModifier::Ctrl => 0x02,
            ButtonModifier::Alt => 0x04,
            ButtonModifier::Super => 0x08,
        }
    }

    /// The value that a byte stands for, if any.
    pub open spec fn spec_from_code(code: u8) -> Option<Self> {
        if code == 0x00 {
            Some(ButtonModifier::Unmodified)
        } else if code == 0x01 {
            Some(ButtonModifier::Shift)
        } else if code == 0x02 {
            Some(ButtonModifier::Ctrl)
        } else if code == 0x04 {
            Some(ButtonModifier::Alt)
        } else if code == 0x08 {
            Some(ButtonModifier::Super)
        } else {
            None
        }
    }

    pub fn code(&self) -> (r: u8)
        ensures
            r == self.spec_code(),
    {
        match self {
            ButtonModifier::Unmodified => 0x00,
            ButtonModifier::Shift => 0x01,
            ButtonModifier::Ctrl => 0x02,
            ButtonModifier::Alt => 0x04,
            ButtonModifier::Super => 0x08,
        }
    }

    pub fn from_code(code: u8) -> (r: Option<Self>)
        ensures
            r == Self::spec_from_code(code),
            r matches Some(v) ==> v.spec_code() == code,
    {
        if code == 0x00 {
            Some(ButtonModifier::Unmodified)
        } else if code == 0x01 {
            Some(ButtonModifier::Shift)
        } else if code == 0x02 {
            Some(ButtonModifier::Ctrl)
        } else if code == 0x04 {
            Some(ButtonModifier::Alt)
        } else if code == 0x08 {
            Some(ButtonModifier::Super)
        } else {
            None
        }
    }

    /// Every value reads back from its byte.
    pub proof fn lemma_code_round_trip(&self)
        ensures
            Self::spec_from_code(self.spec_code()) == Some(*self),
    {
    }
}

/// One key binding: its type, a [`ButtonModifier`] bit set, and the key.
#[derive(Clone, Copy, Debug, PartialEq, Eq)]
pub struct ButtonConfig {
    pub type_: u8,
    pub modifier: u8,
    pub key: u8,
}

impl ButtonConfig {
    pub fn new(type_: u8, modifier: u8, key: u8) -> (r: Self)
        ensures
            r.type_ == type_,
            r.modifier == modifier,
            r.key == key,
    {
        Self { type_, modifier, key }
    }
}

/// The bytes of a run of bindings, three per binding.
pub open spec fn buttons_bytes(keys: Seq<ButtonConfig>) -> Seq<u8>
    decreases keys.len(),
{
    if keys.len() == 0 {
        Seq::empty()
    } else {
        buttons_bytes(keys.drop_last()) + seq![keys.last().type_, keys.last().modifier, keys.last().key]
    }
}

/// The binding whose bytes start at `at`.
pub open spec fn button_at(bytes: Seq<u8>, at: int) -> ButtonConfig {
    ButtonConfig { type_: bytes[at], modifier: bytes[at + 1], key: bytes[at + 2] }
}

/// `a` holds the bindings whose bytes start at `start`.
pub open spec fn parsed_buttons<const N: usize>(a: [ButtonConfig; N], bytes: Seq<u8>, start: int) -> bool {
    forall|k: int| 0 <= k < N ==> #[trigger] a@[k] == button_at(bytes, start + 3 * k)
}

/// Appends the bytes of a run of bindings.
pub fn push_buttons(out: &mut Vec<u8>, keys: &[ButtonConfig])
    ensures
        final(out)@ == old(out)@ + buttons_bytes(keys@),
{
    let mut i: usize = 0;
    while i < keys.len()
        invariant
            i <= keys@.len(),
            out@ == old(out)@ + buttons_bytes(keys@.subrange(0, i as int)),
        decreases keys@.len() - i,
    {
        let b = keys[i];
        out.push(b.type_);
        out.push(b.modifier);
        out.push(b.key);
        proof {
            let next = keys@.subrange(0, i + 1);
            assert(next.drop_last() =~= keys@.subrange(0, i as int));
            assert(out@ =~= old(out)@ + buttons_bytes(next));
        }
        i += 1;
    }
    assert(keys@.subrange(0, i as int) =~= keys@);
}

/// The `N` bindings whose bytes start at `start`.
pub fn parse_buttons<const N: usize>(bytes: &[u8], start: usize) -> (r: [ButtonConfig; N])
    requires
        start + 3 * N <= bytes@.len(),
    ensures
        forall|k: int| 0 <= k < N ==> #[trigger] r@[k] == button_at(bytes@, start + 3 * k),
{
    let mut r = [ButtonConfig { type_: 0, modifier: 0, key: 0 }; N];
    let len = bytes.len();
    let mut i: usize = 0;
    while i < N
        invariant
            i <= N,
            len == bytes@.len(),
            start + 3 * N <= bytes@.len(),
            r@.len() == N,
            forall|k: int| 0 <= k < i ==> #[trigger] r@[k] == button_at(bytes@, start + 3 * k),
        decreases N - i,
    {
        let at = start + 3 * i;
        r[i] = ButtonConfig { type_: bytes[at], modifier: bytes[at + 1], key: bytes[at + 2] };
        i += 1;
    }
    r
}

/// The bytes of `keys` start with the bytes of each binding in turn.
pub proof fn lemma_buttons_bytes(keys: Seq<ButtonConfig>, k: int)
    requires
        0 <= k < keys.len(),
    ensures
        buttons_bytes(keys).len() == 3 * keys.len(),
        button_at(buttons_bytes(keys), 3 * k) == keys[k],
    decreases keys.len(),
{
    lemma_buttons_len(keys.drop_last());
    if k < keys.len() - 1 {
        lemma_buttons_bytes(keys.drop_last(), k);
    }
}

proof fn lemma_buttons_len(keys: Seq<ButtonConfig>)
    ensures
        buttons_bytes(keys).len() == 3 * keys.len(),
    decreases keys.len(),
{
    if keys.len() > 0 {
        lemma_buttons_len(keys.drop_last());
    }
}

} // verus!
