//! Bit- and nibble-addressed access to unsigned integers and to slices of them.
use vstd::prelude::*;

verus! {

/// An unsigned integer read and written one bit at a time; bit 0 is the least
/// significant.
pub trait BitField: Sized + Copy {
    /// The number of bits in a value.
    spec fn width() -> nat;

    /// Bit `index` of the value.
    spec fn bit(&self, index: nat) -> bool;

    fn bit_length() -> (r: usize)
        ensures
            r == Self::width(),
    ;

    fn get_bit(&self, index: usize) -> (r: bool)
        requires
            index < Self::width(),
        ensures
            r == self.bit(index as nat),
    ;

    /// Sets bit `index` to `value` and keeps every other bit.
    fn set_bit(&mut self, index: usize, value: bool) -> (r: &mut Self)
        requires
            index < Self::width(),
        ensures
            r.bit(index as nat) == value,
            forall|j: nat| j < Self::width() && j != index ==> r.bit(j) == old(self).bit(j),
            *final(self) == *final(r),
    ;
}

/// An unsigned integer read and written one nibble (four bits) at a time;
/// nibble 0 holds the four least significant bits.
pub trait NibbleField: Sized + Copy {
    /// The number of nibbles in a value.
    spec fn nibbles() -> nat;

    /// Nibble `index` of the value.
    spec fn nibble(&self, index: nat) -> u8;

    fn nibble_length() -> (r: usize)
        ensures
            r == Self::nibbles(),
    ;

    fn get_nibble(&self, index: usize) -> (r: u8)
        requires
            index < Self::nibbles(),
        ensures
            r == self.nibble(index as nat),
            r < 16,
    ;

    /// Sets nibble `index` to `value` and keeps every other nibble.
    fn set_nibble(&mut self, index: usize, value: u8) -> (r: &mut Self)
        requires
            index < Self::nibbles(),
            value <= 0xf,
        ensures
            r.nibble(index as nat) == value,
            forall|j: nat| j < Self::nibbles() && j != index ==> r.nibble(j) == old(self).nibble(j),
            *final(self) == *final(r),
    ;
}

/// A slice of [`BitField`] values read as one long run of bits: bit `i` is bit
/// `i % n` of element `i / n`, where `n` is the number of bits per element.
pub trait BitArray<T: BitField> {
    spec fn bit_count(&self) -> nat;

    spec fn bit_at(&self, index: nat) -> bool;

    fn bit_length(&self) -> (r: usize)
        requires
            self.bit_count() <= usize::MAX,
        ensures
            r == self.bit_count(),
    ;

    fn get_bit(&self, index: usize) -> (r: bool)
        requires
            index < self.bit_count(),
        ensures
            r == self.bit_at(index as nat),
    ;

    /// Sets bit `index` and keeps every other bit.
    fn set_bit(&mut self, index: usize, value: bool)
        requires
            index < old(self).bit_count(),
        ensures
            final(self).bit_count() == old(self).bit_count(),
            final(self).bit_at(index as nat) == value,
            forall|j: nat|
                j < old(self).bit_count() && j != index ==> final(self).bit_at(j) == old(self).bit_at(j),
    ;
}

impl<T: BitField> BitArray<T> for [T] {
    open spec fn bit_count(&self) -> nat {
        self@.len() * T::width()
    }

    open spec fn bit_at(&self, index: nat) -> bool {
        self@[(index / T::width()) as int].bit(index % T::width())
    }

    fn bit_length(&self) -> (r: usize) {
        self.len() * T::bit_length()
    }

    fn get_bit(&self, index: usize) -> (r: bool) {
        let n = T::bit_length();
        proof {
            lemma_split_index(index as nat, self@.len(), n as nat);
        }
        let slice_index = index / n;
        let inner = index % n;
        self[slice_index].get_bit(inner)
    }

    fn set_bit(&mut self, index: usize, value: bool) {
        let n = T::bit_length();
        proof {
            lemma_split_index(index as nat, old(self)@.len(), n as nat);
        }
        let slice_index = index / n;
        let inner = index % n;
        let mut element = self[slice_index];
        element.set_bit(inner, value);
        self[slice_index] = element;
        proof {
            assert forall|j: nat| j < old(self).bit_count() && j != index implies self.bit_at(j) == old(
                self,
            ).bit_at(j) by {
                lemma_split_index(j, old(self)@.len(), n as nat);
                if j / (n as nat) == (index as nat) / (n as nat) && j % (n as nat) == (index as nat) % (n as nat) {
                    lemma_same_split(j, index as nat, n as nat);
                }
            }
        }
    }
}

impl<T: BitField, const N: usize> BitArray<T> for [T; N] {
    open spec fn bit_count(&self) -> nat {
        self@.len() * T::width()
    }

    open spec fn bit_at(&self, index: nat) -> bool {
        self@[(index / T::width()) as int].bit(index % T::width())
    }

    fn bit_length(&self) -> (r: usize) {
        N * T::bit_length()
    }

    fn get_bit(&self, index: usize) -> (r: bool) {
        let n = T::bit_length();
        proof {
            lemma_split_index(index as nat, self@.len(), n as nat);
        }
        let slice_index = index / n;
        let inner = index % n;
        self[slice_index].get_bit(inner)
    }

    fn set_bit(&mut self, index: usize, value: bool) {
        let n = T::bit_length();
        proof {
            lemma_split_index(index as nat, old(self)@.len(), n as nat);
        }
        let slice_index = index / n;
        let inner = index % n;
        let mut element = self[slice_index];
        element.set_bit(inner, value);
        self[slice_index] = element;
        proof {
            assert forall|j: nat| j < old(self).bit_count() && j != index implies self.bit_at(j) == old(
                self,
            ).bit_at(j) by {
                lemma_split_index(j, old(self)@.len(), n as nat);
                if j / (n as nat) == (index as nat) / (n as nat) && j % (n as nat) == (index as nat) % (n as nat) {
                    lemma_same_split(j, index as nat, n as nat);
                }
            }
        }
    }
}

/// A slice of [`NibbleField`] values read as one long run of nibbles: nibble `i` is nibble
/// `i % n` of element `i / n`, where `n` is the number of nibbles per element.
pub trait NibbleArray<T: NibbleField> {
    spec fn nibble_count(&self) -> nat;

    spec fn nibble_at(&self, index: nat) -> u8;

    fn nibble_length(&self) -> (r: usize)
        requires
            self.nibble_count() <= usize::MAX,
        ensures
            r == self.nibble_count(),
    ;

    fn get_nibble(&self, index: usize) -> (r: u8)
        requires
            index < self.nibble_count(),
        ensures
            r == self.nibble_at(index as nat),
            r < 16,
    ;

    /// Sets nibble `index` and keeps every other nibble.
    fn set_nibble(&mut self, index: usize, value: u8)
        requires
            index < old(self).nibble_count(),
            value <= 0xf,
        ensures
            final(self).nibble_count() == old(self).nibble_count(),
            final(self).nibble_at(index as nat) == value,
            forall|j: nat|
                j < old(self).nibble_count() && j != index ==> final(self).nibble_at(j) == old(self).nibble_at(j),
    ;
}

impl<T: NibbleField> NibbleArray<T> for [T] {
    open spec fn nibble_count(&self) -> nat {
        self@.len() * T::nibbles()
    }

    open spec fn nibble_at(&self, index: nat) -> u8 {
        self@[(index / T::nibbles()) as int].nibble(index % T::nibbles())
    }

    fn nibble_length(&self) -> (r: usize) {
        self.len() * T::nibble_length()
    }

    fn get_nibble(&self, index: usize) -> (r: u8) {
        let n = T::nibble_length();
        proof {
            lemma_split_index(index as nat, self@.len(), n as nat);
        }
        let slice_index = index / n;
        let inner = index % n;
        self[slice_index].get_nibble(inner)
    }

    fn set_nibble(&mut self, index: usize, value: u8) {
        let n = T::nibble_length();
        proof {
            lemma_split_index(index as nat, old(self)@.len(), n as nat);
        }
        let slice_index = index / n;
        let inner = index % n;
        let mut element = self[slice_index];
        element.set_nibble(inner, value);
        self[slice_index] = element;
        proof {
            assert forall|j: nat| j < old(self).nibble_count() && j != index implies self.nibble_at(j) == old(
                self,
            ).nibble_at(j) by {
                lemma_split_index(j, old(self)@.len(), n as nat);
                if j / (n as nat) == (index as nat) / (n as nat) && j % (n as nat) == (index as nat) % (n as nat) {
                    lemma_same_split(j, index as nat, n as nat);
                }
            }
        }
    }
}

impl<T: NibbleField, const N: usize> NibbleArray<T> for [T; N] {
    open spec fn nibble_count(&self) -> nat {
        self@.len() * T::nibbles()
    }

    open spec fn nibble_at(&self, index: nat) -> u8 {
        self@[(index / T::nibbles()) as int].nibble(index % T::nibbles())
    }

    fn nibble_length(&self) -> (r: usize) {
        N * T::nibble_length()
    }

    fn get_nibble(&self, index: usize) -> (r: u8) {
        let n = T::nibble_length();
        proof {
            lemma_split_index(index as nat, self@.len(), n as nat);
        }
        let slice_index = index / n;
        let inner = index % n;
        self[slice_index].get_nibble(inner)
    }

    fn set_nibble(&mut self, index: usize, value: u8) {
        let n = T::nibble_length();
        proof {
            lemma_split_index(index as nat, old(self)@.len(), n as nat);
        }
        let slice_index = index / n;
        let inner = index % n;
        let mut element = self[slice_index];
        element.set_nibble(inner, value);
        self[slice_index] = element;
        proof {
            assert forall|j: nat| j < old(self).nibble_count() && j != index implies self.nibble_at(j) == old(
                self,
            ).nibble_at(j) by {
                lemma_split_index(j, old(self)@.len(), n as nat);
                if j / (n as nat) == (index as nat) / (n as nat) && j % (n as nat) == (index as nat) % (n as nat) {
                    lemma_same_split(j, index as nat, n as nat);
                }
            }
        }
    }
}

/// An index below `len * n` splits into an element below `len` and a position
/// below `n`.
proof fn lemma_split_index(index: nat, len: nat, n: nat)
    requires
        index < len * n,
    ensures
        n > 0,
        index / n < len,
        index % n < n,
{
    assert(n > 0) by (nonlinear_arith)
        requires
            index < len * n,
    ;
    assert(index / n < len) by (nonlinear_arith)
        requires
            index < len * n,
            n > 0,
    ;
}

/// Two indices with the same element and position are equal.
proof fn lemma_same_split(a: nat, b: nat, n: nat)
    requires
        n > 0,
        a / n == b / n,
        a % n == b % n,
    ensures
        a == b,
{
    assert(a == n * (a / n) + a % n) by (nonlinear_arith)
        requires
            n > 0,
    ;
    assert(b == n * (b / n) + b % n) by (nonlinear_arith)
        requires
            n > 0,
    ;
}

proof fn lemma_u8_bits(x: u8, i: u8, j: u8)
    by (bit_vector)
    requires
        i < 8,
        j < 8,
    ensures
        (x | (1u8 << i)) & (1u8 << i) != 0,
        (x & !(1u8 << i)) & (1u8 << i) == 0,
        i != j ==> (((x | (1u8 << i)) & (1u8 << j) != 0) == (x & (1u8 << j) != 0)),
        i != j ==> (((x & !(1u8 << i)) & (1u8 << j) != 0) == (x & (1u8 << j) != 0)),
{
}

proof fn lemma_u8_nibbles(x: u8, v: u8, i: u8, j: u8)
    by (bit_vector)
    requires
        i < 2,
        j < 2,
        v <= 0xf,
    ensures
        ((((x & (u8::MAX ^ (0xfu8 << (i * 4)))) | (v << (i * 4))) >> (i * 4)) & 0xf) == v,
        i != j ==> ((((x & (u8::MAX ^ (0xfu8 << (i * 4)))) | (v << (i * 4))) >> (j * 4)) & 0xf)
            == ((x >> (j * 4)) & 0xf),
        ((x >> (j * 4)) & 0xf) < 16,
{
}

impl BitField for u8 {
    open spec fn width() -> nat {
        8
    }

    open spec fn bit(&self, index: nat) -> bool {
        *self & (1u8 << (index as u8)) != 0
    }

    fn bit_length() -> (r: usize) {
        8
    }

    fn get_bit(&self, index: usize) -> (r: bool) {
        *self & (1u8 << (index as u8)) != 0
    }

    fn set_bit(&mut self, index: usize, value: bool) -> (r: &mut Self) {
        let ghost before = *self;
        let i = index as u8;
        if value {
            *self = *self | (1u8 << i);
        } else {
            *self = *self & !(1u8 << i);
        }
        proof {
            assert forall|j: nat| j < 8 && j != index implies self.bit(j) == before.bit(j) by {
                lemma_u8_bits(before, i, j as u8);
            }
            lemma_u8_bits(before, i, i);
        }
        self
    }
}

impl NibbleField for u8 {
    open spec fn nibbles() -> nat {
        2
    }

    open spec fn nibble(&self, index: nat) -> u8 {
        ((*self >> ((index * 4) as u8)) & 0xf) as u8
    }

    fn nibble_length() -> (r: usize) {
        2
    }

    fn get_nibble(&self, index: usize) -> (r: u8) {
        proof {
            lemma_u8_nibbles(*self, 0, 0, index as u8);
        }
        ((*self >> (index as u8 * 4)) & 0xf) as u8
    }

    fn set_nibble(&mut self, index: usize, value: u8) -> (r: &mut Self) {
        let ghost before = *self;
        let shift = index as u8 * 4;
        *self = *self & (u8::MAX ^ (0xf << shift));
        *self = *self | ((value as u8) << shift);
        proof {
            assert forall|j: nat| j < 2 && j != index implies self.nibble(j) == before.nibble(j) by {
                lemma_u8_nibbles(before, value as u8, index as u8, j as u8);
            }
            lemma_u8_nibbles(before, value as u8, index as u8, index as u8);
        }
        self
    }
}

proof fn lemma_u16_bits(x: u16, i: u16, j: u16)
    by (bit_vector)
    requires
        i < 16,
        j < 16,
    ensures
        (x | (1u16 << i)) & (1u16 << i) != 0,
        (x & !(1u16 << i)) & (1u16 << i) == 0,
        i != j ==> (((x | (1u16 << i)) & (1u16 << j) != 0) == (x & (1u16 << j) != 0)),
        i != j ==> (((x & !(1u16 << i)) & (1u16 << j) != 0) == (x & (1u16 << j) != 0)),
{
}

proof fn lemma_u16_nibbles(x: u16, v: u16, i: u16, j: u16)
    by (bit_vector)
    requires
        i < 4,
        j < 4,
        v <= 0xf,
    ensures
        ((((x & (u16::MAX ^ (0xfu16 << (i * 4)))) | (v << (i * 4))) >> (i * 4)) & 0xf) == v,
        i != j ==> ((((x & (u16::MAX ^ (0xfu16 << (i * 4)))) | (v << (i * 4))) >> (j * 4)) & 0xf)
            == ((x >> (j * 4)) & 0xf),
        ((x >> (j * 4)) & 0xf) < 16,
{
}

impl BitField for u16 {
    open spec fn width() -> nat {
        16
    }

    open spec fn bit(&self, index: nat) -> bool {
        *self & (1u16 << (index as u16)) != 0
    }

    fn bit_length() -> (r: usize) {
        16
    }

    fn get_bit(&self, index: usize) -> (r: bool) {
        *self & (1u16 << (index as u16)) != 0
    }

    fn set_bit(&mut self, index: usize, value: bool) -> (r: &mut Self) {
        let ghost before = *self;
        let i = index as u16;
        if value {
            *self = *self | (1u16 << i);
        } else {
            *self = *self & !(1u16 << i);
        }
        proof {
            assert forall|j: nat| j < 16 && j != index implies self.bit(j) == before.bit(j) by {
                lemma_u16_bits(before, i, j as u16);
            }
            lemma_u16_bits(before, i, i);
        }
        self
    }
}

impl NibbleField for u16 {
    open spec fn nibbles() -> nat {
        4
    }

    open spec fn nibble(&self, index: nat) -> u8 {
        ((*self >> ((index * 4) as u16)) & 0xf) as u8
    }

    fn nibble_length() -> (r: usize) {
        4
    }

    fn get_nibble(&self, index: usize) -> (r: u8) {
        proof {
            lemma_u16_nibbles(*self, 0, 0, index as u16);
        }
        ((*self >> (index as u16 * 4)) & 0xf) as u8
    }

    fn set_nibble(&mut self, index: usize, value: u8) -> (r: &mut Self) {
        let ghost before = *self;
        let shift = index as u16 * 4;
        *self = *self & (u16::MAX ^ (0xf << shift));
        *self = *self | ((value as u16) << shift);
        proof {
            assert forall|j: nat| j < 4 && j != index implies self.nibble(j) == before.nibble(j) by {
                lemma_u16_nibbles(before, value as u16, index as u16, j as u16);
            }
            lemma_u16_nibbles(before, value as u16, index as u16, index as u16);
        }
        self
    }
}

proof fn lemma_u32_bits(x: u32, i: u32, j: u32)
    by (bit_vector)
    requires
        i < 32,
        j < 32,
    ensures
        (x | (1u32 << i)) & (1u32 << i) != 0,
        (x & !(1u32 << i)) & (1u32 << i) == 0,
        i != j ==> (((x | (1u32 << i)) & (1u32 << j) != 0) == (x & (1u32 << j) != 0)),
        i != j ==> (((x & !(1u32 << i)) & (1u32 << j) != 0) == (x & (1u32 << j) != 0)),
{
}

proof fn lemma_u32_nibbles(x: u32, v: u32, i: u32, j: u32)
    by (bit_vector)
    requires
        i < 8,
        j < 8,
        v <= 0xf,
    ensures
        ((((x & (u32::MAX ^ (0xfu32 << (i * 4)))) | (v << (i * 4))) >> (i * 4)) & 0xf) == v,
        i != j ==> ((((x & (u32::MAX ^ (0xfu32 << (i * 4)))) | (v << (i * 4))) >> (j * 4)) & 0xf)
            == ((x >> (j * 4)) & 0xf),
        ((x >> (j * 4)) & 0xf) < 16,
{
}

impl BitField for u32 {
    open spec fn width() -> nat {
        32
    }

    open spec fn bit(&self, index: nat) -> bool {
        *self & (1u32 << (index as u32)) != 0
    }

    fn bit_length() -> (r: usize) {
        32
    }

    fn get_bit(&self, index: usize) -> (r: bool) {
        *self & (1u32 << (index as u32)) != 0
    }

    fn set_bit(&mut self, index: usize, value: bool) -> (r: &mut Self) {
        let ghost before = *self;
        let i = index as u32;
        if value {
            *self = *self | (1u32 << i);
        } else {
            *self = *self & !(1u32 << i);
        }
        proof {
            assert forall|j: nat| j < 32 && j != index implies self.bit(j) == before.bit(j) by {
                lemma_u32_bits(before, i, j as u32);
            }
            lemma_u32_bits(before, i, i);
        }
        self
    }
}

impl NibbleField for u32 {
    open spec fn nibbles() -> nat {
        8
    }

    open spec fn nibble(&self, index: nat) -> u8 {
        ((*self >> ((index * 4) as u32)) & 0xf) as u8
    }

    fn nibble_length() -> (r: usize) {
        8
    }

    fn get_nibble(&self, index: usize) -> (r: u8) {
        proof {
            lemma_u32_nibbles(*self, 0, 0, index as u32);
        }
        ((*self >> (index as u32 * 4)) & 0xf) as u8
    }

    fn set_nibble(&mut self, index: usize, value: u8) -> (r: &mut Self) {
        let ghost before = *self;
        let shift = index as u32 * 4;
        *self = *self & (u32::MAX ^ (0xf << shift));
        *self = *self | ((value as u32) << shift);
        proof {
            assert forall|j: nat| j < 8 && j != index implies self.nibble(j) == before.nibble(j) by {
                lemma_u32_nibbles(before, value as u32, index as u32, j as u32);
            }
            lemma_u32_nibbles(before, value as u32, index as u32, index as u32);
        }
        self
    }
}

proof fn lemma_u64_bits(x: u64, i: u64, j: u64)
    by (bit_vector)
    requires
        i < 64,
        j < 64,
    ensures
        (x | (1u64 << i)) & (1u64 << i) != 0,
        (x & !(1u64 << i)) & (1u64 << i) == 0,
        i != j ==> (((x | (1u64 << i)) & (1u64 << j) != 0) == (x & (1u64 << j) != 0)),
        i != j ==> (((x & !(1u64 << i)) & (1u64 << j) != 0) == (x & (1u64 << j) != 0)),
{
}

proof fn lemma_u64_nibbles(x: u64, v: u64, i: u64, j: u64)
    by (bit_vector)
    requires
        i < 16,
        j < 16,
        v <= 0xf,
    ensures
        ((((x & (u64::MAX ^ (0xfu64 << (i * 4)))) | (v << (i * 4))) >> (i * 4)) & 0xf) == v,
        i != j ==> ((((x & (u64::MAX ^ (0xfu64 << (i * 4)))) | (v << (i * 4))) >> (j * 4)) & 0xf)
            == ((x >> (j * 4)) & 0xf),
        ((x >> (j * 4)) & 0xf) < 16,
{
}

impl BitField for u64 {
    open spec fn width() -> nat {
        64
    }

    open spec fn bit(&self, index: nat) -> bool {
        *self & (1u64 << (index as u64)) != 0
    }

    fn bit_length() -> (r: usize) {
        64
    }

    fn get_bit(&self, index: usize) -> (r: bool) {
        *self & (1u64 << (index as u64)) != 0
    }

    fn set_bit(&mut self, index: usize, value: bool) -> (r: &mut Self) {
        let ghost before = *self;
        let i = index as u64;
        if value {
            *self = *self | (1u64 << i);
        } else {
            *self = *self & !(1u64 << i);
        }
        proof {
            assert forall|j: nat| j < 64 && j != index implies self.bit(j) == before.bit(j) by {
                lemma_u64_bits(before, i, j as u64);
            }
            lemma_u64_bits(before, i, i);
        }
        self
    }
}

impl NibbleField for u64 {
    open spec fn nibbles() -> nat {
        16
    }

    open spec fn nibble(&self, index: nat) -> u8 {
        ((*self >> ((index * 4) as u64)) & 0xf) as u8
    }

    fn nibble_length() -> (r: usize) {
        16
    }

    fn get_nibble(&self, index: usize) -> (r: u8) {
        proof {
            lemma_u64_nibbles(*self, 0, 0, index as u64);
        }
        ((*self >> (index as u64 * 4)) & 0xf) as u8
    }

    fn set_nibble(&mut self, index: usize, value: u8) -> (r: &mut Self) {
        let ghost before = *self;
        let shift = index as u64 * 4;
        *self = *self & (u64::MAX ^ (0xf << shift));
        *self = *self | ((value as u64) << shift);
        proof {
            assert forall|j: nat| j < 16 && j != index implies self.nibble(j) == before.nibble(j) by {
                lemma_u64_nibbles(before, value as u64, index as u64, j as u64);
            }
            lemma_u64_nibbles(before, value as u64, index as u64, index as u64);
        }
        self
    }
}

} // verus!
