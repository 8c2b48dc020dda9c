use libroccat::bitfield::{BitArray, BitField, NibbleArray, NibbleField};

#[test]
fn bit() {
    assert_eq!(false, 0b11111110u8.get_bit(0));
    assert_eq!(false, 0b11110111u8.get_bit(3));
    assert_eq!(&mut 0b11111101u8, 0b11111111.set_bit(1, false));
    assert_eq!(&mut 0b11011111u8, 0b11111111.set_bit(5, false));
}

#[test]
fn bitfield() {
    assert_eq!(false, 0b11111111_11111101u16.get_bit(1));
    assert_eq!(false, 0b10111111_11111111u16.get_bit(14));
    assert_eq!(
        &mut 0b11111111_11110111u16,
        0b11111111_11111111.set_bit(3, false)
    );
    assert_eq!(
        &mut 0b10111111_11111111u16,
        0b11111111_11111111.set_bit(14, false)
    );
}

#[test]
fn nibble() {
    assert_eq!(0x0, 0xF0u8.get_nibble(0));
    assert_eq!(0x0, 0x0Fu8.get_nibble(1));
    assert_eq!(&mut 0xF0u8, 0xFF.set_nibble(0, 0x0));
    assert_eq!(&mut 0x0Fu8, 0xFF.set_nibble(1, 0x0));
}

#[test]
fn nibblefield() {
    assert_eq!(0x0, 0xFF0Fu16.get_nibble(1));
    assert_eq!(0x0, 0x0FFFu16.get_nibble(3));
    assert_eq!(&mut 0xFF0Fu16, 0xFFFF.set_nibble(1, 0x0));
    assert_eq!(&mut 0x0FFFu16, 0xFFFF.set_nibble(3, 0x0));
}

#[test]
fn set_bit_sets_only_that_bit() {
    let mut x = 0u64;
    x.set_bit(63, true);
    assert_eq!(x, 1u64 << 63);
    x.set_bit(0, true);
    assert_eq!(x, (1u64 << 63) | 1);
    x.set_bit(63, false);
    assert_eq!(x, 1);
    assert_eq!(u32::bit_length(), 32);
    assert_eq!(u16::nibble_length(), 4);
}

#[test]
fn bit_array_spans_elements() {
    let mut states = [0u8; 15];
    assert_eq!(states.bit_length(), 120);
    states.set_bit(9, true);
    assert_eq!(states[1], 0b10);
    assert!(states.get_bit(9));
    assert!(!states.get_bit(8));
    let slice: &mut [u16] = &mut [0u16; 2];
    slice.set_bit(17, true);
    assert_eq!(slice[1], 0b10);
    assert!(slice.get_bit(17));
}

#[test]
fn nibble_packing_round_trips() {
    let mut numbers = [0u8; 60];
    assert_eq!(numbers.nibble_length(), 120);
    for i in 0..120 {
        for v in 0..16u8 {
            numbers.set_nibble(i, v);
            assert_eq!(numbers.get_nibble(i), v);
        }
    }
    let mut numbers = [0u8; 60];
    for i in 0..120 {
        numbers.set_nibble(i, (i % 16) as u8);
    }
    for i in 0..120 {
        assert_eq!(numbers.get_nibble(i), (i % 16) as u8);
    }
    assert_eq!(numbers[0], 0x10);
}
