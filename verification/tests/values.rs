//! The wrapping arithmetic helpers behave like the 8-bit and 16-bit
//! register and address paths.

use ull65::access::{AccessType, Phase};
use ull65::arith::{hi_byte, lo_byte, make_word, test_bit, wadd16, wadd8, wsub8};
use ull65::flags::{Flag, Flags};

#[test]
fn wrapping_add_wraps() {
    let result = wadd8(0xFF, 1);
    assert_eq!(result, 0x00);
}

#[test]
fn wrapping_sub_wraps() {
    let result = wsub8(0x00, 1);
    assert_eq!(result, 0xFF);
}

#[test]
fn overflowing_sub_reports_borrow() {
    let raw = wsub8(0x10, 0x20);
    assert_eq!(raw, 0xF0);
    assert!(0x10u8 < 0x20u8);
}

#[test]
fn wrapping_add_with_u16() {
    let result = wadd16(0xFFFE, 0x0005);
    assert_eq!(result, 0x0003);
}

#[test]
fn wrapping_add_with_negative_literal() {
    // Adding -400 is the same as adding its 16-bit complement.
    let result = wadd16(10, 0xFE70);
    assert_eq!(result, 65146);
}

#[test]
fn wrapping_sub_with_u16() {
    let result = wadd16(0x0003, 0xFFFC);
    assert_eq!(result, 0xFFFF);
}

#[test]
fn bitwise_helpers_cover_newtypes() {
    let mut word: u16 = 0x0F0F;
    word &= 0x00FF;
    assert_eq!(word, 0x000F);

    word |= 0xF0;
    assert_eq!(word, 0x00FF);

    word ^= 0x0FF0;
    assert_eq!(word, 0x0F0F);

    assert_eq!(!word, 0xF0F0);
    assert_eq!(lo_byte(word), 0x0F);
    assert_eq!(hi_byte(word), 0x0F);
    assert_eq!(make_word(0x0F, 0x0F), 0x0F0F);
}

#[test]
fn add_wraps_to_low_four_bits() {
    // Nibble arithmetic is four-bit: sums wrap within the low nibble.
    assert_eq!((0x0D + 0x05) % 16, 0x02);
}

#[test]
fn sub_wraps_to_low_four_bits() {
    assert_eq!((0x01 + 16 - 0x03) % 16, 0x0E);
}

#[test]
fn access_types_classify_and_phase() {
    assert!(AccessType::DataWrite.is_write());
    assert!(AccessType::StackWrite.is_write());
    assert!(AccessType::DmaWrite.is_write());
    assert!(!AccessType::OpcodeFetch.is_write());
    assert!(!AccessType::InterruptVectorRead.is_write());
    assert_eq!(AccessType::DataWrite.phase(), Phase::Write);
    assert_eq!(AccessType::DummyRead.phase(), Phase::Read);
    assert_eq!(AccessType::default(), AccessType::DataRead);
}

#[test]
fn status_byte_round_trips() {
    let mut p = Flags::power_on();
    p.carry = true;
    p.sign = true;
    let packed = p.bits();
    assert_eq!(packed, 0xA5);
    assert_eq!(Flags::from_bits(packed), p);
    assert_eq!(Flags::from_bits(0x5A).bits(), 0x5A);
    assert_eq!(p.bit(Flag::Carry), 1);
    assert_eq!(p.bit(Flag::Break), 0);
}

#[test]
fn bit_probe_selects_each_weight() {
    for n in 0u8..8 {
        let v = 1u8 << n;
        assert!(test_bit(v, n));
        assert!(!test_bit(!v, n));
    }
}
