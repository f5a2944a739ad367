use chlorosis_core::Address;
use chlorosis_core::Byte;
use chlorosis_core::SignedByte;

#[test]
fn test_write_bit() {
    let mut b = Byte(0b00101010);
    b.write_bit(2, true);
    assert_eq!(b, Byte(0b00101110));
    b.write_bit(5, false);
    assert_eq!(b, Byte(0b00001110));
}

#[test]
fn execute_test_is_bit_set() {
    let b = Byte(0x9F);
    assert!(b.is_bit_set(7));
    assert!(!b.is_bit_set(6));
    assert!(b.is_bit_set(0));
}

#[test]
fn types_test_split_addr() {
    let a = Address(0x1234);
    let (h, l) = a.split();

    assert_eq!(h, Byte(0x12));
    assert_eq!(l, Byte(0x34))
}

#[test]
fn address_test_split_addr() {
    let a = Address(0x1234);
    let (h, l) = a.split();

    assert_eq!(h, Byte(0x12));
    assert_eq!(l, Byte(0x34))
}

#[test]
fn set_bit_keeps_the_other_bits() {
    let mut b = Byte(0b0100_0001);
    b.set_bit(3);
    assert_eq!(b, Byte(0b0100_1001));
    b.set_bit(3);
    assert_eq!(b, Byte(0b0100_1001));
    b.set_bit(7);
    assert_eq!(b, Byte(0b1100_1001));
}

#[test]
fn write_bit_on_every_position() {
    for n in 0..8u8 {
        let mut b = Byte(0x00);
        b.write_bit(n, true);
        assert_eq!(b, Byte(1 << n));
        assert!(b.is_bit_set(n));
        b.write_bit(n, false);
        assert_eq!(b, Byte(0));
        let mut f = Byte(0xFF);
        f.write_bit(n, false);
        assert_eq!(f, Byte(0xFF & !(1 << n)));
    }
}

#[test]
fn to_signed_is_twos_complement() {
    assert_eq!(Byte(0x00).to_signed(), SignedByte(0));
    assert_eq!(Byte(0x7F).to_signed(), SignedByte(127));
    assert_eq!(Byte(0x80).to_signed(), SignedByte(-128));
    assert_eq!(Byte(0xFE).to_signed(), SignedByte(-2));
    assert_eq!(Byte(0xFF).to_signed(), SignedByte(-1));
}

#[test]
fn to_unsigned_undoes_to_signed() {
    for v in 0..=255u8 {
        assert_eq!(Byte(v).to_signed().to_unsigned(), Byte(v));
    }
}

#[test]
fn to_address_widens() {
    assert_eq!(Byte(0x00).to_address(), Address(0x0000));
    assert_eq!(Byte(0xAB).to_address(), Address(0x00AB));
}

#[test]
fn from_pair_joins_high_and_low() {
    assert_eq!(Address::from_pair(Byte(0x12), Byte(0x34)), Address(0x1234));
    assert_eq!(Address::from_pair(Byte(0xFF), Byte(0x00)), Address(0xFF00));
    let (h, l) = Address(0xBEEF).split();
    assert_eq!(Address::from_pair(h, l), Address(0xBEEF));
}

#[test]
fn next_and_prev_wrap() {
    assert_eq!(Address(0xFFFF).next(), Address(0x0000));
    assert_eq!(Address(0x0000).prev(), Address(0xFFFF));
    assert_eq!(Address(0x00FF).next(), Address(0x0100));
}

#[test]
fn displaced_adds_a_signed_offset() {
    assert_eq!(Address(0x0202).displaced(SignedByte(-2)), Address(0x0200));
    assert_eq!(Address(0x0000).displaced(SignedByte(-1)), Address(0xFFFF));
    assert_eq!(Address(0xFFFF).displaced(SignedByte(2)), Address(0x0001));
    assert_eq!(Address(0x1000).displaced(SignedByte(127)), Address(0x107F));
    assert_eq!(Address(0x1000).displaced(SignedByte(-128)), Address(0x0F80));
}
