use i2c_slave_gpio::bits::{bit_at, bits_to_byte, byte_to_bits, decode_addr_byte};
use i2c_slave_gpio::{AckError, I2CSlaveOp};

#[test]
fn byte_to_bits_msb_first() {
    assert_eq!(byte_to_bits(0xA1), vec![1, 0, 1, 0, 0, 0, 0, 1]);
    assert_eq!(byte_to_bits(0x00), vec![0, 0, 0, 0, 0, 0, 0, 0]);
    assert_eq!(byte_to_bits(0xFF), vec![1, 1, 1, 1, 1, 1, 1, 1]);
    assert_eq!(byte_to_bits(0x42), vec![0, 1, 0, 0, 0, 0, 1, 0]);
}

#[test]
fn bits_to_byte_msb_first() {
    assert_eq!(bits_to_byte(&vec![0, 1, 0, 0, 0, 0, 1, 0]), 0x42);
    assert_eq!(bits_to_byte(&vec![1, 0, 1, 0, 0, 0, 0, 0]), 0xA0);
    assert_eq!(bits_to_byte(&vec![0, 0, 0, 0, 0, 0, 0, 0]), 0x00);
    assert_eq!(bits_to_byte(&vec![1, 1, 1, 1, 1, 1, 1, 1]), 0xFF);
}

#[test]
fn bit_at_picks_single_bits() {
    assert_eq!(bit_at(0x80, 0), 1);
    assert_eq!(bit_at(0x80, 7), 0);
    assert_eq!(bit_at(0x01, 7), 1);
    assert_eq!(bit_at(0x01, 0), 0);
}

#[test]
fn byte_round_trip_through_bits() {
    for b in [0x00u8, 0x01, 0x55, 0xAA, 0xFF, 0x42, 0xA1] {
        assert_eq!(bits_to_byte(&byte_to_bits(b)), b);
    }
}

#[test]
fn decode_addr_direction_bit() {
    // Address 0x50 with direction 1: the master writes, the slave reads.
    assert_eq!(decode_addr_byte(0xA1), I2CSlaveOp::Write(0x50));
    // Address 0x50 with direction 0: the master reads from the slave.
    assert_eq!(decode_addr_byte(0xA0), I2CSlaveOp::Read(0x50));
    assert_eq!(decode_addr_byte(0x01), I2CSlaveOp::Write(0x00));
    assert_eq!(decode_addr_byte(0xFE), I2CSlaveOp::Read(0x7F));
}

#[test]
fn decode_addr_every_seven_bit_address() {
    for a in 0u8..0x80 {
        assert_eq!(decode_addr_byte((a << 1) | 1), I2CSlaveOp::Write(a));
        assert_eq!(decode_addr_byte(a << 1), I2CSlaveOp::Read(a));
    }
}

#[test]
fn ack_error_describes_itself() {
    assert_eq!(AckError::Ack.describe(), "ack failed");
    assert_eq!(AckError::Nack.describe(), "nack failed");
}
