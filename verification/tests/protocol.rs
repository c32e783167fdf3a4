use i2c_slave_gpio::bits::byte_to_bits;
use i2c_slave_gpio::{I2CSlaveOp, I2cGpioErrorKind, I2cGpioSlave, LineIo, LineMode, SimLine};

/// The values a byte transmission drives onto the wire: the first bit, then
/// each later bit that differs from its predecessor.
fn compressed_writes(b: u8) -> Vec<u8> {
    let bits = byte_to_bits(b);
    let mut out = vec![bits[0]];
    for n in 1..8 {
        if bits[n] != bits[n - 1] {
            out.push(bits[n]);
        }
    }
    out
}

fn engine(sda: SimLine, scl: SimLine) -> I2cGpioSlave<SimLine> {
    I2cGpioSlave::from_lines(sda, scl)
}

#[test]
fn read_byte_recovers_every_test_byte() {
    for b in [0x00u8, 0x01, 0x55, 0xAA, 0xFF, 0x42] {
        let sda = SimLine::new(byte_to_bits(b), 0);
        let scl = SimLine::new(vec![], 8);
        let mut slave = engine(sda, scl);
        assert_eq!(slave.read_byte().unwrap(), b);
        assert!(matches!(slave.sda.mode(), LineMode::Input));
    }
}

#[test]
fn write_byte_drives_the_bits_and_releases() {
    for b in [0x00u8, 0x01, 0x55, 0xAA, 0xFF, 0x41, 0x42] {
        let sda = SimLine::new(vec![], 0);
        let scl = SimLine::new(vec![], 7);
        let mut slave = engine(sda, scl);
        slave.write_byte(b).unwrap();
        assert_eq!(slave.sda.driven_log(), &compressed_writes(b));
        // After the eighth bit the data line is released to the master.
        assert!(matches!(slave.sda.mode(), LineMode::Input));
    }
}

#[test]
fn write_byte_zero_drives_low_once() {
    let sda = SimLine::new(vec![], 0);
    let scl = SimLine::new(vec![], 7);
    let mut slave = engine(sda, scl);
    slave.write_byte(0x00).unwrap();
    assert_eq!(slave.sda.driven_log(), &vec![0]);
    assert_eq!(slave.sda.writes_made(), 0);
}

#[test]
fn write_byte_ff_no_redundant_writes() {
    let sda = SimLine::new(vec![], 0);
    let scl = SimLine::new(vec![], 7);
    let mut slave = engine(sda, scl);
    slave.write_byte(0xFF).unwrap();
    assert_eq!(slave.sda.driven_log(), &vec![1]);
    assert_eq!(slave.sda.writes_made(), 0);
}

#[test]
fn write_byte_alternating_writes_every_slot() {
    let sda = SimLine::new(vec![], 0);
    let scl = SimLine::new(vec![], 7);
    let mut slave = engine(sda, scl);
    slave.write_byte(0x55).unwrap();
    assert_eq!(slave.sda.driven_log(), &vec![0, 1, 0, 1, 0, 1, 0, 1]);
    assert_eq!(slave.sda.writes_made(), 7);
}

#[test]
fn wait_start_ignores_edge_while_scl_low() {
    // First falling edge arrives while the clock is low: not a START.
    let sda = SimLine::new(vec![], 2);
    let scl = SimLine::new(vec![0, 1], 0);
    let mut slave = engine(sda, scl);
    slave.wait_start().unwrap();
    assert_eq!(slave.scl.samples_used(), 2);
}

#[test]
fn wait_start_fails_when_no_start_comes() {
    let sda = SimLine::new(vec![], 1);
    let scl = SimLine::new(vec![0], 0);
    let mut slave = engine(sda, scl);
    let e = slave.wait_start().unwrap_err();
    assert!(matches!(e.kind, I2cGpioErrorKind::WaitStartError));
}

#[test]
fn wait_stop_sees_stop_when_scl_high() {
    let sda = SimLine::new(vec![], 1);
    let scl = SimLine::new(vec![1], 0);
    let mut slave = engine(sda, scl);
    slave.wait_stop().unwrap();
    // The rising-edge watch is surrendered: the data line ends in input
    // mode, never driven.
    assert!(matches!(slave.sda.mode(), LineMode::Input));
    assert!(slave.sda.driven_log().is_empty());
}

#[test]
fn wait_stop_rejects_spurious_edge_while_scl_low() {
    let sda = SimLine::new(vec![], 1);
    let scl = SimLine::new(vec![0], 0);
    let mut slave = engine(sda, scl);
    let e = slave.wait_stop().unwrap_err();
    assert!(matches!(e.kind, I2cGpioErrorKind::WaitStopError));
}

#[test]
fn ack_pulls_low_for_one_cycle_then_releases() {
    let sda = SimLine::new(vec![], 0);
    let scl = SimLine::new(vec![], 2);
    let mut slave = engine(sda, scl);
    slave.ack().unwrap();
    assert_eq!(slave.sda.driven_log(), &vec![0]);
    assert!(matches!(slave.sda.mode(), LineMode::Input));
}

#[test]
fn ack_failure_still_releases_sda() {
    // The clock script delivers no edges: the wait-up-down step fails.
    let sda = SimLine::new(vec![], 0);
    let scl = SimLine::new(vec![], 0);
    let mut slave = engine(sda, scl);
    let e = slave.ack().unwrap_err();
    // The reason names the failed sub-step, and the cause is chained.
    match e.kind {
        I2cGpioErrorKind::AckError(reason) => {
            assert_eq!(reason, "wait up down cycle failed");
        }
        other => panic!("unexpected kind: {other:?}"),
    }
    assert!(e.cause.is_some());
    // Bus safety on the error path: SDA is back in input mode, not driven.
    assert!(matches!(slave.sda.mode(), LineMode::Input));
}

#[test]
fn nack_leaves_sda_alone() {
    let sda = SimLine::new(vec![], 0);
    let scl = SimLine::new(vec![], 2);
    let mut slave = engine(sda, scl);
    slave.nack().unwrap();
    assert!(slave.sda.driven_log().is_empty());
    assert!(matches!(slave.sda.mode(), LineMode::Input));
}

#[test]
fn nack_failure_reports_nack_kind() {
    let sda = SimLine::new(vec![], 0);
    let scl = SimLine::new(vec![], 1);
    let mut slave = engine(sda, scl);
    let e = slave.nack().unwrap_err();
    assert!(matches!(e.kind, I2cGpioErrorKind::NackError(_)));
}

#[test]
fn read_master_ack_samples_sda_on_clock_rise() {
    let sda = SimLine::new(vec![0], 0);
    let scl = SimLine::new(vec![], 1);
    let mut slave = engine(sda, scl);
    assert_eq!(slave.read_master_ack().unwrap(), 0);

    let sda = SimLine::new(vec![1], 0);
    let scl = SimLine::new(vec![], 1);
    let mut slave = engine(sda, scl);
    assert_eq!(slave.read_master_ack().unwrap(), 1);
}

#[test]
fn read_addr_splits_direction_and_address() {
    let sda = SimLine::new(byte_to_bits(0xA1), 0);
    let scl = SimLine::new(vec![], 8);
    let mut slave = engine(sda, scl);
    assert_eq!(slave.read_addr().unwrap(), I2CSlaveOp::Write(0x50));

    let sda = SimLine::new(byte_to_bits(0xA0), 0);
    let scl = SimLine::new(vec![], 8);
    let mut slave = engine(sda, scl);
    assert_eq!(slave.read_addr().unwrap(), I2CSlaveOp::Read(0x50));
}

#[test]
fn read_byte_errors_when_clock_stops() {
    let sda = SimLine::new(byte_to_bits(0x42), 0);
    let scl = SimLine::new(vec![], 3);
    let mut slave = engine(sda, scl);
    let e = slave.read_byte().unwrap_err();
    assert!(matches!(e.kind, I2cGpioErrorKind::ReadByteError));
}

#[test]
fn write_byte_errors_when_clock_stops() {
    let sda = SimLine::new(vec![], 0);
    let scl = SimLine::new(vec![], 2);
    let mut slave = engine(sda, scl);
    let e = slave.write_byte(0x55).unwrap_err();
    assert!(matches!(e.kind, I2cGpioErrorKind::WriteByteError(0x55)));
}

#[test]
fn read_addr_errors_when_clock_stops() {
    let sda = SimLine::new(vec![], 0);
    let scl = SimLine::new(vec![], 0);
    let mut slave = engine(sda, scl);
    let e = slave.read_addr().unwrap_err();
    assert!(matches!(e.kind, I2cGpioErrorKind::ReadAddrError));
}

#[test]
fn input_twice_acquires_once() {
    let mut line = SimLine::new(vec![], 0);
    // Leave input mode first so that going back costs one acquisition.
    line.output(0).unwrap();
    assert_eq!(line.acquisitions(), 1);
    line.input().unwrap();
    line.input().unwrap();
    assert_eq!(line.acquisitions(), 2);
}

#[test]
fn two_read_bytes_acquire_once() {
    // START, then two bytes: the second read_byte finds both lines already
    // in the right mode and re-acquires nothing.
    let mut sda_samples = byte_to_bits(0x42);
    sda_samples.extend(byte_to_bits(0x17));
    let sda = SimLine::new(sda_samples, 1);
    let scl = SimLine::new(vec![1], 16);
    let mut slave = engine(sda, scl);
    slave.wait_start().unwrap();
    let sda_acqs_after_start = slave.sda.acquisitions();
    let scl_acqs_after_start = slave.scl.acquisitions();
    assert_eq!(slave.read_byte().unwrap(), 0x42);
    assert_eq!(slave.sda.acquisitions(), sda_acqs_after_start + 1);
    assert_eq!(slave.scl.acquisitions(), scl_acqs_after_start + 1);
    assert_eq!(slave.read_byte().unwrap(), 0x17);
    // The second byte was free: one SDA-input and one SCL-rising pair total.
    assert_eq!(slave.sda.acquisitions(), sda_acqs_after_start + 1);
    assert_eq!(slave.scl.acquisitions(), scl_acqs_after_start + 1);
}

#[test]
fn master_writes_one_byte_transaction() {
    // START + address 0x50 write + byte 0x42 + STOP, seen from the slave.
    let mut sda_samples = byte_to_bits(0xA0);
    sda_samples.extend(byte_to_bits(0x42));
    let sda = SimLine::new(sda_samples, 2);
    let scl = SimLine::new(vec![1, 1], 20);
    let mut slave = engine(sda, scl);

    slave.wait_start().unwrap();
    assert_eq!(slave.read_addr().unwrap(), I2CSlaveOp::Read(0x50));
    slave.ack().unwrap();
    assert_eq!(slave.read_byte().unwrap(), 0x42);
    slave.ack().unwrap();
    slave.wait_stop().unwrap();
}

#[test]
fn master_reads_two_bytes_transaction() {
    // START + address 0x50 read + the slave sends 0x41 twice, the master
    // acknowledges once and then NACKs + STOP.
    let mut sda_samples = byte_to_bits(0xA1);
    sda_samples.push(0); // master ack: more, please
    sda_samples.push(1); // master nack: done
    let sda = SimLine::new(sda_samples, 2);
    let scl = SimLine::new(vec![1, 1], 26);
    let mut slave = engine(sda, scl);

    slave.wait_start().unwrap();
    assert_eq!(slave.read_addr().unwrap(), I2CSlaveOp::Write(0x50));
    slave.ack().unwrap();
    slave.write_byte(0x41).unwrap();
    assert_eq!(slave.read_master_ack().unwrap(), 0);
    slave.write_byte(0x41).unwrap();
    assert_eq!(slave.read_master_ack().unwrap(), 1);
    slave.wait_stop().unwrap();

    // Everything the slave put on the wire: one ack low, then each byte's
    // compressed bit changes (0x41 drives 0, 1, 0, 1).
    assert_eq!(
        slave.sda.driven_log(),
        &vec![0, 0, 1, 0, 1, 0, 1, 0, 1]
    );
}

#[test]
fn malformed_start_then_genuine_start() {
    // SDA falls while SCL is low, then a genuine START: the first edge is
    // ignored, the second succeeds.
    let sda = SimLine::new(vec![], 2);
    let scl = SimLine::new(vec![0, 1], 0);
    let mut slave = engine(sda, scl);
    slave.wait_start().unwrap();
    assert_eq!(slave.scl.samples_used(), 2);
}
