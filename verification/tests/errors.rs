use i2c_slave_gpio::{
    I2cGpioError, I2cGpioErrorKind, I2cGpioSlave, LineErrorInfo, SimLine,
};

#[test]
fn error_constructors_carry_their_kind() {
    assert!(matches!(
        I2cGpioError::wait_start_error().kind,
        I2cGpioErrorKind::WaitStartError
    ));
    assert!(matches!(
        I2cGpioError::wait_stop_error().kind,
        I2cGpioErrorKind::WaitStopError
    ));
    assert!(matches!(
        I2cGpioError::read_byte_error().kind,
        I2cGpioErrorKind::ReadByteError
    ));
    assert!(matches!(
        I2cGpioError::read_addr_error().kind,
        I2cGpioErrorKind::ReadAddrError
    ));
    assert!(matches!(
        I2cGpioError::write_byte_error(0x42).kind,
        I2cGpioErrorKind::WriteByteError(0x42)
    ));
    assert!(matches!(
        I2cGpioError::wait_next_edge_error("rising".to_string()).kind,
        I2cGpioErrorKind::WaitNextEdge(_)
    ));
    assert!(matches!(
        I2cGpioError::ack_error("wait up down cycle failed".to_string()).kind,
        I2cGpioErrorKind::AckError(_)
    ));
    assert!(matches!(
        I2cGpioError::nack_error("wait up down cycle failed".to_string()).kind,
        I2cGpioErrorKind::NackError(_)
    ));
    assert!(matches!(
        I2cGpioError::line_info_error(LineErrorInfo::new("scl", 5)).kind,
        I2cGpioErrorKind::LineInfoError(_)
    ));
}

#[test]
fn line_error_info_names_the_line() {
    let info = LineErrorInfo::new("sda", 4);
    assert_eq!(info.name, "sda");
    assert_eq!(info.offset, 4);
    let e = I2cGpioError::line_request_error(info, "input".to_string());
    match e.kind {
        I2cGpioErrorKind::LineRequestError(info, hint) => {
            assert_eq!(info.name, "sda");
            assert_eq!(info.offset, 4);
            assert_eq!(hint, "input");
        }
        other => panic!("unexpected kind: {other:?}"),
    }
}

#[test]
fn errors_chain_their_causes() {
    let inner = I2cGpioError::read_byte_error();
    let outer = I2cGpioError::read_addr_error().with_cause(inner);
    assert!(matches!(outer.kind, I2cGpioErrorKind::ReadAddrError));
    assert!(matches!(
        outer.cause.unwrap().kind,
        I2cGpioErrorKind::ReadByteError
    ));
}

#[test]
fn engine_errors_carry_the_line_failure_beneath() {
    // The clock never rises: the raw edge-wait failure comes straight up,
    // naming the polarity that was awaited.
    let sda = SimLine::new(vec![], 0);
    let scl = SimLine::new(vec![], 0);
    let mut slave = I2cGpioSlave::from_lines(sda, scl);
    let e = slave.read_master_ack().unwrap_err();
    match e.kind {
        I2cGpioErrorKind::WaitNextEdge(polarity) => assert_eq!(polarity, "rising"),
        other => panic!("unexpected kind: {other:?}"),
    }

    // The data line has no scripted level left to sample.
    let sda = SimLine::new(vec![], 0);
    let scl = SimLine::new(vec![], 1);
    let mut slave = I2cGpioSlave::from_lines(sda, scl);
    let e = slave.read_master_ack().unwrap_err();
    assert!(matches!(e.kind, I2cGpioErrorKind::LineRequestError(_, _)));

    // A byte reception that dies mid-way wraps the edge failure as its cause.
    let sda = SimLine::new(vec![0, 0, 0, 0, 0, 0, 0, 0], 0);
    let scl = SimLine::new(vec![], 3);
    let mut slave = I2cGpioSlave::from_lines(sda, scl);
    let e = slave.read_byte().unwrap_err();
    assert!(matches!(e.kind, I2cGpioErrorKind::ReadByteError));
    assert!(matches!(
        e.cause.unwrap().kind,
        I2cGpioErrorKind::WaitNextEdge(_)
    ));
}
