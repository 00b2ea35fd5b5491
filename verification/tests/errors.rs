use aerofoil::transport::rusteron::{poll_result, result_to_transport_error};
use aerofoil::transport::TransportError;
use aeron_rs::utils::errors::AeronError;

#[test]
fn test_success_result() {
    // Given: a positive result, the stream position
    let result = 12345i64;

    // When: converting it
    let converted = result_to_transport_error(result);

    // Then: it is the position
    assert!(converted.is_ok());
    assert_eq!(converted.unwrap(), 12345);
}

#[test]
fn test_back_pressure() {
    // Given: result code -2, back-pressure
    let result = -2i64;

    // When: converting it
    let converted = result_to_transport_error(result);

    // Then: it is a back-pressure error
    assert!(converted.is_err());
    assert!(matches!(converted.unwrap_err(), TransportError::BackPressure));
}

#[test]
fn test_not_connected() {
    // Given: result code -1, not connected
    let result = -1i64;

    // When: converting it
    let converted = result_to_transport_error(result);

    // Then: it is a connection error
    assert!(converted.is_err());
    assert!(matches!(converted.unwrap_err(), TransportError::Connection(_)));
}

#[test]
fn rusteron_codes_map_to_messages() {
    assert_eq!(result_to_transport_error(0).unwrap(), 0);
    match result_to_transport_error(-1) {
        Err(TransportError::Connection(m)) => assert_eq!(m, "Not connected"),
        other => panic!("unexpected {:?}", other),
    }
    match result_to_transport_error(-4) {
        Err(TransportError::Connection(m)) => assert_eq!(m, "Publication closed"),
        other => panic!("unexpected {:?}", other),
    }
    match result_to_transport_error(-3) {
        Err(TransportError::Backend(m)) => assert_eq!(m, "Rusteron error code: -3"),
        other => panic!("unexpected {:?}", other),
    }
    match result_to_transport_error(i64::MIN) {
        Err(TransportError::Backend(m)) => {
            assert_eq!(m, "Rusteron error code: -9223372036854775808")
        }
        other => panic!("unexpected {:?}", other),
    }
    match result_to_transport_error(-1234567) {
        Err(TransportError::Backend(m)) => assert_eq!(m, "Rusteron error code: -1234567"),
        other => panic!("unexpected {:?}", other),
    }
    assert_eq!(result_to_transport_error(i64::MAX).unwrap(), i64::MAX);
}

#[test]
fn given_back_pressured_error_when_converting_then_returns_back_pressure() {
    let err = AeronError::BackPressured;
    let result = aerofoil::transport::aeron_rs_adapter::aeron_error_to_transport_error(err);
    assert!(matches!(result, TransportError::BackPressure));
}

#[test]
fn given_not_connected_error_when_converting_then_returns_connection_error() {
    let err = AeronError::NotConnected;
    let result = aerofoil::transport::aeron_rs_adapter::aeron_error_to_transport_error(err);
    assert!(matches!(result, TransportError::Connection(_)));
}

#[test]
fn given_publication_closed_error_when_converting_then_returns_connection_error() {
    let err = AeronError::PublicationClosed;
    let result = aerofoil::transport::aeron_rs_adapter::aeron_error_to_transport_error(err);
    assert!(matches!(result, TransportError::Connection(_)));
}

#[test]
fn given_admin_action_error_when_converting_then_returns_back_pressure() {
    let err = AeronError::AdminAction;
    let result = aerofoil::transport::aeron_rs_adapter::aeron_error_to_transport_error(err);
    assert!(matches!(result, TransportError::BackPressure));
}

#[test]
fn given_success_result_when_converting_then_returns_position() {
    let result: Result<u64, AeronError> = Ok(12345u64);
    let converted = aerofoil::transport::aeron_rs_adapter::result_to_transport_error(result);
    assert!(converted.is_ok());
    assert_eq!(converted.unwrap(), 12345i64);
}

#[test]
fn aeron_rs_other_errors_map_to_messages() {
    match aerofoil::transport::aeron_rs_adapter::aeron_error_to_transport_error(AeronError::MaxPositionExceeded) {
        TransportError::Invalid(m) => assert_eq!(m, "Max position exceeded"),
        other => panic!("unexpected {:?}", other),
    }
    match aerofoil::transport::aeron_rs_adapter::aeron_error_to_transport_error(AeronError::ReentrantException) {
        TransportError::Backend(m) => assert_eq!(m, "aeron-rs error: ReentrantException"),
        other => panic!("unexpected {:?}", other),
    }
    match aerofoil::transport::aeron_rs_adapter::aeron_error_to_transport_error(AeronError::UnknownCode(7)) {
        TransportError::Backend(m) => assert_eq!(m, "aeron-rs error: UnknownCode(7)"),
        other => panic!("unexpected {:?}", other),
    }
    match aerofoil::transport::aeron_rs_adapter::aeron_error_to_transport_error(AeronError::RegistrationException(
        3,
        "bad".to_string(),
    )) {
        TransportError::Backend(m) => assert_eq!(m, "aeron-rs error: RegistrationException(3, \"bad\")"),
        other => panic!("unexpected {:?}", other),
    }
    let converted = aerofoil::transport::aeron_rs_adapter::result_to_transport_error(Err(AeronError::NotConnected));
    match converted {
        Err(TransportError::Connection(m)) => assert_eq!(m, "Not connected"),
        other => panic!("unexpected {:?}", other),
    }
}

#[test]
fn poll_result_prefers_handler_error() {
    let r = poll_result(Some(TransportError::Invalid("h".to_string())), Ok(3));
    assert!(matches!(r, Err(TransportError::Invalid(ref m)) if m == "h"));
    assert_eq!(poll_result(None, Ok(3)).unwrap(), 3);
    match poll_result(None, Err("Timeout".to_string())) {
        Err(TransportError::Backend(m)) => assert_eq!(m, "Rusteron poll error: Timeout"),
        other => panic!("unexpected {:?}", other),
    }
}
