use aerofoil::transport::discovery::{
    aeron_pub_named, aeron_sub_discover, lookup_pub, lookup_sub, register_pub, register_sub,
    Discovery, DiscoveryError,
};
use aerofoil::transport::{AeronPublisher, AeronSubscriber, ClaimBuffer, FragmentBuffer, TransportError};

struct MockPublisher;

impl AeronPublisher for MockPublisher {
    fn offer(&mut self, _buffer: &[u8]) -> Result<i64, TransportError> {
        Ok(0)
    }

    fn try_claim<'a>(&'a mut self, _length: usize) -> Result<ClaimBuffer<'a>, TransportError> {
        Err(TransportError::Invalid("mock".to_string()))
    }
}

struct MockSubscriber;

impl AeronSubscriber for MockSubscriber {
    fn poll<F>(&mut self, _handler: F) -> Result<usize, TransportError>
    where
        F: FnMut(&FragmentBuffer) -> Result<(), TransportError>,
    {
        Ok(0)
    }
}

#[test]
fn given_registered_pub_when_aeron_pub_named_then_returns_publisher() {
    let mut discovery = Discovery::new();
    register_pub(&mut discovery, "test_pub_round_trip", "aeron:ipc".to_string(), 42).unwrap();
    let result = aeron_pub_named(&discovery, "test_pub_round_trip", MockPublisher);
    assert!(result.is_ok());
    assert_eq!(
        lookup_pub(&discovery, "test_pub_round_trip"),
        Some(("aeron:ipc".to_string(), 42))
    );
}

#[test]
fn given_unregistered_name_when_aeron_pub_named_then_returns_unknown() {
    let discovery = Discovery::new();
    let result = aeron_pub_named(&discovery, "test_pub_unregistered_xyz", MockPublisher);
    assert_eq!(
        result.err(),
        Some(DiscoveryError::Unknown("test_pub_unregistered_xyz".to_string()))
    );
}

#[test]
fn given_registered_sub_when_aeron_sub_discover_then_returns_subscriber() {
    let mut discovery = Discovery::new();
    register_sub(
        &mut discovery,
        "test_sub_round_trip",
        "aeron:udp?endpoint=127.0.0.1:40000".to_string(),
        7,
    )
    .unwrap();
    let result = aeron_sub_discover(&discovery, "test_sub_round_trip", MockSubscriber);
    assert!(result.is_ok());
    assert_eq!(
        lookup_sub(&discovery, "test_sub_round_trip"),
        Some(("aeron:udp?endpoint=127.0.0.1:40000".to_string(), 7))
    );
}

#[test]
fn given_unregistered_name_when_aeron_sub_discover_then_returns_unknown() {
    let discovery = Discovery::new();
    let result = aeron_sub_discover(&discovery, "test_sub_unregistered_xyz", MockSubscriber);
    assert_eq!(
        result.err(),
        Some(DiscoveryError::Unknown("test_sub_unregistered_xyz".to_string()))
    );
}

#[test]
fn given_registered_pub_when_re_registered_then_overwrites() {
    let mut discovery = Discovery::new();
    register_pub(&mut discovery, "test_pub_overwrite", "aeron:ipc".to_string(), 1).unwrap();
    register_pub(
        &mut discovery,
        "test_pub_overwrite",
        "aeron:udp?endpoint=127.0.0.1:1".to_string(),
        2,
    )
    .unwrap();
    assert_eq!(
        lookup_pub(&discovery, "test_pub_overwrite"),
        Some(("aeron:udp?endpoint=127.0.0.1:1".to_string(), 2))
    );
}

#[test]
fn given_registered_sub_when_re_registered_then_overwrites() {
    let mut discovery = Discovery::new();
    register_sub(&mut discovery, "test_sub_overwrite", "aeron:ipc".to_string(), 1).unwrap();
    register_sub(
        &mut discovery,
        "test_sub_overwrite",
        "aeron:udp?endpoint=127.0.0.1:2".to_string(),
        9,
    )
    .unwrap();
    assert_eq!(
        lookup_sub(&discovery, "test_sub_overwrite"),
        Some(("aeron:udp?endpoint=127.0.0.1:2".to_string(), 9))
    );
}

#[test]
fn given_empty_name_when_register_pub_then_returns_empty_name_error() {
    let mut discovery = Discovery::new();
    let err = register_pub(&mut discovery, "", "aeron:ipc".to_string(), 1).unwrap_err();
    assert_eq!(err, DiscoveryError::EmptyName);
}

#[test]
fn given_empty_name_when_register_sub_then_returns_empty_name_error() {
    let mut discovery = Discovery::new();
    let err = register_sub(&mut discovery, "", "aeron:ipc".to_string(), 1).unwrap_err();
    assert_eq!(err, DiscoveryError::EmptyName);
}

#[test]
fn given_discovery_error_when_display_then_includes_name() {
    let err = DiscoveryError::Unknown("foo".to_string());
    assert_eq!(err.to_string(), "unknown discovery name: foo");
}

#[test]
fn given_empty_name_error_when_display_then_describes_issue() {
    let err = DiscoveryError::EmptyName;
    assert_eq!(err.to_string(), "discovery name must not be empty");
}

#[test]
fn discovery_pub_and_sub_names_are_independent() {
    let mut discovery = Discovery::new();
    register_pub(&mut discovery, "shared", "aeron:ipc".to_string(), 1).unwrap();
    assert_eq!(lookup_sub(&discovery, "shared"), None);
    register_sub(&mut discovery, "shared", "aeron:udp?endpoint=h:2".to_string(), 2).unwrap();
    assert_eq!(lookup_pub(&discovery, "shared"), Some(("aeron:ipc".to_string(), 1)));
    assert_eq!(
        lookup_sub(&discovery, "shared"),
        Some(("aeron:udp?endpoint=h:2".to_string(), 2))
    );
}

#[test]
fn discovery_register_leaves_other_names() {
    let mut discovery = Discovery::new();
    register_pub(&mut discovery, "a", "aeron:ipc".to_string(), 1).unwrap();
    register_pub(&mut discovery, "b", "aeron:ipc".to_string(), 2).unwrap();
    register_pub(&mut discovery, "a", "aeron:ipc".to_string(), 3).unwrap();
    assert_eq!(lookup_pub(&discovery, "b"), Some(("aeron:ipc".to_string(), 2)));
    assert_eq!(lookup_pub(&discovery, "a"), Some(("aeron:ipc".to_string(), 3)));
    assert_eq!(lookup_pub(&discovery, "c"), None);
}

#[test]
fn discovery_empty_name_is_not_registered() {
    let mut discovery = Discovery::new();
    assert!(register_pub(&mut discovery, "", "aeron:ipc".to_string(), 1).is_err());
    assert_eq!(lookup_pub(&discovery, ""), None);
}
