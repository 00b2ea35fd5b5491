use aerofoil::transport::{
    AeronPublisher, AeronStatus, AeronSubscriber, ClaimBuffer, FragmentBuffer, FragmentHeader,
    TransportError,
};
use aerofoil::transport::media_driver::{choose_media_driver, needs_which_probe};
use std::collections::VecDeque;

struct MockPublisher;

impl AeronPublisher for MockPublisher {
    fn offer(&mut self, _buffer: &[u8]) -> Result<i64, TransportError> {
        Ok(0)
    }

    fn try_claim<'a>(&'a mut self, _length: usize) -> Result<ClaimBuffer<'a>, TransportError> {
        Err(TransportError::Invalid("mock".to_string()))
    }
}

struct MockSubscriber;

impl AeronSubscriber for MockSubscriber {
    fn poll<F>(&mut self, _handler: F) -> Result<usize, TransportError>
    where
        F: FnMut(&FragmentBuffer) -> Result<(), TransportError>,
    {
        Ok(0)
    }
}

struct ConnectedSubscriber;

impl AeronSubscriber for ConnectedSubscriber {
    fn poll<F>(&mut self, _handler: F) -> Result<usize, TransportError>
    where
        F: FnMut(&FragmentBuffer) -> Result<(), TransportError>,
    {
        Ok(0)
    }

    fn is_connected(&self) -> bool {
        true
    }
}

#[test]
fn given_aeron_status_when_default_then_disconnected() {
    let status = AeronStatus::default();
    assert_eq!(status, AeronStatus::Disconnected);
}

#[test]
fn given_aeron_status_when_clone_then_equal() {
    let status = AeronStatus::Connected;
    let cloned = status.clone();
    assert_eq!(status, cloned);
}

#[test]
fn given_publisher_when_is_connected_default_then_returns_false() {
    let publisher = MockPublisher;
    assert!(!publisher.is_connected());
}

#[test]
fn given_subscriber_when_is_connected_default_then_returns_false() {
    let subscriber = MockSubscriber;
    assert!(!subscriber.is_connected());
}

#[test]
fn given_subscriber_when_is_connected_overridden_then_returns_true() {
    let subscriber = ConnectedSubscriber;
    assert!(subscriber.is_connected());
}

#[test]
fn default_is_closed_is_false() {
    assert!(!MockPublisher.is_closed());
    assert!(!MockSubscriber.is_closed());
}

/// Simple test publisher.
struct TestPublisher {
    messages: Vec<Vec<u8>>,
    next_position: i64,
}

impl TestPublisher {
    fn new() -> Self {
        Self {
            messages: Vec::new(),
            next_position: 0,
        }
    }

    fn messages(&self) -> &[Vec<u8>] {
        &self.messages
    }
}

impl AeronPublisher for TestPublisher {
    fn offer(&mut self, buffer: &[u8]) -> Result<i64, TransportError> {
        let pos = self.next_position;
        self.next_position += buffer.len() as i64;
        self.messages.push(buffer.to_vec());
        Ok(pos)
    }

    fn try_claim<'a>(&'a mut self, length: usize) -> Result<ClaimBuffer<'a>, TransportError> {
        let pos = self.next_position;
        self.next_position += length as i64;
        self.messages.push(vec![0u8; length]);
        let buf = self.messages.last_mut().unwrap();
        Ok(ClaimBuffer::new(buf, pos))
    }
}

/// Simple test subscriber.
struct TestSubscriber {
    messages: VecDeque<Vec<u8>>,
    next_position: i64,
}

impl TestSubscriber {
    fn new() -> Self {
        Self {
            messages: VecDeque::new(),
            next_position: 0,
        }
    }

    fn inject(&mut self, data: Vec<u8>) {
        self.messages.push_back(data);
    }
}

impl AeronSubscriber for TestSubscriber {
    fn poll<F>(&mut self, mut handler: F) -> Result<usize, TransportError>
    where
        F: FnMut(&FragmentBuffer) -> Result<(), TransportError>,
    {
        let mut count = 0;
        while let Some(msg) = self.messages.pop_front() {
            let pos = self.next_position;
            self.next_position += msg.len() as i64;

            let header = FragmentHeader {
                position: pos,
                session_id: 1,
                stream_id: 1,
            };
            let fragment = FragmentBuffer::new(&msg, header);
            handler(&fragment)?;
            count += 1;
        }
        Ok(count)
    }
}

#[test]
fn test_publisher_offer() {
    let mut publisher = TestPublisher::new();
    let pos = publisher.offer(b"hello").unwrap();
    assert_eq!(pos, 0);
    assert_eq!(publisher.messages()[0], b"hello");
}

#[test]
fn test_publisher_try_claim() {
    let mut publisher = TestPublisher::new();
    let mut claim = publisher.try_claim(10).unwrap();
    claim[0..4].copy_from_slice(b"test");
    drop(claim);
    assert_eq!(&publisher.messages()[0][0..4], b"test");
}

#[test]
fn test_subscriber_poll() {
    let mut subscriber = TestSubscriber::new();
    subscriber.inject(b"msg1".to_vec());
    subscriber.inject(b"msg2".to_vec());

    let mut received = Vec::new();
    let count = subscriber
        .poll(|frag| {
            received.push(frag.as_ref().to_vec());
            Ok(())
        })
        .unwrap();

    assert_eq!(count, 2);
    assert_eq!(received[0], b"msg1");
    assert_eq!(received[1], b"msg2");
}

fn send_heartbeat<P: AeronPublisher>(publisher: &mut P) -> Result<i64, TransportError> {
    publisher.offer(b"HEARTBEAT")
}

#[test]
fn test_generic_function() {
    let mut publisher = TestPublisher::new();
    let pos = send_heartbeat(&mut publisher).unwrap();
    assert_eq!(pos, 0);
    assert_eq!(publisher.messages()[0], b"HEARTBEAT");
}

struct ErrorPublisher;

impl AeronPublisher for ErrorPublisher {
    fn offer(&mut self, _buffer: &[u8]) -> Result<i64, TransportError> {
        Err(TransportError::BackPressure)
    }

    fn try_claim<'a>(&'a mut self, _length: usize) -> Result<ClaimBuffer<'a>, TransportError> {
        Err(TransportError::Connection("Not connected".to_string()))
    }
}

#[test]
fn test_error_propagation() {
    let mut publisher = ErrorPublisher;
    assert!(matches!(publisher.offer(b"test"), Err(TransportError::BackPressure)));
    assert!(matches!(publisher.try_claim(10), Err(TransportError::Connection(_))));
}

#[test]
fn fragment_buffer_accessors() {
    let data = [1u8, 2, 3];
    let header = FragmentHeader {
        position: 77,
        session_id: 3,
        stream_id: 4,
    };
    let fragment = FragmentBuffer::new(&data, header);
    assert_eq!(fragment.len(), 3);
    assert!(!fragment.is_empty());
    assert_eq!(fragment.position(), 77);
    assert_eq!(fragment.header().session_id, 3);
    assert_eq!(fragment.header().stream_id, 4);
    assert_eq!(&fragment[..], &data[..]);
    let empty = FragmentBuffer::new(&[], header);
    assert!(empty.is_empty());
}

#[test]
fn claim_buffer_writes_through() {
    let mut backing = vec![0u8; 4];
    {
        let mut claim = ClaimBuffer::new(&mut backing, -9);
        assert_eq!(claim.position(), -9);
        assert_eq!(claim.len(), 4);
        claim[1] = 7;
    }
    assert_eq!(backing, vec![0, 7, 0, 0]);
    let mut none: [u8; 0] = [];
    assert!(ClaimBuffer::new(&mut none, 0).is_empty());
}

#[test]
fn transport_error_text() {
    assert_eq!(TransportError::BackPressure.to_string(), "Back-pressure: buffer full");
    assert_eq!(
        TransportError::Connection("Not connected".to_string()).to_string(),
        "Connection error: Not connected"
    );
    assert_eq!(
        TransportError::Backend("x".to_string()).to_string(),
        "Backend error: x"
    );
    assert_eq!(
        TransportError::Invalid("y".to_string()).to_string(),
        "Invalid operation: y"
    );
}

#[test]
fn media_driver_search_order() {
    let env = Some("/x/aeronmd".to_string());
    let which = Some("/y/aeronmd".to_string());
    assert_eq!(
        choose_media_driver(env.clone(), true, which.clone(), true, true).unwrap(),
        "/x/aeronmd"
    );
    assert_eq!(
        choose_media_driver(env.clone(), false, which.clone(), true, true).unwrap(),
        "/y/aeronmd"
    );
    assert_eq!(
        choose_media_driver(None, false, Some(String::new()), true, true).unwrap(),
        "/usr/local/bin/aeronmd"
    );
    assert_eq!(
        choose_media_driver(None, false, None, false, true).unwrap(),
        "/opt/homebrew/bin/aeronmd"
    );
    assert_eq!(
        choose_media_driver(None, false, None, false, false).unwrap_err(),
        "Media driver not found. Please install Aeron or set AERON_MEDIA_DRIVER_PATH"
    );
}

#[test]
fn which_is_asked_only_without_a_usable_environment_path() {
    let env = Some("/x/aeronmd".to_string());
    assert!(!needs_which_probe(&env, true));
    assert!(needs_which_probe(&env, false));
    assert!(needs_which_probe(&None, false));
    assert_eq!(
        choose_media_driver(env.clone(), true, None, false, false).unwrap(),
        choose_media_driver(env, true, Some("/y/aeronmd".to_string()), true, true).unwrap()
    );
}
