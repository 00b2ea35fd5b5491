use aerofoil::transport::{AeronPublisher, AeronSubscriber, MockPublisher, MockSubscriber, TransportError};

#[test]
fn test_mock_publisher_offer() {
    let mut publisher = MockPublisher::new();

    let pos1 = publisher.offer(b"hello").unwrap();
    let pos2 = publisher.offer(b"world").unwrap();

    assert_eq!(pos1, 0);
    assert_eq!(pos2, 5);

    let messages = publisher.published_messages();
    assert_eq!(messages.len(), 2);
    assert_eq!(messages[0], b"hello");
    assert_eq!(messages[1], b"world");
}

#[test]
fn test_mock_publisher_try_claim() {
    let mut publisher = MockPublisher::new();

    let mut claim = publisher.try_claim(10).unwrap();
    claim[0..5].copy_from_slice(b"hello");
    drop(claim);

    let messages = publisher.published_messages();
    assert_eq!(messages.len(), 1);
    assert_eq!(&messages[0][0..5], b"hello");
}

#[test]
fn test_mock_publisher_back_pressure_once() {
    let mut publisher = MockPublisher::new();
    publisher.simulate_back_pressure_once();

    let result = publisher.offer(b"test");
    assert!(matches!(result, Err(TransportError::BackPressure)));

    // The next offer succeeds.
    let result = publisher.offer(b"test");
    assert!(result.is_ok());
}

#[test]
fn test_mock_publisher_back_pressure_threshold() {
    let mut publisher = MockPublisher::new();
    publisher.set_back_pressure_threshold(2);

    publisher.offer(b"msg1").unwrap();
    publisher.offer(b"msg2").unwrap();

    // The third message is refused.
    let result = publisher.offer(b"msg3");
    assert!(matches!(result, Err(TransportError::BackPressure)));

    // Clear and try again.
    publisher.clear();
    let result = publisher.offer(b"msg3");
    assert!(result.is_ok());
}

#[test]
fn test_mock_subscriber_poll() {
    let mut subscriber = MockSubscriber::new();
    subscriber.inject_message(b"hello".to_vec());
    subscriber.inject_message(b"world".to_vec());

    let mut received = Vec::new();
    let count = subscriber
        .poll(|fragment| {
            received.push(fragment.as_ref().to_vec());
            Ok(())
        })
        .unwrap();

    assert_eq!(count, 2);
    assert_eq!(received.len(), 2);
    assert_eq!(received[0], b"hello");
    assert_eq!(received[1], b"world");
}

#[test]
fn test_mock_subscriber_handler_error() {
    let mut subscriber = MockSubscriber::new();
    subscriber.inject_message(b"msg1".to_vec());
    subscriber.inject_message(b"msg2".to_vec());

    let mut count = 0;
    let result = subscriber.poll(|_fragment| {
        count += 1;
        if count == 1 {
            Ok(())
        } else {
            Err(TransportError::Backend("test error".to_string()))
        }
    });

    assert!(result.is_err());
    assert_eq!(count, 2); // The handler was called twice.
}

#[test]
fn test_mock_subscriber_empty_poll() {
    let mut subscriber = MockSubscriber::new();

    let count = subscriber.poll(|_fragment| Ok(())).unwrap();

    assert_eq!(count, 0);
}

#[test]
fn test_mock_subscriber_fragment_metadata() {
    let mut subscriber = MockSubscriber::new();
    subscriber.set_session_id(42);
    subscriber.set_stream_id(100);
    subscriber.inject_message(b"test".to_vec());

    subscriber
        .poll(|fragment| {
            let header = fragment.header();
            assert_eq!(header.session_id, 42);
            assert_eq!(header.stream_id, 100);
            assert_eq!(header.position, 0);
            Ok(())
        })
        .unwrap();
}

#[test]
fn mock_publisher_refused_offer_publishes_nothing() {
    let mut publisher = MockPublisher::new();
    publisher.offer(b"abc").unwrap();
    publisher.simulate_back_pressure_once();
    assert!(publisher.offer(b"xyz").is_err());
    assert_eq!(publisher.published_messages().len(), 1);
    // The refused offer did not advance the position.
    assert_eq!(publisher.offer(b"de").unwrap(), 3);
    assert_eq!(publisher.offer(b"f").unwrap(), 5);
}

#[test]
fn mock_publisher_clear_keeps_position() {
    let mut publisher = MockPublisher::new();
    publisher.offer(b"1234").unwrap();
    publisher.clear();
    assert_eq!(publisher.published_messages().len(), 0);
    assert_eq!(publisher.offer(b"x").unwrap(), 4);
}

#[test]
fn mock_publisher_threshold_removed_allows_offers() {
    let mut publisher = MockPublisher::new();
    publisher.set_back_pressure_threshold(0);
    assert!(matches!(publisher.offer(b"a"), Err(TransportError::BackPressure)));
    assert!(matches!(publisher.try_claim(3), Err(TransportError::BackPressure)));
    publisher.clear_back_pressure_threshold();
    assert_eq!(publisher.offer(b"a").unwrap(), 0);
}

#[test]
fn mock_publisher_claim_position_and_zero_fill() {
    let mut publisher = MockPublisher::new();
    publisher.offer(b"xy").unwrap();
    {
        let claim = publisher.try_claim(3).unwrap();
        assert_eq!(claim.position(), 2);
        assert_eq!(claim.len(), 3);
        assert!(!claim.is_empty());
        assert_eq!(&claim[..], &[0u8, 0, 0]);
    }
    assert_eq!(publisher.offer(b"z").unwrap(), 5);
}

#[test]
fn mock_subscriber_positions_accumulate() {
    let mut subscriber = MockSubscriber::new();
    subscriber.inject_messages(vec![b"ab".to_vec(), b"cde".to_vec(), b"f".to_vec()]);
    assert_eq!(subscriber.pending_message_count(), 3);
    let mut positions = Vec::new();
    let count = subscriber
        .poll(|fragment| {
            positions.push(fragment.position());
            Ok(())
        })
        .unwrap();
    assert_eq!(count, 3);
    assert_eq!(positions, vec![0, 2, 5]);
    assert_eq!(subscriber.pending_message_count(), 0);
    subscriber.inject_message(b"g".to_vec());
    subscriber
        .poll(|fragment| {
            assert_eq!(fragment.position(), 6);
            Ok(())
        })
        .unwrap();
}

#[test]
fn mock_subscriber_error_consumes_failing_message_only() {
    let mut subscriber = MockSubscriber::new();
    subscriber.inject_messages(vec![b"1".to_vec(), b"2".to_vec(), b"3".to_vec()]);
    let result = subscriber.poll(|fragment| {
        if fragment.as_ref() == b"2" {
            Err(TransportError::Invalid("stop".to_string()))
        } else {
            Ok(())
        }
    });
    assert!(matches!(result, Err(TransportError::Invalid(ref m)) if m == "stop"));
    assert_eq!(subscriber.pending_message_count(), 1);
    let mut rest = Vec::new();
    subscriber
        .poll(|fragment| {
            rest.push(fragment.as_ref().to_vec());
            Ok(())
        })
        .unwrap();
    assert_eq!(rest, vec![b"3".to_vec()]);
}

#[test]
fn mock_subscriber_clear_drops_pending() {
    let mut subscriber = MockSubscriber::new();
    subscriber.inject_message(b"a".to_vec());
    subscriber.clear();
    assert_eq!(subscriber.pending_message_count(), 0);
    assert_eq!(subscriber.poll(|_f| Ok(())).unwrap(), 0);
}

#[test]
fn mock_subscriber_default_ids() {
    let mut subscriber = MockSubscriber::new();
    subscriber.inject_message(b"a".to_vec());
    subscriber
        .poll(|fragment| {
            assert_eq!(fragment.header().session_id, 1);
            assert_eq!(fragment.header().stream_id, 1);
            assert_eq!(fragment.len(), 1);
            assert!(!fragment.is_empty());
            Ok(())
        })
        .unwrap();
}

#[test]
fn mock_publisher_history_is_the_accepted_offers() {
    let mut publisher = MockPublisher::new();
    publisher.set_back_pressure_threshold(2);
    publisher.offer(b"a").unwrap();
    publisher.simulate_back_pressure_once();
    assert!(matches!(publisher.offer(b"b"), Err(TransportError::BackPressure)));
    publisher.offer(b"c").unwrap();
    assert!(matches!(publisher.offer(b"d"), Err(TransportError::BackPressure)));
    let messages = publisher.published_messages();
    assert_eq!(messages.len(), 2);
    assert_eq!(messages[0], b"a");
    assert_eq!(messages[1], b"c");
}
