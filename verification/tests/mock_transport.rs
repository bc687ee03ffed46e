use masaka::error::TransportError;
use masaka::transport::MockTransport;

#[test]
fn test_mock_transport_basic_operations() {
    let transport = MockTransport::new();

    assert!(transport.is_connected());
    assert_eq!(transport.incoming_data_len(), 0);
    assert_eq!(transport.outgoing_data_len(), 0);
}

#[test]
fn test_mock_transport_data_capture() {
    let mut transport = MockTransport::new();

    transport.add_incoming_data(b"hello");
    assert_eq!(transport.incoming_data_len(), 5);

    assert_eq!(transport.outgoing_data_len(), 0);
}

#[test]
fn test_mock_transport_connection_state() {
    let mut transport = MockTransport::new();

    assert!(transport.is_connected());

    transport.disconnect();
    assert!(!transport.is_connected());

    transport.reconnect();
    assert!(transport.is_connected());
}

#[test]
fn test_mock_transport_addresses() {
    let mut transport = MockTransport::new();

    assert!(transport.local_addr().is_none());
    assert!(transport.remote_addr().is_none());

    transport.set_local_addr("127.0.0.1:1234".to_string());
    transport.set_remote_addr("broker.example.com:1883".to_string());

    assert_eq!(transport.local_addr(), Some("127.0.0.1:1234"));
    assert_eq!(transport.remote_addr(), Some("broker.example.com:1883"));
}

#[test]
fn test_mock_transport_reset() {
    let mut transport = MockTransport::new();

    transport.add_incoming_data(b"test");
    transport.add_read_error(TransportError::Timeout);
    transport.disconnect();

    transport.reset();

    assert!(transport.is_connected());
    assert_eq!(transport.incoming_data_len(), 0);
    assert_eq!(transport.read_error_count(), 0);
}

#[test]
fn mock_read_returns_queued_bytes_in_order() {
    let mut transport = MockTransport::new();
    transport.add_incoming_data(b"abc");
    transport.add_incoming_packet(b"de");
    let mut buf = [0u8; 4];
    assert_eq!(transport.do_read(&mut buf), Ok(4));
    assert_eq!(&buf, b"abcd");
    assert_eq!(transport.incoming_data_len(), 1);
    let mut rest = [9u8; 3];
    assert_eq!(transport.do_read(&mut rest), Ok(1));
    assert_eq!(&rest, &[b'e', 9, 9]);
    assert_eq!(transport.do_read(&mut rest), Ok(0));
}

#[test]
fn mock_read_errors_come_first_then_data() {
    let mut transport = MockTransport::new();
    transport.add_incoming_data(b"x");
    transport.add_read_error(TransportError::Timeout);
    transport.add_read_error(TransportError::ConnectionRefused);
    let mut buf = [0u8; 1];
    assert_eq!(transport.do_read(&mut buf), Err(TransportError::Timeout));
    assert_eq!(transport.do_read(&mut buf), Err(TransportError::ConnectionRefused));
    assert_eq!(transport.do_read(&mut buf), Ok(1));
    assert_eq!(buf[0], b'x');
}

#[test]
fn mock_read_when_disconnected_or_slow() {
    let mut transport = MockTransport::new_disconnected();
    transport.add_incoming_data(b"x");
    let mut buf = [0u8; 1];
    assert_eq!(transport.do_read(&mut buf), Err(TransportError::ConnectionLost));
    transport.reconnect();
    transport.set_simulate_slow_read(true);
    assert_eq!(transport.do_read(&mut buf), Err(TransportError::Timeout));
    transport.set_simulate_slow_read(false);
    transport.set_simulate_connection_loss(true);
    assert_eq!(transport.do_read(&mut buf), Err(TransportError::ConnectionLost));
    assert!(!transport.is_connected());
    assert_eq!(transport.incoming_data_len(), 1);
}

#[test]
fn mock_write_captures_bytes() {
    let mut transport = MockTransport::new();
    assert_eq!(transport.do_write(b"hello "), Ok(6));
    assert_eq!(transport.do_write(b"world"), Ok(5));
    assert_eq!(transport.get_outgoing_data(), b"hello world");
    assert_eq!(transport.outgoing_data_len(), 11);
    assert_eq!(transport.get_last_outgoing_bytes(5), b"world");
    assert_eq!(transport.get_last_outgoing_bytes(50), b"hello world");
    assert!(transport.outgoing_contains(b"o w"));
    assert!(!transport.outgoing_contains(b"wx"));
    assert!(!transport.outgoing_contains(b"hello world!"));
    assert!(transport.outgoing_ends_with(b"world"));
    assert!(transport.outgoing_ends_with(b""));
    assert!(!transport.outgoing_ends_with(b"hello"));
    transport.clear_outgoing_data();
    assert_eq!(transport.outgoing_data_len(), 0);
}

#[test]
fn mock_write_errors_and_flush() {
    let mut transport = MockTransport::new();
    transport.add_write_error(TransportError::Io("disk".to_string()));
    assert_eq!(transport.do_write(b"a"), Err(TransportError::Io("disk".to_string())));
    assert_eq!(transport.do_write(b"a"), Ok(1));
    assert_eq!(transport.do_flush(), Ok(()));
    assert_eq!(transport.close(), Ok(()));
    assert!(!transport.is_connected());
    assert_eq!(transport.do_flush(), Err(TransportError::ConnectionLost));
    assert_eq!(transport.do_write(b"a"), Err(TransportError::ConnectionLost));
    transport.set_connected(true);
    transport.add_write_error(TransportError::Timeout);
    transport.clear_errors();
    assert_eq!(transport.do_write(b"b"), Ok(1));
    assert_eq!(transport.get_outgoing_data(), b"ab");
    transport.clear_incoming_data();
    assert_eq!(transport.incoming_data_len(), 0);
}

#[test]
fn mock_default_is_connected_and_empty() {
    let transport = MockTransport::default();
    assert!(transport.is_connected());
    assert_eq!(transport.incoming_data_len(), 0);
    assert_eq!(transport.read_error_count(), 0);
}
