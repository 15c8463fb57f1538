use udp_wiremock::mock::state::UdpMockServerState as TestServerState;
use udp_wiremock::mock::test::MockTest;
use udp_wiremock::mock_server::UdpMockServerState;
use udp_wiremock::{LoopControl, Mock, Packet, PacketMatcher, ServerEvent, VerificationError};

const BOXED_MATCHER: &str = "alloc::boxed::Box<dyn udp_wiremock::matcher::PacketMatcher>";
const MOCK_MATCHER: &str = "&alloc::boxed::Box<dyn udp_wiremock::mock::PacketMatcher>";

/// Accepts packets that decode as a blue message: `(id: u8, kind: u16, content: [u8; 4])`.
struct BlueMatcher;

impl PacketMatcher for BlueMatcher {
    fn accepts(&self, packet: &[u8]) -> bool {
        self.matches(packet)
    }

    fn matches(&self, packet: &[u8]) -> bool {
        postcard::from_bytes::<(u8, u16, [u8; 4])>(packet).is_ok()
    }
}

/// Accepts packets that decode as a green message: `(foo: [u8; 2], bar: [u8; 7])`.
struct GreenMatcher;

impl PacketMatcher for GreenMatcher {
    fn accepts(&self, packet: &[u8]) -> bool {
        self.matches(packet)
    }

    fn matches(&self, packet: &[u8]) -> bool {
        postcard::from_bytes::<([u8; 2], [u8; 7])>(packet).is_ok()
    }
}

/// Accepts packets that decode as a red message: `(key: [u8; 2])`.
struct RedMatcher;

impl PacketMatcher for RedMatcher {
    fn accepts(&self, packet: &[u8]) -> bool {
        self.matches(packet)
    }

    fn matches(&self, packet: &[u8]) -> bool {
        postcard::from_bytes::<[u8; 2]>(packet).is_ok()
    }
}

/// Accepts packets whose first byte is the given one.
struct FirstByte(u8);

impl PacketMatcher for FirstByte {
    fn accepts(&self, packet: &[u8]) -> bool {
        self.matches(packet)
    }

    fn matches(&self, packet: &[u8]) -> bool {
        packet.first() == Some(&self.0)
    }
}

fn blue_message() -> Vec<u8> {
    postcard::to_allocvec(&(8u8, 3u16, [1u8, 2, 3, 4])).unwrap()
}

fn red_message() -> Vec<u8> {
    postcard::to_allocvec(&[1u8, 2]).unwrap()
}

fn receive(state: &mut TestServerState, datagram: &[u8]) {
    let mut buf = [0u8; 2048];
    buf[..datagram.len()].copy_from_slice(datagram);
    let control = state.handle(ServerEvent::Received(datagram.len()), &buf);
    assert_eq!(control, LoopControl::Continue);
}

fn receive_packet(state: &mut UdpMockServerState, datagram: &[u8]) {
    let mut buf = [0u8; 2048];
    buf[..datagram.len()].copy_from_slice(datagram);
    let control = state.handle(ServerEvent::Received(datagram.len()), &buf);
    assert_eq!(control, LoopControl::Continue);
}

fn blue_test(name: &str) -> MockTest {
    MockTest::with_matcher(Box::new(BlueMatcher)).named(name).expect(1)
}

#[test]
fn verification_passes_if_expectation_is_satisfied() {
    let mut state = TestServerState::default();
    state.register(blue_test("verification_passes_if_expectation_is_satisfied"));
    receive(&mut state, &blue_message());
    assert_eq!(state.verify(), Ok(()));
}

#[test]
fn fails_if_the_expectation_is_not_satisfied() {
    let mut state = TestServerState::default();
    state.register(blue_test("panics_if_the_expectation_is_not_satisfied"));
    assert_eq!(
        state.verify(),
        Err(VerificationError::InvalidPacketsReceived { expected: 1, found: 0 })
    );
}

#[test]
fn fails_if_the_message_does_not_match_expectation() {
    let mut state = TestServerState::default();
    state.register(blue_test("panics_if_the_message_does_not_match_expectation"));
    receive(&mut state, &red_message());
    assert_eq!(
        state.verify(),
        Err(VerificationError::InvalidPacketType(BOXED_MATCHER.to_string()))
    );
}

#[test]
fn identically_shaped_messages_cannot_be_told_apart() {
    let mut state = TestServerState::default();
    state.register(
        MockTest::with_matcher(Box::new(GreenMatcher))
            .named("verification_passes_if_at_least_one_expectation_is_satisfied")
            .expect(1),
    );
    let yellow = postcard::to_allocvec(&([1u8, 2, 3, 4, 5, 6, 7], [1u8, 2])).unwrap();
    receive(&mut state, &yellow);
    assert_eq!(state.verify(), Ok(()));
}

#[test]
fn no_registered_mock_always_passes() {
    let mut state = TestServerState::new();
    assert_eq!(state.verify(), Ok(()));
    receive(&mut state, &red_message());
    receive(&mut state, &blue_message());
    assert_eq!(state.verify(), Ok(()));
}

#[test]
fn wrong_count_is_reported_before_a_rejected_packet() {
    let mut state = TestServerState::new();
    state.register(blue_test("count"));
    receive(&mut state, &red_message());
    receive(&mut state, &red_message());
    assert_eq!(
        state.verify(),
        Err(VerificationError::InvalidPacketsReceived { expected: 1, found: 2 })
    );
}

#[test]
fn a_packet_passes_when_one_alternative_accepts_it() {
    let test = MockTest::with_matcher(Box::new(BlueMatcher))
        .or_matcher(Box::new(RedMatcher))
        .expect(2);
    assert_eq!(test.matchers.len(), 2);
    assert_eq!(test.n_expect_packets, 2);
    assert!(test.name.is_none());

    let mut state = TestServerState::new();
    state.register(test);
    receive(&mut state, &red_message());
    receive(&mut state, &blue_message());
    assert_eq!(state.verify(), Ok(()));
}

#[test]
fn a_packet_no_alternative_accepts_fails() {
    let mut state = TestServerState::new();
    state.register(
        MockTest::with_matcher(Box::new(FirstByte(9)))
            .or_matcher(Box::new(FirstByte(7)))
            .expect(2),
    );
    receive(&mut state, &[9u8, 0]);
    receive(&mut state, &[8u8]);
    assert_eq!(
        state.verify(),
        Err(VerificationError::InvalidPacketType(BOXED_MATCHER.to_string()))
    );
}

#[test]
fn mock_requires_every_matcher() {
    let mut mock = Mock::with_matcher(Box::new(FirstByte(8))).expect(1);
    mock.matchers.push(Box::new(FirstByte(9)));
    assert_eq!(
        mock.verify(&[Packet { body: blue_message() }]),
        Err(VerificationError::InvalidPacketType(MOCK_MATCHER.to_string()))
    );
    let mut mock = Mock::with_matcher(Box::new(FirstByte(8))).expect(1);
    mock.matchers.push(Box::new(BlueMatcher));
    assert_eq!(mock.verify(&[Packet { body: blue_message() }]), Ok(()));
}

#[test]
fn registering_replaces_the_mock_and_keeps_packets() {
    let mut state = TestServerState::new();
    state.register(MockTest::with_matcher(Box::new(FirstByte(9))).expect(1));
    receive(&mut state, &blue_message());
    assert!(state.verify().is_err());
    state.register(blue_test("second"));
    assert_eq!(state.received_packets, vec![blue_message()]);
    assert_eq!(state.verify(), Ok(()));
    assert_eq!(state.mock.as_ref().unwrap().name.as_deref(), Some("second"));
}

#[test]
fn receive_loop_records_datagram_prefixes_in_order() {
    let mut state = TestServerState::new();
    let mut buf = [7u8; 16];
    buf[0] = 1;
    buf[1] = 2;
    assert_eq!(state.handle(ServerEvent::Received(2), &buf), LoopControl::Continue);
    assert_eq!(state.handle(ServerEvent::ReceiveFailed, &buf), LoopControl::Continue);
    assert_eq!(state.handle(ServerEvent::Received(0), &buf), LoopControl::Continue);
    assert_eq!(state.handle(ServerEvent::Received(3), &buf), LoopControl::Continue);
    assert_eq!(state.handle(ServerEvent::Shutdown, &buf), LoopControl::Stop);
    assert_eq!(state.received_packets, vec![vec![1u8, 2], vec![], vec![1u8, 2, 7]]);
}

#[test]
fn expecting_no_packets_passes_when_none_arrive() {
    let mut state = TestServerState::new();
    state.register(blue_test("none").expect(0));
    assert_eq!(state.verify(), Ok(()));
}

#[test]
fn builders_set_their_field_only() {
    let test = MockTest::with_matcher(Box::new(BlueMatcher));
    assert_eq!(test.n_expect_packets, 1);
    assert!(test.name.is_none());
    let test = test.expect(5).named("five");
    assert_eq!(test.n_expect_packets, 5);
    assert_eq!(test.name.as_deref(), Some("five"));
    assert_eq!(test.matchers.len(), 1);

    let mock = Mock::with_matcher(Box::new(BlueMatcher)).named("m").expect(3);
    assert_eq!(mock.n_expect_packets, 3);
    assert_eq!(mock.name.as_deref(), Some("m"));
    assert_eq!(mock.matchers.len(), 1);
}

#[test]
fn mock_verify_checks_count_then_matchers() {
    let mock = Mock::with_matcher(Box::new(BlueMatcher)).expect(1);
    assert_eq!(
        mock.verify(&[]),
        Err(VerificationError::InvalidPacketsReceived { expected: 1, found: 0 })
    );
    assert_eq!(mock.verify(&[Packet { body: blue_message() }]), Ok(()));
    assert_eq!(
        mock.verify(&[Packet { body: red_message() }]),
        Err(VerificationError::InvalidPacketType(MOCK_MATCHER.to_string()))
    );
}

#[test]
fn passes_if_expectation_is_satisfied_on_udp_mock_server() {
    let mut state = UdpMockServerState::default();
    assert_eq!(state.verify(), Ok(()));
    state.register(
        Mock::with_matcher(Box::new(BlueMatcher))
            .named("passes_if_expectation_is_satisfied")
            .expect(1),
    );
    assert_eq!(
        state.verify(),
        Err(VerificationError::InvalidPacketsReceived { expected: 1, found: 0 })
    );
    receive_packet(&mut state, &blue_message());
    assert_eq!(state.received_packets, vec![Packet { body: blue_message() }]);
    assert_eq!(state.verify(), Ok(()));
    assert_eq!(state.handle(ServerEvent::Shutdown, &[]), LoopControl::Stop);
}

#[test]
fn udp_mock_server_reports_rejected_packet() {
    let mut state = UdpMockServerState::new();
    state.register(Mock::with_matcher(Box::new(BlueMatcher)).expect(1));
    receive_packet(&mut state, &red_message());
    assert_eq!(
        state.verify(),
        Err(VerificationError::InvalidPacketType(MOCK_MATCHER.to_string()))
    );
}

#[test]
fn error_messages_read_as_displayed() {
    assert_eq!(
        VerificationError::InvalidPacketsReceived { expected: 1, found: 0 }.message(),
        "invalid number packets received (expected 1, found 0)"
    );
    assert_eq!(
        VerificationError::InvalidPacketsReceived { expected: 1234567, found: 10 }.message(),
        "invalid number packets received (expected 1234567, found 10)"
    );
    assert_eq!(
        VerificationError::InvalidPacketType("Blue".to_string()).message(),
        "invalid `Blue` packet received"
    );
    assert_eq!(VerificationError::InvalidMockState.message(), "invalid mock state");
}
