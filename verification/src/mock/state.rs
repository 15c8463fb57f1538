use vstd::prelude::*;

use crate::background_task::{control_after, datagram_body, LoopControl, ServerEvent};
use crate::error::VerificationError;
use crate::matcher::{
    accepts_bytes, accepts_slice, boxed_matcher_type_name, boxed_matcher_type_name_text,
    each_packet_accepted, is_verdict, some_matcher_accepts, PacketMatcher,
};
use crate::mock::test::MockTest;

verus! {

/// What a `MockServer` shares with its receive loop: the registered test and
/// the bytes of every packet received so far, in arrival order.
pub struct UdpMockServerState {
    pub mock: Option<MockTest>,
    pub received_packets: Vec<Vec<u8>>,
}

impl UdpMockServerState {
    /// The bytes of the packets received so far.
    pub open spec fn received(&self) -> Seq<Seq<u8>> {
        self.received_packets@.map_values(|p: Vec<u8>| p@)
    }

    /// The received bytes are exactly the datagrams received, in arrival order.
    pub proof fn received_is_datagrams(&self)
        ensures
            self.received().len() == self.received_packets@.len(),
            forall|i: int|
                0 <= i < self.received_packets@.len() ==> #[trigger] self.received()[i]
                    == self.received_packets@[i]@,
    {
    }

    /// A state with no test registered and no packet received.
    pub fn new() -> (state: Self)
        ensures
            state.mock is None,
            state.received_packets@.len() == 0,
    {
        UdpMockServerState { mock: None, received_packets: Vec::new() }
    }

    /// Registers `mock`, replacing any test registered before; the packets
    /// received so far are kept.
    pub fn register(&mut self, mock: MockTest)
        ensures
            final(self).mock == Some(mock),
            final(self).received_packets == old(self).received_packets,
    {
        self.mock = Some(mock);
    }

    /// Takes one event of the receive loop: a received datagram is recorded
    /// after the packets before it, and only a shutdown stops the loop.
    pub fn handle(&mut self, event: ServerEvent, buf: &[u8]) -> (control: LoopControl)
        requires
            event matches ServerEvent::Received(len) ==> len <= buf@.len(),
        ensures
            control == control_after(event),
            control == LoopControl::Stop <==> event is Shutdown,
            final(self).mock == old(self).mock,
            event matches ServerEvent::Received(len) ==> final(self).received() == old(self).received().push(
                buf@.take(len as int),
            ),
            !(event is Received) ==> final(self).received_packets == old(self).received_packets,
    {
        match event {
            ServerEvent::Shutdown => LoopControl::Stop,
            ServerEvent::Received(len) => {
                let body = datagram_body(buf, len);
                self.received_packets.push(body);
                proof {
                    assert(self.received() =~= old(self).received().push(buf@.take(len as int)));
                }
                LoopControl::Continue
            },
            ServerEvent::ReceiveFailed => LoopControl::Continue,
        }
    }

    /// Checks the packets received against the registered test: first their
    /// number, then each packet, in order, against its matchers, in order, until
    /// one accepts it; a packet that no matcher accepts ends the check. With no
    /// test registered there is nothing to check.
    pub fn verify(&self) -> (r: Result<(), VerificationError>)
        ensures
            self.mock is None ==> r is Ok,
            self.mock matches Some(mock) ==> is_verdict(
                r,
                mock.n_expect_packets,
                self.received(),
                each_packet_accepted(mock.matchers@, self.received()),
                boxed_matcher_type_name(),
            ),
    {
        match &self.mock {
            None => Ok(()),
            Some(mock) => {
                if self.received_packets.len() != mock.n_expect_packets {
                    return Err(
                        VerificationError::InvalidPacketsReceived {
                            expected: mock.n_expect_packets,
                            found: self.received_packets.len(),
                        },
                    );
                }
                let ghost bodies = self.received();
                let mut i: usize = 0;
                while i < self.received_packets.len()
                    invariant
                        i <= self.received_packets@.len(),
                        self.mock == Some(*mock),
                        self.received_packets@.len() == mock.n_expect_packets,
                        bodies == self.received(),
                        forall|a: int| 0 <= a < i ==> #[trigger] some_matcher_accepts(mock.matchers@, bodies[a]),
                    decreases self.received_packets@.len() - i,
                {
                    let packet = self.received_packets[i].as_slice();
                    let mut j: usize = 0;
                    let mut accepted = false;
                    while j < mock.matchers.len() && !accepted
                        invariant
                            i < self.received_packets@.len(),
                            j <= mock.matchers@.len(),
                            packet@ == bodies[i as int],
                            accepted ==> some_matcher_accepts(mock.matchers@, bodies[i as int]),
                            !accepted ==> forall|k: int|
                                0 <= k < j ==> !#[trigger] accepts_bytes(mock.matchers@[k], bodies[i as int]),
                        decreases mock.matchers@.len() - j,
                    {
                        accepted = mock.matchers[j].matches(packet);
                        proof {
                            accepts_slice(mock.matchers@[j as int], packet);
                        }
                        j = j + 1;
                    }
                    if !accepted {
                        assert(!some_matcher_accepts(mock.matchers@, bodies[i as int]));
                        assert(!each_packet_accepted(mock.matchers@, bodies));
                        return Err(VerificationError::InvalidPacketType(boxed_matcher_type_name_text()));
                    }
                    i = i + 1;
                }
                assert(each_packet_accepted(mock.matchers@, bodies));
                Ok(())
            },
        }
    }
}

impl Default for UdpMockServerState {
    fn default() -> (state: Self)
        ensures
            state.mock is None,
            state.received_packets@.len() == 0,
    {
        UdpMockServerState::new()
    }
}

} // verus!
