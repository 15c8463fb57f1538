use vstd::prelude::*;

use crate::background_task::{control_after, datagram_body, LoopControl, ServerEvent};
use crate::error::VerificationError;
use crate::matcher::{every_matcher_accepts, is_verdict};
use crate::mock::mock_matcher_type_name;
use crate::mock::Mock;

verus! {

/// A datagram received by a mock server.
#[derive(Debug, PartialEq, Eq)]
pub struct Packet {
    pub body: Vec<u8>,
}

/// The bytes of each packet, in order.
pub open spec fn packet_bodies(packets: Seq<Packet>) -> Seq<Seq<u8>> {
    packets.map_values(|p: Packet| p.body@)
}

/// The bytes handed on for each packet are exactly that packet's body, in the
/// same order, however long it is.
pub proof fn packet_bodies_are_bodies(packets: Seq<Packet>)
    ensures
        packet_bodies(packets).len() == packets.len(),
        forall|i: int| 0 <= i < packets.len() ==> #[trigger] packet_bodies(packets)[i] == packets[i].body@,
{
}

/// What a mock server shares with its receive loop: the registered mock and
/// every packet received so far, in arrival order.
pub struct UdpMockServerState {
    pub mock: Option<Mock>,
    pub received_packets: Vec<Packet>,
}

impl UdpMockServerState {
    /// The bytes of the packets received so far.
    pub open spec fn received(&self) -> Seq<Seq<u8>> {
        packet_bodies(self.received_packets@)
    }

    /// The received bytes are exactly the bodies of the packets received, in
    /// arrival order.
    pub proof fn received_is_bodies(&self)
        ensures
            self.received().len() == self.received_packets@.len(),
            forall|i: int|
                0 <= i < self.received_packets@.len() ==> #[trigger] self.received()[i]
                    == self.received_packets@[i].body@,
    {
    }

    /// A state with no mock registered and no packet received.
    pub fn new() -> (state: Self)
        ensures
            state.mock is None,
            state.received_packets@.len() == 0,
    {
        UdpMockServerState { mock: None, received_packets: Vec::new() }
    }

    /// Registers `mock`, replacing any mock registered before; the packets
    /// received so far are kept.
    pub fn register(&mut self, mock: Mock)
        ensures
            final(self).mock == Some(mock),
            final(self).received_packets == old(self).received_packets,
    {
        self.mock = Some(mock);
    }

    /// Takes one event of the receive loop: a received datagram is recorded
    /// after the packets before it, and only a shutdown stops the loop.
    pub fn handle(&mut self, event: ServerEvent, buf: &[u8]) -> (control: LoopControl)
        requires
            event matches ServerEvent::Received(len) ==> len <= buf@.len(),
        ensures
            control == control_after(event),
            control == LoopControl::Stop <==> event is Shutdown,
            final(self).mock == old(self).mock,
            event matches ServerEvent::Received(len) ==> final(self).received() == old(self).received().push(
                buf@.take(len as int),
            ),
            !(event is Received) ==> final(self).received_packets == old(self).received_packets,
    {
        match event {
            ServerEvent::Shutdown => LoopControl::Stop,
            ServerEvent::Received(len) => {
                let body = datagram_body(buf, len);
                let packet = Packet { body };
                self.received_packets.push(packet);
                proof {
                    assert(packet_bodies(self.received_packets@) =~= packet_bodies(
                        old(self).received_packets@,
                    ).push(buf@.take(len as int)));
                }
                LoopControl::Continue
            },
            ServerEvent::ReceiveFailed => LoopControl::Continue,
        }
    }

    /// Checks the packets received against the registered mock, with the
    /// verdict that `Mock::verify` gives on them; with no mock registered there
    /// is nothing to check.
    pub fn verify(&self) -> (r: Result<(), VerificationError>)
        ensures
            self.mock is None ==> r is Ok,
            self.mock matches Some(mock) ==> is_verdict(
                r,
                mock.n_expect_packets,
                self.received(),
                every_matcher_accepts(mock.matchers@, self.received()),
                mock_matcher_type_name(),
            ),
    {
        match &self.mock {
            Some(mock) => mock.verify(self.received_packets.as_slice()),
            None => Ok(()),
        }
    }
}

impl Default for UdpMockServerState {
    fn default() -> (state: Self)
        ensures
            state.mock is None,
            state.received_packets@.len() == 0,
    {
        UdpMockServerState::new()
    }
}

} // verus!
