use vstd::prelude::*;

use crate::error::VerificationError;
use crate::matcher::{
    accepts_bytes, accepts_slice, every_matcher_accepts, is_verdict,
};
use crate::mock_server::{packet_bodies, Packet};

pub use crate::matcher::PacketMatcher;

pub mod state;

verus! {

/// How the compiler names the type `&Box<dyn PacketMatcher>`, with the trait
/// reached through this module, which a `Mock` reports for a rejecting matcher.
pub open spec fn mock_matcher_type_name() -> Seq<char> {
    "&alloc::boxed::Box<dyn udp_wiremock::mock::PacketMatcher>"@
}

/// The text of `mock_matcher_type_name`.
pub fn mock_matcher_type_name_text() -> (name: String)
    ensures
        name@ == mock_matcher_type_name(),
{
    String::from_str("&alloc::boxed::Box<dyn udp_wiremock::mock::PacketMatcher>")
}

/// An expectation on the packets a mock server receives: how many arrive, and
/// which matchers every one of them must satisfy.
pub struct Mock {
    pub name: Option<String>,
    pub matchers: Vec<Box<dyn PacketMatcher>>,
    pub n_expect_packets: usize,
}

impl Mock {
    /// A mock with the single matcher `matcher`, no name, expecting one packet.
    ///
    /// The first clause fixes the stored matcher, but Verus does not carry an
    /// equality of `Box<dyn PacketMatcher>` values across a call, so a verified
    /// caller learns the length, name and count, not which matcher is stored.
    pub fn with_matcher(matcher: Box<dyn PacketMatcher>) -> (mock: Self)
        ensures
            mock.name is None,
            mock.matchers@ == Seq::<Box<dyn PacketMatcher>>::empty().push(matcher),
            mock.matchers@.len() == 1,
            mock.n_expect_packets == 1,
    {
        let matchers: Vec<Box<dyn PacketMatcher>> = vec![matcher];
        proof {
            vstd::seq::axiom_seq_push_len(Seq::<Box<dyn PacketMatcher>>::empty(), matcher);
        }
        Mock { name: None, matchers, n_expect_packets: 1 }
    }

    /// The same mock, named `mock_name`.
    pub fn named(self, mock_name: &str) -> (mock: Self)
        ensures
            mock.name matches Some(n) && n@ == mock_name@,
            mock.matchers == self.matchers,
            mock.n_expect_packets == self.n_expect_packets,
    {
        let mut mock = self;
        mock.name = Some(String::from_str(mock_name));
        mock
    }

    /// The same mock, expecting `count` packets.
    pub fn expect(self, count: usize) -> (mock: Self)
        ensures
            mock.name == self.name,
            mock.matchers == self.matchers,
            mock.n_expect_packets == count,
    {
        let mut mock = self;
        mock.n_expect_packets = count;
        mock
    }

    /// Checks `packets` against this mock: first their number, then each packet,
    /// in order, against each matcher, in order; every matcher must accept every
    /// packet, and the first rejection ends the check.
    pub fn verify(&self, packets: &[Packet]) -> (r: Result<(), VerificationError>)
        ensures
            is_verdict(
                r,
                self.n_expect_packets,
                packet_bodies(packets@),
                every_matcher_accepts(self.matchers@, packet_bodies(packets@)),
                mock_matcher_type_name(),
            ),
    {
        if packets.len() != self.n_expect_packets {
            return Err(
                VerificationError::InvalidPacketsReceived {
                    expected: self.n_expect_packets,
                    found: packets.len(),
                },
            );
        }
        let ghost bodies = packet_bodies(packets@);
        let mut i: usize = 0;
        while i < packets.len()
            invariant
                i <= packets@.len(),
                packets@.len() == self.n_expect_packets,
                bodies == packet_bodies(packets@),
                forall|a: int, j: int|
                    0 <= a < i && 0 <= j < self.matchers@.len() ==> #[trigger] accepts_bytes(
                        self.matchers@[j],
                        bodies[a],
                    ),
            decreases packets@.len() - i,
        {
            let body = packets[i].body.as_slice();
            let mut j: usize = 0;
            while j < self.matchers.len()
                invariant
                    i < packets@.len(),
                    packets@.len() == self.n_expect_packets,
                    j <= self.matchers@.len(),
                    body@ == bodies[i as int],
                    bodies == packet_bodies(packets@),
                    forall|a: int, k: int|
                        0 <= a < i && 0 <= k < self.matchers@.len() ==> #[trigger] accepts_bytes(
                            self.matchers@[k],
                            bodies[a],
                        ),
                    forall|k: int| 0 <= k < j ==> #[trigger] accepts_bytes(self.matchers@[k], bodies[i as int]),
                decreases self.matchers@.len() - j,
            {
                let accepted = self.matchers[j].matches(body);
                proof {
                    accepts_slice(self.matchers@[j as int], body);
                }
                if !accepted {
                    assert(!every_matcher_accepts(self.matchers@, bodies));
                    return Err(VerificationError::InvalidPacketType(mock_matcher_type_name_text()));
                }
                j = j + 1;
            }
            i = i + 1;
        }
        assert(every_matcher_accepts(self.matchers@, bodies));
        Ok(())
    }
}

} // verus!
