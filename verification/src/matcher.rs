use vstd::prelude::*;

use crate::error::VerificationError;

verus! {

/// Decides whether a received packet is one that a mock expects.
///
/// Users implement this trait. `accepts` names the answer that `matches`
/// gives, so an implementation writes it as `self.matches(packet)`; the
/// verifier reads it as a function of the matcher and the packet's bytes, and
/// never runs it.
pub trait PacketMatcher: Send + Sync {
    /// The answer of `matches` for `packet`.
    spec fn accepts(&self, packet: &[u8]) -> bool;

    /// Whether this matcher accepts `packet`.
    fn matches(&self, packet: &[u8]) -> (accepted: bool)
        ensures
            accepted == self.accepts(packet),
    ;
}

/// A boxed matcher decides as the matcher inside it.
impl PacketMatcher for Box<dyn PacketMatcher> {
    open spec fn accepts(&self, packet: &[u8]) -> bool {
        (**self).accepts(packet)
    }

    fn matches(&self, packet: &[u8]) -> (accepted: bool) {
        (**self).matches(packet)
    }
}

/// `matcher` accepts a packet with these bytes.
pub open spec fn accepts_bytes<M: PacketMatcher>(matcher: M, bytes: Seq<u8>) -> bool {
    forall|packet: &[u8]| packet@ == bytes ==> #[trigger] matcher.accepts(packet)
}

/// What a matcher answers for a slice is what it answers for the slice's bytes.
pub proof fn accepts_slice<M: PacketMatcher>(matcher: M, packet: &[u8])
    ensures
        accepts_bytes(matcher, packet@) == matcher.accepts(packet),
{
    assert forall|other: &[u8]| other@ == packet@ implies #[trigger] matcher.accepts(other)
        == matcher.accepts(packet) by {
        assert(other =~= packet);
    }
}

/// Every matcher accepts every packet.
pub open spec fn every_matcher_accepts<M: PacketMatcher>(matchers: Seq<M>, packets: Seq<Seq<u8>>) -> bool {
    forall|i: int, j: int|
        0 <= i < packets.len() && 0 <= j < matchers.len() ==> #[trigger] accepts_bytes(
            matchers[j],
            packets[i],
        )
}

/// Some matcher accepts the `i`-th packet.
pub open spec fn some_matcher_accepts<M: PacketMatcher>(matchers: Seq<M>, packet: Seq<u8>) -> bool {
    exists|j: int| 0 <= j < matchers.len() && #[trigger] accepts_bytes(matchers[j], packet)
}

/// Every packet is accepted by at least one of the matchers.
pub open spec fn each_packet_accepted<M: PacketMatcher>(matchers: Seq<M>, packets: Seq<Seq<u8>>) -> bool {
    forall|i: int| 0 <= i < packets.len() ==> #[trigger] some_matcher_accepts(matchers, packets[i])
}

/// `r` is the verdict on the received `packets` when `expected` packets were
/// expected and `passes` says whether the packets meet the matchers: a wrong
/// count is reported first, with both numbers; then a failed match, naming
/// `matcher_type`; otherwise success.
pub open spec fn is_verdict(
    r: Result<(), VerificationError>,
    expected: usize,
    packets: Seq<Seq<u8>>,
    passes: bool,
    matcher_type: Seq<char>,
) -> bool {
    if packets.len() != expected {
        r matches Err(VerificationError::InvalidPacketsReceived { expected: e, found: f })
            && e == expected && f == packets.len()
    } else if passes {
        r is Ok
    } else {
        r matches Err(VerificationError::InvalidPacketType(name)) && name@ == matcher_type
    }
}

/// A verdict reports a wrong count, with both numbers, before anything else;
/// with the right count it passes exactly when the packets meet the matchers,
/// and otherwise names `matcher_type`.
pub proof fn verdict_passes_iff(
    r: Result<(), VerificationError>,
    expected: usize,
    packets: Seq<Seq<u8>>,
    passes: bool,
    matcher_type: Seq<char>,
)
    requires
        is_verdict(r, expected, packets, passes, matcher_type),
    ensures
        r is Ok <==> (packets.len() == expected && passes),
        packets.len() != expected ==> (r matches Err(
            VerificationError::InvalidPacketsReceived { expected: e, found: f },
        ) && e == expected && f == packets.len()),
        packets.len() == expected && !passes ==> (r matches Err(VerificationError::InvalidPacketType(name))
            && name@ == matcher_type),
{
}

/// Every matcher accepts every packet exactly when each matcher, asked about
/// any slice holding a packet's bytes, answers yes, whatever the packet's length.
pub proof fn every_matcher_accepts_means<M: PacketMatcher>(matchers: Seq<M>, packets: Seq<Seq<u8>>)
    ensures
        every_matcher_accepts(matchers, packets) <==> forall|i: int, j: int, slice: &[u8]|
            #![trigger packets[i], matchers[j].accepts(slice)]
            0 <= i < packets.len() && 0 <= j < matchers.len() && slice@ == packets[i] ==> matchers[j].accepts(
                slice,
            ),
{
    if every_matcher_accepts(matchers, packets) {
        assert forall|i: int, j: int, slice: &[u8]|
            0 <= i < packets.len() && 0 <= j < matchers.len() && slice@ == packets[i] implies matchers[j].accepts(
            slice,
        ) by {
            assert(accepts_bytes(matchers[j], packets[i]));
        }
    }
}

/// A packet that one matcher rejects fails a mock that needs every matcher,
/// whatever the packet's length.
pub proof fn rejected_packet_fails_every<M: PacketMatcher>(
    matchers: Seq<M>,
    packets: Seq<Seq<u8>>,
    i: int,
    j: int,
    slice: &[u8],
)
    requires
        0 <= i < packets.len(),
        0 <= j < matchers.len(),
        slice@ == packets[i],
        !matchers[j].accepts(slice),
    ensures
        !every_matcher_accepts(matchers, packets),
{
    every_matcher_accepts_means(matchers, packets);
}

/// If for each packet some matcher answers yes when asked about any slice
/// holding the packet's bytes, every packet is accepted by some matcher.
pub proof fn answered_packets_pass_alternatives<M: PacketMatcher>(
    matchers: Seq<M>,
    packets: Seq<Seq<u8>>,
    choice: spec_fn(int) -> int,
)
    requires
        forall|i: int| 0 <= i < packets.len() ==> 0 <= #[trigger] choice(i) < matchers.len(),
        forall|i: int, slice: &[u8]|
            #![trigger packets[i], matchers[choice(i)].accepts(slice)]
            0 <= i < packets.len() && slice@ == packets[i] ==> matchers[choice(i)].accepts(slice),
    ensures
        each_packet_accepted(matchers, packets),
{
    assert forall|i: int| 0 <= i < packets.len() implies #[trigger] some_matcher_accepts(matchers, packets[i]) by {
        let j = choice(i);
        assert forall|slice: &[u8]| slice@ == packets[i] implies #[trigger] matchers[j].accepts(slice) by {}
        assert(accepts_bytes(matchers[j], packets[i]));
    }
}

/// A packet that every alternative rejects fails a test that needs one of them
/// to accept it, whatever the packet's length.
pub proof fn unaccepted_packet_fails_alternatives<M: PacketMatcher>(
    matchers: Seq<M>,
    packets: Seq<Seq<u8>>,
    i: int,
    slice: &[u8],
)
    requires
        0 <= i < packets.len(),
        slice@ == packets[i],
        forall|j: int| 0 <= j < matchers.len() ==> !#[trigger] matchers[j].accepts(slice),
    ensures
        !each_packet_accepted(matchers, packets),
{
    if each_packet_accepted(matchers, packets) {
        assert(some_matcher_accepts(matchers, packets[i]));
        let j = choose|j: int| 0 <= j < matchers.len() && #[trigger] accepts_bytes(matchers[j], packets[i]);
        assert(matchers[j].accepts(slice));
    }
}

/// If every packet of `to` also arrived in `from`, the matchers' verdict on
/// `from` carries over to `to`, under either rule.
proof fn matching_carries_to_contained_packets<M: PacketMatcher>(
    matchers: Seq<M>,
    from: Seq<Seq<u8>>,
    to: Seq<Seq<u8>>,
)
    requires
        forall|i: int| 0 <= i < to.len() ==> #[trigger] from.contains(to[i]),
    ensures
        every_matcher_accepts(matchers, from) ==> every_matcher_accepts(matchers, to),
        each_packet_accepted(matchers, from) ==> each_packet_accepted(matchers, to),
{
    assert forall|i: int, j: int|
        0 <= i < to.len() && 0 <= j < matchers.len() && every_matcher_accepts(matchers, from)
        implies #[trigger] accepts_bytes(matchers[j], to[i]) by {
        assert(from.contains(to[i]));
        let k = choose|k: int| 0 <= k < from.len() && from[k] == to[i];
        assert(accepts_bytes(matchers[j], from[k]));
    }
    assert forall|i: int| 0 <= i < to.len() && each_packet_accepted(matchers, from) implies #[trigger] some_matcher_accepts(
        matchers,
        to[i],
    ) by {
        assert(from.contains(to[i]));
        let k = choose|k: int| 0 <= k < from.len() && from[k] == to[i];
        assert(some_matcher_accepts(matchers, from[k]));
    }
}

/// Whether the packets meet the matchers, under either rule, does not depend
/// on the order in which they arrived.
pub proof fn matching_ignores_packet_order<M: PacketMatcher>(
    matchers: Seq<M>,
    packets1: Seq<Seq<u8>>,
    packets2: Seq<Seq<u8>>,
)
    requires
        packets1.to_multiset() == packets2.to_multiset(),
    ensures
        packets1.len() == packets2.len(),
        every_matcher_accepts(matchers, packets1) <==> every_matcher_accepts(matchers, packets2),
        each_packet_accepted(matchers, packets1) <==> each_packet_accepted(matchers, packets2),
{
    broadcast use vstd::seq_lib::group_to_multiset_ensures;

    assert(packets1.len() == packets1.to_multiset().len());
    assert(packets2.len() == packets2.to_multiset().len());
    assert forall|i: int| 0 <= i < packets2.len() implies #[trigger] packets1.contains(packets2[i]) by {
        assert(packets2.contains(packets2[i]));
        assert(packets1.to_multiset().count(packets2[i]) > 0);
    }
    assert forall|i: int| 0 <= i < packets1.len() implies #[trigger] packets2.contains(packets1[i]) by {
        assert(packets1.contains(packets1[i]));
        assert(packets2.to_multiset().count(packets1[i]) > 0);
    }
    matching_carries_to_contained_packets(matchers, packets1, packets2);
    matching_carries_to_contained_packets(matchers, packets2, packets1);
}

/// An alternative matcher widens what passes: with it added, a packet is
/// accepted exactly when one of the earlier matchers or the added one accepts it.
pub proof fn alternative_matcher_widens<M: PacketMatcher>(matchers: Seq<M>, added: M, packet: Seq<u8>)
    ensures
        some_matcher_accepts(matchers.push(added), packet) <==> (some_matcher_accepts(matchers, packet)
            || accepts_bytes(added, packet)),
{
    let all = matchers.push(added);
    if some_matcher_accepts(all, packet) {
        let j = choose|j: int| 0 <= j < all.len() && #[trigger] accepts_bytes(all[j], packet);
        if j < matchers.len() {
            assert(accepts_bytes(matchers[j], packet));
        }
    }
    if some_matcher_accepts(matchers, packet) {
        let j = choose|j: int| 0 <= j < matchers.len() && #[trigger] accepts_bytes(matchers[j], packet);
        assert(all[j] == matchers[j]);
        assert(accepts_bytes(all[j], packet));
    }
    if accepts_bytes(added, packet) {
        assert(all[matchers.len() as int] == added);
        assert(accepts_bytes(all[matchers.len() as int], packet));
    }
}

/// How the compiler names the type `Box<dyn PacketMatcher>` of this crate.
pub open spec fn boxed_matcher_type_name() -> Seq<char> {
    "alloc::boxed::Box<dyn udp_wiremock::matcher::PacketMatcher>"@
}

/// The name of the type `Box<dyn PacketMatcher>`, which an error reports for a
/// packet that fails the matchers.
pub fn boxed_matcher_type_name_text() -> (name: String)
    ensures
        name@ == boxed_matcher_type_name(),
{
    String::from_str("alloc::boxed::Box<dyn udp_wiremock::matcher::PacketMatcher>")
}

} // verus!
