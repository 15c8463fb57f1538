use vstd::prelude::*;

verus! {

/// What one turn of a mock server's receive loop observed.
pub enum ServerEvent {
    /// The server is being shut down.
    Shutdown,
    /// A datagram of this many bytes was written to the start of the receive buffer.
    Received(usize),
    /// Receiving failed; this happens whenever the socket is closed under the loop.
    ReceiveFailed,
}

/// Whether a receive loop goes on after an event.
#[derive(Debug, Clone, Copy, PartialEq, Eq)]
pub enum LoopControl {
    Continue,
    Stop,
}

/// The loop's decision on an event: only a shutdown ends it.
pub open spec fn control_after(event: ServerEvent) -> LoopControl {
    match event {
        ServerEvent::Shutdown => LoopControl::Stop,
        _ => LoopControl::Continue,
    }
}

/// Only a shutdown ends the receive loop: after a received datagram, of any
/// length, and after a failed receive, the loop goes on.
pub proof fn only_shutdown_stops_the_loop(event: ServerEvent)
    ensures
        control_after(event) == LoopControl::Stop <==> event is Shutdown,
        forall|n: usize| #[trigger] control_after(ServerEvent::Received(n)) == LoopControl::Continue,
        control_after(ServerEvent::ReceiveFailed) == LoopControl::Continue,
{
}

/// The bytes of a datagram of `len` bytes held at the start of `buf`.
pub fn datagram_body(buf: &[u8], len: usize) -> (body: Vec<u8>)
    requires
        len <= buf@.len(),
    ensures
        body@ == buf@.take(len as int),
{
    let mut body: Vec<u8> = Vec::with_capacity(len);
    let mut i: usize = 0;
    while i < len
        invariant
            len <= buf@.len(),
            i <= len,
            body@ == buf@.take(i as int),
        decreases len - i,
    {
        body.push(buf[i]);
        i = i + 1;
        assert(body@ =~= buf@.take(i as int));
    }
    body
}

} // verus!
