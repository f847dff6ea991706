//! Decisions of the asynchronous front end: waiting until every endpoint has
//! completed its handshake, and ending a stream at the first disconnection.
//!
//! The loops that read the monitor channel and the sockets live with the caller;
//! these state machines take each event and say what follows.

use vstd::prelude::*;

use crate::error::NotificationError;
use crate::message::Message;
use crate::monitor::{MonitorMessage, SocketEvent};
use crate::text::push_str;

verus! {

/// A message of the subscription, or an event of its monitor.
#[derive(Debug, Clone)]
pub enum SocketMessage {
    /// A notification.
    Message(Message),
    /// A connection event.
    Event(MonitorMessage),
}

/// How an event changes the number of completed handshakes: a success adds one,
/// a disconnection takes one away (the endpoint needs a new handshake).
pub open spec fn handshake_delta(e: SocketEvent) -> int {
    match e {
        SocketEvent::HandshakeSucceeded => 1,
        SocketEvent::Disconnected { .. } => -1,
        _ => 0,
    }
}

/// Completed handshakes, net of disconnections, over `events`.
pub open spec fn net_handshakes(events: Seq<SocketEvent>) -> int
    decreases events.len(),
{
    if events.len() == 0 {
        0
    } else {
        net_handshakes(events.drop_last()) + handshake_delta(events.last())
    }
}

/// Handshakes still awaited after `e`, when `pending` were awaited before. Once
/// none is awaited the wait is over, and later events change nothing.
pub open spec fn pending_step(pending: nat, e: SocketEvent) -> nat {
    if pending == 0 {
        0
    } else {
        (pending - handshake_delta(e)) as nat
    }
}

/// Handshakes still awaited after `events`, when `n` endpoints were connected.
pub open spec fn pending_after(n: nat, events: Seq<SocketEvent>) -> nat
    decreases events.len(),
{
    if events.len() == 0 {
        n
    } else {
        pending_step(pending_after(n, events.drop_last()), events.last())
    }
}

/// Some prefix of `events` (the empty one too) holds `n` net handshakes.
pub open spec fn reaches(n: nat, events: Seq<SocketEvent>) -> bool {
    exists|k: int| 0 <= k <= events.len() && #[trigger] net_handshakes(events.take(k)) == n
}

/// The wait for `n` endpoints is over after `events` exactly when some prefix of
/// them holds `n` net handshakes; until then it awaits `n` minus the net
/// handshakes. With no endpoint it is over before any event.
pub proof fn lemma_handshake_wait(n: nat, events: Seq<SocketEvent>)
    ensures
        pending_after(n, events) == 0 <==> reaches(n, events),
        !reaches(n, events) ==> pending_after(n, events) == n - net_handshakes(events)
            && net_handshakes(events) < n,
    decreases events.len(),
{
    if events.len() == 0 {
        assert(events.take(0) =~= events);
        if reaches(n, events) {
            let k = choose|k: int| 0 <= k <= events.len() && #[trigger] net_handshakes(events.take(k)) == n;
            assert(k == 0);
        }
        if n == 0 {
            assert(net_handshakes(events.take(0)) == n);
        }
    } else {
        let init = events.drop_last();
        lemma_handshake_wait(n, init);
        assert forall|k: int| 0 <= k <= init.len() implies #[trigger] init.take(k) == events.take(k) by {
            assert(init.take(k) =~= events.take(k));
        }
        assert(events.take(events.len() as int) =~= events);
        if reaches(n, init) {
            let k = choose|k: int| 0 <= k <= init.len() && #[trigger] net_handshakes(init.take(k)) == n;
            assert(init.take(k) == events.take(k));
            assert(net_handshakes(events.take(k)) == n);
            assert(reaches(n, events));
            assert(pending_after(n, init) == 0);
        } else {
            assert(pending_after(n, init) == n - net_handshakes(init));
            assert(pending_after(n, events) == pending_step(pending_after(n, init), events.last()));
            assert(net_handshakes(events) == net_handshakes(init) + handshake_delta(events.last()));
            assert(pending_after(n, events) == n - net_handshakes(events));
            if reaches(n, events) {
                let k = choose|k: int| 0 <= k <= events.len() && #[trigger] net_handshakes(events.take(k)) == n;
                if k < events.len() {
                    assert(init.take(k) == events.take(k));
                    assert(net_handshakes(init.take(k)) == n);
                    assert(reaches(n, init));
                }
                assert(net_handshakes(events) == n);
            }
            if net_handshakes(events) == n {
                assert(net_handshakes(events.take(events.len() as int)) == n);
                assert(reaches(n, events));
            }
        }
    }
}

/// The wait until `n` endpoints have each completed a handshake. Counts the
/// handshakes still awaited; a disconnection adds one again. The count saturates
/// at `usize::MAX`, which no real monitor reaches.
#[derive(Debug, Clone, Copy, PartialEq, Eq)]
pub struct HandshakeWait {
    pending: usize,
}

impl HandshakeWait {
    /// Handshakes still awaited.
    pub closed spec fn spec_pending(&self) -> nat {
        self.pending as nat
    }

    /// The wait for `endpoints` endpoints. With none it is over at once.
    pub fn new(endpoints: usize) -> (r: Self)
        ensures
            r.spec_pending() == endpoints,
    {
        HandshakeWait { pending: endpoints }
    }

    /// Handshakes still awaited.
    pub fn pending(&self) -> (r: usize)
        ensures
            r == self.spec_pending(),
    {
        self.pending
    }

    /// Whether every endpoint has completed its handshake.
    pub fn is_ready(&self) -> (r: bool)
        ensures
            r == (self.spec_pending() == 0),
    {
        self.pending == 0
    }

    /// Takes the next monitor event; returns whether the wait is over.
    pub fn on_event(&mut self, event: &SocketEvent) -> (ready: bool)
        ensures
            pending_step(old(self).spec_pending(), *event) <= usize::MAX ==> final(self).spec_pending()
                == pending_step(old(self).spec_pending(), *event),
            pending_step(old(self).spec_pending(), *event) > usize::MAX ==> final(self).spec_pending()
                == usize::MAX,
            ready == (final(self).spec_pending() == 0),
    {
        if self.pending == 0 {
            return true;
        }
        match event {
            SocketEvent::HandshakeSucceeded => {
                self.pending = self.pending - 1;
            },
            SocketEvent::Disconnected { .. } => {
                self.pending = self.pending.saturating_add(1);
            },
            _ => {},
        }
        self.pending == 0
    }
}

/// What a checked stream does with one item of the monitored stream.
#[derive(Debug)]
pub enum CheckedItem {
    /// Hand this item to the consumer.
    Yield(Result<Message, NotificationError>),
    /// Drop the item and read the next one.
    Skip,
    /// The stream has ended.
    End,
}

/// The state of a stream that forwards messages, drops connection events, and
/// ends at the first disconnection, after one error that names the endpoint.
#[derive(Debug, Clone, Copy, PartialEq, Eq)]
pub struct DisconnectGuard {
    terminated: bool,
}

impl DisconnectGuard {
    /// Whether the stream has ended.
    pub closed spec fn spec_terminated(&self) -> bool {
        self.terminated
    }

    /// A guard for a stream that has not ended.
    pub fn new() -> (r: Self)
        ensures
            !r.spec_terminated(),
    {
        DisconnectGuard { terminated: false }
    }

    /// Whether the stream has ended.
    pub fn is_terminated(&self) -> (r: bool)
        ensures
            r == self.spec_terminated(),
    {
        self.terminated
    }

    /// Decides what becomes of the next item of the monitored stream.
    pub fn on_item(&mut self, item: Result<SocketMessage, NotificationError>) -> (r: CheckedItem)
        ensures
            old(self).spec_terminated() ==> r is End && final(self).spec_terminated(),
            !old(self).spec_terminated() ==> match item {
                Ok(SocketMessage::Message(m)) => {
                    r == CheckedItem::Yield(Ok(m)) && !final(self).spec_terminated()
                },
                Ok(SocketMessage::Event(ev)) => if ev.event is Disconnected {
                    &&& r matches CheckedItem::Yield(Err(NotificationError::Disconnected(url)))
                    &&& url@ == ev.source_url@
                    &&& final(self).spec_terminated()
                } else {
                    r is Skip && !final(self).spec_terminated()
                },
                Err(e) => r == CheckedItem::Yield(Err(e)) && !final(self).spec_terminated(),
            },
    {
        if self.terminated {
            return CheckedItem::End;
        }
        match item {
            Ok(SocketMessage::Message(m)) => CheckedItem::Yield(Ok(m)),
            Ok(SocketMessage::Event(ev)) => match ev.event {
                SocketEvent::Disconnected { .. } => {
                    self.terminated = true;
                    CheckedItem::Yield(Err(NotificationError::Disconnected(ev.source_url)))
                },
                _ => CheckedItem::Skip,
            },
            Err(e) => CheckedItem::Yield(Err(e)),
        }
    }
}

/// The decision of a receive loop that hands each message on: stop at the first
/// hand-off that fails (the receiving side is gone), go on otherwise.
pub fn break_on_err(is_err: bool) -> (r: core::ops::ControlFlow<()>)
    ensures
        r == (if is_err {
            core::ops::ControlFlow::<()>::Break(())
        } else {
            core::ops::ControlFlow::<()>::Continue(())
        }),
{
    if is_err {
        core::ops::ControlFlow::Break(())
    } else {
        core::ops::ControlFlow::Continue(())
    }
}

/// The handshake wait did not end in time. Carries no more information.
#[derive(Debug)]
pub struct Timeout(());

impl Timeout {
    /// The timeout error.
    pub fn new() -> Self {
        Timeout(())
    }

    /// What the error says.
    pub fn to_string(&self) -> (r: String)
        ensures
            r@ == "connection timed out"@,
    {
        let mut s = String::new();
        push_str(&mut s, "connection timed out");
        s
    }
}

} // verus!
