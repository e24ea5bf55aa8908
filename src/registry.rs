use std::collections::HashMap;
use vstd::prelude::*;

use crate::types::OutgoingSocketMessage;

verus! {

broadcast use vstd::std_specs::hash::group_hash_axioms;

/// Names one registered connection; the registry never issues a handle twice.
#[derive(Clone, Copy, Debug, PartialEq, Eq, Structural)]
pub struct ConnectionHandle {
    pub id: u64,
}

/// What `send_to` did with an envelope.
#[derive(Clone, Copy, Debug, PartialEq, Eq, Structural)]
pub enum SendOutcome {
    /// Queued on the recipient's current connection.
    Delivered,
    /// The recipient has no registered connection.
    NotConnected,
    /// The connection's backlog was full; the connection was evicted.
    SendFailed,
}

/// A live connection: its handle and the envelopes waiting to be written out.
pub struct Connection {
    handle: ConnectionHandle,
    backlog: Vec<OutgoingSocketMessage>,
}

/// The abstract state of one connection's outbound channel.
pub struct ChannelView {
    pub handle: ConnectionHandle,
    pub pending: Seq<OutgoingSocketMessage>,
}

/// The abstract state of a registry.
pub struct RegistryView {
    pub channels: Map<i32, ChannelView>,
    pub next_id: u64,
    pub max_backlog: usize,
}

impl RegistryView {
    /// Every handle in use was issued before `next_id`, and no backlog
    /// exceeds its bound.
    pub open spec fn wf(self) -> bool {
        forall|u: i32| #[trigger]
            self.channels.contains_key(u) ==> self.channels[u].handle.id < self.next_id
                && self.channels[u].pending.len() <= self.max_backlog
    }

    /// Whether a further handle can be issued.
    pub open spec fn can_issue(self) -> bool {
        self.next_id < u64::MAX
    }

    /// The handle that the next registration receives.
    pub open spec fn fresh_handle(self) -> ConnectionHandle {
        ConnectionHandle { id: self.next_id }
    }

    /// The state after `user_id` registered a new connection.
    pub open spec fn registered(self, user_id: i32) -> RegistryView {
        RegistryView {
            channels: self.channels.insert(
                user_id,
                ChannelView { handle: self.fresh_handle(), pending: Seq::empty() },
            ),
            next_id: (self.next_id + 1) as u64,
            max_backlog: self.max_backlog,
        }
    }

    /// Whether `handle` is the connection currently registered for `user_id`.
    pub open spec fn is_current(self, user_id: i32, handle: ConnectionHandle) -> bool {
        self.channels.contains_key(user_id) && self.channels[user_id].handle == handle
    }

    /// The state after `user_id` unregistered `handle`: only the current
    /// connection is removed.
    pub open spec fn unregistered(self, user_id: i32, handle: ConnectionHandle) -> RegistryView {
        if self.is_current(user_id, handle) {
            RegistryView { channels: self.channels.remove(user_id), ..self }
        } else {
            self
        }
    }

    /// The outcome of sending to `user_id`.
    pub open spec fn send_outcome(self, user_id: i32) -> SendOutcome {
        if !self.channels.contains_key(user_id) {
            SendOutcome::NotConnected
        } else if self.channels[user_id].pending.len() < self.max_backlog {
            SendOutcome::Delivered
        } else {
            SendOutcome::SendFailed
        }
    }

    /// The state after sending `m` to `user_id`.
    pub open spec fn sent(self, user_id: i32, m: OutgoingSocketMessage) -> RegistryView {
        match self.send_outcome(user_id) {
            SendOutcome::NotConnected => self,
            SendOutcome::Delivered => RegistryView {
                channels: self.channels.insert(
                    user_id,
                    ChannelView {
                        handle: self.channels[user_id].handle,
                        pending: self.channels[user_id].pending.push(m),
                    },
                ),
                ..self
            },
            SendOutcome::SendFailed => RegistryView {
                channels: self.channels.remove(user_id),
                ..self
            },
        }
    }

    /// What draining `handle`'s channel yields: its pending envelopes if it
    /// is current, nothing if it was superseded or removed.
    pub open spec fn drained(self, user_id: i32, handle: ConnectionHandle) -> Option<
        Seq<OutgoingSocketMessage>,
    > {
        if self.is_current(user_id, handle) {
            Some(self.channels[user_id].pending)
        } else {
            None
        }
    }

    /// The state after draining `handle`'s channel.
    pub open spec fn after_drain(self, user_id: i32, handle: ConnectionHandle) -> RegistryView {
        if self.is_current(user_id, handle) {
            RegistryView {
                channels: self.channels.insert(
                    user_id,
                    ChannelView { handle, pending: Seq::empty() },
                ),
                ..self
            }
        } else {
            self
        }
    }
}

/// The abstract channel of a connection.
pub closed spec fn channel_of(c: Connection) -> ChannelView {
    ChannelView { handle: c.handle, pending: c.backlog@ }
}

/// Map from user id to that user's one live connection, each with a
/// bounded outbound backlog.
pub struct ConnectionRegistry {
    connections: HashMap<i32, Connection>,
    next_id: u64,
    max_backlog: usize,
}

impl View for ConnectionRegistry {
    type V = RegistryView;

    closed spec fn view(&self) -> RegistryView {
        RegistryView {
            channels: self.connections@.map_values(|c: Connection| channel_of(c)),
            next_id: self.next_id,
            max_backlog: self.max_backlog,
        }
    }
}

impl ConnectionRegistry {
    /// An empty registry whose connections hold at most `max_backlog`
    /// undelivered envelopes each.
    pub fn new(max_backlog: usize) -> (r: ConnectionRegistry)
        ensures
            r@.wf(),
            r@.channels == Map::<i32, ChannelView>::empty(),
            r@.next_id == 0,
            r@.max_backlog == max_backlog,
    {
        let r = ConnectionRegistry { connections: HashMap::new(), next_id: 0, max_backlog };
        assert(r@.channels =~= Map::<i32, ChannelView>::empty());
        r
    }

    /// Installs a new connection for `user_id`, superseding any earlier
    /// one; `None` once handles are exhausted.
    pub fn register(&mut self, user_id: i32) -> (r: Option<ConnectionHandle>)
        requires
            old(self)@.wf(),
        ensures
            final(self)@.wf(),
            old(self)@.can_issue() ==> r == Some(old(self)@.fresh_handle()) && final(self)@
                == old(self)@.registered(user_id),
            !old(self)@.can_issue() ==> r is None && final(self)@ == old(self)@,
    {
        if self.next_id == u64::MAX {
            return None;
        }
        let handle = ConnectionHandle { id: self.next_id };
        let ghost before = self@;
        self.connections.insert(user_id, Connection { handle, backlog: Vec::new() });
        self.next_id = self.next_id + 1;
        assert(self@.channels =~= before.registered(user_id).channels);
        Some(handle)
    }

    /// Removes `user_id`'s connection, only if it is `handle`.
    pub fn unregister(&mut self, user_id: i32, handle: ConnectionHandle)
        requires
            old(self)@.wf(),
        ensures
            final(self)@.wf(),
            final(self)@ == old(self)@.unregistered(user_id, handle),
    {
        let current = match self.connections.get(&user_id) {
            Some(c) => c.handle == handle,
            None => false,
        };
        if current {
            let ghost before = self@;
            self.connections.remove(&user_id);
            assert(self@.channels =~= before.unregistered(user_id, handle).channels);
        }
    }

    /// Queues `m` on `user_id`'s connection; a connection whose backlog is
    /// full is presumed dead and evicted.
    pub fn send_to(&mut self, user_id: i32, m: OutgoingSocketMessage) -> (r: SendOutcome)
        requires
            old(self)@.wf(),
        ensures
            final(self)@.wf(),
            r == old(self)@.send_outcome(user_id),
            final(self)@ == old(self)@.sent(user_id, m),
    {
        let ghost before = self@;
        match self.connections.remove(&user_id) {
            None => {
                assert(self@.channels =~= before.channels);
                SendOutcome::NotConnected
            },
            Some(mut c) => {
                if c.backlog.len() < self.max_backlog {
                    c.backlog.push(m);
                    self.connections.insert(user_id, c);
                    assert(self@.channels =~= before.sent(user_id, m).channels);
                    SendOutcome::Delivered
                } else {
                    assert(self@.channels =~= before.sent(user_id, m).channels);
                    SendOutcome::SendFailed
                }
            },
        }
    }

    /// Hands the pending envelopes of `handle` to its network task and
    /// empties its backlog; `None` tells a superseded task to close.
    pub fn take_outbound(&mut self, user_id: i32, handle: ConnectionHandle) -> (r: Option<
        Vec<OutgoingSocketMessage>,
    >)
        requires
            old(self)@.wf(),
        ensures
            final(self)@.wf(),
            r matches Some(v) ==> old(self)@.drained(user_id, handle) == Some(v@),
            r is None ==> old(self)@.drained(user_id, handle) is None,
            final(self)@ == old(self)@.after_drain(user_id, handle),
    {
        let ghost before = self@;
        match self.connections.remove(&user_id) {
            None => {
                assert(self@.channels =~= before.channels);
                None
            },
            Some(c) => {
                if c.handle == handle {
                    self.connections.insert(user_id, Connection { handle, backlog: Vec::new() });
                    assert(self@.channels =~= before.after_drain(user_id, handle).channels);
                    Some(c.backlog)
                } else {
                    self.connections.insert(user_id, c);
                    assert(self@.channels =~= before.channels);
                    None
                }
            },
        }
    }

    /// Whether `handle` is `user_id`'s current connection.
    pub fn is_current(&self, user_id: i32, handle: ConnectionHandle) -> (r: bool)
        ensures
            r == self@.is_current(user_id, handle),
    {
        match self.connections.get(&user_id) {
            Some(c) => c.handle == handle,
            None => false,
        }
    }
}

} // verus!
