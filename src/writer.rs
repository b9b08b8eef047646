use vstd::prelude::*;

verus! {

/// Lifecycle of a subscriber connection; it only moves forward.
#[derive(Debug, PartialEq, Eq, Structural, Clone, Copy)]
pub enum ConnectionState {
    Connecting,
    Active,
    Closing,
    Closed,
}

/// Position of a state in the lifecycle.
pub open spec fn stage(s: ConnectionState) -> nat {
    match s {
        ConnectionState::Connecting => 0,
        ConnectionState::Active => 1,
        ConnectionState::Closing => 2,
        ConnectionState::Closed => 3,
    }
}

/// The single writer of one connection's outbound stream: notifications
/// queued here leave in the order they were queued, one at a time, and the
/// first failed send ends the connection.
pub struct ConnectionWriter {
    state: ConnectionState,
    pending: Vec<u64>,
}

impl ConnectionWriter {
    pub closed spec fn state(&self) -> ConnectionState {
        self.state
    }

    /// Indices waiting to be sent, oldest first.
    pub closed spec fn pending(&self) -> Seq<u64> {
        self.pending@
    }

    /// Only an active connection holds unsent notifications.
    pub open spec fn wf(&self) -> bool {
        self.state() != ConnectionState::Active ==> self.pending().len() == 0
    }

    /// A writer for a connection whose handshake is under way.
    pub fn new() -> (w: ConnectionWriter)
        ensures
            w.wf(),
            w.state() == ConnectionState::Connecting,
            w.pending() == Seq::<u64>::empty(),
    {
        ConnectionWriter { state: ConnectionState::Connecting, pending: Vec::new() }
    }

    /// The current lifecycle state.
    pub fn current_state(&self) -> (r: ConnectionState)
        ensures
            r == self.state(),
    {
        self.state
    }

    /// The handshake completed: a connecting writer becomes active; any
    /// other state stays.
    pub fn activate(&mut self)
        requires
            old(self).wf(),
        ensures
            final(self).wf(),
            final(self).pending() == old(self).pending(),
            final(self).state() == (if old(self).state() == ConnectionState::Connecting {
                ConnectionState::Active
            } else {
                old(self).state()
            }),
    {
        if let ConnectionState::Connecting = self.state {
            self.state = ConnectionState::Active;
        }
    }

    /// Queues the notification for `index`; only an active connection takes
    /// it. Returns whether it was queued.
    pub fn enqueue(&mut self, index: u64) -> (queued: bool)
        requires
            old(self).wf(),
        ensures
            final(self).wf(),
            queued == (old(self).state() == ConnectionState::Active),
            final(self).state() == old(self).state(),
            final(self).pending() == (if queued {
                old(self).pending().push(index)
            } else {
                old(self).pending()
            }),
    {
        if let ConnectionState::Active = self.state {
            self.pending.push(index);
            true
        } else {
            false
        }
    }

    /// The oldest unsent notification, if any.
    pub fn next_to_send(&self) -> (r: Option<u64>)
        ensures
            self.pending().len() == 0 ==> r is None,
            self.pending().len() > 0 ==> r == Some(self.pending()[0]),
    {
        if self.pending.len() == 0 {
            None
        } else {
            Some(self.pending[0])
        }
    }

    /// Reports how sending the oldest notification went. A success removes
    /// it from the queue; a failure or a timeout moves the connection to
    /// `Closing` and drops the rest of the queue, since nothing more can
    /// reach it. Returns whether the connection is still usable.
    pub fn report(&mut self, delivered: bool) -> (usable: bool)
        requires
            old(self).wf(),
        ensures
            final(self).wf(),
            stage(final(self).state()) >= stage(old(self).state()),
            usable == (final(self).state() == ConnectionState::Active),
            delivered && old(self).state() == ConnectionState::Active ==> final(self).state()
                == ConnectionState::Active && final(self).pending() == (if old(
                self,
            ).pending().len() > 0 {
                old(self).pending().drop_first()
            } else {
                old(self).pending()
            }),
            !delivered && old(self).state() == ConnectionState::Active ==> final(self).state()
                == ConnectionState::Closing,
            old(self).state() != ConnectionState::Active ==> final(self).state() == old(
                self,
            ).state(),
    {
        if let ConnectionState::Active = self.state {
            if delivered {
                if self.pending.len() > 0 {
                    self.pending.remove(0);
                }
                true
            } else {
                self.state = ConnectionState::Closing;
                self.pending = Vec::new();
                false
            }
        } else {
            false
        }
    }

    /// The transport reported that it closed: an open connection starts
    /// closing and drops what it had queued.
    pub fn transport_closed(&mut self)
        requires
            old(self).wf(),
        ensures
            final(self).wf(),
            final(self).state() == (match old(self).state() {
                ConnectionState::Connecting | ConnectionState::Active => ConnectionState::Closing,
                s => s,
            }),
            stage(final(self).state()) >= stage(old(self).state()),
    {
        match self.state {
            ConnectionState::Connecting | ConnectionState::Active => {
                self.state = ConnectionState::Closing;
                self.pending = Vec::new();
            },
            _ => {},
        }
    }

    /// Cleanup finished: a closing connection becomes closed for good.
    pub fn finish_close(&mut self)
        requires
            old(self).wf(),
        ensures
            final(self).wf(),
            final(self).pending() == old(self).pending(),
            final(self).state() == (if old(self).state() == ConnectionState::Closing {
                ConnectionState::Closed
            } else {
                old(self).state()
            }),
    {
        if let ConnectionState::Closing = self.state {
            self.state = ConnectionState::Closed;
        }
    }
}

} // verus!
