use vstd::prelude::*;

use crate::frame::{notification_frame, notification_of};
use crate::registry::{ConnectionId, Registry};

verus! {

/// Failures of the push and read paths that reach their caller.
#[derive(Debug, PartialEq, Eq, Structural, Clone, Copy)]
pub enum LogError {
    /// The backing store could not be reached.
    StoreUnavailable,
    /// No message exists at the requested index.
    IndexOutOfRange,
    /// The last message was asked for, but the log is empty.
    EmptyLog,
    /// The store answered an append with a length that no append can
    /// produce: the store broke its contract.
    BadReply,
}

/// The store could not be reached; handed in by the caller that talked to it.
#[derive(Debug, PartialEq, Eq, Structural, Clone, Copy)]
pub struct StoreFault;

/// Position that the store reads as "the last element".
pub const LAST_POSITION: i64 = -1;

/// The store's answer to an append is the length of the log after it, so
/// the new message sits one below.
pub open spec fn index_of_length(len: int) -> Result<nat, LogError> {
    if len >= 1 {
        Ok((len - 1) as nat)
    } else {
        Err(LogError::BadReply)
    }
}

/// What a push yields for the store's answer to the append.
pub open spec fn push_result(reply: Result<i64, StoreFault>) -> Result<nat, LogError> {
    match reply {
        Err(_) => Err(LogError::StoreUnavailable),
        Ok(len) => index_of_length(len as int),
    }
}

/// What a read yields for the store's answer; `last` tells a read of the
/// last message from a read by index.
pub open spec fn read_result(reply: Result<Option<Seq<char>>, StoreFault>, last: bool) -> Result<
    Seq<char>,
    LogError,
> {
    match reply {
        Err(_) => Err(LogError::StoreUnavailable),
        Ok(None) => if last {
            Err(LogError::EmptyLog)
        } else {
            Err(LogError::IndexOutOfRange)
        },
        Ok(Some(p)) => Ok(p),
    }
}

/// The store position that holds the message at `index`, where the store can
/// address it.
pub open spec fn position(index: nat) -> Option<int> {
    if index <= i64::MAX {
        Some(index as int)
    } else {
        None
    }
}

/// The store's element read on a log holding `log`: a non-negative position
/// counts from the front, a negative one from the back.
pub open spec fn element_at(log: Seq<Seq<char>>, pos: int) -> Option<Seq<char>> {
    if 0 <= pos < log.len() {
        Some(log[pos])
    } else if -log.len() <= pos < 0 {
        Some(log[log.len() + pos])
    } else {
        None
    }
}

/// What `get(index)` yields on a log holding `log`.
pub open spec fn get_on(log: Seq<Seq<char>>, index: nat) -> Result<Seq<char>, LogError> {
    match position(index) {
        None => Err(LogError::IndexOutOfRange),
        Some(pos) => read_result(Ok(element_at(log, pos)), false),
    }
}

/// What `get_last()` yields on a log holding `log`.
pub open spec fn get_last_on(log: Seq<Seq<char>>) -> Result<Seq<char>, LogError> {
    read_result(Ok(element_at(log, LAST_POSITION as int)), true)
}

/// The index that a push on a log holding `log` returns.
pub open spec fn push_on(log: Seq<Seq<char>>, payload: Seq<char>) -> Result<nat, LogError> {
    index_of_length(log.push(payload).len() as int)
}

/// One round of fan-out after a successful append.
pub struct Broadcast {
    /// Index of the appended message.
    pub index: u64,
    /// The notification bytes sent to every target.
    pub frame: Vec<u8>,
    /// The members of the registry when the round began.
    pub targets: Vec<ConnectionId>,
}

/// Orchestrates the push path: turns the store's answers into a result and a
/// round of notifications, and prunes the connections that failed.
pub struct Relay {
    registry: Registry,
}

impl Relay {
    /// The registry of live connections.
    pub closed spec fn registry(&self) -> Registry {
        self.registry
    }

    pub open spec fn wf(&self) -> bool {
        self.registry().wf()
    }

    /// A relay with no connections.
    pub fn new() -> (r: Relay)
        ensures
            r.wf(),
            r.registry()@ == Seq::<ConnectionId>::empty(),
            r.registry().next() == 0,
    {
        Relay { registry: Registry::new() }
    }

    /// Whether another connection can still be registered.
    pub fn can_register(&self) -> (r: bool)
        ensures
            r == (self.registry().next() < u64::MAX),
    {
        self.registry.can_register()
    }

    /// Registers a new connection and returns its identifier.
    pub fn register_connection(&mut self) -> (id: ConnectionId)
        requires
            old(self).wf(),
            old(self).registry().next() < u64::MAX,
        ensures
            final(self).wf(),
            id == old(self).registry().next(),
            !old(self).registry()@.contains(id),
            final(self).registry()@ == old(self).registry()@.push(id),
            final(self).registry().next() == old(self).registry().next() + 1,
    {
        self.registry.register()
    }

    /// Removes a connection; a no-op where it is absent.
    pub fn unregister_connection(&mut self, id: ConnectionId)
        requires
            old(self).wf(),
        ensures
            final(self).wf(),
            final(self).registry().next() == old(self).registry().next(),
            forall|x: ConnectionId| #[trigger] final(self).registry()@.contains(x) <==> (old(
                self,
            ).registry()@.contains(x) && x != id),
    {
        self.registry.unregister(id)
    }

    /// Whether `id` is registered.
    pub fn is_registered(&self, id: ConnectionId) -> (r: bool)
        ensures
            r == self.registry()@.contains(id),
    {
        self.registry.contains(id)
    }

    /// The current members, in registration order.
    pub fn members(&self) -> (r: Vec<ConnectionId>)
        ensures
            r@ == self.registry()@,
    {
        self.registry.snapshot()
    }

    /// First half of a push, given the store's answer to the append: the
    /// error to return, or the round of notifications to send, addressed to
    /// a snapshot of the registry.
    pub fn begin_push(&self, reply: Result<i64, StoreFault>) -> (r: Result<Broadcast, LogError>)
        ensures
            match push_result(reply) {
                Ok(i) => r is Ok && r->Ok_0.index == i && r->Ok_0.frame@ == notification_of(i)
                    && r->Ok_0.targets@ == self.registry()@,
                Err(e) => r is Err && r->Err_0 == e,
            },
    {
        match reply {
            Err(_) => Err(LogError::StoreUnavailable),
            Ok(len) => {
                if len >= 1 {
                    let index = (len - 1) as u64;
                    Ok(Broadcast {
                        index,
                        frame: notification_frame(index),
                        targets: self.registry.snapshot(),
                    })
                } else {
                    Err(LogError::BadReply)
                }
            },
        }
    }

    /// Second half of a push: drops every connection whose delivery failed
    /// and returns the new index, however many deliveries failed.
    pub fn finish_push(&mut self, round: &Broadcast, failed: &Vec<ConnectionId>) -> (r: u64)
        requires
            old(self).wf(),
        ensures
            r == round.index,
            final(self).wf(),
            final(self).registry().next() == old(self).registry().next(),
            forall|x: ConnectionId| #[trigger] final(self).registry()@.contains(x) <==> (old(
                self,
            ).registry()@.contains(x) && !failed@.contains(x)),
    {
        let mut i: usize = 0;
        while i < failed.len()
            invariant
                self.wf(),
                0 <= i <= failed@.len(),
                self.registry().next() == old(self).registry().next(),
                forall|x: ConnectionId| #[trigger] self.registry()@.contains(x) <==> (old(
                    self,
                ).registry()@.contains(x) && !failed@.take(i as int).contains(x)),
            decreases failed.len() - i,
        {
            let ghost before = self.registry()@;
            self.registry.unregister(failed[i]);
            assert forall|x: ConnectionId| #[trigger] self.registry()@.contains(x) <==> (old(
                self,
            ).registry()@.contains(x) && !failed@.take(i + 1).contains(x)) by {
                let prefix = failed@.take(i as int);
                assert(failed@.take(i + 1) =~= prefix.push(failed@[i as int]));
                assert(prefix.push(failed@[i as int]).contains(x) <==> (prefix.contains(x) || x
                    == failed@[i as int])) by {
                    if prefix.push(failed@[i as int]).contains(x) && x != failed@[i as int] {
                        let k = choose|k: int|
                            0 <= k < prefix.len() + 1 && prefix.push(failed@[i as int])[k] == x;
                        assert(prefix[k] == x);
                    }
                    if prefix.contains(x) {
                        let k = choose|k: int| 0 <= k < prefix.len() && prefix[k] == x;
                        assert(prefix.push(failed@[i as int])[k] == x);
                    }
                    if x == failed@[i as int] {
                        assert(prefix.push(failed@[i as int])[prefix.len() as int] == x);
                    }
                }
                assert(before.contains(x) <==> (old(self).registry()@.contains(x)
                    && !failed@.take(i as int).contains(x)));
            }
            i += 1;
        }
        assert(failed@.take(failed@.len() as int) =~= failed@);
        round.index
    }
}

/// The store position to read for the message at `index`, or the error where
/// the store cannot address it, so that no message can sit there.
pub fn position_of(index: u64) -> (r: Result<i64, LogError>)
    ensures
        match position(index as nat) {
            Some(p) => r == Ok::<i64, LogError>(p as i64),
            None => r == Err::<i64, LogError>(LogError::IndexOutOfRange),
        },
{
    if index <= i64::MAX as u64 {
        Ok(index as i64)
    } else {
        Err(LogError::IndexOutOfRange)
    }
}

/// Turns the store's answer to a read into the read's result.
pub fn read_outcome(reply: Result<Option<String>, StoreFault>, last: bool) -> (r: Result<
    String,
    LogError,
>)
    ensures
        match reply {
            Err(_) => r == Err::<String, LogError>(LogError::StoreUnavailable),
            Ok(None) => r == Err::<String, LogError>(
                if last {
                    LogError::EmptyLog
                } else {
                    LogError::IndexOutOfRange
                },
            ),
            Ok(Some(p)) => r is Ok && r->Ok_0@ == p@,
        },
{
    match reply {
        Err(_) => Err(LogError::StoreUnavailable),
        Ok(None) => if last {
            Err(LogError::EmptyLog)
        } else {
            Err(LogError::IndexOutOfRange)
        },
        Ok(Some(p)) => Ok(p),
    }
}

} // verus!
