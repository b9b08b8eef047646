use vstd::prelude::*;

verus! {

/// Identifier of a subscriber connection; never handed out twice.
pub type ConnectionId = u64;

/// Strictly increasing: sorted and free of duplicates.
pub open spec fn ascending(s: Seq<ConnectionId>) -> bool {
    forall|i: int, j: int| 0 <= i < j < s.len() ==> s[i] < s[j]
}

/// Bookkeeping of the live subscriber connections.
///
/// Identifiers are handed out in increasing order and kept sorted, so the
/// member list is determined by which identifiers it contains.
pub struct Registry {
    members: Vec<ConnectionId>,
    next_id: ConnectionId,
}

impl View for Registry {
    type V = Seq<ConnectionId>;

    closed spec fn view(&self) -> Seq<ConnectionId> {
        self.members@
    }
}

impl Registry {
    /// The identifier that the next registration receives.
    pub closed spec fn next(&self) -> nat {
        self.next_id as nat
    }

    /// Members are ascending and all below the next identifier, so an
    /// identifier that was removed is never seen again.
    pub open spec fn wf(&self) -> bool {
        &&& ascending(self@)
        &&& forall|i: int| 0 <= i < self@.len() ==> self@[i] < self.next()
    }

    /// An empty registry.
    pub fn new() -> (r: Registry)
        ensures
            r.wf(),
            r@ == Seq::<ConnectionId>::empty(),
            r.next() == 0,
    {
        Registry { members: Vec::new(), next_id: 0 }
    }

    /// Whether another identifier can still be handed out.
    pub fn can_register(&self) -> (r: bool)
        ensures
            r == (self.next() < u64::MAX),
    {
        self.next_id < u64::MAX
    }

    /// Adds a new connection and returns its fresh identifier.
    pub fn register(&mut self) -> (id: ConnectionId)
        requires
            old(self).wf(),
            old(self).next() < u64::MAX,
        ensures
            final(self).wf(),
            id == old(self).next(),
            !old(self)@.contains(id),
            final(self)@ == old(self)@.push(id),
            final(self).next() == old(self).next() + 1,
    {
        let id = self.next_id;
        self.members.push(id);
        self.next_id = id + 1;
        assert(!old(self)@.contains(id)) by {
            if old(self)@.contains(id) {
                let k = choose|k: int| 0 <= k < old(self)@.len() && old(self)@[k] == id;
                assert(old(self)@[k] < old(self).next());
            }
        }
        id
    }

    /// Removes the connection `id` if present; removing an absent
    /// identifier changes nothing.
    pub fn unregister(&mut self, id: ConnectionId)
        requires
            old(self).wf(),
        ensures
            final(self).wf(),
            final(self).next() == old(self).next(),
            forall|x: ConnectionId| #[trigger] final(self)@.contains(x) <==> (old(self)@.contains(x) && x != id),
            !old(self)@.contains(id) ==> final(self)@ == old(self)@,
    {
        let mut i: usize = 0;
        while i < self.members.len()
            invariant
                self == old(self),
                self.wf(),
                0 <= i <= self@.len(),
                forall|j: int| 0 <= j < i ==> self@[j] != id,
            decreases self.members.len() - i,
        {
            if self.members[i] == id {
                let ghost before = self@;
                self.members.remove(i);
                assert(self@ =~= before.remove(i as int));
                assert forall|x: ConnectionId| #[trigger] self@.contains(x) <==> (before.contains(x) && x != id) by {
                    if self@.contains(x) {
                        let k = choose|k: int| 0 <= k < self@.len() && self@[k] == x;
                        if k < i {
                            assert(before[k] == x);
                        } else {
                            assert(before[k + 1] == x);
                            assert(before[i as int] < before[k + 1]);
                        }
                    }
                    if before.contains(x) && x != id {
                        let k = choose|k: int| 0 <= k < before.len() && before[k] == x;
                        if k < i {
                            assert(self@[k] == x);
                        } else {
                            assert(k != i);
                            assert(self@[k - 1] == x);
                        }
                    }
                }
                return;
            }
            i += 1;
        }
        assert(!self@.contains(id));
    }

    /// Whether `id` is currently registered.
    pub fn contains(&self, id: ConnectionId) -> (r: bool)
        ensures
            r == self@.contains(id),
    {
        let mut i: usize = 0;
        while i < self.members.len()
            invariant
                0 <= i <= self@.len(),
                forall|j: int| 0 <= j < i ==> self@[j] != id,
            decreases self.members.len() - i,
        {
            if self.members[i] == id {
                return true;
            }
            i += 1;
        }
        false
    }

    /// Number of registered connections.
    pub fn len(&self) -> (r: usize)
        ensures
            r == self@.len(),
    {
        self.members.len()
    }

    /// An independent copy of the current members, in registration order.
    pub fn snapshot(&self) -> (r: Vec<ConnectionId>)
        ensures
            r@ == self@,
    {
        let mut out: Vec<ConnectionId> = Vec::new();
        let mut i: usize = 0;
        while i < self.members.len()
            invariant
                0 <= i <= self@.len(),
                out@ == self@.take(i as int),
            decreases self.members.len() - i,
        {
            out.push(self.members[i]);
            i += 1;
            assert(out@ =~= self@.take(i as int));
        }
        assert(self@.take(self@.len() as int) =~= self@);
        out
    }
}

} // verus!
