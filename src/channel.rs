//! The well-known coordination address, modelled as a named resource that at
//! most one process can hold. Binding succeeds only on a free address; an
//! address left behind by a killed server is stale until cleared.
use vstd::prelude::*;

verus! {

/// What stands at the address.
#[derive(Debug, Clone, Copy, PartialEq, Eq, Structural)]
pub enum Entry {
    /// Nothing: a bind succeeds.
    Absent,
    /// A live listener, held by the process with this id.
    Listening(u64),
    /// Left behind by a listener that is gone: nobody answers, and a bind fails
    /// until the entry is cleared.
    Stale,
}

/// The entry after clearing a stale one; a live listener is left alone.
pub open spec fn cleared(e: Entry) -> Entry {
    match e {
        Entry::Stale => Entry::Absent,
        _ => e,
    }
}

/// The entry after a bind by `pid`, and whether the bind succeeded.
pub open spec fn bound(e: Entry, pid: u64) -> (Entry, bool) {
    match e {
        Entry::Absent => (Entry::Listening(pid), true),
        _ => (e, false),
    }
}

/// The entry after `pid` gives up its listener.
pub open spec fn released(e: Entry, pid: u64) -> Entry {
    if e == Entry::Listening(pid) {
        Entry::Absent
    } else {
        e
    }
}

/// The entry after its listener was killed without cleaning up.
pub open spec fn abandoned(e: Entry) -> Entry {
    match e {
        Entry::Listening(_) => Entry::Stale,
        _ => e,
    }
}

/// The coordination address.
#[derive(Debug, Clone, Copy, PartialEq, Eq, Structural)]
pub struct ChannelAddress {
    pub entry: Entry,
}

impl ChannelAddress {
    /// A free address.
    pub fn new() -> (r: Self)
        ensures
            r.entry == Entry::Absent,
    {
        ChannelAddress { entry: Entry::Absent }
    }

    /// Whether a client reaches a server here.
    pub fn connect(&self) -> (r: bool)
        ensures
            r == self.entry is Listening,
    {
        match self.entry {
            Entry::Listening(_) => true,
            _ => false,
        }
    }

    /// Removes a stale entry.
    pub fn clear_stale(&mut self)
        ensures
            final(self).entry == cleared(old(self).entry),
    {
        if let Entry::Stale = self.entry {
            self.entry = Entry::Absent;
        }
    }

    /// Binds a listener for `pid`; fails on an address that is not free.
    pub fn bind(&mut self, pid: u64) -> (r: bool)
        ensures
            (final(self).entry, r) == bound(old(self).entry, pid),
    {
        match self.entry {
            Entry::Absent => {
                self.entry = Entry::Listening(pid);
                true
            },
            _ => false,
        }
    }

    /// Clears a stale entry, then binds for `pid`.
    pub fn claim(&mut self, pid: u64) -> (r: bool)
        ensures
            (final(self).entry, r) == bound(cleared(old(self).entry), pid),
    {
        self.clear_stale();
        self.bind(pid)
    }

    /// Removes the listener of `pid`, if it holds the address.
    pub fn release(&mut self, pid: u64)
        ensures
            final(self).entry == released(old(self).entry, pid),
    {
        if self.entry == Entry::Listening(pid) {
            self.entry = Entry::Absent;
        }
    }

    /// The listener's process was killed: its entry stays behind, stale.
    pub fn abandon(&mut self)
        ensures
            final(self).entry == abandoned(old(self).entry),
    {
        if let Entry::Listening(_) = self.entry {
            self.entry = Entry::Stale;
        }
    }
}

/// One step of a process trying to become the server.
#[derive(Debug, Clone, Copy, PartialEq, Eq, Structural)]
pub enum ChannelOp {
    ClearStale,
    Bind(u64),
}

/// The entry after one step, and whether it was a bind that succeeded.
pub open spec fn op_step(e: Entry, op: ChannelOp) -> (Entry, bool) {
    match op {
        ChannelOp::ClearStale => (cleared(e), false),
        ChannelOp::Bind(pid) => bound(e, pid),
    }
}

/// How many binds succeed when the steps run in this order.
pub open spec fn wins(e: Entry, ops: Seq<ChannelOp>) -> nat
    decreases ops.len(),
{
    if ops.len() == 0 {
        0
    } else {
        let (next, won) = op_step(e, ops[0]);
        (if won { 1nat } else { 0nat }) + wins(next, ops.drop_first())
    }
}

/// Some step is a bind.
pub open spec fn has_bind(ops: Seq<ChannelOp>) -> bool {
    exists|i: int| 0 <= i < ops.len() && #[trigger] ops[i] is Bind
}

proof fn lemma_held_address_refuses(e: Entry, ops: Seq<ChannelOp>)
    requires
        e is Listening,
    ensures
        wins(e, ops) == 0,
    decreases ops.len(),
{
    if ops.len() > 0 {
        lemma_held_address_refuses(op_step(e, ops[0]).0, ops.drop_first());
    }
}

proof fn lemma_free_address_one_winner(e: Entry, ops: Seq<ChannelOp>)
    requires
        e is Absent,
        has_bind(ops),
    ensures
        wins(e, ops) == 1,
    decreases ops.len(),
{
    let (next, won) = op_step(e, ops[0]);
    match ops[0] {
        ChannelOp::ClearStale => {
            let i = choose|i: int| 0 <= i < ops.len() && #[trigger] ops[i] is Bind;
            assert(ops.drop_first()[i - 1] is Bind);
            lemma_free_address_one_winner(next, ops.drop_first());
        },
        ChannelOp::Bind(_) => {
            lemma_held_address_refuses(next, ops.drop_first());
        },
    }
}

/// However the clear and bind steps of racing processes interleave, exactly one
/// bind succeeds, provided nobody holds the address and a stale entry, if any, is
/// cleared before the first bind (every racer clears before it binds, so the
/// first step of any interleaving is a clear).
///
/// A clear is one atomic step that removes a stale entry and never a live one.
/// Where the platform can only test for a listener and then remove the entry, in
/// two steps, a racer may remove a listener that bound in between; this lemma
/// does not cover that.
pub proof fn lemma_exactly_one_server(e: Entry, ops: Seq<ChannelOp>)
    requires
        !(e is Listening),
        e is Absent || (ops.len() > 0 && ops[0] is ClearStale),
        has_bind(ops),
    ensures
        wins(e, ops) == 1,
{
    if e is Absent {
        lemma_free_address_one_winner(e, ops);
    } else {
        let i = choose|i: int| 0 <= i < ops.len() && #[trigger] ops[i] is Bind;
        assert(ops.drop_first()[i - 1] is Bind);
        lemma_free_address_one_winner(Entry::Absent, ops.drop_first());
    }
}

/// A server killed without cleanup leaves an address that no client reaches
/// and that the next process claims.
pub proof fn lemma_stale_address_reclaimed(e: Entry, pid: u64)
    requires
        e is Listening,
    ensures
        !(abandoned(e) is Listening),
        bound(cleared(abandoned(e)), pid) == (Entry::Listening(pid), true),
{
}

} // verus!
