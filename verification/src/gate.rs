//! The session gate: one holder of the connection at a time.
//!
//! An operation takes an access from the session gate before it sends, keeps it
//! while it reads, and gives it back when its frames are drained or it gives
//! up. The session gate numbers the accesses it grants, so that an access given back
//! twice, or to another gate, opens nothing.

use vstd::prelude::*;

verus! {

/// The right to use the connection, as granted by a gate.
#[derive(Debug)]
pub struct ScopedAccess {
    ticket: u64,
}

impl ScopedAccess {
    /// The number that the session gate granted this access under.
    pub closed spec fn ticket(&self) -> nat {
        self.ticket as nat
    }
}

/// What a gate knows.
pub struct GateState {
    /// The number of the access that is out, if one is.
    pub holder: Option<nat>,
    /// How many accesses were granted so far; the next number to grant.
    pub issued: nat,
}

/// What happens at a gate.
pub enum GateEvent {
    /// An operation asks for access.
    Acquire,
    /// The access with this number is given back.
    Release(nat),
    /// The holder of the access with this number sends or reads.
    Use(nat),
}

impl GateState {
    /// A gate that nobody holds.
    pub open spec fn start() -> GateState {
        GateState { holder: None, issued: 0 }
    }

    /// Whether an access asked for now is granted: only while none is out.
    pub open spec fn grants(self) -> bool {
        self.holder is None
    }

    /// Whether the access with this number may send or read now: only the
    /// one that is out may.
    pub open spec fn permits(self, ticket: nat) -> bool {
        self.holder == Some(ticket)
    }

    /// The session gate after an event. A request is granted only while no access
    /// is out, under the next number; giving back opens the session gate only for
    /// the access that is out; sending and reading change nothing.
    pub open spec fn step(self, event: GateEvent) -> GateState {
        match event {
            GateEvent::Acquire => if self.grants() {
                GateState { holder: Some(self.issued), issued: self.issued + 1 }
            } else {
                self
            },
            GateEvent::Release(t) => if self.holder == Some(t) {
                GateState { holder: None, ..self }
            } else {
                self
            },
            GateEvent::Use(_) => self,
        }
    }
}

/// The session gate after a sequence of events.
pub open spec fn run_gate(events: Seq<GateEvent>) -> GateState
    decreases events.len(),
{
    if events.len() == 0 {
        GateState::start()
    } else {
        run_gate(events.drop_last()).step(events.last())
    }
}

/// The session gate after `n + 1` events is one step from the session gate after `n`.
pub proof fn lemma_gate_next(events: Seq<GateEvent>, n: int)
    requires
        0 <= n < events.len(),
    ensures
        run_gate(events.take(n + 1)) == run_gate(events.take(n)).step(events[n]),
{
    assert(events.take(n + 1).drop_last() =~= events.take(n));
}

/// The access that is out was granted earlier: its number is below the next
/// number to grant. So no number is granted twice.
pub proof fn lemma_holder_was_issued(events: Seq<GateEvent>)
    ensures
        match run_gate(events).holder {
            Some(t) => t < run_gate(events).issued,
            None => true,
        },
    decreases events.len(),
{
    if events.len() > 0 {
        lemma_holder_was_issued(events.drop_last());
    }
}

/// An access stays out until it is given back: from the event that grants
/// it until the first event that gives it back, it is the holder.
pub proof fn lemma_held_until_released(events: Seq<GateEvent>, i: int, j: int)
    requires
        0 <= i < j <= events.len(),
        events[i] is Acquire,
        run_gate(events.take(i)).grants(),
        forall|k: int|
            i < k < j ==> #[trigger] events[k] != GateEvent::Release(
                run_gate(events.take(i)).issued,
            ),
    ensures
        run_gate(events.take(j)).holder == Some(run_gate(events.take(i)).issued),
    decreases j - i,
{
    if j == i + 1 {
        lemma_gate_next(events, i);
    } else {
        lemma_held_until_released(events, i, j - 1);
        lemma_gate_next(events, j - 1);
        assert(events[j - 1] != GateEvent::Release(run_gate(events.take(i)).issued));
    }
}

/// No interleaving. Where one operation was granted access, and later
/// another operation sends or reads with the session gate's leave, the first has
/// given its access back in between.
pub proof fn lemma_no_interleaving(events: Seq<GateEvent>, i: int, j: int)
    requires
        0 <= i < j < events.len(),
        events[i] is Acquire,
        run_gate(events.take(i)).grants(),
        events[j] is Use,
        run_gate(events.take(j)).permits(events[j]->Use_0),
        events[j]->Use_0 != run_gate(events.take(i)).issued,
    ensures
        exists|k: int|
            i < k < j && #[trigger] events[k] == GateEvent::Release(
                run_gate(events.take(i)).issued,
            ),
{
    if forall|k: int|
        i < k < j ==> #[trigger] events[k] != GateEvent::Release(run_gate(events.take(i)).issued) {
        lemma_held_until_released(events, i, j);
    }
}

/// The session gate of one connection.
#[derive(Debug)]
pub struct SessionGate {
    holder: Option<u64>,
    issued: u64,
}

impl View for SessionGate {
    type V = GateState;

    closed spec fn view(&self) -> GateState {
        GateState {
            holder: match self.holder {
                Some(t) => Some(t as nat),
                None => None,
            },
            issued: self.issued as nat,
        }
    }
}

impl SessionGate {
    /// A gate that nobody holds.
    pub fn new() -> (r: Self)
        ensures
            r@ == GateState::start(),
    {
        SessionGate { holder: None, issued: 0 }
    }

    /// Whether an access is out.
    pub fn is_held(&self) -> (r: bool)
        ensures
            r == !self@.grants(),
    {
        self.holder.is_some()
    }

    /// Asks for access. It is granted exactly while no access is out (and
    /// the session gate has numbers left); the caller that gets `None` waits and
    /// asks again.
    pub fn try_acquire(&mut self) -> (r: Option<ScopedAccess>)
        ensures
            match r {
                Some(access) => old(self)@.grants() && access.ticket() == old(self)@.issued
                    && final(self)@ == old(self)@.step(GateEvent::Acquire),
                None => (!old(self)@.grants() || old(self)@.issued == u64::MAX) && final(self)@
                    == old(self)@,
            },
    {
        if self.holder.is_some() || self.issued == u64::MAX {
            return None;
        }
        let ticket = self.issued;
        self.holder = Some(ticket);
        self.issued = ticket + 1;
        Some(ScopedAccess { ticket })
    }

    /// Whether this access is the one that is out, and so may send and read.
    pub fn permits(&self, access: &ScopedAccess) -> (r: bool)
        ensures
            r == self@.permits(access.ticket()),
    {
        match self.holder {
            Some(t) => t == access.ticket,
            None => false,
        }
    }

    /// Takes an access back. The session gate opens if it is the one that is out;
    /// the answer says whether it was.
    pub fn release(&mut self, access: ScopedAccess) -> (r: bool)
        ensures
            final(self)@ == old(self)@.step(GateEvent::Release(access.ticket())),
            r == old(self)@.permits(access.ticket()),
    {
        if self.permits(&access) {
            self.holder = None;
            true
        } else {
            false
        }
    }
}

} // verus!
