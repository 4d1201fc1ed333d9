//! The acceptor: sequential accepts and session identifiers.
//!
//! The acceptor binds the listen address once, then accepts inbound
//! connections one at a time, forever. Each accepted connection gets
//! an identifier: the first is 1, and every accept — whether or not
//! its session later establishes — advances the counter by exactly
//! one. The counter is owned by the acceptor's own flow of execution
//! alone, so no synchronisation is needed. Identifiers are therefore
//! unique for the life of the process and strictly increasing in
//! acceptance order.

use vstd::prelude::*;

verus! {

/// The id sequence that `n` accepted connections receive: 1 up to `n`.
pub open spec fn ids_up_to(n: nat) -> Seq<u64> {
    Seq::new(n, |i: int| (i + 1) as u64)
}

/// The acceptor's identifier counter, with the ghost history of every
/// id it has issued.
pub struct Acceptor {
    /// The id the next accepted connection will receive.
    next_id: u64,
    /// Every id issued so far, in acceptance order.
    issued: Ghost<Seq<u64>>,
}

impl Acceptor {
    /// The counter is exactly one ahead of the ids issued so far:
    /// after `n` accepts the history is `1, 2, …, n` and the next id
    /// is `n + 1`.
    pub closed spec fn wf(self) -> bool {
        &&& self.next_id >= 1
        &&& self.issued@ == ids_up_to((self.next_id - 1) as nat)
    }

    /// How many connections have been accepted so far.
    pub closed spec fn accepted(self) -> nat {
        self.issued@.len()
    }

    /// The ids issued so far, in acceptance order.
    pub closed spec fn issued_ids(self) -> Seq<u64> {
        self.issued@
    }

    /// A fresh acceptor: nothing accepted yet, the first id will be 1.
    pub fn new() -> (a: Acceptor)
        ensures
            a.wf(),
            a.accepted() == 0,
            a.issued_ids() == Seq::<u64>::empty(),
    {
        let a = Acceptor { next_id: 1, issued: Ghost(Seq::empty()) };
        proof {
            assert(a.issued@ =~= ids_up_to(0));
        }
        a
    }

    /// Whether another id can still be issued. The counter spans the
    /// whole process lifetime, so in practice this never turns false;
    /// the driver checks it before each accept all the same.
    pub fn can_accept(&self) -> (r: bool)
        requires
            self.wf(),
        ensures
            r == (self.accepted() < u64::MAX - 1),
    {
        self.next_id < u64::MAX
    }

    /// Takes the id for the connection that was just accepted and
    /// advances the counter by one, unconditionally: a session that
    /// later fails to establish still used up its id.
    pub fn accept_id(&mut self) -> (id: u64)
        requires
            old(self).wf(),
            old(self).accepted() < u64::MAX - 1,
        ensures
            final(self).wf(),
            id == old(self).accepted() + 1,
            final(self).accepted() == old(self).accepted() + 1,
            final(self).issued_ids() == old(self).issued_ids().push(id),
    {
        let id = self.next_id;
        self.next_id = self.next_id + 1;
        self.issued = Ghost(self.issued@.push(id));
        proof {
            assert(self.issued@ =~= ids_up_to((self.next_id - 1) as nat));
        }
        id
    }
}

/// Identifiers start at 1, are strictly increasing in acceptance
/// order — each accept's id is exactly one more than the previous —
/// and hence unique for the life of the process.
pub proof fn lemma_ids_unique_and_increasing(a: Acceptor)
    requires
        a.wf(),
    ensures
        a.issued_ids() == ids_up_to(a.accepted()),
        forall|i: int| 0 <= i < a.issued_ids().len() ==> #[trigger] a.issued_ids()[i] == i + 1,
        forall|i: int, j: int|
            0 <= i < j < a.issued_ids().len() ==> #[trigger] a.issued_ids()[i]
                < #[trigger] a.issued_ids()[j],
        forall|i: int, j: int|
            0 <= i < a.issued_ids().len() && 0 <= j < a.issued_ids().len() && i != j
                ==> #[trigger] a.issued_ids()[i] != #[trigger] a.issued_ids()[j],
{
}

} // verus!
