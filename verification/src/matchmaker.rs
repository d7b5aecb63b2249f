//! Matchmaking: the first two distinct sender addresses observed on the
//! endpoint claim the two player slots; everything after that is ignored.
use vstd::prelude::*;
use crate::Addr;

verus! {

/// The two player slots. A slot is `None` until claimed; once claimed it
/// never changes. The second slot is only ever claimed by an address that
/// differs from the first, so a complete matchmaker holds two distinct
/// addresses.
pub struct Matchmaker {
    pub p1: Option<Addr>,
    pub p2: Option<Addr>,
}

/// How one observed datagram sender changes the slots: it claims the first
/// empty slot, except that the sender already holding slot one never claims
/// slot two, and a complete matchmaker changes nothing.
pub open spec fn observe_spec(m: Matchmaker, src: Addr) -> Matchmaker {
    if m.p1 is None {
        Matchmaker { p1: Some(src), p2: m.p2 }
    } else if m.p2 is None && m.p1 != Some(src) {
        Matchmaker { p1: m.p1, p2: Some(src) }
    } else {
        m
    }
}

impl Matchmaker {
    /// Slot two is claimed only after slot one, and by a different address.
    pub open spec fn wf(self) -> bool {
        self.p2 is Some ==> self.p1 is Some && self.p1 != self.p2
    }

    /// Both slots are claimed.
    pub open spec fn complete(self) -> bool {
        self.p1 is Some && self.p2 is Some
    }

    /// A matchmaker with both slots empty.
    pub fn new() -> (m: Matchmaker)
        ensures
            m.p1 is None,
            m.p2 is None,
            m.wf(),
    {
        Matchmaker { p1: None, p2: None }
    }

    /// Record one observed sender address, claiming a slot if the rules
    /// allow it.
    pub fn observe(&mut self, src: Addr)
        ensures
            *final(self) == observe_spec(*old(self), src),
            old(self).wf() ==> final(self).wf(),
    {
        match self.p1 {
            None => {
                self.p1 = Some(src);
            },
            Some(a) => {
                if self.p2.is_none() && a != src {
                    self.p2 = Some(src);
                }
            },
        }
    }

    /// The two claimed addresses, in slot order, once matchmaking is
    /// complete; `None` while a slot is still empty.
    pub fn pair(&self) -> (r: Option<(Addr, Addr)>)
        ensures
            r == (if self.complete() {
                Some((self.p1->Some_0, self.p2->Some_0))
            } else {
                None::<(Addr, Addr)>
            }),
    {
        match (self.p1, self.p2) {
            (Some(a), Some(b)) => Some((a, b)),
            _ => None,
        }
    }
}

/// Once both slots are claimed, no later sender is ever assigned a slot.
pub proof fn lemma_complete_is_frozen(m: Matchmaker, src: Addr)
    requires
        m.complete(),
    ensures
        observe_spec(m, src) == m,
{
}

/// Matchmaker law: senders observed in the order A, A, B, C (with A and B
/// distinct) fill the slots with exactly A and B; C is never assigned.
pub proof fn lemma_first_two_distinct_claim_slots(a: Addr, b: Addr, c: Addr)
    requires
        a != b,
    ensures
        ({
            let m0 = Matchmaker { p1: None, p2: None };
            let m = observe_spec(observe_spec(observe_spec(observe_spec(m0, a), a), b), c);
            m.p1 == Some(a) && m.p2 == Some(b)
        }),
{
}

} // verus!
