//! The relay server's accept-side bookkeeping: one counter, owned by the
//! accept loop alone, hands every connection a fresh identifier — strictly
//! increasing from zero, never reused, and never equal to the system id.

use vstd::prelude::*;
use crate::handler::Handler;
use crate::message::SYSTEM_ID;

verus! {

/// The accept loop's state. No lock is needed: only the single accept loop
/// ever touches it, and each spawned handler gets its id by copy.
pub struct Relay {
    pub next_id: usize,
}

impl Relay {
    /// The identifiers handed out so far.
    pub open spec fn issued(&self) -> Set<int> {
        Set::new(|i: int| 0 <= i < self.next_id)
    }

    /// A relay that has accepted nothing yet: the first id will be 0.
    pub fn new() -> (r: Relay)
        ensures
            r.next_id == 0,
            r.issued() == Set::<int>::empty(),
    {
        let r = Relay { next_id: 0 };
        proof {
            assert(r.issued() =~= Set::<int>::empty());
        }
        r
    }

    /// Take in one connection: a fresh handler under a fresh identifier,
    /// one never issued before and below the system id, ready for its
    /// handshake.
    pub fn accept(&mut self) -> (h: Handler)
        requires
            old(self).next_id < usize::MAX,
        ensures
            h@.id == old(self).next_id as int,
            h@.name == Seq::<char>::empty(),
            h@.state is Handshaking,
            h@.id != SYSTEM_ID as int,
            !old(self).issued().contains(h@.id),
            final(self).next_id == old(self).next_id + 1,
            final(self).issued() == old(self).issued().insert(h@.id),
    {
        let id = self.next_id;
        self.next_id = self.next_id + 1;
        proof {
            assert(self.issued() =~= old(self).issued().insert(id as int));
        }
        Handler::new(id)
    }
}

/// No reuse: every identifier ever issued is below the counter, so whatever
/// the relay hands out next differs from everything it handed out before.
pub proof fn lemma_ids_never_reused(r: Relay, i: int)
    requires
        r.issued().contains(i),
    ensures
        i < r.next_id,
{
}

} // verus!
