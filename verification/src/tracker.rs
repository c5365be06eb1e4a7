//! Local tracking of delivered messages through their acknowledgement
//! lifecycle.
//!
//! Each pulled message enters as a live delivery with its ack identifier
//! and deadline. Before the deadline the caller either acknowledges it
//! (terminal), extends the deadline, or lets it lapse — a lapsed delivery
//! is eligible for redelivery on a future pull, which enters a fresh
//! delivery with the grown attempt count. Acknowledging an identifier that
//! is unknown or already settled changes nothing: acknowledgement is
//! idempotent.

use vstd::prelude::*;
use crate::message::EncodedMessage;

verus! {

/// One delivery of one message: its ack identifier, the deadline by which
/// it must be settled, the delivery-attempt count reported with it, and
/// whether it has been acknowledged.
#[derive(Debug, PartialEq, Eq)]
pub struct Delivery {
    pub ack_id: String,
    pub deadline: u64,
    pub attempt: u64,
    pub acked: bool,
}

/// The per-subscription delivery ledger.
#[derive(Debug)]
pub struct AckTracker {
    pub entries: Vec<Delivery>,
}

/// The delivery a freshly pulled message enters as: live, at the given
/// deadline, with the attempt count the service reported.
pub open spec fn spec_delivery_of(m: EncodedMessage, deadline: u64) -> Delivery {
    Delivery { ack_id: m.ack_id, deadline, attempt: m.attempt, acked: false }
}

/// One entry after an acknowledgement of `id`: settled if it carries that
/// identifier, untouched otherwise.
pub open spec fn spec_ack_one(d: Delivery, id: Seq<char>) -> Delivery {
    if d.ack_id@ == id {
        Delivery { ack_id: d.ack_id, deadline: d.deadline, attempt: d.attempt, acked: true }
    } else {
        d
    }
}

/// The whole ledger after an acknowledgement of `id`.
pub open spec fn spec_ack_entries(s: Seq<Delivery>, id: Seq<char>) -> Seq<Delivery> {
    s.map_values(|d: Delivery| spec_ack_one(d, id))
}

/// One entry after a deadline extension of `id`: moved to the new deadline
/// if it is the live delivery of that identifier, untouched otherwise.
pub open spec fn spec_extend_one(d: Delivery, id: Seq<char>, deadline: u64) -> Delivery {
    if d.ack_id@ == id && !d.acked {
        Delivery { ack_id: d.ack_id, deadline, attempt: d.attempt, acked: false }
    } else {
        d
    }
}

/// The whole ledger after a deadline extension of `id`.
pub open spec fn spec_extend_entries(s: Seq<Delivery>, id: Seq<char>, deadline: u64) -> Seq<
    Delivery,
> {
    s.map_values(|d: Delivery| spec_extend_one(d, id, deadline))
}

/// Whether the ledger holds a live (not yet acknowledged) delivery of `id`.
pub open spec fn spec_has_live(s: Seq<Delivery>, id: Seq<char>) -> bool {
    exists|j: int| 0 <= j < s.len() && s[j].ack_id@ == id && !s[j].acked
}

/// The identifiers of the lapsed live deliveries, in ledger order.
pub open spec fn spec_expired_ids(s: Seq<Delivery>, now: u64) -> Seq<Seq<char>>
    decreases s.len(),
{
    if s.len() == 0 {
        Seq::empty()
    } else {
        let rest = spec_expired_ids(s.drop_last(), now);
        if !s.last().acked && s.last().deadline < now {
            rest.push(s.last().ack_id@)
        } else {
            rest
        }
    }
}

impl AckTracker {
    /// An empty ledger.
    pub fn new() -> (r: AckTracker)
        ensures
            r.entries@ == Seq::<Delivery>::empty(),
    {
        AckTracker { entries: Vec::new() }
    }

    /// Enter every message of one pull as a live delivery with the given
    /// deadline, in delivery order.
    pub fn track_pulled(&mut self, messages: &Vec<EncodedMessage>, deadline: u64)
        ensures
            final(self).entries@ == old(self).entries@ + messages@.map_values(
                |m: EncodedMessage| spec_delivery_of(m, deadline),
            ),
    {
        let mut i: usize = 0;
        while i < messages.len()
            invariant
                i <= messages.len(),
                self.entries@ == old(self).entries@ + messages@.subrange(0, i as int).map_values(
                    |m: EncodedMessage| spec_delivery_of(m, deadline),
                ),
            decreases messages.len() - i,
        {
            let m = &messages[i];
            self.entries.push(
                Delivery {
                    ack_id: m.ack_id.clone(),
                    deadline,
                    attempt: m.attempt,
                    acked: false,
                },
            );
            proof {
                let f = |m: EncodedMessage| spec_delivery_of(m, deadline);
                assert(messages@.subrange(0, i as int + 1).map_values(f) =~= messages@.subrange(
                    0,
                    i as int,
                ).map_values(f).push(spec_delivery_of(messages@[i as int], deadline)));
                assert(self.entries@ =~= old(self).entries@ + messages@.subrange(
                    0,
                    i as int + 1,
                ).map_values(f));
            }
            i = i + 1;
        }
        proof {
            assert(messages@.subrange(0, messages.len() as int) =~= messages@);
        }
    }

    /// Acknowledge one identifier: its delivery, if still live, becomes
    /// settled; everything else is untouched. Returns whether a live
    /// delivery was settled — `false` means the acknowledgement was a
    /// no-op on an unknown or already-settled identifier.
    pub fn acknowledge(&mut self, ack_id: &String) -> (r: bool)
        ensures
            final(self).entries@ == spec_ack_entries(old(self).entries@, ack_id@),
            r == spec_has_live(old(self).entries@, ack_id@),
    {
        let mut out: Vec<Delivery> = Vec::new();
        let mut found: bool = false;
        let mut i: usize = 0;
        while i < self.entries.len()
            invariant
                i <= self.entries.len(),
                self.entries == old(self).entries,
                out@ == spec_ack_entries(old(self).entries@.subrange(0, i as int), ack_id@),
                found == spec_has_live(old(self).entries@.subrange(0, i as int), ack_id@),
            decreases self.entries.len() - i,
        {
            let e = &self.entries[i];
            let matches_id = e.ack_id == *ack_id;
            if matches_id && !e.acked {
                found = true;
            }
            out.push(
                Delivery {
                    ack_id: e.ack_id.clone(),
                    deadline: e.deadline,
                    attempt: e.attempt,
                    acked: e.acked || matches_id,
                },
            );
            proof {
                let prefix = old(self).entries@.subrange(0, i as int);
                let next = old(self).entries@.subrange(0, i as int + 1);
                let entry = old(self).entries@[i as int];
                assert(next =~= prefix.push(entry));
                assert(spec_ack_entries(next, ack_id@) =~= spec_ack_entries(
                    prefix,
                    ack_id@,
                ).push(spec_ack_one(entry, ack_id@)));
                assert(out@ =~= spec_ack_entries(next, ack_id@));
                if entry.ack_id@ == ack_id@ && !entry.acked {
                    assert(spec_has_live(next, ack_id@)) by {
                        assert(next[i as int] == entry);
                    }
                } else {
                    assert(spec_has_live(next, ack_id@) == spec_has_live(prefix, ack_id@)) by {
                        if spec_has_live(next, ack_id@) {
                            let j = choose|j: int|
                                0 <= j < next.len() && next[j].ack_id@ == ack_id@ && !next[j].acked;
                            assert(j < prefix.len());
                            assert(prefix[j] == next[j]);
                        }
                        if spec_has_live(prefix, ack_id@) {
                            let j = choose|j: int|
                                0 <= j < prefix.len() && prefix[j].ack_id@ == ack_id@
                                    && !prefix[j].acked;
                            assert(next[j] == prefix[j]);
                        }
                    }
                }
            }
            i = i + 1;
        }
        proof {
            assert(old(self).entries@.subrange(0, old(self).entries@.len() as int) =~= old(
                self,
            ).entries@);
        }
        self.entries = out;
        found
    }

    /// Extend the deadline of one identifier's live delivery; a settled or
    /// unknown identifier is untouched. Returns whether a live delivery
    /// was moved.
    pub fn extend_deadline(&mut self, ack_id: &String, deadline: u64) -> (r: bool)
        ensures
            final(self).entries@ == spec_extend_entries(old(self).entries@, ack_id@, deadline),
            r == spec_has_live(old(self).entries@, ack_id@),
    {
        let mut out: Vec<Delivery> = Vec::new();
        let mut found: bool = false;
        let mut i: usize = 0;
        while i < self.entries.len()
            invariant
                i <= self.entries.len(),
                self.entries == old(self).entries,
                out@ == spec_extend_entries(
                    old(self).entries@.subrange(0, i as int),
                    ack_id@,
                    deadline,
                ),
                found == spec_has_live(old(self).entries@.subrange(0, i as int), ack_id@),
            decreases self.entries.len() - i,
        {
            let e = &self.entries[i];
            let live_match = e.ack_id == *ack_id && !e.acked;
            if live_match {
                found = true;
            }
            out.push(
                Delivery {
                    ack_id: e.ack_id.clone(),
                    deadline: if live_match { deadline } else { e.deadline },
                    attempt: e.attempt,
                    acked: e.acked,
                },
            );
            proof {
                let prefix = old(self).entries@.subrange(0, i as int);
                let next = old(self).entries@.subrange(0, i as int + 1);
                let entry = old(self).entries@[i as int];
                assert(next =~= prefix.push(entry));
                assert(spec_extend_entries(next, ack_id@, deadline) =~= spec_extend_entries(
                    prefix,
                    ack_id@,
                    deadline,
                ).push(spec_extend_one(entry, ack_id@, deadline)));
                assert(out@ =~= spec_extend_entries(next, ack_id@, deadline));
                if entry.ack_id@ == ack_id@ && !entry.acked {
                    assert(spec_has_live(next, ack_id@)) by {
                        assert(next[i as int] == entry);
                    }
                } else {
                    assert(spec_has_live(next, ack_id@) == spec_has_live(prefix, ack_id@)) by {
                        if spec_has_live(next, ack_id@) {
                            let j = choose|j: int|
                                0 <= j < next.len() && next[j].ack_id@ == ack_id@ && !next[j].acked;
                            assert(j < prefix.len());
                            assert(prefix[j] == next[j]);
                        }
                        if spec_has_live(prefix, ack_id@) {
                            let j = choose|j: int|
                                0 <= j < prefix.len() && prefix[j].ack_id@ == ack_id@
                                    && !prefix[j].acked;
                            assert(next[j] == prefix[j]);
                        }
                    }
                }
            }
            i = i + 1;
        }
        proof {
            assert(old(self).entries@.subrange(0, old(self).entries@.len() as int) =~= old(
                self,
            ).entries@);
        }
        self.entries = out;
        found
    }

    /// The identifiers of deliveries whose deadline has lapsed without an
    /// acknowledgement: exactly those, in ledger order, are eligible for
    /// redelivery.
    pub fn expired_ids(&self, now: u64) -> (r: Vec<String>)
        ensures
            r@.map_values(|s: String| s@) == spec_expired_ids(self.entries@, now),
    {
        let mut r: Vec<String> = Vec::new();
        let mut i: usize = 0;
        while i < self.entries.len()
            invariant
                i <= self.entries.len(),
                r@.map_values(|s: String| s@) == spec_expired_ids(
                    self.entries@.subrange(0, i as int),
                    now,
                ),
            decreases self.entries.len() - i,
        {
            let e = &self.entries[i];
            let ghost r0 = r@;
            if !e.acked && e.deadline < now {
                r.push(e.ack_id.clone());
            }
            proof {
                let v = |s: String| s@;
                let prefix = self.entries@.subrange(0, i as int);
                let next = self.entries@.subrange(0, i as int + 1);
                assert(next.drop_last() =~= prefix);
                assert(next.last() == self.entries@[i as int]);
                if !self.entries@[i as int].acked && self.entries@[i as int].deadline < now {
                    assert(r@.map_values(v) =~= r0.map_values(v).push(
                        self.entries@[i as int].ack_id@,
                    ));
                    assert(r@.map_values(v) =~= spec_expired_ids(next, now));
                } else {
                    assert(r@.map_values(v) =~= spec_expired_ids(next, now));
                }
            }
            i = i + 1;
        }
        proof {
            assert(self.entries@.subrange(0, self.entries@.len() as int) =~= self.entries@);
        }
        r
    }
}

/// Acknowledging the same identifier twice is idempotent: after one
/// acknowledgement no live delivery of that identifier remains, so a
/// second acknowledgement settles nothing and leaves the ledger exactly as
/// it was.
pub proof fn lemma_acknowledge_idempotent(s: Seq<Delivery>, id: Seq<char>)
    ensures
        spec_ack_entries(spec_ack_entries(s, id), id) == spec_ack_entries(s, id),
        !spec_has_live(spec_ack_entries(s, id), id),
{
    let once = spec_ack_entries(s, id);
    assert forall|k: int| 0 <= k < once.len() implies spec_ack_one(once[k], id) == once[k] by {
        assert(once[k] == spec_ack_one(s[k], id));
    }
    assert(spec_ack_entries(once, id) =~= once);
    assert forall|j: int| 0 <= j < once.len() && once[j].ack_id@ == id implies once[j].acked by {
        assert(once[j] == spec_ack_one(s[j], id));
    }
}

} // verus!
