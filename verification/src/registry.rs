//! Registry of active speakers: the single source of truth mapping
//! synchronization sources (SSRCs) to speakers and speakers to their
//! owned sinks.
//!
//! The registry is kept as one sequence of slots, from which both lookup
//! directions (by SSRC, by user) are answered. Because there is one
//! underlying sequence and its entries carry distinct SSRCs and distinct
//! user ids, the two directions can never disagree: no partial update is
//! observable. Removal transfers ownership of the slot (and therefore of
//! its sink) to the caller, so each sink is finalized by exactly one party.

use vstd::prelude::*;

use crate::pcm::le_bytes_of;
use crate::sink::ProcessSink;

verus! {

/// Error returned by [`SpeakerRegistry::register`].
#[derive(Clone, Copy, Debug, PartialEq, Eq, Structural)]
pub enum RegistryError {
    /// The SSRC (or the user) is already mapped to a live slot. The caller
    /// must never overwrite a live slot, which would orphan its sink.
    AlreadyRegistered,
}

/// Per-speaker state: identity, assigned SSRC, recording start time,
/// the generated artifact name, and the owned transcoder sink.
pub struct SpeakerSlot {
    pub user_id: u64,
    pub ssrc: u32,
    pub started_at_millis: i64,
    pub file_name: String,
    pub sink: ProcessSink,
}

/// There is a slot carrying this SSRC.
pub open spec fn has_ssrc(s: Seq<SpeakerSlot>, ssrc: u32) -> bool {
    exists|i: int| 0 <= i < s.len() && s[i].ssrc == ssrc
}

/// There is a slot carrying this user id.
pub open spec fn has_user(s: Seq<SpeakerSlot>, user_id: u64) -> bool {
    exists|i: int| 0 <= i < s.len() && s[i].user_id == user_id
}

/// All slots carry pairwise distinct SSRCs and pairwise distinct user ids.
pub open spec fn slots_distinct(s: Seq<SpeakerSlot>) -> bool {
    forall|i: int, j: int|
        0 <= i < j < s.len() ==> s[i].ssrc != s[j].ssrc && s[i].user_id != s[j].user_id
}

/// Every registered sink is still open: a slot is removed from the
/// registry before its sink is finalized, never the other way round.
pub open spec fn slots_open(s: Seq<SpeakerSlot>) -> bool {
    forall|i: int| 0 <= i < s.len() ==> s[i].sink.is_open()
}

/// Two slot sequences describe the same speakers: same length and, entry
/// by entry, the same user, SSRC, start time and artifact name. Only the
/// sinks' running totals may differ.
pub open spec fn same_mapping(a: Seq<SpeakerSlot>, b: Seq<SpeakerSlot>) -> bool {
    &&& a.len() == b.len()
    &&& forall|k: int|
        0 <= k < a.len() ==> {
            &&& (#[trigger] b[k]).user_id == a[k].user_id
            &&& b[k].ssrc == a[k].ssrc
            &&& b[k].started_at_millis == a[k].started_at_millis
            &&& b[k].file_name == a[k].file_name
        }
}

/// Sequences with the same mapping answer both lookups alike.
pub proof fn lemma_same_mapping_lookups(a: Seq<SpeakerSlot>, b: Seq<SpeakerSlot>)
    requires
        same_mapping(a, b),
    ensures
        forall|ssrc: u32| has_ssrc(a, ssrc) == has_ssrc(b, ssrc),
        forall|user_id: u64| has_user(a, user_id) == has_user(b, user_id),
        slots_distinct(a) == slots_distinct(b),
{
    assert forall|ssrc: u32| has_ssrc(a, ssrc) == has_ssrc(b, ssrc) by {
        if has_ssrc(a, ssrc) {
            let i = choose|i: int| 0 <= i < a.len() && a[i].ssrc == ssrc;
            assert(b[i].ssrc == ssrc);
        }
        if has_ssrc(b, ssrc) {
            let i = choose|i: int| 0 <= i < b.len() && b[i].ssrc == ssrc;
            assert(b[i].ssrc == a[i].ssrc);
        }
    }
    assert forall|user_id: u64| has_user(a, user_id) == has_user(b, user_id) by {
        if has_user(a, user_id) {
            let i = choose|i: int| 0 <= i < a.len() && a[i].user_id == user_id;
            assert(b[i].user_id == user_id);
        }
        if has_user(b, user_id) {
            let i = choose|i: int| 0 <= i < b.len() && b[i].user_id == user_id;
            assert(b[i].user_id == a[i].user_id);
        }
    }
    assert forall|i: int, j: int| 0 <= i < j < a.len() implies (a[i].ssrc != a[j].ssrc
        && a[i].user_id != a[j].user_id) == (b[i].ssrc != b[j].ssrc && b[i].user_id
        != b[j].user_id) by {
        assert(b[i].ssrc == a[i].ssrc && b[j].ssrc == a[j].ssrc);
    }
}

/// The user recorded for an SSRC (meaningful when `has_ssrc` holds).
pub open spec fn user_of_ssrc(s: Seq<SpeakerSlot>, ssrc: u32) -> u64 {
    s[choose|i: int| 0 <= i < s.len() && s[i].ssrc == ssrc].user_id
}

/// The SSRC recorded for a user (meaningful when `has_user` holds).
pub open spec fn ssrc_of_user(s: Seq<SpeakerSlot>, user_id: u64) -> u32 {
    s[choose|i: int| 0 <= i < s.len() && s[i].user_id == user_id].ssrc
}

/// The SSRC-keyed index derived from the slot sequence: SSRC to user id.
pub open spec fn ssrc_index(s: Seq<SpeakerSlot>) -> Map<u32, u64> {
    Map::new(|ssrc: u32| has_ssrc(s, ssrc), |ssrc: u32| user_of_ssrc(s, ssrc))
}

/// The user-keyed index derived from the slot sequence: user id to SSRC.
pub open spec fn user_index(s: Seq<SpeakerSlot>) -> Map<u64, u32> {
    Map::new(|user_id: u64| has_user(s, user_id), |user_id: u64| ssrc_of_user(s, user_id))
}

/// Registry of the speakers currently being captured.
pub struct SpeakerRegistry {
    slots: Vec<SpeakerSlot>,
}

impl View for SpeakerRegistry {
    type V = Seq<SpeakerSlot>;

    closed spec fn view(&self) -> Seq<SpeakerSlot> {
        self.slots@
    }
}

impl SpeakerRegistry {
    /// Well-formedness: both lookup directions are injective and every
    /// registered sink is open.
    pub open spec fn wf(&self) -> bool {
        slots_distinct(self@) && slots_open(self@)
    }

    /// An empty registry, with no residual slots.
    pub fn new() -> (r: SpeakerRegistry)
        ensures
            r@ == Seq::<SpeakerSlot>::empty(),
            r.wf(),
    {
        SpeakerRegistry { slots: Vec::new() }
    }

    /// Number of active speakers.
    pub fn active_count(&self) -> (n: usize)
        ensures
            n == self@.len(),
    {
        self.slots.len()
    }

    /// Index of the slot carrying this SSRC, if any.
    #[verifier::loop_isolation(false)]
    pub fn lookup_by_ssrc(&self, ssrc: u32) -> (r: Option<usize>)
        ensures
            match r {
                Some(i) => i < self@.len() && self@[i as int].ssrc == ssrc,
                None => !has_ssrc(self@, ssrc),
            },
    {
        let mut i: usize = 0;
        while i < self.slots.len()
            invariant
                i <= self.slots.len(),
                forall|k: int| 0 <= k < i ==> self.slots@[k].ssrc != ssrc,
            decreases self.slots.len() - i,
        {
            if self.slots[i].ssrc == ssrc {
                return Some(i);
            }
            i = i + 1;
        }
        None
    }

    /// SSRC currently assigned to this user, if any.
    #[verifier::loop_isolation(false)]
    pub fn lookup_by_user(&self, user_id: u64) -> (r: Option<u32>)
        ensures
            match r {
                Some(ssrc) => exists|i: int|
                    0 <= i < self@.len() && self@[i].user_id == user_id && self@[i].ssrc == ssrc,
                None => !has_user(self@, user_id),
            },
    {
        let mut i: usize = 0;
        while i < self.slots.len()
            invariant
                i <= self.slots.len(),
                forall|k: int| 0 <= k < i ==> self.slots@[k].user_id != user_id,
            decreases self.slots.len() - i,
        {
            if self.slots[i].user_id == user_id {
                let ssrc = self.slots[i].ssrc;
                proof {
                    assert(self@[i as int].user_id == user_id && self@[i as int].ssrc == ssrc);
                }
                return Some(ssrc);
            }
            i = i + 1;
        }
        None
    }

    /// Adds a slot for a newly observed speaker. Fails with
    /// [`RegistryError::AlreadyRegistered`], leaving the registry unchanged,
    /// if the SSRC or the user already has a live slot; the existing slot is
    /// never replaced. On success both lookup directions gain the entry
    /// together.
    #[verifier::loop_isolation(false)]
    pub fn register(&mut self, slot: SpeakerSlot) -> (r: Result<(), RegistryError>)
        requires
            old(self).wf(),
            slot.sink.is_open(),
        ensures
            final(self).wf(),
            match r {
                Ok(()) => {
                    &&& !has_ssrc(old(self)@, slot.ssrc)
                    &&& !has_user(old(self)@, slot.user_id)
                    &&& final(self)@ == old(self)@.push(slot)
                },
                Err(e) => {
                    &&& e == RegistryError::AlreadyRegistered
                    &&& has_ssrc(old(self)@, slot.ssrc) || has_user(old(self)@, slot.user_id)
                    &&& final(self)@ == old(self)@
                },
            },
    {
        let mut i: usize = 0;
        while i < self.slots.len()
            invariant
                i <= self.slots.len(),
                forall|k: int|
                    0 <= k < i ==> self.slots@[k].ssrc != slot.ssrc && self.slots@[k].user_id
                        != slot.user_id,
            decreases self.slots.len() - i,
        {
            if self.slots[i].ssrc == slot.ssrc || self.slots[i].user_id == slot.user_id {
                return Err(RegistryError::AlreadyRegistered);
            }
            i = i + 1;
        }
        self.slots.push(slot);
        Ok(())
    }

    /// Atomically removes the slot of this user from both lookup directions
    /// and returns ownership of it (and of its sink) for finalization.
    /// Returns `None`, with no observable side effect, if the user has no
    /// active slot.
    #[verifier::loop_isolation(false)]
    pub fn remove_by_user(&mut self, user_id: u64) -> (r: Option<SpeakerSlot>)
        requires
            old(self).wf(),
        ensures
            final(self).wf(),
            match r {
                None => {
                    &&& !has_user(old(self)@, user_id)
                    &&& final(self)@ == old(self)@
                },
                Some(slot) => {
                    &&& slot.user_id == user_id
                    &&& slot.sink.is_open()
                    &&& exists|i: int|
                        0 <= i < old(self)@.len() && old(self)@[i] == slot && final(self)@ == old(
                            self,
                        )@.remove(i)
                    &&& final(self)@.len() == old(self)@.len() - 1
                    &&& !has_user(final(self)@, user_id)
                },
            },
    {
        let mut i: usize = 0;
        while i < self.slots.len()
            invariant
                i <= self.slots.len(),
                self.slots@ == old(self).slots@,
                forall|k: int| 0 <= k < i ==> self.slots@[k].user_id != user_id,
            decreases self.slots.len() - i,
        {
            if self.slots[i].user_id == user_id {
                let ghost pre = self.slots@;
                let slot = self.slots.remove(i);
                proof {
                    pre.remove_ensures(i as int);
                    assert(0 <= i < pre.len() && pre[i as int] == slot && self.slots@ == pre.remove(
                        i as int,
                    ));
                    assert forall|a: int, b: int|
                        0 <= a < b < self.slots@.len() implies self.slots@[a].ssrc
                        != self.slots@[b].ssrc && self.slots@[a].user_id
                        != self.slots@[b].user_id by {
                        let a0 = if a < i { a } else { a + 1 };
                        let b0 = if b < i { b } else { b + 1 };
                        assert(self.slots@[a] == pre[a0]);
                        assert(self.slots@[b] == pre[b0]);
                    }
                    assert forall|k: int| 0 <= k < self.slots@.len() implies self.slots@[k].sink.is_open() by {
                        let k0 = if k < i { k } else { k + 1 };
                        assert(self.slots@[k] == pre[k0]);
                    }
                    assert forall|k: int|
                        0 <= k < self.slots@.len() implies self.slots@[k].user_id != user_id by {
                        let k0 = if k < i { k } else { k + 1 };
                        assert(self.slots@[k] == pre[k0]);
                    }
                }
                return Some(slot);
            }
            i = i + 1;
        }
        None
    }

    /// Removes and returns the first slot, in registration order, handing
    /// its ownership (and its sink) to the caller; `None` when the registry
    /// is empty. Used by the shutdown path to drain every in-flight sink.
    pub fn take_first(&mut self) -> (r: Option<SpeakerSlot>)
        requires
            old(self).wf(),
        ensures
            final(self).wf(),
            match r {
                None => old(self)@.len() == 0 && final(self)@ == old(self)@,
                Some(slot) => {
                    &&& old(self)@.len() > 0
                    &&& slot == old(self)@[0]
                    &&& slot.sink.is_open()
                    &&& final(self)@ == old(self)@.drop_first()
                },
            },
    {
        if self.slots.len() == 0 {
            return None;
        }
        let ghost pre = self.slots@;
        let slot = self.slots.remove(0);
        proof {
            pre.remove_ensures(0);
            assert(pre.remove(0) =~= pre.drop_first());
            assert forall|a: int, b: int|
                0 <= a < b < self.slots@.len() implies self.slots@[a].ssrc != self.slots@[b].ssrc
                && self.slots@[a].user_id != self.slots@[b].user_id by {
                assert(self.slots@[a] == pre[a + 1]);
                assert(self.slots@[b] == pre[b + 1]);
            }
            assert forall|k: int| 0 <= k < self.slots@.len() implies self.slots@[k].sink.is_open() by {
                assert(self.slots@[k] == pre[k + 1]);
            }
        }
        Some(slot)
    }

    /// Routes one batch of decoded samples to the sink registered for this
    /// SSRC, returning the bytes to pipe, or `None` (with the registry
    /// unchanged) if the SSRC is unknown. The mapping itself never changes:
    /// only the addressed sink's running total does.
    pub fn route_samples(&mut self, ssrc: u32, samples: &Vec<i16>) -> (r: Option<Vec<u8>>)
        requires
            old(self).wf(),
        ensures
            final(self).wf(),
            same_mapping(old(self)@, final(self)@),
            match r {
                None => {
                    &&& !has_ssrc(old(self)@, ssrc)
                    &&& final(self)@ == old(self)@
                },
                Some(bytes) => {
                    &&& has_ssrc(old(self)@, ssrc)
                    &&& bytes@ == le_bytes_of(samples@)
                },
            },
    {
        let r = self.lookup_by_ssrc(ssrc);
        match r {
            None => None,
            Some(i) => {
                let ghost pre = self.slots@;
                proof {
                    assert(pre[i as int].sink.is_open());
                }
                let mut slot = self.slots.remove(i);
                let res = slot.sink.append(samples);
                self.slots.insert(i, slot);
                proof {
                    assert(self.slots@ =~= pre.update(i as int, slot));
                    assert forall|k: int| 0 <= k < self.slots@.len() implies {
                        &&& (#[trigger] self.slots@[k]).user_id == pre[k].user_id
                        &&& self.slots@[k].ssrc == pre[k].ssrc
                        &&& self.slots@[k].started_at_millis == pre[k].started_at_millis
                        &&& self.slots@[k].file_name == pre[k].file_name
                        &&& self.slots@[k].sink.is_open()
                    } by {
                        if k != i {
                            assert(self.slots@[k] == pre[k]);
                        }
                    }
                }
                match res {
                    Ok(bytes) => Some(bytes),
                    Err(_) => {
                        proof {
                            assert(false);
                        }
                        None
                    },
                }
            },
        }
    }
}

/// Law: in a well-formed registry the two lookup indexes are mutually
/// consistent. Every SSRC entry's user has a matching user-index entry
/// pointing back to that SSRC, and every user entry's SSRC has a matching
/// SSRC-index entry pointing back to that user. Every mutating operation
/// of [`SpeakerRegistry`] keeps the registry well-formed (each contract
/// says so), so this holds after any sequence of `register` and
/// `remove_by_user` calls.
pub proof fn lemma_indexes_mutually_consistent(reg: SpeakerRegistry)
    requires
        reg.wf(),
    ensures
        forall|ssrc: u32| #[trigger]
            ssrc_index(reg@).dom().contains(ssrc) ==> user_index(reg@).dom().contains(
                ssrc_index(reg@)[ssrc],
            ) && user_index(reg@)[ssrc_index(reg@)[ssrc]] == ssrc,
        forall|user_id: u64| #[trigger]
            user_index(reg@).dom().contains(user_id) ==> ssrc_index(reg@).dom().contains(
                user_index(reg@)[user_id],
            ) && ssrc_index(reg@)[user_index(reg@)[user_id]] == user_id,
{
    let s = reg@;
    assert forall|ssrc: u32| #[trigger] ssrc_index(s).dom().contains(ssrc) implies user_index(
        s,
    ).dom().contains(ssrc_index(s)[ssrc]) && user_index(s)[ssrc_index(s)[ssrc]] == ssrc by {
        let i = choose|i: int| 0 <= i < s.len() && s[i].ssrc == ssrc;
        let u = s[i].user_id;
        assert(has_user(s, u));
        let j = choose|j: int| 0 <= j < s.len() && s[j].user_id == u;
        if i < j {
            assert(s[i].user_id != s[j].user_id);
        }
        if j < i {
            assert(s[j].user_id != s[i].user_id);
        }
        assert(i == j);
    }
    assert forall|user_id: u64| #[trigger] user_index(s).dom().contains(user_id) implies ssrc_index(
        s,
    ).dom().contains(user_index(s)[user_id]) && ssrc_index(s)[user_index(s)[user_id]]
        == user_id by {
        let i = choose|i: int| 0 <= i < s.len() && s[i].user_id == user_id;
        let c = s[i].ssrc;
        assert(has_ssrc(s, c));
        let j = choose|j: int| 0 <= j < s.len() && s[j].ssrc == c;
        if i < j {
            assert(s[i].ssrc != s[j].ssrc);
        }
        if j < i {
            assert(s[j].ssrc != s[i].ssrc);
        }
        assert(i == j);
    }
}

} // verus!

