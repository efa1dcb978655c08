//! Demultiplexing of one audio tick into per-speaker byte streams.
//!
//! A tick is one delivered batch of decoded audio across the currently
//! speaking participants. Each entry is routed through the registry to the
//! sink owning its SSRC; entries whose SSRC is unknown are skipped (a sink
//! is only ever created by the explicit speaking-state event, never from
//! this path), as are entries the upstream decoder delivered no audio for.
//! Routing one entry never blocks on the others, and the per-speaker write
//! order follows the tick order.
//!
//! Silence gaps between ticks are deliberately not padded here: the
//! transcoder is invoked with wall-clock input timestamps and inserts the
//! silence itself, so this core writes exactly the delivered samples.

use vstd::prelude::*;

use crate::pcm::le_bytes_of;
use crate::registry::{has_ssrc, same_mapping, SpeakerRegistry, SpeakerSlot};

verus! {

/// One entry of a tick: the sender's SSRC and the decoded samples, if the
/// upstream decoder produced any for this time slice.
pub struct TickEntry {
    pub ssrc: u32,
    pub samples: Option<Vec<i16>>,
}

/// What happened to one tick entry.
#[derive(Clone, Copy, Debug, PartialEq, Eq, Structural)]
pub enum RouteOutcome {
    /// The entry's bytes were handed to its speaker's sink.
    Written,
    /// No sink owns this SSRC; the entry is skipped and logged.
    UnknownSsrc,
    /// The decoder delivered no audio for this entry; nothing to write.
    NoAudio,
}

/// One pending pipe write: which speaker's sink, and the bytes to append.
pub struct SinkWrite {
    pub ssrc: u32,
    pub bytes: Vec<u8>,
}

/// How one entry must be routed, given the registered speakers.
pub open spec fn route_spec(s: Seq<SpeakerSlot>, e: TickEntry) -> RouteOutcome {
    if !has_ssrc(s, e.ssrc) {
        RouteOutcome::UnknownSsrc
    } else if e.samples is None {
        RouteOutcome::NoAudio
    } else {
        RouteOutcome::Written
    }
}

/// The pipe writes a tick produces, in tick order: one write per routable
/// entry, carrying that entry's serialized samples.
pub open spec fn writes_spec(s: Seq<SpeakerSlot>, tick: Seq<TickEntry>) -> Seq<(u32, Seq<u8>)>
    decreases tick.len(),
{
    if tick.len() == 0 {
        Seq::empty()
    } else {
        let rest = writes_spec(s, tick.drop_last());
        let e = tick.last();
        if route_spec(s, e) is Written {
            rest + seq![(e.ssrc, le_bytes_of(e.samples->0@))]
        } else {
            rest
        }
    }
}

/// The count of entries that are routed to a sink.
pub open spec fn count_written(s: Seq<SpeakerSlot>, tick: Seq<TickEntry>) -> int
    decreases tick.len(),
{
    if tick.len() == 0 {
        0
    } else {
        count_written(s, tick.drop_last()) + if route_spec(s, tick.last()) is Written {
            1int
        } else {
            0int
        }
    }
}

/// Law: a tick produces exactly one write per entry whose SSRC is known
/// and that carries audio, and skips exactly the others, whatever the
/// order of entries within the tick.
pub proof fn lemma_demux_counts(s: Seq<SpeakerSlot>, tick: Seq<TickEntry>)
    ensures
        writes_spec(s, tick).len() == count_written(s, tick),
        0 <= count_written(s, tick) <= tick.len(),
    decreases tick.len(),
{
    if tick.len() > 0 {
        lemma_demux_counts(s, tick.drop_last());
    }
}

/// One entry's contribution to the write count can be split off at any
/// position, not only at the end.
proof fn lemma_count_remove(s: Seq<SpeakerSlot>, t: Seq<TickEntry>, j: int)
    requires
        0 <= j < t.len(),
    ensures
        count_written(s, t) == count_written(s, t.remove(j)) + if route_spec(s, t[j]) is Written {
            1int
        } else {
            0int
        },
    decreases t.len(),
{
    if j == t.len() - 1 {
        assert(t.remove(j) =~= t.drop_last());
    } else {
        let t1 = t.drop_last();
        assert(t.remove(j).drop_last() =~= t1.remove(j));
        assert(t.remove(j).last() == t.last());
        lemma_count_remove(s, t1, j);
    }
}

/// Law: the number of successful writes (and so also of skipped entries)
/// of a tick does not depend on the order of the entries within the tick:
/// two ticks holding the same entries in any two orders produce the same
/// counts.
pub proof fn lemma_count_order_independent(
    s: Seq<SpeakerSlot>,
    t1: Seq<TickEntry>,
    t2: Seq<TickEntry>,
)
    requires
        t1.to_multiset() == t2.to_multiset(),
    ensures
        count_written(s, t1) == count_written(s, t2),
    decreases t1.len(),
{
    broadcast use vstd::seq_lib::group_to_multiset_ensures;

    assert(t1.to_multiset().len() == t1.len());
    assert(t2.to_multiset().len() == t2.len());
    if t1.len() == 0 {
        assert(t2.len() == 0);
    } else {
        let e = t1.last();
        assert(t1.contains(e));
        assert(t1.to_multiset().count(e) > 0);
        assert(t2.contains(e));
        let j = choose|j: int| 0 <= j < t2.len() && t2[j] == e;
        assert(t1.remove(t1.len() - 1) =~= t1.drop_last());
        assert(t1.drop_last().to_multiset() =~= t1.to_multiset().remove(e));
        assert(t2.remove(j).to_multiset() =~= t2.to_multiset().remove(e));
        lemma_count_order_independent(s, t1.drop_last(), t2.remove(j));
        lemma_count_remove(s, t2, j);
    }
}

/// Routes every entry of one tick. Returns the per-entry outcomes and the
/// pipe writes, in tick order. The registered speakers are unchanged: no
/// sink is created or removed by this path.
#[verifier::loop_isolation(false)]
pub fn demux_tick(reg: &mut SpeakerRegistry, tick: &Vec<TickEntry>) -> (r: (
    Vec<RouteOutcome>,
    Vec<SinkWrite>,
))
    requires
        old(reg).wf(),
    ensures
        final(reg).wf(),
        same_mapping(old(reg)@, final(reg)@),
        r.0@.len() == tick@.len(),
        forall|i: int| 0 <= i < tick@.len() ==> r.0@[i] == route_spec(old(reg)@, tick@[i]),
        r.1@.map_values(|w: SinkWrite| (w.ssrc, w.bytes@)) == writes_spec(old(reg)@, tick@),
{
    let mut outcomes: Vec<RouteOutcome> = Vec::new();
    let mut writes: Vec<SinkWrite> = Vec::new();
    let mut i: usize = 0;
    while i < tick.len()
        invariant
            i <= tick.len(),
            reg.wf(),
            same_mapping(old(reg)@, reg@),
            outcomes@.len() == i,
            forall|k: int| 0 <= k < i ==> outcomes@[k] == route_spec(old(reg)@, tick@[k]),
            writes@.map_values(|w: SinkWrite| (w.ssrc, w.bytes@)) == writes_spec(
                old(reg)@,
                tick@.take(i as int),
            ),
        decreases tick.len() - i,
    {
        let entry = &tick[i];
        let outcome = match &entry.samples {
            None => {
                if reg.lookup_by_ssrc(entry.ssrc).is_some() {
                    proof {
                        crate::registry::lemma_same_mapping_lookups(old(reg)@, reg@);
                    }
                    RouteOutcome::NoAudio
                } else {
                    proof {
                        crate::registry::lemma_same_mapping_lookups(old(reg)@, reg@);
                    }
                    RouteOutcome::UnknownSsrc
                }
            },
            Some(samples) => {
                let ghost pre = reg@;
                let routed = reg.route_samples(entry.ssrc, samples);
                proof {
                    crate::registry::lemma_same_mapping_lookups(old(reg)@, pre);
                    lemma_same_mapping_trans(old(reg)@, pre, reg@);
                }
                match routed {
                    Some(bytes) => {
                        writes.push(SinkWrite { ssrc: entry.ssrc, bytes });
                        RouteOutcome::Written
                    },
                    None => RouteOutcome::UnknownSsrc,
                }
            },
        };
        outcomes.push(outcome);
        proof {
            let t = tick@.take(i + 1 as int);
            assert(t.drop_last() =~= tick@.take(i as int));
            assert(t.last() == tick@[i as int]);
            assert(writes@.map_values(|w: SinkWrite| (w.ssrc, w.bytes@)) =~= writes_spec(
                old(reg)@,
                t,
            ));
        }
        i = i + 1;
    }
    proof {
        assert(tick@.take(tick@.len() as int) =~= tick@);
    }
    (outcomes, writes)
}

/// `same_mapping` is transitive.
proof fn lemma_same_mapping_trans(a: Seq<SpeakerSlot>, b: Seq<SpeakerSlot>, c: Seq<SpeakerSlot>)
    requires
        same_mapping(a, b),
        same_mapping(b, c),
    ensures
        same_mapping(a, c),
{
    assert forall|k: int| 0 <= k < a.len() implies {
        &&& (#[trigger] c[k]).user_id == a[k].user_id
        &&& c[k].ssrc == a[k].ssrc
        &&& c[k].started_at_millis == a[k].started_at_millis
        &&& c[k].file_name == a[k].file_name
    } by {
        assert(b[k].user_id == a[k].user_id && b[k].ssrc == a[k].ssrc);
        assert(c[k].user_id == b[k].user_id && c[k].ssrc == b[k].ssrc);
    }
}

} // verus!
