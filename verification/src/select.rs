//! Join-target policy: which voice channel the session should monitor.
//!
//! Among all voice channels of the guild except the configured AFK channel,
//! the policy picks the one with the strictly greatest count of non-bot
//! members. A tie keeps the previously selected channel if it is still
//! tied-highest; otherwise the lowest channel id wins, which makes the
//! choice deterministic. If no channel has a non-bot member, there is
//! nothing to monitor.

use vstd::prelude::*;

verus! {

/// One voice channel of the directory snapshot: its id and how many
/// non-bot members it currently holds.
#[derive(Clone, Copy, Debug, PartialEq, Eq, Structural)]
pub struct ChannelInfo {
    pub channel_id: u64,
    pub non_bot_members: u64,
}

/// A channel counts for selection if it holds at least one non-bot member
/// and is not the guild's AFK channel.
pub open spec fn eligible(c: ChannelInfo, afk: Option<u64>) -> bool {
    c.non_bot_members >= 1 && afk != Some(c.channel_id)
}

/// Some channel counts for selection.
pub open spec fn any_eligible(s: Seq<ChannelInfo>, afk: Option<u64>) -> bool {
    exists|i: int| 0 <= i < s.len() && eligible(s[i], afk)
}

/// `m` is the greatest member count among the eligible channels.
pub open spec fn is_max_count(s: Seq<ChannelInfo>, afk: Option<u64>, m: u64) -> bool {
    &&& exists|i: int| 0 <= i < s.len() && eligible(s[i], afk) && s[i].non_bot_members == m
    &&& forall|i: int| 0 <= i < s.len() && eligible(s[i], afk) ==> s[i].non_bot_members <= m
}

/// Channel `c` appears in the snapshot, is eligible, and is tied for the
/// greatest member count.
pub open spec fn tied_highest(s: Seq<ChannelInfo>, afk: Option<u64>, c: u64) -> bool {
    exists|i: int|
        0 <= i < s.len() && s[i].channel_id == c && eligible(s[i], afk) && is_max_count(
            s,
            afk,
            s[i].non_bot_members,
        )
}

/// The incumbent selection exists and is still tied for the greatest
/// member count.
pub open spec fn incumbent_tied(s: Seq<ChannelInfo>, afk: Option<u64>, incumbent: Option<u64>) -> bool {
    incumbent matches Some(p) && tied_highest(s, afk, p)
}

/// What the selection policy promises of its result.
pub open spec fn selection_ok(
    s: Seq<ChannelInfo>,
    afk: Option<u64>,
    incumbent: Option<u64>,
    r: Option<u64>,
) -> bool {
    match r {
        None => !any_eligible(s, afk),
        Some(c) => {
            &&& tied_highest(s, afk, c)
            &&& incumbent_tied(s, afk, incumbent) ==> incumbent == Some(c)
            &&& !incumbent_tied(s, afk, incumbent) ==> forall|i: int|
                0 <= i < s.len() && eligible(s[i], afk) && is_max_count(
                    s,
                    afk,
                    s[i].non_bot_members,
                ) ==> c <= s[i].channel_id
        },
    }
}

/// The selected channel as a mathematical value: the unique result that
/// satisfies [`selection_ok`] (unique by [`lemma_selection_unique`]).
pub open spec fn selected_spec(
    s: Seq<ChannelInfo>,
    afk: Option<u64>,
    incumbent: Option<u64>,
) -> Option<u64> {
    choose|r: Option<u64>| selection_ok(s, afk, incumbent, r)
}

/// Selects the channel to monitor, if any: the eligible channel with the
/// strictly greatest non-bot member count; a tie retains the incumbent if
/// it is still tied-highest, and otherwise the lowest channel id wins.
#[verifier::loop_isolation(false)]
pub fn select_channel(channels: &Vec<ChannelInfo>, afk: Option<u64>, incumbent: Option<u64>) -> (r:
    Option<u64>)
    ensures
        selection_ok(channels@, afk, incumbent, r),
        r == selected_spec(channels@, afk, incumbent),
{
    let r = select_channel_inner(channels, afk, incumbent);
    proof {
        assert(selection_ok(channels@, afk, incumbent, selected_spec(channels@, afk, incumbent)));
        lemma_selection_unique(
            channels@,
            afk,
            incumbent,
            r,
            selected_spec(channels@, afk, incumbent),
        );
    }
    r
}

#[verifier::loop_isolation(false)]
fn select_channel_inner(channels: &Vec<ChannelInfo>, afk: Option<u64>, incumbent: Option<u64>) -> (r:
    Option<u64>)
    ensures
        selection_ok(channels@, afk, incumbent, r),
{
    let s = channels;
    let mut found = false;
    let mut m: u64 = 0;
    let mut i: usize = 0;
    while i < s.len()
        invariant
            i <= s.len(),
            found == exists|k: int| 0 <= k < i && eligible(s@[k], afk),
            found ==> exists|k: int|
                0 <= k < i && eligible(s@[k], afk) && s@[k].non_bot_members == m,
            forall|k: int| 0 <= k < i && eligible(s@[k], afk) ==> s@[k].non_bot_members <= m,
        decreases s.len() - i,
    {
        let c = s[i];
        let is_el = c.non_bot_members >= 1 && match afk {
            Some(a) => a != c.channel_id,
            None => true,
        };
        if is_el {
            proof {
                assert(eligible(s@[i as int], afk));
            }
            if !found || c.non_bot_members > m {
                m = c.non_bot_members;
            }
            found = true;
        }
        i = i + 1;
    }
    if !found {
        return None;
    }
    assert(is_max_count(s@, afk, m));

    // A tie retains the incumbent, when it is still tied-highest.
    if let Some(p) = incumbent {
        let mut j: usize = 0;
        while j < s.len()
            invariant
                j <= s.len(),
                forall|k: int|
                    0 <= k < j ==> !(s@[k].channel_id == p && eligible(s@[k], afk)
                        && s@[k].non_bot_members == m),
            decreases s.len() - j,
        {
            let c = s[j];
            let is_el = c.non_bot_members >= 1 && match afk {
                Some(a) => a != c.channel_id,
                None => true,
            };
            if c.channel_id == p && is_el && c.non_bot_members == m {
                proof {
                    assert(eligible(s@[j as int], afk));
                    assert(tied_highest(s@, afk, p));
                }
                return Some(p);
            }
            j = j + 1;
        }
        proof {
            assert(!tied_highest(s@, afk, p)) by {
                if tied_highest(s@, afk, p) {
                    let k = choose|k: int|
                        0 <= k < s@.len() && s@[k].channel_id == p && eligible(s@[k], afk)
                            && is_max_count(s@, afk, s@[k].non_bot_members);
                    assert(s@[k].non_bot_members == m);
                }
            }
        }
    }

    // Otherwise the lowest tied-highest channel id wins.
    let mut best: u64 = 0;
    let mut have_best = false;
    let mut j: usize = 0;
    while j < s.len()
        invariant
            j <= s.len(),
            have_best == exists|k: int|
                0 <= k < j && eligible(s@[k], afk) && s@[k].non_bot_members == m,
            have_best ==> exists|k: int|
                0 <= k < j && eligible(s@[k], afk) && s@[k].non_bot_members == m && s@[k].channel_id
                    == best,
            forall|k: int|
                0 <= k < j && eligible(s@[k], afk) && s@[k].non_bot_members == m ==> best
                    <= s@[k].channel_id,
        decreases s.len() - j,
    {
        let c = s[j];
        let is_el = c.non_bot_members >= 1 && match afk {
            Some(a) => a != c.channel_id,
            None => true,
        };
        if is_el && c.non_bot_members == m {
            proof {
                assert(eligible(s@[j as int], afk));
            }
            if !have_best || c.channel_id < best {
                best = c.channel_id;
            }
            have_best = true;
        }
        j = j + 1;
    }
    proof {
        assert(have_best);
        assert(tied_highest(s@, afk, best));
        assert forall|i0: int|
            0 <= i0 < s@.len() && eligible(s@[i0], afk) && is_max_count(
                s@,
                afk,
                s@[i0].non_bot_members,
            ) implies best <= s@[i0].channel_id by {
            assert(s@[i0].non_bot_members == m);
        }
    }
    Some(best)
}

/// Law: the selection policy is deterministic. Any two results that both
/// satisfy [`selection_ok`] for the same snapshot, AFK channel and
/// incumbent are the same; together with the contract of
/// [`select_channel`] this pins the selected channel completely.
pub proof fn lemma_selection_unique(
    s: Seq<ChannelInfo>,
    afk: Option<u64>,
    incumbent: Option<u64>,
    r1: Option<u64>,
    r2: Option<u64>,
)
    requires
        selection_ok(s, afk, incumbent, r1),
        selection_ok(s, afk, incumbent, r2),
    ensures
        r1 == r2,
{
    match (r1, r2) {
        (None, None) => {},
        (None, Some(c2)) => {
            let i = choose|i: int|
                0 <= i < s.len() && s[i].channel_id == c2 && eligible(s[i], afk) && is_max_count(
                    s,
                    afk,
                    s[i].non_bot_members,
                );
            assert(any_eligible(s, afk));
        },
        (Some(c1), None) => {
            let i = choose|i: int|
                0 <= i < s.len() && s[i].channel_id == c1 && eligible(s[i], afk) && is_max_count(
                    s,
                    afk,
                    s[i].non_bot_members,
                );
            assert(any_eligible(s, afk));
        },
        (Some(c1), Some(c2)) => {
            if incumbent_tied(s, afk, incumbent) {
                assert(incumbent == Some(c1) && incumbent == Some(c2));
            } else {
                let i1 = choose|i: int|
                    0 <= i < s.len() && s[i].channel_id == c1 && eligible(s[i], afk)
                        && is_max_count(s, afk, s[i].non_bot_members);
                let i2 = choose|i: int|
                    0 <= i < s.len() && s[i].channel_id == c2 && eligible(s[i], afk)
                        && is_max_count(s, afk, s[i].non_bot_members);
                assert(c2 <= s[i1].channel_id);
                assert(c1 <= s[i2].channel_id);
            }
        },
    }
}

} // verus!
