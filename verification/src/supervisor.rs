//! The per-guild supervisor table.
//!
//! At most one voice session exists per guild at any time. The runtime
//! guards this table with a single per-process lock held across each whole
//! check-then-act sequence; the table itself guarantees that two sessions
//! for one guild can never coexist, because `put` refuses a duplicate
//! guild instead of overwriting. A session is worked on by taking it out
//! of the table (gaining exclusive ownership of its controller) and
//! putting it back, so partial states are never observable to others.

use vstd::prelude::*;

use crate::controller::SessionController;

verus! {

/// Error returned by [`SupervisorTable::put`].
#[derive(Clone, Copy, Debug, PartialEq, Eq, Structural)]
pub enum SupervisorError {
    /// A session for this guild already exists; it is never overwritten.
    DuplicateGuild,
}

/// All controllers belong to pairwise distinct guilds.
pub open spec fn guilds_distinct(s: Seq<SessionController>) -> bool {
    forall|i: int, j: int| 0 <= i < j < s.len() ==> s[i].guild() != s[j].guild()
}

/// Some controller belongs to this guild.
pub open spec fn has_guild(s: Seq<SessionController>, guild_id: u64) -> bool {
    exists|i: int| 0 <= i < s.len() && s[i].guild() == guild_id
}

/// The table of the currently active per-guild sessions.
pub struct SupervisorTable {
    entries: Vec<SessionController>,
}

impl View for SupervisorTable {
    type V = Seq<SessionController>;

    closed spec fn view(&self) -> Seq<SessionController> {
        self.entries@
    }
}

impl SupervisorTable {
    /// At most one session per guild, each internally well-formed.
    pub open spec fn wf(&self) -> bool {
        &&& guilds_distinct(self@)
        &&& forall|i: int| 0 <= i < self@.len() ==> (#[trigger] self@[i]).wf()
    }

    /// An empty table.
    pub fn new() -> (t: SupervisorTable)
        ensures
            t@ == Seq::<SessionController>::empty(),
            t.wf(),
    {
        SupervisorTable { entries: Vec::new() }
    }

    /// Number of active sessions.
    pub fn len(&self) -> (n: usize)
        ensures
            n == self@.len(),
    {
        self.entries.len()
    }

    /// Whether a session exists for this guild.
    #[verifier::loop_isolation(false)]
    pub fn contains(&self, guild_id: u64) -> (r: bool)
        ensures
            r == has_guild(self@, guild_id),
    {
        let mut i: usize = 0;
        while i < self.entries.len()
            invariant
                i <= self.entries.len(),
                forall|k: int| 0 <= k < i ==> (#[trigger] self.entries@[k]).guild() != guild_id,
            decreases self.entries.len() - i,
        {
            if self.entries[i].guild_id() == guild_id {
                proof {
                    assert(self@[i as int].guild() == guild_id);
                }
                return true;
            }
            i = i + 1;
        }
        false
    }

    /// Takes the guild's session out of the table, handing the caller
    /// exclusive ownership of its controller; `None` if the guild has no
    /// session.
    #[verifier::loop_isolation(false)]
    pub fn take(&mut self, guild_id: u64) -> (r: Option<SessionController>)
        requires
            old(self).wf(),
        ensures
            final(self).wf(),
            match r {
                None => {
                    &&& !has_guild(old(self)@, guild_id)
                    &&& final(self)@ == old(self)@
                },
                Some(c) => {
                    &&& c.guild() == guild_id
                    &&& c.wf()
                    &&& exists|i: int|
                        0 <= i < old(self)@.len() && old(self)@[i] == c && final(self)@ == old(
                            self,
                        )@.remove(i)
                    &&& !has_guild(final(self)@, guild_id)
                },
            },
    {
        let mut i: usize = 0;
        while i < self.entries.len()
            invariant
                i <= self.entries.len(),
                self.entries@ == old(self).entries@,
                forall|k: int| 0 <= k < i ==> (#[trigger] self.entries@[k]).guild() != guild_id,
            decreases self.entries.len() - i,
        {
            if self.entries[i].guild_id() == guild_id {
                let ghost pre = self.entries@;
                let c = self.entries.remove(i);
                proof {
                    pre.remove_ensures(i as int);
                    assert(0 <= i < pre.len() && pre[i as int] == c && self.entries@ == pre.remove(
                        i as int,
                    ));
                    assert forall|a: int, b: int|
                        0 <= a < b < self.entries@.len() implies self.entries@[a].guild()
                        != self.entries@[b].guild() by {
                        let a0 = if a < i { a } else { a + 1 };
                        let b0 = if b < i { b } else { b + 1 };
                        assert(self.entries@[a] == pre[a0]);
                        assert(self.entries@[b] == pre[b0]);
                    }
                    assert forall|k: int| 0 <= k < self.entries@.len() implies (
                    #[trigger] self.entries@[k]).wf() by {
                        let k0 = if k < i { k } else { k + 1 };
                        assert(self.entries@[k] == pre[k0]);
                    }
                    assert forall|k: int|
                        0 <= k < self.entries@.len() implies (#[trigger] self.entries@[k]).guild()
                        != guild_id by {
                        let k0 = if k < i { k } else { k + 1 };
                        assert(self.entries@[k] == pre[k0]);
                    }
                }
                return Some(c);
            }
            i = i + 1;
        }
        None
    }

    /// Adds a session to the table. Refuses, leaving everything unchanged,
    /// if the guild already has one: creation is strictly
    /// create-if-absent, so duplicate joins cannot race a live session
    /// away.
    #[verifier::loop_isolation(false)]
    pub fn put(&mut self, c: SessionController) -> (r: Result<(), SupervisorError>)
        requires
            old(self).wf(),
            c.wf(),
        ensures
            final(self).wf(),
            match r {
                Ok(()) => {
                    &&& !has_guild(old(self)@, c.guild())
                    &&& final(self)@ == old(self)@.push(c)
                },
                Err(e) => {
                    &&& e == SupervisorError::DuplicateGuild
                    &&& has_guild(old(self)@, c.guild())
                    &&& final(self)@ == old(self)@
                },
            },
    {
        let guild_id = c.guild_id();
        let mut i: usize = 0;
        while i < self.entries.len()
            invariant
                i <= self.entries.len(),
                forall|k: int| 0 <= k < i ==> (#[trigger] self.entries@[k]).guild() != guild_id,
            decreases self.entries.len() - i,
        {
            if self.entries[i].guild_id() == guild_id {
                proof {
                    assert(self@[i as int].guild() == guild_id);
                }
                return Err(SupervisorError::DuplicateGuild);
            }
            i = i + 1;
        }
        self.entries.push(c);
        Ok(())
    }
}

/// Law: a well-formed table holds at most one session per guild; any two
/// entries for the same guild are the same entry.
pub proof fn lemma_one_session_per_guild(t: &SupervisorTable, guild_id: u64)
    requires
        t.wf(),
    ensures
        forall|i: int, j: int|
            0 <= i < t@.len() && 0 <= j < t@.len() && (#[trigger] t@[i]).guild() == guild_id && (
            #[trigger] t@[j]).guild() == guild_id ==> i == j,
{
    assert forall|i: int, j: int|
        0 <= i < t@.len() && 0 <= j < t@.len() && (#[trigger] t@[i]).guild() == guild_id && (
        #[trigger] t@[j]).guild() == guild_id implies i == j by {
        if i < j {
            assert(t@[i].guild() != t@[j].guild());
        }
        if j < i {
            assert(t@[j].guild() != t@[i].guild());
        }
    }
}

} // verus!
