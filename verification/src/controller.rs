//! The per-guild session controller.
//!
//! The controller owns the speaker registry and answers both event paths:
//! the membership path (join, leave, switch decisions and the start of the
//! shutdown handshake) and the audio path (speaking-state observations,
//! audio ticks, client disconnects, and the cleanup side of the handshake).
//! The two paths are driven independently by the surrounding runtime and
//! never share a call stack; the handshake phases recorded here make their
//! rendezvous explicit, and the connection may be released only once the
//! audio path has acknowledged the cleanup request.

use vstd::prelude::*;

use crate::calendar::{utc_month, utc_month_of, utc_year, utc_year_of, MAX_TIMESTAMP_MILLIS};
use crate::demux::{demux_tick, route_spec, writes_spec, RouteOutcome, SinkWrite, TickEntry};
use crate::metadata::{EnterState, LeaveState, MetadataFinalize, MetadataInsert};
use crate::paths::{dir_path_spec, file_name_spec, recording_file_name, recording_path};
use crate::registry::{
    has_ssrc, has_user, same_mapping, slots_distinct, slots_open, SpeakerRegistry, SpeakerSlot,
};
use crate::select::{select_channel, selected_spec, ChannelInfo};
use crate::sink::ProcessSink;

verus! {

/// Connection state of one guild's voice session.
#[derive(Clone, Copy, Debug, PartialEq, Eq, Structural)]
pub enum SessionState {
    /// No voice connection is held.
    Disconnected,
    /// Connected to, and monitoring, this channel.
    Connected { channel_id: u64 },
    /// A leave or switch is in progress: the handshake with the audio path
    /// runs before the connection is released.
    ShuttingDown,
}

/// Progress of the graceful shutdown handshake.
#[derive(Clone, Copy, Debug, PartialEq, Eq, Structural)]
pub enum CleanupPhase {
    /// Normal operation: new speakers are accepted.
    Accepting,
    /// The membership path has requested cleanup; no new speakers are
    /// accepted from this point on.
    Requested,
    /// The audio path has finalized every in-flight sink and acknowledged.
    Acked,
}

/// The signals exchanged between the two event paths during shutdown.
#[derive(Clone, Copy, Debug, PartialEq, Eq, Structural)]
pub enum ShutdownSignal {
    /// Membership path to audio path: finalize everything, then confirm.
    CleanupRequested,
    /// Audio path to membership path: all in-flight sinks are finalized.
    CleanupComplete,
}

/// A membership event, reduced to the fields the controller acts on.
#[derive(Clone, Copy, Debug)]
pub struct VoiceStateChange {
    pub user_id: u64,
    /// The subject is a bot account.
    pub is_bot: bool,
    /// The subject is this process's own user.
    pub is_self: bool,
    pub old_channel: Option<u64>,
    pub new_channel: Option<u64>,
}

/// What the membership path must do next.
#[derive(Clone, Copy, Debug, PartialEq, Eq, Structural)]
pub enum MembershipDecision {
    /// Nothing: the event does not change channel membership, or no action
    /// is possible in the current state.
    Ignore,
    /// Join this channel (no session is connected yet).
    Join { channel_id: u64 },
    /// Switch to this channel: run the full shutdown handshake against the
    /// old session first, then join fresh.
    Switch { channel_id: u64 },
    /// Start the shutdown handshake and then release the connection.
    Leave,
}

/// The incumbent channel a selection tie should retain.
pub open spec fn incumbent_of(state: SessionState) -> Option<u64> {
    match state {
        SessionState::Connected { channel_id } => Some(channel_id),
        _ => None,
    }
}

/// The decision table of the membership path, given the session state, the
/// event, and the channel the selection policy picked from the directory
/// snapshot (if any).
pub open spec fn decide_spec(
    state: SessionState,
    ev: VoiceStateChange,
    sel: Option<u64>,
) -> MembershipDecision {
    if ev.is_self && ev.new_channel is None {
        // Our own membership was removed: always a forced leave.
        if state is Connected {
            MembershipDecision::Leave
        } else {
            MembershipDecision::Ignore
        }
    } else if ev.is_bot {
        // Bots neither count for selection nor get recorded.
        MembershipDecision::Ignore
    } else if ev.old_channel == ev.new_channel {
        // Not a channel change (mute, deafen, ...): ignore entirely.
        MembershipDecision::Ignore
    } else {
        match sel {
            None => if state is Connected {
                MembershipDecision::Leave
            } else {
                MembershipDecision::Ignore
            },
            Some(c) => match state {
                SessionState::Disconnected => MembershipDecision::Join { channel_id: c },
                SessionState::Connected { channel_id } => if channel_id == c {
                    MembershipDecision::Ignore
                } else {
                    MembershipDecision::Switch { channel_id: c }
                },
                SessionState::ShuttingDown => MembershipDecision::Ignore,
            },
        }
    }
}


/// Result of one speaking-state observation.
pub enum SpeakingOutcome {
    /// The speaker is a bot: bots are never recorded.
    IgnoredBot,
    /// No connected session accepts new speakers right now.
    NotAccepting,
    /// The SSRC or the user already owns a live slot (a reconnect race or
    /// a duplicated event); the live slot is left untouched.
    AlreadyActive,
    /// A new capture started: the caller spawns the transcoder process at
    /// `path` and inserts `record` into the metadata store.
    Started { path: String, record: MetadataInsert },
}

/// Result of handling one client disconnect: which sink to reap and the
/// metadata update to write.
pub struct DisconnectReport {
    /// The SSRC whose transcoder process the caller must now reap.
    pub ssrc: u32,
    /// Samples the sink accepted over its lifetime.
    pub samples_written: u64,
    /// The metadata update, keyed by the artifact file name.
    pub finalize: MetadataFinalize,
}

/// The controller of one guild's voice session.
pub struct SessionController {
    guild_id: u64,
    state: SessionState,
    phase: CleanupPhase,
    registry: SpeakerRegistry,
}

impl SessionController {
    /// The guild this controller belongs to.
    pub closed spec fn guild(&self) -> u64 {
        self.guild_id
    }

    /// Current connection state.
    pub closed spec fn state(&self) -> SessionState {
        self.state
    }

    /// Current handshake phase.
    pub closed spec fn phase(&self) -> CleanupPhase {
        self.phase
    }

    /// The registered speaker slots.
    pub closed spec fn slots(&self) -> Seq<SpeakerSlot> {
        self.registry@
    }

    /// Controller invariant: the registry is well-formed; a session that is
    /// not shutting down has no pending handshake; a disconnected session
    /// holds no slots; and once the cleanup is acknowledged, every slot is
    /// gone, so releasing the connection cannot orphan a sink.
    pub open spec fn wf(&self) -> bool {
        &&& slots_distinct(self.slots())
        &&& slots_open(self.slots())
        &&& (self.state() is Disconnected ==> self.slots().len() == 0 && self.phase() is Accepting)
        &&& (self.state() is Connected ==> self.phase() is Accepting)
        &&& (self.state() is ShuttingDown ==> !(self.phase() is Accepting))
        &&& (self.phase() is Acked ==> self.slots().len() == 0)
    }

    /// A fresh, disconnected controller for one guild.
    pub fn new(guild_id: u64) -> (c: SessionController)
        ensures
            c.wf(),
            c.guild() == guild_id,
            c.state() is Disconnected,
            c.phase() is Accepting,
            c.slots().len() == 0,
    {
        SessionController {
            guild_id,
            state: SessionState::Disconnected,
            phase: CleanupPhase::Accepting,
            registry: SpeakerRegistry::new(),
        }
    }

    /// Current connection state.
    pub fn current_state(&self) -> (s: SessionState)
        ensures
            s == self.state(),
    {
        self.state
    }

    /// Current handshake phase.
    pub fn cleanup_phase(&self) -> (p: CleanupPhase)
        ensures
            p == self.phase(),
    {
        self.phase
    }

    /// The guild this controller belongs to.
    pub fn guild_id(&self) -> (g: u64)
        ensures
            g == self.guild(),
    {
        self.guild_id
    }

    /// Number of speakers currently being captured.
    pub fn active_count(&self) -> (n: usize)
        ensures
            n == self.slots().len(),
    {
        self.registry.active_count()
    }

    /// The pure decision table applied to an already-computed selection.
    pub fn decide_membership(&self, ev: &VoiceStateChange, selection: Option<u64>) -> (d:
        MembershipDecision)
        ensures
            d == decide_spec(self.state(), *ev, selection),
    {
        if ev.is_self && ev.new_channel.is_none() {
            if let SessionState::Connected { .. } = self.state {
                MembershipDecision::Leave
            } else {
                MembershipDecision::Ignore
            }
        } else if ev.is_bot {
            MembershipDecision::Ignore
        } else {
            let noop = match (ev.old_channel, ev.new_channel) {
                (Some(a), Some(b)) => a == b,
                (None, None) => true,
                _ => false,
            };
            if noop {
                MembershipDecision::Ignore
            } else {
                match selection {
                    None => {
                        if let SessionState::Connected { .. } = self.state {
                            MembershipDecision::Leave
                        } else {
                            MembershipDecision::Ignore
                        }
                    },
                    Some(c) => match self.state {
                        SessionState::Disconnected => MembershipDecision::Join { channel_id: c },
                        SessionState::Connected { channel_id } => {
                            if channel_id == c {
                                MembershipDecision::Ignore
                            } else {
                                MembershipDecision::Switch { channel_id: c }
                            }
                        },
                        SessionState::ShuttingDown => MembershipDecision::Ignore,
                    },
                }
            }
        }
    }

    /// Evaluates one membership event against a directory snapshot: runs
    /// the selection policy (retaining the current channel on ties) and
    /// applies the decision table to its result.
    pub fn evaluate_membership(
        &self,
        ev: &VoiceStateChange,
        channels: &Vec<ChannelInfo>,
        afk: Option<u64>,
    ) -> (d: MembershipDecision)
        ensures
            d == decide_spec(
                self.state(),
                *ev,
                selected_spec(channels@, afk, incumbent_of(self.state())),
            ),
    {
        let incumbent = match self.state {
            SessionState::Connected { channel_id } => Some(channel_id),
            _ => None,
        };
        let sel = select_channel(channels, afk, incumbent);
        self.decide_membership(ev, sel)
    }

    /// Handles one speaking-state observation: the single authoritative
    /// site that may create a speaker slot. A bot is never recorded; no
    /// slot is created unless the session is connected and accepting; and
    /// an SSRC or user that already owns a live slot is never overwritten.
    /// Otherwise a slot is created, and the caller must spawn the
    /// transcoder at `path` and insert `record` into the metadata store.
    pub fn observe_speaking(
        &mut self,
        base_dir: &str,
        user_id: u64,
        ssrc: u32,
        is_bot: bool,
        user_name: &str,
        now_millis: i64,
    ) -> (o: SpeakingOutcome)
        requires
            old(self).wf(),
            0 <= now_millis <= MAX_TIMESTAMP_MILLIS,
        ensures
            final(self).wf(),
            final(self).guild() == old(self).guild(),
            final(self).state() == old(self).state(),
            final(self).phase() == old(self).phase(),
            match o {
                SpeakingOutcome::IgnoredBot => is_bot && final(self).slots() == old(self).slots(),
                SpeakingOutcome::NotAccepting => {
                    &&& !is_bot
                    &&& !(old(self).state() is Connected)
                    &&& final(self).slots() == old(self).slots()
                },
                SpeakingOutcome::AlreadyActive => {
                    &&& !is_bot
                    &&& old(self).state() is Connected
                    &&& has_ssrc(old(self).slots(), ssrc) || has_user(old(self).slots(), user_id)
                    &&& final(self).slots() == old(self).slots()
                },
                SpeakingOutcome::Started { path, record } => {
                    &&& !is_bot
                    &&& old(self).state() is Connected
                    &&& !has_ssrc(old(self).slots(), ssrc)
                    &&& !has_user(old(self).slots(), user_id)
                    &&& final(self).slots() == old(self).slots().push(final(self).slots().last())
                    &&& final(self).slots().last().user_id == user_id
                    &&& final(self).slots().last().ssrc == ssrc
                    &&& final(self).slots().last().started_at_millis == now_millis
                    &&& final(self).slots().last().file_name@ == file_name_spec(
                        now_millis,
                        user_id,
                        user_name@,
                    )
                    &&& final(self).slots().last().sink.is_open()
                    &&& final(self).slots().last().sink.written() == 0
                    &&& record.file_name@ == file_name_spec(now_millis, user_id, user_name@)
                    &&& record.guild_id == old(self).guild()
                    &&& record.channel_id == old(self).state()->channel_id
                    &&& record.user_id == user_id
                    &&& record.year == utc_year_of(now_millis)
                    &&& record.month == utc_month_of(now_millis)
                    &&& record.start_ts_millis == now_millis
                    &&& (record.enter_state is JoinedFirst <==> old(self).slots().len() == 0)
                    &&& path@ == dir_path_spec(
                        base_dir@,
                        old(self).guild(),
                        old(self).state()->channel_id,
                        utc_year_of(now_millis),
                        utc_month_of(now_millis),
                    ) + "/"@ + file_name_spec(now_millis, user_id, user_name@)
                },
            },
    {
        if is_bot {
            return SpeakingOutcome::IgnoredBot;
        }
        let channel_id = match self.state {
            SessionState::Connected { channel_id } => channel_id,
            _ => {
                return SpeakingOutcome::NotAccepting;
            },
        };
        let was_empty = self.registry.active_count() == 0;
        let file_name = recording_file_name(now_millis, user_id, user_name);
        let path = recording_path(base_dir, self.guild_id, channel_id, now_millis, file_name.as_str());
        let year = utc_year(now_millis);
        let month = utc_month(now_millis);
        let record_name = file_name.clone();
        let slot = SpeakerSlot {
            user_id,
            ssrc,
            started_at_millis: now_millis,
            file_name,
            sink: ProcessSink::spawn(),
        };
        match self.registry.register(slot) {
            Err(_) => SpeakingOutcome::AlreadyActive,
            Ok(()) => {
                let record = MetadataInsert {
                    file_name: record_name,
                    guild_id: self.guild_id,
                    channel_id,
                    user_id,
                    year,
                    month,
                    start_ts_millis: now_millis,
                    enter_state: if was_empty {
                        EnterState::JoinedFirst
                    } else {
                        EnterState::JoinedNonempty
                    },
                };
                SpeakingOutcome::Started { path, record }
            },
        }
    }

    /// Demultiplexes one audio tick through the registry. The set of
    /// registered speakers never changes on this path.
    pub fn handle_tick(&mut self, tick: &Vec<TickEntry>) -> (r: (Vec<RouteOutcome>, Vec<SinkWrite>))
        requires
            old(self).wf(),
        ensures
            final(self).wf(),
            final(self).guild() == old(self).guild(),
            final(self).state() == old(self).state(),
            final(self).phase() == old(self).phase(),
            same_mapping(old(self).slots(), final(self).slots()),
            r.0@.len() == tick@.len(),
            forall|i: int| 0 <= i < tick@.len() ==> r.0@[i] == route_spec(old(self).slots(), tick@[i]),
            r.1@.map_values(|w: SinkWrite| (w.ssrc, w.bytes@)) == writes_spec(
                old(self).slots(),
                tick@,
            ),
    {
        demux_tick(&mut self.registry, tick)
    }

    /// Handles a client disconnect: removes the speaker's slot (if one
    /// exists; a duplicate disconnect or a bot yields `None` and changes
    /// nothing), finalizes its sink, and reports the metadata update the
    /// caller must write. The slot leaves the registry before the sink is
    /// finalized, so no tick can route into a closing sink.
    pub fn client_disconnected(&mut self, user_id: u64, now_millis: i64) -> (r: Option<
        DisconnectReport,
    >)
        requires
            old(self).wf(),
        ensures
            final(self).wf(),
            final(self).guild() == old(self).guild(),
            final(self).state() == old(self).state(),
            final(self).phase() == old(self).phase(),
            match r {
                None => {
                    &&& !has_user(old(self).slots(), user_id)
                    &&& final(self).slots() == old(self).slots()
                },
                Some(rep) => {
                    &&& has_user(old(self).slots(), user_id)
                    &&& exists|i: int|
                        0 <= i < old(self).slots().len() && (#[trigger] old(self).slots()[i]).user_id
                            == user_id && rep.ssrc == old(self).slots()[i].ssrc
                            && rep.finalize.file_name == old(self).slots()[i].file_name
                            && final(self).slots() == old(self).slots().remove(i)
                    &&& rep.finalize.end_ts_millis == now_millis
                    &&& (rep.finalize.leave_state is LastToLeave <==> old(self).slots().len() == 1)
                    &&& final(self).slots().len() == old(self).slots().len() - 1
                    &&& !has_user(final(self).slots(), user_id)
                },
            },
    {
        match self.registry.remove_by_user(user_id) {
            None => None,
            Some(slot) => {
                let mut slot = slot;
                let ghost slot0 = slot;
                let _ = slot.sink.finalize();
                let last = self.registry.active_count() == 0;
                let rep = DisconnectReport {
                    ssrc: slot.ssrc,
                    samples_written: slot.sink.written_count(),
                    finalize: MetadataFinalize {
                        file_name: slot.file_name,
                        end_ts_millis: now_millis,
                        leave_state: if last {
                            LeaveState::LastToLeave
                        } else {
                            LeaveState::StillOccupied
                        },
                    },
                };
                proof {
                    let i = choose|i: int|
                        0 <= i < old(self).slots().len() && old(self).slots()[i] == slot0 && self.slots()
                            == old(self).slots().remove(i);
                    assert(0 <= i < old(self).slots().len() && (#[trigger] old(self).slots()[i]).user_id
                        == user_id && rep.ssrc == old(self).slots()[i].ssrc
                        && rep.finalize.file_name == old(self).slots()[i].file_name && self.slots()
                        == old(self).slots().remove(i));
                }
                Some(rep)
            },
        }
    }

    /// Membership path: starts the shutdown handshake for a leave or a
    /// switch. From here on the audio path accepts no new speakers; the
    /// caller broadcasts the returned signal to the audio path and must
    /// not release the connection until [`Self::run_cleanup`] has produced
    /// the acknowledgement.
    pub fn begin_leave(&mut self) -> (sig: ShutdownSignal)
        requires
            old(self).wf(),
            old(self).state() is Connected,
        ensures
            final(self).wf(),
            final(self).guild() == old(self).guild(),
            final(self).state() is ShuttingDown,
            final(self).phase() is Requested,
            final(self).slots() == old(self).slots(),
            sig == ShutdownSignal::CleanupRequested,
    {
        self.state = SessionState::ShuttingDown;
        self.phase = CleanupPhase::Requested;
        ShutdownSignal::CleanupRequested
    }

    /// Audio path: answers a cleanup request. Every sink that is in flight
    /// at this moment is finalized, exactly one finalization report per
    /// slot and in registration order; the last speaker drained is marked
    /// as the last to leave. Afterwards no slot remains, the phase is
    /// acknowledged, and the caller broadcasts the returned signal back to
    /// the membership path and writes the reported metadata updates.
    pub fn run_cleanup(&mut self, now_millis: i64) -> (r: (Vec<MetadataFinalize>, ShutdownSignal))
        requires
            old(self).wf(),
            old(self).phase() is Requested,
        ensures
            final(self).wf(),
            final(self).guild() == old(self).guild(),
            final(self).state() == old(self).state(),
            final(self).phase() is Acked,
            final(self).slots().len() == 0,
            r.0@.len() == old(self).slots().len(),
            forall|i: int|
                0 <= i < r.0@.len() ==> {
                    &&& (#[trigger] r.0@[i]).file_name == old(self).slots()[i].file_name
                    &&& r.0@[i].end_ts_millis == now_millis
                    &&& (r.0@[i].leave_state is LastToLeave <==> i == r.0@.len() - 1)
                },
            r.1 == ShutdownSignal::CleanupComplete,
    {
        let ghost orig = self.registry@;
        let mut reports: Vec<MetadataFinalize> = Vec::new();
        loop
            invariant
                self.guild_id == old(self).guild_id,
                self.state == old(self).state,
                self.phase == old(self).phase,
                self.registry.wf(),
                reports@.len() + self.registry@.len() == orig.len(),
                self.registry@ == orig.subrange(reports@.len() as int, orig.len() as int),
                forall|i: int|
                    0 <= i < reports@.len() ==> {
                        &&& (#[trigger] reports@[i]).file_name == orig[i].file_name
                        &&& reports@[i].end_ts_millis == now_millis
                        &&& (reports@[i].leave_state is LastToLeave <==> i == orig.len() - 1)
                    },
            ensures
                reports@.len() == orig.len(),
                self.registry@.len() == 0,
                self.guild_id == old(self).guild_id,
                self.state == old(self).state,
                self.phase == old(self).phase,
                forall|i: int|
                    0 <= i < reports@.len() ==> {
                        &&& (#[trigger] reports@[i]).file_name == orig[i].file_name
                        &&& reports@[i].end_ts_millis == now_millis
                        &&& (reports@[i].leave_state is LastToLeave <==> i == orig.len() - 1)
                    },
            decreases self.registry@.len(),
        {
            let ghost pre = self.registry@;
            let next = self.registry.take_first();
            match next {
                None => {
                    break;
                },
                Some(slot) => {
                    let mut slot = slot;
                    let _ = slot.sink.finalize();
                    let last = self.registry.active_count() == 0;
                    proof {
                        assert(pre[0] == orig[reports@.len() as int]);
                        assert(self.registry@ =~= orig.subrange(
                            reports@.len() + 1int,
                            orig.len() as int,
                        ));
                    }
                    reports.push(
                        MetadataFinalize {
                            file_name: slot.file_name,
                            end_ts_millis: now_millis,
                            leave_state: if last {
                                LeaveState::LastToLeave
                            } else {
                                LeaveState::StillOccupied
                            },
                        },
                    );
                },
            }
        }
        self.phase = CleanupPhase::Acked;
        (reports, ShutdownSignal::CleanupComplete)
    }

    /// Membership path: releases the session after the audio path has
    /// acknowledged. Callable only once the handshake is acknowledged, so
    /// the connection teardown is structurally unreachable while any sink
    /// is still in flight. The caller drops the external connection handle
    /// exactly here.
    pub fn complete_leave(&mut self)
        requires
            old(self).wf(),
            old(self).phase() is Acked,
        ensures
            final(self).wf(),
            final(self).guild() == old(self).guild(),
            final(self).state() is Disconnected,
            final(self).phase() is Accepting,
            final(self).slots().len() == 0,
    {
        self.state = SessionState::Disconnected;
        self.phase = CleanupPhase::Accepting;
    }

    /// Membership path: records a successful join. The session starts from
    /// a brand-new registry with no residual slots; a failed join leaves
    /// the controller disconnected with nothing acquired, so there is no
    /// partial state to release.
    pub fn confirm_join(&mut self, channel_id: u64)
        requires
            old(self).wf(),
            old(self).state() is Disconnected,
        ensures
            final(self).wf(),
            final(self).guild() == old(self).guild(),
            final(self).state() == (SessionState::Connected { channel_id }),
            final(self).phase() is Accepting,
            final(self).slots().len() == 0,
    {
        self.state = SessionState::Connected { channel_id };
        self.phase = CleanupPhase::Accepting;
        self.registry = SpeakerRegistry::new();
    }
}

/// Law: once the audio path has acknowledged a cleanup request, no sink is
/// in flight any more, so the connection release that
/// [`SessionController::complete_leave`] permits cannot orphan a sink or
/// race a finalization. Together with the contract of
/// [`SessionController::run_cleanup`] (one finalization report per slot
/// that was in flight when the leave began) this is the shutdown
/// guarantee: a leave with some number of in-flight sinks completes
/// exactly that many finalizations before the release can run, whatever
/// the interleaving of tick delivery and the leave trigger.
pub proof fn lemma_release_implies_drained(c: &SessionController)
    requires
        c.wf(),
        c.phase() is Acked,
    ensures
        c.slots().len() == 0,
{
}

} // verus!
