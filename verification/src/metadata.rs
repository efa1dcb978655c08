//! Session metadata records for the external store.
//!
//! One record is inserted when a speaker's capture starts and finalized
//! exactly once when the capture ends; the artifact file name is the join
//! key between the two. The finalize values are produced by whichever path
//! finalizes the speaker's sink, and since the registry hands each slot out
//! exactly once, each record is finalized exactly once.

use vstd::prelude::*;

verus! {

/// Whether the speaker entered an empty channel or joined company.
#[derive(Clone, Copy, Debug, PartialEq, Eq, Structural)]
pub enum EnterState {
    /// The speaker was the first active speaker of the session.
    JoinedFirst,
    /// Other speakers were already active.
    JoinedNonempty,
}

/// Whether other speakers remain when a capture ends.
#[derive(Clone, Copy, Debug, PartialEq, Eq, Structural)]
pub enum LeaveState {
    /// Other speakers are still active.
    StillOccupied,
    /// The speaker was the last one to leave.
    LastToLeave,
}

impl EnterState {
    /// The store's numeric tag for this state.
    pub open spec fn code_spec(&self) -> u8 {
        match self {
            EnterState::JoinedFirst => 1,
            EnterState::JoinedNonempty => 2,
        }
    }

    /// The store's numeric tag for this state.
    pub fn code(&self) -> (c: u8)
        ensures
            c == self.code_spec(),
    {
        match self {
            EnterState::JoinedFirst => 1,
            EnterState::JoinedNonempty => 2,
        }
    }
}

impl LeaveState {
    /// The store's numeric tag for this state.
    pub open spec fn code_spec(&self) -> u8 {
        match self {
            LeaveState::StillOccupied => 2,
            LeaveState::LastToLeave => 3,
        }
    }

    /// The store's numeric tag for this state.
    pub fn code(&self) -> (c: u8)
        ensures
            c == self.code_spec(),
    {
        match self {
            LeaveState::StillOccupied => 2,
            LeaveState::LastToLeave => 3,
        }
    }
}

/// The record written when a capture starts. The end timestamp and leave
/// state are unknown at this point and are supplied by the matching
/// [`MetadataFinalize`].
pub struct MetadataInsert {
    pub file_name: String,
    pub guild_id: u64,
    pub channel_id: u64,
    pub user_id: u64,
    pub year: i32,
    pub month: u32,
    pub start_ts_millis: i64,
    pub enter_state: EnterState,
}

/// The update written when a capture ends, keyed by the artifact file name.
pub struct MetadataFinalize {
    pub file_name: String,
    pub end_ts_millis: i64,
    pub leave_state: LeaveState,
}

} // verus!
