//! The decision core of the clip-playback front ends.
//!
//! A clip request names a clip and a guild; the clip is played only into
//! the voice channel where the requested listener currently sits. This
//! module decides the response code and which channel to play into; the
//! transports around it (HTTP, RPC) only carry the request and perform the
//! playback.

use vstd::prelude::*;

verus! {

/// A clip-playback request as the front ends deliver it; either field may
/// be missing from a malformed request.
pub struct Response {
    pub clip_name: Option<String>,
    pub guild_id: Option<u64>,
}

/// The response code of a clip request.
#[derive(Clone, Copy, Debug, PartialEq, Eq, Structural)]
pub enum Ras {
    OK,
    NotPresentInChannel,
    Unkown,
}

impl Ras {
    /// The numeric wire code of this response (the declaration order).
    pub open spec fn code_spec(&self) -> u8 {
        match self {
            Ras::OK => 0,
            Ras::NotPresentInChannel => 1,
            Ras::Unkown => 2,
        }
    }

    /// The numeric wire code of this response.
    pub fn code(&self) -> (c: u8)
        ensures
            c == self.code_spec(),
    {
        match self {
            Ras::OK => 0,
            Ras::NotPresentInChannel => 1,
            Ras::Unkown => 2,
        }
    }
}

/// One voice channel and the users present in it.
pub struct VoiceChannelMembers {
    pub channel_id: u64,
    pub member_ids: Vec<u64>,
}

/// The user sits in this channel.
pub open spec fn channel_has_member(c: VoiceChannelMembers, user_id: u64) -> bool {
    exists|j: int| 0 <= j < c.member_ids@.len() && c.member_ids@[j] == user_id
}

/// The user sits in some of these channels.
pub open spec fn some_channel_has(s: Seq<VoiceChannelMembers>, user_id: u64) -> bool {
    exists|i: int| 0 <= i < s.len() && channel_has_member(s[i], user_id)
}

/// Finds the channel the target user sits in: the first channel, in
/// snapshot order, whose member list holds the user; `None` if no channel
/// does.
#[verifier::loop_isolation(false)]
pub fn find_user_channel(channels: &Vec<VoiceChannelMembers>, target_user: u64) -> (r: Option<u64>)
    ensures
        match r {
            None => !some_channel_has(channels@, target_user),
            Some(c) => exists|i: int|
                0 <= i < channels@.len() && (#[trigger] channels@[i]).channel_id == c
                    && channel_has_member(channels@[i], target_user) && forall|k: int|
                    0 <= k < i ==> !channel_has_member(channels@[k], target_user),
        },
{
    let mut i: usize = 0;
    while i < channels.len()
        invariant
            i <= channels.len(),
            forall|k: int| 0 <= k < i ==> !channel_has_member(channels@[k], target_user),
        decreases channels.len() - i,
    {
        let members = &channels[i].member_ids;
        let mut j: usize = 0;
        while j < members.len()
            invariant
                j <= members.len(),
                forall|k: int| 0 <= k < j ==> members@[k] != target_user,
            decreases members.len() - j,
        {
            if members[j] == target_user {
                proof {
                    assert(channel_has_member(channels@[i as int], target_user));
                }
                return Some(channels[i].channel_id);
            }
            j = j + 1;
        }
        proof {
            assert(!channel_has_member(channels@[i as int], target_user));
        }
        i = i + 1;
    }
    None
}

/// The response code for a clip request: a request missing its clip name
/// or guild, or naming an unknown guild, is unknown; otherwise the clip
/// plays exactly when the listener sits in some voice channel.
pub open spec fn clip_code_spec(
    has_clip_name: bool,
    has_guild_id: bool,
    guild_found: bool,
    user_channel: Option<u64>,
) -> Ras {
    if !has_clip_name || !has_guild_id {
        Ras::Unkown
    } else if !guild_found {
        Ras::Unkown
    } else if user_channel is Some {
        Ras::OK
    } else {
        Ras::NotPresentInChannel
    }
}

/// Decides the response for a clip request, given whether the named guild
/// was found and (if so) where the listener sits.
pub fn clip_request_code(req: &Response, guild_found: bool, user_channel: Option<u64>) -> (r: Ras)
    ensures
        r == clip_code_spec(
            req.clip_name is Some,
            req.guild_id is Some,
            guild_found,
            user_channel,
        ),
{
    if req.clip_name.is_none() || req.guild_id.is_none() {
        Ras::Unkown
    } else if !guild_found {
        Ras::Unkown
    } else if user_channel.is_some() {
        Ras::OK
    } else {
        Ras::NotPresentInChannel
    }
}

} // verus!
