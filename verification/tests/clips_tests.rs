use voice_capture::clips::{
    clip_request_code, find_user_channel, Ras, Response, VoiceChannelMembers,
};

fn chan(channel_id: u64, member_ids: Vec<u64>) -> VoiceChannelMembers {
    VoiceChannelMembers { channel_id, member_ids }
}

fn request(clip_name: Option<&str>, guild_id: Option<u64>) -> Response {
    Response { clip_name: clip_name.map(|s| s.to_string()), guild_id }
}

#[test]
fn finds_the_first_channel_holding_the_user() {
    let channels = vec![chan(1, vec![5, 6]), chan(2, vec![7]), chan(3, vec![7, 8])];
    assert_eq!(find_user_channel(&channels, 7), Some(2));
    assert_eq!(find_user_channel(&channels, 5), Some(1));
    assert_eq!(find_user_channel(&channels, 9), None);
    assert_eq!(find_user_channel(&vec![], 7), None);
}

#[test]
fn a_complete_request_for_a_present_user_plays() {
    let req = request(Some("airhorn"), Some(7));
    assert_eq!(clip_request_code(&req, true, Some(3)), Ras::OK);
}

#[test]
fn an_absent_listener_yields_not_present() {
    let req = request(Some("airhorn"), Some(7));
    assert_eq!(clip_request_code(&req, true, None), Ras::NotPresentInChannel);
}

#[test]
fn malformed_or_unknown_requests_are_unknown() {
    assert_eq!(clip_request_code(&request(None, Some(7)), true, Some(3)), Ras::Unkown);
    assert_eq!(clip_request_code(&request(Some("a"), None), true, Some(3)), Ras::Unkown);
    assert_eq!(clip_request_code(&request(Some("a"), Some(7)), false, Some(3)), Ras::Unkown);
}

#[test]
fn response_codes_follow_declaration_order() {
    assert_eq!(Ras::OK.code(), 0);
    assert_eq!(Ras::NotPresentInChannel.code(), 1);
    assert_eq!(Ras::Unkown.code(), 2);
}
