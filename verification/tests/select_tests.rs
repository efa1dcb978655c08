use voice_capture::select::{select_channel, ChannelInfo};

fn ch(channel_id: u64, non_bot_members: u64) -> ChannelInfo {
    ChannelInfo { channel_id, non_bot_members }
}

#[test]
fn tie_retains_the_incumbent() {
    // A and B both hold 3 non-bot members and B was selected before:
    // the selection stays B.
    let channels = vec![ch(1, 3), ch(2, 3)];
    assert_eq!(select_channel(&channels, None, Some(2)), Some(2));
}

#[test]
fn strictly_greater_count_wins_over_the_incumbent() {
    // A holds 4, B holds 3: A wins even though B is the incumbent.
    let channels = vec![ch(1, 4), ch(2, 3)];
    assert_eq!(select_channel(&channels, None, Some(2)), Some(1));
}

#[test]
fn without_an_incumbent_the_lowest_tied_id_wins() {
    let channels = vec![ch(9, 2), ch(4, 2), ch(7, 2), ch(5, 1)];
    assert_eq!(select_channel(&channels, None, None), Some(4));
}

#[test]
fn an_incumbent_no_longer_tied_does_not_stick() {
    let channels = vec![ch(9, 2), ch(4, 2), ch(7, 1)];
    assert_eq!(select_channel(&channels, None, Some(7)), Some(4));
}

#[test]
fn the_afk_channel_is_never_selected() {
    let channels = vec![ch(1, 5), ch(2, 3)];
    assert_eq!(select_channel(&channels, Some(1), None), Some(2));
}

#[test]
fn no_eligible_channel_selects_nothing() {
    assert_eq!(select_channel(&vec![], None, None), None);
    let empty_only = vec![ch(1, 0), ch(2, 0)];
    assert_eq!(select_channel(&empty_only, None, Some(1)), None);
    let afk_only = vec![ch(3, 4)];
    assert_eq!(select_channel(&afk_only, Some(3), None), None);
}
