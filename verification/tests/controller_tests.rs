use voice_capture::controller::{
    MembershipDecision, SessionController, SessionState, ShutdownSignal, SpeakingOutcome,
    VoiceStateChange,
};
use voice_capture::demux::{RouteOutcome, TickEntry};
use voice_capture::metadata::{EnterState, LeaveState};
use voice_capture::select::ChannelInfo;

fn ch(channel_id: u64, non_bot_members: u64) -> ChannelInfo {
    ChannelInfo { channel_id, non_bot_members }
}

fn join_event(user_id: u64, to: u64) -> VoiceStateChange {
    VoiceStateChange {
        user_id,
        is_bot: false,
        is_self: false,
        old_channel: None,
        new_channel: Some(to),
    }
}

#[test]
fn mute_and_deafen_toggles_are_ignored() {
    let c = SessionController::new(7);
    let ev = VoiceStateChange {
        user_id: 1,
        is_bot: false,
        is_self: false,
        old_channel: Some(5),
        new_channel: Some(5),
    };
    let d = c.evaluate_membership(&ev, &vec![ch(5, 3)], None);
    assert_eq!(d, MembershipDecision::Ignore);
}

#[test]
fn bot_movements_are_ignored() {
    let c = SessionController::new(7);
    let ev = VoiceStateChange {
        user_id: 1,
        is_bot: true,
        is_self: false,
        old_channel: Some(5),
        new_channel: Some(6),
    };
    let d = c.evaluate_membership(&ev, &vec![ch(6, 3)], None);
    assert_eq!(d, MembershipDecision::Ignore);
}

#[test]
fn own_membership_removed_forces_a_leave() {
    let mut c = SessionController::new(7);
    c.confirm_join(5);
    let ev = VoiceStateChange {
        user_id: 999,
        is_bot: true,
        is_self: true,
        old_channel: Some(5),
        new_channel: None,
    };
    // Even though another channel is busy, our own removal means leave.
    let d = c.evaluate_membership(&ev, &vec![ch(6, 4)], None);
    assert_eq!(d, MembershipDecision::Leave);
}

#[test]
fn a_first_join_targets_the_busiest_channel() {
    let c = SessionController::new(7);
    let d = c.evaluate_membership(&join_event(1, 5), &vec![ch(5, 2), ch(6, 1)], None);
    assert_eq!(d, MembershipDecision::Join { channel_id: 5 });
}

#[test]
fn a_busier_channel_triggers_a_switch() {
    let mut c = SessionController::new(7);
    c.confirm_join(5);
    let ev = VoiceStateChange {
        user_id: 1,
        is_bot: false,
        is_self: false,
        old_channel: Some(5),
        new_channel: Some(6),
    };
    let d = c.evaluate_membership(&ev, &vec![ch(5, 1), ch(6, 2)], None);
    assert_eq!(d, MembershipDecision::Switch { channel_id: 6 });
}

#[test]
fn an_emptied_guild_triggers_a_leave() {
    let mut c = SessionController::new(7);
    c.confirm_join(5);
    let ev = VoiceStateChange {
        user_id: 1,
        is_bot: false,
        is_self: false,
        old_channel: Some(5),
        new_channel: None,
    };
    let d = c.evaluate_membership(&ev, &vec![ch(5, 0)], None);
    assert_eq!(d, MembershipDecision::Leave);
}

#[test]
fn speakers_are_not_accepted_while_disconnected() {
    let mut c = SessionController::new(7);
    let o = c.observe_speaking("/rec", 42, 100, false, "alice", 0);
    assert!(matches!(o, SpeakingOutcome::NotAccepting));
    assert_eq!(c.active_count(), 0);
}

#[test]
fn bots_are_never_recorded() {
    let mut c = SessionController::new(7);
    c.confirm_join(5);
    let o = c.observe_speaking("/rec", 42, 100, true, "bot", 0);
    assert!(matches!(o, SpeakingOutcome::IgnoredBot));
    assert_eq!(c.active_count(), 0);
}

#[test]
fn a_duplicate_ssrc_does_not_replace_the_live_slot() {
    let mut c = SessionController::new(7);
    c.confirm_join(5);
    assert!(matches!(
        c.observe_speaking("/rec", 42, 100, false, "alice", 0),
        SpeakingOutcome::Started { .. }
    ));
    let o = c.observe_speaking("/rec", 43, 100, false, "bob", 1);
    assert!(matches!(o, SpeakingOutcome::AlreadyActive));
    assert_eq!(c.active_count(), 1);
}

#[test]
fn end_to_end_capture_of_one_speaker() {
    // Channel 9 of guild 7 already has active company: two other speakers
    // are being captured when user 42 starts speaking with SSRC 100.
    let mut c = SessionController::new(7);
    c.confirm_join(9);
    assert!(matches!(
        c.observe_speaking("/rec", 1, 11, false, "m1", 0),
        SpeakingOutcome::Started { .. }
    ));
    assert!(matches!(
        c.observe_speaking("/rec", 2, 22, false, "m2", 0),
        SpeakingOutcome::Started { .. }
    ));

    let o = c.observe_speaking("/rec", 42, 100, false, "alice", 1_670_620_473_631);
    let (path, record) = match o {
        SpeakingOutcome::Started { path, record } => (path, record),
        _ => panic!("expected a started capture"),
    };
    assert_eq!(path.as_str(), "/rec/7/9/2022/December/1670620473631-42-alice");
    assert_eq!(record.file_name.as_str(), "1670620473631-42-alice");
    assert_eq!(record.guild_id, 7);
    assert_eq!(record.channel_id, 9);
    assert_eq!(record.user_id, 42);
    assert_eq!(record.year, 2022);
    assert_eq!(record.month, 12);
    assert_eq!(record.start_ts_millis, 1_670_620_473_631);
    // Company was already present, so the speaker did not join first.
    assert_eq!(record.enter_state, EnterState::JoinedNonempty);
    assert_eq!(record.enter_state.code(), 2);
    assert_eq!(c.active_count(), 3);

    // Audio ticks stream in and reach the speaker's sink.
    let tick = vec![TickEntry { ssrc: 100, samples: Some(vec![1, -1]) }];
    let (outcomes, writes) = c.handle_tick(&tick);
    assert_eq!(outcomes, vec![RouteOutcome::Written]);
    assert_eq!(writes.len(), 1);
    assert_eq!(writes[0].ssrc, 100);
    assert_eq!(writes[0].bytes, vec![1, 0, 255, 255]);

    // The speaker disconnects: the slot is removed, the sink finalized,
    // and the metadata is finalized as still-occupied (company remains).
    let rep = c.client_disconnected(42, 1_670_620_500_000).unwrap();
    assert_eq!(rep.ssrc, 100);
    assert_eq!(rep.samples_written, 2);
    assert_eq!(rep.finalize.file_name.as_str(), "1670620473631-42-alice");
    assert_eq!(rep.finalize.end_ts_millis, 1_670_620_500_000);
    assert_eq!(rep.finalize.leave_state, LeaveState::StillOccupied);
    assert_eq!(rep.finalize.leave_state.code(), 2);
    assert_eq!(c.active_count(), 2);

    // A duplicate disconnect is a benign no-op.
    assert!(c.client_disconnected(42, 1_670_620_500_001).is_none());
    assert_eq!(c.active_count(), 2);
}

#[test]
fn the_last_speaker_to_leave_is_marked_as_such() {
    let mut c = SessionController::new(7);
    c.confirm_join(9);
    assert!(matches!(
        c.observe_speaking("/rec", 42, 100, false, "alice", 0),
        SpeakingOutcome::Started { record, .. } if record.enter_state == EnterState::JoinedFirst
    ));
    let rep = c.client_disconnected(42, 5).unwrap();
    assert_eq!(rep.finalize.leave_state, LeaveState::LastToLeave);
    assert_eq!(rep.finalize.leave_state.code(), 3);
}

#[test]
fn shutdown_finalizes_every_in_flight_sink_before_release() {
    // Three captures are in flight when the leave begins: the handshake
    // completes exactly three finalizations before the connection may be
    // released.
    let mut c = SessionController::new(7);
    c.confirm_join(9);
    for (user, ssrc) in [(1u64, 11u32), (2, 22), (3, 33)] {
        let name = format!("u{}", user);
        assert!(matches!(
            c.observe_speaking("/rec", user, ssrc, false, name.as_str(), 0),
            SpeakingOutcome::Started { .. }
        ));
    }

    let sig = c.begin_leave();
    assert_eq!(sig, ShutdownSignal::CleanupRequested);
    assert_eq!(c.current_state(), SessionState::ShuttingDown);

    // From this point on, no new speaker is accepted.
    assert!(matches!(
        c.observe_speaking("/rec", 4, 44, false, "late", 0),
        SpeakingOutcome::NotAccepting
    ));

    let (reports, ack) = c.run_cleanup(1_000);
    assert_eq!(ack, ShutdownSignal::CleanupComplete);
    assert_eq!(reports.len(), 3);
    assert_eq!(reports[0].file_name.as_str(), "0-1-u1");
    assert_eq!(reports[1].file_name.as_str(), "0-2-u2");
    assert_eq!(reports[2].file_name.as_str(), "0-3-u3");
    for rep in &reports {
        assert_eq!(rep.end_ts_millis, 1_000);
    }
    assert_eq!(reports[0].leave_state, LeaveState::StillOccupied);
    assert_eq!(reports[1].leave_state, LeaveState::StillOccupied);
    assert_eq!(reports[2].leave_state, LeaveState::LastToLeave);
    assert_eq!(c.active_count(), 0);

    c.complete_leave();
    assert_eq!(c.current_state(), SessionState::Disconnected);
}

#[test]
fn a_session_after_shutdown_starts_from_a_clean_registry() {
    // The last non-bot member leaves; the controller runs the handshake,
    // releases, and a later join starts with no residual slots.
    let mut c = SessionController::new(7);
    c.confirm_join(9);
    assert!(matches!(
        c.observe_speaking("/rec", 1, 11, false, "u1", 0),
        SpeakingOutcome::Started { .. }
    ));
    let ev = VoiceStateChange {
        user_id: 1,
        is_bot: false,
        is_self: false,
        old_channel: Some(9),
        new_channel: None,
    };
    let d = c.evaluate_membership(&ev, &vec![ch(9, 0)], None);
    assert_eq!(d, MembershipDecision::Leave);

    c.begin_leave();
    let (reports, _) = c.run_cleanup(50);
    assert_eq!(reports.len(), 1);
    c.complete_leave();
    assert_eq!(c.current_state(), SessionState::Disconnected);

    // A new member arrives: a fresh session with a brand-new registry.
    let d = c.evaluate_membership(&join_event(2, 9), &vec![ch(9, 1)], None);
    assert_eq!(d, MembershipDecision::Join { channel_id: 9 });
    c.confirm_join(9);
    assert_eq!(c.current_state(), SessionState::Connected { channel_id: 9 });
    assert_eq!(c.active_count(), 0);
}
