use voice_capture::demux::{demux_tick, RouteOutcome, TickEntry};
use voice_capture::registry::{SpeakerRegistry, SpeakerSlot};
use voice_capture::sink::ProcessSink;

fn slot(user_id: u64, ssrc: u32) -> SpeakerSlot {
    SpeakerSlot {
        user_id,
        ssrc,
        started_at_millis: 0,
        file_name: format!("0-{}-u", user_id),
        sink: ProcessSink::spawn(),
    }
}

#[test]
fn routes_known_entries_and_skips_the_rest() {
    let mut reg = SpeakerRegistry::new();
    reg.register(slot(1, 11)).unwrap();
    reg.register(slot(2, 22)).unwrap();

    // Two known speakers with audio, one unknown SSRC, one silent entry:
    // exactly two writes, the other two entries are skipped.
    let tick = vec![
        TickEntry { ssrc: 22, samples: Some(vec![2, -2]) },
        TickEntry { ssrc: 99, samples: Some(vec![7]) },
        TickEntry { ssrc: 11, samples: Some(vec![1]) },
        TickEntry { ssrc: 11, samples: None },
    ];
    let (outcomes, writes) = demux_tick(&mut reg, &tick);
    assert_eq!(
        outcomes,
        vec![
            RouteOutcome::Written,
            RouteOutcome::UnknownSsrc,
            RouteOutcome::Written,
            RouteOutcome::NoAudio,
        ]
    );
    assert_eq!(writes.len(), 2);
    assert_eq!(writes[0].ssrc, 22);
    assert_eq!(writes[0].bytes, vec![2, 0, 254, 255]);
    assert_eq!(writes[1].ssrc, 11);
    assert_eq!(writes[1].bytes, vec![1, 0]);

    // The registry's mapping is untouched; only the sinks' totals moved.
    assert_eq!(reg.active_count(), 2);
    assert_eq!(reg.lookup_by_user(1), Some(11));
    assert_eq!(reg.lookup_by_user(2), Some(22));
}

#[test]
fn write_counts_do_not_depend_on_tick_order() {
    let forward = vec![
        TickEntry { ssrc: 11, samples: Some(vec![1]) },
        TickEntry { ssrc: 99, samples: Some(vec![9]) },
        TickEntry { ssrc: 22, samples: Some(vec![2]) },
    ];
    let backward = vec![
        TickEntry { ssrc: 22, samples: Some(vec![2]) },
        TickEntry { ssrc: 99, samples: Some(vec![9]) },
        TickEntry { ssrc: 11, samples: Some(vec![1]) },
    ];
    for tick in [forward, backward] {
        let mut reg = SpeakerRegistry::new();
        reg.register(slot(1, 11)).unwrap();
        reg.register(slot(2, 22)).unwrap();
        let (outcomes, writes) = demux_tick(&mut reg, &tick);
        let written = outcomes.iter().filter(|o| **o == RouteOutcome::Written).count();
        let skipped = outcomes.iter().filter(|o| **o == RouteOutcome::UnknownSsrc).count();
        assert_eq!(written, 2);
        assert_eq!(skipped, 1);
        assert_eq!(writes.len(), 2);
    }
}

#[test]
fn a_tick_never_creates_a_sink() {
    let mut reg = SpeakerRegistry::new();
    let tick = vec![TickEntry { ssrc: 5, samples: Some(vec![1]) }];
    let (outcomes, writes) = demux_tick(&mut reg, &tick);
    assert_eq!(outcomes, vec![RouteOutcome::UnknownSsrc]);
    assert!(writes.is_empty());
    assert_eq!(reg.active_count(), 0);
}
