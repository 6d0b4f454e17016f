use interceptor::config::{HoldWindow, ReleasePacing, TrafficKind, TrafficRule};
use interceptor::interceptor::{
    event_text, EventTone, random_hold_ms, release_batch_size, release_pause, trigger_pressed, LastEvent, Packet, State,
    WinDivertAddress, MAX_HELD_BYTES, MAX_HELD_PACKETS,
};

fn packet(len: usize) -> Packet {
    Packet {
        data: vec![0; len],
        addr: WinDivertAddress::default(),
    }
}

#[test]
fn held_queue_refuses_more_data_at_the_byte_limit() {
    let mut state = State::new();
    assert!(state.receive_packet(packet(MAX_HELD_BYTES)).is_none());
    assert_eq!(state.queue_bytes(), MAX_HELD_BYTES);

    assert!(!state.can_hold(1));
}

#[test]
fn held_queue_refuses_more_packets_at_the_packet_limit() {
    let mut state = State::new();
    for _ in 0..MAX_HELD_PACKETS {
        assert!(state.receive_packet(packet(0)).is_none());
    }

    assert!(!state.can_hold(1));
}

#[test]
fn draining_packets_reduces_held_memory_accounting() {
    let mut state = State::new();
    assert!(state.receive_packet(packet(64)).is_none());
    assert_eq!(state.queue_bytes(), 64);

    let drained = state.drain_batch(1);

    assert_eq!(drained.len(), 1);
    assert_eq!(state.queue_bytes(), 0);
}

#[test]
fn returning_to_menu_ignores_slow_custom_release_pacing() {
    let pacing = ReleasePacing::Custom {
        packets_per_batch: 1,
        pause_ms: 100,
    };

    assert_eq!(release_batch_size(&pacing, true), MAX_HELD_PACKETS);
    assert!(release_pause(&pacing, true).is_none());
}

#[test]
fn release_pacing_applies_when_not_returning() {
    let pacing = ReleasePacing::Custom {
        packets_per_batch: 12,
        pause_ms: 9,
    };
    assert_eq!(release_batch_size(&pacing, false), 12);
    assert_eq!(release_pause(&pacing, false), Some(9));
    assert_eq!(release_pause(&ReleasePacing::Default, false), Some(4));
}

#[test]
fn packets_over_the_limit_pass_through() {
    let mut state = State::new();
    assert!(state.receive_packet(packet(MAX_HELD_BYTES - 10)).is_none());
    let back = state.receive_packet(packet(11)).expect("passes through");
    assert_eq!(back.data.len(), 11);
    assert_eq!(state.queue_len(), 1);
    assert_eq!(state.matched_total, 2);
    assert_eq!(state.queued_total, 1);
    assert_eq!(state.passed_through_total, 1);
    assert!(matches!(
        state.last_event,
        LastEvent::QueueLimitReached { queued: 1, passed_through: 1, .. }
    ));
    assert!(state.receive_packet(packet(10)).is_none());
    assert_eq!(state.queue_bytes(), MAX_HELD_BYTES);
}

#[test]
fn draining_is_oldest_first_and_bounded() {
    let mut state = State::new();
    for len in 1..=5 {
        assert!(state.receive_packet(packet(len)).is_none());
    }
    let first = state.drain_batch(2);
    assert_eq!(first.iter().map(|p| p.data.len()).collect::<Vec<_>>(), vec![1, 2]);
    assert_eq!(state.queue_bytes(), 12);
    let rest = state.drain_batch(10);
    assert_eq!(rest.iter().map(|p| p.data.len()).collect::<Vec<_>>(), vec![3, 4, 5]);
    assert_eq!(state.queue_len(), 0);
    assert!(state.drain_batch(3).is_empty());
}

#[test]
fn queue_events_are_reported_every_twenty_five_packets() {
    let mut state = State::new();
    state.receive_packet(packet(3));
    assert!(matches!(state.last_event, LastEvent::PacketQueued { bytes: 3, queue: 1, total: 1 }));
    for _ in 0..23 {
        state.receive_packet(packet(3));
    }
    assert!(matches!(state.last_event, LastEvent::PacketQueued { queue: 1, .. }));
    state.receive_packet(packet(3));
    assert!(matches!(state.last_event, LastEvent::PacketQueued { queue: 25, total: 25, .. }));
}

#[test]
fn a_session_runs_from_open_to_release() {
    let mut state = State::new();
    assert!(state.try_open_session());
    assert!(!state.try_open_session());
    assert!(matches!(state.last_event, LastEvent::OpeningCapture));
    state.begin_hold(1000, 2000);
    assert!(state.throttling);
    assert_eq!(state.remaining_hold_ms(1500), Some(1500));
    assert_eq!(state.remaining_hold_ms(5000), Some(0));
    assert_eq!(state.status_label(), "throttling");
    state.receive_packet(packet(10));
    state.receive_packet(packet(20));
    let rule = TrafficRule { port: Some(7777), protocol: TrafficKind::Udp };
    state.end_hold(rule, 2000);
    assert!(matches!(state.last_event, LastEvent::AutoBurst { hold_ms: 2000, matched: 2, queue: 2 }));
    assert_eq!(state.remaining_hold_ms(1500), None);
    assert_eq!(state.status_label(), "releasing");
    let (failures_before, released_before) = (state.release_failures, state.burst_total);
    let batch = state.drain_batch(1);
    state.record_release(batch.len(), 1, None);
    assert!(matches!(state.last_event, LastEvent::Released { count: 1, remaining: 1 }));
    let batch = state.drain_batch(1);
    state.record_release(batch.len(), 0, Some(87));
    assert!(matches!(state.last_event, LastEvent::ReleaseFailed { windows_error: 87, total_failures: 1 }));
    state.finish_session(failures_before, released_before);
    assert!(!state.session_active);
    assert!(matches!(state.last_event, LastEvent::ReleaseWithFailures { sent: 1, failed: 1 }));
    assert_eq!(state.status_label(), "armed");
}

#[test]
fn a_quiet_hold_window_reports_no_traffic() {
    let mut state = State::new();
    state.try_open_session();
    state.begin_hold(0, 100);
    let rule = TrafficRule { port: Some(53), protocol: TrafficKind::Both };
    state.end_hold(rule, 100);
    assert!(matches!(state.last_event, LastEvent::NoTraffic { ref summary } if summary == "tcp + udp port 53"));
    state.finish_session(0, 0);
    assert!(matches!(state.last_event, LastEvent::NoTraffic { .. }));
}

#[test]
fn a_failed_session_reports_its_problem() {
    let mut state = State::new();
    state.try_open_session();
    state.finish_failed_session("could not open".to_string());
    assert!(!state.session_active);
    assert!(matches!(state.last_event, LastEvent::Error(ref m) if m == "could not open"));
    state.record_pass_through_failure(5);
    assert!(matches!(state.last_event, LastEvent::ReleaseFailed { windows_error: 5, total_failures: 1 }));
}

#[test]
fn hold_lengths_stay_in_the_window() {
    let window = HoldWindow::Custom { min_ms: 1000, max_ms: 1009 };
    for nanos in [0u64, 1, 12345, u64::MAX, 987654321] {
        let ms = random_hold_ms(&window, nanos);
        assert!((1000..=1009).contains(&ms));
    }
    let mixed = 1u64 ^ 1u64.rotate_left(13) ^ 1u64.rotate_right(7);
    assert_eq!(random_hold_ms(&HoldWindow::StockRandomized, 1), 1800 + mixed % 701);
    assert_eq!(random_hold_ms(&HoldWindow::Custom { min_ms: 500, max_ms: 400 }, 99), 500);
}

#[test]
fn the_trigger_fires_on_the_press_only() {
    assert!(trigger_pressed(true, false));
    assert!(!trigger_pressed(true, true));
    assert!(!trigger_pressed(false, true));
    assert!(!trigger_pressed(false, false));
}

#[test]
fn returning_to_menu_releases_a_full_queue_at_once() {
    let mut state = State::new();
    for _ in 0..MAX_HELD_PACKETS {
        assert!(state.receive_packet(packet(1)).is_none());
    }
    let pacing = ReleasePacing::Custom {
        packets_per_batch: 1,
        pause_ms: 100,
    };

    let drained = state.drain_batch(release_batch_size(&pacing, true));

    assert_eq!(drained.len(), MAX_HELD_PACKETS);
    assert_eq!(state.queue_len(), 0);
    assert_eq!(state.queue_bytes(), 0);
}

#[test]
fn every_matched_packet_is_held_or_passed_through() {
    let mut state = State::new();
    state.try_open_session();
    state.begin_hold(0, 2000);
    for _ in 0..(MAX_HELD_PACKETS + 3) {
        state.receive_packet(packet(1));
    }
    assert_eq!(state.matched_total, (MAX_HELD_PACKETS + 3) as u64);
    assert_eq!(state.queued_total, MAX_HELD_PACKETS as u64);
    assert_eq!(state.passed_through_total, 3);
    assert_eq!(
        state.matched_total,
        state.queued_total + state.passed_through_total
    );
}

#[test]
fn draining_leaves_the_counters_and_last_event_alone() {
    let mut state = State::new();
    for _ in 0..30 {
        state.receive_packet(packet(2));
    }
    let queued = state.queued_total;
    let drained = state.drain_batch(10);
    assert_eq!(drained.len(), 10);
    assert_eq!(state.queued_total, queued);
    assert!(matches!(
        state.last_event,
        LastEvent::PacketQueued { queue: 25, total: 25, .. }
    ));
    assert_eq!(state.queue_len(), 20);
}

fn joined(event: &LastEvent) -> String {
    event_text(event)
        .unwrap()
        .into_iter()
        .map(|(text, _)| text)
        .collect()
}

#[test]
fn event_texts_read_as_the_dashboard_shows_them() {
    assert_eq!(joined(&LastEvent::Waiting), "waiting for keybind");
    assert_eq!(
        joined(&LastEvent::QueueLimitReached {
            queued: 4096,
            bytes: 3 * 1024 * 1024 + 5,
            passed_through: 7
        }),
        "queue limit reached: 4096 held / 3 MiB, passed through 7"
    );
    assert_eq!(
        joined(&LastEvent::ReleaseFailed {
            windows_error: 87,
            total_failures: 2
        }),
        "release failed (Windows error 87, 2 total failures)"
    );
    assert_eq!(
        joined(&LastEvent::NoTraffic {
            summary: "UDP port 7777".to_string()
        }),
        "no matching UDP port 7777 traffic during hold window"
    );
    let pieces = event_text(&LastEvent::ReleaseWithFailures { sent: 9, failed: 1 }).unwrap();
    assert_eq!(pieces[1], ("9 sent".to_string(), EventTone::BoldGreen));
    assert_eq!(pieces[3], ("1 failed".to_string(), EventTone::BoldRed));
    assert!(event_text(&LastEvent::ThrottleOn {
        hold_ms: 2000,
        matched: 0,
        queue: 0
    })
    .is_none());
}
