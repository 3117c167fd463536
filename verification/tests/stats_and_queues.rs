use nanabobo::host::{probe_last, record_probe, KeyValueStore, ProbeSlot};
use nanabobo::inbox::EventQueue;
use nanabobo::models::{DanmakuMessage, LiveStatus};
use nanabobo::resources::{DecodedImage, ImageChange, Resources};
use nanabobo::session::{AppEvent, Session};
use nanabobo::stats::{Snapshot, StatsState, StatsTab};
use nanabobo::text::{parse_u64, u64_to_decimal};

fn snapshot(room_id: u64, captured_at: u64) -> Snapshot {
    Snapshot {
        room_id,
        room_name: String::new(),
        captured_at,
        viewer_count: 1,
        follower_count: None,
        live_status: LiveStatus::Live,
    }
}

#[test]
fn missing_values_and_irregular_times_survive_projection() {
    let s = StatsState::new(vec![
        Snapshot {
            room_id: 1,
            room_name: String::new(),
            captured_at: 10,
            viewer_count: 3,
            follower_count: Some(5),
            live_status: LiveStatus::Live,
        },
        Snapshot {
            room_id: 1,
            room_name: String::new(),
            captured_at: 99,
            viewer_count: 4,
            follower_count: None,
            live_status: LiveStatus::Unknown,
        },
    ]);
    assert_eq!(s.follower_points(), vec![(10000, Some(5)), (99000, None)]);
    assert_eq!(s.current().len(), 2);
}

#[test]
fn retention_is_per_room_and_history_does_not_require_authentication() {
    let snapshots = (0..2010)
        .flat_map(|n| [1, 2].map(move |room_id| snapshot(room_id, n)))
        .collect();
    let mut s = Session::new(String::new(), Vec::new());
    s.stats = StatsState::new(snapshots);
    assert_eq!(s.stats.snapshots.len(), 4000);
    assert_eq!(s.stats.current().len(), 2000);
    assert!(!s.authenticated());
    assert!(s.room.info.is_none());
}

#[test]
fn stored_snapshots_are_sorted_stably_by_time() {
    let mut a = snapshot(1, 20);
    a.viewer_count = 1;
    let mut b = snapshot(2, 10);
    b.viewer_count = 2;
    let mut c = snapshot(3, 20);
    c.viewer_count = 3;
    let s = StatsState::new(vec![a, b, c]);
    let order: Vec<u64> = s.snapshots.iter().map(|x| x.viewer_count).collect();
    assert_eq!(order, vec![2, 1, 3]);
    assert_eq!(s.selected_room, Some(3));
    assert_eq!(s.tab, StatsTab::Trend);
    assert!(s.confirm_clear.is_none());
}

#[test]
fn retention_keeps_the_latest_snapshots_of_a_room() {
    let snapshots: Vec<Snapshot> = (0..2005).map(|n| snapshot(9, n)).collect();
    let s = StatsState::new(snapshots);
    assert_eq!(s.snapshots.len(), 2000);
    assert_eq!(s.snapshots[0].captured_at, 5);
    assert_eq!(s.snapshots[1999].captured_at, 2004);
}

#[test]
fn rooms_are_listed_once_by_number_with_their_latest_name() {
    let mut named = snapshot(7, 3);
    named.room_name = "主播".into();
    let s = StatsState::new(vec![snapshot(9, 1), snapshot(7, 2), named]);
    assert_eq!(
        s.rooms(),
        vec![(7, String::from("主播 · 7")), (9, String::from("直播间 9"))]
    );
    assert_eq!(s.room_label(7), "主播 · 7");
    assert_eq!(s.room_label(9), "直播间 9");
    assert_eq!(s.room_label(12), "直播间 12");
}

#[test]
fn clearing_a_history_needs_confirmation_and_keeps_other_rooms() {
    let mut s = Session::new(String::new(), vec![snapshot(1, 1), snapshot(2, 2)]);
    let mut core = nanabobo::commands::AppState::new(nanabobo::credentials::MemoryCredentialStore::new());
    s.apply(&mut core, AppEvent::ClearStats, 0);
    assert_eq!(s.stats.snapshots.len(), 2);
    s.apply(&mut core, AppEvent::SelectHistoryRoom(1), 0);
    s.apply(&mut core, AppEvent::AskClearStats, 0);
    assert_eq!(s.stats.confirm_clear, Some(1));
    s.apply(&mut core, AppEvent::ClearStats, 0);
    assert_eq!(s.stats.snapshots.len(), 1);
    assert_eq!(s.stats.snapshots[0].room_id, 2);
    assert!(s.stats.confirm_clear.is_none());
}

fn message(n: u64) -> AppEvent {
    AppEvent::DanmakuMessage(DanmakuMessage {
        connection_id: "c".into(),
        room_id: 1,
        sender_name: "a".into(),
        text: n.to_string(),
        sent_at: n,
    })
}

#[test]
fn bounded_messages_never_delay_control_and_drain_in_batches() {
    let mut inbox = EventQueue::new();
    for n in 0..2_000 {
        inbox.push(message(n));
    }
    inbox.push(AppEvent::Logout);
    let (batch, more) = inbox.drain();
    assert!(more);
    assert!(matches!(batch[0], AppEvent::Logout));
    assert_eq!(batch.len(), 201);
    assert!(matches!(&batch[1], AppEvent::DanmakuMessage(m) if m.sent_at == 1_000));
    assert_eq!((0..4).map(|_| inbox.drain().0.len()).sum::<usize>(), 800);
    assert!(inbox.drain().0.is_empty());
}

#[test]
fn only_the_first_event_into_an_empty_queue_wakes_the_session() {
    let mut inbox = EventQueue::new();
    assert!(inbox.push(AppEvent::Logout));
    assert!(!inbox.push(message(1)));
    let (events, more) = inbox.drain();
    assert_eq!(events.len(), 2);
    assert!(!more);
    assert!(inbox.push(message(2)));
}

fn image() -> DecodedImage {
    DecodedImage {
        slot: "avatar".into(),
        width: 1,
        height: 1,
        rgba: vec![0; 4],
    }
}

#[test]
fn image_identity_rejects_old_results_and_failed_requests_can_retry() {
    let mut r = Resources::new();
    let old = r.begin("avatar", Some("old")).unwrap();
    let new = r.begin("avatar", Some("new")).unwrap();
    assert!(!r.complete("avatar", old, Some(image())));
    assert!(r.complete("avatar", new, None));
    let retry = r.begin("avatar", Some("new")).unwrap();
    assert!(r.complete("avatar", retry, Some(image())));
    r.begin("avatar", None);
    assert!(!r.ready("avatar"));
    assert!(r.begin("avatar", Some("new")).is_some());
}

#[test]
fn shown_images_are_not_loaded_twice_and_blank_urls_clear_the_slot() {
    let mut r = Resources::new();
    let first = r.begin("cover", Some("u")).unwrap();
    assert!(r.begin("cover", Some("u")).is_none());
    assert!(r.complete("cover", first, Some(image())));
    assert!(r.ready("cover"));
    assert!(r.begin("cover", Some("u")).is_none());
    assert!(r.begin("cover", Some("   ")).is_none());
    assert!(!r.ready("cover"));
    let uploads = r
        .pending
        .iter()
        .filter(|c| matches!(c, ImageChange::Upload(_)))
        .count();
    assert_eq!(uploads, 1);
}

#[test]
fn replacing_an_image_removes_the_old_texture_and_uploads_the_new_one() {
    let mut r = Resources::new();
    let first = r.begin("cover", Some("a")).unwrap();
    assert!(matches!(r.pending.last(), Some(ImageChange::Remove(name)) if name == "cover"));
    assert_eq!(r.pending.len(), 1);
    assert!(r.complete("cover", first, Some(image())));
    assert_eq!(r.pending.len(), 2);
    assert!(matches!(r.pending.last(), Some(ImageChange::Upload(_))));
    assert!(r.begin("cover", Some("a")).is_none());
    assert_eq!(r.pending.len(), 2);
    assert!(!r.complete("cover", first, Some(image())));
    assert_eq!(r.pending.len(), 2);
    r.begin("cover", None);
    assert_eq!(r.pending.len(), 3);
    assert!(matches!(r.pending.last(), Some(ImageChange::Remove(name)) if name == "cover"));
}

#[test]
fn key_value_store_reads_back_its_writes() {
    let mut store = KeyValueStore::new();
    store.set("theme".into(), "dark".into());
    store.set("room".into(), "42".into());
    store.set("theme".into(), "light".into());
    assert_eq!(store.get("theme").map(String::as_str), Some("light"));
    assert_eq!(store.get("room").map(String::as_str), Some("42"));
    store.remove("room".into());
    assert_eq!(store.get("room"), None);
    assert_eq!(store.get("theme").map(String::as_str), Some("light"));
    store.clear();
    assert_eq!(store.get("theme"), None);
    assert!(store.entries.is_empty());
}

#[test]
fn probe_keeps_the_last_message() {
    let mut slot = ProbeSlot::new();
    assert_eq!(probe_last(&slot), "");
    record_probe(&mut slot, "一");
    record_probe(&mut slot, "二");
    assert_eq!(probe_last(&slot), "二");
}

#[test]
fn decimal_numbers_round_trip() {
    for n in [0u64, 7, 10, 12345, u64::MAX] {
        assert_eq!(parse_u64(u64_to_decimal(n).as_str()), Some(n));
    }
    assert_eq!(parse_u64("+5"), Some(5));
    assert_eq!(parse_u64("18446744073709551616"), None);
}
