use nanabobo::commands::{AppError, AppState, ErrorCode};
use nanabobo::credentials::MemoryCredentialStore;
use nanabobo::models::{AccountStatus, AccountSummary, DanmakuMessage, QrStartResponse, RoomInfo};
use nanabobo::session::{
    danmaku_label, live_label, AppEvent, DesktopDanmakuPhase, DesktopEffect, Effect, Operation,
    Session,
};
use nanabobo::models::{DanmakuConnectionState, DanmakuStatus, LiveStatus};

type Core = AppState<MemoryCredentialStore>;

fn for_test() -> (Session, Core) {
    (
        Session::new(String::new(), Vec::new()),
        AppState::new(MemoryCredentialStore::new()),
    )
}

fn account() -> AccountStatus {
    AccountStatus {
        authenticated: true,
        account: Some(AccountSummary {
            mid: 1,
            username: "A".into(),
            avatar_url: None,
        }),
    }
}

fn logged_in(s: &mut Session) {
    s.auth.account = Some(account());
}

fn info(id: u64) -> RoomInfo {
    RoomInfo {
        room_id: id,
        owner_id: 2,
        owner_name: Some("主播".into()),
        owner_avatar_url: None,
        title: "直播".into(),
        live_status: "live".into(),
        viewer_count: 2,
        follower_count: None,
        cover_url: None,
        fetched_at: 100,
    }
}

const NOW: u64 = 1_000_000;

// ------------------------------------------------------------------ login

#[test]
fn closing_rejects_late_qr_and_account_results() {
    let (mut s, mut core) = for_test();
    s.apply(&mut core, AppEvent::OpenLogin, NOW);
    let id = s.auth.request.revision;
    s.apply(&mut core, AppEvent::CloseLogin, NOW);
    s.apply(
        &mut core,
        AppEvent::QrStarted(
            id,
            Ok(QrStartResponse {
                session_id: "old".into(),
                payload: "https://example.com".into(),
                expires_at: 999,
            }),
        ),
        NOW,
    );
    assert!(s.auth.qr.is_none());
    assert!(s.next_wakeup().is_none());
    s.load_account();
    let id = s.auth.request.revision;
    s.logout(&mut core);
    s.apply(&mut core, AppEvent::AuthStatus(id, Ok(account())), NOW);
    assert!(!s.authenticated());
}

#[test]
fn opening_login_starts_one_qr_request() {
    let (mut s, mut core) = for_test();
    s.apply(&mut core, AppEvent::OpenLogin, NOW);
    let id = s.auth.request.revision;
    s.apply(&mut core, AppEvent::OpenLogin, NOW);
    assert_eq!(s.auth.request.revision, id);
    let starts = s
        .take_effects()
        .into_iter()
        .filter(|e| matches!(e, Effect::StartQr { .. }))
        .count();
    assert_eq!(starts, 1);
}

#[test]
fn qr_code_is_polled_until_login_succeeds() {
    let (mut s, mut core) = for_test();
    s.apply(&mut core, AppEvent::OpenLogin, NOW);
    let id = s.auth.request.revision;
    s.apply(
        &mut core,
        AppEvent::QrStarted(
            id,
            Ok(QrStartResponse {
                session_id: "qr".into(),
                payload: "url".into(),
                expires_at: 999,
            }),
        ),
        NOW,
    );
    assert_eq!(s.next_wakeup(), Some(NOW + 1500));
    s.advance(NOW + 1500);
    assert!(s.auth.loading());
    let poll = s.auth.request.revision;
    s.apply(
        &mut core,
        AppEvent::QrPolled(
            poll,
            Ok(nanabobo::models::AuthPollResponse::Success {
                account: AccountSummary {
                    mid: 7,
                    username: "B".into(),
                    avatar_url: None,
                },
            }),
        ),
        NOW + 2000,
    );
    assert!(s.authenticated());
    assert!(!s.auth.open);
    assert!(s.auth.qr.is_none());
    assert_eq!(s.account().unwrap().mid, 7);
}

#[test]
fn expired_poll_error_marks_the_code_expired() {
    let (mut s, mut core) = for_test();
    s.auth.open = true;
    s.auth.qr = Some(QrStartResponse {
        session_id: "qr".into(),
        payload: "url".into(),
        expires_at: 1,
    });
    s.advance(NOW);
    s.auth.next_poll = Some(NOW);
    s.advance(NOW);
    let poll = s.auth.request.revision;
    s.apply(
        &mut core,
        AppEvent::QrPolled(
            poll,
            Err(AppError {
                code: ErrorCode::QrExpired,
                message: "二维码已过期，请重新生成。".into(),
            }),
        ),
        NOW,
    );
    assert_eq!(s.auth.phase, nanabobo::session::QrPhase::Expired);
    assert_eq!(s.auth.error(), Some("二维码已过期，请重新生成。"));
    assert!(s.next_wakeup().is_none());
}

// ----------------------------------------------------------------- danmaku

#[test]
fn stale_connection_messages_are_rejected_and_stop_keeps_reading_history() {
    let (mut s, mut core) = for_test();
    s.room.info = Some(info(2));
    s.danmaku.status.connection_id = Some("new".into());
    let mut message = DanmakuMessage {
        connection_id: "old".into(),
        room_id: 2,
        sender_name: "A".into(),
        text: "hello".into(),
        sent_at: 1,
    };
    s.on_danmaku_message(message.clone());
    assert!(s.danmaku.messages.is_empty());
    message.connection_id = "new".into();
    s.on_danmaku_message(message.clone());
    let id = s.danmaku.messages[0].id;
    s.stop_danmaku(&mut core);
    s.on_danmaku_message(message);
    assert_eq!(s.danmaku.messages.len(), 1);
    assert_eq!(s.danmaku.messages[0].id, id);
}

#[test]
fn feed_keeps_the_latest_thousand_messages() {
    let (mut s, _core) = for_test();
    s.room.info = Some(info(2));
    s.danmaku.status.connection_id = Some("c".into());
    s.danmaku.following = false;
    for n in 0..1005u64 {
        s.on_danmaku_message(DanmakuMessage {
            connection_id: "c".into(),
            room_id: 2,
            sender_name: "A".into(),
            text: n.to_string(),
            sent_at: n,
        });
    }
    assert_eq!(s.danmaku.messages.len(), 1000);
    assert_eq!(s.danmaku.messages[0].message.sent_at, 5);
    assert_eq!(s.danmaku.messages[999].id, 1005);
    assert_eq!(s.danmaku.unread, 1005);
    s.apply(&mut AppState::new(MemoryCredentialStore::new()), AppEvent::FollowLatest, NOW);
    assert_eq!(s.danmaku.unread, 0);
}

#[test]
fn status_reports_of_other_connections_are_ignored() {
    let (mut s, _core) = for_test();
    s.room.info = Some(info(2));
    s.danmaku.status.connection_id = Some("c".into());
    s.on_danmaku_status(DanmakuStatus {
        connection_id: Some("other".into()),
        room_id: Some(2),
        state: DanmakuConnectionState::Connected,
        message: None,
    });
    assert_eq!(s.danmaku.status.state, DanmakuConnectionState::Idle);
    s.on_danmaku_status(DanmakuStatus {
        connection_id: Some("c".into()),
        room_id: Some(2),
        state: DanmakuConnectionState::Connected,
        message: None,
    });
    assert_eq!(s.danmaku.status.state, DanmakuConnectionState::Connected);
}

// ----------------------------------------------------------------- desktop

fn session() -> (Session, Core) {
    let (mut s, core) = for_test();
    logged_in(&mut s);
    s.room.info = Some(RoomInfo {
        room_id: 1,
        owner_id: 1,
        owner_name: None,
        owner_avatar_url: None,
        title: "直播".into(),
        live_status: "live".into(),
        viewer_count: 1,
        follower_count: None,
        cover_url: None,
        fetched_at: 0,
    });
    (s, core)
}

fn open(s: &mut Session, core: &mut Core) -> u64 {
    s.apply(core, AppEvent::OpenDesktopDanmaku, NOW);
    let generation = s.desktop.generation;
    s.apply(core, AppEvent::DesktopOpened { generation }, NOW);
    s.take_desktop_effects();
    generation
}

#[test]
fn connection_waits_for_native_success_and_duplicate_open_reuses_window() {
    let (mut s, mut core) = session();
    s.apply(&mut core, AppEvent::OpenDesktopDanmaku, NOW);
    s.apply(&mut core, AppEvent::OpenDesktopDanmaku, NOW);
    let generation = s.desktop.generation;
    assert!(!s.danmaku.active());
    assert_eq!(s.take_desktop_effects().len(), 1);
    s.apply(&mut core, AppEvent::DesktopOpenFailed { generation }, NOW);
    assert_eq!(s.desktop.phase, DesktopDanmakuPhase::Closed);
    assert!(!s.danmaku.active());
    let generation = open(&mut s, &mut core);
    assert!(s.danmaku.active());
    let connection = s.danmaku.status.connection_id.clone();
    s.apply(&mut core, AppEvent::OpenDesktopDanmaku, NOW);
    assert_eq!(s.danmaku.status.connection_id, connection);
    assert!(
        matches!(s.take_desktop_effects().as_slice(), [DesktopEffect::Focus { generation: g }] if *g == generation)
    );
}

#[test]
fn cancelled_creation_cannot_open_or_replace_a_new_window() {
    let (mut s, mut core) = session();
    s.apply(&mut core, AppEvent::OpenDesktopDanmaku, NOW);
    let old = s.desktop.generation;
    s.apply(&mut core, AppEvent::CloseDesktopDanmaku, NOW);
    let new = open(&mut s, &mut core);
    s.apply(&mut core, AppEvent::DesktopOpened { generation: old }, NOW);
    assert!(
        matches!(s.take_desktop_effects().as_slice(), [DesktopEffect::Close { generation }] if *generation == old)
    );
    s.apply(&mut core, AppEvent::DesktopOpenFailed { generation: old }, NOW);
    assert_eq!(s.desktop.generation, new);
    assert_eq!(s.desktop.phase, DesktopDanmakuPhase::Adjusting);
    assert!(s.danmaku.active());
}

#[test]
fn close_keeps_history_rejects_late_events_and_reopen_follows_latest() {
    let (mut s, mut core) = session();
    let old = open(&mut s, &mut core);
    let message = DanmakuMessage {
        connection_id: s.danmaku.status.connection_id.clone().unwrap(),
        room_id: 1,
        sender_name: "读者".into(),
        text: "你好".into(),
        sent_at: 1,
    };
    s.apply(&mut core, AppEvent::DanmakuMessage(message.clone()), NOW);
    assert!(s.accepts_reading());
    s.apply(&mut core, AppEvent::Reading { following: false }, NOW);
    s.apply(&mut core, AppEvent::CloseDesktopDanmaku, NOW);
    assert!(!s.danmaku.active());
    s.apply(&mut core, AppEvent::DanmakuMessage(message), NOW);
    assert_eq!(s.danmaku.messages.len(), 1);
    let new = open(&mut s, &mut core);
    assert_ne!(old, new);
    s.apply(&mut core, AppEvent::DesktopClosed { generation: old }, NOW);
    assert!(s.danmaku.active());
    assert!(s.danmaku.following);
    s.apply(&mut core, AppEvent::CloseDesktopDanmaku, NOW);
    s.apply(&mut core, AppEvent::DesktopOpened { generation: new }, NOW);
    assert!(!s.danmaku.active());
    assert_eq!(s.desktop.phase, DesktopDanmakuPhase::Closed);
}

#[test]
fn lock_commits_only_after_success_and_unlock_focuses_after_success() {
    let (mut s, mut core) = session();
    let generation = open(&mut s, &mut core);
    s.danmaku.following = false;
    for success in [false, true] {
        s.apply(&mut core, AppEvent::LockDesktopDanmaku, NOW);
        let [DesktopEffect::SetPassthrough { request, .. }] = s.take_desktop_effects()[..] else {
            panic!()
        };
        assert_eq!(s.desktop.phase, DesktopDanmakuPhase::Adjusting);
        assert!(!s.danmaku.following);
        s.apply(
            &mut core,
            AppEvent::DesktopPassthroughResult {
                generation,
                request,
                enabled: true,
                success,
            },
            NOW,
        );
    }
    assert_eq!(s.desktop.phase, DesktopDanmakuPhase::Locked);
    assert!(s.danmaku.following);
    assert!(!s.accepts_reading());
    s.apply(&mut core, AppEvent::Reading { following: false }, NOW);
    assert!(s.danmaku.following);
    s.apply(&mut core, AppEvent::AdjustDesktopDanmaku, NOW);
    let [DesktopEffect::SetPassthrough {
        request,
        enabled: false,
        ..
    }] = s.take_desktop_effects()[..]
    else {
        panic!()
    };
    assert_eq!(s.desktop.phase, DesktopDanmakuPhase::Locked);
    s.apply(
        &mut core,
        AppEvent::DesktopPassthroughResult {
            generation,
            request,
            enabled: false,
            success: true,
        },
        NOW,
    );
    assert_eq!(s.desktop.phase, DesktopDanmakuPhase::Adjusting);
    assert!(matches!(
        s.take_desktop_effects().as_slice(),
        [DesktopEffect::Focus { .. }]
    ));
    s.apply(&mut core, AppEvent::DisconnectRoom, NOW);
    assert_eq!(s.desktop.phase, DesktopDanmakuPhase::Closed);
    assert!(!s.danmaku.active());
}

#[test]
fn logout_during_creation_closes_window_and_rejects_late_ready() {
    let (mut s, mut core) = session();
    s.apply(&mut core, AppEvent::OpenDesktopDanmaku, NOW);
    let generation = s.desktop.generation;
    s.apply(&mut core, AppEvent::Logout, NOW);
    s.apply(&mut core, AppEvent::DesktopOpened { generation }, NOW);
    assert_eq!(s.desktop.phase, DesktopDanmakuPhase::Closed);
    assert!(!s.danmaku.active());
    assert!(!s.authenticated());
    assert!(s.room.info.is_none());
}

#[test]
fn failed_lock_shows_an_error_and_keeps_the_window_adjustable() {
    let (mut s, mut core) = session();
    let generation = open(&mut s, &mut core);
    s.apply(&mut core, AppEvent::LockDesktopDanmaku, NOW);
    let [DesktopEffect::SetPassthrough { request, .. }] = s.take_desktop_effects()[..] else {
        panic!()
    };
    s.apply(
        &mut core,
        AppEvent::DesktopPassthroughResult {
            generation,
            request,
            enabled: true,
            success: false,
        },
        NOW,
    );
    assert_eq!(s.desktop.phase, DesktopDanmakuPhase::Adjusting);
    assert_eq!(s.desktop.error.as_deref(), Some("暂时无法锁定弹幕，请重试。"));
}

// -------------------------------------------------------------------- room

#[test]
fn old_room_cannot_replace_new_selection_or_restore_after_disconnect() {
    let (mut s, mut core) = for_test();
    logged_in(&mut s);
    s.room.input = "1".into();
    s.query_room(false, NOW);
    let old = s.room.request.revision;
    s.room.input = "2".into();
    s.query_room(false, NOW);
    let new = s.room.request.revision;
    s.on_room_loaded(&mut core, old, false, Ok(info(1)), NOW);
    assert!(s.room.info.is_none());
    s.on_room_loaded(&mut core, new, false, Ok(info(2)), NOW);
    assert_eq!(s.room.info.as_ref().unwrap().room_id, 2);
    s.query_room(true, NOW);
    let id = s.room.request.revision;
    s.disconnect_room(&mut core);
    s.on_room_loaded(&mut core, id, true, Ok(info(2)), NOW);
    assert!(s.room.info.is_none());
}

#[test]
fn independent_deadlines_are_consumed_and_requests_are_single_flight() {
    let (mut s, mut core) = for_test();
    logged_in(&mut s);
    s.room.info = Some(info(1));
    s.auth.open = true;
    s.auth.qr = Some(QrStartResponse {
        session_id: "qr".into(),
        payload: "url".into(),
        expires_at: 999,
    });
    let now = NOW;
    s.auth.next_poll = Some(now);
    s.room.next_refresh = Some(now + 60_000);
    s.advance(now);
    let qr_id = s.auth.request.revision;
    assert!(s.auth.loading());
    assert!(!s.room.loading());
    assert_eq!(s.next_wakeup(), Some(now + 60_000));
    s.advance(now + 60_000);
    let room_id = s.room.request.revision;
    assert!(s.room.loading());
    assert!(s.next_wakeup().is_none());
    s.advance(now + 120_000);
    assert_eq!(s.auth.request.revision, qr_id);
    assert_eq!(s.room.request.revision, room_id);
    s.on_room_loaded(
        &mut core,
        room_id,
        true,
        Err(AppError {
            code: ErrorCode::UpstreamUnavailable,
            message: "暂时不可用".into(),
        }),
        now + 120_000,
    );
    assert!(!s.room.loading());
    assert!(s.room.next_refresh.is_some());
}

#[test]
fn candidate_failure_preserves_current_room() {
    let (mut s, mut core) = for_test();
    logged_in(&mut s);
    s.room.info = Some(info(1));
    s.room.input = "2".into();
    s.query_room(false, NOW);
    let revision = s.room.request.revision;
    s.on_room_loaded(
        &mut core,
        revision,
        false,
        Err(AppError {
            code: ErrorCode::UpstreamUnavailable,
            message: "暂时不可用".into(),
        }),
        NOW,
    );
    assert_eq!(s.room.info.as_ref().unwrap().room_id, 1);
}

#[test]
fn invalid_submission_during_refresh_does_not_stop_future_sampling() {
    let (mut s, mut core) = for_test();
    logged_in(&mut s);
    s.room.info = Some(info(1));
    s.query_room(true, NOW);
    let old = s.room.request.revision;
    s.room.input = "invalid".into();
    s.query_room(false, NOW);
    assert!(s.room.next_refresh.is_some());
    s.on_room_loaded(&mut core, old, true, Ok(info(1)), NOW);
    assert!(s.room.error().is_some());
    s.advance(s.room.next_refresh.unwrap());
    assert!(s.room.loading());
}

#[test]
fn selecting_room_stays_disconnected_until_window_opens_then_switch_reconnects() {
    let (mut s, mut core) = for_test();
    logged_in(&mut s);
    s.room.input = "1".into();
    s.query_room(false, NOW);
    let revision = s.room.request.revision;
    s.on_room_loaded(&mut core, revision, false, Ok(info(1)), NOW);
    assert!(!s.danmaku.active());
    s.apply(&mut core, AppEvent::OpenDesktopDanmaku, NOW);
    let generation = s.desktop.generation;
    s.apply(&mut core, AppEvent::DesktopOpened { generation }, NOW);
    assert_eq!(s.danmaku.status.room_id, Some(1));
    let old = s.danmaku.status.connection_id.clone();
    s.room.input = "2".into();
    s.query_room(false, NOW);
    let revision = s.room.request.revision;
    s.on_room_loaded(&mut core, revision, false, Ok(info(2)), NOW);
    assert_eq!(s.danmaku.status.room_id, Some(2));
    assert_ne!(s.danmaku.status.connection_id, old);
    s.apply(&mut core, AppEvent::CloseDesktopDanmaku, NOW);
    s.room.input = "3".into();
    s.query_room(false, NOW);
    let revision = s.room.request.revision;
    s.on_room_loaded(&mut core, revision, false, Ok(info(3)), NOW);
    assert!(!s.danmaku.active());
}

#[test]
fn failed_refreshes_back_off() {
    let (mut s, mut core) = for_test();
    logged_in(&mut s);
    s.room.info = Some(info(1));
    let mut now = NOW;
    for delay in [60_000u64, 120_000, 240_000, 300_000, 300_000] {
        s.query_room(true, now);
        let revision = s.room.request.revision;
        s.on_room_loaded(
            &mut core,
            revision,
            true,
            Err(AppError {
                code: ErrorCode::UpstreamUnavailable,
                message: "暂时不可用".into(),
            }),
            now,
        );
        assert_eq!(s.room.next_refresh, Some(now + delay));
        now += delay;
    }
}

#[test]
fn a_found_room_is_remembered_and_queued_for_refresh() {
    let (mut s, mut core) = for_test();
    logged_in(&mut s);
    s.room.input = " 42 ".into();
    s.apply(&mut core, AppEvent::QueryRoom, NOW);
    let effects = s.take_effects();
    assert!(matches!(
        effects.last(),
        Some(Effect::QueryRoom { refresh: false, room_id, .. }) if room_id == "42"
    ));
    let revision = s.room.request.revision;
    s.on_room_loaded(&mut core, revision, false, Ok(info(42)), NOW);
    assert_eq!(s.room.remembered, "42");
    assert_eq!(s.room.input, "42");
    assert_eq!(s.room.next_refresh, Some(NOW + 60_000));
    assert_eq!(s.stats.snapshots.len(), 1);
    assert_eq!(s.stats.selected_room, Some(42));
    assert!(matches!(s.take_effects().last(), Some(Effect::Persist { .. })));
}

#[test]
fn invalid_room_numbers_are_refused_at_once() {
    let (mut s, mut core) = for_test();
    logged_in(&mut s);
    for input in ["0", "", "abc", "-3"] {
        s.room.input = input.into();
        s.apply(&mut core, AppEvent::QueryRoom, NOW);
        assert!(matches!(&s.room.request.state, Operation::Failed(e) if e == "请输入有效的直播间号。"));
    }
}

// ------------------------------------------------------------------- labels

#[test]
fn labels_name_each_state() {
    assert_eq!(live_label(&LiveStatus::Live), "直播中");
    assert_eq!(live_label(&LiveStatus::Round), "轮播中");
    assert_eq!(live_label(&LiveStatus::Offline), "未开播");
    assert_eq!(live_label(&LiveStatus::Unknown), "状态未知");
    let mut status = DanmakuStatus {
        connection_id: None,
        room_id: None,
        state: DanmakuConnectionState::Idle,
        message: None,
    };
    assert_eq!(danmaku_label(&status), "未连接");
    status.state = DanmakuConnectionState::Reconnecting;
    assert_eq!(danmaku_label(&status), "正在重连");
    status.state = DanmakuConnectionState::Error;
    assert_eq!(danmaku_label(&status), "连接异常");
}

#[test]
fn operation_reports_loading_and_errors() {
    assert!(Operation::Loading.loading());
    assert!(!Operation::Idle.loading());
    assert_eq!(Operation::Failed("x".into()).error(), Some("x"));
    assert_eq!(Operation::Idle.error(), None);
}

#[test]
fn stored_answers_of_older_saves_are_ignored() {
    let (mut s, mut core) = for_test();
    s.apply(&mut core, AppEvent::RetryStore, NOW);
    s.apply(&mut core, AppEvent::RetryStore, NOW);
    s.apply(
        &mut core,
        AppEvent::Stored {
            revision: 1,
            result: Err("磁盘已满".into()),
        },
        NOW,
    );
    assert!(s.storage_error.is_none());
    s.apply(
        &mut core,
        AppEvent::Stored {
            revision: 2,
            result: Err("磁盘已满".into()),
        },
        NOW,
    );
    assert_eq!(s.storage_error.as_deref(), Some("磁盘已满"));
}

#[test]
fn disconnecting_forgets_the_room_images_and_saves() {
    let (mut s, mut core) = for_test();
    logged_in(&mut s);
    s.room.info = Some(info(7));
    s.request_image("room-cover", Some("https://example.com/cover.png"));
    let _ = s.take_pending_images();
    let before = s.storage_revision;
    s.apply(&mut core, AppEvent::DisconnectRoom, NOW);
    assert!(s.room.info.is_none());
    assert!(!s.has_image("room-cover"));
    assert_eq!(s.storage_revision, before + 1);
    assert!(matches!(
        s.take_effects().last(),
        Some(Effect::Persist { revision, recover: false }) if *revision == before + 1
    ));
    assert!(s
        .take_pending_images()
        .iter()
        .any(|c| matches!(c, nanabobo::resources::ImageChange::Remove(n) if n == "room-cover")));
}

#[test]
fn a_due_poll_runs_while_a_later_refresh_waits() {
    let (mut s, _core) = for_test();
    logged_in(&mut s);
    s.room.info = Some(info(1));
    s.auth.open = true;
    s.auth.qr = Some(QrStartResponse {
        session_id: "qr".into(),
        payload: "url".into(),
        expires_at: 999,
    });
    s.auth.next_poll = Some(NOW);
    s.room.next_refresh = Some(NOW + 60_000);
    s.advance(NOW);
    assert!(s.auth.loading());
    assert!(!s.room.loading());
    assert!(s.auth.next_poll.is_none());
    assert_eq!(s.next_wakeup(), Some(NOW + 60_000));
    assert!(matches!(
        s.take_effects().last(),
        Some(Effect::PollQr { session_id, .. }) if session_id == "qr"
    ));
}

#[test]
fn closing_the_window_stops_the_connection_for_the_host_and_the_commands() {
    let (mut s, mut core) = session();
    open(&mut s, &mut core);
    let id = s.danmaku.status.connection_id.clone().unwrap();
    assert_eq!(core.danmaku.status().connection_id.as_deref(), Some(id.as_str()));
    s.apply(&mut core, AppEvent::CloseDesktopDanmaku, NOW);
    assert!(matches!(
        s.take_effects().last(),
        Some(Effect::Disconnect { connection_id }) if *connection_id == id
    ));
    assert!(core.danmaku.status().connection_id.is_none());
}

#[test]
fn leaving_the_room_and_logging_out_stop_the_connection() {
    for logout in [false, true] {
        let (mut s, mut core) = session();
        open(&mut s, &mut core);
        let id = s.danmaku.status.connection_id.clone().unwrap();
        let event = if logout { AppEvent::Logout } else { AppEvent::DisconnectRoom };
        s.apply(&mut core, event, NOW);
        assert!(s
            .take_effects()
            .iter()
            .any(|e| matches!(e, Effect::Disconnect { connection_id } if *connection_id == id)));
        assert!(core.danmaku.status().connection_id.is_none());
        assert!(s.danmaku.status.connection_id.is_none());
    }
}
