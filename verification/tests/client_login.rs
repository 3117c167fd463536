use nanabobo::client::{
    cookie_from_login_url, cookie_from_set_cookie_headers, first_non_empty, non_empty,
    qr_poll_state, QrPollResult, QrSession,
};
use nanabobo::commands::{
    auth_logout, auth_qr_cancel, begin_auth_status, commit_login, finish_commit, finish_logout,
    status_from_store, AppError, AppState, AuthLifecycle, DanmakuManager, ErrorCode, StatusStep,
};
use nanabobo::client::BilibiliError;
use nanabobo::credentials::{CredentialStore, CredentialStoreError, MemoryCredentialStore};

#[test]
fn login_url_is_reduced_to_supported_cookie_fields() {
    let cookie = cookie_from_login_url(Some(
        "https://passport.bilibili.com/success?SESSDATA=secret%2Cvalue&bili_jct=csrf&unexpected=no",
    ))
    .unwrap();
    assert_eq!(cookie, "SESSDATA=secret,value; bili_jct=csrf");
    assert!(!cookie.contains("unexpected"));
}

#[test]
fn login_url_without_session_is_rejected() {
    assert!(cookie_from_login_url(Some("https://example.com/success?bili_jct=csrf")).is_err());
}

#[test]
fn set_cookie_headers_are_reduced_to_supported_cookie_fields() {
    let headers: Vec<Vec<u8>> = vec![
        b"SESSDATA=session; Path=/; HttpOnly".to_vec(),
        b"bili_jct=csrf; Path=/".to_vec(),
        b"unknown=ignored; Path=/".to_vec(),
    ];
    assert_eq!(
        cookie_from_set_cookie_headers(&headers).as_deref(),
        Some("SESSDATA=session; bili_jct=csrf")
    );
}

#[test]
fn qr_status_codes_match_bilibili_web_login_states() {
    assert_eq!(qr_poll_state(86101), Some(QrPollResult::Pending));
    assert_eq!(qr_poll_state(86090), Some(QrPollResult::Scanned));
    assert_eq!(qr_poll_state(86038), Some(QrPollResult::Expired));
}

#[test]
fn unknown_qr_codes_have_no_login_state() {
    assert_eq!(qr_poll_state(0), None);
    assert_eq!(qr_poll_state(-1), None);
}

#[test]
fn login_url_is_required() {
    assert!(matches!(
        cookie_from_login_url(None),
        Err(BilibiliError::InvalidLoginUrl)
    ));
}

#[test]
fn blank_texts_count_as_missing() {
    assert_eq!(non_empty(String::from("  ")), None);
    assert_eq!(non_empty(String::from("a")), Some(String::from("a")));
    assert_eq!(
        first_non_empty(vec![String::new(), String::from(" "), String::from("x"), String::from("y")]),
        Some(String::from("x"))
    );
}

#[test]
fn request_limits_are_a_stable_error_code() {
    let error = AppError::from_bilibili(BilibiliError::HttpStatus(429));
    assert_eq!(error.code, ErrorCode::RequestLimited);
    assert!(!error.message.contains("429"));
}

fn fixture() -> AppState<MemoryCredentialStore> {
    AppState::new(MemoryCredentialStore::new())
}

fn pending(state: &mut AppState<MemoryCredentialStore>) -> u64 {
    state.auth.insert(
        "active".into(),
        QrSession {
            qrcode_key: "test".into(),
            expires_at: u64::MAX,
        },
    );
    state.auth.generation()
}

#[test]
fn cancelled_or_logged_out_login_cannot_restore_credentials() {
    let mut state = fixture();
    for logout in [false, true] {
        let generation = pending(&mut state);
        if logout {
            auth_logout(&mut state).unwrap();
        } else {
            auth_qr_cancel(&mut state).unwrap();
        }
        assert_eq!(
            commit_login(&mut state, generation, "active", "test")
                .unwrap_err()
                .code,
            ErrorCode::QrExpired
        );
        assert!(state.credentials.load().unwrap().is_none());
    }
}

#[test]
fn successful_login_consumes_session_and_logout_clears_it() {
    let mut state = fixture();
    let generation = pending(&mut state);
    commit_login(&mut state, generation, "active", "test").unwrap();
    assert_eq!(state.credentials.load().unwrap().as_deref(), Some("test"));
    assert!(commit_login(&mut state, generation, "active", "late").is_err());
    auth_logout(&mut state).unwrap();
    assert!(state.credentials.load().unwrap().is_none());
}

#[test]
fn memory_store_round_trips_and_clears_a_credential() {
    let mut store = MemoryCredentialStore::new();
    assert_eq!(store.load().unwrap(), None);
    store.save("SESSDATA=redacted").unwrap();
    assert_eq!(store.load().unwrap().as_deref(), Some("SESSDATA=redacted"));
    store.clear().unwrap();
    assert_eq!(store.load().unwrap(), None);
}

#[test]
fn qr_sessions_carry_the_key_a_lifetime_and_an_svg_code() {
    let data = nanabobo::client::QrGenerateData {
        url: "https://passport.bilibili.com/h5-app/passport/login/scan?qrcode_key=k".into(),
        qrcode_key: "k".into(),
    };
    let (session, svg) = nanabobo::client::qr_session_from(data, 1000).unwrap();
    assert_eq!(session.qrcode_key, "k");
    assert_eq!(session.expires_at, 1180);
    assert!(svg.contains("<svg"));
    assert!(!svg.contains("qrcode_key=k"));
}

/// A store that can be neither read nor written.
struct BrokenStore;

impl CredentialStore for BrokenStore {
    fn load(&self) -> Result<Option<String>, CredentialStoreError> {
        Err(CredentialStoreError::Unavailable)
    }

    fn save(&mut self, _value: &str) -> Result<(), CredentialStoreError> {
        Err(CredentialStoreError::Unavailable)
    }

    fn clear(&mut self) -> Result<(), CredentialStoreError> {
        Err(CredentialStoreError::Unavailable)
    }
}

#[test]
fn status_step_follows_what_the_store_loaded() {
    match status_from_store(7, Ok(None)) {
        Ok(StatusStep::Done(status)) => {
            assert!(!status.authenticated);
            assert!(status.account.is_none());
        }
        _ => panic!("no credential means nobody is signed in"),
    }
    match status_from_store(7, Ok(Some("SESSDATA=a".to_string()))) {
        Ok(StatusStep::FetchAccount { generation, cookie }) => {
            assert_eq!(generation, 7);
            assert_eq!(cookie, "SESSDATA=a");
        }
        _ => panic!("a credential is checked with Bilibili"),
    }
    let error = status_from_store(7, Err(CredentialStoreError::Unavailable))
        .err()
        .unwrap();
    assert_eq!(error.code, ErrorCode::CredentialStore);
}

#[test]
fn commit_step_closes_the_login_only_when_saved() {
    let mut auth = AuthLifecycle::new();
    let before = auth.generation();
    assert!(finish_commit(&mut auth, Ok(())).is_ok());
    assert_eq!(auth.generation(), before + 1);
    let error = finish_commit(&mut auth, Err(CredentialStoreError::Unavailable)).unwrap_err();
    assert_eq!(error.code, ErrorCode::CredentialStore);
    assert_eq!(auth.generation(), before + 1);
}

#[test]
fn logout_step_stops_the_connection_only_when_cleared() {
    let mut danmaku = DanmakuManager::new();
    danmaku.start(42);
    let error = finish_logout(&mut danmaku, Err(CredentialStoreError::Unavailable)).unwrap_err();
    assert_eq!(error.code, ErrorCode::CredentialStore);
    assert!(danmaku.status().connection_id.is_some());
    assert!(finish_logout(&mut danmaku, Ok(())).is_ok());
    assert!(danmaku.status().connection_id.is_none());
}

#[test]
fn a_store_that_fails_is_reported_and_the_login_kept() {
    let mut state = AppState::new(BrokenStore);
    state.auth.insert(
        "active".into(),
        QrSession {
            qrcode_key: "test".into(),
            expires_at: u64::MAX,
        },
    );
    let generation = state.auth.generation();
    let error = commit_login(&mut state, generation, "active", "cookie").unwrap_err();
    assert_eq!(error.code, ErrorCode::CredentialStore);
    assert!(state.auth.contains("active"));
    assert_eq!(auth_logout(&mut state).unwrap_err().code, ErrorCode::CredentialStore);
    assert_eq!(
        begin_auth_status(&state).err().unwrap().code,
        ErrorCode::CredentialStore
    );
}

#[test]
fn a_reliable_store_signs_in_and_out() {
    let mut state = fixture();
    let generation = pending(&mut state);
    assert!(commit_login(&mut state, generation, "active", "SESSDATA=x").is_ok());
    match begin_auth_status(&state) {
        Ok(StatusStep::FetchAccount { cookie, .. }) => assert_eq!(cookie, "SESSDATA=x"),
        _ => panic!("the saved credential is checked"),
    }
    assert!(auth_logout(&mut state).is_ok());
    assert!(matches!(begin_auth_status(&state), Ok(StatusStep::Done(_))));
}
