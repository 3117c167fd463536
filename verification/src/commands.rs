//! The application's commands, apart from the network: error codes the
//! front end relies on, the QR login lifecycle (a generation counter that
//! every cancel, logout and login bumps, so that late results are refused),
//! the danmaku connection record, and input validation.
//!
//! A command that waits on Bilibili is split at each wait: a `begin_` step
//! that decides what to ask for, and a `finish_` step that takes the answer.

use vstd::prelude::*;
use vstd::string::StringExecFns;
use crate::client::{BilibiliError, QrPollResult, QrSession};
use crate::credentials::{CredentialStore, CredentialStoreError};
use crate::models::{
    AccountStatus, AccountSummary, AuthPollResponse, DanmakuConnection, DanmakuConnectionState,
    DanmakuStatus, QrStartResponse, text_view,
};
use crate::text::{decimal_u64, parse_u64, trim, trimmed};

verus! {

#[derive(Debug, Clone, Copy, PartialEq, Eq, Structural)]
pub enum ErrorCode {
    CredentialStore,
    InvalidInput,
    NotAuthenticated,
    QrExpired,
    RequestLimited,
    UpstreamUnavailable,
    ConnectionUnavailable,
}

/// An error as the front end sees it: a stable code and a message for the
/// user, with no upstream detail.
#[derive(Debug, Clone, PartialEq, Eq)]
pub struct AppError {
    pub code: ErrorCode,
    pub message: String,
}

impl AppError {
    pub fn credential_store() -> (r: Self)
        ensures
            r.code == ErrorCode::CredentialStore,
            r.message@ == "登录状态暂时无法访问，请稍后重试。"@,
    {
        AppError {
            code: ErrorCode::CredentialStore,
            message: String::from_str("登录状态暂时无法访问，请稍后重试。"),
        }
    }

    pub fn qr_expired() -> (r: Self)
        ensures
            r.code == ErrorCode::QrExpired,
            r.message@ == "二维码已过期，请重新生成。"@,
    {
        AppError { code: ErrorCode::QrExpired, message: String::from_str("二维码已过期，请重新生成。") }
    }

    pub fn connection_unavailable() -> (r: Self)
        ensures
            r.code == ErrorCode::ConnectionUnavailable,
            r.message@ == "弹幕连接暂时不可用，请稍后重试。"@,
    {
        AppError {
            code: ErrorCode::ConnectionUnavailable,
            message: String::from_str("弹幕连接暂时不可用，请稍后重试。"),
        }
    }

    fn invalid_input(message: &str) -> (r: Self)
        ensures
            r.code == ErrorCode::InvalidInput,
            r.message@ == message@,
    {
        AppError { code: ErrorCode::InvalidInput, message: String::from_str(message) }
    }

    /// Any credential store failure reads as the store being unavailable.
    pub fn from_credential_store(error: CredentialStoreError) -> (r: Self)
        ensures
            r.code == ErrorCode::CredentialStore,
            r.message@ == "登录状态暂时无法访问，请稍后重试。"@,
    {
        Self::credential_store()
    }

    /// An upstream failure as the front end sees it: rate limiting (HTTP or
    /// API code 412 or 429) has its own code; the rest is the upstream
    /// being unavailable.
    pub fn from_bilibili(error: BilibiliError) -> (r: Self)
        ensures
            r.code == upstream_code(error),
            r.message@ == upstream_message(error),
    {
        match error {
            BilibiliError::HttpStatus(status) if status == 412 || status == 429 => AppError {
                code: ErrorCode::RequestLimited,
                message: String::from_str("请求过于频繁，请稍后再试。"),
            },
            BilibiliError::Api { code, .. } if code == 412 || code == 429 => AppError {
                code: ErrorCode::RequestLimited,
                message: String::from_str("请求过于频繁，请稍后再试。"),
            },
            BilibiliError::InvalidLoginUrl => AppError {
                code: ErrorCode::UpstreamUnavailable,
                message: String::from_str("登录服务返回了无法使用的结果，请重新尝试。"),
            },
            _ => AppError {
                code: ErrorCode::UpstreamUnavailable,
                message: String::from_str("B站服务暂时不可用，请稍后重试。"),
            },
        }
    }
}

pub open spec fn rate_limited(error: BilibiliError) -> bool {
    match error {
        BilibiliError::HttpStatus(status) => status == 412 || status == 429,
        BilibiliError::Api { code, .. } => code == 412 || code == 429,
        _ => false,
    }
}

pub open spec fn upstream_code(error: BilibiliError) -> ErrorCode {
    if rate_limited(error) {
        ErrorCode::RequestLimited
    } else {
        ErrorCode::UpstreamUnavailable
    }
}

pub open spec fn upstream_message(error: BilibiliError) -> Seq<char> {
    if rate_limited(error) {
        "请求过于频繁，请稍后再试。"@
    } else if error is InvalidLoginUrl {
        "登录服务返回了无法使用的结果，请重新尝试。"@
    } else {
        "B站服务暂时不可用，请稍后重试。"@
    }
}


// ------------------------------------------------------------ QR sessions

/// The session stored under `id`, the latest one where there are several.
pub open spec fn find_session(entries: Seq<(String, QrSession)>, id: Seq<char>) -> Option<QrSession>
    decreases entries.len(),
{
    if entries.len() == 0 {
        None
    } else if entries.last().0@ == id {
        Some(entries.last().1)
    } else {
        find_session(entries.drop_last(), id)
    }
}

/// `entries` without the ones stored under `id`.
pub open spec fn without_session(entries: Seq<(String, QrSession)>, id: Seq<char>) -> Seq<(String, QrSession)>
    decreases entries.len(),
{
    if entries.len() == 0 {
        entries
    } else {
        let rest = without_session(entries.drop_last(), id);
        if entries.last().0@ == id {
            rest
        } else {
            rest.push(entries.last())
        }
    }
}

proof fn lemma_find_without(entries: Seq<(String, QrSession)>, id: Seq<char>, other: Seq<char>)
    ensures
        find_session(without_session(entries, id), other) == (if other == id {
            None
        } else {
            find_session(entries, other)
        }),
    decreases entries.len(),
{
    if entries.len() > 0 {
        lemma_find_without(entries.drop_last(), id, other);
        let rest = without_session(entries.drop_last(), id);
        if entries.last().0@ != id {
            assert(rest.push(entries.last()).drop_last() =~= rest);
        }
    }
}

proof fn lemma_find_some(entries: Seq<(String, QrSession)>, id: Seq<char>)
    ensures
        find_session(entries, id) is Some <==> exists|i: int|
            0 <= i < entries.len() && (#[trigger] entries[i]).0@ == id,
    decreases entries.len(),
{
    if entries.len() > 0 {
        lemma_find_some(entries.drop_last(), id);
        if find_session(entries.drop_last(), id) is Some {
            let i = choose|i: int| 0 <= i < entries.drop_last().len() && (#[trigger] entries.drop_last()[i]).0@ == id;
            assert(entries[i] == entries.drop_last()[i]);
        }
        if exists|i: int| 0 <= i < entries.len() && (#[trigger] entries[i]).0@ == id {
            let i = choose|i: int| 0 <= i < entries.len() && (#[trigger] entries[i]).0@ == id;
            if i < entries.len() - 1 {
                assert(entries.drop_last()[i] == entries[i]);
            }
        }
    }
}

/// The login flow's bookkeeping: a generation that every cancel, logout and
/// completed login advances, and the pending QR sessions by id.
pub struct AuthLifecycle {
    generation: u64,
    sessions: Vec<(String, QrSession)>,
}

impl AuthLifecycle {
    pub closed spec fn generation_spec(&self) -> u64 {
        self.generation
    }

    pub closed spec fn entries(&self) -> Seq<(String, QrSession)> {
        self.sessions@
    }

    /// The pending session stored under `id`.
    pub open spec fn session(&self, id: Seq<char>) -> Option<QrSession> {
        find_session(self.entries(), id)
    }

    /// Generation 0 with no pending session.
    pub fn new() -> (r: Self)
        ensures
            r.generation_spec() == 0,
            forall|id: Seq<char>| r.session(id) is None,
    {
        AuthLifecycle { generation: 0, sessions: Vec::new() }
    }

    pub fn generation(&self) -> (r: u64)
        ensures
            r == self.generation_spec(),
    {
        self.generation
    }

    /// Advances the generation (wrapping) and drops every pending session.
    pub fn invalidate(&mut self)
        ensures
            final(self).generation_spec() == old(self).generation_spec().wrapping_add(1),
            forall|id: Seq<char>| final(self).session(id) is None,
    {
        self.generation = self.generation.wrapping_add(1);
        self.sessions.clear();
    }

    /// Drops the session stored under `id`.
    pub fn remove(&mut self, id: &str)
        ensures
            final(self).generation_spec() == old(self).generation_spec(),
            final(self).session(id@) is None,
            forall|other: Seq<char>| other != id@ ==> final(self).session(other) == old(self).session(other),
    {
        let mut kept: Vec<(String, QrSession)> = Vec::new();
        let mut old_sessions: Vec<(String, QrSession)> = Vec::new();
        std::mem::swap(&mut old_sessions, &mut self.sessions);
        let ghost entries = old_sessions@;
        let wanted = String::from_str(id);
        let mut rest = old_sessions;
        let mut taken: Vec<(String, QrSession)> = Vec::new();
        // Move entries out in reverse, then back, keeping their order.
        while rest.len() > 0
            invariant
                rest@ + taken@.reverse() == entries,
            decreases rest@.len(),
        {
            let e = rest.pop().unwrap();
            let ghost before = taken@;
            taken.push(e);
            assert(taken@.reverse() =~= seq![e] + before.reverse());
        }
        assert(taken@.reverse() =~= entries);
        let ghost order = taken@;
        while taken.len() > 0
            invariant
                wanted@ == id@,
                order.reverse() == entries,
                taken@ == order.take(taken@.len() as int),
                taken@.len() <= order.len(),
                kept@ == without_session(entries.take((order.len() - taken@.len()) as int), id@),
            decreases taken@.len(),
        {
            let ghost k = (order.len() - taken@.len()) as int;
            let e = taken.pop().unwrap();
            assert(e == entries[k]);
            assert(entries.take(k + 1).drop_last() =~= entries.take(k));
            if !e.0.eq(&wanted) {
                kept.push(e);
            }
        }
        assert(entries.take(entries.len() as int) =~= entries);
        self.sessions = kept;
        proof {
            assert forall|other: Seq<char>| #![auto] other != id@ implies find_session(self.sessions@, other)
                == find_session(entries, other) by {
                lemma_find_without(entries, id@, other);
            }
            lemma_find_without(entries, id@, id@);
        }
    }

    /// Stores `session` under `id`, replacing any session stored there.
    pub fn insert(&mut self, id: String, session: QrSession)
        ensures
            final(self).generation_spec() == old(self).generation_spec(),
            final(self).session(id@) == Some(session),
            forall|other: Seq<char>| other != id@ ==> final(self).session(other) == old(self).session(other),
    {
        self.remove(id.as_str());
        let ghost before = self.sessions@;
        let ghost key = id@;
        self.sessions.push((id, session));
        assert(self.sessions@.drop_last() =~= before);
    }

    /// Whether a session is stored under `id`.
    pub fn contains(&self, id: &str) -> (r: bool)
        ensures
            r == self.session(id@) is Some,
    {
        let wanted = String::from_str(id);
        let mut i: usize = 0;
        while i < self.sessions.len()
            invariant
                wanted@ == id@,
                i <= self.sessions@.len(),
                forall|k: int| 0 <= k < i ==> (#[trigger] self.sessions@[k]).0@ != id@,
            decreases self.sessions@.len() - i,
        {
            if self.sessions[i].0.eq(&wanted) {
                proof {
                    lemma_find_some(self.sessions@, id@);
                }
                return true;
            }
            i = i + 1;
        }
        proof {
            lemma_find_some(self.sessions@, id@);
        }
        false
    }

    /// The session stored under `id`.
    pub fn lookup(&self, id: &str) -> (r: Option<&QrSession>)
        ensures
            match r {
                Some(s) => self.session(id@) == Some(*s),
                None => self.session(id@) is None,
            },
    {
        let wanted = String::from_str(id);
        let mut i: usize = self.sessions.len();
        assert(self.sessions@.take(i as int) =~= self.sessions@);
        while i > 0
            invariant
                wanted@ == id@,
                i <= self.sessions@.len(),
                find_session(self.sessions@, id@) == find_session(self.sessions@.take(i as int), id@),
            decreases i,
        {
            let ghost prefix = self.sessions@.take(i as int);
            assert(prefix.drop_last() =~= self.sessions@.take(i - 1));
            if self.sessions[i - 1].0.eq(&wanted) {
                return Some(&self.sessions[i - 1].1);
            }
            i = i - 1;
        }
        None
    }
}


// --------------------------------------------------------- danmaku record

/// A connection status as values.
pub struct StatusView {
    pub connection_id: Option<Seq<char>>,
    pub room_id: Option<u64>,
    pub state: DanmakuConnectionState,
    pub message: Option<Seq<char>>,
}

pub open spec fn status_view(s: DanmakuStatus) -> StatusView {
    StatusView {
        connection_id: text_view(s.connection_id),
        room_id: s.room_id,
        state: s.state,
        message: text_view(s.message),
    }
}

pub fn copy_text(s: &Option<String>) -> (r: Option<String>)
    ensures
        text_view(r) == text_view(*s),
{
    match s {
        Some(t) => Some(t.clone()),
        None => None,
    }
}

pub fn copy_status(s: &DanmakuStatus) -> (r: DanmakuStatus)
    ensures
        status_view(r) == status_view(*s),
{
    DanmakuStatus {
        connection_id: copy_text(&s.connection_id),
        room_id: s.room_id,
        state: s.state,
        message: copy_text(&s.message),
    }
}

/// A character of a hyphenated lowercase UUID.
pub open spec fn uuid_char(c: char) -> bool {
    ('0' <= c && c <= '9') || ('a' <= c && c <= 'f') || c == '-'
}

/// A fresh random id (`uuid::Uuid::new_v4`, written by its `Display`).
/// Trusted: the text is the hyphenated lowercase form, 36 characters of
/// hex digits and hyphens; nothing is claimed of which id it is.
#[verifier::external_body]
fn new_random_id() -> (r: String)
    ensures
        r@.len() == 36,
        forall|i: int| 0 <= i < 36 ==> uuid_char(#[trigger] r@[i]),
{
    uuid::Uuid::new_v4().to_string()
}

/// The live danmaku connection, if any, and the status last published.
/// The host application runs the connection itself.
pub struct DanmakuManager {
    active: Option<DanmakuConnection>,
    status: DanmakuStatus,
}

impl DanmakuManager {
    /// The id of the live connection.
    pub closed spec fn active_id(&self) -> Option<Seq<char>> {
        match self.active {
            Some(c) => Some(c.connection_id@),
            None => None,
        }
    }

    pub closed spec fn status_spec(&self) -> StatusView {
        status_view(self.status)
    }

    /// No connection, status idle.
    pub fn new() -> (r: Self)
        ensures
            r.active_id() is None,
            r.status_spec() == (StatusView {
                connection_id: None,
                room_id: None,
                state: DanmakuConnectionState::Idle,
                message: None,
            }),
    {
        DanmakuManager {
            active: None,
            status: DanmakuStatus {
                connection_id: None,
                room_id: None,
                state: DanmakuConnectionState::Idle,
                message: None,
            },
        }
    }

    pub fn status(&self) -> (r: DanmakuStatus)
        ensures
            status_view(r) == self.status_spec(),
    {
        copy_status(&self.status)
    }

    /// Stops the live connection when `connection_id` is `None` or names
    /// it; the status is then `Stopped`. Says whether one was stopped.
    pub fn stop(&mut self, connection_id: Option<&str>) -> (r: bool)
        ensures
            r == (old(self).active_id() is Some && (connection_id is None || old(self).active_id()
                == Some(connection_id->0@))),
            r ==> final(self).active_id() is None && final(self).status_spec() == (StatusView {
                connection_id: None,
                room_id: None,
                state: DanmakuConnectionState::Stopped,
                message: None,
            }),
            !r ==> final(self).active_id() == old(self).active_id() && final(self).status_spec()
                == old(self).status_spec(),
    {
        let matches = match &self.active {
            Some(current) => match connection_id {
                None => true,
                Some(id) => current.connection_id.eq(&String::from_str(id)),
            },
            None => false,
        };
        if !matches {
            return false;
        }
        self.active = None;
        self.status = DanmakuStatus {
            connection_id: None,
            room_id: None,
            state: DanmakuConnectionState::Stopped,
            message: None,
        };
        true
    }

    /// Replaces any connection by a new one to `room_id`, status
    /// `Connecting`.
    pub fn start(&mut self, room_id: u64) -> (r: DanmakuConnection)
        ensures
            r.room_id == room_id,
            r.connection_id@.len() > 0 && trimmed(r.connection_id@) == r.connection_id@,
            final(self).active_id() == Some(r.connection_id@),
            final(self).status_spec() == (StatusView {
                connection_id: Some(r.connection_id@),
                room_id: Some(room_id),
                state: DanmakuConnectionState::Connecting,
                message: None,
            }),
    {
        self.stop(None);
        let connection_id = new_random_id();
        proof {
            assert(uuid_char(connection_id@[0]));
            assert(uuid_char(connection_id@[35]));
            crate::text::lemma_trimmed_unchanged(connection_id@);
        }
        let connection = DanmakuConnection { connection_id, room_id };
        self.status = DanmakuStatus {
            connection_id: Some(connection.connection_id.clone()),
            room_id: Some(room_id),
            state: DanmakuConnectionState::Connecting,
            message: None,
        };
        self.active = Some(DanmakuConnection {
            connection_id: connection.connection_id.clone(),
            room_id,
        });
        connection
    }
}


// ---------------------------------------------------------------- commands

/// The state the commands share: the credential store, the login flow and
/// the danmaku connection record.
pub struct AppState<C: CredentialStore> {
    pub credentials: C,
    pub auth: AuthLifecycle,
    /// Whether a QR poll is awaiting Bilibili; polls run one at a time.
    pub poll_in_flight: bool,
    pub danmaku: DanmakuManager,
}

/// `r` is the error with `code` and `message`.
pub open spec fn fails_with<T>(r: Result<T, AppError>, code: ErrorCode, message: Seq<char>) -> bool {
    r matches Err(e) && e.code == code && e.message@ == message
}

/// Whether a login begun at `generation` for `session_id` may still be
/// committed.
pub open spec fn login_open(auth: AuthLifecycle, generation: u64, session_id: Seq<char>) -> bool {
    auth.generation_spec() == generation && auth.session(session_id) is Some
}

/// `after` is `before` with the generation advanced and no session left.
pub open spec fn invalidated(before: AuthLifecycle, after: AuthLifecycle) -> bool {
    &&& after.generation_spec() == before.generation_spec().wrapping_add(1)
    &&& forall|id: Seq<char>| after.session(id) is None
}

impl<C: CredentialStore> AppState<C> {
    pub open spec fn polling(&self) -> bool {
        self.poll_in_flight
    }

    pub fn new(credentials: C) -> (r: Self)
        ensures
            r.credentials == credentials,
            r.auth.generation_spec() == 0,
            forall|id: Seq<char>| r.auth.session(id) is None,
            !r.polling(),
            r.danmaku.active_id() is None,
    {
        AppState {
            credentials,
            auth: AuthLifecycle::new(),
            poll_in_flight: false,
            danmaku: DanmakuManager::new(),
        }
    }
}

/// Cancels any QR login in progress.
pub fn auth_qr_cancel<C: CredentialStore>(state: &mut AppState<C>) -> (r: Result<(), AppError>)
    ensures
        r is Ok,
        invalidated(old(state).auth, final(state).auth),
        final(state).credentials == old(state).credentials,
        final(state).danmaku == old(state).danmaku,
        final(state).polling() == old(state).polling(),
{
    state.auth.invalidate();
    Ok(())
}

/// The end of a logout once the store answered `cleared`: a cleared store
/// stops the danmaku connection; a store that could not be cleared is
/// reported and the connection kept.
pub fn finish_logout(danmaku: &mut DanmakuManager, cleared: Result<(), CredentialStoreError>) -> (r:
    Result<(), AppError>)
    ensures
        match cleared {
            Ok(()) => r is Ok && final(danmaku).active_id() is None && (old(danmaku).active_id() is Some
                ==> final(danmaku).status_spec() == (StatusView {
                connection_id: None,
                room_id: None,
                state: DanmakuConnectionState::Stopped,
                message: None,
            })) && (old(danmaku).active_id() is None ==> final(danmaku).status_spec() == old(
            danmaku).status_spec()),
            Err(_) => fails_with(
                r,
                ErrorCode::CredentialStore,
                "登录状态暂时无法访问，请稍后重试。"@,
            ) && *final(danmaku) == *old(danmaku),
        },
{
    match cleared {
        Ok(()) => {
            danmaku.stop(None);
            Ok(())
        },
        Err(e) => Err(AppError::from_credential_store(e)),
    }
}

/// Signs out: the login flow is invalidated, the credential forgotten and
/// the danmaku connection stopped.
pub fn auth_logout<C: CredentialStore>(state: &mut AppState<C>) -> (r: Result<(), AppError>)
    ensures
        invalidated(old(state).auth, final(state).auth),
        final(state).credentials.modeled() == old(state).credentials.modeled(),
        final(state).credentials.reliable() == old(state).credentials.reliable(),
        final(state).polling() == old(state).polling(),
        old(state).credentials.reliable() ==> r is Ok,
        r is Ok ==> final(state).danmaku.active_id() is None && (old(state).credentials.modeled()
            ==> final(state).credentials.stored() is None),
        r is Err ==> fails_with(
            r,
            ErrorCode::CredentialStore,
            "登录状态暂时无法访问，请稍后重试。"@,
        ) && final(state).danmaku == old(state).danmaku,
{
    state.auth.invalidate();
    let cleared = state.credentials.clear();
    finish_logout(&mut state.danmaku, cleared)
}

/// The end of a login commit once the store answered `saved`: a saved
/// cookie closes the login flow; a store that could not keep it is
/// reported and the flow left as it was.
pub fn finish_commit(auth: &mut AuthLifecycle, saved: Result<(), CredentialStoreError>) -> (r: Result<
    (),
    AppError,
>)
    ensures
        match saved {
            Ok(()) => r is Ok && invalidated(*old(auth), *final(auth)),
            Err(_) => fails_with(
                r,
                ErrorCode::CredentialStore,
                "登录状态暂时无法访问，请稍后重试。"@,
            ) && *final(auth) == *old(auth),
        },
{
    match saved {
        Ok(()) => {
            auth.invalidate();
            Ok(())
        },
        Err(e) => Err(AppError::from_credential_store(e)),
    }
}

/// Stores the cookie of a completed QR login, provided the login is still
/// the one in progress; the login flow is then closed.
pub fn commit_login<C: CredentialStore>(
    state: &mut AppState<C>,
    generation: u64,
    session_id: &str,
    cookie: &str,
) -> (r: Result<(), AppError>)
    ensures
        !login_open(old(state).auth, generation, session_id@) ==> fails_with(
            r,
            ErrorCode::QrExpired,
            "二维码已过期，请重新生成。"@,
        ) && *final(state) == *old(state),
        login_open(old(state).auth, generation, session_id@) && old(state).credentials.reliable()
            ==> r is Ok,
        r is Ok ==> login_open(old(state).auth, generation, session_id@) && invalidated(
            old(state).auth,
            final(state).auth,
        ) && (old(state).credentials.modeled() ==> final(state).credentials.stored() == Some(
            cookie@,
        )),
        r is Err && login_open(old(state).auth, generation, session_id@) ==> fails_with(
            r,
            ErrorCode::CredentialStore,
            "登录状态暂时无法访问，请稍后重试。"@,
        ) && final(state).auth == old(state).auth,
        final(state).credentials.modeled() == old(state).credentials.modeled(),
        final(state).credentials.reliable() == old(state).credentials.reliable(),
        final(state).danmaku == old(state).danmaku,
        final(state).polling() == old(state).polling(),
{
    if state.auth.generation() != generation || !state.auth.contains(session_id) {
        return Err(AppError::qr_expired());
    }
    let saved = state.credentials.save(cookie);
    finish_commit(&mut state.auth, saved)
}

/// Law: a login begun before a cancel, a logout or another completed login
/// can no longer be committed, whatever session id it names.
pub proof fn lemma_invalidated_login_refused(
    before: AuthLifecycle,
    after: AuthLifecycle,
    session_id: Seq<char>,
)
    requires
        invalidated(before, after),
    ensures
        !login_open(after, before.generation_spec(), session_id),
{
}

/// Opens a QR login: earlier logins are invalidated. Gives the generation
/// the new login belongs to.
pub fn begin_qr_start<C: CredentialStore>(state: &mut AppState<C>) -> (r: u64)
    ensures
        invalidated(old(state).auth, final(state).auth),
        r == final(state).auth.generation_spec(),
        final(state).credentials == old(state).credentials,
        final(state).danmaku == old(state).danmaku,
        final(state).polling() == old(state).polling(),
{
    state.auth.invalidate();
    state.auth.generation()
}

/// Records the QR code Bilibili generated for the login begun at
/// `generation`, under a fresh session id, unless another login or a cancel
/// came in between.
pub fn finish_qr_start<C: CredentialStore>(
    state: &mut AppState<C>,
    generation: u64,
    generated: Result<(QrSession, String), BilibiliError>,
) -> (r: Result<QrStartResponse, AppError>)
    ensures
        final(state).credentials == old(state).credentials,
        final(state).danmaku == old(state).danmaku,
        final(state).polling() == old(state).polling(),
        match generated {
            Err(e) => r matches Err(err) && err.code == upstream_code(e) && err.message@
                == upstream_message(e) && final(state).auth == old(state).auth,
            Ok((session, payload)) => if old(state).auth.generation_spec() != generation {
                fails_with(r, ErrorCode::QrExpired, "二维码已过期，请重新生成。"@)
                    && final(state).auth == old(state).auth
            } else {
                r matches Ok(resp) && resp.payload == payload && resp.expires_at
                    == session.expires_at && final(state).auth.session(resp.session_id@) == Some(
                    session,
                ) && final(state).auth.generation_spec() == generation && forall|other: Seq<char>|
                    other != resp.session_id@ ==> final(state).auth.session(other) == old(state).auth.session(other)
            },
        },
{
    let (session, payload) = match generated {
        Ok(g) => g,
        Err(e) => return Err(AppError::from_bilibili(e)),
    };
    if state.auth.generation() != generation {
        return Err(AppError::qr_expired());
    }
    let session_id = new_random_id();
    let expires_at = session.expires_at;
    state.auth.insert(session_id.clone(), session);
    Ok(QrStartResponse { session_id, payload, expires_at })
}

/// What a QR poll found out so far.
pub enum PollStep {
    /// The poll is answered.
    Done(AuthPollResponse),
    /// The QR code was confirmed with this cookie; the account it signs in
    /// is to be fetched before the login is committed.
    FetchAccount { cookie: String },
}

/// Starts polling the login `session_id` at time `now`: refuses a blank id,
/// a second poll while one is in flight, an unknown session, and an expired
/// one (which is dropped). Gives the generation and the key to poll with.
pub fn begin_qr_poll<C: CredentialStore>(state: &mut AppState<C>, session_id: &str, now: u64) -> (r:
    Result<(u64, String), AppError>)
    ensures
        final(state).credentials == old(state).credentials,
        final(state).danmaku == old(state).danmaku,
        final(state).auth.generation_spec() == old(state).auth.generation_spec(),
        trimmed(session_id@).len() == 0 ==> fails_with(
            r,
            ErrorCode::InvalidInput,
            "登录会话无效，请重新生成二维码。"@,
        ) && *final(state) == *old(state),
        trimmed(session_id@).len() > 0 && old(state).polling() ==> fails_with(
            r,
            ErrorCode::RequestLimited,
            "正在确认扫码结果，请稍候。"@,
        ) && *final(state) == *old(state),
        trimmed(session_id@).len() > 0 && !old(state).polling() ==> match old(state).auth.session(
            session_id@,
        ) {
            None => fails_with(r, ErrorCode::QrExpired, "二维码已过期，请重新生成。"@)
                && *final(state) == *old(state),
            Some(s) => if s.expires_at <= now {
                fails_with(r, ErrorCode::QrExpired, "二维码已过期，请重新生成。"@)
                    && final(state).auth.session(session_id@) is None && !final(state).polling()
                    && forall|other: Seq<char>|
                    other != session_id@ ==> final(state).auth.session(other) == old(state).auth.session(other)
            } else {
                r matches Ok((g, key)) && g == old(state).auth.generation_spec() && key@
                    == s.qrcode_key@ && final(state).auth == old(state).auth && final(state).polling()
            },
        },
{
    let blank = trim(session_id);
    if blank.as_str().is_empty() {
        return Err(AppError::invalid_input("登录会话无效，请重新生成二维码。"));
    }
    if state.poll_in_flight {
        return Err(AppError {
            code: ErrorCode::RequestLimited,
            message: String::from_str("正在确认扫码结果，请稍候。"),
        });
    }
    let generation = state.auth.generation();
    let (key, expires_at) = match state.auth.lookup(session_id) {
        Some(s) => (s.qrcode_key.clone(), s.expires_at),
        None => return Err(AppError::qr_expired()),
    };
    if expires_at <= now {
        state.auth.remove(session_id);
        return Err(AppError::qr_expired());
    }
    state.poll_in_flight = true;
    Ok((generation, key))
}

/// Ends a poll that was abandoned without an answer.
pub fn end_qr_poll<C: CredentialStore>(state: &mut AppState<C>)
    ensures
        !final(state).polling(),
        final(state).auth == old(state).auth,
        final(state).credentials == old(state).credentials,
        final(state).danmaku == old(state).danmaku,
{
    state.poll_in_flight = false;
}

/// Takes Bilibili's answer to the poll begun at `generation`: a login
/// invalidated meanwhile, or whose session is gone, has expired; an expired
/// QR code drops the session; a confirmed one asks for the account.
pub fn finish_qr_poll<C: CredentialStore>(
    state: &mut AppState<C>,
    generation: u64,
    session_id: &str,
    polled: Result<QrPollResult, BilibiliError>,
) -> (r: Result<PollStep, AppError>)
    ensures
        final(state).credentials == old(state).credentials,
        final(state).danmaku == old(state).danmaku,
        final(state).auth.generation_spec() == old(state).auth.generation_spec(),
        !(r matches Ok(PollStep::FetchAccount { .. })) ==> !final(state).polling(),
        r matches Ok(PollStep::FetchAccount { .. }) ==> final(state).polling() == old(state).polling(),
        match polled {
            Err(e) => r matches Err(err) && err.code == upstream_code(e) && err.message@
                == upstream_message(e) && final(state).auth == old(state).auth,
            Ok(result) => if !login_open(old(state).auth, generation, session_id@) {
                fails_with(r, ErrorCode::QrExpired, "二维码已过期，请重新生成。"@)
                    && final(state).auth == old(state).auth
            } else {
                match result {
                    QrPollResult::Pending => r == Ok::<PollStep, AppError>(
                        PollStep::Done(AuthPollResponse::Pending),
                    ) && final(state).auth == old(state).auth,
                    QrPollResult::Scanned => r == Ok::<PollStep, AppError>(
                        PollStep::Done(AuthPollResponse::Scanned),
                    ) && final(state).auth == old(state).auth,
                    QrPollResult::Expired => r == Ok::<PollStep, AppError>(
                        PollStep::Done(AuthPollResponse::Expired),
                    ) && final(state).auth.session(session_id@) is None && forall|
                        other: Seq<char>,
                    |
                        other != session_id@ ==> final(state).auth.session(other) == old(state).auth.session(other),
                    QrPollResult::Success { cookie } => r == Ok::<PollStep, AppError>(
                        PollStep::FetchAccount { cookie },
                    ) && final(state).auth == old(state).auth,
                }
            },
        },
{
    let result = match polled {
        Ok(result) => result,
        Err(e) => {
            state.poll_in_flight = false;
            return Err(AppError::from_bilibili(e));
        },
    };
    if state.auth.generation() != generation || !state.auth.contains(session_id) {
        state.poll_in_flight = false;
        return Err(AppError::qr_expired());
    }
    match result {
        QrPollResult::Pending => {
            state.poll_in_flight = false;
            Ok(PollStep::Done(AuthPollResponse::Pending))
        },
        QrPollResult::Scanned => {
            state.poll_in_flight = false;
            Ok(PollStep::Done(AuthPollResponse::Scanned))
        },
        QrPollResult::Expired => {
            state.auth.remove(session_id);
            state.poll_in_flight = false;
            Ok(PollStep::Done(AuthPollResponse::Expired))
        },
        QrPollResult::Success { cookie } => Ok(PollStep::FetchAccount { cookie }),
    }
}

/// Completes a confirmed QR login with the account its cookie signs in:
/// no account means the login is not confirmed; otherwise the login is
/// committed.
pub fn finish_qr_login<C: CredentialStore>(
    state: &mut AppState<C>,
    generation: u64,
    session_id: &str,
    cookie: &str,
    account: Result<Option<AccountSummary>, BilibiliError>,
) -> (r: Result<AuthPollResponse, AppError>)
    ensures
        !final(state).polling(),
        final(state).danmaku == old(state).danmaku,
        final(state).credentials.modeled() == old(state).credentials.modeled(),
        final(state).credentials.reliable() == old(state).credentials.reliable(),
        match account {
            Err(e) => r matches Err(err) && err.code == upstream_code(e) && err.message@
                == upstream_message(e) && final(state).auth == old(state).auth
                && final(state).credentials == old(state).credentials,
            Ok(None) => fails_with(
                r,
                ErrorCode::NotAuthenticated,
                "扫码成功，但账号状态仍未确认。"@,
            ) && final(state).auth == old(state).auth && final(state).credentials == old(state).credentials,
            Ok(Some(a)) => if !login_open(old(state).auth, generation, session_id@) {
                fails_with(r, ErrorCode::QrExpired, "二维码已过期，请重新生成。"@)
                    && final(state).auth == old(state).auth && final(state).credentials == old(state).credentials
            } else {
                (old(state).credentials.reliable() ==> r is Ok) && (r is Ok ==> r == Ok::<
                    AuthPollResponse,
                    AppError,
                >(AuthPollResponse::Success { account: a }) && (old(state).credentials.modeled()
                    ==> final(state).credentials.stored() == Some(cookie@)) && invalidated(
                    old(state).auth,
                    final(state).auth,
                )) && (r is Err ==> fails_with(
                    r,
                    ErrorCode::CredentialStore,
                    "登录状态暂时无法访问，请稍后重试。"@,
                ) && final(state).auth == old(state).auth)
            },
        },
{
    state.poll_in_flight = false;
    let account = match account {
        Ok(a) => a,
        Err(e) => return Err(AppError::from_bilibili(e)),
    };
    let account = match account {
        Some(a) => a,
        None => return Err(AppError {
            code: ErrorCode::NotAuthenticated,
            message: String::from_str("扫码成功，但账号状态仍未确认。"),
        }),
    };
    match commit_login(state, generation, session_id, cookie) {
        Ok(()) => Ok(AuthPollResponse::Success { account }),
        Err(e) => Err(e),
    }
}

/// What the account status check found out so far.
pub enum StatusStep {
    /// Answered without asking Bilibili.
    Done(AccountStatus),
    /// A credential is stored; the account it signs in is to be fetched.
    FetchAccount { generation: u64, cookie: String },
}

/// The first step of an account status check once the store answered
/// `loaded`: no credential means nobody is signed in; a credential is to be
/// checked with Bilibili; a store that could not be read is reported.
pub fn status_from_store(generation: u64, loaded: Result<Option<String>, CredentialStoreError>) -> (r:
    Result<StatusStep, AppError>)
    ensures
        match loaded {
            Ok(None) => r matches Ok(StatusStep::Done(s)) && !s.authenticated && s.account is None,
            Ok(Some(c)) => r matches Ok(StatusStep::FetchAccount { generation: g, cookie })
                && g == generation && cookie == c,
            Err(_) => fails_with(
                r,
                ErrorCode::CredentialStore,
                "登录状态暂时无法访问，请稍后重试。"@,
            ),
        },
{
    match loaded {
        Ok(None) => Ok(StatusStep::Done(AccountStatus { authenticated: false, account: None })),
        Ok(Some(cookie)) => Ok(StatusStep::FetchAccount { generation, cookie }),
        Err(e) => Err(AppError::from_credential_store(e)),
    }
}

/// Starts an account status check: without a stored credential nobody is
/// signed in.
pub fn begin_auth_status<C: CredentialStore>(state: &AppState<C>) -> (r: Result<StatusStep, AppError>)
    ensures
        state.credentials.reliable() ==> r is Ok,
        r matches Ok(StatusStep::Done(s)) ==> !s.authenticated && s.account is None && (
        state.credentials.modeled() ==> state.credentials.stored() is None),
        r matches Ok(StatusStep::FetchAccount { generation, cookie }) ==> generation
            == state.auth.generation_spec() && (state.credentials.modeled()
            ==> state.credentials.stored() == Some(cookie@)),
        r is Err ==> fails_with(
            r,
            ErrorCode::CredentialStore,
            "登录状态暂时无法访问，请稍后重试。"@,
        ),
{
    let generation = state.auth.generation();
    let loaded = state.credentials.load();
    status_from_store(generation, loaded)
}

/// Completes an account status check begun at `generation`, unless the
/// login state changed meanwhile.
pub fn finish_auth_status<C: CredentialStore>(
    state: &AppState<C>,
    generation: u64,
    account: Result<Option<AccountSummary>, BilibiliError>,
) -> (r: Result<AccountStatus, AppError>)
    ensures
        match account {
            Err(e) => r matches Err(err) && err.code == upstream_code(e) && err.message@
                == upstream_message(e),
            Ok(a) => if state.auth.generation_spec() != generation {
                fails_with(r, ErrorCode::NotAuthenticated, "登录状态已更新，请重试。"@)
            } else {
                r == Ok::<AccountStatus, AppError>(
                    AccountStatus { authenticated: a is Some, account: a },
                )
            },
        },
{
    let account = match account {
        Ok(a) => a,
        Err(e) => return Err(AppError::from_bilibili(e)),
    };
    if state.auth.generation() != generation {
        return Err(AppError {
            code: ErrorCode::NotAuthenticated,
            message: String::from_str("登录状态已更新，请重试。"),
        });
    }
    let authenticated = account.is_some();
    Ok(AccountStatus { authenticated, account })
}

/// Connects to the danmaku of `room_id`; room 0 does not exist.
pub fn danmaku_start<C: CredentialStore>(state: &mut AppState<C>, room_id: u64) -> (r: Result<
    DanmakuConnection,
    AppError,
>)
    ensures
        final(state).auth == old(state).auth,
        final(state).credentials == old(state).credentials,
        room_id == 0 ==> fails_with(r, ErrorCode::InvalidInput, "请输入有效的直播间号。"@)
            && final(state).danmaku == old(state).danmaku,
        room_id != 0 ==> (r matches Ok(c) && c.room_id == room_id && c.connection_id@.len() > 0
            && trimmed(c.connection_id@) == c.connection_id@ && final(state).danmaku.active_id()
            == Some(c.connection_id@) && final(state).danmaku.status_spec() == (StatusView {
            connection_id: Some(c.connection_id@),
            room_id: Some(room_id),
            state: DanmakuConnectionState::Connecting,
            message: None,
        })),
{
    if room_id == 0 {
        return Err(AppError::invalid_input("请输入有效的直播间号。"));
    }
    Ok(state.danmaku.start(room_id))
}

/// Stops the danmaku connection named by `connection_id` (trimmed), if it
/// is the live one; a blank id is refused.
pub fn danmaku_stop<C: CredentialStore>(state: &mut AppState<C>, connection_id: String) -> (r: Result<
    (),
    AppError,
>)
    ensures
        final(state).auth == old(state).auth,
        final(state).credentials == old(state).credentials,
        trimmed(connection_id@).len() == 0 ==> fails_with(
            r,
            ErrorCode::InvalidInput,
            "弹幕连接无效，请重新连接。"@,
        ) && final(state).danmaku == old(state).danmaku,
        trimmed(connection_id@).len() > 0 ==> r is Ok && (if old(state).danmaku.active_id() == Some(
            trimmed(connection_id@),
        ) {
            final(state).danmaku.active_id() is None && final(state).danmaku.status_spec().state
                == DanmakuConnectionState::Stopped
        } else {
            final(state).danmaku.active_id() == old(state).danmaku.active_id()
                && final(state).danmaku.status_spec() == old(state).danmaku.status_spec()
        }),
{
    let id = trim(connection_id.as_str());
    if id.as_str().is_empty() {
        return Err(AppError::invalid_input("弹幕连接无效，请重新连接。"));
    }
    state.danmaku.stop(Some(id.as_str()));
    Ok(())
}

pub fn danmaku_status<C: CredentialStore>(state: &AppState<C>) -> (r: Result<DanmakuStatus, AppError>)
    ensures
        r matches Ok(s) && status_view(s) == state.danmaku.status_spec(),
{
    Ok(state.danmaku.status())
}

/// The room number typed by the user: a positive decimal number, spaces
/// around it allowed.
pub fn room_id_from_input(room_id: &str) -> (r: Result<u64, AppError>)
    ensures
        match decimal_u64(trimmed(room_id@)) {
            Some(n) if n > 0 => r == Ok::<u64, AppError>(n),
            _ => fails_with(r, ErrorCode::InvalidInput, "请输入有效的直播间号。"@),
        },
{
    let text = trim(room_id);
    match parse_u64(text.as_str()) {
        Some(n) if n > 0 => Ok(n),
        _ => Err(AppError::invalid_input("请输入有效的直播间号。")),
    }
}

} // verus!
