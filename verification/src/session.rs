//! The desktop front end's session: login, the selected room, the danmaku
//! feed, the desktop danmaku window and the statistics page, driven by
//! events. Each event updates the state; the outside work it calls for
//! (requests, the connection, storage, the window) is queued as effects for
//! the host to run, and their results come back as events. A result that
//! answers a request since replaced is dropped.

use vstd::prelude::*;
use crate::commands::{
    auth_logout, auth_qr_cancel, danmaku_start, danmaku_stop, AppError, AppState, ErrorCode,
};
use crate::credentials::CredentialStore;
use crate::feed::{DanmakuState, MessageRow};
use crate::models::{
    text_view, AccountStatus, AccountSummary, AuthPollResponse, DanmakuConnection,
    DanmakuConnectionState, DanmakuMessage, DanmakuStatus, LiveStatus, QrStartResponse, RoomInfo,
};
use crate::resources::{
    lemma_slot_names_differ, DecodedImage, ImageChange, Resources, ACCOUNT_AVATAR, ROOM_AVATAR,
    ROOM_COVER,
};
use crate::stats::{retained, snapshot_of, stably_sorted, Snapshot, StatsState, StatsTab};
use crate::text::{decimal_text, decimal_u64, parse_u64, trim, trimmed, u64_to_decimal};

verus! {

/// Milliseconds between two polls of a QR login.
pub const QR_POLL_MS: u64 = 1500;

/// Milliseconds between two refreshes of the selected room.
pub const ROOM_REFRESH_MS: u64 = 60_000;

/// The time `delay` milliseconds after `now`, the clock's end at most.
pub open spec fn after(now: u64, delay: u64) -> u64 {
    if now + delay > u64::MAX {
        u64::MAX
    } else {
        (now + delay) as u64
    }
}

fn deadline(now: u64, delay: u64) -> (r: u64)
    ensures
        r == after(now, delay),
{
    now.saturating_add(delay)
}

/// A wake-up call from the host; it carries nothing.
#[derive(Debug, Clone, Copy)]
pub struct Wake;

/// The page shown.
#[derive(Debug, Clone, Copy, PartialEq, Eq, Structural)]
pub enum Page {
    Workbench,
    Stats,
    Settings,
}

/// Where a request stands.
#[derive(Debug)]
pub enum Operation {
    Idle,
    Loading,
    Failed(String),
}

impl Operation {
    pub fn loading(&self) -> (r: bool)
        ensures
            r == self is Loading,
    {
        match self {
            Operation::Loading => true,
            _ => false,
        }
    }

    /// The error of a failed request.
    pub fn error(&self) -> (r: Option<&str>)
        ensures
            match self {
                Operation::Failed(e) => r matches Some(s) && s@ == e@,
                _ => r is None,
            },
    {
        match self {
            Operation::Failed(e) => Some(e.as_str()),
            _ => None,
        }
    }
}

/// A request that runs at most once at a time: each start gets a new
/// revision, and only the answer carrying the current one is taken.
pub struct Request {
    pub revision: u64,
    pub state: Operation,
}

impl Request {
    pub fn new() -> (r: Self)
        ensures
            r.revision == 0,
            r.state is Idle,
    {
        Request { revision: 0, state: Operation::Idle }
    }

    /// Forgets the request in progress: its answer will not be taken.
    pub fn cancel(&mut self)
        ensures
            final(self).revision == old(self).revision.wrapping_add(1),
            final(self).state is Idle,
    {
        self.revision = self.revision.wrapping_add(1);
        self.state = Operation::Idle;
    }

    /// Starts a new request in place of any other; returns its revision.
    pub fn begin(&mut self) -> (r: u64)
        ensures
            r == old(self).revision.wrapping_add(1),
            final(self).revision == r,
            final(self).state is Loading,
    {
        self.cancel();
        self.state = Operation::Loading;
        self.revision
    }

    /// Takes the answer of revision `revision` if it is the one awaited.
    pub fn finish(&mut self, revision: u64) -> (r: bool)
        ensures
            r == (revision == old(self).revision && old(self).state is Loading),
            final(self).revision == old(self).revision,
            r ==> final(self).state is Idle,
            !r ==> final(self).state == old(self).state,
    {
        if revision != self.revision || !self.state.loading() {
            return false;
        }
        self.state = Operation::Idle;
        true
    }
}

/// Law: starting a request makes the answer to the one before it
/// unacceptable: the new revision differs from the old.
pub proof fn lemma_new_request_refuses_old_answers(revision: u64)
    ensures
        revision.wrapping_add(1) != revision,
{
}

/// Counters the views compare to know what to redraw, one per area.
#[derive(Debug, Clone, Copy)]
pub struct Revisions {
    pub shell: u64,
    pub room: u64,
    pub messages: u64,
    pub stats: u64,
    pub overlay: u64,
    pub desktop: u64,
}

/// Where a QR login stands.
#[derive(Debug, Clone, Copy, PartialEq, Eq, Structural)]
pub enum QrPhase {
    Idle,
    Pending,
    Scanned,
    Expired,
    Failed,
}

/// How a room's broadcast state is shown.
pub fn live_label(status: &LiveStatus) -> (r: &'static str)
    ensures
        r@ == (match status {
            LiveStatus::Live => "直播中"@,
            LiveStatus::Round => "轮播中"@,
            LiveStatus::Offline => "未开播"@,
            LiveStatus::Unknown => "状态未知"@,
        }),
{
    match status {
        LiveStatus::Live => "直播中",
        LiveStatus::Round => "轮播中",
        LiveStatus::Offline => "未开播",
        LiveStatus::Unknown => "状态未知",
    }
}

/// How a danmaku connection's state is shown.
pub fn danmaku_label(status: &DanmakuStatus) -> (r: &'static str)
    ensures
        r@ == (match status.state {
            DanmakuConnectionState::Connected => "已连接"@,
            DanmakuConnectionState::Connecting => "连接中"@,
            DanmakuConnectionState::Reconnecting => "正在重连"@,
            DanmakuConnectionState::Error => "连接异常"@,
            DanmakuConnectionState::Stopped => "已停止"@,
            DanmakuConnectionState::Idle => "未连接"@,
        }),
{
    match status.state {
        DanmakuConnectionState::Connected => "已连接",
        DanmakuConnectionState::Connecting => "连接中",
        DanmakuConnectionState::Reconnecting => "正在重连",
        DanmakuConnectionState::Error => "连接异常",
        DanmakuConnectionState::Stopped => "已停止",
        DanmakuConnectionState::Idle => "未连接",
    }
}

// ------------------------------------------------------------------ state

/// The login: whether the dialog is open, the account, the QR code shown
/// and where its login stands, the next poll time.
pub struct AuthState {
    pub open: bool,
    pub account: Option<AccountStatus>,
    pub qr: Option<QrStartResponse>,
    pub phase: QrPhase,
    pub request: Request,
    pub next_poll: Option<u64>,
    /// Whether the remembered room was looked up since the last login.
    pub restored: bool,
}

impl AuthState {
    pub fn loading(&self) -> (r: bool)
        ensures
            r == self.request.state is Loading,
    {
        self.request.state.loading()
    }

    pub fn error(&self) -> (r: Option<&str>)
        ensures
            match self.request.state {
                Operation::Failed(e) => r matches Some(s) && s@ == e@,
                _ => r is None,
            },
    {
        self.request.state.error()
    }
}

/// The room: what the user typed, the room remembered from last time, the
/// room shown, whether its number is being edited, and the refresh timer.
pub struct RoomState {
    pub input: String,
    pub remembered: String,
    pub info: Option<RoomInfo>,
    pub editing: bool,
    pub request: Request,
    pub next_refresh: Option<u64>,
    /// Refreshes that failed in a row.
    pub failures: u64,
}

impl RoomState {
    pub fn new(remembered: String) -> (r: Self)
        ensures
            r.input@ == remembered@,
            r.remembered@ == remembered@,
            r.info is None,
            !r.editing,
            r.request.revision == 0 && r.request.state is Idle,
            r.next_refresh is None,
            r.failures == 0,
    {
        RoomState {
            input: remembered.clone(),
            remembered,
            info: None,
            editing: false,
            request: Request::new(),
            next_refresh: None,
            failures: 0,
        }
    }

    pub fn loading(&self) -> (r: bool)
        ensures
            r == self.request.state is Loading,
    {
        self.request.state.loading()
    }

    pub fn error(&self) -> (r: Option<&str>)
        ensures
            match self.request.state {
                Operation::Failed(e) => r matches Some(s) && s@ == e@,
                _ => r is None,
            },
    {
        self.request.state.error()
    }
}

/// The desktop danmaku window.
#[derive(Debug, Clone, Copy, PartialEq, Eq, Structural)]
pub enum DesktopDanmakuPhase {
    Closed,
    /// Asked for, not yet shown.
    Creating,
    /// Shown, taking the mouse so it can be moved and resized.
    Adjusting,
    /// Shown, letting the mouse through.
    Locked,
}

/// What the host has to do to the desktop window of generation
/// `generation`.
#[derive(Debug, Clone, Copy)]
pub enum DesktopEffect {
    Open { generation: u64 },
    Close { generation: u64 },
    Focus { generation: u64 },
    SetPassthrough { generation: u64, request: u64, enabled: bool },
}

/// The desktop window: its phase, the generation of the latest window, the
/// mouse pass-through change awaited, and the window work not yet handed
/// out.
pub struct DesktopDanmakuState {
    pub phase: DesktopDanmakuPhase,
    pub generation: u64,
    pub error: Option<String>,
    pub effects: Vec<DesktopEffect>,
    pub request: u64,
    pub pending_passthrough: Option<(u64, bool)>,
}

impl DesktopDanmakuState {
    pub fn new() -> (r: Self)
        ensures
            r.phase == DesktopDanmakuPhase::Closed,
            r.generation == 0,
            r.error is None,
            r.effects@.len() == 0,
            r.request == 0,
            r.pending_passthrough is None,
    {
        DesktopDanmakuState {
            phase: DesktopDanmakuPhase::Closed,
            generation: 0,
            error: None,
            effects: Vec::new(),
            request: 0,
            pending_passthrough: None,
        }
    }

    pub open spec fn open_spec(&self) -> bool {
        self.phase == DesktopDanmakuPhase::Adjusting || self.phase == DesktopDanmakuPhase::Locked
    }

    /// Whether the window is shown.
    pub fn is_open(&self) -> (r: bool)
        ensures
            r == self.open_spec(),
    {
        self.phase == DesktopDanmakuPhase::Adjusting || self.phase == DesktopDanmakuPhase::Locked
    }
}

/// Outside work the session asks the host for. Each request carries the
/// revision its answer must bring back.
#[derive(Debug)]
pub enum Effect {
    /// Fetch the account status (`auth_status`).
    LoadAccount { request: u64 },
    /// Start a QR login (`auth_qr_start`).
    StartQr { request: u64 },
    /// Poll the QR login `session_id` (`auth_qr_poll`).
    PollQr { request: u64, session_id: String },
    /// Look up room `room_id` (`room_get_info`).
    QueryRoom { request: u64, refresh: bool, room_id: String },
    /// Stop waiting for the login request in progress.
    AbortAuth,
    /// Stop waiting for the room lookup in progress.
    AbortRoom,
    /// Load the image at `url` for `slot`.
    FetchImage { slot: String, revision: u64, url: String },
    /// Run the danmaku connection.
    Connect { connection: DanmakuConnection },
    /// Stop running the danmaku connection `connection_id`.
    Disconnect { connection_id: String },
    /// Save the stored state, as revision `revision`.
    Persist { revision: u64, recover: bool },
}

/// What happens to the session: the user's actions and the answers to the
/// work it asked for.
#[derive(Debug)]
#[allow(inconsistent_fields)]
pub enum AppEvent {
    Navigate(Page),
    OpenLogin,
    CloseLogin,
    StartQr,
    Logout,
    EditRoom,
    CancelEditRoom,
    RoomIdChanged(String),
    QueryRoom,
    RefreshRoom,
    DisconnectRoom,
    OpenDesktopDanmaku,
    CloseDesktopDanmaku,
    AdjustDesktopDanmaku,
    LockDesktopDanmaku,
    DesktopOpened { generation: u64 },
    DesktopOpenFailed { generation: u64 },
    DesktopClosed { generation: u64 },
    DesktopPassthroughResult { generation: u64, request: u64, enabled: bool, success: bool },
    FollowLatest,
    Reading { following: bool },
    SelectStatsTab(StatsTab),
    SelectHistoryRoom(u64),
    AskClearStats,
    CancelClearStats,
    ClearStats,
    RetryStore,
    AuthStatus(u64, Result<AccountStatus, AppError>),
    QrStarted(u64, Result<QrStartResponse, AppError>),
    QrPolled(u64, Result<AuthPollResponse, AppError>),
    RoomLoaded { request: u64, refresh: bool, result: Result<RoomInfo, AppError> },
    DanmakuStatus(DanmakuStatus),
    DanmakuMessage(DanmakuMessage),
    ImageLoaded { slot: String, revision: u64, image: Option<DecodedImage> },
    Stored { revision: u64, result: Result<(), String> },
}

/// The session.
pub struct Session {
    pub page: Page,
    pub auth: AuthState,
    pub room: RoomState,
    pub danmaku: DanmakuState,
    pub desktop: DesktopDanmakuState,
    pub stats: StatsState,
    pub revisions: Revisions,
    pub storage_error: Option<String>,
    pub resources: Resources,
    pub storage_revision: u64,
    /// Outside work not yet handed to the host.
    pub effects: Vec<Effect>,
}

/// Whether `status` says a user is signed in, with an account.
pub open spec fn signed_in(account: Option<AccountStatus>) -> bool {
    account matches Some(s) && s.authenticated && s.account is Some
}

/// The room shown, by number.
pub open spec fn room_of(info: Option<RoomInfo>) -> Option<u64> {
    match info {
        Some(i) => Some(i.room_id),
        None => None,
    }
}

fn same_text(a: &Option<String>, b: &Option<String>) -> (r: bool)
    ensures
        r == (text_view(*a) == text_view(*b)),
{
    match (a, b) {
        (Some(x), Some(y)) => x.eq(y),
        (None, None) => true,
        _ => false,
    }
}

fn copy_text(s: &Option<String>) -> (r: Option<String>)
    ensures
        r == *s,
{
    match s {
        Some(t) => Some(t.clone()),
        None => None,
    }
}

impl Session {
    pub open spec fn wf(&self) -> bool {
        &&& self.danmaku.wf()
        &&& self.resources.wf()
    }

    pub open spec fn signed_in(&self) -> bool {
        signed_in(self.auth.account)
    }

    pub open spec fn shown_room(&self) -> Option<u64> {
        room_of(self.room.info)
    }

    /// A fresh session: the remembered room typed in, the stored snapshots
    /// loaded, nobody signed in, nothing open.
    pub fn new(remembered_room: String, snapshots: Vec<Snapshot>) -> (r: Self)
        ensures
            r.wf(),
            r.page == Page::Workbench,
            !r.auth.open && r.auth.account is None && r.auth.qr is None,
            r.auth.phase == QrPhase::Idle,
            r.auth.request.revision == 0 && r.auth.request.state is Idle,
            r.auth.next_poll is None,
            !r.auth.restored,
            r.room.input@ == remembered_room@ && r.room.remembered@ == remembered_room@,
            r.room.info is None,
            !r.room.editing,
            r.room.request.revision == 0 && r.room.request.state is Idle,
            r.room.next_refresh is None,
            r.room.failures == 0,
            r.danmaku.messages@.len() == 0,
            r.danmaku.following,
            r.danmaku.unread == 0,
            r.danmaku.next_id == 0,
            r.danmaku.status == (DanmakuStatus {
                connection_id: None,
                room_id: None,
                state: DanmakuConnectionState::Idle,
                message: None,
            }),
            r.desktop.phase == DesktopDanmakuPhase::Closed,
            r.desktop.generation == 0,
            r.desktop.error is None,
            r.desktop.effects@.len() == 0,
            r.desktop.request == 0,
            r.desktop.pending_passthrough is None,
            exists|sorted: Seq<Snapshot>|
                stably_sorted(sorted, snapshots@) && r.stats.snapshots@ == retained(sorted),
            r.stats.selected_room == (if r.stats.snapshots@.len() > 0 {
                Some(r.stats.snapshots@.last().room_id)
            } else {
                None
            }),
            r.stats.tab == StatsTab::Trend,
            r.stats.confirm_clear is None,
            r.revisions == (Revisions { shell: 0, room: 0, messages: 0, stats: 0, overlay: 0, desktop: 0 }),
            r.storage_error is None,
            forall|name: Seq<char>| r.resources.slot(name) == crate::resources::empty_slot(),
            r.resources.pending@.len() == 0,
            r.storage_revision == 0,
            r.effects@.len() == 0,
    {
        Session {
            page: Page::Workbench,
            auth: AuthState {
                open: false,
                account: None,
                qr: None,
                phase: QrPhase::Idle,
                request: Request::new(),
                next_poll: None,
                restored: false,
            },
            room: RoomState::new(remembered_room),
            danmaku: DanmakuState::new(),
            desktop: DesktopDanmakuState::new(),
            stats: StatsState::new(snapshots),
            revisions: Revisions { shell: 0, room: 0, messages: 0, stats: 0, overlay: 0, desktop: 0 },
            storage_error: None,
            resources: Resources::new(),
            storage_revision: 0,
            effects: Vec::new(),
        }
    }
}

/// How long after the `failures`-th failed refresh in a row the room is
/// refreshed again.
pub open spec fn refresh_backoff_ms(failures: u64) -> u64 {
    if failures == 0 {
        60_000
    } else if failures == 1 {
        120_000
    } else if failures == 2 {
        240_000
    } else {
        300_000
    }
}

fn backoff_ms(failures: u64) -> (r: u64)
    ensures
        r == refresh_backoff_ms(failures),
{
    if failures == 0 {
        60_000
    } else if failures == 1 {
        120_000
    } else if failures == 2 {
        240_000
    } else {
        300_000
    }
}

fn bump(x: u64) -> (r: u64)
    ensures
        r == x.wrapping_add(1),
{
    x.wrapping_add(1)
}

fn text_ref(s: &Option<String>) -> (r: Option<&str>)
    ensures
        match *s {
            Some(t) => r matches Some(u) && u@ == t@,
            None => r is None,
        },
{
    match s {
        Some(t) => Some(t.as_str()),
        None => None,
    }
}

/// A room number the user may look up: a positive decimal number.
pub open spec fn valid_room_text(raw: Seq<char>) -> bool {
    decimal_u64(raw) matches Some(n) && n > 0
}

impl Session {
    /// Whether a user is signed in.
    pub fn authenticated(&self) -> (r: bool)
        ensures
            r == self.signed_in(),
    {
        match &self.auth.account {
            Some(s) => s.authenticated && s.account.is_some(),
            None => false,
        }
    }

    /// The signed-in account.
    pub fn account(&self) -> (r: Option<&AccountSummary>)
        ensures
            match self.auth.account {
                Some(s) => match s.account {
                    Some(a) => r matches Some(x) && *x == a,
                    None => r is None,
                },
                None => r is None,
            },
    {
        match &self.auth.account {
            Some(s) => match &s.account {
                Some(a) => Some(a),
                None => None,
            },
            None => None,
        }
    }

    /// Whether the image of `slot` is shown.
    pub fn has_image(&self, slot: &str) -> (r: bool)
        requires
            self.wf(),
        ensures
            r == self.resources.slot(slot@).ready,
    {
        self.resources.ready(slot)
    }

    /// The texture changes not yet handed out, in order.
    pub fn take_pending_images(&mut self) -> (r: Vec<ImageChange>)
        ensures
            r@ == old(self).resources.pending@,
            final(self).resources.pending@.len() == 0,
            final(self).resources.slots == old(self).resources.slots,
            final(self).effects == old(self).effects,
            final(self).page == old(self).page,
            final(self).auth == old(self).auth,
            final(self).room == old(self).room,
            final(self).danmaku == old(self).danmaku,
            final(self).stats == old(self).stats,
            final(self).revisions == old(self).revisions,
            final(self).storage_error == old(self).storage_error,
            final(self).storage_revision == old(self).storage_revision,
            final(self).desktop == old(self).desktop,
    {
        let mut out: Vec<ImageChange> = Vec::new();
        std::mem::swap(&mut out, &mut self.resources.pending);
        out
    }

    /// The outside work not yet handed out, in order.
    pub fn take_effects(&mut self) -> (r: Vec<Effect>)
        ensures
            r@ == old(self).effects@,
            final(self).effects@.len() == 0,
            final(self).resources == old(self).resources,
            final(self).page == old(self).page,
            final(self).auth == old(self).auth,
            final(self).room == old(self).room,
            final(self).danmaku == old(self).danmaku,
            final(self).stats == old(self).stats,
            final(self).revisions == old(self).revisions,
            final(self).storage_error == old(self).storage_error,
            final(self).storage_revision == old(self).storage_revision,
            final(self).desktop == old(self).desktop,
    {
        let mut out: Vec<Effect> = Vec::new();
        std::mem::swap(&mut out, &mut self.effects);
        out
    }

    /// The window work not yet handed out, in order.
    pub fn take_desktop_effects(&mut self) -> (r: Vec<DesktopEffect>)
        ensures
            r@ == old(self).desktop.effects@,
            final(self).desktop.effects@.len() == 0,
            final(self).desktop.phase == old(self).desktop.phase,
            final(self).desktop.generation == old(self).desktop.generation,
            final(self).desktop.error == old(self).desktop.error,
            final(self).desktop.request == old(self).desktop.request,
            final(self).desktop.pending_passthrough == old(self).desktop.pending_passthrough,
            final(self).effects == old(self).effects,
            final(self).resources == old(self).resources,
            final(self).page == old(self).page,
            final(self).auth == old(self).auth,
            final(self).room == old(self).room,
            final(self).danmaku == old(self).danmaku,
            final(self).stats == old(self).stats,
            final(self).revisions == old(self).revisions,
            final(self).storage_error == old(self).storage_error,
            final(self).storage_revision == old(self).storage_revision,
    {
        let mut out: Vec<DesktopEffect> = Vec::new();
        std::mem::swap(&mut out, &mut self.desktop.effects);
        out
    }

    /// The earliest time the session has something to do by itself.
    pub fn next_wakeup(&self) -> (r: Option<u64>)
        ensures
            r == (match (self.auth.next_poll, self.room.next_refresh) {
                (Some(a), Some(b)) => Some(if a <= b { a } else { b }),
                (Some(a), None) => Some(a),
                (None, Some(b)) => Some(b),
                (None, None) => None,
            }),
    {
        match (self.auth.next_poll, self.room.next_refresh) {
            (Some(a), Some(b)) => Some(if a <= b { a } else { b }),
            (Some(a), None) => Some(a),
            (None, Some(b)) => Some(b),
            (None, None) => None,
        }
    }

    /// Saves the stored state under a new revision.
    pub fn persist(&mut self, recover: bool)
        ensures
            persist_outcome(*old(self), *final(self), recover),
    {
        self.storage_revision = self.storage_revision.wrapping_add(1);
        self.effects.push(Effect::Persist { revision: self.storage_revision, recover });
    }

    /// Empties image slot `slot`.
    pub fn clear_image(&mut self, slot: &str)
        requires
            old(self).wf(),
        ensures
            final(self).wf(),
            final(self).resources.slot(slot@) == crate::resources::requested(
                old(self).resources.slot(slot@),
                None,
            ),
            forall|other: Seq<char>|
                other != slot@ ==> final(self).resources.slot(other) == old(self).resources.slot(other),
            final(self).page == old(self).page,
            final(self).auth == old(self).auth,
            final(self).room == old(self).room,
            final(self).danmaku == old(self).danmaku,
            final(self).desktop == old(self).desktop,
            final(self).stats == old(self).stats,
            final(self).revisions == old(self).revisions,
            final(self).storage_error == old(self).storage_error,
            final(self).storage_revision == old(self).storage_revision,
            final(self).effects == old(self).effects,
            final(self).resources.slot(slot@) != old(self).resources.slot(slot@) ==> {
                &&& final(self).resources.pending@.len() == old(self).resources.pending@.len() + 1
                &&& final(self).resources.pending@.drop_last() == old(self).resources.pending@
                &&& (final(self).resources.pending@.last() matches ImageChange::Remove(n) && n@
                    == slot@)
            },
            final(self).resources.slot(slot@) == old(self).resources.slot(slot@) ==> final(
            self).resources.pending@ == old(self).resources.pending@,
    {
        self.resources.begin(slot, None);
    }

    /// Shows the image at `url` in `slot`, asking the host to load it unless
    /// the slot already shows or loads it.
    pub fn request_image(&mut self, slot: &str, url: Option<&str>)
        requires
            old(self).wf(),
        ensures
            final(self).wf(),
            final(self).resources.slot(slot@) == crate::resources::requested(
                old(self).resources.slot(slot@),
                match url {
                    Some(u) => Some(u@),
                    None => None,
                },
            ),
            forall|other: Seq<char>|
                other != slot@ ==> final(self).resources.slot(other) == old(self).resources.slot(other),
            final(self).page == old(self).page,
            final(self).auth == old(self).auth,
            final(self).room == old(self).room,
            final(self).danmaku == old(self).danmaku,
            final(self).desktop == old(self).desktop,
            final(self).stats == old(self).stats,
            final(self).revisions == old(self).revisions,
            final(self).storage_error == old(self).storage_error,
            final(self).storage_revision == old(self).storage_revision,
            final(self).effects@.len() >= old(self).effects@.len(),
            forall|i: int|
                0 <= i < old(self).effects@.len() ==> final(self).effects@[i] == old(self).effects@[i],
            final(self).resources.slot(slot@) != old(self).resources.slot(slot@) ==> {
                &&& final(self).resources.pending@.len() == old(self).resources.pending@.len() + 1
                &&& final(self).resources.pending@.drop_last() == old(self).resources.pending@
                &&& (final(self).resources.pending@.last() matches ImageChange::Remove(n) && n@
                    == slot@)
            },
            final(self).resources.slot(slot@) == old(self).resources.slot(slot@) ==> final(
            self).resources.pending@ == old(self).resources.pending@,
    {
        match self.resources.begin(slot, url) {
            Some(revision) => match url {
                Some(u) => {
                    self.effects.push(
                        Effect::FetchImage {
                            slot: String::from_str(slot),
                            revision,
                            url: String::from_str(u),
                        },
                    );
                },
                None => {},
            },
            None => {},
        }
    }
}

/// `b` is `a` with at most the feed status, the revisions, the effects and
/// the window changed.
pub open spec fn same_but_feed_status(a: Session, b: Session) -> bool {
    &&& b.page == a.page
    &&& b.auth == a.auth
    &&& b.room == a.room
    &&& b.danmaku.messages == a.danmaku.messages
    &&& b.danmaku.following == a.danmaku.following
    &&& b.danmaku.unread == a.danmaku.unread
    &&& b.danmaku.next_id == a.danmaku.next_id
    &&& b.stats == a.stats
    &&& b.storage_error == a.storage_error
    &&& b.resources == a.resources
    &&& b.storage_revision == a.storage_revision
    &&& b.effects@.len() >= a.effects@.len()
    &&& forall|i: int| 0 <= i < a.effects@.len() ==> b.effects@[i] == a.effects@[i]
}

/// The connection the feed names is the one the commands record as live,
/// under an id the commands can stop.
pub open spec fn connection_agrees<C: CredentialStore>(s: Session, core: AppState<C>) -> bool {
    s.danmaku.status.connection_id matches Some(id) ==> core.danmaku.active_id() == Some(id@)
        && id@.len() > 0 && trimmed(id@) == id@
}

/// The work `effects`, with a request to stop connection `live` added when
/// there is one.
pub open spec fn with_disconnect(effects: Seq<Effect>, live: Option<String>) -> Seq<Effect> {
    match live {
        Some(id) => effects.push(Effect::Disconnect { connection_id: id }),
        None => effects,
    }
}

/// The connection of `pre` is stopped in `post`: the feed names none, and
/// where the feed and the commands agreed, the commands record none either.
pub open spec fn connection_stopped<C: CredentialStore>(
    pre: Session,
    post: Session,
    core_pre: AppState<C>,
    core_post: AppState<C>,
) -> bool {
    &&& post.danmaku.status.connection_id is None
    &&& connection_agrees(pre, core_pre) && pre.danmaku.status.connection_id is Some
        ==> core_post.danmaku.active_id() is None
}

/// `b` is `a` with at most the feed and the revisions changed.
pub open spec fn same_but_feed(a: Session, b: Session) -> bool {
    &&& b.page == a.page
    &&& b.auth == a.auth
    &&& b.room == a.room
    &&& b.desktop == a.desktop
    &&& b.stats == a.stats
    &&& b.storage_error == a.storage_error
    &&& b.resources == a.resources
    &&& b.storage_revision == a.storage_revision
    &&& b.effects == a.effects
}

/// The status of a stopped connection to the room shown.
pub open spec fn stopped_status(room: Option<u64>) -> DanmakuStatus {
    DanmakuStatus {
        connection_id: None,
        room_id: room,
        state: DanmakuConnectionState::Stopped,
        message: None,
    }
}

/// `b` is `a` after connecting to room `room`: a connection the host is
/// asked to run, which the feed and `active` (the command state) name; room
/// 0 does not exist and fails.
pub open spec fn connected(a: Session, b: Session, active: Option<Seq<char>>, room: u64) -> bool {
    &&& b.revisions == (Revisions { messages: a.revisions.messages.wrapping_add(1), ..a.revisions })
    &&& room != 0 ==> b.effects@.len() == a.effects@.len() + 1 && match b.effects@.last() {
        Effect::Connect { connection } => {
            &&& connection.room_id == room
            &&& active == Some(connection.connection_id@)
            &&& b.danmaku.status == DanmakuStatus {
                connection_id: Some(connection.connection_id),
                room_id: Some(room),
                state: DanmakuConnectionState::Connecting,
                message: None,
            }
        },
        _ => false,
    }
    &&& room == 0 ==> b.effects == a.effects && b.danmaku.status.state
        == DanmakuConnectionState::Error && b.danmaku.status.connection_id is None
}

impl Session {
    /// Stops the danmaku connection, if any; the feed keeps its messages.
    pub fn stop_danmaku<C: CredentialStore>(&mut self, core: &mut AppState<C>)
        requires
            old(self).wf(),
        ensures
            final(self).wf(),
            same_but_feed_status(*old(self), *final(self)),
            final(self).desktop == old(self).desktop,
            final(self).danmaku.status == stopped_status(old(self).shown_room()),
            final(self).revisions == (Revisions {
                messages: old(self).revisions.messages.wrapping_add(1),
                ..old(self).revisions
            }),
            final(self).effects@ == (match old(self).danmaku.status.connection_id {
                Some(id) => old(self).effects@.push(Effect::Disconnect { connection_id: id }),
                None => old(self).effects@,
            }),
            final(core).auth == old(core).auth,
            final(core).credentials == old(core).credentials,
            old(core).danmaku.active_id() is None ==> final(core).danmaku.active_id() is None,
            connection_stopped(*old(self), *final(self), *old(core), *final(core)),
    {
        match self.danmaku.status.connection_id.take() {
            Some(id) => {
                let _ = danmaku_stop(core, id.clone());
                self.effects.push(Effect::Disconnect { connection_id: id });
            },
            None => {},
        }
        let room_id = match &self.room.info {
            Some(info) => Some(info.room_id),
            None => None,
        };
        self.danmaku.status = DanmakuStatus {
            connection_id: None,
            room_id,
            state: DanmakuConnectionState::Stopped,
            message: None,
        };
        self.revisions.messages = bump(self.revisions.messages);
    }

    /// Connects to the danmaku of the room shown, provided a user is signed
    /// in, no connection is live and the desktop window is shown.
    pub fn start_danmaku<C: CredentialStore>(&mut self, core: &mut AppState<C>)
        requires
            old(self).wf(),
        ensures
            final(self).wf(),
            same_but_feed_status(*old(self), *final(self)),
            final(self).desktop == old(self).desktop,
            final(core).auth == old(core).auth,
            final(core).credentials == old(core).credentials,
            !(old(self).signed_in() && old(self).danmaku.status.connection_id is None
                && old(self).desktop.open_spec() && old(self).room.info is Some) ==> *final(self)
                == *old(self) && *final(core) == *old(core),
            old(self).signed_in() && old(self).danmaku.status.connection_id is None
                && old(self).desktop.open_spec() && old(self).room.info is Some ==> connected(
                *old(self),
                *final(self),
                final(core).danmaku.active_id(),
                old(self).room.info->0.room_id,
            ),
            connection_agrees(*old(self), *old(core)) ==> connection_agrees(*final(self), *final(core)),
    {
        if !self.authenticated() || self.danmaku.active() || !self.desktop.is_open() {
            return;
        }
        let room_id = match &self.room.info {
            Some(info) => info.room_id,
            None => {
                return;
            },
        };
        match danmaku_start(core, room_id) {
            Ok(connection) => {
                self.danmaku.status = DanmakuStatus {
                    connection_id: Some(connection.connection_id.clone()),
                    room_id: Some(room_id),
                    state: DanmakuConnectionState::Connecting,
                    message: None,
                };
                self.effects.push(Effect::Connect { connection });
            },
            Err(e) => {
                self.danmaku.status.state = DanmakuConnectionState::Error;
                self.danmaku.status.message = Some(e.message);
            },
        }
        self.revisions.messages = bump(self.revisions.messages);
    }

    /// Takes a status the connection reports, if it is about the live
    /// connection to the room shown.
    pub fn on_danmaku_status(&mut self, status: DanmakuStatus)
        requires
            old(self).wf(),
        ensures
            final(self).wf(),
            on_danmaku_status_outcome(*old(self), *final(self), status),
    {
        if status.connection_id.is_none() || !same_text(
            &status.connection_id,
            &self.danmaku.status.connection_id,
        ) {
            return;
        }
        let shown = match &self.room.info {
            Some(info) => Some(info.room_id),
            None => None,
        };
        if status.room_id != shown {
            return;
        }
        self.danmaku.status = status;
        self.revisions.messages = bump(self.revisions.messages);
    }

    /// Adds a message to the feed, if it comes from the live connection to
    /// the room shown.
    pub fn on_danmaku_message(&mut self, message: DanmakuMessage)
        requires
            old(self).wf(),
        ensures
            final(self).wf(),
            on_danmaku_message_outcome(*old(self), *final(self), message),
    {
        let connected = match &self.danmaku.status.connection_id {
            Some(id) => id.eq(&message.connection_id),
            None => false,
        };
        let shown = match &self.room.info {
            Some(info) => info.room_id == message.room_id,
            None => false,
        };
        if !connected || !shown || self.danmaku.next_id == u64::MAX {
            return;
        }
        self.danmaku.push(message);
        self.revisions.messages = bump(self.revisions.messages);
    }

    /// The reader jumps to the newest message.
    pub fn follow_latest(&mut self)
        requires
            old(self).wf(),
        ensures
            final(self).wf(),
            follow_latest_outcome(*old(self), *final(self)),
    {
        self.danmaku.following = true;
        self.danmaku.unread = 0;
        self.revisions.messages = bump(self.revisions.messages);
    }

    /// Whether the reader may scroll: not while the window lets the mouse
    /// through.
    pub fn accepts_reading(&self) -> (r: bool)
        ensures
            r == (self.desktop.phase != DesktopDanmakuPhase::Locked),
    {
        self.desktop.phase != DesktopDanmakuPhase::Locked
    }

    /// The reader scrolled: following the newest message or not.
    pub fn reading(&mut self, following: bool)
        requires
            old(self).wf(),
        ensures
            final(self).wf(),
            reading_outcome(*old(self), *final(self), following),
    {
        if self.desktop.phase == DesktopDanmakuPhase::Locked {
            return;
        }
        self.danmaku.following = following;
        if following {
            self.danmaku.unread = 0;
        }
        self.revisions.messages = bump(self.revisions.messages);
    }
}

/// `b` is `a` with at most the window changed (its phase, generation,
/// request, error and work).
pub open spec fn same_but_window(a: Session, b: Session) -> bool {
    &&& b.page == a.page
    &&& b.auth == a.auth
    &&& b.room == a.room
    &&& b.danmaku == a.danmaku
    &&& b.stats == a.stats
    &&& b.storage_error == a.storage_error
    &&& b.resources == a.resources
    &&& b.storage_revision == a.storage_revision
    &&& b.effects == a.effects
}

/// The window work of `b` is that of `a` with `e` added.
pub open spec fn window_work_added(a: Session, b: Session, e: DesktopEffect) -> bool {
    b.desktop.effects@ == a.desktop.effects@.push(e)
}

impl Session {
    /// Asks for the mouse pass-through of the window to be `enabled`,
    /// unless the window is not shown, another change is awaited, or it is
    /// already so.
    pub fn set_desktop_passthrough(&mut self, enabled: bool)
        requires
            old(self).wf(),
        ensures
            final(self).wf(),
            set_desktop_passthrough_outcome(*old(self), *final(self), enabled),
    {
        if !self.desktop.is_open() || self.desktop.pending_passthrough.is_some() || (
        self.desktop.phase == DesktopDanmakuPhase::Locked) == enabled {
            return;
        }
        self.desktop.request = self.desktop.request.wrapping_add(1);
        let request = self.desktop.request;
        self.desktop.pending_passthrough = Some((request, enabled));
        self.desktop.effects.push(
            DesktopEffect::SetPassthrough { generation: self.desktop.generation, request, enabled },
        );
    }

    /// The user wants to move or resize the window: a locked window asks to
    /// take the mouse again, a shown one is brought to the front.
    pub fn adjust_desktop(&mut self)
        requires
            old(self).wf(),
        ensures
            final(self).wf(),
            adjust_desktop_outcome(*old(self), *final(self)),
    {
        if self.desktop.phase == DesktopDanmakuPhase::Locked {
            self.set_desktop_passthrough(false);
        } else if self.desktop.phase == DesktopDanmakuPhase::Adjusting {
            self.desktop.effects.push(DesktopEffect::Focus { generation: self.desktop.generation });
        }
    }

    /// Opens the desktop window for the room shown, when a user is signed
    /// in; a shown window is adjusted instead, one being created is left so.
    pub fn open_desktop(&mut self)
        requires
            old(self).wf(),
        ensures
            final(self).wf(),
            open_desktop_outcome(*old(self), *final(self)),
    {
        if self.desktop.is_open() {
            self.adjust_desktop();
            return;
        }
        if self.desktop.phase == DesktopDanmakuPhase::Creating || !self.authenticated()
            || self.room.info.is_none() {
            return;
        }
        self.desktop.generation = self.desktop.generation.wrapping_add(1);
        self.desktop.phase = DesktopDanmakuPhase::Creating;
        self.desktop.error = None;
        self.desktop.effects.push(DesktopEffect::Open { generation: self.desktop.generation });
        self.revisions.desktop = bump(self.revisions.desktop);
    }

    /// Closes the desktop window and stops the danmaku connection; the feed
    /// keeps its messages.
    pub fn close_desktop<C: CredentialStore>(&mut self, core: &mut AppState<C>)
        requires
            old(self).wf(),
        ensures
            final(self).wf(),
            close_desktop_outcome(*old(self), *final(self), *old(core), *final(core)),
    {
        if self.desktop.phase != DesktopDanmakuPhase::Closed {
            self.desktop.effects.push(DesktopEffect::Close { generation: self.desktop.generation });
        }
        self.desktop.phase = DesktopDanmakuPhase::Closed;
        self.desktop.pending_passthrough = None;
        self.desktop.error = None;
        self.stop_danmaku(core);
        self.revisions.desktop = bump(self.revisions.desktop);
    }

    /// The host shows window `generation`. Only the window being created is
    /// taken, and then the feed follows the newest message and connects; a
    /// window no longer wanted is closed again.
    pub fn desktop_opened<C: CredentialStore>(&mut self, core: &mut AppState<C>, generation: u64)
        requires
            old(self).wf(),
        ensures
            final(self).wf(),
            desktop_opened_outcome(*old(self), *final(self), *old(core), *final(core), generation),
    {
        if generation != self.desktop.generation || self.desktop.phase
            != DesktopDanmakuPhase::Creating {
            if generation != self.desktop.generation || self.desktop.phase
                == DesktopDanmakuPhase::Closed {
                self.desktop.effects.push(DesktopEffect::Close { generation });
            }
            return;
        }
        self.desktop.phase = DesktopDanmakuPhase::Adjusting;
        self.follow_latest();
        self.start_danmaku(core);
        self.revisions.desktop = bump(self.revisions.desktop);
    }

    /// The host could not show window `generation`; taken only for the
    /// window being created.
    pub fn desktop_open_failed(&mut self, generation: u64)
        requires
            old(self).wf(),
        ensures
            final(self).wf(),
            desktop_open_failed_outcome(*old(self), *final(self), generation),
    {
        if generation != self.desktop.generation || self.desktop.phase
            != DesktopDanmakuPhase::Creating {
            return;
        }
        self.desktop.phase = DesktopDanmakuPhase::Closed;
        self.desktop.error = Some(String::from_str("弹幕窗口暂时无法打开，请重试。"));
        self.revisions.desktop = bump(self.revisions.desktop);
    }

    /// The window `generation` was closed by the host or the user; taken
    /// only for the latest window, whose connection stops.
    pub fn desktop_closed<C: CredentialStore>(&mut self, core: &mut AppState<C>, generation: u64)
        requires
            old(self).wf(),
        ensures
            final(self).wf(),
            desktop_closed_outcome(*old(self), *final(self), *old(core), *final(core), generation),
    {
        if generation != self.desktop.generation {
            return;
        }
        self.desktop.phase = DesktopDanmakuPhase::Closed;
        self.desktop.pending_passthrough = None;
        self.stop_danmaku(core);
        self.revisions.desktop = bump(self.revisions.desktop);
    }

    /// The host answers pass-through request `request` of window
    /// `generation`. Only the answer awaited, for the window shown, is
    /// taken: on success the phase changes (locking follows the newest
    /// message, unlocking brings the window to the front); on failure an
    /// error is shown and the phase stays.
    pub fn desktop_passthrough_result(
        &mut self,
        generation: u64,
        request: u64,
        enabled: bool,
        success: bool,
    )
        requires
            old(self).wf(),
        ensures
            final(self).wf(),
            desktop_passthrough_result_outcome(*old(self), *final(self), generation, request, enabled, success),
    {
        let awaited = match self.desktop.pending_passthrough {
            Some((r, e)) => r == request && e == enabled,
            None => false,
        };
        if generation != self.desktop.generation || !awaited || !self.desktop.is_open() {
            return;
        }
        self.desktop.pending_passthrough = None;
        if success {
            self.desktop.error = None;
            self.desktop.phase = if enabled {
                DesktopDanmakuPhase::Locked
            } else {
                DesktopDanmakuPhase::Adjusting
            };
            if enabled {
                self.follow_latest();
            } else {
                self.desktop.effects.push(DesktopEffect::Focus { generation });
            }
        } else {
            self.desktop.error = Some(
                String::from_str(
                    if enabled {
                        "暂时无法锁定弹幕，请重试。"
                    } else {
                        "暂时无法调整弹幕，请重试或关闭后重新打开。"
                    },
                ),
            );
        }
        self.revisions.desktop = bump(self.revisions.desktop);
    }
}

/// The number a lookup asks for: the room shown when refreshing, else what
/// the user typed, without surrounding spaces.
pub open spec fn lookup_text(s: Session, refresh: bool) -> Seq<char> {
    if refresh {
        match s.room.info {
            Some(info) => decimal_text(info.room_id as nat),
            None => Seq::empty(),
        }
    } else {
        trimmed(s.room.input@)
    }
}

/// The last effect of `b` is a lookup of `raw` for the current room request,
/// added to those of `a`.
pub open spec fn queued_lookup(a: Session, b: Session, refresh: bool, raw: Seq<char>) -> bool {
    &&& b.effects@.len() == a.effects@.len() + 1
    &&& forall|i: int| 0 <= i < a.effects@.len() ==> b.effects@[i] == a.effects@[i]
    &&& match b.effects@.last() {
        Effect::QueryRoom { request, refresh: r, room_id } => request == b.room.request.revision
            && r == refresh && room_id@ == raw,
        _ => false,
    }
}

/// The refresh time after a lookup, when a room is shown.
pub open spec fn refresh_after(info: Option<RoomInfo>, next: Option<u64>, now: u64) -> Option<u64> {
    if info is Some {
        Some(after(now, ROOM_REFRESH_MS))
    } else {
        next
    }
}

impl Session {
    fn schedule_refresh(&mut self, now: u64)
        ensures
            final(self).room.next_refresh == refresh_after(
                old(self).room.info,
                old(self).room.next_refresh,
                now,
            ),
            final(self).room.info == old(self).room.info,
            final(self).room.input == old(self).room.input,
            final(self).room.remembered == old(self).room.remembered,
            final(self).room.editing == old(self).room.editing,
            final(self).room.request == old(self).room.request,
            final(self).room.failures == old(self).room.failures,
            final(self).page == old(self).page,
            final(self).auth == old(self).auth,
            final(self).danmaku == old(self).danmaku,
            final(self).desktop == old(self).desktop,
            final(self).stats == old(self).stats,
            final(self).revisions == old(self).revisions,
            final(self).storage_error == old(self).storage_error,
            final(self).resources == old(self).resources,
            final(self).storage_revision == old(self).storage_revision,
            final(self).effects == old(self).effects,
    {
        if self.room.info.is_some() {
            self.room.next_refresh = Some(deadline(now, ROOM_REFRESH_MS));
        }
    }

    /// Looks up the room the user typed, or refreshes the room shown. Only
    /// a signed-in user looks rooms up, and a refresh waits for a lookup in
    /// progress. A number that is not a positive decimal is refused at
    /// once, without ending the refreshes of the room shown.
    pub fn query_room(&mut self, refresh: bool, now: u64)
        requires
            old(self).wf(),
        ensures
            final(self).wf(),
            query_room_outcome(*old(self), *final(self), refresh, now),
    {
        if !self.authenticated() {
            return;
        }
        if refresh && self.room.loading() {
            return;
        }
        let raw = if refresh {
            match &self.room.info {
                Some(info) => u64_to_decimal(info.room_id),
                None => String::new(),
            }
        } else {
            trim(self.room.input.as_str())
        };
        let valid = match parse_u64(raw.as_str()) {
            Some(n) => n > 0,
            None => false,
        };
        if !valid {
            self.room.request.cancel();
            self.effects.push(Effect::AbortRoom);
            self.schedule_refresh(now);
            self.room.request.state = Operation::Failed(String::from_str("请输入有效的直播间号。"));
            self.revisions.room = bump(self.revisions.room);
            return;
        }
        self.room.next_refresh = None;
        let request = self.room.request.begin();
        self.revisions.room = bump(self.revisions.room);
        self.effects.push(Effect::QueryRoom { request, refresh, room_id: raw });
    }

    /// Takes a room lookup's snapshot into the statistics, unless one of
    /// that room at that time is there; the statistics are redrawn when it
    /// is taken.
    pub fn record_snapshot(&mut self, info: &RoomInfo)
        ensures
            ({
                let fresh = !exists|i: int|
                    0 <= i < old(self).stats.snapshots@.len() && old(self).stats.snapshots@[i].room_id
                        == info.room_id && old(self).stats.snapshots@[i].captured_at == info.fetched_at;
                &&& fresh ==> (exists|x: Snapshot|
                    snapshot_of(x, *info) && final(self).stats.snapshots@ == retained(
                        old(self).stats.snapshots@.push(x),
                    )) && final(self).revisions.stats == old(self).revisions.stats.wrapping_add(1)
                &&& !fresh ==> final(self).stats.snapshots@ == old(self).stats.snapshots@
                    && final(self).revisions.stats == old(self).revisions.stats
            }),
            final(self).stats.selected_room == old(self).stats.selected_room,
            final(self).stats.tab == old(self).stats.tab,
            final(self).stats.confirm_clear == old(self).stats.confirm_clear,
            final(self).page == old(self).page,
            final(self).auth == old(self).auth,
            final(self).room == old(self).room,
            final(self).danmaku == old(self).danmaku,
            final(self).desktop == old(self).desktop,
            final(self).storage_error == old(self).storage_error,
            final(self).resources == old(self).resources,
            final(self).storage_revision == old(self).storage_revision,
            final(self).effects == old(self).effects,
            final(self).revisions.shell == old(self).revisions.shell,
            final(self).revisions.room == old(self).revisions.room,
            final(self).revisions.messages == old(self).revisions.messages,
            final(self).revisions.overlay == old(self).revisions.overlay,
            final(self).revisions.desktop == old(self).revisions.desktop,
    {
        if self.stats.record(info) {
            self.revisions.stats = bump(self.revisions.stats);
        }
    }
}

impl Session {
    /// Takes the answer to room lookup `id`, if it is the one awaited and a
    /// user is still signed in. A room found becomes the room shown (a
    /// different room ends the old connection and empties the feed, and
    /// connects when the window is shown); a failure keeps the room shown
    /// and, when there is one, retries later, waiting longer after each
    /// failure in a row.
    pub fn on_room_loaded<C: CredentialStore>(
        &mut self,
        core: &mut AppState<C>,
        id: u64,
        refresh: bool,
        result: Result<RoomInfo, AppError>,
        now: u64,
    )
        requires
            old(self).wf(),
        ensures
            final(self).wf(),
            on_room_loaded_outcome(*old(self), *final(self), *old(core), *final(core), id, refresh, result, now),
    {
        if !self.room.request.finish(id) {
            return;
        }
        if !self.authenticated() {
            return;
        }
        proof {
            lemma_slot_names_differ();
        }
        match result {
            Ok(info) => {
                let changed = match &self.room.info {
                    Some(shown) => shown.room_id != info.room_id,
                    None => true,
                };
                if changed {
                    self.stop_danmaku(core);
                    self.danmaku.clear();
                }
                self.room.remembered = u64_to_decimal(info.room_id);
                if !refresh {
                    self.room.input = self.room.remembered.clone();
                    self.room.editing = false;
                }
                if self.stats.selected_room.is_none() || changed {
                    self.stats.selected_room = Some(info.room_id);
                }
                self.record_snapshot(&info);
                let avatar = copy_text(&info.owner_avatar_url);
                let cover = copy_text(&info.cover_url);
                self.room.info = Some(info);
                self.room.failures = 0;
                self.schedule_refresh(now);
                self.request_image(ROOM_AVATAR, text_ref(&avatar));
                self.request_image(ROOM_COVER, text_ref(&cover));
                if changed && self.desktop.is_open() {
                    self.start_danmaku(core);
                }
                self.persist(false);
            },
            Err(error) => {
                self.room.request.state = Operation::Failed(error.message);
                if self.room.info.is_some() {
                    let delay = backoff_ms(self.room.failures);
                    self.room.failures = self.room.failures.saturating_add(1);
                    self.room.next_refresh = Some(deadline(now, delay));
                }
            },
        }
        self.revisions.room = bump(self.revisions.room);
        self.revisions.stats = bump(self.revisions.stats);
    }

    /// Leaves the room shown: the window closes, the connection stops, the
    /// feed empties and the room is forgotten until looked up again.
    pub fn disconnect_room<C: CredentialStore>(&mut self, core: &mut AppState<C>)
        requires
            old(self).wf(),
        ensures
            final(self).wf(),
            disconnect_room_outcome(*old(self), *final(self), *old(core), *final(core)),
    {
        proof {
            lemma_slot_names_differ();
        }
        self.close_desktop(core);
        self.room.request.cancel();
        self.effects.push(Effect::AbortRoom);
        self.room.next_refresh = None;
        self.room.info = None;
        self.room.editing = false;
        self.stop_danmaku(core);
        self.danmaku.clear();
        self.clear_image(ROOM_AVATAR);
        self.clear_image(ROOM_COVER);
        self.revisions.room = bump(self.revisions.room);
        self.revisions.messages = bump(self.revisions.messages);
        self.persist(false);
    }
}

/// The last effect of `b` is `e`, added to those of `a`.
pub open spec fn effect_added(a: Session, b: Session, e: Effect) -> bool {
    b.effects@ == a.effects@.push(e)
}

/// Nobody is signed in any more and the room, the window and the
/// connection are gone.
pub open spec fn signed_out(s: Session) -> bool {
    &&& s.auth.account is None
    &&& !s.auth.open
    &&& !s.auth.restored
    &&& s.room.info is None
    &&& s.desktop.phase == DesktopDanmakuPhase::Closed
    &&& s.danmaku.status == stopped_status(None)
}

impl Session {
    /// Drops the QR login in progress, and asks the commands to forget it.
    pub fn cancel_qr<C: CredentialStore>(&mut self, core: &mut AppState<C>)
        requires
            old(self).wf(),
        ensures
            final(self).wf(),
            crate::commands::invalidated(old(core).auth, final(core).auth),
            final(core).credentials == old(core).credentials,
            final(core).danmaku == old(core).danmaku,
            final(self).auth.request.revision == old(self).auth.request.revision.wrapping_add(1),
            final(self).auth.request.state is Idle,
            final(self).auth.qr is None,
            final(self).auth.phase == QrPhase::Idle,
            final(self).auth.next_poll is None,
            final(self).auth.open == old(self).auth.open,
            final(self).auth.account == old(self).auth.account,
            final(self).auth.restored == old(self).auth.restored,
            effect_added(*old(self), *final(self), Effect::AbortAuth),
            final(self).page == old(self).page,
            final(self).room == old(self).room,
            final(self).danmaku == old(self).danmaku,
            final(self).desktop == old(self).desktop,
            final(self).stats == old(self).stats,
            final(self).revisions == old(self).revisions,
            final(self).resources == old(self).resources,
            final(self).storage_error == old(self).storage_error,
            final(self).storage_revision == old(self).storage_revision,
    {
        self.auth.request.cancel();
        self.effects.push(Effect::AbortAuth);
        match auth_qr_cancel(core) {
            Ok(()) => {},
            Err(e) => {
                self.auth.request.state = Operation::Failed(e.message);
            },
        }
        self.auth.qr = None;
        self.auth.phase = QrPhase::Idle;
        self.auth.next_poll = None;
    }

    /// Asks for the account status.
    pub fn load_account(&mut self)
        ensures
            final(self).auth.request.revision == old(self).auth.request.revision.wrapping_add(1),
            final(self).auth.request.state is Loading,
            effect_added(
                *old(self),
                *final(self),
                Effect::LoadAccount { request: final(self).auth.request.revision },
            ),
            final(self).revisions == (Revisions {
                shell: old(self).revisions.shell.wrapping_add(1),
                ..old(self).revisions
            }),
            final(self).room == old(self).room,
            final(self).danmaku == old(self).danmaku,
            final(self).desktop == old(self).desktop,
            final(self).resources == old(self).resources,
            final(self).auth.account == old(self).auth.account,
            final(self).auth.open == old(self).auth.open,
    {
        let request = self.auth.request.begin();
        self.revisions.shell = bump(self.revisions.shell);
        self.effects.push(Effect::LoadAccount { request });
    }

    /// Opens the login dialog with a new QR login in place of any other.
    pub fn start_qr<C: CredentialStore>(&mut self, core: &mut AppState<C>)
        requires
            old(self).wf(),
        ensures
            final(self).wf(),
            start_qr_outcome(*old(self), *final(self), *old(core), *final(core)),
    {
        self.cancel_qr(core);
        self.auth.open = true;
        let request = self.auth.request.begin();
        self.revisions.overlay = bump(self.revisions.overlay);
        self.effects.push(Effect::StartQr { request });
    }

    /// Polls the QR login shown, when the dialog is open and no request is
    /// in progress.
    pub fn poll_qr(&mut self)
        ensures
            !(old(self).auth.open && !(old(self).auth.request.state is Loading) && old(self).auth.qr is Some) ==> *final(self) == *old(self),
            old(self).auth.open && !(old(self).auth.request.state is Loading) && old(self).auth.qr is Some ==> {
                &&& final(self).auth.request.revision == old(self).auth.request.revision.wrapping_add(1)
                &&& final(self).auth.request.state is Loading
                &&& final(self).effects@.len() == old(self).effects@.len() + 1
                &&& forall|i: int|
                    0 <= i < old(self).effects@.len() ==> final(self).effects@[i] == old(self).effects@[i]
                &&& final(self).effects@.last() matches Effect::PollQr { request, session_id }
                &&& final(self).effects@.last()->PollQr_request == final(self).auth.request.revision
                &&& final(self).effects@.last()->PollQr_session_id@ == old(self).auth.qr->0.session_id@
                &&& final(self).auth.qr == old(self).auth.qr
                &&& final(self).auth.open == old(self).auth.open
                &&& final(self).auth.account == old(self).auth.account
                &&& final(self).auth.next_poll == old(self).auth.next_poll
                &&& final(self).auth.phase == old(self).auth.phase
                &&& final(self).auth.restored == old(self).auth.restored
                &&& final(self).room == old(self).room
                &&& final(self).danmaku == old(self).danmaku
                &&& final(self).desktop == old(self).desktop
                &&& final(self).resources == old(self).resources
                &&& final(self).revisions == old(self).revisions
            },
    {
        if !self.auth.open || self.auth.loading() {
            return;
        }
        let session_id = match &self.auth.qr {
            Some(qr) => qr.session_id.clone(),
            None => {
                return;
            },
        };
        let request = self.auth.request.begin();
        self.effects.push(Effect::PollQr { request, session_id });
    }

    /// After a login: looks up the room remembered from last time, once.
    pub fn restore_room(&mut self, now: u64)
        requires
            old(self).wf(),
        ensures
            final(self).wf(),
            final(self).auth.account == old(self).auth.account,
            final(self).auth.open == old(self).auth.open,
            final(self).auth.qr == old(self).auth.qr,
            final(self).auth.request == old(self).auth.request,
            final(self).auth.restored == (old(self).auth.restored || old(self).signed_in()),
            final(self).auth.phase == old(self).auth.phase,
            final(self).auth.next_poll == old(self).auth.next_poll,
            final(self).danmaku == old(self).danmaku,
            final(self).desktop == old(self).desktop,
            final(self).room.info == old(self).room.info,
            final(self).stats == old(self).stats,
            final(self).resources == old(self).resources,
            !old(self).signed_in() || old(self).auth.restored ==> *final(self) == *old(self),
            old(self).signed_in() && !old(self).auth.restored && old(self).room.remembered@.len()
                > 0 ==> final(self).room.input@ == old(self).room.remembered@ && (valid_room_text(
                trimmed(old(self).room.remembered@),
            ) ==> final(self).room.request.state is Loading && queued_lookup(
                *old(self),
                *final(self),
                false,
                trimmed(old(self).room.remembered@),
            )),
    {
        if self.authenticated() && !self.auth.restored {
            self.auth.restored = true;
            if self.room.remembered.as_str().unicode_len() != 0 {
                self.room.input = self.room.remembered.clone();
                self.query_room(false, now);
            }
        }
    }
}

/// The avatar of the account a status names.
pub open spec fn avatar_of(status: AccountStatus) -> Option<Seq<char>> {
    match status.account {
        Some(a) => text_view(a.avatar_url),
        None => None,
    }
}

fn avatar_url(status: &AccountStatus) -> (r: Option<String>)
    ensures
        text_view(r) == avatar_of(*status),
{
    match &status.account {
        Some(a) => copy_text(&a.avatar_url),
        None => None,
    }
}

impl Session {
    /// Signs out. When the credential is forgotten the account, the room,
    /// the window and the connection go; otherwise the error is shown.
    pub fn logout<C: CredentialStore>(&mut self, core: &mut AppState<C>)
        requires
            old(self).wf(),
        ensures
            final(self).wf(),
            logout_outcome(*old(self), *final(self), *old(core), *final(core)),
    {
        proof {
            lemma_slot_names_differ();
        }
        self.cancel_qr(core);
        match auth_logout(core) {
            Ok(()) => {
                self.auth.account = None;
                self.auth.open = false;
                self.auth.restored = false;
                self.clear_image(ACCOUNT_AVATAR);
                let ghost cleared = core.credentials;
                self.disconnect_room(core);
                assert(core.credentials == cleared);
            },
            Err(error) => {
                self.auth.request.state = Operation::Failed(error.message);
            },
        }
        self.revisions.shell = bump(self.revisions.shell);
        self.revisions.overlay = bump(self.revisions.overlay);
        self.revisions.room = bump(self.revisions.room);
    }

    /// Takes the answer to account request `id`, if it is the one awaited:
    /// a status shows the account and looks up the remembered room.
    pub fn on_auth_status(&mut self, id: u64, result: Result<AccountStatus, AppError>, now: u64)
        requires
            old(self).wf(),
        ensures
            final(self).wf(),
            on_auth_status_outcome(*old(self), *final(self), id, result, now),
    {
        if !self.auth.request.finish(id) {
            return;
        }
        match result {
            Ok(status) => {
                let avatar = avatar_url(&status);
                self.auth.account = Some(status);
                self.request_image(ACCOUNT_AVATAR, text_ref(&avatar));
                self.restore_room(now);
            },
            Err(error) => {
                self.auth.request.state = Operation::Failed(error.message);
            },
        }
        self.revisions.shell = bump(self.revisions.shell);
        self.revisions.room = bump(self.revisions.room);
    }

    /// Takes the answer to QR request `id`, if it is the one awaited and
    /// the dialog is still open: the code is shown and polled, or the
    /// failure shown.
    pub fn on_qr_started(&mut self, id: u64, result: Result<QrStartResponse, AppError>, now: u64)
        requires
            old(self).wf(),
        ensures
            final(self).wf(),
            on_qr_started_outcome(*old(self), *final(self), id, result, now),
    {
        if !self.auth.request.finish(id) || !self.auth.open {
            return;
        }
        match result {
            Ok(qr) => {
                self.auth.qr = Some(qr);
                self.auth.phase = QrPhase::Pending;
                self.auth.next_poll = Some(deadline(now, QR_POLL_MS));
            },
            Err(error) => {
                self.auth.phase = QrPhase::Failed;
                self.auth.request.state = Operation::Failed(error.message);
            },
        }
        self.revisions.overlay = bump(self.revisions.overlay);
    }

    /// Takes the answer to QR poll `id`, if it is the one awaited and the
    /// dialog is still open. Waiting and scanned codes are polled again; an
    /// expired code is dropped; a login shows the account, closes the
    /// dialog and looks up the remembered room; a failure stops polling.
    pub fn on_qr_polled<C: CredentialStore>(
        &mut self,
        core: &mut AppState<C>,
        id: u64,
        result: Result<AuthPollResponse, AppError>,
        now: u64,
    )
        requires
            old(self).wf(),
        ensures
            final(self).wf(),
            on_qr_polled_outcome(*old(self), *final(self), *old(core), *final(core), id, result, now),
    {
        if !self.auth.request.finish(id) || !self.auth.open {
            return;
        }
        match result {
            Ok(AuthPollResponse::Pending) => {
                self.auth.phase = QrPhase::Pending;
                self.auth.next_poll = Some(deadline(now, QR_POLL_MS));
            },
            Ok(AuthPollResponse::Scanned) => {
                self.auth.phase = QrPhase::Scanned;
                self.auth.next_poll = Some(deadline(now, QR_POLL_MS));
            },
            Ok(AuthPollResponse::Expired) => {
                self.auth.qr = None;
                self.auth.phase = QrPhase::Expired;
                self.auth.next_poll = None;
            },
            Ok(AuthPollResponse::Success { account }) => {
                let avatar = copy_text(&account.avatar_url);
                self.auth.account = Some(AccountStatus { authenticated: true, account: Some(account) });
                self.auth.open = false;
                self.cancel_qr(core);
                self.request_image(ACCOUNT_AVATAR, text_ref(&avatar));
                self.restore_room(now);
                self.revisions.shell = bump(self.revisions.shell);
                self.revisions.room = bump(self.revisions.room);
            },
            Err(error) => {
                self.auth.phase = if error.code == ErrorCode::QrExpired {
                    QrPhase::Expired
                } else {
                    QrPhase::Failed
                };
                self.auth.next_poll = None;
                self.auth.request.state = Operation::Failed(error.message);
            },
        }
        self.revisions.overlay = bump(self.revisions.overlay);
    }
}

impl Session {
    /// Shows `page`; a pending request to clear a history is dropped.
    pub fn navigate(&mut self, page: Page)
        ensures
            navigate_outcome(*old(self), *final(self), page),
    {
        self.page = page;
        self.stats.confirm_clear = None;
        self.revisions.shell = bump(self.revisions.shell);
        self.revisions.overlay = bump(self.revisions.overlay);
    }

    /// Opens the login dialog, starting a QR login unless one is shown or
    /// being started.
    pub fn open_login<C: CredentialStore>(&mut self, core: &mut AppState<C>)
        requires
            old(self).wf(),
        ensures
            final(self).wf(),
            open_login_outcome(*old(self), *final(self), *old(core), *final(core)),
    {
        self.auth.open = true;
        if self.auth.qr.is_none() && !self.auth.loading() {
            self.start_qr(core);
        }
        self.revisions.overlay = bump(self.revisions.overlay);
    }

    /// Closes the login dialog; the QR login in progress is dropped.
    pub fn close_login<C: CredentialStore>(&mut self, core: &mut AppState<C>)
        requires
            old(self).wf(),
        ensures
            final(self).wf(),
            close_login_outcome(*old(self), *final(self), *old(core), *final(core)),
    {
        self.auth.open = false;
        self.cancel_qr(core);
        self.revisions.overlay = bump(self.revisions.overlay);
    }

    /// Starts editing the room number, from the room shown or else the one
    /// remembered.
    pub fn edit_room(&mut self)
        ensures
            edit_room_outcome(*old(self), *final(self)),
    {
        self.room.editing = true;
        self.room.input = match &self.room.info {
            Some(info) => u64_to_decimal(info.room_id),
            None => self.room.remembered.clone(),
        };
        self.revisions.room = bump(self.revisions.room);
    }

    /// Stops editing the room number; a lookup in progress is dropped and
    /// the room shown is refreshed again later.
    pub fn cancel_edit_room(&mut self, now: u64)
        ensures
            cancel_edit_room_outcome(*old(self), *final(self), now),
    {
        self.room.editing = false;
        self.room.request.cancel();
        self.effects.push(Effect::AbortRoom);
        self.schedule_refresh(now);
        self.revisions.room = bump(self.revisions.room);
    }

    /// The user typed `value` as the room number; an error shown for the
    /// previous number goes away, unless a lookup is in progress.
    pub fn room_id_changed(&mut self, value: String)
        ensures
            room_id_changed_outcome(*old(self), *final(self), value),
    {
        self.room.input = value;
        if !self.room.loading() {
            if self.room.error().is_some() {
                self.revisions.room = bump(self.revisions.room);
            }
            self.room.request.state = Operation::Idle;
        }
    }

    /// Clears the history the user confirmed, and saves.
    pub fn clear_stats(&mut self)
        ensures
            clear_stats_outcome(*old(self), *final(self)),
    {
        if self.stats.clear_confirmed() {
            self.persist(false);
        }
        self.revisions.stats = bump(self.revisions.stats);
        self.revisions.overlay = bump(self.revisions.overlay);
    }

    /// The host saved revision `revision` of the stored state; the answer
    /// to the latest save decides the storage error shown.
    pub fn stored(&mut self, revision: u64, result: Result<(), String>)
        ensures
            stored_outcome(*old(self), *final(self), revision, result),
    {
        if revision != self.storage_revision {
            return;
        }
        let error = match result {
            Ok(()) => None,
            Err(e) => Some(e),
        };
        if !same_text(&self.storage_error, &error) {
            self.revisions.shell = bump(self.revisions.shell);
        }
        self.storage_error = error;
    }

    /// A loaded image (or a failure, `None`) for request `revision` of
    /// `slot`; taken only when it answers the slot's current request.
    pub fn image_loaded(&mut self, slot: String, revision: u64, image: Option<DecodedImage>)
        requires
            old(self).wf(),
        ensures
            final(self).wf(),
            image_loaded_outcome(*old(self), *final(self), slot, revision, image),
    {
        if self.resources.complete(slot.as_str(), revision, image) {
            self.revisions.room = bump(self.revisions.room);
            self.revisions.shell = bump(self.revisions.shell);
        }
    }

    /// Runs what is due at `now`: a QR poll, a room refresh. Each timer is
    /// used up when it fires; a timer not yet due stays.
    pub fn advance(&mut self, now: u64)
        requires
            old(self).wf(),
        ensures
            final(self).wf(),
            advance_outcome(*old(self), *final(self), now),
    {
        let poll_due = match self.auth.next_poll {
            Some(t) => t <= now,
            None => false,
        };
        if poll_due {
            self.auth.next_poll = None;
            self.poll_qr();
        }
        let refresh_due = match self.room.next_refresh {
            Some(t) => t <= now,
            None => false,
        };
        if refresh_due {
            self.room.next_refresh = None;
            self.query_room(true, now);
        }
    }
}

/// Whether timer `t` is due at `now`.
pub open spec fn due(t: Option<u64>, now: u64) -> bool {
    t matches Some(x) && x <= now
}

/// What `advance` does at `now`, from `a` to `b`: a due QR poll is sent
/// when the dialog is open with a code and no request runs; a due refresh
/// looks the room shown up again when a user is signed in and no lookup
/// runs; a timer not due is kept, and without anything due nothing changes.
pub open spec fn advance_outcome(a: Session, b: Session, now: u64) -> bool {
    let poll = due(a.auth.next_poll, now);
    let refresh = due(a.room.next_refresh, now);
    &&& poll ==> b.auth.next_poll is None
    &&& !poll ==> b.auth == a.auth
    &&& poll && a.auth.open && !(a.auth.request.state is Loading) && a.auth.qr is Some ==> {
        &&& b.auth.request.revision == a.auth.request.revision.wrapping_add(1)
        &&& b.auth.request.state is Loading
        &&& b.effects@.len() > a.effects@.len()
        &&& b.effects@[a.effects@.len() as int] matches Effect::PollQr { request, session_id }
        &&& b.effects@[a.effects@.len() as int]->PollQr_request == b.auth.request.revision
        &&& b.effects@[a.effects@.len() as int]->PollQr_session_id@ == a.auth.qr->0.session_id@
    }
    &&& !refresh ==> b.room == a.room
    &&& refresh ==> b.room.next_refresh is None || b.room.next_refresh == refresh_after(
        a.room.info,
        None,
        now,
    )
    &&& refresh && a.signed_in() && !(a.room.request.state is Loading) ==> {
        let raw = lookup_text(a, true);
        &&& b.room.request.revision == a.room.request.revision.wrapping_add(1)
        &&& valid_room_text(raw) ==> b.room.request.state is Loading && b.room.next_refresh is None
            && match b.effects@.last() {
            Effect::QueryRoom { request, refresh: r, room_id } => request == b.room.request.revision
                && r && room_id@ == raw,
            _ => false,
        }
    }
    &&& !poll && !refresh ==> b == a
    &&& b.auth.account == a.auth.account
    &&& b.room.info == a.room.info
    &&& b.danmaku == a.danmaku
    &&& b.desktop == a.desktop
}

// ------------------------------------------------------------ outcomes

/// Whether `snapshots` holds a sample of room `room` taken at `at`.
pub open spec fn has_sample(snapshots: Seq<Snapshot>, room: u64, at: u64) -> bool {
    exists|i: int|
        0 <= i < snapshots.len() && #[trigger] snapshots[i].room_id == room && snapshots[i].captured_at
            == at
}

/// `after` is the history `before` once the room record `info` is taken:
/// a sample of it added and the history trimmed, unless one of that room at
/// that time is there already.
pub open spec fn room_snapshot_taken(before: Seq<Snapshot>, after: Seq<Snapshot>, info: RoomInfo) -> bool {
    &&& !has_sample(before, info.room_id, info.fetched_at) ==> exists|x: Snapshot|
        snapshot_of(x, info) && after == retained(before.push(x))
    &&& has_sample(before, info.room_id, info.fetched_at) ==> after == before
}

/// Whether signing in at `s` looks the remembered room up: it was not since
/// the last login, and a room number is remembered.
pub open spec fn restores(s: Session) -> bool {
    &&& !s.auth.restored
    &&& s.room.remembered@.len() > 0
    &&& valid_room_text(trimmed(s.room.remembered@))
}

/// `b` looks up the room remembered in `a`: the lookup runs and is the last
/// work asked of the host.
pub open spec fn remembered_room_queued(a: Session, b: Session) -> bool {
    &&& b.room.input@ == a.room.remembered@
    &&& b.room.request.state is Loading
    &&& b.effects@.len() > 0
    &&& match b.effects@.last() {
        Effect::QueryRoom { request, refresh, room_id } => request == b.room.request.revision
            && !refresh && room_id@ == trimmed(a.room.remembered@),
        _ => false,
    }
}

/// What `Session::navigate` does, from `pre` to `post`.
pub open spec fn navigate_outcome(pre: Session, post: Session, page: Page) -> bool {
    &&& (post.page == page)
    &&& (post.stats.confirm_clear is None)
    &&& (post.stats.snapshots == pre.stats.snapshots)
    &&& (post.auth == pre.auth)
    &&& (post.room == pre.room)
    &&& (post.danmaku == pre.danmaku)
    &&& (post.desktop == pre.desktop)
    &&& (post.resources == pre.resources)
    &&& (post.effects == pre.effects)
}

/// What `Session::open_login` does, from `pre` to `post`.
pub open spec fn open_login_outcome<C: CredentialStore>(
    pre: Session,
    post: Session,
    core_pre: AppState<C>,
    core_post: AppState<C>,
) -> bool {
    &&& (post.auth.open)
    &&& (pre.auth.qr is None && !(pre.auth.request.state is Loading) ==> post.auth.request.state is Loading && post.effects@.last() matches Effect::StartQr { .. })
    &&& (!(pre.auth.qr is None && !(pre.auth.request.state is Loading)) ==> post.auth.qr == pre.auth.qr && post.auth.request == pre.auth.request
            && core_post == core_pre)
    &&& (post.auth.account == pre.auth.account)
    &&& (post.room == pre.room)
    &&& (post.danmaku == pre.danmaku)
    &&& (post.desktop == pre.desktop)
    &&& (connection_agrees(pre, core_pre) ==> connection_agrees(post, core_post))
}

/// What `Session::close_login` does, from `pre` to `post`.
pub open spec fn close_login_outcome<C: CredentialStore>(
    pre: Session,
    post: Session,
    core_pre: AppState<C>,
    core_post: AppState<C>,
) -> bool {
    &&& (!post.auth.open)
    &&& (post.auth.qr is None)
    &&& (post.auth.next_poll is None)
    &&& (post.auth.phase == QrPhase::Idle)
    &&& (!(post.auth.request.state is Loading))
    &&& (post.auth.request.revision == pre.auth.request.revision.wrapping_add(1))
    &&& (post.auth.account == pre.auth.account)
    &&& (post.room == pre.room)
    &&& (post.danmaku == pre.danmaku)
    &&& (post.desktop == pre.desktop)
    &&& (connection_agrees(pre, core_pre) ==> connection_agrees(post, core_post))
}

/// What `Session::start_qr` does, from `pre` to `post`.
pub open spec fn start_qr_outcome<C: CredentialStore>(
    pre: Session,
    post: Session,
    core_pre: AppState<C>,
    core_post: AppState<C>,
) -> bool {
    &&& (post.auth.open)
    &&& (post.auth.qr is None)
    &&& (post.auth.phase == QrPhase::Idle)
    &&& (post.auth.request.state is Loading)
    &&& (post.auth.request.revision == pre.auth.request.revision.wrapping_add(
            1,
        ).wrapping_add(1))
    &&& (post.effects@ == pre.effects@.push(Effect::AbortAuth).push(
            Effect::StartQr { request: post.auth.request.revision },
        ))
    &&& (post.auth.account == pre.auth.account)
    &&& (post.room == pre.room)
    &&& (post.danmaku == pre.danmaku)
    &&& (post.desktop == pre.desktop)
    &&& (post.resources == pre.resources)
    &&& (crate::commands::invalidated(core_pre.auth, core_post.auth))
    &&& (core_post.credentials == core_pre.credentials)
    &&& (core_post.danmaku == core_pre.danmaku)
    &&& (connection_agrees(pre, core_pre) ==> connection_agrees(post, core_post))
}

/// What `Session::logout` does, from `pre` to `post`.
pub open spec fn logout_outcome<C: CredentialStore>(
    pre: Session,
    post: Session,
    core_pre: AppState<C>,
    core_post: AppState<C>,
) -> bool {
    &&& (core_post.auth.generation_spec() == core_pre.auth.generation_spec().wrapping_add(
            1,
        ).wrapping_add(1))
    &&& (forall|id: Seq<char>| core_post.auth.session(id) is None)
    &&& (post.auth.qr is None)
    &&& (post.desktop.phase == DesktopDanmakuPhase::Closed || post.desktop
            == pre.desktop)
    &&& (post.danmaku.status.connection_id is None || (post.danmaku == pre.danmaku
            && post.desktop == pre.desktop))
    &&& (post.auth.request.revision == pre.auth.request.revision.wrapping_add(1))
    &&& (!(post.auth.request.state is Loading))
    &&& (post.auth.phase == QrPhase::Idle)
    &&& (post.auth.next_poll is None)
    &&& (core_pre.credentials.reliable() ==> signed_out(post))
    &&& {
        ||| {
            &&& signed_out(post)
            &&& core_post.danmaku.active_id() is None
            &&& core_pre.credentials.modeled() ==> core_post.credentials.stored() is None
            &&& post.resources.slot(ACCOUNT_AVATAR@) == crate::resources::requested(
                pre.resources.slot(ACCOUNT_AVATAR@),
                None,
            )
            &&& post.effects@ == with_disconnect(
                pre.effects@.push(Effect::AbortAuth),
                pre.danmaku.status.connection_id,
            ).push(Effect::AbortRoom).push(
                Effect::Persist { revision: post.storage_revision, recover: false },
            )
        }
        ||| {
            &&& post.auth.request.state matches Operation::Failed(m)
            &&& post.auth.request.state->Failed_0@ == "登录状态暂时无法访问，请稍后重试。"@
            &&& post.auth.account == pre.auth.account
            &&& post.room.info == pre.room.info
            &&& post.effects@ == pre.effects@.push(Effect::AbortAuth)
            &&& core_post.danmaku == core_pre.danmaku
        }
    }
    &&& (connection_agrees(pre, core_pre) ==> connection_agrees(post, core_post))
}

/// What `Session::edit_room` does, from `pre` to `post`.
pub open spec fn edit_room_outcome(pre: Session, post: Session) -> bool {
    &&& (post.room.editing)
    &&& (post.room.input@ == (match pre.room.info {
            Some(info) => decimal_text(info.room_id as nat),
            None => pre.room.remembered@,
        }))
    &&& (post.room.info == pre.room.info)
    &&& (post.room.request == pre.room.request)
    &&& (post.auth == pre.auth)
    &&& (post.danmaku == pre.danmaku)
    &&& (post.desktop == pre.desktop)
    &&& (post.resources == pre.resources)
    &&& (post.effects == pre.effects)
}

/// What `Session::cancel_edit_room` does, from `pre` to `post`.
pub open spec fn cancel_edit_room_outcome(pre: Session, post: Session, now: u64) -> bool {
    &&& (!post.room.editing)
    &&& (post.room.request.revision == pre.room.request.revision.wrapping_add(1))
    &&& (post.room.request.state is Idle)
    &&& (post.room.info == pre.room.info)
    &&& (post.room.next_refresh == refresh_after(
            pre.room.info,
            pre.room.next_refresh,
            now,
        ))
    &&& (effect_added(pre, post, Effect::AbortRoom))
    &&& (post.auth == pre.auth)
    &&& (post.danmaku == pre.danmaku)
    &&& (post.desktop == pre.desktop)
    &&& (post.resources == pre.resources)
}

/// What `Session::room_id_changed` does, from `pre` to `post`.
pub open spec fn room_id_changed_outcome(pre: Session, post: Session, value: String) -> bool {
    &&& (post.room.input == value)
    &&& (pre.room.request.state is Loading ==> post.room.request == pre.room.request)
    &&& (!(pre.room.request.state is Loading) ==> post.room.request.state is Idle
            && post.room.request.revision == pre.room.request.revision)
    &&& (post.room.info == pre.room.info)
    &&& (post.auth == pre.auth)
    &&& (post.danmaku == pre.danmaku)
    &&& (post.desktop == pre.desktop)
    &&& (post.resources == pre.resources)
    &&& (post.effects == pre.effects)
}

/// What `Session::query_room` does, from `pre` to `post`.
pub open spec fn query_room_outcome(pre: Session, post: Session, refresh: bool, now: u64) -> bool {
    &&& (!pre.signed_in() || (refresh && pre.room.request.state is Loading) ==> post
            == pre)
    &&& (pre.signed_in() && !(refresh && pre.room.request.state is Loading) ==> {
            let raw = lookup_text(pre, refresh);
            &&& post.room.request.revision == pre.room.request.revision.wrapping_add(1)
            &&& post.revisions == (Revisions {
                room: pre.revisions.room.wrapping_add(1),
                ..pre.revisions
            })
            &&& post.room.info == pre.room.info
            &&& post.room.input == pre.room.input
            &&& post.auth == pre.auth
            &&& post.danmaku == pre.danmaku
            &&& post.desktop == pre.desktop
            &&& post.stats == pre.stats
            &&& post.resources == pre.resources
            &&& valid_room_text(raw) ==> {
                &&& post.room.request.state is Loading
                &&& post.room.next_refresh is None
                &&& queued_lookup(pre, post, refresh, raw)
            }
            &&& !valid_room_text(raw) ==> {
                &&& post.room.request.state matches Operation::Failed(e)
                &&& post.room.request.state->Failed_0@ == "请输入有效的直播间号。"@
                &&& post.room.next_refresh == refresh_after(
                    pre.room.info,
                    pre.room.next_refresh,
                    now,
                )
                &&& post.effects@ == pre.effects@.push(Effect::AbortRoom)
            }
        })
}

/// What `Session::disconnect_room` does, from `pre` to `post`.
pub open spec fn disconnect_room_outcome<C: CredentialStore>(
    pre: Session,
    post: Session,
    core_pre: AppState<C>,
    core_post: AppState<C>,
) -> bool {
    &&& (core_post.auth == core_pre.auth)
    &&& (core_post.credentials == core_pre.credentials)
    &&& (post.room.info is None)
    &&& (post.room.next_refresh is None)
    &&& (!post.room.editing)
    &&& (post.room.request.revision == pre.room.request.revision.wrapping_add(1))
    &&& (post.room.request.state is Idle)
    &&& (post.room.input == pre.room.input)
    &&& (post.room.remembered == pre.room.remembered)
    &&& (post.desktop.phase == DesktopDanmakuPhase::Closed)
    &&& (post.desktop.generation == pre.desktop.generation)
    &&& (post.danmaku.status == stopped_status(None))
    &&& (post.danmaku.messages@.len() == 0)
    &&& (post.auth == pre.auth)
    &&& (post.stats == pre.stats)
    &&& (post.page == pre.page)
    &&& (core_pre.danmaku.active_id() is None ==> core_post.danmaku.active_id() is None)
    &&& (post.resources.slot(ROOM_AVATAR@) == crate::resources::requested(
        pre.resources.slot(ROOM_AVATAR@),
        None,
    ))
    &&& (post.resources.slot(ROOM_COVER@) == crate::resources::requested(
        pre.resources.slot(ROOM_COVER@),
        None,
    ))
    &&& (forall|other: Seq<char>|
        other != ROOM_AVATAR@ && other != ROOM_COVER@ ==> post.resources.slot(other)
            == pre.resources.slot(other))
    &&& (post.storage_revision == pre.storage_revision.wrapping_add(1))
    &&& (post.effects@.last() == (Effect::Persist { revision: post.storage_revision, recover: false }))
    &&& (connection_agrees(pre, core_pre) ==> connection_agrees(post, core_post))
    &&& (post.effects@ == with_disconnect(pre.effects@, pre.danmaku.status.connection_id).push(
        Effect::AbortRoom,
    ).push(Effect::Persist { revision: post.storage_revision, recover: false }))
    &&& (connection_stopped(pre, post, core_pre, core_post))
}

/// What `Session::open_desktop` does, from `pre` to `post`.
pub open spec fn open_desktop_outcome(pre: Session, post: Session) -> bool {
    &&& (same_but_window(pre, post))
    &&& (pre.desktop.open_spec() ==> adjust_desktop_outcome(pre, post))
    &&& (!pre.desktop.open_spec() && (pre.desktop.phase
            == DesktopDanmakuPhase::Creating || !pre.signed_in() || pre.room.info is None) ==> post == pre)
    &&& (!pre.desktop.open_spec() && pre.desktop.phase
            != DesktopDanmakuPhase::Creating && pre.signed_in() && pre.room.info is Some ==> {
            &&& post.desktop.generation == pre.desktop.generation.wrapping_add(1)
            &&& post.desktop.phase == DesktopDanmakuPhase::Creating
            &&& post.desktop.error is None
            &&& post.desktop.request == pre.desktop.request
            &&& post.desktop.pending_passthrough == pre.desktop.pending_passthrough
            &&& window_work_added(
                pre,
                post,
                DesktopEffect::Open { generation: post.desktop.generation },
            )
            &&& post.revisions == (Revisions {
                desktop: pre.revisions.desktop.wrapping_add(1),
                ..pre.revisions
            })
        })
}

/// What `Session::close_desktop` does, from `pre` to `post`.
pub open spec fn close_desktop_outcome<C: CredentialStore>(
    pre: Session,
    post: Session,
    core_pre: AppState<C>,
    core_post: AppState<C>,
) -> bool {
    &&& (same_but_feed_status(pre, post))
    &&& (post.desktop.phase == DesktopDanmakuPhase::Closed)
    &&& (post.desktop.generation == pre.desktop.generation)
    &&& (post.desktop.request == pre.desktop.request)
    &&& (post.desktop.pending_passthrough is None)
    &&& (post.desktop.error is None)
    &&& (post.desktop.effects@ == (if pre.desktop.phase
            != DesktopDanmakuPhase::Closed {
            pre.desktop.effects@.push(
                DesktopEffect::Close { generation: pre.desktop.generation },
            )
        } else {
            pre.desktop.effects@
        }))
    &&& (post.danmaku.status == stopped_status(pre.shown_room()))
    &&& (core_post.auth == core_pre.auth)
    &&& (core_post.credentials == core_pre.credentials)
    &&& (core_pre.danmaku.active_id() is None ==> core_post.danmaku.active_id() is None)
    &&& (connection_agrees(pre, core_pre) ==> connection_agrees(post, core_post))
    &&& (post.effects@ == with_disconnect(pre.effects@, pre.danmaku.status.connection_id))
    &&& (connection_stopped(pre, post, core_pre, core_post))
}

/// What `Session::adjust_desktop` does, from `pre` to `post`.
pub open spec fn adjust_desktop_outcome(pre: Session, post: Session) -> bool {
    &&& (same_but_window(pre, post))
    &&& (post.revisions == pre.revisions)
    &&& (post.desktop.phase == pre.desktop.phase)
    &&& (post.desktop.generation == pre.desktop.generation)
    &&& (pre.desktop.phase == DesktopDanmakuPhase::Adjusting ==> window_work_added(
            pre,
            post,
            DesktopEffect::Focus { generation: pre.desktop.generation },
        ) && post.desktop.pending_passthrough == pre.desktop.pending_passthrough)
    &&& (pre.desktop.phase == DesktopDanmakuPhase::Locked && pre.desktop.pending_passthrough is None ==> post.desktop.pending_passthrough == Some(
            (post.desktop.request, false),
        ))
    &&& (pre.desktop.phase == DesktopDanmakuPhase::Closed || pre.desktop.phase
            == DesktopDanmakuPhase::Creating ==> post == pre)
}

/// What `Session::set_desktop_passthrough` does, from `pre` to `post`.
pub open spec fn set_desktop_passthrough_outcome(
    pre: Session,
    post: Session,
    enabled: bool,
) -> bool {
    &&& (same_but_window(pre, post))
    &&& (post.revisions == pre.revisions)
    &&& (post.desktop.phase == pre.desktop.phase)
    &&& (post.desktop.generation == pre.desktop.generation)
    &&& (post.desktop.error == pre.desktop.error)
    &&& (({
            let asked = pre.desktop.open_spec() && pre.desktop.pending_passthrough
                is None && (pre.desktop.phase == DesktopDanmakuPhase::Locked) != enabled;
            &&& asked ==> post.desktop.request == pre.desktop.request.wrapping_add(1)
                && post.desktop.pending_passthrough == Some((post.desktop.request, enabled))
                && window_work_added(pre, post, DesktopEffect::SetPassthrough {
                    generation: pre.desktop.generation,
                    request: post.desktop.request,
                    enabled,
                })
            &&& !asked ==> post == pre
        }))
}

/// What `Session::desktop_opened` does, from `pre` to `post`.
pub open spec fn desktop_opened_outcome<C: CredentialStore>(
    pre: Session,
    post: Session,
    core_pre: AppState<C>,
    core_post: AppState<C>,
    generation: u64,
) -> bool {
    &&& (core_post.auth == core_pre.auth)
    &&& (core_post.credentials == core_pre.credentials)
    &&& (generation == pre.desktop.generation && pre.desktop.phase
            == DesktopDanmakuPhase::Creating ==> {
            &&& post.desktop.phase == DesktopDanmakuPhase::Adjusting
            &&& post.desktop.generation == generation
            &&& post.desktop.effects == pre.desktop.effects
            &&& post.desktop.pending_passthrough == pre.desktop.pending_passthrough
            &&& post.danmaku.following
            &&& post.danmaku.unread == 0
            &&& post.danmaku.messages == pre.danmaku.messages
            &&& post.danmaku.next_id == pre.danmaku.next_id
            &&& post.desktop.request == pre.desktop.request
            &&& post.desktop.error == pre.desktop.error
            &&& post.auth == pre.auth
            &&& post.room == pre.room
            &&& post.stats == pre.stats
            &&& post.resources == pre.resources
            &&& post.page == pre.page
            &&& pre.signed_in() && pre.danmaku.status.connection_id is None
                && pre.room.info is Some && pre.room.info->0.room_id != 0 ==> {
                &&& post.effects@.len() == pre.effects@.len() + 1
                &&& forall|i: int|
                    0 <= i < pre.effects@.len() ==> post.effects@[i] == pre.effects@[i]
                &&& match post.effects@.last() {
                    Effect::Connect { connection } => {
                        &&& connection.room_id == pre.room.info->0.room_id
                        &&& core_post.danmaku.active_id() == Some(connection.connection_id@)
                        &&& post.danmaku.status == DanmakuStatus {
                            connection_id: Some(connection.connection_id),
                            room_id: Some(connection.room_id),
                            state: DanmakuConnectionState::Connecting,
                            message: None,
                        }
                    },
                    _ => false,
                }
            }
            &&& !(pre.signed_in() && pre.danmaku.status.connection_id is None
                && pre.room.info is Some) ==> post.danmaku.status == pre.danmaku.status && post.effects == pre.effects && core_post
                == core_pre
        })
    &&& (!(generation == pre.desktop.generation && pre.desktop.phase
            == DesktopDanmakuPhase::Creating) ==> {
            &&& same_but_window(pre, post)
            &&& post.revisions == pre.revisions
            &&& post.desktop.phase == pre.desktop.phase
            &&& post.desktop.generation == pre.desktop.generation
            &&& post.desktop.pending_passthrough == pre.desktop.pending_passthrough
            &&& post.desktop.effects@ == (if generation != pre.desktop.generation
                || pre.desktop.phase == DesktopDanmakuPhase::Closed {
                pre.desktop.effects@.push(DesktopEffect::Close { generation })
            } else {
                pre.desktop.effects@
            })
            &&& core_post == core_pre
        })
    &&& (connection_agrees(pre, core_pre) ==> connection_agrees(post, core_post))
}

/// What `Session::desktop_open_failed` does, from `pre` to `post`.
pub open spec fn desktop_open_failed_outcome(pre: Session, post: Session, generation: u64) -> bool {
    &&& (generation == pre.desktop.generation && pre.desktop.phase
            == DesktopDanmakuPhase::Creating ==> same_but_window(pre, post)
            && post.desktop.phase == DesktopDanmakuPhase::Closed && (post.desktop.error matches Some(e) && e@ == "弹幕窗口暂时无法打开，请重试。"@))
    &&& (!(generation == pre.desktop.generation && pre.desktop.phase
            == DesktopDanmakuPhase::Creating) ==> post == pre)
}

/// What `Session::desktop_closed` does, from `pre` to `post`.
pub open spec fn desktop_closed_outcome<C: CredentialStore>(
    pre: Session,
    post: Session,
    core_pre: AppState<C>,
    core_post: AppState<C>,
    generation: u64,
) -> bool {
    &&& (generation == pre.desktop.generation ==> post.desktop.phase
            == DesktopDanmakuPhase::Closed && post.desktop.pending_passthrough is None
            && post.danmaku.status == stopped_status(pre.shown_room())
            && same_but_feed_status(pre, post))
    &&& (generation != pre.desktop.generation ==> post == pre && core_post
            == core_pre)
    &&& (core_post.auth == core_pre.auth)
    &&& (core_post.credentials == core_pre.credentials)
    &&& (connection_agrees(pre, core_pre) ==> connection_agrees(post, core_post))
    &&& (generation == pre.desktop.generation ==> post.effects@ == with_disconnect(
        pre.effects@,
        pre.danmaku.status.connection_id,
    ) && connection_stopped(pre, post, core_pre, core_post))
}

/// What `Session::desktop_passthrough_result` does, from `pre` to `post`.
pub open spec fn desktop_passthrough_result_outcome(
    pre: Session,
    post: Session,
    generation: u64,
    request: u64,
    enabled: bool,
    success: bool,
) -> bool {
    &&& (({
            let awaited = generation == pre.desktop.generation && pre.desktop.pending_passthrough == Some((request, enabled)) && pre.desktop.open_spec();
            &&& !awaited ==> post == pre
            &&& awaited ==> post.desktop.pending_passthrough is None
                && post.desktop.generation == generation
                && post.auth == pre.auth && post.room == pre.room
            &&& awaited && success ==> post.desktop.error is None
                && post.desktop.phase == (if enabled {
                DesktopDanmakuPhase::Locked
            } else {
                DesktopDanmakuPhase::Adjusting
            })
            &&& awaited && success && enabled ==> post.danmaku.following
            &&& awaited && success && !enabled ==> window_work_added(
                pre,
                post,
                DesktopEffect::Focus { generation },
            )
            &&& awaited && !success ==> post.desktop.phase == pre.desktop.phase
                && (post.desktop.error matches Some(e) && e@ == (if enabled {
                "暂时无法锁定弹幕，请重试。"@
            } else {
                "暂时无法调整弹幕，请重试或关闭后重新打开。"@
            }))
        }))
    &&& (post.danmaku.status == pre.danmaku.status)
}

/// What `Session::follow_latest` does, from `pre` to `post`.
pub open spec fn follow_latest_outcome(pre: Session, post: Session) -> bool {
    &&& (post.danmaku.following)
    &&& (post.danmaku.unread == 0)
    &&& (post.danmaku.messages == pre.danmaku.messages)
    &&& (post.danmaku.status == pre.danmaku.status)
    &&& (post.danmaku.next_id == pre.danmaku.next_id)
    &&& (post.revisions == (Revisions {
            messages: pre.revisions.messages.wrapping_add(1),
            ..pre.revisions
        }))
    &&& (post.page == pre.page)
    &&& (post.auth == pre.auth)
    &&& (post.room == pre.room)
    &&& (post.desktop == pre.desktop)
    &&& (post.stats == pre.stats)
    &&& (post.storage_error == pre.storage_error)
    &&& (post.resources == pre.resources)
    &&& (post.storage_revision == pre.storage_revision)
    &&& (post.effects == pre.effects)
}

/// What `Session::reading` does, from `pre` to `post`.
pub open spec fn reading_outcome(pre: Session, post: Session, following: bool) -> bool {
    &&& (pre.desktop.phase == DesktopDanmakuPhase::Locked ==> post == pre)
    &&& (post.desktop == pre.desktop)
    &&& (post.danmaku.status == pre.danmaku.status)
    &&& (pre.desktop.phase != DesktopDanmakuPhase::Locked ==> post.danmaku.following
            == following && post.danmaku.unread == (if following {
            0
        } else {
            pre.danmaku.unread
        }) && post.danmaku.messages == pre.danmaku.messages
            && post.revisions == (Revisions {
            messages: pre.revisions.messages.wrapping_add(1),
            ..pre.revisions
        }))
}

/// What `Session::clear_stats` does, from `pre` to `post`.
pub open spec fn clear_stats_outcome(pre: Session, post: Session) -> bool {
    &&& (post.stats.confirm_clear is None)
    &&& (post.stats.snapshots@ == (match pre.stats.confirm_clear {
            Some(room) => pre.stats.snapshots@.filter(|x: Snapshot| x.room_id != room),
            None => pre.stats.snapshots@,
        }))
    &&& (pre.stats.confirm_clear is Some ==> post.effects@.len() == pre.effects@.len() + 1 && post.effects@.last() matches Effect::Persist { .. })
    &&& (pre.stats.confirm_clear is None ==> post.effects == pre.effects)
    &&& (post.auth == pre.auth)
    &&& (post.room == pre.room)
    &&& (post.danmaku == pre.danmaku)
    &&& (post.desktop == pre.desktop)
    &&& (post.resources == pre.resources)
}

/// What `Session::persist` does, from `pre` to `post`.
pub open spec fn persist_outcome(pre: Session, post: Session, recover: bool) -> bool {
    &&& (post.storage_revision == pre.storage_revision.wrapping_add(1))
    &&& (post.effects@ == pre.effects@.push(
            Effect::Persist { revision: post.storage_revision, recover },
        ))
    &&& (post.page == pre.page)
    &&& (post.auth == pre.auth)
    &&& (post.room == pre.room)
    &&& (post.danmaku == pre.danmaku)
    &&& (post.desktop == pre.desktop)
    &&& (post.stats == pre.stats)
    &&& (post.revisions == pre.revisions)
    &&& (post.storage_error == pre.storage_error)
    &&& (post.resources == pre.resources)
}

/// What `Session::on_auth_status` does, from `pre` to `post`.
pub open spec fn on_auth_status_outcome(
    pre: Session,
    post: Session,
    id: u64,
    result: Result<AccountStatus, AppError>,
    now: u64,
) -> bool {
    &&& (!(id == pre.auth.request.revision && pre.auth.request.state is Loading) ==> post
            == pre)
    &&& (post.danmaku == pre.danmaku)
    &&& (id == pre.auth.request.revision && pre.auth.request.state is Loading ==> {
            &&& post.auth.open == pre.auth.open
            &&& post.auth.qr == pre.auth.qr
            &&& post.room.info == pre.room.info
            &&& post.desktop == pre.desktop
            &&& match result {
                Ok(status) => post.auth.account == Some(status)
                    && post.auth.request.state is Idle
                    && post.resources.slot(ACCOUNT_AVATAR@) == crate::resources::requested(
                    pre.resources.slot(ACCOUNT_AVATAR@),
                    avatar_of(status),
                ) && post.auth.restored == (pre.auth.restored || signed_in(Some(status)))
                    && (signed_in(Some(status)) && restores(pre) ==> remembered_room_queued(pre, post)),
                Err(e) => post.auth.account == pre.auth.account
                    && (post.auth.request.state matches Operation::Failed(m) && m@
                    == e.message@),
            }
        })
}

/// What `Session::on_qr_started` does, from `pre` to `post`.
pub open spec fn on_qr_started_outcome(
    pre: Session,
    post: Session,
    id: u64,
    result: Result<QrStartResponse, AppError>,
    now: u64,
) -> bool {
    &&& (!(id == pre.auth.request.revision && pre.auth.request.state is Loading) ==> post
            == pre)
    &&& (id == pre.auth.request.revision && pre.auth.request.state is Loading
            && !pre.auth.open ==> post.auth.request.state is Idle
            && post.auth.qr == pre.auth.qr && post.auth.phase == pre.auth.phase && post.auth.next_poll == pre.auth.next_poll)
    &&& (id == pre.auth.request.revision && pre.auth.request.state is Loading
            && pre.auth.open ==> post.auth.open && post.auth.account == pre.auth.account && match result {
            Ok(qr) => post.auth.qr == Some(qr) && post.auth.phase
                == QrPhase::Pending && post.auth.next_poll == Some(after(now, QR_POLL_MS))
                && post.auth.request.state is Idle,
            Err(e) => post.auth.phase == QrPhase::Failed && (post.auth.request.state matches Operation::Failed(m) && m@ == e.message@)
                && post.auth.qr == pre.auth.qr,
        })
    &&& (post.room == pre.room)
    &&& (post.danmaku == pre.danmaku)
    &&& (post.desktop == pre.desktop)
    &&& (post.effects == pre.effects)
}

/// What `Session::on_qr_polled` does, from `pre` to `post`.
pub open spec fn on_qr_polled_outcome<C: CredentialStore>(
    pre: Session,
    post: Session,
    core_pre: AppState<C>,
    core_post: AppState<C>,
    id: u64,
    result: Result<AuthPollResponse, AppError>,
    now: u64,
) -> bool {
    &&& (core_post.credentials == core_pre.credentials)
    &&& (core_post.danmaku == core_pre.danmaku)
    &&& (post.desktop == pre.desktop)
    &&& (post.danmaku == pre.danmaku)
    &&& (!(id == pre.auth.request.revision && pre.auth.request.state is Loading) ==> post
            == pre && core_post == core_pre)
    &&& (id == pre.auth.request.revision && pre.auth.request.state is Loading
            && !pre.auth.open ==> post.auth.request.state is Idle
            && post.auth.qr == pre.auth.qr && post.auth.account == pre.auth.account && core_post == core_pre)
    &&& (id == pre.auth.request.revision && pre.auth.request.state is Loading
            && pre.auth.open ==> match result {
            Ok(AuthPollResponse::Pending) => post.auth.phase == QrPhase::Pending
                && post.auth.request.state is Idle && post.auth.request.revision == pre.auth.request.revision
                && post.auth.next_poll == Some(after(now, QR_POLL_MS))
                && post.auth.qr == pre.auth.qr && post.auth.open,
            Ok(AuthPollResponse::Scanned) => post.auth.phase == QrPhase::Scanned
                && post.auth.request.state is Idle && post.auth.request.revision == pre.auth.request.revision
                && post.auth.next_poll == Some(after(now, QR_POLL_MS))
                && post.auth.qr == pre.auth.qr && post.auth.open,
            Ok(AuthPollResponse::Expired) => post.auth.phase == QrPhase::Expired
                && post.auth.next_poll is None && post.auth.qr is None
                && post.auth.open,
            Ok(AuthPollResponse::Success { account }) => post.auth.account == Some(
                AccountStatus { authenticated: true, account: Some(account) },
            ) && !post.auth.open && post.auth.qr is None
                && post.auth.next_poll is None && post.auth.phase == QrPhase::Idle
                && post.auth.restored && (restores(pre) ==> remembered_room_queued(pre, post)),
            Err(e) => post.auth.phase == (if e.code == ErrorCode::QrExpired {
                QrPhase::Expired
            } else {
                QrPhase::Failed
            }) && post.auth.next_poll is None && (post.auth.request.state matches Operation::Failed(m) && m@ == e.message@),
        })
    &&& (connection_agrees(pre, core_pre) ==> connection_agrees(post, core_post))
}

/// What `Session::on_room_loaded` does, from `pre` to `post`.
pub open spec fn on_room_loaded_outcome<C: CredentialStore>(
    pre: Session,
    post: Session,
    core_pre: AppState<C>,
    core_post: AppState<C>,
    id: u64,
    refresh: bool,
    result: Result<RoomInfo, AppError>,
    now: u64,
) -> bool {
    &&& (core_post.auth == core_pre.auth)
    &&& (core_post.credentials == core_pre.credentials)
    &&& (post.desktop == pre.desktop)
    &&& (connection_in_window(pre) ==> connection_in_window(post))
    &&& (!(id == pre.room.request.revision && pre.room.request.state is Loading) ==> post
            == pre && core_post == core_pre)
    &&& (id == pre.room.request.revision && pre.room.request.state is Loading ==> {
            &&& post.room.request.revision == pre.room.request.revision
            &&& post.auth == pre.auth
            &&& !pre.signed_in() ==> post.room.request.state is Idle
                && post.room.info == pre.room.info
                && post.room.next_refresh == pre.room.next_refresh
                && post.danmaku == pre.danmaku
            &&& pre.signed_in() ==> match result {
                Ok(info) => {
                    let changed = pre.shown_room() != Some(info.room_id);
                    &&& post.room.info == Some(info)
                    &&& post.room.request.state is Idle
                    &&& post.room.remembered@ == decimal_text(info.room_id as nat)
                    &&& !refresh ==> post.room.input@ == decimal_text(info.room_id as nat)
                        && !post.room.editing
                    &&& refresh ==> post.room.input == pre.room.input
                        && post.room.editing == pre.room.editing
                    &&& post.room.failures == 0
                    &&& post.room.next_refresh == Some(after(now, ROOM_REFRESH_MS))
                    &&& post.stats.selected_room == (if changed || pre.stats.selected_room is None {
                        Some(info.room_id)
                    } else {
                        pre.stats.selected_room
                    })
                    &&& changed ==> post.danmaku.messages@.len() == 0
                    &&& changed && !pre.desktop.open_spec() ==> post.danmaku.status
                        == stopped_status(pre.shown_room())
                    &&& changed && pre.desktop.open_spec() && info.room_id != 0 ==> post.danmaku.status.room_id == Some(info.room_id) && post.danmaku.status.state == DanmakuConnectionState::Connecting && post.danmaku.status.connection_id is Some
                    &&& !changed ==> post.danmaku == pre.danmaku
                    &&& room_snapshot_taken(pre.stats.snapshots@, post.stats.snapshots@, info)
                    &&& post.resources.slot(ROOM_AVATAR@) == crate::resources::requested(
                        pre.resources.slot(ROOM_AVATAR@),
                        text_view(info.owner_avatar_url),
                    )
                    &&& post.resources.slot(ROOM_COVER@) == crate::resources::requested(
                        pre.resources.slot(ROOM_COVER@),
                        text_view(info.cover_url),
                    )
                    &&& post.storage_revision == pre.storage_revision.wrapping_add(1)
                    &&& post.effects@.last() == (Effect::Persist {
                        revision: post.storage_revision,
                        recover: false,
                    })
                },
                Err(e) => {
                    &&& post.room.info == pre.room.info
                    &&& post.room.request.state matches Operation::Failed(m)
                    &&& post.room.request.state->Failed_0@ == e.message@
                    &&& post.danmaku == pre.danmaku
                    &&& post.desktop == pre.desktop
                    &&& post.stats == pre.stats
                    &&& pre.room.info is Some ==> post.room.next_refresh == Some(
                        after(now, refresh_backoff_ms(pre.room.failures)),
                    ) && post.room.failures == pre.room.failures.saturating_add(1)
                    &&& pre.room.info is None ==> post.room.next_refresh == pre.room.next_refresh && post.room.failures == pre.room.failures
                },
            }
        })
    &&& (connection_agrees(pre, core_pre) ==> connection_agrees(post, core_post))
}

/// What `Session::on_danmaku_status` does, from `pre` to `post`.
pub open spec fn on_danmaku_status_outcome(
    pre: Session,
    post: Session,
    status: DanmakuStatus,
) -> bool {
    &&& (({
            let taken = status.connection_id is Some && text_view(status.connection_id)
                == text_view(pre.danmaku.status.connection_id) && status.room_id == pre.shown_room();
            &&& taken ==> post.danmaku.status == status && post.revisions == (
            Revisions { messages: pre.revisions.messages.wrapping_add(1), ..pre.revisions })
                && post.effects == pre.effects && same_but_feed_status(pre, post)
                && post.desktop == pre.desktop
            &&& !taken ==> post == pre
        }))
}

/// What `Session::on_danmaku_message` does, from `pre` to `post`.
pub open spec fn on_danmaku_message_outcome(
    pre: Session,
    post: Session,
    message: DanmakuMessage,
) -> bool {
    &&& (({
            let taken = text_view(pre.danmaku.status.connection_id) == Some(
                message.connection_id@,
            ) && pre.shown_room() == Some(message.room_id) && pre.danmaku.next_id
                < u64::MAX;
            &&& post.desktop == pre.desktop
            &&& taken ==> post.danmaku.next_id == pre.danmaku.next_id + 1
                && post.danmaku.messages@ == crate::feed::pushed_rows(
                pre.danmaku.messages@,
                MessageRow { id: post.danmaku.next_id, message },
            ) && post.danmaku.status == pre.danmaku.status
                && post.danmaku.following == pre.danmaku.following
                && post.danmaku.unread == (if pre.danmaku.following {
                pre.danmaku.unread
            } else {
                (pre.danmaku.unread + 1) as u64
            }) && same_but_feed(pre, post)
                && post.revisions == (Revisions {
                messages: pre.revisions.messages.wrapping_add(1),
                ..pre.revisions
            })
            &&& !taken ==> post == pre
        }))
}

/// What `Session::image_loaded` does, from `pre` to `post`.
pub open spec fn image_loaded_outcome(
    pre: Session,
    post: Session,
    slot: String,
    revision: u64,
    image: Option<DecodedImage>,
) -> bool {
    &&& (({
            let taken = pre.resources.slot(slot@).revision == revision && pre.resources.slot(slot@).loading;
            &&& taken ==> post.resources.slot(slot@).ready == image is Some
                && !post.resources.slot(slot@).loading
            &&& !taken ==> post.resources.slot(slot@) == pre.resources.slot(slot@)
                && post.revisions == pre.revisions
            &&& post.resources.pending@ == (if taken && image is Some {
                pre.resources.pending@.push(ImageChange::Upload(image->0))
            } else {
                pre.resources.pending@
            })
        }))
    &&& (forall|other: Seq<char>|
            other != slot@ ==> post.resources.slot(other) == pre.resources.slot(other))
    &&& (post.auth == pre.auth)
    &&& (post.room == pre.room)
    &&& (post.danmaku == pre.danmaku)
    &&& (post.desktop == pre.desktop)
    &&& (post.effects == pre.effects)
}

/// What `Session::stored` does, from `pre` to `post`.
pub open spec fn stored_outcome(
    pre: Session,
    post: Session,
    revision: u64,
    result: Result<(), String>,
) -> bool {
    &&& (revision == pre.storage_revision ==> post.storage_error == (match result {
            Ok(()) => None,
            Err(e) => Some(e),
        }))
    &&& (revision != pre.storage_revision ==> post == pre)
    &&& (post.auth == pre.auth)
    &&& (post.room == pre.room)
    &&& (post.danmaku == pre.danmaku)
    &&& (post.desktop == pre.desktop)
    &&& (post.resources == pre.resources)
    &&& (post.effects == pre.effects)
    &&& (post.storage_revision == pre.storage_revision)
}

/// `b` is `a` with at most the statistics page and the revisions changed.
pub open spec fn same_but_stats(a: Session, b: Session) -> bool {
    &&& b.page == a.page
    &&& b.auth == a.auth
    &&& b.room == a.room
    &&& b.danmaku == a.danmaku
    &&& b.desktop == a.desktop
    &&& b.storage_error == a.storage_error
    &&& b.resources == a.resources
    &&& b.storage_revision == a.storage_revision
    &&& b.effects == a.effects
}

/// Whether `event` is an answer or report the session drops in state `s`:
/// one for a request since replaced, a window no longer current, or a
/// connection other than the live one to the room shown.
pub open spec fn dropped(s: Session, event: AppEvent) -> bool {
    match event {
        AppEvent::AuthStatus(id, _) => !(id == s.auth.request.revision
            && s.auth.request.state is Loading),
        AppEvent::QrStarted(id, _) => !(id == s.auth.request.revision
            && s.auth.request.state is Loading),
        AppEvent::QrPolled(id, _) => !(id == s.auth.request.revision
            && s.auth.request.state is Loading),
        AppEvent::RoomLoaded { request, .. } => !(request == s.room.request.revision
            && s.room.request.state is Loading),
        AppEvent::DesktopOpenFailed { generation } => !(generation == s.desktop.generation
            && s.desktop.phase == DesktopDanmakuPhase::Creating),
        AppEvent::DesktopClosed { generation } => generation != s.desktop.generation,
        AppEvent::DesktopPassthroughResult { generation, request, enabled, .. } => !(generation
            == s.desktop.generation && s.desktop.pending_passthrough == Some((request, enabled))
            && s.desktop.open_spec()),
        AppEvent::DanmakuStatus(status) => !(status.connection_id is Some && text_view(
            status.connection_id,
        ) == text_view(s.danmaku.status.connection_id) && status.room_id == s.shown_room()),
        AppEvent::DanmakuMessage(m) => !(text_view(s.danmaku.status.connection_id) == Some(
            m.connection_id@,
        ) && s.shown_room() == Some(m.room_id) && s.danmaku.next_id < u64::MAX),
        AppEvent::Stored { revision, .. } => revision != s.storage_revision,
        _ => false,
    }
}

/// Law: once the login dialog is closed or the user logs out, the answer to
/// the login request that was running (account status, QR start or QR poll)
/// is dropped.
pub proof fn lemma_closed_login_drops_answers<C: CredentialStore>(
    a: Session,
    b: Session,
    core_a: AppState<C>,
    core_b: AppState<C>,
    event: AppEvent,
)
    requires
        close_login_outcome(a, b, core_a, core_b) || logout_outcome(a, b, core_a, core_b),
        (event matches AppEvent::AuthStatus(id, _) && id == a.auth.request.revision) || (
        event matches AppEvent::QrStarted(id, _) && id == a.auth.request.revision) || (
        event matches AppEvent::QrPolled(id, _) && id == a.auth.request.revision),
    ensures
        dropped(b, event),
{
}

/// Law: once the room is left or its editing cancelled, the answer to the
/// lookup that was running is dropped.
pub proof fn lemma_left_room_drops_lookup<C: CredentialStore>(
    a: Session,
    b: Session,
    core_a: AppState<C>,
    core_b: AppState<C>,
    now: u64,
    event: AppEvent,
)
    requires
        disconnect_room_outcome(a, b, core_a, core_b) || cancel_edit_room_outcome(a, b, now),
        event matches AppEvent::RoomLoaded { request, .. } && request == a.room.request.revision,
    ensures
        dropped(b, event),
{
}

/// Law: once the desktop window is closed, whatever the old connection
/// still reports (messages or status) is dropped.
pub proof fn lemma_closed_window_drops_connection_reports<C: CredentialStore>(
    a: Session,
    b: Session,
    core_a: AppState<C>,
    core_b: AppState<C>,
    event: AppEvent,
)
    requires
        close_desktop_outcome(a, b, core_a, core_b),
        event is DanmakuMessage || event is DanmakuStatus,
    ensures
        dropped(b, event),
{
}

/// Law: every room lookup a signed-in user's session takes, the automatic
/// refresh as much as a lookup the user asked for, leaves the history with
/// a sample of that room at the time of the answer; when there was none
/// before, the newest sample is exactly the one the answer describes.
pub proof fn lemma_room_answer_sampled<C: CredentialStore>(
    pre: Session,
    post: Session,
    core_pre: AppState<C>,
    core_post: AppState<C>,
    refresh: bool,
    info: RoomInfo,
    now: u64,
)
    requires
        on_room_loaded_outcome(
            pre,
            post,
            core_pre,
            core_post,
            pre.room.request.revision,
            refresh,
            Ok(info),
            now,
        ),
        pre.room.request.state is Loading,
        pre.signed_in(),
    ensures
        has_sample(post.stats.snapshots@, info.room_id, info.fetched_at),
        !has_sample(pre.stats.snapshots@, info.room_id, info.fetched_at) ==> {
            &&& post.stats.snapshots@.len() > 0
            &&& snapshot_of(post.stats.snapshots@.last(), info)
        },
{
    let before = pre.stats.snapshots@;
    let after = post.stats.snapshots@;
    if !has_sample(before, info.room_id, info.fetched_at) {
        let x = choose|x: Snapshot| snapshot_of(x, info) && after == retained(before.push(x));
        crate::stats::lemma_newest_snapshot_retained(before, x);
        assert(after[after.len() - 1].room_id == info.room_id);
    }
}

/// Law: a QR login that is waiting (not yet scanned, or scanned and not
/// yet confirmed) keeps being polled: after such an answer is taken, the
/// first advance at or after the poll interval sends a new poll for the
/// same code.
pub proof fn lemma_waiting_login_polled_again<C: CredentialStore>(
    pre: Session,
    post: Session,
    core_pre: AppState<C>,
    core_post: AppState<C>,
    answer: AuthPollResponse,
    now: u64,
    later: u64,
    next: Session,
)
    requires
        on_qr_polled_outcome(
            pre,
            post,
            core_pre,
            core_post,
            pre.auth.request.revision,
            Ok(answer),
            now,
        ),
        answer is Pending || answer is Scanned,
        pre.auth.request.state is Loading,
        pre.auth.open,
        pre.auth.qr is Some,
        after(now, QR_POLL_MS) <= later,
        advance_outcome(post, next, later),
    ensures
        next.auth.request.state is Loading,
        next.auth.request.revision == post.auth.request.revision.wrapping_add(1),
        next.effects@.len() > post.effects@.len(),
        next.effects@[post.effects@.len() as int] matches Effect::PollQr { request, session_id },
        next.effects@[post.effects@.len() as int]->PollQr_request == next.auth.request.revision,
        next.effects@[post.effects@.len() as int]->PollQr_session_id@ == pre.auth.qr->0.session_id@,
{
}

/// The danmaku connection runs only while the desktop window is shown.
pub open spec fn connection_in_window(s: Session) -> bool {
    s.danmaku.status.connection_id is Some ==> s.desktop.open_spec()
}

/// Whether `event` is the host's report that locking the window worked.
pub open spec fn lock_succeeded(event: AppEvent) -> bool {
    event matches AppEvent::DesktopPassthroughResult { enabled: true, success: true, .. }
}

impl Session {
    /// Handles `event` at time `now` (milliseconds of the host's clock).
    pub fn apply<C: CredentialStore>(&mut self, core: &mut AppState<C>, event: AppEvent, now: u64)
        requires
            old(self).wf(),
        ensures
            final(self).wf(),
            dropped(*old(self), event) ==> *final(self) == *old(self) && *final(core) == *old(core),
            final(self).desktop.phase == DesktopDanmakuPhase::Locked ==> old(self).desktop.phase
                == DesktopDanmakuPhase::Locked || lock_succeeded(event),
            connection_in_window(*old(self)) ==> connection_in_window(*final(self)),
            connection_agrees(*old(self), *old(core)) ==> connection_agrees(*final(self), *final(core)),
            event matches AppEvent::Navigate(p) ==> navigate_outcome(*old(self), *final(self), p),
            event is OpenLogin ==> open_login_outcome(*old(self), *final(self), *old(core), *final(core)),
            event is CloseLogin ==> close_login_outcome(*old(self), *final(self), *old(core), *final(core)),
            event is StartQr ==> start_qr_outcome(*old(self), *final(self), *old(core), *final(core)),
            event is Logout ==> logout_outcome(*old(self), *final(self), *old(core), *final(core)),
            event is EditRoom ==> edit_room_outcome(*old(self), *final(self)),
            event is CancelEditRoom ==> cancel_edit_room_outcome(*old(self), *final(self), now),
            event matches AppEvent::RoomIdChanged(v) ==> room_id_changed_outcome(*old(self), *final(self), v),
            event is QueryRoom ==> query_room_outcome(*old(self), *final(self), false, now),
            event is RefreshRoom ==> query_room_outcome(*old(self), *final(self), true, now),
            event is DisconnectRoom ==> disconnect_room_outcome(*old(self), *final(self), *old(core), *final(core)),
            event is OpenDesktopDanmaku ==> open_desktop_outcome(*old(self), *final(self)),
            event is CloseDesktopDanmaku ==> close_desktop_outcome(*old(self), *final(self), *old(core), *final(core)),
            event is AdjustDesktopDanmaku ==> adjust_desktop_outcome(*old(self), *final(self)),
            event is LockDesktopDanmaku ==> set_desktop_passthrough_outcome(*old(self), *final(self), true),
            event matches AppEvent::DesktopOpened { generation } ==> desktop_opened_outcome(
                *old(self),
                *final(self),
                *old(core),
                *final(core),
                generation,
            ),
            event matches AppEvent::DesktopOpenFailed { generation } ==> desktop_open_failed_outcome(
                *old(self),
                *final(self),
                generation,
            ),
            event matches AppEvent::DesktopClosed { generation } ==> desktop_closed_outcome(
                *old(self),
                *final(self),
                *old(core),
                *final(core),
                generation,
            ),
            event matches AppEvent::DesktopPassthroughResult { generation, request, enabled, success }
                ==> desktop_passthrough_result_outcome(*old(self), *final(self), generation, request, enabled, success),
            event is FollowLatest ==> follow_latest_outcome(*old(self), *final(self)),
            event matches AppEvent::Reading { following } ==> reading_outcome(*old(self), *final(self), following),
            event matches AppEvent::SelectStatsTab(t) ==> final(self).stats == (StatsState {
                tab: t,
                ..old(self).stats
            }) && same_but_stats(*old(self), *final(self)),
            event matches AppEvent::SelectHistoryRoom(r) ==> final(self).stats == (StatsState {
                selected_room: Some(r),
                confirm_clear: None,
                ..old(self).stats
            }) && same_but_stats(*old(self), *final(self)),
            event is AskClearStats ==> final(self).stats == (StatsState {
                confirm_clear: old(self).stats.selected_room,
                ..old(self).stats
            }) && same_but_stats(*old(self), *final(self)),
            event is CancelClearStats ==> final(self).stats == (StatsState {
                confirm_clear: None,
                ..old(self).stats
            }) && same_but_stats(*old(self), *final(self)),
            event is ClearStats ==> clear_stats_outcome(*old(self), *final(self)),
            event is RetryStore ==> persist_outcome(*old(self), *final(self), true),
            event matches AppEvent::AuthStatus(id, result) ==> on_auth_status_outcome(
                *old(self),
                *final(self),
                id,
                result,
                now,
            ),
            event matches AppEvent::QrStarted(id, result) ==> on_qr_started_outcome(
                *old(self),
                *final(self),
                id,
                result,
                now,
            ),
            event matches AppEvent::QrPolled(id, result) ==> on_qr_polled_outcome(
                *old(self),
                *final(self),
                *old(core),
                *final(core),
                id,
                result,
                now,
            ),
            event matches AppEvent::RoomLoaded { request, refresh, result } ==> on_room_loaded_outcome(
                *old(self),
                *final(self),
                *old(core),
                *final(core),
                request,
                refresh,
                result,
                now,
            ),
            event matches AppEvent::DanmakuStatus(status) ==> on_danmaku_status_outcome(
                *old(self),
                *final(self),
                status,
            ),
            event matches AppEvent::DanmakuMessage(message) ==> on_danmaku_message_outcome(
                *old(self),
                *final(self),
                message,
            ),
            event matches AppEvent::ImageLoaded { slot, revision, image } ==> image_loaded_outcome(
                *old(self),
                *final(self),
                slot,
                revision,
                image,
            ),
            event matches AppEvent::Stored { revision, result } ==> stored_outcome(
                *old(self),
                *final(self),
                revision,
                result,
            ),
    {
        match event {
            AppEvent::Navigate(page) => self.navigate(page),
            AppEvent::OpenLogin => self.open_login(core),
            AppEvent::CloseLogin => self.close_login(core),
            AppEvent::StartQr => self.start_qr(core),
            AppEvent::Logout => self.logout(core),
            AppEvent::EditRoom => self.edit_room(),
            AppEvent::CancelEditRoom => self.cancel_edit_room(now),
            AppEvent::RoomIdChanged(value) => self.room_id_changed(value),
            AppEvent::QueryRoom => self.query_room(false, now),
            AppEvent::RefreshRoom => self.query_room(true, now),
            AppEvent::DisconnectRoom => self.disconnect_room(core),
            AppEvent::OpenDesktopDanmaku => self.open_desktop(),
            AppEvent::CloseDesktopDanmaku => self.close_desktop(core),
            AppEvent::AdjustDesktopDanmaku => self.adjust_desktop(),
            AppEvent::LockDesktopDanmaku => self.set_desktop_passthrough(true),
            AppEvent::DesktopOpened { generation } => self.desktop_opened(core, generation),
            AppEvent::DesktopOpenFailed { generation } => self.desktop_open_failed(generation),
            AppEvent::DesktopClosed { generation } => self.desktop_closed(core, generation),
            AppEvent::DesktopPassthroughResult { generation, request, enabled, success } => {
                self.desktop_passthrough_result(generation, request, enabled, success)
            },
            AppEvent::FollowLatest => self.follow_latest(),
            AppEvent::Reading { following } => self.reading(following),
            AppEvent::SelectStatsTab(tab) => {
                self.stats.tab = tab;
                self.revisions.stats = bump(self.revisions.stats);
            },
            AppEvent::SelectHistoryRoom(room) => {
                self.stats.selected_room = Some(room);
                self.stats.confirm_clear = None;
                self.revisions.stats = bump(self.revisions.stats);
            },
            AppEvent::AskClearStats => {
                self.stats.confirm_clear = self.stats.selected_room;
                self.revisions.overlay = bump(self.revisions.overlay);
            },
            AppEvent::CancelClearStats => {
                self.stats.confirm_clear = None;
                self.revisions.overlay = bump(self.revisions.overlay);
            },
            AppEvent::ClearStats => self.clear_stats(),
            AppEvent::RetryStore => self.persist(true),
            AppEvent::AuthStatus(id, result) => self.on_auth_status(id, result, now),
            AppEvent::QrStarted(id, result) => self.on_qr_started(id, result, now),
            AppEvent::QrPolled(id, result) => self.on_qr_polled(core, id, result, now),
            AppEvent::RoomLoaded { request, refresh, result } => {
                self.on_room_loaded(core, request, refresh, result, now)
            },
            AppEvent::DanmakuStatus(status) => self.on_danmaku_status(status),
            AppEvent::DanmakuMessage(message) => self.on_danmaku_message(message),
            AppEvent::ImageLoaded { slot, revision, image } => {
                self.image_loaded(slot, revision, image)
            },
            AppEvent::Stored { revision, result } => self.stored(revision, result),
        }
    }
}

impl Session {
    /// Whether the host may take a new size and position reported by window
    /// `generation`: only of the window shown.
    pub fn accepts_geometry(&self, generation: u64) -> (r: bool)
        ensures
            r == (generation == self.desktop.generation && self.desktop.open_spec()),
    {
        generation == self.desktop.generation && self.desktop.is_open()
    }

    /// The host changed the window's settings (its font size when `font`):
    /// the window, and with a new font the feed, are redrawn, and the
    /// settings saved.
    pub fn desktop_settings_changed(&mut self, font: bool)
        ensures
            final(self).revisions.desktop == old(self).revisions.desktop.wrapping_add(1),
            final(self).revisions.messages == (if font {
                old(self).revisions.messages.wrapping_add(1)
            } else {
                old(self).revisions.messages
            }),
            final(self).storage_revision == old(self).storage_revision.wrapping_add(1),
            final(self).effects@ == old(self).effects@.push(
                Effect::Persist { revision: final(self).storage_revision, recover: false },
            ),
            final(self).auth == old(self).auth,
            final(self).room == old(self).room,
            final(self).danmaku == old(self).danmaku,
            final(self).desktop == old(self).desktop,
            final(self).stats == old(self).stats,
    {
        self.revisions.desktop = bump(self.revisions.desktop);
        if font {
            self.revisions.messages = bump(self.revisions.messages);
        }
        self.persist(false);
    }
}

} // verus!
