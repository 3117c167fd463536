//! The records that commands hand to the front end and events carry.

use vstd::prelude::*;
use crate::text::is_text;

verus! {

#[derive(Debug, Clone, PartialEq, Eq)]
pub struct AccountSummary {
    pub mid: u64,
    pub username: String,
    pub avatar_url: Option<String>,
}

#[derive(Debug, Clone, PartialEq, Eq)]
pub struct AccountStatus {
    pub authenticated: bool,
    pub account: Option<AccountSummary>,
}

#[derive(Debug, Clone, PartialEq, Eq)]
pub struct QrStartResponse {
    pub session_id: String,
    pub payload: String,
    pub expires_at: u64,
}

#[derive(Debug, Clone, PartialEq, Eq)]
pub enum AuthPollResponse {
    Pending,
    Scanned,
    Expired,
    Success { account: AccountSummary },
}

#[derive(Debug, Clone, PartialEq, Eq)]
pub struct RoomInfo {
    pub room_id: u64,
    pub owner_id: u64,
    pub owner_name: Option<String>,
    pub owner_avatar_url: Option<String>,
    pub title: String,
    pub live_status: String,
    pub viewer_count: u64,
    pub follower_count: Option<u64>,
    pub cover_url: Option<String>,
    pub fetched_at: u64,
}

#[derive(Debug, Clone, PartialEq, Eq)]
pub struct DanmakuConnection {
    pub connection_id: String,
    pub room_id: u64,
}

#[derive(Debug, Clone, Copy, PartialEq, Eq, Structural)]
pub enum DanmakuConnectionState {
    Idle,
    Connecting,
    Connected,
    Reconnecting,
    Stopped,
    Error,
}

#[derive(Debug, Clone, PartialEq, Eq)]
pub struct DanmakuStatus {
    pub connection_id: Option<String>,
    pub room_id: Option<u64>,
    pub state: DanmakuConnectionState,
    pub message: Option<String>,
}

#[derive(Debug, Clone, PartialEq, Eq)]
pub struct DanmakuMessage {
    pub connection_id: String,
    pub room_id: u64,
    pub sender_name: String,
    pub text: String,
    pub sent_at: u64,
}

/// Whether a room is broadcasting, as the front end shows it.
#[derive(Debug, Clone, Copy, PartialEq, Eq, Structural)]
pub enum LiveStatus {
    Live,
    Round,
    Offline,
    Unknown,
}

/// The broadcast state a room record's label names.
pub open spec fn live_status_named(label: Seq<char>) -> LiveStatus {
    if label == "live"@ {
        LiveStatus::Live
    } else if label == "round"@ {
        LiveStatus::Round
    } else if label == "offline"@ {
        LiveStatus::Offline
    } else {
        LiveStatus::Unknown
    }
}

/// The broadcast state of a room record.
pub fn live_status_of(label: &String) -> (r: LiveStatus)
    ensures
        r == live_status_named(label@),
{
    if is_text(label, "live") {
        LiveStatus::Live
    } else if is_text(label, "round") {
        LiveStatus::Round
    } else if is_text(label, "offline") {
        LiveStatus::Offline
    } else {
        LiveStatus::Unknown
    }
}

/// The text of an optional string.
pub open spec fn text_view(s: Option<String>) -> Option<Seq<char>> {
    match s {
        Some(t) => Some(t@),
        None => None,
    }
}

} // verus!
