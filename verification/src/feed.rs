//! The live danmaku feed the user reads: a bounded buffer of the latest
//! messages, each with an id, and where the reader is.

use vstd::prelude::*;
use std::collections::VecDeque;
use crate::models::{DanmakuConnectionState, DanmakuMessage, DanmakuStatus};

verus! {

/// How many messages the feed keeps; the oldest make room for new ones.
pub const FEED_CAPACITY: usize = 1000;

/// A buffered message with its id, which grows from one message to the next.
pub struct MessageRow {
    pub id: u64,
    pub message: DanmakuMessage,
}

/// The feed: the connection status, the buffered messages, whether the
/// reader follows the newest message and how many arrived while not.
pub struct DanmakuState {
    pub status: DanmakuStatus,
    pub messages: VecDeque<MessageRow>,
    pub following: bool,
    pub unread: u64,
    pub next_id: u64,
}

/// `rows` fits the feed: at most `FEED_CAPACITY` rows, with increasing ids
/// up to `next_id`.
pub open spec fn feed_rows(rows: Seq<MessageRow>, next_id: u64) -> bool {
    &&& rows.len() <= FEED_CAPACITY
    &&& forall|a: int, b: int| 0 <= a < b < rows.len() ==> rows[a].id < rows[b].id
    &&& forall|a: int| 0 <= a < rows.len() ==> #[trigger] rows[a].id <= next_id
}

/// The buffer after `row` arrives: the oldest row leaves a full buffer.
pub open spec fn pushed_rows(rows: Seq<MessageRow>, row: MessageRow) -> Seq<MessageRow> {
    if rows.len() >= FEED_CAPACITY {
        rows.drop_first().push(row)
    } else {
        rows.push(row)
    }
}

impl DanmakuState {
    pub open spec fn wf(&self) -> bool {
        &&& feed_rows(self.messages@, self.next_id)
        &&& self.unread <= self.next_id
    }

    /// An empty feed that follows the newest message, not connected.
    pub fn new() -> (r: Self)
        ensures
            r.wf(),
            r.messages@.len() == 0,
            r.following,
            r.unread == 0,
            r.next_id == 0,
            r.status.connection_id is None,
            r.status.room_id is None,
            r.status.state == DanmakuConnectionState::Idle,
            r.status.message is None,
    {
        DanmakuState {
            status: DanmakuStatus {
                connection_id: None,
                room_id: None,
                state: DanmakuConnectionState::Idle,
                message: None,
            },
            messages: VecDeque::new(),
            following: true,
            unread: 0,
            next_id: 0,
        }
    }

    /// Whether a connection is live.
    pub fn active(&self) -> (r: bool)
        ensures
            r == self.status.connection_id is Some,
    {
        self.status.connection_id.is_some()
    }

    /// Empties the feed and follows the newest message again.
    pub fn clear(&mut self)
        requires
            old(self).wf(),
        ensures
            final(self).wf(),
            final(self).messages@.len() == 0,
            final(self).following,
            final(self).unread == 0,
            final(self).next_id == old(self).next_id,
            final(self).status == old(self).status,
    {
        self.messages.clear();
        self.following = true;
        self.unread = 0;
    }

    /// Adds `message` with the next id; a reader who is not following has
    /// one more unread message.
    pub fn push(&mut self, message: DanmakuMessage)
        requires
            old(self).wf(),
            old(self).next_id < u64::MAX,
        ensures
            final(self).wf(),
            final(self).next_id == old(self).next_id + 1,
            final(self).messages@ == pushed_rows(
                old(self).messages@,
                MessageRow { id: final(self).next_id, message },
            ),
            final(self).unread == (if old(self).following {
                old(self).unread
            } else {
                (old(self).unread + 1) as u64
            }),
            final(self).following == old(self).following,
            final(self).status == old(self).status,
    {
        self.next_id = self.next_id + 1;
        if self.messages.len() >= FEED_CAPACITY {
            self.messages.pop_front();
        }
        let ghost kept = self.messages@;
        self.messages.push_back(MessageRow { id: self.next_id, message });
        if !self.following {
            self.unread = self.unread + 1;
        }
        assert(forall|a: int| 0 <= a < kept.len() ==> #[trigger] kept[a].id < self.next_id);
    }
}

} // verus!
