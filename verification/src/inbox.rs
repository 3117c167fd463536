//! The queue of events waiting for the session. Danmaku messages wait in a
//! bounded queue of their own, so a flood of them neither grows without
//! bound nor delays the other events.

use vstd::prelude::*;
use std::collections::VecDeque;
use crate::session::AppEvent;

verus! {

/// How many danmaku messages may wait; the oldest make room for new ones.
pub const MESSAGE_BACKLOG: usize = 1000;

/// How many danmaku messages one drain hands out at most.
pub const DRAIN_BATCH: usize = 200;

/// The events waiting: the other events in arrival order, and the danmaku
/// messages in arrival order.
pub struct EventQueue {
    pub controls: VecDeque<AppEvent>,
    pub messages: VecDeque<AppEvent>,
}

pub open spec fn is_message(event: AppEvent) -> bool {
    event is DanmakuMessage
}

/// The message queue after `event` arrives: the oldest message leaves a
/// full queue.
pub open spec fn queued_message(messages: Seq<AppEvent>, event: AppEvent) -> Seq<AppEvent> {
    if messages.len() >= MESSAGE_BACKLOG {
        messages.drop_first().push(event)
    } else {
        messages.push(event)
    }
}

/// How many messages a drain of `messages` hands out.
pub open spec fn batch_len(messages: Seq<AppEvent>) -> int {
    if messages.len() < DRAIN_BATCH {
        messages.len() as int
    } else {
        DRAIN_BATCH as int
    }
}

impl EventQueue {
    pub open spec fn wf(&self) -> bool {
        &&& self.messages@.len() <= MESSAGE_BACKLOG
        &&& forall|i: int| 0 <= i < self.messages@.len() ==> is_message(#[trigger] self.messages@[i])
        &&& forall|i: int| 0 <= i < self.controls@.len() ==> !is_message(#[trigger] self.controls@[i])
    }

    pub fn new() -> (r: Self)
        ensures
            r.wf(),
            r.controls@.len() == 0,
            r.messages@.len() == 0,
    {
        EventQueue { controls: VecDeque::new(), messages: VecDeque::new() }
    }

    /// Queues `event`; says whether the queue was empty, so that the
    /// session has to be woken.
    pub fn push(&mut self, event: AppEvent) -> (wake: bool)
        requires
            old(self).wf(),
        ensures
            final(self).wf(),
            wake == (old(self).controls@.len() == 0 && old(self).messages@.len() == 0),
            is_message(event) ==> final(self).messages@ == queued_message(old(self).messages@, event)
                && final(self).controls@ == old(self).controls@,
            !is_message(event) ==> final(self).controls@ == old(self).controls@.push(event)
                && final(self).messages@ == old(self).messages@,
    {
        let wake = self.controls.len() == 0 && self.messages.len() == 0;
        let message = match &event {
            AppEvent::DanmakuMessage(_) => true,
            _ => false,
        };
        if message {
            if self.messages.len() >= MESSAGE_BACKLOG {
                self.messages.pop_front();
            }
            self.messages.push_back(event);
        } else {
            self.controls.push_back(event);
        }
        wake
    }

    /// Hands out all other events, then at most `DRAIN_BATCH` messages, in
    /// arrival order; says whether messages are left, so that the session
    /// has to be woken again.
    pub fn drain(&mut self) -> (r: (Vec<AppEvent>, bool))
        requires
            old(self).wf(),
        ensures
            final(self).wf(),
            r.0@ == old(self).controls@ + old(self).messages@.take(batch_len(old(self).messages@)),
            final(self).controls@.len() == 0,
            final(self).messages@ == old(self).messages@.skip(batch_len(old(self).messages@)),
            r.1 == (final(self).messages@.len() > 0),
    {
        let ghost controls = self.controls@;
        let ghost messages = self.messages@;
        let mut out: Vec<AppEvent> = Vec::new();
        while self.controls.len() > 0
            invariant
                out@ + self.controls@ == controls,
                self.messages@ == messages,
                self.wf(),
            decreases self.controls@.len(),
        {
            let ghost before = self.controls@;
            match self.controls.pop_front() {
                Some(e) => {
                    out.push(e);
                    assert(before =~= seq![e] + self.controls@);
                },
                None => {},
            }
        }
        assert(out@ =~= controls);
        let mut n: usize = 0;
        while n < DRAIN_BATCH && self.messages.len() > 0
            invariant
                n <= DRAIN_BATCH,
                n <= messages.len(),
                out@ == controls + messages.take(n as int),
                self.messages@ == messages.skip(n as int),
                self.controls@.len() == 0,
                self.wf(),
            decreases DRAIN_BATCH - n,
        {
            match self.messages.pop_front() {
                Some(e) => {
                    out.push(e);
                    assert(messages.take(n + 1) =~= messages.take(n as int).push(e));
                    assert(self.messages@ =~= messages.skip(n + 1));
                },
                None => {},
            }
            n = n + 1;
        }
        assert(n == batch_len(messages));
        let more = self.messages.len() > 0;
        (out, more)
    }
}

} // verus!
