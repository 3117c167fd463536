//! Typed business events, for hosts that take them as values.

use vstd::prelude::*;
use crate::models::{DanmakuMessage, DanmakuStatus};

verus! {

#[derive(Debug, Clone)]
pub enum CoreEvent {
    DanmakuStatus(DanmakuStatus),
    DanmakuMessage(DanmakuMessage),
}

/// A host that drops every event.
#[derive(Debug, Default, Clone, Copy)]
pub struct NullEventSink;

} // verus!
