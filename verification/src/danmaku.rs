//! The danmaku wire protocol: 16-byte big-endian frame headers, frames nested
//! inside zlib or brotli bodies, and chat messages carried as JSON. Parsing
//! runs under a budget that bounds input size, expansion, nesting depth and
//! the number of frames and messages.

use std::io::Read;
use vstd::prelude::*;
use vstd::string::StringExecFns;
use vstd::utf8::encode_utf8;
use crate::json::{as_text, decode_json, get_item, get_member, item, json_document, member, text_of, Json};
use crate::models::{DanmakuConnection, DanmakuConnectionState, DanmakuMessage, DanmakuStatus};
use crate::text::{trim, trimmed};

verus! {

pub const DANMAKU_MESSAGE_EVENT: &'static str = "nanabobo://danmaku/message";
pub const DANMAKU_STATUS_EVENT: &'static str = "nanabobo://danmaku/status";

pub const HEADER_SIZE: usize = 16;
pub const OP_HEARTBEAT: u32 = 2;
pub const OP_MESSAGE: u32 = 5;
pub const OP_AUTH: u32 = 7;
pub const OP_AUTH_REPLY: u32 = 8;
pub const PROTO_RAW: u16 = 0;
pub const PROTO_HEARTBEAT: u16 = 1;
pub const PROTO_ZLIB: u16 = 2;
pub const PROTO_BROTLI: u16 = 3;

// ---------------------------------------------------------------- big-endian

/// The two big-endian bytes of `x`.
pub open spec fn be16_bytes(x: u16) -> Seq<u8> {
    seq![(x / 256) as u8, (x % 256) as u8]
}

/// The four big-endian bytes of `x`.
pub open spec fn be32_bytes(x: u32) -> Seq<u8> {
    seq![(x / 0x100_0000) as u8, ((x / 0x1_0000) % 256) as u8, ((x / 256) % 256) as u8, (x % 256) as u8]
}

/// The big-endian number in `b[at..at + 2]`.
pub open spec fn be16_at(b: Seq<u8>, at: int) -> nat {
    (b[at] * 256 + b[at + 1]) as nat
}

/// The big-endian number in `b[at..at + 4]`.
pub open spec fn be32_at(b: Seq<u8>, at: int) -> nat {
    (b[at] * 0x100_0000 + b[at + 1] * 0x1_0000 + b[at + 2] * 256 + b[at + 3]) as nat
}

fn read_be16(b: &[u8], at: usize) -> (r: u16)
    requires
        at + 2 <= b@.len(),
    ensures
        r == be16_at(b@, at as int),
{
    (b[at] as u16) * 256 + (b[at + 1] as u16)
}

fn read_be32(b: &[u8], at: usize) -> (r: u32)
    requires
        at + 4 <= b@.len(),
    ensures
        r == be32_at(b@, at as int),
{
    (b[at] as u32) * 0x100_0000 + (b[at + 1] as u32) * 0x1_0000 + (b[at + 2] as u32) * 256 + (
    b[at + 3] as u32)
}

fn push_be16(out: &mut Vec<u8>, x: u16)
    ensures
        final(out)@ == old(out)@ + be16_bytes(x),
{
    out.push((x / 256) as u8);
    out.push((x % 256) as u8);
}

fn push_be32(out: &mut Vec<u8>, x: u32)
    ensures
        final(out)@ == old(out)@ + be32_bytes(x),
{
    out.push((x / 0x100_0000) as u8);
    out.push(((x / 0x1_0000) % 256) as u8);
    out.push(((x / 256) % 256) as u8);
    out.push((x % 256) as u8);
}

/// Reading back the bytes written for a 16-bit number gives the number.
pub proof fn lemma_be16_round_trip(x: u16)
    ensures
        be16_at(be16_bytes(x), 0) == x,
{
    let b = be16_bytes(x);
    assert(b[0] == x / 256);
    assert(b[1] == x % 256);
}

/// Reading back the bytes written for a 32-bit number gives the number.
pub proof fn lemma_be32_round_trip(x: u32)
    ensures
        be32_at(be32_bytes(x), 0) == x,
{
    let b = be32_bytes(x);
    assert(b[0] == x / 0x100_0000);
    assert(b[1] == (x / 0x1_0000) % 256);
    assert(b[2] == (x / 256) % 256);
    assert(b[3] == x % 256);
    assert(x == (x / 0x100_0000) * 0x100_0000 + ((x / 0x1_0000) % 256) * 0x1_0000 + ((x / 256)
        % 256) * 256 + x % 256) by (nonlinear_arith);
}

// ------------------------------------------------------------------ packets

/// The bytes of one frame: packet size, header size, protocol, operation,
/// sequence number 1, then the body. The packet size is `16 + body.len()`
/// taken modulo 2^32, as the 32-bit header field holds it.
pub open spec fn packet_bytes(operation: u32, protocol: u16, body: Seq<u8>) -> Seq<u8> {
    be32_bytes((HEADER_SIZE + body.len()) as u32) + be16_bytes(HEADER_SIZE as u16) + be16_bytes(
        protocol,
    ) + be32_bytes(operation) + be32_bytes(1) + body
}

/// Frames `body` under the given operation and protocol.
pub fn build_packet(operation: u32, protocol: u16, body: &[u8]) -> (packet: Vec<u8>)
    requires
        HEADER_SIZE + body@.len() <= usize::MAX,
    ensures
        packet@ == packet_bytes(operation, protocol, body@),
{
    #[verifier::truncate]
    let packet_size = (HEADER_SIZE + body.len()) as u32;
    let mut packet: Vec<u8> = Vec::new();
    push_be32(&mut packet, packet_size);
    push_be16(&mut packet, HEADER_SIZE as u16);
    push_be16(&mut packet, protocol);
    push_be32(&mut packet, operation);
    push_be32(&mut packet, 1u32);
    let ghost head = packet@;
    let mut i: usize = 0;
    while i < body.len()
        invariant
            i <= body@.len(),
            packet@ == head + body@.subrange(0, i as int),
        decreases body@.len() - i,
    {
        packet.push(body[i]);
        i = i + 1;
        assert(packet@ =~= head + body@.subrange(0, i as int));
    }
    assert(body@.subrange(0, body@.len() as int) =~= body@);
    packet
}

/// A frame's header fields read back from what [`build_packet`] wrote, when
/// the packet size fits the 32-bit field.
pub proof fn lemma_packet_header(operation: u32, protocol: u16, body: Seq<u8>)
    requires
        HEADER_SIZE + body.len() <= u32::MAX,
    ensures
        ({
            let p = packet_bytes(operation, protocol, body);
            &&& p.len() == HEADER_SIZE + body.len()
            &&& be32_at(p, 0) == HEADER_SIZE + body.len()
            &&& be16_at(p, 4) == HEADER_SIZE
            &&& be16_at(p, 6) == protocol
            &&& be32_at(p, 8) == operation
            &&& p.subrange(HEADER_SIZE as int, p.len() as int) == body
        }),
{
    let p = packet_bytes(operation, protocol, body);
    let size = (HEADER_SIZE + body.len()) as u32;
    lemma_be32_round_trip(size);
    lemma_be16_round_trip(HEADER_SIZE as u16);
    lemma_be16_round_trip(protocol);
    lemma_be32_round_trip(operation);
    assert(p.subrange(0, 4) =~= be32_bytes(size));
    assert(p.subrange(4, 6) =~= be16_bytes(HEADER_SIZE as u16));
    assert(p.subrange(6, 8) =~= be16_bytes(protocol));
    assert(p.subrange(8, 12) =~= be32_bytes(operation));
    assert(p.subrange(HEADER_SIZE as int, p.len() as int) =~= body);
    assert(be32_at(p, 0) == be32_at(be32_bytes(size), 0));
    assert(be16_at(p, 4) == be16_at(be16_bytes(HEADER_SIZE as u16), 0));
    assert(be16_at(p, 6) == be16_at(be16_bytes(protocol), 0));
    assert(be32_at(p, 8) == be32_at(be32_bytes(operation), 0));
}


// ------------------------------------------------------------------- budget

/// Bounds for one parse of one incoming websocket payload.
#[derive(Debug, Clone, Copy)]
pub struct ParseLimits {
    pub max_input_bytes: usize,
    pub max_expanded_bytes_per_frame: usize,
    pub max_total_expanded_bytes: usize,
    pub max_nested_depth: usize,
    pub max_frames: usize,
    pub max_messages: usize,
    pub max_sender_name_bytes: usize,
    pub max_message_text_bytes: usize,
}

/// The limits the live connection parses with.
pub fn danmaku_parse_limits() -> (r: ParseLimits)
    ensures
        r == danmaku_limits(),
{
    ParseLimits {
        max_input_bytes: 1024 * 1024,
        max_expanded_bytes_per_frame: 2 * 1024 * 1024,
        max_total_expanded_bytes: 4 * 1024 * 1024,
        max_nested_depth: 4,
        max_frames: 1024,
        max_messages: 256,
        max_sender_name_bytes: 256,
        max_message_text_bytes: 4 * 1024,
    }
}

pub open spec fn danmaku_limits() -> ParseLimits {
    ParseLimits {
        max_input_bytes: 1048576usize,
        max_expanded_bytes_per_frame: 2097152usize,
        max_total_expanded_bytes: 4194304usize,
        max_nested_depth: 4,
        max_frames: 1024,
        max_messages: 256,
        max_sender_name_bytes: 256,
        max_message_text_bytes: 4096usize,
    }
}

/// Which bound a rejected payload went over.
#[derive(Debug, Clone, Copy, PartialEq, Eq, Structural)]
pub enum BudgetLimit {
    InputBytes,
    ExpandedFrameBytes,
    ExpandedTotalBytes,
    NestedDepth,
    Frames,
    Messages,
    SenderNameBytes,
    MessageTextBytes,
}

/// Why a payload was rejected.
#[derive(Debug, Clone, Copy, PartialEq, Eq, Structural)]
pub enum ParseFailure {
    Budget(BudgetLimit),
    InvalidFrame,
    Decompression,
}

/// What a parse had consumed when it stopped.
#[derive(Debug, Clone, Copy, PartialEq, Eq, Structural)]
pub struct ParseStats {
    pub input_bytes: usize,
    pub expanded_bytes: usize,
    pub max_depth: usize,
    pub frames: usize,
    pub messages: usize,
}

#[verifier::external_type_specification]
#[verifier::external_body]
pub struct ExInstant(std::time::Instant);

/// A rejected payload: the reason, the counters at the point of rejection,
/// and how long the parse ran. It holds no text of the payload.
#[derive(Debug, Clone, Copy)]
pub struct ParseError {
    pub failure: ParseFailure,
    pub stats: ParseStats,
    pub elapsed: std::time::Duration,
}

impl ParseError {
    pub fn is_budget_exceeded(&self) -> (r: bool)
        ensures
            r == (self.failure is Budget),
    {
        match self.failure {
            ParseFailure::Budget(_) => true,
            _ => false,
        }
    }
}

/// Limits and running counters of one parse.
pub struct ParseBudget {
    pub limits: ParseLimits,
    pub stats: ParseStats,
}

/// `x + 1`, held at `usize::MAX`.
pub open spec fn inc(x: usize) -> usize {
    if x == usize::MAX {
        x
    } else {
        (x + 1) as usize
    }
}

pub open spec fn stats_with_depth(s: ParseStats, depth: usize) -> ParseStats {
    ParseStats { max_depth: if depth > s.max_depth { depth } else { s.max_depth }, ..s }
}

pub open spec fn stats_with_frame(s: ParseStats) -> ParseStats {
    ParseStats { frames: inc(s.frames), ..s }
}

pub open spec fn stats_with_message(s: ParseStats) -> ParseStats {
    ParseStats { messages: inc(s.messages), ..s }
}

impl ParseBudget {
    /// Notes that a nested body at `depth` is entered.
    pub fn record_depth(&mut self, depth: usize) -> (r: Result<(), ParseFailure>)
        ensures
            final(self).limits == old(self).limits,
            final(self).stats == stats_with_depth(old(self).stats, depth),
            r == (if depth > old(self).limits.max_nested_depth {
                Err::<(), ParseFailure>(ParseFailure::Budget(BudgetLimit::NestedDepth))
            } else {
                Ok(())
            }),
    {
        if depth > self.stats.max_depth {
            self.stats.max_depth = depth;
        }
        if depth > self.limits.max_nested_depth {
            return Err(ParseFailure::Budget(BudgetLimit::NestedDepth));
        }
        Ok(())
    }

    /// Counts one frame.
    pub fn record_frame(&mut self) -> (r: Result<(), ParseFailure>)
        ensures
            final(self).limits == old(self).limits,
            final(self).stats == stats_with_frame(old(self).stats),
            r == (if final(self).stats.frames > old(self).limits.max_frames {
                Err::<(), ParseFailure>(ParseFailure::Budget(BudgetLimit::Frames))
            } else {
                Ok(())
            }),
    {
        self.stats.frames = self.stats.frames.saturating_add(1);
        if self.stats.frames > self.limits.max_frames {
            return Err(ParseFailure::Budget(BudgetLimit::Frames));
        }
        Ok(())
    }

    /// Counts one chat message.
    pub fn record_message(&mut self) -> (r: Result<(), ParseFailure>)
        ensures
            final(self).limits == old(self).limits,
            final(self).stats == stats_with_message(old(self).stats),
            r == (if final(self).stats.messages > old(self).limits.max_messages {
                Err::<(), ParseFailure>(ParseFailure::Budget(BudgetLimit::Messages))
            } else {
                Ok(())
            }),
    {
        self.stats.messages = self.stats.messages.saturating_add(1);
        if self.stats.messages > self.limits.max_messages {
            return Err(ParseFailure::Budget(BudgetLimit::Messages));
        }
        Ok(())
    }
}


// ------------------------------------------------------------ decompression

/// The compression a nested body is wrapped in.
#[derive(Debug, Clone, Copy, PartialEq, Eq, Structural)]
pub enum Codec {
    Zlib,
    Brotli,
}

/// What a zlib decoder yields from `body` when at most `cap` bytes are read,
/// or `None` where decoding fails within them.
pub uninterp spec fn zlib_output(body: Seq<u8>, cap: nat) -> Option<Seq<u8>>;

/// What a brotli decoder yields from `body` when at most `cap` bytes are read,
/// or `None` where decoding fails within them.
pub uninterp spec fn brotli_output(body: Seq<u8>, cap: nat) -> Option<Seq<u8>>;

/// Reads at most `cap` bytes from a `flate2::read::ZlibDecoder` over `body`,
/// through `std::io::Read::take` and `read_to_end`. Trusted: the bytes are
/// what the decoder yields for these arguments (`None` where it reports an
/// error), and never more than `cap` of them, as `Take` documents.
#[verifier::external_body]
fn inflate_zlib(body: &[u8], cap: u64) -> (r: Option<Vec<u8>>)
    ensures
        r matches Some(d) ==> d@.len() <= cap && zlib_output(body@, cap as nat) == Some(d@),
        r is None ==> zlib_output(body@, cap as nat) is None,
{
    let mut decoded = Vec::new();
    flate2::read::ZlibDecoder::new(body).take(cap).read_to_end(&mut decoded).ok().map(|_| decoded)
}

/// Reads at most `cap` bytes from a `brotli::Decompressor` (4096-byte
/// buffer) over `body`, through `std::io::Read::take` and `read_to_end`.
/// Trusted: the bytes are what the decompressor yields for these arguments
/// (`None` where it reports an error), and never more than `cap` of them.
#[verifier::external_body]
fn inflate_brotli(body: &[u8], cap: u64) -> (r: Option<Vec<u8>>)
    ensures
        r matches Some(d) ==> d@.len() <= cap && brotli_output(body@, cap as nat) == Some(d@),
        r is None ==> brotli_output(body@, cap as nat) is None,
{
    let mut decoded = Vec::new();
    brotli::Decompressor::new(body, 4096).take(cap).read_to_end(&mut decoded).ok().map(|_| decoded)
}

pub open spec fn sat_sub(a: usize, b: usize) -> usize {
    if a >= b {
        (a - b) as usize
    } else {
        0
    }
}

/// The decoded bytes of a nested body, read one byte past what the budget
/// still allows so that an overrun shows, then held to the per-frame and the
/// remaining total expansion budget.
pub open spec fn expansion(limits: ParseLimits, stats: ParseStats, codec: Codec, body: Seq<u8>) -> Result<Seq<u8>, ParseFailure> {
    let frame_remaining = limits.max_expanded_bytes_per_frame;
    let total_remaining = sat_sub(limits.max_total_expanded_bytes, stats.expanded_bytes);
    let limit = if frame_remaining <= total_remaining { frame_remaining } else { total_remaining };
    let cap = inc(limit) as nat;
    let out = match codec {
        Codec::Zlib => zlib_output(body, cap),
        Codec::Brotli => brotli_output(body, cap),
    };
    match out {
        None => Err(ParseFailure::Decompression),
        Some(d) => if d.len() > frame_remaining {
            Err(ParseFailure::Budget(BudgetLimit::ExpandedFrameBytes))
        } else if d.len() > total_remaining {
            Err(ParseFailure::Budget(BudgetLimit::ExpandedTotalBytes))
        } else {
            Ok(d)
        },
    }
}

/// Decodes a nested body within the expansion budget and counts the bytes.
pub fn read_compressed(body: &[u8], codec: Codec, budget: &mut ParseBudget) -> (r: Result<
    Vec<u8>,
    ParseFailure,
>)
    ensures
        final(budget).limits == old(budget).limits,
        match expansion(old(budget).limits, old(budget).stats, codec, body@) {
            Ok(d) => r matches Ok(out) && out@ == d && final(budget).stats == (ParseStats {
                expanded_bytes: (old(budget).stats.expanded_bytes + d.len()) as usize,
                ..old(budget).stats
            }),
            Err(f) => r == Err::<Vec<u8>, ParseFailure>(f) && final(budget).stats == old(
                budget,
            ).stats,
        },
{
    let frame_remaining = budget.limits.max_expanded_bytes_per_frame;
    let total_remaining = budget.limits.max_total_expanded_bytes.saturating_sub(
        budget.stats.expanded_bytes,
    );
    let limit = if frame_remaining <= total_remaining {
        frame_remaining
    } else {
        total_remaining
    };
    let cap = limit.saturating_add(1) as u64;
    let decoded = match codec {
        Codec::Zlib => inflate_zlib(body, cap),
        Codec::Brotli => inflate_brotli(body, cap),
    };
    let decoded = match decoded {
        Some(d) => d,
        None => return Err(ParseFailure::Decompression),
    };
    if decoded.len() > frame_remaining {
        return Err(ParseFailure::Budget(BudgetLimit::ExpandedFrameBytes));
    }
    if decoded.len() > total_remaining {
        return Err(ParseFailure::Budget(BudgetLimit::ExpandedTotalBytes));
    }
    budget.stats.expanded_bytes = budget.stats.expanded_bytes + decoded.len();
    Ok(decoded)
}


// --------------------------------------------------------------------- chat

/// One chat message taken from the stream: who sent it and what they wrote.
#[derive(Debug, PartialEq, Eq)]
pub struct ParsedMessage {
    pub sender_name: String,
    pub text: String,
}

/// A chat message as character sequences.
pub struct MessageView {
    pub sender_name: Seq<char>,
    pub text: Seq<char>,
}

impl View for ParsedMessage {
    type V = MessageView;

    open spec fn view(&self) -> MessageView {
        MessageView { sender_name: self.sender_name@, text: self.text@ }
    }
}

pub open spec fn message_views(ms: Seq<ParsedMessage>) -> Seq<MessageView> {
    ms.map_values(|m: ParsedMessage| m@)
}

/// The element at `i`, where there is one.
pub open spec fn entry(items: Seq<Json>, i: int) -> Option<Json> {
    if 0 <= i < items.len() {
        Some(items[i])
    } else {
        None
    }
}

/// The trimmed text and trimmed sender name of a document shaped like
/// `{"cmd": "DANMU_MSG", "info": [_, text, [_, sender, ..], ..]}`.
pub open spec fn chat_fields(v: Json) -> Option<(Seq<char>, Seq<char>)> {
    match text_of(member(v, "cmd"@)) {
        Some(cmd) => if cmd != "DANMU_MSG"@ {
            None
        } else {
            match member(v, "info"@) {
                Some(Json::Array(info)) => match text_of(entry(info@, 1)) {
                    Some(text) => match entry(info@, 2) {
                        Some(sender) => match text_of(item(sender, 1)) {
                            Some(name) => Some((trimmed(text), trimmed(name))),
                            None => None,
                        },
                        None => None,
                    },
                    None => None,
                },
                _ => None,
            }
        },
        None => None,
    }
}

/// The number of bytes of `s` in UTF-8.
pub open spec fn utf8_len(s: Seq<char>) -> nat {
    encode_utf8(s).len()
}

/// What reading one JSON body as a chat message gives: the counters after it
/// and the message, `None` for a body that is not a non-empty chat message,
/// or the bound it went over.
pub open spec fn chat_outcome(limits: ParseLimits, stats: ParseStats, bytes: Seq<u8>) -> (
    ParseStats,
    Result<Option<MessageView>, ParseFailure>,
) {
    match json_document(bytes) {
        None => (stats, Ok(None)),
        Some(v) => match chat_fields(v) {
            None => (stats, Ok(None)),
            Some((text, name)) => if text.len() == 0 || name.len() == 0 {
                (stats, Ok(None))
            } else if utf8_len(name) > limits.max_sender_name_bytes {
                (stats, Err(ParseFailure::Budget(BudgetLimit::SenderNameBytes)))
            } else if utf8_len(text) > limits.max_message_text_bytes {
                (stats, Err(ParseFailure::Budget(BudgetLimit::MessageTextBytes)))
            } else {
                let counted = stats_with_message(stats);
                if counted.messages > limits.max_messages {
                    (counted, Err(ParseFailure::Budget(BudgetLimit::Messages)))
                } else {
                    (counted, Ok(Some(MessageView { sender_name: name, text: text })))
                }
            },
        },
    }
}

pub open spec fn chat_view(r: Result<Option<ParsedMessage>, ParseFailure>) -> Result<
    Option<MessageView>,
    ParseFailure,
> {
    match r {
        Ok(Some(m)) => Ok(Some(m@)),
        Ok(None) => Ok(None),
        Err(f) => Err(f),
    }
}

/// Reads a JSON body as a chat message, counting it against the budget.
pub fn parse_chat_json(bytes: &[u8], budget: &mut ParseBudget) -> (r: Result<
    Option<ParsedMessage>,
    ParseFailure,
>)
    ensures
        final(budget).limits == old(budget).limits,
        chat_outcome(old(budget).limits, old(budget).stats, bytes@) == (
            final(budget).stats,
            chat_view(r),
        ),
{
    let value = match decode_json(bytes) {
        Some(v) => v,
        None => return Ok(None),
    };
    let cmd = match get_member(&value, "cmd") {
        Some(c) => c,
        None => return Ok(None),
    };
    let cmd = match as_text(cmd) {
        Some(c) => c,
        None => return Ok(None),
    };
    let wanted = String::from_str("DANMU_MSG");
    if !cmd.eq(&wanted) {
        return Ok(None);
    }
    let info = match get_member(&value, "info") {
        Some(i) => i,
        None => return Ok(None),
    };
    let items = match info {
        Json::Array(items) => items,
        _ => return Ok(None),
    };
    if items.len() < 2 {
        return Ok(None);
    }
    let text = match as_text(&items[1]) {
        Some(t) => trim(t.as_str()),
        None => return Ok(None),
    };
    if items.len() < 3 {
        return Ok(None);
    }
    let name = match get_item(&items[2], 1) {
        Some(n) => n,
        None => return Ok(None),
    };
    let name = match as_text(name) {
        Some(n) => trim(n.as_str()),
        None => return Ok(None),
    };
    assert(chat_fields(value) == Some((text@, name@)));
    if text.as_str().is_empty() || name.as_str().is_empty() {
        return Ok(None);
    }
    if name.as_str().as_bytes().len() > budget.limits.max_sender_name_bytes {
        return Err(ParseFailure::Budget(BudgetLimit::SenderNameBytes));
    }
    if text.as_str().as_bytes().len() > budget.limits.max_message_text_bytes {
        return Err(ParseFailure::Budget(BudgetLimit::MessageTextBytes));
    }
    match budget.record_message() {
        Ok(()) => {},
        Err(f) => return Err(f),
    }
    Ok(Some(ParsedMessage { sender_name: name, text }))
}


// ------------------------------------------------------------------- frames

/// What a frame sequence gives: the counters, the messages gathered so far,
/// and the reason for stopping early, if any.
pub open spec fn frames_outcome(
    limits: ParseLimits,
    bytes: Seq<u8>,
    depth: usize,
    stats: ParseStats,
    msgs: Seq<MessageView>,
) -> (ParseStats, Seq<MessageView>, Option<ParseFailure>)
    decreases limits.max_nested_depth - depth, bytes.len(),
    when depth <= limits.max_nested_depth && limits.max_nested_depth < usize::MAX
{
    if bytes.len() == 0 {
        (stats, msgs, None)
    } else if bytes.len() < HEADER_SIZE {
        (stats, msgs, Some(ParseFailure::InvalidFrame))
    } else {
        let packet_size = be32_at(bytes, 0);
        let header_size = be16_at(bytes, 4);
        let protocol = be16_at(bytes, 6);
        let operation = be32_at(bytes, 8);
        if packet_size < header_size || header_size < HEADER_SIZE || packet_size > bytes.len() {
            (stats, msgs, Some(ParseFailure::InvalidFrame))
        } else {
            let counted = stats_with_frame(stats);
            if counted.frames > limits.max_frames {
                (counted, msgs, Some(ParseFailure::Budget(BudgetLimit::Frames)))
            } else {
                let body = bytes.subrange(header_size as int, packet_size as int);
                let rest = bytes.subrange(packet_size as int, bytes.len() as int);
                let (stats2, msgs2, failure) = if operation != OP_MESSAGE {
                    (counted, msgs, None)
                } else if protocol == PROTO_ZLIB || protocol == PROTO_BROTLI {
                    let next_depth = inc(depth);
                    let deeper = stats_with_depth(counted, next_depth);
                    if next_depth > limits.max_nested_depth {
                        (deeper, msgs, Some(ParseFailure::Budget(BudgetLimit::NestedDepth)))
                    } else {
                        let codec = if protocol == PROTO_ZLIB {
                            Codec::Zlib
                        } else {
                            Codec::Brotli
                        };
                        match expansion(limits, deeper, codec, body) {
                            Err(f) => (deeper, msgs, Some(f)),
                            Ok(decoded) => frames_outcome(
                                limits,
                                decoded,
                                next_depth,
                                ParseStats {
                                    expanded_bytes: (deeper.expanded_bytes + decoded.len()) as usize,
                                    ..deeper
                                },
                                msgs,
                            ),
                        }
                    }
                } else if protocol == PROTO_RAW || protocol == PROTO_HEARTBEAT {
                    let (st, r) = chat_outcome(limits, counted, body);
                    match r {
                        Err(f) => (st, msgs, Some(f)),
                        Ok(Some(m)) => (st, msgs.push(m), None),
                        Ok(None) => (st, msgs, None),
                    }
                } else {
                    (counted, msgs, None)
                };
                if failure is Some {
                    (stats2, msgs2, failure)
                } else {
                    frames_outcome(limits, rest, depth, stats2, msgs2)
                }
            }
        }
    }
}

pub open spec fn failure_of(r: Result<(), ParseFailure>) -> Option<ParseFailure> {
    match r {
        Ok(()) => None,
        Err(f) => Some(f),
    }
}

/// Walks a sequence of frames, descending into compressed bodies and
/// gathering chat messages, within the budget.
pub fn parse_frames_inner(
    bytes: &[u8],
    depth: usize,
    budget: &mut ParseBudget,
    messages: &mut Vec<ParsedMessage>,
) -> (r: Result<(), ParseFailure>)
    requires
        depth <= old(budget).limits.max_nested_depth,
        old(budget).limits.max_nested_depth < usize::MAX,
    ensures
        final(budget).limits == old(budget).limits,
        frames_outcome(
            old(budget).limits,
            bytes@,
            depth,
            old(budget).stats,
            message_views(old(messages)@),
        ) == (final(budget).stats, message_views(final(messages)@), failure_of(r)),
    decreases old(budget).limits.max_nested_depth - depth,
{
    let ghost limits = budget.limits;
    let ghost total = frames_outcome(limits, bytes@, depth, budget.stats, message_views(messages@));
    let mut pos: usize = 0;
    assert(bytes@.subrange(0, bytes@.len() as int) =~= bytes@);
    while pos < bytes.len()
        invariant
            pos <= bytes@.len(),
            budget.limits == limits,
            limits == old(budget).limits,
            total == frames_outcome(
                limits,
                bytes@,
                depth,
                old(budget).stats,
                message_views(old(messages)@),
            ),
            depth <= limits.max_nested_depth,
            limits.max_nested_depth < usize::MAX,
            frames_outcome(
                limits,
                bytes@.subrange(pos as int, bytes@.len() as int),
                depth,
                budget.stats,
                message_views(messages@),
            ) == total,
        decreases bytes@.len() - pos,
    {
        let ghost here = bytes@.subrange(pos as int, bytes@.len() as int);
        let ghost stats0 = budget.stats;
        let ghost msgs0 = message_views(messages@);
        let rest_len = bytes.len() - pos;
        if rest_len < HEADER_SIZE {
            return Err(ParseFailure::InvalidFrame);
        }
        let packet_size = read_be32(bytes, pos) as usize;
        let header_size = read_be16(bytes, pos + 4) as usize;
        let protocol = read_be16(bytes, pos + 6);
        let operation = read_be32(bytes, pos + 8);
        assert(packet_size == be32_at(here, 0));
        assert(header_size == be16_at(here, 4));
        assert(protocol == be16_at(here, 6));
        assert(operation == be32_at(here, 8));
        if packet_size < header_size || header_size < HEADER_SIZE || packet_size > rest_len {
            return Err(ParseFailure::InvalidFrame);
        }
        match budget.record_frame() {
            Ok(()) => {},
            Err(f) => return Err(f),
        }
        let body = &bytes[pos + header_size..pos + packet_size];
        assert(body@ == here.subrange(header_size as int, packet_size as int));
        let ghost counted = budget.stats;
        if operation == OP_MESSAGE {
            if protocol == PROTO_ZLIB || protocol == PROTO_BROTLI {
                let next_depth = depth.saturating_add(1);
                match budget.record_depth(next_depth) {
                    Ok(()) => {},
                    Err(f) => return Err(f),
                }
                let codec = if protocol == PROTO_ZLIB {
                    Codec::Zlib
                } else {
                    Codec::Brotli
                };
                let decoded = match read_compressed(body, codec, budget) {
                    Ok(d) => d,
                    Err(f) => return Err(f),
                };
                match parse_frames_inner(decoded.as_slice(), next_depth, budget, messages) {
                    Ok(()) => {},
                    Err(f) => return Err(f),
                }
            } else if protocol == PROTO_RAW || protocol == PROTO_HEARTBEAT {
                match parse_chat_json(body, budget) {
                    Ok(Some(message)) => {
                        let ghost before = messages@;
                        messages.push(message);
                        assert(message_views(messages@) =~= message_views(before).push(
                            message@,
                        ));
                    },
                    Ok(None) => {},
                    Err(f) => return Err(f),
                }
            }
        }
        assert(bytes@.subrange((pos + packet_size) as int, bytes@.len() as int) =~= here.subrange(
            packet_size as int,
            here.len() as int,
        ));
        pos = pos + packet_size;
    }
    assert(bytes@.subrange(pos as int, bytes@.len() as int).len() == 0);
    Ok(())
}


// ---------------------------------------------------------------- top level

/// `std::time::Instant::now()`; nothing is claimed of the reading.
#[verifier::external_body]
fn clock_now() -> std::time::Instant {
    std::time::Instant::now()
}

/// `std::time::Instant::elapsed`; nothing is claimed of the duration.
#[verifier::external_body]
fn elapsed_since(started: &std::time::Instant) -> std::time::Duration {
    started.elapsed()
}

/// The counters a parse of `n` input bytes starts from.
pub open spec fn opening_stats(n: nat) -> ParseStats {
    ParseStats { input_bytes: n as usize, expanded_bytes: 0, max_depth: 0, frames: 0, messages: 0 }
}

/// What parsing a websocket payload as frames gives: the chat messages in
/// order, or the reason for rejection with the counters at that point.
/// The limits a frame walk runs under: a nesting or message limit of
/// `usize::MAX` is taken as one less. No payload tells the two apart: each
/// nested level and each message takes a frame header of its own, at least
/// `HEADER_SIZE` bytes held in memory, so neither count comes near
/// `usize::MAX`.
pub open spec fn walk_limits(limits: ParseLimits) -> ParseLimits {
    ParseLimits {
        max_nested_depth: if limits.max_nested_depth == usize::MAX {
            (usize::MAX - 1) as usize
        } else {
            limits.max_nested_depth
        },
        max_messages: if limits.max_messages == usize::MAX {
            (usize::MAX - 1) as usize
        } else {
            limits.max_messages
        },
        ..limits
    }
}

fn clamp_walk_limits(limits: ParseLimits) -> (r: ParseLimits)
    ensures
        r == walk_limits(limits),
{
    ParseLimits {
        max_nested_depth: if limits.max_nested_depth == usize::MAX {
            usize::MAX - 1
        } else {
            limits.max_nested_depth
        },
        max_messages: if limits.max_messages == usize::MAX {
            usize::MAX - 1
        } else {
            limits.max_messages
        },
        ..limits
    }
}

pub open spec fn frames_result(limits: ParseLimits, bytes: Seq<u8>) -> Result<
    Seq<MessageView>,
    (ParseFailure, ParseStats),
> {
    let start = opening_stats(bytes.len());
    if bytes.len() > limits.max_input_bytes {
        Err((ParseFailure::Budget(BudgetLimit::InputBytes), start))
    } else {
        let (stats, msgs, failure) = frames_outcome(walk_limits(limits), bytes, 0, start, Seq::empty());
        match failure {
            None => Ok(msgs),
            Some(f) => Err((f, stats)),
        }
    }
}

/// What reading a text payload as one chat message gives.
pub open spec fn text_result(limits: ParseLimits, bytes: Seq<u8>) -> Result<
    Option<MessageView>,
    (ParseFailure, ParseStats),
> {
    let start = opening_stats(bytes.len());
    if bytes.len() > limits.max_input_bytes {
        Err((ParseFailure::Budget(BudgetLimit::InputBytes), start))
    } else {
        let (stats, r) = chat_outcome(limits, start, bytes);
        match r {
            Ok(m) => Ok(m),
            Err(f) => Err((f, stats)),
        }
    }
}

/// A rejection carrying the counters and the time since `started`.
fn reject(failure: ParseFailure, stats: ParseStats, started: &std::time::Instant) -> (e: ParseError)
    ensures
        e.failure == failure,
        e.stats == stats,
{
    ParseError { failure, stats, elapsed: elapsed_since(started) }
}

/// The budget for a payload of `bytes`, or the rejection of a payload over
/// the input limit.
pub fn start_budget(bytes: &[u8], limits: ParseLimits, started: &std::time::Instant) -> (r: Result<
    ParseBudget,
    ParseError,
>)
    ensures
        bytes@.len() > limits.max_input_bytes ==> (r matches Err(e) && e.failure
            == ParseFailure::Budget(BudgetLimit::InputBytes) && e.stats == opening_stats(
            bytes@.len(),
        )),
        bytes@.len() <= limits.max_input_bytes ==> (r matches Ok(b) && b.limits == limits
            && b.stats == opening_stats(bytes@.len())),
{
    let stats = ParseStats {
        input_bytes: bytes.len(),
        expanded_bytes: 0,
        max_depth: 0,
        frames: 0,
        messages: 0,
    };
    if bytes.len() > limits.max_input_bytes {
        return Err(reject(ParseFailure::Budget(BudgetLimit::InputBytes), stats, started));
    }
    Ok(ParseBudget { limits, stats })
}

/// Parses a binary websocket payload as frames under `limits`.
pub fn parse_frames_with_limits(bytes: &[u8], limits: ParseLimits) -> (r: Result<
    Vec<ParsedMessage>,
    ParseError,
>)
    ensures
        match frames_result(limits, bytes@) {
            Ok(msgs) => r matches Ok(v) && message_views(v@) == msgs,
            Err((f, stats)) => r matches Err(e) && e.failure == f && e.stats == stats,
        },
        r matches Err(e) ==> e.stats.expanded_bytes <= limits.max_total_expanded_bytes,
        r matches Ok(v) ==> v@.len() <= limits.max_messages,
{
    proof {
        lemma_parse_respects_budget(limits, bytes@);
    }
    let limits = clamp_walk_limits(limits);
    let started = clock_now();
    let mut budget = match start_budget(bytes, limits, &started) {
        Ok(b) => b,
        Err(e) => return Err(e),
    };
    let mut messages: Vec<ParsedMessage> = Vec::new();
    assert(message_views(messages@) =~= Seq::<MessageView>::empty());
    match parse_frames_inner(bytes, 0, &mut budget, &mut messages) {
        Ok(()) => Ok(messages),
        Err(f) => Err(reject(f, budget.stats, &started)),
    }
}

/// Parses a binary websocket payload as frames under the connection's limits.
pub fn parse_frames(bytes: &[u8]) -> (r: Result<Vec<ParsedMessage>, ParseError>)
    ensures
        match frames_result(danmaku_limits(), bytes@) {
            Ok(msgs) => r matches Ok(v) && message_views(v@) == msgs,
            Err((f, stats)) => r matches Err(e) && e.failure == f && e.stats == stats,
        },
{
    parse_frames_with_limits(bytes, danmaku_parse_limits())
}

/// Reads a text websocket payload as one chat message under the
/// connection's limits.
pub fn parse_text_message(bytes: &[u8]) -> (r: Result<Option<ParsedMessage>, ParseError>)
    ensures
        match text_result(danmaku_limits(), bytes@) {
            Ok(m) => r matches Ok(v) && chat_view(Ok(v)) == Ok::<Option<MessageView>, ParseFailure>(m),
            Err((f, stats)) => r matches Err(e) && e.failure == f && e.stats == stats,
        },
{
    let started = clock_now();
    let mut budget = match start_budget(bytes, danmaku_parse_limits(), &started) {
        Ok(b) => b,
        Err(e) => return Err(e),
    };
    match parse_chat_json(bytes, &mut budget) {
        Ok(m) => Ok(m),
        Err(f) => Err(reject(f, budget.stats, &started)),
    }
}


// --------------------------------------------------------------------- laws

proof fn lemma_outcome_counts(
    limits: ParseLimits,
    bytes: Seq<u8>,
    depth: usize,
    stats: ParseStats,
    msgs: Seq<MessageView>,
)
    requires
        depth <= limits.max_nested_depth,
        limits.max_nested_depth < usize::MAX,
        limits.max_messages < usize::MAX,
        stats.expanded_bytes <= limits.max_total_expanded_bytes,
        stats.messages <= limits.max_messages,
        msgs.len() == stats.messages,
    ensures
        ({
            let (s, m, f) = frames_outcome(limits, bytes, depth, stats, msgs);
            &&& s.expanded_bytes <= limits.max_total_expanded_bytes
            &&& f is None ==> s.messages <= limits.max_messages && m.len() == s.messages
        }),
    decreases limits.max_nested_depth - depth, bytes.len(),
{
    if bytes.len() >= HEADER_SIZE {
        let packet_size = be32_at(bytes, 0);
        let header_size = be16_at(bytes, 4);
        let protocol = be16_at(bytes, 6);
        let operation = be32_at(bytes, 8);
        if !(packet_size < header_size || header_size < HEADER_SIZE || packet_size > bytes.len()) {
            let counted = stats_with_frame(stats);
            if counted.frames <= limits.max_frames {
                let body = bytes.subrange(header_size as int, packet_size as int);
                let rest = bytes.subrange(packet_size as int, bytes.len() as int);
                if operation == OP_MESSAGE && (protocol == PROTO_ZLIB || protocol == PROTO_BROTLI) {
                    let next_depth = inc(depth);
                    let deeper = stats_with_depth(counted, next_depth);
                    if next_depth <= limits.max_nested_depth {
                        let codec = if protocol == PROTO_ZLIB {
                            Codec::Zlib
                        } else {
                            Codec::Brotli
                        };
                        if let Ok(decoded) = expansion(limits, deeper, codec, body) {
                            let grown = ParseStats {
                                expanded_bytes: (deeper.expanded_bytes + decoded.len()) as usize,
                                ..deeper
                            };
                            lemma_outcome_counts(limits, decoded, next_depth, grown, msgs);
                            let (s2, m2, f2) = frames_outcome(limits, decoded, next_depth, grown, msgs);
                            if f2 is None {
                                lemma_outcome_counts(limits, rest, depth, s2, m2);
                            }
                        }
                    }
                } else if operation == OP_MESSAGE && (protocol == PROTO_RAW || protocol == PROTO_HEARTBEAT) {
                    let (st, r) = chat_outcome(limits, counted, body);
                    match r {
                        Ok(Some(m)) => {
                            lemma_outcome_counts(limits, rest, depth, st, msgs.push(m));
                        },
                        Ok(None) => {
                            lemma_outcome_counts(limits, rest, depth, st, msgs);
                        },
                        Err(_) => {},
                    }
                } else {
                    lemma_outcome_counts(limits, rest, depth, counted, msgs);
                }
            }
        }
    }
}

/// Law: whatever the payload, a rejection never reports more decoded bytes
/// than the total expansion budget, and an accepted payload never yields more
/// than `max_messages` chat messages.
pub proof fn lemma_parse_respects_budget(limits: ParseLimits, bytes: Seq<u8>)
    ensures
        match frames_result(limits, bytes) {
            Ok(msgs) => msgs.len() <= limits.max_messages,
            Err((_, stats)) => stats.expanded_bytes <= limits.max_total_expanded_bytes,
        },
{
    if bytes.len() <= limits.max_input_bytes {
        lemma_outcome_counts(walk_limits(limits), bytes, 0, opening_stats(bytes.len()), Seq::empty());
    }
}

/// Law: frames are read one after another under one shared budget; a
/// payload that is a complete run of frames `a` followed by `b` is read as
/// `a`, then `b` from where `a` left the counters and messages.
pub proof fn lemma_frames_concatenate(
    limits: ParseLimits,
    a: Seq<u8>,
    b: Seq<u8>,
    depth: usize,
    stats: ParseStats,
    msgs: Seq<MessageView>,
)
    requires
        depth <= limits.max_nested_depth,
        limits.max_nested_depth < usize::MAX,
        frames_outcome(limits, a, depth, stats, msgs).2 is None,
    ensures
        ({
            let (s1, m1, _) = frames_outcome(limits, a, depth, stats, msgs);
            frames_outcome(limits, a + b, depth, stats, msgs) == frames_outcome(limits, b, depth, s1, m1)
        }),
    decreases a.len(),
{
    let ab = a + b;
    if a.len() == 0 {
        assert(ab =~= b);
    } else {
        assert(a.len() >= HEADER_SIZE);
        assert forall|k: int| 0 <= k < a.len() implies ab[k] == a[k] by {}
        assert(be32_at(ab, 0) == be32_at(a, 0));
        assert(be16_at(ab, 4) == be16_at(a, 4));
        assert(be16_at(ab, 6) == be16_at(a, 6));
        assert(be32_at(ab, 8) == be32_at(a, 8));
        let packet_size = be32_at(a, 0);
        let header_size = be16_at(a, 4);
        assert(ab.subrange(header_size as int, packet_size as int) =~= a.subrange(
            header_size as int,
            packet_size as int,
        ));
        let rest_a = a.subrange(packet_size as int, a.len() as int);
        assert(ab.subrange(packet_size as int, ab.len() as int) =~= rest_a + b);
        let counted = stats_with_frame(stats);
        let body = a.subrange(header_size as int, packet_size as int);
        let protocol = be16_at(a, 6);
        let operation = be32_at(a, 8);
        let (stats2, msgs2, failure) = if operation != OP_MESSAGE {
            (counted, msgs, None)
        } else if protocol == PROTO_ZLIB || protocol == PROTO_BROTLI {
            let next_depth = inc(depth);
            let deeper = stats_with_depth(counted, next_depth);
            if next_depth > limits.max_nested_depth {
                (deeper, msgs, Some(ParseFailure::Budget(BudgetLimit::NestedDepth)))
            } else {
                let codec = if protocol == PROTO_ZLIB {
                    Codec::Zlib
                } else {
                    Codec::Brotli
                };
                match expansion(limits, deeper, codec, body) {
                    Err(f) => (deeper, msgs, Some(f)),
                    Ok(decoded) => frames_outcome(
                        limits,
                        decoded,
                        next_depth,
                        ParseStats {
                            expanded_bytes: (deeper.expanded_bytes + decoded.len()) as usize,
                            ..deeper
                        },
                        msgs,
                    ),
                }
            }
        } else if protocol == PROTO_RAW || protocol == PROTO_HEARTBEAT {
            let (st, r) = chat_outcome(limits, counted, body);
            match r {
                Err(f) => (st, msgs, Some(f)),
                Ok(Some(m)) => (st, msgs.push(m), None),
                Ok(None) => (st, msgs, None),
            }
        } else {
            (counted, msgs, None)
        };
        lemma_frames_concatenate(limits, rest_a, b, depth, stats2, msgs2);
    }
}

/// Law: a frame whose operation is not a message is counted and skipped,
/// whatever its protocol and body.
pub proof fn lemma_other_operations_skipped(
    limits: ParseLimits,
    operation: u32,
    protocol: u16,
    body: Seq<u8>,
    depth: usize,
    stats: ParseStats,
    msgs: Seq<MessageView>,
)
    requires
        depth <= limits.max_nested_depth,
        limits.max_nested_depth < usize::MAX,
        operation != OP_MESSAGE,
        HEADER_SIZE + body.len() <= u32::MAX,
        stats_with_frame(stats).frames <= limits.max_frames,
    ensures
        frames_outcome(limits, packet_bytes(operation, protocol, body), depth, stats, msgs) == (
            stats_with_frame(stats),
            msgs,
            None::<ParseFailure>,
        ),
{
    let p = packet_bytes(operation, protocol, body);
    lemma_packet_header(operation, protocol, body);
    let rest = p.subrange(p.len() as int, p.len() as int);
    assert(frames_outcome(limits, rest, depth, stats_with_frame(stats), msgs) == (
        stats_with_frame(stats),
        msgs,
        None::<ParseFailure>,
    ));
}


/// Law: reading frames only ever appends: the messages gathered before are
/// kept, in order, at the front of those gathered after, whatever the
/// payload and however deeply it nests.
pub proof fn lemma_messages_only_appended(
    limits: ParseLimits,
    bytes: Seq<u8>,
    depth: usize,
    stats: ParseStats,
    msgs: Seq<MessageView>,
)
    requires
        depth <= limits.max_nested_depth,
        limits.max_nested_depth < usize::MAX,
    ensures
        ({
            let m = frames_outcome(limits, bytes, depth, stats, msgs).1;
            &&& msgs.len() <= m.len()
            &&& m.subrange(0, msgs.len() as int) == msgs
        }),
    decreases limits.max_nested_depth - depth, bytes.len(),
{
    let m = frames_outcome(limits, bytes, depth, stats, msgs).1;
    if bytes.len() >= HEADER_SIZE {
        let packet_size = be32_at(bytes, 0);
        let header_size = be16_at(bytes, 4);
        let protocol = be16_at(bytes, 6);
        let operation = be32_at(bytes, 8);
        if !(packet_size < header_size || header_size < HEADER_SIZE || packet_size > bytes.len()) {
            let counted = stats_with_frame(stats);
            if counted.frames <= limits.max_frames {
                let body = bytes.subrange(header_size as int, packet_size as int);
                let rest = bytes.subrange(packet_size as int, bytes.len() as int);
                if operation == OP_MESSAGE && (protocol == PROTO_ZLIB || protocol == PROTO_BROTLI) {
                    let next_depth = inc(depth);
                    let deeper = stats_with_depth(counted, next_depth);
                    if next_depth <= limits.max_nested_depth {
                        let codec = if protocol == PROTO_ZLIB {
                            Codec::Zlib
                        } else {
                            Codec::Brotli
                        };
                        if let Ok(decoded) = expansion(limits, deeper, codec, body) {
                            let grown = ParseStats {
                                expanded_bytes: (deeper.expanded_bytes + decoded.len()) as usize,
                                ..deeper
                            };
                            lemma_messages_only_appended(limits, decoded, next_depth, grown, msgs);
                            let (s2, m2, f2) = frames_outcome(limits, decoded, next_depth, grown, msgs);
                            if f2 is None {
                                lemma_messages_only_appended(limits, rest, depth, s2, m2);
                                assert(m.subrange(0, msgs.len() as int) =~= m.subrange(
                                    0,
                                    m2.len() as int,
                                ).subrange(0, msgs.len() as int));
                            }
                        }
                    }
                } else if operation == OP_MESSAGE && (protocol == PROTO_RAW || protocol
                    == PROTO_HEARTBEAT) {
                    let (st, r) = chat_outcome(limits, counted, body);
                    match r {
                        Ok(Some(x)) => {
                            lemma_messages_only_appended(limits, rest, depth, st, msgs.push(x));
                            assert(m.subrange(0, msgs.len() as int) =~= m.subrange(
                                0,
                                msgs.len() + 1int,
                            ).subrange(0, msgs.len() as int));
                        },
                        Ok(None) => {
                            lemma_messages_only_appended(limits, rest, depth, st, msgs);
                        },
                        Err(_) => {},
                    }
                } else {
                    lemma_messages_only_appended(limits, rest, depth, counted, msgs);
                }
            }
        }
    }
    assert(msgs.subrange(0, msgs.len() as int) =~= msgs);
}

/// Law: a compressed message packet reads as the run of frames its body
/// decompresses to, one level deeper: its messages come out as that run
/// gives them, in the same order, after those gathered before.
pub proof fn lemma_compressed_packet_reads_as_its_contents(
    limits: ParseLimits,
    protocol: u16,
    body: Seq<u8>,
    decoded: Seq<u8>,
    depth: usize,
    stats: ParseStats,
    msgs: Seq<MessageView>,
)
    requires
        protocol == PROTO_ZLIB || protocol == PROTO_BROTLI,
        depth < limits.max_nested_depth,
        limits.max_nested_depth < usize::MAX,
        HEADER_SIZE + body.len() <= u32::MAX,
        stats_with_frame(stats).frames <= limits.max_frames,
        expansion(
            limits,
            stats_with_depth(stats_with_frame(stats), (depth + 1) as usize),
            if protocol == PROTO_ZLIB {
                Codec::Zlib
            } else {
                Codec::Brotli
            },
            body,
        ) == Ok::<Seq<u8>, ParseFailure>(decoded),
    ensures
        ({
            let deeper = stats_with_depth(stats_with_frame(stats), (depth + 1) as usize);
            frames_outcome(limits, packet_bytes(OP_MESSAGE, protocol, body), depth, stats, msgs)
                == frames_outcome(
                limits,
                decoded,
                (depth + 1) as usize,
                ParseStats {
                    expanded_bytes: (deeper.expanded_bytes + decoded.len()) as usize,
                    ..deeper
                },
                msgs,
            )
        }),
{
    let p = packet_bytes(OP_MESSAGE, protocol, body);
    lemma_packet_header(OP_MESSAGE, protocol, body);
    let deeper = stats_with_depth(stats_with_frame(stats), (depth + 1) as usize);
    let grown = ParseStats { expanded_bytes: (deeper.expanded_bytes + decoded.len()) as usize, ..deeper };
    let rest = p.subrange(p.len() as int, p.len() as int);
    let (s2, m2, f2) = frames_outcome(limits, decoded, (depth + 1) as usize, grown, msgs);
    assert(frames_outcome(limits, rest, depth, s2, m2) == (s2, m2, None::<ParseFailure>));
}

/// Law: a raw message packet, as `build_packet` frames it, is counted as a
/// frame and read as the chat message its body holds, whatever that body.
pub proof fn lemma_raw_message_packet_read(
    limits: ParseLimits,
    body: Seq<u8>,
    depth: usize,
    stats: ParseStats,
    msgs: Seq<MessageView>,
)
    requires
        depth <= limits.max_nested_depth,
        limits.max_nested_depth < usize::MAX,
        HEADER_SIZE + body.len() <= u32::MAX,
        stats_with_frame(stats).frames <= limits.max_frames,
    ensures
        frames_outcome(limits, packet_bytes(OP_MESSAGE, PROTO_RAW, body), depth, stats, msgs) == ({
            let (st, r) = chat_outcome(limits, stats_with_frame(stats), body);
            match r {
                Err(f) => (st, msgs, Some(f)),
                Ok(Some(m)) => (st, msgs.push(m), None::<ParseFailure>),
                Ok(None) => (st, msgs, None::<ParseFailure>),
            }
        }),
{
    let p = packet_bytes(OP_MESSAGE, PROTO_RAW, body);
    lemma_packet_header(OP_MESSAGE, PROTO_RAW, body);
    let rest = p.subrange(p.len() as int, p.len() as int);
    let (st, r) = chat_outcome(limits, stats_with_frame(stats), body);
    match r {
        Err(f) => {},
        Ok(Some(m)) => {
            assert(frames_outcome(limits, rest, depth, st, msgs.push(m)) == (
                st,
                msgs.push(m),
                None::<ParseFailure>,
            ));
        },
        Ok(None) => {
            assert(frames_outcome(limits, rest, depth, st, msgs) == (st, msgs, None::<ParseFailure>));
        },
    }
}


// --------------------------------------------------------------- connection

/// The retry count after an attempt: back to 1 after a connection that was
/// established, otherwise one more, at most 6.
pub fn next_retry(retry: usize, connected: bool) -> (r: usize)
    ensures
        connected ==> r == 1,
        !connected ==> r == (if retry + 1 >= 6 { 6 } else { retry + 1 }),
{
    if connected {
        1
    } else {
        let bumped = retry.saturating_add(1);
        if bumped < 6 {
            bumped
        } else {
            6
        }
    }
}

/// The backoff before attempt `retry`: 1, 2, 4, 8, 16, then 30 seconds.
pub fn retry_delay_seconds(retry: usize) -> (r: u64)
    ensures
        retry <= 1 ==> r == 1,
        retry == 2 ==> r == 2,
        retry == 3 ==> r == 4,
        retry == 4 ==> r == 8,
        retry == 5 ==> r == 16,
        retry >= 6 ==> r == 30,
{
    let step = retry.saturating_sub(1);
    let step = if step < 5 {
        step
    } else {
        5
    };
    let delays: [u64; 6] = [1, 2, 4, 8, 16, 30];
    delays[step]
}

/// The status published while a connection is being retried.
pub fn reconnecting_status(connection: &DanmakuConnection) -> (r: DanmakuStatus)
    ensures
        r.connection_id matches Some(id) && id@ == connection.connection_id@,
        r.room_id == Some(connection.room_id),
        r.state == DanmakuConnectionState::Reconnecting,
        r.message matches Some(m) && m@ == "连接中断，正在重试。"@,
{
    DanmakuStatus {
        connection_id: Some(connection.connection_id.clone()),
        room_id: Some(connection.room_id),
        state: DanmakuConnectionState::Reconnecting,
        message: Some(String::from_str("连接中断，正在重试。")),
    }
}

/// The status published once a connection is authenticated.
pub fn connected_status(connection: &DanmakuConnection) -> (r: DanmakuStatus)
    ensures
        r.connection_id matches Some(id) && id@ == connection.connection_id@,
        r.room_id == Some(connection.room_id),
        r.state == DanmakuConnectionState::Connected,
        r.message is None,
{
    DanmakuStatus {
        connection_id: Some(connection.connection_id.clone()),
        room_id: Some(connection.room_id),
        state: DanmakuConnectionState::Connected,
        message: None,
    }
}

/// The event record of a chat message received on `connection` at `sent_at`.
pub fn danmaku_message(connection: &DanmakuConnection, parsed: ParsedMessage, sent_at: u64) -> (r:
    DanmakuMessage)
    ensures
        r.connection_id@ == connection.connection_id@,
        r.room_id == connection.room_id,
        r.sender_name == parsed.sender_name,
        r.text == parsed.text,
        r.sent_at == sent_at,
{
    DanmakuMessage {
        connection_id: connection.connection_id.clone(),
        room_id: connection.room_id,
        sender_name: parsed.sender_name,
        text: parsed.text,
        sent_at,
    }
}

/// What the connection does first with an incoming binary payload.
pub enum AuthStep {
    /// The server accepted the login: the connection is now established.
    Accepted,
    /// The server refused the login: end this connection.
    Refused,
    /// No answer to the login, or the login is done: read it as frames.
    Frames,
}

/// The first step for a binary payload, given whether the server already
/// accepted the login: until it has, an answer to the login decides whether
/// the connection is established or ended, and nothing else is.
pub fn auth_step(authenticated: bool, payload: &[u8]) -> (r: AuthStep)
    ensures
        authenticated ==> r is Frames,
        !authenticated ==> match auth_reply_of(payload@) {
            Some(true) => r is Accepted,
            Some(false) => r is Refused,
            None => r is Frames,
        },
{
    if authenticated {
        return AuthStep::Frames;
    }
    match auth_reply(payload) {
        Some(true) => AuthStep::Accepted,
        Some(false) => AuthStep::Refused,
        None => AuthStep::Frames,
    }
}

/// What the connection does with an incoming binary payload.
pub enum PayloadStep {
    /// Publish these chat messages, in order.
    Deliver(Vec<ParsedMessage>),
    /// Drop the payload (it went over a budget) and read on.
    Skip,
    /// The stream is broken: end this connection and retry.
    Reconnect,
}

/// The step for a binary payload after parsing it: its messages, or, when
/// it was rejected, a skip for a payload over budget and a reconnect for a
/// malformed one.
pub fn binary_payload_step(parsed: Result<Vec<ParsedMessage>, ParseError>) -> (r: PayloadStep)
    ensures
        match parsed {
            Ok(ms) => r == PayloadStep::Deliver(ms),
            Err(e) => if e.failure is Budget {
                r is Skip
            } else {
                r is Reconnect
            },
        },
{
    match parsed {
        Ok(messages) => PayloadStep::Deliver(messages),
        Err(error) => if error.is_budget_exceeded() {
            PayloadStep::Skip
        } else {
            PayloadStep::Reconnect
        },
    }
}

/// The message a text payload carries, if any; a rejected text payload is
/// dropped and the connection reads on.
pub fn text_payload_message(parsed: Result<Option<ParsedMessage>, ParseError>) -> (r: Option<
    ParsedMessage,
>)
    ensures
        match parsed {
            Ok(m) => r == m,
            Err(_) => r is None,
        },
{
    match parsed {
        Ok(message) => message,
        Err(_) => None,
    }
}

/// What the first frame of `bytes` says of the authentication: `None`
/// where it is not a well-formed authentication reply; otherwise whether its
/// body is a JSON document whose `code` is 0.
pub open spec fn auth_reply_of(bytes: Seq<u8>) -> Option<bool> {
    if bytes.len() < HEADER_SIZE {
        None
    } else {
        let packet_size = be32_at(bytes, 0);
        let header_size = be16_at(bytes, 4);
        let operation = be32_at(bytes, 8);
        if packet_size < header_size || header_size < HEADER_SIZE || packet_size > bytes.len()
            || operation != OP_AUTH_REPLY {
            None
        } else {
            Some(
                match json_document(bytes.subrange(header_size as int, packet_size as int)) {
                    Some(doc) => member(doc, "code"@) == Some(Json::Number(Some(0i64))),
                    None => false,
                },
            )
        }
    }
}

/// Reads the server's answer to the authentication packet: the connection
/// counts as established only once it accepts.
pub fn auth_reply(bytes: &[u8]) -> (r: Option<bool>)
    ensures
        r == auth_reply_of(bytes@),
{
    if bytes.len() < HEADER_SIZE {
        return None;
    }
    let packet_size = read_be32(bytes, 0) as usize;
    let header_size = read_be16(bytes, 4) as usize;
    let operation = read_be32(bytes, 8);
    if packet_size < header_size || header_size < HEADER_SIZE || packet_size > bytes.len()
        || operation != OP_AUTH_REPLY {
        return None;
    }
    let body = &bytes[header_size..packet_size];
    assert(body@ == bytes@.subrange(header_size as int, packet_size as int));
    let accepted = match decode_json(body) {
        Some(doc) => match get_member(&doc, "code") {
            Some(Json::Number(Some(code))) => *code == 0,
            _ => false,
        },
        None => false,
    };
    proof {
        reveal_strlit("code");
    }
    Some(accepted)
}

} // verus!
