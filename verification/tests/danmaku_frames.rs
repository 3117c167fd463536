use std::io::Write;

use brotli::CompressorWriter;
use flate2::{write::ZlibEncoder, Compression};

use nanabobo::danmaku::{
    auth_reply, auth_step, build_packet, AuthStep, OP_AUTH_REPLY, danmaku_parse_limits, parse_frames, parse_frames_with_limits,
    parse_text_message, BudgetLimit, ParseFailure, ParseLimits, OP_MESSAGE, PROTO_BROTLI,
    PROTO_HEARTBEAT, PROTO_RAW, PROTO_ZLIB,
};

fn test_limits() -> ParseLimits {
    ParseLimits {
        max_input_bytes: 256 * 1024,
        max_expanded_bytes_per_frame: 64 * 1024,
        max_total_expanded_bytes: 128 * 1024,
        max_nested_depth: 4,
        max_frames: 128,
        max_messages: 64,
        max_sender_name_bytes: 64,
        max_message_text_bytes: 256,
    }
}

fn chat_json(sender_name: &str, text: &str) -> Vec<u8> {
    format!(
        "{{\"cmd\":\"DANMU_MSG\",\"info\":[null,\"{}\",[123,\"{}\"]]}}",
        text, sender_name
    )
    .into_bytes()
}

fn chat_packet(sender_name: &str, text: &str) -> Vec<u8> {
    build_packet(OP_MESSAGE, PROTO_RAW, &chat_json(sender_name, text))
}

fn zlib_packet(inner: &[u8]) -> Vec<u8> {
    let mut encoder = ZlibEncoder::new(Vec::new(), Compression::default());
    encoder.write_all(inner).unwrap();
    build_packet(OP_MESSAGE, PROTO_ZLIB, &encoder.finish().unwrap())
}

fn brotli_packet(inner: &[u8]) -> Vec<u8> {
    let mut encoded = Vec::new();
    {
        let mut writer = CompressorWriter::new(&mut encoded, 4096, 5, 22);
        writer.write_all(inner).unwrap();
    }
    build_packet(OP_MESSAGE, PROTO_BROTLI, &encoded)
}

fn ignored_frame(body_bytes: usize) -> Vec<u8> {
    build_packet(0, PROTO_RAW, &vec![0; body_bytes])
}

#[test]
fn preserves_normal_raw_compressed_text_and_heartbeat_messages() {
    let chat = chat_packet("观众", "你好");
    let mut heartbeat_then_chat = build_packet(3, PROTO_HEARTBEAT, &42u32.to_be_bytes());
    heartbeat_then_chat.extend_from_slice(&chat);

    for packet in [
        chat.clone(),
        zlib_packet(&chat),
        brotli_packet(&chat),
        heartbeat_then_chat,
    ] {
        let messages = parse_frames(&packet).unwrap();
        assert_eq!(messages.len(), 1);
        assert_eq!(messages[0].sender_name, "观众");
        assert_eq!(messages[0].text, "你好");
    }
    assert_eq!(
        parse_text_message(&chat_json("观众", "你好"))
            .unwrap()
            .unwrap()
            .text,
        "你好"
    );
}

#[test]
fn distinguishes_invalid_frames_from_budget_rejections() {
    let invalid = parse_frames(&[0, 1, 2]).unwrap_err();
    assert_eq!(invalid.failure, ParseFailure::InvalidFrame);
    assert!(!invalid.is_budget_exceeded());

    let packet = chat_packet("观众", "你好");
    let mut limits = test_limits();
    limits.max_input_bytes = packet.len() - 1;
    let error = parse_frames_with_limits(&packet, limits).unwrap_err();

    assert_eq!(error.failure, ParseFailure::Budget(BudgetLimit::InputBytes));
    assert_eq!(error.stats.frames, 0);
    assert!(error.is_budget_exceeded());
}

#[test]
fn enforces_nested_depth_across_zlib_and_brotli() {
    let chat = chat_packet("观众", "你好");
    let depth_two = brotli_packet(&zlib_packet(&chat));
    let mut limits = test_limits();
    limits.max_nested_depth = 2;
    assert_eq!(parse_frames_with_limits(&depth_two, limits).unwrap().len(), 1);

    let depth_three = zlib_packet(&depth_two);
    let error = parse_frames_with_limits(&depth_three, limits).unwrap_err();

    assert_eq!(error.failure, ParseFailure::Budget(BudgetLimit::NestedDepth));
}

#[test]
fn shares_total_expansion_budget_across_sibling_frames() {
    let compressed = zlib_packet(&ignored_frame(700));
    let mut packet = compressed.clone();
    packet.extend_from_slice(&compressed);
    let mut limits = test_limits();
    limits.max_expanded_bytes_per_frame = 1024;
    limits.max_total_expanded_bytes = 1000;

    let error = parse_frames_with_limits(&packet, limits).unwrap_err();

    assert_eq!(
        error.failure,
        ParseFailure::Budget(BudgetLimit::ExpandedTotalBytes)
    );
    assert!(error.stats.expanded_bytes <= limits.max_total_expanded_bytes);
}

#[test]
fn stops_zlib_and_brotli_bombs_at_the_streaming_frame_limit() {
    let expanded = ignored_frame(32 * 1024);
    let mut limits = test_limits();
    limits.max_expanded_bytes_per_frame = 1024;
    limits.max_total_expanded_bytes = 8 * 1024;

    for packet in [zlib_packet(&expanded), brotli_packet(&expanded)] {
        assert!(packet.len() < expanded.len());
        let error = parse_frames_with_limits(&packet, limits).unwrap_err();
        assert_eq!(
            error.failure,
            ParseFailure::Budget(BudgetLimit::ExpandedFrameBytes)
        );
        assert!(error.stats.expanded_bytes <= limits.max_expanded_bytes_per_frame);
    }
}

#[test]
fn bounds_frame_and_compressed_message_floods() {
    let frame = build_packet(3, PROTO_HEARTBEAT, &[]);
    let mut frames = frame.repeat(3);
    let mut limits = test_limits();
    limits.max_frames = 3;
    assert!(parse_frames_with_limits(&frames, limits).unwrap().is_empty());
    frames.extend_from_slice(&frame);
    assert_eq!(
        parse_frames_with_limits(&frames, limits).unwrap_err().failure,
        ParseFailure::Budget(BudgetLimit::Frames)
    );

    let chat = chat_packet("观众", "你好");
    let mut messages = chat.repeat(3);
    let mut limits = test_limits();
    limits.max_messages = 3;
    assert_eq!(
        parse_frames_with_limits(&zlib_packet(&messages), limits)
            .unwrap()
            .len(),
        3
    );
    messages.extend_from_slice(&chat);
    assert_eq!(
        parse_frames_with_limits(&zlib_packet(&messages), limits)
            .unwrap_err()
            .failure,
        ParseFailure::Budget(BudgetLimit::Messages)
    );
}

#[test]
fn enforces_utf8_field_limits_without_exposing_values() {
    let mut limits = test_limits();
    limits.max_sender_name_bytes = "观众".len();
    let rejected_name = "观众甲";
    let name_error =
        parse_frames_with_limits(&chat_packet(rejected_name, "你好"), limits).unwrap_err();
    limits.max_message_text_bytes = "你好".len();
    let text_error = parse_frames_with_limits(&chat_packet("观众", "你好啊"), limits).unwrap_err();

    assert_eq!(
        name_error.failure,
        ParseFailure::Budget(BudgetLimit::SenderNameBytes)
    );
    assert_eq!(
        text_error.failure,
        ParseFailure::Budget(BudgetLimit::MessageTextBytes)
    );
    assert!(!format!("{name_error:?}").contains(rejected_name));

    let long_name = "a".repeat(danmaku_parse_limits().max_sender_name_bytes + 1);
    assert_eq!(
        parse_text_message(&chat_json(&long_name, "你好"))
            .unwrap_err()
            .failure,
        ParseFailure::Budget(BudgetLimit::SenderNameBytes)
    );
}

fn escaped_chat_packet() -> Vec<u8> {
    build_packet(
        OP_MESSAGE,
        PROTO_RAW,
        br#"{"cmd":"DANMU_MSG","info":[null,"\u4f60\u597d",[123,"\u89c2\u4f17"]]}"#,
    )
}

#[test]
fn parses_public_chat_messages_without_exposing_raw_payload() {
    let messages = parse_frames(&escaped_chat_packet()).unwrap();
    assert_eq!(messages[0].sender_name, "观众");
    assert_eq!(messages[0].text, "你好");
}

#[test]
fn parses_zlib_wrapped_frames() {
    let mut encoder = ZlibEncoder::new(Vec::new(), Compression::default());
    encoder.write_all(&escaped_chat_packet()).unwrap();
    let packet = build_packet(OP_MESSAGE, PROTO_ZLIB, &encoder.finish().unwrap());
    let messages = parse_frames(&packet).unwrap();
    assert_eq!(messages[0].text, "你好");
}

#[test]
fn parses_brotli_wrapped_frames() {
    let mut encoded = Vec::new();
    {
        let mut writer = CompressorWriter::new(&mut encoded, 4096, 5, 22);
        writer.write_all(&escaped_chat_packet()).unwrap();
        writer.flush().unwrap();
    }
    let packet = build_packet(OP_MESSAGE, PROTO_BROTLI, &encoded);
    let messages = parse_frames(&packet).unwrap();
    assert_eq!(messages[0].sender_name, "观众");
}

#[test]
fn rejects_truncated_frames() {
    assert!(parse_frames(&[0, 1, 2]).is_err());
}

#[test]
fn packet_header_spells_size_header_protocol_operation_and_sequence() {
    let packet = build_packet(OP_MESSAGE, PROTO_ZLIB, &[9, 8, 7]);
    assert_eq!(
        packet,
        vec![0, 0, 0, 19, 0, 16, 0, 2, 0, 0, 0, 5, 0, 0, 0, 1, 9, 8, 7]
    );
}

#[test]
fn frames_of_other_operations_are_skipped() {
    let mut packet = build_packet(8, PROTO_RAW, b"{}");
    packet.extend_from_slice(&chat_packet("A", "b"));
    let messages = parse_frames(&packet).unwrap();
    assert_eq!(messages.len(), 1);
    assert_eq!(messages[0].sender_name, "A");
}

#[test]
fn chat_json_of_other_commands_gives_no_message() {
    assert!(parse_text_message(b"{\"cmd\":\"INTERACT_WORD\"}")
        .unwrap()
        .is_none());
}

#[test]
fn the_connection_is_established_only_by_an_accepting_auth_reply() {
    assert_eq!(
        auth_reply(&build_packet(OP_AUTH_REPLY, PROTO_HEARTBEAT, b"{\"code\":0}")),
        Some(true)
    );
    assert_eq!(
        auth_reply(&build_packet(OP_AUTH_REPLY, PROTO_RAW, b"{\"code\":-101}")),
        Some(false)
    );
    assert_eq!(
        auth_reply(&build_packet(OP_AUTH_REPLY, PROTO_RAW, b"not json")),
        Some(false)
    );
    assert_eq!(auth_reply(&chat_packet("A", "b")), None);
    assert_eq!(auth_reply(&[0, 0, 0, 16]), None);
}

#[test]
fn only_an_answer_to_the_login_decides_the_connection() {
    let accept = build_packet(OP_AUTH_REPLY, PROTO_RAW, b"{\"code\":0}");
    let refuse = build_packet(OP_AUTH_REPLY, PROTO_RAW, b"{\"code\":-101}");
    assert!(matches!(auth_step(false, &accept), AuthStep::Accepted));
    assert!(matches!(auth_step(false, &refuse), AuthStep::Refused));
    assert!(matches!(auth_step(false, &chat_packet("A", "b")), AuthStep::Frames));
    assert!(matches!(auth_step(true, &accept), AuthStep::Frames));
    assert!(matches!(auth_step(true, &refuse), AuthStep::Frames));
}

#[test]
fn limits_at_the_machine_maximum_parse_like_any_others() {
    let mut limits = test_limits();
    limits.max_nested_depth = usize::MAX;
    limits.max_messages = usize::MAX;
    let messages = parse_frames_with_limits(&zlib_packet(&chat_packet("读者", "你好")), limits).unwrap();
    assert_eq!(messages.len(), 1);
    assert_eq!(messages[0].sender_name, "读者");
    assert_eq!(messages[0].text, "你好");
}
