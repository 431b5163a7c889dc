use ingest::challenge::challenge_text;
use ingest::challenge::generate_hmac;
use ingest::command::Rejection;
use ingest::coordinator::allocated_port;
use ingest::coordinator::allocation_url;
use ingest::coordinator::port_from_member;
use ingest::coordinator::release_url;
use ingest::coordinator::stream_end_message;
use ingest::coordinator::stream_start_message;
use ingest::coordinator::ALLOCATOR_VARIABLE;
use ingest::coordinator::AUTHORITY_ENDPOINT;
use ingest::coordinator::DEFAULT_ALLOCATOR;
use ingest::state::ConnectionState;
use ingest::state::LogLine;
use ingest::state::Severity;
use ingest::text::push_decimal;
use ingest::text::text_is;

fn info(text: &str) -> LogLine {
    LogLine { level: Severity::Info, text: text.to_string() }
}

fn warn(text: &str) -> LogLine {
    LogLine { level: Severity::Warn, text: text.to_string() }
}

#[test]
fn new_state_has_nothing_set() {
    let state = ConnectionState::new();
    assert_eq!(state.hmac_payload, None);
    assert_eq!(state.protocol_version, None);
    assert_eq!(state.vendor_name, None);
    assert_eq!(state.vendor_version, None);
    assert!(!state.video);
    assert_eq!(state.video_codec, None);
    assert_eq!(state.video_height, None);
    assert_eq!(state.video_width, None);
    assert_eq!(state.video_payload_type, None);
    assert_eq!(state.video_ingest_ssrc, None);
    assert!(!state.audio);
    assert_eq!(state.audio_codec, None);
    assert_eq!(state.audio_payload_type, None);
    assert_eq!(state.audio_ingest_ssrc, None);
    assert_eq!(state.stream_key, None);
    assert_eq!(state.rtp_port, None);
}

#[test]
fn payload_of_a_new_state_is_empty() {
    assert_eq!(ConnectionState::new().get_payload(), "");
}

#[test]
fn payload_is_returned_as_stored() {
    let mut state = ConnectionState::new();
    state.hmac_payload = Some("00ff".to_string());
    assert_eq!(state.get_payload(), "00ff");
}

#[test]
fn set_attribute_updates_one_field() {
    let mut state = ConnectionState::new();
    assert_eq!(state.set_attribute(&"VideoHeight".to_string(), "720".to_string()), Ok(()));
    assert_eq!(state.video_height, Some("720".to_string()));
    assert_eq!(state.video_width, None);
}

#[test]
fn set_attribute_rejects_what_it_does_not_know() {
    let mut state = ConnectionState::new();
    assert_eq!(
        state.set_attribute(&"Bitrate".to_string(), "1".to_string()),
        Err(Rejection::UnknownAttribute)
    );
    assert_eq!(
        state.set_attribute(&"Video".to_string(), "yes".to_string()),
        Err(Rejection::InvalidVideoValue)
    );
    assert_eq!(
        state.set_attribute(&"Audio".to_string(), "no".to_string()),
        Err(Rejection::InvalidAudioValue)
    );
    assert!(!state.video);
    assert!(!state.audio);
}

#[test]
fn snapshot_of_a_new_state_reports_every_field_missing() {
    let lines = ConnectionState::new().print();
    assert_eq!(
        lines,
        vec![
            warn("Protocol Version: None"),
            warn("Vendor Name: None"),
            warn("Vendor Version: None"),
            info("Video: false"),
            warn("Video Codec: None"),
            warn("Video Height: None"),
            warn("Video Width: None"),
            warn("Video Payload Type: None"),
            warn("Video Ingest SSRC: None"),
            info("Audio: false"),
            warn("Audio Codec: None"),
            warn("Audio Payload Type: None"),
            warn("Audio Ingest SSRC: None"),
        ]
    );
}

#[test]
fn snapshot_reports_set_fields_with_their_values() {
    let mut state = ConnectionState::new();
    state.protocol_version = Some("0.9".to_string());
    state.vendor_name = Some("OBS Studio".to_string());
    state.vendor_version = Some("27.0".to_string());
    state.video = true;
    state.video_codec = Some("H264".to_string());
    state.video_height = Some("720".to_string());
    state.video_width = Some("1280".to_string());
    state.video_payload_type = Some("96".to_string());
    state.video_ingest_ssrc = Some("1235".to_string());
    state.audio = true;
    state.audio_codec = Some("OPUS".to_string());
    state.audio_payload_type = Some("97".to_string());
    state.audio_ingest_ssrc = Some("1234".to_string());
    assert_eq!(
        state.print(),
        vec![
            info("Protocol Version: 0.9"),
            info("Vendor Name: OBS Studio"),
            info("Vendor Version: 27.0"),
            info("Video: true"),
            info("Video Codec: H264"),
            info("Video Height: 720"),
            info("Video Width: 1280"),
            info("Video Payload Type: 96"),
            info("Video Ingest SSRC: 1235"),
            info("Audio: true"),
            info("Audio Codec: OPUS"),
            info("Audio Payload Type: 97"),
            info("Audio Ingest SSRC: 1234"),
        ]
    );
}

#[test]
fn snapshot_tells_an_empty_value_from_a_missing_one() {
    let mut state = ConnectionState::new();
    state.audio_codec = Some(String::new());
    let lines = state.print();
    assert_eq!(lines[10], info("Audio Codec: "));
    assert_eq!(lines[11], warn("Audio Payload Type: None"));
}

#[test]
fn challenge_text_is_lowercase_hex_high_half_first() {
    assert_eq!(challenge_text(&[0x00, 0x0f, 0x10, 0xab, 0xfe, 0x9c]), "000f10abfe9c");
    assert_eq!(challenge_text(&[]), "");
    assert_eq!(challenge_text(b"Hello world!"), "48656c6c6f20776f726c6421");
}

#[test]
fn generated_challenge_has_256_lowercase_hex_characters() {
    for _ in 0..20 {
        let payload = generate_hmac();
        assert_eq!(payload.chars().count(), 256);
        assert!(payload.chars().all(|c| matches!(c, '0'..='9' | 'a'..='f')));
    }
}

#[test]
fn generated_challenge_never_spells_the_byte_ff() {
    for _ in 0..50 {
        let payload = generate_hmac();
        let bytes = payload.as_bytes();
        for pair in 0..128 {
            assert_ne!(&bytes[2 * pair..2 * pair + 2], b"ff");
        }
    }
}

#[test]
fn generated_challenges_differ() {
    assert_ne!(generate_hmac(), generate_hmac());
}

#[test]
fn start_message_holds_the_stream_key() {
    assert_eq!(stream_start_message("abc123"), "{\"stream_key\":\"abc123\"}");
}

#[test]
fn end_message_holds_the_stream_key_and_the_status() {
    assert_eq!(stream_end_message("abc123"), "{\"stream_key\":\"abc123\",\"status\":\"ended\"}");
}

#[test]
fn messages_escape_the_stream_key() {
    assert_eq!(stream_start_message("a\"b\\c\n"), "{\"stream_key\":\"a\\\"b\\\\c\\n\"}");
    let parsed: serde_json::Value =
        serde_json::from_str(&stream_end_message("a\"b\\c\n")).expect("valid JSON");
    assert_eq!(parsed.get("stream_key").and_then(|v| v.as_str()), Some("a\"b\\c\n"));
    assert_eq!(parsed.get("status").and_then(|v| v.as_str()), Some("ended"));
}

#[test]
fn allocation_url_uses_the_configured_base() {
    assert_eq!(allocation_url(Some("http://alloc.example:9000")), "http://alloc.example:9000/stream");
}

#[test]
fn allocation_url_falls_back_to_the_local_default() {
    assert_eq!(allocation_url(None), "http://localhost:8080/stream");
    assert_eq!(DEFAULT_ALLOCATOR, "http://localhost:8080");
    assert_eq!(ALLOCATOR_VARIABLE, "WEBRTC_SERVER_URL");
    assert_eq!(AUTHORITY_ENDPOINT, "wss://meow.com/stream/auth");
}

#[test]
fn release_url_names_the_port() {
    assert_eq!(release_url(None, 5000), "http://localhost:8080/stream?port=5000");
    assert_eq!(release_url(Some("http://a"), 0), "http://a/stream?port=0");
    assert_eq!(release_url(Some("http://a"), 65535), "http://a/stream?port=65535");
}

#[test]
fn allocated_port_reads_the_port_member() {
    assert_eq!(allocated_port(b"{\"port\": 5000}"), Some(5000));
    assert_eq!(allocated_port(b"{\"id\":\"x\",\"port\":0}"), Some(0));
    assert_eq!(allocated_port(b"{\"port\":65535}"), Some(65535));
}

#[test]
fn allocated_port_is_none_for_a_malformed_answer() {
    assert_eq!(allocated_port(b""), None);
    assert_eq!(allocated_port(b"not json"), None);
    assert_eq!(allocated_port(b"{\"port\": 5000"), None);
    assert_eq!(allocated_port(b"{\"port\": 5000} trailing"), None);
    assert_eq!(allocated_port(&[0xff, 0xfe]), None);
}

#[test]
fn allocated_port_is_none_without_a_numeric_port() {
    assert_eq!(allocated_port(b"{}"), None);
    assert_eq!(allocated_port(b"{\"Port\": 5000}"), None);
    assert_eq!(allocated_port(b"{\"port\": \"5000\"}"), None);
    assert_eq!(allocated_port(b"{\"port\": -1}"), None);
    assert_eq!(allocated_port(b"{\"port\": 5000.5}"), None);
    assert_eq!(allocated_port(b"{\"port\": null}"), None);
    assert_eq!(allocated_port(b"[5000]"), None);
    assert_eq!(allocated_port(b"5000"), None);
}

#[test]
fn allocated_port_is_none_outside_the_port_range() {
    assert_eq!(allocated_port(b"{\"port\": 65536}"), None);
    assert_eq!(allocated_port(b"{\"port\": 70000}"), None);
    assert_eq!(allocated_port(b"{\"port\": 18446744073709551615}"), None);
    assert_eq!(port_from_member(Some(65536)), None);
    assert_eq!(port_from_member(Some(70000)), None);
    assert_eq!(port_from_member(Some(u64::MAX)), None);
}

#[test]
fn port_from_member_keeps_every_port_number() {
    assert_eq!(port_from_member(Some(0)), Some(0));
    assert_eq!(port_from_member(Some(5000)), Some(5000));
    assert_eq!(port_from_member(Some(65535)), Some(65535));
    assert_eq!(port_from_member(None), None);
}

#[test]
fn decimal_is_appended_without_leading_zeros() {
    for (number, digits) in
        [(0u16, "0"), (7, "7"), (10, "10"), (99, "99"), (100, "100"), (5000, "5000"), (65535, "65535")]
    {
        let mut out = String::from("port=");
        push_decimal(&mut out, number);
        assert_eq!(out, format!("port={}", digits));
    }
}

#[test]
fn decimal_agrees_with_the_standard_rendering() {
    for number in 0..=u16::MAX {
        let mut out = String::new();
        push_decimal(&mut out, number);
        assert_eq!(out, number.to_string());
    }
}

#[test]
fn text_is_compares_whole_texts() {
    assert!(text_is(&"Video".to_string(), "Video"));
    assert!(!text_is(&"Video".to_string(), "video"));
    assert!(!text_is(&"Video".to_string(), "VideoCodec"));
    assert!(text_is(&String::new(), ""));
}
