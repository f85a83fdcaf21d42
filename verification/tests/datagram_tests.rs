use sockecho::datagram::{build_datagram_reply, datagram_step, zero_fill, DatagramAction};

#[test]
fn reply_echoes_short_text_and_count() {
    let payload = b"hello".to_vec();
    let r = build_datagram_reply(&payload);
    assert_eq!(
        r,
        "Server response: Successfully received your message \"hello\" (5 bytes)"
    );
}

#[test]
fn reply_marks_non_utf8_payload() {
    let payload = vec![0xffu8, 0xfe, 0x80];
    let r = build_datagram_reply(&payload);
    assert!(r.contains("non-UTF8 data"));
    assert_eq!(
        r,
        "Server response: Successfully received your message \"non-UTF8 data\" (3 bytes)"
    );
}

#[test]
fn reply_truncates_preview_to_fifty_units() {
    let payload = vec![b'a'; 60];
    let r = build_datagram_reply(&payload);
    let expected_preview: String = std::iter::repeat('a').take(50).collect();
    let expected = format!(
        "Server response: Successfully received your message \"{}\" (60 bytes)",
        expected_preview
    );
    assert_eq!(r, expected);
}

#[test]
fn reply_counts_preview_in_characters_not_bytes() {
    // 55 two-byte characters: 110 bytes, 55 characters; the preview
    // keeps 50 characters while the count reports all 110 bytes.
    let text: String = std::iter::repeat('\u{e9}').take(55).collect();
    let payload = text.as_bytes().to_vec();
    let expected_preview: String = std::iter::repeat('\u{e9}').take(50).collect();
    let expected = format!(
        "Server response: Successfully received your message \"{}\" (110 bytes)",
        expected_preview
    );
    assert_eq!(build_datagram_reply(&payload), expected);
}

#[test]
fn reply_keeps_whole_text_under_limit() {
    // 30 two-byte characters: 60 bytes but only 30 characters, so
    // nothing is truncated.
    let text: String = std::iter::repeat('\u{e9}').take(30).collect();
    let payload = text.as_bytes().to_vec();
    let expected = format!(
        "Server response: Successfully received your message \"{}\" (60 bytes)",
        text
    );
    assert_eq!(build_datagram_reply(&payload), expected);
}

#[test]
fn step_without_sender_sends_nothing() {
    let payload = b"hello".to_vec();
    let a = datagram_step(&payload, false);
    assert!(matches!(a, DatagramAction::IgnoreNoSender));
}

#[test]
fn step_on_empty_payload_sends_nothing() {
    let payload = Vec::new();
    let a = datagram_step(&payload, true);
    assert!(matches!(a, DatagramAction::IgnoreEmpty));
}

#[test]
fn step_replies_to_addressed_payload() {
    let payload = b"ping".to_vec();
    match datagram_step(&payload, true) {
        DatagramAction::Reply(r) => {
            assert_eq!(
                r,
                "Server response: Successfully received your message \"ping\" (4 bytes)"
            );
        }
        _ => panic!("expected a reply"),
    }
}

#[test]
fn buffer_reset_zeroes_every_byte() {
    let mut buf = vec![1u8, 2, 3, 255];
    zero_fill(&mut buf);
    assert_eq!(buf, vec![0u8, 0, 0, 0]);
}

#[test]
fn buffer_reset_keeps_length() {
    let mut buf = vec![9u8; 4096];
    zero_fill(&mut buf);
    assert_eq!(buf.len(), 4096);
    assert!(buf.iter().all(|b| *b == 0));
}
