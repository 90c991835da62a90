use beam::clipboard::{
    cf_unicodetext_to_text, on_format_data_request, on_format_data_response, on_remote_copy,
    on_request_format_list, text_to_cf_unicodetext, ClipboardBackendMsg, ClipboardBridge,
};

fn round_trip(text: &str) -> String {
    cf_unicodetext_to_text(&text_to_cf_unicodetext(text))
}

#[test]
fn text_is_little_endian_utf16_with_a_terminator() {
    assert_eq!(text_to_cf_unicodetext("aé"), vec![0x61, 0, 0xE9, 0, 0, 0]);
    assert_eq!(text_to_cf_unicodetext(""), vec![0, 0]);
}

#[test]
fn characters_beyond_the_basic_plane_become_surrogate_pairs() {
    // U+1F600 is D83D DE00.
    assert_eq!(
        text_to_cf_unicodetext("\u{1F600}"),
        vec![0x3D, 0xD8, 0x00, 0xDE, 0, 0]
    );
    assert_eq!(
        text_to_cf_unicodetext("\u{10FFFF}"),
        vec![0xFF, 0xDB, 0xFF, 0xDF, 0, 0]
    );
    assert_eq!(round_trip("a\u{1F600}\u{10000}\u{10FFFF}z"), "a\u{1F600}\u{10000}\u{10FFFF}z");
}

#[test]
fn encoding_agrees_with_the_standard_library() {
    let text = "ol\u{e1} \u{4e16}\u{754c} \u{1F680}\u{FFFD}\u{FFFF}\u{E000}";
    let mut expected: Vec<u8> = text.encode_utf16().flat_map(|u| u.to_le_bytes()).collect();
    expected.extend_from_slice(&[0, 0]);
    assert_eq!(text_to_cf_unicodetext(text), expected);
}

#[test]
fn decoding_agrees_with_the_standard_library() {
    let units: Vec<u16> = vec![
        0x41, 0xD800, 0x42, 0xDC00, 0xD83D, 0xDE00, 0xD800, 0xD800, 0xDC00, 0xDFFF, 0xE000, 0xD800,
    ];
    let bytes: Vec<u8> = units.iter().flat_map(|u| u.to_le_bytes()).collect();
    assert_eq!(cf_unicodetext_to_text(&bytes), String::from_utf16_lossy(&units));
}

#[test]
fn line_feeds_go_out_as_crlf() {
    assert_eq!(text_to_cf_unicodetext("\n"), vec![13, 0, 10, 0, 0, 0]);
    assert_eq!(text_to_cf_unicodetext("\r\n"), vec![13, 0, 10, 0, 0, 0]);
    assert_eq!(text_to_cf_unicodetext("\r"), vec![13, 0, 0, 0]);
}

#[test]
fn every_outgoing_line_feed_follows_a_carriage_return() {
    for text in ["a\nb\r\nc", "\n\n", "\r\r\n", "\n\r", ""] {
        let bytes = text_to_cf_unicodetext(text);
        for i in (0..bytes.len()).step_by(2) {
            if bytes[i] == 10 && bytes[i + 1] == 0 {
                assert!(i >= 2 && bytes[i - 2] == 13 && bytes[i - 1] == 0);
            }
        }
    }
}

#[test]
fn clipboard_round_trip_normalizes_line_endings() {
    assert_eq!(round_trip("a\r\nb\nc\rd"), "a\nb\nc\rd");
    assert_eq!(round_trip("\r\r\n"), "\r\n");
    assert_eq!(round_trip("\n\r"), "\n\r");
}

#[test]
fn clipboard_round_trip_stops_at_the_first_nul() {
    assert_eq!(round_trip("ab\0cd\0"), "ab");
    assert_eq!(round_trip("\r\0\n"), "\r");
    assert_eq!(round_trip("\0"), "");
}

#[test]
fn plain_text_crosses_the_clipboard_unchanged() {
    let text = "linha um\nlinha dois\n\u{e7}\u{e3}o \u{1F44D}";
    assert_eq!(round_trip(text), text);
}

#[test]
fn a_last_odd_byte_is_dropped() {
    assert_eq!(cf_unicodetext_to_text(&[0x41, 0, 0x42]), "A");
    assert_eq!(cf_unicodetext_to_text(&[0x41]), "");
    assert_eq!(cf_unicodetext_to_text(&[]), "");
}

#[test]
fn text_without_terminator_is_read_to_its_end() {
    assert_eq!(cf_unicodetext_to_text(&[0x41, 0, 0x42, 0]), "AB");
}

#[test]
fn bridge_keeps_the_latest_text() {
    let mut bridge = ClipboardBridge::default();
    assert_eq!(bridge.get_local_text(), None);
    bridge.set_local_text("um".to_owned());
    bridge.set_local_text("dois".to_owned());
    assert_eq!(bridge.get_local_text(), Some("dois".to_owned()));
}

#[test]
fn local_text_is_advertised_when_the_channel_starts() {
    let mut bridge = ClipboardBridge::default();
    assert!(on_request_format_list(&bridge).is_none());
    bridge.set_local_text(String::new());
    assert!(matches!(
        on_request_format_list(&bridge),
        Some(ClipboardBackendMsg::InitiateCopy)
    ));
}

#[test]
fn only_text_is_fetched_from_the_remote() {
    // 13 is Unicode text, 1 is ANSI text, 2 a bitmap, 7 OEM text.
    assert!(matches!(
        on_remote_copy(&[2, 13]),
        Some(ClipboardBackendMsg::InitiatePaste)
    ));
    assert!(matches!(
        on_remote_copy(&[1]),
        Some(ClipboardBackendMsg::InitiatePaste)
    ));
    assert!(on_remote_copy(&[2, 7, 0xC000]).is_none());
    assert!(on_remote_copy(&[]).is_none());
}

#[test]
fn remote_gets_the_local_text_or_an_empty_one() {
    let mut bridge = ClipboardBridge::default();
    match on_format_data_request(&bridge) {
        ClipboardBackendMsg::SendFormatData(data) => assert_eq!(data, vec![0, 0]),
        _ => panic!("unexpected message"),
    }
    bridge.set_local_text("x\n".to_owned());
    match on_format_data_request(&bridge) {
        ClipboardBackendMsg::SendFormatData(data) => {
            assert_eq!(data, vec![120, 0, 13, 0, 10, 0, 0, 0])
        }
        _ => panic!("unexpected message"),
    }
}

#[test]
fn remote_text_is_forwarded_and_refusals_are_dropped() {
    match on_format_data_response(false, &[104, 0, 105, 0, 0, 0]) {
        Some(ClipboardBackendMsg::TextReceived(text)) => assert_eq!(text, "hi"),
        _ => panic!("unexpected message"),
    }
    assert!(on_format_data_response(true, &[104, 0]).is_none());
}
