use rtc_binding::error::RtcError;
use rtc_binding::text::NativeText;

#[test]
fn text_is_terminated() {
    let text = NativeText::new("stun:example.com").unwrap();
    assert_eq!(text.as_bytes(), b"stun:example.com");
    assert_eq!(text.as_bytes_with_nul(), b"stun:example.com\0");
    assert_eq!(text.len(), 16);
}

#[test]
fn empty_text_is_a_lone_terminator() {
    let text = NativeText::new("").unwrap();
    assert_eq!(text.len(), 0);
    assert_eq!(text.as_bytes(), b"");
    assert_eq!(text.as_bytes_with_nul(), b"\0");
    assert_eq!(text.to_str(), Ok(""));
}

#[test]
fn text_round_trips() {
    for input in ["a", "turn:relay.example.org:3478?transport=udp", "v=0\r\no=- 1 2 IN IP4 127.0.0.1\r\n"] {
        let text = NativeText::new(input).unwrap();
        assert_eq!(text.to_str(), Ok(input));
        assert_eq!(text.as_bytes(), input.as_bytes());
        assert_eq!(text.as_bytes_with_nul().last(), Some(&0u8));
        assert_eq!(text.as_bytes_with_nul().len(), input.len() + 1);
    }
}

#[test]
fn text_outside_ascii_round_trips_as_utf8() {
    let input = "gr\u{fc}\u{df}e \u{4f60}\u{597d} \u{1f600}";
    let text = NativeText::new(input).unwrap();
    assert_eq!(
        text.as_bytes(),
        [
            0x67, 0x72, 0xc3, 0xbc, 0xc3, 0x9f, 0x65, 0x20, 0xe4, 0xbd, 0xa0, 0xe5, 0xa5, 0xbd,
            0x20, 0xf0, 0x9f, 0x98, 0x80
        ]
    );
    assert!(!text.as_bytes().contains(&0));
    assert_eq!(text.to_str(), Ok(input));
}

#[test]
fn text_with_embedded_null_is_rejected() {
    assert_eq!(NativeText::new("a\0b").err(), Some(RtcError::InvalidText));
}

#[test]
fn text_with_null_at_either_end_is_rejected() {
    assert_eq!(NativeText::new("\0").err(), Some(RtcError::InvalidText));
    assert_eq!(NativeText::new("\0abc").err(), Some(RtcError::InvalidText));
    assert_eq!(NativeText::new("abc\0").err(), Some(RtcError::InvalidText));
}

#[test]
fn bytes_with_embedded_null_are_rejected() {
    assert_eq!(NativeText::from_bytes(&[1, 2, 0, 3]).err(), Some(RtcError::InvalidText));
    assert_eq!(NativeText::from_bytes(&[0]).err(), Some(RtcError::InvalidText));
}

#[test]
fn bytes_are_copied_and_terminated() {
    let text = NativeText::from_bytes(&[0x61, 0xff, 0x62]).unwrap();
    assert_eq!(text.as_bytes(), [0x61, 0xff, 0x62]);
    assert_eq!(text.as_bytes_with_nul(), [0x61, 0xff, 0x62, 0x00]);
    assert_eq!(text.len(), 3);
}

#[test]
fn bytes_that_are_not_utf8_do_not_decode() {
    let lone_continuation = NativeText::from_bytes(&[0x61, 0x80]).unwrap();
    assert_eq!(lone_continuation.to_str(), Err(RtcError::Utf8DecodingFailed));
    let truncated = NativeText::from_bytes(&[0xe4, 0xbd]).unwrap();
    assert_eq!(truncated.to_str(), Err(RtcError::Utf8DecodingFailed));
    let surrogate = NativeText::from_bytes(&[0xed, 0xa0, 0x80]).unwrap();
    assert_eq!(surrogate.to_str(), Err(RtcError::Utf8DecodingFailed));
    let overlong = NativeText::from_bytes(&[0xc1, 0x81]).unwrap();
    assert_eq!(overlong.to_str(), Err(RtcError::Utf8DecodingFailed));
}

#[test]
fn bytes_that_are_utf8_decode() {
    let text = NativeText::from_bytes(&[0xe4, 0xbd, 0xa0]).unwrap();
    assert_eq!(text.to_str(), Ok("\u{4f60}"));
}

#[test]
fn clone_keeps_the_content() {
    let text = NativeText::new("candidate:1 1 UDP 1 10.0.0.1 9 typ host").unwrap();
    let copy = text.clone();
    assert_eq!(copy.as_bytes_with_nul(), text.as_bytes_with_nul());
    assert_eq!(copy.to_str(), Ok("candidate:1 1 UDP 1 10.0.0.1 9 typ host"));
}

#[test]
fn every_error_has_its_own_message() {
    let all = [
        RtcError::InvalidText,
        RtcError::ConnectionCreationFailed,
        RtcError::NegotiationFailed,
        RtcError::UseAfterClose,
        RtcError::Utf8DecodingFailed,
    ];
    for (i, a) in all.iter().enumerate() {
        assert!(!a.message().is_empty());
        for b in &all[i + 1..] {
            assert_ne!(a.message(), b.message());
        }
    }
    assert_eq!(RtcError::InvalidText.message(), "text holds an embedded null byte");
    assert_eq!(RtcError::UseAfterClose.message(), "the connection has been closed");
}
